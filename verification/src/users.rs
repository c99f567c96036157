//! The user list: one user per line, the numeric id, one space, then the
//! full name. Blank lines are skipped; a line whose id is not a `u32` makes
//! the whole list unreadable.
use vstd::prelude::*;
use vstd::string::*;
use crate::text::{
    char_vec, find_in_range, is_blank, lemma_position_of, lemma_position_of_unique, position_of,
    range_is_blank,
};

verus! {

/// Why the user list could not be read.
#[derive(Debug)]
pub enum UsersError {
    /// A non-blank line does not start with a decimal `u32` id.
    WrongFormatId,
}

impl UsersError {
    /// The error's text.
    pub fn message(&self) -> (r: &'static str)
        ensures
            r@ == "Wrong format ID"@,
    {
        "Wrong format ID"
    }
}

/// An ASCII decimal digit.
pub open spec fn is_ascii_digit(c: char) -> bool {
    48 <= (c as u32) <= 57
}

pub open spec fn all_digits(s: Seq<char>) -> bool {
    forall|i: int| 0 <= i < s.len() ==> is_ascii_digit(#[trigger] s[i])
}

/// The number that a string of decimal digits spells.
pub open spec fn digits_value(s: Seq<char>) -> nat
    decreases s.len(),
{
    if s.len() == 0 {
        0
    } else {
        10 * digits_value(s.drop_last()) + ((s.last() as u32) - 48) as nat
    }
}

/// The digits that `u32::from_str` reads: all of `s` but one leading `+`.
pub open spec fn unsigned_digits(s: Seq<char>) -> Seq<char> {
    if s.len() > 0 && s[0] == '+' {
        s.drop_first()
    } else {
        s
    }
}

/// `u32::from_str`: an optional `+`, then one or more ASCII digits whose value
/// fits in a `u32`.
pub open spec fn parse_u32_spec(s: Seq<char>) -> Option<u32> {
    let d = unsigned_digits(s);
    if d.len() > 0 && all_digits(d) && digits_value(d) <= u32::MAX {
        Some(digits_value(d) as u32)
    } else {
        None
    }
}

/// What one line of the user list means.
pub enum LineEntry {
    /// Only whitespace: skipped.
    Blank,
    /// The part before the first space is not a `u32`.
    Malformed,
    /// An id and the name after the first space (empty when there is no space).
    User(u32, Seq<char>),
}

pub open spec fn line_entry(line: Seq<char>) -> LineEntry {
    if is_blank(line) {
        LineEntry::Blank
    } else {
        let p = position_of(line, ' ');
        match parse_u32_spec(line.subrange(0, p)) {
            Some(id) => LineEntry::User(
                id,
                if p < line.len() {
                    line.subrange(p + 1, line.len() as int)
                } else {
                    Seq::empty()
                },
            ),
            None => LineEntry::Malformed,
        }
    }
}

/// A line with one trailing carriage return removed.
pub open spec fn strip_cr(l: Seq<char>) -> Seq<char> {
    if l.len() > 0 && l.last() == '\r' {
        l.drop_last()
    } else {
        l
    }
}

/// The lines of a text as `BufRead::lines` yields them: split at each `\n`,
/// one `\r` before a `\n` dropped, no empty line after a final `\n`.
pub open spec fn lines_of(t: Seq<char>) -> Seq<Seq<char>>
    decreases t.len(),
{
    if t.len() == 0 {
        Seq::empty()
    } else {
        let k = position_of(t, '\n');
        if k < t.len() {
            proof {
                lemma_position_of(t, '\n');
            }
            seq![strip_cr(t.subrange(0, k))] + lines_of(t.subrange(k + 1, t.len() as int))
        } else {
            seq![t]
        }
    }
}

/// The users that a sequence of lines lists, in order, or `None` when one of
/// them is malformed.
pub open spec fn users_of_lines(ls: Seq<Seq<char>>) -> Option<Seq<(u32, Seq<char>)>>
    decreases ls.len(),
{
    if ls.len() == 0 {
        Some(Seq::empty())
    } else {
        match line_entry(ls[0]) {
            LineEntry::Blank => users_of_lines(ls.drop_first()),
            LineEntry::Malformed => None,
            LineEntry::User(id, name) => match users_of_lines(ls.drop_first()) {
                Some(rest) => Some(seq![(id, name)] + rest),
                None => None,
            },
        }
    }
}

/// The users that a whole text lists.
pub open spec fn users_of_text(t: Seq<char>) -> Option<Seq<(u32, Seq<char>)>> {
    users_of_lines(lines_of(t))
}

/// The users held in a vector, with names by their characters.
pub open spec fn users_view(v: Seq<(u32, String)>) -> Seq<(u32, Seq<char>)> {
    v.map_values(|u: (u32, String)| (u.0, u.1@))
}

/// A line's result against what the line means.
pub open spec fn line_result_is(r: Result<Option<(u32, String)>, UsersError>, e: LineEntry) -> bool {
    match e {
        LineEntry::Blank => r == Ok::<Option<(u32, String)>, UsersError>(None),
        LineEntry::Malformed => r is Err,
        LineEntry::User(id, name) => r matches Ok(Some(u)) && u.0 == id && u.1@ == name,
    }
}

/// A list result against what the text means.
pub open spec fn users_result_is(
    r: Result<Vec<(u32, String)>, UsersError>,
    e: Option<Seq<(u32, Seq<char>)>>,
) -> bool {
    match e {
        None => r is Err,
        Some(us) => r matches Ok(v) && users_view(v@) == us,
    }
}

proof fn lemma_digits_value_prefix(s: Seq<char>, p: int)
    requires
        0 <= p <= s.len(),
    ensures
        digits_value(s.subrange(0, p)) <= digits_value(s),
    decreases s.len(),
{
    if p < s.len() {
        lemma_digits_value_prefix(s.drop_last(), p);
        assert(s.drop_last().subrange(0, p) =~= s.subrange(0, p));
    } else {
        assert(s.subrange(0, p) =~= s);
    }
}

/// `u32::from_str` on `chars[start..end]`.
fn parse_u32_range(chars: &Vec<char>, start: usize, end: usize) -> (r: Option<u32>)
    requires
        start <= end <= chars@.len(),
    ensures
        r == parse_u32_spec(chars@.subrange(start as int, end as int)),
{
    let ghost s = chars@.subrange(start as int, end as int);
    let mut a = start;
    if a < end && chars[a] == '+' {
        a += 1;
    }
    let ghost d = chars@.subrange(a as int, end as int);
    assert(d =~= unsigned_digits(s));
    if a == end {
        return None;
    }
    let mut value: u64 = 0;
    let mut i = a;
    while i < end
        invariant
            start <= a <= i <= end <= chars@.len(),
            d == chars@.subrange(a as int, end as int),
            d == unsigned_digits(chars@.subrange(start as int, end as int)),
            d.len() > 0,
            all_digits(chars@.subrange(a as int, i as int)),
            value == digits_value(chars@.subrange(a as int, i as int)),
            value <= u32::MAX,
        decreases end - i,
    {
        let c = chars[i];
        let v = c as u32;
        if v < 48 || v > 57 {
            assert(d[i - a] == c);
            return None;
        }
        let next = value * 10 + (v - 48) as u64;
        proof {
            let pre = chars@.subrange(a as int, i as int);
            let ext = chars@.subrange(a as int, i + 1);
            assert(ext.drop_last() =~= pre);
            assert(ext.last() == c);
            assert forall|j: int| 0 <= j < ext.len() implies is_ascii_digit(#[trigger] ext[j]) by {
                if j < pre.len() {
                    assert(ext[j] == pre[j]);
                }
            }
        }
        if next > 0xffff_ffff {
            proof {
                let ext = chars@.subrange(a as int, i + 1);
                if all_digits(d) {
                    assert(d.subrange(0, i + 1 - a) =~= ext);
                    lemma_digits_value_prefix(d, i + 1 - a);
                }
            }
            return None;
        }
        value = next;
        i += 1;
    }
    assert(chars@.subrange(a as int, end as int) =~= d);
    Some(value as u32)
}

/// `u32::from_str` on a whole string: the id field of a user line.
pub fn parse_user_id(s: &str) -> (r: Option<u32>)
    ensures
        r == parse_u32_spec(s@),
{
    let chars = char_vec(s);
    let r = parse_u32_range(&chars, 0, chars.len());
    assert(chars@.subrange(0, chars@.len() as int) =~= s@);
    r
}

/// Reads the line `chars[start..end]` of `text`.
fn read_line_range(text: &str, chars: &Vec<char>, start: usize, end: usize) -> (r: Result<
    Option<(u32, String)>,
    UsersError,
>)
    requires
        chars@ == text@,
        start <= end <= chars@.len(),
    ensures
        line_result_is(r, line_entry(chars@.subrange(start as int, end as int))),
{
    let ghost line = chars@.subrange(start as int, end as int);
    if range_is_blank(chars, start, end) {
        return Ok(None);
    }
    let p = find_in_range(chars, start, end, ' ');
    let space = start + p;
    assert(chars@.subrange(start as int, space as int) =~= line.subrange(0, p as int));
    match parse_u32_range(chars, start, space) {
        None => Err(UsersError::WrongFormatId),
        Some(id) => {
            if space < end {
                let name = text.substring_char(space + 1, end).to_owned();
                assert(name@ =~= line.subrange(p + 1, line.len() as int));
                Ok(Some((id, name)))
            } else {
                let name = String::new();
                assert(name@ =~= Seq::<char>::empty());
                Ok(Some((id, name)))
            }
        },
    }
}

/// Reads one line of the user list: `Ok(None)` for a blank line, the id and
/// the name for a user, an error when the id is not a `u32`.
pub fn parse_user_line(line: &str) -> (r: Result<Option<(u32, String)>, UsersError>)
    ensures
        line_result_is(r, line_entry(line@)),
{
    let chars = char_vec(line);
    assert(chars@.subrange(0, chars@.len() as int) =~= line@);
    read_line_range(line, &chars, 0, chars.len())
}

/// Prepends the users read so far to what the rest of the text gives.
pub open spec fn prepend_users(
    done: Seq<(u32, Seq<char>)>,
    rest: Option<Seq<(u32, Seq<char>)>>,
) -> Option<Seq<(u32, Seq<char>)>> {
    match rest {
        Some(r) => Some(done + r),
        None => None,
    }
}

proof fn lemma_lines_split(t: Seq<char>, k: int)
    requires
        0 <= k < t.len(),
        t[k] == '\n',
        forall|j: int| 0 <= j < k ==> t[j] != '\n',
    ensures
        lines_of(t) == seq![strip_cr(t.subrange(0, k))] + lines_of(t.subrange(k + 1, t.len() as int)),
{
    lemma_position_of_unique(t, '\n', k);
}

proof fn lemma_lines_last(t: Seq<char>)
    requires
        t.len() > 0,
        forall|j: int| 0 <= j < t.len() ==> t[j] != '\n',
    ensures
        lines_of(t) == seq![t],
{
    lemma_position_of_unique(t, '\n', t.len() as int);
}

proof fn lemma_users_of_cons(l: Seq<char>, rest: Seq<Seq<char>>)
    ensures
        users_of_lines(seq![l] + rest) == match line_entry(l) {
            LineEntry::Blank => users_of_lines(rest),
            LineEntry::Malformed => None,
            LineEntry::User(id, name) => prepend_users(seq![(id, name)], users_of_lines(rest)),
        },
{
    let ls = seq![l] + rest;
    assert(ls[0] == l);
    assert(ls.drop_first() =~= rest);
}

/// Reads the whole user list (the text of the file): the users of every
/// non-blank line, in order, or an error when any non-blank line's id is
/// not a `u32`.
pub fn parse_users(text: &str) -> (r: Result<Vec<(u32, String)>, UsersError>)
    ensures
        users_result_is(r, users_of_text(text@)),
{
    let chars = char_vec(text);
    let n = chars.len();
    let mut users: Vec<(u32, String)> = Vec::new();
    let mut start: usize = 0;
    let mut i: usize = 0;
    proof {
        assert(chars@.subrange(0, n as int) =~= text@);
        assert(users_view(users@) =~= Seq::empty());
        match users_of_text(text@) {
            Some(r) => {
                assert(Seq::<(u32, Seq<char>)>::empty() + r =~= r);
            },
            None => {},
        }
    }
    while i < n
        invariant
            n == chars@.len(),
            chars@ == text@,
            start <= i <= n,
            forall|j: int| start <= j < i ==> chars@[j] != '\n',
            users_of_text(text@) == prepend_users(
                users_view(users@),
                users_of_lines(lines_of(chars@.subrange(start as int, n as int))),
            ),
        decreases n - i,
    {
        if chars[i] == '\n' {
            let ghost t = chars@.subrange(start as int, n as int);
            let end = if i > start && chars[i - 1] == '\r' {
                i - 1
            } else {
                i
            };
            proof {
                let k = i - start;
                assert(t[k] == '\n');
                assert forall|j: int| 0 <= j < k implies t[j] != '\n' by {
                    assert(t[j] == chars@[start + j]);
                }
                lemma_lines_split(t, k);
                assert(t.subrange(0, k) =~= chars@.subrange(start as int, i as int));
                assert(strip_cr(t.subrange(0, k)) =~= chars@.subrange(start as int, end as int));
                assert(t.subrange(k + 1, t.len() as int) =~= chars@.subrange(i + 1, n as int));
                lemma_users_of_cons(
                    chars@.subrange(start as int, end as int),
                    lines_of(chars@.subrange(i + 1, n as int)),
                );
            }
            let entry = read_line_range(text, &chars, start, end);
            match entry {
                Err(e) => {
                    return Err(e);
                },
                Ok(None) => {},
                Ok(Some(u)) => {
                    let ghost before = users@;
                    users.push(u);
                    proof {
                        assert(users_view(users@) =~= users_view(before) + seq![(u.0, u.1@)]);
                        let rest = users_of_lines(lines_of(chars@.subrange(i + 1, n as int)));
                        match rest {
                            Some(r) => {
                                assert(users_view(before) + (seq![(u.0, u.1@)] + r) =~= users_view(
                                    users@,
                                ) + r);
                            },
                            None => {},
                        }
                    }
                },
            }
            start = i + 1;
        }
        i += 1;
    }
    if start < n {
        let ghost t = chars@.subrange(start as int, n as int);
        proof {
            assert forall|j: int| 0 <= j < t.len() implies t[j] != '\n' by {
                assert(t[j] == chars@[start + j]);
            }
            lemma_lines_last(t);
            assert(seq![t] =~= seq![t] + Seq::<Seq<char>>::empty());
            lemma_users_of_cons(t, Seq::empty());
        }
        let entry = read_line_range(text, &chars, start, n);
        match entry {
            Err(e) => {
                return Err(e);
            },
            Ok(None) => {
                assert(users_view(users@) + Seq::empty() =~= users_view(users@));
            },
            Ok(Some(u)) => {
                let ghost before = users@;
                users.push(u);
                assert(users_view(users@) =~= users_view(before) + seq![(u.0, u.1@)]);
            },
        }
    } else {
        assert(chars@.subrange(start as int, n as int) =~= Seq::<char>::empty());
        assert(users_view(users@) + Seq::empty() =~= users_view(users@));
    }
    Ok(users)
}

} // verus!
