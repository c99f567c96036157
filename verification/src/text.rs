//! Character-level helpers shared by the parsers and the page classifiers:
//! the whitespace set of `char::is_whitespace`, first-occurrence search,
//! substring search and decimal rendering.
use vstd::prelude::*;
use vstd::string::*;

verus! {

/// The Unicode `White_Space` property, which `char::is_whitespace` (and so
/// `str::trim`) follows.
pub open spec fn is_white_space(c: char) -> bool {
    let v = c as u32;
    ||| 0x9 <= v <= 0xd
    ||| v == 0x20
    ||| v == 0x85
    ||| v == 0xa0
    ||| v == 0x1680
    ||| 0x2000 <= v <= 0x200a
    ||| v == 0x2028
    ||| v == 0x2029
    ||| v == 0x202f
    ||| v == 0x205f
    ||| v == 0x3000
}

/// A line is blank when trimming it leaves nothing: every character is whitespace.
pub open spec fn is_blank(s: Seq<char>) -> bool {
    forall|i: int| 0 <= i < s.len() ==> is_white_space(#[trigger] s[i])
}

/// Index of the first `c` in `s`, or `s.len()` when `c` does not occur
/// (`str::find(c).unwrap_or(len)`, counted in characters).
pub open spec fn position_of(s: Seq<char>, c: char) -> int
    decreases s.len(),
{
    if s.len() == 0 {
        0
    } else if s[0] == c {
        0
    } else {
        1 + position_of(s.drop_first(), c)
    }
}

/// What characterises `position_of`: it is in range, nothing before it is `c`,
/// and it points at a `c` unless it is the length.
pub proof fn lemma_position_of(s: Seq<char>, c: char)
    ensures
        0 <= position_of(s, c) <= s.len(),
        forall|j: int| 0 <= j < position_of(s, c) ==> s[j] != c,
        position_of(s, c) < s.len() ==> s[position_of(s, c)] == c,
    decreases s.len(),
{
    if s.len() > 0 && s[0] != c {
        lemma_position_of(s.drop_first(), c);
        assert forall|j: int| 0 <= j < position_of(s, c) implies s[j] != c by {
            if j > 0 {
                assert(s[j] == s.drop_first()[j - 1]);
            }
        }
    }
}

/// Any index with the characterising properties is `position_of`.
pub proof fn lemma_position_of_unique(s: Seq<char>, c: char, k: int)
    requires
        0 <= k <= s.len(),
        forall|j: int| 0 <= j < k ==> s[j] != c,
        k < s.len() ==> s[k] == c,
    ensures
        position_of(s, c) == k,
{
    lemma_position_of(s, c);
    let p = position_of(s, c);
    if p < k {
        assert(s[p] == c);
    } else if k < p {
        assert(s[k] != c);
    }
}

/// `pat` occurs in `text` starting at index `i`.
pub open spec fn occurs_at(text: Seq<char>, pat: Seq<char>, i: int) -> bool {
    &&& 0 <= i
    &&& i + pat.len() <= text.len()
    &&& text.subrange(i, i + pat.len()) == pat
}

/// `str::contains` with a string pattern.
pub open spec fn contains_seq(text: Seq<char>, pat: Seq<char>) -> bool {
    exists|i: int| #[trigger] occurs_at(text, pat, i)
}

/// The decimal digit for a value below ten.
pub open spec fn digit_char(d: nat) -> char {
    if d == 0 {
        '0'
    } else if d == 1 {
        '1'
    } else if d == 2 {
        '2'
    } else if d == 3 {
        '3'
    } else if d == 4 {
        '4'
    } else if d == 5 {
        '5'
    } else if d == 6 {
        '6'
    } else if d == 7 {
        '7'
    } else if d == 8 {
        '8'
    } else {
        '9'
    }
}

/// How `Display` writes an unsigned integer: its decimal digits, without
/// sign or leading zeros.
pub open spec fn decimal(n: nat) -> Seq<char>
    decreases n,
{
    if n < 10 {
        seq![digit_char(n)]
    } else {
        decimal(n / 10).push(digit_char(n % 10))
    }
}

/// `char::is_whitespace`.
pub fn is_whitespace_char(c: char) -> (r: bool)
    ensures
        r == is_white_space(c),
{
    let v = c as u32;
    (0x9 <= v && v <= 0xd) || v == 0x20 || v == 0x85 || v == 0xa0 || v == 0x1680 || (0x2000 <= v
        && v <= 0x200a) || v == 0x2028 || v == 0x2029 || v == 0x202f || v == 0x205f || v == 0x3000
}

/// The characters of `s`, in order.
pub fn char_vec(s: &str) -> (chars: Vec<char>)
    ensures
        chars@ == s@,
{
    let mut chars: Vec<char> = Vec::new();
    for c in it: s.chars()
        invariant
            chars@ == it.seq().take(it.index() as int),
            it.seq() == s@,
    {
        chars.push(c);
    }
    assert(chars@ == s@);
    chars
}

/// Whether every character of `chars[start..end]` is whitespace.
pub fn range_is_blank(chars: &Vec<char>, start: usize, end: usize) -> (r: bool)
    requires
        start <= end <= chars@.len(),
    ensures
        r == is_blank(chars@.subrange(start as int, end as int)),
{
    let ghost s = chars@.subrange(start as int, end as int);
    let mut i = start;
    while i < end
        invariant
            start <= i <= end <= chars@.len(),
            s == chars@.subrange(start as int, end as int),
            forall|j: int| start <= j < i ==> is_white_space(#[trigger] chars@[j]),
        decreases end - i,
    {
        if !is_whitespace_char(chars[i]) {
            assert(s[i - start] == chars@[i as int]);
            return false;
        }
        i += 1;
    }
    assert forall|j: int| 0 <= j < s.len() implies is_white_space(#[trigger] s[j]) by {
        assert(s[j] == chars@[start + j]);
    }
    true
}

/// Index of the first `c` in `chars[start..end]`, counted from `start`
/// (`end - start` when there is none).
pub fn find_in_range(chars: &Vec<char>, start: usize, end: usize, c: char) -> (r: usize)
    requires
        start <= end <= chars@.len(),
    ensures
        r == position_of(chars@.subrange(start as int, end as int), c),
        r <= end - start,
{
    let ghost s = chars@.subrange(start as int, end as int);
    let mut i = start;
    while i < end
        invariant
            start <= i <= end <= chars@.len(),
            s == chars@.subrange(start as int, end as int),
            forall|j: int| start <= j < i ==> chars@[j] != c,
        decreases end - i,
    {
        if chars[i] == c {
            proof {
                assert forall|j: int| 0 <= j < i - start implies s[j] != c by {
                    assert(s[j] == chars@[start + j]);
                }
                assert(s[i - start] == c);
                lemma_position_of_unique(s, c, i - start);
            }
            return i - start;
        }
        i += 1;
    }
    proof {
        assert forall|j: int| 0 <= j < end - start implies s[j] != c by {
            assert(s[j] == chars@[start + j]);
        }
        lemma_position_of_unique(s, c, end - start);
    }
    end - start
}

/// Whether `pat` occurs at index `i` of `text`.
pub fn matches_at(text: &Vec<char>, pat: &Vec<char>, i: usize) -> (r: bool)
    requires
        i + pat@.len() <= text@.len(),
    ensures
        r == occurs_at(text@, pat@, i as int),
{
    let m = pat.len();
    let mut k: usize = 0;
    while k < m
        invariant
            m == pat@.len(),
            i + m <= text@.len(),
            text@.len() == text.len(),
            k <= m,
            forall|t: int| 0 <= t < k ==> text@[i + t] == pat@[t],
        decreases m - k,
    {
        if text[i + k] != pat[k] {
            assert(text@.subrange(i as int, i + m)[k as int] != pat@[k as int]);
            return false;
        }
        k += 1;
    }
    assert(text@.subrange(i as int, i + m) =~= pat@);
    true
}

/// `str::contains`: whether `pat` occurs anywhere in `text`.
pub fn contains_chars(text: &Vec<char>, pat: &Vec<char>) -> (r: bool)
    ensures
        r == contains_seq(text@, pat@),
{
    let n = text.len();
    let m = pat.len();
    if m > n {
        assert forall|i: int| !#[trigger] occurs_at(text@, pat@, i) by {}
        return false;
    }
    if m == 0 {
        assert(text@.subrange(0, 0) =~= pat@);
        assert(occurs_at(text@, pat@, 0));
        return true;
    }
    let mut i: usize = 0;
    while i <= n - m
        invariant
            n == text@.len(),
            m == pat@.len(),
            1 <= m <= n,
            forall|j: int| 0 <= j < i ==> !#[trigger] occurs_at(text@, pat@, j),
        decreases n - m + 1 - i,
    {
        if matches_at(text, pat, i) {
            return true;
        }
        i += 1;
    }
    assert forall|j: int| !#[trigger] occurs_at(text@, pat@, j) by {
        if 0 <= j && j < i {
        }
    }
    false
}

/// The one-character string of a decimal digit.
fn digit_str(d: u64) -> (r: &'static str)
    requires
        d < 10,
    ensures
        r@ == seq![digit_char(d as nat)],
{
    if d == 0 {
        proof { reveal_strlit("0"); }
        "0"
    } else if d == 1 {
        proof { reveal_strlit("1"); }
        "1"
    } else if d == 2 {
        proof { reveal_strlit("2"); }
        "2"
    } else if d == 3 {
        proof { reveal_strlit("3"); }
        "3"
    } else if d == 4 {
        proof { reveal_strlit("4"); }
        "4"
    } else if d == 5 {
        proof { reveal_strlit("5"); }
        "5"
    } else if d == 6 {
        proof { reveal_strlit("6"); }
        "6"
    } else if d == 7 {
        proof { reveal_strlit("7"); }
        "7"
    } else if d == 8 {
        proof { reveal_strlit("8"); }
        "8"
    } else {
        proof { reveal_strlit("9"); }
        "9"
    }
}

/// `n.to_string()` for an unsigned integer.
pub fn decimal_string(n: u64) -> (s: String)
    ensures
        s@ == decimal(n as nat),
    decreases n,
{
    if n < 10 {
        String::from_str(digit_str(n))
    } else {
        let mut s = decimal_string(n / 10);
        s.append(digit_str(n % 10));
        s
    }
}

/// Law: `pat` occurs in `text` exactly when `text` is some text, then `pat`,
/// then some more text.
pub proof fn lemma_contains_iff_split(text: Seq<char>, pat: Seq<char>)
    ensures
        contains_seq(text, pat) <==> exists|a: Seq<char>, b: Seq<char>| #[trigger] (a + pat + b) == text,
{
    if contains_seq(text, pat) {
        let i = choose|i: int| occurs_at(text, pat, i);
        let a = text.subrange(0, i);
        let b = text.subrange(i + pat.len(), text.len() as int);
        assert(a + pat + b =~= text);
    }
    if exists|a: Seq<char>, b: Seq<char>| #[trigger] (a + pat + b) == text {
        let (a, b) = choose|a: Seq<char>, b: Seq<char>| #[trigger] (a + pat + b) == text;
        assert(text.subrange(a.len() as int, (a.len() + pat.len()) as int) =~= pat);
        assert(occurs_at(text, pat, a.len() as int));
    }
}

/// Law: text put before or after a text keeps every occurrence in it.
pub proof fn lemma_contains_extend(text: Seq<char>, pat: Seq<char>, before: Seq<char>, after: Seq<char>)
    requires
        contains_seq(text, pat),
    ensures
        contains_seq(before + text + after, pat),
{
    let i = choose|i: int| occurs_at(text, pat, i);
    let whole = before + text + after;
    let j = before.len() + i;
    assert(whole.subrange(j, j + pat.len()) =~= text.subrange(i, i + pat.len()));
    assert(occurs_at(whole, pat, j));
}

} // verus!
