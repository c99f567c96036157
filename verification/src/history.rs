//! The saved login-history pages: where they are stored, what the device
//! columns say about a user, how the table bodies are written out, and
//! which files a clean-up removes.
use vstd::prelude::*;
use vstd::string::*;
use crate::text::{
    char_vec, contains_chars, contains_seq, decimal, decimal_string, lemma_contains_extend,
    lemma_contains_iff_split, matches_at, occurs_at,
};

verus! {

/// The site whose user profiles are visited.
pub const BASE_URL: &'static str = "https://relits.bitrix24.ru";

/// The file that holds a user's saved login history: `<name>_history.html`.
pub fn history_file_name(user_name: &str) -> (r: String)
    ensures
        r@ == user_name@ + "_history.html"@,
{
    String::from_str(user_name).concat("_history.html")
}

/// The profile page of a user: `<base>/company/personal/user/<id>`.
pub fn profile_url(base_url: &str, user_id: u32) -> (r: String)
    ensures
        r@ == base_url@ + "/company/personal/user/"@ + decimal(user_id as nat),
{
    let mut r = String::from_str(base_url).concat("/company/personal/user/");
    let id = decimal_string(user_id as u64);
    r.append(id.as_str());
    r
}

/// A history page that mentions a mobile platform ("iOS" or "Android").
pub open spec fn mentions_mobile(page: Seq<char>) -> bool {
    contains_seq(page, "iOS"@) || contains_seq(page, "Android"@)
}

/// A history page that mentions no desktop platform ("Windows" or "Win").
pub open spec fn mentions_no_desktop(page: Seq<char>) -> bool {
    !contains_seq(page, "Windows"@) && !contains_seq(page, "Win"@)
}

/// Whether the user's saved history shows a login from a phone; `None`
/// (the page could not be read) counts as no.
pub fn is_good_android(history: Option<&str>) -> (r: bool)
    ensures
        r == match history {
            Some(page) => mentions_mobile(page@),
            None => false,
        },
{
    match history {
        None => false,
        Some(page) => {
            let chars = char_vec(page);
            contains_chars(&chars, &char_vec("iOS")) || contains_chars(&chars, &char_vec("Android"))
        },
    }
}

/// Whether the user's saved history shows no login from a desktop; `None`
/// (the page could not be read) counts as no.
pub fn is_no_desktop(history: Option<&str>) -> (r: bool)
    ensures
        r == match history {
            Some(page) => mentions_no_desktop(page@),
            None => false,
        },
{
    match history {
        None => false,
        Some(page) => {
            let chars = char_vec(page);
            !contains_chars(&chars, &char_vec("Windows")) && !contains_chars(&chars, &char_vec("Win"))
        },
    }
}

/// Law: since "Win" is part of "Windows", a page shows no desktop exactly
/// when "Win" does not occur in it.
pub proof fn lemma_no_desktop_is_no_win(page: Seq<char>)
    ensures
        mentions_no_desktop(page) == !contains_seq(page, "Win"@),
{
    reveal_strlit("Windows");
    reveal_strlit("Win");
    if contains_seq(page, "Windows"@) {
        let i = choose|i: int| occurs_at(page, "Windows"@, i);
        assert(page.subrange(i, i + 3) =~= page.subrange(i, i + 7).subrange(0, 3));
        assert("Windows"@.subrange(0, 3) =~= "Win"@);
        assert(occurs_at(page, "Win"@, i));
    }
}

/// What a user's saved history says.
pub struct HistoryVerdict {
    /// Seen from a phone (`is_good_android`).
    pub good_mobile: bool,
    /// Never seen from a desktop (`is_no_desktop`).
    pub no_desktop: bool,
}

/// Both verdicts on one saved history.
pub fn classify_history(history: Option<&str>) -> (r: HistoryVerdict)
    ensures
        r.good_mobile == match history {
            Some(page) => mentions_mobile(page@),
            None => false,
        },
        r.no_desktop == match history {
            Some(page) => mentions_no_desktop(page@),
            None => false,
        },
{
    HistoryVerdict { good_mobile: is_good_android(history), no_desktop: is_no_desktop(history) }
}

/// The markup read from one table body: its outer HTML, else its inner HTML,
/// when the browser gave them.
pub struct TbodyMarkup {
    pub outer: Option<String>,
    pub inner: Option<String>,
}

/// The line of forty dashes under a section header.
pub open spec fn divider() -> Seq<char> {
    Seq::new(40, |i: int| '-')
}

/// The section written for table body number `number` (counted from one):
/// a header and the outer HTML, or a header marked "(inner)" and the inner
/// HTML, or nothing when neither could be read.
pub open spec fn tbody_section(number: nat, m: TbodyMarkup) -> Seq<char> {
    match m.outer {
        Some(html) => "[TBODY #"@ + decimal(number) + "]\n"@ + divider() + "\n"@ + html@ + "\n\n"@,
        None => match m.inner {
            Some(html) => "[TBODY #"@ + decimal(number) + " (inner)]\n"@ + html@ + "\n\n"@,
            None => Seq::empty(),
        },
    }
}

/// The sections of all table bodies, in order.
pub open spec fn tbodies_content(ms: Seq<TbodyMarkup>) -> Seq<char>
    decreases ms.len(),
{
    if ms.len() == 0 {
        Seq::empty()
    } else {
        tbodies_content(ms.drop_last()) + tbody_section(ms.len(), ms.last())
    }
}

/// A table body that yielded some markup.
pub open spec fn has_markup(m: TbodyMarkup) -> bool {
    m.outer is Some || m.inner is Some
}

proof fn lemma_content_empty(ms: Seq<TbodyMarkup>)
    ensures
        (tbodies_content(ms).len() == 0) <==> (forall|i: int| 0 <= i < ms.len() ==> !has_markup(#[trigger] ms[i])),
    decreases ms.len(),
{
    reveal_strlit("[TBODY #");
    if ms.len() > 0 {
        lemma_content_empty(ms.drop_last());
        let last = ms.last();
        assert(ms[ms.len() - 1] == last);
        if has_markup(last) {
            assert(tbody_section(ms.len(), last).len() > 0);
        } else {
            assert(tbody_section(ms.len(), last) =~= Seq::<char>::empty());
            assert forall|i: int| 0 <= i < ms.len() - 1 implies #[trigger] ms[i] == ms.drop_last()[i] by {}
        }
        if forall|i: int| 0 <= i < ms.len() ==> !has_markup(#[trigger] ms[i]) {
            assert(!has_markup(ms[ms.len() - 1]));
            assert forall|i: int| 0 <= i < ms.drop_last().len() implies !has_markup(
                #[trigger] ms.drop_last()[i],
            ) by {
                assert(ms.drop_last()[i] == ms[i]);
            }
        }
    }
}

/// Appends the section of table body `number` to `content`.
fn append_section(content: &mut String, number: u64, m: &TbodyMarkup)
    ensures
        final(content)@ == old(content)@ + tbody_section(number as nat, *m),
{
    match &m.outer {
        Some(html) => {
            let ghost before = content@;
            content.append("[TBODY #");
            content.append(decimal_string(number).as_str());
            content.append("]\n");
            content.append("----------------------------------------");
            content.append("\n");
            content.append(html.as_str());
            content.append("\n\n");
            proof {
                reveal_strlit("----------------------------------------");
                assert("----------------------------------------"@ =~= divider());
                assert(content@ =~= before + tbody_section(number as nat, *m));
            }
        },
        None => match &m.inner {
            Some(html) => {
                let ghost before = content@;
                content.append("[TBODY #");
                content.append(decimal_string(number).as_str());
                content.append(" (inner)]\n");
                content.append(html.as_str());
                content.append("\n\n");
                assert(content@ =~= before + tbody_section(number as nat, *m));
            },
            None => {
                assert(content@ =~= old(content)@ + tbody_section(number as nat, *m));
            },
        },
    }
}

/// The text saved for a login-history table: the section of every table
/// body, or `None` when no body yielded any markup (nothing is saved then).
pub fn render_tbodies(tbodies: &Vec<TbodyMarkup>) -> (r: Option<String>)
    ensures
        r is None <==> (forall|i: int| 0 <= i < tbodies@.len() ==> !has_markup(#[trigger] tbodies@[i])),
        r matches Some(s) ==> s@ == tbodies_content(tbodies@),
{
    let mut content = String::new();
    let n = tbodies.len();
    let mut i: usize = 0;
    while i < n
        invariant
            n == tbodies@.len(),
            i <= n,
            content@ == tbodies_content(tbodies@.subrange(0, i as int)),
        decreases n - i,
    {
        append_section(&mut content, i as u64 + 1, &tbodies[i]);
        proof {
            let pre = tbodies@.subrange(0, i + 1);
            assert(pre.drop_last() =~= tbodies@.subrange(0, i as int));
            assert(pre.last() == tbodies@[i as int]);
        }
        i += 1;
    }
    proof {
        assert(tbodies@.subrange(0, n as int) =~= tbodies@);
        lemma_content_empty(tbodies@);
    }
    if content.as_str().is_empty() {
        None
    } else {
        Some(content)
    }
}

/// The last index of `c` in `s`, or -1.
pub open spec fn last_position_of(s: Seq<char>, c: char) -> int
    decreases s.len(),
{
    if s.len() == 0 {
        -1
    } else if s.last() == c {
        s.len() - 1
    } else {
        last_position_of(s.drop_last(), c)
    }
}

/// `Path::extension` of a file name: the part after the last `.`, unless
/// there is no `.` or the only one starts the name.
pub open spec fn file_extension(name: Seq<char>) -> Option<Seq<char>> {
    let p = last_position_of(name, '.');
    if p <= 0 {
        None
    } else {
        Some(name.subrange(p + 1, name.len() as int))
    }
}

/// The index of the last `c` in `chars`, if any.
fn find_last(chars: &Vec<char>, c: char) -> (r: Option<usize>)
    ensures
        match r {
            Some(p) => p as int == last_position_of(chars@, c) && p < chars@.len(),
            None => last_position_of(chars@, c) == -1,
        },
{
    let mut i = chars.len();
    assert(chars@.subrange(0, i as int) =~= chars@);
    while i > 0
        invariant
            i <= chars@.len(),
            last_position_of(chars@, c) == last_position_of(chars@.subrange(0, i as int), c),
        decreases i,
    {
        let ghost pre = chars@.subrange(0, i as int);
        assert(pre.last() == chars@[i - 1]);
        if chars[i - 1] == c {
            return Some(i - 1);
        }
        assert(pre.drop_last() =~= chars@.subrange(0, i - 1));
        i -= 1;
    }
    None
}

/// A saved page: a regular file whose extension is exactly `html`.
pub open spec fn saved_page(is_file: bool, name: Seq<char>) -> bool {
    is_file && file_extension(name) == Some("html"@)
}

/// What a directory holds after a clean-up: the entries (whether each is a
/// regular file, and its name) that are not saved pages, in order.
pub open spec fn kept_after_clean_up(entries: Seq<(bool, Seq<char>)>) -> Seq<(bool, Seq<char>)> {
    entries.filter(|e: (bool, Seq<char>)| !saved_page(e.0, e.1))
}

proof fn lemma_filter_keeps_all<A>(s: Seq<A>, pred: spec_fn(A) -> bool)
    requires
        forall|i: int| 0 <= i < s.len() ==> pred(#[trigger] s[i]),
    ensures
        s.filter(pred) == s,
    decreases s.len(),
{
    reveal(Seq::filter);
    if s.len() > 0 {
        assert forall|i: int| 0 <= i < s.drop_last().len() implies pred(#[trigger] s.drop_last()[i]) by {
            assert(s.drop_last()[i] == s[i]);
        }
        lemma_filter_keeps_all(s.drop_last(), pred);
        assert(pred(s[s.len() - 1]));
        assert(s.drop_last().push(s.last()) =~= s);
    }
}

/// Law: a clean-up leaves no saved page behind, so a second clean-up of the
/// same directory removes nothing.
pub proof fn lemma_clean_up_idempotent(entries: Seq<(bool, Seq<char>)>)
    ensures
        forall|i: int|
            0 <= i < kept_after_clean_up(entries).len() ==> !saved_page(
                #[trigger] kept_after_clean_up(entries)[i].0,
                kept_after_clean_up(entries)[i].1,
            ),
        kept_after_clean_up(kept_after_clean_up(entries)) == kept_after_clean_up(entries),
{
    let pred = |e: (bool, Seq<char>)| !saved_page(e.0, e.1);
    let kept = kept_after_clean_up(entries);
    assert forall|i: int| 0 <= i < kept.len() implies pred(#[trigger] kept[i]) by {
        entries.lemma_filter_pred(pred, i);
    }
    lemma_filter_keeps_all(kept, pred);
}

/// Whether a directory entry is a saved page that a clean-up removes: a
/// regular file whose extension is exactly `html`.
pub fn is_saved_page(is_file: bool, file_name: &str) -> (r: bool)
    ensures
        r == saved_page(is_file, file_name@),
{
    if !is_file {
        return false;
    }
    let chars = char_vec(file_name);
    let ext = char_vec("html");
    let len = chars.len();
    match find_last(&chars, '.') {
        None => false,
        Some(p) => {
            if p == 0 {
                return false;
            }
            let start = p + 1;
            if len - start != ext.len() {
                assert(chars@.subrange(start as int, chars@.len() as int).len() != ext@.len());
                return false;
            }
            let same = matches_at(&chars, &ext, start);
            proof {
                if same {
                    assert(chars@.subrange(start as int, chars@.len() as int) =~= ext@);
                }
            }
            same
        },
    }
}

/// Law: a page shows a phone exactly when it is some text, then "iOS" or
/// "Android", then some more text: anywhere in the page counts.
pub proof fn lemma_mobile_is_platform_anywhere(page: Seq<char>)
    ensures
        mentions_mobile(page) <==> (exists|a: Seq<char>, b: Seq<char>| #[trigger] (a + "iOS"@ + b) == page) || (
        exists|a: Seq<char>, b: Seq<char>| #[trigger] (a + "Android"@ + b) == page),
{
    lemma_contains_iff_split(page, "iOS"@);
    lemma_contains_iff_split(page, "Android"@);
}

/// Law: a page shows no desktop exactly when it is not some text, then
/// "Win", then some more text.
pub proof fn lemma_no_desktop_is_no_win_anywhere(page: Seq<char>)
    ensures
        mentions_no_desktop(page) <==> !exists|a: Seq<char>, b: Seq<char>| #[trigger] (a + "Win"@ + b) == page,
{
    lemma_no_desktop_is_no_win(page);
    lemma_contains_iff_split(page, "Win"@);
}

/// Law: text added before or after a page keeps a phone seen and a desktop
/// seen: the verdicts look at the whole page.
pub proof fn lemma_verdicts_survive_more_text(page: Seq<char>, before: Seq<char>, after: Seq<char>)
    ensures
        mentions_mobile(page) ==> mentions_mobile(before + page + after),
        !mentions_no_desktop(page) ==> !mentions_no_desktop(before + page + after),
{
    if contains_seq(page, "iOS"@) {
        lemma_contains_extend(page, "iOS"@, before, after);
    }
    if contains_seq(page, "Android"@) {
        lemma_contains_extend(page, "Android"@, before, after);
    }
    if contains_seq(page, "Windows"@) {
        lemma_contains_extend(page, "Windows"@, before, after);
    }
    if contains_seq(page, "Win"@) {
        lemma_contains_extend(page, "Win"@, before, after);
    }
}

/// The markup a table body contributes: its outer HTML, else its inner HTML.
pub open spec fn markup_of(m: TbodyMarkup) -> Option<Seq<char>> {
    match m.outer {
        Some(h) => Some(h@),
        None => match m.inner {
            Some(h) => Some(h@),
            None => None,
        },
    }
}

/// Law: a table body's section holds its markup whole and unchanged, right
/// before the closing blank line, after a header of fixed length (53
/// characters plus the body's number for outer HTML, 20 plus the number for
/// inner HTML); a body without markup writes nothing.
pub proof fn lemma_section_keeps_markup(number: nat, m: TbodyMarkup)
    ensures
        ({
            let s = tbody_section(number, m);
            match markup_of(m) {
                Some(h) => {
                    &&& s.len() == h.len() + decimal(number).len() + if m.outer is Some {
                        53int
                    } else {
                        20int
                    }
                    &&& s.subrange(s.len() - 2 - h.len(), s.len() - 2) == h
                    &&& s.subrange(s.len() - 2, s.len() as int) == "\n\n"@
                },
                None => s.len() == 0,
            }
        }),
{
    reveal_strlit("[TBODY #");
    reveal_strlit("]\n");
    reveal_strlit("\n");
    reveal_strlit("\n\n");
    reveal_strlit(" (inner)]\n");
    let s = tbody_section(number, m);
    match markup_of(m) {
        Some(h) => {
            assert(s.subrange(s.len() - 2 - h.len(), s.len() - 2) =~= h);
            assert(s.subrange(s.len() - 2, s.len() as int) =~= "\n\n"@);
        },
        None => {},
    }
}

proof fn lemma_content_prefix(ms: Seq<TbodyMarkup>, k: int)
    requires
        0 <= k <= ms.len(),
    ensures
        tbodies_content(ms.take(k)).len() <= tbodies_content(ms).len(),
        tbodies_content(ms).subrange(0, tbodies_content(ms.take(k)).len() as int) == tbodies_content(ms.take(k)),
    decreases ms.len(),
{
    if k == ms.len() {
        assert(ms.take(k) =~= ms);
        assert(tbodies_content(ms).subrange(0, tbodies_content(ms).len() as int) =~= tbodies_content(ms));
    } else {
        lemma_content_prefix(ms.drop_last(), k);
        assert(ms.drop_last().take(k) =~= ms.take(k));
        let pre = tbodies_content(ms.take(k));
        let mid = tbodies_content(ms.drop_last());
        assert(tbodies_content(ms) == mid + tbody_section(ms.len(), ms.last()));
        assert(tbodies_content(ms).subrange(0, pre.len() as int) =~= mid.subrange(0, pre.len() as int));
    }
}

/// Law: the saved text holds the markup of every table body that has some,
/// whole and unchanged.
pub proof fn lemma_content_keeps_markup(ms: Seq<TbodyMarkup>, i: int)
    requires
        0 <= i < ms.len(),
        markup_of(ms[i]) is Some,
    ensures
        contains_seq(tbodies_content(ms), markup_of(ms[i])->0),
{
    let h = markup_of(ms[i])->0;
    let upto = ms.take(i + 1);
    assert(upto.drop_last() =~= ms.take(i));
    assert(upto.last() == ms[i]);
    let before = tbodies_content(ms.take(i));
    let sec = tbody_section((i + 1) as nat, ms[i]);
    assert(tbodies_content(upto) == before + sec);
    lemma_section_keeps_markup((i + 1) as nat, ms[i]);
    lemma_content_prefix(ms, i + 1);
    let whole = tbodies_content(ms);
    let p = before.len() + sec.len() - 2 - h.len();
    let w = whole.subrange(p, p + h.len());
    let t = sec.subrange(sec.len() - 2 - h.len(), sec.len() - 2);
    assert forall|j: int| 0 <= j < h.len() implies #[trigger] w[j] == t[j] by {
        assert(whole[p + j] == tbodies_content(upto)[p + j]);
        assert(tbodies_content(upto)[p + j] == sec[sec.len() - 2 - h.len() + j]);
    }
    assert(w =~= t);
    assert(occurs_at(whole, h, p));
}

} // verus!
