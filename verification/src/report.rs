//! The four result lists (users not found, users seen from a phone, users
//! never seen from a phone, users never seen from a desktop) and the text
//! written for each of them.
use vstd::prelude::*;
use vstd::string::*;
use crate::history::HistoryVerdict;

verus! {

/// The names in a list, by their characters.
pub open spec fn names_view(v: Seq<String>) -> Seq<Seq<char>> {
    v.map_values(|s: String| s@)
}

/// The four result lists.
pub struct UserLists {
    /// Users whose name the directory search did not find.
    pub not_found: Vec<String>,
    /// Users whose history shows a phone.
    pub mobile_nice: Vec<String>,
    /// Users whose history shows no phone.
    pub mobile_no: Vec<String>,
    /// Users whose history shows no desktop.
    pub desktop_no: Vec<String>,
}

impl UserLists {
    /// Four empty lists.
    pub fn new() -> (r: UserLists)
        ensures
            r.not_found@.len() == 0,
            r.mobile_nice@.len() == 0,
            r.mobile_no@.len() == 0,
            r.desktop_no@.len() == 0,
    {
        UserLists {
            not_found: Vec::new(),
            mobile_nice: Vec::new(),
            mobile_no: Vec::new(),
            desktop_no: Vec::new(),
        }
    }

    /// Records a user that the directory search did not find.
    pub fn record_not_found(&mut self, name: &str)
        ensures
            names_view(final(self).not_found@) == names_view(old(self).not_found@).push(name@),
            final(self).mobile_nice@ == old(self).mobile_nice@,
            final(self).mobile_no@ == old(self).mobile_no@,
            final(self).desktop_no@ == old(self).desktop_no@,
    {
        self.not_found.push(name.to_owned());
        assert(names_view(self.not_found@) =~= names_view(old(self).not_found@).push(name@));
    }

    /// Records what a user's saved history says: the name goes to exactly one
    /// of the phone lists, and to the no-desktop list when that holds.
    pub fn record_history(&mut self, name: &str, verdict: &HistoryVerdict)
        ensures
            final(self).not_found@ == old(self).not_found@,
            verdict.good_mobile ==> names_view(final(self).mobile_nice@) == names_view(
                old(self).mobile_nice@,
            ).push(name@) && final(self).mobile_no@ == old(self).mobile_no@,
            !verdict.good_mobile ==> names_view(final(self).mobile_no@) == names_view(
                old(self).mobile_no@,
            ).push(name@) && final(self).mobile_nice@ == old(self).mobile_nice@,
            verdict.no_desktop ==> names_view(final(self).desktop_no@) == names_view(
                old(self).desktop_no@,
            ).push(name@),
            !verdict.no_desktop ==> final(self).desktop_no@ == old(self).desktop_no@,
    {
        if verdict.good_mobile {
            self.mobile_nice.push(name.to_owned());
            assert(names_view(self.mobile_nice@) =~= names_view(old(self).mobile_nice@).push(name@));
        } else {
            self.mobile_no.push(name.to_owned());
            assert(names_view(self.mobile_no@) =~= names_view(old(self).mobile_no@).push(name@));
        }
        if verdict.no_desktop {
            self.desktop_no.push(name.to_owned());
            assert(names_view(self.desktop_no@) =~= names_view(old(self).desktop_no@).push(name@));
        }
    }

    /// Appends another session's lists to these, list by list.
    pub fn merge(&mut self, other: UserLists)
        ensures
            final(self).not_found@ == old(self).not_found@ + other.not_found@,
            final(self).mobile_nice@ == old(self).mobile_nice@ + other.mobile_nice@,
            final(self).mobile_no@ == old(self).mobile_no@ + other.mobile_no@,
            final(self).desktop_no@ == old(self).desktop_no@ + other.desktop_no@,
    {
        let mut other = other;
        self.not_found.append(&mut other.not_found);
        self.mobile_nice.append(&mut other.mobile_nice);
        self.mobile_no.append(&mut other.mobile_no);
        self.desktop_no.append(&mut other.desktop_no);
    }
}

/// `[String]::join(sep)`: the items with `sep` between each two.
pub open spec fn join_with(items: Seq<Seq<char>>, sep: Seq<char>) -> Seq<char>
    decreases items.len(),
{
    if items.len() == 0 {
        Seq::empty()
    } else if items.len() == 1 {
        items[0]
    } else {
        join_with(items.drop_last(), sep) + sep + items.last()
    }
}

/// The text of a result file: the names, one per line, without a newline
/// after the last.
pub fn join_lines(names: &Vec<String>) -> (r: String)
    ensures
        r@ == join_with(names_view(names@), "\n"@),
{
    let mut r = String::new();
    let n = names.len();
    let mut i: usize = 0;
    while i < n
        invariant
            n == names@.len(),
            i <= n,
            r@ == join_with(names_view(names@.subrange(0, i as int)), "\n"@),
        decreases n - i,
    {
        let ghost pre = names_view(names@.subrange(0, i + 1));
        assert(pre.drop_last() =~= names_view(names@.subrange(0, i as int)));
        assert(pre.last() == names@[i as int]@);
        if i > 0 {
            r.append("\n");
        } else {
            assert(pre.len() == 1);
        }
        r.append(names[i].as_str());
        i += 1;
    }
    assert(names@.subrange(0, n as int) =~= names@);
    r
}

} // verus!
