//! The installed-package listing of a device.
use vstd::prelude::*;
use crate::text::{contains, contains_text, has_prefix, lines, split_lines, starts_with, views};

verus! {

/// The marker that starts each line of a package listing.
pub open spec fn package_marker() -> Seq<char> {
    seq!['p', 'a', 'c', 'k', 'a', 'g', 'e', ':']
}

/// The package names of the listing lines `ls`, in order: each line that starts with the
/// marker names the package after it; any other line is dropped.
pub open spec fn package_names(ls: Seq<Seq<char>>) -> Seq<Seq<char>>
    decreases ls.len(),
{
    if ls.len() == 0 {
        seq![]
    } else {
        let before = package_names(ls.drop_last());
        let l = ls.last();
        if has_prefix(l, package_marker()) {
            before.push(l.skip(package_marker().len() as int))
        } else {
            before
        }
    }
}

/// Parses the output of the device's package-list query into package names.
pub fn parse_packages(output: &str) -> (r: Vec<String>)
    ensures
        views(r@) == package_names(lines(output@)),
{
    let marker = "package:";
    proof {
        reveal_strlit("package:");
        assert(marker@ =~= package_marker());
    }
    let ls = split_lines(output);
    let ghost all = lines(output@);
    let mut r: Vec<String> = Vec::new();
    let mut i: usize = 0;
    proof {
        assert(all.take(0) =~= Seq::<Seq<char>>::empty());
        assert(views(r@) =~= Seq::<Seq<char>>::empty());
    }
    while i < ls.len()
        invariant
            marker@ == package_marker(),
            views(ls@) == all,
            i <= ls.len(),
            views(r@) == package_names(all.take(i as int)),
        decreases ls.len() - i,
    {
        let line = ls[i].as_str();
        let ghost l = ls@[i as int]@;
        assert(all.take(i + 1).drop_last() =~= all.take(i as int));
        assert(all.take(i + 1).last() == l);
        if starts_with(line, marker) {
            let ghost old_r = r@;
            let name = String::from_str(line.substring_char(8, line.unicode_len()));
            r.push(name);
            assert(views(r@) =~= views(old_r).push(l.skip(8)));
        }
        i = i + 1;
    }
    assert(all.take(ls.len() as int) =~= all);
    r
}

/// What `str::to_lowercase` makes of a string.
pub uninterp spec fn lower_of(s: Seq<char>) -> Seq<char>;

/// Relies on `str::to_lowercase`: the lowercase mapping of each character, which depends
/// on the characters alone.
#[verifier::external_body]
fn lowercase(s: &str) -> (r: String)
    ensures
        r@ == lower_of(s@),
{
    s.to_lowercase()
}

/// The packages of `names` whose lowercase form contains `lowered_query`, in order.
pub open spec fn matching_packages(names: Seq<Seq<char>>, lowered_query: Seq<char>) -> Seq<
    Seq<char>,
>
    decreases names.len(),
{
    if names.len() == 0 {
        seq![]
    } else {
        let before = matching_packages(names.drop_last(), lowered_query);
        if contains(lower_of(names.last()), lowered_query) {
            before.push(names.last())
        } else {
            before
        }
    }
}

/// The packages that a search for `query` shows: those whose name contains it, case aside.
pub fn filter_packages(names: &Vec<String>, query: &str) -> (r: Vec<String>)
    ensures
        views(r@) == matching_packages(views(names@), lower_of(query@)),
{
    let q = lowercase(query);
    let ghost all = views(names@);
    let mut r: Vec<String> = Vec::new();
    let mut i: usize = 0;
    proof {
        assert(all.take(0) =~= Seq::<Seq<char>>::empty());
        assert(views(r@) =~= Seq::<Seq<char>>::empty());
    }
    while i < names.len()
        invariant
            all == views(names@),
            q@ == lower_of(query@),
            i <= names.len(),
            views(r@) == matching_packages(all.take(i as int), q@),
        decreases names.len() - i,
    {
        let name = &names[i];
        assert(all.take(i + 1).drop_last() =~= all.take(i as int));
        assert(all.take(i + 1).last() == name@);
        let lowered = lowercase(name.as_str());
        if contains_text(lowered.as_str(), q.as_str()) {
            let ghost old_r = r@;
            r.push(name.clone());
            assert(views(r@) =~= views(old_r).push(name@));
        }
        i = i + 1;
    }
    assert(all.take(names.len() as int) =~= all);
    r
}

} // verus!
