//! Automatic fixes for the violations that can be rewritten safely.

pub mod context;
pub mod execution;
pub mod file_processing;
pub mod strategies;
pub mod types;
pub mod utils;

use vstd::prelude::*;
use crate::fix::types::FilterOptions;
use crate::text::{chars_of, same_chars, split, split_char, string_of, to_upper, trim, trimmed, upper, views};

verus! {

/// The list without repeats: each element at its first place.
pub open spec fn distinct(x: Seq<Seq<char>>) -> Seq<Seq<char>>
    decreases x.len(),
{
    if x.len() == 0 {
        x
    } else {
        let d = distinct(x.drop_last());
        if d.contains(x.last()) {
            d
        } else {
            d.push(x.last())
        }
    }
}

/// The kind names listed in `s`: split at commas, each piece trimmed and in upper case,
/// each name once.
pub open spec fn type_list(s: Seq<char>) -> Seq<Seq<char>> {
    distinct(split_char(s, ',').map_values(|p: Seq<char>| upper(trim(p))))
}

/// The names without repeats, each at its first place: the set of names that the filters
/// test against.
pub fn distinct_names(names: Vec<String>) -> (r: Vec<String>)
    ensures
        r@.map_values(|s: String| s@) == distinct(names@.map_values(|s: String| s@)),
{
    let ghost all = names@.map_values(|s: String| s@);
    let mut r: Vec<String> = Vec::new();
    let mut i: usize = 0;
    while i < names.len()
        invariant
            i <= names.len(),
            all == names@.map_values(|s: String| s@),
            r@.map_values(|s: String| s@) == distinct(all.take(i as int)),
        decreases names.len() - i,
    {
        let ghost d = r@.map_values(|s: String| s@);
        let c = chars_of(names[i].as_str());
        let mut found = false;
        let mut j: usize = 0;
        while j < r.len()
            invariant
                j <= r.len(),
                c@ == names@[i as int]@,
                d == r@.map_values(|s: String| s@),
                found == exists|k: int| 0 <= k < j && (#[trigger] d[k]) == c@,
            decreases r.len() - j,
        {
            let e = chars_of(r[j].as_str());
            if same_chars(e.as_slice(), c.as_slice()) {
                found = true;
            }
            assert(d[j as int] == r@[j as int]@);
            j = j + 1;
        }
        proof {
            assert(all.take(i + 1).drop_last() =~= all.take(i as int));
            assert(all.take(i + 1).last() == all[i as int]);
            assert(all[i as int] == c@);
            assert(found == d.contains(c@));
        }
        if !found {
            r.push(names[i].clone());
            assert(r@.map_values(|s: String| s@) =~= d.push(c@));
        }
        i = i + 1;
    }
    assert(all.take(names.len() as int) =~= all);
    r
}

/// The kind names listed in `s`, each once.
fn parse_type_list(s: &str) -> (r: Vec<String>)
    ensures
        r@.map_values(|x: String| x@) == type_list(s@),
{
    let pieces = split(chars_of(s).as_slice(), ',');
    let ghost ps = split_char(s@, ',');
    let mut names: Vec<String> = Vec::new();
    let mut i: usize = 0;
    while i < pieces.len()
        invariant
            i <= pieces.len(),
            views(pieces@) == ps,
            names@.map_values(|x: String| x@) == ps.take(i as int).map_values(
                |p: Seq<char>| upper(trim(p)),
            ),
        decreases pieces.len() - i,
    {
        let t = string_of(trimmed(pieces[i].as_slice()).as_slice());
        let u = to_upper(t.as_str());
        let ghost before = names@.map_values(|x: String| x@);
        names.push(u);
        proof {
            assert(views(pieces@)[i as int] == pieces@[i as int]@);
            assert(names@.map_values(|x: String| x@) =~= before.push(upper(trim(ps[i as int]))));
            assert(ps.take(i + 1).map_values(|p: Seq<char>| upper(trim(p))) =~= ps.take(
                i as int,
            ).map_values(|p: Seq<char>| upper(trim(p))).push(upper(trim(ps[i as int]))));
        }
        i = i + 1;
    }
    assert(ps.take(pieces.len() as int) =~= ps);
    distinct_names(names)
}

/// The names of an optional list, each once.
pub open spec fn names_view(o: Option<Vec<String>>) -> Option<Seq<Seq<char>>> {
    match o {
        Some(v) => Some(v@.map_values(|s: String| s@)),
        None => None,
    }
}

/// Parse filter options from command line arguments
pub fn parse_filter_options(only: Option<String>, skip: Option<String>) -> (r: FilterOptions)
    ensures
        names_view(r.only_types) == match only {
            Some(s) => Some(type_list(s@)),
            None => None,
        },
        names_view(r.skip_types) == match skip {
            Some(s) => Some(type_list(s@)),
            None => None,
        },
{
    let only_types = match only {
        Some(s) => Some(parse_type_list(s.as_str())),
        None => None,
    };
    let skip_types = match skip {
        Some(s) => Some(parse_type_list(s.as_str())),
        None => None,
    };
    FilterOptions { only_types, skip_types }
}

} // verus!
