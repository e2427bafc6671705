//! Choosing the violations to fix, and grouping them by file in the order they are fixed.

use vstd::prelude::*;
use crate::fix::strategies::{auto_fixable, can_potentially_auto_fix};
use crate::text::{chars_of, same_chars};
use crate::violation::{kind_name_upper, Violation};

verus! {

/// `n` is one of the names in the list.
pub open spec fn name_listed(names: Seq<String>, n: Seq<char>) -> bool {
    exists|i: int| 0 <= i < names.len() && (#[trigger] names[i])@ == n
}

/// A violation passes the fixability check and the user's `only` and `skip` filters, which
/// name violation kinds in upper case.
pub open spec fn passes_filters(
    v: Violation,
    only: Option<Vec<String>>,
    skip: Option<Vec<String>>,
) -> bool {
    &&& auto_fixable(v.violation_type)
    &&& match only {
        Some(o) => name_listed(o@, kind_name_upper(v.violation_type)),
        None => true,
    }
    &&& match skip {
        Some(s) => !name_listed(s@, kind_name_upper(v.violation_type)),
        None => true,
    }
}

/// The filter as a predicate.
pub open spec fn filter_pred(only: Option<Vec<String>>, skip: Option<Vec<String>>) -> spec_fn(
    Violation,
) -> bool {
    |v: Violation| passes_filters(v, only, skip)
}

/// The violations that pass the filters, in order, at most `limit` of them.
pub open spec fn filtered(
    vs: Seq<Violation>,
    only: Option<Vec<String>>,
    skip: Option<Vec<String>>,
    limit: Option<usize>,
) -> Seq<Violation> {
    let f = vs.filter(filter_pred(only, skip));
    match limit {
        Some(n) => if n < f.len() {
            f.take(n as int)
        } else {
            f
        },
        None => f,
    }
}

/// Whether the list holds a string with the characters `n`.
fn list_has(names: &Vec<String>, n: &[char]) -> (r: bool)
    ensures
        r == name_listed(names@, n@),
{
    let mut i: usize = 0;
    while i < names.len()
        invariant
            i <= names.len(),
            forall|j: int| 0 <= j < i ==> (#[trigger] names@[j])@ != n@,
        decreases names.len() - i,
    {
        let c = chars_of(names[i].as_str());
        if same_chars(c.as_slice(), n) {
            return true;
        }
        i = i + 1;
    }
    false
}

/// Whether a violation passes the filters.
fn passes(v: &Violation, only: &Option<Vec<String>>, skip: &Option<Vec<String>>) -> (r: bool)
    ensures
        r == passes_filters(*v, *only, *skip),
{
    if !can_potentially_auto_fix(v) {
        return false;
    }
    let name = v.violation_type.upper_name();
    let name = chars_of(name.as_str());
    match only {
        Some(o) => {
            if !list_has(o, name.as_slice()) {
                return false;
            }
        },
        None => {},
    }
    match skip {
        Some(s) => {
            if list_has(s, name.as_slice()) {
                return false;
            }
        },
        None => {},
    }
    true
}

/// Filter violations based on user options
pub fn filter_violations(
    violations: &[Violation],
    only_types: &Option<Vec<String>>,
    skip_types: &Option<Vec<String>>,
    limit: Option<usize>,
) -> (r: Vec<Violation>)
    ensures
        r@ == filtered(violations@, *only_types, *skip_types, limit),
{
    let ghost pred = filter_pred(*only_types, *skip_types);
    let mut r: Vec<Violation> = Vec::new();
    let mut i: usize = 0;
    while i < violations.len()
        invariant
            i <= violations.len(),
            pred == filter_pred(*only_types, *skip_types),
            r@ == violations@.take(i as int).filter(pred),
        decreases violations.len() - i,
    {
        let v = &violations[i];
        proof {
            reveal(Seq::filter);
            assert(violations@.take(i + 1).drop_last() =~= violations@.take(i as int));
            assert(violations@.take(i + 1).last() == *v);
        }
        if passes(v, only_types, skip_types) {
            r.push(v.clone());
        }
        i = i + 1;
    }
    assert(violations@.take(violations.len() as int) =~= violations@);
    match limit {
        Some(n) => {
            r.truncate(n);
        },
        None => {},
    }
    r
}

/// The files of the violations, each once, in the order they first appear.
pub open spec fn files_of(vs: Seq<Violation>) -> Seq<Seq<char>>
    decreases vs.len(),
{
    if vs.len() == 0 {
        seq![]
    } else {
        let f = files_of(vs.drop_last());
        if f.contains(vs.last().file@) {
            f
        } else {
            f.push(vs.last().file@)
        }
    }
}

/// The violations of one file, as a predicate.
pub open spec fn in_file(f: Seq<char>) -> spec_fn(Violation) -> bool {
    |v: Violation| v.file@ == f
}

/// The number of leading violations in `t` whose line is not below `line`, up to the first
/// one below it.
pub open spec fn first_below(t: Seq<Violation>, line: usize) -> int
    decreases t.len(),
{
    if t.len() == 0 {
        0
    } else if t[0].line < line {
        0
    } else {
        1 + first_below(t.drop_first(), line)
    }
}

/// `v` inserted into `t` after every violation whose line is not below its own.
pub open spec fn insert_by_line(t: Seq<Violation>, v: Violation) -> Seq<Violation> {
    t.insert(first_below(t, v.line), v)
}

/// The violations ordered by line, from the last line to the first; violations on the same
/// line keep their order (the stable sort of `sort_by(|a, b| b.line.cmp(&a.line))`).
pub open spec fn sort_by_line_desc(s: Seq<Violation>) -> Seq<Violation>
    decreases s.len(),
{
    if s.len() == 0 {
        s
    } else {
        insert_by_line(sort_by_line_desc(s.drop_last()), s.last())
    }
}

/// The lines never increase along the sequence.
pub open spec fn lines_descending(s: Seq<Violation>) -> bool {
    forall|i: int, j: int| 0 <= i < j < s.len() ==> s[i].line >= s[j].line
}

/// The violations grouped by file: one group per file, in the order the files first appear,
/// each group holding that file's violations from the last line to the first.
pub open spec fn grouped(vs: Seq<Violation>, r: Seq<(String, Vec<Violation>)>) -> bool {
    &&& r.len() == files_of(vs).len()
    &&& forall|j: int|
        0 <= j < r.len() ==> (#[trigger] r[j]).0@ == files_of(vs)[j] && r[j].1@
            == sort_by_line_desc(vs.filter(in_file(files_of(vs)[j])))
}

proof fn lemma_first_below(t: Seq<Violation>, line: usize)
    ensures
        0 <= first_below(t, line) <= t.len(),
        forall|i: int| 0 <= i < first_below(t, line) ==> t[i].line >= line,
        first_below(t, line) < t.len() ==> t[first_below(t, line)].line < line,
    decreases t.len(),
{
    if t.len() > 0 && t[0].line >= line {
        lemma_first_below(t.drop_first(), line);
        assert forall|i: int| 0 <= i < first_below(t, line) implies t[i].line >= line by {
            if i > 0 {
                assert(t[i] == t.drop_first()[i - 1]);
            }
        }
    }
}

/// Sorting by line keeps the number of violations.
pub proof fn lemma_sort_len(s: Seq<Violation>)
    ensures
        sort_by_line_desc(s).len() == s.len(),
    decreases s.len(),
{
    if s.len() > 0 {
        lemma_sort_len(s.drop_last());
        lemma_first_below(sort_by_line_desc(s.drop_last()), s.last().line);
    }
}

/// Each file of the violations is listed once, and every violation's file is listed.
proof fn lemma_files_of(vs: Seq<Violation>)
    ensures
        forall|i: int, j: int|
            0 <= i < j < files_of(vs).len() ==> files_of(vs)[i] != files_of(vs)[j],
        forall|k: int| 0 <= k < vs.len() ==> files_of(vs).contains((#[trigger] vs[k]).file@),
    decreases vs.len(),
{
    if vs.len() > 0 {
        lemma_files_of(vs.drop_last());
        let f = files_of(vs.drop_last());
        assert forall|k: int| 0 <= k < vs.len() implies files_of(vs).contains(
            (#[trigger] vs[k]).file@,
        ) by {
            if k < vs.len() - 1 {
                assert(vs[k] == vs.drop_last()[k]);
                let m = choose|m: int| 0 <= m < f.len() && f[m] == vs.drop_last()[k].file@;
                assert(files_of(vs)[m] == f[m]);
            } else if !f.contains(vs.last().file@) {
                assert(files_of(vs)[f.len() as int] == vs.last().file@);
            }
        }
    }
}

/// A predicate that no element meets filters everything out.
proof fn lemma_filter_none(s: Seq<Violation>, p: spec_fn(Violation) -> bool)
    requires
        forall|k: int| 0 <= k < s.len() ==> !p(#[trigger] s[k]),
    ensures
        s.filter(p) == Seq::<Violation>::empty(),
    decreases s.len(),
{
    reveal(Seq::filter);
    if s.len() > 0 {
        assert forall|k: int| 0 <= k < s.drop_last().len() implies !p(
            #[trigger] s.drop_last()[k],
        ) by {
            assert(s.drop_last()[k] == s[k]);
        }
        lemma_filter_none(s.drop_last(), p);
    }
    assert(s.filter(p) =~= Seq::<Violation>::empty());
}

/// The index of the first violation in `t` whose line is below `line`, or `t.len()`.
fn find_first_below(t: &Vec<Violation>, line: usize) -> (r: usize)
    ensures
        r == first_below(t@, line),
{
    let mut i: usize = 0;
    assert(t@.skip(0) =~= t@);
    while i < t.len()
        invariant
            i <= t.len(),
            first_below(t@, line) == i + first_below(t@.skip(i as int), line),
        decreases t.len() - i,
    {
        if t[i].line < line {
            return i;
        }
        assert(t@.skip(i as int).drop_first() =~= t@.skip(i + 1));
        i = i + 1;
    }
    i
}

/// The index of `f` in the list of files, if it is there.
fn position_of_file(files: &Vec<String>, f: &String) -> (r: Option<usize>)
    ensures
        match r {
            Some(j) => j < files.len() && files@[j as int]@ == f@,
            None => forall|j: int| 0 <= j < files.len() ==> (#[trigger] files@[j])@ != f@,
        },
{
    let fc = chars_of(f.as_str());
    let mut i: usize = 0;
    while i < files.len()
        invariant
            i <= files.len(),
            fc@ == f@,
            forall|j: int| 0 <= j < i ==> (#[trigger] files@[j])@ != f@,
        decreases files.len() - i,
    {
        let c = chars_of(files[i].as_str());
        if same_chars(c.as_slice(), fc.as_slice()) {
            return Some(i);
        }
        i = i + 1;
    }
    None
}

/// Group violations by file path
pub fn group_violations_by_file(violations: &[Violation]) -> (r: Vec<(String, Vec<Violation>)>)
    ensures
        grouped(violations@, r@),
{
    let mut files: Vec<String> = Vec::new();
    let mut lists: Vec<Vec<Violation>> = Vec::new();
    let mut i: usize = 0;
    while i < violations.len()
        invariant
            i <= violations.len(),
            files.len() == lists.len(),
            files@.map_values(|s: String| s@) == files_of(violations@.take(i as int)),
            forall|j: int|
                0 <= j < lists.len() ==> (#[trigger] lists@[j])@ == sort_by_line_desc(
                    violations@.take(i as int).filter(in_file(files@[j]@)),
                ),
        decreases violations.len() - i,
    {
        let ghost s = violations@.take(i as int);
        let ghost s1 = violations@.take(i + 1);
        let v = &violations[i];
        proof {
            reveal(Seq::filter);
            assert(s1.drop_last() =~= s);
            assert(s1.last() == *v);
            lemma_files_of(s);
            assert forall|j: int| 0 <= j < files.len() implies (#[trigger] files@[j])@
                == files_of(s)[j] by {
                assert(files@.map_values(|x: String| x@)[j] == files@[j]@);
            }
        }
        match position_of_file(&files, &v.file) {
            Some(j) => {
                let ghost old_lists = lists@;
                let mut g = lists.remove(j);
                let k = find_first_below(&g, v.line);
                proof {
                    lemma_first_below(g@, v.line);
                }
                g.insert(k, v.clone());
                lists.insert(j, g);
                proof {
                    assert(files_of(s).contains(v.file@)) by {
                        assert(files_of(s)[j as int] == v.file@);
                    }
                    assert(files_of(s1) == files_of(s));
                    assert forall|m: int| 0 <= m < lists.len() implies (#[trigger] lists@[m])@
                        == sort_by_line_desc(s1.filter(in_file(files@[m]@))) by {
                        let p = in_file(files@[m]@);
                        assert(s1.filter(p) == (if p(*v) {
                            s.filter(p).push(*v)
                        } else {
                            s.filter(p)
                        }));
                        if m == j {
                            assert(s1.filter(p) == s.filter(p).push(*v));
                            assert(s.filter(p).push(*v).drop_last() =~= s.filter(p));
                        } else {
                            assert(files@[m]@ != files@[j as int]@);
                            assert(lists@[m] == old_lists[m]);
                        }
                    }
                }
            },
            None => {
                files.push(v.file.clone());
                let mut g: Vec<Violation> = Vec::new();
                g.push(v.clone());
                lists.push(g);
                proof {
                    assert(!files_of(s).contains(v.file@)) by {
                        if files_of(s).contains(v.file@) {
                            let m = choose|m: int|
                                0 <= m < files_of(s).len() && files_of(s)[m] == v.file@;
                            assert(files@[m]@ == files_of(s)[m]);
                        }
                    }
                    assert(files_of(s1) == files_of(s).push(v.file@));
                    assert(files@.map_values(|x: String| x@) =~= files_of(s1));
                    let n = (files.len() - 1) as int;
                    let pn = in_file(v.file@);
                    assert forall|k: int| 0 <= k < s.len() implies !pn(#[trigger] s[k]) by {
                        if pn(s[k]) {
                            assert(files_of(s).contains(s[k].file@));
                        }
                    }
                    lemma_filter_none(s, pn);
                    assert(s1.filter(pn) == s.filter(pn).push(*v));
                    assert(s.filter(pn).push(*v).drop_last() =~= Seq::<Violation>::empty());
                    assert(sort_by_line_desc(Seq::<Violation>::empty()) =~= Seq::<
                        Violation,
                    >::empty());
                    assert(lists@[n]@ =~= sort_by_line_desc(s1.filter(pn)));
                    assert forall|m: int| 0 <= m < lists.len() implies (#[trigger] lists@[m])@
                        == sort_by_line_desc(s1.filter(in_file(files@[m]@))) by {
                        if m < n {
                            let p = in_file(files@[m]@);
                            assert(files@[m]@ == files_of(s)[m]);
                            assert(!p(*v));
                            assert(s1.filter(p) == s.filter(p));
                        }
                    }
                }
            },
        }
        i = i + 1;
    }
    assert(violations@.take(violations.len() as int) =~= violations@);
    let mut r: Vec<(String, Vec<Violation>)> = Vec::new();
    let mut files = files;
    let mut lists = lists;
    let ghost all_files = files@;
    let ghost all_lists = lists@;
    while files.len() > 0
        invariant
            files.len() == lists.len(),
            r.len() + files.len() == all_files.len(),
            all_files.len() == all_lists.len(),
            forall|j: int| 0 <= j < files.len() ==> files@[j] == all_files[r.len() + j],
            forall|j: int| 0 <= j < lists.len() ==> lists@[j] == all_lists[r.len() + j],
            forall|j: int|
                0 <= j < r.len() ==> (#[trigger] r@[j]).0 == all_files[j] && r@[j].1
                    == all_lists[j],
        decreases files.len(),
    {
        let f = files.remove(0);
        let g = lists.remove(0);
        r.push((f, g));
    }
    proof {
        assert forall|j: int| 0 <= j < r.len() implies (#[trigger] r@[j]).0@ == files_of(
            violations@,
        )[j] && r@[j].1@ == sort_by_line_desc(violations@.filter(in_file(files_of(violations@)[j]))) by {
            assert(all_files.map_values(|x: String| x@)[j] == all_files[j]@);
        }
    }
    r
}

/// The violations ordered from the last line to the first, keeping the order of violations on
/// the same line.
pub fn sort_by_line_descending(violations: &[Violation]) -> (r: Vec<Violation>)
    ensures
        r@ == sort_by_line_desc(violations@),
{
    let mut r: Vec<Violation> = Vec::new();
    let mut i: usize = 0;
    while i < violations.len()
        invariant
            i <= violations.len(),
            r@ == sort_by_line_desc(violations@.take(i as int)),
        decreases violations.len() - i,
    {
        let v = &violations[i];
        let k = find_first_below(&r, v.line);
        proof {
            lemma_first_below(r@, v.line);
            assert(violations@.take(i + 1).drop_last() =~= violations@.take(i as int));
            assert(violations@.take(i + 1).last() == *v);
        }
        r.insert(k, v.clone());
        i = i + 1;
    }
    assert(violations@.take(violations.len() as int) =~= violations@);
    r
}

/// Filtering keeps a sequence whose elements all pass as it is.
pub proof fn lemma_filter_all(s: Seq<Violation>, p: spec_fn(Violation) -> bool)
    requires
        forall|k: int| 0 <= k < s.len() ==> p(#[trigger] s[k]),
    ensures
        s.filter(p) == s,
    decreases s.len(),
{
    reveal(Seq::filter);
    if s.len() > 0 {
        assert forall|k: int| 0 <= k < s.drop_last().len() implies p(
            #[trigger] s.drop_last()[k],
        ) by {
            assert(s.drop_last()[k] == s[k]);
        }
        lemma_filter_all(s.drop_last(), p);
        assert(s.drop_last().push(s.last()) =~= s);
    } else {
        assert(s.filter(p) =~= s);
    }
}

/// Every violation the filters keep passes them.
pub proof fn lemma_filtered_pass(
    vs: Seq<Violation>,
    only: Option<Vec<String>>,
    skip: Option<Vec<String>>,
    limit: Option<usize>,
)
    ensures
        forall|k: int|
            0 <= k < filtered(vs, only, skip, limit).len() ==> passes_filters(
                #[trigger] filtered(vs, only, skip, limit)[k],
                only,
                skip,
            ),
{
    let f = vs.filter(filter_pred(only, skip));
    assert forall|k: int| 0 <= k < filtered(vs, only, skip, limit).len() implies passes_filters(
        #[trigger] filtered(vs, only, skip, limit)[k],
        only,
        skip,
    ) by {
        assert(filtered(vs, only, skip, limit)[k] == f[k]);
        vs.lemma_filter_pred(filter_pred(only, skip), k);
    }
}

/// Law: filtering the violations that the filters kept, with the same options, keeps them all
/// and in the same order.
pub proof fn law_filter_again_changes_nothing(
    vs: Seq<Violation>,
    only: Option<Vec<String>>,
    skip: Option<Vec<String>>,
    limit: Option<usize>,
)
    ensures
        filtered(filtered(vs, only, skip, limit), only, skip, limit) == filtered(
            vs,
            only,
            skip,
            limit,
        ),
{
    let r = filtered(vs, only, skip, limit);
    lemma_filtered_pass(vs, only, skip, limit);
    assert forall|k: int| 0 <= k < r.len() implies (filter_pred(only, skip))(#[trigger] r[k]) by {
    }
    lemma_filter_all(r, filter_pred(only, skip));
}

/// Law: a file's violations come out from the last line to the first, so that fixing them in
/// that order never shifts a line that is still to be fixed.
pub proof fn law_groups_descend_by_line(s: Seq<Violation>)
    ensures
        lines_descending(sort_by_line_desc(s)),
    decreases s.len(),
{
    if s.len() > 0 {
        let t = sort_by_line_desc(s.drop_last());
        let v = s.last();
        law_groups_descend_by_line(s.drop_last());
        lemma_first_below(t, v.line);
        let k = first_below(t, v.line);
        let u = t.insert(k, v);
        assert forall|i: int, j: int| 0 <= i < j < u.len() implies u[i].line >= u[j].line by {
            if j < k {
                assert(u[i] == t[i] && u[j] == t[j]);
            } else if j == k {
                assert(u[i] == t[i]);
            } else if i < k {
                assert(u[i] == t[i] && u[j] == t[j - 1]);
            } else if i == k {
                assert(u[j] == t[j - 1]);
                assert(t[k].line < v.line);
                assert(t[k].line >= t[j - 1].line);
            } else {
                assert(u[i] == t[i - 1] && u[j] == t[j - 1]);
            }
        }
    }
}

/// Law: ordering a file's violations neither loses nor adds any.
pub proof fn law_groups_keep_violations(s: Seq<Violation>)
    ensures
        sort_by_line_desc(s).to_multiset() == s.to_multiset(),
    decreases s.len(),
{
    broadcast use vstd::seq_lib::to_multiset_insert, vstd::seq_lib::to_multiset_build;

    if s.len() > 0 {
        let t = sort_by_line_desc(s.drop_last());
        law_groups_keep_violations(s.drop_last());
        lemma_first_below(t, s.last().line);
        assert(s.drop_last().push(s.last()) =~= s);
    }
}

} // verus!
