//! What the code around a violation means: the types involved, where its variable flows,
//! the control flow and error handling nearby, and how hard a fix would be.

use vstd::prelude::*;
use crate::ai_analyzer::context::opt_chars;
use crate::ai_analyzer::types::{
    CodeContext, CodeContextView, FixComplexity, SemanticAnalysis, SemanticView,
};
use crate::text::{
    append_str, before_first, chars_of, contains, decimal, has_sub, head_before, lines,
    lines_of, same_chars, second_piece, split_second, string_of, strs, text, trim, trimmed,
    usize_to_string, views,
};
use crate::violation::{Violation, ViolationType};

verus! {

/// A line of the form `Line {n}: {what}`.
pub open spec fn line_note(n: nat, what: Seq<char>) -> Seq<char> {
    "Line "@ + decimal(n) + what
}

/// `Line {n}` followed by `what`.
fn line_note_text(n: usize, what: &str) -> (r: String)
    ensures
        r@ == line_note(n as nat, what@),
{
    let mut r = text("Line ");
    let d = usize_to_string(n);
    append_str(&mut r, d.as_str());
    append_str(&mut r, what);
    r
}

/// The type named on the line `idx`, if it is one of `Result`, `Option` or `Vec`.
pub open spec fn actual_type(ls: Seq<Seq<char>>, idx: int) -> Option<Seq<char>> {
    if 0 <= idx < ls.len() {
        if has_sub(ls[idx], "Result<"@) {
            Some("Result"@)
        } else if has_sub(ls[idx], "Option<"@) {
            Some("Option"@)
        } else if has_sub(ls[idx], "Vec<"@) {
            Some("Vec"@)
        } else {
            None
        }
    } else {
        None
    }
}

/// The type that a fix of the violation kind works with.
pub open spec fn expected_type(t: ViolationType) -> Option<Seq<char>> {
    match t {
        ViolationType::UnwrapInProduction => Some("Result or Option"@),
        _ => None,
    }
}

/// The variable bound by a `let` on the line: between the first `let ` and the next `=`,
/// trimmed.
pub open spec fn variable_name(line: Seq<char>) -> Option<Seq<char>> {
    if has_sub(line, "let "@) {
        match second_piece(line, "let "@) {
            Some(x) => Some(trim(before_first(x, "="@))),
            None => None,
        }
    } else {
        None
    }
}

/// The indices among the first `k` lines that bind the variable `v`, in order.
pub open spec fn uses_of(ls: Seq<Seq<char>>, v: Seq<char>, k: int) -> Seq<usize>
    decreases k,
{
    if k <= 0 {
        seq![]
    } else if k - 1 < ls.len() && variable_name(ls[k - 1]) == Some(v) {
        uses_of(ls, v, k - 1).push((k - 1) as usize)
    } else {
        uses_of(ls, v, k - 1)
    }
}

/// The variables bound among the first `k` lines, each once, in the order they first appear.
pub open spec fn variables_of(ls: Seq<Seq<char>>, k: int) -> Seq<Seq<char>>
    decreases k,
{
    if k <= 0 {
        seq![]
    } else {
        let d = variables_of(ls, k - 1);
        match if k - 1 < ls.len() {
            variable_name(ls[k - 1])
        } else {
            None
        } {
            Some(v) => if d.contains(v) {
                d
            } else {
                d.push(v)
            },
            None => d,
        }
    }
}

/// The notes of where the variable `v` is used, one per binding line among the first `k`.
pub open spec fn flow_notes(ls: Seq<Seq<char>>, v: Seq<char>, k: int) -> Seq<Seq<char>>
    decreases k,
{
    if k <= 0 {
        seq![]
    } else if k - 1 < ls.len() && variable_name(ls[k - 1]) == Some(v) {
        flow_notes(ls, v, k - 1).push(line_note(k as nat, ": Variable '"@ + v + "' used"@))
    } else {
        flow_notes(ls, v, k - 1)
    }
}

/// The data flow of the variable bound on line `idx`.
pub open spec fn data_flow(ls: Seq<Seq<char>>, idx: int) -> Seq<Seq<char>> {
    if 0 <= idx < ls.len() {
        match variable_name(ls[idx]) {
            Some(v) => flow_notes(ls, v, ls.len() as int),
            None => seq![],
        }
    } else {
        seq![]
    }
}

/// The notes for the lines in `[start, end)` that `marks` picks, each as `Line {i+1}` followed
/// by `what`.
pub open spec fn window_notes(
    ls: Seq<Seq<char>>,
    start: int,
    end: int,
    marks: spec_fn(Seq<char>) -> bool,
    what: Seq<char>,
) -> Seq<Seq<char>>
    decreases end - start,
{
    if end <= start {
        seq![]
    } else if marks(ls[end - 1]) {
        window_notes(ls, start, end - 1, marks, what).push(line_note(end as nat, what))
    } else {
        window_notes(ls, start, end - 1, marks, what)
    }
}

/// A control-flow statement.
pub open spec fn is_control_flow(line: Seq<char>) -> bool {
    has_sub(line, "if "@) || has_sub(line, "match "@) || has_sub(line, "while "@)
}

/// A point where an error is handled.
pub open spec fn is_error_point(line: Seq<char>) -> bool {
    has_sub(line, "?"@) || has_sub(line, ".unwrap()"@) || has_sub(line, ".expect("@)
}

/// The window of `r` lines around `idx`: its start.
pub open spec fn around_start(idx: int, r: int) -> int {
    if idx >= r {
        idx - r
    } else {
        0
    }
}

/// The window of `r` lines around `idx`: its end, in `n` lines.
pub open spec fn around_end(idx: int, r: int, n: int) -> int {
    if idx + r < n {
        idx + r
    } else {
        n
    }
}

/// The control-flow statements in the five lines before and after `idx`.
pub open spec fn control_flow(ls: Seq<Seq<char>>, idx: int) -> Seq<Seq<char>> {
    window_notes(
        ls,
        around_start(idx, 5),
        around_end(idx, 5, ls.len() as int),
        |l: Seq<char>| is_control_flow(l),
        ": Control flow statement"@,
    )
}

/// The error-handling points in the ten lines before and after `idx`.
pub open spec fn error_propagation(ls: Seq<Seq<char>>, idx: int) -> Seq<Seq<char>> {
    window_notes(
        ls,
        around_start(idx, 10),
        around_end(idx, 10, ls.len() as int),
        |l: Seq<char>| is_error_point(l),
        ": Error handling point"@,
    )
}

/// The windows around `idx` can be scanned: they do not start past their end (the scans
/// subtract the start from the end).
pub open spec fn windows_ok(idx: int, n: int) -> bool {
    &&& idx + 10 <= usize::MAX
    &&& around_start(idx, 5) <= around_end(idx, 5, n)
    &&& around_start(idx, 10) <= around_end(idx, 10, n)
}

/// The return type is a `Result`.
pub open spec fn returns_result(c: CodeContextView) -> bool {
    match c.return_type {
        Some(r) => has_sub(r, "Result"@),
        None => false,
    }
}

/// What a fix in this context depends on: the imports from outside `std`, then the trait
/// implementation, the async context and the generic constraints that apply.
pub open spec fn dependencies(c: CodeContextView) -> Seq<Seq<char>> {
    let outside = c.imports.filter(|i: Seq<char>| !has_sub(i, "std::"@));
    let a = if c.trait_impl is Some {
        outside.push("Trait implementation"@)
    } else {
        outside
    };
    let b = if c.is_async {
        a.push("Async context"@)
    } else {
        a
    };
    if c.is_generic {
        b.push("Generic constraints"@)
    } else {
        b
    }
}

/// The semantic analysis of a violation at `line` in `content`, with this code context.
pub open spec fn semantic_of(
    t: ViolationType,
    line: int,
    c: CodeContextView,
    content: Seq<char>,
) -> SemanticView {
    let ls = lines_of(content);
    let idx = if line >= 1 {
        line - 1
    } else {
        0
    };
    SemanticView {
        actual_type: actual_type(ls, idx),
        expected_type: expected_type(t),
        data_flow: data_flow(ls, idx),
        control_flow: control_flow(ls, idx),
        dependencies: dependencies(c),
        error_propagation: error_propagation(ls, idx),
    }
}

/// How hard a violation of kind `t` is to fix in this context, with these dependencies.
pub open spec fn complexity(
    t: ViolationType,
    c: CodeContextView,
    deps: Seq<Seq<char>>,
) -> FixComplexity {
    match t {
        ViolationType::UnwrapInProduction => if returns_result(c) {
            if deps.len() == 0 {
                FixComplexity::Trivial
            } else {
                FixComplexity::Simple
            }
        } else {
            FixComplexity::Moderate
        },
        ViolationType::UnderscoreBandaid => FixComplexity::Simple,
        ViolationType::LineTooLong => FixComplexity::Trivial,
        ViolationType::FunctionTooLarge => FixComplexity::Complex,
        ViolationType::FileTooLarge => FixComplexity::Architectural,
        _ => FixComplexity::Moderate,
    }
}

/// The type named on line `idx`.
pub fn infer_actual_type(ls: &[Vec<char>], idx: usize) -> (r: Option<String>)
    ensures
        opt_chars(r) == actual_type(views(ls@), idx as int),
{
    if idx < ls.len() {
        let line = ls[idx].as_slice();
        assert(views(ls@)[idx as int] == line@);
        if contains(line, chars_of("Result<").as_slice()) {
            Some(text("Result"))
        } else if contains(line, chars_of("Option<").as_slice()) {
            Some(text("Option"))
        } else if contains(line, chars_of("Vec<").as_slice()) {
            Some(text("Vec"))
        } else {
            None
        }
    } else {
        None
    }
}

/// The type that a fix of the kind works with.
pub fn infer_expected_type(violation_type: &ViolationType) -> (r: Option<String>)
    ensures
        opt_chars(r) == expected_type(*violation_type),
{
    match violation_type {
        ViolationType::UnwrapInProduction => Some(text("Result or Option")),
        _ => None,
    }
}

/// The variable bound by a `let` on the line.
pub fn extract_variable_name(line: &[char]) -> (r: Option<String>)
    ensures
        opt_chars(r) == variable_name(line@),
{
    let let_kw = chars_of("let ");
    if contains(line, let_kw.as_slice()) {
        match split_second(line, let_kw.as_slice()) {
            Some(x) => {
                let head = head_before(x.as_slice(), chars_of("=").as_slice());
                Some(string_of(trimmed(head.as_slice()).as_slice()))
            },
            None => None,
        }
    } else {
        None
    }
}

/// The variables bound in the lines, each with the indices of the lines that bind it: one
/// entry per variable, in the order they first appear.
pub fn analyze_variable_usage(ls: &[Vec<char>]) -> (r: Vec<(String, Vec<usize>)>)
    ensures
        r.len() == variables_of(views(ls@), ls.len() as int).len(),
        forall|j: int|
            0 <= j < r.len() ==> (#[trigger] r@[j]).0@ == variables_of(views(ls@), ls.len() as int)[j]
                && r@[j].1@ == uses_of(views(ls@), r@[j].0@, ls.len() as int),
{
    let ghost all = views(ls@);
    let mut r: Vec<(String, Vec<usize>)> = Vec::new();
    let mut i: usize = 0;
    while i < ls.len()
        invariant
            i <= ls.len(),
            all == views(ls@),
            r.len() == variables_of(all, i as int).len(),
            forall|j: int|
                0 <= j < r.len() ==> (#[trigger] r@[j]).0@ == variables_of(all, i as int)[j]
                    && r@[j].1@ == uses_of(all, r@[j].0@, i as int),
        decreases ls.len() - i,
    {
        assert(all[i as int] == ls@[i as int]@);
        match extract_variable_name(ls[i].as_slice()) {
            Some(v) => {
                let vc = chars_of(v.as_str());
                let found = position_of_name(&r, vc.as_slice());
                proof {
                    lemma_variables_distinct(all, i as int);
                }
                match found {
                    Some(j) => {
                        let ghost old_r = r@;
                        let (name, mut uses) = r.remove(j);
                        uses.push(i);
                        r.insert(j, (name, uses));
                        proof {
                            assert(variables_of(all, i + 1) == variables_of(all, i as int)) by {
                                assert(variables_of(all, i as int)[j as int] == v@);
                            }
                            assert forall|m: int| 0 <= m < r.len() implies (
                            #[trigger] r@[m]).0@ == variables_of(all, i + 1)[m] && r@[m].1@
                                == uses_of(all, r@[m].0@, i + 1) by {
                                if m != j {
                                    assert(r@[m] == old_r[m]);
                                    assert(old_r[m].0@ != v@);
                                }
                            }
                        }
                    },
                    None => {
                        let ghost old_r = r@;
                        let mut uses: Vec<usize> = Vec::new();
                        uses.push(i);
                        r.push((v, uses));
                        proof {
                            assert(!variables_of(all, i as int).contains(vc@)) by {
                                if variables_of(all, i as int).contains(vc@) {
                                    let m = choose|m: int|
                                        0 <= m < variables_of(all, i as int).len()
                                            && variables_of(all, i as int)[m] == vc@;
                                    assert(old_r[m].0@ == variables_of(all, i as int)[m]);
                                }
                            }
                            lemma_no_uses_before(all, vc@, i as int);
                            assert forall|m: int| 0 <= m < r.len() implies (
                            #[trigger] r@[m]).0@ == variables_of(all, i + 1)[m] && r@[m].1@
                                == uses_of(all, r@[m].0@, i + 1) by {
                                if m < old_r.len() {
                                    assert(r@[m] == old_r[m]);
                                    assert(old_r[m].0@ != vc@);
                                } else {
                                    assert(uses_of(all, vc@, i as int) =~= Seq::<usize>::empty());
                                }
                            }
                        }
                    },
                }
            },
            None => {
                proof {
                    assert forall|m: int| 0 <= m < r.len() implies (#[trigger] r@[m]).0@
                        == variables_of(all, i + 1)[m] && r@[m].1@ == uses_of(
                        all,
                        r@[m].0@,
                        i + 1,
                    ) by {}
                }
            },
        }
        i = i + 1;
    }
    r
}

/// The index of the entry named `n`, if there is one.
fn position_of_name(r: &Vec<(String, Vec<usize>)>, n: &[char]) -> (p: Option<usize>)
    ensures
        match p {
            Some(j) => j < r.len() && r@[j as int].0@ == n@,
            None => forall|m: int| 0 <= m < r.len() ==> (#[trigger] r@[m]).0@ != n@,
        },
{
    let mut j: usize = 0;
    while j < r.len()
        invariant
            j <= r.len(),
            forall|m: int| 0 <= m < j ==> (#[trigger] r@[m]).0@ != n@,
        decreases r.len() - j,
    {
        let e = chars_of(r[j].0.as_str());
        if same_chars(e.as_slice(), n) {
            return Some(j);
        }
        j = j + 1;
    }
    None
}

/// The variables listed by `variables_of` are distinct.
proof fn lemma_variables_distinct(ls: Seq<Seq<char>>, k: int)
    ensures
        forall|a: int, b: int|
            0 <= a < b < variables_of(ls, k).len() ==> variables_of(ls, k)[a] != variables_of(
                ls,
                k,
            )[b],
    decreases k,
{
    if k > 0 {
        lemma_variables_distinct(ls, k - 1);
        let d = variables_of(ls, k - 1);
        let n = if k - 1 < ls.len() {
            variable_name(ls[k - 1])
        } else {
            None
        };
        match n {
            Some(v) => {
                if !d.contains(v) {
                    assert forall|a: int, b: int|
                        0 <= a < b < variables_of(ls, k).len() implies variables_of(ls, k)[a]
                        != variables_of(ls, k)[b] by {
                        if b == d.len() {
                            assert(variables_of(ls, k)[a] == d[a]);
                        }
                    }
                }
            },
            None => {},
        }
    }
}

/// A variable not yet listed has no binding line so far.
proof fn lemma_no_uses_before(ls: Seq<Seq<char>>, v: Seq<char>, k: int)
    requires
        !variables_of(ls, k).contains(v),
    ensures
        uses_of(ls, v, k) == Seq::<usize>::empty(),
    decreases k,
{
    if k > 0 {
        let d = variables_of(ls, k - 1);
        assert(!d.contains(v)) by {
            if d.contains(v) {
                let m = choose|m: int| 0 <= m < d.len() && d[m] == v;
                assert(variables_of(ls, k)[m] == v);
            }
        }
        lemma_no_uses_before(ls, v, k - 1);
        if k - 1 < ls.len() && variable_name(ls[k - 1]) == Some(v) {
            assert(variables_of(ls, k)[d.len() as int] == v);
        }
    }
}

/// The data flow of the variable bound on line `idx`.
pub fn trace_data_flow(ls: &[Vec<char>], idx: usize) -> (r: Vec<String>)
    ensures
        strs(r@) == data_flow(views(ls@), idx as int),
{
    let ghost all = views(ls@);
    let mut flow: Vec<String> = Vec::new();
    if idx < ls.len() {
        assert(all[idx as int] == ls@[idx as int]@);
        match extract_variable_name(ls[idx].as_slice()) {
            Some(var_name) => {
                let usage = analyze_variable_usage(ls);
                let vc = chars_of(var_name.as_str());
                let mut j: usize = 0;
                while j < usage.len()
                    invariant
                        j <= usage.len(),
                        strs(flow@) == Seq::<Seq<char>>::empty(),
                        vc@ == var_name@,
                        idx < ls.len(),
                        variable_name(all[idx as int]) == Some(var_name@),
                        forall|m: int| 0 <= m < j ==> (#[trigger] usage@[m]).0@ != var_name@,
                        all == views(ls@),
                        usage.len() == variables_of(all, ls.len() as int).len(),
                        forall|m: int|
                            0 <= m < usage.len() ==> (#[trigger] usage@[m]).0@ == variables_of(
                                all,
                                ls.len() as int,
                            )[m] && usage@[m].1@ == uses_of(all, usage@[m].0@, ls.len() as int),
                    decreases usage.len() - j,
                {
                    let e = chars_of(usage[j].0.as_str());
                    if same_chars(e.as_slice(), vc.as_slice()) {
                        let uses = &usage[j].1;
                        let mut k: usize = 0;
                        while k < uses.len()
                            invariant
                                k <= uses.len(),
                                uses@ == uses_of(all, var_name@, ls.len() as int),
                                all == views(ls@),
                                strs(flow@) == flow_of_uses(var_name@, uses@.take(k as int)),
                            decreases uses.len() - k,
                        {
                            let u = uses[k];
                            proof {
                                assert(all.len() == ls.len());
                                lemma_uses_bounded(all, var_name@, ls.len() as int);
                                assert(uses@.take(k + 1).drop_last() =~= uses@.take(k as int));
                            }
                            let mut note = text(": Variable '");
                            append_str(&mut note, var_name.as_str());
                            append_str(&mut note, "' used");
                            let ghost before = strs(flow@);
                            flow.push(line_note_text(u + 1, note.as_str()));
                            assert(strs(flow@) =~= before.push(
                                line_note((u + 1) as nat, ": Variable '"@ + var_name@ + "' used"@),
                            ));
                            k = k + 1;
                        }
                        proof {
                            assert(uses@.take(uses.len() as int) =~= uses@);
                            assert(all.len() == ls.len());
                            lemma_flow_notes(all, var_name@, ls.len() as int);
                            assert(variable_name(all[idx as int]) == Some(var_name@));
                        }
                        return flow;
                    }
                    j = j + 1;
                }
                proof {
                    lemma_variable_listed(all, idx as int, ls.len() as int);
                    let m = choose|m: int|
                        0 <= m < variables_of(all, ls.len() as int).len() && variables_of(
                            all,
                            ls.len() as int,
                        )[m] == var_name@;
                    assert(usage@[m].0@ == var_name@);
                }
            },
            None => {},
        }
    }
    flow
}

/// The notes for a list of binding lines.
pub open spec fn flow_of_uses(v: Seq<char>, uses: Seq<usize>) -> Seq<Seq<char>>
    decreases uses.len(),
{
    if uses.len() == 0 {
        seq![]
    } else {
        flow_of_uses(v, uses.drop_last()).push(
            line_note((uses.last() + 1) as nat, ": Variable '"@ + v + "' used"@),
        )
    }
}

proof fn lemma_uses_bounded(ls: Seq<Seq<char>>, v: Seq<char>, k: int)
    requires
        k <= ls.len(),
        ls.len() <= usize::MAX,
    ensures
        forall|m: int| 0 <= m < uses_of(ls, v, k).len() ==> (#[trigger] uses_of(ls, v, k)[m]) < k,
    decreases k,
{
    if k > 0 {
        lemma_uses_bounded(ls, v, k - 1);
        assert(((k - 1) as usize) == k - 1);
        let u = uses_of(ls, v, k);
        let w = uses_of(ls, v, k - 1);
        assert forall|m: int| 0 <= m < u.len() implies (#[trigger] u[m]) < k by {
            if m < w.len() {
                assert(u[m] == w[m]);
            }
        }
    }
}

proof fn lemma_flow_notes(ls: Seq<Seq<char>>, v: Seq<char>, k: int)
    requires
        0 <= k <= ls.len(),
        ls.len() <= usize::MAX,
    ensures
        flow_of_uses(v, uses_of(ls, v, k)) == flow_notes(ls, v, k),
    decreases k,
{
    if k > 0 {
        lemma_flow_notes(ls, v, k - 1);
        assert(((k - 1) as usize) == k - 1);
        if variable_name(ls[k - 1]) == Some(v) {
            assert(uses_of(ls, v, k).drop_last() =~= uses_of(ls, v, k - 1));
        }
    }
}

/// A variable bound on a line is listed.
proof fn lemma_variable_listed(ls: Seq<Seq<char>>, i: int, k: int)
    requires
        0 <= i < k <= ls.len(),
        variable_name(ls[i]) is Some,
    ensures
        variables_of(ls, k).contains(variable_name(ls[i])->0),
    decreases k,
{
    let v = variable_name(ls[i])->0;
    if i < k - 1 {
        lemma_variable_listed(ls, i, k - 1);
        let d = variables_of(ls, k - 1);
        let m = choose|m: int| 0 <= m < d.len() && d[m] == v;
        assert(variables_of(ls, k)[m] == v);
    } else {
        let d = variables_of(ls, k - 1);
        if !d.contains(v) {
            assert(variables_of(ls, k)[d.len() as int] == v);
        }
    }
}

/// The notes for the control-flow statements near line `idx`.
pub fn trace_control_flow(ls: &[Vec<char>], idx: usize) -> (r: Vec<String>)
    requires
        windows_ok(idx as int, ls.len() as int),
    ensures
        strs(r@) == control_flow(views(ls@), idx as int),
{
    let start = if idx >= 5 {
        idx - 5
    } else {
        0
    };
    let end = if idx + 5 < ls.len() {
        idx + 5
    } else {
        ls.len()
    };
    let ghost marks = |l: Seq<char>| is_control_flow(l);
    let mut flow: Vec<String> = Vec::new();
    let mut i = start;
    while i < end
        invariant
            start <= i <= end <= ls.len(),
            marks == (|l: Seq<char>| is_control_flow(l)),
            strs(flow@) == window_notes(views(ls@), start as int, i as int, marks, ": Control flow statement"@),
        decreases end - i,
    {
        let line = ls[i].as_slice();
        assert(views(ls@)[i as int] == line@);
        if contains(line, chars_of("if ").as_slice()) || contains(
            line,
            chars_of("match ").as_slice(),
        ) || contains(line, chars_of("while ").as_slice()) {
            let ghost before = strs(flow@);
            flow.push(line_note_text(i + 1, ": Control flow statement"));
            assert(strs(flow@) =~= before.push(line_note((i + 1) as nat, ": Control flow statement"@)));
        }
        i = i + 1;
    }
    flow
}

/// The notes for the error-handling points near line `idx`.
pub fn trace_error_propagation(ls: &[Vec<char>], idx: usize) -> (r: Vec<String>)
    requires
        windows_ok(idx as int, ls.len() as int),
    ensures
        strs(r@) == error_propagation(views(ls@), idx as int),
{
    let start = if idx >= 10 {
        idx - 10
    } else {
        0
    };
    let end = if idx + 10 < ls.len() {
        idx + 10
    } else {
        ls.len()
    };
    let ghost marks = |l: Seq<char>| is_error_point(l);
    let mut path: Vec<String> = Vec::new();
    let mut i = start;
    while i < end
        invariant
            start <= i <= end <= ls.len(),
            marks == (|l: Seq<char>| is_error_point(l)),
            strs(path@) == window_notes(views(ls@), start as int, i as int, marks, ": Error handling point"@),
        decreases end - i,
    {
        let line = ls[i].as_slice();
        assert(views(ls@)[i as int] == line@);
        if contains(line, chars_of("?").as_slice()) || contains(
            line,
            chars_of(".unwrap()").as_slice(),
        ) || contains(line, chars_of(".expect(").as_slice()) {
            let ghost before = strs(path@);
            path.push(line_note_text(i + 1, ": Error handling point"));
            assert(strs(path@) =~= before.push(line_note((i + 1) as nat, ": Error handling point"@)));
        }
        i = i + 1;
    }
    path
}

/// What a fix in this context depends on.
pub fn extract_dependencies(context: &CodeContext) -> (r: Vec<String>)
    ensures
        strs(r@) == dependencies(context@),
{
    let ghost imps = context@.imports;
    let ghost pred = |i: Seq<char>| !has_sub(i, "std::"@);
    let std_kw = chars_of("std::");
    let mut deps: Vec<String> = Vec::new();
    let mut i: usize = 0;
    while i < context.imports.len()
        invariant
            i <= context.imports.len(),
            imps == strs(context.imports@),
            std_kw@ == "std::"@,
            pred == (|i: Seq<char>| !has_sub(i, "std::"@)),
            strs(deps@) == imps.take(i as int).filter(pred),
        decreases context.imports.len() - i,
    {
        proof {
            reveal(Seq::filter);
            assert(imps.take(i + 1).drop_last() =~= imps.take(i as int));
            assert(imps.take(i + 1).last() == context.imports@[i as int]@);
        }
        let import = &context.imports[i];
        if !contains(chars_of(import.as_str()).as_slice(), std_kw.as_slice()) {
            let ghost before = strs(deps@);
            deps.push(import.clone());
            assert(strs(deps@) =~= before.push(import@));
        }
        i = i + 1;
    }
    assert(imps.take(context.imports.len() as int) =~= imps);
    if context.trait_impl.is_some() {
        deps.push(text("Trait implementation"));
    }
    if context.is_async {
        deps.push(text("Async context"));
    }
    if context.is_generic {
        deps.push(text("Generic constraints"));
    }
    deps
}

/// Perform semantic analysis on a violation
pub fn perform_semantic_analysis(violation: &Violation, context: &CodeContext, content: &str) -> (r:
    SemanticAnalysis)
    requires
        windows_ok(
            if violation.line >= 1 {
                violation.line - 1
            } else {
                0
            },
            lines_of(content@).len() as int,
        ),
    ensures
        r@ == semantic_of(violation.violation_type, violation.line as int, context@, content@),
{
    let ls = lines(chars_of(content).as_slice());
    let line_idx = if violation.line >= 1 {
        violation.line - 1
    } else {
        0
    };
    let actual_type = infer_actual_type(ls.as_slice(), line_idx);
    let expected_type = infer_expected_type(&violation.violation_type);
    let data_flow = trace_data_flow(ls.as_slice(), line_idx);
    let control_flow = trace_control_flow(ls.as_slice(), line_idx);
    let dependencies = extract_dependencies(context);
    let error_propagation = trace_error_propagation(ls.as_slice(), line_idx);
    SemanticAnalysis {
        actual_type,
        expected_type,
        data_flow,
        control_flow,
        dependencies,
        error_propagation,
    }
}

/// Assess the complexity of fixing a violation
pub fn assess_fix_complexity(
    violation: &Violation,
    context: &CodeContext,
    semantic: &SemanticAnalysis,
) -> (r: FixComplexity)
    ensures
        r == complexity(violation.violation_type, context@, semantic@.dependencies),
{
    match violation.violation_type {
        ViolationType::UnwrapInProduction => {
            let rr = match &context.return_type {
                Some(t) => contains(chars_of(t.as_str()).as_slice(), chars_of("Result").as_slice()),
                None => false,
            };
            if rr {
                if semantic.dependencies.len() == 0 {
                    FixComplexity::Trivial
                } else {
                    FixComplexity::Simple
                }
            } else {
                FixComplexity::Moderate
            }
        },
        ViolationType::UnderscoreBandaid => FixComplexity::Simple,
        ViolationType::LineTooLong => FixComplexity::Trivial,
        ViolationType::FunctionTooLarge => FixComplexity::Complex,
        ViolationType::FileTooLarge => FixComplexity::Architectural,
        _ => FixComplexity::Moderate,
    }
}

} // verus!
