//! Fixing the violations of each file, and the statistics of a run.

use vstd::prelude::*;
use crate::fix::context::{analyzable, analyze_file_context, file_context};
use crate::fix::strategies::{fix_violation_in_line, violation_fix, violation_fix_ok};
use crate::fix::types::{FileContext, FileContextView, FixOutcome, FixResult, FixStats};
use crate::fix::utils::{lemma_sort_len, sort_by_line_desc, sort_by_line_descending};
use crate::text::{
    chars_of, join, join_chars, lines, lines_of, opt_str, string_of, strings_of, strs, views,
};
use crate::violation::{Violation, ViolationType};

verus! {

/// The statistics, as counts: violations fixed, violations skipped, files modified.
pub open spec fn stats_view(s: FixStats) -> (int, int, int) {
    (s.total_fixed as int, s.total_skipped as int, s.files_modified as int)
}

/// The statistics of a run over the files `groups`, where `counts[i]` is the number of
/// violations fixed in file `i`, or `None` when the file could not be fixed. A file with fixes
/// counts them (and counts as modified unless the run is a dry run); a file without counts
/// all its violations as skipped.
pub open spec fn tally(
    groups: Seq<(String, Vec<Violation>)>,
    counts: Seq<Option<usize>>,
    dry_run: bool,
) -> (int, int, int)
    decreases counts.len(),
{
    if counts.len() == 0 || groups.len() == 0 {
        (0, 0, 0)
    } else {
        let (f, s, m) = tally(groups.drop_last(), counts.drop_last(), dry_run);
        match counts.last() {
            Some(k) => if k > 0 {
                (f + k, s, if dry_run {
                    m
                } else {
                    m + 1
                })
            } else {
                (f, s + groups.last().1.len(), m)
            },
            None => (f, s + groups.last().1.len(), m),
        }
    }
}

/// The counts of a prefix of the run are no more than those of the whole run.
proof fn lemma_tally_grows(
    groups: Seq<(String, Vec<Violation>)>,
    counts: Seq<Option<usize>>,
    dry_run: bool,
    k: int,
)
    requires
        groups.len() == counts.len(),
        0 <= k <= counts.len(),
    ensures
        0 <= tally(groups.take(k), counts.take(k), dry_run).0 <= tally(groups, counts, dry_run).0,
        0 <= tally(groups.take(k), counts.take(k), dry_run).1 <= tally(groups, counts, dry_run).1,
        0 <= tally(groups.take(k), counts.take(k), dry_run).2 <= tally(groups, counts, dry_run).2,
    decreases counts.len(),
{
    if k == counts.len() {
        assert(groups.take(k) =~= groups);
        assert(counts.take(k) =~= counts);
        lemma_tally_nonneg(groups, counts, dry_run);
    } else {
        lemma_tally_grows(groups.drop_last(), counts.drop_last(), dry_run, k);
        assert(groups.drop_last().take(k) =~= groups.take(k));
        assert(counts.drop_last().take(k) =~= counts.take(k));
    }
}

proof fn lemma_tally_nonneg(
    groups: Seq<(String, Vec<Violation>)>,
    counts: Seq<Option<usize>>,
    dry_run: bool,
)
    ensures
        tally(groups, counts, dry_run).0 >= 0,
        tally(groups, counts, dry_run).1 >= 0,
        tally(groups, counts, dry_run).2 >= 0,
    decreases counts.len(),
{
    if counts.len() > 0 && groups.len() > 0 {
        lemma_tally_nonneg(groups.drop_last(), counts.drop_last(), dry_run);
    }
}

/// The number of violations of the files.
pub open spec fn total_violations(groups: Seq<(String, Vec<Violation>)>) -> int
    decreases groups.len(),
{
    if groups.len() == 0 {
        0
    } else {
        total_violations(groups.drop_last()) + groups.last().1.len()
    }
}

/// No file was fixed more often than it has violations.
pub open spec fn counts_within(
    groups: Seq<(String, Vec<Violation>)>,
    counts: Seq<Option<usize>>,
) -> bool {
    forall|i: int|
        0 <= i < counts.len() && i < groups.len() ==> match #[trigger] counts[i] {
            Some(k) => k <= groups[i].1.len(),
            None => true,
        }
}

/// Law: a run fixes or skips each violation at most once, modifies each file at most once,
/// and modifies none in a dry run.
pub proof fn law_tally_bounded(
    groups: Seq<(String, Vec<Violation>)>,
    counts: Seq<Option<usize>>,
    dry_run: bool,
)
    requires
        groups.len() == counts.len(),
        counts_within(groups, counts),
    ensures
        tally(groups, counts, dry_run).0 + tally(groups, counts, dry_run).1 <= total_violations(
            groups,
        ),
        tally(groups, counts, dry_run).2 <= groups.len(),
        dry_run ==> tally(groups, counts, dry_run).2 == 0,
    decreases counts.len(),
{
    if counts.len() > 0 {
        assert(counts_within(groups.drop_last(), counts.drop_last())) by {
            assert forall|i: int|
                0 <= i < counts.drop_last().len() && i < groups.drop_last().len() implies match #[trigger] counts.drop_last()[i] {
                Some(k) => k <= groups.drop_last()[i].1.len(),
                None => true,
            } by {
                assert(counts.drop_last()[i] == counts[i]);
                assert(groups.drop_last()[i] == groups[i]);
            }
        }
        law_tally_bounded(groups.drop_last(), counts.drop_last(), dry_run);
        assert(counts.last() == counts[counts.len() - 1]);
        lemma_tally_nonneg(groups.drop_last(), counts.drop_last(), dry_run);
    }
}

/// Process all files and return fix statistics: `fix_counts[i]` is what fixing the file of
/// `violations_by_file[i]` gave, the number of violations fixed (at most the file's
/// violations) or `None` when it failed.
pub fn process_all_files(
    violations_by_file: &[(String, Vec<Violation>)],
    fix_counts: &[Option<usize>],
    dry_run: bool,
) -> (r: FixStats)
    requires
        violations_by_file.len() == fix_counts.len(),
        counts_within(violations_by_file@, fix_counts@),
        tally(violations_by_file@, fix_counts@, dry_run).0 <= usize::MAX,
        tally(violations_by_file@, fix_counts@, dry_run).1 <= usize::MAX,
        tally(violations_by_file@, fix_counts@, dry_run).2 <= usize::MAX,
    ensures
        stats_view(r) == tally(violations_by_file@, fix_counts@, dry_run),
        r.total_fixed + r.total_skipped <= total_violations(violations_by_file@),
        r.files_modified <= violations_by_file.len(),
        dry_run ==> r.files_modified == 0,
{
    proof {
        law_tally_bounded(violations_by_file@, fix_counts@, dry_run);
    }
    let mut stats = FixStats { total_fixed: 0, total_skipped: 0, files_modified: 0 };
    let mut i: usize = 0;
    assert(violations_by_file@.take(0) =~= Seq::<(String, Vec<Violation>)>::empty());
    while i < fix_counts.len()
        invariant
            i <= fix_counts.len(),
            violations_by_file.len() == fix_counts.len(),
            tally(violations_by_file@, fix_counts@, dry_run).0 <= usize::MAX,
            tally(violations_by_file@, fix_counts@, dry_run).1 <= usize::MAX,
            tally(violations_by_file@, fix_counts@, dry_run).2 <= usize::MAX,
            stats_view(stats) == tally(
                violations_by_file@.take(i as int),
                fix_counts@.take(i as int),
                dry_run,
            ),
        decreases fix_counts.len() - i,
    {
        proof {
            lemma_tally_grows(violations_by_file@, fix_counts@, dry_run, i + 1);
            assert(violations_by_file@.take(i + 1).drop_last() =~= violations_by_file@.take(
                i as int,
            ));
            assert(fix_counts@.take(i + 1).drop_last() =~= fix_counts@.take(i as int));
        }
        let n = violations_by_file[i].1.len();
        match fix_counts[i] {
            Some(k) => {
                if k > 0 {
                    if !dry_run {
                        stats.files_modified = stats.files_modified + 1;
                    }
                    stats.total_fixed = stats.total_fixed + k;
                } else {
                    stats.total_skipped = stats.total_skipped + n;
                }
            },
            None => {
                stats.total_skipped = stats.total_skipped + n;
            },
        }
        i = i + 1;
    }
    assert(violations_by_file@.take(i as int) =~= violations_by_file@);
    assert(fix_counts@.take(i as int) =~= fix_counts@);
    stats
}

/// Simple fix attempt for basic violations: no kind is fixed this way yet (long lines are
/// left for manual review).
pub fn try_simple_fix(line: &str, violation: &Violation) -> (r: Option<String>)
    ensures
        r is None,
{
    match violation.violation_type {
        ViolationType::LineTooLong => None,
        _ => None,
    }
}

/// The lines, and the counts of fixed and skipped violations, after handling the violation
/// `v` in the state `st`: a violation on a line of the file is handed to its fix strategy; a
/// fix replaces the line (unless the run is a dry run) and counts as fixed, a skip counts as
/// skipped, and anything else leaves the state as it is.
pub open spec fn fix_step(
    st: (Seq<Seq<char>>, nat, nat),
    v: Violation,
    c: FileContextView,
    dry_run: bool,
) -> (Seq<Seq<char>>, nat, nat) {
    let (cur, f, s) = st;
    if 0 < v.line && v.line <= cur.len() {
        match violation_fix(cur[v.line - 1], v, c) {
            FixOutcome::Fixed(t) => (
                if dry_run {
                    cur
                } else {
                    cur.update(v.line - 1, t)
                },
                f + 1,
                s,
            ),
            FixOutcome::Skipped(_) => (cur, f, s + 1),
            FixOutcome::NotApplicable => st,
        }
    } else {
        st
    }
}

/// The state after handling the first `k` violations of `vs`, starting from the lines `ls`.
pub open spec fn fix_steps(
    ls: Seq<Seq<char>>,
    vs: Seq<Violation>,
    c: FileContextView,
    dry_run: bool,
    k: int,
) -> (Seq<Seq<char>>, nat, nat)
    decreases k,
{
    if k <= 0 {
        (ls, 0, 0)
    } else {
        fix_step(fix_steps(ls, vs, c, dry_run, k - 1), vs[k - 1], c, dry_run)
    }
}

/// The fix strategy can handle `v` on the lines `cur` (the `.expect(..)` rewrite needs a cut
/// on a character boundary).
pub open spec fn step_ok(cur: Seq<Seq<char>>, v: Violation, c: FileContextView) -> bool {
    0 < v.line && v.line <= cur.len() ==> violation_fix_ok(cur[v.line - 1], v, c)
}

/// Each of the first `k` violations can be handled on the lines it meets.
pub open spec fn steps_ok(
    ls: Seq<Seq<char>>,
    vs: Seq<Violation>,
    c: FileContextView,
    dry_run: bool,
    k: int,
) -> bool
    decreases k,
{
    k <= 0 || (steps_ok(ls, vs, c, dry_run, k - 1) && step_ok(
        fix_steps(ls, vs, c, dry_run, k - 1).0,
        vs[k - 1],
        c,
    ))
}

/// The lines and the counts of fixed and skipped violations after handling all violations,
/// from the last line to the first.
pub open spec fn lines_fixed(
    ls: Seq<Seq<char>>,
    vs: Seq<Violation>,
    c: FileContextView,
    dry_run: bool,
) -> (Seq<Seq<char>>, nat, nat) {
    fix_steps(ls, sort_by_line_desc(vs), c, dry_run, sort_by_line_desc(vs).len() as int)
}

/// Every violation can be handled, in the order they are handled.
pub open spec fn fixes_ok(
    ls: Seq<Seq<char>>,
    vs: Seq<Violation>,
    c: FileContextView,
    dry_run: bool,
) -> bool {
    steps_ok(ls, sort_by_line_desc(vs), c, dry_run, sort_by_line_desc(vs).len() as int)
}

proof fn lemma_steps_ok_prefix(
    ls: Seq<Seq<char>>,
    vs: Seq<Violation>,
    c: FileContextView,
    dry_run: bool,
    n: int,
    k: int,
)
    requires
        steps_ok(ls, vs, c, dry_run, n),
        0 <= k <= n,
    ensures
        steps_ok(ls, vs, c, dry_run, k),
    decreases n,
{
    if k < n {
        lemma_steps_ok_prefix(ls, vs, c, dry_run, n - 1, k);
    }
}

/// Handling the first `k` violations keeps the number of lines, and fixes or skips at most
/// `k` of them.
proof fn lemma_steps_bound(
    ls: Seq<Seq<char>>,
    vs: Seq<Violation>,
    c: FileContextView,
    dry_run: bool,
    k: int,
)
    requires
        0 <= k,
    ensures
        fix_steps(ls, vs, c, dry_run, k).0.len() == ls.len(),
        fix_steps(ls, vs, c, dry_run, k).1 + fix_steps(ls, vs, c, dry_run, k).2 <= k,
    decreases k,
{
    if k > 0 {
        lemma_steps_bound(ls, vs, c, dry_run, k - 1);
    }
}

/// Law: fixing a file fixes or skips each violation at most once: the fixed and skipped
/// counts together are at most the number of violations.
pub proof fn law_fix_counts_bounded(
    ls: Seq<Seq<char>>,
    vs: Seq<Violation>,
    c: FileContextView,
    dry_run: bool,
)
    ensures
        lines_fixed(ls, vs, c, dry_run).1 + lines_fixed(ls, vs, c, dry_run).2 <= vs.len(),
        lines_fixed(ls, vs, c, dry_run).0.len() == ls.len(),
{
    lemma_sort_len(vs);
    lemma_steps_bound(ls, sort_by_line_desc(vs), c, dry_run, vs.len() as int);
}

/// Apply fixes to the lines of code, from the last line to the first, with the fix strategy
/// of each violation's kind (and the simple fix, which fixes nothing yet, for kinds without
/// one); returns how many violations were fixed and how many skipped.
pub fn apply_fixes_to_lines(
    lines: &mut Vec<String>,
    violations: &[Violation],
    context: &FileContext,
    dry_run: bool,
) -> (r: (usize, usize))
    requires
        fixes_ok(strs(old(lines)@), violations@, context@, dry_run),
    ensures
        (strs(final(lines)@), r.0 as nat, r.1 as nat) == lines_fixed(
            strs(old(lines)@),
            violations@,
            context@,
            dry_run,
        ),
{
    let ghost ls0 = strs(lines@);
    let sorted = sort_by_line_descending(violations);
    let mut fixed_count: usize = 0;
    let mut skipped_count: usize = 0;
    let mut i: usize = 0;
    while i < sorted.len()
        invariant
            i <= sorted.len(),
            sorted@ == sort_by_line_desc(violations@),
            steps_ok(ls0, sorted@, context@, dry_run, sorted.len() as int),
            (strs(lines@), fixed_count as nat, skipped_count as nat) == fix_steps(
                ls0,
                sorted@,
                context@,
                dry_run,
                i as int,
            ),
            fixed_count + skipped_count <= i,
        decreases sorted.len() - i,
    {
        let v = &sorted[i];
        proof {
            lemma_steps_ok_prefix(ls0, sorted@, context@, dry_run, sorted.len() as int, i + 1);
        }
        if v.line > 0 && v.line <= lines.len() {
            let line_index = v.line - 1;
            assert(strs(lines@)[line_index as int] == lines@[line_index as int]@);
            let outcome = fix_violation_in_line(lines[line_index].as_str(), v, context);
            match outcome {
                FixResult::Fixed(fixed_line) => {
                    if !dry_run {
                        let ghost before = strs(lines@);
                        let ghost t = fixed_line@;
                        lines.set(line_index, fixed_line);
                        assert(strs(lines@) =~= before.update(line_index as int, t));
                    }
                    fixed_count = fixed_count + 1;
                },
                FixResult::Skipped(_) => {
                    skipped_count = skipped_count + 1;
                },
                FixResult::NotApplicable => {
                    match try_simple_fix(lines[line_index].as_str(), v) {
                        Some(fixed_line) => {
                            lines.set(line_index, fixed_line);
                            fixed_count = fixed_count + 1;
                        },
                        None => {},
                    }
                },
            }
        }
        i = i + 1;
    }
    (fixed_count, skipped_count)
}

/// The text of a file made of `lines`, joined by newlines, with a final newline when the
/// file had one.
pub open spec fn rendered(lines: Seq<Seq<char>>, trailing_newline: bool) -> Seq<char> {
    if trailing_newline {
        join(lines, "\n"@) + "\n"@
    } else {
        join(lines, "\n"@)
    }
}

/// The new content of a file from its fixed lines.
pub fn render_fixed_content(lines: &[String], preserve_trailing_newline: bool) -> (r: String)
    ensures
        r@ == rendered(lines@.map_values(|s: String| s@), preserve_trailing_newline),
{
    let mut pieces: Vec<Vec<char>> = Vec::new();
    let mut i: usize = 0;
    while i < lines.len()
        invariant
            i <= lines.len(),
            views(pieces@) == lines@.take(i as int).map_values(|s: String| s@),
        decreases lines.len() - i,
    {
        let ghost before = views(pieces@);
        pieces.push(chars_of(lines[i].as_str()));
        assert(views(pieces@) =~= before.push(lines@[i as int]@));
        assert(lines@.take(i + 1).map_values(|s: String| s@) =~= lines@.take(i as int).map_values(
            |s: String| s@,
        ).push(lines@[i as int]@));
        i = i + 1;
    }
    assert(lines@.take(lines.len() as int) =~= lines@);
    let mut joined = join_chars(pieces.as_slice(), chars_of("\n").as_slice());
    if preserve_trailing_newline {
        joined.push('\n');
        proof {
            reveal_strlit("\n");
        }
        assert(joined@ =~= join(views(pieces@), "\n"@) + "\n"@);
    }
    string_of(joined.as_slice())
}

/// What fixing a file's violations gives: how many were fixed and how many skipped, and the
/// new content to write when there is any to write.
pub struct FileFix {
    /// The number of violations fixed
    pub fixed_count: usize,
    /// The number of violations whose fix was skipped
    pub skipped_count: usize,
    /// The content to write back, when fixes were made and the run is not a dry run
    pub new_content: Option<String>,
}

/// The text ends with a newline.
pub open spec fn ends_with_newline(s: Seq<char>) -> bool {
    s.len() > 0 && s.last() == '\n'
}

/// Fix violations in a file's content: the file's context is analysed, the violations are
/// fixed line by line from the last line to the first, and the file is rewritten, keeping its
/// final newline, only when something was fixed and the run is not a dry run.
pub fn fix_file_content(content: &str, violations: &[Violation], dry_run: bool) -> (r: FileFix)
    requires
        analyzable(content@),
        fixes_ok(lines_of(content@), violations@, file_context(content@), dry_run),
    ensures
        r.fixed_count == lines_fixed(
            lines_of(content@),
            violations@,
            file_context(content@),
            dry_run,
        ).1,
        r.skipped_count == lines_fixed(
            lines_of(content@),
            violations@,
            file_context(content@),
            dry_run,
        ).2,
        r.fixed_count + r.skipped_count <= violations.len(),
        opt_str(r.new_content) == if r.fixed_count > 0 && !dry_run {
            Some(
                rendered(
                    lines_fixed(lines_of(content@), violations@, file_context(content@), dry_run).0,
                    ends_with_newline(content@),
                ),
            )
        } else {
            None
        },
{
    let context = analyze_file_context(content);
    let c = chars_of(content);
    let ls = lines(c.as_slice());
    let mut file_lines = strings_of(ls.as_slice());
    assert(strs(file_lines@) =~= lines_of(content@));
    let preserve_trailing_newline = c.len() > 0 && c[c.len() - 1] == '\n';
    let (fixed_count, skipped_count) = apply_fixes_to_lines(
        &mut file_lines,
        violations,
        &context,
        dry_run,
    );
    let new_content = if fixed_count > 0 && !dry_run {
        assert(file_lines@.map_values(|s: String| s@) == strs(file_lines@));
        Some(render_fixed_content(file_lines.as_slice(), preserve_trailing_newline))
    } else {
        None
    };
    proof {
        law_fix_counts_bounded(lines_of(content@), violations@, file_context(content@), dry_run);
    }
    FileFix { fixed_count, skipped_count, new_content }
}

/// What fixing one file gives to the run: the number of violations fixed when its content
/// could be read, `None` when it could not.
pub open spec fn file_outcome(content: Option<String>, vs: Seq<Violation>, dry_run: bool) -> Option<usize> {
    match content {
        Some(c) => Some(
            lines_fixed(lines_of(c@), vs, file_context(c@), dry_run).1 as usize,
        ),
        None => None,
    }
}

/// The content to write back for one file: its fixed lines, keeping its final newline, when
/// its content could be read, something was fixed and the run is not a dry run.
pub open spec fn file_rewrite(content: Option<String>, vs: Seq<Violation>, dry_run: bool) -> Option<Seq<char>> {
    match content {
        Some(c) => {
            let (ls, f, _) = lines_fixed(lines_of(c@), vs, file_context(c@), dry_run);
            if f > 0 && !dry_run {
                Some(rendered(ls, ends_with_newline(c@)))
            } else {
                None
            }
        },
        None => None,
    }
}

/// The contents of the files can be fixed: each one that could be read has room for the
/// scans, and its violations can be handled.
pub open spec fn files_fixable(
    groups: Seq<(String, Vec<Violation>)>,
    contents: Seq<Option<String>>,
    dry_run: bool,
) -> bool {
    forall|i: int|
        0 <= i < groups.len() && i < contents.len() ==> match #[trigger] contents[i] {
            Some(c) => analyzable(c@) && fixes_ok(
                lines_of(c@),
                groups[i].1@,
                file_context(c@),
                dry_run,
            ),
            None => true,
        }
}

/// A fix run over the files of `groups`, given the content of each file as read (`None` where
/// it could not be read): each file's violations are fixed, and the run's statistics are
/// tallied; returns the statistics and, for each file, the content to write back.
pub fn fix_files(
    groups: &[(String, Vec<Violation>)],
    contents: &[Option<String>],
    dry_run: bool,
) -> (r: (FixStats, Vec<Option<String>>))
    requires
        groups.len() == contents.len(),
        total_violations(groups@) <= usize::MAX,
        files_fixable(groups@, contents@, dry_run),
    ensures
        r.1.len() == groups.len(),
        forall|i: int|
            0 <= i < groups.len() ==> opt_str(#[trigger] r.1@[i]) == file_rewrite(
                contents@[i],
                groups@[i].1@,
                dry_run,
            ),
        stats_view(r.0) == tally(
            groups@,
            Seq::new(
                groups.len() as nat,
                |i: int| file_outcome(contents@[i], groups@[i].1@, dry_run),
            ),
            dry_run,
        ),
{
    let ghost outcomes = Seq::new(
        groups.len() as nat,
        |i: int| file_outcome(contents@[i], groups@[i].1@, dry_run),
    );
    let mut counts: Vec<Option<usize>> = Vec::new();
    let mut rewrites: Vec<Option<String>> = Vec::new();
    let mut i: usize = 0;
    while i < groups.len()
        invariant
            i <= groups.len(),
            groups.len() == contents.len(),
            files_fixable(groups@, contents@, dry_run),
            outcomes == Seq::new(
                groups.len() as nat,
                |i: int| file_outcome(contents@[i], groups@[i].1@, dry_run),
            ),
            counts@ == outcomes.take(i as int),
            rewrites.len() == i,
            forall|j: int|
                0 <= j < i ==> opt_str(#[trigger] rewrites@[j]) == file_rewrite(
                    contents@[j],
                    groups@[j].1@,
                    dry_run,
                ),
            counts_within(groups@.take(i as int), counts@),
        decreases groups.len() - i,
    {
        let vs = &groups[i].1;
        assert(groups@[i as int].1 == *vs);
        match &contents[i] {
            Some(content) => {
                assert(contents@[i as int] is Some);
                let fix = fix_file_content(content.as_str(), vs.as_slice(), dry_run);
                counts.push(Some(fix.fixed_count));
                rewrites.push(fix.new_content);
            },
            None => {
                counts.push(None);
                rewrites.push(None);
            },
        }
        proof {
            assert(counts@ =~= outcomes.take(i + 1));
            assert forall|j: int|
                0 <= j < counts@.len() && j < groups@.take(i + 1).len() implies match #[trigger] counts@[j] {
                Some(k) => k <= groups@.take(i + 1)[j].1.len(),
                None => true,
            } by {
                if j < i {
                    assert(groups@.take(i + 1)[j] == groups@.take(i as int)[j]);
                }
            }
        }
        i = i + 1;
    }
    proof {
        assert(groups@.take(groups.len() as int) =~= groups@);
        assert(outcomes.take(groups.len() as int) =~= outcomes);
        law_tally_bounded(groups@, counts@, dry_run);
        lemma_tally_nonneg(groups@, counts@, dry_run);
    }
    let stats = process_all_files(groups, counts.as_slice(), dry_run);
    (stats, rewrites)
}

} // verus!
