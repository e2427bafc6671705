//! Fix strategies for different violation types: what a single line becomes when a
//! violation on it is fixed, or why it is left alone.

use vstd::prelude::*;
use crate::fix::context::{can_use_question_mark, check_can_use_question_mark, file_context};
use crate::fix::types::{FileContext, FileContextView, FixOutcome, FixResult};
use crate::text::{
    append_str, chars_of, contains, decimal, find, has_prefix, has_sub, index_of, occurs_at,
    push_all, replace, replace_all, slice_copy, starts_with, string_of, text, trim, trimmed,
    usize_to_string, utf8_width, char_width, disjoint_chars, lemma_index_of,
    lemma_replace_removes,
};
use crate::violation::{Violation, ViolationType};

verus! {

/// Where a violation is: its file, a colon and its line number.
pub open spec fn place(file: Seq<char>, line: nat) -> Seq<char> {
    file + ":"@ + decimal(line)
}

/// The reason given for leaving a violation in a test file alone.
pub open spec fn test_file_message(file: Seq<char>, line: nat) -> Seq<char> {
    "Test file - manual review needed at "@ + place(file, line)
}

/// The reason given when `?` cannot be used.
pub open spec fn no_question_mark_message() -> Seq<char> {
    "Cannot use ? operator - function doesn't return Result/Option"@
}

/// The index of the `)` that closes a call whose `(` precedes `s`, scanning from `i` with
/// `depth` parentheses open, inside a string literal or not, and after a backslash or not.
/// Parentheses inside string literals do not count; a backslash makes the next character
/// count for nothing.
pub open spec fn close_paren_from(
    s: Seq<char>,
    i: int,
    depth: int,
    in_string: bool,
    escape: bool,
) -> Option<int>
    decreases s.len() - i,
{
    if i < 0 || i >= s.len() {
        None
    } else {
        let c = s[i];
        if escape {
            close_paren_from(s, i + 1, depth, in_string, false)
        } else if c == '\\' {
            close_paren_from(s, i + 1, depth, in_string, true)
        } else {
            let ins = if c == '"' {
                !in_string
            } else {
                in_string
            };
            if !ins && c == '(' {
                close_paren_from(s, i + 1, depth + 1, ins, false)
            } else if !ins && c == ')' {
                if depth - 1 == 0 {
                    Some(i)
                } else {
                    close_paren_from(s, i + 1, depth - 1, ins, false)
                }
            } else {
                close_paren_from(s, i + 1, depth, ins, false)
            }
        }
    }
}

/// The index of the `)` that closes a call whose `(` comes just before `s`.
pub open spec fn close_paren(s: Seq<char>) -> Option<int> {
    close_paren_from(s, 0, 1, false, false)
}

/// `b` bytes into the UTF-8 encoding of `s` is the start of a character (or the end).
pub open spec fn on_boundary(s: Seq<char>, b: int) -> bool
    decreases s.len(),
{
    if b == 0 {
        true
    } else if b < 0 || s.len() == 0 {
        false
    } else {
        on_boundary(s.drop_first(), b - utf8_width(s[0]))
    }
}

/// What follows the first `b` bytes of the UTF-8 encoding of `s`.
pub open spec fn skip_bytes(s: Seq<char>, b: int) -> Seq<char>
    decreases s.len(),
{
    if b <= 0 || s.len() == 0 {
        s
    } else {
        skip_bytes(s.drop_first(), b - utf8_width(s[0]))
    }
}

/// The start of the first `.expect(` in `line`.
pub open spec fn expect_start(line: Seq<char>) -> int {
    match index_of(line, ".expect("@) {
        Some(i) => i,
        None => 0,
    }
}

/// What follows the `.expect(` in `line`.
pub open spec fn after_expect(line: Seq<char>) -> Seq<char> {
    line.skip(expect_start(line) + 8)
}

/// The line would be rewritten from an `.expect(..)` call to `?`.
pub open spec fn rewrites_expect(line: Seq<char>, c: FileContextView) -> bool {
    &&& !c.is_test_file
    &&& !has_sub(line, ".unwrap()"@)
    &&& has_sub(line, ".expect("@)
    &&& can_use_question_mark(c)
    &&& close_paren(after_expect(line)) is Some
}

/// The text after the closing parenthesis of the `.expect(..)` call can be cut at the
/// position the scan found: the character count of the scan, used as a byte offset, falls on
/// a character boundary (it always does when the call's argument is ASCII).
pub open spec fn expect_cut_ok(line: Seq<char>, c: FileContextView) -> bool {
    rewrites_expect(line, c) ==> on_boundary(
        after_expect(line),
        close_paren(after_expect(line))->0 + 1,
    )
}

/// The outcome of fixing an unwrap violation on `line` at `file:lineno`.
pub open spec fn unwrap_fix(line: Seq<char>, file: Seq<char>, lineno: nat, c: FileContextView) -> FixOutcome {
    if c.is_test_file {
        FixOutcome::Skipped(test_file_message(file, lineno))
    } else if has_sub(line, ".unwrap()"@) {
        if has_sub(line, "\".unwrap()\""@) || has_sub(line, "'.unwrap()'"@) {
            FixOutcome::Skipped("String literal, not actual code"@)
        } else if can_use_question_mark(c) {
            FixOutcome::Fixed(replace_all(line, ".unwrap()"@, "?"@))
        } else if c.is_bin_file || c.is_example_file {
            FixOutcome::Fixed(
                replace_all(line, ".unwrap()"@, ".expect(\"Failed to complete operation\")"@),
            )
        } else {
            FixOutcome::Skipped(no_question_mark_message())
        }
    } else if has_sub(line, ".expect("@) {
        if can_use_question_mark(c) {
            let rest = after_expect(line);
            match close_paren(rest) {
                Some(e) => FixOutcome::Fixed(
                    line.take(expect_start(line)) + "?"@ + skip_bytes(rest, e + 1),
                ),
                None => FixOutcome::Skipped("Complex expect pattern - manual review needed"@),
            }
        } else {
            FixOutcome::Skipped(no_question_mark_message())
        }
    } else {
        FixOutcome::NotApplicable
    }
}

/// The outcome of fixing an underscore violation on `line` at `file:lineno`.
pub open spec fn underscore_fix(
    line: Seq<char>,
    file: Seq<char>,
    lineno: nat,
    c: FileContextView,
) -> FixOutcome {
    if c.is_test_file {
        FixOutcome::Skipped(test_file_message(file, lineno))
    } else if starts_with(trim(line), "let _"@) && has_sub(line, "="@) && {
        let value = trim(line.skip(index_of(line, "="@)->0 + 1));
        !has_sub(value, "("@) && !has_sub(value, "."@)
    } {
        FixOutcome::Fixed(Seq::empty())
    } else {
        FixOutcome::Skipped(
            "Underscore at "@ + place(file, lineno)
                + " requires manual review - may have side effects"@,
        )
    }
}

/// The kinds of violation that the fixer knows how to rewrite.
pub open spec fn auto_fixable(t: ViolationType) -> bool {
    t == ViolationType::UnwrapInProduction || t == ViolationType::UnderscoreBandaid
}

/// The outcome of fixing `v` on `line`.
pub open spec fn violation_fix(line: Seq<char>, v: Violation, c: FileContextView) -> FixOutcome {
    match v.violation_type {
        ViolationType::UnwrapInProduction => unwrap_fix(line, v.file@, v.line as nat, c),
        ViolationType::UnderscoreBandaid => underscore_fix(line, v.file@, v.line as nat, c),
        _ => FixOutcome::NotApplicable,
    }
}

/// A fix of `v` on `line` can be computed (it cannot when an `.expect(..)` rewrite would cut
/// the line inside a character).
pub open spec fn violation_fix_ok(line: Seq<char>, v: Violation, c: FileContextView) -> bool {
    v.violation_type == ViolationType::UnwrapInProduction ==> expect_cut_ok(line, c)
}

/// The place of a violation, as text.
fn place_text(violation: &Violation) -> (r: String)
    ensures
        r@ == place(violation.file@, violation.line as nat),
{
    let mut r = violation.file.clone();
    append_str(&mut r, ":");
    let n = usize_to_string(violation.line);
    append_str(&mut r, n.as_str());
    r
}

/// The reason given for leaving a violation in a test file alone.
fn test_file_reason(violation: &Violation) -> (r: String)
    ensures
        r@ == test_file_message(violation.file@, violation.line as nat),
{
    let mut r = text("Test file - manual review needed at ");
    let p = place_text(violation);
    append_str(&mut r, p.as_str());
    r
}

/// The index of the `)` closing the call whose `(` comes just before `s`.
fn find_close_paren(s: &[char]) -> (r: Option<usize>)
    ensures
        match r {
            Some(e) => close_paren(s@) == Some(e as int) && e < s.len(),
            None => close_paren(s@) is None,
        },
{
    let mut opened: usize = 0;
    let mut in_string = false;
    let mut escape = false;
    let mut i: usize = 0;
    while i < s.len()
        invariant
            i <= s.len(),
            opened <= i,
            close_paren(s@) == close_paren_from(s@, i as int, opened + 1, in_string, escape),
        decreases s.len() - i,
    {
        let c = s[i];
        if escape {
            escape = false;
        } else if c == '\\' {
            escape = true;
        } else {
            if c == '"' {
                in_string = !in_string;
            }
            if !in_string {
                if c == '(' {
                    opened = opened + 1;
                } else if c == ')' {
                    if opened == 0 {
                        return Some(i);
                    }
                    opened = opened - 1;
                }
            }
        }
        i = i + 1;
    }
    None
}

/// What follows the first `b` bytes of `s`, where `b` falls on a character boundary.
fn suffix_from_byte(s: &[char], b: usize) -> (r: Vec<char>)
    requires
        on_boundary(s@, b as int),
    ensures
        r@ == skip_bytes(s@, b as int),
{
    let mut k: usize = 0;
    let mut rem = b;
    assert(s@.skip(0) =~= s@);
    while rem > 0
        invariant
            k <= s.len(),
            rem <= b,
            on_boundary(s@.skip(k as int), rem as int),
            skip_bytes(s@, b as int) == skip_bytes(s@.skip(k as int), rem as int),
        decreases rem,
    {
        let ghost t = s@.skip(k as int);
        assert(t.len() > 0);
        assert(t[0] == s@[k as int]);
        let w = char_width(s[k]);
        assert(t.drop_first() =~= s@.skip(k + 1));
        assert(on_boundary(t.drop_first(), rem - utf8_width(t[0])));
        if rem < w {
            assert(!on_boundary(t.drop_first(), rem - utf8_width(t[0])));
        }
        rem = rem - w;
        k = k + 1;
    }
    slice_copy(s, k, s.len())
}

/// Fix unwrap violations in a line
pub fn fix_unwrap_in_line(line: &str, violation: &Violation, context: &FileContext) -> (r:
    FixResult)
    requires
        expect_cut_ok(line@, context@),
    ensures
        r@ == unwrap_fix(line@, violation.file@, violation.line as nat, context@),
{
    if context.is_test_file {
        return FixResult::Skipped(test_file_reason(violation));
    }
    let l = chars_of(line);
    let l = l.as_slice();
    let unwrap_pat = chars_of(".unwrap()");
    if contains(l, unwrap_pat.as_slice()) {
        if contains(l, chars_of("\".unwrap()\"").as_slice()) || contains(
            l,
            chars_of("'.unwrap()'").as_slice(),
        ) {
            return FixResult::Skipped(text("String literal, not actual code"));
        }
        proof {
            reveal_strlit(".unwrap()");
            assert(".unwrap()"@.len() == 9);
        }
        if check_can_use_question_mark(context) {
            let fixed = replace(l, unwrap_pat.as_slice(), chars_of("?").as_slice());
            return FixResult::Fixed(string_of(fixed.as_slice()));
        } else {
            if context.is_bin_file || context.is_example_file {
                let fixed = replace(
                    l,
                    unwrap_pat.as_slice(),
                    chars_of(".expect(\"Failed to complete operation\")").as_slice(),
                );
                return FixResult::Fixed(string_of(fixed.as_slice()));
            }
            return FixResult::Skipped(
                text("Cannot use ? operator - function doesn't return Result/Option"),
            );
        }
    } else {
        let expect_pat = chars_of(".expect(");
        if contains(l, expect_pat.as_slice()) {
            if check_can_use_question_mark(context) {
                if let Some(start) = find(l, expect_pat.as_slice()) {
                    proof {
                        reveal_strlit(".expect(");
                        assert(".expect("@.len() == 8);
                        assert(occurs_at(l@, expect_pat@, start as int));
                        assert(start + 8 <= l.len());
                    }
                    let before = slice_copy(l, 0, start);
                    let rest = slice_copy(l, start + 8, l.len());
                    assert(rest@ =~= after_expect(line@));
                    if let Some(e) = find_close_paren(rest.as_slice()) {
                        let after = suffix_from_byte(rest.as_slice(), e + 1);
                        let mut fixed = before;
                        fixed.push('?');
                        push_all(&mut fixed, after.as_slice());
                        proof {
                            reveal_strlit("?");
                            assert(before@ =~= line@.take(expect_start(line@)));
                            assert(fixed@ =~= line@.take(expect_start(line@)) + "?"@
                                + skip_bytes(rest@, e + 1));
                        }
                        return FixResult::Fixed(string_of(fixed.as_slice()));
                    }
                }
                return FixResult::Skipped(text("Complex expect pattern - manual review needed"));
            } else {
                return FixResult::Skipped(
                    text("Cannot use ? operator - function doesn't return Result/Option"),
                );
            }
        }
    }
    FixResult::NotApplicable
}

/// Fix underscore parameter violations
pub fn fix_underscore_in_line(line: &str, violation: &Violation, context: &FileContext) -> (r:
    FixResult)
    ensures
        r@ == underscore_fix(line@, violation.file@, violation.line as nat, context@),
{
    if context.is_test_file {
        return FixResult::Skipped(test_file_reason(violation));
    }
    let l = chars_of(line);
    let l = l.as_slice();
    let t = trimmed(l);
    let eq = chars_of("=");
    if has_prefix(t.as_slice(), chars_of("let _").as_slice()) && contains(l, eq.as_slice()) {
        if let Some(p) = find(l, eq.as_slice()) {
            proof {
                reveal_strlit("=");
                assert("="@.len() == 1);
                assert(occurs_at(l@, eq@, p as int));
                assert(p + 1 <= l.len());
            }
            let tail = slice_copy(l, p + 1, l.len());
            assert(tail@ =~= line@.skip(p + 1));
            let value = trimmed(tail.as_slice());
            if !contains(value.as_slice(), chars_of("(").as_slice()) && !contains(
                value.as_slice(),
                chars_of(".").as_slice(),
            ) {
                return FixResult::Fixed(String::new());
            }
        }
    }
    let mut r = text("Underscore at ");
    let p = place_text(violation);
    append_str(&mut r, p.as_str());
    append_str(&mut r, " requires manual review - may have side effects");
    FixResult::Skipped(r)
}

/// Fix a violation in a line of code
pub fn fix_violation_in_line(line: &str, violation: &Violation, context: &FileContext) -> (r:
    FixResult)
    requires
        violation_fix_ok(line@, *violation, context@),
    ensures
        r@ == violation_fix(line@, *violation, context@),
{
    match violation.violation_type {
        ViolationType::UnwrapInProduction => fix_unwrap_in_line(line, violation, context),
        ViolationType::UnderscoreBandaid => fix_underscore_in_line(line, violation, context),
        _ => FixResult::NotApplicable,
    }
}

/// Check if a violation can potentially be auto-fixed
pub fn can_potentially_auto_fix(violation: &Violation) -> (r: bool)
    ensures
        r == auto_fixable(violation.violation_type),
{
    match violation.violation_type {
        ViolationType::UnwrapInProduction | ViolationType::UnderscoreBandaid => true,
        _ => false,
    }
}


/// What follows some bytes of a text is a suffix of it.
proof fn lemma_skip_bytes_suffix(s: Seq<char>, b: int) -> (k: int)
    ensures
        0 <= k <= s.len(),
        skip_bytes(s, b) == s.skip(k),
    decreases s.len(),
{
    if b <= 0 || s.len() == 0 {
        assert(s.skip(0) =~= s);
        0
    } else {
        let k = lemma_skip_bytes_suffix(s.drop_first(), b - utf8_width(s[0]));
        assert(s.drop_first().skip(k) =~= s.skip(k + 1));
        k + 1
    }
}

/// A pattern found in a part of a text is found in the text.
proof fn lemma_sub_of_part(s: Seq<char>, p: Seq<char>, a: int, b: int)
    requires
        0 <= a <= b <= s.len(),
        has_sub(s.subrange(a, b), p),
    ensures
        has_sub(s, p),
{
    let i = choose|i: int| occurs_at(s.subrange(a, b), p, i);
    assert(s.subrange(a + i, a + i + p.len()) =~= s.subrange(a, b).subrange(i, i + p.len()));
    assert(occurs_at(s, p, a + i));
}

/// Two texts without the pattern, joined by a character that the pattern lacks, are still
/// without it.
proof fn lemma_join_without(x: Seq<char>, c: char, y: Seq<char>, p: Seq<char>)
    requires
        !has_sub(x, p),
        !has_sub(y, p),
        forall|k: int| 0 <= k < p.len() ==> p[k] != c,
    ensures
        !has_sub(x + seq![c] + y, p),
{
    let z = x + seq![c] + y;
    assert forall|i: int| !occurs_at(z, p, i) by {
        if occurs_at(z, p, i) {
            if i + p.len() <= x.len() {
                assert(x.subrange(i, i + p.len()) =~= z.subrange(i, i + p.len()));
                assert(occurs_at(x, p, i));
            } else if i > x.len() {
                let j = i - x.len() - 1;
                assert(y.subrange(j, j + p.len()) =~= z.subrange(i, i + p.len()));
                assert(occurs_at(y, p, j));
            } else {
                let k = x.len() - i;
                assert(z.subrange(i, i + p.len())[k] == z[x.len() as int]);
                assert(p[k] == c);
            }
        }
    }
}

/// Law: whenever `?` can be used in a file, a line that the unwrap fix rewrites holds no
/// `.unwrap()` any more.
pub proof fn law_question_mark_fix_leaves_no_unwrap(
    line: Seq<char>,
    file: Seq<char>,
    lineno: nat,
    c: FileContextView,
)
    requires
        can_use_question_mark(c),
        unwrap_fix(line, file, lineno, c) is Fixed,
    ensures
        !has_sub(unwrap_fix(line, file, lineno, c)->Fixed_0, ".unwrap()"@),
{
    let p = ".unwrap()"@;
    reveal_strlit(".unwrap()");
    reveal_strlit("?");
    assert(p.len() == 9);
    if has_sub(line, p) {
        assert(disjoint_chars(p, "?"@));
        lemma_replace_removes(line, p, "?"@);
    } else {
        let st = expect_start(line);
        let rest = after_expect(line);
        let e = close_paren(rest)->0;
        lemma_index_of(line, ".expect("@);
        reveal_strlit(".expect(");
        assert(".expect("@.len() == 8);
        let k = lemma_skip_bytes_suffix(rest, e + 1);
        if has_sub(line.take(st), p) {
            lemma_sub_of_part(line, p, 0, st);
            assert(line.subrange(0, st) =~= line.take(st));
        }
        if has_sub(rest.skip(k), p) {
            assert(rest.skip(k) =~= line.subrange(st + 8 + k, line.len() as int));
            lemma_sub_of_part(line, p, st + 8 + k, line.len() as int);
        }
        lemma_join_without(line.take(st), '?', skip_bytes(rest, e + 1), p);
        assert(line.take(st) + "?"@ + skip_bytes(rest, e + 1) =~= line.take(st) + seq!['?']
            + skip_bytes(rest, e + 1));
    }
}

/// Law: a line in a test file is never rewritten, whatever the violation.
pub proof fn law_test_files_never_fixed(line: Seq<char>, v: Violation, c: FileContextView)
    requires
        c.is_test_file,
    ensures
        !(violation_fix(line, v, c) is Fixed),
{
}

/// Law: a violation of a kind the fixer cannot rewrite is answered with "not applicable".
pub proof fn law_unfixable_kinds_not_applicable(line: Seq<char>, v: Violation, c: FileContextView)
    requires
        !auto_fixable(v.violation_type),
    ensures
        violation_fix(line, v, c) == FixOutcome::NotApplicable,
{
}

/// Law: where `?` cannot be used, an `.unwrap()` in an example file or a bin file (not a test
/// file), outside a quoted `".unwrap()"`, is fixed by turning every `.unwrap()` on the line
/// into `.expect("Failed to complete operation")`, for example files exactly as for bin files.
pub proof fn law_unwrap_becomes_expect_outside_libraries(
    line: Seq<char>,
    file: Seq<char>,
    lineno: nat,
    c: FileContextView,
)
    requires
        !c.is_test_file,
        c.is_example_file || c.is_bin_file,
        !can_use_question_mark(c),
        has_sub(line, ".unwrap()"@),
        !has_sub(line, "\".unwrap()\""@),
        !has_sub(line, "'.unwrap()'"@),
    ensures
        unwrap_fix(line, file, lineno, c) == FixOutcome::Fixed(
            replace_all(line, ".unwrap()"@, ".expect(\"Failed to complete operation\")"@),
        ),
{
}

/// Law: in the context of an example file's content (one that is neither a test file nor a
/// bin file), every `.unwrap()` line outside a quoted `".unwrap()"` is fixed to
/// `.expect("Failed to complete operation")`: the `?` operator is never used there.
pub proof fn law_example_file_unwraps_become_expect(
    content: Seq<char>,
    line: Seq<char>,
    file: Seq<char>,
    lineno: nat,
)
    requires
        has_sub(content, "//! Example"@) || has_sub(content, "// Example"@),
        !has_sub(content, "#[test]"@),
        !has_sub(content, "#[cfg(test)]"@),
        !has_sub(content, "mod tests"@),
        !has_sub(content, "fn main()"@),
        has_sub(line, ".unwrap()"@),
        !has_sub(line, "\".unwrap()\""@),
        !has_sub(line, "'.unwrap()'"@),
    ensures
        unwrap_fix(line, file, lineno, file_context(content)) == FixOutcome::Fixed(
            replace_all(line, ".unwrap()"@, ".expect(\"Failed to complete operation\")"@),
        ),
{
}

} // verus!
