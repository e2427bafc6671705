//! File context analysis for intelligent fixes: what kind of file it is and which functions
//! it declares, with their extent and return types.

use vstd::prelude::*;
use crate::fix::types::{FileContext, FileContextView, FunctionSignature, SignatureView};
use crate::text::{
    byte_len, char_pos, chars_of, chars_of_all, contains, find, has_prefix, has_sub, index_of,
    join, join_chars, leading_ws, lemma_byte_len_split, lemma_char_pos, lemma_total_len_part,
    lines, lines_of, occurs_at, prefix_bytes, position_of, lemma_lines_bounds, slice_copy, starts_with, string_of, total_len, trim,
    trim_start, trimmed, trimmed_start, views,
};

verus! {

/// The line opens a function declaration.
pub open spec fn is_fn_start(line: Seq<char>) -> bool {
    let t = trim_start(line);
    starts_with(t, "fn "@) || starts_with(t, "pub fn "@) || starts_with(t, "async fn "@)
        || starts_with(t, "pub async fn "@)
}

/// The line holds an opening brace.
pub open spec fn has_open_brace(line: Seq<char>) -> bool {
    char_pos(line, '{') < line.len()
}

/// The first line at or after `i` that holds an opening brace, or the number of lines.
pub open spec fn brace_line_from(lines: Seq<Seq<char>>, i: int) -> int
    decreases lines.len() - i,
{
    if i < 0 || i >= lines.len() {
        if i < 0 {
            0
        } else {
            i
        }
    } else if has_open_brace(lines[i]) {
        i
    } else {
        brace_line_from(lines, i + 1)
    }
}

/// The text of a signature: its first line and the following lines up to and including the
/// line that holds the opening brace (to the last line when none does), joined by single
/// spaces, so that a return type written on the brace line is part of it.
pub open spec fn signature_text(lines: Seq<Seq<char>>, start: int) -> Seq<char> {
    let b = brace_line_from(lines, start);
    let end = if b < lines.len() {
        b + 1
    } else {
        lines.len() as int
    };
    join(lines.subrange(start, end), " "@)
}

/// Where the function name ends: at the first `(` or `<`.
pub open spec fn name_end(t: Seq<char>) -> int {
    let a = char_pos(t, '(');
    let b = char_pos(t, '<');
    if a <= b {
        a
    } else {
        b
    }
}

/// The name after the first `fn `, up to the first `(` or `<`, trimmed.
pub open spec fn function_name(full: Seq<char>) -> Option<Seq<char>> {
    match index_of(full, "fn "@) {
        None => None,
        Some(a) => {
            let t = full.skip(a + 3);
            let e = name_end(t);
            if e >= t.len() {
                None
            } else {
                Some(trim(t.take(e)))
            }
        },
    }
}

/// The signature declares a `Result` return type.
pub open spec fn returns_result(full: Seq<char>) -> bool {
    has_sub(full, "-> Result"@) || has_sub(full, "-> anyhow::Result"@) || has_sub(
        full,
        "-> std::result::Result"@,
    ) || has_sub(full, "-> io::Result"@)
}

/// The signature declares an `Option` return type.
pub open spec fn returns_option(full: Seq<char>) -> bool {
    has_sub(full, "-> Option"@)
}

/// The UTF-8 width of a line's leading white space.
pub open spec fn indent_width(line: Seq<char>) -> int {
    byte_len(line) - byte_len(trim_start(line))
}

/// The brace depth after scanning `line` from `j`: `{` opens, `}` closes, and a `}` that
/// brings the depth to zero on a line as indented as the function stops the scan.
pub open spec fn scan_braces(line: Seq<char>, j: int, count: int, same_indent: bool) -> int
    decreases line.len() - j,
{
    if j < 0 || j >= line.len() {
        count
    } else if line[j] == '{' {
        scan_braces(line, j + 1, count + 1, same_indent)
    } else if line[j] == '}' {
        if count - 1 == 0 && same_indent {
            0
        } else {
            scan_braces(line, j + 1, count - 1, same_indent)
        }
    } else {
        scan_braces(line, j + 1, count, same_indent)
    }
}

/// The line where the brace depth, counted from line `le`, comes back to zero.
pub open spec fn function_end_from(lines: Seq<Seq<char>>, le: int, count: int, indent: int) -> int
    decreases lines.len() - le,
{
    if le < 0 || le >= lines.len() || count <= 0 {
        le
    } else {
        let c2 = scan_braces(lines[le], 0, count, indent_width(lines[le]) == indent);
        if c2 == 0 {
            le
        } else {
            function_end_from(lines, le + 1, c2, indent)
        }
    }
}

/// The last line of the function whose signature starts at `start` (0-based).
pub open spec fn function_end(lines: Seq<Seq<char>>, brace_line: int, start: int) -> int {
    function_end_from(lines, brace_line + 1, 1, indent_width(lines[start]))
}

/// The signature starting at line `start` (0-based), if a name can be read from it.
pub open spec fn parse_signature(lines: Seq<Seq<char>>, start: int) -> Option<SignatureView> {
    let full = signature_text(lines, start);
    match function_name(full) {
        None => None,
        Some(name) => Some(
            SignatureView {
                name,
                line_start: start + 1,
                line_end: function_end(lines, brace_line_from(lines, start), start) + 1,
                returns_result: returns_result(full),
                returns_option: returns_option(full),
            },
        ),
    }
}

/// The signatures declared on the first `n` lines, in order.
pub open spec fn signatures_upto(lines: Seq<Seq<char>>, n: int) -> Seq<SignatureView>
    decreases n,
{
    if n <= 0 {
        seq![]
    } else {
        let before = signatures_upto(lines, n - 1);
        if is_fn_start(lines[n - 1]) && parse_signature(lines, n - 1) is Some {
            before.push(parse_signature(lines, n - 1)->Some_0)
        } else {
            before
        }
    }
}

/// The context of a file's content.
pub open spec fn file_context(content: Seq<char>) -> FileContextView {
    let ls = lines_of(content);
    FileContextView {
        is_test_file: has_sub(content, "#[test]"@) || has_sub(content, "#[cfg(test)]"@)
            || has_sub(content, "mod tests"@),
        is_bin_file: has_sub(content, "fn main()"@),
        is_example_file: has_sub(content, "//! Example"@) || has_sub(content, "// Example"@),
        has_anyhow_import: has_sub(content, "use anyhow::"@) || has_sub(content, "anyhow::"@),
        has_thiserror_import: has_sub(content, "use thiserror::"@) || has_sub(
            content,
            "thiserror::"@,
        ),
        function_signatures: signatures_upto(ls, ls.len() as int),
    }
}

/// Whether the `?` operator can be used, by what the file context shows.
pub open spec fn can_use_question_mark(c: FileContextView) -> bool {
    if c.is_test_file {
        false
    } else if c.is_bin_file {
        exists|i: int|
            0 <= i < c.function_signatures.len() && (#[trigger] c.function_signatures[i]).name
                == "main"@ && c.function_signatures[i].returns_result
    } else if c.is_example_file {
        false
    } else {
        exists|i: int|
            0 <= i < c.function_signatures.len() && ((
            #[trigger] c.function_signatures[i]).returns_result
                || c.function_signatures[i].returns_option)
    }
}

/// The lines of a file, with enough room for the line arithmetic of the scans.
pub open spec fn scannable(lines: Seq<Seq<char>>) -> bool {
    &&& total_len(lines) < i64::MAX
    &&& lines.len() + 2 <= usize::MAX
    &&& forall|i: int| 0 <= i < lines.len() ==> 4 * (#[trigger] lines[i]).len() <= usize::MAX
}

/// Whether a line holds an opening brace.
fn line_has_brace(line: &Vec<char>) -> (r: bool)
    ensures
        r == has_open_brace(line@),
{
    let mut i: usize = 0;
    while i < line.len()
        invariant
            i <= line.len(),
            forall|j: int| 0 <= j < i ==> line@[j] != '{',
        decreases line.len() - i,
    {
        if line[i] == '{' {
            proof {
                crate::text::lemma_char_pos_at(line@, '{', i as int);
            }
            return true;
        }
        i = i + 1;
    }
    proof {
        crate::text::lemma_char_pos_at(line@, '{', line@.len() as int);
    }
    false
}

/// The first line at or after `start` holding an opening brace, or the number of lines.
fn find_brace_line(lines: &[Vec<char>], start: usize) -> (b: usize)
    requires
        start <= lines.len(),
    ensures
        b == brace_line_from(views(lines@), start as int),
        start <= b <= lines.len(),
{
    let mut b = start;
    while b < lines.len() && !line_has_brace(&lines[b])
        invariant
            start <= b <= lines.len(),
            brace_line_from(views(lines@), start as int) == brace_line_from(
                views(lines@),
                b as int,
            ),
        decreases lines.len() - b,
    {
        b = b + 1;
    }
    b
}

/// The UTF-8 width of a line's leading white space.
fn line_indent(line: &Vec<char>) -> (r: usize)
    requires
        4 * line@.len() <= usize::MAX,
    ensures
        r == indent_width(line@),
{
    let k = leading_ws(line.as_slice());
    let r = prefix_bytes(line.as_slice(), k);
    proof {
        lemma_byte_len_split(line@, k as int);
    }
    r
}

/// The brace depth scan of one line bounds the depth by the line's length.
proof fn lemma_scan_bound(line: Seq<char>, j: int, count: int, same_indent: bool)
    requires
        0 <= j <= line.len(),
    ensures
        -(line.len() - j) + count <= scan_braces(line, j, count, same_indent) <= count + (
        line.len() - j),
        scan_braces(line, j, count, same_indent) >= count - (line.len() - j),
    decreases line.len() - j,
{
    if j < line.len() {
        if line[j] == '{' {
            lemma_scan_bound(line, j + 1, count + 1, same_indent);
        } else if line[j] == '}' {
            if !(count - 1 == 0 && same_indent) {
                lemma_scan_bound(line, j + 1, count - 1, same_indent);
            }
        } else {
            lemma_scan_bound(line, j + 1, count, same_indent);
        }
    }
}

/// The brace depth after scanning one line.
fn scan_line(line: &Vec<char>, count: i64, same_indent: bool) -> (r: i64)
    requires
        1 <= count,
        count + line@.len() <= i64::MAX,
    ensures
        r == scan_braces(line@, 0, count as int, same_indent),
{
    proof {
        lemma_scan_bound(line@, 0, count as int, same_indent);
    }
    let mut c = count;
    let mut j: usize = 0;
    while j < line.len()
        invariant
            j <= line.len(),
            1 <= count,
            count + line.len() <= i64::MAX,
            count - j <= c <= count + j,
            scan_braces(line@, 0, count as int, same_indent) == scan_braces(
                line@,
                j as int,
                c as int,
                same_indent,
            ),
        decreases line.len() - j,
    {
        let ch = line[j];
        if ch == '{' {
            c = c + 1;
        } else if ch == '}' {
            if c - 1 == 0 && same_indent {
                return 0;
            }
            c = c - 1;
        }
        j = j + 1;
    }
    c
}

/// The last line (0-based) of the function whose signature starts at `start` and whose
/// opening brace is on `brace_line`.
fn find_function_end(lines: &[Vec<char>], brace_line: usize, start: usize) -> (r: usize)
    requires
        start <= brace_line <= lines.len(),
        start < lines.len(),
        scannable(views(lines@)),
    ensures
        r == function_end(views(lines@), brace_line as int, start as int),
        r <= lines.len() + 1,
{
    let ghost ls = views(lines@);
    assert(ls[start as int] == lines@[start as int]@);
    let indent = line_indent(&lines[start]);
    let mut line_end = brace_line + 1;
    let mut count: i64 = 1;
    proof {
        if brace_line < lines.len() {
            lemma_total_len_part(ls, brace_line as int);
        }
    }
    while line_end < lines.len() && count > 0
        invariant
            ls == views(lines@),
            scannable(ls),
            brace_line + 1 <= line_end <= lines.len() + 1,
            1 <= count,
            line_end <= lines.len() ==> count <= 1 + total_len(ls.take(line_end as int)),
            function_end(ls, brace_line as int, start as int) == function_end_from(
                ls,
                line_end as int,
                count as int,
                indent as int,
            ),
        decreases lines.len() + 1 - line_end,
    {
        let line = &lines[line_end];
        proof {
            lemma_total_len_part(ls, line_end as int);
            assert(ls[line_end as int] == line@);
            lemma_scan_bound(line@, 0, count as int, line_indent_eq(line@, indent as int));
        }
        let li = line_indent(line);
        let c2 = scan_line(line, count, li == indent);
        if c2 == 0 {
            return line_end;
        }
        line_end = line_end + 1;
        if c2 < 0 {
            assert(function_end_from(ls, line_end as int, c2 as int, indent as int)
                == line_end);
            return line_end;
        }
        count = c2;
    }
    line_end
}

/// Whether a line's indent equals `indent`.
spec fn line_indent_eq(line: Seq<char>, indent: int) -> bool {
    indent_width(line) == indent
}


/// Copies of `lines[a..b]`.
fn copy_lines(lines: &[Vec<char>], a: usize, b: usize) -> (r: Vec<Vec<char>>)
    requires
        a <= b <= lines.len(),
    ensures
        views(r@) == views(lines@).subrange(a as int, b as int),
{
    let mut r: Vec<Vec<char>> = Vec::new();
    let mut k = a;
    while k < b
        invariant
            a <= k <= b <= lines.len(),
            views(r@) == views(lines@).subrange(a as int, k as int),
        decreases b - k,
    {
        let ghost old_r = views(r@);
        r.push(slice_copy(lines[k].as_slice(), 0, lines[k].len()));
        assert(lines[k as int]@.subrange(0, lines[k as int]@.len() as int) =~= lines[k as int]@);
        assert(views(r@) =~= old_r.push(lines[k as int]@));
        k = k + 1;
        assert(views(r@) =~= views(lines@).subrange(a as int, k as int));
    }
    r
}

/// The name read from a signature's text.
fn extract_function_name(full: &[char]) -> (r: Option<Vec<char>>)
    ensures
        match r {
            Some(n) => function_name(full@) == Some(n@),
            None => function_name(full@) is None,
        },
{
    let pat = chars_of("fn ");
    match find(full, pat.as_slice()) {
        None => None,
        Some(a) => {
            proof {
                reveal_strlit("fn ");
                assert("fn "@.len() == 3);
                assert(occurs_at(full@, pat@, a as int));
                assert(a + 3 <= full@.len());
                assert(a + 3 <= full.len());
            }
            let t = slice_copy(full, a + 3, full.len());
            assert(t@ =~= full@.skip(a + 3));
            let p1 = position_of(t.as_slice(), '(');
            let p2 = position_of(t.as_slice(), '<');
            let e = if p1 <= p2 {
                p1
            } else {
                p2
            };
            if e >= t.len() {
                None
            } else {
                let head = slice_copy(t.as_slice(), 0, e);
                assert(head@ =~= t@.take(e as int));
                Some(trimmed(head.as_slice()))
            }
        },
    }
}

/// Check what types the function returns: a `Result`, an `Option`.
fn check_return_types(full: &[char]) -> (r: (bool, bool))
    ensures
        r == (returns_result(full@), returns_option(full@)),
{
    let returns_result = contains(full, chars_of("-> Result").as_slice()) || contains(
        full,
        chars_of("-> anyhow::Result").as_slice(),
    ) || contains(full, chars_of("-> std::result::Result").as_slice()) || contains(
        full,
        chars_of("-> io::Result").as_slice(),
    );
    let returns_option = contains(full, chars_of("-> Option").as_slice());
    (returns_result, returns_option)
}

/// Collect signature lines up to the one that holds the opening brace: the signature's text,
/// and the line that holds the brace.
fn collect_signature_lines(lines: &[Vec<char>], start: usize) -> (r: (Vec<char>, usize))
    requires
        start < lines.len(),
    ensures
        r.0@ == signature_text(views(lines@), start as int),
        r.1 == brace_line_from(views(lines@), start as int),
        start <= r.1 <= lines.len(),
{
    let b = find_brace_line(lines, start);
    let end = if b < lines.len() {
        b + 1
    } else {
        lines.len()
    };
    let pieces = copy_lines(lines, start, end);
    let full = join_chars(pieces.as_slice(), chars_of(" ").as_slice());
    (full, b)
}

/// The signature starting at line `start`, if a name can be read from it.
fn signature_at(lines: &[Vec<char>], start: usize) -> (r: Option<FunctionSignature>)
    requires
        start < lines.len(),
        scannable(views(lines@)),
    ensures
        match r {
            Some(sig) => parse_signature(views(lines@), start as int) == Some(sig@),
            None => parse_signature(views(lines@), start as int) is None,
        },
{
    let (full, b) = collect_signature_lines(lines, start);
    match extract_function_name(full.as_slice()) {
        None => None,
        Some(name) => {
            let (returns_result, returns_option) = check_return_types(full.as_slice());
            let line_end = find_function_end(lines, b, start);
            Some(
                FunctionSignature {
                    name: string_of(name.as_slice()),
                    line_start: start + 1,
                    line_end: line_end + 1,
                    returns_result,
                    returns_option,
                },
            )
        },
    }
}

/// Whether a line opens a function declaration.
fn line_starts_function(line: &Vec<char>) -> (r: bool)
    ensures
        r == is_fn_start(line@),
{
    let t = trimmed_start(line.as_slice());
    let t = t.as_slice();
    has_prefix(t, chars_of("fn ").as_slice()) || has_prefix(t, chars_of("pub fn ").as_slice())
        || has_prefix(t, chars_of("async fn ").as_slice()) || has_prefix(
        t,
        chars_of("pub async fn ").as_slice(),
    )
}

/// The signatures declared in the given lines, in order.
fn collect_signatures(lines: &[Vec<char>]) -> (r: Vec<FunctionSignature>)
    requires
        scannable(views(lines@)),
    ensures
        r@.map_values(|f: FunctionSignature| f@) == signatures_upto(
            views(lines@),
            lines.len() as int,
        ),
{
    let mut r: Vec<FunctionSignature> = Vec::new();
    let mut i: usize = 0;
    while i < lines.len()
        invariant
            i <= lines.len(),
            scannable(views(lines@)),
            r@.map_values(|f: FunctionSignature| f@) == signatures_upto(views(lines@), i as int),
        decreases lines.len() - i,
    {
        let ghost old_r = r@.map_values(|f: FunctionSignature| f@);
        assert(views(lines@)[i as int] == lines@[i as int]@);
        if line_starts_function(&lines[i]) {
            match signature_at(lines, i) {
                Some(sig) => {
                    r.push(sig);
                    assert(r@.map_values(|f: FunctionSignature| f@) =~= old_r.push(
                        parse_signature(views(lines@), i as int)->Some_0,
                    ));
                },
                None => {},
            }
        }
        i = i + 1;
    }
    r
}

/// The text of a file has room for the scans: its lines and their bytes can be counted.
pub open spec fn analyzable(content: Seq<char>) -> bool {
    4 * content.len() <= usize::MAX
}

/// A text with room for the scans splits into scannable lines.
proof fn lemma_analyzable_lines(content: Seq<char>)
    requires
        analyzable(content),
    ensures
        scannable(lines_of(content)),
{
    lemma_lines_bounds(content);
    assert(content.len() < i64::MAX);
}

/// Analyze a file's content to understand its context
pub fn analyze_file_context(content: &str) -> (r: FileContext)
    requires
        analyzable(content@),
    ensures
        r@ == file_context(content@),
{
    let c = chars_of(content);
    let c = c.as_slice();
    let ls = lines(c);
    proof {
        lemma_analyzable_lines(content@);
    }
    let is_test_file = contains(c, chars_of("#[test]").as_slice()) || contains(
        c,
        chars_of("#[cfg(test)]").as_slice(),
    ) || contains(c, chars_of("mod tests").as_slice());
    let is_bin_file = contains(c, chars_of("fn main()").as_slice());
    let is_example_file = contains(c, chars_of("//! Example").as_slice()) || contains(
        c,
        chars_of("// Example").as_slice(),
    );
    let has_anyhow_import = contains(c, chars_of("use anyhow::").as_slice()) || contains(
        c,
        chars_of("anyhow::").as_slice(),
    );
    let has_thiserror_import = contains(c, chars_of("use thiserror::").as_slice()) || contains(
        c,
        chars_of("thiserror::").as_slice(),
    );
    let function_signatures = collect_signatures(ls.as_slice());
    FileContext {
        is_test_file,
        is_bin_file,
        is_example_file,
        has_anyhow_import,
        has_thiserror_import,
        function_signatures,
    }
}

/// Parse a function signature that may span multiple lines
pub fn parse_function_signature_multiline(lines: &[&str], start_idx: usize) -> (r: Option<
    FunctionSignature,
>)
    requires
        start_idx < lines.len(),
        scannable(lines@.map_values(|s: &str| s@)),
    ensures
        match r {
            Some(sig) => parse_signature(lines@.map_values(|s: &str| s@), start_idx as int)
                == Some(sig@),
            None => parse_signature(lines@.map_values(|s: &str| s@), start_idx as int) is None,
        },
{
    let ls = chars_of_all(lines);
    signature_at(ls.as_slice(), start_idx)
}

/// Check if the ? operator can be used in this context
pub fn check_can_use_question_mark(context: &FileContext) -> (r: bool)
    ensures
        r == can_use_question_mark(context@),
{
    let sigs = &context.function_signatures;
    if context.is_test_file {
        return false;
    }
    if context.is_bin_file {
        let main = chars_of("main");
        let mut i: usize = 0;
        while i < sigs.len()
            invariant
                i <= sigs.len(),
                !context.is_test_file,
                context.is_bin_file,
                main@ == "main"@,
                sigs@.map_values(|f: FunctionSignature| f@) == context@.function_signatures,
                forall|j: int|
                    0 <= j < i ==> !((#[trigger] sigs@[j])@.name == "main"@
                        && sigs@[j]@.returns_result),
            decreases sigs.len() - i,
        {
            let n = chars_of(sigs[i].name.as_str());
            if crate::text::same_chars(n.as_slice(), main.as_slice()) && sigs[i].returns_result {
                assert(context@.function_signatures[i as int] == sigs@[i as int]@);
                return true;
            }
            i = i + 1;
        }
        assert forall|j: int|
            0 <= j < context@.function_signatures.len() implies !((
            #[trigger] context@.function_signatures[j]).name == "main"@
                && context@.function_signatures[j].returns_result) by {
            assert(context@.function_signatures[j] == sigs@[j]@);
        }
        return false;
    }
    if context.is_example_file {
        return false;
    }
    let mut i: usize = 0;
    while i < sigs.len()
        invariant
            i <= sigs.len(),
            !context.is_test_file,
            !context.is_bin_file,
            !context.is_example_file,
            sigs@.map_values(|f: FunctionSignature| f@) == context@.function_signatures,
            forall|j: int|
                0 <= j < i ==> !((#[trigger] sigs@[j])@.returns_result || sigs@[j]@.returns_option),
        decreases sigs.len() - i,
    {
        if sigs[i].returns_result || sigs[i].returns_option {
            assert(context@.function_signatures[i as int] == sigs@[i as int]@);
            return true;
        }
        i = i + 1;
    }
    assert forall|j: int| 0 <= j < context@.function_signatures.len() implies !((
    #[trigger] context@.function_signatures[j]).returns_result
        || context@.function_signatures[j].returns_option) by {
        assert(context@.function_signatures[j] == sigs@[j]@);
    }
    false
}

/// The signatures found on the first `n` lines include the one of each function line among
/// them.
proof fn lemma_signatures_include(lines: Seq<Seq<char>>, n: int, i: int)
    requires
        0 <= i < n <= lines.len(),
        is_fn_start(lines[i]),
        parse_signature(lines, i) is Some,
    ensures
        signatures_upto(lines, n).contains(parse_signature(lines, i)->Some_0),
    decreases n,
{
    let sig = parse_signature(lines, i)->Some_0;
    if i == n - 1 {
        let before = signatures_upto(lines, n - 1);
        assert(signatures_upto(lines, n) == before.push(sig));
        assert(before.push(sig)[before.len() as int] == sig);
    } else {
        lemma_signatures_include(lines, n - 1, i);
        let before = signatures_upto(lines, n - 1);
        let k = choose|k: int| 0 <= k < before.len() && before[k] == sig;
        if is_fn_start(lines[n - 1]) && parse_signature(lines, n - 1) is Some {
            assert(signatures_upto(lines, n)[k] == sig);
        }
    }
}

/// Law: every line that opens a function after its indentation (with `fn `, `pub fn `,
/// `async fn ` or `pub async fn `) and from which a name can be read gives a signature in the
/// context of the file.
pub proof fn law_function_lines_give_signatures(content: Seq<char>, i: int)
    requires
        0 <= i < lines_of(content).len(),
        starts_with(trim_start(lines_of(content)[i]), "fn "@) || starts_with(
            trim_start(lines_of(content)[i]),
            "pub fn "@,
        ) || starts_with(trim_start(lines_of(content)[i]), "async fn "@) || starts_with(
            trim_start(lines_of(content)[i]),
            "pub async fn "@,
        ),
        parse_signature(lines_of(content), i) is Some,
    ensures
        file_context(content).function_signatures.contains(
            parse_signature(lines_of(content), i)->Some_0,
        ),
{
    let ls = lines_of(content);
    lemma_signatures_include(ls, ls.len() as int, i);
}

/// Law: in a library file (neither a test, a bin nor an example file), a function that
/// returns `Result`, `pub async fn` ones included, makes the `?` operator usable.
pub proof fn law_result_function_allows_question_mark(content: Seq<char>, i: int)
    requires
        0 <= i < lines_of(content).len(),
        starts_with(trim_start(lines_of(content)[i]), "fn "@) || starts_with(
            trim_start(lines_of(content)[i]),
            "pub fn "@,
        ) || starts_with(trim_start(lines_of(content)[i]), "async fn "@) || starts_with(
            trim_start(lines_of(content)[i]),
            "pub async fn "@,
        ),
        parse_signature(lines_of(content), i) matches Some(sig) && sig.returns_result,
        !has_sub(content, "#[test]"@),
        !has_sub(content, "#[cfg(test)]"@),
        !has_sub(content, "mod tests"@),
        !has_sub(content, "fn main()"@),
        !has_sub(content, "//! Example"@),
        !has_sub(content, "// Example"@),
    ensures
        can_use_question_mark(file_context(content)),
{
    let ls = lines_of(content);
    lemma_signatures_include(ls, ls.len() as int, i);
    let sigs = file_context(content).function_signatures;
    let k = choose|k: int| 0 <= k < sigs.len() && sigs[k] == parse_signature(ls, i)->Some_0;
    assert(sigs[k].returns_result);
}

} // verus!
