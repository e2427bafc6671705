//! The code around a violation: its enclosing function, the imports of the file, and the way
//! the file handles errors.

use vstd::prelude::*;
use crate::ai_analyzer::types::{CodeContext, CodeContextView, ErrorHandlingStyle};
use crate::text::{
    before_first, chars_of, contains, has_prefix, has_sub, head_before, lines, lines_of,
    second_piece, slice_copy, split_second, starts_with, string_of, strings_of, strs, trim,
    trimmed, views,
};

verus! {

/// A `use` line.
pub open spec fn is_import(line: Seq<char>) -> bool {
    starts_with(trim(line), "use "@)
}

/// The `use` lines of a file's lines, in order.
pub open spec fn import_lines(ls: Seq<Seq<char>>) -> Seq<Seq<char>> {
    ls.filter(|l: Seq<char>| is_import(l))
}

/// A line that declares a function and is not a comment.
pub open spec fn is_fn_line(line: Seq<char>) -> bool {
    has_sub(line, "fn "@) && !starts_with(trim(line), "//"@)
}

/// The last function line among the first `k` lines.
pub open spec fn fn_line_before(ls: Seq<Seq<char>>, k: int) -> Option<int>
    decreases k,
{
    if k <= 0 {
        None
    } else if k - 1 < ls.len() && is_fn_line(ls[k - 1]) {
        Some(k - 1)
    } else {
        fn_line_before(ls, k - 1)
    }
}

/// The name in a function's signature: after `fn `, up to `(`, trimmed.
pub open spec fn signature_name(sig: Seq<char>) -> Option<Seq<char>> {
    match second_piece(sig, "fn "@) {
        Some(x) => Some(trim(before_first(x, "("@))),
        None => None,
    }
}

/// The return type in a function's signature: after `->`, trimmed.
pub open spec fn signature_return(sig: Seq<char>) -> Option<Seq<char>> {
    if has_sub(sig, "->"@) {
        match second_piece(sig, "->"@) {
            Some(x) => Some(trim(x)),
            None => None,
        }
    } else {
        None
    }
}

/// The name, signature and return type of the function that the line `line_number` is in,
/// found by scanning back from the line before it.
pub open spec fn function_info(ls: Seq<Seq<char>>, line_number: int) -> (
    Option<Seq<char>>,
    Option<Seq<char>>,
    Option<Seq<char>>,
) {
    match fn_line_before(ls, line_number) {
        Some(i) => {
            let sig = trim(ls[i]);
            (signature_name(sig), Some(sig), signature_return(sig))
        },
        None => (None, None, None),
    }
}

/// The last `impl .. for ..` line among the first `k` lines.
pub open spec fn impl_line_before(ls: Seq<Seq<char>>, k: int) -> Option<int>
    decreases k,
{
    if k <= 0 {
        None
    } else if k - 1 < ls.len() && has_sub(ls[k - 1], "impl"@) && has_sub(ls[k - 1], "for"@) {
        Some(k - 1)
    } else {
        impl_line_before(ls, k - 1)
    }
}

/// The trait implementation that the line `line` is in.
pub open spec fn trait_impl_of(content: Seq<char>, line: int) -> Option<Seq<char>> {
    let ls = lines_of(content);
    match impl_line_before(ls, if line < ls.len() {
        line
    } else {
        ls.len() as int
    }) {
        Some(i) => Some(trim(ls[i])),
        None => None,
    }
}

/// The error-handling style of a file with these imports and this content.
pub open spec fn error_style(imports: Seq<Seq<char>>, content: Seq<char>) -> ErrorHandlingStyle {
    if (exists|i: int| 0 <= i < imports.len() && has_sub(#[trigger] imports[i], "anyhow"@))
        || has_sub(content, "anyhow::Result"@) {
        ErrorHandlingStyle::AnyhowResult
    } else if has_sub(content, "Result<"@) && !has_sub(content, "std::result::Result"@) {
        ErrorHandlingStyle::CustomResult
    } else if has_sub(content, "Result<"@) {
        ErrorHandlingStyle::StdResult
    } else if has_sub(content, "Option<"@) {
        ErrorHandlingStyle::OptionBased
    } else if has_sub(content, "panic!"@) || has_sub(content, ".unwrap()"@) {
        ErrorHandlingStyle::Panic
    } else {
        ErrorHandlingStyle::Unknown
    }
}

/// The first line of the context window around `line_number`.
pub open spec fn window_start(line_number: int) -> int {
    if line_number >= 10 {
        line_number - 10
    } else {
        0
    }
}

/// The end of the context window around `line_number`, in a file of `n` lines.
pub open spec fn window_end(line_number: int, n: int) -> int {
    if line_number + 10 < n {
        line_number + 10
    } else {
        n
    }
}

/// The context window can be cut from the file: it does not start past its end.
pub open spec fn window_ok(line_number: int, content: Seq<char>) -> bool {
    &&& line_number + 10 <= usize::MAX
    &&& window_start(line_number) <= window_end(line_number, lines_of(content).len() as int)
}

/// The code context of the line `line_number` of `content`.
pub open spec fn code_context(line_number: int, content: Seq<char>) -> CodeContextView {
    let ls = lines_of(content);
    let imports = import_lines(ls);
    let (name, sig, ret) = function_info(ls, line_number);
    CodeContextView {
        function_name: name,
        function_signature: sig,
        return_type: ret,
        is_async: match sig {
            Some(s) => has_sub(s, "async"@),
            None => false,
        },
        is_generic: match sig {
            Some(s) => has_sub(s, "<"@),
            None => false,
        },
        trait_impl: trait_impl_of(content, line_number),
        surrounding_code: ls.subrange(
            window_start(line_number),
            window_end(line_number, ls.len() as int),
        ),
        imports,
        error_handling_style: error_style(imports, content),
    }
}

/// The `use` lines among `ls`.
fn imports_of_lines(ls: &[Vec<char>]) -> (r: Vec<String>)
    ensures
        strs(r@) == import_lines(views(ls@)),
{
    let ghost all = views(ls@);
    let ghost pred = |l: Seq<char>| is_import(l);
    let use_kw = chars_of("use ");
    let mut r: Vec<String> = Vec::new();
    let mut i: usize = 0;
    while i < ls.len()
        invariant
            i <= ls.len(),
            all == views(ls@),
            use_kw@ == "use "@,
            pred == (|l: Seq<char>| is_import(l)),
            strs(r@) == all.take(i as int).filter(pred),
        decreases ls.len() - i,
    {
        proof {
            reveal(Seq::filter);
            assert(all.take(i + 1).drop_last() =~= all.take(i as int));
            assert(all.take(i + 1).last() == ls@[i as int]@);
        }
        let t = trimmed(ls[i].as_slice());
        if has_prefix(t.as_slice(), use_kw.as_slice()) {
            let ghost before = strs(r@);
            r.push(string_of(ls[i].as_slice()));
            assert(strs(r@) =~= before.push(ls@[i as int]@));
        }
        i = i + 1;
    }
    assert(all.take(ls.len() as int) =~= all);
    r
}

/// The `use` lines of a file, in order.
pub fn extract_imports(content: &str) -> (r: Vec<String>)
    ensures
        strs(r@) == import_lines(lines_of(content@)),
{
    let ls = lines(chars_of(content).as_slice());
    imports_of_lines(ls.as_slice())
}

/// The name, signature and return type of the function that the line `line_number` is in.
pub fn extract_function_info(ls: &[Vec<char>], line_number: usize) -> (r: (
    Option<String>,
    Option<String>,
    Option<String>,
))
    ensures
        (opt_chars(r.0), opt_chars(r.1), opt_chars(r.2)) == function_info(views(ls@), line_number as int),
{
    let ghost all = views(ls@);
    let fn_kw = chars_of("fn ");
    let comment = chars_of("//");
    let mut k: usize = if line_number < ls.len() {
        line_number
    } else {
        ls.len()
    };
    proof {
        lemma_fn_line_before_past_end(all, line_number as int);
    }
    while k > 0
        invariant
            k <= ls.len(),
            all == views(ls@),
            fn_kw@ == "fn "@,
            comment@ == "//"@,
            fn_line_before(all, line_number as int) == fn_line_before(all, k as int),
        decreases k,
    {
        let line = ls[k - 1].as_slice();
        assert(all[k - 1] == line@);
        let t = trimmed(line);
        if contains(line, fn_kw.as_slice()) && !has_prefix(t.as_slice(), comment.as_slice()) {
            let sig = t;
            let name = match split_second(sig.as_slice(), fn_kw.as_slice()) {
                Some(x) => {
                    let head = head_before(x.as_slice(), chars_of("(").as_slice());
                    Some(string_of(trimmed(head.as_slice()).as_slice()))
                },
                None => None,
            };
            let arrow = chars_of("->");
            let ret = if contains(sig.as_slice(), arrow.as_slice()) {
                match split_second(sig.as_slice(), arrow.as_slice()) {
                    Some(x) => Some(string_of(trimmed(x.as_slice()).as_slice())),
                    None => None,
                }
            } else {
                None
            };
            return (name, Some(string_of(sig.as_slice())), ret);
        }
        k = k - 1;
    }
    (None, None, None)
}

/// The characters of an optional string.
pub open spec fn opt_chars(o: Option<String>) -> Option<Seq<char>> {
    match o {
        Some(s) => Some(s@),
        None => None,
    }
}

/// Scanning back from past the end of the lines finds what scanning back from the end finds.
proof fn lemma_fn_line_before_past_end(ls: Seq<Seq<char>>, k: int)
    ensures
        fn_line_before(ls, k) == fn_line_before(ls, if k < ls.len() {
            k
        } else {
            ls.len() as int
        }),
    decreases k,
{
    if k > ls.len() {
        lemma_fn_line_before_past_end(ls, k - 1);
    }
}

/// Detect the error handling style used in the code
pub fn detect_error_handling_style(imports: &[String], content: &str) -> (r: ErrorHandlingStyle)
    ensures
        r == error_style(strs(imports@), content@),
{
    let c = chars_of(content);
    let c = c.as_slice();
    let anyhow = chars_of("anyhow");
    let mut any_anyhow = false;
    let mut i: usize = 0;
    while i < imports.len()
        invariant
            i <= imports.len(),
            anyhow@ == "anyhow"@,
            any_anyhow == exists|j: int|
                0 <= j < i && has_sub(#[trigger] strs(imports@)[j], "anyhow"@),
        decreases imports.len() - i,
    {
        let m = chars_of(imports[i].as_str());
        assert(strs(imports@)[i as int] == m@);
        if contains(m.as_slice(), anyhow.as_slice()) {
            any_anyhow = true;
        }
        i = i + 1;
    }
    let result_kw = chars_of("Result<");
    if any_anyhow || contains(c, chars_of("anyhow::Result").as_slice()) {
        ErrorHandlingStyle::AnyhowResult
    } else if contains(c, result_kw.as_slice()) && !contains(
        c,
        chars_of("std::result::Result").as_slice(),
    ) {
        ErrorHandlingStyle::CustomResult
    } else if contains(c, result_kw.as_slice()) {
        ErrorHandlingStyle::StdResult
    } else if contains(c, chars_of("Option<").as_slice()) {
        ErrorHandlingStyle::OptionBased
    } else if contains(c, chars_of("panic!").as_slice()) || contains(
        c,
        chars_of(".unwrap()").as_slice(),
    ) {
        ErrorHandlingStyle::Panic
    } else {
        ErrorHandlingStyle::Unknown
    }
}

/// The trait implementation that the line `line` is in: the last `impl .. for ..` line before
/// it, trimmed.
pub fn detect_trait_impl(content: &str, line: usize) -> (r: Option<String>)
    ensures
        opt_chars(r) == trait_impl_of(content@, line as int),
{
    let ls = lines(chars_of(content).as_slice());
    let ghost all = views(ls@);
    let impl_kw = chars_of("impl");
    let for_kw = chars_of("for");
    let mut k: usize = if line < ls.len() {
        line
    } else {
        ls.len()
    };
    while k > 0
        invariant
            k <= ls.len(),
            all == views(ls@),
            all == lines_of(content@),
            impl_kw@ == "impl"@,
            for_kw@ == "for"@,
            impl_line_before(all, if line < all.len() {
                line as int
            } else {
                all.len() as int
            }) == impl_line_before(all, k as int),
        decreases k,
    {
        let l = ls[k - 1].as_slice();
        assert(all[k - 1] == l@);
        if contains(l, impl_kw.as_slice()) && contains(l, for_kw.as_slice()) {
            return Some(string_of(trimmed(l).as_slice()));
        }
        k = k - 1;
    }
    None
}

/// Extract code context around a violation line
pub fn extract_code_context(line_number: usize, content: &str) -> (r: CodeContext)
    requires
        window_ok(line_number as int, content@),
    ensures
        r@ == code_context(line_number as int, content@),
{
    let ls = lines(chars_of(content).as_slice());
    let context_start = if line_number >= 10 {
        line_number - 10
    } else {
        0
    };
    let context_end = if line_number + 10 < ls.len() {
        line_number + 10
    } else {
        ls.len()
    };
    let mut surrounding: Vec<Vec<char>> = Vec::new();
    let mut i = context_start;
    while i < context_end
        invariant
            context_start <= i <= context_end <= ls.len(),
            views(surrounding@) == views(ls@).subrange(context_start as int, i as int),
        decreases context_end - i,
    {
        let ghost before = views(surrounding@);
        surrounding.push(slice_copy(ls[i].as_slice(), 0, ls[i].len()));
        assert(ls@[i as int]@.subrange(0, ls@[i as int]@.len() as int) =~= ls@[i as int]@);
        assert(views(surrounding@) =~= before.push(ls@[i as int]@));
        assert(views(ls@).subrange(context_start as int, i + 1) =~= views(ls@).subrange(
            context_start as int,
            i as int,
        ).push(ls@[i as int]@));
        i = i + 1;
    }
    let surrounding_code = strings_of(surrounding.as_slice());
    let imports = imports_of_lines(ls.as_slice());
    let (function_name, function_signature, return_type) = extract_function_info(
        ls.as_slice(),
        line_number,
    );
    let is_async = match &function_signature {
        Some(s) => contains(chars_of(s.as_str()).as_slice(), chars_of("async").as_slice()),
        None => false,
    };
    let is_generic = match &function_signature {
        Some(s) => contains(chars_of(s.as_str()).as_slice(), chars_of("<").as_slice()),
        None => false,
    };
    let trait_impl = detect_trait_impl(content, line_number);
    let error_handling_style = detect_error_handling_style(imports.as_slice(), content);
    CodeContext {
        function_name,
        function_signature,
        return_type,
        is_async,
        is_generic,
        trait_impl,
        surrounding_code,
        imports,
        error_handling_style,
    }
}

} // verus!
