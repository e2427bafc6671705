//! The validate command: counting violations by kind, fix suggestions and instructions for
//! the AI compliance report, and the name of the lock that keeps two validations of a project
//! apart.

use vstd::prelude::*;
use sha2::Digest;
use crate::ai_analyzer::strategies::{kind_count, kinds_in_order, tally_kinds};
use crate::text::{
    append_str, chars_of, decimal, lines, lines_of, same_chars, slice_copy, string_of, text,
    usize_to_string,
};
use crate::violation::{is_locked_type, kind_name, Violation, ViolationType};

verus! {

/// The kinds of the violations, in order.
pub open spec fn types_of(vs: Seq<Violation>) -> Seq<ViolationType> {
    vs.map_values(|v: Violation| v.violation_type)
}

/// The kinds of the violations in a list.
fn types_in(violations: &[Violation]) -> (r: Vec<ViolationType>)
    ensures
        r@ == types_of(violations@),
{
    let mut types: Vec<ViolationType> = Vec::new();
    let mut i: usize = 0;
    while i < violations.len()
        invariant
            i <= violations.len(),
            types@ == types_of(violations@).take(i as int),
        decreases violations.len() - i,
    {
        types.push(violations[i].violation_type);
        assert(types@ =~= types_of(violations@).take(i + 1));
        i = i + 1;
    }
    assert(types_of(violations@).take(violations.len() as int) =~= types_of(violations@));
    types
}

/// Count violations by type: one entry per kind, named as `{:?}` prints it, in the order the
/// kinds first appear.
pub fn count_violations_by_type(violations: &[Violation]) -> (r: Vec<(String, usize)>)
    ensures
        r.len() == kinds_in_order(types_of(violations@)).len(),
        forall|j: int|
            0 <= j < r.len() ==> (#[trigger] r@[j]).0@ == kind_name(
                kinds_in_order(types_of(violations@))[j],
            ) && r@[j].1 == kind_count(
                types_of(violations@),
                kinds_in_order(types_of(violations@))[j],
            ),
{
    let types = types_in(violations);
    let (kinds, counts) = tally_kinds(types.as_slice());
    let mut r: Vec<(String, usize)> = Vec::new();
    let mut k: usize = 0;
    while k < kinds.len()
        invariant
            k <= kinds.len(),
            kinds.len() == counts.len(),
            types@ == types_of(violations@),
            kinds@ == kinds_in_order(types@),
            forall|j: int| 0 <= j < counts.len() ==> #[trigger] counts@[j] == kind_count(types@, kinds@[j]),
            r.len() == k,
            forall|j: int|
                0 <= j < k ==> (#[trigger] r@[j]).0@ == kind_name(kinds@[j]) && r@[j].1
                    == counts@[j],
        decreases kinds.len() - k,
    {
        r.push((kinds[k].name(), counts[k]));
        k = k + 1;
    }
    r
}

/// The suggested fix for a kind of violation, whether it can be fixed automatically, and its
/// priority (1 is the most urgent).
pub open spec fn fix_suggestion(t: ViolationType) -> (Seq<char>, bool, u8) {
    match t {
        ViolationType::UnderscoreBandaid => (
            "Remove unused parameter or implement missing functionality"@,
            true,
            2,
        ),
        ViolationType::UnwrapInProduction => (
            "Replace `.unwrap()` with `?` or proper error handling"@,
            true,
            1,
        ),
        ViolationType::FileTooLarge => (
            "Split file into smaller modules following single responsibility principle"@,
            false,
            3,
        ),
        ViolationType::FunctionTooLarge => (
            "Extract helper functions or split into smaller, focused functions"@,
            false,
            3,
        ),
        _ => ("Review and fix according to Ferrous Forge standards"@, false, 4),
    }
}

/// The suggested fix for a kind of violation, whether it is auto-fixable, and its priority.
pub fn get_fix_suggestion(violation_type: &ViolationType, message: &str) -> (r: (String, bool, u8))
    ensures
        (r.0@, r.1, r.2) == fix_suggestion(*violation_type),
{
    match violation_type {
        ViolationType::UnderscoreBandaid => (
            text("Remove unused parameter or implement missing functionality"),
            true,
            2,
        ),
        ViolationType::UnwrapInProduction => (
            text("Replace `.unwrap()` with `?` or proper error handling"),
            true,
            1,
        ),
        ViolationType::FileTooLarge => (
            text("Split file into smaller modules following single responsibility principle"),
            false,
            3,
        ),
        ViolationType::FunctionTooLarge => (
            text("Extract helper functions or split into smaller, focused functions"),
            false,
            3,
        ),
        _ => (text("Review and fix according to Ferrous Forge standards"), false, 4),
    }
}

/// The fix strategy, an example fix and the effort for a kind named as `{:?}` prints it.
pub open spec fn fix_strategy(vtype: Seq<char>) -> (Seq<char>, Seq<char>, Seq<char>) {
    if vtype == "UnderscoreBandaid"@ {
        (
            "1. Identify what functionality the parameter should provide\n2. Either implement the functionality or remove the parameter\n3. Update function signature and callers"@,
            "// Before: fn process(_unused: String, data: Data)\n// After: fn process(data: Data) or implement the unused parameter"@,
            "Moderate"@,
        )
    } else if vtype == "UnwrapInProduction"@ {
        (
            "1. Change function to return Result<T, Error>\n2. Replace unwrap with ?\n3. Handle errors at call sites"@,
            "// Before: value.unwrap()\n// After: value?"@,
            "Easy"@,
        )
    } else if vtype == "FileTooLarge"@ {
        (
            "1. Identify logical boundaries\n2. Extract modules\n3. Move related functions to new modules\n4. Update imports"@,
            "// Extract to separate modules like: \nvalidation/core.rs, validation/types.rs"@,
            "Hard"@,
        )
    } else {
        ("Review and fix manually"@, ""@, "Moderate"@)
    }
}

/// The fix strategy, an example fix and the effort for a kind named as `{:?}` prints it.
pub fn get_fix_strategy(vtype: &str) -> (r: (String, String, String))
    ensures
        (r.0@, r.1@, r.2@) == fix_strategy(vtype@),
{
    let v = chars_of(vtype);
    if same_chars(v.as_slice(), chars_of("UnderscoreBandaid").as_slice()) {
        (
            text(
                "1. Identify what functionality the parameter should provide\n2. Either implement the functionality or remove the parameter\n3. Update function signature and callers",
            ),
            text(
                "// Before: fn process(_unused: String, data: Data)\n// After: fn process(data: Data) or implement the unused parameter",
            ),
            text("Moderate"),
        )
    } else if same_chars(v.as_slice(), chars_of("UnwrapInProduction").as_slice()) {
        (
            text(
                "1. Change function to return Result<T, Error>\n2. Replace unwrap with ?\n3. Handle errors at call sites",
            ),
            text("// Before: value.unwrap()\n// After: value?"),
            text("Easy"),
        )
    } else if same_chars(v.as_slice(), chars_of("FileTooLarge").as_slice()) {
        (
            text(
                "1. Identify logical boundaries\n2. Extract modules\n3. Move related functions to new modules\n4. Update imports",
            ),
            text("// Extract to separate modules like: \nvalidation/core.rs, validation/types.rs"),
            text("Hard"),
        )
    } else {
        (text("Review and fix manually"), text(""), text("Moderate"))
    }
}

/// Metadata for AI compliance reports
#[derive(Debug)]
pub struct AIMetadata {
    /// ISO timestamp when report was generated
    pub timestamp: String,
    /// Path to the project being analyzed
    pub project_path: String,
    /// Version of Ferrous Forge used
    pub ferrous_forge_version: String,
    /// The number of violations found
    pub total_violations: usize,
    /// The version of the report format
    pub report_version: String,
}

/// A violation as the AI compliance report lists it.
#[derive(Debug)]
pub struct AIViolation {
    /// Its kind, as `{:?}` prints it
    pub violation_type: String,
    /// Its file
    pub file: String,
    /// Its line
    pub line: usize,
    /// What is wrong
    pub message: String,
    /// The line of code
    pub code_snippet: String,
    /// How to fix it
    pub suggested_fix: String,
    /// Whether it can be fixed automatically
    pub auto_fixable: bool,
    /// Its priority (1 is the most urgent)
    pub priority: u8,
}

/// Instructions for fixing the violations of one kind.
#[derive(Debug)]
pub struct FixInstruction {
    /// The kind, as `{:?}` prints it
    pub violation_type: String,
    /// How many violations of the kind were found
    pub count: usize,
    /// How to fix them
    pub fix_strategy: String,
    /// An example fix
    pub example_fix: String,
    /// The effort it takes
    pub effort_level: String,
}

/// Instructions for each kind counted: its name, count, strategy, example and effort, in the
/// order of the counts.
pub fn generate_fix_instructions(violation_counts: Vec<(String, usize)>) -> (r: Vec<FixInstruction>)
    ensures
        r.len() == violation_counts.len(),
        forall|j: int|
            0 <= j < r.len() ==> (#[trigger] r@[j]).violation_type@ == violation_counts@[j].0@
                && r@[j].count == violation_counts@[j].1 && (
                r@[j].fix_strategy@,
                r@[j].example_fix@,
                r@[j].effort_level@,
            ) == fix_strategy(violation_counts@[j].0@),
{
    let ghost all = violation_counts@;
    let mut counts = violation_counts;
    let mut fix_instructions: Vec<FixInstruction> = Vec::new();
    while counts.len() > 0
        invariant
            fix_instructions.len() + counts.len() == all.len(),
            forall|j: int| 0 <= j < counts.len() ==> counts@[j] == all[fix_instructions.len() + j],
            forall|j: int|
                0 <= j < fix_instructions.len() ==> (#[trigger] fix_instructions@[j]).violation_type@
                    == all[j].0@ && fix_instructions@[j].count == all[j].1 && (
                    fix_instructions@[j].fix_strategy@,
                    fix_instructions@[j].example_fix@,
                    fix_instructions@[j].effort_level@,
                ) == fix_strategy(all[j].0@),
        decreases counts.len(),
    {
        let (vtype, count) = counts.remove(0);
        let (strategy, example, effort) = get_fix_strategy(vtype.as_str());
        fix_instructions.push(
            FixInstruction {
                violation_type: vtype,
                count,
                fix_strategy: strategy,
                example_fix: example,
                effort_level: effort,
            },
        );
    }
    fix_instructions
}

/// The line `line` (counted from 1) of a file's contents, or a note that there is none.
pub open spec fn snippet_of(contents: Seq<char>, line: int) -> Seq<char> {
    let ls = lines_of(contents);
    if 0 < line <= ls.len() {
        ls[line - 1]
    } else {
        "Line not found"@
    }
}

/// Get the code at a line (counted from 1) of a file's contents
pub fn get_code_snippet(contents: &str, line: usize) -> (r: String)
    ensures
        r@ == snippet_of(contents@, line as int),
{
    let ls = lines(chars_of(contents).as_slice());
    if line > 0 && line <= ls.len() {
        string_of(ls[line - 1].as_slice())
    } else {
        text("Line not found")
    }
}

/// The report entry for a violation, with the code at its line.
pub fn create_ai_violation(violation: &Violation, code_snippet: String) -> (r: AIViolation)
    ensures
        r.violation_type@ == kind_name(violation.violation_type),
        r.file@ == violation.file@,
        r.line == violation.line,
        r.message@ == violation.message@,
        r.code_snippet@ == code_snippet@,
        (r.suggested_fix@, r.auto_fixable, r.priority) == fix_suggestion(violation.violation_type),
{
    let (suggested_fix, auto_fixable, priority) = get_fix_suggestion(
        &violation.violation_type,
        violation.message.as_str(),
    );
    AIViolation {
        violation_type: violation.violation_type.name(),
        file: violation.file.clone(),
        line: violation.line,
        message: violation.message.clone(),
        code_snippet,
        suggested_fix,
        auto_fixable,
        priority,
    }
}

/// The section of the markdown report on the instructions for one kind of violation.
pub open spec fn instruction_section(i: FixInstruction) -> Seq<char> {
    "### "@ + i.violation_type@ + " ("@ + decimal(i.count as nat) + " violations)\n\n"@
        + "**Strategy**: "@ + i.fix_strategy@ + "\n\n"@ + "**Example**:\n```\n"@ + i.example_fix@
        + "\n```\n\n"@
}

/// The sections of the markdown report on the instructions, in order.
pub open spec fn instruction_sections(is: Seq<FixInstruction>) -> Seq<char>
    decreases is.len(),
{
    if is.len() == 0 {
        seq![]
    } else {
        instruction_sections(is.drop_last()) + instruction_section(is.last())
    }
}

/// The fixed part of the markdown report between the figures and the instructions: the
/// priority order and the commands that produce the report.
pub open spec fn markdown_middle() -> Seq<char> {
    "## 🎯 Fix Priority Order\n\n"@ + "1. **UnwrapInProduction** - Critical for safety\n"@
        + "2. **UnderscoreBandaid** - Implement missing functionality\n"@
        + "3. **FunctionTooLarge** - Refactor for maintainability\n"@
        + "4. **FileTooLarge** - Split into modules\n\n"@ + "## 🔧 Automated Fix Commands\n\n"@
        + "```bash\n"@ + "# Generate this report\n"@ + "ferrous-forge validate . --ai-report\n\n"@
        + "# Use AI assistant with the JSON report to implement fixes\n"@
        + "# The JSON contains structured data for automated processing\n"@ + "```\n\n"@
}

/// The markdown report: its title, when and for which project it was made, how many
/// violations and what compliance were found, the fixed guidance, and a section per kind of
/// violation.
pub open spec fn markdown_report(
    metadata: AIMetadata,
    compliance: Seq<char>,
    is: Seq<FixInstruction>,
) -> Seq<char> {
    "# 🤖 AI-Friendly Compliance Report\n\n"@ + "**Generated**: "@ + metadata.timestamp@ + "\n"@
        + "**Project**: "@ + metadata.project_path@ + "\n"@ + "**Total Violations**: "@ + decimal(
        metadata.total_violations as nat,
    ) + "\n"@ + "**Compliance**: "@ + compliance + "%\n\n"@ + markdown_middle()
        + "## 📊 Violation Summary\n\n"@ + instruction_sections(is)
}

/// Generate a markdown-formatted report from the parts of an AI compliance report: its
/// metadata, its compliance percentage as text with one decimal (the caller formats the
/// number), and its fix instructions.
pub fn generate_markdown_report(
    metadata: &AIMetadata,
    compliance: &str,
    fix_instructions: &[FixInstruction],
) -> (r: String)
    ensures
        r@ == markdown_report(*metadata, compliance@, fix_instructions@),
{
    let mut md = text("# 🤖 AI-Friendly Compliance Report\n\n");
    append_str(&mut md, "**Generated**: ");
    append_str(&mut md, metadata.timestamp.as_str());
    append_str(&mut md, "\n");
    append_str(&mut md, "**Project**: ");
    append_str(&mut md, metadata.project_path.as_str());
    append_str(&mut md, "\n");
    append_str(&mut md, "**Total Violations**: ");
    let total = usize_to_string(metadata.total_violations);
    append_str(&mut md, total.as_str());
    append_str(&mut md, "\n");
    append_str(&mut md, "**Compliance**: ");
    append_str(&mut md, compliance);
    append_str(&mut md, "%\n\n");
    append_str(&mut md, "## 🎯 Fix Priority Order\n\n");
    append_str(&mut md, "1. **UnwrapInProduction** - Critical for safety\n");
    append_str(&mut md, "2. **UnderscoreBandaid** - Implement missing functionality\n");
    append_str(&mut md, "3. **FunctionTooLarge** - Refactor for maintainability\n");
    append_str(&mut md, "4. **FileTooLarge** - Split into modules\n\n");
    append_str(&mut md, "## 🔧 Automated Fix Commands\n\n");
    append_str(&mut md, "```bash\n");
    append_str(&mut md, "# Generate this report\n");
    append_str(&mut md, "ferrous-forge validate . --ai-report\n\n");
    append_str(&mut md, "# Use AI assistant with the JSON report to implement fixes\n");
    append_str(&mut md, "# The JSON contains structured data for automated processing\n");
    append_str(&mut md, "```\n\n");
    append_str(&mut md, "## 📊 Violation Summary\n\n");
    let ghost head = md@;
    let mut i: usize = 0;
    while i < fix_instructions.len()
        invariant
            i <= fix_instructions.len(),
            md@ == head + instruction_sections(fix_instructions@.take(i as int)),
        decreases fix_instructions.len() - i,
    {
        let instruction = &fix_instructions[i];
        append_str(&mut md, "### ");
        append_str(&mut md, instruction.violation_type.as_str());
        append_str(&mut md, " (");
        let count = usize_to_string(instruction.count);
        append_str(&mut md, count.as_str());
        append_str(&mut md, " violations)\n\n");
        append_str(&mut md, "**Strategy**: ");
        append_str(&mut md, instruction.fix_strategy.as_str());
        append_str(&mut md, "\n\n");
        append_str(&mut md, "**Example**:\n```\n");
        append_str(&mut md, instruction.example_fix.as_str());
        append_str(&mut md, "\n```\n\n");
        proof {
            let t = fix_instructions@.take(i + 1);
            assert(t.drop_last() =~= fix_instructions@.take(i as int));
            assert(t.last() == fix_instructions@[i as int]);
        }
        assert(md@ =~= head + instruction_sections(fix_instructions@.take(i + 1)));
        i = i + 1;
    }
    assert(fix_instructions@.take(fix_instructions.len() as int) =~= fix_instructions@);
    assert(md@ =~= markdown_report(*metadata, compliance@, fix_instructions@));
    md
}

/// The violations of locked settings, in order: what `--locked-only` reports.
pub fn locked_violations(violations: &[Violation]) -> (r: Vec<Violation>)
    ensures
        r@ == violations@.filter(|v: Violation| is_locked_type(v.violation_type)),
{
    let ghost pred = |v: Violation| is_locked_type(v.violation_type);
    let mut r: Vec<Violation> = Vec::new();
    let mut i: usize = 0;
    while i < violations.len()
        invariant
            i <= violations.len(),
            pred == (|v: Violation| is_locked_type(v.violation_type)),
            r@ == violations@.take(i as int).filter(pred),
        decreases violations.len() - i,
    {
        proof {
            reveal(Seq::filter);
            assert(violations@.take(i + 1).drop_last() =~= violations@.take(i as int));
            assert(violations@.take(i + 1).last() == violations@[i as int]);
        }
        if violations[i].is_locked_setting() {
            r.push(violations[i].clone());
        }
        i = i + 1;
    }
    assert(violations@.take(violations.len() as int) =~= violations@);
    r
}

/// The SHA-256 digest of a byte sequence.
pub uninterp spec fn sha256(data: Seq<u8>) -> Seq<u8>;

/// `sha2::Sha256::digest` (the `Digest` trait: new hasher, update with the data, finalize),
/// copied out of its fixed-size array. The contract names the digest by `sha256` of the data
/// and states its length, 32 bytes, which the type of the output fixes.
#[verifier::external_body]
fn sha256_digest(data: &[u8]) -> (r: Vec<u8>)
    ensures
        r@ == sha256(data@),
        r@.len() == 32,
{
    sha2::Sha256::digest(data).to_vec()
}

/// The lower-case hexadecimal digit for a value below sixteen.
pub open spec fn hex_digit(n: u8) -> char {
    if n < 10 {
        ((48 + n) as u8) as char
    } else {
        ((87 + n) as u8) as char
    }
}

/// The lower-case hexadecimal rendering of the bytes, two digits per byte (as `{:x}` prints a
/// digest).
pub open spec fn hex_of(bytes: Seq<u8>) -> Seq<char>
    decreases bytes.len(),
{
    if bytes.len() == 0 {
        seq![]
    } else {
        hex_of(bytes.drop_last()) + seq![hex_digit(bytes.last() / 16), hex_digit(bytes.last() % 16)]
    }
}

/// The name of the lock file for validating the project at `path`: the first sixteen
/// hexadecimal digits of the SHA-256 of the path's UTF-8 bytes.
pub open spec fn lock_name(path: Seq<char>) -> Seq<char> {
    "ferrous-forge-"@ + hex_of(sha256(vstd::utf8::encode_utf8(path))).take(16) + ".lock"@
}

fn hex_char(n: u8) -> (c: char)
    requires
        n < 16,
    ensures
        c == hex_digit(n),
{
    if n < 10 {
        let b: u8 = 48 + n;
        b as char
    } else {
        let b: u8 = 87 + n;
        b as char
    }
}

/// The lower-case hexadecimal rendering of the bytes.
pub fn hex_string(bytes: &[u8]) -> (r: Vec<char>)
    ensures
        r@ == hex_of(bytes@),
{
    let mut r: Vec<char> = Vec::new();
    let mut i: usize = 0;
    while i < bytes.len()
        invariant
            i <= bytes.len(),
            r@ == hex_of(bytes@.take(i as int)),
        decreases bytes.len() - i,
    {
        let b = bytes[i];
        r.push(hex_char(b / 16));
        r.push(hex_char(b % 16));
        proof {
            assert(bytes@.take(i + 1).drop_last() =~= bytes@.take(i as int));
            assert(bytes@.take(i + 1).last() == b);
        }
        assert(r@ =~= hex_of(bytes@.take(i + 1)));
        i = i + 1;
    }
    assert(bytes@.take(bytes.len() as int) =~= bytes@);
    r
}

/// The name of the lock file for validating the project whose canonical path is `path`.
pub fn lock_file_name(path: &str) -> (r: String)
    ensures
        r@ == lock_name(path@),
{
    let digest = sha256_digest(path.as_bytes());
    let hex = hex_string(digest.as_slice());
    proof {
        lemma_hex_len(digest@);
    }
    let mut name: Vec<char> = chars_of("ferrous-forge-");
    let head = slice_copy(hex.as_slice(), 0, 16);
    crate::text::push_all(&mut name, head.as_slice());
    crate::text::push_all(&mut name, chars_of(".lock").as_slice());
    assert(head@ =~= hex@.take(16));
    string_of(name.as_slice())
}

proof fn lemma_hex_len(bytes: Seq<u8>)
    ensures
        hex_of(bytes).len() == 2 * bytes.len(),
    decreases bytes.len(),
{
    if bytes.len() > 0 {
        lemma_hex_len(bytes.drop_last());
    }
}

/// Law: the locked violations filtered out of a list are there exactly when the list has a
/// violation of a locked setting, so a development command is blocked (and `--locked-only`
/// fails) exactly then.
pub proof fn law_locked_filter_matches_any(vs: Seq<Violation>)
    ensures
        (vs.filter(|v: Violation| is_locked_type(v.violation_type)).len() > 0)
            == crate::cargo_intercept::any_locked(vs),
    decreases vs.len(),
{
    reveal(Seq::filter);
    let pred = |v: Violation| is_locked_type(v.violation_type);
    if vs.len() > 0 {
        law_locked_filter_matches_any(vs.drop_last());
        if crate::cargo_intercept::any_locked(vs.drop_last()) {
            let j = choose|j: int| 0 <= j < vs.drop_last().len() && is_locked_type(
                #[trigger] vs.drop_last()[j].violation_type,
            );
            assert(vs[j] == vs.drop_last()[j]);
        }
        if crate::cargo_intercept::any_locked(vs) {
            let j = choose|j: int| 0 <= j < vs.len() && is_locked_type(#[trigger] vs[j].violation_type);
            if j < vs.len() - 1 {
                assert(vs.drop_last()[j] == vs[j]);
            }
        }
        if pred(vs.last()) {
            assert(is_locked_type(vs[vs.len() - 1].violation_type));
        }
    }
}

} // verus!
