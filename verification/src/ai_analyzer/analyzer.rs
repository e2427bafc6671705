//! The analyzer: one violation at a time, then the report over all of them, and the
//! instructions handed to an orchestrating agent.

use vstd::prelude::*;
use crate::ai_analyzer::context::{code_context, extract_code_context, window_ok};
use crate::ai_analyzer::semantic::{
    assess_fix_complexity, complexity, perform_semantic_analysis, returns_result, semantic_of,
    windows_ok,
};
use crate::ai_analyzer::strategies::{
    generate_ai_instructions, generate_fix_strategies, instructions_for, strategies_for,
};
use crate::ai_analyzer::types::{
    AIAnalysisReport, AIInstructions, AnalysisDepth, AnalysisMetadata, CodeContext,
    CodeContextView, CodePatterns, ErrorHandlingStyle, FixComplexity, SemanticAnalysis,
    SemanticView, ViolationAnalysis,
};
use crate::error::{Error, ErrorKind};
use crate::text::{append_str, chars_of, contains, lines, lines_of, opt_str, strs, text};
use crate::violation::{is_locked_type, Violation, ViolationType};

verus! {

/// What the analysis of `v` is, given the content of its file as read (`None` where it could
/// not be read): a locked setting's analysis needs no content, any other is made from it.
pub open spec fn analysis_for(a: ViolationAnalysis, v: Violation, content: Option<String>) -> bool {
    if is_locked_type(v.violation_type) {
        is_locked_analysis(a, v)
    } else {
        content matches Some(c) && is_content_analysis(a, v, c@)
    }
}

/// The violation at `i` needs its source, and its file could not be read.
pub open spec fn unreadable_at(vs: Seq<Violation>, contents: Seq<Option<String>>, i: int) -> bool {
    0 <= i < vs.len() && !is_locked_type(vs[i].violation_type) && contents[i] is None
}

/// The message of the error for a source file that could not be read.
pub open spec fn unreadable_message(file: Seq<char>) -> Seq<char> {
    "Failed to read source file: "@ + file
}

/// Each violation that needs its source can be analysed with the content read for it.
pub open spec fn contents_analyzable(vs: Seq<Violation>, contents: Seq<Option<String>>) -> bool {
    forall|i: int|
        0 <= i < vs.len() && !is_locked_type(vs[i].violation_type) && contents[i] is Some
            ==> analyzable_at(vs[i], (#[trigger] contents[i])->0@)
}

/// Whether a violation can be analysed with the given content of its file: a locked setting
/// always can; any other needs the windows of lines around its line to start within the file.
pub fn can_analyze(violation: &Violation, content: &str) -> (r: bool)
    ensures
        r == (!is_locked_type(violation.violation_type) ==> analyzable_at(*violation, content@)),
{
    if violation.is_locked_setting() {
        return true;
    }
    let n = lines(chars_of(content).as_slice()).len();
    let line = violation.line;
    if line > usize::MAX - 10 {
        return false;
    }
    let window_start = if line >= 10 {
        line - 10
    } else {
        0
    };
    let window_end = if line + 10 < n {
        line + 10
    } else {
        n
    };
    let idx = if line >= 1 {
        line - 1
    } else {
        0
    };
    let start5 = if idx >= 5 {
        idx - 5
    } else {
        0
    };
    let end5 = if idx + 5 < n {
        idx + 5
    } else {
        n
    };
    let start10 = if idx >= 10 {
        idx - 10
    } else {
        0
    };
    let end10 = if idx + 10 < n {
        idx + 10
    } else {
        n
    };
    window_start <= window_end && start5 <= end5 && start10 <= end10
}

/// AI analyzer for automated violation analysis
#[derive(Debug)]
pub struct AIAnalyzer {
    /// The root of the project analysed
    pub project_root: String,
}

/// Whether an agent may fix a violation of kind `t` of this complexity in this context, and
/// the confidence in percent.
pub open spec fn fixability(t: ViolationType, c: CodeContextView, cx: FixComplexity) -> (bool, u32) {
    match t {
        ViolationType::UnwrapInProduction => match cx {
            FixComplexity::Trivial => if returns_result(c) {
                (true, 95)
            } else {
                (true, 75)
            },
            FixComplexity::Simple => (true, 65),
            _ => (false, 0),
        },
        ViolationType::LineTooLong => (true, 100),
        ViolationType::UnderscoreBandaid => (true, 85),
        ViolationType::FunctionTooLarge => (false, 30),
        ViolationType::FileTooLarge => (false, 20),
        _ => (false, 0),
    }
}

/// How to fix a violation of kind `t` in this context.
pub open spec fn recommendation(t: ViolationType, c: CodeContextView) -> Option<Seq<char>> {
    match t {
        ViolationType::UnwrapInProduction => if returns_result(c) {
            Some("Replace ? with ? operator"@)
        } else {
            Some("Change function return type to Result and use ?"@)
        },
        ViolationType::LineTooLong => Some(
            "Break line at appropriate point (e.g., after comma, operator)"@,
        ),
        ViolationType::UnderscoreBandaid => Some(
            "Either use the parameter or remove it from function signature"@,
        ),
        _ => None,
    }
}

/// What else fixing a violation of kind `t` in this context would touch.
pub open spec fn side_effects(t: ViolationType, c: CodeContextView) -> Seq<Seq<char>> {
    match t {
        ViolationType::UnwrapInProduction => if !returns_result(c) {
            seq!["Function signature change required"@, "All callers must be updated"@]
        } else {
            seq![]
        },
        ViolationType::FunctionTooLarge => seq![
            "May require creating new helper functions"@,
            "Could affect function testing"@,
        ],
        _ => seq![],
    }
}

/// The guidance given for a locked setting.
pub open spec fn locked_guidance() -> Seq<char> {
    "DO NOT change edition or rust-version in Cargo.toml.\nThese are locked by .ferrous-forge/config.toml.\nThis violation requires human intervention — escalate to the project owner."@
}

/// The side effect named for a locked setting.
pub open spec fn locked_side_effect() -> Seq<char> {
    "Changing locked settings may break CI, team standards, and edition guarantees."@
}

/// The analysis of a violation of a locked setting: never fixable, with guidance to escalate.
pub open spec fn is_locked_analysis(a: ViolationAnalysis, v: Violation) -> bool {
    &&& a.violation == v
    &&& a.code_context@ == CodeContextView {
        function_name: None,
        function_signature: None,
        return_type: None,
        is_async: false,
        is_generic: false,
        trait_impl: None,
        surrounding_code: seq![],
        imports: seq![],
        error_handling_style: ErrorHandlingStyle::Unknown,
    }
    &&& a.semantic_analysis@ == SemanticView {
        actual_type: None,
        expected_type: None,
        data_flow: seq![],
        control_flow: seq![],
        dependencies: seq![],
        error_propagation: seq![],
    }
    &&& a.fix_complexity == FixComplexity::Architectural
    &&& !a.ai_fixable
    &&& opt_str(a.fix_recommendation) == Some(locked_guidance())
    &&& strs(a.side_effects@) == seq![locked_side_effect()]
    &&& a.confidence_percent == 0
}

/// The analysis of a violation in a file with `content`: the code context, the semantic
/// analysis, the complexity, whether an agent may fix it and with what confidence, the
/// recommendation (for a fixable one) and the side effects.
pub open spec fn is_content_analysis(a: ViolationAnalysis, v: Violation, content: Seq<char>) -> bool {
    let t = v.violation_type;
    let c = code_context(v.line as int, content);
    let s = semantic_of(t, v.line as int, c, content);
    let cx = complexity(t, c, s.dependencies);
    let (fixable, confidence) = fixability(t, c, cx);
    &&& a.violation == v
    &&& a.code_context@ == c
    &&& a.semantic_analysis@ == s
    &&& a.fix_complexity == cx
    &&& a.ai_fixable == fixable
    &&& a.confidence_percent == confidence
    &&& opt_str(a.fix_recommendation) == if fixable {
        recommendation(t, c)
    } else {
        None
    }
    &&& strs(a.side_effects@) == side_effects(t, c)
}

/// The source of the violation's file can be analysed around its line.
pub open spec fn analyzable_at(v: Violation, content: Seq<char>) -> bool {
    &&& window_ok(v.line as int, content)
    &&& windows_ok(
        if v.line >= 1 {
            v.line - 1
        } else {
            0
        },
        lines_of(content).len() as int,
    )
}

/// Whether the analysis of a violation reads its file: locked settings are answered without.
pub fn needs_source(violation: &Violation) -> (r: bool)
    ensures
        r == !is_locked_type(violation.violation_type),
{
    !violation.is_locked_setting()
}

/// Whether the return type in the context is a `Result`.
fn context_returns_result(context: &CodeContext) -> (r: bool)
    ensures
        r == returns_result(context@),
{
    match &context.return_type {
        Some(t) => contains(chars_of(t.as_str()).as_slice(), chars_of("Result").as_slice()),
        None => false,
    }
}

impl AIAnalyzer {
    /// Create a new AI analyzer
    pub fn new(project_root: String) -> (r: Self)
        ensures
            r.project_root@ == project_root@,
    {
        AIAnalyzer { project_root }
    }

    /// Whether an agent may fix the violation, and the confidence in percent.
    pub fn assess_fixability(
        &self,
        violation: &Violation,
        context: &CodeContext,
        semantic: &SemanticAnalysis,
        complexity: &FixComplexity,
    ) -> (r: (bool, u32))
        ensures
            r == fixability(violation.violation_type, context@, *complexity),
    {
        match violation.violation_type {
            ViolationType::UnwrapInProduction => match complexity {
                FixComplexity::Trivial => {
                    if context_returns_result(context) {
                        (true, 95)
                    } else {
                        (true, 75)
                    }
                },
                FixComplexity::Simple => (true, 65),
                _ => (false, 0),
            },
            ViolationType::LineTooLong => (true, 100),
            ViolationType::UnderscoreBandaid => (true, 85),
            ViolationType::FunctionTooLarge => (false, 30),
            ViolationType::FileTooLarge => (false, 20),
            _ => (false, 0),
        }
    }

    /// How to fix the violation.
    pub fn generate_fix_recommendation(
        &self,
        violation: &Violation,
        context: &CodeContext,
        semantic: &SemanticAnalysis,
    ) -> (r: Option<String>)
        ensures
            opt_str(r) == recommendation(violation.violation_type, context@),
    {
        match violation.violation_type {
            ViolationType::UnwrapInProduction => {
                if context_returns_result(context) {
                    Some(text("Replace ? with ? operator"))
                } else {
                    Some(text("Change function return type to Result and use ?"))
                }
            },
            ViolationType::LineTooLong => Some(
                text("Break line at appropriate point (e.g., after comma, operator)"),
            ),
            ViolationType::UnderscoreBandaid => Some(
                text("Either use the parameter or remove it from function signature"),
            ),
            _ => None,
        }
    }

    /// What else fixing the violation would touch.
    pub fn identify_side_effects(&self, violation: &Violation, context: &CodeContext) -> (r: Vec<
        String,
    >)
        ensures
            strs(r@) == side_effects(violation.violation_type, context@),
    {
        let mut effects: Vec<String> = Vec::new();
        match violation.violation_type {
            ViolationType::UnwrapInProduction => {
                if !context_returns_result(context) {
                    effects.push(text("Function signature change required"));
                    effects.push(text("All callers must be updated"));
                }
            },
            ViolationType::FunctionTooLarge => {
                effects.push(text("May require creating new helper functions"));
                effects.push(text("Could affect function testing"));
            },
            _ => {},
        }
        assert(strs(effects@) =~= side_effects(violation.violation_type, context@));
        effects
    }

    /// The analysis of a violation of a locked setting (edition, rust-version).
    pub fn build_locked_analysis(&self, violation: &Violation) -> (r: ViolationAnalysis)
        ensures
            is_locked_analysis(r, *violation),
    {
        let surrounding_code: Vec<String> = Vec::new();
        let imports: Vec<String> = Vec::new();
        let data_flow: Vec<String> = Vec::new();
        let control_flow: Vec<String> = Vec::new();
        let dependencies: Vec<String> = Vec::new();
        let error_propagation: Vec<String> = Vec::new();
        let side_effects = vec![
            text(
                "Changing locked settings may break CI, team standards, and edition guarantees.",
            ),
        ];
        let r = ViolationAnalysis {
            violation: violation.clone(),
            code_context: CodeContext {
                function_name: None,
                function_signature: None,
                return_type: None,
                is_async: false,
                is_generic: false,
                trait_impl: None,
                surrounding_code,
                imports,
                error_handling_style: ErrorHandlingStyle::Unknown,
            },
            semantic_analysis: SemanticAnalysis {
                actual_type: None,
                expected_type: None,
                data_flow,
                control_flow,
                dependencies,
                error_propagation,
            },
            fix_complexity: FixComplexity::Architectural,
            ai_fixable: false,
            fix_recommendation: Some(
                text(
                    "DO NOT change edition or rust-version in Cargo.toml.\nThese are locked by .ferrous-forge/config.toml.\nThis violation requires human intervention — escalate to the project owner.",
                ),
            ),
            side_effects,
            confidence_percent: 0,
        };
        assert(strs(r.code_context.surrounding_code@) =~= Seq::<Seq<char>>::empty());
        assert(strs(r.code_context.imports@) =~= Seq::<Seq<char>>::empty());
        assert(strs(r.semantic_analysis.data_flow@) =~= Seq::<Seq<char>>::empty());
        assert(strs(r.semantic_analysis.control_flow@) =~= Seq::<Seq<char>>::empty());
        assert(strs(r.semantic_analysis.dependencies@) =~= Seq::<Seq<char>>::empty());
        assert(strs(r.semantic_analysis.error_propagation@) =~= Seq::<Seq<char>>::empty());
        assert(r.code_context@ == CodeContextView {
            function_name: None,
            function_signature: None,
            return_type: None,
            is_async: false,
            is_generic: false,
            trait_impl: None,
            surrounding_code: seq![],
            imports: seq![],
            error_handling_style: ErrorHandlingStyle::Unknown,
        });
        assert(r.semantic_analysis@ == SemanticView {
            actual_type: None,
            expected_type: None,
            data_flow: seq![],
            control_flow: seq![],
            dependencies: seq![],
            error_propagation: seq![],
        });
        assert(strs(r.side_effects@) =~= seq![locked_side_effect()]);
        r
    }

    /// Analyze one violation, given the content of its file (which a locked setting does not
    /// need).
    pub fn analyze_single_violation(&self, violation: &Violation, content: &str) -> (r:
        ViolationAnalysis)
        requires
            !is_locked_type(violation.violation_type) ==> analyzable_at(*violation, content@),
        ensures
            is_locked_type(violation.violation_type) ==> is_locked_analysis(r, *violation),
            !is_locked_type(violation.violation_type) ==> is_content_analysis(
                r,
                *violation,
                content@,
            ),
    {
        if violation.is_locked_setting() {
            return self.build_locked_analysis(violation);
        }
        let code_context = extract_code_context(violation.line, content);
        let semantic_analysis = perform_semantic_analysis(violation, &code_context, content);
        let fix_complexity = assess_fix_complexity(violation, &code_context, &semantic_analysis);
        let (ai_fixable, confidence_percent) = self.assess_fixability(
            violation,
            &code_context,
            &semantic_analysis,
            &fix_complexity,
        );
        let fix_recommendation = if ai_fixable {
            self.generate_fix_recommendation(violation, &code_context, &semantic_analysis)
        } else {
            None
        };
        let side_effects = self.identify_side_effects(violation, &code_context);
        ViolationAnalysis {
            violation: violation.clone(),
            code_context,
            semantic_analysis,
            fix_complexity,
            ai_fixable,
            fix_recommendation,
            side_effects,
            confidence_percent,
        }
    }

    /// The analyses of the violations, one for each and in order, given for each the content
    /// of its file as read (`None` where it could not be read). Fails, naming the file, at the
    /// first violation that needs its source and whose file could not be read.
    pub fn analyze_each_violation(&self, violations: &[Violation], contents: &[Option<String>]) -> (r:
        Result<Vec<ViolationAnalysis>, Error>)
        requires
            violations.len() == contents.len(),
            contents_analyzable(violations@, contents@),
        ensures
            match r {
                Ok(a) => (forall|i: int| !unreadable_at(violations@, contents@, i)) && a.len()
                    == violations.len() && forall|i: int|
                    0 <= i < violations.len() ==> analysis_for(
                        #[trigger] a@[i],
                        violations@[i],
                        contents@[i],
                    ),
                Err(e) => exists|i: int|
                    #![trigger unreadable_at(violations@, contents@, i)]
                    unreadable_at(violations@, contents@, i) && (forall|j: int|
                        0 <= j < i ==> !unreadable_at(violations@, contents@, j)) && e@ == (
                        ErrorKind::Validation,
                        unreadable_message(violations@[i].file@),
                    ),
            },
    {
        let mut analyses: Vec<ViolationAnalysis> = Vec::new();
        let mut i: usize = 0;
        while i < violations.len()
            invariant
                i <= violations.len(),
                violations.len() == contents.len(),
                contents_analyzable(violations@, contents@),
                analyses.len() == i,
                forall|j: int| 0 <= j < i ==> !unreadable_at(violations@, contents@, j),
                forall|j: int|
                    0 <= j < i ==> analysis_for(
                        #[trigger] analyses@[j],
                        violations@[j],
                        contents@[j],
                    ),
            decreases violations.len() - i,
        {
            let v = &violations[i];
            if v.is_locked_setting() {
                analyses.push(self.analyze_single_violation(v, ""));
            } else {
                match &contents[i] {
                    Some(c) => {
                        assert(contents@[i as int] is Some);
                        analyses.push(self.analyze_single_violation(v, c.as_str()));
                    },
                    None => {
                        let mut message = text("Failed to read source file: ");
                        append_str(&mut message, v.file.as_str());
                        assert(unreadable_at(violations@, contents@, i as int));
                        return Err(Error::validation(message));
                    },
                }
            }
            i = i + 1;
        }
        assert forall|k: int| !unreadable_at(violations@, contents@, k) by {
            if 0 <= k < violations.len() {
            }
        }
        Ok(analyses)
    }

    /// Analyze violations and generate the report, given for each violation the content of its
    /// file as read (`None` where it could not be read) and the patterns of the project's code.
    /// Fails, naming the file, at the first violation that needs its source and whose file
    /// could not be read; otherwise the report holds one analysis per violation, in order.
    pub fn analyze_violations(
        &self,
        violations: &[Violation],
        contents: &[Option<String>],
        code_patterns: CodePatterns,
    ) -> (r: Result<AIAnalysisReport, Error>)
        requires
            violations.len() == contents.len(),
            contents_analyzable(violations@, contents@),
        ensures
            match r {
                Ok(rep) => (forall|i: int| !unreadable_at(violations@, contents@, i))
                    && rep.metadata.total_violations == violations.len()
                    && rep.violation_analyses.len() == violations.len() && (forall|i: int|
                    0 <= i < violations.len() ==> analysis_for(
                        #[trigger] rep.violation_analyses@[i],
                        violations@[i],
                        contents@[i],
                    )) && rep.metadata.analyzable_violations == rep.violation_analyses@.filter(
                    |a: ViolationAnalysis| a.ai_fixable,
                ).len() && rep.metadata.project_path@ == self.project_root@
                    && rep.metadata.analysis_depth == AnalysisDepth::Semantic
                    && rep.code_patterns == code_patterns && strategies_for(
                    rep.violation_analyses@,
                    rep.fix_strategies@.map_values(
                        |s: crate::ai_analyzer::types::FixStrategy| s@,
                    ),
                ) && rep.ai_instructions@ == instructions_for(rep.violation_analyses@),
                Err(e) => exists|i: int|
                    #![trigger unreadable_at(violations@, contents@, i)]
                    unreadable_at(violations@, contents@, i) && (forall|j: int|
                        0 <= j < i ==> !unreadable_at(violations@, contents@, j)) && e@ == (
                        ErrorKind::Validation,
                        unreadable_message(violations@[i].file@),
                    ),
            },
    {
        let analyses = self.analyze_each_violation(violations, contents)?;
        Ok(self.build_report(violations.len(), analyses, code_patterns))
    }

    /// The report over the analysed violations: `total_violations` were found, `analyses`
    /// holds the analyses that could be made, and `code_patterns` the patterns of the
    /// project's code.
    pub fn build_report(
        &self,
        total_violations: usize,
        analyses: Vec<ViolationAnalysis>,
        code_patterns: CodePatterns,
    ) -> (r: AIAnalysisReport)
        ensures
            r.metadata.total_violations == total_violations,
            r.metadata.analyzable_violations == analyses@.filter(
                |a: ViolationAnalysis| a.ai_fixable,
            ).len(),
            r.metadata.project_path@ == self.project_root@,
            r.metadata.analysis_depth == AnalysisDepth::Semantic,
            r.violation_analyses@ == analyses@,
            r.code_patterns == code_patterns,
            strategies_for(analyses@, r.fix_strategies@.map_values(|s: crate::ai_analyzer::types::FixStrategy| s@)),
            r.ai_instructions@ == instructions_for(analyses@),
    {
        let ghost fx = |a: ViolationAnalysis| a.ai_fixable;
        let mut analyzable_count: usize = 0;
        let mut i: usize = 0;
        while i < analyses.len()
            invariant
                i <= analyses.len(),
                fx == (|a: ViolationAnalysis| a.ai_fixable),
                analyzable_count == analyses@.take(i as int).filter(fx).len(),
                analyzable_count <= i,
            decreases analyses.len() - i,
        {
            proof {
                reveal(Seq::filter);
                assert(analyses@.take(i + 1).drop_last() =~= analyses@.take(i as int));
            }
            if analyses[i].ai_fixable {
                analyzable_count = analyzable_count + 1;
            }
            i = i + 1;
        }
        assert(analyses@.take(analyses.len() as int) =~= analyses@);
        let fix_strategies = generate_fix_strategies(analyses.as_slice());
        let ai_instructions = generate_ai_instructions(analyses.as_slice(), fix_strategies.as_slice());
        let metadata = AnalysisMetadata {
            total_violations,
            analyzable_violations: analyzable_count,
            project_path: self.project_root.clone(),
            analysis_depth: AnalysisDepth::Semantic,
        };
        AIAnalysisReport {
            metadata,
            violation_analyses: analyses,
            code_patterns,
            fix_strategies,
            ai_instructions,
        }
    }
}

/// The setting that a locked violation concerns.
pub open spec fn locked_setting_name(t: ViolationType) -> Seq<char> {
    match t {
        ViolationType::WrongEdition => "edition"@,
        ViolationType::OldRustVersion => "rust-version"@,
        _ => "locked setting"@,
    }
}

/// The table rows for the locked violations among the first `k` analyses.
pub open spec fn locked_rows(analyses: Seq<ViolationAnalysis>, k: int) -> Seq<char>
    decreases k,
{
    if k <= 0 {
        seq![]
    } else {
        let v = analyses[k - 1].violation;
        let rest = locked_rows(analyses, k - 1);
        if is_locked_type(v.violation_type) {
            rest + "| "@ + locked_setting_name(v.violation_type) + " | "@ + v.file@
                + " | .ferrous-forge/config.toml |\n"@
        } else {
            rest
        }
    }
}

/// The items of a list, each on a line of its own after `- `.
pub open spec fn bullets(items: Seq<Seq<char>>) -> Seq<char>
    decreases items.len(),
{
    if items.len() == 0 {
        seq![]
    } else {
        bullets(items.drop_last()) + "- "@ + items.last() + "\n"@
    }
}

/// The section on locked settings: empty when there are none.
pub open spec fn locked_section(analyses: Seq<ViolationAnalysis>) -> Seq<char> {
    if exists|i: int| 0 <= i < analyses.len() && is_locked_type(#[trigger] analyses[i].violation.violation_type) {
        "## Locked Settings (DO NOT MODIFY)\n\n"@
            + "The following are locked by Ferrous Forge project configuration.\nDO NOT change these to resolve compilation errors — escalate to human.\n\n"@
            + "| Setting | Violation | Config |\n"@ + "|---------|-----------|--------|\n"@
            + locked_rows(analyses, analyses.len() as int)
            + "\n**AI Agent Rule**: `ai_fixable = false`, `confidence = 0%` for all locked violations above.\n\n"@
    } else {
        seq![]
    }
}

/// The orchestrator instructions for a report: the locked settings first, then the summary,
/// the prioritized fixes and the architectural recommendations.
pub open spec fn orchestrator_text(
    analyses: Seq<ViolationAnalysis>,
    instructions: crate::ai_analyzer::types::InstructionsView,
) -> Seq<char> {
    "# AI Orchestrator Instructions\n\n"@ + locked_section(analyses) + "## Summary\n"@
        + instructions.summary + "\n\n"@ + "## Prioritized Fixes\n"@ + bullets(
        instructions.prioritized_fixes,
    ) + "\n## Architectural Recommendations\n"@ + bullets(
        instructions.architectural_recommendations,
    )
}

/// Appends each item on a line of its own after `- `.
fn push_bullets(out: &mut String, items: &Vec<String>)
    ensures
        final(out)@ == old(out)@ + bullets(strs(items@)),
{
    let mut i: usize = 0;
    while i < items.len()
        invariant
            i <= items.len(),
            out@ == old(out)@ + bullets(strs(items@).take(i as int)),
        decreases items.len() - i,
    {
        append_str(out, "- ");
        append_str(out, items[i].as_str());
        append_str(out, "\n");
        proof {
            let t = strs(items@).take(i + 1);
            assert(t.drop_last() =~= strs(items@).take(i as int));
            assert(t.last() == items@[i as int]@);
        }
        assert(out@ =~= old(out)@ + bullets(strs(items@).take(i + 1)));
        i = i + 1;
    }
    assert(strs(items@).take(items.len() as int) =~= strs(items@));
}

/// The text of the orchestrator instructions for a report.
pub fn orchestrator_instructions(report: &AIAnalysisReport) -> (r: String)
    ensures
        r@ == orchestrator_text(report.violation_analyses@, report.ai_instructions@),
{
    let analyses = &report.violation_analyses;
    let mut instructions = text("# AI Orchestrator Instructions\n\n");
    let mut rows = String::new();
    let mut any_locked = false;
    let mut i: usize = 0;
    while i < analyses.len()
        invariant
            i <= analyses.len(),
            rows@ == locked_rows(analyses@, i as int),
            any_locked == exists|j: int|
                0 <= j < i && is_locked_type(#[trigger] analyses@[j].violation.violation_type),
        decreases analyses.len() - i,
    {
        let v = &analyses[i].violation;
        if v.is_locked_setting() {
            any_locked = true;
            let setting = match v.violation_type {
                ViolationType::WrongEdition => "edition",
                ViolationType::OldRustVersion => "rust-version",
                _ => "locked setting",
            };
            assert(setting@ == locked_setting_name(v.violation_type));
            append_str(&mut rows, "| ");
            append_str(&mut rows, setting);
            append_str(&mut rows, " | ");
            append_str(&mut rows, v.file.as_str());
            append_str(&mut rows, " | .ferrous-forge/config.toml |\n");
        }
        i = i + 1;
    }
    if any_locked {
        append_str(&mut instructions, "## Locked Settings (DO NOT MODIFY)\n\n");
        append_str(
            &mut instructions,
            "The following are locked by Ferrous Forge project configuration.\nDO NOT change these to resolve compilation errors — escalate to human.\n\n",
        );
        append_str(&mut instructions, "| Setting | Violation | Config |\n");
        append_str(&mut instructions, "|---------|-----------|--------|\n");
        append_str(&mut instructions, rows.as_str());
        append_str(
            &mut instructions,
            "\n**AI Agent Rule**: `ai_fixable = false`, `confidence = 0%` for all locked violations above.\n\n",
        );
    }
    append_str(&mut instructions, "## Summary\n");
    append_str(&mut instructions, report.ai_instructions.summary.as_str());
    append_str(&mut instructions, "\n\n");
    append_str(&mut instructions, "## Prioritized Fixes\n");
    push_bullets(&mut instructions, &report.ai_instructions.prioritized_fixes);
    append_str(&mut instructions, "\n## Architectural Recommendations\n");
    push_bullets(&mut instructions, &report.ai_instructions.architectural_recommendations);
    assert(instructions@ =~= orchestrator_text(report.violation_analyses@, report.ai_instructions@));
    instructions
}

/// Law: the confidence in a fix is a percentage, and a violation is never declared fixable by
/// an agent without some confidence.
pub proof fn law_confidence_is_a_percentage(t: ViolationType, c: CodeContextView, cx: FixComplexity)
    ensures
        fixability(t, c, cx).1 <= 100,
        fixability(t, c, cx).0 ==> fixability(t, c, cx).1 > 0,
{
}

/// Law: locked settings (edition, rust-version) are never fixable by an agent, whatever the
/// code around them, and their analysis says so with no confidence at all.
pub proof fn law_locked_settings_never_fixable(
    t: ViolationType,
    c: CodeContextView,
    cx: FixComplexity,
    a: ViolationAnalysis,
    v: Violation,
)
    requires
        is_locked_type(t),
    ensures
        fixability(t, c, cx) == (false, 0u32),
        is_locked_analysis(a, v) ==> !a.ai_fixable && a.confidence_percent == 0 && a.fix_complexity
            == FixComplexity::Architectural,
{
}

/// Law: the fixability of a violation by an agent depends on its kind alone, whatever its
/// context and complexity, except for `.unwrap()` violations: underscore violations are
/// fixable with 85% confidence, long lines with 100%; large functions (30%) and large files
/// (20%) are not fixable; an `.unwrap()` is fixable exactly when its fix is trivial or simple.
pub proof fn law_fixability_by_kind(c: CodeContextView, cx: FixComplexity)
    ensures
        fixability(ViolationType::UnderscoreBandaid, c, cx) == (true, 85u32),
        fixability(ViolationType::LineTooLong, c, cx) == (true, 100u32),
        fixability(ViolationType::FunctionTooLarge, c, cx) == (false, 30u32),
        fixability(ViolationType::FileTooLarge, c, cx) == (false, 20u32),
        fixability(ViolationType::UnwrapInProduction, c, cx).0 <==> (cx == FixComplexity::Trivial
            || cx == FixComplexity::Simple),
{
}

/// Law: the analysis of an underscore violation, made from its file's content, declares it
/// fixable by an agent with 85% confidence and recommends using or removing the parameter.
pub proof fn law_underscore_analysis(a: ViolationAnalysis, v: Violation, content: Seq<char>)
    requires
        v.violation_type == ViolationType::UnderscoreBandaid,
        is_content_analysis(a, v, content),
    ensures
        a.ai_fixable,
        a.confidence_percent == 85,
        opt_str(a.fix_recommendation) == Some(
            "Either use the parameter or remove it from function signature"@,
        ),
{
}

} // verus!
