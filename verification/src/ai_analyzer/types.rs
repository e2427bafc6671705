//! The records of an analysis of violations: the code around each one, what it means, how
//! hard it is to fix, and the strategies and instructions drawn from all of them.

use vstd::prelude::*;
use crate::text::{opt_str, strs};
use crate::violation::{Violation, ViolationType};

verus! {

/// Main AI analysis report structure
#[derive(Debug)]
pub struct AIAnalysisReport {
    /// Analysis metadata
    pub metadata: AnalysisMetadata,
    /// Individual violation analyses
    pub violation_analyses: Vec<ViolationAnalysis>,
    /// Detected code patterns
    pub code_patterns: CodePatterns,
    /// Generated fix strategies
    pub fix_strategies: Vec<FixStrategy>,
    /// AI instructions for fixes
    pub ai_instructions: AIInstructions,
}

/// Metadata about AI analysis results
#[derive(Debug)]
pub struct AnalysisMetadata {
    /// Total violations found
    pub total_violations: usize,
    /// Violations that can be analyzed
    pub analyzable_violations: usize,
    /// Project path analyzed
    pub project_path: String,
    /// Depth of analysis performed
    pub analysis_depth: AnalysisDepth,
}

/// Depth level of AI analysis
#[derive(Debug, Clone, Copy, PartialEq, Eq, Structural)]
pub enum AnalysisDepth {
    /// Basic surface analysis
    Surface,
    /// Context-aware analysis
    Contextual,
    /// Semantic code analysis
    Semantic,
    /// Architectural level analysis
    Architectural,
}

/// The analysis of one violation.
#[derive(Debug)]
pub struct ViolationAnalysis {
    /// The violation analysed
    pub violation: Violation,
    /// The code around it
    pub code_context: CodeContext,
    /// What the code around it means
    pub semantic_analysis: SemanticAnalysis,
    /// How hard it is to fix
    pub fix_complexity: FixComplexity,
    /// Whether an automated agent may fix it
    pub ai_fixable: bool,
    /// How to fix it
    pub fix_recommendation: Option<String>,
    /// What else a fix would touch
    pub side_effects: Vec<String>,
    /// Confidence in a fix, in percent (0 to 100)
    pub confidence_percent: u32,
}

/// The code around a violation.
#[derive(Debug)]
pub struct CodeContext {
    /// The name of the enclosing function
    pub function_name: Option<String>,
    /// The signature line of the enclosing function
    pub function_signature: Option<String>,
    /// The return type written in that signature
    pub return_type: Option<String>,
    /// The signature mentions `async`
    pub is_async: bool,
    /// The signature has generic parameters
    pub is_generic: bool,
    /// The `impl .. for ..` line that the violation is in, if any
    pub trait_impl: Option<String>,
    /// The lines around the violation
    pub surrounding_code: Vec<String>,
    /// The `use` lines of the file
    pub imports: Vec<String>,
    /// The way the file handles errors
    pub error_handling_style: ErrorHandlingStyle,
}

/// The contents of a code context.
pub struct CodeContextView {
    pub function_name: Option<Seq<char>>,
    pub function_signature: Option<Seq<char>>,
    pub return_type: Option<Seq<char>>,
    pub is_async: bool,
    pub is_generic: bool,
    pub trait_impl: Option<Seq<char>>,
    pub surrounding_code: Seq<Seq<char>>,
    pub imports: Seq<Seq<char>>,
    pub error_handling_style: ErrorHandlingStyle,
}

impl View for CodeContext {
    type V = CodeContextView;

    open spec fn view(&self) -> CodeContextView {
        CodeContextView {
            function_name: opt_str(self.function_name),
            function_signature: opt_str(self.function_signature),
            return_type: opt_str(self.return_type),
            is_async: self.is_async,
            is_generic: self.is_generic,
            trait_impl: opt_str(self.trait_impl),
            surrounding_code: strs(self.surrounding_code@),
            imports: strs(self.imports@),
            error_handling_style: self.error_handling_style,
        }
    }
}

/// The way a file handles errors.
#[derive(Debug, Clone, Copy, PartialEq, Eq, Structural)]
pub enum ErrorHandlingStyle {
    /// `Result` from the standard library
    StdResult,
    /// A `Result` alias of the crate
    CustomResult,
    /// `Option`
    OptionBased,
    /// `anyhow::Result`
    AnyhowResult,
    /// Panics and unwraps
    Panic,
    /// None recognised
    Unknown,
}

/// What the code around a violation means.
#[derive(Debug)]
pub struct SemanticAnalysis {
    /// The type on the violation's line
    pub actual_type: Option<String>,
    /// The type a fix would work with
    pub expected_type: Option<String>,
    /// Where the variable of the line is used
    pub data_flow: Vec<String>,
    /// The control-flow statements nearby
    pub control_flow: Vec<String>,
    /// What a fix depends on
    pub dependencies: Vec<String>,
    /// The error-handling points nearby
    pub error_propagation: Vec<String>,
}

/// The contents of a semantic analysis.
pub struct SemanticView {
    pub actual_type: Option<Seq<char>>,
    pub expected_type: Option<Seq<char>>,
    pub data_flow: Seq<Seq<char>>,
    pub control_flow: Seq<Seq<char>>,
    pub dependencies: Seq<Seq<char>>,
    pub error_propagation: Seq<Seq<char>>,
}

impl View for SemanticAnalysis {
    type V = SemanticView;

    open spec fn view(&self) -> SemanticView {
        SemanticView {
            actual_type: opt_str(self.actual_type),
            expected_type: opt_str(self.expected_type),
            data_flow: strs(self.data_flow@),
            control_flow: strs(self.control_flow@),
            dependencies: strs(self.dependencies@),
            error_propagation: strs(self.error_propagation@),
        }
    }
}

/// How hard a violation is to fix.
#[derive(Debug, Clone, Copy, PartialEq, Eq, Structural)]
pub enum FixComplexity {
    /// A mechanical change
    Trivial,
    /// A local change
    Simple,
    /// A change with some reach
    Moderate,
    /// A restructuring
    Complex,
    /// A change of the design
    Architectural,
}

/// The patterns found in a project's code.
#[derive(Debug)]
pub struct CodePatterns {
    /// The overall structure
    pub architectural_style: ArchitecturalStyle,
    /// The error-handling habits found
    pub error_patterns: Vec<ErrorPattern>,
    /// The design patterns found
    pub common_patterns: Vec<Pattern>,
}

/// A design pattern and how often it occurs.
#[derive(Debug)]
pub struct Pattern {
    /// Its name
    pub name: String,
    /// How often it occurs
    pub occurrences: usize,
    /// Where it occurs
    pub locations: Vec<String>,
}

/// The contents of a pattern.
pub struct PatternView {
    pub name: Seq<char>,
    pub occurrences: usize,
    pub locations: Seq<Seq<char>>,
}

impl View for Pattern {
    type V = PatternView;

    open spec fn view(&self) -> PatternView {
        PatternView {
            name: self.name@,
            occurrences: self.occurrences,
            locations: strs(self.locations@),
        }
    }
}

/// The overall structure of a project.
#[derive(Debug, Clone, Copy, PartialEq, Eq, Structural)]
pub enum ArchitecturalStyle {
    /// One block
    Monolithic,
    /// Many modules
    Modular,
    /// Separate services
    Microservices,
    /// Asynchronous event handling
    EventDriven,
    /// Layers
    Layered,
    /// None recognised
    Unknown,
}

/// An error-handling habit.
#[derive(Debug, Clone, Copy, PartialEq, Eq, Structural)]
pub enum ErrorPattern {
    /// Results left unhandled
    UnhandledResult,
    /// `panic!`
    PanicUsage,
    /// `.unwrap()`
    UnwrapUsage,
    /// `.expect(..)`
    ExpectUsage,
    /// `let _ =`
    IgnoredError,
    /// `?`
    PropagatedError,
}

/// A strategy for fixing all violations of one kind.
#[derive(Debug)]
pub struct FixStrategy {
    /// The kind it fixes
    pub violation_type: ViolationType,
    /// Its name
    pub strategy_name: String,
    /// What it does
    pub description: String,
    /// The steps to take
    pub implementation_steps: Vec<String>,
    /// The effort it takes
    pub estimated_effort: String,
    /// The risk it carries
    pub risk_level: String,
}

/// The contents of a fix strategy.
pub struct StrategyView {
    pub violation_type: ViolationType,
    pub strategy_name: Seq<char>,
    pub description: Seq<char>,
    pub implementation_steps: Seq<Seq<char>>,
    pub estimated_effort: Seq<char>,
    pub risk_level: Seq<char>,
}

impl View for FixStrategy {
    type V = StrategyView;

    open spec fn view(&self) -> StrategyView {
        StrategyView {
            violation_type: self.violation_type,
            strategy_name: self.strategy_name@,
            description: self.description@,
            implementation_steps: strs(self.implementation_steps@),
            estimated_effort: self.estimated_effort@,
            risk_level: self.risk_level@,
        }
    }
}

/// Instructions for an automated agent that fixes violations.
#[derive(Debug)]
pub struct AIInstructions {
    /// What was found
    pub summary: String,
    /// The fixes to make, the easiest first
    pub prioritized_fixes: Vec<String>,
    /// Advice on the design
    pub architectural_recommendations: Vec<String>,
    /// Advice on the code
    pub code_quality_improvements: Vec<String>,
}

/// The contents of agent instructions.
pub struct InstructionsView {
    pub summary: Seq<char>,
    pub prioritized_fixes: Seq<Seq<char>>,
    pub architectural_recommendations: Seq<Seq<char>>,
    pub code_quality_improvements: Seq<Seq<char>>,
}

impl View for AIInstructions {
    type V = InstructionsView;

    open spec fn view(&self) -> InstructionsView {
        InstructionsView {
            summary: self.summary@,
            prioritized_fixes: strs(self.prioritized_fixes@),
            architectural_recommendations: strs(self.architectural_recommendations@),
            code_quality_improvements: strs(self.code_quality_improvements@),
        }
    }
}

/// A prompt describing one violation to an automated agent.
#[derive(Debug)]
pub struct ViolationPrompt {
    /// The violation in a sentence
    pub violation_summary: String,
    /// The code around it
    pub context_description: String,
    /// How to fix it
    pub fix_approach: String,
    /// What a fix must respect
    pub constraints: Vec<String>,
}

} // verus!
