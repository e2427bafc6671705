//! Type definitions for the fix command.

use vstd::prelude::*;

verus! {

/// Context information about a file being fixed
#[derive(Debug)]
pub struct FileContext {
    /// Whether this is a test file
    pub is_test_file: bool,
    /// Whether this is a binary file
    pub is_bin_file: bool,
    /// Whether this is an example file
    pub is_example_file: bool,
    /// Whether the file mentions `anyhow`
    pub has_anyhow_import: bool,
    /// Whether the file mentions `thiserror`
    pub has_thiserror_import: bool,
    /// Function signatures in the file
    pub function_signatures: Vec<FunctionSignature>,
}

/// Represents a function signature found in the file
#[derive(Debug)]
pub struct FunctionSignature {
    /// Name of the function
    pub name: String,
    /// Starting line number (1-based)
    pub line_start: usize,
    /// Ending line number (1-based)
    pub line_end: usize,
    /// Whether function returns Result
    pub returns_result: bool,
    /// Whether function returns Option
    pub returns_option: bool,
}

/// The contents of a function signature.
pub struct SignatureView {
    pub name: Seq<char>,
    pub line_start: int,
    pub line_end: int,
    pub returns_result: bool,
    pub returns_option: bool,
}

impl View for FunctionSignature {
    type V = SignatureView;

    open spec fn view(&self) -> SignatureView {
        SignatureView {
            name: self.name@,
            line_start: self.line_start as int,
            line_end: self.line_end as int,
            returns_result: self.returns_result,
            returns_option: self.returns_option,
        }
    }
}

/// The contents of a file context.
pub struct FileContextView {
    pub is_test_file: bool,
    pub is_bin_file: bool,
    pub is_example_file: bool,
    pub has_anyhow_import: bool,
    pub has_thiserror_import: bool,
    pub function_signatures: Seq<SignatureView>,
}

impl View for FileContext {
    type V = FileContextView;

    open spec fn view(&self) -> FileContextView {
        FileContextView {
            is_test_file: self.is_test_file,
            is_bin_file: self.is_bin_file,
            is_example_file: self.is_example_file,
            has_anyhow_import: self.has_anyhow_import,
            has_thiserror_import: self.has_thiserror_import,
            function_signatures: self.function_signatures@.map_values(
                |f: FunctionSignature| f@,
            ),
        }
    }
}

/// Result of attempting to fix a violation
#[derive(Debug)]
pub enum FixResult {
    /// Fix was successfully applied, with the fixed line
    Fixed(String),
    /// Fix was skipped with reason
    Skipped(String),
    /// Fix is not applicable to this violation
    NotApplicable,
}

/// The contents of a fix result.
pub enum FixOutcome {
    Fixed(Seq<char>),
    Skipped(Seq<char>),
    NotApplicable,
}

impl View for FixResult {
    type V = FixOutcome;

    open spec fn view(&self) -> FixOutcome {
        match self {
            FixResult::Fixed(s) => FixOutcome::Fixed(s@),
            FixResult::Skipped(s) => FixOutcome::Skipped(s@),
            FixResult::NotApplicable => FixOutcome::NotApplicable,
        }
    }
}

/// Configuration for fixing violations
pub struct FixConfig {
    /// Only fix these violation types (upper-case names, each once)
    pub only_types: Option<Vec<String>>,
    /// Skip these violation types (upper-case names, each once)
    pub skip_types: Option<Vec<String>>,
    /// Run in dry-run mode
    pub dry_run: bool,
    /// Limit number of fixes
    pub limit: Option<usize>,
}

/// Configuration for filter options
#[derive(Debug)]
pub struct FilterOptions {
    /// Only fix these violation types (upper-case names, each once)
    pub only_types: Option<Vec<String>>,
    /// Skip these violation types (upper-case names, each once)
    pub skip_types: Option<Vec<String>>,
}

/// Statistics for fix operations
#[derive(Debug, Clone, Copy, PartialEq, Eq, Structural)]
pub struct FixStats {
    /// Violations fixed (or that would be fixed in a dry run)
    pub total_fixed: usize,
    /// Violations left as they were
    pub total_skipped: usize,
    /// Files written
    pub files_modified: usize,
}

} // verus!
