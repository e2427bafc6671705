//! Standards violations found in a project, and the pipeline stages that check them.

use vstd::prelude::*;
use crate::text::text;

verus! {

/// The kind of a standards violation.
#[derive(Debug, Clone, Copy, PartialEq, Eq, Structural)]
pub enum ViolationType {
    /// A parameter or binding silenced with a leading underscore
    UnderscoreBandaid,
    /// The crate does not use the required edition
    WrongEdition,
    /// A file longer than the configured limit
    FileTooLarge,
    /// A function longer than the configured limit
    FunctionTooLarge,
    /// A line longer than the limit
    LineTooLong,
    /// `.unwrap()` or `.expect(..)` in production code
    UnwrapInProduction,
    /// Public items without documentation
    MissingDocs,
    /// Required dependencies are missing
    MissingDependencies,
    /// The required Rust version is too old
    OldRustVersion,
    /// A setting locked by the project configuration was changed
    LockedSetting,
}

/// How serious a violation is.
#[derive(Debug, Clone, Copy, PartialEq, Eq, Structural)]
pub enum Severity {
    /// Blocks the operation
    Error,
    /// Reported but not blocking
    Warning,
}

/// A standards violation at a place in a project.
#[derive(Debug)]
pub struct Violation {
    /// The kind of violation
    pub violation_type: ViolationType,
    /// The file it was found in
    pub file: String,
    /// The line it was found at (1-based)
    pub line: usize,
    /// What is wrong
    pub message: String,
    /// How serious it is
    pub severity: Severity,
}

impl Clone for Violation {
    fn clone(&self) -> (r: Self)
        ensures
            r == *self,
    {
        Violation {
            violation_type: self.violation_type,
            file: self.file.clone(),
            line: self.line,
            message: self.message.clone(),
            severity: self.severity,
        }
    }
}

/// The name of a violation kind, as `{:?}` prints it.
pub open spec fn kind_name(t: ViolationType) -> Seq<char> {
    match t {
        ViolationType::UnderscoreBandaid => "UnderscoreBandaid"@,
        ViolationType::WrongEdition => "WrongEdition"@,
        ViolationType::FileTooLarge => "FileTooLarge"@,
        ViolationType::FunctionTooLarge => "FunctionTooLarge"@,
        ViolationType::LineTooLong => "LineTooLong"@,
        ViolationType::UnwrapInProduction => "UnwrapInProduction"@,
        ViolationType::MissingDocs => "MissingDocs"@,
        ViolationType::MissingDependencies => "MissingDependencies"@,
        ViolationType::OldRustVersion => "OldRustVersion"@,
        ViolationType::LockedSetting => "LockedSetting"@,
    }
}

/// The upper-case name of a violation kind, as `format!("{:?}", t).to_uppercase()` gives it.
pub open spec fn kind_name_upper(t: ViolationType) -> Seq<char> {
    match t {
        ViolationType::UnderscoreBandaid => "UNDERSCOREBANDAID"@,
        ViolationType::WrongEdition => "WRONGEDITION"@,
        ViolationType::FileTooLarge => "FILETOOLARGE"@,
        ViolationType::FunctionTooLarge => "FUNCTIONTOOLARGE"@,
        ViolationType::LineTooLong => "LINETOOLONG"@,
        ViolationType::UnwrapInProduction => "UNWRAPINPRODUCTION"@,
        ViolationType::MissingDocs => "MISSINGDOCS"@,
        ViolationType::MissingDependencies => "MISSINGDEPENDENCIES"@,
        ViolationType::OldRustVersion => "OLDRUSTVERSION"@,
        ViolationType::LockedSetting => "LOCKEDSETTING"@,
    }
}

/// Violations of settings that the project configuration locks (edition, Rust version).
pub open spec fn is_locked_type(t: ViolationType) -> bool {
    t == ViolationType::WrongEdition || t == ViolationType::OldRustVersion || t
        == ViolationType::LockedSetting
}

impl ViolationType {
    /// The name of this kind, as `{:?}` prints it.
    pub fn name(&self) -> (r: String)
        ensures
            r@ == kind_name(*self),
    {
        match self {
            ViolationType::UnderscoreBandaid => text("UnderscoreBandaid"),
            ViolationType::WrongEdition => text("WrongEdition"),
            ViolationType::FileTooLarge => text("FileTooLarge"),
            ViolationType::FunctionTooLarge => text("FunctionTooLarge"),
            ViolationType::LineTooLong => text("LineTooLong"),
            ViolationType::UnwrapInProduction => text("UnwrapInProduction"),
            ViolationType::MissingDocs => text("MissingDocs"),
            ViolationType::MissingDependencies => text("MissingDependencies"),
            ViolationType::OldRustVersion => text("OldRustVersion"),
            ViolationType::LockedSetting => text("LockedSetting"),
        }
    }

    /// The upper-case name of this kind.
    pub fn upper_name(&self) -> (r: String)
        ensures
            r@ == kind_name_upper(*self),
    {
        match self {
            ViolationType::UnderscoreBandaid => text("UNDERSCOREBANDAID"),
            ViolationType::WrongEdition => text("WRONGEDITION"),
            ViolationType::FileTooLarge => text("FILETOOLARGE"),
            ViolationType::FunctionTooLarge => text("FUNCTIONTOOLARGE"),
            ViolationType::LineTooLong => text("LINETOOLONG"),
            ViolationType::UnwrapInProduction => text("UNWRAPINPRODUCTION"),
            ViolationType::MissingDocs => text("MISSINGDOCS"),
            ViolationType::MissingDependencies => text("MISSINGDEPENDENCIES"),
            ViolationType::OldRustVersion => text("OLDRUSTVERSION"),
            ViolationType::LockedSetting => text("LOCKEDSETTING"),
        }
    }
}

impl Violation {
    /// Whether this violation concerns a locked setting (edition or Rust version).
    pub fn is_locked_setting(&self) -> (r: bool)
        ensures
            r == is_locked_type(self.violation_type),
    {
        match self.violation_type {
            ViolationType::WrongEdition | ViolationType::OldRustVersion
            | ViolationType::LockedSetting => true,
            _ => false,
        }
    }
}

/// A stage of the safety pipeline.
#[derive(Debug, Clone, Copy, PartialEq, Eq, Structural)]
pub enum PipelineStage {
    /// Checks before a commit
    PreCommit,
    /// Checks before a push
    PrePush,
    /// Checks before publishing a crate
    Publish,
}

/// The command that a pipeline stage guards.
pub fn get_command_for_stage(stage: PipelineStage) -> (r: &'static str)
    ensures
        r@ == (match stage {
            PipelineStage::PreCommit => "git commit"@,
            PipelineStage::PrePush => "git push"@,
            PipelineStage::Publish => "cargo publish"@,
        }),
{
    match stage {
        PipelineStage::PreCommit => "git commit",
        PipelineStage::PrePush => "git push",
        PipelineStage::Publish => "cargo publish",
    }
}

} // verus!
