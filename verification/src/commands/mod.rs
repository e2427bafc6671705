//! The commands of Ferrous Forge, as values: what the command line asks for.

pub mod hooks;
pub mod init;
pub mod template;
pub mod uninstall;
pub mod rust;
pub mod stats;
pub mod update;
pub mod validate;

use vstd::prelude::*;
use crate::config::ConfigLevel;
use crate::violation::PipelineStage;

verus! {

/// Available commands for Ferrous Forge
#[derive(Debug)]
pub enum Commands {
    /// Initialize Ferrous Forge system-wide, or set up a project with `project`
    Init {
        /// Force initialization even if already configured
        force: bool,
        /// Set up project-level tooling in the current directory
        project: bool,
    },
    /// Show status of Ferrous Forge installation and configuration
    Status,
    /// Update Ferrous Forge to the latest version
    Update {
        /// Update channel to use (stable, beta, nightly)
        channel: String,
        /// Only update rules, not the binary
        rules_only: bool,
        /// Show what would be updated without actually updating
        dry_run: bool,
    },
    /// Manage configuration settings
    Config {
        /// Config subcommand
        command: Option<ConfigCommand>,
    },
    /// Validate a Rust project against standards
    Validate {
        /// Path to the project to validate (defaults to current directory)
        path: Option<String>,
        /// Generate AI-friendly compliance report
        ai_report: bool,
        /// Compare with previous report
        compare_previous: bool,
        /// Only check locked settings (edition, rust-version)
        locked_only: bool,
    },
    /// Rollback to a previous version
    Rollback {
        /// Version to rollback to
        version: String,
    },
    /// Uninstall Ferrous Forge from the system
    Uninstall {
        /// Confirm uninstallation without prompting
        confirm: bool,
    },
    /// Rust version management
    Rust {
        /// Rust version management subcommand
        command: RustCommand,
    },
    /// Edition management
    Edition {
        /// Edition management subcommand
        command: EditionCommand,
    },
    /// Safety pipeline management
    Safety {
        /// Safety pipeline subcommand
        command: SafetyCommand,
    },
    /// Project template management
    Template {
        /// Template subcommand
        command: crate::commands::template::TemplateCommand,
    },
    /// Automatically fix code violations
    Fix {
        /// Path to the project to fix (defaults to current directory)
        path: Option<String>,
        /// Only fix specific violation types (comma-separated)
        only: Option<String>,
        /// Skip specific violation types (comma-separated)
        skip: Option<String>,
        /// Show what would be fixed without making changes
        dry_run: bool,
        /// Fix at most this many violations
        limit: Option<usize>,
        /// Enable AI-powered analysis for complex violations
        ai_analysis: bool,
    },
}

/// Rust version management subcommands
#[derive(Debug)]
pub enum RustCommand {
    /// Check current Rust version and available updates
    Check {
        /// Show verbose output
        verbose: bool,
        /// Exit with error if version doesn't meet locked requirements
        enforce: bool,
    },
    /// Get update recommendations
    Recommend {
        /// Only consider stable releases
        stable_only: bool,
    },
    /// List recent Rust releases or installed toolchains
    List {
        /// Number of releases to show
        count: usize,
        /// List installed toolchains instead of releases
        toolchains: bool,
    },
    /// List recent Rust releases (alias for 'list')
    Releases {
        /// Number of releases to show
        count: usize,
    },
    /// Check if Rust updates are available
    CheckUpdates {
        /// Show detailed information about available updates
        verbose: bool,
    },
    /// Show release notes for a specific version
    ReleaseNotes {
        /// Version to show notes for
        version: String,
        /// Show full parsed details
        detailed: bool,
    },
    /// Check for security advisories affecting current Rust version
    Security {
        /// Exit with error if security issues found
        fail_on_issues: bool,
    },
    /// Update Rust via rustup
    Update {
        /// Show what would be updated without making changes
        dry_run: bool,
        /// Skip confirmation prompt
        yes: bool,
        /// Also update rustup itself
        self_update: bool,
    },
    /// Install a specific toolchain
    InstallToolchain {
        /// Toolchain channel to install
        channel: String,
        /// Set as default toolchain after installation
        default: bool,
    },
    /// Uninstall a toolchain
    UninstallToolchain {
        /// Toolchain channel to uninstall
        channel: String,
    },
    /// Switch to a different toolchain
    Switch {
        /// Toolchain channel to switch to
        channel: String,
    },
}

/// Edition management subcommands
#[derive(Debug)]
pub enum EditionCommand {
    /// Check edition compliance
    Check {
        /// Project path
        path: String,
    },
    /// Migrate to a new edition
    Migrate {
        /// Target edition (2018, 2021, 2024)
        edition: String,
        /// Skip backup creation
        no_backup: bool,
        /// Run tests after migration
        test: bool,
        /// Apply edition idioms
        idioms: bool,
    },
    /// Analyze edition compatibility
    Analyze {
        /// Project path
        path: String,
        /// Target edition
        edition: String,
    },
}

/// Safety pipeline management subcommands
#[derive(Debug)]
pub enum SafetyCommand {
    /// Check safety pipeline status
    Status,
    /// Install git hooks for safety pipeline
    Install {
        /// Force reinstall even if hooks already exist
        force: bool,
        /// Project path
        path: String,
        /// Install cargo publish interception
        cargo: bool,
    },
    /// Run safety checks manually
    Check {
        /// Pipeline stage to check
        stage: String,
        /// Project path
        path: String,
        /// Show verbose output
        verbose: bool,
    },
    /// Test individual safety checks
    Test {
        /// Project path
        path: String,
    },
    /// Create emergency bypass for safety checks
    Bypass {
        /// Pipeline stage to bypass
        stage: SafetyBypassStage,
        /// Reason for bypass
        reason: String,
        /// Bypass duration in hours
        duration: u64,
        /// User creating the bypass
        user: Option<String>,
    },
    /// View bypass audit log
    Audit {
        /// Number of entries to show
        limit: usize,
    },
    /// Check if a bypass is active (used by git hooks)
    CheckBypass {
        /// Pipeline stage to check
        stage: SafetyBypassStage,
    },
    /// Uninstall git hooks
    Uninstall {
        /// Project path
        path: String,
        /// Confirm uninstall without prompting
        confirm: bool,
    },
    /// Manage safety configuration
    Config {
        /// Show current configuration
        show: bool,
        /// Set a configuration value (key=value)
        set: Option<String>,
        /// Get a specific configuration value
        get: Option<String>,
    },
    /// View safety reports
    Report {
        /// Number of reports to show
        last: usize,
        /// Include bypass audit log
        audit: bool,
        /// Filter by stage
        stage: Option<String>,
    },
    /// Display safety statistics and metrics
    Stats {
        /// Number of days to include in statistics
        days: u32,
    },
}

/// Safety bypass stage options
#[derive(Debug, Clone, Copy, PartialEq, Eq, Structural)]
pub enum SafetyBypassStage {
    /// Pre-commit checks
    PreCommit,
    /// Pre-push checks
    PrePush,
    /// Publish checks
    Publish,
}

impl SafetyBypassStage {
    /// Convert to `PipelineStage`
    pub fn to_pipeline_stage(&self) -> (r: PipelineStage)
        ensures
            r == match *self {
                SafetyBypassStage::PreCommit => PipelineStage::PreCommit,
                SafetyBypassStage::PrePush => PipelineStage::PrePush,
                SafetyBypassStage::Publish => PipelineStage::Publish,
            },
    {
        match self {
            SafetyBypassStage::PreCommit => PipelineStage::PreCommit,
            SafetyBypassStage::PrePush => PipelineStage::PrePush,
            SafetyBypassStage::Publish => PipelineStage::Publish,
        }
    }
}

/// Configuration subcommands
#[derive(Debug)]
pub enum ConfigCommand {
    /// Get a configuration value
    Get {
        /// The configuration key to retrieve
        key: String,
    },
    /// Set a configuration value (key=value); the `set` subcommand
    SetValue {
        /// The key=value pair to set
        value: String,
    },
    /// List all configuration values
    List,
    /// Reset configuration to defaults
    Reset,
    /// Show configuration sources from hierarchy
    Sources,
    /// Migrate old configuration to hierarchical system
    Migrate,
    /// Lock a configuration value to prevent changes
    Lock {
        /// The configuration key to lock
        key: String,
        /// The value to lock (defaults to current value)
        value: Option<String>,
        /// Reason for locking
        reason: String,
        /// Configuration level to lock at
        level: ConfigLevelArg,
    },
    /// Unlock a configuration value to allow changes
    Unlock {
        /// The configuration key to unlock
        key: String,
        /// Reason for unlocking
        reason: String,
        /// Configuration level to unlock at
        level: ConfigLevelArg,
    },
    /// Show lock status for all configuration values
    LockStatus,
    /// View lock audit log
    LockAudit {
        /// Number of entries to show
        limit: usize,
    },
    /// Export configuration for sharing
    Export {
        /// Configuration level to export
        level: ConfigLevelArg,
        /// Output file path (defaults to stdout)
        output: Option<String>,
        /// Description of this shared config
        description: Option<String>,
    },
    /// Import configuration from shared file
    Import {
        /// Path to the shared config file
        file: String,
        /// Target level to import to
        level: ConfigLevelArg,
        /// Skip importing locks
        no_locks: bool,
        /// Force overwrite of existing values
        force: bool,
    },
}

/// Configuration level argument for CLI
#[derive(Debug, Clone, Copy, PartialEq, Eq, Structural)]
pub enum ConfigLevelArg {
    /// System-wide configuration
    System,
    /// User-specific configuration
    User,
    /// Project-specific configuration
    Project,
}

impl ConfigLevelArg {
    /// Convert to `ConfigLevel`
    pub fn to_config_level(&self) -> (r: ConfigLevel)
        ensures
            r == match *self {
                ConfigLevelArg::System => ConfigLevel::System,
                ConfigLevelArg::User => ConfigLevel::User,
                ConfigLevelArg::Project => ConfigLevel::Project,
            },
    {
        match self {
            ConfigLevelArg::System => ConfigLevel::System,
            ConfigLevelArg::User => ConfigLevel::User,
            ConfigLevelArg::Project => ConfigLevel::Project,
        }
    }
}

/// The command line of Ferrous Forge.
#[derive(Debug)]
pub struct Cli {
    /// The command to execute
    pub command: Commands,
    /// Enable verbose output
    pub verbose: bool,
    /// Output format
    pub format: OutputFormat,
    /// Configuration file path
    pub config: Option<String>,
}

/// Output format options
#[derive(Debug, Clone, Copy, PartialEq, Eq, Structural)]
pub enum OutputFormat {
    /// Human-readable output
    Human,
    /// JSON output
    Json,
    /// YAML output
    Yaml,
}

} // verus!
