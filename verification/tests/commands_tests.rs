use ferrous_forge::commands::hooks::{
    get_hook_status_display, get_pre_commit_hook_content, get_pre_push_hook_content,
    is_ferrous_forge_hook, should_write_hook,
};
use ferrous_forge::commands::template::{collect_template_variables, parse_var};
use ferrous_forge::commands::uninstall::{is_confirmation, remove_ferrous_forge_section};
use ferrous_forge::commands::init::{check_already_initialized, with_lints_block, with_shell_integration};
use ferrous_forge::commands::update::{get_bin_path_in_archive, get_target_name};
use ferrous_forge::config::Config;
use ferrous_forge::commands::validate::{
    count_violations_by_type, create_ai_violation, generate_fix_instructions, get_code_snippet, get_fix_strategy, get_fix_suggestion, locked_violations, lock_file_name, AIMetadata, FixInstruction, generate_markdown_report,
};
use ferrous_forge::commands::{ConfigLevelArg, SafetyBypassStage};
use ferrous_forge::config::ConfigLevel;
use ferrous_forge::error::ErrorKind;
use ferrous_forge::violation::{get_command_for_stage, PipelineStage, Severity, Violation, ViolationType};
use ferrous_forge::commands::stats::{count_stats, top_bypass_users, BypassRecord, ReportRecord};
use sha2::Digest;

fn violation(t: ViolationType, file: &str, line: usize) -> Violation {
    Violation {
        violation_type: t,
        file: file.to_string(),
        line,
        message: "m".to_string(),
        severity: Severity::Warning,
    }
}

#[test]
fn test_safety_bypass_stage_conversion() {
    assert_eq!(
        SafetyBypassStage::PreCommit.to_pipeline_stage(),
        PipelineStage::PreCommit
    );
    assert_eq!(
        SafetyBypassStage::PrePush.to_pipeline_stage(),
        PipelineStage::PrePush
    );
    assert_eq!(
        SafetyBypassStage::Publish.to_pipeline_stage(),
        PipelineStage::Publish
    );
}

#[test]
fn test_get_command_for_stage() {
    assert_eq!(
        get_command_for_stage(PipelineStage::PreCommit),
        "git commit"
    );
    assert_eq!(get_command_for_stage(PipelineStage::PrePush), "git push");
    assert_eq!(
        get_command_for_stage(PipelineStage::Publish),
        "cargo publish"
    );
}

#[test]
fn config_levels_convert() {
    assert_eq!(ConfigLevelArg::System.to_config_level(), ConfigLevel::System);
    assert_eq!(ConfigLevelArg::User.to_config_level(), ConfigLevel::User);
    assert_eq!(ConfigLevelArg::Project.to_config_level(), ConfigLevel::Project);
}

#[test]
fn hooks_are_recognised_and_status_shown() {
    assert!(is_ferrous_forge_hook(get_pre_commit_hook_content()));
    assert!(is_ferrous_forge_hook(get_pre_push_hook_content()));
    assert!(get_pre_commit_hook_content().starts_with("#!/bin/bash\n# Ferrous Forge"));
    assert!(!is_ferrous_forge_hook("#!/bin/sh\nmake lint\n"));
    assert!(should_write_hook(false, false, ""));
    assert!(should_write_hook(true, true, "foreign"));
    assert!(!should_write_hook(true, false, "foreign"));
    assert!(should_write_hook(true, false, "# Ferrous Forge hook"));
    assert_eq!(
        get_hook_status_display(true, true),
        "Hook Status:\n  Pre-commit: ✅ installed\n  Pre-push:   ✅ installed\n\n🛡️  Mandatory blocking is ACTIVE\n"
    );
    assert_eq!(
        get_hook_status_display(false, false),
        "Hook Status:\n  Pre-commit: ❌ not installed\n  Pre-push:   ❌ not installed\n\n⚠️  Safety hooks are NOT installed\n   Run: ferrous-forge safety install\n"
    );
    assert!(get_hook_status_display(true, false).ends_with("\n⚠️  Partial installation detected\n"));
}

#[test]
fn template_variables() {
    assert_eq!(parse_var("a=b=c").unwrap(), ("a".to_string(), "b=c".to_string()));
    assert_eq!(parse_var("k=").unwrap(), ("k".to_string(), "".to_string()));
    let e = parse_var("novalue").unwrap_err();
    assert_eq!(e.kind, ErrorKind::Template);
    assert_eq!(e.message, "Invalid variable format: 'novalue'. Use key=value");
    let vars = collect_template_variables(&[
        "name=x".to_string(),
        "author=me".to_string(),
        "name=y".to_string(),
    ])
    .unwrap();
    assert_eq!(vars.len(), 2);
    assert!(vars.contains(&("name".to_string(), "y".to_string())));
    assert!(vars.contains(&("author".to_string(), "me".to_string())));
    let e = collect_template_variables(&["a=1".to_string(), "bad".to_string(), "worse".to_string()])
        .unwrap_err();
    assert_eq!(e.message, "Invalid variable format: 'bad'. Use key=value");
}

#[test]
fn shell_section_removed() {
    let content = "export PATH=/bin\n# Ferrous Forge\nexport FERROUS_FORGE_HOME=/x\n\n# more\nalias ll='ls -l'\n";
    assert_eq!(remove_ferrous_forge_section(content), "export PATH=/bin\nalias ll='ls -l'");
    assert_eq!(remove_ferrous_forge_section("a\nb"), "a\nb");
    assert_eq!(remove_ferrous_forge_section(""), "");
}

#[test]
fn bin_path_in_archive() {
    assert_eq!(get_bin_path_in_archive(true), "ferrous-forge.exe");
    assert_eq!(get_bin_path_in_archive(false), "ferrous-forge");
}

#[test]
fn ai_report_pieces() {
    let vs = vec![
        violation(ViolationType::UnwrapInProduction, "a.rs", 1),
        violation(ViolationType::FileTooLarge, "b.rs", 1),
        violation(ViolationType::UnwrapInProduction, "c.rs", 9),
    ];
    let counts = count_violations_by_type(&vs);
    assert_eq!(
        counts,
        vec![("UnwrapInProduction".to_string(), 2), ("FileTooLarge".to_string(), 1)]
    );
    let instructions = generate_fix_instructions(counts);
    assert_eq!(instructions.len(), 2);
    assert_eq!(instructions[0].count, 2);
    assert_eq!(instructions[0].effort_level, "Easy");
    assert_eq!(instructions[0].example_fix, "// Before: value.unwrap()\n// After: value?");
    assert_eq!(instructions[1].effort_level, "Hard");
    assert_eq!(
        get_fix_strategy("Other"),
        ("Review and fix manually".to_string(), "".to_string(), "Moderate".to_string())
    );
    assert_eq!(
        get_fix_suggestion(&ViolationType::UnderscoreBandaid, ""),
        ("Remove unused parameter or implement missing functionality".to_string(), true, 2)
    );
    assert_eq!(get_code_snippet("a\nb\nc", 2), "b");
    assert_eq!(get_code_snippet("a\nb\nc", 0), "Line not found");
    assert_eq!(get_code_snippet("a\nb\nc", 4), "Line not found");
    let ai = create_ai_violation(&vs[0], "x.unwrap()".to_string());
    assert_eq!(ai.violation_type, "UnwrapInProduction");
    assert_eq!(ai.priority, 1);
    assert!(ai.auto_fixable);
}

#[test]
fn locked_only_keeps_locked_settings() {
    let vs = vec![
        violation(ViolationType::WrongEdition, "Cargo.toml", 1),
        violation(ViolationType::FileTooLarge, "b.rs", 1),
        violation(ViolationType::LockedSetting, "Cargo.toml", 2),
    ];
    let locked = locked_violations(&vs);
    assert_eq!(locked.len(), 2);
    assert_eq!(locked[1].violation_type, ViolationType::LockedSetting);
}

#[test]
fn lock_file_name_hashes_the_path() {
    let path = "/home/user/project";
    let digest = format!("{:x}", sha2::Sha256::digest(path.as_bytes()));
    let expected = format!("ferrous-forge-{}.lock", &digest[..16]);
    assert_eq!(lock_file_name(path), expected);
    assert_ne!(lock_file_name(path), lock_file_name("/other"));
    assert_eq!(lock_file_name(path).len(), "ferrous-forge-.lock".len() + 16);
}

#[test]
fn uninstall_confirmation() {
    assert!(is_confirmation("  Yes\n"));
    assert!(is_confirmation("y"));
    assert!(!is_confirmation("no"));
    assert!(!is_confirmation(""));
}

#[test]
fn shell_integration_and_lints_are_added_once() {
    let once = with_shell_integration("alias a=b\n").expect("added");
    assert!(once.starts_with("alias a=b\n\n# Ferrous Forge - Rust Development Standards Enforcer\n"));
    assert!(once.ends_with("export FERROUS_FORGE_ENABLED=1\n"));
    assert!(with_shell_integration(&once).is_none());
    let lints = with_lints_block("[package]\nname = \"x\"\n").expect("added");
    assert!(lints.contains("\n[lints.rust]\nmissing_docs = \"warn\"\n"));
    assert!(with_lints_block(&lints).is_none());
    assert!(with_lints_block("[lints]\n").is_none());
}

#[test]
fn uninstall_removes_the_whole_integration_block() {
    let integrated = with_shell_integration("alias a=b\n").expect("added");
    assert_eq!(remove_ferrous_forge_section(&integrated), "alias a=b\n");
    let integrated = with_shell_integration("alias a=b\nexport X=1").expect("added");
    assert_eq!(remove_ferrous_forge_section(&integrated), "alias a=b\nexport X=1");
    let integrated = with_shell_integration("").expect("added");
    assert_eq!(remove_ferrous_forge_section(&integrated), "");
}

#[test]
fn uninstall_keeps_an_unrelated_export_after_the_block() {
    let mut content = with_shell_integration("alias a=b\n").expect("added");
    content.push_str("export EDITOR=vim\n");
    assert_eq!(remove_ferrous_forge_section(&content), "alias a=b\n\nexport EDITOR=vim");
}

#[test]
fn initialization_is_skipped_only_when_done_and_not_forced() {
    let mut config = Config::default();
    assert!(!check_already_initialized(&config, false));
    config.mark_initialized();
    assert!(check_already_initialized(&config, false));
    assert!(!check_already_initialized(&config, true));
}

#[test]
fn release_target_names() {
    assert_eq!(get_target_name("linux", "x86_64", false).unwrap(), "linux-x86_64.tar.gz");
    assert_eq!(get_target_name("linux", "x86_64", true).unwrap(), "linux-x86_64-musl.tar.gz");
    assert_eq!(get_target_name("macos", "aarch64", false).unwrap(), "macos-aarch64.tar.gz");
    assert_eq!(get_target_name("windows", "x86_64", false).unwrap(), "windows-x86_64.zip");
    let e = get_target_name("freebsd", "x86_64", false).unwrap_err();
    assert_eq!(e.kind, ErrorKind::Config);
    assert_eq!(e.message, "Self-update is not supported on freebsd/x86_64");
}

fn sample_metadata() -> AIMetadata {
    AIMetadata {
        timestamp: "2024-01-02T03:04:05+00:00".to_string(),
        project_path: "/work/demo".to_string(),
        ferrous_forge_version: "1.0.0".to_string(),
        total_violations: 12,
        report_version: "1.0.0".to_string(),
    }
}

#[test]
fn markdown_report_lists_figures_and_each_kind() {
    let instructions = vec![FixInstruction {
        violation_type: "UnwrapInProduction".to_string(),
        count: 3,
        fix_strategy: "Use ?".to_string(),
        example_fix: "value?".to_string(),
        effort_level: "Easy".to_string(),
    }];
    let md = generate_markdown_report(&sample_metadata(), "87.5", &instructions);
    assert!(md.starts_with("# 🤖 AI-Friendly Compliance Report\n\n**Generated**: 2024-01-02T03:04:05+00:00\n"));
    assert!(md.contains("**Project**: /work/demo\n**Total Violations**: 12\n**Compliance**: 87.5%\n\n"));
    assert!(md.contains("## 🎯 Fix Priority Order\n\n1. **UnwrapInProduction** - Critical for safety\n"));
    assert!(md.contains("ferrous-forge validate . --ai-report\n\n"));
    assert!(md.ends_with(
        "## 📊 Violation Summary\n\n### UnwrapInProduction (3 violations)\n\n**Strategy**: Use ?\n\n**Example**:\n```\nvalue?\n```\n\n"
    ));
}

#[test]
fn markdown_report_without_instructions_ends_with_the_summary_heading() {
    let md = generate_markdown_report(&sample_metadata(), "100.0", &[]);
    assert!(md.ends_with("```\n\n## 📊 Violation Summary\n\n"));
    assert!(md.contains("**Compliance**: 100.0%"));
}

#[test]
fn release_versions_get_a_v_in_front() {
    assert_eq!(ferrous_forge::commands::rust::normalize_release_version("1.80.0"), "v1.80.0");
    assert_eq!(ferrous_forge::commands::rust::normalize_release_version("v1.80.0"), "v1.80.0");
    assert_eq!(ferrous_forge::commands::rust::normalize_release_version(""), "v");
}

#[test]
fn safety_stats_count_the_period() {
    let now: i64 = 100 * 86400;
    let day: i64 = 86400;
    let report = |ago: i64, passed: bool, stage: PipelineStage, checks: usize| ReportRecord {
        timestamp: now - ago,
        passed,
        stage,
        checks,
    };
    let reports = vec![
        report(3600, true, PipelineStage::PreCommit, 4),
        report(2 * day, false, PipelineStage::PrePush, 6),
        report(9 * day, true, PipelineStage::PreCommit, 1),
        report(40 * day, true, PipelineStage::Publish, 7),
    ];
    let bypass = |ago: i64, stage: PipelineStage, user: &str| BypassRecord {
        timestamp: now - ago,
        stage,
        user: user.to_string(),
    };
    let bypasses = vec![
        bypass(60, PipelineStage::PrePush, "ann"),
        bypass(3 * day, PipelineStage::PrePush, "bob"),
        bypass(20 * day, PipelineStage::PreCommit, "ann"),
    ];
    let c = count_stats(&reports, &bypasses, now, 30);
    assert_eq!((c.total_reports, c.passed_reports, c.failed_reports), (3, 2, 1));
    assert_eq!(c.total_checks, 11);
    assert_eq!(
        c.reports_by_stage,
        vec![(PipelineStage::PreCommit, 2, 2), (PipelineStage::PrePush, 1, 0)]
    );
    assert_eq!((c.current_7d_total, c.current_7d_passed), (2, 1));
    assert_eq!((c.previous_7d_total, c.previous_7d_passed), (1, 1));
    assert_eq!(c.total_bypasses, 3);
    assert_eq!((c.bypasses_last_24h, c.bypasses_last_7d), (1, 2));
    assert_eq!(
        c.bypasses_by_stage,
        vec![(PipelineStage::PreCommit, 1), (PipelineStage::PrePush, 2)]
    );
    assert_eq!(c.bypasses_by_user, vec![("ann".to_string(), 2), ("bob".to_string(), 1)]);
    let empty = count_stats(&[], &[], now, 7);
    assert_eq!(empty.total_reports, 0);
    assert!(empty.reports_by_stage.is_empty());
}

#[test]
fn top_bypass_users_lists_the_most_first() {
    let by_user = vec![
        ("ann".to_string(), 2),
        ("bob".to_string(), 5),
        ("cy".to_string(), 2),
        ("dee".to_string(), 7),
    ];
    assert_eq!(
        top_bypass_users(&by_user, 3),
        vec![("dee".to_string(), 7), ("bob".to_string(), 5), ("ann".to_string(), 2)]
    );
    assert_eq!(top_bypass_users(&by_user, 10).len(), 4);
    assert!(top_bypass_users(&[], 5).is_empty());
}
