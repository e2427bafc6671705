use ferrous_forge::cargo_intercept::validation::{
    check_cargo_version, check_semver_format, enforce_dogfooding, pre_publish_validation,
    version_from_lookup,
};
use ferrous_forge::cargo_intercept::{
    check_locked_outcome, has_locked_violations, style_warning_lines, CargoInterceptor, DevPlan,
    PublishPlan,
};
use ferrous_forge::error::ErrorKind;
use ferrous_forge::violation::{Severity, Violation, ViolationType};

fn violation(t: ViolationType, file: &str, line: usize, message: &str) -> Violation {
    Violation {
        violation_type: t,
        file: file.to_string(),
        line,
        message: message.to_string(),
        severity: Severity::Error,
    }
}

#[test]
fn test_cargo_interceptor_creation() {
    let interceptor = CargoInterceptor::new("", "");
    assert!(interceptor.enforce_dogfooding);
}

#[test]
fn test_semver_format_valid() {
    assert!(check_semver_format("1.0.0").is_ok());
    assert!(check_semver_format("0.1.2").is_ok());
    assert!(check_semver_format("10.20.30").is_ok());
}

#[test]
fn test_semver_format_invalid() {
    assert!(check_semver_format("1.0").is_err());
    assert!(check_semver_format("1.0.0.1").is_err());
    assert!(check_semver_format("1.a.0").is_err());
    assert!(check_semver_format("invalid").is_err());
}

#[test]
fn semver_error_messages() {
    let e = check_semver_format("1.0").unwrap_err();
    assert_eq!(e.kind, ErrorKind::Validation);
    assert_eq!(e.message, "Version '1.0' must follow semantic versioning (major.minor.patch)");
    let e = check_semver_format("1.a.0").unwrap_err();
    assert_eq!(e.message, "Version minor part 'a' must be numeric");
    let e = check_semver_format("1.0.99999999999").unwrap_err();
    assert_eq!(e.message, "Version patch part '99999999999' must be numeric");
    assert!(check_semver_format("+1.2.3").is_ok());
}

#[test]
fn version_consistency_of_cargo_toml() {
    let cargo_content = "\n[package]\nname = \"test-package\"\nversion = \"1.0.0\"\nedition = \"2021\"\n";
    assert!(check_cargo_version(cargo_content).is_ok());
    let e = check_cargo_version("[package]\nname = \"x\"\n").unwrap_err();
    assert_eq!(e.kind, ErrorKind::Config);
    assert_eq!(e.message, "No version found in Cargo.toml");
    let e = check_cargo_version("[package]\nversion = \"1.0\"\n").unwrap_err();
    assert_eq!(e.message, "Version '1.0' must follow semantic versioning (major.minor.patch)");
    let e = check_cargo_version("[package\n").unwrap_err();
    assert!(e.message.starts_with("Failed to parse Cargo.toml: "));
    assert!(version_from_lookup(Ok(Some("2.0.0".to_string()))).is_ok());
}

#[test]
fn bypass_flags_ignore_case() {
    let i = CargoInterceptor::new("TrUe", "no");
    assert!(i.bypass_style);
    assert!(!i.force_bypass);
    assert_eq!(i.dev_plan(), DevPlan::Check { check_style: false });
    assert_eq!(
        i.publish_plan(),
        PublishPlan::Validate { warn_style_bypass: true, check_dogfooding: true }
    );
    let f = CargoInterceptor::with_dogfooding(false, "", "true");
    assert!(!f.enforce_dogfooding);
    assert_eq!(f.dev_plan(), DevPlan::Bypassed);
    assert_eq!(f.publish_plan(), PublishPlan::Bypassed);
    assert!(!CargoInterceptor::new("truee", "").bypass_style);
}

#[test]
fn locked_violations_block_dev_commands() {
    let style = violation(ViolationType::FileTooLarge, "a.rs", 1, "too big");
    let locked = violation(ViolationType::OldRustVersion, "Cargo.toml", 1, "old");
    assert!(!has_locked_violations(&[style.clone()]));
    assert!(has_locked_violations(&[style, locked.clone()]));
    assert!(check_locked_outcome(&[]).is_ok());
    let e = check_locked_outcome(&[locked]).unwrap_err();
    assert!(e.message.starts_with("Locked setting violations must be resolved before building."));
}

#[test]
fn style_warnings_show_five_and_count_the_rest() {
    let vs: Vec<Violation> = (1..=7)
        .map(|i| violation(ViolationType::FunctionTooLarge, "src/a.rs", i, "too long\nsecond line"))
        .collect();
    let lines = style_warning_lines(&vs);
    assert_eq!(lines.len(), 9);
    assert_eq!(lines[0], "\n⚠️  Ferrous Forge style warnings (7 violations):");
    assert_eq!(lines[1], "   FunctionTooLarge: src/a.rs:1 — too long");
    assert_eq!(lines[6], "   ... and 2 more (run 'ferrous-forge validate' for full list)");
    assert!(style_warning_lines(&[]).is_empty());
}

#[test]
fn publish_checks() {
    assert!(enforce_dogfooding(true, true).is_ok());
    assert_eq!(
        enforce_dogfooding(false, true).unwrap_err().message,
        "Project must use Ferrous Forge before publishing (run 'ferrous-forge init')"
    );
    assert_eq!(
        enforce_dogfooding(true, false).unwrap_err().message,
        "Ferrous Forge config not found - run 'ferrous-forge init'"
    );
    assert!(pre_publish_validation(true).is_ok());
    assert!(pre_publish_validation(false).is_err());
}
