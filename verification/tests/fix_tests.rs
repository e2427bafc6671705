use ferrous_forge::fix::context::{
    analyze_file_context, check_can_use_question_mark, parse_function_signature_multiline,
};
use ferrous_forge::fix::file_processing::{
    apply_fixes_to_lines, fix_file_content, fix_files, process_all_files, render_fixed_content,
    try_simple_fix,
};
use ferrous_forge::fix::execution::validate_and_filter_violations;
use ferrous_forge::fix::parse_filter_options;
use ferrous_forge::fix::strategies::{
    can_potentially_auto_fix, fix_underscore_in_line, fix_unwrap_in_line, fix_violation_in_line,
};
use ferrous_forge::fix::types::FixResult;
use ferrous_forge::fix::utils::{filter_violations, group_violations_by_file, sort_by_line_descending};
use ferrous_forge::violation::{Severity, Violation, ViolationType};

fn violation(t: ViolationType, file: &str, line: usize) -> Violation {
    Violation {
        violation_type: t,
        file: file.to_string(),
        line,
        message: String::new(),
        severity: Severity::Error,
    }
}

#[test]
fn fix_test_safe_unwrap_fix() {
    let content =
        "use anyhow::Result;\n\nfn process() -> Result<()> {\n    let value = some_func().unwrap();\n}";
    let context = analyze_file_context(content);
    let line = "    let value = some_func().unwrap();";
    let violation = Violation {
        violation_type: ViolationType::UnwrapInProduction,
        file: "test.rs".to_string(),
        line: 4,
        message: String::new(),
        severity: Severity::Error,
    };

    match fix_unwrap_in_line(line, &violation, &context) {
        FixResult::Fixed(fixed) => {
            assert_eq!(fixed, "    let value = some_func()?;");
        }
        _ => panic!("Expected fix to be applied"),
    }
}

#[test]
fn test_skip_test_unwrap() {
    let content =
        "#[cfg(test)]\nmod tests {\n    #[test]\n    fn test_something() {\n        value.unwrap();\n    }\n}";
    let context = analyze_file_context(content);
    let line = "        value.unwrap();";
    let violation = Violation {
        violation_type: ViolationType::UnwrapInProduction,
        file: "test.rs".to_string(),
        line: 5,
        message: String::new(),
        severity: Severity::Error,
    };

    match fix_unwrap_in_line(line, &violation, &context) {
        FixResult::Skipped(reason) => {
            assert!(reason.contains("Test"));
        }
        _ => panic!("Expected fix to be skipped in test code"),
    }
}

#[test]
fn fix_test_context_analysis() {
    let content = r#"
use anyhow::Result;
use thiserror::Error;

fn main() -> Result<()> {
    Ok(())
}

#[test]
fn test_something() {
    assert!(true);
}

async fn process_data() -> Result<String> {
    Ok("data".to_string())
}
"#;
    let context = analyze_file_context(content);

    assert!(context.has_anyhow_import);
    assert!(context.has_thiserror_import);
    assert!(context.is_bin_file);
    assert!(context.is_test_file);
    assert_eq!(context.function_signatures.len(), 3);
}

#[test]
fn tests_test_safe_unwrap_fix() {
    let violation = Violation {
        violation_type: ViolationType::UnwrapInProduction,
        file: "test.rs".to_string(),
        line: 5,
        message: "unwrap used".to_string(),
        severity: Severity::Error,
    };

    let context_code = "fn test() -> Result<()> {\n    let x = Some(5).unwrap();\n}";
    let context = analyze_file_context(context_code);

    let fix_result = fix_violation_in_line("    let x = Some(5).unwrap();", &violation, &context);

    match fix_result {
        FixResult::Fixed(new_code) => {
            assert!(new_code.contains("Some(5)?"));
        }
        _ => assert!(false, "Expected fix to be applied"),
    }
}

#[test]
fn test_safe_unwrap_fix_skip_test() {
    let violation = Violation {
        violation_type: ViolationType::UnwrapInProduction,
        file: "test.rs".to_string(),
        line: 2,
        message: "unwrap used".to_string(),
        severity: Severity::Error,
    };

    let context_code = "#[test]\nfn test_something() {\n    let x = Some(5).unwrap();\n}";
    let context = analyze_file_context(context_code);

    let fix_result = fix_violation_in_line("    let x = Some(5).unwrap();", &violation, &context);

    match fix_result {
        FixResult::Skipped(_) => {}
        _ => assert!(false, "Expected fix to be skipped for test file"),
    }
}

#[test]
fn tests_test_context_analysis() {
    let code = r#"
use std::io;

fn function_one() {
    println!("One");
}

fn function_two() -> Result<(), io::Error> {
    Ok(())
}

fn function_three() -> Option<i32> {
    Some(42)
}
"#;

    let context = analyze_file_context(code);

    for sig in &context.function_signatures {
        println!(
            "Function: {} at lines {}-{}",
            sig.name, sig.line_start, sig.line_end
        );
    }
    assert_eq!(context.function_signatures.len(), 3);
}

#[test]
fn context_records_function_extents_and_returns() {
    let code = "fn a() -> Result<(), E> {\n    x\n}\n\npub fn b() -> Option<u8> {\n    None\n}\n";
    let context = analyze_file_context(code);
    assert_eq!(context.function_signatures.len(), 2);
    let a = &context.function_signatures[0];
    assert_eq!(a.name, "a");
    assert_eq!(a.line_start, 1);
    assert_eq!(a.line_end, 3);
    assert!(a.returns_result);
    assert!(!a.returns_option);
    let b = &context.function_signatures[1];
    assert_eq!(b.name, "b");
    assert_eq!(b.line_start, 5);
    assert_eq!(b.line_end, 7);
    assert!(b.returns_option);
    assert!(check_can_use_question_mark(&context));
}

#[test]
fn multiline_signature_is_joined() {
    let lines = ["pub fn long_name(", "    a: u8,", ") -> Result<u8, E> {", "    Ok(a)", "}"];
    let sig = parse_function_signature_multiline(&lines, 0).expect("a signature");
    assert_eq!(sig.name, "long_name");
    // The line with the opening brace is part of the collected signature.
    assert!(sig.returns_result);
    assert_eq!(sig.line_start, 1);
    assert_eq!(sig.line_end, 5);
}

#[test]
fn multiline_signature_reads_the_brace_line() {
    let lines = ["fn foo(", "    x: u32,", ") -> Result<(), String> {", "    Ok(())", "}"];
    let sig = parse_function_signature_multiline(&lines, 0).expect("a signature");
    assert_eq!(sig.name, "foo");
    assert_eq!(sig.line_start, 1);
    assert_eq!(sig.line_end, 5);
    assert!(sig.returns_result);
    assert!(!sig.returns_option);
    let opt = ["fn bar(", "    x: u32,", ") -> Option<u32> {", "    None", "}"];
    assert!(parse_function_signature_multiline(&opt, 0).expect("a signature").returns_option);
}

#[test]
fn question_mark_not_in_bin_without_result_main() {
    let context = analyze_file_context("fn main() {\n    let x = f().unwrap();\n}\n");
    assert!(context.is_bin_file);
    assert!(!check_can_use_question_mark(&context));
    let v = violation(ViolationType::UnwrapInProduction, "src/main.rs", 2);
    match fix_unwrap_in_line("    let x = f().unwrap();", &v, &context) {
        FixResult::Fixed(f) => {
            assert_eq!(f, "    let x = f().expect(\"Failed to complete operation\");")
        }
        _ => panic!("expected the expect rewrite"),
    }
}

#[test]
fn unwrap_in_string_literal_is_skipped() {
    let context = analyze_file_context("fn f() -> Result<(), E> {\n}\n");
    let v = violation(ViolationType::UnwrapInProduction, "lib.rs", 2);
    match fix_unwrap_in_line("    let s = \".unwrap()\";", &v, &context) {
        FixResult::Skipped(r) => assert_eq!(r, "String literal, not actual code"),
        _ => panic!("expected a skip"),
    }
}

#[test]
fn unwrap_without_result_in_library_is_skipped() {
    let context = analyze_file_context("fn f() {\n}\n");
    let v = violation(ViolationType::UnwrapInProduction, "lib.rs", 2);
    match fix_unwrap_in_line("    x.unwrap();", &v, &context) {
        FixResult::Skipped(r) => {
            assert_eq!(r, "Cannot use ? operator - function doesn't return Result/Option")
        }
        _ => panic!("expected a skip"),
    }
}

#[test]
fn expect_call_becomes_question_mark() {
    let context = analyze_file_context("fn f() -> Result<(), E> {\n}\n");
    let v = violation(ViolationType::UnwrapInProduction, "lib.rs", 2);
    match fix_unwrap_in_line("    let v = g().expect(\"it (works)\").h();", &v, &context) {
        FixResult::Fixed(f) => assert_eq!(f, "    let v = g()?.h();"),
        _ => panic!("expected a fix"),
    }
    match fix_unwrap_in_line("    let v = g().expect(\"open", &v, &context) {
        FixResult::Skipped(r) => assert_eq!(r, "Complex expect pattern - manual review needed"),
        _ => panic!("expected a skip"),
    }
}

#[test]
fn line_without_unwrap_or_expect_is_not_applicable() {
    let context = analyze_file_context("fn f() -> Result<(), E> {\n}\n");
    let v = violation(ViolationType::UnwrapInProduction, "lib.rs", 2);
    assert!(matches!(
        fix_unwrap_in_line("    let v = 3;", &v, &context),
        FixResult::NotApplicable
    ));
}

#[test]
fn question_mark_fix_leaves_no_unwrap() {
    let context = analyze_file_context("fn f() -> Option<u8> {\n}\n");
    let v = violation(ViolationType::UnwrapInProduction, "lib.rs", 2);
    match fix_unwrap_in_line("a.unwrap().unwrap().b.unwrap()", &v, &context) {
        FixResult::Fixed(f) => {
            assert_eq!(f, "a??.b?");
            assert!(!f.contains(".unwrap()"));
        }
        _ => panic!("expected a fix"),
    }
}

#[test]
fn underscore_fixes() {
    let context = analyze_file_context("fn f() {\n}\n");
    let v = violation(ViolationType::UnderscoreBandaid, "lib.rs", 7);
    match fix_underscore_in_line("    let _x = 5;", &v, &context) {
        FixResult::Fixed(f) => assert_eq!(f, ""),
        _ => panic!("expected removal"),
    }
    match fix_underscore_in_line("    let _x = compute();", &v, &context) {
        FixResult::Skipped(r) => assert_eq!(
            r,
            "Underscore at lib.rs:7 requires manual review - may have side effects"
        ),
        _ => panic!("expected a skip"),
    }
    let test_context = analyze_file_context("#[test]\nfn t() {}\n");
    match fix_underscore_in_line("    let _x = 5;", &v, &test_context) {
        FixResult::Skipped(r) => assert_eq!(r, "Test file - manual review needed at lib.rs:7"),
        _ => panic!("expected a skip"),
    }
}

#[test]
fn other_kinds_are_not_applicable() {
    let context = analyze_file_context("fn f() {\n}\n");
    let v = violation(ViolationType::LineTooLong, "lib.rs", 1);
    assert!(!can_potentially_auto_fix(&v));
    assert!(matches!(
        fix_violation_in_line("x.unwrap()", &v, &context),
        FixResult::NotApplicable
    ));
    assert!(can_potentially_auto_fix(&violation(ViolationType::UnwrapInProduction, "a", 1)));
    assert!(can_potentially_auto_fix(&violation(ViolationType::UnderscoreBandaid, "a", 1)));
}

#[test]
fn filter_options_are_upper_cased_and_deduplicated() {
    let opts = parse_filter_options(
        Some(" unwrapinproduction, UnwrapInProduction ,underscorebandaid".to_string()),
        None,
    );
    assert_eq!(
        opts.only_types,
        Some(vec!["UNWRAPINPRODUCTION".to_string(), "UNDERSCOREBANDAID".to_string()])
    );
    assert_eq!(opts.skip_types, None);
}

#[test]
fn filter_keeps_fixable_kinds_in_order_with_limit() {
    let vs = vec![
        violation(ViolationType::LineTooLong, "a.rs", 1),
        violation(ViolationType::UnwrapInProduction, "a.rs", 2),
        violation(ViolationType::UnderscoreBandaid, "b.rs", 3),
        violation(ViolationType::UnwrapInProduction, "c.rs", 4),
    ];
    let all = filter_violations(&vs, &None, &None, None);
    assert_eq!(all.len(), 3);
    assert_eq!(all[0].line, 2);
    assert_eq!(all[1].line, 3);
    assert_eq!(all[2].line, 4);
    let only = Some(vec!["UNWRAPINPRODUCTION".to_string()]);
    let some = filter_violations(&vs, &only, &None, Some(1));
    assert_eq!(some.len(), 1);
    assert_eq!(some[0].line, 2);
    let skip = Some(vec!["UNWRAPINPRODUCTION".to_string()]);
    let rest = filter_violations(&vs, &None, &skip, Some(10));
    assert_eq!(rest.len(), 1);
    assert_eq!(rest[0].violation_type, ViolationType::UnderscoreBandaid);
}

#[test]
fn grouping_orders_files_and_lines() {
    let vs = vec![
        violation(ViolationType::UnwrapInProduction, "a.rs", 3),
        violation(ViolationType::UnwrapInProduction, "b.rs", 1),
        violation(ViolationType::UnderscoreBandaid, "a.rs", 10),
        violation(ViolationType::UnwrapInProduction, "a.rs", 3),
        violation(ViolationType::UnwrapInProduction, "a.rs", 7),
    ];
    let groups = group_violations_by_file(&vs);
    assert_eq!(groups.len(), 2);
    assert_eq!(groups[0].0, "a.rs");
    let lines: Vec<usize> = groups[0].1.iter().map(|v| v.line).collect();
    assert_eq!(lines, vec![10, 7, 3, 3]);
    assert_eq!(groups[1].0, "b.rs");
    assert_eq!(groups[1].1.len(), 1);
    let sorted = sort_by_line_descending(&vs);
    let lines: Vec<usize> = sorted.iter().map(|v| v.line).collect();
    assert_eq!(lines, vec![10, 7, 3, 3, 1]);
}

#[test]
fn statistics_tally_fixes_and_skips() {
    let groups = vec![
        ("a.rs".to_string(), vec![violation(ViolationType::UnwrapInProduction, "a.rs", 1)]),
        (
            "b.rs".to_string(),
            vec![
                violation(ViolationType::UnwrapInProduction, "b.rs", 1),
                violation(ViolationType::UnwrapInProduction, "b.rs", 2),
            ],
        ),
        ("c.rs".to_string(), vec![violation(ViolationType::UnderscoreBandaid, "c.rs", 1)]),
    ];
    let stats = process_all_files(&groups, &[Some(1), Some(0), None], false);
    assert_eq!(stats.total_fixed, 1);
    assert_eq!(stats.total_skipped, 3);
    assert_eq!(stats.files_modified, 1);
    let dry = process_all_files(&groups, &[Some(1), Some(0), None], true);
    assert_eq!(dry.total_fixed, 1);
    assert_eq!(dry.files_modified, 0);
}

#[test]
fn no_simple_fix_exists_yet() {
    let v = violation(ViolationType::LineTooLong, "a.rs", 1);
    assert!(try_simple_fix("x", &v).is_none());
    let context = analyze_file_context("a\nb\n");
    let mut lines = vec!["a".to_string(), "b".to_string()];
    assert_eq!(apply_fixes_to_lines(&mut lines, &[v], &context, false), (0, 0));
    assert_eq!(lines, vec!["a".to_string(), "b".to_string()]);
    let fix = fix_file_content("a\nb\n", &[violation(ViolationType::LineTooLong, "a.rs", 2)], false);
    assert_eq!(fix.fixed_count, 0);
    assert!(fix.new_content.is_none());
}

#[test]
fn fixed_content_keeps_final_newline() {
    let lines = vec!["a".to_string(), "b".to_string()];
    assert_eq!(render_fixed_content(&lines, true), "a\nb\n");
    assert_eq!(render_fixed_content(&lines, false), "a\nb");
    assert_eq!(render_fixed_content(&[], false), "");
}

#[test]
fn fix_run_selection_keeps_the_fixable_violations() {
    let vs = vec![
        violation(ViolationType::LineTooLong, "a.rs", 1),
        violation(ViolationType::UnwrapInProduction, "a.rs", 2),
        violation(ViolationType::FileTooLarge, "c.rs", 1),
        violation(ViolationType::UnderscoreBandaid, "b.rs", 3),
    ];
    let options = parse_filter_options(None, None);
    let kept = validate_and_filter_violations(&vs, &options);
    assert_eq!(kept.len(), 2);
    assert_eq!(kept[0].violation_type, ViolationType::UnwrapInProduction);
    assert_eq!(kept[1].violation_type, ViolationType::UnderscoreBandaid);
    let only_unwrap = parse_filter_options(Some("unwrapinproduction".to_string()), None);
    let kept = validate_and_filter_violations(&vs, &only_unwrap);
    assert_eq!(kept.len(), 1);
    assert_eq!(kept[0].line, 2);
}

#[test]
fn filtering_twice_keeps_the_same_violations() {
    let vs = vec![
        violation(ViolationType::UnwrapInProduction, "a.rs", 2),
        violation(ViolationType::LineTooLong, "a.rs", 1),
        violation(ViolationType::UnderscoreBandaid, "b.rs", 3),
        violation(ViolationType::UnwrapInProduction, "b.rs", 9),
    ];
    let once = filter_violations(&vs, &None, &None, Some(2));
    assert_eq!(once.len(), 2);
    let twice = filter_violations(&once, &None, &None, Some(2));
    assert_eq!(twice.len(), once.len());
    for (a, b) in twice.iter().zip(once.iter()) {
        assert_eq!((a.violation_type, &a.file, a.line), (b.violation_type, &b.file, b.line));
    }
}

#[test]
fn file_fix_rewrites_unwraps_and_keeps_final_newline() {
    let content = "use anyhow::Result;\n\nfn process() -> Result<()> {\n    let a = f().unwrap();\n    let b = g().unwrap();\n}\n";
    let vs = vec![
        violation(ViolationType::UnwrapInProduction, "a.rs", 4),
        violation(ViolationType::UnwrapInProduction, "a.rs", 5),
        violation(ViolationType::LineTooLong, "a.rs", 1),
        violation(ViolationType::UnwrapInProduction, "a.rs", 99),
    ];
    let fix = fix_file_content(content, &vs, false);
    assert_eq!(fix.fixed_count, 2);
    assert_eq!(fix.skipped_count, 0);
    assert_eq!(
        fix.new_content.as_deref(),
        Some("use anyhow::Result;\n\nfn process() -> Result<()> {\n    let a = f()?;\n    let b = g()?;\n}\n")
    );
    let dry = fix_file_content(content, &vs, true);
    assert_eq!(dry.fixed_count, 2);
    assert!(dry.new_content.is_none());
}

#[test]
fn file_fix_in_a_test_file_skips_every_unwrap() {
    let content = "#[cfg(test)]\nmod tests {\n    fn t() { x.unwrap(); }\n}";
    let vs = vec![violation(ViolationType::UnwrapInProduction, "t.rs", 3)];
    let fix = fix_file_content(content, &vs, false);
    assert_eq!(fix.fixed_count, 0);
    assert_eq!(fix.skipped_count, 1);
    assert!(fix.new_content.is_none());
}

#[test]
fn fix_run_over_files_counts_and_rewrites() {
    let a = "use anyhow::Result;\nfn p() -> Result<()> {\n    let x = f().unwrap();\n}\n".to_string();
    let groups = vec![
        ("a.rs".to_string(), vec![violation(ViolationType::UnwrapInProduction, "a.rs", 3)]),
        ("b.rs".to_string(), vec![violation(ViolationType::UnwrapInProduction, "b.rs", 1)]),
    ];
    let contents = vec![Some(a), None];
    let (stats, rewrites) = fix_files(&groups, &contents, false);
    assert_eq!((stats.total_fixed, stats.total_skipped, stats.files_modified), (1, 1, 1));
    assert_eq!(
        rewrites[0].as_deref(),
        Some("use anyhow::Result;\nfn p() -> Result<()> {\n    let x = f()?;\n}\n")
    );
    assert!(rewrites[1].is_none());
    let (dry, dry_rewrites) = fix_files(&groups, &contents, true);
    assert_eq!((dry.total_fixed, dry.files_modified), (1, 0));
    assert!(dry_rewrites.iter().all(|r| r.is_none()));
}
