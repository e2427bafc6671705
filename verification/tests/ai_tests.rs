use ferrous_forge::ai_analyzer::analyzer::{
    can_analyze, needs_source, orchestrator_instructions, AIAnalyzer,
};
use ferrous_forge::error::ErrorKind;
use ferrous_forge::ai_analyzer::context::{
    detect_error_handling_style, detect_trait_impl, extract_code_context, extract_imports,
};
use ferrous_forge::ai_analyzer::semantic::{
    assess_fix_complexity, extract_variable_name, perform_semantic_analysis,
};
use ferrous_forge::ai_analyzer::strategies::{
    create_strategy, detect_architectural_style, detect_common_patterns, detect_error_patterns,
    generate_ai_instructions, generate_fix_strategies, identify_code_patterns,
};
use ferrous_forge::ai_analyzer::types::{
    ArchitecturalStyle, ErrorHandlingStyle, ErrorPattern, FixComplexity,
};
use ferrous_forge::violation::{Severity, Violation, ViolationType};

fn violation(t: ViolationType, file: &str, line: usize) -> Violation {
    Violation {
        violation_type: t,
        file: file.to_string(),
        line,
        message: String::new(),
        severity: Severity::Error,
    }
}

#[test]
fn test_error_handling_detection() {
    let imports = vec!["use anyhow::Result;".to_string()];
    let content = "fn main() -> Result<()> { Ok(()) }";
    let style = detect_error_handling_style(&imports, content);
    assert!(matches!(style, ErrorHandlingStyle::AnyhowResult));
}

#[test]
fn error_styles_in_order() {
    assert_eq!(detect_error_handling_style(&[], "type R = Result<u8, E>;"), ErrorHandlingStyle::CustomResult);
    assert_eq!(
        detect_error_handling_style(&[], "fn f() -> std::result::Result<u8, E>"),
        ErrorHandlingStyle::StdResult
    );
    assert_eq!(detect_error_handling_style(&[], "fn f() -> Option<u8>"), ErrorHandlingStyle::OptionBased);
    assert_eq!(detect_error_handling_style(&[], "x.unwrap()"), ErrorHandlingStyle::Panic);
    assert_eq!(detect_error_handling_style(&[], "fn f() {}"), ErrorHandlingStyle::Unknown);
}

#[test]
fn code_context_finds_function_and_trait() {
    let content = "use std::fmt;\nuse serde::Serialize;\nimpl fmt::Display for X {\n    pub async fn show<T>(&self) -> Result<u8, E> {\n        let v = x.unwrap();\n    }\n}\n";
    let ctx = extract_code_context(5, content);
    assert_eq!(ctx.function_name, Some("show<T>".to_string()));
    assert_eq!(
        ctx.function_signature,
        Some("pub async fn show<T>(&self) -> Result<u8, E> {".to_string())
    );
    assert_eq!(ctx.return_type, Some("Result<u8, E> {".to_string()));
    assert!(ctx.is_async);
    assert!(ctx.is_generic);
    assert_eq!(ctx.trait_impl, Some("impl fmt::Display for X {".to_string()));
    assert_eq!(ctx.imports, vec!["use std::fmt;".to_string(), "use serde::Serialize;".to_string()]);
    assert_eq!(ctx.surrounding_code.len(), 7);
    assert_eq!(ctx.error_handling_style, ErrorHandlingStyle::CustomResult);
    assert_eq!(extract_imports("  use a;\nfn f() {}\n"), vec!["  use a;".to_string()]);
    assert_eq!(detect_trait_impl(content, 2), None);
}

#[test]
fn semantic_analysis_of_an_unwrap() {
    let content = "fn f() -> Result<u8, E> {\n    let v = g().unwrap();\n    if v > 0 {\n        let v = 1;\n    }\n}\n";
    let v = violation(ViolationType::UnwrapInProduction, "lib.rs", 2);
    let ctx = extract_code_context(2, content);
    let sem = perform_semantic_analysis(&v, &ctx, content);
    assert_eq!(sem.actual_type, None);
    assert_eq!(sem.expected_type, Some("Result or Option".to_string()));
    assert_eq!(
        sem.data_flow,
        vec!["Line 2: Variable 'v' used".to_string(), "Line 4: Variable 'v' used".to_string()]
    );
    assert_eq!(sem.control_flow, vec!["Line 3: Control flow statement".to_string()]);
    assert_eq!(sem.error_propagation, vec!["Line 2: Error handling point".to_string()]);
    // The `<` of `Result<..>` makes the signature count as generic.
    assert_eq!(sem.dependencies, vec!["Generic constraints".to_string()]);
    assert_eq!(assess_fix_complexity(&v, &ctx, &sem), FixComplexity::Simple);
    assert_eq!(extract_variable_name(&"let x = 5".chars().collect::<Vec<char>>()), Some("x".to_string()));
}

#[test]
fn single_violation_analysis_and_report() {
    let content = "fn f() -> Result {\n    let v = g().unwrap();\n}\n";
    let analyzer = AIAnalyzer::new("proj".to_string());
    let v = violation(ViolationType::UnwrapInProduction, "lib.rs", 2);
    assert!(needs_source(&v));
    let a = analyzer.analyze_single_violation(&v, content);
    assert!(a.ai_fixable);
    assert_eq!(a.confidence_percent, 95);
    assert_eq!(a.fix_complexity, FixComplexity::Trivial);
    assert_eq!(a.fix_recommendation, Some("Replace ? with ? operator".to_string()));
    assert!(a.side_effects.is_empty());

    let locked = violation(ViolationType::WrongEdition, "Cargo.toml", 1);
    assert!(!needs_source(&locked));
    let la = analyzer.analyze_single_violation(&locked, "");
    assert!(!la.ai_fixable);
    assert_eq!(la.confidence_percent, 0);
    assert_eq!(la.fix_complexity, FixComplexity::Architectural);

    let patterns = identify_code_patterns("mod a; mod b;");
    let report = analyzer.build_report(2, vec![a, la], patterns);
    assert_eq!(report.metadata.total_violations, 2);
    assert_eq!(report.metadata.analyzable_violations, 1);
    assert_eq!(report.metadata.project_path, "proj");
    assert_eq!(report.fix_strategies.len(), 2);
    assert_eq!(
        report.ai_instructions.summary,
        "Analyzed 2 violations. 1 are AI-fixable with varying complexity."
    );
    assert_eq!(
        report.ai_instructions.prioritized_fixes,
        vec!["Fix UnwrapInProduction at lib.rs:2 (confidence: 95%)".to_string()]
    );
    let text = orchestrator_instructions(&report);
    assert!(text.starts_with("# AI Orchestrator Instructions\n\n## Locked Settings (DO NOT MODIFY)"));
    assert!(text.contains("| edition | Cargo.toml | .ferrous-forge/config.toml |\n"));
    assert!(text.contains("## Prioritized Fixes\n- Fix UnwrapInProduction at lib.rs:2 (confidence: 95%)\n"));
}

#[test]
fn strategies_count_each_kind() {
    let s = create_strategy(ViolationType::UnwrapInProduction, 12);
    assert_eq!(
        s.description,
        "Replace 12 instances of .unwrap() with ? operator or proper error handling"
    );
    assert_eq!(s.estimated_effort, "Medium");
    assert_eq!(create_strategy(ViolationType::UnwrapInProduction, 3).estimated_effort, "Low");
    assert_eq!(create_strategy(ViolationType::MissingDocs, 4).description, "Fix 4 violations");
    let analyzer = AIAnalyzer::new("p".to_string());
    let a = analyzer.analyze_single_violation(&violation(ViolationType::FileTooLarge, "a.rs", 1), "x\n");
    let b = analyzer.analyze_single_violation(&violation(ViolationType::FileTooLarge, "b.rs", 1), "x\n");
    let strategies = generate_fix_strategies(&[a, b]);
    assert_eq!(strategies.len(), 1);
    assert_eq!(strategies[0].description, "Modularize 2 large files");
    let instructions = generate_ai_instructions(&[], &strategies);
    assert_eq!(instructions.summary, "Analyzed 0 violations. 0 are AI-fixable with varying complexity.");
    assert_eq!(instructions.architectural_recommendations.len(), 3);
}

#[test]
fn code_patterns() {
    let modular = "mod a;\nmod b;\nmod c;\nmod d;\nmod e;\nmod f;\n";
    assert_eq!(detect_architectural_style(modular), ArchitecturalStyle::Modular);
    assert_eq!(detect_architectural_style("async fn f() {} // tokio"), ArchitecturalStyle::EventDriven);
    assert_eq!(detect_architectural_style("struct DataLayer;"), ArchitecturalStyle::Layered);
    assert_eq!(detect_architectural_style("mod a;"), ArchitecturalStyle::Unknown);
    assert_eq!(
        detect_error_patterns("x.unwrap(); y?; let _ = z; panic!()"),
        vec![
            ErrorPattern::UnwrapUsage,
            ErrorPattern::PanicUsage,
            ErrorPattern::IgnoredError,
            ErrorPattern::PropagatedError
        ]
    );
    let p = detect_common_patterns("FooBuilder::new() Builder Factory");
    assert_eq!(p.len(), 2);
    assert_eq!(p[0].name, "Builder Pattern");
    assert_eq!(p[0].occurrences, 2);
    assert_eq!(p[1].name, "Factory Pattern");
    assert_eq!(p[1].occurrences, 2);
}

#[test]
fn report_keeps_each_violation_in_order() {
    let analyzer = AIAnalyzer::new("proj".to_string());
    let vs = vec![
        violation(ViolationType::WrongEdition, "Cargo.toml", 1),
        violation(ViolationType::UnwrapInProduction, "lib.rs", 2),
        violation(ViolationType::OldRustVersion, "Cargo.toml", 2),
    ];
    let contents = vec![None, Some("fn f() -> Result {\n    let v = g().unwrap();\n}\n".to_string()), None];
    for (v, c) in vs.iter().zip(contents.iter()) {
        assert!(can_analyze(v, c.as_deref().unwrap_or("")));
    }
    let report = analyzer
        .analyze_violations(&vs, &contents, identify_code_patterns(""))
        .expect("all sources read");
    assert_eq!(report.metadata.total_violations, 3);
    assert_eq!(report.violation_analyses.len(), 3);
    assert_eq!(report.violation_analyses[0].violation.violation_type, ViolationType::WrongEdition);
    assert!(!report.violation_analyses[0].ai_fixable);
    assert_eq!(report.violation_analyses[0].confidence_percent, 0);
    assert_eq!(report.violation_analyses[1].violation.line, 2);
    assert!(report.violation_analyses[1].ai_fixable);
    assert_eq!(report.violation_analyses[2].violation.violation_type, ViolationType::OldRustVersion);
    assert_eq!(report.metadata.analyzable_violations, 1);
}

#[test]
fn report_fails_on_an_unreadable_source() {
    let analyzer = AIAnalyzer::new("proj".to_string());
    let vs = vec![
        violation(ViolationType::WrongEdition, "Cargo.toml", 1),
        violation(ViolationType::UnwrapInProduction, "missing.rs", 2),
        violation(ViolationType::UnwrapInProduction, "gone.rs", 3),
    ];
    let contents = vec![None, None, None];
    let e = analyzer
        .analyze_violations(&vs, &contents, identify_code_patterns(""))
        .expect_err("missing.rs could not be read");
    assert_eq!(e.kind, ErrorKind::Validation);
    assert_eq!(e.message, "Failed to read source file: missing.rs");
}

#[test]
fn analysis_needs_the_line_within_reach_of_the_file() {
    let v = violation(ViolationType::UnwrapInProduction, "lib.rs", 40);
    assert!(!can_analyze(&v, "a\nb\n"));
    assert!(can_analyze(&violation(ViolationType::UnwrapInProduction, "lib.rs", 2), "a\nb\n"));
    assert!(can_analyze(&violation(ViolationType::WrongEdition, "Cargo.toml", 400), ""));
}
