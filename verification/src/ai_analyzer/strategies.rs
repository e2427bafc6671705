//! Strategies for fixing violations kind by kind, instructions for an automated agent, and
//! the patterns of a project's code.

use vstd::prelude::*;
use crate::ai_analyzer::types::{
    AIInstructions, ArchitecturalStyle, CodePatterns, ErrorPattern, FixComplexity, FixStrategy,
    InstructionsView, Pattern, PatternView, StrategyView, ViolationAnalysis,
};
use crate::text::{
    append_str, chars_of, contains, count_matches, count_occurrences, decimal, has_sub, strs,
    text, usize_to_string,
};
use crate::violation::{kind_name, ViolationType};

verus! {

/// The kinds among `ts`, each once, in the order they first appear.
pub open spec fn kinds_in_order(ts: Seq<ViolationType>) -> Seq<ViolationType>
    decreases ts.len(),
{
    if ts.len() == 0 {
        seq![]
    } else {
        let d = kinds_in_order(ts.drop_last());
        if d.contains(ts.last()) {
            d
        } else {
            d.push(ts.last())
        }
    }
}

/// How many of `ts` are `t`.
pub open spec fn kind_count(ts: Seq<ViolationType>, t: ViolationType) -> nat
    decreases ts.len(),
{
    if ts.len() == 0 {
        0
    } else {
        kind_count(ts.drop_last(), t) + if ts.last() == t {
            1nat
        } else {
            0nat
        }
    }
}

/// The kinds of the analysed violations, in order.
pub open spec fn kinds_of(analyses: Seq<ViolationAnalysis>) -> Seq<ViolationType> {
    analyses.map_values(|a: ViolationAnalysis| a.violation.violation_type)
}

/// The strategy for `count` violations of kind `t`.
pub open spec fn strategy_for(t: ViolationType, count: nat) -> StrategyView {
    match t {
        ViolationType::UnwrapInProduction => StrategyView {
            violation_type: t,
            strategy_name: "Replace unwrap with proper error handling"@,
            description: "Replace "@ + decimal(count)
                + " instances of .unwrap() with ? operator or proper error handling"@,
            implementation_steps: seq![
                "Identify function return type"@,
                "If Result type, replace .unwrap() with ?"@,
                "If not, change return type to Result"@,
                "Update function callers"@,
            ],
            estimated_effort: if count < 10 {
                "Low"@
            } else {
                "Medium"@
            },
            risk_level: "Low"@,
        },
        ViolationType::UnderscoreBandaid => StrategyView {
            violation_type: t,
            strategy_name: "Remove underscore prefixes"@,
            description: "Fix "@ + decimal(count) + " underscore parameter warnings properly"@,
            implementation_steps: seq![
                "Identify unused parameters"@,
                "Either use the parameter or remove it"@,
                "Update function signatures if needed"@,
            ],
            estimated_effort: "Low"@,
            risk_level: "Low"@,
        },
        ViolationType::FunctionTooLarge => StrategyView {
            violation_type: t,
            strategy_name: "Refactor large functions"@,
            description: "Break down "@ + decimal(count) + " large functions into smaller ones"@,
            implementation_steps: seq![
                "Identify logical sections"@,
                "Extract helper functions"@,
                "Improve code organization"@,
            ],
            estimated_effort: "High"@,
            risk_level: "Medium"@,
        },
        ViolationType::FileTooLarge => StrategyView {
            violation_type: t,
            strategy_name: "Split large files into modules"@,
            description: "Modularize "@ + decimal(count) + " large files"@,
            implementation_steps: seq![
                "Identify logical components"@,
                "Create module structure"@,
                "Move code to appropriate modules"@,
                "Update imports"@,
            ],
            estimated_effort: "High"@,
            risk_level: "Medium"@,
        },
        _ => StrategyView {
            violation_type: t,
            strategy_name: "Generic fix"@,
            description: "Fix "@ + decimal(count) + " violations"@,
            implementation_steps: seq!["Analyze violation"@, "Apply fix"@],
            estimated_effort: "Medium"@,
            risk_level: "Low"@,
        },
    }
}

/// `prefix`, the decimal `n`, then `suffix`.
fn counted(prefix: &str, n: usize, suffix: &str) -> (r: String)
    ensures
        r@ == prefix@ + decimal(n as nat) + suffix@,
{
    let mut r = text(prefix);
    let d = usize_to_string(n);
    append_str(&mut r, d.as_str());
    append_str(&mut r, suffix);
    r
}

/// The strategy for `count` violations of kind `violation_type`.
pub fn create_strategy(violation_type: ViolationType, count: usize) -> (r: FixStrategy)
    ensures
        r@ == strategy_for(violation_type, count as nat),
{
    match violation_type {
        ViolationType::UnwrapInProduction => {
            let steps = vec![
                text("Identify function return type"),
                text("If Result type, replace .unwrap() with ?"),
                text("If not, change return type to Result"),
                text("Update function callers"),
            ];
            assert(strs(steps@) =~= strategy_for(violation_type, count as nat).implementation_steps);
            FixStrategy {
                violation_type,
                strategy_name: text("Replace unwrap with proper error handling"),
                description: counted(
                    "Replace ",
                    count,
                    " instances of .unwrap() with ? operator or proper error handling",
                ),
                implementation_steps: steps,
                estimated_effort: if count < 10 {
                    text("Low")
                } else {
                    text("Medium")
                },
                risk_level: text("Low"),
            }
        },
        ViolationType::UnderscoreBandaid => {
            let steps = vec![
                text("Identify unused parameters"),
                text("Either use the parameter or remove it"),
                text("Update function signatures if needed"),
            ];
            assert(strs(steps@) =~= strategy_for(violation_type, count as nat).implementation_steps);
            FixStrategy {
                violation_type,
                strategy_name: text("Remove underscore prefixes"),
                description: counted("Fix ", count, " underscore parameter warnings properly"),
                implementation_steps: steps,
                estimated_effort: text("Low"),
                risk_level: text("Low"),
            }
        },
        ViolationType::FunctionTooLarge => {
            let steps = vec![
                text("Identify logical sections"),
                text("Extract helper functions"),
                text("Improve code organization"),
            ];
            assert(strs(steps@) =~= strategy_for(violation_type, count as nat).implementation_steps);
            FixStrategy {
                violation_type,
                strategy_name: text("Refactor large functions"),
                description: counted("Break down ", count, " large functions into smaller ones"),
                implementation_steps: steps,
                estimated_effort: text("High"),
                risk_level: text("Medium"),
            }
        },
        ViolationType::FileTooLarge => {
            let steps = vec![
                text("Identify logical components"),
                text("Create module structure"),
                text("Move code to appropriate modules"),
                text("Update imports"),
            ];
            assert(strs(steps@) =~= strategy_for(violation_type, count as nat).implementation_steps);
            FixStrategy {
                violation_type,
                strategy_name: text("Split large files into modules"),
                description: counted("Modularize ", count, " large files"),
                implementation_steps: steps,
                estimated_effort: text("High"),
                risk_level: text("Medium"),
            }
        },
        _ => {
            let steps = vec![text("Analyze violation"), text("Apply fix")];
            assert(strs(steps@) =~= strategy_for(violation_type, count as nat).implementation_steps);
            FixStrategy {
                violation_type,
                strategy_name: text("Generic fix"),
                description: counted("Fix ", count, " violations"),
                implementation_steps: steps,
                estimated_effort: text("Medium"),
                risk_level: text("Low"),
            }
        },
    }
}

/// The strategies for the analysed violations: one per kind, in the order the kinds first
/// appear, each for the number of violations of its kind.
pub open spec fn strategies_for(analyses: Seq<ViolationAnalysis>, r: Seq<StrategyView>) -> bool {
    let ts = kinds_of(analyses);
    &&& r.len() == kinds_in_order(ts).len()
    &&& forall|j: int|
        0 <= j < r.len() ==> #[trigger] r[j] == strategy_for(
            kinds_in_order(ts)[j],
            kind_count(ts, kinds_in_order(ts)[j]),
        )
}

proof fn lemma_kinds_distinct(ts: Seq<ViolationType>)
    ensures
        forall|a: int, b: int|
            0 <= a < b < kinds_in_order(ts).len() ==> kinds_in_order(ts)[a] != kinds_in_order(
                ts,
            )[b],
    decreases ts.len(),
{
    if ts.len() > 0 {
        lemma_kinds_distinct(ts.drop_last());
        let d = kinds_in_order(ts.drop_last());
        if !d.contains(ts.last()) {
            assert forall|a: int, b: int|
                0 <= a < b < kinds_in_order(ts).len() implies kinds_in_order(ts)[a]
                != kinds_in_order(ts)[b] by {
                if b == d.len() {
                    assert(kinds_in_order(ts)[a] == d[a]);
                }
            }
        }
    }
}

proof fn lemma_count_absent(ts: Seq<ViolationType>, t: ViolationType)
    requires
        !kinds_in_order(ts).contains(t),
    ensures
        kind_count(ts, t) == 0,
    decreases ts.len(),
{
    if ts.len() > 0 {
        let d = kinds_in_order(ts.drop_last());
        assert(!d.contains(t)) by {
            if d.contains(t) {
                let m = choose|m: int| 0 <= m < d.len() && d[m] == t;
                assert(kinds_in_order(ts)[m] == t);
            }
        }
        lemma_count_absent(ts.drop_last(), t);
        if ts.last() == t {
            assert(kinds_in_order(ts)[d.len() as int] == t);
        }
    }
}

proof fn lemma_count_bound(ts: Seq<ViolationType>, t: ViolationType)
    ensures
        kind_count(ts, t) <= ts.len(),
    decreases ts.len(),
{
    if ts.len() > 0 {
        lemma_count_bound(ts.drop_last(), t);
    }
}

/// The index of `t` in `kinds`, if it is there.
fn position_of_kind(kinds: &Vec<ViolationType>, t: ViolationType) -> (r: Option<usize>)
    ensures
        match r {
            Some(j) => j < kinds.len() && kinds@[j as int] == t,
            None => forall|m: int| 0 <= m < kinds.len() ==> kinds@[m] != t,
        },
{
    let mut j: usize = 0;
    while j < kinds.len()
        invariant
            j <= kinds.len(),
            forall|m: int| 0 <= m < j ==> kinds@[m] != t,
        decreases kinds.len() - j,
    {
        if kinds[j] == t {
            return Some(j);
        }
        j = j + 1;
    }
    None
}

/// The kinds among `ts`, each once in the order they first appear, and how many of each.
pub fn tally_kinds(ts: &[ViolationType]) -> (r: (Vec<ViolationType>, Vec<usize>))
    ensures
        r.0@ == kinds_in_order(ts@),
        r.0.len() == r.1.len(),
        forall|j: int| 0 <= j < r.1.len() ==> #[trigger] r.1@[j] == kind_count(ts@, r.0@[j]),
{
    let mut kinds: Vec<ViolationType> = Vec::new();
    let mut counts: Vec<usize> = Vec::new();
    let mut i: usize = 0;
    while i < ts.len()
        invariant
            i <= ts.len(),
            kinds.len() == counts.len(),
            kinds@ == kinds_in_order(ts@.take(i as int)),
            forall|j: int|
                0 <= j < counts.len() ==> #[trigger] counts@[j] == kind_count(
                    ts@.take(i as int),
                    kinds@[j],
                ),
        decreases ts.len() - i,
    {
        let t = ts[i];
        let ghost s = ts@.take(i as int);
        let ghost s1 = ts@.take(i + 1);
        proof {
            assert(s1.drop_last() =~= s);
            assert(s1.last() == t);
            lemma_kinds_distinct(s);
        }
        let found = position_of_kind(&kinds, t);
        if let Some(j) = found {
            proof {
                lemma_count_bound(s, t);
                assert(kinds_in_order(s).contains(t)) by {
                    assert(kinds@[j as int] == t);
                }
                assert(counts@[j as int] == kind_count(s, kinds@[j as int]));
            }
            let ghost old_counts = counts@;
            counts.set(j, counts[j] + 1);
            proof {
                assert forall|m: int| 0 <= m < counts.len() implies #[trigger] counts@[m]
                    == kind_count(s1, kinds@[m]) by {
                    if m != j {
                        assert(counts@[m] == old_counts[m]);
                        assert(kinds@[m] != kinds@[j as int]);
                    }
                }
            }
        } else {
            proof {
                assert(!kinds_in_order(s).contains(t));
                lemma_count_absent(s, t);
            }
            kinds.push(t);
            counts.push(1);
            proof {
                assert forall|m: int| 0 <= m < counts.len() implies #[trigger] counts@[m]
                    == kind_count(s1, kinds@[m]) by {
                    if m < counts.len() - 1 {
                        assert(kinds@[m] != t);
                    }
                }
            }
        }
        i = i + 1;
    }
    assert(ts@.take(ts.len() as int) =~= ts@);
    (kinds, counts)
}

/// Generate fix strategies from violation analyses
pub fn generate_fix_strategies(analyses: &[ViolationAnalysis]) -> (r: Vec<FixStrategy>)
    ensures
        strategies_for(analyses@, r@.map_values(|s: FixStrategy| s@)),
{
    let ghost ts = kinds_of(analyses@);
    let mut types: Vec<ViolationType> = Vec::new();
    let mut i: usize = 0;
    while i < analyses.len()
        invariant
            i <= analyses.len(),
            ts == kinds_of(analyses@),
            types@ == ts.take(i as int),
        decreases analyses.len() - i,
    {
        types.push(analyses[i].violation.violation_type);
        assert(types@ =~= ts.take(i + 1));
        i = i + 1;
    }
    assert(ts.take(analyses.len() as int) =~= ts);
    let (kinds, counts) = tally_kinds(types.as_slice());
    let mut strategies: Vec<FixStrategy> = Vec::new();
    let mut k: usize = 0;
    while k < kinds.len()
        invariant
            k <= kinds.len(),
            kinds.len() == counts.len(),
            kinds@ == kinds_in_order(ts),
            forall|j: int| 0 <= j < counts.len() ==> #[trigger] counts@[j] == kind_count(ts, kinds@[j]),
            strategies.len() == k,
            forall|j: int|
                0 <= j < k ==> #[trigger] strategies@[j]@ == strategy_for(
                    kinds@[j],
                    kind_count(ts, kinds@[j]),
                ),
        decreases kinds.len() - k,
    {
        strategies.push(create_strategy(kinds[k], counts[k]));
        k = k + 1;
    }
    strategies
}

/// The line describing a fix for an automated agent.
pub open spec fn fix_note(a: ViolationAnalysis) -> Seq<char> {
    "Fix "@ + kind_name(a.violation.violation_type) + " at "@ + a.violation.file@ + ":"@
        + decimal(a.violation.line as nat) + " (confidence: "@ + decimal(
        a.confidence_percent as nat,
    ) + "%)"@
}

/// The notes for the fixable analyses of complexity `c`, in order.
pub open spec fn notes_of(analyses: Seq<ViolationAnalysis>, c: FixComplexity) -> Seq<Seq<char>> {
    analyses.filter(|a: ViolationAnalysis| a.ai_fixable && a.fix_complexity == c).map_values(
        |a: ViolationAnalysis| fix_note(a),
    )
}

/// The number of fixable analyses.
pub open spec fn fixable_count(analyses: Seq<ViolationAnalysis>) -> nat {
    analyses.filter(|a: ViolationAnalysis| a.ai_fixable).len()
}

/// The agent instructions for the analyses.
pub open spec fn instructions_for(analyses: Seq<ViolationAnalysis>) -> InstructionsView {
    InstructionsView {
        summary: "Analyzed "@ + decimal(analyses.len()) + " violations. "@ + decimal(
            fixable_count(analyses),
        ) + " are AI-fixable with varying complexity."@,
        prioritized_fixes: notes_of(analyses, FixComplexity::Trivial) + notes_of(
            analyses,
            FixComplexity::Simple,
        ) + notes_of(analyses, FixComplexity::Moderate),
        architectural_recommendations: seq![
            "Consider adopting consistent error handling patterns"@,
            "Modularize large files to improve maintainability"@,
            "Extract complex logic into well-tested utility functions"@,
        ],
        code_quality_improvements: seq![
            "Add comprehensive documentation"@,
            "Increase test coverage"@,
            "Implement CI/CD checks for code standards"@,
        ],
    }
}

/// The line describing a fix for an automated agent.
fn fix_note_text(a: &ViolationAnalysis) -> (r: String)
    ensures
        r@ == fix_note(*a),
{
    let mut r = text("Fix ");
    let k = a.violation.violation_type.name();
    append_str(&mut r, k.as_str());
    append_str(&mut r, " at ");
    append_str(&mut r, a.violation.file.as_str());
    append_str(&mut r, ":");
    let l = usize_to_string(a.violation.line);
    append_str(&mut r, l.as_str());
    append_str(&mut r, " (confidence: ");
    let p = usize_to_string(a.confidence_percent as usize);
    append_str(&mut r, p.as_str());
    append_str(&mut r, "%)");
    r
}

/// Appends the strings of `b` to `a`.
fn extend_strings(a: &mut Vec<String>, b: Vec<String>)
    ensures
        strs(final(a)@) == strs(old(a)@) + strs(b@),
{
    let mut b = b;
    let ghost start = strs(a@);
    let ghost whole = strs(b@);
    while b.len() > 0
        invariant
            strs(a@) + strs(b@) == start + whole,
        decreases b.len(),
    {
        let ghost sa = strs(a@);
        let ghost sb = strs(b@);
        let x = b.remove(0);
        assert(sb =~= seq![x@] + strs(b@));
        a.push(x);
        assert(strs(a@) =~= sa.push(x@));
        assert(strs(a@) + strs(b@) =~= sa + sb);
    }
    assert(strs(b@) =~= Seq::<Seq<char>>::empty());
    assert(strs(a@) =~= start + whole);
}

/// Generate AI instructions for fixing violations
pub fn generate_ai_instructions(analyses: &[ViolationAnalysis], strategies: &[FixStrategy]) -> (r:
    AIInstructions)
    ensures
        r@ == instructions_for(analyses@),
{
    let ghost fx = |a: ViolationAnalysis| a.ai_fixable;
    let ghost pt = |a: ViolationAnalysis| a.ai_fixable && a.fix_complexity == FixComplexity::Trivial;
    let ghost ps = |a: ViolationAnalysis| a.ai_fixable && a.fix_complexity == FixComplexity::Simple;
    let ghost pm = |a: ViolationAnalysis| a.ai_fixable && a.fix_complexity == FixComplexity::Moderate;
    let ghost note = |a: ViolationAnalysis| fix_note(a);
    let mut fixable: usize = 0;
    let mut trivial_fixes: Vec<String> = Vec::new();
    let mut simple_fixes: Vec<String> = Vec::new();
    let mut moderate_fixes: Vec<String> = Vec::new();
    let mut i: usize = 0;
    while i < analyses.len()
        invariant
            i <= analyses.len(),
            fx == (|a: ViolationAnalysis| a.ai_fixable),
            pt == (|a: ViolationAnalysis| a.ai_fixable && a.fix_complexity == FixComplexity::Trivial),
            ps == (|a: ViolationAnalysis| a.ai_fixable && a.fix_complexity == FixComplexity::Simple),
            pm == (|a: ViolationAnalysis| a.ai_fixable && a.fix_complexity == FixComplexity::Moderate),
            note == (|a: ViolationAnalysis| fix_note(a)),
            fixable == analyses@.take(i as int).filter(fx).len(),
            fixable <= i,
            strs(trivial_fixes@) == analyses@.take(i as int).filter(pt).map_values(note),
            strs(simple_fixes@) == analyses@.take(i as int).filter(ps).map_values(note),
            strs(moderate_fixes@) == analyses@.take(i as int).filter(pm).map_values(note),
        decreases analyses.len() - i,
    {
        let a = &analyses[i];
        let ghost s = analyses@.take(i as int);
        let ghost s1 = analyses@.take(i + 1);
        proof {
            reveal(Seq::filter);
            assert(s1.drop_last() =~= s);
            assert(s1.last() == *a);
            assert(s.filter(fx).len() <= s.len()) by {
                s.lemma_filter_len(fx);
            }
        }
        if a.ai_fixable {
            fixable = fixable + 1;
            let d = fix_note_text(a);
            match a.fix_complexity {
                FixComplexity::Trivial => {
                    let ghost before = strs(trivial_fixes@);
                    trivial_fixes.push(d);
                    assert(strs(trivial_fixes@) =~= before.push(fix_note(*a)));
                    assert(s1.filter(pt).map_values(note) =~= s.filter(pt).map_values(note).push(
                        fix_note(*a),
                    ));
                    assert(s1.filter(ps) == s.filter(ps));
                    assert(s1.filter(pm) == s.filter(pm));
                },
                FixComplexity::Simple => {
                    let ghost before = strs(simple_fixes@);
                    simple_fixes.push(d);
                    assert(strs(simple_fixes@) =~= before.push(fix_note(*a)));
                    assert(s1.filter(ps).map_values(note) =~= s.filter(ps).map_values(note).push(
                        fix_note(*a),
                    ));
                    assert(s1.filter(pt) == s.filter(pt));
                    assert(s1.filter(pm) == s.filter(pm));
                },
                FixComplexity::Moderate => {
                    let ghost before = strs(moderate_fixes@);
                    moderate_fixes.push(d);
                    assert(strs(moderate_fixes@) =~= before.push(fix_note(*a)));
                    assert(s1.filter(pm).map_values(note) =~= s.filter(pm).map_values(note).push(
                        fix_note(*a),
                    ));
                    assert(s1.filter(pt) == s.filter(pt));
                    assert(s1.filter(ps) == s.filter(ps));
                },
                _ => {
                    assert(s1.filter(pt) == s.filter(pt));
                    assert(s1.filter(ps) == s.filter(ps));
                    assert(s1.filter(pm) == s.filter(pm));
                },
            }
        } else {
            assert(s1.filter(pt) == s.filter(pt));
            assert(s1.filter(ps) == s.filter(ps));
            assert(s1.filter(pm) == s.filter(pm));
        }
        i = i + 1;
    }
    assert(analyses@.take(analyses.len() as int) =~= analyses@);
    let summary = {
        let mut s = counted("Analyzed ", analyses.len(), " violations. ");
        let f = counted("", fixable, " are AI-fixable with varying complexity.");
        append_str(&mut s, f.as_str());
        s
    };
    proof {
        reveal_strlit("");
        assert(""@ =~= Seq::<char>::empty());
    }
    let mut prioritized_fixes: Vec<String> = Vec::new();
    extend_strings(&mut prioritized_fixes, trivial_fixes);
    extend_strings(&mut prioritized_fixes, simple_fixes);
    extend_strings(&mut prioritized_fixes, moderate_fixes);
    let architectural_recommendations = vec![
        text("Consider adopting consistent error handling patterns"),
        text("Modularize large files to improve maintainability"),
        text("Extract complex logic into well-tested utility functions"),
    ];
    let code_quality_improvements = vec![
        text("Add comprehensive documentation"),
        text("Increase test coverage"),
        text("Implement CI/CD checks for code standards"),
    ];
    let r = AIInstructions {
        summary,
        prioritized_fixes,
        architectural_recommendations,
        code_quality_improvements,
    };
    assert(r@.summary =~= instructions_for(analyses@).summary);
    assert(r@.prioritized_fixes =~= instructions_for(analyses@).prioritized_fixes);
    assert(r@.architectural_recommendations =~= instructions_for(
        analyses@,
    ).architectural_recommendations);
    assert(r@.code_quality_improvements =~= instructions_for(analyses@).code_quality_improvements);
    r
}

/// The overall structure of a project with this code.
pub open spec fn architectural_style(content: Seq<char>) -> ArchitecturalStyle {
    if has_sub(content, "mod "@) && count_matches(content, "mod "@) > 5 {
        ArchitecturalStyle::Modular
    } else if has_sub(content, "async fn"@) && has_sub(content, "tokio"@) {
        ArchitecturalStyle::EventDriven
    } else if has_sub(content, "layer"@) || has_sub(content, "Layer"@) {
        ArchitecturalStyle::Layered
    } else {
        ArchitecturalStyle::Unknown
    }
}

/// The error-handling habits found in the code, in a fixed order.
pub open spec fn error_patterns(content: Seq<char>) -> Seq<ErrorPattern> {
    let a = if has_sub(content, ".unwrap()"@) {
        seq![ErrorPattern::UnwrapUsage]
    } else {
        seq![]
    };
    let b = if has_sub(content, ".expect("@) {
        a.push(ErrorPattern::ExpectUsage)
    } else {
        a
    };
    let c = if has_sub(content, "panic!"@) {
        b.push(ErrorPattern::PanicUsage)
    } else {
        b
    };
    let d = if has_sub(content, "let _ ="@) {
        c.push(ErrorPattern::IgnoredError)
    } else {
        c
    };
    if has_sub(content, "?"@) {
        d.push(ErrorPattern::PropagatedError)
    } else {
        d
    }
}

/// The design patterns found in the code: builders, then factories, each when it occurs.
pub open spec fn common_patterns(content: Seq<char>) -> Seq<PatternView> {
    let builders = count_matches(content, "Builder"@);
    let factories = count_matches(content, "Factory"@) + count_matches(content, "::new("@);
    let a = if builders > 0 {
        seq![PatternView { name: "Builder Pattern"@, occurrences: builders as usize, locations: seq![] }]
    } else {
        seq![]
    };
    if factories > 0 {
        a.push(PatternView { name: "Factory Pattern"@, occurrences: factories as usize, locations: seq![] })
    } else {
        a
    }
}

/// The overall structure of a project with this code.
pub fn detect_architectural_style(content: &str) -> (r: ArchitecturalStyle)
    ensures
        r == architectural_style(content@),
{
    let c = chars_of(content);
    let c = c.as_slice();
    let m = chars_of("mod ");
    proof {
        reveal_strlit("mod ");
        assert("mod "@.len() > 0);
    }
    if contains(c, m.as_slice()) && count_occurrences(c, m.as_slice()) > 5 {
        ArchitecturalStyle::Modular
    } else if contains(c, chars_of("async fn").as_slice()) && contains(
        c,
        chars_of("tokio").as_slice(),
    ) {
        ArchitecturalStyle::EventDriven
    } else if contains(c, chars_of("layer").as_slice()) || contains(
        c,
        chars_of("Layer").as_slice(),
    ) {
        ArchitecturalStyle::Layered
    } else {
        ArchitecturalStyle::Unknown
    }
}

/// The error-handling habits found in the code.
pub fn detect_error_patterns(content: &str) -> (r: Vec<ErrorPattern>)
    ensures
        r@ == error_patterns(content@),
{
    let c = chars_of(content);
    let c = c.as_slice();
    let mut patterns: Vec<ErrorPattern> = Vec::new();
    if contains(c, chars_of(".unwrap()").as_slice()) {
        patterns.push(ErrorPattern::UnwrapUsage);
    }
    if contains(c, chars_of(".expect(").as_slice()) {
        patterns.push(ErrorPattern::ExpectUsage);
    }
    if contains(c, chars_of("panic!").as_slice()) {
        patterns.push(ErrorPattern::PanicUsage);
    }
    if contains(c, chars_of("let _ =").as_slice()) {
        patterns.push(ErrorPattern::IgnoredError);
    }
    if contains(c, chars_of("?").as_slice()) {
        patterns.push(ErrorPattern::PropagatedError);
    }
    assert(patterns@ =~= error_patterns(content@));
    patterns
}

/// The design patterns found in the code.
pub fn detect_common_patterns(content: &str) -> (r: Vec<Pattern>)
    requires
        content@.len() <= isize::MAX,
    ensures
        r@.map_values(|p: Pattern| p@) == common_patterns(content@),
{
    let c = chars_of(content);
    let c = c.as_slice();
    proof {
        reveal_strlit("Builder");
        reveal_strlit("Factory");
        reveal_strlit("::new(");
        assert("Builder"@.len() > 0);
        assert("Factory"@.len() > 0);
        assert("::new("@.len() > 0);
    }
    let mut patterns: Vec<Pattern> = Vec::new();
    let builder_count = count_occurrences(c, chars_of("Builder").as_slice());
    if builder_count > 0 {
        let locations: Vec<String> = Vec::new();
        assert(strs(locations@) =~= Seq::<Seq<char>>::empty());
        patterns.push(
            Pattern { name: text("Builder Pattern"), occurrences: builder_count, locations },
        );
    }
    let factory_count = count_occurrences(c, chars_of("Factory").as_slice()) + count_occurrences(
        c,
        chars_of("::new(").as_slice(),
    );
    if factory_count > 0 {
        let locations: Vec<String> = Vec::new();
        assert(strs(locations@) =~= Seq::<Seq<char>>::empty());
        patterns.push(
            Pattern { name: text("Factory Pattern"), occurrences: factory_count, locations },
        );
    }
    proof {
        assert(builder_count as nat == count_matches(content@, "Builder"@));
        assert(factory_count as nat == count_matches(content@, "Factory"@) + count_matches(content@, "::new("@));
    }
    assert(patterns@.map_values(|p: Pattern| p@) =~= common_patterns(content@));
    patterns
}

/// The patterns of a project's code.
pub open spec fn code_patterns_of(content: Seq<char>) -> (ArchitecturalStyle, Seq<ErrorPattern>, Seq<PatternView>) {
    (architectural_style(content), error_patterns(content), common_patterns(content))
}

/// Identify code patterns in the given content
pub fn identify_code_patterns(content: &str) -> (r: CodePatterns)
    requires
        content@.len() <= isize::MAX,
    ensures
        (r.architectural_style, r.error_patterns@, r.common_patterns@.map_values(|p: Pattern| p@))
            == code_patterns_of(content@),
{
    let architectural_style = detect_architectural_style(content);
    let error_patterns = detect_error_patterns(content);
    let common_patterns = detect_common_patterns(content);
    CodePatterns { architectural_style, error_patterns, common_patterns }
}

} // verus!
