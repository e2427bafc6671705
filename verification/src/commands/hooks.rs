//! Git hooks of the safety pipeline: the scripts installed, how an installed hook is
//! recognised, and the status shown for a project.

use vstd::prelude::*;
use crate::text::{append_str, chars_of, contains, has_sub, starts_with, text};

verus! {

/// The pre-commit hook script: it blocks commits that fail validation or clippy.
pub const PRE_COMMIT_HOOK: &'static str = r#"#!/bin/bash
# Ferrous Forge Mandatory Safety Pipeline - Pre-Commit Hook
# @task T017 @epic T014
# 
# This hook BLOCKS commits if safety checks fail.
# Use 'ferrous-forge safety bypass --stage=pre-commit --reason="..."' to bypass.

set -e

echo ""
echo "🛡️  Ferrous Forge Safety Pipeline - Pre-Commit"
echo "═══════════════════════════════════════════════════"

# Check if ferrous-forge is installed
if ! command -v ferrous-forge >/dev/null 2>&1; then
    echo ""
    echo "⚠️  Ferrous Forge not found in PATH"
    echo "   Install with: cargo install ferrous-forge"
    echo "   Skipping safety checks..."
    exit 0
fi

# Check for active bypass
BYPASS_CHECK=$(ferrous-forge safety check-bypass --stage=pre-commit 2>/dev/null || echo "none")
if [ "$BYPASS_CHECK" = "active" ]; then
    echo ""
    echo "⚠️  Safety checks bypassed (active bypass found)"
    exit 0
fi

# Run Ferrous Forge validation
echo ""
echo "🔍 Running mandatory validation checks..."
echo ""

if ! ferrous-forge validate --quiet 2>&1; then
    echo ""
    echo "═══════════════════════════════════════════════════"
    echo "🛡️  FERROUS FORGE BLOCKED COMMIT"
    echo "═══════════════════════════════════════════════════"
    echo ""
    echo "Validation failed. Fix the issues above before committing."
    echo ""
    echo "How to fix:"
    echo "  1. Run 'ferrous-forge validate' to see all errors"
    echo "  2. Fix the reported violations"
    echo "  3. Try committing again"
    echo ""
    echo "To bypass (requires reason):"
    echo "  ferrous-forge safety bypass --stage=pre-commit --reason=\"WIP commit\""
    echo ""
    echo "To bypass for this commit only:"
    echo "  git commit --no-verify"
    echo ""
    exit 1
fi

# Run clippy checks
echo "📎 Running clippy checks..."
if ! cargo clippy -- -D warnings 2>/dev/null; then
    echo ""
    echo "═══════════════════════════════════════════════════"
    echo "🛡️  FERROUS FORGE BLOCKED COMMIT"
    echo "═══════════════════════════════════════════════════"
    echo ""
    echo "Clippy checks failed. Fix the warnings before committing."
    echo ""
    echo "How to fix:"
    echo "  Run 'cargo clippy -- -D warnings' to see all issues"
    echo ""
    exit 1
fi

echo ""
echo "✅ All safety checks passed! Commit allowed."
echo ""
exit 0
"#;

/// The pre-push hook script: it blocks pushes that fail the tests or validation.
pub const PRE_PUSH_HOOK: &'static str = r#"#!/bin/bash
# Ferrous Forge Mandatory Safety Pipeline - Pre-Push Hook
# @task T017 @epic T014
#
# This hook BLOCKS pushes if safety checks fail.
# Use 'ferrous-forge safety bypass --stage=pre-push --reason="..."' to bypass.

set -e

echo ""
echo "🛡️  Ferrous Forge Safety Pipeline - Pre-Push"
echo "═══════════════════════════════════════════════════"

# Check if ferrous-forge is installed
if ! command -v ferrous-forge >/dev/null 2>&1; then
    echo ""
    echo "⚠️  Ferrous Forge not found in PATH"
    echo "   Install with: cargo install ferrous-forge"
    echo "   Skipping safety checks..."
    exit 0
fi

# Check for active bypass
BYPASS_CHECK=$(ferrous-forge safety check-bypass --stage=pre-push 2>/dev/null || echo "none")
if [ "$BYPASS_CHECK" = "active" ]; then
    echo ""
    echo "⚠️  Safety checks bypassed (active bypass found)"
    exit 0
fi

# Run comprehensive checks
echo ""
echo "🔍 Running comprehensive safety checks..."
echo ""

# Run tests
echo "🧪 Running tests..."
if ! cargo test --quiet 2>&1; then
    echo ""
    echo "═══════════════════════════════════════════════════"
    echo "🛡️  FERROUS FORGE BLOCKED PUSH"
    echo "═══════════════════════════════════════════════════"
    echo ""
    echo "Tests failed. Fix failing tests before pushing."
    echo ""
    echo "How to fix:"
    echo "  Run 'cargo test' to see detailed test failures"
    echo ""
    echo "To bypass (requires reason):"
    echo "  ferrous-forge safety bypass --stage=pre-push --reason=\"Emergency fix\""
    echo ""
    exit 1
fi

# Run full validation
echo "🔍 Running validation..."
if ! ferrous-forge validate --quiet 2>&1; then
    echo ""
    echo "═══════════════════════════════════════════════════"
    echo "🛡️  FERROUS FORGE BLOCKED PUSH"
    echo "═══════════════════════════════════════════════════"
    echo ""
    echo "Validation failed. Fix the issues before pushing."
    echo ""
    echo "How to fix:"
    echo "  1. Run 'ferrous-forge validate' to see all errors"
    echo "  2. Fix the reported violations"
    echo "  3. Try pushing again"
    echo ""
    echo "To bypass (requires reason):"
    echo "  ferrous-forge safety bypass --stage=pre-push --reason=\"Emergency fix\""
    echo ""
    exit 1
fi

# Run security audit
echo "🔒 Running security audit..."
if command -v cargo-audit >/dev/null 2>&1; then
    if ! cargo audit 2>/dev/null; then
        echo ""
        echo "⚠️  Security audit found vulnerabilities"
        echo "   Run 'cargo audit' for details"
        echo ""
    fi
else
    echo "   (cargo-audit not installed, skipping)"
fi

echo ""
echo "✅ All safety checks passed! Push allowed."
echo ""
exit 0
"#;

/// A hook (or any script) that Ferrous Forge installed: it names Ferrous Forge.
pub open spec fn is_ours(content: Seq<char>) -> bool {
    has_sub(content, "Ferrous Forge"@)
}

/// Whether a hook's content shows that Ferrous Forge installed it.
pub fn is_ferrous_forge_hook(content: &str) -> (r: bool)
    ensures
        r == is_ours(content@),
{
    contains(chars_of(content).as_slice(), chars_of("Ferrous Forge").as_slice())
}

/// Get pre-commit hook content with mandatory blocking
pub fn get_pre_commit_hook_content() -> (r: &'static str)
    ensures
        r@ == PRE_COMMIT_HOOK@,
{
    PRE_COMMIT_HOOK
}

/// Get pre-push hook content with mandatory blocking
pub fn get_pre_push_hook_content() -> (r: &'static str)
    ensures
        r@ == PRE_PUSH_HOOK@,
{
    PRE_PUSH_HOOK
}

/// Whether a hook is (re)written: always when there is none or when forced, and otherwise
/// only over a hook that Ferrous Forge installed (a foreign hook is left alone). The content of
/// an existing hook is read only when it exists and the install is not forced.
pub fn should_write_hook(hook_exists: bool, force: bool, existing_content: &str) -> (r: bool)
    ensures
        r == (!hook_exists || force || is_ours(existing_content@)),
{
    if hook_exists && !force {
        return is_ferrous_forge_hook(existing_content);
    }
    true
}

/// The status line of one hook.
pub open spec fn installed_text(installed: bool) -> Seq<char> {
    if installed {
        "✅ installed"@
    } else {
        "❌ not installed"@
    }
}

/// The status of the hooks of a project, as displayed.
pub open spec fn hook_status_text(pre_commit: bool, pre_push: bool) -> Seq<char> {
    "Hook Status:\n"@ + "  Pre-commit: "@ + installed_text(pre_commit) + "\n"@ + "  Pre-push:   "@
        + installed_text(pre_push) + "\n"@ + if pre_commit && pre_push {
        "\n🛡️  Mandatory blocking is ACTIVE\n"@
    } else if pre_commit || pre_push {
        "\n⚠️  Partial installation detected\n"@
    } else {
        "\n⚠️  Safety hooks are NOT installed\n"@ + "   Run: ferrous-forge safety install\n"@
    }
}

/// Get detailed hook status for display, given whether the pre-commit and pre-push hooks are
/// installed.
pub fn get_hook_status_display(pre_commit: bool, pre_push: bool) -> (r: String)
    ensures
        r@ == hook_status_text(pre_commit, pre_push),
{
    let mut status = text("Hook Status:\n");
    append_str(&mut status, "  Pre-commit: ");
    append_str(&mut status, if pre_commit {
        "✅ installed"
    } else {
        "❌ not installed"
    });
    append_str(&mut status, "\n");
    append_str(&mut status, "  Pre-push:   ");
    append_str(&mut status, if pre_push {
        "✅ installed"
    } else {
        "❌ not installed"
    });
    append_str(&mut status, "\n");
    if pre_commit && pre_push {
        append_str(&mut status, "\n🛡️  Mandatory blocking is ACTIVE\n");
    } else if pre_commit || pre_push {
        append_str(&mut status, "\n⚠️  Partial installation detected\n");
    } else {
        append_str(&mut status, "\n⚠️  Safety hooks are NOT installed\n");
        append_str(&mut status, "   Run: ferrous-forge safety install\n");
    }
    assert(status@ =~= hook_status_text(pre_commit, pre_push));
    status
}

/// Law: the hooks that Ferrous Forge installs are recognised as its own, so the status check
/// reports them and uninstalling removes them.
pub proof fn law_installed_hooks_are_recognised()
    ensures
        is_ours(PRE_COMMIT_HOOK@),
        is_ours(PRE_PUSH_HOOK@),
{
    reveal_strlit("Ferrous Forge");
    reveal_strlit(r#"#!/bin/bash
# Ferrous Forge Mandatory Safety Pipeline - Pre-Commit Hook
# @task T017 @epic T014
# 
# This hook BLOCKS commits if safety checks fail.
# Use 'ferrous-forge safety bypass --stage=pre-commit --reason="..."' to bypass.

set -e

echo ""
echo "🛡️  Ferrous Forge Safety Pipeline - Pre-Commit"
echo "═══════════════════════════════════════════════════"

# Check if ferrous-forge is installed
if ! command -v ferrous-forge >/dev/null 2>&1; then
    echo ""
    echo "⚠️  Ferrous Forge not found in PATH"
    echo "   Install with: cargo install ferrous-forge"
    echo "   Skipping safety checks..."
    exit 0
fi

# Check for active bypass
BYPASS_CHECK=$(ferrous-forge safety check-bypass --stage=pre-commit 2>/dev/null || echo "none")
if [ "$BYPASS_CHECK" = "active" ]; then
    echo ""
    echo "⚠️  Safety checks bypassed (active bypass found)"
    exit 0
fi

# Run Ferrous Forge validation
echo ""
echo "🔍 Running mandatory validation checks..."
echo ""

if ! ferrous-forge validate --quiet 2>&1; then
    echo ""
    echo "═══════════════════════════════════════════════════"
    echo "🛡️  FERROUS FORGE BLOCKED COMMIT"
    echo "═══════════════════════════════════════════════════"
    echo ""
    echo "Validation failed. Fix the issues above before committing."
    echo ""
    echo "How to fix:"
    echo "  1. Run 'ferrous-forge validate' to see all errors"
    echo "  2. Fix the reported violations"
    echo "  3. Try committing again"
    echo ""
    echo "To bypass (requires reason):"
    echo "  ferrous-forge safety bypass --stage=pre-commit --reason=\"WIP commit\""
    echo ""
    echo "To bypass for this commit only:"
    echo "  git commit --no-verify"
    echo ""
    exit 1
fi

# Run clippy checks
echo "📎 Running clippy checks..."
if ! cargo clippy -- -D warnings 2>/dev/null; then
    echo ""
    echo "═══════════════════════════════════════════════════"
    echo "🛡️  FERROUS FORGE BLOCKED COMMIT"
    echo "═══════════════════════════════════════════════════"
    echo ""
    echo "Clippy checks failed. Fix the warnings before committing."
    echo ""
    echo "How to fix:"
    echo "  Run 'cargo clippy -- -D warnings' to see all issues"
    echo ""
    exit 1
fi

echo ""
echo "✅ All safety checks passed! Commit allowed."
echo ""
exit 0
"#);
    reveal_strlit(r#"#!/bin/bash
# Ferrous Forge Mandatory Safety Pipeline - Pre-Push Hook
# @task T017 @epic T014
#
# This hook BLOCKS pushes if safety checks fail.
# Use 'ferrous-forge safety bypass --stage=pre-push --reason="..."' to bypass.

set -e

echo ""
echo "🛡️  Ferrous Forge Safety Pipeline - Pre-Push"
echo "═══════════════════════════════════════════════════"

# Check if ferrous-forge is installed
if ! command -v ferrous-forge >/dev/null 2>&1; then
    echo ""
    echo "⚠️  Ferrous Forge not found in PATH"
    echo "   Install with: cargo install ferrous-forge"
    echo "   Skipping safety checks..."
    exit 0
fi

# Check for active bypass
BYPASS_CHECK=$(ferrous-forge safety check-bypass --stage=pre-push 2>/dev/null || echo "none")
if [ "$BYPASS_CHECK" = "active" ]; then
    echo ""
    echo "⚠️  Safety checks bypassed (active bypass found)"
    exit 0
fi

# Run comprehensive checks
echo ""
echo "🔍 Running comprehensive safety checks..."
echo ""

# Run tests
echo "🧪 Running tests..."
if ! cargo test --quiet 2>&1; then
    echo ""
    echo "═══════════════════════════════════════════════════"
    echo "🛡️  FERROUS FORGE BLOCKED PUSH"
    echo "═══════════════════════════════════════════════════"
    echo ""
    echo "Tests failed. Fix failing tests before pushing."
    echo ""
    echo "How to fix:"
    echo "  Run 'cargo test' to see detailed test failures"
    echo ""
    echo "To bypass (requires reason):"
    echo "  ferrous-forge safety bypass --stage=pre-push --reason=\"Emergency fix\""
    echo ""
    exit 1
fi

# Run full validation
echo "🔍 Running validation..."
if ! ferrous-forge validate --quiet 2>&1; then
    echo ""
    echo "═══════════════════════════════════════════════════"
    echo "🛡️  FERROUS FORGE BLOCKED PUSH"
    echo "═══════════════════════════════════════════════════"
    echo ""
    echo "Validation failed. Fix the issues before pushing."
    echo ""
    echo "How to fix:"
    echo "  1. Run 'ferrous-forge validate' to see all errors"
    echo "  2. Fix the reported violations"
    echo "  3. Try pushing again"
    echo ""
    echo "To bypass (requires reason):"
    echo "  ferrous-forge safety bypass --stage=pre-push --reason=\"Emergency fix\""
    echo ""
    exit 1
fi

# Run security audit
echo "🔒 Running security audit..."
if command -v cargo-audit >/dev/null 2>&1; then
    if ! cargo audit 2>/dev/null; then
        echo ""
        echo "⚠️  Security audit found vulnerabilities"
        echo "   Run 'cargo audit' for details"
        echo ""
    fi
else
    echo "   (cargo-audit not installed, skipping)"
fi

echo ""
echo "✅ All safety checks passed! Push allowed."
echo ""
exit 0
"#);
    assert(PRE_COMMIT_HOOK@.subrange(14, 27) =~= "Ferrous Forge"@);
    assert(PRE_PUSH_HOOK@.subrange(14, 27) =~= "Ferrous Forge"@);
    assert(crate::text::occurs_at(PRE_COMMIT_HOOK@, "Ferrous Forge"@, 14));
    assert(crate::text::occurs_at(PRE_PUSH_HOOK@, "Ferrous Forge"@, 14));
}

/// Law: the hook status opens with a heading and one line per hook: the pre-commit line reads
/// "✅ installed" exactly when the pre-commit hook is installed, and the pre-push line reads
/// "✅ installed" exactly when the pre-push hook is installed, each whatever the other hook.
pub proof fn law_hook_status_lines(pre_commit: bool, pre_push: bool)
    ensures
        starts_with(
            hook_status_text(pre_commit, pre_push),
            "Hook Status:\n  Pre-commit: "@ + (if pre_commit {
                "✅ installed"@
            } else {
                "❌ not installed"@
            }) + "\n  Pre-push:   "@ + (if pre_push {
                "✅ installed"@
            } else {
                "❌ not installed"@
            }) + "\n"@,
        ),
{
    reveal_strlit("Hook Status:\n");
    reveal_strlit("  Pre-commit: ");
    reveal_strlit("\n");
    reveal_strlit("  Pre-push:   ");
    reveal_strlit("Hook Status:\n  Pre-commit: ");
    reveal_strlit("\n  Pre-push:   ");
    reveal_strlit("✅ installed");
    reveal_strlit("❌ not installed");
    let head = "Hook Status:\n  Pre-commit: "@ + (if pre_commit {
        "✅ installed"@
    } else {
        "❌ not installed"@
    }) + "\n  Pre-push:   "@ + (if pre_push {
        "✅ installed"@
    } else {
        "❌ not installed"@
    }) + "\n"@;
    let t = hook_status_text(pre_commit, pre_push);
    assert(t.subrange(0, head.len() as int) =~= head);
}

} // verus!
