//! Initialization: the shell integration added to shell configuration files, the lint table
//! added to a project's `Cargo.toml`, and whether initialization is needed at all.

use vstd::prelude::*;
use crate::config::Config;
use crate::text::{append_str, chars_of, contains, has_sub, occurs_at, text};

verus! {

/// The block appended to a shell configuration file: it puts `~/.local/bin` first on the
/// `PATH` and enables Ferrous Forge.
pub const SHELL_INTEGRATION: &'static str = "\n# Ferrous Forge - Rust Development Standards Enforcer\nexport PATH=\"$HOME/.local/bin:$PATH\"\n\n# Enable Ferrous Forge for all Rust development\nexport FERROUS_FORGE_ENABLED=1\n";

/// The lint tables appended to a project's `Cargo.toml`.
pub const LINTS_BLOCK: &'static str = "\n[lints.rust]\nmissing_docs = \"warn\"\nunsafe_code = \"forbid\"\n\n[lints.rustdoc]\nbroken_intra_doc_links = \"deny\"\ninvalid_html_tags = \"deny\"\nmissing_crate_level_docs = \"warn\"\nbare_urls = \"warn\"\nredundant_explicit_links = \"warn\"\nunescaped_backticks = \"warn\"\n\n[lints.clippy]\nmissing_safety_doc = \"deny\"\nmissing_errors_doc = \"warn\"\nmissing_panics_doc = \"warn\"\nempty_docs = \"warn\"\ndoc_markdown = \"warn\"\nneedless_doctest_main = \"warn\"\nsuspicious_doc_comments = \"warn\"\ntoo_long_first_doc_paragraph = \"warn\"\nunwrap_used = \"deny\"\nexpect_used = \"deny\"\n";

/// The new content of a shell configuration file: the integration block appended, unless the
/// file already mentions Ferrous Forge.
pub open spec fn shell_integrated(contents: Seq<char>) -> Option<Seq<char>> {
    if has_sub(contents, "Ferrous Forge"@) {
        None
    } else {
        Some(contents + SHELL_INTEGRATION@)
    }
}

/// The new content of a shell configuration file, or `None` when it is left as it is.
pub fn with_shell_integration(contents: &str) -> (r: Option<String>)
    ensures
        match r {
            Some(s) => shell_integrated(contents@) == Some(s@),
            None => shell_integrated(contents@) is None,
        },
{
    if contains(chars_of(contents).as_slice(), chars_of("Ferrous Forge").as_slice()) {
        return None;
    }
    let mut s = text(contents);
    append_str(&mut s, SHELL_INTEGRATION);
    Some(s)
}

/// The new content of a `Cargo.toml`: the lint tables appended, unless it has a lint table.
pub open spec fn lints_injected(content: Seq<char>) -> Option<Seq<char>> {
    if has_sub(content, "[lints]"@) || has_sub(content, "[lints.rust]"@) {
        None
    } else {
        Some(content + LINTS_BLOCK@)
    }
}

/// The new content of a `Cargo.toml`, or `None` when it already has a lint table.
pub fn with_lints_block(content: &str) -> (r: Option<String>)
    ensures
        match r {
            Some(s) => lints_injected(content@) == Some(s@),
            None => lints_injected(content@) is None,
        },
{
    let c = chars_of(content);
    if contains(c.as_slice(), chars_of("[lints]").as_slice()) || contains(
        c.as_slice(),
        chars_of("[lints.rust]").as_slice(),
    ) {
        return None;
    }
    let mut s = text(content);
    append_str(&mut s, LINTS_BLOCK);
    Some(s)
}

/// Whether initialization is skipped: Ferrous Forge is initialized and no force was asked.
pub fn check_already_initialized(config: &Config, force: bool) -> (r: bool)
    ensures
        r == (config.initialized && !force),
{
    config.is_initialized() && !force
}

/// A pattern in the second part of a text is in the text.
proof fn lemma_sub_in_suffix(a: Seq<char>, b: Seq<char>, p: Seq<char>, i: int)
    requires
        occurs_at(b, p, i),
    ensures
        has_sub(a + b, p),
{
    assert((a + b).subrange(a.len() + i, a.len() + i + p.len()) =~= b.subrange(i, i + p.len()));
    assert(occurs_at(a + b, p, a.len() + i));
}

/// Law: integrating a shell configuration twice changes nothing the second time.
pub proof fn law_shell_integration_once(contents: Seq<char>)
    ensures
        shell_integrated(contents) matches Some(s) ==> shell_integrated(s) is None,
{
    reveal_strlit("Ferrous Forge");
    reveal_strlit("\n# Ferrous Forge - Rust Development Standards Enforcer\nexport PATH=\"$HOME/.local/bin:$PATH\"\n\n# Enable Ferrous Forge for all Rust development\nexport FERROUS_FORGE_ENABLED=1\n");
    assert(SHELL_INTEGRATION@.subrange(3, 16) =~= "Ferrous Forge"@);
    lemma_sub_in_suffix(contents, SHELL_INTEGRATION@, "Ferrous Forge"@, 3);
}

/// Law: injecting the lint tables twice changes nothing the second time.
pub proof fn law_lints_injected_once(content: Seq<char>)
    ensures
        lints_injected(content) matches Some(s) ==> lints_injected(s) is None,
{
    reveal_strlit("[lints.rust]");
    reveal_strlit("\n[lints.rust]\nmissing_docs = \"warn\"\nunsafe_code = \"forbid\"\n\n[lints.rustdoc]\nbroken_intra_doc_links = \"deny\"\ninvalid_html_tags = \"deny\"\nmissing_crate_level_docs = \"warn\"\nbare_urls = \"warn\"\nredundant_explicit_links = \"warn\"\nunescaped_backticks = \"warn\"\n\n[lints.clippy]\nmissing_safety_doc = \"deny\"\nmissing_errors_doc = \"warn\"\nmissing_panics_doc = \"warn\"\nempty_docs = \"warn\"\ndoc_markdown = \"warn\"\nneedless_doctest_main = \"warn\"\nsuspicious_doc_comments = \"warn\"\ntoo_long_first_doc_paragraph = \"warn\"\nunwrap_used = \"deny\"\nexpect_used = \"deny\"\n");
    assert(LINTS_BLOCK@.subrange(1, 13) =~= "[lints.rust]"@);
    lemma_sub_in_suffix(content, LINTS_BLOCK@, "[lints.rust]"@, 1);
}

} // verus!
