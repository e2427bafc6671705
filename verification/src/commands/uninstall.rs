//! Uninstalling: removing the Ferrous Forge section from a shell configuration file.

use vstd::prelude::*;
use crate::commands::init::{shell_integrated, SHELL_INTEGRATION};
use crate::text::{
    lemma_lines_after_newline, lemma_lines_before_newline, lemma_lines_cons, lemma_sub_of_line,
    lower, to_lower, chars_of, contains, has_prefix, has_sub, join, join_chars, lines, lines_of,
    occurs_at, same_chars, starts_with, string_of, strip_cr, trim, trimmed, views,
};

verus! {

/// The `PATH` export that the shell integration writes.
pub open spec fn integration_path_line() -> Seq<char> {
    "export PATH=\"$HOME/.local/bin:$PATH\""@
}

/// A line that may continue the Ferrous Forge section: blank, a comment, one that mentions
/// `FERROUS_FORGE` (such as its exports), or the `PATH` export that the integration writes.
pub open spec fn continues_section(line: Seq<char>) -> bool {
    trim(line).len() == 0 || starts_with(line, "#"@) || has_sub(line, "FERROUS_FORGE"@)
        || line == integration_path_line()
}

/// The lines kept among the first `k` lines, and whether a Ferrous Forge section is still
/// being skipped after them. A line with the `# Ferrous Forge` marker starts a section; the
/// section runs on over blank lines, comments, lines that mention `FERROUS_FORGE` and the
/// `PATH` export that the integration writes, and ends at the first other line, which is
/// kept.
pub open spec fn kept_lines(ls: Seq<Seq<char>>, k: int) -> (Seq<Seq<char>>, bool)
    decreases k,
{
    if k <= 0 {
        (seq![], false)
    } else {
        let (acc, skip) = kept_lines(ls, k - 1);
        let line = ls[k - 1];
        if has_sub(line, "# Ferrous Forge"@) {
            (acc, true)
        } else if skip && continues_section(line) {
            (acc, true)
        } else {
            (acc.push(line), false)
        }
    }
}

/// The content without its Ferrous Forge section, joined by newlines.
pub open spec fn without_section(content: Seq<char>) -> Seq<char> {
    let ls = lines_of(content);
    join(kept_lines(ls, ls.len() as int).0, "\n"@)
}

/// Remove the Ferrous Forge section, with the environment variable exports that belong to it
/// (those that mention `FERROUS_FORGE`, and the `PATH` export that the integration writes),
/// from a shell configuration's content
pub fn remove_ferrous_forge_section(content: &str) -> (r: String)
    ensures
        r@ == without_section(content@),
{
    let ls = lines(chars_of(content).as_slice());
    let ghost all = views(ls@);
    let marker = chars_of("# Ferrous Forge");
    let env = chars_of("FERROUS_FORGE");
    let hash = chars_of("#");
    let path_line = chars_of("export PATH=\"$HOME/.local/bin:$PATH\"");
    let mut result: Vec<Vec<char>> = Vec::new();
    let mut skip = false;
    let mut i: usize = 0;
    while i < ls.len()
        invariant
            i <= ls.len(),
            all == views(ls@),
            marker@ == "# Ferrous Forge"@,
            env@ == "FERROUS_FORGE"@,
            hash@ == "#"@,
            path_line@ == integration_path_line(),
            (views(result@), skip) == kept_lines(all, i as int),
        decreases ls.len() - i,
    {
        let line = ls[i].as_slice();
        assert(all[i as int] == line@);
        if contains(line, marker.as_slice()) {
            skip = true;
        } else {
            let t = trimmed(line);
            let cont = t.len() == 0 || has_prefix(line, hash.as_slice()) || contains(
                line,
                env.as_slice(),
            ) || same_chars(line, path_line.as_slice());
            if !(skip && cont) {
                let ghost before = views(result@);
                result.push(crate::text::slice_copy(line, 0, line.len()));
                assert(line@.subrange(0, line@.len() as int) =~= line@);
                assert(views(result@) =~= before.push(line@));
                skip = false;
            }
        }
        i = i + 1;
    }
    let joined = join_chars(result.as_slice(), chars_of("\n").as_slice());
    string_of(joined.as_slice())
}

/// The answer to the confirmation prompt is yes: trimmed and in lower case, it starts with `y`.
pub open spec fn confirms(input: Seq<char>) -> bool {
    starts_with(lower(trim(input)), "y"@)
}

/// Whether the answer to "Are you sure you want to uninstall Ferrous Forge?" is yes.
pub fn is_confirmation(input: &str) -> (r: bool)
    ensures
        r == confirms(input@),
{
    let t = string_of(trimmed(chars_of(input).as_slice()).as_slice());
    let l = to_lower(t.as_str());
    has_prefix(chars_of(l.as_str()).as_slice(), chars_of("y").as_slice())
}

/// The text of `c` as its lines joined again by newlines, ending in a newline when `c` does.
pub open spec fn rejoined(c: Seq<char>) -> Seq<char> {
    if c.len() > 0 && c.last() == '\n' {
        join(lines_of(c), "\n"@) + "\n"@
    } else {
        join(lines_of(c), "\n"@)
    }
}

/// While no line carries the marker, every line is kept and no section is being skipped.
proof fn lemma_kept_clean(a: Seq<Seq<char>>, t: Seq<Seq<char>>, k: int)
    requires
        0 <= k <= a.len(),
        forall|i: int| 0 <= i < a.len() ==> !has_sub(#[trigger] a[i], "# Ferrous Forge"@),
    ensures
        kept_lines(a + t, k) == (a.take(k), false),
    decreases k,
{
    if k > 0 {
        lemma_kept_clean(a, t, k - 1);
        assert((a + t)[k - 1] == a[k - 1]);
        assert(a.take(k - 1).push(a[k - 1]) =~= a.take(k));
    }
}

/// Law: removing the Ferrous Forge section from a shell configuration that `init` extended
/// with its integration block gives back the configuration's own lines, joined by newlines
/// and ending in a newline when the configuration did: the marker, the `PATH` export, the
/// comment and the `FERROUS_FORGE_ENABLED` export all go. (A configuration whose text ends in
/// a bare carriage return is left out: the newline that the block adds turns that carriage
/// return into a line ending.)
pub proof fn law_removal_undoes_shell_integration(c: Seq<char>)
    requires
        !has_sub(c, "Ferrous Forge"@),
        c.len() == 0 || c.last() != '\r',
    ensures
        shell_integrated(c) == Some(c + SHELL_INTEGRATION@),
        without_section(c + SHELL_INTEGRATION@) == rejoined(c),
{
    reveal_strlit("\n# Ferrous Forge - Rust Development Standards Enforcer\nexport PATH=\"$HOME/.local/bin:$PATH\"\n\n# Enable Ferrous Forge for all Rust development\nexport FERROUS_FORGE_ENABLED=1\n");
    reveal_strlit("# Ferrous Forge - Rust Development Standards Enforcer");
    reveal_strlit("export PATH=\"$HOME/.local/bin:$PATH\"");
    reveal_strlit("# Enable Ferrous Forge for all Rust development");
    reveal_strlit("export FERROUS_FORGE_ENABLED=1");
    reveal_strlit("# Ferrous Forge");
    reveal_strlit("Ferrous Forge");
    reveal_strlit("FERROUS_FORGE");
    reveal_strlit("#");
    reveal_strlit("\n");
    let b = SHELL_INTEGRATION@;
    let marker = "# Ferrous Forge"@;
    let nl = seq!['\n'];
    let none = Seq::<char>::empty();
    let l1 = "# Ferrous Forge - Rust Development Standards Enforcer"@;
    let l2 = "export PATH=\"$HOME/.local/bin:$PATH\""@;
    let l4 = "# Enable Ferrous Forge for all Rust development"@;
    let l5 = "export FERROUS_FORGE_ENABLED=1"@;
    assert(forall|j: int| 0 <= j < l1.len() ==> l1[j] != '\n');
    assert(forall|j: int| 0 <= j < l2.len() ==> l2[j] != '\n');
    assert(forall|j: int| 0 <= j < l4.len() ==> l4[j] != '\n');
    assert(forall|j: int| 0 <= j < l5.len() ==> l5[j] != '\n');
    let r5 = l5 + nl + none;
    let r4 = l4 + nl + r5;
    let r3 = none + nl + r4;
    let r2 = l2 + nl + r3;
    let e = l1 + nl + r2;
    assert(b =~= none + nl + e);
    lemma_lines_cons(l5, none);
    lemma_lines_cons(l4, r5);
    lemma_lines_cons(none, r4);
    lemma_lines_cons(l2, r3);
    lemma_lines_cons(l1, r2);
    lemma_lines_cons(none, e);
    assert(lines_of(none) =~= Seq::<Seq<char>>::empty());
    assert(strip_cr(none) == none);
    assert(strip_cr(l1) == l1);
    assert(strip_cr(l2) == l2);
    assert(strip_cr(l4) == l4);
    assert(strip_cr(l5) == l5);
    let big = seq![l1, l2, none, l4, l5];
    assert(lines_of(e) =~= big);
    assert(lines_of(b) =~= seq![none] + big);
    // The block is appended: it mentions Ferrous Forge only after `c`.
    assert(shell_integrated(c) == Some(c + b));
    // The lines of `c` carry no marker.
    let a = lines_of(c);
    assert forall|i: int| 0 <= i < a.len() implies !has_sub(#[trigger] a[i], marker) by {
        if has_sub(a[i], marker) {
            let k = choose|k: int| occurs_at(a[i], marker, k);
            assert(a[i].subrange(k + 2, k + 2 + 13) =~= marker.subrange(2, 15));
            assert(marker.subrange(2, 15) =~= "Ferrous Forge"@);
            assert(occurs_at(a[i], "Ferrous Forge"@, k + 2));
            lemma_sub_of_line(c, "Ferrous Forge"@, i);
        }
    }
    let n = a.len() as int;
    // What each line of the block does once the section has started.
    assert(l1.subrange(0, 15) =~= marker);
    assert(occurs_at(l1, marker, 0));
    assert(continues_section(l2));
    assert(trim(none) =~= none);
    assert(continues_section(none));
    assert(l4.subrange(0, 1) =~= "#"@);
    assert(continues_section(l4));
    assert(l5.subrange(7, 20) =~= "FERROUS_FORGE"@);
    assert(occurs_at(l5, "FERROUS_FORGE"@, 7));
    assert(continues_section(l5));
    assert(!has_sub(none, marker));
    if c.len() == 0 || c.last() == '\n' {
        let t = seq![none] + big;
        if c.len() == 0 {
            assert(c + b =~= b);
            assert(a =~= Seq::<Seq<char>>::empty());
        } else {
            lemma_lines_after_newline(c, b);
        }
        let ls = a + t;
        assert(lines_of(c + b) =~= ls);
        lemma_kept_clean(a, t, n);
        assert(a.take(n) =~= a);
        assert(ls[n] == none);
        assert(kept_lines(ls, n + 1) == (a.push(none), false));
        assert(ls[n + 1] == l1);
        assert(kept_lines(ls, n + 2) == (a.push(none), true));
        assert(ls[n + 2] == l2);
        assert(kept_lines(ls, n + 3) == (a.push(none), true));
        assert(ls[n + 3] == none);
        assert(kept_lines(ls, n + 4) == (a.push(none), true));
        assert(ls[n + 4] == l4);
        assert(kept_lines(ls, n + 5) == (a.push(none), true));
        assert(ls[n + 5] == l5);
        assert(kept_lines(ls, n + 6) == (a.push(none), true));
        assert(ls.len() == n + 6);
        if c.len() > 0 {
            assert(a.len() > 0);
            assert(a.push(none).drop_last() =~= a);
            assert(join(a.push(none), "\n"@) =~= join(a, "\n"@) + "\n"@ + none);
        } else {
            assert(a.push(none) =~= seq![none]);
        }
    } else {
        assert(c + b =~= c + nl + e);
        lemma_lines_before_newline(c, e);
        let ls = a + big;
        assert(lines_of(c + b) =~= ls);
        lemma_kept_clean(a, big, n);
        assert(a.take(n) =~= a);
        assert(ls[n] == l1);
        assert(kept_lines(ls, n + 1) == (a, true));
        assert(ls[n + 1] == l2);
        assert(kept_lines(ls, n + 2) == (a, true));
        assert(ls[n + 2] == none);
        assert(kept_lines(ls, n + 3) == (a, true));
        assert(ls[n + 3] == l4);
        assert(kept_lines(ls, n + 4) == (a, true));
        assert(ls[n + 4] == l5);
        assert(kept_lines(ls, n + 5) == (a, true));
        assert(ls.len() == n + 5);
    }
}

/// Law: no line kept by the removal carries the `# Ferrous Forge` marker.
pub proof fn law_removal_drops_markers(ls: Seq<Seq<char>>, k: int)
    ensures
        forall|i: int|
            0 <= i < kept_lines(ls, k).0.len() ==> !has_sub(
                #[trigger] kept_lines(ls, k).0[i],
                "# Ferrous Forge"@,
            ),
    decreases k,
{
    if k > 0 {
        law_removal_drops_markers(ls, k - 1);
        let prev = kept_lines(ls, k - 1).0;
        let now = kept_lines(ls, k).0;
        assert forall|i: int| 0 <= i < now.len() implies !has_sub(
            #[trigger] now[i],
            "# Ferrous Forge"@,
        ) by {
            if i < prev.len() {
                assert(now[i] == prev[i]);
            }
        }
    }
}

} // verus!
