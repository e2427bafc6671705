//! Project template commands: the subcommands, and the `key=value` variables given to them.

use vstd::prelude::*;
use crate::error::{Error, ErrorKind};
use crate::text::{append_str, char_pos, chars_of, lemma_char_pos, position_of, same_chars, slice_copy, string_of, text};

verus! {

/// Template subcommands
#[derive(Debug)]
pub enum TemplateCommand {
    /// List available templates (local + cached)
    List {
        /// Show remote templates too
        remote: bool,
    },
    /// Fetch template from GitHub repository
    Fetch {
        /// GitHub repository reference (e.g., gh:user/repo or user/repo)
        repo: String,
        /// Branch, tag, or commit to fetch
        reference: Option<String>,
        /// Force re-fetch even if already cached
        force: bool,
    },
    /// Install a cached template locally
    Install {
        /// Template name (from cache) or repository
        name: String,
        /// Custom name for the installed template
        as_name: Option<String>,
    },
    /// Update all installed templates or a specific one
    Update {
        /// Specific template to update
        template: Option<String>,
        /// Check for updates without installing
        check: bool,
    },
    /// Create a new template from current project
    Create {
        /// Name for the new template
        name: String,
        /// Output directory for template
        output: Option<String>,
        /// Project directory to template-ize
        project: String,
    },
    /// Remove a cached template
    Remove {
        /// Template name to remove
        name: String,
        /// Skip confirmation
        yes: bool,
    },
    /// Show detailed information about a template
    Info {
        /// Template name
        template: String,
        /// Show cache information
        cache: bool,
    },
    /// Validate a template manifest
    Validate {
        /// Path to template directory or manifest
        path: String,
    },
}

/// The key and value of a `key=value` variable: around its first `=`.
pub open spec fn var_pair(s: Seq<char>) -> Option<(Seq<char>, Seq<char>)> {
    let i = char_pos(s, '=');
    if i < s.len() {
        Some((s.take(i), s.skip(i + 1)))
    } else {
        None
    }
}

/// The error for a variable without `=`.
pub open spec fn invalid_var_message(s: Seq<char>) -> Seq<char> {
    "Invalid variable format: '"@ + s + "'. Use key=value"@
}

/// The view of a parsed variable.
pub open spec fn pair_result(r: Result<(String, String), Error>) -> Result<(Seq<char>, Seq<char>), (ErrorKind, Seq<char>)> {
    match r {
        Ok((k, v)) => Ok((k@, v@)),
        Err(e) => Err(e@),
    }
}

/// Parse variable from key=value format
pub fn parse_var(s: &str) -> (r: Result<(String, String), Error>)
    ensures
        pair_result(r) == match var_pair(s@) {
            Some(p) => Ok(p),
            None => Err((ErrorKind::Template, invalid_var_message(s@))),
        },
{
    let c = chars_of(s);
    let i = position_of(c.as_slice(), '=');
    proof {
        lemma_char_pos(s@, '=');
    }
    if i >= c.len() {
        let mut m = text("Invalid variable format: '");
        append_str(&mut m, s);
        append_str(&mut m, "'. Use key=value");
        return Err(Error::template(m));
    }
    let key = slice_copy(c.as_slice(), 0, i);
    let value = slice_copy(c.as_slice(), i + 1, c.len());
    assert(key@ =~= s@.take(i as int));
    assert(value@ =~= s@.skip(i + 1));
    Ok((string_of(key.as_slice()), string_of(value.as_slice())))
}

/// The first variable among the first `k` that has no `=`.
pub open spec fn first_invalid(vars: Seq<Seq<char>>, k: int) -> Option<int>
    decreases k,
{
    if k <= 0 {
        None
    } else {
        match first_invalid(vars, k - 1) {
            Some(i) => Some(i),
            None => if var_pair(vars[k - 1]) is None {
                Some(k - 1)
            } else {
                None
            },
        }
    }
}

/// The variables set by the first `k` arguments: a later value of a key replaces an earlier.
pub open spec fn vars_map(vars: Seq<Seq<char>>, k: int) -> Map<Seq<char>, Seq<char>>
    decreases k,
{
    if k <= 0 {
        Map::empty()
    } else {
        match var_pair(vars[k - 1]) {
            Some(p) => vars_map(vars, k - 1).insert(p.0, p.1),
            None => vars_map(vars, k - 1),
        }
    }
}

/// The map of a list of key-value pairs.
pub open spec fn pairs_map(p: Seq<(String, String)>) -> Map<Seq<char>, Seq<char>>
    decreases p.len(),
{
    if p.len() == 0 {
        Map::empty()
    } else {
        pairs_map(p.drop_last()).insert(p.last().0@, p.last().1@)
    }
}

/// No key occurs twice.
pub open spec fn distinct_keys(p: Seq<(String, String)>) -> bool {
    forall|a: int, b: int| 0 <= a < b < p.len() ==> p[a].0@ != p[b].0@
}

/// The keys of a list of pairs are the domain of its map.
proof fn lemma_pairs_map_dom(p: Seq<(String, String)>, k: Seq<char>)
    ensures
        pairs_map(p).dom().contains(k) <==> exists|j: int| 0 <= j < p.len() && p[j].0@ == k,
    decreases p.len(),
{
    if p.len() > 0 {
        lemma_pairs_map_dom(p.drop_last(), k);
        if exists|j: int| 0 <= j < p.len() && p[j].0@ == k {
            let j = choose|j: int| 0 <= j < p.len() && p[j].0@ == k;
            if j < p.len() - 1 {
                assert(p.drop_last()[j].0@ == k);
            }
        }
        if exists|j: int| 0 <= j < p.drop_last().len() && p.drop_last()[j].0@ == k {
            let j = choose|j: int| 0 <= j < p.drop_last().len() && p.drop_last()[j].0@ == k;
            assert(p[j].0@ == k);
        }
    }
}

/// Replacing the value of a key in a list with distinct keys replaces it in its map.
proof fn lemma_pairs_map_update(p: Seq<(String, String)>, j: int, x: (String, String))
    requires
        distinct_keys(p),
        0 <= j < p.len(),
        p[j].0@ == x.0@,
    ensures
        pairs_map(p.update(j, x)) == pairs_map(p).insert(x.0@, x.1@),
    decreases p.len(),
{
    let q = p.update(j, x);
    if j == p.len() - 1 {
        assert(q.drop_last() =~= p.drop_last());
        assert(pairs_map(q) =~= pairs_map(p).insert(x.0@, x.1@));
    } else {
        lemma_pairs_map_update(p.drop_last(), j, x);
        assert(q.drop_last() =~= p.drop_last().update(j, x));
        assert(p.last().0@ != x.0@);
        assert(pairs_map(q) =~= pairs_map(p).insert(x.0@, x.1@));
    }
}

/// The index of the pair with key `k`, if there is one.
fn position_of_key(p: &Vec<(String, String)>, k: &[char]) -> (r: Option<usize>)
    ensures
        match r {
            Some(j) => j < p.len() && p@[j as int].0@ == k@,
            None => forall|j: int| 0 <= j < p.len() ==> (#[trigger] p@[j]).0@ != k@,
        },
{
    let mut j: usize = 0;
    while j < p.len()
        invariant
            j <= p.len(),
            forall|m: int| 0 <= m < j ==> (#[trigger] p@[m]).0@ != k@,
        decreases p.len() - j,
    {
        let e = chars_of(p[j].0.as_str());
        if same_chars(e.as_slice(), k) {
            return Some(j);
        }
        j = j + 1;
    }
    None
}

/// Collect template variables from command line arguments: each key once, with the last value
/// given for it; the first argument without `=` is an error.
pub fn collect_template_variables(variables: &[String]) -> (r: Result<Vec<(String, String)>, Error>)
    ensures
        match r {
            Ok(p) => first_invalid(variables@.map_values(|s: String| s@), variables.len() as int)
                is None && distinct_keys(p@) && pairs_map(p@) == vars_map(
                variables@.map_values(|s: String| s@),
                variables.len() as int,
            ),
            Err(e) => match first_invalid(variables@.map_values(|s: String| s@), variables.len() as int) {
                Some(i) => e@ == (ErrorKind::Template, invalid_var_message(variables@[i]@)),
                None => false,
            },
        },
{
    let ghost vs = variables@.map_values(|s: String| s@);
    let mut template_vars: Vec<(String, String)> = Vec::new();
    let mut i: usize = 0;
    while i < variables.len()
        invariant
            i <= variables.len(),
            vs == variables@.map_values(|s: String| s@),
            first_invalid(vs, i as int) is None,
            distinct_keys(template_vars@),
            pairs_map(template_vars@) == vars_map(vs, i as int),
        decreases variables.len() - i,
    {
        assert(vs[i as int] == variables@[i as int]@);
        match parse_var(variables[i].as_str()) {
            Err(e) => {
                proof {
                    assert(first_invalid(vs, i + 1) == Some(i as int));
                    lemma_first_invalid_stays(vs, i + 1, variables.len() as int);
                }
                return Err(e);
            },
            Ok((key, value)) => {
                let kc = chars_of(key.as_str());
                let ghost before = template_vars@;
                match position_of_key(&template_vars, kc.as_slice()) {
                    Some(j) => {
                        proof {
                            lemma_pairs_map_update(before, j as int, (key, value));
                        }
                        template_vars.set(j, (key, value));
                        assert(template_vars@ == before.update(j as int, (key, value)));
                    },
                    None => {
                        template_vars.push((key, value));
                        assert(template_vars@.drop_last() =~= before);
                    },
                }
            },
        }
        i = i + 1;
    }
    Ok(template_vars)
}

/// Once a variable without `=` is found, it stays the first.
proof fn lemma_first_invalid_stays(vars: Seq<Seq<char>>, k: int, n: int)
    requires
        0 <= k <= n,
        first_invalid(vars, k) is Some,
    ensures
        first_invalid(vars, n) == first_invalid(vars, k),
    decreases n - k,
{
    if k < n {
        lemma_first_invalid_stays(vars, k + 1, n);
    }
}

} // verus!
