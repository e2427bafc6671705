//! Cargo publish interception system
//!
//! Tiered blocking: violations of locked settings (edition, Rust version) block every cargo
//! command; style violations only warn during development commands and block at publish.
//! `FERROUS_FORGE_BYPASS=true` skips the style checks (locked settings are still enforced);
//! `FERROUS_FORGE_FORCE_BYPASS=true` skips everything, with a visible warning.

pub mod validation;

use vstd::prelude::*;
use crate::error::{Error, ErrorKind};
use crate::text::{append_str, chars_of, decimal, index_of, lines_of, string_of, text, usize_to_string, lines};
use crate::violation::{is_locked_type, kind_name, Violation};

verus! {

/// A bypass variable is set when its value is `true` in any case (`eq_ignore_ascii_case`):
/// four characters, each the letter of `true` in lower or upper case.
pub open spec fn flag_set(v: Seq<char>) -> bool {
    &&& v.len() == 4
    &&& (v[0] == 't' || v[0] == 'T')
    &&& (v[1] == 'r' || v[1] == 'R')
    &&& (v[2] == 'u' || v[2] == 'U')
    &&& (v[3] == 'e' || v[3] == 'E')
}

/// Whether a bypass variable's value is `true`, in any case.
fn is_true_flag(value: &str) -> (r: bool)
    ensures
        r == flag_set(value@),
{
    let v = chars_of(value);
    v.len() == 4 && (v[0] == 't' || v[0] == 'T') && (v[1] == 'r' || v[1] == 'R') && (v[2] == 'u'
        || v[2] == 'U') && (v[3] == 'e' || v[3] == 'E')
}

/// Intercepts and validates cargo publish commands
#[derive(Debug, Clone, Copy, PartialEq, Eq, Structural)]
pub struct CargoInterceptor {
    /// Whether to enforce dogfooding (using Ferrous Forge on itself)
    pub enforce_dogfooding: bool,
    /// Skip style checks (edition/version still enforced)
    pub bypass_style: bool,
    /// Absolute override — skip all checks (with warning)
    pub force_bypass: bool,
}

impl CargoInterceptor {
    /// Create a new cargo interceptor from the values of `FERROUS_FORGE_BYPASS` and
    /// `FERROUS_FORGE_FORCE_BYPASS` (empty when unset).
    pub fn new(bypass_var: &str, force_bypass_var: &str) -> (r: Self)
        ensures
            r.enforce_dogfooding,
            r.bypass_style == flag_set(bypass_var@),
            r.force_bypass == flag_set(force_bypass_var@),
    {
        CargoInterceptor {
            enforce_dogfooding: true,
            bypass_style: is_true_flag(bypass_var),
            force_bypass: is_true_flag(force_bypass_var),
        }
    }

    /// Create interceptor with custom settings
    pub fn with_dogfooding(enforce_dogfooding: bool, bypass_var: &str, force_bypass_var: &str) -> (r:
        Self)
        ensures
            r.enforce_dogfooding == enforce_dogfooding,
            r.bypass_style == flag_set(bypass_var@),
            r.force_bypass == flag_set(force_bypass_var@),
    {
        let mut interceptor = Self::new(bypass_var, force_bypass_var);
        interceptor.enforce_dogfooding = enforce_dogfooding;
        interceptor
    }

    /// What a publish command does: nothing is checked under a force bypass; otherwise every
    /// check runs (all violations block), dogfooding included when it is enforced.
    pub fn publish_plan(&self) -> (r: PublishPlan)
        ensures
            r == publish_plan_of(*self),
    {
        if self.force_bypass {
            PublishPlan::Bypassed
        } else {
            PublishPlan::Validate {
                warn_style_bypass: self.bypass_style,
                check_dogfooding: self.enforce_dogfooding,
            }
        }
    }

    /// What a development command (build, test, run, check) does: nothing is checked under a
    /// force bypass; otherwise locked settings are checked, and style too unless bypassed.
    pub fn dev_plan(&self) -> (r: DevPlan)
        ensures
            r == dev_plan_of(*self),
    {
        if self.force_bypass {
            DevPlan::Bypassed
        } else {
            DevPlan::Check { check_style: !self.bypass_style }
        }
    }
}

/// What `cargo publish` does under this interceptor.
pub open spec fn publish_plan_of(i: CargoInterceptor) -> PublishPlan {
    if i.force_bypass {
        PublishPlan::Bypassed
    } else {
        PublishPlan::Validate { warn_style_bypass: i.bypass_style, check_dogfooding: i.enforce_dogfooding }
    }
}

/// What a development command does under this interceptor.
pub open spec fn dev_plan_of(i: CargoInterceptor) -> DevPlan {
    if i.force_bypass {
        DevPlan::Bypassed
    } else {
        DevPlan::Check { check_style: !i.bypass_style }
    }
}

/// Law: the style bypass never skips the checks of locked settings: unless everything is
/// force-bypassed, development commands check locked settings and publishing validates, whatever
/// `FERROUS_FORGE_BYPASS` says; and only the force bypass skips them.
pub proof fn law_style_bypass_keeps_locked_checks(i: CargoInterceptor)
    ensures
        !i.force_bypass ==> dev_plan_of(i) is Check && publish_plan_of(i) is Validate,
        i.force_bypass ==> dev_plan_of(i) is Bypassed && publish_plan_of(i) is Bypassed,
        i.bypass_style && !i.force_bypass ==> dev_plan_of(i) == (DevPlan::Check { check_style: false }),
{
}

/// What to do for `cargo publish`.
#[derive(Debug, Clone, Copy, PartialEq, Eq, Structural)]
pub enum PublishPlan {
    /// Skip every check (force bypass)
    Bypassed,
    /// Run the pre-publish validation and the version check
    Validate {
        /// Warn that style checks are bypassed
        warn_style_bypass: bool,
        /// Check that the project uses Ferrous Forge
        check_dogfooding: bool,
    },
}

/// What to do for a development command.
#[derive(Debug, Clone, Copy, PartialEq, Eq, Structural)]
pub enum DevPlan {
    /// Skip every check (force bypass)
    Bypassed,
    /// Check locked settings, and style when asked
    Check {
        /// Check style and warn about its violations
        check_style: bool,
    },
}

/// The warning printed when every check is skipped.
pub fn force_bypass_notice() -> (r: &'static str)
    ensures
        r@ == "\n⚠️  FERROUS FORGE FORCE BYPASSED — FERROUS_FORGE_FORCE_BYPASS=true\nAll validation skipped. This should NEVER happen in production.\n"@,
{
    "\n⚠️  FERROUS FORGE FORCE BYPASSED — FERROUS_FORGE_FORCE_BYPASS=true\nAll validation skipped. This should NEVER happen in production.\n"
}

/// Some violation concerns a locked setting.
pub open spec fn any_locked(vs: Seq<Violation>) -> bool {
    exists|i: int| 0 <= i < vs.len() && is_locked_type(#[trigger] vs[i].violation_type)
}

/// Check if violations include any locked setting violations
pub fn has_locked_violations(violations: &[Violation]) -> (r: bool)
    ensures
        r == any_locked(violations@),
{
    let mut i: usize = 0;
    while i < violations.len()
        invariant
            i <= violations.len(),
            forall|j: int| 0 <= j < i ==> !is_locked_type(#[trigger] violations@[j].violation_type),
        decreases violations.len() - i,
    {
        if violations[i].is_locked_setting() {
            return true;
        }
        i = i + 1;
    }
    false
}

/// The error a development command fails with when locked settings are violated.
pub open spec fn locked_block_message() -> Seq<char> {
    "Locked setting violations must be resolved before building. See messages above. DO NOT change locked values — escalate to human."@
}

/// The outcome of the locked-settings check of a development command: the violations found
/// block it when there are any.
pub fn check_locked_outcome(locked_violations: &[Violation]) -> (r: Result<(), Error>)
    ensures
        r is Ok <==> locked_violations.len() == 0,
        r matches Err(e) ==> e@ == (ErrorKind::Validation, locked_block_message()),
{
    if locked_violations.len() > 0 {
        return Err(
            Error::validation(
                text(
                    "Locked setting violations must be resolved before building. See messages above. DO NOT change locked values — escalate to human.",
                ),
            ),
        );
    }
    Ok(())
}

/// The first line of a message, or nothing.
pub open spec fn first_line(m: Seq<char>) -> Seq<char> {
    if lines_of(m).len() > 0 {
        lines_of(m)[0]
    } else {
        seq![]
    }
}

/// The warning line for one style violation.
pub open spec fn style_line(v: Violation) -> Seq<char> {
    "   "@ + kind_name(v.violation_type) + ": "@ + v.file@ + ":"@ + decimal(v.line as nat)
        + " — "@ + first_line(v.message@)
}

/// The warning lines for the style violations of a development command: none when there are
/// none; otherwise a header with their number, the first five, how many more there are, and
/// two reminders.
pub open spec fn style_warnings(vs: Seq<Violation>) -> Seq<Seq<char>> {
    if vs.len() == 0 {
        seq![]
    } else {
        let shown = if vs.len() < 5 {
            vs.len() as int
        } else {
            5
        };
        let more = if vs.len() > 5 {
            seq![
                "   ... and "@ + decimal((vs.len() - 5) as nat)
                    + " more (run 'ferrous-forge validate' for full list)"@,
            ]
        } else {
            seq![]
        };
        seq!["\n⚠️  Ferrous Forge style warnings ("@ + decimal(vs.len()) + " violations):"@]
            + vs.take(shown).map_values(|v: Violation| style_line(v)) + more + seq![
            "   (These will block 'cargo publish'. Fix before publishing.)"@,
            "   (Set FERROUS_FORGE_BYPASS=true to suppress these warnings.)\n"@,
        ]
    }
}

/// The warning line for one style violation.
fn style_line_text(v: &Violation) -> (r: String)
    ensures
        r@ == style_line(*v),
{
    let mut r = text("   ");
    let k = v.violation_type.name();
    append_str(&mut r, k.as_str());
    append_str(&mut r, ": ");
    append_str(&mut r, v.file.as_str());
    append_str(&mut r, ":");
    let l = usize_to_string(v.line);
    append_str(&mut r, l.as_str());
    append_str(&mut r, " — ");
    let ls = lines(chars_of(v.message.as_str()).as_slice());
    if ls.len() > 0 {
        let f = string_of(ls[0].as_slice());
        append_str(&mut r, f.as_str());
    }
    r
}

/// The warning lines for the style violations of a development command, one per line printed.
pub fn style_warning_lines(style_violations: &[Violation]) -> (r: Vec<String>)
    ensures
        r@.map_values(|s: String| s@) == style_warnings(style_violations@),
{
    let n = style_violations.len();
    let mut out: Vec<String> = Vec::new();
    if n == 0 {
        assert(out@.map_values(|s: String| s@) =~= style_warnings(style_violations@));
        return out;
    }
    let mut head = text("\n⚠️  Ferrous Forge style warnings (");
    let c = usize_to_string(n);
    append_str(&mut head, c.as_str());
    append_str(&mut head, " violations):");
    out.push(head);
    let shown: usize = if n < 5 {
        n
    } else {
        5
    };
    let mut i: usize = 0;
    while i < shown
        invariant
            i <= shown <= n,
            n == style_violations.len(),
            out@.map_values(|s: String| s@) == seq![
                "\n⚠️  Ferrous Forge style warnings ("@ + decimal(n as nat) + " violations):"@,
            ] + style_violations@.take(i as int).map_values(|v: Violation| style_line(v)),
        decreases shown - i,
    {
        let ghost before = out@.map_values(|s: String| s@);
        out.push(style_line_text(&style_violations[i]));
        assert(out@.map_values(|s: String| s@) =~= before.push(style_line(style_violations@[i as int])));
        assert(style_violations@.take(i + 1).map_values(|v: Violation| style_line(v))
            =~= style_violations@.take(i as int).map_values(|v: Violation| style_line(v)).push(
            style_line(style_violations@[i as int]),
        ));
        i = i + 1;
    }
    if n > 5 {
        let mut m = text("   ... and ");
        let d = usize_to_string(n - 5);
        append_str(&mut m, d.as_str());
        append_str(&mut m, " more (run 'ferrous-forge validate' for full list)");
        out.push(m);
    }
    out.push(text("   (These will block 'cargo publish'. Fix before publishing.)"));
    out.push(text("   (Set FERROUS_FORGE_BYPASS=true to suppress these warnings.)\n"));
    assert(out@.map_values(|s: String| s@) =~= style_warnings(style_violations@));
    out
}

} // verus!
