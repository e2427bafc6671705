//! The selection of the violations that a fix run works on.

use vstd::prelude::*;
use crate::fix::types::FilterOptions;
use crate::fix::utils::{
    filter_violations, filtered, lemma_filter_all, lemma_filtered_pass, passes_filters,
};
use crate::violation::{Violation, ViolationType};

verus! {

/// The kinds the fixer supports, as its message names them: `LINETOOLONG`,
/// `UNDERSCORE_BANDAID` and `UNWRAP_IN_PRODUCTION`.
pub open spec fn supported_kind(t: ViolationType) -> bool {
    t == ViolationType::LineTooLong || t == ViolationType::UnderscoreBandaid || t
        == ViolationType::UnwrapInProduction
}

/// A violation of a supported kind.
pub open spec fn is_supported(v: Violation) -> bool {
    supported_kind(v.violation_type)
}

/// The violations a fix run works on: those that pass the user's filters, then those of a
/// supported kind, in order.
pub open spec fn selected(vs: Seq<Violation>, options: FilterOptions) -> Seq<Violation> {
    filtered(vs, options.only_types, options.skip_types, None).filter(
        |v: Violation| is_supported(v),
    )
}

/// Whether a violation's kind is supported for fixing.
fn supported(v: &Violation) -> (r: bool)
    ensures
        r == is_supported(*v),
{
    match v.violation_type {
        ViolationType::LineTooLong => true,
        ViolationType::UnderscoreBandaid => true,
        ViolationType::UnwrapInProduction => true,
        _ => false,
    }
}

/// Validate and filter violations based on fix capabilities: the fixable violations that pass
/// the filters, kept when their kind is supported.
pub fn validate_and_filter_violations(violations: &[Violation], filter_options: &FilterOptions) -> (r:
    Vec<Violation>)
    ensures
        r@ == selected(violations@, *filter_options),
{
    let fixable = filter_violations(
        violations,
        &filter_options.only_types,
        &filter_options.skip_types,
        None,
    );
    let ghost pred = |v: Violation| is_supported(v);
    let mut r: Vec<Violation> = Vec::new();
    let mut i: usize = 0;
    while i < fixable.len()
        invariant
            i <= fixable.len(),
            pred == (|v: Violation| is_supported(v)),
            r@ == fixable@.take(i as int).filter(pred),
        decreases fixable.len() - i,
    {
        proof {
            reveal(Seq::filter);
            assert(fixable@.take(i + 1).drop_last() =~= fixable@.take(i as int));
            assert(fixable@.take(i + 1).last() == fixable@[i as int]);
        }
        if supported(&fixable[i]) {
            r.push(fixable[i].clone());
        }
        i = i + 1;
    }
    assert(fixable@.take(fixable.len() as int) =~= fixable@);
    r
}

/// Law: a fix run works on exactly the violations that pass the user's filters, in order:
/// every kind the filters let through (`.unwrap()` and underscore violations) is supported.
pub proof fn law_fix_run_keeps_filtered(vs: Seq<Violation>, options: FilterOptions)
    ensures
        selected(vs, options) == filtered(vs, options.only_types, options.skip_types, None),
{
    let f = filtered(vs, options.only_types, options.skip_types, None);
    let pred = |v: Violation| is_supported(v);
    lemma_filtered_pass(vs, options.only_types, options.skip_types, None);
    assert forall|i: int| 0 <= i < f.len() implies pred(#[trigger] f[i]) by {
        assert(passes_filters(f[i], options.only_types, options.skip_types));
    }
    lemma_filter_all(f, pred);
}

} // verus!
