//! The order of timestamps: by their microsecond counts.
use core::cmp::Ordering;
use vstd::prelude::*;
use vstd::std_specs::cmp::PartialOrdSpec;
use vstd::std_specs::cmp::PartialOrdSpecImpl;

use super::model::MonotonicTimestamp;

verus! {

impl PartialOrd for MonotonicTimestamp {
    fn partial_cmp(&self, other: &Self) -> (r: Option<Ordering>) {
        let a = self.as_micros();
        let b = other.as_micros();
        if a < b {
            Some(Ordering::Less)
        } else if a == b {
            Some(Ordering::Equal)
        } else {
            Some(Ordering::Greater)
        }
    }
}

impl PartialOrdSpecImpl for MonotonicTimestamp {
    open spec fn obeys_partial_cmp_spec() -> bool {
        true
    }

    open spec fn partial_cmp_spec(&self, other: &Self) -> Option<Ordering> {
        if self.micros() < other.micros() {
            Some(Ordering::Less)
        } else if self.micros() == other.micros() {
            Some(Ordering::Equal)
        } else {
            Some(Ordering::Greater)
        }
    }
}

/// Timestamps compare as their microsecond counts: `a <= b` exactly when
/// `a` counts no more microseconds than `b`, and they are equal exactly when
/// the counts are.
pub proof fn law_timestamps_order_by_micros(a: MonotonicTimestamp, b: MonotonicTimestamp)
    ensures
        (PartialOrdSpec::partial_cmp_spec(&a, &b) matches Some(Ordering::Less | Ordering::Equal)) <==> a.micros() <= b.micros(),
        (PartialOrdSpec::partial_cmp_spec(&a, &b) == Some(Ordering::Less)) <==> a.micros() < b.micros(),
        (PartialOrdSpec::partial_cmp_spec(&a, &b) == Some(Ordering::Equal)) <==> a == b,
{
    MonotonicTimestamp::lemma_micros_identify(a, b);
}

} // verus!
