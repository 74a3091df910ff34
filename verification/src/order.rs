//! The order of verification digits and of identifiers.

use crate::digit::VerificationDigit;
use crate::rut::Rut;
use std::cmp::Ordering;
use vstd::std_specs::cmp::PartialOrdSpec;
use vstd::prelude::*;

verus! {

impl PartialOrd for VerificationDigit {
    /// Verification digits are ordered by their numeric values, so `K`
    /// comes last.
    fn partial_cmp(&self, other: &Self) -> (r: Option<Ordering>) {
        let a = self.to_u32();
        let b = other.to_u32();
        if a < b {
            Some(Ordering::Less)
        } else if a > b {
            Some(Ordering::Greater)
        } else {
            Some(Ordering::Equal)
        }
    }
}

impl vstd::std_specs::cmp::PartialOrdSpecImpl for VerificationDigit {
    open spec fn obeys_partial_cmp_spec() -> bool {
        true
    }

    open spec fn partial_cmp_spec(&self, other: &Self) -> Option<Ordering> {
        if self.value() < other.value() {
            Some(Ordering::Less)
        } else if self.value() > other.value() {
            Some(Ordering::Greater)
        } else {
            Some(Ordering::Equal)
        }
    }
}

impl PartialOrd for Rut {
    /// RUTs are ordered by their numbers alone.
    fn partial_cmp(&self, other: &Self) -> (r: Option<Ordering>) {
        Some(self.cmp(other))
    }
}

impl vstd::std_specs::cmp::PartialOrdSpecImpl for Rut {
    open spec fn obeys_partial_cmp_spec() -> bool {
        true
    }

    open spec fn partial_cmp_spec(&self, other: &Self) -> Option<Ordering> {
        Some(self.order(*other))
    }
}

impl Rut {
    /// How this RUT stands to `other`: as its number stands to the number
    /// of `other`.
    pub open spec fn order(self, other: Rut) -> Ordering {
        if self.num() < other.num() {
            Ordering::Less
        } else if self.num() > other.num() {
            Ordering::Greater
        } else {
            Ordering::Equal
        }
    }

    /// How this RUT stands to `other`: as its number stands to the number
    /// of `other`.
    pub fn cmp(&self, other: &Self) -> (r: Ordering)
        ensures
            r == self.order(*other),
    {
        if self.num() > other.num() {
            return Ordering::Greater;
        }
        if other.num() > self.num() {
            return Ordering::Less;
        }
        Ordering::Equal
    }

    /// The one with the smaller number is the smaller RUT, whatever the
    /// verification digits are.
    pub proof fn lemma_order_by_number(a: Rut, b: Rut)
        requires
            a.num() < b.num(),
        ensures
            a.partial_cmp_spec(&b) == Some(Ordering::Less),
            b.partial_cmp_spec(&a) == Some(Ordering::Greater),
    {
    }

    /// Two valid RUTs that stand equal in the order are the same RUT.
    pub proof fn lemma_order_equal(a: Rut, b: Rut)
        requires
            a.wf(),
            b.wf(),
            a.partial_cmp_spec(&b) == Some(Ordering::Equal),
        ensures
            a == b,
    {
        Rut::lemma_same(a, b);
    }
}

} // verus!
