//! Time spans with nanosecond resolution.

use vstd::prelude::*;

verus! {

/// Nanoseconds in one second.
pub const NANOS_PER_SEC: u128 = 1_000_000_000;

/// Nanoseconds in one millisecond.
pub const NANOS_PER_MILLI: u128 = 1_000_000;

/// The longest span in nanoseconds: `u64::MAX` seconds and 999 999 999
/// nanoseconds.
pub const MAX_NANOS: u128 = 18_446_744_073_709_551_615_999_999_999;

/// A span of time, from zero up to `u64::MAX` seconds and 999 999 999
/// nanoseconds.
#[derive(Clone, Copy, Debug, PartialEq, Eq, Structural)]
pub struct Duration {
    nanos: u128,
}

impl View for Duration {
    type V = nat;

    /// The span in nanoseconds.
    closed spec fn view(&self) -> nat {
        self.nanos as nat
    }
}

/// The smaller of two spans.
pub open spec fn shorter(a: nat, b: nat) -> nat {
    if a <= b {
        a
    } else {
        b
    }
}

impl Duration {
    #[verifier::type_invariant]
    spec fn in_range(self) -> bool {
        self.nanos <= MAX_NANOS
    }

    /// A span of whole seconds.
    #[must_use]
    pub fn from_secs(secs: u64) -> (d: Self)
        ensures
            d@ == secs * NANOS_PER_SEC,
    {
        Self { nanos: secs as u128 * NANOS_PER_SEC }
    }

    /// A span of whole milliseconds.
    #[must_use]
    pub fn from_millis(millis: u64) -> (d: Self)
        ensures
            d@ == millis * NANOS_PER_MILLI,
    {
        Self { nanos: millis as u128 * NANOS_PER_MILLI }
    }

    /// A span of `secs` whole seconds and `nanos` nanoseconds of a further
    /// one.
    #[must_use]
    pub fn from_parts(secs: u64, nanos: u32) -> (d: Self)
        requires
            nanos < NANOS_PER_SEC,
        ensures
            d@ == secs * NANOS_PER_SEC + nanos,
    {
        Self { nanos: secs as u128 * NANOS_PER_SEC + nanos as u128 }
    }

    /// The whole seconds in the span.
    #[must_use]
    pub fn as_secs(&self) -> (secs: u64)
        ensures
            secs == self@ / NANOS_PER_SEC as nat,
    {
        proof {
            use_type_invariant(self);
        }
        (self.nanos / NANOS_PER_SEC) as u64
    }

    /// The nanoseconds beyond the whole seconds.
    #[must_use]
    pub fn subsec_nanos(&self) -> (nanos: u32)
        ensures
            nanos == self@ % NANOS_PER_SEC as nat,
            nanos < NANOS_PER_SEC,
    {
        (self.nanos % NANOS_PER_SEC) as u32
    }

    /// The whole milliseconds in the span.
    #[must_use]
    pub fn as_millis(&self) -> (millis: u128)
        ensures
            millis == self@ / NANOS_PER_MILLI as nat,
    {
        self.nanos / NANOS_PER_MILLI
    }

    /// The span `factor` times over, or the longest span where that is longer.
    #[must_use]
    pub fn saturating_mul(self, factor: u32) -> (d: Self)
        ensures
            d@ == shorter(self@ * factor as nat, MAX_NANOS as nat),
    {
        proof {
            use_type_invariant(&self);
        }
        assert(self.nanos * factor <= MAX_NANOS * u32::MAX) by (nonlinear_arith)
            requires
                self.nanos <= MAX_NANOS,
                factor <= u32::MAX,
        ;
        let product: u128 = self.nanos * factor as u128;
        if product <= MAX_NANOS {
            Self { nanos: product }
        } else {
            Self { nanos: MAX_NANOS }
        }
    }

    /// The shorter of two spans.
    #[must_use]
    pub fn min(self, other: Self) -> (d: Self)
        ensures
            d@ == shorter(self@, other@),
            self@ <= MAX_NANOS,
            other@ <= MAX_NANOS,
    {
        proof {
            use_type_invariant(&self);
            use_type_invariant(&other);
        }
        if self.nanos <= other.nanos {
            self
        } else {
            other
        }
    }
}

/// The shorter of two spans is one of them, and not longer than either.
pub proof fn shorter_is_the_minimum(a: nat, b: nat)
    ensures
        shorter(a, b) <= a,
        shorter(a, b) <= b,
        shorter(a, b) == a || shorter(a, b) == b,
{
}

} // verus!
