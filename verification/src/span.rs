//! Time spans with nanosecond resolution.

use vstd::prelude::*;

verus! {

/// Nanoseconds in one second.
pub const NANOS_PER_SEC: u128 = 1_000_000_000;

/// Nanoseconds in one millisecond.
pub const NANOS_PER_MILLI: u128 = 1_000_000;

/// The longest span that can be represented: `u64::MAX` whole seconds and
/// 999,999,999 nanoseconds.
pub const MAX_SPAN_NANOS: u128 = 18_446_744_073_709_551_615_999_999_999;

/// A non-negative span of time, held as a whole number of nanoseconds.
///
/// Every value lies between zero and [`MAX_SPAN_NANOS`], so a span always
/// splits into a `u64` of whole seconds and a sub-second part below one
/// second. The view of a span is its length in nanoseconds.
#[derive(Clone, Copy, Debug, PartialEq, Eq, Structural)]
pub struct Span {
    nanos: u128,
}

impl View for Span {
    type V = nat;

    closed spec fn view(&self) -> nat {
        self.nanos as nat
    }
}

impl Span {
    #[verifier::type_invariant]
    spec fn in_range(self) -> bool {
        self.nanos <= MAX_SPAN_NANOS
    }

    /// The empty span.
    pub fn zero() -> (span: Span)
        ensures
            span@ == 0,
    {
        Span { nanos: 0 }
    }

    /// The span of `nanos` nanoseconds, or `None` where that is longer than
    /// [`MAX_SPAN_NANOS`].
    pub fn from_nanos(nanos: u128) -> (span: Option<Span>)
        ensures
            match span {
                Some(s) => nanos <= MAX_SPAN_NANOS && s@ == nanos,
                None => nanos > MAX_SPAN_NANOS,
            },
    {
        if nanos <= MAX_SPAN_NANOS {
            Some(Span { nanos })
        } else {
            None
        }
    }

    /// The span of `millis` milliseconds. Every `u64` of milliseconds fits.
    pub fn from_millis(millis: u64) -> (span: Span)
        ensures
            span@ == millis * NANOS_PER_MILLI,
    {
        Span { nanos: millis as u128 * NANOS_PER_MILLI }
    }

    /// The span's length in nanoseconds.
    pub fn as_nanos(&self) -> (nanos: u128)
        ensures
            nanos == self@,
            nanos <= MAX_SPAN_NANOS,
    {
        proof {
            use_type_invariant(self);
        }
        self.nanos
    }

    /// The whole seconds in the span.
    pub fn as_secs(&self) -> (secs: u64)
        ensures
            secs == self@ / (NANOS_PER_SEC as nat),
    {
        proof {
            use_type_invariant(self);
        }
        (self.nanos / NANOS_PER_SEC) as u64
    }

    /// What is left of the span beyond its whole seconds, in nanoseconds.
    pub fn subsec_nanos(&self) -> (nanos: u32)
        ensures
            nanos == self@ % (NANOS_PER_SEC as nat),
            nanos < NANOS_PER_SEC,
    {
        (self.nanos % NANOS_PER_SEC) as u32
    }

    /// Whether this span is strictly longer than `other`.
    pub fn exceeds(&self, other: &Span) -> (longer: bool)
        ensures
            longer == (self@ > other@),
    {
        self.nanos > other.nanos
    }

    /// The sum of the two spans, or `None` where the sum is longer than
    /// [`MAX_SPAN_NANOS`].
    pub fn checked_add(&self, other: &Span) -> (sum: Option<Span>)
        ensures
            match sum {
                Some(s) => s@ == self@ + other@ && s@ <= MAX_SPAN_NANOS,
                None => self@ + other@ > MAX_SPAN_NANOS,
            },
    {
        proof {
            use_type_invariant(self);
            use_type_invariant(other);
        }
        let nanos: u128 = self.nanos + other.nanos;
        if nanos <= MAX_SPAN_NANOS {
            Some(Span { nanos })
        } else {
            None
        }
    }

    /// This span shortened by `other`, stopping at zero: the empty span where
    /// `other` is the longer of the two.
    pub fn saturating_sub(&self, other: &Span) -> (rest: Span)
        ensures
            rest@ == if self@ >= other@ { self@ - other@ } else { 0 },
    {
        proof {
            use_type_invariant(self);
        }
        if self.nanos >= other.nanos {
            Span { nanos: self.nanos - other.nanos }
        } else {
            Span { nanos: 0 }
        }
    }

    /// The span divided into `parts` equal parts, rounded down to a whole
    /// nanosecond, or `None` where `parts` is zero.
    pub fn checked_div(&self, parts: u128) -> (part: Option<Span>)
        ensures
            match part {
                Some(p) => parts > 0 && p@ == self@ / (parts as nat),
                None => parts == 0,
            },
    {
        proof {
            use_type_invariant(self);
        }
        if parts == 0 {
            None
        } else {
            let nanos: u128 = self.nanos / parts;
            assert(nanos <= self.nanos) by (nonlinear_arith)
                requires
                    nanos == self.nanos / parts,
                    parts > 0,
            ;
            Some(Span { nanos })
        }
    }
}

} // verus!
