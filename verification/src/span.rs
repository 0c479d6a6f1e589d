//! Lengths of time, to the nanosecond.

use vstd::prelude::*;

verus! {

/// Nanoseconds in one second.
pub const NANOS_PER_SEC: u32 = 1_000_000_000;

/// A length of time: whole seconds and the nanoseconds beyond them.
///
/// The view of a span is its length in nanoseconds.
#[derive(Clone, Copy, Debug, PartialEq, Eq, Structural)]
pub struct Span {
    secs: u64,
    nanos: u32,
}

impl View for Span {
    type V = nat;

    closed spec fn view(&self) -> nat {
        (self.secs * NANOS_PER_SEC + self.nanos) as nat
    }
}

impl Span {
    #[verifier::type_invariant]
    spec fn subsecond(self) -> bool {
        self.nanos < NANOS_PER_SEC
    }

    /// The length of the longest span, in nanoseconds.
    pub open spec fn longest() -> nat {
        (u64::MAX * NANOS_PER_SEC + (NANOS_PER_SEC - 1)) as nat
    }

    /// The span of `secs` seconds and `nanos` nanoseconds; none where
    /// `nanos` makes up a second or more.
    pub fn new(secs: u64, nanos: u32) -> (r: Option<Span>)
        ensures
            r is Some <==> nanos < NANOS_PER_SEC,
            r matches Some(s) ==> s@ == secs * NANOS_PER_SEC + nanos,
    {
        if nanos < NANOS_PER_SEC {
            Some(Span { secs, nanos })
        } else {
            None
        }
    }

    /// The span of `secs` whole seconds.
    pub fn from_secs(secs: u64) -> (r: Span)
        ensures
            r@ == secs * NANOS_PER_SEC,
    {
        Span { secs, nanos: 0 }
    }

    /// The whole seconds in this span.
    pub fn secs(&self) -> (r: u64)
        ensures
            r == self@ / (NANOS_PER_SEC as nat),
    {
        proof {
            use_type_invariant(self);
            vstd::arithmetic::div_mod::lemma_fundamental_div_mod_converse(
                self@ as int,
                NANOS_PER_SEC as int,
                self.secs as int,
                self.nanos as int,
            );
        }
        self.secs
    }

    /// The nanoseconds of this span beyond its whole seconds.
    pub fn subsec_nanos(&self) -> (r: u32)
        ensures
            r == self@ % (NANOS_PER_SEC as nat),
            r < NANOS_PER_SEC,
    {
        proof {
            use_type_invariant(self);
            vstd::arithmetic::div_mod::lemma_fundamental_div_mod_converse(
                self@ as int,
                NANOS_PER_SEC as int,
                self.secs as int,
                self.nanos as int,
            );
        }
        self.nanos
    }

    /// The length of this span in nanoseconds.
    pub fn as_nanos(&self) -> (r: u128)
        ensures
            r == self@,
    {
        proof {
            use_type_invariant(self);
            assert(self.secs * NANOS_PER_SEC <= u64::MAX * NANOS_PER_SEC) by (nonlinear_arith)
                requires
                    self.secs <= u64::MAX,
            ;
        }
        let whole: u128 = self.secs as u128 * NANOS_PER_SEC as u128;
        whole + self.nanos as u128
    }

    /// Whether this span has no length.
    pub fn is_zero(&self) -> (r: bool)
        ensures
            r == (self@ == 0),
    {
        self.secs == 0 && self.nanos == 0
    }

    /// This span `count` times over; none where that is longer than the
    /// longest span.
    pub fn checked_mul(&self, count: u64) -> (r: Option<Span>)
        ensures
            r is Some <==> self@ * count <= Span::longest(),
            r matches Some(s) ==> s@ == self@ * count,
    {
        proof {
            use_type_invariant(self);
        }
        let per_sec: u128 = NANOS_PER_SEC as u128;
        assert(self.secs * count <= u64::MAX * u64::MAX) by (nonlinear_arith)
            requires
                self.secs <= u64::MAX,
                count <= u64::MAX,
        ;
        assert(self.nanos * count <= NANOS_PER_SEC * u64::MAX) by (nonlinear_arith)
            requires
                self.nanos <= NANOS_PER_SEC,
                count <= u64::MAX,
        ;
        let whole: u128 = self.secs as u128 * count as u128;
        let loose: u128 = self.nanos as u128 * count as u128;
        let carry: u128 = loose / per_sec;
        let rest: u128 = loose % per_sec;
        let secs: u128 = whole + carry;
        proof {
            vstd::arithmetic::div_mod::lemma_fundamental_div_mod(loose as int, per_sec as int);
            assert(self@ * count == secs * NANOS_PER_SEC + rest) by (nonlinear_arith)
                requires
                    self@ == self.secs * NANOS_PER_SEC + self.nanos,
                    secs == self.secs * count + carry,
                    self.nanos * count == NANOS_PER_SEC * carry + rest,
            ;
        }
        if secs <= u64::MAX as u128 {
            Some(Span { secs: secs as u64, nanos: rest as u32 })
        } else {
            None
        }
    }
}

} // verus!
