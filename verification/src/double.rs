//! A double-precision number as its IEEE 754 bits: stored, copied and held against a range, never
//! computed with.

use vstd::arithmetic::power2::*;
use vstd::prelude::*;

verus! {

/// A double-precision number.
#[derive(Clone, Copy, Debug, PartialEq, Eq, Structural)]
pub struct Double {
    /// Sign, exponent and fraction, from the highest bit down.
    pub bits: u64,
}

impl View for Double {
    type V = Double;

    open spec fn view(&self) -> Double {
        *self
    }
}

/// The biased exponent of 1.0.
pub const EXPONENT_OF_ONE: u64 = 1023;


impl Double {
    /// The biased exponent.
    pub open spec fn exponent(self) -> nat {
        (self.bits as nat % 0x8000_0000_0000_0000) / 0x10_0000_0000_0000
    }

    /// The fraction.
    pub open spec fn fraction(self) -> nat {
        self.bits as nat % 0x10_0000_0000_0000
    }

    /// Whether the sign bit is set.
    pub open spec fn negative(self) -> bool {
        self.bits >= 0x8000_0000_0000_0000
    }

    /// Neither infinite nor not-a-number.
    pub open spec fn finite(self) -> bool {
        self.exponent() < 2047
    }

    /// The absolute value of a finite number, in units of two to the power of -1074.
    pub open spec fn magnitude(self) -> nat {
        if self.exponent() == 0 {
            self.fraction()
        } else {
            (0x10_0000_0000_0000 + self.fraction()) * pow2((self.exponent() - 1) as nat)
        }
    }

    /// Whether the number is at least 0.0 and at most two to the power of `k`.
    pub open spec fn from_zero_to_pow2(self, k: nat) -> bool {
        &&& self.finite()
        &&& self.negative() ==> self.magnitude() == 0
        &&& self.magnitude() <= pow2(1074 + k)
    }

    /// Whether the number is above 0.0: a finite one that is, or the positive infinity.
    pub open spec fn positive(self) -> bool {
        &&& !self.negative()
        &&& if self.finite() {
            self.magnitude() > 0
        } else {
            self.fraction() == 0
        }
    }

    /// Whether the number is above 0.0.
    pub fn above_zero(self) -> (r: bool)
        ensures
            r == self.positive(),
    {
        proof {
            let e = self.exponent();
            let f = self.fraction();
            if !self.negative() {
                assert(self.bits as nat == e * 0x10_0000_0000_0000 + f);
            }
            if e > 0 {
                let p = pow2((e - 1) as nat);
                lemma_pow2_pos((e - 1) as nat);
                assert((0x10_0000_0000_0000 + f) * p > 0) by (nonlinear_arith)
                    requires
                        p > 0,
                ;
            }
        }
        0 < self.bits && self.bits <= 0x7ff0_0000_0000_0000
    }

    /// Whether the bits stand for a number from 0.0 to two to the power of `k`.
    fn within(self, k: u64) -> (r: bool)
        requires
            k <= 1,
        ensures
            r == self.from_zero_to_pow2(k as nat),
    {
        let magnitude_bits: u64 = self.bits % 0x8000_0000_0000_0000;
        let top: u64 = (EXPONENT_OF_ONE + k) * 0x10_0000_0000_0000;
        let r = magnitude_bits <= top && (self.bits < 0x8000_0000_0000_0000 || magnitude_bits == 0);
        proof {
            let e = self.exponent();
            let m = self.fraction();
            let e0: nat = (EXPONENT_OF_ONE + k) as nat;
            assert(self.bits as nat % 0x10_0000_0000_0000 == magnitude_bits as nat
                % 0x10_0000_0000_0000);
            assert(magnitude_bits as nat == e * 0x10_0000_0000_0000 + m);
            lemma_pow2_adds(52, (e0 - 1) as nat);
            assert(pow2(52) == 0x10_0000_0000_0000) by {
                lemma2_to64_rest();
            }
            if e == 0 {
                lemma_pow2_pos((e0 - 1) as nat);
                assert(pow2(1074 + k as nat) >= 0x10_0000_0000_0000) by (nonlinear_arith)
                    requires
                        pow2(1074 + k as nat) == 0x10_0000_0000_0000 * pow2((e0 - 1) as nat),
                        pow2((e0 - 1) as nat) >= 1,
                ;
            } else {
                let p = pow2((e - 1) as nat);
                lemma_pow2_pos((e - 1) as nat);
                assert(self.magnitude() == (0x10_0000_0000_0000 + m) * p);
                assert(self.magnitude() > 0) by (nonlinear_arith)
                    requires
                        self.magnitude() == (0x10_0000_0000_0000 + m) * p,
                        p > 0,
                ;
                if e < e0 {
                    lemma_pow2_unfold(e);
                    if e < e0 - 1 {
                        lemma_pow2_strictly_increases(e, (e0 - 1) as nat);
                    }
                    let q = pow2((e0 - 1) as nat);
                    assert(2 * p <= q);
                    assert((0x10_0000_0000_0000 + m) * p <= 0x10_0000_0000_0000 * q)
                        by (nonlinear_arith)
                        requires
                            2 * p <= q,
                            m < 0x10_0000_0000_0000,
                            p > 0,
                    ;
                } else if e == e0 {
                    assert((0x10_0000_0000_0000 + m) * p <= 0x10_0000_0000_0000 * p <==> m == 0)
                        by (nonlinear_arith)
                        requires
                            p > 0,
                            m >= 0,
                    ;
                } else {
                    lemma_pow2_strictly_increases((e0 - 1) as nat, (e - 1) as nat);
                    let q = pow2((e0 - 1) as nat);
                    assert((0x10_0000_0000_0000 + m) * p > 0x10_0000_0000_0000 * q)
                        by (nonlinear_arith)
                        requires
                            p > q,
                            m >= 0,
                    ;
                }
            }
        }
        r
    }

    /// Whether the number is at least 0.0 and at most 1.0.
    pub fn in_unit_range(self) -> (r: bool)
        ensures
            r == self.from_zero_to_pow2(0),
    {
        self.within(0)
    }

    /// Whether the number is at least 0.0 and at most 2.0.
    pub fn in_double_range(self) -> (r: bool)
        ensures
            r == self.from_zero_to_pow2(1),
    {
        self.within(1)
    }
}

} // verus!
