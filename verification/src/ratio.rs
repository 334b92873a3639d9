//! An exact ratio of two machine integers.
//!
//! Derived quantities of a state — the coherence score and the collapsed
//! mean — are kept as exact fractions instead of approximate values, so
//! their defining equations can be stated and proved literally.

use vstd::arithmetic::div_mod::lemma_div_is_ordered;
use vstd::arithmetic::div_mod::lemma_fundamental_div_mod_converse;
use vstd::prelude::*;

verus! {

/// The fraction `num / den`. A well-formed ratio has a positive denominator.
#[derive(Clone, Copy, Debug, PartialEq, Eq, Structural)]
pub struct Ratio {
    pub num: i64,
    pub den: i64,
}

/// `num / den` rounded to the nearest thousandth (ties round away from
/// zero), for a nonnegative fraction: the numerator of the result over 1000.
pub open spec fn ratio_milli(num: int, den: int) -> int {
    (2000 * num + den) / (2 * den)
}

impl Ratio {
    /// A positive denominator, so the fraction denotes a number.
    pub open spec fn wf(self) -> bool {
        0 < self.den
    }

    /// The fraction lies in the closed unit interval [0, 1].
    pub open spec fn in_unit(self) -> bool {
        0 <= self.num <= self.den
    }

    /// The fraction rounded to the nearest thousandth, returned as a count
    /// of thousandths; a unit-interval fraction rounds to 0..=1000.
    pub fn to_milli(&self) -> (r: i64)
        requires
            self.wf(),
            self.in_unit(),
            self.den <= 4_000_000_000_000,
        ensures
            r == ratio_milli(self.num as int, self.den as int),
            0 <= r <= 1000,
    {
        let n: u64 = self.num as u64;
        let d: u64 = self.den as u64;
        let q: u64 = (2000 * n + d) / (2 * d);
        proof {
            let nn = self.num as int;
            let dd = self.den as int;
            assert(2000 * nn + dd <= 2001 * dd);
            lemma_div_is_ordered(2000 * nn + dd, 2001 * dd, 2 * dd);
            lemma_fundamental_div_mod_converse(2001 * dd, 2 * dd, 1000, dd);
            assert(ratio_milli(nn, dd) <= 1000);
        }
        q as i64
    }
}

} // verus!
