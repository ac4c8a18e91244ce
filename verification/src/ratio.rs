//! Exact quotients of unsigned integers.
//!
//! Every fractional quantity of a frame (a scale factor, a distance in the
//! sampling volume, a colour channel) is kept as the quotient it was defined
//! by, so that nothing is rounded before the caller evaluates it.

use vstd::prelude::*;

verus! {

/// The quotient `num / den`, kept as written: it is neither reduced nor
/// evaluated. A zero denominator stands for no finite value.
#[derive(Clone, Copy, Debug, PartialEq, Eq)]
pub struct Ratio {
    pub num: u64,
    pub den: u64,
}

impl Ratio {
    /// The quotient names a number.
    pub open spec fn is_finite(self) -> bool {
        self.den != 0
    }

    /// Both quotients are finite and name the same number.
    pub open spec fn same_value(self, other: Ratio) -> bool {
        &&& self.is_finite()
        &&& other.is_finite()
        &&& self.num * other.den == other.num * self.den
    }

    /// The quotient is finite and names zero.
    pub open spec fn is_zero(self) -> bool {
        self.den != 0 && self.num == 0
    }

    /// The quotient is finite and names one.
    pub open spec fn is_one(self) -> bool {
        self.den != 0 && self.num == self.den
    }

    /// Tells whether two quotients are finite and name the same number,
    /// however each is written.
    pub fn same_value_as(&self, other: &Ratio) -> (same: bool)
        ensures
            same == self.same_value(*other),
    {
        if self.den == 0 || other.den == 0 {
            return false;
        }
        let a: u128 = self.num as u128;
        let b: u128 = other.den as u128;
        let c: u128 = other.num as u128;
        let d: u128 = self.den as u128;
        assert(a * b <= u128::MAX && c * d <= u128::MAX) by (nonlinear_arith)
            requires
                a <= u64::MAX,
                b <= u64::MAX,
                c <= u64::MAX,
                d <= u64::MAX,
        ;
        a * b == c * d
    }
}

/// A finite quotient names the same number as itself.
pub proof fn lemma_same_value_reflexive(a: Ratio)
    requires
        a.is_finite(),
    ensures
        a.same_value(a),
{
}

/// Naming the same number does not depend on the side a quotient stands on.
pub proof fn lemma_same_value_symmetric(a: Ratio, b: Ratio)
    ensures
        a.same_value(b) == b.same_value(a),
{
}

/// Two quotients that name the same number as a third name the same number.
pub proof fn lemma_same_value_transitive(a: Ratio, b: Ratio, c: Ratio)
    requires
        a.same_value(b),
        b.same_value(c),
    ensures
        a.same_value(c),
{
    let (an, ad) = (a.num as int, a.den as int);
    let (bn, bd) = (b.num as int, b.den as int);
    let (cn, cd) = (c.num as int, c.den as int);
    assert(an * cd == cn * ad) by (nonlinear_arith)
        requires
            an * bd == bn * ad,
            bn * cd == cn * bd,
            bd > 0,
            0 <= an,
            0 <= cn,
            0 <= bn,
            ad > 0,
            cd > 0,
    ;
}

/// A quotient is one exactly when it names the same number as `1 / 1`, and
/// zero exactly when it names the same number as `0 / 1`.
pub proof fn lemma_unit_values(a: Ratio)
    ensures
        a.is_one() == a.same_value(Ratio { num: 1, den: 1 }),
        a.is_zero() == a.same_value(Ratio { num: 0, den: 1 }),
{
}

} // verus!
