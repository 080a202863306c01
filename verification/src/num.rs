use vstd::prelude::*;

verus! {

/// A real number, carried as the bit pattern of a double-precision value.
///
/// The library never inspects the bits itself: all arithmetic on `Real`
/// values is delegated to the expression evaluator, and the contracts speak
/// of the bit patterns only through uninterpreted functions of them. Equality
/// of two `Real` values is equality of their bit patterns, so `-0.0` and
/// `0.0` are distinct and a `NaN` is equal to itself.
#[derive(Clone, Copy, PartialEq, Eq, Structural, Debug)]
pub struct Real {
    pub bits: u64,
}

impl Real {
    /// Wraps the bit pattern of a double-precision value.
    pub fn from_bits(bits: u64) -> (r: Real)
        ensures
            r.bits == bits,
    {
        Real { bits }
    }

    /// The bit pattern this value carries.
    pub fn to_bits(&self) -> (r: u64)
        ensures
            r == self.bits,
    {
        self.bits
    }
}

/// The bit patterns behind an optional real value.
pub open spec fn opt_bits(r: Option<Real>) -> Option<u64> {
    match r {
        Option::None => Option::None,
        Option::Some(v) => Option::Some(v.bits),
    }
}

} // verus!
