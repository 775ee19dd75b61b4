//! Fixed-point value types of the order domain. A price or quantity is held
//! as its raw integer mantissa; all arithmetic on them is exact.

use vstd::prelude::*;

verus! {

/// The largest raw price mantissa accepted, so that any difference of two
/// prices fits a signed 64-bit integer.
pub const MAX_PRICE_RAW: u64 = 0x7fff_ffff_ffff_ffff;

/// A price as a raw fixed-point mantissa.
#[derive(Clone, Copy, Debug, PartialEq, Eq, Structural, Hash)]
pub struct Price {
    pub raw: u64,
}

impl Price {
    pub fn new(raw: u64) -> (r: Self)
        requires
            raw <= MAX_PRICE_RAW,
        ensures
            r.raw == raw,
    {
        Price { raw }
    }

    /// Whether the price is strictly positive.
    pub open spec fn is_positive(self) -> bool {
        self.raw > 0
    }
}

/// A quantity as a raw fixed-point mantissa.
#[derive(Clone, Copy, Debug, PartialEq, Eq, Structural, Hash)]
pub struct Quantity {
    pub raw: u64,
}

impl Quantity {
    pub fn new(raw: u64) -> (r: Self)
        ensures
            r.raw == raw,
    {
        Quantity { raw }
    }

    /// Whether the quantity is strictly positive.
    pub open spec fn is_positive(self) -> bool {
        self.raw > 0
    }
}

} // verus!
