use vstd::prelude::*;

verus! {

/// A signed fixed-point number with 8 fractional bits, as carried on the
/// wire: the represented value is the raw integer divided by 256.
#[derive(Clone, Copy, PartialEq, Eq, Structural, Debug)]
pub struct Fixed(pub i32);

impl Fixed {
    /// The raw wire integer, i.e. the represented value times 256.
    pub open spec fn raw(self) -> int {
        self.0 as int
    }

    pub fn from_raw(raw: i32) -> (r: Self)
        ensures
            r.0 == raw,
    {
        Fixed(raw)
    }

    /// The fixed-point form of a whole number.
    pub fn from_int(v: i32) -> (r: Self)
        requires
            -0x0080_0000 <= v < 0x0080_0000,
        ensures
            r.0 == v * 256,
    {
        Fixed(v * 256)
    }

}

} // verus!
