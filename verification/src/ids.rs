use vstd::prelude::*;

verus! {

/// An object identifier: unique within a connection's live object set.
/// Zero is the null reference, meaning "no object".
#[derive(Clone, Copy, PartialEq, Eq, Structural, Debug)]
pub struct ObjectId(pub u32);

impl ObjectId {
    pub open spec fn spec_is_some(self) -> bool {
        self.0 != 0
    }

    pub fn from_raw(raw: u32) -> (r: Self)
        ensures
            r.0 == raw,
    {
        ObjectId(raw)
    }

    pub fn raw(self) -> (r: u32)
        ensures
            r == self.0,
    {
        self.0
    }

    /// Whether the identifier refers to an object, i.e. is not null.
    #[verifier::when_used_as_spec(spec_is_some)]
    pub fn is_some(self) -> (r: bool)
        ensures
            r == self.spec_is_some(),
    {
        self.0 != 0
    }

    pub fn is_none(self) -> (r: bool)
        ensures
            r == !self.spec_is_some(),
    {
        self.0 == 0
    }
}

/// The stable name of an advertised global capability.
#[derive(Clone, Copy, PartialEq, Eq, Structural, Debug)]
pub struct GlobalName(pub u32);

impl GlobalName {
    pub fn from_raw(raw: u32) -> (r: Self)
        ensures
            r.0 == raw,
    {
        GlobalName(raw)
    }

    pub fn raw(self) -> (r: u32)
        ensures
            r == self.0,
    {
        self.0
    }
}

} // verus!
