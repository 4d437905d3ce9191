use vstd::prelude::*;
use crate::ids::ObjectId;

verus! {

/// The slice of per-output state this runtime reads: identity, the
/// logical geometry that xdg-output extensions report, and the ids of
/// the xdg-output objects watching it (weak back-references, resolved
/// through the registry).
#[derive(Debug)]
pub struct WlOutput {
    pub id: ObjectId,
    pub x: i32,
    pub y: i32,
    pub width: i32,
    pub height: i32,
    pub xdg_outputs: Vec<u32>,
}

/// An xdg-output extension object bound to one output.
#[derive(Clone, Copy, PartialEq, Eq, Structural, Debug)]
pub struct ZxdgOutputV1 {
    pub id: ObjectId,
    pub version: u32,
    pub output: ObjectId,
}

} // verus!
