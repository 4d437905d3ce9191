use vstd::prelude::*;
use crate::ids::ObjectId;

verus! {

/// The role a surface currently plays. A surface can take the cursor
/// role only while it has no conflicting role.
#[derive(Clone, Copy, PartialEq, Eq, Structural, Debug)]
pub enum SurfaceRole {
    Unassigned,
    Cursor,
    Other,
}

/// The slice of per-surface state this runtime reads: its identity and
/// its role. Everything else about surfaces belongs to the excluded
/// rendering pipeline.
#[derive(Clone, Copy, PartialEq, Eq, Structural, Debug)]
pub struct WlSurface {
    pub id: ObjectId,
    pub role: SurfaceRole,
}

/// Failures of surface-role negotiation.
#[derive(Clone, Copy, PartialEq, Eq, Structural, Debug)]
pub enum WlSurfaceError {
    /// The surface already plays a role that excludes the requested one.
    IncompatibleRole,
}

} // verus!
