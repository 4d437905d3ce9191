use vstd::prelude::*;

verus! {

/// The cursor a focused client applied: a surface and its hotspot.
#[derive(Clone, Copy, PartialEq, Eq, Structural, Debug)]
pub struct AppCursor {
    pub surface: u32,
    pub hotspot_x: i32,
    pub hotspot_y: i32,
}

/// A primary-selection device registered on a seat, owned by one
/// connection.
#[derive(Clone, Copy, PartialEq, Eq, Structural, Debug)]
pub struct SeatDevice {
    pub client: u64,
    pub device: u32,
}

/// The seat-level state this runtime reads and writes: who holds
/// pointer focus, which cursor the focused client applied, which
/// pointer objects are bound, and which selection devices exist.
pub struct Seat {
    /// The connection that currently owns pointer focus, if any.
    pub pointer_focus_client: Option<u64>,
    /// The cursor most recently applied by a focused client.
    pub app_cursor: Option<AppCursor>,
    /// Ids of the pointer objects bound on this seat (weak references,
    /// resolved through the owning connection's registry).
    pub pointers: Vec<u32>,
    /// The primary-selection devices registered on this seat.
    pub devices: Vec<SeatDevice>,
}

impl Seat {
    pub fn new() -> (r: Self)
        ensures
            r.pointer_focus_client is None,
            r.app_cursor is None,
            r.pointers@ == Seq::<u32>::empty(),
            r.devices@ == Seq::<SeatDevice>::empty(),
    {
        Seat {
            pointer_focus_client: None,
            app_cursor: None,
            pointers: Vec::new(),
            devices: Vec::new(),
        }
    }
}

} // verus!
