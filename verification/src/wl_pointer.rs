use vstd::prelude::*;
use crate::client::{Client, ClientError};
use crate::fixed::Fixed;
use crate::ids::ObjectId;
use crate::parser::{MsgParser, MsgParserError};
use crate::seat::{AppCursor, Seat};
use crate::surface::{SurfaceRole, WlSurface, WlSurfaceError};
use crate::object::ProtocolObject;
use crate::wire::{parse_set_cursor, Event, SetCursor};

verus! {

/// Request opcodes of the pointer interface.
pub const SET_CURSOR: u32 = 0;

pub const RELEASE: u32 = 1;

pub const RELEASED: u32 = 0;

pub const PRESSED: u32 = 1;

pub const VERTICAL_SCROLL: u32 = 0;

pub const HORIZONTAL_SCROLL: u32 = 1;

pub const WHEEL: u32 = 0;

pub const FINGER: u32 = 1;

pub const CONTINUOUS: u32 = 2;

pub const WHEEL_TILT: u32 = 3;

pub const POINTER_FRAME_SINCE_VERSION: u32 = 5;

pub const AXIS_SOURCE_SINCE_VERSION: u32 = 5;

pub const AXIS_DISCRETE_SINCE_VERSION: u32 = 5;

pub const AXIS_STOP_SINCE_VERSION: u32 = 5;

pub const WHEEL_TILT_SINCE_VERSION: u32 = 6;

/// Scroll state accumulated across partial updates, one cell per axis,
/// drained atomically when a frame boundary fires. Owned by the
/// single-threaded scheduler and passed by exclusive reference, so no
/// reader ever sees a torn update.
#[derive(Clone, Copy, PartialEq, Eq, Debug)]
pub struct PendingScroll {
    pub discrete: [Option<i32>; 2],
    pub axis: [Option<Fixed>; 2],
    pub stop: [bool; 2],
    pub source: Option<u32>,
}

impl PendingScroll {
    /// The state with nothing accumulated.
    pub open spec fn spec_empty() -> PendingScroll {
        PendingScroll { discrete: [None, None], axis: [None, None], stop: [false, false], source: None }
    }

    pub fn new() -> (r: Self)
        ensures
            r == PendingScroll::spec_empty(),
    {
        PendingScroll { discrete: [None, None], axis: [None, None], stop: [false, false], source: None }
    }

    /// Drains the buffer: returns exactly what accumulated since the
    /// previous take and leaves the source empty, so no update is lost
    /// or duplicated.
    pub fn take(&mut self) -> (r: PendingScroll)
        ensures
            r == *old(self),
            *final(self) == PendingScroll::spec_empty(),
    {
        let r = *self;
        *self = PendingScroll::new();
        r
    }
}

impl Default for PendingScroll {
    fn default() -> (r: Self)
        ensures
            r == PendingScroll::spec_empty(),
    {
        PendingScroll::new()
    }
}

/// A bound pointer object. The seat it belongs to is passed to its
/// handlers; the registry owns the object itself.
#[derive(Clone, Copy, PartialEq, Eq, Structural, Debug)]
pub struct WlPointer {
    pub id: ObjectId,
}

/// The focus and serial gates of the cursor state machine: a cursor
/// change applies only while the requesting connection owns pointer
/// focus and cites the serial of the most recent enter delivered to it.
pub open spec fn cursor_applies(client: Client, seat: Seat, serial: u32) -> bool {
    seat.pointer_focus_client == Some(client.id) && serial == client.last_enter_serial
}

/// The validation of the surface named by a `set_cursor` request: the
/// null id passes, a dead id or a non-surface fails as a registry
/// error, and a surface with a conflicting role fails as a role error.
pub open spec fn cursor_surface_check(client: Client, sid: u32) -> Option<SetCursorError> {
    if sid == 0 {
        None
    } else if !client.objs().contains_key(sid) {
        Some(SetCursorError::ClientError(ClientError::ObjectDoesNotExist(sid)))
    } else if !client.objs()[sid].is_surface() {
        Some(SetCursorError::ClientError(ClientError::WrongInterface(sid)))
    } else if client.objs()[sid].as_surface().role == SurfaceRole::Other {
        Some(SetCursorError::WlSurfaceError(WlSurfaceError::IncompatibleRole))
    } else {
        None
    }
}

/// The seat's pointer set with one pointer's id taken out.
pub open spec fn without_pointer(pointers: Seq<u32>, id: u32) -> Seq<u32> {
    pointers.filter(|x: u32| x != id)
}

impl WlPointer {
    pub fn new(id: ObjectId) -> (r: Self)
        ensures
            r.id == id,
    {
        WlPointer { id }
    }

    pub fn send_enter(&self, client: &mut Client, serial: u32, surface: ObjectId, x: Fixed, y: Fixed)
        ensures
            *final(client) == (Client { events: final(client).events, ..*old(client) }),
            final(client).events@ == old(client).events@.push(
                Event::PointerEnter {
                    self_id: self.id.0,
                    serial,
                    surface: surface.0,
                    surface_x: x,
                    surface_y: y,
                },
            ),
    {
        client.event(
            Event::PointerEnter {
                self_id: self.id.0,
                serial,
                surface: surface.0,
                surface_x: x,
                surface_y: y,
            },
        );
    }

    pub fn send_leave(&self, client: &mut Client, serial: u32, surface: ObjectId)
        ensures
            *final(client) == (Client { events: final(client).events, ..*old(client) }),
            final(client).events@ == old(client).events@.push(
                Event::PointerLeave { self_id: self.id.0, serial, surface: surface.0 },
            ),
    {
        client.event(Event::PointerLeave { self_id: self.id.0, serial, surface: surface.0 });
    }

    pub fn send_motion(&self, client: &mut Client, time: u32, x: Fixed, y: Fixed)
        ensures
            *final(client) == (Client { events: final(client).events, ..*old(client) }),
            final(client).events@ == old(client).events@.push(
                Event::PointerMotion { self_id: self.id.0, time, surface_x: x, surface_y: y },
            ),
    {
        client.event(Event::PointerMotion { self_id: self.id.0, time, surface_x: x, surface_y: y });
    }

    pub fn send_button(&self, client: &mut Client, serial: u32, time: u32, button: u32, state: u32)
        ensures
            *final(client) == (Client { events: final(client).events, ..*old(client) }),
            final(client).events@ == old(client).events@.push(
                Event::PointerButton { self_id: self.id.0, serial, time, button, state },
            ),
    {
        client.event(Event::PointerButton { self_id: self.id.0, serial, time, button, state });
    }

    pub fn send_axis(&self, client: &mut Client, time: u32, axis: u32, value: Fixed)
        ensures
            *final(client) == (Client { events: final(client).events, ..*old(client) }),
            final(client).events@ == old(client).events@.push(
                Event::PointerAxis { self_id: self.id.0, time, axis, value },
            ),
    {
        client.event(Event::PointerAxis { self_id: self.id.0, time, axis, value });
    }

    pub fn send_frame(&self, client: &mut Client)
        ensures
            *final(client) == (Client { events: final(client).events, ..*old(client) }),
            final(client).events@ == old(client).events@.push(
                Event::PointerFrame { self_id: self.id.0 },
            ),
    {
        client.event(Event::PointerFrame { self_id: self.id.0 });
    }

    pub fn send_axis_source(&self, client: &mut Client, axis_source: u32)
        ensures
            *final(client) == (Client { events: final(client).events, ..*old(client) }),
            final(client).events@ == old(client).events@.push(
                Event::PointerAxisSource { self_id: self.id.0, axis_source },
            ),
    {
        client.event(Event::PointerAxisSource { self_id: self.id.0, axis_source });
    }

    pub fn send_axis_stop(&self, client: &mut Client, time: u32, axis: u32)
        ensures
            *final(client) == (Client { events: final(client).events, ..*old(client) }),
            final(client).events@ == old(client).events@.push(
                Event::PointerAxisStop { self_id: self.id.0, time, axis },
            ),
    {
        client.event(Event::PointerAxisStop { self_id: self.id.0, time, axis });
    }

    pub fn send_axis_discrete(&self, client: &mut Client, axis: u32, discrete: i32)
        ensures
            *final(client) == (Client { events: final(client).events, ..*old(client) }),
            final(client).events@ == old(client).events@.push(
                Event::PointerAxisDiscrete { self_id: self.id.0, axis, discrete },
            ),
    {
        client.event(Event::PointerAxisDiscrete { self_id: self.id.0, axis, discrete });
    }

    /// The cursor state machine. A request with a serial the server
    /// never issued, or sent while this connection does not own pointer
    /// focus, or citing a serial other than the most recent enter, is a
    /// no-op, not an error: the connection and seat are left bit-for-bit
    /// unchanged and no event is emitted. A valid request applies the
    /// named surface (which takes the cursor role) and hotspot as the
    /// seat's cursor, or clears the cursor when the null id is named.
    pub fn set_cursor(&self, client: &mut Client, seat: &mut Seat, p: &mut MsgParser) -> (r: Result<
        (),
        SetCursorError,
    >)
        requires
            old(p).wf(),
            old(client).wf(),
        ensures
            final(p).wf(),
            final(p).data == old(p).data,
            final(p).fds == old(p).fds,
            final(client).wf(),
            match parse_set_cursor(old(p).data@, old(p).pos as int) {
                Err(e) => r == Err::<(), SetCursorError>(SetCursorError::ParseError(e)) && *final(client) == *old(client) && *final(seat) == *old(seat),
                Ok((req, new_pos)) => final(p).pos == new_pos && (if req.serial > old(client).last_serial {
                    r == Ok::<(), SetCursorError>(()) && *final(client) == *old(client) && *final(seat) == *old(seat)
                } else {
                    match cursor_surface_check(*old(client), req.surface.0) {
                        Some(e) => r == Err::<(), SetCursorError>(e) && *final(client) == *old(client) && *final(seat) == *old(seat),
                        None => if !cursor_applies(*old(client), *old(seat), req.serial) {
                            r == Ok::<(), SetCursorError>(()) && *final(client) == *old(client)
                                && *final(seat) == *old(seat)
                        } else if req.surface.0 == 0 {
                            r == Ok::<(), SetCursorError>(()) && *final(client) == *old(client)
                                && *final(seat) == (Seat { app_cursor: None, ..*old(seat) })
                        } else {
                            r == Ok::<(), SetCursorError>(()) && *final(client) == (Client {
                                objects: final(client).objects,
                                ..*old(client)
                            }) && final(client).objs() == old(client).objs().insert(
                                req.surface.0,
                                ProtocolObject::WlSurface(
                                    WlSurface {
                                        id: old(client).objs()[req.surface.0].as_surface().id,
                                        role: SurfaceRole::Cursor,
                                    },
                                ),
                            ) && *final(seat) == (Seat {
                                app_cursor: Some(
                                    AppCursor {
                                        surface: req.surface.0,
                                        hotspot_x: req.hotspot_x,
                                        hotspot_y: req.hotspot_y,
                                    },
                                ),
                                ..*old(seat)
                            })
                        },
                    }
                }),
            },
    {
        let req = match SetCursor::parse(p) {
            Ok(v) => v,
            Err(e) => {
                return Err(SetCursorError::ParseError(e));
            },
        };
        if !client.valid_serial(req.serial) {
            // A serial the server never issued: stale intent, ignored.
            return Ok(());
        }
        let mut cursor_opt: Option<AppCursor> = None;
        if req.surface.is_some() {
            let sid = req.surface.raw();
            let surface: WlSurface = match client.lookup(sid) {
                Ok(ProtocolObject::WlSurface(s)) => *s,
                Ok(_) => {
                    return Err(SetCursorError::ClientError(ClientError::WrongInterface(sid)));
                },
                Err(e) => {
                    return Err(SetCursorError::ClientError(e));
                },
            };
            match surface.role {
                SurfaceRole::Other => {
                    return Err(SetCursorError::WlSurfaceError(WlSurfaceError::IncompatibleRole));
                },
                _ => {},
            }
            cursor_opt = Some(
                AppCursor { surface: sid, hotspot_x: req.hotspot_x, hotspot_y: req.hotspot_y },
            );
        }
        let focused = match seat.pointer_focus_client {
            Some(cid) => cid == client.id,
            None => false,
        };
        if !focused {
            // This connection does not own pointer focus: ignored.
            return Ok(());
        }
        if req.serial != client.last_enter_serial {
            // Not the serial of the latest enter: superseded intent.
            return Ok(());
        }
        if req.surface.is_some() {
            client.set_surface_role(req.surface.raw(), SurfaceRole::Cursor);
        }
        seat.app_cursor = cursor_opt;
        Ok(())
    }

    /// Unconditionally removes the pointer from the seat's pointer set
    /// and detaches it from the registry.
    pub fn release(&self, client: &mut Client, seat: &mut Seat, p: &mut MsgParser) -> (r: Result<
        (),
        ReleaseError,
    >)
        requires
            old(client).wf(),
        ensures
            *final(p) == *old(p),
            final(client).wf(),
            *final(seat) == (Seat { pointers: final(seat).pointers, ..*old(seat) }),
            final(seat).pointers@ == without_pointer(old(seat).pointers@, self.id.0),
            if old(client).objs().contains_key(self.id.0) {
                r == Ok::<(), ReleaseError>(()) && *final(client) == (Client {
                    objects: final(client).objects,
                    ..*old(client)
                }) && final(client).objs() == old(client).objs().remove(self.id.0)
            } else {
                r == Err::<(), ReleaseError>(
                    ReleaseError::ClientError(ClientError::ObjectDoesNotExist(self.id.0)),
                ) && *final(client) == *old(client)
            },
    {
        let mut kept: Vec<u32> = Vec::new();
        let mut i: usize = 0;
        while i < seat.pointers.len()
            invariant
                i <= seat.pointers.len(),
                seat.pointers@ == old(seat).pointers@,
                kept@ == without_pointer(old(seat).pointers@.subrange(0, i as int), self.id.0),
            decreases seat.pointers.len() - i,
        {
            let v = seat.pointers[i];
            proof {
                reveal_with_fuel(Seq::filter, 2);
                let sub1 = old(seat).pointers@.subrange(0, i + 1 as int);
                let sub0 = old(seat).pointers@.subrange(0, i as int);
                assert(sub1.drop_last() =~= sub0);
                assert(sub1.last() == v);
                assert(without_pointer(sub1, self.id.0) == (if v != self.id.0 {
                    without_pointer(sub0, self.id.0).push(v)
                } else {
                    without_pointer(sub0, self.id.0)
                }));
            }
            if v != self.id.raw() {
                kept.push(v);
            }
            i = i + 1;
        }
        proof {
            assert(old(seat).pointers@.subrange(0, old(seat).pointers@.len() as int) =~= old(seat).pointers@);
        }
        seat.pointers = kept;
        match client.remove_obj(self.id.raw()) {
            Ok(_) => Ok(()),
            Err(e) => Err(ReleaseError::ClientError(e)),
        }
    }
}

#[derive(Clone, Copy, PartialEq, Eq, Structural, Debug)]
pub enum WlPointerError {
    ClientError(ClientError),
    SetCursorError(SetCursorError),
    ReleaseError(ReleaseError),
}

#[derive(Clone, Copy, PartialEq, Eq, Structural, Debug)]
pub enum SetCursorError {
    ParseError(MsgParserError),
    ClientError(ClientError),
    WlSurfaceError(WlSurfaceError),
}

#[derive(Clone, Copy, PartialEq, Eq, Structural, Debug)]
pub enum ReleaseError {
    ParseError(MsgParserError),
    ClientError(ClientError),
}

} // verus!
