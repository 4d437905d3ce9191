use vstd::prelude::*;
use crate::client::{Client, ClientError};
use crate::jay_compositor;
use crate::jay_compositor::{JayCompositor, JayCompositorError};
use crate::object::ProtocolObject;
use crate::parser::{MsgParser, MsgParserError};
use crate::seat::Seat;
use crate::state::{LogLevel, State};
use crate::surface::{SurfaceRole, WlSurface};
use crate::wire::{
    parse_get_log_file, parse_get_xdg_output, parse_receive, parse_set_cursor,
    parse_set_log_level, EventView,
};
use crate::wl_pointer;
use crate::wl_pointer::{
    cursor_applies, cursor_surface_check, without_pointer, SetCursorError, WlPointer,
    WlPointerError,
};
use crate::zwp_primary_selection_offer_v1;
use crate::zwp_primary_selection_offer_v1::{
    disconnected_objs, ZwpPrimarySelectionOfferV1, ZwpPrimarySelectionOfferV1Error,
};
use crate::zxdg_output_manager_v1;
use crate::zxdg_output_manager_v1::{ZxdgOutputManagerV1, ZxdgOutputManagerV1Error};
use crate::seat::AppCursor;
use crate::output::ZxdgOutputV1;
use crate::client::MIN_SERVER_ID;

verus! {

/// The connection-level error taxonomy: the shared registry errors
/// plus each interface's own enumeration. Any of these reaching the
/// dispatch boundary is fatal to the connection.
#[derive(Clone, Copy, PartialEq, Eq, Structural, Debug)]
pub enum DispatchError {
    ClientError(ClientError),
    JayCompositorError(JayCompositorError),
    WlPointerError(WlPointerError),
    ZxdgOutputManagerV1Error(ZxdgOutputManagerV1Error),
    ZwpPrimarySelectionOfferV1Error(ZwpPrimarySelectionOfferV1Error),
}

/// Routes one incoming message to its target object's handler: the
/// target is resolved in the registry, the opcode is checked against
/// the object's accepted bound before the handler runs (so a rejected
/// opcode has no side effect at all), the handler decodes its payload
/// through a fresh cursor scoped to this message, and after it returns
/// the cursor must sit exactly at the payload's end.
pub fn dispatch(
    state: &mut State,
    seat: &mut Seat,
    client: &mut Client,
    id: u32,
    opcode: u32,
    payload: Vec<u8>,
    fds: Vec<i32>,
) -> (r: Result<(), DispatchError>)
    requires
        old(client).wf(),
    ensures
        final(client).wf(),
        !old(client).objs().contains_key(id) ==> r == Err::<(), DispatchError>(
            DispatchError::ClientError(ClientError::ObjectDoesNotExist(id)),
        ) && *final(client) == *old(client) && *final(seat) == *old(seat) && *final(state) == *old(state),
        old(client).objs().contains_key(id) && opcode >= old(client).objs()[id].spec_num_requests() ==> r == Err::<(), DispatchError>(
            DispatchError::ClientError(ClientError::InvalidMethod(id, opcode)),
        ) && *final(client) == *old(client) && *final(seat) == *old(seat) && *final(state) == *old(state),
        (old(client).objs().contains_key(id) && (old(client).objs()[id] matches ProtocolObject::JayCompositor(_)) && opcode == jay_compositor::DESTROY) ==> *final(seat)
            == *old(seat) && *final(state) == *old(state) && *final(client) == (Client {
            objects: final(client).objects,
            ..*old(client)
        }) && final(client).objs() == old(client).objs().remove(id) && r == (if payload@.len()
            == 0 {
            Ok::<(), DispatchError>(())
        } else {
            Err::<(), DispatchError>(
                DispatchError::JayCompositorError(
                    JayCompositorError::DestroyError(
                        jay_compositor::DestroyError::MsgParserError(MsgParserError::TrailingData),
                    ),
                ),
            )
        }),
        (old(client).objs().contains_key(id) && (old(client).objs()[id] matches ProtocolObject::JayCompositor(_)) && opcode == jay_compositor::GET_LOG_FILE) ==> *final(seat) == *old(seat) && *final(state) == *old(state) && (match parse_get_log_file(payload@, 0) {
            Err(e) => r == Err::<(), DispatchError>(
                DispatchError::JayCompositorError(
                    JayCompositorError::GetLogFileError(
                        jay_compositor::GetLogFileError::MsgParserError(e),
                    ),
                ),
            ) && *final(client) == *old(client),
            Ok((req, new_pos)) => if req.id.0 == 0 || req.id.0 >= MIN_SERVER_ID {
                r == Err::<(), DispatchError>(
                    DispatchError::JayCompositorError(
                        JayCompositorError::GetLogFileError(
                            jay_compositor::GetLogFileError::ClientError(
                                ClientError::IdOutsideClientRange(req.id.0),
                            ),
                        ),
                    ),
                ) && *final(client) == *old(client)
            } else if old(client).objs().contains_key(req.id.0) {
                r == Err::<(), DispatchError>(
                    DispatchError::JayCompositorError(
                        JayCompositorError::GetLogFileError(
                            jay_compositor::GetLogFileError::ClientError(
                                ClientError::IdAlreadyInUse(req.id.0),
                            ),
                        ),
                    ),
                ) && *final(client) == *old(client)
            } else {
                *final(client) == (Client {
                    objects: final(client).objects,
                    events: final(client).events,
                    ..*old(client)
                }) && final(client).objs() == old(client).objs().insert(
                    req.id.0,
                    ProtocolObject::JayLogFile(jay_compositor::JayLogFile { id: req.id }),
                ) && final(client).evs() == old(client).evs().push(
                    EventView::LogFilePath { self_id: req.id.0, path: old(state).log_path@ },
                ) && r == (if new_pos == payload@.len() {
                    Ok::<(), DispatchError>(())
                } else {
                    Err::<(), DispatchError>(
                        DispatchError::JayCompositorError(
                            JayCompositorError::GetLogFileError(
                                jay_compositor::GetLogFileError::MsgParserError(
                                    MsgParserError::TrailingData,
                                ),
                            ),
                        ),
                    )
                })
            },
        }),
        (old(client).objs().contains_key(id) && (old(client).objs()[id] matches ProtocolObject::JayCompositor(_)) && opcode == jay_compositor::QUIT) ==> *final(seat)
            == *old(seat) && *final(client) == *old(client) && *final(state) == (State {
            running: false,
            ..*old(state)
        }) && r == (if payload@.len() == 0 {
            Ok::<(), DispatchError>(())
        } else {
            Err::<(), DispatchError>(
                DispatchError::JayCompositorError(
                    JayCompositorError::QuitError(
                        jay_compositor::QuitError::MsgParserError(MsgParserError::TrailingData),
                    ),
                ),
            )
        }),
        (old(client).objs().contains_key(id) && (old(client).objs()[id] matches ProtocolObject::JayCompositor(_)) && opcode == jay_compositor::SET_LOG_LEVEL) ==> *final(seat) == *old(seat) && *final(client) == *old(client) && (match parse_set_log_level(
            payload@,
            0,
        ) {
            Err(e) => r == Err::<(), DispatchError>(
                DispatchError::JayCompositorError(
                    JayCompositorError::SetLogLevelError(
                        jay_compositor::SetLogLevelError::MsgParserError(e),
                    ),
                ),
            ) && *final(state) == *old(state),
            Ok((req, new_pos)) => match LogLevel::spec_from_wire(req.level) {
                Some(level) => *final(state) == (State { log_level: level, ..*old(state) }) && r
                    == (if new_pos == payload@.len() {
                    Ok::<(), DispatchError>(())
                } else {
                    Err::<(), DispatchError>(
                        DispatchError::JayCompositorError(
                            JayCompositorError::SetLogLevelError(
                                jay_compositor::SetLogLevelError::MsgParserError(
                                    MsgParserError::TrailingData,
                                ),
                            ),
                        ),
                    )
                }),
                None => r == Err::<(), DispatchError>(
                    DispatchError::JayCompositorError(
                        JayCompositorError::SetLogLevelError(
                            jay_compositor::SetLogLevelError::UnknownLogLevel(req.level),
                        ),
                    ),
                ) && *final(state) == *old(state),
            },
        }),
        (old(client).objs().contains_key(id) && (old(client).objs()[id] matches ProtocolObject::WlPointer(_)) && opcode == wl_pointer::SET_CURSOR) ==> *final(state)
            == *old(state) && (match parse_set_cursor(payload@, 0) {
            Err(e) => r == Err::<(), DispatchError>(
                DispatchError::WlPointerError(
                    WlPointerError::SetCursorError(SetCursorError::ParseError(e)),
                ),
            ) && *final(client) == *old(client) && *final(seat) == *old(seat),
            Ok((req, new_pos)) => if req.serial > old(client).last_serial {
                *final(client) == *old(client) && *final(seat) == *old(seat) && r == (if new_pos
                    == payload@.len() {
                    Ok::<(), DispatchError>(())
                } else {
                    Err::<(), DispatchError>(
                        DispatchError::WlPointerError(
                            WlPointerError::SetCursorError(
                                SetCursorError::ParseError(MsgParserError::TrailingData),
                            ),
                        ),
                    )
                })
            } else {
                match cursor_surface_check(*old(client), req.surface.0) {
                    Some(e) => r == Err::<(), DispatchError>(
                        DispatchError::WlPointerError(WlPointerError::SetCursorError(e)),
                    ) && *final(client) == *old(client) && *final(seat) == *old(seat),
                    None => (if !cursor_applies(*old(client), *old(seat), req.serial) {
                        *final(client) == *old(client) && *final(seat) == *old(seat)
                    } else if req.surface.0 == 0 {
                        *final(client) == *old(client) && *final(seat) == (Seat {
                            app_cursor: None,
                            ..*old(seat)
                        })
                    } else {
                        *final(client) == (Client {
                            objects: final(client).objects,
                            ..*old(client)
                        }) && final(client).objs() == old(client).objs().insert(
                            req.surface.0,
                            ProtocolObject::WlSurface(
                                WlSurface {
                                    id: old(client).objs()[req.surface.0].as_surface().id,
                                    role: SurfaceRole::Cursor,
                                },
                            ),
                        ) && *final(seat) == (Seat {
                            app_cursor: Some(
                                AppCursor {
                                    surface: req.surface.0,
                                    hotspot_x: req.hotspot_x,
                                    hotspot_y: req.hotspot_y,
                                },
                            ),
                            ..*old(seat)
                        })
                    }) && r == (if new_pos == payload@.len() {
                        Ok::<(), DispatchError>(())
                    } else {
                        Err::<(), DispatchError>(
                            DispatchError::WlPointerError(
                                WlPointerError::SetCursorError(
                                    SetCursorError::ParseError(MsgParserError::TrailingData),
                                ),
                            ),
                        )
                    }),
                }
            },
        }),
        (old(client).objs().contains_key(id) && (old(client).objs()[id] matches ProtocolObject::WlPointer(_)) && opcode == wl_pointer::RELEASE) ==> *final(state)
            == *old(state) && *final(seat) == (Seat {
            pointers: final(seat).pointers,
            ..*old(seat)
        }) && final(seat).pointers@ == without_pointer(old(seat).pointers@, id) && *final(client)
            == (Client { objects: final(client).objects, ..*old(client) }) && final(client).objs()
            == old(client).objs().remove(id) && r == (if payload@.len() == 0 {
            Ok::<(), DispatchError>(())
        } else {
            Err::<(), DispatchError>(
                DispatchError::WlPointerError(
                    WlPointerError::ReleaseError(
                        wl_pointer::ReleaseError::ParseError(MsgParserError::TrailingData),
                    ),
                ),
            )
        }),
        (old(client).objs().contains_key(id) && (old(client).objs()[id] matches ProtocolObject::ZwpPrimarySelectionOfferV1(_)) && opcode
            == zwp_primary_selection_offer_v1::RECEIVE) ==> *final(state) == *old(state) && *final(seat) == *old(seat) && (match parse_receive(payload@, 0, fds@) {
            Err(e) => r == Err::<(), DispatchError>(
                DispatchError::ZwpPrimarySelectionOfferV1Error(
                    ZwpPrimarySelectionOfferV1Error::ReceiveError(
                        zwp_primary_selection_offer_v1::ReceiveError::ParseFailed(e),
                    ),
                ),
            ) && *final(client) == *old(client),
            Ok((mime, fd, new_pos)) => (match old(client).objs()[id].as_offer().source {
                Some(sid) => if old(client).objs().contains_key(sid.0) && old(client).objs()[sid.0].is_source() {
                    *final(client) == (Client {
                        events: final(client).events,
                        ..*old(client)
                    }) && final(client).evs() == old(client).evs().push(
                        EventView::SelectionSend { self_id: sid.0, mime_type: mime, fd },
                    )
                } else {
                    *final(client) == *old(client)
                },
                None => *final(client) == *old(client),
            }) && r == (if new_pos == payload@.len() {
                Ok::<(), DispatchError>(())
            } else {
                Err::<(), DispatchError>(
                    DispatchError::ZwpPrimarySelectionOfferV1Error(
                        ZwpPrimarySelectionOfferV1Error::ReceiveError(
                            zwp_primary_selection_offer_v1::ReceiveError::ParseFailed(
                                MsgParserError::TrailingData,
                            ),
                        ),
                    ),
                )
            }),
        }),
        (old(client).objs().contains_key(id) && (old(client).objs()[id] matches ProtocolObject::ZwpPrimarySelectionOfferV1(_)) && opcode
            == zwp_primary_selection_offer_v1::DESTROY) ==> *final(state) == *old(state) && *final(seat) == *old(seat) && *final(client) == (Client {
            objects: final(client).objects,
            ..*old(client)
        }) && final(client).objs() == disconnected_objs(
            old(client).objs(),
            old(client).objs()[id].as_offer(),
        ).remove(id) && r == (if payload@.len() == 0 {
            Ok::<(), DispatchError>(())
        } else {
            Err::<(), DispatchError>(
                DispatchError::ZwpPrimarySelectionOfferV1Error(
                    ZwpPrimarySelectionOfferV1Error::DestroyError(
                        zwp_primary_selection_offer_v1::DestroyError::ParseFailed(
                            MsgParserError::TrailingData,
                        ),
                    ),
                ),
            )
        }),
        (old(client).objs().contains_key(id) && (old(client).objs()[id] matches ProtocolObject::ZxdgOutputManagerV1(_)) && opcode == zxdg_output_manager_v1::DESTROY)
            ==> *final(state) == *old(state) && *final(seat) == *old(seat) && *final(client) == (
        Client { objects: final(client).objects, ..*old(client) }) && final(client).objs() == old(client).objs().remove(id) && r == (if payload@.len() == 0 {
            Ok::<(), DispatchError>(())
        } else {
            Err::<(), DispatchError>(
                DispatchError::ZxdgOutputManagerV1Error(
                    ZxdgOutputManagerV1Error::DestroyError(
                        zxdg_output_manager_v1::DestroyError::ParseError(
                            MsgParserError::TrailingData,
                        ),
                    ),
                ),
            )
        }),
        (old(client).objs().contains_key(id) && (old(client).objs()[id] matches ProtocolObject::ZxdgOutputManagerV1(_)) && opcode
            == zxdg_output_manager_v1::GET_XDG_OUTPUT) ==> *final(state) == *old(state) && *final(seat) == *old(seat) && (match parse_get_xdg_output(payload@, 0) {
            Err(e) => r == Err::<(), DispatchError>(
                DispatchError::ZxdgOutputManagerV1Error(
                    ZxdgOutputManagerV1Error::GetXdgOutputError(
                        zxdg_output_manager_v1::GetXdgOutputError::ParseError(e),
                    ),
                ),
            ) && *final(client) == *old(client),
            Ok((req, new_pos)) => if !old(client).objs().contains_key(req.output.0) {
                r == Err::<(), DispatchError>(
                    DispatchError::ZxdgOutputManagerV1Error(
                        ZxdgOutputManagerV1Error::GetXdgOutputError(
                            zxdg_output_manager_v1::GetXdgOutputError::ClientError(
                                ClientError::ObjectDoesNotExist(req.output.0),
                            ),
                        ),
                    ),
                ) && *final(client) == *old(client)
            } else if !old(client).objs()[req.output.0].is_output() {
                r == Err::<(), DispatchError>(
                    DispatchError::ZxdgOutputManagerV1Error(
                        ZxdgOutputManagerV1Error::GetXdgOutputError(
                            zxdg_output_manager_v1::GetXdgOutputError::ClientError(
                                ClientError::WrongInterface(req.output.0),
                            ),
                        ),
                    ),
                ) && *final(client) == *old(client)
            } else if req.id.0 == 0 || req.id.0 >= MIN_SERVER_ID {
                r == Err::<(), DispatchError>(
                    DispatchError::ZxdgOutputManagerV1Error(
                        ZxdgOutputManagerV1Error::GetXdgOutputError(
                            zxdg_output_manager_v1::GetXdgOutputError::ClientError(
                                ClientError::IdOutsideClientRange(req.id.0),
                            ),
                        ),
                    ),
                ) && *final(client) == *old(client)
            } else if old(client).objs().contains_key(req.id.0) {
                r == Err::<(), DispatchError>(
                    DispatchError::ZxdgOutputManagerV1Error(
                        ZxdgOutputManagerV1Error::GetXdgOutputError(
                            zxdg_output_manager_v1::GetXdgOutputError::ClientError(
                                ClientError::IdAlreadyInUse(req.id.0),
                            ),
                        ),
                    ),
                ) && *final(client) == *old(client)
            } else {
                ({
                    let out = old(client).objs()[req.output.0].as_output();
                    *final(client) == (Client {
                        objects: final(client).objects,
                        events: final(client).events,
                        ..*old(client)
                    }) && final(client).objs() == old(client).objs().insert(
                        req.id.0,
                        ProtocolObject::ZxdgOutputV1(
                            ZxdgOutputV1 {
                                id: req.id,
                                version: old(client).objs()[id].as_manager().version,
                                output: req.output,
                            },
                        ),
                    ).insert(req.output.0, final(client).objs()[req.output.0]) && final(client).evs() == old(client).evs().push(
                        EventView::XdgOutputLogicalPosition { self_id: req.id.0, x: out.x, y: out.y },
                    ).push(
                        EventView::XdgOutputLogicalSize {
                            self_id: req.id.0,
                            width: out.width,
                            height: out.height,
                        },
                    ) && r == (if new_pos == payload@.len() {
                        Ok::<(), DispatchError>(())
                    } else {
                        Err::<(), DispatchError>(
                            DispatchError::ZxdgOutputManagerV1Error(
                                ZxdgOutputManagerV1Error::GetXdgOutputError(
                                    zxdg_output_manager_v1::GetXdgOutputError::ParseError(
                                        MsgParserError::TrailingData,
                                    ),
                                ),
                            ),
                        )
                    })
                })
            },
        }),
{
    let obj = match client.lookup(id) {
        Ok(o) => o,
        Err(e) => {
            return Err(DispatchError::ClientError(e));
        },
    };
    let bound = obj.num_requests();
    let mut jay: Option<JayCompositor> = None;
    let mut pointer: Option<WlPointer> = None;
    let mut manager: Option<ZxdgOutputManagerV1> = None;
    let mut offer: Option<ZwpPrimarySelectionOfferV1> = None;
    match obj {
        ProtocolObject::JayCompositor(c) => {
            jay = Some(*c);
        },
        ProtocolObject::WlPointer(c) => {
            pointer = Some(*c);
        },
        ProtocolObject::ZxdgOutputManagerV1(c) => {
            manager = Some(*c);
        },
        ProtocolObject::ZwpPrimarySelectionOfferV1(c) => {
            offer = Some(*c);
        },
        _ => {},
    }
    if opcode >= bound {
        return Err(DispatchError::ClientError(ClientError::InvalidMethod(id, opcode)));
    }
    let mut p = MsgParser::new(payload, fds);
    match jay {
        Some(c) => {
            let step: Result<(), JayCompositorError> = if opcode == jay_compositor::DESTROY {
                match c.destroy(client, &mut p) {
                    Ok(()) => Ok(()),
                    Err(e) => Err(JayCompositorError::DestroyError(e)),
                }
            } else if opcode == jay_compositor::GET_LOG_FILE {
                match c.get_log_file(state, client, &mut p) {
                    Ok(()) => Ok(()),
                    Err(e) => Err(JayCompositorError::GetLogFileError(e)),
                }
            } else if opcode == jay_compositor::QUIT {
                match c.quit(state, &mut p) {
                    Ok(()) => Ok(()),
                    Err(e) => Err(JayCompositorError::QuitError(e)),
                }
            } else {
                match c.set_log_level(state, &mut p) {
                    Ok(()) => Ok(()),
                    Err(e) => Err(JayCompositorError::SetLogLevelError(e)),
                }
            };
            match step {
                Ok(()) => match p.eof() {
                    Ok(()) => Ok(()),
                    Err(te) => Err(
                        DispatchError::JayCompositorError(
                            if opcode == jay_compositor::DESTROY {
                                JayCompositorError::DestroyError(
                                    jay_compositor::DestroyError::MsgParserError(te),
                                )
                            } else if opcode == jay_compositor::GET_LOG_FILE {
                                JayCompositorError::GetLogFileError(
                                    jay_compositor::GetLogFileError::MsgParserError(te),
                                )
                            } else if opcode == jay_compositor::QUIT {
                                JayCompositorError::QuitError(
                                    jay_compositor::QuitError::MsgParserError(te),
                                )
                            } else {
                                JayCompositorError::SetLogLevelError(
                                    jay_compositor::SetLogLevelError::MsgParserError(te),
                                )
                            },
                        ),
                    ),
                },
                Err(e) => Err(DispatchError::JayCompositorError(e)),
            }
        },
        None => match pointer {
            Some(c) => {
                let step: Result<(), WlPointerError> = if opcode == wl_pointer::SET_CURSOR {
                    match c.set_cursor(client, seat, &mut p) {
                        Ok(()) => Ok(()),
                        Err(e) => Err(WlPointerError::SetCursorError(e)),
                    }
                } else {
                    match c.release(client, seat, &mut p) {
                        Ok(()) => Ok(()),
                        Err(e) => Err(WlPointerError::ReleaseError(e)),
                    }
                };
                match step {
                    Ok(()) => match p.eof() {
                        Ok(()) => Ok(()),
                        Err(te) => Err(
                            DispatchError::WlPointerError(
                                if opcode == wl_pointer::SET_CURSOR {
                                    WlPointerError::SetCursorError(SetCursorError::ParseError(te))
                                } else {
                                    WlPointerError::ReleaseError(
                                        wl_pointer::ReleaseError::ParseError(te),
                                    )
                                },
                            ),
                        ),
                    },
                    Err(e) => Err(DispatchError::WlPointerError(e)),
                }
            },
            None => match manager {
                Some(c) => {
                    let step: Result<(), ZxdgOutputManagerV1Error> = if opcode
                        == zxdg_output_manager_v1::DESTROY {
                        match c.destroy(client, &mut p) {
                            Ok(()) => Ok(()),
                            Err(e) => Err(ZxdgOutputManagerV1Error::DestroyError(e)),
                        }
                    } else {
                        match c.get_xdg_output(client, &mut p) {
                            Ok(()) => Ok(()),
                            Err(e) => Err(ZxdgOutputManagerV1Error::GetXdgOutputError(e)),
                        }
                    };
                    match step {
                        Ok(()) => match p.eof() {
                            Ok(()) => Ok(()),
                            Err(te) => Err(
                                DispatchError::ZxdgOutputManagerV1Error(
                                    if opcode == zxdg_output_manager_v1::DESTROY {
                                        ZxdgOutputManagerV1Error::DestroyError(
                                            zxdg_output_manager_v1::DestroyError::ParseError(te),
                                        )
                                    } else {
                                        ZxdgOutputManagerV1Error::GetXdgOutputError(
                                            zxdg_output_manager_v1::GetXdgOutputError::ParseError(
                                                te,
                                            ),
                                        )
                                    },
                                ),
                            ),
                        },
                        Err(e) => Err(DispatchError::ZxdgOutputManagerV1Error(e)),
                    }
                },
                None => match offer {
                    Some(c) => {
                        let step: Result<(), ZwpPrimarySelectionOfferV1Error> = if opcode
                            == zwp_primary_selection_offer_v1::RECEIVE {
                            match c.receive(client, &mut p) {
                                Ok(()) => Ok(()),
                                Err(e) => Err(ZwpPrimarySelectionOfferV1Error::ReceiveError(e)),
                            }
                        } else {
                            match c.destroy(client, &mut p) {
                                Ok(()) => Ok(()),
                                Err(e) => Err(ZwpPrimarySelectionOfferV1Error::DestroyError(e)),
                            }
                        };
                        match step {
                            Ok(()) => match p.eof() {
                                Ok(()) => Ok(()),
                                Err(te) => Err(
                                    DispatchError::ZwpPrimarySelectionOfferV1Error(
                                        if opcode == zwp_primary_selection_offer_v1::RECEIVE {
                                            ZwpPrimarySelectionOfferV1Error::ReceiveError(
                                                zwp_primary_selection_offer_v1::ReceiveError::ParseFailed(
                                                    te,
                                                ),
                                            )
                                        } else {
                                            ZwpPrimarySelectionOfferV1Error::DestroyError(
                                                zwp_primary_selection_offer_v1::DestroyError::ParseFailed(
                                                    te,
                                                ),
                                            )
                                        },
                                    ),
                                ),
                            },
                            Err(e) => Err(DispatchError::ZwpPrimarySelectionOfferV1Error(e)),
                        }
                    },
                    None => {
                        proof {
                            assert(false);
                        }
                        Err(DispatchError::ClientError(ClientError::InvalidMethod(id, opcode)))
                    },
                },
            },
        },
    }
}

} // verus!
