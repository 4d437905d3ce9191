use vstd::prelude::*;
use crate::client::{Client, ClientError, MIN_SERVER_ID};
use crate::ids::{GlobalName, ObjectId};
use crate::object::ProtocolObject;
use crate::output::ZxdgOutputV1;
use crate::parser::{MsgParser, MsgParserError};
use crate::wire::{parse_get_xdg_output, Event, EventView, GetXdgOutput};

verus! {

/// Request opcodes of the output-manager interface.
pub const DESTROY: u32 = 0;

pub const GET_XDG_OUTPUT: u32 = 1;

/// The advertised output-manager capability: a singleton at interface
/// version 3, bindable by any connection.
#[derive(Clone, Copy, PartialEq, Eq, Structural, Debug)]
pub struct ZxdgOutputManagerV1Global {
    pub name: GlobalName,
}

/// A bound output-manager object; it remembers the version negotiated
/// at bind time for the xdg-output objects it creates.
#[derive(Clone, Copy, PartialEq, Eq, Structural, Debug)]
pub struct ZxdgOutputManagerV1 {
    pub id: ObjectId,
    pub version: u32,
}

impl ZxdgOutputManagerV1Global {
    pub fn new(name: GlobalName) -> (r: Self)
        ensures
            r.name == name,
    {
        ZxdgOutputManagerV1Global { name }
    }

    /// Whether at most one bound instance may exist.
    pub fn singleton(&self) -> (r: bool)
        ensures
            r == true,
    {
        true
    }

    /// The advertised interface version.
    pub fn version(&self) -> (r: u32)
        ensures
            r == 3,
    {
        3
    }

    /// Whether only privileged connections may bind.
    pub fn secure(&self) -> (r: bool)
        ensures
            r == false,
    {
        false
    }
}

impl ZxdgOutputManagerV1Global {
    /// The bind factory: constructs an output-manager object that
    /// remembers the negotiated version, and registers it under the id
    /// the peer chose.
    pub fn bind_(&self, id: ObjectId, client: &mut Client, version: u32) -> (r: Result<
        (),
        ZxdgOutputManagerV1Error,
    >)
        requires
            old(client).wf(),
        ensures
            final(client).wf(),
            if id.0 == 0 || id.0 >= MIN_SERVER_ID {
                r == Err::<(), ZxdgOutputManagerV1Error>(
                    ZxdgOutputManagerV1Error::ClientError(ClientError::IdOutsideClientRange(id.0)),
                ) && *final(client) == *old(client)
            } else if old(client).objs().contains_key(id.0) {
                r == Err::<(), ZxdgOutputManagerV1Error>(
                    ZxdgOutputManagerV1Error::ClientError(ClientError::IdAlreadyInUse(id.0)),
                ) && *final(client) == *old(client)
            } else {
                r == Ok::<(), ZxdgOutputManagerV1Error>(()) && *final(client) == (Client {
                    objects: final(client).objects,
                    ..*old(client)
                }) && final(client).objs() == old(client).objs().insert(
                    id.0,
                    ProtocolObject::ZxdgOutputManagerV1(ZxdgOutputManagerV1 { id, version }),
                )
            },
    {
        let obj = ZxdgOutputManagerV1 { id, version };
        match client.add_client_obj(ProtocolObject::ZxdgOutputManagerV1(obj)) {
            Ok(()) => Ok(()),
            Err(e) => Err(ZxdgOutputManagerV1Error::ClientError(e)),
        }
    }
}

impl ZxdgOutputManagerV1 {
    /// Detaches this object from the registry; the request carries no
    /// payload.
    pub fn destroy(&self, client: &mut Client, p: &mut MsgParser) -> (r: Result<(), DestroyError>)
        requires
            old(client).wf(),
        ensures
            *final(p) == *old(p),
            final(client).wf(),
            if old(client).objs().contains_key(self.id.0) {
                r == Ok::<(), DestroyError>(()) && *final(client) == (Client {
                    objects: final(client).objects,
                    ..*old(client)
                }) && final(client).objs() == old(client).objs().remove(self.id.0)
            } else {
                r == Err::<(), DestroyError>(
                    DestroyError::ClientError(ClientError::ObjectDoesNotExist(self.id.0)),
                ) && *final(client) == *old(client)
            },
    {
        match client.remove_obj(self.id.raw()) {
            Ok(_) => Ok(()),
            Err(e) => Err(DestroyError::ClientError(e)),
        }
    }

    /// Creates an xdg-output extension object for a live output,
    /// registers it under the peer-chosen id, reports the output's
    /// current logical geometry to it, and records it as a watcher on
    /// the output.
    pub fn get_xdg_output(&self, client: &mut Client, p: &mut MsgParser) -> (r: Result<
        (),
        GetXdgOutputError,
    >)
        requires
            old(p).wf(),
            old(client).wf(),
        ensures
            final(p).wf(),
            final(p).data == old(p).data,
            final(p).fds == old(p).fds,
            final(client).wf(),
            match parse_get_xdg_output(old(p).data@, old(p).pos as int) {
                Err(e) => r == Err::<(), GetXdgOutputError>(GetXdgOutputError::ParseError(e))
                    && *final(client) == *old(client),
                Ok((req, new_pos)) => final(p).pos == new_pos && (if !old(client).objs().contains_key(req.output.0) {
                    r == Err::<(), GetXdgOutputError>(
                        GetXdgOutputError::ClientError(ClientError::ObjectDoesNotExist(
                            req.output.0,
                        )),
                    ) && *final(client) == *old(client)
                } else if !old(client).objs()[req.output.0].is_output() {
                    r == Err::<(), GetXdgOutputError>(
                        GetXdgOutputError::ClientError(ClientError::WrongInterface(req.output.0)),
                    ) && *final(client) == *old(client)
                } else if req.id.0 == 0 || req.id.0 >= MIN_SERVER_ID {
                    r == Err::<(), GetXdgOutputError>(
                        GetXdgOutputError::ClientError(ClientError::IdOutsideClientRange(req.id.0)),
                    ) && *final(client) == *old(client)
                } else if old(client).objs().contains_key(req.id.0) {
                    r == Err::<(), GetXdgOutputError>(
                        GetXdgOutputError::ClientError(ClientError::IdAlreadyInUse(req.id.0)),
                    ) && *final(client) == *old(client)
                } else {
                    let out = old(client).objs()[req.output.0].as_output();
                    let xdg = ZxdgOutputV1 { id: req.id, version: self.version, output: req.output };
                    r == Ok::<(), GetXdgOutputError>(()) && *final(client) == (Client {
                        objects: final(client).objects,
                        events: final(client).events,
                        ..*old(client)
                    }) && final(client).objs().contains_key(req.output.0) && final(client).objs()[req.output.0].is_output() && ({
                        let after = final(client).objs()[req.output.0].as_output();
                        after.id == out.id && after.x == out.x && after.y == out.y && after.width
                            == out.width && after.height == out.height && after.xdg_outputs@
                            == out.xdg_outputs@.push(req.id.0)
                    }) && final(client).objs() == old(client).objs().insert(
                        req.id.0,
                        ProtocolObject::ZxdgOutputV1(xdg),
                    ).insert(req.output.0, final(client).objs()[req.output.0]) && final(client).evs() == old(client).evs().push(
                        EventView::XdgOutputLogicalPosition {
                            self_id: req.id.0,
                            x: out.x,
                            y: out.y,
                        },
                    ).push(
                        EventView::XdgOutputLogicalSize {
                            self_id: req.id.0,
                            width: out.width,
                            height: out.height,
                        },
                    )
                }),
            },
    {
        let req = match GetXdgOutput::parse(p) {
            Ok(v) => v,
            Err(e) => {
                return Err(GetXdgOutputError::ParseError(e));
            },
        };
        let (x, y, width, height) = match client.lookup(req.output.raw()) {
            Ok(ProtocolObject::WlOutput(o)) => (o.x, o.y, o.width, o.height),
            Ok(_) => {
                return Err(
                    GetXdgOutputError::ClientError(ClientError::WrongInterface(req.output.raw())),
                );
            },
            Err(e) => {
                return Err(GetXdgOutputError::ClientError(e));
            },
        };
        let xdg = ZxdgOutputV1 { id: req.id, version: self.version, output: req.output };
        match client.add_client_obj(ProtocolObject::ZxdgOutputV1(xdg)) {
            Ok(()) => {},
            Err(e) => {
                return Err(GetXdgOutputError::ClientError(e));
            },
        }
        client.event(Event::XdgOutputLogicalPosition { self_id: req.id.0, x, y });
        client.event(Event::XdgOutputLogicalSize { self_id: req.id.0, width, height });
        client.push_xdg_output(req.output.raw(), req.id.raw());
        Ok(())
    }
}

#[derive(Clone, Copy, PartialEq, Eq, Structural, Debug)]
pub enum ZxdgOutputManagerV1Error {
    ClientError(ClientError),
    DestroyError(DestroyError),
    GetXdgOutputError(GetXdgOutputError),
}

#[derive(Clone, Copy, PartialEq, Eq, Structural, Debug)]
pub enum DestroyError {
    ParseError(MsgParserError),
    ClientError(ClientError),
}

#[derive(Clone, Copy, PartialEq, Eq, Structural, Debug)]
pub enum GetXdgOutputError {
    ParseError(MsgParserError),
    ClientError(ClientError),
}

} // verus!
