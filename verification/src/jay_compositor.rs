use vstd::prelude::*;
use crate::client::{Client, ClientError, MIN_SERVER_ID};
use crate::ids::{GlobalName, ObjectId};
use crate::object::ProtocolObject;
use crate::parser::{MsgParser, MsgParserError};
use crate::state::{LogLevel, State};
use crate::wire::{parse_get_log_file, parse_set_log_level, Event, EventView, GetLogFile, SetLogLevel};

verus! {

/// Request opcodes of the compositor-control interface.
pub const DESTROY: u32 = 0;

pub const GET_LOG_FILE: u32 = 1;

pub const QUIT: u32 = 2;

pub const SET_LOG_LEVEL: u32 = 3;

/// The advertised compositor-control capability: a secure singleton at
/// interface version 1.
#[derive(Clone, Copy, PartialEq, Eq, Structural, Debug)]
pub struct JayCompositorGlobal {
    pub name: GlobalName,
}

/// A bound compositor-control object.
#[derive(Clone, Copy, PartialEq, Eq, Structural, Debug)]
pub struct JayCompositor {
    pub id: ObjectId,
}

/// A log-file handle object created by `get_log_file`.
#[derive(Clone, Copy, PartialEq, Eq, Structural, Debug)]
pub struct JayLogFile {
    pub id: ObjectId,
}

impl JayCompositorGlobal {
    pub fn new(name: GlobalName) -> (r: Self)
        ensures
            r.name == name,
    {
        JayCompositorGlobal { name }
    }

    /// Whether at most one bound instance may exist.
    pub fn singleton(&self) -> (r: bool)
        ensures
            r == true,
    {
        true
    }

    /// The advertised interface version.
    pub fn version(&self) -> (r: u32)
        ensures
            r == 1,
    {
        1
    }

    /// Whether only privileged connections may bind.
    pub fn secure(&self) -> (r: bool)
        ensures
            r == true,
    {
        true
    }
}

impl JayCompositorGlobal {
    /// The bind factory: constructs a compositor-control object and
    /// registers it under the id the peer chose, touching nothing else.
    pub fn bind_(&self, id: ObjectId, client: &mut Client, _version: u32) -> (r: Result<
        (),
        JayCompositorError,
    >)
        requires
            old(client).wf(),
        ensures
            final(client).wf(),
            if id.0 == 0 || id.0 >= MIN_SERVER_ID {
                r == Err::<(), JayCompositorError>(
                    JayCompositorError::ClientError(ClientError::IdOutsideClientRange(id.0)),
                ) && *final(client) == *old(client)
            } else if old(client).objs().contains_key(id.0) {
                r == Err::<(), JayCompositorError>(
                    JayCompositorError::ClientError(ClientError::IdAlreadyInUse(id.0)),
                ) && *final(client) == *old(client)
            } else {
                r == Ok::<(), JayCompositorError>(()) && *final(client) == (Client {
                    objects: final(client).objects,
                    ..*old(client)
                }) && final(client).objs() == old(client).objs().insert(
                    id.0,
                    ProtocolObject::JayCompositor(JayCompositor { id }),
                )
            },
    {
        let obj = JayCompositor { id };
        match client.add_client_obj(ProtocolObject::JayCompositor(obj)) {
            Ok(()) => Ok(()),
            Err(e) => Err(JayCompositorError::ClientError(e)),
        }
    }
}

impl JayCompositor {
    /// Detaches this object from the registry; the request carries no
    /// payload.
    pub fn destroy(&self, client: &mut Client, p: &mut MsgParser) -> (r: Result<(), DestroyError>)
        requires
            old(client).wf(),
        ensures
            *final(p) == *old(p),
            final(client).wf(),
            if old(client).objs().contains_key(self.id.0) {
                r == Ok::<(), DestroyError>(()) && *final(client) == (Client {
                    objects: final(client).objects,
                    ..*old(client)
                }) && final(client).objs() == old(client).objs().remove(self.id.0)
            } else {
                r == Err::<(), DestroyError>(
                    DestroyError::ClientError(ClientError::ObjectDoesNotExist(self.id.0)),
                ) && *final(client) == *old(client)
            },
    {
        match client.remove_obj(self.id.raw()) {
            Ok(_) => Ok(()),
            Err(e) => Err(DestroyError::ClientError(e)),
        }
    }

    /// Creates a log-file handle object under the peer-chosen id and
    /// tells it the path of the server's log file.
    pub fn get_log_file(&self, state: &State, client: &mut Client, p: &mut MsgParser) -> (r: Result<
        (),
        GetLogFileError,
    >)
        requires
            old(p).wf(),
            old(client).wf(),
        ensures
            final(p).wf(),
            final(p).data == old(p).data,
            final(p).fds == old(p).fds,
            final(client).wf(),
            match parse_get_log_file(old(p).data@, old(p).pos as int) {
                Err(e) => r == Err::<(), GetLogFileError>(GetLogFileError::MsgParserError(e))
                    && *final(client) == *old(client),
                Ok((req, new_pos)) => final(p).pos == new_pos && (if req.id.0 == 0 || req.id.0
                    >= MIN_SERVER_ID {
                    r == Err::<(), GetLogFileError>(
                        GetLogFileError::ClientError(ClientError::IdOutsideClientRange(req.id.0)),
                    ) && *final(client) == *old(client)
                } else if old(client).objs().contains_key(req.id.0) {
                    r == Err::<(), GetLogFileError>(
                        GetLogFileError::ClientError(ClientError::IdAlreadyInUse(req.id.0)),
                    ) && *final(client) == *old(client)
                } else {
                    r == Ok::<(), GetLogFileError>(()) && *final(client) == (Client {
                        objects: final(client).objects,
                        events: final(client).events,
                        ..*old(client)
                    }) && final(client).objs() == old(client).objs().insert(
                        req.id.0,
                        ProtocolObject::JayLogFile(JayLogFile { id: req.id }),
                    ) && final(client).evs() == old(client).evs().push(
                        EventView::LogFilePath { self_id: req.id.0, path: state.log_path@ },
                    )
                }),
            },
    {
        let req = match GetLogFile::parse(p) {
            Ok(v) => v,
            Err(e) => {
                return Err(GetLogFileError::MsgParserError(e));
            },
        };
        let log_file = JayLogFile { id: req.id };
        match client.add_client_obj(ProtocolObject::JayLogFile(log_file)) {
            Ok(()) => {},
            Err(e) => {
                return Err(GetLogFileError::ClientError(e));
            },
        }
        let path = state.log_path.clone();
        client.event(Event::LogFilePath { self_id: req.id.0, path });
        Ok(())
    }

    /// Stops the event loop; the request carries no payload.
    pub fn quit(&self, state: &mut State, p: &mut MsgParser) -> (r: Result<(), QuitError>)
        ensures
            *final(p) == *old(p),
            r == Ok::<(), QuitError>(()),
            *final(state) == (State { running: false, ..*old(state) }),
    {
        state.running = false;
        Ok(())
    }

    /// Adjusts the diagnostic severity threshold; an unknown wire level
    /// is rejected and changes nothing.
    pub fn set_log_level(&self, state: &mut State, p: &mut MsgParser) -> (r: Result<
        (),
        SetLogLevelError,
    >)
        requires
            old(p).wf(),
        ensures
            final(p).wf(),
            final(p).data == old(p).data,
            final(p).fds == old(p).fds,
            match parse_set_log_level(old(p).data@, old(p).pos as int) {
                Err(e) => r == Err::<(), SetLogLevelError>(SetLogLevelError::MsgParserError(e))
                    && *final(state) == *old(state),
                Ok((req, new_pos)) => final(p).pos == new_pos && (match LogLevel::spec_from_wire(
                    req.level,
                ) {
                    Some(level) => r == Ok::<(), SetLogLevelError>(()) && *final(state) == (State {
                        log_level: level,
                        ..*old(state)
                    }),
                    None => r == Err::<(), SetLogLevelError>(
                        SetLogLevelError::UnknownLogLevel(req.level),
                    ) && *final(state) == *old(state),
                }),
            },
    {
        let req = match SetLogLevel::parse(p) {
            Ok(v) => v,
            Err(e) => {
                return Err(SetLogLevelError::MsgParserError(e));
            },
        };
        let level = match LogLevel::from_wire(req.level) {
            Some(level) => level,
            None => {
                return Err(SetLogLevelError::UnknownLogLevel(req.level));
            },
        };
        state.log_level = level;
        Ok(())
    }
}

#[derive(Clone, Copy, PartialEq, Eq, Structural, Debug)]
pub enum JayCompositorError {
    DestroyError(DestroyError),
    GetLogFileError(GetLogFileError),
    QuitError(QuitError),
    SetLogLevelError(SetLogLevelError),
    ClientError(ClientError),
}

#[derive(Clone, Copy, PartialEq, Eq, Structural, Debug)]
pub enum DestroyError {
    MsgParserError(MsgParserError),
    ClientError(ClientError),
}

#[derive(Clone, Copy, PartialEq, Eq, Structural, Debug)]
pub enum GetLogFileError {
    MsgParserError(MsgParserError),
    ClientError(ClientError),
}

#[derive(Clone, Copy, PartialEq, Eq, Structural, Debug)]
pub enum QuitError {
    MsgParserError(MsgParserError),
}

#[derive(Clone, Copy, PartialEq, Eq, Structural, Debug)]
pub enum SetLogLevelError {
    MsgParserError(MsgParserError),
    UnknownLogLevel(u32),
}

} // verus!
