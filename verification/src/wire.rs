use vstd::prelude::*;
use crate::fixed::Fixed;
use crate::ids::ObjectId;
use crate::parser::{can_read_word, int_at, string_result, word_at, MsgParser, MsgParserError};

verus! {

/// A typed event record produced by a protocol object. The excluded
/// output layer serializes these through the codec and writes them to
/// the owning client's stream; this core only orders and types them.
#[derive(Clone, PartialEq, Eq, Debug)]
pub enum Event {
    PointerEnter { self_id: u32, serial: u32, surface: u32, surface_x: Fixed, surface_y: Fixed },
    PointerLeave { self_id: u32, serial: u32, surface: u32 },
    PointerMotion { self_id: u32, time: u32, surface_x: Fixed, surface_y: Fixed },
    PointerButton { self_id: u32, serial: u32, time: u32, button: u32, state: u32 },
    PointerAxis { self_id: u32, time: u32, axis: u32, value: Fixed },
    PointerFrame { self_id: u32 },
    PointerAxisSource { self_id: u32, axis_source: u32 },
    PointerAxisStop { self_id: u32, time: u32, axis: u32 },
    PointerAxisDiscrete { self_id: u32, axis: u32, discrete: i32 },
    /// A mime type advertised on a selection offer.
    SelectionOffer { self_id: u32, mime_type: String },
    /// A new selection offer announced to a device.
    SelectionDataOffer { self_id: u32, offer: u32 },
    /// The current selection announced to a device.
    SelectionSelection { self_id: u32, offer: u32 },
    /// A transfer request forwarded to a selection source.
    SelectionSend { self_id: u32, mime_type: String, fd: i32 },
    /// The path of the server's log file.
    LogFilePath { self_id: u32, path: String },
    XdgOutputLogicalPosition { self_id: u32, x: i32, y: i32 },
    XdgOutputLogicalSize { self_id: u32, width: i32, height: i32 },
}

/// The header of a framed message: the target object id, then a word
/// holding the opcode in its low 16 bits and the total byte length of
/// the message in its high 16 bits. Requests and events share this
/// framing.
#[derive(Clone, Copy, PartialEq, Eq, Structural, Debug)]
pub struct MsgHeader {
    pub id: u32,
    pub opcode: u32,
    pub len: u32,
}

/// Splits a message's two header words into id, opcode and length.
pub fn parse_header(word0: u32, word1: u32) -> (r: MsgHeader)
    ensures
        r.id == word0,
        r.opcode == word1 % 0x1_0000,
        r.len == word1 / 0x1_0000,
        r.opcode < 0x1_0000,
        r.len < 0x1_0000,
{
    proof {
        assert(word1 & 0xFFFF == word1 % 0x1_0000) by (bit_vector);
        assert(word1 >> 16 == word1 / 0x1_0000) by (bit_vector);
        assert(word1 % 0x1_0000 < 0x1_0000) by (bit_vector);
        assert(word1 / 0x1_0000 < 0x1_0000) by (bit_vector);
    }
    MsgHeader { id: word0, opcode: word1 & 0xFFFF, len: word1 >> 16 }
}

/// The abstract form of an event record: text fields appear as
/// character sequences, so contracts compare what an event says, not
/// which allocation carries it.
pub enum EventView {
    PointerEnter { self_id: u32, serial: u32, surface: u32, surface_x: Fixed, surface_y: Fixed },
    PointerLeave { self_id: u32, serial: u32, surface: u32 },
    PointerMotion { self_id: u32, time: u32, surface_x: Fixed, surface_y: Fixed },
    PointerButton { self_id: u32, serial: u32, time: u32, button: u32, state: u32 },
    PointerAxis { self_id: u32, time: u32, axis: u32, value: Fixed },
    PointerFrame { self_id: u32 },
    PointerAxisSource { self_id: u32, axis_source: u32 },
    PointerAxisStop { self_id: u32, time: u32, axis: u32 },
    PointerAxisDiscrete { self_id: u32, axis: u32, discrete: i32 },
    SelectionOffer { self_id: u32, mime_type: Seq<char> },
    SelectionDataOffer { self_id: u32, offer: u32 },
    SelectionSelection { self_id: u32, offer: u32 },
    SelectionSend { self_id: u32, mime_type: Seq<char>, fd: i32 },
    LogFilePath { self_id: u32, path: Seq<char> },
    XdgOutputLogicalPosition { self_id: u32, x: i32, y: i32 },
    XdgOutputLogicalSize { self_id: u32, width: i32, height: i32 },
}

impl View for Event {
    type V = EventView;

    open spec fn view(&self) -> EventView {
        match self {
            Event::PointerEnter { self_id, serial, surface, surface_x, surface_y } => (
            EventView::PointerEnter {
                self_id: *self_id,
                serial: *serial,
                surface: *surface,
                surface_x: *surface_x,
                surface_y: *surface_y,
            }),
            Event::PointerLeave { self_id, serial, surface } => (EventView::PointerLeave {
                self_id: *self_id,
                serial: *serial,
                surface: *surface,
            }),
            Event::PointerMotion { self_id, time, surface_x, surface_y } => (
            EventView::PointerMotion {
                self_id: *self_id,
                time: *time,
                surface_x: *surface_x,
                surface_y: *surface_y,
            }),
            Event::PointerButton { self_id, serial, time, button, state } => (
            EventView::PointerButton {
                self_id: *self_id,
                serial: *serial,
                time: *time,
                button: *button,
                state: *state,
            }),
            Event::PointerAxis { self_id, time, axis, value } => (EventView::PointerAxis {
                self_id: *self_id,
                time: *time,
                axis: *axis,
                value: *value,
            }),
            Event::PointerFrame { self_id } => EventView::PointerFrame { self_id: *self_id },
            Event::PointerAxisSource { self_id, axis_source } => (EventView::PointerAxisSource {
                self_id: *self_id,
                axis_source: *axis_source,
            }),
            Event::PointerAxisStop { self_id, time, axis } => (EventView::PointerAxisStop {
                self_id: *self_id,
                time: *time,
                axis: *axis,
            }),
            Event::PointerAxisDiscrete { self_id, axis, discrete } => (
            EventView::PointerAxisDiscrete {
                self_id: *self_id,
                axis: *axis,
                discrete: *discrete,
            }),
            Event::SelectionOffer { self_id, mime_type } => (EventView::SelectionOffer {
                self_id: *self_id,
                mime_type: mime_type@,
            }),
            Event::SelectionDataOffer { self_id, offer } => (EventView::SelectionDataOffer {
                self_id: *self_id,
                offer: *offer,
            }),
            Event::SelectionSelection { self_id, offer } => (EventView::SelectionSelection {
                self_id: *self_id,
                offer: *offer,
            }),
            Event::SelectionSend { self_id, mime_type, fd } => (EventView::SelectionSend {
                self_id: *self_id,
                mime_type: mime_type@,
                fd: *fd,
            }),
            Event::LogFilePath { self_id, path } => (EventView::LogFilePath {
                self_id: *self_id,
                path: path@,
            }),
            Event::XdgOutputLogicalPosition { self_id, x, y } => (
            EventView::XdgOutputLogicalPosition { self_id: *self_id, x: *x, y: *y }),
            Event::XdgOutputLogicalSize { self_id, width, height } => (
            EventView::XdgOutputLogicalSize {
                self_id: *self_id,
                width: *width,
                height: *height,
            }),
        }
    }
}

impl DeepView for Event {
    type V = EventView;

    open spec fn deep_view(&self) -> EventView {
        self.view()
    }
}

/// The `set_cursor` request of a pointer object.
#[derive(Clone, Copy, PartialEq, Eq, Structural, Debug)]
pub struct SetCursor {
    pub serial: u32,
    pub surface: ObjectId,
    pub hotspot_x: i32,
    pub hotspot_y: i32,
}

/// What parsing a `set_cursor` payload yields: the request and the new
/// cursor position, or the decode error.
pub open spec fn parse_set_cursor(data: Seq<u8>, pos: int) -> Result<
    (SetCursor, int),
    MsgParserError,
> {
    if 0 <= pos && pos + 16 <= data.len() {
        Ok(
            (
                SetCursor {
                    serial: word_at(data, pos),
                    surface: ObjectId(word_at(data, pos + 4)),
                    hotspot_x: int_at(data, pos + 8),
                    hotspot_y: int_at(data, pos + 12),
                },
                pos + 16,
            ),
        )
    } else {
        Err(MsgParserError::UnexpectedEof)
    }
}

impl SetCursor {
    pub fn parse(p: &mut MsgParser) -> (r: Result<Self, MsgParserError>)
        requires
            old(p).wf(),
        ensures
            final(p).wf(),
            final(p).data == old(p).data,
            final(p).fds == old(p).fds,
            match parse_set_cursor(old(p).data@, old(p).pos as int) {
                Ok((req, new_pos)) => r == Ok::<SetCursor, MsgParserError>(req) && final(p).pos
                    == new_pos,
                Err(e) => r == Err::<SetCursor, MsgParserError>(e),
            },
    {
        let serial = match p.uint() {
            Ok(v) => v,
            Err(e) => {
                return Err(e);
            },
        };
        let surface = match p.object() {
            Ok(v) => v,
            Err(e) => {
                return Err(e);
            },
        };
        let hotspot_x = match p.int32() {
            Ok(v) => v,
            Err(e) => {
                return Err(e);
            },
        };
        let hotspot_y = match p.int32() {
            Ok(v) => v,
            Err(e) => {
                return Err(e);
            },
        };
        Ok(SetCursor { serial, surface, hotspot_x, hotspot_y })
    }
}

/// The `get_xdg_output` request of an output-manager object.
#[derive(Clone, Copy, PartialEq, Eq, Structural, Debug)]
pub struct GetXdgOutput {
    pub id: ObjectId,
    pub output: ObjectId,
}

pub open spec fn parse_get_xdg_output(data: Seq<u8>, pos: int) -> Result<
    (GetXdgOutput, int),
    MsgParserError,
> {
    if 0 <= pos && pos + 8 <= data.len() {
        Ok(
            (
                GetXdgOutput {
                    id: ObjectId(word_at(data, pos)),
                    output: ObjectId(word_at(data, pos + 4)),
                },
                pos + 8,
            ),
        )
    } else {
        Err(MsgParserError::UnexpectedEof)
    }
}

impl GetXdgOutput {
    pub fn parse(p: &mut MsgParser) -> (r: Result<Self, MsgParserError>)
        requires
            old(p).wf(),
        ensures
            final(p).wf(),
            final(p).data == old(p).data,
            final(p).fds == old(p).fds,
            match parse_get_xdg_output(old(p).data@, old(p).pos as int) {
                Ok((req, new_pos)) => r == Ok::<GetXdgOutput, MsgParserError>(req) && final(p).pos
                    == new_pos,
                Err(e) => r == Err::<GetXdgOutput, MsgParserError>(e),
            },
    {
        let id = match p.object() {
            Ok(v) => v,
            Err(e) => {
                return Err(e);
            },
        };
        let output = match p.object() {
            Ok(v) => v,
            Err(e) => {
                return Err(e);
            },
        };
        Ok(GetXdgOutput { id, output })
    }
}

/// The `get_log_file` request of a compositor-control object.
#[derive(Clone, Copy, PartialEq, Eq, Structural, Debug)]
pub struct GetLogFile {
    pub id: ObjectId,
}

pub open spec fn parse_get_log_file(data: Seq<u8>, pos: int) -> Result<
    (GetLogFile, int),
    MsgParserError,
> {
    if can_read_word(data, pos) {
        Ok((GetLogFile { id: ObjectId(word_at(data, pos)) }, pos + 4))
    } else {
        Err(MsgParserError::UnexpectedEof)
    }
}

impl GetLogFile {
    pub fn parse(p: &mut MsgParser) -> (r: Result<Self, MsgParserError>)
        requires
            old(p).wf(),
        ensures
            final(p).wf(),
            final(p).data == old(p).data,
            final(p).fds == old(p).fds,
            match parse_get_log_file(old(p).data@, old(p).pos as int) {
                Ok((req, new_pos)) => r == Ok::<GetLogFile, MsgParserError>(req) && final(p).pos
                    == new_pos,
                Err(e) => r == Err::<GetLogFile, MsgParserError>(e),
            },
    {
        let id = match p.object() {
            Ok(v) => v,
            Err(e) => {
                return Err(e);
            },
        };
        Ok(GetLogFile { id })
    }
}

/// The `set_log_level` request of a compositor-control object.
#[derive(Clone, Copy, PartialEq, Eq, Structural, Debug)]
pub struct SetLogLevel {
    pub level: u32,
}

pub open spec fn parse_set_log_level(data: Seq<u8>, pos: int) -> Result<
    (SetLogLevel, int),
    MsgParserError,
> {
    if can_read_word(data, pos) {
        Ok((SetLogLevel { level: word_at(data, pos) }, pos + 4))
    } else {
        Err(MsgParserError::UnexpectedEof)
    }
}

impl SetLogLevel {
    pub fn parse(p: &mut MsgParser) -> (r: Result<Self, MsgParserError>)
        requires
            old(p).wf(),
        ensures
            final(p).wf(),
            final(p).data == old(p).data,
            final(p).fds == old(p).fds,
            match parse_set_log_level(old(p).data@, old(p).pos as int) {
                Ok((req, new_pos)) => r == Ok::<SetLogLevel, MsgParserError>(req) && final(p).pos
                    == new_pos,
                Err(e) => r == Err::<SetLogLevel, MsgParserError>(e),
            },
    {
        let level = match p.uint() {
            Ok(v) => v,
            Err(e) => {
                return Err(e);
            },
        };
        Ok(SetLogLevel { level })
    }
}

/// The `receive` request of a selection offer: a mime type and the file
/// handle the transfer should be written to.
#[derive(Clone, PartialEq, Eq, Debug)]
pub struct Receive {
    pub mime_type: String,
    pub fd: i32,
}

/// What parsing a `receive` payload yields: the mime type text, the file
/// handle taken from the out-of-band queue, and the new cursor position.
pub open spec fn parse_receive(data: Seq<u8>, pos: int, fds: Seq<i32>) -> Result<
    (Seq<char>, i32, int),
    MsgParserError,
> {
    match string_result(data, pos) {
        Ok((text, new_pos)) => if fds.len() > 0 {
            Ok((text, fds[0], new_pos))
        } else {
            Err(MsgParserError::MissingFd)
        },
        Err(e) => Err(e),
    }
}

impl Receive {
    pub fn parse(p: &mut MsgParser) -> (r: Result<Self, MsgParserError>)
        requires
            old(p).wf(),
        ensures
            final(p).wf(),
            final(p).data == old(p).data,
            match parse_receive(old(p).data@, old(p).pos as int, old(p).fds@) {
                Ok((text, fd, new_pos)) => r matches Ok(req) && req.mime_type@ == text && req.fd
                    == fd && final(p).pos == new_pos && final(p).fds@ == old(p).fds@.drop_first(),
                Err(e) => r == Err::<Receive, MsgParserError>(e),
            },
    {
        let mime_type = match p.string() {
            Ok(v) => v,
            Err(e) => {
                return Err(e);
            },
        };
        let fd = match p.fd() {
            Ok(v) => v,
            Err(e) => {
                return Err(e);
            },
        };
        Ok(Receive { mime_type, fd })
    }
}

} // verus!
