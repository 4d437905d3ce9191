use vstd::prelude::*;
use vstd::slice::slice_subrange;
use vstd::utf8::{decode_utf8, encode_utf8, valid_utf8};
use crate::fixed::Fixed;
use crate::ids::{GlobalName, ObjectId};

verus! {

/// The decode-error taxonomy of the message codec. Every one of these is
/// fatal to the connection: the wire position is unrecoverable.
#[derive(Clone, Copy, PartialEq, Eq, Structural, Debug)]
pub enum MsgParserError {
    /// The message ended before a field's declared extent.
    UnexpectedEof,
    /// A string field held bytes that are not valid UTF-8.
    NonUtf8,
    /// A string field declared length zero, which leaves no room for the
    /// mandatory terminator byte.
    EmptyString,
    /// A field asked for an out-of-band file handle but none was queued.
    MissingFd,
    /// The cursor was not exactly at the end of the payload.
    TrailingData,
}

/// Whether a whole 32-bit word can be read at `pos`.
pub open spec fn can_read_word(data: Seq<u8>, pos: int) -> bool {
    0 <= pos && pos + 4 <= data.len()
}

/// The little-endian 32-bit word at byte offset `pos`.
pub open spec fn word_at(data: Seq<u8>, pos: int) -> u32
    recommends
        can_read_word(data, pos),
{
    (data[pos] + data[pos + 1] * 0x100 + data[pos + 2] * 0x1_0000 + data[pos + 3]
        * 0x100_0000) as u32
}

/// The word at `pos` reinterpreted as a signed integer.
pub open spec fn int_at(data: Seq<u8>, pos: int) -> i32 {
    word_at(data, pos) as i32
}

/// The result of decoding a string field at `pos`: the text and the new
/// cursor position, or the decode error. The 32-bit length counts the
/// text's UTF-8 bytes plus one terminator byte, and the cursor advances
/// over the length word and the length rounded up to a whole word.
pub open spec fn string_result(data: Seq<u8>, pos: int) -> Result<(Seq<char>, int), MsgParserError>
    recommends
        0 <= pos <= data.len(),
{
    if !can_read_word(data, pos) {
        Err(MsgParserError::UnexpectedEof)
    } else {
        let len = word_at(data, pos) as int;
        if len == 0 {
            Err(MsgParserError::EmptyString)
        } else {
            let cap = ((len + 3) / 4) * 4;
            if cap > data.len() - (pos + 4) {
                Err(MsgParserError::UnexpectedEof)
            } else {
                let text_bytes = data.subrange(pos + 4, pos + 4 + len - 1);
                if valid_utf8(text_bytes) {
                    Ok((decode_utf8(text_bytes), pos + 4 + cap))
                } else {
                    Err(MsgParserError::NonUtf8)
                }
            }
        }
    }
}

/// The little-endian byte encoding of a 32-bit word.
pub open spec fn word_bytes(w: u32) -> Seq<u8> {
    seq![
        (w % 0x100) as u8,
        ((w / 0x100) % 0x100) as u8,
        ((w / 0x1_0000) % 0x100) as u8,
        ((w / 0x100_0000) % 0x100) as u8,
    ]
}

/// The wire encoding of a string field carrying `text`: the length word,
/// the UTF-8 bytes of the text, a terminator byte, and zero padding up to
/// a word boundary.
pub open spec fn encode_string(text: Seq<char>) -> Seq<u8>
    recommends
        encode_utf8(text).len() + 1 <= u32::MAX,
{
    let b = encode_utf8(text);
    let len = b.len() + 1;
    let cap = ((len + 3) / 4) * 4;
    word_bytes(len as u32) + b + Seq::new((cap - b.len()) as nat, |i: int| 0u8)
}

/// A moving read cursor over one message's payload, together with the
/// out-of-band file handles queued by the transport for that message.
pub struct MsgParser {
    /// The payload bytes of the message being decoded.
    pub data: Vec<u8>,
    /// The read cursor, in bytes from the start of the payload.
    pub pos: usize,
    /// Raw file handles delivered alongside the word stream, oldest first.
    pub fds: Vec<i32>,
}

impl MsgParser {
    pub open spec fn wf(&self) -> bool {
        self.pos <= self.data.len()
    }

    pub fn new(data: Vec<u8>, fds: Vec<i32>) -> (r: Self)
        ensures
            r.data == data,
            r.pos == 0,
            r.fds == fds,
            r.wf(),
    {
        MsgParser { data, pos: 0, fds }
    }

    /// Consumes exactly 4 bytes as a signed integer.
    pub fn int32(&mut self) -> (r: Result<i32, MsgParserError>)
        requires
            old(self).wf(),
        ensures
            final(self).wf(),
            final(self).data == old(self).data,
            final(self).fds == old(self).fds,
            if can_read_word(old(self).data@, old(self).pos as int) {
                r == Ok::<i32, MsgParserError>(int_at(old(self).data@, old(self).pos as int))
                    && final(self).pos == old(self).pos + 4
            } else {
                r == Err::<i32, MsgParserError>(MsgParserError::UnexpectedEof) && final(self).pos
                    == old(self).pos
            },
    {
        match self.uint() {
            Ok(w) => Ok(#[verifier::truncate] (w as i32)),
            Err(e) => Err(e),
        }
    }

    /// Consumes exactly 4 bytes as an unsigned integer.
    pub fn uint(&mut self) -> (r: Result<u32, MsgParserError>)
        requires
            old(self).wf(),
        ensures
            final(self).wf(),
            final(self).data == old(self).data,
            final(self).fds == old(self).fds,
            if can_read_word(old(self).data@, old(self).pos as int) {
                r == Ok::<u32, MsgParserError>(word_at(old(self).data@, old(self).pos as int))
                    && final(self).pos == old(self).pos + 4
            } else {
                r == Err::<u32, MsgParserError>(MsgParserError::UnexpectedEof) && final(self).pos
                    == old(self).pos
            },
    {
        if self.data.len() - self.pos < 4 {
            return Err(MsgParserError::UnexpectedEof);
        }
        let b0 = self.data[self.pos] as u32;
        let b1 = self.data[self.pos + 1] as u32;
        let b2 = self.data[self.pos + 2] as u32;
        let b3 = self.data[self.pos + 3] as u32;
        let w: u32 = b0 + b1 * 0x100 + b2 * 0x1_0000 + b3 * 0x100_0000;
        self.pos = self.pos + 4;
        Ok(w)
    }

    /// Consumes exactly 4 bytes as an object reference; zero is the null
    /// reference.
    pub fn object(&mut self) -> (r: Result<ObjectId, MsgParserError>)
        requires
            old(self).wf(),
        ensures
            final(self).wf(),
            final(self).data == old(self).data,
            final(self).fds == old(self).fds,
            if can_read_word(old(self).data@, old(self).pos as int) {
                r == Ok::<ObjectId, MsgParserError>(
                    ObjectId(word_at(old(self).data@, old(self).pos as int)),
                ) && final(self).pos == old(self).pos + 4
            } else {
                r == Err::<ObjectId, MsgParserError>(MsgParserError::UnexpectedEof) && final(self).pos == old(self).pos
            },
    {
        match self.uint() {
            Ok(w) => Ok(ObjectId::from_raw(w)),
            Err(e) => Err(e),
        }
    }

    /// Consumes exactly 4 bytes as a global name.
    pub fn global(&mut self) -> (r: Result<GlobalName, MsgParserError>)
        requires
            old(self).wf(),
        ensures
            final(self).wf(),
            final(self).data == old(self).data,
            final(self).fds == old(self).fds,
            if can_read_word(old(self).data@, old(self).pos as int) {
                r == Ok::<GlobalName, MsgParserError>(
                    GlobalName(word_at(old(self).data@, old(self).pos as int)),
                ) && final(self).pos == old(self).pos + 4
            } else {
                r == Err::<GlobalName, MsgParserError>(MsgParserError::UnexpectedEof) && final(self).pos == old(self).pos
            },
    {
        match self.uint() {
            Ok(w) => Ok(GlobalName::from_raw(w)),
            Err(e) => Err(e),
        }
    }

    /// Consumes exactly 4 bytes as a fixed-point number with 8 fractional
    /// bits.
    pub fn fixed(&mut self) -> (r: Result<Fixed, MsgParserError>)
        requires
            old(self).wf(),
        ensures
            final(self).wf(),
            final(self).data == old(self).data,
            final(self).fds == old(self).fds,
            if can_read_word(old(self).data@, old(self).pos as int) {
                r == Ok::<Fixed, MsgParserError>(
                    Fixed(int_at(old(self).data@, old(self).pos as int)),
                ) && final(self).pos == old(self).pos + 4
            } else {
                r == Err::<Fixed, MsgParserError>(MsgParserError::UnexpectedEof) && final(self).pos == old(self).pos
            },
    {
        match self.int32() {
            Ok(i) => Ok(Fixed::from_raw(i)),
            Err(e) => Err(e),
        }
    }

    /// Decodes a string field. On failure the cursor is left where it
    /// stood, but every decode error is fatal to the connection anyway.
    pub fn string(&mut self) -> (r: Result<String, MsgParserError>)
        requires
            old(self).wf(),
        ensures
            final(self).wf(),
            final(self).data == old(self).data,
            final(self).fds == old(self).fds,
            match string_result(old(self).data@, old(self).pos as int) {
                Ok((text, new_pos)) => r matches Ok(s) && s@ == text && final(self).pos == new_pos,
                Err(e) => r == Err::<String, MsgParserError>(e) && final(self).pos == old(self).pos,
            },
    {
        let start = self.pos;
        let len_word = match self.uint() {
            Ok(w) => w,
            Err(e) => {
                return Err(e);
            },
        };
        if len_word == 0 {
            self.pos = start;
            return Err(MsgParserError::EmptyString);
        }
        let len: u64 = len_word as u64;
        let cap: u64 = ((len + 3) / 4) * 4;
        let remaining: u64 = (self.data.len() - self.pos) as u64;
        if cap > remaining {
            self.pos = start;
            return Err(MsgParserError::UnexpectedEof);
        }
        let text_end: usize = self.pos + (len as usize) - 1;
        let text_slice = slice_subrange(self.data.as_slice(), self.pos, text_end);
        match str_from_utf8(text_slice) {
            Some(s) => {
                let owned = s.to_owned();
                self.pos = self.pos + (cap as usize);
                Ok(owned)
            },
            None => {
                self.pos = start;
                Err(MsgParserError::NonUtf8)
            },
        }
    }

    /// Pulls the next out-of-band file handle queued by the transport.
    pub fn fd(&mut self) -> (r: Result<i32, MsgParserError>)
        requires
            old(self).wf(),
        ensures
            final(self).wf(),
            final(self).data == old(self).data,
            final(self).pos == old(self).pos,
            if old(self).fds@.len() > 0 {
                r == Ok::<i32, MsgParserError>(old(self).fds@[0]) && final(self).fds@ == old(self).fds@.drop_first()
            } else {
                r == Err::<i32, MsgParserError>(MsgParserError::MissingFd) && final(self).fds
                    == old(self).fds
            },
    {
        if self.fds.len() == 0 {
            return Err(MsgParserError::MissingFd);
        }
        let fd = self.fds.remove(0);
        assert(self.fds@ =~= old(self).fds@.drop_first());
        Ok(fd)
    }

    /// Succeeds only if the cursor consumed the whole payload: the check
    /// that catches schema mismatches and short or long payloads.
    pub fn eof(&self) -> (r: Result<(), MsgParserError>)
        requires
            self.wf(),
        ensures
            r == if self.pos == self.data@.len() {
                Ok::<(), MsgParserError>(())
            } else {
                Err::<(), MsgParserError>(MsgParserError::TrailingData)
            },
    {
        if self.pos == self.data.len() {
            Ok(())
        } else {
            Err(MsgParserError::TrailingData)
        }
    }
}

/// The byte encoding of a word reassembles to the same word.
proof fn lemma_word_bytes_round_trip(w: u32)
    ensures
        word_at(word_bytes(w), 0) == w,
{
    assert(w % 0x100 + ((w / 0x100) % 0x100) * 0x100 + ((w / 0x1_0000) % 0x100) * 0x1_0000 + ((w
        / 0x100_0000) % 0x100) * 0x100_0000 == w) by (bit_vector);
}

/// Law: decoding a string field that carries the wire encoding of `text`
/// returns exactly `text`, and the cursor lands just past the field. With
/// the length-zero and truncation clauses of `string_result` this is the
/// codec's round-trip guarantee.
pub proof fn lemma_string_round_trip(text: Seq<char>, data: Seq<u8>, pos: int)
    requires
        0 <= pos,
        encode_utf8(text).len() + 1 <= u32::MAX,
        pos + encode_string(text).len() <= data.len(),
        data.subrange(pos, pos + encode_string(text).len()) == encode_string(text),
    ensures
        string_result(data, pos) == Ok::<(Seq<char>, int), MsgParserError>(
            (text, pos + encode_string(text).len()),
        ),
{
    broadcast use vstd::utf8::encode_utf8_valid_utf8, vstd::utf8::encode_utf8_decode_utf8;

    let b = encode_utf8(text);
    let len = b.len() + 1;
    let cap = ((len + 3) / 4) * 4;
    let enc = encode_string(text);
    assert(enc.len() == 4 + cap) by {
        assert(word_bytes(len as u32).len() == 4);
        assert(cap - b.len() >= 1);
    }
    assert forall|i: int| 0 <= i < enc.len() implies data[pos + i] == enc[i] by {
        assert(data.subrange(pos, pos + enc.len())[i] == data[pos + i]);
    }
    lemma_word_bytes_round_trip(len as u32);
    assert(word_at(data, pos) == word_at(word_bytes(len as u32), 0)) by {
        assert(data[pos + 0] == enc[0] && data[pos + 1] == enc[1] && data[pos + 2] == enc[2]
            && data[pos + 3] == enc[3]);
        assert(enc[0] == word_bytes(len as u32)[0] && enc[1] == word_bytes(len as u32)[1] && enc[2]
            == word_bytes(len as u32)[2] && enc[3] == word_bytes(len as u32)[3]);
    }
    assert(word_at(data, pos) == len);
    let text_bytes = data.subrange(pos + 4, pos + 4 + len - 1);
    assert(text_bytes =~= b) by {
        assert forall|i: int| 0 <= i < b.len() implies text_bytes[i] == b[i] by {
            assert(data[pos + 4 + i] == enc[4 + i]);
            assert(enc[4 + i] == b[i]);
        }
    }
    assert(valid_utf8(b));
    assert(decode_utf8(b) == text);
    assert(cap <= data.len() - (pos + 4));
}

/// Relies on std's `str::from_utf8`: it returns the decoded text exactly
/// when the bytes are valid UTF-8, per vstd's UTF-8 model.
#[verifier::external_body]
fn str_from_utf8(bytes: &[u8]) -> (r: Option<&str>)
    ensures
        match r {
            Some(s) => valid_utf8(bytes@) && s@ == decode_utf8(bytes@),
            None => !valid_utf8(bytes@),
        },
{
    std::str::from_utf8(bytes).ok()
}

} // verus!
