//! DNS-over-TLS framing: a two-byte big-endian length, then the message.

use vstd::prelude::*;
use crate::endian::{be16, be_u16_bytes, read_be_u16, lemma_be16_of_parts};

verus! {

/// Why a buffer could not be framed or unframed.
#[derive(Debug, Clone, Copy, PartialEq, Eq, Structural)]
pub enum MessageErrorKind {
    /// The payload to frame is empty.
    NoData,
    /// The buffer is shorter than a length prefix and one byte of payload.
    TooSmall,
    /// The payload's length does not fit in the two-byte prefix.
    ByteError,
    /// The declared length differs from the length of what follows it.
    SizeMismatch,
}

#[derive(Debug, Clone, Copy, PartialEq, Eq, Structural)]
pub struct MessageError {
    pub why: MessageErrorKind,
}

impl MessageError {
    pub fn new(why: MessageErrorKind) -> (r: MessageError)
        ensures
            r.why == why,
    {
        MessageError { why }
    }

    /// A sentence that says what went wrong.
    pub fn message(&self) -> (r: String)
        ensures
            r@ == message_reason(self.why),
    {
        match self.why {
            MessageErrorKind::NoData => "Buffer provided is empty".to_owned(),
            MessageErrorKind::TooSmall => "Buffer provided is too small to be a DNS over TLS message".to_owned(),
            MessageErrorKind::ByteError => "Could not coerce a number to or from a byte array".to_owned(),
            MessageErrorKind::SizeMismatch => "Size in message is different to the actual size of the given buffer".to_owned(),
        }
    }
}

/// What each kind of framing error says.
pub open spec fn message_reason(why: MessageErrorKind) -> Seq<char> {
    match why {
        MessageErrorKind::NoData => "Buffer provided is empty"@,
        MessageErrorKind::TooSmall => "Buffer provided is too small to be a DNS over TLS message"@,
        MessageErrorKind::ByteError => "Could not coerce a number to or from a byte array"@,
        MessageErrorKind::SizeMismatch => "Size in message is different to the actual size of the given buffer"@,
    }
}

/// The largest payload that a two-byte prefix can declare.
pub const MAX_PAYLOAD: usize = 65535;

/// The frame that carries `p`: its length as two bytes, most significant
/// first, followed by `p` itself.
pub open spec fn framed(p: Seq<u8>) -> Seq<u8> {
    seq![(p.len() / 256) as u8, (p.len() % 256) as u8] + p
}

/// Whether `f` is a whole frame: a prefix, at least one byte of payload, and
/// a declared length equal to the length of that payload.
pub open spec fn is_frame(f: Seq<u8>) -> bool {
    f.len() >= 3 && be16(f[0], f[1]) == f.len() - 2
}

/// What a frame carries: everything after its prefix.
pub open spec fn frame_payload(f: Seq<u8>) -> Seq<u8> {
    f.subrange(2, f.len() as int)
}

/// Whether a payload can be framed: not empty, and short enough for the prefix.
pub open spec fn frameable(p: Seq<u8>) -> bool {
    0 < p.len() <= MAX_PAYLOAD
}

/// Framing a payload and reading the frame back gives the payload.
pub proof fn lemma_frame_round_trip(p: Seq<u8>)
    requires
        frameable(p),
    ensures
        is_frame(framed(p)),
        frame_payload(framed(p)) == p,
{
    lemma_be16_of_parts(p.len() as int);
    assert(frame_payload(framed(p)) =~= p);
}

/// The frame for `to_send` as a vector, built without further checks.
pub(crate) fn frame_bytes(to_send: &[u8]) -> (r: Vec<u8>)
    requires
        frameable(to_send@),
    ensures
        r@ == framed(to_send@),
{
    let n = to_send.len();
    let prefix = be_u16_bytes(n as u16);
    let mut buffer: Vec<u8> = Vec::with_capacity(n + 2);
    buffer.push(prefix[0]);
    buffer.push(prefix[1]);
    let mut i: usize = 0;
    while i < n
        invariant
            i <= n,
            n == to_send@.len(),
            buffer@ == framed(to_send@).subrange(0, i + 2),
        decreases n - i,
    {
        buffer.push(to_send[i]);
        i += 1;
        assert(buffer@ =~= framed(to_send@).subrange(0, i + 2));
    }
    assert(buffer@ =~= framed(to_send@));
    buffer
}

/// The payload of a buffer that `is_frame`, copied out.
pub(crate) fn payload_bytes(to_unwrap: &[u8]) -> (r: Vec<u8>)
    requires
        to_unwrap@.len() >= 2,
    ensures
        r@ == frame_payload(to_unwrap@),
{
    let n = to_unwrap.len();
    let mut buffer: Vec<u8> = Vec::with_capacity(n - 2);
    let mut i: usize = 2;
    while i < n
        invariant
            2 <= i <= n,
            n == to_unwrap@.len(),
            buffer@ == to_unwrap@.subrange(2, i as int),
        decreases n - i,
    {
        buffer.push(to_unwrap[i]);
        i += 1;
        assert(buffer@ =~= to_unwrap@.subrange(2, i as int));
    }
    buffer
}

/// Frames `to_send` for a DNS-over-TLS stream.
pub fn serialize(to_send: &[u8]) -> (r: Result<Vec<u8>, MessageError>)
    ensures
        r is Ok <==> frameable(to_send@),
        r matches Ok(v) ==> v@ == framed(to_send@),
        r matches Err(e) ==> e.why == (if to_send@.len() == 0 {
            MessageErrorKind::NoData
        } else {
            MessageErrorKind::ByteError
        }),
{
    if to_send.len() == 0 {
        let e = MessageError::new(MessageErrorKind::NoData);
        return Err(e);
    }
    if to_send.len() > MAX_PAYLOAD {
        let e = MessageError::new(MessageErrorKind::ByteError);
        return Err(e);
    }
    Ok(frame_bytes(to_send))
}

/// Reads the payload out of a DNS-over-TLS frame.
pub fn deserialize(to_unwrap: &[u8]) -> (r: Result<Vec<u8>, MessageError>)
    ensures
        r is Ok <==> is_frame(to_unwrap@),
        r matches Ok(v) ==> v@ == frame_payload(to_unwrap@),
        r matches Err(e) ==> e.why == (if to_unwrap@.len() < 3 {
            MessageErrorKind::TooSmall
        } else {
            MessageErrorKind::SizeMismatch
        }),
{
    // A length prefix and at least one byte of payload.
    if to_unwrap.len() < 3 {
        let e = MessageError::new(MessageErrorKind::TooSmall);
        return Err(e);
    }
    let read_size = read_be_u16(to_unwrap);
    if read_size as usize != to_unwrap.len() - 2 {
        let e = MessageError::new(MessageErrorKind::SizeMismatch);
        return Err(e);
    }
    Ok(payload_bytes(to_unwrap))
}

} // verus!
