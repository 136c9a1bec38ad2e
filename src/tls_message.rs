//! DNS-over-TLS framing as the request path uses it, with its own errors.

use vstd::prelude::*;
use crate::endian::read_be_u16;
use crate::error::{TlsMessageError, TlsMessageErrorKind};
use crate::message::{frame_bytes, frame_payload, frameable, framed, is_frame, payload_bytes, MAX_PAYLOAD};

verus! {

/// Frames `to_send` for a DNS-over-TLS stream.
pub fn serialize(to_send: &[u8]) -> (r: Result<Vec<u8>, TlsMessageError>)
    ensures
        r is Ok <==> frameable(to_send@),
        r matches Ok(v) ==> v@ == framed(to_send@),
        r matches Err(e) ==> e.kind == TlsMessageErrorKind::BadInputData,
{
    if to_send.len() == 0 || to_send.len() > MAX_PAYLOAD {
        let e = TlsMessageError::bad_input_data();
        return Err(e);
    }
    Ok(frame_bytes(to_send))
}

/// Reads the payload out of a DNS-over-TLS frame.
pub fn deserialize(to_unwrap: &[u8]) -> (r: Result<Vec<u8>, TlsMessageError>)
    ensures
        r is Ok <==> is_frame(to_unwrap@),
        r matches Ok(v) ==> v@ == frame_payload(to_unwrap@),
        r matches Err(e) ==> e.kind == TlsMessageErrorKind::ProtocolSizeMismatch,
{
    // A length prefix and at least one byte of payload.
    if to_unwrap.len() < 3 {
        let e = TlsMessageError::protocol_size_mismatch();
        return Err(e);
    }
    let read_size = read_be_u16(to_unwrap);
    if read_size as usize != to_unwrap.len() - 2 {
        let e = TlsMessageError::protocol_size_mismatch();
        return Err(e);
    }
    Ok(payload_bytes(to_unwrap))
}

} // verus!
