//! Big-endian 16-bit integers on the wire.

use vstd::prelude::*;
use byteorder::ByteOrder;

verus! {

/// The number that two bytes hold, most significant first.
pub open spec fn be16(hi: u8, lo: u8) -> int {
    hi as int * 256 + lo as int
}

/// Relies on byteorder's `NetworkEndian::read_u16`: the first two bytes of
/// the buffer read most significant first (it panics on a shorter buffer).
#[verifier::external_body]
pub(crate) fn read_be_u16(buf: &[u8]) -> (r: u16)
    requires
        buf@.len() >= 2,
    ensures
        r as int == be16(buf@[0], buf@[1]),
{
    byteorder::NetworkEndian::read_u16(buf)
}

/// Relies on byteorder's `NetworkEndian::write_u16`: the two bytes of `n`,
/// most significant first.
#[verifier::external_body]
pub(crate) fn be_u16_bytes(n: u16) -> (r: [u8; 2])
    ensures
        r@[0] == (n / 256) as u8,
        r@[1] == (n % 256) as u8,
{
    let mut buf = [0u8; 2];
    byteorder::NetworkEndian::write_u16(&mut buf, n);
    buf
}

/// Two bytes written most significant first read back as the number.
pub proof fn lemma_be16_of_parts(n: int)
    requires
        0 <= n < 65536,
    ensures
        be16((n / 256) as u8, (n % 256) as u8) == n,
{
    assert(0 <= n / 256 < 256 && 0 <= n % 256 < 256 && n / 256 * 256 + n % 256 == n)
        by (nonlinear_arith)
        requires
            0 <= n < 65536,
    ;
}

} // verus!
