//! The decisions of a relay to an upstream DNS-over-TLS resolver: which
//! server to ask, and whether its answer is short enough to read.

use vstd::prelude::*;
use rand::Rng;
use crate::config::DnsServer;
use crate::endian::{be16, read_be_u16};
use crate::error::DoTError;

verus! {

/// The longest answer, in bytes, that is read from an upstream.
pub const MAX_RESPONSE_LEN: usize = 8192;

/// Relies on rand's `thread_rng().gen_range(0..n)`: a number below `n`,
/// drawn uniformly (it panics on an empty range).
#[verifier::external_body]
fn random_index(n: usize) -> (r: usize)
    requires
        n > 0,
    ensures
        r < n,
{
    rand::thread_rng().gen_range(0..n)
}

/// One of the configured servers, drawn at random.
pub fn choose_server(servers: &Vec<DnsServer>) -> (r: Result<&DnsServer, DoTError>)
    ensures
        r is Err <==> servers@.len() == 0,
        r matches Ok(s) ==> exists|i: int| 0 <= i < servers@.len() && servers@[i] == *s,
        r matches Err(e) ==> e.kind is NoAvailableServers,
{
    if servers.len() == 0 {
        return Err(DoTError::no_available_servers());
    }
    let i = random_index(servers.len());
    Ok(&servers[i])
}

/// The length of an upstream's answer, from the two bytes that precede it;
/// an error where it is longer than `MAX_RESPONSE_LEN`.
pub fn response_length(prefix: &[u8]) -> (r: Result<usize, DoTError>)
    requires
        prefix@.len() == 2,
    ensures
        r is Ok <==> be16(prefix@[0], prefix@[1]) <= MAX_RESPONSE_LEN,
        r matches Ok(n) ==> n == be16(prefix@[0], prefix@[1]),
        r matches Err(e) ==> e.kind is MessageTooLarge,
{
    let size = read_be_u16(prefix) as usize;
    if size > MAX_RESPONSE_LEN {
        return Err(DoTError::message_too_large());
    }
    Ok(size)
}

} // verus!
