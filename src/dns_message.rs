//! Reading the queried hostname out of a DNS message, and answering a query
//! with NXDOMAIN.

use vstd::prelude::*;
use vstd::slice::slice_subrange;
use vstd::utf8::{decode_utf8, valid_utf8};
use crate::endian::{be16, read_be_u16};
pub use crate::error::DnsMessageError;
use crate::error::DnsMessageErrorKind;
use crate::text::utf8_string;

verus! {

/// Offset of the question section, right after the 12-byte header.
pub const QUESTION_START: usize = 12;

/// The byte that separates labels in a written hostname.
pub const DOT: u8 = 0x2e;

/// The first flag byte of a synthesized answer: QR=1 (a response), Opcode=0
/// (a standard query), AA=0, TC=0, RD=1.
pub const NXDOMAIN_FLAGS_HI: u8 = 0x81;

/// The second flag byte of a synthesized answer: RA=1, Z=0, RCODE=3.
pub const NXDOMAIN_FLAGS_LO: u8 = 0x83;

/// The response code for a name that does not exist.
pub const RCODE_NXDOMAIN: u8 = 3;

/// The number of questions that a message declares (header bytes 4 and 5).
pub open spec fn qdcount(m: Seq<u8>) -> int {
    be16(m[4], m[5])
}

/// The transaction ID of a message (header bytes 0 and 1).
pub open spec fn transaction_id(m: Seq<u8>) -> Seq<u8> {
    m.subrange(0, 2)
}

/// The QR flag: 1 in a response.
pub open spec fn qr_flag(m: Seq<u8>) -> u8 {
    m[2] >> 7u8
}

/// The Opcode field.
pub open spec fn opcode(m: Seq<u8>) -> u8 {
    (m[2] >> 3u8) & 0xfu8
}

/// The RD flag: recursion desired.
pub open spec fn rd_flag(m: Seq<u8>) -> u8 {
    m[2] & 1u8
}

/// The RA flag: recursion available.
pub open spec fn ra_flag(m: Seq<u8>) -> u8 {
    m[3] >> 7u8
}

/// The response code.
pub open spec fn rcode(m: Seq<u8>) -> u8 {
    m[3] & 0xfu8
}

/// The labels of the name that starts at offset `i`, each followed by a dot,
/// up to the empty label that ends it; `None` where the message ends first.
pub open spec fn dotted_name_at(m: Seq<u8>, i: int) -> Option<Seq<u8>>
    decreases m.len() - i,
{
    if i < 0 || i >= m.len() {
        None
    } else if m[i] == 0 {
        Some(Seq::empty())
    } else if i + 1 + m[i] > m.len() {
        None
    } else {
        match dotted_name_at(m, i + 1 + m[i]) {
            Some(rest) => Some(m.subrange(i + 1, i + 1 + m[i]) + seq![DOT] + rest),
            None => None,
        }
    }
}

/// The bytes of the first question's name, labels joined by dots, without
/// the dot after the last one.
pub open spec fn question_name(m: Seq<u8>) -> Option<Seq<u8>> {
    match dotted_name_at(m, QUESTION_START as int) {
        Some(d) => Some(if d.len() > 0 { d.drop_last() } else { d }),
        None => None,
    }
}

/// The hostname that a query asks for, or why there is none.
pub open spec fn hostname_of(m: Seq<u8>) -> Result<Seq<char>, DnsMessageErrorKind> {
    if m.len() < 6 {
        Err(DnsMessageErrorKind::Io)
    } else if qdcount(m) != 1 {
        Err(DnsMessageErrorKind::TooManyQuestions)
    } else {
        match question_name(m) {
            None => Err(DnsMessageErrorKind::UnexpectedReadLength),
            Some(b) => if valid_utf8(b) {
                Ok(decode_utf8(b))
            } else {
                Err(DnsMessageErrorKind::StringEncoding)
            },
        }
    }
}

/// The NXDOMAIN answer to a query: the query with its flag bytes replaced.
pub open spec fn nxdomain_of(m: Seq<u8>) -> Seq<u8> {
    m.update(2, NXDOMAIN_FLAGS_HI).update(3, NXDOMAIN_FLAGS_LO)
}

/// `acc` followed by the rest of a name, where there is one.
pub open spec fn after(acc: Seq<u8>, rest: Option<Seq<u8>>) -> Option<Seq<u8>> {
    match rest {
        Some(r) => Some(acc + r),
        None => None,
    }
}

/// Reads the hostname of the single question of a DNS query.
pub fn hostname_from_bytes(bytes: &[u8]) -> (r: Result<String, DnsMessageError>)
    ensures
        match hostname_of(bytes@) {
            Ok(h) => r matches Ok(s) && s@ == h,
            Err(k) => r matches Err(e) && e.kind == k,
        },
{
    if bytes.len() < 6 {
        return Err(DnsMessageError::new(DnsMessageErrorKind::Io));
    }
    let questions = read_be_u16(slice_subrange(bytes, 4, 6));
    if questions != 1 {
        // Rewriting queries with several questions is not supported.
        return Err(DnsMessageError::too_many_questions());
    }
    let ghost m = bytes@;
    assert(qdcount(m) == 1);
    if bytes.len() <= QUESTION_START {
        return Err(DnsMessageError::unexpected_read_length());
    }
    let mut hostname_buff: Vec<u8> = Vec::new();
    let mut pos: usize = QUESTION_START;
    loop
        invariant
            m == bytes@,
            m.len() >= 6 && qdcount(m) == 1,
            QUESTION_START <= pos <= m.len(),
            dotted_name_at(m, QUESTION_START as int) == after(
                hostname_buff@,
                dotted_name_at(m, pos as int),
            ),
        ensures
            m == bytes@,
            dotted_name_at(m, QUESTION_START as int) == Some(hostname_buff@),
        decreases m.len() - pos,
    {
        if pos >= bytes.len() {
            assert(dotted_name_at(m, pos as int) is None);
            return Err(DnsMessageError::unexpected_read_length());
        }
        let size = bytes[pos];
        if size == 0 {
            assert(dotted_name_at(m, pos as int) == Some(Seq::<u8>::empty()));
            assert(hostname_buff@ + Seq::<u8>::empty() =~= hostname_buff@);
            break;
        }
        if size as usize > bytes.len() - pos - 1 {
            assert(dotted_name_at(m, pos as int) is None);
            return Err(DnsMessageError::unexpected_read_length());
        }
        let ghost before = hostname_buff@;
        let start: usize = pos + 1;
        let end: usize = start + size as usize;
        let mut j: usize = start;
        while j < end
            invariant
                m == bytes@,
                start <= j <= end <= m.len(),
                hostname_buff@ == before + m.subrange(start as int, j as int),
            decreases end - j,
        {
            hostname_buff.push(bytes[j]);
            j += 1;
            assert(hostname_buff@ =~= before + m.subrange(start as int, j as int));
        }
        hostname_buff.push(DOT);
        proof {
            let label = m.subrange(start as int, end as int);
            match dotted_name_at(m, end as int) {
                Some(rest) => {
                    assert(before + (label + seq![DOT] + rest) =~= hostname_buff@ + rest);
                },
                None => {},
            }
        }
        pos = end;
    }
    if hostname_buff.len() > 0 {
        // Drop the dot after the last label.
        hostname_buff.pop();
    }
    match utf8_string(hostname_buff) {
        Some(s) => Ok(s),
        None => Err(DnsMessageError::new(DnsMessageErrorKind::StringEncoding)),
    }
}

/// Turns a query into an NXDOMAIN answer: the same transaction ID and
/// question, with the flags of a response that says the name does not exist.
pub fn create_nxdomain(request: &[u8]) -> (r: Result<Vec<u8>, DnsMessageError>)
    ensures
        r is Ok <==> request@.len() >= 4,
        r matches Ok(v) ==> v@ == nxdomain_of(request@),
        r matches Err(e) ==> e.kind == DnsMessageErrorKind::Io,
{
    if request.len() < 4 {
        return Err(DnsMessageError::new(DnsMessageErrorKind::Io));
    }
    let mut output = vstd::slice::slice_to_vec(request);
    output[2] = NXDOMAIN_FLAGS_HI;
    output[3] = NXDOMAIN_FLAGS_LO;
    Ok(output)
}

/// The answer made from a query keeps the query's transaction ID and
/// everything from the question section on, and its flags say: a response,
/// recursion available, name does not exist.
pub proof fn lemma_nxdomain_answer(m: Seq<u8>)
    requires
        m.len() >= 4,
    ensures
        nxdomain_of(m).len() == m.len(),
        transaction_id(nxdomain_of(m)) == transaction_id(m),
        nxdomain_of(m).subrange(4, m.len() as int) == m.subrange(4, m.len() as int),
        qr_flag(nxdomain_of(m)) == 1,
        opcode(nxdomain_of(m)) == 0,
        rd_flag(nxdomain_of(m)) == 1,
        ra_flag(nxdomain_of(m)) == 1,
        rcode(nxdomain_of(m)) == RCODE_NXDOMAIN,
{
    let a = nxdomain_of(m);
    assert(transaction_id(a) =~= transaction_id(m));
    assert(a.subrange(4, m.len() as int) =~= m.subrange(4, m.len() as int));
    assert(a[2] == 0x81u8 && a[3] == 0x83u8);
    assert((0x81u8 >> 7u8) == 1u8) by (bit_vector);
    assert(((0x81u8 >> 3u8) & 0xfu8) == 0u8) by (bit_vector);
    assert((0x81u8 & 1u8) == 1u8) by (bit_vector);
    assert((0x83u8 >> 7u8) == 1u8) by (bit_vector);
    assert((0x83u8 & 0xfu8) == 3u8) by (bit_vector);
}

} // verus!
