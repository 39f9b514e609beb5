//! The wire format: a 13-byte request and a 9-byte reply.
//!
//! | request offset | size | field                         |
//! |----------------|------|-------------------------------|
//! | 0              | 1    | type tag, always 1            |
//! | 1              | 8    | session id, signed, low first |
//! | 9              | 4    | claimed local IPv4 address    |
//!
//! | reply offset | size | field                          |
//! |--------------|------|--------------------------------|
//! | 0            | 2    | virtual port, always 0         |
//! | 2            | 1    | subset, always 0               |
//! | 3            | 4    | observed IPv4 address          |
//! | 7            | 2    | observed port, high byte first |

use vstd::prelude::*;

verus! {

/// Length of a request datagram.
pub const REQUEST_LEN: usize = 13;

/// Length of a reply datagram.
pub const REPLY_LEN: usize = 9;

/// The type tag of a reflection request.
pub const REFLECT_TAG: u8 = 1;

/// What a well-formed request carries.
#[derive(Clone, Copy, Debug, PartialEq, Eq)]
pub struct Request {
    /// The session the client speaks for.
    pub session_id: i64,
    /// The address the client says it has on its own network. It is taken
    /// as sent and never checked against where the datagram came from.
    pub claimed_local_addr: [u8; 4],
}

/// The number that eight bytes spell, least significant byte first.
pub open spec fn le_u64(b: Seq<u8>) -> int
    recommends
        b.len() == 8,
{
    b[0] + 0x100 * b[1] + 0x1_0000 * b[2] + 0x100_0000 * b[3] + 0x1_0000_0000 * b[4]
        + 0x100_0000_0000 * b[5] + 0x1_0000_0000_0000 * b[6] + 0x100_0000_0000_0000 * b[7]
}

/// The signed number that a 64-bit pattern stands for in two's complement.
pub open spec fn twos_complement_64(n: int) -> int
    recommends
        0 <= n < 0x1_0000_0000_0000_0000,
{
    if n < 0x8000_0000_0000_0000 {
        n
    } else {
        n - 0x1_0000_0000_0000_0000
    }
}

/// Whether a datagram is a reflection request: exactly 13 bytes, the first
/// of them the tag.
pub open spec fn is_request(datagram: Seq<u8>) -> bool {
    datagram.len() == REQUEST_LEN && datagram[0] == REFLECT_TAG
}

/// The session id that a request names: bytes 1 to 8, low byte first, signed.
pub open spec fn session_id_of(datagram: Seq<u8>) -> i64
    recommends
        is_request(datagram),
{
    twos_complement_64(le_u64(datagram.subrange(1, 9))) as i64
}

/// The local address that a request claims: bytes 9 to 12 as they stand.
pub open spec fn claimed_addr_of(datagram: Seq<u8>) -> [u8; 4]
    recommends
        is_request(datagram),
{
    [datagram[9], datagram[10], datagram[11], datagram[12]]
}

/// What a datagram decodes to: a request if it is one, nothing otherwise.
pub open spec fn request_in(datagram: Seq<u8>) -> Option<Request> {
    if is_request(datagram) {
        Some(
            Request {
                session_id: session_id_of(datagram),
                claimed_local_addr: claimed_addr_of(datagram),
            },
        )
    } else {
        None
    }
}

/// The reply that tells a client it was seen at `addr`, `port`: three zero
/// bytes, the address, then the port with its high byte first.
pub open spec fn reply_bytes(addr: [u8; 4], port: u16) -> [u8; 9] {
    [0u8, 0u8, 0u8, addr[0], addr[1], addr[2], addr[3], (port / 256) as u8, (port % 256) as u8]
}

/// Reads eight bytes at `at`, low byte first, as a signed 64-bit number.
pub fn read_i64_le(bytes: &[u8], at: usize) -> (value: i64)
    requires
        at + 8 <= bytes@.len(),
    ensures
        value == twos_complement_64(le_u64(bytes@.subrange(at as int, at + 8))),
{
    let ghost b = bytes@.subrange(at as int, at + 8);
    assert(forall|i: int| 0 <= i < 8 ==> b[i] == bytes@[at + i]);
    let low: u64 = bytes[at] as u64 + 0x100 * (bytes[at + 1] as u64) + 0x1_0000 * (bytes[at
        + 2] as u64) + 0x100_0000 * (bytes[at + 3] as u64);
    let high: u64 = bytes[at + 4] as u64 + 0x100 * (bytes[at + 5] as u64) + 0x1_0000 * (bytes[at
        + 6] as u64) + 0x100_0000 * (bytes[at + 7] as u64);
    let pattern: u64 = low + 0x1_0000_0000 * high;
    assert(pattern == le_u64(b));
    if pattern < 0x8000_0000_0000_0000 {
        pattern as i64
    } else {
        let above: u64 = pattern - 0x8000_0000_0000_0000;
        (above as i64) + i64::MIN
    }
}

/// Decodes a datagram as a reflection request.
///
/// A datagram of any other length than 13, or with another first byte than
/// the tag, is no request.
pub fn decode_request(datagram: &[u8]) -> (request: Option<Request>)
    ensures
        request == request_in(datagram@),
{
    if datagram.len() != REQUEST_LEN || datagram[0] != REFLECT_TAG {
        return None;
    }
    let session_id = read_i64_le(datagram, 1);
    let claimed_local_addr: [u8; 4] = [datagram[9], datagram[10], datagram[11], datagram[12]];
    assert(claimed_local_addr =~= claimed_addr_of(datagram@));
    Some(Request { session_id, claimed_local_addr })
}

/// Encodes the reply for a client seen at `addr`, `port`.
pub fn encode_reply(addr: &[u8; 4], port: u16) -> (reply: [u8; 9])
    ensures
        reply == reply_bytes(*addr, port),
{
    let high: u8 = (port / 256) as u8;
    let low: u8 = (port % 256) as u8;
    let reply: [u8; 9] = [0, 0, 0, addr[0], addr[1], addr[2], addr[3], high, low];
    assert(reply =~= reply_bytes(*addr, port));
    reply
}

} // verus!
