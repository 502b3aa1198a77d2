//! Wire-level pieces of the protocol: request codes, endpoints, the poll
//! buffer layout and the reply backoff.
use vstd::prelude::*;
use vstd::arithmetic::power2::{pow2, lemma2_to64, lemma2_to64_rest, lemma_pow2_strictly_increases};

verus! {

/// Control-IN request that polls the device (4-byte answer).
pub const POLL_REQUEST: u8 = 0x01;
/// Control-OUT request that carries a normal command.
pub const COMMAND_REQUEST: u8 = 0x80;
/// Control-IN request that reads a normal reply.
pub const REPLY_REQUEST: u8 = 0x81;
/// Request used for both directions of the factory command set.
pub const FACTORY_REQUEST: u8 = 0xff;
/// Bulk endpoint that the host writes to.
pub const BULK_WRITE_ENDPOINT: u8 = 0x02;
/// Bulk endpoint that the host reads from.
pub const BULK_READ_ENDPOINT: u8 = 0x81;
/// Size of the poll answer.
pub const POLL_LENGTH: u16 = 4;
/// Base interval of the reply backoff, in milliseconds.
pub const READ_REPLY_RETRY_INTERVAL: u64 = 10;

/// A vendor-class, interface-recipient control-IN transfer (value 0, index 0).
#[derive(Clone, Copy, Debug, PartialEq, Eq, Structural)]
pub struct ControlIn {
    pub request: u8,
    pub length: u16,
}

/// A vendor-class, interface-recipient control-OUT transfer (value 0, index 0).
#[derive(Debug)]
pub struct ControlOut {
    pub request: u8,
    pub data: Vec<u8>,
}

/// A bulk-IN transfer asking for at most `length` bytes.
#[derive(Clone, Copy, Debug, PartialEq, Eq, Structural)]
pub struct BulkIn {
    pub endpoint: u8,
    pub length: usize,
}

/// A single bulk-OUT transfer of `data`.
#[derive(Debug)]
pub struct BulkOut {
    pub endpoint: u8,
    pub data: Vec<u8>,
}

/// Reply length carried by a poll answer: bytes 2 and 3, little-endian.
pub open spec fn poll_length_of(raw: Seq<u8>) -> nat {
    raw[2] as nat + 256 * raw[3] as nat
}

/// The readiness byte of a poll answer is zero exactly when the device is ready.
pub open spec fn is_ready(raw: Seq<u8>) -> bool {
    raw[2] == 0
}

/// The control-out request code for a command.
pub open spec fn command_request(factory: bool) -> u8 {
    if factory { FACTORY_REQUEST } else { COMMAND_REQUEST }
}

/// The control-in request code for a reply.
pub open spec fn reply_request(factory: bool) -> u8 {
    if factory { FACTORY_REQUEST } else { REPLY_REQUEST }
}

/// Milliseconds waited before the poll that follows the zero answer of index `attempt`.
pub open spec fn retry_delay(attempt: nat) -> nat {
    (10 * (pow2(attempt / 10) - 1)) as nat
}

/// `retry_delay`, held at `u64::MAX` where it no longer fits.
pub open spec fn retry_delay_u64(attempt: nat) -> u64 {
    if retry_delay(attempt) <= u64::MAX { retry_delay(attempt) as u64 } else { u64::MAX }
}

/// The control-in transfer that polls the device.
pub fn poll_request() -> (c: ControlIn)
    ensures
        c.request == POLL_REQUEST,
        c.length == POLL_LENGTH,
{
    ControlIn { request: POLL_REQUEST, length: POLL_LENGTH }
}

/// Decodes a poll answer into the pending reply length and the raw buffer.
pub fn decode_poll(raw: [u8; 4]) -> (r: (u16, [u8; 4]))
    ensures
        r.0 as nat == poll_length_of(raw@),
        r.1 == raw,
{
    let length: u16 = raw[2] as u16 + 256 * (raw[3] as u16);
    (length, raw)
}

/// Milliseconds to wait after the zero poll answer of index `attempt`
/// (`10 * (2^(attempt / 10) - 1)`, or `u64::MAX` once that no longer fits).
pub fn reply_retry_delay(attempt: u64) -> (ms: u64)
    ensures
        ms == retry_delay_u64(attempt as nat),
{
    let k: u64 = attempt / 10;
    if k > 60 {
        proof {
            lemma2_to64();
            lemma2_to64_rest();
            if k > 61 {
                lemma_pow2_strictly_increases(61, k as nat);
            }
        }
        return u64::MAX;
    }
    let mut p: u64 = 1;
    let mut i: u64 = 0;
    proof {
        lemma2_to64();
        lemma2_to64_rest();
    }
    while i < k
        invariant
            i <= k <= 60,
            p as nat == pow2(i as nat),
            pow2(60) == 0x1000000000000000,
        decreases k - i,
    {
        proof {
            if i + 1 < 60 {
                lemma_pow2_strictly_increases((i + 1) as nat, 60);
            }
            vstd::arithmetic::power2::lemma_pow2_unfold((i + 1) as nat);
        }
        p = p * 2;
        i = i + 1;
    }
    READ_REPLY_RETRY_INTERVAL * (p - 1)
}

} // verus!
