//! Host side of the NetMD command/response protocol, kept free of I/O.
//!
//! The session core decides which USB transfer to issue next and interprets
//! what the device sent back; the transfers themselves are performed by the
//! caller against an opened, claimed device.
use vstd::prelude::*;

pub mod device;
pub mod protocol;
pub mod session;

verus! {

} // verus!
