//! Decoder for the encrypted telemetry datagrams that a racing simulator
//! broadcasts over UDP.
//!
//! A datagram is 408 bytes of Salsa20 ciphertext. [`crypt`] recovers the
//! plaintext, [`packet`] reads the fixed little-endian layout into a
//! [`packet::Packet`], and [`datagram`] does the one after the other.
//! [`session`] decides when the keep-alive datagram has to be sent again, and
//! [`channel`] holds the records until the consumer takes them. Nothing here
//! touches a socket: the caller receives and sends, and hands the bytes over.

use vstd::prelude::*;

pub mod channel;
pub mod crypt;
pub mod datagram;
pub mod endian;
pub mod errors;
pub mod flags;
pub mod packet;
pub mod session;

verus! {

/// Adds two sizes. The sum has to fit in a `usize`.
pub fn add(left: usize, right: usize) -> (sum: usize)
    requires
        left + right <= usize::MAX,
    ensures
        sum == left + right,
{
    left + right
}

} // verus!
