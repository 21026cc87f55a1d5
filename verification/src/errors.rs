//! The failures of the cipher and of the decoder.

use vstd::prelude::*;

verus! {

/// Failure of the cipher stage.
#[derive(Debug, Clone, Copy, PartialEq, Eq)]
pub enum CryptError {
    /// The decrypted buffer does not begin with the magic value: the key or
    /// the nonce was wrong, or the input was no telemetry datagram.
    InvalidMagicValue(),
}

/// A buffer that ended before the layout did.
#[derive(Debug, Clone, Copy, PartialEq, Eq)]
pub struct ShortRead {
    /// Number of bytes the layout asks for.
    pub needed: usize,
    /// Number of bytes the buffer holds.
    pub available: usize,
}

/// Failure of the decoder stage.
#[derive(Debug, Clone, Copy, PartialEq, Eq)]
pub enum PacketError {
    /// The buffer handed to the decoder does not begin with the magic value.
    UnexpectedMagicValue(),
    /// The buffer is too short for the layout.
    UnexpectedSequence(ShortRead),
    /// A flag bit is set to which the protocol assigns no meaning.
    UnknownFlag(),
}

/// Why a datagram gave no record.
#[derive(Debug, Clone, Copy, PartialEq, Eq)]
pub enum DatagramError {
    /// The cipher stage refused it.
    Crypt(CryptError),
    /// The decoder stage refused it.
    Packet(PacketError),
}

impl CryptError {
    /// The text that describes the failure.
    pub fn message(&self) -> (text: String)
        ensures
            text@ == "invalid magic value"@,
    {
        "invalid magic value".to_string()
    }
}

impl PacketError {
    /// The text that describes the failure.
    pub fn message(&self) -> (text: String)
        ensures
            text@ == match *self {
                PacketError::UnexpectedMagicValue() => "unexpected magic value"@,
                PacketError::UnexpectedSequence(_) => "error parsing packet"@,
                PacketError::UnknownFlag() => "unknown flag"@,
            },
    {
        match self {
            PacketError::UnexpectedMagicValue() => "unexpected magic value".to_string(),
            PacketError::UnexpectedSequence(_) => "error parsing packet".to_string(),
            PacketError::UnknownFlag() => "unknown flag".to_string(),
        }
    }
}

impl DatagramError {
    /// The text that describes the failure: that of the stage that failed.
    pub fn message(&self) -> (text: String)
        ensures
            text@ == match *self {
                DatagramError::Crypt(_) => "invalid magic value"@,
                DatagramError::Packet(PacketError::UnexpectedMagicValue()) => "unexpected magic value"@,
                DatagramError::Packet(PacketError::UnexpectedSequence(_)) => "error parsing packet"@,
                DatagramError::Packet(PacketError::UnknownFlag()) => "unknown flag"@,
            },
    {
        match self {
            DatagramError::Crypt(error) => error.message(),
            DatagramError::Packet(error) => error.message(),
        }
    }
}

} // verus!
