//! From the bytes that came off the socket to a record: the two stages in
//! turn.

use crate::crypt::{gated, has_magic, plaintext_of, Crypt, Cryptable};
use crate::errors::{CryptError, DatagramError, PacketError, ShortRead};
use crate::packet::{decode_spec, record_of, Packet, PACKET_SIZE};
use vstd::prelude::*;

verus! {

/// The first `PACKET_SIZE` bytes of what was received: the datagram proper.
pub open spec fn datagram_of(received: Seq<u8>) -> Seq<u8> {
    received.subrange(0, PACKET_SIZE as int)
}

/// What a received buffer of any length decodes to. One that is too short is
/// refused by the decoder's rule before anything is decrypted; one whose
/// plaintext lacks the magic value is refused by the cipher; every other
/// gives the record that its plaintext holds.
pub open spec fn decode_datagram_spec(received: Seq<u8>) -> Result<Packet, DatagramError> {
    if received.len() < PACKET_SIZE {
        Err(
            DatagramError::Packet(
                PacketError::UnexpectedSequence(
                    ShortRead { needed: PACKET_SIZE, available: received.len() as usize },
                ),
            ),
        )
    } else if !has_magic(plaintext_of(datagram_of(received))) {
        Err(DatagramError::Crypt(CryptError::InvalidMagicValue()))
    } else {
        Ok(record_of(plaintext_of(datagram_of(received))))
    }
}

/// Copies the datagram out of a received buffer. A buffer of fewer than
/// `PACKET_SIZE` bytes holds no datagram.
pub fn datagram_from_slice(received: &[u8]) -> (result: Result<[u8; PACKET_SIZE], PacketError>)
    ensures
        match result {
            Ok(datagram) => received@.len() >= PACKET_SIZE && datagram@ == datagram_of(received@),
            Err(error) => received@.len() < PACKET_SIZE && error == PacketError::UnexpectedSequence(
                ShortRead { needed: PACKET_SIZE, available: received@.len() as usize },
            ),
        },
{
    if received.len() < PACKET_SIZE {
        return Err(
            PacketError::UnexpectedSequence(
                ShortRead { needed: PACKET_SIZE, available: received.len() },
            ),
        );
    }
    let mut datagram = [0u8; PACKET_SIZE];
    let mut i: usize = 0;
    while i < PACKET_SIZE
        invariant
            i <= PACKET_SIZE <= received.len(),
            forall|j: int| 0 <= j < i ==> datagram@[j] == received@[j],
        decreases PACKET_SIZE - i,
    {
        datagram[i] = received[i];
        i = i + 1;
    }
    Ok(datagram)
}

/// Decrypts and decodes what was received.
pub fn decode_datagram(received: &[u8]) -> (result: Result<Packet, DatagramError>)
    ensures
        result == decode_datagram_spec(received@),
{
    let datagram = match datagram_from_slice(received) {
        Ok(datagram) => datagram,
        Err(error) => {
            return Err(DatagramError::Packet(error));
        },
    };
    let plain = match Crypt::decrypt(&datagram) {
        Ok(plain) => plain,
        Err(error) => {
            return Err(DatagramError::Crypt(error));
        },
    };
    match Packet::parse(plain) {
        Ok(record) => Ok(record),
        Err(error) => Err(DatagramError::Packet(error)),
    }
}

/// Neither stage remembers anything. Whatever the cipher and the decoder
/// return for two datagrams with the same bytes, in the same or in different
/// runs, they return the same plaintext and the same record.
pub proof fn lemma_decoding_is_deterministic(
    first: [u8; PACKET_SIZE],
    second: [u8; PACKET_SIZE],
    first_plain: Result<[u8; PACKET_SIZE], CryptError>,
    second_plain: Result<[u8; PACKET_SIZE], CryptError>,
    first_record: Result<Packet, PacketError>,
    second_record: Result<Packet, PacketError>,
)
    requires
        first@ == second@,
        gated(Crypt::plaintext(first@), first_plain),
        gated(Crypt::plaintext(second@), second_plain),
        first_plain matches Ok(plain) ==> first_record == decode_spec(plain@),
        second_plain matches Ok(plain) ==> second_record == decode_spec(plain@),
    ensures
        first_plain == second_plain,
        first_plain is Ok ==> first_record == second_record,
        decode_datagram_spec(first@) == decode_datagram_spec(second@),
{
    if first_plain is Ok {
        assert(first_plain->Ok_0 =~= second_plain->Ok_0);
    }
}

/// A datagram whose plaintext does not begin with the magic value gives the
/// cipher's error and no record, whatever else it holds.
pub proof fn lemma_magic_value_gates(received: Seq<u8>)
    requires
        received.len() >= PACKET_SIZE,
        !has_magic(plaintext_of(datagram_of(received))),
    ensures
        decode_datagram_spec(received) == Err::<Packet, DatagramError>(
            DatagramError::Crypt(CryptError::InvalidMagicValue()),
        ),
{
}

/// A buffer of fewer than `PACKET_SIZE` bytes gives no record at either
/// stage, but the error that says how short it is.
pub proof fn lemma_short_buffer_gives_no_record(bytes: Seq<u8>)
    requires
        bytes.len() < PACKET_SIZE,
    ensures
        decode_spec(bytes) == Err::<Packet, PacketError>(
            PacketError::UnexpectedSequence(
                ShortRead { needed: PACKET_SIZE, available: bytes.len() as usize },
            ),
        ),
        decode_datagram_spec(bytes) == Err::<Packet, DatagramError>(
            DatagramError::Packet(
                PacketError::UnexpectedSequence(
                    ShortRead { needed: PACKET_SIZE, available: bytes.len() as usize },
                ),
            ),
        ),
{
}

} // verus!
