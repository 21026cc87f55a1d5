//! The cipher stage: from a datagram as it was received to its plaintext.
//!
//! The simulator encrypts every datagram with Salsa20 under one fixed key.
//! The nonce differs from datagram to datagram and is derived from four bytes
//! of the ciphertext itself, so that decrypting needs nothing but the
//! datagram. The keystream is the `salsa20` crate's; what is done with it is
//! verified here.

use crate::endian::{le_bytes_u32, le_u32, lemma_le_bytes_round_trip, u32_at, u32_to_le_bytes};
use crate::errors::CryptError;
use crate::packet::PACKET_SIZE;
use salsa20::cipher::{KeyIvInit, StreamCipher};
use salsa20::Salsa20;
use vstd::prelude::*;

verus! {

/// The number with which every decrypted datagram begins.
pub const MAGIC_VALUE: u32 = 0x47375330;

/// Offset of the four ciphertext bytes from which the nonce is derived.
pub const IV_OFFSET: usize = 0x40;

/// The number that is combined with those four bytes to give the first half
/// of the nonce.
pub const IV_MASK: u32 = 0xDEADBEAF;

/// The text whose first 32 characters are the key.
pub const KEY_TEXT: &'static str = "Simulator Interface Packet GT7 ver 0.0";

/// The key: the first 32 bytes of `KEY_TEXT`. It is the same for every
/// datagram and known to everyone who knows the protocol.
pub const KEY: [u8; 32] = [
    0x53, 0x69, 0x6D, 0x75, 0x6C, 0x61, 0x74, 0x6F,
    0x72, 0x20, 0x49, 0x6E, 0x74, 0x65, 0x72, 0x66,
    0x61, 0x63, 0x65, 0x20, 0x50, 0x61, 0x63, 0x6B,
    0x65, 0x74, 0x20, 0x47, 0x54, 0x37, 0x20, 0x76,
];

/// Byte `pos` of the keystream that Salsa20 with 20 rounds generates, from
/// its start, under a 32-byte `key` and an 8-byte `nonce`. The `salsa20`
/// crate computes it; nothing here says what it is.
pub uninterp spec fn salsa20_keystream(key: Seq<u8>, nonce: Seq<u8>, pos: int) -> u8;

/// Whether the buffer begins with the magic value.
pub open spec fn has_magic(bytes: Seq<u8>) -> bool {
    le_u32(bytes, 0) == MAGIC_VALUE
}

/// The nonce of a datagram. With `iv1` the little-endian number at
/// `IV_OFFSET`, it is the four little-endian bytes of `iv1 ^ IV_MASK`
/// followed by those of `iv1`.
pub open spec fn nonce_of(datagram: Seq<u8>) -> Seq<u8> {
    let iv1 = le_u32(datagram, IV_OFFSET as int);
    le_bytes_u32(iv1 ^ IV_MASK) + le_bytes_u32(iv1)
}

/// `data` with each byte combined by exclusive or with the keystream byte of
/// the same position.
pub open spec fn keystream_xor(key: Seq<u8>, nonce: Seq<u8>, data: Seq<u8>) -> Seq<u8> {
    Seq::new(data.len(), |i: int| data[i] ^ salsa20_keystream(key, nonce, i))
}

/// The plaintext of a datagram, whether or not it is a valid one.
pub open spec fn plaintext_of(datagram: Seq<u8>) -> Seq<u8> {
    keystream_xor(KEY@, nonce_of(datagram), datagram)
}

/// `Salsa20::new` and `StreamCipher::apply_keystream` of the `salsa20`
/// crate, on a copy of `data`: a cipher that starts at the beginning of its
/// keystream combines each byte of the buffer with the next keystream byte by
/// exclusive or. The crate panics only where the keystream has run out, which
/// takes 2^70 bytes.
#[verifier::external_body]
fn apply_salsa20(key: &[u8; 32], nonce: &[u8; 8], data: &[u8; PACKET_SIZE]) -> (out: [
    u8;
    PACKET_SIZE
])
    ensures
        forall|i: int|
            0 <= i < PACKET_SIZE ==> #[trigger] out@[i] == data@[i] ^ salsa20_keystream(
                key@,
                nonce@,
                i,
            ),
{
    let mut cipher = Salsa20::new(key.into(), nonce.into());
    let mut out = *data;
    cipher.apply_keystream(&mut out);
    out
}

/// Derives the nonce of a datagram from its bytes at `IV_OFFSET`.
pub fn derive_nonce(datagram: &[u8; PACKET_SIZE]) -> (nonce: [u8; 8])
    ensures
        nonce@ == nonce_of(datagram@),
{
    let iv1 = u32_at(datagram.as_slice(), IV_OFFSET);
    let iv2 = iv1 ^ IV_MASK;
    let low = u32_to_le_bytes(iv2);
    let high = u32_to_le_bytes(iv1);
    [low[0], low[1], low[2], low[3], high[0], high[1], high[2], high[3]]
}

/// Applies the keystream of the datagram's own nonce to the datagram.
pub fn apply_keystream(datagram: &[u8; PACKET_SIZE]) -> (plain: [u8; PACKET_SIZE])
    ensures
        plain@ == plaintext_of(datagram@),
{
    let nonce = derive_nonce(datagram);
    apply_salsa20(&KEY, &nonce, datagram)
}

/// Accepts a decrypted buffer exactly when it begins with the magic value.
/// This is the only check there is: it tells a wrong key or nonce and
/// arbitrary input from a datagram, and authenticates nobody.
pub fn check_magic(plain: [u8; PACKET_SIZE]) -> (result: Result<[u8; PACKET_SIZE], CryptError>)
    ensures
        result == if has_magic(plain@) {
            Ok::<[u8; PACKET_SIZE], CryptError>(plain)
        } else {
            Err(CryptError::InvalidMagicValue())
        },
{
    if u32_at(plain.as_slice(), 0) == MAGIC_VALUE {
        Ok(plain)
    } else {
        Err(CryptError::InvalidMagicValue())
    }
}

/// Whether `result` is what the magic-value check makes of the plaintext
/// `plain`: the plaintext itself where it begins with the magic value, the
/// error where it does not.
pub open spec fn gated(plain: Seq<u8>, result: Result<[u8; PACKET_SIZE], CryptError>) -> bool {
    match result {
        Ok(buffer) => buffer@ == plain && has_magic(plain),
        Err(error) => error == CryptError::InvalidMagicValue() && !has_magic(plain),
    }
}

/// A cipher that turns a datagram into a plaintext buffer and lets through
/// only what begins with the magic value.
pub trait Cryptable {
    /// What the cipher makes of a datagram, before the magic value is looked
    /// at.
    spec fn plaintext(bytes: Seq<u8>) -> Seq<u8>;

    /// Decrypts a datagram. The result is the plaintext where that begins
    /// with the magic value, and `InvalidMagicValue` where it does not.
    fn decrypt(bytes: &[u8; PACKET_SIZE]) -> (result: Result<[u8; PACKET_SIZE], CryptError>)
        ensures
            gated(Self::plaintext(bytes@), result),
    ;
}

/// The cipher of the telemetry protocol: Salsa20 under `KEY`, with the nonce
/// that `nonce_of` gives. It keeps nothing between calls.
pub struct Crypt {}

impl Cryptable for Crypt {
    open spec fn plaintext(bytes: Seq<u8>) -> Seq<u8> {
        plaintext_of(bytes)
    }

    fn decrypt(bytes: &[u8; PACKET_SIZE]) -> (result: Result<[u8; PACKET_SIZE], CryptError>) {
        check_magic(apply_keystream(bytes))
    }
}

/// The key is what its text says: character for character the first 32 of
/// `KEY_TEXT`.
pub proof fn lemma_key_is_text_prefix()
    ensures
        KEY_TEXT@.len() == 38,
        KEY@.len() == 32,
        forall|i: int| 0 <= i < 32 ==> KEY@[i] as char == #[trigger] KEY_TEXT@[i],
{
    reveal_strlit("Simulator Interface Packet GT7 ver 0.0");
}

/// The two halves of the nonce, read back as little-endian numbers: the
/// second is the number found in the datagram, the first is that number
/// combined with `IV_MASK` by exclusive or.
pub proof fn lemma_nonce_words(datagram: Seq<u8>)
    ensures
        nonce_of(datagram).len() == 8,
        le_u32(nonce_of(datagram), 4) == le_u32(datagram, IV_OFFSET as int),
        le_u32(nonce_of(datagram), 0) == le_u32(datagram, IV_OFFSET as int) ^ IV_MASK,
{
    let iv1 = le_u32(datagram, IV_OFFSET as int);
    let nonce = nonce_of(datagram);
    lemma_le_bytes_round_trip(iv1);
    lemma_le_bytes_round_trip(iv1 ^ IV_MASK);
    assert(nonce[0] == le_bytes_u32(iv1 ^ IV_MASK)[0]);
    assert(nonce[1] == le_bytes_u32(iv1 ^ IV_MASK)[1]);
    assert(nonce[2] == le_bytes_u32(iv1 ^ IV_MASK)[2]);
    assert(nonce[3] == le_bytes_u32(iv1 ^ IV_MASK)[3]);
    assert(nonce[4] == le_bytes_u32(iv1)[0]);
    assert(nonce[5] == le_bytes_u32(iv1)[1]);
    assert(nonce[6] == le_bytes_u32(iv1)[2]);
    assert(nonce[7] == le_bytes_u32(iv1)[3]);
}

} // verus!
