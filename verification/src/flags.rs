//! The status flags of a telemetry record.

use crate::errors::PacketError;
use vstd::prelude::*;

verus! {

/// The car is on the track.
pub const CAR_ON_TRACK: u16 = 0x0001;

/// The simulation is paused.
pub const PAUSED: u16 = 0x0002;

/// The simulator is loading or processing.
pub const LOADING_OR_PROCESSING: u16 = 0x0004;

/// A gear is engaged.
pub const IN_GEAR: u16 = 0x0008;

/// The car has a turbocharger.
pub const HAS_TURBO: u16 = 0x0010;

/// The rev limiter alert is blinking.
pub const REV_LIMITER_BLINK_ALERT_ACTIVE: u16 = 0x0020;

/// The hand brake is pulled.
pub const HAND_BRAKE_ACTIVE: u16 = 0x0040;

/// The lights are on.
pub const LIGHTS_ACTIVE: u16 = 0x0080;

/// The high beam is on.
pub const HIGH_BEAM_ACTIVE: u16 = 0x0100;

/// The low beam is on.
pub const LOW_BEAM_ACTIVE: u16 = 0x0200;

/// The stability management is intervening.
pub const ASM_ACTIVE: u16 = 0x0400;

/// The traction control is intervening.
pub const TCS_ACTIVE: u16 = 0x0800;

/// Every bit to which the protocol assigns a meaning.
pub const KNOWN_FLAGS: u16 = 0x0FFF;

/// A set of status flags: the 16 bits as the simulator sent them. Bits
/// outside `KNOWN_FLAGS` are kept and mean nothing.
#[derive(Debug, Clone, Copy, PartialEq, Eq, Hash)]
pub struct Flags {
    pub bits: u16,
}

impl Flags {
    /// Whether every bit of `mask` is set.
    pub open spec fn has(self, mask: u16) -> bool {
        self.bits & mask == mask
    }

    /// The bits that are set and have no meaning.
    pub open spec fn reserved(self) -> u16 {
        self.bits & !KNOWN_FLAGS
    }

    /// The flag set with exactly these bits, whatever they are.
    pub fn from_bits_retain(bits: u16) -> (flags: Flags)
        ensures
            flags.bits == bits,
    {
        Flags { bits }
    }

    /// The flag set with exactly these bits, for a caller that takes the
    /// flags for a closed set: a bit without a meaning is refused.
    pub fn from_bits_strict(bits: u16) -> (result: Result<Flags, PacketError>)
        ensures
            result == if bits & !KNOWN_FLAGS == 0 {
                Ok::<Flags, PacketError>(Flags { bits })
            } else {
                Err(PacketError::UnknownFlag())
            },
    {
        if bits & !KNOWN_FLAGS == 0 {
            Ok(Flags { bits })
        } else {
            Err(PacketError::UnknownFlag())
        }
    }

    /// The 16 bits.
    pub fn bits(&self) -> (bits: u16)
        ensures
            bits == self.bits,
    {
        self.bits
    }

    /// Whether every bit of `mask` is set.
    pub fn contains(&self, mask: u16) -> (set: bool)
        ensures
            set == self.has(mask),
    {
        self.bits & mask == mask
    }

    /// The bits that are set and have no meaning.
    pub fn reserved_bits(&self) -> (bits: u16)
        ensures
            bits == self.reserved(),
    {
        self.bits & !KNOWN_FLAGS
    }

    /// Whether the bit `CAR_ON_TRACK` is set: the car is on the track.
    pub fn car_on_track(&self) -> (set: bool)
        ensures
            set == self.has(CAR_ON_TRACK),
    {
        self.contains(CAR_ON_TRACK)
    }

    /// Whether the bit `PAUSED` is set: the simulation is paused.
    pub fn paused(&self) -> (set: bool)
        ensures
            set == self.has(PAUSED),
    {
        self.contains(PAUSED)
    }

    /// Whether the bit `LOADING_OR_PROCESSING` is set: the simulator is loading or processing.
    pub fn loading_or_processing(&self) -> (set: bool)
        ensures
            set == self.has(LOADING_OR_PROCESSING),
    {
        self.contains(LOADING_OR_PROCESSING)
    }

    /// Whether the bit `IN_GEAR` is set: a gear is engaged.
    pub fn in_gear(&self) -> (set: bool)
        ensures
            set == self.has(IN_GEAR),
    {
        self.contains(IN_GEAR)
    }

    /// Whether the bit `HAS_TURBO` is set: the car has a turbocharger.
    pub fn has_turbo(&self) -> (set: bool)
        ensures
            set == self.has(HAS_TURBO),
    {
        self.contains(HAS_TURBO)
    }

    /// Whether the bit `REV_LIMITER_BLINK_ALERT_ACTIVE` is set: the rev limiter alert is blinking.
    pub fn rev_limiter_blink_alert_active(&self) -> (set: bool)
        ensures
            set == self.has(REV_LIMITER_BLINK_ALERT_ACTIVE),
    {
        self.contains(REV_LIMITER_BLINK_ALERT_ACTIVE)
    }

    /// Whether the bit `HAND_BRAKE_ACTIVE` is set: the hand brake is pulled.
    pub fn hand_brake_active(&self) -> (set: bool)
        ensures
            set == self.has(HAND_BRAKE_ACTIVE),
    {
        self.contains(HAND_BRAKE_ACTIVE)
    }

    /// Whether the bit `LIGHTS_ACTIVE` is set: the lights are on.
    pub fn lights_active(&self) -> (set: bool)
        ensures
            set == self.has(LIGHTS_ACTIVE),
    {
        self.contains(LIGHTS_ACTIVE)
    }

    /// Whether the bit `HIGH_BEAM_ACTIVE` is set: the high beam is on.
    pub fn high_beam_active(&self) -> (set: bool)
        ensures
            set == self.has(HIGH_BEAM_ACTIVE),
    {
        self.contains(HIGH_BEAM_ACTIVE)
    }

    /// Whether the bit `LOW_BEAM_ACTIVE` is set: the low beam is on.
    pub fn low_beam_active(&self) -> (set: bool)
        ensures
            set == self.has(LOW_BEAM_ACTIVE),
    {
        self.contains(LOW_BEAM_ACTIVE)
    }

    /// Whether the bit `ASM_ACTIVE` is set: the stability management is intervening.
    pub fn asm_active(&self) -> (set: bool)
        ensures
            set == self.has(ASM_ACTIVE),
    {
        self.contains(ASM_ACTIVE)
    }

    /// Whether the bit `TCS_ACTIVE` is set: the traction control is intervening.
    pub fn tcs_active(&self) -> (set: bool)
        ensures
            set == self.has(TCS_ACTIVE),
    {
        self.contains(TCS_ACTIVE)
    }
}

/// Whether `mask` is one of the twelve flags that have a meaning.
pub open spec fn is_known_flag(mask: u16) -> bool {
    ||| mask == CAR_ON_TRACK
    ||| mask == PAUSED
    ||| mask == LOADING_OR_PROCESSING
    ||| mask == IN_GEAR
    ||| mask == HAS_TURBO
    ||| mask == REV_LIMITER_BLINK_ALERT_ACTIVE
    ||| mask == HAND_BRAKE_ACTIVE
    ||| mask == LIGHTS_ACTIVE
    ||| mask == HIGH_BEAM_ACTIVE
    ||| mask == LOW_BEAM_ACTIVE
    ||| mask == ASM_ACTIVE
    ||| mask == TCS_ACTIVE
}

/// A field in which only bits without a meaning are set shows none of the
/// twelve flags.
pub proof fn lemma_reserved_bits_show_no_flag(flags: Flags, mask: u16)
    requires
        flags.bits & KNOWN_FLAGS == 0,
        is_known_flag(mask),
    ensures
        !flags.has(mask),
{
    let bits = flags.bits;
    assert(bits & 0x0FFF == 0 ==> bits & 0x0001 != 0x0001 && bits & 0x0002 != 0x0002 && bits
        & 0x0004 != 0x0004 && bits & 0x0008 != 0x0008 && bits & 0x0010 != 0x0010 && bits & 0x0020
        != 0x0020 && bits & 0x0040 != 0x0040 && bits & 0x0080 != 0x0080 && bits & 0x0100 != 0x0100
        && bits & 0x0200 != 0x0200 && bits & 0x0400 != 0x0400 && bits & 0x0800 != 0x0800)
        by (bit_vector);
}

/// The twelve flags are single bits, no two the same, and together they are
/// `KNOWN_FLAGS`: each can be set and read without touching another.
pub proof fn lemma_flags_are_independent(flags: Flags, mask: u16, other: u16)
    requires
        is_known_flag(mask),
        is_known_flag(other),
        mask != other,
    ensures
        mask & other == 0,
        mask & KNOWN_FLAGS == mask,
        (Flags { bits: flags.bits | mask }).has(mask),
        (Flags { bits: flags.bits | mask }).has(other) == flags.has(other),
{
    let bits = flags.bits;
    assert(mask & other == 0) by (bit_vector)
        requires
            mask != other,
            mask == 0x0001 || mask == 0x0002 || mask == 0x0004 || mask == 0x0008 || mask == 0x0010
                || mask == 0x0020 || mask == 0x0040 || mask == 0x0080 || mask == 0x0100 || mask
                == 0x0200 || mask == 0x0400 || mask == 0x0800,
            other == 0x0001 || other == 0x0002 || other == 0x0004 || other == 0x0008 || other
                == 0x0010 || other == 0x0020 || other == 0x0040 || other == 0x0080 || other
                == 0x0100 || other == 0x0200 || other == 0x0400 || other == 0x0800,
    ;
    assert(mask & 0x0FFF == mask) by (bit_vector)
        requires
            mask == 0x0001 || mask == 0x0002 || mask == 0x0004 || mask == 0x0008 || mask == 0x0010
                || mask == 0x0020 || mask == 0x0040 || mask == 0x0080 || mask == 0x0100 || mask
                == 0x0200 || mask == 0x0400 || mask == 0x0800,
    ;
    assert((bits | mask) & mask == mask) by (bit_vector);
    assert(((bits | mask) & other == other) == (bits & other == other)) by (bit_vector)
        requires
            mask & other == 0,
    ;
}

} // verus!
