use gt7_telemetry::errors::PacketError;
use gt7_telemetry::flags::{
    Flags, ASM_ACTIVE, CAR_ON_TRACK, HAND_BRAKE_ACTIVE, HAS_TURBO, HIGH_BEAM_ACTIVE, IN_GEAR,
    KNOWN_FLAGS, LIGHTS_ACTIVE, LOADING_OR_PROCESSING, LOW_BEAM_ACTIVE, PAUSED,
    REV_LIMITER_BLINK_ALERT_ACTIVE, TCS_ACTIVE,
};

fn accessors(flags: &Flags) -> [bool; 12] {
    [
        flags.car_on_track(),
        flags.paused(),
        flags.loading_or_processing(),
        flags.in_gear(),
        flags.has_turbo(),
        flags.rev_limiter_blink_alert_active(),
        flags.hand_brake_active(),
        flags.lights_active(),
        flags.high_beam_active(),
        flags.low_beam_active(),
        flags.asm_active(),
        flags.tcs_active(),
    ]
}

const MASKS: [u16; 12] = [
    CAR_ON_TRACK,
    PAUSED,
    LOADING_OR_PROCESSING,
    IN_GEAR,
    HAS_TURBO,
    REV_LIMITER_BLINK_ALERT_ACTIVE,
    HAND_BRAKE_ACTIVE,
    LIGHTS_ACTIVE,
    HIGH_BEAM_ACTIVE,
    LOW_BEAM_ACTIVE,
    ASM_ACTIVE,
    TCS_ACTIVE,
];

#[test]
fn car_on_track_alone() {
    let flags = Flags::from_bits_retain(0x0001);
    assert!(flags.car_on_track());
    assert_eq!(
        accessors(&flags),
        [true, false, false, false, false, false, false, false, false, false, false, false]
    );
}

#[test]
fn masks_are_the_twelve_low_bits() {
    for (index, mask) in MASKS.iter().enumerate() {
        assert_eq!(*mask, 1u16 << index);
    }
    assert_eq!(KNOWN_FLAGS, 0x0FFF);
    assert_eq!(MASKS.iter().fold(0u16, |all, mask| all | mask), KNOWN_FLAGS);
}

#[test]
fn each_flag_is_read_by_its_own_accessor() {
    for (index, mask) in MASKS.iter().enumerate() {
        let flags = Flags::from_bits_retain(*mask);
        let mut expected = [false; 12];
        expected[index] = true;
        assert_eq!(accessors(&flags), expected);
        assert!(flags.contains(*mask));
        assert_eq!(flags.reserved_bits(), 0);
    }
}

#[test]
fn reserved_bits_alone_show_no_flag() {
    for bits in [0x1000u16, 0x2000, 0x4000, 0x8000, 0xF000] {
        let flags = Flags::from_bits_retain(bits);
        assert_eq!(accessors(&flags), [false; 12]);
        assert_eq!(flags.bits(), bits);
        assert_eq!(flags.reserved_bits(), bits);
    }
}

#[test]
fn no_bit_set_shows_no_flag() {
    let flags = Flags::from_bits_retain(0);
    assert_eq!(accessors(&flags), [false; 12]);
    assert_eq!(flags.reserved_bits(), 0);
}

#[test]
fn reserved_bits_do_not_hide_the_known_ones() {
    let flags = Flags::from_bits_retain(0x4A09);
    assert_eq!(
        accessors(&flags),
        [true, false, false, true, false, false, false, false, false, true, false, true]
    );
    assert_eq!(flags.reserved_bits(), 0x4000);
    assert_eq!(flags.bits(), 0x4A09);
}

#[test]
fn contains_asks_for_every_bit_of_the_mask() {
    let flags = Flags::from_bits_retain(CAR_ON_TRACK | IN_GEAR);
    assert!(flags.contains(CAR_ON_TRACK | IN_GEAR));
    assert!(!flags.contains(CAR_ON_TRACK | PAUSED));
    assert!(flags.contains(0));
}

#[test]
fn strict_reading_refuses_a_reserved_bit() {
    assert_eq!(Flags::from_bits_strict(0x0FFF), Ok(Flags::from_bits_retain(0x0FFF)));
    assert_eq!(Flags::from_bits_strict(0), Ok(Flags::from_bits_retain(0)));
    assert_eq!(Flags::from_bits_strict(0x1000), Err(PacketError::UnknownFlag()));
    assert_eq!(Flags::from_bits_strict(0x8001), Err(PacketError::UnknownFlag()));
}
