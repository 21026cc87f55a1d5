use gt7_telemetry::add;
use gt7_telemetry::endian::{i16_at, i32_at, u16_at, u32_at, u32_to_le_bytes};

const BYTES: [u8; 8] = [0x30, 0x53, 0x37, 0x47, 0xFF, 0xFF, 0xFE, 0x80];

#[test]
fn unsigned_fields() {
    assert_eq!(u32_at(&BYTES, 0), 0x47375330);
    assert_eq!(u32_at(&BYTES, 4), 0x80FEFFFF);
    assert_eq!(u32_at(&BYTES, 1), 0xFF473753);
    assert_eq!(u16_at(&BYTES, 0), 0x5330);
    assert_eq!(u16_at(&BYTES, 6), 0x80FE);
}

#[test]
fn signed_fields() {
    assert_eq!(i16_at(&BYTES, 4), -1);
    assert_eq!(i16_at(&BYTES, 6), -32514);
    assert_eq!(i16_at(&BYTES, 0), 0x5330);
    assert_eq!(i32_at(&BYTES, 0), 0x47375330);
    assert_eq!(i32_at(&BYTES, 4), -2130771969);
    assert_eq!(i32_at(&[0x00, 0x00, 0x00, 0x80], 0), i32::MIN);
    assert_eq!(i16_at(&[0x00, 0x80], 0), i16::MIN);
    assert_eq!(i32_at(&[0xFF, 0xFF, 0xFF, 0x7F], 0), i32::MAX);
}

#[test]
fn bytes_of_a_number() {
    assert_eq!(u32_to_le_bytes(0x47375330), [0x30, 0x53, 0x37, 0x47]);
    assert_eq!(u32_to_le_bytes(0), [0, 0, 0, 0]);
    assert_eq!(u32_to_le_bytes(u32::MAX), [0xFF, 0xFF, 0xFF, 0xFF]);
    assert_eq!(u32_to_le_bytes(0xDEADBEAF), [0xAF, 0xBE, 0xAD, 0xDE]);
}

#[test]
fn bytes_read_back() {
    for number in [0u32, 1, 0x100, 0x10000, 0x1000000, 0x12345678, u32::MAX] {
        assert_eq!(u32_at(&u32_to_le_bytes(number), 0), number);
    }
}

#[test]
fn sizes_add_up() {
    assert_eq!(add(2, 2), 4);
    assert_eq!(add(0, usize::MAX), usize::MAX);
}
