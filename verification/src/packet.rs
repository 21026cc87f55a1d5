//! The telemetry record and the decoder that reads it out of a decrypted
//! buffer.
//!
//! The layout has no alignment padding. Every field is little-endian and
//! follows the one before it; three regions and one byte carry nothing and
//! are skipped. `record_of` gives each field by its offset, and the decoder,
//! which walks the buffer field by field, is proved to agree with it.

use crate::crypt::{has_magic, MAGIC_VALUE};
use crate::endian::{i16_at, i32_at, le_i16, le_i32, le_u16, le_u32, u16_at, u32_at};
use crate::errors::{PacketError, ShortRead};
use crate::flags::Flags;
use vstd::prelude::*;

verus! {

/// Number of bytes in a telemetry datagram.
pub const PACKET_SIZE: usize = 0x198;

/// Payload of the keep-alive datagram: the letter `A`.
pub const HEARTBEAT_PACKET_DATA: [u8; 1] = [0x41];

/// Number of bytes from the start of a buffer to the end of its last field.
pub const LAYOUT_END: usize = 0x128;

/// Offset of the slot for an eighth gear ratio. The simulator writes to it
/// without a rule, and the decoder passes over it.
pub const EIGHTH_GEAR_OFFSET: usize = 0x120;

/// An IEEE 754 binary32 number, held as its 32 bits. Two values are equal
/// when their bits are.
#[derive(Debug, Clone, Copy, PartialEq, Eq, Hash)]
pub struct Float32 {
    pub bits: u32,
}

impl Float32 {
    /// The number with these bits.
    pub fn from_bits(bits: u32) -> (value: Float32)
        ensures
            value.bits == bits,
    {
        Float32 { bits }
    }

    /// The bits of the number.
    pub fn to_bits(self) -> (bits: u32)
        ensures
            bits == self.bits,
    {
        self.bits
    }
}

/// One snapshot of the vehicle, as one datagram carries it.
#[derive(Debug, Clone, Copy, PartialEq, Eq)]
pub struct Packet {
    pub position: [Float32; 3],
    pub velocity: [Float32; 3],
    pub rotation: [Float32; 3],
    pub relative_orientation_to_north: Float32,
    pub angular_velocity: [Float32; 3],
    pub body_height: Float32,
    pub engine_rpm: Float32,
    pub gas_level: Float32,
    pub gas_capacity: Float32,
    pub meters_per_second: Float32,
    pub turbo_boost: Float32,
    pub oil_pressure: Float32,
    pub water_temperature: Float32,
    pub oil_temperature: Float32,
    pub tire_fl_surface_temperature: Float32,
    pub tire_fr_surface_temperature: Float32,
    pub tire_rl_surface_temperature: Float32,
    pub tire_rr_surface_temperature: Float32,
    pub packet_id: i32,
    pub lap_count: i16,
    pub laps_in_race: i16,
    pub best_lap_time: i32,
    pub last_lap_time: i32,
    pub time_of_day_progression: i32,
    pub qualifying_position: i16,
    pub num_cars_pre_race: i16,
    pub alert_rpm_min: i16,
    pub alert_rpm_max: i16,
    pub calculated_max_speed: i16,
    pub flags: Flags,
    pub current_gear: u8,
    pub suggested_gear: u8,
    pub throttle: u8,
    pub brake: u8,
    pub road_plane: [Float32; 3],
    pub road_plane_distance: Float32,
    pub wheel_fl_rps: Float32,
    pub wheel_fr_rps: Float32,
    pub wheel_rl_rps: Float32,
    pub wheel_rr_rps: Float32,
    pub tire_fl_radius: Float32,
    pub tire_fr_radius: Float32,
    pub tire_rl_radius: Float32,
    pub tire_rr_radius: Float32,
    pub tire_fl_suspension_height: Float32,
    pub tire_fr_suspension_height: Float32,
    pub tire_rl_suspension_height: Float32,
    pub tire_rr_suspension_height: Float32,
    pub clutch_pedal: Float32,
    pub clutch_engagement: Float32,
    pub rpm_from_clutch_to_gearbox: Float32,
    pub transmission_top_speed: Float32,
    pub gear_ratios: [Float32; 7],
    pub car_code: i32,
}

/// The binary32 field that begins at `at`.
pub open spec fn float_at(bytes: Seq<u8>, at: int) -> Float32 {
    Float32 { bits: le_u32(bytes, at) }
}

/// The three binary32 fields that begin at `at`.
pub open spec fn float3_at(bytes: Seq<u8>, at: int) -> [Float32; 3] {
    [float_at(bytes, at), float_at(bytes, at + 4), float_at(bytes, at + 8)]
}

/// The seven binary32 fields that begin at `at`.
pub open spec fn float7_at(bytes: Seq<u8>, at: int) -> [Float32; 7] {
    [
        float_at(bytes, at),
        float_at(bytes, at + 4),
        float_at(bytes, at + 8),
        float_at(bytes, at + 12),
        float_at(bytes, at + 16),
        float_at(bytes, at + 20),
        float_at(bytes, at + 24),
    ]
}

/// The gear in use: the low four bits of the gear byte.
pub open spec fn current_gear_of(gears: u8) -> u8 {
    gears & 0x0F
}

/// The gear the simulator suggests: the high four bits of the gear byte.
pub open spec fn suggested_gear_of(gears: u8) -> u8 {
    gears >> 4
}

/// The record that a buffer of at least `LAYOUT_END` bytes holds, field by
/// field. Bytes 0x40 to 0x43 (the source of the nonce), 0x93, 0xD4 to 0xF3 and
/// 0x120 to 0x123 (the eighth gear ratio) belong to no field, nor does
/// anything from 0x128 on.
pub open spec fn record_of(bytes: Seq<u8>) -> Packet {
    Packet {
        position: float3_at(bytes, 0x04),
        velocity: float3_at(bytes, 0x10),
        rotation: float3_at(bytes, 0x1C),
        relative_orientation_to_north: float_at(bytes, 0x28),
        angular_velocity: float3_at(bytes, 0x2C),
        body_height: float_at(bytes, 0x38),
        engine_rpm: float_at(bytes, 0x3C),
        gas_level: float_at(bytes, 0x44),
        gas_capacity: float_at(bytes, 0x48),
        meters_per_second: float_at(bytes, 0x4C),
        turbo_boost: float_at(bytes, 0x50),
        oil_pressure: float_at(bytes, 0x54),
        water_temperature: float_at(bytes, 0x58),
        oil_temperature: float_at(bytes, 0x5C),
        tire_fl_surface_temperature: float_at(bytes, 0x60),
        tire_fr_surface_temperature: float_at(bytes, 0x64),
        tire_rl_surface_temperature: float_at(bytes, 0x68),
        tire_rr_surface_temperature: float_at(bytes, 0x6C),
        packet_id: le_i32(bytes, 0x70),
        lap_count: le_i16(bytes, 0x74),
        laps_in_race: le_i16(bytes, 0x76),
        best_lap_time: le_i32(bytes, 0x78),
        last_lap_time: le_i32(bytes, 0x7C),
        time_of_day_progression: le_i32(bytes, 0x80),
        qualifying_position: le_i16(bytes, 0x84),
        num_cars_pre_race: le_i16(bytes, 0x86),
        alert_rpm_min: le_i16(bytes, 0x88),
        alert_rpm_max: le_i16(bytes, 0x8A),
        calculated_max_speed: le_i16(bytes, 0x8C),
        flags: Flags { bits: le_u16(bytes, 0x8E) },
        current_gear: current_gear_of(bytes[0x90]),
        suggested_gear: suggested_gear_of(bytes[0x90]),
        throttle: bytes[0x91],
        brake: bytes[0x92],
        road_plane: float3_at(bytes, 0x94),
        road_plane_distance: float_at(bytes, 0xA0),
        wheel_fl_rps: float_at(bytes, 0xA4),
        wheel_fr_rps: float_at(bytes, 0xA8),
        wheel_rl_rps: float_at(bytes, 0xAC),
        wheel_rr_rps: float_at(bytes, 0xB0),
        tire_fl_radius: float_at(bytes, 0xB4),
        tire_fr_radius: float_at(bytes, 0xB8),
        tire_rl_radius: float_at(bytes, 0xBC),
        tire_rr_radius: float_at(bytes, 0xC0),
        tire_fl_suspension_height: float_at(bytes, 0xC4),
        tire_fr_suspension_height: float_at(bytes, 0xC8),
        tire_rl_suspension_height: float_at(bytes, 0xCC),
        tire_rr_suspension_height: float_at(bytes, 0xD0),
        clutch_pedal: float_at(bytes, 0xF4),
        clutch_engagement: float_at(bytes, 0xF8),
        rpm_from_clutch_to_gearbox: float_at(bytes, 0xFC),
        transmission_top_speed: float_at(bytes, 0x100),
        gear_ratios: float7_at(bytes, 0x104),
        car_code: le_i32(bytes, 0x124),
    }
}

/// What decoding a plaintext buffer of any length gives: a short buffer is
/// refused whatever it holds, then one without the magic value, and the rest
/// is read as a record.
pub open spec fn decode_spec(bytes: Seq<u8>) -> Result<Packet, PacketError> {
    if bytes.len() < PACKET_SIZE {
        Err(
            PacketError::UnexpectedSequence(
                ShortRead { needed: PACKET_SIZE, available: bytes.len() as usize },
            ),
        )
    } else if !has_magic(bytes) {
        Err(PacketError::UnexpectedMagicValue())
    } else {
        Ok(record_of(bytes))
    }
}

/// Splits the gear byte into the gear in use and the suggested gear.
pub fn unpack_gears(gears: u8) -> (pair: (u8, u8))
    ensures
        pair.0 == current_gear_of(gears),
        pair.1 == suggested_gear_of(gears),
        pair.0 < 16,
        pair.1 < 16,
        pair.1 * 16 + pair.0 == gears,
{
    let current = gears & 0x0F;
    let suggested = gears >> 4;
    proof {
        assert(gears & 0x0F < 16 && gears >> 4 < 16 && (gears >> 4) * 16 + (gears & 0x0F) == gears)
            by (bit_vector);
    }
    (current, suggested)
}

/// A position in a buffer from which the fields are read one after another.
struct Cursor<'a> {
    bytes: &'a [u8],
    at: usize,
}

impl<'a> Cursor<'a> {
    fn new(bytes: &'a [u8]) -> (cursor: Cursor<'a>)
        ensures
            cursor.bytes@ == bytes@,
            cursor.at == 0,
    {
        Cursor { bytes, at: 0 }
    }

    fn skip(&mut self, count: usize)
        requires
            old(self).at + count <= old(self).bytes.len(),
        ensures
            final(self).bytes == old(self).bytes,
            final(self).at == old(self).at + count,
    {
        self.at = self.at + count;
    }

    fn read_u8(&mut self) -> (value: u8)
        requires
            old(self).at + 1 <= old(self).bytes.len(),
        ensures
            final(self).bytes == old(self).bytes,
            final(self).at == old(self).at + 1,
            value == old(self).bytes@[old(self).at as int],
    {
        let value = self.bytes[self.at];
        self.at = self.at + 1;
        value
    }

    fn read_u16(&mut self) -> (value: u16)
        requires
            old(self).at + 2 <= old(self).bytes.len(),
        ensures
            final(self).bytes == old(self).bytes,
            final(self).at == old(self).at + 2,
            value == le_u16(old(self).bytes@, old(self).at as int),
    {
        let value = u16_at(self.bytes, self.at);
        self.at = self.at + 2;
        value
    }

    fn read_i16(&mut self) -> (value: i16)
        requires
            old(self).at + 2 <= old(self).bytes.len(),
        ensures
            final(self).bytes == old(self).bytes,
            final(self).at == old(self).at + 2,
            value == le_i16(old(self).bytes@, old(self).at as int),
    {
        let value = i16_at(self.bytes, self.at);
        self.at = self.at + 2;
        value
    }

    fn read_u32(&mut self) -> (value: u32)
        requires
            old(self).at + 4 <= old(self).bytes.len(),
        ensures
            final(self).bytes == old(self).bytes,
            final(self).at == old(self).at + 4,
            value == le_u32(old(self).bytes@, old(self).at as int),
    {
        let value = u32_at(self.bytes, self.at);
        self.at = self.at + 4;
        value
    }

    fn read_i32(&mut self) -> (value: i32)
        requires
            old(self).at + 4 <= old(self).bytes.len(),
        ensures
            final(self).bytes == old(self).bytes,
            final(self).at == old(self).at + 4,
            value == le_i32(old(self).bytes@, old(self).at as int),
    {
        let value = i32_at(self.bytes, self.at);
        self.at = self.at + 4;
        value
    }

    fn read_f32(&mut self) -> (value: Float32)
        requires
            old(self).at + 4 <= old(self).bytes.len(),
        ensures
            final(self).bytes == old(self).bytes,
            final(self).at == old(self).at + 4,
            value == float_at(old(self).bytes@, old(self).at as int),
    {
        let bits = self.read_u32();
        Float32 { bits }
    }

    fn read_f32x3(&mut self) -> (value: [Float32; 3])
        requires
            old(self).at + 12 <= old(self).bytes.len(),
        ensures
            final(self).bytes == old(self).bytes,
            final(self).at == old(self).at + 12,
            value == float3_at(old(self).bytes@, old(self).at as int),
    {
        let x = self.read_f32();
        let y = self.read_f32();
        let z = self.read_f32();
        [x, y, z]
    }

    fn read_f32x7(&mut self) -> (value: [Float32; 7])
        requires
            old(self).at + 28 <= old(self).bytes.len(),
        ensures
            final(self).bytes == old(self).bytes,
            final(self).at == old(self).at + 28,
            value == float7_at(old(self).bytes@, old(self).at as int),
    {
        let first = self.read_f32();
        let second = self.read_f32();
        let third = self.read_f32();
        let fourth = self.read_f32();
        let fifth = self.read_f32();
        let sixth = self.read_f32();
        let seventh = self.read_f32();
        [first, second, third, fourth, fifth, sixth, seventh]
    }
}


/// Reads the fields of a buffer that has been found long enough, one after
/// another from the start.
fn read_record(bytes: &[u8]) -> (record: Packet)
    requires
        bytes.len() >= LAYOUT_END,
    ensures
        record == record_of(bytes@),
{
    let mut cursor = Cursor::new(bytes);
    // The magic value: the callers have looked at it.
    cursor.skip(4);
    let position = cursor.read_f32x3();
    let velocity = cursor.read_f32x3();
    let rotation = cursor.read_f32x3();
    let relative_orientation_to_north = cursor.read_f32();
    let angular_velocity = cursor.read_f32x3();
    let body_height = cursor.read_f32();
    let engine_rpm = cursor.read_f32();
    // The four bytes from which the cipher took its nonce.
    cursor.skip(4);
    let gas_level = cursor.read_f32();
    let gas_capacity = cursor.read_f32();
    let meters_per_second = cursor.read_f32();
    let turbo_boost = cursor.read_f32();
    let oil_pressure = cursor.read_f32();
    let water_temperature = cursor.read_f32();
    let oil_temperature = cursor.read_f32();
    let tire_fl_surface_temperature = cursor.read_f32();
    let tire_fr_surface_temperature = cursor.read_f32();
    let tire_rl_surface_temperature = cursor.read_f32();
    let tire_rr_surface_temperature = cursor.read_f32();
    let packet_id = cursor.read_i32();
    let lap_count = cursor.read_i16();
    let laps_in_race = cursor.read_i16();
    let best_lap_time = cursor.read_i32();
    let last_lap_time = cursor.read_i32();
    let time_of_day_progression = cursor.read_i32();
    let qualifying_position = cursor.read_i16();
    let num_cars_pre_race = cursor.read_i16();
    let alert_rpm_min = cursor.read_i16();
    let alert_rpm_max = cursor.read_i16();
    let calculated_max_speed = cursor.read_i16();
    let flags = Flags::from_bits_retain(cursor.read_u16());
    let (current_gear, suggested_gear) = unpack_gears(cursor.read_u8());
    let throttle = cursor.read_u8();
    let brake = cursor.read_u8();
    // A byte without a meaning.
    cursor.skip(1);
    let road_plane = cursor.read_f32x3();
    let road_plane_distance = cursor.read_f32();
    let wheel_fl_rps = cursor.read_f32();
    let wheel_fr_rps = cursor.read_f32();
    let wheel_rl_rps = cursor.read_f32();
    let wheel_rr_rps = cursor.read_f32();
    let tire_fl_radius = cursor.read_f32();
    let tire_fr_radius = cursor.read_f32();
    let tire_rl_radius = cursor.read_f32();
    let tire_rr_radius = cursor.read_f32();
    let tire_fl_suspension_height = cursor.read_f32();
    let tire_fr_suspension_height = cursor.read_f32();
    let tire_rl_suspension_height = cursor.read_f32();
    let tire_rr_suspension_height = cursor.read_f32();
    // Eight slots of four bytes without a meaning.
    cursor.skip(32);
    let clutch_pedal = cursor.read_f32();
    let clutch_engagement = cursor.read_f32();
    let rpm_from_clutch_to_gearbox = cursor.read_f32();
    let transmission_top_speed = cursor.read_f32();
    let gear_ratios = cursor.read_f32x7();
    // The ratio of an eighth gear, which cannot be relied on.
    cursor.skip(4);
    let car_code = cursor.read_i32();
    Packet {
        position,
        velocity,
        rotation,
        relative_orientation_to_north,
        angular_velocity,
        body_height,
        engine_rpm,
        gas_level,
        gas_capacity,
        meters_per_second,
        turbo_boost,
        oil_pressure,
        water_temperature,
        oil_temperature,
        tire_fl_surface_temperature,
        tire_fr_surface_temperature,
        tire_rl_surface_temperature,
        tire_rr_surface_temperature,
        packet_id,
        lap_count,
        laps_in_race,
        best_lap_time,
        last_lap_time,
        time_of_day_progression,
        qualifying_position,
        num_cars_pre_race,
        alert_rpm_min,
        alert_rpm_max,
        calculated_max_speed,
        flags,
        current_gear,
        suggested_gear,
        throttle,
        brake,
        road_plane,
        road_plane_distance,
        wheel_fl_rps,
        wheel_fr_rps,
        wheel_rl_rps,
        wheel_rr_rps,
        tire_fl_radius,
        tire_fr_radius,
        tire_rl_radius,
        tire_rr_radius,
        tire_fl_suspension_height,
        tire_fr_suspension_height,
        tire_rl_suspension_height,
        tire_rr_suspension_height,
        clutch_pedal,
        clutch_engagement,
        rpm_from_clutch_to_gearbox,
        transmission_top_speed,
        gear_ratios,
        car_code,
    }
}

impl Packet {
    /// Decodes a decrypted datagram. A buffer that does not begin with the
    /// magic value is refused; any other is read as a record.
    pub fn parse(packet: [u8; PACKET_SIZE]) -> (result: Result<Packet, PacketError>)
        ensures
            result == decode_spec(packet@),
            result == if has_magic(packet@) {
                Ok::<Packet, PacketError>(record_of(packet@))
            } else {
                Err(PacketError::UnexpectedMagicValue())
            },
    {
        Packet::parse_slice(packet.as_slice())
    }

    /// Decodes a decrypted buffer of any length. One of fewer than
    /// `PACKET_SIZE` bytes is refused as too short, whatever it holds, and no
    /// part of it is read. Bytes after the first `PACKET_SIZE` are not looked
    /// at.
    pub fn parse_slice(bytes: &[u8]) -> (result: Result<Packet, PacketError>)
        ensures
            result == decode_spec(bytes@),
    {
        if bytes.len() < PACKET_SIZE {
            return Err(
                PacketError::UnexpectedSequence(
                    ShortRead { needed: PACKET_SIZE, available: bytes.len() },
                ),
            );
        }
        if u32_at(bytes, 0) != MAGIC_VALUE {
            return Err(PacketError::UnexpectedMagicValue());
        }
        Ok(read_record(bytes))
    }
}

/// Whether the byte at `offset` belongs to a field of the record.
pub open spec fn is_field_byte(offset: int) -> bool {
    ||| 0x04 <= offset < 0x40
    ||| 0x44 <= offset < 0x93
    ||| 0x94 <= offset < 0xD4
    ||| 0xF4 <= offset < EIGHTH_GEAR_OFFSET
    ||| 0x124 <= offset < LAYOUT_END
}

/// Whether the four bytes from `at` on belong to fields of the record.
spec fn is_field_word(at: int) -> bool {
    is_field_byte(at) && is_field_byte(at + 1) && is_field_byte(at + 2) && is_field_byte(at + 3)
}

/// The record is made of the field bytes and of nothing else. Two buffers
/// that agree in those hold the same record, whatever stands in the slot of
/// the eighth gear ratio, in the bytes from which the nonce came, in the
/// other skipped regions or after the last field.
pub proof fn lemma_record_depends_on_field_bytes(first: Seq<u8>, second: Seq<u8>)
    requires
        first.len() >= LAYOUT_END,
        second.len() >= LAYOUT_END,
        forall|i: int| #[trigger] is_field_byte(i) ==> first[i] == second[i],
    ensures
        record_of(first) == record_of(second),
{
    assert forall|at: int| is_field_word(at) implies #[trigger] le_u32(first, at) == le_u32(
        second,
        at,
    ) by {}
    assert forall|at: int| is_field_byte(at) && is_field_byte(at + 1) implies #[trigger] le_u16(
        first,
        at,
    ) == le_u16(second, at) by {}
    assert(is_field_byte(0x90) && is_field_byte(0x91) && is_field_byte(0x92));
}

/// The seven gear ratios of a record are the seven numbers before the slot
/// of the eighth, and two buffers that differ in that slot alone decode to
/// the same result.
pub proof fn lemma_eighth_gear_is_ignored(first: Seq<u8>, second: Seq<u8>)
    requires
        first.len() == second.len(),
        forall|i: int|
            0 <= i < first.len() && !(EIGHTH_GEAR_OFFSET <= i < EIGHTH_GEAR_OFFSET + 4)
                ==> first[i] == second[i],
    ensures
        record_of(first).gear_ratios@.len() == 7,
        first.len() >= PACKET_SIZE ==> record_of(first) == record_of(second),
        decode_spec(first) == decode_spec(second),
{
    if first.len() >= PACKET_SIZE {
        lemma_record_depends_on_field_bytes(first, second);
        assert(first[0] == second[0] && first[1] == second[1] && first[2] == second[2] && first[3]
            == second[3]);
    }
}

} // verus!
