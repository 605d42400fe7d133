//! Byte framing of register transactions and decoding of sample responses.
//!
//! A read frame starts with the register address with its top bit set and
//! is padded with `0xFF`; the response holds the register contents at the
//! same positions, after the die's echo bytes. A write frame is the address
//! with its top bit clear, then the value.
use vstd::prelude::*;
use crate::bus::Sensor;

verus! {

pub const READ_BIT: u8 = 0x80;
pub const FILLER: u8 = 0xFF;

/// First data register of the gyroscope (three little-endian lanes).
pub const GYRO_DATA_REG: u8 = 0x02;
/// First data register of the accelerometer (three little-endian lanes).
pub const ACC_DATA_REG: u8 = 0x12;
/// Temperature register pair of the accelerometer die.
pub const TEMP_REG: u8 = 0x22;

/// Scratch bytes that every frame fits in; the longest is the accelerometer
/// sample read.
pub const SCRATCH_LEN: usize = 8;

/// Temperature offset of a zero reading, in eighths of a degree Celsius
/// (23 °C).
pub const TEMP_OFFSET_EIGHTHS: i16 = 184;

/// The frame that reads `len - 1` bytes starting at `reg`.
pub open spec fn read_frame(reg: u8, len: nat) -> Seq<u8> {
    Seq::new(len, |i: int| if i == 0 { reg | READ_BIT } else { FILLER })
}

/// The frame that writes `val` to `reg`.
pub open spec fn write_frame(reg: u8, val: u8) -> Seq<u8> {
    seq![reg & 0x7F, val]
}

/// Bytes that the die sends before the first payload byte of a register
/// read: one for the gyroscope, two for the accelerometer.
pub open spec fn echo_len_spec(s: Sensor) -> nat {
    match s {
        Sensor::Gyro => 1,
        Sensor::Acc => 2,
    }
}

/// The frame of a sample read: the data registers of the die.
pub open spec fn sample_frame(s: Sensor) -> Seq<u8> {
    match s {
        Sensor::Gyro => read_frame(GYRO_DATA_REG, 7),
        Sensor::Acc => read_frame(ACC_DATA_REG, 8),
    }
}

/// A signed 16-bit value from its low and high byte.
pub open spec fn le_i16_spec(lo: u8, hi: u8) -> int {
    let u = hi as int * 256 + lo as int;
    if u >= 0x8000 { u - 0x10000 } else { u }
}

/// The 11-bit two's-complement temperature reading of the byte pair:
/// the high byte gives bits 10..3, the top three bits of the low byte give
/// bits 2..0.
pub open spec fn temp_raw_spec(high: u8, low: u8) -> int {
    let u = high as int * 8 + low as int / 32;
    if u > 0x3FF { u - 0x800 } else { u }
}

/// The frame that reads `len - 1` bytes starting at `reg`.
pub fn read_command(reg: u8, len: usize) -> (r: Vec<u8>)
    requires
        len >= 1,
    ensures
        r@ == read_frame(reg, len as nat),
{
    let mut v: Vec<u8> = Vec::new();
    v.push(reg | READ_BIT);
    let mut i: usize = 1;
    while i < len
        invariant
            1 <= i <= len,
            v@ == read_frame(reg, i as nat),
        decreases len - i,
    {
        v.push(FILLER);
        i = i + 1;
        assert(v@ =~= read_frame(reg, i as nat));
    }
    assert(v@ =~= read_frame(reg, len as nat));
    v
}

/// The frame that writes `val` to `reg`.
pub fn write_command(reg: u8, val: u8) -> (r: Vec<u8>)
    ensures
        r@ == write_frame(reg, val),
{
    let mut v: Vec<u8> = Vec::new();
    v.push(reg & 0x7F);
    v.push(val);
    assert(v@ =~= write_frame(reg, val));
    v
}

/// Bytes before the payload in a register read from `s`.
pub fn echo_len(s: Sensor) -> (r: usize)
    ensures
        r == echo_len_spec(s),
{
    match s {
        Sensor::Gyro => 1,
        Sensor::Acc => 2,
    }
}

/// The frame that reads one register of `s`: the echo bytes and one payload
/// byte.
pub fn register_read_command(s: Sensor, reg: u8) -> (r: Vec<u8>)
    ensures
        r@ == read_frame(reg, echo_len_spec(s) + 1),
{
    read_command(reg, echo_len(s) + 1)
}

/// The register value in the response to `register_read_command(s, _)`.
pub fn register_value(s: Sensor, response: &[u8]) -> (r: u8)
    requires
        response@.len() > echo_len_spec(s),
    ensures
        r == response@[echo_len_spec(s) as int],
{
    response[echo_len(s)]
}

/// The frame that reads the three data lanes of `s`.
pub fn sample_command(s: Sensor) -> (r: Vec<u8>)
    ensures
        r@ == sample_frame(s),
{
    match s {
        Sensor::Gyro => read_command(GYRO_DATA_REG, 7),
        Sensor::Acc => read_command(ACC_DATA_REG, 8),
    }
}

/// The frame that reads the temperature register pair.
pub fn temp_command() -> (r: Vec<u8>)
    ensures
        r@ == read_frame(TEMP_REG, 4),
{
    read_command(TEMP_REG, 4)
}

/// A signed 16-bit value from its low and high byte.
pub fn le_i16(lo: u8, hi: u8) -> (r: i16)
    ensures
        r as int == le_i16_spec(lo, hi),
{
    let u: i32 = hi as i32 * 256 + lo as i32;
    if u >= 0x8000 {
        (u - 0x10000) as i16
    } else {
        u as i16
    }
}

/// The three lanes of a sample response of `s`, in order x, y, z. Each
/// lane is little-endian and they follow the echo bytes.
pub fn sample_lanes(s: Sensor, response: &[u8]) -> (r: (i16, i16, i16))
    requires
        response@.len() >= sample_frame(s).len(),
    ensures
        ({
            let e = echo_len_spec(s) as int;
            &&& r.0 as int == le_i16_spec(response@[e], response@[e + 1])
            &&& r.1 as int == le_i16_spec(response@[e + 2], response@[e + 3])
            &&& r.2 as int == le_i16_spec(response@[e + 4], response@[e + 5])
        }),
{
    let e = echo_len(s);
    (
        le_i16(response[e], response[e + 1]),
        le_i16(response[e + 2], response[e + 3]),
        le_i16(response[e + 4], response[e + 5]),
    )
}

/// The 11-bit signed temperature reading of the byte pair.
pub fn temp_raw(high: u8, low: u8) -> (r: i16)
    ensures
        r as int == temp_raw_spec(high, low),
        -0x400 <= r <= 0x3FF,
{
    let u: i16 = (high as i16) * 8 + (low as i16) / 32;
    if u > 0x3FF {
        u - 0x800
    } else {
        u
    }
}

/// The temperature of a response to `temp_command()`, in eighths of a
/// degree Celsius: the raw reading plus the 23 °C offset.
pub fn temperature_eighths(response: &[u8]) -> (r: i16)
    requires
        response@.len() >= 4,
    ensures
        r as int == temp_raw_spec(response@[2], response@[3]) + TEMP_OFFSET_EIGHTHS,
{
    temp_raw(response[2], response[3]) + TEMP_OFFSET_EIGHTHS
}

/// A lane of two zero bytes is zero.
pub proof fn lemma_zero_lane()
    ensures
        le_i16_spec(0, 0) == 0,
{
}

/// A zero temperature byte pair reads 23 °C; a raw reading at or above the
/// sign boundary `0x400` reads below zero before the offset.
pub proof fn lemma_temp_sign(high: u8, low: u8)
    ensures
        temp_raw_spec(0, 0) == 0,
        temp_raw_spec(0, 0) + TEMP_OFFSET_EIGHTHS == 23 * 8,
        high as int * 8 + low as int / 32 >= 0x400 ==> temp_raw_spec(high, low) < 0,
        high as int * 8 + low as int / 32 <= 0x3FF ==> temp_raw_spec(high, low) >= 0,
{
}

/// Every frame that the driver sends fits in the scratch buffer, and the
/// accelerometer sample read fills it.
pub proof fn lemma_frames_fit_scratch(s: Sensor, reg: u8, val: u8)
    ensures
        sample_frame(s).len() <= SCRATCH_LEN,
        sample_frame(Sensor::Acc).len() == SCRATCH_LEN,
        read_frame(TEMP_REG, 4).len() <= SCRATCH_LEN,
        read_frame(reg, echo_len_spec(s) + 1).len() <= SCRATCH_LEN,
        write_frame(reg, val).len() <= SCRATCH_LEN,
{
}

} // verus!
