//! Decoding of the sensor frames that the device sends.

use vstd::prelude::*;
use crate::protocol::{InputType, InputTypeReading};

verus! {

/// The unsigned value of four bytes read most significant first.
pub open spec fn be_u32(b0: u8, b1: u8, b2: u8, b3: u8) -> int {
    b0 * 0x1000000 + b1 * 0x10000 + b2 * 0x100 + b3
}

/// The two's complement value of two bytes read most significant first.
pub open spec fn be_i16(hi: u8, lo: u8) -> int {
    if hi < 0x80 {
        hi * 0x100 + lo
    } else {
        hi * 0x100 + lo - 0x10000
    }
}

proof fn lemma_be_u32(b0: u8, b1: u8, b2: u8, b3: u8)
    ensures
        ((b0 as u32) << 24u32 | (b1 as u32) << 16u32 | (b2 as u32) << 8u32 | (b3 as u32)) as int
            == b0 * 0x1000000 + b1 * 0x10000 + b2 * 0x100 + b3,
{
    assert(((b0 as u32) << 24u32 | (b1 as u32) << 16u32 | (b2 as u32) << 8u32 | (b3 as u32)) as int
        == b0 * 0x1000000 + b1 * 0x10000 + b2 * 0x100 + b3) by (bit_vector);
}

/// Reads the big-endian unsigned value of `data[start..start + 4]`.
fn read_be_u32(data: &[u8], start: usize) -> (v: u32)
    requires
        start + 4 <= data@.len(),
    ensures
        v as int == be_u32(data@[start as int], data@[start + 1], data@[start + 2], data@[start + 3]),
{
    let b0 = data[start];
    let b1 = data[start + 1];
    let b2 = data[start + 2];
    let b3 = data[start + 3];
    proof {
        lemma_be_u32(b0, b1, b2, b3);
    }
    (b0 as u32) << 24u32 | (b1 as u32) << 16u32 | (b2 as u32) << 8u32 | (b3 as u32)
}

/// Reads the big-endian two's complement value of `data[start..start + 2]`.
fn read_be_i16(data: &[u8], start: usize) -> (v: i32)
    requires
        start + 2 <= data@.len(),
    ensures
        v as int == be_i16(data@[start as int], data@[start + 1]),
{
    let hi = data[start];
    let lo = data[start + 1];
    proof {
        lemma_be_i16(hi, lo);
    }
    ((hi as i16) << 8u32 | lo as i16) as i32
}

proof fn lemma_be_i16(hi: u8, lo: u8)
    ensures
        (((hi as i16) << 8u32 | lo as i16) as i32) as int == if hi < 0x80 {
            hi * 0x100 + lo
        } else {
            hi * 0x100 + lo - 0x10000
        },
{
    assert((((hi as i16) << 8u32 | lo as i16) as i32) as int == if hi < 0x80 {
        hi * 0x100 + lo
    } else {
        hi * 0x100 + lo - 0x10000
    }) by (bit_vector);
}

/// A pressure frame is usable when it has at least eight bytes and its
/// fourth byte is the 0xFF marker.
pub open spec fn is_pressure_frame(d: Seq<u8>) -> bool {
    d.len() >= 8 && d[3] == 0xFF
}

/// The pressure carried by a usable pressure frame: bytes 4..8 read most
/// significant first, divided by 100.
pub open spec fn frame_pressure(d: Seq<u8>) -> u32 {
    (be_u32(d[4], d[5], d[6], d[7]) / 100) as u32
}

/// What a frame of the given sensor decodes to, if it is long enough
/// (and, for pressure, marked valid). Other sensor types carry no frame.
pub open spec fn frame_reading(sensor: InputType, d: Seq<u8>) -> Option<InputTypeReading> {
    match sensor {
        InputType::Pressure => if is_pressure_frame(d) {
            Some(InputTypeReading::Pressure(frame_pressure(d)))
        } else {
            None
        },
        InputType::Depth => if d.len() >= 2 {
            Some(InputTypeReading::Depth(d[1]))
        } else {
            None
        },
        InputType::Accelerometer => if d.len() >= 6 {
            Some(
                InputTypeReading::Accelerometer(
                    be_i16(d[0], d[1]) as i32,
                    be_i16(d[2], d[3]) as i32,
                    be_i16(d[4], d[5]) as i32,
                ),
            )
        } else {
            None
        },
        InputType::Button => if d.len() >= 1 {
            Some(InputTypeReading::Button(d[0]))
        } else {
            None
        },
        _ => None,
    }
}

/// Decodes a pressure frame.
pub fn decode_pressure(data: &[u8]) -> (r: Option<u32>)
    ensures
        r == (if is_pressure_frame(data@) { Some(frame_pressure(data@)) } else { None::<u32> }),
{
    if data.len() >= 8 && data[3] == 0xFF {
        let pressure = read_be_u32(data, 4);
        Some(pressure / 100)
    } else {
        None
    }
}

/// Decodes an accelerometer frame into its x, y and z axes.
pub fn decode_accelerometer(data: &[u8]) -> (r: Option<(i32, i32, i32)>)
    ensures
        r == (if data@.len() >= 6 {
            Some(
                (
                    be_i16(data@[0], data@[1]) as i32,
                    be_i16(data@[2], data@[3]) as i32,
                    be_i16(data@[4], data@[5]) as i32,
                ),
            )
        } else {
            None::<(i32, i32, i32)>
        }),
{
    if data.len() >= 6 {
        let x = read_be_i16(data, 0);
        let y = read_be_i16(data, 2);
        let z = read_be_i16(data, 4);
        Some((x, y, z))
    } else {
        None
    }
}

/// Decodes a frame of the given sensor type.
pub fn decode_frame(sensor: InputType, data: &[u8]) -> (r: Option<InputTypeReading>)
    ensures
        r == frame_reading(sensor, data@),
{
    match sensor {
        InputType::Pressure => match decode_pressure(data) {
            Some(p) => Some(InputTypeReading::Pressure(p)),
            None => None,
        },
        InputType::Depth => if data.len() >= 2 {
            Some(InputTypeReading::Depth(data[1]))
        } else {
            None
        },
        InputType::Accelerometer => match decode_accelerometer(data) {
            Some((x, y, z)) => Some(InputTypeReading::Accelerometer(x, y, z)),
            None => None,
        },
        InputType::Button => if data.len() >= 1 {
            Some(InputTypeReading::Button(data[0]))
        } else {
            None
        },
        _ => None,
    }
}


/// Bytes after the part of a frame that a sensor uses do not change what it
/// decodes to.
pub proof fn law_trailing_bytes_ignored(sensor: InputType, d: Seq<u8>, extra: Seq<u8>)
    requires
        frame_reading(sensor, d) is Some,
    ensures
        frame_reading(sensor, d + extra) == frame_reading(sensor, d),
{
    assert((d + extra).len() == d.len() + extra.len());
    assert forall|i: int| 0 <= i < d.len() implies (d + extra)[i] == d[i] by {}
    if sensor == InputType::Pressure {
        assert((d + extra)[3] == d[3]);
        assert((d + extra)[4] == d[4]);
        assert((d + extra)[5] == d[5]);
        assert((d + extra)[6] == d[6]);
        assert((d + extra)[7] == d[7]);
    } else if sensor == InputType::Accelerometer {
        assert((d + extra)[0] == d[0]);
        assert((d + extra)[1] == d[1]);
        assert((d + extra)[2] == d[2]);
        assert((d + extra)[3] == d[3]);
        assert((d + extra)[4] == d[4]);
        assert((d + extra)[5] == d[5]);
    } else if sensor == InputType::Depth {
        assert((d + extra)[1] == d[1]);
    } else if sensor == InputType::Button {
        assert((d + extra)[0] == d[0]);
    }
}

/// Each accelerometer axis is a 16-bit signed value, and a pressure is at
/// most the largest 32-bit value divided by 100.
pub proof fn law_reading_ranges(hi: u8, lo: u8, d: Seq<u8>)
    requires
        d.len() >= 8,
    ensures
        -0x8000 <= be_i16(hi, lo) <= 0x7fff,
        0 <= be_u32(d[4], d[5], d[6], d[7]) <= 0xffff_ffff,
        frame_pressure(d) as int == be_u32(d[4], d[5], d[6], d[7]) / 100,
        frame_pressure(d) <= 0xffff_ffffu32 / 100,
{
}


/// A pressure frame decodes exactly when it has at least eight bytes and
/// byte 3 is 0xFF, and then to the value of bytes 4, 5, 6, 7 (most
/// significant first) divided by 100, rounded down.
pub proof fn law_pressure_from_bytes_4_to_7(d: Seq<u8>)
    ensures
        (frame_reading(InputType::Pressure, d) is Some) == (d.len() >= 8 && d[3] == 0xFFu8),
        frame_reading(InputType::Pressure, d) matches Some(r) ==> r matches InputTypeReading::Pressure(p)
            && 100 * (p as int) <= (d[4] as int) * 16777216 + (d[5] as int) * 65536 + (d[6] as int)
            * 256 + (d[7] as int) < 100 * (p as int) + 100,
{
}

/// An accelerometer frame of six or more bytes decodes to three axes; each
/// axis is the signed 16-bit value whose two bytes, most significant first,
/// are bytes 0-1, 2-3 and 4-5 of the frame: it lies in -0x8000..=0x7fff and
/// equals those bytes' unsigned value modulo 0x10000.
pub proof fn law_accelerometer_axes_are_signed_16_bit(d: Seq<u8>)
    ensures
        (frame_reading(InputType::Accelerometer, d) is Some) == (d.len() >= 6),
        frame_reading(InputType::Accelerometer, d) matches Some(r) ==> r matches InputTypeReading::Accelerometer(
            x,
            y,
            z,
        ) && -0x8000 <= x <= 0x7fff && -0x8000 <= y <= 0x7fff && -0x8000 <= z <= 0x7fff && (x
            + 0x10000) % 0x10000 == (d[0] as int) * 256 + (d[1] as int) && (y + 0x10000) % 0x10000
            == (d[2] as int) * 256 + (d[3] as int) && (z + 0x10000) % 0x10000 == (d[4] as int) * 256
            + (d[5] as int),
{
}


/// A depth frame needs two bytes and reports byte 1; a button frame needs
/// one byte and reports byte 0; the other sensor types have no frame.
pub proof fn law_depth_and_button_bytes(sensor: InputType, d: Seq<u8>)
    ensures
        (frame_reading(InputType::Depth, d) is Some) == (d.len() >= 2),
        d.len() >= 2 ==> frame_reading(InputType::Depth, d) == Some(InputTypeReading::Depth(d[1])),
        (frame_reading(InputType::Button, d) is Some) == (d.len() >= 1),
        d.len() >= 1 ==> frame_reading(InputType::Button, d) == Some(InputTypeReading::Button(d[0])),
        sensor != InputType::Pressure && sensor != InputType::Depth && sensor
            != InputType::Accelerometer && sensor != InputType::Button ==> frame_reading(sensor, d) is None,
        frame_reading(sensor, d) matches Some(r) ==> !(r is Battery),
{
}

} // verus!
