//! The status LED: a hue wheel and the WS2812 bit encoding sent to it over
//! a transmit-only serial line, one byte of line signal per colour bit.
use vstd::prelude::*;

verus! {

/// Line byte that encodes a 0 bit (short high pulse).
pub const PULSE_0: u8 = 0b1110_0000;
/// Line byte that encodes a 1 bit (long high pulse).
pub const PULSE_1: u8 = 0b1111_1000;
/// Bytes of one LED frame: 24 colour bits and a trailing low byte.
pub const FRAME_LEN: usize = 25;

/// The colour of `hue` on a wheel of six 256-step segments: red, yellow,
/// green, cyan, blue, magenta, and back towards red. Hues from 1536 up stay
/// on the last segment.
pub open spec fn wheel(hue: u16) -> (u8, u8, u8) {
    let x = (hue % 256) as u8;
    let seg = hue / 256;
    if seg == 0 {
        (255, x, 0)
    } else if seg == 1 {
        ((255 - x) as u8, 255, 0)
    } else if seg == 2 {
        (0, 255, x)
    } else if seg == 3 {
        (0, (255 - x) as u8, 255)
    } else if seg == 4 {
        (x, 0, 255)
    } else {
        (255, 0, (255 - x) as u8)
    }
}

/// Bit `i` of `x`, counting from the most significant.
pub open spec fn msb_bit(x: u8, i: int) -> bool {
    (x >> ((7 - i) as u8)) & 1 == 1
}

pub open spec fn pulse(bit: bool) -> u8 {
    if bit { PULSE_1 } else { PULSE_0 }
}

/// The eight line bytes of one colour channel, most significant bit first.
pub open spec fn channel_bytes(x: u8) -> Seq<u8> {
    Seq::new(8, |i: int| pulse(msb_bit(x, i)))
}

/// The frame of one LED: green, red, blue, then a low byte.
pub open spec fn ws2812_frame(r: u8, g: u8, b: u8) -> Seq<u8> {
    channel_bytes(g) + channel_bytes(r) + channel_bytes(b) + seq![0u8]
}

/// The RGB colour of `hue`.
pub fn color_wheel(hue: u16) -> (r: (u8, u8, u8))
    ensures
        r == wheel(hue),
{
    let x = (hue & 0xFF) as u8;
    assert(hue & 0xFF == hue % 256) by (bit_vector);
    assert(hue >> 8 == hue / 256) by (bit_vector);
    match hue >> 8 {
        0 => (255, x, 0),
        1 => (255 - x, 255, 0),
        2 => (0, 255, x),
        3 => (0, 255 - x, 255),
        4 => (x, 0, 255),
        _ => (255, 0, 255 - x),
    }
}

fn push_channel(v: &mut Vec<u8>, x: u8)
    ensures
        final(v)@ == old(v)@ + channel_bytes(x),
{
    let ghost start = v@;
    let mut i: u8 = 0;
    while i < 8
        invariant
            0 <= i <= 8,
            v@ == start + channel_bytes(x).take(i as int),
        decreases 8 - i,
    {
        let set = (x << i) & 0x80 != 0;
        assert(((x << i) & 0x80 != 0) == ((x >> (7 - i) as u8) & 1 == 1)) by (bit_vector)
            requires
                i < 8,
        ;
        v.push(if set { PULSE_1 } else { PULSE_0 });
        i = i + 1;
        assert(v@ =~= start + channel_bytes(x).take(i as int));
    }
    assert(channel_bytes(x).take(8) =~= channel_bytes(x));
}

/// The line bytes that show the colour (r, g, b) on the LED.
pub fn ws2812_calc(r: u8, g: u8, b: u8) -> (out: Vec<u8>)
    ensures
        out@ == ws2812_frame(r, g, b),
        out@.len() == FRAME_LEN,
{
    let mut v: Vec<u8> = Vec::new();
    push_channel(&mut v, g);
    push_channel(&mut v, r);
    push_channel(&mut v, b);
    v.push(0);
    assert(v@ =~= ws2812_frame(r, g, b));
    v
}

} // verus!
