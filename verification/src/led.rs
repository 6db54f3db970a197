//! One-wire RGB LED protocol encoder.
//!
//! Each frame addresses one LED with 24 bits — the green, red and blue
//! channel bytes in that order, most-significant bit first. Every bit is
//! one GPIO pulse: the line is driven high for a short duration (a `0`
//! symbol) or a longer one (a `1` symbol), then low for a fixed duration.
//! The durations are counted in no-op cycles and are calibrated against a
//! 48 MHz core clock; they must be recalculated for any other clock. A
//! reset/latch condition — the line held low for a minimum settling
//! duration — precedes the first frame. The encoder is synchronous and
//! blocking by design: the caller must keep interrupts disabled while it
//! replays the returned pulses, or the bit timing corrupts.

use vstd::prelude::*;
use vstd::arithmetic::power2::pow2;
use vstd::arithmetic::power2::lemma_pow2_pos;
use vstd::arithmetic::power2::lemma_pow2_strictly_increases;
use vstd::arithmetic::power2::lemma2_to64;

verus! {

/// An RGB triple; a pure value type, one value per channel.
#[derive(Clone, Copy, Debug)]
pub struct Rgb<T> {
    pub r: T,
    pub g: T,
    pub b: T,
}

/// Bits per LED frame: three channels of eight bits.
pub const FRAME_BITS: usize = 24;

/// No-op cycles the line stays high for a `0` symbol, at a 48 MHz core
/// clock.
pub const SHORT_HIGH_NOPS: u32 = 1;

/// No-op cycles the line stays high for a `1` symbol, at a 48 MHz core
/// clock.
pub const LONG_HIGH_NOPS: u32 = 3;

/// No-op cycles the line stays low after every symbol, at a 48 MHz core
/// clock.
pub const LOW_NOPS: u32 = 3;

/// Minimum time in microseconds the line is held low to latch a frame
/// (the reset condition before the first frame).
pub const RESET_LOW_MICROS: u32 = 280;

/// The 24-bit value a frame transmits: the green byte first, then red,
/// then blue.
pub open spec fn grb_value(c: Rgb<u8>) -> nat {
    (c.g as nat) * 0x10000 + (c.r as nat) * 0x100 + (c.b as nat)
}

/// Bit `i` of the frame, counted from the first transmitted: the frame is
/// sent most-significant bit first.
pub open spec fn frame_bit(c: Rgb<u8>, i: int) -> bool {
    grb_value(c) / pow2((FRAME_BITS - 1 - i) as nat) % 2 == 1
}

/// The 24 bits of a frame in transmission order.
pub open spec fn frame_bits(c: Rgb<u8>) -> Seq<bool> {
    Seq::new(FRAME_BITS as nat, |i: int| frame_bit(c, i))
}

/// One GPIO pulse: how many no-op cycles the line is held high, then low.
#[derive(Clone, Copy, Debug, PartialEq, Eq, Structural)]
pub struct Pulse {
    pub high_nops: u32,
    pub low_nops: u32,
}

/// The pulse that transmits one bit.
pub open spec fn pulse_for(bit: bool) -> Pulse {
    Pulse {
        high_nops: if bit {
            LONG_HIGH_NOPS
        } else {
            SHORT_HIGH_NOPS
        },
        low_nops: LOW_NOPS,
    }
}

/// The pulse train of a whole frame.
pub open spec fn frame_pulses(c: Rgb<u8>) -> Seq<Pulse> {
    frame_bits(c).map_values(|bit| pulse_for(bit))
}

/// Two raised to the given power, as a machine word.
fn pow2_u32(e: u32) -> (r: u32)
    requires
        e <= 31,
    ensures
        r as nat == pow2(e as nat),
{
    proof {
        lemma2_to64();
    }
    let mut r: u32 = 1;
    let mut j: u32 = 0;
    while j < e
        invariant
            j <= e <= 31,
            r as nat == pow2(j as nat),
        decreases e - j,
    {
        proof {
            lemma_pow2_strictly_increases(j as nat, 31);
            lemma2_to64();
        }
        r = r * 2;
        j = j + 1;
        proof {
            vstd::arithmetic::power2::lemma_pow2_unfold(j as nat);
        }
    }
    r
}

/// The 24 bits of the frame for a color, in transmission order:
/// green, red, blue, each most-significant bit first.
pub fn encode_frame_bits(c: Rgb<u8>) -> (bits: Vec<bool>)
    ensures
        bits@ == frame_bits(c),
{
    let grb: u32 = (c.g as u32) * 0x10000 + (c.r as u32) * 0x100 + (c.b as u32);
    let mut bits: Vec<bool> = Vec::new();
    let mut i: usize = 0;
    while i < FRAME_BITS
        invariant
            i <= FRAME_BITS,
            grb as nat == grb_value(c),
            bits@ =~= frame_bits(c).take(i as int),
        decreases FRAME_BITS - i,
    {
        let e = (FRAME_BITS - 1 - i) as u32;
        let d = pow2_u32(e);
        proof {
            lemma_pow2_pos(e as nat);
        }
        bits.push((grb / d) % 2 == 1);
        i = i + 1;
        proof {
            assert(bits@ =~= frame_bits(c).take(i as int));
        }
    }
    proof {
        assert(frame_bits(c).take(FRAME_BITS as int) =~= frame_bits(c));
    }
    bits
}

/// The pulse train that transmits a color: one pulse per frame bit, a
/// longer high time for a `1` symbol than for a `0`, the same low time
/// after each.
pub fn encode_frame(c: Rgb<u8>) -> (pulses: Vec<Pulse>)
    ensures
        pulses@ == frame_pulses(c),
{
    let bits = encode_frame_bits(c);
    let mut pulses: Vec<Pulse> = Vec::new();
    let mut i: usize = 0;
    while i < bits.len()
        invariant
            i <= bits@.len(),
            bits@ == frame_bits(c),
            pulses@ =~= frame_pulses(c).take(i as int),
        decreases bits@.len() - i,
    {
        if bits[i] {
            pulses.push(Pulse { high_nops: LONG_HIGH_NOPS, low_nops: LOW_NOPS });
        } else {
            pulses.push(Pulse { high_nops: SHORT_HIGH_NOPS, low_nops: LOW_NOPS });
        }
        i = i + 1;
        proof {
            assert(pulses@ =~= frame_pulses(c).take(i as int));
        }
    }
    proof {
        assert(frame_pulses(c).take(frame_pulses(c).len() as int) =~= frame_pulses(c));
    }
    pulses
}

/// The rainbow cycle the main loop steps through, one color per tick.
pub open spec fn spec_rainbow() -> Seq<Rgb<u8>> {
    seq![
        (Rgb { r: 128, g: 0, b: 0 }),
        (Rgb { r: 128, g: 82, b: 0 }),
        (Rgb { r: 128, g: 128, b: 0 }),
        (Rgb { r: 0, g: 128, b: 0 }),
        (Rgb { r: 0, g: 128, b: 128 }),
        (Rgb { r: 0, g: 0, b: 128 }),
        (Rgb { r: 128, g: 0, b: 128 }),
    ]
}

/// The rainbow palette: red, orange, yellow, green, cyan, blue, purple.
pub fn rainbow_palette() -> (p: Vec<Rgb<u8>>)
    ensures
        p@ == spec_rainbow(),
        p@.len() == 7,
{
    let mut p: Vec<Rgb<u8>> = Vec::new();
    p.push(Rgb { r: 128, g: 0, b: 0 });
    p.push(Rgb { r: 128, g: 82, b: 0 });
    p.push(Rgb { r: 128, g: 128, b: 0 });
    p.push(Rgb { r: 0, g: 128, b: 0 });
    p.push(Rgb { r: 0, g: 128, b: 128 });
    p.push(Rgb { r: 0, g: 0, b: 128 });
    p.push(Rgb { r: 128, g: 0, b: 128 });
    proof {
        assert(p@ =~= spec_rainbow());
    }
    p
}

} // verus!
