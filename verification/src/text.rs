//! Decimal formatting of temperature readings for the serial link.
//!
//! Outgoing application messages are ASCII text terminated with CRLF. A
//! temperature is carried as a signed count of ten-thousandths of a degree
//! Celsius — a fixed-point value, so the on-wire text is exact — and is
//! rendered with four fractional digits, right-aligned in a field of eight
//! characters, followed by `" C"` and the terminator.

use vstd::prelude::*;
use vstd::math::abs;

verus! {

/// ASCII decimal digits of a number, most significant first, with no
/// leading zeros (a single `0` for zero).
pub open spec fn spec_dec_digits(n: nat) -> Seq<u8>
    decreases n,
{
    if n < 10 {
        seq![(48 + n) as u8]
    } else {
        spec_dec_digits(n / 10).push((48 + n % 10) as u8)
    }
}

/// The four ASCII digits of the fractional part, zero-padded.
pub open spec fn spec_frac4_digits(n: nat) -> Seq<u8> {
    seq![
        (48 + n / 1000 % 10) as u8,
        (48 + n / 100 % 10) as u8,
        (48 + n / 10 % 10) as u8,
        (48 + n % 10) as u8,
    ]
}

/// `n` ASCII spaces.
pub open spec fn spec_spaces(n: nat) -> Seq<u8> {
    Seq::new(n, |i: int| 32u8)
}

/// Left-pads with spaces to the given width; text already that wide is
/// returned unchanged.
pub open spec fn spec_pad_left(s: Seq<u8>, w: nat) -> Seq<u8> {
    if s.len() >= w {
        s
    } else {
        spec_spaces((w - s.len()) as nat) + s
    }
}

/// The unpadded text of a temperature in ten-thousandths of a degree: an
/// optional minus sign, the whole degrees, a point, four fractional
/// digits.
pub open spec fn spec_temp_body(t: int) -> Seq<u8> {
    let sign: Seq<u8> = if t < 0 {
        seq![45u8]
    } else {
        Seq::empty()
    };
    sign + spec_dec_digits((abs(t) / 10000) as nat) + seq![46u8] + spec_frac4_digits(
        (abs(t) % 10000) as nat,
    )
}

/// The full serial message for a temperature reading: the value
/// right-aligned in eight characters, then `" C"` and the CRLF
/// terminator.
pub open spec fn spec_temp_message(t: int) -> Seq<u8> {
    spec_pad_left(spec_temp_body(t), 8) + seq![32u8, 67u8, 13u8, 10u8]
}

/// ASCII decimal digits of a number, most significant first.
pub fn dec_digits(n: u32) -> (v: Vec<u8>)
    ensures
        v@ == spec_dec_digits(n as nat),
    decreases n,
{
    if n < 10 {
        let mut v: Vec<u8> = Vec::new();
        v.push(48 + n as u8);
        proof {
            assert(v@ =~= spec_dec_digits(n as nat));
        }
        v
    } else {
        let mut v = dec_digits(n / 10);
        v.push(48 + (n % 10) as u8);
        proof {
            assert(v@ =~= spec_dec_digits(n as nat));
        }
        v
    }
}

/// The four zero-padded ASCII digits of a fractional part.
pub fn frac4_digits(n: u32) -> (v: Vec<u8>)
    requires
        n < 10000,
    ensures
        v@ == spec_frac4_digits(n as nat),
{
    let mut v: Vec<u8> = Vec::new();
    v.push(48 + (n / 1000 % 10) as u8);
    v.push(48 + (n / 100 % 10) as u8);
    v.push(48 + (n / 10 % 10) as u8);
    v.push(48 + (n % 10) as u8);
    proof {
        assert(v@ =~= spec_frac4_digits(n as nat));
    }
    v
}

/// Renders a temperature in ten-thousandths of a degree Celsius as the
/// serial message: four fractional digits, right-aligned in eight
/// characters, then `" C"` and CRLF.
pub fn format_temperature(t: i32) -> (v: Vec<u8>)
    ensures
        v@ == spec_temp_message(t as int),
{
    let a: u32 = if t < 0 {
        (-(t as i64)) as u32
    } else {
        t as u32
    };
    let mut body: Vec<u8> = Vec::new();
    if t < 0 {
        body.push(45);
    }
    let ip = dec_digits(a / 10000);
    body.extend_from_slice(ip.as_slice());
    body.push(46);
    let fr = frac4_digits(a % 10000);
    body.extend_from_slice(fr.as_slice());
    proof {
        assert(body@ =~= spec_temp_body(t as int));
    }
    let mut v: Vec<u8> = Vec::new();
    let pad: usize = if body.len() >= 8 {
        0
    } else {
        8 - body.len()
    };
    let mut j: usize = 0;
    while j < pad
        invariant
            j <= pad,
            v@ == spec_spaces(j as nat),
        decreases pad - j,
    {
        v.push(32);
        j = j + 1;
        proof {
            assert(v@ =~= spec_spaces(j as nat));
        }
    }
    v.extend_from_slice(body.as_slice());
    v.push(32);
    v.push(67);
    v.push(13);
    v.push(10);
    proof {
        assert(v@ =~= spec_temp_message(t as int));
    }
    v
}

} // verus!
