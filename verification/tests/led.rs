use ra4m1_core::led::LONG_HIGH_NOPS;
use ra4m1_core::led::LOW_NOPS;
use ra4m1_core::led::Rgb;
use ra4m1_core::led::SHORT_HIGH_NOPS;
use ra4m1_core::led::encode_frame;
use ra4m1_core::led::encode_frame_bits;
use ra4m1_core::led::rainbow_palette;

#[test]
fn red_frame_is_green_byte_zero_then_red_byte_ff_then_blue_byte_zero() {
    let bits = encode_frame_bits(Rgb { r: 255, g: 0, b: 0 });
    assert_eq!(bits.len(), 24);
    // green byte 0x00 first, red byte 0xFF second, blue byte 0x00 third,
    // most-significant bit first
    let expected: Vec<bool> = (0..24).map(|i| (8..16).contains(&i)).collect();
    assert_eq!(bits, expected);
}

#[test]
fn frame_bits_follow_the_grb_value_msb_first() {
    let c = Rgb { r: 0x01, g: 0x02, b: 0x03 };
    let grb: u32 = 0x020103;
    let bits = encode_frame_bits(c);
    for i in 0..24 {
        assert_eq!(bits[i], (grb >> (23 - i)) & 1 == 1);
    }
}

#[test]
fn pulses_use_the_named_timing_constants() {
    let pulses = encode_frame(Rgb { r: 255, g: 0, b: 0 });
    assert_eq!(pulses.len(), 24);
    for (i, p) in pulses.iter().enumerate() {
        if (8..16).contains(&i) {
            assert_eq!(p.high_nops, LONG_HIGH_NOPS);
        } else {
            assert_eq!(p.high_nops, SHORT_HIGH_NOPS);
        }
        assert_eq!(p.low_nops, LOW_NOPS);
    }
}

#[test]
fn one_symbol_is_longer_high_than_zero_symbol() {
    assert!(LONG_HIGH_NOPS > SHORT_HIGH_NOPS);
}

#[test]
fn rainbow_has_seven_colors_starting_red() {
    let p = rainbow_palette();
    assert_eq!(p.len(), 7);
    assert_eq!((p[0].r, p[0].g, p[0].b), (128, 0, 0));
    assert_eq!((p[1].r, p[1].g, p[1].b), (128, 82, 0));
    assert_eq!((p[2].r, p[2].g, p[2].b), (128, 128, 0));
    assert_eq!((p[3].r, p[3].g, p[3].b), (0, 128, 0));
    assert_eq!((p[4].r, p[4].g, p[4].b), (0, 128, 128));
    assert_eq!((p[5].r, p[5].g, p[5].b), (0, 0, 128));
    assert_eq!((p[6].r, p[6].g, p[6].b), (128, 0, 128));
}
