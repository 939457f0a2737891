use tinyaudio::convert::{convert_buffer, float_to_native, NATIVE_PEAK};

fn native(x: f32) -> i16 {
    float_to_native(x.to_bits())
}

#[test]
fn half_scale_rounds_up() {
    // 0.5 * 32767 = 16383.5, and a tie goes away from zero
    assert_eq!(native(0.5), 16384);
    assert_eq!(native(-0.5), -16384);
}

#[test]
fn full_scale_is_the_peak() {
    assert_eq!(native(1.0), 32767);
    assert_eq!(native(-1.0), -32767);
    assert_eq!(NATIVE_PEAK, 32767);
}

#[test]
fn zero_is_silence() {
    assert_eq!(native(0.0), 0);
    assert_eq!(native(-0.0), 0);
}

#[test]
fn quarter_scale_rounds_to_nearest() {
    // 0.25 * 32767 = 8191.75
    assert_eq!(native(0.25), 8192);
    assert_eq!(native(-0.25), -8192);
    // 0.75 * 32767 = 24575.25
    assert_eq!(native(0.75), 24575);
    // 0.125 * 32767 = 4095.875
    assert_eq!(native(0.125), 4096);
}

#[test]
fn small_samples_round_to_zero_or_one() {
    // below half a native step
    assert_eq!(native(0.00001), 0);
    assert_eq!(native(-0.00001), 0);
    // 1/32767 is one native step
    assert_eq!(native(1.0 / 32767.0), 1);
    assert_eq!(native(-1.0 / 32767.0), -1);
    // the smallest subnormal and the smallest normal number
    assert_eq!(float_to_native(0x0000_0001), 0);
    assert_eq!(float_to_native(0x0080_0000), 0);
    assert_eq!(float_to_native(0x8000_0001), 0);
}

#[test]
fn just_below_full_scale_stays_below_the_peak() {
    // the largest sample below 1.0: 32767 * (1 - 2^-24) = 32766.998..
    assert_eq!(float_to_native(0x3f7f_ffff), 32767);
    // 0.9999 * 32767 = 32763.72
    assert_eq!(native(0.9999), 32764);
}

#[test]
fn out_of_range_samples_stop_at_the_ends_of_the_native_type() {
    assert_eq!(native(2.0), i16::MAX);
    assert_eq!(native(-2.0), i16::MIN);
    assert_eq!(native(1.0e30), i16::MAX);
    assert_eq!(native(-1.0e30), i16::MIN);
    assert_eq!(native(f32::INFINITY), i16::MAX);
    assert_eq!(native(f32::NEG_INFINITY), i16::MIN);
    assert_eq!(native(f32::MAX), i16::MAX);
    // 1.00002 * 32767 = 32767.66 rounds to 32768, which the type cannot hold
    assert_eq!(native(1.00002), i16::MAX);
    assert_eq!(native(-1.00002), i16::MIN);
}

#[test]
fn what_is_no_number_gives_zero() {
    assert_eq!(native(f32::NAN), 0);
    assert_eq!(float_to_native(0x7fc0_0001), 0);
    assert_eq!(float_to_native(0xffc0_0000), 0);
    assert_eq!(float_to_native(0x7f80_0001), 0);
}

#[test]
fn conversion_agrees_with_rounding_in_double_precision() {
    // the product of a 24-bit significand and 32767 is exact in double precision
    let mut x: f32 = -1.0;
    while x <= 1.0 {
        let expected = (x as f64 * 32767.0).round() as i16;
        assert_eq!(native(x), expected, "sample {}", x);
        x += 0.000_37;
    }
}

#[test]
fn conversion_is_monotonic_over_the_unit_range() {
    let mut previous = native(-1.0);
    let mut x: f32 = -1.0;
    while x <= 1.0 {
        let current = native(x);
        assert!(previous <= current, "sample {}", x);
        assert!((-32767..=32767).contains(&current));
        previous = current;
        x += 0.000_11;
    }
}

#[test]
fn conversion_is_monotonic_over_neighbouring_bit_patterns() {
    // positive samples grow with their bit patterns
    let mut bits: u32 = 0x3f00_0000;
    let mut previous = float_to_native(bits);
    while bits < 0x3f00_4000 {
        bits += 1;
        let current = float_to_native(bits);
        assert!(previous <= current);
        previous = current;
    }
}

#[test]
fn buffer_keeps_length_and_order() {
    let input: Vec<u32> = [0.0f32, 0.5, -0.5, 1.0, -1.0, 0.25]
        .iter()
        .map(|x| x.to_bits())
        .collect();
    let mut output = vec![7i16; 2];
    convert_buffer(&input, &mut output);
    assert_eq!(output, vec![0, 16384, -16384, 32767, -32767, 8192]);
}

#[test]
fn empty_buffer_converts_to_empty_buffer() {
    let mut output = vec![1i16, 2, 3];
    convert_buffer(&[], &mut output);
    assert!(output.is_empty());
}
