use remix_mcp::osc::float::{float_bits_to_int, int_to_float_bits};

fn truncated(v: f32) -> i32 {
    float_bits_to_int(v.to_bits())
}

#[test]
fn truncation_exact_values() {
    assert_eq!(truncated(0.0), 0);
    assert_eq!(truncated(-0.0), 0);
    assert_eq!(truncated(1.0), 1);
    assert_eq!(truncated(-1.0), -1);
    assert_eq!(truncated(5.0), 5);
    assert_eq!(truncated(120.5), 120);
    assert_eq!(truncated(-120.5), -120);
    assert_eq!(truncated(0.999_999_9), 0);
    assert_eq!(truncated(-0.999_999_9), 0);
    assert_eq!(truncated(16_777_216.0), 16_777_216);
    assert_eq!(truncated(16_777_218.0), 16_777_218);
    assert_eq!(truncated(2_147_483_520.0), 2_147_483_520);
    assert_eq!(truncated(-2_147_483_648.0), i32::MIN);
}

#[test]
fn truncation_saturates() {
    assert_eq!(truncated(2_147_483_648.0), i32::MAX);
    assert_eq!(truncated(1.0e20), i32::MAX);
    assert_eq!(truncated(-1.0e20), i32::MIN);
    assert_eq!(truncated(f32::MAX), i32::MAX);
    assert_eq!(truncated(f32::MIN), i32::MIN);
    assert_eq!(truncated(f32::INFINITY), i32::MAX);
    assert_eq!(truncated(f32::NEG_INFINITY), i32::MIN);
}

#[test]
fn truncation_of_nan_is_zero() {
    assert_eq!(truncated(f32::NAN), 0);
    assert_eq!(float_bits_to_int(0x7f80_0001), 0);
    assert_eq!(float_bits_to_int(0xffc0_0000), 0);
    assert_eq!(float_bits_to_int(0xffff_ffff), 0);
}

#[test]
fn truncation_of_tiny_numbers_is_zero() {
    assert_eq!(truncated(f32::MIN_POSITIVE), 0);
    assert_eq!(float_bits_to_int(0x0000_0001), 0);
    assert_eq!(float_bits_to_int(0x8000_0001), 0);
    assert_eq!(truncated(f32::EPSILON), 0);
}

#[test]
fn truncation_agrees_with_the_cast_across_bit_patterns() {
    let mut bits: u32 = 0;
    loop {
        let expected = f32::from_bits(bits) as i32;
        assert_eq!(float_bits_to_int(bits), expected, "bits {:#010x}", bits);
        match bits.checked_add(65_521) {
            Some(next) => bits = next,
            None => break,
        }
    }
}

#[test]
fn truncation_agrees_with_the_cast_around_every_exponent() {
    for e in 0u32..=255 {
        for sign in [0u32, 0x8000_0000] {
            for fraction in [0u32, 1, 2, 0x3f_ffff, 0x40_0000, 0x40_0001, 0x7f_fffe, 0x7f_ffff] {
                let bits = sign | (e << 23) | fraction;
                assert_eq!(float_bits_to_int(bits), f32::from_bits(bits) as i32, "bits {:#010x}", bits);
            }
        }
    }
}

#[test]
fn conversion_exact_values() {
    assert_eq!(int_to_float_bits(0), 0.0f32.to_bits());
    assert_eq!(int_to_float_bits(1), 1.0f32.to_bits());
    assert_eq!(int_to_float_bits(-1), (-1.0f32).to_bits());
    assert_eq!(int_to_float_bits(5), 0x40a0_0000);
    assert_eq!(int_to_float_bits(16_777_216), 16_777_216.0f32.to_bits());
    assert_eq!(int_to_float_bits(i32::MAX), 2_147_483_648.0f32.to_bits());
    assert_eq!(int_to_float_bits(i32::MIN), (-2_147_483_648.0f32).to_bits());
}

#[test]
fn conversion_rounds_ties_to_even() {
    assert_eq!(int_to_float_bits(16_777_217), 16_777_216.0f32.to_bits());
    assert_eq!(int_to_float_bits(16_777_219), 16_777_220.0f32.to_bits());
    assert_eq!(int_to_float_bits(16_777_218), 16_777_218.0f32.to_bits());
    assert_eq!(int_to_float_bits(33_554_434), 33_554_432.0f32.to_bits());
    assert_eq!(int_to_float_bits(33_554_435), 33_554_436.0f32.to_bits());
    assert_eq!(int_to_float_bits(33_554_438), 33_554_440.0f32.to_bits());
    assert_eq!(int_to_float_bits(-16_777_217), (-16_777_216.0f32).to_bits());
}

#[test]
fn conversion_agrees_with_the_cast_across_integers() {
    let mut v: i32 = i32::MIN;
    loop {
        assert_eq!(int_to_float_bits(v), (v as f32).to_bits(), "value {}", v);
        match v.checked_add(32_749) {
            Some(next) => v = next,
            None => break,
        }
    }
}

#[test]
fn conversion_agrees_with_the_cast_around_powers_of_two() {
    for p in 0u32..31 {
        let base: i64 = 1 << p;
        for delta in -70i64..=70 {
            let v = base + delta;
            if v >= i32::MIN as i64 && v <= i32::MAX as i64 {
                let v = v as i32;
                assert_eq!(int_to_float_bits(v), (v as f32).to_bits(), "value {}", v);
                let n = v.wrapping_neg();
                assert_eq!(int_to_float_bits(n), (n as f32).to_bits(), "value {}", n);
            }
        }
    }
}

#[test]
fn small_integers_survive_the_round_trip() {
    for v in [-16_777_216, -16_777_215, -1_000_000, -3, -1, 0, 1, 2, 3, 255, 65_536, 16_777_215, 16_777_216] {
        assert_eq!(float_bits_to_int(int_to_float_bits(v)), v);
    }
}
