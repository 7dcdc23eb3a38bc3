use glowmarkt_logger::numeric::{Double, Single};

fn narrow(value: f64) -> u32 {
    Double::from_bits(value.to_bits()).narrow().to_bits()
}

fn hardware(value: f64) -> u32 {
    (value as f32).to_bits()
}

#[test]
fn narrowing_matches_the_literal_values_of_a_reading() {
    assert_eq!(narrow(12.5), 0x4148_0000);
    assert_eq!(narrow(340.25), 0x43aa_2000);
    assert_eq!(narrow(450.0), 0x43e1_0000);
    assert_eq!(narrow(1.2), 1.2f32.to_bits());
    assert_eq!(narrow(8.4), 8.4f32.to_bits());
    assert_eq!(narrow(30.1), 30.1f32.to_bits());
}

#[test]
fn narrowing_is_lossy_but_nearest() {
    // 1.2 has no exact binary form: the single nearest to the double is 0x3f99999a.
    assert_eq!(narrow(1.2), 0x3f99_999a);
    assert_ne!(f32::from_bits(narrow(1.2)) as f64, 1.2f64);
    // 0.1 rounds up in the last place.
    assert_eq!(narrow(0.1), 0x3dcc_cccd);
}

#[test]
fn narrowing_keeps_zero_and_sign() {
    assert_eq!(narrow(0.0), 0);
    assert_eq!(narrow(-0.0), 0x8000_0000);
    assert_eq!(narrow(-12.5), 0xc148_0000);
    assert_eq!(narrow(1.0), 0x3f80_0000);
    assert_eq!(narrow(-1.0), 0xbf80_0000);
}

#[test]
fn narrowing_rounds_halves_to_even() {
    // 1 + 2^-24 lies halfway between 1 and the next single: the even one is 1.
    let halfway_down = f64::from_bits(0x3ff0_0000_1000_0000);
    assert_eq!(narrow(halfway_down), 0x3f80_0000);
    // 1 + 3 * 2^-24 lies halfway between two singles: the even one is above.
    let halfway_up = f64::from_bits(0x3ff0_0000_3000_0000);
    assert_eq!(narrow(halfway_up), 0x3f80_0002);
    // Just above and just below the first halfway point.
    assert_eq!(narrow(f64::from_bits(0x3ff0_0000_1000_0001)), 0x3f80_0001);
    assert_eq!(narrow(f64::from_bits(0x3ff0_0000_0fff_ffff)), 0x3f80_0000);
    assert_eq!(narrow(halfway_down), hardware(halfway_down));
    assert_eq!(narrow(halfway_up), hardware(halfway_up));
}

#[test]
fn narrowing_carries_into_the_exponent() {
    // The largest double below 2 rounds up to 2.
    let below_two = f64::from_bits(0x3fff_ffff_ffff_ffff);
    assert_eq!(narrow(below_two), 0x4000_0000);
    assert_eq!(narrow(below_two), hardware(below_two));
}

#[test]
fn narrowing_overflows_to_infinity() {
    assert_eq!(narrow(f64::MAX), 0x7f80_0000);
    assert_eq!(narrow(-f64::MAX), 0xff80_0000);
    assert_eq!(narrow(1e39), 0x7f80_0000);
    assert_eq!(narrow(f32::MAX as f64), 0x7f7f_ffff);
    // Halfway between the largest single and 2^128 goes to the even side, infinity.
    let halfway = f64::from_bits(0x47ef_ffff_f000_0000);
    assert_eq!(narrow(halfway), 0x7f80_0000);
    assert_eq!(narrow(halfway), hardware(halfway));
    let below_halfway = f64::from_bits(0x47ef_ffff_efff_ffff);
    assert_eq!(narrow(below_halfway), 0x7f7f_ffff);
}

#[test]
fn narrowing_reaches_the_subnormal_singles() {
    let smallest_normal = f32::MIN_POSITIVE as f64;
    assert_eq!(narrow(smallest_normal), 0x0080_0000);
    let smallest = f32::from_bits(1) as f64;
    assert_eq!(narrow(smallest), 1);
    assert_eq!(narrow(smallest / 2.0), 0);
    assert_eq!(narrow(smallest * 0.75), 1);
    assert_eq!(narrow(smallest * 1.5), 2);
    assert_eq!(narrow(smallest * 2.5), 2);
    assert_eq!(narrow(smallest / 4.0), 0);
    assert_eq!(narrow(f64::MIN_POSITIVE), 0);
    assert_eq!(narrow(f64::from_bits(1)), 0);
    assert_eq!(narrow(-smallest), 0x8000_0001);
    let largest_subnormal = f32::from_bits(0x007f_ffff) as f64;
    assert_eq!(narrow(largest_subnormal), 0x007f_ffff);
}

#[test]
fn narrowing_keeps_infinities_and_quiets_nans() {
    assert_eq!(narrow(f64::INFINITY), 0x7f80_0000);
    assert_eq!(narrow(f64::NEG_INFINITY), 0xff80_0000);
    assert_eq!(narrow(f64::NAN), 0x7fc0_0000);
    assert!(f32::from_bits(narrow(f64::from_bits(0x7ff0_0000_0000_0001))).is_nan());
    assert_eq!(narrow(f64::from_bits(0xfff8_0000_0000_0000)), 0xffc0_0000);
}

#[test]
fn narrowing_agrees_with_the_hardware_on_finite_values() {
    let mut state: u64 = 0x9e37_79b9_7f4a_7c15;
    let mut checked = 0;
    while checked < 200_000 {
        state = state.wrapping_mul(6364136223846793005).wrapping_add(1442695040888963407);
        let mut bits = state ^ (state >> 29);
        // Steer half of the samples into the exponent range of the singles.
        if checked % 2 == 0 {
            let exponent = 870 + (bits >> 52) % 290;
            bits = (bits & 0x800f_ffff_ffff_ffff) | (exponent << 52);
        }
        let value = f64::from_bits(bits);
        if value.is_finite() {
            assert_eq!(narrow(value), hardware(value), "bits {:#018x}", bits);
        }
        checked += 1;
    }
}

#[test]
fn narrowing_agrees_with_the_hardware_around_every_binade() {
    let mut exponent: u64 = 0;
    while exponent < 2047 {
        for fraction in [
            0u64,
            1,
            0x0000_0000_0fff_ffff,
            0x0000_0000_1000_0000,
            0x0000_0000_1000_0001,
            0x0000_0000_2fff_ffff,
            0x0000_0000_3000_0000,
            0x0008_0000_0000_0000,
            0x000f_ffff_efff_ffff,
            0x000f_ffff_f000_0000,
            0x000f_ffff_ffff_ffff,
        ] {
            let bits = (exponent << 52) | fraction;
            let value = f64::from_bits(bits);
            assert_eq!(narrow(value), hardware(value), "bits {:#018x}", bits);
            assert_eq!(narrow(-value), hardware(-value), "bits {:#018x}", bits);
        }
        exponent += 1;
    }
}

#[test]
fn bit_patterns_round_trip() {
    assert_eq!(Double::from_bits(0x4029_0000_0000_0000).to_bits(), 0x4029_0000_0000_0000);
    assert_eq!(Single::from_bits(0x4148_0000).to_bits(), 0x4148_0000);
    assert_eq!(Double::from_bits(7), Double { bits: 7 });
    assert_eq!(Single::from_bits(7), Single { bits: 7 });
}
