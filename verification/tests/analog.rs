use analog_input::analog::AnalogInput;
use analog_input::analog::AnalogInputValue;
use analog_input::analog::ANALOG_MAX;
use analog_input::analog::ANALOG_MIN;

/// Converts a raw floating-point sample the way an integrator would before
/// handing it to the library: non-finite readings degrade to neutral,
/// finite ones are scaled into fixed point (the library then clamps).
fn value_from_f32(sample: f32) -> AnalogInputValue {
    if sample.is_finite() {
        AnalogInputValue::from_fixed((sample as f64 * ANALOG_MAX as f64).round() as i64)
    } else {
        AnalogInputValue::from_fixed(0)
    }
}

#[test]
fn activation_edge() {
    let mut a: AnalogInput<u64> = Default::default();
    a.set(1, value_from_f32(0.6));
    assert_eq!(a.just_activated(1), Some(600_000));
    assert_eq!(a.value(1), 600_000);
    assert_eq!(a.just_deactivated(1), false);
}

#[test]
fn deactivation_edge() {
    let mut a: AnalogInput<u64> = Default::default();
    a.set(1, value_from_f32(0.6));
    a.set(1, value_from_f32(0.05));
    assert_eq!(a.just_deactivated(1), true);
    assert_eq!(a.value(1), 0);
    assert_eq!(a.just_activated(1), None);
}

#[test]
fn deactivation_edge_across_ticks() {
    let mut a: AnalogInput<u64> = Default::default();
    a.set(1, value_from_f32(0.6));
    a.update();
    a.set(1, value_from_f32(0.05));
    assert_eq!(a.just_deactivated(1), true);
    assert_eq!(a.value(1), 0);
}

#[test]
fn sign_flip_pass_through() {
    let mut a: AnalogInput<u64> = Default::default();
    a.set(1, value_from_f32(0.8));
    // Same tick, no update in between: the sample passed straight through
    // the deadzone band, which still counts as a fresh activation.
    a.set(1, value_from_f32(-0.8));
    assert_eq!(a.just_activated(1), Some(-800_000));
    assert_eq!(a.just_deactivated(1), false);
}

#[test]
fn digital_threshold() {
    let mut a: AnalogInput<u64> = Default::default();
    a.set(1, value_from_f32(0.6));
    assert_eq!(a.value_digital(1), ANALOG_MAX);
    assert_eq!(a.just_activated_digital(1), Some(ANALOG_MAX));
    a.set(1, value_from_f32(0.4));
    assert_eq!(a.value_digital(1), 0);
    assert_eq!(a.just_deactivated_digital(1), true);
    assert_eq!(a.just_activated_digital(1), None);
    // The analog threshold is still exceeded.
    assert_eq!(a.value(1), 400_000);
    assert_eq!(a.just_deactivated(1), false);
}

#[test]
fn digital_negative_full_scale() {
    let mut a: AnalogInput<u64> = Default::default();
    a.set(1, value_from_f32(-0.75));
    assert_eq!(a.value_digital(1), ANALOG_MIN);
    assert_eq!(a.just_activated_digital(1), Some(ANALOG_MIN));
}

#[test]
fn unread_key_is_neutral() {
    let a: AnalogInput<u64> = Default::default();
    assert_eq!(a.value(42), 0);
    assert_eq!(a.value_digital(42), 0);
    assert_eq!(a.just_activated(42), None);
    assert_eq!(a.just_deactivated(42), false);
    assert_eq!(a.just_activated_digital(42), None);
    assert_eq!(a.just_deactivated_digital(42), false);
}

#[test]
fn update_clears_transitions() {
    let mut a: AnalogInput<u64> = Default::default();
    a.set(1, value_from_f32(0.9));
    a.set(2, value_from_f32(0.3));
    a.set(2, value_from_f32(0.05));
    a.update();
    for k in [1u64, 2, 3] {
        assert_eq!(a.just_activated(k), None);
        assert_eq!(a.just_deactivated(k), false);
        assert_eq!(a.just_activated_digital(k), None);
        assert_eq!(a.just_deactivated_digital(k), false);
    }
    // The recorded samples are untouched.
    assert_eq!(a.value(1), 900_000);
    assert_eq!(a.value_digital(1), ANALOG_MAX);
}

#[test]
fn update_is_idempotent() {
    let mut a: AnalogInput<u64> = Default::default();
    a.set(1, value_from_f32(0.9));
    a.set(2, value_from_f32(-0.2));
    a.update();
    let before: Vec<_> = [1u64, 2, 3]
        .iter()
        .map(|&k| {
            (
                a.value(k),
                a.value_digital(k),
                a.just_activated(k),
                a.just_deactivated(k),
                a.just_activated_digital(k),
                a.just_deactivated_digital(k),
            )
        })
        .collect();
    a.update();
    let after: Vec<_> = [1u64, 2, 3]
        .iter()
        .map(|&k| {
            (
                a.value(k),
                a.value_digital(k),
                a.just_activated(k),
                a.just_deactivated(k),
                a.just_activated_digital(k),
                a.just_deactivated_digital(k),
            )
        })
        .collect();
    assert_eq!(before, after);
}

#[test]
fn exact_threshold_activates_but_reads_zero() {
    let mut a: AnalogInput<u64> = Default::default();
    // A magnitude equal to the deadzone marks an activation edge, but the
    // value query needs a strictly greater magnitude and reports zero.
    a.set(1, AnalogInputValue::from_fixed(100_000));
    assert_eq!(a.just_activated(1), Some(0));
    assert_eq!(a.value(1), 0);
}

#[test]
fn finite_float_samples_stay_in_range() {
    let samples = [0.0f32, 0.5, -0.5, 1.0, -1.0, 7.25, -123.0, 1.0e30, -1.0e30, 1.0e-20];
    let mut a: AnalogInput<u64> = Default::default();
    for (i, &s) in samples.iter().enumerate() {
        let k = i as u64;
        a.set(k, value_from_f32(s));
        let v = a.value(k);
        assert!(ANALOG_MIN <= v && v <= ANALOG_MAX);
    }
    assert_eq!(a.value(3), ANALOG_MAX); // 1.0 reads back exactly
    assert_eq!(a.value(5), ANALOG_MAX); // 7.25 clamps to full scale
    assert_eq!(a.value(6), ANALOG_MIN); // -123.0 clamps to minus full scale
}

#[test]
fn non_finite_float_samples_are_neutral() {
    let samples = [f32::NAN, f32::INFINITY, f32::NEG_INFINITY];
    for s in samples {
        assert_eq!(value_from_f32(s).to_fixed(), 0);
    }
    let mut a: AnalogInput<u64> = Default::default();
    a.set(1, value_from_f32(0.9));
    a.set(1, value_from_f32(f32::NAN));
    assert_eq!(a.value(1), 0);
    assert_eq!(a.just_deactivated(1), true);
}

#[test]
fn integer_samples_scale_and_clamp() {
    assert_eq!(AnalogInputValue::from_i16(i16::MAX).to_fixed(), ANALOG_MAX);
    assert_eq!(AnalogInputValue::from_i16(i16::MIN).to_fixed(), ANALOG_MIN);
    assert_eq!(AnalogInputValue::from_i16(0).to_fixed(), 0);
    // 16384 * 1_000_000 / 32767, truncated.
    assert_eq!(AnalogInputValue::from_i16(16384).to_fixed(), 500_015);
    assert_eq!(AnalogInputValue::from_i16(-16384).to_fixed(), -500_015);
    assert_eq!(AnalogInputValue::from_i16(1).to_fixed(), 30);
}

#[test]
fn fixed_point_readings_clamp() {
    assert_eq!(AnalogInputValue::from_fixed(2_000_000).to_fixed(), ANALOG_MAX);
    assert_eq!(AnalogInputValue::from_fixed(-5_000_000).to_fixed(), ANALOG_MIN);
    assert_eq!(AnalogInputValue::from_fixed(123).to_fixed(), 123);
    assert_eq!(AnalogInputValue::default().to_fixed(), 0);
}

#[test]
fn first_sample_inside_deadzone_is_quiet() {
    let mut a: AnalogInput<u64> = Default::default();
    a.set(1, value_from_f32(0.05));
    assert_eq!(a.just_activated(1), None);
    assert_eq!(a.just_deactivated(1), false);
    assert_eq!(a.value(1), 0);
}

#[test]
fn sign_flip_inside_deadzone_band_is_not_an_edge() {
    let mut a: AnalogInput<u64> = Default::default();
    a.set(1, value_from_f32(0.04));
    a.set(1, value_from_f32(-0.04));
    // Both samples sit inside the deadzone: no transition in either direction.
    assert_eq!(a.just_activated(1), None);
    assert_eq!(a.just_deactivated(1), false);
}

#[test]
fn independent_keys_do_not_interfere() {
    let mut a: AnalogInput<u64> = Default::default();
    a.set(1, value_from_f32(0.6));
    a.set(2, value_from_f32(0.05));
    assert_eq!(a.just_activated(1), Some(600_000));
    assert_eq!(a.just_activated(2), None);
    a.set(2, value_from_f32(0.7));
    assert_eq!(a.just_activated(1), Some(600_000));
    assert_eq!(a.just_activated(2), Some(700_000));
}
