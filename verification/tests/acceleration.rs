use focus_volume::acceleration::{
    checked_acceleration_parameters, set_acceleration_parameters, set_base_increment,
    VolumeKeyState, HISTORY, IDLE_GAP_MS, UNIT,
};
use focus_volume::error::VolumeError;

/// The decay curve as the surroundings evaluate it: millionths in, millionths out.
fn decay_micros(exponent: u64) -> u32 {
    let x: f64 = exponent as f64 / 1_000_000.0;
    ((-x).exp() * 1_000_000.0).round() as u32
}

#[test]
fn fresh_engine_has_default_tuning() {
    let engine = VolumeKeyState::new();
    assert_eq!(engine.base_increment(), 10_000);
    assert_eq!(engine.max_acceleration(), 15_000_000);
    assert_eq!(engine.min_acceleration(), 1_000_000);
    assert_eq!(engine.decay_rate(), 16_000);
    assert_eq!(engine.last_pressed(), None);
    assert_eq!(engine.history_size(), 0);
}

#[test]
fn first_press_averages_to_idle_gap() {
    let mut engine = VolumeKeyState::new();
    let avg: u64 = engine.record_press(123_456);
    assert_eq!(avg, IDLE_GAP_MS);
    assert_eq!(avg, 1000);
    assert_eq!(engine.last_pressed(), Some(123_456));
    assert_eq!(engine.history_size(), 1);
}

#[test]
fn first_press_gets_minimum_step() {
    let mut engine = VolumeKeyState::new();
    let avg: u64 = engine.record_press(7);
    let exponent: u64 = engine.decay_exponent(avg);
    assert_eq!(exponent, 16_000_000);
    let factor: u32 = decay_micros(exponent);
    assert_eq!(factor, 0);
    assert_eq!(engine.multiplier(factor), 1_000_000);
    assert_eq!(engine.adjustment_for(factor), 10_000);
}

#[test]
fn average_is_mean_of_filled_slots_rounded_down() {
    let mut engine = VolumeKeyState::new();
    assert_eq!(engine.record_press(0), 1000);
    assert_eq!(engine.record_press(20), 510);
    assert_eq!(engine.record_press(40), 346);
    assert_eq!(engine.record_press(60), 265);
    assert_eq!(engine.record_press(80), 216);
    assert_eq!(engine.record_press(100), 20);
}

#[test]
fn history_size_saturates_at_capacity() {
    let mut engine = VolumeKeyState::new();
    let mut now: u64 = 0;
    let mut presses: usize = 0;
    while presses < 12 {
        engine.record_press(now);
        now += 10;
        presses += 1;
        let expected: usize = if presses < HISTORY { presses } else { HISTORY };
        assert_eq!(engine.history_size(), expected);
    }
    assert_eq!(engine.history_size(), 5);
}

#[test]
fn ring_forgets_intervals_older_than_capacity() {
    let mut engine = VolumeKeyState::new();
    engine.record_press(0);
    engine.record_press(500);
    engine.record_press(1000);
    engine.record_press(1500);
    engine.record_press(2000);
    // slots now hold 1000, 500, 500, 500, 500
    assert_eq!(engine.record_press(2010), (10 + 500 * 4) / 5);
    assert_eq!(engine.record_press(2020), (10 * 2 + 500 * 3) / 5);
    assert_eq!(engine.record_press(2030), (10 * 3 + 500 * 2) / 5);
    assert_eq!(engine.record_press(2040), (10 * 4 + 500) / 5);
    assert_eq!(engine.record_press(2050), 10);
}

#[test]
fn steady_presses_average_to_their_spacing() {
    let mut engine = VolumeKeyState::new();
    engine.record_press(1_000);
    let mut avg: u64 = 0;
    let mut k: u64 = 1;
    while k <= 5 {
        avg = engine.record_press(1_000 + 37 * k);
        k += 1;
    }
    assert_eq!(avg, 37);
}

#[test]
fn faster_bursts_give_larger_steps() {
    let spacings: [u64; 5] = [400, 200, 100, 50, 10];
    let mut previous: u64 = 0;
    for spacing in spacings {
        let mut engine = VolumeKeyState::new();
        engine.record_press(0);
        let mut avg: u64 = 0;
        let mut k: u64 = 1;
        while k <= 5 {
            avg = engine.record_press(spacing * k);
            k += 1;
        }
        let step: u64 =
            engine.adjustment_for(decay_micros(engine.decay_exponent(avg)));
        assert!(step >= previous);
        assert!(step >= 10_000);
        assert!(step <= 150_000);
        previous = step;
    }
    assert!(previous > 100_000);
}

#[test]
fn clock_stepping_back_counts_as_no_time() {
    let mut engine = VolumeKeyState::new();
    engine.record_press(5_000);
    let avg: u64 = engine.record_press(4_000);
    assert_eq!(avg, (1000 + 0) / 2);
    assert_eq!(engine.last_pressed(), Some(4_000));
}

#[test]
fn exponent_is_rate_times_interval() {
    let engine = VolumeKeyState::new();
    assert_eq!(engine.decay_exponent(0), 0);
    assert_eq!(engine.decay_exponent(20), 320_000);
    assert_eq!(engine.decay_exponent(216), 3_456_000);
}

#[test]
fn exponent_is_held_at_largest_value() {
    let mut engine = VolumeKeyState::new();
    set_acceleration_parameters(&mut engine, 15_000_000, 1_000_000, u32::MAX);
    assert_eq!(engine.decay_exponent(u64::MAX), u64::MAX);
    assert_eq!(engine.decay_exponent(1 << 40), u64::MAX);
    assert_eq!(engine.decay_exponent(2), 2 * (u32::MAX as u64));
}

#[test]
fn multiplier_scales_and_clamps() {
    let engine = VolumeKeyState::new();
    assert_eq!(engine.multiplier(0), 1_000_000);
    assert_eq!(engine.multiplier(UNIT), 15_000_000);
    assert_eq!(engine.multiplier(500_000), 7_500_000);
    assert_eq!(engine.multiplier(726_149), 10_892_235);
    assert_eq!(engine.multiplier(66_666), 1_000_000);
    assert_eq!(engine.multiplier(66_667), 1_000_005);
    assert_eq!(engine.multiplier(u32::MAX), 15_000_000);
}

#[test]
fn multiplier_with_crossed_bounds_is_upper_bound() {
    let mut engine = VolumeKeyState::new();
    set_acceleration_parameters(&mut engine, 2_000_000, 5_000_000, 16_000);
    assert_eq!(engine.multiplier(0), 2_000_000);
    assert_eq!(engine.multiplier(UNIT), 2_000_000);
}

#[test]
fn adjustment_is_base_times_multiplier() {
    let mut engine = VolumeKeyState::new();
    assert_eq!(engine.adjustment_for(726_149), 108_922);
    assert_eq!(engine.adjustment_for(UNIT), 150_000);
    set_base_increment(&mut engine, 20_000);
    assert_eq!(engine.adjustment_for(0), 20_000);
    assert_eq!(engine.adjustment_for(UNIT), 300_000);
    set_base_increment(&mut engine, u32::MAX);
    set_acceleration_parameters(&mut engine, u32::MAX, 0, 1);
    assert_eq!(
        engine.adjustment_for(UNIT),
        (u32::MAX as u64) * (u32::MAX as u64) / 1_000_000
    );
}

#[test]
fn tuning_keeps_the_history() {
    let mut engine = VolumeKeyState::new();
    engine.record_press(0);
    engine.record_press(30);
    set_acceleration_parameters(&mut engine, 8_000_000, 2_000_000, 5_000);
    set_base_increment(&mut engine, 15_000);
    assert_eq!(engine.max_acceleration(), 8_000_000);
    assert_eq!(engine.min_acceleration(), 2_000_000);
    assert_eq!(engine.decay_rate(), 5_000);
    assert_eq!(engine.base_increment(), 15_000);
    assert_eq!(engine.last_pressed(), Some(30));
    assert_eq!(engine.history_size(), 2);
    assert_eq!(engine.record_press(60), (1000 + 30 + 30) / 3);
}

#[test]
fn checked_tuning_rejects_unusable_values() {
    let mut engine = VolumeKeyState::new();
    assert_eq!(
        checked_acceleration_parameters(&mut engine, 1_000_000, 2_000_000, 16_000),
        Err(VolumeError::InvalidParameter)
    );
    assert_eq!(
        checked_acceleration_parameters(&mut engine, 2_000_000, 1_000_000, 0),
        Err(VolumeError::InvalidParameter)
    );
    assert_eq!(engine.max_acceleration(), 15_000_000);
    assert_eq!(engine.min_acceleration(), 1_000_000);
    assert_eq!(engine.decay_rate(), 16_000);
    assert_eq!(checked_acceleration_parameters(&mut engine, 3_000_000, 3_000_000, 1), Ok(()));
    assert_eq!(engine.max_acceleration(), 3_000_000);
    assert_eq!(engine.min_acceleration(), 3_000_000);
    assert_eq!(engine.decay_rate(), 1);
}

#[test]
fn burst_after_a_press_accelerates() {
    let mut engine = VolumeKeyState::new();
    engine.record_press(0);
    let mut total: u64 = 0;
    let mut last_multiplier: u32 = 0;
    let mut k: u64 = 1;
    while k <= 5 {
        let avg: u64 = engine.record_press(20 * k);
        let factor: u32 = decay_micros(engine.decay_exponent(avg));
        last_multiplier = engine.multiplier(factor);
        total += engine.adjustment_for(factor);
        k += 1;
    }
    assert_eq!(last_multiplier, 10_892_235);
    assert!(last_multiplier > 10 * engine.min_acceleration());
    assert_eq!(total, 4 * 10_000 + 108_922);
    assert!(total > 5 * 10_000);
}

#[test]
fn adjustment_for_a_press_records_it_and_uses_the_curve() {
    let mut engine = VolumeKeyState::new();
    assert_eq!(engine.calculate_volume_adjustment(0, decay_micros), 10_000);
    assert_eq!(engine.history_size(), 1);
    assert_eq!(engine.last_pressed(), Some(0));
    let mut last: u64 = 0;
    let mut k: u64 = 1;
    while k <= 5 {
        last = engine.calculate_volume_adjustment(20 * k, decay_micros);
        k += 1;
    }
    assert_eq!(last, 108_922);
    assert_eq!(engine.history_size(), 5);
    assert_eq!(engine.calculate_volume_adjustment(120, |_| 1_000_000), 150_000);
    assert_eq!(engine.calculate_volume_adjustment(140, |exponent| (exponent / 2) as u32), 24_000);
    assert_eq!(engine.last_pressed(), Some(140));
}

#[test]
fn burst_on_a_fresh_engine_is_held_back_by_the_idle_gap() {
    let mut engine = VolumeKeyState::new();
    let mut multiplier: u32 = 0;
    let mut k: u64 = 0;
    while k < 5 {
        let avg: u64 = engine.record_press(20 * k);
        multiplier = engine.multiplier(decay_micros(engine.decay_exponent(avg)));
        k += 1;
    }
    // the idle gap of the first press still weighs on the average: 216 ms
    assert_eq!(engine.decay_exponent(216), 3_456_000);
    assert_eq!(decay_micros(3_456_000), 31_556);
    assert_eq!(multiplier, 1_000_000);
    let avg: u64 = engine.record_press(100);
    assert_eq!(avg, 20);
    assert_eq!(engine.multiplier(decay_micros(engine.decay_exponent(avg))), 10_892_235);
}
