use focus_volume::acceleration::UNIT;
use focus_volume::level::{toggle_mute, VolumeLevel};

#[test]
fn new_accepts_levels_up_to_full_volume() {
    assert_eq!(VolumeLevel::new(0).map(|l| l.micros()), Some(0));
    assert_eq!(VolumeLevel::new(400_000).map(|l| l.micros()), Some(400_000));
    assert_eq!(VolumeLevel::new(UNIT).map(|l| l.micros()), Some(1_000_000));
    assert!(VolumeLevel::new(UNIT + 1).is_none());
    assert!(VolumeLevel::new(u32::MAX).is_none());
}

#[test]
fn clamped_holds_levels_at_full_volume() {
    assert_eq!(VolumeLevel::clamped(0).micros(), 0);
    assert_eq!(VolumeLevel::clamped(999_999).micros(), 999_999);
    assert_eq!(VolumeLevel::clamped(1_000_000).micros(), 1_000_000);
    assert_eq!(VolumeLevel::clamped(1_000_001).micros(), 1_000_000);
    assert_eq!(VolumeLevel::clamped(u64::MAX).micros(), 1_000_000);
}

#[test]
fn increment_adds_and_stops_at_full_volume() {
    let level = VolumeLevel::clamped(400_000);
    assert_eq!(level.increment(20_000).micros(), 420_000);
    assert_eq!(level.increment(0).micros(), 400_000);
    assert_eq!(level.increment(600_000).micros(), 1_000_000);
    assert_eq!(level.increment(600_001).micros(), 1_000_000);
    assert_eq!(level.increment(u64::MAX).micros(), 1_000_000);
    assert_eq!(VolumeLevel::clamped(1_000_000).increment(1).micros(), 1_000_000);
}

#[test]
fn decrement_subtracts_and_stops_at_silence() {
    let level = VolumeLevel::clamped(400_000);
    assert_eq!(level.decrement(20_000).micros(), 380_000);
    assert_eq!(level.decrement(0).micros(), 400_000);
    assert_eq!(level.decrement(400_000).micros(), 0);
    assert_eq!(level.decrement(400_001).micros(), 0);
    assert_eq!(level.decrement(u64::MAX).micros(), 0);
    assert_eq!(VolumeLevel::clamped(0).decrement(1).micros(), 0);
}

#[test]
fn increment_and_decrement_match_min_and_max() {
    let levels: [u64; 5] = [0, 1, 499_999, 999_999, 1_000_000];
    let deltas: [u64; 6] = [0, 1, 10_000, 500_001, 1_000_000, 3_000_000];
    for v in levels {
        for d in deltas {
            let level = VolumeLevel::clamped(v);
            assert_eq!(level.increment(d).micros() as u64, (v + d).min(1_000_000));
            assert_eq!(level.decrement(d).micros() as u64, v.saturating_sub(d));
        }
    }
}

#[test]
fn toggle_mute_negates() {
    assert!(toggle_mute(false));
    assert!(!toggle_mute(true));
}

#[test]
fn toggle_mute_twice_restores() {
    assert!(toggle_mute(toggle_mute(true)));
    assert!(!toggle_mute(toggle_mute(false)));
}
