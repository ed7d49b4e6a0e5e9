use tts_pipeline::global;
use tts_pipeline::volume::{VolumeState, VOLUME_MAX};

#[test]
fn default_level_is_one() {
    let v = global::init();
    assert_eq!(v.get(), 1);
}

#[test]
fn five_increments_from_one_reach_six() {
    let mut v = VolumeState::new();
    for _ in 0..5 {
        v.increment();
    }
    assert_eq!(v.get(), 6);
    v.decrement();
    assert_eq!(v.get(), 5);
}

#[test]
fn decrement_at_floor_is_noop() {
    let mut v = VolumeState::new();
    v.decrement();
    assert_eq!(v.get(), 1);
    v.decrement();
    assert_eq!(v.get(), 1);
}

#[test]
fn increment_at_ceiling_is_noop() {
    let mut v = VolumeState::new();
    v.set(255);
    assert_eq!(v.get(), VOLUME_MAX);
    v.increment();
    assert_eq!(v.get(), VOLUME_MAX);
}

#[test]
fn set_clamps_into_bounds() {
    let mut v = VolumeState::new();
    v.set(0);
    assert_eq!(v.get(), 1);
    v.set(7);
    assert_eq!(v.get(), 7);
    v.set(200);
    assert_eq!(v.get(), VOLUME_MAX);
}

#[test]
fn long_mixed_sequence_stays_in_bounds() {
    let mut v = VolumeState::new();
    for i in 0..100 {
        if i % 3 == 0 {
            v.decrement();
        } else {
            v.increment();
        }
        let level = v.get();
        assert!(1 <= level && level <= VOLUME_MAX);
    }
}
