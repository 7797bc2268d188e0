use keysound::playback::{jitter_params, jittered, toggle_params, PlaybackParams};

#[test]
fn jitter_lowest_draws() {
    assert_eq!(jitter_params(25_000, 0, 0), PlaybackParams { speed: 750_000, gain: 12_500 });
}

#[test]
fn jitter_middle_draws() {
    assert_eq!(
        jitter_params(25_000, 0x8000_0000, 0x8000_0000),
        PlaybackParams { speed: 1_000_000, gain: 25_000 }
    );
}

#[test]
fn jitter_highest_draws() {
    assert_eq!(
        jitter_params(25_000, u32::MAX, u32::MAX),
        PlaybackParams { speed: 1_249_999, gain: 37_499 }
    );
}

#[test]
fn toggle_params_by_direction() {
    assert_eq!(toggle_params(25_000, true), PlaybackParams { speed: 750_000, gain: 18_750 });
    assert_eq!(toggle_params(25_000, false), PlaybackParams { speed: 1_250_000, gain: 31_250 });
    assert_eq!(toggle_params(50_000, true), PlaybackParams { speed: 750_000, gain: 37_500 });
}

#[test]
fn jittered_params_stay_in_range() {
    for base in [25_000u32, 50_000] {
        let mut min_speed = u64::MAX;
        let mut max_speed = 0u64;
        let mut min_gain = u64::MAX;
        let mut max_gain = 0u64;
        for _ in 0..10_000 {
            let p = jittered(base);
            min_speed = min_speed.min(p.speed);
            max_speed = max_speed.max(p.speed);
            min_gain = min_gain.min(p.gain);
            max_gain = max_gain.max(p.gain);
        }
        assert!(min_speed >= 750_000 && max_speed < 1_250_000);
        assert!(min_gain >= base as u64 / 2 && 2 * max_gain < 3 * base as u64);
        let speed = min_speed as f64 / 1e6;
        let gain = max_gain as f64 / 1e6;
        assert!(speed >= 0.75);
        assert!(gain < 1.5 * base as f64 / 1e6);
    }
}
