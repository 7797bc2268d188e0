//! What each sound is played with. Speeds and gains are in millionths:
//! a speed of 1_000_000 is the sample's own rate, a gain of 1_000_000 its own
//! loudness.

use vstd::prelude::*;

verus! {

/// The millionths of a unit.
pub const UNIT: u64 = 1_000_000;

/// The lowest jittered speed; jittered speeds stay below `SPEED_LOW + SPEED_SPAN`.
pub const SPEED_LOW: u64 = 750_000;

/// The width of the range of jittered speeds.
pub const SPEED_SPAN: u64 = 500_000;

/// Speed of the toggle sound when sounds are switched off.
pub const MUTE_SPEED: u64 = 750_000;

/// Speed of the toggle sound when sounds are switched back on.
pub const UNMUTE_SPEED: u64 = 1_250_000;

/// A random draw is read as the fraction `draw / DRAW_SCALE` of one.
pub const DRAW_SCALE: u128 = 0x1_0000_0000;

/// Half of `DRAW_SCALE`: the offset that centres the gain on the base volume.
pub const DRAW_HALF: u128 = 0x8000_0000;

/// The sound to play.
#[derive(Debug, Clone, Copy, PartialEq, Eq, Structural)]
pub enum Sound {
    Press,
    Release,
    Toggle,
}

/// Playback speed and gain, in millionths.
#[derive(Debug, Clone, Copy, PartialEq, Eq, Structural)]
pub struct PlaybackParams {
    pub speed: u64,
    pub gain: u64,
}

/// One sound to play, with its parameters.
#[derive(Debug, Clone, Copy, PartialEq, Eq, Structural)]
pub struct SoundEvent {
    pub sound: Sound,
    pub params: PlaybackParams,
}

/// The speed that a draw gives: `0.75 + fraction * 0.5`.
pub open spec fn jitter_speed(draw: u32) -> int {
    SPEED_LOW as int + (SPEED_SPAN as int * draw as int) / DRAW_SCALE as int
}

/// The gain that a draw gives: `base_volume * (fraction + 0.5)`.
pub open spec fn jitter_gain(base_volume: u32, draw: u32) -> int {
    (base_volume as int * (draw as int + DRAW_HALF as int)) / DRAW_SCALE as int
}

/// Parameters within the jitter ranges: speed in `[0.75, 1.25)`, gain in
/// `[0.5, 1.5)` times the base volume (rounded down at the low end).
pub open spec fn in_jitter_range(p: PlaybackParams, base_volume: u32) -> bool {
    &&& SPEED_LOW <= p.speed < SPEED_LOW + SPEED_SPAN
    &&& base_volume / 2 <= p.gain
    &&& base_volume > 0 ==> 2 * p.gain < 3 * base_volume
}

/// The parameters of a press or release sound, from two random draws: one
/// for the speed, one for the gain.
pub fn jitter_params(base_volume: u32, speed_draw: u32, gain_draw: u32) -> (r: PlaybackParams)
    ensures
        r.speed == jitter_speed(speed_draw),
        r.gain == jitter_gain(base_volume, gain_draw),
        in_jitter_range(r, base_volume),
{
    proof {
        lemma_jitter_in_range(base_volume, speed_draw, gain_draw);
    }
    let s: u128 = (SPEED_SPAN as u128 * speed_draw as u128) / DRAW_SCALE;
    let g: u128 = (base_volume as u128 * (gain_draw as u128 + DRAW_HALF)) / DRAW_SCALE;
    PlaybackParams { speed: SPEED_LOW + s as u64, gain: g as u64 }
}

/// Any two draws give parameters within the jitter ranges.
pub proof fn lemma_jitter_in_range(base_volume: u32, speed_draw: u32, gain_draw: u32)
    ensures
        SPEED_LOW <= jitter_speed(speed_draw) < SPEED_LOW + SPEED_SPAN,
        base_volume / 2 <= jitter_gain(base_volume, gain_draw),
        base_volume > 0 ==> 2 * jitter_gain(base_volume, gain_draw) < 3 * base_volume,
        jitter_gain(base_volume, gain_draw) < 0x1_0000_0000_0000,
{
    let d = speed_draw as int;
    let b = base_volume as int;
    let g = gain_draw as int;
    let scale = DRAW_SCALE as int;
    assert(0 <= (500_000 * d) / scale < 500_000) by (nonlinear_arith)
        requires
            0 <= d < scale,
            scale == 0x1_0000_0000,
    ;
    assert(b / 2 <= (b * (g + 0x8000_0000)) / scale) by (nonlinear_arith)
        requires
            0 <= b,
            0 <= g,
            scale == 0x1_0000_0000,
    ;
    assert(b > 0 ==> 2 * ((b * (g + 0x8000_0000)) / scale) < 3 * b) by (nonlinear_arith)
        requires
            0 <= b,
            0 <= g < scale,
            scale == 0x1_0000_0000,
    ;
    assert((b * (g + 0x8000_0000)) / scale < 0x1_0000_0000_0000) by (nonlinear_arith)
        requires
            0 <= b < 0x1_0000_0000,
            0 <= g < scale,
            scale == 0x1_0000_0000,
    ;
}

/// The toggle sound's parameters: slow and soft (0.75 of unit speed and of
/// the base volume) when sounds are switched off, fast and loud (1.25 of
/// each) when they are switched back on.
pub fn toggle_params(base_volume: u32, muting: bool) -> (r: PlaybackParams)
    ensures
        r == toggle_params_spec(base_volume, muting),
{
    if muting {
        PlaybackParams { speed: MUTE_SPEED, gain: base_volume as u64 * 3 / 4 }
    } else {
        PlaybackParams { speed: UNMUTE_SPEED, gain: base_volume as u64 * 5 / 4 }
    }
}

/// The toggle sound's parameters, as `toggle_params` returns them.
pub open spec fn toggle_params_spec(base_volume: u32, muting: bool) -> PlaybackParams {
    if muting {
        PlaybackParams { speed: MUTE_SPEED, gain: (base_volume as int * 3 / 4) as u64 }
    } else {
        PlaybackParams { speed: UNMUTE_SPEED, gain: (base_volume as int * 5 / 4) as u64 }
    }
}

/// Relies on rand::random, which draws a value from the thread-local
/// generator; nothing is assumed of the value.
pub assume_specification<T>[ rand::random::<T> ]() -> (r: T)
    where
        rand::distributions::Standard: rand::distributions::Distribution<T>,
;

/// Parameters for a press or release sound, from two fresh random draws.
pub fn jittered(base_volume: u32) -> (r: PlaybackParams)
    ensures
        in_jitter_range(r, base_volume),
        exists|a: u32, b: u32| r == jitter_params_spec(base_volume, a, b),
{
    let speed_draw: u32 = rand::random::<u32>();
    let gain_draw: u32 = rand::random::<u32>();
    let r = jitter_params(base_volume, speed_draw, gain_draw);
    assert(r == jitter_params_spec(base_volume, speed_draw, gain_draw));
    r
}

/// The parameters that `jitter_params` returns for two draws.
pub open spec fn jitter_params_spec(base_volume: u32, speed_draw: u32, gain_draw: u32) -> PlaybackParams {
    PlaybackParams {
        speed: jitter_speed(speed_draw) as u64,
        gain: jitter_gain(base_volume, gain_draw) as u64,
    }
}

} // verus!
