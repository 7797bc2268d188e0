//! One tick of the loop: the toggle toggle runs on every tick, edge detection
//! only while active, and the previous sample is replaced on every tick.

use vstd::prelude::*;
use crate::keys::KeyCode;
use crate::edge::{detect, lemma_fresh_keys_contains, pressed_keys, released_keys};
use crate::toggle::{ToggleState, combo_match_count, toggle_fires, toggle_next};
use crate::playback::{
    PlaybackParams,
    Sound,
    SoundEvent,
    in_jitter_range,
    jittered,
    toggle_params,
    toggle_params_spec,
};

verus! {

/// Samples taken per second.
pub const TICK_RATE: u64 = 10_000;

/// The base volume of press and release sounds, in millionths.
pub const BASE_VOLUME: u32 = 25_000;

/// Nanoseconds between two samples at `rate` samples per second.
pub fn tick_period_nanos(rate: u64) -> (r: u64)
    requires
        rate > 0,
    ensures
        r == 1_000_000_000u64 / rate,
{
    1_000_000_000 / rate
}

/// What stays fixed while the loop runs.
pub struct Config {
    /// The keys that, all held at once, mute or unmute.
    pub combo: Vec<KeyCode>,
    /// Keys whose presses and releases make no sound.
    pub excluded: Vec<KeyCode>,
    /// Base volume of press and release sounds, in millionths.
    pub base_volume: u32,
}

impl Config {
    /// Control, Alt and Enter toggle; the six modifier keys are silent.
    pub fn standard() -> (r: Config)
        ensures
            r.combo@ == seq![KeyCode::LControl, KeyCode::LAlt, KeyCode::Enter],
            r.excluded@ == seq![
                KeyCode::LShift,
                KeyCode::LControl,
                KeyCode::LAlt,
                KeyCode::RShift,
                KeyCode::RControl,
                KeyCode::RAlt,
            ],
            r.base_volume == BASE_VOLUME,
    {
        Config {
            combo: vec![KeyCode::LControl, KeyCode::LAlt, KeyCode::Enter],
            excluded: vec![
                KeyCode::LShift,
                KeyCode::LControl,
                KeyCode::LAlt,
                KeyCode::RShift,
                KeyCode::RControl,
                KeyCode::RAlt,
            ],
            base_volume: BASE_VOLUME,
        }
    }
}

/// The loop's state: its configuration, the previous sample and the toggle.
pub struct Clicker {
    config: Config,
    previous: Vec<KeyCode>,
    toggle: ToggleState,
}

/// The mathematical view of a `Clicker`.
pub struct ClickerView {
    pub combo: Seq<KeyCode>,
    pub excluded: Seq<KeyCode>,
    pub base_volume: u32,
    pub previous: Seq<KeyCode>,
    pub toggle: ToggleState,
}

impl View for Clicker {
    type V = ClickerView;

    closed spec fn view(&self) -> ClickerView {
        ClickerView {
            combo: self.config.combo@,
            excluded: self.config.excluded@,
            base_volume: self.config.base_volume,
            previous: self.previous@,
            toggle: self.toggle,
        }
    }
}

/// The decisions of one tick.
pub struct TickOutcome {
    /// Whether the toggle flipped the active flag.
    pub toggled: bool,
    /// Keys that went down, if active after the toggle ran.
    pub pressed: Vec<KeyCode>,
    /// Keys that came up, if active after the toggle ran.
    pub released: Vec<KeyCode>,
}

/// The mathematical view of a `TickOutcome`.
pub struct TickView {
    pub toggled: bool,
    pub pressed: Seq<KeyCode>,
    pub released: Seq<KeyCode>,
}

impl View for TickOutcome {
    type V = TickView;

    open spec fn view(&self) -> TickView {
        TickView { toggled: self.toggled, pressed: self.pressed@, released: self.released@ }
    }
}

/// The toggle's state after a tick on `current`.
pub open spec fn toggle_after(v: ClickerView, current: Seq<KeyCode>) -> ToggleState {
    toggle_next(v.toggle, combo_match_count(current, v.combo) as usize, v.combo.len() as usize)
}

/// The loop's state after a tick on `current`: the toggle has run and the
/// previous sample is `current`, whether active or not.
pub open spec fn after_tick(v: ClickerView, current: Seq<KeyCode>) -> ClickerView {
    ClickerView { previous: current, toggle: toggle_after(v, current), ..v }
}

/// The decisions of a tick on `current`: whether the toggle fired, and the
/// edges against the previous sample when active after the toggle ran, none
/// otherwise.
pub open spec fn tick_outcome(v: ClickerView, current: Seq<KeyCode>) -> TickView {
    let active = toggle_after(v, current).active;
    TickView {
        toggled: toggle_fires(
            v.toggle,
            combo_match_count(current, v.combo) as usize,
            v.combo.len() as usize,
        ),
        pressed: if active {
            pressed_keys(current, v.previous, v.excluded)
        } else {
            Seq::empty()
        },
        released: if active {
            released_keys(current, v.previous, v.excluded)
        } else {
            Seq::empty()
        },
    }
}

/// The toggle sound, muting or unmuting.
pub open spec fn toggle_sound(base_volume: u32, muting: bool) -> SoundEvent {
    SoundEvent { sound: Sound::Toggle, params: toggle_params_spec(base_volume, muting) }
}

/// The sounds `r` of a tick with outcome `o`: the toggle sound first if the
/// toggle fired (muting when `active` is now false), then a press sound per
/// pressed key and a release sound per released key, each with parameters
/// within the jitter ranges.
pub open spec fn sounds_of(r: Seq<SoundEvent>, o: TickView, active: bool, base_volume: u32) -> bool {
    let t: int = if o.toggled {
        1
    } else {
        0
    };
    &&& r.len() == t + o.pressed.len() + o.released.len()
    &&& o.toggled ==> r[0] == toggle_sound(base_volume, !active)
    &&& forall|i: int|
        0 <= i < o.pressed.len() ==> (#[trigger] r[t + i]).sound == Sound::Press && in_jitter_range(
            r[t + i].params,
            base_volume,
        )
    &&& forall|i: int|
        0 <= i < o.released.len() ==> (#[trigger] r[t + o.pressed.len() + i]).sound
            == Sound::Release && in_jitter_range(r[t + o.pressed.len() + i].params, base_volume)
}

/// The sounds of a tick with outcome `o`, given whether sounds are active
/// after the toggle ran.
pub fn sounds_for(o: &TickOutcome, active: bool, base_volume: u32) -> (r: Vec<SoundEvent>)
    requires
        o.pressed@.len() + o.released@.len() + 1 <= usize::MAX,
    ensures
        sounds_of(r@, o@, active, base_volume),
{
    let mut r: Vec<SoundEvent> = Vec::new();
    if o.toggled {
        let params: PlaybackParams = toggle_params(base_volume, !active);
        r.push(SoundEvent { sound: Sound::Toggle, params });
    }
    let ghost t: int = r@.len() as int;
    let mut i: usize = 0;
    while i < o.pressed.len()
        invariant
            0 <= i <= o.pressed@.len(),
            t == (if o.toggled { 1int } else { 0int }),
            r@.len() == t + i,
            o.toggled ==> r@[0] == toggle_sound(base_volume, !active),
            forall|j: int|
                0 <= j < i ==> (#[trigger] r@[t + j]).sound == Sound::Press && in_jitter_range(
                    r@[t + j].params,
                    base_volume,
                ),
        decreases o.pressed@.len() - i,
    {
        let params = jittered(base_volume);
        r.push(SoundEvent { sound: Sound::Press, params });
        i += 1;
    }
    let ghost p: int = o.pressed@.len() as int;
    let mut i: usize = 0;
    while i < o.released.len()
        invariant
            0 <= i <= o.released@.len(),
            t == (if o.toggled { 1int } else { 0int }),
            p == o.pressed@.len(),
            r@.len() == t + p + i,
            o.toggled ==> r@[0] == toggle_sound(base_volume, !active),
            forall|j: int|
                0 <= j < p ==> (#[trigger] r@[t + j]).sound == Sound::Press && in_jitter_range(
                    r@[t + j].params,
                    base_volume,
                ),
            forall|j: int|
                0 <= j < i ==> (#[trigger] r@[t + p + j]).sound == Sound::Release
                    && in_jitter_range(r@[t + p + j].params, base_volume),
        decreases o.released@.len() - i,
    {
        let params = jittered(base_volume);
        r.push(SoundEvent { sound: Sound::Release, params });
        i += 1;
    }
    r
}

impl Clicker {
    /// A loop that starts active, with `initial` as the previous sample.
    pub fn new(config: Config, initial: Vec<KeyCode>) -> (r: Clicker)
        ensures
            r@.combo == config.combo@,
            r@.excluded == config.excluded@,
            r@.base_volume == config.base_volume,
            r@.previous == initial@,
            r@.toggle == (ToggleState { previous_match_count: 0, active: true }),
    {
        Clicker { config, previous: initial, toggle: ToggleState::new() }
    }

    /// Whether key sounds are played.
    pub fn is_active(&self) -> (r: bool)
        ensures
            r == self@.toggle.active,
    {
        self.toggle.active
    }

    /// The previous sample.
    pub fn previous(&self) -> (r: &Vec<KeyCode>)
        ensures
            r@ == self@.previous,
    {
        &self.previous
    }

    /// The loop's configuration.
    pub fn config(&self) -> (r: &Config)
        ensures
            r.combo@ == self@.combo,
            r.excluded@ == self@.excluded,
            r.base_volume == self@.base_volume,
    {
        &self.config
    }

    /// Decides one tick on the keys held now: runs the toggle, detects edges
    /// against the previous sample if active, and keeps `current` as the
    /// previous sample.
    pub fn step(&mut self, current: Vec<KeyCode>) -> (r: TickOutcome)
        ensures
            final(self)@ == after_tick(old(self)@, current@),
            r@ == tick_outcome(old(self)@, current@),
    {
        let toggled = self.toggle.update(&current, &self.config.combo);
        let (pressed, released) = if self.toggle.active {
            detect(&current, &self.previous, &self.config.excluded)
        } else {
            (Vec::new(), Vec::new())
        };
        self.previous = current;
        let r = TickOutcome { toggled, pressed, released };
        assert(r@.pressed =~= tick_outcome(old(self)@, current@).pressed);
        assert(r@.released =~= tick_outcome(old(self)@, current@).released);
        r
    }

    /// Runs one tick on the keys held now and returns the sounds to play.
    pub fn tick(&mut self, current: Vec<KeyCode>) -> (r: Vec<SoundEvent>)
        requires
            current@.len() + old(self)@.previous.len() + 1 <= usize::MAX,
        ensures
            final(self)@ == after_tick(old(self)@, current@),
            sounds_of(
                r@,
                tick_outcome(old(self)@, current@),
                final(self)@.toggle.active,
                old(self)@.base_volume,
            ),
    {
        let ghost v = self@;
        let o = self.step(current);
        proof {
            let cur = self@.previous;
            if self@.toggle.active {
                v.previous.lemma_filter_len(|k: KeyCode| !cur.contains(k) && !v.excluded.contains(k));
                cur.lemma_filter_len(|k: KeyCode| !v.previous.contains(k) && !v.excluded.contains(k));
            }
        }
        sounds_for(&o, self.toggle.active, self.config.base_volume)
    }
}

/// While sounds are off no edges are reported, even for keys that went
/// down; yet every tick still becomes the previous sample, so once the toggle
/// has turned sounds back on, a key held during the silent tick and let go
/// since is reported released (unless it is excluded).
pub proof fn lemma_silent_ticks_keep_history(
    v: ClickerView,
    silent: Seq<KeyCode>,
    next: Seq<KeyCode>,
    k: KeyCode,
)
    ensures
        !after_tick(v, silent).toggle.active ==> tick_outcome(v, silent).pressed.len() == 0
            && tick_outcome(v, silent).released.len() == 0,
        after_tick(v, silent).previous == silent,
        after_tick(v, silent).excluded == v.excluded,
        after_tick(after_tick(v, silent), next).toggle.active && silent.contains(k)
            && !next.contains(k) && !v.excluded.contains(k) ==> tick_outcome(
            after_tick(v, silent),
            next,
        ).released.contains(k),
{
    lemma_fresh_keys_contains(silent, next, v.excluded, k);
}

/// Excluded keys never make a sound: whatever the state and the keys held,
/// a tick reports an excluded key neither pressed nor released.
pub proof fn lemma_excluded_keys_silent(v: ClickerView, current: Seq<KeyCode>, k: KeyCode)
    requires
        v.excluded.contains(k),
    ensures
        !tick_outcome(v, current).pressed.contains(k),
        !tick_outcome(v, current).released.contains(k),
{
    lemma_fresh_keys_contains(current, v.previous, v.excluded, k);
    lemma_fresh_keys_contains(v.previous, current, v.excluded, k);
}

} // verus!
