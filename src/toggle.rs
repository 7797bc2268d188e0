//! The mute/unmute gesture: a combo of keys that flips the active flag on the
//! tick where all of its keys become held, and not again while they stay held.

use vstd::prelude::*;
use crate::keys::{KeyCode, holds};

verus! {

broadcast use vstd::seq_lib::group_seq_properties;

/// State carried by the toggle from one tick to the next.
#[derive(Debug, Clone, Copy, PartialEq, Eq, Structural)]
pub struct ToggleState {
    /// How many combo keys were held at the previous tick.
    pub previous_match_count: usize,
    /// Whether key sounds are played.
    pub active: bool,
}

/// How many entries of `combo` are held in `current`.
pub open spec fn combo_match_count(current: Seq<KeyCode>, combo: Seq<KeyCode>) -> nat {
    combo.filter(|k: KeyCode| current.contains(k)).len()
}

/// Whether a tick with `count` combo keys held fires the toggle: the whole
/// combo is held and the count differs from the previous tick's.
pub open spec fn toggle_fires(s: ToggleState, count: usize, combo_len: usize) -> bool {
    count >= combo_len && count != s.previous_match_count
}

/// The toggle's state after a tick with `count` combo keys held.
pub open spec fn toggle_next(s: ToggleState, count: usize, combo_len: usize) -> ToggleState {
    ToggleState {
        previous_match_count: count,
        active: if toggle_fires(s, count, combo_len) {
            !s.active
        } else {
            s.active
        },
    }
}

/// Counts the entries of `combo` that are held in `current`.
pub fn match_count(current: &Vec<KeyCode>, combo: &Vec<KeyCode>) -> (r: usize)
    ensures
        r == combo_match_count(current@, combo@),
        r <= combo@.len(),
{
    let ghost pred = |k: KeyCode| current@.contains(k);
    let mut count: usize = 0;
    let mut i: usize = 0;
    while i < combo.len()
        invariant
            0 <= i <= combo@.len(),
            pred == (|k: KeyCode| current@.contains(k)),
            count == combo@.subrange(0, i as int).filter(pred).len(),
            count <= i,
        decreases combo@.len() - i,
    {
        let key = combo[i];
        proof {
            assert(combo@.subrange(0, i + 1) =~= combo@.subrange(0, i as int).push(key));
            combo@.subrange(0, i as int).lemma_filter_push(key, pred);
        }
        if holds(current, key) {
            count += 1;
        }
        i += 1;
    }
    assert(combo@.subrange(0, combo@.len() as int) =~= combo@);
    count
}

impl ToggleState {
    /// The state at start-up: active, with no combo key seen.
    pub fn new() -> (r: ToggleState)
        ensures
            r.active,
            r.previous_match_count == 0,
    {
        ToggleState { previous_match_count: 0, active: true }
    }

    /// Runs one tick of the toggle given how many combo keys are held; returns
    /// whether the active flag was flipped.
    pub fn advance(&mut self, count: usize, combo_len: usize) -> (r: bool)
        ensures
            r == toggle_fires(*old(self), count, combo_len),
            *final(self) == toggle_next(*old(self), count, combo_len),
    {
        let fires = count >= combo_len && count != self.previous_match_count;
        if fires {
            self.active = !self.active;
        }
        self.previous_match_count = count;
        fires
    }

    /// Runs one tick of the toggle on the keys held now; returns whether the
    /// active flag was flipped.
    pub fn update(&mut self, current: &Vec<KeyCode>, combo: &Vec<KeyCode>) -> (r: bool)
        ensures
            r == toggle_fires(*old(self), combo_match_count(current@, combo@) as usize, combo@.len() as usize),
            *final(self) == toggle_next(
                *old(self),
                combo_match_count(current@, combo@) as usize,
                combo@.len() as usize,
            ),
    {
        let count = match_count(current, combo);
        self.advance(count, combo.len())
    }
}

/// Holding the combo fires once: on a non-empty combo of `len` keys, ticks
/// with 0, `len`, `len` and `len` keys held fire on the second tick only, and
/// the active flag ends flipped once. More generally, a tick that repeats the
/// previous tick's count never fires.
pub proof fn lemma_toggle_debounce(s: ToggleState, len: usize, count: usize)
    requires
        len > 0,
    ensures
        !toggle_fires(toggle_next(s, count, len), count, len),
        ({
            let s1 = toggle_next(s, 0, len);
            let s2 = toggle_next(s1, len, len);
            let s3 = toggle_next(s2, len, len);
            let s4 = toggle_next(s3, len, len);
            &&& !toggle_fires(s, 0, len)
            &&& toggle_fires(s1, len, len)
            &&& !toggle_fires(s2, len, len)
            &&& !toggle_fires(s3, len, len)
            &&& s4.active == !s.active
        }),
{
}

/// Letting go of one combo key re-arms the toggle: on a non-empty combo of
/// `len` keys, ticks with 0, `len`, `len - 1` and `len` keys held fire on the
/// second and the fourth tick, and the active flag ends where it started.
pub proof fn lemma_toggle_rearm(s: ToggleState, len: usize)
    requires
        len > 0,
    ensures
        ({
            let s1 = toggle_next(s, 0, len);
            let s2 = toggle_next(s1, len, len);
            let s3 = toggle_next(s2, (len - 1) as usize, len);
            let s4 = toggle_next(s3, len, len);
            &&& !toggle_fires(s, 0, len)
            &&& toggle_fires(s1, len, len)
            &&& !toggle_fires(s2, (len - 1) as usize, len)
            &&& toggle_fires(s3, len, len)
            &&& s4.active == s.active
        }),
{
}

} // verus!
