//! Key codes and key sets.

use vstd::prelude::*;

verus! {

/// A physical key. The keys that the default configuration names have their
/// own variants; every other key is told apart by a numeric code.
#[derive(Debug, Clone, Copy, PartialEq, Eq, Structural, Hash)]
pub enum KeyCode {
    LShift,
    LControl,
    LAlt,
    RShift,
    RControl,
    RAlt,
    Enter,
    Other(u32),
}

/// Whether `key` is among `keys`.
pub fn holds(keys: &Vec<KeyCode>, key: KeyCode) -> (r: bool)
    ensures
        r == keys@.contains(key),
{
    let mut i: usize = 0;
    while i < keys.len()
        invariant
            0 <= i <= keys@.len(),
            forall|j: int| 0 <= j < i ==> keys@[j] != key,
        decreases keys@.len() - i,
    {
        if keys[i] == key {
            assert(keys@[i as int] == key);
            return true;
        }
        i += 1;
    }
    false
}

} // verus!
