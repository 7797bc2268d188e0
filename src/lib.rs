//! Keyboard-acoustics engine: edge detection over held-key sets, a debounced
//! mute/unmute combo, and the playback parameters of each sound.

pub mod keys;
pub mod edge;
pub mod toggle;
pub mod playback;
pub mod clicker;
