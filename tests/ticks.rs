use keysound::clicker::{tick_period_nanos, Clicker, Config, BASE_VOLUME, TICK_RATE};
use keysound::keys::KeyCode;
use keysound::playback::{PlaybackParams, Sound};

fn combo_keys() -> Vec<KeyCode> {
    vec![KeyCode::LControl, KeyCode::LAlt, KeyCode::Enter]
}

#[test]
fn standard_config() {
    let c = Config::standard();
    assert_eq!(c.combo, combo_keys());
    assert_eq!(c.excluded.len(), 6);
    assert!(c.excluded.contains(&KeyCode::LShift));
    assert_eq!(c.base_volume, 25_000);
}

#[test]
fn tick_period_at_standard_rate() {
    assert_eq!(tick_period_nanos(TICK_RATE), 100_000);
}

#[test]
fn press_then_release_sounds() {
    let mut c = Clicker::new(Config::standard(), Vec::new());
    let sounds = c.tick(vec![KeyCode::Other(10)]);
    assert_eq!(sounds.len(), 1);
    assert_eq!(sounds[0].sound, Sound::Press);
    let sounds = c.tick(vec![KeyCode::Other(10)]);
    assert!(sounds.is_empty());
    let sounds = c.tick(Vec::new());
    assert_eq!(sounds.len(), 1);
    assert_eq!(sounds[0].sound, Sound::Release);
}

#[test]
fn combo_scenario_through_ticks() {
    let mut c = Clicker::new(Config::standard(), Vec::new());
    let o = c.step(vec![KeyCode::LControl]);
    assert!(!o.toggled);
    assert!(c.is_active());
    let o = c.step(combo_keys());
    assert!(o.toggled);
    assert!(!c.is_active());
    let o = c.step(combo_keys());
    assert!(!o.toggled);
    assert!(!c.is_active());
}

#[test]
fn toggle_sound_comes_first() {
    let mut c = Clicker::new(Config::standard(), Vec::new());
    let sounds = c.tick(combo_keys());
    assert_eq!(sounds.len(), 1);
    assert_eq!(sounds[0].sound, Sound::Toggle);
    assert_eq!(sounds[0].params, PlaybackParams { speed: 750_000, gain: 18_750 });
    c.tick(Vec::new());
    let sounds = c.tick(combo_keys());
    assert_eq!(sounds.len(), 2);
    assert_eq!(sounds[0].sound, Sound::Toggle);
    assert_eq!(sounds[0].params, PlaybackParams { speed: 1_250_000, gain: 31_250 });
    assert_eq!(sounds[1].sound, Sound::Press);
}

#[test]
fn silent_window_keeps_history() {
    let mut c = Clicker::new(Config::standard(), Vec::new());
    let o = c.step(combo_keys());
    assert!(o.toggled && !c.is_active());
    assert!(o.pressed.is_empty() && o.released.is_empty());
    let mut held = combo_keys();
    held.push(KeyCode::Other(7));
    let o = c.step(held);
    assert!(!o.toggled);
    assert!(o.pressed.is_empty() && o.released.is_empty());
    let o = c.step(vec![KeyCode::Other(7)]);
    assert!(!o.toggled && !c.is_active());
    assert!(o.pressed.is_empty() && o.released.is_empty());
    let o = c.step(combo_keys());
    assert!(o.toggled && c.is_active());
    assert_eq!(o.pressed, vec![KeyCode::Enter]);
    assert_eq!(o.released, vec![KeyCode::Other(7)]);
}

#[test]
fn excluded_keys_make_no_sound() {
    let mut c = Clicker::new(Config::standard(), Vec::new());
    assert!(c.tick(vec![KeyCode::LShift]).is_empty());
    assert!(c.tick(vec![KeyCode::LShift, KeyCode::RControl]).is_empty());
    assert!(c.tick(vec![KeyCode::RControl]).is_empty());
    assert!(c.tick(Vec::new()).is_empty());
    let sounds = c.tick(vec![KeyCode::LShift, KeyCode::Other(3)]);
    assert_eq!(sounds.len(), 1);
    assert_eq!(sounds[0].sound, Sound::Press);
}

#[test]
fn config_is_kept() {
    let c = Clicker::new(Config::standard(), vec![KeyCode::Other(1)]);
    assert_eq!(c.config().base_volume, BASE_VOLUME);
    assert_eq!(c.config().combo, combo_keys());
}
