use keysound::keys::KeyCode;
use keysound::toggle::{match_count, ToggleState};

fn combo() -> Vec<KeyCode> {
    vec![KeyCode::LControl, KeyCode::LAlt, KeyCode::Enter]
}

#[test]
fn match_count_counts_held_combo_keys() {
    assert_eq!(match_count(&vec![KeyCode::LControl, KeyCode::Other(1)], &combo()), 1);
    assert_eq!(match_count(&vec![KeyCode::Enter, KeyCode::LAlt, KeyCode::LControl], &combo()), 3);
    assert_eq!(match_count(&Vec::new(), &combo()), 0);
}

#[test]
fn new_state_is_active() {
    let s = ToggleState::new();
    assert!(s.active);
    assert_eq!(s.previous_match_count, 0);
}

#[test]
fn toggle_fires_once_while_held() {
    let mut s = ToggleState::new();
    let fired: Vec<bool> = [0usize, 3, 3, 3].iter().map(|&c| s.advance(c, 3)).collect();
    assert_eq!(fired, vec![false, true, false, false]);
    assert!(!s.active);
    assert_eq!(s.previous_match_count, 3);
}

#[test]
fn toggle_rearms_after_release() {
    let mut s = ToggleState::new();
    let fired: Vec<bool> = [0usize, 3, 2, 3].iter().map(|&c| s.advance(c, 3)).collect();
    assert_eq!(fired, vec![false, true, false, true]);
    assert!(s.active);
}

#[test]
fn combo_scenario() {
    let mut s = ToggleState::new();
    let tick1 = vec![KeyCode::LControl];
    assert_eq!(match_count(&tick1, &combo()), 1);
    assert!(!s.update(&tick1, &combo()));
    assert!(s.active);
    let tick2 = vec![KeyCode::LControl, KeyCode::LAlt, KeyCode::Enter];
    assert_eq!(match_count(&tick2, &combo()), 3);
    assert!(s.update(&tick2, &combo()));
    assert!(!s.active);
    assert!(!s.update(&tick2, &combo()));
    assert!(!s.active);
}
