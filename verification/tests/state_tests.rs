use korean::state::{InputMode, ModeState};

#[test]
fn caps_tap_transitions() {
    let mut state = ModeState::new();
    assert_eq!(state.caps_tap(), InputMode::En);
    assert_eq!(state.caps_tap(), InputMode::Ko);
    state.set_mode(InputMode::EnCaps);
    assert_eq!(state.caps_tap(), InputMode::Ko);
}

#[test]
fn caps_hold_transitions() {
    let mut state = ModeState::new();
    assert_eq!(state.caps_hold(), InputMode::EnCaps);
    state.set_mode(InputMode::En);
    assert_eq!(state.caps_hold(), InputMode::EnCaps);
    assert_eq!(state.caps_hold(), InputMode::En);
    state.set_mode(InputMode::Ko);
    assert_eq!(state.shift_caps(), InputMode::EnCaps);
}

#[test]
fn new_state_starts_in_korean() {
    assert_eq!(ModeState::new().mode(), InputMode::Ko);
    assert_eq!(ModeState::default().mode(), InputMode::Ko);
}

#[test]
fn two_taps_return_to_the_starting_mode() {
    for mode in [InputMode::En, InputMode::Ko] {
        let mut state = ModeState::new();
        state.set_mode(mode);
        state.caps_tap();
        state.caps_tap();
        assert_eq!(state.mode(), mode);
    }
    let mut state = ModeState::new();
    state.set_mode(InputMode::EnCaps);
    state.caps_tap();
    assert_eq!(state.caps_tap(), InputMode::En);
}

#[test]
fn two_holds_return_to_the_starting_english_mode() {
    for mode in [InputMode::En, InputMode::EnCaps] {
        let mut state = ModeState::new();
        state.set_mode(mode);
        state.caps_hold();
        state.caps_hold();
        assert_eq!(state.mode(), mode);
    }
}
