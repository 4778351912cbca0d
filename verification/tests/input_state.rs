use threedy::input_state::{axis_sign, ButtonState, Control, InputState};

const CONTROLS: [Control; 6] = [
    Control::Left,
    Control::Right,
    Control::Front,
    Control::Back,
    Control::Up,
    Control::Down,
];

#[test]
fn new_state_has_every_key_released() {
    let state = InputState::new();
    assert_eq!(state.left, ButtonState::Release);
    assert_eq!(state.right, ButtonState::Release);
    assert_eq!(state.front, ButtonState::Release);
    assert_eq!(state.back, ButtonState::Release);
    assert_eq!(state.up, ButtonState::Release);
    assert_eq!(state.down, ButtonState::Release);
}

#[test]
fn reset_releases_every_key() {
    let mut state = InputState {
        left: ButtonState::Press,
        right: ButtonState::Press,
        front: ButtonState::Press,
        back: ButtonState::Press,
        up: ButtonState::Press,
        down: ButtonState::Press,
    };
    state.reset();
    assert_eq!(state, InputState::new());
}

#[test]
fn reset_of_a_fresh_state_changes_nothing() {
    let mut state = InputState::new();
    state.reset();
    assert_eq!(state, InputState::new());
}

#[test]
fn input_state_is_a_snapshot() {
    let mut state = InputState::new();
    let snapshot = state;
    state.left = ButtonState::Press;
    assert_eq!(snapshot.left, ButtonState::Release);
    assert_eq!(state.left, ButtonState::Press);
}

#[test]
fn set_flag_touches_one_key_only() {
    for set in CONTROLS {
        let mut state = InputState::new();
        state.set_flag(set, true);
        for read in CONTROLS {
            let expected = if read == set { ButtonState::Press } else { ButtonState::Release };
            assert_eq!(state.flag(read), expected);
        }
        state.set_flag(set, false);
        assert_eq!(state, InputState::new());
    }
}

#[test]
fn flag_reads_the_named_field() {
    let state = InputState {
        left: ButtonState::Press,
        right: ButtonState::Release,
        front: ButtonState::Press,
        back: ButtonState::Release,
        up: ButtonState::Press,
        down: ButtonState::Release,
    };
    assert_eq!(state.flag(Control::Left), ButtonState::Press);
    assert_eq!(state.flag(Control::Right), ButtonState::Release);
    assert_eq!(state.flag(Control::Front), ButtonState::Press);
    assert_eq!(state.flag(Control::Back), ButtonState::Release);
    assert_eq!(state.flag(Control::Up), ButtonState::Press);
    assert_eq!(state.flag(Control::Down), ButtonState::Release);
}

#[test]
fn opposing_keys_may_be_held_together() {
    let mut state = InputState::new();
    state.set_flag(Control::Left, true);
    state.set_flag(Control::Right, true);
    assert_eq!(state.left, ButtonState::Press);
    assert_eq!(state.right, ButtonState::Press);
}

#[test]
fn axis_sign_of_each_pair() {
    assert_eq!(axis_sign(ButtonState::Release, ButtonState::Release), 0);
    assert_eq!(axis_sign(ButtonState::Press, ButtonState::Release), 1);
    assert_eq!(axis_sign(ButtonState::Release, ButtonState::Press), -1);
    assert_eq!(axis_sign(ButtonState::Press, ButtonState::Press), 0);
}

#[test]
fn direction_of_a_fresh_state_is_zero() {
    assert_eq!(InputState::new().direction(), (0, 0, 0));
}

#[test]
fn direction_of_each_single_key() {
    let expected = [
        (Control::Left, (-1, 0, 0)),
        (Control::Right, (1, 0, 0)),
        (Control::Front, (0, 0, 1)),
        (Control::Back, (0, 0, -1)),
        (Control::Up, (0, 1, 0)),
        (Control::Down, (0, -1, 0)),
    ];
    for (control, signs) in expected {
        let mut state = InputState::new();
        state.set_flag(control, true);
        assert_eq!(state.direction(), signs);
    }
}

#[test]
fn direction_cancels_on_an_axis_with_both_keys_held() {
    let mut state = InputState::new();
    state.set_flag(Control::Left, true);
    state.set_flag(Control::Right, true);
    state.set_flag(Control::Up, true);
    state.set_flag(Control::Back, true);
    assert_eq!(state.direction(), (0, 1, -1));
}

#[test]
fn direction_with_every_key_held_is_zero() {
    let mut state = InputState::new();
    for control in CONTROLS {
        state.set_flag(control, true);
    }
    assert_eq!(state.direction(), (0, 0, 0));
}
