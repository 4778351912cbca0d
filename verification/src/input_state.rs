//! The steering keys: six independent flags, each pressed or released.

use vstd::prelude::*;

verus! {

/// Whether a key is held down.
#[derive(Copy, Clone, Debug, PartialEq, Eq, Structural)]
pub enum ButtonState {
    Press,
    Release,
}

impl ButtonState {
    /// 1 while the key is held, 0 otherwise.
    pub open spec fn weight(self) -> int {
        match self {
            ButtonState::Press => 1,
            ButtonState::Release => 0,
        }
    }

    /// The state of a key that is held (`true`) or not (`false`).
    pub open spec fn of(pressed: bool) -> ButtonState {
        if pressed {
            ButtonState::Press
        } else {
            ButtonState::Release
        }
    }
}

/// One of the six steering keys.
#[derive(Copy, Clone, Debug, PartialEq, Eq, Structural)]
pub enum Control {
    Left,
    Right,
    Front,
    Back,
    Up,
    Down,
}

/// The way to go along one axis: 1 towards its positive end, -1 towards its
/// negative end, 0 to stay. Each held key pulls its own way, so two opposing
/// keys held together cancel.
pub open spec fn axis_pull(positive: ButtonState, negative: ButtonState) -> int {
    positive.weight() - negative.weight()
}

/// Computes [`axis_pull`] for one pair of opposing keys.
pub fn axis_sign(positive: ButtonState, negative: ButtonState) -> (sign: i8)
    ensures
        sign == axis_pull(positive, negative),
        -1 <= sign <= 1,
        positive == negative ==> sign == 0,
{
    match (positive, negative) {
        (ButtonState::Press, ButtonState::Release) => 1,
        (ButtonState::Release, ButtonState::Press) => -1,
        _ => 0,
    }
}

/// A snapshot of the six steering keys.
#[derive(Copy, Clone, Debug, PartialEq, Eq, Structural)]
pub struct InputState {
    pub left: ButtonState,
    pub right: ButtonState,
    pub front: ButtonState,
    pub back: ButtonState,
    pub up: ButtonState,
    pub down: ButtonState,
}

impl InputState {
    /// The snapshot in which no key is held.
    pub open spec fn released() -> InputState {
        InputState {
            left: ButtonState::Release,
            right: ButtonState::Release,
            front: ButtonState::Release,
            back: ButtonState::Release,
            up: ButtonState::Release,
            down: ButtonState::Release,
        }
    }

    /// The state of one key.
    pub open spec fn flag_of(self, control: Control) -> ButtonState {
        match control {
            Control::Left => self.left,
            Control::Right => self.right,
            Control::Front => self.front,
            Control::Back => self.back,
            Control::Up => self.up,
            Control::Down => self.down,
        }
    }

    /// The snapshot that has `state` for `control` and agrees with `self` on
    /// the other five keys.
    pub open spec fn with_flag(self, control: Control, state: ButtonState) -> InputState {
        match control {
            Control::Left => InputState { left: state, ..self },
            Control::Right => InputState { right: state, ..self },
            Control::Front => InputState { front: state, ..self },
            Control::Back => InputState { back: state, ..self },
            Control::Up => InputState { up: state, ..self },
            Control::Down => InputState { down: state, ..self },
        }
    }

    /// The way to go along x, y and z: right against left, up against down,
    /// front against back.
    pub open spec fn pull(self) -> (int, int, int) {
        (
            axis_pull(self.right, self.left),
            axis_pull(self.up, self.down),
            axis_pull(self.front, self.back),
        )
    }

    /// A snapshot with every key released.
    pub fn new() -> (state: InputState)
        ensures
            state == InputState::released(),
    {
        InputState {
            left: ButtonState::Release,
            right: ButtonState::Release,
            front: ButtonState::Release,
            back: ButtonState::Release,
            up: ButtonState::Release,
            down: ButtonState::Release,
        }
    }

    /// Releases every key, whatever was held before.
    pub fn reset(&mut self)
        ensures
            *final(self) == InputState::released(),
    {
        self.left = ButtonState::Release;
        self.right = ButtonState::Release;
        self.front = ButtonState::Release;
        self.back = ButtonState::Release;
        self.up = ButtonState::Release;
        self.down = ButtonState::Release;
    }

    /// The state of one key.
    pub fn flag(&self, control: Control) -> (state: ButtonState)
        ensures
            state == self.flag_of(control),
    {
        match control {
            Control::Left => self.left,
            Control::Right => self.right,
            Control::Front => self.front,
            Control::Back => self.back,
            Control::Up => self.up,
            Control::Down => self.down,
        }
    }

    /// Records that `control` is held (`true`) or not (`false`); the other
    /// five keys stay as they are.
    pub fn set_flag(&mut self, control: Control, pressed: bool)
        ensures
            *final(self) == old(self).with_flag(control, ButtonState::of(pressed)),
    {
        let state = if pressed {
            ButtonState::Press
        } else {
            ButtonState::Release
        };
        match control {
            Control::Left => self.left = state,
            Control::Right => self.right = state,
            Control::Front => self.front = state,
            Control::Back => self.back = state,
            Control::Up => self.up = state,
            Control::Down => self.down = state,
        }
    }

    /// The way to go along x, y and z, each 1, 0 or -1. An axis on which
    /// both keys are held, or neither, gets 0.
    pub fn direction(&self) -> (signs: (i8, i8, i8))
        ensures
            (signs.0 as int, signs.1 as int, signs.2 as int) == self.pull(),
            self.right == self.left ==> signs.0 == 0,
            self.up == self.down ==> signs.1 == 0,
            self.front == self.back ==> signs.2 == 0,
            *self == InputState::released() ==> signs == (0i8, 0i8, 0i8),
    {
        (
            axis_sign(self.right, self.left),
            axis_sign(self.up, self.down),
            axis_sign(self.front, self.back),
        )
    }
}

/// Setting a key and reading it back gives what was set, and reading any
/// other key gives what it held before.
pub proof fn lemma_flags_are_independent(
    state: InputState,
    set: Control,
    to: ButtonState,
    read: Control,
)
    ensures
        state.with_flag(set, to).flag_of(read) == if read == set {
            to
        } else {
            state.flag_of(read)
        },
{
}

} // verus!
