//! The scene: one solid that spins on its own and is steered with the keys,
//! and the part of its view that listens to the keyboard.

use crate::input_state::{ButtonState, Control, InputState};
use crate::polytopes::{can_sum, vector_sum, Polytope, Vector3d};
use crate::projection::Screen;
use core::ops::{Add, Mul, Sub};
use vstd::prelude::*;
use vstd::std_specs::ops::{AddSpec, MulSpec, SubSpec};

verus! {

/// A key of the keyboard, as far as the scene tells keys apart.
#[derive(Copy, Clone, Debug, PartialEq, Eq, Structural)]
pub enum Key {
    A,
    D,
    F,
    R,
    S,
    W,
    Other,
}

/// What was pressed or released: a key, or a button of some other device.
#[derive(Copy, Clone, Debug, PartialEq, Eq, Structural)]
pub enum Button {
    Keyboard(Key),
    Other,
}

/// A button that went down or up.
#[derive(Copy, Clone, Debug, PartialEq, Eq, Structural)]
pub struct ButtonArgs {
    /// The new state of the button.
    pub state: ButtonState,
    /// The button that changed state.
    pub button: Button,
}

/// Which steering key each key of the keyboard stands for. A key that
/// stands for none is ignored.
#[derive(Copy, Clone, Debug)]
pub struct Bindings {
    pub a: Option<Control>,
    pub d: Option<Control>,
    pub f: Option<Control>,
    pub r: Option<Control>,
    pub s: Option<Control>,
    pub w: Option<Control>,
}

impl Bindings {
    /// The steering key that `button` stands for, if any. Only the six
    /// letters can stand for one; other keys and other devices never do.
    pub open spec fn control_of(self, button: Button) -> Option<Control> {
        match button {
            Button::Keyboard(Key::A) => self.a,
            Button::Keyboard(Key::D) => self.d,
            Button::Keyboard(Key::F) => self.f,
            Button::Keyboard(Key::R) => self.r,
            Button::Keyboard(Key::S) => self.s,
            Button::Keyboard(Key::W) => self.w,
            _ => None,
        }
    }

    /// Steering along all three axes: W and S go to the front and back, A
    /// and D to the left and right, R and F up and down.
    pub open spec fn spatial_layout() -> Bindings {
        Bindings {
            a: Some(Control::Left),
            d: Some(Control::Right),
            f: Some(Control::Down),
            r: Some(Control::Up),
            s: Some(Control::Back),
            w: Some(Control::Front),
        }
    }

    /// Steering in the plane of the picture: W and R go up, S and F down, A
    /// and D to the left and right; nothing goes to the front or back.
    pub open spec fn planar_layout() -> Bindings {
        Bindings {
            a: Some(Control::Left),
            d: Some(Control::Right),
            f: Some(Control::Down),
            r: Some(Control::Up),
            s: Some(Control::Down),
            w: Some(Control::Up),
        }
    }

    /// The bindings for steering along all three axes.
    pub fn spatial() -> (bindings: Bindings)
        ensures
            bindings == Bindings::spatial_layout(),
    {
        Bindings {
            a: Some(Control::Left),
            d: Some(Control::Right),
            f: Some(Control::Down),
            r: Some(Control::Up),
            s: Some(Control::Back),
            w: Some(Control::Front),
        }
    }

    /// The bindings for steering in the plane of the picture.
    pub fn planar() -> (bindings: Bindings)
        ensures
            bindings == Bindings::planar_layout(),
    {
        Bindings {
            a: Some(Control::Left),
            d: Some(Control::Right),
            f: Some(Control::Down),
            r: Some(Control::Up),
            s: Some(Control::Down),
            w: Some(Control::Up),
        }
    }

    /// The steering key that `button` stands for, if any.
    pub fn control(&self, button: Button) -> (control: Option<Control>)
        ensures
            control == self.control_of(button),
    {
        match button {
            Button::Keyboard(Key::A) => self.a,
            Button::Keyboard(Key::D) => self.d,
            Button::Keyboard(Key::F) => self.f,
            Button::Keyboard(Key::R) => self.r,
            Button::Keyboard(Key::S) => self.s,
            Button::Keyboard(Key::W) => self.w,
            _ => None,
        }
    }
}

/// The keys as they stand after a button event: the steering key that the
/// button stands for takes the event's state, and a button that stands for
/// none changes nothing.
pub open spec fn after_button(
    keys: InputState,
    bindings: Bindings,
    button_args: ButtonArgs,
) -> InputState {
    match bindings.control_of(button_args.button) {
        Some(control) => keys.with_flag(control, button_args.state),
        None => keys,
    }
}

/// The keyboard side of the view: which steering keys are held right now,
/// and which keys of the keyboard stand for them.
#[derive(Debug)]
pub struct DemoView {
    input_state: InputState,
    bindings: Bindings,
}

impl View for DemoView {
    type V = InputState;

    closed spec fn view(&self) -> InputState {
        self.input_state
    }
}

impl DemoView {
    /// Width of the drawing area, in pixels.
    pub const WIDTH: u32 = 800;

    /// Height of the drawing area, in pixels.
    pub const HEIGHT: u32 = 600;

    /// Pixels per unit of normalized device coordinates.
    pub const COORDS_SCALE: u32 = 400;

    /// The drawing area: its scale, and its center at half the width and
    /// half the height.
    pub fn screen() -> (screen: Screen<u32>)
        ensures
            screen.scale == Self::COORDS_SCALE,
            screen.center == (400u32, 300u32),
            screen.center.0 * 2 == Self::WIDTH,
            screen.center.1 * 2 == Self::HEIGHT,
    {
        Screen { scale: Self::COORDS_SCALE, center: (Self::WIDTH / 2, Self::HEIGHT / 2) }
    }

    /// The bindings that this view listens with.
    pub closed spec fn layout(&self) -> Bindings {
        self.bindings
    }

    /// A view in which no key is held, and which steers along all three
    /// axes.
    pub fn new() -> (view: DemoView)
        ensures
            view@ == InputState::released(),
            view.layout() == Bindings::spatial_layout(),
    {
        DemoView { input_state: InputState::new(), bindings: Bindings::spatial() }
    }

    /// A view in which no key is held, and which listens with `bindings`.
    pub fn with_bindings(bindings: Bindings) -> (view: DemoView)
        ensures
            view@ == InputState::released(),
            view.layout() == bindings,
    {
        DemoView { input_state: InputState::new(), bindings }
    }

    /// The bindings that this view listens with.
    pub fn bindings(&self) -> (bindings: Bindings)
        ensures
            bindings == self.layout(),
    {
        self.bindings
    }

    /// The keys as they stand now.
    pub fn input_state(&self) -> (keys: InputState)
        ensures
            keys == self@,
    {
        self.input_state
    }

    /// Takes note of a button that went down or up.
    pub fn handle_button_event(&mut self, button_args: &ButtonArgs)
        ensures
            final(self)@ == after_button(old(self)@, old(self).layout(), *button_args),
            final(self).layout() == old(self).layout(),
    {
        match self.bindings.control(button_args.button) {
            Some(control) => {
                let pressed = match button_args.state {
                    ButtonState::Press => true,
                    ButtonState::Release => false,
                };
                self.input_state.set_flag(control, pressed);
            },
            None => {},
        }
    }

    /// Lets go of every key when the window gains or loses the focus, so
    /// that no key stays stuck.
    pub fn handle_focus_event(&mut self, _focused: bool)
        ensures
            final(self)@ == InputState::released(),
            final(self).layout() == old(self).layout(),
    {
        self.input_state.reset();
    }
}

/// Whether `v * k` may be computed in every component.
pub open spec fn can_scale<S: Mul<Output = S>>(v: Vector3d<S>, k: S) -> bool {
    &&& v.0.mul_req(k)
    &&& v.1.mul_req(k)
    &&& v.2.mul_req(k)
}

/// The vector `v` with every component multiplied by `k`.
pub open spec fn scaled<S: Mul<Output = S>>(v: Vector3d<S>, k: S) -> Vector3d<S> {
    (v.0.mul_spec(k), v.1.mul_spec(k), v.2.mul_spec(k))
}

/// Whether the coordinate `x` may be moved by `step` the way `sign` says.
pub open spec fn can_nudge<S: Add<Output = S> + Sub<Output = S>>(x: S, step: S, sign: int) -> bool {
    &&& sign > 0 ==> x.add_req(step)
    &&& sign < 0 ==> x.sub_req(step)
}

/// The coordinate `x` moved by `step` the way `sign` says: forwards if it
/// is positive, backwards if it is negative, and left alone if it is 0.
pub open spec fn nudged<S: Add<Output = S> + Sub<Output = S>>(x: S, step: S, sign: int) -> S {
    if sign > 0 {
        x.add_spec(step)
    } else if sign < 0 {
        x.sub_spec(step)
    } else {
        x
    }
}

/// Whether `offset` may be moved by `step` along every axis the way `pull`
/// says.
pub open spec fn can_steer<S: Add<Output = S> + Sub<Output = S>>(
    offset: Vector3d<S>,
    step: S,
    pull: (int, int, int),
) -> bool {
    &&& can_nudge(offset.0, step, pull.0)
    &&& can_nudge(offset.1, step, pull.1)
    &&& can_nudge(offset.2, step, pull.2)
}

/// The point `offset` moved by `step` along every axis the way `pull` says.
pub open spec fn steered<S: Add<Output = S> + Sub<Output = S>>(
    offset: Vector3d<S>,
    step: S,
    pull: (int, int, int),
) -> Vector3d<S> {
    (
        nudged(offset.0, step, pull.0),
        nudged(offset.1, step, pull.1),
        nudged(offset.2, step, pull.2),
    )
}

/// Moves one coordinate by `step` the way `sign` says.
fn nudge<S: Copy + Add<Output = S> + Sub<Output = S>>(x: S, step: S, sign: i8) -> (moved: S)
    requires
        can_nudge(x, step, sign as int),
    ensures
        sign == 0 ==> moved == x,
        S::obeys_add_spec() && S::obeys_sub_spec() ==> moved == nudged(x, step, sign as int),
{
    if sign > 0 {
        x + step
    } else if sign < 0 {
        x - step
    } else {
        x
    }
}

/// A scene of one solid, which turns at a steady rate and moves at a steady
/// speed wherever the keys pull it.
#[derive(Debug)]
pub struct DemoModel<S, P> {
    /// The solid on show.
    pub polytope: P,
    /// The angle gained per second about x, y and z.
    pub spin: Vector3d<S>,
    /// The distance covered per second along an axis whose key is held.
    pub speed: S,
}

impl<S, P> DemoModel<S, P> where
    S: Copy + Add<Output = S> + Sub<Output = S> + Mul<Output = S>,
    P: Polytope<S>,
 {
    /// Whether a tick of `dt` seconds can be computed in `S`: the scalar's
    /// sums, differences and products are exact, and none of those that the
    /// tick takes leaves the type's range.
    pub open spec fn can_update(&self, dt: S, input_state: InputState) -> bool {
        &&& S::obeys_add_spec()
        &&& S::obeys_sub_spec()
        &&& S::obeys_mul_spec()
        &&& can_scale(self.spin, dt)
        &&& self.speed.mul_req(dt)
        &&& can_sum(self.polytope.rotation(), scaled(self.spin, dt))
        &&& can_steer(self.polytope.offset(), self.speed.mul_spec(dt), input_state.pull())
    }

    /// A scene that shows `polytope` as it stands.
    pub fn new(polytope: P, spin: Vector3d<S>, speed: S) -> (model: Self)
        ensures
            model.polytope == polytope,
            model.spin == spin,
            model.speed == speed,
    {
        DemoModel { polytope, spin, speed }
    }

    /// Advances the scene by `dt` seconds. The solid turns by `spin * dt`
    /// whatever the keys say. Along each axis it moves by `speed * dt`
    /// towards the end whose key is held; an axis on which both keys are
    /// held, or neither, keeps its coordinate.
    pub fn update(&mut self, dt: S, input_state: InputState)
        requires
            old(self).can_update(dt, input_state),
        ensures
            final(self).polytope.rotation() == vector_sum(
                old(self).polytope.rotation(),
                scaled(old(self).spin, dt),
            ),
            final(self).polytope.offset() == steered(
                old(self).polytope.offset(),
                old(self).speed.mul_spec(dt),
                input_state.pull(),
            ),
            input_state.right == input_state.left ==> final(self).polytope.offset().0 == old(
                self,
            ).polytope.offset().0,
            input_state.up == input_state.down ==> final(self).polytope.offset().1 == old(
                self,
            ).polytope.offset().1,
            input_state.front == input_state.back ==> final(self).polytope.offset().2 == old(
                self,
            ).polytope.offset().2,
            input_state == InputState::released() ==> final(self).polytope.offset() == old(
                self,
            ).polytope.offset(),
            final(self).polytope.scale() == old(self).polytope.scale(),
            final(self).polytope.edges() == old(self).polytope.edges(),
            final(self).spin == old(self).spin,
            final(self).speed == old(self).speed,
    {
        let (spin_x, spin_y, spin_z) = self.spin;
        self.polytope.rotate((spin_x * dt, spin_y * dt, spin_z * dt));

        let step = self.speed * dt;
        let (sign_x, sign_y, sign_z) = input_state.direction();
        let (x, y, z) = self.polytope.get_offset();
        self.polytope.set_offset(
            (nudge(x, step, sign_x), nudge(y, step, sign_y), nudge(z, step, sign_z)),
        );
    }
}

} // verus!
