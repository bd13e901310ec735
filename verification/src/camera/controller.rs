//! The controller that turns keys, mouse and wheel into camera motion.
//!
//! The controller remembers what has come in since the last update: which
//! movement keys are held, how far the mouse moved, how far the wheel
//! turned. An update moves and turns the camera by these amounts and forgets
//! mouse and wheel.

use vstd::prelude::*;
use vstd::std_specs::ops::{AddSpec, MulSpec, NegSpec, SubSpec};

use crate::camera::camera::{Camera, Heading};
use crate::event::{ElementState, MouseScrollDelta, VirtualKeyCode};
use crate::scalar::{
    add3, arithmetic, clamp, clamped, greater, less, ordered, scale3, vector_scaled, vector_sum,
    Scalar,
};

verus! {

/// The height of a line of scrolling, in pixels.
pub const PIXELS_PER_LINE: i64 = 100;

/// The six directions that keys move the camera in.
#[derive(Clone, Copy, Debug, PartialEq, Eq, Structural)]
pub enum Movement {
    Forward,
    Backward,
    Left,
    Right,
    Up,
    Down,
}

/// The direction that a key stands for, if it is a movement key: W, S, A, D
/// or the arrows for the plane, space for up and left shift for down.
pub open spec fn key_movement(key: VirtualKeyCode) -> Option<Movement> {
    match key {
        VirtualKeyCode::W | VirtualKeyCode::Up => Some(Movement::Forward),
        VirtualKeyCode::S | VirtualKeyCode::Down => Some(Movement::Backward),
        VirtualKeyCode::A | VirtualKeyCode::Left => Some(Movement::Left),
        VirtualKeyCode::D | VirtualKeyCode::Right => Some(Movement::Right),
        VirtualKeyCode::Space => Some(Movement::Up),
        VirtualKeyCode::LShift => Some(Movement::Down),
        _ => None,
    }
}

/// What has come in for the camera since the last update.
///
/// Each `amount_*` is the amount of a movement: all of it (`true`, the
/// factor one) while a key for it is held, none (`false`, the factor zero)
/// otherwise.
#[derive(Clone, Copy, Debug)]
pub struct CameraController<S> {
    pub speed: S,
    pub scroll: S,
    pub sensitivity: S,
    pub amount_left: bool,
    pub amount_right: bool,
    pub amount_forward: bool,
    pub amount_backward: bool,
    pub amount_up: bool,
    pub amount_down: bool,
    pub rotate_horizontal: S,
    pub rotate_vertical: S,
}

impl<S: Scalar> CameraController<S> {
    /// The controller with the amount of `movement` set to `amount` and
    /// everything else as it is.
    pub open spec fn with_amount(self, movement: Movement, amount: bool) -> CameraController<S> {
        match movement {
            Movement::Forward => CameraController { amount_forward: amount, ..self },
            Movement::Backward => CameraController { amount_backward: amount, ..self },
            Movement::Left => CameraController { amount_left: amount, ..self },
            Movement::Right => CameraController { amount_right: amount, ..self },
            Movement::Up => CameraController { amount_up: amount, ..self },
            Movement::Down => CameraController { amount_down: amount, ..self },
        }
    }

    /// The controller after a key event: a movement key overwrites the
    /// amount of its direction, any other key changes nothing.
    pub open spec fn after_key(self, key: VirtualKeyCode, state: ElementState) -> CameraController<
        S,
    > {
        match key_movement(key) {
            Some(movement) => self.with_amount(movement, state == ElementState::Pressed),
            None => self,
        }
    }

    /// A controller at rest: no key held, and `zero` for the wheel and the
    /// mouse.
    pub fn new(speed: S, sensitivity: S, zero: S) -> (controller: CameraController<S>)
        ensures
            controller == (CameraController {
                speed,
                scroll: zero,
                sensitivity,
                amount_left: false,
                amount_right: false,
                amount_forward: false,
                amount_backward: false,
                amount_up: false,
                amount_down: false,
                rotate_horizontal: zero,
                rotate_vertical: zero,
            }),
    {
        CameraController {
            speed,
            sensitivity,
            amount_left: false,
            amount_right: false,
            amount_forward: false,
            amount_backward: false,
            amount_up: false,
            amount_down: false,
            rotate_horizontal: zero,
            rotate_vertical: zero,
            scroll: zero,
        }
    }

    /// Takes a key event. Returns whether the key is a movement key.
    pub fn process_keyboard(&mut self, key: VirtualKeyCode, state: ElementState) -> (handled: bool)
        ensures
            *final(self) == old(self).after_key(key, state),
            handled == key_movement(key).is_some(),
    {
        let amount = state == ElementState::Pressed;
        match key {
            VirtualKeyCode::W | VirtualKeyCode::Up => {
                self.amount_forward = amount;
                true
            },
            VirtualKeyCode::S | VirtualKeyCode::Down => {
                self.amount_backward = amount;
                true
            },
            VirtualKeyCode::A | VirtualKeyCode::Left => {
                self.amount_left = amount;
                true
            },
            VirtualKeyCode::D | VirtualKeyCode::Right => {
                self.amount_right = amount;
                true
            },
            VirtualKeyCode::Space => {
                self.amount_up = amount;
                true
            },
            VirtualKeyCode::LShift => {
                self.amount_down = amount;
                true
            },
            _ => false,
        }
    }

    /// Takes the motion of the mouse: it replaces what was there.
    pub fn process_mouse(&mut self, mouse_dx: S, mouse_dy: S)
        ensures
            *final(self) == (CameraController {
                rotate_horizontal: mouse_dx,
                rotate_vertical: mouse_dy,
                ..*old(self)
            }),
    {
        self.rotate_horizontal = mouse_dx;
        self.rotate_vertical = mouse_dy;
    }

    /// Whether `scroll` is the distance that `delta` scrolls, for the scalar
    /// `line` of the height of a line: the vertical part, in pixels, where a
    /// line counts as [`PIXELS_PER_LINE`] pixels.
    pub open spec fn scroll_from<T: Fn(i64) -> S>(
        delta: MouseScrollDelta<S>,
        scroll: S,
        to_scalar: T,
        line: S,
    ) -> bool {
        match delta {
            MouseScrollDelta::LineDelta(_, lines) => call_ensures(
                to_scalar,
                (PIXELS_PER_LINE,),
                line,
            ) && scroll == lines.mul_spec(line),
            MouseScrollDelta::PixelDelta(_, pixels) => scroll == pixels,
        }
    }

    /// Whether `after` is the controller after the wheel was turned by
    /// `delta`: the scroll is replaced by the distance scrolled, and nothing
    /// else changes.
    pub open spec fn scrolled<T: Fn(i64) -> S>(
        self,
        after: CameraController<S>,
        delta: MouseScrollDelta<S>,
        to_scalar: T,
    ) -> bool {
        &&& after == (CameraController { scroll: after.scroll, ..self })
        &&& exists|line: S| #[trigger] Self::scroll_from(delta, after.scroll, to_scalar, line)
    }

    /// Takes the turn of the wheel: it replaces what was there.
    pub fn process_scroll<T: Fn(i64) -> S>(&mut self, delta: &MouseScrollDelta<S>, to_scalar: &T)
        requires
            arithmetic::<S>(),
            forall|n: i64| call_requires(*to_scalar, (n,)),
        ensures
            old(self).scrolled(*final(self), *delta, *to_scalar),
    {
        match delta {
            MouseScrollDelta::LineDelta(_, lines) => {
                let line = to_scalar(PIXELS_PER_LINE);
                self.scroll = lines.mul(line);
                assert(Self::scroll_from(*delta, self.scroll, *to_scalar, line));
            },
            MouseScrollDelta::PixelDelta(_, pixels) => {
                self.scroll = *pixels;
                assert(Self::scroll_from(*delta, self.scroll, *to_scalar, self.scroll));
            },
        }
    }

    /// Forgets the wheel and the mouse once an update has used them, so that
    /// a frame without new input neither zooms nor turns. The keys stay as
    /// they are: a held key keeps moving the camera.
    pub fn finish_update(&mut self, zero: S)
        ensures
            *final(self) == (CameraController {
                scroll: zero,
                rotate_horizontal: zero,
                rotate_vertical: zero,
                ..*old(self)
            }),
    {
        self.scroll = zero;
        self.rotate_horizontal = zero;
        self.rotate_vertical = zero;
    }
}

/// The amount of a movement as a scalar: `one` while a key for it is held
/// and `zero` otherwise.
pub open spec fn amount<S>(held: bool, zero: S, one: S) -> S {
    if held {
        one
    } else {
        zero
    }
}

impl<S: Scalar + PartialOrd> CameraController<S> {
    /// Whether `after` is the camera `before` after an update of `dt`
    /// seconds, for the directions `heading` that `before` has.
    ///
    /// The position moves along the ground by `forward * (forward -
    /// backward) * speed * dt` and `right * (right - left) * speed * dt`,
    /// then along the view by `look * scroll * speed * sensitivity * dt`,
    /// then straight up by `(up - down) * speed * dt`. Yaw grows by
    /// `rotate_horizontal * sensitivity * dt`, pitch by `-rotate_vertical *
    /// sensitivity * dt`, and the pitch is then held between `-safe_pitch`
    /// and `safe_pitch`. Products are taken from left to right.
    pub open spec fn steered(
        self,
        before: Camera<S>,
        after: Camera<S>,
        heading: Heading<S>,
        dt: S,
        zero: S,
        one: S,
        safe_pitch: S,
    ) -> bool {
        let along = amount(self.amount_forward, zero, one).sub_spec(
            amount(self.amount_backward, zero, one),
        );
        let across = amount(self.amount_right, zero, one).sub_spec(
            amount(self.amount_left, zero, one),
        );
        let rise = amount(self.amount_up, zero, one).sub_spec(amount(self.amount_down, zero, one));
        let walked = vector_sum(
            before.position@,
            vector_scaled(vector_scaled(vector_scaled(heading.forward@, along), self.speed), dt),
        );
        let strafed = vector_sum(
            walked,
            vector_scaled(vector_scaled(vector_scaled(heading.right@, across), self.speed), dt),
        );
        let zoomed = vector_sum(
            strafed,
            vector_scaled(
                vector_scaled(
                    vector_scaled(vector_scaled(heading.look@, self.scroll), self.speed),
                    self.sensitivity,
                ),
                dt,
            ),
        );
        let tilted = before.pitch.add_spec(
            self.rotate_vertical.neg_spec().mul_spec(self.sensitivity).mul_spec(dt),
        );
        &&& after.position@ == seq![
            zoomed[0],
            zoomed[1].add_spec(rise.mul_spec(self.speed).mul_spec(dt)),
            zoomed[2],
        ]
        &&& after.yaw == before.yaw.add_spec(
            self.rotate_horizontal.mul_spec(self.sensitivity).mul_spec(dt),
        )
        &&& after.pitch == clamped(tilted, safe_pitch.neg_spec(), safe_pitch)
    }

    /// Moves and turns `camera` by what has come in, for `dt` seconds, and
    /// forgets the wheel and the mouse. `heading` holds the directions of
    /// the camera before the update.
    pub fn update_camera(
        &mut self,
        camera: &mut Camera<S>,
        heading: &Heading<S>,
        dt: S,
        zero: S,
        one: S,
        safe_pitch: S,
    )
        requires
            arithmetic::<S>(),
            ordered::<S>(),
        ensures
            old(self).steered(*old(camera), *final(camera), *heading, dt, zero, one, safe_pitch),
            *final(self) == (CameraController {
                scroll: zero,
                rotate_horizontal: zero,
                rotate_vertical: zero,
                ..*old(self)
            }),
    {
        let forward = if self.amount_forward { one } else { zero };
        let backward = if self.amount_backward { one } else { zero };
        let right = if self.amount_right { one } else { zero };
        let left = if self.amount_left { one } else { zero };
        let up = if self.amount_up { one } else { zero };
        let down = if self.amount_down { one } else { zero };

        // Move forward/backward and left/right
        let mut position = camera.position;
        position = add3(
            position,
            scale3(scale3(scale3(heading.forward, forward.sub(backward)), self.speed), dt),
        );
        position = add3(
            position,
            scale3(scale3(scale3(heading.right, right.sub(left)), self.speed), dt),
        );

        // Move in/out. This is no zoom: the camera itself moves, which makes
        // it easy to get close to what it looks at.
        position = add3(
            position,
            scale3(
                scale3(scale3(scale3(heading.look, self.scroll), self.speed), self.sensitivity),
                dt,
            ),
        );

        // Move up/down. There is no roll, so only the y coordinate changes.
        let lifted = [
            position[0],
            position[1].add(up.sub(down).mul(self.speed).mul(dt)),
            position[2],
        ];
        assert(lifted@ =~= seq![
            position@[0],
            position@[1].add_spec(up.sub_spec(down).mul_spec(self.speed).mul_spec(dt)),
            position@[2],
        ]);
        camera.position = lifted;

        // Rotate
        camera.yaw = camera.yaw.add(self.rotate_horizontal.mul(self.sensitivity).mul(dt));
        let tilted = camera.pitch.add(self.rotate_vertical.neg().mul(self.sensitivity).mul(dt));

        // Without this, a frame in which the mouse does not move would turn
        // the camera by the motion of the frame before.
        self.finish_update(zero);

        // Keep the camera from tipping over
        camera.pitch = clamp(tilted, safe_pitch.neg(), safe_pitch);
    }
}

/// However far the mouse has moved, the pitch stays in the safe range: after
/// an update it is not below `-safe_pitch` and not above `safe_pitch`. The
/// premises say that the two bounds are in order.
pub proof fn lemma_pitch_stays_safe<S: Scalar + PartialOrd>(
    controller: CameraController<S>,
    before: Camera<S>,
    after: Camera<S>,
    heading: Heading<S>,
    dt: S,
    zero: S,
    one: S,
    safe_pitch: S,
)
    requires
        controller.steered(before, after, heading, dt, zero, one, safe_pitch),
        !less(safe_pitch.neg_spec(), safe_pitch.neg_spec()),
        !greater(safe_pitch, safe_pitch),
        !greater(safe_pitch.neg_spec(), safe_pitch),
        !less(safe_pitch, safe_pitch.neg_spec()),
    ensures
        !less(after.pitch, safe_pitch.neg_spec()),
        !greater(after.pitch, safe_pitch),
{
}

/// An update over no time leaves the camera where it is and as it is turned.
///
/// This holds where arithmetic behaves as on numbers: every product with
/// `dt` is `zero`, adding `zero` changes nothing, and the pitch was in the
/// safe range before. (Rounded arithmetic breaks the first premise for
/// values that are not finite.)
pub proof fn lemma_update_without_time<S: Scalar + PartialOrd>(
    controller: CameraController<S>,
    before: Camera<S>,
    after: Camera<S>,
    heading: Heading<S>,
    dt: S,
    zero: S,
    one: S,
    safe_pitch: S,
)
    requires
        controller.steered(before, after, heading, dt, zero, one, safe_pitch),
        forall|x: S| #[trigger] x.mul_spec(dt) == zero,
        forall|x: S| #[trigger] x.add_spec(zero) == x,
        !less(before.pitch, safe_pitch.neg_spec()),
        !greater(before.pitch, safe_pitch),
    ensures
        after.position@ == before.position@,
        after.yaw == before.yaw,
        after.pitch == before.pitch,
{
    assert(after.position@ =~= before.position@);
}

} // verus!
