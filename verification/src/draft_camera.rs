//! Cameras: where one stands and looks, what moves it, and how several of
//! them share one renderer.

pub mod draft_camera_manager;
pub mod draft_camera_orthographic;
pub mod draft_camera_perspective;
pub mod draft_camera_projection;
pub mod draft_camera_uniform;
pub mod draft_camera_variant;

use vstd::prelude::*;
use crate::draft_camera::draft_camera_projection::DraftCameraProjection;
use crate::input::ElementState;
use crate::input::Key;
use crate::input::KeyCode;
use crate::input::NamedKey;
use crate::input::PhysicalKey;
use crate::linear::one;
use crate::linear::zero;
use crate::linear::Vec3;
use crate::scalar::Scalar;

verus! {

/// The bit pattern of the binary32 number nearest to a quarter turn, π/2. It
/// is a little more than π/2.
pub const FRAC_PI_2_BITS: u32 = 0x3FC9_0FDBu32;

/// The bit pattern of the largest pitch that a camera takes: the number
/// above less one ten-thousandth, which is less than π/2.
pub const SAFE_FRAC_PI_2_BITS: u32 = 0x3FC9_0C94u32;

/// A shorter name for the projection of a camera.
pub type DraftProjection = DraftCameraProjection;

/// The largest pitch that a camera takes.
pub open spec fn safe_pitch() -> Scalar {
    Scalar { bits: SAFE_FRAC_PI_2_BITS }
}

/// Whether a pitch is a number between the safe bound and its opposite.
pub open spec fn pitch_is_safe(pitch: Scalar) -> bool {
    pitch.within(safe_pitch())
}

/// Where a camera stands and how it is turned: `yaw` about the vertical
/// axis, `pitch` up and down, both in radians.
#[derive(Clone, Copy, Debug, PartialEq, Eq, Structural)]
pub struct DraftCamera {
    pub position: Vec3,
    pub yaw: Scalar,
    pub pitch: Scalar,
}

/// The six ways in which held keys push a camera.
#[derive(Clone, Copy, Debug, PartialEq, Eq, Structural)]
pub enum Direction {
    Left,
    Right,
    Forward,
    Backward,
    Up,
    Down,
}

/// What the keys, the wheel and the pointer have asked of a camera since its
/// last update.
///
/// Each of the six `amount` fields is one while its key is held and zero
/// otherwise. `scroll` and the two rotations are used up by every update.
#[derive(Clone, Copy, Debug, PartialEq, Eq, Structural)]
pub struct DraftCameraController {
    pub amount_left: Scalar,
    pub amount_right: Scalar,
    pub amount_forward: Scalar,
    pub amount_backward: Scalar,
    pub amount_up: Scalar,
    pub amount_down: Scalar,
    pub rotate_horizontal: Scalar,
    pub rotate_vertical: Scalar,
    pub scroll: Scalar,
    pub speed: Scalar,
    pub sensitivity: Scalar,
}

/// The direction that a key stands for, if any. The space bar pushes up
/// whatever its physical key is.
pub open spec fn direction_of(physical_key: PhysicalKey, logical_key: Key) -> Option<Direction> {
    if logical_key == Key::Named(NamedKey::Space) {
        Some(Direction::Up)
    } else {
        match physical_key {
            PhysicalKey::Code(KeyCode::ShiftLeft) => Some(Direction::Down),
            PhysicalKey::Code(KeyCode::KeyW) | PhysicalKey::Code(KeyCode::ArrowUp) => Some(
                Direction::Forward,
            ),
            PhysicalKey::Code(KeyCode::KeyA) | PhysicalKey::Code(KeyCode::ArrowLeft) => Some(
                Direction::Left,
            ),
            PhysicalKey::Code(KeyCode::KeyS) | PhysicalKey::Code(KeyCode::ArrowDown) => Some(
                Direction::Backward,
            ),
            PhysicalKey::Code(KeyCode::KeyD) | PhysicalKey::Code(KeyCode::ArrowRight) => Some(
                Direction::Right,
            ),
            _ => None,
        }
    }
}

/// One for a key that went down, zero for one that came up.
pub open spec fn amount_of(state: ElementState) -> Scalar {
    if state.pressed() {
        one()
    } else {
        zero()
    }
}

impl DraftCamera {
    /// The camera after a move to `moved`: the pitch is pulled into the safe
    /// range.
    pub open spec fn settled(moved: DraftCamera) -> DraftCamera {
        DraftCamera {
            position: moved.position,
            yaw: moved.yaw,
            pitch: moved.pitch.clamped(safe_pitch()),
        }
    }

    pub fn new(position: Vec3, yaw: Scalar, pitch: Scalar) -> (r: DraftCamera)
        ensures
            r == (DraftCamera { position, yaw, pitch }),
    {
        DraftCamera { position, yaw, pitch }
    }
}

impl DraftCameraController {
    /// Each of the six amounts is zero or one.
    pub open spec fn amounts_are_held_or_not(self) -> bool {
        &&& self.amount_left == zero() || self.amount_left == one()
        &&& self.amount_right == zero() || self.amount_right == one()
        &&& self.amount_forward == zero() || self.amount_forward == one()
        &&& self.amount_backward == zero() || self.amount_backward == one()
        &&& self.amount_up == zero() || self.amount_up == one()
        &&& self.amount_down == zero() || self.amount_down == one()
    }

    /// A controller on which nothing is held and nothing is pending.
    pub open spec fn idle(speed: Scalar, sensitivity: Scalar) -> DraftCameraController {
        DraftCameraController {
            amount_left: zero(),
            amount_right: zero(),
            amount_forward: zero(),
            amount_backward: zero(),
            amount_up: zero(),
            amount_down: zero(),
            rotate_horizontal: zero(),
            rotate_vertical: zero(),
            scroll: zero(),
            speed,
            sensitivity,
        }
    }

    /// The controller with the amount of one direction set.
    pub open spec fn with_amount(self, direction: Direction, amount: Scalar) -> DraftCameraController {
        match direction {
            Direction::Left => DraftCameraController { amount_left: amount, ..self },
            Direction::Right => DraftCameraController { amount_right: amount, ..self },
            Direction::Forward => DraftCameraController { amount_forward: amount, ..self },
            Direction::Backward => DraftCameraController { amount_backward: amount, ..self },
            Direction::Up => DraftCameraController { amount_up: amount, ..self },
            Direction::Down => DraftCameraController { amount_down: amount, ..self },
        }
    }

    /// The controller after a keyboard event.
    pub open spec fn after_key(
        self,
        physical_key: PhysicalKey,
        logical_key: Key,
        state: ElementState,
    ) -> DraftCameraController {
        match direction_of(physical_key, logical_key) {
            Some(direction) => self.with_amount(direction, amount_of(state)),
            None => self,
        }
    }

    /// The controller after the wheel turned by `amount`: the sign is turned
    /// round.
    pub open spec fn after_scroll(self, amount: Scalar) -> DraftCameraController {
        DraftCameraController { scroll: amount.negated(), ..self }
    }

    /// The controller after an update: scroll and rotations are used up, what
    /// is held stays held.
    pub open spec fn consumed(self) -> DraftCameraController {
        DraftCameraController {
            rotate_horizontal: zero(),
            rotate_vertical: zero(),
            scroll: zero(),
            ..self
        }
    }

    pub fn new(speed: Scalar, sensitivity: Scalar) -> (r: DraftCameraController)
        ensures
            r == DraftCameraController::idle(speed, sensitivity),
            r.amounts_are_held_or_not(),
    {
        let o = Scalar::zero();
        DraftCameraController {
            amount_left: o,
            amount_right: o,
            amount_forward: o,
            amount_backward: o,
            amount_up: o,
            amount_down: o,
            rotate_horizontal: o,
            rotate_vertical: o,
            scroll: o,
            speed,
            sensitivity,
        }
    }

    /// Takes a keyboard event. Returns whether the key is one that moves the
    /// camera.
    pub fn process_keyboard(
        &mut self,
        physical_key: &PhysicalKey,
        logical_key: &Key,
        state: ElementState,
    ) -> (handled: bool)
        ensures
            handled == direction_of(*physical_key, *logical_key) is Some,
            *final(self) == old(self).after_key(*physical_key, *logical_key, state),
            old(self).amounts_are_held_or_not() ==> final(self).amounts_are_held_or_not(),
    {
        let amount = if state.is_pressed() {
            Scalar::one()
        } else {
            Scalar::zero()
        };
        match logical_key {
            Key::Named(NamedKey::Space) => {
                self.amount_up = amount;
                return true;
            },
            _ => {},
        }
        match physical_key {
            PhysicalKey::Code(KeyCode::ShiftLeft) => {
                self.amount_down = amount;
                true
            },
            PhysicalKey::Code(KeyCode::KeyW) | PhysicalKey::Code(KeyCode::ArrowUp) => {
                self.amount_forward = amount;
                true
            },
            PhysicalKey::Code(KeyCode::KeyA) | PhysicalKey::Code(KeyCode::ArrowLeft) => {
                self.amount_left = amount;
                true
            },
            PhysicalKey::Code(KeyCode::KeyS) | PhysicalKey::Code(KeyCode::ArrowDown) => {
                self.amount_backward = amount;
                true
            },
            PhysicalKey::Code(KeyCode::KeyD) | PhysicalKey::Code(KeyCode::ArrowRight) => {
                self.amount_right = amount;
                true
            },
            _ => false,
        }
    }

    /// Takes a movement of the pointer.
    pub fn process_mouse(&mut self, mouse_dx: Scalar, mouse_dy: Scalar)
        ensures
            *final(self) == (DraftCameraController {
                rotate_horizontal: mouse_dx,
                rotate_vertical: mouse_dy,
                ..*old(self)
            }),
            old(self).amounts_are_held_or_not() ==> final(self).amounts_are_held_or_not(),
    {
        self.rotate_horizontal = mouse_dx;
        self.rotate_vertical = mouse_dy;
    }

    /// Takes a turn of the wheel by `amount`, which is lines times one
    /// hundred, or pixels.
    pub fn process_scroll(&mut self, amount: Scalar)
        ensures
            *final(self) == old(self).after_scroll(amount),
            old(self).amounts_are_held_or_not() ==> final(self).amounts_are_held_or_not(),
    {
        self.scroll = amount.neg();
    }

    /// Ends an update of `camera`.
    ///
    /// `moved` is the camera after the motion that this controller asks for.
    /// The camera takes it with the pitch pulled into the safe range, and the
    /// controller's scroll and rotations are used up.
    pub fn update_camera(&mut self, camera: &mut DraftCamera, moved: DraftCamera)
        ensures
            *final(camera) == DraftCamera::settled(moved),
            *final(self) == old(self).consumed(),
            !moved.pitch.nan() ==> pitch_is_safe(final(camera).pitch),
            old(self).amounts_are_held_or_not() ==> final(self).amounts_are_held_or_not(),
    {
        camera.position = moved.position;
        camera.yaw = moved.yaw;
        camera.pitch = moved.pitch.clamp_symmetric(Scalar { bits: SAFE_FRAC_PI_2_BITS });
        self.scroll = Scalar::zero();
        self.rotate_horizontal = Scalar::zero();
        self.rotate_vertical = Scalar::zero();
    }
}

/// The camera after a run of updates, taken in order.
pub open spec fn after_updates(camera: DraftCamera, moves: Seq<DraftCamera>) -> DraftCamera {
    if moves.len() == 0 {
        camera
    } else {
        DraftCamera::settled(moves.last())
    }
}

/// A safe pitch lies strictly between the two quarter turns.
pub proof fn lemma_safe_pitch_is_inside(pitch: Scalar)
    requires
        pitch_is_safe(pitch),
    ensures
        !pitch.nan(),
        -(Scalar { bits: FRAC_PI_2_BITS }).rank() < pitch.rank() < (Scalar {
            bits: FRAC_PI_2_BITS,
        }).rank(),
{
}

/// After any run of updates the pitch is safe.
///
/// It holds of every run of moves whose pitches are numbers, from a camera
/// whose pitch is safe or after at least one update.
pub proof fn lemma_pitch_stays_safe(camera: DraftCamera, moves: Seq<DraftCamera>)
    requires
        moves.len() > 0 || pitch_is_safe(camera.pitch),
        forall|k: int| 0 <= k < moves.len() ==> !(#[trigger] moves[k]).pitch.nan(),
    ensures
        pitch_is_safe(after_updates(camera, moves).pitch),
{
    if moves.len() > 0 {
        assert(!moves[moves.len() - 1].pitch.nan());
    }
}

} // verus!
