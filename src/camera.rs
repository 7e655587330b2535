use vstd::prelude::*;

verus! {

/// The keys that the scene reacts to; every other key is `Other`.
#[derive(Clone, Copy, Debug, PartialEq, Eq, Structural)]
pub enum Key {
    KeyW,
    KeyA,
    KeyS,
    KeyD,
    KeyE,
    KeyF,
    ArrowUp,
    ArrowDown,
    ArrowLeft,
    ArrowRight,
    Space,
    ShiftLeft,
    ShiftRight,
    Escape,
    Other,
}

/// The six motion directions a key can hold down.
#[derive(Clone, Copy, Debug, PartialEq, Eq, Structural)]
pub enum Direction {
    Forward,
    Backward,
    Left,
    Right,
    Up,
    Down,
}

/// The direction a key controls, if any.
pub open spec fn direction_of(key: Key) -> Option<Direction> {
    match key {
        Key::KeyW | Key::ArrowUp => Some(Direction::Forward),
        Key::KeyS | Key::ArrowDown => Some(Direction::Backward),
        Key::KeyA | Key::ArrowLeft => Some(Direction::Left),
        Key::KeyD | Key::ArrowRight => Some(Direction::Right),
        Key::Space => Some(Direction::Up),
        Key::ShiftLeft | Key::ShiftRight => Some(Direction::Down),
        _ => None,
    }
}

/// Press state of the six direction keys. The movement speed is a
/// floating-point scalar and is held by the caller that applies a `Motion`.
#[derive(Clone, Copy, Debug, PartialEq, Eq, Structural)]
pub struct CameraController {
    pub is_forward_pressed: bool,
    pub is_backward_pressed: bool,
    pub is_left_pressed: bool,
    pub is_right_pressed: bool,
    pub is_up_pressed: bool,
    pub is_down_pressed: bool,
}

/// The steps of one camera update, in the order they are applied: step
/// towards the target, step away from it, then orbit right, then orbit left.
#[derive(Clone, Copy, Debug, PartialEq, Eq, Structural)]
pub struct Motion {
    pub advance: bool,
    pub retreat: bool,
    pub orbit_right: bool,
    pub orbit_left: bool,
}

impl CameraController {
    /// Whether the flag of direction `d` is set.
    pub open spec fn pressed(self, d: Direction) -> bool {
        match d {
            Direction::Forward => self.is_forward_pressed,
            Direction::Backward => self.is_backward_pressed,
            Direction::Left => self.is_left_pressed,
            Direction::Right => self.is_right_pressed,
            Direction::Up => self.is_up_pressed,
            Direction::Down => self.is_down_pressed,
        }
    }

    /// The controller with no key held.
    pub open spec fn released() -> Self {
        CameraController {
            is_forward_pressed: false,
            is_backward_pressed: false,
            is_left_pressed: false,
            is_right_pressed: false,
            is_up_pressed: false,
            is_down_pressed: false,
        }
    }

    /// `self` once `key` has gone down (`is_pressed`) or up: the flag of the
    /// key's direction takes `is_pressed`, the others stay.
    pub open spec fn after_key(self, key: Key, is_pressed: bool) -> Self {
        match direction_of(key) {
            Some(Direction::Forward) => CameraController { is_forward_pressed: is_pressed, ..self },
            Some(Direction::Backward) => CameraController { is_backward_pressed: is_pressed, ..self },
            Some(Direction::Left) => CameraController { is_left_pressed: is_pressed, ..self },
            Some(Direction::Right) => CameraController { is_right_pressed: is_pressed, ..self },
            Some(Direction::Up) => CameraController { is_up_pressed: is_pressed, ..self },
            Some(Direction::Down) => CameraController { is_down_pressed: is_pressed, ..self },
            None => self,
        }
    }

    /// A controller with no key held.
    pub fn new() -> (r: Self)
        ensures
            r == Self::released(),
            forall|d: Direction| !r.pressed(d),
    {
        CameraController {
            is_forward_pressed: false,
            is_backward_pressed: false,
            is_left_pressed: false,
            is_right_pressed: false,
            is_up_pressed: false,
            is_down_pressed: false,
        }
    }

    /// Records a key going down (`is_pressed`) or up. Returns whether the key
    /// controls a direction; only that direction's flag changes.
    pub fn handle_key(&mut self, key: Key, is_pressed: bool) -> (r: bool)
        ensures
            r == direction_of(key).is_some(),
            *final(self) == old(self).after_key(key, is_pressed),
            forall|d: Direction| #[trigger] final(self).pressed(d) == if direction_of(key) == Some(d) {
                is_pressed
            } else {
                old(self).pressed(d)
            },
    {
        match key {
            Key::KeyW | Key::ArrowUp => {
                self.is_forward_pressed = is_pressed;
                true
            },
            Key::KeyS | Key::ArrowDown => {
                self.is_backward_pressed = is_pressed;
                true
            },
            Key::KeyA | Key::ArrowLeft => {
                self.is_left_pressed = is_pressed;
                true
            },
            Key::KeyD | Key::ArrowRight => {
                self.is_right_pressed = is_pressed;
                true
            },
            Key::Space => {
                self.is_up_pressed = is_pressed;
                true
            },
            Key::ShiftLeft | Key::ShiftRight => {
                self.is_down_pressed = is_pressed;
                true
            },
            _ => false,
        }
    }

    /// The steps an update takes from these flags, as `motion` states them.
    pub open spec fn motion_of(self, speed_below_distance: bool) -> Motion {
        Motion {
            advance: self.is_forward_pressed && speed_below_distance,
            retreat: self.is_backward_pressed,
            orbit_right: self.is_right_pressed,
            orbit_left: self.is_left_pressed,
        }
    }

    /// The steps of the next camera update. `speed_below_distance` tells
    /// whether the speed is below the eye's distance to the target: a step
    /// forward is taken only then, so the eye never reaches the target. The
    /// up and down flags take no part.
    pub fn motion(&self, speed_below_distance: bool) -> (r: Motion)
        ensures
            r == self.motion_of(speed_below_distance),
            r.advance == (self.is_forward_pressed && speed_below_distance),
            r.retreat == self.is_backward_pressed,
            r.orbit_right == self.is_right_pressed,
            r.orbit_left == self.is_left_pressed,
    {
        Motion {
            advance: self.is_forward_pressed && speed_below_distance,
            retreat: self.is_backward_pressed,
            orbit_right: self.is_right_pressed,
            orbit_left: self.is_left_pressed,
        }
    }
}

/// The up and down keys never move the camera: two controllers that differ
/// only in those flags take the same steps.
pub proof fn lemma_vertical_keys_do_not_move(a: CameraController, b: CameraController, clear: bool)
    requires
        a.is_forward_pressed == b.is_forward_pressed,
        a.is_backward_pressed == b.is_backward_pressed,
        a.is_left_pressed == b.is_left_pressed,
        a.is_right_pressed == b.is_right_pressed,
    ensures
        a.motion_of(clear) == b.motion_of(clear),
{
}

/// No step towards the target is taken unless the speed is below the
/// distance to it, whatever keys are held.
pub proof fn lemma_advance_needs_room(c: CameraController, speed_below_distance: bool)
    ensures
        c.motion_of(speed_below_distance).advance ==> speed_below_distance,
{
}

} // verus!
