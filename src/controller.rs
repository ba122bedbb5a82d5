use vstd::prelude::*;

verus! {

/// The keys the viewer tells apart; every other key arrives as `Other`.
#[derive(Clone, Copy, Debug, PartialEq, Eq, Structural)]
pub enum Key {
    W,
    A,
    S,
    D,
    Up,
    Down,
    Left,
    Right,
    Space,
    LShift,
    Escape,
    Other,
}

/// One of the six binary motion inputs of the controller.
#[derive(Clone, Copy, Debug, PartialEq, Eq, Structural)]
pub enum Motion {
    Forward,
    Backward,
    Left,
    Right,
    Up,
    Down,
}

/// The motion a key drives: WASD and the arrows move in the plane, Space lifts,
/// left Shift lowers; any other key drives none.
pub open spec fn key_motion(key: Key) -> Option<Motion> {
    match key {
        Key::W | Key::Up => Some(Motion::Forward),
        Key::S | Key::Down => Some(Motion::Backward),
        Key::A | Key::Left => Some(Motion::Left),
        Key::D | Key::Right => Some(Motion::Right),
        Key::Space => Some(Motion::Up),
        Key::LShift => Some(Motion::Down),
        _ => None,
    }
}

/// The amount a held (1) or released (0) motion input contributes.
pub open spec fn amount(held: bool) -> int {
    if held {
        1
    } else {
        0
    }
}

/// Net amount along one axis: the positive input minus the negative one.
pub open spec fn axis(positive: bool, negative: bool) -> int {
    amount(positive) - amount(negative)
}

/// Abstract state of a `CameraController`.
pub ghost struct ControllerView {
    pub forward: bool,
    pub backward: bool,
    pub left: bool,
    pub right: bool,
    pub up: bool,
    pub down: bool,
    pub rotate_horizontal: int,
    pub rotate_vertical: int,
    pub pointer_x: int,
    pub pointer_y: int,
}

impl ControllerView {
    /// Nothing held, no pending rotation, pointer at the origin.
    pub open spec fn initial() -> ControllerView {
        ControllerView {
            forward: false,
            backward: false,
            left: false,
            right: false,
            up: false,
            down: false,
            rotate_horizontal: 0,
            rotate_vertical: 0,
            pointer_x: 0,
            pointer_y: 0,
        }
    }

    pub open spec fn held(self, m: Motion) -> bool {
        match m {
            Motion::Forward => self.forward,
            Motion::Backward => self.backward,
            Motion::Left => self.left,
            Motion::Right => self.right,
            Motion::Up => self.up,
            Motion::Down => self.down,
        }
    }

    /// The same state with motion `m` set to `held`.
    pub open spec fn with_motion(self, m: Motion, held: bool) -> ControllerView {
        match m {
            Motion::Forward => ControllerView { forward: held, ..self },
            Motion::Backward => ControllerView { backward: held, ..self },
            Motion::Left => ControllerView { left: held, ..self },
            Motion::Right => ControllerView { right: held, ..self },
            Motion::Up => ControllerView { up: held, ..self },
            Motion::Down => ControllerView { down: held, ..self },
        }
    }

    /// State after a press (`pressed`) or release of `key`.
    pub open spec fn after_key(self, key: Key, pressed: bool) -> ControllerView {
        match key_motion(key) {
            Some(m) => self.with_motion(m, pressed),
            None => self,
        }
    }

    /// State after the pointer is seen at `(x, y)`: the pending rotation becomes
    /// the offset from the last seen position, which is then replaced.
    pub open spec fn after_pointer(self, x: int, y: int) -> ControllerView {
        ControllerView {
            rotate_horizontal: x - self.pointer_x,
            rotate_vertical: y - self.pointer_y,
            pointer_x: x,
            pointer_y: y,
            ..self
        }
    }

    /// State after a frame has consumed the pending rotation.
    pub open spec fn drained(self) -> ControllerView {
        ControllerView { rotate_horizontal: 0, rotate_vertical: 0, ..self }
    }
}

/// What one frame integrates: the net amount along each motion axis and the
/// pointer offset to turn by.
#[derive(Clone, Copy, Debug, PartialEq, Eq, Structural)]
pub struct CameraStep {
    /// Forward minus backward.
    pub forward: i8,
    /// Right minus left.
    pub right: i8,
    /// Up minus down.
    pub up: i8,
    /// Horizontal pointer offset, turned into yaw.
    pub rotate_horizontal: i64,
    /// Vertical pointer offset, turned into pitch.
    pub rotate_vertical: i64,
}

/// Net amount of two motion inputs, as stored in a `CameraStep`.
fn net_amount(positive: bool, negative: bool) -> (r: i8)
    ensures
        r as int == axis(positive, negative),
{
    let p: i8 = if positive { 1 } else { 0 };
    let n: i8 = if negative { 1 } else { 0 };
    p - n
}

/// Seeing the pointer twice at the same position leaves no rotation pending.
pub proof fn lemma_same_pointer_twice_no_rotation(s: ControllerView, x: int, y: int)
    ensures
        s.after_pointer(x, y).after_pointer(x, y).rotate_horizontal == 0,
        s.after_pointer(x, y).after_pointer(x, y).rotate_vertical == 0,
{
}

/// Maps key and pointer events to the motion and rotation a frame integrates.
#[derive(Debug)]
pub struct CameraController {
    amount_forward: bool,
    amount_backward: bool,
    amount_left: bool,
    amount_right: bool,
    amount_up: bool,
    amount_down: bool,
    rotate_horizontal: i64,
    rotate_vertical: i64,
    last_pointer: (i32, i32),
}

impl View for CameraController {
    type V = ControllerView;

    closed spec fn view(&self) -> ControllerView {
        ControllerView {
            forward: self.amount_forward,
            backward: self.amount_backward,
            left: self.amount_left,
            right: self.amount_right,
            up: self.amount_up,
            down: self.amount_down,
            rotate_horizontal: self.rotate_horizontal as int,
            rotate_vertical: self.rotate_vertical as int,
            pointer_x: self.last_pointer.0 as int,
            pointer_y: self.last_pointer.1 as int,
        }
    }
}

impl CameraController {
    pub fn new() -> (c: CameraController)
        ensures
            c@ == ControllerView::initial(),
    {
        CameraController {
            amount_forward: false,
            amount_backward: false,
            amount_left: false,
            amount_right: false,
            amount_up: false,
            amount_down: false,
            rotate_horizontal: 0,
            rotate_vertical: 0,
            last_pointer: (0, 0),
        }
    }

    /// The last position the pointer was seen at.
    pub fn last_pointer(&self) -> (p: (i32, i32))
        ensures
            p.0 as int == self@.pointer_x,
            p.1 as int == self@.pointer_y,
    {
        self.last_pointer
    }

    /// Sets the motion that `key` drives to held (`pressed`) or released.
    /// Returns whether the key drives a motion; any other key changes nothing.
    pub fn process_keyboard(&mut self, key: Key, pressed: bool) -> (recognized: bool)
        ensures
            recognized == key_motion(key).is_some(),
            final(self)@ == old(self)@.after_key(key, pressed),
    {
        match key {
            Key::W | Key::Up => {
                self.amount_forward = pressed;
                true
            },
            Key::S | Key::Down => {
                self.amount_backward = pressed;
                true
            },
            Key::A | Key::Left => {
                self.amount_left = pressed;
                true
            },
            Key::D | Key::Right => {
                self.amount_right = pressed;
                true
            },
            Key::Space => {
                self.amount_up = pressed;
                true
            },
            Key::LShift => {
                self.amount_down = pressed;
                true
            },
            _ => false,
        }
    }

    /// Records the pointer at `pointer`: the pending rotation becomes its offset
    /// from the last seen position, and `pointer` becomes the last seen position.
    pub fn process_mouse(&mut self, pointer: (i32, i32))
        ensures
            final(self)@ == old(self)@.after_pointer(pointer.0 as int, pointer.1 as int),
    {
        self.rotate_horizontal = pointer.0 as i64 - self.last_pointer.0 as i64;
        self.rotate_vertical = pointer.1 as i64 - self.last_pointer.1 as i64;
        self.last_pointer = pointer;
    }

    /// Takes this frame's step and clears the pending rotation, whether or not a
    /// pointer event arrived since the last frame.
    pub fn update_camera(&mut self) -> (step: CameraStep)
        ensures
            step.forward as int == axis(old(self)@.forward, old(self)@.backward),
            step.right as int == axis(old(self)@.right, old(self)@.left),
            step.up as int == axis(old(self)@.up, old(self)@.down),
            step.rotate_horizontal as int == old(self)@.rotate_horizontal,
            step.rotate_vertical as int == old(self)@.rotate_vertical,
            final(self)@ == old(self)@.drained(),
    {
        let step = CameraStep {
            forward: net_amount(self.amount_forward, self.amount_backward),
            right: net_amount(self.amount_right, self.amount_left),
            up: net_amount(self.amount_up, self.amount_down),
            rotate_horizontal: self.rotate_horizontal,
            rotate_vertical: self.rotate_vertical,
        };
        self.rotate_horizontal = 0;
        self.rotate_vertical = 0;
        step
    }
}

} // verus!
