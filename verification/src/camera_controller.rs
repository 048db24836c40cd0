//! Which movement keys are held: the part of camera control that does not
//! depend on speeds and angles.
use vstd::prelude::*;

verus! {

/// The keys the camera controller knows, and all the others.
#[derive(Clone, Copy, Debug, PartialEq, Eq, Structural)]
pub enum KeyCode {
    KeyW,
    ArrowUp,
    KeyS,
    ArrowDown,
    KeyA,
    ArrowLeft,
    KeyD,
    ArrowRight,
    Space,
    ShiftLeft,
    Other,
}

/// A direction the camera can move in.
#[derive(Clone, Copy, Debug, PartialEq, Eq, Structural)]
pub enum Movement {
    Forward,
    Backward,
    Left,
    Right,
    Up,
    Down,
}

/// The direction a key moves the camera in, if any.
pub open spec fn movement_of(key: KeyCode) -> Option<Movement> {
    match key {
        KeyCode::KeyW | KeyCode::ArrowUp => Some(Movement::Forward),
        KeyCode::KeyS | KeyCode::ArrowDown => Some(Movement::Backward),
        KeyCode::KeyA | KeyCode::ArrowLeft => Some(Movement::Left),
        KeyCode::KeyD | KeyCode::ArrowRight => Some(Movement::Right),
        KeyCode::Space => Some(Movement::Up),
        KeyCode::ShiftLeft => Some(Movement::Down),
        KeyCode::Other => None,
    }
}

/// The direction a key moves the camera in, if any.
pub fn movement_for_key(key: KeyCode) -> (movement: Option<Movement>)
    ensures
        movement == movement_of(key),
{
    match key {
        KeyCode::KeyW | KeyCode::ArrowUp => Some(Movement::Forward),
        KeyCode::KeyS | KeyCode::ArrowDown => Some(Movement::Backward),
        KeyCode::KeyA | KeyCode::ArrowLeft => Some(Movement::Left),
        KeyCode::KeyD | KeyCode::ArrowRight => Some(Movement::Right),
        KeyCode::Space => Some(Movement::Up),
        KeyCode::ShiftLeft => Some(Movement::Down),
        KeyCode::Other => None,
    }
}

/// Which movement directions are held.
#[derive(Clone, Copy, Debug, PartialEq, Eq, Structural)]
pub struct MovementInput {
    pub forward: bool,
    pub backward: bool,
    pub left: bool,
    pub right: bool,
    pub up: bool,
    pub down: bool,
}

/// The held directions after the key for `movement` is pressed or released.
pub open spec fn with_movement(input: MovementInput, movement: Movement, pressed: bool) -> MovementInput {
    match movement {
        Movement::Forward => MovementInput { forward: pressed, ..input },
        Movement::Backward => MovementInput { backward: pressed, ..input },
        Movement::Left => MovementInput { left: pressed, ..input },
        Movement::Right => MovementInput { right: pressed, ..input },
        Movement::Up => MovementInput { up: pressed, ..input },
        Movement::Down => MovementInput { down: pressed, ..input },
    }
}

/// One held direction against its opposite: 1, 0 or -1.
pub open spec fn axis_of(positive: bool, negative: bool) -> i8 {
    (if positive {
        1int
    } else {
        0int
    } - if negative {
        1int
    } else {
        0int
    }) as i8
}

/// The held directions after `key` goes down (`pressed`) or up.
pub open spec fn after_key(input: MovementInput, key: KeyCode, pressed: bool) -> MovementInput {
    match movement_of(key) {
        Some(movement) => with_movement(input, movement, pressed),
        None => input,
    }
}

/// Each movement key moves the camera one fixed way: W and the up arrow
/// forward, S and the down arrow backward, A and the left arrow left, D and
/// the right arrow right, space up and left shift down; no other key moves
/// it.
pub proof fn lemma_key_directions()
    ensures
        movement_of(KeyCode::KeyW) == Some(Movement::Forward),
        movement_of(KeyCode::ArrowUp) == Some(Movement::Forward),
        movement_of(KeyCode::KeyS) == Some(Movement::Backward),
        movement_of(KeyCode::ArrowDown) == Some(Movement::Backward),
        movement_of(KeyCode::KeyA) == Some(Movement::Left),
        movement_of(KeyCode::ArrowLeft) == Some(Movement::Left),
        movement_of(KeyCode::KeyD) == Some(Movement::Right),
        movement_of(KeyCode::ArrowRight) == Some(Movement::Right),
        movement_of(KeyCode::Space) == Some(Movement::Up),
        movement_of(KeyCode::ShiftLeft) == Some(Movement::Down),
        movement_of(KeyCode::Other) is None,
{
}

/// A key sets exactly the held flag of its own direction and leaves the
/// others; on its own, a key held down moves the camera along its axis in
/// its direction: S or the down arrow reads -1 on the forward axis, W or the
/// up arrow +1, and so on for the other axes.
pub proof fn lemma_key_sets_its_own_direction(input: MovementInput, key: KeyCode, pressed: bool)
    ensures
        after_key(input, key, pressed).forward == if key == KeyCode::KeyW || key == KeyCode::ArrowUp {
            pressed
        } else {
            input.forward
        },
        after_key(input, key, pressed).backward == if key == KeyCode::KeyS || key == KeyCode::ArrowDown {
            pressed
        } else {
            input.backward
        },
        after_key(input, key, pressed).left == if key == KeyCode::KeyA || key == KeyCode::ArrowLeft {
            pressed
        } else {
            input.left
        },
        after_key(input, key, pressed).right == if key == KeyCode::KeyD || key == KeyCode::ArrowRight {
            pressed
        } else {
            input.right
        },
        after_key(input, key, pressed).up == if key == KeyCode::Space {
            pressed
        } else {
            input.up
        },
        after_key(input, key, pressed).down == if key == KeyCode::ShiftLeft {
            pressed
        } else {
            input.down
        },
        ({
            let held = after_key(input, key, true);
            let none = !input.forward && !input.backward && !input.left && !input.right && !input.up
                && !input.down;
            none ==> {
                &&& (key == KeyCode::KeyS || key == KeyCode::ArrowDown) ==> axis_of(held.forward, held.backward) == -1
                &&& (key == KeyCode::KeyW || key == KeyCode::ArrowUp) ==> axis_of(held.forward, held.backward) == 1
                &&& (key == KeyCode::KeyA || key == KeyCode::ArrowLeft) ==> axis_of(held.right, held.left) == -1
                &&& (key == KeyCode::KeyD || key == KeyCode::ArrowRight) ==> axis_of(held.right, held.left) == 1
                &&& key == KeyCode::Space ==> axis_of(held.up, held.down) == 1
                &&& key == KeyCode::ShiftLeft ==> axis_of(held.up, held.down) == -1
            }
        }),
{
}

/// Of two events for the same direction, the later one decides: a key
/// released after it was pressed leaves the direction as if only the
/// release had come.
pub proof fn lemma_last_key_event_wins(input: MovementInput, movement: Movement, first: bool, second: bool)
    ensures
        with_movement(with_movement(input, movement, first), movement, second) == with_movement(
            input,
            movement,
            second,
        ),
{
}

/// Events for different directions do not touch each other: they can come
/// in either order.
pub proof fn lemma_directions_are_independent(
    input: MovementInput,
    a: Movement,
    pressed_a: bool,
    b: Movement,
    pressed_b: bool,
)
    requires
        a != b,
    ensures
        with_movement(with_movement(input, a, pressed_a), b, pressed_b) == with_movement(
            with_movement(input, b, pressed_b),
            a,
            pressed_a,
        ),
{
}

impl MovementInput {
    /// Nothing held.
    pub fn new() -> (input: MovementInput)
        ensures
            input == (MovementInput {
                forward: false,
                backward: false,
                left: false,
                right: false,
                up: false,
                down: false,
            }),
    {
        MovementInput { forward: false, backward: false, left: false, right: false, up: false, down: false }
    }

    /// Records a key going down (`pressed`) or up. Returns whether the key
    /// moves the camera; other keys change nothing.
    pub fn process_keyboard(&mut self, key: KeyCode, pressed: bool) -> (handled: bool)
        ensures
            handled == (movement_of(key) is Some),
            *final(self) == match movement_of(key) {
                Some(movement) => with_movement(*old(self), movement, pressed),
                None => *old(self),
            },
            *final(self) == after_key(*old(self), key, pressed),
    {
        match movement_for_key(key) {
            Some(Movement::Forward) => {
                self.forward = pressed;
                true
            },
            Some(Movement::Backward) => {
                self.backward = pressed;
                true
            },
            Some(Movement::Left) => {
                self.left = pressed;
                true
            },
            Some(Movement::Right) => {
                self.right = pressed;
                true
            },
            Some(Movement::Up) => {
                self.up = pressed;
                true
            },
            Some(Movement::Down) => {
                self.down = pressed;
                true
            },
            None => false,
        }
    }

    /// Forward against backward.
    pub fn forward_axis(&self) -> (axis: i8)
        ensures
            axis == axis_of(self.forward, self.backward),
    {
        axis(self.forward, self.backward)
    }

    /// Right against left.
    pub fn right_axis(&self) -> (axis: i8)
        ensures
            axis == axis_of(self.right, self.left),
    {
        axis(self.right, self.left)
    }

    /// Up against down.
    pub fn up_axis(&self) -> (axis: i8)
        ensures
            axis == axis_of(self.up, self.down),
    {
        axis(self.up, self.down)
    }
}

/// One held direction against its opposite: 1, 0 or -1.
fn axis(positive: bool, negative: bool) -> (axis: i8)
    ensures
        axis == axis_of(positive, negative),
{
    let p: i8 = if positive {
        1
    } else {
        0
    };
    let n: i8 = if negative {
        1
    } else {
        0
    };
    p - n
}

} // verus!
