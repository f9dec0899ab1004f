use vstd::prelude::*;

use crate::input::{InputEvent, Key, KeyState};

verus! {

/// How many pointer pixels make one unit of look motion: the target moves by
/// `movement / MOUSE_SLOWDOWN` along x and y.
pub const MOUSE_SLOWDOWN: u32 = 100;

/// A direction of travel, relative to the camera frame.
#[derive(Clone, Copy, Debug, PartialEq, Eq, Structural)]
pub enum Direction {
    /// Along the unit vector from eye to target.
    Forward,
    /// Against the unit vector from eye to target.
    Backward,
    /// Along the unit cross product of the forward vector and `up`.
    Right,
    /// Against that cross product.
    Left,
    /// Along the unit `up` vector.
    Up,
    /// Against the unit `up` vector.
    Down,
}

/// What a key asks the camera to do.
#[derive(Clone, Copy, Debug, PartialEq, Eq, Structural)]
pub enum Command {
    /// Travel one step in a direction.
    Move(Direction),
    /// Put the target back at the world origin.
    Reset,
}

/// The last keyboard command seen, with whether its key went down or up.
#[derive(Clone, Copy, Debug, PartialEq, Eq, Structural)]
pub struct ButtonPress {
    pub command: Command,
    pub state: KeyState,
}

/// The discrete change that one tick makes to the camera's eye and target.
///
/// A step is the controller's speed long.
#[derive(Clone, Copy, Debug, PartialEq, Eq, Structural)]
pub enum Motion {
    /// Neither point moves.
    Stay,
    /// The eye takes one step in the direction; the target stays.
    MoveEye(Direction),
    /// Eye and target both take the same step, so the offset between them is kept.
    MoveBoth(Direction),
    /// The target goes back to the origin; the eye stays.
    ResetTarget,
}

/// What one tick hands to the camera: a discrete motion, then the look motion
/// in pointer pixels (the target's x grows by `look_x / MOUSE_SLOWDOWN`, its y
/// shrinks by `look_y / MOUSE_SLOWDOWN`).
#[derive(Clone, Copy, Debug, PartialEq, Eq, Structural)]
pub struct CameraUpdate {
    pub motion: Motion,
    pub look_x: i64,
    pub look_y: i64,
}

/// The abstract state of a controller.
pub struct ControllerView {
    /// The latched keyboard command, if any key event was seen.
    pub press: Option<ButtonPress>,
    /// The last pointer position seen.
    pub pointer: (int, int),
    /// Pointer motion summed since the last tick.
    pub movement: (int, int),
}

/// The command that a key stands for, if any.
pub open spec fn command_of(key: Key) -> Option<Command> {
    match key {
        Key::W => Some(Command::Move(Direction::Forward)),
        Key::A => Some(Command::Move(Direction::Left)),
        Key::S => Some(Command::Move(Direction::Backward)),
        Key::D => Some(Command::Move(Direction::Right)),
        Key::Space => Some(Command::Move(Direction::Up)),
        Key::LShift => Some(Command::Move(Direction::Down)),
        Key::Return => Some(Command::Reset),
        _ => None,
    }
}

/// The controller after it has seen one event: a recognised key replaces the
/// latched command, a pointer move adds its displacement to the sum.
pub open spec fn after_input(v: ControllerView, event: InputEvent) -> ControllerView {
    match event {
        InputEvent::Keyboard { key, state } => match command_of(key) {
            Some(command) => ControllerView {
                press: Some(ButtonPress { command, state }),
                ..v
            },
            None => v,
        },
        InputEvent::CursorMoved { x, y } => ControllerView {
            pointer: (x as int, y as int),
            movement: (v.movement.0 + (x - v.pointer.0), v.movement.1 + (y - v.pointer.1)),
            ..v
        },
        _ => v,
    }
}

/// The motion of one tick. `room_ahead` says whether the eye is farther from
/// the target than one step; a forward step is taken only then.
pub open spec fn motion_for(press: Option<ButtonPress>, room_ahead: bool) -> Motion {
    match press {
        Some(ButtonPress { command, state: KeyState::Pressed }) => match command {
            Command::Move(Direction::Forward) => if room_ahead {
                Motion::MoveEye(Direction::Forward)
            } else {
                Motion::Stay
            },
            Command::Move(Direction::Backward) => Motion::MoveEye(Direction::Backward),
            Command::Move(d) => Motion::MoveBoth(d),
            Command::Reset => Motion::ResetTarget,
        },
        _ => Motion::Stay,
    }
}

/// The controller after a tick: the command stays latched, the summed pointer
/// motion is consumed.
pub open spec fn after_update(v: ControllerView) -> ControllerView {
    ControllerView { movement: (0, 0), ..v }
}

/// The command that a key stands for, if any.
pub fn command_for_key(key: Key) -> (r: Option<Command>)
    ensures
        r == command_of(key),
{
    match key {
        Key::W => Some(Command::Move(Direction::Forward)),
        Key::A => Some(Command::Move(Direction::Left)),
        Key::S => Some(Command::Move(Direction::Backward)),
        Key::D => Some(Command::Move(Direction::Right)),
        Key::Space => Some(Command::Move(Direction::Up)),
        Key::LShift => Some(Command::Move(Direction::Down)),
        Key::Return => Some(Command::Reset),
        _ => None,
    }
}

/// The motion of one tick for a latched command; see `motion_for`.
pub fn motion_of(press: Option<ButtonPress>, room_ahead: bool) -> (r: Motion)
    ensures
        r == motion_for(press, room_ahead),
{
    match press {
        Some(ButtonPress { command, state: KeyState::Pressed }) => match command {
            Command::Move(Direction::Forward) => if room_ahead {
                Motion::MoveEye(Direction::Forward)
            } else {
                Motion::Stay
            },
            Command::Move(Direction::Backward) => Motion::MoveEye(Direction::Backward),
            Command::Move(d) => Motion::MoveBoth(d),
            Command::Reset => Motion::ResetTarget,
        },
        _ => Motion::Stay,
    }
}

/// Turns keyboard and pointer events into camera motion, one tick at a time.
pub struct CameraController {
    button_press: Option<ButtonPress>,
    old_mouse_x: i32,
    old_mouse_y: i32,
    mouse_movement_x: i64,
    mouse_movement_y: i64,
    /// The pointer position at the last tick; the summed motion is the way
    /// from there to the last position seen.
    anchor: Ghost<(int, int)>,
}

impl View for CameraController {
    type V = ControllerView;

    closed spec fn view(&self) -> ControllerView {
        ControllerView {
            press: self.button_press,
            pointer: (self.old_mouse_x as int, self.old_mouse_y as int),
            movement: (self.mouse_movement_x as int, self.mouse_movement_y as int),
        }
    }
}

impl CameraController {
    /// The summed motion is the way from the anchor to the last pointer
    /// position, and the anchor is a pixel position: so the sum always fits.
    pub closed spec fn wf(&self) -> bool {
        &&& i32::MIN <= self.anchor@.0 <= i32::MAX
        &&& i32::MIN <= self.anchor@.1 <= i32::MAX
        &&& self.mouse_movement_x == self.old_mouse_x - self.anchor@.0
        &&& self.mouse_movement_y == self.old_mouse_y - self.anchor@.1
    }

    /// A controller with no command latched, the pointer at the origin and no
    /// motion summed.
    pub fn new() -> (r: CameraController)
        ensures
            r.wf(),
            r@.press is None,
            r@.pointer == (0int, 0int),
            r@.movement == (0int, 0int),
    {
        CameraController {
            button_press: None,
            old_mouse_x: 0,
            old_mouse_y: 0,
            mouse_movement_x: 0,
            mouse_movement_y: 0,
            anchor: Ghost((0, 0)),
        }
    }

    /// Takes in one window event.
    pub fn input(&mut self, event: &InputEvent)
        requires
            old(self).wf(),
        ensures
            final(self).wf(),
            final(self)@ == after_input(old(self)@, *event),
    {
        match event {
            InputEvent::Keyboard { key, state } => {
                match command_for_key(*key) {
                    Some(command) => {
                        self.button_press = Some(ButtonPress { command, state: *state });
                    },
                    None => {},
                }
            },
            InputEvent::CursorMoved { x, y } => {
                // The sum telescopes to the way from the anchor to the new
                // position, which fits.
                self.mouse_movement_x = self.mouse_movement_x + (*x as i64 - self.old_mouse_x as i64);
                self.mouse_movement_y = self.mouse_movement_y + (*y as i64 - self.old_mouse_y as i64);
                self.old_mouse_x = *x;
                self.old_mouse_y = *y;
            },
            _ => {},
        }
    }

    /// One tick: the motion that the latched command asks for, then the
    /// pointer motion summed since the last tick, which is then reset.
    pub fn update_camera(&mut self, room_ahead: bool) -> (r: CameraUpdate)
        requires
            old(self).wf(),
        ensures
            final(self).wf(),
            final(self)@ == after_update(old(self)@),
            r.motion == motion_for(old(self)@.press, room_ahead),
            r.look_x == old(self)@.movement.0,
            r.look_y == old(self)@.movement.1,
    {
        let r = CameraUpdate {
            motion: motion_of(self.button_press, room_ahead),
            look_x: self.mouse_movement_x,
            look_y: self.mouse_movement_y,
        };
        self.mouse_movement_x = 0;
        self.mouse_movement_y = 0;
        self.anchor = Ghost((self.old_mouse_x as int, self.old_mouse_y as int));
        r
    }

    /// The latched command, if any.
    pub fn button_press(&self) -> (r: Option<ButtonPress>)
        ensures
            r == self@.press,
    {
        self.button_press
    }

    /// The pointer motion summed since the last tick.
    pub fn mouse_movement(&self) -> (r: (i64, i64))
        ensures
            r.0 == self@.movement.0,
            r.1 == self@.movement.1,
    {
        (self.mouse_movement_x, self.mouse_movement_y)
    }

    /// The last pointer position seen.
    pub fn last_pointer(&self) -> (r: (i32, i32))
        ensures
            r.0 == self@.pointer.0,
            r.1 == self@.pointer.1,
    {
        (self.old_mouse_x, self.old_mouse_y)
    }
}

/// True when no command is latched, or the latched one's key came up: no
/// discrete motion is pending.
pub open spec fn nothing_pressed(press: Option<ButtonPress>) -> bool {
    match press {
        Some(p) => p.state == KeyState::Released,
        None => true,
    }
}

/// With no pressed command and no pointer motion, a tick moves nothing and
/// leaves the controller as it was.
pub proof fn lemma_idle_tick(v: ControllerView, room_ahead: bool)
    requires
        nothing_pressed(v.press),
        v.movement == (0int, 0int),
    ensures
        motion_for(v.press, room_ahead) == Motion::Stay,
        after_update(v) == v,
{
}

/// A pressed forward command moves the eye one step towards the target, and
/// leaves the target, when there is room for the step; otherwise nothing moves.
pub proof fn lemma_forward_step(v: ControllerView, room_ahead: bool)
    requires
        v.press == Some(ButtonPress { command: Command::Move(Direction::Forward), state: KeyState::Pressed }),
    ensures
        room_ahead ==> motion_for(v.press, room_ahead) == Motion::MoveEye(Direction::Forward),
        !room_ahead ==> motion_for(v.press, room_ahead) == Motion::Stay,
{
}

/// A pressed sideways or vertical command moves eye and target by the same
/// step, so the offset between them is kept whatever the room ahead.
pub proof fn lemma_strafe_keeps_offset(v: ControllerView, d: Direction, room_ahead: bool)
    requires
        d != Direction::Forward,
        d != Direction::Backward,
        v.press == Some(ButtonPress { command: Command::Move(d), state: KeyState::Pressed }),
    ensures
        motion_for(v.press, room_ahead) == Motion::MoveBoth(d),
{
}

/// A pressed reset puts the target back at the origin and moves no eye,
/// whatever the state before.
pub proof fn lemma_reset_target(v: ControllerView, room_ahead: bool)
    requires
        v.press == Some(ButtonPress { command: Command::Reset, state: KeyState::Pressed }),
    ensures
        motion_for(v.press, room_ahead) == Motion::ResetTarget,
{
}

/// A tick consumes the summed pointer motion: right after it nothing is left
/// to look with, a second tick hands out no look motion, and the latched
/// command is kept.
pub proof fn lemma_look_consumed(v: ControllerView)
    ensures
        after_update(v).movement == (0int, 0int),
        after_update(v).press == v.press,
        after_update(v).pointer == v.pointer,
        after_update(after_update(v)) == after_update(v),
{
}

/// Pointer moves between two ticks add up: the sum grows by the way from the
/// last position seen to the newest one.
pub proof fn lemma_pointer_moves_add_up(v: ControllerView, x1: i32, y1: i32, x2: i32, y2: i32)
    ensures
        ({
            let w = after_input(
                after_input(v, InputEvent::CursorMoved { x: x1, y: y1 }),
                InputEvent::CursorMoved { x: x2, y: y2 },
            );
            &&& w.movement == (v.movement.0 + (x2 - v.pointer.0), v.movement.1 + (y2 - v.pointer.1))
            &&& w.pointer == (x2 as int, y2 as int)
            &&& w.press == v.press
        }),
{
}

/// Only the latest recognised key event counts: it replaces the latched
/// command, with its own state, and nothing of the one before is kept.
pub proof fn lemma_latest_key_wins(v: ControllerView, k1: Key, s1: KeyState, k2: Key, s2: KeyState)
    requires
        command_of(k2) is Some,
    ensures
        after_input(
            after_input(v, InputEvent::Keyboard { key: k1, state: s1 }),
            InputEvent::Keyboard { key: k2, state: s2 },
        ).press == Some(ButtonPress { command: command_of(k2)->0, state: s2 }),
{
}

/// A key that goes down and comes up again before the tick leaves no motion for
/// that tick; going down alone latches its command as pressed.
pub proof fn lemma_release_before_tick(v: ControllerView, key: Key, room_ahead: bool)
    requires
        command_of(key) is Some,
    ensures
        ({
            let pressed = after_input(v, InputEvent::Keyboard { key, state: KeyState::Pressed });
            let released = after_input(pressed, InputEvent::Keyboard { key, state: KeyState::Released });
            &&& pressed.press == Some(ButtonPress { command: command_of(key)->0, state: KeyState::Pressed })
            &&& motion_for(released.press, room_ahead) == Motion::Stay
        }),
{
}

} // verus!
