use vstd::prelude::*;

use crate::camera_controller::{after_input, after_update, CameraController, CameraUpdate, ControllerView, motion_for};
use crate::input::{InputEvent, Key, KeyState};

verus! {

/// The size of the drawable area, in physical pixels.
#[derive(Clone, Copy, Debug, PartialEq, Eq, Structural)]
pub struct WindowSize {
    pub width: u32,
    pub height: u32,
}

/// What the window loop does after an event.
#[derive(Clone, Copy, Debug, PartialEq, Eq, Structural)]
pub enum Flow {
    /// Go on as before.
    Continue,
    /// The size changed: the drawing surface must be rebuilt for it.
    Resized,
    /// Leave the loop.
    Exit,
}

/// What one frame's update hands to the renderer.
#[derive(Clone, Copy, Debug, PartialEq, Eq, Structural)]
pub struct FrameUpdate {
    /// The change to make to the camera.
    pub camera: CameraUpdate,
    /// Where to put the pointer back: the middle of the window.
    pub cursor_x: u32,
    pub cursor_y: u32,
}

/// True for a size that a surface can be built for: neither side is zero.
pub open spec fn drawable(size: WindowSize) -> bool {
    size.width > 0 && size.height > 0
}

/// True for an event that ends the program: a close request, or Escape going down.
pub open spec fn ends_program(event: InputEvent) -> bool {
    match event {
        InputEvent::CloseRequested => true,
        InputEvent::Keyboard { key: Key::Escape, state: KeyState::Pressed } => true,
        _ => false,
    }
}

/// The abstract state of a window.
pub struct StateView {
    pub size: WindowSize,
    pub controller: ControllerView,
}

/// The window's simulation state: its size and the camera controller.
pub struct State {
    size: WindowSize,
    camera_controller: CameraController,
}

impl View for State {
    type V = StateView;

    closed spec fn view(&self) -> StateView {
        StateView { size: self.size, controller: self.camera_controller@ }
    }
}

impl State {
    pub closed spec fn wf(&self) -> bool {
        self.camera_controller.wf()
    }

    /// The current size of the window.
    pub fn size(&self) -> (r: WindowSize)
        ensures
            r == self@.size,
    {
        self.size
    }

    /// A state for a window of the given size, with a fresh controller.
    pub fn new(size: WindowSize) -> (r: State)
        ensures
            r.wf(),
            r@.size == size,
            r@.controller.press is None,
            r@.controller.pointer == (0int, 0int),
            r@.controller.movement == (0int, 0int),
    {
        State { size, camera_controller: CameraController::new() }
    }

    /// Takes a new size, unless one of its sides is zero; says whether it did.
    pub fn resize(&mut self, new_size: WindowSize) -> (r: bool)
        requires
            old(self).wf(),
        ensures
            final(self).wf(),
            r == drawable(new_size),
            final(self)@.size == (if r { new_size } else { old(self)@.size }),
            final(self)@.controller == old(self)@.controller,
    {
        if new_size.width > 0 && new_size.height > 0 {
            self.size = new_size;
            true
        } else {
            false
        }
    }

    /// Takes in one window event: a close request or Escape ends the program, a
    /// new size is taken, and every other event goes to the camera controller.
    pub fn input(&mut self, event: &InputEvent) -> (r: Flow)
        requires
            old(self).wf(),
        ensures
            final(self).wf(),
            ends_program(*event) ==> r == Flow::Exit && final(self)@ == old(self)@,
            !ends_program(*event) ==> match *event {
                InputEvent::Resized { width, height } => {
                    let size = WindowSize { width, height };
                    &&& r == (if drawable(size) { Flow::Resized } else { Flow::Continue })
                    &&& final(self)@.size == (if drawable(size) { size } else { old(self)@.size })
                    &&& final(self)@.controller == old(self)@.controller
                },
                _ => {
                    &&& r == Flow::Continue
                    &&& final(self)@.size == old(self)@.size
                    &&& final(self)@.controller == after_input(old(self)@.controller, *event)
                },
            },
    {
        match event {
            InputEvent::CloseRequested => Flow::Exit,
            InputEvent::Keyboard { key: Key::Escape, state: KeyState::Pressed } => Flow::Exit,
            InputEvent::Resized { width, height } => {
                if self.resize(WindowSize { width: *width, height: *height }) {
                    Flow::Resized
                } else {
                    Flow::Continue
                }
            },
            _ => {
                self.camera_controller.input(event);
                Flow::Continue
            },
        }
    }

    /// One frame: the camera controller's tick, and the middle of the window
    /// for the pointer to go back to.
    pub fn update(&mut self, room_ahead: bool) -> (r: FrameUpdate)
        requires
            old(self).wf(),
        ensures
            final(self).wf(),
            final(self)@.size == old(self)@.size,
            final(self)@.controller == after_update(old(self)@.controller),
            r.camera.motion == motion_for(old(self)@.controller.press, room_ahead),
            r.camera.look_x == old(self)@.controller.movement.0,
            r.camera.look_y == old(self)@.controller.movement.1,
            r.cursor_x == old(self)@.size.width / 2,
            r.cursor_y == old(self)@.size.height / 2,
    {
        let camera = self.camera_controller.update_camera(room_ahead);
        FrameUpdate { camera, cursor_x: self.size.width / 2, cursor_y: self.size.height / 2 }
    }
}

} // verus!
