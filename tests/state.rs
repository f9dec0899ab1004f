use fly_camera::camera_controller::{Direction, Motion};
use fly_camera::input::{InputEvent, Key, KeyState};
use fly_camera::state::{Flow, State, WindowSize};

fn size(width: u32, height: u32) -> WindowSize {
    WindowSize { width, height }
}

#[test]
fn new_state_keeps_size() {
    let s = State::new(size(800, 600));
    assert_eq!(s.size(), size(800, 600));
}

#[test]
fn close_request_exits() {
    let mut s = State::new(size(800, 600));
    assert_eq!(s.input(&InputEvent::CloseRequested), Flow::Exit);
}

#[test]
fn escape_press_exits_release_does_not() {
    let mut s = State::new(size(800, 600));
    let esc = |state| InputEvent::Keyboard { key: Key::Escape, state };
    assert_eq!(s.input(&esc(KeyState::Released)), Flow::Continue);
    assert_eq!(s.input(&esc(KeyState::Pressed)), Flow::Exit);
}

#[test]
fn resize_takes_nonzero_sizes_only() {
    let mut s = State::new(size(800, 600));
    assert!(!s.resize(size(0, 600)));
    assert!(!s.resize(size(800, 0)));
    assert_eq!(s.size(), size(800, 600));
    assert!(s.resize(size(1024, 768)));
    assert_eq!(s.size(), size(1024, 768));
}

#[test]
fn resize_event_reports_rebuild() {
    let mut s = State::new(size(800, 600));
    assert_eq!(s.input(&InputEvent::Resized { width: 0, height: 0 }), Flow::Continue);
    assert_eq!(s.size(), size(800, 600));
    assert_eq!(s.input(&InputEvent::Resized { width: 640, height: 480 }), Flow::Resized);
    assert_eq!(s.size(), size(640, 480));
}

#[test]
fn update_recentres_pointer_and_ticks_camera() {
    let mut s = State::new(size(801, 600));
    assert_eq!(
        s.input(&InputEvent::Keyboard { key: Key::Space, state: KeyState::Pressed }),
        Flow::Continue
    );
    assert_eq!(s.input(&InputEvent::CursorMoved { x: 12, y: 7 }), Flow::Continue);
    let f = s.update(true);
    assert_eq!((f.cursor_x, f.cursor_y), (400, 300));
    assert_eq!(f.camera.motion, Motion::MoveBoth(Direction::Up));
    assert_eq!((f.camera.look_x, f.camera.look_y), (12, 7));
    let f = s.update(true);
    assert_eq!((f.camera.look_x, f.camera.look_y), (0, 0));
}

#[test]
fn events_after_exit_request_are_untouched() {
    let mut s = State::new(size(800, 600));
    s.input(&InputEvent::Keyboard { key: Key::W, state: KeyState::Pressed });
    assert_eq!(s.input(&InputEvent::CloseRequested), Flow::Exit);
    assert_eq!(s.update(true).camera.motion, Motion::MoveEye(Direction::Forward));
}
