use voxel_frame::events::{
    about_to_wait, device_event, resumed, user_event, App, AppAction, UiCapture, WindowEvent,
    INITIAL_WINDOW_SIZE, MIN_WINDOW_SIZE,
};
use voxel_frame::input::{ElementState, KeyCode, MouseButton};
use voxel_frame::wgpu_ctx::{FrameStep, ResizeStep};

const FREE: UiCapture = UiCapture { keyboard: false, mouse: false };
const CAPTURED: UiCapture = UiCapture { keyboard: true, mouse: true };

#[test]
fn window_is_created_once() {
    assert_eq!(resumed(false), vec![AppAction::CreateWindow, AppAction::RequestRedraw]);
    assert_eq!(resumed(true), vec![AppAction::RequestRedraw]);
    assert_eq!(INITIAL_WINDOW_SIZE, 800);
    assert_eq!(MIN_WINDOW_SIZE, 200);
}

#[test]
fn close_request_exits() {
    let mut app = App::new(800, 800);
    assert_eq!(
        app.window_event(WindowEvent::CloseRequested, FREE),
        vec![AppAction::Exit, AppAction::ForwardToUi]
    );
    assert_eq!(
        app.window_event(WindowEvent::CloseRequested, CAPTURED),
        vec![AppAction::Exit, AppAction::ForwardToUi]
    );
}

#[test]
fn escape_exits_unless_the_interface_has_the_keyboard() {
    let escape = WindowEvent::KeyboardInput {
        escape: true,
        key: Some(KeyCode(1)),
        state: ElementState::Pressed,
    };
    let mut app = App::new(800, 800);
    assert_eq!(app.window_event(escape, FREE), vec![AppAction::Exit, AppAction::ForwardToUi]);
    assert!(app.input_system().is_key_down(KeyCode(1)));

    let mut app = App::new(800, 800);
    assert_eq!(app.window_event(escape, CAPTURED), vec![AppAction::ForwardToUi]);
    assert!(!app.input_system().is_key_down(KeyCode(1)));

    let released = WindowEvent::KeyboardInput {
        escape: true,
        key: Some(KeyCode(1)),
        state: ElementState::Released,
    };
    assert_eq!(app.window_event(released, FREE), vec![AppAction::ForwardToUi]);
}

#[test]
fn keys_and_buttons_reach_the_input_state() {
    let mut app = App::new(800, 800);
    let key = WindowEvent::KeyboardInput {
        escape: false,
        key: Some(KeyCode(42)),
        state: ElementState::Pressed,
    };
    assert_eq!(app.window_event(key, FREE), vec![AppAction::ForwardToUi]);
    assert!(app.input_system().is_key_pressed(KeyCode(42)));
    let unknown =
        WindowEvent::KeyboardInput { escape: false, key: None, state: ElementState::Pressed };
    assert_eq!(app.window_event(unknown, FREE), vec![AppAction::ForwardToUi]);

    let click = WindowEvent::MouseInput { button: MouseButton::Left, state: ElementState::Pressed };
    assert_eq!(
        app.window_event(click, UiCapture { keyboard: false, mouse: true }),
        vec![AppAction::ForwardToUi]
    );
    assert!(!app.input_system().is_mouse_button_down(MouseButton::Left));
    assert_eq!(app.window_event(click, FREE), vec![AppAction::ForwardToUi]);
    assert!(app.input_system().is_mouse_button_pressed(MouseButton::Left));
}

#[test]
fn redraw_updates_draws_and_ends_the_input_frame() {
    let mut app = App::new(800, 800);
    let key = WindowEvent::KeyboardInput {
        escape: false,
        key: Some(KeyCode(42)),
        state: ElementState::Pressed,
    };
    app.window_event(key, FREE);
    let actions = app.window_event(WindowEvent::RedrawRequested, FREE);
    assert_eq!(actions.len(), 4);
    assert_eq!(actions[0], AppAction::UpdateCamera);
    match &actions[1] {
        AppAction::Draw(steps) => {
            assert_eq!(steps.len(), 9);
            assert_eq!(steps[0], FrameStep::AcquireSurface);
            assert_eq!(steps[8], FrameStep::Present);
        }
        other => panic!("expected a frame, got {:?}", other),
    }
    assert_eq!(actions[2], AppAction::EndInputFrame);
    assert_eq!(actions[3], AppAction::ForwardToUi);
    // The edge is still there for the camera update, and gone once the frame is ended.
    assert!(app.input_system().is_key_pressed(KeyCode(42)));
    app.end_input_frame();
    assert!(!app.input_system().is_key_pressed(KeyCode(42)));
    assert!(app.input_system().is_key_down(KeyCode(42)));
}

#[test]
fn resize_rebuilds_sets_the_aspect_and_redraws() {
    let mut app = App::new(800, 800);
    let actions = app.window_event(WindowEvent::Resized { width: 640, height: 0 }, CAPTURED);
    assert_eq!(actions.len(), 4);
    match &actions[0] {
        AppAction::Resize(steps) => {
            assert_eq!(steps.len(), 6);
            assert_eq!(steps[0], ResizeStep::ConfigureSurface { width: 640, height: 1 });
        }
        other => panic!("expected a resize, got {:?}", other),
    }
    assert_eq!(actions[1], AppAction::SetCameraAspect { width: 640, height: 0 });
    assert_eq!(actions[2], AppAction::RequestRedraw);
    assert_eq!(actions[3], AppAction::ForwardToUi);
    assert_eq!((app.wgpu_ctx().width(), app.wgpu_ctx().height()), (640, 1));
    assert_eq!(app.wgpu_ctx().generation(), 1);
}

#[test]
fn cursor_wheel_and_other_events() {
    let mut app = App::new(800, 800);
    assert_eq!(
        app.window_event(WindowEvent::CursorMoved, FREE),
        vec![AppAction::TrackCursor, AppAction::ForwardToUi]
    );
    assert_eq!(app.window_event(WindowEvent::CursorMoved, CAPTURED), vec![AppAction::ForwardToUi]);
    assert_eq!(
        app.window_event(WindowEvent::MouseWheel, CAPTURED),
        vec![AppAction::TrackScroll, AppAction::ForwardToUi]
    );
    assert_eq!(app.window_event(WindowEvent::Other, FREE), vec![AppAction::ForwardToUi]);
}

#[test]
fn events_outside_the_window() {
    assert_eq!(device_event(true), vec![AppAction::TrackMotion, AppAction::ForwardToUi]);
    assert_eq!(device_event(false), vec![AppAction::ForwardToUi]);
    assert_eq!(user_event(), vec![AppAction::ForwardToUi]);
    assert_eq!(about_to_wait(), vec![AppAction::RequestRedraw, AppAction::ForwardToUi]);
}
