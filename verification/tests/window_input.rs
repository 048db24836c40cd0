use pony_renderer::window_input::{WindowAction, WindowEvent, WindowInput, WindowKey};

#[test]
fn window_events_close_release_and_switch_cameras() {
    let mut input = WindowInput::new();
    input.focused = true;
    assert_eq!(input.handle(WindowEvent::Key { key: WindowKey::Tab, pressed: true }), WindowAction::Nothing);
    assert!(input.use_secondary_camera);
    assert_eq!(input.handle(WindowEvent::Key { key: WindowKey::Tab, pressed: false }), WindowAction::Nothing);
    assert!(input.use_secondary_camera);
    assert_eq!(input.handle(WindowEvent::Key { key: WindowKey::Tab, pressed: true }), WindowAction::Nothing);
    assert!(!input.use_secondary_camera);
    assert_eq!(input.handle(WindowEvent::Key { key: WindowKey::Escape, pressed: true }), WindowAction::ReleaseCursor);
    assert!(!input.focused);
    assert_eq!(
        input.handle(WindowEvent::Resized { width: 640, height: 480 }),
        WindowAction::Resize { width: 640, height: 480 }
    );
    assert_eq!(input.handle(WindowEvent::RedrawRequested), WindowAction::Redraw);
    assert_eq!(input.handle(WindowEvent::CloseRequested), WindowAction::Exit);
}
