//! What the renderer's window does with the events it receives: closing,
//! releasing the cursor, switching between the main and the secondary
//! camera, resizing and redrawing.
use vstd::prelude::*;

verus! {

/// What the window event handling remembers between events.
#[derive(Clone, Copy, Debug, PartialEq, Eq, Structural)]
pub struct WindowInput {
    /// Whether the window holds the cursor, so that mouse motion turns the
    /// camera.
    pub focused: bool,
    /// Whether the keys steer the secondary camera.
    pub use_secondary_camera: bool,
}

/// The keys the window reacts to, and all the others.
#[derive(Clone, Copy, Debug, PartialEq, Eq, Structural)]
pub enum WindowKey {
    Escape,
    Tab,
    Other,
}

/// A window event, as far as the handling looks at it.
#[derive(Clone, Copy, Debug, PartialEq, Eq, Structural)]
pub enum WindowEvent {
    Resized { width: u32, height: u32 },
    CloseRequested,
    /// A key went down (`pressed`) or up.
    Key { key: WindowKey, pressed: bool },
    RedrawRequested,
    Other,
}

/// What the window does about an event.
#[derive(Clone, Copy, Debug, PartialEq, Eq, Structural)]
pub enum WindowAction {
    /// Resize the render targets and the camera.
    Resize { width: u32, height: u32 },
    /// Leave the event loop.
    Exit,
    /// Release the cursor and show it.
    ReleaseCursor,
    /// Draw a frame.
    Redraw,
    /// Nothing beyond the state change.
    Nothing,
}

/// The state and action after `event`: Escape releases the cursor, Tab
/// switches the camera the keys steer, both when pressed.
pub open spec fn window_next(s: WindowInput, event: WindowEvent) -> (WindowInput, WindowAction) {
    match event {
        WindowEvent::Resized { width, height } => (s, WindowAction::Resize { width, height }),
        WindowEvent::CloseRequested => (s, WindowAction::Exit),
        WindowEvent::Key { key, pressed } => if !pressed {
            (s, WindowAction::Nothing)
        } else {
            match key {
                WindowKey::Escape => (WindowInput { focused: false, ..s }, WindowAction::ReleaseCursor),
                WindowKey::Tab => (
                    WindowInput { use_secondary_camera: !s.use_secondary_camera, ..s },
                    WindowAction::Nothing,
                ),
                WindowKey::Other => (s, WindowAction::Nothing),
            }
        },
        WindowEvent::RedrawRequested => (s, WindowAction::Redraw),
        WindowEvent::Other => (s, WindowAction::Nothing),
    }
}

impl WindowInput {
    /// A window that does not hold the cursor, steering the main camera.
    pub fn new() -> (input: WindowInput)
        ensures
            input == (WindowInput { focused: false, use_secondary_camera: false }),
    {
        WindowInput { focused: false, use_secondary_camera: false }
    }

    /// Handles one window event.
    pub fn handle(&mut self, event: WindowEvent) -> (action: WindowAction)
        ensures
            (*final(self), action) == window_next(*old(self), event),
    {
        match event {
            WindowEvent::Resized { width, height } => WindowAction::Resize { width, height },
            WindowEvent::CloseRequested => WindowAction::Exit,
            WindowEvent::Key { key, pressed } => if !pressed {
                WindowAction::Nothing
            } else {
                match key {
                    WindowKey::Escape => {
                        self.focused = false;
                        WindowAction::ReleaseCursor
                    },
                    WindowKey::Tab => {
                        self.use_secondary_camera = !self.use_secondary_camera;
                        WindowAction::Nothing
                    },
                    WindowKey::Other => WindowAction::Nothing,
                }
            },
            WindowEvent::RedrawRequested => WindowAction::Redraw,
            WindowEvent::Other => WindowAction::Nothing,
        }
    }
}

/// Pressing Tab twice steers the camera it started with, and nothing else
/// changes.
pub proof fn lemma_tab_twice_returns(s: WindowInput)
    ensures
        ({
            let tab = WindowEvent::Key { key: WindowKey::Tab, pressed: true };
            window_next(window_next(s, tab).0, tab).0 == s
        }),
{
}

} // verus!
