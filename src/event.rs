//! Input and window events, as the application loop sees them.

use vstd::prelude::*;

verus! {

/// The keys that the application reacts to.
#[derive(Clone, Copy, Debug, PartialEq, Eq, Structural)]
pub enum Keycode {
    Escape,
    Other,
}

/// A change that the window system reports for one window.
#[derive(Clone, Copy, Debug, PartialEq, Eq, Structural)]
pub enum WindowEvent {
    /// The window was resized by the user or the window manager.
    Resized(i32, i32),
    /// The window's size changed, for whatever reason.
    SizeChanged(i32, i32),
    /// The window was moved to a new position.
    Moved(i32, i32),
    /// Any other window event (focus, exposure, ...).
    Other,
}

/// One event taken from the window system's queue.
#[derive(Clone, Copy, Debug, PartialEq, Eq, Structural)]
pub enum Event {
    /// The user asked the application to quit.
    Quit,
    /// A key was pressed; `None` when the key has no known code.
    KeyDown { keycode: Option<Keycode> },
    /// An event that concerns the window with the given id.
    Window { window_id: u32, win_event: WindowEvent },
    /// Any other input (mouse motion, text, ...).
    Other,
}

/// Whether the event asks the application to close.
pub open spec fn is_close_request(e: Event) -> bool {
    match e {
        Event::Quit => true,
        Event::KeyDown { keycode: Some(Keycode::Escape) } => true,
        _ => false,
    }
}

} // verus!
