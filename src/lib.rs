//! Window, event and surface-configuration logic of a minimal GPU
//! application: a window that tracks its size and open state, a queue of
//! input events, the surface configuration kept in step with the window,
//! and the per-iteration decisions of the application loop.

pub mod event;
pub mod window;
pub mod surface;
pub mod frame_loop;
