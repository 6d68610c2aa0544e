//! Point-sequence click automation: the plan of input events for a click run,
//! and the extended window style that makes the host window click-through.
pub mod mouse;
pub mod mouse_lemmas;
pub mod window;
