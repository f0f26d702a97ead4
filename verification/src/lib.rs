//! Event dispatch for the windowing event loop of the OpenGL rendering backend.
//!
//! The library decides, for each event that the windowing system delivers, what
//! has to happen to the registered windows and to the loop's control flow. The
//! outside work (talking to the windowing system, drawing, animations, timers)
//! is done by the caller, which performs the returned actions.
pub mod input;
pub mod modifiers;
pub mod registry;
pub mod dispatch;
