//! Input engine for an on-screen virtual keyboard in an immersive display
//! environment.
//!
//! The library turns pointer-style touches on a rendered key layout into
//! key-routing decisions, manages hot-swapping between keyboard layouts at
//! runtime, and accumulates gesture ("swipe") typing paths for an external
//! word-prediction component.  All side effects (key injection, clipboard,
//! audio, process spawning) are returned to the caller as explicit
//! [`keys::Action`] values, so the decision logic itself is fully verified.

pub mod arena;
pub mod backend;
pub mod geometry;
pub mod keymap;
pub mod keys;
pub mod machine;
pub mod state;
