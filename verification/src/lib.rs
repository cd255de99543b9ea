//! A minimal game-engine shell: a verified orchestration core that owns the
//! window state, a world of renderable objects, a message mailbox, and the
//! status state machine that ties them together, tick by tick.
//!
//! The core is pure: platform window creation, GPU device acquisition and
//! command submission are the embedding shell's work. The shell feeds plain
//! values in (messages, surface capabilities, render errors) and carries the
//! computed effects out (window titles, frame plans, log records).

pub mod engine;
pub mod log;
pub mod messages;
pub mod renderer;
pub mod window;
pub mod world;
