//! A minimal real-time rendering session core.
//!
//! The crate holds the decision logic of a single-window, single-pass
//! renderer: surface format negotiation, DPI-aware surface
//! reconfiguration, and the per-frame acquire/record/submit/present
//! sequencing. The GPU itself, the window system and the event loop are
//! external collaborators: the embedding application performs the actual
//! device calls and feeds their outcomes back into the state machines
//! defined here.

pub mod error;
pub mod events;
pub mod format;
pub mod frame;
pub mod pipeline;
pub mod pixels;
pub mod session;
