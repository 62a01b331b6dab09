//! AlfredGF: a small abstraction layer over a GPU graphics API and a
//! windowing library. The heart of the crate is the per-frame event/state
//! aggregation loop: windowing events are classified into mutations of a
//! frame state store, a per-tick snapshot is assembled for a user callback,
//! and the callback's instruction drives a small loop state machine.
//!
//! The window system and the GPU device are external collaborators; this
//! crate holds the state tracking and scheduling decisions between them.

pub mod config_structs;
pub mod constructors;
pub mod driver;
pub mod enums;
pub mod events;
pub mod pipeline;
pub mod state;
pub mod util_structs;
