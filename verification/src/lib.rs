//! Core of a terminal front-end for a remote music player: the panels of the
//! interface, the focus graph that tracks which panel is hovered or active,
//! the bounded selection index every list panel carries, and the dispatcher
//! that turns one key event into a state change plus, at most, one request
//! towards the player service.  All terminal and network work lives outside
//! this crate; the functions here are pure transitions over explicit state.

pub mod block;
pub mod chunk;
pub mod client;
pub mod event;
pub mod key;
pub mod laws;
pub mod state;
