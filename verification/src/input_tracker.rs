//! Tracking of typed input: what has been typed into the focused
//! application since it was last saved, with a cursor that follows the keys.

pub mod events;
pub mod platform;
pub mod state;
pub mod types;
