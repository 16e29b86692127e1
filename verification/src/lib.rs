//! A focus timer: an ordered plan of work and break sessions, the clock that
//! walks through it one second at a time, and the timeline drawn from it.

pub mod clock;
pub mod components;
pub mod events;
pub mod session;
pub mod utils;
