//! What a view draws from the plan and the clock.

pub mod timeline;
