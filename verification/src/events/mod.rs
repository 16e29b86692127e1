//! Messages that the parts of a view send to the view that holds them.

pub mod navigation;
