//! A second front of house, re-exported for the callers at the crate's
//! surface.

pub mod hosting;
