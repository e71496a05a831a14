//! The front of house.

pub mod hosting;
