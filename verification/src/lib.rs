//! A primer's worth of Rust exercises, written as a verified library.
//!
//! The centrepiece is the [`pool`] module, a fixed-size thread pool that
//! accepts one-shot jobs through the shared queue of [`queue`] and shuts
//! down deterministically, and the [`http`] rules its demo server
//! follows. The remaining modules are the smaller exercises, each with
//! its contract.

pub mod advanced;
pub mod blog;
pub mod blog_enum;
pub mod blog_idiomatic_rust;
pub mod closures;
pub mod coins;
pub mod company;
pub mod generics;
pub mod gui;
pub mod http;
pub mod internal;
pub mod limit_tracker;
pub mod mylist;
pub mod numbers;
pub mod pool;
pub mod queue;
pub mod rectangles;
pub mod restaurant;
pub mod shirts;
pub mod strings;
pub mod workout;
