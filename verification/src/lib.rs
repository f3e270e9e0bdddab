//! The refresh-and-render pipeline of a live terminal dashboard.
//!
//! A background producer computes a fresh dataset on a fixed period and hands
//! it over a bounded channel; the render loop takes whatever has arrived
//! without waiting, keeps the newest, redraws, and polls the keyboard for the
//! quit key. The rules of that pipeline live here, with their contracts. The
//! program around this library does the drawing, the sleeping and the network
//! traffic.

pub mod channel;
pub mod fetch;
pub mod grid;
pub mod producer;
pub mod render;
pub mod snapshot;
