//! Per-layer shape logic of a feed-forward neural network.
//!
//! A layer descriptor fixes the shape of its parameter matrix and decides,
//! before any arithmetic is done, whether a forward or backward call is
//! well-shaped and what shape its result has.
pub mod shape;
pub mod linear;
pub mod activation;
