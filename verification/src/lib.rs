//! Fetch-and-highlight library for a REST inspector.
//!
//! The library holds the verified logic of the inspector: turning a stream of
//! lexical tokens into a byte-aligned style overlay, classifying the outcome
//! of an HTTP fetch into display state, driving a cyclic progress indicator,
//! and a couple of small helpers shared with the sibling demos (a bounded
//! counter model and a two-point line path).

pub mod draw;
pub mod fetch;
pub mod model;
pub mod progress;
pub mod style;
