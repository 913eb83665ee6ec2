//! Recovers a hierarchical state-machine model from generated switch-based
//! source code and serializes it into a compact declarative notation.
//!
//! The pipeline is a single left-to-right fold over input lines: each line is
//! classified into one of a small fixed vocabulary of shapes, the fold
//! accumulates discovered states and per-(state, event) transition records,
//! and a renderer turns the registries into the output notation.

pub mod classify;
pub mod driver;
pub mod states;
pub mod render;
pub mod transitions;
