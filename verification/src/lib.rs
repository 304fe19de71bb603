//! Line-synchronized source annotation: external producers each contribute
//! one annotation line per target line, and the engine composes them into a
//! fixed-width table, optionally filtered or highlighted where the first
//! two producers disagree.

pub mod column;
pub mod compose;
pub mod diff;
pub mod document;
pub mod errors;
pub mod invoke;
pub mod laws;
pub mod producer;
pub mod render;
pub mod text;
