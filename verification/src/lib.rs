//! Read-side queries over a named stack of notes: which items a query shows,
//! in which order, and how each row is labelled.

pub mod data;
pub mod effects;
pub mod output;
