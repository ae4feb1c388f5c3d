//! A multi-collection to-do engine: tasks grouped into named collections,
//! completion filters, filter-scoped bulk removal, and a top-level state
//! with a navigation index that maps selection handles to collections.
pub mod task;
pub mod collection;
pub mod nav;
pub mod state;
