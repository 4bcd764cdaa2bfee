//! Grid pathfinding: rectangular terrain maps, the cells a walker may step to,
//! and a registry of loaded maps that answers path queries.
//!
//! The shortest-path search itself is supplied by the caller as a function from
//! a map and two cell indices to a [`search::SearchOutcome`]; everything around
//! it (validation, bounds, index arithmetic, slots) is stated and proved here.

pub mod cost;
pub mod error;
pub mod grid;
pub mod host;
pub mod laws;
pub mod registry;
pub mod search;
