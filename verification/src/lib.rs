//! Reference-counted, growable-array containers with two reference kinds.
//!
//! A single allocation (a counter header plus an element body) is shared by
//! an unbounded number of handles.  Strong handles keep the elements alive;
//! weak handles only observe liveness.  Mutation is copy-on-write: it is
//! performed in place only when the counter state proves the handle is the
//! sole reference of any kind, and otherwise the elements are first copied
//! into a fresh allocation.
//!
//! Allocations live in an explicit [`store::Store`]; a handle is an index
//! into it.  Every operation states exactly how it changes the counters,
//! the element body and the freed flag of each allocation.

pub mod base;
pub mod counter;
pub mod kinds;
pub mod model;
pub mod store;
pub mod string;
pub mod vecs;
