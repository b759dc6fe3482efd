//! Finds the modules that are loaded lazily through the `next/dynamic` wrapper,
//! resolves each lazily loaded specifier to a module of the graph, and gathers
//! the results into one mapping keyed by origin module.
use vstd::prelude::*;

pub mod ast;
pub mod matcher;
pub mod extract;
pub mod traversal;
pub mod mapping;
pub mod laws;

verus! {

} // verus!
