//! The node and edge schema of a repository graph walker: the kinds of object
//! stored in a content-addressed version control backend, the legal edges between
//! them, node keys and their parsing, interned and hash-memoized paths, and the
//! per-node keys and sampling fingerprints that a traversal uses.
use vstd::prelude::*;

pub mod hex;
pub mod ids;
pub mod path;
pub mod graph;
pub mod store;
pub mod phases;
pub mod schema;

verus! {

} // verus!
