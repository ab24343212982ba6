use std::collections::HashMap;
use vstd::prelude::*;

verus! {

/// Identifies a vertex of the road network.
#[derive(Clone, Copy, Debug, PartialEq, Eq, Structural, Hash, PartialOrd, Ord)]
pub struct VertexId(pub usize);

/// What a search produces.
///
/// `trees` holds one search tree per search, each mapping a reached vertex
/// to the branch (`B`) by which it was reached; `routes` holds the routes
/// found, each a sequence of edge traversals (`T`); `iterations` counts the
/// iterations the searches took.
pub struct SearchAlgorithmResult<B, T> {
    pub trees: Vec<HashMap<VertexId, B>>,
    pub routes: Vec<Vec<T>>,
    pub iterations: u64,
}

} // verus!
