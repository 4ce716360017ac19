//! Bind-graph edge labels: the names under which a bind node's properties
//! are stored in the asset graph.

use vstd::prelude::*;

verus! {

/// The edge kinds leaving a bind node.
#[derive(Copy, Clone, Debug, Eq, Hash, PartialEq, Structural)]
pub enum BindEdges {
    Primitive,
}

/// The JSON serialization of an edge label: the quoted edge name.
pub open spec fn bind_edges_json_s(e: BindEdges) -> Seq<char> {
    match e {
        BindEdges::Primitive => "\"VRM/Bind/Primitive\""@,
    }
}

impl BindEdges {
    /// The JSON serialization of this edge label, used as the property key
    /// in the asset graph.
    pub fn to_string(&self) -> (r: String)
        ensures
            r@ == bind_edges_json_s(*self),
    {
        match self {
            BindEdges::Primitive => "\"VRM/Bind/Primitive\"".to_owned(),
        }
    }
}

} // verus!
