//! Edges of the reasoning graph.
use vstd::prelude::*;

use crate::stamp::new_uuid;

verus! {

/// The relation an edge stands for.
#[derive(Debug, Clone, Copy, PartialEq, Eq, Structural)]
pub enum EdgeType {
    /// A step of reasoning.
    Reasoning,
    /// A constraint.
    Constraint,
    /// A divergence.
    Divergence,
}

impl Default for EdgeType {
    fn default() -> (t: Self)
        ensures
            t == EdgeType::Reasoning,
    {
        EdgeType::Reasoning
    }
}

/// The name `Debug` gives each edge type.
pub open spec fn edge_type_name(t: EdgeType) -> Seq<char> {
    match t {
        EdgeType::Reasoning => "Reasoning"@,
        EdgeType::Constraint => "Constraint"@,
        EdgeType::Divergence => "Divergence"@,
    }
}

impl EdgeType {
    /// The type's name, as `Debug` writes it.
    pub fn name(&self) -> (r: &'static str)
        ensures
            r@ == edge_type_name(*self),
    {
        match self {
            EdgeType::Reasoning => "Reasoning",
            EdgeType::Constraint => "Constraint",
            EdgeType::Divergence => "Divergence",
        }
    }
}

/// An edge between two nodes.
///
/// Its weight is counted in thousandths.
#[derive(Debug)]
pub struct Edge {
    /// The edge's identifier (a UUID).
    pub id: String,
    /// The identifier of the node it leaves.
    pub from: String,
    /// The identifier of the node it reaches.
    pub to: String,
    /// The relation it stands for.
    pub edge_type: EdgeType,
    /// Its weight, in thousandths.
    pub weight: u32,
}

impl Edge {
    /// A new edge of weight one.
    pub fn new(from: String, to: String, edge_type: EdgeType) -> (e: Edge)
        ensures
            e.id@.len() == 36,
            e.from == from,
            e.to == to,
            e.edge_type == edge_type,
            e.weight == 1000,
    {
        Edge { id: new_uuid(), from, to, edge_type, weight: 1000 }
    }

    /// A new edge of the given weight.
    pub fn new_with_weight(from: String, to: String, edge_type: EdgeType, weight: u32) -> (e: Edge)
        ensures
            e.id@.len() == 36,
            e.from == from,
            e.to == to,
            e.edge_type == edge_type,
            e.weight == weight,
    {
        Edge { id: new_uuid(), from, to, edge_type, weight }
    }

    /// A copy of the edge.
    pub fn copy(&self) -> (e: Edge)
        ensures
            edge_view_eq(e, *self),
    {
        Edge {
            id: self.id.clone(),
            from: self.from.clone(),
            to: self.to.clone(),
            edge_type: self.edge_type,
            weight: self.weight,
        }
    }
}

/// Whether two edges hold the same texts and values.
pub open spec fn edge_view_eq(a: Edge, b: Edge) -> bool {
    &&& a.id@ == b.id@
    &&& a.from@ == b.from@
    &&& a.to@ == b.to@
    &&& a.edge_type == b.edge_type
    &&& a.weight == b.weight
}

} // verus!
