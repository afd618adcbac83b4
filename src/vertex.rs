//! The attributes of a shaded vertex as the vertex shader sees them.

use vstd::prelude::*;

verus! {

/// One attribute of a shaded vertex: its position, its RGBA color, or its
/// normal, each a vector of 32-bit floats.
#[derive(Clone, Copy, Debug, PartialEq, Eq, Structural)]
pub enum VertexSemantics {
    Position,
    Color,
    Normal,
}

/// The name the shader gives the attribute.
pub open spec fn semantic_name(s: VertexSemantics) -> Seq<char> {
    match s {
        VertexSemantics::Position => "position"@,
        VertexSemantics::Color => "color"@,
        VertexSemantics::Normal => "normal"@,
    }
}

/// How many float components the attribute has.
pub open spec fn component_count(s: VertexSemantics) -> nat {
    match s {
        VertexSemantics::Color => 4,
        _ => 3,
    }
}

impl VertexSemantics {
    /// The attribute's name in the shader.
    pub fn name(self) -> (r: &'static str)
        ensures
            r@ == semantic_name(self),
    {
        match self {
            VertexSemantics::Position => "position",
            VertexSemantics::Color => "color",
            VertexSemantics::Normal => "normal",
        }
    }

    /// The number of float components of the attribute.
    pub fn components(self) -> (n: usize)
        ensures
            n == component_count(self),
    {
        match self {
            VertexSemantics::Color => 4,
            _ => 3,
        }
    }
}

} // verus!
