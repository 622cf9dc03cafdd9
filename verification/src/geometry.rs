//! The geometry provider: the fixed unit-quad vertex list and its buffer
//! layout description. Pure data, no state.
//!
//! Vertex coordinates are exact tenths; the plumbing that uploads them to the
//! GPU divides by ten to obtain the floating-point positions.

use vstd::prelude::*;

verus! {

/// The six vertices (two triangles) of the cell quad, as interleaved
/// `(x, y)` coordinates in tenths: the quad spans -0.8 to 0.8 on both axes.
pub open spec fn unit_quad_tenths_spec() -> Seq<i8> {
    seq![-8i8, -8i8, 8i8, -8i8, 8i8, 8i8, -8i8, -8i8, 8i8, 8i8, -8i8, 8i8]
}

/// The unit-quad vertex list, interleaved coordinates in tenths.
pub fn unit_quad_tenths() -> (r: Vec<i8>)
    ensures
        r@ == unit_quad_tenths_spec(),
        r@.len() == 12,
{
    let mut v: Vec<i8> = Vec::new();
    v.push(-8);
    v.push(-8);
    v.push(8);
    v.push(-8);
    v.push(8);
    v.push(8);
    v.push(-8);
    v.push(-8);
    v.push(8);
    v.push(8);
    v.push(-8);
    v.push(8);
    proof {
        assert(v@ =~= unit_quad_tenths_spec());
    }
    v
}

/// Vertices drawn per instance: half the interleaved coordinate count.
pub fn quad_vertex_count() -> (r: usize)
    ensures
        r == unit_quad_tenths_spec().len() / 2,
        r == 6,
{
    6
}

/// Description of the vertex buffer's layout: one two-component float
/// attribute at shader location 0, eight bytes per vertex.
#[derive(Clone, Copy, PartialEq, Eq, Structural, Debug)]
pub struct VertexLayoutDesc {
    pub array_stride: u64,
    pub attribute_offset: u64,
    pub shader_location: u32,
    pub components: u32,
}

/// The layout of the unit-quad vertex buffer.
pub fn quad_vertex_layout() -> (r: VertexLayoutDesc)
    ensures
        r == (VertexLayoutDesc {
            array_stride: 8,
            attribute_offset: 0,
            shader_location: 0,
            components: 2,
        }),
        r.array_stride == r.components * 4,
{
    VertexLayoutDesc { array_stride: 8, attribute_offset: 0, shader_location: 0, components: 2 }
}

} // verus!
