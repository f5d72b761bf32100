//! How the vertex shaders read the vertex buffers: one binding per buffer and
//! one attribute per vertex field.
use vstd::prelude::*;

use crate::video::vk::FORMAT_R32G32B32_SFLOAT;
use crate::video::vk::FORMAT_R32G32_SFLOAT;
use crate::video::vk::FORMAT_R32_UINT;

verus! {

/// `VK_VERTEX_INPUT_RATE_VERTEX`: the buffer advances once per vertex.
pub const VERTEX_INPUT_RATE_VERTEX: i32 = 0;

/// A vertex buffer binding: the distance in bytes between two vertices.
#[derive(Clone, Copy, PartialEq, Eq, Structural, Debug)]
pub struct VertexInputBinding {
    pub binding: u32,
    pub stride: u32,
    pub input_rate: i32,
}

/// A vertex attribute: the shader location it feeds, the binding it is read
/// from, its format and its offset within a vertex.
#[derive(Clone, Copy, PartialEq, Eq, Structural, Debug)]
pub struct VertexInputAttribute {
    pub location: u32,
    pub binding: u32,
    pub format: i32,
    pub offset: u32,
}

/// The size in bytes of one value of the vertex formats used here.
pub open spec fn format_size(format: i32) -> int {
    if format == FORMAT_R32G32B32_SFLOAT {
        12
    } else if format == FORMAT_R32G32_SFLOAT {
        8
    } else if format == FORMAT_R32_UINT {
        4
    } else {
        0
    }
}

/// Whether the attributes read one binding of the given stride field after
/// field without gaps: the locations count up from zero, each attribute starts
/// where the one before ends, and the last one ends at the stride.
pub open spec fn packed(binding: VertexInputBinding, attributes: Seq<VertexInputAttribute>) -> bool {
    &&& attributes.len() > 0
    &&& attributes[0].offset == 0
    &&& forall|i: int|
        0 <= i < attributes.len() ==> #[trigger] attributes[i].location == i
            && attributes[i].binding == binding.binding && format_size(attributes[i].format) > 0
    &&& forall|i: int|
        0 < i < attributes.len() ==> #[trigger] attributes[i].offset == attributes[i - 1].offset
            + format_size(attributes[i - 1].format)
    &&& attributes.last().offset + format_size(attributes.last().format) == binding.stride
}

/// The binding of a scene vertex: a position and a color, three 32-bit
/// floats each.
pub fn vertex3d_binding() -> (res: VertexInputBinding)
    ensures
        res == (VertexInputBinding { binding: 0, stride: 24, input_rate: VERTEX_INPUT_RATE_VERTEX }),
{
    VertexInputBinding { binding: 0, stride: 24, input_rate: VERTEX_INPUT_RATE_VERTEX }
}

/// The attributes of a scene vertex: the position, then the color.
pub fn vertex3d_attributes() -> (res: Vec<VertexInputAttribute>)
    ensures
        res@ == seq![
            VertexInputAttribute { location: 0, binding: 0, format: FORMAT_R32G32B32_SFLOAT, offset: 0 },
            VertexInputAttribute { location: 1, binding: 0, format: FORMAT_R32G32B32_SFLOAT, offset: 12 },
        ],
{
    let mut res: Vec<VertexInputAttribute> = Vec::new();
    res.push(VertexInputAttribute { location: 0, binding: 0, format: FORMAT_R32G32B32_SFLOAT, offset: 0 });
    res.push(VertexInputAttribute { location: 1, binding: 0, format: FORMAT_R32G32B32_SFLOAT, offset: 12 });
    res
}

/// The binding of a user interface vertex: a position and a texture
/// coordinate of two 32-bit floats each, and a packed color.
pub fn imgui_vertex_binding() -> (res: VertexInputBinding)
    ensures
        res == (VertexInputBinding { binding: 0, stride: 20, input_rate: VERTEX_INPUT_RATE_VERTEX }),
{
    VertexInputBinding { binding: 0, stride: 20, input_rate: VERTEX_INPUT_RATE_VERTEX }
}

/// The attributes of a user interface vertex: position, texture coordinate, color.
pub fn imgui_vertex_attributes() -> (res: Vec<VertexInputAttribute>)
    ensures
        res@ == seq![
            VertexInputAttribute { location: 0, binding: 0, format: FORMAT_R32G32_SFLOAT, offset: 0 },
            VertexInputAttribute { location: 1, binding: 0, format: FORMAT_R32G32_SFLOAT, offset: 8 },
            VertexInputAttribute { location: 2, binding: 0, format: FORMAT_R32_UINT, offset: 16 },
        ],
{
    let mut res: Vec<VertexInputAttribute> = Vec::new();
    res.push(VertexInputAttribute { location: 0, binding: 0, format: FORMAT_R32G32_SFLOAT, offset: 0 });
    res.push(VertexInputAttribute { location: 1, binding: 0, format: FORMAT_R32G32_SFLOAT, offset: 8 });
    res.push(VertexInputAttribute { location: 2, binding: 0, format: FORMAT_R32_UINT, offset: 16 });
    res
}

/// Both vertex layouts read their vertices field after field without gaps.
pub proof fn lemma_vertex_layouts_packed()
    ensures
        packed(
            VertexInputBinding { binding: 0, stride: 24, input_rate: VERTEX_INPUT_RATE_VERTEX },
            seq![
                VertexInputAttribute { location: 0, binding: 0, format: FORMAT_R32G32B32_SFLOAT, offset: 0 },
                VertexInputAttribute { location: 1, binding: 0, format: FORMAT_R32G32B32_SFLOAT, offset: 12 },
            ],
        ),
        packed(
            VertexInputBinding { binding: 0, stride: 20, input_rate: VERTEX_INPUT_RATE_VERTEX },
            seq![
                VertexInputAttribute { location: 0, binding: 0, format: FORMAT_R32G32_SFLOAT, offset: 0 },
                VertexInputAttribute { location: 1, binding: 0, format: FORMAT_R32G32_SFLOAT, offset: 8 },
                VertexInputAttribute { location: 2, binding: 0, format: FORMAT_R32_UINT, offset: 16 },
            ],
        ),
{
    let a = seq![
        VertexInputAttribute { location: 0, binding: 0, format: FORMAT_R32G32B32_SFLOAT, offset: 0 },
        VertexInputAttribute { location: 1, binding: 0, format: FORMAT_R32G32B32_SFLOAT, offset: 12 },
    ];
    assert(a[0].location == 0 && a[1].location == 1);
    let b = seq![
        VertexInputAttribute { location: 0, binding: 0, format: FORMAT_R32G32_SFLOAT, offset: 0 },
        VertexInputAttribute { location: 1, binding: 0, format: FORMAT_R32G32_SFLOAT, offset: 8 },
        VertexInputAttribute { location: 2, binding: 0, format: FORMAT_R32_UINT, offset: 16 },
    ];
    assert(b[0].location == 0 && b[1].location == 1 && b[2].location == 2);
}

} // verus!
