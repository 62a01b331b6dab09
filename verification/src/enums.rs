//! The renamed configuration vocabulary: plain enums standing for the
//! wrapped graphics and windowing libraries' own configuration enums. They
//! carry no behaviour of their own; the surrounding program translates
//! them one for one when it talks to the wrapped libraries.

use vstd::prelude::*;

use crate::util_structs::AFSize2D;

verus! {

/// The graphics backend to drive the device through.
#[derive(Copy, Clone, PartialEq, Eq, Structural, Debug)]
pub enum AFBackendLibrary {
    Vulkan,
    Metal,
    OpenGL,
    DX12,
    DX11,
}

/// The adapter power class to request.
#[derive(Copy, Clone, PartialEq, Eq, Structural, Debug)]
pub enum AFPowerPreference {
    LowPower,
    Default,
    HighPower,
}

/// The pipeline stage a shader module or binding is visible to.
#[derive(Copy, Clone, PartialEq, Eq, Structural, Debug)]
pub enum AFShaderStage {
    NoStage,
    Vertex,
    Fragment,
    Compute,
}

/// Whether a vertex buffer advances per vertex or per instance.
#[derive(Copy, Clone, PartialEq, Eq, Structural, Debug)]
pub enum AFVertexStepMode {
    PerVertex,
    PerInstance,
}

/// The data format of one vertex attribute.
#[derive(Copy, Clone, PartialEq, Eq, Structural, Debug)]
pub enum AFVertexFormat {
    Float,
    Float2,
    Float3,
    Float4,
    UnsignedInt,
    UnsignedInt2,
    UnsignedInt3,
    UnsignedInt4,
    Int,
    Int2,
    Int3,
    Int4,
}

/// The kind of resource a uniform binding points at.
#[derive(Copy, Clone, PartialEq, Eq, Structural, Debug)]
pub enum AFUniformType {
    Buffer,
    Sampler,
    Storage,
}

/// The width of one index in an index buffer.
#[derive(Copy, Clone, PartialEq, Eq, Structural, Debug)]
pub enum AFIndexFormat {
    UnsignedInt16,
    UnsignedInt32,
}

/// The primitive topology draw calls assemble.
#[derive(Copy, Clone, PartialEq, Eq, Structural, Debug)]
pub enum AFDrawablePrimitive {
    Points,
    Lines,
    LineStrip,
    Triangles,
    TriangleStrip,
}

/// The arithmetic a blend descriptor applies.
#[derive(Copy, Clone, PartialEq, Eq, Structural, Debug)]
pub enum AFBlendOperation {
    Add,
    Subtract,
    ReverseSubtract,
    Min,
    Max,
}

/// The factor a blend operand is scaled by.
#[derive(Copy, Clone, PartialEq, Eq, Structural, Debug)]
pub enum AFBlendFactor {
    Zero,
    One,
    SrcColour,
    OneMinusSrcColour,
    SrcAlpha,
    OneMinusSrcAlpha,
    DstColour,
    OneMinusDstColour,
    DstAlpha,
    OneMinusDstAlpha,
    SrcAlphaSaturated,
    BlendColour,
    OneMinusBlendColour,
}

/// The winding that counts as a triangle's front face.
#[derive(Copy, Clone, PartialEq, Eq, Structural, Debug)]
pub enum AFDirection {
    Clockwise,
    CounterClockwise,
}

/// The face a culling mode discards.
#[derive(Copy, Clone, PartialEq, Eq, Structural, Debug)]
pub enum AFFace {
    Front,
    Back,
}

/// The payload of one render command: nothing, vertex data, or vertex
/// data with indices.
#[derive(PartialEq, Eq, Debug)]
pub enum AFRenderCommandType {
    Empty,
    Vertex { vertex_data: Vec<Vec<u8>> },
    Indices { vertex_data: Vec<Vec<u8>>, index_data: Vec<u8> },
}

/// A command a frame may address to the window itself.
#[derive(Copy, Clone, PartialEq, Eq, Structural, Debug)]
pub enum AFWindowCommand {
    UpdateSurface,
    ResizeWindow(AFSize2D),
    DestroyWindow,
}

/// A window dimension request: the monitor's full size or an exact size.
#[derive(Copy, Clone, PartialEq, Eq, Structural, Debug)]
pub enum AFWindowSize {
    MonitorSize,
    Size(AFSize2D),
}

/// The kind of resource one pipeline binding exposes to shaders.
#[derive(Copy, Clone, PartialEq, Eq, Structural, Debug)]
pub enum AFBindingType {
    Buffer { size: usize, dynamic: bool, readonly: bool },
}

} // verus!
