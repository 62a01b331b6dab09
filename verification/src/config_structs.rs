//! Configuration structs: the declarative descriptions a program hands to
//! the constructors for windows, device contexts, shaders and render
//! pipelines. They are plain data; only the pipeline uniform layout has
//! behaviour of its own, in the pipeline planning module.

use vstd::prelude::*;

use crate::enums::AFBackendLibrary;
use crate::enums::AFBlendFactor;
use crate::enums::AFBlendOperation;
use crate::enums::AFDirection;
use crate::enums::AFDrawablePrimitive;
use crate::enums::AFFace;
use crate::enums::AFIndexFormat;
use crate::enums::AFPowerPreference;
use crate::enums::AFShaderStage;
use crate::enums::AFUniformType;
use crate::enums::AFVertexFormat;
use crate::enums::AFVertexStepMode;
use crate::util_structs::AFImage;
use crate::util_structs::AFSize2D;

verus! {

/// The description a window is built from.
#[derive(PartialEq, Eq, Debug)]
pub struct AFWindowConfig {
    pub icon: Option<AFImage>,
    pub start_size: AFSize2D,
    pub min_size: AFSize2D,
    pub max_size: AFSize2D,
    pub resizeable: bool,
    pub visible: bool,
    pub always_on_top: bool,
    pub maximized: bool,
}

/// The description a device context is built from.
#[derive(Copy, Clone, PartialEq, Eq, Structural, Debug)]
pub struct AFContextConfig {
    pub vsync: bool,
    pub anisotropic_filtering: bool,
    pub backend_lib: AFBackendLibrary,
    pub power_preference: AFPowerPreference,
}

/// The description a shader module is built from: its stage, its
/// precompiled bytecode, and the entry point to call.
#[derive(PartialEq, Eq, Debug)]
pub struct AFShaderConfig {
    pub stage: AFShaderStage,
    pub bytecode: Vec<u8>,
    pub entry_point: String,
}

/// One vertex attribute inside a vertex buffer slot.
#[derive(Copy, Clone, PartialEq, Eq, Structural, Debug)]
pub struct AFVertexAttrib {
    pub location: u32,
    pub offset: u32,
    pub vertex_format: AFVertexFormat,
}

/// One vertex buffer slot: its stride, its step mode, and the formats of
/// the attributes laid out in it.
#[derive(PartialEq, Eq, Debug)]
pub struct AFVertexBufferSlot {
    pub stride: u64,
    pub step_mode: AFVertexStepMode,
    pub attribs: Vec<AFVertexFormat>,
}

/// One vertex buffer described attribute by attribute rather than by
/// formats alone.
#[derive(PartialEq, Eq, Debug)]
pub struct AFVertexBuffer {
    pub stride: u64,
    pub step_mode: AFVertexStepMode,
    pub attribs: Vec<AFVertexAttrib>,
}

/// One uniform: where it binds, which stage sees it, and how large the
/// backing buffer must be.
#[derive(Copy, Clone, PartialEq, Eq, Structural, Debug)]
pub struct AFUniform {
    pub location: u32,
    pub stage: AFShaderStage,
    pub dynamic: bool,
    pub byte_size: u32,
    pub uniform_type: AFUniformType,
}

/// A set of uniforms bound together.
#[derive(PartialEq, Eq, Debug)]
pub struct AFUniformGroup {
    pub set: u32,
    pub uniforms: Vec<AFUniform>,
}

/// How one blend channel combines source and destination.
#[derive(Copy, Clone, PartialEq, Eq, Structural, Debug)]
pub struct AFBlendDescriptor {
    pub src_factor: AFBlendFactor,
    pub dst_factor: AFBlendFactor,
    pub operation: AFBlendOperation,
}

/// The description a render pipeline is built from.
#[derive(PartialEq, Eq, Debug)]
pub struct AFRenderPipelineConfig {
    pub uniforms: Vec<AFUniform>,
    pub vertex_buffer_slots: Vec<AFVertexBufferSlot>,
    pub colour_blend: AFBlendDescriptor,
    pub alpha_blend: AFBlendDescriptor,
    pub primitive: AFDrawablePrimitive,
    pub front_face: AFDirection,
    pub cull_mode: Option<AFFace>,
    pub index_format: AFIndexFormat,
}

} // verus!
