//! Constructor traits: the shapes a backing implementation fills in. The
//! window, context, shader and pipeline objects themselves belong to the
//! wrapped libraries; programs implement these traits over them and the
//! configuration structs describe what to build.

use vstd::prelude::*;

use crate::config_structs::AFContextConfig;
use crate::config_structs::AFRenderPipelineConfig;
use crate::config_structs::AFShaderConfig;
use crate::config_structs::AFWindowConfig;

verus! {

/// Builds a window from its description.
pub trait AFWindowConstructor: Sized {
    fn new(config: &AFWindowConfig) -> Self;
}

/// Builds a device context over a window.
pub trait AFContextConstructor<Window>: Sized {
    fn new(window: Window, config: &AFContextConfig) -> Self;
}

/// Builds a shader module inside a context.
pub trait AFShaderConstructor<Context>: Sized {
    fn new(context: &Context, config: &AFShaderConfig) -> Self;
}

/// Builds a render pipeline inside a context.
pub trait AFRenderPipelineConstructor<Context>: Sized {
    fn new(context: &Context, config: &AFRenderPipelineConfig) -> Self;
}

} // verus!
