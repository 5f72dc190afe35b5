//! Description of the render target that every drawable of a frame must be
//! compatible with.

use vstd::prelude::*;
use wgpu::{MultisampleState, TextureFormat};

verus! {

/// Opaque colour format of a render target, as `wgpu` defines it. It is only
/// carried from the caller to the pipelines that are built against it.
#[verifier::external_type_specification]
#[verifier::external_body]
pub struct ExTextureFormat(TextureFormat);

/// Opaque multisampling configuration, as `wgpu` defines it. It is only
/// carried from the caller to the pipelines that are built against it.
#[verifier::external_type_specification]
#[verifier::external_body]
pub struct ExMultisampleState(MultisampleState);

/// Texture formats that can back a depth or stencil attachment.
#[derive(Debug, Clone, Copy, PartialEq, Eq, Structural)]
pub enum DepthFormat {
    Stencil8,
    Depth16Unorm,
    Depth24Plus,
    Depth24PlusStencil8,
    Depth32Float,
    Depth32FloatStencil8,
}

/// Comparison applied by a depth or stencil test.
#[derive(Debug, Clone, Copy, PartialEq, Eq, Structural)]
pub enum CompareFunction {
    Never,
    Less,
    Equal,
    LessEqual,
    Greater,
    NotEqual,
    GreaterEqual,
    Always,
}

/// What happens to a stencil value after a test.
#[derive(Debug, Clone, Copy, PartialEq, Eq, Structural)]
pub enum StencilOperation {
    Keep,
    Zero,
    Replace,
    Invert,
    IncrementClamp,
    DecrementClamp,
    IncrementWrap,
    DecrementWrap,
}

/// Stencil behaviour for one face orientation.
#[derive(Debug, Clone, Copy, PartialEq, Eq, Structural)]
pub struct StencilFaceState {
    pub compare: CompareFunction,
    pub fail_op: StencilOperation,
    pub depth_fail_op: StencilOperation,
    pub pass_op: StencilOperation,
}

impl StencilFaceState {
    /// The face state that never rejects a fragment and never touches the
    /// stencil buffer.
    pub open spec fn ignore() -> StencilFaceState {
        StencilFaceState {
            compare: CompareFunction::Always,
            fail_op: StencilOperation::Keep,
            depth_fail_op: StencilOperation::Keep,
            pass_op: StencilOperation::Keep,
        }
    }

    /// Builds [`StencilFaceState::ignore`].
    pub fn ignored() -> (face: Self)
        ensures
            face == Self::ignore(),
    {
        StencilFaceState {
            compare: CompareFunction::Always,
            fail_op: StencilOperation::Keep,
            depth_fail_op: StencilOperation::Keep,
            pass_op: StencilOperation::Keep,
        }
    }
}

/// Stencil behaviour of a pipeline.
#[derive(Debug, Clone, Copy, PartialEq, Eq, Structural)]
pub struct StencilState {
    pub front: StencilFaceState,
    pub back: StencilFaceState,
    pub read_mask: u32,
    pub write_mask: u32,
}

/// Depth bias of a pipeline. The two fractional factors are carried as
/// IEEE-754 single precision bit patterns.
#[derive(Debug, Clone, Copy, PartialEq, Eq, Structural)]
pub struct DepthBiasState {
    pub constant: i32,
    pub slope_scale_bits: u32,
    pub clamp_bits: u32,
}

/// Depth and stencil behaviour of a pipeline.
#[derive(Debug, Clone, Copy, PartialEq, Eq, Structural)]
pub struct DepthStencilState {
    pub format: DepthFormat,
    pub depth_write_enabled: bool,
    pub depth_compare: CompareFunction,
    pub stencil: StencilState,
    pub bias: DepthBiasState,
}

impl DepthStencilState {
    /// The same state with depth writes switched off.
    pub open spec fn read_only(self) -> DepthStencilState {
        DepthStencilState { depth_write_enabled: false, ..self }
    }
}

/// Render target description shared by the drawables of a compositor.
#[derive(Debug, Clone, Copy)]
pub struct RenderPipelineData {
    pub texture_format: TextureFormat,
    pub depth_stencil: Option<DepthStencilState>,
    pub multi_sample: Option<MultisampleState>,
}

impl RenderPipelineData {
    /// Depth and stencil state for a pass that tests depth without writing
    /// it: the configured state with depth writes off, or nothing where no
    /// depth target is configured.
    pub fn depth_stencil_read_only(&self) -> (state: Option<DepthStencilState>)
        ensures
            state == match self.depth_stencil {
                Some(depth_stencil) => Some(depth_stencil.read_only()),
                None => None,
            },
    {
        match self.depth_stencil {
            Some(depth_stencil) => Some(
                DepthStencilState {
                    format: depth_stencil.format,
                    depth_write_enabled: false,
                    depth_compare: depth_stencil.depth_compare,
                    stencil: depth_stencil.stencil,
                    bias: depth_stencil.bias,
                },
            ),
            None => None,
        }
    }
}

} // verus!
