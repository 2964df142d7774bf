use vstd::prelude::*;

verus! {

/// How vertices are assembled into primitives.
#[derive(Clone, Copy, Debug, PartialEq, Eq)]
pub enum PrimitiveTopology {
    PointList,
    LineList,
    LineStrip,
    TriangleList,
    TriangleStrip,
}

/// The winding of a front face.
#[derive(Clone, Copy, Debug, PartialEq, Eq)]
pub enum FrontFace {
    Ccw,
    Cw,
}

/// A side of a primitive.
#[derive(Clone, Copy, Debug, PartialEq, Eq)]
pub enum Face {
    Front,
    Back,
}

/// How a polygon is rasterized.
#[derive(Clone, Copy, Debug, PartialEq, Eq)]
pub enum PolygonMode {
    Fill,
    Line,
    Point,
}

/// The width of the indices of an index buffer.
#[derive(Clone, Copy, Debug, PartialEq, Eq)]
pub enum IndexFormat {
    Uint16,
    Uint32,
}

/// The comparison of a depth test.
#[derive(Clone, Copy, Debug, PartialEq, Eq)]
pub enum CompareFunction {
    Never,
    Less,
    Equal,
    LessEqual,
    Greater,
    NotEqual,
    GreaterEqual,
    Always,
}

/// How primitives are assembled and rasterized.
#[derive(Clone, Copy, Debug, PartialEq, Eq)]
pub struct PrimitiveState {
    pub topology: PrimitiveTopology,
    pub strip_index_format: Option<IndexFormat>,
    pub front_face: FrontFace,
    pub cull_mode: Option<Face>,
    pub polygon_mode: PolygonMode,
    pub unclipped_depth: bool,
    pub conservative: bool,
}

/// The depth test of a pipeline. No stencil test goes with it.
#[derive(Clone, Copy, Debug, PartialEq, Eq)]
pub struct DepthState {
    pub depth_write_enabled: bool,
    pub depth_compare: CompareFunction,
}

/// The multisampling of a pipeline.
#[derive(Clone, Copy, Debug, PartialEq, Eq)]
pub struct MultisampleState {
    pub count: u32,
    pub mask: u64,
    pub alpha_to_coverage_enabled: bool,
}

/// How a fragment is blended into the target.
#[derive(Clone, Copy, Debug, PartialEq, Eq)]
pub enum Blend {
    /// The fragment replaces what the target holds.
    Replace,
}

/// One colour target of a pipeline, for a pixel format of type `F`.
#[derive(Clone, Copy, Debug, PartialEq, Eq)]
pub struct ColorTargetState<F> {
    pub format: F,
    pub color: Blend,
    pub alpha: Blend,
    /// Whether all four channels are written.
    pub write_all: bool,
}

/// The fixed part of a render pipeline.
#[derive(Clone, Copy, Debug, PartialEq, Eq)]
pub struct PipelineState {
    pub primitive: PrimitiveState,
    pub depth: Option<DepthState>,
    pub multisample: MultisampleState,
}

impl PrimitiveState {
    /// Filled triangle lists with counter-clockwise front faces and
    /// without culling.
    pub open spec fn spec_plain() -> PrimitiveState {
        PrimitiveState {
            topology: PrimitiveTopology::TriangleList,
            strip_index_format: None,
            front_face: FrontFace::Ccw,
            cull_mode: None,
            polygon_mode: PolygonMode::Fill,
            unclipped_depth: false,
            conservative: false,
        }
    }

    /// The state of a loaded material: what the caller asks for, else
    /// `spec_plain()` with the back faces culled.
    pub open spec fn spec_or_default(asked: Option<PrimitiveState>) -> PrimitiveState {
        match asked {
            Some(state) => state,
            None => PrimitiveState { cull_mode: Some(Face::Back), ..Self::spec_plain() },
        }
    }

    /// Filled triangle lists with counter-clockwise front faces and
    /// without culling.
    pub fn plain() -> (state: PrimitiveState)
        ensures
            state == Self::spec_plain(),
    {
        PrimitiveState {
            topology: PrimitiveTopology::TriangleList,
            strip_index_format: None,
            front_face: FrontFace::Ccw,
            cull_mode: None,
            polygon_mode: PolygonMode::Fill,
            unclipped_depth: false,
            conservative: false,
        }
    }

    /// The state of a loaded material.
    pub fn or_default(asked: Option<PrimitiveState>) -> (state: PrimitiveState)
        ensures
            state == Self::spec_or_default(asked),
    {
        match asked {
            Some(state) => state,
            None => PrimitiveState { cull_mode: Some(Face::Back), ..Self::plain() },
        }
    }
}

impl MultisampleState {
    /// One sample per pixel, every sample enabled.
    pub open spec fn spec_single() -> MultisampleState {
        MultisampleState { count: 1, mask: 0xffff_ffff_ffff_ffff, alpha_to_coverage_enabled: false }
    }

    /// One sample per pixel, every sample enabled.
    pub fn single() -> (state: MultisampleState)
        ensures
            state == Self::spec_single(),
    {
        MultisampleState { count: 1, mask: 0xffff_ffff_ffff_ffff, alpha_to_coverage_enabled: false }
    }
}

impl DepthState {
    /// A fragment passes where it is nearer than what the depth buffer
    /// holds, and is written to it.
    pub open spec fn spec_less() -> DepthState {
        DepthState { depth_write_enabled: true, depth_compare: CompareFunction::Less }
    }

    /// The depth test of every material with a depth buffer.
    pub fn less() -> (state: DepthState)
        ensures
            state == Self::spec_less(),
    {
        DepthState { depth_write_enabled: true, depth_compare: CompareFunction::Less }
    }
}

impl PipelineState {
    /// The pipeline of a material built from one shader module with the
    /// entry points `vs_main` and `fs_main`: no culling, depth test on.
    pub open spec fn spec_standard() -> PipelineState {
        PipelineState {
            primitive: PrimitiveState::spec_plain(),
            depth: Some(DepthState::spec_less()),
            multisample: MultisampleState::spec_single(),
        }
    }

    /// The pipeline of a material that is drawn without a depth buffer:
    /// back faces culled, no depth test.
    pub open spec fn spec_no_stencil() -> PipelineState {
        PipelineState {
            primitive: PrimitiveState { cull_mode: Some(Face::Back), ..PrimitiveState::spec_plain() },
            depth: None,
            multisample: MultisampleState::spec_single(),
        }
    }

    /// The pipeline of a material loaded from a document: the primitive
    /// state that the caller asks for, else the default; depth test on.
    pub open spec fn spec_loaded(asked: Option<PrimitiveState>) -> PipelineState {
        PipelineState {
            primitive: PrimitiveState::spec_or_default(asked),
            depth: Some(DepthState::spec_less()),
            multisample: MultisampleState::spec_single(),
        }
    }

    /// The pipeline of a material built from one shader module.
    pub fn standard() -> (state: PipelineState)
        ensures
            state == Self::spec_standard(),
    {
        PipelineState {
            primitive: PrimitiveState::plain(),
            depth: Some(DepthState::less()),
            multisample: MultisampleState::single(),
        }
    }

    /// The pipeline of a material that is drawn without a depth buffer.
    pub fn no_stencil() -> (state: PipelineState)
        ensures
            state == Self::spec_no_stencil(),
    {
        PipelineState {
            primitive: PrimitiveState { cull_mode: Some(Face::Back), ..PrimitiveState::plain() },
            depth: None,
            multisample: MultisampleState::single(),
        }
    }

    /// The pipeline of a material loaded from a document.
    pub fn loaded(asked: Option<PrimitiveState>) -> (state: PipelineState)
        ensures
            state == Self::spec_loaded(asked),
    {
        PipelineState {
            primitive: PrimitiveState::or_default(asked),
            depth: Some(DepthState::less()),
            multisample: MultisampleState::single(),
        }
    }
}

/// The colour target of a material that draws to the screen: the
/// surface's format, fragments replace what is there, all channels are
/// written.
pub fn screen_target<F>(format: F) -> (target: ColorTargetState<F>)
    ensures
        target == (ColorTargetState {
            format,
            color: Blend::Replace,
            alpha: Blend::Replace,
            write_all: true,
        }),
{
    ColorTargetState { format, color: Blend::Replace, alpha: Blend::Replace, write_all: true }
}

} // verus!
