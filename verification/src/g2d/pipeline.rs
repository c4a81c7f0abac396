//! The one render pipeline: its vertex layout, its bind group layouts and
//! its fixed states, as plain values.

use crate::g2d::gpu::TextureFormat;
use crate::g2d::instance::Instance;
use crate::g2d::instance::BYTES_PER_INSTANCE;
use vstd::prelude::*;

verus! {

/// One vertex attribute: `words` single-precision numbers that start
/// `offset` bytes into the record and reach the shader at `shader_location`.
#[derive(Clone, Copy, Debug, PartialEq, Eq, Structural)]
pub struct VertexAttribute {
    pub offset: u64,
    pub shader_location: u32,
    pub words: u32,
}

/// How the vertex stage reads the instance buffer.
#[derive(Clone, Debug, PartialEq, Eq)]
pub struct VertexLayout {
    /// Bytes from one record to the next.
    pub stride: u64,
    /// The buffer advances once for each instance, not for each vertex.
    pub per_instance: bool,
    pub attributes: Vec<VertexAttribute>,
}

/// The attributes of an instance record: destination, source, rotation and
/// tint, at shader locations 0 to 3.
pub open spec fn instance_attributes() -> Seq<VertexAttribute> {
    seq![
        VertexAttribute { offset: 0, shader_location: 0, words: 4 },
        VertexAttribute { offset: 16, shader_location: 1, words: 4 },
        VertexAttribute { offset: 32, shader_location: 2, words: 1 },
        VertexAttribute { offset: 36, shader_location: 3, words: 4 },
    ]
}

/// The attributes cover `stride` bytes from the first to the last, each
/// starting where the one before it ends.
pub open spec fn tiles(attributes: Seq<VertexAttribute>, stride: int) -> bool {
    &&& attributes.len() > 0
    &&& attributes[0].offset == 0
    &&& forall|k: int|
        0 <= k < attributes.len() - 1 ==> (#[trigger] attributes[k + 1]).offset == attributes[k].offset
            + 4 * attributes[k].words
    &&& attributes.last().offset + 4 * attributes.last().words == stride
}

#[derive(Clone, Copy, Debug, PartialEq, Eq, Structural)]
pub enum ShaderStage {
    Vertex,
    Fragment,
}

#[derive(Clone, Copy, Debug, PartialEq, Eq, Structural)]
pub enum BindingKind {
    /// A two-dimensional texture that is not multisampled.
    SampledTexture,
    /// A sampler that does not compare.
    Sampler,
    /// A uniform buffer at a fixed offset.
    UniformBuffer,
}

#[derive(Clone, Copy, Debug, PartialEq, Eq, Structural)]
pub struct LayoutEntry {
    pub binding: u32,
    pub visibility: ShaderStage,
    pub kind: BindingKind,
}

/// The three bind group layouts by their slots: a sheet's texture and
/// sampler, the screen scale, a batch's translation.
#[derive(Clone, Debug, PartialEq, Eq)]
pub struct BindGroupLayouts {
    pub texture: Vec<LayoutEntry>,
    pub scale: Vec<LayoutEntry>,
    pub translation: Vec<LayoutEntry>,
}

pub open spec fn texture_entries() -> Seq<LayoutEntry> {
    seq![
        LayoutEntry {
            binding: 0,
            visibility: ShaderStage::Fragment,
            kind: BindingKind::SampledTexture,
        },
        LayoutEntry { binding: 1, visibility: ShaderStage::Fragment, kind: BindingKind::Sampler },
    ]
}

pub open spec fn uniform_entries() -> Seq<LayoutEntry> {
    seq![
        LayoutEntry {
            binding: 0,
            visibility: ShaderStage::Vertex,
            kind: BindingKind::UniformBuffer,
        },
    ]
}

#[derive(Clone, Copy, Debug, PartialEq, Eq, Structural)]
pub enum FrontFace {
    Ccw,
    Cw,
}

#[derive(Clone, Copy, Debug, PartialEq, Eq, Structural)]
pub enum CullMode {
    Neither,
    Front,
    Back,
}

#[derive(Clone, Copy, Debug, PartialEq, Eq, Structural)]
pub enum BlendFactor {
    Zero,
    One,
    SrcAlpha,
    OneMinusSrcAlpha,
}

/// A blend that adds the source times one factor to the destination times
/// another.
#[derive(Clone, Copy, Debug, PartialEq, Eq, Structural)]
pub struct Blend {
    pub src_factor: BlendFactor,
    pub dst_factor: BlendFactor,
}

#[derive(Clone, Copy, Debug, PartialEq, Eq, Structural)]
pub enum Topology {
    TriangleList,
    TriangleStrip,
}

/// The fixed states of the pipeline.
#[derive(Clone, Copy, Debug, PartialEq, Eq, Structural)]
pub struct PipelineStates {
    pub front_face: FrontFace,
    pub cull_mode: CullMode,
    pub color_blend: Blend,
    pub alpha_blend: Blend,
    pub topology: Topology,
    pub format: TextureFormat,
    pub sample_count: u32,
    pub sample_mask: u32,
    pub alpha_to_coverage: bool,
}

/// The pipeline for a surface of `format`: counter-clockwise front faces,
/// back faces culled, colour blended as source over destination by the
/// source's alpha, alpha replaced, triangle lists, one sample.
pub open spec fn sprite_states(format: TextureFormat) -> PipelineStates {
    PipelineStates {
        front_face: FrontFace::Ccw,
        cull_mode: CullMode::Back,
        color_blend: Blend {
            src_factor: BlendFactor::SrcAlpha,
            dst_factor: BlendFactor::OneMinusSrcAlpha,
        },
        alpha_blend: Blend { src_factor: BlendFactor::One, dst_factor: BlendFactor::Zero },
        topology: Topology::TriangleList,
        format,
        sample_count: 1,
        sample_mask: 0xffff_ffff,
        alpha_to_coverage: false,
    }
}

/// The render pipeline to build.
#[derive(Clone, Debug, PartialEq, Eq)]
pub struct PipelineDesc {
    pub states: PipelineStates,
    pub vertex: VertexLayout,
}

/// The three bind group layouts.
pub fn bind_group_layouts() -> (r: BindGroupLayouts)
    ensures
        r.texture@ == texture_entries(),
        r.scale@ == uniform_entries(),
        r.translation@ == uniform_entries(),
{
    let mut texture: Vec<LayoutEntry> = Vec::new();
    texture.push(
        LayoutEntry {
            binding: 0,
            visibility: ShaderStage::Fragment,
            kind: BindingKind::SampledTexture,
        },
    );
    texture.push(
        LayoutEntry { binding: 1, visibility: ShaderStage::Fragment, kind: BindingKind::Sampler },
    );
    let mut scale: Vec<LayoutEntry> = Vec::new();
    scale.push(
        LayoutEntry {
            binding: 0,
            visibility: ShaderStage::Vertex,
            kind: BindingKind::UniformBuffer,
        },
    );
    let mut translation: Vec<LayoutEntry> = Vec::new();
    translation.push(
        LayoutEntry {
            binding: 0,
            visibility: ShaderStage::Vertex,
            kind: BindingKind::UniformBuffer,
        },
    );
    assert(texture@ =~= texture_entries());
    assert(scale@ =~= uniform_entries());
    assert(translation@ =~= uniform_entries());
    BindGroupLayouts { texture, scale, translation }
}

/// The pipeline for a surface of `format`.
pub fn sprite_pipeline(format: TextureFormat) -> (r: PipelineDesc)
    ensures
        r.states == sprite_states(format),
        r.vertex.stride == BYTES_PER_INSTANCE,
        r.vertex.per_instance,
        r.vertex.attributes@ == instance_attributes(),
{
    PipelineDesc {
        states: PipelineStates {
            front_face: FrontFace::Ccw,
            cull_mode: CullMode::Back,
            color_blend: Blend {
                src_factor: BlendFactor::SrcAlpha,
                dst_factor: BlendFactor::OneMinusSrcAlpha,
            },
            alpha_blend: Blend { src_factor: BlendFactor::One, dst_factor: BlendFactor::Zero },
            topology: Topology::TriangleList,
            format,
            sample_count: 1,
            sample_mask: 0xffff_ffff,
            alpha_to_coverage: false,
        },
        vertex: Instance::desc(),
    }
}

} // verus!
