//! Host-independent pipeline vocabulary that operations are lowered to.

use vstd::prelude::*;

verus! {

/// Shader stage of the host-independent pipeline.
#[derive(Clone, Copy, Debug, PartialEq, Eq, Hash, Structural)]
pub enum ShaderStage {
    Vertex,
    TessellationControl,
    TessellationEvaluation,
    Geometry,
    Fragment,
    Compute,
}

/// Set of pipeline stages, one bit each.
#[derive(Clone, Copy, Debug, PartialEq, Eq, Hash, Structural)]
pub struct PipelineStages(pub u32);

impl PipelineStages {
    pub open spec fn spec_union(self, other: PipelineStages) -> PipelineStages {
        PipelineStages(self.0 | other.0)
    }

    /// Stages in either set.
    #[must_use]
    #[verifier::when_used_as_spec(spec_union)]
    pub fn union(self, other: PipelineStages) -> (r: PipelineStages)
        ensures
            r == self.spec_union(other),
    {
        PipelineStages(self.0 | other.0)
    }
}

/// Primitive assembly of one draw.
#[derive(Clone, Copy, Debug, PartialEq, Eq, Hash, Structural)]
pub enum PrimitiveTopology {
    Points,
    Lines,
    LineStrip,
    Triangles,
    TriangleStrip,
    TriangleFan,
    Patches,
}

/// Bits of one component of a scaled vertex format.
#[derive(Clone, Copy, Debug, PartialEq, Eq, Hash, Structural)]
pub enum VertexComponentWidth {
    Bits8,
    Bits16,
    Bits32,
}

/// Components of a scaled vertex format.
#[derive(Clone, Copy, Debug, PartialEq, Eq, Hash, Structural)]
pub enum VertexComponentCount {
    One,
    Two,
    Three,
    Four,
}

/// Host-independent vertex attribute format.
#[derive(Clone, Copy, Debug, PartialEq, Eq, Hash, Structural)]
#[allow(inconsistent_fields)]
pub enum VertexFormat {
    Float32,
    Float32x2,
    Float32x3,
    Float32x4,
    Float16x2,
    Float16x4,
    Sint32,
    Sint32x2,
    Sint32x3,
    Sint32x4,
    Uint32,
    Uint32x2,
    Uint32x3,
    Uint32x4,
    Sint16x2,
    Sint16x4,
    Uint16x2,
    Uint16x4,
    Snorm16x2,
    Snorm16x4,
    Unorm16x2,
    Unorm16x4,
    Sint8x2,
    Sint8x4,
    Uint8x2,
    Uint8x4,
    Snorm8x2,
    Snorm8x4,
    Unorm8x2,
    Unorm8x4,
    Unorm10_10_10_2,
    Uscaled { width: VertexComponentWidth, components: VertexComponentCount },
    Sscaled { width: VertexComponentWidth, components: VertexComponentCount },
}

/// Rate at which a vertex buffer advances.
#[derive(Clone, Copy, Debug, PartialEq, Eq, Hash, Structural)]
pub enum VertexStepMode {
    Vertex,
    Instance,
}

/// How triangles are rasterized.
#[derive(Clone, Copy, Debug, PartialEq, Eq, Hash, Structural)]
pub enum TriangleRasterization {
    Fill,
    FillRectangle,
}

/// Comparison of the depth test.
#[derive(Clone, Copy, Debug, PartialEq, Eq, Hash, Structural)]
pub enum DepthCompareOperation {
    Never,
    Less,
    Equal,
    LessEqual,
    Greater,
    NotEqual,
    GreaterEqual,
    Always,
}

/// Comparison of the alpha test.
#[derive(Clone, Copy, Debug, PartialEq, Eq, Hash, Structural)]
pub enum AlphaCompareOperation {
    Never,
    Less,
    Equal,
    LessEqual,
    Greater,
    NotEqual,
    GreaterEqual,
    Always,
}

/// Enabled alpha test; the reference is kept as IEEE-754 bits.
#[derive(Clone, Copy, Debug, PartialEq, Eq, Hash, Structural)]
pub struct AlphaTest {
    pub comparison: AlphaCompareOperation,
    pub reference_bits: u32,
}

/// Depth test of one draw: disabled, or enabled with its writes and comparison.
#[derive(Clone, Copy, Debug, PartialEq, Eq, Hash, Structural)]
#[allow(inconsistent_fields)]
pub enum DepthState {
    Disabled,
    Enabled { write_enabled: bool, compare: DepthCompareOperation },
}

/// Viewport transform; scales, offsets and depth bounds are kept as IEEE-754 bits.
#[derive(Clone, Copy, Debug, PartialEq, Eq, Hash, Structural)]
pub struct ViewportTransform {
    pub scale_x: u32,
    pub scale_y: u32,
    pub scale_z: u32,
    pub offset_x: u32,
    pub offset_y: u32,
    pub offset_z: u32,
    pub clip_min_z: u32,
    pub clip_max_z: u32,
}

/// Arguments of a non-indexed draw.
#[derive(Clone, Copy, Debug, PartialEq, Eq, Hash, Structural)]
pub struct DrawArguments {
    pub first_vertex: u32,
    pub vertex_count: u32,
    pub first_instance: u32,
    pub instance_count: u32,
}

/// Aspect family of an image.
#[derive(Clone, Copy, Debug, PartialEq, Eq, Hash, Structural)]
pub enum ImageKind {
    Color,
    DepthStencil,
}

/// Size of an image in texels.
#[derive(Clone, Copy, Debug, PartialEq, Eq, Hash, Structural)]
pub struct ImageExtent {
    pub width: u32,
    pub height: u32,
    pub depth: u32,
}

/// Immutable properties of an image. The format is a code of the host-independent
/// format table.
#[derive(Clone, Copy, Debug, PartialEq, Eq, Hash, Structural)]
pub struct ImageDescription {
    pub kind: ImageKind,
    pub format: u32,
    pub samples: u32,
    pub levels: u32,
    pub layers: u32,
    pub extent: ImageExtent,
}

/// Immutable properties of a buffer.
#[derive(Clone, Copy, Debug, PartialEq, Eq, Hash, Structural)]
pub struct BufferDescription {
    pub size: u64,
    pub usage: u32,
}

/// Immutable properties of a memory allocation.
#[derive(Clone, Copy, Debug, PartialEq, Eq, Hash, Structural)]
pub struct GpuAllocationDescription {
    pub size: u64,
    pub memory: u32,
}

/// Identity of a memory allocation.
#[derive(Clone, Copy, Debug, PartialEq, Eq, Hash, Structural)]
pub struct GpuAllocationId(pub u64);

/// Levels and layers of an image.
#[derive(Clone, Copy, Debug, PartialEq, Eq, Hash, Structural)]
pub struct ImageSubresourceRange {
    pub aspects: u8,
    pub base_level: u8,
    pub level_count: u8,
    pub base_layer: u16,
    pub layer_count: u16,
}

/// Logical object that work refers to, by identity.
#[derive(Clone, Copy, Debug, PartialEq, Eq, Hash, Structural)]
pub enum ResourceDependency {
    Buffer(u64),
    Image(u64),
    Sampler(u64),
    Shader(u64),
    DescriptorTable(u64),
}

/// Part of a resource that an access touches.
#[derive(Clone, Copy, Debug, PartialEq, Eq, Hash, Structural)]
#[allow(inconsistent_fields)]
pub enum AccessTarget {
    Buffer { buffer: u64, offset: u64, size: u64 },
    Image { image: u64, subresources: ImageSubresourceRange },
}

/// Direction of an access.
#[derive(Clone, Copy, Debug, PartialEq, Eq, Hash, Structural)]
pub enum AccessMode {
    Read,
    Write,
    ReadWrite,
}

/// Use of a resource by a shader.
#[derive(Clone, Copy, Debug, PartialEq, Eq, Hash, Structural)]
pub enum ResourceUsage {
    StorageBuffer,
    SampledImage,
    VertexBuffer,
    ColorAttachment,
    DepthStencilAttachment,
    TransferDestination,
}

/// Stages, direction and use of an access.
#[derive(Clone, Copy, Debug, PartialEq, Eq, Hash, Structural)]
pub struct AccessScope {
    pub stages: PipelineStages,
    pub mode: AccessMode,
    pub usage: ResourceUsage,
}

/// One access of a command.
#[derive(Clone, Copy, Debug, PartialEq, Eq, Hash, Structural)]
pub struct ResourceAccess {
    pub target: AccessTarget,
    pub scope: AccessScope,
}

/// Change of the scope of a target between two commands.
#[derive(Clone, Copy, Debug, PartialEq, Eq, Hash, Structural)]
pub struct ResourceTransition {
    pub target: AccessTarget,
    pub before: AccessScope,
    pub after: AccessScope,
}

/// Shape of one descriptor.
#[derive(Clone, Copy, Debug, PartialEq, Eq, Hash, Structural)]
pub enum DescriptorKind {
    Buffer,
    SampledImage,
    Sampler,
}

} // verus!
