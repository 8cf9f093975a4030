//! Plan of one draw and of the objects it needs.

use vstd::prelude::*;
use crate::clear::ClearPlan;
use crate::lists::copied;
use crate::neutral::{AlphaTest, DepthState, DescriptorKind, DrawArguments, GpuAllocationDescription, GpuAllocationId, ImageKind, ImageSubresourceRange, PrimitiveTopology, ResourceAccess, ResourceDependency, ShaderStage, TriangleRasterization, VertexFormat, VertexStepMode, ViewportTransform};
use crate::resource::MaxwellThreeDResourceRole;

verus! {

/// One attribute that a vertex buffer feeds.
#[derive(Clone, Copy, Debug, PartialEq, Eq, Hash, Structural)]
pub struct VertexAttributePlan {
    pub stream: u8,
    pub format: VertexFormat,
    pub offset: u64,
    pub shader_location: u32,
}

/// Vertex buffer of one stream: the whole buffer, with its stride and step mode.
#[derive(Clone, Copy, Debug, PartialEq, Eq, Hash, Structural)]
pub struct VertexBufferPlan {
    pub stream: u8,
    pub buffer: u64,
    pub size: u64,
    pub stride: u64,
    pub step_mode: VertexStepMode,
}

/// Attachment of a render pass; its contents are loaded before and stored after.
#[derive(Clone, Copy, Debug, PartialEq, Eq, Hash, Structural)]
pub struct RenderAttachment {
    pub image: u64,
    pub subresources: ImageSubresourceRange,
    pub kind: ImageKind,
    pub format: u32,
    pub samples: u32,
}

/// What a render pass knows of an attachment.
#[derive(Clone, Copy, Debug, PartialEq, Eq, Hash, Structural)]
pub struct RenderPassAttachment {
    pub kind: ImageKind,
    pub format: u32,
    pub samples: u32,
}

/// One entry of a descriptor table.
#[derive(Clone, Copy, Debug, PartialEq, Eq, Hash, Structural)]
pub struct DescriptorEntry {
    pub role: MaxwellThreeDResourceRole,
    pub binding: u8,
    pub dependency: ResourceDependency,
}

/// Object that a backend has to create before it runs the work. Buffers and images name
/// the resolved resource they view; the pipeline is the one for graphics.
#[derive(Clone, Debug, PartialEq, Eq)]
#[allow(inconsistent_fields)]
pub enum ResourceCreation {
    Allocation { id: GpuAllocationId, description: GpuAllocationDescription },
    Buffer { id: u64, resource: usize },
    Image { id: u64, resource: usize, with_view: bool },
    Sampler { id: u64, description: u64 },
    Shader { id: u64, stage: ShaderStage, fingerprint: u128 },
    RenderPass { id: u64, attachments: Vec<RenderPassAttachment> },
    DescriptorTable { id: u64, kinds: Vec<DescriptorKind>, entries: Vec<DescriptorEntry> },
    Pipeline { id: u64 },
}

/// Content of an object to create.
#[verifier::ext_equal]
#[allow(inconsistent_fields)]
pub enum CreationModel {
    Allocation { id: GpuAllocationId, description: GpuAllocationDescription },
    Buffer { id: u64, resource: usize },
    Image { id: u64, resource: usize, with_view: bool },
    Sampler { id: u64, description: u64 },
    Shader { id: u64, stage: ShaderStage, fingerprint: u128 },
    RenderPass { id: u64, attachments: Seq<RenderPassAttachment> },
    DescriptorTable { id: u64, kinds: Seq<DescriptorKind>, entries: Seq<DescriptorEntry> },
    Pipeline { id: u64 },
}

impl View for ResourceCreation {
    type V = CreationModel;

    open spec fn view(&self) -> CreationModel {
        match *self {
            ResourceCreation::Allocation { id, description } => CreationModel::Allocation {
                id,
                description,
            },
            ResourceCreation::Buffer { id, resource } => CreationModel::Buffer { id, resource },
            ResourceCreation::Image { id, resource, with_view } => CreationModel::Image {
                id,
                resource,
                with_view,
            },
            ResourceCreation::Sampler { id, description } => CreationModel::Sampler {
                id,
                description,
            },
            ResourceCreation::Shader { id, stage, fingerprint } => CreationModel::Shader {
                id,
                stage,
                fingerprint,
            },
            ResourceCreation::RenderPass { id, attachments } => CreationModel::RenderPass {
                id,
                attachments: attachments@,
            },
            ResourceCreation::DescriptorTable { id, kinds, entries } => CreationModel::DescriptorTable {
                id,
                kinds: kinds@,
                entries: entries@,
            },
            ResourceCreation::Pipeline { id } => CreationModel::Pipeline { id },
        }
    }
}

/// Content of objects to create, in order.
pub open spec fn creation_models(creations: Seq<ResourceCreation>) -> Seq<CreationModel> {
    creations.map_values(|creation: ResourceCreation| creation@)
}

/// Adds an object to create.
pub fn add_creation(creations: &mut Vec<ResourceCreation>, creation: ResourceCreation)
    ensures
        creation_models(final(creations)@) == creation_models(old(creations)@).push(creation@),
{
    let ghost before = creations@;
    let ghost model = creation@;
    creations.push(creation);
    proof {
        assert(creation_models(creations@) =~= creation_models(before).push(model));
    }
}

/// One draw: fixed state, bound objects, what it accesses and depends on, and the
/// resources it writes, by position.
#[derive(Debug)]
pub struct DrawPlan {
    pub pipeline: u64,
    pub render_pass: u64,
    pub topology: PrimitiveTopology,
    pub descriptor_table: Option<u64>,
    pub triangle_rasterization: TriangleRasterization,
    pub alpha_test: Option<AlphaTest>,
    pub viewport_transform: Option<ViewportTransform>,
    pub depth_state: Option<DepthState>,
    pub arguments: DrawArguments,
    pub descriptors: Vec<DescriptorEntry>,
    pub descriptor_kinds: Vec<DescriptorKind>,
    pub vertex_buffers: Vec<VertexBufferPlan>,
    pub attributes: Vec<VertexAttributePlan>,
    pub attachments: Vec<RenderAttachment>,
    pub accesses: Vec<ResourceAccess>,
    pub dependencies: Vec<ResourceDependency>,
    pub stages: Vec<ShaderStage>,
    pub dirty_images: Vec<usize>,
}

/// Content of a draw.
#[verifier::ext_equal]
pub struct PlanModel {
    pub pipeline: u64,
    pub render_pass: u64,
    pub topology: PrimitiveTopology,
    pub descriptor_table: Option<u64>,
    pub triangle_rasterization: TriangleRasterization,
    pub alpha_test: Option<AlphaTest>,
    pub viewport_transform: Option<ViewportTransform>,
    pub depth_state: Option<DepthState>,
    pub arguments: DrawArguments,
    pub descriptors: Seq<DescriptorEntry>,
    pub descriptor_kinds: Seq<DescriptorKind>,
    pub vertex_buffers: Seq<VertexBufferPlan>,
    pub attributes: Seq<VertexAttributePlan>,
    pub attachments: Seq<RenderAttachment>,
    pub accesses: Seq<ResourceAccess>,
    pub dependencies: Seq<ResourceDependency>,
    pub stages: Seq<ShaderStage>,
    pub dirty_images: Seq<usize>,
}

impl View for DrawPlan {
    type V = PlanModel;

    open spec fn view(&self) -> PlanModel {
        PlanModel {
            pipeline: self.pipeline,
            render_pass: self.render_pass,
            topology: self.topology,
            descriptor_table: self.descriptor_table,
            triangle_rasterization: self.triangle_rasterization,
            alpha_test: self.alpha_test,
            viewport_transform: self.viewport_transform,
            depth_state: self.depth_state,
            arguments: self.arguments,
            descriptors: self.descriptors@,
            descriptor_kinds: self.descriptor_kinds@,
            vertex_buffers: self.vertex_buffers@,
            attributes: self.attributes@,
            attachments: self.attachments@,
            accesses: self.accesses@,
            dependencies: self.dependencies@,
            stages: self.stages@,
            dirty_images: self.dirty_images@,
        }
    }
}

impl DrawPlan {
    /// The same draw of other vertices and instances.
    #[must_use]
    pub fn with_arguments(&self, arguments: DrawArguments) -> (r: DrawPlan)
        ensures
            r@ == (PlanModel { arguments, ..self@ }),
    {
        DrawPlan {
            pipeline: self.pipeline,
            render_pass: self.render_pass,
            topology: self.topology,
            descriptor_table: self.descriptor_table,
            triangle_rasterization: self.triangle_rasterization,
            alpha_test: self.alpha_test,
            viewport_transform: self.viewport_transform,
            depth_state: self.depth_state,
            arguments,
            descriptors: copied(&self.descriptors),
            descriptor_kinds: copied(&self.descriptor_kinds),
            vertex_buffers: copied(&self.vertex_buffers),
            attributes: copied(&self.attributes),
            attachments: copied(&self.attachments),
            accesses: copied(&self.accesses),
            dependencies: copied(&self.dependencies),
            stages: copied(&self.stages),
            dirty_images: copied(&self.dirty_images),
        }
    }
}

/// Command of a submission.
#[derive(Clone, Copy, Debug, PartialEq, Eq, Hash, Structural)]
#[allow(inconsistent_fields)]
pub enum GpuCommand {
    Clear(ClearPlan),
    BeginRenderPass(u64),
    Draw(DrawArguments),
    EndRenderPass(u64),
}

} // verus!
