//! Inputs and attachments of a draw.

use vstd::prelude::*;
use crate::bindings::MaxwellThreeDShaderStage;
use crate::draw_plan::{RenderAttachment, VertexAttributePlan, VertexBufferPlan};
use crate::draw_state::neutral_vertex_format;
use crate::lowering_error::MaxwellThreeDLoweringError;
use crate::neutral::{DrawArguments, PrimitiveTopology, ResourceDependency, ShaderStage, TriangleRasterization, VertexStepMode};
use crate::neutral_refusals::{NeutralConstruction, NeutralRefusals};
use crate::raster::MaxwellThreeDFillViaTriangleMode;
use crate::resource::{MaxwellThreeDResolvedResources, MaxwellThreeDResourceRole, ResolvedModel};
use crate::sampler_preparation::{binding_at, resource_index};
use crate::state::MaxwellThreeDState;
use crate::translated_shaders::{MaxwellThreeDTranslatedShaders, ShadersModel};
use crate::vertex::MaxwellThreeDVertexAttributeFormat;

verus! {

/// Stage of the host-independent pipeline that a shader stage is.
pub open spec fn spec_neutral_stage(stage: MaxwellThreeDShaderStage) -> Option<ShaderStage> {
    match stage {
        MaxwellThreeDShaderStage::Vertex => Some(ShaderStage::Vertex),
        MaxwellThreeDShaderStage::TessellationInit => Some(ShaderStage::TessellationControl),
        MaxwellThreeDShaderStage::Tessellation => Some(ShaderStage::TessellationEvaluation),
        MaxwellThreeDShaderStage::Geometry => Some(ShaderStage::Geometry),
        MaxwellThreeDShaderStage::Pixel => Some(ShaderStage::Fragment),
        MaxwellThreeDShaderStage::VertexCullBeforeFetch => None,
    }
}

#[verifier::when_used_as_spec(spec_neutral_stage)]
pub fn neutral_stage(stage: MaxwellThreeDShaderStage) -> (r: Option<ShaderStage>)
    ensures
        r == spec_neutral_stage(stage),
{
    match stage {
        MaxwellThreeDShaderStage::Vertex => Some(ShaderStage::Vertex),
        MaxwellThreeDShaderStage::TessellationInit => Some(ShaderStage::TessellationControl),
        MaxwellThreeDShaderStage::Tessellation => Some(ShaderStage::TessellationEvaluation),
        MaxwellThreeDShaderStage::Geometry => Some(ShaderStage::Geometry),
        MaxwellThreeDShaderStage::Pixel => Some(ShaderStage::Fragment),
        MaxwellThreeDShaderStage::VertexCullBeforeFetch => None,
    }
}

/// Check of the pipeline slots from one on: every enabled slot has a stage that was
/// translated, and the translated shaders are as many as the enabled slots.
pub open spec fn stages_check(
    state: &MaxwellThreeDState,
    shaders: ShadersModel,
    from: int,
    enabled: nat,
) -> Result<(), MaxwellThreeDLoweringError>
    decreases 6 - from,
{
    if from < 0 || from >= 6 {
        if enabled == 0 || enabled != shaders.shaders.len() {
            Err(MaxwellThreeDLoweringError::TranslatedShaderStageMismatch)
        } else {
            Ok(())
        }
    } else {
        let pipeline = state.shader_bindings.pipeline[from];
        if pipeline.enabled.value != Some(true) {
            stages_check(state, shaders, from + 1, enabled)
        } else {
            match pipeline.stage.value {
                None => Err(MaxwellThreeDLoweringError::IncompleteDraw("shader stage")),
                Some(stage) => match neutral_stage(stage) {
                    None => Err(MaxwellThreeDLoweringError::UnsupportedShaderStage(stage)),
                    Some(neutral) => if !shaders.has_stage(neutral) {
                        Err(MaxwellThreeDLoweringError::TranslatedShaderStageMismatch)
                    } else {
                        stages_check(state, shaders, from + 1, enabled + 1)
                    },
                },
            }
        }
    }
}

fn has_stage(shaders: &MaxwellThreeDTranslatedShaders, stage: ShaderStage) -> (r: bool)
    ensures
        r == shaders@.has_stage(stage),
{
    let mut index: usize = 0;
    while index < shaders.shaders.len()
        invariant
            index <= shaders.shaders@.len(),
            forall|i: int|
                #![trigger shaders.shaders@[i]]
                0 <= i < index ==> shaders.shaders@[i].stage != stage,
        decreases shaders.shaders@.len() - index,
    {
        if shaders.shaders[index].stage == stage {
            proof {
                assert(shaders@.shaders[index as int].stage == stage);
            }
            return true;
        }
        index = index + 1;
    }
    false
}

/// Checks that the translated shaders are those of the enabled pipeline slots.
#[verifier::loop_isolation(false)]
pub fn validate_shader_stages(state: &MaxwellThreeDState, shaders: &MaxwellThreeDTranslatedShaders) -> (r:
    Result<(), MaxwellThreeDLoweringError>)
    ensures
        r == stages_check(state, shaders@, 0, 0),
{
    let mut enabled: usize = 0;
    let mut slot: usize = 0;
    while slot < 6
        invariant
            slot <= 6,
            enabled <= slot,
            stages_check(state, shaders@, 0, 0) == stages_check(
                state,
                shaders@,
                slot as int,
                enabled as nat,
            ),
        decreases 6 - slot,
    {
        let pipeline = state.shader_bindings.pipeline[slot];
        let is_enabled = match pipeline.enabled.value {
            Some(value) => value,
            None => false,
        };
        if is_enabled {
            let stage = match pipeline.stage.value {
                Some(stage) => stage,
                None => {
                    return Err(MaxwellThreeDLoweringError::IncompleteDraw("shader stage"));
                },
            };
            let neutral = match neutral_stage(stage) {
                Some(neutral) => neutral,
                None => {
                    return Err(MaxwellThreeDLoweringError::UnsupportedShaderStage(stage));
                },
            };
            if !has_stage(shaders, neutral) {
                return Err(MaxwellThreeDLoweringError::TranslatedShaderStageMismatch);
            }
            enabled = enabled + 1;
        }
        slot = slot + 1;
    }
    if enabled == 0 || enabled != shaders.shaders.len() {
        return Err(MaxwellThreeDLoweringError::TranslatedShaderStageMismatch);
    }
    Ok(())
}

/// Whether an attribute is enabled and fed by a stream.
pub open spec fn spec_feeds(
    attribute: Option<MaxwellThreeDVertexAttributeFormat>,
    stream: u8,
) -> bool {
    match attribute {
        Some(attribute) => attribute.enabled() && attribute.stream() == stream,
        None => false,
    }
}

#[verifier::when_used_as_spec(spec_feeds)]
pub fn feeds(attribute: Option<MaxwellThreeDVertexAttributeFormat>, stream: u8) -> (r: bool)
    ensures
        r == spec_feeds(attribute, stream),
{
    match attribute {
        Some(attribute) => attribute.enabled() && attribute.stream() == stream,
        None => false,
    }
}

/// Attributes of a stream after those found so far, from a location on.
pub open spec fn stream_attributes(
    state: &MaxwellThreeDState,
    stream: u8,
    from: int,
    found: Seq<VertexAttributePlan>,
) -> Result<Seq<VertexAttributePlan>, MaxwellThreeDLoweringError>
    decreases 32 - from,
{
    if from < 0 || from >= 32 {
        Ok(found)
    } else {
        let attribute = state.vertex_input.attributes[from].value;
        if !feeds(attribute, stream) {
            stream_attributes(state, stream, from + 1, found)
        } else {
            match neutral_vertex_format(from as u8, attribute->Some_0) {
                Err(error) => Err(error),
                Ok(format) => stream_attributes(
                    state,
                    stream,
                    from + 1,
                    found.push(
                        VertexAttributePlan {
                            stream,
                            format,
                            offset: attribute->Some_0.offset() as u64,
                            shader_location: from as u32,
                        },
                    ),
                ),
            }
        }
    }
}

#[verifier::loop_isolation(false)]
fn find_stream_attributes(state: &MaxwellThreeDState, stream: u8) -> (r: Result<
    Vec<VertexAttributePlan>,
    MaxwellThreeDLoweringError,
>)
    ensures
        match stream_attributes(state, stream, 0, Seq::empty()) {
            Ok(found) => r matches Ok(attributes) && attributes@ == found,
            Err(error) => r == Err::<Vec<VertexAttributePlan>, MaxwellThreeDLoweringError>(error),
        },
{
    let ghost whole = stream_attributes(state, stream, 0, Seq::empty());
    let mut found: Vec<VertexAttributePlan> = Vec::new();
    let mut location: u8 = 0;
    while location < 32
        invariant
            location <= 32,
            whole == stream_attributes(state, stream, location as int, found@),
        decreases 32 - location,
    {
        let attribute = state.vertex_input.attributes[location as usize].value;
        if feeds(attribute, stream) {
            if let Some(attribute) = attribute {
                match neutral_vertex_format(location, attribute) {
                    Ok(format) => {
                        found.push(
                            VertexAttributePlan {
                                stream,
                                format,
                                offset: attribute.offset() as u64,
                                shader_location: location as u32,
                            },
                        );
                    },
                    Err(error) => {
                        return Err(error);
                    },
                }
            }
        }
        location = location + 1;
    }
    Ok(found)
}

/// Whether a stream is enabled.
pub open spec fn spec_stream_enabled(state: &MaxwellThreeDState, stream: u8) -> bool {
    match state.vertex_input.stream_formats[stream as int].value {
        Some(format) => format.enabled(),
        None => false,
    }
}

#[verifier::when_used_as_spec(spec_stream_enabled)]
pub fn stream_enabled(state: &MaxwellThreeDState, stream: u8) -> (r: bool)
    requires
        stream < 32,
    ensures
        r == spec_stream_enabled(state, stream),
{
    match state.vertex_input.stream_formats[stream as usize].value {
        Some(format) => format.enabled(),
        None => false,
    }
}

/// Whether a stream advances per instance.
pub open spec fn spec_stream_instanced(state: &MaxwellThreeDState, stream: u8) -> bool {
    match state.vertex_input.stream_instanced[stream as int].value {
        Some(instanced) => instanced,
        None => false,
    }
}

#[verifier::when_used_as_spec(spec_stream_instanced)]
pub fn stream_instanced(state: &MaxwellThreeDState, stream: u8) -> (r: bool)
    requires
        stream < 32,
    ensures
        r == spec_stream_instanced(state, stream),
{
    match state.vertex_input.stream_instanced[stream as usize].value {
        Some(instanced) => instanced,
        None => false,
    }
}

/// Instances that share one element of a stream.
pub open spec fn spec_stream_divisor(state: &MaxwellThreeDState, stream: u8) -> u32 {
    match state.vertex_input.stream_frequencies[stream as int].value {
        Some(frequency) => frequency,
        None => 1,
    }
}

#[verifier::when_used_as_spec(spec_stream_divisor)]
pub fn stream_divisor(state: &MaxwellThreeDState, stream: u8) -> (r: u32)
    requires
        stream < 32,
    ensures
        r == spec_stream_divisor(state, stream),
{
    match state.vertex_input.stream_frequencies[stream as usize].value {
        Some(frequency) => frequency,
        None => 1,
    }
}

/// Buffer that the resource at a position is bound to, and its size.
pub open spec fn bound_buffer(
    models: Seq<ResolvedModel>,
    bindings: Seq<Option<ResourceDependency>>,
    index: usize,
) -> Result<(u64, u64), MaxwellThreeDLoweringError> {
    match models[index as int].buffer() {
        None => Err(MaxwellThreeDLoweringError::ResolvedResourceKindMismatch),
        Some(description) => match crate::sampler_preparation::spec_binding_at(
            models,
            bindings,
            index,
        ) {
            Err(error) => Err(error),
            Ok(ResourceDependency::Buffer(buffer)) => if models[index as int].range_is_valid {
                Ok((buffer, description.size))
            } else {
                Err(
                    MaxwellThreeDLoweringError::InvalidResolvedView {
                        role: models[index as int].role,
                    },
                )
            },
            Ok(_) => Err(MaxwellThreeDLoweringError::ResolvedResourceKindMismatch),
        },
    }
}

/// Buffer that the resource at a position is bound to, and its size.
pub fn find_bound_buffer(
    resources: &MaxwellThreeDResolvedResources,
    bindings: &Vec<Option<ResourceDependency>>,
    index: usize,
) -> (r: Result<(u64, u64), MaxwellThreeDLoweringError>)
    requires
        bindings@.len() == resources.resources@.len(),
        index < resources.resources@.len(),
    ensures
        r == bound_buffer(resources.models(), bindings@, index),
{
    proof {
        assert(resources.models()[index as int] == resources.resources@[index as int]@);
    }
    match resources.resources[index].buffer() {
        None => Err(MaxwellThreeDLoweringError::ResolvedResourceKindMismatch),
        Some(description) => match binding_at(resources, bindings, index) {
            Err(error) => Err(error),
            Ok(ResourceDependency::Buffer(buffer)) => if resources.resources[index].range_is_valid {
                Ok((buffer, description.size))
            } else {
                Err(
                    MaxwellThreeDLoweringError::InvalidResolvedView {
                        role: resources.resources[index].role,
                    },
                )
            },
            Ok(_) => Err(MaxwellThreeDLoweringError::ResolvedResourceKindMismatch),
        },
    }
}

/// Vertex buffer of an enabled stream that feeds attributes.
pub open spec fn stream_buffer(
    state: &MaxwellThreeDState,
    models: Seq<ResolvedModel>,
    bindings: Seq<Option<ResourceDependency>>,
    refusals: &NeutralRefusals,
    stream: u8,
) -> Result<VertexBufferPlan, MaxwellThreeDLoweringError> {
    match crate::sampler_preparation::spec_resource_index(
        models,
        MaxwellThreeDResourceRole::VertexStream(stream),
    ) {
        Err(error) => Err(error),
        Ok(index) => match bound_buffer(models, bindings, index) {
            Err(error) => Err(error),
            Ok((buffer, size)) => if stream_instanced(state, stream) && stream_divisor(
                state,
                stream,
            ) != 1 {
                Err(
                    MaxwellThreeDLoweringError::UnsupportedVertexInstanceDivisor {
                        stream,
                        divisor: stream_divisor(state, stream),
                    },
                )
            } else {
                match refusals.reason(NeutralConstruction::VertexLayout { stream }) {
                    Some(reason) => Err(MaxwellThreeDLoweringError::Command(reason)),
                    None => Ok(
                        VertexBufferPlan {
                            stream,
                            buffer,
                            size,
                            stride: state.vertex_input.stream_formats[stream as int].value->Some_0.stride() as u64,
                            step_mode: if stream_instanced(state, stream) {
                                VertexStepMode::Instance
                            } else {
                                VertexStepMode::Vertex
                            },
                        },
                    ),
                }
            },
        },
    }
}

fn find_stream_buffer(
    state: &MaxwellThreeDState,
    resources: &MaxwellThreeDResolvedResources,
    bindings: &Vec<Option<ResourceDependency>>,
    refusals: &NeutralRefusals,
    stream: u8,
) -> (r: Result<VertexBufferPlan, MaxwellThreeDLoweringError>)
    requires
        bindings@.len() == resources.resources@.len(),
        stream < 32,
        stream_enabled(state, stream),
    ensures
        r == stream_buffer(state, resources.models(), bindings@, refusals, stream),
{
    let index: usize = match resource_index(
        resources,
        MaxwellThreeDResourceRole::VertexStream(stream),
    ) {
        Ok(index) => index,
        Err(error) => {
            return Err(error);
        },
    };
    let (buffer, size): (u64, u64) = match find_bound_buffer(resources, bindings, index) {
        Ok(bound) => bound,
        Err(error) => {
            return Err(error);
        },
    };
    let instanced = stream_instanced(state, stream);
    let divisor: u32 = stream_divisor(state, stream);
    if instanced && divisor != 1 {
        return Err(MaxwellThreeDLoweringError::UnsupportedVertexInstanceDivisor { stream, divisor });
    }
    if let Some(reason) = refusals.reason(NeutralConstruction::VertexLayout { stream }) {
        return Err(MaxwellThreeDLoweringError::Command(reason));
    }
    let stride: u64 = match state.vertex_input.stream_formats[stream as usize].value {
        Some(format) => format.stride() as u64,
        None => 0,
    };
    Ok(
        VertexBufferPlan {
            stream,
            buffer,
            size,
            stride,
            step_mode: if instanced {
                VertexStepMode::Instance
            } else {
                VertexStepMode::Vertex
            },
        },
    )
}

/// Vertex buffers and their attributes after those found so far, from a stream on. A
/// stream that is disabled or feeds nothing has no buffer.
pub open spec fn vertex_inputs(
    state: &MaxwellThreeDState,
    models: Seq<ResolvedModel>,
    bindings: Seq<Option<ResourceDependency>>,
    refusals: &NeutralRefusals,
    from: int,
    buffers: Seq<VertexBufferPlan>,
    attributes: Seq<VertexAttributePlan>,
) -> Result<(Seq<VertexBufferPlan>, Seq<VertexAttributePlan>), MaxwellThreeDLoweringError>
    decreases 32 - from,
{
    if from < 0 || from >= 32 {
        Ok((buffers, attributes))
    } else if !stream_enabled(state, from as u8) {
        vertex_inputs(state, models, bindings, refusals, from + 1, buffers, attributes)
    } else {
        match stream_attributes(state, from as u8, 0, Seq::empty()) {
            Err(error) => Err(error),
            Ok(found) => if found.len() == 0 {
                vertex_inputs(state, models, bindings, refusals, from + 1, buffers, attributes)
            } else {
                match stream_buffer(state, models, bindings, refusals, from as u8) {
                    Err(error) => Err(error),
                    Ok(buffer) => vertex_inputs(
                        state,
                        models,
                        bindings,
                        refusals,
                        from + 1,
                        buffers.push(buffer),
                        attributes + found,
                    ),
                }
            },
        }
    }
}

/// Vertex buffers of a draw and their attributes.
#[verifier::loop_isolation(false)]
pub fn find_vertex_inputs(
    state: &MaxwellThreeDState,
    resources: &MaxwellThreeDResolvedResources,
    bindings: &Vec<Option<ResourceDependency>>,
    refusals: &NeutralRefusals,
) -> (r: Result<(Vec<VertexBufferPlan>, Vec<VertexAttributePlan>), MaxwellThreeDLoweringError>)
    requires
        bindings@.len() == resources.resources@.len(),
    ensures
        match vertex_inputs(
            state,
            resources.models(),
            bindings@,
            refusals,
            0,
            Seq::empty(),
            Seq::empty(),
        ) {
            Ok((buffers, attributes)) => r matches Ok(found) && found.0@ == buffers && found.1@
                == attributes,
            Err(error) => r == Err::<
                (Vec<VertexBufferPlan>, Vec<VertexAttributePlan>),
                MaxwellThreeDLoweringError,
            >(error),
        },
{
    let ghost models = resources.models();
    let ghost whole = vertex_inputs(
        state,
        models,
        bindings@,
        refusals,
        0,
        Seq::empty(),
        Seq::empty(),
    );
    let mut buffers: Vec<VertexBufferPlan> = Vec::new();
    let mut attributes: Vec<VertexAttributePlan> = Vec::new();
    let mut stream: u8 = 0;
    while stream < 32
        invariant
            stream <= 32,
            whole == vertex_inputs(
                state,
                models,
                bindings@,
                refusals,
                stream as int,
                buffers@,
                attributes@,
            ),
        decreases 32 - stream,
    {
        if stream_enabled(state, stream) {
            let mut found: Vec<VertexAttributePlan> = match find_stream_attributes(state, stream) {
                Ok(found) => found,
                Err(error) => {
                    return Err(error);
                },
            };
            if found.len() > 0 {
                let buffer = match find_stream_buffer(
                    state,
                    resources,
                    bindings,
                    refusals,
                    stream,
                ) {
                    Ok(buffer) => buffer,
                    Err(error) => {
                        return Err(error);
                    },
                };
                buffers.push(buffer);
                attributes.append(&mut found);
            }
        }
        stream = stream + 1;
    }
    Ok((buffers, attributes))
}

/// Whether some vertex buffer advances per vertex.
pub open spec fn has_vertex_step(buffers: Seq<VertexBufferPlan>) -> bool {
    exists|i: int|
        0 <= i < buffers.len() && (#[trigger] buffers[i]).step_mode == VertexStepMode::Vertex
}

fn any_vertex_step(buffers: &Vec<VertexBufferPlan>) -> (r: bool)
    ensures
        r == has_vertex_step(buffers@),
{
    let mut index: usize = 0;
    while index < buffers.len()
        invariant
            index <= buffers@.len(),
            forall|i: int|
                #![trigger buffers@[i]]
                0 <= i < index ==> buffers@[i].step_mode != VertexStepMode::Vertex,
        decreases buffers@.len() - index,
    {
        if buffers[index].step_mode == VertexStepMode::Vertex {
            return true;
        }
        index = index + 1;
    }
    false
}

/// Rasterization of the triangles of a draw: bounding boxes are filled only for whole
/// triangles of a list without per-vertex attributes.
pub open spec fn rasterization(
    state: &MaxwellThreeDState,
    topology: PrimitiveTopology,
    arguments: DrawArguments,
    buffers: Seq<VertexBufferPlan>,
) -> Result<TriangleRasterization, MaxwellThreeDLoweringError> {
    match state.raster.fill_via_triangle.value {
        None | Some(MaxwellThreeDFillViaTriangleMode::Disabled) => Ok(TriangleRasterization::Fill),
        Some(MaxwellThreeDFillViaTriangleMode::FillBoundingBox) => {
            if topology != PrimitiveTopology::Triangles {
                Err(
                    MaxwellThreeDLoweringError::UnsupportedFillRectangleDraw(
                        "primitive topology is not a triangle list",
                    ),
                )
            } else if arguments.first_vertex % 3 != 0 || arguments.vertex_count % 3 != 0 {
                Err(
                    MaxwellThreeDLoweringError::UnsupportedFillRectangleDraw(
                        "vertex range is not aligned to complete triangles",
                    ),
                )
            } else if has_vertex_step(buffers) {
                Err(
                    MaxwellThreeDLoweringError::UnsupportedFillRectangleDraw(
                        "per-vertex attributes require vertex-pulling expansion",
                    ),
                )
            } else {
                Ok(TriangleRasterization::FillRectangle)
            }
        },
        Some(MaxwellThreeDFillViaTriangleMode::FillAll) => Err(
            MaxwellThreeDLoweringError::UnsupportedFillViaTriangleSemantics(
                MaxwellThreeDFillViaTriangleMode::FillAll,
            ),
        ),
    }
}

/// Rasterization of the triangles of a draw.
pub fn triangle_rasterization(
    state: &MaxwellThreeDState,
    topology: PrimitiveTopology,
    arguments: DrawArguments,
    buffers: &Vec<VertexBufferPlan>,
) -> (r: Result<TriangleRasterization, MaxwellThreeDLoweringError>)
    ensures
        r == rasterization(state, topology, arguments, buffers@),
{
    match state.raster.fill_via_triangle.value {
        None => Ok(TriangleRasterization::Fill),
        Some(MaxwellThreeDFillViaTriangleMode::Disabled) => Ok(TriangleRasterization::Fill),
        Some(MaxwellThreeDFillViaTriangleMode::FillBoundingBox) => {
            if topology != PrimitiveTopology::Triangles {
                return Err(
                    MaxwellThreeDLoweringError::UnsupportedFillRectangleDraw(
                        "primitive topology is not a triangle list",
                    ),
                );
            }
            if arguments.first_vertex % 3 != 0 || arguments.vertex_count % 3 != 0 {
                return Err(
                    MaxwellThreeDLoweringError::UnsupportedFillRectangleDraw(
                        "vertex range is not aligned to complete triangles",
                    ),
                );
            }
            if any_vertex_step(buffers) {
                return Err(
                    MaxwellThreeDLoweringError::UnsupportedFillRectangleDraw(
                        "per-vertex attributes require vertex-pulling expansion",
                    ),
                );
            }
            Ok(TriangleRasterization::FillRectangle)
        },
        Some(MaxwellThreeDFillViaTriangleMode::FillAll) => Err(
            MaxwellThreeDLoweringError::UnsupportedFillViaTriangleSemantics(
                MaxwellThreeDFillViaTriangleMode::FillAll,
            ),
        ),
    }
}

/// Attachment that the resource at a position is.
pub open spec fn attachment(
    models: Seq<ResolvedModel>,
    bindings: Seq<Option<ResourceDependency>>,
    index: usize,
) -> Result<RenderAttachment, MaxwellThreeDLoweringError> {
    match models[index as int].image() {
        None => Err(MaxwellThreeDLoweringError::ResolvedResourceKindMismatch),
        Some(description) => match crate::sampler_preparation::spec_binding_at(
            models,
            bindings,
            index,
        ) {
            Err(error) => Err(error),
            Ok(ResourceDependency::Image(image)) => Ok(
                RenderAttachment {
                    image,
                    subresources: models[index as int].subresources,
                    kind: description.kind,
                    format: description.format,
                    samples: description.samples,
                },
            ),
            Ok(_) => Err(MaxwellThreeDLoweringError::ResolvedResourceKindMismatch),
        },
    }
}

fn find_attachment(
    resources: &MaxwellThreeDResolvedResources,
    bindings: &Vec<Option<ResourceDependency>>,
    index: usize,
) -> (r: Result<RenderAttachment, MaxwellThreeDLoweringError>)
    requires
        bindings@.len() == resources.resources@.len(),
        index < resources.resources@.len(),
    ensures
        r == attachment(resources.models(), bindings@, index),
{
    proof {
        assert(resources.models()[index as int] == resources.resources@[index as int]@);
    }
    match resources.resources[index].image() {
        None => Err(MaxwellThreeDLoweringError::ResolvedResourceKindMismatch),
        Some(description) => match binding_at(resources, bindings, index) {
            Err(error) => Err(error),
            Ok(ResourceDependency::Image(image)) => Ok(
                RenderAttachment {
                    image,
                    subresources: resources.resources[index].subresources,
                    kind: description.kind,
                    format: description.format,
                    samples: description.samples,
                },
            ),
            Ok(_) => Err(MaxwellThreeDLoweringError::ResolvedResourceKindMismatch),
        },
    }
}

/// Attachments after those found so far, from one of some positions on.
pub open spec fn attachments_from(
    models: Seq<ResolvedModel>,
    bindings: Seq<Option<ResourceDependency>>,
    indices: Seq<usize>,
    from: int,
    found: Seq<RenderAttachment>,
) -> Result<Seq<RenderAttachment>, MaxwellThreeDLoweringError>
    decreases indices.len() - from,
{
    if from < 0 || from >= indices.len() {
        Ok(found)
    } else {
        match attachment(models, bindings, indices[from]) {
            Err(error) => Err(error),
            Ok(record) => attachments_from(
                models,
                bindings,
                indices,
                from + 1,
                found.push(record),
            ),
        }
    }
}

/// Attachments that the resources at some positions are.
#[verifier::loop_isolation(false)]
pub fn attachment_records(
    resources: &MaxwellThreeDResolvedResources,
    bindings: &Vec<Option<ResourceDependency>>,
    indices: &Vec<usize>,
) -> (r: Result<Vec<RenderAttachment>, MaxwellThreeDLoweringError>)
    requires
        bindings@.len() == resources.resources@.len(),
        forall|i: int|
            #![trigger indices@[i]]
            0 <= i < indices@.len() ==> indices@[i] < resources.resources@.len(),
    ensures
        match attachments_from(resources.models(), bindings@, indices@, 0, Seq::empty()) {
            Ok(found) => r matches Ok(records) && records@ == found,
            Err(error) => r == Err::<Vec<RenderAttachment>, MaxwellThreeDLoweringError>(error),
        },
{
    let ghost models = resources.models();
    let ghost whole = attachments_from(models, bindings@, indices@, 0, Seq::empty());
    let mut found: Vec<RenderAttachment> = Vec::new();
    let mut slot: usize = 0;
    while slot < indices.len()
        invariant
            slot <= indices@.len(),
            whole == attachments_from(models, bindings@, indices@, slot as int, found@),
        decreases indices@.len() - slot,
    {
        match find_attachment(resources, bindings, indices[slot]) {
            Ok(record) => {
                found.push(record);
            },
            Err(error) => {
                return Err(error);
            },
        }
        slot = slot + 1;
    }
    Ok(found)
}

/// A filled bounding box is one of whole triangles of a list: no vertex is left over.
pub proof fn law_rectangles_cover_whole_triangles(
    state: &MaxwellThreeDState,
    topology: PrimitiveTopology,
    arguments: DrawArguments,
    buffers: Seq<VertexBufferPlan>,
)
    ensures
        rasterization(state, topology, arguments, buffers) == Ok::<
            TriangleRasterization,
            MaxwellThreeDLoweringError,
        >(TriangleRasterization::FillRectangle) ==> {
            &&& topology == PrimitiveTopology::Triangles
            &&& arguments.first_vertex % 3 == 0
            &&& arguments.vertex_count % 3 == 0
            &&& !has_vertex_step(buffers)
        },
{
}

/// Every attribute of a stream is fed by that stream, at a location of its own, in
/// increasing order.
pub proof fn law_stream_attributes_are_ordered(
    state: &MaxwellThreeDState,
    stream: u8,
    from: int,
    found: Seq<VertexAttributePlan>,
)
    requires
        0 <= from <= 32,
        forall|i: int|
            #![trigger found[i]]
            0 <= i < found.len() ==> found[i].stream == stream && found[i].shader_location < from,
        forall|i: int, j: int|
            #![trigger found[i], found[j]]
            0 <= i < j < found.len() ==> found[i].shader_location < found[j].shader_location,
    ensures
        stream_attributes(state, stream, from, found) matches Ok(all) ==> {
            &&& forall|i: int|
                #![trigger all[i]]
                0 <= i < all.len() ==> all[i].stream == stream && all[i].shader_location < 32
            &&& forall|i: int, j: int|
                #![trigger all[i], all[j]]
                0 <= i < j < all.len() ==> all[i].shader_location < all[j].shader_location
        },
    decreases 32 - from,
{
    if from < 32 {
        let attribute = state.vertex_input.attributes[from].value;
        if !feeds(attribute, stream) {
            law_stream_attributes_are_ordered(state, stream, from + 1, found);
        } else if let Ok(format) = neutral_vertex_format(from as u8, attribute->Some_0) {
            law_stream_attributes_are_ordered(
                state,
                stream,
                from + 1,
                found.push(
                    VertexAttributePlan {
                        stream,
                        format,
                        offset: attribute->Some_0.offset() as u64,
                        shader_location: from as u32,
                    },
                ),
            );
        }
    }
}

} // verus!
