//! Translated shaders of a draw and the resources they use.

use vstd::prelude::*;
use crate::lowering_error::MaxwellThreeDLoweringError;
use crate::neutral::{DescriptorKind, PipelineStages, ResourceUsage, ShaderStage};
use crate::resource::{MaxwellThreeDResourceRole, MaxwellThreeDTextureDimension, MaxwellThreeDTextureReference};
use crate::shader_execution::MaxwellThreeDDirectlyAddressableMemory;
use crate::state::MaxwellThreeDState;

verus! {

/// Translation of one enabled shader stage.
#[derive(Clone, Copy, Debug, PartialEq, Eq)]
pub struct MaxwellThreeDTranslatedShader {
    pub stage: ShaderStage,
    pub shader: u64,
    pub cache_fingerprint: u128,
    pub directly_addressable_memory: Option<MaxwellThreeDDirectlyAddressableMemory>,
    pub maximum_api_visible_calls: u16,
}

impl MaxwellThreeDTranslatedShader {
    #[must_use]
    pub fn new(
        stage: ShaderStage,
        shader: u64,
        cache_fingerprint: u128,
        directly_addressable_memory: Option<MaxwellThreeDDirectlyAddressableMemory>,
        maximum_api_visible_calls: u16,
    ) -> (r: MaxwellThreeDTranslatedShader)
        ensures
            r.stage == stage,
            r.shader == shader,
            r.cache_fingerprint == cache_fingerprint,
            r.directly_addressable_memory == directly_addressable_memory,
            r.maximum_api_visible_calls == maximum_api_visible_calls,
    {
        MaxwellThreeDTranslatedShader {
            stage,
            shader,
            cache_fingerprint,
            directly_addressable_memory,
            maximum_api_visible_calls,
        }
    }

    #[must_use]
    pub fn stage(self) -> (r: ShaderStage)
        ensures
            r == self.stage,
    {
        self.stage
    }

    #[must_use]
    pub fn shader(self) -> (r: u64)
        ensures
            r == self.shader,
    {
        self.shader
    }

    /// Shader-memory configuration that the shader was translated for, if it uses any.
    #[must_use]
    pub fn directly_addressable_memory(self) -> (r: Option<MaxwellThreeDDirectlyAddressableMemory>)
        ensures
            r == self.directly_addressable_memory,
    {
        self.directly_addressable_memory
    }

    /// Bound on the calls that the visible-call limit governs.
    #[must_use]
    pub fn maximum_api_visible_calls(self) -> (r: u16)
        ensures
            r == self.maximum_api_visible_calls,
    {
        self.maximum_api_visible_calls
    }
}

/// Use of one resolved resource by the shaders of a draw.
#[derive(Clone, Copy, Debug, PartialEq, Eq)]
pub struct MaxwellThreeDShaderResourceUse {
    pub role: MaxwellThreeDResourceRole,
    pub binding: u8,
    pub kind: DescriptorKind,
    pub stages: PipelineStages,
    pub usage: Option<ResourceUsage>,
}

impl MaxwellThreeDShaderResourceUse {
    /// Only samplers are used without an access of their own, and the stages of any other
    /// use must be able to make its access, which `access_is_valid` tells.
    pub fn new(
        role: MaxwellThreeDResourceRole,
        binding: u8,
        kind: DescriptorKind,
        stages: PipelineStages,
        usage: Option<ResourceUsage>,
        access_is_valid: bool,
    ) -> (r: Result<MaxwellThreeDShaderResourceUse, MaxwellThreeDLoweringError>)
        ensures
            r == if (usage is Some && !access_is_valid) || (usage is None && kind
                != DescriptorKind::Sampler) {
                Err::<MaxwellThreeDShaderResourceUse, MaxwellThreeDLoweringError>(
                    MaxwellThreeDLoweringError::InvalidShaderResourceUse { role },
                )
            } else {
                Ok(MaxwellThreeDShaderResourceUse { role, binding, kind, stages, usage })
            },
    {
        if (usage.is_some() && !access_is_valid) || (usage.is_none() && kind
            != DescriptorKind::Sampler) {
            return Err(MaxwellThreeDLoweringError::InvalidShaderResourceUse { role });
        }
        Ok(MaxwellThreeDShaderResourceUse { role, binding, kind, stages, usage })
    }

    #[must_use]
    pub fn role(self) -> (r: MaxwellThreeDResourceRole)
        ensures
            r == self.role,
    {
        self.role
    }

    fn same(self, other: MaxwellThreeDShaderResourceUse) -> (r: bool)
        ensures
            r == (self == other),
    {
        self.role == other.role && self.binding == other.binding && self.kind == other.kind
            && self.stages == other.stages && self.usage == other.usage
    }
}

/// Shaders of one draw with the resources they use. The identity tells sets apart.
#[derive(Debug)]
pub struct MaxwellThreeDTranslatedShaders {
    pub identity: u64,
    pub shaders: Vec<MaxwellThreeDTranslatedShader>,
    pub resources: Vec<MaxwellThreeDShaderResourceUse>,
}

/// Content of a set of translated shaders.
#[verifier::ext_equal]
pub struct ShadersModel {
    pub identity: u64,
    pub shaders: Seq<MaxwellThreeDTranslatedShader>,
    pub resources: Seq<MaxwellThreeDShaderResourceUse>,
}

impl View for MaxwellThreeDTranslatedShaders {
    type V = ShadersModel;

    open spec fn view(&self) -> ShadersModel {
        ShadersModel {
            identity: self.identity,
            shaders: self.shaders@,
            resources: self.resources@,
        }
    }
}

impl ShadersModel {
    /// Graphics stages, each at most once, and no use twice.
    pub open spec fn consistent(self) -> bool {
        &&& forall|i: int|
            #![trigger self.shaders[i]]
            0 <= i < self.shaders.len() ==> self.shaders[i].stage != ShaderStage::Compute
        &&& forall|i: int, j: int|
            #![trigger self.shaders[i], self.shaders[j]]
            0 <= i < j < self.shaders.len() ==> self.shaders[i].stage != self.shaders[j].stage
        &&& forall|i: int, j: int|
            #![trigger self.resources[i], self.resources[j]]
            0 <= i < j < self.resources.len() ==> self.resources[i] != self.resources[j]
    }

    /// What becomes of an attempt to form the set.
    pub open spec fn check(self) -> Result<(), MaxwellThreeDLoweringError> {
        if self.shaders.len() == 0 {
            Err(MaxwellThreeDLoweringError::ShaderTranslationRequired)
        } else if !self.consistent() {
            Err(MaxwellThreeDLoweringError::InvalidTranslatedShaders)
        } else {
            Ok(())
        }
    }

    /// Whether some shader is of a stage.
    pub open spec fn has_stage(self, stage: ShaderStage) -> bool {
        exists|i: int| 0 <= i < self.shaders.len() && (#[trigger] self.shaders[i]).stage == stage
    }
}

impl MaxwellThreeDTranslatedShaders {
    #[verifier::loop_isolation(false)]
    pub fn new(
        identity: u64,
        shaders: Vec<MaxwellThreeDTranslatedShader>,
        resources: Vec<MaxwellThreeDShaderResourceUse>,
    ) -> (r: Result<MaxwellThreeDTranslatedShaders, MaxwellThreeDLoweringError>)
        ensures
            ({
                let model = ShadersModel { identity, shaders: shaders@, resources: resources@ };
                match model.check() {
                    Ok(()) => r matches Ok(set) && set@ == model,
                    Err(error) => r == Err::<
                        MaxwellThreeDTranslatedShaders,
                        MaxwellThreeDLoweringError,
                    >(error),
                }
            }),
    {
        let ghost model = ShadersModel { identity, shaders: shaders@, resources: resources@ };
        if shaders.len() == 0 {
            return Err(MaxwellThreeDLoweringError::ShaderTranslationRequired);
        }
        let mut index: usize = 0;
        while index < shaders.len()
            invariant
                index <= shaders@.len(),
                model.shaders == shaders@,
                shaders@.len() > 0,
                forall|i: int|
                    #![trigger shaders@[i]]
                    0 <= i < index ==> shaders@[i].stage != ShaderStage::Compute,
                forall|i: int, j: int|
                    #![trigger shaders@[i], shaders@[j]]
                    0 <= i < j < index ==> shaders@[i].stage != shaders@[j].stage,
            decreases shaders@.len() - index,
        {
            let shader = shaders[index];
            if shader.stage == ShaderStage::Compute {
                proof {
                    assert(model.shaders[index as int].stage == ShaderStage::Compute);
                }
                return Err(MaxwellThreeDLoweringError::InvalidTranslatedShaders);
            }
            let mut earlier: usize = 0;
            while earlier < index
                invariant
                    earlier <= index < shaders@.len(),
                    model.shaders == shaders@,
                    shader == shaders@[index as int],
                    forall|i: int|
                        #![trigger shaders@[i]]
                        0 <= i < earlier ==> shaders@[i].stage != shader.stage,
                decreases index - earlier,
            {
                if shaders[earlier].stage == shader.stage {
                    proof {
                        assert(model.shaders[earlier as int].stage
                            == model.shaders[index as int].stage);
                    }
                    return Err(MaxwellThreeDLoweringError::InvalidTranslatedShaders);
                }
                earlier = earlier + 1;
            }
            index = index + 1;
        }
        let mut position: usize = 0;
        while position < resources.len()
            invariant
                position <= resources@.len(),
                model.resources == resources@,
                model.shaders.len() > 0,
                forall|i: int, j: int|
                    #![trigger resources@[i], resources@[j]]
                    0 <= i < j < position ==> resources@[i] != resources@[j],
            decreases resources@.len() - position,
        {
            let resource = resources[position];
            let mut earlier: usize = 0;
            while earlier < position
                invariant
                    earlier <= position < resources@.len(),
                    model.resources == resources@,
                    model.shaders.len() > 0,
                    resource == resources@[position as int],
                    forall|i: int|
                        #![trigger resources@[i]]
                        0 <= i < earlier ==> resources@[i] != resource,
                decreases position - earlier,
            {
                if resources[earlier].same(resource) {
                    proof {
                        assert(model.resources[earlier as int] == model.resources[position as int]);
                    }
                    return Err(MaxwellThreeDLoweringError::InvalidTranslatedShaders);
                }
                earlier = earlier + 1;
            }
            position = position + 1;
        }
        Ok(MaxwellThreeDTranslatedShaders { identity, shaders, resources })
    }

    #[must_use]
    pub fn shaders(&self) -> (r: &Vec<MaxwellThreeDTranslatedShader>)
        ensures
            r@ == self@.shaders,
    {
        &self.shaders
    }

    #[must_use]
    pub fn resources(&self) -> (r: &Vec<MaxwellThreeDShaderResourceUse>)
        ensures
            r@ == self@.resources,
    {
        &self.resources
    }
}

/// Resource that a shader program declares, by what the program does with it.
#[derive(Clone, Copy, Debug, PartialEq, Eq, Hash, Structural)]
pub enum ShaderResourceKind {
    ConstantBuffer,
    SampledImage,
    SampledImage2DArray,
    Sampler,
    Other,
}

/// One resource that a shader program declares. The local binding is its number within
/// the bind group of the program, and `access_is_valid` tells whether the stages of the
/// program can read it.
#[derive(Clone, Copy, Debug, PartialEq, Eq)]
pub struct ShaderProgramResource {
    pub binding: u8,
    pub kind: ShaderResourceKind,
    pub readable: bool,
    pub writable: bool,
    pub local_binding: Option<u8>,
    pub access_is_valid: bool,
}

/// Texture of a shader program: bindings of its image and sampler, and where its handle
/// is in the texture constant buffer.
#[derive(Clone, Copy, Debug, PartialEq, Eq, Hash, Structural)]
pub struct ShaderTextureBinding {
    pub image_binding: u8,
    pub sampler_binding: u8,
    pub byte_offset: u32,
    pub image_kind: ShaderResourceKind,
}

/// Translated shader program, as far as lowering reads it: its stage, and the stage its
/// backend module was built for.
#[derive(Debug)]
pub struct MaxwellThreeDShaderProgram {
    pub fingerprint: u128,
    pub stage: ShaderStage,
    pub module_stage: ShaderStage,
    pub bind_group: Option<u8>,
    pub texture_slot: Option<u8>,
    pub directly_addressable_memory: Option<MaxwellThreeDDirectlyAddressableMemory>,
    pub maximum_api_visible_calls: u16,
    pub resources: Vec<ShaderProgramResource>,
    pub textures: Vec<ShaderTextureBinding>,
}

/// Content of a translated shader program.
#[verifier::ext_equal]
pub struct ProgramModel {
    pub fingerprint: u128,
    pub stage: ShaderStage,
    pub module_stage: ShaderStage,
    pub bind_group: Option<u8>,
    pub texture_slot: Option<u8>,
    pub directly_addressable_memory: Option<MaxwellThreeDDirectlyAddressableMemory>,
    pub maximum_api_visible_calls: u16,
    pub resources: Seq<ShaderProgramResource>,
    pub textures: Seq<ShaderTextureBinding>,
}

impl View for MaxwellThreeDShaderProgram {
    type V = ProgramModel;

    open spec fn view(&self) -> ProgramModel {
        ProgramModel {
            fingerprint: self.fingerprint,
            stage: self.stage,
            module_stage: self.module_stage,
            bind_group: self.bind_group,
            texture_slot: self.texture_slot,
            directly_addressable_memory: self.directly_addressable_memory,
            maximum_api_visible_calls: self.maximum_api_visible_calls,
            resources: self.resources@,
            textures: self.textures@,
        }
    }
}

impl ProgramModel {
    /// Shader that the program becomes under an identity.
    pub open spec fn translated(self, shader: u64) -> MaxwellThreeDTranslatedShader {
        MaxwellThreeDTranslatedShader {
            stage: self.stage,
            shader,
            cache_fingerprint: self.fingerprint,
            directly_addressable_memory: self.directly_addressable_memory,
            maximum_api_visible_calls: self.maximum_api_visible_calls,
        }
    }
}

/// First texture of which the image, or else the sampler, has a binding.
pub open spec fn texture_of(textures: Seq<ShaderTextureBinding>, binding: u8, sampler: bool) -> Option<
    ShaderTextureBinding,
>
    decreases textures.len(),
{
    if textures.len() == 0 {
        None
    } else if (if sampler {
        textures[0].sampler_binding
    } else {
        textures[0].image_binding
    }) == binding {
        Some(textures[0])
    } else {
        texture_of(textures.drop_first(), binding, sampler)
    }
}

fn find_texture(textures: &Vec<ShaderTextureBinding>, binding: u8, sampler: bool) -> (r: Option<
    ShaderTextureBinding,
>)
    ensures
        r == texture_of(textures@, binding, sampler),
{
    let mut index: usize = 0;
    proof {
        assert(textures@.skip(0) =~= textures@);
    }
    while index < textures.len()
        invariant
            index <= textures@.len(),
            texture_of(textures@, binding, sampler) == texture_of(
                textures@.skip(index as int),
                binding,
                sampler,
            ),
        decreases textures@.len() - index,
    {
        let texture = textures[index];
        proof {
            assert(textures@.skip(index as int).drop_first() =~= textures@.skip(index + 1));
        }
        let bound: u8 = if sampler {
            texture.sampler_binding
        } else {
            texture.image_binding
        };
        if bound == binding {
            return Some(texture);
        }
        index = index + 1;
    }
    None
}

/// Pipeline stages that a shader runs in; a compute shader runs in none of a draw.
pub open spec fn spec_shader_pipeline_stages(stage: ShaderStage) -> Result<
    PipelineStages,
    MaxwellThreeDLoweringError,
> {
    match stage {
        ShaderStage::Vertex => Ok(PipelineStages(0x1)),
        ShaderStage::TessellationControl => Ok(PipelineStages(0x2)),
        ShaderStage::TessellationEvaluation => Ok(PipelineStages(0x4)),
        ShaderStage::Geometry => Ok(PipelineStages(0x8)),
        ShaderStage::Fragment => Ok(PipelineStages(0x10)),
        ShaderStage::Compute => Err(MaxwellThreeDLoweringError::InvalidTranslatedShaders),
    }
}

#[verifier::when_used_as_spec(spec_shader_pipeline_stages)]
pub fn shader_pipeline_stages(stage: ShaderStage) -> (r: Result<
    PipelineStages,
    MaxwellThreeDLoweringError,
>)
    ensures
        r == spec_shader_pipeline_stages(stage),
{
    match stage {
        ShaderStage::Vertex => Ok(PipelineStages(0x1)),
        ShaderStage::TessellationControl => Ok(PipelineStages(0x2)),
        ShaderStage::TessellationEvaluation => Ok(PipelineStages(0x4)),
        ShaderStage::Geometry => Ok(PipelineStages(0x8)),
        ShaderStage::Fragment => Ok(PipelineStages(0x10)),
        ShaderStage::Compute => Err(MaxwellThreeDLoweringError::InvalidTranslatedShaders),
    }
}

/// Reference to the handle of a texture of a program.
pub open spec fn texture_reference(
    bind_group: Option<u8>,
    texture_slot: Option<u8>,
    texture: Option<ShaderTextureBinding>,
) -> Option<MaxwellThreeDTextureReference> {
    match (bind_group, texture_slot, texture) {
        (Some(group), Some(slot), Some(texture)) => Some(
            MaxwellThreeDTextureReference { group, slot, byte_offset: texture.byte_offset },
        ),
        _ => None,
    }
}

/// Use that a declared resource makes: constant buffers, two-dimensional sampled images
/// and samplers that are only read. Anything else has no use.
pub open spec fn resource_use(program: ProgramModel, resource: ShaderProgramResource) -> Option<
    (MaxwellThreeDResourceRole, DescriptorKind, Option<ResourceUsage>),
> {
    if !resource.readable || resource.writable {
        None
    } else {
        match resource.kind {
            ShaderResourceKind::ConstantBuffer => match (
                program.bind_group,
                resource.local_binding,
            ) {
                (Some(group), Some(slot)) => Some(
                    (
                        MaxwellThreeDResourceRole::ConstantBuffer { group, slot },
                        DescriptorKind::Buffer,
                        Some(ResourceUsage::StorageBuffer),
                    ),
                ),
                _ => None,
            },
            ShaderResourceKind::SampledImage | ShaderResourceKind::SampledImage2DArray => {
                let texture = texture_of(program.textures, resource.binding, false);
                match texture_reference(program.bind_group, program.texture_slot, texture) {
                    None => None,
                    Some(reference) => match texture->Some_0.image_kind {
                        ShaderResourceKind::SampledImage => Some(
                            (
                                MaxwellThreeDResourceRole::SampledImage {
                                    texture: reference,
                                    dimension: MaxwellThreeDTextureDimension::Two,
                                },
                                DescriptorKind::SampledImage,
                                Some(ResourceUsage::SampledImage),
                            ),
                        ),
                        ShaderResourceKind::SampledImage2DArray => Some(
                            (
                                MaxwellThreeDResourceRole::SampledImage {
                                    texture: reference,
                                    dimension: MaxwellThreeDTextureDimension::TwoArray,
                                },
                                DescriptorKind::SampledImage,
                                Some(ResourceUsage::SampledImage),
                            ),
                        ),
                        _ => None,
                    },
                }
            },
            ShaderResourceKind::Sampler => match texture_reference(
                program.bind_group,
                program.texture_slot,
                texture_of(program.textures, resource.binding, true),
            ) {
                Some(reference) => Some(
                    (MaxwellThreeDResourceRole::Sampler(reference), DescriptorKind::Sampler, None),
                ),
                None => None,
            },
            ShaderResourceKind::Other => None,
        }
    }
}

fn find_resource_use(program: &MaxwellThreeDShaderProgram, resource: ShaderProgramResource) -> (r:
    Option<(MaxwellThreeDResourceRole, DescriptorKind, Option<ResourceUsage>)>)
    ensures
        r == resource_use(program@, resource),
{
    if !resource.readable || resource.writable {
        return None;
    }
    match resource.kind {
        ShaderResourceKind::ConstantBuffer => match (program.bind_group, resource.local_binding) {
            (Some(group), Some(slot)) => Some(
                (
                    MaxwellThreeDResourceRole::ConstantBuffer { group, slot },
                    DescriptorKind::Buffer,
                    Some(ResourceUsage::StorageBuffer),
                ),
            ),
            _ => None,
        },
        ShaderResourceKind::SampledImage | ShaderResourceKind::SampledImage2DArray => {
            match (
                program.bind_group,
                program.texture_slot,
                find_texture(&program.textures, resource.binding, false),
            ) {
                (Some(group), Some(slot), Some(texture)) => {
                    let reference = MaxwellThreeDTextureReference {
                        group,
                        slot,
                        byte_offset: texture.byte_offset,
                    };
                    let dimension = match texture.image_kind {
                        ShaderResourceKind::SampledImage => MaxwellThreeDTextureDimension::Two,
                        ShaderResourceKind::SampledImage2DArray => MaxwellThreeDTextureDimension::TwoArray,
                        _ => {
                            return None;
                        },
                    };
                    Some(
                        (
                            MaxwellThreeDResourceRole::SampledImage {
                                texture: reference,
                                dimension,
                            },
                            DescriptorKind::SampledImage,
                            Some(ResourceUsage::SampledImage),
                        ),
                    )
                },
                _ => None,
            }
        },
        ShaderResourceKind::Sampler => match (
            program.bind_group,
            program.texture_slot,
            find_texture(&program.textures, resource.binding, true),
        ) {
            (Some(group), Some(slot), Some(texture)) => Some(
                (
                    MaxwellThreeDResourceRole::Sampler(
                        MaxwellThreeDTextureReference {
                            group,
                            slot,
                            byte_offset: texture.byte_offset,
                        },
                    ),
                    DescriptorKind::Sampler,
                    None,
                ),
            ),
            _ => None,
        },
        ShaderResourceKind::Other => None,
    }
}

/// Position of the use with a role.
pub open spec fn use_position(
    uses: Seq<MaxwellThreeDShaderResourceUse>,
    role: MaxwellThreeDResourceRole,
) -> Option<int>
    decreases uses.len(),
{
    if uses.len() == 0 {
        None
    } else {
        match use_position(uses.drop_last(), role) {
            Some(position) => Some(position),
            None => if uses.last().role == role {
                Some(uses.len() - 1)
            } else {
                None
            },
        }
    }
}

proof fn lemma_use_position(uses: Seq<MaxwellThreeDShaderResourceUse>, role: MaxwellThreeDResourceRole)
    ensures
        match use_position(uses, role) {
            Some(position) => 0 <= position < uses.len() && uses[position].role == role && forall|
                i: int,
            |
                #![trigger uses[i]]
                0 <= i < position ==> uses[i].role != role,
            None => forall|i: int|
                #![trigger uses[i]]
                0 <= i < uses.len() ==> uses[i].role != role,
        },
    decreases uses.len(),
{
    if uses.len() > 0 {
        lemma_use_position(uses.drop_last(), role);
        assert forall|i: int| 0 <= i < uses.len() - 1 implies uses[i] == uses.drop_last()[i] by {}
    }
}

/// Uses after one more: a use of a known role adds its stages and must agree on binding
/// and kind, a use of a new role must be valid and comes last.
pub open spec fn merged(
    uses: Seq<MaxwellThreeDShaderResourceUse>,
    added: MaxwellThreeDShaderResourceUse,
    access_is_valid: bool,
) -> Result<Seq<MaxwellThreeDShaderResourceUse>, MaxwellThreeDLoweringError> {
    match use_position(uses, added.role) {
        Some(position) => if uses[position].binding != added.binding || uses[position].kind
            != added.kind {
            Err(MaxwellThreeDLoweringError::InvalidTranslatedShaders)
        } else {
            Ok(
                uses.update(
                    position,
                    MaxwellThreeDShaderResourceUse {
                        stages: uses[position].stages.union(added.stages),
                        ..uses[position]
                    },
                ),
            )
        },
        None => if (added.usage is Some && !access_is_valid) || (added.usage is None && added.kind
            != DescriptorKind::Sampler) {
            Err(MaxwellThreeDLoweringError::InvalidShaderResourceUse { role: added.role })
        } else {
            Ok(uses.push(added))
        },
    }
}

fn merge(
    uses: &mut Vec<MaxwellThreeDShaderResourceUse>,
    added: MaxwellThreeDShaderResourceUse,
    access_is_valid: bool,
) -> (r: Result<(), MaxwellThreeDLoweringError>)
    ensures
        match merged(old(uses)@, added, access_is_valid) {
            Ok(after) => r is Ok && final(uses)@ == after,
            Err(error) => r == Err::<(), MaxwellThreeDLoweringError>(error) && final(uses)@ == old(
                uses,
            )@,
        },
{
    let ghost before = uses@;
    let mut index: usize = 0;
    while index < uses.len()
        invariant
            index <= uses@.len(),
            uses@ == before,
            forall|i: int|
                #![trigger before[i]]
                0 <= i < index ==> before[i].role != added.role,
        ensures
            index <= uses@.len(),
            uses@ == before,
            forall|i: int|
                #![trigger before[i]]
                0 <= i < index ==> before[i].role != added.role,
            index < uses@.len() ==> before[index as int].role == added.role,
        decreases uses@.len() - index,
    {
        if uses[index].role == added.role {
            break;
        }
        index = index + 1;
    }
    proof {
        lemma_use_position(before, added.role);
        if use_position(before, added.role) is Some {
            let position = use_position(before, added.role)->Some_0;
            assert(before[position].role == added.role);
        }
    }
    if index < uses.len() {
        let existing = uses[index];
        if existing.binding != added.binding || existing.kind != added.kind {
            return Err(MaxwellThreeDLoweringError::InvalidTranslatedShaders);
        }
        let stages = existing.stages.union(added.stages);
        uses.set(
            index,
            MaxwellThreeDShaderResourceUse {
                role: existing.role,
                binding: existing.binding,
                kind: existing.kind,
                stages,
                usage: existing.usage,
            },
        );
        return Ok(());
    }
    match MaxwellThreeDShaderResourceUse::new(
        added.role,
        added.binding,
        added.kind,
        added.stages,
        added.usage,
        access_is_valid,
    ) {
        Ok(valid) => {
            uses.push(valid);
            Ok(())
        },
        Err(error) => Err(error),
    }
}

/// Uses after the declared resources of a program from a position on.
pub open spec fn uses_from(
    uses: Seq<MaxwellThreeDShaderResourceUse>,
    program: ProgramModel,
    stages: PipelineStages,
    from: int,
) -> Result<Seq<MaxwellThreeDShaderResourceUse>, MaxwellThreeDLoweringError>
    decreases program.resources.len() - from,
{
    if from < 0 || from >= program.resources.len() {
        Ok(uses)
    } else {
        match resource_use(program, program.resources[from]) {
            None => Err(MaxwellThreeDLoweringError::InvalidTranslatedShaders),
            Some((role, kind, usage)) => match merged(
                uses,
                MaxwellThreeDShaderResourceUse {
                    role,
                    binding: program.resources[from].binding,
                    kind,
                    stages,
                    usage,
                },
                program.resources[from].access_is_valid,
            ) {
                Err(error) => Err(error),
                Ok(uses) => uses_from(uses, program, stages, from + 1),
            },
        }
    }
}

/// Adds the uses of a program.
#[verifier::loop_isolation(false)]
pub fn add_program_uses(
    uses: &mut Vec<MaxwellThreeDShaderResourceUse>,
    program: &MaxwellThreeDShaderProgram,
    stages: PipelineStages,
) -> (r: Result<(), MaxwellThreeDLoweringError>)
    ensures
        match uses_from(old(uses)@, program@, stages, 0) {
            Ok(after) => r is Ok && final(uses)@ == after,
            Err(error) => r == Err::<(), MaxwellThreeDLoweringError>(error),
        },
{
    let ghost whole = uses_from(uses@, program@, stages, 0);
    let mut index: usize = 0;
    while index < program.resources.len()
        invariant
            index <= program.resources@.len(),
            whole == uses_from(uses@, program@, stages, index as int),
        decreases program.resources@.len() - index,
    {
        let resource = program.resources[index];
        let (role, kind, usage) = match find_resource_use(program, resource) {
            Some(found) => found,
            None => {
                return Err(MaxwellThreeDLoweringError::InvalidTranslatedShaders);
            },
        };
        let added = MaxwellThreeDShaderResourceUse {
            role,
            binding: resource.binding,
            kind,
            stages,
            usage,
        };
        match merge(uses, added, resource.access_is_valid) {
            Ok(()) => {},
            Err(error) => {
                return Err(error);
            },
        }
        index = index + 1;
    }
    Ok(())
}

/// Every role of the uses of a program occurs once, provided that this held before.
pub proof fn law_uses_have_distinct_roles(
    uses: Seq<MaxwellThreeDShaderResourceUse>,
    program: ProgramModel,
    stages: PipelineStages,
    from: int,
)
    requires
        0 <= from <= program.resources.len(),
        forall|i: int, j: int|
            #![trigger uses[i], uses[j]]
            0 <= i < j < uses.len() ==> uses[i].role != uses[j].role,
    ensures
        uses_from(uses, program, stages, from) matches Ok(after) ==> forall|i: int, j: int|
            #![trigger after[i], after[j]]
            0 <= i < j < after.len() ==> after[i].role != after[j].role,
    decreases program.resources.len() - from,
{
    if from < program.resources.len() {
        if let Some((role, kind, usage)) = resource_use(program, program.resources[from]) {
            let added = MaxwellThreeDShaderResourceUse {
                role,
                binding: program.resources[from].binding,
                kind,
                stages,
                usage,
            };
            lemma_use_position(uses, role);
            if let Ok(after) = merged(uses, added, program.resources[from].access_is_valid) {
                law_uses_have_distinct_roles(after, program, stages, from + 1);
            }
        }
    }
}

/// What becomes of a draw whose shaders make more visible calls than the limit allows:
/// the first such shader is reported.
pub open spec fn visible_call_check(
    limit: u16,
    shaders: Seq<MaxwellThreeDTranslatedShader>,
) -> Result<(), MaxwellThreeDLoweringError>
    decreases shaders.len(),
{
    if shaders.len() == 0 {
        Ok(())
    } else if shaders[0].maximum_api_visible_calls > limit {
        Err(
            MaxwellThreeDLoweringError::VisibleCallLimitExceeded {
                stage: shaders[0].stage,
                required: shaders[0].maximum_api_visible_calls,
                limit,
            },
        )
    } else {
        visible_call_check(limit, shaders.drop_first())
    }
}

/// Checks the calls of the shaders against the limit in force, if there is one.
#[verifier::loop_isolation(false)]
pub fn validate_visible_call_limit(
    limit: Option<u16>,
    shaders: &MaxwellThreeDTranslatedShaders,
) -> (r: Result<(), MaxwellThreeDLoweringError>)
    ensures
        r == match limit {
            Some(limit) => visible_call_check(limit, shaders@.shaders),
            None => Ok(()),
        },
{
    let limit: u16 = match limit {
        Some(limit) => limit,
        None => {
            return Ok(());
        },
    };
    let mut index: usize = 0;
    proof {
        assert(shaders@.shaders.skip(0) =~= shaders@.shaders);
    }
    while index < shaders.shaders.len()
        invariant
            index <= shaders@.shaders.len(),
            visible_call_check(limit, shaders@.shaders) == visible_call_check(
                limit,
                shaders@.shaders.skip(index as int),
            ),
        decreases shaders@.shaders.len() - index,
    {
        let shader = shaders.shaders[index];
        proof {
            assert(shaders@.shaders.skip(index as int).drop_first() =~= shaders@.shaders.skip(
                index + 1,
            ));
        }
        if shader.maximum_api_visible_calls > limit {
            return Err(
                MaxwellThreeDLoweringError::VisibleCallLimitExceeded {
                    stage: shader.stage,
                    required: shader.maximum_api_visible_calls,
                    limit,
                },
            );
        }
        index = index + 1;
    }
    Ok(())
}

/// What becomes of a draw whose shaders were translated for a shader-memory
/// configuration: it must be programmed, and be that one.
pub open spec fn shader_memory_check(
    configured: Option<MaxwellThreeDDirectlyAddressableMemory>,
    bytes: [u32; 8],
    shaders: Seq<MaxwellThreeDTranslatedShader>,
) -> Result<(), MaxwellThreeDLoweringError>
    decreases shaders.len(),
{
    if shaders.len() == 0 {
        Ok(())
    } else {
        match (shaders[0].directly_addressable_memory, configured) {
            (None, _) => shader_memory_check(configured, bytes, shaders.drop_first()),
            (Some(_), None) => Err(
                MaxwellThreeDLoweringError::IncompleteDraw("SET_L1_CONFIGURATION"),
            ),
            (Some(required), Some(configured_memory)) => if required != configured_memory {
                Err(
                    MaxwellThreeDLoweringError::TranslatedShaderMemoryConfigurationMismatch {
                        stage: shaders[0].stage,
                        configured: configured_memory,
                        required,
                        configured_bytes: bytes[(configured_memory.raw() % 8) as int],
                        required_bytes: bytes[(required.raw() % 8) as int],
                    },
                )
            } else {
                shader_memory_check(configured, bytes, shaders.drop_first())
            },
        }
    }
}

/// Checks the shader-memory configuration that shaders were translated for. `bytes` holds
/// the memory that each configuration code selects.
#[verifier::loop_isolation(false)]
pub fn validate_shader_memory_configuration(
    state: &MaxwellThreeDState,
    bytes: &[u32; 8],
    shaders: &MaxwellThreeDTranslatedShaders,
) -> (r: Result<(), MaxwellThreeDLoweringError>)
    ensures
        r == shader_memory_check(
            state.shader_execution.l1_configuration.value,
            *bytes,
            shaders@.shaders,
        ),
{
    let configured = state.shader_execution.l1_configuration.value;
    let mut index: usize = 0;
    proof {
        assert(shaders@.shaders.skip(0) =~= shaders@.shaders);
    }
    while index < shaders.shaders.len()
        invariant
            index <= shaders@.shaders.len(),
            shader_memory_check(configured, *bytes, shaders@.shaders) == shader_memory_check(
                configured,
                *bytes,
                shaders@.shaders.skip(index as int),
            ),
        decreases shaders@.shaders.len() - index,
    {
        let shader = shaders.shaders[index];
        proof {
            assert(shaders@.shaders.skip(index as int).drop_first() =~= shaders@.shaders.skip(
                index + 1,
            ));
        }
        if let Some(required) = shader.directly_addressable_memory {
            match configured {
                None => {
                    return Err(MaxwellThreeDLoweringError::IncompleteDraw("SET_L1_CONFIGURATION"));
                },
                Some(configured) => {
                    if required != configured {
                        return Err(
                            MaxwellThreeDLoweringError::TranslatedShaderMemoryConfigurationMismatch {
                                stage: shader.stage,
                                configured,
                                required,
                                configured_bytes: bytes[(configured.raw() % 8) as usize],
                                required_bytes: bytes[(required.raw() % 8) as usize],
                            },
                        );
                    }
                },
            }
        }
        index = index + 1;
    }
    Ok(())
}

} // verus!
