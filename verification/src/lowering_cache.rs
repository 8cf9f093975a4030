//! Objects and translations that lowering keeps for later operations.

use vstd::prelude::*;
use crate::draw_plan::{DescriptorEntry, DrawPlan, PlanModel, RenderPassAttachment};
use crate::fingerprint_cache::FingerprintCache;
use crate::lists::{copied, holds_dependency, holds_number, same_numbers};
use crate::lowering_error::MaxwellThreeDLoweringError;
use crate::neutral::{AccessScope, AccessTarget, GpuAllocationDescription, GpuAllocationId, ResourceDependency, ShaderStage};
use crate::resource::{BackingPiece, MaxwellThreeDResolvedResource, MaxwellThreeDResolvedSampler, ResolvedModel, ViewShape};
use crate::state::MaxwellThreeDState;
use crate::translated_shaders::{add_program_uses, MaxwellThreeDShaderProgram, MaxwellThreeDShaderResourceUse, MaxwellThreeDTranslatedShader, MaxwellThreeDTranslatedShaders, ProgramModel, shader_pipeline_stages, ShadersModel};

verus! {

/// What a view retains of the contents of its resource.
#[derive(Clone, Copy, Debug, PartialEq, Eq, Hash, Structural)]
#[allow(inconsistent_fields)]
pub enum ViewMaterialization {
    Direct,
    CompressedColor,
    CompressedDepthStencil { depth: bool, stencil: bool },
}

impl ViewMaterialization {
    pub open spec fn spec_supports_depth_stencil(self, depth: bool, stencil: bool) -> bool {
        match self {
            ViewMaterialization::Direct => true,
            ViewMaterialization::CompressedDepthStencil {
                depth: materialized_depth,
                stencil: materialized_stencil,
            } => (!depth || materialized_depth) && (!stencil || materialized_stencil),
            ViewMaterialization::CompressedColor => false,
        }
    }

    /// Whether the planes that are consumed are there.
    #[must_use]
    #[verifier::when_used_as_spec(spec_supports_depth_stencil)]
    pub fn supports_depth_stencil(self, depth: bool, stencil: bool) -> (r: bool)
        ensures
            r == self.spec_supports_depth_stencil(depth, stencil),
    {
        match self {
            ViewMaterialization::Direct => true,
            ViewMaterialization::CompressedDepthStencil {
                depth: materialized_depth,
                stencil: materialized_stencil,
            } => (!depth || materialized_depth) && (!stencil || materialized_stencil),
            ViewMaterialization::CompressedColor => false,
        }
    }
}

/// Whether two lists of pieces are equal.
pub fn same_pieces(left: &Vec<BackingPiece>, right: &Vec<BackingPiece>) -> (r: bool)
    ensures
        r == (left@ == right@),
{
    if left.len() != right.len() {
        return false;
    }
    let mut index: usize = 0;
    while index < left.len()
        invariant
            index <= left@.len() == right@.len(),
            forall|i: int| 0 <= i < index ==> left@[i] == right@[i],
        decreases left@.len() - index,
    {
        if left[index] != right[index] {
            proof {
                assert(left@[index as int] != right@[index as int]);
            }
            return false;
        }
        index = index + 1;
    }
    proof {
        assert(left@ =~= right@);
    }
    true
}

/// Whether some piece of one list overlaps some piece of the other.
pub open spec fn pieces_overlap(left: Seq<BackingPiece>, right: Seq<BackingPiece>) -> bool {
    exists|i: int, j: int|
        0 <= i < left.len() && 0 <= j < right.len() && (#[trigger] left[i]).overlaps(
            #[trigger] right[j],
        )
}

fn any_overlap(left: &Vec<BackingPiece>, right: &Vec<BackingPiece>) -> (r: bool)
    ensures
        r == pieces_overlap(left@, right@),
{
    let mut index: usize = 0;
    while index < left.len()
        invariant
            index <= left@.len(),
            forall|i: int, j: int|
                #![trigger left@[i], right@[j]]
                0 <= i < index && 0 <= j < right@.len() ==> !left@[i].overlaps(right@[j]),
        decreases left@.len() - index,
    {
        let mut other: usize = 0;
        while other < right.len()
            invariant
                index < left@.len(),
                other <= right@.len(),
                forall|j: int|
                    #![trigger right@[j]]
                    0 <= j < other ==> !left@[index as int].overlaps(right@[j]),
            decreases right@.len() - other,
        {
            if left[index].overlaps(right[other]) {
                proof {
                    assert(left@[index as int].overlaps(right@[other as int]));
                }
                return true;
            }
            other = other + 1;
        }
        index = index + 1;
    }
    false
}

/// View of a resource that a backend object was created for: what the view is of, the
/// object, what it retains, and the record of CPU writes to its memory.
#[derive(Debug)]
pub struct ViewRecord {
    pub shape: ViewShape,
    pub pieces: Vec<BackingPiece>,
    pub mappings: Vec<u64>,
    pub dependency: ResourceDependency,
    pub materialization: ViewMaterialization,
    pub cpu_writes: Option<u64>,
}

/// Content of a view record.
#[verifier::ext_equal]
pub struct ViewModel {
    pub shape: ViewShape,
    pub pieces: Seq<BackingPiece>,
    pub mappings: Seq<u64>,
    pub dependency: ResourceDependency,
    pub materialization: ViewMaterialization,
    pub cpu_writes: Option<u64>,
}

impl View for ViewRecord {
    type V = ViewModel;

    open spec fn view(&self) -> ViewModel {
        ViewModel {
            shape: self.shape,
            pieces: self.pieces@,
            mappings: self.mappings@,
            dependency: self.dependency,
            materialization: self.materialization,
            cpu_writes: self.cpu_writes,
        }
    }
}

/// Whether a record of CPU writes is among those that saw none since.
pub open spec fn writes_remain_current(writes: Option<u64>, current: Seq<u64>) -> bool {
    match writes {
        Some(token) => current.contains(token),
        None => false,
    }
}

fn no_later_writes(writes: Option<u64>, current: &Vec<u64>) -> (r: bool)
    ensures
        r == writes_remain_current(writes, current@),
{
    match writes {
        Some(token) => holds_number(current, token),
        None => false,
    }
}

/// No two views are of the same resource.
#[verifier::opaque]
pub open spec fn distinct_views(views: Seq<ViewModel>) -> bool {
    forall|i: int, j: int|
        #![trigger views[i], views[j]]
        0 <= i < j < views.len() ==> !views[i].same_resource(views[j])
}

impl ViewModel {
    /// Whether two views are of the same resource.
    pub open spec fn same_resource(self, other: ViewModel) -> bool {
        self.shape == other.shape && self.pieces == other.pieces && self.mappings == other.mappings
    }

    /// Whether the view is of exactly this resource.
    pub open spec fn matches_resource(self, resource: ResolvedModel) -> bool {
        self.shape == resource.shape && self.pieces == resource.pieces && self.mappings
            == resource.mappings
    }

    /// Whether the view is of the same image bytes, through whatever mappings.
    pub open spec fn same_domain(self, resource: ResolvedModel) -> bool {
        resource.image() is Some && self.shape == resource.shape && self.pieces == resource.pieces
    }

    /// Whether the view is of the same image bytes and no CPU write changed them since.
    pub open spec fn remains_current(self, resource: ResolvedModel, current: Seq<u64>) -> bool {
        self.same_domain(resource) && writes_remain_current(self.cpu_writes, current)
    }
}

impl ViewRecord {
    #[must_use]
    pub fn matches_resource(&self, resource: &MaxwellThreeDResolvedResource) -> (r: bool)
        ensures
            r == self@.matches_resource(resource@),
    {
        self.shape == resource.shape && same_pieces(&self.pieces, &resource.pieces)
            && same_numbers(&self.mappings, &resource.mappings)
    }

    #[must_use]
    pub fn remains_current(
        &self,
        resource: &MaxwellThreeDResolvedResource,
        current: &Vec<u64>,
    ) -> (r: bool)
        ensures
            r == self@.remains_current(resource@, current@),
    {
        resource.image().is_some() && self.shape == resource.shape && same_pieces(
            &self.pieces,
            &resource.pieces,
        ) && no_later_writes(self.cpu_writes, current)
    }

    #[must_use]
    pub fn overlaps(&self, pieces: &Vec<BackingPiece>) -> (r: bool)
        ensures
            r == pieces_overlap(self@.pieces, pieces@),
    {
        any_overlap(&self.pieces, pieces)
    }
}

/// Color image whose contents a backend image represents, with the record of CPU writes
/// to its memory.
#[derive(Debug)]
pub struct ColorRepresentationRecord {
    pub shape: ViewShape,
    pub pieces: Vec<BackingPiece>,
    pub cpu_writes: Option<u64>,
}

/// Content of a color representation record.
#[verifier::ext_equal]
pub struct ColorModel {
    pub shape: ViewShape,
    pub pieces: Seq<BackingPiece>,
    pub cpu_writes: Option<u64>,
}

impl View for ColorRepresentationRecord {
    type V = ColorModel;

    open spec fn view(&self) -> ColorModel {
        ColorModel { shape: self.shape, pieces: self.pieces@, cpu_writes: self.cpu_writes }
    }
}

impl ColorModel {
    /// Representation of a resource.
    pub open spec fn of(resource: ResolvedModel) -> ColorModel {
        ColorModel {
            shape: resource.shape,
            pieces: resource.pieces,
            cpu_writes: resource.cpu_writes,
        }
    }

    pub open spec fn same_domain(self, resource: ResolvedModel) -> bool {
        self.shape == resource.shape && self.pieces == resource.pieces
    }

    pub open spec fn remains_materialized(self, resource: ResolvedModel, current: Seq<u64>) -> bool {
        self.same_domain(resource) && writes_remain_current(self.cpu_writes, current)
    }
}

impl ColorRepresentationRecord {
    /// Record of a resource.
    #[must_use]
    pub fn of(resource: &MaxwellThreeDResolvedResource) -> (r: ColorRepresentationRecord)
        ensures
            r@ == ColorModel::of(resource@),
    {
        ColorRepresentationRecord {
            shape: resource.shape,
            pieces: copied(&resource.pieces),
            cpu_writes: resource.cpu_writes,
        }
    }

    #[must_use]
    pub fn same_domain(&self, resource: &MaxwellThreeDResolvedResource) -> (r: bool)
        ensures
            r == self@.same_domain(resource@),
    {
        self.shape == resource.shape && same_pieces(&self.pieces, &resource.pieces)
    }

    #[must_use]
    pub fn remains_materialized(
        &self,
        resource: &MaxwellThreeDResolvedResource,
        current: &Vec<u64>,
    ) -> (r: bool)
        ensures
            r == self@.remains_materialized(resource@, current@),
    {
        self.same_domain(resource) && no_later_writes(self.cpu_writes, current)
    }
}

/// Render pass that a backend object was created for.
#[derive(Debug)]
pub struct RenderPassRecord {
    pub attachments: Vec<RenderPassAttachment>,
    pub id: u64,
}

/// Content of a render pass record.
#[verifier::ext_equal]
pub struct RenderPassModel {
    pub attachments: Seq<RenderPassAttachment>,
    pub id: u64,
}

impl View for RenderPassRecord {
    type V = RenderPassModel;

    open spec fn view(&self) -> RenderPassModel {
        RenderPassModel { attachments: self.attachments@, id: self.id }
    }
}

/// Descriptor table that a backend object was created for.
#[derive(Debug)]
pub struct DescriptorRecord {
    pub entries: Vec<DescriptorEntry>,
    pub id: u64,
}

/// Content of a descriptor table record.
#[verifier::ext_equal]
pub struct DescriptorModel {
    pub entries: Seq<DescriptorEntry>,
    pub id: u64,
}

impl View for DescriptorRecord {
    type V = DescriptorModel;

    open spec fn view(&self) -> DescriptorModel {
        DescriptorModel { entries: self.entries@, id: self.id }
    }
}

/// Draw that can be repeated as long as state, resources and shaders stay the same.
#[derive(Debug)]
pub struct PreparedDrawRecord {
    pub state: u64,
    pub resources: u64,
    pub shaders: u64,
    pub plan: DrawPlan,
}

/// Content of a prepared draw.
#[verifier::ext_equal]
pub struct PreparedModel {
    pub state: u64,
    pub resources: u64,
    pub shaders: u64,
    pub plan: PlanModel,
}

impl View for PreparedDrawRecord {
    type V = PreparedModel;

    open spec fn view(&self) -> PreparedModel {
        PreparedModel {
            state: self.state,
            resources: self.resources,
            shaders: self.shaders,
            plan: self.plan@,
        }
    }
}

/// Content of the prepared draw, if there is one.
pub open spec fn prepared_model(prepared: Option<PreparedDrawRecord>) -> Option<PreparedModel> {
    match prepared {
        Some(record) => Some(record@),
        None => None,
    }
}

/// Sampler that a backend object was created for.
#[derive(Clone, Copy, Debug, PartialEq, Eq)]
pub struct SamplerRecord {
    pub sampler: MaxwellThreeDResolvedSampler,
    pub id: u64,
}

/// Logical shader of a translation; it is published once a draw has asked a backend to
/// create it.
#[derive(Clone, Copy, Debug, PartialEq, Eq, Hash, Structural)]
pub struct ShaderTranslationRecord {
    pub id: u64,
    pub module_stage: ShaderStage,
    pub published: bool,
}

/// Translation inputs and programs of a shader source, by the numbers under which their
/// owner keeps them.
#[derive(Clone, Copy, Debug, PartialEq, Eq, Hash, Structural)]
pub struct ShaderTranslationSourceRecord {
    pub inputs: u64,
    pub programs: u64,
}

/// Translation that belongs to the current shader state, with the set of translated
/// shaders once there is one.
#[derive(Clone, Copy, Debug, PartialEq, Eq)]
pub struct ShaderStateRecord {
    pub state: u64,
    pub inputs: u64,
    pub programs: u64,
    pub translated: Option<u64>,
}

pub open spec fn view_models(views: Seq<ViewRecord>) -> Seq<ViewModel> {
    views.map_values(|view: ViewRecord| view@)
}

pub open spec fn color_models(records: Seq<ColorRepresentationRecord>) -> Seq<ColorModel> {
    records.map_values(|record: ColorRepresentationRecord| record@)
}

pub open spec fn render_pass_models(records: Seq<RenderPassRecord>) -> Seq<RenderPassModel> {
    records.map_values(|record: RenderPassRecord| record@)
}

pub open spec fn descriptor_models(records: Seq<DescriptorRecord>) -> Seq<DescriptorModel> {
    records.map_values(|record: DescriptorRecord| record@)
}

/// Objects, translations and accesses that lowering has handed out, so that later
/// operations can refer to them. It holds no backend handle.
#[derive(Debug)]
pub struct MaxwellThreeDLoweringCache {
    pub shader_entries: usize,
    pub resource_entries: usize,
    pub revision: u64,
    pub next_identity: u64,
    pub allocations: Vec<(GpuAllocationId, GpuAllocationDescription)>,
    pub views: Vec<ViewRecord>,
    pub color_materializations: Vec<ColorRepresentationRecord>,
    pub graphics_pipeline: Option<u64>,
    pub render_passes: Vec<RenderPassRecord>,
    pub descriptors: Vec<DescriptorRecord>,
    pub prepared_draw: Option<PreparedDrawRecord>,
    pub samplers: Vec<SamplerRecord>,
    pub shader_translation_sets: FingerprintCache<u64>,
    pub shader_translation_sources: FingerprintCache<ShaderTranslationSourceRecord>,
    pub shader_state: Option<ShaderStateRecord>,
    pub shader_translations: FingerprintCache<ShaderTranslationRecord>,
    pub retired_resources: Vec<ResourceDependency>,
    pub accesses: Vec<(AccessTarget, AccessScope)>,
}

/// Content of a lowering cache.
#[verifier::ext_equal]
pub struct CacheModel {
    pub shader_entries: usize,
    pub resource_entries: usize,
    pub revision: u64,
    pub next_identity: u64,
    pub allocations: Seq<(GpuAllocationId, GpuAllocationDescription)>,
    pub views: Seq<ViewModel>,
    pub color_materializations: Seq<ColorModel>,
    pub graphics_pipeline: Option<u64>,
    pub render_passes: Seq<RenderPassModel>,
    pub descriptors: Seq<DescriptorModel>,
    pub prepared_draw: Option<PreparedModel>,
    pub samplers: Seq<SamplerRecord>,
    pub shader_translation_sets: Seq<(u128, u64)>,
    pub shader_translation_sources: Seq<(u128, ShaderTranslationSourceRecord)>,
    pub shader_state: Option<ShaderStateRecord>,
    pub shader_translations: Seq<(u128, ShaderTranslationRecord)>,
    pub retired_resources: Seq<ResourceDependency>,
    pub accesses: Seq<(AccessTarget, AccessScope)>,
}

impl View for MaxwellThreeDLoweringCache {
    type V = CacheModel;

    open spec fn view(&self) -> CacheModel {
        CacheModel {
            shader_entries: self.shader_entries,
            resource_entries: self.resource_entries,
            revision: self.revision,
            next_identity: self.next_identity,
            allocations: self.allocations@,
            views: view_models(self.views@),
            color_materializations: color_models(self.color_materializations@),
            graphics_pipeline: self.graphics_pipeline,
            render_passes: render_pass_models(self.render_passes@),
            descriptors: descriptor_models(self.descriptors@),
            prepared_draw: prepared_model(self.prepared_draw),
            samplers: self.samplers@,
            shader_translation_sets: self.shader_translation_sets@,
            shader_translation_sources: self.shader_translation_sources@,
            shader_state: self.shader_state,
            shader_translations: self.shader_translations@,
            retired_resources: self.retired_resources@,
            accesses: self.accesses@,
        }
    }
}

impl CacheModel {
    /// Empty cache with its limits.
    pub open spec fn empty(shader_entries: usize, resource_entries: usize) -> CacheModel {
        CacheModel {
            shader_entries,
            resource_entries,
            revision: 0,
            next_identity: 1,
            allocations: Seq::empty(),
            views: Seq::empty(),
            color_materializations: Seq::empty(),
            graphics_pipeline: None,
            render_passes: Seq::empty(),
            descriptors: Seq::empty(),
            prepared_draw: None,
            samplers: Seq::empty(),
            shader_translation_sets: Seq::empty(),
            shader_translation_sources: Seq::empty(),
            shader_state: None,
            shader_translations: Seq::empty(),
            retired_resources: Seq::empty(),
            accesses: Seq::empty(),
        }
    }

    /// No fingerprint occurs twice among the translations, and no two views are of the same
    /// resource.
    pub open spec fn wf(self) -> bool {
        &&& distinct_views(self.views)
        &&& crate::fingerprint_cache::distinct_fingerprints(self.shader_translations)
        &&& crate::fingerprint_cache::distinct_fingerprints(self.shader_translation_sets)
        &&& crate::fingerprint_cache::distinct_fingerprints(self.shader_translation_sources)
    }

    /// Next identity, and the cache after it was taken. Identities are never reused, so
    /// they can run out.
    pub open spec fn identity_taken(self) -> Result<(CacheModel, u64), MaxwellThreeDLoweringError> {
        if self.next_identity == u64::MAX {
            Err(MaxwellThreeDLoweringError::ResourceExhausted)
        } else {
            Ok(
                (
                    CacheModel { next_identity: (self.next_identity + 1) as u64, ..self },
                    self.next_identity,
                ),
            )
        }
    }

    /// Whether the prepared draw depends on a shader.
    pub open spec fn prepared_uses(self, shader: u64) -> bool {
        match self.prepared_draw {
            Some(prepared) => prepared.plan.dependencies.contains(
                ResourceDependency::Shader(shader),
            ),
            None => false,
        }
    }

    /// Cache after the translation whose last use is longest ago was evicted: a
    /// published shader is retired, and with it a prepared draw that depends on it.
    pub open spec fn translation_evicted(self) -> CacheModel {
        let evicted = self.shader_translations[0].1;
        let rest = CacheModel { shader_translations: self.shader_translations.drop_first(), ..self };
        if !evicted.published {
            rest
        } else {
            CacheModel {
                prepared_draw: if self.prepared_uses(evicted.id) {
                    None
                } else {
                    self.prepared_draw
                },
                retired_resources: self.retired_resources.push(
                    ResourceDependency::Shader(evicted.id),
                ),
                ..rest
            }
        }
    }

    /// Cache after translations beyond the limit were evicted.
    pub open spec fn translation_limit_enforced(self) -> CacheModel
        decreases self.shader_translations.len(),
    {
        if self.shader_translations.len() <= self.shader_entries {
            self
        } else {
            self.translation_evicted().translation_limit_enforced()
        }
    }

    /// Shader of a program: that of its translation, or a new one.
    pub open spec fn shader_staged(self, program: ProgramModel) -> (
        CacheModel,
        Result<u64, MaxwellThreeDLoweringError>,
    ) {
        match crate::fingerprint_cache::fingerprint_position(
            self.shader_translations,
            program.fingerprint,
        ) {
            Some(position) => (
                CacheModel {
                    shader_translations: crate::fingerprint_cache::used(
                        self.shader_translations,
                        position,
                    ),
                    ..self
                },
                Ok(self.shader_translations[position].1.id),
            ),
            None => match self.identity_taken() {
                Err(error) => (self, Err(error)),
                Ok((taken, id)) => (
                    CacheModel {
                        shader_translations: self.shader_translations.push(
                            (
                                program.fingerprint,
                                ShaderTranslationRecord {
                                    id,
                                    module_stage: program.module_stage,
                                    published: false,
                                },
                            ),
                        ),
                        ..taken
                    }.translation_limit_enforced(),
                    Ok(id),
                ),
            },
        }
    }

    /// Shaders and uses of programs from a position on, after those before it.
    pub open spec fn programs_staged(
        self,
        programs: Seq<ProgramModel>,
        from: int,
        shaders: Seq<MaxwellThreeDTranslatedShader>,
        uses: Seq<MaxwellThreeDShaderResourceUse>,
    ) -> (
        CacheModel,
        Result<
            (Seq<MaxwellThreeDTranslatedShader>, Seq<MaxwellThreeDShaderResourceUse>),
            MaxwellThreeDLoweringError,
        >,
    )
        decreases programs.len() - from,
    {
        if from < 0 || from >= programs.len() {
            (self, Ok((shaders, uses)))
        } else {
            let program = programs[from];
            match self.shader_staged(program) {
                (staged, Err(error)) => (staged, Err(error)),
                (staged, Ok(id)) => match shader_pipeline_stages(program.stage) {
                    Err(error) => (staged, Err(error)),
                    Ok(stages) => match crate::translated_shaders::uses_from(
                        uses,
                        program,
                        stages,
                        0,
                    ) {
                        Err(error) => (staged, Err(error)),
                        Ok(uses) => staged.programs_staged(
                            programs,
                            from + 1,
                            shaders.push(program.translated(id)),
                            uses,
                        ),
                    },
                },
            }
        }
    }

    /// Set of translated shaders that programs become.
    pub open spec fn translations_staged(self, identity: u64, programs: Seq<ProgramModel>) -> (
        CacheModel,
        Result<ShadersModel, MaxwellThreeDLoweringError>,
    ) {
        match self.programs_staged(programs, 0, Seq::empty(), Seq::empty()) {
            (staged, Err(error)) => (staged, Err(error)),
            (staged, Ok((shaders, resources))) => {
                let set = ShadersModel { identity, shaders, resources };
                match set.check() {
                    Ok(()) => (staged, Ok(set)),
                    Err(error) => (staged, Err(error)),
                }
            },
        }
    }

    /// Whether the record of the shader state can be used again.
    pub open spec fn shader_state_is_current(
        self,
        state: u64,
        source_is_current: bool,
        staged_writes_are_irrelevant: bool,
    ) -> bool {
        match self.shader_state {
            Some(record) => record.state == state && source_is_current
                && staged_writes_are_irrelevant,
            None => false,
        }
    }
}

/// Records that a limit leaves: those used last.
pub open spec fn within_limit<T>(records: Seq<(u128, T)>, limit: usize) -> Seq<(u128, T)> {
    if records.len() <= limit {
        records
    } else {
        records.skip(records.len() - limit)
    }
}

impl MaxwellThreeDLoweringCache {
    /// No fingerprint occurs twice among the translations, and no two views are of the same
    /// resource.
    pub open spec fn wf(&self) -> bool {
        self@.wf()
    }

    /// Empty cache that keeps so many translated shaders and resolved resources.
    #[must_use]
    pub fn new(shader_entries: usize, resource_entries: usize) -> (r: MaxwellThreeDLoweringCache)
        ensures
            r.wf(),
            r@ == CacheModel::empty(shader_entries, resource_entries),
    {
        let cache = MaxwellThreeDLoweringCache {
            shader_entries,
            resource_entries,
            revision: 0,
            next_identity: 1,
            allocations: Vec::new(),
            views: Vec::new(),
            color_materializations: Vec::new(),
            graphics_pipeline: None,
            render_passes: Vec::new(),
            descriptors: Vec::new(),
            prepared_draw: None,
            samplers: Vec::new(),
            shader_translation_sets: FingerprintCache::empty(),
            shader_translation_sources: FingerprintCache::empty(),
            shader_state: None,
            shader_translations: FingerprintCache::empty(),
            retired_resources: Vec::new(),
            accesses: Vec::new(),
        };
        proof {
            reveal(distinct_views);
            assert(cache@ =~= CacheModel::empty(shader_entries, resource_entries));
        }
        cache
    }

    /// Number of operations that were lowered.
    #[must_use]
    pub fn revision(&self) -> (r: u64)
        ensures
            r == self@.revision,
    {
        self.revision
    }

    #[must_use]
    pub fn view_count(&self) -> (r: usize)
        ensures
            r == self@.views.len(),
    {
        self.views.len()
    }

    #[must_use]
    pub fn resource_cache_limit(&self) -> (r: usize)
        ensures
            r == self@.resource_entries,
    {
        self.resource_entries
    }

    #[must_use]
    pub fn shader_translation_count(&self) -> (r: usize)
        ensures
            r == self@.shader_translations.len(),
    {
        self.shader_translations.len()
    }

    #[must_use]
    pub fn shader_translation_set_count(&self) -> (r: usize)
        ensures
            r == self@.shader_translation_sets.len(),
    {
        self.shader_translation_sets.len()
    }

    /// Takes the next identity.
    pub fn take_identity(&mut self) -> (r: Result<u64, MaxwellThreeDLoweringError>)
        ensures
            match old(self)@.identity_taken() {
                Ok((after, id)) => r == Ok::<u64, MaxwellThreeDLoweringError>(id) && final(self)@
                    == after,
                Err(error) => r == Err::<u64, MaxwellThreeDLoweringError>(error) && final(self)@
                    == old(self)@,
            },
    {
        let value: u64 = self.next_identity;
        match value.checked_add(1) {
            Some(next) => {
                self.next_identity = next;
                Ok(value)
            },
            None => Err(MaxwellThreeDLoweringError::ResourceExhausted),
        }
    }

    /// Programs of the translation inputs with a fingerprint.
    pub fn reuse_shader_translation_inputs(&mut self, fingerprint: u128) -> (r: Option<u64>)
        requires
            old(self).wf(),
        ensures
            final(self).wf(),
            match crate::fingerprint_cache::fingerprint_position(
                old(self)@.shader_translation_sets,
                fingerprint,
            ) {
                Some(position) => {
                    &&& r == Some(old(self)@.shader_translation_sets[position].1)
                    &&& final(self)@ == (CacheModel {
                        shader_translation_sets: crate::fingerprint_cache::used(
                            old(self)@.shader_translation_sets,
                            position,
                        ),
                        ..old(self)@
                    })
                },
                None => r is None && final(self)@ == old(self)@,
            },
    {
        match self.shader_translation_sets.get(fingerprint) {
            Some(programs) => Some(*programs),
            None => None,
        }
    }

    /// Retains the programs of translation inputs whose fingerprint is new.
    pub fn retain_shader_translation_inputs(&mut self, fingerprint: u128, programs: u64)
        requires
            old(self).wf(),
            crate::fingerprint_cache::fingerprint_position(
                old(self)@.shader_translation_sets,
                fingerprint,
            ) is None,
        ensures
            final(self).wf(),
            final(self)@ == (CacheModel {
                shader_translation_sets: within_limit(
                    old(self)@.shader_translation_sets.push((fingerprint, programs)),
                    old(self)@.shader_entries,
                ),
                ..old(self)@
            }),
    {
        self.shader_translation_sets.push(fingerprint, programs);
        evict_beyond(&mut self.shader_translation_sets, self.shader_entries);
    }

    /// Inputs and programs of a shader source with a fingerprint. The caller uses them
    /// only while the source is current.
    pub fn reuse_shader_translation_source(&mut self, fingerprint: u128) -> (r: Option<
        ShaderTranslationSourceRecord,
    >)
        requires
            old(self).wf(),
        ensures
            final(self).wf(),
            match crate::fingerprint_cache::fingerprint_position(
                old(self)@.shader_translation_sources,
                fingerprint,
            ) {
                Some(position) => {
                    &&& r == Some(old(self)@.shader_translation_sources[position].1)
                    &&& final(self)@ == (CacheModel {
                        shader_translation_sources: crate::fingerprint_cache::used(
                            old(self)@.shader_translation_sources,
                            position,
                        ),
                        ..old(self)@
                    })
                },
                None => r is None && final(self)@ == old(self)@,
            },
    {
        match self.shader_translation_sources.get(fingerprint) {
            Some(record) => Some(*record),
            None => None,
        }
    }

    /// Retains the inputs and programs of a shader source, in place of those it had.
    pub fn retain_shader_translation_source(
        &mut self,
        fingerprint: u128,
        record: ShaderTranslationSourceRecord,
    )
        requires
            old(self).wf(),
        ensures
            final(self).wf(),
            final(self)@ == (CacheModel {
                shader_translation_sources: within_limit(
                    match crate::fingerprint_cache::fingerprint_position(
                        old(self)@.shader_translation_sources,
                        fingerprint,
                    ) {
                        Some(position) => old(self)@.shader_translation_sources.remove(
                            position,
                        ).push((fingerprint, record)),
                        None => old(self)@.shader_translation_sources.push((fingerprint, record)),
                    },
                    old(self)@.shader_entries,
                ),
                ..old(self)@
            }),
    {
        self.shader_translation_sources.replace(fingerprint, record);
        evict_beyond(&mut self.shader_translation_sources, self.shader_entries);
    }

    /// Programs of the current shader state, if its record can be used again.
    #[must_use]
    pub fn reuse_shader_translation_for_state(
        &self,
        state: &MaxwellThreeDState,
        source_is_current: bool,
        staged_writes_are_irrelevant: bool,
    ) -> (r: Option<u64>)
        ensures
            r == if self@.shader_state_is_current(
                state.identity,
                source_is_current,
                staged_writes_are_irrelevant,
            ) {
                Some(self@.shader_state->Some_0.programs)
            } else {
                None
            },
    {
        match self.shader_state {
            Some(record) => if record.state == state.identity && source_is_current
                && staged_writes_are_irrelevant {
                Some(record.programs)
            } else {
                None
            },
            None => None,
        }
    }

    /// Retains the translation of the current shader state.
    pub fn retain_shader_state(&mut self, state: &MaxwellThreeDState, inputs: u64, programs: u64)
        ensures
            final(self)@ == (CacheModel {
                shader_state: Some(
                    ShaderStateRecord { state: state.identity, inputs, programs, translated: None },
                ),
                ..old(self)@
            }),
    {
        self.shader_state = Some(
            ShaderStateRecord { state: state.identity, inputs, programs, translated: None },
        );
    }

    /// Set of translated shaders of the current shader state, if there is one and the
    /// record can be used again.
    #[must_use]
    pub fn reuse_translated_shaders_for_state(
        &self,
        state: &MaxwellThreeDState,
        source_is_current: bool,
        staged_writes_are_irrelevant: bool,
    ) -> (r: Option<u64>)
        ensures
            r == if self@.shader_state_is_current(
                state.identity,
                source_is_current,
                staged_writes_are_irrelevant,
            ) {
                self@.shader_state->Some_0.translated
            } else {
                None
            },
    {
        match self.shader_state {
            Some(record) => if record.state == state.identity && source_is_current
                && staged_writes_are_irrelevant {
                record.translated
            } else {
                None
            },
            None => None,
        }
    }

    /// Retains the set of translated shaders that the programs of the current shader
    /// state became.
    pub fn retain_translated_shader_state(&mut self, programs: u64, translated: u64)
        requires
            old(self)@.shader_state matches Some(record) && record.programs == programs,
        ensures
            final(self)@ == (CacheModel {
                shader_state: Some(
                    ShaderStateRecord {
                        translated: Some(translated),
                        ..old(self)@.shader_state->Some_0
                    },
                ),
                ..old(self)@
            }),
    {
        if let Some(record) = self.shader_state {
            self.shader_state = Some(
                ShaderStateRecord {
                    state: record.state,
                    inputs: record.inputs,
                    programs: record.programs,
                    translated: Some(translated),
                },
            );
        }
    }

    /// Evicts translations beyond the limit.
    #[verifier::loop_isolation(false)]
    pub fn enforce_shader_translation_limit(&mut self)
        requires
            old(self).wf(),
        ensures
            final(self).wf(),
            final(self)@ == old(self)@.translation_limit_enforced(),
    {
        let ghost before = self@;
        while self.shader_translations.len() > self.shader_entries
            invariant
                self.wf(),
                before.translation_limit_enforced() == self@.translation_limit_enforced(),
            decreases self.shader_translations@.len(),
        {
            let ghost step = self@;
            let (_fingerprint, evicted) = self.shader_translations.remove_lru();
            if evicted.published {
                let shader = ResourceDependency::Shader(evicted.id);
                let affected = match &self.prepared_draw {
                    Some(prepared) => holds_dependency(&prepared.plan.dependencies, shader),
                    None => false,
                };
                if affected {
                    self.prepared_draw = None;
                }
                self.retired_resources.push(shader);
            }
            proof {
                assert(self@ =~= step.translation_evicted());
            }
        }
    }

    /// Shader of a program: that of its translation, or a new one.
    pub fn stage_shader(&mut self, program: &MaxwellThreeDShaderProgram) -> (r: Result<
        u64,
        MaxwellThreeDLoweringError,
    >)
        requires
            old(self).wf(),
        ensures
            final(self).wf(),
            (final(self)@, r) == old(self)@.shader_staged(program@),
    {
        if let Some(record) = self.shader_translations.get(program.fingerprint) {
            return Ok(record.id);
        }
        let id: u64 = match self.take_identity() {
            Ok(id) => id,
            Err(error) => {
                return Err(error);
            },
        };
        self.shader_translations.push(
            program.fingerprint,
            ShaderTranslationRecord {
                id,
                module_stage: program.module_stage,
                published: false,
            },
        );
        self.enforce_shader_translation_limit();
        Ok(id)
    }

    /// Resolves translated programs to logical shaders.
    #[verifier::loop_isolation(false)]
    pub fn stage_shader_translations(
        &mut self,
        identity: u64,
        programs: &Vec<MaxwellThreeDShaderProgram>,
    ) -> (r: Result<MaxwellThreeDTranslatedShaders, MaxwellThreeDLoweringError>)
        requires
            old(self).wf(),
        ensures
            final(self).wf(),
            ({
                let (after, result) = old(self)@.translations_staged(
                    identity,
                    program_models(programs@),
                );
                &&& final(self)@ == after
                &&& match result {
                    Ok(set) => r matches Ok(staged) && staged@ == set,
                    Err(error) => r == Err::<
                        MaxwellThreeDTranslatedShaders,
                        MaxwellThreeDLoweringError,
                    >(error),
                }
            }),
    {
        let ghost models = program_models(programs@);
        let ghost whole = self@.programs_staged(models, 0, Seq::empty(), Seq::empty());
        let mut shaders: Vec<MaxwellThreeDTranslatedShader> = Vec::new();
        let mut resources: Vec<MaxwellThreeDShaderResourceUse> = Vec::new();
        let mut index: usize = 0;
        while index < programs.len()
            invariant
                index <= programs@.len(),
                self.wf(),
                whole == self@.programs_staged(models, index as int, shaders@, resources@),
            decreases programs@.len() - index,
        {
            let program = &programs[index];
            proof {
                assert(models[index as int] == program@);
            }
            let id: u64 = match self.stage_shader(program) {
                Ok(id) => id,
                Err(error) => {
                    return Err(error);
                },
            };
            let stages = match shader_pipeline_stages(program.stage) {
                Ok(stages) => stages,
                Err(error) => {
                    return Err(error);
                },
            };
            match add_program_uses(&mut resources, program, stages) {
                Ok(()) => {},
                Err(error) => {
                    return Err(error);
                },
            }
            shaders.push(
                MaxwellThreeDTranslatedShader::new(
                    program.stage,
                    id,
                    program.fingerprint,
                    program.directly_addressable_memory,
                    program.maximum_api_visible_calls,
                ),
            );
            index = index + 1;
        }
        MaxwellThreeDTranslatedShaders::new(identity, shaders, resources)
    }
}

/// Content of programs, in order.
pub open spec fn program_models(programs: Seq<MaxwellThreeDShaderProgram>) -> Seq<ProgramModel> {
    programs.map_values(|program: MaxwellThreeDShaderProgram| program@)
}

/// Evicts the records used longest ago beyond a limit.
#[verifier::loop_isolation(false)]
fn evict_beyond<T>(records: &mut FingerprintCache<T>, limit: usize)
    requires
        old(records).wf(),
    ensures
        final(records).wf(),
        final(records)@ == within_limit(old(records)@, limit),
{
    let ghost before = records@;
    while records.len() > limit
        invariant
            records.wf(),
            within_limit(records@, limit) == within_limit(before, limit),
        decreases records@.len(),
    {
        let ghost step = records@;
        let _evicted = records.remove_lru();
        proof {
            assert(within_limit(records@, limit) =~= within_limit(step, limit));
        }
    }
}

/// An identity that was taken is never taken again: the next one is larger.
pub proof fn law_identities_increase(cache: CacheModel)
    ensures
        cache.identity_taken() matches Ok((after, id)) ==> {
            &&& id == cache.next_identity
            &&& after.next_identity > id
        },
{
}

/// The limit on translations holds after it was enforced; what stays are the
/// translations used last; every published shader that was evicted is retired, and
/// nothing else; and a prepared draw that stays depends on no evicted published shader.
pub proof fn law_translation_storage_is_bounded(cache: CacheModel)
    ensures
        ({
            let after = cache.translation_limit_enforced();
            let evicted = cache.shader_translations.len() - after.shader_translations.len();
            &&& after.shader_translations == within_limit(
                cache.shader_translations,
                cache.shader_entries,
            )
            &&& after.shader_translations.len() <= cache.shader_entries
            &&& cache.retired_resources.is_prefix_of(after.retired_resources)
            &&& forall|i: int|
                #![trigger cache.shader_translations[i]]
                0 <= i < evicted && cache.shader_translations[i].1.published ==> {
                    &&& after.retired_resources.contains(
                        ResourceDependency::Shader(cache.shader_translations[i].1.id),
                    )
                    &&& !after.prepared_uses(cache.shader_translations[i].1.id)
                }
            &&& after == (CacheModel {
                shader_translations: after.shader_translations,
                prepared_draw: after.prepared_draw,
                retired_resources: after.retired_resources,
                ..cache
            })
            &&& after.prepared_draw == cache.prepared_draw || after.prepared_draw is None
        }),
    decreases cache.shader_translations.len(),
{
    if cache.shader_translations.len() > cache.shader_entries {
        let step = cache.translation_evicted();
        let after = cache.translation_limit_enforced();
        law_translation_storage_is_bounded(step);
        assert(after.shader_translations =~= within_limit(
            cache.shader_translations,
            cache.shader_entries,
        ));
        let first = cache.shader_translations[0].1;
        if first.published {
            let retired = ResourceDependency::Shader(first.id);
            assert(step.retired_resources[cache.retired_resources.len() as int] == retired);
            assert(after.retired_resources[cache.retired_resources.len() as int] == retired);
            assert(!step.prepared_uses(first.id));
            assert(!after.prepared_uses(first.id));
        }
        assert forall|i: int|
            #![trigger cache.shader_translations[i]]
            0 <= i < cache.shader_translations.len() - after.shader_translations.len()
                && cache.shader_translations[i].1.published implies after.retired_resources.contains(
            ResourceDependency::Shader(cache.shader_translations[i].1.id),
        ) && !after.prepared_uses(cache.shader_translations[i].1.id) by {
            if i > 0 {
                assert(step.shader_translations[i - 1] == cache.shader_translations[i]);
            }
        }
    } else {
        assert(cache.retired_resources.is_prefix_of(cache.retired_resources));
    }
}

} // verus!
