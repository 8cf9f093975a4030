//! Resources that were resolved to canonical memory.

use vstd::prelude::*;
use crate::neutral::{BufferDescription, GpuAllocationDescription, GpuAllocationId, ImageDescription, ImageSubresourceRange};

verus! {

/// Texture handle in a constant buffer.
#[derive(Clone, Copy, Debug, PartialEq, Eq, Hash, Structural)]
pub struct MaxwellThreeDTextureReference {
    pub group: u8,
    pub slot: u8,
    pub byte_offset: u32,
}

/// Dimension of a sampled texture.
#[derive(Clone, Copy, Debug, PartialEq, Eq, Hash, Structural)]
pub enum MaxwellThreeDTextureDimension {
    Two,
    TwoArray,
}

/// What an operation uses a resource for.
#[derive(Clone, Copy, Debug, PartialEq, Eq, Hash, Structural)]
#[allow(inconsistent_fields)]
pub enum MaxwellThreeDResourceRole {
    VertexStream(u8),
    ColorTarget(u8),
    DepthStencilTarget,
    ConstantBuffer { group: u8, slot: u8 },
    SampledImage {
        texture: MaxwellThreeDTextureReference,
        dimension: MaxwellThreeDTextureDimension,
    },
    Sampler(MaxwellThreeDTextureReference),
}

/// Part of a canonical page that backs part of a view. Pieces of the same binding of
/// the view carry its number, subresources and memory layout.
#[derive(Clone, Copy, Debug, PartialEq, Eq, Hash, Structural)]
pub struct BackingPiece {
    pub binding: u32,
    pub subresources: ImageSubresourceRange,
    pub layout: u64,
    pub page: u64,
    pub offset: u64,
    pub size: u64,
}

impl BackingPiece {
    /// Whether the pieces share a byte.
    pub open spec fn spec_overlaps(self, other: BackingPiece) -> bool {
        self.page == other.page && self.offset < other.offset + other.size && other.offset
            < self.offset + self.size
    }

    #[must_use]
    #[verifier::when_used_as_spec(spec_overlaps)]
    pub fn overlaps(self, other: BackingPiece) -> (r: bool)
        ensures
            r == self.spec_overlaps(other),
    {
        self.page == other.page && (self.offset as u128) < other.offset as u128 + other.size as u128
            && (other.offset as u128) < self.offset as u128 + self.size as u128
    }

    /// Two pieces overlap exactly when they share a byte of a page.
    pub proof fn law_overlap_is_a_shared_byte(self, other: BackingPiece)
        ensures
            self.spec_overlaps(other) && self.size > 0 && other.size > 0 <==> self.page
                == other.page && exists|byte: int| #[trigger]
                self.holds_byte(byte) && other.holds_byte(byte),
    {
        if self.spec_overlaps(other) && self.size > 0 && other.size > 0 {
            let byte: int = if self.offset < other.offset {
                other.offset as int
            } else {
                self.offset as int
            };
            assert(self.holds_byte(byte) && other.holds_byte(byte));
        }
    }

    pub open spec fn holds_byte(self, byte: int) -> bool {
        self.offset <= byte < self.offset + self.size
    }
}

/// Properties that a view of a resource has apart from its memory and mappings.
#[derive(Clone, Copy, Debug, PartialEq, Eq, Hash, Structural)]
#[allow(inconsistent_fields)]
pub enum ViewShape {
    Buffer { description: BufferDescription, buffer_offset: u64 },
    Image {
        description: ImageDescription,
        swizzle: u32,
        guest_format: u32,
        guest_pte_kind: u8,
        guest_compression_enabled: bool,
    },
}

/// A resource that was resolved to canonical memory.
///
/// `mappings` identifies the GPU virtual mappings it was resolved through and
/// `cpu_writes` the record of later CPU writes to its memory. `has_direct_representation`
/// tells whether its bytes are importable as they are, `view_is_valid` whether a view of
/// it can be made under a new identity, and `range_is_valid` whether its whole size is a
/// range of a buffer.
#[derive(Debug)]
pub struct MaxwellThreeDResolvedResource {
    pub role: MaxwellThreeDResourceRole,
    pub shape: ViewShape,
    pub allocation: GpuAllocationId,
    pub allocation_description: GpuAllocationDescription,
    pub subresources: ImageSubresourceRange,
    pub has_direct_representation: bool,
    pub view_is_valid: bool,
    pub range_is_valid: bool,
    pub pieces: Vec<BackingPiece>,
    pub mappings: Vec<u64>,
    pub cpu_writes: Option<u64>,
}

/// Content of a resolved resource.
#[verifier::ext_equal]
pub struct ResolvedModel {
    pub role: MaxwellThreeDResourceRole,
    pub shape: ViewShape,
    pub allocation: GpuAllocationId,
    pub allocation_description: GpuAllocationDescription,
    pub subresources: ImageSubresourceRange,
    pub has_direct_representation: bool,
    pub view_is_valid: bool,
    pub range_is_valid: bool,
    pub pieces: Seq<BackingPiece>,
    pub mappings: Seq<u64>,
    pub cpu_writes: Option<u64>,
}

impl View for MaxwellThreeDResolvedResource {
    type V = ResolvedModel;

    open spec fn view(&self) -> ResolvedModel {
        ResolvedModel {
            role: self.role,
            shape: self.shape,
            allocation: self.allocation,
            allocation_description: self.allocation_description,
            subresources: self.subresources,
            has_direct_representation: self.has_direct_representation,
            view_is_valid: self.view_is_valid,
            range_is_valid: self.range_is_valid,
            pieces: self.pieces@,
            mappings: self.mappings@,
            cpu_writes: self.cpu_writes,
        }
    }
}

impl ResolvedModel {
    /// Image properties, if the resource is an image.
    pub open spec fn image(self) -> Option<ImageDescription> {
        match self.shape {
            ViewShape::Image { description, .. } => Some(description),
            ViewShape::Buffer { .. } => None,
        }
    }

    /// Buffer properties, if the resource is a buffer.
    pub open spec fn buffer(self) -> Option<BufferDescription> {
        match self.shape {
            ViewShape::Buffer { description, .. } => Some(description),
            ViewShape::Image { .. } => None,
        }
    }

    /// Whether the contents are compressed and must be materialized before use.
    pub open spec fn requires_materialization(self) -> bool {
        match self.shape {
            ViewShape::Image { guest_compression_enabled, .. } => guest_compression_enabled,
            ViewShape::Buffer { .. } => false,
        }
    }

    /// Page kind of an image.
    pub open spec fn pte_kind(self) -> u8 {
        match self.shape {
            ViewShape::Image { guest_pte_kind, .. } => guest_pte_kind,
            ViewShape::Buffer { .. } => 0,
        }
    }
}

impl MaxwellThreeDResolvedResource {
    #[must_use]
    pub fn role(&self) -> (r: MaxwellThreeDResourceRole)
        ensures
            r == self@.role,
    {
        self.role
    }

    #[must_use]
    pub fn image(&self) -> (r: Option<ImageDescription>)
        ensures
            r == self@.image(),
    {
        match self.shape {
            ViewShape::Image { description, .. } => Some(description),
            ViewShape::Buffer { .. } => None,
        }
    }

    #[must_use]
    pub fn buffer(&self) -> (r: Option<BufferDescription>)
        ensures
            r == self@.buffer(),
    {
        match self.shape {
            ViewShape::Buffer { description, .. } => Some(description),
            ViewShape::Image { .. } => None,
        }
    }

    #[must_use]
    pub fn requires_materialization(&self) -> (r: bool)
        ensures
            r == self@.requires_materialization(),
    {
        match self.shape {
            ViewShape::Image { guest_compression_enabled, .. } => guest_compression_enabled,
            ViewShape::Buffer { .. } => false,
        }
    }

    #[must_use]
    pub fn pte_kind(&self) -> (r: u8)
        ensures
            r == self@.pte_kind(),
    {
        match self.shape {
            ViewShape::Image { guest_pte_kind, .. } => guest_pte_kind,
            ViewShape::Buffer { .. } => 0,
        }
    }
}

/// A sampler that was resolved from its descriptor; `description` is absent where the
/// descriptor has no host-independent form.
#[derive(Clone, Copy, Debug, PartialEq, Eq)]
pub struct MaxwellThreeDResolvedSampler {
    pub role: MaxwellThreeDResourceRole,
    pub descriptor: u64,
    pub description: Option<u64>,
}

/// Two resolved resources that share memory, by position.
#[derive(Clone, Copy, Debug, PartialEq, Eq, Hash, Structural)]
pub struct MaxwellThreeDResourceAlias {
    pub first: usize,
    pub second: usize,
}

/// Resources of one operation. The identity tells resolutions apart.
#[derive(Debug)]
pub struct MaxwellThreeDResolvedResources {
    pub identity: u64,
    pub resources: Vec<MaxwellThreeDResolvedResource>,
    pub samplers: Vec<MaxwellThreeDResolvedSampler>,
    pub aliases: Vec<MaxwellThreeDResourceAlias>,
}

impl MaxwellThreeDResolvedResources {
    /// Content of the resources, in order.
    pub open spec fn models(&self) -> Seq<ResolvedModel> {
        self.resources@.map_values(|resource: MaxwellThreeDResolvedResource| resource@)
    }

    /// Aliases name resources.
    pub open spec fn wf(&self) -> bool {
        forall|i: int|
            #![trigger self.aliases@[i]]
            0 <= i < self.aliases@.len() ==> self.aliases@[i].first < self.resources@.len()
                && self.aliases@[i].second < self.resources@.len()
    }
}

/// Position of the first resource with a role.
pub open spec fn role_position(resources: Seq<ResolvedModel>, role: MaxwellThreeDResourceRole) -> Option<
    usize,
>
    decreases resources.len(),
{
    if resources.len() == 0 {
        None
    } else {
        match role_position(resources.drop_last(), role) {
            Some(position) => Some(position),
            None => if resources.last().role == role {
                Some((resources.len() - 1) as usize)
            } else {
                None
            },
        }
    }
}

/// The position found is the first with the role, and one is found exactly when some
/// resource has it.
pub proof fn law_role_position_is_first(resources: Seq<ResolvedModel>, role: MaxwellThreeDResourceRole)
    requires
        resources.len() <= usize::MAX,
    ensures
        match role_position(resources, role) {
            Some(position) => {
                &&& position < resources.len()
                &&& resources[position as int].role == role
                &&& forall|i: int| 0 <= i < position ==> #[trigger] resources[i].role != role
            },
            None => forall|i: int| 0 <= i < resources.len() ==> #[trigger] resources[i].role != role,
        },
    decreases resources.len(),
{
    if resources.len() > 0 {
        law_role_position_is_first(resources.drop_last(), role);
        assert forall|i: int| 0 <= i < resources.len() - 1 implies resources[i]
            == resources.drop_last()[i] by {}
    }
}

/// Position of the resource with a role.
pub fn find_role(resources: &MaxwellThreeDResolvedResources, role: MaxwellThreeDResourceRole) -> (r:
    Option<usize>)
    ensures
        r == role_position(resources.models(), role),
        r matches Some(position) ==> position < resources.resources@.len()
            && resources.resources@[position as int]@.role == role,
{
    let ghost models = resources.models();
    let mut index: usize = 0;
    while index < resources.resources.len()
        invariant
            models == resources.models(),
            index <= resources.resources@.len(),
            role_position(models.take(index as int), role) is None,
        decreases resources.resources@.len() - index,
    {
        proof {
            assert(models.take(index + 1).drop_last() =~= models.take(index as int));
        }
        if resources.resources[index].role == role {
            proof {
                lemma_role_position_stays(models, index + 1, role);
            }
            return Some(index);
        }
        index = index + 1;
    }
    proof {
        assert(models.take(index as int) =~= models);
    }
    None
}

proof fn lemma_role_position_stays(resources: Seq<ResolvedModel>, end: int, role: MaxwellThreeDResourceRole)
    requires
        0 <= end <= resources.len(),
        role_position(resources.take(end), role) is Some,
    ensures
        role_position(resources, role) == role_position(resources.take(end), role),
    decreases resources.len() - end,
{
    if end < resources.len() {
        assert(resources.take(end + 1).drop_last() =~= resources.take(end));
        lemma_role_position_stays(resources, end + 1, role);
    } else {
        assert(resources.take(end) =~= resources);
    }
}

} // verus!
