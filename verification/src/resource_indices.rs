//! Resources that an operation needs, by position and by role.

use vstd::prelude::*;
use crate::attachments::{active_target_count, DrawAttachmentSelection, SelectionModel};
use crate::dispatch::MaxwellThreeDOperationTrigger;
use crate::draw_inputs::stream_enabled;
use crate::draw_state::draw_depth_stencil_resource_required;
use crate::lists::holds_position;
use crate::lowering_error::MaxwellThreeDLoweringError;
use crate::render_targets::MaxwellThreeDColorTargetSelection;
use crate::resource::{find_role, MaxwellThreeDResolvedResources, MaxwellThreeDResourceAlias, MaxwellThreeDResourceRole, ResolvedModel};
use crate::sampler_preparation::resource_index;
use crate::state::MaxwellThreeDState;
use crate::translated_shaders::{MaxwellThreeDShaderResourceUse, MaxwellThreeDTranslatedShaders};

verus! {

/// Increasing sequence after a position was added, unless it is there.
pub open spec fn inserted(positions: Seq<usize>, added: usize) -> Seq<usize>
    decreases positions.len(),
{
    if positions.len() == 0 {
        seq![added]
    } else if positions.last() == added {
        positions
    } else if positions.last() < added {
        positions.push(added)
    } else {
        inserted(positions.drop_last(), added).push(positions.last())
    }
}

/// Positions in increasing order, each once.
pub open spec fn sorted_unique(positions: Seq<usize>) -> Seq<usize>
    decreases positions.len(),
{
    if positions.len() == 0 {
        positions
    } else {
        inserted(sorted_unique(positions.drop_last()), positions.last())
    }
}

/// Whether positions increase.
pub open spec fn increasing(positions: Seq<usize>) -> bool {
    forall|i: int, j: int|
        #![trigger positions[i], positions[j]]
        0 <= i < j < positions.len() ==> positions[i] < positions[j]
}

proof fn lemma_inserted(positions: Seq<usize>, added: usize)
    requires
        increasing(positions),
    ensures
        increasing(inserted(positions, added)),
        forall|position: usize| #[trigger]
            inserted(positions, added).contains(position) <==> positions.contains(position)
                || position == added,
    decreases positions.len(),
{
    if positions.len() == 0 {
        assert(inserted(positions, added)[0] == added);
    } else {
        let rest = positions.drop_last();
        assert(positions =~= rest.push(positions.last()));
        lemma_inserted(rest, added);
        let after = inserted(positions, added);
        if positions.last() == added {
            assert(positions[positions.len() - 1] == added);
        } else if positions.last() < added {
            assert(after[positions.len() as int] == added);
            assert forall|position: usize| #[trigger]
                after.contains(position) <==> positions.contains(position) || position == added by {
                if positions.contains(position) {
                    assert(after[positions.index_of(position)] == position);
                }
            }
        } else {
            let inner = inserted(rest, added);
            assert(after == inner.push(positions.last()));
            assert forall|i: int|
                #![trigger inner[i]]
                0 <= i < inner.len() implies inner[i] < positions.last() by {
                assert(inner.contains(inner[i]));
                if rest.contains(inner[i]) {
                    let at = rest.index_of(inner[i]);
                    assert(positions[at] < positions[positions.len() - 1]);
                }
            }
            assert forall|position: usize| #[trigger]
                after.contains(position) <==> positions.contains(position) || position == added by {
                if after.contains(position) {
                    let at = after.index_of(position);
                    if at < inner.len() {
                        assert(inner.contains(inner[at]));
                        if rest.contains(position) {
                            assert(positions[rest.index_of(position)] == position);
                        }
                    } else {
                        assert(positions[positions.len() - 1] == position);
                    }
                }
                if positions.contains(position) {
                    let at = positions.index_of(position);
                    if at < rest.len() {
                        assert(rest[at] == position);
                        assert(inner.contains(position));
                        assert(after[inner.index_of(position)] == position);
                    } else {
                        assert(after[inner.len() as int] == position);
                    }
                }
                if position == added {
                    assert(inner.contains(added));
                    assert(after[inner.index_of(added)] == added);
                }
            }
        }
    }
}

/// Sorting keeps exactly the positions there are, each once, in increasing order.
pub proof fn law_sorted_unique(positions: Seq<usize>)
    ensures
        increasing(sorted_unique(positions)),
        forall|position: usize| #[trigger]
            sorted_unique(positions).contains(position) <==> positions.contains(position),
    decreases positions.len(),
{
    if positions.len() > 0 {
        let rest = positions.drop_last();
        law_sorted_unique(rest);
        lemma_inserted(sorted_unique(rest), positions.last());
        assert(positions =~= rest.push(positions.last()));
        assert forall|position: usize| #[trigger]
            sorted_unique(positions).contains(position) <==> positions.contains(position) by {
            if rest.contains(position) {
                assert(positions[rest.index_of(position)] == position);
            }
            if positions.contains(position) {
                let at = positions.index_of(position);
                if at < rest.len() {
                    assert(rest[at] == position);
                }
            }
            assert(positions[positions.len() - 1] == positions.last());
        }
    }
}

proof fn lemma_inserted_at(positions: Seq<usize>, added: usize, at: int)
    requires
        0 <= at <= positions.len(),
        forall|i: int|
            #![trigger positions[i]]
            at <= i < positions.len() ==> positions[i] > added,
        at > 0 ==> positions[at - 1] <= added,
    ensures
        inserted(positions, added) == if at > 0 && positions[at - 1] == added {
            positions
        } else {
            positions.insert(at, added)
        },
    decreases positions.len(),
{
    if positions.len() == 0 {
        assert(positions.insert(0, added) =~= seq![added]);
    } else if at == positions.len() {
        assert(positions.insert(at, added) =~= positions.push(added));
    } else {
        let rest = positions.drop_last();
        lemma_inserted_at(rest, added, at);
        assert(rest.push(positions.last()) =~= positions);
        assert(rest.insert(at, added).push(positions.last()) =~= positions.insert(at, added));
    }
}

#[verifier::loop_isolation(false)]
fn insert(positions: &mut Vec<usize>, added: usize)
    ensures
        final(positions)@ == inserted(old(positions)@, added),
{
    let ghost before = positions@;
    let mut at: usize = positions.len();
    while at > 0 && positions[at - 1] > added
        invariant
            at <= positions@.len(),
            positions@ == before,
            forall|i: int|
                #![trigger before[i]]
                at <= i < before.len() ==> before[i] > added,
        decreases at,
    {
        at = at - 1;
    }
    proof {
        lemma_inserted_at(before, added, at as int);
    }
    if at == 0 || positions[at - 1] != added {
        positions.insert(at, added);
    }
}

/// Positions in increasing order, each once.
#[verifier::loop_isolation(false)]
pub fn sort_unique(positions: &Vec<usize>) -> (r: Vec<usize>)
    ensures
        r@ == sorted_unique(positions@),
{
    let mut sorted: Vec<usize> = Vec::new();
    let mut index: usize = 0;
    while index < positions.len()
        invariant
            index <= positions@.len(),
            sorted@ == sorted_unique(positions@.take(index as int)),
        decreases positions@.len() - index,
    {
        proof {
            assert(positions@.take(index + 1).drop_last() =~= positions@.take(index as int));
        }
        insert(&mut sorted, positions[index]);
        index = index + 1;
    }
    proof {
        assert(positions@.take(index as int) =~= positions@);
    }
    sorted
}

/// Positions of the resources of the enabled streams after those found so far, from a
/// stream on.
pub open spec fn streams_indexed(
    state: &MaxwellThreeDState,
    models: Seq<ResolvedModel>,
    from: int,
    found: Seq<usize>,
) -> Result<Seq<usize>, MaxwellThreeDLoweringError>
    decreases 32 - from,
{
    if from < 0 || from >= 32 {
        Ok(found)
    } else if !stream_enabled(state, from as u8) {
        streams_indexed(state, models, from + 1, found)
    } else {
        match crate::sampler_preparation::spec_resource_index(
            models,
            MaxwellThreeDResourceRole::VertexStream(from as u8),
        ) {
            Err(error) => Err(error),
            Ok(index) => streams_indexed(state, models, from + 1, found.push(index)),
        }
    }
}

#[verifier::loop_isolation(false)]
fn index_streams(
    state: &MaxwellThreeDState,
    resources: &MaxwellThreeDResolvedResources,
    found: &mut Vec<usize>,
) -> (r: Result<(), MaxwellThreeDLoweringError>)
    requires
        all_within(old(found)@, resources.resources@.len()),
    ensures
        match streams_indexed(state, resources.models(), 0, old(found)@) {
            Ok(all) => r is Ok && final(found)@ == all && all_within(
                all,
                resources.resources@.len(),
            ),
            Err(error) => r == Err::<(), MaxwellThreeDLoweringError>(error),
        },
{
    let ghost models = resources.models();
    let ghost whole = streams_indexed(state, models, 0, found@);
    let mut stream: u8 = 0;
    while stream < 32
        invariant
            stream <= 32,
            all_within(found@, resources.resources@.len()),
            whole == streams_indexed(state, models, stream as int, found@),
        decreases 32 - stream,
    {
        if stream_enabled(state, stream) {
            match resource_index(resources, MaxwellThreeDResourceRole::VertexStream(stream)) {
                Ok(index) => {
                    found.push(index);
                },
                Err(error) => {
                    return Err(error);
                },
            }
        }
        stream = stream + 1;
    }
    Ok(())
}

/// Whether positions are those of so many resources.
pub open spec fn all_within(positions: Seq<usize>, length: nat) -> bool {
    forall|i: int|
        #![trigger positions[i]]
        0 <= i < positions.len() ==> positions[i] < length
}

/// Positions of the resources that shaders use after those found so far, from a use on.
/// Samplers have no resource.
pub open spec fn uses_indexed(
    models: Seq<ResolvedModel>,
    uses: Seq<MaxwellThreeDShaderResourceUse>,
    from: int,
    found: Seq<usize>,
) -> Result<Seq<usize>, MaxwellThreeDLoweringError>
    decreases uses.len() - from,
{
    if from < 0 || from >= uses.len() {
        Ok(found)
    } else if uses[from].role is Sampler {
        uses_indexed(models, uses, from + 1, found)
    } else {
        match crate::sampler_preparation::spec_resource_index(models, uses[from].role) {
            Err(error) => Err(error),
            Ok(index) => uses_indexed(models, uses, from + 1, found.push(index)),
        }
    }
}

#[verifier::loop_isolation(false)]
fn index_uses(
    resources: &MaxwellThreeDResolvedResources,
    uses: &Vec<MaxwellThreeDShaderResourceUse>,
    found: &mut Vec<usize>,
) -> (r: Result<(), MaxwellThreeDLoweringError>)
    requires
        all_within(old(found)@, resources.resources@.len()),
    ensures
        match uses_indexed(resources.models(), uses@, 0, old(found)@) {
            Ok(all) => r is Ok && final(found)@ == all && all_within(
                all,
                resources.resources@.len(),
            ),
            Err(error) => r == Err::<(), MaxwellThreeDLoweringError>(error),
        },
{
    let ghost models = resources.models();
    let ghost whole = uses_indexed(models, uses@, 0, found@);
    let mut index: usize = 0;
    while index < uses.len()
        invariant
            index <= uses@.len(),
            all_within(found@, resources.resources@.len()),
            whole == uses_indexed(models, uses@, index as int, found@),
        decreases uses@.len() - index,
    {
        let role = uses[index].role;
        let samples = match role {
            MaxwellThreeDResourceRole::Sampler(_) => true,
            _ => false,
        };
        if !samples {
            match resource_index(resources, role) {
                Ok(position) => {
                    found.push(position);
                },
                Err(error) => {
                    return Err(error);
                },
            }
        }
        index = index + 1;
    }
    Ok(())
}

/// Positions of the resources of a draw: attachments, enabled streams and what the
/// shaders use, in increasing order.
pub open spec fn draw_indices(
    state: &MaxwellThreeDState,
    models: Seq<ResolvedModel>,
    attachments: SelectionModel,
    uses: Seq<MaxwellThreeDShaderResourceUse>,
) -> Result<Seq<usize>, MaxwellThreeDLoweringError> {
    match streams_indexed(state, models, 0, attachments.attachment_indices()) {
        Err(error) => Err(error),
        Ok(found) => match uses_indexed(models, uses, 0, found) {
            Err(error) => Err(error),
            Ok(found) => Ok(sorted_unique(found)),
        },
    }
}

/// Positions of the resources of a draw.
pub fn draw_resource_indices(
    state: &MaxwellThreeDState,
    resources: &MaxwellThreeDResolvedResources,
    attachments: &DrawAttachmentSelection,
    shaders: &MaxwellThreeDTranslatedShaders,
) -> (r: Result<Vec<usize>, MaxwellThreeDLoweringError>)
    requires
        attachments@.wf(resources.resources@.len()),
    ensures
        match draw_indices(state, resources.models(), attachments@, shaders@.resources) {
            Ok(indices) => r matches Ok(found) && found@ == indices && all_within(
                indices,
                resources.resources@.len(),
            ),
            Err(error) => r == Err::<Vec<usize>, MaxwellThreeDLoweringError>(error),
        },
{
    let mut found: Vec<usize> = attachments.attachment_indices();
    match index_streams(state, resources, &mut found) {
        Ok(()) => {},
        Err(error) => {
            return Err(error);
        },
    }
    match index_uses(resources, &shaders.resources, &mut found) {
        Ok(()) => {},
        Err(error) => {
            return Err(error);
        },
    }
    let sorted: Vec<usize> = sort_unique(&found);
    proof {
        law_sorted_unique(found@);
        assert forall|i: int|
            #![trigger sorted@[i]]
            0 <= i < sorted@.len() implies sorted@[i] < resources.resources@.len() by {
            assert(sorted@.contains(sorted@[i]));
            let at = found@.index_of(sorted@[i]);
            assert(found@[at] < resources.resources@.len());
        }
    }
    Ok(sorted)
}

/// Positions of the resources of the surface clear of a state, as far as they were
/// resolved, in increasing order.
pub open spec fn clear_indices(state: &MaxwellThreeDState, models: Seq<ResolvedModel>) -> Result<
    Seq<usize>,
    MaxwellThreeDLoweringError,
> {
    match state.render_targets.clear_surface.value {
        None => Err(MaxwellThreeDLoweringError::IncompleteClear("CLEAR_SURFACE")),
        Some(surface) => {
            let color = if surface.color_mask() != 0 {
                crate::resource::role_position(
                    models,
                    MaxwellThreeDResourceRole::ColorTarget(surface.color_target()),
                )
            } else {
                None
            };
            let depth_stencil = if surface.depth() || surface.stencil() {
                crate::resource::role_position(
                    models,
                    MaxwellThreeDResourceRole::DepthStencilTarget,
                )
            } else {
                None
            };
            Ok(
                sorted_unique(
                    match (color, depth_stencil) {
                        (Some(color), Some(depth_stencil)) => seq![color, depth_stencil],
                        (Some(color), None) => seq![color],
                        (None, Some(depth_stencil)) => seq![depth_stencil],
                        (None, None) => Seq::empty(),
                    },
                ),
            )
        },
    }
}

/// Positions of the resources of the surface clear of a state.
pub fn clear_resource_indices(state: &MaxwellThreeDState, resources: &MaxwellThreeDResolvedResources) -> (r:
    Result<Vec<usize>, MaxwellThreeDLoweringError>)
    ensures
        match clear_indices(state, resources.models()) {
            Ok(indices) => r matches Ok(found) && found@ == indices,
            Err(error) => r == Err::<Vec<usize>, MaxwellThreeDLoweringError>(error),
        },
{
    let surface = match state.render_targets.clear_surface.value {
        Some(surface) => surface,
        None => {
            return Err(MaxwellThreeDLoweringError::IncompleteClear("CLEAR_SURFACE"));
        },
    };
    let mut found: Vec<usize> = Vec::new();
    if surface.color_mask() != 0 {
        if let Some(index) = find_role(
            resources,
            MaxwellThreeDResourceRole::ColorTarget(surface.color_target()),
        ) {
            found.push(index);
            proof {
                assert(found@ =~= seq![index]);
            }
        }
    }
    let ghost colors = found@;
    if surface.depth() || surface.stencil() {
        if let Some(index) = find_role(resources, MaxwellThreeDResourceRole::DepthStencilTarget) {
            found.push(index);
            proof {
                if colors.len() == 0 {
                    assert(found@ =~= seq![index]);
                } else {
                    assert(found@ =~= seq![colors[0], index]);
                }
            }
        }
    }
    proof {
        if found@.len() == 0 {
            assert(found@ =~= Seq::empty());
        }
    }
    Ok(sort_unique(&found))
}

/// Check of the aliases from one on: resources of a draw may share memory only where
/// none of the two is an attachment.
pub open spec fn aliases_check(
    models: Seq<ResolvedModel>,
    aliases: Seq<MaxwellThreeDResourceAlias>,
    from: int,
    required: Seq<usize>,
    attached: Seq<usize>,
) -> Result<(), MaxwellThreeDLoweringError>
    decreases aliases.len() - from,
{
    if from < 0 || from >= aliases.len() {
        Ok(())
    } else {
        let alias = aliases[from];
        if required.contains(alias.first) && required.contains(alias.second) && (attached.contains(
            alias.first,
        ) || attached.contains(alias.second)) {
            Err(
                MaxwellThreeDLoweringError::AliasedDrawResources {
                    first: models[alias.first as int].role,
                    second: models[alias.second as int].role,
                },
            )
        } else {
            aliases_check(models, aliases, from + 1, required, attached)
        }
    }
}

/// Checks that no attachment of a draw shares memory with another of its resources.
#[verifier::loop_isolation(false)]
pub fn reject_draw_aliases(
    resources: &MaxwellThreeDResolvedResources,
    required: &Vec<usize>,
    attached: &Vec<usize>,
) -> (r: Result<(), MaxwellThreeDLoweringError>)
    requires
        resources.wf(),
    ensures
        r == aliases_check(resources.models(), resources.aliases@, 0, required@, attached@),
{
    let ghost models = resources.models();
    let ghost whole = aliases_check(models, resources.aliases@, 0, required@, attached@);
    let mut index: usize = 0;
    while index < resources.aliases.len()
        invariant
            index <= resources.aliases@.len(),
            whole == aliases_check(
                models,
                resources.aliases@,
                index as int,
                required@,
                attached@,
            ),
        decreases resources.aliases@.len() - index,
    {
        let alias = resources.aliases[index];
        if holds_position(required, alias.first) && holds_position(required, alias.second) && (
        holds_position(attached, alias.first) || holds_position(attached, alias.second)) {
            return Err(
                MaxwellThreeDLoweringError::AliasedDrawResources {
                    first: resources.resources[alias.first].role,
                    second: resources.resources[alias.second].role,
                },
            );
        }
        index = index + 1;
    }
    Ok(())
}

/// A draw that passes has no alias between an attachment and another resource it needs.
pub proof fn law_attachments_are_not_aliased(
    models: Seq<ResolvedModel>,
    aliases: Seq<MaxwellThreeDResourceAlias>,
    from: int,
    required: Seq<usize>,
    attached: Seq<usize>,
    position: int,
)
    requires
        aliases_check(models, aliases, from, required, attached) is Ok,
        0 <= from <= position < aliases.len(),
        required.contains(aliases[position].first),
        required.contains(aliases[position].second),
    ensures
        !attached.contains(aliases[position].first),
        !attached.contains(aliases[position].second),
    decreases aliases.len() - from,
{
    if from < position {
        law_attachments_are_not_aliased(models, aliases, from + 1, required, attached, position);
    }
}

/// Stream roles that the attributes from a location on need, after the roles so far.
pub open spec fn stream_roles(
    state: &MaxwellThreeDState,
    from: int,
    roles: Seq<MaxwellThreeDResourceRole>,
) -> Seq<MaxwellThreeDResourceRole>
    decreases 32 - from,
{
    if from < 0 || from >= 32 {
        roles
    } else {
        match state.vertex_input.attributes[from].value {
            Some(attribute) => {
                let role = MaxwellThreeDResourceRole::VertexStream(attribute.stream());
                if attribute.enabled() && !roles.contains(role) {
                    stream_roles(state, from + 1, roles.push(role))
                } else {
                    stream_roles(state, from + 1, roles)
                }
            },
            None => stream_roles(state, from + 1, roles),
        }
    }
}

/// Roles of the resources that a trigger needs, after the roles so far: the selected
/// targets of a surface clear, or the streams of the enabled attributes, the routed color
/// targets and the depth/stencil target of a draw.
pub open spec fn roles_appended(
    trigger: MaxwellThreeDOperationTrigger,
    state: &MaxwellThreeDState,
    roles: Seq<MaxwellThreeDResourceRole>,
) -> Seq<MaxwellThreeDResourceRole> {
    match trigger {
        MaxwellThreeDOperationTrigger::ClearSurface { .. } => {
            match state.render_targets.clear_surface.value {
                None => roles,
                Some(surface) => {
                    let with_color = if surface.color_mask() != 0 {
                        roles.push(MaxwellThreeDResourceRole::ColorTarget(surface.color_target()))
                    } else {
                        roles
                    };
                    if surface.depth() || surface.stencil() {
                        with_color.push(MaxwellThreeDResourceRole::DepthStencilTarget)
                    } else {
                        with_color
                    }
                },
            }
        },
        MaxwellThreeDOperationTrigger::DrawVertexArray { .. } => {
            let streams = stream_roles(state, 0, roles);
            let colors = match state.render_targets.color_target_selection.value {
                Some(selection) => streams + crate::attachments::active_targets(
                    selection,
                ).map_values(|target: u8| MaxwellThreeDResourceRole::ColorTarget(target)),
                None => streams,
            };
            if draw_depth_stencil_resource_required(state) {
                colors.push(MaxwellThreeDResourceRole::DepthStencilTarget)
            } else {
                colors
            }
        },
    }
}

fn holds_role(roles: &Vec<MaxwellThreeDResourceRole>, wanted: MaxwellThreeDResourceRole) -> (r: bool)
    ensures
        r == roles@.contains(wanted),
{
    let mut index: usize = 0;
    while index < roles.len()
        invariant
            index <= roles@.len(),
            forall|i: int| 0 <= i < index ==> roles@[i] != wanted,
        decreases roles@.len() - index,
    {
        if roles[index] == wanted {
            return true;
        }
        index = index + 1;
    }
    false
}

#[verifier::loop_isolation(false)]
fn append_stream_roles(state: &MaxwellThreeDState, roles: &mut Vec<MaxwellThreeDResourceRole>)
    ensures
        final(roles)@ == stream_roles(state, 0, old(roles)@),
{
    let ghost whole = stream_roles(state, 0, roles@);
    let mut location: usize = 0;
    while location < 32
        invariant
            location <= 32,
            whole == stream_roles(state, location as int, roles@),
        decreases 32 - location,
    {
        if let Some(attribute) = state.vertex_input.attributes[location].value {
            let role = MaxwellThreeDResourceRole::VertexStream(attribute.stream());
            if attribute.enabled() && !holds_role(roles, role) {
                roles.push(role);
            }
        }
        location = location + 1;
    }
}

#[verifier::loop_isolation(false)]
fn append_color_roles(
    selection: MaxwellThreeDColorTargetSelection,
    roles: &mut Vec<MaxwellThreeDResourceRole>,
)
    ensures
        final(roles)@ == old(roles)@ + crate::attachments::active_targets(selection).map_values(
            |target: u8| MaxwellThreeDResourceRole::ColorTarget(target),
        ),
{
    let ghost before = roles@;
    let ghost targets = crate::attachments::active_targets(selection);
    let ghost name = |target: u8| MaxwellThreeDResourceRole::ColorTarget(target);
    let count: u8 = active_target_count(selection);
    let mut output: u8 = 0;
    proof {
        assert(roles@ =~= before + targets.take(0).map_values(name));
    }
    while output < count
        invariant
            output <= count,
            roles@ == before + targets.take(output as int).map_values(name),
        decreases count - output,
    {
        roles.push(MaxwellThreeDResourceRole::ColorTarget(selection.target(output)));
        proof {
            assert(targets[output as int] == selection.spec_target(output));
            assert(roles@ =~= before + targets.take(output + 1).map_values(name));
        }
        output = output + 1;
    }
    proof {
        assert(targets.take(output as int) =~= targets);
    }
}

impl MaxwellThreeDOperationTrigger {
    /// Adds the roles of the resources that the trigger needs.
    pub fn append_resource_roles(
        self,
        state: &MaxwellThreeDState,
        roles: &mut Vec<MaxwellThreeDResourceRole>,
    )
        ensures
            final(roles)@ == roles_appended(self, state, old(roles)@),
    {
        match self {
            MaxwellThreeDOperationTrigger::ClearSurface { .. } => {
                if let Some(surface) = state.render_targets.clear_surface.value {
                    if surface.color_mask() != 0 {
                        roles.push(MaxwellThreeDResourceRole::ColorTarget(surface.color_target()));
                    }
                    if surface.depth() || surface.stencil() {
                        roles.push(MaxwellThreeDResourceRole::DepthStencilTarget);
                    }
                }
            },
            MaxwellThreeDOperationTrigger::DrawVertexArray { .. } => {
                append_stream_roles(state, roles);
                if let Some(selection) = state.render_targets.color_target_selection.value {
                    append_color_roles(selection, roles);
                }
                if draw_depth_stencil_resource_required(state) {
                    roles.push(MaxwellThreeDResourceRole::DepthStencilTarget);
                }
            },
        }
    }
}

} // verus!
