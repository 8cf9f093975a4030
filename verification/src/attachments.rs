//! Attachments of a draw.

use vstd::prelude::*;
use crate::draw_state::draw_depth_stencil_attachment_required;
use crate::draw_validation::{MaxwellThreeDAttachmentReadiness, MaxwellThreeDDrawFacts};
use crate::lowering_error::MaxwellThreeDLoweringError;
use crate::neutral::{ImageExtent, ImageKind};
use crate::output::MaxwellThreeDSurfaceClipAxis;
use crate::render_targets::MaxwellThreeDColorTargetSelection;
use crate::resource::{find_role, MaxwellThreeDResolvedResources, MaxwellThreeDResourceRole, ResolvedModel};
use crate::state::MaxwellThreeDState;

verus! {

/// Attachments of one draw: the color targets with the positions of their resources,
/// in output order, and the position of the depth/stencil resource.
#[derive(Debug)]
pub struct DrawAttachmentSelection {
    pub colors: Vec<(u8, usize)>,
    pub depth_stencil: Option<usize>,
}

/// Content of an attachment selection.
#[verifier::ext_equal]
pub struct SelectionModel {
    pub colors: Seq<(u8, usize)>,
    pub depth_stencil: Option<usize>,
}

impl View for DrawAttachmentSelection {
    type V = SelectionModel;

    open spec fn view(&self) -> SelectionModel {
        SelectionModel { colors: self.colors@, depth_stencil: self.depth_stencil }
    }
}

impl SelectionModel {
    /// Resource positions: the colors in order, then depth/stencil.
    pub open spec fn attachment_indices(self) -> Seq<usize> {
        let colors = self.colors.map_values(|color: (u8, usize)| color.1);
        match self.depth_stencil {
            Some(index) => colors.push(index),
            None => colors,
        }
    }

    /// Positions are in range and color targets exist.
    pub open spec fn wf(self, resources: nat) -> bool {
        &&& forall|i: int|
            #![trigger self.colors[i]]
            0 <= i < self.colors.len() ==> self.colors[i].0 < 8 && self.colors[i].1 < resources
        &&& self.depth_stencil matches Some(index) ==> index < resources
    }

    pub open spec fn is_empty(self) -> bool {
        self.colors.len() == 0 && self.depth_stencil is None
    }
}

impl DrawAttachmentSelection {
    #[must_use]
    pub fn attachment_indices(&self) -> (r: Vec<usize>)
        ensures
            r@ == self@.attachment_indices(),
    {
        let mut indices: Vec<usize> = Vec::new();
        let mut slot: usize = 0;
        while slot < self.colors.len()
            invariant
                slot <= self.colors@.len(),
                indices@ == self.colors@.take(slot as int).map_values(
                    |color: (u8, usize)| color.1,
                ),
            decreases self.colors@.len() - slot,
        {
            indices.push(self.colors[slot].1);
            proof {
                assert(indices@ =~= self.colors@.take(slot + 1).map_values(
                    |color: (u8, usize)| color.1,
                ));
            }
            slot = slot + 1;
        }
        proof {
            assert(self.colors@.take(slot as int) =~= self.colors@);
        }
        if let Some(index) = self.depth_stencil {
            indices.push(index);
        }
        indices
    }
}

/// Color targets that a selection routes outputs to, in output order.
pub open spec fn active_targets(selection: MaxwellThreeDColorTargetSelection) -> Seq<u8> {
    Seq::new(
        if selection.target_count() <= 8 {
            selection.target_count() as nat
        } else {
            8
        },
        |output: int| selection.spec_target(output as u8),
    )
}

/// Number of outputs that a selection routes.
pub fn active_target_count(selection: MaxwellThreeDColorTargetSelection) -> (r: u8)
    ensures
        r == active_targets(selection).len(),
        r <= 8,
{
    if selection.target_count() <= 8 {
        selection.target_count()
    } else {
        8
    }
}

/// First target, among the outputs from `from` on, that an earlier output has too.
pub open spec fn first_duplicate(targets: Seq<u8>, from: int) -> Option<u8>
    decreases targets.len() - from,
{
    if from < 0 || from >= targets.len() {
        None
    } else if targets.take(from).contains(targets[from]) {
        Some(targets[from])
    } else {
        first_duplicate(targets, from + 1)
    }
}

/// Position of the resource that one output is routed to, or why the route fails.
pub open spec fn routed_color(
    facts: &MaxwellThreeDDrawFacts,
    models: Seq<ResolvedModel>,
    slot: u8,
    target: u8,
) -> Result<usize, MaxwellThreeDLoweringError> {
    match facts.color_readiness[target as int] {
        MaxwellThreeDAttachmentReadiness::Unprogrammed => Err(
            MaxwellThreeDLoweringError::ColorTargetRouteUnprogrammed { slot, target },
        ),
        MaxwellThreeDAttachmentReadiness::Disabled => Err(
            MaxwellThreeDLoweringError::ColorTargetRouteDisabled { slot, target },
        ),
        MaxwellThreeDAttachmentReadiness::Incomplete => Err(
            MaxwellThreeDLoweringError::ColorTargetRouteIncomplete { slot, target },
        ),
        MaxwellThreeDAttachmentReadiness::Ready => image_position(
            models,
            MaxwellThreeDResourceRole::ColorTarget(target),
            ImageKind::Color,
        ),
    }
}

/// Position of the image with a role, which must be of the kind that the role needs.
pub open spec fn image_position(
    models: Seq<ResolvedModel>,
    role: MaxwellThreeDResourceRole,
    kind: ImageKind,
) -> Result<usize, MaxwellThreeDLoweringError> {
    match crate::resource::role_position(models, role) {
        None => Err(MaxwellThreeDLoweringError::MissingResolvedResource { role }),
        Some(index) => match models[index as int].image() {
            Some(description) => if description.kind == kind {
                Ok(index)
            } else {
                Err(MaxwellThreeDLoweringError::ResolvedResourceKindMismatch)
            },
            None => Err(MaxwellThreeDLoweringError::ResolvedResourceKindMismatch),
        },
    }
}

/// Routes of the first outputs, or the first route that fails.
pub open spec fn routed_colors(
    facts: &MaxwellThreeDDrawFacts,
    models: Seq<ResolvedModel>,
    targets: Seq<u8>,
) -> Result<Seq<(u8, usize)>, MaxwellThreeDLoweringError>
    decreases targets.len(),
{
    if targets.len() == 0 {
        Ok(Seq::empty())
    } else {
        match routed_colors(facts, models, targets.drop_last()) {
            Err(error) => Err(error),
            Ok(colors) => match routed_color(
                facts,
                models,
                (targets.len() - 1) as u8,
                targets.last(),
            ) {
                Err(error) => Err(error),
                Ok(index) => Ok(colors.push((targets.last(), index))),
            },
        }
    }
}

/// Attachments of a draw.
///
/// Every selected output must go to a color target of its own that is ready and
/// resolved to a color image. The depth/stencil target is attached if it is resolved,
/// unless both tests are known to be disabled.
pub open spec fn selected_attachments(
    state: &MaxwellThreeDState,
    facts: &MaxwellThreeDDrawFacts,
    models: Seq<ResolvedModel>,
) -> Result<SelectionModel, MaxwellThreeDLoweringError> {
    match state.render_targets.color_target_selection.value {
        None => Err(MaxwellThreeDLoweringError::IncompleteDraw("SET_CT_SELECT")),
        Some(selection) => {
            let targets = active_targets(selection);
            match first_duplicate(targets, 0) {
                Some(target) => Err(
                    MaxwellThreeDLoweringError::DuplicateColorTargetRoute { target },
                ),
                None => match routed_colors(facts, models, targets) {
                    Err(error) => Err(error),
                    Ok(colors) => {
                        let role = MaxwellThreeDResourceRole::DepthStencilTarget;
                        if draw_depth_stencil_attachment_required(state)
                            && crate::resource::role_position(models, role) is Some {
                            match image_position(models, role, ImageKind::DepthStencil) {
                                Err(error) => Err(error),
                                Ok(index) => Ok(
                                    SelectionModel { colors, depth_stencil: Some(index) },
                                ),
                            }
                        } else {
                            Ok(SelectionModel { colors, depth_stencil: None })
                        }
                    },
                },
            }
        },
    }
}

fn find_image(
    resources: &MaxwellThreeDResolvedResources,
    role: MaxwellThreeDResourceRole,
    kind: ImageKind,
) -> (r: Result<usize, MaxwellThreeDLoweringError>)
    ensures
        r == image_position(resources.models(), role, kind),
        r matches Ok(index) ==> index < resources.resources@.len(),
{
    match find_role(resources, role) {
        None => Err(MaxwellThreeDLoweringError::MissingResolvedResource { role }),
        Some(index) => match resources.resources[index].image() {
            Some(description) => {
                if description.kind == kind {
                    Ok(index)
                } else {
                    Err(MaxwellThreeDLoweringError::ResolvedResourceKindMismatch)
                }
            },
            None => Err(MaxwellThreeDLoweringError::ResolvedResourceKindMismatch),
        },
    }
}

/// Whether a target occurs before an output.
fn routed_before(selection: MaxwellThreeDColorTargetSelection, slot: u8) -> (r: bool)
    requires
        slot < active_targets(selection).len(),
        slot < 8,
    ensures
        r == active_targets(selection).take(slot as int).contains(
            active_targets(selection)[slot as int],
        ),
{
    let ghost targets = active_targets(selection);
    let target: u8 = selection.target(slot);
    let mut earlier: u8 = 0;
    while earlier < slot
        invariant
            earlier <= slot < 8,
            slot < targets.len(),
            targets == active_targets(selection),
            target == targets[slot as int],
            forall|i: int| 0 <= i < earlier ==> #[trigger] targets[i] != target,
        decreases slot - earlier,
    {
        let candidate: u8 = selection.target(earlier);
        assert(targets[earlier as int] == candidate);
        if candidate == target {
            proof {
                assert(targets.take(slot as int)[earlier as int] == target);
            }
            return true;
        }
        earlier = earlier + 1;
    }
    proof {
        if targets.take(slot as int).contains(target) {
            let i = targets.take(slot as int).index_of(target);
            assert(targets[i] == target);
        }
    }
    false
}

fn find_duplicate(selection: MaxwellThreeDColorTargetSelection) -> (r: Option<u8>)
    ensures
        r == first_duplicate(active_targets(selection), 0),
{
    let count: u8 = active_target_count(selection);
    let mut slot: u8 = 0;
    while slot < count
        invariant
            slot <= count <= 8,
            count == active_targets(selection).len(),
            first_duplicate(active_targets(selection), 0) == first_duplicate(
                active_targets(selection),
                slot as int,
            ),
        decreases count - slot,
    {
        if routed_before(selection, slot) {
            return Some(selection.target(slot));
        }
        slot = slot + 1;
    }
    None
}

fn route_color(
    facts: &MaxwellThreeDDrawFacts,
    resources: &MaxwellThreeDResolvedResources,
    slot: u8,
    target: u8,
) -> (r: Result<usize, MaxwellThreeDLoweringError>)
    requires
        target < 8,
    ensures
        r == routed_color(facts, resources.models(), slot, target),
        r matches Ok(index) ==> index < resources.resources@.len(),
{
    match facts.color_readiness[target as usize] {
        MaxwellThreeDAttachmentReadiness::Unprogrammed => Err(
            MaxwellThreeDLoweringError::ColorTargetRouteUnprogrammed { slot, target },
        ),
        MaxwellThreeDAttachmentReadiness::Disabled => Err(
            MaxwellThreeDLoweringError::ColorTargetRouteDisabled { slot, target },
        ),
        MaxwellThreeDAttachmentReadiness::Incomplete => Err(
            MaxwellThreeDLoweringError::ColorTargetRouteIncomplete { slot, target },
        ),
        MaxwellThreeDAttachmentReadiness::Ready => find_image(
            resources,
            MaxwellThreeDResourceRole::ColorTarget(target),
            ImageKind::Color,
        ),
    }
}

proof fn lemma_route_failure(
    facts: &MaxwellThreeDDrawFacts,
    models: Seq<ResolvedModel>,
    targets: Seq<u8>,
    end: int,
)
    requires
        0 <= end <= targets.len(),
        routed_colors(facts, models, targets.take(end)) is Err,
    ensures
        routed_colors(facts, models, targets) == routed_colors(facts, models, targets.take(end)),
    decreases targets.len() - end,
{
    if end < targets.len() {
        assert(targets.take(end + 1).drop_last() =~= targets.take(end));
        lemma_route_failure(facts, models, targets, end + 1);
    } else {
        assert(targets.take(end) =~= targets);
    }
}

fn route_colors(
    facts: &MaxwellThreeDDrawFacts,
    resources: &MaxwellThreeDResolvedResources,
    selection: MaxwellThreeDColorTargetSelection,
) -> (r: Result<Vec<(u8, usize)>, MaxwellThreeDLoweringError>)
    ensures
        match routed_colors(facts, resources.models(), active_targets(selection)) {
            Ok(colors) => {
                &&& r matches Ok(routed)
                &&& routed@ == colors
                &&& forall|i: int|
                    #![trigger routed@[i]]
                    0 <= i < routed@.len() ==> routed@[i].0 < 8 && routed@[i].1
                        < resources.resources@.len()
            },
            Err(error) => r == Err::<Vec<(u8, usize)>, MaxwellThreeDLoweringError>(error),
        },
{
    let count: u8 = active_target_count(selection);
    let ghost targets = active_targets(selection);
    let ghost models = resources.models();
    let mut colors: Vec<(u8, usize)> = Vec::new();
    let mut slot: u8 = 0;
    while slot < count
        invariant
            slot <= count <= 8,
            targets == active_targets(selection),
            models == resources.models(),
            count == targets.len(),
            routed_colors(facts, models, targets.take(slot as int)) == Ok::<
                Seq<(u8, usize)>,
                MaxwellThreeDLoweringError,
            >(colors@),
            forall|i: int|
                #![trigger colors@[i]]
                0 <= i < colors@.len() ==> colors@[i].0 < 8 && colors@[i].1
                    < resources.resources@.len(),
        decreases count - slot,
    {
        let target: u8 = selection.target(slot);
        proof {
            assert(targets.take(slot + 1).drop_last() =~= targets.take(slot as int));
            assert(targets.take(slot + 1).last() == target);
        }
        match route_color(facts, resources, slot, target) {
            Ok(index) => colors.push((target, index)),
            Err(error) => {
                proof {
                    lemma_route_failure(facts, models, targets, slot + 1);
                }
                return Err(error);
            },
        }
        slot = slot + 1;
    }
    proof {
        assert(targets.take(slot as int) =~= targets);
    }
    Ok(colors)
}

/// Selects the attachments of a draw.
pub fn select_draw_attachments(
    state: &MaxwellThreeDState,
    facts: &MaxwellThreeDDrawFacts,
    resources: &MaxwellThreeDResolvedResources,
) -> (r: Result<DrawAttachmentSelection, MaxwellThreeDLoweringError>)
    ensures
        match selected_attachments(state, facts, resources.models()) {
            Ok(selection) => {
                &&& r matches Ok(selected)
                &&& selected@ == selection
                &&& selection.wf(resources.resources@.len())
            },
            Err(error) => r == Err::<DrawAttachmentSelection, MaxwellThreeDLoweringError>(error),
        },
{
    let selection = match state.render_targets.color_target_selection.value {
        Some(selection) => selection,
        None => {
            return Err(MaxwellThreeDLoweringError::IncompleteDraw("SET_CT_SELECT"));
        },
    };
    if let Some(target) = find_duplicate(selection) {
        return Err(MaxwellThreeDLoweringError::DuplicateColorTargetRoute { target });
    }
    let colors = match route_colors(facts, resources, selection) {
        Ok(colors) => colors,
        Err(error) => {
            return Err(error);
        },
    };
    let mut depth_stencil: Option<usize> = None;
    if draw_depth_stencil_attachment_required(state) {
        if find_role(resources, MaxwellThreeDResourceRole::DepthStencilTarget).is_some() {
            match find_image(
                resources,
                MaxwellThreeDResourceRole::DepthStencilTarget,
                ImageKind::DepthStencil,
            ) {
                Ok(index) => {
                    depth_stencil = Some(index);
                },
                Err(error) => {
                    return Err(error);
                },
            }
        }
    }
    Ok(DrawAttachmentSelection { colors, depth_stencil })
}

/// No color target is attached twice.
pub proof fn law_selected_targets_are_distinct(targets: Seq<u8>, from: int, i: int, j: int)
    requires
        first_duplicate(targets, from) is None,
        0 <= from,
        0 <= i < j < targets.len(),
        from <= j,
    ensures
        targets[i] != targets[j],
    decreases targets.len() - from,
{
    if from == j {
        assert(targets.take(from)[i] == targets[i]);
    } else {
        law_selected_targets_are_distinct(targets, from + 1, i, j);
    }
}

/// Surface clip of a draw: both axes or none must be programmed, and a programmed clip
/// must start at the origin and cover every attachment.
pub open spec fn clip_covers(
    horizontal: MaxwellThreeDSurfaceClipAxis,
    vertical: MaxwellThreeDSurfaceClipAxis,
    extent: ImageExtent,
) -> bool {
    horizontal.origin == 0 && vertical.origin == 0 && horizontal.extent >= extent.width
        && vertical.extent >= extent.height
}

/// Outcome of the clip check over the attachments, in order.
pub open spec fn clip_check(
    horizontal: MaxwellThreeDSurfaceClipAxis,
    vertical: MaxwellThreeDSurfaceClipAxis,
    models: Seq<ResolvedModel>,
    indices: Seq<usize>,
) -> Result<(), MaxwellThreeDLoweringError>
    decreases indices.len(),
{
    if indices.len() == 0 {
        Ok(())
    } else {
        match models[indices[0] as int].image() {
            None => Err(MaxwellThreeDLoweringError::ResolvedResourceKindMismatch),
            Some(description) => if clip_covers(horizontal, vertical, description.extent) {
                clip_check(horizontal, vertical, models, indices.drop_first())
            } else {
                Err(MaxwellThreeDLoweringError::UnsupportedSurfaceClipSemantics)
            },
        }
    }
}

pub open spec fn surface_clip_check(
    state: &MaxwellThreeDState,
    models: Seq<ResolvedModel>,
    attachments: SelectionModel,
) -> Result<(), MaxwellThreeDLoweringError> {
    match (
        state.fixed_function.surface_clip_horizontal.value,
        state.fixed_function.surface_clip_vertical.value,
    ) {
        (Some(horizontal), Some(vertical)) => clip_check(
            horizontal,
            vertical,
            models,
            attachments.attachment_indices(),
        ),
        (None, None) => Ok(()),
        _ => Err(
            MaxwellThreeDLoweringError::IncompleteDraw("SET_SURFACE_CLIP_HORIZONTAL/VERTICAL"),
        ),
    }
}

pub fn validate_draw_surface_clip(
    state: &MaxwellThreeDState,
    resources: &MaxwellThreeDResolvedResources,
    attachments: &DrawAttachmentSelection,
) -> (r: Result<(), MaxwellThreeDLoweringError>)
    requires
        attachments@.wf(resources.resources@.len()),
    ensures
        r == surface_clip_check(state, resources.models(), attachments@),
{
    let (horizontal, vertical) = match (
        state.fixed_function.surface_clip_horizontal.value,
        state.fixed_function.surface_clip_vertical.value,
    ) {
        (Some(horizontal), Some(vertical)) => (horizontal, vertical),
        (None, None) => {
            return Ok(());
        },
        _ => {
            return Err(
                MaxwellThreeDLoweringError::IncompleteDraw("SET_SURFACE_CLIP_HORIZONTAL/VERTICAL"),
            );
        },
    };
    let indices = attachments.attachment_indices();
    let ghost models = resources.models();
    proof {
        assert(indices@.skip(0) =~= indices@);
    }
    let mut slot: usize = 0;
    while slot < indices.len()
        invariant
            slot <= indices@.len(),
            models == resources.models(),
            forall|i: int|
                #![trigger indices@[i]]
                0 <= i < indices@.len() ==> indices@[i] < resources.resources@.len(),
            surface_clip_check(state, models, attachments@) == clip_check(
                horizontal,
                vertical,
                models,
                indices@.skip(slot as int),
            ),
        decreases indices@.len() - slot,
    {
        proof {
            assert(indices@.skip(slot as int)[0] == indices@[slot as int]);
            assert(indices@.skip(slot as int).drop_first() =~= indices@.skip(slot + 1));
        }
        match resources.resources[indices[slot]].image() {
            Some(description) => {
                if horizontal.origin != 0 || vertical.origin != 0 || (horizontal.extent as u32)
                    < description.extent.width || (vertical.extent as u32)
                    < description.extent.height {
                    return Err(MaxwellThreeDLoweringError::UnsupportedSurfaceClipSemantics);
                }
            },
            None => {
                return Err(MaxwellThreeDLoweringError::ResolvedResourceKindMismatch);
            },
        }
        slot = slot + 1;
    }
    Ok(())
}

} // verus!
