//! Contents of compressed images that backend objects retain.

use vstd::prelude::*;
use crate::attachments::{DrawAttachmentSelection, SelectionModel};
use crate::clear::{clear_fully_covers_image, depth_clear_fully_initializes};
use crate::draw_state::draw_depth_stencil_aspects;
use crate::lowering_cache::{CacheModel, ColorModel, ColorRepresentationRecord, MaxwellThreeDLoweringCache, ViewMaterialization, ViewModel, ViewRecord};
use crate::lowering_error::MaxwellThreeDLoweringError;
use crate::render_targets::{MaxwellThreeDClearSurface, MaxwellThreeDColorCompressionMode};
use crate::resource::{MaxwellThreeDResolvedResource, MaxwellThreeDResolvedResources, MaxwellThreeDResourceRole, ResolvedModel};
use crate::resource_preparation::find_view;
use crate::sampler_preparation::resource_index;
use crate::state::MaxwellThreeDState;

verus! {

/// Whether the contents of a color target are compressed.
pub open spec fn spec_compression_enabled(state: &MaxwellThreeDState, target: u8) -> bool {
    target < 8 && state.render_targets.color_compression[target as int].value == Some(
        MaxwellThreeDColorCompressionMode::Enabled,
    )
}

#[verifier::when_used_as_spec(spec_compression_enabled)]
pub fn compression_enabled(state: &MaxwellThreeDState, target: u8) -> (r: bool)
    ensures
        r == spec_compression_enabled(state, target),
{
    if target >= 8 {
        return false;
    }
    match state.render_targets.color_compression[target as usize].value {
        Some(mode) => mode == MaxwellThreeDColorCompressionMode::Enabled,
        None => false,
    }
}

/// Whether a resource is a depth/stencil image whose contents must be materialized.
pub open spec fn is_compressed_depth() -> spec_fn(ResolvedModel) -> bool {
    |resource: ResolvedModel|
        resource.role == MaxwellThreeDResourceRole::DepthStencilTarget
            && resource.requires_materialization()
}

#[verifier::loop_isolation(false)]
fn find_compressed_depth(resources: &MaxwellThreeDResolvedResources) -> (r: Option<usize>)
    ensures
        match r {
            Some(index) => index < resources.resources@.len() && crate::lists::first_where(
                resources.models(),
                is_compressed_depth(),
            ) == Some(index as int),
            None => crate::lists::first_where(resources.models(), is_compressed_depth()) is None,
        },
{
    let ghost models = resources.models();
    let ghost wanted = is_compressed_depth();
    let mut index: usize = 0;
    while index < resources.resources.len()
        invariant
            index <= resources.resources@.len(),
            forall|i: int|
                #![trigger models[i]]
                0 <= i < index ==> !wanted(models[i]),
        decreases resources.resources@.len() - index,
    {
        proof {
            assert(models[index as int] == resources.resources@[index as int]@);
        }
        if resources.resources[index].role == MaxwellThreeDResourceRole::DepthStencilTarget
            && resources.resources[index].requires_materialization() {
            proof {
                crate::lists::lemma_first_where_at(models, wanted, index as int);
            }
            return Some(index);
        }
        index = index + 1;
    }
    proof {
        crate::lists::lemma_first_where_at(models, wanted, index as int);
    }
    None
}

/// Planes of the depth/stencil resource at a position that an operation consumes: those
/// that a surface clear selects, or those that a draw with this attachment tests.
pub open spec fn consumed_planes(
    state: &MaxwellThreeDState,
    attachments: Option<SelectionModel>,
    index: usize,
) -> (bool, bool) {
    match attachments {
        None => match state.render_targets.clear_surface.value {
            Some(surface) => (surface.depth(), surface.stencil()),
            None => (false, false),
        },
        Some(attachments) => if attachments.depth_stencil == Some(index) {
            draw_depth_stencil_aspects(state)
        } else {
            (false, false)
        },
    }
}

fn planes_consumed(
    state: &MaxwellThreeDState,
    attachments: Option<&DrawAttachmentSelection>,
    index: usize,
) -> (r: (bool, bool))
    ensures
        r == consumed_planes(state, selection_model(attachments), index),
{
    match attachments {
        None => match state.render_targets.clear_surface.value {
            Some(surface) => (surface.depth(), surface.stencil()),
            None => (false, false),
        },
        Some(attachments) => match attachments.depth_stencil {
            Some(attached) => if attached == index {
                draw_depth_stencil_aspects(state)
            } else {
                (false, false)
            },
            None => (false, false),
        },
    }
}

/// Content of the attachments of a draw; a surface clear has none.
pub open spec fn selection_model(attachments: Option<&DrawAttachmentSelection>) -> Option<
    SelectionModel,
> {
    match attachments {
        Some(attachments) => Some(attachments@),
        None => None,
    }
}

/// Whether some view still holds the planes of an image.
pub open spec fn planes_retained(
    views: Seq<ViewModel>,
    resource: ResolvedModel,
    current: Seq<u64>,
    depth: bool,
    stencil: bool,
) -> bool {
    exists|i: int|
        0 <= i < views.len() && (#[trigger] views[i]).remains_current(resource, current)
            && views[i].materialization.supports_depth_stencil(depth, stencil)
}

#[verifier::loop_isolation(false)]
fn any_view_retains_planes(
    views: &Vec<ViewRecord>,
    resource: &MaxwellThreeDResolvedResource,
    current: &Vec<u64>,
    depth: bool,
    stencil: bool,
) -> (r: bool)
    ensures
        r == planes_retained(
            crate::lowering_cache::view_models(views@),
            resource@,
            current@,
            depth,
            stencil,
        ),
{
    let ghost models = crate::lowering_cache::view_models(views@);
    let mut index: usize = 0;
    while index < views.len()
        invariant
            index <= views@.len(),
            forall|i: int|
                #![trigger models[i]]
                0 <= i < index ==> !(models[i].remains_current(resource@, current@)
                    && models[i].materialization.supports_depth_stencil(depth, stencil)),
        decreases views@.len() - index,
    {
        proof {
            assert(models[index as int] == views@[index as int]@);
        }
        if views[index].remains_current(resource, current)
            && views[index].materialization.supports_depth_stencil(depth, stencil) {
            return true;
        }
        index = index + 1;
    }
    false
}

/// A compressed depth/stencil image can be used only as far as a view still holds the
/// planes, or a surface clear gives every texel of them a value.
pub open spec fn depth_materialization_check(
    state: &MaxwellThreeDState,
    models: Seq<ResolvedModel>,
    attachments: Option<SelectionModel>,
    views: Seq<ViewModel>,
    current: Seq<u64>,
) -> Result<(), MaxwellThreeDLoweringError> {
    match crate::lists::first_where(models, is_compressed_depth()) {
        None => Ok(()),
        Some(index) => {
            let resource = models[index];
            let (depth, stencil) = consumed_planes(state, attachments, index as usize);
            let refused = Err(
                MaxwellThreeDLoweringError::CompressedDepthImportRequired {
                    kind: resource.pte_kind(),
                },
            );
            if !depth && !stencil {
                Ok(())
            } else if planes_retained(views, resource, current, depth, stencil) {
                Ok(())
            } else if attachments is None {
                match depth_clear_fully_initializes(
                    state,
                    resource.image()->Some_0.extent,
                    depth,
                    stencil,
                ) {
                    Err(error) => Err(error),
                    Ok(true) => Ok(()),
                    Ok(false) => refused,
                }
            } else {
                refused
            }
        },
    }
}

/// Checks that an operation can use a compressed depth/stencil image. Without
/// attachments the operation is the surface clear of the state.
pub fn validate_compressed_depth_materialization(
    state: &MaxwellThreeDState,
    resources: &MaxwellThreeDResolvedResources,
    attachments: Option<&DrawAttachmentSelection>,
    current: &Vec<u64>,
    cache: &MaxwellThreeDLoweringCache,
) -> (r: Result<(), MaxwellThreeDLoweringError>)
    ensures
        r == depth_materialization_check(
            state,
            resources.models(),
            selection_model(attachments),
            cache@.views,
            current@,
        ),
{
    let index: usize = match find_compressed_depth(resources) {
        Some(index) => index,
        None => {
            return Ok(());
        },
    };
    let resource = &resources.resources[index];
    proof {
        assert(resources.models()[index as int] == resource@);
        crate::lists::lemma_first_where(resources.models(), is_compressed_depth());
    }
    let (depth, stencil): (bool, bool) = planes_consumed(state, attachments, index);
    if !depth && !stencil {
        return Ok(());
    }
    if any_view_retains_planes(&cache.views, resource, current, depth, stencil) {
        return Ok(());
    }
    if attachments.is_none() {
        if let Some(description) = resource.image() {
            match depth_clear_fully_initializes(state, description.extent, depth, stencil) {
                Err(error) => {
                    return Err(error);
                },
                Ok(complete) => {
                    if complete {
                        return Ok(());
                    }
                },
            }
        }
    }
    Err(MaxwellThreeDLoweringError::CompressedDepthImportRequired { kind: resource.pte_kind() })
}

/// Whether some record still represents a color image.
pub open spec fn color_retained(
    records: Seq<ColorModel>,
    resource: ResolvedModel,
    current: Seq<u64>,
) -> bool {
    exists|i: int|
        0 <= i < records.len() && (#[trigger] records[i]).remains_materialized(resource, current)
}

#[verifier::loop_isolation(false)]
fn any_record_retains_color(
    records: &Vec<ColorRepresentationRecord>,
    resource: &MaxwellThreeDResolvedResource,
    current: &Vec<u64>,
) -> (r: bool)
    ensures
        r == color_retained(
            crate::lowering_cache::color_models(records@),
            resource@,
            current@,
        ),
{
    let ghost models = crate::lowering_cache::color_models(records@);
    let mut index: usize = 0;
    while index < records.len()
        invariant
            index <= records@.len(),
            forall|i: int|
                #![trigger models[i]]
                0 <= i < index ==> !models[i].remains_materialized(resource@, current@),
        decreases records@.len() - index,
    {
        proof {
            assert(models[index as int] == records@[index as int]@);
        }
        if records[index].remains_materialized(resource, current) {
            return true;
        }
        index = index + 1;
    }
    false
}

/// Position of the image that is a color target.
pub open spec fn color_image(models: Seq<ResolvedModel>, target: u8) -> Result<
    usize,
    MaxwellThreeDLoweringError,
> {
    match crate::sampler_preparation::spec_resource_index(
        models,
        MaxwellThreeDResourceRole::ColorTarget(target),
    ) {
        Err(error) => Err(error),
        Ok(index) => if models[index as int].image() is Some {
            Ok(index)
        } else {
            Err(MaxwellThreeDLoweringError::ResolvedResourceKindMismatch)
        },
    }
}

fn find_color_image(resources: &MaxwellThreeDResolvedResources, target: u8) -> (r: Result<
    usize,
    MaxwellThreeDLoweringError,
>)
    ensures
        r == color_image(resources.models(), target),
        r matches Ok(index) ==> index < resources.resources@.len(),
{
    match resource_index(resources, MaxwellThreeDResourceRole::ColorTarget(target)) {
        Err(error) => Err(error),
        Ok(index) => if resources.resources[index].image().is_some() {
            Ok(index)
        } else {
            Err(MaxwellThreeDLoweringError::ResolvedResourceKindMismatch)
        },
    }
}

/// A compressed color target can be used only while a record represents it, or where a
/// surface clear gives every component of every texel a value.
pub open spec fn color_target_check(
    state: &MaxwellThreeDState,
    models: Seq<ResolvedModel>,
    records: Seq<ColorModel>,
    current: Seq<u64>,
    target: u8,
    complete_clear: bool,
) -> Result<(), MaxwellThreeDLoweringError> {
    if !compression_enabled(state, target) {
        Ok(())
    } else {
        match color_image(models, target) {
            Err(error) => Err(error),
            Ok(index) => {
                let refused = Err(
                    MaxwellThreeDLoweringError::CompressedColorImportRequired { target },
                );
                if color_retained(records, models[index as int], current) {
                    Ok(())
                } else if complete_clear {
                    match clear_fully_covers_image(
                        state,
                        models[index as int].image()->Some_0.extent,
                    ) {
                        Err(error) => Err(error),
                        Ok(true) => Ok(()),
                        Ok(false) => refused,
                    }
                } else {
                    refused
                }
            },
        }
    }
}

/// Checks that an operation can use a compressed color target.
pub fn validate_compressed_color_target(
    state: &MaxwellThreeDState,
    resources: &MaxwellThreeDResolvedResources,
    current: &Vec<u64>,
    cache: &MaxwellThreeDLoweringCache,
    target: u8,
    complete_clear: bool,
) -> (r: Result<(), MaxwellThreeDLoweringError>)
    ensures
        r == color_target_check(
            state,
            resources.models(),
            cache@.color_materializations,
            current@,
            target,
            complete_clear,
        ),
{
    if !compression_enabled(state, target) {
        return Ok(());
    }
    let index: usize = match find_color_image(resources, target) {
        Ok(index) => index,
        Err(error) => {
            return Err(error);
        },
    };
    let resource = &resources.resources[index];
    proof {
        assert(resources.models()[index as int] == resource@);
    }
    if any_record_retains_color(&cache.color_materializations, resource, current) {
        return Ok(());
    }
    if complete_clear {
        if let Some(description) = resource.image() {
            match clear_fully_covers_image(state, description.extent) {
                Err(error) => {
                    return Err(error);
                },
                Ok(complete) => {
                    if complete {
                        return Ok(());
                    }
                },
            }
        }
    }
    Err(MaxwellThreeDLoweringError::CompressedColorImportRequired { target })
}

/// Check of the color targets of a draw, from one of them on.
pub open spec fn color_targets_check(
    state: &MaxwellThreeDState,
    models: Seq<ResolvedModel>,
    records: Seq<ColorModel>,
    current: Seq<u64>,
    colors: Seq<(u8, usize)>,
    from: int,
) -> Result<(), MaxwellThreeDLoweringError>
    decreases colors.len() - from,
{
    if from < 0 || from >= colors.len() {
        Ok(())
    } else {
        match color_target_check(state, models, records, current, colors[from].0, false) {
            Err(error) => Err(error),
            Ok(()) => color_targets_check(state, models, records, current, colors, from + 1),
        }
    }
}

/// Check of the compressed color targets of an operation. Without attachments the
/// operation is the surface clear of the state.
pub open spec fn color_materialization_check(
    state: &MaxwellThreeDState,
    models: Seq<ResolvedModel>,
    attachments: Option<SelectionModel>,
    records: Seq<ColorModel>,
    current: Seq<u64>,
) -> Result<(), MaxwellThreeDLoweringError> {
    match attachments {
        None => match state.render_targets.clear_surface.value {
            Some(surface) => if surface.color_mask() != 0 {
                color_target_check(
                    state,
                    models,
                    records,
                    current,
                    surface.color_target(),
                    surface.color_mask() == 0xf,
                )
            } else {
                Ok(())
            },
            None => Ok(()),
        },
        Some(attachments) => color_targets_check(
            state,
            models,
            records,
            current,
            attachments.colors,
            0,
        ),
    }
}

/// Checks that an operation can use its compressed color targets.
#[verifier::loop_isolation(false)]
pub fn validate_compressed_color_materialization(
    state: &MaxwellThreeDState,
    resources: &MaxwellThreeDResolvedResources,
    attachments: Option<&DrawAttachmentSelection>,
    current: &Vec<u64>,
    cache: &MaxwellThreeDLoweringCache,
) -> (r: Result<(), MaxwellThreeDLoweringError>)
    ensures
        r == color_materialization_check(
            state,
            resources.models(),
            selection_model(attachments),
            cache@.color_materializations,
            current@,
        ),
{
    let attachments = match attachments {
        Some(attachments) => attachments,
        None => {
            return match state.render_targets.clear_surface.value {
                Some(surface) => if surface.color_mask() != 0 {
                    validate_compressed_color_target(
                        state,
                        resources,
                        current,
                        cache,
                        surface.color_target(),
                        surface.color_mask() == 0xf,
                    )
                } else {
                    Ok(())
                },
                None => Ok(()),
            };
        },
    };
    let ghost whole = color_targets_check(
        state,
        resources.models(),
        cache@.color_materializations,
        current@,
        attachments@.colors,
        0,
    );
    let mut slot: usize = 0;
    while slot < attachments.colors.len()
        invariant
            slot <= attachments.colors@.len(),
            whole == color_targets_check(
                state,
                resources.models(),
                cache@.color_materializations,
                current@,
                attachments@.colors,
                slot as int,
            ),
        decreases attachments.colors@.len() - slot,
    {
        match validate_compressed_color_target(
            state,
            resources,
            current,
            cache,
            attachments.colors[slot].0,
            false,
        ) {
            Ok(()) => {},
            Err(error) => {
                return Err(error);
            },
        }
        slot = slot + 1;
    }
    Ok(())
}

/// Whether a record is of the bytes of a resource.
pub open spec fn represents(resource: ResolvedModel) -> spec_fn(ColorModel) -> bool {
    |record: ColorModel| record.same_domain(resource)
}

/// Records after an operation has written a color image: its record is renewed unless it
/// still represents the image.
pub open spec fn color_recorded(
    records: Seq<ColorModel>,
    resource: ResolvedModel,
    current: Seq<u64>,
) -> Seq<ColorModel> {
    match crate::lists::first_where(records, represents(resource)) {
        Some(position) => if records[position].remains_materialized(resource, current) {
            records
        } else {
            records.update(position, ColorModel::of(resource))
        },
        None => records.push(ColorModel::of(resource)),
    }
}

/// Records that an operation has written a color image.
#[verifier::loop_isolation(false)]
pub fn record_color_materialization(
    resource: &MaxwellThreeDResolvedResource,
    current: &Vec<u64>,
    records: &mut Vec<ColorRepresentationRecord>,
)
    ensures
        crate::lowering_cache::color_models(final(records)@) == color_recorded(
            crate::lowering_cache::color_models(old(records)@),
            resource@,
            current@,
        ),
{
    let ghost models = crate::lowering_cache::color_models(records@);
    let ghost wanted = represents(resource@);
    let mut index: usize = 0;
    while index < records.len()
        invariant
            index <= records@.len(),
            models == crate::lowering_cache::color_models(records@),
            forall|i: int|
                #![trigger models[i]]
                0 <= i < index ==> !wanted(models[i]),
        decreases records@.len() - index,
    {
        proof {
            assert(models[index as int] == records@[index as int]@);
        }
        if records[index].same_domain(resource) {
            proof {
                crate::lists::lemma_first_where_at(models, wanted, index as int);
            }
            if !records[index].remains_materialized(resource, current) {
                records.set(index, ColorRepresentationRecord::of(resource));
                proof {
                    assert(crate::lowering_cache::color_models(records@) =~= models.update(
                        index as int,
                        ColorModel::of(resource@),
                    ));
                }
            }
            return;
        }
        index = index + 1;
    }
    proof {
        crate::lists::lemma_first_where_at(models, wanted, index as int);
    }
    records.push(ColorRepresentationRecord::of(resource));
    proof {
        assert(crate::lowering_cache::color_models(records@) =~= models.push(
            ColorModel::of(resource@),
        ));
    }
}

/// Records after a write to a color target, which counts only where it is compressed.
pub open spec fn target_recorded(
    state: &MaxwellThreeDState,
    models: Seq<ResolvedModel>,
    records: Seq<ColorModel>,
    current: Seq<u64>,
    target: u8,
) -> (Seq<ColorModel>, Result<(), MaxwellThreeDLoweringError>) {
    if !compression_enabled(state, target) {
        (records, Ok(()))
    } else {
        match color_image(models, target) {
            Err(error) => (records, Err(error)),
            Ok(index) => (color_recorded(records, models[index as int], current), Ok(())),
        }
    }
}

fn record_target(
    state: &MaxwellThreeDState,
    resources: &MaxwellThreeDResolvedResources,
    current: &Vec<u64>,
    target: u8,
    cache: &mut MaxwellThreeDLoweringCache,
) -> (r: Result<(), MaxwellThreeDLoweringError>)
    ensures
        ({
            let (after, result) = target_recorded(
                state,
                resources.models(),
                old(cache)@.color_materializations,
                current@,
                target,
            );
            &&& final(cache)@ == (CacheModel { color_materializations: after, ..old(cache)@ })
            &&& r == result
        }),
{
    if !compression_enabled(state, target) {
        return Ok(());
    }
    let index: usize = match find_color_image(resources, target) {
        Ok(index) => index,
        Err(error) => {
            return Err(error);
        },
    };
    proof {
        assert(resources.models()[index as int] == resources.resources@[index as int]@);
    }
    record_color_materialization(
        &resources.resources[index],
        current,
        &mut cache.color_materializations,
    );
    Ok(())
}

/// Records after a draw has written its color targets, from one of them on.
pub open spec fn draw_recorded(
    state: &MaxwellThreeDState,
    models: Seq<ResolvedModel>,
    records: Seq<ColorModel>,
    current: Seq<u64>,
    colors: Seq<(u8, usize)>,
    from: int,
) -> (Seq<ColorModel>, Result<(), MaxwellThreeDLoweringError>)
    decreases colors.len() - from,
{
    if from < 0 || from >= colors.len() {
        (records, Ok(()))
    } else {
        match target_recorded(state, models, records, current, colors[from].0) {
            (after, Err(error)) => (after, Err(error)),
            (after, Ok(())) => draw_recorded(state, models, after, current, colors, from + 1),
        }
    }
}

/// Records that a draw has written its compressed color targets.
#[verifier::loop_isolation(false)]
pub fn record_draw_color_materializations(
    state: &MaxwellThreeDState,
    resources: &MaxwellThreeDResolvedResources,
    attachments: &DrawAttachmentSelection,
    current: &Vec<u64>,
    cache: &mut MaxwellThreeDLoweringCache,
) -> (r: Result<(), MaxwellThreeDLoweringError>)
    ensures
        ({
            let (after, result) = draw_recorded(
                state,
                resources.models(),
                old(cache)@.color_materializations,
                current@,
                attachments@.colors,
                0,
            );
            &&& final(cache)@ == (CacheModel { color_materializations: after, ..old(cache)@ })
            &&& r == result
        }),
{
    let ghost before = cache@;
    let ghost whole = draw_recorded(
        state,
        resources.models(),
        before.color_materializations,
        current@,
        attachments@.colors,
        0,
    );
    let mut slot: usize = 0;
    while slot < attachments.colors.len()
        invariant
            slot <= attachments.colors@.len(),
            cache@ == (CacheModel {
                color_materializations: cache@.color_materializations,
                ..before
            }),
            whole == draw_recorded(
                state,
                resources.models(),
                cache@.color_materializations,
                current@,
                attachments@.colors,
                slot as int,
            ),
        decreases attachments.colors@.len() - slot,
    {
        match record_target(state, resources, current, attachments.colors[slot].0, cache) {
            Ok(()) => {},
            Err(error) => {
                return Err(error);
            },
        }
        slot = slot + 1;
    }
    Ok(())
}

/// What a view retains after planes of it were cleared.
pub open spec fn spec_planes_cleared(
    materialization: ViewMaterialization,
    surface: MaxwellThreeDClearSurface,
) -> ViewMaterialization {
    match materialization {
        ViewMaterialization::CompressedDepthStencil {
            depth,
            stencil,
        } => ViewMaterialization::CompressedDepthStencil {
            depth: depth || surface.depth(),
            stencil: stencil || surface.stencil(),
        },
        other => other,
    }
}

#[verifier::when_used_as_spec(spec_planes_cleared)]
pub fn planes_cleared(materialization: ViewMaterialization, surface: MaxwellThreeDClearSurface) -> (r:
    ViewMaterialization)
    ensures
        r == spec_planes_cleared(materialization, surface),
{
    match materialization {
        ViewMaterialization::CompressedDepthStencil {
            depth,
            stencil,
        } => ViewMaterialization::CompressedDepthStencil {
            depth: depth || surface.depth(),
            stencil: stencil || surface.stencil(),
        },
        other => other,
    }
}

/// Cache after the planes of the depth/stencil view were cleared.
pub open spec fn depth_clear_recorded(
    cache: CacheModel,
    models: Seq<ResolvedModel>,
    surface: MaxwellThreeDClearSurface,
) -> (CacheModel, Result<(), MaxwellThreeDLoweringError>) {
    let role = MaxwellThreeDResourceRole::DepthStencilTarget;
    match crate::sampler_preparation::spec_resource_index(models, role) {
        Err(error) => (cache, Err(error)),
        Ok(index) => match crate::resource_preparation::view_position(
            cache.views,
            models[index as int],
        ) {
            None => (cache, Err(MaxwellThreeDLoweringError::InvalidResolvedView { role })),
            Some(position) => (
                CacheModel {
                    views: cache.views.update(
                        position,
                        ViewModel {
                            materialization: planes_cleared(
                                cache.views[position].materialization,
                                surface,
                            ),
                            ..cache.views[position]
                        },
                    ),
                    ..cache
                },
                Ok(()),
            ),
        },
    }
}

fn clear_planes(view: &mut ViewRecord, surface: MaxwellThreeDClearSurface)
    ensures
        final(view)@ == (ViewModel {
            materialization: planes_cleared(old(view)@.materialization, surface),
            ..old(view)@
        }),
{
    view.materialization = planes_cleared(view.materialization, surface);
}

fn record_depth_clear(
    resources: &MaxwellThreeDResolvedResources,
    surface: MaxwellThreeDClearSurface,
    cache: &mut MaxwellThreeDLoweringCache,
) -> (r: Result<(), MaxwellThreeDLoweringError>)
    ensures
        (final(cache)@, r) == depth_clear_recorded(old(cache)@, resources.models(), surface),
        old(cache).wf() ==> final(cache).wf(),
{
    let role = MaxwellThreeDResourceRole::DepthStencilTarget;
    let index: usize = match resource_index(resources, role) {
        Ok(index) => index,
        Err(error) => {
            return Err(error);
        },
    };
    proof {
        assert(resources.models()[index as int] == resources.resources@[index as int]@);
    }
    match find_view(&cache.views, &resources.resources[index]) {
        None => Err(MaxwellThreeDLoweringError::InvalidResolvedView { role }),
        Some(position) => {
            let ghost before = cache@;
            clear_planes(&mut cache.views[position], surface);
            proof {
                assert(cache@.views =~= depth_clear_recorded(
                    before,
                    resources.models(),
                    surface,
                ).0.views);
                reveal(crate::lowering_cache::distinct_views);
            }
            Ok(())
        },
    }
}

/// Cache after the surface clear of a state was lowered.
pub open spec fn clear_recorded(
    state: &MaxwellThreeDState,
    models: Seq<ResolvedModel>,
    current: Seq<u64>,
    cache: CacheModel,
) -> (CacheModel, Result<(), MaxwellThreeDLoweringError>) {
    match state.render_targets.clear_surface.value {
        None => (cache, Err(MaxwellThreeDLoweringError::IncompleteClear("CLEAR_SURFACE"))),
        Some(surface) => {
            let (records, color) = if surface.color_mask() != 0 {
                target_recorded(
                    state,
                    models,
                    cache.color_materializations,
                    current,
                    surface.color_target(),
                )
            } else {
                (cache.color_materializations, Ok(()))
            };
            let recorded = CacheModel { color_materializations: records, ..cache };
            match color {
                Err(error) => (recorded, Err(error)),
                Ok(()) => if surface.depth() || surface.stencil() {
                    depth_clear_recorded(recorded, models, surface)
                } else {
                    (recorded, Ok(()))
                },
            }
        },
    }
}

/// Records that the surface clear of a state was lowered.
pub fn record_clear_materialization(
    state: &MaxwellThreeDState,
    resources: &MaxwellThreeDResolvedResources,
    current: &Vec<u64>,
    cache: &mut MaxwellThreeDLoweringCache,
) -> (r: Result<(), MaxwellThreeDLoweringError>)
    ensures
        (final(cache)@, r) == clear_recorded(state, resources.models(), current@, old(cache)@),
        old(cache).wf() ==> final(cache).wf(),
{
    let surface = match state.render_targets.clear_surface.value {
        Some(surface) => surface,
        None => {
            return Err(MaxwellThreeDLoweringError::IncompleteClear("CLEAR_SURFACE"));
        },
    };
    if surface.color_mask() != 0 {
        match record_target(state, resources, current, surface.color_target(), cache) {
            Ok(()) => {},
            Err(error) => {
                return Err(error);
            },
        }
    }
    if surface.depth() || surface.stencil() {
        return record_depth_clear(resources, surface, cache);
    }
    Ok(())
}

/// A color image whose write was recorded is represented as long as no CPU write
/// follows.
pub proof fn law_recorded_color_is_retained(
    records: Seq<ColorModel>,
    resource: ResolvedModel,
    current: Seq<u64>,
)
    requires
        crate::lowering_cache::writes_remain_current(resource.cpu_writes, current),
    ensures
        color_retained(color_recorded(records, resource, current), resource, current),
{
    crate::lists::lemma_first_where(records, represents(resource));
    let after = color_recorded(records, resource, current);
    match crate::lists::first_where(records, represents(resource)) {
        Some(position) => {
            assert(after[position].remains_materialized(resource, current));
        },
        None => {
            assert(after[records.len() as int].remains_materialized(resource, current));
        },
    }
}

/// A CPU write to a compressed color image takes its representation away: once no record
/// of the image is current, the image is refused.
pub proof fn law_cpu_write_ends_representation(
    records: Seq<ColorModel>,
    resource: ResolvedModel,
    current: Seq<u64>,
)
    requires
        forall|i: int|
            #![trigger records[i]]
            0 <= i < records.len() && records[i].same_domain(resource)
                ==> !crate::lowering_cache::writes_remain_current(records[i].cpu_writes, current),
    ensures
        !color_retained(records, resource, current),
{
}

/// Planes that were cleared can be consumed afterwards, and planes that could be consumed
/// before still can.
pub proof fn law_cleared_planes_are_usable(
    materialization: ViewMaterialization,
    surface: MaxwellThreeDClearSurface,
    depth: bool,
    stencil: bool,
)
    requires
        materialization != ViewMaterialization::CompressedColor,
    ensures
        planes_cleared(materialization, surface).supports_depth_stencil(
            surface.depth(),
            surface.stencil(),
        ),
        materialization.supports_depth_stencil(depth, stencil) ==> planes_cleared(
            materialization,
            surface,
        ).supports_depth_stencil(depth, stencil),
{
}

} // verus!
