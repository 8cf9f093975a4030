//! Laws of surface clears, stated on the words of the clear registers.

use vstd::prelude::*;
use crate::clear::{ClearPlan, ClearValue};
use crate::neutral::ResourceDependency;
use crate::neutral_refusals::NeutralRefusals;
use crate::register::{MaxwellThreeDRectangle, MaxwellThreeDRegister};
use crate::resource::ResolvedModel;
use crate::state::MaxwellThreeDState;

verus! {

/// Whether a texel lies in a rectangle of which both axes are programmed.
pub open spec fn in_rectangle(
    horizontal: MaxwellThreeDRegister<MaxwellThreeDRectangle>,
    vertical: MaxwellThreeDRegister<MaxwellThreeDRectangle>,
    x: int,
    y: int,
) -> bool {
    &&& horizontal.value matches Some(columns)
    &&& vertical.value matches Some(rows)
    &&& columns.min <= x < columns.max
    &&& rows.min <= y < rows.max
}

/// Whether a lowered clear writes a texel.
pub open spec fn writes(plan: ClearPlan, x: int, y: int) -> bool {
    plan.x <= x < plan.x + plan.width && plan.y <= y < plan.y + plan.height
}

/// A lowered clear writes exactly the texels of its attachment that lie in every rectangle
/// that the clear control word selects: bit 4 the clear rectangle, bit 8 the programmed
/// rectangle of scissor 0 and bit 12 the clip of viewport 0. Before a control word arrives
/// the clear rectangle alone bounds a clear.
pub proof fn law_clear_obeys_selected_rectangles(
    state: &MaxwellThreeDState,
    models: Seq<ResolvedModel>,
    bindings: Seq<Option<ResourceDependency>>,
    refusals: &NeutralRefusals,
    k: int,
    x: int,
    y: int,
)
    ensures
        crate::clear::cleared(state, models, bindings, refusals) matches Ok(plans) ==> (0 <= k
            < plans.len() ==> {
            let plan = plans[k];
            let control = state.render_targets.clear_surface_control.value;
            let by_rectangle = control matches Some(word) ==> word.0 & 0x10 != 0;
            let by_scissor = control matches Some(word) && word.0 & 0x100 != 0;
            let by_viewport = control matches Some(word) && word.0 & 0x1000 != 0;
            writes(plan, x, y) <==> {
                &&& 0 <= x < plan.description.extent.width
                &&& 0 <= y < plan.description.extent.height
                &&& by_rectangle ==> in_rectangle(
                    state.render_targets.clear_horizontal,
                    state.render_targets.clear_vertical,
                    x,
                    y,
                )
                &&& by_scissor ==> in_rectangle(
                    state.fixed_function.scissor[0].horizontal,
                    state.fixed_function.scissor[0].vertical,
                    x,
                    y,
                )
                &&& by_viewport ==> in_rectangle(
                    state.fixed_function.viewport[0].clip_horizontal,
                    state.fixed_function.viewport[0].clip_vertical,
                    x,
                    y,
                )
            }
        }),
{
    if let Ok(plans) = crate::clear::cleared(state, models, bindings, refusals) {
        if let Ok(regions) = crate::clear::MaxwellThreeDClearRegions::from_state(state) {
            if 0 <= k < plans.len() {
                regions.law_cleared_texels(
                    plans[k].description.extent.width,
                    plans[k].description.extent.height,
                    x,
                    y,
                );
            }
        }
    }
}

/// What the clear word selects: bits 2 to 5 a clear of a color target, which must name all
/// four components, bit 0 the depth and bit 1 the stencil plane. Color comes first. Each
/// clear takes its value from the registers of its own plane and the layer from bits 10 up.
pub proof fn law_clear_word_selects_planes(
    state: &MaxwellThreeDState,
    models: Seq<ResolvedModel>,
    bindings: Seq<Option<ResourceDependency>>,
    refusals: &NeutralRefusals,
)
    ensures
        crate::clear::cleared(state, models, bindings, refusals) matches Ok(plans) ==> {
            &&& state.render_targets.clear_surface.value matches Some(surface)
            &&& surface.0 & 0x3c == 0 || surface.0 & 0x3c == 0x3c
            &&& surface.0 & 0x3f != 0
            &&& plans.len() == (if surface.0 & 0x3c != 0 { 1int } else { 0 }) + (if surface.0 & 3 != 0 {
                1int
            } else {
                0
            })
            &&& surface.0 & 0x3c != 0 ==> {
                &&& plans[0].value matches ClearValue::Color { red, green, blue, alpha }
                &&& state.render_targets.clear_color[0].value matches Some(word) && word.0 == red
                &&& state.render_targets.clear_color[1].value matches Some(word) && word.0 == green
                &&& state.render_targets.clear_color[2].value matches Some(word) && word.0 == blue
                &&& state.render_targets.clear_color[3].value matches Some(word) && word.0 == alpha
            }
            &&& surface.0 & 3 == 1 ==> (plans.last().value matches ClearValue::Depth(depth) && (
            state.render_targets.clear_depth.value matches Some(word) && word.0 == depth))
            &&& surface.0 & 3 == 2 ==> (plans.last().value matches ClearValue::Stencil(stencil)
                && state.render_targets.clear_stencil.value == Some(stencil))
            &&& surface.0 & 3 == 3 ==> (plans.last().value matches ClearValue::DepthStencil {
                depth,
                stencil,
            } && (state.render_targets.clear_depth.value matches Some(word) && word.0 == depth)
                && state.render_targets.clear_stencil.value == Some(stencil))
            &&& forall|k: int|
                #![trigger plans[k]]
                0 <= k < plans.len() ==> plans[k].subresources.base_layer == (surface.0 / 0x400)
                    % 0x1_0000
        },
{
    if let Some(surface) = state.render_targets.clear_surface.value {
        let word = surface.0;
        assert((((word >> 2) & 0xf) as u8 == 0 <==> word & 0x3c == 0) && (((word >> 2) & 0xf) as u8
            == 0xf <==> word & 0x3c == 0x3c) && ((word & 1 != 0 || word & 2 != 0) <==> word & 3 != 0)
            && (word & 3 == 1 <==> word & 1 != 0 && word & 2 == 0) && (word & 3 == 2 <==> word & 1 == 0
            && word & 2 != 0) && (word & 3 == 3 <==> word & 1 != 0 && word & 2 != 0) && (word & 0x3f
            != 0 <==> word & 3 != 0 || word & 0x3c != 0) && ((word >> 10) & 0xffff) as u16 == (word
            / 0x400) % 0x1_0000) by (bit_vector);
    }
}

} // verus!
