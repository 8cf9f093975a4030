//! Checks of the attachments of a draw: routing, blending and color writes.

use vstd::prelude::*;
use crate::attachments::{DrawAttachmentSelection, SelectionModel, validate_draw_surface_clip};
use crate::draw_state::{boolean_register, draw_alpha_test_state};
use crate::draw_validation::MaxwellThreeDDrawFacts;
use crate::lowering_error::MaxwellThreeDLoweringError;
use crate::output::{MaxwellThreeDBlendEnableCommon, MaxwellThreeDFixedFunctionRegister, MaxwellThreeDFixedFunctionValue};
use crate::render_targets::{MaxwellThreeDRenderTargetIndexOffset, MaxwellThreeDSeparateFragmentData};
use crate::resource::{MaxwellThreeDResolvedResources, ResolvedModel};
use crate::state::MaxwellThreeDState;

verus! {

/// Color targets of a selection, in output order.
pub open spec fn color_targets(attachments: SelectionModel) -> Seq<u8> {
    attachments.colors.map_values(|color: (u8, usize)| color.0)
}

/// The common blend equation must be complete: its alpha part only where it is
/// separate.
pub open spec fn spec_validate_common_blend_equation_state(state: &MaxwellThreeDState) -> Result<(), MaxwellThreeDLoweringError> {
    if state.fixed_function.value_of(
        MaxwellThreeDFixedFunctionRegister::BlendSeparateAlpha,
    ).is_none() {
        Err(
            MaxwellThreeDLoweringError::IncompleteBlendState { target: None, field: "SET_BLEND_SEPARATE_FOR_ALPHA" },
        )
    } else if state.fixed_function.value_of(
        MaxwellThreeDFixedFunctionRegister::BlendColorOp,
    ).is_none() {
        Err(
            MaxwellThreeDLoweringError::IncompleteBlendState { target: None, field: "SET_BLEND_OP_COLOR" },
        )
    } else if state.fixed_function.value_of(
        MaxwellThreeDFixedFunctionRegister::BlendColorSource,
    ).is_none() {
        Err(
            MaxwellThreeDLoweringError::IncompleteBlendState { target: None, field: "SET_BLEND_COEFF_SOURCE_COLOR" },
        )
    } else if state.fixed_function.value_of(
        MaxwellThreeDFixedFunctionRegister::BlendColorDestination,
    ).is_none() {
        Err(
            MaxwellThreeDLoweringError::IncompleteBlendState { target: None, field: "SET_BLEND_COEFF_DESTINATION_COLOR" },
        )
    } else if !matches!(
        state.fixed_function.value_of(
        MaxwellThreeDFixedFunctionRegister::BlendSeparateAlpha,
    ),
        Some(MaxwellThreeDFixedFunctionValue::Boolean(true))
    ) {
        Ok(())
    } else if state.fixed_function.value_of(
        MaxwellThreeDFixedFunctionRegister::BlendAlphaOp,
    ).is_none() {
        Err(
            MaxwellThreeDLoweringError::IncompleteBlendState { target: None, field: "SET_BLEND_OP_ALPHA" },
        )
    } else if state.fixed_function.value_of(
        MaxwellThreeDFixedFunctionRegister::BlendAlphaSource,
    ).is_none() {
        Err(
            MaxwellThreeDLoweringError::IncompleteBlendState { target: None, field: "SET_BLEND_COEFF_SOURCE_ALPHA" },
        )
    } else if state.fixed_function.value_of(
        MaxwellThreeDFixedFunctionRegister::BlendAlphaDestination,
    ).is_none() {
        Err(
            MaxwellThreeDLoweringError::IncompleteBlendState { target: None, field: "SET_BLEND_COEFF_DESTINATION_ALPHA" },
        )
    } else {
        Ok(())
    }
}

#[verifier::when_used_as_spec(spec_validate_common_blend_equation_state)]
pub fn validate_common_blend_equation_state(state: &MaxwellThreeDState) -> (r: Result<(), MaxwellThreeDLoweringError>)
    ensures
        r == spec_validate_common_blend_equation_state(state),
{
    if state.fixed_function.value_of(
        MaxwellThreeDFixedFunctionRegister::BlendSeparateAlpha,
    ).is_none() {
        Err(
            MaxwellThreeDLoweringError::IncompleteBlendState { target: None, field: "SET_BLEND_SEPARATE_FOR_ALPHA" },
        )
    } else if state.fixed_function.value_of(
        MaxwellThreeDFixedFunctionRegister::BlendColorOp,
    ).is_none() {
        Err(
            MaxwellThreeDLoweringError::IncompleteBlendState { target: None, field: "SET_BLEND_OP_COLOR" },
        )
    } else if state.fixed_function.value_of(
        MaxwellThreeDFixedFunctionRegister::BlendColorSource,
    ).is_none() {
        Err(
            MaxwellThreeDLoweringError::IncompleteBlendState { target: None, field: "SET_BLEND_COEFF_SOURCE_COLOR" },
        )
    } else if state.fixed_function.value_of(
        MaxwellThreeDFixedFunctionRegister::BlendColorDestination,
    ).is_none() {
        Err(
            MaxwellThreeDLoweringError::IncompleteBlendState { target: None, field: "SET_BLEND_COEFF_DESTINATION_COLOR" },
        )
    } else if !matches!(
        state.fixed_function.value_of(
        MaxwellThreeDFixedFunctionRegister::BlendSeparateAlpha,
    ),
        Some(MaxwellThreeDFixedFunctionValue::Boolean(true))
    ) {
        Ok(())
    } else if state.fixed_function.value_of(
        MaxwellThreeDFixedFunctionRegister::BlendAlphaOp,
    ).is_none() {
        Err(
            MaxwellThreeDLoweringError::IncompleteBlendState { target: None, field: "SET_BLEND_OP_ALPHA" },
        )
    } else if state.fixed_function.value_of(
        MaxwellThreeDFixedFunctionRegister::BlendAlphaSource,
    ).is_none() {
        Err(
            MaxwellThreeDLoweringError::IncompleteBlendState { target: None, field: "SET_BLEND_COEFF_SOURCE_ALPHA" },
        )
    } else if state.fixed_function.value_of(
        MaxwellThreeDFixedFunctionRegister::BlendAlphaDestination,
    ).is_none() {
        Err(
            MaxwellThreeDLoweringError::IncompleteBlendState { target: None, field: "SET_BLEND_COEFF_DESTINATION_ALPHA" },
        )
    } else {
        Ok(())
    }
}

/// The blend equation of one target must be complete.
pub open spec fn spec_validate_per_target_blend_equation_state(state: &MaxwellThreeDState, target: u8) -> Result<(), MaxwellThreeDLoweringError> {
    if state.fixed_function.per_target_blend[target as int][0].value.is_none() {
        Err(
            MaxwellThreeDLoweringError::IncompleteBlendState { target: Some(target), field: "SET_BLEND_PER_TARGET_SEPARATE_FOR_ALPHA" },
        )
    } else if state.fixed_function.per_target_blend[target as int][1].value.is_none() {
        Err(
            MaxwellThreeDLoweringError::IncompleteBlendState { target: Some(target), field: "SET_BLEND_PER_TARGET_OP_COLOR" },
        )
    } else if state.fixed_function.per_target_blend[target as int][2].value.is_none() {
        Err(
            MaxwellThreeDLoweringError::IncompleteBlendState { target: Some(target), field: "SET_BLEND_PER_TARGET_COEFF_SOURCE_COLOR" },
        )
    } else if state.fixed_function.per_target_blend[target as int][3].value.is_none() {
        Err(
            MaxwellThreeDLoweringError::IncompleteBlendState { target: Some(target), field: "SET_BLEND_PER_TARGET_COEFF_DESTINATION_COLOR" },
        )
    } else if state.fixed_function.per_target_blend[target as int][0].value != Some(MaxwellThreeDFixedFunctionValue::Boolean(true)) {
        Ok(())
    } else if state.fixed_function.per_target_blend[target as int][4].value.is_none() {
        Err(
            MaxwellThreeDLoweringError::IncompleteBlendState { target: Some(target), field: "SET_BLEND_PER_TARGET_OP_ALPHA" },
        )
    } else if state.fixed_function.per_target_blend[target as int][5].value.is_none() {
        Err(
            MaxwellThreeDLoweringError::IncompleteBlendState { target: Some(target), field: "SET_BLEND_PER_TARGET_COEFF_SOURCE_ALPHA" },
        )
    } else if state.fixed_function.per_target_blend[target as int][6].value.is_none() {
        Err(
            MaxwellThreeDLoweringError::IncompleteBlendState { target: Some(target), field: "SET_BLEND_PER_TARGET_COEFF_DESTINATION_ALPHA" },
        )
    } else {
        Ok(())
    }
}

#[verifier::when_used_as_spec(spec_validate_per_target_blend_equation_state)]
pub fn validate_per_target_blend_equation_state(state: &MaxwellThreeDState, target: u8) -> (r: Result<(), MaxwellThreeDLoweringError>)
    requires
        target < 8,
    ensures
        r == spec_validate_per_target_blend_equation_state(state, target),
{
    if state.fixed_function.per_target_blend[target as usize][0].value.is_none() {
        Err(
            MaxwellThreeDLoweringError::IncompleteBlendState { target: Some(target), field: "SET_BLEND_PER_TARGET_SEPARATE_FOR_ALPHA" },
        )
    } else if state.fixed_function.per_target_blend[target as usize][1].value.is_none() {
        Err(
            MaxwellThreeDLoweringError::IncompleteBlendState { target: Some(target), field: "SET_BLEND_PER_TARGET_OP_COLOR" },
        )
    } else if state.fixed_function.per_target_blend[target as usize][2].value.is_none() {
        Err(
            MaxwellThreeDLoweringError::IncompleteBlendState { target: Some(target), field: "SET_BLEND_PER_TARGET_COEFF_SOURCE_COLOR" },
        )
    } else if state.fixed_function.per_target_blend[target as usize][3].value.is_none() {
        Err(
            MaxwellThreeDLoweringError::IncompleteBlendState { target: Some(target), field: "SET_BLEND_PER_TARGET_COEFF_DESTINATION_COLOR" },
        )
    } else if !matches!(
        state.fixed_function.per_target_blend[target as usize][0].value,
        Some(MaxwellThreeDFixedFunctionValue::Boolean(true))
    ) {
        Ok(())
    } else if state.fixed_function.per_target_blend[target as usize][4].value.is_none() {
        Err(
            MaxwellThreeDLoweringError::IncompleteBlendState { target: Some(target), field: "SET_BLEND_PER_TARGET_OP_ALPHA" },
        )
    } else if state.fixed_function.per_target_blend[target as usize][5].value.is_none() {
        Err(
            MaxwellThreeDLoweringError::IncompleteBlendState { target: Some(target), field: "SET_BLEND_PER_TARGET_COEFF_SOURCE_ALPHA" },
        )
    } else if state.fixed_function.per_target_blend[target as usize][6].value.is_none() {
        Err(
            MaxwellThreeDLoweringError::IncompleteBlendState { target: Some(target), field: "SET_BLEND_PER_TARGET_COEFF_DESTINATION_ALPHA" },
        )
    } else {
        Ok(())
    }
}

/// Blending of the targets of a draw where each has a state of its own: every enable
/// must be known and every enabled equation complete, and then an enabled target is
/// refused, the first one by name.
pub open spec fn per_target_blend_check(
    state: &MaxwellThreeDState,
    targets: Seq<u8>,
    enabled: Option<u8>,
) -> Result<(), MaxwellThreeDLoweringError>
    decreases targets.len(),
{
    if targets.len() == 0 {
        match enabled {
            Some(target) => Err(
                MaxwellThreeDLoweringError::UnsupportedBlendSemantics { target: Some(target) },
            ),
            None => Ok(()),
        }
    } else {
        match state.fixed_function.blend_enable[targets[0] as int].value {
            None => Err(
                MaxwellThreeDLoweringError::IncompleteBlendState {
                    target: Some(targets[0]),
                    field: "SET_BLEND(i)",
                },
            ),
            Some(false) => per_target_blend_check(state, targets.drop_first(), enabled),
            Some(true) => match validate_per_target_blend_equation_state(state, targets[0]) {
                Err(error) => Err(error),
                Ok(()) => per_target_blend_check(
                    state,
                    targets.drop_first(),
                    if enabled is Some {
                        enabled
                    } else {
                        Some(targets[0])
                    },
                ),
            },
        }
    }
}

/// Blending of a draw.
pub open spec fn blend_check(state: &MaxwellThreeDState, attachments: SelectionModel) -> Result<
    (),
    MaxwellThreeDLoweringError,
> {
    if attachments.colors.len() == 0 {
        Ok(())
    } else {
        match state.fixed_function.value_of(
            MaxwellThreeDFixedFunctionRegister::BlendPerTargetEnable,
        ) {
            None => Err(
                MaxwellThreeDLoweringError::IncompleteBlendState {
                    target: None,
                    field: "SET_BLEND_STATE_PER_TARGET",
                },
            ),
            Some(MaxwellThreeDFixedFunctionValue::Boolean(true)) => per_target_blend_check(
                state,
                color_targets(attachments),
                None,
            ),
            Some(MaxwellThreeDFixedFunctionValue::Boolean(false)) => match state.fixed_function.blend_enable_common.value {
                None => Err(
                    MaxwellThreeDLoweringError::IncompleteBlendState {
                        target: None,
                        field: "SET_BLEND_ENABLE_COMMON",
                    },
                ),
                Some(MaxwellThreeDBlendEnableCommon::Disabled) => Ok(()),
                Some(MaxwellThreeDBlendEnableCommon::Enabled) => match validate_common_blend_equation_state(
                    state,
                ) {
                    Err(error) => Err(error),
                    Ok(()) => Err(
                        MaxwellThreeDLoweringError::UnsupportedBlendSemantics { target: None },
                    ),
                },
            },
            Some(_) => Err(
                MaxwellThreeDLoweringError::ContradictoryState {
                    reason: "blend-state selection register has the wrong typed value",
                },
            ),
        }
    }
}

fn check_targets(state: &MaxwellThreeDState, attachments: &DrawAttachmentSelection) -> (r: Result<
    (),
    MaxwellThreeDLoweringError,
>)
    requires
        forall|i: int|
            #![trigger attachments@.colors[i]]
            0 <= i < attachments@.colors.len() ==> attachments@.colors[i].0 < 8,
    ensures
        r == per_target_blend_check(state, color_targets(attachments@), None),
{
    let ghost targets = color_targets(attachments@);
    let mut enabled: Option<u8> = None;
    let mut slot: usize = 0;
    proof {
        assert(targets.skip(0) =~= targets);
    }
    while slot < attachments.colors.len()
        invariant
            slot <= attachments.colors@.len(),
            targets == color_targets(attachments@),
            forall|i: int|
                #![trigger attachments@.colors[i]]
                0 <= i < attachments@.colors.len() ==> attachments@.colors[i].0 < 8,
            per_target_blend_check(state, targets, None) == per_target_blend_check(
                state,
                targets.skip(slot as int),
                enabled,
            ),
        decreases attachments.colors@.len() - slot,
    {
        let target: u8 = attachments.colors[slot].0;
        proof {
            assert(attachments@.colors[slot as int].0 == target);
            assert(targets.skip(slot as int)[0] == target);
            assert(targets.skip(slot as int).drop_first() =~= targets.skip(slot + 1));
        }
        match state.fixed_function.blend_enable[target as usize].value {
            None => {
                return Err(
                    MaxwellThreeDLoweringError::IncompleteBlendState {
                        target: Some(target),
                        field: "SET_BLEND(i)",
                    },
                );
            },
            Some(false) => {},
            Some(true) => {
                if let Err(error) = validate_per_target_blend_equation_state(state, target) {
                    return Err(error);
                }
                if enabled.is_none() {
                    enabled = Some(target);
                }
            },
        }
        slot = slot + 1;
    }
    match enabled {
        Some(target) => Err(
            MaxwellThreeDLoweringError::UnsupportedBlendSemantics { target: Some(target) },
        ),
        None => Ok(()),
    }
}

/// Checks the blending of a draw: it must be fully programmed and disabled.
pub fn validate_draw_blending_state(
    state: &MaxwellThreeDState,
    attachments: &DrawAttachmentSelection,
) -> (r: Result<(), MaxwellThreeDLoweringError>)
    requires
        forall|i: int|
            #![trigger attachments@.colors[i]]
            0 <= i < attachments@.colors.len() ==> attachments@.colors[i].0 < 8,
    ensures
        r == blend_check(state, attachments@),
{
    if attachments.colors.len() == 0 {
        return Ok(());
    }
    match state.fixed_function.value_of(MaxwellThreeDFixedFunctionRegister::BlendPerTargetEnable) {
        None => Err(
            MaxwellThreeDLoweringError::IncompleteBlendState {
                target: None,
                field: "SET_BLEND_STATE_PER_TARGET",
            },
        ),
        Some(MaxwellThreeDFixedFunctionValue::Boolean(true)) => check_targets(state, attachments),
        Some(MaxwellThreeDFixedFunctionValue::Boolean(false)) => match state.fixed_function.blend_enable_common.value {
            None => Err(
                MaxwellThreeDLoweringError::IncompleteBlendState {
                    target: None,
                    field: "SET_BLEND_ENABLE_COMMON",
                },
            ),
            Some(MaxwellThreeDBlendEnableCommon::Disabled) => Ok(()),
            Some(MaxwellThreeDBlendEnableCommon::Enabled) => match validate_common_blend_equation_state(
                state,
            ) {
                Err(error) => Err(error),
                Ok(()) => Err(MaxwellThreeDLoweringError::UnsupportedBlendSemantics { target: None }),
            },
        },
        Some(_) => Err(
            MaxwellThreeDLoweringError::ContradictoryState {
                reason: "blend-state selection register has the wrong typed value",
            },
        ),
    }
}

/// A draw with color attachments is never blended: it passes only with blending known
/// to be off for every attachment.
pub proof fn law_accepted_draw_does_not_blend(
    state: &MaxwellThreeDState,
    targets: Seq<u8>,
    enabled: Option<u8>,
    i: int,
)
    requires
        per_target_blend_check(state, targets, enabled) is Ok,
        0 <= i < targets.len(),
    ensures
        enabled is None,
        state.fixed_function.blend_enable[targets[i] as int].value == Some(false),
    decreases targets.len(),
{
    reveal_with_fuel(per_target_blend_check, 2);
    if targets.len() > 1 {
        let rest = targets.drop_first();
        let next = if state.fixed_function.blend_enable[targets[0] as int].value == Some(true)
            && enabled is None {
            Some(targets[0])
        } else {
            enabled
        };
        law_accepted_draw_does_not_blend(state, rest, next, if i > 0 { i - 1 } else { 0 });
    }
}

/// Iterated blending of a draw is refused.
pub open spec fn iterated_blend_check(
    state: &MaxwellThreeDState,
    attachments: SelectionModel,
) -> Result<(), MaxwellThreeDLoweringError> {
    if attachments.colors.len() == 0 {
        Ok(())
    } else {
        match state.fixed_function.blend_controls.iterated_blend.value {
            Some(value) => if value.enabled() {
                Err(
                    MaxwellThreeDLoweringError::UnsupportedIteratedBlendSemantics {
                        value,
                        pass_count: match state.fixed_function.blend_controls.iterated_blend_pass_count.value {
                            Some(count) => Some(count.0),
                            None => None,
                        },
                    },
                )
            } else {
                Ok(())
            },
            None => Ok(()),
        }
    }
}

pub fn validate_draw_iterated_blend_state(
    state: &MaxwellThreeDState,
    attachments: &DrawAttachmentSelection,
) -> (r: Result<(), MaxwellThreeDLoweringError>)
    ensures
        r == iterated_blend_check(state, attachments@),
{
    if attachments.colors.len() == 0 {
        return Ok(());
    }
    if let Some(value) = state.fixed_function.blend_controls.iterated_blend.value {
        if value.enabled() {
            let pass_count: Option<u8> = match state.fixed_function.blend_controls.iterated_blend_pass_count.value {
                Some(count) => Some(count.pass_count()),
                None => None,
            };
            return Err(
                MaxwellThreeDLoweringError::UnsupportedIteratedBlendSemantics {
                    value,
                    pass_count,
                },
            );
        }
    }
    Ok(())
}

/// An enabled logic operation is refused; its function must be known to say which.
pub open spec fn logic_op_check(state: &MaxwellThreeDState, attachments: SelectionModel) -> Result<
    (),
    MaxwellThreeDLoweringError,
> {
    if attachments.colors.len() == 0 || boolean_register(
        state,
        MaxwellThreeDFixedFunctionRegister::LogicOpEnable,
    ) != Some(true) {
        Ok(())
    } else {
        match state.fixed_function.value_of(MaxwellThreeDFixedFunctionRegister::LogicOpFunction) {
            Some(MaxwellThreeDFixedFunctionValue::LogicOp(function)) => Err(
                MaxwellThreeDLoweringError::UnsupportedLogicOpSemantics(function),
            ),
            None => Err(MaxwellThreeDLoweringError::IncompleteLogicOpState),
            Some(_) => Err(
                MaxwellThreeDLoweringError::ContradictoryState {
                    reason: "logic-operation function register has the wrong typed value",
                },
            ),
        }
    }
}

pub fn validate_draw_logic_op_state(
    state: &MaxwellThreeDState,
    attachments: &DrawAttachmentSelection,
) -> (r: Result<(), MaxwellThreeDLoweringError>)
    ensures
        r == logic_op_check(state, attachments@),
{
    if attachments.colors.len() == 0 || boolean_register(
        state,
        MaxwellThreeDFixedFunctionRegister::LogicOpEnable,
    ) != Some(true) {
        return Ok(());
    }
    match state.fixed_function.value_of(MaxwellThreeDFixedFunctionRegister::LogicOpFunction) {
        Some(MaxwellThreeDFixedFunctionValue::LogicOp(function)) => Err(
            MaxwellThreeDLoweringError::UnsupportedLogicOpSemantics(function),
        ),
        None => Err(MaxwellThreeDLoweringError::IncompleteLogicOpState),
        Some(_) => Err(
            MaxwellThreeDLoweringError::ContradictoryState {
                reason: "logic-operation function register has the wrong typed value",
            },
        ),
    }
}

/// Color masks of the targets: each must be known and complete. With single control
/// the mask of the first target counts for all.
pub open spec fn color_write_targets_check(
    state: &MaxwellThreeDState,
    single: bool,
    targets: Seq<u8>,
) -> Result<(), MaxwellThreeDLoweringError>
    decreases targets.len(),
{
    if targets.len() == 0 {
        Ok(())
    } else {
        let target = targets[0];
        let mask_register = if single {
            0u8
        } else {
            target
        };
        match state.fixed_function.color_mask[mask_register as int].value {
            None => Err(
                MaxwellThreeDLoweringError::IncompleteColorWriteState { target, mask_register },
            ),
            Some(mask) => if mask.all_enabled() {
                color_write_targets_check(state, single, targets.drop_first())
            } else {
                Err(
                    MaxwellThreeDLoweringError::UnsupportedColorWriteMask {
                        target,
                        mask_register,
                        mask,
                    },
                )
            },
        }
    }
}

/// Color writes of a draw; nothing is asked while the mask control is unknown.
pub open spec fn color_write_check(state: &MaxwellThreeDState, attachments: SelectionModel) -> Result<
    (),
    MaxwellThreeDLoweringError,
> {
    match boolean_register(
        state,
        MaxwellThreeDFixedFunctionRegister::SingleColorTargetWriteControl,
    ) {
        Some(single) => color_write_targets_check(state, single, color_targets(attachments)),
        None => Ok(()),
    }
}

pub fn validate_draw_color_write_state(
    state: &MaxwellThreeDState,
    attachments: &DrawAttachmentSelection,
) -> (r: Result<(), MaxwellThreeDLoweringError>)
    requires
        forall|i: int|
            #![trigger attachments@.colors[i]]
            0 <= i < attachments@.colors.len() ==> attachments@.colors[i].0 < 8,
    ensures
        r == color_write_check(state, attachments@),
{
    let single: bool = match boolean_register(
        state,
        MaxwellThreeDFixedFunctionRegister::SingleColorTargetWriteControl,
    ) {
        Some(single) => single,
        None => {
            return Ok(());
        },
    };
    let ghost targets = color_targets(attachments@);
    let mut slot: usize = 0;
    proof {
        assert(targets.skip(0) =~= targets);
    }
    while slot < attachments.colors.len()
        invariant
            slot <= attachments.colors@.len(),
            targets == color_targets(attachments@),
            forall|i: int|
                #![trigger attachments@.colors[i]]
                0 <= i < attachments@.colors.len() ==> attachments@.colors[i].0 < 8,
            color_write_check(state, attachments@) == color_write_targets_check(
                state,
                single,
                targets.skip(slot as int),
            ),
        decreases attachments.colors@.len() - slot,
    {
        let target: u8 = attachments.colors[slot].0;
        proof {
            assert(attachments@.colors[slot as int].0 == target);
            assert(targets.skip(slot as int)[0] == target);
            assert(targets.skip(slot as int).drop_first() =~= targets.skip(slot + 1));
        }
        let mask_register: u8 = if single {
            0
        } else {
            target
        };
        match state.fixed_function.color_mask[mask_register as usize].value {
            None => {
                return Err(
                    MaxwellThreeDLoweringError::IncompleteColorWriteState {
                        target,
                        mask_register,
                    },
                );
            },
            Some(mask) => {
                if !mask.all_enabled() {
                    return Err(
                        MaxwellThreeDLoweringError::UnsupportedColorWriteMask {
                            target,
                            mask_register,
                            mask,
                        },
                    );
                }
            },
        }
        slot = slot + 1;
    }
    Ok(())
}

/// Routing of the outputs of a draw: replicated fragment data with several colors, and
/// for any attachment an index offset or a layer that shows, are refused.
pub open spec fn routing_check(
    state: &MaxwellThreeDState,
    facts: &MaxwellThreeDDrawFacts,
    attachments: SelectionModel,
) -> Result<(), MaxwellThreeDLoweringError> {
    if attachments.colors.len() > 1 && state.render_targets.separate_fragment_data.value == Some(
        MaxwellThreeDSeparateFragmentData::Disabled,
    ) {
        Err(MaxwellThreeDLoweringError::UnsupportedReplicatedColorTargetOutputSemantics)
    } else if attachments.is_empty() {
        Ok(())
    } else if state.render_targets.render_target_index_offset.value == Some(
        MaxwellThreeDRenderTargetIndexOffset::Enabled,
    ) {
        Err(
            MaxwellThreeDLoweringError::UnsupportedRenderTargetIndexOffsetSemantics(
                MaxwellThreeDRenderTargetIndexOffset::Enabled,
            ),
        )
    } else {
        match state.render_targets.render_target_layer.value {
            Some(layer) => match facts.render_target_layer_routing {
                Some(name) => Err(
                    MaxwellThreeDLoweringError::UnsupportedRenderTargetLayerSemantics(layer, name),
                ),
                None => Ok(()),
            },
            None => Ok(()),
        }
    }
}

pub fn validate_routing(
    state: &MaxwellThreeDState,
    facts: &MaxwellThreeDDrawFacts,
    attachments: &DrawAttachmentSelection,
) -> (r: Result<(), MaxwellThreeDLoweringError>)
    ensures
        r == routing_check(state, facts, attachments@),
{
    if attachments.colors.len() > 1 && state.render_targets.separate_fragment_data.value == Some(
        MaxwellThreeDSeparateFragmentData::Disabled,
    ) {
        return Err(MaxwellThreeDLoweringError::UnsupportedReplicatedColorTargetOutputSemantics);
    }
    if attachments.colors.len() == 0 && attachments.depth_stencil.is_none() {
        return Ok(());
    }
    if state.render_targets.render_target_index_offset.value == Some(
        MaxwellThreeDRenderTargetIndexOffset::Enabled,
    ) {
        return Err(
            MaxwellThreeDLoweringError::UnsupportedRenderTargetIndexOffsetSemantics(
                MaxwellThreeDRenderTargetIndexOffset::Enabled,
            ),
        );
    }
    if let Some(layer) = state.render_targets.render_target_layer.value {
        if let Some(name) = facts.render_target_layer_routing {
            return Err(
                MaxwellThreeDLoweringError::UnsupportedRenderTargetLayerSemantics(layer, name),
            );
        }
    }
    Ok(())
}

/// Everything the attachments of a draw must satisfy, in order.
#[verifier::opaque]
pub open spec fn attachment_check(
    state: &MaxwellThreeDState,
    facts: &MaxwellThreeDDrawFacts,
    models: Seq<ResolvedModel>,
    attachments: SelectionModel,
) -> Result<(), MaxwellThreeDLoweringError> {
    crate::draw_validation::and_then(
        crate::attachments::surface_clip_check(state, models, attachments),
        crate::draw_validation::and_then(
            routing_check(state, facts, attachments),
            crate::draw_validation::and_then(
                iterated_blend_check(state, attachments),
                crate::draw_validation::and_then(
                    blend_check(state, attachments),
                    crate::draw_validation::and_then(
                        logic_op_check(state, attachments),
                        crate::draw_validation::and_then(
                            color_write_check(state, attachments),
                            match draw_alpha_test_state(state) {
                                Ok(_) => Ok(()),
                                Err(error) => Err(error),
                            },
                        ),
                    ),
                ),
            ),
        ),
    )
}

pub fn validate_attachments(
    state: &MaxwellThreeDState,
    facts: &MaxwellThreeDDrawFacts,
    resources: &MaxwellThreeDResolvedResources,
    attachments: &DrawAttachmentSelection,
) -> (r: Result<(), MaxwellThreeDLoweringError>)
    requires
        attachments@.wf(resources.resources@.len()),
    ensures
        r == attachment_check(state, facts, resources.models(), attachments@),
{
    reveal(attachment_check);
    if let Err(error) = validate_draw_surface_clip(state, resources, attachments) {
        return Err(error);
    }
    if let Err(error) = validate_routing(state, facts, attachments) {
        return Err(error);
    }
    if let Err(error) = validate_draw_iterated_blend_state(state, attachments) {
        return Err(error);
    }
    if let Err(error) = validate_draw_blending_state(state, attachments) {
        return Err(error);
    }
    if let Err(error) = validate_draw_logic_op_state(state, attachments) {
        return Err(error);
    }
    if let Err(error) = validate_draw_color_write_state(state, attachments) {
        return Err(error);
    }
    match draw_alpha_test_state(state) {
        Ok(_) => Ok(()),
        Err(error) => Err(error),
    }
}

} // verus!
