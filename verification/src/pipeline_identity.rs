//! Fixed-function words that take part in pipeline identity.
//!
//! Two draws may share a pipeline exactly when their identity words agree, so a
//! register counts only while it can affect the result. Equations of disabled
//! stages and state of unselected targets are left out.

use vstd::prelude::*;
use crate::output::{
    MaxwellThreeDBlendEnableCommon, MaxwellThreeDFixedFunctionRegister,
    MaxwellThreeDFixedFunctionState, MaxwellThreeDFixedFunctionValue,
    MaxwellThreeDFixedFunctionWrite, MaxwellThreeDScissorState,
    MaxwellThreeDViewportScaleOffsetEnable, MaxwellThreeDViewportTransformState,
};
use crate::register::MaxwellMethodSource;

verus! {

impl MaxwellThreeDViewportTransformState {
    /// Words of one viewport; the transform counts only where it may be active.
    pub open spec fn identity_words(self, transform: bool) -> Seq<Option<u32>> {
        let clip = seq![
            self.clip_horizontal.raw,
            self.clip_vertical.raw,
            self.clip_min_z.raw,
            self.clip_max_z.raw,
            self.coordinate_swizzle.raw,
        ];
        if transform {
            seq![
                self.scale[0].raw,
                self.scale[1].raw,
                self.scale[2].raw,
                self.offset[0].raw,
                self.offset[1].raw,
                self.offset[2].raw,
            ] + clip
        } else {
            clip
        }
    }
}

impl MaxwellThreeDScissorState {
    pub open spec fn identity_words(self) -> Seq<Option<u32>> {
        seq![self.enable.raw, self.horizontal.raw, self.vertical.raw]
    }
}

impl MaxwellThreeDFixedFunctionState {
    /// Whether the viewport transform is anything but known to be disabled.
    pub open spec fn transform_may_be_active(self) -> bool {
        self.spec_register(MaxwellThreeDFixedFunctionRegister::ViewportScaleOffsetEnable).value
            != Some(
            MaxwellThreeDFixedFunctionValue::ViewportScaleOffsetEnable(
                MaxwellThreeDViewportScaleOffsetEnable::Disabled,
            ),
        )
    }

    /// Words of the first `count` viewports.
    pub open spec fn viewport_words(self, count: nat) -> Seq<Option<u32>>
        decreases count,
    {
        if count == 0 {
            seq![]
        } else {
            self.viewport_words((count - 1) as nat) + self.viewport[count - 1].identity_words(
                self.transform_may_be_active(),
            )
        }
    }

    /// Words of the first `count` scissors.
    pub open spec fn scissor_words(self, count: nat) -> Seq<Option<u32>>
        decreases count,
    {
        if count == 0 {
            seq![]
        } else {
            self.scissor_words((count - 1) as nat) + self.scissor[count - 1].identity_words()
        }
    }

    /// Words of the unconditional registers among the first `count`.
    pub open spec fn register_words(self, count: nat) -> Seq<Option<u32>>
        decreases count,
    {
        if count == 0 {
            seq![]
        } else {
            let before = self.register_words((count - 1) as nat);
            if MaxwellThreeDFixedFunctionRegister::spec_conditional_index(count - 1) {
                before
            } else {
                before.push(self.registers[count - 1].raw)
            }
        }
    }

    pub open spec fn front_stencil_words(self) -> Seq<Option<u32>> {
        seq![
            self.spec_register(MaxwellThreeDFixedFunctionRegister::FrontStencilFail).raw,
            self.spec_register(MaxwellThreeDFixedFunctionRegister::FrontStencilDepthFail).raw,
            self.spec_register(MaxwellThreeDFixedFunctionRegister::FrontStencilPass).raw,
            self.spec_register(MaxwellThreeDFixedFunctionRegister::FrontStencilCompare).raw,
            self.spec_register(MaxwellThreeDFixedFunctionRegister::FrontStencilReference).raw,
            self.spec_register(MaxwellThreeDFixedFunctionRegister::FrontStencilCompareMask).raw,
            self.spec_register(MaxwellThreeDFixedFunctionRegister::FrontStencilWriteMask).raw,
        ]
    }

    pub open spec fn back_stencil_words(self) -> Seq<Option<u32>> {
        seq![
            self.spec_register(MaxwellThreeDFixedFunctionRegister::BackStencilFail).raw,
            self.spec_register(MaxwellThreeDFixedFunctionRegister::BackStencilDepthFail).raw,
            self.spec_register(MaxwellThreeDFixedFunctionRegister::BackStencilPass).raw,
            self.spec_register(MaxwellThreeDFixedFunctionRegister::BackStencilCompare).raw,
            self.spec_register(MaxwellThreeDFixedFunctionRegister::BackStencilReference).raw,
            self.spec_register(MaxwellThreeDFixedFunctionRegister::BackStencilCompareMask).raw,
            self.spec_register(MaxwellThreeDFixedFunctionRegister::BackStencilWriteMask).raw,
        ]
    }

    /// Stencil words: none while the test is known to be disabled, and no back
    /// face while two-sided testing is known to be disabled.
    pub open spec fn stencil_words(self) -> Seq<Option<u32>> {
        if self.holds(MaxwellThreeDFixedFunctionRegister::StencilTestEnable, false) {
            seq![]
        } else {
            let front = self.front_stencil_words().push(
                self.spec_register(
                    MaxwellThreeDFixedFunctionRegister::TwoSidedStencilTestEnable,
                ).raw,
            );
            if self.holds(MaxwellThreeDFixedFunctionRegister::TwoSidedStencilTestEnable, false) {
                front
            } else {
                front + self.back_stencil_words()
            }
        }
    }

    /// Words of the first `count` window-clip regions.
    pub open spec fn region_words(self, count: nat) -> Seq<Option<u32>>
        decreases count,
    {
        if count == 0 {
            seq![]
        } else {
            self.region_words((count - 1) as nat) + seq![
                self.window_clip[count - 1].horizontal.raw,
                self.window_clip[count - 1].vertical.raw,
            ]
        }
    }

    /// Window-clip words: none while clipping is known to be disabled.
    pub open spec fn window_clip_words(self) -> Seq<Option<u32>> {
        if self.holds(MaxwellThreeDFixedFunctionRegister::WindowClipEnable, false) {
            seq![]
        } else {
            seq![self.spec_register(MaxwellThreeDFixedFunctionRegister::WindowClipType).raw]
                + self.region_words(8)
        }
    }

    /// Whether blending is known to be enabled for an active target.
    pub open spec fn blending_enabled(self, active: Seq<u8>) -> bool {
        if active.len() == 0 {
            false
        } else if self.holds(MaxwellThreeDFixedFunctionRegister::BlendPerTargetEnable, true) {
            exists|i: int|
                0 <= i < active.len() && (#[trigger] self.blend_enable[active[i] as int]).value
                    == Some(true)
        } else {
            self.blend_enable_common.value == Some(MaxwellThreeDBlendEnableCommon::Enabled)
        }
    }

    /// Blend enables that select the effective result of the active targets.
    pub open spec fn blend_selection_words(self, active: Seq<u8>) -> Seq<Option<u32>> {
        if active.len() == 0 {
            seq![]
        } else {
            let selection = seq![
                self.spec_register(MaxwellThreeDFixedFunctionRegister::BlendPerTargetEnable).raw,
            ];
            if self.holds(MaxwellThreeDFixedFunctionRegister::BlendPerTargetEnable, true) {
                selection + Seq::new(
                    active.len(),
                    |i: int| self.blend_enable[active[i] as int].raw,
                )
            } else {
                selection.push(self.blend_enable_common.raw)
            }
        }
    }

    /// Blend controls, counted only where blending or iterated blending is on.
    pub open spec fn blend_control_words(self, active: Seq<u8>) -> Seq<Option<u32>> {
        let arithmetic = if self.blending_enabled(active) {
            seq![
                self.blend_controls.per_format_enable.raw,
                self.blend_controls.zero_times_anything_is_zero.raw,
            ]
        } else {
            seq![]
        };
        let iterated = match self.blend_controls.iterated_blend.value {
            Some(value) if active.len() > 0 && value.spec_enabled() => seq![
                self.blend_controls.iterated_blend.raw,
                self.blend_controls.iterated_blend_pass_count.raw,
            ],
            _ => seq![],
        };
        arithmetic + iterated
    }

    /// Logic function and alpha-test operands, counted only while enabled.
    pub open spec fn fragment_test_words(self) -> Seq<Option<u32>> {
        let logic = if self.holds(MaxwellThreeDFixedFunctionRegister::LogicOpEnable, true) {
            seq![self.spec_register(MaxwellThreeDFixedFunctionRegister::LogicOpFunction).raw]
        } else {
            seq![]
        };
        let alpha = if self.holds(MaxwellThreeDFixedFunctionRegister::AlphaTestEnable, true) {
            seq![
                self.spec_register(MaxwellThreeDFixedFunctionRegister::AlphaTestReference).raw,
                self.spec_register(MaxwellThreeDFixedFunctionRegister::AlphaTestFunction).raw,
            ]
        } else {
            seq![]
        };
        logic + alpha
    }

    /// Color masks: the first alone under single-target control, those of the
    /// active targets without it, and all eight while the control is unknown.
    pub open spec fn color_mask_words(self, active: Seq<u8>) -> Seq<Option<u32>> {
        if self.holds(MaxwellThreeDFixedFunctionRegister::SingleColorTargetWriteControl, true) {
            seq![self.color_mask[0].raw]
        } else if self.holds(
            MaxwellThreeDFixedFunctionRegister::SingleColorTargetWriteControl,
            false,
        ) {
            Seq::new(active.len(), |i: int| self.color_mask[active[i] as int].raw)
        } else {
            Seq::new(8, |i: int| self.color_mask[i].raw)
        }
    }

    /// Words before the blend section; independent of the active targets.
    pub open spec fn target_independent_words(self) -> Seq<Option<u32>> {
        seq![self.surface_clip_horizontal.raw, self.surface_clip_vertical.raw]
            + self.viewport_words(16) + self.scissor_words(16) + self.register_words(75)
            + self.stencil_words() + self.window_clip_words()
    }

    /// Every fixed-function word that takes part in pipeline identity.
    pub open spec fn pipeline_dependencies(self, active: Seq<u8>) -> Seq<Option<u32>> {
        self.target_independent_words() + self.blend_selection_words(active)
            + self.blend_control_words(active) + self.fragment_test_words()
            + self.color_mask_words(active)
    }

    fn append_register(
        &self,
        dependencies: &mut Vec<Option<u32>>,
        register: MaxwellThreeDFixedFunctionRegister,
    )
        ensures
            final(dependencies)@ == old(dependencies)@.push(self.spec_register(register).raw),
    {
        dependencies.push(self.registers[register.index()].raw);
    }

    fn append_viewports(&self, dependencies: &mut Vec<Option<u32>>)
        ensures
            final(dependencies)@ == old(dependencies)@ + self.viewport_words(16),
    {
        let transform: bool = match self.register(
            MaxwellThreeDFixedFunctionRegister::ViewportScaleOffsetEnable,
        ).value {
            Some(
                MaxwellThreeDFixedFunctionValue::ViewportScaleOffsetEnable(
                    MaxwellThreeDViewportScaleOffsetEnable::Disabled,
                ),
            ) => false,
            _ => true,
        };
        assert(transform == self.transform_may_be_active());
        let ghost base = dependencies@;
        let mut index: usize = 0;
        while index < 16
            invariant
                index <= 16,
                transform == self.transform_may_be_active(),
                dependencies@ =~= base + self.viewport_words(index as nat),
            decreases 16 - index,
        {
            let viewport = self.viewport[index];
            if transform {
                dependencies.push(viewport.scale[0].raw);
                dependencies.push(viewport.scale[1].raw);
                dependencies.push(viewport.scale[2].raw);
                dependencies.push(viewport.offset[0].raw);
                dependencies.push(viewport.offset[1].raw);
                dependencies.push(viewport.offset[2].raw);
            }
            dependencies.push(viewport.clip_horizontal.raw);
            dependencies.push(viewport.clip_vertical.raw);
            dependencies.push(viewport.clip_min_z.raw);
            dependencies.push(viewport.clip_max_z.raw);
            dependencies.push(viewport.coordinate_swizzle.raw);
            index = index + 1;
        }
    }

    fn append_scissors(&self, dependencies: &mut Vec<Option<u32>>)
        ensures
            final(dependencies)@ == old(dependencies)@ + self.scissor_words(16),
    {
        let ghost base = dependencies@;
        let mut index: usize = 0;
        while index < 16
            invariant
                index <= 16,
                dependencies@ =~= base + self.scissor_words(index as nat),
            decreases 16 - index,
        {
            dependencies.push(self.scissor[index].enable.raw);
            dependencies.push(self.scissor[index].horizontal.raw);
            dependencies.push(self.scissor[index].vertical.raw);
            index = index + 1;
        }
    }

    fn append_registers(&self, dependencies: &mut Vec<Option<u32>>)
        ensures
            final(dependencies)@ == old(dependencies)@ + self.register_words(75),
    {
        let ghost base = dependencies@;
        let mut index: usize = 0;
        while index < 75
            invariant
                index <= 75,
                dependencies@ =~= base + self.register_words(index as nat),
            decreases 75 - index,
        {
            if !MaxwellThreeDFixedFunctionRegister::conditional_index(index) {
                dependencies.push(self.registers[index].raw);
            }
            index = index + 1;
        }
    }

    fn append_stencil(&self, dependencies: &mut Vec<Option<u32>>)
        ensures
            final(dependencies)@ == old(dependencies)@ + self.stencil_words(),
    {
        let ghost base = dependencies@;
        if self.register_holds(MaxwellThreeDFixedFunctionRegister::StencilTestEnable, false) {
            return;
        }
        self.append_register(dependencies, MaxwellThreeDFixedFunctionRegister::FrontStencilFail);
        self.append_register(
            dependencies,
            MaxwellThreeDFixedFunctionRegister::FrontStencilDepthFail,
        );
        self.append_register(dependencies, MaxwellThreeDFixedFunctionRegister::FrontStencilPass);
        self.append_register(
            dependencies,
            MaxwellThreeDFixedFunctionRegister::FrontStencilCompare,
        );
        self.append_register(
            dependencies,
            MaxwellThreeDFixedFunctionRegister::FrontStencilReference,
        );
        self.append_register(
            dependencies,
            MaxwellThreeDFixedFunctionRegister::FrontStencilCompareMask,
        );
        self.append_register(
            dependencies,
            MaxwellThreeDFixedFunctionRegister::FrontStencilWriteMask,
        );
        self.append_register(
            dependencies,
            MaxwellThreeDFixedFunctionRegister::TwoSidedStencilTestEnable,
        );
        if !self.register_holds(
            MaxwellThreeDFixedFunctionRegister::TwoSidedStencilTestEnable,
            false,
        ) {
            self.append_register(
                dependencies,
                MaxwellThreeDFixedFunctionRegister::BackStencilFail,
            );
            self.append_register(
                dependencies,
                MaxwellThreeDFixedFunctionRegister::BackStencilDepthFail,
            );
            self.append_register(
                dependencies,
                MaxwellThreeDFixedFunctionRegister::BackStencilPass,
            );
            self.append_register(
                dependencies,
                MaxwellThreeDFixedFunctionRegister::BackStencilCompare,
            );
            self.append_register(
                dependencies,
                MaxwellThreeDFixedFunctionRegister::BackStencilReference,
            );
            self.append_register(
                dependencies,
                MaxwellThreeDFixedFunctionRegister::BackStencilCompareMask,
            );
            self.append_register(
                dependencies,
                MaxwellThreeDFixedFunctionRegister::BackStencilWriteMask,
            );
        }
        assert(dependencies@ =~= base + self.stencil_words());
    }

    fn append_window_clip(&self, dependencies: &mut Vec<Option<u32>>)
        ensures
            final(dependencies)@ == old(dependencies)@ + self.window_clip_words(),
    {
        if self.register_holds(MaxwellThreeDFixedFunctionRegister::WindowClipEnable, false) {
            return;
        }
        self.append_register(dependencies, MaxwellThreeDFixedFunctionRegister::WindowClipType);
        let ghost base = dependencies@;
        let mut index: usize = 0;
        while index < 8
            invariant
                index <= 8,
                dependencies@ =~= base + self.region_words(index as nat),
            decreases 8 - index,
        {
            dependencies.push(self.window_clip[index].horizontal.raw);
            dependencies.push(self.window_clip[index].vertical.raw);
            index = index + 1;
        }
    }

    /// Appends the blend section; tells whether blending is known to be enabled.
    fn append_blend_selection(&self, dependencies: &mut Vec<Option<u32>>, active: &[u8]) -> (r:
        bool)
        requires
            forall|i: int| 0 <= i < active@.len() ==> #[trigger] active@[i] < 8,
        ensures
            final(dependencies)@ == old(dependencies)@ + self.blend_selection_words(active@),
            r == self.blending_enabled(active@),
    {
        if active.len() == 0 {
            return false;
        }
        self.append_register(
            dependencies,
            MaxwellThreeDFixedFunctionRegister::BlendPerTargetEnable,
        );
        if !self.register_holds(MaxwellThreeDFixedFunctionRegister::BlendPerTargetEnable, true) {
            dependencies.push(self.blend_enable_common.raw);
            return matches!(
                self.blend_enable_common.value,
                Some(MaxwellThreeDBlendEnableCommon::Enabled)
            );
        }
        let ghost base = dependencies@;
        let ghost enables = Seq::new(
            active@.len(),
            |i: int| self.blend_enable[active@[i] as int].raw,
        );
        let mut enabled: bool = false;
        let mut index: usize = 0;
        while index < active.len()
            invariant
                index <= active@.len(),
                enables.len() == active@.len(),
                forall|i: int|
                    0 <= i < active@.len() ==> #[trigger] enables[i]
                        == self.blend_enable[active@[i] as int].raw,
                forall|i: int| 0 <= i < active@.len() ==> #[trigger] active@[i] < 8,
                dependencies@ =~= base + enables.take(index as int),
                enabled == exists|i: int|
                    0 <= i < index && (#[trigger] self.blend_enable[active@[i] as int]).value
                        == Some(true),
            decreases active@.len() - index,
        {
            let target: u8 = active[index];
            let register = self.blend_enable[target as usize];
            dependencies.push(register.raw);
            if let Some(true) = register.value {
                enabled = true;
            }
            assert(enables.take(index + 1) =~= enables.take(index as int).push(
                enables[index as int],
            ));
            assert(self.blend_enable[active@[index as int] as int] == register);
            index = index + 1;
        }
        assert(enables.take(index as int) =~= enables);
        enabled
    }

    fn append_blend_controls(
        &self,
        dependencies: &mut Vec<Option<u32>>,
        active: &[u8],
        blending: bool,
    )
        requires
            blending == self.blending_enabled(active@),
        ensures
            final(dependencies)@ == old(dependencies)@ + self.blend_control_words(active@),
    {
        let ghost base = dependencies@;
        if blending {
            dependencies.push(self.blend_controls.per_format_enable.raw);
            dependencies.push(self.blend_controls.zero_times_anything_is_zero.raw);
        }
        if active.len() > 0 {
            if let Some(value) = self.blend_controls.iterated_blend.value {
                if value.enabled() {
                    dependencies.push(self.blend_controls.iterated_blend.raw);
                    dependencies.push(self.blend_controls.iterated_blend_pass_count.raw);
                }
            }
        }
        assert(dependencies@ =~= base + self.blend_control_words(active@));
    }

    fn append_fragment_tests(&self, dependencies: &mut Vec<Option<u32>>)
        ensures
            final(dependencies)@ == old(dependencies)@ + self.fragment_test_words(),
    {
        let ghost base = dependencies@;
        if self.register_holds(MaxwellThreeDFixedFunctionRegister::LogicOpEnable, true) {
            self.append_register(dependencies, MaxwellThreeDFixedFunctionRegister::LogicOpFunction);
        }
        if self.register_holds(MaxwellThreeDFixedFunctionRegister::AlphaTestEnable, true) {
            self.append_register(
                dependencies,
                MaxwellThreeDFixedFunctionRegister::AlphaTestReference,
            );
            self.append_register(
                dependencies,
                MaxwellThreeDFixedFunctionRegister::AlphaTestFunction,
            );
        }
        assert(dependencies@ =~= base + self.fragment_test_words());
    }

    fn append_color_masks(&self, dependencies: &mut Vec<Option<u32>>, active: &[u8])
        requires
            forall|i: int| 0 <= i < active@.len() ==> #[trigger] active@[i] < 8,
        ensures
            final(dependencies)@ == old(dependencies)@ + self.color_mask_words(active@),
    {
        let ghost base = dependencies@;
        if self.register_holds(
            MaxwellThreeDFixedFunctionRegister::SingleColorTargetWriteControl,
            true,
        ) {
            dependencies.push(self.color_mask[0].raw);
            return;
        }
        if self.register_holds(
            MaxwellThreeDFixedFunctionRegister::SingleColorTargetWriteControl,
            false,
        ) {
            let ghost masks = self.color_mask_words(active@);
            let mut index: usize = 0;
            while index < active.len()
                invariant
                    index <= active@.len(),
                    masks.len() == active@.len(),
                    forall|i: int|
                        0 <= i < active@.len() ==> #[trigger] masks[i]
                            == self.color_mask[active@[i] as int].raw,
                    forall|i: int| 0 <= i < active@.len() ==> #[trigger] active@[i] < 8,
                    dependencies@ =~= base + masks.take(index as int),
                decreases active@.len() - index,
            {
                let target: u8 = active[index];
                dependencies.push(self.color_mask[target as usize].raw);
                assert(masks.take(index + 1) =~= masks.take(index as int).push(
                    masks[index as int],
                ));
                index = index + 1;
            }
            assert(masks.take(index as int) =~= masks);
            return;
        }
        let mut index: usize = 0;
        while index < 8
            invariant
                index <= 8,
                dependencies@ =~= base + Seq::new(
                    index as nat,
                    |i: int| self.color_mask[i].raw,
                ),
            decreases 8 - index,
        {
            dependencies.push(self.color_mask[index].raw);
            index = index + 1;
        }
    }

    /// Appends every fixed-function word that takes part in pipeline identity.
    pub fn append_pipeline_dependencies(
        &self,
        dependencies: &mut Vec<Option<u32>>,
        active_color_targets: &[u8],
    )
        requires
            forall|i: int|
                0 <= i < active_color_targets@.len() ==> #[trigger] active_color_targets@[i] < 8,
        ensures
            final(dependencies)@ == old(dependencies)@ + self.pipeline_dependencies(
                active_color_targets@,
            ),
    {
        let ghost base = dependencies@;
        dependencies.push(self.surface_clip_horizontal.raw);
        dependencies.push(self.surface_clip_vertical.raw);
        self.append_viewports(dependencies);
        self.append_scissors(dependencies);
        self.append_registers(dependencies);
        self.append_stencil(dependencies);
        self.append_window_clip(dependencies);
        assert(dependencies@ =~= base + self.target_independent_words());
        let blending: bool = self.append_blend_selection(dependencies, active_color_targets);
        self.append_blend_controls(dependencies, active_color_targets, blending);
        self.append_fragment_tests(dependencies);
        self.append_color_masks(dependencies, active_color_targets);
        assert(dependencies@ =~= base + self.pipeline_dependencies(active_color_targets@));
    }
}

/// Registers of the common blend equation and its constant.
pub open spec fn blend_equation_register(register: MaxwellThreeDFixedFunctionRegister) -> bool {
    match register {
        MaxwellThreeDFixedFunctionRegister::BlendSeparateAlpha => true,
        MaxwellThreeDFixedFunctionRegister::BlendColorOp => true,
        MaxwellThreeDFixedFunctionRegister::BlendColorSource => true,
        MaxwellThreeDFixedFunctionRegister::BlendColorDestination => true,
        MaxwellThreeDFixedFunctionRegister::BlendAlphaOp => true,
        MaxwellThreeDFixedFunctionRegister::BlendAlphaSource => true,
        MaxwellThreeDFixedFunctionRegister::BlendAlphaDestination => true,
        MaxwellThreeDFixedFunctionRegister::BlendConstantRed => true,
        MaxwellThreeDFixedFunctionRegister::BlendConstantGreen => true,
        MaxwellThreeDFixedFunctionRegister::BlendConstantBlue => true,
        MaxwellThreeDFixedFunctionRegister::BlendConstantAlpha => true,
        _ => false,
    }
}

/// Registers of the stencil test other than its enable.
pub open spec fn stencil_register(register: MaxwellThreeDFixedFunctionRegister) -> bool {
    match register {
        MaxwellThreeDFixedFunctionRegister::TwoSidedStencilTestEnable => true,
        MaxwellThreeDFixedFunctionRegister::FrontStencilFail => true,
        MaxwellThreeDFixedFunctionRegister::FrontStencilDepthFail => true,
        MaxwellThreeDFixedFunctionRegister::FrontStencilPass => true,
        MaxwellThreeDFixedFunctionRegister::FrontStencilCompare => true,
        MaxwellThreeDFixedFunctionRegister::FrontStencilReference => true,
        MaxwellThreeDFixedFunctionRegister::FrontStencilCompareMask => true,
        MaxwellThreeDFixedFunctionRegister::FrontStencilWriteMask => true,
        MaxwellThreeDFixedFunctionRegister::BackStencilFail => true,
        MaxwellThreeDFixedFunctionRegister::BackStencilDepthFail => true,
        MaxwellThreeDFixedFunctionRegister::BackStencilPass => true,
        MaxwellThreeDFixedFunctionRegister::BackStencilCompare => true,
        MaxwellThreeDFixedFunctionRegister::BackStencilReference => true,
        MaxwellThreeDFixedFunctionRegister::BackStencilCompareMask => true,
        MaxwellThreeDFixedFunctionRegister::BackStencilWriteMask => true,
        _ => false,
    }
}

impl MaxwellThreeDFixedFunctionState {
    proof fn lemma_scissor_words_agree(self, other: MaxwellThreeDFixedFunctionState, count: nat)
        requires
            count <= 16,
            self.scissor == other.scissor,
        ensures
            self.scissor_words(count) == other.scissor_words(count),
        decreases count,
    {
        if count > 0 {
            self.lemma_scissor_words_agree(other, (count - 1) as nat);
        }
    }

    proof fn lemma_viewport_words_agree(self, other: MaxwellThreeDFixedFunctionState, count: nat)
        requires
            count <= 16,
            self.viewport == other.viewport,
            self.transform_may_be_active() == other.transform_may_be_active(),
        ensures
            self.viewport_words(count) == other.viewport_words(count),
        decreases count,
    {
        if count > 0 {
            self.lemma_viewport_words_agree(other, (count - 1) as nat);
        }
    }

    proof fn lemma_region_words_agree(self, other: MaxwellThreeDFixedFunctionState, count: nat)
        requires
            count <= 8,
            self.window_clip == other.window_clip,
        ensures
            self.region_words(count) == other.region_words(count),
        decreases count,
    {
        if count > 0 {
            self.lemma_region_words_agree(other, (count - 1) as nat);
        }
    }

    proof fn lemma_register_words_agree(self, other: MaxwellThreeDFixedFunctionState, count: nat)
        requires
            count <= 75,
            forall|i: int|
                0 <= i < 75 && !#[trigger] MaxwellThreeDFixedFunctionRegister::spec_conditional_index(
                    i,
                ) ==> self.registers[i] == other.registers[i],
        ensures
            self.register_words(count) == other.register_words(count),
        decreases count,
    {
        if count > 0 {
            self.lemma_register_words_agree(other, (count - 1) as nat);
        }
    }

    /// Distinct registers have distinct indices.
    proof fn lemma_index_injective(
        a: MaxwellThreeDFixedFunctionRegister,
        b: MaxwellThreeDFixedFunctionRegister,
    )
        ensures
            a.spec_index() == b.spec_index() ==> a == b,
            a.spec_index() < 75,
    {
    }

    /// A write to a conditionally effective register changes no other register
    /// and none of the unconditional words.
    proof fn lemma_conditional_write(
        self,
        register: MaxwellThreeDFixedFunctionRegister,
        value: MaxwellThreeDFixedFunctionValue,
        source: MaxwellMethodSource,
    )
        requires
            register.conditionally_effective(),
        ensures
            ({
                let next = self.written(
                    MaxwellThreeDFixedFunctionWrite::Register { register, value, source },
                );
                &&& forall|other: MaxwellThreeDFixedFunctionRegister|
                    other != register ==> #[trigger] next.spec_register(other)
                        == self.spec_register(other)
                &&& next.viewport_words(16) == self.viewport_words(16)
                &&& next.scissor_words(16) == self.scissor_words(16)
                &&& next.region_words(8) == self.region_words(8)
                &&& next.register_words(75) == self.register_words(75)
            }),
    {
        let next = self.written(
            MaxwellThreeDFixedFunctionWrite::Register { register, value, source },
        );
        assert forall|other: MaxwellThreeDFixedFunctionRegister| other != register implies
            #[trigger] next.spec_register(other) == self.spec_register(other) by {
            MaxwellThreeDFixedFunctionState::lemma_index_injective(other, register);
            MaxwellThreeDFixedFunctionState::lemma_index_injective(register, other);
        }
        assert(next.spec_register(MaxwellThreeDFixedFunctionRegister::ViewportScaleOffsetEnable)
            == self.spec_register(MaxwellThreeDFixedFunctionRegister::ViewportScaleOffsetEnable));
        next.lemma_viewport_words_agree(self, 16);
        next.lemma_scissor_words_agree(self, 16);
        next.lemma_region_words_agree(self, 8);
        assert forall|i: int|
            0 <= i < 75 && !#[trigger] MaxwellThreeDFixedFunctionRegister::spec_conditional_index(
                i,
            ) implies next.registers[i] == self.registers[i] by {
            MaxwellThreeDFixedFunctionState::lemma_index_injective(register, register);
            assert(register.spec_index() != i);
        }
        next.lemma_register_words_agree(self, 75);
    }

    /// Common blend equations never reach pipeline identity.
    pub proof fn law_blend_equation_is_inert(
        self,
        active: Seq<u8>,
        register: MaxwellThreeDFixedFunctionRegister,
        value: MaxwellThreeDFixedFunctionValue,
        source: MaxwellMethodSource,
    )
        requires
            blend_equation_register(register),
        ensures
            self.written(
                MaxwellThreeDFixedFunctionWrite::Register { register, value, source },
            ).pipeline_dependencies(active) == self.pipeline_dependencies(active),
    {
        let next = self.written(
            MaxwellThreeDFixedFunctionWrite::Register { register, value, source },
        );
        self.lemma_conditional_write(register, value, source);
        assert(next.stencil_words() =~= self.stencil_words());
        assert(next.window_clip_words() =~= self.window_clip_words());
        assert(next.blending_enabled(active) == self.blending_enabled(active));
        assert(next.blend_selection_words(active) =~= self.blend_selection_words(active));
        assert(next.blend_control_words(active) =~= self.blend_control_words(active));
        assert(next.fragment_test_words() =~= self.fragment_test_words());
        assert(next.color_mask_words(active) =~= self.color_mask_words(active));
    }

    /// Per-target blend equations never reach pipeline identity.
    pub proof fn law_target_equation_is_inert(
        self,
        active: Seq<u8>,
        target: u8,
        field: u8,
        value: MaxwellThreeDFixedFunctionValue,
        source: MaxwellMethodSource,
    )
        requires
            target < 8,
            field < 7,
        ensures
            self.written(
                MaxwellThreeDFixedFunctionWrite::BlendState { target, field, value, source },
            ).pipeline_dependencies(active) == self.pipeline_dependencies(active),
    {
        let next = self.written(
            MaxwellThreeDFixedFunctionWrite::BlendState { target, field, value, source },
        );
        next.lemma_viewport_words_agree(self, 16);
        next.lemma_scissor_words_agree(self, 16);
        next.lemma_region_words_agree(self, 8);
        next.lemma_register_words_agree(self, 75);
        assert(next.stencil_words() =~= self.stencil_words());
        assert(next.blending_enabled(active) == self.blending_enabled(active));
        assert(next.blend_selection_words(active) =~= self.blend_selection_words(active));
        assert(next.color_mask_words(active) =~= self.color_mask_words(active));
    }

    /// While the stencil test is known to be disabled, its registers do not reach
    /// pipeline identity.
    pub proof fn law_disabled_stencil_is_inert(
        self,
        active: Seq<u8>,
        register: MaxwellThreeDFixedFunctionRegister,
        value: MaxwellThreeDFixedFunctionValue,
        source: MaxwellMethodSource,
    )
        requires
            stencil_register(register),
            self.holds(MaxwellThreeDFixedFunctionRegister::StencilTestEnable, false),
        ensures
            self.written(
                MaxwellThreeDFixedFunctionWrite::Register { register, value, source },
            ).pipeline_dependencies(active) == self.pipeline_dependencies(active),
    {
        let next = self.written(
            MaxwellThreeDFixedFunctionWrite::Register { register, value, source },
        );
        self.lemma_conditional_write(register, value, source);
        assert(next.holds(MaxwellThreeDFixedFunctionRegister::StencilTestEnable, false));
        assert(next.window_clip_words() =~= self.window_clip_words());
        assert(next.blending_enabled(active) == self.blending_enabled(active));
        assert(next.blend_selection_words(active) =~= self.blend_selection_words(active));
        assert(next.blend_control_words(active) =~= self.blend_control_words(active));
        assert(next.fragment_test_words() =~= self.fragment_test_words());
        assert(next.color_mask_words(active) =~= self.color_mask_words(active));
    }

    /// While window clipping is known to be disabled, neither its type nor its
    /// regions reach pipeline identity.
    pub proof fn law_disabled_window_clip_is_inert(
        self,
        active: Seq<u8>,
        write: MaxwellThreeDFixedFunctionWrite,
    )
        requires
            write.wf(),
            match write {
                MaxwellThreeDFixedFunctionWrite::Register { register, .. } => register
                    == MaxwellThreeDFixedFunctionRegister::WindowClipType,
                MaxwellThreeDFixedFunctionWrite::WindowClipRectangle { .. } => true,
                _ => false,
            },
            self.holds(MaxwellThreeDFixedFunctionRegister::WindowClipEnable, false),
        ensures
            self.written(write).pipeline_dependencies(active) == self.pipeline_dependencies(active),
    {
        let next = self.written(write);
        match write {
            MaxwellThreeDFixedFunctionWrite::Register { register, value, source } => {
                self.lemma_conditional_write(register, value, source);
            },
            _ => {
                next.lemma_viewport_words_agree(self, 16);
                next.lemma_scissor_words_agree(self, 16);
                next.lemma_register_words_agree(self, 75);
                assert forall|other: MaxwellThreeDFixedFunctionRegister|
                    #[trigger] next.spec_register(other) == self.spec_register(other) by {}
            },
        }
        assert(next.spec_register(MaxwellThreeDFixedFunctionRegister::WindowClipEnable)
            == self.spec_register(MaxwellThreeDFixedFunctionRegister::WindowClipEnable));
        assert(next.stencil_words() =~= self.stencil_words());
        assert(next.blending_enabled(active) == self.blending_enabled(active));
        assert(next.blend_selection_words(active) =~= self.blend_selection_words(active));
        assert(next.blend_control_words(active) =~= self.blend_control_words(active));
        assert(next.fragment_test_words() =~= self.fragment_test_words());
        assert(next.color_mask_words(active) =~= self.color_mask_words(active));
    }

    /// The blend enable of an unselected target does not reach pipeline identity.
    pub proof fn law_unselected_target_is_inert(
        self,
        active: Seq<u8>,
        target: u8,
        value: bool,
        source: MaxwellMethodSource,
    )
        requires
            target < 8,
            forall|i: int| 0 <= i < active.len() ==> #[trigger] active[i] < 8,
            !active.contains(target),
        ensures
            self.written(
                MaxwellThreeDFixedFunctionWrite::BlendEnable { target, value, source },
            ).pipeline_dependencies(active) == self.pipeline_dependencies(active),
    {
        let next = self.written(
            MaxwellThreeDFixedFunctionWrite::BlendEnable { target, value, source },
        );
        assert forall|i: int| 0 <= i < active.len() implies next.blend_enable[#[trigger] active[i]
            as int] == self.blend_enable[active[i] as int] by {
            assert(active[i] != target);
        }
        next.lemma_viewport_words_agree(self, 16);
        next.lemma_scissor_words_agree(self, 16);
        next.lemma_region_words_agree(self, 8);
        next.lemma_register_words_agree(self, 75);
        assert(next.stencil_words() =~= self.stencil_words());
        assert(next.blending_enabled(active) == self.blending_enabled(active)) by {
            if self.holds(MaxwellThreeDFixedFunctionRegister::BlendPerTargetEnable, true)
                && active.len() > 0 {
                if self.blending_enabled(active) {
                    let i = choose|i: int|
                        0 <= i < active.len() && (#[trigger] self.blend_enable[active[i]
                            as int]).value == Some(true);
                    assert(next.blend_enable[active[i] as int].value == Some(true));
                }
                if next.blending_enabled(active) {
                    let i = choose|i: int|
                        0 <= i < active.len() && (#[trigger] next.blend_enable[active[i]
                            as int]).value == Some(true);
                    assert(self.blend_enable[active[i] as int].value == Some(true));
                }
            }
        }
        assert(next.blend_selection_words(active) =~= self.blend_selection_words(active));
        assert(next.color_mask_words(active) =~= self.color_mask_words(active));
    }
}

} // verus!
