//! Register state of the whole engine.

use vstd::prelude::*;
use std::collections::BTreeMap;
use crate::bindings::{MaxwellThreeDShaderBindingState, MaxwellThreeDShaderBindingWrite};
use crate::color_reduction::{MaxwellThreeDColorReductionState, MaxwellThreeDColorReductionStateWrite};
use crate::constant_color::{MaxwellThreeDConstantColorRenderingState, MaxwellThreeDConstantColorRenderingStateWrite};
use crate::counters::{MaxwellThreeDCounterState, MaxwellThreeDCounterStateWrite};
use crate::coverage::{MaxwellThreeDCoverageState, MaxwellThreeDCoverageStateWrite};
use crate::falcon::{FalconModel, MaxwellThreeDFalconMaskedRegisterWrite, MaxwellThreeDFalconState};
use crate::inline_to_memory::{MaxwellThreeDInlineToMemoryState, MaxwellThreeDInlineToMemoryStateWrite};
use crate::instrumentation::{MaxwellThreeDInstrumentationState, MaxwellThreeDInstrumentationStateWrite};
use crate::l2_cache::{MaxwellThreeDL2CacheState, MaxwellThreeDL2CacheStateWrite};
use crate::line::{MaxwellThreeDLineState, MaxwellThreeDLineStateWrite};
use crate::mme::{MaxwellThreeDMmeState, MaxwellThreeDMmeStateWrite, MmeModel};
use crate::operations::{MaxwellThreeDReportSemaphoreState, MaxwellThreeDReportSemaphoreStateWrite};
use crate::output::{MaxwellThreeDFixedFunctionState, MaxwellThreeDFixedFunctionWrite};
use crate::raster::{MaxwellThreeDRasterState, MaxwellThreeDRasterStateWrite};
use crate::register::{GpuMethodId, MaxwellMethodSource, MaxwellThreeDRegister};
use crate::render_enable::{MaxwellThreeDRenderEnableState, MaxwellThreeDRenderEnableStateWrite};
use crate::render_targets::{MaxwellThreeDRenderTargetState, MaxwellThreeDRenderTargetWrite};
use crate::shader_execution::{MaxwellThreeDShaderExecutionState, MaxwellThreeDShaderExecutionStateWrite};
use crate::tiled_cache::{MaxwellThreeDTiledCacheState, MaxwellThreeDTiledCacheStateWrite};
use crate::vertex::{MaxwellThreeDVertexInputState, MaxwellThreeDVertexInputWrite};
use crate::zcull::{MaxwellThreeDZCullState, MaxwellThreeDZCullStateWrite};

verus! {

/// One checked transition of the engine: every register write that a method can
/// cause.
#[derive(Clone, Copy, Debug, PartialEq, Eq)]
#[allow(inconsistent_fields)]
pub enum MaxwellThreeDStateWrite {
    ColorReduction(MaxwellThreeDColorReductionStateWrite),
    ConstantColorRendering(MaxwellThreeDConstantColorRenderingStateWrite),
    Counter(MaxwellThreeDCounterStateWrite),
    Coverage(MaxwellThreeDCoverageStateWrite),
    FixedFunction(MaxwellThreeDFixedFunctionWrite),
    InlineToMemory(MaxwellThreeDInlineToMemoryStateWrite),
    Instrumentation(MaxwellThreeDInstrumentationStateWrite),
    L2Cache(MaxwellThreeDL2CacheStateWrite),
    Line(MaxwellThreeDLineStateWrite),
    Raster(MaxwellThreeDRasterStateWrite),
    RenderEnable(MaxwellThreeDRenderEnableStateWrite),
    RenderTarget(MaxwellThreeDRenderTargetWrite),
    ReportSemaphore(MaxwellThreeDReportSemaphoreStateWrite),
    ShaderBinding(MaxwellThreeDShaderBindingWrite),
    ShaderExecution(MaxwellThreeDShaderExecutionStateWrite),
    TiledCache(MaxwellThreeDTiledCacheStateWrite),
    VertexInput(MaxwellThreeDVertexInputWrite),
    ZCull(MaxwellThreeDZCullStateWrite),
    FalconMaskedRegister(MaxwellThreeDFalconMaskedRegisterWrite),
    Mme(MaxwellThreeDMmeStateWrite),
}

impl MaxwellThreeDStateWrite {
    /// The write is in range for the family it belongs to.
    pub open spec fn wf(self) -> bool {
        match self {
            MaxwellThreeDStateWrite::Coverage(write) => write.wf(),
            MaxwellThreeDStateWrite::FixedFunction(write) => write.wf(),
            MaxwellThreeDStateWrite::Raster(write) => write.wf(),
            MaxwellThreeDStateWrite::RenderTarget(write) => write.wf(),
            MaxwellThreeDStateWrite::ShaderBinding(write) => write.wf(),
            MaxwellThreeDStateWrite::TiledCache(write) => write.wf(),
            MaxwellThreeDStateWrite::VertexInput(write) => write.wf(),
            MaxwellThreeDStateWrite::Mme(write) => write.wf(),
            _ => true,
        }
    }
}

/// Registers that operations capture: everything but the macro expander and the
/// firmware registers.
///
/// `identity` tells apart states that differ in some register: it changes whenever a
/// register takes another word.
#[derive(Clone, Copy, Debug, PartialEq, Eq)]
pub struct MaxwellThreeDState {
    pub color_reduction: MaxwellThreeDColorReductionState,
    pub constant_color_rendering: MaxwellThreeDConstantColorRenderingState,
    pub counters: MaxwellThreeDCounterState,
    pub coverage: MaxwellThreeDCoverageState,
    pub fixed_function: MaxwellThreeDFixedFunctionState,
    pub inline_to_memory: MaxwellThreeDInlineToMemoryState,
    pub instrumentation: MaxwellThreeDInstrumentationState,
    pub l2_cache: MaxwellThreeDL2CacheState,
    pub line: MaxwellThreeDLineState,
    pub raster: MaxwellThreeDRasterState,
    pub render_enable: MaxwellThreeDRenderEnableState,
    pub render_targets: MaxwellThreeDRenderTargetState,
    pub report_semaphore: MaxwellThreeDReportSemaphoreState,
    pub shader_bindings: MaxwellThreeDShaderBindingState,
    pub shader_execution: MaxwellThreeDShaderExecutionState,
    pub tiled_cache: MaxwellThreeDTiledCacheState,
    pub vertex_input: MaxwellThreeDVertexInputState,
    pub zcull: MaxwellThreeDZCullState,
    pub identity: u64,
}

impl MaxwellThreeDState {
    /// State before any method is decoded, given the documented reset words.
    pub open spec fn initial(self, polygon_mode_reset: u32, window_origin_reset: u32) -> bool {
        &&& self.color_reduction.initial()
        &&& self.constant_color_rendering.initial()
        &&& self.counters.initial()
        &&& self.coverage.initial()
        &&& self.fixed_function.initial(polygon_mode_reset, window_origin_reset)
        &&& self.inline_to_memory.initial()
        &&& self.instrumentation.initial()
        &&& self.l2_cache.initial()
        &&& self.line.initial()
        &&& self.raster.initial()
        &&& self.render_enable.initial()
        &&& self.render_targets.initial()
        &&& self.report_semaphore.initial()
        &&& self.shader_bindings.initial()
        &&& self.shader_execution.initial()
        &&& self.tiled_cache.initial()
        &&& self.vertex_input.initial()
        &&& self.zcull.initial()
        &&& self.identity == 0
    }

    #[must_use]
    pub fn with_resets(polygon_mode_reset: u32, window_origin_reset: u32) -> (r: MaxwellThreeDState)
        ensures
            r.initial(polygon_mode_reset, window_origin_reset),
    {
        MaxwellThreeDState {
            color_reduction: MaxwellThreeDColorReductionState::unprogrammed(),
            constant_color_rendering: MaxwellThreeDConstantColorRenderingState::unprogrammed(),
            counters: MaxwellThreeDCounterState::unprogrammed(),
            coverage: MaxwellThreeDCoverageState::unprogrammed(),
            fixed_function: MaxwellThreeDFixedFunctionState::with_resets(
                polygon_mode_reset,
                window_origin_reset,
            ),
            inline_to_memory: MaxwellThreeDInlineToMemoryState::unprogrammed(),
            instrumentation: MaxwellThreeDInstrumentationState::unprogrammed(),
            l2_cache: MaxwellThreeDL2CacheState::unprogrammed(),
            line: MaxwellThreeDLineState::unprogrammed(),
            raster: MaxwellThreeDRasterState::unprogrammed(),
            render_enable: MaxwellThreeDRenderEnableState::unprogrammed(),
            render_targets: MaxwellThreeDRenderTargetState::unprogrammed(),
            report_semaphore: MaxwellThreeDReportSemaphoreState::unprogrammed(),
            shader_bindings: MaxwellThreeDShaderBindingState::unprogrammed(),
            shader_execution: MaxwellThreeDShaderExecutionState::unprogrammed(),
            tiled_cache: MaxwellThreeDTiledCacheState::unprogrammed(),
            vertex_input: MaxwellThreeDVertexInputState::unprogrammed(),
            zcull: MaxwellThreeDZCullState::unprogrammed(),
            identity: 0,
        }
    }

    /// State after one transition; writes to the macro expander or the firmware
    /// registers change nothing here.
    pub open spec fn written(self, write: MaxwellThreeDStateWrite) -> MaxwellThreeDState {
        match write {
            MaxwellThreeDStateWrite::ColorReduction(write) => MaxwellThreeDState {
                color_reduction: self.color_reduction.written(write),
                ..self
            },
            MaxwellThreeDStateWrite::ConstantColorRendering(write) => MaxwellThreeDState {
                constant_color_rendering: self.constant_color_rendering.written(write),
                ..self
            },
            MaxwellThreeDStateWrite::Counter(write) => MaxwellThreeDState {
                counters: self.counters.written(write),
                ..self
            },
            MaxwellThreeDStateWrite::Coverage(write) => MaxwellThreeDState {
                coverage: self.coverage.written(write),
                ..self
            },
            MaxwellThreeDStateWrite::FixedFunction(write) => MaxwellThreeDState {
                fixed_function: self.fixed_function.written(write),
                ..self
            },
            MaxwellThreeDStateWrite::InlineToMemory(write) => MaxwellThreeDState {
                inline_to_memory: self.inline_to_memory.written(write),
                ..self
            },
            MaxwellThreeDStateWrite::Instrumentation(write) => MaxwellThreeDState {
                instrumentation: self.instrumentation.written(write),
                ..self
            },
            MaxwellThreeDStateWrite::L2Cache(write) => MaxwellThreeDState {
                l2_cache: self.l2_cache.written(write),
                ..self
            },
            MaxwellThreeDStateWrite::Line(write) => MaxwellThreeDState {
                line: self.line.written(write),
                ..self
            },
            MaxwellThreeDStateWrite::Raster(write) => MaxwellThreeDState {
                raster: self.raster.written(write),
                ..self
            },
            MaxwellThreeDStateWrite::RenderEnable(write) => MaxwellThreeDState {
                render_enable: self.render_enable.written(write),
                ..self
            },
            MaxwellThreeDStateWrite::RenderTarget(write) => MaxwellThreeDState {
                render_targets: self.render_targets.written(write),
                ..self
            },
            MaxwellThreeDStateWrite::ReportSemaphore(write) => MaxwellThreeDState {
                report_semaphore: self.report_semaphore.written(write),
                ..self
            },
            MaxwellThreeDStateWrite::ShaderBinding(write) => MaxwellThreeDState {
                shader_bindings: self.shader_bindings.written(write),
                ..self
            },
            MaxwellThreeDStateWrite::ShaderExecution(write) => MaxwellThreeDState {
                shader_execution: self.shader_execution.written(write),
                ..self
            },
            MaxwellThreeDStateWrite::TiledCache(write) => MaxwellThreeDState {
                tiled_cache: self.tiled_cache.written(write),
                ..self
            },
            MaxwellThreeDStateWrite::VertexInput(write) => MaxwellThreeDState {
                vertex_input: self.vertex_input.written(write),
                ..self
            },
            MaxwellThreeDStateWrite::ZCull(write) => MaxwellThreeDState {
                zcull: self.zcull.written(write),
                ..self
            },
            MaxwellThreeDStateWrite::FalconMaskedRegister(_) | MaxwellThreeDStateWrite::Mme(_) => self,
        }
    }

    pub fn apply(&mut self, write: MaxwellThreeDStateWrite)
        requires
            write.wf(),
        ensures
            *final(self) == old(self).written(write),
    {
        match write {
            MaxwellThreeDStateWrite::ColorReduction(write) => self.color_reduction.apply(write),
            MaxwellThreeDStateWrite::ConstantColorRendering(write) => self.constant_color_rendering.apply(write),
            MaxwellThreeDStateWrite::Counter(write) => self.counters.apply(write),
            MaxwellThreeDStateWrite::Coverage(write) => self.coverage.apply(write),
            MaxwellThreeDStateWrite::FixedFunction(write) => self.fixed_function.apply(write),
            MaxwellThreeDStateWrite::InlineToMemory(write) => self.inline_to_memory.apply(write),
            MaxwellThreeDStateWrite::Instrumentation(write) => self.instrumentation.apply(write),
            MaxwellThreeDStateWrite::L2Cache(write) => self.l2_cache.apply(write),
            MaxwellThreeDStateWrite::Line(write) => self.line.apply(write),
            MaxwellThreeDStateWrite::Raster(write) => self.raster.apply(write),
            MaxwellThreeDStateWrite::RenderEnable(write) => self.render_enable.apply(write),
            MaxwellThreeDStateWrite::RenderTarget(write) => self.render_targets.apply(write),
            MaxwellThreeDStateWrite::ReportSemaphore(write) => self.report_semaphore.apply(write),
            MaxwellThreeDStateWrite::ShaderBinding(write) => self.shader_bindings.apply(write),
            MaxwellThreeDStateWrite::ShaderExecution(write) => self.shader_execution.apply(write),
            MaxwellThreeDStateWrite::TiledCache(write) => self.tiled_cache.apply(write),
            MaxwellThreeDStateWrite::VertexInput(write) => self.vertex_input.apply(write),
            MaxwellThreeDStateWrite::ZCull(write) => self.zcull.apply(write),
            MaxwellThreeDStateWrite::FalconMaskedRegister(_) => {},
            MaxwellThreeDStateWrite::Mme(_) => {},
        }
    }

    #[must_use]
    pub fn color_reduction(&self) -> (r: &MaxwellThreeDColorReductionState)
        ensures
            *r == self.color_reduction,
    {
        &self.color_reduction
    }

    #[must_use]
    pub fn constant_color_rendering(&self) -> (r: &MaxwellThreeDConstantColorRenderingState)
        ensures
            *r == self.constant_color_rendering,
    {
        &self.constant_color_rendering
    }

    #[must_use]
    pub fn counters(&self) -> (r: &MaxwellThreeDCounterState)
        ensures
            *r == self.counters,
    {
        &self.counters
    }

    #[must_use]
    pub fn coverage(&self) -> (r: &MaxwellThreeDCoverageState)
        ensures
            *r == self.coverage,
    {
        &self.coverage
    }

    #[must_use]
    pub fn fixed_function(&self) -> (r: &MaxwellThreeDFixedFunctionState)
        ensures
            *r == self.fixed_function,
    {
        &self.fixed_function
    }

    #[must_use]
    pub fn inline_to_memory(&self) -> (r: &MaxwellThreeDInlineToMemoryState)
        ensures
            *r == self.inline_to_memory,
    {
        &self.inline_to_memory
    }

    #[must_use]
    pub fn instrumentation(&self) -> (r: &MaxwellThreeDInstrumentationState)
        ensures
            *r == self.instrumentation,
    {
        &self.instrumentation
    }

    #[must_use]
    pub fn l2_cache(&self) -> (r: &MaxwellThreeDL2CacheState)
        ensures
            *r == self.l2_cache,
    {
        &self.l2_cache
    }

    #[must_use]
    pub fn line(&self) -> (r: &MaxwellThreeDLineState)
        ensures
            *r == self.line,
    {
        &self.line
    }

    #[must_use]
    pub fn raster(&self) -> (r: &MaxwellThreeDRasterState)
        ensures
            *r == self.raster,
    {
        &self.raster
    }

    #[must_use]
    pub fn render_enable(&self) -> (r: &MaxwellThreeDRenderEnableState)
        ensures
            *r == self.render_enable,
    {
        &self.render_enable
    }

    #[must_use]
    pub fn render_targets(&self) -> (r: &MaxwellThreeDRenderTargetState)
        ensures
            *r == self.render_targets,
    {
        &self.render_targets
    }

    #[must_use]
    pub fn report_semaphore(&self) -> (r: &MaxwellThreeDReportSemaphoreState)
        ensures
            *r == self.report_semaphore,
    {
        &self.report_semaphore
    }

    #[must_use]
    pub fn shader_bindings(&self) -> (r: &MaxwellThreeDShaderBindingState)
        ensures
            *r == self.shader_bindings,
    {
        &self.shader_bindings
    }

    #[must_use]
    pub fn shader_execution(&self) -> (r: &MaxwellThreeDShaderExecutionState)
        ensures
            *r == self.shader_execution,
    {
        &self.shader_execution
    }

    #[must_use]
    pub fn tiled_cache(&self) -> (r: &MaxwellThreeDTiledCacheState)
        ensures
            *r == self.tiled_cache,
    {
        &self.tiled_cache
    }

    #[must_use]
    pub fn vertex_input(&self) -> (r: &MaxwellThreeDVertexInputState)
        ensures
            *r == self.vertex_input,
    {
        &self.vertex_input
    }

    #[must_use]
    pub fn zcull(&self) -> (r: &MaxwellThreeDZCullState)
        ensures
            *r == self.zcull,
    {
        &self.zcull
    }

    #[must_use]
    pub fn identity(&self) -> (r: u64)
        ensures
            r == self.identity,
    {
        self.identity
    }

    /// Whether the sample mask of the pixel shader takes effect; unknown while the
    /// usage is unprogrammed or depends on an unprogrammed anti-alias enable.
    pub open spec fn spec_ps_output_sample_mask_effective(&self) -> Option<bool> {
        match self.coverage.ps_output_sample_mask_usage.value {
            Some(usage) => usage.effective(
                match self.fixed_function.spec_register(
                    crate::output::MaxwellThreeDFixedFunctionRegister::AntiAliasEnable,
                ).value {
                    Some(crate::output::MaxwellThreeDFixedFunctionValue::Boolean(enabled)) => Some(enabled),
                    _ => None,
                },
            ),
            None => None,
        }
    }

    #[must_use]
    #[verifier::when_used_as_spec(spec_ps_output_sample_mask_effective)]
    pub fn ps_output_sample_mask_effective(&self) -> (r: Option<bool>)
        ensures
            r == self.spec_ps_output_sample_mask_effective(),
    {
        let anti_alias: Option<bool> = match self.fixed_function.register(
            crate::output::MaxwellThreeDFixedFunctionRegister::AntiAliasEnable,
        ).value {
            Some(crate::output::MaxwellThreeDFixedFunctionValue::Boolean(enabled)) => Some(enabled),
            _ => None,
        };
        match self.coverage.ps_output_sample_mask_usage.value {
            Some(usage) => usage.effective(anti_alias),
            None => None,
        }
    }
}

/// Mathematical content of the whole front end: the captured registers, the macro
/// expander, the firmware registers, and the last word that reached each method.
pub struct FrontendModel {
    pub operation: MaxwellThreeDState,
    pub mme: MmeModel,
    pub falcon: FalconModel,
    pub raw_registers: Map<u32, MaxwellThreeDRegister<u32>>,
}

impl FrontendModel {
    /// State after one transition.
    pub open spec fn written(self, write: MaxwellThreeDStateWrite) -> FrontendModel {
        match write {
            MaxwellThreeDStateWrite::FalconMaskedRegister(write) => FrontendModel {
                falcon: self.falcon.written(write),
                ..self
            },
            MaxwellThreeDStateWrite::Mme(write) => FrontendModel {
                mme: self.mme.written(write),
                ..self
            },
            _ => FrontendModel { operation: self.operation.written(write), ..self },
        }
    }

    /// Last word that reached a method.
    pub open spec fn raw_word(self, method: GpuMethodId) -> Option<u32> {
        if self.raw_registers.contains_key(method.0) {
            self.raw_registers[method.0].raw
        } else {
            None
        }
    }

    /// Whether a method brings a word that its register does not hold.
    pub open spec fn changes_register(self, source: MaxwellMethodSource) -> bool {
        self.raw_word(source.method()) != Some(source.argument())
    }

    /// State after a method that wrote state is recorded: its word is remembered,
    /// and the identity moves on if the word is new.
    pub open spec fn recorded(self, source: MaxwellMethodSource, changed: bool) -> FrontendModel {
        FrontendModel {
            operation: MaxwellThreeDState {
                identity: if changed {
                    self.operation.identity.wrapping_add(1)
                } else {
                    self.operation.identity
                },
                ..self.operation
            },
            raw_registers: self.raw_registers.insert(
                source.method().0,
                MaxwellThreeDRegister::programmed(source.argument(), source.argument(), source),
            ),
            ..self
        }
    }
}

/// Front end of the engine: everything that methods read and change.
#[derive(Debug)]
pub struct MaxwellThreeDFrontendState {
    pub operation: MaxwellThreeDState,
    pub mme: MaxwellThreeDMmeState,
    pub falcon: MaxwellThreeDFalconState,
    pub raw_registers: BTreeMap<u32, MaxwellThreeDRegister<u32>>,
}

impl View for MaxwellThreeDFrontendState {
    type V = FrontendModel;

    open spec fn view(&self) -> FrontendModel {
        FrontendModel {
            operation: self.operation,
            mme: self.mme@,
            falcon: self.falcon@,
            raw_registers: self.raw_registers@,
        }
    }
}

impl MaxwellThreeDFrontendState {
    /// Front end before any method is decoded, given the documented reset words.
    #[must_use]
    pub fn with_resets(polygon_mode_reset: u32, window_origin_reset: u32) -> (r:
        MaxwellThreeDFrontendState)
        ensures
            r@.operation.initial(polygon_mode_reset, window_origin_reset),
            r@.mme == MmeModel::unprogrammed(),
            r@.falcon.registers.is_empty(),
            r@.falcon.last_masked_write is None,
            r@.raw_registers.is_empty(),
    {
        MaxwellThreeDFrontendState {
            operation: MaxwellThreeDState::with_resets(polygon_mode_reset, window_origin_reset),
            mme: MaxwellThreeDMmeState::unprogrammed(),
            falcon: MaxwellThreeDFalconState::default(),
            raw_registers: BTreeMap::new(),
        }
    }

    #[must_use]
    pub fn operation_state(&self) -> (r: &MaxwellThreeDState)
        ensures
            *r == self@.operation,
    {
        &self.operation
    }

    /// Copy of the captured registers that later methods do not change.
    #[must_use]
    pub fn operation_snapshot(&self) -> (r: MaxwellThreeDState)
        ensures
            r == self@.operation,
    {
        self.operation
    }

    #[must_use]
    pub fn mme(&self) -> (r: &MaxwellThreeDMmeState)
        ensures
            r@ == self@.mme,
    {
        &self.mme
    }

    #[must_use]
    pub fn falcon(&self) -> (r: &MaxwellThreeDFalconState)
        ensures
            r@ == self@.falcon,
    {
        &self.falcon
    }

    #[must_use]
    pub fn raw_register(&self, method: GpuMethodId) -> (r: Option<&MaxwellThreeDRegister<u32>>)
        ensures
            r is Some <==> self@.raw_registers.contains_key(method.0),
            r matches Some(register) ==> *register == self@.raw_registers[method.0],
    {
        self.raw_registers.get(&method.0)
    }

    /// Last word that reached a method.
    #[must_use]
    pub fn raw_word(&self, method: GpuMethodId) -> (r: Option<u32>)
        ensures
            r == self@.raw_word(method),
    {
        match self.raw_registers.get(&method.0) {
            Some(register) => register.raw,
            None => None,
        }
    }

    pub fn apply(&mut self, write: MaxwellThreeDStateWrite)
        requires
            write.wf(),
        ensures
            final(self)@ == old(self)@.written(write),
    {
        match write {
            MaxwellThreeDStateWrite::FalconMaskedRegister(write) => self.falcon.apply(write),
            MaxwellThreeDStateWrite::Mme(write) => self.mme.apply(write),
            _ => self.operation.apply(write),
        }
    }

    /// Records a method that wrote state.
    pub fn record(&mut self, source: MaxwellMethodSource, changed: bool)
        ensures
            final(self)@ == old(self)@.recorded(source, changed),
    {
        if changed {
            self.operation.identity = self.operation.identity.wrapping_add(1);
        }
        self.raw_registers.insert(
            source.method().0,
            MaxwellThreeDRegister::programmed(source.argument(), source.argument(), source),
        );
    }

    /// Records a method in the macro shadow if the mode it went through under tracks.
    pub fn track_shadow_register(
        &mut self,
        control: Option<crate::mme::MaxwellThreeDMmeShadowRamControl>,
        source: MaxwellMethodSource,
    )
        ensures
            final(self)@ == (FrontendModel {
                mme: old(self)@.mme.shadowed(control, source),
                ..old(self)@
            }),
    {
        self.mme.track_shadow_register(control, source);
    }
}

} // verus!
