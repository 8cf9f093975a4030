//! Resolution of shader states, sources and inputs to translated programs.

use vstd::prelude::*;
use crate::lowering_cache::{CacheModel, MaxwellThreeDLoweringCache, ShaderStateRecord, ShaderTranslationSourceRecord};
use crate::state::MaxwellThreeDState;

verus! {

/// Outcomes of the work that translation needs where nothing is retained: the inputs read
/// from a shader source with their fingerprint, and the programs they are translated to.
#[derive(Debug)]
pub struct ShaderTranslationOutcome<E> {
    pub inputs: Result<(u64, u128), E>,
    pub programs: Result<u64, E>,
}

impl CacheModel {
    /// Cache after inputs were resolved, and their programs: retained ones are used
    /// again, others are translated and retained.
    pub open spec fn inputs_resolved<E>(self, fingerprint: u128, translated: Result<u64, E>) -> (
        CacheModel,
        Result<u64, E>,
    ) {
        let sets = self.shader_translation_sets;
        match crate::fingerprint_cache::fingerprint_position(sets, fingerprint) {
            Some(position) => (
                CacheModel {
                    shader_translation_sets: crate::fingerprint_cache::used(sets, position),
                    ..self
                },
                Ok(sets[position].1),
            ),
            None => match translated {
                Err(error) => (self, Err(error)),
                Ok(programs) => (
                    CacheModel {
                        shader_translation_sets: crate::lowering_cache::within_limit(
                            sets.push((fingerprint, programs)),
                            self.shader_entries,
                        ),
                        ..self
                    },
                    Ok(programs),
                ),
            },
        }
    }

    /// Cache after a shader source was looked up, and what is retained of it.
    pub open spec fn source_found(self, fingerprint: u128) -> (
        CacheModel,
        Option<ShaderTranslationSourceRecord>,
    ) {
        let sources = self.shader_translation_sources;
        match crate::fingerprint_cache::fingerprint_position(sources, fingerprint) {
            Some(position) => (
                CacheModel {
                    shader_translation_sources: crate::fingerprint_cache::used(sources, position),
                    ..self
                },
                Some(sources[position].1),
            ),
            None => (self, None),
        }
    }

    /// Cache after a shader source was retained, in place of what was retained of it.
    pub open spec fn source_retained(
        self,
        fingerprint: u128,
        record: ShaderTranslationSourceRecord,
    ) -> CacheModel {
        let sources = self.shader_translation_sources;
        CacheModel {
            shader_translation_sources: crate::lowering_cache::within_limit(
                match crate::fingerprint_cache::fingerprint_position(sources, fingerprint) {
                    Some(position) => sources.remove(position).push((fingerprint, record)),
                    None => sources.push((fingerprint, record)),
                },
                self.shader_entries,
            ),
            ..self
        }
    }

    /// Cache after a shader source was resolved, and its inputs and programs: what is
    /// retained serves while it is current, else the inputs are read again.
    pub open spec fn source_resolved<E>(
        self,
        fingerprint: u128,
        retained_is_current: bool,
        outcome: ShaderTranslationOutcome<E>,
    ) -> (CacheModel, Result<ShaderTranslationSourceRecord, E>) {
        match self.source_found(fingerprint) {
            (found, Some(record)) if retained_is_current => (found, Ok(record)),
            (found, _) => match outcome.inputs {
                Err(error) => (found, Err(error)),
                Ok((inputs, inputs_fingerprint)) => match found.inputs_resolved(
                    inputs_fingerprint,
                    outcome.programs,
                ) {
                    (resolved, Err(error)) => (resolved, Err(error)),
                    (resolved, Ok(programs)) => {
                        let record = ShaderTranslationSourceRecord { inputs, programs };
                        (resolved.source_retained(fingerprint, record), Ok(record))
                    },
                },
            },
        }
    }

    /// Cache after a shader state was resolved, and its programs: those of the retained
    /// state serve while it is current, else its source is resolved.
    pub open spec fn state_resolved<E>(
        self,
        state: u64,
        state_is_current: bool,
        staged_writes_are_irrelevant: bool,
        source: Result<u128, E>,
        retained_is_current: bool,
        outcome: ShaderTranslationOutcome<E>,
    ) -> (CacheModel, Result<u64, E>) {
        if self.shader_state_is_current(state, state_is_current, staged_writes_are_irrelevant) {
            (self, Ok(self.shader_state->Some_0.programs))
        } else {
            match source {
                Err(error) => (self, Err(error)),
                Ok(fingerprint) => match self.source_resolved(
                    fingerprint,
                    retained_is_current,
                    outcome,
                ) {
                    (resolved, Err(error)) => (resolved, Err(error)),
                    (resolved, Ok(record)) => (
                        CacheModel {
                            shader_state: Some(
                                ShaderStateRecord {
                                    state,
                                    inputs: record.inputs,
                                    programs: record.programs,
                                    translated: None,
                                },
                            ),
                            ..resolved
                        },
                        Ok(record.programs),
                    ),
                },
            }
        }
    }
}

impl MaxwellThreeDLoweringCache {
    /// Programs of translation inputs. `translated` is the outcome of translating them,
    /// which counts only where no programs are retained.
    pub fn resolve_shader_translation_inputs<E>(
        &mut self,
        fingerprint: u128,
        translated: Result<u64, E>,
    ) -> (r: Result<u64, E>)
        requires
            old(self).wf(),
        ensures
            final(self).wf(),
            (final(self)@, r) == old(self)@.inputs_resolved(fingerprint, translated),
    {
        if let Some(programs) = self.reuse_shader_translation_inputs(fingerprint) {
            return Ok(programs);
        }
        match translated {
            Ok(programs) => {
                self.retain_shader_translation_inputs(fingerprint, programs);
                Ok(programs)
            },
            Err(error) => Err(error),
        }
    }

    /// Inputs and programs of a shader source. `retained_is_current` tells whether the
    /// memory that the retained inputs were read from is unchanged.
    pub fn resolve_shader_translation_source<E>(
        &mut self,
        fingerprint: u128,
        retained_is_current: bool,
        outcome: ShaderTranslationOutcome<E>,
    ) -> (r: Result<ShaderTranslationSourceRecord, E>)
        requires
            old(self).wf(),
        ensures
            final(self).wf(),
            (final(self)@, r) == old(self)@.source_resolved(
                fingerprint,
                retained_is_current,
                outcome,
            ),
    {
        if let Some(record) = self.reuse_shader_translation_source(fingerprint) {
            if retained_is_current {
                return Ok(record);
            }
        }
        let (inputs, inputs_fingerprint): (u64, u128) = match outcome.inputs {
            Ok(read) => read,
            Err(error) => {
                return Err(error);
            },
        };
        let programs: u64 = match self.resolve_shader_translation_inputs(
            inputs_fingerprint,
            outcome.programs,
        ) {
            Ok(programs) => programs,
            Err(error) => {
                return Err(error);
            },
        };
        let record = ShaderTranslationSourceRecord { inputs, programs };
        self.retain_shader_translation_source(fingerprint, record);
        Ok(record)
    }

    /// Programs of a shader state. `source` is the fingerprint of its shader source, which
    /// counts only where the retained state does not serve.
    pub fn resolve_shader_translation_for_state<E>(
        &mut self,
        state: &MaxwellThreeDState,
        state_is_current: bool,
        staged_writes_are_irrelevant: bool,
        source: Result<u128, E>,
        retained_is_current: bool,
        outcome: ShaderTranslationOutcome<E>,
    ) -> (r: Result<u64, E>)
        requires
            old(self).wf(),
        ensures
            final(self).wf(),
            (final(self)@, r) == old(self)@.state_resolved(
                state.identity,
                state_is_current,
                staged_writes_are_irrelevant,
                source,
                retained_is_current,
                outcome,
            ),
    {
        if let Some(programs) = self.reuse_shader_translation_for_state(
            state,
            state_is_current,
            staged_writes_are_irrelevant,
        ) {
            return Ok(programs);
        }
        let fingerprint: u128 = match source {
            Ok(fingerprint) => fingerprint,
            Err(error) => {
                return Err(error);
            },
        };
        match self.resolve_shader_translation_source(fingerprint, retained_is_current, outcome) {
            Ok(record) => {
                self.retain_shader_state(state, record.inputs, record.programs);
                Ok(record.programs)
            },
            Err(error) => Err(error),
        }
    }
}

/// Inputs that were resolved are not translated again: they keep their programs whatever
/// another translation would give.
pub proof fn law_resolved_inputs_are_retained<E>(
    cache: CacheModel,
    fingerprint: u128,
    translated: Result<u64, E>,
    later: Result<u64, E>,
)
    requires
        cache.wf(),
        cache.shader_entries > 0,
    ensures
        ({
            let (resolved, programs) = cache.inputs_resolved(fingerprint, translated);
            programs is Ok ==> resolved.inputs_resolved(fingerprint, later).1 == programs
        }),
{
    let sets = cache.shader_translation_sets;
    let (resolved, programs) = cache.inputs_resolved(fingerprint, translated);
    let after = resolved.shader_translation_sets;
    crate::fingerprint_cache::lemma_fingerprint_position(sets, fingerprint);
    if programs is Ok {
        assert(crate::fingerprint_cache::distinct_fingerprints(after));
        assert(after.last() == (fingerprint, programs->Ok_0));
        crate::fingerprint_cache::lemma_fingerprint_found(after, after.len() - 1);
    }
}

/// A shader state that was resolved needs no translation while it is current, and is the
/// one that a set of translated shaders can be retained for.
pub proof fn law_resolved_state_is_retained<E>(
    cache: CacheModel,
    state: u64,
    state_is_current: bool,
    staged_writes_are_irrelevant: bool,
    source: Result<u128, E>,
    retained_is_current: bool,
    outcome: ShaderTranslationOutcome<E>,
    later_source: Result<u128, E>,
    later_outcome: ShaderTranslationOutcome<E>,
)
    ensures
        ({
            let (resolved, programs) = cache.state_resolved(
                state,
                state_is_current,
                staged_writes_are_irrelevant,
                source,
                retained_is_current,
                outcome,
            );
            programs is Ok ==> {
                &&& resolved.shader_state matches Some(record) && record.programs == programs->Ok_0
                &&& resolved.state_resolved(
                    state,
                    true,
                    true,
                    later_source,
                    retained_is_current,
                    later_outcome,
                ) == (resolved, programs)
            }
        }),
{
}

} // verus!
