//! Staging the same programs again.

use vstd::prelude::*;
use crate::lowering_cache::{CacheModel, ShaderTranslationRecord};
use crate::translated_shaders::{MaxwellThreeDShaderResourceUse, MaxwellThreeDTranslatedShader, ProgramModel};

verus! {

/// Fingerprints of programs.
pub open spec fn fingerprints(programs: Seq<ProgramModel>) -> Set<u128> {
    programs.map_values(|program: ProgramModel| program.fingerprint).to_set()
}

/// Whether a record from some position on is of a fingerprint and names a shader.
spec fn held(
    records: Seq<(u128, ShaderTranslationRecord)>,
    start: int,
    fingerprint: u128,
    shader: u64,
) -> bool {
    exists|p: int|
        start <= p < records.len() && (#[trigger] records[p]).0 == fingerprint && records[p].1.id
            == shader
}

/// Whether each of the first programs has a record, from some position on, that names the
/// shader it was staged to.
spec fn all_held(
    records: Seq<(u128, ShaderTranslationRecord)>,
    start: int,
    programs: Seq<ProgramModel>,
    shaders: Seq<MaxwellThreeDTranslatedShader>,
) -> bool {
    forall|i: int|
        #![trigger shaders[i]]
        0 <= i < shaders.len() ==> shaders[i] == programs[i].translated(shaders[i].shader) && held(
            records,
            start,
            programs[i].fingerprint,
            shaders[i].shader,
        )
}

/// Whether the records from some position on are of some programs only.
spec fn only_of(
    records: Seq<(u128, ShaderTranslationRecord)>,
    start: int,
    programs: Seq<ProgramModel>,
) -> bool {
    forall|p: int|
        #![trigger records[p]]
        start <= p < records.len() ==> fingerprints(programs).contains(records[p].0)
}

/// No role occurs twice.
pub open spec fn distinct_roles(uses: Seq<MaxwellThreeDShaderResourceUse>) -> bool {
    forall|i: int, j: int|
        #![trigger uses[i], uses[j]]
        0 <= i < j < uses.len() ==> uses[i].role != uses[j].role
}

/// A program's fingerprint is among those of the programs.
proof fn lemma_fingerprint_listed(programs: Seq<ProgramModel>, from: int)
    requires
        0 <= from < programs.len(),
    ensures
        fingerprints(programs).contains(programs[from].fingerprint),
{
    let all = programs.map_values(|program: ProgramModel| program.fingerprint);
    assert(all[from] == programs[from].fingerprint);
}

/// Records from some position on, all of the programs, with one more of a fingerprint that
/// has none there, are no more than the fingerprints.
proof fn lemma_room(
    records: Seq<(u128, ShaderTranslationRecord)>,
    start: int,
    programs: Seq<ProgramModel>,
    fingerprint: u128,
)
    requires
        0 <= start <= records.len(),
        crate::fingerprint_cache::distinct_fingerprints(records),
        only_of(records, start, programs),
        fingerprints(programs).contains(fingerprint),
        forall|p: int| #![trigger records[p]] start <= p < records.len() ==> records[p].0
            != fingerprint,
    ensures
        records.len() - start + 1 <= fingerprints(programs).len(),
{
    let tail = records.skip(start).map_values(
        |record: (u128, ShaderTranslationRecord)| record.0,
    ).push(fingerprint);
    assert forall|i: int, j: int| 0 <= i < tail.len() && 0 <= j < tail.len() && i != j implies tail[i]
        != tail[j] by {
        if i < tail.len() - 1 {
            assert(tail[i] == records[start + i].0);
        }
        if j < tail.len() - 1 {
            assert(tail[j] == records[start + j].0);
        }
    }
    assert(tail.no_duplicates());
    tail.unique_seq_to_set();
    assert(tail.to_set().subset_of(fingerprints(programs))) by {
        assert forall|x: u128| #[trigger] tail.to_set().contains(x) implies fingerprints(
            programs,
        ).contains(x) by {
            let i = choose|i: int| 0 <= i < tail.len() && tail[i] == x;
            if i < tail.len() - 1 {
                assert(tail[i] == records[start + i].0);
            }
        }
    }
    vstd::seq_lib::seq_to_set_is_finite(
        programs.map_values(|program: ProgramModel| program.fingerprint),
    );
    vstd::set_lib::lemma_len_subset(tail.to_set(), fingerprints(programs));
}

/// Using a record keeps what is held.
proof fn lemma_held_after_use(
    records: Seq<(u128, ShaderTranslationRecord)>,
    position: int,
    start: int,
    fingerprint: u128,
    shader: u64,
)
    requires
        0 <= position < records.len(),
        0 <= start,
        held(records, start, fingerprint, shader),
    ensures
        held(
            crate::fingerprint_cache::used(records, position),
            if position < start {
                start - 1
            } else {
                start
            },
            fingerprint,
            shader,
        ),
{
    let p = choose|p: int|
        start <= p < records.len() && (#[trigger] records[p]).0 == fingerprint && records[p].1.id
            == shader;
    let after = crate::fingerprint_cache::used(records, position);
    if p == position {
        assert(after[records.len() - 1] == records[p]);
    } else if p < position {
        assert(after[p] == records[p]);
    } else {
        assert(after[p - 1] == records[p]);
    }
}

/// Using a record keeps fingerprints apart.
proof fn lemma_distinct_after_use(
    records: Seq<(u128, ShaderTranslationRecord)>,
    position: int,
)
    requires
        0 <= position < records.len(),
        crate::fingerprint_cache::distinct_fingerprints(records),
    ensures
        crate::fingerprint_cache::distinct_fingerprints(
            crate::fingerprint_cache::used(records, position),
        ),
{
    let after = crate::fingerprint_cache::used(records, position);
    assert forall|i: int| 0 <= i < after.len() implies #[trigger] after[i] == records[if i
        < position {
        i
    } else if i < records.len() - 1 {
        i + 1
    } else {
        position
    }] by {}
}

/// Staging one program: what was held stays held, the shader of the program is held too,
/// and the records from the new position on are of the programs only.
proof fn lemma_program_staged(
    cache: CacheModel,
    programs: Seq<ProgramModel>,
    from: int,
    start: int,
) -> (next: int)
    requires
        0 <= from < programs.len(),
        0 <= start <= cache.shader_translations.len(),
        crate::fingerprint_cache::distinct_fingerprints(cache.shader_translations),
        only_of(cache.shader_translations, start, programs),
        fingerprints(programs).len() <= cache.shader_entries,
        cache.shader_staged(programs[from]).1 is Ok,
    ensures
        ({
            let (after, result) = cache.shader_staged(programs[from]);
            let records = after.shader_translations;
            &&& 0 <= next <= records.len()
            &&& after.shader_entries == cache.shader_entries
            &&& crate::fingerprint_cache::distinct_fingerprints(records)
            &&& only_of(records, next, programs)
            &&& held(records, next, programs[from].fingerprint, result->Ok_0)
            &&& forall|fingerprint: u128, shader: u64|
                held(cache.shader_translations, start, fingerprint, shader) ==> #[trigger] held(
                    records,
                    next,
                    fingerprint,
                    shader,
                )
        }),
{
    let records = cache.shader_translations;
    let program = programs[from];
    let (after, result) = cache.shader_staged(program);
    let now = after.shader_translations;
    lemma_fingerprint_listed(programs, from);
    crate::fingerprint_cache::lemma_fingerprint_position(records, program.fingerprint);
    match crate::fingerprint_cache::fingerprint_position(records, program.fingerprint) {
        Some(position) => {
            let next = if position < start {
                start - 1
            } else {
                start
            };
            lemma_distinct_after_use(records, position);
            assert(now[records.len() - 1] == records[position]);
            assert forall|p: int| #![trigger now[p]] next <= p < now.len() implies fingerprints(
                programs,
            ).contains(now[p].0) by {
                if p < now.len() - 1 {
                    if p < position {
                        assert(now[p] == records[p]);
                    } else {
                        assert(now[p] == records[p + 1]);
                    }
                }
            }
            assert forall|fingerprint: u128, shader: u64|
                held(records, start, fingerprint, shader) implies #[trigger] held(
                now,
                next,
                fingerprint,
                shader,
            ) by {
                lemma_held_after_use(records, position, start, fingerprint, shader);
            }
            next
        },
        None => {
            let id = result->Ok_0;
            let record = ShaderTranslationRecord {
                id,
                module_stage: program.module_stage,
                published: false,
            };
            let pushed = records.push((program.fingerprint, record));
            let taken = cache.identity_taken()->Ok_0.0;
            crate::lowering_cache::law_translation_storage_is_bounded(
                CacheModel { shader_translations: pushed, ..taken },
            );
            assert(now == crate::lowering_cache::within_limit(pushed, cache.shader_entries));
            lemma_room(records, start, programs, program.fingerprint);
            let dropped = pushed.len() - now.len();
            let next = start - dropped;
            assert forall|p: int| #![trigger now[p]] 0 <= p < now.len() implies now[p] == pushed[p
                + dropped] by {}
            assert(now[now.len() - 1] == (program.fingerprint, record));
            assert forall|fingerprint: u128, shader: u64|
                held(records, start, fingerprint, shader) implies #[trigger] held(
                now,
                next,
                fingerprint,
                shader,
            ) by {
                let p = choose|p: int|
                    start <= p < records.len() && (#[trigger] records[p]).0 == fingerprint
                        && records[p].1.id == shader;
                assert(now[p - dropped] == pushed[p]);
            }
            next
        },
    }
}

/// What staging programs leaves: the shaders extend those before, each is of its program
/// and held, and uses have distinct roles.
proof fn lemma_programs_staged(
    cache: CacheModel,
    programs: Seq<ProgramModel>,
    from: int,
    shaders: Seq<MaxwellThreeDTranslatedShader>,
    uses: Seq<MaxwellThreeDShaderResourceUse>,
    start: int,
)
    requires
        0 <= from <= programs.len(),
        shaders.len() == from,
        0 <= start <= cache.shader_translations.len(),
        crate::fingerprint_cache::distinct_fingerprints(cache.shader_translations),
        only_of(cache.shader_translations, start, programs),
        all_held(cache.shader_translations, start, programs, shaders),
        distinct_roles(uses),
        fingerprints(programs).len() <= cache.shader_entries,
        cache.programs_staged(programs, from, shaders, uses).1 is Ok,
    ensures
        ({
            let (after, result) = cache.programs_staged(programs, from, shaders, uses);
            let (staged, resources) = result->Ok_0;
            &&& staged.len() == programs.len()
            &&& crate::fingerprint_cache::distinct_fingerprints(after.shader_translations)
            &&& all_held(after.shader_translations, 0, programs, staged)
            &&& distinct_roles(resources)
        }),
    decreases programs.len() - from,
{
    if from < programs.len() {
        let program = programs[from];
        let (after, result) = cache.shader_staged(program);
        let id = result->Ok_0;
        let next = lemma_program_staged(cache, programs, from, start);
        let stages = crate::translated_shaders::shader_pipeline_stages(program.stage)->Ok_0;
        let added = crate::translated_shaders::uses_from(uses, program, stages, 0)->Ok_0;
        crate::translated_shaders::law_uses_have_distinct_roles(uses, program, stages, 0);
        let extended = shaders.push(program.translated(id));
        assert forall|i: int| #![trigger extended[i]] 0 <= i < extended.len() implies extended[i]
            == programs[i].translated(extended[i].shader) && held(
            after.shader_translations,
            next,
            programs[i].fingerprint,
            extended[i].shader,
        ) by {
            if i < from {
                assert(extended[i] == shaders[i]);
            }
        }
        lemma_programs_staged(after, programs, from + 1, extended, added, next);
    } else {
        let records = cache.shader_translations;
        assert forall|i: int| #![trigger shaders[i]] 0 <= i < shaders.len() implies shaders[i]
            == programs[i].translated(shaders[i].shader) && held(
            records,
            0,
            programs[i].fingerprint,
            shaders[i].shader,
        ) by {
            assert(held(records, start, programs[i].fingerprint, shaders[i].shader));
            let p = choose|p: int|
                start <= p < records.len() && (#[trigger] records[p]).0 == programs[i].fingerprint
                    && records[p].1.id == shaders[i].shader;
            assert(0 <= p && records[p].0 == programs[i].fingerprint);
        }
    }
}

/// Staging only adds to the shaders before.
proof fn lemma_staging_extends(
    cache: CacheModel,
    programs: Seq<ProgramModel>,
    from: int,
    shaders: Seq<MaxwellThreeDTranslatedShader>,
    uses: Seq<MaxwellThreeDShaderResourceUse>,
)
    requires
        cache.programs_staged(programs, from, shaders, uses).1 is Ok,
    ensures
        shaders.is_prefix_of(cache.programs_staged(programs, from, shaders, uses).1->Ok_0.0),
    decreases programs.len() - from,
{
    if 0 <= from < programs.len() {
        let program = programs[from];
        let (after, result) = cache.shader_staged(program);
        let stages = crate::translated_shaders::shader_pipeline_stages(program.stage)->Ok_0;
        let added = crate::translated_shaders::uses_from(uses, program, stages, 0)->Ok_0;
        let extended = shaders.push(program.translated(result->Ok_0));
        lemma_staging_extends(after, programs, from + 1, extended, added);
        assert(shaders.is_prefix_of(extended));
    } else {
        assert(shaders.is_prefix_of(shaders));
    }
}

/// Programs whose shaders are all held are staged to those shaders.
proof fn lemma_staged_again(
    first: CacheModel,
    second: CacheModel,
    programs: Seq<ProgramModel>,
    from: int,
    shaders: Seq<MaxwellThreeDTranslatedShader>,
    uses: Seq<MaxwellThreeDShaderResourceUse>,
    whole: Seq<MaxwellThreeDTranslatedShader>,
)
    requires
        0 <= from <= programs.len(),
        shaders.len() == from,
        whole.len() == programs.len(),
        first.programs_staged(programs, from, shaders, uses).1 matches Ok(found) && found.0
            == whole,
        crate::fingerprint_cache::distinct_fingerprints(second.shader_translations),
        all_held(second.shader_translations, 0, programs, whole),
    ensures
        second.programs_staged(programs, from, shaders, uses).1 == first.programs_staged(
            programs,
            from,
            shaders,
            uses,
        ).1,
    decreases programs.len() - from,
{
    if from < programs.len() {
        let program = programs[from];
        let (after, result) = first.shader_staged(program);
        let stages = crate::translated_shaders::shader_pipeline_stages(program.stage)->Ok_0;
        let added = crate::translated_shaders::uses_from(uses, program, stages, 0)->Ok_0;
        let extended = shaders.push(program.translated(result->Ok_0));
        lemma_staging_extends(after, programs, from + 1, extended, added);
        assert(whole[from] == extended[from]);
        let records = second.shader_translations;
        assert(held(records, 0, program.fingerprint, whole[from].shader));
        let p = choose|p: int|
            0 <= p < records.len() && (#[trigger] records[p]).0 == program.fingerprint
                && records[p].1.id == whole[from].shader;
        crate::fingerprint_cache::lemma_fingerprint_found(records, p);
        let again = second.shader_staged(program).0;
        lemma_distinct_after_use(records, p);
        assert forall|i: int| #![trigger whole[i]] 0 <= i < whole.len() implies whole[i]
            == programs[i].translated(whole[i].shader) && held(
            again.shader_translations,
            0,
            programs[i].fingerprint,
            whole[i].shader,
        ) by {
            lemma_held_after_use(records, p, 0, programs[i].fingerprint, whole[i].shader);
        }
        lemma_staged_again(after, again, programs, from + 1, extended, added, whole);
    }
}

/// Programs that were staged give the same shaders and resources when they are staged
/// again right after, as long as the cache has room for a translation of each fingerprint.
/// The shaders are in the order of the programs, with their stages, and no role occurs
/// twice among the resources.
pub proof fn law_staging_is_repeatable(
    cache: CacheModel,
    identity: u64,
    later_identity: u64,
    programs: Seq<ProgramModel>,
)
    requires
        cache.wf(),
        fingerprints(programs).len() <= cache.shader_entries,
        cache.translations_staged(identity, programs).1 is Ok,
    ensures
        ({
            let (after, result) = cache.translations_staged(identity, programs);
            let first = result->Ok_0;
            &&& after.translations_staged(later_identity, programs).1 matches Ok(second)
            &&& second.identity == later_identity
            &&& second.shaders == first.shaders
            &&& second.resources == first.resources
            &&& first.shaders.len() == programs.len()
            &&& forall|i: int|
                #![trigger first.shaders[i]]
                0 <= i < programs.len() ==> first.shaders[i] == programs[i].translated(
                    first.shaders[i].shader,
                ) && first.shaders[i].stage == programs[i].stage
            &&& distinct_roles(first.resources)
        }),
{
    let (after, result) = cache.translations_staged(identity, programs);
    let none = Seq::<MaxwellThreeDTranslatedShader>::empty();
    let unused = Seq::<MaxwellThreeDShaderResourceUse>::empty();
    lemma_programs_staged(
        cache,
        programs,
        0,
        none,
        unused,
        cache.shader_translations.len() as int,
    );
    let (shaders, resources) = cache.programs_staged(programs, 0, none, unused).1->Ok_0;
    lemma_staged_again(cache, after, programs, 0, none, unused, shaders);
}

} // verus!
