//! Negotiation of lowered work with a backend.

use vstd::prelude::*;
use crate::dispatch::MaxwellThreeDOperationTrigger;
use crate::draw_plan::ResourceCreation;
use crate::draw_validation::MaxwellThreeDDrawFacts;
use crate::lowering::{lower_maxwell_three_d_operation_into_cache, MaxwellThreeDLoweredWork};
use crate::lowering_cache::MaxwellThreeDLoweringCache;
use crate::lowering_error::MaxwellThreeDLoweringError;
use crate::resource::MaxwellThreeDResolvedResources;
use crate::state::MaxwellThreeDState;
use crate::translated_shaders::MaxwellThreeDTranslatedShaders;

verus! {

/// Verdict of a backend on one object to create: it can, the object asks for nothing that
/// a backend defines, or the backend refuses, with its reason.
#[derive(Clone, Copy, Debug, PartialEq, Eq)]
pub enum CreationVerdict {
    Supported,
    Undefined,
    Refused(&'static str),
}

/// Outcome of the verdicts on objects to create, from one of them on: the first that is
/// not support decides.
pub open spec fn creations_negotiated(verdicts: Seq<CreationVerdict>, from: int) -> Result<
    (),
    MaxwellThreeDLoweringError,
>
    decreases verdicts.len() - from,
{
    if from < 0 || from >= verdicts.len() {
        Ok(())
    } else {
        match verdicts[from] {
            CreationVerdict::Supported => creations_negotiated(verdicts, from + 1),
            CreationVerdict::Undefined => Err(MaxwellThreeDLoweringError::InvalidResourceCreation),
            CreationVerdict::Refused(reason) => Err(MaxwellThreeDLoweringError::Capability(reason)),
        }
    }
}

/// Outcome of the verdicts on lowered work: objects first, then the submission.
pub open spec fn work_negotiated(
    creations: Seq<CreationVerdict>,
    submission_refusal: Option<&'static str>,
) -> Result<(), MaxwellThreeDLoweringError> {
    match creations_negotiated(creations, 0) {
        Err(error) => Err(error),
        Ok(()) => match submission_refusal {
            Some(reason) => Err(MaxwellThreeDLoweringError::Capability(reason)),
            None => Ok(()),
        },
    }
}

/// Admits lowered work on the verdicts of a backend: one for each object to create, in
/// order, and a reason where the backend refuses the submission.
pub fn negotiate_lowered_work(
    work: MaxwellThreeDLoweredWork,
    creations: &Vec<CreationVerdict>,
    submission_refusal: Option<&'static str>,
) -> (r: Result<MaxwellThreeDLoweredWork, MaxwellThreeDLoweringError>)
    requires
        creations@.len() == work@.creations.len(),
    ensures
        match work_negotiated(creations@, submission_refusal) {
            Ok(()) => r == Ok::<MaxwellThreeDLoweredWork, MaxwellThreeDLoweringError>(work),
            Err(error) => r == Err::<MaxwellThreeDLoweredWork, MaxwellThreeDLoweringError>(error),
        },
{
    let mut index: usize = 0;
    while index < creations.len()
        invariant
            index <= creations@.len(),
            creations_negotiated(creations@, 0) == creations_negotiated(creations@, index as int),
        decreases creations@.len() - index,
    {
        match creations[index] {
            CreationVerdict::Supported => {},
            CreationVerdict::Undefined => {
                return Err(MaxwellThreeDLoweringError::InvalidResourceCreation);
            },
            CreationVerdict::Refused(reason) => {
                return Err(MaxwellThreeDLoweringError::Capability(reason));
            },
        }
        index = index + 1;
    }
    match submission_refusal {
        Some(reason) => Err(MaxwellThreeDLoweringError::Capability(reason)),
        None => Ok(work),
    }
}

/// The verdicts are answers of the backend on the objects, in order.
pub open spec fn verdicts_given<C: Fn(&ResourceCreation) -> CreationVerdict>(
    creation_verdict: C,
    creations: Seq<ResourceCreation>,
    verdicts: Seq<CreationVerdict>,
) -> bool {
    &&& verdicts.len() == creations.len()
    &&& forall|i: int|
        0 <= i < creations.len() ==> call_ensures(
            creation_verdict,
            (&creations[i],),
            #[trigger] verdicts[i],
        )
}

/// The refusal is an answer of the backend on the work.
pub open spec fn refusal_given<S: Fn(&MaxwellThreeDLoweredWork) -> Option<&'static str>>(
    submission_refusal: S,
    work: MaxwellThreeDLoweredWork,
    refusal: Option<&'static str>,
) -> bool {
    call_ensures(submission_refusal, (&work,), refusal)
}

/// Outcome of lowered work on some answers of the backend.
pub open spec fn work_admitted<
    C: Fn(&ResourceCreation) -> CreationVerdict,
    S: Fn(&MaxwellThreeDLoweredWork) -> Option<&'static str>,
>(
    creation_verdict: C,
    submission_refusal: S,
    work: MaxwellThreeDLoweredWork,
    outcome: Result<MaxwellThreeDLoweredWork, MaxwellThreeDLoweringError>,
) -> bool {
    exists|verdicts: Seq<CreationVerdict>, refusal: Option<&'static str>|
        {
            &&& #[trigger] verdicts_given(creation_verdict, work.creations@, verdicts)
            &&& #[trigger] refusal_given(submission_refusal, work, refusal)
            &&& match work_negotiated(verdicts, refusal) {
                Ok(()) => outcome == Ok::<MaxwellThreeDLoweredWork, MaxwellThreeDLoweringError>(
                    work,
                ),
                Err(error) => outcome == Err::<
                    MaxwellThreeDLoweredWork,
                    MaxwellThreeDLoweringError,
                >(error),
            }
        }
}

/// Lowers a trigger and admits the work on the answers of a backend, which is asked about
/// every object to create and then about the submission. Work that is refused was lowered:
/// the cache has changed and counted it.
pub fn lower_maxwell_three_d_operation<
    C: Fn(&ResourceCreation) -> CreationVerdict,
    S: Fn(&MaxwellThreeDLoweredWork) -> Option<&'static str>,
>(
    state: &MaxwellThreeDState,
    facts: &MaxwellThreeDDrawFacts,
    resources: &MaxwellThreeDResolvedResources,
    trigger: MaxwellThreeDOperationTrigger,
    shaders: Option<&MaxwellThreeDTranslatedShaders>,
    current: &Vec<u64>,
    id: u64,
    predecessors: Vec<u64>,
    creation_verdict: C,
    submission_refusal: S,
    cache: &mut MaxwellThreeDLoweringCache,
) -> (r: Result<MaxwellThreeDLoweredWork, MaxwellThreeDLoweringError>)
    requires
        old(cache).wf(),
        resources.wf(),
        forall|creation: &ResourceCreation| call_requires(creation_verdict, (creation,)),
        forall|work: &MaxwellThreeDLoweredWork| call_requires(submission_refusal, (work,)),
    ensures
        final(cache).wf(),
        ({
            let (after, result) = crate::lowering::work_lowered(
                state,
                facts,
                crate::lowering::resources_model(resources),
                trigger,
                crate::lowering::shaders_model(shaders),
                current@,
                id,
                predecessors@,
                old(cache)@,
            );
            &&& final(cache)@ == after
            &&& match result {
                Ok(model) => exists|work: MaxwellThreeDLoweredWork|
                    {
                        &&& work@ == model
                        &&& #[trigger] work_admitted(creation_verdict, submission_refusal, work, r)
                    },
                Err(error) => r == Err::<MaxwellThreeDLoweredWork, MaxwellThreeDLoweringError>(
                    error,
                ),
            }
        }),
{
    let work = match lower_maxwell_three_d_operation_into_cache(
        state,
        facts,
        resources,
        trigger,
        shaders,
        current,
        id,
        predecessors,
        cache,
    ) {
        Ok(work) => work,
        Err(error) => {
            return Err(error);
        },
    };
    let mut verdicts: Vec<CreationVerdict> = Vec::new();
    let mut index: usize = 0;
    while index < work.creations.len()
        invariant
            index <= work.creations@.len(),
            verdicts@.len() == index,
            forall|creation: &ResourceCreation| call_requires(creation_verdict, (creation,)),
            forall|i: int|
                0 <= i < index ==> call_ensures(
                    creation_verdict,
                    (&work.creations@[i],),
                    #[trigger] verdicts@[i],
                ),
        decreases work.creations@.len() - index,
    {
        verdicts.push(creation_verdict(&work.creations[index]));
        index = index + 1;
    }
    let refusal = submission_refusal(&work);
    let ghost lowered = work;
    let outcome = negotiate_lowered_work(work, &verdicts, refusal);
    proof {
        assert(verdicts_given(creation_verdict, lowered.creations@, verdicts@));
        assert(refusal_given(submission_refusal, lowered, refusal));
        assert(work_admitted(creation_verdict, submission_refusal, lowered, outcome));
    }
    outcome
}

/// Objects pass from some position on exactly when each of them is supported.
proof fn lemma_creations_pass(verdicts: Seq<CreationVerdict>, from: int)
    requires
        0 <= from <= verdicts.len(),
    ensures
        creations_negotiated(verdicts, from) is Ok <==> forall|i: int|
            from <= i < verdicts.len() ==> #[trigger] verdicts[i] == CreationVerdict::Supported,
    decreases verdicts.len() - from,
{
    if from < verdicts.len() {
        lemma_creations_pass(verdicts, from + 1);
        if creations_negotiated(verdicts, from) is Ok {
            assert forall|i: int| from <= i < verdicts.len() implies #[trigger] verdicts[i]
                == CreationVerdict::Supported by {
                if i > from {
                    assert(from + 1 <= i);
                }
            }
        }
    }
}

/// Work is admitted exactly when every object is supported and the submission is not
/// refused.
pub proof fn law_admitted_work_is_supported(
    creations: Seq<CreationVerdict>,
    submission_refusal: Option<&'static str>,
)
    ensures
        work_negotiated(creations, submission_refusal) is Ok <==> submission_refusal is None
            && forall|i: int|
            0 <= i < creations.len() ==> #[trigger] creations[i] == CreationVerdict::Supported,
{
    lemma_creations_pass(creations, 0);
}

} // verus!
