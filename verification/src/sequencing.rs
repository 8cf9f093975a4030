//! Order of commands and the transitions between them.

use vstd::prelude::*;
use crate::draw_plan::GpuCommand;
use crate::lowering_cache::{CacheModel, MaxwellThreeDLoweringCache};
use crate::lowering_error::MaxwellThreeDLoweringError;
use crate::neutral::{AccessScope, AccessTarget, ResourceAccess, ResourceTransition};
use crate::neutral_refusals::{NeutralConstruction, NeutralRefusals};

verus! {

/// A command with the accesses that lowering states for it.
#[derive(Debug)]
pub struct PlannedCommand {
    pub command: GpuCommand,
    pub accesses: Vec<ResourceAccess>,
}

/// Content of a planned command.
#[verifier::ext_equal]
pub struct CommandModel {
    pub command: GpuCommand,
    pub accesses: Seq<ResourceAccess>,
}

impl View for PlannedCommand {
    type V = CommandModel;

    open spec fn view(&self) -> CommandModel {
        CommandModel { command: self.command, accesses: self.accesses@ }
    }
}

/// A command in its place in a submission: the transitions form one barrier in front of
/// it, which is left out where there are none.
#[derive(Debug)]
pub struct SequencedOperation {
    pub transitions: Vec<ResourceTransition>,
    pub command: GpuCommand,
}

/// Content of a sequenced operation.
#[verifier::ext_equal]
pub struct OperationModel {
    pub transitions: Seq<ResourceTransition>,
    pub command: GpuCommand,
}

impl View for SequencedOperation {
    type V = OperationModel;

    open spec fn view(&self) -> OperationModel {
        OperationModel { transitions: self.transitions@, command: self.command }
    }
}

pub open spec fn command_models(commands: Seq<PlannedCommand>) -> Seq<CommandModel> {
    commands.map_values(|command: PlannedCommand| command@)
}

pub open spec fn operation_models(operations: Seq<SequencedOperation>) -> Seq<OperationModel> {
    operations.map_values(|operation: SequencedOperation| operation@)
}

/// Whether an entry is of a target.
pub open spec fn is_target(target: AccessTarget) -> spec_fn((AccessTarget, AccessScope)) -> bool {
    |access: (AccessTarget, AccessScope)| access.0 == target
}

/// Scope in which a target was accessed last.
pub open spec fn last_scope(
    accesses: Seq<(AccessTarget, AccessScope)>,
    target: AccessTarget,
) -> Option<AccessScope> {
    match crate::lists::first_where(accesses, is_target(target)) {
        Some(position) => Some(accesses[position].1),
        None => None,
    }
}

#[verifier::loop_isolation(false)]
fn find_target(accesses: &Vec<(AccessTarget, AccessScope)>, target: AccessTarget) -> (r: Option<usize>)
    ensures
        match r {
            Some(position) => position < accesses@.len() && crate::lists::first_where(
                accesses@,
                is_target(target),
            ) == Some(position as int),
            None => crate::lists::first_where(accesses@, is_target(target)) is None,
        },
{
    let ghost wanted = is_target(target);
    let mut index: usize = 0;
    while index < accesses.len()
        invariant
            index <= accesses@.len(),
            forall|i: int|
                #![trigger accesses@[i]]
                0 <= i < index ==> !wanted(accesses@[i]),
        decreases accesses@.len() - index,
    {
        if accesses[index].0 == target {
            proof {
                crate::lists::lemma_first_where_at(accesses@, wanted, index as int);
            }
            return Some(index);
        }
        index = index + 1;
    }
    proof {
        crate::lists::lemma_first_where_at(accesses@, wanted, index as int);
    }
    None
}

/// Transitions that the accesses of a command need after those found so far, from an
/// access on: one for every target whose last scope is another, unless it is refused.
pub open spec fn transitions_from(
    known: Seq<(AccessTarget, AccessScope)>,
    accesses: Seq<ResourceAccess>,
    refusals: &NeutralRefusals,
    command: usize,
    from: int,
    found: Seq<ResourceTransition>,
) -> Result<Seq<ResourceTransition>, MaxwellThreeDLoweringError>
    decreases accesses.len() - from,
{
    if from < 0 || from >= accesses.len() {
        Ok(found)
    } else {
        let access = accesses[from];
        match last_scope(known, access.target) {
            Some(before) => if before == access.scope {
                transitions_from(known, accesses, refusals, command, from + 1, found)
            } else if refusals.reason(
                NeutralConstruction::Transition { command, access: from as usize },
            ) is Some {
                Err(MaxwellThreeDLoweringError::InvalidTransition)
            } else {
                transitions_from(
                    known,
                    accesses,
                    refusals,
                    command,
                    from + 1,
                    found.push(
                        ResourceTransition { target: access.target, before, after: access.scope },
                    ),
                )
            },
            None => transitions_from(known, accesses, refusals, command, from + 1, found),
        }
    }
}

#[verifier::loop_isolation(false)]
fn find_transitions(
    known: &Vec<(AccessTarget, AccessScope)>,
    accesses: &Vec<ResourceAccess>,
    refusals: &NeutralRefusals,
    command: usize,
) -> (r: Result<Vec<ResourceTransition>, MaxwellThreeDLoweringError>)
    ensures
        match transitions_from(known@, accesses@, refusals, command, 0, Seq::empty()) {
            Ok(transitions) => r matches Ok(found) && found@ == transitions,
            Err(error) => r == Err::<Vec<ResourceTransition>, MaxwellThreeDLoweringError>(error),
        },
{
    let mut found: Vec<ResourceTransition> = Vec::new();
    let mut index: usize = 0;
    while index < accesses.len()
        invariant
            index <= accesses@.len(),
            transitions_from(known@, accesses@, refusals, command, 0, Seq::empty())
                == transitions_from(known@, accesses@, refusals, command, index as int, found@),
        decreases accesses@.len() - index,
    {
        let access = accesses[index];
        if let Some(position) = find_target(known, access.target) {
            let before = known[position].1;
            if before != access.scope {
                if refusals.reason(
                    NeutralConstruction::Transition { command, access: index },
                ).is_some() {
                    return Err(MaxwellThreeDLoweringError::InvalidTransition);
                }
                found.push(
                    ResourceTransition { target: access.target, before, after: access.scope },
                );
            }
        }
        index = index + 1;
    }
    Ok(found)
}

/// Barrier in front of a command: the transitions that its accesses need, which must not be
/// refused together either.
pub open spec fn barrier(
    known: Seq<(AccessTarget, AccessScope)>,
    accesses: Seq<ResourceAccess>,
    refusals: &NeutralRefusals,
    command: usize,
) -> Result<Seq<ResourceTransition>, MaxwellThreeDLoweringError> {
    match transitions_from(known, accesses, refusals, command, 0, Seq::empty()) {
        Err(error) => Err(error),
        Ok(transitions) => if transitions.len() == 0 {
            Ok(transitions)
        } else {
            match refusals.reason(NeutralConstruction::Barrier { command }) {
                Some(reason) => Err(MaxwellThreeDLoweringError::Command(reason)),
                None => Ok(transitions),
            }
        },
    }
}

fn find_barrier(
    known: &Vec<(AccessTarget, AccessScope)>,
    accesses: &Vec<ResourceAccess>,
    refusals: &NeutralRefusals,
    command: usize,
) -> (r: Result<Vec<ResourceTransition>, MaxwellThreeDLoweringError>)
    ensures
        match barrier(known@, accesses@, refusals, command) {
            Ok(transitions) => r matches Ok(found) && found@ == transitions,
            Err(error) => r == Err::<Vec<ResourceTransition>, MaxwellThreeDLoweringError>(error),
        },
{
    let transitions: Vec<ResourceTransition> = match find_transitions(
        known,
        accesses,
        refusals,
        command,
    ) {
        Ok(transitions) => transitions,
        Err(error) => {
            return Err(error);
        },
    };
    if transitions.len() > 0 {
        if let Some(reason) = refusals.reason(NeutralConstruction::Barrier { command }) {
            return Err(MaxwellThreeDLoweringError::Command(reason));
        }
    }
    Ok(transitions)
}

/// Known accesses after one more: its target is known by its scope.
pub open spec fn access_recorded(
    known: Seq<(AccessTarget, AccessScope)>,
    access: ResourceAccess,
) -> Seq<(AccessTarget, AccessScope)> {
    match crate::lists::first_where(known, is_target(access.target)) {
        Some(position) => known.update(position, (access.target, access.scope)),
        None => known.push((access.target, access.scope)),
    }
}

/// Known accesses after those from one on.
pub open spec fn accesses_recorded(
    known: Seq<(AccessTarget, AccessScope)>,
    accesses: Seq<ResourceAccess>,
    from: int,
) -> Seq<(AccessTarget, AccessScope)>
    decreases accesses.len() - from,
{
    if from < 0 || from >= accesses.len() {
        known
    } else {
        accesses_recorded(access_recorded(known, accesses[from]), accesses, from + 1)
    }
}

#[verifier::loop_isolation(false)]
fn record_accesses(known: &mut Vec<(AccessTarget, AccessScope)>, accesses: &Vec<ResourceAccess>)
    ensures
        final(known)@ == accesses_recorded(old(known)@, accesses@, 0),
{
    let ghost whole = accesses_recorded(known@, accesses@, 0);
    let mut index: usize = 0;
    while index < accesses.len()
        invariant
            index <= accesses@.len(),
            whole == accesses_recorded(known@, accesses@, index as int),
        decreases accesses@.len() - index,
    {
        let access = accesses[index];
        match find_target(known, access.target) {
            Some(position) => known.set(position, (access.target, access.scope)),
            None => known.push((access.target, access.scope)),
        }
        index = index + 1;
    }
}

/// Known accesses and operations after commands from one on. A refused barrier ends the
/// sequence, with the accesses of the commands before it known.
pub open spec fn sequenced(
    known: Seq<(AccessTarget, AccessScope)>,
    commands: Seq<CommandModel>,
    refusals: &NeutralRefusals,
    from: int,
    operations: Seq<OperationModel>,
) -> (
    Seq<(AccessTarget, AccessScope)>,
    Result<Seq<OperationModel>, MaxwellThreeDLoweringError>,
)
    decreases commands.len() - from,
{
    if from < 0 || from >= commands.len() {
        (known, Ok(operations))
    } else {
        let command = commands[from];
        match barrier(known, command.accesses, refusals, from as usize) {
            Err(error) => (known, Err(error)),
            Ok(transitions) => sequenced(
                accesses_recorded(known, command.accesses, 0),
                commands,
                refusals,
                from + 1,
                operations.push(OperationModel { transitions, command: command.command }),
            ),
        }
    }
}

/// Puts commands in order, with the transitions that their accesses need, and remembers
/// the scope in which every target was accessed last.
#[verifier::loop_isolation(false)]
pub fn sequence_with_transitions(
    commands: &Vec<PlannedCommand>,
    refusals: &NeutralRefusals,
    cache: &mut MaxwellThreeDLoweringCache,
) -> (r: Result<Vec<SequencedOperation>, MaxwellThreeDLoweringError>)
    ensures
        ({
            let (accesses, result) = sequenced(
                old(cache)@.accesses,
                command_models(commands@),
                refusals,
                0,
                Seq::empty(),
            );
            &&& match result {
                Ok(operations) => r matches Ok(found) && operation_models(found@) == operations,
                Err(error) => r == Err::<Vec<SequencedOperation>, MaxwellThreeDLoweringError>(
                    error,
                ),
            }
            &&& final(cache)@ == (CacheModel { accesses, ..old(cache)@ })
        }),
{
    let ghost models = command_models(commands@);
    let ghost before = cache@;
    let ghost whole = sequenced(before.accesses, models, refusals, 0, Seq::empty());
    let mut operations: Vec<SequencedOperation> = Vec::new();
    let mut index: usize = 0;
    proof {
        assert(operation_models(operations@) =~= Seq::empty());
    }
    while index < commands.len()
        invariant
            index <= commands@.len(),
            cache@ == (CacheModel { accesses: cache@.accesses, ..before }),
            whole == sequenced(
                cache@.accesses,
                models,
                refusals,
                index as int,
                operation_models(operations@),
            ),
        decreases commands@.len() - index,
    {
        let ghost earlier = operation_models(operations@);
        proof {
            assert(models[index as int] == commands@[index as int]@);
        }
        let transitions: Vec<ResourceTransition> = match find_barrier(
            &cache.accesses,
            &commands[index].accesses,
            refusals,
            index,
        ) {
            Ok(transitions) => transitions,
            Err(error) => {
                return Err(error);
            },
        };
        record_accesses(&mut cache.accesses, &commands[index].accesses);
        let operation = SequencedOperation { transitions, command: commands[index].command };
        let ghost model = operation@;
        operations.push(operation);
        proof {
            assert(operation_models(operations@) =~= earlier.push(model));
        }
        index = index + 1;
    }
    Ok(operations)
}

/// Recording an access makes its scope the last of its target and changes no other.
pub proof fn law_last_scope_is_recorded(
    known: Seq<(AccessTarget, AccessScope)>,
    access: ResourceAccess,
    other: AccessTarget,
)
    ensures
        last_scope(access_recorded(known, access), access.target) == Some(access.scope),
        other != access.target ==> last_scope(access_recorded(known, access), other) == last_scope(
            known,
            other,
        ),
{
    let wanted = is_target(access.target);
    let after = access_recorded(known, access);
    crate::lists::lemma_first_where(known, wanted);
    match crate::lists::first_where(known, wanted) {
        Some(position) => {
            crate::lists::lemma_first_where_at(after, wanted, position);
        },
        None => {
            crate::lists::lemma_first_where_at(after, wanted, known.len() as int);
        },
    }
    if other != access.target {
        let sought = is_target(other);
        crate::lists::lemma_first_where(known, sought);
        match crate::lists::first_where(known, sought) {
            Some(found) => {
                assert forall|i: int|
                    #![trigger after[i]]
                    0 <= i < found implies !sought(after[i]) by {
                    assert(!sought(known[i]));
                }
                assert(sought(known[found]));
                crate::lists::lemma_first_where_at(after, sought, found);
            },
            None => {
                assert forall|i: int|
                    #![trigger after[i]]
                    0 <= i < after.len() implies !sought(after[i]) by {
                    if i < known.len() {
                        assert(!sought(known[i]));
                    }
                }
                crate::lists::lemma_first_where_at(after, sought, after.len() as int);
            },
        }
    }
}

/// A transition always starts in the scope in which its target was accessed last, and
/// leads to another scope.
pub proof fn law_transitions_start_in_last_scope(
    known: Seq<(AccessTarget, AccessScope)>,
    accesses: Seq<ResourceAccess>,
    refusals: &NeutralRefusals,
    command: usize,
    from: int,
    found: Seq<ResourceTransition>,
)
    requires
        0 <= from <= accesses.len(),
        forall|i: int|
            #![trigger found[i]]
            0 <= i < found.len() ==> last_scope(known, found[i].target) == Some(found[i].before)
                && found[i].before != found[i].after,
    ensures
        transitions_from(known, accesses, refusals, command, from, found) matches Ok(all)
            ==> forall|i: int|
            #![trigger all[i]]
            0 <= i < all.len() ==> last_scope(known, all[i].target) == Some(all[i].before)
                && all[i].before != all[i].after,
    decreases accesses.len() - from,
{
    if from < accesses.len() {
        let access = accesses[from];
        match last_scope(known, access.target) {
            Some(before) => if before != access.scope {
                law_transitions_start_in_last_scope(
                    known,
                    accesses,
                    refusals,
                    command,
                    from + 1,
                    found.push(
                        ResourceTransition { target: access.target, before, after: access.scope },
                    ),
                );
            } else {
                law_transitions_start_in_last_scope(
                    known,
                    accesses,
                    refusals,
                    command,
                    from + 1,
                    found,
                );
            },
            None => law_transitions_start_in_last_scope(
                    known,
                    accesses,
                    refusals,
                    command,
                    from + 1,
                    found,
                ),
        }
    }
}

/// Sequencing adds, drops and reorders no command.
pub proof fn law_commands_keep_their_order(
    known: Seq<(AccessTarget, AccessScope)>,
    commands: Seq<CommandModel>,
    refusals: &NeutralRefusals,
    from: int,
    operations: Seq<OperationModel>,
)
    requires
        0 <= from <= commands.len(),
        operations.len() == from,
        forall|i: int|
            #![trigger operations[i]]
            0 <= i < from ==> operations[i].command == commands[i].command,
    ensures
        sequenced(known, commands, refusals, from, operations).1 matches Ok(all) ==> {
            &&& all.len() == commands.len()
            &&& forall|i: int|
                #![trigger all[i]]
                0 <= i < all.len() ==> all[i].command == commands[i].command
        },
    decreases commands.len() - from,
{
    if from < commands.len() {
        let command = commands[from];
        if let Ok(transitions) = barrier(known, command.accesses, refusals, from as usize) {
            law_commands_keep_their_order(
                accesses_recorded(known, command.accesses, 0),
                commands,
                refusals,
                from + 1,
                operations.push(OperationModel { transitions, command: command.command }),
            );
        }
    }
}

/// A command that accesses every target in its last scope needs no transition.
pub proof fn law_same_scope_needs_no_transition(
    known: Seq<(AccessTarget, AccessScope)>,
    accesses: Seq<ResourceAccess>,
    refusals: &NeutralRefusals,
    command: usize,
    from: int,
    found: Seq<ResourceTransition>,
)
    requires
        0 <= from <= accesses.len(),
        forall|i: int|
            #![trigger accesses[i]]
            from <= i < accesses.len() ==> last_scope(known, accesses[i].target) == Some(
                accesses[i].scope,
            ),
    ensures
        transitions_from(known, accesses, refusals, command, from, found) == Ok::<
            Seq<ResourceTransition>,
            MaxwellThreeDLoweringError,
        >(found),
    decreases accesses.len() - from,
{
    if from < accesses.len() {
        assert(last_scope(known, accesses[from].target) == Some(accesses[from].scope));
        law_same_scope_needs_no_transition(
            known,
            accesses,
            refusals,
            command,
            from + 1,
            found,
        );
    }
}

} // verus!
