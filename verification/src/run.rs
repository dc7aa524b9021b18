//! Running one event: a single step, and a batch of steps up to the next
//! halt, the end of the event, or the first error.

use vstd::prelude::*;
use std::collections::HashMap;
use crate::ast::{find, NodeType, GUID};
use crate::call::{
    call_step,
    finish_operation,
    gather_inputs,
    operation_return,
    request_of,
    returned_view,
    step_call,
};
use crate::error::{VmError, VmErrorView, VmOperationError};
use crate::event::{current_node, EventView, VmEvent};
use crate::operation::{find_operation, names_of, VmOperation};
use crate::program::CompiledProgram;
use crate::step::{
    control_step,
    data_step,
    failed,
    is_control,
    status_view,
    step_control,
    step_data,
    Outcome,
    VmStepStatus,
};
use crate::value::{CellView, Heap, Reference};

verus! {

/// What stays the same while events run: the compiled program, the cells of
/// the global variables, and the names under which operations are
/// registered.
pub struct Scene {
    pub program: CompiledProgram,
    pub globals: Map<GUID, Reference>,
    pub names: Seq<Seq<char>>,
}

/// The store and one event at one moment.
pub struct Moment {
    pub heap: Seq<CellView>,
    pub event: EventView,
}

/// The moment that a step ends in.
pub open spec fn moment_of(outcome: Outcome) -> Moment {
    Moment { heap: outcome.heap, event: outcome.event }
}

/// Whether one step can lead from `before` to `outcome`.
///
/// An event with no node to run stops and nothing changes. A step over a
/// node other than an operation call has one outcome. An operation call
/// that cannot be made fails and nothing changes; one that is made ends as
/// the operation's return value and the store that the operation leaves
/// decide, whatever they are.
#[verifier::opaque]
pub open spec fn step_relation(scene: Scene, before: Moment, outcome: Outcome) -> bool {
    match current_node(scene.program, before.event) {
        None => outcome == (Outcome {
            heap: before.heap,
            event: before.event,
            result: Ok(VmStepStatus::Stop),
        }),
        Some(node) => match node.node_type {
            NodeType::CallOperation(reference) => match request_of(
                scene.program,
                scene.names,
                before.event,
                node,
                reference@,
            ) {
                Err(error) => outcome == failed(before.heap, before.event, error),
                Ok(request) => exists|returned: Result<Seq<Reference>, VmOperationError>|
                    outcome == #[trigger] operation_return(
                        scene.program,
                        outcome.heap,
                        before.event,
                        node,
                        request.operation,
                        returned,
                    ),
            },
            NodeType::CallFunction(_) | NodeType::CallMethod(_, _) => outcome == call_step(
                scene.program,
                before.heap,
                before.event,
                node,
            ),
            _ => if is_control(node.node_type) {
                outcome == control_step(scene.program, before.heap, before.event, node)
            } else {
                outcome == data_step(scene.program, scene.globals, before.heap, before.event, node)
            },
        },
    }
}

/// A step that fails leaves the event as it was: it stays where it stood
/// and can be stepped again.
pub proof fn lemma_failed_step_keeps_event(scene: Scene, before: Moment, outcome: Outcome)
    requires
        step_relation(scene, before, outcome),
        outcome.result is Err,
    ensures
        outcome.event == before.event,
{
    reveal(step_relation);
}

/// A step over a node other than an operation call, and a step that fails
/// before an operation is called, has one outcome: whatever a step can lead
/// to is then the same.
pub proof fn lemma_step_is_determined(scene: Scene, before: Moment, first: Outcome, second: Outcome)
    requires
        step_relation(scene, before, first),
        step_relation(scene, before, second),
        match current_node(scene.program, before.event) {
            Some(node) => node.node_type matches NodeType::CallOperation(reference) ==> request_of(
                scene.program,
                scene.names,
                before.event,
                node,
                reference@,
            ) is Err,
            None => true,
        },
    ensures
        first == second,
{
    reveal(step_relation);
}

/// Whether the step from moment `i` of `trace` to the next ends with more
/// to do.
pub open spec fn continues_at(scene: Scene, trace: Seq<Moment>, i: int) -> bool {
    step_relation(
        scene,
        trace[i],
        Outcome {
            heap: trace[i + 1].heap,
            event: trace[i + 1].event,
            result: Ok(VmStepStatus::Continue),
        },
    )
}

/// Whether `trace` is a run: it starts at `before`, and a step that ends
/// with more to do leads from each of its moments to the next.
pub open spec fn is_run(scene: Scene, before: Moment, trace: Seq<Moment>) -> bool {
    &&& trace.len() > 0
    &&& trace[0] == before
    &&& forall|i: int| 0 <= i < trace.len() - 1 ==> #[trigger] continues_at(scene, trace, i)
}

/// What a batch reports for the result of the step that ends it: whether the
/// event is still running, or the error.
pub open spec fn ending(result: Result<VmStepStatus, VmErrorView>) -> Result<bool, VmErrorView> {
    match result {
        Ok(VmStepStatus::Stop) => Ok(false),
        Ok(_) => Ok(true),
        Err(error) => Err(error),
    }
}

/// Whether a batch of at most `budget` steps can lead from `before` to
/// `after` with the report `result`: a run of steps that each end with more
/// to do, and then either the budget is used up and the event is still
/// running, or one more step halts, stops or fails.
pub open spec fn ran(
    scene: Scene,
    before: Moment,
    after: Moment,
    result: Result<bool, VmErrorView>,
    budget: nat,
) -> bool {
    exists|trace: Seq<Moment>| #[trigger]
        is_run(scene, before, trace) && trace.len() <= budget + 1 && ended(
            scene,
            trace.last(),
            after,
            result,
            trace.len() == budget + 1,
        )
}

/// Whether a batch that has come to `last` ends in `after` with the report
/// `result`: with the budget used up it ends there, still running; else one
/// more step halts, stops or fails.
pub open spec fn ended(
    scene: Scene,
    last: Moment,
    after: Moment,
    result: Result<bool, VmErrorView>,
    used_up: bool,
) -> bool {
    if used_up {
        after == last && result == Ok::<bool, VmErrorView>(true)
    } else {
        exists|outcome: Outcome| #[trigger]
            step_relation(scene, last, outcome) && outcome.result != Ok::<
                VmStepStatus,
                VmErrorView,
            >(VmStepStatus::Continue) && after == moment_of(outcome) && result == ending(
                outcome.result,
            )
    }
}

/// The view of the report of a batch.
pub open spec fn report_view(result: Result<bool, VmError>) -> Result<bool, VmErrorView> {
    match result {
        Ok(running) => Ok(running),
        Err(error) => Err(error@),
    }
}

/// Executes the node at the instruction pointer of `event`.
///
/// A step that fails leaves the event as it was. The store may then hold
/// new cells that nothing names, and what a native operation did to it
/// before the failure stays.
pub fn step_event<O: VmOperation>(
    program: &CompiledProgram,
    globals: &HashMap<GUID, Reference>,
    operations: &mut Vec<(String, O)>,
    heap: &mut Heap,
    event: &mut VmEvent,
) -> (result: Result<VmStepStatus, VmError>)
    ensures
        step_relation(
            Scene { program: *program, globals: globals@, names: names_of(old(operations)@) },
            Moment { heap: old(heap)@, event: old(event)@ },
            Outcome { heap: final(heap)@, event: final(event)@, result: status_view(result) },
        ),
        names_of(final(operations)@) == names_of(old(operations)@),
{
    proof {
        reveal(step_relation);
    }
    let node = match event.get_current_node(program) {
        Some(node) => node,
        None => {
            return Ok(VmStepStatus::Stop);
        },
    };
    match &node.node_type {
        NodeType::CallOperation(reference) => {
            let o = match find(&program.ast.operations, reference) {
                Some(o) => o,
                None => {
                    return Err(VmError::OperationDoesNotExists(reference.clone()));
                },
            };
            let operation = &program.ast.operations[o];
            let slot = match find_operation(operations, &operation.name) {
                Some(slot) => slot,
                None => {
                    return Err(VmError::OperationIsNotRegistered(operation.name.clone()));
                },
            };
            let inputs = gather_inputs(event, node)?;
            if operation.input_constrains.len() != inputs.len() {
                return Err(
                    VmError::WrongNumberOfInputs(operation.input_constrains.len(), inputs.len()),
                );
            }
            let returned = operations[slot].1.execute(heap, &inputs);
            assert(names_of(operations@) =~= names_of(old(operations)@));
            let ghost view = returned_view(returned);
            let result = finish_operation(program, heap, event, node, operation, returned);
            assert((Outcome { heap: heap@, event: event@, result: status_view(result) })
                == operation_return(*program, heap@, old(event)@, *node, *operation, view));
            result
        },
        NodeType::CallFunction(_) | NodeType::CallMethod(_, _) => step_call(
            program,
            heap,
            event,
            node,
        ),
        NodeType::Halt | NodeType::Loop(_) | NodeType::IfElse(_) | NodeType::Break
        | NodeType::Continue => step_control(program, heap, event, node),
        _ => step_data(program, globals, heap, event, node),
    }
}

/// Steps `event` until it halts, stops or fails, at most `budget` times.
/// Returns whether the event is still running: it is after a halt and where
/// the budget is used up, and it is not once there is nothing left to run.
pub fn process_event<O: VmOperation>(
    program: &CompiledProgram,
    globals: &HashMap<GUID, Reference>,
    operations: &mut Vec<(String, O)>,
    heap: &mut Heap,
    event: &mut VmEvent,
    budget: usize,
) -> (result: Result<bool, VmError>)
    ensures
        ran(
            Scene { program: *program, globals: globals@, names: names_of(old(operations)@) },
            Moment { heap: old(heap)@, event: old(event)@ },
            Moment { heap: final(heap)@, event: final(event)@ },
            report_view(result),
            budget as nat,
        ),
        names_of(final(operations)@) == names_of(old(operations)@),
{
    let ghost scene = Scene {
        program: *program,
        globals: globals@,
        names: names_of(old(operations)@),
    };
    let ghost before = Moment { heap: old(heap)@, event: old(event)@ };
    let ghost mut trace: Seq<Moment> = seq![before];
    let mut steps: usize = 0;
    while steps < budget
        invariant
            0 <= steps <= budget,
            scene == (Scene {
                program: *program,
                globals: globals@,
                names: names_of(old(operations)@),
            }),
            before == (Moment { heap: old(heap)@, event: old(event)@ }),
            names_of(operations@) == names_of(old(operations)@),
            is_run(scene, before, trace),
            trace.len() == steps + 1,
            trace.last() == (Moment { heap: heap@, event: event@ }),
        decreases budget - steps,
    {
        let ghost last = Moment { heap: heap@, event: event@ };
        let stepped = step_event(program, globals, operations, heap, event);
        let ghost outcome = Outcome { heap: heap@, event: event@, result: status_view(stepped) };
        assert(step_relation(scene, last, outcome));
        match stepped {
            Ok(VmStepStatus::Continue) => {
                proof {
                    let longer = trace.push(moment_of(outcome));
                    assert forall|i: int| 0 <= i < longer.len() - 1 implies #[trigger] continues_at(
                        scene,
                        longer,
                        i,
                    ) by {
                        if i < trace.len() - 1 {
                            assert(continues_at(scene, trace, i));
                        }
                    }
                    trace = longer;
                }
                steps += 1;
            },
            Ok(VmStepStatus::Halt) => {
                assert(ended(
                    scene,
                    last,
                    moment_of(outcome),
                    Ok::<bool, VmErrorView>(true),
                    false,
                ));
                return Ok(true);
            },
            Ok(VmStepStatus::Stop) => {
                assert(ended(
                    scene,
                    last,
                    moment_of(outcome),
                    Ok::<bool, VmErrorView>(false),
                    false,
                ));
                return Ok(false);
            },
            Err(error) => {
                assert(ended(
                    scene,
                    last,
                    moment_of(outcome),
                    Err::<bool, VmErrorView>(error@),
                    false,
                ));
                return Err(error);
            },
        }
    }
    assert(ended(scene, trace.last(), trace.last(), Ok::<bool, VmErrorView>(true), true));
    Ok(true)
}

} // verus!
