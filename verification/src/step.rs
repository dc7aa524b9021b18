//! The stepper: the effect of one node and where the instruction pointer
//! goes after it.
//!
//! A step either succeeds as a whole or fails and leaves the event as it
//! was. After a node's effect the pointer follows an explicit jump or moves
//! to the next node of the execution order.

use vstd::prelude::*;
use std::collections::HashMap;
use crate::ast;
use crate::ast::{find, position, Link, Node, NodeType, ReferenceView, GUID};
use crate::convert::build_value;
use crate::error::{VmError, VmErrorView};
use crate::event::{contains_guid, local_variable, node_of, target_of, EventView, VmEvent, VmJump};
use crate::program::CompiledProgram;
use crate::value::{
    find_key,
    key_position,
    read,
    written,
    CellView,
    Heap,
    Reference,
    Value,
    ValueView,
};

verus! {

/// How a step ended.
#[derive(Debug, Clone, Copy, PartialEq, Eq, Structural)]
pub enum VmStepStatus {
    /// A node ran; the event has more to do.
    Continue,
    /// A halt node ran: the event rests until it is stepped again.
    Halt,
    /// There was no node to run: the event is done.
    Stop,
}

/// The store and the event after a step, and how the step ended.
pub struct Outcome {
    pub heap: Seq<CellView>,
    pub event: EventView,
    pub result: Result<VmStepStatus, VmErrorView>,
}

/// The outcome of a step that fails with `error` and changes nothing.
pub open spec fn failed(heap: Seq<CellView>, event: EventView, error: VmErrorView) -> Outcome {
    Outcome { heap, event, result: Err(error) }
}

/// The view of the result of a step.
pub open spec fn status_view(result: Result<VmStepStatus, VmError>) -> Result<
    VmStepStatus,
    VmErrorView,
> {
    match result {
        Ok(status) => Ok(status),
        Err(error) => Err(error@),
    }
}

/// Where the instruction pointer goes after the effect of a node.
#[derive(Debug, Clone, Copy, PartialEq, Eq, Structural)]
pub enum Plan {
    /// Take the marker from the jump stack and go to this place in the
    /// execution order.
    Redirect(usize),
    /// Take the sentinel from the jump stack and go to the next node.
    Unwind,
    /// Go to the next node.
    Proceed,
}

/// Where the pointer goes after the node `node` of `event`. After a
/// terminal node the marker on top of the jump stack decides: a loop marker
/// leads back to the loop node, a conditional marker to the node after the
/// conditional, the sentinel to the next node.
pub open spec fn plan_of(program: CompiledProgram, event: EventView, node: Node) -> Result<
    Plan,
    VmErrorView,
> {
    if program.end_nodes@.contains(node.guid) {
        match event.top_jump() {
            Err(error) => Err(error),
            Ok(VmJump::Loop(guid)) => match node_of(program, event, ReferenceView::Guid(guid)) {
                Err(error) => Err(error),
                Ok(marked) => match marked.node_type {
                    NodeType::Loop(_) => match target_of(
                        program,
                        event,
                        ReferenceView::Guid(guid),
                    ) {
                        Err(error) => Err(error),
                        Ok(index) => Ok(Plan::Redirect(index)),
                    },
                    _ => Err(VmErrorView::NodeIsNotALoop(ReferenceView::Guid(guid))),
                },
            },
            Ok(VmJump::IfElse(guid)) => match node_of(program, event, ReferenceView::Guid(guid)) {
                Err(error) => Err(error),
                Ok(marked) => match marked.node_type {
                    NodeType::IfElse(_) => match target_of(program, event, marked.next_node@) {
                        Err(error) => Err(error),
                        Ok(index) => Ok(Plan::Redirect(index)),
                    },
                    _ => Err(VmErrorView::NodeIsNotAnIfElse(ReferenceView::Guid(guid))),
                },
            },
            Ok(VmJump::Sentinel(_)) => Ok(Plan::Unwind),
        }
    } else {
        Ok(Plan::Proceed)
    }
}

/// The event after the pointer went where `plan` says.
pub open spec fn applied(event: EventView, plan: Plan) -> EventView {
    match plan {
        Plan::Redirect(index) => event.without_jump().at(index),
        Plan::Unwind => event.without_jump().advanced(),
        Plan::Proceed => event.advanced(),
    }
}

/// The outcome of a step whose effect on the node `node` turns the store
/// into `heap` and the event `before` into `after`: the pointer then goes
/// where the plan says. Where there is no plan the step fails, the event
/// stays as it was before, and the store is `kept`.
pub open spec fn finished(
    program: CompiledProgram,
    kept: Seq<CellView>,
    heap: Seq<CellView>,
    before: EventView,
    after: EventView,
    node: Node,
) -> Outcome {
    match plan_of(program, before, node) {
        Err(error) => Outcome { heap: kept, event: before, result: Err(error) },
        Ok(plan) => Outcome {
            heap,
            event: applied(after, plan),
            result: Ok(VmStepStatus::Continue),
        },
    }
}

/// Input link `k` of `node`, or no link where the node has fewer.
pub open spec fn link_at(node: Node, k: int) -> Link {
    if 0 <= k < node.input_links@.len() {
        node.input_links@[k]
    } else {
        Link::Unlinked
    }
}

/// The cell of the global variable that `reference` names.
pub open spec fn global_variable(
    program: CompiledProgram,
    globals: Map<GUID, Reference>,
    reference: ReferenceView,
) -> Result<Reference, VmErrorView> {
    let missing = Err(VmErrorView::GlobalVariableDoesNotExists(reference));
    match reference {
        ReferenceView::Unset => missing,
        ReferenceView::Guid(guid) => if globals.contains_key(guid) {
            Ok(globals[guid])
        } else {
            missing
        },
        ReferenceView::Named(_) => match position(program.ast.variables@, reference) {
            None => missing,
            Some(v) => if globals.contains_key(program.ast.variables@[v].guid) {
                Ok(globals[program.ast.variables@[v].guid])
            } else {
                missing
            },
        },
    }
}

/// Item `index` of the list in the cell `list`.
pub open spec fn item_of(heap: Seq<CellView>, list: Reference, index: usize) -> Result<
    Reference,
    VmErrorView,
> {
    match read(heap, list) {
        None => Err(VmErrorView::ReferenceDoesNotExists(list)),
        Some(ValueView::List(items)) => if index < items.len() {
            Ok(items[index as int])
        } else {
            Err(VmErrorView::IndexOutOfBounds(items.len() as usize, index, list))
        },
        Some(_) => Err(VmErrorView::ValueIsNotAList(list)),
    }
}

/// Two reads of one list item give handles to one cell: what is written
/// through the first is read through the second, also where the list itself
/// is the cell that is written.
pub proof fn lemma_list_item_is_shared(
    heap: Seq<CellView>,
    list: Reference,
    index: usize,
    first: Reference,
    second: Reference,
    value: ValueView,
)
    requires
        item_of(heap, list, index) == Ok::<Reference, VmErrorView>(first),
        item_of(heap, list, index) == Ok::<Reference, VmErrorView>(second),
        first < heap.len(),
        !heap[first as int].held,
    ensures
        read(written(heap, first, value), second) == Some(value),
{
}

/// The entry under `key` of the object in the cell `object`.
pub open spec fn entry_of(heap: Seq<CellView>, object: Reference, key: Seq<char>) -> Result<
    Reference,
    VmErrorView,
> {
    match read(heap, object) {
        None => Err(VmErrorView::ReferenceDoesNotExists(object)),
        Some(ValueView::Object(entries)) => match key_position(entries, key) {
            Some(k) => Ok(entries[k].1),
            None => Err(VmErrorView::ObjectKeyDoesNotExists(key, object)),
        },
        Some(_) => Err(VmErrorView::ValueIsNotAnObject(object)),
    }
}

/// The truth value in the cell `handle`.
pub open spec fn truth_of(heap: Seq<CellView>, handle: Reference) -> Result<bool, VmErrorView> {
    match read(heap, handle) {
        None => Err(VmErrorView::ReferenceDoesNotExists(handle)),
        Some(ValueView::Bool(b)) => Ok(b),
        Some(_) => Err(VmErrorView::ValueIsNotABool(handle)),
    }
}

/// The outcome of leaving the innermost loop from a break node, towards the
/// node after the loop, or from a continue node, towards the loop's entry.
/// The marker on top of the jump stack must be that of a loop; it is taken
/// off.
pub open spec fn loop_exit(
    program: CompiledProgram,
    heap: Seq<CellView>,
    event: EventView,
    is_break: bool,
) -> Outcome {
    match event.top_jump() {
        Err(error) => failed(heap, event, error),
        Ok(VmJump::Loop(guid)) => match node_of(program, event, ReferenceView::Guid(guid)) {
            Err(error) => failed(heap, event, error),
            Ok(marked) => match marked.node_type {
                NodeType::Loop(entry) => match target_of(
                    program,
                    event,
                    if is_break {
                        marked.next_node@
                    } else {
                        entry@
                    },
                ) {
                    Err(error) => failed(heap, event, error),
                    Ok(index) => Outcome {
                        heap,
                        event: event.without_jump().at(index),
                        result: Ok(VmStepStatus::Continue),
                    },
                },
                _ => failed(heap, event, VmErrorView::NodeIsNotALoop(ReferenceView::Guid(guid))),
            },
        },
        Ok(VmJump::IfElse(_)) => failed(
            heap,
            event,
            if is_break {
                VmErrorView::TryingToBreakIfElse
            } else {
                VmErrorView::TryingToContinueIfElse
            },
        ),
        Ok(VmJump::Sentinel(_)) => failed(
            heap,
            event,
            if is_break {
                VmErrorView::TryingToBreakOutsideLoop
            } else {
                VmErrorView::TryingToContinueOutsideLoop
            },
        ),
    }
}

/// A break leaves its loop in one step, whatever the event has done
/// before: the loop's marker comes off the jump stack, so the loop is not
/// entered again, and the pointer stands at the node after the loop.
pub proof fn lemma_break_leaves_loop(
    program: CompiledProgram,
    heap: Seq<CellView>,
    event: EventView,
    loop_guid: GUID,
    loop_node: Node,
    after_loop: usize,
)
    requires
        event.top_jump() == Ok::<VmJump, VmErrorView>(VmJump::Loop(loop_guid)),
        node_of(program, event, ReferenceView::Guid(loop_guid)) == Ok::<Node, VmErrorView>(
            loop_node,
        ),
        loop_node.node_type is Loop,
        target_of(program, event, loop_node.next_node@) == Ok::<usize, VmErrorView>(after_loop),
    ensures
        loop_exit(program, heap, event, true).result == Ok::<VmStepStatus, VmErrorView>(
            VmStepStatus::Continue,
        ),
        loop_exit(program, heap, event, true).heap == heap,
        loop_exit(program, heap, event, true).event.contexts.len() == event.contexts.len(),
        loop_exit(program, heap, event, true).event.top().current == after_loop,
        loop_exit(program, heap, event, true).event.top().jump_stack
            == event.top().jump_stack.drop_last(),
{
}

/// The outcome of entering a block from the node `node`: `marker` goes on
/// the jump stack and the pointer to the node that `entry` names.
pub open spec fn block_entry(
    program: CompiledProgram,
    heap: Seq<CellView>,
    event: EventView,
    marker: VmJump,
    entry: ReferenceView,
) -> Outcome {
    match target_of(program, event, entry) {
        Err(error) => failed(heap, event, error),
        Ok(index) => Outcome {
            heap,
            event: event.with_jump(marker).at(index),
            result: Ok(VmStepStatus::Continue),
        },
    }
}

/// Whether a node of this type decides where execution goes.
pub open spec fn is_control(node_type: NodeType) -> bool {
    node_type is Halt || node_type is Loop || node_type is IfElse || node_type is Break
        || node_type is Continue
}

/// The outcome of a step over the control node `node`.
pub open spec fn control_step(
    program: CompiledProgram,
    heap: Seq<CellView>,
    event: EventView,
    node: Node,
) -> Outcome {
    match node.node_type {
        NodeType::Halt => Outcome {
            heap,
            event: event.advanced(),
            result: Ok(VmStepStatus::Halt),
        },
        NodeType::Loop(entry) => block_entry(program, heap, event, VmJump::Loop(node.guid), entry@),
        NodeType::IfElse(branches) => match event.node_output(link_at(node, 0)) {
            Err(error) => failed(heap, event, error),
            Ok(condition) => match truth_of(heap, condition) {
                Err(error) => failed(heap, event, error),
                Ok(truth) => block_entry(
                    program,
                    heap,
                    event,
                    VmJump::IfElse(node.guid),
                    if truth {
                        branches.next_node_true@
                    } else {
                        branches.next_node_false@
                    },
                ),
            },
        },
        NodeType::Break => loop_exit(program, heap, event, true),
        NodeType::Continue => loop_exit(program, heap, event, false),
        _ => failed(heap, event, VmErrorView::TryingToPerformInvalidNodeType(node.node_type)),
    }
}

/// The outcome of a step that caches the cell `found` as the one output of
/// the node `node`, or fails where nothing was found.
pub open spec fn cache_step(
    program: CompiledProgram,
    heap: Seq<CellView>,
    event: EventView,
    node: Node,
    found: Result<Reference, VmErrorView>,
) -> Outcome {
    match found {
        Err(error) => failed(heap, event, error),
        Ok(cell) => finished(
            program,
            heap,
            heap,
            event,
            event.with_node_outputs(node.guid, seq![cell]),
            node,
        ),
    }
}

/// The cell that a step over the data node `node` caches, for the nodes
/// that read one.
pub open spec fn found_by(
    program: CompiledProgram,
    globals: Map<GUID, Reference>,
    heap: Seq<CellView>,
    event: EventView,
    node: Node,
) -> Result<Reference, VmErrorView> {
    match node.node_type {
        NodeType::GetInstance => event.instance(),
        NodeType::GetGlobalVariable(reference) => global_variable(program, globals, reference@),
        NodeType::GetLocalVariable(reference) => local_variable(program, event, reference@),
        NodeType::GetInput(index) => event.input(index),
        NodeType::GetListItem(index) => match event.node_output(link_at(node, 0)) {
            Err(error) => Err(error),
            Ok(list) => item_of(heap, list, index),
        },
        NodeType::GetObjectItem(key) => match event.node_output(link_at(node, 0)) {
            Err(error) => Err(error),
            Ok(object) => entry_of(heap, object, key@),
        },
        _ => Err(VmErrorView::TryingToPerformInvalidNodeType(node.node_type)),
    }
}

/// The outcome of a step over the node `node` that writes its input to
/// output slot `index`.
pub open spec fn output_step(
    program: CompiledProgram,
    heap: Seq<CellView>,
    event: EventView,
    node: Node,
    index: usize,
) -> Outcome {
    match event.node_output(link_at(node, 0)) {
        Err(error) => failed(heap, event, error),
        Ok(cell) => if event.has_output(index) {
            finished(program, heap, heap, event, event.with_output(index, cell), node)
        } else {
            failed(heap, event, VmErrorView::OutputDoesNotExists(index))
        },
    }
}

/// The outcome of a step over the node `node` that overwrites the cell of
/// its first input with a copy of what the cell of its second input holds.
/// A destination that a reader holds makes the step fail.
pub open spec fn mutate_step(
    program: CompiledProgram,
    heap: Seq<CellView>,
    event: EventView,
    node: Node,
) -> Outcome {
    match event.node_output(link_at(node, 0)) {
        Err(error) => failed(heap, event, error),
        Ok(destination) => match event.node_output(link_at(node, 1)) {
            Err(error) => failed(heap, event, error),
            Ok(source) => match read(heap, source) {
                None => failed(heap, event, VmErrorView::ReferenceDoesNotExists(source)),
                Some(value) => if destination >= heap.len() {
                    failed(heap, event, VmErrorView::ReferenceDoesNotExists(destination))
                } else if heap[destination as int].held {
                    failed(
                        heap,
                        event,
                        VmErrorView::TryingToMutateBorrowedReference(source, destination),
                    )
                } else {
                    finished(program, heap, written(heap, destination, value), event, event, node)
                },
            },
        },
    }
}

/// The outcome of a step over the data node `node`.
pub open spec fn data_step(
    program: CompiledProgram,
    globals: Map<GUID, Reference>,
    heap: Seq<CellView>,
    event: EventView,
    node: Node,
) -> Outcome {
    match node.node_type {
        NodeType::SetOutput(index) => output_step(program, heap, event, node, index),
        NodeType::GetValue(literal) => {
            let built = build_value(heap, literal@);
            match built.result {
                Err(error) => failed(built.heap, event, error),
                Ok(value) => {
                    let stored = built.heap.push(CellView { value, held: false });
                    finished(
                        program,
                        stored,
                        stored,
                        event,
                        event.with_node_outputs(node.guid, seq![built.heap.len() as usize]),
                        node,
                    )
                },
            }
        },
        NodeType::MutateValue => mutate_step(program, heap, event, node),
        _ => cache_step(program, heap, event, node, found_by(program, globals, heap, event, node)),
    }
}

/// Input link `k` of `node`.
pub fn input_link(node: &Node, k: usize) -> (link: Link)
    ensures
        link == link_at(*node, k as int),
{
    if k < node.input_links.len() {
        node.input_links[k]
    } else {
        Link::Unlinked
    }
}

/// The cell of the global variable that `reference` names.
pub fn global_variable_cell(
    program: &CompiledProgram,
    globals: &HashMap<GUID, Reference>,
    reference: &ast::Reference,
) -> (result: Result<Reference, VmError>)
    ensures
        match global_variable(*program, globals@, reference@) {
            Ok(cell) => result == Ok::<Reference, VmError>(cell),
            Err(error) => result matches Err(e) && e@ == error,
        },
{
    match reference {
        ast::Reference::Unset => {},
        ast::Reference::Guid(guid) => {
            if let Some(cell) = globals.get(guid) {
                return Ok(*cell);
            }
        },
        ast::Reference::Named(_) => {
            if let Some(v) = find(&program.ast.variables, reference) {
                if let Some(cell) = globals.get(&program.ast.variables[v].guid) {
                    return Ok(*cell);
                }
            }
        },
    }
    Err(VmError::GlobalVariableDoesNotExists(reference.clone()))
}

/// Where the pointer goes after the node `node`.
pub fn plan(program: &CompiledProgram, event: &VmEvent, node: &Node) -> (result: Result<
    Plan,
    VmError,
>)
    ensures
        match plan_of(*program, event@, *node) {
            Ok(plan) => result == Ok::<Plan, VmError>(plan),
            Err(error) => result matches Err(e) && e@ == error,
        },
{
    if !contains_guid(&program.end_nodes, node.guid) {
        return Ok(Plan::Proceed);
    }
    match event.peek_jump()? {
        VmJump::Loop(guid) => {
            let reference = ast::Reference::Guid(guid);
            let marked = event.get_node(&reference, program)?;
            match &marked.node_type {
                NodeType::Loop(_) => Ok(Plan::Redirect(event.find_target(&reference, program)?)),
                _ => Err(VmError::NodeIsNotALoop(reference)),
            }
        },
        VmJump::IfElse(guid) => {
            let reference = ast::Reference::Guid(guid);
            let marked = event.get_node(&reference, program)?;
            match &marked.node_type {
                NodeType::IfElse(_) => Ok(
                    Plan::Redirect(event.find_target(&marked.next_node, program)?),
                ),
                _ => Err(VmError::NodeIsNotAnIfElse(reference)),
            }
        },
        VmJump::Sentinel(_) => Ok(Plan::Unwind),
    }
}

/// Moves the pointer where `plan` says.
pub fn apply(event: &mut VmEvent, plan: Plan)
    ensures
        final(event)@ == applied(old(event)@, plan),
{
    match plan {
        Plan::Redirect(index) => {
            let _ = event.pop_jump_from_stack();
            event.jump_to(index);
        },
        Plan::Unwind => {
            let _ = event.pop_jump_from_stack();
            event.go_to_next_node();
        },
        Plan::Proceed => {
            event.go_to_next_node();
        },
    }
}

/// Leaves the innermost loop: from a break node or from a continue node.
fn exit_loop(program: &CompiledProgram, heap: &Heap, event: &mut VmEvent, is_break: bool) -> (result:
    Result<VmStepStatus, VmError>)
    ensures
        (Outcome { heap: heap@, event: final(event)@, result: status_view(result) }) == loop_exit(
            *program,
            heap@,
            old(event)@,
            is_break,
        ),
{
    match event.peek_jump()? {
        VmJump::Loop(guid) => {
            let reference = ast::Reference::Guid(guid);
            let marked = event.get_node(&reference, program)?;
            let index = match &marked.node_type {
                NodeType::Loop(entry) => {
                    if is_break {
                        event.find_target(&marked.next_node, program)?
                    } else {
                        event.find_target(entry, program)?
                    }
                },
                _ => {
                    return Err(VmError::NodeIsNotALoop(reference));
                },
            };
            let _ = event.pop_jump_from_stack();
            event.jump_to(index);
            Ok(VmStepStatus::Continue)
        },
        VmJump::IfElse(_) => {
            if is_break {
                Err(VmError::TryingToBreakIfElse)
            } else {
                Err(VmError::TryingToContinueIfElse)
            }
        },
        VmJump::Sentinel(_) => {
            if is_break {
                Err(VmError::TryingToBreakOutsideLoop)
            } else {
                Err(VmError::TryingToContinueOutsideLoop)
            }
        },
    }
}

/// Enters a block: `marker` goes on the jump stack and the pointer to the
/// node that `entry` names.
fn enter_block(
    program: &CompiledProgram,
    heap: &Heap,
    event: &mut VmEvent,
    marker: VmJump,
    entry: &ast::Reference,
) -> (result: Result<VmStepStatus, VmError>)
    ensures
        (Outcome { heap: heap@, event: final(event)@, result: status_view(result) })
            == block_entry(*program, heap@, old(event)@, marker, entry@),
{
    let index = event.find_target(entry, program)?;
    event.push_jump_on_stack(marker);
    event.jump_to(index);
    Ok(VmStepStatus::Continue)
}

/// The truth value in the cell `handle`.
fn truth(heap: &Heap, handle: Reference) -> (result: Result<bool, VmError>)
    ensures
        match truth_of(heap@, handle) {
            Ok(b) => result == Ok::<bool, VmError>(b),
            Err(error) => result matches Err(e) && e@ == error,
        },
{
    match heap.get(handle) {
        None => Err(VmError::ReferenceDoesNotExists(handle)),
        Some(Value::Bool(b)) => Ok(*b),
        Some(_) => Err(VmError::ValueIsNotABool(handle)),
    }
}

/// Steps over the control node `node`.
pub fn step_control(program: &CompiledProgram, heap: &Heap, event: &mut VmEvent, node: &Node) -> (result:
    Result<VmStepStatus, VmError>)
    requires
        is_control(node.node_type),
    ensures
        (Outcome { heap: heap@, event: final(event)@, result: status_view(result) })
            == control_step(*program, heap@, old(event)@, *node),
{
    match &node.node_type {
        NodeType::Halt => {
            event.go_to_next_node();
            Ok(VmStepStatus::Halt)
        },
        NodeType::Loop(entry) => enter_block(program, heap, event, VmJump::Loop(node.guid), entry),
        NodeType::IfElse(branches) => {
            let condition = event.get_node_output(input_link(node, 0))?;
            if truth(heap, condition)? {
                enter_block(
                    program,
                    heap,
                    event,
                    VmJump::IfElse(node.guid),
                    &branches.next_node_true,
                )
            } else {
                enter_block(
                    program,
                    heap,
                    event,
                    VmJump::IfElse(node.guid),
                    &branches.next_node_false,
                )
            }
        },
        NodeType::Break => exit_loop(program, heap, event, true),
        NodeType::Continue => exit_loop(program, heap, event, false),
        _ => vstd::pervasive::unreached(),
    }
}

/// Whether a node of this type starts a call.
pub open spec fn is_call(node_type: NodeType) -> bool {
    node_type is CallOperation || node_type is CallFunction || node_type is CallMethod
}

/// Item `index` of the list in the cell `list`.
fn list_item(heap: &Heap, list: Reference, index: usize) -> (result: Result<Reference, VmError>)
    ensures
        match item_of(heap@, list, index) {
            Ok(item) => result == Ok::<Reference, VmError>(item),
            Err(error) => result matches Err(e) && e@ == error,
        },
{
    match heap.get(list) {
        None => Err(VmError::ReferenceDoesNotExists(list)),
        Some(Value::List(items)) => {
            if index < items.len() {
                Ok(items[index])
            } else {
                Err(VmError::IndexOutOfBounds(items.len(), index, list))
            }
        },
        Some(_) => Err(VmError::ValueIsNotAList(list)),
    }
}

/// The entry under `key` of the object in the cell `object`.
fn object_entry(heap: &Heap, object: Reference, key: &String) -> (result: Result<Reference, VmError>)
    ensures
        match entry_of(heap@, object, key@) {
            Ok(entry) => result == Ok::<Reference, VmError>(entry),
            Err(error) => result matches Err(e) && e@ == error,
        },
{
    match heap.get(object) {
        None => Err(VmError::ReferenceDoesNotExists(object)),
        Some(Value::Object(entries)) => {
            match find_key(entries, key) {
                Some(k) => Ok(entries[k].1),
                None => Err(VmError::ObjectKeyDoesNotExists(key.clone(), object)),
            }
        },
        Some(_) => Err(VmError::ValueIsNotAnObject(object)),
    }
}

/// Caches `cell` as the one output of `node` and moves the pointer on.
fn cache_and_finish(
    program: &CompiledProgram,
    heap: &Heap,
    event: &mut VmEvent,
    node: &Node,
    cell: Reference,
) -> (result: Result<VmStepStatus, VmError>)
    ensures
        (Outcome { heap: heap@, event: final(event)@, result: status_view(result) }) == cache_step(
            *program,
            heap@,
            old(event)@,
            *node,
            Ok(cell),
        ),
{
    let next = plan(program, event, node)?;
    event.set_node_output(node.guid, cell);
    apply(event, next);
    Ok(VmStepStatus::Continue)
}

/// Overwrites the cell of the first input of `node` with a copy of what the
/// cell of its second input holds.
fn step_mutate(program: &CompiledProgram, heap: &mut Heap, event: &mut VmEvent, node: &Node) -> (result:
    Result<VmStepStatus, VmError>)
    ensures
        (Outcome { heap: final(heap)@, event: final(event)@, result: status_view(result) })
            == mutate_step(*program, old(heap)@, old(event)@, *node),
{
    let destination = event.get_node_output(input_link(node, 0))?;
    let source = event.get_node_output(input_link(node, 1))?;
    let value = match heap.copy(source) {
        Some(value) => value,
        None => {
            return Err(VmError::ReferenceDoesNotExists(source));
        },
    };
    if destination >= heap.len() {
        return Err(VmError::ReferenceDoesNotExists(destination));
    }
    if heap.is_held(destination) {
        return Err(VmError::TryingToMutateBorrowedReference(source, destination));
    }
    let next = plan(program, event, node)?;
    heap.write(destination, value);
    apply(event, next);
    Ok(VmStepStatus::Continue)
}

/// Steps over the data node `node`.
pub fn step_data(
    program: &CompiledProgram,
    globals: &HashMap<GUID, Reference>,
    heap: &mut Heap,
    event: &mut VmEvent,
    node: &Node,
) -> (result: Result<VmStepStatus, VmError>)
    requires
        !is_control(node.node_type),
        !is_call(node.node_type),
    ensures
        (Outcome { heap: final(heap)@, event: final(event)@, result: status_view(result) })
            == data_step(*program, globals@, old(heap)@, old(event)@, *node),
{
    let cell = match &node.node_type {
        NodeType::SetOutput(index) => {
            let cell = event.get_node_output(input_link(node, 0))?;
            let count = event.contexts.len();
            if count == 0 || *index >= event.contexts[count - 1].outputs.len() {
                return Err(VmError::OutputDoesNotExists(*index));
            }
            let next = plan(program, event, node)?;
            let _ = event.set_output_value(*index, cell);
            apply(event, next);
            return Ok(VmStepStatus::Continue);
        },
        NodeType::GetValue(literal) => {
            let value = heap.value_from_document(literal)?;
            heap.store(value)
        },
        NodeType::MutateValue => {
            return step_mutate(program, heap, event, node);
        },
        NodeType::GetInstance => event.instance_value()?,
        NodeType::GetGlobalVariable(reference) => global_variable_cell(program, globals, reference)?,
        NodeType::GetLocalVariable(reference) => event.local_variable_value(reference, program)?,
        NodeType::GetInput(index) => event.input_value(*index)?,
        NodeType::GetListItem(index) => {
            let list = event.get_node_output(input_link(node, 0))?;
            list_item(heap, list, *index)?
        },
        NodeType::GetObjectItem(key) => {
            let object = event.get_node_output(input_link(node, 0))?;
            object_entry(heap, object, key)?
        },
        NodeType::Unused => {
            return Err(VmError::TryingToPerformInvalidNodeType(NodeType::Unused));
        },
        NodeType::Entry => {
            return Err(VmError::TryingToPerformInvalidNodeType(NodeType::Entry));
        },
        _ => vstd::pervasive::unreached(),
    };
    cache_and_finish(program, heap, event, node, cell)
}

} // verus!
