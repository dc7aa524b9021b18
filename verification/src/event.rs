//! Event activations: the stack of activation records of one running event.
//!
//! Each record has its own instruction pointer into the execution order of
//! its construct, its inputs, outputs and local variables, a cache of the
//! outputs of the nodes it has run, and a stack of jump markers.

use vstd::prelude::*;
use std::collections::HashMap;
use crate::ast;
use crate::ast::{find, position, Link, Method, Node, ReferenceView, Variable, GUID};
use crate::error::{VmError, VmErrorView};
use crate::lookup::{owner_nodes, owner_variables};
use crate::program::CompiledProgram;
use crate::value::{CellView, Heap, Reference, Value, ValueView};

verus! {

/// The construct that an activation record runs.
#[derive(Debug, Clone, Copy, PartialEq, Eq, Structural)]
pub enum VmContextOwner {
    Event(GUID),
    /// (type, method)
    Method(GUID, GUID),
    Function(GUID),
}

/// A marker on the jump stack of an activation record.
#[derive(Debug, Clone, Copy, PartialEq, Eq, Structural)]
pub enum VmJump {
    /// The bottom of the stack.
    Sentinel(Option<GUID>),
    /// A loop that was entered, by the loop node.
    Loop(GUID),
    /// A conditional that was entered, by the conditional node.
    IfElse(GUID),
}

/// The cached node outputs that a table of executable code holds.
pub open spec fn outputs_view(outputs: HashMap<GUID, Vec<Reference>>) -> Map<GUID, Seq<Reference>> {
    Map::new(|guid: GUID| outputs@.contains_key(guid), |guid: GUID| outputs@[guid]@)
}

/// One activation record.
#[derive(Debug)]
pub struct VmContext {
    pub owner: VmContextOwner,
    pub caller_node: Option<GUID>,
    pub execution: Vec<GUID>,
    pub current: usize,
    pub instance: Option<Reference>,
    pub inputs: Vec<Reference>,
    pub outputs: Vec<Reference>,
    pub variables: HashMap<GUID, Reference>,
    pub jump_stack: Vec<VmJump>,
    pub node_outputs: HashMap<GUID, Vec<Reference>>,
}

/// The mathematical value of a [`VmContext`].
pub struct ContextView {
    pub owner: VmContextOwner,
    pub caller_node: Option<GUID>,
    pub execution: Seq<GUID>,
    pub current: usize,
    pub instance: Option<Reference>,
    pub inputs: Seq<Reference>,
    pub outputs: Seq<Reference>,
    pub variables: Map<GUID, Reference>,
    pub jump_stack: Seq<VmJump>,
    pub node_outputs: Map<GUID, Seq<Reference>>,
}

impl View for VmContext {
    type V = ContextView;

    open spec fn view(&self) -> ContextView {
        ContextView {
            owner: self.owner,
            caller_node: self.caller_node,
            execution: self.execution@,
            current: self.current,
            instance: self.instance,
            inputs: self.inputs@,
            outputs: self.outputs@,
            variables: self.variables@,
            jump_stack: self.jump_stack@,
            node_outputs: outputs_view(self.node_outputs),
        }
    }
}

/// A running event: its activation records, the innermost last, and its
/// final outputs once the outermost record has completed.
#[derive(Debug)]
pub struct VmEvent {
    pub contexts: Vec<VmContext>,
    pub outputs: Vec<Reference>,
}

/// The mathematical value of a [`VmEvent`].
pub struct EventView {
    pub contexts: Seq<ContextView>,
    pub outputs: Seq<Reference>,
}

impl View for VmEvent {
    type V = EventView;

    open spec fn view(&self) -> EventView {
        EventView {
            contexts: Seq::new(self.contexts@.len(), |i: int| self.contexts@[i]@),
            outputs: self.outputs@,
        }
    }
}

impl EventView {
    /// The innermost activation record.
    pub open spec fn top(self) -> ContextView {
        self.contexts[self.contexts.len() - 1]
    }

    /// The event with `context` in place of its innermost record.
    pub open spec fn with_top(self, context: ContextView) -> EventView {
        EventView {
            contexts: self.contexts.update(self.contexts.len() - 1, context),
            outputs: self.outputs,
        }
    }

    /// The cached outputs of the node `guid` in the innermost record.
    pub open spec fn node_outputs(self, guid: GUID) -> Result<Seq<Reference>, VmErrorView> {
        if self.contexts.len() > 0 && self.top().node_outputs.contains_key(guid) {
            Ok(self.top().node_outputs[guid])
        } else {
            Err(VmErrorView::ThereAreNoCachedNodeOutputs(ReferenceView::Guid(guid)))
        }
    }

    /// The cached output that `link` names.
    pub open spec fn node_output(self, link: Link) -> Result<Reference, VmErrorView> {
        match link {
            Link::Unlinked => Err(VmErrorView::ThereIsNoCachedNodeIndexedOutput(link)),
            Link::NodeIndexed(guid, index) => match self.node_outputs(guid) {
                Err(error) => Err(error),
                Ok(outputs) => if index < outputs.len() {
                    Ok(outputs[index as int])
                } else {
                    Err(VmErrorView::ThereIsNoCachedNodeIndexedOutput(link))
                },
            },
        }
    }

    /// The event after `values` are cached as the outputs of the node `guid`
    /// in the innermost record. An event without records stays as it is.
    pub open spec fn with_node_outputs(self, guid: GUID, values: Seq<Reference>) -> EventView {
        if self.contexts.len() > 0 {
            let top = self.top();
            self.with_top(ContextView { node_outputs: top.node_outputs.insert(guid, values), ..top })
        } else {
            self
        }
    }

    /// The event after `jump` is pushed on the jump stack of the innermost
    /// record.
    pub open spec fn with_jump(self, jump: VmJump) -> EventView {
        if self.contexts.len() > 0 {
            let top = self.top();
            self.with_top(ContextView { jump_stack: top.jump_stack.push(jump), ..top })
        } else {
            self
        }
    }

    /// The marker on top of the jump stack of the innermost record.
    pub open spec fn top_jump(self) -> Result<VmJump, VmErrorView> {
        if self.contexts.len() > 0 && self.top().jump_stack.len() > 0 {
            Ok(self.top().jump_stack.last())
        } else {
            Err(VmErrorView::StackUnderflow)
        }
    }

    /// The event without the marker on top of the jump stack of the
    /// innermost record.
    pub open spec fn without_jump(self) -> EventView {
        if self.contexts.len() > 0 && self.top().jump_stack.len() > 0 {
            let top = self.top();
            self.with_top(ContextView { jump_stack: top.jump_stack.drop_last(), ..top })
        } else {
            self
        }
    }

    /// The event with the instruction pointer of the innermost record at
    /// `index`.
    pub open spec fn at(self, index: usize) -> EventView {
        if self.contexts.len() > 0 {
            self.with_top(ContextView { current: index, ..self.top() })
        } else {
            self
        }
    }

    /// The bound instance of the innermost record.
    pub open spec fn instance(self) -> Result<Reference, VmErrorView> {
        if self.contexts.len() > 0 && self.top().instance is Some {
            Ok(self.top().instance->Some_0)
        } else {
            Err(VmErrorView::InstanceDoesNotExists)
        }
    }

    /// Input `index` of the innermost record.
    pub open spec fn input(self, index: usize) -> Result<Reference, VmErrorView> {
        if self.contexts.len() > 0 && index < self.top().inputs.len() {
            Ok(self.top().inputs[index as int])
        } else {
            Err(VmErrorView::InputDoesNotExists(index))
        }
    }

    /// Whether the innermost record has an output slot `index`.
    pub open spec fn has_output(self, index: usize) -> bool {
        self.contexts.len() > 0 && index < self.top().outputs.len()
    }

    /// The event after `value` is written to output slot `index` of the
    /// innermost record.
    pub open spec fn with_output(self, index: usize, value: Reference) -> EventView {
        if self.has_output(index) {
            let top = self.top();
            self.with_top(ContextView { outputs: top.outputs.update(index as int, value), ..top })
        } else {
            self
        }
    }

    /// The event after the instruction pointer of the innermost record moved
    /// one node on. A pointer that is past the end of its order stays.
    pub open spec fn stepped(self) -> EventView {
        if self.contexts.len() > 0 && self.top().current < self.top().execution.len() {
            self.at((self.top().current + 1) as usize)
        } else {
            self
        }
    }

    /// The event after every record that has run past the end of its order
    /// has completed: the record is removed, its outputs become the cached
    /// outputs of the calling node in the record below, or the final outputs
    /// of the event where no node called it, and the record below moves one
    /// node on.
    pub open spec fn settled(self) -> EventView
        decreases self.contexts.len(),
    {
        if self.contexts.len() == 0 {
            self
        } else {
            let top = self.top();
            if top.current < top.execution.len() {
                self
            } else {
                let below = self.contexts.drop_last();
                match top.caller_node {
                    Some(caller) => EventView { contexts: below, outputs: self.outputs }.with_node_outputs(
                        caller,
                        top.outputs,
                    ).stepped().settled(),
                    None => EventView { contexts: below, outputs: top.outputs }.stepped().settled(),
                }
            }
        }
    }

    /// The event after the innermost record moved one node on and every
    /// record that is thereby done has completed.
    pub open spec fn advanced(self) -> EventView {
        self.stepped().settled()
    }
}

/// The first index of `guid` in `execution`, at or after `from`.
pub open spec fn order_index_from(execution: Seq<GUID>, guid: GUID, from: int) -> Option<int>
    decreases execution.len() - from,
{
    if from < 0 || from >= execution.len() {
        None
    } else if execution[from] == guid {
        Some(from)
    } else {
        order_index_from(execution, guid, from + 1)
    }
}

/// The first index of `guid` in `execution`.
pub open spec fn order_index(execution: Seq<GUID>, guid: GUID) -> Option<int> {
    order_index_from(execution, guid, 0)
}

/// Finds the first index of `guid` in `execution`.
pub fn find_in_order(execution: &Vec<GUID>, guid: GUID) -> (found: Option<usize>)
    ensures
        match found {
            Some(i) => order_index(execution@, guid) == Some(i as int) && i < execution@.len()
                && execution@[i as int] == guid,
            None => order_index(execution@, guid) is None,
        },
{
    let mut i: usize = 0;
    while i < execution.len()
        invariant
            0 <= i <= execution@.len(),
            order_index(execution@, guid) == order_index_from(execution@, guid, i as int),
        decreases execution@.len() - i,
    {
        if execution[i] == guid {
            return Some(i);
        }
        i += 1;
    }
    None
}

/// Whether `guid` occurs in `guids`.
pub fn contains_guid(guids: &Vec<GUID>, guid: GUID) -> (found: bool)
    ensures
        found == guids@.contains(guid),
{
    let mut i: usize = 0;
    while i < guids.len()
        invariant
            0 <= i <= guids@.len(),
            forall|j: int| 0 <= j < i ==> guids@[j] != guid,
        decreases guids@.len() - i,
    {
        if guids[i] == guid {
            return true;
        }
        i += 1;
    }
    false
}

impl VmEvent {
    /// The cached outputs of the node `guid` in the innermost record.
    pub fn get_node_outputs(&self, guid: GUID) -> (result: Result<&Vec<Reference>, VmError>)
        ensures
            match self@.node_outputs(guid) {
                Ok(outputs) => result matches Ok(list) && list@ == outputs,
                Err(error) => result matches Err(e) && e@ == error,
            },
    {
        let count = self.contexts.len();
        if count > 0 {
            if let Some(outputs) = self.contexts[count - 1].node_outputs.get(&guid) {
                return Ok(outputs);
            }
        }
        Err(VmError::ThereAreNoCachedNodeOutputs(ast::Reference::Guid(guid)))
    }

    /// The cached output that `link` names.
    pub fn get_node_output(&self, link: Link) -> (result: Result<Reference, VmError>)
        ensures
            match self@.node_output(link) {
                Ok(output) => result == Ok::<Reference, VmError>(output),
                Err(error) => result matches Err(e) && e@ == error,
            },
    {
        if let Link::NodeIndexed(guid, index) = link {
            let outputs = self.get_node_outputs(guid)?;
            if index < outputs.len() {
                return Ok(outputs[index]);
            }
        }
        Err(VmError::ThereIsNoCachedNodeIndexedOutput(link))
    }

    /// Caches `values` as the outputs of the node `guid` in the innermost
    /// record.
    pub fn set_node_outputs(&mut self, guid: GUID, values: Vec<Reference>)
        ensures
            final(self)@ == old(self)@.with_node_outputs(guid, values@),
    {
        let count = self.contexts.len();
        if count > 0 {
            self.contexts[count - 1].node_outputs.insert(guid, values);
            assert(self.contexts@[count - 1]@.node_outputs =~= old(self)@.top().node_outputs.insert(
                guid,
                values@,
            ));
            assert(self@.contexts =~= old(self)@.with_node_outputs(guid, values@).contexts);
        }
    }

    /// Caches `value` as the one output of the node `guid` in the innermost
    /// record.
    pub fn set_node_output(&mut self, guid: GUID, value: Reference)
        ensures
            final(self)@ == old(self)@.with_node_outputs(guid, seq![value]),
    {
        let mut values: Vec<Reference> = Vec::new();
        values.push(value);
        assert(values@ =~= seq![value]);
        self.set_node_outputs(guid, values);
    }

    /// Pushes `jump` on the jump stack of the innermost record.
    pub fn push_jump_on_stack(&mut self, jump: VmJump)
        ensures
            final(self)@ == old(self)@.with_jump(jump),
    {
        let count = self.contexts.len();
        if count > 0 {
            self.contexts[count - 1].jump_stack.push(jump);
            assert(self@.contexts =~= old(self)@.with_jump(jump).contexts);
        }
    }

    /// The marker on top of the jump stack of the innermost record.
    pub fn peek_jump(&self) -> (result: Result<VmJump, VmError>)
        ensures
            match self@.top_jump() {
                Ok(jump) => result == Ok::<VmJump, VmError>(jump),
                Err(error) => result matches Err(e) && e@ == error,
            },
    {
        let count = self.contexts.len();
        if count > 0 {
            let depth = self.contexts[count - 1].jump_stack.len();
            if depth > 0 {
                return Ok(self.contexts[count - 1].jump_stack[depth - 1]);
            }
        }
        Err(VmError::StackUnderflow)
    }

    /// Takes the marker from the top of the jump stack of the innermost
    /// record. An empty stack is an error and changes nothing.
    pub fn pop_jump_from_stack(&mut self) -> (result: Result<VmJump, VmError>)
        ensures
            match old(self)@.top_jump() {
                Ok(jump) => result == Ok::<VmJump, VmError>(jump),
                Err(error) => result matches Err(e) && e@ == error,
            },
            final(self)@ == old(self)@.without_jump(),
    {
        let count = self.contexts.len();
        if count > 0 {
            if let Some(jump) = self.contexts[count - 1].jump_stack.pop() {
                assert(self@.contexts =~= old(self)@.without_jump().contexts);
                return Ok(jump);
            }
        }
        assert(self@.contexts =~= old(self)@.contexts);
        Err(VmError::StackUnderflow)
    }

    /// The bound instance of the innermost record.
    pub fn instance_value(&self) -> (result: Result<Reference, VmError>)
        ensures
            match self@.instance() {
                Ok(instance) => result == Ok::<Reference, VmError>(instance),
                Err(error) => result matches Err(e) && e@ == error,
            },
    {
        let count = self.contexts.len();
        if count > 0 {
            if let Some(instance) = self.contexts[count - 1].instance {
                return Ok(instance);
            }
        }
        Err(VmError::InstanceDoesNotExists)
    }

    /// Input `index` of the innermost record.
    pub fn input_value(&self, index: usize) -> (result: Result<Reference, VmError>)
        ensures
            match self@.input(index) {
                Ok(input) => result == Ok::<Reference, VmError>(input),
                Err(error) => result matches Err(e) && e@ == error,
            },
    {
        let count = self.contexts.len();
        if count > 0 {
            if index < self.contexts[count - 1].inputs.len() {
                return Ok(self.contexts[count - 1].inputs[index]);
            }
        }
        Err(VmError::InputDoesNotExists(index))
    }

    /// Writes `value` to output slot `index` of the innermost record and
    /// returns what the slot held. A slot that does not exist is an error
    /// and changes nothing.
    pub fn set_output_value(&mut self, index: usize, value: Reference) -> (result: Result<
        Reference,
        VmError,
    >)
        ensures
            final(self)@ == old(self)@.with_output(index, value),
            if old(self)@.has_output(index) {
                result == Ok::<Reference, VmError>(old(self)@.top().outputs[index as int])
            } else {
                result matches Err(e) && e@ == VmErrorView::OutputDoesNotExists(index)
            },
    {
        let count = self.contexts.len();
        if count > 0 {
            if index < self.contexts[count - 1].outputs.len() {
                let before = self.contexts[count - 1].outputs[index];
                self.contexts[count - 1].outputs.set(index, value);
                assert(self@.contexts =~= old(self)@.with_output(index, value).contexts);
                return Ok(before);
            }
        }
        assert(self@.contexts =~= old(self)@.contexts);
        Err(VmError::OutputDoesNotExists(index))
    }

    /// Moves the instruction pointer of the innermost record to `index`.
    pub fn jump_to(&mut self, index: usize)
        ensures
            final(self)@ == old(self)@.at(index),
    {
        let count = self.contexts.len();
        if count > 0 {
            self.contexts[count - 1].current = index;
            assert(self@.contexts =~= old(self)@.at(index).contexts);
        }
    }

    /// Moves the innermost record one node on. A record that thereby runs
    /// past the end of its order completes: it hands its outputs to the node
    /// that called it, or to the event, and the record below moves on in
    /// turn.
    pub fn go_to_next_node(&mut self)
        ensures
            final(self)@ == old(self)@.advanced(),
    {
        let count = self.contexts.len();
        if count > 0 && self.contexts[count - 1].current < self.contexts[count - 1].execution.len() {
            let next = self.contexts[count - 1].current + 1;
            self.jump_to(next);
        }
        self.settle();
    }

    /// Completes every record that has run past the end of its order.
    pub fn settle(&mut self)
        ensures
            final(self)@ == old(self)@.settled(),
    {
        loop
            invariant
                self@.settled() == old(self)@.settled(),
            ensures
                self@ == old(self)@.settled(),
            decreases self@.contexts.len(),
        {
            let count = self.contexts.len();
            if count == 0 {
                break;
            }
            if self.contexts[count - 1].current < self.contexts[count - 1].execution.len() {
                break;
            }
            let ghost before = self@;
            let done = self.contexts.pop().unwrap();
            assert(self@.contexts =~= before.contexts.drop_last());
            assert(done@ == before.top());
            match done.caller_node {
                Some(caller) => {
                    self.set_node_outputs(caller, done.outputs);
                },
                None => {
                    self.outputs = done.outputs;
                },
            }
            let below = self.contexts.len();
            if below > 0 && self.contexts[below - 1].current < self.contexts[below
                - 1].execution.len() {
                let next = self.contexts[below - 1].current + 1;
                self.jump_to(next);
            }
        }
    }
}

/// The node that `reference` names in the construct of the innermost
/// record of `event`.
pub open spec fn node_of(program: CompiledProgram, event: EventView, reference: ReferenceView) -> Result<
    Node,
    VmErrorView,
> {
    if event.contexts.len() == 0 {
        Err(VmErrorView::NodeDoesNotExists(reference))
    } else {
        match owner_nodes(program, event.top().owner) {
            Err(error) => Err(error),
            Ok(nodes) => match position(nodes, reference) {
                Some(i) => Ok(nodes[i]),
                None => Err(VmErrorView::NodeDoesNotExists(reference)),
            },
        }
    }
}

/// The node at the instruction pointer of the innermost record of `event`,
/// if there is one.
pub open spec fn current_node(program: CompiledProgram, event: EventView) -> Option<Node> {
    if event.contexts.len() > 0 && event.top().current < event.top().execution.len() {
        match node_of(
            program,
            event,
            ReferenceView::Guid(event.top().execution[event.top().current as int]),
        ) {
            Ok(node) => Some(node),
            Err(_) => None,
        }
    } else {
        None
    }
}

/// The place in the execution order of the innermost record of `event` of
/// the node that `reference` names.
pub open spec fn target_of(program: CompiledProgram, event: EventView, reference: ReferenceView) -> Result<
    usize,
    VmErrorView,
> {
    match node_of(program, event, reference) {
        Err(error) => Err(error),
        Ok(node) => match order_index(event.top().execution, node.guid) {
            Some(i) => Ok(i as usize),
            None => Err(VmErrorView::NodeNotFoundInExecutionPipeline(reference)),
        },
    }
}

/// The cell of the local variable that `reference` names in the innermost
/// record of `event`. A name is looked up among the variables that the
/// record's construct declares.
pub open spec fn local_variable(
    program: CompiledProgram,
    event: EventView,
    reference: ReferenceView,
) -> Result<Reference, VmErrorView> {
    let missing = Err(VmErrorView::LocalVariableDoesNotExists(reference));
    if event.contexts.len() == 0 {
        missing
    } else {
        let top = event.top();
        match reference {
            ReferenceView::Unset => missing,
            ReferenceView::Guid(guid) => if top.variables.contains_key(guid) {
                Ok(top.variables[guid])
            } else {
                missing
            },
            ReferenceView::Named(_) => match owner_variables(program, top.owner) {
                Err(_) => missing,
                Ok(declared) => match position(declared, reference) {
                    None => missing,
                    Some(v) => if top.variables.contains_key(declared[v].guid) {
                        Ok(top.variables[declared[v].guid])
                    } else {
                        missing
                    },
                },
            },
        }
    }
}

/// A cell that holds nothing and that nobody holds.
pub open spec fn empty_cell() -> CellView {
    CellView { value: ValueView::Empty, held: false }
}

/// The store with `count` more cells, each empty.
pub open spec fn with_empty_cells(heap: Seq<CellView>, count: nat) -> Seq<CellView> {
    heap + Seq::new(count, |i: int| empty_cell())
}

/// The cells of the first `count` of the variables `variables`, where
/// variable `k` has the cell `base + k`. Of two variables with one
/// identifier the later one stands.
pub open spec fn variable_cells(variables: Seq<GUID>, base: int, count: int) -> Map<GUID, Reference>
    decreases count,
{
    if count <= 0 {
        Map::empty()
    } else {
        variable_cells(variables, base, count - 1).insert(
            variables[count - 1],
            (base + count - 1) as usize,
        )
    }
}

/// A new activation record over a store that had `cells` cells: the pointer
/// at the start of `execution`, all `outputs` output slots on one new empty
/// cell, each variable on a new empty cell of its own, nothing cached, and
/// the sentinel on the jump stack.
pub open spec fn fresh_context(
    cells: nat,
    owner: VmContextOwner,
    caller_node: Option<GUID>,
    execution: Seq<GUID>,
    instance: Option<Reference>,
    inputs: Seq<Reference>,
    outputs: usize,
    variables: Seq<GUID>,
) -> ContextView {
    ContextView {
        owner,
        caller_node,
        execution,
        current: 0,
        instance,
        inputs,
        outputs: Seq::new(outputs as nat, |i: int| cells as usize),
        variables: variable_cells(variables, cells as int + 1, variables.len() as int),
        jump_stack: seq![VmJump::Sentinel(None)],
        node_outputs: Map::empty(),
    }
}

/// The identifiers of `variables`.
pub open spec fn guids_of_variables(variables: Seq<Variable>) -> Seq<GUID> {
    Seq::new(variables.len(), |i: int| variables[i].guid)
}

/// The identifiers of `variables`.
pub fn variable_guids(variables: &Vec<Variable>) -> (guids: Vec<GUID>)
    ensures
        guids@ == guids_of_variables(variables@),
{
    let mut guids: Vec<GUID> = Vec::new();
    let mut i: usize = 0;
    while i < variables.len()
        invariant
            0 <= i <= variables@.len(),
            guids@.len() == i,
            forall|j: int| 0 <= j < i ==> guids@[j] == variables@[j].guid,
        decreases variables@.len() - i,
    {
        guids.push(variables[i].guid);
        i += 1;
    }
    assert(guids@ =~= guids_of_variables(variables@));
    guids
}

impl VmContext {
    /// A new activation record; its output slots and variables get new
    /// empty cells of `heap`.
    pub fn fresh(
        heap: &mut Heap,
        owner: VmContextOwner,
        caller_node: Option<GUID>,
        execution: Vec<GUID>,
        instance: Option<Reference>,
        inputs: Vec<Reference>,
        outputs: usize,
        variables: &Vec<GUID>,
    ) -> (context: VmContext)
        ensures
            final(heap)@ == with_empty_cells(old(heap)@, 1 + variables@.len() as nat),
            context@ == fresh_context(
                old(heap)@.len(),
                owner,
                caller_node,
                execution@,
                instance,
                inputs@,
                outputs,
                variables@,
            ),
    {
        let ghost base = old(heap)@.len();
        let shared = heap.store(Value::Empty);
        let mut slots: Vec<Reference> = Vec::new();
        let mut i: usize = 0;
        while i < outputs
            invariant
                0 <= i <= outputs,
                slots@.len() == i,
                forall|j: int| 0 <= j < i ==> slots@[j] == shared,
            decreases outputs - i,
        {
            slots.push(shared);
            i += 1;
        }
        let mut cells: HashMap<GUID, Reference> = HashMap::new();
        let mut k: usize = 0;
        while k < variables.len()
            invariant
                0 <= k <= variables@.len(),
                heap@ == with_empty_cells(old(heap)@, 1 + k as nat),
                base == old(heap)@.len(),
                cells@ == variable_cells(variables@, base as int + 1, k as int),
            decreases variables@.len() - k,
        {
            let cell = heap.store(Value::Empty);
            cells.insert(variables[k], cell);
            assert(heap@ =~= with_empty_cells(old(heap)@, 1 + (k + 1) as nat));
            k += 1;
        }
        let mut jump_stack: Vec<VmJump> = Vec::new();
        jump_stack.push(VmJump::Sentinel(None));
        let node_outputs: HashMap<GUID, Vec<Reference>> = HashMap::new();
        let context = VmContext {
            owner,
            caller_node,
            execution,
            current: 0,
            instance,
            inputs,
            outputs: slots,
            variables: cells,
            jump_stack,
            node_outputs,
        };
        assert(context@.outputs =~= Seq::new(outputs as nat, |i: int| base as usize));
        assert(context@.jump_stack =~= seq![VmJump::Sentinel(None)]);
        assert(context@.node_outputs =~= Map::empty());
        context
    }
}

impl VmEvent {
    /// A new activation of the event `owner_event`: one record at the start
    /// of `execution`, and no final outputs yet.
    pub fn new(
        heap: &mut Heap,
        owner_event: GUID,
        execution: Vec<GUID>,
        variables: Vec<GUID>,
        inputs: Vec<Reference>,
        outputs: usize,
    ) -> (event: VmEvent)
        ensures
            final(heap)@ == with_empty_cells(old(heap)@, 1 + variables@.len() as nat),
            event@ == (EventView {
                contexts: seq![
                    fresh_context(
                        old(heap)@.len(),
                        VmContextOwner::Event(owner_event),
                        None,
                        execution@,
                        None,
                        inputs@,
                        outputs,
                        variables@,
                    ),
                ],
                outputs: Seq::empty(),
            }),
    {
        let context = VmContext::fresh(
            heap,
            VmContextOwner::Event(owner_event),
            None,
            execution,
            None,
            inputs,
            outputs,
            &variables,
        );
        let mut contexts: Vec<VmContext> = Vec::new();
        contexts.push(context);
        let event = VmEvent { contexts, outputs: Vec::new() };
        assert(event@.contexts =~= seq![context@]);
        event
    }

    /// The node that `reference` names in the construct of the innermost
    /// record.
    pub fn get_node<'a>(&self, reference: &ast::Reference, program: &'a CompiledProgram) -> (result:
        Result<&'a Node, VmError>)
        ensures
            match node_of(*program, self@, reference@) {
                Ok(node) => result matches Ok(n) && *n == node,
                Err(error) => result matches Err(e) && e@ == error,
            },
    {
        let count = self.contexts.len();
        if count > 0 {
            let nodes = program.nodes_of(self.contexts[count - 1].owner)?;
            if let Some(i) = find(nodes, reference) {
                return Ok(&nodes[i]);
            }
        }
        Err(VmError::NodeDoesNotExists(reference.clone()))
    }

    /// The node at the instruction pointer of the innermost record.
    pub fn get_current_node<'a>(&self, program: &'a CompiledProgram) -> (result: Option<&'a Node>)
        ensures
            match current_node(*program, self@) {
                Some(node) => result matches Some(n) && *n == node,
                None => result is None,
            },
    {
        let count = self.contexts.len();
        if count > 0 {
            let context = &self.contexts[count - 1];
            if context.current < context.execution.len() {
                let guid = ast::Reference::Guid(context.execution[context.current]);
                if let Ok(node) = self.get_node(&guid, program) {
                    return Some(node);
                }
            }
        }
        None
    }

    /// The place in the execution order of the innermost record of the node
    /// that `reference` names.
    pub fn find_target(&self, reference: &ast::Reference, program: &CompiledProgram) -> (result:
        Result<usize, VmError>)
        ensures
            match target_of(*program, self@, reference@) {
                Ok(index) => result == Ok::<usize, VmError>(index),
                Err(error) => result matches Err(e) && e@ == error,
            },
    {
        let guid = self.get_node(reference, program)?.guid;
        let count = self.contexts.len();
        if count > 0 {
            if let Some(index) = find_in_order(&self.contexts[count - 1].execution, guid) {
                return Ok(index);
            }
        }
        Err(VmError::NodeNotFoundInExecutionPipeline(reference.clone()))
    }

    /// Moves the instruction pointer of the innermost record to the node
    /// that `reference` names. Where that fails the event stays as it is.
    pub fn go_to_node(&mut self, reference: &ast::Reference, program: &CompiledProgram) -> (result:
        Result<(), VmError>)
        ensures
            match target_of(*program, old(self)@, reference@) {
                Ok(index) => result is Ok && final(self)@ == old(self)@.at(index),
                Err(error) => result matches Err(e) && e@ == error && final(self)@ == old(self)@,
            },
    {
        let index = self.find_target(reference, program)?;
        self.jump_to(index);
        Ok(())
    }

    /// The cell of the local variable that `reference` names.
    pub fn local_variable_value(&self, reference: &ast::Reference, program: &CompiledProgram) -> (result:
        Result<Reference, VmError>)
        ensures
            match local_variable(*program, self@, reference@) {
                Ok(cell) => result == Ok::<Reference, VmError>(cell),
                Err(error) => result matches Err(e) && e@ == error,
            },
    {
        let count = self.contexts.len();
        if count > 0 {
            let context = &self.contexts[count - 1];
            match reference {
                ast::Reference::Unset => {},
                ast::Reference::Guid(guid) => {
                    if let Some(cell) = context.variables.get(guid) {
                        return Ok(*cell);
                    }
                },
                ast::Reference::Named(_) => {
                    if let Ok(declared) = program.variables_of(context.owner) {
                        if let Some(v) = find(declared, reference) {
                            if let Some(cell) = context.variables.get(&declared[v].guid) {
                                return Ok(*cell);
                            }
                        }
                    }
                },
            }
        }
        Err(VmError::LocalVariableDoesNotExists(reference.clone()))
    }
}

} // verus!
