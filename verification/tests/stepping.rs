use script_flow::ast::{
    Event, IfElse, Link, Node, NodeType, Operation, Program, Reference, TypeConstraint, Variable,
    GUID,
};
use script_flow::document::{Document, Number};
use script_flow::error::{VmError, VmOperationError};
use script_flow::event::{VmEvent, VmJump};
use script_flow::operation::VmOperation;
use script_flow::program::CompiledProgram;
use script_flow::run::{process_event, step_event};
use script_flow::step::VmStepStatus;
use script_flow::value::{Heap, Value};
use std::collections::HashMap;

struct Tick;

impl VmOperation for Tick {
    fn execute(
        &mut self,
        heap: &mut Heap,
        inputs: &Vec<usize>,
    ) -> Result<Vec<usize>, VmOperationError> {
        let count = match heap.get(inputs[0]) {
            Some(Value::Number(Number::PosInt(n))) => *n + 1,
            _ => panic!("no counter"),
        };
        assert!(heap.write(inputs[0], Value::Number(Number::PosInt(count))));
        Ok(vec![heap.store(Value::Bool(count == 3))])
    }
}

/// A machine taken apart: what a step needs.
struct Bench {
    program: CompiledProgram,
    globals: HashMap<GUID, usize>,
    operations: Vec<(String, Tick)>,
    heap: Heap,
    event: VmEvent,
}

impl Bench {
    fn step(&mut self) -> Result<VmStepStatus, VmError> {
        step_event(
            &self.program,
            &self.globals,
            &mut self.operations,
            &mut self.heap,
            &mut self.event,
        )
    }

    fn run(&mut self, budget: usize) -> Result<bool, VmError> {
        process_event(
            &self.program,
            &self.globals,
            &mut self.operations,
            &mut self.heap,
            &mut self.event,
            budget,
        )
    }

    fn current(&self) -> usize {
        self.event.contexts.last().unwrap().current
    }

    fn jumps(&self) -> Vec<VmJump> {
        self.event.contexts.last().unwrap().jump_stack.clone()
    }

    fn output_of(&self, guid: GUID) -> usize {
        self.event.get_node_output(Link::NodeIndexed(guid, 0)).unwrap()
    }
}

fn node(guid: GUID, node_type: NodeType, next: Reference, links: Vec<GUID>) -> Node {
    Node {
        guid,
        name: format!("node{}", guid),
        node_type,
        next_node: next,
        input_links: links.into_iter().map(|g| Link::NodeIndexed(g, 0)).collect(),
    }
}

fn any(count: usize) -> Vec<TypeConstraint> {
    (0..count).map(|_| TypeConstraint::Any).collect()
}

/// A bench for one event with one input, the counter cell, and one output.
fn bench(nodes: Vec<Node>) -> Bench {
    let program = Program {
        events: vec![Event {
            guid: 10,
            name: "main".to_owned(),
            entry_node: Reference::Guid(1),
            input_constrains: any(1),
            output_constrains: any(1),
            variables: vec![Variable { guid: 800, name: "local".to_owned() }],
            nodes,
        }],
        functions: vec![],
        types: vec![],
        traits: vec![],
        variables: vec![Variable { guid: 900, name: "global".to_owned() }],
        operations: vec![Operation {
            guid: 100,
            name: "tick".to_owned(),
            input_constrains: any(1),
            output_constrains: any(1),
        }],
    };
    let program = CompiledProgram::new(program).unwrap();
    let mut heap = Heap::new();
    let counter = heap.store(Value::Number(Number::PosInt(0)));
    let global = heap.store(Value::String("global".to_owned()));
    let mut globals = HashMap::new();
    globals.insert(900, global);
    let execution = program.event_execution_order.get(&10).unwrap().clone();
    let event = VmEvent::new(&mut heap, 10, execution, vec![800], vec![counter], 1);
    Bench { program, globals, operations: vec![("tick".to_owned(), Tick)], heap, event }
}

fn counter(bench: &Bench) -> u64 {
    match bench.heap.get(0) {
        Some(Value::Number(Number::PosInt(n))) => *n,
        _ => panic!("no counter"),
    }
}

fn guid(g: GUID) -> Reference {
    Reference::Guid(g)
}

#[test]
fn a_break_leaves_its_loop_at_once() {
    let mut bench = bench(vec![
        node(1, NodeType::Loop(guid(2)), guid(3), vec![]),
        node(2, NodeType::Break, Reference::Unset, vec![1]),
        node(3, NodeType::GetInput(0), Reference::Unset, vec![]),
    ]);
    assert_eq!(bench.event.contexts[0].execution, vec![1, 2, 3]);
    assert_eq!(bench.step().unwrap(), VmStepStatus::Continue);
    assert_eq!(bench.current(), 1);
    assert_eq!(bench.jumps(), vec![VmJump::Sentinel(None), VmJump::Loop(1)]);
    assert_eq!(bench.step().unwrap(), VmStepStatus::Continue);
    assert_eq!(bench.current(), 2);
    assert_eq!(bench.jumps(), vec![VmJump::Sentinel(None)]);
    assert_eq!(bench.step().unwrap(), VmStepStatus::Continue);
    assert!(bench.event.contexts.is_empty());
    assert_eq!(bench.step().unwrap(), VmStepStatus::Stop);
    assert_eq!(bench.step().unwrap(), VmStepStatus::Stop);
}

#[test]
fn a_loop_with_a_break_at_three_runs_its_body_three_times() {
    let mut bench = bench(vec![
        node(1, NodeType::GetInput(0), guid(2), vec![]),
        node(2, NodeType::Loop(guid(3)), guid(8), vec![]),
        node(3, NodeType::GetInput(0), guid(4), vec![2]),
        node(4, NodeType::CallOperation(Reference::Named("tick".to_owned())), guid(5), vec![3]),
        node(
            5,
            NodeType::IfElse(IfElse { next_node_true: guid(6), next_node_false: guid(2) }),
            guid(7),
            vec![4],
        ),
        node(6, NodeType::GetInput(0), Reference::Unset, vec![5]),
        node(7, NodeType::Break, Reference::Unset, vec![]),
        node(8, NodeType::SetOutput(0), Reference::Unset, vec![1]),
    ]);
    assert_eq!(bench.event.contexts[0].execution, vec![1, 2, 3, 4, 5, 6, 7, 8]);
    assert_eq!(bench.run(1000).unwrap(), false);
    assert_eq!(counter(&bench), 3);
    assert_eq!(bench.event.outputs, vec![0]);
    assert!(bench.event.contexts.is_empty());
}

#[test]
fn a_loop_without_a_break_goes_round_until_the_budget_is_used_up() {
    let mut bench = bench(vec![
        node(1, NodeType::Loop(guid(2)), Reference::Unset, vec![]),
        node(2, NodeType::CallOperation(guid(100)), Reference::Unset, vec![1]),
    ]);
    bench.event.set_node_output(1, 0);
    assert_eq!(bench.run(7).unwrap(), true);
    assert_eq!(counter(&bench), 3);
    assert_eq!(bench.current(), 1);
    assert_eq!(bench.jumps(), vec![VmJump::Sentinel(None), VmJump::Loop(1)]);
    assert_eq!(bench.run(1).unwrap(), true);
    assert_eq!(counter(&bench), 4);
    assert_eq!(bench.current(), 0);
    assert_eq!(bench.jumps(), vec![VmJump::Sentinel(None)]);
    assert_eq!(bench.run(0).unwrap(), true);
    assert_eq!(counter(&bench), 4);
}

#[test]
fn continue_goes_back_to_the_entry_of_the_loop() {
    let mut bench = bench(vec![
        node(1, NodeType::Loop(guid(2)), Reference::Unset, vec![]),
        node(2, NodeType::GetInput(0), Reference::Unset, vec![1]),
        node(3, NodeType::Continue, Reference::Unset, vec![2]),
    ]);
    assert_eq!(bench.event.contexts[0].execution, vec![1, 2, 3]);
    bench.step().unwrap();
    bench.step().unwrap();
    assert_eq!(bench.current(), 2);
    assert_eq!(bench.step().unwrap(), VmStepStatus::Continue);
    assert_eq!(bench.current(), 1);
    assert_eq!(bench.jumps(), vec![VmJump::Sentinel(None)]);
    bench.step().unwrap();
    match bench.step() {
        Err(VmError::TryingToContinueOutsideLoop) => {}
        other => panic!("unexpected result: {:?}", other),
    }
    assert_eq!(bench.current(), 2);
    assert_eq!(bench.jumps(), vec![VmJump::Sentinel(None)]);
}

#[test]
fn a_break_outside_a_loop_fails() {
    let mut bench = bench(vec![node(1, NodeType::Break, Reference::Unset, vec![])]);
    match bench.step() {
        Err(VmError::TryingToBreakOutsideLoop) => {}
        other => panic!("unexpected result: {:?}", other),
    }
    assert_eq!(bench.jumps(), vec![VmJump::Sentinel(None)]);
    bench.event.pop_jump_from_stack().unwrap();
    match bench.step() {
        Err(VmError::StackUnderflow) => {}
        other => panic!("unexpected result: {:?}", other),
    }
    match bench.event.pop_jump_from_stack() {
        Err(VmError::StackUnderflow) => {}
        other => panic!("unexpected result: {:?}", other),
    }
}

fn branch(condition: Document, on_true: NodeType, on_false: NodeType) -> Bench {
    bench(vec![
        node(1, NodeType::GetValue(condition), guid(2), vec![]),
        node(
            2,
            NodeType::IfElse(IfElse { next_node_true: guid(3), next_node_false: guid(4) }),
            guid(5),
            vec![1],
        ),
        node(3, on_true, Reference::Unset, vec![2]),
        node(4, on_false, Reference::Unset, vec![3]),
        node(5, NodeType::Halt, Reference::Unset, vec![4]),
    ])
}

#[test]
fn if_else_takes_the_branch_of_its_condition() {
    let mut yes = branch(Document::Bool(true), NodeType::GetInput(0), NodeType::GetInput(0));
    assert_eq!(yes.event.contexts[0].execution, vec![1, 2, 3, 4, 5]);
    yes.step().unwrap();
    yes.step().unwrap();
    assert_eq!(yes.current(), 2);
    assert_eq!(yes.jumps(), vec![VmJump::Sentinel(None), VmJump::IfElse(2)]);
    let mut no = branch(Document::Bool(false), NodeType::GetInput(0), NodeType::GetInput(0));
    no.step().unwrap();
    no.step().unwrap();
    assert_eq!(no.current(), 3);
    assert_eq!(no.jumps(), vec![VmJump::Sentinel(None), VmJump::IfElse(2)]);
}

#[test]
fn a_break_in_a_branch_fails() {
    let mut bench = branch(Document::Bool(true), NodeType::Break, NodeType::Continue);
    bench.step().unwrap();
    bench.step().unwrap();
    match bench.step() {
        Err(VmError::TryingToBreakIfElse) => {}
        other => panic!("unexpected result: {:?}", other),
    }
    assert_eq!(bench.current(), 2);
    assert_eq!(bench.jumps(), vec![VmJump::Sentinel(None), VmJump::IfElse(2)]);
    let mut other = branch(Document::Bool(false), NodeType::Break, NodeType::Continue);
    other.step().unwrap();
    other.step().unwrap();
    match other.step() {
        Err(VmError::TryingToContinueIfElse) => {}
        other => panic!("unexpected result: {:?}", other),
    }
}

#[test]
fn a_terminal_node_in_a_branch_leads_to_the_node_after_the_conditional() {
    let mut bench = bench(vec![
        node(1, NodeType::GetValue(Document::Bool(true)), guid(2), vec![]),
        node(
            2,
            NodeType::IfElse(IfElse { next_node_true: guid(4), next_node_false: guid(4) }),
            guid(3),
            vec![1],
        ),
        node(3, NodeType::Halt, Reference::Unset, vec![]),
        node(4, NodeType::GetInput(0), Reference::Unset, vec![2]),
    ]);
    assert_eq!(bench.event.contexts[0].execution, vec![1, 2, 4, 3]);
    bench.step().unwrap();
    bench.step().unwrap();
    assert_eq!(bench.current(), 2);
    assert_eq!(bench.step().unwrap(), VmStepStatus::Continue);
    assert_eq!(bench.current(), 3);
    assert_eq!(bench.jumps(), vec![VmJump::Sentinel(None)]);
    assert_eq!(bench.output_of(4), 0);
    assert_eq!(bench.step().unwrap(), VmStepStatus::Halt);
    assert!(bench.event.contexts.is_empty());
}

#[test]
fn a_condition_that_is_no_truth_value_fails_the_step() {
    let mut bench = branch(Document::String("yes".to_owned()), NodeType::Halt, NodeType::Halt);
    bench.step().unwrap();
    let condition = bench.output_of(1);
    match bench.step() {
        Err(VmError::ValueIsNotABool(cell)) => assert_eq!(cell, condition),
        other => panic!("unexpected result: {:?}", other),
    }
    assert_eq!(bench.current(), 1);
    assert_eq!(bench.jumps(), vec![VmJump::Sentinel(None)]);
}

#[test]
fn a_jump_to_a_node_that_is_not_there_fails_the_step() {
    let mut bench = bench(vec![node(1, NodeType::Loop(guid(9)), Reference::Unset, vec![])]);
    match bench.step() {
        Err(VmError::NodeDoesNotExists(Reference::Guid(9))) => {}
        other => panic!("unexpected result: {:?}", other),
    }
    assert_eq!(bench.jumps(), vec![VmJump::Sentinel(None)]);
    let mut other = self::bench(vec![
        node(1, NodeType::Loop(guid(2)), Reference::Unset, vec![]),
        node(2, NodeType::Halt, Reference::Unset, vec![1]),
    ]);
    other.event.contexts[0].execution = vec![1];
    match other.step() {
        Err(VmError::NodeNotFoundInExecutionPipeline(Reference::Guid(2))) => {}
        other => panic!("unexpected result: {:?}", other),
    }
}

#[test]
fn a_marker_of_a_node_that_is_no_loop_fails_the_step() {
    let mut bench = bench(vec![node(1, NodeType::Break, Reference::Unset, vec![])]);
    bench.event.push_jump_on_stack(VmJump::Loop(1));
    match bench.step() {
        Err(VmError::NodeIsNotALoop(Reference::Guid(1))) => {}
        other => panic!("unexpected result: {:?}", other),
    }
    let mut data = self::bench(vec![node(1, NodeType::GetInput(0), Reference::Unset, vec![])]);
    data.event.push_jump_on_stack(VmJump::IfElse(1));
    match data.step() {
        Err(VmError::NodeIsNotAnIfElse(Reference::Guid(1))) => {}
        other => panic!("unexpected result: {:?}", other),
    }
    assert!(data.event.get_node_outputs(1).is_err());
    let mut looped = self::bench(vec![node(1, NodeType::GetInput(0), Reference::Unset, vec![])]);
    looped.event.push_jump_on_stack(VmJump::Loop(1));
    match looped.step() {
        Err(VmError::NodeIsNotALoop(Reference::Guid(1))) => {}
        other => panic!("unexpected result: {:?}", other),
    }
}

#[test]
fn a_second_terminal_node_finds_the_jump_stack_empty() {
    let mut bench = bench(vec![
        node(1, NodeType::GetInput(0), Reference::Unset, vec![]),
        node(2, NodeType::GetInput(0), Reference::Unset, vec![]),
    ]);
    assert_eq!(bench.step().unwrap(), VmStepStatus::Continue);
    assert!(bench.jumps().is_empty());
    match bench.step() {
        Err(VmError::StackUnderflow) => {}
        other => panic!("unexpected result: {:?}", other),
    }
    assert_eq!(bench.current(), 1);
}

#[test]
fn nodes_without_an_effect_fail_the_step() {
    let mut unused = bench(vec![node(1, NodeType::Unused, Reference::Unset, vec![])]);
    match unused.step() {
        Err(VmError::TryingToPerformInvalidNodeType(NodeType::Unused)) => {}
        other => panic!("unexpected result: {:?}", other),
    }
    let mut entry = bench(vec![node(1, NodeType::Entry, Reference::Unset, vec![])]);
    match entry.step() {
        Err(VmError::TryingToPerformInvalidNodeType(NodeType::Entry)) => {}
        other => panic!("unexpected result: {:?}", other),
    }
    assert_eq!(entry.current(), 0);
}

fn single(node_type: NodeType) -> Bench {
    bench(vec![
        node(1, NodeType::GetInput(0), guid(2), vec![]),
        node(2, node_type, guid(3), vec![1]),
        node(3, NodeType::Halt, Reference::Unset, vec![]),
    ])
}

#[test]
fn reading_nodes_cache_the_cell_they_find() {
    let mut input = single(NodeType::GetInput(0));
    input.step().unwrap();
    input.step().unwrap();
    assert_eq!(input.output_of(2), 0);
    assert_eq!(input.current(), 2);
    let mut global = single(NodeType::GetGlobalVariable(Reference::Named("global".to_owned())));
    global.step().unwrap();
    global.step().unwrap();
    assert_eq!(global.output_of(2), 1);
    let mut by_guid = single(NodeType::GetGlobalVariable(guid(900)));
    by_guid.step().unwrap();
    by_guid.step().unwrap();
    assert_eq!(by_guid.output_of(2), 1);
    let mut local = single(NodeType::GetLocalVariable(Reference::Named("local".to_owned())));
    local.step().unwrap();
    local.step().unwrap();
    assert_eq!(local.output_of(2), 3);
    let mut local_by_guid = single(NodeType::GetLocalVariable(guid(800)));
    local_by_guid.step().unwrap();
    local_by_guid.step().unwrap();
    assert_eq!(local_by_guid.output_of(2), 3);
    assert_eq!(local_by_guid.heap.get(3), Some(&Value::Empty));
}

#[test]
fn reading_what_is_not_there_fails_the_step() {
    let mut input = single(NodeType::GetInput(1));
    input.step().unwrap();
    match input.step() {
        Err(VmError::InputDoesNotExists(1)) => {}
        other => panic!("unexpected result: {:?}", other),
    }
    assert_eq!(input.current(), 1);
    let mut instance = single(NodeType::GetInstance);
    instance.step().unwrap();
    match instance.step() {
        Err(VmError::InstanceDoesNotExists) => {}
        other => panic!("unexpected result: {:?}", other),
    }
    let mut global = single(NodeType::GetGlobalVariable(Reference::Named("local".to_owned())));
    global.step().unwrap();
    match global.step() {
        Err(VmError::GlobalVariableDoesNotExists(Reference::Named(name))) => {
            assert_eq!(name, "local")
        }
        other => panic!("unexpected result: {:?}", other),
    }
    let mut unset = single(NodeType::GetGlobalVariable(Reference::Unset));
    unset.step().unwrap();
    match unset.step() {
        Err(VmError::GlobalVariableDoesNotExists(Reference::Unset)) => {}
        other => panic!("unexpected result: {:?}", other),
    }
    let mut local = single(NodeType::GetLocalVariable(guid(900)));
    local.step().unwrap();
    match local.step() {
        Err(VmError::LocalVariableDoesNotExists(Reference::Guid(900))) => {}
        other => panic!("unexpected result: {:?}", other),
    }
    let mut named = single(NodeType::GetLocalVariable(Reference::Named("global".to_owned())));
    named.step().unwrap();
    match named.step() {
        Err(VmError::LocalVariableDoesNotExists(Reference::Named(name))) => {
            assert_eq!(name, "global")
        }
        other => panic!("unexpected result: {:?}", other),
    }
}

#[test]
fn an_output_is_written_to_its_slot() {
    let mut bench = single(NodeType::SetOutput(0));
    let before = bench.event.contexts[0].outputs.clone();
    assert_eq!(before, vec![2]);
    bench.step().unwrap();
    bench.step().unwrap();
    assert_eq!(bench.event.contexts[0].outputs, vec![0]);
    let mut missing = single(NodeType::SetOutput(1));
    missing.step().unwrap();
    match missing.step() {
        Err(VmError::OutputDoesNotExists(1)) => {}
        other => panic!("unexpected result: {:?}", other),
    }
    assert_eq!(missing.event.contexts[0].outputs, vec![2]);
}

#[test]
fn an_input_that_was_not_cached_fails_the_step() {
    let mut bench = bench(vec![node(1, NodeType::SetOutput(0), Reference::Unset, vec![])]);
    match bench.step() {
        Err(VmError::ThereIsNoCachedNodeIndexedOutput(Link::Unlinked)) => {}
        other => panic!("unexpected result: {:?}", other),
    }
    let mut later = single(NodeType::SetOutput(0));
    later.event.contexts[0].current = 1;
    match later.step() {
        Err(VmError::ThereAreNoCachedNodeOutputs(Reference::Guid(1))) => {}
        other => panic!("unexpected result: {:?}", other),
    }
    later.event.set_node_outputs(1, vec![]);
    match later.step() {
        Err(VmError::ThereIsNoCachedNodeIndexedOutput(Link::NodeIndexed(1, 0))) => {}
        other => panic!("unexpected result: {:?}", other),
    }
}

#[test]
fn a_literal_becomes_a_value_in_a_new_cell() {
    let literal = Document::Sequence(vec![Document::Bool(true)]);
    let mut bench = bench(vec![node(1, NodeType::GetValue(literal), Reference::Unset, vec![])]);
    let cells = bench.heap.len();
    bench.step().unwrap();
    assert_eq!(bench.heap.len(), cells + 2);
    assert_eq!(bench.heap.get(cells), Some(&Value::Bool(true)));
    assert_eq!(bench.heap.get(cells + 1), Some(&Value::List(vec![cells])));
    let keyed = Document::Mapping(vec![(Document::Null, Document::Null)]);
    let mut failing = self::bench(vec![node(1, NodeType::GetValue(keyed), Reference::Unset, vec![])]);
    match failing.step() {
        Err(VmError::MappingKeyIsNotAString) => {}
        other => panic!("unexpected result: {:?}", other),
    }
    assert_eq!(failing.current(), 0);
}

fn over(value: Value, node_type: NodeType) -> (Bench, usize) {
    let mut bench = single(node_type);
    let item = bench.heap.store(Value::Bool(true));
    let cell = match value {
        Value::List(_) => bench.heap.store(Value::List(vec![item, item])),
        Value::Object(_) => bench.heap.store(Value::Object(vec![("key".to_owned(), item)])),
        other => bench.heap.store(other),
    };
    bench.event.contexts[0].inputs = vec![cell];
    bench.step().unwrap();
    (bench, item)
}

#[test]
fn an_item_of_a_list_is_found_by_its_index() {
    let (mut bench, item) = over(Value::List(vec![]), NodeType::GetListItem(1));
    bench.step().unwrap();
    assert_eq!(bench.output_of(2), item);
    let (mut beyond, item) = over(Value::List(vec![]), NodeType::GetListItem(2));
    match beyond.step() {
        Err(VmError::IndexOutOfBounds(2, 2, list)) => assert_eq!(list, item + 1),
        other => panic!("unexpected result: {:?}", other),
    }
    let (mut wrong, item) = over(Value::Object(vec![]), NodeType::GetListItem(0));
    match wrong.step() {
        Err(VmError::ValueIsNotAList(cell)) => assert_eq!(cell, item + 1),
        other => panic!("unexpected result: {:?}", other),
    }
}

#[test]
fn an_entry_of_an_object_is_found_by_its_key() {
    let (mut bench, item) = over(Value::Object(vec![]), NodeType::GetObjectItem("key".to_owned()));
    bench.step().unwrap();
    assert_eq!(bench.output_of(2), item);
    let (mut missing, item) = over(Value::Object(vec![]), NodeType::GetObjectItem("k".to_owned()));
    match missing.step() {
        Err(VmError::ObjectKeyDoesNotExists(key, object)) => {
            assert_eq!(key, "k");
            assert_eq!(object, item + 1);
        }
        other => panic!("unexpected result: {:?}", other),
    }
    let (mut wrong, item) = over(Value::Empty, NodeType::GetObjectItem("key".to_owned()));
    match wrong.step() {
        Err(VmError::ValueIsNotAnObject(cell)) => assert_eq!(cell, item + 1),
        other => panic!("unexpected result: {:?}", other),
    }
}

#[test]
fn a_handle_of_no_cell_fails_the_step() {
    let mut bench = single(NodeType::GetListItem(0));
    bench.event.contexts[0].inputs = vec![77];
    bench.step().unwrap();
    match bench.step() {
        Err(VmError::ReferenceDoesNotExists(77)) => {}
        other => panic!("unexpected result: {:?}", other),
    }
}

fn mutation() -> Bench {
    let mut bench = bench(vec![
        node(1, NodeType::GetInput(0), guid(2), vec![]),
        node(2, NodeType::GetGlobalVariable(guid(900)), guid(3), vec![1]),
        node(3, NodeType::MutateValue, guid(4), vec![1, 2]),
        node(4, NodeType::Halt, Reference::Unset, vec![]),
    ]);
    bench.step().unwrap();
    bench.step().unwrap();
    bench
}

#[test]
fn a_mutation_overwrites_the_destination_with_a_copy_of_the_source() {
    let mut bench = mutation();
    assert_eq!(bench.step().unwrap(), VmStepStatus::Continue);
    assert_eq!(bench.heap.get(0), Some(&Value::String("global".to_owned())));
    assert_eq!(bench.heap.get(1), Some(&Value::String("global".to_owned())));
    assert_eq!(bench.current(), 3);
}

#[test]
fn a_mutation_of_a_held_destination_fails() {
    let mut bench = mutation();
    assert!(bench.heap.hold(0));
    match bench.step() {
        Err(VmError::TryingToMutateBorrowedReference(1, 0)) => {}
        other => panic!("unexpected result: {:?}", other),
    }
    assert_eq!(bench.heap.get(0), Some(&Value::Number(Number::PosInt(0))));
    assert_eq!(bench.current(), 2);
    assert!(bench.heap.release(0));
    assert_eq!(bench.step().unwrap(), VmStepStatus::Continue);
    assert_eq!(bench.heap.get(0), Some(&Value::String("global".to_owned())));
}

#[test]
fn a_halt_ends_the_batch_and_the_event_goes_on_in_the_next() {
    let mut bench = bench(vec![
        node(1, NodeType::Halt, guid(2), vec![]),
        node(2, NodeType::SetOutput(0), Reference::Unset, vec![1]),
    ]);
    bench.event.set_node_output(1, 0);
    assert_eq!(bench.run(100).unwrap(), true);
    assert_eq!(bench.current(), 1);
    assert_eq!(bench.run(100).unwrap(), false);
    assert_eq!(bench.event.outputs, vec![0]);
}

#[test]
fn an_event_without_records_stops() {
    let mut bench = bench(vec![]);
    assert_eq!(bench.event.contexts[0].execution, Vec::<GUID>::new());
    assert_eq!(bench.step().unwrap(), VmStepStatus::Stop);
    bench.event.go_to_next_node();
    assert!(bench.event.contexts.is_empty());
    assert_eq!(bench.event.outputs, vec![2]);
    assert_eq!(bench.step().unwrap(), VmStepStatus::Stop);
    assert!(bench.event.instance_value().is_err());
    assert!(bench.event.input_value(0).is_err());
    assert!(bench.event.set_output_value(0, 0).is_err());
    assert!(bench.event.get_node(&guid(1), &bench.program).is_err());
    assert!(bench.event.get_current_node(&bench.program).is_none());
    assert!(bench.event.go_to_node(&guid(1), &bench.program).is_err());
    assert!(bench.event.local_variable_value(&guid(800), &bench.program).is_err());
}
