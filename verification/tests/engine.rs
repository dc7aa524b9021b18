use script_flow::ast::{
    Event, Link, Node, NodeType, Program, Reference, TypeConstraint, Variable, GUID,
};
use script_flow::batch::{handles_of, STEP_BUDGET};
use script_flow::document::Number;
use script_flow::error::{VmError, VmOperationError};
use script_flow::operation::VmOperation;
use script_flow::value::{Heap, Value};
use script_flow::vm::Vm;
use std::collections::HashMap;

struct Count(u64);

impl VmOperation for Count {
    fn execute(
        &mut self,
        heap: &mut Heap,
        _inputs: &Vec<usize>,
    ) -> Result<Vec<usize>, VmOperationError> {
        self.0 += 1;
        Ok(vec![heap.store(Value::Number(Number::PosInt(self.0)))])
    }
}

fn node(guid: GUID, node_type: NodeType, next: Reference, links: Vec<GUID>) -> Node {
    Node {
        guid,
        name: format!("node{}", guid),
        node_type,
        next_node: next,
        input_links: links.into_iter().map(|g| Link::NodeIndexed(g, 0)).collect(),
    }
}

fn event(guid: GUID, name: &str, outputs: usize, nodes: Vec<Node>) -> Event {
    Event {
        guid,
        name: name.to_owned(),
        entry_node: match nodes.first() {
            Some(first) => Reference::Guid(first.guid),
            None => Reference::Unset,
        },
        input_constrains: vec![],
        output_constrains: (0..outputs).map(|_| TypeConstraint::Any).collect(),
        variables: vec![],
        nodes,
    }
}

fn program() -> Program {
    Program {
        events: vec![
            event(
                10,
                "count",
                1,
                vec![
                    node(1, NodeType::CallOperation(Reference::Named("count".to_owned())), Reference::Unset, vec![]),
                    node(2, NodeType::SetOutput(0), Reference::Unset, vec![1]),
                ],
            ),
            event(11, "idle", 0, vec![]),
            event(
                12,
                "rest",
                0,
                vec![
                    node(5, NodeType::Halt, Reference::Guid(6), vec![]),
                    node(6, NodeType::Halt, Reference::Unset, vec![]),
                ],
            ),
            event(13, "break", 0, vec![node(7, NodeType::Break, Reference::Unset, vec![])]),
        ],
        functions: vec![],
        types: vec![],
        traits: vec![],
        variables: vec![
            Variable { guid: 900, name: "first".to_owned() },
            Variable { guid: 901, name: "second".to_owned() },
        ],
        operations: vec![script_flow::ast::Operation {
            guid: 100,
            name: "count".to_owned(),
            input_constrains: vec![],
            output_constrains: vec![TypeConstraint::Any],
        }],
    }
}

fn machine() -> Vm<Count> {
    let mut vm = Vm::new(program()).unwrap();
    vm.register_operation("count", Count(0));
    vm
}

fn number(vm: &Vm<Count>, handle: usize) -> u64 {
    match vm.heap().get(handle) {
        Some(Value::Number(Number::PosInt(n))) => *n,
        other => panic!("no number: {:?}", other),
    }
}

#[test]
fn a_new_machine_has_an_empty_cell_for_each_global_variable() {
    let mut vm: Vm<Count> = Vm::new(program()).unwrap();
    assert_eq!(vm.heap().len(), 2);
    assert_eq!(vm.global_variable_value(&Reference::Guid(900)).unwrap(), 0);
    assert_eq!(vm.global_variable_value(&Reference::Named("second".to_owned())).unwrap(), 1);
    assert_eq!(vm.heap().get(1), Some(&Value::Empty));
    assert!(vm.get_completed_events().is_empty());
    assert!(vm.process_events().is_ok());
}

#[test]
fn a_global_variable_is_bound_to_another_cell() {
    let mut vm = machine();
    let cell = vm.store_value(Value::Bool(true));
    assert_eq!(vm.set_global_variable_value(&Reference::Named("first".to_owned()), cell).unwrap(), 0);
    assert_eq!(vm.global_variable_value(&Reference::Guid(900)).unwrap(), cell);
    assert_eq!(vm.set_global_variable_value(&Reference::Guid(900), 0).unwrap(), cell);
    assert_eq!(vm.global_variable_value(&Reference::Guid(901)).unwrap(), 1);
}

#[test]
fn a_global_variable_that_is_not_there_is_an_error() {
    let mut vm = machine();
    match vm.global_variable_value(&Reference::Guid(5)) {
        Err(VmError::GlobalVariableDoesNotExists(Reference::Guid(5))) => {}
        other => panic!("unexpected result: {:?}", other),
    }
    match vm.set_global_variable_value(&Reference::Named("third".to_owned()), 0) {
        Err(VmError::GlobalVariableDoesNotExists(Reference::Named(name))) => {
            assert_eq!(name, "third")
        }
        other => panic!("unexpected result: {:?}", other),
    }
    match vm.set_global_variable_value(&Reference::Unset, 0) {
        Err(VmError::GlobalVariableDoesNotExists(Reference::Unset)) => {}
        other => panic!("unexpected result: {:?}", other),
    }
    assert_eq!(vm.global_variable_value(&Reference::Guid(900)).unwrap(), 0);
}

#[test]
fn an_operation_is_registered_and_removed_by_name() {
    let mut vm: Vm<Count> = Vm::new(program()).unwrap();
    assert!(!vm.unregister_operator("count"));
    let first = vm.run_event("count", vec![]).unwrap();
    match vm.process_events() {
        Err(VmError::OperationIsNotRegistered(name)) => assert_eq!(name, "count"),
        other => panic!("unexpected result: {:?}", other),
    }
    vm.register_operation("count", Count(10));
    vm.register_operation("other", Count(0));
    vm.register_operation("count", Count(40));
    vm.process_events().unwrap();
    let completed = vm.get_completed_events();
    assert_eq!(number(&vm, completed.get(&first).unwrap()[0]), 41);
    assert!(vm.unregister_operator("count"));
    assert!(!vm.unregister_operator("count"));
    assert!(vm.unregister_operator("other"));
}

#[test]
fn an_event_runs_under_a_new_handle_each_time() {
    let mut vm = machine();
    let first = vm.run_event("count", vec![]).unwrap();
    let second = vm.run_event("count", vec![]).unwrap();
    assert_ne!(first, second);
    vm.process_events().unwrap();
    let completed = vm.get_completed_events();
    assert_eq!(completed.len(), 2);
    let mut counts =
        vec![number(&vm, completed[&first][0]), number(&vm, completed[&second][0])];
    counts.sort();
    assert_eq!(counts, vec![1, 2]);
    assert!(vm.get_completed_events().is_empty());
}

#[test]
fn an_event_starts_under_the_handle_it_is_given() {
    let mut vm = machine();
    assert_eq!(vm.start_event(77, "count", vec![]).unwrap(), 77);
    assert!(vm.get_completed_events().is_empty());
    vm.single_step_event(77).unwrap();
    vm.single_step_event(77).unwrap();
    vm.single_step_event(77).unwrap();
    assert!(vm.get_completed_events().is_empty());
    vm.process_events().unwrap();
    let completed = vm.get_completed_events();
    assert_eq!(number(&vm, completed[&77][0]), 1);
}

#[test]
fn an_event_that_cannot_be_started_changes_nothing() {
    let mut vm = machine();
    match vm.run_event("unknown", vec![]) {
        Err(VmError::CouldNotRunEvent(name)) => assert_eq!(name, "unknown"),
        other => panic!("unexpected result: {:?}", other),
    }
    match vm.run_event("count", vec![0]) {
        Err(VmError::WrongNumberOfInputs(0, 1)) => {}
        other => panic!("unexpected result: {:?}", other),
    }
    assert_eq!(vm.heap().len(), 2);
    vm.process_events().unwrap();
    assert!(vm.get_completed_events().is_empty());
}

#[test]
fn an_event_without_an_entry_node_is_completed_at_once() {
    let mut vm = machine();
    let handle = vm.run_event("idle", vec![]).unwrap();
    let completed = vm.get_completed_events();
    assert_eq!(completed.get(&handle), Some(&vec![]));
    assert!(vm.single_step_event(handle).is_err());
}

#[test]
fn a_destroyed_event_is_completed_without_outputs() {
    let mut vm = machine();
    let handle = vm.run_event("count", vec![]).unwrap();
    vm.destroy_event(handle).unwrap();
    match vm.destroy_event(handle) {
        Err(VmError::EventDoesNotExists(Reference::Guid(guid))) => assert_eq!(guid, handle),
        other => panic!("unexpected result: {:?}", other),
    }
    vm.process_events().unwrap();
    let completed = vm.get_completed_events();
    assert_eq!(completed.get(&handle), Some(&vec![]));
}

#[test]
fn a_step_of_an_event_that_does_not_run_is_an_error() {
    let mut vm = machine();
    match vm.single_step_event(5) {
        Err(VmError::EventDoesNotExists(Reference::Guid(5))) => {}
        other => panic!("unexpected result: {:?}", other),
    }
}

#[test]
fn a_halted_event_stays_running_until_it_has_nothing_left() {
    let mut vm = machine();
    let handle = vm.run_event("rest", vec![]).unwrap();
    vm.process_events().unwrap();
    assert!(vm.get_completed_events().is_empty());
    vm.process_events().unwrap();
    assert!(vm.get_completed_events().is_empty());
    vm.process_events().unwrap();
    let completed = vm.get_completed_events();
    assert_eq!(completed.get(&handle), Some(&vec![]));
}

#[test]
fn a_batch_ends_at_the_first_error_and_the_event_stays() {
    let mut vm = machine();
    let failing = vm.start_event(1, "break", vec![]).unwrap();
    let fine = vm.start_event(2, "count", vec![]).unwrap();
    match vm.process_events() {
        Err(VmError::TryingToBreakOutsideLoop) => {}
        other => panic!("unexpected result: {:?}", other),
    }
    match vm.single_step_event(failing) {
        Err(VmError::TryingToBreakOutsideLoop) => {}
        other => panic!("unexpected result: {:?}", other),
    }
    vm.destroy_event(failing).unwrap();
    vm.process_events().unwrap();
    let completed = vm.get_completed_events();
    assert_eq!(completed.get(&failing), Some(&vec![]));
    assert_eq!(number(&vm, completed[&fine][0]), 1);
}

#[test]
fn values_are_stored_held_and_released_through_the_machine() {
    let mut vm = machine();
    let cell = vm.store_value(Value::Bool(true));
    assert_eq!(cell, 2);
    assert!(vm.hold_value(cell));
    assert!(vm.heap().is_held(cell));
    assert!(vm.release_value(cell));
    assert!(!vm.heap().is_held(cell));
    assert!(!vm.hold_value(99));
    assert!(!vm.release_value(99));
}

#[test]
fn the_handles_of_a_table_are_its_keys() {
    let mut table: HashMap<GUID, bool> = HashMap::new();
    assert!(handles_of(&table).is_empty());
    table.insert(3, true);
    table.insert(1, false);
    table.insert(3, false);
    let mut handles = handles_of(&table);
    handles.sort();
    assert_eq!(handles, vec![1, 3]);
    assert_eq!(STEP_BUDGET, 4294967295);
}

struct Stamp(u64);

impl VmOperation for Stamp {
    fn execute(
        &mut self,
        heap: &mut Heap,
        _inputs: &Vec<usize>,
    ) -> Result<Vec<usize>, VmOperationError> {
        Ok(vec![heap.store(Value::Number(Number::PosInt(self.0)))])
    }
}

#[test]
fn a_machine_over_boxed_operations_holds_operations_of_different_types() {
    let mut vm: Vm<Box<dyn VmOperation>> = Vm::new(program()).unwrap();
    vm.register_operation("other", Box::new(Count(4)));
    vm.register_operation("count", Box::new(Stamp(9)));
    let handle = vm.run_event("count", vec![]).unwrap();
    vm.process_events().unwrap();
    let completed = vm.get_completed_events();
    match vm.heap().get(completed[&handle][0]) {
        Some(Value::Number(Number::PosInt(9))) => {}
        other => panic!("unexpected value: {:?}", other),
    }
    assert!(vm.unregister_operator("other"));
}
