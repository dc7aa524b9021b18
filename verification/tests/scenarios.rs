use script_flow::ast::{
    Event, Function, IfElse, Link, Node, NodeType, Operation, Program, Reference, TypeConstraint,
    Variable, GUID,
};
use script_flow::document::Number;
use script_flow::error::{VmError, VmOperationError};
use script_flow::operation::VmOperation;
use script_flow::value::{Heap, Value};
use script_flow::vm::Vm;

enum Native {
    Add,
    Tick,
    Fail,
}

fn number(heap: &Heap, handle: usize) -> Option<u64> {
    match heap.get(handle) {
        Some(Value::Number(Number::PosInt(n))) => Some(*n),
        _ => None,
    }
}

impl VmOperation for Native {
    fn execute(
        &mut self,
        heap: &mut Heap,
        inputs: &Vec<usize>,
    ) -> Result<Vec<usize>, VmOperationError> {
        match self {
            Native::Add => {
                let a = number(heap, inputs[0]).unwrap();
                let b = number(heap, inputs[1]).unwrap();
                Ok(vec![heap.store(Value::Number(Number::PosInt(a + b)))])
            }
            Native::Tick => {
                let count = number(heap, inputs[0]).unwrap() + 1;
                assert!(heap.write(inputs[0], Value::Number(Number::PosInt(count))));
                Ok(vec![heap.store(Value::Bool(count == 3))])
            }
            Native::Fail => Err(VmOperationError::CouldNotPerformOperation {
                message: "refused".to_owned(),
                name: "fail".to_owned(),
                inputs: vec![],
            }),
        }
    }
}

fn node(guid: GUID, node_type: NodeType, next: Reference, links: Vec<Link>) -> Node {
    Node { guid, name: format!("node{}", guid), node_type, next_node: next, input_links: links }
}

fn any(count: usize) -> Vec<TypeConstraint> {
    (0..count).map(|_| TypeConstraint::Any).collect()
}

fn event(guid: GUID, name: &str, inputs: usize, outputs: usize, nodes: Vec<Node>) -> Event {
    let entry = match nodes.first() {
        Some(first) => Reference::Guid(first.guid),
        None => Reference::Unset,
    };
    Event {
        guid,
        name: name.to_owned(),
        entry_node: entry,
        input_constrains: any(inputs),
        output_constrains: any(outputs),
        variables: vec![],
        nodes,
    }
}

fn operation(guid: GUID, name: &str, inputs: usize, outputs: usize) -> Operation {
    Operation {
        guid,
        name: name.to_owned(),
        input_constrains: any(inputs),
        output_constrains: any(outputs),
    }
}

fn program(events: Vec<Event>, functions: Vec<Function>, operations: Vec<Operation>) -> Program {
    Program {
        events,
        functions,
        types: vec![],
        traits: vec![],
        variables: vec![Variable { guid: 900, name: "counter".to_owned() }],
        operations,
    }
}

fn adder() -> Program {
    program(
        vec![event(
            10,
            "add",
            2,
            1,
            vec![
                node(1, NodeType::GetInput(0), Reference::Unset, vec![]),
                node(2, NodeType::GetInput(1), Reference::Unset, vec![]),
                node(
                    3,
                    NodeType::CallOperation(Reference::Named("add".to_owned())),
                    Reference::Unset,
                    vec![Link::NodeIndexed(1, 0), Link::NodeIndexed(2, 0)],
                ),
                node(4, NodeType::SetOutput(0), Reference::Unset, vec![Link::NodeIndexed(3, 0)]),
            ],
        )],
        vec![],
        vec![operation(100, "add", 2, 1)],
    )
}

#[test]
fn adding_two_and_three_yields_five() {
    let mut vm: Vm<Native> = Vm::new(adder()).unwrap();
    vm.register_operation("add", Native::Add);
    let two = vm.store_value(Value::Number(Number::PosInt(2)));
    let three = vm.store_value(Value::Number(Number::PosInt(3)));
    let handle = vm.run_event("add", vec![two, three]).unwrap();
    vm.process_events().unwrap();
    let completed = vm.get_completed_events();
    let outputs = completed.get(&handle).unwrap();
    assert_eq!(outputs.len(), 1);
    assert_eq!(number(vm.heap(), outputs[0]), Some(5));
    assert!(vm.get_completed_events().is_empty());
}

#[test]
fn run_event_with_wrong_number_of_inputs_fails() {
    let mut vm: Vm<Native> = Vm::new(adder()).unwrap();
    let two = vm.store_value(Value::Number(Number::PosInt(2)));
    let cells = vm.heap().len();
    match vm.run_event("add", vec![two]) {
        Err(VmError::WrongNumberOfInputs(2, 1)) => {}
        other => panic!("unexpected result: {:?}", other),
    }
    assert_eq!(vm.heap().len(), cells);
    assert!(vm.get_completed_events().is_empty());
    assert!(vm.process_events().is_ok());
    assert!(vm.get_completed_events().is_empty());
}

#[test]
fn if_else_on_a_string_fails_and_the_event_stays() {
    let nodes = vec![
        node(1, NodeType::GetInput(0), Reference::Unset, vec![]),
        node(
            2,
            NodeType::IfElse(IfElse {
                next_node_true: Reference::Guid(3),
                next_node_false: Reference::Guid(3),
            }),
            Reference::Guid(3),
            vec![Link::NodeIndexed(1, 0)],
        ),
        node(3, NodeType::Halt, Reference::Unset, vec![]),
    ];
    let mut vm: Vm<Native> =
        Vm::new(program(vec![event(10, "choose", 1, 0, nodes)], vec![], vec![])).unwrap();
    let text = vm.store_value(Value::String("yes".to_owned()));
    let handle = vm.run_event("choose", vec![text]).unwrap();
    match vm.process_events() {
        Err(VmError::ValueIsNotABool(cell)) => assert_eq!(cell, text),
        other => panic!("unexpected result: {:?}", other),
    }
    assert!(vm.get_completed_events().is_empty());
    match vm.single_step_event(handle) {
        Err(VmError::ValueIsNotABool(cell)) => assert_eq!(cell, text),
        other => panic!("unexpected result: {:?}", other),
    }
    assert!(vm.destroy_event(handle).is_ok());
    assert_eq!(vm.get_completed_events().len(), 1);
}
