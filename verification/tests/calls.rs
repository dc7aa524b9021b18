use script_flow::ast::{
    Event, Function, Link, Method, Node, NodeType, Operation, Program, Reference, Trait, Type,
    TypeConstraint, Variable, GUID,
};
use script_flow::call::{finish_operation, gather_inputs};
use script_flow::document::Number;
use script_flow::error::{VmError, VmOperationError};
use script_flow::event::{VmContextOwner, VmEvent};
use script_flow::operation::{find_operation, VmOperation};
use script_flow::program::CompiledProgram;
use script_flow::run::{process_event, step_event};
use script_flow::step::VmStepStatus;
use script_flow::value::{Heap, Value};
use std::collections::HashMap;

enum Native {
    Double,
    TooMany,
    Refuse,
}

fn refusal() -> VmOperationError {
    VmOperationError::CouldNotPerformOperation {
        message: "refused".to_owned(),
        name: "refuse".to_owned(),
        inputs: vec![Value::Empty],
    }
}

impl VmOperation for Native {
    fn execute(
        &mut self,
        heap: &mut Heap,
        inputs: &Vec<usize>,
    ) -> Result<Vec<usize>, VmOperationError> {
        match self {
            Native::Double => match heap.get(inputs[0]) {
                Some(Value::Number(Number::PosInt(n))) => {
                    let twice = *n * 2;
                    Ok(vec![heap.store(Value::Number(Number::PosInt(twice)))])
                }
                _ => Err(refusal()),
            },
            Native::TooMany => Ok(vec![inputs[0], inputs[0]]),
            Native::Refuse => Err(refusal()),
        }
    }
}

struct Bench {
    program: CompiledProgram,
    globals: HashMap<GUID, usize>,
    operations: Vec<(String, Native)>,
    heap: Heap,
    event: VmEvent,
}

impl Bench {
    fn step(&mut self) -> Result<VmStepStatus, VmError> {
        step_event(
            &self.program,
            &self.globals,
            &mut self.operations,
            &mut self.heap,
            &mut self.event,
        )
    }

    fn run(&mut self) -> Result<bool, VmError> {
        process_event(
            &self.program,
            &self.globals,
            &mut self.operations,
            &mut self.heap,
            &mut self.event,
            1000,
        )
    }
}

fn node(guid: GUID, node_type: NodeType, next: Reference, links: Vec<GUID>) -> Node {
    Node {
        guid,
        name: format!("node{}", guid),
        node_type,
        next_node: next,
        input_links: links.into_iter().map(|g| Link::NodeIndexed(g, 0)).collect(),
    }
}

fn any(count: usize) -> Vec<TypeConstraint> {
    (0..count).map(|_| TypeConstraint::Any).collect()
}

fn named(name: &str) -> Reference {
    Reference::Named(name.to_owned())
}

fn method(guid: GUID, name: &str, first: GUID, from: NodeType) -> Method {
    Method {
        guid,
        name: name.to_owned(),
        input_constrains: any(1),
        output_constrains: any(1),
        variables: vec![Variable { guid: 700, name: "scratch".to_owned() }],
        nodes: vec![
            node(first, from, Reference::Unset, vec![]),
            node(first + 1, NodeType::SetOutput(0), Reference::Unset, vec![first]),
        ],
    }
}

/// An event that hands its input to `call` and its result to its output.
fn bench(call: NodeType) -> Bench {
    let program = Program {
        events: vec![Event {
            guid: 10,
            name: "main".to_owned(),
            entry_node: Reference::Guid(1),
            input_constrains: any(1),
            output_constrains: any(1),
            variables: vec![],
            nodes: vec![
                node(1, NodeType::GetInput(0), Reference::Unset, vec![]),
                node(2, call, Reference::Unset, vec![1]),
                node(3, NodeType::SetOutput(0), Reference::Unset, vec![2]),
            ],
        }],
        functions: vec![
            Function {
                guid: 20,
                name: "twice".to_owned(),
                input_constrains: any(1),
                output_constrains: any(1),
                variables: vec![Variable { guid: 600, name: "scratch".to_owned() }],
                nodes: vec![
                    node(21, NodeType::GetInput(0), Reference::Unset, vec![]),
                    node(22, NodeType::CallOperation(named("double")), Reference::Unset, vec![21]),
                    node(23, NodeType::SetOutput(0), Reference::Unset, vec![22]),
                ],
            },
            Function {
                guid: 30,
                name: "nothing".to_owned(),
                input_constrains: any(1),
                output_constrains: any(1),
                variables: vec![],
                nodes: vec![],
            },
            Function {
                guid: 40,
                name: "pair".to_owned(),
                input_constrains: any(2),
                output_constrains: any(0),
                variables: vec![],
                nodes: vec![],
            },
        ],
        types: vec![
            Type {
                guid: 70,
                name: "Square".to_owned(),
                traits_implementation: vec![(
                    named("Shape"),
                    vec![method(60, "area", 71, NodeType::GetInstance)],
                )],
            },
            Type {
                guid: 80,
                name: "Circle".to_owned(),
                traits_implementation: vec![(Reference::Guid(50), vec![])],
            },
        ],
        traits: vec![Trait {
            guid: 50,
            name: "Shape".to_owned(),
            methods: vec![method(
                60,
                "area",
                51,
                NodeType::GetLocalVariable(named("scratch")),
            )],
        }],
        variables: vec![],
        operations: vec![
            Operation {
                guid: 100,
                name: "double".to_owned(),
                input_constrains: any(1),
                output_constrains: any(1),
            },
            Operation {
                guid: 101,
                name: "many".to_owned(),
                input_constrains: any(1),
                output_constrains: any(1),
            },
            Operation {
                guid: 102,
                name: "refuse".to_owned(),
                input_constrains: any(1),
                output_constrains: any(1),
            },
            Operation {
                guid: 103,
                name: "absent".to_owned(),
                input_constrains: any(1),
                output_constrains: any(1),
            },
            Operation {
                guid: 104,
                name: "none".to_owned(),
                input_constrains: any(0),
                output_constrains: any(1),
            },
        ],
    };
    let program = CompiledProgram::new(program).unwrap();
    let mut heap = Heap::new();
    let input = heap.store(Value::Number(Number::PosInt(21)));
    let execution = program.event_execution_order.get(&10).unwrap().clone();
    let event = VmEvent::new(&mut heap, 10, execution, vec![], vec![input], 1);
    let operations = vec![
        ("double".to_owned(), Native::Double),
        ("many".to_owned(), Native::TooMany),
        ("refuse".to_owned(), Native::Refuse),
        ("none".to_owned(), Native::Double),
    ];
    Bench { program, globals: HashMap::new(), operations, heap, event }
}

fn number(heap: &Heap, handle: usize) -> u64 {
    match heap.get(handle) {
        Some(Value::Number(Number::PosInt(n))) => *n,
        other => panic!("no number: {:?}", other),
    }
}

#[test]
fn an_operation_gets_the_inputs_and_its_outputs_are_cached() {
    let mut bench = bench(NodeType::CallOperation(Reference::Guid(100)));
    assert_eq!(bench.run().unwrap(), false);
    assert_eq!(bench.event.outputs.len(), 1);
    assert_eq!(number(&bench.heap, bench.event.outputs[0]), 42);
}

#[test]
fn an_operation_that_is_not_declared_fails_the_step() {
    let mut bench = bench(NodeType::CallOperation(named("unknown")));
    bench.step().unwrap();
    match bench.step() {
        Err(VmError::OperationDoesNotExists(Reference::Named(name))) => {
            assert_eq!(name, "unknown")
        }
        other => panic!("unexpected result: {:?}", other),
    }
    let mut unset = self::bench(NodeType::CallOperation(Reference::Unset));
    unset.step().unwrap();
    match unset.step() {
        Err(VmError::OperationDoesNotExists(Reference::Unset)) => {}
        other => panic!("unexpected result: {:?}", other),
    }
}

#[test]
fn an_operation_that_is_not_registered_fails_the_step() {
    let mut bench = bench(NodeType::CallOperation(named("absent")));
    bench.step().unwrap();
    match bench.step() {
        Err(VmError::OperationIsNotRegistered(name)) => assert_eq!(name, "absent"),
        other => panic!("unexpected result: {:?}", other),
    }
    assert_eq!(find_operation(&bench.operations, &"refuse".to_owned()), Some(2));
    assert_eq!(find_operation(&bench.operations, &"absent".to_owned()), None);
}

#[test]
fn an_operation_with_the_wrong_number_of_inputs_is_not_called() {
    let mut bench = bench(NodeType::CallOperation(named("none")));
    bench.step().unwrap();
    let cells = bench.heap.len();
    match bench.step() {
        Err(VmError::WrongNumberOfInputs(0, 1)) => {}
        other => panic!("unexpected result: {:?}", other),
    }
    assert_eq!(bench.heap.len(), cells);
}

#[test]
fn an_operation_with_the_wrong_number_of_outputs_fails_the_step() {
    let mut bench = bench(NodeType::CallOperation(named("many")));
    bench.step().unwrap();
    match bench.step() {
        Err(VmError::WrongNumberOfOutputs(1, 2)) => {}
        other => panic!("unexpected result: {:?}", other),
    }
    assert_eq!(bench.event.contexts[0].current, 1);
    assert!(bench.event.get_node_outputs(2).is_err());
}

#[test]
fn a_failing_operation_fails_the_step_with_its_name() {
    let mut bench = bench(NodeType::CallOperation(named("refuse")));
    bench.step().unwrap();
    match bench.step() {
        Err(VmError::OperationFailed(
            name,
            VmOperationError::CouldNotPerformOperation { message, inputs, .. },
        )) => {
            assert_eq!(name, "refuse");
            assert_eq!(message, "refused");
            assert_eq!(inputs, vec![Value::Empty]);
        }
        other => panic!("unexpected result: {:?}", other),
    }
    assert_eq!(bench.event.contexts[0].current, 1);
}

#[test]
fn what_an_operation_returned_decides_how_the_call_ends() {
    let mut bench = bench(NodeType::CallOperation(named("double")));
    bench.step().unwrap();
    let node = &bench.program.ast.events[0].nodes[1];
    let operation = &bench.program.ast.operations[0];
    assert_eq!(gather_inputs(&bench.event, node).unwrap(), vec![0]);
    let failed = finish_operation(
        &bench.program,
        &bench.heap,
        &mut bench.event,
        node,
        operation,
        Err(refusal()),
    );
    match failed {
        Err(VmError::OperationFailed(name, _)) => assert_eq!(name, "double"),
        other => panic!("unexpected result: {:?}", other),
    }
    let short =
        finish_operation(&bench.program, &bench.heap, &mut bench.event, node, operation, Ok(vec![]));
    match short {
        Err(VmError::WrongNumberOfOutputs(1, 0)) => {}
        other => panic!("unexpected result: {:?}", other),
    }
    assert_eq!(bench.event.contexts[0].current, 1);
    let done = finish_operation(
        &bench.program,
        &bench.heap,
        &mut bench.event,
        node,
        operation,
        Ok(vec![7]),
    );
    assert_eq!(done.unwrap(), VmStepStatus::Continue);
    assert_eq!(bench.event.get_node_outputs(2).unwrap(), &vec![7]);
    assert_eq!(bench.event.contexts[0].current, 2);
}

#[test]
fn a_function_runs_in_a_record_of_its_own_and_hands_back_its_outputs() {
    let mut bench = bench(NodeType::CallFunction(named("twice")));
    bench.step().unwrap();
    let cells = bench.heap.len();
    assert_eq!(bench.step().unwrap(), VmStepStatus::Continue);
    assert_eq!(bench.event.contexts.len(), 2);
    assert_eq!(bench.heap.len(), cells + 2);
    let record = &bench.event.contexts[1];
    assert_eq!(record.owner, VmContextOwner::Function(20));
    assert_eq!(record.caller_node, Some(2));
    assert_eq!(record.current, 0);
    assert_eq!(record.execution, vec![21, 22, 23]);
    assert_eq!(record.inputs, vec![0]);
    assert_eq!(record.outputs, vec![cells]);
    assert_eq!(record.variables.get(&600), Some(&(cells + 1)));
    assert_eq!(record.instance, None);
    assert!(record.node_outputs.is_empty());
    assert_eq!(bench.run().unwrap(), false);
    assert_eq!(number(&bench.heap, bench.event.outputs[0]), 42);
}

#[test]
fn a_function_with_nothing_to_run_returns_at_once() {
    let mut bench = bench(NodeType::CallFunction(Reference::Guid(30)));
    bench.step().unwrap();
    let cells = bench.heap.len();
    assert_eq!(bench.step().unwrap(), VmStepStatus::Continue);
    assert_eq!(bench.event.contexts.len(), 1);
    assert_eq!(bench.event.contexts[0].current, 2);
    assert_eq!(bench.event.get_node_outputs(2).unwrap(), &vec![cells]);
    assert_eq!(bench.heap.get(cells), Some(&Value::Empty));
}

#[test]
fn a_call_of_a_function_that_cannot_be_called_fails_the_step() {
    let mut unknown = bench(NodeType::CallFunction(named("unknown")));
    unknown.step().unwrap();
    match unknown.step() {
        Err(VmError::FunctionDoesNotExists(Reference::Named(name))) => assert_eq!(name, "unknown"),
        other => panic!("unexpected result: {:?}", other),
    }
    let mut pair = bench(NodeType::CallFunction(named("pair")));
    pair.step().unwrap();
    match pair.step() {
        Err(VmError::WrongNumberOfInputs(2, 1)) => {}
        other => panic!("unexpected result: {:?}", other),
    }
    assert_eq!(pair.event.contexts.len(), 1);
    let mut uncompiled = bench(NodeType::CallFunction(named("twice")));
    uncompiled.program.function_execution_order.remove(&20);
    uncompiled.step().unwrap();
    match uncompiled.step() {
        Err(VmError::CouldNotCallFunction(Reference::Named(name))) => assert_eq!(name, "twice"),
        other => panic!("unexpected result: {:?}", other),
    }
}

#[test]
fn a_method_runs_the_body_that_its_type_overrides() {
    let mut bench = bench(NodeType::CallMethod(named("Square"), named("area")));
    bench.step().unwrap();
    assert_eq!(bench.step().unwrap(), VmStepStatus::Continue);
    let record = &bench.event.contexts[1];
    assert_eq!(record.owner, VmContextOwner::Method(70, 60));
    assert_eq!(record.instance, Some(0));
    assert_eq!(record.execution, vec![71, 72]);
    assert_eq!(bench.run().unwrap(), false);
    assert_eq!(bench.event.outputs, vec![0]);
}

#[test]
fn a_method_runs_the_body_of_the_trait_where_its_type_has_none() {
    let mut bench = bench(NodeType::CallMethod(Reference::Guid(80), Reference::Guid(60)));
    bench.step().unwrap();
    let cells = bench.heap.len();
    assert_eq!(bench.step().unwrap(), VmStepStatus::Continue);
    let record = &bench.event.contexts[1];
    assert_eq!(record.owner, VmContextOwner::Method(80, 60));
    assert_eq!(record.execution, vec![51, 52]);
    assert_eq!(record.variables.get(&700), Some(&(cells + 1)));
    assert_eq!(bench.run().unwrap(), false);
    assert_eq!(bench.event.outputs, vec![cells + 1]);
}

#[test]
fn a_call_of_a_method_that_cannot_be_called_fails_the_step() {
    let mut no_type = bench(NodeType::CallMethod(named("Triangle"), named("area")));
    no_type.step().unwrap();
    match no_type.step() {
        Err(VmError::TypeDoesNotExists(Reference::Named(name))) => assert_eq!(name, "Triangle"),
        other => panic!("unexpected result: {:?}", other),
    }
    let mut no_method = bench(NodeType::CallMethod(named("Square"), named("volume")));
    no_method.step().unwrap();
    match no_method.step() {
        Err(VmError::MethodDoesNotExists(Reference::Named(name))) => assert_eq!(name, "volume"),
        other => panic!("unexpected result: {:?}", other),
    }
    let mut uncompiled = bench(NodeType::CallMethod(named("Square"), named("area")));
    uncompiled.program.method_execution_order.remove(&70);
    uncompiled.step().unwrap();
    match uncompiled.step() {
        Err(VmError::CouldNotCallMethod(Reference::Named(of), Reference::Named(name))) => {
            assert_eq!(of, "Square");
            assert_eq!(name, "area");
        }
        other => panic!("unexpected result: {:?}", other),
    }
}

#[test]
fn the_body_of_a_method_is_found_through_the_dispatch_table() {
    let bench = bench(NodeType::Halt);
    assert_eq!(bench.program.method_body(70, 60).unwrap().nodes[0].guid, 71);
    assert_eq!(bench.program.method_body(80, 60).unwrap().nodes[0].guid, 51);
    match bench.program.method_body(90, 60) {
        Err(VmError::NodeDoesNotExists(Reference::Guid(90))) => {}
        other => panic!("unexpected result: {:?}", other.map(|m| m.guid)),
    }
    match bench.program.method_body(70, 61) {
        Err(VmError::TypeDoesNotImplementMethod(Reference::Guid(70), Reference::Guid(61))) => {}
        other => panic!("unexpected result: {:?}", other.map(|m| m.guid)),
    }
    assert_eq!(bench.program.nodes_of(VmContextOwner::Event(10)).unwrap().len(), 3);
    assert_eq!(bench.program.nodes_of(VmContextOwner::Function(20)).unwrap().len(), 3);
    assert_eq!(bench.program.variables_of(VmContextOwner::Method(70, 60)).unwrap().len(), 1);
    match bench.program.nodes_of(VmContextOwner::Event(11)) {
        Err(VmError::EventDoesNotExists(Reference::Guid(11))) => {}
        other => panic!("unexpected result: {:?}", other.map(|n| n.len())),
    }
    match bench.program.variables_of(VmContextOwner::Function(21)) {
        Err(VmError::FunctionDoesNotExists(Reference::Guid(21))) => {}
        other => panic!("unexpected result: {:?}", other.map(|n| n.len())),
    }
}

#[test]
fn a_dispatch_table_that_names_what_the_program_lacks_gives_errors() {
    let mut bench = bench(NodeType::Halt);
    bench.program.type_methods.get_mut(&70).unwrap().insert(61, (50, true));
    match bench.program.method_body(70, 61) {
        Err(VmError::MethodDoesNotExists(Reference::Guid(61))) => {}
        other => panic!("unexpected result: {:?}", other.map(|m| m.guid)),
    }
    bench.program.type_methods.get_mut(&80).unwrap().insert(60, (55, false));
    match bench.program.method_body(80, 60) {
        Err(VmError::TraitDoesNotExists(Reference::Guid(80))) => {}
        other => panic!("unexpected result: {:?}", other.map(|m| m.guid)),
    }
    let table = bench.program.type_methods.remove(&80).unwrap();
    bench.program.type_methods.insert(81, table);
    match bench.program.method_body(81, 60) {
        Err(VmError::TypeDoesNotExists(Reference::Guid(81))) => {}
        other => panic!("unexpected result: {:?}", other.map(|m| m.guid)),
    }
}
