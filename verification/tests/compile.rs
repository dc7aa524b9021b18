use script_flow::ast::{
    Event, Function, Link, Method, Node, NodeType, Program, Reference, Trait, Type,
    TypeConstraint, GUID,
};
use script_flow::compile::{compile_nodes, execution_order, guids_of};
use script_flow::error::VmError;
use script_flow::operation::VmOperation;
use script_flow::program::CompiledProgram;
use script_flow::value::Heap;
use script_flow::vm::Vm;

struct Nothing;

impl VmOperation for Nothing {
    fn execute(
        &mut self,
        _heap: &mut Heap,
        _inputs: &Vec<usize>,
    ) -> Result<Vec<usize>, script_flow::error::VmOperationError> {
        Ok(vec![])
    }
}

fn node(guid: GUID, next: Reference, links: Vec<Link>) -> Node {
    Node {
        guid,
        name: format!("node{}", guid),
        node_type: NodeType::GetInput(0),
        next_node: next,
        input_links: links,
    }
}

fn diamond() -> Vec<Node> {
    vec![
        node(1, Reference::Unset, vec![]),
        node(2, Reference::Unset, vec![Link::NodeIndexed(1, 0)]),
        node(3, Reference::Unset, vec![Link::NodeIndexed(1, 0)]),
        node(4, Reference::Unset, vec![Link::NodeIndexed(2, 0), Link::NodeIndexed(3, 1)]),
    ]
}

fn cycle() -> Vec<Node> {
    vec![
        node(1, Reference::Guid(2), vec![]),
        node(2, Reference::Unset, vec![]),
        node(3, Reference::Named("node1".to_owned()), vec![Link::NodeIndexed(2, 0)]),
    ]
}

fn place(order: &Vec<GUID>, guid: GUID) -> usize {
    order.iter().position(|g| *g == guid).unwrap()
}

fn is_cyclic_error(error: &VmError) -> bool {
    match error {
        VmError::CompilationError(message) => message == "Found flow graph to be cyclic",
        _ => false,
    }
}

fn empty_program() -> Program {
    Program {
        events: vec![],
        functions: vec![],
        types: vec![],
        traits: vec![],
        variables: vec![],
        operations: vec![],
    }
}

fn event(guid: GUID, name: &str, nodes: Vec<Node>) -> Event {
    Event {
        guid,
        name: name.to_owned(),
        entry_node: Reference::Unset,
        input_constrains: vec![],
        output_constrains: vec![],
        variables: vec![],
        nodes,
    }
}

fn function(guid: GUID, name: &str, nodes: Vec<Node>) -> Function {
    Function {
        guid,
        name: name.to_owned(),
        input_constrains: vec![TypeConstraint::Any],
        output_constrains: vec![],
        variables: vec![],
        nodes,
    }
}

fn method(guid: GUID, name: &str, nodes: Vec<Node>) -> Method {
    Method {
        guid,
        name: name.to_owned(),
        input_constrains: vec![],
        output_constrains: vec![],
        variables: vec![],
        nodes,
    }
}

#[test]
fn an_acyclic_graph_compiles_to_an_order_that_respects_its_dependencies() {
    let (order, _) = compile_nodes(&diamond()).unwrap();
    assert_eq!(order.len(), 4);
    assert!(place(&order, 1) < place(&order, 2));
    assert!(place(&order, 1) < place(&order, 3));
    assert!(place(&order, 2) < place(&order, 4));
    assert!(place(&order, 3) < place(&order, 4));
}

#[test]
fn the_order_of_a_diamond_is_the_one_the_sort_gives() {
    let (order, terminals) = compile_nodes(&diamond()).unwrap();
    assert_eq!(order, vec![1, 3, 2, 4]);
    assert_eq!(terminals, vec![4]);
}

#[test]
fn a_chain_compiles_in_its_own_order() {
    let nodes = vec![
        node(7, Reference::Unset, vec![Link::NodeIndexed(8, 0)]),
        node(8, Reference::Unset, vec![Link::NodeIndexed(9, 0)]),
        node(9, Reference::Unset, vec![Link::Unlinked]),
    ];
    let (order, terminals) = compile_nodes(&nodes).unwrap();
    assert_eq!(order, vec![9, 8, 7]);
    assert_eq!(terminals, vec![7]);
}

#[test]
fn nodes_without_edges_are_all_terminal() {
    let nodes = vec![node(1, Reference::Unset, vec![]), node(2, Reference::Unset, vec![])];
    let (order, terminals) = compile_nodes(&nodes).unwrap();
    assert_eq!(order.len(), 2);
    assert_eq!(terminals, vec![1, 2]);
}

#[test]
fn an_empty_list_compiles_to_nothing() {
    let (order, terminals) = compile_nodes(&vec![]).unwrap();
    assert!(order.is_empty());
    assert!(terminals.is_empty());
}

#[test]
fn a_cyclic_graph_does_not_compile() {
    let error = compile_nodes(&cycle()).unwrap_err();
    assert!(is_cyclic_error(&error));
}

#[test]
fn a_node_that_follows_itself_is_a_cycle() {
    let error = compile_nodes(&vec![node(1, Reference::Guid(1), vec![])]).unwrap_err();
    assert!(is_cyclic_error(&error));
}

#[test]
fn a_next_node_that_is_not_there_is_an_error() {
    let named = compile_nodes(&vec![node(1, Reference::Named("nowhere".to_owned()), vec![])]);
    match named {
        Err(VmError::NodeDoesNotExists(Reference::Named(name))) => assert_eq!(name, "nowhere"),
        other => panic!("unexpected result: {:?}", other),
    }
    let by_guid = compile_nodes(&vec![node(1, Reference::Guid(5), vec![])]);
    match by_guid {
        Err(VmError::NodeDoesNotExists(Reference::Guid(5))) => {}
        other => panic!("unexpected result: {:?}", other),
    }
}

#[test]
fn a_link_to_a_node_that_is_not_there_is_an_error() {
    let result = compile_nodes(&vec![node(1, Reference::Unset, vec![Link::NodeIndexed(99, 0)])]);
    match result {
        Err(VmError::NodeDoesNotExists(Reference::Guid(99))) => {}
        other => panic!("unexpected result: {:?}", other),
    }
}

#[test]
fn the_order_names_the_nodes_at_the_sorted_places() {
    let nodes = diamond();
    assert_eq!(execution_order(&nodes, Some(vec![3, 0, 2, 1])).unwrap(), vec![4, 1, 3, 2]);
    assert_eq!(guids_of(&nodes, &vec![2, 2]), vec![3, 3]);
    let error = execution_order(&nodes, None).unwrap_err();
    assert!(is_cyclic_error(&error));
}

#[test]
fn a_program_with_a_cyclic_event_makes_no_machine() {
    let mut program = empty_program();
    program.events.push(event(1, "fine", diamond()));
    program.events.push(event(2, "round", cycle()));
    let result: Result<Vm<Nothing>, VmError> = Vm::new(program);
    match result {
        Err(error) => assert!(is_cyclic_error(&error)),
        Ok(_) => panic!("a machine was made"),
    }
}

#[test]
fn a_program_with_a_cyclic_function_makes_no_machine() {
    let mut program = empty_program();
    program.functions.push(function(1, "round", cycle()));
    let result: Result<Vm<Nothing>, VmError> = Vm::new(program);
    match result {
        Err(error) => assert!(is_cyclic_error(&error)),
        Ok(_) => panic!("a machine was made"),
    }
}

#[test]
fn a_program_with_a_cyclic_method_makes_no_machine() {
    let mut program = empty_program();
    program.traits.push(Trait {
        guid: 50,
        name: "Shape".to_owned(),
        methods: vec![method(60, "area", cycle())],
    });
    program.types.push(Type {
        guid: 70,
        name: "Square".to_owned(),
        traits_implementation: vec![(Reference::Guid(50), vec![])],
    });
    let result: Result<Vm<Nothing>, VmError> = Vm::new(program);
    match result {
        Err(error) => assert!(is_cyclic_error(&error)),
        Ok(_) => panic!("a machine was made"),
    }
}

#[test]
fn a_type_of_an_undeclared_trait_makes_no_machine() {
    let mut program = empty_program();
    program.types.push(Type {
        guid: 70,
        name: "Square".to_owned(),
        traits_implementation: vec![(Reference::Named("Shape".to_owned()), vec![])],
    });
    let result: Result<Vm<Nothing>, VmError> = Vm::new(program);
    match result {
        Err(VmError::TraitDoesNotExists(Reference::Named(name))) => assert_eq!(name, "Shape"),
        Err(other) => panic!("unexpected error: {:?}", other),
        Ok(_) => panic!("a machine was made"),
    }
}

#[test]
fn a_compiled_program_holds_orders_dispatch_and_terminals() {
    let mut program = empty_program();
    program.events.push(event(1, "fine", diamond()));
    program.functions.push(function(2, "chain", vec![node(11, Reference::Guid(12), vec![]), node(12, Reference::Unset, vec![])]));
    program.traits.push(Trait {
        guid: 50,
        name: "Shape".to_owned(),
        methods: vec![
            method(60, "area", vec![node(21, Reference::Unset, vec![])]),
            method(61, "edges", vec![node(22, Reference::Unset, vec![])]),
        ],
    });
    program.types.push(Type {
        guid: 70,
        name: "Square".to_owned(),
        traits_implementation: vec![(
            Reference::Named("Shape".to_owned()),
            vec![method(60, "area", vec![node(31, Reference::Guid(32), vec![]), node(32, Reference::Unset, vec![])])],
        )],
    });
    let compiled = CompiledProgram::new(program).unwrap();
    assert_eq!(compiled.event_execution_order.get(&1).unwrap(), &vec![1, 3, 2, 4]);
    assert_eq!(compiled.function_execution_order.get(&2).unwrap(), &vec![11, 12]);
    let square = compiled.method_execution_order.get(&70).unwrap();
    assert_eq!(square.get(&60).unwrap(), &vec![31, 32]);
    assert_eq!(square.get(&61).unwrap(), &vec![22]);
    let dispatch = compiled.type_methods.get(&70).unwrap();
    assert_eq!(dispatch.get(&60), Some(&(50, true)));
    assert_eq!(dispatch.get(&61), Some(&(50, false)));
    assert_eq!(compiled.end_nodes, vec![4, 32, 22, 12]);
}
