//! Calls: a function or a method call pushes a new activation record; an
//! operation call hands the inputs to a native operation and caches what it
//! returns.

use vstd::prelude::*;
use crate::ast;
use crate::ast::{find, position, Link, Method, Node, NodeType, Operation, ReferenceView, GUID};
use crate::error::{VmError, VmErrorView, VmOperationError};
use crate::event::{
    fresh_context,
    guids_of_variables,
    variable_guids,
    with_empty_cells,
    ContextView,
    EventView,
    VmContext,
    VmContextOwner,
    VmEvent,
};
use crate::operation::name_index;
use crate::program::{method_orders_view, orders_view, CompiledProgram};
use crate::step::{
    apply,
    failed,
    finished,
    input_link,
    link_at,
    plan,
    status_view,
    Outcome,
    VmStepStatus,
};
use crate::value::{CellView, Heap, Reference};

verus! {

/// `inputs` with the cached outputs that the links from link `k` on name.
pub open spec fn gathered(event: EventView, links: Seq<Link>, k: int, inputs: Seq<Reference>) -> Result<
    Seq<Reference>,
    VmErrorView,
>
    decreases links.len() - k,
{
    if 0 <= k < links.len() {
        match event.node_output(links[k]) {
            Err(error) => Err(error),
            Ok(input) => gathered(event, links, k + 1, inputs.push(input)),
        }
    } else {
        Ok(inputs)
    }
}

/// The inputs of a call from the node `node`: the cached outputs that its
/// input links name.
pub open spec fn inputs_of(event: EventView, node: Node) -> Result<Seq<Reference>, VmErrorView> {
    gathered(event, node.input_links@, 0, Seq::empty())
}

/// The event with `context` as its innermost record.
pub open spec fn pushed(event: EventView, context: ContextView) -> EventView {
    EventView { contexts: event.contexts.push(context), outputs: event.outputs }
}

/// The outcome of a call that starts an activation record for `owner` with
/// the execution order `execution`: the record's cells are new, and a record
/// with nothing to run completes at once.
pub open spec fn entered(
    heap: Seq<CellView>,
    event: EventView,
    node: Node,
    owner: VmContextOwner,
    execution: Seq<GUID>,
    instance: Option<Reference>,
    inputs: Seq<Reference>,
    outputs: usize,
    variables: Seq<GUID>,
) -> Outcome {
    Outcome {
        heap: with_empty_cells(heap, 1 + variables.len()),
        event: pushed(
            event,
            fresh_context(
                heap.len(),
                owner,
                Some(node.guid),
                execution,
                instance,
                inputs,
                outputs,
                variables,
            ),
        ).settled(),
        result: Ok(VmStepStatus::Continue),
    }
}

/// The outcome of a step over the node `node` that calls the function that
/// `reference` names.
pub open spec fn function_call(
    program: CompiledProgram,
    heap: Seq<CellView>,
    event: EventView,
    node: Node,
    reference: ReferenceView,
) -> Outcome {
    match position(program.ast.functions@, reference) {
        None => failed(heap, event, VmErrorView::FunctionDoesNotExists(reference)),
        Some(f) => {
            let function = program.ast.functions@[f];
            let orders = orders_view(program.function_execution_order);
            if !orders.contains_key(function.guid) {
                failed(heap, event, VmErrorView::CouldNotCallFunction(reference))
            } else {
                match inputs_of(event, node) {
                    Err(error) => failed(heap, event, error),
                    Ok(inputs) => if function.input_constrains@.len() != inputs.len() {
                        failed(
                            heap,
                            event,
                            VmErrorView::WrongNumberOfInputs(
                                function.input_constrains@.len() as usize,
                                inputs.len() as usize,
                            ),
                        )
                    } else {
                        entered(
                            heap,
                            event,
                            node,
                            VmContextOwner::Function(function.guid),
                            orders[function.guid],
                            None,
                            inputs,
                            function.output_constrains@.len() as usize,
                            guids_of_variables(function.variables@),
                        )
                    },
                }
            }
        },
    }
}

/// The method that `reference` names for a type with the trait
/// implementations from implementation `i` on: in each implementation the
/// type's own override first, then the body that the trait declares.
pub open spec fn callable_method(
    program: CompiledProgram,
    implementations: Seq<(ast::Reference, Vec<Method>)>,
    reference: ReferenceView,
    i: int,
) -> Option<Method>
    decreases implementations.len() - i,
{
    if 0 <= i < implementations.len() {
        match position(implementations[i].1@, reference) {
            Some(k) => Some(implementations[i].1@[k]),
            None => match position(program.ast.traits@, implementations[i].0@) {
                None => callable_method(program, implementations, reference, i + 1),
                Some(at) => match position(program.ast.traits@[at].methods@, reference) {
                    Some(k) => Some(program.ast.traits@[at].methods@[k]),
                    None => callable_method(program, implementations, reference, i + 1),
                },
            },
        }
    } else {
        None
    }
}

/// The outcome of a step over the node `node` that calls the method that
/// `method` names on the type that `type_` names. The first input of the
/// call is the instance that the method is bound to.
pub open spec fn method_call(
    program: CompiledProgram,
    heap: Seq<CellView>,
    event: EventView,
    node: Node,
    type_: ReferenceView,
    method: ReferenceView,
) -> Outcome {
    match position(program.ast.types@, type_) {
        None => failed(heap, event, VmErrorView::TypeDoesNotExists(type_)),
        Some(t) => {
            let owner = program.ast.types@[t];
            match callable_method(program, owner.traits_implementation@, method, 0) {
                None => failed(heap, event, VmErrorView::MethodDoesNotExists(method)),
                Some(body) => {
                    let tables = method_orders_view(program.method_execution_order);
                    if !tables.contains_key(owner.guid) || !tables[owner.guid].contains_key(
                        body.guid,
                    ) {
                        failed(heap, event, VmErrorView::CouldNotCallMethod(type_, method))
                    } else {
                        match inputs_of(event, node) {
                            Err(error) => failed(heap, event, error),
                            Ok(inputs) => if body.input_constrains@.len() != inputs.len() {
                                failed(
                                    heap,
                                    event,
                                    VmErrorView::WrongNumberOfInputs(
                                        body.input_constrains@.len() as usize,
                                        inputs.len() as usize,
                                    ),
                                )
                            } else {
                                match event.node_output(link_at(node, 0)) {
                                    Err(error) => failed(heap, event, error),
                                    Ok(instance) => entered(
                                        heap,
                                        event,
                                        node,
                                        VmContextOwner::Method(owner.guid, body.guid),
                                        tables[owner.guid][body.guid],
                                        Some(instance),
                                        inputs,
                                        body.output_constrains@.len() as usize,
                                        guids_of_variables(body.variables@),
                                    ),
                                }
                            },
                        }
                    }
                },
            }
        },
    }
}

/// The outcome of a step over the call node `node`, for a function or a
/// method call.
pub open spec fn call_step(
    program: CompiledProgram,
    heap: Seq<CellView>,
    event: EventView,
    node: Node,
) -> Outcome {
    match node.node_type {
        NodeType::CallFunction(reference) => function_call(program, heap, event, node, reference@),
        NodeType::CallMethod(type_, method) => method_call(
            program,
            heap,
            event,
            node,
            type_@,
            method@,
        ),
        _ => failed(heap, event, VmErrorView::TryingToPerformInvalidNodeType(node.node_type)),
    }
}

/// What an operation call hands to the native operation.
pub struct Request {
    /// The place of the operation in the registry.
    pub slot: int,
    /// The signature of the operation.
    pub operation: Operation,
    /// The handles of the inputs.
    pub inputs: Seq<Reference>,
}

/// What the node `node` asks of the native operation that `reference`
/// names, where `names` are the names under which operations are
/// registered; or why there is nothing to ask.
pub open spec fn request_of(
    program: CompiledProgram,
    names: Seq<Seq<char>>,
    event: EventView,
    node: Node,
    reference: ReferenceView,
) -> Result<Request, VmErrorView> {
    match position(program.ast.operations@, reference) {
        None => Err(VmErrorView::OperationDoesNotExists(reference)),
        Some(o) => {
            let operation = program.ast.operations@[o];
            match name_index(names, operation.name@) {
                None => Err(VmErrorView::OperationIsNotRegistered(operation.name@)),
                Some(slot) => match inputs_of(event, node) {
                    Err(error) => Err(error),
                    Ok(inputs) => if operation.input_constrains@.len() != inputs.len() {
                        Err(
                            VmErrorView::WrongNumberOfInputs(
                                operation.input_constrains@.len() as usize,
                                inputs.len() as usize,
                            ),
                        )
                    } else {
                        Ok(Request { slot, operation, inputs })
                    },
                },
            }
        },
    }
}

/// The outcome of an operation call from the node `node` once the native
/// operation has returned `returned` and left the store as `heap`: its
/// failure fails the step, and so does a wrong number of outputs; else the
/// outputs are cached and the pointer moves on.
pub open spec fn operation_return(
    program: CompiledProgram,
    heap: Seq<CellView>,
    event: EventView,
    node: Node,
    operation: Operation,
    returned: Result<Seq<Reference>, VmOperationError>,
) -> Outcome {
    match returned {
        Err(error) => failed(heap, event, VmErrorView::OperationFailed(operation.name@, error)),
        Ok(outputs) => if operation.output_constrains@.len() != outputs.len() {
            failed(
                heap,
                event,
                VmErrorView::WrongNumberOfOutputs(
                    operation.output_constrains@.len() as usize,
                    outputs.len() as usize,
                ),
            )
        } else {
            finished(
                program,
                heap,
                heap,
                event,
                event.with_node_outputs(node.guid, outputs),
                node,
            )
        },
    }
}

/// The view of what a native operation returned.
pub open spec fn returned_view(returned: Result<Vec<Reference>, VmOperationError>) -> Result<
    Seq<Reference>,
    VmOperationError,
> {
    match returned {
        Ok(outputs) => Ok(outputs@),
        Err(error) => Err(error),
    }
}

/// The cached outputs that the input links of `node` name.
pub fn gather_inputs(event: &VmEvent, node: &Node) -> (result: Result<Vec<Reference>, VmError>)
    ensures
        match inputs_of(event@, *node) {
            Ok(inputs) => result matches Ok(list) && list@ == inputs,
            Err(error) => result matches Err(e) && e@ == error,
        },
{
    let mut inputs: Vec<Reference> = Vec::new();
    let mut k: usize = 0;
    while k < node.input_links.len()
        invariant
            0 <= k <= node.input_links@.len(),
            inputs_of(event@, *node) == gathered(event@, node.input_links@, k as int, inputs@),
        decreases node.input_links@.len() - k,
    {
        let input = event.get_node_output(node.input_links[k])?;
        inputs.push(input);
        k += 1;
    }
    Ok(inputs)
}

/// Starts an activation record on top of `event`.
fn enter(
    heap: &mut Heap,
    event: &mut VmEvent,
    node: &Node,
    owner: VmContextOwner,
    execution: &Vec<GUID>,
    instance: Option<Reference>,
    inputs: Vec<Reference>,
    outputs: usize,
    variables: &Vec<GUID>,
) -> (result: Result<VmStepStatus, VmError>)
    ensures
        (Outcome { heap: final(heap)@, event: final(event)@, result: status_view(result) })
            == entered(
            old(heap)@,
            old(event)@,
            *node,
            owner,
            execution@,
            instance,
            inputs@,
            outputs,
            variables@,
        ),
{
    let order = execution.clone();
    let context = VmContext::fresh(
        heap,
        owner,
        Some(node.guid),
        order,
        instance,
        inputs,
        outputs,
        variables,
    );
    event.contexts.push(context);
    assert(event@.contexts =~= old(event)@.contexts.push(context@));
    event.settle();
    Ok(VmStepStatus::Continue)
}

/// Finds the method that `reference` names for a type with the trait
/// implementations `implementations`.
fn find_callable<'a>(
    program: &'a CompiledProgram,
    implementations: &'a Vec<(ast::Reference, Vec<Method>)>,
    reference: &ast::Reference,
) -> (found: Option<&'a Method>)
    ensures
        match callable_method(*program, implementations@, reference@, 0) {
            Some(body) => found matches Some(m) && *m == body,
            None => found is None,
        },
{
    let mut i: usize = 0;
    while i < implementations.len()
        invariant
            0 <= i <= implementations@.len(),
            callable_method(*program, implementations@, reference@, 0) == callable_method(
                *program,
                implementations@,
                reference@,
                i as int,
            ),
        decreases implementations@.len() - i,
    {
        if let Some(k) = find(&implementations[i].1, reference) {
            return Some(&implementations[i].1[k]);
        }
        if let Some(at) = find(&program.ast.traits, &implementations[i].0) {
            if let Some(k) = find(&program.ast.traits[at].methods, reference) {
                return Some(&program.ast.traits[at].methods[k]);
            }
        }
        i += 1;
    }
    None
}

/// Steps over the node `node` that calls a function or a method.
pub fn step_call(program: &CompiledProgram, heap: &mut Heap, event: &mut VmEvent, node: &Node) -> (result:
    Result<VmStepStatus, VmError>)
    requires
        node.node_type is CallFunction || node.node_type is CallMethod,
    ensures
        (Outcome { heap: final(heap)@, event: final(event)@, result: status_view(result) })
            == call_step(*program, old(heap)@, old(event)@, *node),
{
    match &node.node_type {
        NodeType::CallFunction(reference) => {
            let f = match find(&program.ast.functions, reference) {
                Some(f) => f,
                None => {
                    return Err(VmError::FunctionDoesNotExists(reference.clone()));
                },
            };
            let function = &program.ast.functions[f];
            let execution = match program.function_execution_order.get(&function.guid) {
                Some(execution) => execution,
                None => {
                    return Err(VmError::CouldNotCallFunction(reference.clone()));
                },
            };
            let inputs = gather_inputs(event, node)?;
            if function.input_constrains.len() != inputs.len() {
                return Err(
                    VmError::WrongNumberOfInputs(function.input_constrains.len(), inputs.len()),
                );
            }
            let variables = variable_guids(&function.variables);
            enter(
                heap,
                event,
                node,
                VmContextOwner::Function(function.guid),
                execution,
                None,
                inputs,
                function.output_constrains.len(),
                &variables,
            )
        },
        NodeType::CallMethod(type_, method) => {
            let t = match find(&program.ast.types, type_) {
                Some(t) => t,
                None => {
                    return Err(VmError::TypeDoesNotExists(type_.clone()));
                },
            };
            let owner = &program.ast.types[t];
            let body = match find_callable(program, &owner.traits_implementation, method) {
                Some(body) => body,
                None => {
                    return Err(VmError::MethodDoesNotExists(method.clone()));
                },
            };
            let execution = match program.method_execution_order.get(&owner.guid) {
                Some(table) => match table.get(&body.guid) {
                    Some(execution) => execution,
                    None => {
                        return Err(VmError::CouldNotCallMethod(type_.clone(), method.clone()));
                    },
                },
                None => {
                    return Err(VmError::CouldNotCallMethod(type_.clone(), method.clone()));
                },
            };
            let inputs = gather_inputs(event, node)?;
            if body.input_constrains.len() != inputs.len() {
                return Err(VmError::WrongNumberOfInputs(body.input_constrains.len(), inputs.len()));
            }
            let instance = event.get_node_output(input_link(node, 0))?;
            let variables = variable_guids(&body.variables);
            enter(
                heap,
                event,
                node,
                VmContextOwner::Method(owner.guid, body.guid),
                execution,
                Some(instance),
                inputs,
                body.output_constrains.len(),
                &variables,
            )
        },
        _ => vstd::pervasive::unreached(),
    }
}

/// Finishes an operation call from the node `node` with what the native
/// operation returned.
pub fn finish_operation(
    program: &CompiledProgram,
    heap: &Heap,
    event: &mut VmEvent,
    node: &Node,
    operation: &Operation,
    returned: Result<Vec<Reference>, VmOperationError>,
) -> (result: Result<VmStepStatus, VmError>)
    ensures
        (Outcome { heap: heap@, event: final(event)@, result: status_view(result) })
            == operation_return(
            *program,
            heap@,
            old(event)@,
            *node,
            *operation,
            returned_view(returned),
        ),
{
    match returned {
        Err(error) => Err(VmError::OperationFailed(operation.name.clone(), error)),
        Ok(outputs) => {
            if operation.output_constrains.len() != outputs.len() {
                return Err(
                    VmError::WrongNumberOfOutputs(operation.output_constrains.len(), outputs.len()),
                );
            }
            let next = plan(program, event, node)?;
            event.set_node_outputs(node.guid, outputs);
            apply(event, next);
            Ok(VmStepStatus::Continue)
        },
    }
}

} // verus!
