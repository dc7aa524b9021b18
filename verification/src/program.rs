//! A compiled program: the program description together with the execution
//! order of each of its node lists, its method dispatch table and its
//! terminal nodes.

use vstd::prelude::*;
use std::collections::HashMap;
use crate::ast::{
    find,
    find_by_name,
    lemma_position,
    position,
    Method,
    Node,
    Program,
    ReferenceView,
    GUID,
};
use crate::compile::{compile_nodes, compiled, dependency_edges, edges_of, graph_limit};
use crate::error::{VmError, VmErrorView};
use crate::graph::{has_cycle, is_topological_order, toposort_order};

verus! {

/// The dispatch entries of one type: for each method that a trait it
/// implements declares, the trait and whether the type overrides the method.
pub type TypeTable = Map<GUID, (GUID, bool)>;

/// Execution orders by the identifier of their construct, and the terminal
/// nodes that were met while compiling them.
pub struct Orders {
    pub orders: Map<GUID, Seq<GUID>>,
    pub ends: Seq<GUID>,
}

/// What compiling a whole program gives.
pub struct Linked {
    /// For each type, its dispatch entries.
    pub dispatch: Map<GUID, TypeTable>,
    /// The execution order of each event.
    pub event_orders: Map<GUID, Seq<GUID>>,
    /// For each type, the execution order of each method body that it runs.
    pub method_orders: Map<GUID, Map<GUID, Seq<GUID>>>,
    /// The execution order of each function.
    pub function_orders: Map<GUID, Seq<GUID>>,
    /// The terminal nodes of all node lists.
    pub ends: Seq<GUID>,
}

/// The dispatch table that is left to build from trait method `k` of trait
/// implementation `i` of type `t` on, where `table` holds the entries of
/// type `t` so far and `done` the tables of the types before it. A trait
/// implementation whose trait the program does not declare is an error.
pub open spec fn dispatch_from(
    program: Program,
    t: int,
    i: int,
    k: int,
    table: TypeTable,
    done: Map<GUID, TypeTable>,
) -> Result<Map<GUID, TypeTable>, VmErrorView>
    decreases program.types@.len() - t, program.types@[t].traits_implementation@.len() - i,
        match position(program.traits@, program.types@[t].traits_implementation@[i].0@) {
            Some(at) => program.traits@[at].methods@.len() - k,
            None => 0,
        },
{
    if t < 0 || t >= program.types@.len() {
        Ok(done)
    } else {
        let type_ = program.types@[t];
        if i < 0 || i >= type_.traits_implementation@.len() {
            dispatch_from(program, t + 1, 0, 0, Map::empty(), done.insert(type_.guid, table))
        } else {
            let implementation = type_.traits_implementation@[i];
            match position(program.traits@, implementation.0@) {
                None => Err(VmErrorView::TraitDoesNotExists(implementation.0@)),
                Some(at) => {
                    let trait_ = program.traits@[at];
                    if k < 0 || k >= trait_.methods@.len() {
                        dispatch_from(program, t, i + 1, 0, table, done)
                    } else {
                        let declared = trait_.methods@[k];
                        let overridden = position(
                            implementation.1@,
                            ReferenceView::Named(declared.name@),
                        ) is Some;
                        dispatch_from(
                            program,
                            t,
                            i,
                            k + 1,
                            table.insert(declared.guid, (trait_.guid, overridden)),
                            done,
                        )
                    }
                },
            }
        }
    }
}

/// The dispatch table of a program.
pub open spec fn dispatch_of(program: Program) -> Result<Map<GUID, TypeTable>, VmErrorView> {
    dispatch_from(program, 0, 0, 0, Map::empty(), Map::empty())
}

/// `so_far` with the execution order of `nodes` under the key `key` and with
/// the terminal nodes of `nodes`.
pub open spec fn compiled_into(nodes: Seq<Node>, key: GUID, so_far: Orders) -> Result<
    Orders,
    VmErrorView,
> {
    match compiled(nodes) {
        Err(error) => Err(error),
        Ok((order, terminals)) => Ok(
            Orders { orders: so_far.orders.insert(key, order), ends: so_far.ends + terminals },
        ),
    }
}

/// `so_far` with the orders of the events from event `e` on.
pub open spec fn event_orders_from(program: Program, e: int, so_far: Orders) -> Result<
    Orders,
    VmErrorView,
>
    decreases program.events@.len() - e,
{
    if e < 0 || e >= program.events@.len() {
        Ok(so_far)
    } else {
        match compiled_into(program.events@[e].nodes@, program.events@[e].guid, so_far) {
            Err(error) => Err(error),
            Ok(next) => event_orders_from(program, e + 1, next),
        }
    }
}

/// `so_far` with the orders of the functions from function `f` on.
pub open spec fn function_orders_from(program: Program, f: int, so_far: Orders) -> Result<
    Orders,
    VmErrorView,
>
    decreases program.functions@.len() - f,
{
    if f < 0 || f >= program.functions@.len() {
        Ok(so_far)
    } else {
        match compiled_into(program.functions@[f].nodes@, program.functions@[f].guid, so_far) {
            Err(error) => Err(error),
            Ok(next) => function_orders_from(program, f + 1, next),
        }
    }
}

/// The body that runs for the method `declared` of a trait on a type that
/// overrides the methods `overrides`: the override of the same name, or the
/// trait's own body.
pub open spec fn chosen_method(overrides: Seq<Method>, declared: Method) -> Method {
    match position(overrides, ReferenceView::Named(declared.name@)) {
        Some(o) => overrides[o],
        None => declared,
    }
}

/// The method orders of all types, and the terminal nodes that were met
/// while compiling them.
pub struct MethodOrders {
    pub tables: Map<GUID, Map<GUID, Seq<GUID>>>,
    pub ends: Seq<GUID>,
}

/// The method orders that are left to build from trait method `k` of trait
/// implementation `i` of type `t` on, where `so_far` holds the orders of
/// type `t` so far and `done` the tables of the types before it. An
/// implementation of a trait that the program does not declare adds
/// nothing.
pub open spec fn method_orders_from(
    program: Program,
    t: int,
    i: int,
    k: int,
    so_far: Orders,
    done: Map<GUID, Map<GUID, Seq<GUID>>>,
) -> Result<MethodOrders, VmErrorView>
    decreases program.types@.len() - t, program.types@[t].traits_implementation@.len() - i,
        match position(program.traits@, program.types@[t].traits_implementation@[i].0@) {
            Some(at) => program.traits@[at].methods@.len() - k,
            None => 0,
        },
{
    if t < 0 || t >= program.types@.len() {
        Ok(MethodOrders { tables: done, ends: so_far.ends })
    } else {
        let type_ = program.types@[t];
        if i < 0 || i >= type_.traits_implementation@.len() {
            method_orders_from(
                program,
                t + 1,
                0,
                0,
                Orders { orders: Map::empty(), ends: so_far.ends },
                done.insert(type_.guid, so_far.orders),
            )
        } else {
            let implementation = type_.traits_implementation@[i];
            match position(program.traits@, implementation.0@) {
                None => method_orders_from(program, t, i + 1, 0, so_far, done),
                Some(at) => {
                    let trait_ = program.traits@[at];
                    if k < 0 || k >= trait_.methods@.len() {
                        method_orders_from(program, t, i + 1, 0, so_far, done)
                    } else {
                        let method = chosen_method(implementation.1@, trait_.methods@[k]);
                        match compiled_into(method.nodes@, method.guid, so_far) {
                            Err(error) => Err(error),
                            Ok(next) => method_orders_from(program, t, i, k + 1, next, done),
                        }
                    }
                },
            }
        }
    }
}

/// What compiling `program` gives: the dispatch table first, then the
/// events, the methods and the functions; the first error stops it.
pub open spec fn linked(program: Program) -> Result<Linked, VmErrorView> {
    let none = Orders { orders: Map::empty(), ends: Seq::empty() };
    match dispatch_of(program) {
        Err(error) => Err(error),
        Ok(dispatch) => match event_orders_from(program, 0, none) {
            Err(error) => Err(error),
            Ok(events) => match method_orders_from(
                program,
                0,
                0,
                0,
                Orders { orders: Map::empty(), ends: events.ends },
                Map::empty(),
            ) {
                Err(error) => Err(error),
                Ok(methods) => match function_orders_from(
                    program,
                    0,
                    Orders { orders: Map::empty(), ends: methods.ends },
                ) {
                    Err(error) => Err(error),
                    Ok(functions) => Ok(
                        Linked {
                            dispatch,
                            event_orders: events.orders,
                            method_orders: methods.tables,
                            function_orders: functions.orders,
                            ends: functions.ends,
                        },
                    ),
                },
            },
        },
    }
}

/// The orders that a table of executable code holds.
pub open spec fn orders_view(orders: HashMap<GUID, Vec<GUID>>) -> Map<GUID, Seq<GUID>> {
    Map::new(|guid: GUID| orders@.contains_key(guid), |guid: GUID| orders@[guid]@)
}

/// The method orders that a table of executable code holds.
pub open spec fn method_orders_view(orders: HashMap<GUID, HashMap<GUID, Vec<GUID>>>) -> Map<
    GUID,
    Map<GUID, Seq<GUID>>,
> {
    Map::new(|guid: GUID| orders@.contains_key(guid), |guid: GUID| orders_view(orders@[guid]))
}

/// The dispatch entries that a table of executable code holds.
pub open spec fn dispatch_view(dispatch: HashMap<GUID, HashMap<GUID, (GUID, bool)>>) -> Map<
    GUID,
    TypeTable,
> {
    Map::new(|guid: GUID| dispatch@.contains_key(guid), |guid: GUID| dispatch@[guid]@)
}

/// Whether the graph of `nodes` is ordered: its references resolve, it is
/// small enough to number, it has no cycle, and the order that it compiles
/// to lists every node once, each after the nodes it follows and after the
/// producers of its inputs.
pub open spec fn is_ordered(nodes: Seq<Node>) -> bool {
    &&& nodes.len() <= graph_limit()
    &&& edges_of(nodes) is Ok
    &&& !has_cycle(dependency_edges(nodes))
    &&& toposort_order(nodes.len(), dependency_edges(nodes)) matches Some(order)
    &&& is_topological_order(order, nodes.len(), dependency_edges(nodes))
}

/// Whether trait method `k` of trait implementation `i` of type `t` is a
/// method body of `program`: the type, the implementation and the method
/// exist, and the program declares the trait.
pub open spec fn is_body(program: Program, t: int, i: int, k: int) -> bool {
    &&& 0 <= t < program.types@.len()
    &&& 0 <= i < program.types@[t].traits_implementation@.len()
    &&& position(program.traits@, program.types@[t].traits_implementation@[i].0@) is Some
    &&& 0 <= k < program.traits@[position(
        program.traits@,
        program.types@[t].traits_implementation@[i].0@,
    )->Some_0].methods@.len()
}

/// The body that runs for trait method `k` of trait implementation `i` of
/// type `t`.
pub open spec fn body_at(program: Program, t: int, i: int, k: int) -> Method {
    let implementation = program.types@[t].traits_implementation@[i];
    chosen_method(
        implementation.1@,
        program.traits@[position(program.traits@, implementation.0@)->Some_0].methods@[k],
    )
}

/// Whether the body (t, i, k) comes before the body (to_t, to_i, to_k) in
/// the order in which the bodies are compiled.
pub open spec fn comes_before(t: int, i: int, k: int, to_t: int, to_i: int, to_k: int) -> bool {
    t < to_t || (t == to_t && (i < to_i || (i == to_i && k < to_k)))
}

/// Whether the graph of every method body before (t, i, k) is ordered.
pub open spec fn bodies_ordered_before(program: Program, t: int, i: int, k: int) -> bool {
    forall|at: int, ai: int, ak: int|
        is_body(program, at, ai, ak) && comes_before(at, ai, ak, t, i, k) ==> is_ordered(
            (#[trigger] body_at(program, at, ai, ak)).nodes@,
        )
}

/// Whether the graph of every method body of `program` is ordered.
pub open spec fn bodies_ordered(program: Program) -> bool {
    forall|t: int, i: int, k: int|
        is_body(program, t, i, k) ==> is_ordered((#[trigger] body_at(program, t, i, k)).nodes@)
}

/// A program with all that compiling it gave.
#[derive(Debug)]
pub struct CompiledProgram {
    pub ast: Program,
    /// {event: execution order}
    pub event_execution_order: HashMap<GUID, Vec<GUID>>,
    /// {type: {method: execution order}}
    pub method_execution_order: HashMap<GUID, HashMap<GUID, Vec<GUID>>>,
    /// {function: execution order}
    pub function_execution_order: HashMap<GUID, Vec<GUID>>,
    /// {type: {method: (trait, is overridden by the type)}}
    pub type_methods: HashMap<GUID, HashMap<GUID, (GUID, bool)>>,
    pub end_nodes: Vec<GUID>,
}

impl CompiledProgram {
    /// What the compiled program holds, as [`linked`] states it.
    pub open spec fn links(&self) -> Linked {
        Linked {
            dispatch: dispatch_view(self.type_methods),
            event_orders: orders_view(self.event_execution_order),
            method_orders: method_orders_view(self.method_execution_order),
            function_orders: orders_view(self.function_execution_order),
            ends: self.end_nodes@,
        }
    }
}

/// Compiles `nodes` and records the order under `key` and the terminal nodes.
fn compile_into(
    nodes: &Vec<Node>,
    key: GUID,
    orders: &mut HashMap<GUID, Vec<GUID>>,
    ends: &mut Vec<GUID>,
) -> (result: Result<(), VmError>)
    ensures
        match compiled_into(
            nodes@,
            key,
            Orders { orders: orders_view(*old(orders)), ends: old(ends)@ },
        ) {
            Ok(next) => result is Ok && orders_view(*final(orders)) == next.orders && final(ends)@
                == next.ends && is_ordered(nodes@),
            Err(error) => result matches Err(e) && e@ == error && !is_ordered(nodes@),
        },
{
    let (order, mut terminals) = compile_nodes(nodes)?;
    orders.insert(key, order);
    ends.append(&mut terminals);
    assert(orders_view(*orders) =~= orders_view(*old(orders)).insert(key, order@));
    Ok(())
}

/// Builds the dispatch table of `program`.
fn build_dispatch(program: &Program) -> (result: Result<
    HashMap<GUID, HashMap<GUID, (GUID, bool)>>,
    VmError,
>)
    ensures
        match dispatch_of(*program) {
            Ok(dispatch) => result matches Ok(table) && dispatch_view(table) == dispatch,
            Err(error) => result matches Err(e) && e@ == error,
        },
{
    let mut done: HashMap<GUID, HashMap<GUID, (GUID, bool)>> = HashMap::new();
    assert(dispatch_view(done) =~= Map::<GUID, TypeTable>::empty());
    let mut t: usize = 0;
    while t < program.types.len()
        invariant
            0 <= t <= program.types@.len(),
            dispatch_of(*program) == dispatch_from(
                *program,
                t as int,
                0,
                0,
                Map::empty(),
                dispatch_view(done),
            ),
        decreases program.types@.len() - t,
    {
        let type_ = &program.types[t];
        let mut table: HashMap<GUID, (GUID, bool)> = HashMap::new();
        let mut i: usize = 0;
        while i < type_.traits_implementation.len()
            invariant
                0 <= t < program.types@.len(),
                *type_ == program.types@[t as int],
                0 <= i <= type_.traits_implementation@.len(),
                dispatch_of(*program) == dispatch_from(
                    *program,
                    t as int,
                    i as int,
                    0,
                    table@,
                    dispatch_view(done),
                ),
            decreases type_.traits_implementation@.len() - i,
        {
            let implementation = &type_.traits_implementation[i];
            match find(&program.traits, &implementation.0) {
                None => {
                    return Err(VmError::TraitDoesNotExists(implementation.0.clone()));
                },
                Some(at) => {
                    let trait_ = &program.traits[at];
                    let mut k: usize = 0;
                    while k < trait_.methods.len()
                        invariant
                            0 <= t < program.types@.len(),
                            *type_ == program.types@[t as int],
                            0 <= i < type_.traits_implementation@.len(),
                            *implementation == type_.traits_implementation@[i as int],
                            position(program.traits@, implementation.0@) == Some(at as int),
                            at < program.traits@.len(),
                            *trait_ == program.traits@[at as int],
                            0 <= k <= trait_.methods@.len(),
                            dispatch_of(*program) == dispatch_from(
                                *program,
                                t as int,
                                i as int,
                                k as int,
                                table@,
                                dispatch_view(done),
                            ),
                        decreases trait_.methods@.len() - k,
                    {
                        let declared = &trait_.methods[k];
                        let overridden = find_by_name(&implementation.1, &declared.name).is_some();
                        table.insert(declared.guid, (trait_.guid, overridden));
                        k += 1;
                    }
                },
            }
            i += 1;
        }
        let ghost before = dispatch_view(done);
        let ghost entries = table@;
        done.insert(type_.guid, table);
        assert(dispatch_view(done) =~= before.insert(type_.guid, entries));
        t += 1;
    }
    Ok(done)
}

/// Compiles the events of `program`.
fn compile_events(program: &Program, ends: &mut Vec<GUID>) -> (result: Result<
    HashMap<GUID, Vec<GUID>>,
    VmError,
>)
    ensures
        match event_orders_from(
            *program,
            0,
            Orders { orders: Map::empty(), ends: old(ends)@ },
        ) {
            Ok(all) => result matches Ok(orders) && orders_view(orders) == all.orders && final(ends)@ == all.ends && forall|e: int|
                0 <= e < program.events@.len() ==> is_ordered(#[trigger] program.events@[e].nodes@),
            Err(error) => result matches Err(e) && e@ == error,
        },
{
    let mut orders: HashMap<GUID, Vec<GUID>> = HashMap::new();
    assert(orders_view(orders) =~= Map::<GUID, Seq<GUID>>::empty());
    let mut e: usize = 0;
    while e < program.events.len()
        invariant
            0 <= e <= program.events@.len(),
            event_orders_from(*program, 0, Orders { orders: Map::empty(), ends: old(ends)@ })
                == event_orders_from(
                *program,
                e as int,
                Orders { orders: orders_view(orders), ends: ends@ },
            ),
            forall|d: int| 0 <= d < e ==> is_ordered(#[trigger] program.events@[d].nodes@),
        decreases program.events@.len() - e,
    {
        compile_into(&program.events[e].nodes, program.events[e].guid, &mut orders, ends)?;
        e += 1;
    }
    Ok(orders)
}

/// Compiles the functions of `program`.
fn compile_functions(program: &Program, ends: &mut Vec<GUID>) -> (result: Result<
    HashMap<GUID, Vec<GUID>>,
    VmError,
>)
    ensures
        match function_orders_from(
            *program,
            0,
            Orders { orders: Map::empty(), ends: old(ends)@ },
        ) {
            Ok(all) => result matches Ok(orders) && orders_view(orders) == all.orders && final(ends)@ == all.ends && forall|f: int|
                0 <= f < program.functions@.len() ==> is_ordered(
                    #[trigger] program.functions@[f].nodes@,
                ),
            Err(error) => result matches Err(e) && e@ == error,
        },
{
    let mut orders: HashMap<GUID, Vec<GUID>> = HashMap::new();
    assert(orders_view(orders) =~= Map::<GUID, Seq<GUID>>::empty());
    let mut f: usize = 0;
    while f < program.functions.len()
        invariant
            0 <= f <= program.functions@.len(),
            function_orders_from(*program, 0, Orders { orders: Map::empty(), ends: old(ends)@ })
                == function_orders_from(
                *program,
                f as int,
                Orders { orders: orders_view(orders), ends: ends@ },
            ),
            forall|d: int| 0 <= d < f ==> is_ordered(#[trigger] program.functions@[d].nodes@),
        decreases program.functions@.len() - f,
    {
        compile_into(&program.functions[f].nodes, program.functions[f].guid, &mut orders, ends)?;
        f += 1;
    }
    Ok(orders)
}

/// Compiles the method bodies of `program`.
fn compile_methods(program: &Program, ends: &mut Vec<GUID>) -> (result: Result<
    HashMap<GUID, HashMap<GUID, Vec<GUID>>>,
    VmError,
>)
    ensures
        match method_orders_from(
            *program,
            0,
            0,
            0,
            Orders { orders: Map::empty(), ends: old(ends)@ },
            Map::empty(),
        ) {
            Ok(all) => result matches Ok(tables) && method_orders_view(tables) == all.tables
                && final(ends)@ == all.ends && bodies_ordered(*program),
            Err(error) => result matches Err(e) && e@ == error,
        },
{
    let mut done: HashMap<GUID, HashMap<GUID, Vec<GUID>>> = HashMap::new();
    assert(method_orders_view(done) =~= Map::<GUID, Map<GUID, Seq<GUID>>>::empty());
    let ghost all = method_orders_from(
        *program,
        0,
        0,
        0,
        Orders { orders: Map::empty(), ends: old(ends)@ },
        Map::empty(),
    );
    let mut t: usize = 0;
    while t < program.types.len()
        invariant
            0 <= t <= program.types@.len(),
            all == method_orders_from(
                *program,
                0,
                0,
                0,
                Orders { orders: Map::empty(), ends: old(ends)@ },
                Map::empty(),
            ),
            all == method_orders_from(
                *program,
                t as int,
                0,
                0,
                Orders { orders: Map::empty(), ends: ends@ },
                method_orders_view(done),
            ),
            bodies_ordered_before(*program, t as int, 0, 0),
        decreases program.types@.len() - t,
    {
        let type_ = &program.types[t];
        let mut orders: HashMap<GUID, Vec<GUID>> = HashMap::new();
        assert(orders_view(orders) =~= Map::<GUID, Seq<GUID>>::empty());
        let mut i: usize = 0;
        while i < type_.traits_implementation.len()
            invariant
                0 <= t < program.types@.len(),
                *type_ == program.types@[t as int],
                0 <= i <= type_.traits_implementation@.len(),
                all == method_orders_from(
                    *program,
                    0,
                    0,
                    0,
                    Orders { orders: Map::empty(), ends: old(ends)@ },
                    Map::empty(),
                ),
                all == method_orders_from(
                    *program,
                    t as int,
                    i as int,
                    0,
                    Orders { orders: orders_view(orders), ends: ends@ },
                    method_orders_view(done),
                ),
                bodies_ordered_before(*program, t as int, i as int, 0),
            decreases type_.traits_implementation@.len() - i,
        {
            let implementation = &type_.traits_implementation[i];
            match find(&program.traits, &implementation.0) {
                None => {},
                Some(at) => {
                    let trait_ = &program.traits[at];
                    let mut k: usize = 0;
                    while k < trait_.methods.len()
                        invariant
                            0 <= t < program.types@.len(),
                            *type_ == program.types@[t as int],
                            0 <= i < type_.traits_implementation@.len(),
                            *implementation == type_.traits_implementation@[i as int],
                            position(program.traits@, implementation.0@) == Some(at as int),
                            at < program.traits@.len(),
                            *trait_ == program.traits@[at as int],
                            0 <= k <= trait_.methods@.len(),
                            all == method_orders_from(
                                *program,
                                0,
                                0,
                                0,
                                Orders { orders: Map::empty(), ends: old(ends)@ },
                                Map::empty(),
                            ),
                            all == method_orders_from(
                                *program,
                                t as int,
                                i as int,
                                k as int,
                                Orders { orders: orders_view(orders), ends: ends@ },
                                method_orders_view(done),
                            ),
                            bodies_ordered_before(*program, t as int, i as int, k as int),
                        decreases trait_.methods@.len() - k,
                    {
                        let declared = &trait_.methods[k];
                        proof {
                            lemma_position(
                                implementation.1@,
                                ReferenceView::Named(declared.name@),
                            );
                        }
                        let method = match find_by_name(&implementation.1, &declared.name) {
                            Some(o) => &implementation.1[o],
                            None => declared,
                        };
                        assert(*method == chosen_method(implementation.1@, *declared));
                        compile_into(&method.nodes, method.guid, &mut orders, ends)?;
                        assert(*method == body_at(*program, t as int, i as int, k as int));
                        k += 1;
                    }
                },
            }
            i += 1;
        }
        let ghost before = method_orders_view(done);
        let ghost table = orders_view(orders);
        done.insert(type_.guid, orders);
        assert(method_orders_view(done) =~= before.insert(type_.guid, table));
        t += 1;
    }
    Ok(done)
}

impl CompiledProgram {
    /// Compiles `ast`: the dispatch table, then every event, method body and
    /// function. Any error stops it, and then there is no compiled program.
    ///
    /// Where it succeeds, the graph of every event, of every function and of
    /// every method body has no cycle, and its execution order is a
    /// topological order of it; one whose graph has a cycle makes it fail.
    pub fn new(ast: Program) -> (result: Result<CompiledProgram, VmError>)
        ensures
            match linked(ast) {
                Ok(links) => result matches Ok(program) && program.ast == ast && program.links()
                    == links,
                Err(error) => result matches Err(e) && e@ == error,
            },
            result is Ok ==> forall|e: int|
                0 <= e < ast.events@.len() ==> is_ordered(#[trigger] ast.events@[e].nodes@),
            result is Ok ==> forall|f: int|
                0 <= f < ast.functions@.len() ==> is_ordered(#[trigger] ast.functions@[f].nodes@),
            result is Ok ==> bodies_ordered(ast),
    {
        let type_methods = build_dispatch(&ast)?;
        let mut end_nodes: Vec<GUID> = Vec::new();
        let event_execution_order = compile_events(&ast, &mut end_nodes)?;
        let method_execution_order = compile_methods(&ast, &mut end_nodes)?;
        let function_execution_order = compile_functions(&ast, &mut end_nodes)?;
        Ok(
            CompiledProgram {
                ast,
                event_execution_order,
                method_execution_order,
                function_execution_order,
                type_methods,
                end_nodes,
            },
        )
    }
}

} // verus!
