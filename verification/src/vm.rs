//! The execution engine: a compiled program, the registered native
//! operations, the value store, the global variables, and the running and
//! completed event activations.

use vstd::prelude::*;
use std::collections::HashMap;
use crate::ast;
use crate::ast::{find, find_by_name, position, Program, ReferenceView, GUID};
use crate::batch::{
    after_run,
    handled,
    handled_at,
    handles_of,
    is_batch,
    processed,
    Batch,
    STEP_BUDGET,
};
use crate::error::{VmError, VmErrorView};
use crate::event::{
    fresh_context,
    guids_of_variables,
    outputs_view,
    variable_cells,
    variable_guids,
    with_empty_cells,
    EventView,
    VmContextOwner,
    VmEvent,
};
use crate::guid::fresh_guid;
use crate::operation::{find_operation, name_index, names_of, VmOperation};
use crate::program::{bodies_ordered, is_ordered, linked, orders_view, CompiledProgram};
use crate::run::{process_event, ran, report_view, step_event, step_relation, Moment, Scene};
use crate::step::{global_variable, global_variable_cell, status_view, Outcome, VmStepStatus};
use crate::value::{CellView, Heap, Reference, Value};

verus! {

/// The virtual machine.
pub struct Vm<O: VmOperation> {
    program: CompiledProgram,
    operations: Vec<(String, O)>,
    heap: Heap,
    variables: HashMap<GUID, Reference>,
    running_events: HashMap<GUID, VmEvent>,
    completed_events: HashMap<GUID, Vec<Reference>>,
}

/// The mathematical value of a [`Vm`].
pub struct VmView<O> {
    /// The compiled program. It never changes.
    pub program: CompiledProgram,
    /// The registered operations, each with the name it stands under.
    pub operations: Seq<(Seq<char>, O)>,
    /// The value store.
    pub heap: Seq<CellView>,
    /// The cell of each global variable.
    pub globals: Map<GUID, Reference>,
    /// The running events by handle.
    pub running: Map<GUID, EventView>,
    /// The final outputs of the completed events by handle.
    pub completed: Map<GUID, Seq<Reference>>,
}

/// The registered operations that a registry of executable code holds.
pub open spec fn operations_view<O>(operations: Seq<(String, O)>) -> Seq<(Seq<char>, O)> {
    Seq::new(operations.len(), |i: int| (operations[i].0@, operations[i].1))
}

/// The running events that a table of executable code holds.
pub open spec fn running_view(running: HashMap<GUID, VmEvent>) -> Map<GUID, EventView> {
    Map::new(|handle: GUID| running@.contains_key(handle), |handle: GUID| running@[handle]@)
}

impl<O> VmView<O> {
    /// The names under which operations are registered.
    pub open spec fn names(self) -> Seq<Seq<char>> {
        Seq::new(self.operations.len(), |i: int| self.operations[i].0)
    }

    /// What stays the same while events run.
    pub open spec fn scene(self) -> Scene {
        Scene { program: self.program, globals: self.globals, names: self.names() }
    }

    /// Whether `other` has the program, the global variables and the
    /// operation names of this machine.
    pub open spec fn same_setting(self, other: VmView<O>) -> bool {
        &&& other.program == self.program
        &&& other.globals == self.globals
        &&& other.names() == self.names()
    }

    /// The operations after `operator` is registered under `name`: in place
    /// of the operation that has the name, or at the end.
    pub open spec fn registered(self, name: Seq<char>, operator: O) -> Seq<(Seq<char>, O)> {
        match name_index(self.names(), name) {
            Some(i) => self.operations.update(i, (name, operator)),
            None => self.operations.push((name, operator)),
        }
    }

    /// The operations without the one registered under `name`.
    pub open spec fn unregistered(self, name: Seq<char>) -> Seq<(Seq<char>, O)> {
        match name_index(self.names(), name) {
            Some(i) => self.operations.remove(i),
            None => self.operations,
        }
    }

    /// The global variable that `reference` names: by its identifier where
    /// it has a cell, or by the name under which the program declares it.
    pub open spec fn global_slot(self, reference: ReferenceView) -> Option<GUID> {
        match reference {
            ReferenceView::Unset => None,
            ReferenceView::Guid(guid) => if self.globals.contains_key(guid) {
                Some(guid)
            } else {
                None
            },
            ReferenceView::Named(_) => match position(self.program.ast.variables@, reference) {
                None => None,
                Some(v) => if self.globals.contains_key(self.program.ast.variables@[v].guid) {
                    Some(self.program.ast.variables@[v].guid)
                } else {
                    None
                },
            },
        }
    }

    /// Why the event `name` cannot be started with `inputs` inputs, if it
    /// cannot: there is no such event, the number of inputs is not what it
    /// declares, or it has an entry node and was not compiled.
    pub open spec fn start_error(self, name: Seq<char>, inputs: nat) -> Option<VmErrorView> {
        match position(self.program.ast.events@, ReferenceView::Named(name)) {
            None => Some(VmErrorView::CouldNotRunEvent(name)),
            Some(e) => {
                let event = self.program.ast.events@[e];
                if event.input_constrains@.len() != inputs {
                    Some(
                        VmErrorView::WrongNumberOfInputs(
                            event.input_constrains@.len() as usize,
                            inputs as usize,
                        ),
                    )
                } else if event.entry_node@ is Unset {
                    None
                } else if !orders_view(self.program.event_execution_order).contains_key(
                    event.guid,
                ) {
                    Some(VmErrorView::CouldNotRunEvent(name))
                } else {
                    None
                }
            },
        }
    }

    /// The machine after the event `name` is started under the handle
    /// `handle`: an event without an entry node is completed at once,
    /// without outputs; any other runs, with one activation record at the
    /// start of its execution order.
    pub open spec fn started(self, handle: GUID, name: Seq<char>, inputs: Seq<Reference>) -> VmView<
        O,
    > {
        let event = self.program.ast.events@[position(
            self.program.ast.events@,
            ReferenceView::Named(name),
        )->Some_0];
        if event.entry_node@ is Unset {
            VmView { completed: self.completed.insert(handle, Seq::empty()), ..self }
        } else {
            VmView {
                heap: with_empty_cells(self.heap, 1 + event.variables@.len()),
                running: self.running.insert(
                    handle,
                    EventView {
                        contexts: seq![
                            fresh_context(
                                self.heap.len(),
                                VmContextOwner::Event(event.guid),
                                None,
                                orders_view(self.program.event_execution_order)[event.guid],
                                None,
                                inputs,
                                event.output_constrains@.len() as usize,
                                guids_of_variables(event.variables@),
                            ),
                        ],
                        outputs: Seq::empty(),
                    },
                ),
                ..self
            }
        }
    }

    /// The machine after the running event `handle` is destroyed: it counts
    /// as completed, without outputs.
    pub open spec fn destroyed(self, handle: GUID) -> VmView<O> {
        VmView {
            running: self.running.remove(handle),
            completed: self.completed.insert(handle, Seq::empty()),
            ..self
        }
    }

    /// What a batch changes of the machine.
    pub open spec fn batch(self) -> Batch {
        Batch { heap: self.heap, running: self.running, completed: self.completed }
    }

    /// The machine after the completed events are taken out.
    pub open spec fn drained(self) -> VmView<O> {
        VmView { completed: Map::empty(), ..self }
    }
}

/// The completed events are handed out once: after they are taken out there
/// are none, so taking them out again right away gives nothing and changes
/// nothing.
pub proof fn lemma_drained_once<O>(vm: VmView<O>)
    ensures
        vm.drained().completed == Map::<GUID, Seq<Reference>>::empty(),
        vm.drained().drained() == vm.drained(),
{
}

/// What a single step reports for the result of the step.
pub open spec fn step_report(result: Result<VmStepStatus, VmErrorView>) -> Result<(), VmErrorView> {
    match result {
        Ok(_) => Ok(()),
        Err(error) => Err(error),
    }
}

/// The view of a result without a value.
pub open spec fn unit_view(result: Result<(), VmError>) -> Result<(), VmErrorView> {
    match result {
        Ok(_) => Ok(()),
        Err(error) => Err(error@),
    }
}

impl<O: VmOperation> View for Vm<O> {
    type V = VmView<O>;

    closed spec fn view(&self) -> VmView<O> {
        VmView {
            program: self.program,
            operations: operations_view(self.operations@),
            heap: self.heap@,
            globals: self.variables@,
            running: running_view(self.running_events),
            completed: outputs_view(self.completed_events),
        }
    }
}

impl<O: VmOperation> Vm<O> {
    /// Builds a machine for `ast`. The program is compiled first: any error
    /// in that, a cyclic graph among them, leaves no machine. Each global
    /// variable gets a new empty cell. No operation is registered and no
    /// event runs. Every execution order of the machine is a topological
    /// order of its graph.
    pub fn new(ast: Program) -> (result: Result<Vm<O>, VmError>)
        ensures
            match linked(ast) {
                Err(error) => result matches Err(e) && e@ == error,
                Ok(links) => result matches Ok(vm) && vm@.program.ast == ast
                    && vm@.program.links() == links && vm@.operations.len() == 0 && vm@.heap
                    == with_empty_cells(Seq::empty(), ast.variables@.len()) && vm@.globals
                    == variable_cells(
                    guids_of_variables(ast.variables@),
                    0,
                    ast.variables@.len() as int,
                ) && vm@.running == Map::<GUID, EventView>::empty() && vm@.completed == Map::<
                    GUID,
                    Seq<Reference>,
                >::empty(),
            },
            result is Ok ==> forall|e: int|
                0 <= e < ast.events@.len() ==> is_ordered(#[trigger] ast.events@[e].nodes@),
            result is Ok ==> forall|f: int|
                0 <= f < ast.functions@.len() ==> is_ordered(#[trigger] ast.functions@[f].nodes@),
            result is Ok ==> bodies_ordered(ast),
    {
        let program = CompiledProgram::new(ast)?;
        let mut heap = Heap::new();
        let mut variables: HashMap<GUID, Reference> = HashMap::new();
        let ghost guids = guids_of_variables(program.ast.variables@);
        let mut v: usize = 0;
        while v < program.ast.variables.len()
            invariant
                0 <= v <= program.ast.variables@.len(),
                guids == guids_of_variables(program.ast.variables@),
                heap@ == with_empty_cells(Seq::empty(), v as nat),
                variables@ == variable_cells(guids, 0, v as int),
            decreases program.ast.variables@.len() - v,
        {
            let cell = heap.store(Value::Empty);
            variables.insert(program.ast.variables[v].guid, cell);
            assert(heap@ =~= with_empty_cells(Seq::empty(), (v + 1) as nat));
            v += 1;
        }
        let vm = Vm {
            program,
            operations: Vec::new(),
            heap,
            variables,
            running_events: HashMap::new(),
            completed_events: HashMap::new(),
        };
        assert(vm@.running =~= Map::<GUID, EventView>::empty());
        assert(vm@.completed =~= Map::<GUID, Seq<Reference>>::empty());
        assert(vm@.operations =~= Seq::empty());
        Ok(vm)
    }

    /// Registers `operator` under `name`, in place of the operation that
    /// stood under that name, if any.
    pub fn register_operation(&mut self, name: &str, operator: O)
        ensures
            final(self)@ == (VmView {
                operations: old(self)@.registered(name@, operator),
                ..old(self)@
            }),
    {
        let name = name.to_owned();
        assert(names_of(self.operations@) =~= self@.names());
        match find_operation(&self.operations, &name) {
            Some(i) => {
                self.operations.set(i, (name, operator));
            },
            None => {
                self.operations.push((name, operator));
            },
        }
        assert(self@.operations =~= old(self)@.registered(name@, operator));
    }

    /// Removes the operation registered under `name`. Returns whether there
    /// was one.
    pub fn unregister_operator(&mut self, name: &str) -> (removed: bool)
        ensures
            removed == (name_index(old(self)@.names(), name@) is Some),
            final(self)@ == (VmView {
                operations: old(self)@.unregistered(name@),
                ..old(self)@
            }),
    {
        let name = name.to_owned();
        assert(names_of(self.operations@) =~= self@.names());
        match find_operation(&self.operations, &name) {
            Some(i) => {
                let _ = self.operations.remove(i);
                assert(self@.operations =~= old(self)@.unregistered(name@));
                true
            },
            None => {
                assert(self@.operations =~= old(self)@.unregistered(name@));
                false
            },
        }
    }

    /// The cell of the global variable that `reference` names.
    pub fn global_variable_value(&self, reference: &ast::Reference) -> (result: Result<
        Reference,
        VmError,
    >)
        ensures
            match global_variable(self@.program, self@.globals, reference@) {
                Ok(cell) => result == Ok::<Reference, VmError>(cell),
                Err(error) => result matches Err(e) && e@ == error,
            },
    {
        global_variable_cell(&self.program, &self.variables, reference)
    }

    /// Binds the global variable that `reference` names to the cell `value`
    /// and returns the cell it was bound to. A reference that names no
    /// global variable is an error and changes nothing.
    pub fn set_global_variable_value(&mut self, reference: &ast::Reference, value: Reference) -> (result:
        Result<Reference, VmError>)
        ensures
            match old(self)@.global_slot(reference@) {
                Some(guid) => result == Ok::<Reference, VmError>(old(self)@.globals[guid])
                    && final(self)@ == (VmView {
                    globals: old(self)@.globals.insert(guid, value),
                    ..old(self)@
                }),
                None => result matches Err(e) && e@ == VmErrorView::GlobalVariableDoesNotExists(
                    reference@,
                ) && final(self)@ == old(self)@,
            },
    {
        let guid = match reference {
            ast::Reference::Unset => None,
            ast::Reference::Guid(guid) => Some(*guid),
            ast::Reference::Named(_) => match find(&self.program.ast.variables, reference) {
                Some(v) => Some(self.program.ast.variables[v].guid),
                None => None,
            },
        };
        if let Some(guid) = guid {
            if self.variables.contains_key(&guid) {
                if let Some(before) = self.variables.insert(guid, value) {
                    return Ok(before);
                }
            }
        }
        Err(VmError::GlobalVariableDoesNotExists(reference.clone()))
    }

    /// Starts the event `name` with the inputs `inputs` under the handle
    /// `handle`. Where the event cannot be started nothing changes.
    pub fn start_event(&mut self, handle: GUID, name: &str, inputs: Vec<Reference>) -> (result:
        Result<GUID, VmError>)
        ensures
            match old(self)@.start_error(name@, inputs@.len()) {
                Some(error) => result matches Err(e) && e@ == error && final(self)@ == old(self)@,
                None => result == Ok::<GUID, VmError>(handle) && final(self)@ == old(
                    self,
                )@.started(handle, name@, inputs@),
            },
    {
        let owned = name.to_owned();
        let e = match find_by_name(&self.program.ast.events, &owned) {
            Some(e) => e,
            None => {
                return Err(VmError::CouldNotRunEvent(owned));
            },
        };
        proof {
            crate::ast::lemma_position(self.program.ast.events@, ReferenceView::Named(name@));
        }
        let event = &self.program.ast.events[e];
        if event.input_constrains.len() != inputs.len() {
            return Err(VmError::WrongNumberOfInputs(event.input_constrains.len(), inputs.len()));
        }
        match &event.entry_node {
            ast::Reference::Unset => {
                self.completed_events.insert(handle, Vec::new());
                assert(self@.completed =~= old(self)@.completed.insert(handle, Seq::empty()));
            },
            _ => {
                let execution = match self.program.event_execution_order.get(&event.guid) {
                    Some(execution) => execution.clone(),
                    None => {
                        return Err(VmError::CouldNotRunEvent(owned));
                    },
                };
                let variables = variable_guids(&event.variables);
                let activation = VmEvent::new(
                    &mut self.heap,
                    event.guid,
                    execution,
                    variables,
                    inputs,
                    event.output_constrains.len(),
                );
                self.running_events.insert(handle, activation);
                assert(self@.running =~= old(self)@.running.insert(handle, activation@));
            },
        }
        Ok(handle)
    }

    /// Starts the event `name` with the inputs `inputs` and returns the new
    /// handle of the activation, without running any of it. An event that
    /// does not exist, or a number of inputs other than the event declares,
    /// is an error and changes nothing.
    pub fn run_event(&mut self, name: &str, inputs: Vec<Reference>) -> (result: Result<GUID, VmError>)
        ensures
            match old(self)@.start_error(name@, inputs@.len()) {
                Some(error) => result matches Err(e) && e@ == error && final(self)@ == old(self)@,
                None => result matches Ok(handle) && final(self)@ == old(self)@.started(
                    handle,
                    name@,
                    inputs@,
                ),
            },
    {
        let handle = fresh_guid();
        self.start_event(handle, name, inputs)
    }

    /// Discards the running event `handle`. It counts as completed, without
    /// outputs. A handle of no running event is an error and changes
    /// nothing.
    pub fn destroy_event(&mut self, handle: GUID) -> (result: Result<(), VmError>)
        ensures
            if old(self)@.running.contains_key(handle) {
                result is Ok && final(self)@ == old(self)@.destroyed(handle)
            } else {
                result matches Err(e) && e@ == VmErrorView::EventDoesNotExists(
                    ReferenceView::Guid(handle),
                ) && final(self)@ == old(self)@
            },
    {
        if self.running_events.remove(&handle).is_some() {
            self.completed_events.insert(handle, Vec::new());
            assert(self@.running =~= old(self)@.running.remove(handle));
            assert(self@.completed =~= old(self)@.completed.insert(handle, Seq::empty()));
            Ok(())
        } else {
            assert(self@.running =~= old(self)@.running);
            Err(VmError::EventDoesNotExists(ast::Reference::Guid(handle)))
        }
    }

    /// Takes out the completed events: the final outputs of each by handle.
    /// The machine then holds none.
    pub fn get_completed_events(&mut self) -> (completed: HashMap<GUID, Vec<Reference>>)
        ensures
            outputs_view(completed) == old(self)@.completed,
            final(self)@ == old(self)@.drained(),
    {
        let mut completed: HashMap<GUID, Vec<Reference>> = HashMap::new();
        core::mem::swap(&mut self.completed_events, &mut completed);
        assert(self@.completed =~= Map::<GUID, Seq<Reference>>::empty());
        completed
    }

    /// Executes one node of the running event `handle`. The event stays
    /// running, whatever the step gives: a step that fails leaves it as it
    /// was. A handle of no running event is an error and changes nothing.
    pub fn single_step_event(&mut self, handle: GUID) -> (result: Result<(), VmError>)
        ensures
            old(self)@.same_setting(final(self)@),
            final(self)@.completed == old(self)@.completed,
            if old(self)@.running.contains_key(handle) {
                exists|outcome: Outcome| #[trigger]
                    step_relation(
                        old(self)@.scene(),
                        Moment { heap: old(self)@.heap, event: old(self)@.running[handle] },
                        outcome,
                    ) && final(self)@.heap == outcome.heap && final(self)@.running == old(
                        self,
                    )@.running.insert(handle, outcome.event) && unit_view(result) == step_report(
                        outcome.result,
                    )
            } else {
                result matches Err(e) && e@ == VmErrorView::EventDoesNotExists(
                    ReferenceView::Guid(handle),
                ) && final(self)@.heap == old(self)@.heap && final(self)@.running == old(
                    self,
                )@.running
            },
    {
        assert(names_of(self.operations@) =~= self@.names());
        let mut event = match self.running_events.remove(&handle) {
            Some(event) => event,
            None => {
                assert(self@.running =~= old(self)@.running);
                return Err(VmError::EventDoesNotExists(ast::Reference::Guid(handle)));
            },
        };
        let stepped = step_event(
            &self.program,
            &self.variables,
            &mut self.operations,
            &mut self.heap,
            &mut event,
        );
        let ghost outcome = Outcome {
            heap: self.heap@,
            event: event@,
            result: status_view(stepped),
        };
        self.running_events.insert(handle, event);
        assert(self@.running =~= old(self)@.running.insert(handle, outcome.event));
        assert(names_of(self.operations@) =~= self@.names());
        assert(step_relation(
            old(self)@.scene(),
            Moment { heap: old(self)@.heap, event: old(self)@.running[handle] },
            outcome,
        ));
        match stepped {
            Ok(_) => Ok(()),
            Err(error) => Err(error),
        }
    }

    /// The value store, to read values through their handles.
    pub fn heap(&self) -> (heap: &Heap)
        ensures
            heap@ == self@.heap,
    {
        &self.heap
    }

    /// Puts `value` in a new cell of the value store and returns the cell's
    /// handle.
    pub fn store_value(&mut self, value: Value) -> (handle: Reference)
        ensures
            handle == old(self)@.heap.len(),
            final(self)@ == (VmView {
                heap: old(self)@.heap.push(CellView { value: value@, held: false }),
                ..old(self)@
            }),
    {
        self.heap.store(value)
    }

    /// Marks the cell `handle` as held by a reader, so that nothing
    /// overwrites it. Returns whether the cell exists.
    pub fn hold_value(&mut self, handle: Reference) -> (exists: bool)
        ensures
            exists == (handle < old(self)@.heap.len()),
            final(self)@ == (VmView {
                heap: crate::value::marked(old(self)@.heap, handle, true),
                ..old(self)@
            }),
    {
        self.heap.hold(handle)
    }

    /// Releases the cell `handle`. Returns whether the cell exists.
    pub fn release_value(&mut self, handle: Reference) -> (exists: bool)
        ensures
            exists == (handle < old(self)@.heap.len()),
            final(self)@ == (VmView {
                heap: crate::value::marked(old(self)@.heap, handle, false),
                ..old(self)@
            }),
    {
        self.heap.release(handle)
    }

    /// Drives every running event forward, in some order, until it halts,
    /// has nothing left to run, or has made [`STEP_BUDGET`] steps. An event
    /// with nothing left to run is completed with its final outputs. The
    /// first error ends the call: the event that failed stays running, and
    /// the events that were not yet run are untouched.
    pub fn process_events(&mut self) -> (result: Result<(), VmError>)
        ensures
            old(self)@.same_setting(final(self)@),
            processed(
                old(self)@.scene(),
                old(self)@.batch(),
                final(self)@.batch(),
                unit_view(result),
            ),
    {
        let order = handles_of(&self.running_events);
        let ghost scene = self@.scene();
        let ghost start = self@.batch();
        let ghost mut states: Seq<Batch> = seq![start];
        assert(names_of(self.operations@) =~= self@.names());
        assert(order@.to_set() =~= start.running.dom());
        assert forall|j: int| 0 <= j < order@.len() implies self@.running.contains_key(
            #[trigger] order@[j],
        ) by {
            assert(order@.to_set().contains(order@[j]));
        }
        let mut i: usize = 0;
        while i < order.len()
            invariant
                0 <= i <= order@.len(),
                order@.no_duplicates(),
                order@.to_set() == start.running.dom(),
                scene == old(self)@.scene(),
                start == old(self)@.batch(),
                old(self)@.same_setting(self@),
                is_batch(scene, start, order@, states),
                states.len() == i + 1,
                states.last() == self@.batch(),
                forall|j: int|
                    i <= j < order@.len() ==> self@.running.contains_key(#[trigger] order@[j]),
            decreases order@.len() - i,
        {
            let handle = order[i];
            let ghost before = self@.batch();
            assert(before.running.contains_key(order@[i as int]));
            assert(names_of(self.operations@) =~= self@.names());
            let mut event = match self.running_events.remove(&handle) {
                Some(event) => event,
                None => vstd::pervasive::unreached(),
            };
            let ghost first = Moment { heap: before.heap, event: before.running[handle] };
            assert(first.event == event@);
            assert(first.heap == self.heap@);
            let ghost setting = Scene {
                program: self.program,
                globals: self.variables@,
                names: names_of(self.operations@),
            };
            assert(setting == scene);
            let report = process_event(
                &self.program,
                &self.variables,
                &mut self.operations,
                &mut self.heap,
                &mut event,
                STEP_BUDGET,
            );
            assert(names_of(self.operations@) =~= self@.names());
            let ghost end = Moment { heap: self.heap@, event: event@ };
            let ghost told = report_view(report);
            assert(ran(scene, first, end, told, STEP_BUDGET as nat));
            match report {
                Ok(true) => {
                    self.running_events.insert(handle, event);
                    assert(self@.running =~= before.running.insert(handle, end.event));
                },
                Ok(false) => {
                    self.completed_events.insert(handle, event.outputs);
                    assert(self@.running =~= before.running.remove(handle));
                    assert(self@.completed =~= before.completed.insert(handle, end.event.outputs));
                },
                Err(error) => {
                    self.running_events.insert(handle, event);
                    assert(self@.running =~= before.running.insert(handle, end.event));
                    assert(self@.batch() == after_run(before, handle, end, told));
                    assert(handled(
                        scene,
                        states.last(),
                        order@[states.len() - 1],
                        self@.batch(),
                        Err::<bool, VmErrorView>(error@),
                    ));
                    return Err(error);
                },
            }
            proof {
                let running = report->Ok_0;
                let longer = states.push(self@.batch());
                assert(self@.batch() == after_run(before, handle, end, told));
                assert(told == Ok::<bool, VmErrorView>(running));
                assert(handled(
                    scene,
                    before,
                    handle,
                    self@.batch(),
                    Ok::<bool, VmErrorView>(running),
                ));
                assert forall|k: int| 0 <= k < longer.len() - 1 implies #[trigger] handled_at(
                    scene,
                    order@,
                    longer,
                    k,
                ) by {
                    if k < states.len() - 1 {
                        assert(handled_at(scene, order@, states, k));
                        assert(longer[k] == states[k]);
                        assert(longer[k + 1] == states[k + 1]);
                        let was = choose|was: bool| #[trigger]
                            handled(
                                scene,
                                states[k],
                                order@[k],
                                states[k + 1],
                                Ok::<bool, VmErrorView>(was),
                            );
                        assert(handled(
                            scene,
                            longer[k],
                            order@[k],
                            longer[k + 1],
                            Ok::<bool, VmErrorView>(was),
                        ));
                    } else {
                        assert(longer[k] == before);
                        assert(order@[k] == handle);
                        assert(longer[k + 1] == self@.batch());
                        assert(handled(
                            scene,
                            longer[k],
                            order@[k],
                            longer[k + 1],
                            Ok::<bool, VmErrorView>(running),
                        ));
                    }
                }
                assert forall|j: int| i + 1 <= j < order@.len() implies self@.running.contains_key(
                    #[trigger] order@[j],
                ) by {
                    assert(order@[j] != order@[i as int]);
                    assert(before.running.contains_key(order@[j]));
                }
                states = longer;
            }
            i += 1;
        }
        Ok(())
    }
}

} // verus!
