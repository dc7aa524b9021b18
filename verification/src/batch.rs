//! Batches: what it means to drive every running event forward in one call.

use vstd::prelude::*;
use vstd::std_specs::iter::IteratorSpec;
use std::collections::HashMap;
use crate::ast::GUID;
use crate::error::VmErrorView;
use crate::event::EventView;
use crate::run::{ran, Moment, Scene};
use crate::value::{CellView, Reference};

verus! {

/// The most steps that one batch makes on one event. An event that has not
/// come to rest by then stays running and goes on in the next batch.
pub const STEP_BUDGET: usize = 0xFFFF_FFFF;

/// What a batch changes: the value store and the running and completed
/// events.
pub struct Batch {
    pub heap: Seq<CellView>,
    pub running: Map<GUID, EventView>,
    pub completed: Map<GUID, Seq<Reference>>,
}

/// The state after the event `handle` has run to the moment `end` with the
/// report `report`: an event with nothing left to run is completed with its
/// final outputs; one that halted, used up its budget or failed stays
/// running as it then is.
pub open spec fn after_run(
    before: Batch,
    handle: GUID,
    end: Moment,
    report: Result<bool, VmErrorView>,
) -> Batch {
    match report {
        Ok(false) => Batch {
            heap: end.heap,
            running: before.running.remove(handle),
            completed: before.completed.insert(handle, end.event.outputs),
        },
        _ => Batch {
            heap: end.heap,
            running: before.running.insert(handle, end.event),
            completed: before.completed,
        },
    }
}

/// Whether running the event `handle` can lead from `before` to `after`
/// with the report `report`.
pub open spec fn handled(
    scene: Scene,
    before: Batch,
    handle: GUID,
    after: Batch,
    report: Result<bool, VmErrorView>,
) -> bool {
    before.running.contains_key(handle) && exists|end: Moment| #[trigger]
        ran(
            scene,
            Moment { heap: before.heap, event: before.running[handle] },
            end,
            report,
            STEP_BUDGET as nat,
        ) && after == after_run(before, handle, end, report)
}

/// Whether running event `i` of `order` leads from state `i` of `states`
/// to the next without an error.
pub open spec fn handled_at(scene: Scene, order: Seq<GUID>, states: Seq<Batch>, i: int) -> bool {
    exists|running: bool| #[trigger]
        handled(
            scene,
            states[i],
            order[i],
            states[i + 1],
            Ok::<bool, VmErrorView>(running),
        )
}

/// Whether `states` are the states of a batch that starts in `start` and
/// runs the events `order` one after the other, each without an error.
pub open spec fn is_batch(scene: Scene, start: Batch, order: Seq<GUID>, states: Seq<Batch>) -> bool {
    &&& states.len() > 0
    &&& states[0] == start
    &&& states.len() <= order.len() + 1
    &&& forall|i: int| 0 <= i < states.len() - 1 ==> #[trigger] handled_at(scene, order, states, i)
}

/// Whether a batch can lead from `start` to `end` with the report
/// `report`. The running events are taken in some order, each once. Without
/// an error all of them have run. The first error ends the batch: the event
/// that failed stays running, and the events after it are untouched.
pub open spec fn processed(
    scene: Scene,
    start: Batch,
    end: Batch,
    report: Result<(), VmErrorView>,
) -> bool {
    exists|order: Seq<GUID>, states: Seq<Batch>|
        order.no_duplicates() && order.to_set() == start.running.dom() && #[trigger] is_batch(
            scene,
            start,
            order,
            states,
        ) && match report {
            Ok(_) => states.len() == order.len() + 1 && end == states.last(),
            Err(error) => states.len() <= order.len() && handled(
                scene,
                states.last(),
                order[states.len() - 1],
                end,
                Err::<bool, VmErrorView>(error),
            ),
        }
}

/// The keys of `table`, each once, in the order in which the table lists
/// them.
pub fn handles_of<V>(table: &HashMap<GUID, V>) -> (handles: Vec<GUID>)
    ensures
        handles@.no_duplicates(),
        handles@.to_set() == table@.dom(),
{
    let mut handles: Vec<GUID> = Vec::new();
    for handle in listed: table.keys()
        invariant
            handles@.len() == listed.index(),
            listed.seq() == table.keys().remaining(),
            forall|j: int| 0 <= j < handles@.len() ==> handles@[j] == *listed.seq()[j],
    {
        handles.push(*handle);
    }
    assert(handles@ =~= table.keys().remaining().unref());
    handles
}

} // verus!
