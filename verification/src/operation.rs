//! Native operations: the extension points that the host registers by name.

use vstd::prelude::*;
use crate::error::VmOperationError;
use crate::value::{CellView, Heap, Reference};

verus! {

/// A native operation: the machine hands it the value store and the handles
/// of its inputs, and takes the handles of its outputs or its failure.
pub trait VmOperation {
    /// What the operation declares of its calls: whether a call of it, as it is
    /// before the call, may go as `call` says. By default a call may go any way.
    open spec fn performs(&self, call: Performed) -> bool { true }
    fn execute(&mut self, heap: &mut Heap, inputs: &Vec<Reference>) -> (result: Result<Vec<Reference>, VmOperationError>)
        ensures
            old(self).performs(performed(old(heap)@, inputs@, final(heap)@, result)),
    ;
}

/// A boxed operation is an operation: a machine over boxed operations holds
/// operations of different types. It does what the operation in the box does.
impl<T: VmOperation + ?Sized> VmOperation for Box<T> {
    fn execute(&mut self, heap: &mut Heap, inputs: &Vec<Reference>) -> (result: Result<
        Vec<Reference>,
        VmOperationError,
    >) {
        (**self).execute(heap, inputs)
    }

    open spec fn performs(&self, call: Performed) -> bool {
        (**self).performs(call)
    }
}

/// One call of an operation: the store and the inputs that it was handed,
/// the store that it left, and what it returned. An operation may read,
/// write and create values in the store; it must not call back into the
/// machine that runs it.
pub struct Performed {
    pub heap: Seq<CellView>,
    pub inputs: Seq<Reference>,
    pub stored: Seq<CellView>,
    pub result: Result<Seq<Reference>, VmOperationError>,
}

/// The call that was handed `heap` and `inputs`, left the store `stored` and
/// returned `result`.
pub open spec fn performed(
    heap: Seq<CellView>,
    inputs: Seq<Reference>,
    stored: Seq<CellView>,
    result: Result<Vec<Reference>, VmOperationError>,
) -> Performed {
    Performed {
        heap,
        inputs,
        stored,
        result: match result {
            Ok(outputs) => Ok(outputs@),
            Err(error) => Err(error),
        },
    }
}

/// The names under which the operations of a registry stand, in its order.
pub open spec fn names_of<O>(operations: Seq<(String, O)>) -> Seq<Seq<char>> {
    Seq::new(operations.len(), |i: int| operations[i].0@)
}

/// The first index of `name` in `names`, at or after `from`.
pub open spec fn name_index_from(names: Seq<Seq<char>>, name: Seq<char>, from: int) -> Option<int>
    decreases names.len() - from,
{
    if from < 0 || from >= names.len() {
        None
    } else if names[from] == name {
        Some(from)
    } else {
        name_index_from(names, name, from + 1)
    }
}

/// The first index of `name` in `names`.
pub open spec fn name_index(names: Seq<Seq<char>>, name: Seq<char>) -> Option<int> {
    name_index_from(names, name, 0)
}

/// Finds the operation registered under `name`.
pub fn find_operation<O>(operations: &Vec<(String, O)>, name: &String) -> (found: Option<usize>)
    ensures
        match found {
            Some(i) => name_index(names_of(operations@), name@) == Some(i as int) && i
                < operations@.len(),
            None => name_index(names_of(operations@), name@) is None,
        },
{
    let ghost names = names_of(operations@);
    let mut i: usize = 0;
    while i < operations.len()
        invariant
            0 <= i <= operations@.len(),
            names == names_of(operations@),
            name_index(names, name@) == name_index_from(names, name@, i as int),
        decreases operations@.len() - i,
    {
        if operations[i].0 == *name {
            return Some(i);
        }
        i += 1;
    }
    None
}

} // verus!
