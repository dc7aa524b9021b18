//! Values and the store that holds them.
//!
//! A value lives in a cell of the store and is reached through a handle, the
//! cell's index. Handles are freely copied; every copy names the same cell,
//! so what is written through one handle is read through all of them.

use vstd::prelude::*;
use crate::document::Number;

verus! {

/// A handle to one cell of the value store.
pub type Reference = usize;

/// A value of the virtual machine. Lists and objects hold handles.
#[derive(Debug, PartialEq, Eq)]
pub enum Value {
    Empty,
    Bool(bool),
    Number(Number),
    String(String),
    List(Vec<Reference>),
    Object(Vec<(String, Reference)>),
}

/// The mathematical value of a [`Value`].
pub enum ValueView {
    Empty,
    Bool(bool),
    Number(Number),
    String(Seq<char>),
    List(Seq<Reference>),
    Object(Seq<(Seq<char>, Reference)>),
}

/// The entries of an object as pairs of key text and handle.
pub open spec fn entries_view(entries: Seq<(String, Reference)>) -> Seq<(Seq<char>, Reference)> {
    Seq::new(entries.len(), |i: int| (entries[i].0@, entries[i].1))
}

impl View for Value {
    type V = ValueView;

    open spec fn view(&self) -> ValueView {
        match self {
            Value::Empty => ValueView::Empty,
            Value::Bool(b) => ValueView::Bool(*b),
            Value::Number(n) => ValueView::Number(*n),
            Value::String(s) => ValueView::String(s@),
            Value::List(items) => ValueView::List(items@),
            Value::Object(entries) => ValueView::Object(entries_view(entries@)),
        }
    }
}

impl Clone for Value {
    /// Copies the content. The handles in a list or an object are copied as
    /// handles: the copy shares the cells that the copied value names.
    fn clone(&self) -> (copy: Value)
        ensures
            copy@ == self@,
    {
        match self {
            Value::Empty => Value::Empty,
            Value::Bool(b) => Value::Bool(*b),
            Value::Number(n) => Value::Number(*n),
            Value::String(s) => Value::String(s.clone()),
            Value::List(items) => {
                let copies = items.clone();
                assert(copies@ =~= items@);
                Value::List(copies)
            },
            Value::Object(entries) => {
                let mut copies: Vec<(String, Reference)> = Vec::new();
                let mut i: usize = 0;
                while i < entries.len()
                    invariant
                        0 <= i <= entries@.len(),
                        copies@.len() == i,
                        forall|j: int|
                            0 <= j < i ==> (#[trigger] copies@[j]).0@ == entries@[j].0@
                                && copies@[j].1 == entries@[j].1,
                    decreases entries@.len() - i,
                {
                    copies.push((entries[i].0.clone(), entries[i].1));
                    i += 1;
                }
                assert(entries_view(copies@) =~= entries_view(entries@));
                Value::Object(copies)
            },
        }
    }
}

/// The index of the first entry with the key `key`, at or after `from`.
pub open spec fn key_position_from(
    entries: Seq<(Seq<char>, Reference)>,
    key: Seq<char>,
    from: int,
) -> Option<int>
    decreases entries.len() - from,
{
    if from < 0 || from >= entries.len() {
        None
    } else if entries[from].0 == key {
        Some(from)
    } else {
        key_position_from(entries, key, from + 1)
    }
}

/// The index of the first entry with the key `key`.
pub open spec fn key_position(entries: Seq<(Seq<char>, Reference)>, key: Seq<char>) -> Option<int> {
    key_position_from(entries, key, 0)
}

/// The entries after `key` is bound to `handle`: the entry that has the key
/// is replaced where it stands, and a new key goes to the end.
pub open spec fn entries_with(
    entries: Seq<(Seq<char>, Reference)>,
    key: Seq<char>,
    handle: Reference,
) -> Seq<(Seq<char>, Reference)> {
    match key_position(entries, key) {
        Some(i) => entries.update(i, (key, handle)),
        None => entries.push((key, handle)),
    }
}

/// What a key search from `from` finds is the first entry with that key.
pub proof fn lemma_key_position_from(entries: Seq<(Seq<char>, Reference)>, key: Seq<char>, from: int)
    requires
        0 <= from,
    ensures
        match key_position_from(entries, key, from) {
            Some(i) => from <= i < entries.len() && entries[i].0 == key && forall|j: int|
                from <= j < i ==> (#[trigger] entries[j]).0 != key,
            None => forall|j: int| from <= j < entries.len() ==> (#[trigger] entries[j]).0 != key,
        },
    decreases entries.len() - from,
{
    if from < entries.len() && entries[from].0 != key {
        lemma_key_position_from(entries, key, from + 1);
    }
}

/// Finds the first entry with the key `key`.
pub fn find_key(entries: &Vec<(String, Reference)>, key: &String) -> (found: Option<usize>)
    ensures
        match found {
            Some(i) => key_position(entries_view(entries@), key@) == Some(i as int) && i
                < entries@.len(),
            None => key_position(entries_view(entries@), key@) is None,
        },
{
    let ghost view = entries_view(entries@);
    let mut i: usize = 0;
    while i < entries.len()
        invariant
            0 <= i <= entries@.len(),
            view == entries_view(entries@),
            key_position(view, key@) == key_position_from(view, key@, i as int),
        decreases entries@.len() - i,
    {
        if entries[i].0 == *key {
            return Some(i);
        }
        i += 1;
    }
    None
}

/// One cell of the value store.
#[derive(Debug)]
pub struct Cell {
    pub value: Value,
    /// Whether some reader holds the cell. A held cell cannot be overwritten.
    pub held: bool,
}

/// The mathematical value of a [`Cell`].
pub struct CellView {
    pub value: ValueView,
    pub held: bool,
}

impl View for Cell {
    type V = CellView;

    open spec fn view(&self) -> CellView {
        CellView { value: self.value@, held: self.held }
    }
}

/// The value store: an arena of cells that only grows.
#[derive(Debug)]
pub struct Heap {
    cells: Vec<Cell>,
}

impl View for Heap {
    type V = Seq<CellView>;

    closed spec fn view(&self) -> Seq<CellView> {
        Seq::new(self.cells@.len(), |i: int| self.cells@[i]@)
    }
}

/// The store after `value` is written to the cell `handle`. A handle that
/// names no cell, or a held cell, leaves the store as it is.
pub open spec fn written(heap: Seq<CellView>, handle: Reference, value: ValueView) -> Seq<CellView> {
    if handle < heap.len() && !heap[handle as int].held {
        heap.update(handle as int, CellView { value, held: false })
    } else {
        heap
    }
}

/// What is read through `handle`.
pub open spec fn read(heap: Seq<CellView>, handle: Reference) -> Option<ValueView> {
    if handle < heap.len() {
        Some(heap[handle as int].value)
    } else {
        None
    }
}

/// The store after the cell `handle` is marked held, or released.
pub open spec fn marked(heap: Seq<CellView>, handle: Reference, held: bool) -> Seq<CellView> {
    if handle < heap.len() {
        heap.update(handle as int, CellView { value: heap[handle as int].value, held })
    } else {
        heap
    }
}

/// Aliasing: two handles of the same origin are the same handle, so a value
/// written through one is what is read through the other, and every other
/// cell keeps its value.
pub proof fn lemma_write_is_seen_through_alias(
    heap: Seq<CellView>,
    first: Reference,
    second: Reference,
    other: Reference,
    value: ValueView,
)
    requires
        first == second,
        first < heap.len(),
        !heap[first as int].held,
    ensures
        read(written(heap, first, value), second) == Some(value),
        other != first ==> read(written(heap, first, value), other) == read(heap, other),
{
}

impl Heap {
    /// An empty store.
    pub fn new() -> (heap: Heap)
        ensures
            heap@ == Seq::<CellView>::empty(),
    {
        let heap = Heap { cells: Vec::new() };
        assert(heap@ =~= Seq::<CellView>::empty());
        heap
    }

    /// The number of cells.
    pub fn len(&self) -> (len: usize)
        ensures
            len == self@.len(),
    {
        self.cells.len()
    }

    /// Puts `value` in a new cell and returns the cell's handle.
    pub fn store(&mut self, value: Value) -> (handle: Reference)
        ensures
            handle == old(self)@.len(),
            final(self)@ == old(self)@.push(CellView { value: value@, held: false }),
    {
        let handle = self.cells.len();
        self.cells.push(Cell { value, held: false });
        assert(self@ =~= old(self)@.push(CellView { value: value@, held: false }));
        handle
    }

    /// The value in the cell `handle`.
    pub fn get(&self, handle: Reference) -> (value: Option<&Value>)
        ensures
            match value {
                Some(v) => read(self@, handle) == Some(v@),
                None => read(self@, handle) is None,
            },
    {
        if handle < self.cells.len() {
            Some(&self.cells[handle].value)
        } else {
            None
        }
    }

    /// A copy of the value in the cell `handle`.
    pub fn copy(&self, handle: Reference) -> (value: Option<Value>)
        ensures
            match value {
                Some(v) => read(self@, handle) == Some(v@),
                None => read(self@, handle) is None,
            },
    {
        if handle < self.cells.len() {
            Some(self.cells[handle].value.clone())
        } else {
            None
        }
    }

    /// Whether the cell `handle` exists and is held.
    pub fn is_held(&self, handle: Reference) -> (held: bool)
        ensures
            held == (handle < self@.len() && self@[handle as int].held),
    {
        handle < self.cells.len() && self.cells[handle].held
    }

    /// Marks the cell `handle` as held by a reader. Returns whether the cell
    /// exists.
    pub fn hold(&mut self, handle: Reference) -> (exists: bool)
        ensures
            exists == (handle < old(self)@.len()),
            final(self)@ == marked(old(self)@, handle, true),
    {
        self.mark(handle, true)
    }

    /// Releases the cell `handle`. Returns whether the cell exists.
    pub fn release(&mut self, handle: Reference) -> (exists: bool)
        ensures
            exists == (handle < old(self)@.len()),
            final(self)@ == marked(old(self)@, handle, false),
    {
        self.mark(handle, false)
    }

    fn mark(&mut self, handle: Reference, held: bool) -> (exists: bool)
        ensures
            exists == (handle < old(self)@.len()),
            final(self)@ == marked(old(self)@, handle, held),
    {
        if handle < self.cells.len() {
            let value = self.cells[handle].value.clone();
            self.cells.set(handle, Cell { value, held });
            assert(self@ =~= marked(old(self)@, handle, held));
            true
        } else {
            assert(self@ =~= marked(old(self)@, handle, held));
            false
        }
    }

    /// Writes `value` to the cell `handle`. Returns whether it was written:
    /// a handle that names no cell, or a held cell, leaves the store as it
    /// is.
    pub fn write(&mut self, handle: Reference, value: Value) -> (done: bool)
        ensures
            done == (handle < old(self)@.len() && !old(self)@[handle as int].held),
            final(self)@ == written(old(self)@, handle, value@),
    {
        if handle < self.cells.len() && !self.cells[handle].held {
            self.cells.set(handle, Cell { value, held: false });
            assert(self@ =~= written(old(self)@, handle, value@));
            true
        } else {
            false
        }
    }
}

} // verus!
