//! Conversion between interchange documents and values.
//!
//! A document becomes a value variant for variant. Each element of a
//! sequence and each value of a mapping goes to a new cell of the store; the
//! keys of a mapping must be strings. A value becomes a document by reading
//! through its handles.

use vstd::prelude::*;
use crate::document::{Document, DocumentView};
use crate::error::{VmError, VmErrorView};
use crate::value::{
    entries_view,
    entries_with,
    find_key,
    read,
    CellView,
    Heap,
    Reference,
    Value,
    ValueView,
};

verus! {

/// A store and the outcome of building something in it.
pub struct Built<T> {
    pub heap: Seq<CellView>,
    pub result: Result<T, VmErrorView>,
}

/// The store after the value of `document` is built in `heap`, and the
/// value, or the error for a mapping key that is no string.
pub open spec fn build_value(heap: Seq<CellView>, document: DocumentView) -> Built<ValueView>
    decreases document, 1nat, 0nat,
{
    match document {
        DocumentView::Null => Built { heap, result: Ok(ValueView::Empty) },
        DocumentView::Bool(b) => Built { heap, result: Ok(ValueView::Bool(b)) },
        DocumentView::Number(n) => Built { heap, result: Ok(ValueView::Number(n)) },
        DocumentView::String(s) => Built { heap, result: Ok(ValueView::String(s)) },
        DocumentView::Sequence(items) => {
            let built = build_list(heap, document, 0, Seq::empty());
            match built.result {
                Ok(handles) => Built { heap: built.heap, result: Ok(ValueView::List(handles)) },
                Err(error) => Built { heap: built.heap, result: Err(error) },
            }
        },
        DocumentView::Mapping(entries) => {
            let built = build_object(heap, document, 0, Seq::empty());
            match built.result {
                Ok(pairs) => Built { heap: built.heap, result: Ok(ValueView::Object(pairs)) },
                Err(error) => Built { heap: built.heap, result: Err(error) },
            }
        },
    }
}

/// The store after the items of the sequence `document` from item `i` on
/// are built, each in a new cell, and `handles` with the handles of those
/// cells.
pub open spec fn build_list(
    heap: Seq<CellView>,
    document: DocumentView,
    i: int,
    handles: Seq<Reference>,
) -> Built<Seq<Reference>>
    decreases document, 0nat, document->Sequence_0.len() - i,
{
    if document is Sequence && 0 <= i < document->Sequence_0.len() {
        let item = build_value(heap, document->Sequence_0[i]);
        match item.result {
            Err(error) => Built { heap: item.heap, result: Err(error) },
            Ok(value) => build_list(
                item.heap.push(CellView { value, held: false }),
                document,
                i + 1,
                handles.push(item.heap.len() as usize),
            ),
        }
    } else {
        Built { heap, result: Ok(handles) }
    }
}

/// The store after the entries of the mapping `document` from entry `i` on
/// are built, each value in a new cell, and `pairs` with each key bound to
/// the handle of its value's cell.
pub open spec fn build_object(
    heap: Seq<CellView>,
    document: DocumentView,
    i: int,
    pairs: Seq<(Seq<char>, Reference)>,
) -> Built<Seq<(Seq<char>, Reference)>>
    decreases document, 0nat, document->Mapping_0.len() - i,
{
    if document is Mapping && 0 <= i < document->Mapping_0.len() {
        let entry = document->Mapping_0[i];
        match entry.0 {
            DocumentView::String(key) => {
                let item = build_value(heap, entry.1);
                match item.result {
                    Err(error) => Built { heap: item.heap, result: Err(error) },
                    Ok(value) => build_object(
                        item.heap.push(CellView { value, held: false }),
                        document,
                        i + 1,
                        entries_with(pairs, key, item.heap.len() as usize),
                    ),
                }
            },
            _ => Built { heap, result: Err(VmErrorView::MappingKeyIsNotAString) },
        }
    } else {
        Built { heap, result: Ok(pairs) }
    }
}

/// How much of a value a reading with `depth` handles to follow covers.
pub open spec fn reach(value: ValueView) -> nat {
    match value {
        ValueView::List(handles) => handles.len() + 1,
        ValueView::Object(pairs) => pairs.len() + 1,
        _ => 0,
    }
}

/// The document of `value`, read through at most `depth` handles in a row.
/// A handle that names no cell is an error, and so is a cell nested deeper
/// than `depth`.
pub open spec fn read_document(heap: Seq<CellView>, value: ValueView, depth: nat) -> Result<
    DocumentView,
    VmErrorView,
>
    decreases depth, reach(value),
{
    match value {
        ValueView::Empty => Ok(DocumentView::Null),
        ValueView::Bool(b) => Ok(DocumentView::Bool(b)),
        ValueView::Number(n) => Ok(DocumentView::Number(n)),
        ValueView::String(s) => Ok(DocumentView::String(s)),
        ValueView::List(handles) => match read_list(heap, handles, 0, depth, Seq::empty()) {
            Ok(items) => Ok(DocumentView::Sequence(items)),
            Err(error) => Err(error),
        },
        ValueView::Object(pairs) => match read_object(heap, pairs, 0, depth, Seq::empty()) {
            Ok(entries) => Ok(DocumentView::Mapping(entries)),
            Err(error) => Err(error),
        },
    }
}

/// `items` with the documents of the cells `handles` from handle `i` on.
pub open spec fn read_list(
    heap: Seq<CellView>,
    handles: Seq<Reference>,
    i: int,
    depth: nat,
    items: Seq<DocumentView>,
) -> Result<Seq<DocumentView>, VmErrorView>
    decreases depth, handles.len() - i,
{
    if 0 <= i < handles.len() {
        match read(heap, handles[i]) {
            None => Err(VmErrorView::ReferenceDoesNotExists(handles[i])),
            Some(value) => if depth == 0 {
                Err(VmErrorView::ValueIsTooDeep)
            } else {
                match read_document(heap, value, (depth - 1) as nat) {
                    Err(error) => Err(error),
                    Ok(item) => read_list(heap, handles, i + 1, depth, items.push(item)),
                }
            },
        }
    } else {
        Ok(items)
    }
}

/// `entries` with, for each of `pairs` from pair `i` on, its key and the
/// document of its cell.
pub open spec fn read_object(
    heap: Seq<CellView>,
    pairs: Seq<(Seq<char>, Reference)>,
    i: int,
    depth: nat,
    entries: Seq<(DocumentView, DocumentView)>,
) -> Result<Seq<(DocumentView, DocumentView)>, VmErrorView>
    decreases depth, pairs.len() - i,
{
    if 0 <= i < pairs.len() {
        match read(heap, pairs[i].1) {
            None => Err(VmErrorView::ReferenceDoesNotExists(pairs[i].1)),
            Some(value) => if depth == 0 {
                Err(VmErrorView::ValueIsTooDeep)
            } else {
                match read_document(heap, value, (depth - 1) as nat) {
                    Err(error) => Err(error),
                    Ok(item) => read_object(
                        heap,
                        pairs,
                        i + 1,
                        depth,
                        entries.push((DocumentView::String(pairs[i].0), item)),
                    ),
                }
            },
        }
    } else {
        Ok(entries)
    }
}

/// The view of a built value or of the error in its place.
pub open spec fn value_result_view(result: Result<Value, VmError>) -> Result<ValueView, VmErrorView> {
    match result {
        Ok(value) => Ok(value@),
        Err(error) => Err(error@),
    }
}

/// The view of a read document or of the error in its place.
pub open spec fn document_result_view(result: Result<Document, VmError>) -> Result<
    DocumentView,
    VmErrorView,
> {
    match result {
        Ok(document) => Ok(document@),
        Err(error) => Err(error@),
    }
}

/// Binds `key` to `handle` in `entries`: in place of the entry that has the
/// key, or at the end.
fn bind_key(entries: &mut Vec<(String, Reference)>, key: String, handle: Reference)
    ensures
        entries_view(final(entries)@) == entries_with(entries_view(old(entries)@), key@, handle),
{
    match find_key(entries, &key) {
        Some(i) => {
            entries.set(i, (key, handle));
            assert(entries_view(entries@) =~= entries_with(
                entries_view(old(entries)@),
                key@,
                handle,
            ));
        },
        None => {
            entries.push((key, handle));
            assert(entries_view(entries@) =~= entries_with(
                entries_view(old(entries)@),
                key@,
                handle,
            ));
        },
    }
}

impl Heap {
    /// Builds the value of `document`. The elements of sequences and the
    /// values of mappings go to new cells. A mapping key that is no string
    /// is an error; what was built before it stays in the store, out of
    /// reach.
    pub fn value_from_document(&mut self, document: &Document) -> (result: Result<Value, VmError>)
        ensures
            final(self)@ == build_value(old(self)@, document@).heap,
            value_result_view(result) == build_value(old(self)@, document@).result,
        decreases document,
    {
        match document {
            Document::Null => Ok(Value::Empty),
            Document::Bool(b) => Ok(Value::Bool(*b)),
            Document::Number(n) => Ok(Value::Number(*n)),
            Document::String(s) => Ok(Value::String(s.clone())),
            Document::Sequence(items) => {
                let mut handles: Vec<Reference> = Vec::new();
                let mut i: usize = 0;
                while i < items.len()
                    invariant
                        0 <= i <= items@.len(),
                        *document == Document::Sequence(*items),
                        decreases_to!(document => items),
                        build_list(old(self)@, document@, 0, Seq::empty()) == build_list(
                            self@,
                            document@,
                            i as int,
                            handles@,
                        ),
                    decreases items@.len() - i,
                {
                    proof {
                        assert(document@ is Sequence);
                        assert(document@->Sequence_0.len() == items@.len());
                        assert(document@->Sequence_0[i as int] == items@[i as int]@);
                        assert(decreases_to!(items => items@[i as int]));
                    }
                    let value = match self.value_from_document(&items[i]) {
                        Ok(value) => value,
                        Err(error) => {
                            return Err(error);
                        },
                    };
                    let handle = self.store(value);
                    handles.push(handle);
                    i += 1;
                }
                Ok(Value::List(handles))
            },
            Document::Mapping(entries) => {
                let mut pairs: Vec<(String, Reference)> = Vec::new();
                assert(entries_view(pairs@) =~= Seq::empty());
                let mut i: usize = 0;
                while i < entries.len()
                    invariant
                        0 <= i <= entries@.len(),
                        *document == Document::Mapping(*entries),
                        decreases_to!(document => entries),
                        build_object(old(self)@, document@, 0, Seq::empty()) == build_object(
                            self@,
                            document@,
                            i as int,
                            entries_view(pairs@),
                        ),
                    decreases entries@.len() - i,
                {
                    proof {
                        assert(document@ is Mapping);
                        assert(document@->Mapping_0.len() == entries@.len());
                        assert(document@->Mapping_0[i as int] == (
                            entries@[i as int].0@,
                            entries@[i as int].1@,
                        ));
                    }
                    assert(decreases_to!(entries => entries@[i as int]));
                    let key = match &entries[i].0 {
                        Document::String(key) => key.clone(),
                        _ => {
                            return Err(VmError::MappingKeyIsNotAString);
                        },
                    };
                    let value = match self.value_from_document(&entries[i].1) {
                        Ok(value) => value,
                        Err(error) => {
                            return Err(error);
                        },
                    };
                    let handle = self.store(value);
                    bind_key(&mut pairs, key, handle);
                    i += 1;
                }
                Ok(Value::Object(pairs))
            },
        }
    }

    /// The document of `value`, read through the handles that it holds. A
    /// handle that names no cell is an error, and so is a value that is
    /// nested deeper than the store has cells, as one that contains itself
    /// is.
    pub fn document_from_value(&self, value: &Value) -> (result: Result<Document, VmError>)
        ensures
            document_result_view(result) == read_document(self@, value@, self@.len()),
    {
        self.document_within(value, self.len())
    }

    /// The document of `value`, read through at most `depth` handles in a
    /// row.
    pub fn document_within(&self, value: &Value, depth: usize) -> (result: Result<Document, VmError>)
        ensures
            document_result_view(result) == read_document(self@, value@, depth as nat),
        decreases depth, reach(value@),
    {
        match value {
            Value::Empty => Ok(Document::Null),
            Value::Bool(b) => Ok(Document::Bool(*b)),
            Value::Number(n) => Ok(Document::Number(*n)),
            Value::String(s) => Ok(Document::String(s.clone())),
            Value::List(handles) => {
                let mut items: Vec<Document> = Vec::new();
                let ghost mut read_items: Seq<DocumentView> = Seq::empty();
                let mut i: usize = 0;
                while i < handles.len()
                    invariant
                        0 <= i <= handles@.len(),
                        *value == Value::List(*handles),
                        read_items.len() == items@.len(),
                        forall|j: int| 0 <= j < items@.len() ==> items@[j]@ == read_items[j],
                        read_list(self@, handles@, 0, depth as nat, Seq::empty()) == read_list(
                            self@,
                            handles@,
                            i as int,
                            depth as nat,
                            read_items,
                        ),
                    decreases handles@.len() - i,
                {
                    let cell = match self.get(handles[i]) {
                        Some(cell) => cell,
                        None => {
                            return Err(VmError::ReferenceDoesNotExists(handles[i]));
                        },
                    };
                    if depth == 0 {
                        return Err(VmError::ValueIsTooDeep);
                    }
                    let item = match self.document_within(cell, depth - 1) {
                        Ok(item) => item,
                        Err(error) => {
                            return Err(error);
                        },
                    };
                    proof {
                        read_items = read_items.push(item@);
                    }
                    items.push(item);
                    i += 1;
                }
                let document = Document::Sequence(items);
                assert(document@->Sequence_0 =~= read_items);
                Ok(document)
            },
            Value::Object(pairs) => {
                let mut entries: Vec<(Document, Document)> = Vec::new();
                let ghost mut read_entries: Seq<(DocumentView, DocumentView)> = Seq::empty();
                let ghost pairs_view = entries_view(pairs@);
                let mut i: usize = 0;
                while i < pairs.len()
                    invariant
                        0 <= i <= pairs@.len(),
                        *value == Value::Object(*pairs),
                        pairs_view == entries_view(pairs@),
                        read_entries.len() == entries@.len(),
                        forall|j: int|
                            0 <= j < entries@.len() ==> (entries@[j].0@, entries@[j].1@)
                                == read_entries[j],
                        read_object(self@, pairs_view, 0, depth as nat, Seq::empty())
                            == read_object(self@, pairs_view, i as int, depth as nat, read_entries),
                    decreases pairs@.len() - i,
                {
                    assert(pairs_view[i as int] == (pairs@[i as int].0@, pairs@[i as int].1));
                    let cell = match self.get(pairs[i].1) {
                        Some(cell) => cell,
                        None => {
                            return Err(VmError::ReferenceDoesNotExists(pairs[i].1));
                        },
                    };
                    if depth == 0 {
                        return Err(VmError::ValueIsTooDeep);
                    }
                    let item = match self.document_within(cell, depth - 1) {
                        Ok(item) => item,
                        Err(error) => {
                            return Err(error);
                        },
                    };
                    let key = Document::String(pairs[i].0.clone());
                    proof {
                        read_entries = read_entries.push((key@, item@));
                    }
                    entries.push((key, item));
                    i += 1;
                }
                let document = Document::Mapping(entries);
                assert(document@->Mapping_0 =~= read_entries);
                Ok(document)
            },
        }
    }
}

} // verus!
