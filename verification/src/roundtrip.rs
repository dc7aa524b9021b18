//! The laws of conversion: which documents become values, and that a value
//! built from a document reads back as that document.

use vstd::prelude::*;
use crate::convert::{
    build_list,
    build_object,
    build_value,
    reach,
    read_document,
    read_list,
    read_object,
};
use crate::document::DocumentView;
use crate::error::VmErrorView;
use crate::value::{
    entries_with,
    key_position,
    lemma_key_position_from,
    read,
    CellView,
    Reference,
    ValueView,
};

verus! {

/// Whether every key of every mapping in `document` is a string.
pub open spec fn string_keyed(document: DocumentView) -> bool
    decreases document,
{
    match document {
        DocumentView::Sequence(items) => forall|i: int|
            0 <= i < items.len() ==> string_keyed(#[trigger] items[i]),
        DocumentView::Mapping(entries) => forall|i: int|
            0 <= i < entries.len() ==> (#[trigger] entries[i]).0 is String && string_keyed(
                entries[i].1,
            ),
        _ => true,
    }
}

/// Whether no mapping in `document` has a key twice.
pub open spec fn distinct_keys(document: DocumentView) -> bool
    decreases document,
{
    match document {
        DocumentView::Sequence(items) => forall|i: int|
            0 <= i < items.len() ==> distinct_keys(#[trigger] items[i]),
        DocumentView::Mapping(entries) => (forall|i: int, j: int|
            0 <= i < j < entries.len() ==> (#[trigger] entries[i]).0 != (#[trigger] entries[j]).0)
            && (forall|i: int| 0 <= i < entries.len() ==> distinct_keys((#[trigger] entries[i]).1)),
        _ => true,
    }
}

/// Whether the store `later` holds all cells of `earlier` as they are.
pub open spec fn extends(later: Seq<CellView>, earlier: Seq<CellView>) -> bool {
    &&& earlier.len() <= later.len()
    &&& forall|k: int| 0 <= k < earlier.len() ==> later[k] == earlier[k]
}

/// Whether the items of the sequence `document` from item `i` on have only
/// string keys.
pub open spec fn items_string_keyed(document: DocumentView, i: int) -> bool {
    forall|k: int|
        i <= k < document->Sequence_0.len() ==> string_keyed(#[trigger] document->Sequence_0[k])
}

/// Whether the entries of the mapping `document` from entry `i` on have
/// string keys and values with only string keys.
pub open spec fn entries_string_keyed(document: DocumentView, i: int) -> bool {
    forall|k: int|
        i <= k < document->Mapping_0.len() ==> (#[trigger] document->Mapping_0[k]).0 is String
            && string_keyed(document->Mapping_0[k].1)
}

/// The only error of building a value.
pub open spec fn key_error<T>() -> Result<T, VmErrorView> {
    Err(VmErrorView::MappingKeyIsNotAString)
}

/// Building succeeds for the documents with only string keys and fails for
/// all others, with the error for a mapping key that is no string.
pub proof fn lemma_builds_string_keyed(heap: Seq<CellView>, document: DocumentView)
    ensures
        string_keyed(document) ==> build_value(heap, document).result is Ok,
        !string_keyed(document) ==> build_value(heap, document).result == key_error::<ValueView>(),
    decreases document, 1nat, 0nat,
{
    match document {
        DocumentView::Sequence(items) => {
            lemma_builds_items(heap, document, 0, Seq::empty());
        },
        DocumentView::Mapping(entries) => {
            lemma_builds_entries(heap, document, 0, Seq::empty());
        },
        _ => {},
    }
}

proof fn lemma_builds_items(
    heap: Seq<CellView>,
    document: DocumentView,
    i: int,
    handles: Seq<Reference>,
)
    requires
        document is Sequence,
        0 <= i <= document->Sequence_0.len(),
    ensures
        items_string_keyed(document, i) ==> build_list(heap, document, i, handles).result is Ok,
        !items_string_keyed(document, i) ==> build_list(heap, document, i, handles).result
            == key_error::<Seq<Reference>>(),
    decreases document, 0nat, document->Sequence_0.len() - i,
{
    let items = document->Sequence_0;
    if i < items.len() {
        lemma_builds_string_keyed(heap, items[i]);
        let item = build_value(heap, items[i]);
        if item.result is Ok {
            let next = item.heap.push(CellView { value: item.result->Ok_0, held: false });
            lemma_builds_items(next, document, i + 1, handles.push(item.heap.len() as usize));
            if items_string_keyed(document, i + 1) {
                assert(items_string_keyed(document, i)) by {
                    assert forall|k: int| i <= k < items.len() implies string_keyed(
                        #[trigger] items[k],
                    ) by {
                        if k > i {
                            assert(string_keyed(document->Sequence_0[k]));
                        }
                    }
                }
            } else {
                let k = choose|k: int|
                    i + 1 <= k < items.len() && !string_keyed(#[trigger] document->Sequence_0[k]);
                assert(!string_keyed(document->Sequence_0[k]));
            }
        } else {
            assert(!string_keyed(document->Sequence_0[i]));
        }
    }
}

proof fn lemma_builds_entries(
    heap: Seq<CellView>,
    document: DocumentView,
    i: int,
    pairs: Seq<(Seq<char>, Reference)>,
)
    requires
        document is Mapping,
        0 <= i <= document->Mapping_0.len(),
    ensures
        entries_string_keyed(document, i) ==> build_object(heap, document, i, pairs).result is Ok,
        !entries_string_keyed(document, i) ==> build_object(heap, document, i, pairs).result
            == key_error::<Seq<(Seq<char>, Reference)>>(),
    decreases document, 0nat, document->Mapping_0.len() - i,
{
    let entries = document->Mapping_0;
    if i < entries.len() {
        let entry = entries[i];
        match entry.0 {
            DocumentView::String(key) => {
                lemma_builds_string_keyed(heap, entry.1);
                let item = build_value(heap, entry.1);
                if item.result is Ok {
                    let next = item.heap.push(CellView { value: item.result->Ok_0, held: false });
                    lemma_builds_entries(
                        next,
                        document,
                        i + 1,
                        entries_with(pairs, key, item.heap.len() as usize),
                    );
                    if entries_string_keyed(document, i + 1) {
                        assert(entries_string_keyed(document, i)) by {
                            assert forall|k: int| i <= k < entries.len() implies (
                            #[trigger] entries[k]).0 is String && string_keyed(entries[k].1) by {
                                if k > i {
                                    assert(document->Mapping_0[k].0 is String);
                                }
                            }
                        }
                    } else {
                        let k = choose|k: int|
                            i + 1 <= k < entries.len() && !((
                            #[trigger] document->Mapping_0[k]).0 is String && string_keyed(
                                document->Mapping_0[k].1,
                            ));
                        assert(!(document->Mapping_0[k].0 is String && string_keyed(
                            document->Mapping_0[k].1,
                        )));
                    }
                } else {
                    assert(!string_keyed(document->Mapping_0[i].1));
                }
            },
            _ => {
                assert(!(document->Mapping_0[i].0 is String));
            },
        }
    }
}

/// What a reading gave, it gives again in a store that has grown and with
/// more handles to follow.
pub proof fn lemma_read_stable(
    earlier: Seq<CellView>,
    later: Seq<CellView>,
    value: ValueView,
    depth: nat,
    deeper: nat,
)
    requires
        extends(later, earlier),
        depth <= deeper,
        read_document(earlier, value, depth) is Ok,
    ensures
        read_document(later, value, deeper) == read_document(earlier, value, depth),
    decreases depth, reach(value),
{
    match value {
        ValueView::List(handles) => {
            lemma_read_list_stable(earlier, later, handles, 0, depth, deeper, Seq::empty());
        },
        ValueView::Object(pairs) => {
            lemma_read_object_stable(earlier, later, pairs, 0, depth, deeper, Seq::empty());
        },
        _ => {},
    }
}

proof fn lemma_read_list_stable(
    earlier: Seq<CellView>,
    later: Seq<CellView>,
    handles: Seq<Reference>,
    i: int,
    depth: nat,
    deeper: nat,
    items: Seq<DocumentView>,
)
    requires
        extends(later, earlier),
        depth <= deeper,
        0 <= i,
        read_list(earlier, handles, i, depth, items) is Ok,
    ensures
        read_list(later, handles, i, deeper, items) == read_list(earlier, handles, i, depth, items),
    decreases depth, handles.len() - i,
{
    if i < handles.len() {
        let value = read(earlier, handles[i])->Some_0;
        assert(read(later, handles[i]) == Some(value));
        lemma_read_stable(earlier, later, value, (depth - 1) as nat, (deeper - 1) as nat);
        let item = read_document(earlier, value, (depth - 1) as nat)->Ok_0;
        lemma_read_list_stable(earlier, later, handles, i + 1, depth, deeper, items.push(item));
    }
}

proof fn lemma_read_object_stable(
    earlier: Seq<CellView>,
    later: Seq<CellView>,
    pairs: Seq<(Seq<char>, Reference)>,
    i: int,
    depth: nat,
    deeper: nat,
    entries: Seq<(DocumentView, DocumentView)>,
)
    requires
        extends(later, earlier),
        depth <= deeper,
        0 <= i,
        read_object(earlier, pairs, i, depth, entries) is Ok,
    ensures
        read_object(later, pairs, i, deeper, entries) == read_object(
            earlier,
            pairs,
            i,
            depth,
            entries,
        ),
    decreases depth, pairs.len() - i,
{
    if i < pairs.len() {
        let value = read(earlier, pairs[i].1)->Some_0;
        assert(read(later, pairs[i].1) == Some(value));
        lemma_read_stable(earlier, later, value, (depth - 1) as nat, (deeper - 1) as nat);
        let item = read_document(earlier, value, (depth - 1) as nat)->Ok_0;
        lemma_read_object_stable(
            earlier,
            later,
            pairs,
            i + 1,
            depth,
            deeper,
            entries.push((DocumentView::String(pairs[i].0), item)),
        );
    }
}

/// A list whose cells read as `items` reads as the sequence `items`.
proof fn lemma_read_list(
    heap: Seq<CellView>,
    handles: Seq<Reference>,
    i: int,
    depth: nat,
    items: Seq<DocumentView>,
)
    requires
        0 <= i <= handles.len(),
        items.len() == handles.len(),
        i < handles.len() ==> depth > 0,
        forall|k: int|
            i <= k < handles.len() ==> (#[trigger] handles[k]) < heap.len() && read_document(
                heap,
                heap[handles[k] as int].value,
                (depth - 1) as nat,
            ) == Ok::<DocumentView, VmErrorView>(items[k]),
    ensures
        read_list(heap, handles, i, depth, items.subrange(0, i)) == Ok::<
            Seq<DocumentView>,
            VmErrorView,
        >(items),
    decreases handles.len() - i,
{
    if i < handles.len() {
        assert(handles[i] < heap.len());
        assert(items.subrange(0, i).push(items[i]) =~= items.subrange(0, i + 1));
        lemma_read_list(heap, handles, i + 1, depth, items);
    } else {
        assert(items.subrange(0, i) =~= items);
    }
}

/// An object whose cells read as the values of `entries` under the keys of
/// `entries` reads as the mapping `entries`.
proof fn lemma_read_object(
    heap: Seq<CellView>,
    pairs: Seq<(Seq<char>, Reference)>,
    i: int,
    depth: nat,
    entries: Seq<(DocumentView, DocumentView)>,
)
    requires
        0 <= i <= pairs.len(),
        entries.len() == pairs.len(),
        i < pairs.len() ==> depth > 0,
        forall|k: int|
            i <= k < pairs.len() ==> (#[trigger] pairs[k]).1 < heap.len() && entries[k].0
                == DocumentView::String(pairs[k].0) && read_document(
                heap,
                heap[pairs[k].1 as int].value,
                (depth - 1) as nat,
            ) == Ok::<DocumentView, VmErrorView>(entries[k].1),
    ensures
        read_object(heap, pairs, i, depth, entries.subrange(0, i)) == Ok::<
            Seq<(DocumentView, DocumentView)>,
            VmErrorView,
        >(entries),
    decreases pairs.len() - i,
{
    if i < pairs.len() {
        assert(pairs[i].1 < heap.len());
        assert(entries.subrange(0, i).push(entries[i]) =~= entries.subrange(0, i + 1));
        lemma_read_object(heap, pairs, i + 1, depth, entries);
    } else {
        assert(entries.subrange(0, i) =~= entries);
    }
}

/// Whether the cell `handle` of `heap` reads as `document` through at most
/// `depth` handles in a row.
pub open spec fn cell_reads(
    heap: Seq<CellView>,
    handle: Reference,
    depth: nat,
    document: DocumentView,
) -> bool {
    handle < heap.len() && read_document(heap, heap[handle as int].value, depth) == Ok::<
        DocumentView,
        VmErrorView,
    >(document)
}

/// The number of cells by which `later` is larger than `earlier`.
pub open spec fn growth(later: Seq<CellView>, earlier: Seq<CellView>) -> nat {
    (later.len() - earlier.len()) as nat
}

/// A value built from a document with only string keys, none of them twice
/// in one mapping, reads back as that document, through no more handles in
/// a row than cells were made for it.
proof fn lemma_built_reads_back(heap: Seq<CellView>, document: DocumentView)
    requires
        string_keyed(document),
        distinct_keys(document),
        build_value(heap, document).heap.len() <= usize::MAX,
    ensures
        build_value(heap, document).result is Ok,
        extends(build_value(heap, document).heap, heap),
        read_document(
            build_value(heap, document).heap,
            build_value(heap, document).result->Ok_0,
            growth(build_value(heap, document).heap, heap),
        ) == Ok::<DocumentView, VmErrorView>(document),
    decreases document, 1nat, 0nat,
{
    match document {
        DocumentView::Sequence(items) => {
            lemma_built_items(heap, document, 0, Seq::empty());
            let built = build_list(heap, document, 0, Seq::empty());
            let all = built.result->Ok_0;
            let depth = growth(built.heap, heap);
            assert forall|k: int| 0 <= k < all.len() implies (#[trigger] all[k]) < built.heap.len()
                && read_document(
                built.heap,
                built.heap[all[k] as int].value,
                (depth - 1) as nat,
            ) == Ok::<DocumentView, VmErrorView>(items[k]) by {
                assert(cell_reads(
                    built.heap,
                    all[0 + k - 0],
                    (depth - 1) as nat,
                    document->Sequence_0[k],
                ));
            }
            lemma_read_list(built.heap, all, 0, depth, items);
            assert(items.subrange(0, 0) =~= Seq::empty());
        },
        DocumentView::Mapping(entries) => {
            lemma_built_entries(heap, document, 0, Seq::empty());
            let built = build_object(heap, document, 0, Seq::empty());
            let all = built.result->Ok_0;
            let depth = growth(built.heap, heap);
            assert forall|k: int| 0 <= k < all.len() implies (#[trigger] all[k]).1
                < built.heap.len() && entries[k].0 == DocumentView::String(all[k].0)
                && read_document(
                built.heap,
                built.heap[all[k].1 as int].value,
                (depth - 1) as nat,
            ) == Ok::<DocumentView, VmErrorView>(entries[k].1) by {
                assert(cell_reads(
                    built.heap,
                    all[k].1,
                    (depth - 1) as nat,
                    document->Mapping_0[k].1,
                ));
            }
            lemma_read_object(built.heap, all, 0, depth, entries);
            assert(entries.subrange(0, 0) =~= Seq::empty());
        },
        _ => {},
    }
}

proof fn lemma_built_items(
    heap: Seq<CellView>,
    document: DocumentView,
    i: int,
    handles: Seq<Reference>,
)
    requires
        document is Sequence,
        0 <= i <= document->Sequence_0.len(),
        string_keyed(document),
        distinct_keys(document),
        build_list(heap, document, i, handles).heap.len() <= usize::MAX,
    ensures
        build_list(heap, document, i, handles).result is Ok,
        extends(build_list(heap, document, i, handles).heap, heap),
        build_list(heap, document, i, handles).result->Ok_0.len() == handles.len()
            + document->Sequence_0.len() - i,
        forall|k: int|
            0 <= k < handles.len() ==> build_list(heap, document, i, handles).result->Ok_0[k]
                == #[trigger] handles[k],
        i < document->Sequence_0.len() ==> build_list(heap, document, i, handles).heap.len()
            > heap.len(),
        forall|k: int|
            i <= k < document->Sequence_0.len() ==> cell_reads(
                build_list(heap, document, i, handles).heap,
                build_list(heap, document, i, handles).result->Ok_0[handles.len() + k - i],
                (growth(build_list(heap, document, i, handles).heap, heap) - 1) as nat,
                #[trigger] document->Sequence_0[k],
            ),
    decreases document, 0nat, document->Sequence_0.len() - i,
{
    let items = document->Sequence_0;
    if i < items.len() {
        assert(string_keyed(items[i]) && distinct_keys(items[i]));
        lemma_builds_string_keyed(heap, items[i]);
        let item = build_value(heap, items[i]);
        let value = item.result->Ok_0;
        let handle = item.heap.len() as usize;
        let next = item.heap.push(CellView { value, held: false });
        let more = handles.push(handle);
        let built = build_list(heap, document, i, handles);
        assert(built == build_list(next, document, i + 1, more));
        lemma_built_items(next, document, i + 1, more);
        assert(handle == item.heap.len());
        lemma_built_reads_back(heap, items[i]);
        let all = built.result->Ok_0;
        let depth = (growth(built.heap, heap) - 1) as nat;
        assert(extends(built.heap, heap));
        assert forall|k: int| 0 <= k < handles.len() implies all[k] == #[trigger] handles[k] by {
            assert(all[k] == more[k]);
        }
        assert forall|k: int| i <= k < items.len() implies cell_reads(
            built.heap,
            all[handles.len() + k - i],
            depth,
            #[trigger] document->Sequence_0[k],
        ) by {
            if k == i {
                assert(all[handles.len() as int] == more[handles.len() as int]);
                assert(built.heap[handle as int] == next[handle as int]);
                lemma_read_stable(item.heap, built.heap, value, growth(item.heap, heap), depth);
            } else {
                let inner = (growth(built.heap, next) - 1) as nat;
                assert(cell_reads(
                    built.heap,
                    all[more.len() + k - (i + 1)],
                    inner,
                    document->Sequence_0[k],
                ));
                let at = all[handles.len() + k - i];
                lemma_read_stable(built.heap, built.heap, built.heap[at as int].value, inner, depth);
            }
        }
    }
}

proof fn lemma_built_entries(
    heap: Seq<CellView>,
    document: DocumentView,
    i: int,
    pairs: Seq<(Seq<char>, Reference)>,
)
    requires
        document is Mapping,
        0 <= i <= document->Mapping_0.len(),
        string_keyed(document),
        distinct_keys(document),
        pairs.len() == i,
        forall|k: int|
            0 <= k < i ==> (#[trigger] document->Mapping_0[k]).0 == DocumentView::String(
                pairs[k].0,
            ),
        build_object(heap, document, i, pairs).heap.len() <= usize::MAX,
    ensures
        build_object(heap, document, i, pairs).result is Ok,
        extends(build_object(heap, document, i, pairs).heap, heap),
        build_object(heap, document, i, pairs).result->Ok_0.len() == document->Mapping_0.len(),
        forall|k: int|
            0 <= k < document->Mapping_0.len() ==> (#[trigger] document->Mapping_0[k]).0
                == DocumentView::String(build_object(heap, document, i, pairs).result->Ok_0[k].0),
        i < document->Mapping_0.len() ==> build_object(heap, document, i, pairs).heap.len()
            > heap.len(),
        forall|k: int|
            i <= k < document->Mapping_0.len() ==> cell_reads(
                build_object(heap, document, i, pairs).heap,
                build_object(heap, document, i, pairs).result->Ok_0[k].1,
                (growth(build_object(heap, document, i, pairs).heap, heap) - 1) as nat,
                (#[trigger] document->Mapping_0[k]).1,
            ),
    decreases document, 0nat, document->Mapping_0.len() - i,
{
    let entries = document->Mapping_0;
    if i < entries.len() {
        let entry = entries[i];
        assert(entry.0 is String && string_keyed(entry.1) && distinct_keys(entry.1));
        let key = entry.0->String_0;
        lemma_builds_string_keyed(heap, entry.1);
        let item = build_value(heap, entry.1);
        let value = item.result->Ok_0;
        let handle = item.heap.len() as usize;
        let next = item.heap.push(CellView { value, held: false });
        lemma_key_position_from(pairs, key, 0);
        if key_position(pairs, key) is Some {
            let j = key_position(pairs, key)->Some_0;
            assert(entries[j].0 == DocumentView::String(pairs[j].0));
            assert(entries[j].0 != entries[i].0);
        }
        let more = pairs.push((key, handle));
        assert(entries_with(pairs, key, handle) == more);
        assert forall|k: int| 0 <= k < i + 1 implies (#[trigger] document->Mapping_0[k]).0
            == DocumentView::String(more[k].0) by {
            if k < i {
                assert(more[k] == pairs[k]);
            }
        }
        let built = build_object(heap, document, i, pairs);
        assert(built == build_object(next, document, i + 1, more));
        lemma_built_entries(next, document, i + 1, more);
        assert(handle == item.heap.len());
        lemma_built_reads_back(heap, entry.1);
        let all = built.result->Ok_0;
        let depth = (growth(built.heap, heap) - 1) as nat;
        assert(extends(built.heap, heap));
        assert forall|k: int| i <= k < entries.len() implies cell_reads(
            built.heap,
            all[k].1,
            depth,
            (#[trigger] document->Mapping_0[k]).1,
        ) by {
            if k == i {
                lemma_built_entries_keep(next, document, i + 1, more, i);
                assert(all[i] == more[i]);
                assert(built.heap[handle as int] == next[handle as int]);
                lemma_read_stable(item.heap, built.heap, value, growth(item.heap, heap), depth);
            } else {
                let inner = (growth(built.heap, next) - 1) as nat;
                assert(cell_reads(built.heap, all[k].1, inner, document->Mapping_0[k].1));
                lemma_read_stable(
                    built.heap,
                    built.heap,
                    built.heap[all[k].1 as int].value,
                    inner,
                    depth,
                );
            }
        }
    } else {
        assert forall|k: int| 0 <= k < entries.len() implies (#[trigger] document->Mapping_0[k]).0
            == DocumentView::String(pairs[k].0) by {}
    }
}

/// Building the rest of an object keeps the pairs that are there, where no
/// key comes twice.
proof fn lemma_built_entries_keep(
    heap: Seq<CellView>,
    document: DocumentView,
    i: int,
    pairs: Seq<(Seq<char>, Reference)>,
    k: int,
)
    requires
        document is Mapping,
        0 <= i <= document->Mapping_0.len(),
        string_keyed(document),
        distinct_keys(document),
        pairs.len() == i,
        forall|j: int|
            0 <= j < i ==> (#[trigger] document->Mapping_0[j]).0 == DocumentView::String(
                pairs[j].0,
            ),
        0 <= k < i,
    ensures
        build_object(heap, document, i, pairs).result is Ok,
        build_object(heap, document, i, pairs).result->Ok_0[k] == pairs[k],
    decreases document->Mapping_0.len() - i,
{
    let entries = document->Mapping_0;
    lemma_builds_entries_ok(heap, document, i, pairs);
    if i < entries.len() {
        let entry = entries[i];
        assert(entry.0 is String && string_keyed(entry.1));
        let key = entry.0->String_0;
        lemma_builds_string_keyed(heap, entry.1);
        let item = build_value(heap, entry.1);
        let value = item.result->Ok_0;
        let handle = item.heap.len() as usize;
        let next = item.heap.push(CellView { value, held: false });
        lemma_key_position_from(pairs, key, 0);
        if key_position(pairs, key) is Some {
            let j = key_position(pairs, key)->Some_0;
            assert(entries[j].0 == DocumentView::String(pairs[j].0));
            assert(entries[j].0 != entries[i].0);
        }
        let more = pairs.push((key, handle));
        assert(entries_with(pairs, key, handle) == more);
        assert forall|j: int| 0 <= j < i + 1 implies (#[trigger] document->Mapping_0[j]).0
            == DocumentView::String(more[j].0) by {
            if j < i {
                assert(more[j] == pairs[j]);
            }
        }
        lemma_built_entries_keep(next, document, i + 1, more, k);
        assert(more[k] == pairs[k]);
    }
}

/// Building the entries of a mapping with only string keys succeeds.
proof fn lemma_builds_entries_ok(
    heap: Seq<CellView>,
    document: DocumentView,
    i: int,
    pairs: Seq<(Seq<char>, Reference)>,
)
    requires
        document is Mapping,
        0 <= i <= document->Mapping_0.len(),
        string_keyed(document),
    ensures
        build_object(heap, document, i, pairs).result is Ok,
{
    lemma_builds_entries(heap, document, i, pairs);
    assert(entries_string_keyed(document, i)) by {
        assert forall|k: int| i <= k < document->Mapping_0.len() implies (
        #[trigger] document->Mapping_0[k]).0 is String && string_keyed(
            document->Mapping_0[k].1,
        ) by {}
    }
}

/// Round trip: a document with only string keys, none of them twice in one
/// mapping, becomes a value, and that value, read in the store in which it
/// was built, is the document again. The store is one that a machine can
/// hold: its handles number its cells.
pub proof fn lemma_round_trip(heap: Seq<CellView>, document: DocumentView)
    requires
        string_keyed(document),
        distinct_keys(document),
        build_value(heap, document).heap.len() <= usize::MAX,
    ensures
        build_value(heap, document).result is Ok,
        read_document(
            build_value(heap, document).heap,
            build_value(heap, document).result->Ok_0,
            build_value(heap, document).heap.len(),
        ) == Ok::<DocumentView, VmErrorView>(document),
{
    lemma_built_reads_back(heap, document);
    let built = build_value(heap, document);
    lemma_read_stable(
        built.heap,
        built.heap,
        built.result->Ok_0,
        growth(built.heap, heap),
        built.heap.len(),
    );
}

} // verus!
