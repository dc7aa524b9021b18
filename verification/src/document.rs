//! Interchange documents: the tree format in which literal values enter and
//! leave the virtual machine.

use vstd::prelude::*;

verus! {

/// A number of an interchange document.
///
/// A fractional number is carried as the bit pattern of its double-precision
/// encoding: the machine moves numbers around and never computes on them.
#[derive(Debug, Clone, Copy, PartialEq, Eq, Structural)]
pub enum Number {
    PosInt(u64),
    NegInt(i64),
    Float(u64),
}

/// An interchange document: null, a scalar, a sequence of documents, or a
/// mapping from documents to documents, in the order in which it was written.
#[derive(Debug, PartialEq, Eq)]
pub enum Document {
    Null,
    Bool(bool),
    Number(Number),
    String(String),
    Sequence(Vec<Document>),
    Mapping(Vec<(Document, Document)>),
}

/// The mathematical value of a [`Document`].
pub enum DocumentView {
    Null,
    Bool(bool),
    Number(Number),
    String(Seq<char>),
    Sequence(Seq<DocumentView>),
    Mapping(Seq<(DocumentView, DocumentView)>),
}

/// The mathematical value of a document.
pub open spec fn document_view(document: Document) -> DocumentView
    decreases document,
{
    match document {
        Document::Null => DocumentView::Null,
        Document::Bool(b) => DocumentView::Bool(b),
        Document::Number(n) => DocumentView::Number(n),
        Document::String(s) => DocumentView::String(s@),
        Document::Sequence(items) => DocumentView::Sequence(
            Seq::new(
                items@.len(),
                |i: int|
                    if 0 <= i < items@.len() {
                        document_view(items@[i])
                    } else {
                        DocumentView::Null
                    },
            ),
        ),
        Document::Mapping(entries) => DocumentView::Mapping(
            Seq::new(
                entries@.len(),
                |i: int|
                    if 0 <= i < entries@.len() {
                        (document_view(entries@[i].0), document_view(entries@[i].1))
                    } else {
                        (DocumentView::Null, DocumentView::Null)
                    },
            ),
        ),
    }
}

impl View for Document {
    type V = DocumentView;

    open spec fn view(&self) -> DocumentView {
        document_view(*self)
    }
}

} // verus!
