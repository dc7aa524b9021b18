//! The program description that the virtual machine is built from: events,
//! functions, types with their trait implementations, traits, global
//! variables and native operation signatures, each with its node graph.

use vstd::prelude::*;
use crate::document::Document;

verus! {

/// A globally unique identifier of a program item.
pub type GUID = u128;

/// A reference to an item of the program: by identifier, by name, or unset.
#[derive(Debug, PartialEq, Eq)]
pub enum Reference {
    Unset,
    Guid(GUID),
    Named(String),
}

/// The mathematical value of a [`Reference`].
pub enum ReferenceView {
    Unset,
    Guid(GUID),
    Named(Seq<char>),
}

impl View for Reference {
    type V = ReferenceView;

    open spec fn view(&self) -> ReferenceView {
        match self {
            Reference::Unset => ReferenceView::Unset,
            Reference::Guid(guid) => ReferenceView::Guid(*guid),
            Reference::Named(name) => ReferenceView::Named(name@),
        }
    }
}

impl Clone for Reference {
    fn clone(&self) -> (copy: Reference)
        ensures
            copy == *self,
    {
        match self {
            Reference::Unset => Reference::Unset,
            Reference::Guid(guid) => Reference::Guid(*guid),
            Reference::Named(name) => Reference::Named(name.clone()),
        }
    }
}

/// A data dependency: output `index` of the node `guid`, or nothing.
#[derive(Debug, Clone, Copy, PartialEq, Eq, Structural)]
pub enum Link {
    Unlinked,
    NodeIndexed(GUID, usize),
}

/// The two branches of a conditional node.
#[derive(Debug, PartialEq, Eq)]
pub struct IfElse {
    pub next_node_true: Reference,
    pub next_node_false: Reference,
}

/// What a node does when the machine steps over it.
#[derive(Debug, PartialEq, Eq)]
pub enum NodeType {
    Unused,
    Entry,
    Halt,
    Loop(Reference),
    IfElse(IfElse),
    Break,
    Continue,
    GetInstance,
    GetGlobalVariable(Reference),
    GetLocalVariable(Reference),
    GetInput(usize),
    SetOutput(usize),
    GetValue(Document),
    GetListItem(usize),
    GetObjectItem(String),
    MutateValue,
    CallOperation(Reference),
    CallFunction(Reference),
    CallMethod(Reference, Reference),
}

/// One unit of computation of a node graph.
#[derive(Debug, PartialEq, Eq)]
pub struct Node {
    pub guid: GUID,
    pub name: String,
    pub node_type: NodeType,
    pub next_node: Reference,
    pub input_links: Vec<Link>,
}

/// A declared variable, global or local to one construct.
#[derive(Debug, PartialEq, Eq)]
pub struct Variable {
    pub guid: GUID,
    pub name: String,
}

/// What a declared input or output slot accepts.
#[derive(Debug, PartialEq, Eq)]
pub enum TypeConstraint {
    Any,
    Type(Reference),
    ImplTraits(Vec<Reference>),
}

/// An entry point that the host triggers by name.
#[derive(Debug, PartialEq, Eq)]
pub struct Event {
    pub guid: GUID,
    pub name: String,
    pub entry_node: Reference,
    pub input_constrains: Vec<TypeConstraint>,
    pub output_constrains: Vec<TypeConstraint>,
    pub variables: Vec<Variable>,
    pub nodes: Vec<Node>,
}

/// A callable node graph.
#[derive(Debug, PartialEq, Eq)]
pub struct Function {
    pub guid: GUID,
    pub name: String,
    pub input_constrains: Vec<TypeConstraint>,
    pub output_constrains: Vec<TypeConstraint>,
    pub variables: Vec<Variable>,
    pub nodes: Vec<Node>,
}

/// A node graph that runs on a bound instance.
#[derive(Debug, PartialEq, Eq)]
pub struct Method {
    pub guid: GUID,
    pub name: String,
    pub input_constrains: Vec<TypeConstraint>,
    pub output_constrains: Vec<TypeConstraint>,
    pub variables: Vec<Variable>,
    pub nodes: Vec<Node>,
}

/// A named set of methods, each with its default body.
#[derive(Debug, PartialEq, Eq)]
pub struct Trait {
    pub guid: GUID,
    pub name: String,
    pub methods: Vec<Method>,
}

/// A type and, for each trait it implements, the methods it overrides.
#[derive(Debug, PartialEq, Eq)]
pub struct Type {
    pub guid: GUID,
    pub name: String,
    pub traits_implementation: Vec<(Reference, Vec<Method>)>,
}

/// The signature of a native operation.
#[derive(Debug, PartialEq, Eq)]
pub struct Operation {
    pub guid: GUID,
    pub name: String,
    pub input_constrains: Vec<TypeConstraint>,
    pub output_constrains: Vec<TypeConstraint>,
}

/// A whole program. It does not change while a machine built from it lives.
#[derive(Debug, PartialEq, Eq)]
pub struct Program {
    pub events: Vec<Event>,
    pub functions: Vec<Function>,
    pub types: Vec<Type>,
    pub traits: Vec<Trait>,
    pub variables: Vec<Variable>,
    pub operations: Vec<Operation>,
}

/// An item that a [`Reference`] can name: it has an identifier and a name.
pub trait Identified {
    /// The identifier of the item.
    spec fn id(&self) -> GUID;

    /// The name of the item.
    spec fn label(&self) -> Seq<char>;

    fn guid(&self) -> (guid: GUID)
        ensures
            guid == self.id(),
    ;

    fn name(&self) -> (name: &String)
        ensures
            name@ == self.label(),
    ;
}

impl Identified for Node {
    open spec fn id(&self) -> GUID {
        self.guid
    }

    open spec fn label(&self) -> Seq<char> {
        self.name@
    }

    fn guid(&self) -> (guid: GUID) {
        self.guid
    }

    fn name(&self) -> (name: &String) {
        &self.name
    }
}

impl Identified for Variable {
    open spec fn id(&self) -> GUID {
        self.guid
    }

    open spec fn label(&self) -> Seq<char> {
        self.name@
    }

    fn guid(&self) -> (guid: GUID) {
        self.guid
    }

    fn name(&self) -> (name: &String) {
        &self.name
    }
}

impl Identified for Event {
    open spec fn id(&self) -> GUID {
        self.guid
    }

    open spec fn label(&self) -> Seq<char> {
        self.name@
    }

    fn guid(&self) -> (guid: GUID) {
        self.guid
    }

    fn name(&self) -> (name: &String) {
        &self.name
    }
}

impl Identified for Function {
    open spec fn id(&self) -> GUID {
        self.guid
    }

    open spec fn label(&self) -> Seq<char> {
        self.name@
    }

    fn guid(&self) -> (guid: GUID) {
        self.guid
    }

    fn name(&self) -> (name: &String) {
        &self.name
    }
}

impl Identified for Method {
    open spec fn id(&self) -> GUID {
        self.guid
    }

    open spec fn label(&self) -> Seq<char> {
        self.name@
    }

    fn guid(&self) -> (guid: GUID) {
        self.guid
    }

    fn name(&self) -> (name: &String) {
        &self.name
    }
}

impl Identified for Trait {
    open spec fn id(&self) -> GUID {
        self.guid
    }

    open spec fn label(&self) -> Seq<char> {
        self.name@
    }

    fn guid(&self) -> (guid: GUID) {
        self.guid
    }

    fn name(&self) -> (name: &String) {
        &self.name
    }
}

impl Identified for Type {
    open spec fn id(&self) -> GUID {
        self.guid
    }

    open spec fn label(&self) -> Seq<char> {
        self.name@
    }

    fn guid(&self) -> (guid: GUID) {
        self.guid
    }

    fn name(&self) -> (name: &String) {
        &self.name
    }
}

impl Identified for Operation {
    open spec fn id(&self) -> GUID {
        self.guid
    }

    open spec fn label(&self) -> Seq<char> {
        self.name@
    }

    fn guid(&self) -> (guid: GUID) {
        self.guid
    }

    fn name(&self) -> (name: &String) {
        &self.name
    }
}

/// Whether `reference` names `item`. An unset reference names nothing.
pub open spec fn refers_to<T: Identified>(item: T, reference: ReferenceView) -> bool {
    match reference {
        ReferenceView::Unset => false,
        ReferenceView::Guid(guid) => item.id() == guid,
        ReferenceView::Named(name) => item.label() == name,
    }
}

/// The first index at or after `from` whose item `reference` names.
pub open spec fn position_from<T: Identified>(
    items: Seq<T>,
    reference: ReferenceView,
    from: int,
) -> Option<int>
    decreases items.len() - from,
{
    if from < 0 || from >= items.len() {
        None
    } else if refers_to(items[from], reference) {
        Some(from)
    } else {
        position_from(items, reference, from + 1)
    }
}

/// The index of the first item that `reference` names.
pub open spec fn position<T: Identified>(items: Seq<T>, reference: ReferenceView) -> Option<int> {
    position_from(items, reference, 0)
}

/// An index of executable code as the integer that contracts speak of.
pub open spec fn as_position(index: Option<usize>) -> Option<int> {
    match index {
        Some(i) => Some(i as int),
        None => None,
    }
}

/// What a search from `from` finds is the first match at or after `from`.
pub proof fn lemma_position_from<T: Identified>(items: Seq<T>, reference: ReferenceView, from: int)
    requires
        0 <= from,
    ensures
        match position_from(items, reference, from) {
            Some(i) => from <= i < items.len() && refers_to(items[i], reference) && forall|j: int|
                from <= j < i ==> !refers_to(#[trigger] items[j], reference),
            None => forall|j: int|
                from <= j < items.len() ==> !refers_to(#[trigger] items[j], reference),
        },
    decreases items.len() - from,
{
    if from < items.len() && !refers_to(items[from], reference) {
        lemma_position_from(items, reference, from + 1);
    }
}

/// What a search finds is the first match: it lies in the sequence, the
/// reference names it, and it names nothing before it.
pub proof fn lemma_position<T: Identified>(items: Seq<T>, reference: ReferenceView)
    ensures
        match position(items, reference) {
            Some(i) => 0 <= i < items.len() && refers_to(items[i], reference) && forall|j: int|
                0 <= j < i ==> !refers_to(#[trigger] items[j], reference),
            None => forall|j: int|
                0 <= j < items.len() ==> !refers_to(#[trigger] items[j], reference),
        },
{
    lemma_position_from(items, reference, 0);
}

/// Finds the first item with the identifier `guid`.
pub fn find_by_guid<T: Identified>(items: &Vec<T>, guid: GUID) -> (found: Option<usize>)
    ensures
        as_position(found) == position(items@, ReferenceView::Guid(guid)),
{
    let ghost reference = ReferenceView::Guid(guid);
    let mut i: usize = 0;
    while i < items.len()
        invariant
            0 <= i <= items@.len(),
            reference == ReferenceView::Guid(guid),
            position(items@, reference) == position_from(items@, reference, i as int),
        decreases items@.len() - i,
    {
        if items[i].guid() == guid {
            return Some(i);
        }
        i += 1;
    }
    None
}

/// Finds the first item with the name `name`.
pub fn find_by_name<T: Identified>(items: &Vec<T>, name: &String) -> (found: Option<usize>)
    ensures
        as_position(found) == position(items@, ReferenceView::Named(name@)),
{
    let ghost reference = ReferenceView::Named(name@);
    let mut i: usize = 0;
    while i < items.len()
        invariant
            0 <= i <= items@.len(),
            reference == ReferenceView::Named(name@),
            position(items@, reference) == position_from(items@, reference, i as int),
        decreases items@.len() - i,
    {
        if *items[i].name() == *name {
            return Some(i);
        }
        i += 1;
    }
    None
}

/// Finds the first item that `reference` names.
pub fn find<T: Identified>(items: &Vec<T>, reference: &Reference) -> (found: Option<usize>)
    ensures
        as_position(found) == position(items@, reference@),
        found matches Some(i) ==> i < items@.len(),
{
    proof {
        lemma_position(items@, reference@);
    }
    match reference {
        Reference::Unset => {
            assert(position(items@, ReferenceView::Unset) is None) by {
                lemma_position(items@, ReferenceView::Unset);
                if position(items@, ReferenceView::Unset) is Some {
                }
            }
            None
        },
        Reference::Guid(guid) => find_by_guid(items, *guid),
        Reference::Named(name) => find_by_name(items, name),
    }
}

} // verus!
