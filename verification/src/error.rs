//! The errors of the virtual machine. Every failure is a value handed back to
//! the caller.

use vstd::prelude::*;
use crate::ast;
use crate::ast::{Link, NodeType, ReferenceView};
use crate::value::{Reference, Value};

verus! {

/// The failure of a native operation, as the operation reports it.
#[derive(Debug)]
pub enum VmOperationError {
    CouldNotPerformOperation { message: String, name: String, inputs: Vec<Value> },
}

/// Everything that can go wrong while a machine is built or runs.
#[derive(Debug)]
pub enum VmError {
    Message(String),
    CompilationError(String),
    /// (expected, provided)
    WrongNumberOfInputs(usize, usize),
    /// (expected, provided)
    WrongNumberOfOutputs(usize, usize),
    CouldNotRunEvent(String),
    CouldNotCallFunction(ast::Reference),
    CouldNotCallMethod(ast::Reference, ast::Reference),
    EventDoesNotExists(ast::Reference),
    NodeDoesNotExists(ast::Reference),
    TypeDoesNotExists(ast::Reference),
    TraitDoesNotExists(ast::Reference),
    MethodDoesNotExists(ast::Reference),
    FunctionDoesNotExists(ast::Reference),
    /// (type, method)
    TypeDoesNotImplementMethod(ast::Reference, ast::Reference),
    InstanceDoesNotExists,
    GlobalVariableDoesNotExists(ast::Reference),
    LocalVariableDoesNotExists(ast::Reference),
    InputDoesNotExists(usize),
    OutputDoesNotExists(usize),
    StackUnderflow,
    OperationDoesNotExists(ast::Reference),
    OperationIsNotRegistered(String),
    /// (operation name, what the operation reported)
    OperationFailed(String, VmOperationError),
    /// (length, index, list)
    IndexOutOfBounds(usize, usize, Reference),
    ObjectKeyDoesNotExists(String, Reference),
    ValueIsNotAList(Reference),
    ValueIsNotAnObject(Reference),
    ValueIsNotABool(Reference),
    /// A handle that names no cell of the value store.
    ReferenceDoesNotExists(Reference),
    /// A value nested deeper than the value store has cells: it contains itself.
    ValueIsTooDeep,
    MappingKeyIsNotAString,
    TryingToPerformInvalidNodeType(NodeType),
    /// (source, destination)
    TryingToMutateBorrowedReference(Reference, Reference),
    NodeNotFoundInExecutionPipeline(ast::Reference),
    NodeIsNotALoop(ast::Reference),
    NodeIsNotAnIfElse(ast::Reference),
    TryingToBreakIfElse,
    TryingToContinueIfElse,
    TryingToBreakOutsideLoop,
    TryingToContinueOutsideLoop,
    ThereAreNoCachedNodeOutputs(ast::Reference),
    ThereIsNoCachedNodeIndexedOutput(Link),
}

/// The mathematical value of a [`VmError`].
pub enum VmErrorView {
    Message(Seq<char>),
    CompilationError(Seq<char>),
    WrongNumberOfInputs(usize, usize),
    WrongNumberOfOutputs(usize, usize),
    CouldNotRunEvent(Seq<char>),
    CouldNotCallFunction(ReferenceView),
    CouldNotCallMethod(ReferenceView, ReferenceView),
    EventDoesNotExists(ReferenceView),
    NodeDoesNotExists(ReferenceView),
    TypeDoesNotExists(ReferenceView),
    TraitDoesNotExists(ReferenceView),
    MethodDoesNotExists(ReferenceView),
    FunctionDoesNotExists(ReferenceView),
    TypeDoesNotImplementMethod(ReferenceView, ReferenceView),
    InstanceDoesNotExists,
    GlobalVariableDoesNotExists(ReferenceView),
    LocalVariableDoesNotExists(ReferenceView),
    InputDoesNotExists(usize),
    OutputDoesNotExists(usize),
    StackUnderflow,
    OperationDoesNotExists(ReferenceView),
    OperationIsNotRegistered(Seq<char>),
    OperationFailed(Seq<char>, VmOperationError),
    IndexOutOfBounds(usize, usize, Reference),
    ObjectKeyDoesNotExists(Seq<char>, Reference),
    ValueIsNotAList(Reference),
    ValueIsNotAnObject(Reference),
    ValueIsNotABool(Reference),
    ReferenceDoesNotExists(Reference),
    ValueIsTooDeep,
    MappingKeyIsNotAString,
    TryingToPerformInvalidNodeType(NodeType),
    TryingToMutateBorrowedReference(Reference, Reference),
    NodeNotFoundInExecutionPipeline(ReferenceView),
    NodeIsNotALoop(ReferenceView),
    NodeIsNotAnIfElse(ReferenceView),
    TryingToBreakIfElse,
    TryingToContinueIfElse,
    TryingToBreakOutsideLoop,
    TryingToContinueOutsideLoop,
    ThereAreNoCachedNodeOutputs(ReferenceView),
    ThereIsNoCachedNodeIndexedOutput(Link),
}

impl View for VmError {
    type V = VmErrorView;

    open spec fn view(&self) -> VmErrorView {
        match self {
            VmError::Message(s) => VmErrorView::Message(s@),
            VmError::CompilationError(s) => VmErrorView::CompilationError(s@),
            VmError::WrongNumberOfInputs(e, p) => VmErrorView::WrongNumberOfInputs(*e, *p),
            VmError::WrongNumberOfOutputs(e, p) => VmErrorView::WrongNumberOfOutputs(*e, *p),
            VmError::CouldNotRunEvent(s) => VmErrorView::CouldNotRunEvent(s@),
            VmError::CouldNotCallFunction(r) => VmErrorView::CouldNotCallFunction(r@),
            VmError::CouldNotCallMethod(t, m) => VmErrorView::CouldNotCallMethod(t@, m@),
            VmError::EventDoesNotExists(r) => VmErrorView::EventDoesNotExists(r@),
            VmError::NodeDoesNotExists(r) => VmErrorView::NodeDoesNotExists(r@),
            VmError::TypeDoesNotExists(r) => VmErrorView::TypeDoesNotExists(r@),
            VmError::TraitDoesNotExists(r) => VmErrorView::TraitDoesNotExists(r@),
            VmError::MethodDoesNotExists(r) => VmErrorView::MethodDoesNotExists(r@),
            VmError::FunctionDoesNotExists(r) => VmErrorView::FunctionDoesNotExists(r@),
            VmError::TypeDoesNotImplementMethod(t, m) => VmErrorView::TypeDoesNotImplementMethod(
                t@,
                m@,
            ),
            VmError::InstanceDoesNotExists => VmErrorView::InstanceDoesNotExists,
            VmError::GlobalVariableDoesNotExists(r) => VmErrorView::GlobalVariableDoesNotExists(r@),
            VmError::LocalVariableDoesNotExists(r) => VmErrorView::LocalVariableDoesNotExists(r@),
            VmError::InputDoesNotExists(i) => VmErrorView::InputDoesNotExists(*i),
            VmError::OutputDoesNotExists(i) => VmErrorView::OutputDoesNotExists(*i),
            VmError::StackUnderflow => VmErrorView::StackUnderflow,
            VmError::OperationDoesNotExists(r) => VmErrorView::OperationDoesNotExists(r@),
            VmError::OperationIsNotRegistered(s) => VmErrorView::OperationIsNotRegistered(s@),
            VmError::OperationFailed(s, e) => VmErrorView::OperationFailed(s@, *e),
            VmError::IndexOutOfBounds(l, i, r) => VmErrorView::IndexOutOfBounds(*l, *i, *r),
            VmError::ObjectKeyDoesNotExists(k, r) => VmErrorView::ObjectKeyDoesNotExists(k@, *r),
            VmError::ValueIsNotAList(r) => VmErrorView::ValueIsNotAList(*r),
            VmError::ValueIsNotAnObject(r) => VmErrorView::ValueIsNotAnObject(*r),
            VmError::ValueIsNotABool(r) => VmErrorView::ValueIsNotABool(*r),
            VmError::ReferenceDoesNotExists(r) => VmErrorView::ReferenceDoesNotExists(*r),
            VmError::ValueIsTooDeep => VmErrorView::ValueIsTooDeep,
            VmError::MappingKeyIsNotAString => VmErrorView::MappingKeyIsNotAString,
            VmError::TryingToPerformInvalidNodeType(t) => VmErrorView::TryingToPerformInvalidNodeType(
                *t,
            ),
            VmError::TryingToMutateBorrowedReference(s, d) => {
                VmErrorView::TryingToMutateBorrowedReference(*s, *d)
            },
            VmError::NodeNotFoundInExecutionPipeline(r) => {
                VmErrorView::NodeNotFoundInExecutionPipeline(r@)
            },
            VmError::NodeIsNotALoop(r) => VmErrorView::NodeIsNotALoop(r@),
            VmError::NodeIsNotAnIfElse(r) => VmErrorView::NodeIsNotAnIfElse(r@),
            VmError::TryingToBreakIfElse => VmErrorView::TryingToBreakIfElse,
            VmError::TryingToContinueIfElse => VmErrorView::TryingToContinueIfElse,
            VmError::TryingToBreakOutsideLoop => VmErrorView::TryingToBreakOutsideLoop,
            VmError::TryingToContinueOutsideLoop => VmErrorView::TryingToContinueOutsideLoop,
            VmError::ThereAreNoCachedNodeOutputs(r) => VmErrorView::ThereAreNoCachedNodeOutputs(r@),
            VmError::ThereIsNoCachedNodeIndexedOutput(l) => {
                VmErrorView::ThereIsNoCachedNodeIndexedOutput(*l)
            },
        }
    }
}

} // verus!
