//! Finding the construct that an activation record runs: the node list and
//! the local variables of an event, of a function, or of the method body
//! that the dispatch table picks for a type.

use vstd::prelude::*;
use crate::ast;
use crate::ast::{find_by_guid, lemma_position, position, Method, Node, ReferenceView, Variable, GUID};
use crate::error::{VmError, VmErrorView};
use crate::event::VmContextOwner;
use crate::program::{dispatch_view, CompiledProgram};

verus! {

/// The first method with the identifier `method` among the methods that the
/// trait implementations from implementation `i` on override.
pub open spec fn implemented_method(
    implementations: Seq<(ast::Reference, Vec<Method>)>,
    method: GUID,
    i: int,
) -> Option<Method>
    decreases implementations.len() - i,
{
    if i < 0 || i >= implementations.len() {
        None
    } else {
        match position(implementations[i].1@, ReferenceView::Guid(method)) {
            Some(at) => Some(implementations[i].1@[at]),
            None => implemented_method(implementations, method, i + 1),
        }
    }
}

/// The body that runs for the method `method` on the type `type_`: the
/// type's override where the dispatch table says that it overrides the
/// method, else the body of the trait that declares it.
pub open spec fn owner_method(program: CompiledProgram, type_: GUID, method: GUID) -> Result<
    Method,
    VmErrorView,
> {
    let dispatch = dispatch_view(program.type_methods);
    if !dispatch.contains_key(type_) {
        Err(VmErrorView::NodeDoesNotExists(ReferenceView::Guid(type_)))
    } else if !dispatch[type_].contains_key(method) {
        Err(
            VmErrorView::TypeDoesNotImplementMethod(
                ReferenceView::Guid(type_),
                ReferenceView::Guid(method),
            ),
        )
    } else {
        let (trait_, overridden) = dispatch[type_][method];
        match position(program.ast.types@, ReferenceView::Guid(type_)) {
            None => Err(VmErrorView::TypeDoesNotExists(ReferenceView::Guid(type_))),
            Some(t) => if overridden {
                match implemented_method(program.ast.types@[t].traits_implementation@, method, 0) {
                    Some(body) => Ok(body),
                    None => Err(VmErrorView::MethodDoesNotExists(ReferenceView::Guid(method))),
                }
            } else {
                match position(program.ast.traits@, ReferenceView::Guid(trait_)) {
                    None => Err(VmErrorView::TraitDoesNotExists(ReferenceView::Guid(type_))),
                    Some(at) => match position(
                        program.ast.traits@[at].methods@,
                        ReferenceView::Guid(method),
                    ) {
                        Some(k) => Ok(program.ast.traits@[at].methods@[k]),
                        None => Err(VmErrorView::MethodDoesNotExists(ReferenceView::Guid(method))),
                    },
                }
            },
        }
    }
}

/// The node list of the construct `owner`.
pub open spec fn owner_nodes(program: CompiledProgram, owner: VmContextOwner) -> Result<
    Seq<Node>,
    VmErrorView,
> {
    match owner {
        VmContextOwner::Event(guid) => match position(
            program.ast.events@,
            ReferenceView::Guid(guid),
        ) {
            Some(e) => Ok(program.ast.events@[e].nodes@),
            None => Err(VmErrorView::EventDoesNotExists(ReferenceView::Guid(guid))),
        },
        VmContextOwner::Method(type_, method) => match owner_method(program, type_, method) {
            Ok(body) => Ok(body.nodes@),
            Err(error) => Err(error),
        },
        VmContextOwner::Function(guid) => match position(
            program.ast.functions@,
            ReferenceView::Guid(guid),
        ) {
            Some(f) => Ok(program.ast.functions@[f].nodes@),
            None => Err(VmErrorView::FunctionDoesNotExists(ReferenceView::Guid(guid))),
        },
    }
}

/// The local variables that the construct `owner` declares.
pub open spec fn owner_variables(program: CompiledProgram, owner: VmContextOwner) -> Result<
    Seq<Variable>,
    VmErrorView,
> {
    match owner {
        VmContextOwner::Event(guid) => match position(
            program.ast.events@,
            ReferenceView::Guid(guid),
        ) {
            Some(e) => Ok(program.ast.events@[e].variables@),
            None => Err(VmErrorView::EventDoesNotExists(ReferenceView::Guid(guid))),
        },
        VmContextOwner::Method(type_, method) => match owner_method(program, type_, method) {
            Ok(body) => Ok(body.variables@),
            Err(error) => Err(error),
        },
        VmContextOwner::Function(guid) => match position(
            program.ast.functions@,
            ReferenceView::Guid(guid),
        ) {
            Some(f) => Ok(program.ast.functions@[f].variables@),
            None => Err(VmErrorView::FunctionDoesNotExists(ReferenceView::Guid(guid))),
        },
    }
}

/// Finds the first override with the identifier `method`.
fn find_implemented<'a>(implementations: &'a Vec<(ast::Reference, Vec<Method>)>, method: GUID) -> (found:
    Option<&'a Method>)
    ensures
        match implemented_method(implementations@, method, 0) {
            Some(body) => found matches Some(m) && *m == body,
            None => found is None,
        },
{
    let mut i: usize = 0;
    while i < implementations.len()
        invariant
            0 <= i <= implementations@.len(),
            implemented_method(implementations@, method, 0) == implemented_method(
                implementations@,
                method,
                i as int,
            ),
        decreases implementations@.len() - i,
    {
        proof {
            lemma_position(implementations@[i as int].1@, ReferenceView::Guid(method));
        }
        if let Some(at) = find_by_guid(&implementations[i].1, method) {
            return Some(&implementations[i].1[at]);
        }
        i += 1;
    }
    None
}

impl CompiledProgram {
    /// The body that runs for the method `method` on the type `type_`.
    pub fn method_body(&self, type_: GUID, method: GUID) -> (result: Result<&Method, VmError>)
        ensures
            match owner_method(*self, type_, method) {
                Ok(body) => result matches Ok(m) && *m == body,
                Err(error) => result matches Err(e) && e@ == error,
            },
    {
        let table = match self.type_methods.get(&type_) {
            Some(table) => table,
            None => {
                return Err(VmError::NodeDoesNotExists(ast::Reference::Guid(type_)));
            },
        };
        let (trait_, overridden) = match table.get(&method) {
            Some(entry) => *entry,
            None => {
                return Err(
                    VmError::TypeDoesNotImplementMethod(
                        ast::Reference::Guid(type_),
                        ast::Reference::Guid(method),
                    ),
                );
            },
        };
        proof {
            lemma_position(self.ast.types@, ReferenceView::Guid(type_));
            lemma_position(self.ast.traits@, ReferenceView::Guid(trait_));
        }
        let t = match find_by_guid(&self.ast.types, type_) {
            Some(t) => t,
            None => {
                return Err(VmError::TypeDoesNotExists(ast::Reference::Guid(type_)));
            },
        };
        if overridden {
            match find_implemented(&self.ast.types[t].traits_implementation, method) {
                Some(body) => Ok(body),
                None => Err(VmError::MethodDoesNotExists(ast::Reference::Guid(method))),
            }
        } else {
            let at = match find_by_guid(&self.ast.traits, trait_) {
                Some(at) => at,
                None => {
                    return Err(VmError::TraitDoesNotExists(ast::Reference::Guid(type_)));
                },
            };
            proof {
                lemma_position(self.ast.traits@[at as int].methods@, ReferenceView::Guid(method));
            }
            match find_by_guid(&self.ast.traits[at].methods, method) {
                Some(k) => Ok(&self.ast.traits[at].methods[k]),
                None => Err(VmError::MethodDoesNotExists(ast::Reference::Guid(method))),
            }
        }
    }

    /// The node list of the construct `owner`.
    pub fn nodes_of(&self, owner: VmContextOwner) -> (result: Result<&Vec<Node>, VmError>)
        ensures
            match owner_nodes(*self, owner) {
                Ok(nodes) => result matches Ok(list) && list@ == nodes,
                Err(error) => result matches Err(e) && e@ == error,
            },
    {
        match owner {
            VmContextOwner::Event(guid) => {
                proof {
                    lemma_position(self.ast.events@, ReferenceView::Guid(guid));
                }
                match find_by_guid(&self.ast.events, guid) {
                    Some(e) => Ok(&self.ast.events[e].nodes),
                    None => Err(VmError::EventDoesNotExists(ast::Reference::Guid(guid))),
                }
            },
            VmContextOwner::Method(type_, method) => {
                let body = self.method_body(type_, method)?;
                Ok(&body.nodes)
            },
            VmContextOwner::Function(guid) => {
                proof {
                    lemma_position(self.ast.functions@, ReferenceView::Guid(guid));
                }
                match find_by_guid(&self.ast.functions, guid) {
                    Some(f) => Ok(&self.ast.functions[f].nodes),
                    None => Err(VmError::FunctionDoesNotExists(ast::Reference::Guid(guid))),
                }
            },
        }
    }

    /// The local variables that the construct `owner` declares.
    pub fn variables_of(&self, owner: VmContextOwner) -> (result: Result<&Vec<Variable>, VmError>)
        ensures
            match owner_variables(*self, owner) {
                Ok(variables) => result matches Ok(list) && list@ == variables,
                Err(error) => result matches Err(e) && e@ == error,
            },
    {
        match owner {
            VmContextOwner::Event(guid) => {
                proof {
                    lemma_position(self.ast.events@, ReferenceView::Guid(guid));
                }
                match find_by_guid(&self.ast.events, guid) {
                    Some(e) => Ok(&self.ast.events[e].variables),
                    None => Err(VmError::EventDoesNotExists(ast::Reference::Guid(guid))),
                }
            },
            VmContextOwner::Method(type_, method) => {
                let body = self.method_body(type_, method)?;
                Ok(&body.variables)
            },
            VmContextOwner::Function(guid) => {
                proof {
                    lemma_position(self.ast.functions@, ReferenceView::Guid(guid));
                }
                match find_by_guid(&self.ast.functions, guid) {
                    Some(f) => Ok(&self.ast.functions[f].variables),
                    None => Err(VmError::FunctionDoesNotExists(ast::Reference::Guid(guid))),
                }
            },
        }
    }
}

} // verus!
