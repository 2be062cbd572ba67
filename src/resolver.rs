use crate::errors::SourceError;
use crate::syntax::NodeId;
use vstd::prelude::*;

verus! {

/// Handle of a scope frame.
#[derive(Debug, Clone, Copy, PartialEq, Eq, Structural)]
pub struct ScopeId(pub usize);

/// Handle of a variable.
#[derive(Debug, Clone, Copy, PartialEq, Eq, Structural)]
pub struct VarId(pub usize);

/// Handle of a declaration.
#[derive(Debug, Clone, Copy, PartialEq, Eq, Structural)]
pub struct DeclId(pub usize);

/// What introduced a scope.
#[derive(Debug, Clone, Copy, PartialEq, Eq, Structural)]
pub enum ScopeType {
    Block,
    Function,
}

/// A naming scope, introduced by the node `node_id`.
#[derive(Debug, Clone, Copy, PartialEq, Eq, Structural)]
pub struct Frame {
    pub scope_type: ScopeType,
    pub node_id: NodeId,
}

/// A resolved variable binding, declared at the name node `name`.
#[derive(Debug, Clone, Copy, PartialEq, Eq, Structural)]
pub struct Variable {
    pub name: NodeId,
    pub is_mutable: bool,
}

/// A named invocable: a command, an alias, or a reference to an external
/// program. Each is owned once by the store and referred to by `DeclId`.
#[derive(Debug, PartialEq)]
pub enum Declaration {
    Command { name: String, signature: String },
    Alias { name: String, expansion: String },
    External { name: String, signature: String },
}

impl Declaration {
    /// The name the declaration is invoked by.
    pub fn name(&self) -> (r: &str)
        ensures
            r@ == match *self {
                Declaration::Command { name, .. } => name@,
                Declaration::Alias { name, .. } => name@,
                Declaration::External { name, .. } => name@,
            },
    {
        match self {
            Declaration::Command { name, .. } => name.as_str(),
            Declaration::Alias { name, .. } => name.as_str(),
            Declaration::External { name, .. } => name.as_str(),
        }
    }

    /// What the declaration takes, or for an alias what it stands for.
    pub fn signature(&self) -> (r: &str)
        ensures
            r@ == match *self {
                Declaration::Command { signature, .. } => signature@,
                Declaration::Alias { expansion, .. } => expansion@,
                Declaration::External { signature, .. } => signature@,
            },
    {
        match self {
            Declaration::Command { signature, .. } => signature.as_str(),
            Declaration::Alias { expansion, .. } => expansion.as_str(),
            Declaration::External { signature, .. } => signature.as_str(),
        }
    }
}

/// What one run of name resolution produced, before it joins the store.
/// Scope, variable and declaration handles inside the bundle count from zero
/// within the bundle itself.
pub struct NameBindings {
    /// All scope frames entered, indexed by `ScopeId`.
    pub scope: Vec<Frame>,
    /// The scopes entered when resolution ended, innermost last.
    pub scope_stack: Vec<ScopeId>,
    /// Variables, indexed by `VarId`.
    pub variables: Vec<Variable>,
    /// Each name occurrence resolved to a variable, in resolution order.
    pub var_resolution: Vec<(NodeId, VarId)>,
    /// Declarations, indexed by `DeclId`.
    pub decls: Vec<Declaration>,
    /// Each name occurrence resolved to a declaration, in resolution order.
    pub decl_resolution: Vec<(NodeId, DeclId)>,
    /// Diagnostics raised during resolution.
    pub errors: Vec<SourceError>,
}

impl NameBindings {
    /// Every handle the bundle stores points into the bundle's own sequences.
    pub open spec fn wf(&self) -> bool {
        &&& forall|i: int|
            0 <= i < self.scope_stack@.len() ==> (#[trigger] self.scope_stack@[i]).0
                < self.scope@.len()
        &&& forall|i: int|
            0 <= i < self.var_resolution@.len() ==> (#[trigger] self.var_resolution@[i]).1.0
                < self.variables@.len()
        &&& forall|i: int|
            0 <= i < self.decl_resolution@.len() ==> (#[trigger] self.decl_resolution@[i]).1.0
                < self.decls@.len()
    }

    /// An empty bundle.
    pub fn new() -> (r: Self)
        ensures
            r.scope@.len() == 0,
            r.scope_stack@.len() == 0,
            r.variables@.len() == 0,
            r.var_resolution@.len() == 0,
            r.decls@.len() == 0,
            r.decl_resolution@.len() == 0,
            r.errors@.len() == 0,
    {
        NameBindings {
            scope: Vec::new(),
            scope_stack: Vec::new(),
            variables: Vec::new(),
            var_resolution: Vec::new(),
            decls: Vec::new(),
            decl_resolution: Vec::new(),
            errors: Vec::new(),
        }
    }
}

} // verus!
