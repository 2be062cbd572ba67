use crate::errors::SourceError;
use vstd::prelude::*;

verus! {

/// Handle of an inferred type.
#[derive(Debug, Clone, Copy, PartialEq, Eq, Structural)]
pub struct TypeId(pub usize);

/// What one run of type checking produced, before it joins the store: the
/// types of consecutive nodes, starting where the previous run stopped.
pub struct Types {
    pub node_types: Vec<TypeId>,
    pub errors: Vec<SourceError>,
}

impl Types {
    /// An empty bundle.
    pub fn new() -> (r: Self)
        ensures
            r.node_types@.len() == 0,
            r.errors@.len() == 0,
    {
        Types { node_types: Vec::new(), errors: Vec::new() }
    }
}

} // verus!
