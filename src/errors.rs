use crate::syntax::NodeId;
use vstd::prelude::*;
use vstd::string::StringExecFns;

verus! {

/// How serious a diagnostic is.
#[derive(Debug, Clone, Copy, PartialEq, Eq, Structural)]
pub enum Severity {
    Error,
    Note,
}

/// A user-facing problem found in the source, anchored to a node.
#[derive(Debug, Clone, PartialEq)]
pub struct SourceError {
    pub message: String,
    pub node_id: NodeId,
    pub severity: Severity,
}

/// The severity's name, as Rust's `Debug` prints it.
pub open spec fn severity_text(s: Severity) -> Seq<char> {
    match s {
        Severity::Error => "Error"@,
        Severity::Note => "Note"@,
    }
}

impl Severity {
    /// Renders the severity's name.
    pub fn name(&self) -> (r: &'static str)
        ensures
            r@ == severity_text(*self),
    {
        match self {
            Severity::Error => "Error",
            Severity::Note => "Note",
        }
    }
}

impl SourceError {
    pub fn new(severity: Severity, node_id: NodeId, message: &str) -> (r: Self)
        ensures
            r.severity == severity,
            r.node_id == node_id,
            r.message@ == message@,
    {
        SourceError { message: String::from_str(message), node_id, severity }
    }
}

} // verus!
