use crate::render::{bool_str, bool_text, decimal, decimal_text};
use vstd::prelude::*;
use vstd::string::StringExecFns;

verus! {

/// Handle of a syntax node: its index in the node arena.
#[derive(Debug, Clone, Copy, PartialEq, Eq, Structural)]
pub struct NodeId(pub usize);

/// Handle of a block: its index in the block arena.
#[derive(Debug, Clone, Copy, PartialEq, Eq, Structural)]
pub struct BlockId(pub usize);

/// Handle of a pipeline: its index in the pipeline arena.
#[derive(Debug, Clone, Copy, PartialEq, Eq, Structural)]
pub struct PipelineId(pub usize);

/// A syntax node: its kind and the handles of its children. Children are
/// always pushed before their parent, so a node refers only to smaller ids.
#[derive(Debug, Clone, PartialEq)]
pub enum AstNode {
    Int,
    Float,
    String,
    Name,
    Variable,
    Garbage,
    Plus,
    Minus,
    Multiply,
    Divide,
    Equal,
    LessThan,
    GreaterThan,
    Assignment,
    Let { variable_name: NodeId, initializer: NodeId, is_mutable: bool },
    BinaryOp { lhs: NodeId, op: NodeId, rhs: NodeId },
    Call { parts: Vec<NodeId> },
    If { condition: NodeId, then_block: NodeId, else_block: Option<NodeId> },
    Def { name: NodeId, params: NodeId, block: NodeId },
    Params(Vec<NodeId>),
    Return(Option<NodeId>),
    Block(BlockId),
    Pipeline(PipelineId),
}

/// A sequence of statements, each a node.
#[derive(Debug, Clone, PartialEq)]
pub struct Block {
    pub nodes: Vec<NodeId>,
}

/// A sequence of commands whose output feeds the next, each a node.
#[derive(Debug, Clone, PartialEq)]
pub struct Pipeline {
    pub nodes: Vec<NodeId>,
}

/// `NodeId(<n>)`.
pub open spec fn node_id_text(id: NodeId) -> Seq<char> {
    "NodeId("@ + decimal(id.0 as nat) + ")"@
}

/// The handles separated by `, `.
pub open spec fn node_ids_joined(ids: Seq<NodeId>) -> Seq<char>
    decreases ids.len(),
{
    if ids.len() == 0 {
        Seq::empty()
    } else if ids.len() == 1 {
        node_id_text(ids[0])
    } else {
        node_ids_joined(ids.drop_last()) + ", "@ + node_id_text(ids.last())
    }
}

/// `[<id>, <id>, ...]`.
pub open spec fn node_ids_text(ids: Seq<NodeId>) -> Seq<char> {
    "["@ + node_ids_joined(ids) + "]"@
}

/// `Some(<id>)` or `None`.
pub open spec fn opt_node_id_text(id: Option<NodeId>) -> Seq<char> {
    match id {
        Some(i) => "Some("@ + node_id_text(i) + ")"@,
        None => "None"@,
    }
}

/// Whether a node is a leaf literal whose source text is worth showing.
pub open spec fn is_literal_kind(n: AstNode) -> bool {
    match n {
        AstNode::Name | AstNode::Variable | AstNode::Int | AstNode::Float | AstNode::String => true,
        _ => false,
    }
}

impl AstNode {
    /// The node's kind and fields, as Rust's `Debug` prints them.
    pub open spec fn kind_spec(&self) -> Seq<char> {
        match *self {
            AstNode::Int => "Int"@,
            AstNode::Float => "Float"@,
            AstNode::String => "String"@,
            AstNode::Name => "Name"@,
            AstNode::Variable => "Variable"@,
            AstNode::Garbage => "Garbage"@,
            AstNode::Plus => "Plus"@,
            AstNode::Minus => "Minus"@,
            AstNode::Multiply => "Multiply"@,
            AstNode::Divide => "Divide"@,
            AstNode::Equal => "Equal"@,
            AstNode::LessThan => "LessThan"@,
            AstNode::GreaterThan => "GreaterThan"@,
            AstNode::Assignment => "Assignment"@,
            AstNode::Let { variable_name, initializer, is_mutable } => "Let { variable_name: "@
                + node_id_text(variable_name) + ", initializer: "@ + node_id_text(initializer)
                + ", is_mutable: "@ + bool_text(is_mutable) + " }"@,
            AstNode::BinaryOp { lhs, op, rhs } => "BinaryOp { lhs: "@ + node_id_text(lhs)
                + ", op: "@ + node_id_text(op) + ", rhs: "@ + node_id_text(rhs) + " }"@,
            AstNode::Call { parts } => "Call { parts: "@ + node_ids_text(parts@) + " }"@,
            AstNode::If { condition, then_block, else_block } => "If { condition: "@
                + node_id_text(condition) + ", then_block: "@ + node_id_text(then_block)
                + ", else_block: "@ + opt_node_id_text(else_block) + " }"@,
            AstNode::Def { name, params, block } => "Def { name: "@ + node_id_text(name)
                + ", params: "@ + node_id_text(params) + ", block: "@ + node_id_text(block)
                + " }"@,
            AstNode::Params(ids) => "Params("@ + node_ids_text(ids@) + ")"@,
            AstNode::Return(id) => "Return("@ + opt_node_id_text(id) + ")"@,
            AstNode::Block(b) => "Block(BlockId("@ + decimal(b.0 as nat) + "))"@,
            AstNode::Pipeline(p) => "Pipeline(PipelineId("@ + decimal(p.0 as nat) + "))"@,
        }
    }

    /// Whether this node is a leaf literal (name, variable, integer, float
    /// or string).
    pub fn is_literal(&self) -> (r: bool)
        ensures
            r == is_literal_kind(*self),
    {
        match self {
            AstNode::Name | AstNode::Variable | AstNode::Int | AstNode::Float | AstNode::String => true,
            _ => false,
        }
    }

    /// Renders the node's kind and fields.
    pub fn kind_text(&self) -> (r: String)
        ensures
            r@ == self.kind_spec(),
    {
        match self {
            AstNode::Int => String::from_str("Int"),
            AstNode::Float => String::from_str("Float"),
            AstNode::String => String::from_str("String"),
            AstNode::Name => String::from_str("Name"),
            AstNode::Variable => String::from_str("Variable"),
            AstNode::Garbage => String::from_str("Garbage"),
            AstNode::Plus => String::from_str("Plus"),
            AstNode::Minus => String::from_str("Minus"),
            AstNode::Multiply => String::from_str("Multiply"),
            AstNode::Divide => String::from_str("Divide"),
            AstNode::Equal => String::from_str("Equal"),
            AstNode::LessThan => String::from_str("LessThan"),
            AstNode::GreaterThan => String::from_str("GreaterThan"),
            AstNode::Assignment => String::from_str("Assignment"),
            AstNode::Let { variable_name, initializer, is_mutable } => {
                let mut s = String::from_str("Let { variable_name: ");
                s.append(node_id_string(*variable_name).as_str());
                s.append(", initializer: ");
                s.append(node_id_string(*initializer).as_str());
                s.append(", is_mutable: ");
                s.append(bool_str(*is_mutable));
                s.append(" }");
                s
            },
            AstNode::BinaryOp { lhs, op, rhs } => {
                let mut s = String::from_str("BinaryOp { lhs: ");
                s.append(node_id_string(*lhs).as_str());
                s.append(", op: ");
                s.append(node_id_string(*op).as_str());
                s.append(", rhs: ");
                s.append(node_id_string(*rhs).as_str());
                s.append(" }");
                s
            },
            AstNode::Call { parts } => {
                let mut s = String::from_str("Call { parts: ");
                s.append(node_ids_string(parts).as_str());
                s.append(" }");
                s
            },
            AstNode::If { condition, then_block, else_block } => {
                let mut s = String::from_str("If { condition: ");
                s.append(node_id_string(*condition).as_str());
                s.append(", then_block: ");
                s.append(node_id_string(*then_block).as_str());
                s.append(", else_block: ");
                s.append(opt_node_id_string(*else_block).as_str());
                s.append(" }");
                s
            },
            AstNode::Def { name, params, block } => {
                let mut s = String::from_str("Def { name: ");
                s.append(node_id_string(*name).as_str());
                s.append(", params: ");
                s.append(node_id_string(*params).as_str());
                s.append(", block: ");
                s.append(node_id_string(*block).as_str());
                s.append(" }");
                s
            },
            AstNode::Params(ids) => {
                let mut s = String::from_str("Params(");
                s.append(node_ids_string(ids).as_str());
                s.append(")");
                s
            },
            AstNode::Return(id) => {
                let mut s = String::from_str("Return(");
                s.append(opt_node_id_string(*id).as_str());
                s.append(")");
                s
            },
            AstNode::Block(b) => {
                let mut s = String::from_str("Block(BlockId(");
                s.append(decimal_text(b.0).as_str());
                s.append("))");
                s
            },
            AstNode::Pipeline(p) => {
                let mut s = String::from_str("Pipeline(PipelineId(");
                s.append(decimal_text(p.0).as_str());
                s.append("))");
                s
            },
        }
    }
}

/// Renders a node handle as `NodeId(<n>)`.
pub fn node_id_string(id: NodeId) -> (r: String)
    ensures
        r@ == node_id_text(id),
{
    let mut s = String::from_str("NodeId(");
    s.append(decimal_text(id.0).as_str());
    s.append(")");
    s
}

/// Renders an optional node handle as `Some(NodeId(<n>))` or `None`.
pub fn opt_node_id_string(id: Option<NodeId>) -> (r: String)
    ensures
        r@ == opt_node_id_text(id),
{
    match id {
        Some(i) => {
            let mut s = String::from_str("Some(");
            s.append(node_id_string(i).as_str());
            s.append(")");
            s
        },
        None => String::from_str("None"),
    }
}

/// Renders a list of node handles as `[NodeId(<a>), NodeId(<b>)]`.
pub fn node_ids_string(ids: &Vec<NodeId>) -> (r: String)
    ensures
        r@ == node_ids_text(ids@),
{
    let mut s = String::from_str("[");
    let mut i: usize = 0;
    while i < ids.len()
        invariant
            i <= ids@.len(),
            s@ == "["@ + node_ids_joined(ids@.take(i as int)),
        decreases ids@.len() - i,
    {
        proof {
            assert(ids@.take(i + 1).drop_last() =~= ids@.take(i as int));
        }
        if i > 0 {
            s.append(", ");
        }
        s.append(node_id_string(ids[i]).as_str());
        i = i + 1;
    }
    proof {
        assert(ids@.take(i as int) =~= ids@);
    }
    s.append("]");
    s
}

} // verus!
