use compiler_store::compiler::Compiler;
use compiler_store::errors::{Severity, SourceError};
use compiler_store::render::decimal_text;
use compiler_store::resolver::{
    DeclId, Declaration, Frame, NameBindings, ScopeId, ScopeType, VarId, Variable,
};
use compiler_store::span::{Span, Spanned};
use compiler_store::syntax::{AstNode, Block, BlockId, NodeId};
use compiler_store::typechecker::{TypeId, Types};

fn error(node: usize, message: &str) -> SourceError {
    SourceError::new(Severity::Error, NodeId(node), message)
}

#[test]
fn push_node_ids_start_at_zero_without_gaps() {
    let mut c = Compiler::new();
    for i in 0..5 {
        assert_eq!(c.push_node(AstNode::Int), NodeId(i));
    }
    assert_eq!(c.ast_nodes.len(), 5);
}

#[test]
fn next_id_after_rollback_is_captured_length() {
    let mut c = Compiler::new();
    c.push_node(AstNode::Name);
    c.push_node(AstNode::Int);
    let rbp = c.get_rollback_point(0);
    c.push_node(AstNode::Plus);
    c.push_node(AstNode::Minus);
    c.apply_compiler_rollback(rbp);
    assert_eq!(c.push_node(AstNode::Float), NodeId(2));
}

#[test]
fn rollback_restores_all_speculative_arenas() {
    let mut c = Compiler::default();
    c.add_file("f", b"abcdef");
    c.push_node(AstNode::Name);
    c.spans.push(Span::new(0, 1));
    c.errors.push(error(0, "first"));
    c.blocks.push(Block { nodes: vec![NodeId(0)] });
    let spans = c.spans.clone();
    let nodes = c.ast_nodes.clone();
    let errors = c.errors.clone();
    let blocks = c.blocks.clone();

    let rbp = c.get_rollback_point(17);
    c.push_node(AstNode::Int);
    c.spans.push(Span::new(1, 3));
    c.errors.push(error(1, "speculative"));
    c.blocks.push(Block { nodes: vec![NodeId(1)] });
    c.blocks.push(Block { nodes: vec![] });
    let token = c.apply_compiler_rollback(rbp);

    assert_eq!(token, 17);
    assert_eq!(c.spans, spans);
    assert_eq!(c.ast_nodes, nodes);
    assert_eq!(c.errors, errors);
    assert_eq!(c.blocks, blocks);
    assert_eq!(c.source, b"abcdef".to_vec());
}

#[test]
fn rollback_without_appends_changes_nothing() {
    let mut c = Compiler::new();
    c.push_node(AstNode::Int);
    c.spans.push(Span::new(0, 0));
    let rbp = c.get_rollback_point(3);
    assert_eq!(c.apply_compiler_rollback(rbp), 3);
    assert_eq!(c.ast_nodes.len(), 1);
    assert_eq!(c.spans.len(), 1);
}

#[test]
fn span_contents_match_source() {
    let mut c = Compiler::new();
    c.add_file("main", b"let x = 42\n");
    c.push_node(AstNode::Name);
    c.spans.push(Span::new(4, 5));
    c.push_node(AstNode::Int);
    c.spans.push(Span::new(8, 10));
    c.push_node(AstNode::String);
    c.spans.push(Span::new(3, 3));
    assert_eq!(c.get_span(NodeId(1)), Span::new(8, 10));
    assert_eq!(c.get_span_contents(NodeId(0)), b"x");
    assert_eq!(c.get_span_contents(NodeId(1)), b"42");
    assert_eq!(c.get_span_contents(NodeId(1)).len(), 2);
    assert_eq!(c.get_span_contents(NodeId(2)), b"");
    assert_eq!(c.get_span_contents_manual(0, 3), b"let");
    assert_eq!(c.get_span_contents_manual(11, 11), b"");
}

#[test]
fn files_are_placed_back_to_back() {
    let mut c = Compiler::new();
    assert_eq!(c.span_offset(), 0);
    c.add_file("a", b"xyz");
    assert_eq!(c.span_offset(), 3);
    c.add_file("c", b"12345");
    assert_eq!(c.file_offsets[0], ("a".to_string(), 0, 3));
    assert_eq!(c.file_offsets[1], ("c".to_string(), 3, 8));
    assert_eq!(c.source, b"xyz12345".to_vec());
    assert_eq!(c.span_offset(), 8);
}

#[test]
fn repeated_file_names_and_empty_files_are_kept() {
    let mut c = Compiler::new();
    c.add_file("a", b"");
    c.add_file("a", b"q");
    assert_eq!(c.file_offsets.len(), 2);
    assert_eq!(c.file_offsets[0], ("a".to_string(), 0, 0));
    assert_eq!(c.file_offsets[1], ("a".to_string(), 0, 1));
}

fn bundle(message: &str) -> NameBindings {
    let mut nb = NameBindings::new();
    nb.scope.push(Frame { scope_type: ScopeType::Block, node_id: NodeId(0) });
    nb.scope.push(Frame { scope_type: ScopeType::Function, node_id: NodeId(2) });
    nb.scope_stack.push(ScopeId(0));
    nb.scope_stack.push(ScopeId(1));
    nb.variables.push(Variable { name: NodeId(0), is_mutable: false });
    nb.var_resolution.push((NodeId(0), VarId(0)));
    nb.decls.push(Declaration::Command {
        name: "print".to_string(),
        signature: "print <value>".to_string(),
    });
    nb.decl_resolution.push((NodeId(1), DeclId(0)));
    nb.errors.push(error(0, message));
    nb
}

#[test]
fn name_merges_are_cumulative_and_remap_handles() {
    let mut c = Compiler::new();
    c.merge_name_bindings(bundle("one"));
    let mut second = bundle("two");
    second.variables[0] = Variable { name: NodeId(5), is_mutable: true };
    second.var_resolution[0] = (NodeId(6), VarId(0));
    c.merge_name_bindings(second);

    assert_eq!(c.scope.len(), 4);
    assert_eq!(c.scope_stack, vec![ScopeId(0), ScopeId(1), ScopeId(2), ScopeId(3)]);
    assert_eq!(c.variables.len(), 2);
    assert_eq!(c.decls.len(), 2);
    assert_eq!(c.var_resolution.get(&0), Some(&VarId(0)));
    assert_eq!(c.var_resolution.get(&6), Some(&VarId(1)));
    assert_eq!(c.variables[1], Variable { name: NodeId(5), is_mutable: true });
    // The same node resolved again: the later merge wins, pointing at its own copy.
    assert_eq!(c.decl_resolution.get(&1), Some(&DeclId(1)));
    assert_eq!(c.decls[1].name(), "print");
    assert_eq!(c.errors.len(), 2);
    assert_eq!(c.errors[0].message, "one");
    assert_eq!(c.errors[1].message, "two");
}

#[test]
fn type_merges_are_cumulative_not_deduplicated() {
    let mut c = Compiler::new();
    let make = || {
        let mut t = Types::new();
        t.node_types.push(TypeId(4));
        t.node_types.push(TypeId(2));
        t.errors.push(error(1, "mismatch"));
        t
    };
    c.merge_types(make());
    c.merge_types(make());
    assert_eq!(c.node_types, vec![TypeId(4), TypeId(2), TypeId(4), TypeId(2)]);
    assert_eq!(c.errors.len(), 2);
    assert_eq!(c.errors[0], c.errors[1]);
}

#[test]
fn literals_read_back_exactly() {
    let mut c = Compiler::new();
    c.add_file("lits", b"42 3.14 -17 +8 \xce\xbb");
    c.push_node(AstNode::Int);
    c.spans.push(Span::new(0, 2));
    c.push_node(AstNode::Float);
    c.spans.push(Span::new(3, 7));
    c.push_node(AstNode::Int);
    c.spans.push(Span::new(8, 11));
    c.push_node(AstNode::Int);
    c.spans.push(Span::new(12, 14));
    c.push_node(AstNode::Name);
    c.spans.push(Span::new(15, 17));
    assert_eq!(c.node_as_i64(NodeId(0)), 42);
    assert_eq!(c.node_as_str(NodeId(1)), "3.14");
    assert_eq!(c.node_as_i64(NodeId(2)), -17);
    assert_eq!(c.node_as_i64(NodeId(3)), 8);
    assert_eq!(c.node_as_str(NodeId(4)), "\u{3bb}");
}

#[test]
fn diagnostics_keep_recording_order() {
    let mut c = Compiler::new();
    c.errors.push(error(0, "E1"));
    let mut nb = NameBindings::new();
    nb.errors.push(error(1, "E2"));
    c.merge_name_bindings(nb);
    let mut t = Types::new();
    t.errors.push(error(2, "E3"));
    c.merge_types(t);
    let messages: Vec<&str> = c.errors.iter().map(|e| e.message.as_str()).collect();
    assert_eq!(messages, vec!["E1", "E2", "E3"]);
}

#[test]
fn end_to_end_parse_then_rollback() {
    let mut c = Compiler::new();
    c.add_file("main", b"let x = 42\n");
    let name = c.push_node(AstNode::Name);
    c.spans.push(Span::new(4, 5));
    let value = c.push_node(AstNode::Int);
    c.spans.push(Span::new(8, 10));
    let wrap = c.push_node(AstNode::Let {
        variable_name: name,
        initializer: value,
        is_mutable: false,
    });
    c.spans.push(Span::new(0, 10));
    assert_eq!((name, value, wrap), (NodeId(0), NodeId(1), NodeId(2)));
    assert_eq!(c.node_as_str(name), "x");
    assert_eq!(c.node_as_i64(value), 42);

    let rbp = c.get_rollback_point(5);
    let extra = c.push_node(AstNode::Garbage);
    c.spans.push(Span::new(10, 11));
    c.errors.push(error(extra.0, "unexpected end of line"));
    let token = c.apply_compiler_rollback(rbp);

    assert_eq!(token, 5);
    assert_eq!(c.ast_nodes.len(), 3);
    assert_eq!(c.errors.len(), 0);
    assert_eq!(c.push_node(AstNode::Int), NodeId(3));
}

#[test]
fn get_node_mut_changes_the_node_in_place() {
    let mut c = Compiler::new();
    c.push_node(AstNode::Int);
    c.push_node(AstNode::Garbage);
    *c.get_node_mut(NodeId(1)) = AstNode::Return(Some(NodeId(0)));
    assert_eq!(c.get_node(NodeId(1)), &AstNode::Return(Some(NodeId(0))));
    assert_eq!(c.get_node(NodeId(0)), &AstNode::Int);
}

#[test]
fn display_state_renders_nodes_and_diagnostics() {
    let mut c = Compiler::new();
    c.add_file("main", b"let x = 42\n");
    c.push_node(AstNode::Name);
    c.spans.push(Span::new(4, 5));
    c.push_node(AstNode::Int);
    c.spans.push(Span::new(8, 10));
    c.push_node(AstNode::Let { variable_name: NodeId(0), initializer: NodeId(1), is_mutable: false });
    c.spans.push(Span::new(0, 10));
    c.push_node(AstNode::Call { parts: vec![NodeId(0), NodeId(1)] });
    c.spans.push(Span::new(0, 10));
    c.push_node(AstNode::If { condition: NodeId(1), then_block: NodeId(2), else_block: None });
    c.spans.push(Span::new(0, 10));
    c.push_node(AstNode::Block(BlockId(12)));
    c.spans.push(Span::new(0, 0));
    c.errors.push(SourceError::new(Severity::Note, NodeId(2), "unused variable"));
    let expected = "==== COMPILER ====\n\
        0: Name (4 to 5) \"x\"\n\
        1: Int (8 to 10) \"42\"\n\
        2: Let { variable_name: NodeId(0), initializer: NodeId(1), is_mutable: false } (0 to 10)\n\
        3: Call { parts: [NodeId(0), NodeId(1)] } (0 to 10)\n\
        4: If { condition: NodeId(1), then_block: NodeId(2), else_block: None } (0 to 10)\n\
        5: Block(BlockId(12)) (0 to 0)\n\
        ==== COMPILER ERRORS ====\n\
        Note (NodeId 2): unused variable\n";
    assert_eq!(c.display_state(), expected);
}

#[test]
fn display_state_matches_debug_format_of_nodes() {
    let nodes = vec![
        AstNode::BinaryOp { lhs: NodeId(0), op: NodeId(1), rhs: NodeId(2) },
        AstNode::Def { name: NodeId(3), params: NodeId(4), block: NodeId(5) },
        AstNode::Params(vec![]),
        AstNode::Params(vec![NodeId(7)]),
        AstNode::Return(None),
        AstNode::If { condition: NodeId(1), then_block: NodeId(2), else_block: Some(NodeId(3)) },
        AstNode::Let { variable_name: NodeId(10), initializer: NodeId(123), is_mutable: true },
        AstNode::Pipeline(compiler_store::syntax::PipelineId(0)),
        AstNode::GreaterThan,
    ];
    let mut c = Compiler::new();
    let mut expected = "==== COMPILER ====\n".to_string();
    for (i, n) in nodes.into_iter().enumerate() {
        expected.push_str(&format!("{}: {:?} (1 to 2)\n", i, n));
        c.push_node(n);
        c.spans.push(Span::new(1, 2));
    }
    assert_eq!(c.display_state(), expected);
}

#[test]
fn display_state_replaces_invalid_utf8_and_omits_empty_error_section() {
    let mut c = Compiler::new();
    c.add_file("bad", b"a\xffb");
    c.push_node(AstNode::String);
    c.spans.push(Span::new(0, 3));
    assert_eq!(c.display_state(), "==== COMPILER ====\n0: String (0 to 3) \"a\u{fffd}b\"\n");
    assert_eq!(Compiler::new().display_state(), "==== COMPILER ====\n");
}

#[test]
fn decimal_rendering() {
    assert_eq!(decimal_text(0), "0");
    assert_eq!(decimal_text(7), "7");
    assert_eq!(decimal_text(10), "10");
    assert_eq!(decimal_text(4096), "4096");
    assert_eq!(decimal_text(usize::MAX), usize::MAX.to_string());
}

#[test]
fn spanned_pairs_item_with_span() {
    let s = Spanned::new("x", Span::new(2, 3));
    assert_eq!(s.item, "x");
    assert_eq!(s.span, Span { start: 2, end: 3 });
}

#[test]
fn declarations_expose_their_names() {
    let d = Declaration::Alias { name: "ll".to_string(), expansion: "ls -l".to_string() };
    assert_eq!(d.name(), "ll");
    assert_eq!(d.signature(), "ls -l");
    let e = Declaration::External { name: "git".to_string(), signature: "git <args>".to_string() };
    assert_eq!(e.name(), "git");
    assert_eq!(e.signature(), "git <args>");
}
