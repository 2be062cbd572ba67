//! The compiler's shared store: arenas of spans, nodes, blocks and
//! diagnostics, checkpoints for speculative parsing, and the merge of
//! analysis-pass bundles.
use crate::errors::{severity_text, SourceError};
use crate::render::{decimal, decimal_text};
use crate::resolver::{DeclId, Declaration, Frame, NameBindings, ScopeId, VarId, Variable};
use crate::span::Span;
use crate::syntax::{is_literal_kind, AstNode, Block, NodeId, Pipeline};
use crate::text::{decimal_i64, lossy_utf8, parse_i64, utf8_lossy, utf8_str};
use crate::typechecker::{TypeId, Types};
use std::collections::HashMap;
use vstd::prelude::*;
use vstd::slice::slice_subrange;
use vstd::string::{StringExecFns, StringSliceAdditionalSpecFns};
use vstd::utf8::{decode_utf8, encode_utf8_decode_utf8, valid_utf8};

verus! {

broadcast use vstd::std_specs::hash::group_hash_axioms;

/// Lengths of the speculative arenas and the caller's token position,
/// captured before a speculative parse.
pub struct RollbackPoint {
    idx_span_start: usize,
    idx_nodes: usize,
    idx_errors: usize,
    idx_blocks: usize,
    token_pos: usize,
}

/// What a `RollbackPoint` records.
pub ghost struct Checkpoint {
    pub spans: nat,
    pub nodes: nat,
    pub errors: nat,
    pub blocks: nat,
    pub token_pos: usize,
}

impl View for RollbackPoint {
    type V = Checkpoint;

    closed spec fn view(&self) -> Checkpoint {
        Checkpoint {
            spans: self.idx_span_start as nat,
            nodes: self.idx_nodes as nat,
            errors: self.idx_errors as nat,
            blocks: self.idx_blocks as nat,
            token_pos: self.token_pos,
        }
    }
}

/// The store's state as mathematical values.
pub ghost struct CompilerView {
    pub spans: Seq<Span>,
    pub nodes: Seq<AstNode>,
    pub node_types: Seq<TypeId>,
    pub blocks: Seq<Block>,
    pub pipelines: Seq<Pipeline>,
    pub source: Seq<u8>,
    /// Per ingested file: its name and its byte range `[start, end)`.
    pub files: Seq<(Seq<char>, usize, usize)>,
    pub scope: Seq<Frame>,
    pub scope_stack: Seq<ScopeId>,
    pub variables: Seq<Variable>,
    pub var_resolution: Map<usize, VarId>,
    pub decls: Seq<Declaration>,
    pub decl_resolution: Map<usize, DeclId>,
    pub errors: Seq<SourceError>,
}

/// `s` cut back to `n` items; unchanged when it is not longer than that.
pub open spec fn truncated<T>(s: Seq<T>, n: nat) -> Seq<T> {
    if n <= s.len() {
        s.take(n as int)
    } else {
        s
    }
}

/// Scope handles of a bundle, moved up by `offset`.
pub open spec fn shifted_scopes(ids: Seq<ScopeId>, offset: nat) -> Seq<ScopeId> {
    ids.map_values(|s: ScopeId| ScopeId((s.0 + offset) as usize))
}

/// `m` with each entry of `entries` added in order (a later entry for the
/// same node wins), its variable handle moved up by `offset`.
pub open spec fn with_var_entries(
    m: Map<usize, VarId>,
    entries: Seq<(NodeId, VarId)>,
    offset: nat,
) -> Map<usize, VarId>
    decreases entries.len(),
{
    if entries.len() == 0 {
        m
    } else {
        with_var_entries(m, entries.drop_last(), offset).insert(
            entries.last().0.0,
            VarId((entries.last().1.0 + offset) as usize),
        )
    }
}

/// `m` with each entry of `entries` added in order (a later entry for the
/// same node wins), its declaration handle moved up by `offset`.
pub open spec fn with_decl_entries(
    m: Map<usize, DeclId>,
    entries: Seq<(NodeId, DeclId)>,
    offset: nat,
) -> Map<usize, DeclId>
    decreases entries.len(),
{
    if entries.len() == 0 {
        m
    } else {
        with_decl_entries(m, entries.drop_last(), offset).insert(
            entries.last().0.0,
            DeclId((entries.last().1.0 + offset) as usize),
        )
    }
}

/// Line of the debug dump for a diagnostic.
pub open spec fn error_line(e: SourceError) -> Seq<char> {
    severity_text(e.severity) + " (NodeId "@ + decimal(e.node_id.0 as nat) + "): "@ + e.message@
        + "\n"@
}

/// Lines of the debug dump for each diagnostic of `errs`, in order.
pub open spec fn errors_text(errs: Seq<SourceError>) -> Seq<char>
    decreases errs.len(),
{
    if errs.len() == 0 {
        Seq::empty()
    } else {
        errors_text(errs.drop_last()) + error_line(errs.last())
    }
}

impl CompilerView {
    /// The state of a store that holds nothing yet.
    pub open spec fn empty() -> Self {
        CompilerView {
            spans: Seq::empty(),
            nodes: Seq::empty(),
            node_types: Seq::empty(),
            blocks: Seq::empty(),
            pipelines: Seq::empty(),
            source: Seq::empty(),
            files: Seq::empty(),
            scope: Seq::empty(),
            scope_stack: Seq::empty(),
            variables: Seq::empty(),
            var_resolution: Map::empty(),
            decls: Seq::empty(),
            decl_resolution: Map::empty(),
            errors: Seq::empty(),
        }
    }

    /// After ingesting file `name` with bytes `bytes`.
    pub open spec fn with_file(self, name: Seq<char>, bytes: Seq<u8>) -> Self {
        CompilerView {
            files: self.files.push(
                (name, self.source.len() as usize, (self.source.len() + bytes.len()) as usize),
            ),
            source: self.source + bytes,
            ..self
        }
    }

    /// After appending one node.
    pub open spec fn with_node(self, n: AstNode) -> Self {
        CompilerView { nodes: self.nodes.push(n), ..self }
    }

    /// After appending each of `ns` in turn.
    pub open spec fn with_nodes(self, ns: Seq<AstNode>) -> Self
        decreases ns.len(),
    {
        if ns.len() == 0 {
            self
        } else {
            self.with_nodes(ns.drop_last()).with_node(ns.last())
        }
    }

    /// After folding in a name-resolution bundle.
    pub open spec fn with_name_bindings(self, nb: NameBindings) -> Self {
        CompilerView {
            scope: self.scope + nb.scope@,
            scope_stack: self.scope_stack + shifted_scopes(nb.scope_stack@, self.scope.len()),
            variables: self.variables + nb.variables@,
            var_resolution: with_var_entries(
                self.var_resolution,
                nb.var_resolution@,
                self.variables.len(),
            ),
            decls: self.decls + nb.decls@,
            decl_resolution: with_decl_entries(
                self.decl_resolution,
                nb.decl_resolution@,
                self.decls.len(),
            ),
            errors: self.errors + nb.errors@,
            ..self
        }
    }

    /// After folding in a type-checking bundle.
    pub open spec fn with_types(self, t: Types) -> Self {
        CompilerView {
            node_types: self.node_types + t.node_types@,
            errors: self.errors + t.errors@,
            ..self
        }
    }

    /// What a checkpoint taken now, at token position `token_pos`, records.
    pub open spec fn checkpoint(self, token_pos: usize) -> Checkpoint {
        Checkpoint {
            spans: self.spans.len(),
            nodes: self.nodes.len(),
            errors: self.errors.len(),
            blocks: self.blocks.len(),
            token_pos,
        }
    }

    /// After discarding what was appended to the speculative arenas since `cp`.
    pub open spec fn rolled_back(self, cp: Checkpoint) -> Self {
        CompilerView {
            spans: truncated(self.spans, cp.spans),
            nodes: truncated(self.nodes, cp.nodes),
            errors: truncated(self.errors, cp.errors),
            blocks: truncated(self.blocks, cp.blocks),
            ..self
        }
    }

    /// Line of the debug dump for node `i`: index, kind, span bounds, and
    /// for a leaf literal its source text.
    pub open spec fn node_line(self, i: int) -> Seq<char> {
        let sp = self.spans[i];
        decimal(i as nat) + ": "@ + self.nodes[i].kind_spec() + " ("@ + decimal(sp.start as nat)
            + " to "@ + decimal(sp.end as nat) + ")"@ + (if is_literal_kind(self.nodes[i]) {
            " \""@ + lossy_utf8(self.span_bytes(i)) + "\""@
        } else {
            Seq::empty()
        }) + "\n"@
    }

    /// Lines of the debug dump for the first `k` nodes.
    pub open spec fn nodes_text(self, k: nat) -> Seq<char>
        decreases k,
    {
        if k == 0 {
            Seq::empty()
        } else {
            self.nodes_text((k - 1) as nat) + self.node_line(k - 1)
        }
    }

    /// The debug dump: a header, a line per node, then, if there are any
    /// diagnostics, a second header and a line per diagnostic.
    pub open spec fn display(self) -> Seq<char> {
        "==== COMPILER ====\n"@ + self.nodes_text(self.nodes.len()) + if self.errors.len() == 0 {
            Seq::empty()
        } else {
            "==== COMPILER ERRORS ====\n"@ + errors_text(self.errors)
        }
    }

    /// Every node has a span, and each leaf literal's span lies within the
    /// source, so the debug dump can be made.
    pub open spec fn displayable(self) -> bool {
        &&& self.nodes.len() <= self.spans.len()
        &&& forall|i: int|
            0 <= i < self.nodes.len() && is_literal_kind(#[trigger] self.nodes[i])
                ==> self.has_valid_span(i)
    }

    /// Each speculative arena of `earlier` is a prefix of the same arena here:
    /// this state arose from `earlier` by appends alone.
    pub open spec fn extends(self, earlier: Self) -> bool {
        &&& earlier.spans.is_prefix_of(self.spans)
        &&& earlier.nodes.is_prefix_of(self.nodes)
        &&& earlier.errors.is_prefix_of(self.errors)
        &&& earlier.blocks.is_prefix_of(self.blocks)
    }

    /// The bytes the span of node `i` covers.
    pub open spec fn span_bytes(self, i: int) -> Seq<u8> {
        self.source.subrange(self.spans[i].start as int, self.spans[i].end as int)
    }

    /// Node `i` has a span, and it lies within the source.
    pub open spec fn has_valid_span(self, i: int) -> bool {
        &&& 0 <= i < self.spans.len()
        &&& self.spans[i].start <= self.spans[i].end <= self.source.len()
    }
}

/// The shared store of a compiler run. Every arena is append-only, except
/// that a rollback cuts the speculative ones back to a checkpoint.
pub struct Compiler {
    /// Span of each node, indexed by `NodeId`.
    pub spans: Vec<Span>,
    /// Syntax nodes, indexed by `NodeId`.
    pub ast_nodes: Vec<AstNode>,
    /// Inferred types of the leading nodes, indexed by `NodeId`.
    pub node_types: Vec<TypeId>,
    /// Blocks, indexed by `BlockId`.
    pub blocks: Vec<Block>,
    /// Pipelines, indexed by `PipelineId`.
    pub pipelines: Vec<Pipeline>,
    /// The bytes of every ingested file, in ingestion order.
    pub source: Vec<u8>,
    /// Name, start and end of each ingested file within `source`.
    pub file_offsets: Vec<(String, usize, usize)>,
    /// All scope frames ever entered, indexed by `ScopeId`.
    pub scope: Vec<Frame>,
    /// Stack of currently entered scope frames.
    pub scope_stack: Vec<ScopeId>,
    /// Variables, indexed by `VarId`.
    pub variables: Vec<Variable>,
    /// Variable that each name node (by its index) refers to.
    pub var_resolution: HashMap<usize, VarId>,
    /// Declarations (commands, aliases, externals), indexed by `DeclId`.
    pub decls: Vec<Declaration>,
    /// Declaration that each name node (by its index) refers to.
    pub decl_resolution: HashMap<usize, DeclId>,
    /// Diagnostics, in the order they were recorded.
    pub errors: Vec<SourceError>,
}

/// Name, start and end of a file entry.
pub open spec fn file_entry_view(e: (String, usize, usize)) -> (Seq<char>, usize, usize) {
    (e.0@, e.1, e.2)
}

impl View for Compiler {
    type V = CompilerView;

    open spec fn view(&self) -> CompilerView {
        CompilerView {
            spans: self.spans@,
            nodes: self.ast_nodes@,
            node_types: self.node_types@,
            blocks: self.blocks@,
            pipelines: self.pipelines@,
            source: self.source@,
            files: self.file_offsets@.map_values(|e: (String, usize, usize)| file_entry_view(e)),
            scope: self.scope@,
            scope_stack: self.scope_stack@,
            variables: self.variables@,
            var_resolution: self.var_resolution@,
            decls: self.decls@,
            decl_resolution: self.decl_resolution@,
            errors: self.errors@,
        }
    }
}

impl Default for Compiler {
    fn default() -> (r: Self)
        ensures
            r@ == CompilerView::empty(),
    {
        Self::new()
    }
}

impl Compiler {
    /// A store that holds nothing yet.
    pub fn new() -> (r: Self)
        ensures
            r@ == CompilerView::empty(),
    {
        let r = Self {
            spans: Vec::new(),
            ast_nodes: Vec::new(),
            node_types: Vec::new(),
            blocks: Vec::new(),
            pipelines: Vec::new(),
            source: Vec::new(),
            file_offsets: Vec::new(),
            scope: Vec::new(),
            scope_stack: Vec::new(),
            variables: Vec::new(),
            var_resolution: HashMap::new(),
            decls: Vec::new(),
            decl_resolution: HashMap::new(),
            errors: Vec::new(),
        };
        proof {
            assert(r@.files =~= Seq::<(Seq<char>, usize, usize)>::empty());
            assert(r@ =~= CompilerView::empty());
        }
        r
    }

    /// Appends the bytes of file `fname` to the source, recording the range
    /// they occupy.
    pub fn add_file(&mut self, fname: &str, contents: &[u8])
        requires
            old(self)@.source.len() + contents@.len() <= usize::MAX,
        ensures
            final(self)@ == old(self)@.with_file(fname@, contents@),
    {
        let span_offset = self.source.len();
        let name = String::from_str(fname);
        self.file_offsets.push((name, span_offset, span_offset + contents.len()));
        self.source.extend_from_slice(contents);
        proof {
            assert(self@.source =~= old(self)@.source + contents@);
            assert(self@.files =~= old(self)@.files.push(
                (fname@, span_offset, (span_offset + contents@.len()) as usize)));
            assert(self@ =~= old(self)@.with_file(fname@, contents@));
        }
    }

    /// Length of the source so far: where the next file's bytes will start.
    pub fn span_offset(&self) -> (r: usize)
        ensures
            r == self@.source.len(),
    {
        self.source.len()
    }

    /// The node with handle `node_id`.
    pub fn get_node(&self, node_id: NodeId) -> (r: &AstNode)
        requires
            node_id.0 < self@.nodes.len(),
        ensures
            *r == self@.nodes[node_id.0 as int],
    {
        &self.ast_nodes[node_id.0]
    }

    /// The node with handle `node_id`, to be changed in place.
    pub fn get_node_mut(&mut self, node_id: NodeId) -> (r: &mut AstNode)
        requires
            node_id.0 < old(self)@.nodes.len(),
        ensures
            *r == old(self)@.nodes[node_id.0 as int],
            final(self)@ == (CompilerView {
                nodes: old(self)@.nodes.update(node_id.0 as int, *final(r)),
                ..old(self)@
            }),
    {
        &mut self.ast_nodes[node_id.0]
    }

    /// Appends a node; its handle is the number of nodes before it.
    pub fn push_node(&mut self, ast_node: AstNode) -> (r: NodeId)
        ensures
            r.0 == old(self)@.nodes.len(),
            final(self)@ == old(self)@.with_node(ast_node),
    {
        self.ast_nodes.push(ast_node);
        NodeId(self.ast_nodes.len() - 1)
    }

    /// Records the lengths of the speculative arenas, and `token_pos`, so
    /// that a failed speculative parse can be undone.
    pub fn get_rollback_point(&self, token_pos: usize) -> (r: RollbackPoint)
        ensures
            r@ == self@.checkpoint(token_pos),
    {
        RollbackPoint {
            idx_span_start: self.spans.len(),
            idx_nodes: self.ast_nodes.len(),
            idx_errors: self.errors.len(),
            idx_blocks: self.blocks.len(),
            token_pos,
        }
    }

    /// Discards every span, node, diagnostic and block appended since `rbp`
    /// was taken, and returns the token position it recorded.
    pub fn apply_compiler_rollback(&mut self, rbp: RollbackPoint) -> (r: usize)
        ensures
            final(self)@ == old(self)@.rolled_back(rbp@),
            r == rbp@.token_pos,
    {
        self.blocks.truncate(rbp.idx_blocks);
        self.ast_nodes.truncate(rbp.idx_nodes);
        self.errors.truncate(rbp.idx_errors);
        self.spans.truncate(rbp.idx_span_start);
        proof {
            assert(self@ =~= old(self)@.rolled_back(rbp@));
        }
        rbp.token_pos
    }

    /// Span of node `node_id`.
    pub fn get_span(&self, node_id: NodeId) -> (r: Span)
        requires
            node_id.0 < self@.spans.len(),
        ensures
            r == self@.spans[node_id.0 as int],
    {
        self.spans[node_id.0]
    }

    /// The source bytes that node `node_id`'s span covers.
    pub fn get_span_contents(&self, node_id: NodeId) -> (r: &[u8])
        requires
            self@.has_valid_span(node_id.0 as int),
        ensures
            r@ == self@.span_bytes(node_id.0 as int),
            r@.len() == self@.spans[node_id.0 as int].end - self@.spans[node_id.0 as int].start,
    {
        let span = self.get_span(node_id);
        slice_subrange(self.source.as_slice(), span.start, span.end)
    }

    /// The source bytes in `[span_start, span_end)`.
    pub fn get_span_contents_manual(&self, span_start: usize, span_end: usize) -> (r: &[u8])
        requires
            span_start <= span_end <= self@.source.len(),
        ensures
            r@ == self@.source.subrange(span_start as int, span_end as int),
    {
        slice_subrange(self.source.as_slice(), span_start, span_end)
    }

    /// The text of node `node_id`'s span.
    pub fn node_as_str(&self, node_id: NodeId) -> (r: &str)
        requires
            self@.has_valid_span(node_id.0 as int),
            valid_utf8(self@.span_bytes(node_id.0 as int)),
        ensures
            r.spec_bytes() == self@.span_bytes(node_id.0 as int),
            r@ == decode_utf8(self@.span_bytes(node_id.0 as int)),
    {
        let bytes = self.get_span_contents(node_id);
        let s = utf8_str(bytes).unwrap();
        proof {
            encode_utf8_decode_utf8(s@);
        }
        s
    }

    /// The integer that node `node_id`'s span spells in base 10.
    pub fn node_as_i64(&self, node_id: NodeId) -> (r: i64)
        requires
            self@.has_valid_span(node_id.0 as int),
            valid_utf8(self@.span_bytes(node_id.0 as int)),
            decimal_i64(decode_utf8(self@.span_bytes(node_id.0 as int))) is Some,
        ensures
            Some(r) == decimal_i64(decode_utf8(self@.span_bytes(node_id.0 as int))),
    {
        let s = self.node_as_str(node_id);
        parse_i64(s).unwrap()
    }

    /// The debug dump of the store: a header line, then per node
    /// `<index>: <kind> (<start> to <end>)`, followed for a leaf literal by its
    /// source text in quotes; then, if there are diagnostics, a second header
    /// and per diagnostic `<severity> (NodeId <id>): <message>`.
    pub fn display_state(&self) -> (r: String)
        requires
            self@.displayable(),
        ensures
            r@ == self@.display(),
    {
        let mut result = String::from_str("==== COMPILER ====\n");
        let mut idx: usize = 0;
        while idx < self.ast_nodes.len()
            invariant
                self@.displayable(),
                idx <= self@.nodes.len(),
                result@ == "==== COMPILER ====\n"@ + self@.nodes_text(idx as nat),
            decreases self@.nodes.len() - idx,
        {
            let line = self.node_line(idx);
            result.append(line.as_str());
            idx = idx + 1;
        }
        if self.errors.len() > 0 {
            result.append("==== COMPILER ERRORS ====\n");
            let ghost before = result@;
            let mut i: usize = 0;
            while i < self.errors.len()
                invariant
                    i <= self@.errors.len(),
                    result@ == before + errors_text(self@.errors.take(i as int)),
                decreases self@.errors.len() - i,
            {
                let error = &self.errors[i];
                result.append(error.severity.name());
                result.append(" (NodeId ");
                result.append(decimal_text(error.node_id.0).as_str());
                result.append("): ");
                result.append(error.message.as_str());
                result.append("\n");
                proof {
                    assert(self@.errors.take(i + 1).drop_last() =~= self@.errors.take(i as int));
                }
                i = i + 1;
            }
            proof {
                assert(self@.errors.take(i as int) =~= self@.errors);
            }
        }
        result
    }

    /// Line of the debug dump for node `idx`.
    fn node_line(&self, idx: usize) -> (r: String)
        requires
            self@.displayable(),
            idx < self@.nodes.len(),
        ensures
            r@ == self@.node_line(idx as int),
    {
        let ast_node = &self.ast_nodes[idx];
        let span = self.spans[idx];
        let mut line = decimal_text(idx);
        line.append(": ");
        line.append(ast_node.kind_text().as_str());
        line.append(" (");
        line.append(decimal_text(span.start).as_str());
        line.append(" to ");
        line.append(decimal_text(span.end).as_str());
        line.append(")");
        if ast_node.is_literal() {
            line.append(" \"");
            line.append(utf8_lossy(self.get_span_contents(NodeId(idx))).as_str());
            line.append("\"");
        }
        line.append("\n");
        line
    }

    /// Folds a name-resolution bundle into the store. The bundle's sequences
    /// are appended, and the scope, variable and declaration handles it holds
    /// are moved up by the number of entries the store had before, so that
    /// they keep naming the same entities.
    pub fn merge_name_bindings(&mut self, name_bindings: NameBindings)
        requires
            name_bindings.wf(),
            old(self)@.scope.len() + name_bindings.scope@.len() <= usize::MAX,
            old(self)@.variables.len() + name_bindings.variables@.len() <= usize::MAX,
            old(self)@.decls.len() + name_bindings.decls@.len() <= usize::MAX,
        ensures
            final(self)@ == old(self)@.with_name_bindings(name_bindings),
    {
        let mut name_bindings = name_bindings;
        let ghost nb = name_bindings;
        let scope_offset = self.scope.len();
        let var_offset = self.variables.len();
        let decl_offset = self.decls.len();

        let mut i: usize = 0;
        while i < name_bindings.scope_stack.len()
            invariant
                name_bindings == nb,
                nb.wf(),
                scope_offset == old(self)@.scope.len(),
                scope_offset + nb.scope@.len() <= usize::MAX,
                i <= nb.scope_stack@.len(),
                self@ == (CompilerView {
                    scope_stack: old(self)@.scope_stack + shifted_scopes(
                        nb.scope_stack@.take(i as int),
                        scope_offset as nat,
                    ),
                    ..old(self)@
                }),
            decreases nb.scope_stack@.len() - i,
        {
            let s = name_bindings.scope_stack[i];
            self.scope_stack.push(ScopeId(s.0 + scope_offset));
            proof {
                assert(shifted_scopes(nb.scope_stack@.take(i + 1), scope_offset as nat)
                    =~= shifted_scopes(nb.scope_stack@.take(i as int), scope_offset as nat).push(
                    ScopeId((s.0 + scope_offset) as usize)));
            }
            i = i + 1;
        }
        proof {
            assert(nb.scope_stack@.take(i as int) =~= nb.scope_stack@);
        }
        let ghost after_stack = self@;

        let mut i: usize = 0;
        while i < name_bindings.var_resolution.len()
            invariant
                name_bindings == nb,
                nb.wf(),
                var_offset == old(self)@.variables.len(),
                var_offset + nb.variables@.len() <= usize::MAX,
                i <= nb.var_resolution@.len(),
                self@ == (CompilerView {
                    var_resolution: with_var_entries(
                        old(self)@.var_resolution,
                        nb.var_resolution@.take(i as int),
                        var_offset as nat,
                    ),
                    ..after_stack
                }),
            decreases nb.var_resolution@.len() - i,
        {
            let (n, v) = name_bindings.var_resolution[i];
            self.var_resolution.insert(n.0, VarId(v.0 + var_offset));
            proof {
                assert(nb.var_resolution@.take(i + 1).drop_last() =~= nb.var_resolution@.take(
                    i as int,
                ));
            }
            i = i + 1;
        }
        proof {
            assert(nb.var_resolution@.take(i as int) =~= nb.var_resolution@);
        }
        let ghost after_vars = self@;

        let mut i: usize = 0;
        while i < name_bindings.decl_resolution.len()
            invariant
                name_bindings == nb,
                nb.wf(),
                decl_offset == old(self)@.decls.len(),
                decl_offset + nb.decls@.len() <= usize::MAX,
                i <= nb.decl_resolution@.len(),
                self@ == (CompilerView {
                    decl_resolution: with_decl_entries(
                        old(self)@.decl_resolution,
                        nb.decl_resolution@.take(i as int),
                        decl_offset as nat,
                    ),
                    ..after_vars
                }),
            decreases nb.decl_resolution@.len() - i,
        {
            let (n, d) = name_bindings.decl_resolution[i];
            self.decl_resolution.insert(n.0, DeclId(d.0 + decl_offset));
            proof {
                assert(nb.decl_resolution@.take(i + 1).drop_last() =~= nb.decl_resolution@.take(
                    i as int,
                ));
            }
            i = i + 1;
        }
        proof {
            assert(nb.decl_resolution@.take(i as int) =~= nb.decl_resolution@);
        }

        self.scope.append(&mut name_bindings.scope);
        self.variables.append(&mut name_bindings.variables);
        self.decls.append(&mut name_bindings.decls);
        self.errors.append(&mut name_bindings.errors);
        proof {
            assert(self@ =~= old(self)@.with_name_bindings(nb));
        }
    }

    /// Folds a type-checking bundle into the store: its types and its
    /// diagnostics are appended.
    pub fn merge_types(&mut self, types: Types)
        ensures
            final(self)@ == old(self)@.with_types(types),
    {
        let mut types = types;
        let ghost t = types;
        self.node_types.append(&mut types.node_types);
        self.errors.append(&mut types.errors);
        proof {
            assert(self@ =~= old(self)@.with_types(t));
        }
    }
}

} // verus!
