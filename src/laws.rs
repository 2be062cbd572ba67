//! Properties that hold across several operations of the store, stated over
//! the same views that the operations' own contracts use.
use crate::compiler::{shifted_scopes, with_decl_entries, with_var_entries, CompilerView};
use crate::resolver::{DeclId, NameBindings, VarId};
use crate::syntax::{AstNode, NodeId};
use crate::typechecker::Types;
use vstd::prelude::*;

verus! {

/// Successive node pushes hand out consecutive handles: the push made after
/// the first `i` of `ns` receives the handle `len + i`, where `len` is the
/// node count before them (zero for a new store).
pub proof fn lemma_node_ids_consecutive(c: CompilerView, ns: Seq<AstNode>)
    ensures
        forall|i: int|
            0 <= i <= ns.len() ==> #[trigger] c.with_nodes(ns.take(i)).nodes.len() == c.nodes.len()
                + i,
        c.with_nodes(ns).nodes == c.nodes + ns,
    decreases ns.len(),
{
    if ns.len() > 0 {
        lemma_node_ids_consecutive(c, ns.drop_last());
        assert forall|i: int| 0 <= i <= ns.len() implies #[trigger] c.with_nodes(
            ns.take(i),
        ).nodes.len() == c.nodes.len() + i by {
            if i < ns.len() {
                assert(ns.take(i) =~= ns.drop_last().take(i));
            } else {
                assert(ns.take(i) =~= ns);
            }
        }
    }
    assert(c.with_nodes(ns).nodes =~= c.nodes + ns);
}

/// Every operation of the store that adds to the speculative arenas only
/// appends to them.
pub proof fn lemma_operations_extend(
    c: CompilerView,
    n: AstNode,
    name: Seq<char>,
    bytes: Seq<u8>,
    nb: NameBindings,
    t: Types,
)
    ensures
        c.extends(c),
        c.with_node(n).extends(c),
        c.with_file(name, bytes).extends(c),
        c.with_name_bindings(nb).extends(c),
        c.with_types(t).extends(c),
{
    assert(c.nodes.is_prefix_of(c.with_node(n).nodes));
    assert(c.errors.is_prefix_of(c.with_name_bindings(nb).errors));
    assert(c.errors.is_prefix_of(c.with_types(t).errors));
}

/// Appending in several steps is appending.
pub proof fn lemma_extends_transitive(a: CompilerView, b: CompilerView, c: CompilerView)
    requires
        b.extends(a),
        c.extends(b),
    ensures
        c.extends(a),
{
    assert(a.spans.is_prefix_of(c.spans));
    assert(a.nodes.is_prefix_of(c.nodes));
    assert(a.errors.is_prefix_of(c.errors));
    assert(a.blocks.is_prefix_of(c.blocks));
}

/// Rolling back to a checkpoint after any appends restores the spans, nodes,
/// diagnostics and blocks to exactly what they were when it was taken, hands
/// back the token position it was given, and so makes the next node handle
/// the node count it captured.
pub proof fn lemma_rollback_restores(c: CompilerView, later: CompilerView, token_pos: usize)
    requires
        later.extends(c),
    ensures
        later.rolled_back(c.checkpoint(token_pos)).spans == c.spans,
        later.rolled_back(c.checkpoint(token_pos)).nodes == c.nodes,
        later.rolled_back(c.checkpoint(token_pos)).errors == c.errors,
        later.rolled_back(c.checkpoint(token_pos)).blocks == c.blocks,
        c.checkpoint(token_pos).token_pos == token_pos,
        later.rolled_back(c.checkpoint(token_pos)).nodes.len() == c.checkpoint(token_pos).nodes,
{
    let r = later.rolled_back(c.checkpoint(token_pos));
    assert(r.spans =~= c.spans);
    assert(r.nodes =~= c.nodes);
    assert(r.errors =~= c.errors);
    assert(r.blocks =~= c.blocks);
}

/// Ingesting two files places them back to back, in call order: the first
/// at `[len, len + |b|)` and the second at `[len + |b|, len + |b| + |d|)`,
/// where `len` is the source length before them (zero for a new store); the
/// source gains `b` followed by `d`.
pub proof fn lemma_file_offsets(c: CompilerView, a: Seq<char>, b: Seq<u8>, e: Seq<char>, d: Seq<u8>)
    requires
        c.source.len() + b.len() + d.len() <= usize::MAX,
    ensures
        c.with_file(a, b).with_file(e, d).files == c.files.push(
            (a, c.source.len() as usize, (c.source.len() + b.len()) as usize),
        ).push((e, (c.source.len() + b.len()) as usize, (c.source.len() + b.len() + d.len()) as usize)),
        c.with_file(a, b).with_file(e, d).source == c.source + b + d,
{
    assert(c.with_file(a, b).with_file(e, d).source =~= c.source + b + d);
}

/// Merging two name-resolution bundles appends both, in merge order: nothing
/// is deduplicated, so merging equal bundles twice holds their entries twice.
pub proof fn lemma_name_merges_cumulative(c: CompilerView, nb1: NameBindings, nb2: NameBindings)
    ensures
        c.with_name_bindings(nb1).with_name_bindings(nb2).scope == c.scope + nb1.scope@
            + nb2.scope@,
        c.with_name_bindings(nb1).with_name_bindings(nb2).variables == c.variables
            + nb1.variables@ + nb2.variables@,
        c.with_name_bindings(nb1).with_name_bindings(nb2).decls == c.decls + nb1.decls@
            + nb2.decls@,
        c.with_name_bindings(nb1).with_name_bindings(nb2).errors == c.errors + nb1.errors@
            + nb2.errors@,
        c.with_name_bindings(nb1).with_name_bindings(nb2).scope_stack.len()
            == c.scope_stack.len() + nb1.scope_stack@.len() + nb2.scope_stack@.len(),
{
}

/// Merging two type-checking bundles appends both, in merge order, without
/// deduplication.
pub proof fn lemma_type_merges_cumulative(c: CompilerView, t1: Types, t2: Types)
    ensures
        c.with_types(t1).with_types(t2).node_types == c.node_types + t1.node_types@
            + t2.node_types@,
        c.with_types(t1).with_types(t2).errors == c.errors + t1.errors@ + t2.errors@,
{
}

/// Diagnostics keep the order in which they were recorded, across merges of
/// either kind.
pub proof fn lemma_diagnostics_in_order(c: CompilerView, nb: NameBindings, t: Types)
    ensures
        c.with_name_bindings(nb).with_types(t).errors == c.errors + nb.errors@ + t.errors@,
        c.with_types(t).with_name_bindings(nb).errors == c.errors + t.errors@ + nb.errors@,
{
}

/// Each entry of `with_var_entries(m, entries, offset)` is either one of
/// `m` or comes from an entry of `entries`, moved up by `offset`.
pub proof fn lemma_var_entries_origin(m: Map<usize, VarId>, entries: Seq<(NodeId, VarId)>, offset: nat)
    ensures
        forall|k: usize| #[trigger]
            with_var_entries(m, entries, offset).contains_key(k) ==> (m.contains_key(k)
                && with_var_entries(m, entries, offset)[k] == m[k]) || exists|i: int|
                0 <= i < entries.len() && entries[i].0.0 == k && with_var_entries(
                    m,
                    entries,
                    offset,
                )[k] == VarId((entries[i].1.0 + offset) as usize),
    decreases entries.len(),
{
    if entries.len() > 0 {
        let rest = entries.drop_last();
        lemma_var_entries_origin(m, rest, offset);
        assert forall|k: usize| #[trigger]
            with_var_entries(m, entries, offset).contains_key(k) implies (m.contains_key(k)
                && with_var_entries(m, entries, offset)[k] == m[k]) || exists|i: int|
                0 <= i < entries.len() && entries[i].0.0 == k && with_var_entries(
                    m,
                    entries,
                    offset,
                )[k] == VarId((entries[i].1.0 + offset) as usize) by {
            if k != entries.last().0.0 {
                if !(m.contains_key(k) && with_var_entries(m, rest, offset)[k] == m[k]) {
                    let i = choose|i: int|
                        0 <= i < rest.len() && rest[i].0.0 == k && with_var_entries(
                            m,
                            rest,
                            offset,
                        )[k] == VarId((rest[i].1.0 + offset) as usize);
                    assert(entries[i] == rest[i]);
                }
            } else {
                assert(entries[entries.len() - 1] == entries.last());
            }
        }
    }
}

/// Each entry of `with_decl_entries(m, entries, offset)` is either one of
/// `m` or comes from an entry of `entries`, moved up by `offset`.
pub proof fn lemma_decl_entries_origin(m: Map<usize, DeclId>, entries: Seq<(NodeId, DeclId)>, offset: nat)
    ensures
        forall|k: usize| #[trigger]
            with_decl_entries(m, entries, offset).contains_key(k) ==> (m.contains_key(k)
                && with_decl_entries(m, entries, offset)[k] == m[k]) || exists|i: int|
                0 <= i < entries.len() && entries[i].0.0 == k && with_decl_entries(
                    m,
                    entries,
                    offset,
                )[k] == DeclId((entries[i].1.0 + offset) as usize),
    decreases entries.len(),
{
    if entries.len() > 0 {
        let rest = entries.drop_last();
        lemma_decl_entries_origin(m, rest, offset);
        assert forall|k: usize| #[trigger]
            with_decl_entries(m, entries, offset).contains_key(k) implies (m.contains_key(k)
                && with_decl_entries(m, entries, offset)[k] == m[k]) || exists|i: int|
                0 <= i < entries.len() && entries[i].0.0 == k && with_decl_entries(
                    m,
                    entries,
                    offset,
                )[k] == DeclId((entries[i].1.0 + offset) as usize) by {
            if k != entries.last().0.0 {
                if !(m.contains_key(k) && with_decl_entries(m, rest, offset)[k] == m[k]) {
                    let i = choose|i: int|
                        0 <= i < rest.len() && rest[i].0.0 == k && with_decl_entries(
                            m,
                            rest,
                            offset,
                        )[k] == DeclId((rest[i].1.0 + offset) as usize);
                    assert(entries[i] == rest[i]);
                }
            } else {
                assert(entries[entries.len() - 1] == entries.last());
            }
        }
    }
}

/// After a merge, every handle taken over from the bundle names, in the
/// store, the very entity it named within the bundle: each scope on the
/// bundle's stack, and the variable or declaration of each name occurrence
/// the bundle resolved. Resolutions the bundle did not touch are kept.
pub proof fn lemma_merge_keeps_referents(c: CompilerView, nb: NameBindings)
    requires
        nb.wf(),
        c.scope.len() + nb.scope@.len() <= usize::MAX,
        c.variables.len() + nb.variables@.len() <= usize::MAX,
        c.decls.len() + nb.decls@.len() <= usize::MAX,
    ensures
        forall|i: int|
            0 <= i < nb.scope_stack@.len() ==> #[trigger] c.with_name_bindings(nb).scope[c.with_name_bindings(
                nb,
            ).scope_stack[c.scope_stack.len() + i].0 as int] == nb.scope@[nb.scope_stack@[i].0 as int],
        forall|k: usize| #[trigger]
            c.with_name_bindings(nb).var_resolution.contains_key(k) ==> (c.var_resolution.contains_key(k)
                && c.with_name_bindings(nb).var_resolution[k] == c.var_resolution[k]) || exists|i: int|
                0 <= i < nb.var_resolution@.len() && nb.var_resolution@[i].0.0 == k
                    && c.with_name_bindings(nb).variables[c.with_name_bindings(nb).var_resolution[k].0 as int]
                    == nb.variables@[nb.var_resolution@[i].1.0 as int],
        forall|k: usize| #[trigger]
            c.with_name_bindings(nb).decl_resolution.contains_key(k) ==> (c.decl_resolution.contains_key(k)
                && c.with_name_bindings(nb).decl_resolution[k] == c.decl_resolution[k]) || exists|i: int|
                0 <= i < nb.decl_resolution@.len() && nb.decl_resolution@[i].0.0 == k
                    && c.with_name_bindings(nb).decls[c.with_name_bindings(nb).decl_resolution[k].0 as int]
                    == nb.decls@[nb.decl_resolution@[i].1.0 as int],
{
    let r = c.with_name_bindings(nb);
    lemma_var_entries_origin(c.var_resolution, nb.var_resolution@, c.variables.len());
    lemma_decl_entries_origin(c.decl_resolution, nb.decl_resolution@, c.decls.len());
    assert forall|i: int| 0 <= i < nb.scope_stack@.len() implies #[trigger] r.scope[r.scope_stack[c.scope_stack.len() + i].0 as int]
        == nb.scope@[nb.scope_stack@[i].0 as int] by {
        assert(r.scope_stack[c.scope_stack.len() + i] == shifted_scopes(nb.scope_stack@, c.scope.len())[i]);
    }
    assert forall|k: usize| #[trigger] r.var_resolution.contains_key(k) implies (c.var_resolution.contains_key(k)
        && r.var_resolution[k] == c.var_resolution[k]) || exists|i: int|
        0 <= i < nb.var_resolution@.len() && nb.var_resolution@[i].0.0 == k
            && r.variables[r.var_resolution[k].0 as int] == nb.variables@[nb.var_resolution@[i].1.0 as int] by {
        if !(c.var_resolution.contains_key(k) && r.var_resolution[k] == c.var_resolution[k]) {
            let i = choose|i: int|
                0 <= i < nb.var_resolution@.len() && nb.var_resolution@[i].0.0 == k && r.var_resolution[k]
                    == VarId((nb.var_resolution@[i].1.0 + c.variables.len()) as usize);
            assert(r.variables[r.var_resolution[k].0 as int] == nb.variables@[nb.var_resolution@[i].1.0 as int]);
        }
    }
    assert forall|k: usize| #[trigger] r.decl_resolution.contains_key(k) implies (c.decl_resolution.contains_key(k)
        && r.decl_resolution[k] == c.decl_resolution[k]) || exists|i: int|
        0 <= i < nb.decl_resolution@.len() && nb.decl_resolution@[i].0.0 == k
            && r.decls[r.decl_resolution[k].0 as int] == nb.decls@[nb.decl_resolution@[i].1.0 as int] by {
        if !(c.decl_resolution.contains_key(k) && r.decl_resolution[k] == c.decl_resolution[k]) {
            let i = choose|i: int|
                0 <= i < nb.decl_resolution@.len() && nb.decl_resolution@[i].0.0 == k && r.decl_resolution[k]
                    == DeclId((nb.decl_resolution@[i].1.0 + c.decls.len()) as usize);
            assert(r.decls[r.decl_resolution[k].0 as int] == nb.decls@[nb.decl_resolution@[i].1.0 as int]);
        }
    }
}

} // verus!
