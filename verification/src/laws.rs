//! The library's stated laws, proved against the spec model: determinism
//! of compilation, literal passthrough, failure on an unrecognized node
//! kind, the shape of a resolved conditional merge, and at-most-one
//! emission of every join node.

use vstd::prelude::*;
use crate::emit::join_sources_from;
use crate::emit::bump_counter;
use crate::emit::spec_emit;
use crate::emit::spec_emit_node;
use crate::emit::spec_merge_data_outs;
use crate::emit::spec_resolved_node;
use crate::emit::spec_resolve_opt_ports;
use crate::index::GraphIndexModel;
use crate::index::NodeKindModel;
use crate::index::spec_find_children;
use crate::index::spec_find_edges;
use crate::index::spec_find_node;
use crate::index::find_node_from;
use crate::emit::spec_merge_out;
use crate::emit::spec_merge_sources;
use crate::export::spec_export;
use crate::export::spec_fuel;
use crate::index::spec_build_index;
use crate::index::spec_index_edges;
use crate::index::spec_index_nodes;
use crate::index::JoinCounterModel;
use crate::index::counters_init;
use crate::index::edges_fold;
use crate::index::find_counter_from;
use crate::index::index_nodes_from;
use crate::index::spec_find_counter;
use crate::index::spec_index_node;
use crate::index::spec_node_kind;
use crate::index::spec_process_edge;
use crate::index::EdgeEntryModel;
use crate::index::IndexedNodeModel;
use crate::model::EdgeModel;
use crate::model::EditorNodeModel;
use crate::model::MergeOutModel;
use crate::model::PortDeclModel;
use crate::model::WorkflowModel;
use crate::output::ConstructModel;
use crate::output::DataInOrOutModel;
use crate::output::ExportError;
use crate::output::YamlModel;
use crate::model::IteratorModel;
use crate::resolve::spec_climb;
use crate::resolve::spec_find_iter;
use crate::resolve::spec_iter_element_type;
use crate::resolve::spec_literal_binding;
use crate::resolve::spec_resolve;

verus! {

/// How often constructs for the given node identity occur in a construct
/// tree, bodies and branches included.
pub open spec fn count_constructs(s: Seq<ConstructModel>, id: Seq<char>) -> nat
    decreases s,
{
    if s.len() == 0 {
        0
    } else {
        count_construct(s[0], id) + count_constructs(s.drop_first(), id)
    }
}

/// How often constructs for the given node identity occur in one
/// construct, itself and its children counted.
pub open spec fn count_construct(c: ConstructModel, id: Seq<char>) -> nat
    decreases c,
{
    match c {
        ConstructModel::AtomicFunction { node } => if node.id == id {
            1
        } else {
            0
        },
        ConstructModel::IfThenElse { node, then, or_else, .. } => (
        if node.id == id {
            1nat
        } else {
            0nat
        }) + count_constructs(then, id) + count_constructs(or_else, id),
        ConstructModel::ParallelFor { node, loop_body, .. } => (
        if node.id == id {
            1nat
        } else {
            0nat
        }) + count_constructs(loop_body, id),
        ConstructModel::SequentialWhile { node, loop_body, .. } => (
        if node.id == id {
            1nat
        } else {
            0nat
        }) + count_constructs(loop_body, id),
    }
}

/// Occurrence counting distributes over concatenation.
pub proof fn lemma_count_concat(a: Seq<ConstructModel>, b: Seq<ConstructModel>, id: Seq<char>)
    ensures
        count_constructs(a + b, id) == count_constructs(a, id) + count_constructs(b, id),
    decreases a.len(),
{
    if a.len() == 0 {
        assert(a + b =~= b);
    } else {
        assert((a + b).drop_first() =~= a.drop_first() + b);
        assert((a + b)[0] == a[0]);
        lemma_count_concat(a.drop_first(), b, id);
    }
}

/// The occurrences in a singleton list are the occurrences in its one
/// construct.
pub proof fn lemma_count_singleton(c: ConstructModel, id: Seq<char>)
    ensures
        count_constructs(seq![c], id) == count_construct(c, id),
{
    assert(seq![c].drop_first().len() == 0);
    assert(count_constructs(seq![c].drop_first(), id) == 0);
}

/// Law — determinism: the compilation result is a function of the graph
/// document alone, so equal documents compile to equal output trees; with
/// the compiler's contract, two runs on one input return equal values.
pub proof fn lemma_export_deterministic(w1: WorkflowModel, w2: WorkflowModel)
    requires
        w1 == w2,
    ensures
        spec_export(w1) == spec_export(w2),
{
}

/// Law — literal passthrough: a data port whose reference equals its own
/// owning node's identity resolves to its embedded literal value with its
/// declared type, and no upstream lookup can fail it.
pub proof fn lemma_literal_passthrough(
    d: PortDeclModel,
    node_id: Seq<char>,
    arena: Seq<IndexedNodeModel>,
)
    requires
        d.source == Some(node_id),
    ensures
        spec_resolve(d, node_id, arena) == Ok::<_, ExportError>(spec_literal_binding(d)),
{
}

/// Any node of unrecognized kind at position `i` or later makes arena
/// construction fail with the unknown-kind error, whatever else the list
/// holds.
proof fn lemma_index_nodes_unknown(nodes: Seq<EditorNodeModel>, k: int, i: int)
    requires
        0 <= k <= i < nodes.len(),
        spec_node_kind(nodes[i]) is None,
    ensures
        index_nodes_from(nodes, k) == Err::<Seq<IndexedNodeModel>, ExportError>(
            ExportError::UnknownNodeKind,
        ),
    decreases i - k,
{
    if k == i {
        assert(spec_index_node(nodes[k]) is None);
    } else {
        lemma_index_nodes_unknown(nodes, k + 1, i);
    }
}

/// Law — unknown-kind failure: a graph holding any node whose kind
/// discriminant is outside the recognized set compiles to the
/// unknown-kind error and to no output tree.
pub proof fn lemma_unknown_kind_fails(w: WorkflowModel, i: int)
    requires
        0 <= i < w.data.nodes.len(),
        spec_node_kind(w.data.nodes[i]) is None,
    ensures
        spec_export(w) == Err::<YamlModel, ExportError>(ExportError::UnknownNodeKind),
{
    lemma_index_nodes_unknown(w.data.nodes, 0, i);
}

/// Law — conditional merge: a declared merge output keeps its identity
/// and name, takes the first contributing resolved output's type (the
/// generic string type when none contributes), and joins the contributing
/// outputs' source references with commas, in branch output order.
pub proof fn lemma_conditional_merge(mo: MergeOutModel, outs: Seq<DataInOrOutModel>)
    ensures
        ({
            let b = spec_merge_out(mo, outs);
            let contributing = spec_merge_sources(outs, mo.sources);
            &&& b.id == mo.id
            &&& b.name == mo.name
            &&& b.typ == (if contributing.len() > 0 {
                contributing[0].typ
            } else {
                "string"@
            })
            &&& b.source == Some(join_sources_from(contributing, 0))
        }),
{
}

/// Whether a counter has recorded any emission: one once bumped, else
/// zero.
pub open spec fn cflag(c: JoinCounterModel) -> int {
    if c.count > 0 {
        1int
    } else {
        0int
    }
}

/// How one counter sequence may follow from another during emission: the
/// entries keep their places and identities, and counts never shrink.
pub open spec fn counters_evolve(a: Seq<JoinCounterModel>, b: Seq<JoinCounterModel>) -> bool {
    &&& b.len() == a.len()
    &&& forall|k: int|
        0 <= k < a.len() ==> (#[trigger] a[k]).id == b[k].id && a[k].count <= b[k].count
}

/// Counter lookup sees only identities, so it is stable under evolution.
proof fn lemma_find_counter_ids(
    a: Seq<JoinCounterModel>,
    b: Seq<JoinCounterModel>,
    id: Seq<char>,
    i: int,
)
    requires
        a.len() == b.len(),
        forall|k: int| 0 <= k < a.len() ==> (#[trigger] a[k]).id == b[k].id,
    ensures
        find_counter_from(a, id, i) == find_counter_from(b, id, i),
    decreases a.len() - i,
{
    if i < 0 || i >= a.len() {
    } else {
        lemma_find_counter_ids(a, b, id, i + 1);
    }
}

/// A successful counter lookup names a position holding the identity.
proof fn lemma_find_counter_props(c: Seq<JoinCounterModel>, id: Seq<char>, i: int)
    ensures
        match find_counter_from(c, id, i) {
            Some(j) => 0 <= j < c.len() && c[j].id == id,
            None => true,
        },
    decreases c.len() - i,
{
    if i < 0 || i >= c.len() {
    } else if c[i].id == id {
    } else {
        lemma_find_counter_props(c, id, i + 1);
    }
}


/// A successful arena lookup returns a node carrying the identity.
proof fn lemma_find_node_props(s: Seq<IndexedNodeModel>, id: Seq<char>, i: int)
    ensures
        match find_node_from(s, id, i) {
            Some(n) => n.id == id,
            None => true,
        },
    decreases s.len() - i,
{
    if i < 0 || i >= s.len() {
    } else if s[i].id == id {
    } else {
        lemma_find_node_props(s, id, i + 1);
    }
}

/// Counter evolution composes.
proof fn lemma_evolve_trans(
    a: Seq<JoinCounterModel>,
    b: Seq<JoinCounterModel>,
    c: Seq<JoinCounterModel>,
)
    requires
        counters_evolve(a, b),
        counters_evolve(b, c),
    ensures
        counters_evolve(a, c),
{
    assert forall|k: int|
        0 <= k < a.len() implies (#[trigger] a[k]).id == c[k].id && a[k].count <= c[k].count by {
        assert(a[k].id == b[k].id);
        assert(b[k].id == c[k].id);
        assert(a[k].count <= b[k].count);
        assert(b[k].count <= c[k].count);
    }
}

/// Occurrences of a tracked join node in what the kind dispatch emits:
/// at most one for the node itself, plus whatever its recursion records
/// in the tracked counter.
proof fn lemma_emit_node_count(
    ix: GraphIndexModel,
    node: IndexedNodeModel,
    ins: Option<Seq<DataInOrOutModel>>,
    outs: Option<Seq<DataInOrOutModel>>,
    counters: Seq<JoinCounterModel>,
    fuel: nat,
    j: int,
)
    requires
        0 <= j < counters.len(),
        spec_find_counter(counters, counters[j].id) == Some(j),
    ensures
        match spec_emit_node(ix, node, ins, outs, counters, fuel) {
            Ok(p) => counters_evolve(counters, p.1) && count_constructs(p.0, counters[j].id) <= (
            if node.id == counters[j].id {
                1int
            } else {
                0int
            }) + cflag(p.1[j]) - cflag(counters[j]),
            Err(_) => true,
        },
    decreases fuel, 0int, 0int,
{
    let tid = counters[j].id;
    match node.kind {
        NodeKindModel::Atomic => {
            let c = ConstructModel::AtomicFunction { node: spec_resolved_node(node, ins, outs) };
            lemma_count_singleton(c, tid);
        },
        NodeKindModel::StartOrEnd => {
        },
        NodeKindModel::IfThenElse { condition, if_data_outs } => {
            if fuel == 0 {
            } else {
                let then_r = match spec_find_edges(ix.edges, node.id + "true"@) {
                    Some(entry) => spec_emit(
                        ix,
                        entry.targets,
                        0,
                        counters,
                        node.parent_id,
                        (fuel - 1) as nat,
                    ),
                    None => Ok((Seq::empty(), counters)),
                };
                match spec_find_edges(ix.edges, node.id + "true"@) {
                    Some(entry) => {
                        lemma_emit_count(
                            ix,
                            entry.targets,
                            0,
                            counters,
                            node.parent_id,
                            (fuel - 1) as nat,
                            j,
                        );
                    },
                    None => {},
                }
                match then_r {
                    Err(_) => {},
                    Ok(then_p) => {
                        assert(counters_evolve(counters, then_p.1));
                        assert(then_p.1[j].id == tid);
                        lemma_find_counter_ids(counters, then_p.1, tid, 0);
                        let else_r = match spec_find_edges(ix.edges, node.id + "false"@) {
                            Some(entry) => spec_emit(
                                ix,
                                entry.targets,
                                0,
                                then_p.1,
                                node.parent_id,
                                (fuel - 1) as nat,
                            ),
                            None => Ok((Seq::empty(), then_p.1)),
                        };
                        match spec_find_edges(ix.edges, node.id + "false"@) {
                            Some(entry) => {
                                lemma_emit_count(
                                    ix,
                                    entry.targets,
                                    0,
                                    then_p.1,
                                    node.parent_id,
                                    (fuel - 1) as nat,
                                    j,
                                );
                            },
                            None => {},
                        }
                        match else_r {
                            Err(_) => {},
                            Ok(else_p) => {
                                let merged = spec_merge_data_outs(if_data_outs, outs);
                                let c = ConstructModel::IfThenElse {
                                    node: spec_resolved_node(node, ins, merged),
                                    condition,
                                    then: then_p.0,
                                    or_else: else_p.0,
                                };
                                lemma_count_singleton(c, tid);
                            },
                        }
                    },
                }
            }
        },
        NodeKindModel::ParallelFor { iterators, .. } => {
            match spec_find_children(ix.children, node.id) {
                None => {},
                Some(entry) => {
                    if fuel == 0 {
                    } else {
                        lemma_emit_count(
                            ix,
                            entry.children,
                            0,
                            counters,
                            node.parent_id,
                            (fuel - 1) as nat,
                            j,
                        );
                        match spec_emit(
                            ix,
                            entry.children,
                            0,
                            counters,
                            node.parent_id,
                            (fuel - 1) as nat,
                        ) {
                            Err(_) => {},
                            Ok(body_p) => {
                                let c = ConstructModel::ParallelFor {
                                    node: spec_resolved_node(node, ins, outs),
                                    iterators,
                                    loop_body: body_p.0,
                                };
                                lemma_count_singleton(c, tid);
                            },
                        }
                    }
                },
            }
        },
        NodeKindModel::SequentialWhile { condition } => {
            match spec_find_children(ix.children, node.id) {
                None => {},
                Some(entry) => {
                    if fuel == 0 {
                    } else {
                        lemma_emit_count(
                            ix,
                            entry.children,
                            0,
                            counters,
                            node.parent_id,
                            (fuel - 1) as nat,
                            j,
                        );
                        match spec_emit(
                            ix,
                            entry.children,
                            0,
                            counters,
                            node.parent_id,
                            (fuel - 1) as nat,
                        ) {
                            Err(_) => {},
                            Ok(body_p) => {
                                let c = ConstructModel::SequentialWhile {
                                    node: spec_resolved_node(node, ins, outs),
                                    condition,
                                    loop_body: body_p.0,
                                };
                                lemma_count_singleton(c, tid);
                            },
                        }
                    }
                },
            }
        },
    }
}

/// Occurrences of a tracked join node in a worklist emission: whatever
/// its counter records; a counter already positive admits none.
proof fn lemma_emit_count(
    ix: GraphIndexModel,
    worklist: Seq<Seq<char>>,
    i: int,
    counters: Seq<JoinCounterModel>,
    parent: Option<Seq<char>>,
    fuel: nat,
    j: int,
)
    requires
        0 <= j < counters.len(),
        spec_find_counter(counters, counters[j].id) == Some(j),
    ensures
        match spec_emit(ix, worklist, i, counters, parent, fuel) {
            Ok(p) => counters_evolve(counters, p.1) && count_constructs(p.0, counters[j].id)
                + cflag(counters[j]) <= cflag(p.1[j]),
            Err(_) => true,
        },
    decreases fuel, 1int, worklist.len() - i,
{
    let tid = counters[j].id;
    if i < 0 || i >= worklist.len() {
    } else {
        match spec_find_node(ix.arena, worklist[i]) {
            None => {
                lemma_emit_count(ix, worklist, i + 1, counters, parent, fuel, j);
            },
            Some(node) => {
                let guard = spec_find_counter(counters, worklist[i]);
                let skip = match guard {
                    Some(jj) => counters[jj].count > 0 || node.parent_id != parent,
                    None => false,
                };
                if skip {
                    lemma_emit_count(ix, worklist, i + 1, counters, parent, fuel, j);
                } else {
                    let counters1 = match guard {
                        Some(jj) => bump_counter(counters, jj),
                        None => counters,
                    };
                    match guard {
                        Some(jj) => {
                            lemma_find_counter_props(counters, worklist[i], 0);
                            assert(counters[jj].id == worklist[i]);
                            assert(counters_evolve(counters, counters1));
                        },
                        None => {
                            assert(counters_evolve(counters, counters1));
                        },
                    }
                    lemma_find_counter_ids(counters, counters1, tid, 0);
                    assert(counters1[j].id == tid);
                    lemma_find_node_props(ix.arena, worklist[i], 0);
                    assert(node.id == worklist[i]);
                    if node.id == tid {
                        assert(guard == Some(j));
                        assert(counters[j].count == 0);
                        assert(counters1 == bump_counter(counters, j));
                        assert(counters1[j].count == 1);
                        assert(cflag(counters[j]) == 0 && cflag(counters1[j]) == 1);
                    } else {
                        match guard {
                            Some(jj) => {
                                lemma_find_counter_props(counters, worklist[i], 0);
                                assert(counters[jj].id == node.id);
                                assert(jj != j);
                                assert(counters1[j] == counters[j]);
                            },
                            None => {},
                        }
                    }
                    match spec_resolve_opt_ports(node.data_ins, node.id, ix.arena) {
                        Err(_) => {},
                        Ok(ins) => {
                            match spec_resolve_opt_ports(node.data_outs, node.id, ix.arena) {
                                Err(_) => {},
                                Ok(outs) => {
                                    lemma_emit_node_count(ix, node, ins, outs, counters1, fuel, j);
                                    match spec_emit_node(ix, node, ins, outs, counters1, fuel) {
                                        Err(_) => {},
                                        Ok(here_p) => {
                                            lemma_find_counter_ids(counters1, here_p.1, tid, 0);
                                            assert(here_p.1[j].id == tid);
                                            let cont_r = match spec_find_edges(
                                                ix.edges,
                                                worklist[i],
                                            ) {
                                                Some(entry) => {
                                                    if fuel == 0 {
                                                        Err(ExportError::CyclicNesting)
                                                    } else {
                                                        spec_emit(
                                                            ix,
                                                            entry.targets,
                                                            0,
                                                            here_p.1,
                                                            node.parent_id,
                                                            (fuel - 1) as nat,
                                                        )
                                                    }
                                                },
                                                None => Ok((Seq::empty(), here_p.1)),
                                            };
                                            match spec_find_edges(ix.edges, worklist[i]) {
                                                Some(entry) => {
                                                    if fuel == 0 {
                                                    } else {
                                                        lemma_emit_count(
                                                            ix,
                                                            entry.targets,
                                                            0,
                                                            here_p.1,
                                                            node.parent_id,
                                                            (fuel - 1) as nat,
                                                            j,
                                                        );
                                                    }
                                                },
                                                None => {},
                                            }
                                            match cont_r {
                                                Err(_) => {},
                                                Ok(cont_p) => {
                                                    lemma_find_counter_ids(
                                                        here_p.1,
                                                        cont_p.1,
                                                        tid,
                                                        0,
                                                    );
                                                    assert(cont_p.1[j].id == tid);
                                                    lemma_emit_count(
                                                        ix,
                                                        worklist,
                                                        i + 1,
                                                        cont_p.1,
                                                        parent,
                                                        fuel,
                                                        j,
                                                    );
                                                    match spec_emit(
                                                        ix,
                                                        worklist,
                                                        i + 1,
                                                        cont_p.1,
                                                        parent,
                                                        fuel,
                                                    ) {
                                                        Err(_) => {},
                                                        Ok(rest_p) => {
                                                            lemma_count_concat(
                                                                here_p.0,
                                                                cont_p.0,
                                                                tid,
                                                            );
                                                            lemma_count_concat(
                                                                here_p.0 + cont_p.0,
                                                                rest_p.0,
                                                                tid,
                                                            );
                                                            lemma_evolve_trans(
                                                                counters,
                                                                counters1,
                                                                here_p.1,
                                                            );
                                                            lemma_evolve_trans(
                                                                counters,
                                                                here_p.1,
                                                                cont_p.1,
                                                            );
                                                            lemma_evolve_trans(
                                                                counters,
                                                                cont_p.1,
                                                                rest_p.1,
                                                            );
                                                        },
                                                    }
                                                },
                                            }
                                        },
                                    }
                                },
                            }
                        },
                    }
                }
            },
        }
    }
}

/// A counter entry created for an identity starts at zero and starts no
/// other entry.
proof fn lemma_counters_init_zero(c: Seq<JoinCounterModel>, id: Seq<char>)
    requires
        forall|k: int| 0 <= k < c.len() ==> (#[trigger] c[k]).count == 0,
    ensures
        ({
            let r = counters_init(c, id);
            forall|k: int| 0 <= k < r.len() ==> (#[trigger] r[k]).count == 0
        }),
{
    let r = counters_init(c, id);
    match spec_find_counter(c, id) {
        Some(_) => {},
        None => {
            assert forall|k: int| 0 <= k < r.len() implies (#[trigger] r[k]).count == 0 by {
                if k < c.len() {
                    assert(r[k] == c[k]);
                } else {
                    assert(r[k].count == 0);
                }
            }
        },
    }
}

/// Every join counter the indexer hands the emitter stands at zero.
proof fn lemma_edges_fold_zero(
    arena: Seq<IndexedNodeModel>,
    edges: Seq<EdgeModel>,
    i: int,
    entries: Seq<EdgeEntryModel>,
    counters: Seq<JoinCounterModel>,
)
    requires
        forall|k: int| 0 <= k < counters.len() ==> (#[trigger] counters[k]).count == 0,
    ensures
        ({
            let r = edges_fold(arena, edges, i, entries, counters).1;
            forall|k: int| 0 <= k < r.len() ==> (#[trigger] r[k]).count == 0
        }),
    decreases edges.len() - i,
{
    if i < 0 || i >= edges.len() {
    } else {
        let step = spec_process_edge(arena, entries, counters, edges[i]);
        lemma_counters_init_zero(counters, edges[i].target);
        assert(step.1 == counters || step.1 == counters_init(counters, edges[i].target));
        assert(forall|k: int| 0 <= k < step.1.len() ==> (#[trigger] step.1[k]).count == 0);
        lemma_edges_fold_zero(arena, edges, i + 1, step.0, step.1);
        assert(edges_fold(arena, edges, i, entries, counters) == edges_fold(
            arena,
            edges,
            i + 1,
            step.0,
            step.1,
        ));
    }
}

/// Law — at-most-one emission: a node that is the target of any control
/// edge carries a join counter, and such a node appears at most once in
/// the compiled workflow tree, however many control-flow paths converge
/// on it.
pub proof fn lemma_at_most_one_emission(w: WorkflowModel, id: Seq<char>)
    requires
        spec_export(w) is Ok,
        spec_build_index(w.data.nodes, w.data.edges) is Ok,
        spec_find_counter(spec_build_index(w.data.nodes, w.data.edges)->Ok_0.1, id) is Some,
    ensures
        count_constructs(spec_export(w)->Ok_0.workflow_body, id) <= 1,
{
    let built = spec_build_index(w.data.nodes, w.data.edges)->Ok_0;
    let ix = built.0;
    let counters = built.1;
    let j = spec_find_counter(counters, id)->Some_0;
    lemma_find_counter_props(counters, id, 0);
    assert(0 <= j < counters.len() && counters[j].id == id);
    let arena = spec_index_nodes(w.data.nodes)->Ok_0;
    assert(counters == spec_index_edges(arena, w.data.edges).1);
    lemma_edges_fold_zero(arena, w.data.edges, 0, Seq::empty(), Seq::empty());
    assert(counters[j].count == 0);
    let worklist = match spec_find_edges(ix.edges, "0"@) {
        Some(entry) => entry.targets,
        None => Seq::empty(),
    };
    let fuel = spec_fuel(w.data.nodes.len(), w.data.edges.len());
    lemma_emit_count(ix, worklist, 0, counters, None, fuel, j);
    match spec_emit(ix, worklist, 0, counters, None, fuel) {
        Ok(p) => {
            assert(count_constructs(p.0, id) + cflag(counters[j]) <= cflag(p.1[j]));
            assert(cflag(p.1[j]) <= 1);
        },
        Err(_) => {
            assert(false);
        },
    }
}

/// Law — iterator typing: where the bound name is one of a parallel-for's
/// iteration variables and that variable declares an element type, the
/// binding carries that element type, never the generic collection type.
pub proof fn lemma_iterator_typing(
    iterators: Seq<Seq<char>>,
    internal_iterators: Seq<IteratorModel>,
    name: Seq<char>,
    t: Seq<char>,
)
    requires
        iterators.contains(name),
        spec_find_iter(internal_iterators, name) is Some,
        spec_find_iter(internal_iterators, name)->Some_0.element_type == Some(t),
    ensures
        spec_iter_element_type(iterators, internal_iterators, name) == t,
{
}

/// Law — scope climbing: a successful climb lands exactly on a scope
/// boundary — a node with no parent, a child of the consuming node
/// itself, or a node sharing the consuming node's parent — never on an
/// intermediate scope.
pub proof fn lemma_climb_stops_at_boundary(
    start: IndexedNodeModel,
    node_id: Seq<char>,
    current_parent: Option<Seq<char>>,
    arena: Seq<IndexedNodeModel>,
    fuel: nat,
)
    requires
        spec_climb(start, node_id, current_parent, arena, fuel) is Ok,
    ensures
        ({
            let n = spec_climb(start, node_id, current_parent, arena, fuel)->Ok_0;
            ||| n.parent_id is None
            ||| n.parent_id == Some(node_id)
            ||| n.parent_id == current_parent
        }),
    decreases fuel,
{
    if start.parent_id is None || start.parent_id == Some(node_id) || start.parent_id
        == current_parent {
    } else if fuel == 0 {
    } else {
        match spec_find_node(arena, start.parent_id->Some_0) {
            None => {},
            Some(p) => {
                lemma_climb_stops_at_boundary(p, node_id, current_parent, arena, (fuel - 1) as nat);
            },
        }
    }
}

} // verus!
