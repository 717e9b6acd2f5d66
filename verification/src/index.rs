//! Graph Indexer: turns the raw node and edge lists into the lookup
//! structures the emitter and the resolver work over — a node arena keyed
//! by identity, a control-flow adjacency index with separate keys for
//! conditional branches, a nesting index from parent identity to the
//! ordered body nodes, and a join counter per edge target that guards
//! against duplicate emission.

use vstd::prelude::*;
use crate::model::Condition;
use crate::model::ConditionModel;
use crate::model::EditorNode;
use crate::model::EditorNodeModel;
use crate::model::Edge;
use crate::model::EdgeModel;
use crate::model::IfDataOut;
use crate::model::InternalDataInOrOut;
use crate::model::InternalIterator;
use crate::model::IteratorModel;
use crate::model::MergeOutModel;
use crate::model::PortDeclModel;
use crate::model::PropertyOrConstraint;
use crate::model::TagModel;
use crate::output::ExportError;
use crate::output::ResolvedCondition;
use crate::output::ResolvedConditionModel;
use crate::strutil::clone_iterators;
use crate::strutil::clone_opt_merge_outs;
use crate::strutil::clone_opt_ports;
use crate::strutil::clone_opt_string;
use crate::strutil::clone_opt_tags;
use crate::strutil::eq_str;
use crate::strutil::opt_or;
use crate::strutil::spec_starts_with;
use crate::strutil::starts_with_char;
use crate::strutil::concat2;
use crate::strutil::contains_string;
use crate::strutil::unwrap_or_str;

verus! {

/// The kind-specific part of an indexed node.
pub enum NodeKind {
    /// A plain unit of work; emitted directly.
    Atomic,
    /// A conditional with its branch conditions and its declared merge
    /// outputs.
    IfThenElse { condition: Vec<ResolvedCondition>, if_data_outs: Option<Vec<IfDataOut>> },
    /// A parallel loop with its iteration-variable names and their full
    /// declarations.
    ParallelFor { iterators: Vec<String>, internal_iterators: Vec<InternalIterator> },
    /// A sequential loop guarded by its conditions.
    SequentialWhile { condition: Vec<ResolvedCondition> },
    /// A start or end sentinel; bounds the traversal, never emitted.
    StartOrEnd,
}

/// Spec model of [`NodeKind`].
#[verifier::ext_equal]
pub enum NodeKindModel {
    Atomic,
    IfThenElse { condition: Seq<ResolvedConditionModel>, if_data_outs: Option<Seq<MergeOutModel>> },
    ParallelFor { iterators: Seq<Seq<char>>, internal_iterators: Seq<IteratorModel> },
    SequentialWhile { condition: Seq<ResolvedConditionModel> },
    StartOrEnd,
}

impl DeepView for NodeKind {
    type V = NodeKindModel;

    open spec fn deep_view(&self) -> NodeKindModel {
        match self {
            NodeKind::Atomic => NodeKindModel::Atomic,
            NodeKind::IfThenElse { condition, if_data_outs } => NodeKindModel::IfThenElse {
                condition: condition.deep_view(),
                if_data_outs: if_data_outs.deep_view(),
            },
            NodeKind::ParallelFor { iterators, internal_iterators } => NodeKindModel::ParallelFor {
                iterators: iterators.deep_view(),
                internal_iterators: internal_iterators.deep_view(),
            },
            NodeKind::SequentialWhile { condition } => NodeKindModel::SequentialWhile {
                condition: condition.deep_view(),
            },
            NodeKind::StartOrEnd => NodeKindModel::StartOrEnd,
        }
    }
}

/// One node of the arena: the raw declarations it keeps for resolution,
/// plus its classified kind.
pub struct IndexedNode {
    pub id: String,
    pub parent_id: Option<String>,
    pub name: String,
    pub typ: String,
    pub data_ins: Option<Vec<InternalDataInOrOut>>,
    pub data_outs: Option<Vec<InternalDataInOrOut>>,
    pub properties: Option<Vec<PropertyOrConstraint>>,
    pub constraints: Option<Vec<PropertyOrConstraint>>,
    pub kind: NodeKind,
}

/// Spec model of [`IndexedNode`].
#[verifier::ext_equal]
pub struct IndexedNodeModel {
    pub id: Seq<char>,
    pub parent_id: Option<Seq<char>>,
    pub name: Seq<char>,
    pub typ: Seq<char>,
    pub data_ins: Option<Seq<PortDeclModel>>,
    pub data_outs: Option<Seq<PortDeclModel>>,
    pub properties: Option<Seq<TagModel>>,
    pub constraints: Option<Seq<TagModel>>,
    pub kind: NodeKindModel,
}

impl DeepView for IndexedNode {
    type V = IndexedNodeModel;

    open spec fn deep_view(&self) -> IndexedNodeModel {
        IndexedNodeModel {
            id: self.id@,
            parent_id: self.parent_id.deep_view(),
            name: self.name@,
            typ: self.typ@,
            data_ins: self.data_ins.deep_view(),
            data_outs: self.data_outs.deep_view(),
            properties: self.properties.deep_view(),
            constraints: self.constraints.deep_view(),
            kind: self.kind.deep_view(),
        }
    }
}

/// One adjacency entry: the control-flow successors reached under a key —
/// a node identity, possibly extended by a branch discriminator.
pub struct EdgeEntry {
    pub key: String,
    pub targets: Vec<String>,
}

/// Spec model of [`EdgeEntry`].
#[verifier::ext_equal]
pub struct EdgeEntryModel {
    pub key: Seq<char>,
    pub targets: Seq<Seq<char>>,
}

impl DeepView for EdgeEntry {
    type V = EdgeEntryModel;

    open spec fn deep_view(&self) -> EdgeEntryModel {
        EdgeEntryModel { key: self.key@, targets: self.targets.deep_view() }
    }
}

/// One nesting entry: the ordered identities of the nodes declared inside
/// a parent's body.
pub struct ChildrenEntry {
    pub key: String,
    pub children: Vec<String>,
}

/// Spec model of [`ChildrenEntry`].
#[verifier::ext_equal]
pub struct ChildrenEntryModel {
    pub key: Seq<char>,
    pub children: Seq<Seq<char>>,
}

impl DeepView for ChildrenEntry {
    type V = ChildrenEntryModel;

    open spec fn deep_view(&self) -> ChildrenEntryModel {
        ChildrenEntryModel { key: self.key@, children: self.children.deep_view() }
    }
}

/// How often a join node has been emitted. Initialized to zero for every
/// edge target; the emitter bumps it on first emission and skips the node
/// ever after.
pub struct JoinCounter {
    pub id: String,
    pub count: usize,
}

/// Spec model of [`JoinCounter`].
#[verifier::ext_equal]
pub struct JoinCounterModel {
    pub id: Seq<char>,
    pub count: usize,
}

impl DeepView for JoinCounter {
    type V = JoinCounterModel;

    open spec fn deep_view(&self) -> JoinCounterModel {
        JoinCounterModel { id: self.id@, count: self.count }
    }
}

/// The derived lookup structures of one graph, fixed once built.
pub struct GraphIndex {
    pub arena: Vec<IndexedNode>,
    pub edges: Vec<EdgeEntry>,
    pub children: Vec<ChildrenEntry>,
}

/// Spec model of [`GraphIndex`].
#[verifier::ext_equal]
pub struct GraphIndexModel {
    pub arena: Seq<IndexedNodeModel>,
    pub edges: Seq<EdgeEntryModel>,
    pub children: Seq<ChildrenEntryModel>,
}

impl DeepView for GraphIndex {
    type V = GraphIndexModel;

    open spec fn deep_view(&self) -> GraphIndexModel {
        GraphIndexModel {
            arena: self.arena.deep_view(),
            edges: self.edges.deep_view(),
            children: self.children.deep_view(),
        }
    }
}

/// First node with the given identity, searching from position `i`.
pub open spec fn find_node_from(s: Seq<IndexedNodeModel>, id: Seq<char>, i: int) -> Option<
    IndexedNodeModel,
>
    decreases s.len() - i,
{
    if i < 0 || i >= s.len() {
        None
    } else if s[i].id == id {
        Some(s[i])
    } else {
        find_node_from(s, id, i + 1)
    }
}

/// The arena node with the given identity, if any.
pub open spec fn spec_find_node(s: Seq<IndexedNodeModel>, id: Seq<char>) -> Option<
    IndexedNodeModel,
> {
    find_node_from(s, id, 0)
}

/// Looks a node up by identity; the first hit settles it.
pub fn find_node<'a>(arena: &'a Vec<IndexedNode>, id: &String) -> (r: Option<&'a IndexedNode>)
    ensures
        match r {
            Some(n) => spec_find_node(arena.deep_view(), id@) == Some(n.deep_view()),
            None => spec_find_node(arena.deep_view(), id@) is None,
        },
{
    let mut i: usize = 0;
    while i < arena.len()
        invariant
            i <= arena.len(),
            spec_find_node(arena.deep_view(), id@) == find_node_from(
                arena.deep_view(),
                id@,
                i as int,
            ),
        decreases arena.len() - i,
    {
        if arena[i].id.eq(id) {
            assert(arena.deep_view()[i as int].id == id@);
            return Some(&arena[i]);
        }
        assert(arena.deep_view()[i as int].id != id@);
        i += 1;
    }
    None
}

/// First adjacency entry with the given key, searching from position `i`.
pub open spec fn find_edges_from(s: Seq<EdgeEntryModel>, key: Seq<char>, i: int) -> Option<
    EdgeEntryModel,
>
    decreases s.len() - i,
{
    if i < 0 || i >= s.len() {
        None
    } else if s[i].key == key {
        Some(s[i])
    } else {
        find_edges_from(s, key, i + 1)
    }
}

/// The successor list recorded under the given key, if any.
pub open spec fn spec_find_edges(s: Seq<EdgeEntryModel>, key: Seq<char>) -> Option<EdgeEntryModel> {
    find_edges_from(s, key, 0)
}

/// Looks an adjacency entry up by key.
pub fn find_edges<'a>(edges: &'a Vec<EdgeEntry>, key: &String) -> (r: Option<&'a EdgeEntry>)
    ensures
        match r {
            Some(e) => spec_find_edges(edges.deep_view(), key@) == Some(e.deep_view()),
            None => spec_find_edges(edges.deep_view(), key@) is None,
        },
{
    let mut i: usize = 0;
    while i < edges.len()
        invariant
            i <= edges.len(),
            spec_find_edges(edges.deep_view(), key@) == find_edges_from(
                edges.deep_view(),
                key@,
                i as int,
            ),
        decreases edges.len() - i,
    {
        if edges[i].key.eq(key) {
            assert(edges.deep_view()[i as int].key == key@);
            return Some(&edges[i]);
        }
        assert(edges.deep_view()[i as int].key != key@);
        i += 1;
    }
    None
}

/// First nesting entry with the given key, searching from position `i`.
pub open spec fn find_children_from(s: Seq<ChildrenEntryModel>, key: Seq<char>, i: int) -> Option<
    ChildrenEntryModel,
>
    decreases s.len() - i,
{
    if i < 0 || i >= s.len() {
        None
    } else if s[i].key == key {
        Some(s[i])
    } else {
        find_children_from(s, key, i + 1)
    }
}

/// The body list declared under the given parent identity, if any.
pub open spec fn spec_find_children(s: Seq<ChildrenEntryModel>, key: Seq<char>) -> Option<
    ChildrenEntryModel,
> {
    find_children_from(s, key, 0)
}

/// Looks a nesting entry up by parent identity.
pub fn find_children<'a>(children: &'a Vec<ChildrenEntry>, key: &String) -> (r: Option<
    &'a ChildrenEntry,
>)
    ensures
        match r {
            Some(e) => spec_find_children(children.deep_view(), key@) == Some(e.deep_view()),
            None => spec_find_children(children.deep_view(), key@) is None,
        },
{
    let mut i: usize = 0;
    while i < children.len()
        invariant
            i <= children.len(),
            spec_find_children(children.deep_view(), key@) == find_children_from(
                children.deep_view(),
                key@,
                i as int,
            ),
        decreases children.len() - i,
    {
        if children[i].key.eq(key) {
            assert(children.deep_view()[i as int].key == key@);
            return Some(&children[i]);
        }
        assert(children.deep_view()[i as int].key != key@);
        i += 1;
    }
    None
}

/// Position of the first counter for the given identity, searching from
/// `i`.
pub open spec fn find_counter_from(s: Seq<JoinCounterModel>, id: Seq<char>, i: int) -> Option<int>
    decreases s.len() - i,
{
    if i < 0 || i >= s.len() {
        None
    } else if s[i].id == id {
        Some(i)
    } else {
        find_counter_from(s, id, i + 1)
    }
}

/// Position of the counter kept for the given identity, if any.
pub open spec fn spec_find_counter(s: Seq<JoinCounterModel>, id: Seq<char>) -> Option<int> {
    find_counter_from(s, id, 0)
}

/// Looks a join counter up by node identity; returns its position.
pub fn find_counter(counters: &Vec<JoinCounter>, id: &String) -> (r: Option<usize>)
    ensures
        match r {
            Some(j) => spec_find_counter(counters.deep_view(), id@) == Some(j as int) && j
                < counters.len(),
            None => spec_find_counter(counters.deep_view(), id@) is None,
        },
{
    let mut i: usize = 0;
    while i < counters.len()
        invariant
            i <= counters.len(),
            spec_find_counter(counters.deep_view(), id@) == find_counter_from(
                counters.deep_view(),
                id@,
                i as int,
            ),
        decreases counters.len() - i,
    {
        if counters[i].id.eq(id) {
            assert(counters.deep_view()[i as int].id == id@);
            return Some(i);
        }
        assert(counters.deep_view()[i as int].id != id@);
        i += 1;
    }
    None
}

/// A condition with every optional field defaulted: type to `string`,
/// negation to `false`, combination to `or`.
pub open spec fn spec_resolve_condition(c: ConditionModel) -> ResolvedConditionModel {
    ResolvedConditionModel {
        data1: c.data1,
        data2: c.data2,
        typ: opt_or(c.typ, "string"@),
        operator: c.operator,
        negation: opt_or(c.negation, "false"@),
        combined_with: opt_or(c.combined_with, "or"@),
    }
}

/// The sequence an optional list stands for: its content, or empty.
pub open spec fn opt_seq<T>(o: Option<Seq<T>>) -> Seq<T> {
    match o {
        Some(s) => s,
        None => Seq::empty(),
    }
}

/// The declared conditions of a node, defaulted, in order; none means
/// an empty list.
pub open spec fn spec_conditions(o: Option<Seq<ConditionModel>>) -> Seq<ResolvedConditionModel> {
    opt_seq(o).map_values(|c: ConditionModel| spec_resolve_condition(c))
}

/// The iteration-variable names of a parallel-for, an unnamed variable
/// contributing an empty name.
pub open spec fn spec_iterator_names(o: Option<Seq<IteratorModel>>) -> Seq<Seq<char>> {
    opt_seq(o).map_values(|it: IteratorModel| opt_or(it.name, Seq::empty()))
}

/// Classifies a raw node by its kind discriminant; an unrecognized
/// discriminant yields nothing.
pub open spec fn spec_node_kind(n: EditorNodeModel) -> Option<NodeKindModel> {
    if n.typ == "function"@ {
        Some(NodeKindModel::Atomic)
    } else if n.typ == "start"@ || n.typ == "end"@ {
        Some(NodeKindModel::StartOrEnd)
    } else if n.typ == "if"@ {
        Some(
            NodeKindModel::IfThenElse {
                condition: spec_conditions(n.data.conditions),
                if_data_outs: n.data.if_data_outs,
            },
        )
    } else if n.typ == "parallel"@ {
        Some(
            NodeKindModel::ParallelFor {
                iterators: spec_iterator_names(n.data.iterators),
                internal_iterators: opt_seq(n.data.iterators),
            },
        )
    } else if n.typ == "while"@ {
        Some(NodeKindModel::SequentialWhile { condition: spec_conditions(n.data.conditions) })
    } else {
        None
    }
}

/// The arena form of one raw node, or nothing when its kind is
/// unrecognized.
pub open spec fn spec_index_node(n: EditorNodeModel) -> Option<IndexedNodeModel> {
    match spec_node_kind(n) {
        None => None,
        Some(kind) => Some(
            IndexedNodeModel {
                id: n.id,
                parent_id: n.parent_node,
                name: n.data.name,
                typ: n.data.function_type,
                data_ins: n.data.data_ins,
                data_outs: n.data.data_outs,
                properties: n.data.properties,
                constraints: n.data.constraints,
                kind,
            },
        ),
    }
}

/// The arena built from the nodes at positions `i` onward; fails on the
/// first unrecognized kind.
pub open spec fn index_nodes_from(nodes: Seq<EditorNodeModel>, i: int) -> Result<
    Seq<IndexedNodeModel>,
    ExportError,
>
    decreases nodes.len() - i,
{
    if i < 0 || i >= nodes.len() {
        Ok(Seq::empty())
    } else {
        match spec_index_node(nodes[i]) {
            None => Err(ExportError::UnknownNodeKind),
            Some(m) => match index_nodes_from(nodes, i + 1) {
                Err(e) => Err(e),
                Ok(rest) => Ok(seq![m] + rest),
            },
        }
    }
}

/// The whole arena, in node order.
pub open spec fn spec_index_nodes(nodes: Seq<EditorNodeModel>) -> Result<
    Seq<IndexedNodeModel>,
    ExportError,
> {
    index_nodes_from(nodes, 0)
}

/// An already-indexed prefix joined with the outcome for the remainder.
pub open spec fn combine_indexed(
    prefix: Seq<IndexedNodeModel>,
    r: Result<Seq<IndexedNodeModel>, ExportError>,
) -> Result<Seq<IndexedNodeModel>, ExportError> {
    match r {
        Ok(rest) => Ok(prefix + rest),
        Err(e) => Err(e),
    }
}

/// Defaults the optional fields of every declared condition.
fn make_conditions(o: &Option<Vec<Condition>>) -> (r: Vec<ResolvedCondition>)
    ensures
        r.deep_view() == spec_conditions(o.deep_view()),
{
    let mut out: Vec<ResolvedCondition> = Vec::new();
    match o {
        Some(v) => {
            let mut i: usize = 0;
            while i < v.len()
                invariant
                    i <= v.len(),
                    out.deep_view() =~= spec_conditions(Some(v.deep_view())).take(i as int),
                decreases v.len() - i,
            {
                let ghost prev = out.deep_view();
                let c = &v[i];
                out.push(
                    ResolvedCondition {
                        data1: c.data1.clone(),
                        data2: c.data2.clone(),
                        typ: unwrap_or_str(&c.typ, "string"),
                        operator: c.operator.clone(),
                        negation: unwrap_or_str(&c.negation, "false"),
                        combined_with: unwrap_or_str(&c.combined_with, "or"),
                    },
                );
                proof {
                    assert(out.deep_view() =~= prev.push(
                        spec_resolve_condition(v.deep_view()[i as int]),
                    ));
                }
                i += 1;
            }
            assert(out.deep_view() =~= spec_conditions(Some(v.deep_view())));
        },
        None => {
            assert(out.deep_view() =~= spec_conditions(None));
        },
    }
    out
}

/// Collects the declared iteration-variable names, defaulting a missing
/// name to empty.
fn make_iterator_names(o: &Option<Vec<InternalIterator>>) -> (r: Vec<String>)
    ensures
        r.deep_view() == spec_iterator_names(o.deep_view()),
{
    let mut out: Vec<String> = Vec::new();
    match o {
        Some(v) => {
            let mut i: usize = 0;
            while i < v.len()
                invariant
                    i <= v.len(),
                    out.deep_view() =~= spec_iterator_names(Some(v.deep_view())).take(i as int),
                decreases v.len() - i,
            {
                let ghost prev = out.deep_view();
                out.push(unwrap_or_str(&v[i].name, ""));
                proof {
                    reveal_strlit("");
                    assert(""@ =~= Seq::<char>::empty());
                    assert(out.deep_view() =~= prev.push(
                        opt_or(v.deep_view()[i as int].name, Seq::empty()),
                    ));
                }
                i += 1;
            }
            assert(out.deep_view() =~= spec_iterator_names(Some(v.deep_view())));
        },
        None => {
            assert(out.deep_view() =~= spec_iterator_names(None));
        },
    }
    out
}

/// Classifies one raw node, copying what its kind carries.
fn make_kind(n: &EditorNode) -> (r: Result<NodeKind, ExportError>)
    ensures
        match r {
            Ok(k) => spec_node_kind(n.deep_view()) == Some(k.deep_view()),
            Err(e) => spec_node_kind(n.deep_view()) is None && e == ExportError::UnknownNodeKind,
        },
{
    if eq_str(&n.typ, "function") {
        Ok(NodeKind::Atomic)
    } else if eq_str(&n.typ, "start") || eq_str(&n.typ, "end") {
        Ok(NodeKind::StartOrEnd)
    } else if eq_str(&n.typ, "if") {
        Ok(
            NodeKind::IfThenElse {
                condition: make_conditions(&n.data.conditions),
                if_data_outs: clone_opt_merge_outs(&n.data.if_data_outs),
            },
        )
    } else if eq_str(&n.typ, "parallel") {
        let internal_iterators = match &n.data.iterators {
            Some(v) => clone_iterators(v),
            None => Vec::new(),
        };
        proof {
            assert(internal_iterators.deep_view() =~= opt_seq(n.data.iterators.deep_view()));
        }
        Ok(
            NodeKind::ParallelFor {
                iterators: make_iterator_names(&n.data.iterators),
                internal_iterators,
            },
        )
    } else if eq_str(&n.typ, "while") {
        Ok(NodeKind::SequentialWhile { condition: make_conditions(&n.data.conditions) })
    } else {
        Err(ExportError::UnknownNodeKind)
    }
}

/// Builds the node arena in input order; the first node of unrecognized
/// kind aborts the compilation.
pub fn index_nodes(nodes: &Vec<EditorNode>) -> (r: Result<Vec<IndexedNode>, ExportError>)
    ensures
        match r {
            Ok(arena) => spec_index_nodes(nodes.deep_view()) == Ok::<_, ExportError>(
                arena.deep_view(),
            ),
            Err(e) => spec_index_nodes(nodes.deep_view()) == Err::<Seq<IndexedNodeModel>, _>(e),
        },
{
    let ghost ndeep = nodes.deep_view();
    let mut arena: Vec<IndexedNode> = Vec::new();
    let mut i: usize = 0;
    while i < nodes.len()
        invariant
            i <= nodes.len(),
            ndeep == nodes.deep_view(),
            spec_index_nodes(ndeep) == combine_indexed(
                arena.deep_view(),
                index_nodes_from(ndeep, i as int),
            ),
        decreases nodes.len() - i,
    {
        let n = &nodes[i];
        let kind = match make_kind(n) {
            Ok(k) => k,
            Err(e) => {
                return Err(e);
            },
        };
        let ghost prev = arena.deep_view();
        arena.push(
            IndexedNode {
                id: n.id.clone(),
                parent_id: clone_opt_string(&n.parent_node),
                name: n.data.name.clone(),
                typ: n.data.function_type.clone(),
                data_ins: clone_opt_ports(&n.data.data_ins),
                data_outs: clone_opt_ports(&n.data.data_outs),
                properties: clone_opt_tags(&n.data.properties),
                constraints: clone_opt_tags(&n.data.constraints),
                kind,
            },
        );
        proof {
            let m = spec_index_node(ndeep[i as int])->Some_0;
            assert(arena.deep_view() =~= prev.push(m));
            match index_nodes_from(ndeep, i as int + 1) {
                Ok(rest) => {
                    assert(prev + (seq![m] + rest) =~= prev.push(m) + rest);
                },
                Err(_) => {},
            }
        }
        i += 1;
    }
    proof {
        assert(arena.deep_view() + Seq::<IndexedNodeModel>::empty() =~= arena.deep_view());
    }
    Ok(arena)
}

/// Appends a child identity under a parent key, creating the entry at the
/// end on first use; search runs from position `j`.
pub open spec fn add_child_from(
    entries: Seq<ChildrenEntryModel>,
    parent: Seq<char>,
    child: Seq<char>,
    j: int,
) -> Seq<ChildrenEntryModel>
    decreases entries.len() - j,
{
    if j < 0 || j >= entries.len() {
        entries + seq![ChildrenEntryModel { key: parent, children: seq![child] }]
    } else if entries[j].key == parent {
        entries.update(
            j,
            ChildrenEntryModel { key: entries[j].key, children: entries[j].children.push(child) },
        )
    } else {
        add_child_from(entries, parent, child, j + 1)
    }
}

/// Appends a child identity under a parent key.
pub open spec fn spec_add_child(
    entries: Seq<ChildrenEntryModel>,
    parent: Seq<char>,
    child: Seq<char>,
) -> Seq<ChildrenEntryModel> {
    add_child_from(entries, parent, child, 0)
}

/// The nesting index accumulated over the nodes at positions `i` onward.
pub open spec fn children_fold(
    nodes: Seq<EditorNodeModel>,
    i: int,
    acc: Seq<ChildrenEntryModel>,
) -> Seq<ChildrenEntryModel>
    decreases nodes.len() - i,
{
    if i < 0 || i >= nodes.len() {
        acc
    } else {
        let acc2 = match nodes[i].parent_node {
            Some(p) => spec_add_child(acc, p, nodes[i].id),
            None => acc,
        };
        children_fold(nodes, i + 1, acc2)
    }
}

/// The whole nesting index, parents keyed in order of first appearance,
/// children kept in node order.
pub open spec fn spec_children(nodes: Seq<EditorNodeModel>) -> Seq<ChildrenEntryModel> {
    children_fold(nodes, 0, Seq::empty())
}

/// Records one node under its declared parent.
fn add_child(entries: &mut Vec<ChildrenEntry>, parent: &String, child: &String)
    ensures
        final(entries).deep_view() == spec_add_child(old(entries).deep_view(), parent@, child@),
{
    let ghost orig = old(entries).deep_view();
    proof {
        assert(entries.deep_view() =~~= orig);
    }
    let mut j: usize = 0;
    while j < entries.len()
        invariant
            j <= entries.len(),
            orig == old(entries).deep_view(),
            entries.deep_view() == orig,
            spec_add_child(orig, parent@, child@) == add_child_from(orig, parent@, child@, j as int),
        decreases entries.len() - j,
    {
        if entries[j].key.eq(parent) {
            assert(orig[j as int].key == parent@);
            let ghost prev_targets = entries[j as int].children.deep_view();
            entries[j].children.push(child.clone());
            proof {
                assert(entries[j as int].children.deep_view() =~= prev_targets.push(child@));
                assert(entries.deep_view() =~~= orig.update(
                    j as int,
                    ChildrenEntryModel {
                        key: orig[j as int].key,
                        children: orig[j as int].children.push(child@),
                    },
                ));
                assert(spec_add_child(orig, parent@, child@) == orig.update(
                    j as int,
                    ChildrenEntryModel {
                        key: orig[j as int].key,
                        children: orig[j as int].children.push(child@),
                    },
                ));
            }
            return;
        }
        assert(orig[j as int].key != parent@);
        j += 1;
    }
    let ghost prev = entries.deep_view();
    entries.push(ChildrenEntry { key: parent.clone(), children: vec![child.clone()] });
    proof {
        assert(entries.deep_view() =~~= prev + seq![
            ChildrenEntryModel { key: parent@, children: seq![child@] },
        ]);
    }
}

/// Builds the nesting index: for every node that declares a parent, its
/// identity is appended to that parent's body list, in input order.
pub fn build_children(nodes: &Vec<EditorNode>) -> (r: Vec<ChildrenEntry>)
    ensures
        r.deep_view() == spec_children(nodes.deep_view()),
{
    let ghost ndeep = nodes.deep_view();
    let mut out: Vec<ChildrenEntry> = Vec::new();
    proof {
        assert(out.deep_view() =~= Seq::<ChildrenEntryModel>::empty());
    }
    let mut i: usize = 0;
    while i < nodes.len()
        invariant
            i <= nodes.len(),
            ndeep == nodes.deep_view(),
            spec_children(ndeep) == children_fold(ndeep, i as int, out.deep_view()),
        decreases nodes.len() - i,
    {
        match &nodes[i].parent_node {
            Some(p) => {
                add_child(&mut out, p, &nodes[i].id);
            },
            None => {},
        }
        i += 1;
    }
    out
}

/// A counter entry for the identity, created at zero if none exists yet.
pub open spec fn counters_init(counters: Seq<JoinCounterModel>, id: Seq<char>) -> Seq<
    JoinCounterModel,
> {
    match spec_find_counter(counters, id) {
        Some(_) => counters,
        None => counters + seq![JoinCounterModel { id, count: 0 }],
    }
}

/// Whether the adjacency entry under the key already lists the target.
pub open spec fn entry_has_target(
    entries: Seq<EdgeEntryModel>,
    key: Seq<char>,
    target: Seq<char>,
) -> bool {
    match spec_find_edges(entries, key) {
        Some(e) => e.targets.contains(target),
        None => false,
    }
}

/// Appends a target under an adjacency key, creating the entry at the end
/// on first use; search runs from position `j`.
pub open spec fn add_target_from(
    entries: Seq<EdgeEntryModel>,
    key: Seq<char>,
    target: Seq<char>,
    j: int,
) -> Seq<EdgeEntryModel>
    decreases entries.len() - j,
{
    if j < 0 || j >= entries.len() {
        entries + seq![EdgeEntryModel { key, targets: seq![target] }]
    } else if entries[j].key == key {
        entries.update(
            j,
            EdgeEntryModel { key: entries[j].key, targets: entries[j].targets.push(target) },
        )
    } else {
        add_target_from(entries, key, target, j + 1)
    }
}

/// Appends a target under an adjacency key.
pub open spec fn spec_add_target(
    entries: Seq<EdgeEntryModel>,
    key: Seq<char>,
    target: Seq<char>,
) -> Seq<EdgeEntryModel> {
    add_target_from(entries, key, target, 0)
}

/// The adjacency key of an edge: the source identity, extended by the
/// branch discriminator when the source handle is exactly `true` or
/// `false`.
pub open spec fn spec_edge_key(e: EdgeModel) -> Seq<char> {
    if e.source_handle == "true"@ || e.source_handle == "false"@ {
        e.source + e.source_handle
    } else {
        e.source
    }
}

/// One edge folded into the adjacency index and the counters: data-only
/// handles and unknown targets contribute nothing, duplicates are kept
/// once, and every recorded target gets a zero join counter.
pub open spec fn spec_process_edge(
    arena: Seq<IndexedNodeModel>,
    entries: Seq<EdgeEntryModel>,
    counters: Seq<JoinCounterModel>,
    e: EdgeModel,
) -> (Seq<EdgeEntryModel>, Seq<JoinCounterModel>) {
    if spec_find_node(arena, e.source) is Some && spec_starts_with(e.source_handle, 'i') {
        (entries, counters)
    } else if spec_find_node(arena, e.target) is Some && spec_starts_with(e.target_handle, 'o') {
        (entries, counters)
    } else if spec_find_node(arena, e.target) is None {
        (entries, counters)
    } else if entry_has_target(entries, spec_edge_key(e), e.target) {
        (entries, counters)
    } else {
        (spec_add_target(entries, spec_edge_key(e), e.target), counters_init(counters, e.target))
    }
}

/// The adjacency index and counters accumulated over the edges at
/// positions `i` onward.
pub open spec fn edges_fold(
    arena: Seq<IndexedNodeModel>,
    edges: Seq<EdgeModel>,
    i: int,
    entries: Seq<EdgeEntryModel>,
    counters: Seq<JoinCounterModel>,
) -> (Seq<EdgeEntryModel>, Seq<JoinCounterModel>)
    decreases edges.len() - i,
{
    if i < 0 || i >= edges.len() {
        (entries, counters)
    } else {
        let step = spec_process_edge(arena, entries, counters, edges[i]);
        edges_fold(arena, edges, i + 1, step.0, step.1)
    }
}

/// The whole adjacency index and the initial join counters.
pub open spec fn spec_index_edges(arena: Seq<IndexedNodeModel>, edges: Seq<EdgeModel>) -> (
    Seq<EdgeEntryModel>,
    Seq<JoinCounterModel>,
) {
    edges_fold(arena, edges, 0, Seq::empty(), Seq::empty())
}

/// Records one target under one adjacency key.
fn add_target(entries: &mut Vec<EdgeEntry>, key: &String, target: &String)
    ensures
        final(entries).deep_view() == spec_add_target(old(entries).deep_view(), key@, target@),
{
    let ghost orig = old(entries).deep_view();
    proof {
        assert(entries.deep_view() =~~= orig);
    }
    let mut j: usize = 0;
    while j < entries.len()
        invariant
            j <= entries.len(),
            orig == old(entries).deep_view(),
            entries.deep_view() == orig,
            spec_add_target(orig, key@, target@) == add_target_from(orig, key@, target@, j as int),
        decreases entries.len() - j,
    {
        if entries[j].key.eq(key) {
            assert(orig[j as int].key == key@);
            let ghost prev_targets = entries[j as int].targets.deep_view();
            entries[j].targets.push(target.clone());
            proof {
                assert(entries[j as int].targets.deep_view() =~= prev_targets.push(target@));
                assert(entries.deep_view() =~~= orig.update(
                    j as int,
                    EdgeEntryModel {
                        key: orig[j as int].key,
                        targets: orig[j as int].targets.push(target@),
                    },
                ));
                assert(spec_add_target(orig, key@, target@) == orig.update(
                    j as int,
                    EdgeEntryModel {
                        key: orig[j as int].key,
                        targets: orig[j as int].targets.push(target@),
                    },
                ));
            }
            return;
        }
        assert(orig[j as int].key != key@);
        j += 1;
    }
    let ghost prev = entries.deep_view();
    entries.push(EdgeEntry { key: key.clone(), targets: vec![target.clone()] });
    proof {
        assert(entries.deep_view() =~~= prev + seq![
            EdgeEntryModel { key: key@, targets: seq![target@] },
        ]);
    }
}

/// Makes sure the identity has a join counter, starting it at zero.
fn init_counter(counters: &mut Vec<JoinCounter>, id: &String)
    ensures
        final(counters).deep_view() == counters_init(old(counters).deep_view(), id@),
{
    match find_counter(counters, id) {
        Some(_) => {},
        None => {
            let ghost prev = counters.deep_view();
            counters.push(JoinCounter { id: id.clone(), count: 0 });
            proof {
                assert(counters.deep_view() =~= prev + seq![
                    JoinCounterModel { id: id@, count: 0 },
                ]);
            }
        },
    }
}

/// Builds the control-flow adjacency index and the initial join counters
/// from the edge list.
pub fn index_edges(arena: &Vec<IndexedNode>, edges: &Vec<Edge>) -> (r: (
    Vec<EdgeEntry>,
    Vec<JoinCounter>,
))
    ensures
        r.0.deep_view() == spec_index_edges(arena.deep_view(), edges.deep_view()).0,
        r.1.deep_view() == spec_index_edges(arena.deep_view(), edges.deep_view()).1,
{
    let ghost adeep = arena.deep_view();
    let ghost edeep = edges.deep_view();
    let mut entries: Vec<EdgeEntry> = Vec::new();
    let mut counters: Vec<JoinCounter> = Vec::new();
    proof {
        assert(entries.deep_view() =~= Seq::<EdgeEntryModel>::empty());
        assert(counters.deep_view() =~= Seq::<JoinCounterModel>::empty());
    }
    let mut i: usize = 0;
    while i < edges.len()
        invariant
            i <= edges.len(),
            adeep == arena.deep_view(),
            edeep == edges.deep_view(),
            spec_index_edges(adeep, edeep) == edges_fold(
                adeep,
                edeep,
                i as int,
                entries.deep_view(),
                counters.deep_view(),
            ),
        decreases edges.len() - i,
    {
        let e = &edges[i];
        let src_in = find_node(arena, &e.source).is_some();
        let tgt_in = find_node(arena, &e.target).is_some();
        if src_in && starts_with_char(&e.source_handle, 'i') {
        } else if tgt_in && starts_with_char(&e.target_handle, 'o') {
        } else if !tgt_in {
        } else {
            let key = if eq_str(&e.source_handle, "true") || eq_str(&e.source_handle, "false") {
                concat2(&e.source, &e.source_handle)
            } else {
                e.source.clone()
            };
            let already = match find_edges(&entries, &key) {
                Some(en) => contains_string(&en.targets, &e.target),
                None => false,
            };
            if !already {
                add_target(&mut entries, &key, &e.target);
                init_counter(&mut counters, &e.target);
            }
        }
        i += 1;
    }
    (entries, counters)
}

/// Everything the indexer yields on success.
pub open spec fn spec_build_index(nodes: Seq<EditorNodeModel>, edges: Seq<EdgeModel>) -> Result<
    (GraphIndexModel, Seq<JoinCounterModel>),
    ExportError,
> {
    match spec_index_nodes(nodes) {
        Err(e) => Err(e),
        Ok(arena) => {
            let children = spec_children(nodes);
            let indexed = spec_index_edges(arena, edges);
            if spec_find_node(arena, "0"@) is None || spec_find_node(arena, "end"@) is None {
                Err(ExportError::MissingSentinel)
            } else {
                Ok(
                    (
                        GraphIndexModel { arena, edges: indexed.0, children },
                        indexed.1,
                    ),
                )
            }
        },
    }
}

/// Indexes a whole graph: classifies the nodes, builds the nesting and
/// adjacency indexes and the join counters, and checks that both
/// reserved sentinels are present.
pub fn build_index(nodes: &Vec<EditorNode>, edges: &Vec<Edge>) -> (r: Result<
    (GraphIndex, Vec<JoinCounter>),
    ExportError,
>)
    ensures
        match r {
            Ok(p) => spec_build_index(nodes.deep_view(), edges.deep_view()) == Ok::<
                _,
                ExportError,
            >((p.0.deep_view(), p.1.deep_view())),
            Err(e) => spec_build_index(nodes.deep_view(), edges.deep_view()) == Err::<
                (GraphIndexModel, Seq<JoinCounterModel>),
                _,
            >(e),
        },
{
    let arena = match index_nodes(nodes) {
        Ok(a) => a,
        Err(e) => {
            return Err(e);
        },
    };
    let children = build_children(nodes);
    let (entries, counters) = index_edges(&arena, edges);
    let start_key = String::from_str("0");
    let end_key = String::from_str("end");
    if find_node(&arena, &start_key).is_none() || find_node(&arena, &end_key).is_none() {
        return Err(ExportError::MissingSentinel);
    }
    Ok((GraphIndex { arena, edges: entries, children }, counters))
}

} // verus!
