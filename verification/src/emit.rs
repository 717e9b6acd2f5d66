//! Structural Emitter: reconstructs the nested construct tree from the
//! indexed graph. Candidates are visited in order; a join counter and a
//! parent-context check keep every node to at most one emission; composite
//! nodes recurse into their branch edges or declared bodies; and each
//! node's plain successors are emitted after it under the same context.

use vstd::prelude::*;
use crate::index::GraphIndex;
use crate::index::GraphIndexModel;
use crate::index::IndexedNode;
use crate::index::IndexedNodeModel;
use crate::index::JoinCounter;
use crate::index::JoinCounterModel;
use crate::index::NodeKind;
use crate::index::NodeKindModel;
use crate::index::find_children;
use crate::index::find_counter;
use crate::index::find_edges;
use crate::index::find_node;
use crate::index::opt_seq;
use crate::index::spec_find_children;
use crate::index::spec_find_counter;
use crate::index::spec_find_edges;
use crate::index::spec_find_node;
use crate::model::InternalDataInOrOut;
use crate::model::MergeOutModel;
use crate::model::PortDeclModel;
use crate::output::ConstructModel;
use crate::output::DataInOrOut;
use crate::output::DataInOrOutModel;
use crate::output::ExportError;
use crate::output::ExportedFunction;
use crate::output::ResolvedCondition;
use crate::output::ResolvedNode;
use crate::output::ResolvedNodeModel;
use crate::output::constructs_model;
use crate::output::lemma_constructs_model_concat;
use crate::resolve::get_data_input;
use crate::resolve::spec_resolve;
use crate::strutil::clone_opt_string;
use crate::strutil::clone_opt_tags;
use crate::strutil::clone_strings;
use crate::strutil::concat2;
use crate::strutil::opt_eq;
use crate::strutil::opt_or;
use crate::strutil::unwrap_or_str;

verus! {

/// The bindings of the ports at positions `i` onward, or the first
/// resolution failure.
pub open spec fn resolve_ports_from(
    ports: Seq<PortDeclModel>,
    i: int,
    owner: Seq<char>,
    arena: Seq<IndexedNodeModel>,
) -> Result<Seq<DataInOrOutModel>, ExportError>
    decreases ports.len() - i,
{
    if i < 0 || i >= ports.len() {
        Ok(Seq::empty())
    } else {
        match spec_resolve(ports[i], owner, arena) {
            Err(e) => Err(e),
            Ok(b) => match resolve_ports_from(ports, i + 1, owner, arena) {
                Err(e) => Err(e),
                Ok(rest) => Ok(seq![b] + rest),
            },
        }
    }
}

/// The bindings of a whole port list, in declaration order.
pub open spec fn spec_resolve_ports(
    ports: Seq<PortDeclModel>,
    owner: Seq<char>,
    arena: Seq<IndexedNodeModel>,
) -> Result<Seq<DataInOrOutModel>, ExportError> {
    resolve_ports_from(ports, 0, owner, arena)
}

/// The bindings of an optional port list; a node that declares none keeps
/// none.
pub open spec fn spec_resolve_opt_ports(
    o: Option<Seq<PortDeclModel>>,
    owner: Seq<char>,
    arena: Seq<IndexedNodeModel>,
) -> Result<Option<Seq<DataInOrOutModel>>, ExportError> {
    match o {
        None => Ok(None),
        Some(ports) => match spec_resolve_ports(ports, owner, arena) {
            Err(e) => Err(e),
            Ok(bs) => Ok(Some(bs)),
        },
    }
}

/// An already-resolved prefix joined with the outcome for the remainder.
pub open spec fn combine_bindings(
    prefix: Seq<DataInOrOutModel>,
    r: Result<Seq<DataInOrOutModel>, ExportError>,
) -> Result<Seq<DataInOrOutModel>, ExportError> {
    match r {
        Ok(rest) => Ok(prefix + rest),
        Err(e) => Err(e),
    }
}

/// Resolves every port of an optional list against the arena.
pub fn resolve_opt_ports(
    o: &Option<Vec<InternalDataInOrOut>>,
    owner: &String,
    arena: &Vec<IndexedNode>,
) -> (r: Result<Option<Vec<DataInOrOut>>, ExportError>)
    ensures
        match r {
            Ok(b) => spec_resolve_opt_ports(o.deep_view(), owner@, arena.deep_view()) == Ok::<
                _,
                ExportError,
            >(b.deep_view()),
            Err(e) => spec_resolve_opt_ports(o.deep_view(), owner@, arena.deep_view()) == Err::<
                Option<Seq<DataInOrOutModel>>,
                _,
            >(e),
        },
{
    let ports = match o {
        None => {
            return Ok(None);
        },
        Some(ports) => ports,
    };
    let ghost pdeep = ports.deep_view();
    let mut out: Vec<DataInOrOut> = Vec::new();
    proof {
        assert(out.deep_view() =~= Seq::<DataInOrOutModel>::empty());
    }
    let mut i: usize = 0;
    while i < ports.len()
        invariant
            i <= ports.len(),
            pdeep == ports.deep_view(),
            o.deep_view() == Some(pdeep),
            spec_resolve_ports(pdeep, owner@, arena.deep_view()) == combine_bindings(
                out.deep_view(),
                resolve_ports_from(pdeep, i as int, owner@, arena.deep_view()),
            ),
        decreases ports.len() - i,
    {
        let b = match get_data_input(&ports[i], owner, arena) {
            Err(e) => {
                return Err(e);
            },
            Ok(b) => b,
        };
        let ghost prev = out.deep_view();
        let ghost bm = b.deep_view();
        out.push(b);
        proof {
            assert(out.deep_view() =~= prev.push(bm));
            match resolve_ports_from(pdeep, i as int + 1, owner@, arena.deep_view()) {
                Ok(rest) => {
                    assert(prev + (seq![bm] + rest) =~= prev.push(bm) + rest);
                },
                Err(_) => {},
            }
        }
        i += 1;
    }
    proof {
        assert(out.deep_view() + Seq::<DataInOrOutModel>::empty() =~= out.deep_view());
    }
    Ok(Some(out))
}

/// The resolved outputs, at positions `i` onward, whose port identities
/// the merge declaration lists as contributing sources, kept in output
/// order.
pub open spec fn merge_sources_from(
    outs: Seq<DataInOrOutModel>,
    sources: Seq<Seq<char>>,
    i: int,
) -> Seq<DataInOrOutModel>
    decreases outs.len() - i,
{
    if i < 0 || i >= outs.len() {
        Seq::empty()
    } else if sources.contains(outs[i].id) {
        seq![outs[i]] + merge_sources_from(outs, sources, i + 1)
    } else {
        merge_sources_from(outs, sources, i + 1)
    }
}

/// All contributing resolved outputs of one merge declaration.
pub open spec fn spec_merge_sources(
    outs: Seq<DataInOrOutModel>,
    sources: Seq<Seq<char>>,
) -> Seq<DataInOrOutModel> {
    merge_sources_from(outs, sources, 0)
}

/// The contributing sources' reference strings joined with commas, an
/// absent reference contributing an empty string.
pub open spec fn join_sources_from(s: Seq<DataInOrOutModel>, i: int) -> Seq<char>
    decreases s.len() - i,
{
    if i < 0 || i >= s.len() {
        Seq::empty()
    } else if i == s.len() - 1 {
        opt_or(s[i].source, Seq::empty())
    } else {
        opt_or(s[i].source, Seq::empty()) + ","@ + join_sources_from(s, i + 1)
    }
}

/// One resolved merge output: named as declared, typed after the first
/// contributing source (the generic string type when none contributes),
/// sourced at the comma-joined contributing references.
pub open spec fn spec_merge_out(mo: MergeOutModel, outs: Seq<DataInOrOutModel>) -> DataInOrOutModel {
    let matches = spec_merge_sources(outs, mo.sources);
    DataInOrOutModel {
        id: mo.id,
        name: mo.name,
        typ: if matches.len() > 0 {
            matches[0].typ
        } else {
            "string"@
        },
        source: Some(join_sources_from(matches, 0)),
        properties: None,
        constraints: None,
    }
}

/// Every declared merge output of a conditional, resolved against its
/// resolved branch outputs; a conditional that declares none keeps none.
pub open spec fn spec_merge_data_outs(
    if_outs: Option<Seq<MergeOutModel>>,
    resolved_outs: Option<Seq<DataInOrOutModel>>,
) -> Option<Seq<DataInOrOutModel>> {
    match if_outs {
        None => None,
        Some(list) => Some(
            list.map_values(|mo: MergeOutModel| spec_merge_out(mo, opt_seq(resolved_outs))),
        ),
    }
}

/// Collects the contributing resolved outputs of one merge declaration.
fn collect_merge_sources(outs: &Vec<DataInOrOut>, sources: &Vec<String>) -> (r: Vec<DataInOrOut>)
    ensures
        r.deep_view() == spec_merge_sources(outs.deep_view(), sources.deep_view()),
{
    let ghost odeep = outs.deep_view();
    let ghost sdeep = sources.deep_view();
    let mut matches: Vec<DataInOrOut> = Vec::new();
    proof {
        assert(matches.deep_view() =~= Seq::<DataInOrOutModel>::empty());
    }
    let mut i: usize = 0;
    while i < outs.len()
        invariant
            i <= outs.len(),
            odeep == outs.deep_view(),
            sdeep == sources.deep_view(),
            spec_merge_sources(odeep, sdeep) =~= matches.deep_view() + merge_sources_from(
                odeep,
                sdeep,
                i as int,
            ),
        decreases outs.len() - i,
    {
        if crate::strutil::contains_string(sources, &outs[i].id) {
            let ghost prev = matches.deep_view();
            matches.push(clone_binding(&outs[i]));
            proof {
                assert(matches.deep_view() =~= prev.push(odeep[i as int]));
                assert(prev + (seq![odeep[i as int]] + merge_sources_from(
                    odeep,
                    sdeep,
                    i as int + 1,
                )) =~= prev.push(odeep[i as int]) + merge_sources_from(odeep, sdeep, i as int + 1));
            }
        }
        i += 1;
    }
    proof {
        assert(matches.deep_view() + Seq::<DataInOrOutModel>::empty() =~= matches.deep_view());
        assert(matches.deep_view() =~= spec_merge_sources(odeep, sdeep));
    }
    matches
}

/// A copy of a resolved binding.
fn clone_binding(b: &DataInOrOut) -> (r: DataInOrOut)
    ensures
        r.deep_view() == b.deep_view(),
{
    DataInOrOut {
        id: b.id.clone(),
        name: b.name.clone(),
        typ: b.typ.clone(),
        source: clone_opt_string(&b.source),
        properties: clone_opt_tags(&b.properties),
        constraints: clone_opt_tags(&b.constraints),
    }
}

/// Joins the contributing sources' reference strings with commas,
/// starting at position `i`.
fn join_sources(matches: &Vec<DataInOrOut>, i: usize) -> (r: String)
    requires
        i <= matches.len(),
    ensures
        r@ == join_sources_from(matches.deep_view(), i as int),
    decreases matches.len() - i,
{
    proof {
        reveal_strlit("");
        assert(""@ =~= Seq::<char>::empty());
    }
    if i >= matches.len() {
        let r = String::new();
        proof {
            assert(r@ =~= Seq::<char>::empty());
        }
        r
    } else if i == matches.len() - 1 {
        unwrap_or_str(&matches[i].source, "")
    } else {
        let head = unwrap_or_str(&matches[i].source, "");
        let sep = concat2(&head, &String::from_str(","));
        let rest = join_sources(matches, i + 1);
        concat2(&sep, &rest)
    }
}

/// Resolves every declared merge output of a conditional against its
/// resolved branch outputs.
fn merge_data_outs(
    if_outs: &Option<Vec<crate::model::IfDataOut>>,
    resolved_outs: &Option<Vec<DataInOrOut>>,
) -> (r: Option<Vec<DataInOrOut>>)
    ensures
        r.deep_view() == spec_merge_data_outs(if_outs.deep_view(), resolved_outs.deep_view()),
{
    let list = match if_outs {
        None => {
            return None;
        },
        Some(list) => list,
    };
    let empty_outs: Vec<DataInOrOut> = Vec::new();
    let outs: &Vec<DataInOrOut> = match resolved_outs {
        Some(o) => o,
        None => &empty_outs,
    };
    proof {
        assert(outs.deep_view() =~= opt_seq(resolved_outs.deep_view()));
    }
    let ghost ldeep = list.deep_view();
    let mut merged: Vec<DataInOrOut> = Vec::new();
    let mut i: usize = 0;
    while i < list.len()
        invariant
            i <= list.len(),
            ldeep == list.deep_view(),
            outs.deep_view() == opt_seq(resolved_outs.deep_view()),
            merged.deep_view() =~= ldeep.map_values(
                |mo: MergeOutModel| spec_merge_out(mo, outs.deep_view()),
            ).take(i as int),
        decreases list.len() - i,
    {
        let mo = &list[i];
        let matches = collect_merge_sources(outs, &mo.sources);
        let typ = if matches.len() > 0 {
            matches[0].typ.clone()
        } else {
            String::from_str("string")
        };
        let source = join_sources(&matches, 0);
        let ghost prev = merged.deep_view();
        merged.push(
            DataInOrOut {
                id: mo.id.clone(),
                name: mo.name.clone(),
                typ,
                source: Some(source),
                properties: None,
                constraints: None,
            },
        );
        proof {
            assert(merged.deep_view() =~= prev.push(spec_merge_out(ldeep[i as int], outs.deep_view())));
        }
        i += 1;
    }
    proof {
        assert(merged.deep_view() =~= ldeep.map_values(
            |mo: MergeOutModel| spec_merge_out(mo, outs.deep_view()),
        ));
    }
    Some(merged)
}

/// The construct core of one emitted node: identity, display name,
/// function-type tag, resolved ports, and the declared tags.
pub open spec fn spec_resolved_node(
    node: IndexedNodeModel,
    ins: Option<Seq<DataInOrOutModel>>,
    outs: Option<Seq<DataInOrOutModel>>,
) -> ResolvedNodeModel {
    ResolvedNodeModel {
        id: node.id,
        name: node.name,
        typ: node.typ,
        data_ins: ins,
        data_outs: outs,
        properties: node.properties,
        constraints: node.constraints,
    }
}

/// The join counters after one emission of the node at position `j`.
pub open spec fn bump_counter(counters: Seq<JoinCounterModel>, j: int) -> Seq<JoinCounterModel> {
    counters.update(
        j,
        JoinCounterModel { id: counters[j].id, count: (counters[j].count + 1) as usize },
    )
}

/// What the kind dispatch of the emitter yields for one non-skipped node:
/// its constructs (none for a sentinel or a bodiless loop) and the join
/// counters after any branch or body recursion. The fuel bounds recursion
/// depth; running out means the nesting loops.
pub open spec fn spec_emit_node(
    ix: GraphIndexModel,
    node: IndexedNodeModel,
    ins: Option<Seq<DataInOrOutModel>>,
    outs: Option<Seq<DataInOrOutModel>>,
    counters: Seq<JoinCounterModel>,
    fuel: nat,
) -> Result<(Seq<ConstructModel>, Seq<JoinCounterModel>), ExportError>
    decreases fuel, 0int, 0int,
{
    match node.kind {
        NodeKindModel::Atomic => Ok(
            (
                seq![
                    ConstructModel::AtomicFunction { node: spec_resolved_node(node, ins, outs) },
                ],
                counters,
            ),
        ),
        NodeKindModel::StartOrEnd => Ok((Seq::empty(), counters)),
        NodeKindModel::IfThenElse { condition, if_data_outs } => {
            if fuel == 0 {
                Err(ExportError::CyclicNesting)
            } else {
                let then_r = match spec_find_edges(ix.edges, node.id + "true"@) {
                    Some(entry) => spec_emit(
                        ix,
                        entry.targets,
                        0,
                        counters,
                        node.parent_id,
                        (fuel - 1) as nat,
                    ),
                    None => Ok((Seq::empty(), counters)),
                };
                match then_r {
                    Err(e) => Err(e),
                    Ok(then_p) => {
                        let else_r = match spec_find_edges(ix.edges, node.id + "false"@) {
                            Some(entry) => spec_emit(
                                ix,
                                entry.targets,
                                0,
                                then_p.1,
                                node.parent_id,
                                (fuel - 1) as nat,
                            ),
                            None => Ok((Seq::empty(), then_p.1)),
                        };
                        match else_r {
                            Err(e) => Err(e),
                            Ok(else_p) => {
                                let merged = spec_merge_data_outs(if_data_outs, outs);
                                Ok(
                                    (
                                        seq![
                                            ConstructModel::IfThenElse {
                                                node: spec_resolved_node(node, ins, merged),
                                                condition,
                                                then: then_p.0,
                                                or_else: else_p.0,
                                            },
                                        ],
                                        else_p.1,
                                    ),
                                )
                            },
                        }
                    },
                }
            }
        },
        NodeKindModel::ParallelFor { iterators, .. } => {
            match spec_find_children(ix.children, node.id) {
                None => Ok((Seq::empty(), counters)),
                Some(entry) => {
                    if fuel == 0 {
                        Err(ExportError::CyclicNesting)
                    } else {
                        match spec_emit(
                            ix,
                            entry.children,
                            0,
                            counters,
                            node.parent_id,
                            (fuel - 1) as nat,
                        ) {
                            Err(e) => Err(e),
                            Ok(body_p) => Ok(
                                (
                                    seq![
                                        ConstructModel::ParallelFor {
                                            node: spec_resolved_node(node, ins, outs),
                                            iterators,
                                            loop_body: body_p.0,
                                        },
                                    ],
                                    body_p.1,
                                ),
                            ),
                        }
                    }
                },
            }
        },
        NodeKindModel::SequentialWhile { condition } => {
            match spec_find_children(ix.children, node.id) {
                None => Ok((Seq::empty(), counters)),
                Some(entry) => {
                    if fuel == 0 {
                        Err(ExportError::CyclicNesting)
                    } else {
                        match spec_emit(
                            ix,
                            entry.children,
                            0,
                            counters,
                            node.parent_id,
                            (fuel - 1) as nat,
                        ) {
                            Err(e) => Err(e),
                            Ok(body_p) => Ok(
                                (
                                    seq![
                                        ConstructModel::SequentialWhile {
                                            node: spec_resolved_node(node, ins, outs),
                                            condition,
                                            loop_body: body_p.0,
                                        },
                                    ],
                                    body_p.1,
                                ),
                            ),
                        }
                    }
                },
            }
        },
    }
}

/// The emission of the candidates at positions `i` onward of a worklist,
/// under one structural-parent context: each candidate passes the join
/// guard or is skipped, has its ports resolved, is dispatched by kind,
/// and is followed first by its plain control-flow successors and then by
/// the remaining candidates.
pub open spec fn spec_emit(
    ix: GraphIndexModel,
    worklist: Seq<Seq<char>>,
    i: int,
    counters: Seq<JoinCounterModel>,
    parent: Option<Seq<char>>,
    fuel: nat,
) -> Result<(Seq<ConstructModel>, Seq<JoinCounterModel>), ExportError>
    decreases fuel, 1int, worklist.len() - i,
{
    if i < 0 || i >= worklist.len() {
        Ok((Seq::empty(), counters))
    } else {
        match spec_find_node(ix.arena, worklist[i]) {
            None => spec_emit(ix, worklist, i + 1, counters, parent, fuel),
            Some(node) => {
                let guard = spec_find_counter(counters, worklist[i]);
                let skip = match guard {
                    Some(j) => counters[j].count > 0 || node.parent_id != parent,
                    None => false,
                };
                if skip {
                    spec_emit(ix, worklist, i + 1, counters, parent, fuel)
                } else {
                    let counters1 = match guard {
                        Some(j) => bump_counter(counters, j),
                        None => counters,
                    };
                    match spec_resolve_opt_ports(node.data_ins, node.id, ix.arena) {
                        Err(e) => Err(e),
                        Ok(ins) => match spec_resolve_opt_ports(node.data_outs, node.id, ix.arena) {
                            Err(e) => Err(e),
                            Ok(outs) => match spec_emit_node(ix, node, ins, outs, counters1, fuel) {
                                Err(e) => Err(e),
                                Ok(here_p) => {
                                    let cont_r = match spec_find_edges(ix.edges, worklist[i]) {
                                        Some(entry) => {
                                            if fuel == 0 {
                                                Err(ExportError::CyclicNesting)
                                            } else {
                                                spec_emit(
                                                    ix,
                                                    entry.targets,
                                                    0,
                                                    here_p.1,
                                                    node.parent_id,
                                                    (fuel - 1) as nat,
                                                )
                                            }
                                        },
                                        None => Ok((Seq::empty(), here_p.1)),
                                    };
                                    match cont_r {
                                        Err(e) => Err(e),
                                        Ok(cont_p) => match spec_emit(
                                            ix,
                                            worklist,
                                            i + 1,
                                            cont_p.1,
                                            parent,
                                            fuel,
                                        ) {
                                            Err(e) => Err(e),
                                            Ok(rest_p) => Ok(
                                                (here_p.0 + cont_p.0 + rest_p.0, rest_p.1),
                                            ),
                                        },
                                    }
                                },
                            },
                        },
                    }
                }
            },
        }
    }
}

/// A copy of a resolved condition list.
fn clone_conditions(v: &Vec<ResolvedCondition>) -> (r: Vec<ResolvedCondition>)
    ensures
        r.deep_view() == v.deep_view(),
{
    let mut out: Vec<ResolvedCondition> = Vec::new();
    let mut i: usize = 0;
    while i < v.len()
        invariant
            i <= v.len(),
            out.deep_view() =~= v.deep_view().take(i as int),
        decreases v.len() - i,
    {
        let ghost prev = out.deep_view();
        let c = &v[i];
        out.push(
            ResolvedCondition {
                data1: c.data1.clone(),
                data2: c.data2.clone(),
                typ: c.typ.clone(),
                operator: c.operator.clone(),
                negation: c.negation.clone(),
                combined_with: c.combined_with.clone(),
            },
        );
        proof {
            assert(out.deep_view() =~= prev.push(v.deep_view()[i as int]));
        }
        i += 1;
    }
    assert(out.deep_view() =~= v.deep_view());
    out
}

/// Builds the construct core of an emitted node around the given resolved
/// ports.
fn make_resolved_node(
    node: &IndexedNode,
    ins: Option<Vec<DataInOrOut>>,
    outs: Option<Vec<DataInOrOut>>,
) -> (r: ResolvedNode)
    ensures
        r.deep_view() == spec_resolved_node(node.deep_view(), ins.deep_view(), outs.deep_view()),
{
    ResolvedNode {
        id: node.id.clone(),
        name: node.name.clone(),
        typ: node.typ.clone(),
        data_ins: ins,
        data_outs: outs,
        properties: clone_opt_tags(&node.properties),
        constraints: clone_opt_tags(&node.constraints),
    }
}

/// Dispatches one non-skipped node by kind: an atomic call is emitted
/// directly, a conditional recurses into its branch edges, a loop into
/// its declared body, a sentinel contributes nothing.
fn emit_node(
    ix: &GraphIndex,
    node: &IndexedNode,
    ins: Option<Vec<DataInOrOut>>,
    outs: Option<Vec<DataInOrOut>>,
    counters: &mut Vec<JoinCounter>,
    fuel: usize,
) -> (r: Result<Vec<ExportedFunction>, ExportError>)
    ensures
        match spec_emit_node(
            ix.deep_view(),
            node.deep_view(),
            ins.deep_view(),
            outs.deep_view(),
            old(counters).deep_view(),
            fuel as nat,
        ) {
            Ok(p) => r is Ok && constructs_model(r->Ok_0@) == p.0 && final(counters).deep_view()
                == p.1,
            Err(e) => r == Err::<Vec<ExportedFunction>, ExportError>(e),
        },
    decreases fuel, 0int, 0int,
{
    match &node.kind {
        NodeKind::Atomic => {
            let rn = make_resolved_node(node, ins, outs);
            let mut v: Vec<ExportedFunction> = Vec::new();
            v.push(ExportedFunction::AtomicFunction { node: rn });
            proof {
                assert(v@.drop_first().len() == 0);
                assert(constructs_model(v@.drop_first()) =~= Seq::<ConstructModel>::empty());
                assert(constructs_model(v@) =~= seq![v@[0].model()]);
            }
            Ok(v)
        },
        NodeKind::StartOrEnd => {
            let v: Vec<ExportedFunction> = Vec::new();
            proof {
                assert(constructs_model(v@) =~= Seq::<ConstructModel>::empty());
            }
            Ok(v)
        },
        NodeKind::IfThenElse { condition, if_data_outs } => {
            if fuel == 0 {
                return Err(ExportError::CyclicNesting);
            }
            let tkey = concat2(&node.id, &String::from_str("true"));
            let then_b = match find_edges(&ix.edges, &tkey) {
                Some(entry) => {
                    match parse_sub_flow(
                        ix,
                        &entry.targets,
                        0,
                        counters,
                        &node.parent_id,
                        fuel - 1,
                    ) {
                        Err(e) => {
                            return Err(e);
                        },
                        Ok(cs) => cs,
                    }
                },
                None => Vec::new(),
            };
            let fkey = concat2(&node.id, &String::from_str("false"));
            let else_b = match find_edges(&ix.edges, &fkey) {
                Some(entry) => {
                    match parse_sub_flow(
                        ix,
                        &entry.targets,
                        0,
                        counters,
                        &node.parent_id,
                        fuel - 1,
                    ) {
                        Err(e) => {
                            return Err(e);
                        },
                        Ok(cs) => cs,
                    }
                },
                None => Vec::new(),
            };
            let merged = merge_data_outs(if_data_outs, &outs);
            let rn = ResolvedNode {
                id: node.id.clone(),
                name: node.name.clone(),
                typ: node.typ.clone(),
                data_ins: ins,
                data_outs: merged,
                properties: clone_opt_tags(&node.properties),
                constraints: clone_opt_tags(&node.constraints),
            };
            let cond = clone_conditions(condition);
            let mut v: Vec<ExportedFunction> = Vec::new();
            v.push(
                ExportedFunction::IfThenElse {
                    node: rn,
                    condition: cond,
                    then: then_b,
                    or_else: else_b,
                },
            );
            proof {
                assert(v@.drop_first().len() == 0);
                assert(constructs_model(v@.drop_first()) =~= Seq::<ConstructModel>::empty());
                assert(constructs_model(v@) =~= seq![v@[0].model()]);
            }
            Ok(v)
        },
        NodeKind::ParallelFor { iterators, .. } => {
            match find_children(&ix.children, &node.id) {
                None => {
                    let v: Vec<ExportedFunction> = Vec::new();
                    proof {
                        assert(constructs_model(v@) =~= Seq::<ConstructModel>::empty());
                    }
                    Ok(v)
                },
                Some(entry) => {
                    if fuel == 0 {
                        return Err(ExportError::CyclicNesting);
                    }
                    let body = match parse_sub_flow(
                        ix,
                        &entry.children,
                        0,
                        counters,
                        &node.parent_id,
                        fuel - 1,
                    ) {
                        Err(e) => {
                            return Err(e);
                        },
                        Ok(cs) => cs,
                    };
                    let rn = make_resolved_node(node, ins, outs);
                    let iters = clone_strings(iterators);
                    let mut v: Vec<ExportedFunction> = Vec::new();
                    v.push(
                        ExportedFunction::ParallelFor {
                            node: rn,
                            iterators: iters,
                            loop_body: body,
                        },
                    );
                    proof {
                        assert(v@.drop_first().len() == 0);
                        assert(constructs_model(v@.drop_first()) =~= Seq::<ConstructModel>::empty());
                        assert(constructs_model(v@) =~= seq![v@[0].model()]);
                    }
                    Ok(v)
                },
            }
        },
        NodeKind::SequentialWhile { condition } => {
            match find_children(&ix.children, &node.id) {
                None => {
                    let v: Vec<ExportedFunction> = Vec::new();
                    proof {
                        assert(constructs_model(v@) =~= Seq::<ConstructModel>::empty());
                    }
                    Ok(v)
                },
                Some(entry) => {
                    if fuel == 0 {
                        return Err(ExportError::CyclicNesting);
                    }
                    let body = match parse_sub_flow(
                        ix,
                        &entry.children,
                        0,
                        counters,
                        &node.parent_id,
                        fuel - 1,
                    ) {
                        Err(e) => {
                            return Err(e);
                        },
                        Ok(cs) => cs,
                    };
                    let rn = make_resolved_node(node, ins, outs);
                    let cond = clone_conditions(condition);
                    let mut v: Vec<ExportedFunction> = Vec::new();
                    v.push(
                        ExportedFunction::SequentialWhile {
                            node: rn,
                            condition: cond,
                            loop_body: body,
                        },
                    );
                    proof {
                        assert(v@.drop_first().len() == 0);
                        assert(constructs_model(v@.drop_first()) =~= Seq::<ConstructModel>::empty());
                        assert(constructs_model(v@) =~= seq![v@[0].model()]);
                    }
                    Ok(v)
                },
            }
        },
    }
}

/// Emits the candidates at positions `i` onward of a worklist, exactly as
/// [`spec_emit`] states: guarded by the join counters, under the given
/// structural-parent context.
pub fn parse_sub_flow(
    ix: &GraphIndex,
    worklist: &Vec<String>,
    i: usize,
    counters: &mut Vec<JoinCounter>,
    parent: &Option<String>,
    fuel: usize,
) -> (r: Result<Vec<ExportedFunction>, ExportError>)
    requires
        i <= worklist.len(),
    ensures
        match spec_emit(
            ix.deep_view(),
            worklist.deep_view(),
            i as int,
            old(counters).deep_view(),
            parent.deep_view(),
            fuel as nat,
        ) {
            Ok(p) => r is Ok && constructs_model(r->Ok_0@) == p.0 && final(counters).deep_view()
                == p.1,
            Err(e) => r == Err::<Vec<ExportedFunction>, ExportError>(e),
        },
    decreases fuel, 1int, worklist@.len() - i,
{
    let ghost ixm = ix.deep_view();
    let ghost wl = worklist.deep_view();
    let ghost c0 = counters.deep_view();
    if i == worklist.len() {
        let r: Vec<ExportedFunction> = Vec::new();
        proof {
            assert(constructs_model(r@) =~= Seq::<ConstructModel>::empty());
        }
        return Ok(r);
    }
    let id = &worklist[i];
    proof {
        assert(wl[i as int] == id@);
    }
    let node = match find_node(&ix.arena, id) {
        None => {
            return parse_sub_flow(ix, worklist, i + 1, counters, parent, fuel);
        },
        Some(n) => n,
    };
    match find_counter(counters, id) {
        Some(j) => {
            let cnt = counters[j].count;
            if cnt > 0 || !opt_eq(&node.parent_id, parent) {
                return parse_sub_flow(ix, worklist, i + 1, counters, parent, fuel);
            }
            let ghost before = counters.deep_view();
            counters[j].count = cnt + 1;
            proof {
                assert(counters.deep_view() =~~= bump_counter(before, j as int));
            }
        },
        None => {},
    }
    let ins = match resolve_opt_ports(&node.data_ins, &node.id, &ix.arena) {
        Err(e) => {
            return Err(e);
        },
        Ok(x) => x,
    };
    let outs = match resolve_opt_ports(&node.data_outs, &node.id, &ix.arena) {
        Err(e) => {
            return Err(e);
        },
        Ok(x) => x,
    };
    let here = match emit_node(ix, node, ins, outs, counters, fuel) {
        Err(e) => {
            return Err(e);
        },
        Ok(cs) => cs,
    };
    let cont = match find_edges(&ix.edges, id) {
        Some(entry) => {
            if fuel == 0 {
                return Err(ExportError::CyclicNesting);
            }
            match parse_sub_flow(ix, &entry.targets, 0, counters, &node.parent_id, fuel - 1) {
                Err(e) => {
                    return Err(e);
                },
                Ok(cs) => cs,
            }
        },
        None => Vec::new(),
    };
    let rest = match parse_sub_flow(ix, worklist, i + 1, counters, parent, fuel) {
        Err(e) => {
            return Err(e);
        },
        Ok(cs) => cs,
    };
    let ghost hs = here@;
    let ghost cs_ = cont@;
    let ghost rs = rest@;
    let mut result = here;
    let mut cont_m = cont;
    let mut rest_m = rest;
    result.append(&mut cont_m);
    result.append(&mut rest_m);
    proof {
        lemma_constructs_model_concat(hs, cs_);
        lemma_constructs_model_concat(hs + cs_, rs);
        assert(result@ == (hs + cs_) + rs);
    }
    Ok(result)
}

} // verus!
