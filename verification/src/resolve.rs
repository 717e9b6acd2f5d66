//! Scope Resolver: determines, for a data port and the node that owns it,
//! the concrete upstream binding — a literal, an external source tag, an
//! enclosing parallel-for's iteration variable, a conditional's merge
//! output, or an output found by climbing the structural-parent chain —
//! together with the inferred type and the fully-qualified reference.

use vstd::prelude::*;
use crate::index::IndexedNode;
use crate::index::IndexedNodeModel;
use crate::index::NodeKind;
use crate::index::NodeKindModel;
use crate::index::find_node;
use crate::index::opt_seq;
use crate::index::spec_find_node;
use crate::model::InternalDataInOrOut;
use crate::model::InternalIterator;
use crate::model::IfDataOut;
use crate::model::IteratorModel;
use crate::model::MergeOutModel;
use crate::model::PortDeclModel;
use crate::output::DataInOrOut;
use crate::output::DataInOrOutModel;
use crate::output::ExportError;
use crate::strutil::clone_opt_string;
use crate::strutil::clone_opt_tags;
use crate::strutil::contains_string;
use crate::strutil::join_path;
use crate::strutil::name_or;
use crate::strutil::opt_eq;
use crate::strutil::opt_eq_some;
use crate::strutil::opt_or;
use crate::strutil::spec_name_or;
use crate::strutil::unwrap_or_str;

verus! {

/// The name a port is bound under: its rename, else its declared name,
/// else empty.
pub open spec fn actual_name(d: PortDeclModel) -> Seq<char> {
    spec_name_or(d.rename, d.name)
}

/// The binding of a port with no upstream reference: the external source
/// tag carried for start-node outputs, or nothing.
pub open spec fn spec_external_binding(d: PortDeclModel) -> DataInOrOutModel {
    DataInOrOutModel {
        id: d.id,
        name: actual_name(d),
        typ: opt_or(d.typ, Seq::empty()),
        source: d.start_source,
        properties: d.properties,
        constraints: d.constraints,
    }
}

/// The binding of a port whose reference names its own owning node: the
/// embedded literal value with the declared type, no upstream lookup.
pub open spec fn spec_literal_binding(d: PortDeclModel) -> DataInOrOutModel {
    DataInOrOutModel {
        id: d.id,
        name: actual_name(d),
        typ: opt_or(d.typ, Seq::empty()),
        source: d.value,
        properties: d.properties,
        constraints: d.constraints,
    }
}

/// First port with the given identity, searching from position `i`.
pub open spec fn find_port_from(s: Seq<PortDeclModel>, id: Seq<char>, i: int) -> Option<
    PortDeclModel,
>
    decreases s.len() - i,
{
    if i < 0 || i >= s.len() {
        None
    } else if s[i].id == id {
        Some(s[i])
    } else {
        find_port_from(s, id, i + 1)
    }
}

/// The declared port with the given identity, if any.
pub open spec fn spec_find_port(s: Seq<PortDeclModel>, id: Seq<char>) -> Option<PortDeclModel> {
    find_port_from(s, id, 0)
}

/// Looks a port declaration up by identity.
pub fn find_port<'a>(ports: &'a Vec<InternalDataInOrOut>, id: &String) -> (r: Option<
    &'a InternalDataInOrOut,
>)
    ensures
        match r {
            Some(p) => spec_find_port(ports.deep_view(), id@) == Some(p.deep_view()),
            None => spec_find_port(ports.deep_view(), id@) is None,
        },
{
    let mut i: usize = 0;
    while i < ports.len()
        invariant
            i <= ports.len(),
            spec_find_port(ports.deep_view(), id@) == find_port_from(
                ports.deep_view(),
                id@,
                i as int,
            ),
        decreases ports.len() - i,
    {
        if ports[i].id.eq(id) {
            assert(ports.deep_view()[i as int].id == id@);
            return Some(&ports[i]);
        }
        assert(ports.deep_view()[i as int].id != id@);
        i += 1;
    }
    None
}

/// First merge output with the given identity, searching from position
/// `i`.
pub open spec fn find_merge_from(s: Seq<MergeOutModel>, id: Seq<char>, i: int) -> Option<
    MergeOutModel,
>
    decreases s.len() - i,
{
    if i < 0 || i >= s.len() {
        None
    } else if s[i].id == id {
        Some(s[i])
    } else {
        find_merge_from(s, id, i + 1)
    }
}

/// The declared merge output with the given identity, if any.
pub open spec fn spec_find_merge(s: Seq<MergeOutModel>, id: Seq<char>) -> Option<MergeOutModel> {
    find_merge_from(s, id, 0)
}

/// Looks a merge-output declaration up by identity.
pub fn find_merge<'a>(list: &'a Vec<IfDataOut>, id: &String) -> (r: Option<&'a IfDataOut>)
    ensures
        match r {
            Some(m) => spec_find_merge(list.deep_view(), id@) == Some(m.deep_view()),
            None => spec_find_merge(list.deep_view(), id@) is None,
        },
{
    let mut i: usize = 0;
    while i < list.len()
        invariant
            i <= list.len(),
            spec_find_merge(list.deep_view(), id@) == find_merge_from(
                list.deep_view(),
                id@,
                i as int,
            ),
        decreases list.len() - i,
    {
        if list[i].id.eq(id) {
            assert(list.deep_view()[i as int].id == id@);
            return Some(&list[i]);
        }
        assert(list.deep_view()[i as int].id != id@);
        i += 1;
    }
    None
}

/// First iteration variable declared under exactly the given name,
/// searching from position `i`.
pub open spec fn find_iter_from(s: Seq<IteratorModel>, name: Seq<char>, i: int) -> Option<
    IteratorModel,
>
    decreases s.len() - i,
{
    if i < 0 || i >= s.len() {
        None
    } else if s[i].name == Some(name) {
        Some(s[i])
    } else {
        find_iter_from(s, name, i + 1)
    }
}

/// The iteration variable declared under the given name, if any.
pub open spec fn spec_find_iter(s: Seq<IteratorModel>, name: Seq<char>) -> Option<IteratorModel> {
    find_iter_from(s, name, 0)
}

/// Looks an iteration variable up by its declared name.
pub fn find_iter<'a>(list: &'a Vec<InternalIterator>, name: &String) -> (r: Option<
    &'a InternalIterator,
>)
    ensures
        match r {
            Some(it) => spec_find_iter(list.deep_view(), name@) == Some(it.deep_view()),
            None => spec_find_iter(list.deep_view(), name@) is None,
        },
{
    let mut i: usize = 0;
    while i < list.len()
        invariant
            i <= list.len(),
            spec_find_iter(list.deep_view(), name@) == find_iter_from(
                list.deep_view(),
                name@,
                i as int,
            ),
        decreases list.len() - i,
    {
        if opt_eq_some(&list[i].name, name) {
            assert(list.deep_view()[i as int].name == Some(name@));
            return Some(&list[i]);
        }
        assert(list.deep_view()[i as int].name != Some(name@));
        i += 1;
    }
    None
}

/// The element type bound through an iteration variable: the matching
/// declaration's element type, the generic string type when that is
/// absent or when the name is no iteration variable at all.
pub open spec fn spec_iter_element_type(
    iterators: Seq<Seq<char>>,
    internal_iterators: Seq<IteratorModel>,
    name: Seq<char>,
) -> Seq<char> {
    if iterators.contains(name) {
        match spec_find_iter(internal_iterators, name) {
            Some(it) => opt_or(it.element_type, "string"@),
            None => "string"@,
        }
    } else {
        "string"@
    }
}

/// The binding of a port that matches a data input declared on the owning
/// node's parallel-for parent: typed through the iteration variable it
/// names, sourced at `<parent name>/<variable name>`.
pub open spec fn spec_iterator_binding(
    d: PortDeclModel,
    parent: IndexedNodeModel,
    iterators: Seq<Seq<char>>,
    internal_iterators: Seq<IteratorModel>,
    parent_input: PortDeclModel,
) -> DataInOrOutModel {
    let parent_in_name = spec_name_or(parent_input.rename, parent_input.name);
    DataInOrOutModel {
        id: d.id,
        name: actual_name(d),
        typ: spec_iter_element_type(iterators, internal_iterators, parent_in_name),
        source: Some(parent.name + "/"@ + parent_in_name),
        properties: d.properties,
        constraints: d.constraints,
    }
}

/// Walks the referenced node's structural-parent chain upward until it
/// reaches the consuming node itself, a node sharing the consuming node's
/// parent, or a node with no parent. The fuel bounds the walk; running
/// out means the parent chain loops.
pub open spec fn spec_climb(
    start: IndexedNodeModel,
    node_id: Seq<char>,
    current_parent: Option<Seq<char>>,
    arena: Seq<IndexedNodeModel>,
    fuel: nat,
) -> Result<IndexedNodeModel, ExportError>
    decreases fuel,
{
    if start.parent_id is None || start.parent_id == Some(node_id) || start.parent_id
        == current_parent {
        Ok(start)
    } else if fuel == 0 {
        Err(ExportError::CyclicNesting)
    } else {
        match spec_find_node(arena, start.parent_id->Some_0) {
            None => Err(ExportError::UnresolvedSource),
            Some(p) => spec_climb(p, node_id, current_parent, arena, (fuel - 1) as nat),
        }
    }
}

/// Walks the parent chain as [`spec_climb`] describes.
fn climb_owner<'a>(
    arena: &'a Vec<IndexedNode>,
    start: &'a IndexedNode,
    node_id: &String,
    current_parent: &Option<String>,
    fuel: usize,
) -> (r: Result<&'a IndexedNode, ExportError>)
    ensures
        match r {
            Ok(n) => spec_climb(
                start.deep_view(),
                node_id@,
                current_parent.deep_view(),
                arena.deep_view(),
                fuel as nat,
            ) == Ok::<_, ExportError>(n.deep_view()),
            Err(e) => spec_climb(
                start.deep_view(),
                node_id@,
                current_parent.deep_view(),
                arena.deep_view(),
                fuel as nat,
            ) == Err::<IndexedNodeModel, _>(e),
        },
    decreases fuel,
{
    match &start.parent_id {
        None => Ok(start),
        Some(pid) => {
            if pid.eq(node_id) || opt_eq(&start.parent_id, current_parent) {
                Ok(start)
            } else if fuel == 0 {
                Err(ExportError::CyclicNesting)
            } else {
                match find_node(arena, pid) {
                    None => Err(ExportError::UnresolvedSource),
                    Some(p) => climb_owner(arena, p, node_id, current_parent, fuel - 1),
                }
            }
        },
    }
}

/// The binding found by scope climbing: the climbed-to ancestor supplies
/// the qualified source and, when it is a parallel-for, the collected
/// `array` type; a consuming parallel-for may refine the type through its
/// iteration variables; otherwise the original output's declared type
/// stands, defaulted to the generic string type.
pub open spec fn spec_climb_binding(
    d: PortDeclModel,
    node_id: Seq<char>,
    arena: Seq<IndexedNodeModel>,
    source_node: IndexedNodeModel,
    current: IndexedNodeModel,
) -> Result<DataInOrOutModel, ExportError> {
    match spec_climb(source_node, node_id, current.parent_id, arena, arena.len()) {
        Err(e) => Err(e),
        Ok(source_parent) => match source_node.data_outs {
            None => Err(ExportError::UnresolvedSource),
            Some(outs) => match spec_find_port(outs, d.id) {
                None => Err(ExportError::UnresolvedSource),
                Some(data_out) => {
                    let parent_data_out = spec_find_port(opt_seq(source_parent.data_outs), d.id);
                    let fallback = spec_name_or(data_out.rename, data_out.name);
                    let data_out_name = match parent_data_out {
                        Some(p) => opt_or(p.rename, fallback),
                        None => fallback,
                    };
                    let correct_name = opt_or(d.rename, data_out_name);
                    let typ = if source_parent.kind is ParallelFor {
                        "array"@
                    } else {
                        match current.kind {
                            NodeKindModel::ParallelFor { iterators, internal_iterators } => {
                                if iterators.contains(correct_name) {
                                    match spec_find_iter(internal_iterators, correct_name) {
                                        Some(it) => opt_or(it.element_type, "string"@),
                                        None => "string"@,
                                    }
                                } else {
                                    "array"@
                                }
                            },
                            _ => opt_or(data_out.typ, "string"@),
                        }
                    };
                    Ok(
                        DataInOrOutModel {
                            id: d.id,
                            name: correct_name,
                            typ,
                            source: Some(source_parent.name + "/"@ + data_out_name),
                            properties: d.properties,
                            constraints: d.constraints,
                        },
                    )
                },
            },
        },
    }
}

/// The cross-scope part of resolution, tried in precedence order: the
/// iterator binding through the owning node's parallel-for parent, the
/// conditional merge binding, then scope climbing.
pub open spec fn spec_resolve_cross(
    d: PortDeclModel,
    node_id: Seq<char>,
    arena: Seq<IndexedNodeModel>,
    source_node: IndexedNodeModel,
    current: IndexedNodeModel,
) -> Result<DataInOrOutModel, ExportError> {
    let after_parent = spec_resolve_after_parent(d, node_id, arena, source_node, current);
    match current.parent_id {
        Some(pid) => match spec_find_node(arena, pid) {
            None => Err(ExportError::UnresolvedSource),
            Some(parent) => match parent.kind {
                NodeKindModel::ParallelFor { iterators, internal_iterators } => {
                    match spec_find_port(opt_seq(parent.data_ins), d.id) {
                        Some(parent_input) => Ok(
                            spec_iterator_binding(
                                d,
                                parent,
                                iterators,
                                internal_iterators,
                                parent_input,
                            ),
                        ),
                        None => after_parent,
                    }
                },
                _ => after_parent,
            },
        },
        None => after_parent,
    }
}

/// Resolution once the iterator binding does not apply: a referenced
/// conditional binds through its declared merge output; any other
/// referenced node binds by scope climbing.
pub open spec fn spec_resolve_after_parent(
    d: PortDeclModel,
    node_id: Seq<char>,
    arena: Seq<IndexedNodeModel>,
    source_node: IndexedNodeModel,
    current: IndexedNodeModel,
) -> Result<DataInOrOutModel, ExportError> {
    match source_node.kind {
        NodeKindModel::IfThenElse { if_data_outs, .. } => match if_data_outs {
            None => Err(ExportError::UnresolvedSource),
            Some(list) => match spec_find_merge(list, d.id) {
                None => Err(ExportError::UnresolvedSource),
                Some(mo) => Ok(
                    DataInOrOutModel {
                        id: d.id,
                        name: actual_name(d),
                        typ: mo.typ,
                        source: Some(source_node.name + "/"@ + mo.name),
                        properties: d.properties,
                        constraints: d.constraints,
                    },
                ),
            },
        },
        _ => spec_climb_binding(d, node_id, arena, source_node, current),
    }
}

/// What the Scope Resolver yields for one port: a binding, or the failure
/// that aborts compilation. A port without a reference binds its external
/// tag; one referencing its own owner binds its literal value; any other
/// reference is resolved across scopes, and an upstream node or port that
/// cannot be found is an error, never a silent default.
pub open spec fn spec_resolve(
    d: PortDeclModel,
    node_id: Seq<char>,
    arena: Seq<IndexedNodeModel>,
) -> Result<DataInOrOutModel, ExportError> {
    match d.source {
        None => Ok(spec_external_binding(d)),
        Some(src) => {
            if src == node_id {
                Ok(spec_literal_binding(d))
            } else {
                match spec_find_node(arena, src) {
                    None => Err(ExportError::UnresolvedSource),
                    Some(source_node) => match spec_find_node(arena, node_id) {
                        None => Err(ExportError::UnresolvedSource),
                        Some(current) => spec_resolve_cross(d, node_id, arena, source_node, current),
                    },
                }
            }
        },
    }
}

/// Copies the port's untouched fields into a binding with the given name,
/// type and source.
fn make_binding(
    data: &InternalDataInOrOut,
    name: String,
    typ: String,
    source: Option<String>,
) -> (r: DataInOrOut)
    ensures
        r.deep_view() == (DataInOrOutModel {
            id: data.deep_view().id,
            name: name@,
            typ: typ@,
            source: source.deep_view(),
            properties: data.deep_view().properties,
            constraints: data.deep_view().constraints,
        }),
{
    DataInOrOut {
        id: data.id.clone(),
        name,
        typ,
        source,
        properties: clone_opt_tags(&data.properties),
        constraints: clone_opt_tags(&data.constraints),
    }
}

/// Resolves one data port of one node against the arena, exactly as
/// [`spec_resolve`] states.
pub fn get_data_input(
    data: &InternalDataInOrOut,
    node_id: &String,
    arena: &Vec<IndexedNode>,
) -> (r: Result<DataInOrOut, ExportError>)
    ensures
        match r {
            Ok(b) => spec_resolve(data.deep_view(), node_id@, arena.deep_view()) == Ok::<
                _,
                ExportError,
            >(b.deep_view()),
            Err(e) => spec_resolve(data.deep_view(), node_id@, arena.deep_view()) == Err::<
                DataInOrOutModel,
                _,
            >(e),
        },
{
    let source = match &data.source {
        None => {
            let b = make_binding(
                data,
                name_or(&data.rename, &data.name),
                unwrap_or_str(&data.typ, ""),
                clone_opt_string(&data.start_source),
            );
            proof {
                reveal_strlit("");
                assert(""@ =~= Seq::<char>::empty());
            }
            return Ok(b);
        },
        Some(src) => src,
    };
    if source.eq(node_id) {
        let b = make_binding(
            data,
            name_or(&data.rename, &data.name),
            unwrap_or_str(&data.typ, ""),
            clone_opt_string(&data.value),
        );
        proof {
            reveal_strlit("");
            assert(""@ =~= Seq::<char>::empty());
        }
        return Ok(b);
    }
    let source_node = match find_node(arena, source) {
        None => {
            return Err(ExportError::UnresolvedSource);
        },
        Some(n) => n,
    };
    let current = match find_node(arena, node_id) {
        None => {
            return Err(ExportError::UnresolvedSource);
        },
        Some(n) => n,
    };
    // Iterator binding through the owning node's parallel-for parent.
    match &current.parent_id {
        Some(pid) => {
            match find_node(arena, pid) {
                None => {
                    return Err(ExportError::UnresolvedSource);
                },
                Some(parent) => {
                    match &parent.kind {
                        NodeKind::ParallelFor { iterators, internal_iterators } => {
                            let parent_input = match &parent.data_ins {
                                Some(ins) => find_port(ins, &data.id),
                                None => None,
                            };
                            match parent_input {
                                Some(pi) => {
                                    let parent_in_name = name_or(&pi.rename, &pi.name);
                                    let typ = if contains_string(iterators, &parent_in_name) {
                                        match find_iter(internal_iterators, &parent_in_name) {
                                            Some(it) => unwrap_or_str(&it.element_type, "string"),
                                            None => "string".to_owned(),
                                        }
                                    } else {
                                        "string".to_owned()
                                    };
                                    let b = make_binding(
                                        data,
                                        name_or(&data.rename, &data.name),
                                        typ,
                                        Some(join_path(&parent.name, &parent_in_name)),
                                    );
                                    return Ok(b);
                                },
                                None => {},
                            }
                        },
                        _ => {},
                    }
                },
            }
        },
        None => {},
    }
    // Conditional merge binding.
    match &source_node.kind {
        NodeKind::IfThenElse { if_data_outs, .. } => {
            match if_data_outs {
                None => Err(ExportError::UnresolvedSource),
                Some(list) => match find_merge(list, &data.id) {
                    None => Err(ExportError::UnresolvedSource),
                    Some(mo) => {
                        let b = make_binding(
                            data,
                            name_or(&data.rename, &data.name),
                            mo.typ.clone(),
                            Some(join_path(&source_node.name, &mo.name)),
                        );
                        Ok(b)
                    },
                },
            }
        },
        _ => {
            // Scope climbing.
            let source_parent = match climb_owner(
                arena,
                source_node,
                node_id,
                &current.parent_id,
                arena.len(),
            ) {
                Err(e) => {
                    return Err(e);
                },
                Ok(n) => n,
            };
            let outs = match &source_node.data_outs {
                None => {
                    return Err(ExportError::UnresolvedSource);
                },
                Some(outs) => outs,
            };
            let data_out = match find_port(outs, &data.id) {
                None => {
                    return Err(ExportError::UnresolvedSource);
                },
                Some(p) => p,
            };
            let parent_data_out = match &source_parent.data_outs {
                Some(pouts) => find_port(pouts, &data.id),
                None => None,
            };
            let fallback = name_or(&data_out.rename, &data_out.name);
            let data_out_name = match parent_data_out {
                Some(p) => match &p.rename {
                    Some(rn) => rn.clone(),
                    None => fallback,
                },
                None => fallback,
            };
            let correct_name = match &data.rename {
                Some(rn) => rn.clone(),
                None => data_out_name.clone(),
            };
            let is_parent_parallel = match &source_parent.kind {
                NodeKind::ParallelFor { .. } => true,
                _ => false,
            };
            let typ = if is_parent_parallel {
                "array".to_owned()
            } else {
                match &current.kind {
                    NodeKind::ParallelFor { iterators, internal_iterators } => {
                        if contains_string(iterators, &correct_name) {
                            match find_iter(internal_iterators, &correct_name) {
                                Some(it) => unwrap_or_str(&it.element_type, "string"),
                                None => "string".to_owned(),
                            }
                        } else {
                            "array".to_owned()
                        }
                    },
                    _ => unwrap_or_str(&data_out.typ, "string"),
                }
            };
            let b = make_binding(
                data,
                correct_name,
                typ,
                Some(join_path(&source_parent.name, &data_out_name)),
            );
            Ok(b)
        },
    }
}

} // verus!
