//! The compiler's entry point: index the raw graph, resolve the start and
//! end sentinels' top-level ports, emit the construct tree from the start
//! node's successors, and assemble the compiled document. All fatal
//! conditions surface as typed failures; no partial output is produced.

use vstd::prelude::*;
use crate::emit::parse_sub_flow;
use crate::emit::spec_emit;
use crate::emit::spec_resolve_opt_ports;
use crate::emit::resolve_opt_ports;
use crate::index::build_index;
use crate::index::find_edges;
use crate::index::find_node;
use crate::index::spec_build_index;
use crate::index::spec_find_edges;
use crate::index::spec_find_node;
use crate::model::Workflow;
use crate::model::WorkflowModel;
use crate::output::ApolloYaml;
use crate::output::ExportError;
use crate::output::YamlModel;
use crate::output::result_model;

verus! {

/// How much recursion the emitter may ever need on a graph of `n` nodes
/// and `e` edges: every descent either consumes a join counter or follows
/// one level of nesting, so one unit per node and edge, plus one, covers
/// every terminating traversal; the bound saturates at the machine limit.
pub open spec fn spec_fuel(n: nat, e: nat) -> nat {
    if n + e + 1 <= usize::MAX as nat {
        n + e + 1
    } else {
        usize::MAX as nat
    }
}

/// What compiling a whole graph document yields: the indexed graph's
/// emission, or the first failure, exactly one of the two.
pub open spec fn spec_export(w: WorkflowModel) -> Result<YamlModel, ExportError> {
    match spec_build_index(w.data.nodes, w.data.edges) {
        Err(e) => Err(e),
        Ok(built) => {
            let ix = built.0;
            let counters = built.1;
            let start = spec_find_node(ix.arena, "0"@)->Some_0;
            let end = spec_find_node(ix.arena, "end"@)->Some_0;
            match spec_resolve_opt_ports(start.data_outs, start.id, ix.arena) {
                Err(e) => Err(e),
                Ok(dins) => {
                    let worklist = match spec_find_edges(ix.edges, "0"@) {
                        Some(entry) => entry.targets,
                        None => Seq::empty(),
                    };
                    match spec_emit(
                        ix,
                        worklist,
                        0,
                        counters,
                        None,
                        spec_fuel(w.data.nodes.len(), w.data.edges.len()),
                    ) {
                        Err(e) => Err(e),
                        Ok(body_p) => {
                            match spec_resolve_opt_ports(end.data_ins, end.id, ix.arena) {
                                Err(e) => Err(e),
                                Ok(douts) => Ok(
                                    YamlModel {
                                        name: w.name,
                                        data_ins: dins,
                                        workflow_body: body_p.0,
                                        data_outs: douts,
                                    },
                                ),
                            }
                        },
                    }
                },
            }
        },
    }
}

/// Compiles a graph document into the nested workflow description, as
/// [`spec_export`] states: deterministic in the input, a typed failure on
/// an unrecognized kind, a missing sentinel, an unresolvable source or a
/// looping nesting chain, and never partial output.
pub fn export_from_flow(workflow: Workflow) -> (r: Result<ApolloYaml, ExportError>)
    ensures
        result_model(r) == spec_export(workflow.deep_view()),
{
    let ghost wm = workflow.deep_view();
    let nodes_len = workflow.data.nodes.len();
    let edges_len = workflow.data.edges.len();
    let (ix, mut counters) = match build_index(&workflow.data.nodes, &workflow.data.edges) {
        Err(e) => {
            return Err(e);
        },
        Ok(p) => p,
    };
    let ghost ixm = ix.deep_view();
    let start_key = String::from_str("0");
    let end_key = String::from_str("end");
    let start = match find_node(&ix.arena, &start_key) {
        Some(n) => n,
        None => unreached(),
    };
    let end = match find_node(&ix.arena, &end_key) {
        Some(n) => n,
        None => unreached(),
    };
    let dins = match resolve_opt_ports(&start.data_outs, &start.id, &ix.arena) {
        Err(e) => {
            return Err(e);
        },
        Ok(x) => x,
    };
    let fuel = nodes_len.saturating_add(edges_len).saturating_add(1);
    proof {
        assert(fuel as nat == spec_fuel(wm.data.nodes.len(), wm.data.edges.len()));
    }
    let empty_worklist: Vec<String> = Vec::new();
    let root_parent: Option<String> = None;
    let body = match find_edges(&ix.edges, &start_key) {
        Some(entry) => {
            match parse_sub_flow(&ix, &entry.targets, 0, &mut counters, &root_parent, fuel) {
                Err(e) => {
                    return Err(e);
                },
                Ok(cs) => cs,
            }
        },
        None => {
            proof {
                assert(empty_worklist.deep_view() =~= Seq::<Seq<char>>::empty());
            }
            match parse_sub_flow(&ix, &empty_worklist, 0, &mut counters, &root_parent, fuel) {
                Err(e) => {
                    return Err(e);
                },
                Ok(cs) => cs,
            }
        },
    };
    let douts = match resolve_opt_ports(&end.data_ins, &end.id, &ix.arena) {
        Err(e) => {
            return Err(e);
        },
        Ok(x) => x,
    };
    Ok(ApolloYaml { name: workflow.name, data_ins: dins, workflow_body: body, data_outs: douts })
}

} // verus!

