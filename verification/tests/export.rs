use wf_exporter::export_from_flow;
use wf_exporter::model::Condition;
use wf_exporter::model::Data;
use wf_exporter::model::EditorNode;
use wf_exporter::model::Edge;
use wf_exporter::model::IfDataOut;
use wf_exporter::model::InternalDataInOrOut;
use wf_exporter::model::InternalIterator;
use wf_exporter::model::NodeInternals;
use wf_exporter::model::Workflow;
use wf_exporter::output::ExportError;
use wf_exporter::output::ExportedFunction;
use wf_exporter::skip_type_if;

fn internals(name: &str) -> NodeInternals {
    NodeInternals {
        name: name.to_string(),
        function_type: "fn".to_string(),
        data_ins: None,
        data_outs: None,
        if_data_outs: None,
        conditions: None,
        iterators: None,
        constraints: None,
        properties: None,
    }
}

fn node(id: &str, typ: &str, parent: Option<&str>, name: &str) -> EditorNode {
    EditorNode {
        id: id.to_string(),
        typ: typ.to_string(),
        parent_node: parent.map(|p| p.to_string()),
        data: internals(name),
    }
}

fn port(id: &str) -> InternalDataInOrOut {
    InternalDataInOrOut {
        id: id.to_string(),
        name: None,
        rename: None,
        source: None,
        start_source: None,
        value: None,
        typ: None,
        constraints: None,
        properties: None,
    }
}

fn ctrl(source: &str, target: &str) -> Edge {
    Edge {
        source: source.to_string(),
        source_handle: "s".to_string(),
        target: target.to_string(),
        target_handle: "t".to_string(),
    }
}

fn branch(source: &str, which: &str, target: &str) -> Edge {
    Edge {
        source: source.to_string(),
        source_handle: which.to_string(),
        target: target.to_string(),
        target_handle: "t".to_string(),
    }
}

fn wf(name: &str, nodes: Vec<EditorNode>, edges: Vec<Edge>) -> Workflow {
    Workflow { name: name.to_string(), data: Data { nodes, edges } }
}

fn sentinels() -> (EditorNode, EditorNode) {
    (node("0", "start", None, "begin"), node("end", "end", None, "finish"))
}

/// How often a construct for the given node identity occurs in a tree,
/// bodies and branches included.
fn count_id(body: &[ExportedFunction], id: &str) -> usize {
    let mut n: usize = 0;
    for c in body {
        match c {
            ExportedFunction::AtomicFunction { node } => {
                if node.id == id {
                    n += 1;
                }
            }
            ExportedFunction::IfThenElse { node, then, or_else, .. } => {
                if node.id == id {
                    n += 1;
                }
                n += count_id(then, id);
                n += count_id(or_else, id);
            }
            ExportedFunction::ParallelFor { node, loop_body, .. } => {
                if node.id == id {
                    n += 1;
                }
                n += count_id(loop_body, id);
            }
            ExportedFunction::SequentialWhile { node, loop_body, .. } => {
                if node.id == id {
                    n += 1;
                }
                n += count_id(loop_body, id);
            }
        }
    }
    n
}

#[test]
fn empty_graph_gives_empty_body() {
    let (s, e) = sentinels();
    let out = export_from_flow(wf("empty", vec![s, e], vec![])).unwrap();
    assert_eq!(out.name, "empty");
    assert!(out.workflow_body.is_empty());
    assert_eq!(out.data_ins, None);
    assert_eq!(out.data_outs, None);
}

#[test]
fn unknown_kind_fails() {
    let (s, e) = sentinels();
    let bad = node("x", "loop-forever", None, "strange");
    let r = export_from_flow(wf("w", vec![s, bad, e], vec![ctrl("0", "x"), ctrl("x", "end")]));
    assert_eq!(r, Err(ExportError::UnknownNodeKind));
}

#[test]
fn missing_start_fails() {
    let e = node("end", "end", None, "finish");
    let a = node("a", "function", None, "afn");
    let r = export_from_flow(wf("w", vec![a, e], vec![ctrl("a", "end")]));
    assert_eq!(r, Err(ExportError::MissingSentinel));
}

#[test]
fn missing_end_fails() {
    let s = node("0", "start", None, "begin");
    let a = node("a", "function", None, "afn");
    let r = export_from_flow(wf("w", vec![s, a], vec![ctrl("0", "a")]));
    assert_eq!(r, Err(ExportError::MissingSentinel));
}

#[test]
fn literal_passthrough() {
    let (s, e) = sentinels();
    let mut a = node("a", "function", None, "afn");
    let mut p = port("i1");
    p.name = Some("x1".to_string());
    p.source = Some("a".to_string());
    p.value = Some("42".to_string());
    p.typ = Some("string".to_string());
    a.data.data_ins = Some(vec![p]);
    let out = export_from_flow(
        wf("w", vec![s, a, e], vec![ctrl("0", "a"), ctrl("a", "end")]),
    )
    .unwrap();
    assert_eq!(out.workflow_body.len(), 1);
    match &out.workflow_body[0] {
        ExportedFunction::AtomicFunction { node } => {
            assert_eq!(node.id, "a");
            assert_eq!(node.name, "afn");
            assert_eq!(node.typ, "fn");
            let ins = node.data_ins.as_ref().unwrap();
            assert_eq!(ins.len(), 1);
            assert_eq!(ins[0].id, "i1");
            assert_eq!(ins[0].name, "x1");
            assert_eq!(ins[0].typ, "string");
            assert_eq!(ins[0].source, Some("42".to_string()));
        }
        other => panic!("expected an atomic construct, got {:?}", other),
    }
}

#[test]
fn diamond_join_emitted_once() {
    let (s, e) = sentinels();
    let c = node("c", "if", None, "cond");
    let a = node("a", "function", None, "afn");
    let b = node("b", "function", None, "bfn");
    let j = node("j", "function", None, "join");
    let edges = vec![
        ctrl("0", "c"),
        branch("c", "true", "a"),
        branch("c", "false", "b"),
        ctrl("a", "j"),
        ctrl("b", "j"),
        ctrl("j", "end"),
    ];
    let out = export_from_flow(wf("w", vec![s, c, a, b, j, e], edges)).unwrap();
    assert_eq!(count_id(&out.workflow_body, "j"), 1);
    assert_eq!(out.workflow_body.len(), 1);
    match &out.workflow_body[0] {
        ExportedFunction::IfThenElse { node, then, or_else, .. } => {
            assert_eq!(node.id, "c");
            // the join follows the branch that reaches it first
            assert_eq!(count_id(then, "a"), 1);
            assert_eq!(count_id(then, "j"), 1);
            assert_eq!(count_id(or_else, "b"), 1);
            assert_eq!(count_id(or_else, "j"), 0);
        }
        other => panic!("expected a conditional construct, got {:?}", other),
    }
}

#[test]
fn scope_climbing_reaches_outermost_loop() {
    let (s, e) = sentinels();
    let mut w = node("w", "while", None, "outer");
    let mut wout = port("d1");
    wout.rename = Some("collected".to_string());
    w.data.data_outs = Some(vec![wout]);
    let mut b = node("b", "function", Some("w"), "producer");
    let mut bout = port("d1");
    bout.name = Some("bout".to_string());
    bout.typ = Some("number".to_string());
    b.data.data_outs = Some(vec![bout]);
    let p = node("p", "parallel", Some("w"), "mapper");
    let mut a = node("a", "function", Some("p"), "inner");
    let mut ain = port("d1");
    ain.name = Some("val".to_string());
    ain.source = Some("b".to_string());
    a.data.data_ins = Some(vec![ain]);
    let out = export_from_flow(
        wf("w", vec![s, w, b, p, a, e], vec![ctrl("0", "w"), ctrl("w", "end")]),
    )
    .unwrap();
    assert_eq!(out.workflow_body.len(), 1);
    match &out.workflow_body[0] {
        ExportedFunction::SequentialWhile { node, loop_body, .. } => {
            assert_eq!(node.id, "w");
            assert_eq!(loop_body.len(), 2);
            match &loop_body[1] {
                ExportedFunction::ParallelFor { loop_body: inner, .. } => match &inner[0] {
                    ExportedFunction::AtomicFunction { node } => {
                        let ins = node.data_ins.as_ref().unwrap();
                        assert_eq!(ins[0].name, "collected");
                        assert_eq!(ins[0].typ, "number");
                        assert_eq!(ins[0].source, Some("outer/collected".to_string()));
                    }
                    other => panic!("expected the inner call, got {:?}", other),
                },
                other => panic!("expected the parallel loop, got {:?}", other),
            }
        }
        other => panic!("expected the outer loop, got {:?}", other),
    }
}

#[test]
fn iterator_typing_prefers_element_type() {
    let (s, e) = sentinels();
    let mut p = node("p", "parallel", None, "looper");
    let mut pin = port("d2");
    pin.name = Some("item".to_string());
    p.data.data_ins = Some(vec![pin]);
    p.data.iterators = Some(vec![InternalIterator {
        name: Some("item".to_string()),
        element_type: Some("number".to_string()),
    }]);
    let mut a = node("a", "function", Some("p"), "body");
    let mut ain = port("d2");
    ain.name = Some("item".to_string());
    ain.source = Some("p".to_string());
    a.data.data_ins = Some(vec![ain]);
    let out = export_from_flow(
        wf("w", vec![s, p, a, e], vec![ctrl("0", "p"), ctrl("p", "end")]),
    )
    .unwrap();
    match &out.workflow_body[0] {
        ExportedFunction::ParallelFor { iterators, loop_body, .. } => {
            assert_eq!(iterators, &vec!["item".to_string()]);
            match &loop_body[0] {
                ExportedFunction::AtomicFunction { node } => {
                    let ins = node.data_ins.as_ref().unwrap();
                    assert_eq!(ins[0].name, "item");
                    assert_eq!(ins[0].typ, "number");
                    assert_eq!(ins[0].source, Some("looper/item".to_string()));
                }
                other => panic!("expected the loop body call, got {:?}", other),
            }
        }
        other => panic!("expected the parallel loop, got {:?}", other),
    }
}

#[test]
fn conditional_merge_joins_sources() {
    let (s, e) = sentinels();
    let mut c = node("c", "if", None, "chooser");
    let mut o1 = port("o1");
    o1.name = Some("left".to_string());
    o1.source = Some("c".to_string());
    o1.value = Some("va".to_string());
    o1.typ = Some("number".to_string());
    let mut o2 = port("o2");
    o2.name = Some("right".to_string());
    o2.source = Some("c".to_string());
    o2.value = Some("vb".to_string());
    o2.typ = Some("bool".to_string());
    c.data.data_outs = Some(vec![o1, o2]);
    c.data.if_data_outs = Some(vec![IfDataOut {
        id: "m1".to_string(),
        name: "merged".to_string(),
        typ: "string".to_string(),
        sources: vec!["o1".to_string(), "o2".to_string()],
    }]);
    c.data.conditions = Some(vec![Condition {
        data1: "x".to_string(),
        data2: "y".to_string(),
        typ: None,
        operator: "==".to_string(),
        negation: None,
        combined_with: None,
    }]);
    let out = export_from_flow(
        wf("w", vec![s, c, e], vec![ctrl("0", "c"), ctrl("c", "end")]),
    )
    .unwrap();
    match &out.workflow_body[0] {
        ExportedFunction::IfThenElse { node, condition, then, or_else } => {
            let outs = node.data_outs.as_ref().unwrap();
            assert_eq!(outs.len(), 1);
            assert_eq!(outs[0].id, "m1");
            assert_eq!(outs[0].name, "merged");
            assert_eq!(outs[0].typ, "number");
            assert_eq!(outs[0].source, Some("va,vb".to_string()));
            assert_eq!(condition.len(), 1);
            assert_eq!(condition[0].typ, "string");
            assert_eq!(condition[0].negation, "false");
            assert_eq!(condition[0].combined_with, "or");
            assert!(then.is_empty());
            assert!(or_else.is_empty());
        }
        other => panic!("expected the conditional, got {:?}", other),
    }
}

#[test]
fn merge_without_contributing_sources_defaults() {
    let (s, e) = sentinels();
    let mut c = node("c", "if", None, "chooser");
    c.data.if_data_outs = Some(vec![IfDataOut {
        id: "m1".to_string(),
        name: "merged".to_string(),
        typ: "bool".to_string(),
        sources: vec!["nothing".to_string()],
    }]);
    let out = export_from_flow(
        wf("w", vec![s, c, e], vec![ctrl("0", "c"), ctrl("c", "end")]),
    )
    .unwrap();
    match &out.workflow_body[0] {
        ExportedFunction::IfThenElse { node, .. } => {
            let outs = node.data_outs.as_ref().unwrap();
            assert_eq!(outs[0].typ, "string");
            assert_eq!(outs[0].source, Some("".to_string()));
        }
        other => panic!("expected the conditional, got {:?}", other),
    }
}

#[test]
fn unresolved_source_fails() {
    let (s, e) = sentinels();
    let mut a = node("a", "function", None, "afn");
    let mut p = port("i1");
    p.source = Some("ghost".to_string());
    a.data.data_ins = Some(vec![p]);
    let r = export_from_flow(wf("w", vec![s, a, e], vec![ctrl("0", "a"), ctrl("a", "end")]));
    assert_eq!(r, Err(ExportError::UnresolvedSource));
}

#[test]
fn cyclic_nesting_fails() {
    let (s, e) = sentinels();
    let x = node("x", "function", Some("y"), "xfn");
    let mut xn = x;
    xn.data.data_outs = Some(vec![port("q")]);
    let y = node("y", "function", Some("x"), "yfn");
    let mut c = node("c", "function", None, "cfn");
    let mut p = port("q");
    p.source = Some("x".to_string());
    c.data.data_ins = Some(vec![p]);
    let r = export_from_flow(
        wf("w", vec![s, xn, y, c, e], vec![ctrl("0", "c"), ctrl("c", "end")]),
    );
    assert_eq!(r, Err(ExportError::CyclicNesting));
}

#[test]
fn start_and_end_ports_become_document_ports() {
    let (mut s, mut e) = sentinels();
    let mut sp = port("s1");
    sp.name = Some("in1".to_string());
    sp.start_source = Some("ext/source".to_string());
    sp.typ = Some("string".to_string());
    s.data.data_outs = Some(vec![sp]);
    let mut ep = port("e1");
    ep.name = Some("res".to_string());
    ep.start_source = Some("tag".to_string());
    e.data.data_ins = Some(vec![ep]);
    let a = node("a", "function", None, "afn");
    let out = export_from_flow(
        wf("w", vec![s, a, e], vec![ctrl("0", "a"), ctrl("a", "end")]),
    )
    .unwrap();
    let dins = out.data_ins.unwrap();
    assert_eq!(dins[0].id, "s1");
    assert_eq!(dins[0].name, "in1");
    assert_eq!(dins[0].typ, "string");
    assert_eq!(dins[0].source, Some("ext/source".to_string()));
    let douts = out.data_outs.unwrap();
    assert_eq!(douts[0].id, "e1");
    assert_eq!(douts[0].name, "res");
    assert_eq!(douts[0].source, Some("tag".to_string()));
}

#[test]
fn data_handles_are_excluded_from_control_flow() {
    let (s, e) = sentinels();
    let a = node("a", "function", None, "afn");
    let mut data_edge = ctrl("0", "a");
    data_edge.source_handle = "i1".to_string();
    let out = export_from_flow(
        wf("w", vec![s, a, e], vec![data_edge, ctrl("a", "end")]),
    )
    .unwrap();
    assert!(out.workflow_body.is_empty());
}

#[test]
fn output_side_data_handles_are_excluded_too() {
    let (s, e) = sentinels();
    let a = node("a", "function", None, "afn");
    let mut data_edge = ctrl("0", "a");
    data_edge.target_handle = "o2".to_string();
    let out = export_from_flow(
        wf("w", vec![s, a, e], vec![data_edge, ctrl("a", "end")]),
    )
    .unwrap();
    assert!(out.workflow_body.is_empty());
}

#[test]
fn duplicate_edges_collapse() {
    let (s, e) = sentinels();
    let a = node("a", "function", None, "afn");
    let out = export_from_flow(
        wf(
            "w",
            vec![s, a, e],
            vec![ctrl("0", "a"), ctrl("0", "a"), ctrl("a", "end")],
        ),
    )
    .unwrap();
    assert_eq!(count_id(&out.workflow_body, "a"), 1);
}

#[test]
fn bodiless_loop_is_dropped() {
    let (s, e) = sentinels();
    let p = node("p", "parallel", None, "looper");
    let out = export_from_flow(
        wf("w", vec![s, p, e], vec![ctrl("0", "p"), ctrl("p", "end")]),
    )
    .unwrap();
    assert!(out.workflow_body.is_empty());
}

#[test]
fn compilation_is_deterministic() {
    let build = || {
        let (s, e) = sentinels();
        let mut w = node("w", "while", None, "outer");
        let mut wout = port("d1");
        wout.rename = Some("collected".to_string());
        w.data.data_outs = Some(vec![wout]);
        let mut b = node("b", "function", Some("w"), "producer");
        let mut bout = port("d1");
        bout.name = Some("bout".to_string());
        bout.typ = Some("number".to_string());
        b.data.data_outs = Some(vec![bout]);
        let p = node("p", "parallel", Some("w"), "mapper");
        let mut a = node("a", "function", Some("p"), "inner");
        let mut ain = port("d1");
        ain.name = Some("val".to_string());
        ain.source = Some("b".to_string());
        a.data.data_ins = Some(vec![ain]);
        wf("same", vec![s, w, b, p, a, e], vec![ctrl("0", "w"), ctrl("w", "end")])
    };
    let r1 = export_from_flow(build());
    let r2 = export_from_flow(build());
    assert_eq!(r1, r2);
}

#[test]
fn skip_type_if_recognizes_composite_tags() {
    assert!(skip_type_if(&"if".to_string()));
    assert!(skip_type_if(&"parallel".to_string()));
    assert!(skip_type_if(&"while".to_string()));
    assert!(!skip_type_if(&"fn".to_string()));
    assert!(!skip_type_if(&"".to_string()));
}

#[test]
fn literal_resolution_needs_no_arena() {
    let p = InternalDataInOrOut {
        id: "i1".to_string(),
        name: Some("x".to_string()),
        rename: None,
        source: Some("me".to_string()),
        start_source: None,
        value: Some("42".to_string()),
        typ: Some("string".to_string()),
        constraints: None,
        properties: None,
    };
    let arena: Vec<wf_exporter::index::IndexedNode> = Vec::new();
    let b = wf_exporter::resolve::get_data_input(&p, &"me".to_string(), &arena).unwrap();
    assert_eq!(b.id, "i1");
    assert_eq!(b.name, "x");
    assert_eq!(b.typ, "string");
    assert_eq!(b.source, Some("42".to_string()));
}
