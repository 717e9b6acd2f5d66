//! Input side of the compiler: the raw workflow graph as the visual editor
//! hands it over, together with the spec-level models that the contracts
//! speak about.
//!
//! Every executable type has a model type whose fields are sequences of
//! characters instead of `String`s; `deep_view` maps one onto the other.

use vstd::prelude::*;

verus! {

/// A free-form named tag attached to a node or a port.
#[derive(Debug, PartialEq, Eq)]
pub struct PropertyOrConstraint {
    pub name: String,
    pub value: String,
}

/// Spec model of [`PropertyOrConstraint`].
#[verifier::ext_equal]
pub struct TagModel {
    pub name: Seq<char>,
    pub value: Seq<char>,
}

impl DeepView for PropertyOrConstraint {
    type V = TagModel;

    open spec fn deep_view(&self) -> TagModel {
        TagModel { name: self.name@, value: self.value@ }
    }
}

/// A named, typed iteration variable declared on a parallel-for node.
#[derive(Debug, PartialEq, Eq)]
pub struct InternalIterator {
    pub name: Option<String>,
    pub element_type: Option<String>,
}

/// Spec model of [`InternalIterator`].
#[verifier::ext_equal]
pub struct IteratorModel {
    pub name: Option<Seq<char>>,
    pub element_type: Option<Seq<char>>,
}

impl DeepView for InternalIterator {
    type V = IteratorModel;

    open spec fn deep_view(&self) -> IteratorModel {
        IteratorModel { name: self.name.deep_view(), element_type: self.element_type.deep_view() }
    }
}

/// A conditional node's declared merge output: it aggregates the values of
/// the branch outputs listed in `sources` into one binding.
#[derive(Debug, PartialEq, Eq)]
pub struct IfDataOut {
    pub id: String,
    pub name: String,
    pub typ: String,
    pub sources: Vec<String>,
}

/// Spec model of [`IfDataOut`].
#[verifier::ext_equal]
pub struct MergeOutModel {
    pub id: Seq<char>,
    pub name: Seq<char>,
    pub typ: Seq<char>,
    pub sources: Seq<Seq<char>>,
}

impl DeepView for IfDataOut {
    type V = MergeOutModel;

    open spec fn deep_view(&self) -> MergeOutModel {
        MergeOutModel {
            id: self.id@,
            name: self.name@,
            typ: self.typ@,
            sources: self.sources.deep_view(),
        }
    }
}

/// A raw branch or loop condition as declared on a conditional or
/// sequential-while node.
#[derive(Debug, PartialEq, Eq)]
pub struct Condition {
    pub data1: String,
    pub data2: String,
    pub typ: Option<String>,
    pub operator: String,
    pub negation: Option<String>,
    pub combined_with: Option<String>,
}

/// Spec model of [`Condition`].
#[verifier::ext_equal]
pub struct ConditionModel {
    pub data1: Seq<char>,
    pub data2: Seq<char>,
    pub typ: Option<Seq<char>>,
    pub operator: Seq<char>,
    pub negation: Option<Seq<char>>,
    pub combined_with: Option<Seq<char>>,
}

impl DeepView for Condition {
    type V = ConditionModel;

    open spec fn deep_view(&self) -> ConditionModel {
        ConditionModel {
            data1: self.data1@,
            data2: self.data2@,
            typ: self.typ.deep_view(),
            operator: self.operator@,
            negation: self.negation.deep_view(),
            combined_with: self.combined_with.deep_view(),
        }
    }
}

/// A declared data-input or data-output port of a node, before resolution.
///
/// A port either carries a literal `value`, a `source` reference to an
/// upstream node's identity, or, on the start node, an external
/// `start_source` tag. A `source` equal to the owning node's own identity
/// marks the port as a literal, not a graph edge.
#[derive(Debug, PartialEq, Eq)]
pub struct InternalDataInOrOut {
    pub id: String,
    pub name: Option<String>,
    pub rename: Option<String>,
    pub source: Option<String>,
    pub start_source: Option<String>,
    pub value: Option<String>,
    pub typ: Option<String>,
    pub constraints: Option<Vec<PropertyOrConstraint>>,
    pub properties: Option<Vec<PropertyOrConstraint>>,
}

/// Spec model of [`InternalDataInOrOut`].
#[verifier::ext_equal]
pub struct PortDeclModel {
    pub id: Seq<char>,
    pub name: Option<Seq<char>>,
    pub rename: Option<Seq<char>>,
    pub source: Option<Seq<char>>,
    pub start_source: Option<Seq<char>>,
    pub value: Option<Seq<char>>,
    pub typ: Option<Seq<char>>,
    pub constraints: Option<Seq<TagModel>>,
    pub properties: Option<Seq<TagModel>>,
}

impl DeepView for InternalDataInOrOut {
    type V = PortDeclModel;

    open spec fn deep_view(&self) -> PortDeclModel {
        PortDeclModel {
            id: self.id@,
            name: self.name.deep_view(),
            rename: self.rename.deep_view(),
            source: self.source.deep_view(),
            start_source: self.start_source.deep_view(),
            value: self.value.deep_view(),
            typ: self.typ.deep_view(),
            constraints: self.constraints.deep_view(),
            properties: self.properties.deep_view(),
        }
    }
}

/// The payload of a graph node: display name, the secondary function-type
/// tag, the declared ports, and the kind-specific declarations.
#[derive(Debug, PartialEq, Eq)]
pub struct NodeInternals {
    pub name: String,
    pub function_type: String,
    pub data_ins: Option<Vec<InternalDataInOrOut>>,
    pub data_outs: Option<Vec<InternalDataInOrOut>>,
    pub if_data_outs: Option<Vec<IfDataOut>>,
    pub conditions: Option<Vec<Condition>>,
    pub iterators: Option<Vec<InternalIterator>>,
    pub constraints: Option<Vec<PropertyOrConstraint>>,
    pub properties: Option<Vec<PropertyOrConstraint>>,
}

/// Spec model of [`NodeInternals`].
#[verifier::ext_equal]
pub struct NodeInternalsModel {
    pub name: Seq<char>,
    pub function_type: Seq<char>,
    pub data_ins: Option<Seq<PortDeclModel>>,
    pub data_outs: Option<Seq<PortDeclModel>>,
    pub if_data_outs: Option<Seq<MergeOutModel>>,
    pub conditions: Option<Seq<ConditionModel>>,
    pub iterators: Option<Seq<IteratorModel>>,
    pub constraints: Option<Seq<TagModel>>,
    pub properties: Option<Seq<TagModel>>,
}

impl DeepView for NodeInternals {
    type V = NodeInternalsModel;

    open spec fn deep_view(&self) -> NodeInternalsModel {
        NodeInternalsModel {
            name: self.name@,
            function_type: self.function_type@,
            data_ins: self.data_ins.deep_view(),
            data_outs: self.data_outs.deep_view(),
            if_data_outs: self.if_data_outs.deep_view(),
            conditions: self.conditions.deep_view(),
            iterators: self.iterators.deep_view(),
            constraints: self.constraints.deep_view(),
            properties: self.properties.deep_view(),
        }
    }
}

/// One node of the raw graph: identity, kind discriminant, optional
/// structural parent, and payload.
#[derive(Debug, PartialEq, Eq)]
pub struct EditorNode {
    pub id: String,
    pub typ: String,
    pub parent_node: Option<String>,
    pub data: NodeInternals,
}

/// Spec model of [`EditorNode`].
#[verifier::ext_equal]
pub struct EditorNodeModel {
    pub id: Seq<char>,
    pub typ: Seq<char>,
    pub parent_node: Option<Seq<char>>,
    pub data: NodeInternalsModel,
}

impl DeepView for EditorNode {
    type V = EditorNodeModel;

    open spec fn deep_view(&self) -> EditorNodeModel {
        EditorNodeModel {
            id: self.id@,
            typ: self.typ@,
            parent_node: self.parent_node.deep_view(),
            data: self.data.deep_view(),
        }
    }
}

/// One connection of the raw graph. Handles whose prefix marks them as
/// data-only exclude the edge from control-flow indexing; a source handle
/// of exactly `true` or `false` marks a conditional branch edge.
#[derive(Debug, PartialEq, Eq)]
pub struct Edge {
    pub source: String,
    pub source_handle: String,
    pub target: String,
    pub target_handle: String,
}

/// Spec model of [`Edge`].
#[verifier::ext_equal]
pub struct EdgeModel {
    pub source: Seq<char>,
    pub source_handle: Seq<char>,
    pub target: Seq<char>,
    pub target_handle: Seq<char>,
}

impl DeepView for Edge {
    type V = EdgeModel;

    open spec fn deep_view(&self) -> EdgeModel {
        EdgeModel {
            source: self.source@,
            source_handle: self.source_handle@,
            target: self.target@,
            target_handle: self.target_handle@,
        }
    }
}

/// The node and edge lists of a graph document.
#[derive(Debug, PartialEq, Eq)]
pub struct Data {
    pub nodes: Vec<EditorNode>,
    pub edges: Vec<Edge>,
}

/// Spec model of [`Data`].
#[verifier::ext_equal]
pub struct DataModel {
    pub nodes: Seq<EditorNodeModel>,
    pub edges: Seq<EdgeModel>,
}

impl DeepView for Data {
    type V = DataModel;

    open spec fn deep_view(&self) -> DataModel {
        DataModel { nodes: self.nodes.deep_view(), edges: self.edges.deep_view() }
    }
}

/// A whole graph document: the workflow name and its graph.
#[derive(Debug, PartialEq, Eq)]
pub struct Workflow {
    pub name: String,
    pub data: Data,
}

/// Spec model of [`Workflow`].
#[verifier::ext_equal]
pub struct WorkflowModel {
    pub name: Seq<char>,
    pub data: DataModel,
}

impl DeepView for Workflow {
    type V = WorkflowModel;

    open spec fn deep_view(&self) -> WorkflowModel {
        WorkflowModel { name: self.name@, data: self.data.deep_view() }
    }
}

} // verus!
