//! Output side of the compiler: the resolved construct tree that the
//! emitter produces, the error taxonomy, and their spec-level models.

use vstd::prelude::*;
use crate::model::TagModel;
use crate::model::PropertyOrConstraint;

verus! {

/// Why a compilation was aborted. No partial output accompanies an error.
#[derive(Clone, Copy, Debug, PartialEq, Eq, Structural)]
pub enum ExportError {
    /// No node carries the reserved start identity, or none the reserved
    /// end identity.
    MissingSentinel,
    /// A node's declared kind is outside the recognized set.
    UnknownNodeKind,
    /// A data-input's upstream node, or the named port on it, cannot be
    /// located.
    UnresolvedSource,
    /// A structural-parent chain loops back on itself, so neither scope
    /// climbing nor body emission could ever finish.
    CyclicNesting,
}

/// A fully resolved data binding of an emitted construct: the bound name,
/// the inferred type, and the concrete source reference or literal.
#[derive(Debug, PartialEq, Eq)]
pub struct DataInOrOut {
    pub id: String,
    pub name: String,
    pub typ: String,
    pub source: Option<String>,
    pub properties: Option<Vec<PropertyOrConstraint>>,
    pub constraints: Option<Vec<PropertyOrConstraint>>,
}

/// Spec model of [`DataInOrOut`].
#[verifier::ext_equal]
pub struct DataInOrOutModel {
    pub id: Seq<char>,
    pub name: Seq<char>,
    pub typ: Seq<char>,
    pub source: Option<Seq<char>>,
    pub properties: Option<Seq<TagModel>>,
    pub constraints: Option<Seq<TagModel>>,
}

impl DeepView for DataInOrOut {
    type V = DataInOrOutModel;

    open spec fn deep_view(&self) -> DataInOrOutModel {
        DataInOrOutModel {
            id: self.id@,
            name: self.name@,
            typ: self.typ@,
            source: self.source.deep_view(),
            properties: self.properties.deep_view(),
            constraints: self.constraints.deep_view(),
        }
    }
}

/// A branch or loop condition with every optional field defaulted.
#[derive(Debug, PartialEq, Eq)]
pub struct ResolvedCondition {
    pub data1: String,
    pub data2: String,
    pub typ: String,
    pub operator: String,
    pub negation: String,
    pub combined_with: String,
}

/// Spec model of [`ResolvedCondition`].
#[verifier::ext_equal]
pub struct ResolvedConditionModel {
    pub data1: Seq<char>,
    pub data2: Seq<char>,
    pub typ: Seq<char>,
    pub operator: Seq<char>,
    pub negation: Seq<char>,
    pub combined_with: Seq<char>,
}

impl DeepView for ResolvedCondition {
    type V = ResolvedConditionModel;

    open spec fn deep_view(&self) -> ResolvedConditionModel {
        ResolvedConditionModel {
            data1: self.data1@,
            data2: self.data2@,
            typ: self.typ@,
            operator: self.operator@,
            negation: self.negation@,
            combined_with: self.combined_with@,
        }
    }
}

/// The common core of every emitted construct: the node's identity and
/// display name, its function-type tag, and its resolved port bindings.
#[derive(Debug, PartialEq, Eq)]
pub struct ResolvedNode {
    pub id: String,
    pub name: String,
    pub typ: String,
    pub data_ins: Option<Vec<DataInOrOut>>,
    pub data_outs: Option<Vec<DataInOrOut>>,
    pub properties: Option<Vec<PropertyOrConstraint>>,
    pub constraints: Option<Vec<PropertyOrConstraint>>,
}

/// Spec model of [`ResolvedNode`].
#[verifier::ext_equal]
pub struct ResolvedNodeModel {
    pub id: Seq<char>,
    pub name: Seq<char>,
    pub typ: Seq<char>,
    pub data_ins: Option<Seq<DataInOrOutModel>>,
    pub data_outs: Option<Seq<DataInOrOutModel>>,
    pub properties: Option<Seq<TagModel>>,
    pub constraints: Option<Seq<TagModel>>,
}

impl DeepView for ResolvedNode {
    type V = ResolvedNodeModel;

    open spec fn deep_view(&self) -> ResolvedNodeModel {
        ResolvedNodeModel {
            id: self.id@,
            name: self.name@,
            typ: self.typ@,
            data_ins: self.data_ins.deep_view(),
            data_outs: self.data_outs.deep_view(),
            properties: self.properties.deep_view(),
            constraints: self.constraints.deep_view(),
        }
    }
}

/// One construct of the emitted workflow tree. Composite kinds own their
/// branch or body constructs; sentinels are never emitted.
#[derive(Debug, PartialEq, Eq)]
pub enum ExportedFunction {
    AtomicFunction {
        node: ResolvedNode,
    },
    IfThenElse {
        node: ResolvedNode,
        condition: Vec<ResolvedCondition>,
        then: Vec<ExportedFunction>,
        or_else: Vec<ExportedFunction>,
    },
    ParallelFor {
        node: ResolvedNode,
        iterators: Vec<String>,
        loop_body: Vec<ExportedFunction>,
    },
    SequentialWhile {
        node: ResolvedNode,
        condition: Vec<ResolvedCondition>,
        loop_body: Vec<ExportedFunction>,
    },
}

/// Spec model of [`ExportedFunction`].
#[verifier::ext_equal]
pub enum ConstructModel {
    AtomicFunction {
        node: ResolvedNodeModel,
    },
    IfThenElse {
        node: ResolvedNodeModel,
        condition: Seq<ResolvedConditionModel>,
        then: Seq<ConstructModel>,
        or_else: Seq<ConstructModel>,
    },
    ParallelFor {
        node: ResolvedNodeModel,
        iterators: Seq<Seq<char>>,
        loop_body: Seq<ConstructModel>,
    },
    SequentialWhile {
        node: ResolvedNodeModel,
        condition: Seq<ResolvedConditionModel>,
        loop_body: Seq<ConstructModel>,
    },
}

impl ExportedFunction {
    /// The spec model of this construct, children included.
    pub open spec fn model(self) -> ConstructModel
        decreases self,
    {
        match self {
            ExportedFunction::AtomicFunction { node } => ConstructModel::AtomicFunction {
                node: node.deep_view(),
            },
            ExportedFunction::IfThenElse { node, condition, then, or_else } => {
                ConstructModel::IfThenElse {
                    node: node.deep_view(),
                    condition: condition.deep_view(),
                    then: constructs_model(then@),
                    or_else: constructs_model(or_else@),
                }
            },
            ExportedFunction::ParallelFor { node, iterators, loop_body } => {
                ConstructModel::ParallelFor {
                    node: node.deep_view(),
                    iterators: iterators.deep_view(),
                    loop_body: constructs_model(loop_body@),
                }
            },
            ExportedFunction::SequentialWhile { node, condition, loop_body } => {
                ConstructModel::SequentialWhile {
                    node: node.deep_view(),
                    condition: condition.deep_view(),
                    loop_body: constructs_model(loop_body@),
                }
            },
        }
    }
}

/// The spec models of a list of constructs, in order.
pub open spec fn constructs_model(s: Seq<ExportedFunction>) -> Seq<ConstructModel>
    decreases s,
{
    if s.len() == 0 {
        Seq::empty()
    } else {
        seq![s[0].model()] + constructs_model(s.drop_first())
    }
}

/// The models of a concatenation are the concatenated models.
pub proof fn lemma_constructs_model_concat(a: Seq<ExportedFunction>, b: Seq<ExportedFunction>)
    ensures
        constructs_model(a + b) == constructs_model(a) + constructs_model(b),
    decreases a.len(),
{
    if a.len() == 0 {
        assert(a + b =~= b);
        assert(constructs_model(a) + constructs_model(b) =~= constructs_model(b));
    } else {
        assert((a + b).drop_first() =~= a.drop_first() + b);
        assert((a + b).len() != 0);
        assert((a + b)[0] == a[0]);
        lemma_constructs_model_concat(a.drop_first(), b);
        assert(seq![a[0].model()] + (constructs_model(a.drop_first()) + constructs_model(b)) =~= (
        seq![a[0].model()] + constructs_model(a.drop_first())) + constructs_model(b));
    }
}

/// The compiled workflow document: resolved top-level ports of the start
/// and end sentinels and the ordered top-level constructs.
#[derive(Debug, PartialEq, Eq)]
pub struct ApolloYaml {
    pub name: String,
    pub data_ins: Option<Vec<DataInOrOut>>,
    pub workflow_body: Vec<ExportedFunction>,
    pub data_outs: Option<Vec<DataInOrOut>>,
}

/// Spec model of [`ApolloYaml`].
#[verifier::ext_equal]
pub struct YamlModel {
    pub name: Seq<char>,
    pub data_ins: Option<Seq<DataInOrOutModel>>,
    pub workflow_body: Seq<ConstructModel>,
    pub data_outs: Option<Seq<DataInOrOutModel>>,
}

impl ApolloYaml {
    /// The spec model of the whole document.
    pub open spec fn model(self) -> YamlModel {
        YamlModel {
            name: self.name@,
            data_ins: self.data_ins.deep_view(),
            workflow_body: constructs_model(self.workflow_body@),
            data_outs: self.data_outs.deep_view(),
        }
    }
}

/// The model of a compilation result: the document's model on success,
/// the error unchanged on failure.
pub open spec fn result_model(r: Result<ApolloYaml, ExportError>) -> Result<YamlModel, ExportError> {
    match r {
        Ok(y) => Ok(y.model()),
        Err(e) => Err(e),
    }
}

/// Whether a function-type tag is one of the composite control-flow tags,
/// which the serialization layer leaves implicit on the construct.
pub open spec fn spec_skip_type_if(t: Seq<char>) -> bool {
    t == "if"@ || t == "parallel"@ || t == "while"@
}

/// Tells the serialization layer to omit the `type` field of a construct
/// whose tag already names the construct form.
pub fn skip_type_if(typ: &String) -> (r: bool)
    ensures
        r == spec_skip_type_if(typ@),
{
    let a = String::from_str("if");
    let b = String::from_str("parallel");
    let c = String::from_str("while");
    typ.eq(&a) || typ.eq(&b) || typ.eq(&c)
}

} // verus!
