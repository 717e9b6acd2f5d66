//! Compiler from a flat, visually-authored workflow graph to a nested
//! workflow description.
//!
//! The input is a graph of nodes and typed connections with explicit
//! parent/child nesting metadata; the output is a tree of control-flow
//! constructs whose data dependencies are resolved to concrete source
//! references. The work splits into three parts: indexing the raw graph
//! into lookup structures, reconstructing structured control flow by
//! recursive descent over the control edges, and resolving every data
//! port across nesting scopes to its authoritative upstream binding.

pub mod emit;
pub mod export;
pub mod index;
pub mod laws;
pub mod model;
pub mod output;
pub mod resolve;
pub mod strutil;

pub use model::Workflow;
pub use model::Condition;
pub use model::IfDataOut;
pub use model::InternalDataInOrOut;
pub use model::PropertyOrConstraint;
pub use export::export_from_flow;
pub use output::ApolloYaml;
pub use output::ExportError;
pub use output::skip_type_if;
