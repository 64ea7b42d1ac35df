//! Ad-hoc query evaluation for a graph-database explorer: a parsed traversal is
//! resolved, compiled to an ordered list of remote tools, run against a
//! session-oriented remote pipeline and its result normalized.
//!
//! The stages, in the order in which a query goes through them:
//! `hql_processor` rewrites its text and `source` plans its parsing;
//! `planner` reads its statements, after `read_only` has refused what writes;
//! `resolver` expands its variables; `hql_translator` compiles each traversal
//! (with `filter_compiler` for `WHERE` clauses and `value_extractor` for
//! operands); `evaluation` and `hql_executor` run what was compiled
//! (`requests` builds what is sent, `id_filter` matches identifiers on the
//! client); `normalizer` cleans the result. `messages` words the errors.

pub mod ast;
pub mod error;
pub mod evaluation;
pub mod filter_compiler;
pub mod hql_executor;
pub mod hql_processor;
pub mod hql_translator;
pub mod id_filter;
pub mod json;
pub mod messages;
pub mod normalizer;
pub mod planner;
pub mod read_only;
pub mod requests;
pub mod resolver;
pub mod source;
pub mod stats;
pub mod text;
pub mod tool_args;
pub mod value;
pub mod value_extractor;
