//! The words for what went wrong: every error says in a line what it is.

use crate::error::{CompileError, CompileErrorView, ResolutionError, ResolutionErrorView};
use crate::hql_executor::{ExecutionError, ExecutionErrorView, Stage};
use crate::planner::{EvalError, EvalErrorView, ReadOnlyReason};
use crate::stats::{WorkspaceError, WorkspaceErrorView};
use crate::text::{decimal, decimal_text};
use vstd::prelude::*;

verus! {

/// Two texts, one after the other.
pub fn join2(a: &str, b: &str) -> (r: String)
    ensures
        r@ == a@ + b@,
{
    let mut out = String::from_str(a);
    out.append(b);
    out
}

/// Three texts, one after the other.
pub fn join3(a: &str, b: &str, c: &str) -> (r: String)
    ensures
        r@ == a@ + b@ + c@,
{
    let mut out = join2(a, b);
    out.append(c);
    out
}

/// Five texts, one after the other.
pub fn join5(a: &str, b: &str, c: &str, d: &str, e: &str) -> (r: String)
    ensures
        r@ == a@ + b@ + c@ + d@ + e@,
{
    let mut out = join3(a, b, c);
    out.append(d);
    out.append(e);
    out
}

/// What a compile error says.
pub open spec fn compile_error_text(e: CompileErrorView) -> Seq<char> {
    match e {
        CompileErrorView::UnsupportedStep { index, kind } => "Unsupported step type at index "@
            + decimal(index as nat) + ": "@ + kind,
        CompileErrorView::UnsupportedFilterStep { kind } => "Unsupported step type in filter chain: "@
            + kind,
        CompileErrorView::UnsupportedExpression { kind } => "Unsupported expression type in WHERE: "@
            + kind,
        CompileErrorView::UnsupportedValue { kind } => "Unsupported value type in WHERE comparison: "@
            + kind,
        CompileErrorView::UnsupportedFieldValue { kind } => "Unsupported field value type: "@ + kind,
        CompileErrorView::UnsupportedOperator { kind } => "Unsupported boolean operator in dynamic HQL: "@
            + kind,
        CompileErrorView::UnsupportedVectorData => "Unsupported vector search data"@,
        CompileErrorView::WhereNotAnonymous => "WHERE clause traversal must start with anonymous node (_)"@,
        CompileErrorView::WhereTooShort => "WHERE clause traversal too short"@,
        CompileErrorView::MixedFilter => "A nested traversal filter cannot be combined with property conditions"@,
        CompileErrorView::OrderByNotSimple => "ORDER BY currently only supports simple identifiers or _::{prop}"@,
        CompileErrorView::PropertyAccessNotSimple => "Only simple property access like _::{prop} is supported here"@,
        CompileErrorView::MissingEdgeStep => "::ToN or ::FromN must follow an edge traversal step (like ::OutE or ::InE)"@,
        CompileErrorView::MissingParameter { name } => "Parameter '"@ + name
            + "' is required but missing from arguments."@,
        CompileErrorView::MissingSearchQuery => "SearchBM25 requires a query string"@,
        CompileErrorView::ReadOnly { index, kind } => "Explorer Mode is Read-Only: the step at index "@
            + decimal(index as nat) + " writes data: "@ + kind,
    }
}

impl CompileError {
    /// What the error says.
    pub fn message(&self) -> (r: String)
        ensures
            r@ == compile_error_text(self@),
    {
        match self {
            CompileError::UnsupportedStep { index, kind } => {
                let at = decimal_text(*index as u64);
                let mut out = join3("Unsupported step type at index ", at.as_str(), ": ");
                out.append(kind.as_str());
                out
            },
            CompileError::UnsupportedFilterStep { kind } => join2(
                "Unsupported step type in filter chain: ",
                kind.as_str(),
            ),
            CompileError::UnsupportedExpression { kind } => join2(
                "Unsupported expression type in WHERE: ",
                kind.as_str(),
            ),
            CompileError::UnsupportedValue { kind } => join2(
                "Unsupported value type in WHERE comparison: ",
                kind.as_str(),
            ),
            CompileError::UnsupportedFieldValue { kind } => join2(
                "Unsupported field value type: ",
                kind.as_str(),
            ),
            CompileError::UnsupportedOperator { kind } => join2(
                "Unsupported boolean operator in dynamic HQL: ",
                kind.as_str(),
            ),
            CompileError::UnsupportedVectorData => String::from_str(
                "Unsupported vector search data",
            ),
            CompileError::WhereNotAnonymous => String::from_str(
                "WHERE clause traversal must start with anonymous node (_)",
            ),
            CompileError::WhereTooShort => String::from_str("WHERE clause traversal too short"),
            CompileError::MixedFilter => String::from_str(
                "A nested traversal filter cannot be combined with property conditions",
            ),
            CompileError::OrderByNotSimple => String::from_str(
                "ORDER BY currently only supports simple identifiers or _::{prop}",
            ),
            CompileError::PropertyAccessNotSimple => String::from_str(
                "Only simple property access like _::{prop} is supported here",
            ),
            CompileError::MissingEdgeStep => String::from_str(
                "::ToN or ::FromN must follow an edge traversal step (like ::OutE or ::InE)",
            ),
            CompileError::MissingParameter { name } => join3(
                "Parameter '",
                name.as_str(),
                "' is required but missing from arguments.",
            ),
            CompileError::MissingSearchQuery => String::from_str(
                "SearchBM25 requires a query string",
            ),
            CompileError::ReadOnly { index, kind } => {
                let at = decimal_text(*index as u64);
                let mut out = join3(
                    "Explorer Mode is Read-Only: the step at index ",
                    at.as_str(),
                    " writes data: ",
                );
                out.append(kind.as_str());
                out
            },
        }
    }
}

/// What a resolution error says.
pub open spec fn resolution_error_text(e: ResolutionErrorView) -> Seq<char> {
    match e {
        ResolutionErrorView::VariableNotFound { name } => "Variable '"@ + name + "' not found"@,
        ResolutionErrorView::CircularDependency { name } => "Circular dependency or too deep recursion detected at '"@
            + name + "'"@,
    }
}

impl ResolutionError {
    /// What the error says.
    pub fn message(&self) -> (r: String)
        ensures
            r@ == resolution_error_text(self@),
    {
        match self {
            ResolutionError::VariableNotFound { name } => join3(
                "Variable '",
                name.as_str(),
                "' not found",
            ),
            ResolutionError::CircularDependency { name } => join3(
                "Circular dependency or too deep recursion detected at '",
                name.as_str(),
                "'",
            ),
        }
    }
}

/// What a request is called in an error.
pub open spec fn stage_text(stage: Stage) -> Seq<char> {
    match stage {
        Stage::Init => "Init"@,
        Stage::Tool => "Tool call"@,
        Stage::Search => "Search"@,
        Stage::Collect => "Collect"@,
        Stage::Count => "Count"@,
        Stage::Aggregate => "Aggregate"@,
        Stage::GroupBy => "GroupBy"@,
    }
}

/// What a request is called in an error.
pub fn stage_name(stage: Stage) -> (r: &'static str)
    ensures
        r@ == stage_text(stage),
{
    match stage {
        Stage::Init => "Init",
        Stage::Tool => "Tool call",
        Stage::Search => "Search",
        Stage::Collect => "Collect",
        Stage::Count => "Count",
        Stage::Aggregate => "Aggregate",
        Stage::GroupBy => "GroupBy",
    }
}

/// What an execution error says: a failure names the request and gives the
/// detail; a refusal by the server gives the status and the body as they came.
pub open spec fn execution_error_text(e: ExecutionErrorView) -> Seq<char> {
    match e {
        ExecutionErrorView::Compile(inner) => compile_error_text(inner),
        ExecutionErrorView::Transport { stage, detail } => stage_text(stage) + " failed: "@ + detail,
        ExecutionErrorView::Status { stage, status, body } => stage_text(stage) + " error ("@
            + decimal(status as nat) + "): "@ + body,
        ExecutionErrorView::Unparsable { stage, detail } => "Failed to parse results: "@ + detail,
        ExecutionErrorView::Session { body, detail } => "Failed to parse connection_id from '"@
            + body + "': "@ + detail,
        ExecutionErrorView::NotRunning => "No request is awaited"@,
    }
}

impl ExecutionError {
    /// What the error says.
    pub fn message(&self) -> (r: String)
        ensures
            r@ == execution_error_text(self@),
    {
        match self {
            ExecutionError::Compile(inner) => inner.message(),
            ExecutionError::Transport { stage, detail } => join3(
                stage_name(*stage),
                " failed: ",
                detail.as_str(),
            ),
            ExecutionError::Status { stage, status, body } => {
                let code = decimal_text(*status as u64);
                join5(stage_name(*stage), " error (", code.as_str(), "): ", body.as_str())
            },
            ExecutionError::Unparsable { stage: _, detail } => join2(
                "Failed to parse results: ",
                detail.as_str(),
            ),
            ExecutionError::Session { body, detail } => {
                let mut out = join3("Failed to parse connection_id from '", body.as_str(), "': ");
                out.append(detail.as_str());
                out
            },
            ExecutionError::NotRunning => String::from_str("No request is awaited"),
        }
    }
}

/// What the refusal of a query that is not read-only says.
pub open spec fn read_only_text(reason: ReadOnlyReason) -> Seq<char> {
    match reason {
        ReadOnlyReason::Write => "Explorer Mode is Read-Only: The underlying MCP protocol does not support writing data. For more details, refer to https://docs.helix-db.com/guides/mcp-guide. To modify data (Add/Update/Delete), please use Migrations or the HTTP API."@,
        ReadOnlyReason::ControlFlow => "Explorer Mode is Read-Only: The underlying MCP protocol does not support writing data or complex control flow. For more details, refer to https://docs.helix-db.com/guides/mcp-guide. To modify data (Add/Update/Delete), please use Migrations or the HTTP API."@,
    }
}

/// What an evaluation error says.
pub open spec fn eval_error_text(e: EvalErrorView) -> Seq<char> {
    match e {
        EvalErrorView::ReadOnly(reason) => read_only_text(reason),
        EvalErrorView::NothingToRun => "No executable traversal or return statement found."@,
        EvalErrorView::Resolution(inner) => resolution_error_text(inner),
        EvalErrorView::Compile(inner) => compile_error_text(inner),
        EvalErrorView::Execution(inner) => execution_error_text(inner),
    }
}

impl EvalError {
    /// What the error says.
    pub fn message(&self) -> (r: String)
        ensures
            r@ == eval_error_text(self@),
    {
        match self {
            EvalError::ReadOnly(ReadOnlyReason::Write) => String::from_str(
                "Explorer Mode is Read-Only: The underlying MCP protocol does not support writing data. For more details, refer to https://docs.helix-db.com/guides/mcp-guide. To modify data (Add/Update/Delete), please use Migrations or the HTTP API.",
            ),
            EvalError::ReadOnly(ReadOnlyReason::ControlFlow) => String::from_str(
                "Explorer Mode is Read-Only: The underlying MCP protocol does not support writing data or complex control flow. For more details, refer to https://docs.helix-db.com/guides/mcp-guide. To modify data (Add/Update/Delete), please use Migrations or the HTTP API.",
            ),
            EvalError::NothingToRun => String::from_str(
                "No executable traversal or return statement found.",
            ),
            EvalError::Resolution(inner) => inner.message(),
            EvalError::Compile(inner) => inner.message(),
            EvalError::Execution(inner) => inner.message(),
        }
    }
}

/// What a workspace error says.
pub open spec fn workspace_error_text(e: WorkspaceErrorView) -> Seq<char> {
    match e {
        WorkspaceErrorView::PathMissing { path } => "Path does not exist: "@ + path,
        WorkspaceErrorView::NoHelixToml => "Not a valid Helix workspace: helix.toml not found."@,
    }
}

impl WorkspaceError {
    /// What the error says.
    pub fn message(&self) -> (r: String)
        ensures
            r@ == workspace_error_text(self@),
    {
        match self {
            WorkspaceError::PathMissing { path } => join2("Path does not exist: ", path.as_str()),
            WorkspaceError::NoHelixToml => String::from_str(
                "Not a valid Helix workspace: helix.toml not found.",
            ),
        }
    }
}

} // verus!
