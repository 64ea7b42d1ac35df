use helixdb_explorer::error::{CompileError, ResolutionError};
use helixdb_explorer::hql_executor::{ExecutionError, Stage};
use helixdb_explorer::planner::{EvalError, ReadOnlyReason};
use helixdb_explorer::stats::WorkspaceError;

fn text(s: &str) -> String {
    s.to_string()
}

#[test]
fn compile_errors_say_what_they_are() {
    assert_eq!(
        CompileError::UnsupportedStep { index: 12, kind: text("Closure") }.message(),
        "Unsupported step type at index 12: Closure"
    );
    assert_eq!(
        CompileError::MissingParameter { name: text("user_id") }.message(),
        "Parameter 'user_id' is required but missing from arguments."
    );
    assert_eq!(
        CompileError::MissingEdgeStep.message(),
        "::ToN or ::FromN must follow an edge traversal step (like ::OutE or ::InE)"
    );
    assert_eq!(
        CompileError::UnsupportedFilterStep { kind: text("Count") }.message(),
        "Unsupported step type in filter chain: Count"
    );
    assert_eq!(
        CompileError::ReadOnly { index: 0, kind: text("Update") }.message(),
        "Explorer Mode is Read-Only: the step at index 0 writes data: Update"
    );
    assert_eq!(CompileError::WhereTooShort.message(), "WHERE clause traversal too short");
    assert_eq!(CompileError::MissingSearchQuery.message(), "SearchBM25 requires a query string");
}

#[test]
fn resolution_errors_name_the_variable() {
    assert_eq!(
        ResolutionError::VariableNotFound { name: text("users") }.message(),
        "Variable 'users' not found"
    );
    assert_eq!(
        ResolutionError::CircularDependency { name: text("a") }.message(),
        "Circular dependency or too deep recursion detected at 'a'"
    );
}

#[test]
fn execution_errors_carry_status_and_body() {
    assert_eq!(
        ExecutionError::Status { stage: Stage::Tool, status: 404, body: text("no such tool") }
            .message(),
        "Tool call error (404): no such tool"
    );
    assert_eq!(
        ExecutionError::Transport { stage: Stage::Collect, detail: text("timed out") }.message(),
        "Collect failed: timed out"
    );
    assert_eq!(
        ExecutionError::Session { body: text("{}"), detail: text("invalid type") }.message(),
        "Failed to parse connection_id from '{}': invalid type"
    );
    assert_eq!(
        ExecutionError::Unparsable { stage: Stage::Count, detail: text("EOF") }.message(),
        "Failed to parse results: EOF"
    );
    assert_eq!(
        ExecutionError::Compile(CompileError::WhereTooShort).message(),
        "WHERE clause traversal too short"
    );
}

#[test]
fn the_two_refusals_of_a_query_that_is_not_read_only_differ() {
    let write = EvalError::ReadOnly(ReadOnlyReason::Write).message();
    let control = EvalError::ReadOnly(ReadOnlyReason::ControlFlow).message();
    assert!(write.starts_with("Explorer Mode is Read-Only: "));
    assert!(write.contains("does not support writing data. "));
    assert!(control.contains("does not support writing data or complex control flow. "));
    assert_eq!(
        EvalError::NothingToRun.message(),
        "No executable traversal or return statement found."
    );
    assert_eq!(
        EvalError::Resolution(ResolutionError::VariableNotFound { name: text("x") }).message(),
        "Variable 'x' not found"
    );
}

#[test]
fn workspace_errors_say_what_is_missing() {
    assert_eq!(
        WorkspaceError::PathMissing { path: text("/nowhere") }.message(),
        "Path does not exist: /nowhere"
    );
    assert_eq!(
        WorkspaceError::NoHelixToml.message(),
        "Not a valid Helix workspace: helix.toml not found."
    );
}
