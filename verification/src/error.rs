//! What can go wrong before any request is sent.

use vstd::prelude::*;

verus! {

/// Why a traversal cannot be compiled to tools.
#[derive(Debug, PartialEq)]
pub enum CompileError {
    /// The step at `index` has no tool; `kind` names it.
    UnsupportedStep { index: usize, kind: String },
    /// A nested filter holds a step that is no edge walk.
    UnsupportedFilterStep { kind: String },
    /// A `WHERE` clause holds an expression that is no conjunction,
    /// disjunction or traversal.
    UnsupportedExpression { kind: String },
    /// A comparison has an operand that is no literal and no name.
    UnsupportedValue { kind: String },
    /// A field of an object literal has a value that cannot be compared.
    UnsupportedFieldValue { kind: String },
    /// A property is followed by an operation that is no comparison.
    UnsupportedOperator { kind: String },
    /// A vector search names neither a vector nor a text to embed.
    UnsupportedVectorData,
    /// A traversal inside `WHERE` does not start at the anonymous node.
    WhereNotAnonymous,
    /// A traversal inside `WHERE` has no steps.
    WhereTooShort,
    /// A conjunction or disjunction holds a nested traversal filter next to
    /// property conditions.
    MixedFilter,
    /// An ordering is neither a name nor a single property access.
    OrderByNotSimple,
    /// An ordering names a traversal that is no single property access.
    PropertyAccessNotSimple,
    /// `FromN` or `ToN` with no edge step before it to turn into a node step.
    MissingEdgeStep,
    /// An identifier names a parameter that was not supplied.
    MissingParameter { name: String },
    /// A keyword search without a query.
    MissingSearchQuery,
    /// The step at `index` writes data; `kind` names it. Nothing here writes.
    ReadOnly { index: usize, kind: String },
}

/// The mathematical value of a [`CompileError`].
pub enum CompileErrorView {
    UnsupportedStep { index: usize, kind: Seq<char> },
    UnsupportedFilterStep { kind: Seq<char> },
    UnsupportedExpression { kind: Seq<char> },
    UnsupportedValue { kind: Seq<char> },
    UnsupportedFieldValue { kind: Seq<char> },
    UnsupportedOperator { kind: Seq<char> },
    UnsupportedVectorData,
    WhereNotAnonymous,
    WhereTooShort,
    MixedFilter,
    OrderByNotSimple,
    PropertyAccessNotSimple,
    MissingEdgeStep,
    MissingParameter { name: Seq<char> },
    MissingSearchQuery,
    ReadOnly { index: usize, kind: Seq<char> },
}

impl View for CompileError {
    type V = CompileErrorView;

    open spec fn view(&self) -> CompileErrorView {
        match *self {
            CompileError::UnsupportedStep { index, kind } => CompileErrorView::UnsupportedStep {
                index,
                kind: kind@,
            },
            CompileError::UnsupportedFilterStep { kind } => CompileErrorView::UnsupportedFilterStep {
                kind: kind@,
            },
            CompileError::UnsupportedExpression { kind } => CompileErrorView::UnsupportedExpression {
                kind: kind@,
            },
            CompileError::UnsupportedValue { kind } => CompileErrorView::UnsupportedValue {
                kind: kind@,
            },
            CompileError::UnsupportedFieldValue { kind } => CompileErrorView::UnsupportedFieldValue {
                kind: kind@,
            },
            CompileError::UnsupportedOperator { kind } => CompileErrorView::UnsupportedOperator {
                kind: kind@,
            },
            CompileError::UnsupportedVectorData => CompileErrorView::UnsupportedVectorData,
            CompileError::WhereNotAnonymous => CompileErrorView::WhereNotAnonymous,
            CompileError::WhereTooShort => CompileErrorView::WhereTooShort,
            CompileError::MixedFilter => CompileErrorView::MixedFilter,
            CompileError::OrderByNotSimple => CompileErrorView::OrderByNotSimple,
            CompileError::PropertyAccessNotSimple => CompileErrorView::PropertyAccessNotSimple,
            CompileError::MissingEdgeStep => CompileErrorView::MissingEdgeStep,
            CompileError::MissingParameter { name } => CompileErrorView::MissingParameter {
                name: name@,
            },
            CompileError::MissingSearchQuery => CompileErrorView::MissingSearchQuery,
            CompileError::ReadOnly { index, kind } => CompileErrorView::ReadOnly {
                index,
                kind: kind@,
            },
        }
    }
}

/// Why a variable cannot be resolved to a traversal.
#[derive(Debug, PartialEq)]
pub enum ResolutionError {
    /// A traversal starts at a variable that was never assigned.
    VariableNotFound { name: String },
    /// The chain of variables is longer than the bound; `name` is the variable
    /// at which the bound was passed.
    CircularDependency { name: String },
}

/// The mathematical value of a [`ResolutionError`].
pub enum ResolutionErrorView {
    VariableNotFound { name: Seq<char> },
    CircularDependency { name: Seq<char> },
}

impl View for ResolutionError {
    type V = ResolutionErrorView;

    open spec fn view(&self) -> ResolutionErrorView {
        match *self {
            ResolutionError::VariableNotFound { name } => ResolutionErrorView::VariableNotFound {
                name: name@,
            },
            ResolutionError::CircularDependency { name } => ResolutionErrorView::CircularDependency {
                name: name@,
            },
        }
    }
}

} // verus!
