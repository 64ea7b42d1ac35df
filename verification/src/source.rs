//! What to hand to the parser: the text of a query, or of a bare traversal
//! that is wrapped into one, and what to make of what the parser found.

use crate::hql_processor::{preprocess_hql, preprocessed};
use crate::messages::{join2, join5};
use vstd::prelude::*;

verus! {

/// A text without the white space at its two ends, as `str::trim` gives it.
pub uninterp spec fn trim_of(s: Seq<char>) -> Seq<char>;

/// A text in upper case, as `str::to_uppercase` gives it.
pub uninterp spec fn uppercase_of(s: Seq<char>) -> Seq<char>;

/// `str::trim`: the text without leading and trailing white space. The
/// result depends on the text alone.
#[verifier::external_body]
fn trimmed(s: &str) -> (r: String)
    ensures
        r@ == trim_of(s@),
{
    s.trim().to_string()
}

/// `str::to_uppercase`: the text with every letter in upper case. The result
/// depends on the text alone.
#[verifier::external_body]
fn uppercased(s: &str) -> (r: String)
    ensures
        r@ == uppercase_of(s@),
{
    s.to_uppercase()
}

/// Whether a text starts with another.
pub open spec fn starts_with(s: Seq<char>, prefix: Seq<char>) -> bool {
    prefix.len() <= s.len() && s.subrange(0, prefix.len() as int) == prefix
}

/// Whether a text starts with another.
pub fn has_prefix(s: &str, prefix: &str) -> (r: bool)
    ensures
        r == starts_with(s@, prefix@),
{
    let n = prefix.unicode_len();
    if s.unicode_len() < n {
        return false;
    }
    let mut i: usize = 0;
    while i < n
        invariant
            i <= n,
            n == prefix@.len(),
            n <= s@.len(),
            forall|j: int| 0 <= j < i ==> s@[j] == prefix@[j],
        decreases n - i,
    {
        if s.get_char(i) != prefix.get_char(i) {
            assert(s@.subrange(0, n as int)[i as int] != prefix@[i as int]);
            return false;
        }
        i += 1;
    }
    assert(s@.subrange(0, n as int) =~= prefix@);
    true
}

/// The word that a query starts with.
pub open spec fn query_word() -> Seq<char> {
    "QUERY"@
}

/// The head that wraps a bare traversal into a query.
pub open spec fn wrapper_head() -> Seq<char> {
    "QUERY ExplorerTmp() => "@
}

/// Whether a text says of itself that it is a query: after white space it
/// starts with `QUERY`, in any case of letters.
pub open spec fn is_explicit_query(text: Seq<char>) -> bool {
    starts_with(uppercase_of(trim_of(text)), query_word())
}

/// Whether a text says of itself that it is a query.
pub fn says_query(text: &str) -> (r: bool)
    ensures
        r == is_explicit_query(text@),
{
    let bare = trimmed(text);
    let upper = uppercased(bare.as_str());
    has_prefix(upper.as_str(), "QUERY")
}

/// What to hand to the parser: the text to try first, and the text to try
/// where that fails.
#[derive(Debug, PartialEq)]
pub struct ParsePlan {
    pub first: String,
    pub fallback: Option<String>,
}

/// The mathematical value of a [`ParsePlan`].
pub struct ParsePlanView {
    pub first: Seq<char>,
    pub fallback: Option<Seq<char>>,
}

impl View for ParsePlan {
    type V = ParsePlanView;

    open spec fn view(&self) -> ParsePlanView {
        ParsePlanView {
            first: self.first@,
            fallback: match self.fallback {
                Some(text) => Some(text@),
                None => None,
            },
        }
    }
}

/// What to hand to the parser for a text: the text with its inline vectors
/// lifted; and, unless it says of itself that it is a query, the same wrapped
/// into a query as a second try.
pub open spec fn parse_plan(code: Seq<char>) -> ParsePlanView {
    let text = preprocessed(code);
    ParsePlanView {
        first: text,
        fallback: if is_explicit_query(text) {
            None
        } else {
            Some(wrapper_head() + text)
        },
    }
}

/// Plans the parsing of a text.
pub fn plan_parse(code: &str) -> (r: ParsePlan)
    ensures
        r@ == parse_plan(code@),
{
    let first = preprocess_hql(code);
    let fallback = if says_query(first.as_str()) {
        None
    } else {
        Some(join2("QUERY ExplorerTmp() => ", first.as_str()))
    };
    ParsePlan { first, fallback }
}

/// Why a text gives no query to evaluate.
#[derive(Debug, PartialEq)]
pub enum SourceError {
    /// A text that says it is a query does not parse.
    Query { detail: String, code: String },
    /// A text does not parse, as it is or wrapped into a query.
    Hql { detail: String },
    /// The text holds more than one query.
    MultipleQueries,
    /// The text holds no query.
    NoQuery,
}

/// The mathematical value of a [`SourceError`].
pub enum SourceErrorView {
    Query { detail: Seq<char>, code: Seq<char> },
    Hql { detail: Seq<char> },
    MultipleQueries,
    NoQuery,
}

impl View for SourceError {
    type V = SourceErrorView;

    open spec fn view(&self) -> SourceErrorView {
        match *self {
            SourceError::Query { detail, code } => SourceErrorView::Query {
                detail: detail@,
                code: code@,
            },
            SourceError::Hql { detail } => SourceErrorView::Hql { detail: detail@ },
            SourceError::MultipleQueries => SourceErrorView::MultipleQueries,
            SourceError::NoQuery => SourceErrorView::NoQuery,
        }
    }
}

/// What the failure of the last try comes to: for a text that says it is a
/// query, the error with the text; for any other, the error of the wrapped try.
pub open spec fn parse_failure(plan: ParsePlanView, detail: Seq<char>) -> SourceErrorView {
    match plan.fallback {
        None => SourceErrorView::Query { detail, code: plan.first },
        Some(_) => SourceErrorView::Hql { detail },
    }
}

/// What the failure of the last try comes to.
pub fn failed_to_parse(plan: &ParsePlan, detail: String) -> (r: SourceError)
    ensures
        r@ == parse_failure(plan@, detail@),
{
    match &plan.fallback {
        None => SourceError::Query { detail, code: plan.first.clone() },
        Some(_) => SourceError::Hql { detail },
    }
}

/// Which of the queries that the parser found is evaluated: the only one. A
/// text with more than one query, or with none, is refused.
pub open spec fn query_choice(count: usize) -> Result<usize, SourceErrorView> {
    if count > 1 {
        Err(SourceErrorView::MultipleQueries)
    } else if count == 0 {
        Err(SourceErrorView::NoQuery)
    } else {
        Ok(0usize)
    }
}

/// Chooses the query to evaluate among those that the parser found.
pub fn choose_query(count: usize) -> (r: Result<usize, SourceError>)
    ensures
        match r {
            Ok(at) => query_choice(count) == Ok::<usize, SourceErrorView>(at),
            Err(e) => query_choice(count) == Err::<usize, SourceErrorView>(e@),
        },
{
    if count > 1 {
        Err(SourceError::MultipleQueries)
    } else if count == 0 {
        Err(SourceError::NoQuery)
    } else {
        Ok(0)
    }
}

/// What a source error says.
pub open spec fn source_error_text(e: SourceErrorView) -> Seq<char> {
    match e {
        SourceErrorView::Query { detail, code } => "Failed to parse Query: "@ + detail
            + "\nCode: '"@ + code + "'"@,
        SourceErrorView::Hql { detail } => "Failed to parse HQL: "@ + detail,
        SourceErrorView::MultipleQueries => "Multiple queries detected in editor. Please select a specific query to execute, or ensure only one query exists."@,
        SourceErrorView::NoQuery => "No query found in parsed source"@,
    }
}

impl SourceError {
    /// What the error says.
    pub fn message(&self) -> (r: String)
        ensures
            r@ == source_error_text(self@),
    {
        match self {
            SourceError::Query { detail, code } => join5(
                "Failed to parse Query: ",
                detail.as_str(),
                "\nCode: '",
                code.as_str(),
                "'",
            ),
            SourceError::Hql { detail } => join2("Failed to parse HQL: ", detail.as_str()),
            SourceError::MultipleQueries => String::from_str(
                "Multiple queries detected in editor. Please select a specific query to execute, or ensure only one query exists.",
            ),
            SourceError::NoQuery => String::from_str("No query found in parsed source"),
        }
    }
}

} // verus!
