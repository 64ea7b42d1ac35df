//! What evaluating a query comes to, decided before anything is sent.

use crate::ast::{
    clone_traversal, expressions_view, optional_string_view, returns_view, statements_view,
    BM25Search, Expression, ExpressionView, Query, QueryView, ReturnType, ReturnTypeView,
    SearchVector, Statement, StatementView, Traversal,
};
use crate::error::{CompileError, CompileErrorView, ResolutionError, ResolutionErrorView};
use crate::hql_executor::{ExecutionError, ExecutionErrorView};
use crate::hql_translator::{
    bm25_tool, compile, map_bm25_to_tool, map_search_vector_to_tool, map_traversal_to_tools,
    vector_tool, CompiledView, FinalAction, FinalActionView,
};
use crate::json::{
    insert_into, insert_member, items_view, members_view, Json, JsonNumber, JsonNumberView,
    JsonView,
};
use crate::read_only::{expression_writes, writes_data};
use crate::resolver::{
    assignments_view, binding, find_assignment, resolve, resolve_traversal, AssignmentsView,
};
use crate::text::{clone_strings, str_equal, strings_view};
use crate::tool_args::{clone_tool, clone_tools, tools_view, ToolArgs, ToolArgsView};
use vstd::prelude::*;

verus! {

/// What a read-only query must not hold.
#[derive(Debug, Clone, Copy, PartialEq, Eq, Structural)]
pub enum ReadOnlyReason {
    /// An expression or a step that writes data.
    Write,
    /// A statement that drops data or loops.
    ControlFlow,
}

/// Why a query was not evaluated, or its evaluation ended without a result.
#[derive(Debug, PartialEq)]
pub enum EvalError {
    /// The query writes data, drops data or loops: the explorer only reads.
    ReadOnly(ReadOnlyReason),
    /// The query holds no traversal to run and returns nothing.
    NothingToRun,
    /// A returned variable does not resolve.
    Resolution(ResolutionError),
    /// A returned variable, or a search, does not compile.
    Compile(CompileError),
    /// Something went wrong on the way to the remote side or back.
    Execution(ExecutionError),
}

/// The mathematical value of an [`EvalError`].
pub enum EvalErrorView {
    ReadOnly(ReadOnlyReason),
    NothingToRun,
    Resolution(ResolutionErrorView),
    Compile(CompileErrorView),
    Execution(ExecutionErrorView),
}

impl View for EvalError {
    type V = EvalErrorView;

    open spec fn view(&self) -> EvalErrorView {
        match *self {
            EvalError::ReadOnly(reason) => EvalErrorView::ReadOnly(reason),
            EvalError::NothingToRun => EvalErrorView::NothingToRun,
            EvalError::Resolution(e) => EvalErrorView::Resolution(e@),
            EvalError::Compile(e) => EvalErrorView::Compile(e@),
            EvalError::Execution(e) => EvalErrorView::Execution(e@),
        }
    }
}

/// The name under which a bare traversal or search is kept.
pub open spec fn implicit_name() -> Seq<char> {
    "_implicit_"@
}

/// The JSON number of a 32-bit integer.
pub open spec fn integer_json(i: i32) -> JsonView {
    if i >= 0 {
        JsonView::Number(JsonNumberView::PosInt(i as u64))
    } else {
        JsonView::Number(JsonNumberView::NegInt(i as i64))
    }
}

/// The JSON documents of the literals among a list of expressions, in order.
pub open spec fn literals_json(items: Seq<ExpressionView>) -> Seq<JsonView>
    decreases items, 1nat,
{
    if items.len() == 0 {
        Seq::empty()
    } else {
        let before = literals_json(items.drop_last());
        match literal_json(items.last()) {
            Some(v) => before.push(v),
            None => before,
        }
    }
}

/// The JSON document of a literal: a string, a number, a boolean, or an
/// array of the literals in it. Any other expression has none.
pub open spec fn literal_json(e: ExpressionView) -> Option<JsonView>
    decreases e, 0nat,
{
    match e {
        ExpressionView::StringLiteral(s) => Some(JsonView::String(s)),
        ExpressionView::IntegerLiteral(i) => Some(integer_json(i)),
        ExpressionView::FloatLiteral(t) => Some(JsonView::Number(JsonNumberView::Float(t))),
        ExpressionView::BooleanLiteral(b) => Some(JsonView::Bool(b)),
        ExpressionView::ArrayLiteral(items) => Some(JsonView::Array(literals_json(items))),
        _ => None,
    }
}

/// The JSON documents of the literals among a list of expressions.
pub fn literals_of(items: &Vec<Expression>) -> (out: Vec<Json>)
    ensures
        items_view(out@) == literals_json(expressions_view(items@)),
    decreases items, 1nat,
{
    let ghost all = expressions_view(items@);
    let mut out: Vec<Json> = Vec::new();
    let mut i: usize = 0;
    assert(items_view(out@) =~= literals_json(all.take(0)));
    while i < items.len()
        invariant
            i <= items.len(),
            all == expressions_view(items@),
            items_view(out@) == literals_json(all.take(i as int)),
        decreases items.len() - i,
    {
        let ghost before = items_view(out@);
        proof {
            assert(all.take(i + 1).drop_last() =~= all.take(i as int));
            assert(all.take(i + 1).last() == items[i as int]@);
        }
        match literal_of(&items[i]) {
            Some(v) => {
                out.push(v);
                proof {
                    assert(items_view(out@) =~= before.push(v@));
                }
            },
            None => {},
        }
        i += 1;
    }
    proof {
        assert(all.take(i as int) =~= all);
    }
    out
}

/// The JSON document of a literal.
pub fn literal_of(e: &Expression) -> (r: Option<Json>)
    ensures
        match r {
            Some(v) => literal_json(e@) == Some(v@),
            None => literal_json(e@) is None,
        },
    decreases e, 0nat,
{
    match e {
        Expression::StringLiteral(s) => Some(Json::String(s.clone())),
        Expression::IntegerLiteral(i) => {
            if *i >= 0 {
                Some(Json::Number(JsonNumber::PosInt(*i as u64)))
            } else {
                Some(Json::Number(JsonNumber::NegInt(*i as i64)))
            }
        },
        Expression::FloatLiteral(t) => Some(Json::Number(JsonNumber::Float(t.clone()))),
        Expression::BooleanLiteral(b) => Some(Json::Bool(*b)),
        Expression::ArrayLiteral(items) => Some(Json::Array(literals_of(items))),
        _ => None,
    }
}

/// The parameters with `name` set to `value`. Parameters that are no object
/// stay as they are.
pub open spec fn with_param(params: JsonView, name: Seq<char>, value: JsonView) -> JsonView {
    match params {
        JsonView::Object(members) => JsonView::Object(insert_member(members, name, value)),
        _ => params,
    }
}

/// Sets a parameter.
pub fn set_param(params: &mut Json, name: &str, value: Json)
    ensures
        final(params)@ == with_param(old(params)@, name@, value@),
{
    match params {
        Json::Object(members) => {
            insert_into(members, String::from_str(name), value);
        },
        _ => {},
    }
}

/// The searches of a query, in the order written: each a variable and the
/// tool of the search assigned to it.
pub type SearchesView = Seq<(Seq<char>, ToolArgsView)>;

/// The views of a list of searches, item by item.
pub open spec fn searches_view(entries: Seq<(String, ToolArgs)>) -> SearchesView {
    Seq::new(entries.len(), |i: int| (entries[i].0@, entries[i].1@))
}

/// The search assigned to a variable: that of its last assignment.
pub open spec fn search_binding(table: SearchesView, name: Seq<char>) -> Option<ToolArgsView>
    decreases table.len(),
{
    if table.len() == 0 {
        None
    } else if table.last().0 == name {
        Some(table.last().1)
    } else {
        search_binding(table.drop_last(), name)
    }
}

/// The search assigned to a variable.
pub fn find_search<'a>(searches: &'a Vec<(String, ToolArgs)>, name: &str) -> (r: Option<
    &'a ToolArgs,
>)
    ensures
        match r {
            Some(t) => search_binding(searches_view(searches@), name@) == Some(t@),
            None => search_binding(searches_view(searches@), name@) is None,
        },
{
    let ghost table = searches_view(searches@);
    let mut i: usize = searches.len();
    proof {
        assert(table.take(i as int) =~= table);
    }
    while i > 0
        invariant
            i <= searches.len(),
            table == searches_view(searches@),
            search_binding(table, name@) == search_binding(table.take(i as int), name@),
        decreases i,
    {
        i -= 1;
        proof {
            assert(table.take(i + 1).last() == table[i as int]);
            assert(table.take(i + 1).drop_last() =~= table.take(i as int));
        }
        if str_equal(searches[i].0.as_str(), name) {
            return Some(&searches[i].1);
        }
    }
    None
}

/// What reading the statements of a query has gathered.
#[derive(Debug, PartialEq)]
pub struct Scan {
    /// The parameters: those supplied, and the literals assigned on the way.
    pub params: Json,
    /// The traversals assigned to variables.
    pub assignments: Vec<(String, Traversal)>,
    /// The searches assigned to variables.
    pub searches: Vec<(String, ToolArgs)>,
    /// The variables that bare searches ask to be returned.
    pub wanted: Vec<String>,
}

/// The mathematical value of a [`Scan`].
pub struct ScanView {
    pub params: JsonView,
    pub assignments: AssignmentsView,
    pub searches: SearchesView,
    pub wanted: Seq<Seq<char>>,
}

impl View for Scan {
    type V = ScanView;

    open spec fn view(&self) -> ScanView {
        ScanView {
            params: self.params@,
            assignments: assignments_view(self.assignments@),
            searches: searches_view(self.searches@),
            wanted: strings_view(self.wanted@),
        }
    }
}

/// Why a statement is refused, if it is: an assignment or a bare expression
/// that writes data at any depth, a `DROP` or a `FOR`.
pub open spec fn refusal(statement: StatementView) -> Option<ReadOnlyReason> {
    match statement {
        StatementView::Assignment { value, .. } => if expression_writes(value) {
            Some(ReadOnlyReason::Write)
        } else {
            None
        },
        StatementView::Expression(e) => if expression_writes(e) {
            Some(ReadOnlyReason::Write)
        } else {
            None
        },
        StatementView::Drop | StatementView::ForLoop => Some(ReadOnlyReason::ControlFlow),
    }
}

/// Why a query is refused, if it is: the refusal of its first statement that
/// has one.
pub open spec fn first_refusal(statements: Seq<StatementView>) -> Option<ReadOnlyReason>
    decreases statements.len(),
{
    if statements.len() == 0 {
        None
    } else {
        match refusal(statements[0]) {
            Some(reason) => Some(reason),
            None => first_refusal(statements.skip(1)),
        }
    }
}

/// The statements before `n` are not refused: the refusal of the query is
/// that of the statements from `n` on.
pub proof fn lemma_first_refusal_from(statements: Seq<StatementView>, n: int)
    requires
        0 <= n <= statements.len(),
        forall|j: int| 0 <= j < n ==> refusal(#[trigger] statements[j]) is None,
    ensures
        first_refusal(statements) == first_refusal(statements.skip(n)),
    decreases n,
{
    if n > 0 {
        lemma_first_refusal_from(statements, n - 1);
        let rest = statements.skip(n - 1);
        assert(rest[0] == statements[n - 1]);
        assert(rest.skip(1) =~= statements.skip(n));
    } else {
        assert(statements.skip(0) =~= statements);
    }
}

/// A query with a statement that is refused is refused.
pub proof fn lemma_first_refusal_exists(statements: Seq<StatementView>, i: int)
    requires
        0 <= i < statements.len(),
        refusal(statements[i]) is Some,
    ensures
        first_refusal(statements) is Some,
    decreases i,
{
    if i > 0 && refusal(statements[0]) is None {
        let rest = statements.skip(1);
        assert(rest[i - 1] == statements[i]);
        lemma_first_refusal_exists(rest, i - 1);
    }
}

/// What an assignment `variable <- value` adds to the scan. A literal
/// becomes a parameter; a traversal or a search is kept under the variable.
pub open spec fn scan_assignment(scan: ScanView, variable: Seq<char>, value: ExpressionView) -> Result<
    ScanView,
    EvalErrorView,
> {
    let bound = match literal_json(value) {
        Some(v) => ScanView { params: with_param(scan.params, variable, v), ..scan },
        None => scan,
    };
    match value {
        ExpressionView::Traversal(t) => Ok(
            ScanView { assignments: bound.assignments.push((variable, *t)), ..bound },
        ),
        ExpressionView::BM25Search(b) => match bm25_tool(b) {
            Ok(tool) => Ok(ScanView { searches: bound.searches.push((variable, tool)), ..bound }),
            Err(e) => Err(EvalErrorView::Compile(e)),
        },
        ExpressionView::SearchVector(sv) => match vector_tool(sv, bound.params) {
            Ok(tool) => Ok(ScanView { searches: bound.searches.push((variable, tool)), ..bound }),
            Err(e) => Err(EvalErrorView::Compile(e)),
        },
        _ => Ok(bound),
    }
}

/// What a bare expression adds to the scan. A traversal or a search is kept
/// under the implicit name, and a search asks to be returned.
pub open spec fn scan_expression(scan: ScanView, e: ExpressionView) -> Result<
    ScanView,
    EvalErrorView,
> {
    match e {
        ExpressionView::Traversal(t) => Ok(
            ScanView { assignments: scan.assignments.push((implicit_name(), *t)), ..scan },
        ),
        ExpressionView::BM25Search(b) => match bm25_tool(b) {
            Ok(tool) => Ok(
                ScanView {
                    searches: scan.searches.push((implicit_name(), tool)),
                    wanted: scan.wanted.push(implicit_name()),
                    ..scan
                },
            ),
            Err(e) => Err(EvalErrorView::Compile(e)),
        },
        ExpressionView::SearchVector(sv) => match vector_tool(sv, scan.params) {
            Ok(tool) => Ok(
                ScanView {
                    searches: scan.searches.push((implicit_name(), tool)),
                    wanted: scan.wanted.push(implicit_name()),
                    ..scan
                },
            ),
            Err(e) => Err(EvalErrorView::Compile(e)),
        },
        _ => Ok(scan),
    }
}

/// What one statement adds to the scan. A statement that writes, drops or
/// loops is refused, whatever else it holds.
pub open spec fn scan_statement(scan: ScanView, statement: StatementView) -> Result<
    ScanView,
    EvalErrorView,
> {
    match refusal(statement) {
        Some(reason) => Err(EvalErrorView::ReadOnly(reason)),
        None => match statement {
            StatementView::Assignment { variable, value } => scan_assignment(
                scan,
                variable,
                value,
            ),
            StatementView::Expression(e) => scan_expression(scan, e),
            StatementView::Drop | StatementView::ForLoop => Ok(scan),
        },
    }
}

/// What the statements of a query add to the scan, in order; the first
/// statement that is refused decides the error.
pub open spec fn scan_statements(initial: ScanView, statements: Seq<StatementView>) -> Result<
    ScanView,
    EvalErrorView,
>
    decreases statements.len(),
{
    if statements.len() == 0 {
        Ok(initial)
    } else {
        match scan_statements(initial, statements.drop_last()) {
            Err(e) => Err(e),
            Ok(scan) => scan_statement(scan, statements.last()),
        }
    }
}

/// Once a prefix of the statements is refused, the whole list is refused the
/// same way.
pub proof fn lemma_scan_error(initial: ScanView, statements: Seq<StatementView>, n: int)
    requires
        0 <= n <= statements.len(),
        scan_statements(initial, statements.take(n)) is Err,
    ensures
        scan_statements(initial, statements) == scan_statements(initial, statements.take(n)),
    decreases statements.len() - n,
{
    if n < statements.len() {
        assert(statements.take(n + 1).drop_last() =~= statements.take(n));
        lemma_scan_error(initial, statements, n + 1);
    } else {
        assert(statements.take(n) =~= statements);
    }
}

/// Why a statement is refused, if it is.
pub fn refusal_of(statement: &Statement) -> (r: Option<ReadOnlyReason>)
    ensures
        r == refusal(statement@),
{
    match statement {
        Statement::Assignment { value, .. } => {
            if writes_data(value) {
                Some(ReadOnlyReason::Write)
            } else {
                None
            }
        },
        Statement::Expression(e) => {
            if writes_data(e) {
                Some(ReadOnlyReason::Write)
            } else {
                None
            }
        },
        Statement::Drop | Statement::ForLoop => Some(ReadOnlyReason::ControlFlow),
    }
}

/// Why a query is refused, if it is.
pub fn first_refusal_of(statements: &Vec<Statement>) -> (r: Option<ReadOnlyReason>)
    ensures
        r == first_refusal(statements_view(statements@)),
{
    let ghost all = statements_view(statements@);
    let mut i: usize = 0;
    while i < statements.len()
        invariant
            i <= statements.len(),
            all == statements_view(statements@),
            forall|j: int| 0 <= j < i ==> refusal(#[trigger] all[j]) is None,
        decreases statements.len() - i,
    {
        proof {
            assert(all[i as int] == statements[i as int]@);
        }
        match refusal_of(&statements[i]) {
            Some(reason) => {
                proof {
                    lemma_first_refusal_from(all, i as int);
                    assert(all.skip(i as int)[0] == all[i as int]);
                }
                return Some(reason);
            },
            None => {},
        }
        i += 1;
    }
    proof {
        lemma_first_refusal_from(all, i as int);
    }
    None
}

impl Scan {
    /// Keeps a traversal under a variable.
    pub fn keep_traversal(&mut self, variable: &str, t: &Traversal)
        ensures
            final(self)@ == (ScanView {
                assignments: old(self)@.assignments.push((variable@, t@)),
                ..old(self)@
            }),
    {
        self.assignments.push((String::from_str(variable), clone_traversal(t)));
        assert(assignments_view(self.assignments@) =~= assignments_view(
            old(self).assignments@,
        ).push((variable@, t@)));
    }

    /// Keeps a search under a variable.
    pub fn keep_search(&mut self, variable: &str, tool: ToolArgs)
        ensures
            final(self)@ == (ScanView {
                searches: old(self)@.searches.push((variable@, tool@)),
                ..old(self)@
            }),
    {
        self.searches.push((String::from_str(variable), tool));
        assert(searches_view(self.searches@) =~= searches_view(old(self).searches@).push(
            (variable@, tool@),
        ));
    }

    /// Asks for a variable to be returned.
    pub fn want(&mut self, variable: &str)
        ensures
            final(self)@ == (ScanView {
                wanted: old(self)@.wanted.push(variable@),
                ..old(self)@
            }),
    {
        self.wanted.push(String::from_str(variable));
        assert(strings_view(self.wanted@) =~= strings_view(old(self).wanted@).push(variable@));
    }

    /// Reads one statement.
    pub fn read_statement(&mut self, statement: &Statement) -> (r: Result<(), EvalError>)
        ensures
            match r {
                Ok(()) => scan_statement(old(self)@, statement@) == Ok::<ScanView, EvalErrorView>(
                    final(self)@,
                ),
                Err(e) => scan_statement(old(self)@, statement@) == Err::<ScanView, EvalErrorView>(
                    e@,
                ),
            },
    {
        match refusal_of(statement) {
            Some(reason) => {
                return Err(EvalError::ReadOnly(reason));
            },
            None => {},
        }
        match statement {
            Statement::Assignment { variable, value } => {
                match literal_of(value) {
                    Some(v) => {
                        set_param(&mut self.params, variable.as_str(), v);
                    },
                    None => {},
                }
                match value {
                    Expression::Traversal(t) => {
                        self.keep_traversal(variable.as_str(), t);
                        Ok(())
                    },
                    Expression::BM25Search(b) => match map_bm25_to_tool(b) {
                        Ok(tool) => {
                            self.keep_search(variable.as_str(), tool);
                            Ok(())
                        },
                        Err(e) => Err(EvalError::Compile(e)),
                    },
                    Expression::SearchVector(sv) => match map_search_vector_to_tool(
                        sv,
                        &self.params,
                    ) {
                        Ok(tool) => {
                            self.keep_search(variable.as_str(), tool);
                            Ok(())
                        },
                        Err(e) => Err(EvalError::Compile(e)),
                    },
                    _ => Ok(()),
                }
            },
            Statement::Expression(e) => match e {
                Expression::Traversal(t) => {
                    self.keep_traversal("_implicit_", t);
                    Ok(())
                },
                Expression::BM25Search(b) => match map_bm25_to_tool(b) {
                    Ok(tool) => {
                        self.keep_search("_implicit_", tool);
                        self.want("_implicit_");
                        Ok(())
                    },
                    Err(e) => Err(EvalError::Compile(e)),
                },
                Expression::SearchVector(sv) => match map_search_vector_to_tool(sv, &self.params) {
                    Ok(tool) => {
                        self.keep_search("_implicit_", tool);
                        self.want("_implicit_");
                        Ok(())
                    },
                    Err(e) => Err(EvalError::Compile(e)),
                },
                _ => Ok(()),
            },
            Statement::Drop | Statement::ForLoop => Ok(()),
        }
    }
}

/// The scan before any statement: the parameters supplied, or an empty
/// object where none are.
pub open spec fn initial_scan(params: Option<JsonView>) -> ScanView {
    ScanView {
        params: match params {
            Some(p) => p,
            None => JsonView::Object(Seq::empty()),
        },
        assignments: Seq::empty(),
        searches: Seq::empty(),
        wanted: Seq::empty(),
    }
}

/// The view of optional parameters.
pub open spec fn optional_json_view(v: Option<Json>) -> Option<JsonView> {
    match v {
        Some(inner) => Some(inner@),
        None => None,
    }
}

/// Reads the statements of a query.
pub fn scan_query(statements: &Vec<Statement>, params: Option<Json>) -> (r: Result<Scan, EvalError>)
    ensures
        match r {
            Ok(scan) => scan_statements(
                initial_scan(optional_json_view(params)),
                statements_view(statements@),
            ) == Ok::<ScanView, EvalErrorView>(scan@),
            Err(e) => scan_statements(
                initial_scan(optional_json_view(params)),
                statements_view(statements@),
            ) == Err::<ScanView, EvalErrorView>(e@),
        },
{
    let ghost initial = initial_scan(optional_json_view(params));
    let ghost all = statements_view(statements@);
    let supplied = match params {
        Some(p) => p,
        None => {
            let none: Vec<(String, Json)> = Vec::new();
            assert(members_view(none@) =~= Seq::empty());
            Json::Object(none)
        },
    };
    let mut scan = Scan {
        params: supplied,
        assignments: Vec::new(),
        searches: Vec::new(),
        wanted: Vec::new(),
    };
    proof {
        assert(assignments_view(scan.assignments@) =~= Seq::empty());
        assert(searches_view(scan.searches@) =~= Seq::empty());
        assert(strings_view(scan.wanted@) =~= Seq::empty());
        assert(all.take(0) =~= Seq::empty());
    }
    let mut i: usize = 0;
    while i < statements.len()
        invariant
            i <= statements.len(),
            all == statements_view(statements@),
            initial == initial_scan(optional_json_view(params)),
            scan_statements(initial, all.take(i as int)) == Ok::<ScanView, EvalErrorView>(scan@),
        decreases statements.len() - i,
    {
        proof {
            assert(all.take(i + 1).drop_last() =~= all.take(i as int));
            assert(all.take(i + 1).last() == statements[i as int]@);
        }
        match scan.read_statement(&statements[i]) {
            Ok(()) => {},
            Err(e) => {
                proof {
                    lemma_scan_error(initial, all, i + 1);
                }
                return Err(e);
            },
        }
        i += 1;
    }
    proof {
        assert(all.take(i as int) =~= all);
    }
    Ok(scan)
}

/// The variable that a return value names, if it is a plain name.
pub open spec fn returned_name(value: ReturnTypeView) -> Option<Seq<char>> {
    match value {
        ReturnTypeView::Expression(ExpressionView::Identifier(name)) => Some(name),
        _ => None,
    }
}

/// The plain names among a list of return values, in order.
pub open spec fn plain_names(values: Seq<ReturnTypeView>) -> Seq<Seq<char>>
    decreases values.len(),
{
    if values.len() == 0 {
        Seq::empty()
    } else {
        match returned_name(values.last()) {
            Some(name) => plain_names(values.drop_last()).push(name),
            None => plain_names(values.drop_last()),
        }
    }
}

/// The variables that a `RETURN` names, in order: each plain name, and the
/// plain names of each list.
pub open spec fn returned_names(values: Seq<ReturnTypeView>) -> Seq<Seq<char>>
    decreases values.len(),
{
    if values.len() == 0 {
        Seq::empty()
    } else {
        let before = returned_names(values.drop_last());
        match values.last() {
            ReturnTypeView::Array(items) => before + plain_names(items),
            other => match returned_name(other) {
                Some(name) => before.push(name),
                None => before,
            },
        }
    }
}

/// The variable of the last statement, if that is an assignment.
pub open spec fn last_assigned(statements: Seq<StatementView>) -> Option<Seq<char>> {
    if statements.len() == 0 {
        None
    } else {
        match statements.last() {
            StatementView::Assignment { variable, .. } => Some(variable),
            _ => None,
        }
    }
}

/// The variables to evaluate.
///
/// With a `RETURN`: those that bare searches asked for, then those that it
/// names. Without one: the bare traversal or search, if there is one; else the
/// variable assigned last, if anything was kept.
pub open spec fn wanted_names(q: QueryView, scan: ScanView) -> Seq<Seq<char>> {
    if q.return_values.len() > 0 {
        scan.wanted + returned_names(q.return_values)
    } else if binding(scan.assignments, implicit_name()) is Some || search_binding(
        scan.searches,
        implicit_name(),
    ) is Some {
        scan.wanted.push(implicit_name())
    } else if scan.wanted.len() == 0 && (scan.assignments.len() > 0 || scan.searches.len() > 0) {
        match last_assigned(q.statements) {
            Some(variable) => seq![variable],
            None => Seq::empty(),
        }
    } else {
        scan.wanted
    }
}

/// Appends the plain names among `values`.
pub fn push_plain_names(names: &mut Vec<String>, values: &Vec<ReturnType>)
    ensures
        strings_view(final(names)@) == strings_view(old(names)@) + plain_names(
            returns_view(values@),
        ),
{
    let ghost all = returns_view(values@);
    let ghost base = strings_view(names@);
    let mut i: usize = 0;
    proof {
        assert(all.take(0) =~= Seq::empty());
        assert(strings_view(names@) =~= base + plain_names(all.take(0)));
    }
    while i < values.len()
        invariant
            i <= values.len(),
            all == returns_view(values@),
            strings_view(names@) == base + plain_names(all.take(i as int)),
        decreases values.len() - i,
    {
        let ghost before = strings_view(names@);
        proof {
            assert(all.take(i + 1).drop_last() =~= all.take(i as int));
            assert(all.take(i + 1).last() == values[i as int]@);
        }
        match &values[i] {
            ReturnType::Expression(Expression::Identifier(name)) => {
                names.push(name.clone());
                proof {
                    assert(strings_view(names@) =~= before.push(name@));
                    assert(before.push(name@) =~= base + plain_names(all.take(i as int)).push(
                        name@,
                    ));
                }
            },
            _ => {},
        }
        i += 1;
    }
    proof {
        assert(all.take(i as int) =~= all);
    }
}

/// Appends the variables that a `RETURN` names.
pub fn push_returned_names(names: &mut Vec<String>, values: &Vec<ReturnType>)
    ensures
        strings_view(final(names)@) == strings_view(old(names)@) + returned_names(
            returns_view(values@),
        ),
{
    let ghost all = returns_view(values@);
    let ghost base = strings_view(names@);
    let mut i: usize = 0;
    proof {
        assert(all.take(0) =~= Seq::empty());
        assert(strings_view(names@) =~= base + returned_names(all.take(0)));
    }
    while i < values.len()
        invariant
            i <= values.len(),
            all == returns_view(values@),
            strings_view(names@) == base + returned_names(all.take(i as int)),
        decreases values.len() - i,
    {
        let ghost before = strings_view(names@);
        let ghost sofar = returned_names(all.take(i as int));
        proof {
            assert(all.take(i + 1).drop_last() =~= all.take(i as int));
            assert(all.take(i + 1).last() == values[i as int]@);
        }
        match &values[i] {
            ReturnType::Expression(Expression::Identifier(name)) => {
                names.push(name.clone());
                proof {
                    assert(strings_view(names@) =~= before.push(name@));
                    assert(before.push(name@) =~= base + sofar.push(name@));
                }
            },
            ReturnType::Array(items) => {
                push_plain_names(names, items);
                proof {
                    let added = plain_names(returns_view(items@));
                    assert((base + sofar) + added =~= base + (sofar + added));
                }
            },
            _ => {},
        }
        i += 1;
    }
    proof {
        assert(all.take(i as int) =~= all);
    }
}

/// The variables to evaluate.
pub fn wanted_variables(query: &Query, scan: &Scan) -> (names: Vec<String>)
    ensures
        strings_view(names@) == wanted_names(query@, scan@),
{
    let mut names = clone_strings(&scan.wanted);
    if query.return_values.len() > 0 {
        push_returned_names(&mut names, &query.return_values);
        return names;
    }
    let bare_traversal = find_assignment(&scan.assignments, "_implicit_").is_some();
    let bare_search = find_search(&scan.searches, "_implicit_").is_some();
    if bare_traversal || bare_search {
        let ghost before = strings_view(names@);
        names.push(String::from_str("_implicit_"));
        proof {
            assert(strings_view(names@) =~= before.push(implicit_name()));
        }
        return names;
    }
    if scan.wanted.len() == 0 && (scan.assignments.len() > 0 || scan.searches.len() > 0) {
        let mut only: Vec<String> = Vec::new();
        if query.statements.len() > 0 {
            proof {
                assert(statements_view(query.statements@).last() == query.statements[
                    query.statements.len() - 1
                ]@);
            }
            match &query.statements[query.statements.len() - 1] {
                Statement::Assignment { variable, .. } => {
                    only.push(variable.clone());
                    proof {
                        assert(strings_view(only@) =~= seq![variable@]);
                    }
                    return only;
                },
                _ => {},
            }
        }
        proof {
            assert(strings_view(only@) =~= Seq::empty());
        }
        return only;
    }
    names
}

/// What is to run for one variable: its name and its compiled tools.
#[derive(Debug, PartialEq)]
pub struct Job {
    pub name: String,
    pub tools: Vec<ToolArgs>,
    pub action: FinalAction,
    pub ids: Vec<String>,
}

/// The mathematical value of a [`Job`].
pub struct JobView {
    pub name: Seq<char>,
    pub compiled: CompiledView,
}

impl View for Job {
    type V = JobView;

    open spec fn view(&self) -> JobView {
        JobView {
            name: self.name@,
            compiled: CompiledView {
                tools: tools_view(self.tools@),
                action: self.action@,
                ids: strings_view(self.ids@),
            },
        }
    }
}

impl Clone for Job {
    fn clone(&self) -> (r: Self)
        ensures
            r@ == self@,
    {
        Job {
            name: self.name.clone(),
            tools: clone_tools(&self.tools),
            action: self.action.clone(),
            ids: clone_strings(&self.ids),
        }
    }
}

/// The views of a list of jobs, item by item.
pub open spec fn jobs_view(jobs: Seq<Job>) -> Seq<JobView> {
    Seq::new(jobs.len(), |i: int| jobs[i]@)
}

/// What a search compiles to: its one tool, and everything collected.
pub open spec fn search_compiled(tool: ToolArgsView) -> CompiledView {
    CompiledView {
        tools: seq![tool],
        action: FinalActionView::Collect { range: None },
        ids: Seq::empty(),
    }
}

/// What is to run for a variable. A search runs as it is; a traversal is
/// resolved and compiled; a variable that was never assigned has nothing to
/// run.
pub open spec fn job_of(scan: ScanView, name: Seq<char>) -> Result<Option<JobView>, EvalErrorView> {
    match search_binding(scan.searches, name) {
        Some(tool) => Ok(Some(JobView { name, compiled: search_compiled(tool) })),
        None => match resolve(scan.assignments, name) {
            Err(e) => Err(EvalErrorView::Resolution(e)),
            Ok(None) => Ok(None),
            Ok(Some(t)) => match compile(t, scan.params) {
                Err(e) => Err(EvalErrorView::Compile(e)),
                Ok(compiled) => Ok(Some(JobView { name, compiled })),
            },
        },
    }
}

/// The jobs of the variables, in order; the first variable that does not
/// resolve or compile decides the error.
pub open spec fn jobs_of(scan: ScanView, names: Seq<Seq<char>>) -> Result<
    Seq<JobView>,
    EvalErrorView,
>
    decreases names.len(),
{
    if names.len() == 0 {
        Ok(Seq::empty())
    } else {
        match jobs_of(scan, names.drop_last()) {
            Err(e) => Err(e),
            Ok(jobs) => match job_of(scan, names.last()) {
                Err(e) => Err(e),
                Ok(Some(job)) => Ok(jobs.push(job)),
                Ok(None) => Ok(jobs),
            },
        }
    }
}

/// Once a prefix of the variables fails, the whole list fails the same way.
pub proof fn lemma_jobs_error(scan: ScanView, names: Seq<Seq<char>>, n: int)
    requires
        0 <= n <= names.len(),
        jobs_of(scan, names.take(n)) is Err,
    ensures
        jobs_of(scan, names) == jobs_of(scan, names.take(n)),
    decreases names.len() - n,
{
    if n < names.len() {
        assert(names.take(n + 1).drop_last() =~= names.take(n));
        lemma_jobs_error(scan, names, n + 1);
    } else {
        assert(names.take(n) =~= names);
    }
}

/// What is to run for a variable.
pub fn plan_job(scan: &Scan, name: &String) -> (r: Result<Option<Job>, EvalError>)
    ensures
        match r {
            Ok(Some(job)) => job_of(scan@, name@) == Ok::<Option<JobView>, EvalErrorView>(
                Some(job@),
            ),
            Ok(None) => job_of(scan@, name@) == Ok::<Option<JobView>, EvalErrorView>(None),
            Err(e) => job_of(scan@, name@) == Err::<Option<JobView>, EvalErrorView>(e@),
        },
{
    match find_search(&scan.searches, name.as_str()) {
        Some(tool) => {
            let mut tools: Vec<ToolArgs> = Vec::new();
            tools.push(clone_tool(tool));
            let ids: Vec<String> = Vec::new();
            proof {
                assert(tools_view(tools@) =~= seq![tool@]);
                assert(strings_view(ids@) =~= Seq::empty());
            }
            Ok(
                Some(
                    Job {
                        name: name.clone(),
                        tools,
                        action: FinalAction::Collect { range: None },
                        ids,
                    },
                ),
            )
        },
        None => match resolve_traversal(name.as_str(), &scan.assignments) {
            Err(e) => Err(EvalError::Resolution(e)),
            Ok(None) => Ok(None),
            Ok(Some(t)) => match map_traversal_to_tools(&t, &scan.params) {
                Err(e) => Err(EvalError::Compile(e)),
                Ok((tools, action, ids)) => Ok(Some(Job { name: name.clone(), tools, action, ids })),
            },
        },
    }
}

/// The jobs of the variables, in order.
pub fn plan_jobs(scan: &Scan, names: &Vec<String>) -> (r: Result<Vec<Job>, EvalError>)
    ensures
        match r {
            Ok(jobs) => jobs_of(scan@, strings_view(names@)) == Ok::<Seq<JobView>, EvalErrorView>(
                jobs_view(jobs@),
            ),
            Err(e) => jobs_of(scan@, strings_view(names@)) == Err::<Seq<JobView>, EvalErrorView>(
                e@,
            ),
        },
{
    let ghost all = strings_view(names@);
    let mut jobs: Vec<Job> = Vec::new();
    let mut i: usize = 0;
    proof {
        assert(all.take(0) =~= Seq::empty());
        assert(jobs_view(jobs@) =~= Seq::empty());
    }
    while i < names.len()
        invariant
            i <= names.len(),
            all == strings_view(names@),
            jobs_of(scan@, all.take(i as int)) == Ok::<Seq<JobView>, EvalErrorView>(
                jobs_view(jobs@),
            ),
        decreases names.len() - i,
    {
        let ghost before = jobs_view(jobs@);
        proof {
            assert(all.take(i + 1).drop_last() =~= all.take(i as int));
            assert(all.take(i + 1).last() == names[i as int]@);
        }
        match plan_job(scan, &names[i]) {
            Err(e) => {
                proof {
                    lemma_jobs_error(scan@, all, i + 1);
                }
                return Err(e);
            },
            Ok(Some(job)) => {
                jobs.push(job);
                proof {
                    assert(jobs_view(jobs@) =~= before.push(job@));
                }
            },
            Ok(None) => {},
        }
        i += 1;
    }
    proof {
        assert(all.take(i as int) =~= all);
    }
    Ok(jobs)
}

/// What evaluating a query comes to, decided before anything is sent.
#[derive(Debug, PartialEq)]
pub struct Plan {
    /// The parameters: those supplied, and the literals assigned in the query.
    pub params: Json,
    /// What is to run, variable by variable, in the order written.
    pub jobs: Vec<Job>,
    /// The name of the compiled query to try first, if there is one.
    pub fast_path: Option<String>,
}

/// The mathematical value of a [`Plan`].
pub struct PlanView {
    pub params: JsonView,
    pub jobs: Seq<JobView>,
    pub fast_path: Option<Seq<char>>,
}

impl View for Plan {
    type V = PlanView;

    open spec fn view(&self) -> PlanView {
        PlanView {
            params: self.params@,
            jobs: jobs_view(self.jobs@),
            fast_path: optional_string_view(self.fast_path),
        }
    }
}

/// The name of the query that wraps a bare traversal.
pub open spec fn wrapper_name() -> Seq<char> {
    "ExplorerTmp"@
}

/// The compiled query to try first: the query's own, where it has a name of
/// its own and declares parameters.
pub open spec fn fast_path_of(q: QueryView) -> Option<Seq<char>> {
    if q.name != wrapper_name() && q.parameters.len() > 0 {
        Some(q.name)
    } else {
        None
    }
}

/// The plan of a query.
///
/// The syntax tree is inspected first: a query that writes, drops or loops
/// anywhere is refused as read-only, whatever else is wrong with it. Then the
/// statements are read, and every variable to evaluate is resolved and
/// compiled: a query of which one does not resolve or compile is refused. A
/// query with nothing to evaluate is refused. All of this comes before any
/// request.
pub open spec fn plan_of(q: QueryView, params: Option<JsonView>) -> Result<PlanView, EvalErrorView> {
    match first_refusal(q.statements) {
        Some(reason) => Err(EvalErrorView::ReadOnly(reason)),
        None => match scan_statements(initial_scan(params), q.statements) {
            Err(e) => Err(e),
            Ok(scan) => if wanted_names(q, scan).len() == 0 {
                Err(EvalErrorView::NothingToRun)
            } else {
                match jobs_of(scan, wanted_names(q, scan)) {
                    Err(e) => Err(e),
                    Ok(jobs) => Ok(
                        PlanView { params: scan.params, jobs, fast_path: fast_path_of(q) },
                    ),
                }
            },
        },
    }
}

/// Plans the evaluation of a query.
pub fn plan_query(query: &Query, params: Option<Json>) -> (r: Result<Plan, EvalError>)
    ensures
        match r {
            Ok(plan) => plan_of(query@, optional_json_view(params)) == Ok::<PlanView, EvalErrorView>(
                plan@,
            ),
            Err(e) => plan_of(query@, optional_json_view(params)) == Err::<PlanView, EvalErrorView>(
                e@,
            ),
        },
{
    match first_refusal_of(&query.statements) {
        Some(reason) => {
            return Err(EvalError::ReadOnly(reason));
        },
        None => {},
    }
    let scan = match scan_query(&query.statements, params) {
        Ok(scan) => scan,
        Err(e) => {
            return Err(e);
        },
    };
    let names = wanted_variables(query, &scan);
    if names.len() == 0 {
        return Err(EvalError::NothingToRun);
    }
    let jobs = match plan_jobs(&scan, &names) {
        Ok(jobs) => jobs,
        Err(e) => {
            return Err(e);
        },
    };
    let fast_path = if !str_equal(query.name.as_str(), "ExplorerTmp") && query.parameters.len() > 0 {
        Some(query.name.clone())
    } else {
        None
    };
    Ok(Plan { params: scan.params, jobs, fast_path })
}

/// Whether a statement writes data, drops data or loops.
pub open spec fn is_writing(statement: StatementView) -> bool {
    refusal(statement) is Some
}

/// A query with a statement that writes at any depth, drops or loops never
/// gets a plan, so nothing is ever sent for it: it is refused as read-only,
/// for the reason of the first such statement, whatever else it holds.
pub proof fn lemma_writes_are_refused(q: QueryView, params: Option<JsonView>, i: int)
    requires
        0 <= i < q.statements.len(),
        is_writing(q.statements[i]),
    ensures
        first_refusal(q.statements) is Some,
        plan_of(q, params) == Err::<PlanView, EvalErrorView>(
            EvalErrorView::ReadOnly(first_refusal(q.statements).unwrap()),
        ),
{
    lemma_first_refusal_exists(q.statements, i);
}

} // verus!
