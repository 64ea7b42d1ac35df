//! The syntax tree of a query, as a parser hands it over.

use crate::text::{clone_strings, strings_view};
use crate::tool_args::{Operator, Order};
use crate::value::{Value, ValueView};
use vstd::prelude::*;

verus! {

/// A count written in a query: a 32-bit or 64-bit integer literal, or
/// anything else (another numeric type, a parameter).
#[derive(Debug, Clone, Copy, PartialEq, Eq, Structural)]
pub enum EvaluatesToNumber {
    I32(i32),
    I64(i64),
    Other,
}

/// A text written in a query: a literal, or the name of a parameter.
#[derive(Debug, PartialEq)]
pub enum EvaluatesToString {
    Identifier(String),
    StringLiteral(String),
}

/// The mathematical value of an [`EvaluatesToString`].
pub enum EvaluatesToStringView {
    Identifier(Seq<char>),
    StringLiteral(Seq<char>),
}

impl View for EvaluatesToString {
    type V = EvaluatesToStringView;

    open spec fn view(&self) -> EvaluatesToStringView {
        match *self {
            EvaluatesToString::Identifier(s) => EvaluatesToStringView::Identifier(s@),
            EvaluatesToString::StringLiteral(s) => EvaluatesToStringView::StringLiteral(s@),
        }
    }
}

impl Clone for EvaluatesToString {
    fn clone(&self) -> (r: Self)
        ensures
            r@ == self@,
    {
        match self {
            EvaluatesToString::Identifier(s) => EvaluatesToString::Identifier(s.clone()),
            EvaluatesToString::StringLiteral(s) => EvaluatesToString::StringLiteral(s.clone()),
        }
    }
}

/// What a vector search looks for: a vector given number by number (each as
/// decimal text), the name of a variable, or a text to embed.
#[derive(Debug, PartialEq)]
pub enum VectorData {
    Vector(Vec<String>),
    Identifier(String),
    Embed(EvaluatesToString),
}

/// The mathematical value of a [`VectorData`].
pub enum VectorDataView {
    Vector(Seq<Seq<char>>),
    Identifier(Seq<char>),
    Embed(EvaluatesToStringView),
}

impl View for VectorData {
    type V = VectorDataView;

    open spec fn view(&self) -> VectorDataView {
        match *self {
            VectorData::Vector(v) => VectorDataView::Vector(strings_view(v@)),
            VectorData::Identifier(s) => VectorDataView::Identifier(s@),
            VectorData::Embed(e) => VectorDataView::Embed(e@),
        }
    }
}

impl Clone for VectorData {
    fn clone(&self) -> (r: Self)
        ensures
            r@ == self@,
    {
        match self {
            VectorData::Vector(v) => VectorData::Vector(clone_strings(v)),
            VectorData::Identifier(s) => VectorData::Identifier(s.clone()),
            VectorData::Embed(e) => VectorData::Embed(e.clone()),
        }
    }
}

/// A vector search.
#[derive(Debug, PartialEq)]
pub struct SearchVector {
    pub vector_type: Option<String>,
    pub data: Option<VectorData>,
    pub k: Option<EvaluatesToNumber>,
}

/// The mathematical value of a [`SearchVector`].
pub struct SearchVectorView {
    pub vector_type: Option<Seq<char>>,
    pub data: Option<VectorDataView>,
    pub k: Option<EvaluatesToNumber>,
}

/// The view of an optional string.
pub open spec fn optional_string_view(s: Option<String>) -> Option<Seq<char>> {
    match s {
        Some(inner) => Some(inner@),
        None => None,
    }
}

/// A copy of an optional string.
pub fn clone_optional_string(s: &Option<String>) -> (r: Option<String>)
    ensures
        optional_string_view(r) == optional_string_view(*s),
{
    match s {
        Some(inner) => Some(inner.clone()),
        None => None,
    }
}

impl View for SearchVector {
    type V = SearchVectorView;

    open spec fn view(&self) -> SearchVectorView {
        SearchVectorView {
            vector_type: optional_string_view(self.vector_type),
            data: match self.data {
                Some(d) => Some(d@),
                None => None,
            },
            k: self.k,
        }
    }
}

impl Clone for SearchVector {
    fn clone(&self) -> (r: Self)
        ensures
            r@ == self@,
    {
        let data = match &self.data {
            Some(d) => Some(d.clone()),
            None => None,
        };
        let k = match &self.k {
            Some(n) => Some(*n),
            None => None,
        };
        SearchVector { vector_type: clone_optional_string(&self.vector_type), data, k }
    }
}

/// A keyword search. `data` is the query as the parser renders it.
#[derive(Debug, PartialEq)]
pub struct BM25Search {
    pub type_arg: Option<String>,
    pub data: Option<String>,
    pub k: Option<EvaluatesToNumber>,
}

/// The mathematical value of a [`BM25Search`].
pub struct BM25SearchView {
    pub type_arg: Option<Seq<char>>,
    pub data: Option<Seq<char>>,
    pub k: Option<EvaluatesToNumber>,
}

impl View for BM25Search {
    type V = BM25SearchView;

    open spec fn view(&self) -> BM25SearchView {
        BM25SearchView {
            type_arg: optional_string_view(self.type_arg),
            data: optional_string_view(self.data),
            k: self.k,
        }
    }
}

impl Clone for BM25Search {
    fn clone(&self) -> (r: Self)
        ensures
            r@ == self@,
    {
        let k = match &self.k {
            Some(n) => Some(*n),
            None => None,
        };
        BM25Search {
            type_arg: clone_optional_string(&self.type_arg),
            data: clone_optional_string(&self.data),
            k,
        }
    }
}

/// The value of an indexed lookup: a literal, a name, or an object.
#[derive(Debug, PartialEq)]
pub enum ValueType {
    Literal(Value),
    Identifier(String),
    Object,
}

/// The mathematical value of a [`ValueType`].
pub enum ValueTypeView {
    Literal(ValueView),
    Identifier(Seq<char>),
    Object,
}

impl View for ValueType {
    type V = ValueTypeView;

    open spec fn view(&self) -> ValueTypeView {
        match *self {
            ValueType::Literal(v) => ValueTypeView::Literal(v@),
            ValueType::Identifier(s) => ValueTypeView::Identifier(s@),
            ValueType::Object => ValueTypeView::Object,
        }
    }
}

impl Clone for ValueType {
    fn clone(&self) -> (r: Self)
        ensures
            r@ == self@,
    {
        match self {
            ValueType::Literal(v) => ValueType::Literal(v.clone()),
            ValueType::Identifier(s) => ValueType::Identifier(s.clone()),
            ValueType::Object => ValueType::Object,
        }
    }
}

/// How a start node names the items it wants: by a literal identifier, by a
/// parameter that holds one, or by the value of an indexed property.
#[derive(Debug, PartialEq)]
pub enum IdType {
    Literal(String),
    Identifier(String),
    ByIndex { index: Box<IdType>, value: ValueType },
}

/// The mathematical value of an [`IdType`].
pub enum IdTypeView {
    Literal(Seq<char>),
    Identifier(Seq<char>),
    ByIndex { index: Box<IdTypeView>, value: ValueTypeView },
}

/// The view of an identifier.
pub open spec fn id_view(id: IdType) -> IdTypeView
    decreases id,
{
    match id {
        IdType::Literal(s) => IdTypeView::Literal(s@),
        IdType::Identifier(s) => IdTypeView::Identifier(s@),
        IdType::ByIndex { index, value } => IdTypeView::ByIndex {
            index: Box::new(id_view(*index)),
            value: value@,
        },
    }
}

impl View for IdType {
    type V = IdTypeView;

    open spec fn view(&self) -> IdTypeView {
        id_view(*self)
    }
}

/// A copy of an identifier.
pub fn clone_id(id: &IdType) -> (r: IdType)
    ensures
        r@ == id@,
    decreases id,
{
    match id {
        IdType::Literal(s) => IdType::Literal(s.clone()),
        IdType::Identifier(s) => IdType::Identifier(s.clone()),
        IdType::ByIndex { index, value } => IdType::ByIndex {
            index: Box::new(clone_id(index)),
            value: value.clone(),
        },
    }
}

impl Clone for IdType {
    fn clone(&self) -> (r: Self)
        ensures
            r@ == self@,
    {
        clone_id(self)
    }
}

/// The views of a list of identifiers, item by item.
pub open spec fn ids_view(ids: Seq<IdType>) -> Seq<IdTypeView> {
    Seq::new(ids.len(), |i: int| ids[i]@)
}

/// The view of an optional list of identifiers.
pub open spec fn optional_ids_view(ids: Option<Vec<IdType>>) -> Option<Seq<IdTypeView>> {
    match ids {
        Some(list) => Some(ids_view(list@)),
        None => None,
    }
}

/// A copy of an optional list of identifiers.
pub fn clone_optional_ids(ids: &Option<Vec<IdType>>) -> (r: Option<Vec<IdType>>)
    ensures
        optional_ids_view(r) == optional_ids_view(*ids),
{
    match ids {
        Some(list) => {
            let mut out: Vec<IdType> = Vec::new();
            let mut i: usize = 0;
            while i < list.len()
                invariant
                    i <= list.len(),
                    out.len() == i,
                    forall|k: int| 0 <= k < i ==> out[k]@ == list[k]@,
                decreases list.len() - i,
            {
                out.push(list[i].clone());
                i += 1;
            }
            assert(ids_view(out@) =~= ids_view(list@));
            Some(out)
        },
        None => None,
    }
}

/// Where a traversal starts.
#[derive(Debug, PartialEq)]
pub enum StartNode {
    Node { node_type: String, ids: Option<Vec<IdType>> },
    Edge { edge_type: String, ids: Option<Vec<IdType>> },
    Vector { vector_type: String, ids: Option<Vec<IdType>> },
    SearchVector(SearchVector),
    Identifier(String),
    Anonymous,
}

/// The mathematical value of a [`StartNode`].
pub enum StartNodeView {
    Node { node_type: Seq<char>, ids: Option<Seq<IdTypeView>> },
    Edge { edge_type: Seq<char>, ids: Option<Seq<IdTypeView>> },
    Vector { vector_type: Seq<char>, ids: Option<Seq<IdTypeView>> },
    SearchVector(SearchVectorView),
    Identifier(Seq<char>),
    Anonymous,
}

impl View for StartNode {
    type V = StartNodeView;

    open spec fn view(&self) -> StartNodeView {
        match *self {
            StartNode::Node { node_type, ids } => StartNodeView::Node {
                node_type: node_type@,
                ids: optional_ids_view(ids),
            },
            StartNode::Edge { edge_type, ids } => StartNodeView::Edge {
                edge_type: edge_type@,
                ids: optional_ids_view(ids),
            },
            StartNode::Vector { vector_type, ids } => StartNodeView::Vector {
                vector_type: vector_type@,
                ids: optional_ids_view(ids),
            },
            StartNode::SearchVector(sv) => StartNodeView::SearchVector(sv@),
            StartNode::Identifier(s) => StartNodeView::Identifier(s@),
            StartNode::Anonymous => StartNodeView::Anonymous,
        }
    }
}

impl Clone for StartNode {
    fn clone(&self) -> (r: Self)
        ensures
            r@ == self@,
    {
        match self {
            StartNode::Node { node_type, ids } => StartNode::Node {
                node_type: node_type.clone(),
                ids: clone_optional_ids(ids),
            },
            StartNode::Edge { edge_type, ids } => StartNode::Edge {
                edge_type: edge_type.clone(),
                ids: clone_optional_ids(ids),
            },
            StartNode::Vector { vector_type, ids } => StartNode::Vector {
                vector_type: vector_type.clone(),
                ids: clone_optional_ids(ids),
            },
            StartNode::SearchVector(sv) => StartNode::SearchVector(sv.clone()),
            StartNode::Identifier(s) => StartNode::Identifier(s.clone()),
            StartNode::Anonymous => StartNode::Anonymous,
        }
    }
}

/// A traversal: start here, then apply these steps.
#[derive(Debug, PartialEq)]
pub struct Traversal {
    pub start: StartNode,
    pub steps: Vec<Step>,
}

/// A comparison that follows a property access inside a `WHERE` clause.
#[derive(Debug, PartialEq)]
pub enum BooleanOp {
    Compare { operator: Operator, operand: Box<Expression> },
    /// An operation that is no comparison of two values, by its name.
    Unsupported(String),
}

/// The value of a field in an object literal.
#[derive(Debug, PartialEq)]
pub enum FieldValue {
    Literal(Value),
    Expression(Expression),
    Identifier(String),
    /// Any other form, by its name.
    Unsupported(String),
}

/// A field of an object literal.
#[derive(Debug, PartialEq)]
pub struct FieldAddition {
    pub key: String,
    pub value: FieldValue,
}

/// One step of a traversal.
#[derive(Debug, PartialEq)]
pub enum Step {
    Out(String),
    In(String),
    OutE(String),
    InE(String),
    FromN,
    ToN,
    SearchVector(SearchVector),
    Where(Box<Expression>),
    BooleanOperation(BooleanOp),
    OrderBy { order: Order, expression: Box<Expression> },
    Range(Expression, Expression),
    First,
    Count,
    Aggregate(Vec<String>),
    GroupBy(Vec<String>),
    Object(Vec<FieldAddition>),
    /// A step that writes data (an update, an upsert, an added edge), by its
    /// name.
    Write(String),
    /// Any other step, by its name.
    Unsupported(String),
}

/// An expression.
#[derive(Debug, PartialEq)]
pub enum Expression {
    Traversal(Box<Traversal>),
    Identifier(String),
    StringLiteral(String),
    IntegerLiteral(i32),
    /// A floating-point literal, as decimal text.
    FloatLiteral(String),
    BooleanLiteral(bool),
    ArrayLiteral(Vec<Expression>),
    And(Vec<Expression>),
    Or(Vec<Expression>),
    AddNode,
    AddEdge,
    AddVector,
    SearchVector(SearchVector),
    BM25Search(BM25Search),
    /// Any other expression, by its name.
    Unsupported(String),
}

/// The mathematical value of a [`Traversal`].
pub struct TraversalView {
    pub start: StartNodeView,
    pub steps: Seq<StepView>,
}

/// The mathematical value of a [`BooleanOp`].
pub enum BooleanOpView {
    Compare { operator: Operator, operand: Box<ExpressionView> },
    Unsupported(Seq<char>),
}

/// The mathematical value of a [`FieldValue`].
pub enum FieldValueView {
    Literal(ValueView),
    Expression(ExpressionView),
    Identifier(Seq<char>),
    Unsupported(Seq<char>),
}

/// The mathematical value of a [`FieldAddition`].
pub struct FieldAdditionView {
    pub key: Seq<char>,
    pub value: FieldValueView,
}

/// The mathematical value of a [`Step`].
pub enum StepView {
    Out(Seq<char>),
    In(Seq<char>),
    OutE(Seq<char>),
    InE(Seq<char>),
    FromN,
    ToN,
    SearchVector(SearchVectorView),
    Where(Box<ExpressionView>),
    BooleanOperation(BooleanOpView),
    OrderBy { order: Order, expression: Box<ExpressionView> },
    Range(ExpressionView, ExpressionView),
    First,
    Count,
    Aggregate(Seq<Seq<char>>),
    GroupBy(Seq<Seq<char>>),
    Object(Seq<FieldAdditionView>),
    Write(Seq<char>),
    Unsupported(Seq<char>),
}

/// The mathematical value of an [`Expression`].
pub enum ExpressionView {
    Traversal(Box<TraversalView>),
    Identifier(Seq<char>),
    StringLiteral(Seq<char>),
    IntegerLiteral(i32),
    FloatLiteral(Seq<char>),
    BooleanLiteral(bool),
    ArrayLiteral(Seq<ExpressionView>),
    And(Seq<ExpressionView>),
    Or(Seq<ExpressionView>),
    AddNode,
    AddEdge,
    AddVector,
    SearchVector(SearchVectorView),
    BM25Search(BM25SearchView),
    Unsupported(Seq<char>),
}

/// The view of a traversal.
pub open spec fn traversal_view(t: Traversal) -> TraversalView
    decreases t,
{
    TraversalView { start: t.start@, steps: steps_view(t.steps@) }
}

/// The views of a list of steps, item by item.
pub open spec fn steps_view(steps: Seq<Step>) -> Seq<StepView>
    decreases steps,
{
    Seq::new(
        steps.len(),
        |i: int|
            if 0 <= i < steps.len() {
                step_view(steps[i])
            } else {
                arbitrary()
            },
    )
}

/// The views of a list of expressions, item by item.
pub open spec fn expressions_view(exprs: Seq<Expression>) -> Seq<ExpressionView>
    decreases exprs,
{
    Seq::new(
        exprs.len(),
        |i: int|
            if 0 <= i < exprs.len() {
                expression_view(exprs[i])
            } else {
                arbitrary()
            },
    )
}

/// The views of the fields of an object literal, item by item.
pub open spec fn fields_view(fields: Seq<FieldAddition>) -> Seq<FieldAdditionView>
    decreases fields,
{
    Seq::new(
        fields.len(),
        |i: int|
            if 0 <= i < fields.len() {
                field_view(fields[i])
            } else {
                arbitrary()
            },
    )
}

/// The view of a field.
pub open spec fn field_view(f: FieldAddition) -> FieldAdditionView
    decreases f,
{
    FieldAdditionView { key: f.key@, value: field_value_view(f.value) }
}

/// The view of a field's value.
pub open spec fn field_value_view(v: FieldValue) -> FieldValueView
    decreases v,
{
    match v {
        FieldValue::Literal(l) => FieldValueView::Literal(l@),
        FieldValue::Expression(e) => FieldValueView::Expression(expression_view(e)),
        FieldValue::Identifier(s) => FieldValueView::Identifier(s@),
        FieldValue::Unsupported(s) => FieldValueView::Unsupported(s@),
    }
}

/// The view of a comparison.
pub open spec fn boolean_op_view(op: BooleanOp) -> BooleanOpView
    decreases op,
{
    match op {
        BooleanOp::Compare { operator, operand } => BooleanOpView::Compare {
            operator,
            operand: Box::new(expression_view(*operand)),
        },
        BooleanOp::Unsupported(s) => BooleanOpView::Unsupported(s@),
    }
}

/// The view of a step.
pub open spec fn step_view(s: Step) -> StepView
    decreases s,
{
    match s {
        Step::Out(l) => StepView::Out(l@),
        Step::In(l) => StepView::In(l@),
        Step::OutE(l) => StepView::OutE(l@),
        Step::InE(l) => StepView::InE(l@),
        Step::FromN => StepView::FromN,
        Step::ToN => StepView::ToN,
        Step::SearchVector(sv) => StepView::SearchVector(sv@),
        Step::Where(e) => StepView::Where(Box::new(expression_view(*e))),
        Step::BooleanOperation(op) => StepView::BooleanOperation(boolean_op_view(op)),
        Step::OrderBy { order, expression } => StepView::OrderBy {
            order,
            expression: Box::new(expression_view(*expression)),
        },
        Step::Range(a, b) => StepView::Range(expression_view(a), expression_view(b)),
        Step::First => StepView::First,
        Step::Count => StepView::Count,
        Step::Aggregate(p) => StepView::Aggregate(strings_view(p@)),
        Step::GroupBy(p) => StepView::GroupBy(strings_view(p@)),
        Step::Object(fields) => StepView::Object(fields_view(fields@)),
        Step::Write(s) => StepView::Write(s@),
        Step::Unsupported(s) => StepView::Unsupported(s@),
    }
}

/// The view of an expression.
pub open spec fn expression_view(e: Expression) -> ExpressionView
    decreases e,
{
    match e {
        Expression::Traversal(t) => ExpressionView::Traversal(Box::new(traversal_view(*t))),
        Expression::Identifier(s) => ExpressionView::Identifier(s@),
        Expression::StringLiteral(s) => ExpressionView::StringLiteral(s@),
        Expression::IntegerLiteral(i) => ExpressionView::IntegerLiteral(i),
        Expression::FloatLiteral(s) => ExpressionView::FloatLiteral(s@),
        Expression::BooleanLiteral(b) => ExpressionView::BooleanLiteral(b),
        Expression::ArrayLiteral(items) => ExpressionView::ArrayLiteral(expressions_view(items@)),
        Expression::And(items) => ExpressionView::And(expressions_view(items@)),
        Expression::Or(items) => ExpressionView::Or(expressions_view(items@)),
        Expression::AddNode => ExpressionView::AddNode,
        Expression::AddEdge => ExpressionView::AddEdge,
        Expression::AddVector => ExpressionView::AddVector,
        Expression::SearchVector(sv) => ExpressionView::SearchVector(sv@),
        Expression::BM25Search(b) => ExpressionView::BM25Search(b@),
        Expression::Unsupported(s) => ExpressionView::Unsupported(s@),
    }
}

impl View for Traversal {
    type V = TraversalView;

    open spec fn view(&self) -> TraversalView {
        traversal_view(*self)
    }
}

impl View for Step {
    type V = StepView;

    open spec fn view(&self) -> StepView {
        step_view(*self)
    }
}

impl View for Expression {
    type V = ExpressionView;

    open spec fn view(&self) -> ExpressionView {
        expression_view(*self)
    }
}

impl View for BooleanOp {
    type V = BooleanOpView;

    open spec fn view(&self) -> BooleanOpView {
        boolean_op_view(*self)
    }
}

impl View for FieldAddition {
    type V = FieldAdditionView;

    open spec fn view(&self) -> FieldAdditionView {
        field_view(*self)
    }
}

impl View for FieldValue {
    type V = FieldValueView;

    open spec fn view(&self) -> FieldValueView {
        field_value_view(*self)
    }
}

/// A copy of a traversal.
pub fn clone_traversal(t: &Traversal) -> (r: Traversal)
    ensures
        r@ == t@,
    decreases t,
{
    Traversal { start: t.start.clone(), steps: clone_steps(&t.steps) }
}

/// A copy of a list of steps.
pub fn clone_steps(steps: &Vec<Step>) -> (out: Vec<Step>)
    ensures
        steps_view(out@) == steps_view(steps@),
    decreases steps,
{
    let mut out: Vec<Step> = Vec::new();
    let mut i: usize = 0;
    while i < steps.len()
        invariant
            i <= steps.len(),
            out.len() == i,
            forall|k: int| 0 <= k < i ==> out[k]@ == steps[k]@,
        decreases steps.len() - i,
    {
        out.push(clone_step(&steps[i]));
        i += 1;
    }
    assert(steps_view(out@) =~= steps_view(steps@));
    out
}

/// A copy of a list of expressions.
pub fn clone_expressions(exprs: &Vec<Expression>) -> (out: Vec<Expression>)
    ensures
        expressions_view(out@) == expressions_view(exprs@),
    decreases exprs,
{
    let mut out: Vec<Expression> = Vec::new();
    let mut i: usize = 0;
    while i < exprs.len()
        invariant
            i <= exprs.len(),
            out.len() == i,
            forall|k: int| 0 <= k < i ==> out[k]@ == exprs[k]@,
        decreases exprs.len() - i,
    {
        out.push(clone_expression(&exprs[i]));
        i += 1;
    }
    assert(expressions_view(out@) =~= expressions_view(exprs@));
    out
}

/// A copy of the fields of an object literal.
pub fn clone_fields(fields: &Vec<FieldAddition>) -> (out: Vec<FieldAddition>)
    ensures
        fields_view(out@) == fields_view(fields@),
    decreases fields,
{
    let mut out: Vec<FieldAddition> = Vec::new();
    let mut i: usize = 0;
    while i < fields.len()
        invariant
            i <= fields.len(),
            out.len() == i,
            forall|k: int| 0 <= k < i ==> out[k]@ == fields[k]@,
        decreases fields.len() - i,
    {
        out.push(clone_field(&fields[i]));
        i += 1;
    }
    assert(fields_view(out@) =~= fields_view(fields@));
    out
}

/// A copy of a field.
pub fn clone_field(f: &FieldAddition) -> (r: FieldAddition)
    ensures
        r@ == f@,
    decreases f,
{
    let value = match &f.value {
        FieldValue::Literal(l) => FieldValue::Literal(l.clone()),
        FieldValue::Expression(e) => FieldValue::Expression(clone_expression(e)),
        FieldValue::Identifier(s) => FieldValue::Identifier(s.clone()),
        FieldValue::Unsupported(s) => FieldValue::Unsupported(s.clone()),
    };
    FieldAddition { key: f.key.clone(), value }
}

/// A copy of a step.
pub fn clone_step(s: &Step) -> (r: Step)
    ensures
        r@ == s@,
    decreases s,
{
    match s {
        Step::Out(l) => Step::Out(l.clone()),
        Step::In(l) => Step::In(l.clone()),
        Step::OutE(l) => Step::OutE(l.clone()),
        Step::InE(l) => Step::InE(l.clone()),
        Step::FromN => Step::FromN,
        Step::ToN => Step::ToN,
        Step::SearchVector(sv) => Step::SearchVector(sv.clone()),
        Step::Where(e) => Step::Where(Box::new(clone_expression(e))),
        Step::BooleanOperation(op) => {
            let copy = match op {
                BooleanOp::Compare { operator, operand } => BooleanOp::Compare {
                    operator: *operator,
                    operand: Box::new(clone_expression(operand)),
                },
                BooleanOp::Unsupported(name) => BooleanOp::Unsupported(name.clone()),
            };
            Step::BooleanOperation(copy)
        },
        Step::OrderBy { order, expression } => Step::OrderBy {
            order: *order,
            expression: Box::new(clone_expression(expression)),
        },
        Step::Range(a, b) => Step::Range(clone_expression(a), clone_expression(b)),
        Step::First => Step::First,
        Step::Count => Step::Count,
        Step::Aggregate(p) => Step::Aggregate(clone_strings(p)),
        Step::GroupBy(p) => Step::GroupBy(clone_strings(p)),
        Step::Object(fields) => Step::Object(clone_fields(fields)),
        Step::Write(name) => Step::Write(name.clone()),
        Step::Unsupported(name) => Step::Unsupported(name.clone()),
    }
}

/// A copy of an expression.
pub fn clone_expression(e: &Expression) -> (r: Expression)
    ensures
        r@ == e@,
    decreases e,
{
    match e {
        Expression::Traversal(t) => Expression::Traversal(Box::new(clone_traversal(t))),
        Expression::Identifier(s) => Expression::Identifier(s.clone()),
        Expression::StringLiteral(s) => Expression::StringLiteral(s.clone()),
        Expression::IntegerLiteral(i) => Expression::IntegerLiteral(*i),
        Expression::FloatLiteral(s) => Expression::FloatLiteral(s.clone()),
        Expression::BooleanLiteral(b) => Expression::BooleanLiteral(*b),
        Expression::ArrayLiteral(items) => Expression::ArrayLiteral(clone_expressions(items)),
        Expression::And(items) => Expression::And(clone_expressions(items)),
        Expression::Or(items) => Expression::Or(clone_expressions(items)),
        Expression::AddNode => Expression::AddNode,
        Expression::AddEdge => Expression::AddEdge,
        Expression::AddVector => Expression::AddVector,
        Expression::SearchVector(sv) => Expression::SearchVector(sv.clone()),
        Expression::BM25Search(b) => Expression::BM25Search(b.clone()),
        Expression::Unsupported(name) => Expression::Unsupported(name.clone()),
    }
}

impl Clone for Traversal {
    fn clone(&self) -> (r: Self)
        ensures
            r@ == self@,
    {
        clone_traversal(self)
    }
}

impl Clone for Step {
    fn clone(&self) -> (r: Self)
        ensures
            r@ == self@,
    {
        clone_step(self)
    }
}

impl Clone for Expression {
    fn clone(&self) -> (r: Self)
        ensures
            r@ == self@,
    {
        clone_expression(self)
    }
}

/// A statement of a query.
#[derive(Debug, PartialEq)]
pub enum Statement {
    Assignment { variable: String, value: Expression },
    Expression(Expression),
    Drop,
    ForLoop,
}

/// The mathematical value of a [`Statement`].
pub enum StatementView {
    Assignment { variable: Seq<char>, value: ExpressionView },
    Expression(ExpressionView),
    Drop,
    ForLoop,
}

impl View for Statement {
    type V = StatementView;

    open spec fn view(&self) -> StatementView {
        match *self {
            Statement::Assignment { variable, value } => StatementView::Assignment {
                variable: variable@,
                value: value@,
            },
            Statement::Expression(e) => StatementView::Expression(e@),
            Statement::Drop => StatementView::Drop,
            Statement::ForLoop => StatementView::ForLoop,
        }
    }
}

/// The views of a list of statements, item by item.
pub open spec fn statements_view(statements: Seq<Statement>) -> Seq<StatementView> {
    Seq::new(statements.len(), |i: int| statements[i]@)
}

/// What a query returns: an expression, a list of such, or anything else.
#[derive(Debug, PartialEq)]
pub enum ReturnType {
    Expression(Expression),
    Array(Vec<ReturnType>),
    Other,
}

/// The mathematical value of a [`ReturnType`].
pub enum ReturnTypeView {
    Expression(ExpressionView),
    Array(Seq<ReturnTypeView>),
    Other,
}

/// The views of a list of return values, item by item.
pub open spec fn returns_view(values: Seq<ReturnType>) -> Seq<ReturnTypeView>
    decreases values,
{
    Seq::new(
        values.len(),
        |i: int|
            if 0 <= i < values.len() {
                return_view(values[i])
            } else {
                arbitrary()
            },
    )
}

/// The view of a return value.
pub open spec fn return_view(r: ReturnType) -> ReturnTypeView
    decreases r,
{
    match r {
        ReturnType::Expression(e) => ReturnTypeView::Expression(e@),
        ReturnType::Array(items) => ReturnTypeView::Array(returns_view(items@)),
        ReturnType::Other => ReturnTypeView::Other,
    }
}

impl View for ReturnType {
    type V = ReturnTypeView;

    open spec fn view(&self) -> ReturnTypeView {
        return_view(*self)
    }
}

/// A query: its name, the names of its declared parameters, its statements
/// and what it returns.
#[derive(Debug, PartialEq)]
pub struct Query {
    pub name: String,
    pub parameters: Vec<String>,
    pub statements: Vec<Statement>,
    pub return_values: Vec<ReturnType>,
}

/// The mathematical value of a [`Query`].
pub struct QueryView {
    pub name: Seq<char>,
    pub parameters: Seq<Seq<char>>,
    pub statements: Seq<StatementView>,
    pub return_values: Seq<ReturnTypeView>,
}

impl View for Query {
    type V = QueryView;

    open spec fn view(&self) -> QueryView {
        QueryView {
            name: self.name@,
            parameters: strings_view(self.parameters@),
            statements: statements_view(self.statements@),
            return_values: returns_view(self.return_values@),
        }
    }
}

} // verus!
