//! Values of operands: a literal stands for itself, a name for the parameter of
//! that name.

use crate::ast::{BM25Search, Expression, ExpressionView, SearchVector, Step, StepView, Traversal};
use crate::error::{CompileError, CompileErrorView};
use crate::json::{get_spec, text_of, Json, JsonNumber, JsonNumberView, JsonView};
use crate::value::{Value, ValueView};
use vstd::prelude::*;

verus! {

/// The view of a result whose two sides have views.
pub open spec fn result_view<T: View, E: View>(r: Result<T, E>) -> Result<T::V, E::V> {
    match r {
        Ok(v) => Ok(v@),
        Err(e) => Err(e@),
    }
}

/// The name of an expression's kind, as errors report it.
pub open spec fn expression_kind(e: ExpressionView) -> Seq<char> {
    match e {
        ExpressionView::Traversal(_) => "Traversal"@,
        ExpressionView::Identifier(_) => "Identifier"@,
        ExpressionView::StringLiteral(_) => "StringLiteral"@,
        ExpressionView::IntegerLiteral(_) => "IntegerLiteral"@,
        ExpressionView::FloatLiteral(_) => "FloatLiteral"@,
        ExpressionView::BooleanLiteral(_) => "BooleanLiteral"@,
        ExpressionView::ArrayLiteral(_) => "ArrayLiteral"@,
        ExpressionView::And(_) => "And"@,
        ExpressionView::Or(_) => "Or"@,
        ExpressionView::AddNode => "AddNode"@,
        ExpressionView::AddEdge => "AddEdge"@,
        ExpressionView::AddVector => "AddVector"@,
        ExpressionView::SearchVector(_) => "SearchVector"@,
        ExpressionView::BM25Search(_) => "BM25Search"@,
        ExpressionView::Unsupported(name) => name,
    }
}

/// The name of a step's kind, as errors report it.
pub open spec fn step_kind(s: StepView) -> Seq<char> {
    match s {
        StepView::Out(_) => "Out"@,
        StepView::In(_) => "In"@,
        StepView::OutE(_) => "OutE"@,
        StepView::InE(_) => "InE"@,
        StepView::FromN => "FromN"@,
        StepView::ToN => "ToN"@,
        StepView::SearchVector(_) => "SearchVector"@,
        StepView::Where(_) => "Where"@,
        StepView::BooleanOperation(_) => "BooleanOperation"@,
        StepView::OrderBy { .. } => "OrderBy"@,
        StepView::Range(_, _) => "Range"@,
        StepView::First => "First"@,
        StepView::Count => "Count"@,
        StepView::Aggregate(_) => "Aggregate"@,
        StepView::GroupBy(_) => "GroupBy"@,
        StepView::Object(_) => "Object"@,
        StepView::Write(name) => name,
        StepView::Unsupported(name) => name,
    }
}

/// The name of an expression's kind.
pub fn expression_kind_name(e: &Expression) -> (r: String)
    ensures
        r@ == expression_kind(e@),
{
    match e {
        Expression::Traversal(_) => String::from_str("Traversal"),
        Expression::Identifier(_) => String::from_str("Identifier"),
        Expression::StringLiteral(_) => String::from_str("StringLiteral"),
        Expression::IntegerLiteral(_) => String::from_str("IntegerLiteral"),
        Expression::FloatLiteral(_) => String::from_str("FloatLiteral"),
        Expression::BooleanLiteral(_) => String::from_str("BooleanLiteral"),
        Expression::ArrayLiteral(_) => String::from_str("ArrayLiteral"),
        Expression::And(_) => String::from_str("And"),
        Expression::Or(_) => String::from_str("Or"),
        Expression::AddNode => String::from_str("AddNode"),
        Expression::AddEdge => String::from_str("AddEdge"),
        Expression::AddVector => String::from_str("AddVector"),
        Expression::SearchVector(_) => String::from_str("SearchVector"),
        Expression::BM25Search(_) => String::from_str("BM25Search"),
        Expression::Unsupported(name) => name.clone(),
    }
}

/// The name of a step's kind.
pub fn step_kind_name(s: &Step) -> (r: String)
    ensures
        r@ == step_kind(s@),
{
    match s {
        Step::Out(_) => String::from_str("Out"),
        Step::In(_) => String::from_str("In"),
        Step::OutE(_) => String::from_str("OutE"),
        Step::InE(_) => String::from_str("InE"),
        Step::FromN => String::from_str("FromN"),
        Step::ToN => String::from_str("ToN"),
        Step::SearchVector(_) => String::from_str("SearchVector"),
        Step::Where(_) => String::from_str("Where"),
        Step::BooleanOperation(_) => String::from_str("BooleanOperation"),
        Step::OrderBy { .. } => String::from_str("OrderBy"),
        Step::Range(_, _) => String::from_str("Range"),
        Step::First => String::from_str("First"),
        Step::Count => String::from_str("Count"),
        Step::Aggregate(_) => String::from_str("Aggregate"),
        Step::GroupBy(_) => String::from_str("GroupBy"),
        Step::Object(_) => String::from_str("Object"),
        Step::Write(name) => name.clone(),
        Step::Unsupported(name) => name.clone(),
    }
}

/// The value that a JSON number is compared as: an integer of 64 bits cut to
/// 32 bits, any other number as a floating-point value by its text.
pub open spec fn number_value(n: JsonNumberView) -> ValueView {
    match n {
        JsonNumberView::PosInt(u) => if u <= i64::MAX {
            ValueView::I32(u as i32)
        } else {
            ValueView::F64(text_of(JsonView::Number(n)))
        },
        JsonNumberView::NegInt(i) => ValueView::I32(i as i32),
        JsonNumberView::Float(t) => ValueView::F64(t),
    }
}

/// The value that a JSON document is compared as: strings, numbers and
/// booleans as themselves, anything else as its compact text.
pub open spec fn json_value(v: JsonView) -> ValueView {
    match v {
        JsonView::String(s) => ValueView::String(s),
        JsonView::Number(n) => number_value(n),
        JsonView::Bool(b) => ValueView::Boolean(b),
        _ => ValueView::String(text_of(v)),
    }
}

/// The value that a name stands for: the parameter of that name, or the name
/// itself where no such parameter was supplied.
pub open spec fn param_value(params: JsonView, name: Seq<char>) -> ValueView {
    match get_spec(params, name) {
        Some(v) => json_value(v),
        None => ValueView::String(name),
    }
}

/// The value of an operand: a literal's value, or what a name stands for.
pub open spec fn value_of(e: ExpressionView, params: JsonView) -> Result<
    ValueView,
    CompileErrorView,
> {
    match e {
        ExpressionView::StringLiteral(s) => Ok(ValueView::String(s)),
        ExpressionView::IntegerLiteral(i) => Ok(ValueView::I32(i)),
        ExpressionView::FloatLiteral(t) => Ok(ValueView::F64(t)),
        ExpressionView::BooleanLiteral(b) => Ok(ValueView::Boolean(b)),
        ExpressionView::Identifier(name) => Ok(param_value(params, name)),
        _ => Err(CompileErrorView::UnsupportedValue { kind: expression_kind(e) }),
    }
}

/// The text that a JSON document gives as an identifier or a query: a string
/// as it is, anything else as its compact text.
pub open spec fn json_plain_text(v: JsonView) -> Seq<char> {
    match v {
        JsonView::String(s) => s,
        _ => text_of(v),
    }
}

/// The value that a JSON document is compared as.
pub fn value_of_json(v: &Json) -> (r: Value)
    ensures
        r@ == json_value(v@),
{
    match v {
        Json::String(s) => Value::String(s.clone()),
        Json::Number(n) => match n {
            JsonNumber::PosInt(u) => {
                if *u <= 0x7fff_ffff_ffff_ffff {
                    Value::I32(
                        #[verifier::truncate]
                        (*u as i32),
                    )
                } else {
                    Value::F64(v.to_text())
                }
            },
            JsonNumber::NegInt(i) => Value::I32(
                #[verifier::truncate]
                (*i as i32),
            ),
            JsonNumber::Float(t) => Value::F64(t.clone()),
        },
        Json::Bool(b) => Value::Boolean(*b),
        _ => Value::String(v.to_text()),
    }
}

/// The value that a name stands for among the parameters.
pub fn value_of_param(params: &Json, name: &String) -> (r: Value)
    ensures
        r@ == param_value(params@, name@),
{
    match params.get(name.as_str()) {
        Some(v) => value_of_json(v),
        None => Value::String(name.clone()),
    }
}

/// The text that a JSON document gives as an identifier or a query.
pub fn plain_text_of_json(v: &Json) -> (r: String)
    ensures
        r@ == json_plain_text(v@),
{
    match v {
        Json::String(s) => s.clone(),
        _ => v.to_text(),
    }
}

/// Resolves the operand of a comparison to a value: a literal gives its
/// value, a name gives the parameter of that name (or itself as a string where
/// there is none); any other expression is refused.
pub fn extract_value(expr: &Expression, params: &Json) -> (r: Result<Value, CompileError>)
    ensures
        result_view(r) == value_of(expr@, params@),
{
    match expr {
        Expression::StringLiteral(s) => Ok(Value::String(s.clone())),
        Expression::IntegerLiteral(i) => Ok(Value::I32(*i)),
        Expression::FloatLiteral(t) => Ok(Value::F64(t.clone())),
        Expression::BooleanLiteral(b) => Ok(Value::Boolean(*b)),
        Expression::Identifier(name) => Ok(value_of_param(params, name)),
        _ => Err(CompileError::UnsupportedValue { kind: expression_kind_name(expr) }),
    }
}

} // verus!
