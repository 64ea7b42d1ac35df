//! Inspection of the syntax tree for anything that writes: the explorer only
//! reads, and a query that writes is refused before anything is sent.

use crate::ast::{
    expressions_view, fields_view, steps_view, BooleanOp, BooleanOpView, Expression, ExpressionView,
    FieldAddition, FieldAdditionView, FieldValue, FieldValueView, Step, StepView, Traversal,
    TraversalView,
};
use vstd::prelude::*;

verus! {

/// Whether an expression writes data: it adds a node, an edge or a vector, or
/// holds, at any depth, an expression or a step that writes.
pub open spec fn expression_writes(e: ExpressionView) -> bool
    decreases e,
{
    match e {
        ExpressionView::AddNode | ExpressionView::AddEdge | ExpressionView::AddVector => true,
        ExpressionView::Traversal(t) => traversal_writes(*t),
        ExpressionView::ArrayLiteral(items) => any_expression_writes(items),
        ExpressionView::And(items) => any_expression_writes(items),
        ExpressionView::Or(items) => any_expression_writes(items),
        _ => false,
    }
}

/// Whether one of the expressions writes data.
pub open spec fn any_expression_writes(items: Seq<ExpressionView>) -> bool
    decreases items,
{
    exists|i: int| 0 <= i < items.len() && expression_writes(#[trigger] items[i])
}

/// Whether a traversal writes data: one of its steps does.
pub open spec fn traversal_writes(t: TraversalView) -> bool
    decreases t,
{
    any_step_writes(t.steps)
}

/// Whether one of the steps writes data.
pub open spec fn any_step_writes(steps: Seq<StepView>) -> bool
    decreases steps,
{
    exists|i: int| 0 <= i < steps.len() && step_writes(#[trigger] steps[i])
}

/// Whether the value of a field writes data.
pub open spec fn field_writes(f: FieldAdditionView) -> bool
    decreases f,
{
    match f.value {
        FieldValueView::Expression(e) => expression_writes(e),
        _ => false,
    }
}

/// Whether the value of one of the fields writes data.
pub open spec fn any_field_writes(fields: Seq<FieldAdditionView>) -> bool
    decreases fields,
{
    exists|i: int| 0 <= i < fields.len() && field_writes(#[trigger] fields[i])
}

/// Whether a step writes data: it is a write step, or an expression in it
/// writes.
pub open spec fn step_writes(s: StepView) -> bool
    decreases s,
{
    match s {
        StepView::Write(_) => true,
        StepView::Where(e) => expression_writes(*e),
        StepView::BooleanOperation(BooleanOpView::Compare { operand, .. }) => expression_writes(
            *operand,
        ),
        StepView::OrderBy { expression, .. } => expression_writes(*expression),
        StepView::Range(start, end) => expression_writes(start) || expression_writes(end),
        StepView::Object(fields) => any_field_writes(fields),
        _ => false,
    }
}

/// Whether an expression writes data.
pub fn writes_data(e: &Expression) -> (r: bool)
    ensures
        r == expression_writes(e@),
    decreases e,
{
    match e {
        Expression::AddNode | Expression::AddEdge | Expression::AddVector => true,
        Expression::Traversal(t) => traversal_writes_data(t),
        Expression::ArrayLiteral(items) => any_writes_data(items),
        Expression::And(items) => any_writes_data(items),
        Expression::Or(items) => any_writes_data(items),
        _ => false,
    }
}

/// Whether one of the expressions writes data.
pub fn any_writes_data(items: &Vec<Expression>) -> (r: bool)
    ensures
        r == any_expression_writes(expressions_view(items@)),
    decreases items,
{
    let mut i: usize = 0;
    while i < items.len()
        invariant
            i <= items.len(),
            forall|j: int| 0 <= j < i ==> !expression_writes(items[j]@),
        decreases items.len() - i,
    {
        if writes_data(&items[i]) {
            assert(expression_writes(expressions_view(items@)[i as int]));
            return true;
        }
        i += 1;
    }
    assert forall|j: int| 0 <= j < items.len() implies !expression_writes(
        #[trigger] expressions_view(items@)[j],
    ) by {
        assert(expressions_view(items@)[j] == items[j]@);
    }
    false
}

/// Whether a traversal writes data.
pub fn traversal_writes_data(t: &Traversal) -> (r: bool)
    ensures
        r == traversal_writes(t@),
    decreases t,
{
    any_step_writes_data(&t.steps)
}

/// Whether one of the steps writes data.
pub fn any_step_writes_data(steps: &Vec<Step>) -> (r: bool)
    ensures
        r == any_step_writes(steps_view(steps@)),
    decreases steps,
{
    let mut i: usize = 0;
    while i < steps.len()
        invariant
            i <= steps.len(),
            forall|j: int| 0 <= j < i ==> !step_writes(steps[j]@),
        decreases steps.len() - i,
    {
        if step_writes_data(&steps[i]) {
            assert(step_writes(steps_view(steps@)[i as int]));
            return true;
        }
        i += 1;
    }
    assert forall|j: int| 0 <= j < steps.len() implies !step_writes(
        #[trigger] steps_view(steps@)[j],
    ) by {
        assert(steps_view(steps@)[j] == steps[j]@);
    }
    false
}

/// Whether the value of one of the fields writes data.
pub fn any_field_writes_data(fields: &Vec<FieldAddition>) -> (r: bool)
    ensures
        r == any_field_writes(fields_view(fields@)),
    decreases fields,
{
    let mut i: usize = 0;
    while i < fields.len()
        invariant
            i <= fields.len(),
            forall|j: int| 0 <= j < i ==> !field_writes(fields[j]@),
        decreases fields.len() - i,
    {
        let found = match &fields[i].value {
            FieldValue::Expression(e) => writes_data(e),
            _ => false,
        };
        if found {
            assert(field_writes(fields_view(fields@)[i as int]));
            return true;
        }
        i += 1;
    }
    assert forall|j: int| 0 <= j < fields.len() implies !field_writes(
        #[trigger] fields_view(fields@)[j],
    ) by {
        assert(fields_view(fields@)[j] == fields[j]@);
    }
    false
}

/// Whether a step writes data.
pub fn step_writes_data(s: &Step) -> (r: bool)
    ensures
        r == step_writes(s@),
    decreases s,
{
    match s {
        Step::Write(_) => true,
        Step::Where(e) => writes_data(e),
        Step::BooleanOperation(BooleanOp::Compare { operand, .. }) => writes_data(operand),
        Step::OrderBy { expression, .. } => writes_data(expression),
        Step::Range(start, end) => writes_data(start) || writes_data(end),
        Step::Object(fields) => any_field_writes_data(fields),
        _ => false,
    }
}

/// A step that writes makes the traversal that holds it, and every
/// expression that holds that traversal, one that writes.
pub proof fn lemma_write_step_is_seen(t: TraversalView, i: int)
    requires
        0 <= i < t.steps.len(),
        step_writes(t.steps[i]),
    ensures
        traversal_writes(t),
        expression_writes(ExpressionView::Traversal(Box::new(t))),
{
    assert(traversal_writes(t));
    assert(expression_writes(ExpressionView::Traversal(Box::new(t))) == traversal_writes(t));
}

/// The position of the first step that writes data, if there is one.
pub open spec fn first_writing_step(steps: Seq<StepView>) -> Option<int>
    decreases steps.len(),
{
    if steps.len() == 0 {
        None
    } else if step_writes(steps[0]) {
        Some(0)
    } else {
        match first_writing_step(steps.skip(1)) {
            Some(i) => Some(i + 1),
            None => None,
        }
    }
}

/// `first_writing_step` finds a step that writes, and none writes before
/// it; it finds none exactly when no step writes.
pub proof fn lemma_first_writing_step(steps: Seq<StepView>)
    ensures
        match first_writing_step(steps) {
            Some(i) => 0 <= i < steps.len() && step_writes(steps[i]) && forall|j: int|
                0 <= j < i ==> !step_writes(#[trigger] steps[j]),
            None => forall|j: int| 0 <= j < steps.len() ==> !step_writes(#[trigger] steps[j]),
        },
        first_writing_step(steps) is Some <==> any_step_writes(steps),
    decreases steps.len(),
{
    if steps.len() > 0 && !step_writes(steps[0]) {
        let rest = steps.skip(1);
        lemma_first_writing_step(rest);
        match first_writing_step(rest) {
            Some(i) => {
                assert(rest[i] == steps[i + 1]);
                assert forall|j: int| 0 <= j < i + 1 implies !step_writes(#[trigger] steps[j]) by {
                    if j > 0 {
                        assert(rest[j - 1] == steps[j]);
                    }
                }
            },
            None => {
                assert forall|j: int| 0 <= j < steps.len() implies !step_writes(
                    #[trigger] steps[j],
                ) by {
                    if j > 0 {
                        assert(rest[j - 1] == steps[j]);
                    }
                }
            },
        }
    }
}

/// The position of the first step that writes data, if there is one.
pub fn find_writing_step(steps: &Vec<Step>) -> (r: Option<usize>)
    ensures
        match r {
            Some(i) => first_writing_step(steps_view(steps@)) == Some(i as int),
            None => first_writing_step(steps_view(steps@)) is None,
        },
{
    let ghost all = steps_view(steps@);
    let mut i: usize = 0;
    while i < steps.len()
        invariant
            i <= steps.len(),
            all == steps_view(steps@),
            forall|j: int| 0 <= j < i ==> !step_writes(#[trigger] all[j]),
        decreases steps.len() - i,
    {
        proof {
            assert(all[i as int] == steps[i as int]@);
        }
        if step_writes_data(&steps[i]) {
            proof {
                lemma_first_writing_step(all);
            }
            return Some(i);
        }
        i += 1;
    }
    proof {
        lemma_first_writing_step(all);
    }
    None
}

} // verus!
