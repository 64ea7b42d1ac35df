//! From a `WHERE` clause to a filter: property conditions in disjunctive
//! normal form, or a chain of nested tools.

use crate::ast::{
    expressions_view, fields_view, steps_view, traversal_view, BooleanOp, BooleanOpView, Expression,
    ExpressionView, FieldAddition, FieldAdditionView, FieldValue, FieldValueView, SearchVector,
    StartNode, Step, StepView, Traversal, TraversalView,
};
use crate::error::{CompileError, CompileErrorView};
use crate::json::{Json, JsonView};
use crate::tool_args::{
    clause_view, clone_clause, dnf_view, optional_filter_view, tools_view, ClauseView, DnfView,
    EdgeType, FilterProperties, FilterPropertiesView, FilterTraversal, FilterTraversalView,
    Operator, ToolArgs, ToolArgsView,
};
use crate::value::{Value, ValueView};
use crate::value_extractor::{
    expression_kind, expression_kind_name, extract_value, param_value, result_view, step_kind,
    step_kind_name, value_of, value_of_param,
};
use vstd::prelude::*;

verus! {

/// The condition `key == value`.
pub open spec fn equality(key: Seq<char>, value: ValueView) -> FilterPropertiesView {
    FilterPropertiesView { key, value, operator: Some(Operator::Eq) }
}

/// The value of a field of an object literal.
pub open spec fn field_value_of(v: FieldValueView, params: JsonView) -> Result<
    ValueView,
    CompileErrorView,
> {
    match v {
        FieldValueView::Literal(l) => Ok(l),
        FieldValueView::Expression(e) => value_of(e, params),
        FieldValueView::Identifier(name) => Ok(param_value(params, name)),
        FieldValueView::Unsupported(kind) => Err(CompileErrorView::UnsupportedFieldValue { kind }),
    }
}

/// The conditions that an object literal states, field by field; the first
/// field whose value cannot be compared decides the error.
pub open spec fn object_clause(fields: Seq<FieldAdditionView>, params: JsonView) -> Result<
    ClauseView,
    CompileErrorView,
>
    decreases fields.len(),
{
    if fields.len() == 0 {
        Ok(Seq::empty())
    } else {
        match object_clause(fields.drop_last(), params) {
            Err(e) => Err(e),
            Ok(clause) => match field_value_of(fields.last().value, params) {
                Err(e) => Err(e),
                Ok(v) => Ok(clause.push(equality(fields.last().key, v))),
            },
        }
    }
}

/// The filter of an object literal: one conjunction, one equality per field.
pub open spec fn object_filter(fields: Seq<FieldAdditionView>, params: JsonView) -> Result<
    FilterTraversalView,
    CompileErrorView,
> {
    match object_clause(fields, params) {
        Err(e) => Err(e),
        Ok(clause) => Ok(FilterTraversalView::of_properties(seq![clause])),
    }
}

/// Resolves the value of a field of an object literal.
pub fn extract_field_value(fv: &FieldValue, params: &Json) -> (r: Result<Value, CompileError>)
    ensures
        result_view(r) == field_value_of(fv@, params@),
{
    match fv {
        FieldValue::Literal(v) => Ok(v.clone()),
        FieldValue::Expression(expr) => extract_value(expr, params),
        FieldValue::Identifier(name) => Ok(value_of_param(params, name)),
        FieldValue::Unsupported(kind) => Err(
            CompileError::UnsupportedFieldValue { kind: kind.clone() },
        ),
    }
}

/// A filter with the one conjunction given.
pub fn single_clause_filter(clause: Vec<FilterProperties>) -> (r: FilterTraversal)
    ensures
        r@ == FilterTraversalView::of_properties(seq![clause_view(clause@)]),
{
    let mut dnf: Vec<Vec<FilterProperties>> = Vec::new();
    dnf.push(clause);
    assert(dnf_view(dnf@) =~= seq![clause_view(clause@)]);
    FilterTraversal { properties: Some(dnf), filter_traversals: None }
}

/// Compiles an object literal such as `{age: 30}` to a filter of one
/// conjunction with one equality per field.
pub fn map_object_to_filter(fields: &Vec<FieldAddition>, params: &Json) -> (r: Result<
    FilterTraversal,
    CompileError,
>)
    ensures
        result_view(r) == object_filter(fields_view(fields@), params@),
{
    let ghost all = fields_view(fields@);
    let mut props: Vec<FilterProperties> = Vec::new();
    let mut i: usize = 0;
    assert(clause_view(props@) =~= Seq::empty());
    while i < fields.len()
        invariant
            i <= fields.len(),
            all == fields_view(fields@),
            object_clause(all.take(i as int), params@) == Ok::<ClauseView, CompileErrorView>(
                clause_view(props@),
            ),
        decreases fields.len() - i,
    {
        let ghost before = clause_view(props@);
        proof {
            assert(all.take(i + 1).drop_last() =~= all.take(i as int));
            assert(all.take(i + 1).last() == fields[i as int]@);
        }
        match extract_field_value(&fields[i].value, params) {
            Ok(value) => {
                props.push(
                    FilterProperties {
                        key: fields[i].key.clone(),
                        value,
                        operator: Some(Operator::Eq),
                    },
                );
                proof {
                    assert(clause_view(props@) =~= before.push(
                        equality(fields[i as int]@.key, value@),
                    ));
                }
            },
            Err(e) => {
                proof {
                    lemma_object_clause_error(all, params@, i + 1);
                }
                return Err(e);
            },
        }
        i += 1;
    }
    proof {
        assert(all.take(i as int) =~= all);
    }
    Ok(single_clause_filter(props))
}

/// Once a prefix of the fields fails, the whole literal fails the same way.
pub proof fn lemma_object_clause_error(fields: Seq<FieldAdditionView>, params: JsonView, n: int)
    requires
        0 <= n <= fields.len(),
        object_clause(fields.take(n), params) is Err,
    ensures
        object_clause(fields, params) == object_clause(fields.take(n), params),
    decreases fields.len() - n,
{
    if n < fields.len() {
        assert(fields.take(n + 1).drop_last() =~= fields.take(n));
        lemma_object_clause_error(fields, params, n + 1);
    } else {
        assert(fields.take(n) =~= fields);
    }
}

/// One conjunction joined to each conjunction of a disjunction.
pub open spec fn distribute(clause: ClauseView, dnf: DnfView) -> DnfView {
    Seq::new(dnf.len(), |j: int| clause + dnf[j])
}

/// The conjunction of two disjunctions of conjunctions: every pair of
/// conjunctions joined, the pairs of the first conjunction of `a` first.
pub open spec fn cross(a: DnfView, b: DnfView) -> DnfView
    decreases a.len(),
{
    if a.len() == 0 {
        Seq::empty()
    } else {
        cross(a.drop_last(), b) + distribute(a.last(), b)
    }
}

/// The disjunction that is true: one empty conjunction.
pub open spec fn dnf_true() -> DnfView {
    seq![Seq::empty()]
}

/// The conjunction of compiled filters, in order. The first filter that
/// failed decides the error; a filter of nested tools cannot be joined with
/// property conditions.
pub open spec fn conjoin(filters: Seq<Result<FilterTraversalView, CompileErrorView>>) -> Result<
    DnfView,
    CompileErrorView,
>
    decreases filters.len(),
{
    if filters.len() == 0 {
        Ok(dnf_true())
    } else {
        match conjoin(filters.drop_last()) {
            Err(e) => Err(e),
            Ok(acc) => match filters.last() {
                Err(e) => Err(e),
                Ok(f) => match f.properties {
                    Some(dnf) => Ok(cross(acc, dnf)),
                    None => Err(CompileErrorView::MixedFilter),
                },
            },
        }
    }
}

/// The disjunction of compiled filters, in order: their conjunctions one
/// list after the other.
pub open spec fn disjoin(filters: Seq<Result<FilterTraversalView, CompileErrorView>>) -> Result<
    DnfView,
    CompileErrorView,
>
    decreases filters.len(),
{
    if filters.len() == 0 {
        Ok(Seq::empty())
    } else {
        match disjoin(filters.drop_last()) {
            Err(e) => Err(e),
            Ok(acc) => match filters.last() {
                Err(e) => Err(e),
                Ok(f) => match f.properties {
                    Some(dnf) => Ok(acc + dnf),
                    None => Err(CompileErrorView::MixedFilter),
                },
            },
        }
    }
}

/// The tool of an edge walk inside a nested filter, wrapping the filter of
/// the steps that follow. Only the four edge walks have one.
pub open spec fn walk_tool(step: StepView, next: Option<FilterTraversalView>) -> Option<
    ToolArgsView,
> {
    match step {
        StepView::Out(label) => Some(
            ToolArgsView::OutStep { edge_label: label, edge_type: EdgeType::Node, filter: next },
        ),
        StepView::In(label) => Some(
            ToolArgsView::InStep { edge_label: label, edge_type: EdgeType::Node, filter: next },
        ),
        StepView::OutE(label) => Some(ToolArgsView::OutEStep { edge_label: label, filter: next }),
        StepView::InE(label) => Some(ToolArgsView::InEStep { edge_label: label, filter: next }),
        _ => None,
    }
}

/// Whether a step walks the graph.
pub open spec fn is_graph_step(step: StepView) -> bool {
    match step {
        StepView::Out(_) | StepView::In(_) | StepView::OutE(_) | StepView::InE(_) => true,
        StepView::FromN | StepView::ToN | StepView::SearchVector(_) => true,
        _ => false,
    }
}

/// The nested filter of a chain of edge walks: one tool per step, each
/// wrapping the next as its filter; `None` of no steps. A step that is no
/// graph step is refused where it stands; a graph step that is no edge walk
/// is refused once the steps after it have compiled.
pub open spec fn chain_filter(steps: Seq<StepView>) -> Result<
    Option<FilterTraversalView>,
    CompileErrorView,
>
    decreases steps.len(),
{
    if steps.len() == 0 {
        Ok(None)
    } else if !is_graph_step(steps[0]) {
        Err(CompileErrorView::UnsupportedFilterStep { kind: step_kind(steps[0]) })
    } else {
        match chain_filter(steps.skip(1)) {
            Err(e) => Err(e),
            Ok(next) => match walk_tool(steps[0], next) {
                Some(tool) => Ok(Some(FilterTraversalView::of_traversals(seq![tool]))),
                None => Err(CompileErrorView::UnsupportedFilterStep { kind: step_kind(steps[0]) }),
            },
        }
    }
}

/// The filter of a property comparison `_::{key}::OP(operand)`, where the
/// steps start with that shape: an object literal of one field, then a
/// boolean operation.
pub open spec fn comparison_filter(steps: Seq<StepView>, params: JsonView) -> Option<
    Result<FilterTraversalView, CompileErrorView>,
> {
    if steps.len() >= 2 {
        match (steps[0], steps[1]) {
            (StepView::Object(fields), StepView::BooleanOperation(op)) => if fields.len() == 1 {
                Some(
                    match op {
                        BooleanOpView::Compare { operator, operand } => match value_of(
                            *operand,
                            params,
                        ) {
                            Ok(value) => Ok(
                                FilterTraversalView::of_properties(
                                    seq![
                                        seq![
                                            FilterPropertiesView {
                                                key: fields[0].key,
                                                value,
                                                operator: Some(operator),
                                            },
                                        ],
                                    ],
                                ),
                            ),
                            Err(e) => Err(e),
                        },
                        BooleanOpView::Unsupported(kind) => Err(
                            CompileErrorView::UnsupportedOperator { kind },
                        ),
                    },
                )
            } else {
                None
            },
            _ => None,
        }
    } else {
        None
    }
}

/// The filter of a traversal inside `WHERE`: it must start at the anonymous
/// node and have steps; a property comparison gives one condition, any other
/// shape a chain of nested tools.
pub open spec fn traversal_filter(t: TraversalView, params: JsonView) -> Result<
    FilterTraversalView,
    CompileErrorView,
> {
    if !(t.start is Anonymous) {
        Err(CompileErrorView::WhereNotAnonymous)
    } else if t.steps.len() == 0 {
        Err(CompileErrorView::WhereTooShort)
    } else {
        match comparison_filter(t.steps, params) {
            Some(r) => r,
            None => match chain_filter(t.steps) {
                Err(e) => Err(e),
                Ok(Some(f)) => Ok(f),
                Ok(None) => Ok(FilterTraversalView { properties: None, filter_traversals: None }),
            },
        }
    }
}

/// The filters of a list of expressions, item by item.
pub open spec fn filters_of(exprs: Seq<ExpressionView>, params: JsonView) -> Seq<
    Result<FilterTraversalView, CompileErrorView>,
>
    decreases exprs,
{
    Seq::new(
        exprs.len(),
        |i: int|
            if 0 <= i < exprs.len() {
                filter_of(exprs[i], params)
            } else {
                arbitrary()
            },
    )
}

/// The filter of a `WHERE` clause.
///
/// A conjunction distributes over the disjunctions inside it; a disjunction
/// lists the conjunctions of its parts; a traversal gives a property
/// condition or a chain of nested tools. Any other expression is refused.
pub open spec fn filter_of(e: ExpressionView, params: JsonView) -> Result<
    FilterTraversalView,
    CompileErrorView,
>
    decreases e,
{
    match e {
        ExpressionView::And(exprs) => match conjoin(filters_of(exprs, params)) {
            Ok(dnf) => Ok(FilterTraversalView::of_properties(dnf)),
            Err(err) => Err(err),
        },
        ExpressionView::Or(exprs) => match disjoin(filters_of(exprs, params)) {
            Ok(dnf) => Ok(FilterTraversalView::of_properties(dnf)),
            Err(err) => Err(err),
        },
        ExpressionView::Traversal(t) => traversal_filter(*t, params),
        _ => Err(CompileErrorView::UnsupportedExpression { kind: expression_kind(e) }),
    }
}

/// The conjunction of two disjunctions has as many conjunctions as the two
/// counts multiplied.
pub proof fn lemma_cross_len(a: DnfView, b: DnfView)
    ensures
        cross(a, b).len() == a.len() * b.len(),
    decreases a.len(),
{
    if a.len() > 0 {
        lemma_cross_len(a.drop_last(), b);
        assert((a.len() - 1) * b.len() + b.len() == a.len() * b.len()) by (nonlinear_arith);
    } else {
        assert(0 * b.len() == 0) by (nonlinear_arith);
    }
}

/// The conjunction of two disjunctions holds, for the `i`-th conjunction of
/// the first and the `j`-th of the second, the two joined, at `i * b.len() + j`.
pub proof fn lemma_cross_index(a: DnfView, b: DnfView, i: int, j: int)
    requires
        0 <= i < a.len(),
        0 <= j < b.len(),
    ensures
        0 <= i * b.len() + j < cross(a, b).len(),
        cross(a, b)[i * b.len() + j] == a[i] + b[j],
    decreases a.len(),
{
    lemma_cross_len(a, b);
    lemma_cross_len(a.drop_last(), b);
    assert(0 <= i * b.len()) by (nonlinear_arith)
        requires
            0 <= i,
            0 <= b.len(),
    ;
    assert(i * b.len() + b.len() <= a.len() * b.len()) by (nonlinear_arith)
        requires
            0 <= i < a.len(),
            0 <= b.len(),
    ;
    if i < a.len() - 1 {
        lemma_cross_index(a.drop_last(), b, i, j);
    } else {
        assert((a.len() - 1) * b.len() == i * b.len());
    }
}

/// Once a prefix of the filters fails to join, the whole list fails the same way.
pub proof fn lemma_conjoin_error(
    filters: Seq<Result<FilterTraversalView, CompileErrorView>>,
    n: int,
)
    requires
        0 <= n <= filters.len(),
        conjoin(filters.take(n)) is Err,
    ensures
        conjoin(filters) == conjoin(filters.take(n)),
    decreases filters.len() - n,
{
    if n < filters.len() {
        assert(filters.take(n + 1).drop_last() =~= filters.take(n));
        lemma_conjoin_error(filters, n + 1);
    } else {
        assert(filters.take(n) =~= filters);
    }
}

/// Once a prefix of the filters fails to join, the whole list fails the same way.
pub proof fn lemma_disjoin_error(
    filters: Seq<Result<FilterTraversalView, CompileErrorView>>,
    n: int,
)
    requires
        0 <= n <= filters.len(),
        disjoin(filters.take(n)) is Err,
    ensures
        disjoin(filters) == disjoin(filters.take(n)),
    decreases filters.len() - n,
{
    if n < filters.len() {
        assert(filters.take(n + 1).drop_last() =~= filters.take(n));
        lemma_disjoin_error(filters, n + 1);
    } else {
        assert(filters.take(n) =~= filters);
    }
}

/// The conjunction of two disjunctions of conjunctions.
pub fn cross_product(a: &Vec<Vec<FilterProperties>>, b: &Vec<Vec<FilterProperties>>) -> (out: Vec<
    Vec<FilterProperties>,
>)
    ensures
        dnf_view(out@) == cross(dnf_view(a@), dnf_view(b@)),
{
    let ghost av = dnf_view(a@);
    let ghost bv = dnf_view(b@);
    let mut out: Vec<Vec<FilterProperties>> = Vec::new();
    let mut i: usize = 0;
    assert(dnf_view(out@) =~= cross(av.take(0), bv));
    while i < a.len()
        invariant
            i <= a.len(),
            av == dnf_view(a@),
            bv == dnf_view(b@),
            dnf_view(out@) == cross(av.take(i as int), bv),
        decreases a.len() - i,
    {
        let mut j: usize = 0;
        assert(dnf_view(out@) =~= cross(av.take(i as int), bv) + distribute(av[i as int], bv).take(
            0,
        ));
        while j < b.len()
            invariant
                i < a.len(),
                j <= b.len(),
                av == dnf_view(a@),
                bv == dnf_view(b@),
                dnf_view(out@) == cross(av.take(i as int), bv) + distribute(
                    av[i as int],
                    bv,
                ).take(j as int),
            decreases b.len() - j,
        {
            let ghost before = dnf_view(out@);
            let mut merged = clone_clause(&a[i]);
            let ghost left = clause_view(merged@);
            let mut extra = clone_clause(&b[j]);
            let ghost right = clause_view(extra@);
            merged.append(&mut extra);
            proof {
                assert(clause_view(merged@) =~= left + right);
                assert(left == av[i as int]);
                assert(right == bv[j as int]);
            }
            out.push(merged);
            proof {
                assert(dnf_view(out@) =~= before.push(av[i as int] + bv[j as int]));
                assert(distribute(av[i as int], bv).take(j + 1) =~= distribute(
                    av[i as int],
                    bv,
                ).take(j as int).push(av[i as int] + bv[j as int]));
                assert(dnf_view(out@) =~= cross(av.take(i as int), bv) + distribute(
                    av[i as int],
                    bv,
                ).take(j + 1));
            }
            j += 1;
        }
        proof {
            assert(distribute(av[i as int], bv).take(j as int) =~= distribute(av[i as int], bv));
            assert(av.take(i + 1).drop_last() =~= av.take(i as int));
            assert(av.take(i + 1).last() == av[i as int]);
        }
        i += 1;
    }
    proof {
        assert(av.take(i as int) =~= av);
    }
    out
}

/// The disjunction of the filters of `exprs`, in order.
pub fn disjunction_of(exprs: &Vec<Expression>, params: &Json) -> (r: Result<
    Vec<Vec<FilterProperties>>,
    CompileError,
>)
    ensures
        match r {
            Ok(dnf) => disjoin(filters_of(expressions_view(exprs@), params@)) == Ok::<
                DnfView,
                CompileErrorView,
            >(dnf_view(dnf@)),
            Err(e) => disjoin(filters_of(expressions_view(exprs@), params@)) == Err::<
                DnfView,
                CompileErrorView,
            >(e@),
        },
    decreases exprs,
{
    let ghost fs = filters_of(expressions_view(exprs@), params@);
    let mut combined: Vec<Vec<FilterProperties>> = Vec::new();
    let mut i: usize = 0;
    assert(dnf_view(combined@) =~= Seq::empty());
    while i < exprs.len()
        invariant
            i <= exprs.len(),
            fs == filters_of(expressions_view(exprs@), params@),
            disjoin(fs.take(i as int)) == Ok::<DnfView, CompileErrorView>(dnf_view(combined@)),
        decreases exprs.len() - i,
    {
        let ghost before = dnf_view(combined@);
        proof {
            assert(fs.take(i + 1).drop_last() =~= fs.take(i as int));
            assert(fs.take(i + 1).last() == filter_of(exprs[i as int]@, params@));
        }
        match map_expression_to_filter(&exprs[i], params) {
            Err(e) => {
                proof {
                    lemma_disjoin_error(fs, i + 1);
                }
                return Err(e);
            },
            Ok(sub) => match sub.properties {
                Some(mut dnf) => {
                    let ghost added = dnf_view(dnf@);
                    combined.append(&mut dnf);
                    proof {
                        assert(dnf_view(combined@) =~= before + added);
                    }
                },
                None => {
                    proof {
                        lemma_disjoin_error(fs, i + 1);
                    }
                    return Err(CompileError::MixedFilter);
                },
            },
        }
        i += 1;
    }
    proof {
        assert(fs.take(i as int) =~= fs);
    }
    Ok(combined)
}

/// The conjunction of the filters of `exprs`, in order.
pub fn conjunction_of(exprs: &Vec<Expression>, params: &Json) -> (r: Result<
    Vec<Vec<FilterProperties>>,
    CompileError,
>)
    ensures
        match r {
            Ok(dnf) => conjoin(filters_of(expressions_view(exprs@), params@)) == Ok::<
                DnfView,
                CompileErrorView,
            >(dnf_view(dnf@)),
            Err(e) => conjoin(filters_of(expressions_view(exprs@), params@)) == Err::<
                DnfView,
                CompileErrorView,
            >(e@),
        },
    decreases exprs,
{
    let ghost fs = filters_of(expressions_view(exprs@), params@);
    let mut combined: Vec<Vec<FilterProperties>> = Vec::new();
    combined.push(Vec::new());
    let mut i: usize = 0;
    proof {
        assert(clause_view(combined[0]@) =~= Seq::empty());
        assert(dnf_view(combined@) =~= dnf_true());
    }
    while i < exprs.len()
        invariant
            i <= exprs.len(),
            fs == filters_of(expressions_view(exprs@), params@),
            conjoin(fs.take(i as int)) == Ok::<DnfView, CompileErrorView>(dnf_view(combined@)),
        decreases exprs.len() - i,
    {
        proof {
            assert(fs.take(i + 1).drop_last() =~= fs.take(i as int));
            assert(fs.take(i + 1).last() == filter_of(exprs[i as int]@, params@));
        }
        match map_expression_to_filter(&exprs[i], params) {
            Err(e) => {
                proof {
                    lemma_conjoin_error(fs, i + 1);
                }
                return Err(e);
            },
            Ok(sub) => match &sub.properties {
                Some(dnf) => {
                    combined = cross_product(&combined, dnf);
                },
                None => {
                    proof {
                        lemma_conjoin_error(fs, i + 1);
                    }
                    return Err(CompileError::MixedFilter);
                },
            },
        }
        i += 1;
    }
    proof {
        assert(fs.take(i as int) =~= fs);
    }
    Ok(combined)
}

/// A filter with the one nested tool given.
pub fn single_tool_filter(tool: ToolArgs) -> (r: FilterTraversal)
    ensures
        r@ == FilterTraversalView::of_traversals(seq![tool@]),
{
    let mut tools: Vec<ToolArgs> = Vec::new();
    tools.push(tool);
    assert(tools_view(tools@) =~= seq![tool@]);
    FilterTraversal { properties: None, filter_traversals: Some(tools) }
}

/// The nested filter of the steps from `from` on.
pub fn chain_filter_from(steps: &Vec<Step>, from: usize) -> (r: Result<
    Option<FilterTraversal>,
    CompileError,
>)
    requires
        from <= steps.len(),
    ensures
        match r {
            Ok(f) => chain_filter(steps_view(steps@).skip(from as int)) == Ok::<
                Option<FilterTraversalView>,
                CompileErrorView,
            >(optional_filter_view(f)),
            Err(e) => chain_filter(steps_view(steps@).skip(from as int)) == Err::<
                Option<FilterTraversalView>,
                CompileErrorView,
            >(e@),
        },
    decreases steps.len() - from,
{
    let ghost rest = steps_view(steps@).skip(from as int);
    if from == steps.len() {
        return Ok(None);
    }
    proof {
        assert(rest[0] == steps[from as int]@);
        assert(rest.skip(1) =~= steps_view(steps@).skip(from + 1));
    }
    let step = &steps[from];
    match step {
        Step::Out(_) | Step::In(_) | Step::OutE(_) | Step::InE(_) | Step::FromN | Step::ToN | Step::SearchVector(
            _,
        ) => {},
        _ => {
            return Err(CompileError::UnsupportedFilterStep { kind: step_kind_name(step) });
        },
    }
    let next = match chain_filter_from(steps, from + 1) {
        Ok(f) => f,
        Err(e) => {
            return Err(e);
        },
    };
    let tool = match step {
        Step::Out(label) => ToolArgs::OutStep {
            edge_label: label.clone(),
            edge_type: EdgeType::Node,
            filter: next,
        },
        Step::In(label) => ToolArgs::InStep {
            edge_label: label.clone(),
            edge_type: EdgeType::Node,
            filter: next,
        },
        Step::OutE(label) => ToolArgs::OutEStep { edge_label: label.clone(), filter: next },
        Step::InE(label) => ToolArgs::InEStep { edge_label: label.clone(), filter: next },
        _ => {
            return Err(CompileError::UnsupportedFilterStep { kind: step_kind_name(step) });
        },
    };
    Ok(Some(single_tool_filter(tool)))
}

/// The filter of a property comparison, where the steps have that shape.
pub fn comparison_filter_of(steps: &Vec<Step>, params: &Json) -> (r: Option<
    Result<FilterTraversal, CompileError>,
>)
    ensures
        match r {
            Some(found) => comparison_filter(steps_view(steps@), params@) == Some(
                result_view(found),
            ),
            None => comparison_filter(steps_view(steps@), params@) is None,
        },
{
    if steps.len() < 2 {
        return None;
    }
    proof {
        assert(steps_view(steps@)[0] == steps[0]@);
        assert(steps_view(steps@)[1] == steps[1]@);
    }
    match (&steps[0], &steps[1]) {
        (Step::Object(fields), Step::BooleanOperation(op)) => {
            if fields.len() != 1 {
                return None;
            }
            proof {
                assert(fields_view(fields@)[0] == fields[0]@);
            }
            match op {
                BooleanOp::Compare { operator, operand } => match extract_value(operand, params) {
                    Ok(value) => {
                        let mut clause: Vec<FilterProperties> = Vec::new();
                        let condition = FilterProperties {
                            key: fields[0].key.clone(),
                            value,
                            operator: Some(*operator),
                        };
                        clause.push(condition);
                        proof {
                            assert(clause_view(clause@) =~= seq![condition@]);
                        }
                        Some(Ok(single_clause_filter(clause)))
                    },
                    Err(e) => Some(Err(e)),
                },
                BooleanOp::Unsupported(kind) => Some(
                    Err(CompileError::UnsupportedOperator { kind: kind.clone() }),
                ),
            }
        },
        _ => None,
    }
}

/// Compiles a `WHERE` clause to a filter: property conditions in disjunctive
/// normal form, or a chain of nested tools.
pub fn map_expression_to_filter(expr: &Expression, params: &Json) -> (r: Result<
    FilterTraversal,
    CompileError,
>)
    ensures
        result_view(r) == filter_of(expr@, params@),
    decreases expr,
{
    match expr {
        Expression::And(exprs) => match conjunction_of(exprs, params) {
            Ok(dnf) => Ok(FilterTraversal { properties: Some(dnf), filter_traversals: None }),
            Err(e) => Err(e),
        },
        Expression::Or(exprs) => match disjunction_of(exprs, params) {
            Ok(dnf) => Ok(FilterTraversal { properties: Some(dnf), filter_traversals: None }),
            Err(e) => Err(e),
        },
        Expression::Traversal(t) => {
            proof {
                assert(expr@ == ExpressionView::Traversal(Box::new(traversal_view(**t))));
                assert(traversal_view(**t).steps == steps_view(t.steps@));
                assert(steps_view(t.steps@).skip(0) =~= steps_view(t.steps@));
            }
            match &t.start {
                StartNode::Anonymous => {},
                _ => {
                    return Err(CompileError::WhereNotAnonymous);
                },
            }
            if t.steps.len() == 0 {
                return Err(CompileError::WhereTooShort);
            }
            match comparison_filter_of(&t.steps, params) {
                Some(found) => found,
                None => match chain_filter_from(&t.steps, 0) {
                    Err(e) => Err(e),
                    Ok(Some(f)) => Ok(f),
                    Ok(None) => Ok(FilterTraversal::default()),
                },
            }
        },
        _ => Err(CompileError::UnsupportedExpression { kind: expression_kind_name(expr) }),
    }
}

/// How many conjunctions a compiled filter has; none for a filter of nested
/// tools or a failure.
pub open spec fn clause_count(filter: Result<FilterTraversalView, CompileErrorView>) -> nat {
    match filter {
        Ok(f) => match f.properties {
            Some(dnf) => dnf.len(),
            None => 0,
        },
        Err(_) => 0,
    }
}

/// The clause counts of the filters multiplied.
pub open spec fn clause_count_product(
    filters: Seq<Result<FilterTraversalView, CompileErrorView>>,
) -> nat
    decreases filters.len(),
{
    if filters.len() == 0 {
        1
    } else {
        clause_count_product(filters.drop_last()) * clause_count(filters.last())
    }
}

/// The clause counts of the filters added up.
pub open spec fn clause_count_sum(filters: Seq<Result<FilterTraversalView, CompileErrorView>>) -> nat
    decreases filters.len(),
{
    if filters.len() == 0 {
        0
    } else {
        clause_count_sum(filters.drop_last()) + clause_count(filters.last())
    }
}

/// A conjunction that compiles has as many clauses as the clause counts of
/// its parts multiplied: the size of the cross product of its branches.
pub proof fn lemma_conjunction_clause_count(
    filters: Seq<Result<FilterTraversalView, CompileErrorView>>,
)
    requires
        conjoin(filters) is Ok,
    ensures
        conjoin(filters)->Ok_0.len() == clause_count_product(filters),
    decreases filters.len(),
{
    if filters.len() > 0 {
        lemma_conjunction_clause_count(filters.drop_last());
        let acc = conjoin(filters.drop_last())->Ok_0;
        let dnf = filters.last()->Ok_0.properties.unwrap();
        lemma_cross_len(acc, dnf);
    }
}

/// A disjunction that compiles has as many clauses as its parts have together.
pub proof fn lemma_disjunction_clause_count(
    filters: Seq<Result<FilterTraversalView, CompileErrorView>>,
)
    requires
        disjoin(filters) is Ok,
    ensures
        disjoin(filters)->Ok_0.len() == clause_count_sum(filters),
    decreases filters.len(),
{
    if filters.len() > 0 {
        lemma_disjunction_clause_count(filters.drop_last());
    }
}

/// Whether a filter is of one kind: property conditions or nested tools,
/// never both.
pub open spec fn is_one_kind(f: FilterTraversalView) -> bool {
    !(f.properties is Some && f.filter_traversals is Some)
}

/// A nested filter that compiles is one of nested tools alone.
pub proof fn lemma_chain_filter_kind(steps: Seq<StepView>)
    ensures
        match chain_filter(steps) {
            Ok(Some(f)) => f.properties is None && f.filter_traversals is Some,
            _ => true,
        },
    decreases steps.len(),
{
    if steps.len() > 0 && is_graph_step(steps[0]) {
        lemma_chain_filter_kind(steps.skip(1));
    }
}

/// A `WHERE` clause that compiles gives a filter of one kind: property
/// conditions or nested tools, never a mix of the two.
pub proof fn lemma_filter_is_one_kind(e: ExpressionView, params: JsonView)
    ensures
        match filter_of(e, params) {
            Ok(f) => is_one_kind(f),
            Err(_) => true,
        },
{
    match e {
        ExpressionView::Traversal(t) => {
            lemma_chain_filter_kind(t.steps);
        },
        _ => {},
    }
}

} // verus!
