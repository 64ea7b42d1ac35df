//! From a traversal to the tools of the remote pipeline.

use crate::ast::{
    fields_view, ids_view, optional_ids_view, optional_string_view, steps_view, BM25Search,
    BM25SearchView, EvaluatesToNumber, EvaluatesToString, EvaluatesToStringView, Expression,
    ExpressionView, IdType, IdTypeView, SearchVector, SearchVectorView, StartNode, StartNodeView,
    Step, StepView, Traversal, TraversalView, ValueType, ValueTypeView, VectorData, VectorDataView,
};
use crate::error::{CompileError, CompileErrorView};
use crate::filter_compiler::{
    equality, filter_of, map_expression_to_filter, map_object_to_filter, object_filter,
    single_clause_filter, walk_tool,
};
use crate::json::{get_spec, Json, JsonView};
use crate::read_only::{
    any_step_writes, find_writing_step, first_writing_step, lemma_first_writing_step, step_writes,
};
use crate::text::{clone_strings, strings_view, trim_matches_spec, trim_quotes};
use crate::tool_args::{
    clause_view, clone_optional_filter, tools_view, ClauseView, EdgeType, FilterProperties,
    FilterPropertiesView, FilterTraversalView, Operator, ToolArgs, ToolArgsView,
};
use crate::value::{Value, ValueView};
use crate::value_extractor::{
    extract_value, json_plain_text, plain_text_of_json, result_view, step_kind, step_kind_name,
    value_of,
};
use vstd::prelude::*;

verus! {

/// What a start node's identifiers come to: the identifiers to match on the
/// client, and the conditions of the indexed lookups.
pub struct IdFiltersView {
    pub ids: Seq<Seq<char>>,
    pub props: ClauseView,
}

/// The condition of an indexed lookup `{index: value}`: the index gives the
/// key (a name, or a literal without its quotation marks), the value a literal
/// or a name taken as a string. A lookup of any other shape gives none.
pub open spec fn index_condition(index: IdTypeView, value: ValueTypeView) -> Option<
    FilterPropertiesView,
> {
    let key = match index {
        IdTypeView::Identifier(name) => Some(name),
        IdTypeView::Literal(text) => Some(trim_matches_spec(text, '"')),
        IdTypeView::ByIndex { .. } => None,
    };
    let operand = match value {
        ValueTypeView::Literal(v) => Some(v),
        ValueTypeView::Identifier(name) => Some(ValueView::String(name)),
        ValueTypeView::Object => None,
    };
    match (key, operand) {
        (Some(k), Some(v)) => Some(equality(k, v)),
        _ => None,
    }
}

/// The identifiers and conditions of a start node. A literal gives its text
/// without quotation marks; a name gives the parameter of that name and must
/// have one; an indexed lookup gives a condition.
pub open spec fn id_filters(ids: Seq<IdTypeView>, params: JsonView) -> Result<
    IdFiltersView,
    CompileErrorView,
>
    decreases ids.len(),
{
    if ids.len() == 0 {
        Ok(IdFiltersView { ids: Seq::empty(), props: Seq::empty() })
    } else {
        match id_filters(ids.drop_last(), params) {
            Err(e) => Err(e),
            Ok(found) => match ids.last() {
                IdTypeView::Literal(text) => Ok(
                    IdFiltersView { ids: found.ids.push(trim_matches_spec(text, '"')), ..found },
                ),
                IdTypeView::Identifier(name) => match get_spec(params, name) {
                    Some(v) => Ok(IdFiltersView { ids: found.ids.push(json_plain_text(v)), ..found }),
                    None => Err(CompileErrorView::MissingParameter { name }),
                },
                IdTypeView::ByIndex { index, value } => match index_condition(*index, value) {
                    Some(p) => Ok(IdFiltersView { props: found.props.push(p), ..found }),
                    None => Ok(found),
                },
            },
        }
    }
}

/// Once a prefix of the identifiers fails, the whole list fails the same way.
pub proof fn lemma_id_filters_error(ids: Seq<IdTypeView>, params: JsonView, n: int)
    requires
        0 <= n <= ids.len(),
        id_filters(ids.take(n), params) is Err,
    ensures
        id_filters(ids, params) == id_filters(ids.take(n), params),
    decreases ids.len() - n,
{
    if n < ids.len() {
        assert(ids.take(n + 1).drop_last() =~= ids.take(n));
        lemma_id_filters_error(ids, params, n + 1);
    } else {
        assert(ids.take(n) =~= ids);
    }
}

/// The condition of an indexed lookup, if it has the supported shape.
pub fn index_condition_of(index: &IdType, value: &ValueType) -> (r: Option<FilterProperties>)
    ensures
        match r {
            Some(p) => index_condition(index@, value@) == Some(p@),
            None => index_condition(index@, value@) is None,
        },
{
    let key = match index {
        IdType::Identifier(name) => name.clone(),
        IdType::Literal(text) => trim_quotes(text.as_str()),
        IdType::ByIndex { .. } => {
            return None;
        },
    };
    let operand = match value {
        ValueType::Literal(v) => v.clone(),
        ValueType::Identifier(name) => Value::String(name.clone()),
        ValueType::Object => {
            return None;
        },
    };
    Some(FilterProperties { key, value: operand, operator: Some(Operator::Eq) })
}

/// Splits the identifiers of a start node into those to match on the client
/// and the property conditions of indexed lookups. A name must have a
/// parameter: a missing one is an error that names it.
pub fn extract_ids_and_props(ids: &Vec<IdType>, params: &Json) -> (r: Result<
    (Vec<String>, Vec<FilterProperties>),
    CompileError,
>)
    ensures
        match r {
            Ok((names, props)) => id_filters(ids_view(ids@), params@) == Ok::<
                IdFiltersView,
                CompileErrorView,
            >(IdFiltersView { ids: strings_view(names@), props: clause_view(props@) }),
            Err(e) => id_filters(ids_view(ids@), params@) == Err::<IdFiltersView, CompileErrorView>(
                e@,
            ),
        },
{
    let ghost all = ids_view(ids@);
    let mut names: Vec<String> = Vec::new();
    let mut props: Vec<FilterProperties> = Vec::new();
    let mut i: usize = 0;
    assert(clause_view(props@) =~= Seq::empty());
    assert(strings_view(names@) =~= Seq::empty());
    while i < ids.len()
        invariant
            i <= ids.len(),
            all == ids_view(ids@),
            id_filters(all.take(i as int), params@) == Ok::<IdFiltersView, CompileErrorView>(
                IdFiltersView { ids: strings_view(names@), props: clause_view(props@) },
            ),
        decreases ids.len() - i,
    {
        let ghost names_before = strings_view(names@);
        let ghost props_before = clause_view(props@);
        proof {
            assert(all.take(i + 1).drop_last() =~= all.take(i as int));
            assert(all.take(i + 1).last() == ids[i as int]@);
        }
        match &ids[i] {
            IdType::Literal(text) => {
                let name = trim_quotes(text.as_str());
                names.push(name);
                proof {
                    assert(strings_view(names@) =~= names_before.push(name@));
                }
            },
            IdType::Identifier(name) => {
                match params.get(name.as_str()) {
                    Some(v) => {
                        let text = plain_text_of_json(v);
                        names.push(text);
                        proof {
                            assert(strings_view(names@) =~= names_before.push(text@));
                        }
                    },
                    None => {
                        proof {
                            lemma_id_filters_error(all, params@, i + 1);
                        }
                        return Err(CompileError::MissingParameter { name: name.clone() });
                    },
                }
            },
            IdType::ByIndex { index, value } => {
                match index_condition_of(index, value) {
                    Some(p) => {
                        props.push(p);
                        proof {
                            assert(clause_view(props@) =~= props_before.push(p@));
                        }
                    },
                    None => {},
                }
            },
        }
        i += 1;
    }
    proof {
        assert(all.take(i as int) =~= all);
    }
    Ok((names, props))
}

/// How many results a search asks for: the integer written, or ten where
/// none, or something other than a 32-bit or 64-bit integer, is written.
pub open spec fn result_count(k: Option<EvaluatesToNumber>) -> usize {
    match k {
        Some(EvaluatesToNumber::I32(i)) => i as usize,
        Some(EvaluatesToNumber::I64(i)) => i as usize,
        _ => 10,
    }
}

/// How many results a search asks for.
pub fn result_count_of(k: &Option<EvaluatesToNumber>) -> (r: usize)
    ensures
        r == result_count(*k),
{
    match k {
        Some(EvaluatesToNumber::I32(i)) => #[verifier::truncate]
        (*i as usize),
        Some(EvaluatesToNumber::I64(i)) => #[verifier::truncate]
        (*i as usize),
        _ => 10,
    }
}

/// The text of an optional string, empty where there is none.
pub open spec fn text_or_empty(s: Option<Seq<char>>) -> Seq<char> {
    match s {
        Some(t) => t,
        None => Seq::empty(),
    }
}

/// A copy of an optional string, empty where there is none.
pub fn clone_or_empty(s: &Option<String>) -> (r: String)
    ensures
        r@ == text_or_empty(optional_string_view(*s)),
{
    match s {
        Some(t) => t.clone(),
        None => String::new(),
    }
}

/// The tool of a keyword search: its query, the label it searches under
/// (empty where none is written) and its limit. A search without a query is
/// refused.
pub open spec fn bm25_tool(b: BM25SearchView) -> Result<ToolArgsView, CompileErrorView> {
    match b.data {
        Some(query) => Ok(
            ToolArgsView::SearchKeyword {
                query,
                limit: result_count(b.k),
                label: text_or_empty(b.type_arg),
            },
        ),
        None => Err(CompileErrorView::MissingSearchQuery),
    }
}

/// Compiles a keyword search to its tool.
pub fn map_bm25_to_tool(bm25: &BM25Search) -> (r: Result<ToolArgs, CompileError>)
    ensures
        result_view(r) == bm25_tool(bm25@),
{
    let label = clone_or_empty(&bm25.type_arg);
    let query = match &bm25.data {
        Some(text) => text.clone(),
        None => {
            return Err(CompileError::MissingSearchQuery);
        },
    };
    let limit = result_count_of(&bm25.k);
    Ok(ToolArgs::SearchKeyword { query, limit, label })
}

/// The text to embed: a literal as it is, a name as the parameter of that
/// name, or as itself where there is none.
pub open spec fn embed_text(e: EvaluatesToStringView, params: JsonView) -> Seq<char> {
    match e {
        EvaluatesToStringView::StringLiteral(s) => s,
        EvaluatesToStringView::Identifier(name) => match get_spec(params, name) {
            Some(v) => json_plain_text(v),
            None => name,
        },
    }
}

/// The tool of a vector search: by the vector given, or by the text to embed.
/// A search that names a variable, or nothing, is refused.
pub open spec fn vector_tool(sv: SearchVectorView, params: JsonView) -> Result<
    ToolArgsView,
    CompileErrorView,
> {
    match sv.data {
        Some(VectorDataView::Vector(vector)) => Ok(
            ToolArgsView::SearchVec {
                vector,
                k: result_count(sv.k),
                min_score: None,
                cutoff: None,
            },
        ),
        Some(VectorDataView::Embed(e)) => Ok(
            ToolArgsView::SearchVecText {
                query: embed_text(e, params),
                label: text_or_empty(sv.vector_type),
                k: result_count(sv.k),
            },
        ),
        _ => Err(CompileErrorView::UnsupportedVectorData),
    }
}

/// Compiles a vector search to its tool.
pub fn map_search_vector_to_tool(sv: &SearchVector, params: &Json) -> (r: Result<
    ToolArgs,
    CompileError,
>)
    ensures
        result_view(r) == vector_tool(sv@, params@),
{
    let label = clone_or_empty(&sv.vector_type);
    let k = result_count_of(&sv.k);
    match &sv.data {
        Some(VectorData::Vector(v)) => Ok(
            ToolArgs::SearchVec { vector: clone_strings(v), k, min_score: None, cutoff: None },
        ),
        Some(VectorData::Embed(e)) => {
            let query = match e {
                EvaluatesToString::StringLiteral(s) => s.clone(),
                EvaluatesToString::Identifier(name) => match params.get(name.as_str()) {
                    Some(v) => plain_text_of_json(v),
                    None => name.clone(),
                },
            };
            Ok(ToolArgs::SearchVecText { query, label, k })
        },
        _ => Err(CompileError::UnsupportedVectorData),
    }
}

/// What ends a pipeline: the one terminal action of a compiled traversal.
#[derive(Debug, PartialEq)]
pub enum FinalAction {
    /// Collect the items, all of them or those from `start` up to `end`.
    Collect { range: Option<(usize, Option<usize>)> },
    Count,
    Aggregate { properties: Vec<String> },
    GroupBy { properties: Vec<String> },
}

/// The mathematical value of a [`FinalAction`].
pub enum FinalActionView {
    Collect { range: Option<(usize, Option<usize>)> },
    Count,
    Aggregate { properties: Seq<Seq<char>> },
    GroupBy { properties: Seq<Seq<char>> },
}

impl View for FinalAction {
    type V = FinalActionView;

    open spec fn view(&self) -> FinalActionView {
        match *self {
            FinalAction::Collect { range } => FinalActionView::Collect { range },
            FinalAction::Count => FinalActionView::Count,
            FinalAction::Aggregate { properties } => FinalActionView::Aggregate {
                properties: strings_view(properties@),
            },
            FinalAction::GroupBy { properties } => FinalActionView::GroupBy {
                properties: strings_view(properties@),
            },
        }
    }
}

impl Clone for FinalAction {
    fn clone(&self) -> (r: Self)
        ensures
            r@ == self@,
    {
        match self {
            FinalAction::Collect { range } => FinalAction::Collect { range: *range },
            FinalAction::Count => FinalAction::Count,
            FinalAction::Aggregate { properties } => FinalAction::Aggregate {
                properties: clone_strings(properties),
            },
            FinalAction::GroupBy { properties } => FinalAction::GroupBy {
                properties: clone_strings(properties),
            },
        }
    }
}

/// The node step that an edge step becomes when `FromN` or `ToN` follows it.
pub open spec fn node_step(tool: ToolArgsView) -> ToolArgsView {
    match tool {
        ToolArgsView::OutEStep { edge_label, filter } => ToolArgsView::OutStep {
            edge_label,
            edge_type: EdgeType::Node,
            filter,
        },
        ToolArgsView::InEStep { edge_label, filter } => ToolArgsView::InStep {
            edge_label,
            edge_type: EdgeType::Node,
            filter,
        },
        _ => tool,
    }
}

/// Whether a tool is an edge step (`OutE` or `InE`).
pub open spec fn is_edge_step(tool: ToolArgsView) -> bool {
    tool is OutEStep || tool is InEStep
}

/// The tools after `FromN` or `ToN`: the nearest edge step before, with
/// nothing but item filters in between, becomes its node step. `None` where
/// there is no such edge step.
pub open spec fn fuse(tools: Seq<ToolArgsView>) -> Option<Seq<ToolArgsView>>
    decreases tools.len(),
{
    if tools.len() == 0 {
        None
    } else if is_edge_step(tools.last()) {
        Some(tools.drop_last().push(node_step(tools.last())))
    } else if tools.last() is FilterItems {
        match fuse(tools.drop_last()) {
            Some(fused) => Some(fused.push(tools.last())),
            None => None,
        }
    } else {
        None
    }
}

/// Where the fusion lands: the position of the last tool that is no item
/// filter, if that tool is an edge step.
pub open spec fn fusible_at(tools: Seq<ToolArgsView>, k: int) -> bool {
    &&& 0 <= k < tools.len()
    &&& is_edge_step(tools[k])
    &&& forall|j: int| k < j < tools.len() ==> tools[j] is FilterItems
}

/// Fusion rewrites exactly one tool: the edge step at the position where the
/// fusion lands becomes its node step, and every other tool stays. Where
/// there is no such position, there is no fusion.
pub proof fn lemma_fuse(tools: Seq<ToolArgsView>)
    ensures
        match fuse(tools) {
            Some(fused) => exists|k: int|
                fusible_at(tools, k) && fused == tools.update(k, node_step(tools[k])),
            None => forall|k: int| !fusible_at(tools, k),
        },
    decreases tools.len(),
{
    if tools.len() == 0 {
    } else if is_edge_step(tools.last()) {
        let k = tools.len() - 1;
        assert(fusible_at(tools, k));
        assert(tools.drop_last().push(node_step(tools.last())) =~= tools.update(
            k,
            node_step(tools[k]),
        ));
    } else if tools.last() is FilterItems {
        let rest = tools.drop_last();
        lemma_fuse(rest);
        match fuse(rest) {
            Some(fused) => {
                let k = choose|k: int|
                    fusible_at(rest, k) && fused == rest.update(k, node_step(rest[k]));
                assert(rest[k] == tools[k]);
                assert forall|j: int| k < j < tools.len() implies tools[j] is FilterItems by {
                    if j < tools.len() - 1 {
                        assert(rest[j] == tools[j]);
                    }
                }
                assert(fusible_at(tools, k));
                assert(fused.push(tools.last()) =~= tools.update(k, node_step(tools[k])));
            },
            None => {
                assert forall|k: int| !fusible_at(tools, k) by {
                    if fusible_at(tools, k) {
                        assert(k < tools.len() - 1);
                        assert(rest[k] == tools[k]);
                        assert forall|j: int| k < j < rest.len() implies rest[j] is FilterItems by {
                            assert(rest[j] == tools[j]);
                        }
                        assert(fusible_at(rest, k));
                    }
                }
            },
        }
    } else {
        assert forall|k: int| !fusible_at(tools, k) by {
            if fusible_at(tools, k) {
                assert(k < tools.len() - 1);
            }
        }
    }
}

/// Fusion looks past the item filters at the end.
pub proof fn lemma_fuse_past_filters(tools: Seq<ToolArgsView>, n: int)
    requires
        0 <= n <= tools.len(),
        forall|j: int| n <= j < tools.len() ==> tools[j] is FilterItems,
    ensures
        fuse(tools) == match fuse(tools.take(n)) {
            Some(fused) => Some(fused + tools.skip(n)),
            None => None,
        },
    decreases tools.len() - n,
{
    if n == tools.len() {
        assert(tools.take(n) =~= tools);
        match fuse(tools) {
            Some(fused) => {
                assert(fused + tools.skip(n) =~= fused);
            },
            None => {},
        }
    } else {
        let rest = tools.drop_last();
        lemma_fuse_past_filters(rest, n);
        assert(rest.take(n) =~= tools.take(n));
        match fuse(tools.take(n)) {
            Some(fused) => {
                assert((fused + rest.skip(n)).push(tools.last()) =~= fused + tools.skip(n));
            },
            None => {},
        }
    }
}

/// Appends a tool.
pub fn push_tool(tools: &mut Vec<ToolArgs>, tool: ToolArgs)
    ensures
        tools_view(final(tools)@) == tools_view(old(tools)@).push(tool@),
{
    tools.push(tool);
    assert(tools_view(tools@) =~= tools_view(old(tools)@).push(tool@));
}

/// Turns the nearest edge step into its node step, looking back past item
/// filters; tells whether there was one. Without one the tools stay as they are.
pub fn fuse_edge_step(tools: &mut Vec<ToolArgs>) -> (found: bool)
    ensures
        match fuse(tools_view(old(tools)@)) {
            Some(fused) => found && tools_view(final(tools)@) == fused,
            None => !found && tools_view(final(tools)@) == tools_view(old(tools)@),
        },
{
    let ghost all = tools_view(tools@);
    let mut idx: usize = tools.len();
    while idx > 0
        invariant
            idx <= tools.len(),
            *tools == *old(tools),
            all == tools_view(tools@),
            forall|j: int| idx <= j < tools.len() ==> all[j] is FilterItems,
        decreases idx,
    {
        idx -= 1;
        let replacement = match &tools[idx] {
            ToolArgs::OutEStep { edge_label, filter } => ToolArgs::OutStep {
                edge_label: edge_label.clone(),
                edge_type: EdgeType::Node,
                filter: clone_optional_filter(filter),
            },
            ToolArgs::InEStep { edge_label, filter } => ToolArgs::InStep {
                edge_label: edge_label.clone(),
                edge_type: EdgeType::Node,
                filter: clone_optional_filter(filter),
            },
            ToolArgs::FilterItems { .. } => {
                continue ;
            },
            _ => {
                proof {
                    lemma_fuse_past_filters(all, idx + 1);
                    assert(all.take(idx + 1).last() == all[idx as int]);
                }
                return false;
            },
        };
        proof {
            lemma_fuse_past_filters(all, idx + 1);
            let head = all.take(idx + 1);
            assert(head.last() == all[idx as int]);
            assert(replacement@ == node_step(all[idx as int]));
            assert(head.drop_last().push(replacement@) + all.skip(idx + 1) =~= all.update(
                idx as int,
                replacement@,
            ));
        }
        tools.set(idx, replacement);
        proof {
            assert(tools_view(tools@) =~= all.update(idx as int, replacement@));
        }
        return true;
    }
    proof {
        lemma_fuse_past_filters(all, 0);
        assert(all.take(0) =~= Seq::empty());
    }
    false
}

/// The property named by a traversal that is a single property access
/// `_::{key}`.
pub open spec fn simple_property(t: TraversalView) -> Result<Seq<char>, CompileErrorView> {
    if t.steps.len() == 1 {
        match t.steps[0] {
            StepView::Object(fields) => if fields.len() == 1 {
                Ok(fields[0].key)
            } else {
                Err(CompileErrorView::PropertyAccessNotSimple)
            },
            _ => Err(CompileErrorView::PropertyAccessNotSimple),
        }
    } else {
        Err(CompileErrorView::PropertyAccessNotSimple)
    }
}

/// The property that an ordering sorts by: a name, or the property of a
/// single property access.
pub open spec fn order_property(e: ExpressionView) -> Result<Seq<char>, CompileErrorView> {
    match e {
        ExpressionView::Identifier(name) => Ok(name),
        ExpressionView::Traversal(t) => simple_property(*t),
        _ => Err(CompileErrorView::OrderByNotSimple),
    }
}

/// Where a range starts: the integer given, or zero for any other value.
pub open spec fn range_start(v: ValueView) -> usize {
    match v {
        ValueView::I32(i) => i as usize,
        ValueView::I64(i) => i as usize,
        _ => 0,
    }
}

/// Where a range ends: the integer given, or nowhere for any other value.
pub open spec fn range_end(v: ValueView) -> Option<usize> {
    match v {
        ValueView::I32(i) => Some(i as usize),
        ValueView::I64(i) => Some(i as usize),
        _ => None,
    }
}

/// The terminal action of a `RANGE(start, end)` step.
pub open spec fn range_action(start: ExpressionView, end: ExpressionView, params: JsonView) -> Result<
    FinalActionView,
    CompileErrorView,
> {
    match value_of(start, params) {
        Err(e) => Err(e),
        Ok(from) => match value_of(end, params) {
            Err(e) => Err(e),
            Ok(to) => Ok(
                FinalActionView::Collect { range: Some((range_start(from), range_end(to))) },
            ),
        },
    }
}

/// The tools emitted so far and the terminal action set so far.
pub struct CompileState {
    pub tools: Seq<ToolArgsView>,
    pub action: FinalActionView,
}

/// The state with one more tool.
pub open spec fn with_tool(state: CompileState, tool: ToolArgsView) -> CompileState {
    CompileState { tools: state.tools.push(tool), ..state }
}

/// The state with its terminal action replaced.
pub open spec fn with_action(state: CompileState, action: FinalActionView) -> CompileState {
    CompileState { action, ..state }
}

/// What one step does to the state.
///
/// An edge walk, a search, a `WHERE`, an ordering and an object literal each
/// emit one tool. `FromN` and `ToN` fuse into the nearest edge step before
/// them. `RANGE`, `FIRST`, `COUNT`, `AGGREGATE_BY` and `GROUP_BY` replace the
/// terminal action. A step that writes is refused as such, and any other step
/// as unsupported, each with its index and kind.
pub open spec fn apply_step(state: CompileState, step: StepView, index: int, params: JsonView) -> Result<
    CompileState,
    CompileErrorView,
> {
    match step {
        StepView::Out(_) | StepView::In(_) | StepView::OutE(_) | StepView::InE(_) => Ok(
            with_tool(state, walk_tool(step, None).unwrap()),
        ),
        StepView::SearchVector(sv) => match vector_tool(sv, params) {
            Ok(tool) => Ok(with_tool(state, tool)),
            Err(e) => Err(e),
        },
        StepView::FromN | StepView::ToN => match fuse(state.tools) {
            Some(fused) => Ok(CompileState { tools: fused, ..state }),
            None => Err(CompileErrorView::MissingEdgeStep),
        },
        StepView::Where(e) => match filter_of(*e, params) {
            Ok(filter) => Ok(with_tool(state, ToolArgsView::FilterItems { filter })),
            Err(e) => Err(e),
        },
        StepView::OrderBy { order, expression } => match order_property(*expression) {
            Ok(properties) => Ok(with_tool(state, ToolArgsView::OrderBy { properties, order })),
            Err(e) => Err(e),
        },
        StepView::Count => Ok(with_action(state, FinalActionView::Count)),
        StepView::Aggregate(properties) => Ok(
            with_action(state, FinalActionView::Aggregate { properties }),
        ),
        StepView::GroupBy(properties) => Ok(
            with_action(state, FinalActionView::GroupBy { properties }),
        ),
        StepView::Range(start, end) => match range_action(start, end, params) {
            Ok(action) => Ok(with_action(state, action)),
            Err(e) => Err(e),
        },
        StepView::First => Ok(
            with_action(state, FinalActionView::Collect { range: Some((0usize, Some(1usize))) }),
        ),
        StepView::Object(fields) => match object_filter(fields, params) {
            Ok(filter) => Ok(with_tool(state, ToolArgsView::FilterItems { filter })),
            Err(e) => Err(e),
        },
        StepView::Write(kind) => Err(CompileErrorView::ReadOnly { index: index as usize, kind }),
        StepView::BooleanOperation(_) | StepView::Unsupported(_) => Err(
            CompileErrorView::UnsupportedStep { index: index as usize, kind: step_kind(step) },
        ),
    }
}

/// The state after all the steps, in order; the first step that fails decides
/// the error.
pub open spec fn compile_steps(initial: CompileState, steps: Seq<StepView>, params: JsonView) -> Result<
    CompileState,
    CompileErrorView,
>
    decreases steps.len(),
{
    if steps.len() == 0 {
        Ok(initial)
    } else {
        match compile_steps(initial, steps.drop_last(), params) {
            Err(e) => Err(e),
            Ok(state) => apply_step(state, steps.last(), steps.len() - 1, params),
        }
    }
}

/// Once a prefix of the steps fails, the whole list fails the same way.
pub proof fn lemma_compile_steps_error(
    initial: CompileState,
    steps: Seq<StepView>,
    params: JsonView,
    n: int,
)
    requires
        0 <= n <= steps.len(),
        compile_steps(initial, steps.take(n), params) is Err,
    ensures
        compile_steps(initial, steps, params) == compile_steps(initial, steps.take(n), params),
    decreases steps.len() - n,
{
    if n < steps.len() {
        assert(steps.take(n + 1).drop_last() =~= steps.take(n));
        lemma_compile_steps_error(initial, steps, params, n + 1);
    } else {
        assert(steps.take(n) =~= steps);
    }
}

/// What a start node gives: its tools, and the identifiers to match on the
/// client.
pub struct StartView {
    pub tools: Seq<ToolArgsView>,
    pub ids: Seq<Seq<char>>,
}

/// A scan of a type with the identifiers written after it: the scan, then an
/// item filter for the indexed lookups where there are any; identifiers given
/// literally or by parameter are handed back and never sent.
pub open spec fn scan_start(scan: ToolArgsView, ids: Option<Seq<IdTypeView>>, params: JsonView) -> Result<
    StartView,
    CompileErrorView,
> {
    match ids {
        None => Ok(StartView { tools: seq![scan], ids: Seq::empty() }),
        Some(list) => match id_filters(list, params) {
            Err(e) => Err(e),
            Ok(found) => Ok(
                StartView {
                    tools: if found.props.len() > 0 {
                        seq![
                            scan,
                            ToolArgsView::FilterItems {
                                filter: FilterTraversalView::of_properties(seq![found.props]),
                            },
                        ]
                    } else {
                        seq![scan]
                    },
                    ids: found.ids,
                },
            ),
        },
    }
}

/// What the start node of a traversal gives. A node or a vector type scans
/// nodes of that type, an edge type scans edges; a vector search is its own
/// tool; the anonymous node gives nothing.
pub open spec fn start_tools(start: StartNodeView, params: JsonView) -> Result<
    StartView,
    CompileErrorView,
> {
    match start {
        StartNodeView::Node { node_type, ids } => scan_start(
            ToolArgsView::NFromType { node_type },
            ids,
            params,
        ),
        StartNodeView::Edge { edge_type, ids } => scan_start(
            ToolArgsView::EFromType { edge_type },
            ids,
            params,
        ),
        StartNodeView::Vector { vector_type, ids } => scan_start(
            ToolArgsView::NFromType { node_type: vector_type },
            ids,
            params,
        ),
        StartNodeView::SearchVector(sv) => match vector_tool(sv, params) {
            Ok(tool) => Ok(StartView { tools: seq![tool], ids: Seq::empty() }),
            Err(e) => Err(e),
        },
        StartNodeView::Identifier(_) | StartNodeView::Anonymous => Ok(
            StartView { tools: Seq::empty(), ids: Seq::empty() },
        ),
    }
}

/// A compiled traversal: the tools in order, the terminal action, and the
/// identifiers that the client matches by itself.
pub struct CompiledView {
    pub tools: Seq<ToolArgsView>,
    pub action: FinalActionView,
    pub ids: Seq<Seq<char>>,
}

/// What a traversal compiles to.
///
/// A traversal that writes, in a step or at any depth inside one, is refused
/// as read-only for its first such step, whatever else is wrong with it. Any
/// other traversal compiles to the tools of its start node, then what its
/// steps emit in order.
pub open spec fn compile(t: TraversalView, params: JsonView) -> Result<
    CompiledView,
    CompileErrorView,
> {
    match first_writing_step(t.steps) {
        Some(i) => Err(
            CompileErrorView::ReadOnly { index: i as usize, kind: step_kind(t.steps[i]) },
        ),
        None => compile_tools(t, params),
    }
}

/// What a traversal that only reads compiles to: the tools of its start
/// node, then what its steps emit in order; the terminal action is that of the
/// last step that sets one, and collecting everything where none does.
pub open spec fn compile_tools(t: TraversalView, params: JsonView) -> Result<
    CompiledView,
    CompileErrorView,
> {
    match start_tools(t.start, params) {
        Err(e) => Err(e),
        Ok(start) => match compile_steps(
            CompileState { tools: start.tools, action: FinalActionView::Collect { range: None } },
            t.steps,
            params,
        ) {
            Err(e) => Err(e),
            Ok(state) => Ok(
                CompiledView { tools: state.tools, action: state.action, ids: start.ids },
            ),
        },
    }
}

/// The property named by a traversal that is a single property access.
pub fn extract_property_from_traversal(traversal: &Traversal) -> (r: Result<String, CompileError>)
    ensures
        result_view(r) == simple_property(traversal@),
{
    proof {
        assert(traversal@.steps == steps_view(traversal.steps@));
    }
    if traversal.steps.len() == 1 {
        proof {
            assert(steps_view(traversal.steps@)[0] == traversal.steps[0]@);
        }
        match &traversal.steps[0] {
            Step::Object(fields) => {
                if fields.len() == 1 {
                    proof {
                        assert(fields_view(fields@)[0] == fields[0]@);
                    }
                    return Ok(fields[0].key.clone());
                }
            },
            _ => {},
        }
    }
    Err(CompileError::PropertyAccessNotSimple)
}

/// Where a range starts.
pub fn range_start_of(v: &Value) -> (r: usize)
    ensures
        r == range_start(v@),
{
    match v {
        Value::I32(i) => #[verifier::truncate]
        (*i as usize),
        Value::I64(i) => #[verifier::truncate]
        (*i as usize),
        _ => 0,
    }
}

/// Where a range ends.
pub fn range_end_of(v: &Value) -> (r: Option<usize>)
    ensures
        r == range_end(v@),
{
    match v {
        Value::I32(i) => Some(
            #[verifier::truncate]
            (*i as usize),
        ),
        Value::I64(i) => Some(
            #[verifier::truncate]
            (*i as usize),
        ),
        _ => None,
    }
}

/// The tools of a scan with the identifiers written after it.
pub fn scan_start_of(scan: ToolArgs, ids: &Option<Vec<IdType>>, params: &Json) -> (r: Result<
    (Vec<ToolArgs>, Vec<String>),
    CompileError,
>)
    ensures
        match r {
            Ok((tools, names)) => scan_start(scan@, optional_ids_view(*ids), params@)
                == Ok::<StartView, CompileErrorView>(
                StartView { tools: tools_view(tools@), ids: strings_view(names@) },
            ),
            Err(e) => scan_start(scan@, optional_ids_view(*ids), params@) == Err::<
                StartView,
                CompileErrorView,
            >(e@),
        },
{
    let mut tools: Vec<ToolArgs> = Vec::new();
    assert(tools_view(tools@) =~= Seq::empty());
    push_tool(&mut tools, scan);
    assert(tools_view(tools@) =~= seq![scan@]);
    match ids {
        None => {
            let names: Vec<String> = Vec::new();
            assert(strings_view(names@) =~= Seq::empty());
            Ok((tools, names))
        },
        Some(list) => match extract_ids_and_props(list, params) {
            Err(e) => Err(e),
            Ok((names, props)) => {
                if props.len() > 0 {
                    let filter = single_clause_filter(props);
                    push_tool(&mut tools, ToolArgs::FilterItems { filter });
                    assert(tools_view(tools@) =~= seq![
                        scan@,
                        ToolArgsView::FilterItems { filter: filter@ },
                    ]);
                }
                Ok((tools, names))
            },
        },
    }
}

/// The tools of the start node of a traversal.
pub fn start_tools_of(start: &StartNode, params: &Json) -> (r: Result<
    (Vec<ToolArgs>, Vec<String>),
    CompileError,
>)
    ensures
        match r {
            Ok((tools, names)) => start_tools(start@, params@) == Ok::<
                StartView,
                CompileErrorView,
            >(StartView { tools: tools_view(tools@), ids: strings_view(names@) }),
            Err(e) => start_tools(start@, params@) == Err::<StartView, CompileErrorView>(e@),
        },
{
    match start {
        StartNode::Node { node_type, ids } => scan_start_of(
            ToolArgs::NFromType { node_type: node_type.clone() },
            ids,
            params,
        ),
        StartNode::Edge { edge_type, ids } => scan_start_of(
            ToolArgs::EFromType { edge_type: edge_type.clone() },
            ids,
            params,
        ),
        StartNode::Vector { vector_type, ids } => scan_start_of(
            ToolArgs::NFromType { node_type: vector_type.clone() },
            ids,
            params,
        ),
        StartNode::SearchVector(sv) => match map_search_vector_to_tool(sv, params) {
            Ok(tool) => {
                let mut tools: Vec<ToolArgs> = Vec::new();
                let names: Vec<String> = Vec::new();
                tools.push(tool);
                assert(tools_view(tools@) =~= seq![tool@]);
                assert(strings_view(names@) =~= Seq::empty());
                Ok((tools, names))
            },
            Err(e) => Err(e),
        },
        StartNode::Identifier(_) | StartNode::Anonymous => {
            let tools: Vec<ToolArgs> = Vec::new();
            let names: Vec<String> = Vec::new();
            assert(tools_view(tools@) =~= Seq::empty());
            assert(strings_view(names@) =~= Seq::empty());
            Ok((tools, names))
        },
    }
}

/// Applies one step to the tools and the terminal action.
pub fn apply_step_to(
    tools: &mut Vec<ToolArgs>,
    action: &mut FinalAction,
    step: &Step,
    index: usize,
    params: &Json,
) -> (r: Result<(), CompileError>)
    ensures
        match r {
            Ok(()) => apply_step(
                CompileState { tools: tools_view(old(tools)@), action: old(action)@ },
                step@,
                index as int,
                params@,
            ) == Ok::<CompileState, CompileErrorView>(
                CompileState { tools: tools_view(final(tools)@), action: final(action)@ },
            ),
            Err(e) => apply_step(
                CompileState { tools: tools_view(old(tools)@), action: old(action)@ },
                step@,
                index as int,
                params@,
            ) == Err::<CompileState, CompileErrorView>(e@),
        },
{
    match step {
        Step::Out(label) => {
            push_tool(
                tools,
                ToolArgs::OutStep {
                    edge_label: label.clone(),
                    edge_type: EdgeType::Node,
                    filter: None,
                },
            );
        },
        Step::In(label) => {
            push_tool(
                tools,
                ToolArgs::InStep {
                    edge_label: label.clone(),
                    edge_type: EdgeType::Node,
                    filter: None,
                },
            );
        },
        Step::OutE(label) => {
            push_tool(tools, ToolArgs::OutEStep { edge_label: label.clone(), filter: None });
        },
        Step::InE(label) => {
            push_tool(tools, ToolArgs::InEStep { edge_label: label.clone(), filter: None });
        },
        Step::SearchVector(sv) => match map_search_vector_to_tool(sv, params) {
            Ok(tool) => {
                push_tool(tools, tool);
            },
            Err(e) => {
                return Err(e);
            },
        },
        Step::FromN | Step::ToN => {
            if !fuse_edge_step(tools) {
                return Err(CompileError::MissingEdgeStep);
            }
        },
        Step::Where(expr) => match map_expression_to_filter(expr, params) {
            Ok(filter) => {
                push_tool(tools, ToolArgs::FilterItems { filter });
            },
            Err(e) => {
                return Err(e);
            },
        },
        Step::OrderBy { order, expression } => {
            let found = match &**expression {
                Expression::Identifier(name) => Ok(name.clone()),
                Expression::Traversal(t) => extract_property_from_traversal(t),
                _ => Err(CompileError::OrderByNotSimple),
            };
            match found {
                Ok(properties) => {
                    push_tool(tools, ToolArgs::OrderBy { properties, order: *order });
                },
                Err(e) => {
                    return Err(e);
                },
            }
        },
        Step::Count => {
            *action = FinalAction::Count;
        },
        Step::Aggregate(properties) => {
            *action = FinalAction::Aggregate { properties: clone_strings(properties) };
        },
        Step::GroupBy(properties) => {
            *action = FinalAction::GroupBy { properties: clone_strings(properties) };
        },
        Step::Range(start, end) => {
            let from = match extract_value(start, params) {
                Ok(v) => range_start_of(&v),
                Err(e) => {
                    return Err(e);
                },
            };
            let to = match extract_value(end, params) {
                Ok(v) => range_end_of(&v),
                Err(e) => {
                    return Err(e);
                },
            };
            *action = FinalAction::Collect { range: Some((from, to)) };
        },
        Step::First => {
            *action = FinalAction::Collect { range: Some((0, Some(1))) };
        },
        Step::Object(fields) => match map_object_to_filter(fields, params) {
            Ok(filter) => {
                push_tool(tools, ToolArgs::FilterItems { filter });
            },
            Err(e) => {
                return Err(e);
            },
        },
        Step::Write(kind) => {
            return Err(CompileError::ReadOnly { index, kind: kind.clone() });
        },
        Step::BooleanOperation(_) | Step::Unsupported(_) => {
            return Err(CompileError::UnsupportedStep { index, kind: step_kind_name(step) });
        },
    }
    Ok(())
}

/// Compiles a resolved traversal to the ordered tools of the remote pipeline,
/// the terminal action, and the identifiers that the caller matches on its own
/// side. Nothing is compiled of a traversal that fails: the first failing part
/// decides the error.
pub fn map_traversal_to_tools(traversal: &Traversal, params: &Json) -> (r: Result<
    (Vec<ToolArgs>, FinalAction, Vec<String>),
    CompileError,
>)
    requires
        !(traversal@.start is Identifier),
    ensures
        match r {
            Ok((tools, action, ids)) => compile(traversal@, params@) == Ok::<
                CompiledView,
                CompileErrorView,
            >(
                CompiledView {
                    tools: tools_view(tools@),
                    action: action@,
                    ids: strings_view(ids@),
                },
            ),
            Err(e) => compile(traversal@, params@) == Err::<CompiledView, CompileErrorView>(e@),
        },
{
    proof {
        assert(traversal@.steps == steps_view(traversal.steps@));
    }
    match find_writing_step(&traversal.steps) {
        Some(at) => {
            proof {
                lemma_first_writing_step(steps_view(traversal.steps@));
                assert(steps_view(traversal.steps@)[at as int] == traversal.steps[at as int]@);
            }
            return Err(
                CompileError::ReadOnly { index: at, kind: step_kind_name(&traversal.steps[at]) },
            );
        },
        None => {},
    }
    let (mut tools, ids) = match start_tools_of(&traversal.start, params) {
        Ok(found) => found,
        Err(e) => {
            return Err(e);
        },
    };
    let mut action = FinalAction::Collect { range: None };
    let ghost all = steps_view(traversal.steps@);
    let ghost initial = CompileState { tools: tools_view(tools@), action: action@ };
    proof {
        assert(traversal@.steps == all);
        assert(all.take(0) =~= Seq::empty());
    }
    let mut i: usize = 0;
    while i < traversal.steps.len()
        invariant
            i <= traversal.steps.len(),
            all == steps_view(traversal.steps@),
            traversal@.steps == all,
            first_writing_step(all) is None,
            initial.action == (FinalActionView::Collect { range: None }),
            start_tools(traversal@.start, params@) == Ok::<StartView, CompileErrorView>(
                StartView { tools: initial.tools, ids: strings_view(ids@) },
            ),
            compile_steps(initial, all.take(i as int), params@) == Ok::<
                CompileState,
                CompileErrorView,
            >(CompileState { tools: tools_view(tools@), action: action@ }),
        decreases traversal.steps.len() - i,
    {
        proof {
            assert(all.take(i + 1).drop_last() =~= all.take(i as int));
            assert(all.take(i + 1).last() == traversal.steps[i as int]@);
        }
        match apply_step_to(&mut tools, &mut action, &traversal.steps[i], i, params) {
            Ok(()) => {},
            Err(e) => {
                proof {
                    lemma_compile_steps_error(initial, all, params@, i + 1);
                }
                return Err(e);
            },
        }
        i += 1;
    }
    proof {
        assert(all.take(i as int) =~= all);
    }
    Ok((tools, action, ids))
}

/// Whether a step emits an edge step.
pub open spec fn is_edge_walk(step: StepView) -> bool {
    step is OutE || step is InE
}

/// Whether none of the tools is an edge step.
pub open spec fn no_edge_step(tools: Seq<ToolArgsView>) -> bool {
    forall|k: int| 0 <= k < tools.len() ==> !is_edge_step(#[trigger] tools[k])
}

/// Without an edge step among the tools there is nothing to fuse into.
pub proof fn lemma_no_edge_step_no_fusion(tools: Seq<ToolArgsView>)
    requires
        no_edge_step(tools),
    ensures
        fuse(tools) is None,
{
    lemma_fuse(tools);
    if fuse(tools) is Some {
        let fused = fuse(tools).unwrap();
        let k = choose|k: int|
            fusible_at(tools, k) && fused == tools.update(k, node_step(tools[k]));
        assert(is_edge_step(tools[k]));
    }
}

/// A step that is no `OutE` or `InE` leaves the tools without an edge step.
pub proof fn lemma_step_keeps_no_edge_step(
    state: CompileState,
    step: StepView,
    index: int,
    params: JsonView,
)
    requires
        no_edge_step(state.tools),
        !is_edge_walk(step),
    ensures
        match apply_step(state, step, index, params) {
            Ok(next) => no_edge_step(next.tools),
            Err(_) => true,
        },
{
    match apply_step(state, step, index, params) {
        Ok(next) => {
            if step is FromN || step is ToN {
                lemma_no_edge_step_no_fusion(state.tools);
            } else {
                assert forall|k: int| 0 <= k < next.tools.len() implies !is_edge_step(
                    #[trigger] next.tools[k],
                ) by {
                    if k < state.tools.len() {
                        assert(next.tools[k] == state.tools[k]);
                    }
                }
            }
        },
        Err(_) => {},
    }
}

/// Steps without `OutE` and `InE` leave the tools without an edge step.
pub proof fn lemma_steps_keep_no_edge_step(
    initial: CompileState,
    steps: Seq<StepView>,
    params: JsonView,
)
    requires
        no_edge_step(initial.tools),
        forall|j: int| 0 <= j < steps.len() ==> !is_edge_walk(#[trigger] steps[j]),
    ensures
        match compile_steps(initial, steps, params) {
            Ok(state) => no_edge_step(state.tools),
            Err(_) => true,
        },
    decreases steps.len(),
{
    if steps.len() > 0 {
        let before = steps.drop_last();
        assert forall|j: int| 0 <= j < before.len() implies !is_edge_walk(#[trigger] before[j]) by {
            assert(before[j] == steps[j]);
        }
        lemma_steps_keep_no_edge_step(initial, before, params);
        match compile_steps(initial, before, params) {
            Ok(state) => {
                assert(steps.last() == steps[steps.len() - 1]);
                lemma_step_keeps_no_edge_step(state, steps.last(), steps.len() - 1, params);
            },
            Err(_) => {},
        }
    }
}

/// The tools of a start node hold no edge step.
pub proof fn lemma_start_has_no_edge_step(start: StartNodeView, params: JsonView)
    ensures
        match start_tools(start, params) {
            Ok(found) => no_edge_step(found.tools),
            Err(_) => true,
        },
{
}

/// A traversal that writes, in a step or at any depth inside one, never
/// compiles: it is refused as read-only.
pub proof fn lemma_writes_never_compile(t: TraversalView, params: JsonView)
    requires
        any_step_writes(t.steps),
    ensures
        match compile(t, params) {
            Err(CompileErrorView::ReadOnly { .. }) => true,
            _ => false,
        },
{
    lemma_first_writing_step(t.steps);
}

/// `FromN` or `ToN` with no `OutE` or `InE` step before it never compiles;
/// in a traversal that only reads and whose steps before it compile, the
/// error is `MissingEdgeStep`.
pub proof fn lemma_fusion_needs_edge_step(t: TraversalView, params: JsonView, i: int)
    requires
        0 <= i < t.steps.len(),
        t.steps[i] is FromN || t.steps[i] is ToN,
        forall|j: int| 0 <= j < i ==> !is_edge_walk(#[trigger] t.steps[j]),
    ensures
        compile(t, params) is Err,
        !any_step_writes(t.steps) && compile(
            TraversalView { start: t.start, steps: t.steps.take(i) },
            params,
        ) is Ok ==> compile(t, params) == Err::<CompiledView, CompileErrorView>(
            CompileErrorView::MissingEdgeStep,
        ),
{
    lemma_first_writing_step(t.steps);
    lemma_first_writing_step(t.steps.take(i));
    if !any_step_writes(t.steps) {
        assert forall|j: int| 0 <= j < i implies !step_writes(
            #[trigger] t.steps.take(i)[j],
        ) by {
            assert(t.steps.take(i)[j] == t.steps[j]);
        }
    }
    lemma_start_has_no_edge_step(t.start, params);
    match start_tools(t.start, params) {
        Err(_) => {},
        Ok(found) => {
            let initial = CompileState {
                tools: found.tools,
                action: FinalActionView::Collect { range: None },
            };
            let before = t.steps.take(i);
            assert forall|j: int| 0 <= j < before.len() implies !is_edge_walk(
                #[trigger] before[j],
            ) by {
                assert(before[j] == t.steps[j]);
            }
            lemma_steps_keep_no_edge_step(initial, before, params);
            let upto = t.steps.take(i + 1);
            assert(upto.drop_last() =~= before);
            assert(upto.last() == t.steps[i]);
            match compile_steps(initial, before, params) {
                Ok(state) => {
                    lemma_no_edge_step_no_fusion(state.tools);
                },
                Err(_) => {},
            }
            lemma_compile_steps_error(initial, t.steps, params, i + 1);
        },
    }
}

/// The terminal action that a step sets, if it sets one.
pub open spec fn terminal_action(step: StepView, params: JsonView) -> Option<
    Result<FinalActionView, CompileErrorView>,
> {
    match step {
        StepView::Count => Some(Ok(FinalActionView::Count)),
        StepView::Aggregate(properties) => Some(Ok(FinalActionView::Aggregate { properties })),
        StepView::GroupBy(properties) => Some(Ok(FinalActionView::GroupBy { properties })),
        StepView::Range(start, end) => Some(range_action(start, end, params)),
        StepView::First => Some(
            Ok(FinalActionView::Collect { range: Some((0usize, Some(1usize))) }),
        ),
        _ => None,
    }
}

/// The terminal action after the steps: that of the last step that sets one,
/// and the one given where none does.
pub open spec fn last_terminal_action(
    given: FinalActionView,
    steps: Seq<StepView>,
    params: JsonView,
) -> FinalActionView
    decreases steps.len(),
{
    if steps.len() == 0 {
        given
    } else {
        match terminal_action(steps.last(), params) {
            Some(Ok(action)) => action,
            _ => last_terminal_action(given, steps.drop_last(), params),
        }
    }
}

/// Of the steps of a traversal that compiles, the last one that sets a
/// terminal action wins; without one, everything is collected.
pub proof fn lemma_last_terminal_wins(initial: CompileState, steps: Seq<StepView>, params: JsonView)
    requires
        compile_steps(initial, steps, params) is Ok,
    ensures
        compile_steps(initial, steps, params)->Ok_0.action == last_terminal_action(
            initial.action,
            steps,
            params,
        ),
    decreases steps.len(),
{
    if steps.len() > 0 {
        lemma_last_terminal_wins(initial, steps.drop_last(), params);
    }
}

/// A step that sets a terminal action emits no tool, and a step that emits a
/// tool leaves the terminal action as it is.
pub proof fn lemma_step_sets_action_or_tools(
    state: CompileState,
    step: StepView,
    index: int,
    params: JsonView,
)
    requires
        apply_step(state, step, index, params) is Ok,
    ensures
        terminal_action(step, params) is Some ==> apply_step(state, step, index, params)->Ok_0.tools
            == state.tools,
        terminal_action(step, params) is None ==> apply_step(
            state,
            step,
            index,
            params,
        )->Ok_0.action == state.action,
{
}

} // verus!
