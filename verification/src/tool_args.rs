//! The tools of the remote pipeline: the instruction set that a traversal is
//! compiled to.

use crate::text::{clone_strings, strings_view};
use crate::value::{Value, ValueView};
use vstd::prelude::*;

verus! {

/// What an edge walk arrives at.
#[derive(Debug, Clone, Copy, PartialEq, Eq, Structural)]
pub enum EdgeType {
    Node,
    Vec,
}

/// The direction of an ordering.
#[derive(Debug, Clone, Copy, PartialEq, Eq, Structural)]
pub enum Order {
    Asc,
    Desc,
}

/// The comparison of a property condition.
#[derive(Debug, Clone, Copy, PartialEq, Eq, Structural)]
pub enum Operator {
    Eq,
    Neq,
    Gt,
    Lt,
    Gte,
    Lte,
}

/// One condition on a property: `key operator value`.
#[derive(Debug, PartialEq)]
pub struct FilterProperties {
    pub key: String,
    pub value: Value,
    pub operator: Option<Operator>,
}

/// The mathematical value of a [`FilterProperties`].
pub struct FilterPropertiesView {
    pub key: Seq<char>,
    pub value: ValueView,
    pub operator: Option<Operator>,
}

impl View for FilterProperties {
    type V = FilterPropertiesView;

    open spec fn view(&self) -> FilterPropertiesView {
        FilterPropertiesView { key: self.key@, value: self.value@, operator: self.operator }
    }
}

impl Clone for FilterProperties {
    fn clone(&self) -> (r: Self)
        ensures
            r@ == self@,
    {
        let operator = match &self.operator {
            Some(op) => Some(*op),
            None => None,
        };
        FilterProperties { key: self.key.clone(), value: self.value.clone(), operator }
    }
}

/// A filter on the items of a pipeline: a disjunction of conjunctions of
/// property conditions, or a chain of nested tools that must lead somewhere.
#[derive(Debug, PartialEq)]
pub struct FilterTraversal {
    pub properties: Option<Vec<Vec<FilterProperties>>>,
    pub filter_traversals: Option<Vec<ToolArgs>>,
}

/// One instruction of the remote pipeline.
///
/// The numbers of a vector, and a minimum score, are carried as decimal text.
#[allow(inconsistent_fields)]
#[derive(Debug, PartialEq)]
pub enum ToolArgs {
    OutStep { edge_label: String, edge_type: EdgeType, filter: Option<FilterTraversal> },
    OutEStep { edge_label: String, filter: Option<FilterTraversal> },
    InStep { edge_label: String, edge_type: EdgeType, filter: Option<FilterTraversal> },
    InEStep { edge_label: String, filter: Option<FilterTraversal> },
    NFromType { node_type: String },
    VFromType { vector_type: String },
    EFromType { edge_type: String },
    FilterItems { filter: FilterTraversal },
    OrderBy { properties: String, order: Order },
    SearchKeyword { query: String, limit: usize, label: String },
    SearchVecText { query: String, label: String, k: usize },
    SearchVec { vector: Vec<String>, k: usize, min_score: Option<String>, cutoff: Option<usize> },
    SearchV { label: String, vector: Vec<String>, k: usize },
}

/// A conjunction of property conditions.
pub type ClauseView = Seq<FilterPropertiesView>;

/// A disjunction of conjunctions of property conditions.
pub type DnfView = Seq<ClauseView>;

/// The mathematical value of a [`FilterTraversal`].
pub struct FilterTraversalView {
    pub properties: Option<DnfView>,
    pub filter_traversals: Option<Seq<ToolArgsView>>,
}

/// The mathematical value of a [`ToolArgs`].
#[allow(inconsistent_fields)]
pub enum ToolArgsView {
    OutStep { edge_label: Seq<char>, edge_type: EdgeType, filter: Option<FilterTraversalView> },
    OutEStep { edge_label: Seq<char>, filter: Option<FilterTraversalView> },
    InStep { edge_label: Seq<char>, edge_type: EdgeType, filter: Option<FilterTraversalView> },
    InEStep { edge_label: Seq<char>, filter: Option<FilterTraversalView> },
    NFromType { node_type: Seq<char> },
    VFromType { vector_type: Seq<char> },
    EFromType { edge_type: Seq<char> },
    FilterItems { filter: FilterTraversalView },
    OrderBy { properties: Seq<char>, order: Order },
    SearchKeyword { query: Seq<char>, limit: usize, label: Seq<char> },
    SearchVecText { query: Seq<char>, label: Seq<char>, k: usize },
    SearchVec {
        vector: Seq<Seq<char>>,
        k: usize,
        min_score: Option<Seq<char>>,
        cutoff: Option<usize>,
    },
    SearchV { label: Seq<char>, vector: Seq<Seq<char>>, k: usize },
}

/// The view of a conjunction.
pub open spec fn clause_view(clause: Seq<FilterProperties>) -> ClauseView {
    Seq::new(clause.len(), |i: int| clause[i]@)
}

/// The view of a disjunction of conjunctions.
pub open spec fn dnf_view(dnf: Seq<Vec<FilterProperties>>) -> DnfView {
    Seq::new(dnf.len(), |i: int| clause_view(dnf[i]@))
}

/// The view of an optional filter.
pub open spec fn optional_filter_view(f: Option<FilterTraversal>) -> Option<FilterTraversalView>
    decreases f,
{
    match f {
        Some(inner) => Some(filter_view(inner)),
        None => None,
    }
}

/// The view of a tool.
pub open spec fn tool_view(t: ToolArgs) -> ToolArgsView
    decreases t,
{
    match t {
        ToolArgs::OutStep { edge_label, edge_type, filter } => ToolArgsView::OutStep {
            edge_label: edge_label@,
            edge_type,
            filter: optional_filter_view(filter),
        },
        ToolArgs::OutEStep { edge_label, filter } => ToolArgsView::OutEStep {
            edge_label: edge_label@,
            filter: optional_filter_view(filter),
        },
        ToolArgs::InStep { edge_label, edge_type, filter } => ToolArgsView::InStep {
            edge_label: edge_label@,
            edge_type,
            filter: optional_filter_view(filter),
        },
        ToolArgs::InEStep { edge_label, filter } => ToolArgsView::InEStep {
            edge_label: edge_label@,
            filter: optional_filter_view(filter),
        },
        ToolArgs::NFromType { node_type } => ToolArgsView::NFromType { node_type: node_type@ },
        ToolArgs::VFromType { vector_type } => ToolArgsView::VFromType {
            vector_type: vector_type@,
        },
        ToolArgs::EFromType { edge_type } => ToolArgsView::EFromType { edge_type: edge_type@ },
        ToolArgs::FilterItems { filter } => ToolArgsView::FilterItems { filter: filter_view(filter) },
        ToolArgs::OrderBy { properties, order } => ToolArgsView::OrderBy {
            properties: properties@,
            order,
        },
        ToolArgs::SearchKeyword { query, limit, label } => ToolArgsView::SearchKeyword {
            query: query@,
            limit,
            label: label@,
        },
        ToolArgs::SearchVecText { query, label, k } => ToolArgsView::SearchVecText {
            query: query@,
            label: label@,
            k,
        },
        ToolArgs::SearchVec { vector, k, min_score, cutoff } => ToolArgsView::SearchVec {
            vector: strings_view(vector@),
            k,
            min_score: match min_score {
                Some(s) => Some(s@),
                None => None,
            },
            cutoff,
        },
        ToolArgs::SearchV { label, vector, k } => ToolArgsView::SearchV {
            label: label@,
            vector: strings_view(vector@),
            k,
        },
    }
}

/// The views of a list of tools, item by item.
pub open spec fn tools_view(tools: Seq<ToolArgs>) -> Seq<ToolArgsView>
    decreases tools,
{
    Seq::new(
        tools.len(),
        |i: int|
            if 0 <= i < tools.len() {
                tool_view(tools[i])
            } else {
                arbitrary()
            },
    )
}

/// The view of a filter.
pub open spec fn filter_view(f: FilterTraversal) -> FilterTraversalView
    decreases f,
{
    FilterTraversalView {
        properties: match f.properties {
            Some(dnf) => Some(dnf_view(dnf@)),
            None => None,
        },
        filter_traversals: match f.filter_traversals {
            Some(tools) => Some(tools_view(tools@)),
            None => None,
        },
    }
}

impl View for ToolArgs {
    type V = ToolArgsView;

    open spec fn view(&self) -> ToolArgsView {
        tool_view(*self)
    }
}

impl View for FilterTraversal {
    type V = FilterTraversalView;

    open spec fn view(&self) -> FilterTraversalView {
        filter_view(*self)
    }
}

impl FilterTraversalView {
    /// A filter made of property conditions alone.
    pub open spec fn of_properties(dnf: DnfView) -> FilterTraversalView {
        FilterTraversalView { properties: Some(dnf), filter_traversals: None }
    }

    /// A filter made of nested tools alone.
    pub open spec fn of_traversals(tools: Seq<ToolArgsView>) -> FilterTraversalView {
        FilterTraversalView { properties: None, filter_traversals: Some(tools) }
    }
}

impl Default for FilterTraversal {
    fn default() -> (r: Self)
        ensures
            r@ == (FilterTraversalView { properties: None, filter_traversals: None }),
    {
        FilterTraversal { properties: None, filter_traversals: None }
    }
}

/// A copy of a conjunction.
pub fn clone_clause(clause: &Vec<FilterProperties>) -> (out: Vec<FilterProperties>)
    ensures
        clause_view(out@) == clause_view(clause@),
{
    let mut out: Vec<FilterProperties> = Vec::new();
    let mut i: usize = 0;
    while i < clause.len()
        invariant
            i <= clause.len(),
            out.len() == i,
            forall|k: int| 0 <= k < i ==> out[k]@ == clause[k]@,
        decreases clause.len() - i,
    {
        out.push(clause[i].clone());
        i += 1;
    }
    assert(clause_view(out@) =~= clause_view(clause@));
    out
}

/// A copy of a disjunction of conjunctions.
pub fn clone_dnf(dnf: &Vec<Vec<FilterProperties>>) -> (out: Vec<Vec<FilterProperties>>)
    ensures
        dnf_view(out@) == dnf_view(dnf@),
{
    let mut out: Vec<Vec<FilterProperties>> = Vec::new();
    let mut i: usize = 0;
    while i < dnf.len()
        invariant
            i <= dnf.len(),
            out.len() == i,
            forall|k: int| 0 <= k < i ==> clause_view(out[k]@) == clause_view(dnf[k]@),
        decreases dnf.len() - i,
    {
        out.push(clone_clause(&dnf[i]));
        i += 1;
    }
    assert(dnf_view(out@) =~= dnf_view(dnf@));
    out
}

/// A copy of an optional filter.
pub fn clone_optional_filter(f: &Option<FilterTraversal>) -> (r: Option<FilterTraversal>)
    ensures
        optional_filter_view(r) == optional_filter_view(*f),
    decreases f,
{
    match f {
        Some(inner) => Some(clone_filter(inner)),
        None => None,
    }
}

/// A copy of a filter.
pub fn clone_filter(f: &FilterTraversal) -> (r: FilterTraversal)
    ensures
        r@ == f@,
    decreases f,
{
    let properties = match &f.properties {
        Some(dnf) => Some(clone_dnf(dnf)),
        None => None,
    };
    let filter_traversals = match &f.filter_traversals {
        Some(tools) => Some(clone_tools(tools)),
        None => None,
    };
    FilterTraversal { properties, filter_traversals }
}

/// A copy of a list of tools.
pub fn clone_tools(tools: &Vec<ToolArgs>) -> (out: Vec<ToolArgs>)
    ensures
        tools_view(out@) == tools_view(tools@),
    decreases tools,
{
    let mut out: Vec<ToolArgs> = Vec::new();
    let mut i: usize = 0;
    while i < tools.len()
        invariant
            i <= tools.len(),
            out.len() == i,
            forall|k: int| 0 <= k < i ==> out[k]@ == tools[k]@,
        decreases tools.len() - i,
    {
        out.push(clone_tool(&tools[i]));
        i += 1;
    }
    assert(tools_view(out@) =~= tools_view(tools@));
    out
}

/// A copy of a tool.
pub fn clone_tool(t: &ToolArgs) -> (r: ToolArgs)
    ensures
        r@ == t@,
    decreases t,
{
    match t {
        ToolArgs::OutStep { edge_label, edge_type, filter } => ToolArgs::OutStep {
            edge_label: edge_label.clone(),
            edge_type: *edge_type,
            filter: clone_optional_filter(filter),
        },
        ToolArgs::OutEStep { edge_label, filter } => ToolArgs::OutEStep {
            edge_label: edge_label.clone(),
            filter: clone_optional_filter(filter),
        },
        ToolArgs::InStep { edge_label, edge_type, filter } => ToolArgs::InStep {
            edge_label: edge_label.clone(),
            edge_type: *edge_type,
            filter: clone_optional_filter(filter),
        },
        ToolArgs::InEStep { edge_label, filter } => ToolArgs::InEStep {
            edge_label: edge_label.clone(),
            filter: clone_optional_filter(filter),
        },
        ToolArgs::NFromType { node_type } => ToolArgs::NFromType { node_type: node_type.clone() },
        ToolArgs::VFromType { vector_type } => ToolArgs::VFromType {
            vector_type: vector_type.clone(),
        },
        ToolArgs::EFromType { edge_type } => ToolArgs::EFromType { edge_type: edge_type.clone() },
        ToolArgs::FilterItems { filter } => ToolArgs::FilterItems { filter: clone_filter(filter) },
        ToolArgs::OrderBy { properties, order } => ToolArgs::OrderBy {
            properties: properties.clone(),
            order: *order,
        },
        ToolArgs::SearchKeyword { query, limit, label } => ToolArgs::SearchKeyword {
            query: query.clone(),
            limit: *limit,
            label: label.clone(),
        },
        ToolArgs::SearchVecText { query, label, k } => ToolArgs::SearchVecText {
            query: query.clone(),
            label: label.clone(),
            k: *k,
        },
        ToolArgs::SearchVec { vector, k, min_score, cutoff } => {
            let min_score = match min_score {
                Some(s) => Some(s.clone()),
                None => None,
            };
            let cutoff = match cutoff {
                Some(c) => Some(*c),
                None => None,
            };
            ToolArgs::SearchVec { vector: clone_strings(vector), k: *k, min_score, cutoff }
        },
        ToolArgs::SearchV { label, vector, k } => ToolArgs::SearchV {
            label: label.clone(),
            vector: clone_strings(vector),
            k: *k,
        },
    }
}

impl Clone for ToolArgs {
    fn clone(&self) -> (r: Self)
        ensures
            r@ == self@,
    {
        clone_tool(self)
    }
}

impl Clone for FilterTraversal {
    fn clone(&self) -> (r: Self)
        ensures
            r@ == self@,
    {
        clone_filter(self)
    }
}

} // verus!
