//! The requests that a run sends, and their bodies.

use crate::hql_translator::{FinalAction, FinalActionView};
use crate::json::{items_view, members_view, Json, JsonNumber, JsonNumberView, JsonView};
use crate::text::strings_view;
use crate::tool_args::{clone_tool, ToolArgs, ToolArgsView};
use vstd::prelude::*;

verus! {

/// A request to the remote pipeline. All are posted under `/mcp/`.
#[derive(Debug, PartialEq)]
pub enum Request {
    /// Opens a session: `init`, without a body.
    Init,
    /// Applies one tool to the session: `tool_call`, with the session and the
    /// tool as the body.
    Tool { connection_id: String, tool: ToolArgs },
    /// Any other call: the endpoint and its body.
    Post { endpoint: String, body: Json },
    /// Calls the compiled query of that name, posted at the root, with the
    /// parameters as the body.
    Compiled { query_name: String, body: Json },
}

/// The mathematical value of a [`Request`].
pub enum RequestView {
    Init,
    Tool { connection_id: Seq<char>, tool: ToolArgsView },
    Post { endpoint: Seq<char>, body: JsonView },
    Compiled { query_name: Seq<char>, body: JsonView },
}

impl View for Request {
    type V = RequestView;

    open spec fn view(&self) -> RequestView {
        match *self {
            Request::Init => RequestView::Init,
            Request::Tool { connection_id, tool } => RequestView::Tool {
                connection_id: connection_id@,
                tool: tool@,
            },
            Request::Post { endpoint, body } => RequestView::Post {
                endpoint: endpoint@,
                body: body@,
            },
            Request::Compiled { query_name, body } => RequestView::Compiled {
                query_name: query_name@,
                body: body@,
            },
        }
    }
}

/// The JSON number of a count.
pub open spec fn count_json(n: usize) -> JsonView {
    JsonView::Number(JsonNumberView::PosInt(n as u64))
}

/// The JSON number that a decimal text stands for.
pub open spec fn decimal_json(text: Seq<char>) -> JsonView {
    JsonView::Number(JsonNumberView::Float(text))
}

/// The JSON array of the numbers of a vector.
pub open spec fn vector_json(vector: Seq<Seq<char>>) -> JsonView {
    JsonView::Array(Seq::new(vector.len(), |i: int| decimal_json(vector[i])))
}

/// The JSON array of a list of names.
pub open spec fn names_json(names: Seq<Seq<char>>) -> JsonView {
    JsonView::Array(Seq::new(names.len(), |i: int| JsonView::String(names[i])))
}

/// The JSON of an optional count: the number, or `null`.
pub open spec fn optional_count_json(n: Option<usize>) -> JsonView {
    match n {
        Some(c) => count_json(c),
        None => JsonView::Null,
    }
}

/// The JSON of an optional decimal: the number, or `null`.
pub open spec fn optional_decimal_json(t: Option<Seq<char>>) -> JsonView {
    match t {
        Some(text) => decimal_json(text),
        None => JsonView::Null,
    }
}

/// The endpoint and the data of a search tool; `None` of any other tool.
pub open spec fn search_call(tool: ToolArgsView) -> Option<(Seq<char>, JsonView)> {
    match tool {
        ToolArgsView::SearchKeyword { query, limit, label } => Some(
            (
                "search_keyword"@,
                JsonView::Object(
                    seq![
                        ("query"@, JsonView::String(query)),
                        ("limit"@, count_json(limit)),
                        ("label"@, JsonView::String(label)),
                    ],
                ),
            ),
        ),
        ToolArgsView::SearchVec { vector, k, min_score, cutoff } => Some(
            (
                "search_vector"@,
                JsonView::Object(
                    seq![
                        ("vector"@, vector_json(vector)),
                        ("k"@, count_json(k)),
                        ("min_score"@, optional_decimal_json(min_score)),
                        ("cutoff"@, optional_count_json(cutoff)),
                    ],
                ),
            ),
        ),
        ToolArgsView::SearchVecText { query, label, k } => Some(
            (
                "search_vector_text"@,
                JsonView::Object(
                    seq![
                        ("query"@, JsonView::String(query)),
                        ("label"@, JsonView::String(label)),
                        ("k"@, count_json(k)),
                    ],
                ),
            ),
        ),
        _ => None,
    }
}

/// The request that applies a tool to a session: a search goes to its own
/// endpoint with the session and its data, any other tool to the generic
/// tool call.
pub open spec fn tool_request(session: Seq<char>, tool: ToolArgsView) -> RequestView {
    match search_call(tool) {
        Some((endpoint, data)) => RequestView::Post {
            endpoint,
            body: JsonView::Object(
                seq![("connection_id"@, JsonView::String(session)), ("data"@, data)],
            ),
        },
        None => RequestView::Tool { connection_id: session, tool },
    }
}

/// The JSON of a range: `{start, end}`, `{start}`, or `null` for everything.
pub open spec fn range_json(range: Option<(usize, Option<usize>)>) -> JsonView {
    match range {
        Some((start, Some(end))) => JsonView::Object(
            seq![("start"@, count_json(start)), ("end"@, count_json(end))],
        ),
        Some((start, None)) => JsonView::Object(seq![("start"@, count_json(start))]),
        None => JsonView::Null,
    }
}

/// A request that reduces the session by properties and drains it.
pub open spec fn reduce_request(endpoint: Seq<char>, session: Seq<char>, properties: Seq<Seq<char>>) -> RequestView {
    RequestView::Post {
        endpoint,
        body: JsonView::Object(
            seq![
                ("connection_id"@, JsonView::String(session)),
                ("properties"@, names_json(properties)),
                ("drop"@, JsonView::Bool(true)),
            ],
        ),
    }
}

/// The request that collects the items of a session, all or a range of them,
/// and drains it.
pub open spec fn collect_request(session: Seq<char>, range: Option<(usize, Option<usize>)>) -> RequestView {
    RequestView::Post {
        endpoint: "collect"@,
        body: JsonView::Object(
            seq![
                ("connection_id"@, JsonView::String(session)),
                ("range"@, range_json(range)),
                ("drop"@, JsonView::Bool(true)),
            ],
        ),
    }
}

/// The request of a terminal action. Each drains the session. A count is an
/// aggregation by no property.
pub open spec fn final_request(session: Seq<char>, action: FinalActionView) -> RequestView {
    match action {
        FinalActionView::Collect { range } => collect_request(session, range),
        FinalActionView::Count => reduce_request("aggregate_by"@, session, Seq::empty()),
        FinalActionView::Aggregate { properties } => reduce_request(
            "aggregate_by"@,
            session,
            properties,
        ),
        FinalActionView::GroupBy { properties } => reduce_request("group_by"@, session, properties),
    }
}

/// A JSON string.
pub fn json_string(s: &str) -> (r: Json)
    ensures
        r@ == JsonView::String(s@),
{
    Json::String(String::from_str(s))
}

/// The JSON number of a count.
pub fn json_count(n: usize) -> (r: Json)
    ensures
        r@ == count_json(n),
{
    Json::Number(JsonNumber::PosInt(n as u64))
}

/// The JSON array of the numbers of a vector.
pub fn json_vector(vector: &Vec<String>) -> (r: Json)
    ensures
        r@ == vector_json(strings_view(vector@)),
{
    let mut items: Vec<Json> = Vec::new();
    let mut i: usize = 0;
    while i < vector.len()
        invariant
            i <= vector.len(),
            items.len() == i,
            forall|k: int| 0 <= k < i ==> items[k]@ == decimal_json(vector[k]@),
        decreases vector.len() - i,
    {
        items.push(Json::Number(JsonNumber::Float(vector[i].clone())));
        i += 1;
    }
    assert(items_view(items@) =~= Seq::new(
        vector@.len(),
        |i: int| decimal_json(strings_view(vector@)[i]),
    ));
    Json::Array(items)
}

/// The JSON array of a list of names.
pub fn json_names(names: &Vec<String>) -> (r: Json)
    ensures
        r@ == names_json(strings_view(names@)),
{
    let mut items: Vec<Json> = Vec::new();
    let mut i: usize = 0;
    while i < names.len()
        invariant
            i <= names.len(),
            items.len() == i,
            forall|k: int| 0 <= k < i ==> items[k]@ == JsonView::String(names[k]@),
        decreases names.len() - i,
    {
        items.push(Json::String(names[i].clone()));
        i += 1;
    }
    assert(items_view(items@) =~= Seq::new(
        names@.len(),
        |i: int| JsonView::String(strings_view(names@)[i]),
    ));
    Json::Array(items)
}

/// A JSON object of the members given, in order.
pub fn json_object(members: Vec<(String, Json)>) -> (r: Json)
    ensures
        r@ == JsonView::Object(members_view(members@)),
{
    Json::Object(members)
}

/// Appends a member.
pub fn push_member(members: &mut Vec<(String, Json)>, key: &str, value: Json)
    ensures
        members_view(final(members)@) == members_view(old(members)@).push((key@, value@)),
{
    members.push((String::from_str(key), value));
    assert(members_view(members@) =~= members_view(old(members)@).push((key@, value@)));
}

/// No members yet.
pub fn no_members() -> (r: Vec<(String, Json)>)
    ensures
        members_view(r@) == Seq::<(Seq<char>, JsonView)>::empty(),
{
    let r: Vec<(String, Json)> = Vec::new();
    assert(members_view(r@) =~= Seq::empty());
    r
}

/// The request that applies a tool to a session.
pub fn request_for_tool(session: &str, tool: &ToolArgs) -> (r: Request)
    ensures
        r@ == tool_request(session@, tool@),
{
    let (endpoint, data) = match tool {
        ToolArgs::SearchKeyword { query, limit, label } => {
            let mut data = no_members();
            push_member(&mut data, "query", json_string(query.as_str()));
            push_member(&mut data, "limit", json_count(*limit));
            push_member(&mut data, "label", json_string(label.as_str()));
            assert(members_view(data@) =~= seq![
                ("query"@, JsonView::String(query@)),
                ("limit"@, count_json(*limit)),
                ("label"@, JsonView::String(label@)),
            ]);
            ("search_keyword", data)
        },
        ToolArgs::SearchVec { vector, k, min_score, cutoff } => {
            let mut data = no_members();
            push_member(&mut data, "vector", json_vector(vector));
            push_member(&mut data, "k", json_count(*k));
            let score = match min_score {
                Some(text) => Json::Number(JsonNumber::Float(text.clone())),
                None => Json::Null,
            };
            push_member(&mut data, "min_score", score);
            let cut = match cutoff {
                Some(c) => json_count(*c),
                None => Json::Null,
            };
            push_member(&mut data, "cutoff", cut);
            assert(members_view(data@) =~= seq![
                ("vector"@, vector_json(strings_view(vector@))),
                ("k"@, count_json(*k)),
                ("min_score"@, score@),
                ("cutoff"@, cut@),
            ]);
            ("search_vector", data)
        },
        ToolArgs::SearchVecText { query, label, k } => {
            let mut data = no_members();
            push_member(&mut data, "query", json_string(query.as_str()));
            push_member(&mut data, "label", json_string(label.as_str()));
            push_member(&mut data, "k", json_count(*k));
            assert(members_view(data@) =~= seq![
                ("query"@, JsonView::String(query@)),
                ("label"@, JsonView::String(label@)),
                ("k"@, count_json(*k)),
            ]);
            ("search_vector_text", data)
        },
        _ => {
            return Request::Tool {
                connection_id: String::from_str(session),
                tool: clone_tool(tool),
            };
        },
    };
    let mut body = no_members();
    push_member(&mut body, "connection_id", json_string(session));
    push_member(&mut body, "data", json_object(data));
    assert(members_view(body@) =~= seq![
        ("connection_id"@, JsonView::String(session@)),
        ("data"@, JsonView::Object(members_view(data@))),
    ]);
    Request::Post { endpoint: String::from_str(endpoint), body: json_object(body) }
}

/// The JSON of a range.
pub fn json_range(range: &Option<(usize, Option<usize>)>) -> (r: Json)
    ensures
        r@ == range_json(*range),
{
    match range {
        Some((start, Some(end))) => {
            let mut members = no_members();
            push_member(&mut members, "start", json_count(*start));
            push_member(&mut members, "end", json_count(*end));
            assert(members_view(members@) =~= seq![
                ("start"@, count_json(*start)),
                ("end"@, count_json(*end)),
            ]);
            json_object(members)
        },
        Some((start, None)) => {
            let mut members = no_members();
            push_member(&mut members, "start", json_count(*start));
            assert(members_view(members@) =~= seq![("start"@, count_json(*start))]);
            json_object(members)
        },
        None => Json::Null,
    }
}

/// A request that reduces the session by properties and drains it.
pub fn request_to_reduce(endpoint: &str, session: &str, properties: Json) -> (r: Request)
    ensures
        r@ == (RequestView::Post {
            endpoint: endpoint@,
            body: JsonView::Object(
                seq![
                    ("connection_id"@, JsonView::String(session@)),
                    ("properties"@, properties@),
                    ("drop"@, JsonView::Bool(true)),
                ],
            ),
        }),
{
    let mut body = no_members();
    push_member(&mut body, "connection_id", json_string(session));
    push_member(&mut body, "properties", properties);
    push_member(&mut body, "drop", Json::Bool(true));
    assert(members_view(body@) =~= seq![
        ("connection_id"@, JsonView::String(session@)),
        ("properties"@, properties@),
        ("drop"@, JsonView::Bool(true)),
    ]);
    Request::Post { endpoint: String::from_str(endpoint), body: json_object(body) }
}

/// The request that collects the items of a session and drains it.
pub fn request_to_collect(session: &str, range: &Option<(usize, Option<usize>)>) -> (r: Request)
    ensures
        r@ == collect_request(session@, *range),
{
    let mut body = no_members();
    push_member(&mut body, "connection_id", json_string(session));
    push_member(&mut body, "range", json_range(range));
    push_member(&mut body, "drop", Json::Bool(true));
    assert(members_view(body@) =~= seq![
        ("connection_id"@, JsonView::String(session@)),
        ("range"@, range_json(*range)),
        ("drop"@, JsonView::Bool(true)),
    ]);
    Request::Post { endpoint: String::from_str("collect"), body: json_object(body) }
}

/// The request of a terminal action.
pub fn request_for_action(session: &str, action: &FinalAction) -> (r: Request)
    ensures
        r@ == final_request(session@, action@),
{
    match action {
        FinalAction::Collect { range } => request_to_collect(session, range),
        FinalAction::Count => {
            let none: Vec<String> = Vec::new();
            assert(strings_view(none@) =~= Seq::empty());
            request_to_reduce("aggregate_by", session, json_names(&none))
        },
        FinalAction::Aggregate { properties } => request_to_reduce(
            "aggregate_by",
            session,
            json_names(properties),
        ),
        FinalAction::GroupBy { properties } => request_to_reduce(
            "group_by",
            session,
            json_names(properties),
        ),
    }
}

} // verus!
