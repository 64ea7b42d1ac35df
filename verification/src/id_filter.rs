//! Identifiers are matched on the client: a result is filtered by them, and
//! an item found by them gives the property filter that stands in for them.

use crate::filter_compiler::single_clause_filter;
use crate::json::{
    get_spec, is_well_formed, items_view, members_view, text_of, Json, JsonNumber, JsonNumberView,
    JsonView,
};
use crate::text::{str_equal, strings_view};
use crate::tool_args::{
    clause_view, clone_tool, tools_view, ClauseView, FilterProperties, FilterPropertiesView,
    FilterTraversalView, Operator, ToolArgs, ToolArgsView,
};
use crate::value::{Value, ValueView};
use vstd::prelude::*;

verus! {

/// Whether an item carries one of the identifiers in its `id` member.
pub open spec fn has_listed_id(item: JsonView, ids: Seq<Seq<char>>) -> bool {
    match get_spec(item, "id"@) {
        Some(JsonView::String(id)) => ids.contains(id),
        _ => false,
    }
}

/// The items that carry one of the identifiers, in order.
pub open spec fn keep_listed(items: Seq<JsonView>, ids: Seq<Seq<char>>) -> Seq<JsonView>
    decreases items.len(),
{
    if items.len() == 0 {
        Seq::empty()
    } else if has_listed_id(items.last(), ids) {
        keep_listed(items.drop_last(), ids).push(items.last())
    } else {
        keep_listed(items.drop_last(), ids)
    }
}

/// A result filtered by identifier on the client: of an array, the items
/// that carry one of the identifiers; any other document as it is.
pub open spec fn filter_ids(v: JsonView, ids: Seq<Seq<char>>) -> JsonView {
    match v {
        JsonView::Array(items) => JsonView::Array(keep_listed(items, ids)),
        _ => v,
    }
}

/// Whether a name is in the list.
pub fn contains_name(names: &Vec<String>, name: &str) -> (r: bool)
    ensures
        r == strings_view(names@).contains(name@),
{
    let mut i: usize = 0;
    while i < names.len()
        invariant
            i <= names.len(),
            forall|k: int| 0 <= k < i ==> names[k]@ != name@,
        decreases names.len() - i,
    {
        if str_equal(names[i].as_str(), name) {
            assert(strings_view(names@)[i as int] == name@);
            return true;
        }
        i += 1;
    }
    false
}

/// Whether an item carries one of the identifiers in its `id` member.
pub fn item_has_listed_id(item: &Json, ids: &Vec<String>) -> (r: bool)
    ensures
        r == has_listed_id(item@, strings_view(ids@)),
{
    match item.get("id") {
        Some(found) => match found.as_str() {
            Some(id) => contains_name(ids, id),
            None => false,
        },
        None => false,
    }
}

/// Filters a result by identifier on the client: of an array the items whose
/// `id` is one of `ids` stay, in order; any other document is handed back as
/// it is.
pub fn filter_by_ids(value: &Json, ids: &Vec<String>) -> (r: Json)
    ensures
        r@ == filter_ids(value@, strings_view(ids@)),
{
    match value {
        Json::Array(items) => {
            let ghost all = items_view(items@);
            let mut kept: Vec<Json> = Vec::new();
            let mut i: usize = 0;
            assert(items_view(kept@) =~= keep_listed(all.take(0), strings_view(ids@)));
            while i < items.len()
                invariant
                    i <= items.len(),
                    all == items_view(items@),
                    items_view(kept@) == keep_listed(all.take(i as int), strings_view(ids@)),
                decreases items.len() - i,
            {
                let ghost before = items_view(kept@);
                proof {
                    assert(all.take(i + 1).drop_last() =~= all.take(i as int));
                    assert(all.take(i + 1).last() == items[i as int]@);
                }
                if item_has_listed_id(&items[i], ids) {
                    kept.push(items[i].duplicate());
                    proof {
                        assert(items_view(kept@) =~= before.push(items[i as int]@));
                    }
                }
                i += 1;
            }
            proof {
                assert(all.take(i as int) =~= all);
            }
            Json::Array(kept)
        },
        _ => value.duplicate(),
    }
}

/// Whether a member tells what an item is rather than what it holds.
pub open spec fn is_identity_member(key: Seq<char>) -> bool {
    key == "id"@ || key == "label"@ || key == "version"@
}

/// The value that a member is matched by: a string, a number or a boolean
/// as itself; nothing for any other document. An integer of 64 bits stays one,
/// any other number is a floating-point value by its text.
pub open spec fn equality_value(v: JsonView) -> Option<ValueView> {
    match v {
        JsonView::String(s) => Some(ValueView::String(s)),
        JsonView::Number(JsonNumberView::PosInt(u)) => if u <= i64::MAX {
            Some(ValueView::I64(u as i64))
        } else {
            Some(ValueView::F64(text_of(v)))
        },
        JsonView::Number(JsonNumberView::NegInt(i)) => Some(ValueView::I64(i)),
        JsonView::Number(JsonNumberView::Float(t)) => Some(ValueView::F64(t)),
        JsonView::Bool(b) => Some(ValueView::Boolean(b)),
        _ => None,
    }
}

/// The conditions that single an item out by what it holds: one equality for
/// each member that is no identity member and has a value to match, in order.
pub open spec fn item_conditions(members: Seq<(Seq<char>, JsonView)>) -> ClauseView
    decreases members.len(),
{
    if members.len() == 0 {
        Seq::empty()
    } else {
        let before = item_conditions(members.drop_last());
        let last = members.last();
        if is_identity_member(last.0) {
            before
        } else {
            match equality_value(last.1) {
                Some(value) => before.push(
                    FilterPropertiesView { key: last.0, value, operator: Some(Operator::Eq) },
                ),
                None => before,
            }
        }
    }
}

/// The item filter that stands in for an identifier on the second pass: the
/// conjunction of the item's conditions; nothing where the item is no object
/// or has no such condition.
pub open spec fn property_filter(item: JsonView) -> Option<ToolArgsView> {
    match item {
        JsonView::Object(members) => if item_conditions(members).len() > 0 {
            Some(
                ToolArgsView::FilterItems {
                    filter: FilterTraversalView::of_properties(seq![item_conditions(members)]),
                },
            )
        } else {
            None
        },
        _ => None,
    }
}

/// The value that a member is matched by.
pub fn equality_value_of(v: &Json) -> (r: Option<Value>)
    ensures
        match r {
            Some(value) => equality_value(v@) == Some(value@),
            None => equality_value(v@) is None,
        },
{
    match v {
        Json::String(s) => Some(Value::String(s.clone())),
        Json::Number(n) => match n {
            JsonNumber::PosInt(u) => {
                if *u <= 0x7fff_ffff_ffff_ffff {
                    Some(Value::I64(*u as i64))
                } else {
                    Some(Value::F64(v.to_text()))
                }
            },
            JsonNumber::NegInt(i) => Some(Value::I64(*i)),
            JsonNumber::Float(t) => Some(Value::F64(t.clone())),
        },
        Json::Bool(b) => Some(Value::Boolean(*b)),
        _ => None,
    }
}

/// Whether a member tells what an item is rather than what it holds.
pub fn is_identity_key(key: &str) -> (r: bool)
    ensures
        r == is_identity_member(key@),
{
    str_equal(key, "id") || str_equal(key, "label") || str_equal(key, "version")
}

/// Builds, from an item that the first pass found, the item filter that the
/// second pass sends in place of the identifier.
pub fn build_property_filter(item: &Json) -> (r: Option<ToolArgs>)
    ensures
        match r {
            Some(tool) => property_filter(item@) == Some(tool@),
            None => property_filter(item@) is None,
        },
{
    match item {
        Json::Object(members) => {
            let ghost all = members_view(members@);
            let mut props: Vec<FilterProperties> = Vec::new();
            let mut i: usize = 0;
            assert(clause_view(props@) =~= item_conditions(all.take(0)));
            while i < members.len()
                invariant
                    i <= members.len(),
                    all == members_view(members@),
                    clause_view(props@) == item_conditions(all.take(i as int)),
                decreases members.len() - i,
            {
                let ghost before = clause_view(props@);
                proof {
                    assert(all.take(i + 1).drop_last() =~= all.take(i as int));
                    assert(all.take(i + 1).last() == (members[i as int].0@, members[i as int].1@));
                }
                if !is_identity_key(members[i].0.as_str()) {
                    match equality_value_of(&members[i].1) {
                        Some(value) => {
                            let condition = FilterProperties {
                                key: members[i].0.clone(),
                                value,
                                operator: Some(Operator::Eq),
                            };
                            props.push(condition);
                            proof {
                                assert(clause_view(props@) =~= before.push(condition@));
                            }
                        },
                        None => {},
                    }
                }
                i += 1;
            }
            proof {
                assert(all.take(i as int) =~= all);
            }
            if props.len() > 0 {
                Some(ToolArgs::FilterItems { filter: single_clause_filter(props) })
            } else {
                None
            }
        },
        _ => None,
    }
}

/// The first item that the identifiers single out of what the first pass
/// collected, if there is one.
pub open spec fn first_listed(collected: JsonView, ids: Seq<Seq<char>>) -> Option<JsonView> {
    match filter_ids(collected, ids) {
        JsonView::Array(items) => if items.len() > 0 {
            Some(items[0])
        } else {
            None
        },
        _ => None,
    }
}

/// The tools of the second pass: the start tool, the item filter that stands
/// in for the identifier where there is one, then the remaining tools in
/// their order.
pub open spec fn second_pass_plan(tools: Seq<ToolArgsView>, synthetic: Option<ToolArgsView>) -> Seq<
    ToolArgsView,
> {
    let head = tools.take(if tools.len() > 0 { 1int } else { 0int });
    let tail = tools.skip(if tools.len() > 0 { 1int } else { 0int });
    match synthetic {
        Some(filter) => head.push(filter) + tail,
        None => head + tail,
    }
}

/// The view of an optional tool.
pub open spec fn optional_tool_view(tool: Option<ToolArgs>) -> Option<ToolArgsView> {
    match tool {
        Some(t) => Some(t@),
        None => None,
    }
}

/// The tools of the second pass.
pub fn second_pass_tools(tools: &Vec<ToolArgs>, synthetic: &Option<ToolArgs>) -> (plan: Vec<ToolArgs>)
    ensures
        tools_view(plan@) == second_pass_plan(tools_view(tools@), optional_tool_view(*synthetic)),
{
    let ghost all = tools_view(tools@);
    let mut plan: Vec<ToolArgs> = Vec::new();
    let first: usize = if tools.len() > 0 {
        1
    } else {
        0
    };
    if tools.len() > 0 {
        plan.push(clone_tool(&tools[0]));
    }
    match synthetic {
        Some(filter) => {
            plan.push(clone_tool(filter));
        },
        None => {},
    }
    let ghost head = tools_view(plan@);
    let mut i: usize = first;
    proof {
        assert(all.skip(first as int).take(0) =~= Seq::empty());
        assert(tools_view(plan@) =~= head + all.skip(first as int).take(0));
        match synthetic {
            Some(t) => {
                assert(head =~= all.take(first as int).push(t@));
            },
            None => {
                assert(head =~= all.take(first as int));
            },
        }
    }
    while i < tools.len()
        invariant
            first <= i <= tools.len(),
            first <= 1,
            all == tools_view(tools@),
            tools_view(plan@) == head + all.skip(first as int).take(i - first),
        decreases tools.len() - i,
    {
        let ghost before = tools_view(plan@);
        plan.push(clone_tool(&tools[i]));
        proof {
            assert(tools_view(plan@) =~= before.push(tools[i as int]@));
            assert(all.skip(first as int).take(i - first + 1) =~= all.skip(first as int).take(
                i - first,
            ).push(all[i as int]));
        }
        i += 1;
    }
    proof {
        assert(all.skip(first as int).take(i - first) =~= all.skip(first as int));
    }
    plan
}

/// The items that are kept are items of the list.
pub proof fn lemma_kept_are_listed(items: Seq<JsonView>, ids: Seq<Seq<char>>)
    ensures
        forall|i: int|
            0 <= i < keep_listed(items, ids).len() ==> items.contains(
                #[trigger] keep_listed(items, ids)[i],
            ),
    decreases items.len(),
{
    if items.len() > 0 {
        let rest = items.drop_last();
        lemma_kept_are_listed(rest, ids);
        let out = keep_listed(items, ids);
        assert forall|i: int| 0 <= i < out.len() implies items.contains(#[trigger] out[i]) by {
            if i < keep_listed(rest, ids).len() {
                let j = choose|j: int| 0 <= j < rest.len() && rest[j] == keep_listed(rest, ids)[i];
                assert(items[j] == out[i]);
            } else {
                assert(items[items.len() - 1] == out[i]);
            }
        }
    }
}

/// A result filtered by identifier names no member twice where the result
/// did not.
pub proof fn lemma_filter_keeps_well_formed(v: JsonView, ids: Seq<Seq<char>>)
    requires
        is_well_formed(v),
    ensures
        is_well_formed(filter_ids(v, ids)),
{
    match v {
        JsonView::Array(items) => {
            lemma_kept_are_listed(items, ids);
            let out = keep_listed(items, ids);
            assert forall|i: int| 0 <= i < out.len() implies is_well_formed(#[trigger] out[i]) by {
                let j = choose|j: int| 0 <= j < items.len() && items[j] == out[i];
            }
        },
        _ => {},
    }
}

} // verus!
