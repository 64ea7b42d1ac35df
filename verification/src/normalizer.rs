//! Normalization of results: nested property containers are flattened and
//! bookkeeping fields removed, so that every result looks the same to a caller.

use crate::json::{
    insert_into, insert_member, is_well_formed, items_view, keys_unique,
    lemma_insert_keeps_keys_unique, lemma_member_index, lemma_member_index_is,
    lemma_member_index_none, member, member_index, members_view, Json, JsonView, MembersView,
};
use crate::text::str_equal;
use vstd::prelude::*;

verus! {

/// The name of the nested container whose members are merged up.
pub open spec fn properties_key() -> Seq<char> {
    "properties"@
}

/// Whether a member is bookkeeping of the remote store.
pub open spec fn is_bookkeeping(key: Seq<char>) -> bool {
    key == "out_edges"@ || key == "in_edges"@ || key == "vectors"@ || key == "version"@
}

/// The members without those named `key`.
pub open spec fn without_key(members: MembersView, key: Seq<char>) -> MembersView
    decreases members.len(),
{
    if members.len() == 0 {
        Seq::empty()
    } else if members.last().0 == key {
        without_key(members.drop_last(), key)
    } else {
        without_key(members.drop_last(), key).push(members.last())
    }
}

/// The members with each of `props` set, in order.
pub open spec fn merge(members: MembersView, props: MembersView) -> MembersView
    decreases props.len(),
{
    if props.len() == 0 {
        members
    } else {
        insert_member(merge(members, props.drop_last()), props.last().0, props.last().1)
    }
}

/// The members with a `properties` object merged up: its members are set
/// among the others and `properties` itself is gone. A member named
/// `properties` that is no object stays where it is, like any other member.
pub open spec fn flatten(members: MembersView) -> MembersView {
    match member(members, properties_key()) {
        Some(JsonView::Object(props)) => merge(without_key(members, properties_key()), props),
        _ => members,
    }
}

/// The members without the bookkeeping ones.
pub open spec fn strip(members: MembersView) -> MembersView
    decreases members.len(),
{
    if members.len() == 0 {
        Seq::empty()
    } else if is_bookkeeping(members.last().0) {
        strip(members.drop_last())
    } else {
        strip(members.drop_last()).push(members.last())
    }
}

/// The normal form of each document of a list.
pub open spec fn normalize_items(items: Seq<JsonView>) -> Seq<JsonView>
    decreases items, 0nat,
{
    Seq::new(
        items.len(),
        |i: int|
            if 0 <= i < items.len() {
                normalize(items[i])
            } else {
                arbitrary()
            },
    )
}

/// The members with each value in normal form.
pub open spec fn normalize_values(members: MembersView) -> MembersView
    decreases members, 0nat,
{
    Seq::new(
        members.len(),
        |i: int|
            if 0 <= i < members.len() {
                (members[i].0, normalize(members[i].1))
            } else {
                arbitrary()
            },
    )
}

/// The normal form of a member's value. The members of a `properties`
/// object are normalized one by one: the object itself is merged into the
/// object that holds it, and is no object of the result. Any other value,
/// under whatever name, is normalized as a document.
pub open spec fn normalize_member(key: Seq<char>, value: JsonView) -> JsonView
    decreases value, 1nat,
{
    match value {
        JsonView::Object(props) => if key == properties_key() {
            JsonView::Object(normalize_values(props))
        } else {
            normalize(value)
        },
        _ => normalize(value),
    }
}

/// The members with each value as `normalize_member` gives it.
pub open spec fn normalize_members(members: MembersView) -> MembersView
    decreases members, 0nat,
{
    Seq::new(
        members.len(),
        |i: int|
            if 0 <= i < members.len() {
                (members[i].0, normalize_member(members[i].0, members[i].1))
            } else {
                arbitrary()
            },
    )
}

/// The normal form of a result.
///
/// Of an array, the normal form of each item. Of an object: each member in
/// normal form; then the members of a `properties` object merged up and
/// that `properties` removed; then the bookkeeping members removed. Any other
/// document is its own normal form, and so is a `properties` member that is
/// no object.
pub open spec fn normalize(v: JsonView) -> JsonView
    decreases v, 0nat,
{
    match v {
        JsonView::Array(items) => JsonView::Array(normalize_items(items)),
        JsonView::Object(members) => JsonView::Object(strip(flatten(normalize_members(members)))),
        _ => v,
    }
}

/// Whether a member is bookkeeping of the remote store.
pub fn is_bookkeeping_key(key: &str) -> (r: bool)
    ensures
        r == is_bookkeeping(key@),
{
    str_equal(key, "out_edges") || str_equal(key, "in_edges") || str_equal(key, "vectors")
        || str_equal(key, "version")
}

/// The members without the bookkeeping ones.
pub fn strip_members(members: Vec<(String, Json)>) -> (out: Vec<(String, Json)>)
    ensures
        members_view(out@) == strip(members_view(members@)),
{
    let ghost all = members_view(members@);
    let mut out: Vec<(String, Json)> = Vec::new();
    assert(members_view(out@) =~= strip(all.take(0)));
    for m in it: members
        invariant
            it.seq() == members@,
            all == members_view(members@),
            members_view(out@) == strip(all.take(it.index() as int)),
    {
        let ghost i = it.index();
        let ghost before = members_view(out@);
        proof {
            assert(all.take(i + 1).drop_last() =~= all.take(i as int));
            assert(all.take(i + 1).last() == (m.0@, m.1@));
        }
        if !is_bookkeeping_key(m.0.as_str()) {
            out.push(m);
            proof {
                assert(members_view(out@) =~= before.push((m.0@, m.1@)));
            }
        }
    }
    proof {
        assert(all.take(members@.len() as int) =~= all);
    }
    out
}

/// Sets each of `props`, in order.
pub fn merge_into(members: &mut Vec<(String, Json)>, props: Vec<(String, Json)>)
    ensures
        members_view(final(members)@) == merge(members_view(old(members)@), members_view(props@)),
{
    let ghost all = members_view(props@);
    let ghost base = members_view(members@);
    for p in it: props
        invariant
            it.seq() == props@,
            all == members_view(props@),
            members_view(members@) == merge(base, all.take(it.index() as int)),
    {
        let ghost i = it.index();
        proof {
            assert(all.take(i + 1).drop_last() =~= all.take(i as int));
            assert(all.take(i + 1).last() == (p.0@, p.1@));
        }
        insert_into(members, p.0, p.1);
    }
    proof {
        assert(all.take(props@.len() as int) =~= all);
    }
}

/// The first member named `key`, if there is one.
pub fn first_member<'a>(members: &'a Vec<(String, Json)>, key: &str) -> (r: Option<&'a Json>)
    ensures
        match r {
            Some(found) => member(members_view(members@), key@) == Some(found@),
            None => member(members_view(members@), key@) is None,
        },
{
    let ghost all = members_view(members@);
    let mut i: usize = 0;
    while i < members.len()
        invariant
            i <= members.len(),
            all == members_view(members@),
            forall|j: int| 0 <= j < i ==> all[j].0 != key@,
        decreases members.len() - i,
    {
        if str_equal(members[i].0.as_str(), key) {
            proof {
                assert(all[i as int] == (members[i as int].0@, members[i as int].1@));
                lemma_member_index_is(all, key@, i as int);
            }
            return Some(&members[i].1);
        }
        i += 1;
    }
    proof {
        lemma_member_index_none(all, key@);
    }
    None
}

/// The members with a `properties` object merged up; without one the
/// members are handed back as they are.
pub fn flatten_members(members: Vec<(String, Json)>) -> (out: Vec<(String, Json)>)
    ensures
        members_view(out@) == flatten(members_view(members@)),
{
    let ghost all = members_view(members@);
    let ghost key = properties_key();
    let holds_object = match first_member(&members, "properties") {
        Some(Json::Object(_)) => true,
        _ => false,
    };
    if !holds_object {
        return members;
    }
    let mut out: Vec<(String, Json)> = Vec::new();
    let mut container: Option<Json> = None;
    let mut seen: bool = false;
    let ghost first: int = 0;
    assert(members_view(out@) =~= without_key(all.take(0), key));
    for m in it: members
        invariant
            it.seq() == members@,
            all == members_view(members@),
            key == properties_key(),
            members_view(out@) == without_key(all.take(it.index() as int), key),
            seen <==> container is Some,
            seen ==> 0 <= first < it.index() && all[first].0 == key && container.unwrap()@
                == all[first].1 && forall|j: int| 0 <= j < first ==> all[j].0 != key,
            !seen ==> forall|j: int| 0 <= j < it.index() ==> all[j].0 != key,
    {
        let ghost i = it.index();
        let ghost before = members_view(out@);
        proof {
            assert(all.take(i + 1).drop_last() =~= all.take(i as int));
            assert(all.take(i + 1).last() == (m.0@, m.1@));
            assert(all[i as int] == (m.0@, m.1@));
        }
        if str_equal(m.0.as_str(), "properties") {
            if !seen {
                proof {
                    first = i as int;
                }
                container = Some(m.1);
                seen = true;
            }
        } else {
            out.push(m);
            proof {
                assert(members_view(out@) =~= before.push((m.0@, m.1@)));
            }
        }
    }
    proof {
        assert(all.take(members@.len() as int) =~= all);
        lemma_member_index(all, key);
    }
    match container {
        Some(Json::Object(props)) => {
            merge_into(&mut out, props);
            out
        },
        _ => out,
    }
}

/// The normal form of each document of a list.
pub fn normalized_items(items: &Vec<Json>) -> (out: Vec<Json>)
    ensures
        items_view(out@) == normalize_items(items_view(items@)),
    decreases items, 0nat,
{
    let mut out: Vec<Json> = Vec::new();
    let mut i: usize = 0;
    while i < items.len()
        invariant
            i <= items.len(),
            out.len() == i,
            forall|k: int| 0 <= k < i ==> out[k]@ == normalize(items[k]@),
        decreases items.len() - i,
    {
        out.push(normalized(&items[i]));
        i += 1;
    }
    assert(items_view(out@) =~= normalize_items(items_view(items@)));
    out
}

/// The members with each value in normal form.
pub fn normalized_values(members: &Vec<(String, Json)>) -> (out: Vec<(String, Json)>)
    ensures
        members_view(out@) == normalize_values(members_view(members@)),
    decreases members, 0nat,
{
    let mut out: Vec<(String, Json)> = Vec::new();
    let mut i: usize = 0;
    while i < members.len()
        invariant
            i <= members.len(),
            out.len() == i,
            forall|k: int|
                0 <= k < i ==> out[k].0@ == members[k].0@ && out[k].1@ == normalize(
                    members[k].1@,
                ),
        decreases members.len() - i,
    {
        out.push((members[i].0.clone(), normalized(&members[i].1)));
        i += 1;
    }
    assert(members_view(out@) =~= normalize_values(members_view(members@)));
    out
}

/// The normal form of a member's value.
pub fn normalized_member(key: &str, value: &Json) -> (r: Json)
    ensures
        r@ == normalize_member(key@, value@),
    decreases value, 1nat,
{
    match value {
        Json::Object(props) => {
            if str_equal(key, "properties") {
                Json::Object(normalized_values(props))
            } else {
                normalized(value)
            }
        },
        _ => normalized(value),
    }
}

/// The members with each value as `normalized_member` gives it.
pub fn normalized_members(members: &Vec<(String, Json)>) -> (out: Vec<(String, Json)>)
    ensures
        members_view(out@) == normalize_members(members_view(members@)),
    decreases members, 0nat,
{
    let mut out: Vec<(String, Json)> = Vec::new();
    let mut i: usize = 0;
    while i < members.len()
        invariant
            i <= members.len(),
            out.len() == i,
            forall|k: int|
                0 <= k < i ==> out[k].0@ == members[k].0@ && out[k].1@ == normalize_member(
                    members[k].0@,
                    members[k].1@,
                ),
        decreases members.len() - i,
    {
        out.push((members[i].0.clone(), normalized_member(members[i].0.as_str(), &members[i].1)));
        i += 1;
    }
    assert(members_view(out@) =~= normalize_members(members_view(members@)));
    out
}

/// The normal form of a result.
pub fn normalized(v: &Json) -> (r: Json)
    ensures
        r@ == normalize(v@),
    decreases v, 0nat,
{
    match v {
        Json::Array(items) => Json::Array(normalized_items(items)),
        Json::Object(members) => Json::Object(
            strip_members(flatten_members(normalized_members(members))),
        ),
        _ => v.duplicate(),
    }
}

/// Normalizes a result: in every object, at any depth, the members of a
/// nested `properties` object are merged up and that `properties` is removed,
/// and the bookkeeping members `out_edges`, `in_edges`, `vectors` and
/// `version` are removed. Nothing else is removed: a member named
/// `properties` that is no object stays.
pub fn normalize_value(v: Json) -> (r: Json)
    ensures
        r@ == normalize(v@),
{
    normalized(&v)
}

/// Whether no object of the document, at any depth, has a bookkeeping member.
pub open spec fn has_no_bookkeeping(v: JsonView) -> bool
    decreases v,
{
    match v {
        JsonView::Array(items) => forall|i: int|
            0 <= i < items.len() ==> has_no_bookkeeping(#[trigger] items[i]),
        JsonView::Object(members) => forall|i: int|
            0 <= i < members.len() ==> !is_bookkeeping((#[trigger] members[i]).0)
                && has_no_bookkeeping(members[i].1),
        _ => true,
    }
}

/// Whether no object of the document, at any depth, has a member named
/// `properties` whose value is an object.
pub open spec fn has_no_properties_object(v: JsonView) -> bool
    decreases v,
{
    match v {
        JsonView::Array(items) => forall|i: int|
            0 <= i < items.len() ==> has_no_properties_object(#[trigger] items[i]),
        JsonView::Object(members) => forall|i: int|
            0 <= i < members.len() ==> !is_container(#[trigger] members[i])
                && has_no_properties_object(members[i].1),
        _ => true,
    }
}

/// Whether a member is a `properties` object: one that is merged up.
pub open spec fn is_container(m: (Seq<char>, JsonView)) -> bool {
    m.0 == properties_key() && m.1 is Object
}

/// Where the member that `flatten` merges up is an object, it is the
/// normal form of a `properties` object among the members, and every member
/// under another name is a member in normal form.
pub proof fn lemma_merged_container(members: MembersView)
    requires
        member(normalize_members(members), properties_key()) is Some,
        member(normalize_members(members), properties_key()).unwrap() is Object,
    ensures
        ({
            let at = member_index(normalize_members(members), properties_key()).unwrap();
            &&& 0 <= at < members.len()
            &&& is_container(members[at])
            &&& normalize_members(members)[at].1 == JsonView::Object(
                normalize_values(members[at].1->Object_0),
            )
        }),
        forall|j: int|
            0 <= j < members.len() && members[j].0 != properties_key() ==> (
            #[trigger] normalize_members(members)[j]) == (members[j].0, normalize(members[j].1)),
{
    let nm = normalize_members(members);
    lemma_member_index(nm, properties_key());
    let at = member_index(nm, properties_key()).unwrap();
    assert(nm[at].1 == normalize_member(members[at].0, members[at].1));
}

/// Where no two members have the same name and `flatten` finds no
/// `properties` object, every member is a member in normal form, and none is
/// a `properties` object.
pub proof fn lemma_plain_members(members: MembersView)
    requires
        keys_unique(members),
        !(member(normalize_members(members), properties_key()) is Some && member(
            normalize_members(members),
            properties_key(),
        ).unwrap() is Object),
    ensures
        flatten(normalize_members(members)) == normalize_members(members),
        forall|i: int|
            0 <= i < members.len() ==> !is_container(#[trigger] members[i]) && normalize_members(
                members,
            )[i] == (members[i].0, normalize(members[i].1)),
{
    let nm = normalize_members(members);
    let key = properties_key();
    assert forall|i: int| 0 <= i < members.len() implies !is_container(#[trigger] members[i])
        && nm[i] == (members[i].0, normalize(members[i].1)) by {
        assert(nm[i].1 == normalize_member(members[i].0, members[i].1));
        if is_container(members[i]) {
            assert forall|j: int| 0 <= j < i implies nm[j].0 != key by {
                assert(nm[j].0 == members[j].0);
            }
            lemma_member_index_is(nm, key, i);
        }
    }
}

/// A `properties` object among members with names all apart is what
/// `flatten` finds after the members are normalized.
pub proof fn lemma_container_is_found(members: MembersView, i: int)
    requires
        keys_unique(members),
        0 <= i < members.len(),
        is_container(members[i]),
    ensures
        member(members, properties_key()) == Some(members[i].1),
        member(normalize_members(members), properties_key()) == Some(
            normalize_members(members)[i].1,
        ),
        normalize_members(members)[i].1 is Object,
{
    let nm = normalize_members(members);
    let key = properties_key();
    assert(nm[i].1 == normalize_member(members[i].0, members[i].1));
    assert forall|j: int| 0 <= j < i implies nm[j].0 != key && members[j].0 != key by {
        assert(nm[j].0 == members[j].0);
    }
    lemma_member_index_is(nm, key, i);
    lemma_member_index_is(members, key, i);
}

/// Members without a bookkeeping one are what `strip` leaves of them.
pub proof fn lemma_strip_identity(members: MembersView)
    requires
        forall|i: int| 0 <= i < members.len() ==> !is_bookkeeping((#[trigger] members[i]).0),
    ensures
        strip(members) == members,
    decreases members.len(),
{
    if members.len() > 0 {
        let rest = members.drop_last();
        assert forall|i: int| 0 <= i < rest.len() implies !is_bookkeeping(
            (#[trigger] rest[i]).0,
        ) by {
            assert(rest[i] == members[i]);
        }
        lemma_strip_identity(rest);
        assert(members.last() == members[members.len() - 1]);
        assert(rest.push(members.last()) =~= members);
    }
}

/// Every member that `strip` leaves is one of the members, and none is
/// bookkeeping.
pub proof fn lemma_strip_members(members: MembersView)
    ensures
        forall|i: int|
            0 <= i < strip(members).len() ==> !is_bookkeeping((#[trigger] strip(members)[i]).0)
                && members.contains(strip(members)[i]),
    decreases members.len(),
{
    if members.len() > 0 {
        let rest = members.drop_last();
        lemma_strip_members(rest);
        assert forall|i: int| 0 <= i < strip(members).len() implies !is_bookkeeping(
            (#[trigger] strip(members)[i]).0,
        ) && members.contains(strip(members)[i]) by {
            if i < strip(rest).len() {
                let j = choose|j: int| 0 <= j < rest.len() && rest[j] == strip(rest)[i];
                assert(members[j] == strip(members)[i]);
            } else {
                assert(members[members.len() - 1] == strip(members)[i]);
            }
        }
    }
}

/// Every member that `without_key` leaves is one of the members, under
/// another name.
pub proof fn lemma_without_key_members(members: MembersView, key: Seq<char>)
    ensures
        forall|i: int|
            0 <= i < without_key(members, key).len() ==> (#[trigger] without_key(
                members,
                key,
            )[i]).0 != key && members.contains(without_key(members, key)[i]),
    decreases members.len(),
{
    if members.len() > 0 {
        let rest = members.drop_last();
        lemma_without_key_members(rest, key);
        let out = without_key(members, key);
        assert forall|i: int| 0 <= i < out.len() implies (#[trigger] out[i]).0 != key
            && members.contains(out[i]) by {
            if i < without_key(rest, key).len() {
                let j = choose|j: int| 0 <= j < rest.len() && rest[j] == without_key(rest, key)[i];
                assert(members[j] == out[i]);
            } else {
                assert(members[members.len() - 1] == out[i]);
            }
        }
    }
}

/// Every member of a merge is a member of one of the two lists.
pub proof fn lemma_merge_members(members: MembersView, props: MembersView)
    ensures
        forall|i: int|
            0 <= i < merge(members, props).len() ==> members.contains(
                #[trigger] merge(members, props)[i],
            ) || props.contains(merge(members, props)[i]),
    decreases props.len(),
{
    let out = merge(members, props);
    if props.len() > 0 {
        let rest = props.drop_last();
        let last = props.last();
        lemma_merge_members(members, rest);
        let before = merge(members, rest);
        lemma_member_index(before, last.0);
        assert forall|i: int| 0 <= i < out.len() implies members.contains(#[trigger] out[i])
            || props.contains(out[i]) by {
            if out[i] == last {
                assert(props[props.len() - 1] == out[i]);
            } else {
                assert(out[i] == before[i]);
                if rest.contains(before[i]) {
                    let j = choose|j: int| 0 <= j < rest.len() && rest[j] == before[i];
                    assert(props[j] == out[i]);
                }
            }
        }
    } else {
        assert forall|i: int| 0 <= i < out.len() implies members.contains(#[trigger] out[i])
            || props.contains(out[i]) by {
            assert(members[i] == out[i]);
        }
    }
}

/// A document without bookkeeping members and without `properties` objects
/// is its own normal form: normalizing an already-normalized value is a no-op.
pub proof fn lemma_normal_form_is_fixed(v: JsonView)
    requires
        has_no_bookkeeping(v),
        has_no_properties_object(v),
    ensures
        normalize(v) == v,
    decreases v,
{
    match v {
        JsonView::Array(items) => {
            assert forall|i: int| 0 <= i < items.len() implies normalize(items[i])
                == items[i] by {
                lemma_normal_form_is_fixed(items[i]);
            }
            assert(normalize_items(items) =~= items);
        },
        JsonView::Object(members) => {
            assert forall|i: int| 0 <= i < members.len() implies normalize_member(
                members[i].0,
                members[i].1,
            ) == members[i].1 by {
                assert(!is_container(members[i]));
                lemma_normal_form_is_fixed(members[i].1);
            }
            assert(normalize_members(members) =~= members);
            lemma_member_index(members, properties_key());
            if member_index(members, properties_key()) is Some {
                let at = member_index(members, properties_key()).unwrap();
                assert(!is_container(members[at]));
            }
            lemma_strip_identity(members);
        },
        _ => {},
    }
}

/// The normal form of a document has no bookkeeping member, at any depth.
pub proof fn lemma_normalize_strips(v: JsonView)
    requires
        is_well_formed(v),
    ensures
        has_no_bookkeeping(normalize(v)),
    decreases v,
{
    match v {
        JsonView::Array(items) => {
            let out = normalize_items(items);
            assert forall|i: int| 0 <= i < out.len() implies has_no_bookkeeping(
                #[trigger] out[i],
            ) by {
                lemma_normalize_strips(items[i]);
                assert(out[i] == normalize(items[i]));
            }
            assert(normalize(v) == JsonView::Array(out));
        },
        JsonView::Object(members) => {
            let nm = normalize_members(members);
            let key = properties_key();
            let kept = without_key(nm, key);
            let flat = flatten(nm);
            let out = strip(flat);
            assert forall|i: int| 0 <= i < flat.len() implies has_no_bookkeeping(
                (#[trigger] flat[i]).1,
            ) by {
                if member(nm, key) is Some && member(nm, key).unwrap() is Object {
                    lemma_merged_container(members);
                    let at = member_index(nm, key).unwrap();
                    let raw = members[at].1->Object_0;
                    let props = normalize_values(raw);
                    lemma_without_key_members(nm, key);
                    lemma_merge_members(kept, props);
                    if kept.contains(flat[i]) {
                        let k = choose|k: int| 0 <= k < kept.len() && kept[k] == flat[i];
                        let j = choose|j: int| 0 <= j < nm.len() && nm[j] == kept[k];
                        assert(members[j].0 == nm[j].0);
                        lemma_normalize_strips(members[j].1);
                    } else {
                        let j = choose|j: int| 0 <= j < props.len() && props[j] == flat[i];
                        assert(is_well_formed(members[at].1));
                        assert(is_well_formed(raw[j].1));
                        lemma_normalize_strips(raw[j].1);
                    }
                } else {
                    lemma_plain_members(members);
                    lemma_normalize_strips(members[i].1);
                }
            }
            lemma_strip_members(flat);
            assert forall|i: int| 0 <= i < out.len() implies !is_bookkeeping((#[trigger] out[i]).0)
                && has_no_bookkeeping(out[i].1) by {
                let j = choose|j: int| 0 <= j < flat.len() && flat[j] == out[i];
            }
        },
        _ => {},
    }
}

/// Normalizing is idempotent, `normalize(normalize(v)) == normalize(v)`,
/// whenever the first pass leaves no `properties` object behind.
pub proof fn lemma_normalize_idempotent(v: JsonView)
    requires
        is_well_formed(v),
        has_no_properties_object(normalize(v)),
    ensures
        normalize(normalize(v)) == normalize(v),
{
    lemma_normalize_strips(v);
    lemma_normal_form_is_fixed(normalize(v));
}

/// How many documents a document holds, itself included.
pub open spec fn size(v: JsonView) -> nat
    decreases v, 0nat,
{
    match v {
        JsonView::Array(items) => 1 + items_size(items),
        JsonView::Object(members) => 1 + members_size(members),
        _ => 1,
    }
}

/// The sizes of the documents of a list, added up.
pub open spec fn items_size(items: Seq<JsonView>) -> nat
    decreases items, 1nat,
{
    if items.len() == 0 {
        0
    } else {
        items_size(items.drop_last()) + size(items.last())
    }
}

/// The sizes of the members of an object, added up; a member counts one more
/// than its value.
pub open spec fn members_size(members: MembersView) -> nat
    decreases members, 1nat,
{
    if members.len() == 0 {
        0
    } else {
        members_size(members.drop_last()) + 1 + size(members.last().1)
    }
}

/// The size of members is that of all but one of them and that one.
pub proof fn lemma_members_size_split(members: MembersView, i: int)
    requires
        0 <= i < members.len(),
    ensures
        members_size(members) == members_size(members.remove(i)) + 1 + size(members[i].1),
    decreases members.len(),
{
    if i == members.len() - 1 {
        assert(members.remove(i) =~= members.drop_last());
    } else {
        lemma_members_size_split(members.drop_last(), i);
        assert(members.remove(i).drop_last() =~= members.drop_last().remove(i));
        assert(members.remove(i).last() == members.last());
    }
}

/// Setting a member adds at most the member to the size.
pub proof fn lemma_insert_size(members: MembersView, key: Seq<char>, value: JsonView)
    ensures
        members_size(insert_member(members, key, value)) <= members_size(members) + 1 + size(value),
{
    lemma_member_index(members, key);
    match member_index(members, key) {
        Some(i) => {
            let out = members.update(i, (key, value));
            lemma_members_size_split(members, i);
            lemma_members_size_split(out, i);
            assert(out.remove(i) =~= members.remove(i));
        },
        None => {
            assert(members.push((key, value)).drop_last() =~= members);
        },
    }
}

/// A merge is no larger than the two lists together.
pub proof fn lemma_merge_size(members: MembersView, props: MembersView)
    ensures
        members_size(merge(members, props)) <= members_size(members) + members_size(props),
    decreases props.len(),
{
    if props.len() > 0 {
        lemma_merge_size(members, props.drop_last());
        lemma_insert_size(merge(members, props.drop_last()), props.last().0, props.last().1);
    }
}

/// What `strip` leaves is no larger.
pub proof fn lemma_strip_size(members: MembersView)
    ensures
        members_size(strip(members)) <= members_size(members),
    decreases members.len(),
{
    if members.len() > 0 {
        lemma_strip_size(members.drop_last());
        if !is_bookkeeping(members.last().0) {
            assert(strip(members).drop_last() =~= strip(members.drop_last()));
        }
    }
}

/// What `without_key` leaves is no larger, and smaller by each member that it
/// takes out.
pub proof fn lemma_without_key_size(members: MembersView, key: Seq<char>, i: int)
    requires
        0 <= i < members.len(),
        members[i].0 == key,
    ensures
        members_size(without_key(members, key)) + 1 + size(members[i].1) <= members_size(members),
    decreases members.len(),
{
    let rest = members.drop_last();
    if i == members.len() - 1 {
        lemma_without_key_size_any(rest, key);
    } else {
        lemma_without_key_size(rest, key, i);
        if members.last().0 != key {
            assert(without_key(members, key).drop_last() =~= without_key(rest, key));
        }
    }
}

/// What `without_key` leaves is no larger.
pub proof fn lemma_without_key_size_any(members: MembersView, key: Seq<char>)
    ensures
        members_size(without_key(members, key)) <= members_size(members),
    decreases members.len(),
{
    if members.len() > 0 {
        lemma_without_key_size_any(members.drop_last(), key);
        if members.last().0 != key {
            assert(without_key(members, key).drop_last() =~= without_key(
                members.drop_last(),
                key,
            ));
        }
    }
}

/// Flattening makes members no larger, and smaller where it merges a
/// `properties` object up.
pub proof fn lemma_flatten_size(members: MembersView)
    ensures
        members_size(flatten(members)) <= members_size(members),
        member(members, properties_key()) is Some && member(
            members,
            properties_key(),
        ).unwrap() is Object ==> members_size(flatten(members)) < members_size(members),
{
    let key = properties_key();
    lemma_member_index(members, key);
    match member_index(members, key) {
        Some(i) => {
            match members[i].1 {
                JsonView::Object(props) => {
                    lemma_without_key_size(members, key, i);
                    lemma_merge_size(without_key(members, key), props);
                },
                _ => {},
            }
        },
        None => {},
    }
}

/// Members with their values normalized are no larger.
pub proof fn lemma_normalize_members_size(members: MembersView, n: int)
    requires
        0 <= n <= members.len(),
    ensures
        members_size(normalize_members(members).take(n)) <= members_size(members.take(n)),
    decreases members, 1nat, n,
{
    if n > 0 {
        lemma_normalize_members_size(members, n - 1);
        let nm = normalize_members(members);
        assert(nm.take(n).drop_last() =~= nm.take(n - 1));
        assert(members.take(n).drop_last() =~= members.take(n - 1));
        assert(nm.take(n).last() == nm[n - 1]);
        assert(members.take(n).last() == members[n - 1]);
        let value = members[n - 1].1;
        assert(nm[n - 1].1 == normalize_member(members[n - 1].0, value));
        if is_container(members[n - 1]) {
            let props = value->Object_0;
            lemma_normalize_values_size(props, props.len() as int);
            assert(props.take(props.len() as int) =~= props);
            assert(normalize_values(props).take(props.len() as int) =~= normalize_values(props));
            assert(nm[n - 1].1 == JsonView::Object(normalize_values(props)));
            assert(size(nm[n - 1].1) == 1 + members_size(normalize_values(props)));
            assert(size(value) == 1 + members_size(props));
        } else {
            assert(nm[n - 1].1 == normalize(value));
            lemma_normalize_size(value);
        }
        assert(size(nm[n - 1].1) <= size(value));
    } else {
        assert(normalize_members(members).take(0) =~= Seq::empty());
        assert(members.take(0) =~= Seq::empty());
    }
}

/// Members with their values normalized are no larger.
pub proof fn lemma_normalize_values_size(members: MembersView, n: int)
    requires
        0 <= n <= members.len(),
    ensures
        members_size(normalize_values(members).take(n)) <= members_size(members.take(n)),
    decreases members, 1nat, n,
{
    if n > 0 {
        lemma_normalize_values_size(members, n - 1);
        let nv = normalize_values(members);
        assert(nv.take(n).drop_last() =~= nv.take(n - 1));
        assert(members.take(n).drop_last() =~= members.take(n - 1));
        assert(nv.take(n).last() == nv[n - 1]);
        assert(members.take(n).last() == members[n - 1]);
        lemma_normalize_size(members[n - 1].1);
    }
}

/// Items normalized are no larger.
pub proof fn lemma_normalize_items_size(items: Seq<JsonView>, n: int)
    requires
        0 <= n <= items.len(),
    ensures
        items_size(normalize_items(items).take(n)) <= items_size(items.take(n)),
    decreases items, 1nat, n,
{
    if n > 0 {
        lemma_normalize_items_size(items, n - 1);
        let ni = normalize_items(items);
        assert(ni.take(n).drop_last() =~= ni.take(n - 1));
        assert(items.take(n).drop_last() =~= items.take(n - 1));
        assert(ni.take(n).last() == ni[n - 1]);
        assert(items.take(n).last() == items[n - 1]);
        lemma_normalize_size(items[n - 1]);
    }
}

/// Normalizing never makes a document larger, and makes an object smaller
/// whose member named `properties` is an object.
pub proof fn lemma_normalize_size(v: JsonView)
    ensures
        size(normalize(v)) <= size(v),
        match v {
            JsonView::Object(members) => member(members, properties_key()) is Some && member(
                members,
                properties_key(),
            ).unwrap() is Object ==> size(normalize(v)) < size(v),
            _ => true,
        },
    decreases v, 0nat,
{
    match v {
        JsonView::Array(items) => {
            lemma_normalize_items_size(items, items.len() as int);
            assert(items.take(items.len() as int) =~= items);
            assert(normalize_items(items).take(items.len() as int) =~= normalize_items(items));
        },
        JsonView::Object(members) => {
            let nm = normalize_members(members);
            lemma_normalize_members_size(members, members.len() as int);
            assert(members.take(members.len() as int) =~= members);
            assert(nm.take(members.len() as int) =~= nm);
            lemma_flatten_size(nm);
            lemma_strip_size(flatten(nm));
            let key = properties_key();
            if member(members, key) is Some && member(members, key).unwrap() is Object {
                lemma_member_index(members, key);
                let i = member_index(members, key).unwrap();
                assert(nm[i].1 == normalize_member(members[i].0, members[i].1));
                assert forall|j: int| 0 <= j < i implies nm[j].0 != key by {
                    assert(nm[j].0 == members[j].0);
                }
                lemma_member_index_is(nm, key, i);
            }
        },
        _ => {},
    }
}

/// A document with a `properties` object somewhere, and no bookkeeping
/// member, is changed by normalizing.
pub proof fn lemma_properties_are_not_fixed(v: JsonView)
    requires
        is_well_formed(v),
        has_no_bookkeeping(v),
        !has_no_properties_object(v),
    ensures
        normalize(v) != v,
    decreases v,
{
    match v {
        JsonView::Array(items) => {
            let i = choose|i: int|
                0 <= i < items.len() && !has_no_properties_object(#[trigger] items[i]);
            lemma_properties_are_not_fixed(items[i]);
            assert(normalize_items(items)[i] == normalize(items[i]));
        },
        JsonView::Object(members) => {
            let key = properties_key();
            let nm = normalize_members(members);
            let i = choose|i: int|
                0 <= i < members.len() && !(!is_container(#[trigger] members[i])
                    && has_no_properties_object(members[i].1));
            if member(nm, key) is Some && member(nm, key).unwrap() is Object {
                lemma_merged_container(members);
                let at = member_index(nm, key).unwrap();
                assert(keys_unique(members));
                lemma_container_is_found(members, at);
                lemma_normalize_size(v);
            } else {
                lemma_plain_members(members);
                lemma_properties_are_not_fixed(members[i].1);
                lemma_strip_identity(nm);
                assert(nm[i].1 == normalize(members[i].1));
            }
        },
        _ => {},
    }
}

/// Normalizing twice gives what normalizing once gives exactly when the
/// first pass leaves no `properties` object behind.
pub proof fn lemma_idempotent_exactly_when(v: JsonView)
    requires
        is_well_formed(v),
    ensures
        normalize(normalize(v)) == normalize(v) <==> has_no_properties_object(normalize(v)),
{
    lemma_normalize_strips(v);
    lemma_normalize_keeps_well_formed(v);
    if has_no_properties_object(normalize(v)) {
        lemma_normal_form_is_fixed(normalize(v));
    } else {
        lemma_properties_are_not_fixed(normalize(v));
    }
}

/// Whether no `properties` object of the document, at any depth, holds a
/// `properties` object of its own.
pub open spec fn nests_no_properties(v: JsonView) -> bool
    decreases v,
{
    match v {
        JsonView::Array(items) => forall|i: int|
            0 <= i < items.len() ==> nests_no_properties(#[trigger] items[i]),
        JsonView::Object(members) => forall|i: int|
            0 <= i < members.len() ==> if is_container(#[trigger] members[i]) {
                match members[i].1 {
                    JsonView::Object(props) => forall|j: int|
                        0 <= j < props.len() ==> !is_container(#[trigger] props[j])
                            && nests_no_properties(props[j].1),
                    _ => true,
                }
            } else {
                nests_no_properties(members[i].1)
            },
        _ => true,
    }
}

/// The normal form of an object is an object, and of no other document.
pub proof fn lemma_object_stays_object(v: JsonView)
    ensures
        normalize(v) is Object <==> v is Object,
{
}

/// Of a document that nests no `properties` object inside another, the
/// normal form has no `properties` object.
pub proof fn lemma_normalize_flattens(v: JsonView)
    requires
        is_well_formed(v),
        nests_no_properties(v),
    ensures
        has_no_properties_object(normalize(v)),
    decreases v,
{
    match v {
        JsonView::Array(items) => {
            let out = normalize_items(items);
            assert forall|i: int| 0 <= i < out.len() implies has_no_properties_object(
                #[trigger] out[i],
            ) by {
                lemma_normalize_flattens(items[i]);
                assert(out[i] == normalize(items[i]));
            }
            assert(normalize(v) == JsonView::Array(out));
        },
        JsonView::Object(members) => {
            let nm = normalize_members(members);
            let key = properties_key();
            let kept = without_key(nm, key);
            let flat = flatten(nm);
            let out = strip(flat);
            assert forall|i: int| 0 <= i < flat.len() implies !is_container(#[trigger] flat[i])
                && has_no_properties_object(flat[i].1) by {
                if member(nm, key) is Some && member(nm, key).unwrap() is Object {
                    lemma_merged_container(members);
                    let at = member_index(nm, key).unwrap();
                    let raw = members[at].1->Object_0;
                    let props = normalize_values(raw);
                    lemma_without_key_members(nm, key);
                    lemma_merge_members(kept, props);
                    if kept.contains(flat[i]) {
                        let k = choose|k: int| 0 <= k < kept.len() && kept[k] == flat[i];
                        let j = choose|j: int| 0 <= j < nm.len() && nm[j] == kept[k];
                        assert(members[j].0 == nm[j].0);
                        assert(!is_container(members[j]));
                        lemma_normalize_flattens(members[j].1);
                    } else {
                        let j = choose|j: int| 0 <= j < props.len() && props[j] == flat[i];
                        assert(!is_container(raw[j]));
                        assert(is_well_formed(members[at].1));
                        assert(is_well_formed(raw[j].1));
                        lemma_object_stays_object(raw[j].1);
                        lemma_normalize_flattens(raw[j].1);
                    }
                } else {
                    lemma_plain_members(members);
                    lemma_object_stays_object(members[i].1);
                    lemma_normalize_flattens(members[i].1);
                }
            }
            lemma_strip_members(flat);
            assert forall|i: int| 0 <= i < out.len() implies !is_container(#[trigger] out[i])
                && has_no_properties_object(out[i].1) by {
                let j = choose|j: int| 0 <= j < flat.len() && flat[j] == out[i];
            }
        },
        _ => {},
    }
}

/// Normalizing is idempotent on every document that nests no `properties`
/// object inside another.
pub proof fn lemma_normalize_idempotent_on_flat(v: JsonView)
    requires
        is_well_formed(v),
        nests_no_properties(v),
    ensures
        normalize(normalize(v)) == normalize(v),
{
    lemma_normalize_flattens(v);
    lemma_normalize_idempotent(v);
}

/// What `without_key` leaves keeps its names apart.
pub proof fn lemma_without_key_keeps_keys_unique(members: MembersView, key: Seq<char>)
    requires
        keys_unique(members),
    ensures
        keys_unique(without_key(members, key)),
    decreases members.len(),
{
    if members.len() > 0 {
        let rest = members.drop_last();
        assert(keys_unique(rest)) by {
            assert forall|i: int, j: int| 0 <= i < j < rest.len() implies rest[i].0
                != rest[j].0 by {
                assert(rest[i] == members[i] && rest[j] == members[j]);
            }
        }
        lemma_without_key_keeps_keys_unique(rest, key);
        lemma_without_key_members(rest, key);
        let out = without_key(members, key);
        let before = without_key(rest, key);
        assert forall|i: int, j: int| 0 <= i < j < out.len() implies out[i].0 != out[j].0 by {
            if j == before.len() {
                let k = choose|k: int| 0 <= k < rest.len() && rest[k] == before[i];
                assert(members[k] == out[i]);
                assert(members[members.len() - 1] == out[j]);
            } else {
                assert(out[i] == before[i] && out[j] == before[j]);
            }
        }
    }
}

/// What `strip` leaves keeps its names apart.
pub proof fn lemma_strip_keeps_keys_unique(members: MembersView)
    requires
        keys_unique(members),
    ensures
        keys_unique(strip(members)),
    decreases members.len(),
{
    if members.len() > 0 {
        let rest = members.drop_last();
        assert(keys_unique(rest)) by {
            assert forall|i: int, j: int| 0 <= i < j < rest.len() implies rest[i].0
                != rest[j].0 by {
                assert(rest[i] == members[i] && rest[j] == members[j]);
            }
        }
        lemma_strip_keeps_keys_unique(rest);
        lemma_strip_members(rest);
        let out = strip(members);
        let before = strip(rest);
        assert forall|i: int, j: int| 0 <= i < j < out.len() implies out[i].0 != out[j].0 by {
            if j == before.len() {
                let k = choose|k: int| 0 <= k < rest.len() && rest[k] == before[i];
                assert(members[k] == out[i]);
                assert(members[members.len() - 1] == out[j]);
            } else {
                assert(out[i] == before[i] && out[j] == before[j]);
            }
        }
    }
}

/// A merge keeps the names of the members apart.
pub proof fn lemma_merge_keeps_keys_unique(members: MembersView, props: MembersView)
    requires
        keys_unique(members),
    ensures
        keys_unique(merge(members, props)),
    decreases props.len(),
{
    if props.len() > 0 {
        lemma_merge_keeps_keys_unique(members, props.drop_last());
        lemma_insert_keeps_keys_unique(
            merge(members, props.drop_last()),
            props.last().0,
            props.last().1,
        );
    }
}

/// The normal form of a document in which no object names a member twice is
/// such a document too.
pub proof fn lemma_normalize_keeps_well_formed(v: JsonView)
    requires
        is_well_formed(v),
    ensures
        is_well_formed(normalize(v)),
    decreases v,
{
    match v {
        JsonView::Array(items) => {
            let out = normalize_items(items);
            assert forall|i: int| 0 <= i < out.len() implies is_well_formed(#[trigger] out[i]) by {
                lemma_normalize_keeps_well_formed(items[i]);
                assert(out[i] == normalize(items[i]));
            }
            assert(normalize(v) == JsonView::Array(out));
        },
        JsonView::Object(members) => {
            let nm = normalize_members(members);
            let key = properties_key();
            let kept = without_key(nm, key);
            let flat = flatten(nm);
            let out = strip(flat);
            assert(keys_unique(nm)) by {
                assert forall|i: int, j: int| 0 <= i < j < nm.len() implies nm[i].0 != nm[j].0 by {
                    assert(nm[i].0 == members[i].0 && nm[j].0 == members[j].0);
                }
            }
            assert(keys_unique(flat) && forall|i: int|
                0 <= i < flat.len() ==> is_well_formed((#[trigger] flat[i]).1)) by {
                if member(nm, key) is Some && member(nm, key).unwrap() is Object {
                    lemma_merged_container(members);
                    let at = member_index(nm, key).unwrap();
                    let raw = members[at].1->Object_0;
                    let props = normalize_values(raw);
                    assert(is_well_formed(members[at].1));
                    lemma_without_key_keeps_keys_unique(nm, key);
                    lemma_without_key_members(nm, key);
                    lemma_merge_keeps_keys_unique(kept, props);
                    lemma_merge_members(kept, props);
                    assert forall|i: int| 0 <= i < flat.len() implies is_well_formed(
                        (#[trigger] flat[i]).1,
                    ) by {
                        if kept.contains(flat[i]) {
                            let k = choose|k: int| 0 <= k < kept.len() && kept[k] == flat[i];
                            let j = choose|j: int| 0 <= j < nm.len() && nm[j] == kept[k];
                            assert(members[j].0 == nm[j].0);
                            lemma_normalize_keeps_well_formed(members[j].1);
                        } else {
                            let j = choose|j: int| 0 <= j < props.len() && props[j] == flat[i];
                            lemma_normalize_keeps_well_formed(raw[j].1);
                        }
                    }
                } else {
                    lemma_plain_members(members);
                    assert forall|i: int| 0 <= i < flat.len() implies is_well_formed(
                        (#[trigger] flat[i]).1,
                    ) by {
                        lemma_normalize_keeps_well_formed(members[i].1);
                    }
                }
            }
            lemma_strip_keeps_keys_unique(flat);
            lemma_strip_members(flat);
            assert forall|i: int| 0 <= i < out.len() implies is_well_formed(
                (#[trigger] out[i]).1,
            ) by {
                let j = choose|j: int| 0 <= j < flat.len() && flat[j] == out[i];
            }
        },
        _ => {},
    }
}

} // verus!
