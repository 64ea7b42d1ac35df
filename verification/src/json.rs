//! JSON documents as the library holds them: parameter objects, request
//! payloads and query results.

use crate::text::{decimal, decimal_text, str_equal};
use serde_json::Value as Outside;
use vstd::prelude::*;

verus! {

/// A JSON number.
///
/// `Float` carries the decimal text of a number that is no integer of 64 bits.
#[derive(Debug, PartialEq)]
pub enum JsonNumber {
    PosInt(u64),
    NegInt(i64),
    Float(String),
}

/// The mathematical value of a [`JsonNumber`].
pub enum JsonNumberView {
    PosInt(u64),
    NegInt(i64),
    Float(Seq<char>),
}

impl View for JsonNumber {
    type V = JsonNumberView;

    open spec fn view(&self) -> JsonNumberView {
        match *self {
            JsonNumber::PosInt(u) => JsonNumberView::PosInt(u),
            JsonNumber::NegInt(i) => JsonNumberView::NegInt(i),
            JsonNumber::Float(t) => JsonNumberView::Float(t@),
        }
    }
}

impl Clone for JsonNumber {
    fn clone(&self) -> (r: Self)
        ensures
            r@ == self@,
    {
        match self {
            JsonNumber::PosInt(u) => JsonNumber::PosInt(*u),
            JsonNumber::NegInt(i) => JsonNumber::NegInt(*i),
            JsonNumber::Float(t) => JsonNumber::Float(t.clone()),
        }
    }
}

/// A JSON document. An object keeps its members in the order given.
#[derive(Debug, PartialEq)]
pub enum Json {
    Null,
    Bool(bool),
    Number(JsonNumber),
    String(String),
    Array(Vec<Json>),
    Object(Vec<(String, Json)>),
}

/// The mathematical value of a [`Json`] document.
pub enum JsonView {
    Null,
    Bool(bool),
    Number(JsonNumberView),
    String(Seq<char>),
    Array(Seq<JsonView>),
    Object(Seq<(Seq<char>, JsonView)>),
}

/// The views of a sequence of documents, item by item.
pub open spec fn items_view(items: Seq<Json>) -> Seq<JsonView>
    decreases items,
{
    Seq::new(
        items.len(),
        |i: int|
            if 0 <= i < items.len() {
                json_view(items[i])
            } else {
                arbitrary()
            },
    )
}

/// The views of an object's members, member by member.
pub open spec fn members_view(members: Seq<(String, Json)>) -> Seq<(Seq<char>, JsonView)>
    decreases members,
{
    Seq::new(
        members.len(),
        |i: int|
            if 0 <= i < members.len() {
                (members[i].0@, json_view(members[i].1))
            } else {
                arbitrary()
            },
    )
}

/// The view of a document.
pub open spec fn json_view(v: Json) -> JsonView
    decreases v,
{
    match v {
        Json::Null => JsonView::Null,
        Json::Bool(b) => JsonView::Bool(b),
        Json::Number(n) => JsonView::Number(n@),
        Json::String(s) => JsonView::String(s@),
        Json::Array(items) => JsonView::Array(items_view(items@)),
        Json::Object(members) => JsonView::Object(members_view(members@)),
    }
}

impl View for Json {
    type V = JsonView;

    open spec fn view(&self) -> JsonView {
        json_view(*self)
    }
}

/// The index of the first member named `key`, if there is one.
pub open spec fn member_index(members: Seq<(Seq<char>, JsonView)>, key: Seq<char>) -> Option<int>
    decreases members.len(),
{
    if members.len() == 0 {
        None
    } else if members[0].0 == key {
        Some(0)
    } else {
        match member_index(members.skip(1), key) {
            Some(i) => Some(i + 1),
            None => None,
        }
    }
}

/// The value of the first member named `key`, if there is one.
pub open spec fn member(members: Seq<(Seq<char>, JsonView)>, key: Seq<char>) -> Option<JsonView> {
    match member_index(members, key) {
        Some(i) => Some(members[i].1),
        None => None,
    }
}

/// What `index` of an object by a name gives: the member's value, and nothing
/// of a document that is no object.
pub open spec fn get_spec(v: JsonView, key: Seq<char>) -> Option<JsonView> {
    match v {
        JsonView::Object(members) => member(members, key),
        _ => None,
    }
}

/// `member_index` finds a member with the key, and none stands before it.
pub proof fn lemma_member_index(members: Seq<(Seq<char>, JsonView)>, key: Seq<char>)
    ensures
        match member_index(members, key) {
            Some(i) => 0 <= i < members.len() && members[i].0 == key && forall|j: int|
                0 <= j < i ==> members[j].0 != key,
            None => forall|j: int| 0 <= j < members.len() ==> members[j].0 != key,
        },
    decreases members.len(),
{
    if members.len() > 0 && members[0].0 != key {
        lemma_member_index(members.skip(1), key);
        match member_index(members.skip(1), key) {
            Some(i) => {
                assert forall|j: int| 0 <= j < i + 1 implies members[j].0 != key by {
                    if j > 0 {
                        assert(members.skip(1)[j - 1] == members[j]);
                    }
                }
            },
            None => {
                assert forall|j: int| 0 <= j < members.len() implies members[j].0 != key by {
                    if j > 0 {
                        assert(members.skip(1)[j - 1] == members[j]);
                    }
                }
            },
        }
    }
}

/// An index with the key before which no member has it is what `member_index` finds.
pub proof fn lemma_member_index_is(members: Seq<(Seq<char>, JsonView)>, key: Seq<char>, i: int)
    requires
        0 <= i < members.len(),
        members[i].0 == key,
        forall|j: int| 0 <= j < i ==> members[j].0 != key,
    ensures
        member_index(members, key) == Some(i),
{
    lemma_member_index(members, key);
}

/// No member has the key: `member_index` finds none.
pub proof fn lemma_member_index_none(members: Seq<(Seq<char>, JsonView)>, key: Seq<char>)
    requires
        forall|j: int| 0 <= j < members.len() ==> members[j].0 != key,
    ensures
        member_index(members, key) is None,
{
    lemma_member_index(members, key);
}

impl Json {
    /// The member of an object by its name; `None` of any other document.
    pub fn get(&self, key: &str) -> (r: Option<&Json>)
        ensures
            match r {
                Some(found) => get_spec(self@, key@) == Some(found@),
                None => get_spec(self@, key@) is None,
            },
    {
        match self {
            Json::Object(members) => {
                let mut i: usize = 0;
                while i < members.len()
                    invariant
                        i <= members.len(),
                        self@ == JsonView::Object(members_view(members@)),
                        forall|j: int| 0 <= j < i ==> members[j].0@ != key@,
                    decreases members.len() - i,
                {
                    if str_equal(members[i].0.as_str(), key) {
                        proof {
                            let mv = members_view(members@);
                            assert(forall|j: int| 0 <= j < i ==> mv[j].0 == members[j].0@);
                            lemma_member_index_is(mv, key@, i as int);
                        }
                        return Some(&members[i].1);
                    }
                    i += 1;
                }
                proof {
                    let mv = members_view(members@);
                    assert(forall|j: int| 0 <= j < mv.len() ==> mv[j].0 == members[j].0@);
                    lemma_member_index_none(mv, key@);
                }
                None
            },
            _ => None,
        }
    }

    /// The text of a string document.
    pub fn as_str(&self) -> (r: Option<&str>)
        ensures
            match r {
                Some(s) => self@ == JsonView::String(s@),
                None => !(self@ is String),
            },
    {
        match self {
            Json::String(s) => Some(s.as_str()),
            _ => None,
        }
    }

    /// A deep copy.
    pub fn duplicate(&self) -> (r: Json)
        ensures
            r@ == self@,
        decreases self,
    {
        match self {
            Json::Null => Json::Null,
            Json::Bool(b) => Json::Bool(*b),
            Json::Number(n) => Json::Number(n.clone()),
            Json::String(s) => Json::String(s.clone()),
            Json::Array(items) => Json::Array(duplicate_items(items)),
            Json::Object(members) => Json::Object(duplicate_members(members)),
        }
    }
}

/// A deep copy of a list of documents.
pub fn duplicate_items(items: &Vec<Json>) -> (out: Vec<Json>)
    ensures
        items_view(out@) == items_view(items@),
    decreases items,
{
    let mut out: Vec<Json> = Vec::new();
    let mut i: usize = 0;
    while i < items.len()
        invariant
            i <= items.len(),
            out.len() == i,
            forall|k: int| 0 <= k < i ==> out[k]@ == items[k]@,
        decreases items.len() - i,
    {
        out.push(items[i].duplicate());
        i += 1;
    }
    assert(items_view(out@) =~= items_view(items@));
    out
}

/// A deep copy of an object's members.
pub fn duplicate_members(members: &Vec<(String, Json)>) -> (out: Vec<(String, Json)>)
    ensures
        members_view(out@) == members_view(members@),
    decreases members,
{
    let mut out: Vec<(String, Json)> = Vec::new();
    let mut i: usize = 0;
    while i < members.len()
        invariant
            i <= members.len(),
            out.len() == i,
            forall|k: int| 0 <= k < i ==> out[k].0@ == members[k].0@ && out[k].1@ == members[k].1@,
        decreases members.len() - i,
    {
        out.push((members[i].0.clone(), members[i].1.duplicate()));
        i += 1;
    }
    assert(members_view(out@) =~= members_view(members@));
    out
}

impl Clone for Json {
    fn clone(&self) -> (r: Self)
        ensures
            r@ == self@,
    {
        self.duplicate()
    }
}

/// The members of an object, in order.
pub type MembersView = Seq<(Seq<char>, JsonView)>;

/// The members with `key` set to `value`: in place where there is such a
/// member, at the end where there is none.
pub open spec fn insert_member(members: MembersView, key: Seq<char>, value: JsonView) -> MembersView {
    match member_index(members, key) {
        Some(i) => members.update(i, (key, value)),
        None => members.push((key, value)),
    }
}

/// Sets `key` to `value`: in place where there is such a member, at the end
/// where there is none.
pub fn insert_into(members: &mut Vec<(String, Json)>, key: String, value: Json)
    ensures
        members_view(final(members)@) == insert_member(
            members_view(old(members)@),
            key@,
            value@,
        ),
{
    let ghost all = members_view(members@);
    let mut i: usize = 0;
    while i < members.len()
        invariant
            i <= members.len(),
            *members == *old(members),
            all == members_view(members@),
            forall|j: int| 0 <= j < i ==> all[j].0 != key@,
        decreases members.len() - i,
    {
        if str_equal(members[i].0.as_str(), key.as_str()) {
            proof {
                assert(all[i as int].0 == members[i as int].0@);
                lemma_member_index_is(all, key@, i as int);
                assert(all == members_view(old(members)@));
            }
            members.set(i, (key, value));
            proof {
                assert(members_view(members@) =~= all.update(i as int, (key@, value@)));
            }
            return ;
        }
        i += 1;
    }
    proof {
        lemma_member_index_none(all, key@);
    }
    members.push((key, value));
    proof {
        assert(members_view(members@) =~= all.push((key@, value@)));
    }
}

/// Whether no two members have the same name.
pub open spec fn keys_unique(members: MembersView) -> bool {
    forall|i: int, j: int| 0 <= i < j < members.len() ==> members[i].0 != members[j].0
}

/// Whether a document is one that JSON text can spell: in every object, at
/// any depth, no two members have the same name.
pub open spec fn is_well_formed(v: JsonView) -> bool
    decreases v,
{
    match v {
        JsonView::Array(items) => forall|i: int|
            0 <= i < items.len() ==> is_well_formed(#[trigger] items[i]),
        JsonView::Object(members) => keys_unique(members) && forall|i: int|
            0 <= i < members.len() ==> is_well_formed((#[trigger] members[i]).1),
        _ => true,
    }
}

/// Setting a member keeps the names of the members apart.
pub proof fn lemma_insert_keeps_keys_unique(members: MembersView, key: Seq<char>, value: JsonView)
    requires
        keys_unique(members),
    ensures
        keys_unique(insert_member(members, key, value)),
{
    lemma_member_index(members, key);
}

/// Setting a member to a well-formed value keeps an object well formed.
pub proof fn lemma_insert_keeps_well_formed(members: MembersView, key: Seq<char>, value: JsonView)
    requires
        is_well_formed(JsonView::Object(members)),
        is_well_formed(value),
    ensures
        is_well_formed(JsonView::Object(insert_member(members, key, value))),
{
    lemma_insert_keeps_keys_unique(members, key, value);
    lemma_member_index(members, key);
    let out = insert_member(members, key, value);
    assert forall|i: int| 0 <= i < out.len() implies is_well_formed((#[trigger] out[i]).1) by {
        if out[i] != (key, value) {
            assert(out[i] == members[i]);
        }
    }
}

#[verifier::external_type_specification]
#[verifier::external_body]
pub struct ExOutside(Outside);

/// The compact JSON text of a document, as `serde_json` writes it.
pub uninterp spec fn compact_text(v: JsonView) -> Seq<char>;

/// The compact JSON text of a document: `null`, `true` and `false`, an
/// integer in decimal digits, and anything else as `serde_json` writes it.
pub open spec fn text_of(v: JsonView) -> Seq<char> {
    match v {
        JsonView::Null => "null"@,
        JsonView::Bool(b) => if b {
            "true"@
        } else {
            "false"@
        },
        JsonView::Number(JsonNumberView::PosInt(u)) => decimal(u as nat),
        JsonView::Number(JsonNumberView::NegInt(i)) => if i < 0 {
            "-"@ + decimal((-i) as nat)
        } else {
            decimal(i as nat)
        },
        _ => compact_text(v),
    }
}

/// What `serde_json` reads a text as: the document, or why it is none.
pub uninterp spec fn document_of(text: Seq<char>) -> Result<JsonView, Seq<char>>;

/// What `serde_json` reads a text as when it expects a JSON string: the
/// string's content, or why the text is none.
pub uninterp spec fn string_of(text: Seq<char>) -> Result<Seq<char>, Seq<char>>;

/// Builds the `serde_json::Value` with the same content, by its constructors.
/// The text of a `Float` is read by `serde_json::from_str`; one that is no
/// number gives `null`.
#[verifier::external_body]
fn to_outside(v: &Json) -> Outside {
    match v {
        Json::Null => Outside::Null,
        Json::Bool(b) => Outside::Bool(*b),
        Json::Number(JsonNumber::PosInt(u)) => Outside::from(*u),
        Json::Number(JsonNumber::NegInt(i)) => Outside::from(*i),
        Json::Number(JsonNumber::Float(t)) => serde_json::from_str(t).unwrap_or(Outside::Null),
        Json::String(s) => Outside::String(s.clone()),
        Json::Array(items) => Outside::Array(items.iter().map(to_outside).collect()),
        Json::Object(members) => Outside::Object(
            members.iter().map(|m| (m.0.clone(), to_outside(&m.1))).collect(),
        ),
    }
}

/// Reads a `serde_json::Value` variant by variant. A number that
/// `serde_json` holds as an unsigned or a signed integer of 64 bits is that
/// integer; any other number is carried by the text that `serde_json` writes
/// for it. The members of an object come in the order in which `serde_json`
/// walks them.
#[verifier::external_body]
fn from_outside(v: &Outside) -> Json {
    match v {
        Outside::Null => Json::Null,
        Outside::Bool(b) => Json::Bool(*b),
        Outside::Number(n) => Json::Number(match (n.as_u64(), n.as_i64()) {
            (Some(u), _) => JsonNumber::PosInt(u),
            (_, Some(i)) => JsonNumber::NegInt(i),
            _ => JsonNumber::Float(n.to_string()),
        }),
        Outside::String(s) => Json::String(s.clone()),
        Outside::Array(a) => Json::Array(a.iter().map(from_outside).collect()),
        Outside::Object(o) => Json::Object(o.iter().map(|m| (m.0.clone(), from_outside(m.1))).collect()),
    }
}

/// `serde_json::Value::to_string`: the compact text of the document. The text
/// depends on the document alone.
#[verifier::external_body]
fn outside_text(v: &Json) -> (r: String)
    ensures
        r@ == compact_text(v@),
{
    to_outside(v).to_string()
}

/// `serde_json::from_str` for a `serde_json::Value`: the document that the
/// text spells, or the text of the error. Both depend on the text alone. An
/// object of `serde_json` is a map, so no object of the document names a
/// member twice.
#[verifier::external_body]
fn outside_document(text: &str) -> (r: Result<Json, String>)
    ensures
        match r {
            Ok(v) => document_of(text@) == Ok::<JsonView, Seq<char>>(v@) && is_well_formed(v@),
            Err(detail) => document_of(text@) == Err::<JsonView, Seq<char>>(detail@),
        },
{
    serde_json::from_str::<Outside>(text).map(|v| from_outside(&v)).map_err(|e| e.to_string())
}

/// `serde_json::from_str` for a `String`: the content of the JSON string that
/// the text spells, or the text of the error. Both depend on the text alone.
#[verifier::external_body]
fn outside_string(text: &str) -> (r: Result<String, String>)
    ensures
        match r {
            Ok(s) => string_of(text@) == Ok::<Seq<char>, Seq<char>>(s@),
            Err(detail) => string_of(text@) == Err::<Seq<char>, Seq<char>>(detail@),
        },
{
    serde_json::from_str::<String>(text).map_err(|e| e.to_string())
}

impl Json {
    /// The compact JSON text of the document.
    pub fn to_text(&self) -> (r: String)
        ensures
            r@ == text_of(self@),
    {
        match self {
            Json::Null => String::from_str("null"),
            Json::Bool(b) => {
                if *b {
                    String::from_str("true")
                } else {
                    String::from_str("false")
                }
            },
            Json::Number(JsonNumber::PosInt(u)) => decimal_text(*u),
            Json::Number(JsonNumber::NegInt(i)) => {
                if *i < 0 {
                    let magnitude: u64 = ((-(*i + 1)) as u64) + 1;
                    String::from_str("-").concat(decimal_text(magnitude).as_str())
                } else {
                    decimal_text(*i as u64)
                }
            },
            _ => outside_text(self),
        }
    }

    /// The document that a JSON text spells, or why it spells none. No object
    /// of the document names a member twice.
    pub fn parse(text: &str) -> (r: Result<Json, String>)
        ensures
            match r {
                Ok(v) => document_of(text@) == Ok::<JsonView, Seq<char>>(v@) && is_well_formed(
                    v@,
                ),
                Err(detail) => document_of(text@) == Err::<JsonView, Seq<char>>(detail@),
            },
    {
        outside_document(text)
    }

    /// The content of the JSON string that a text spells, or why it spells none.
    pub fn parse_string(text: &str) -> (r: Result<String, String>)
        ensures
            match r {
                Ok(s) => string_of(text@) == Ok::<Seq<char>, Seq<char>>(s@),
                Err(detail) => string_of(text@) == Err::<Seq<char>, Seq<char>>(detail@),
            },
    {
        outside_string(text)
    }
}

} // verus!
