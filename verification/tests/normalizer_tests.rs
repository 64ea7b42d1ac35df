use helixdb_explorer::json::{Json, JsonNumber};
use helixdb_explorer::normalizer::normalize_value;

fn parse(text: &str) -> Json {
    Json::parse(text).unwrap()
}

fn object(members: Vec<(&str, Json)>) -> Json {
    Json::Object(members.into_iter().map(|(k, v)| (k.to_string(), v)).collect())
}

fn string(s: &str) -> Json {
    Json::String(s.to_string())
}

fn number(n: u64) -> Json {
    Json::Number(JsonNumber::PosInt(n))
}

#[test]
fn properties_are_merged_up_and_bookkeeping_removed() {
    let raw = object(vec![
        ("id", string("1")),
        ("properties", object(vec![("name", string("a"))])),
        ("version", number(3)),
    ]);
    assert_eq!(normalize_value(raw), object(vec![("id", string("1")), ("name", string("a"))]));
}

#[test]
fn normalizing_twice_is_normalizing_once() {
    let raw = parse(
        "[{\"id\":\"1\",\"label\":\"User\",\"properties\":{\"name\":\"a\",\"tags\":[{\"version\":1,\"t\":2}]},\
         \"out_edges\":[1],\"in_edges\":[],\"vectors\":null,\"version\":3},\
         {\"id\":\"2\",\"name\":\"b\"}, 7, \"s\", null]",
    );
    let once = normalize_value(raw);
    assert_eq!(
        once,
        parse(
            "[{\"id\":\"1\",\"label\":\"User\",\"name\":\"a\",\"tags\":[{\"t\":2}]},\
             {\"id\":\"2\",\"name\":\"b\"}, 7, \"s\", null]"
        )
    );
    assert_eq!(normalize_value(once.clone()), once);
}

#[test]
fn an_already_normal_value_is_left_as_it_is() {
    let normal = object(vec![
        ("z", number(1)),
        ("a", Json::Array(vec![object(vec![("id", string("x"))]), Json::Bool(false)])),
    ]);
    assert_eq!(normalize_value(normal.clone()), normal);
}

#[test]
fn merged_members_replace_in_place_and_new_ones_go_to_the_end() {
    let raw = object(vec![
        ("b", number(1)),
        ("properties", object(vec![("c", number(3)), ("b", number(2)), ("a", number(4))])),
        ("d", number(5)),
    ]);
    assert_eq!(
        normalize_value(raw),
        object(vec![("b", number(2)), ("d", number(5)), ("c", number(3)), ("a", number(4))])
    );
}

#[test]
fn a_properties_member_that_is_no_object_stays() {
    let raw = object(vec![("id", string("1")), ("properties", number(9))]);
    assert_eq!(normalize_value(raw), object(vec![("id", string("1")), ("properties", number(9))]));
    let raw = object(vec![("id", string("1")), ("properties", string("abc"))]);
    assert_eq!(
        normalize_value(raw),
        object(vec![("id", string("1")), ("properties", string("abc"))])
    );
}

#[test]
fn a_properties_member_that_is_no_object_is_normalized_like_any_other() {
    let raw = object(vec![
        ("version", number(1)),
        (
            "properties",
            Json::Array(vec![object(vec![
                ("in_edges", Json::Null),
                ("properties", object(vec![("a", number(1))])),
            ])]),
        ),
    ]);
    let once = normalize_value(raw);
    assert_eq!(
        once,
        object(vec![("properties", Json::Array(vec![object(vec![("a", number(1))])]))])
    );
    assert_eq!(normalize_value(once.clone()), once);
}

#[test]
fn bookkeeping_that_comes_up_from_properties_is_removed_too() {
    let raw = object(vec![(
        "properties",
        object(vec![("version", number(1)), ("vectors", number(2)), ("name", string("n"))]),
    )]);
    assert_eq!(normalize_value(raw), object(vec![("name", string("n"))]));
}

#[test]
fn members_merged_up_are_normalized_like_any_other() {
    let raw = object(vec![(
        "properties",
        object(vec![(
            "author",
            object(vec![("properties", object(vec![("name", string("n"))])), ("in_edges", Json::Null)]),
        )]),
    )]);
    assert_eq!(normalize_value(raw), object(vec![("author", object(vec![("name", string("n"))]))]));
}

#[test]
fn documents_that_are_no_array_and_no_object_stay() {
    assert_eq!(normalize_value(Json::Null), Json::Null);
    assert_eq!(normalize_value(string("version")), string("version"));
    assert_eq!(normalize_value(number(3)), number(3));
    assert_eq!(normalize_value(Json::Array(vec![])), Json::Array(vec![]));
    assert_eq!(normalize_value(object(vec![])), object(vec![]));
}

#[test]
fn properties_inside_properties_survive_one_pass() {
    let raw = object(vec![("properties", object(vec![("properties", object(vec![("a", number(1))]))]))]);
    let once = normalize_value(raw);
    assert_eq!(once, object(vec![("properties", object(vec![("a", number(1))]))]));
    assert_eq!(normalize_value(once), object(vec![("a", number(1))]));
}
