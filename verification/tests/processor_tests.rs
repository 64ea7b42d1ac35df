use helixdb_explorer::hql_processor::{inject_assignments, lift_vector_searches, preprocess_hql};
use helixdb_explorer::text::decimal_text;

#[test]
fn test_basic_searchv_replacement() {
    let code = r#"
            QUERY Test() =>
                SearchV<Doc>([0.1, 0.2], 10)
                RETURN 1
        "#;
    let processed = preprocess_hql(code);
    assert!(processed.contains("tmpVec_0 <- [0.1, 0.2]"));
    assert!(processed.contains("SearchV<Doc>(tmpVec_0"));
    assert!(!processed.contains("SearchV<Doc>(["));
}

#[test]
fn test_multiple_searchv_replacements() {
    let code = r#"
            QUERY Test() =>
                a <- SearchV<Doc>([0.1], 10)
                b <- SearchV<Image>([0.9], 5)
                RETURN a, b
        "#;
    let processed = preprocess_hql(code);

    assert!(processed.contains("tmpVec_0 <- [0.1]"));
    assert!(processed.contains("tmpVec_1 <- [0.9]"));

    assert!(processed.contains("SearchV<Doc>(tmpVec_0"));
    assert!(processed.contains("SearchV<Image>(tmpVec_1"));
}

#[test]
fn test_no_replacement_needed() {
    let code = r#"
            QUERY Test() =>
                myVal <- [0.1, 0.2]
                SearchV<Doc>(myVal, 10)
                RETURN 1
        "#;
    let processed = preprocess_hql(code);
    assert_eq!(code, processed);
}

#[test]
fn test_searchv_with_newlines_and_spaces() {
    let code = r#"
            QUERY Test() =>
                SearchV  <  Doc  >  (  [ 0.1 , 0.2 ]  , 10 )
                RETURN 1
        "#;
    let processed = preprocess_hql(code);
    assert!(processed.contains("tmpVec_0 <- [ 0.1 , 0.2 ]"));
    assert!(processed.contains("SearchV<Doc>(tmpVec_0"));
}

#[test]
fn test_injection_position_with_query() {
    let code = r#"
            QUERY Test(id: ID) =>
                SearchV<Doc>([0.1], 1)
        "#;
    let processed = preprocess_hql(code);
    let split: Vec<&str> = processed.split("=>").collect();
    assert!(split.len() > 1);
    let body = split[1];
    assert!(body.trim().starts_with("tmpVec_0"));
}

#[test]
fn test_injection_position_without_query() {
    let code = r#"
            SearchV<Doc>([0.1], 1)
        "#;
    let processed = preprocess_hql(code);
    assert!(processed.trim().starts_with("tmpVec_0"));
}

#[test]
fn the_whole_text_after_lifting() {
    assert_eq!(
        preprocess_hql("QUERY T() => a <- SearchV<Doc>([1.0, 2.0], 3) b <- SearchV< Img >( [4], 5) RETURN a"),
        "QUERY T() =>\ntmpVec_0 <- [1.0, 2.0]\ntmpVec_1 <- [4]\n a <- SearchV<Doc>(tmpVec_0, 3) b <- SearchV<Img>(tmpVec_1, 5) RETURN a"
    );
    assert_eq!(preprocess_hql("SearchV<Doc>([0.5], 1)"), "tmpVec_0 <- [0.5]\nSearchV<Doc>(tmpVec_0, 1)");
    assert_eq!(preprocess_hql("é SearchV<D>([1])"), "tmpVec_0 <- [1]\né SearchV<D>(tmpVec_0)");
    assert_eq!(preprocess_hql(""), "");
}

#[test]
fn lifting_numbers_the_variables_in_order() {
    let text = |s: &str| s.to_string();
    let gaps = vec![text("A"), text("B"), text("C")];
    let captures = vec![(text("Doc"), text("[1]")), (text("Img"), text("[2]"))];
    assert_eq!(
        lift_vector_searches(&gaps, &captures),
        (text("ASearchV<Doc>(tmpVec_0BSearchV<Img>(tmpVec_1C"), text("tmpVec_0 <- [1]\ntmpVec_1 <- [2]"))
    );
    assert_eq!(lift_vector_searches(&vec![text("only")], &vec![]), (text("only"), text("")));
}

#[test]
fn assignments_go_behind_the_head_or_in_front() {
    let text = |s: &str| s.to_string();
    assert_eq!(
        inject_assignments(text("HT"), text("L"), Some((text("H"), text("T")))),
        "H\nL\nT"
    );
    assert_eq!(inject_assignments(text("body"), text("L"), None), "L\nbody");
}

#[test]
fn decimal_text_of_numbers() {
    assert_eq!(decimal_text(0), "0");
    assert_eq!(decimal_text(7), "7");
    assert_eq!(decimal_text(10), "10");
    assert_eq!(decimal_text(1234567890), "1234567890");
    assert_eq!(decimal_text(u64::MAX), "18446744073709551615");
}
