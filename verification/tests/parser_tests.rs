use helixdb_explorer::ast::{
    BM25Search, BooleanOp, EvaluatesToNumber, Expression, FieldAddition, FieldValue, IdType,
    StartNode, Step, Traversal,
};
use helixdb_explorer::hql_translator::{map_bm25_to_tool, map_traversal_to_tools, FinalAction};
use helixdb_explorer::json::Json;
use helixdb_explorer::tool_args::{Operator, Order, ToolArgs};

fn no_params() -> Json {
    Json::Object(vec![])
}

/// `N<label>`
fn nodes(label: &str) -> StartNode {
    StartNode::Node { node_type: label.to_string(), ids: None }
}

/// `N<label>("id")`, the identifier as written, with its quotation marks.
fn node(label: &str, id: &str) -> StartNode {
    StartNode::Node {
        node_type: label.to_string(),
        ids: Some(vec![IdType::Literal(format!("\"{}\"", id))]),
    }
}

/// `{name}`
fn property(name: &str) -> Step {
    Step::Object(vec![FieldAddition {
        key: name.to_string(),
        value: FieldValue::Identifier(name.to_string()),
    }])
}

/// `_::{name}`
fn access(name: &str) -> Expression {
    Expression::Traversal(Box::new(Traversal {
        start: StartNode::Anonymous,
        steps: vec![property(name)],
    }))
}

/// `_::{name}::OP(operand)`
fn compare(name: &str, operator: Operator, operand: Expression) -> Expression {
    Expression::Traversal(Box::new(Traversal {
        start: StartNode::Anonymous,
        steps: vec![
            property(name),
            Step::BooleanOperation(BooleanOp::Compare { operator, operand: Box::new(operand) }),
        ],
    }))
}

fn integer(i: i32) -> Expression {
    Expression::IntegerLiteral(i)
}

fn decimal(text: &str) -> Expression {
    Expression::FloatLiteral(text.to_string())
}

fn boolean(b: bool) -> Expression {
    Expression::BooleanLiteral(b)
}

fn filter(e: Expression) -> Step {
    Step::Where(Box::new(e))
}

fn order(order: Order, name: &str) -> Step {
    Step::OrderBy { order, expression: Box::new(access(name)) }
}

fn range(start: i32, end: i32) -> Step {
    Step::Range(integer(start), integer(end))
}

fn names(list: &[&str]) -> Vec<String> {
    list.iter().map(|s| s.to_string()).collect()
}

fn translate(start: StartNode, steps: Vec<Step>) -> (Vec<ToolArgs>, FinalAction, Vec<String>) {
    map_traversal_to_tools(&Traversal { start, steps }, &no_params()).expect("Mapping failed")
}

fn translate_search(label: &str, query: &str, k: i32) -> Vec<ToolArgs> {
    let search = BM25Search {
        type_arg: Some(label.to_string()),
        data: Some(format!("\"{}\"", query)),
        k: Some(EvaluatesToNumber::I32(k)),
    };
    vec![map_bm25_to_tool(&search).expect("Mapping failed")]
}

// QUERY GetAllUsers () => user <- N<User> RETURN user
#[test]
fn test_query_get_all_users() {
    let (tools, _, _) = translate(nodes("User"), vec![]);
    assert_eq!(tools.len(), 1);
    match &tools[0] {
        ToolArgs::NFromType { node_type } => assert_eq!(node_type, "User"),
        _ => panic!("Expected NFromType"),
    }
}

// QUERY GetAllPosts () => post <- N<Post> RETURN post
#[test]
fn test_query_get_all_posts() {
    let (tools, _, _) = translate(nodes("Post"), vec![]);
    assert_eq!(tools.len(), 1);
    match &tools[0] {
        ToolArgs::NFromType { node_type } => assert_eq!(node_type, "Post"),
        _ => panic!("Expected NFromType"),
    }
}

// QUERY GetAllComments () => comment <- N<Comment> RETURN comment
#[test]
fn test_query_get_all_comments() {
    let (tools, _, _) = translate(nodes("Comment"), vec![]);
    assert_eq!(tools.len(), 1);
    match &tools[0] {
        ToolArgs::NFromType { node_type } => assert_eq!(node_type, "Comment"),
        _ => panic!("Expected NFromType"),
    }
}

// QUERY GetUserById(user_id: ID) => user <- N<User>("xxxx") RETURN user
#[test]
fn test_query_get_user_by_id() {
    let (tools, _, ids) = translate(node("User", "xxxx"), vec![]);
    assert_eq!(tools.len(), 1);
    match &tools[0] {
        ToolArgs::NFromType { node_type } => assert_eq!(node_type, "User"),
        _ => panic!("Expected NFromType"),
    }
    assert_eq!(ids, vec!["xxxx".to_string()]);
}

// QUERY filter_age_gt_50() => users <- N<User>::WHERE(_::{age}::GT(50)) RETURN users
#[test]
fn test_query_filter_age_gt_50() {
    let (tools, _, _) =
        translate(nodes("User"), vec![filter(compare("age", Operator::Gt, integer(50)))]);
    assert_eq!(tools.len(), 2);
    match &tools[1] {
        ToolArgs::FilterItems { filter } => {
            let props = &filter.properties.as_ref().unwrap()[0][0];
            assert_eq!(props.key, "age");
            assert_eq!(props.operator, Some(Operator::Gt));
        }
        _ => panic!("Expected FilterItems"),
    }
}

// QUERY filter_high_score() => users <- N<User>::WHERE(_::{score}::GT(90.0)) RETURN users
#[test]
fn test_query_filter_high_score() {
    let (tools, _, _) =
        translate(nodes("User"), vec![filter(compare("score", Operator::Gt, decimal("90.0")))]);
    assert_eq!(tools.len(), 2);
}

// QUERY filter_young_users() => users <- N<User>::WHERE(_::{age}::LT(25)) RETURN users
#[test]
fn test_query_filter_young_users() {
    let (tools, _, _) =
        translate(nodes("User"), vec![filter(compare("age", Operator::Lt, integer(25)))]);
    assert_eq!(tools.len(), 2);
}

// ... N<User>::WHERE(AND(_::{score}::GTE(70.0), _::{score}::LT(80.0)))
#[test]
fn test_query_filter_score_range_70_80() {
    let (tools, _, _) = translate(
        nodes("User"),
        vec![filter(Expression::And(vec![
            compare("score", Operator::Gte, decimal("70.0")),
            compare("score", Operator::Lt, decimal("80.0")),
        ]))],
    );
    assert_eq!(tools.len(), 2);
    match &tools[1] {
        ToolArgs::FilterItems { filter } => {
            let dnf = filter.properties.as_ref().expect("Missing properties");
            assert_eq!(dnf.len(), 1);
            assert_eq!(dnf[0].len(), 2);
        }
        _ => panic!("Expected FilterItems"),
    }
}

// ... N<User>::WHERE(AND(_::{active}::EQ(true), _::{score}::GT(85.0)))
#[test]
fn test_query_filter_active_high_performers() {
    let (tools, _, _) = translate(
        nodes("User"),
        vec![filter(Expression::And(vec![
            compare("active", Operator::Eq, boolean(true)),
            compare("score", Operator::Gt, decimal("85.0")),
        ]))],
    );
    assert_eq!(tools.len(), 2);
}

// ... N<User>::WHERE(OR(_::{active}::EQ(false), _::{age}::GT(55)))
#[test]
fn test_query_filter_inactive_or_senior() {
    let (tools, _, _) = translate(
        nodes("User"),
        vec![filter(Expression::Or(vec![
            compare("active", Operator::Eq, boolean(false)),
            compare("age", Operator::Gt, integer(55)),
        ]))],
    );
    match &tools[1] {
        ToolArgs::FilterItems { filter } => {
            let dnf = filter.properties.as_ref().expect("Missing properties");
            assert_eq!(dnf.len(), 2);
        }
        _ => panic!("Expected FilterItems"),
    }
}

// ... N<User>::WHERE(OR(_::{age}::EQ(20), _::{age}::EQ(21)))
#[test]
fn test_query_filter_age_20_or_21() {
    let (tools, _, _) = translate(
        nodes("User"),
        vec![filter(Expression::Or(vec![
            compare("age", Operator::Eq, integer(20)),
            compare("age", Operator::Eq, integer(21)),
        ]))],
    );
    match &tools[1] {
        ToolArgs::FilterItems { filter } => {
            let dnf = filter.properties.as_ref().expect("Missing properties");
            assert_eq!(dnf.len(), 2);
        }
        _ => panic!("Expected FilterItems"),
    }
}

// ... N<User>::WHERE(AND(_::{age}::GTE(30), _::{age}::LTE(40)))
#[test]
fn test_query_filter_age_30_to_40() {
    let (tools, _, _) = translate(
        nodes("User"),
        vec![filter(Expression::And(vec![
            compare("age", Operator::Gte, integer(30)),
            compare("age", Operator::Lte, integer(40)),
        ]))],
    );
    match &tools[1] {
        ToolArgs::FilterItems { filter } => {
            let dnf = filter.properties.as_ref().expect("Missing properties");
            assert_eq!(dnf.len(), 1);
            assert_eq!(dnf[0].len(), 2);
        }
        _ => panic!("Expected FilterItems"),
    }
}

// ... N<User>::ORDER<Asc>(_::{age})
#[test]
fn test_query_get_users_by_age_asc() {
    let (tools, _, _) = translate(nodes("User"), vec![order(Order::Asc, "age")]);
    match &tools[1] {
        ToolArgs::OrderBy { properties, order } => {
            assert_eq!(properties, "age");
            assert_eq!(order, &Order::Asc);
        }
        _ => panic!("Expected OrderBy"),
    }
}

// ... N<User>::ORDER<Desc>(_::{score})
#[test]
fn test_query_get_users_by_score_desc() {
    let (tools, _, _) = translate(nodes("User"), vec![order(Order::Desc, "score")]);
    match &tools[1] {
        ToolArgs::OrderBy { properties, order } => {
            assert_eq!(properties, "score");
            assert_eq!(order, &Order::Desc);
        }
        _ => panic!("Expected OrderBy"),
    }
}

// ... N<User>::ORDER<Asc>(_::{name})
#[test]
fn test_query_get_users_by_name_asc() {
    let (tools, _, _) = translate(nodes("User"), vec![order(Order::Asc, "name")]);
    match &tools[1] {
        ToolArgs::OrderBy { properties, order } => {
            assert_eq!(properties, "name");
            assert_eq!(order, &Order::Asc);
        }
        _ => panic!("Expected OrderBy"),
    }
}

// ... N<User>::RANGE(0, 5)
#[test]
fn test_query_get_first_5_users() {
    let (_, action, _) = translate(nodes("User"), vec![range(0, 5)]);
    assert_eq!(action, FinalAction::Collect { range: Some((0, Some(5))) });
}

// ... N<User>::RANGE(5, 10)
#[test]
fn test_query_get_users_page_2() {
    let (_, action, _) = translate(nodes("User"), vec![range(5, 10)]);
    assert_eq!(action, FinalAction::Collect { range: Some((5, Some(10))) });
}

// ... N<User>::FIRST
#[test]
fn test_query_get_first_user() {
    let (_, action, _) = translate(nodes("User"), vec![Step::First]);
    assert_eq!(action, FinalAction::Collect { range: Some((0, Some(1))) });
}

// ... N<User>::COUNT
#[test]
fn test_query_count_all_users() {
    let (_, action, _) = translate(nodes("User"), vec![Step::Count]);
    assert_eq!(action, FinalAction::Count);
}

// ... N<User>::AGGREGATE_BY(age, score)
#[test]
fn test_query_aggregate_user_stats() {
    let (_, action, _) =
        translate(nodes("User"), vec![Step::Aggregate(names(&["age", "score"]))]);
    match action {
        FinalAction::Aggregate { properties } => {
            assert_eq!(properties, vec!["age", "score"]);
        }
        _ => panic!("Expected Aggregate"),
    }
}

// ... N<User>::AGGREGATE_BY(score)
#[test]
fn test_query_aggregate_by_score() {
    let (_, action, _) = translate(nodes("User"), vec![Step::Aggregate(names(&["score"]))]);
    match action {
        FinalAction::Aggregate { properties } => {
            assert_eq!(properties, vec!["score"]);
        }
        _ => panic!("Expected Aggregate"),
    }
}

// ... N<User>::GROUP_BY(active)
#[test]
fn test_query_group_by_active() {
    let (_, action, _) = translate(nodes("User"), vec![Step::GroupBy(names(&["active"]))]);
    match action {
        FinalAction::GroupBy { properties } => {
            assert_eq!(properties, vec!["active"]);
        }
        _ => panic!("Expected GroupBy"),
    }
}

// ... N<User>::GROUP_BY(age)
#[test]
fn test_query_group_by_age() {
    let (_, action, _) = translate(nodes("User"), vec![Step::GroupBy(names(&["age"]))]);
    match action {
        FinalAction::GroupBy { properties } => {
            assert_eq!(properties, vec!["age"]);
        }
        _ => panic!("Expected GroupBy"),
    }
}

// ... N<User>::GROUP_BY(active, age)
#[test]
fn test_query_group_by_active_and_age() {
    let (_, action, _) =
        translate(nodes("User"), vec![Step::GroupBy(names(&["active", "age"]))]);
    match action {
        FinalAction::GroupBy { properties } => {
            assert_eq!(properties, vec!["active", "age"]);
        }
        _ => panic!("Expected GroupBy"),
    }
}

// N<User>::WHERE(AND(_::{active}::EQ(true), _::{score}::GT(70.0)))::ORDER<Desc>(_::{score})::RANGE(0, 5)
#[test]
fn test_query_get_top_5_active_users() {
    let (tools, _, _) = translate(
        nodes("User"),
        vec![
            filter(Expression::And(vec![
                compare("active", Operator::Eq, boolean(true)),
                compare("score", Operator::Gt, decimal("70.0")),
            ])),
            order(Order::Desc, "score"),
            range(0, 5),
        ],
    );
    assert!(tools.len() >= 3);
}

// N<User>::WHERE(AND(_::{age}::GTE(25), AND(_::{age}::LTE(45), _::{active}::EQ(true))))::ORDER<Asc>(_::{age})
#[test]
fn test_query_get_middle_aged_active_users() {
    let (tools, _, _) = translate(
        nodes("User"),
        vec![
            filter(Expression::And(vec![
                compare("age", Operator::Gte, integer(25)),
                Expression::And(vec![
                    compare("age", Operator::Lte, integer(45)),
                    compare("active", Operator::Eq, boolean(true)),
                ]),
            ])),
            order(Order::Asc, "age"),
        ],
    );
    assert!(tools.len() >= 2);
}

// N<User>::WHERE(OR(_::{score}::LT(60.0), _::{age}::GT(55)))::ORDER<Desc>(_::{score})
#[test]
fn test_query_get_low_score_or_senior() {
    let (tools, _, _) = translate(
        nodes("User"),
        vec![
            filter(Expression::Or(vec![
                compare("score", Operator::Lt, decimal("60.0")),
                compare("age", Operator::Gt, integer(55)),
            ])),
            order(Order::Desc, "score"),
        ],
    );
    assert!(tools.len() >= 2);
}

// N<User>::WHERE(_::{active}::EQ(false))::ORDER<Desc>(_::{score})::RANGE(0, 2)
#[test]
fn test_query_get_top_2_inactive_users() {
    let (tools, _, _) = translate(
        nodes("User"),
        vec![
            filter(compare("active", Operator::Eq, boolean(false))),
            order(Order::Desc, "score"),
            range(0, 2),
        ],
    );
    assert!(tools.len() >= 2);
}

// N<User>::WHERE(_::{age}::EQ(21))::ORDER<Desc>(_::{score})
#[test]
fn test_query_get_age_21_by_score() {
    let (tools, _, _) = translate(
        nodes("User"),
        vec![filter(compare("age", Operator::Eq, integer(21))), order(Order::Desc, "score")],
    );
    assert!(tools.len() >= 2);
}

// N<User>::ORDER<Asc>(_::{score})::RANGE(10, 15)
#[test]
fn test_query_get_middle_users_by_score() {
    let (_, action, _) =
        translate(nodes("User"), vec![order(Order::Asc, "score"), range(10, 15)]);
    assert_eq!(action, FinalAction::Collect { range: Some((10, Some(15))) });
}

// count <- N<User>::WHERE(_::{active}::EQ(true))::COUNT
#[test]
fn test_query_count_active_users() {
    let (_, action, _) = translate(
        nodes("User"),
        vec![filter(compare("active", Operator::Eq, boolean(true))), Step::Count],
    );
    assert_eq!(action, FinalAction::Count);
}

// count <- N<User>::WHERE(_::{score}::GT(80.0))::COUNT
#[test]
fn test_query_count_high_scorers() {
    let (_, action, _) = translate(
        nodes("User"),
        vec![filter(compare("score", Operator::Gt, decimal("80.0"))), Step::Count],
    );
    assert_eq!(action, FinalAction::Count);
}

// N<User>::WHERE(AND(_::{age}::GTE(30), AND(_::{age}::LTE(40), _::{active}::EQ(true))))::ORDER<Desc>(_::{age})
#[test]
fn test_query_get_thirties_active_desc() {
    let (tools, _, _) = translate(
        nodes("User"),
        vec![
            filter(Expression::And(vec![
                compare("age", Operator::Gte, integer(30)),
                Expression::And(vec![
                    compare("age", Operator::Lte, integer(40)),
                    compare("active", Operator::Eq, boolean(true)),
                ]),
            ])),
            order(Order::Desc, "age"),
        ],
    );
    match &tools[2] {
        ToolArgs::OrderBy { properties, order } => {
            assert_eq!(properties, "age");
            assert_eq!(order, &Order::Desc);
        }
        _ => panic!("Expected OrderBy"),
    }
}

// N<User>::WHERE(AND(_::{score}::GTE(60.0), _::{score}::LT(80.0)))::ORDER<Asc>(_::{score})::RANGE(0, 3)
#[test]
fn test_query_get_mid_range_scores() {
    let (_, action, _) = translate(
        nodes("User"),
        vec![
            filter(Expression::And(vec![
                compare("score", Operator::Gte, decimal("60.0")),
                compare("score", Operator::Lt, decimal("80.0")),
            ])),
            order(Order::Asc, "score"),
            range(0, 3),
        ],
    );
    assert_eq!(action, FinalAction::Collect { range: Some((0, Some(3))) });
}

// N<User>::WHERE(AND(_::{active}::EQ(true), AND(_::{age}::GT(30), _::{score}::GT(75.0))))::ORDER<Desc>(_::{score})
#[test]
fn test_query_get_active_mature_high_performers() {
    let (tools, _, _) = translate(
        nodes("User"),
        vec![
            filter(Expression::And(vec![
                compare("active", Operator::Eq, boolean(true)),
                Expression::And(vec![
                    compare("age", Operator::Gt, integer(30)),
                    compare("score", Operator::Gt, decimal("75.0")),
                ]),
            ])),
            order(Order::Desc, "score"),
        ],
    );
    assert!(tools.len() >= 2);
}

// posts <- N<User>("xxxx")::Out<LIKED>
#[test]
fn test_query_get_user_liked_posts() {
    let (tools, _, _) = translate(node("User", "xxxx"), vec![Step::Out("LIKED".to_string())]);
    assert_eq!(tools.len(), 2);
    match &tools[1] {
        ToolArgs::OutStep { edge_label, .. } => assert_eq!(edge_label, "LIKED"),
        _ => panic!("Expected OutStep"),
    }
}

// comments <- N<Post>("xxxx")::In<ON>
#[test]
fn test_query_get_post_comments() {
    let (tools, _, _) = translate(node("Post", "xxxx"), vec![Step::In("ON".to_string())]);
    assert_eq!(tools.len(), 2);
    match &tools[1] {
        ToolArgs::InStep { edge_label, .. } => assert_eq!(edge_label, "ON"),
        _ => panic!("Expected InStep"),
    }
}

// author <- N<Post>("xxxx")::In<POSTED>
#[test]
fn test_query_get_first_post_author() {
    let (tools, _, _) = translate(node("Post", "xxxx"), vec![Step::In("POSTED".to_string())]);
    match &tools[1] {
        ToolArgs::InStep { edge_label, .. } => assert_eq!(edge_label, "POSTED"),
        _ => panic!("Expected InStep"),
    }
}

// friends <- N<User>("xxxx")::Out<FRIEND>
#[test]
fn test_query_get_user_friends() {
    let (tools, _, _) = translate(node("User", "xxxx"), vec![Step::Out("FRIEND".to_string())]);
    match &tools[1] {
        ToolArgs::OutStep { edge_label, .. } => assert_eq!(edge_label, "FRIEND"),
        _ => panic!("Expected OutStep"),
    }
}

// author <- N<Comment>("xxxx")::In<COMMENTED>
#[test]
fn test_query_get_comment_author() {
    let (tools, _, _) =
        translate(node("Comment", "xxxx"), vec![Step::In("COMMENTED".to_string())]);
    match &tools[1] {
        ToolArgs::InStep { edge_label, .. } => assert_eq!(edge_label, "COMMENTED"),
        _ => panic!("Expected InStep"),
    }
}

// results <- SearchBM25<Post>("Graph", 10)
#[test]
fn test_query_search_graph_posts() {
    let tools = translate_search("Post", "Graph", 10);
    match &tools[0] {
        ToolArgs::SearchKeyword { query, label, limit } => {
            assert_eq!(query, "\"Graph\"");
            assert_eq!(label, "Post");
            assert_eq!(*limit, 10);
        }
        _ => panic!("Expected SearchKeyword"),
    }
}

// results <- SearchBM25<Post>("HQL", 10)
#[test]
fn test_query_search_hql_posts() {
    let tools = translate_search("Post", "HQL", 10);
    match &tools[0] {
        ToolArgs::SearchKeyword { query, label, limit } => {
            assert_eq!(query, "\"HQL\"");
            assert_eq!(label, "Post");
            assert_eq!(*limit, 10);
        }
        _ => panic!("Expected SearchKeyword"),
    }
}
