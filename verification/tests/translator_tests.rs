use helixdb_explorer::ast::{
    BM25Search, BooleanOp, EvaluatesToNumber, EvaluatesToString, Expression, FieldAddition,
    FieldValue, IdType, SearchVector, StartNode, Step, Traversal, ValueType, VectorData,
};
use helixdb_explorer::error::CompileError;
use helixdb_explorer::filter_compiler::{
    cross_product, map_expression_to_filter, map_object_to_filter,
};
use helixdb_explorer::hql_translator::{
    extract_ids_and_props, map_bm25_to_tool, map_search_vector_to_tool, map_traversal_to_tools,
    FinalAction,
};
use helixdb_explorer::json::{Json, JsonNumber};
use helixdb_explorer::text::trim_quotes;
use helixdb_explorer::tool_args::{
    EdgeType, FilterProperties, FilterTraversal, Operator, Order, ToolArgs,
};
use helixdb_explorer::value::Value;
use helixdb_explorer::value_extractor::extract_value;

fn params(members: Vec<(&str, Json)>) -> Json {
    Json::Object(members.into_iter().map(|(k, v)| (k.to_string(), v)).collect())
}

fn text(s: &str) -> String {
    s.to_string()
}

fn start(label: &str) -> StartNode {
    StartNode::Node { node_type: text(label), ids: None }
}

fn start_with(label: &str, ids: Vec<IdType>) -> StartNode {
    StartNode::Node { node_type: text(label), ids: Some(ids) }
}

fn field(name: &str) -> Step {
    Step::Object(vec![FieldAddition { key: text(name), value: FieldValue::Identifier(text(name)) }])
}

fn anonymous(steps: Vec<Step>) -> Expression {
    Expression::Traversal(Box::new(Traversal { start: StartNode::Anonymous, steps }))
}

fn test_of(name: &str, operator: Operator, operand: Expression) -> Expression {
    anonymous(vec![
        field(name),
        Step::BooleanOperation(BooleanOp::Compare { operator, operand: Box::new(operand) }),
    ])
}

fn condition(key: &str, operator: Operator, value: Value) -> FilterProperties {
    FilterProperties { key: text(key), value, operator: Some(operator) }
}

fn properties(dnf: Vec<Vec<FilterProperties>>) -> FilterTraversal {
    FilterTraversal { properties: Some(dnf), filter_traversals: None }
}

fn compile(
    start: StartNode,
    steps: Vec<Step>,
    with: &Json,
) -> Result<(Vec<ToolArgs>, FinalAction, Vec<String>), CompileError> {
    map_traversal_to_tools(&Traversal { start, steps }, with)
}

fn empty() -> Json {
    params(vec![])
}

fn scan(label: &str) -> ToolArgs {
    ToolArgs::NFromType { node_type: text(label) }
}

fn out(label: &str) -> ToolArgs {
    ToolArgs::OutStep { edge_label: text(label), edge_type: EdgeType::Node, filter: None }
}

#[test]
fn conjunction_of_two_comparisons_is_one_clause_of_two_conditions() {
    let e = Expression::And(vec![
        test_of("score", Operator::Gte, Expression::IntegerLiteral(70)),
        test_of("score", Operator::Lt, Expression::IntegerLiteral(80)),
    ]);
    assert_eq!(
        map_expression_to_filter(&e, &empty()),
        Ok(properties(vec![vec![
            condition("score", Operator::Gte, Value::I32(70)),
            condition("score", Operator::Lt, Value::I32(80)),
        ]]))
    );
}

#[test]
fn disjunction_of_two_comparisons_is_two_clauses_of_one_condition() {
    let e = Expression::Or(vec![
        test_of("active", Operator::Eq, Expression::BooleanLiteral(false)),
        test_of("age", Operator::Gt, Expression::IntegerLiteral(55)),
    ]);
    assert_eq!(
        map_expression_to_filter(&e, &empty()),
        Ok(properties(vec![
            vec![condition("active", Operator::Eq, Value::Boolean(false))],
            vec![condition("age", Operator::Gt, Value::I32(55))],
        ]))
    );
}

#[test]
fn conjunction_distributes_over_an_inner_disjunction() {
    let e = Expression::And(vec![
        test_of("active", Operator::Eq, Expression::BooleanLiteral(true)),
        Expression::Or(vec![
            test_of("score", Operator::Gt, Expression::IntegerLiteral(85)),
            test_of("age", Operator::Lt, Expression::IntegerLiteral(30)),
            test_of("name", Operator::Neq, Expression::StringLiteral(text("x"))),
        ]),
    ]);
    let active = || condition("active", Operator::Eq, Value::Boolean(true));
    assert_eq!(
        map_expression_to_filter(&e, &empty()),
        Ok(properties(vec![
            vec![active(), condition("score", Operator::Gt, Value::I32(85))],
            vec![active(), condition("age", Operator::Lt, Value::I32(30))],
            vec![active(), condition("name", Operator::Neq, Value::String(text("x")))],
        ]))
    );
}

#[test]
fn conjunction_of_two_disjunctions_has_every_pair_in_order() {
    let c = |k: &str| test_of(k, Operator::Eq, Expression::IntegerLiteral(1));
    let p = |k: &str| condition(k, Operator::Eq, Value::I32(1));
    let e = Expression::And(vec![
        Expression::Or(vec![c("a"), c("b")]),
        Expression::Or(vec![c("c"), c("d"), c("e")]),
    ]);
    let got = map_expression_to_filter(&e, &empty()).unwrap();
    assert_eq!(
        got,
        properties(vec![
            vec![p("a"), p("c")],
            vec![p("a"), p("d")],
            vec![p("a"), p("e")],
            vec![p("b"), p("c")],
            vec![p("b"), p("d")],
            vec![p("b"), p("e")],
        ])
    );
    assert_eq!(got.properties.unwrap().len(), 2 * 3);
}

#[test]
fn cross_product_joins_each_pair() {
    let p = |k: &str| condition(k, Operator::Eq, Value::Boolean(true));
    let a = vec![vec![p("a1"), p("a2")], vec![p("b")]];
    let b = vec![vec![p("x")], vec![]];
    assert_eq!(
        cross_product(&a, &b),
        vec![
            vec![p("a1"), p("a2"), p("x")],
            vec![p("a1"), p("a2")],
            vec![p("b"), p("x")],
            vec![p("b")],
        ]
    );
    assert_eq!(cross_product(&a, &vec![]), Vec::<Vec<FilterProperties>>::new());
}

#[test]
fn empty_conjunction_is_true_and_empty_disjunction_is_false() {
    assert_eq!(
        map_expression_to_filter(&Expression::And(vec![]), &empty()),
        Ok(properties(vec![vec![]]))
    );
    assert_eq!(
        map_expression_to_filter(&Expression::Or(vec![]), &empty()),
        Ok(properties(vec![]))
    );
}

#[test]
fn where_on_a_bare_walk_compiles_to_nested_tools() {
    let e = anonymous(vec![Step::Out(text("Follows")), Step::InE(text("Likes"))]);
    let inner = FilterTraversal {
        properties: None,
        filter_traversals: Some(vec![ToolArgs::InEStep { edge_label: text("Likes"), filter: None }]),
    };
    assert_eq!(
        map_expression_to_filter(&e, &empty()),
        Ok(FilterTraversal {
            properties: None,
            filter_traversals: Some(vec![ToolArgs::OutStep {
                edge_label: text("Follows"),
                edge_type: EdgeType::Node,
                filter: Some(inner),
            }]),
        })
    );
}

#[test]
fn where_refuses_what_it_cannot_filter_by() {
    let not_anonymous =
        Expression::Traversal(Box::new(Traversal { start: start("User"), steps: vec![field("a")] }));
    assert_eq!(
        map_expression_to_filter(&not_anonymous, &empty()),
        Err(CompileError::WhereNotAnonymous)
    );
    assert_eq!(map_expression_to_filter(&anonymous(vec![]), &empty()), Err(CompileError::WhereTooShort));
    assert_eq!(
        map_expression_to_filter(&Expression::IntegerLiteral(3), &empty()),
        Err(CompileError::UnsupportedExpression { kind: text("IntegerLiteral") })
    );
    assert_eq!(
        map_expression_to_filter(&Expression::Unsupported(text("Exists")), &empty()),
        Err(CompileError::UnsupportedExpression { kind: text("Exists") })
    );
    assert_eq!(
        map_expression_to_filter(&anonymous(vec![Step::Out(text("E")), Step::Count]), &empty()),
        Err(CompileError::UnsupportedFilterStep { kind: text("Count") })
    );
    assert_eq!(
        map_expression_to_filter(&anonymous(vec![Step::FromN, Step::Out(text("E"))]), &empty()),
        Err(CompileError::UnsupportedFilterStep { kind: text("FromN") })
    );
    let unsupported_operator = anonymous(vec![
        field("tags"),
        Step::BooleanOperation(BooleanOp::Unsupported(text("Contains"))),
    ]);
    assert_eq!(
        map_expression_to_filter(&unsupported_operator, &empty()),
        Err(CompileError::UnsupportedOperator { kind: text("Contains") })
    );
    let bad_operand = test_of("age", Operator::Eq, Expression::And(vec![]));
    assert_eq!(
        map_expression_to_filter(&bad_operand, &empty()),
        Err(CompileError::UnsupportedValue { kind: text("And") })
    );
}

#[test]
fn a_nested_traversal_filter_cannot_be_joined_with_conditions() {
    let walk = anonymous(vec![Step::Out(text("Follows"))]);
    let test = test_of("age", Operator::Gt, Expression::IntegerLiteral(1));
    assert_eq!(
        map_expression_to_filter(&Expression::And(vec![test, walk]), &empty()),
        Err(CompileError::MixedFilter)
    );
    let walk = anonymous(vec![Step::Out(text("Follows"))]);
    assert_eq!(
        map_expression_to_filter(&Expression::Or(vec![walk]), &empty()),
        Err(CompileError::MixedFilter)
    );
}

#[test]
fn the_first_failing_part_of_a_conjunction_decides() {
    let e = Expression::And(vec![
        test_of("a", Operator::Eq, Expression::IntegerLiteral(1)),
        anonymous(vec![]),
        Expression::IntegerLiteral(3),
    ]);
    assert_eq!(map_expression_to_filter(&e, &empty()), Err(CompileError::WhereTooShort));
}

#[test]
fn operand_values() {
    let with = params(vec![
        ("name", Json::String(text("alice"))),
        ("small", Json::Number(JsonNumber::PosInt(42))),
        ("wide", Json::Number(JsonNumber::PosInt(4294967301))),
        ("negative", Json::Number(JsonNumber::NegInt(-7))),
        ("huge", Json::Number(JsonNumber::PosInt(18446744073709551615))),
        ("ratio", Json::Number(JsonNumber::Float(text("0.5")))),
        ("flag", Json::Bool(true)),
        ("nothing", Json::Null),
        ("list", Json::Array(vec![Json::Number(JsonNumber::PosInt(1)), Json::String(text("a"))])),
    ]);
    let of = |name: &str| extract_value(&Expression::Identifier(text(name)), &with);
    assert_eq!(of("name"), Ok(Value::String(text("alice"))));
    assert_eq!(of("small"), Ok(Value::I32(42)));
    assert_eq!(of("wide"), Ok(Value::I32(5)));
    assert_eq!(of("negative"), Ok(Value::I32(-7)));
    assert_eq!(of("huge"), Ok(Value::F64(text("18446744073709551615"))));
    assert_eq!(of("ratio"), Ok(Value::F64(text("0.5"))));
    assert_eq!(of("flag"), Ok(Value::Boolean(true)));
    assert_eq!(of("nothing"), Ok(Value::String(text("null"))));
    assert_eq!(of("list"), Ok(Value::String(text("[1,\"a\"]"))));
    assert_eq!(of("absent"), Ok(Value::String(text("absent"))));
    assert_eq!(
        extract_value(&Expression::StringLiteral(text("s")), &with),
        Ok(Value::String(text("s")))
    );
    assert_eq!(extract_value(&Expression::IntegerLiteral(-3), &with), Ok(Value::I32(-3)));
    assert_eq!(
        extract_value(&Expression::FloatLiteral(text("2.5")), &with),
        Ok(Value::F64(text("2.5")))
    );
    assert_eq!(extract_value(&Expression::BooleanLiteral(false), &with), Ok(Value::Boolean(false)));
    assert_eq!(
        extract_value(&Expression::ArrayLiteral(vec![]), &with),
        Err(CompileError::UnsupportedValue { kind: text("ArrayLiteral") })
    );
}

#[test]
fn a_name_is_looked_up_in_an_object_only() {
    let not_an_object = Json::Array(vec![]);
    assert_eq!(
        extract_value(&Expression::Identifier(text("x")), &not_an_object),
        Ok(Value::String(text("x")))
    );
}

#[test]
fn object_literal_gives_one_equality_per_field() {
    let fields = vec![
        FieldAddition { key: text("age"), value: FieldValue::Literal(Value::I64(30)) },
        FieldAddition {
            key: text("name"),
            value: FieldValue::Expression(Expression::StringLiteral(text("bob"))),
        },
        FieldAddition { key: text("city"), value: FieldValue::Identifier(text("town")) },
    ];
    let with = params(vec![("town", Json::String(text("Oslo")))]);
    assert_eq!(
        map_object_to_filter(&fields, &with),
        Ok(properties(vec![vec![
            condition("age", Operator::Eq, Value::I64(30)),
            condition("name", Operator::Eq, Value::String(text("bob"))),
            condition("city", Operator::Eq, Value::String(text("Oslo"))),
        ]]))
    );
    assert_eq!(map_object_to_filter(&vec![], &with), Ok(properties(vec![vec![]])));
    let bad = vec![FieldAddition { key: text("x"), value: FieldValue::Unsupported(text("Fields")) }];
    assert_eq!(
        map_object_to_filter(&bad, &with),
        Err(CompileError::UnsupportedFieldValue { kind: text("Fields") })
    );
}

#[test]
fn trim_quotes_strips_both_ends_only() {
    assert_eq!(trim_quotes("\"abc\""), "abc");
    assert_eq!(trim_quotes("\"\"a\"b\"\"\""), "a\"b");
    assert_eq!(trim_quotes("abc"), "abc");
    assert_eq!(trim_quotes("\"\"\""), "");
    assert_eq!(trim_quotes(""), "");
    assert_eq!(trim_quotes("\"é\""), "é");
}

#[test]
fn identifiers_split_into_names_and_conditions() {
    let ids = vec![
        IdType::Literal(text("\"u1\"")),
        IdType::Identifier(text("who")),
        IdType::ByIndex {
            index: Box::new(IdType::Identifier(text("email"))),
            value: ValueType::Literal(Value::String(text("a@b.c"))),
        },
        IdType::Identifier(text("count")),
        IdType::ByIndex {
            index: Box::new(IdType::Literal(text("\"nick\""))),
            value: ValueType::Identifier(text("handle")),
        },
        IdType::ByIndex {
            index: Box::new(IdType::Identifier(text("skipped"))),
            value: ValueType::Object,
        },
        IdType::ByIndex {
            index: Box::new(IdType::ByIndex {
                index: Box::new(IdType::Identifier(text("x"))),
                value: ValueType::Object,
            }),
            value: ValueType::Identifier(text("y")),
        },
    ];
    let with = params(vec![
        ("who", Json::String(text("u2"))),
        ("count", Json::Number(JsonNumber::PosInt(7))),
    ]);
    assert_eq!(
        extract_ids_and_props(&ids, &with),
        Ok((
            vec![text("u1"), text("u2"), text("7")],
            vec![
                condition("email", Operator::Eq, Value::String(text("a@b.c"))),
                condition("nick", Operator::Eq, Value::String(text("handle"))),
            ]
        ))
    );
}

#[test]
fn a_missing_parameter_is_an_error_that_names_it() {
    let ids = vec![IdType::Literal(text("a")), IdType::Identifier(text("user_id"))];
    assert_eq!(
        extract_ids_and_props(&ids, &empty()),
        Err(CompileError::MissingParameter { name: text("user_id") })
    );
    assert_eq!(
        compile(start_with("User", ids), vec![], &empty()),
        Err(CompileError::MissingParameter { name: text("user_id") })
    );
}

#[test]
fn an_identifier_alone_compiles_to_the_scan_and_is_handed_back() {
    let got = compile(start_with("Post", vec![IdType::Literal(text("\"id123\""))]), vec![], &empty());
    assert_eq!(got, Ok((vec![scan("Post")], FinalAction::Collect { range: None }, vec![text("id123")])));
}

#[test]
fn an_indexed_lookup_becomes_an_item_filter_after_the_scan() {
    let ids = vec![IdType::ByIndex {
        index: Box::new(IdType::Identifier(text("email"))),
        value: ValueType::Literal(Value::String(text("a@b.c"))),
    }];
    let got = compile(start_with("User", ids), vec![Step::Out(text("Friend"))], &empty()).unwrap();
    assert_eq!(
        got.0,
        vec![
            scan("User"),
            ToolArgs::FilterItems {
                filter: properties(vec![vec![condition(
                    "email",
                    Operator::Eq,
                    Value::String(text("a@b.c"))
                )]])
            },
            out("Friend"),
        ]
    );
    assert_eq!(got.2, Vec::<String>::new());
}

#[test]
fn start_nodes_map_to_their_scans() {
    let edge = StartNode::Edge { edge_type: text("Likes"), ids: None };
    assert_eq!(
        compile(edge, vec![], &empty()).unwrap().0,
        vec![ToolArgs::EFromType { edge_type: text("Likes") }]
    );
    let vector = StartNode::Vector { vector_type: text("Doc"), ids: None };
    assert_eq!(compile(vector, vec![], &empty()).unwrap().0, vec![scan("Doc")]);
    assert_eq!(compile(StartNode::Anonymous, vec![], &empty()).unwrap().0, vec![]);
}

#[test]
fn vector_searches() {
    let by_vector = SearchVector {
        vector_type: Some(text("Doc")),
        data: Some(VectorData::Vector(vec![text("0.1"), text("0.2")])),
        k: Some(EvaluatesToNumber::I64(3)),
    };
    assert_eq!(
        map_search_vector_to_tool(&by_vector, &empty()),
        Ok(ToolArgs::SearchVec {
            vector: vec![text("0.1"), text("0.2")],
            k: 3,
            min_score: None,
            cutoff: None
        })
    );
    let by_text = SearchVector {
        vector_type: None,
        data: Some(VectorData::Embed(EvaluatesToString::StringLiteral(text("cats")))),
        k: None,
    };
    assert_eq!(
        map_search_vector_to_tool(&by_text, &empty()),
        Ok(ToolArgs::SearchVecText { query: text("cats"), label: text(""), k: 10 })
    );
    let by_param = SearchVector {
        vector_type: Some(text("Doc")),
        data: Some(VectorData::Embed(EvaluatesToString::Identifier(text("q")))),
        k: Some(EvaluatesToNumber::Other),
    };
    let with = params(vec![("q", Json::String(text("dogs")))]);
    assert_eq!(
        map_search_vector_to_tool(&by_param, &with),
        Ok(ToolArgs::SearchVecText { query: text("dogs"), label: text("Doc"), k: 10 })
    );
    let with_number = params(vec![("q", Json::Number(JsonNumber::PosInt(5)))]);
    assert_eq!(
        map_search_vector_to_tool(&by_param, &with_number),
        Ok(ToolArgs::SearchVecText { query: text("5"), label: text("Doc"), k: 10 })
    );
    assert_eq!(
        map_search_vector_to_tool(&by_param, &empty()),
        Ok(ToolArgs::SearchVecText { query: text("q"), label: text("Doc"), k: 10 })
    );
    let by_name = SearchVector {
        vector_type: None,
        data: Some(VectorData::Identifier(text("v"))),
        k: None,
    };
    assert_eq!(map_search_vector_to_tool(&by_name, &empty()), Err(CompileError::UnsupportedVectorData));
    let nothing = SearchVector { vector_type: None, data: None, k: None };
    assert_eq!(map_search_vector_to_tool(&nothing, &empty()), Err(CompileError::UnsupportedVectorData));
    assert_eq!(
        compile(StartNode::SearchVector(by_text), vec![], &empty()).unwrap().0,
        vec![ToolArgs::SearchVecText { query: text("cats"), label: text(""), k: 10 }]
    );
}

#[test]
fn keyword_search_needs_a_query() {
    let search = BM25Search { type_arg: None, data: None, k: None };
    assert_eq!(map_bm25_to_tool(&search), Err(CompileError::MissingSearchQuery));
    let search = BM25Search { type_arg: None, data: Some(text("q")), k: None };
    assert_eq!(
        map_bm25_to_tool(&search),
        Ok(ToolArgs::SearchKeyword { query: text("q"), limit: 10, label: text("") })
    );
}

#[test]
fn a_negative_count_wraps_as_the_cast_does() {
    let search =
        BM25Search { type_arg: None, data: Some(text("q")), k: Some(EvaluatesToNumber::I32(-1)) };
    assert_eq!(
        map_bm25_to_tool(&search),
        Ok(ToolArgs::SearchKeyword { query: text("q"), limit: usize::MAX, label: text("") })
    );
}

#[test]
fn walks_emit_their_tools_in_order() {
    let got = compile(
        start("User"),
        vec![
            Step::Out(text("A")),
            Step::In(text("B")),
            Step::OutE(text("C")),
            Step::InE(text("D")),
        ],
        &empty(),
    )
    .unwrap();
    assert_eq!(
        got.0,
        vec![
            scan("User"),
            out("A"),
            ToolArgs::InStep { edge_label: text("B"), edge_type: EdgeType::Node, filter: None },
            ToolArgs::OutEStep { edge_label: text("C"), filter: None },
            ToolArgs::InEStep { edge_label: text("D"), filter: None },
        ]
    );
    assert_eq!(got.1, FinalAction::Collect { range: None });
}

#[test]
fn from_n_fuses_into_the_edge_step_before_it() {
    let got = compile(start("User"), vec![Step::OutE(text("Likes")), Step::FromN], &empty()).unwrap();
    assert_eq!(got.0, vec![scan("User"), out("Likes")]);
    let got = compile(start("User"), vec![Step::InE(text("Likes")), Step::ToN], &empty()).unwrap();
    assert_eq!(
        got.0,
        vec![
            scan("User"),
            ToolArgs::InStep { edge_label: text("Likes"), edge_type: EdgeType::Node, filter: None }
        ]
    );
}

#[test]
fn fusion_skips_item_filters_and_keeps_them_in_place() {
    let test = || test_of("w", Operator::Gt, Expression::IntegerLiteral(1));
    let got = compile(
        start("User"),
        vec![
            Step::OutE(text("First")),
            Step::OutE(text("Likes")),
            Step::Where(Box::new(test())),
            Step::Where(Box::new(test())),
            Step::ToN,
        ],
        &empty(),
    )
    .unwrap();
    let filter =
        || ToolArgs::FilterItems { filter: properties(vec![vec![condition("w", Operator::Gt, Value::I32(1))]]) };
    assert_eq!(
        got.0,
        vec![
            scan("User"),
            ToolArgs::OutEStep { edge_label: text("First"), filter: None },
            out("Likes"),
            filter(),
            filter(),
        ]
    );
}

#[test]
fn from_n_without_an_edge_step_fails_to_compile() {
    assert_eq!(
        compile(start("User"), vec![Step::Out(text("E")), Step::FromN], &empty()),
        Err(CompileError::MissingEdgeStep)
    );
    assert_eq!(compile(start("User"), vec![Step::ToN], &empty()), Err(CompileError::MissingEdgeStep));
    assert_eq!(
        compile(
            start("User"),
            vec![Step::OutE(text("E")), Step::OrderBy {
                order: Order::Asc,
                expression: Box::new(Expression::Identifier(text("age")))
            }, Step::FromN],
            &empty()
        ),
        Err(CompileError::MissingEdgeStep)
    );
    assert_eq!(
        compile(start("User"), vec![Step::OutE(text("E")), Step::FromN, Step::ToN], &empty()),
        Err(CompileError::MissingEdgeStep)
    );
}

#[test]
fn a_filtered_scan_compiles_to_exactly_two_tools() {
    let got = compile(
        start("User"),
        vec![Step::Where(Box::new(test_of("age", Operator::Gt, Expression::IntegerLiteral(50))))],
        &empty(),
    );
    assert_eq!(
        got,
        Ok((
            vec![
                scan("User"),
                ToolArgs::FilterItems {
                    filter: properties(vec![vec![condition("age", Operator::Gt, Value::I32(50))]])
                }
            ],
            FinalAction::Collect { range: None },
            vec![]
        ))
    );
    let got = compile(
        start("User"),
        vec![
            Step::Where(Box::new(test_of("active", Operator::Eq, Expression::BooleanLiteral(true)))),
            Step::Count,
        ],
        &empty(),
    )
    .unwrap();
    assert_eq!(got.1, FinalAction::Count);
    assert_eq!(got.0.len(), 2);
}

#[test]
fn the_last_terminal_step_wins() {
    let got = compile(start("User"), vec![Step::Count, Step::First], &empty()).unwrap();
    assert_eq!(got.1, FinalAction::Collect { range: Some((0, Some(1))) });
    let got = compile(
        start("User"),
        vec![Step::First, Step::GroupBy(vec![text("a")]), Step::Aggregate(vec![text("b")])],
        &empty(),
    )
    .unwrap();
    assert_eq!(got.1, FinalAction::Aggregate { properties: vec![text("b")] });
    assert_eq!(got.0, vec![scan("User")]);
}

#[test]
fn range_bounds() {
    let range = |a: Expression, b: Expression, with: &Json| {
        compile(start("User"), vec![Step::Range(a, b)], with).unwrap().1
    };
    let lit = Expression::IntegerLiteral;
    assert_eq!(range(lit(2), lit(9), &empty()), FinalAction::Collect { range: Some((2, Some(9))) });
    assert_eq!(
        range(lit(-1), lit(-2), &empty()),
        FinalAction::Collect { range: Some((usize::MAX, Some(usize::MAX - 1))) }
    );
    let with = params(vec![("from", Json::Number(JsonNumber::PosInt(3)))]);
    assert_eq!(
        range(Expression::Identifier(text("from")), Expression::Identifier(text("to")), &with),
        FinalAction::Collect { range: Some((3, None)) }
    );
    assert_eq!(
        range(Expression::StringLiteral(text("x")), Expression::BooleanLiteral(true), &empty()),
        FinalAction::Collect { range: Some((0, None)) }
    );
    assert_eq!(
        compile(start("User"), vec![Step::Range(lit(1), Expression::And(vec![]))], &empty()),
        Err(CompileError::UnsupportedValue { kind: text("And") })
    );
}

#[test]
fn ordering_takes_a_name_or_a_single_property() {
    let by = |e: Expression| {
        compile(start("User"), vec![Step::OrderBy { order: Order::Desc, expression: Box::new(e) }], &empty())
    };
    assert_eq!(
        by(Expression::Identifier(text("age"))).unwrap().0[1],
        ToolArgs::OrderBy { properties: text("age"), order: Order::Desc }
    );
    assert_eq!(
        by(anonymous(vec![field("score")])).unwrap().0[1],
        ToolArgs::OrderBy { properties: text("score"), order: Order::Desc }
    );
    assert_eq!(by(Expression::IntegerLiteral(1)), Err(CompileError::OrderByNotSimple));
    assert_eq!(by(anonymous(vec![])), Err(CompileError::PropertyAccessNotSimple));
    assert_eq!(
        by(anonymous(vec![field("a"), field("b")])),
        Err(CompileError::PropertyAccessNotSimple)
    );
    assert_eq!(by(anonymous(vec![Step::Count])), Err(CompileError::PropertyAccessNotSimple));
    assert_eq!(by(anonymous(vec![Step::Object(vec![])])), Err(CompileError::PropertyAccessNotSimple));
}

#[test]
fn an_object_literal_step_filters_by_equality() {
    let got = compile(
        start("User"),
        vec![Step::Object(vec![FieldAddition {
            key: text("age"),
            value: FieldValue::Literal(Value::I32(30)),
        }])],
        &empty(),
    )
    .unwrap();
    assert_eq!(
        got.0[1],
        ToolArgs::FilterItems {
            filter: properties(vec![vec![condition("age", Operator::Eq, Value::I32(30))]])
        }
    );
}

#[test]
fn an_unsupported_step_is_refused_with_its_index_and_kind() {
    assert_eq!(
        compile(
            start("User"),
            vec![Step::Out(text("E")), Step::Count, Step::Unsupported(text("Update"))],
            &empty()
        ),
        Err(CompileError::UnsupportedStep { index: 2, kind: text("Update") })
    );
    let stray = Step::BooleanOperation(BooleanOp::Unsupported(text("IsIn")));
    assert_eq!(
        compile(start("User"), vec![stray], &empty()),
        Err(CompileError::UnsupportedStep { index: 0, kind: text("BooleanOperation") })
    );
}

#[test]
fn a_step_that_writes_is_refused_as_read_only() {
    assert_eq!(
        compile(
            start("User"),
            vec![Step::Out(text("E")), Step::Write(text("Update"))],
            &empty()
        ),
        Err(CompileError::ReadOnly { index: 1, kind: text("Update") })
    );
}

#[test]
fn a_write_is_refused_wherever_it_hides_and_whatever_else_is_wrong() {
    assert_eq!(
        compile(start("User"), vec![Step::FromN, Step::Write(text("Upsert"))], &empty()),
        Err(CompileError::ReadOnly { index: 1, kind: text("Upsert") })
    );
    let hidden = anonymous(vec![
        field("age"),
        Step::BooleanOperation(BooleanOp::Compare {
            operator: Operator::Gt,
            operand: Box::new(Expression::IntegerLiteral(5)),
        }),
        Step::Write(text("Update")),
    ]);
    assert_eq!(
        compile(start("User"), vec![Step::Count, Step::Where(Box::new(hidden))], &empty()),
        Err(CompileError::ReadOnly { index: 1, kind: text("Where") })
    );
    assert_eq!(
        compile(
            start("User"),
            vec![Step::Range(Expression::IntegerLiteral(0), Expression::AddNode)],
            &empty()
        ),
        Err(CompileError::ReadOnly { index: 0, kind: text("Range") })
    );
}

#[test]
fn the_first_failing_step_decides() {
    assert_eq!(
        compile(
            start("User"),
            vec![Step::FromN, Step::Unsupported(text("Update"))],
            &empty()
        ),
        Err(CompileError::MissingEdgeStep)
    );
}
