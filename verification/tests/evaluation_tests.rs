use helixdb_explorer::ast::{
    BM25Search, EvaluatesToString, Expression, Query, ReturnType, SearchVector, StartNode,
    Statement, Step, Traversal, VectorData,
};
use helixdb_explorer::error::{CompileError, ResolutionError};
use helixdb_explorer::evaluation::{
    execute_dynamic_hql, indices_below, jobs_in_order, shuffled_indices, EvalPhase, Evaluation,
    Progress,
};
use helixdb_explorer::hql_executor::{ExecutionError, Reply, Stage};
use helixdb_explorer::hql_translator::FinalAction;
use helixdb_explorer::json::{Json, JsonNumber};
use helixdb_explorer::planner::{plan_query, EvalError, Job, Plan, ReadOnlyReason};
use helixdb_explorer::requests::Request;
use helixdb_explorer::tool_args::{EdgeType, ToolArgs};

fn text(s: &str) -> String {
    s.to_string()
}

fn parse(json: &str) -> Json {
    Json::parse(json).unwrap()
}

fn ok(body: &str) -> Reply {
    Reply::Received { status: 200, body: text(body) }
}

fn scan(label: &str) -> ToolArgs {
    ToolArgs::NFromType { node_type: text(label) }
}

fn nodes(label: &str, steps: Vec<Step>) -> Expression {
    Expression::Traversal(Box::new(Traversal {
        start: StartNode::Node { node_type: text(label), ids: None },
        steps,
    }))
}

fn from_variable(parent: &str, steps: Vec<Step>) -> Expression {
    Expression::Traversal(Box::new(Traversal { start: StartNode::Identifier(text(parent)), steps }))
}

fn assign(variable: &str, value: Expression) -> Statement {
    Statement::Assignment { variable: text(variable), value }
}

fn give_back(name: &str) -> ReturnType {
    ReturnType::Expression(Expression::Identifier(text(name)))
}

fn query(statements: Vec<Statement>, return_values: Vec<ReturnType>) -> Query {
    Query { name: text("ExplorerTmp"), parameters: vec![], statements, return_values }
}

fn job(name: &str, tools: Vec<ToolArgs>) -> Job {
    Job { name: text(name), tools, action: FinalAction::Collect { range: None }, ids: vec![] }
}

fn member<'a>(v: &'a Json, key: &str) -> Option<&'a Json> {
    v.get(key)
}

#[test]
fn a_plan_holds_one_job_for_each_returned_variable() {
    let q = query(
        vec![
            assign("users", nodes("User", vec![])),
            assign("friends", from_variable("users", vec![Step::Out(text("Friend"))])),
            assign("unused", nodes("Post", vec![])),
        ],
        vec![give_back("friends"), give_back("users")],
    );
    let plan = plan_query(&q, None).unwrap();
    assert_eq!(
        plan.jobs,
        vec![
            job(
                "friends",
                vec![
                    scan("User"),
                    ToolArgs::OutStep {
                        edge_label: text("Friend"),
                        edge_type: EdgeType::Node,
                        filter: None
                    }
                ]
            ),
            job("users", vec![scan("User")]),
        ]
    );
    assert_eq!(plan.fast_path, None);
    assert_eq!(plan.params, Json::Object(vec![]));
}

#[test]
fn literals_assigned_in_the_query_become_parameters() {
    let q = query(
        vec![
            assign("name", Expression::StringLiteral(text("ann"))),
            assign("age", Expression::IntegerLiteral(-4)),
            assign("ratio", Expression::FloatLiteral(text("0.5"))),
            assign("ok", Expression::BooleanLiteral(true)),
            assign(
                "list",
                Expression::ArrayLiteral(vec![
                    Expression::IntegerLiteral(1),
                    Expression::Identifier(text("skipped")),
                    Expression::ArrayLiteral(vec![Expression::StringLiteral(text("x"))]),
                ]),
            ),
            assign("age", Expression::IntegerLiteral(5)),
            assign("users", nodes("User", vec![])),
        ],
        vec![give_back("users")],
    );
    let supplied = Json::Object(vec![(text("given"), Json::Null), (text("ok"), Json::Bool(false))]);
    let plan = plan_query(&q, Some(supplied)).unwrap();
    assert_eq!(
        plan.params,
        Json::Object(vec![
            (text("given"), Json::Null),
            (text("ok"), Json::Bool(true)),
            (text("name"), Json::String(text("ann"))),
            (text("age"), Json::Number(JsonNumber::PosInt(5))),
            (text("ratio"), Json::Number(JsonNumber::Float(text("0.5")))),
            (
                text("list"),
                Json::Array(vec![
                    Json::Number(JsonNumber::PosInt(1)),
                    Json::Array(vec![Json::String(text("x"))])
                ])
            ),
        ])
    );
}

#[test]
fn parameters_that_are_no_object_stay_as_they_are() {
    let q = query(
        vec![assign("n", Expression::IntegerLiteral(1)), assign("users", nodes("User", vec![]))],
        vec![give_back("users")],
    );
    let plan = plan_query(&q, Some(Json::Array(vec![]))).unwrap();
    assert_eq!(plan.params, Json::Array(vec![]));
}

#[test]
fn a_query_that_writes_or_loops_is_refused() {
    let write = EvalError::ReadOnly(ReadOnlyReason::Write);
    let control = EvalError::ReadOnly(ReadOnlyReason::ControlFlow);
    for added in [Expression::AddNode, Expression::AddEdge, Expression::AddVector] {
        let q = query(vec![assign("users", nodes("User", vec![])), assign("x", added)], vec![]);
        assert_eq!(plan_query(&q, None), Err(EvalError::ReadOnly(ReadOnlyReason::Write)));
    }
    let q = query(vec![Statement::Expression(Expression::AddNode)], vec![]);
    assert_eq!(plan_query(&q, None), Err(write));
    let q = query(vec![assign("users", nodes("User", vec![])), Statement::Drop], vec![give_back("users")]);
    assert_eq!(plan_query(&q, None), Err(EvalError::ReadOnly(ReadOnlyReason::ControlFlow)));
    let q = query(vec![Statement::ForLoop], vec![]);
    assert_eq!(plan_query(&q, None), Err(EvalError::ReadOnly(ReadOnlyReason::ControlFlow)));
    let (ev, progress) = execute_dynamic_hql(&q, None);
    assert_eq!(progress, Progress::Done(Err(control)));
    assert_eq!(ev.phase, EvalPhase::Finished);
}

#[test]
fn a_step_that_writes_is_refused_even_where_its_variable_is_not_returned() {
    let q = query(
        vec![
            assign("x", nodes("User", vec![Step::Write(text("Update"))])),
            assign("y", nodes("User", vec![])),
        ],
        vec![give_back("y")],
    );
    let (ev, progress) = execute_dynamic_hql(&q, None);
    assert_eq!(progress, Progress::Done(Err(EvalError::ReadOnly(ReadOnlyReason::Write))));
    assert_eq!(ev.phase, EvalPhase::Finished);
}

#[test]
fn a_write_at_any_depth_is_refused() {
    let inner = Expression::Traversal(Box::new(Traversal {
        start: StartNode::Anonymous,
        steps: vec![Step::Out(text("E")), Step::Write(text("Upsert"))],
    }));
    let hidden = nodes(
        "User",
        vec![Step::Where(Box::new(Expression::And(vec![Expression::BooleanLiteral(true), inner])))],
    );
    let q = query(vec![Statement::Expression(hidden)], vec![]);
    assert_eq!(plan_query(&q, None), Err(EvalError::ReadOnly(ReadOnlyReason::Write)));
    let listed = Expression::ArrayLiteral(vec![Expression::IntegerLiteral(1), Expression::AddEdge]);
    let q = query(vec![assign("a", listed), assign("users", nodes("User", vec![]))], vec![]);
    assert_eq!(plan_query(&q, None), Err(EvalError::ReadOnly(ReadOnlyReason::Write)));
}

#[test]
fn a_write_is_refused_before_any_other_error() {
    let bad_search = Expression::BM25Search(BM25Search { type_arg: None, data: None, k: None });
    let q = query(
        vec![assign("found", bad_search), Statement::Drop, Statement::Expression(Expression::AddNode)],
        vec![give_back("found")],
    );
    assert_eq!(plan_query(&q, None), Err(EvalError::ReadOnly(ReadOnlyReason::ControlFlow)));
    let mut named = query(
        vec![assign("users", nodes("User", vec![])), Statement::Expression(Expression::AddVector)],
        vec![give_back("users")],
    );
    named.name = text("GetUsers");
    named.parameters = vec![text("p")];
    let (_, progress) = execute_dynamic_hql(&named, None);
    assert_eq!(progress, Progress::Done(Err(EvalError::ReadOnly(ReadOnlyReason::Write))));
}

#[test]
fn a_query_with_nothing_to_run_is_refused() {
    assert_eq!(plan_query(&query(vec![], vec![]), None), Err(EvalError::NothingToRun));
    let q = query(vec![assign("n", Expression::IntegerLiteral(1))], vec![]);
    assert_eq!(plan_query(&q, None), Err(EvalError::NothingToRun));
    let q = query(
        vec![assign("users", nodes("User", vec![]))],
        vec![ReturnType::Other, ReturnType::Expression(Expression::IntegerLiteral(1))],
    );
    assert_eq!(plan_query(&q, None), Err(EvalError::NothingToRun));
    let q = query(
        vec![assign("users", nodes("User", vec![])), Statement::Expression(Expression::Identifier(text("users")))],
        vec![],
    );
    assert_eq!(plan_query(&q, None), Err(EvalError::NothingToRun));
}

#[test]
fn without_a_return_the_bare_traversal_or_the_last_assignment_runs() {
    let bare = query(
        vec![assign("users", nodes("User", vec![])), Statement::Expression(nodes("Post", vec![]))],
        vec![],
    );
    assert_eq!(plan_query(&bare, None).unwrap().jobs, vec![job("_implicit_", vec![scan("Post")])]);
    let last = query(
        vec![assign("users", nodes("User", vec![])), assign("posts", nodes("Post", vec![]))],
        vec![],
    );
    assert_eq!(plan_query(&last, None).unwrap().jobs, vec![job("posts", vec![scan("Post")])]);
}

#[test]
fn lists_in_a_return_give_their_plain_names() {
    let q = query(
        vec![assign("a", nodes("A", vec![])), assign("b", nodes("B", vec![])), assign("c", nodes("C", vec![]))],
        vec![
            give_back("c"),
            ReturnType::Array(vec![
                give_back("a"),
                ReturnType::Other,
                ReturnType::Array(vec![give_back("b")]),
                give_back("missing"),
            ]),
            give_back("b"),
        ],
    );
    let names: Vec<String> = plan_query(&q, None).unwrap().jobs.into_iter().map(|j| j.name).collect();
    assert_eq!(names, vec![text("c"), text("a"), text("b")]);
}

#[test]
fn searches_run_as_they_are() {
    let keyword = BM25Search { type_arg: Some(text("Post")), data: Some(text("\"q\"")), k: None };
    let embed = SearchVector {
        vector_type: Some(text("Doc")),
        data: Some(VectorData::Embed(EvaluatesToString::Identifier(text("what")))),
        k: None,
    };
    let q = query(
        vec![
            assign("what", Expression::StringLiteral(text("cats"))),
            assign("found", Expression::BM25Search(keyword)),
            Statement::Expression(Expression::SearchVector(embed)),
        ],
        vec![give_back("found")],
    );
    let plan = plan_query(&q, None).unwrap();
    assert_eq!(
        plan.jobs,
        vec![
            job("_implicit_", vec![ToolArgs::SearchVecText { query: text("cats"), label: text("Doc"), k: 10 }]),
            job("found", vec![ToolArgs::SearchKeyword { query: text("\"q\""), limit: 10, label: text("Post") }]),
        ]
    );
    let bad = query(
        vec![assign("found", Expression::BM25Search(BM25Search { type_arg: None, data: None, k: None }))],
        vec![give_back("found")],
    );
    assert_eq!(plan_query(&bad, None), Err(EvalError::Compile(CompileError::MissingSearchQuery)));
}

#[test]
fn what_does_not_resolve_or_compile_is_refused_before_anything_is_sent() {
    let unresolved = query(
        vec![assign("users", nodes("User", vec![])), assign("posts", from_variable("nobody", vec![]))],
        vec![give_back("users"), give_back("posts")],
    );
    let (ev, progress) = execute_dynamic_hql(&unresolved, None);
    assert_eq!(
        progress,
        Progress::Done(Err(EvalError::Resolution(ResolutionError::VariableNotFound { name: text("nobody") })))
    );
    assert_eq!(ev.phase, EvalPhase::Finished);
    let uncompilable = query(
        vec![assign("users", nodes("User", vec![])), assign("bad", nodes("User", vec![Step::ToN]))],
        vec![give_back("users"), give_back("bad")],
    );
    let (_, progress) = execute_dynamic_hql(&uncompilable, None);
    assert_eq!(progress, Progress::Done(Err(EvalError::Compile(CompileError::MissingEdgeStep))));
    let cycle = query(
        vec![assign("a", from_variable("b", vec![])), assign("b", from_variable("a", vec![]))],
        vec![give_back("a")],
    );
    assert!(matches!(
        plan_query(&cycle, None),
        Err(EvalError::Resolution(ResolutionError::CircularDependency { .. }))
    ));
}

#[test]
fn the_compiled_query_is_tried_first_where_the_query_has_a_name_and_parameters() {
    let mut q = query(vec![assign("users", nodes("User", vec![]))], vec![give_back("users")]);
    q.name = text("GetUsers");
    assert_eq!(plan_query(&q, None).unwrap().fast_path, None);
    q.parameters = vec![text("min_age")];
    assert_eq!(plan_query(&q, None).unwrap().fast_path, Some(text("GetUsers")));
    q.name = text("ExplorerTmp");
    assert_eq!(plan_query(&q, None).unwrap().fast_path, None);

    q.name = text("GetUsers");
    let supplied = Json::Object(vec![(text("min_age"), Json::Number(JsonNumber::PosInt(3)))]);
    let (ev, first) = execute_dynamic_hql(&q, Some(supplied.clone()));
    assert_eq!(
        first,
        Progress::Send(Request::Compiled { query_name: text("GetUsers"), body: supplied.clone() })
    );
    let (ev, done) = ev.advance(ok("{\"users\":[{\"id\":\"1\",\"properties\":{\"n\":1},\"version\":2}]}"));
    assert_eq!(done, Progress::Done(Ok(parse("{\"users\":[{\"id\":\"1\",\"n\":1}]}"))));
    assert_eq!(ev.phase, EvalPhase::Finished);
}

#[test]
fn a_compiled_query_that_fails_falls_through_to_the_jobs() {
    let mut q = query(vec![assign("users", nodes("User", vec![]))], vec![give_back("users")]);
    q.name = text("GetUsers");
    q.parameters = vec![text("p")];
    for reply in [
        Reply::Failed { detail: text("refused") },
        Reply::Received { status: 404, body: text("no such query") },
        ok("not json"),
    ] {
        let (ev, _) = execute_dynamic_hql(&q, None);
        let (ev, next) = ev.advance(reply);
        assert_eq!(next, Progress::Send(Request::Init));
        assert_eq!(ev.phase, EvalPhase::Opening);
    }
}

#[test]
fn each_variable_runs_on_a_session_of_its_own() {
    let plan = Plan { params: Json::Object(vec![]), jobs: vec![], fast_path: None };
    let queue = vec![job("users", vec![scan("User")]), job("posts", vec![scan("Post")])];
    let (ev, first) = Evaluation::begin_with(plan, queue);
    assert_eq!(first, Progress::Send(Request::Init));
    let (ev, tool) = ev.advance(ok("\"s1\""));
    assert_eq!(tool, Progress::Send(Request::Tool { connection_id: text("s1"), tool: scan("User") }));
    let (ev, collect) = ev.advance(ok(""));
    assert!(matches!(collect, Progress::Send(Request::Post { .. })));
    let (ev, init) = ev.advance(ok("[{\"id\":\"u\",\"version\":1}]"));
    assert_eq!(init, Progress::Send(Request::Init));
    assert_eq!(ev.position, 1);
    let (ev, tool) = ev.advance(ok("\"s2\""));
    assert_eq!(tool, Progress::Send(Request::Tool { connection_id: text("s2"), tool: scan("Post") }));
    let (ev, _) = ev.advance(ok(""));
    let (ev, done) = ev.advance(ok("[{\"id\":\"p\",\"properties\":{\"title\":\"t\"}}]"));
    assert_eq!(
        done,
        Progress::Done(Ok(Json::Object(vec![
            (text("users"), parse("[{\"id\":\"u\"}]")),
            (text("posts"), parse("[{\"id\":\"p\",\"title\":\"t\"}]")),
        ])))
    );
    assert_eq!(ev.phase, EvalPhase::Finished);
    let (_, again) = ev.advance(ok(""));
    assert_eq!(again, Progress::Done(Err(EvalError::Execution(ExecutionError::NotRunning))));
}

#[test]
fn a_bare_traversal_gives_its_result_directly() {
    let q = query(vec![Statement::Expression(nodes("User", vec![]))], vec![]);
    let (ev, first) = execute_dynamic_hql(&q, None);
    assert_eq!(first, Progress::Send(Request::Init));
    let (ev, _) = ev.advance(ok("\"s\""));
    let (ev, _) = ev.advance(ok(""));
    let (_, done) = ev.advance(ok("[{\"id\":\"u\",\"out_edges\":[]}]"));
    assert_eq!(done, Progress::Done(Ok(parse("[{\"id\":\"u\"}]"))));
}

#[test]
fn a_session_that_cannot_be_opened_ends_the_evaluation() {
    let q = query(vec![assign("users", nodes("User", vec![]))], vec![give_back("users")]);
    let (ev, _) = execute_dynamic_hql(&q, None);
    let (_, done) = ev.advance(Reply::Failed { detail: text("refused") });
    assert_eq!(
        done,
        Progress::Done(Err(EvalError::Execution(ExecutionError::Transport {
            stage: Stage::Init,
            detail: text("refused")
        })))
    );
    let (ev, _) = execute_dynamic_hql(&q, None);
    let (_, done) = ev.advance(Reply::Received { status: 500, body: text("down") });
    assert_eq!(
        done,
        Progress::Done(Err(EvalError::Execution(ExecutionError::Status {
            stage: Stage::Init,
            status: 500,
            body: text("down")
        })))
    );
    let (ev, _) = execute_dynamic_hql(&q, None);
    let (_, done) = ev.advance(ok("{\"id\":1}"));
    assert!(matches!(
        done,
        Progress::Done(Err(EvalError::Execution(ExecutionError::Session { .. })))
    ));
}

#[test]
fn a_failure_in_one_variable_ends_the_evaluation() {
    let plan = Plan { params: Json::Object(vec![]), jobs: vec![], fast_path: None };
    let queue = vec![job("users", vec![scan("User")]), job("posts", vec![scan("Post")])];
    let (ev, _) = Evaluation::begin_with(plan, queue);
    let (ev, _) = ev.advance(ok("\"s1\""));
    let (ev, done) = ev.advance(Reply::Received { status: 400, body: text("bad tool") });
    assert_eq!(
        done,
        Progress::Done(Err(EvalError::Execution(ExecutionError::Status {
            stage: Stage::Tool,
            status: 400,
            body: text("bad tool")
        })))
    );
    assert_eq!(ev.phase, EvalPhase::Finished);
}

#[test]
fn the_jobs_run_in_some_order_each_once() {
    let statements: Vec<Statement> =
        (0..12).map(|i| assign(&format!("v{}", i), nodes(&format!("T{}", i), vec![]))).collect();
    let wanted: Vec<ReturnType> = (0..12).map(|i| give_back(&format!("v{}", i))).collect();
    let q = query(statements, wanted);
    let planned = plan_query(&q, None).unwrap();
    let (ev, first) = execute_dynamic_hql(&q, None);
    assert_eq!(first, Progress::Send(Request::Init));
    assert_eq!(ev.queue.len(), 12);
    for job in &planned.jobs {
        assert_eq!(ev.queue.iter().filter(|queued| *queued == job).count(), 1);
    }
}

#[test]
fn shuffled_indices_list_each_index_once() {
    for n in [0usize, 1, 2, 17] {
        let mut order = shuffled_indices(n);
        assert_eq!(order.len(), n);
        order.sort();
        assert_eq!(order, indices_below(n));
    }
    assert_eq!(indices_below(3), vec![0, 1, 2]);
}

#[test]
fn jobs_in_a_given_order() {
    let jobs = vec![job("a", vec![]), job("b", vec![]), job("c", vec![])];
    assert_eq!(
        jobs_in_order(&jobs, &vec![2, 0, 1]),
        vec![job("c", vec![]), job("a", vec![]), job("b", vec![])]
    );
}

#[test]
fn results_by_variable_are_normalized_as_one_document() {
    let plan = Plan { params: Json::Object(vec![]), jobs: vec![], fast_path: None };
    let queue = vec![job("a", vec![]), job("a", vec![])];
    let (ev, _) = Evaluation::begin_with(plan, queue);
    let (ev, _) = ev.advance(ok("\"s1\""));
    let (ev, _) = ev.advance(ok("[1]"));
    let (ev, _) = ev.advance(ok("\"s2\""));
    let (_, done) = ev.advance(ok("[2]"));
    match done {
        Progress::Done(Ok(result)) => {
            assert_eq!(member(&result, "a"), Some(&parse("[2]")));
            assert_eq!(result, Json::Object(vec![(text("a"), parse("[2]"))]));
        }
        other => panic!("unexpected {:?}", other),
    }
}
