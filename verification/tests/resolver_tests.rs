use helixdb_explorer::ast::{StartNode, Step, Traversal};
use helixdb_explorer::error::ResolutionError;
use helixdb_explorer::resolver::{resolve_traversal, resolve_traversal_recursive, MAX_DEPTH};

fn text(s: &str) -> String {
    s.to_string()
}

fn from_type(label: &str, steps: Vec<Step>) -> Traversal {
    Traversal { start: StartNode::Node { node_type: text(label), ids: None }, steps }
}

fn from_variable(parent: &str, steps: Vec<Step>) -> Traversal {
    Traversal { start: StartNode::Identifier(text(parent)), steps }
}

/// `v0 <- N<T>::Out<E0>`, `v1 <- v0::Out<E1>`, ..., up to `v(n-1)`.
fn chain(n: usize) -> Vec<(String, Traversal)> {
    let mut table = vec![(text("v0"), from_type("T", vec![Step::Out(text("E0"))]))];
    for i in 1..n {
        table.push((
            format!("v{}", i),
            from_variable(&format!("v{}", i - 1), vec![Step::Out(format!("E{}", i))]),
        ));
    }
    table
}

#[test]
fn a_traversal_with_a_real_start_resolves_to_itself() {
    let table = vec![(text("users"), from_type("User", vec![Step::Count]))];
    assert_eq!(resolve_traversal("users", &table), Ok(Some(from_type("User", vec![Step::Count]))));
}

#[test]
fn an_unknown_variable_resolves_to_nothing() {
    let table = vec![(text("users"), from_type("User", vec![]))];
    assert_eq!(resolve_traversal("posts", &table), Ok(None));
    assert_eq!(resolve_traversal("users", &vec![]), Ok(None));
}

#[test]
fn a_chain_collapses_into_one_traversal() {
    let table = vec![
        (text("a"), from_type("User", vec![Step::Out(text("Follows"))])),
        (text("b"), from_variable("a", vec![Step::Out(text("Likes")), Step::In(text("Wrote"))])),
        (text("c"), from_variable("b", vec![Step::Count])),
    ];
    assert_eq!(
        resolve_traversal("c", &table),
        Ok(Some(from_type(
            "User",
            vec![
                Step::Out(text("Follows")),
                Step::Out(text("Likes")),
                Step::In(text("Wrote")),
                Step::Count,
            ]
        )))
    );
    assert_eq!(
        resolve_traversal("b", &table),
        Ok(Some(from_type(
            "User",
            vec![Step::Out(text("Follows")), Step::Out(text("Likes")), Step::In(text("Wrote"))]
        )))
    );
}

#[test]
fn a_chain_within_the_bound_resolves_and_a_longer_one_does_not() {
    let table = chain(MAX_DEPTH + 1);
    let last = format!("v{}", MAX_DEPTH);
    let resolved = resolve_traversal(&last, &table).unwrap().unwrap();
    assert_eq!(resolved.start, StartNode::Node { node_type: text("T"), ids: None });
    let expected: Vec<Step> = (0..=MAX_DEPTH).map(|i| Step::Out(format!("E{}", i))).collect();
    assert_eq!(resolved.steps, expected);

    let table = chain(MAX_DEPTH + 2);
    let last = format!("v{}", MAX_DEPTH + 1);
    assert_eq!(
        resolve_traversal(&last, &table),
        Err(ResolutionError::CircularDependency { name: text("v0") })
    );
}

#[test]
fn a_cycle_of_two_fails_with_circular_dependency() {
    let table = vec![
        (text("a"), from_variable("b", vec![Step::Out(text("E1"))])),
        (text("b"), from_variable("a", vec![Step::Out(text("E2"))])),
    ];
    assert_eq!(
        resolve_traversal("a", &table),
        Err(ResolutionError::CircularDependency { name: text("b") })
    );
    assert_eq!(
        resolve_traversal("b", &table),
        Err(ResolutionError::CircularDependency { name: text("a") })
    );
}

#[test]
fn a_variable_that_starts_at_itself_fails_with_circular_dependency() {
    let table = vec![(text("a"), from_variable("a", vec![]))];
    assert_eq!(
        resolve_traversal("a", &table),
        Err(ResolutionError::CircularDependency { name: text("a") })
    );
}

#[test]
fn a_missing_parent_is_an_error_that_names_the_parent() {
    let table = vec![(text("posts"), from_variable("users", vec![Step::Out(text("Wrote"))]))];
    assert_eq!(
        resolve_traversal("posts", &table),
        Err(ResolutionError::VariableNotFound { name: text("users") })
    );
    let table = vec![
        (text("c"), from_variable("b", vec![])),
        (text("b"), from_variable("a", vec![])),
    ];
    assert_eq!(
        resolve_traversal("c", &table),
        Err(ResolutionError::VariableNotFound { name: text("a") })
    );
}

#[test]
fn the_last_assignment_of_a_variable_counts() {
    let table = vec![
        (text("a"), from_type("User", vec![])),
        (text("b"), from_variable("a", vec![Step::Count])),
        (text("a"), from_type("Post", vec![Step::First])),
    ];
    assert_eq!(
        resolve_traversal("b", &table),
        Ok(Some(from_type("Post", vec![Step::First, Step::Count])))
    );
}

#[test]
fn resolution_past_the_bound_fails_at_once() {
    let table = vec![(text("a"), from_type("User", vec![]))];
    assert_eq!(
        resolve_traversal_recursive("a", &table, MAX_DEPTH + 1),
        Err(ResolutionError::CircularDependency { name: text("a") })
    );
    assert_eq!(
        resolve_traversal_recursive("a", &table, MAX_DEPTH),
        Ok(Some(from_type("User", vec![])))
    );
}
