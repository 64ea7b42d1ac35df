//! Resolution of variables: a traversal that starts at another variable is
//! expanded into one traversal that starts at a real start node.

use crate::ast::{
    clone_steps, steps_view, StartNode, StartNodeView, Step, StepView, Traversal, TraversalView,
};
use crate::error::{ResolutionError, ResolutionErrorView};
use crate::text::str_equal;
use vstd::prelude::*;

verus! {

/// How many variables a chain may go through before resolution gives up.
pub const MAX_DEPTH: usize = 20;

/// The assignments of a query, in the order written: each a variable and the
/// traversal assigned to it.
pub type AssignmentsView = Seq<(Seq<char>, TraversalView)>;

/// The views of a list of assignments, item by item.
pub open spec fn assignments_view(entries: Seq<(String, Traversal)>) -> AssignmentsView {
    Seq::new(entries.len(), |i: int| (entries[i].0@, entries[i].1@))
}

/// The traversal assigned to a variable: that of its last assignment.
pub open spec fn binding(table: AssignmentsView, name: Seq<char>) -> Option<TraversalView>
    decreases table.len(),
{
    if table.len() == 0 {
        None
    } else if table.last().0 == name {
        Some(table.last().1)
    } else {
        binding(table.drop_last(), name)
    }
}

/// The variable that a traversal starts at, if it starts at one.
pub open spec fn parent_of(t: TraversalView) -> Option<Seq<char>> {
    match t.start {
        StartNodeView::Identifier(parent) => Some(parent),
        _ => None,
    }
}

/// The traversal of `name` with `depth` variables already gone through.
///
/// A variable that was never assigned gives nothing. A traversal that starts
/// at a real start node is its own resolution. One that starts at another
/// variable takes that variable's resolution and appends its own steps; the
/// other variable must exist. Past the depth bound resolution fails.
pub open spec fn resolve_at(table: AssignmentsView, name: Seq<char>, depth: nat) -> Result<
    Option<TraversalView>,
    ResolutionErrorView,
>
    decreases MAX_DEPTH + 1 - depth,
{
    if depth > MAX_DEPTH {
        Err(ResolutionErrorView::CircularDependency { name })
    } else {
        match binding(table, name) {
            None => Ok(None),
            Some(t) => match parent_of(t) {
                None => Ok(Some(t)),
                Some(parent) => match resolve_at(table, parent, depth + 1) {
                    Err(e) => Err(e),
                    Ok(None) => Err(ResolutionErrorView::VariableNotFound { name: parent }),
                    Ok(Some(p)) => Ok(
                        Some(TraversalView { start: p.start, steps: p.steps + t.steps }),
                    ),
                },
            },
        }
    }
}

/// The traversal that a variable resolves to.
pub open spec fn resolve(table: AssignmentsView, name: Seq<char>) -> Result<
    Option<TraversalView>,
    ResolutionErrorView,
> {
    resolve_at(table, name, 0)
}

/// A resolved traversal never starts at a variable.
pub proof fn lemma_resolved_start(table: AssignmentsView, name: Seq<char>, depth: nat)
    ensures
        match resolve_at(table, name, depth) {
            Ok(Some(t)) => !(t.start is Identifier),
            _ => true,
        },
    decreases MAX_DEPTH + 1 - depth,
{
    if depth <= MAX_DEPTH {
        match binding(table, name) {
            None => {},
            Some(t) => match parent_of(t) {
                None => {},
                Some(parent) => {
                    lemma_resolved_start(table, parent, depth + 1);
                },
            },
        }
    }
}

/// The traversal assigned to a variable.
pub fn find_assignment<'a>(assignments: &'a Vec<(String, Traversal)>, name: &str) -> (r: Option<
    &'a Traversal,
>)
    ensures
        match r {
            Some(t) => binding(assignments_view(assignments@), name@) == Some(t@),
            None => binding(assignments_view(assignments@), name@) is None,
        },
{
    let ghost table = assignments_view(assignments@);
    let mut i: usize = assignments.len();
    proof {
        assert(table.take(i as int) =~= table);
    }
    while i > 0
        invariant
            i <= assignments.len(),
            table == assignments_view(assignments@),
            binding(table, name@) == binding(table.take(i as int), name@),
        decreases i,
    {
        i -= 1;
        proof {
            assert(table.take(i + 1).last() == table[i as int]);
            assert(table.take(i + 1).drop_last() =~= table.take(i as int));
        }
        if str_equal(assignments[i].0.as_str(), name) {
            return Some(&assignments[i].1);
        }
    }
    None
}

/// The views of two lists of steps, one after the other.
pub proof fn lemma_steps_view_add(a: Seq<Step>, b: Seq<Step>)
    ensures
        steps_view(a + b) == steps_view(a) + steps_view(b),
{
    assert(steps_view(a + b) =~= steps_view(a) + steps_view(b));
}

/// Resolves `name` with `depth` variables already gone through.
pub fn resolve_traversal_recursive(
    name: &str,
    assignments: &Vec<(String, Traversal)>,
    depth: usize,
) -> (r: Result<Option<Traversal>, ResolutionError>)
    ensures
        match r {
            Ok(Some(t)) => resolve_at(assignments_view(assignments@), name@, depth as nat) == Ok::<
                Option<TraversalView>,
                ResolutionErrorView,
            >(Some(t@)),
            Ok(None) => resolve_at(assignments_view(assignments@), name@, depth as nat) == Ok::<
                Option<TraversalView>,
                ResolutionErrorView,
            >(None),
            Err(e) => resolve_at(assignments_view(assignments@), name@, depth as nat) == Err::<
                Option<TraversalView>,
                ResolutionErrorView,
            >(e@),
        },
    decreases MAX_DEPTH + 1 - depth,
{
    if depth > MAX_DEPTH {
        return Err(ResolutionError::CircularDependency { name: String::from_str(name) });
    }
    let t = match find_assignment(assignments, name) {
        Some(t) => t,
        None => {
            return Ok(None);
        },
    };
    match &t.start {
        StartNode::Identifier(parent) => {
            match resolve_traversal_recursive(parent.as_str(), assignments, depth + 1) {
                Err(e) => Err(e),
                Ok(None) => Err(ResolutionError::VariableNotFound { name: parent.clone() }),
                Ok(Some(p)) => {
                    let ghost parent_steps = p.steps@;
                    let mut steps = p.steps;
                    let mut own = clone_steps(&t.steps);
                    proof {
                        lemma_steps_view_add(parent_steps, own@);
                    }
                    steps.append(&mut own);
                    Ok(Some(Traversal { start: p.start, steps }))
                },
            }
        },
        _ => Ok(Some(t.clone())),
    }
}

/// Resolves a variable to one traversal: its own where it starts at a real
/// start node, else that of the variable it starts at, followed by its own
/// steps. `Ok(None)` of a variable that was never assigned.
///
/// A traversal that starts at a variable with no assignment fails with
/// `VariableNotFound`, which names that variable; a chain that goes through
/// more than `MAX_DEPTH` variables fails with `CircularDependency`.
pub fn resolve_traversal(name: &str, assignments: &Vec<(String, Traversal)>) -> (r: Result<
    Option<Traversal>,
    ResolutionError,
>)
    ensures
        match r {
            Ok(Some(t)) => resolve(assignments_view(assignments@), name@) == Ok::<
                Option<TraversalView>,
                ResolutionErrorView,
            >(Some(t@)) && !(t@.start is Identifier),
            Ok(None) => resolve(assignments_view(assignments@), name@) == Ok::<
                Option<TraversalView>,
                ResolutionErrorView,
            >(None),
            Err(e) => resolve(assignments_view(assignments@), name@) == Err::<
                Option<TraversalView>,
                ResolutionErrorView,
            >(e@),
        },
{
    proof {
        lemma_resolved_start(assignments_view(assignments@), name@, 0);
    }
    resolve_traversal_recursive(name, assignments, 0)
}

/// Whether `names` is a chain of assignments: the first variable is assigned
/// a traversal with a real start node, and each later one a traversal that
/// starts at the variable before it.
pub open spec fn is_chain(table: AssignmentsView, names: Seq<Seq<char>>) -> bool {
    &&& names.len() > 0
    &&& forall|i: int| 0 <= i < names.len() ==> (#[trigger] binding(table, names[i])) is Some
    &&& parent_of(binding(table, names[0]).unwrap()) is None
    &&& forall|i: int|
        1 <= i < names.len() ==> parent_of(#[trigger] binding(table, names[i]).unwrap()) == Some(
            names[i - 1],
        )
}

/// The steps of the first `n + 1` variables of a chain, one list after the
/// other.
pub open spec fn chain_steps(table: AssignmentsView, names: Seq<Seq<char>>, n: int) -> Seq<
    StepView,
>
    decreases n + 1,
{
    if n < 0 {
        Seq::empty()
    } else {
        chain_steps(table, names, n - 1) + binding(table, names[n]).unwrap().steps
    }
}

/// The `i`-th variable of a chain resolves, from a depth that leaves room for
/// the `i` variables before it, to the start node of the first variable and
/// the steps of the variables up to it.
pub proof fn lemma_chain_resolves_at(
    table: AssignmentsView,
    names: Seq<Seq<char>>,
    i: int,
    depth: nat,
)
    requires
        is_chain(table, names),
        0 <= i < names.len(),
        depth + i <= MAX_DEPTH,
    ensures
        resolve_at(table, names[i], depth) == Ok::<Option<TraversalView>, ResolutionErrorView>(
            Some(
                TraversalView {
                    start: binding(table, names[0]).unwrap().start,
                    steps: chain_steps(table, names, i),
                },
            ),
        ),
    decreases i,
{
    let t = binding(table, names[i]).unwrap();
    if i == 0 {
        assert(chain_steps(table, names, -1) =~= Seq::empty());
        assert(chain_steps(table, names, 0) =~= t.steps);
    } else {
        lemma_chain_resolves_at(table, names, i - 1, depth + 1);
    }
}

/// Resolving the last variable of a chain `v0 <- Start`, `v1 <- v0::..`, ...
/// gives the start node of `v0` and the steps of all the variables in order,
/// as long as the chain is within the depth bound.
pub proof fn lemma_chain_resolves(table: AssignmentsView, names: Seq<Seq<char>>)
    requires
        is_chain(table, names),
        names.len() <= MAX_DEPTH + 1,
    ensures
        resolve(table, names.last()) == Ok::<Option<TraversalView>, ResolutionErrorView>(
            Some(
                TraversalView {
                    start: binding(table, names[0]).unwrap().start,
                    steps: chain_steps(table, names, names.len() - 1),
                },
            ),
        ),
{
    lemma_chain_resolves_at(table, names, names.len() - 1, 0);
}

/// Whether the variables of `cycle` are assigned in a circle: each starts at
/// the next one, and the last at the first.
pub open spec fn is_cycle(table: AssignmentsView, cycle: Seq<Seq<char>>) -> bool {
    &&& cycle.len() > 0
    &&& forall|i: int| 0 <= i < cycle.len() ==> (#[trigger] binding(table, cycle[i])) is Some
    &&& forall|i: int|
        0 <= i < cycle.len() ==> parent_of(#[trigger] binding(table, cycle[i]).unwrap()) == Some(
            cycle[(i + 1) % (cycle.len() as int)],
        )
}

/// A variable of a cycle fails to resolve from any depth, with
/// `CircularDependency`.
pub proof fn lemma_cycle_fails_at(
    table: AssignmentsView,
    cycle: Seq<Seq<char>>,
    i: int,
    depth: nat,
)
    requires
        is_cycle(table, cycle),
        0 <= i < cycle.len(),
    ensures
        match resolve_at(table, cycle[i], depth) {
            Err(ResolutionErrorView::CircularDependency { .. }) => true,
            _ => false,
        },
    decreases MAX_DEPTH + 1 - depth,
{
    if depth <= MAX_DEPTH {
        let next = (i + 1) % (cycle.len() as int);
        assert(binding(table, cycle[i]) is Some);
        lemma_cycle_fails_at(table, cycle, next, depth + 1);
    }
}

/// Resolving a variable that takes part in a cycle always fails with
/// `CircularDependency`.
pub proof fn lemma_cycle_fails(table: AssignmentsView, cycle: Seq<Seq<char>>, i: int)
    requires
        is_cycle(table, cycle),
        0 <= i < cycle.len(),
    ensures
        match resolve(table, cycle[i]) {
            Err(ResolutionErrorView::CircularDependency { .. }) => true,
            _ => false,
        },
{
    lemma_cycle_fails_at(table, cycle, i, 0);
}

/// A traversal that starts at a variable with no assignment does not
/// resolve: the error is `VariableNotFound` and names that variable.
pub proof fn lemma_missing_parent(table: AssignmentsView, name: Seq<char>, parent: Seq<char>)
    requires
        binding(table, name) is Some,
        parent_of(binding(table, name).unwrap()) == Some(parent),
        binding(table, parent) is None,
    ensures
        resolve(table, name) == Err::<Option<TraversalView>, ResolutionErrorView>(
            ResolutionErrorView::VariableNotFound { name: parent },
        ),
{
    assert(resolve_at(table, parent, 1) == Ok::<Option<TraversalView>, ResolutionErrorView>(None));
}

} // verus!
