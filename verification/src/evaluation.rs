//! Evaluation of a planned query: each returned variable runs on a session of
//! its own, one after the other.

use crate::ast::Query;
use crate::hql_executor::{
    advance, begin, begin_pipeline, is_success, outcome_well_formed, status_is_success,
    ExecutionError, ExecutionErrorView, Outcome, OutcomeView, Pipeline, PipelineView, Reply,
    ReplyView, Stage,
};
use crate::json::{
    document_of, duplicate_members, insert_into, insert_member, is_well_formed,
    lemma_insert_keeps_well_formed, members_view, string_of, Json, JsonView, MembersView,
};
use crate::normalizer::{lemma_normalize_keeps_well_formed, normalize, normalize_value, normalized};
use crate::planner::{
    implicit_name, jobs_view, optional_json_view, plan_of, plan_query, EvalError, EvalErrorView,
    Job, JobView, Plan, PlanView,
};
use crate::requests::{Request, RequestView};
use crate::text::str_equal;
use rand::seq::SliceRandom;
use vstd::prelude::*;
use vstd::seq_lib::{to_multiset_contains, to_multiset_len};

verus! {

/// Whether `order` lists each of the indices below `n` once.
pub open spec fn is_permutation(order: Seq<usize>, n: nat) -> bool {
    &&& order.len() == n
    &&& forall|i: int| 0 <= i < n ==> order[i] < n
    &&& forall|i: int, j: int| 0 <= i < j < n ==> order[i] != order[j]
}

/// The indices below `n`, in order.
pub open spec fn indices(n: nat) -> Seq<usize> {
    Seq::new(n, |i: int| i as usize)
}

/// The indices below `n`, in order.
pub fn indices_below(n: usize) -> (r: Vec<usize>)
    ensures
        r@ == indices(n as nat),
{
    let mut r: Vec<usize> = Vec::new();
    let mut i: usize = 0;
    while i < n
        invariant
            i <= n,
            r@ == indices(i as nat),
        decreases n - i,
    {
        r.push(i);
        assert(r@ =~= indices((i + 1) as nat));
        i += 1;
    }
    r
}

/// `rand::seq::SliceRandom::shuffle` with the generator of the thread: the
/// list holds afterwards what it held before, each item as often, in some
/// order.
#[verifier::external_body]
fn shuffle(order: &mut Vec<usize>)
    ensures
        final(order)@.to_multiset() == old(order)@.to_multiset(),
{
    order.shuffle(&mut rand::thread_rng());
}

/// A list that holds what the indices below `n` hold lists each of them once.
pub proof fn lemma_rearranged_indices(order: Seq<usize>, n: nat)
    requires
        n <= usize::MAX,
        order.to_multiset() == indices(n).to_multiset(),
    ensures
        is_permutation(order, n),
{
    let base = indices(n);
    to_multiset_len(order);
    to_multiset_len(base);
    assert forall|i: int| 0 <= i < n implies order[i] < n by {
        to_multiset_contains(order, order[i]);
        to_multiset_contains(base, order[i]);
        assert(order.contains(order[i]));
        let k = choose|k: int| 0 <= k < base.len() && base[k] == order[i];
        assert(base[k] == k as usize);
    }
    assert(base.no_duplicates());
    base.lemma_multiset_has_no_duplicates();
    order.lemma_multiset_has_no_duplicates_conv();
}

/// The indices below `n` in an order drawn at random.
pub fn shuffled_indices(n: usize) -> (order: Vec<usize>)
    ensures
        is_permutation(order@, n as nat),
{
    let mut order = indices_below(n);
    shuffle(&mut order);
    proof {
        lemma_rearranged_indices(order@, n as nat);
    }
    order
}

/// The jobs in the order given.
pub open spec fn in_order(jobs: Seq<JobView>, order: Seq<usize>) -> Seq<JobView> {
    Seq::new(order.len(), |i: int| jobs[order[i] as int])
}

/// The jobs in the order given. An index that is none of a job is passed over.
pub fn jobs_in_order(jobs: &Vec<Job>, order: &Vec<usize>) -> (queue: Vec<Job>)
    ensures
        is_permutation(order@, jobs@.len()) ==> jobs_view(queue@) == in_order(
            jobs_view(jobs@),
            order@,
        ),
{
    let mut queue: Vec<Job> = Vec::new();
    let mut i: usize = 0;
    while i < order.len()
        invariant
            i <= order.len(),
            is_permutation(order@, jobs@.len()) ==> queue.len() == i && forall|k: int|
                0 <= k < i ==> queue[k]@ == jobs[order[k] as int]@,
        decreases order.len() - i,
    {
        if order[i] < jobs.len() {
            queue.push(jobs[order[i]].clone());
        }
        i += 1;
    }
    proof {
        if is_permutation(order@, jobs@.len()) {
            assert(jobs_view(queue@) =~= in_order(jobs_view(jobs@), order@));
        }
    }
    queue
}

/// What an evaluation asks of its caller next.
#[derive(Debug, PartialEq)]
pub enum Progress {
    /// Send this request and hand back the reply.
    Send(Request),
    /// The evaluation is over, with this result.
    Done(Result<Json, EvalError>),
}

/// The mathematical value of a [`Progress`].
pub enum ProgressView {
    Send(RequestView),
    Done(Result<JsonView, EvalErrorView>),
}

impl View for Progress {
    type V = ProgressView;

    open spec fn view(&self) -> ProgressView {
        match *self {
            Progress::Send(r) => ProgressView::Send(r@),
            Progress::Done(Ok(v)) => ProgressView::Done(Ok(v@)),
            Progress::Done(Err(e)) => ProgressView::Done(Err(e@)),
        }
    }
}

/// Where an evaluation stands.
#[derive(Debug, PartialEq)]
pub enum EvalPhase {
    /// The compiled query was called.
    FastPath,
    /// A session was asked for, for the job at `position`.
    Opening,
    /// The job at `position` runs.
    Running(Pipeline),
    /// The evaluation is over.
    Finished,
}

/// The mathematical value of an [`EvalPhase`].
pub enum EvalPhaseView {
    FastPath,
    Opening,
    Running(PipelineView),
    Finished,
}

impl View for EvalPhase {
    type V = EvalPhaseView;

    open spec fn view(&self) -> EvalPhaseView {
        match *self {
            EvalPhase::FastPath => EvalPhaseView::FastPath,
            EvalPhase::Opening => EvalPhaseView::Opening,
            EvalPhase::Running(p) => EvalPhaseView::Running(p@),
            EvalPhase::Finished => EvalPhaseView::Finished,
        }
    }
}

/// The evaluation of a planned query: its jobs run one after the other, each
/// on a session of its own.
#[derive(Debug, PartialEq)]
pub struct Evaluation {
    /// The jobs, in the order in which they run.
    pub queue: Vec<Job>,
    /// How many jobs are done.
    pub position: usize,
    /// The results so far, by variable.
    pub results: Vec<(String, Json)>,
    /// Where the evaluation stands.
    pub phase: EvalPhase,
}

/// The mathematical value of an [`Evaluation`].
pub struct EvaluationView {
    pub queue: Seq<JobView>,
    pub position: usize,
    pub results: MembersView,
    pub phase: EvalPhaseView,
}

impl View for Evaluation {
    type V = EvaluationView;

    open spec fn view(&self) -> EvaluationView {
        EvaluationView {
            queue: jobs_view(self.queue@),
            position: self.position,
            results: members_view(self.results@),
            phase: self.phase@,
        }
    }
}

/// The result of an evaluation whose jobs are all done: the result of a bare
/// traversal where that is the only one, else the results by variable; either
/// one normalized.
pub open spec fn assemble(results: MembersView) -> JsonView {
    if results.len() == 1 && results[0].0 == implicit_name() {
        normalize(results[0].1)
    } else {
        normalize(JsonView::Object(results))
    }
}

/// The evaluation is over with `result`.
pub open spec fn conclude(ev: EvaluationView, result: Result<JsonView, EvalErrorView>) -> (
    EvaluationView,
    ProgressView,
) {
    (EvaluationView { phase: EvalPhaseView::Finished, ..ev }, ProgressView::Done(result))
}

/// Turns to the job at `position`: asks for a session for it, or concludes
/// where no job is left.
pub open spec fn open_next(ev: EvaluationView) -> (EvaluationView, ProgressView) {
    if ev.position < ev.queue.len() {
        (
            EvaluationView { phase: EvalPhaseView::Opening, ..ev },
            ProgressView::Send(RequestView::Init),
        )
    } else {
        conclude(ev, Ok(assemble(ev.results)))
    }
}

/// Takes the result of the job at `position`. The result of a bare traversal
/// that comes first is the result of the evaluation; any other is kept under
/// its variable, and the next job is turned to.
pub open spec fn record(ev: EvaluationView, result: JsonView) -> (EvaluationView, ProgressView) {
    let name = ev.queue[ev.position as int].name;
    if name == implicit_name() && ev.results.len() == 0 {
        conclude(ev, Ok(normalize(result)))
    } else {
        open_next(
            EvaluationView {
                results: insert_member(ev.results, name, result),
                position: (ev.position + 1) as usize,
                ..ev
            },
        )
    }
}

/// What an evaluation does with what the run of a job asks for: a request is
/// passed on, an error ends the evaluation, a result is recorded.
pub open spec fn follow(ev: EvaluationView, run: (PipelineView, OutcomeView)) -> (
    EvaluationView,
    ProgressView,
) {
    match run.1 {
        OutcomeView::Send(request) => (
            EvaluationView { phase: EvalPhaseView::Running(run.0), ..ev },
            ProgressView::Send(request),
        ),
        OutcomeView::Done(Err(e)) => conclude(ev, Err(EvalErrorView::Execution(e))),
        OutcomeView::Done(Ok(result)) => record(ev, result),
    }
}

/// How an evaluation begins: with the call of the compiled query where the
/// plan names one, else with the first job.
pub open spec fn begin_evaluation(plan: PlanView, queue: Seq<JobView>) -> (
    EvaluationView,
    ProgressView,
) {
    let ev = EvaluationView {
        queue,
        position: 0,
        results: Seq::empty(),
        phase: EvalPhaseView::Finished,
    };
    match plan.fast_path {
        Some(query_name) => (
            EvaluationView { phase: EvalPhaseView::FastPath, ..ev },
            ProgressView::Send(RequestView::Compiled { query_name, body: plan.params }),
        ),
        None => open_next(ev),
    }
}

/// What an evaluation does with the reply to the call of the compiled query:
/// a successful reply that is a JSON document is the result, normalized; any
/// other reply is passed over, and the jobs run.
pub open spec fn after_fast_path(ev: EvaluationView, reply: ReplyView) -> (
    EvaluationView,
    ProgressView,
) {
    match reply {
        ReplyView::Received { status, body } => if is_success(status) {
            match document_of(body) {
                Ok(result) => conclude(ev, Ok(normalize(result))),
                Err(_) => open_next(ev),
            }
        } else {
            open_next(ev)
        },
        ReplyView::Failed { .. } => open_next(ev),
    }
}

/// What an evaluation does with the reply to the request for a session: a
/// failure ends the evaluation; the identifier of the session is the JSON
/// string in the body, and the job at `position` begins on it.
pub open spec fn after_opening(ev: EvaluationView, reply: ReplyView) -> (
    EvaluationView,
    ProgressView,
) {
    match reply {
        ReplyView::Failed { detail } => conclude(
            ev,
            Err(
                EvalErrorView::Execution(
                    ExecutionErrorView::Transport { stage: Stage::Init, detail },
                ),
            ),
        ),
        ReplyView::Received { status, body } => if !is_success(status) {
            conclude(
                ev,
                Err(
                    EvalErrorView::Execution(
                        ExecutionErrorView::Status { stage: Stage::Init, status, body },
                    ),
                ),
            )
        } else {
            match string_of(body) {
                Err(detail) => conclude(
                    ev,
                    Err(EvalErrorView::Execution(ExecutionErrorView::Session { body, detail })),
                ),
                Ok(session) => if ev.position < ev.queue.len() {
                    follow(ev, begin(ev.queue[ev.position as int].compiled, session))
                } else {
                    conclude(ev, Ok(assemble(ev.results)))
                },
            }
        },
    }
}

/// What an evaluation does with a reply.
pub open spec fn advance_evaluation(ev: EvaluationView, reply: ReplyView) -> (
    EvaluationView,
    ProgressView,
) {
    match ev.phase {
        EvalPhaseView::FastPath => after_fast_path(ev, reply),
        EvalPhaseView::Opening => after_opening(ev, reply),
        EvalPhaseView::Running(p) => if ev.position < ev.queue.len() {
            follow(ev, advance(p, reply))
        } else {
            conclude(ev, Err(EvalErrorView::Execution(ExecutionErrorView::NotRunning)))
        },
        EvalPhaseView::Finished => conclude(
            ev,
            Err(EvalErrorView::Execution(ExecutionErrorView::NotRunning)),
        ),
    }
}

/// Whether what an evaluation gives, where it gives a result, is a document
/// in which no object names a member twice.
pub open spec fn progress_well_formed(p: ProgressView) -> bool {
    match p {
        ProgressView::Done(Ok(v)) => is_well_formed(v),
        _ => true,
    }
}

/// Whether the results so far are well formed: no variable twice, and each
/// result a well-formed document.
pub open spec fn results_well_formed(ev: EvaluationView) -> bool {
    is_well_formed(JsonView::Object(ev.results))
}

impl Evaluation {
    /// Ends the evaluation with `result`.
    pub fn conclude_with(self, result: Result<Json, EvalError>) -> (r: (Evaluation, Progress))
        ensures
            (r.0@, r.1@) == conclude(
                self@,
                match result {
                    Ok(v) => Ok(v@),
                    Err(e) => Err(e@),
                },
            ),
    {
        let Evaluation { queue, position, results, phase: _ } = self;
        (Evaluation { queue, position, results, phase: EvalPhase::Finished }, Progress::Done(result))
    }

    /// The result of an evaluation whose jobs are all done.
    pub fn assembled(results: Vec<(String, Json)>) -> (r: Json)
        ensures
            r@ == assemble(members_view(results@)),
            is_well_formed(JsonView::Object(members_view(results@))) ==> is_well_formed(r@),
    {
        proof {
            let all = members_view(results@);
            if is_well_formed(JsonView::Object(all)) {
                lemma_normalize_keeps_well_formed(JsonView::Object(all));
                if all.len() == 1 {
                    assert(is_well_formed(all[0].1));
                    lemma_normalize_keeps_well_formed(all[0].1);
                }
            }
        }
        if results.len() == 1 && str_equal(results[0].0.as_str(), "_implicit_") {
            proof {
                assert(members_view(results@)[0] == (results[0].0@, results[0].1@));
            }
            normalized(&results[0].1)
        } else {
            proof {
                if results.len() == 1 {
                    assert(members_view(results@)[0] == (results[0].0@, results[0].1@));
                }
            }
            normalize_value(Json::Object(results))
        }
    }

    /// Turns to the job at `position`.
    pub fn open_next_job(self) -> (r: (Evaluation, Progress))
        ensures
            (r.0@, r.1@) == open_next(self@),
            results_well_formed(self@) ==> results_well_formed(r.0@) && progress_well_formed(r.1@),
    {
        let Evaluation { queue, position, results, phase: _ } = self;
        if position < queue.len() {
            (
                Evaluation { queue, position, results, phase: EvalPhase::Opening },
                Progress::Send(Request::Init),
            )
        } else {
            let copy = duplicate_members(&results);
            let done = Evaluation { queue, position, results, phase: EvalPhase::Finished };
            done.conclude_with(Ok(Evaluation::assembled(copy)))
        }
    }

    /// Follows what the run of the job at `position` asks for.
    pub fn follow_run(self, run: (Pipeline, Outcome)) -> (r: (Evaluation, Progress))
        requires
            self.position < self.queue.len(),
        ensures
            (r.0@, r.1@) == follow(self@, (run.0@, run.1@)),
            results_well_formed(self@) && outcome_well_formed(run.1@) ==> results_well_formed(r.0@)
                && progress_well_formed(r.1@),
    {
        let (pipeline, outcome) = run;
        match outcome {
            Outcome::Send(request) => {
                let Evaluation { queue, position, results, phase: _ } = self;
                (
                    Evaluation { queue, position, results, phase: EvalPhase::Running(pipeline) },
                    Progress::Send(request),
                )
            },
            Outcome::Done(Err(e)) => self.conclude_with(Err(EvalError::Execution(e))),
            Outcome::Done(Ok(result)) => {
                let is_bare = str_equal(self.queue[self.position].name.as_str(), "_implicit_");
                proof {
                    if is_well_formed(result@) {
                        lemma_normalize_keeps_well_formed(result@);
                    }
                }
                if is_bare && self.results.len() == 0 {
                    self.conclude_with(Ok(normalize_value(result)))
                } else {
                    let Evaluation { queue, position, mut results, phase } = self;
                    let name = queue[position].name.clone();
                    proof {
                        if is_well_formed(JsonView::Object(members_view(results@)))
                            && is_well_formed(result@) {
                            lemma_insert_keeps_well_formed(
                                members_view(results@),
                                name@,
                                result@,
                            );
                        }
                    }
                    insert_into(&mut results, name, result);
                    let next = Evaluation { queue, position: position + 1, results, phase };
                    next.open_next_job()
                }
            },
        }
    }

    /// Begins the evaluation of a plan, with its jobs in the order of `queue`.
    pub fn begin_with(plan: Plan, queue: Vec<Job>) -> (r: (Evaluation, Progress))
        ensures
            (r.0@, r.1@) == begin_evaluation(plan@, jobs_view(queue@)),
            results_well_formed(r.0@),
            progress_well_formed(r.1@),
    {
        let results: Vec<(String, Json)> = Vec::new();
        assert(members_view(results@) =~= Seq::empty());
        let Plan { params, jobs: _, fast_path } = plan;
        match fast_path {
            Some(query_name) => (
                Evaluation { queue, position: 0, results, phase: EvalPhase::FastPath },
                Progress::Send(Request::Compiled { query_name, body: params }),
            ),
            None => {
                let ev = Evaluation { queue, position: 0, results, phase: EvalPhase::Finished };
                ev.open_next_job()
            },
        }
    }

    /// Begins the evaluation of a plan. The jobs run in an order drawn at random.
    pub fn begin(plan: Plan) -> (r: (Evaluation, Progress))
        ensures
            exists|order: Seq<usize>|
                is_permutation(order, plan@.jobs.len()) && (r.0@, r.1@) == begin_evaluation(
                    plan@,
                    in_order(plan@.jobs, order),
                ),
    {
        let order = shuffled_indices(plan.jobs.len());
        let queue = jobs_in_order(&plan.jobs, &order);
        let ghost planned = plan@;
        let r = Evaluation::begin_with(plan, queue);
        proof {
            assert(is_permutation(order@, planned.jobs.len()) && (r.0@, r.1@) == begin_evaluation(
                planned,
                in_order(planned.jobs, order@),
            ));
        }
        r
    }

    /// Takes the reply to the request that the evaluation asked for last, and
    /// says what to do next.
    pub fn advance(self, reply: Reply) -> (r: (Evaluation, Progress))
        ensures
            (r.0@, r.1@) == advance_evaluation(self@, reply@),
            results_well_formed(self@) ==> results_well_formed(r.0@) && progress_well_formed(r.1@),
    {
        let Evaluation { queue, position, results, phase } = self;
        match phase {
            EvalPhase::FastPath => {
                let ev = Evaluation { queue, position, results, phase: EvalPhase::FastPath };
                match reply {
                    Reply::Received { status, body } => {
                        if status_is_success(status) {
                            match Json::parse(body.as_str()) {
                                Ok(result) => {
                                    proof {
                                        lemma_normalize_keeps_well_formed(result@);
                                    }
                                    ev.conclude_with(Ok(normalize_value(result)))
                                },
                                Err(_) => ev.open_next_job(),
                            }
                        } else {
                            ev.open_next_job()
                        }
                    },
                    Reply::Failed { .. } => ev.open_next_job(),
                }
            },
            EvalPhase::Opening => {
                let ev = Evaluation { queue, position, results, phase: EvalPhase::Opening };
                match reply {
                    Reply::Failed { detail } => ev.conclude_with(
                        Err(
                            EvalError::Execution(
                                ExecutionError::Transport { stage: Stage::Init, detail },
                            ),
                        ),
                    ),
                    Reply::Received { status, body } => {
                        if !status_is_success(status) {
                            return ev.conclude_with(
                                Err(
                                    EvalError::Execution(
                                        ExecutionError::Status { stage: Stage::Init, status, body },
                                    ),
                                ),
                            );
                        }
                        match Json::parse_string(body.as_str()) {
                            Err(detail) => ev.conclude_with(
                                Err(EvalError::Execution(ExecutionError::Session { body, detail })),
                            ),
                            Ok(session) => {
                                if ev.position < ev.queue.len() {
                                    let job = ev.queue[ev.position].clone();
                                    let Job { name: _, tools, action, ids } = job;
                                    let run = begin_pipeline(
                                        session.as_str(),
                                        tools,
                                        action,
                                        ids,
                                    );
                                    ev.follow_run(run)
                                } else {
                                    let copy = duplicate_members(&ev.results);
                                    ev.conclude_with(Ok(Evaluation::assembled(copy)))
                                }
                            },
                        }
                    },
                }
            },
            EvalPhase::Running(pipeline) => {
                let ev = Evaluation { queue, position, results, phase: EvalPhase::Finished };
                if ev.position < ev.queue.len() {
                    let run = pipeline.advance(reply);
                    ev.follow_run(run)
                } else {
                    ev.conclude_with(Err(EvalError::Execution(ExecutionError::NotRunning)))
                }
            },
            EvalPhase::Finished => {
                let ev = Evaluation { queue, position, results, phase: EvalPhase::Finished };
                ev.conclude_with(Err(EvalError::Execution(ExecutionError::NotRunning)))
            },
        }
    }
}

/// Begins the evaluation of a query: plans it, and asks for the first
/// request. A query that cannot be planned ends at once with the error, and
/// nothing is sent.
pub fn execute_dynamic_hql(query: &Query, params: Option<Json>) -> (r: (Evaluation, Progress))
    ensures
        match plan_of(query@, optional_json_view(params)) {
            Err(e) => r.0@.phase is Finished && r.1@ == ProgressView::Done(Err(e)),
            Ok(plan) => exists|order: Seq<usize>|
                is_permutation(order, plan.jobs.len()) && (r.0@, r.1@) == begin_evaluation(
                    plan,
                    in_order(plan.jobs, order),
                ),
        },
{
    match plan_query(query, params) {
        Err(e) => {
            let ev = Evaluation {
                queue: Vec::new(),
                position: 0,
                results: Vec::new(),
                phase: EvalPhase::Finished,
            };
            (ev, Progress::Done(Err(e)))
        },
        Ok(plan) => Evaluation::begin(plan),
    }
}

} // verus!
