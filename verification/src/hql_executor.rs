//! Running a compiled traversal against the remote pipeline.
//!
//! The library decides and the caller performs: every decision is a function
//! from the state of a run and the reply to the last request to the next
//! state and the next request, or the result.

use crate::ast::Traversal;
use crate::error::{CompileError, CompileErrorView};
use crate::hql_translator::{
    compile, map_traversal_to_tools, CompiledView, FinalAction, FinalActionView,
};
use crate::id_filter::{
    build_property_filter, filter_by_ids, filter_ids, first_listed, lemma_filter_keeps_well_formed,
    optional_tool_view, property_filter, second_pass_plan, second_pass_tools,
};
use crate::json::{document_of, is_well_formed, items_view, string_of, Json, JsonView};
use crate::requests::{
    collect_request, final_request, request_for_action, request_for_tool, request_to_collect,
    search_call, tool_request, Request, RequestView,
};
use crate::text::strings_view;
use crate::tool_args::{clone_tools, tools_view, ToolArgs, ToolArgsView};
use vstd::prelude::*;

verus! {

/// What a request is for, as errors report it.
#[derive(Debug, Clone, Copy, PartialEq, Eq, Structural)]
pub enum Stage {
    Init,
    Tool,
    Search,
    Collect,
    Count,
    Aggregate,
    GroupBy,
}

/// Why a run ended without a result.
#[derive(Debug, PartialEq)]
pub enum ExecutionError {
    /// The traversal does not compile; nothing was sent.
    Compile(CompileError),
    /// A request could not be sent, or its answer not read.
    Transport { stage: Stage, detail: String },
    /// The server answered a request with a status that is no success.
    Status { stage: Stage, status: u16, body: String },
    /// The server answered with something that is no JSON document.
    Unparsable { stage: Stage, detail: String },
    /// The server opened a session but its identifier is no JSON string.
    Session { body: String, detail: String },
    /// A reply came in for a run that awaits none.
    NotRunning,
}

/// The mathematical value of an [`ExecutionError`].
pub enum ExecutionErrorView {
    Compile(CompileErrorView),
    Transport { stage: Stage, detail: Seq<char> },
    Status { stage: Stage, status: u16, body: Seq<char> },
    Unparsable { stage: Stage, detail: Seq<char> },
    Session { body: Seq<char>, detail: Seq<char> },
    NotRunning,
}

impl View for ExecutionError {
    type V = ExecutionErrorView;

    open spec fn view(&self) -> ExecutionErrorView {
        match *self {
            ExecutionError::Compile(e) => ExecutionErrorView::Compile(e@),
            ExecutionError::Transport { stage, detail } => ExecutionErrorView::Transport {
                stage,
                detail: detail@,
            },
            ExecutionError::Status { stage, status, body } => ExecutionErrorView::Status {
                stage,
                status,
                body: body@,
            },
            ExecutionError::Unparsable { stage, detail } => ExecutionErrorView::Unparsable {
                stage,
                detail: detail@,
            },
            ExecutionError::Session { body, detail } => ExecutionErrorView::Session {
                body: body@,
                detail: detail@,
            },
            ExecutionError::NotRunning => ExecutionErrorView::NotRunning,
        }
    }
}

/// What came back for a request.
#[derive(Debug, PartialEq)]
pub enum Reply {
    /// The request could not be sent, or its answer not read.
    Failed { detail: String },
    /// The server answered with this status and this body.
    Received { status: u16, body: String },
}

/// The mathematical value of a [`Reply`].
pub enum ReplyView {
    Failed { detail: Seq<char> },
    Received { status: u16, body: Seq<char> },
}

impl View for Reply {
    type V = ReplyView;

    open spec fn view(&self) -> ReplyView {
        match *self {
            Reply::Failed { detail } => ReplyView::Failed { detail: detail@ },
            Reply::Received { status, body } => ReplyView::Received { status, body: body@ },
        }
    }
}

/// What a run asks of its caller next.
#[derive(Debug, PartialEq)]
pub enum Outcome {
    /// Send this request and hand back the reply.
    Send(Request),
    /// The run is over, with this result.
    Done(Result<Json, ExecutionError>),
}

/// The mathematical value of an [`Outcome`].
pub enum OutcomeView {
    Send(RequestView),
    Done(Result<JsonView, ExecutionErrorView>),
}

impl View for Outcome {
    type V = OutcomeView;

    open spec fn view(&self) -> OutcomeView {
        match *self {
            Outcome::Send(r) => OutcomeView::Send(r@),
            Outcome::Done(Ok(v)) => OutcomeView::Done(Ok(v@)),
            Outcome::Done(Err(e)) => OutcomeView::Done(Err(e@)),
        }
    }
}

/// Where a run stands: what the reply that it awaits is a reply to.
#[derive(Debug, PartialEq)]
pub enum Phase {
    /// First pass: the start tool was sent.
    Probe,
    /// First pass: the items of the start tool are being collected.
    ProbeCollect,
    /// Between the passes: a fresh session was asked for. `synthetic` is the
    /// item filter that takes the place of the identifier.
    Reopen { synthetic: Option<ToolArgs> },
    /// The first `sent` tools of `plan` were sent. `filter` tells whether the
    /// result is still to be filtered by identifier.
    Tools { plan: Vec<ToolArgs>, sent: usize, filter: bool },
    /// The terminal action was sent.
    Final { filter: bool },
    /// The run is over.
    Finished,
}

/// The mathematical value of a [`Phase`].
pub enum PhaseView {
    Probe,
    ProbeCollect,
    Reopen { synthetic: Option<ToolArgsView> },
    Tools { plan: Seq<ToolArgsView>, sent: usize, filter: bool },
    Final { filter: bool },
    Finished,
}

impl View for Phase {
    type V = PhaseView;

    open spec fn view(&self) -> PhaseView {
        match *self {
            Phase::Probe => PhaseView::Probe,
            Phase::ProbeCollect => PhaseView::ProbeCollect,
            Phase::Reopen { synthetic } => PhaseView::Reopen {
                synthetic: optional_tool_view(synthetic),
            },
            Phase::Tools { plan, sent, filter } => PhaseView::Tools {
                plan: tools_view(plan@),
                sent,
                filter,
            },
            Phase::Final { filter } => PhaseView::Final { filter },
            Phase::Finished => PhaseView::Finished,
        }
    }
}

/// A run of one compiled traversal against the remote pipeline.
#[derive(Debug, PartialEq)]
pub struct Pipeline {
    /// The compiled tools.
    pub tools: Vec<ToolArgs>,
    /// The terminal action.
    pub action: FinalAction,
    /// The identifiers that the client matches by itself.
    pub ids: Vec<String>,
    /// The session that requests go to.
    pub session: String,
    /// Where the run stands.
    pub phase: Phase,
    /// What the awaited reply is a reply to.
    pub awaiting: Stage,
}

/// The mathematical value of a [`Pipeline`].
pub struct PipelineView {
    pub tools: Seq<ToolArgsView>,
    pub action: FinalActionView,
    pub ids: Seq<Seq<char>>,
    pub session: Seq<char>,
    pub phase: PhaseView,
    pub awaiting: Stage,
}

impl View for Pipeline {
    type V = PipelineView;

    open spec fn view(&self) -> PipelineView {
        PipelineView {
            tools: tools_view(self.tools@),
            action: self.action@,
            ids: strings_view(self.ids@),
            session: self.session@,
            phase: self.phase@,
            awaiting: self.awaiting,
        }
    }
}

/// Whether a status is a success: one of the 200s.
pub open spec fn is_success(status: u16) -> bool {
    200 <= status < 300
}

/// Whether what a run gives, where it gives a result, is a document in
/// which no object names a member twice.
pub open spec fn outcome_well_formed(o: OutcomeView) -> bool {
    match o {
        OutcomeView::Done(Ok(v)) => is_well_formed(v),
        _ => true,
    }
}

/// Whether a status is a success.
pub fn status_is_success(status: u16) -> (r: bool)
    ensures
        r == is_success(status),
{
    200 <= status && status < 300
}

/// What a tool's request is for.
pub open spec fn tool_stage(tool: ToolArgsView) -> Stage {
    if search_call(tool) is Some {
        Stage::Search
    } else {
        Stage::Tool
    }
}

/// What a terminal action's request is for.
pub open spec fn action_stage(action: FinalActionView) -> Stage {
    match action {
        FinalActionView::Collect { .. } => Stage::Collect,
        FinalActionView::Count => Stage::Count,
        FinalActionView::Aggregate { .. } => Stage::Aggregate,
        FinalActionView::GroupBy { .. } => Stage::GroupBy,
    }
}

/// The run is over with `result`.
pub open spec fn finish(p: PipelineView, result: Result<JsonView, ExecutionErrorView>) -> (
    PipelineView,
    OutcomeView,
) {
    (PipelineView { phase: PhaseView::Finished, ..p }, OutcomeView::Done(result))
}

/// Sends the next tool of `plan`, or the terminal action once all were sent.
pub open spec fn dispatch(p: PipelineView, plan: Seq<ToolArgsView>, sent: usize, filter: bool) -> (
    PipelineView,
    OutcomeView,
) {
    if sent < plan.len() {
        (
            PipelineView {
                phase: PhaseView::Tools { plan, sent: (sent + 1) as usize, filter },
                awaiting: tool_stage(plan[sent as int]),
                ..p
            },
            OutcomeView::Send(tool_request(p.session, plan[sent as int])),
        )
    } else {
        (
            PipelineView {
                phase: PhaseView::Final { filter },
                awaiting: action_stage(p.action),
                ..p
            },
            OutcomeView::Send(final_request(p.session, p.action)),
        )
    }
}

/// Whether a compiled traversal runs in two passes: exactly when there are
/// identifiers to match and more than one tool.
pub open spec fn needs_two_passes(c: CompiledView) -> bool {
    c.ids.len() > 0 && c.tools.len() > 1
}

/// How a run begins on an open session.
///
/// In two passes, the start tool goes first, alone. In one pass the tools go
/// in order, then the terminal action; the result is filtered by identifier
/// where there are identifiers.
pub open spec fn begin(c: CompiledView, session: Seq<char>) -> (PipelineView, OutcomeView) {
    let p = PipelineView {
        tools: c.tools,
        action: c.action,
        ids: c.ids,
        session,
        phase: PhaseView::Finished,
        awaiting: Stage::Tool,
    };
    if needs_two_passes(c) {
        (
            PipelineView { phase: PhaseView::Probe, awaiting: tool_stage(c.tools[0]), ..p },
            OutcomeView::Send(tool_request(session, c.tools[0])),
        )
    } else {
        dispatch(p, c.tools, 0, c.ids.len() > 0)
    }
}

/// What a run does with the body of a successful reply.
///
/// After the start tool of the first pass, its items are collected. Of what
/// was collected, the first item with a listed identifier gives the item
/// filter of the second pass, which opens a fresh session; with no such item
/// the result is empty. On the fresh session the start tool, the item filter
/// and the remaining tools go in order, then the terminal action. The reply to
/// the terminal action is the result.
pub open spec fn on_success(p: PipelineView, body: Seq<char>) -> (PipelineView, OutcomeView) {
    match p.phase {
        PhaseView::Probe => (
            PipelineView { phase: PhaseView::ProbeCollect, awaiting: Stage::Collect, ..p },
            OutcomeView::Send(collect_request(p.session, None)),
        ),
        PhaseView::ProbeCollect => match document_of(body) {
            Err(detail) => finish(
                p,
                Err(ExecutionErrorView::Unparsable { stage: Stage::Collect, detail }),
            ),
            Ok(collected) => match first_listed(collected, p.ids) {
                None => finish(p, Ok(JsonView::Array(Seq::empty()))),
                Some(item) => (
                    PipelineView {
                        phase: PhaseView::Reopen { synthetic: property_filter(item) },
                        awaiting: Stage::Init,
                        ..p
                    },
                    OutcomeView::Send(RequestView::Init),
                ),
            },
        },
        PhaseView::Reopen { synthetic } => match string_of(body) {
            Err(detail) => finish(p, Err(ExecutionErrorView::Session { body, detail })),
            Ok(session) => dispatch(
                PipelineView { session, ..p },
                second_pass_plan(p.tools, synthetic),
                0,
                false,
            ),
        },
        PhaseView::Tools { plan, sent, filter } => dispatch(p, plan, sent, filter),
        PhaseView::Final { filter } => match document_of(body) {
            Err(detail) => finish(
                p,
                Err(ExecutionErrorView::Unparsable { stage: p.awaiting, detail }),
            ),
            Ok(result) => finish(
                p,
                Ok(
                    if filter {
                        filter_ids(result, p.ids)
                    } else {
                        result
                    },
                ),
            ),
        },
        PhaseView::Finished => finish(p, Err(ExecutionErrorView::NotRunning)),
    }
}

/// What a run does with a reply. A request that failed, or was answered with
/// a status that is no success, ends the run with that error; nothing more is
/// sent.
pub open spec fn advance(p: PipelineView, reply: ReplyView) -> (PipelineView, OutcomeView) {
    if p.phase is Finished {
        finish(p, Err(ExecutionErrorView::NotRunning))
    } else {
        match reply {
            ReplyView::Failed { detail } => finish(
                p,
                Err(ExecutionErrorView::Transport { stage: p.awaiting, detail }),
            ),
            ReplyView::Received { status, body } => if is_success(status) {
                on_success(p, body)
            } else {
                finish(p, Err(ExecutionErrorView::Status { stage: p.awaiting, status, body }))
            },
        }
    }
}

/// What a tool's request is for.
pub fn stage_of_tool(tool: &ToolArgs) -> (r: Stage)
    ensures
        r == tool_stage(tool@),
{
    match tool {
        ToolArgs::SearchKeyword { .. } | ToolArgs::SearchVec { .. } | ToolArgs::SearchVecText {
            ..
        } => Stage::Search,
        _ => Stage::Tool,
    }
}

/// What a terminal action's request is for.
pub fn stage_of_action(action: &FinalAction) -> (r: Stage)
    ensures
        r == action_stage(action@),
{
    match action {
        FinalAction::Collect { .. } => Stage::Collect,
        FinalAction::Count => Stage::Count,
        FinalAction::Aggregate { .. } => Stage::Aggregate,
        FinalAction::GroupBy { .. } => Stage::GroupBy,
    }
}

impl Pipeline {
    /// Ends the run with `result`.
    pub fn finish_with(self, result: Result<Json, ExecutionError>) -> (r: (Pipeline, Outcome))
        ensures
            (r.0@, r.1@) == finish(
                self@,
                match result {
                    Ok(v) => Ok(v@),
                    Err(e) => Err(e@),
                },
            ),
    {
        let Pipeline { tools, action, ids, session, phase: _, awaiting } = self;
        (
            Pipeline { tools, action, ids, session, phase: Phase::Finished, awaiting },
            Outcome::Done(result),
        )
    }

    /// Sends the next tool of `plan`, or the terminal action once all were sent.
    pub fn dispatch_next(self, plan: Vec<ToolArgs>, sent: usize, filter: bool) -> (r: (
        Pipeline,
        Outcome,
    ))
        ensures
            (r.0@, r.1@) == dispatch(self@, tools_view(plan@), sent, filter),
    {
        let Pipeline { tools, action, ids, session, phase: _, awaiting: _ } = self;
        if sent < plan.len() {
            let request = request_for_tool(session.as_str(), &plan[sent]);
            let awaiting = stage_of_tool(&plan[sent]);
            (
                Pipeline {
                    tools,
                    action,
                    ids,
                    session,
                    phase: Phase::Tools { plan, sent: sent + 1, filter },
                    awaiting,
                },
                Outcome::Send(request),
            )
        } else {
            let request = request_for_action(session.as_str(), &action);
            let awaiting = stage_of_action(&action);
            (
                Pipeline { tools, action, ids, session, phase: Phase::Final { filter }, awaiting },
                Outcome::Send(request),
            )
        }
    }

    /// Takes the reply to the request that the run asked for last, and says
    /// what to do next.
    pub fn advance(self, reply: Reply) -> (r: (Pipeline, Outcome))
        ensures
            (r.0@, r.1@) == advance(self@, reply@),
            outcome_well_formed(r.1@),
    {
        match &self.phase {
            Phase::Finished => {
                return self.finish_with(Err(ExecutionError::NotRunning));
            },
            _ => {},
        }
        let body = match reply {
            Reply::Failed { detail } => {
                let stage = self.awaiting;
                return self.finish_with(Err(ExecutionError::Transport { stage, detail }));
            },
            Reply::Received { status, body } => {
                if !status_is_success(status) {
                    let stage = self.awaiting;
                    return self.finish_with(Err(ExecutionError::Status { stage, status, body }));
                }
                body
            },
        };
        let Pipeline { tools, action, ids, session, phase, awaiting } = self;
        match phase {
            Phase::Probe => {
                let request = request_to_collect(session.as_str(), &None);
                (
                    Pipeline {
                        tools,
                        action,
                        ids,
                        session,
                        phase: Phase::ProbeCollect,
                        awaiting: Stage::Collect,
                    },
                    Outcome::Send(request),
                )
            },
            Phase::ProbeCollect => {
                let run = Pipeline { tools, action, ids, session, phase: Phase::ProbeCollect, awaiting };
                match Json::parse(body.as_str()) {
                    Err(detail) => run.finish_with(
                        Err(ExecutionError::Unparsable { stage: Stage::Collect, detail }),
                    ),
                    Ok(collected) => {
                        let listed = filter_by_ids(&collected, &run.ids);
                        let synthetic = match &listed {
                            Json::Array(items) => {
                                if items.len() > 0 {
                                    proof {
                                        assert(items_view(items@)[0] == items[0]@);
                                    }
                                    Some(build_property_filter(&items[0]))
                                } else {
                                    None
                                }
                            },
                            _ => None,
                        };
                        match synthetic {
                            None => {
                                let none: Vec<Json> = Vec::new();
                                assert(items_view(none@) =~= Seq::empty());
                                run.finish_with(Ok(Json::Array(none)))
                            },
                            Some(synthetic) => {
                                let Pipeline { tools, action, ids, session, phase: _, awaiting: _ } = run;
                                (
                                    Pipeline {
                                        tools,
                                        action,
                                        ids,
                                        session,
                                        phase: Phase::Reopen { synthetic },
                                        awaiting: Stage::Init,
                                    },
                                    Outcome::Send(Request::Init),
                                )
                            },
                        }
                    },
                }
            },
            Phase::Reopen { synthetic } => {
                match Json::parse_string(body.as_str()) {
                    Err(detail) => {
                        let run = Pipeline {
                            tools,
                            action,
                            ids,
                            session,
                            phase: Phase::Reopen { synthetic },
                            awaiting,
                        };
                        run.finish_with(Err(ExecutionError::Session { body, detail }))
                    },
                    Ok(fresh) => {
                        let plan = second_pass_tools(&tools, &synthetic);
                        let run = Pipeline {
                            tools,
                            action,
                            ids,
                            session: fresh,
                            phase: Phase::Finished,
                            awaiting,
                        };
                        run.dispatch_next(plan, 0, false)
                    },
                }
            },
            Phase::Tools { plan, sent, filter } => {
                let run = Pipeline { tools, action, ids, session, phase: Phase::Finished, awaiting };
                run.dispatch_next(plan, sent, filter)
            },
            Phase::Final { filter } => {
                let run = Pipeline { tools, action, ids, session, phase: Phase::Final { filter }, awaiting };
                match Json::parse(body.as_str()) {
                    Err(detail) => {
                        let stage = run.awaiting;
                        run.finish_with(Err(ExecutionError::Unparsable { stage, detail }))
                    },
                    Ok(result) => {
                        proof {
                            lemma_filter_keeps_well_formed(result@, strings_view(run.ids@));
                        }
                        let result = if filter {
                            filter_by_ids(&result, &run.ids)
                        } else {
                            result
                        };
                        run.finish_with(Ok(result))
                    },
                }
            },
            Phase::Finished => {
                let run = Pipeline { tools, action, ids, session, phase: Phase::Finished, awaiting };
                run.finish_with(Err(ExecutionError::NotRunning))
            },
        }
    }
}

/// Begins the run of compiled tools on an open session, and asks for the
/// first request.
pub fn begin_pipeline(
    connection_id: &str,
    tools: Vec<ToolArgs>,
    action: FinalAction,
    ids: Vec<String>,
) -> (r: (Pipeline, Outcome))
    ensures
        (r.0@, r.1@) == begin(
            CompiledView {
                tools: tools_view(tools@),
                action: action@,
                ids: strings_view(ids@),
            },
            connection_id@,
        ),
{
    let session = String::from_str(connection_id);
    if ids.len() > 0 && tools.len() > 1 {
        proof {
            assert(tools_view(tools@)[0] == tools[0]@);
        }
        let request = request_for_tool(session.as_str(), &tools[0]);
        let awaiting = stage_of_tool(&tools[0]);
        (
            Pipeline { tools, action, ids, session, phase: Phase::Probe, awaiting },
            Outcome::Send(request),
        )
    } else {
        let plan = clone_tools(&tools);
        let filter = ids.len() > 0;
        let run = Pipeline {
            tools,
            action,
            ids,
            session,
            phase: Phase::Finished,
            awaiting: Stage::Tool,
        };
        run.dispatch_next(plan, 0, filter)
    }
}

/// Begins the run of a traversal on an open session: compiles it, and asks
/// for the first request. A traversal that does not compile ends the run at
/// once with the compile error, and nothing is sent.
pub fn execute_pipeline(connection_id: &str, traversal: &Traversal, params: &Json) -> (r: (
    Pipeline,
    Outcome,
))
    requires
        !(traversal@.start is Identifier),
    ensures
        match compile(traversal@, params@) {
            Ok(compiled) => (r.0@, r.1@) == begin(compiled, connection_id@),
            Err(e) => r.0@.phase is Finished && r.1@ == OutcomeView::Done(
                Err(ExecutionErrorView::Compile(e)),
            ),
        },
{
    match map_traversal_to_tools(traversal, params) {
        Err(e) => {
            let session = String::from_str(connection_id);
            let tools: Vec<ToolArgs> = Vec::new();
            let ids: Vec<String> = Vec::new();
            (
                Pipeline {
                    tools,
                    action: FinalAction::Collect { range: None },
                    ids,
                    session,
                    phase: Phase::Finished,
                    awaiting: Stage::Tool,
                },
                Outcome::Done(Err(ExecutionError::Compile(e))),
            )
        },
        Ok((tools, action, ids)) => begin_pipeline(connection_id, tools, action, ids),
    }
}

/// Whether a reply is an answer with a status of success.
pub open spec fn is_success_reply(reply: ReplyView) -> bool {
    match reply {
        ReplyView::Received { status, .. } => is_success(status),
        ReplyView::Failed { .. } => false,
    }
}

/// A successful reply with this body.
pub open spec fn success(body: Seq<char>) -> ReplyView {
    ReplyView::Received { status: 200, body }
}

/// Where a run stands after a list of replies, each the reply to what the
/// run asked for before it.
pub open spec fn state_after(p: PipelineView, replies: Seq<ReplyView>) -> PipelineView
    decreases replies.len(),
{
    if replies.len() == 0 {
        p
    } else {
        advance(state_after(p, replies.drop_last()), replies.last()).0
    }
}

/// What a run asks for after each of a list of replies.
pub open spec fn asked_after(p: PipelineView, replies: Seq<ReplyView>) -> Seq<OutcomeView>
    decreases replies.len(),
{
    if replies.len() == 0 {
        Seq::empty()
    } else {
        asked_after(p, replies.drop_last()).push(
            advance(state_after(p, replies.drop_last()), replies.last()).1,
        )
    }
}

/// What a run that sends the tools of `plan` asks for once `sent` of them
/// and `i` more are answered: the next tool, or the terminal action after the
/// last.
pub open spec fn next_in_plan(p: PipelineView, plan: Seq<ToolArgsView>, at: int) -> OutcomeView {
    if at < plan.len() {
        OutcomeView::Send(tool_request(p.session, plan[at]))
    } else {
        OutcomeView::Send(final_request(p.session, p.action))
    }
}

/// While its requests succeed, a run sends the tools of its plan in order, on
/// one session, and then the terminal action, once.
pub proof fn lemma_tools_in_order(p: PipelineView, replies: Seq<ReplyView>)
    requires
        p.phase is Tools,
        p.phase->Tools_plan.len() <= usize::MAX,
        p.phase->Tools_sent <= p.phase->Tools_plan.len(),
        p.phase->Tools_sent + replies.len() <= p.phase->Tools_plan.len() + 1,
        forall|i: int| 0 <= i < replies.len() ==> is_success_reply(#[trigger] replies[i]),
    ensures
        asked_after(p, replies).len() == replies.len(),
        forall|i: int|
            0 <= i < replies.len() ==> (#[trigger] asked_after(p, replies)[i]) == next_in_plan(
                p,
                p.phase->Tools_plan,
                p.phase->Tools_sent + i,
            ),
        state_after(p, replies).phase == if p.phase->Tools_sent + replies.len()
            <= p.phase->Tools_plan.len() {
            (PhaseView::Tools {
                plan: p.phase->Tools_plan,
                sent: (p.phase->Tools_sent + replies.len()) as usize,
                filter: p.phase->Tools_filter,
            })
        } else {
            (PhaseView::Final { filter: p.phase->Tools_filter })
        },
        state_after(p, replies).session == p.session,
        state_after(p, replies).action == p.action,
        state_after(p, replies).ids == p.ids,
        state_after(p, replies).tools == p.tools,
        p.phase->Tools_sent + replies.len() > p.phase->Tools_plan.len() ==> state_after(
            p,
            replies,
        ).awaiting == action_stage(p.action),
    decreases replies.len(),
{
    if replies.len() > 0 {
        let before = replies.drop_last();
        assert forall|i: int| 0 <= i < before.len() implies is_success_reply(
            #[trigger] before[i],
        ) by {
            assert(before[i] == replies[i]);
        }
        lemma_tools_in_order(p, before);
        assert(is_success_reply(replies[replies.len() - 1]));
        let asked = asked_after(p, replies);
        assert forall|i: int| 0 <= i < replies.len() implies (#[trigger] asked[i]) == next_in_plan(
            p,
            p.phase->Tools_plan,
            p.phase->Tools_sent + i,
        ) by {
            if i < before.len() {
                assert(asked[i] == asked_after(p, before)[i]);
            }
        }
    }
}

/// A run that needs one pass: its tools go in order, then the terminal
/// action; the reply to that is the result, filtered by identifier where
/// there are identifiers.
pub proof fn lemma_single_pass(
    c: CompiledView,
    session: Seq<char>,
    replies: Seq<ReplyView>,
    body: Seq<char>,
)
    requires
        !needs_two_passes(c),
        c.tools.len() <= usize::MAX,
        replies.len() == c.tools.len(),
        forall|i: int| 0 <= i < replies.len() ==> is_success_reply(#[trigger] replies[i]),
        document_of(body) is Ok,
    ensures
        begin(c, session).1 == next_in_plan(begin(c, session).0, c.tools, 0),
        asked_after(begin(c, session).0, replies).len() == replies.len(),
        forall|i: int|
            0 <= i < replies.len() ==> (#[trigger] asked_after(begin(c, session).0, replies)[i])
                == next_in_plan(begin(c, session).0, c.tools, i + 1),
        begin(c, session).0.session == session,
        begin(c, session).0.action == c.action,
        advance(state_after(begin(c, session).0, replies), success(body)).1 == OutcomeView::Done(
            Ok(
                if c.ids.len() > 0 {
                    filter_ids(document_of(body)->Ok_0, c.ids)
                } else {
                    document_of(body)->Ok_0
                },
            ),
        ),
{
    let start = begin(c, session).0;
    if c.tools.len() > 0 {
        lemma_tools_in_order(start, replies);
    }
}

/// A run that needs two passes, with an item of a listed identifier among
/// what the start tool gives. On the first session the start tool goes alone
/// and its items are collected. Then a fresh session is opened, and on it go
/// the start tool, the item filter built from the first such item, the
/// remaining tools in their order and the terminal action. The reply to that
/// is the result, as it is; no identifier is ever sent.
pub proof fn lemma_two_passes(
    c: CompiledView,
    session: Seq<char>,
    probed: Seq<char>,
    collected: Seq<char>,
    opened: Seq<char>,
    replies: Seq<ReplyView>,
    body: Seq<char>,
)
    requires
        needs_two_passes(c),
        c.tools.len() < usize::MAX,
        document_of(collected) is Ok,
        first_listed(document_of(collected)->Ok_0, c.ids) is Some,
        string_of(opened) is Ok,
        replies.len() == second_pass_plan(
            c.tools,
            property_filter(first_listed(document_of(collected)->Ok_0, c.ids).unwrap()),
        ).len(),
        forall|i: int| 0 <= i < replies.len() ==> is_success_reply(#[trigger] replies[i]),
        document_of(body) is Ok,
    ensures
        ({
            let plan = second_pass_plan(
                c.tools,
                property_filter(first_listed(document_of(collected)->Ok_0, c.ids).unwrap()),
            );
            let fresh = string_of(opened)->Ok_0;
            let first = begin(c, session);
            let second = advance(first.0, success(probed));
            let third = advance(second.0, success(collected));
            let fourth = advance(third.0, success(opened));
            &&& first.1 == OutcomeView::Send(tool_request(session, c.tools[0]))
            &&& second.1 == OutcomeView::Send(collect_request(session, None))
            &&& third.1 == OutcomeView::Send(RequestView::Init)
            &&& fourth.0.session == fresh
            &&& fourth.1 == OutcomeView::Send(tool_request(fresh, plan[0]))
            &&& forall|i: int|
                0 <= i < replies.len() ==> (#[trigger] asked_after(fourth.0, replies)[i])
                    == next_in_plan(fourth.0, plan, i + 1)
            &&& advance(state_after(fourth.0, replies), success(body)).1 == OutcomeView::Done(
                Ok(document_of(body)->Ok_0),
            )
        }),
{
    let plan = second_pass_plan(
        c.tools,
        property_filter(first_listed(document_of(collected)->Ok_0, c.ids).unwrap()),
    );
    let first = begin(c, session);
    let second = advance(first.0, success(probed));
    let third = advance(second.0, success(collected));
    let fourth = advance(third.0, success(opened));
    assert(plan.len() >= 1);
    assert(plan.len() <= c.tools.len() + 1);
    lemma_tools_in_order(fourth.0, replies);
}

} // verus!
