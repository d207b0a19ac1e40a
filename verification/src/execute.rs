//! A call of a binding, as a machine that asks for outside work and takes its
//! results: the parameters are evaluated, the read-only guard is asked, a client
//! is connected, the statement is run or planned, and the call is answered.

use vstd::prelude::*;

use crate::bigquery::{
    dry_run_failure, estimated, field_json, kept_len, query_failure, reply_bytes, reply_documents,
    reply_rows, reply_schema, reply_truncated, settle_dry_run, settle_query, wire_count,
    EstimateOutcome, QueryOutcome, QueryParameter, QueryRequest, QueryResponse,
};
use crate::call::{
    bind_parameters, binding_fault, effective_statement, failure_outcome,
    outcome_of_failure, plan_request, profile_request, run_request, statement_to_run, Call,
};
use crate::envelope::{
    build_estimate_envelope, build_result_envelope, classified, classify_error, estimate_envelope,
    estimate_slot, law_estimate_envelope_slots, law_result_envelope_slots,
    lemma_estimate_names_distinct, lemma_result_names_distinct, response_slot, result_envelope,
};
use crate::json::{distinct_names, json_views, lemma_member_push, Json, JsonView, NumberView};
use crate::observe::Outcome;
use crate::outside::{
    all_settled, finite_double, law_sent_keeps_members, numbers_settled, sent_document,
};
use crate::params::{bound, parameter_views};
use crate::plugin::BigQueryProfile;
use crate::surface::{
    prompt_body, prompt_messages_body, resolve_resource_uri, resource_body, resource_contents_body,
    resource_uri, rows_text, Surface,
};
use crate::text::{borrowed, some_chars, some_text};

verus! {

/// How far a call has come.
#[derive(Debug)]
pub enum Stage {
    /// The parameters are being evaluated. Every call begins here.
    Binding,
    /// The guard is looking at the statement.
    Guarding { parameters: Vec<QueryParameter> },
    /// A client is being connected.
    Connecting { parameters: Vec<QueryParameter> },
    /// The statement is running.
    Running,
    /// The statement is being planned.
    Planning,
    /// The cost of a planned statement is being worked out.
    Pricing { estimate: EstimateOutcome },
    /// The call is answered.
    Done,
}

/// What outside work brought.
#[derive(Debug)]
pub enum Event {
    /// The values of the parameters, or why the evaluation failed.
    Evaluated(Result<Vec<Json>, String>),
    /// The guard's verdict.
    Guarded(Result<(), String>),
    /// Whether there is a client.
    Connected(Result<(), String>),
    /// The reply of `jobs.query`.
    Replied(Result<QueryResponse, String>),
    /// The reply did not come in time.
    TimedOut,
    /// The cost in USD, as a decimal text.
    Priced(String),
}

/// The answer to a call: its body, how the call ended, and what is said of a
/// failure.
#[derive(Debug)]
pub struct Answer {
    pub body: Json,
    pub outcome: Outcome,
    pub reason: Option<String>,
}

/// What is to be done next.
#[derive(Debug)]
pub enum Action {
    /// Ask the read-only guard about a statement.
    Guard(String),
    /// Connect a client, or take the one there is.
    Connect,
    /// Send a request that runs a statement.
    Run(QueryRequest),
    /// Send a request that plans a statement.
    Plan(QueryRequest),
    /// Work out what `bytes` cost at a price per TiB (the bits of a double).
    Price { bytes: u64, price_per_tib_usd: u64 },
    /// Answer the call.
    Answer(Answer),
}

/// The event is of the kind that the stage waits for.
pub open spec fn fits(stage: Stage, event: Event) -> bool {
    match stage {
        Stage::Binding => event is Evaluated,
        Stage::Guarding { .. } => event is Guarded,
        Stage::Connecting { .. } => event is Connected,
        Stage::Running => event is Replied || event is TimedOut,
        Stage::Planning => event is Replied || event is TimedOut,
        Stage::Pricing { .. } => event is Priced,
        Stage::Done => false,
    }
}

/// The dataset of a profile in an envelope.
pub open spec fn dataset_slot(p: BigQueryProfile) -> JsonView {
    match p.dataset {
        Some(d) => JsonView::Str(d@),
        None => JsonView::Null,
    }
}

/// The envelope of a failed call.
pub open spec fn failure_envelope(p: BigQueryProfile, call: Call, message: Seq<char>) -> JsonView {
    result_envelope(
        call.tool_name@,
        call.backend_name@,
        p.project_id@,
        dataset_slot(p),
        JsonView::Null,
        false,
        classified(message),
        JsonView::Array(seq![classified(message)]),
        JsonView::Str(message),
    )
}

/// The envelope of rows.
pub open spec fn rows_envelope(
    p: BigQueryProfile,
    call: Call,
    response: QueryResponse,
    elapsed_ms: u64,
) -> JsonView {
    let truncated = reply_truncated(response, p.max_rows as nat);
    result_envelope(
        call.tool_name@,
        call.backend_name@,
        p.project_id@,
        dataset_slot(p),
        response_slot(
            JsonView::Array(reply_documents(response, p.max_rows as nat)),
            JsonView::Number(
                NumberView::PosInt(kept_len(reply_rows(response), p.max_rows as nat) as u64),
            ),
            truncated,
            elapsed_ms,
            false,
        ),
        truncated,
        JsonView::Null,
        JsonView::Array(Seq::empty()),
        JsonView::Null,
    )
}

/// The envelope of an estimate.
pub open spec fn costs_envelope(
    p: BigQueryProfile,
    call: Call,
    bytes: Option<u64>,
    cost: Option<Seq<char>>,
    cache_hit: bool,
    columns: Seq<JsonView>,
    elapsed_ms: u64,
) -> JsonView {
    estimate_envelope(
        call.tool_name@,
        call.backend_name@,
        p.project_id@,
        dataset_slot(p),
        estimate_slot(bytes, cost, cache_hit, columns, elapsed_ms),
    )
}

/// The call is answered with a failure.
pub open spec fn failed(
    p: BigQueryProfile,
    call: Call,
    message: Seq<char>,
    outcome: Outcome,
    next: Stage,
    action: Action,
) -> bool {
    &&& next is Done
    &&& action matches Action::Answer(answer) && {
        &&& answer.body@ == failure_envelope(p, call, message)
        &&& answer.outcome == outcome
        &&& answer.reason matches Some(reason) && reason@ == message
    }
}

/// The call is answered with a success.
pub open spec fn succeeded(body: JsonView, next: Stage, action: Action) -> bool {
    &&& next is Done
    &&& action matches Action::Answer(answer) && {
        &&& answer.body@ == body
        &&& answer.outcome == Outcome::Success
        &&& answer.reason is None
    }
}

/// What is said of a resource read without a URI.
pub open spec fn no_uri_text() -> Seq<char> {
    "resource surface requires a `uri` (set a static `uri` on the binding or invoke via a resources/read request)"@
}

/// Why a run failed, where it did.
pub open spec fn run_failure(event: Event) -> Option<Seq<char>> {
    match event {
        Event::Replied(reply) => query_failure(reply),
        _ => Some("BigQuery call timed out"@),
    }
}

/// Why a dry run failed, where it did.
pub open spec fn plan_failure(event: Event) -> Option<Seq<char>> {
    match event {
        Event::Replied(reply) => dry_run_failure(reply),
        _ => Some("BigQuery dry run timed out"@),
    }
}

/// The parameters are bound: on to the guard where it is on, else to a client.
/// A parameter that cannot be bound ends the call.
pub open spec fn after_binding(
    p: BigQueryProfile,
    call: Call,
    evaluated: Result<Vec<Json>, String>,
    next: Stage,
    action: Action,
) -> bool {
    match binding_fault(evaluated) {
        Some(message) => failed(p, call, message, Outcome::InvalidSpec, next, action),
        None => evaluated matches Ok(values) && if p.read_only {
            &&& next matches Stage::Guarding { parameters } && parameter_views(parameters@)
                == bound(json_views(values@))
            &&& action matches Action::Guard(statement) && statement@ == statement_to_run(p)
        } else {
            &&& next matches Stage::Connecting { parameters } && parameter_views(parameters@)
                == bound(json_views(values@))
            &&& action is Connect
        },
    }
}

/// The guard has spoken: a refusal ends the call.
pub open spec fn after_guard(
    p: BigQueryProfile,
    call: Call,
    parameters: Seq<QueryParameter>,
    verdict: Result<(), String>,
    next: Stage,
    action: Action,
) -> bool {
    match verdict {
        Err(message) => failed(p, call, message@, Outcome::BigQueryError, next, action),
        Ok(()) => {
            &&& next matches Stage::Connecting { parameters: kept } && kept@ == parameters
            &&& action is Connect
        },
    }
}

/// There is a client, or the call ends: a dry-run binding has its statement
/// planned, every other has it run.
pub open spec fn after_connect(
    p: BigQueryProfile,
    call: Call,
    parameters: Seq<QueryParameter>,
    connected: Result<(), String>,
    next: Stage,
    action: Action,
) -> bool {
    match connected {
        Err(message) => failed(p, call, message@, Outcome::BigQueryError, next, action),
        Ok(()) => if p.dry_run {
            &&& next is Planning
            &&& action matches Action::Plan(request) && {
                &&& profile_request(request, p, p.statement@, parameters)
                &&& request.max_results is None
                &&& request.dry_run == Some(true)
            }
        } else {
            &&& next is Running
            &&& action matches Action::Run(request) && {
                &&& profile_request(request, p, statement_to_run(p), parameters)
                &&& request.max_results == Some(wire_count(p.max_rows as nat))
                &&& request.dry_run is None
            }
        },
    }
}

/// The statement has run: its rows are shaped for the binding's surface.
pub open spec fn after_run(
    p: BigQueryProfile,
    call: Call,
    event: Event,
    elapsed_ms: u64,
    next: Stage,
    action: Action,
) -> bool {
    match run_failure(event) {
        Some(message) => failed(p, call, message, failure_outcome(message), next, action),
        None => event matches Event::Replied(Ok(response)) && match p.surface {
            Surface::Tool => succeeded(
                rows_envelope(p, call, response, elapsed_ms),
                next,
                action,
            ),
            Surface::Resource => match resource_uri(some_text(p.surface_uri), call.arguments@) {
                Some(uri) => succeeded(
                    resource_body(uri, rows_text(reply_documents(response, p.max_rows as nat))),
                    next,
                    action,
                ),
                None => failed(p, call, no_uri_text(), Outcome::BigQueryError, next, action),
            },
            Surface::Prompt => succeeded(
                prompt_body(rows_text(reply_documents(response, p.max_rows as nat))),
                next,
                action,
            ),
        },
    }
}

/// The statement is planned: its cost is worked out where the bytes and a price
/// are known, else the estimate goes without one.
pub open spec fn after_plan(
    p: BigQueryProfile,
    call: Call,
    event: Event,
    elapsed_ms: u64,
    next: Stage,
    action: Action,
) -> bool {
    match plan_failure(event) {
        Some(message) => failed(p, call, message, failure_outcome(message), next, action),
        None => event matches Event::Replied(Ok(response)) && match (
            reply_bytes(response),
            p.price_per_tib_usd,
        ) {
            (Some(bytes), Some(price)) => {
                &&& next matches Stage::Pricing { estimate } && estimated(response, estimate)
                &&& action == (Action::Price { bytes, price_per_tib_usd: price })
            },
            _ => succeeded(
                costs_envelope(
                    p,
                    call,
                    reply_bytes(response),
                    None,
                    response.cache_hit == Some(true),
                    planned_columns(response),
                    elapsed_ms,
                ),
                next,
                action,
            ),
        },
    }
}

/// The columns of a planned statement.
pub open spec fn planned_columns(response: QueryResponse) -> Seq<JsonView> {
    Seq::new(reply_schema(response).len(), |i: int| field_json(reply_schema(response)[i]))
}

/// What an event makes of a stage.
pub open spec fn stepped(
    p: BigQueryProfile,
    call: Call,
    stage: Stage,
    event: Event,
    elapsed_ms: u64,
    next: Stage,
    action: Action,
) -> bool {
    match stage {
        Stage::Binding => event matches Event::Evaluated(evaluated) && after_binding(
            p,
            call,
            evaluated,
            next,
            action,
        ),
        Stage::Guarding { parameters } => event matches Event::Guarded(verdict) && after_guard(
            p,
            call,
            parameters@,
            verdict,
            next,
            action,
        ),
        Stage::Connecting { parameters } => event matches Event::Connected(connected)
            && after_connect(p, call, parameters@, connected, next, action),
        Stage::Running => after_run(p, call, event, elapsed_ms, next, action),
        Stage::Planning => after_plan(p, call, event, elapsed_ms, next, action),
        Stage::Pricing { estimate } => event matches Event::Priced(cost) && succeeded(
            costs_envelope(
                p,
                call,
                estimate.total_bytes_processed,
                Some(cost@),
                estimate.cache_hit,
                json_views(estimate.schema@),
                elapsed_ms,
            ),
            next,
            action,
        ),
        Stage::Done => false,
    }
}

/// The numbers of an answer are written as they are read, and so are those of an
/// estimate that is being priced.
pub open spec fn numbers_kept(next: Stage, action: Action) -> bool {
    &&& action matches Action::Answer(answer) ==> numbers_settled(answer.body@)
    &&& next matches Stage::Pricing { estimate } ==> all_settled(estimate.schema@)
}

/// The cost is written as it is read, and so are the numbers of its estimate.
pub open spec fn cost_settled(stage: Stage, event: Event) -> bool {
    &&& stage matches Stage::Pricing { estimate } ==> all_settled(estimate.schema@)
    &&& event matches Event::Priced(cost) ==> finite_double(cost@) == Some(cost@)
}

/// Answer a call with a failure.
fn fail(p: &BigQueryProfile, call: &Call, message: String, outcome: Outcome, elapsed_ms: u64) -> (r: (
    Stage,
    Action,
))
    ensures
        failed(*p, *call, message@, outcome, r.0, r.1),
        numbers_kept(r.0, r.1),
{
    let failure = classify_error(message.as_str());
    let body = build_result_envelope(
        call.tool_name.as_str(),
        call.backend_name.as_str(),
        p.project_id.as_str(),
        borrowed(&p.dataset),
        None,
        None,
        false,
        elapsed_ms as u128,
        Some(&failure),
        Some(message.as_str()),
    );
    (Stage::Done, Action::Answer(Answer { body, outcome, reason: Some(message) }))
}

/// Answer a call with a success.
fn succeed(body: Json) -> (r: (Stage, Action))
    ensures
        succeeded(body@, r.0, r.1),
        numbers_settled(body@) ==> numbers_kept(r.0, r.1),
{
    (Stage::Done, Action::Answer(Answer { body, outcome: Outcome::Success, reason: None }))
}

/// Answer a call with an estimate.
fn answer_estimate(
    p: &BigQueryProfile,
    call: &Call,
    estimate: &EstimateOutcome,
    cost: Option<&str>,
    elapsed_ms: u64,
) -> (r: (Stage, Action))
    ensures
        succeeded(
            costs_envelope(
                *p,
                *call,
                estimate.total_bytes_processed,
                some_chars(cost),
                estimate.cache_hit,
                json_views(estimate.schema@),
                elapsed_ms,
            ),
            r.0,
            r.1,
        ),
        all_settled(estimate.schema@) && (cost matches Some(text) ==> finite_double(text@) == Some(
            text@,
        )) ==> numbers_kept(r.0, r.1),
{
    succeed(
        build_estimate_envelope(
            call.tool_name.as_str(),
            call.backend_name.as_str(),
            p.project_id.as_str(),
            borrowed(&p.dataset),
            estimate.total_bytes_processed,
            cost,
            estimate.cache_hit,
            estimate.schema.as_slice(),
            elapsed_ms as u128,
        ),
    )
}

fn step_binding(
    p: &BigQueryProfile,
    call: &Call,
    evaluated: Result<Vec<Json>, String>,
    elapsed_ms: u64,
) -> (r: (Stage, Action))
    ensures
        after_binding(*p, *call, evaluated, r.0, r.1),
        numbers_kept(r.0, r.1),
{
    match bind_parameters(evaluated) {
        Err(message) => fail(p, call, message, Outcome::InvalidSpec, elapsed_ms),
        Ok(parameters) => {
            if p.read_only {
                let statement = effective_statement(p).to_owned();
                (Stage::Guarding { parameters }, Action::Guard(statement))
            } else {
                (Stage::Connecting { parameters }, Action::Connect)
            }
        },
    }
}

fn step_connecting(
    p: &BigQueryProfile,
    call: &Call,
    parameters: Vec<QueryParameter>,
    connected: Result<(), String>,
    elapsed_ms: u64,
) -> (r: (Stage, Action))
    ensures
        after_connect(*p, *call, parameters@, connected, r.0, r.1),
        numbers_kept(r.0, r.1),
{
    match connected {
        Err(message) => fail(p, call, message, Outcome::BigQueryError, elapsed_ms),
        Ok(()) => {
            if p.dry_run {
                (Stage::Planning, Action::Plan(plan_request(p, parameters)))
            } else {
                let request = run_request(p, effective_statement(p), p.max_rows, parameters);
                (Stage::Running, Action::Run(request))
            }
        },
    }
}

fn step_running(p: &BigQueryProfile, call: &Call, event: Event, elapsed_ms: u64) -> (r: (
    Stage,
    Action,
))
    requires
        fits(Stage::Running, event),
    ensures
        after_run(*p, *call, event, elapsed_ms, r.0, r.1),
        numbers_kept(r.0, r.1),
{
    let settled: Result<QueryOutcome, String> = match event {
        Event::Replied(reply) => settle_query(reply, p.max_rows),
        _ => Err("BigQuery call timed out".to_owned()),
    };
    match settled {
        Err(message) => {
            let outcome = outcome_of_failure(message.as_str());
            fail(p, call, message, outcome, elapsed_ms)
        },
        Ok(outcome) => match p.surface {
            Surface::Tool => succeed(
                build_result_envelope(
                    call.tool_name.as_str(),
                    call.backend_name.as_str(),
                    p.project_id.as_str(),
                    borrowed(&p.dataset),
                    Some(outcome.rows.as_slice()),
                    Some(outcome.row_count),
                    outcome.truncated,
                    elapsed_ms as u128,
                    None,
                    None,
                ),
            ),
            Surface::Resource => {
                match resolve_resource_uri(borrowed(&p.surface_uri), &call.arguments) {
                    Some(uri) => succeed(
                        resource_contents_body(uri.as_str(), outcome.rows.as_slice()),
                    ),
                    None => fail(
                        p,
                        call,
                        "resource surface requires a `uri` (set a static `uri` on the binding or invoke via a resources/read request)".to_owned(),
                        Outcome::BigQueryError,
                        elapsed_ms,
                    ),
                }
            },
            Surface::Prompt => succeed(prompt_messages_body(outcome.rows.as_slice())),
        },
    }
}

fn step_planning(p: &BigQueryProfile, call: &Call, event: Event, elapsed_ms: u64) -> (r: (
    Stage,
    Action,
))
    requires
        fits(Stage::Planning, event),
    ensures
        after_plan(*p, *call, event, elapsed_ms, r.0, r.1),
        numbers_kept(r.0, r.1),
{
    let settled: Result<EstimateOutcome, String> = match event {
        Event::Replied(reply) => settle_dry_run(reply),
        _ => Err("BigQuery dry run timed out".to_owned()),
    };
    match settled {
        Err(message) => {
            let outcome = outcome_of_failure(message.as_str());
            fail(p, call, message, outcome, elapsed_ms)
        },
        Ok(estimate) => {
            proof {
                let response = event->Replied_0->Ok_0;
                assert(json_views(estimate.schema@) =~= planned_columns(response));
            }
            match (estimate.total_bytes_processed, p.price_per_tib_usd) {
                (Some(bytes), Some(price)) => (
                    Stage::Pricing { estimate },
                    Action::Price { bytes, price_per_tib_usd: price },
                ),
                _ => answer_estimate(p, call, &estimate, None, elapsed_ms),
            }
        },
    }
}

fn step_guarding(
    p: &BigQueryProfile,
    call: &Call,
    parameters: Vec<QueryParameter>,
    verdict: Result<(), String>,
    elapsed_ms: u64,
) -> (r: (Stage, Action))
    ensures
        after_guard(*p, *call, parameters@, verdict, r.0, r.1),
        numbers_kept(r.0, r.1),
{
    match verdict {
        Err(message) => fail(p, call, message, Outcome::BigQueryError, elapsed_ms),
        Ok(()) => (Stage::Connecting { parameters }, Action::Connect),
    }
}

/// Take an event at a stage: the next stage, and what is to be done. A call
/// begins at `Stage::Binding` and ends with the action that answers it; an
/// event that the stage does not wait for gives nothing. `elapsed_ms` is how
/// long the call has taken so far. The numbers of an answer are sent as they
/// are: those of marshalled rows always, a cost where its text is the one that
/// the double is displayed as.
pub fn step(p: &BigQueryProfile, call: &Call, stage: Stage, event: Event, elapsed_ms: u64) -> (r:
    Option<(Stage, Action)>)
    ensures
        match r {
            Some(done) => fits(stage, event) && stepped(
                *p,
                *call,
                stage,
                event,
                elapsed_ms,
                done.0,
                done.1,
            ),
            None => !fits(stage, event),
        },
        cost_settled(stage, event) ==> (r matches Some(done) ==> numbers_kept(done.0, done.1)),
{
    match (stage, event) {
        (Stage::Binding, Event::Evaluated(evaluated)) => Some(
            step_binding(p, call, evaluated, elapsed_ms),
        ),
        (Stage::Guarding { parameters }, Event::Guarded(verdict)) => Some(
            step_guarding(p, call, parameters, verdict, elapsed_ms),
        ),
        (Stage::Connecting { parameters }, Event::Connected(connected)) => Some(
            step_connecting(p, call, parameters, connected, elapsed_ms),
        ),
        (Stage::Running, Event::Replied(reply)) => Some(
            step_running(p, call, Event::Replied(reply), elapsed_ms),
        ),
        (Stage::Running, Event::TimedOut) => Some(
            step_running(p, call, Event::TimedOut, elapsed_ms),
        ),
        (Stage::Planning, Event::Replied(reply)) => Some(
            step_planning(p, call, Event::Replied(reply), elapsed_ms),
        ),
        (Stage::Planning, Event::TimedOut) => Some(
            step_planning(p, call, Event::TimedOut, elapsed_ms),
        ),
        (Stage::Pricing { estimate }, Event::Priced(cost)) => Some(
            answer_estimate(p, call, &estimate, Some(cost.as_str()), elapsed_ms),
        ),
        _ => None,
    }
}

/// One step of a call.
pub struct Step {
    pub stage: Stage,
    pub event: Event,
    pub elapsed_ms: u64,
    pub next: Stage,
    pub action: Action,
}

/// The steps are those of one call, from its beginning on: each is what its
/// event makes of the stage that the one before it led to.
pub open spec fn is_course(p: BigQueryProfile, call: Call, steps: Seq<Step>) -> bool {
    &&& steps.len() > 0 ==> steps[0].stage is Binding
    &&& forall|i: int|
        0 <= i < steps.len() ==> {
            &&& fits((#[trigger] steps[i]).stage, steps[i].event)
            &&& stepped(
                p,
                call,
                steps[i].stage,
                steps[i].event,
                steps[i].elapsed_ms,
                steps[i].next,
                steps[i].action,
            )
        }
    &&& forall|i: int|
        0 < i < steps.len() ==> (#[trigger] steps[i]).stage == steps[i - 1].next
}

/// The step sends a request to BigQuery.
pub open spec fn sends(step: Step) -> bool {
    step.action is Run || step.action is Plan
}

/// How far along the stage is.
pub open spec fn rank(stage: Stage) -> int {
    match stage {
        Stage::Binding => 0,
        Stage::Guarding { .. } => 1,
        Stage::Connecting { .. } => 2,
        Stage::Running => 3,
        Stage::Planning => 3,
        Stage::Pricing { .. } => 4,
        Stage::Done => 5,
    }
}

/// Each step gets a call on, so that the step at position `i` is at a stage of
/// at least that rank.
proof fn lemma_rank(p: BigQueryProfile, call: Call, steps: Seq<Step>, i: int, j: int)
    requires
        is_course(p, call, steps),
        0 <= i <= j < steps.len(),
    ensures
        rank(steps[j].stage) - rank(steps[i].stage) >= j - i,
        rank(steps[j].stage) < rank(steps[j].next),
    decreases j - i,
{
    assert(rank(steps[j].stage) < rank(steps[j].next));
    if i < j {
        lemma_rank(p, call, steps, i, j - 1);
        assert(steps[j].stage == steps[j - 1].next);
    }
}

/// No call takes more than five steps. It is answered by the step that ends it,
/// which is its last, and by no other.
pub proof fn law_call_is_answered_once(p: BigQueryProfile, call: Call, steps: Seq<Step>)
    requires
        is_course(p, call, steps),
    ensures
        steps.len() <= 5,
        forall|i: int|
            0 <= i < steps.len() ==> ((#[trigger] steps[i]).action is Answer <==> steps[i].next
                is Done),
        forall|i: int|
            0 <= i < steps.len() - 1 ==> !((#[trigger] steps[i]).action is Answer),
{
    if steps.len() > 0 {
        lemma_rank(p, call, steps, 0, steps.len() - 1);
    }
    assert forall|i: int| 0 <= i < steps.len() - 1 implies !((#[trigger] steps[i]).action
        is Answer) by {
        assert(steps[i + 1].stage == steps[i].next);
    }
}

/// At most one request is sent to BigQuery for a call.
pub proof fn law_one_request(p: BigQueryProfile, call: Call, steps: Seq<Step>, i: int, j: int)
    requires
        is_course(p, call, steps),
        0 <= i < steps.len(),
        0 <= j < steps.len(),
        sends(steps[i]),
        sends(steps[j]),
    ensures
        i == j,
{
    assert(steps[i].stage is Connecting);
    assert(steps[j].stage is Connecting);
    if i < j {
        lemma_rank(p, call, steps, i, j);
    } else if j < i {
        lemma_rank(p, call, steps, j, i);
    }
}

/// Under the read-only guard nothing is sent to BigQuery before the guard has
/// passed the statement that the call runs. What runs is that statement; what
/// is planned is the profile's statement, which is the same text unless the
/// binding is a resource with a read statement.
pub proof fn law_guarded_before_sent(p: BigQueryProfile, call: Call, steps: Seq<Step>, i: int)
    requires
        is_course(p, call, steps),
        p.read_only,
        0 <= i < steps.len(),
        sends(steps[i]),
    ensures
        i == 2,
        steps[0].action matches Action::Guard(asked) && {
            &&& asked@ == statement_to_run(p)
            &&& steps[2].action matches Action::Run(request) ==> request.query@ == asked@
            &&& steps[2].action matches Action::Plan(request) ==> request.query@ == p.statement@
        },
        steps[1].event matches Event::Guarded(verdict) && verdict is Ok,
        steps[2].event matches Event::Connected(connected) && connected is Ok,
{
    assert(steps[i].stage is Connecting);
    lemma_rank(p, call, steps, 0, i);
    assert(steps[i].stage == steps[i - 1].next);
    assert(steps[i - 1].stage is Guarding);
    assert(steps[i - 1].stage == steps[i - 2].next);
    assert(steps[i - 2].stage is Binding);
    if i > 2 {
        lemma_rank(p, call, steps, 0, i - 2);
    }
}

/// The SQL text is the operator's, whatever the caller sends: what runs is the
/// profile's read statement or statement, what is planned is its statement, and
/// the caller's values go along as the bound parameters of the call, in their
/// order and none of them lost.
pub proof fn law_statement_is_fixed(p: BigQueryProfile, call: Call, steps: Seq<Step>, i: int)
    requires
        is_course(p, call, steps),
        0 <= i < steps.len(),
        sends(steps[i]),
    ensures
        steps[i].action matches Action::Run(request) ==> request.query@ == statement_to_run(p),
        steps[i].action matches Action::Plan(request) ==> request.query@ == p.statement@,
        steps[0].event matches Event::Evaluated(Ok(values)) && match steps[i].action {
            Action::Run(request) => parameter_views(request.query_parameters@) == bound(
                json_views(values@),
            ),
            Action::Plan(request) => parameter_views(request.query_parameters@) == bound(
                json_views(values@),
            ),
            _ => false,
        },
{
    lemma_connecting_parameters(p, call, steps, i);
}

/// The parameters at the guard and at the client are those bound at first.
proof fn lemma_connecting_parameters(p: BigQueryProfile, call: Call, steps: Seq<Step>, i: int)
    requires
        is_course(p, call, steps),
        0 <= i < steps.len(),
        steps[i].stage is Guarding || steps[i].stage is Connecting,
    ensures
        steps[0].event matches Event::Evaluated(Ok(values)) && match steps[i].stage {
            Stage::Guarding { parameters } => parameter_views(parameters@) == bound(
                json_views(values@),
            ),
            Stage::Connecting { parameters } => parameter_views(parameters@) == bound(
                json_views(values@),
            ),
            _ => false,
        },
    decreases i,
{
    assert(i > 0);
    assert(steps[i].stage == steps[i - 1].next);
    if steps[i - 1].stage is Binding {
        lemma_rank(p, call, steps, 0, i - 1);
        assert(i == 1);
    } else {
        lemma_connecting_parameters(p, call, steps, i - 1);
    }
}

/// A dry-run binding never runs its statement, and its request says so; every
/// other binding never plans.
pub proof fn law_dry_run_runs_nothing(p: BigQueryProfile, call: Call, steps: Seq<Step>, i: int)
    requires
        is_course(p, call, steps),
        0 <= i < steps.len(),
    ensures
        p.dry_run ==> !(steps[i].action is Run),
        !p.dry_run ==> !(steps[i].action is Plan),
        steps[i].action matches Action::Plan(request) ==> request.dry_run == Some(true)
            && request.max_results is None,
{
}

/// The cost cap goes along with every request: exactly, up to what the wire can
/// carry.
pub proof fn law_cost_cap_is_carried(p: BigQueryProfile, call: Call, steps: Seq<Step>, i: int)
    requires
        is_course(p, call, steps),
        0 <= i < steps.len(),
        sends(steps[i]),
        p.maximum_bytes_billed matches Some(cap) && cap <= i64::MAX,
    ensures
        match steps[i].action {
            Action::Run(request) => request.maximum_bytes_billed == Some(
                p.maximum_bytes_billed->0 as i64,
            ),
            Action::Plan(request) => request.maximum_bytes_billed == Some(
                p.maximum_bytes_billed->0 as i64,
            ),
            _ => false,
        },
{
}

/// A call fails or succeeds by what its answer carries: the `downstreamError` of
/// the answer is null exactly where the call succeeded, and else is what the
/// failure is classified as.
pub proof fn law_answer_flags_failure(
    p: BigQueryProfile,
    call: Call,
    stage: Stage,
    event: Event,
    elapsed_ms: u64,
    next: Stage,
    answer: Answer,
)
    requires
        fits(stage, event),
        stepped(p, call, stage, event, elapsed_ms, next, Action::Answer(answer)),
    ensures
        answer.body@.at("downstreamError"@) is Null <==> answer.outcome == Outcome::Success,
        match answer.reason {
            Some(message) => {
                &&& answer.outcome != Outcome::Success
                &&& answer.body@ == failure_envelope(p, call, message@)
                &&& answer.body@.at("downstreamError"@) == classified(message@)
                &&& answer.body@.at("response"@) is Null
                &&& answer.body@.at("error"@) == JsonView::Str(message@)
            },
            None => answer.outcome == Outcome::Success,
        },
{
    match answer.reason {
        Some(message) => {
            law_result_envelope_slots(
                call.tool_name@,
                call.backend_name@,
                p.project_id@,
                dataset_slot(p),
                JsonView::Null,
                false,
                classified(message@),
                JsonView::Array(seq![classified(message@)]),
                JsonView::Str(message@),
            );
        },
        None => {
            broadcast use lemma_member_push;

            reveal_strlit("downstreamError");
            reveal_strlit("contents");
            reveal_strlit("messages");
            assert("downstreamError"@.len() == 15);
            assert("contents"@.len() == 8 && "messages"@.len() == 8);
            match (stage, event) {
                (Stage::Running, Event::Replied(Ok(response))) => {
                    let truncated = reply_truncated(response, p.max_rows as nat);
                    let rows = JsonView::Array(reply_documents(response, p.max_rows as nat));
                    let count = JsonView::Number(
                        NumberView::PosInt(
                            kept_len(reply_rows(response), p.max_rows as nat) as u64,
                        ),
                    );
                    law_result_envelope_slots(
                        call.tool_name@,
                        call.backend_name@,
                        p.project_id@,
                        dataset_slot(p),
                        response_slot(rows, count, truncated, elapsed_ms, false),
                        truncated,
                        JsonView::Null,
                        JsonView::Array(Seq::empty()),
                        JsonView::Null,
                    );
                },
                (Stage::Planning, Event::Replied(Ok(response))) => {
                    law_estimate_envelope_slots(
                        call.tool_name@,
                        call.backend_name@,
                        p.project_id@,
                        dataset_slot(p),
                        reply_bytes(response),
                        None,
                        response.cache_hit == Some(true),
                        planned_columns(response),
                        elapsed_ms,
                    );
                },
                (Stage::Pricing { estimate }, Event::Priced(cost)) => {
                    law_estimate_envelope_slots(
                        call.tool_name@,
                        call.backend_name@,
                        p.project_id@,
                        dataset_slot(p),
                        estimate.total_bytes_processed,
                        Some(cost@),
                        estimate.cache_hit,
                        json_views(estimate.schema@),
                        elapsed_ms,
                    );
                },
                _ => {},
            }
        },
    }
}

/// The bytes of an answer flag a failure too: in the document that is sent, the
/// `downstreamError` is null exactly where the call succeeded.
pub proof fn law_sent_answer_flags_failure(
    p: BigQueryProfile,
    call: Call,
    stage: Stage,
    event: Event,
    elapsed_ms: u64,
    next: Stage,
    answer: Answer,
)
    requires
        fits(stage, event),
        stepped(p, call, stage, event, elapsed_ms, next, Action::Answer(answer)),
    ensures
        sent_document(answer.body@).at("downstreamError"@) is Null <==> answer.outcome
            == Outcome::Success,
{
    law_answer_flags_failure(p, call, stage, event, elapsed_ms, next, answer);
    lemma_answer_names_distinct(p, call, stage, event, elapsed_ms, next, answer);
    let ms = answer.body@->Object_0;
    law_sent_keeps_members(ms, "downstreamError"@);
    match answer.reason {
        Some(message) => {
            assert(sent_document(classified(message@)) is Object);
        },
        None => {},
    }
}

/// An answer is an object whose names are distinct.
proof fn lemma_answer_names_distinct(
    p: BigQueryProfile,
    call: Call,
    stage: Stage,
    event: Event,
    elapsed_ms: u64,
    next: Stage,
    answer: Answer,
)
    requires
        fits(stage, event),
        stepped(p, call, stage, event, elapsed_ms, next, Action::Answer(answer)),
    ensures
        answer.body@ is Object,
        distinct_names(answer.body@->Object_0),
{
    match answer.reason {
        Some(message) => {
            lemma_result_names_distinct(
                call.tool_name@,
                call.backend_name@,
                p.project_id@,
                dataset_slot(p),
                JsonView::Null,
                false,
                classified(message@),
                JsonView::Array(seq![classified(message@)]),
                JsonView::Str(message@),
            );
        },
        None => match (stage, event) {
            (Stage::Running, Event::Replied(Ok(response))) => {
                let truncated = reply_truncated(response, p.max_rows as nat);
                lemma_result_names_distinct(
                    call.tool_name@,
                    call.backend_name@,
                    p.project_id@,
                    dataset_slot(p),
                    response_slot(
                        JsonView::Array(reply_documents(response, p.max_rows as nat)),
                        JsonView::Number(
                            NumberView::PosInt(
                                kept_len(reply_rows(response), p.max_rows as nat) as u64,
                            ),
                        ),
                        truncated,
                        elapsed_ms,
                        false,
                    ),
                    truncated,
                    JsonView::Null,
                    JsonView::Array(Seq::empty()),
                    JsonView::Null,
                );
            },
            (Stage::Planning, Event::Replied(Ok(response))) => {
                lemma_estimate_names_distinct(
                    call.tool_name@,
                    call.backend_name@,
                    p.project_id@,
                    dataset_slot(p),
                    estimate_slot(
                        reply_bytes(response),
                        None,
                        response.cache_hit == Some(true),
                        planned_columns(response),
                        elapsed_ms,
                    ),
                );
            },
            (Stage::Pricing { estimate }, Event::Priced(cost)) => {
                lemma_estimate_names_distinct(
                    call.tool_name@,
                    call.backend_name@,
                    p.project_id@,
                    dataset_slot(p),
                    estimate_slot(
                        estimate.total_bytes_processed,
                        Some(cost@),
                        estimate.cache_hit,
                        json_views(estimate.schema@),
                        elapsed_ms,
                    ),
                );
            },
            _ => {},
        },
    }
}

} // verus!
