//! What a call asks of BigQuery: its parameters by position, and the statement
//! and settings of its requests.

use vstd::prelude::*;

use crate::bigquery::{
    client_failure, request_carries, wire_count, ClientStep, JobSettings, QueryParameter,
    QueryRequest,
};
use crate::call::{
    binding_fault, call_begun, called_tool, finalized, payload_arguments, payload_settled,
    profile_request, settings_match, statement_to_run, tool_header, BackendResponse, Call,
};
use crate::decimal::{decimal, signed_decimal};
use crate::execute::{
    after_binding, fits, is_course, law_statement_is_fixed, sends, Action, Event, Stage, Step,
};
use crate::json::{json_views, Json, JsonView, NumberView};
use crate::keyed::lookup;
use crate::outside::{parsed_bytes, sent_document, written_bytes};
use crate::params::{bound, lowered, parameter_views};
use crate::plugin::{BackendError, BigQueryProfile};
use crate::surface::Surface;
use crate::text::ascii_lower;

verus! {

/// The request of a step that sends one.
pub open spec fn request_of(step: Step) -> QueryRequest {
    match step.action {
        Action::Run(request) => request,
        Action::Plan(request) => request,
        _ => arbitrary(),
    }
}

/// Bound parameters are as many as there are values, and the one in each place
/// is what the value in that place alone is lowered to.
pub proof fn law_parameters_keep_their_places(
    values: Seq<Json>,
    parameters: Seq<QueryParameter>,
)
    requires
        parameter_views(parameters) == bound(json_views(values)),
    ensures
        parameters.len() == values.len(),
        forall|i: int|
            0 <= i < parameters.len() ==> (#[trigger] parameters[i])@ == lowered(values[i]@),
{
    assert(parameter_views(parameters).len() == parameters.len());
    assert(bound(json_views(values)).len() == values.len());
    assert forall|i: int| 0 <= i < parameters.len() implies (#[trigger] parameters[i])@ == lowered(
        values[i]@,
    ) by {
        assert(parameter_views(parameters)[i] == parameters[i]@);
        assert(bound(json_views(values))[i] == lowered(json_views(values)[i]));
    }
}

/// Whatever a call sends carries as many parameters as the evaluation gave
/// values, each in its place and lowered from the value in that place alone.
/// The mode is positional exactly where there are parameters.
pub proof fn law_requests_carry_the_values(
    p: BigQueryProfile,
    call: Call,
    steps: Seq<Step>,
    i: int,
)
    requires
        is_course(p, call, steps),
        0 <= i < steps.len(),
        sends(steps[i]),
    ensures
        steps[0].event matches Event::Evaluated(Ok(values)) && {
            let request = request_of(steps[i]);
            &&& request.query_parameters@.len() == values@.len()
            &&& forall|k: int|
                0 <= k < values@.len() ==> (#[trigger] request.query_parameters@[k])@ == lowered(
                    values@[k]@,
                )
            &&& forall|k: int|
                0 <= k < values@.len() ==> !((#[trigger] values@[k])@ is Array)
                    && !(values@[k]@ is Object)
            &&& request.parameter_mode is Some <==> values@.len() > 0
            &&& request.parameter_mode matches Some(mode) ==> mode@ == "POSITIONAL"@
        },
{
    law_statement_is_fixed(p, call, steps, i);
    let values = steps[0].event->Evaluated_0->Ok_0;
    let request = request_of(steps[i]);
    law_parameters_keep_their_places(values@, request.query_parameters@);
    assert forall|k: int| 0 <= k < values@.len() implies !((#[trigger] values@[k])@ is Array)
        && !(values@[k]@ is Object) by {
        assert(json_views(values@)[k] == values@[k]@);
        lemma_bound_values_are_scalars(p, call, steps, i);
    }
}

/// A call that sends a request passed the binding of its parameters.
proof fn lemma_bound_values_are_scalars(
    p: BigQueryProfile,
    call: Call,
    steps: Seq<Step>,
    i: int,
)
    requires
        is_course(p, call, steps),
        0 <= i < steps.len(),
        sends(steps[i]),
    ensures
        steps[0].event matches Event::Evaluated(evaluated) && binding_fault(evaluated) is None,
{
    assert(crate::execute::fits(steps[0].stage, steps[0].event));
    assert(steps[i].stage is Connecting);
    assert(i > 0);
    let evaluated = steps[0].event->Evaluated_0;
    if binding_fault(evaluated) is Some {
        assert(steps[0].next is Done);
        assert(steps[1].stage == steps[0].next);
        assert(crate::execute::fits(steps[1].stage, steps[1].event));
    }
}

/// The type and the text of a bound parameter go by what the value is. A null
/// is bound as a text that is null, and nothing else is.
pub proof fn law_parameters_go_by_kind(value: JsonView)
    ensures
        value is Null ==> lowered(value).parameter_type == "STRING"@ && lowered(value).value is None,
        !(value is Null || value is Array || value is Object) ==> lowered(value).value is Some,
        value == JsonView::Bool(true) ==> lowered(value).parameter_type == "BOOL"@ && lowered(
            value,
        ).value == Some("true"@),
        value == JsonView::Bool(false) ==> lowered(value).parameter_type == "BOOL"@ && lowered(
            value,
        ).value == Some("false"@),
        value matches JsonView::Number(NumberView::PosInt(n)) ==> lowered(value).parameter_type
            == "INT64"@ && lowered(value).value == Some(decimal(n as nat)),
        value matches JsonView::Number(NumberView::NegInt(n)) ==> lowered(value).parameter_type
            == "INT64"@ && lowered(value).value == Some(signed_decimal(n as int)),
        value matches JsonView::Number(NumberView::Float(text)) ==> lowered(value).parameter_type
            == "FLOAT64"@ && lowered(value).value == Some(text),
        value matches JsonView::Str(text) ==> lowered(value).parameter_type == "STRING"@ && lowered(
            value,
        ).value == Some(text),
{
}

/// Parameters cannot be bound exactly where the evaluation failed or one of the
/// values is an array or an object; what is said begins with which of the two
/// it was.
pub proof fn law_only_scalars_are_bound(evaluated: Result<Vec<Json>, String>)
    ensures
        binding_fault(evaluated) is None <==> (evaluated matches Ok(values) && forall|i: int|
            0 <= i < values@.len() ==> !((#[trigger] values@[i])@ is Array) && !(values@[i]@
                is Object)),
        evaluated matches Err(cause) ==> binding_fault(evaluated) == Some(
            "evaluating params: "@ + cause@,
        ),
        evaluated is Ok ==> (binding_fault(evaluated) matches Some(m) ==> m == "binding params: "@
            + "arrays and objects cannot be bound as query parameters"@),
{
    if let Ok(values) = evaluated {
        if binding_fault(evaluated) is None {
            assert forall|i: int| 0 <= i < values@.len() implies !((#[trigger] values@[i])@
                is Array) && !(values@[i]@ is Object) by {
                assert(json_views(values@)[i] == values@[i]@);
            }
        } else if forall|i: int|
            0 <= i < values@.len() ==> !((#[trigger] values@[i])@ is Array) && !(values@[i]@
                is Object) {
            assert forall|i: int| 0 <= i < values@.len() implies crate::params::is_scalar(
                #[trigger] json_views(values@)[i],
            ) by {
                assert(!(values@[i]@ is Array) && !(values@[i]@ is Object));
            }
        }
    }
}

/// A count goes on the wire as it is, or as the largest one that the wire
/// carries.
pub proof fn law_counts_are_clamped(n: nat)
    ensures
        n <= i64::MAX ==> wire_count(n) == n,
        n > i64::MAX ==> wire_count(n) == i64::MAX,
{
}

/// Every request of a call carries the profile's settings: its SQL dialect, its
/// ceiling on time and its cap on cost as far as the wire carries them, its
/// location, and its dataset in its project. A run asks for the profile's cap of
/// rows and is no dry run; a plan asks for no rows and is one.
pub proof fn law_requests_carry_the_settings(
    p: BigQueryProfile,
    call: Call,
    steps: Seq<Step>,
    i: int,
)
    requires
        is_course(p, call, steps),
        0 <= i < steps.len(),
        sends(steps[i]),
    ensures
        ({
            let request = request_of(steps[i]);
            &&& request.use_legacy_sql == p.use_legacy_sql
            &&& p.timeout_ms <= i64::MAX ==> request.timeout_ms == Some(p.timeout_ms as i64)
            &&& p.timeout_ms > i64::MAX ==> request.timeout_ms == Some(i64::MAX)
            &&& p.maximum_bytes_billed is None ==> request.maximum_bytes_billed is None
            &&& (p.maximum_bytes_billed matches Some(cap) ==> (cap <= i64::MAX
                ==> request.maximum_bytes_billed == Some(cap as i64)))
            &&& (p.maximum_bytes_billed matches Some(cap) ==> (cap > i64::MAX
                ==> request.maximum_bytes_billed == Some(i64::MAX)))
            &&& (p.location matches Some(l) ==> request.location@ == l@)
            &&& p.location is None ==> request.location@.len() == 0
            &&& p.dataset is None ==> request.default_dataset is None
            &&& (p.dataset matches Some(d) ==> (request.default_dataset matches Some(reference)
                && reference.project_id@ == p.project_id@ && reference.dataset_id@ == d@))
            &&& steps[i].action is Run <==> !p.dry_run
            &&& steps[i].action is Plan <==> p.dry_run
            &&& p.dry_run ==> request.dry_run == Some(true) && request.max_results is None
                && request.query@ == p.statement@
            &&& !p.dry_run ==> request.dry_run is None
            &&& !p.dry_run && p.max_rows <= i64::MAX ==> request.max_results == Some(
                p.max_rows as i64,
            )
            &&& !p.dry_run && p.max_rows > i64::MAX ==> request.max_results == Some(i64::MAX)
            &&& !p.dry_run && p.surface == Surface::Resource ==> (p.read_query matches Some(q)
                ==> request.query@ == q@)
            &&& !p.dry_run && (p.surface != Surface::Resource || p.read_query is None)
                ==> request.query@ == p.statement@
        }),
{
    law_statement_is_fixed(p, call, steps, i);
}

/// A request under settings carries each of them, the statement as it stands,
/// and the given parameters in their places.
pub proof fn law_request_carries_its_settings(
    request: QueryRequest,
    settings: JobSettings,
    statement: Seq<char>,
    parameters: Seq<QueryParameter>,
)
    requires
        request_carries(request, settings, statement, parameters),
    ensures
        request.query@ == statement,
        request.use_legacy_sql == settings.use_legacy_sql,
        settings.timeout_ms <= i64::MAX ==> request.timeout_ms == Some(settings.timeout_ms as i64),
        settings.timeout_ms > i64::MAX ==> request.timeout_ms == Some(i64::MAX),
        settings.maximum_bytes_billed is None ==> request.maximum_bytes_billed is None,
        settings.maximum_bytes_billed matches Some(cap) ==> (cap <= i64::MAX
            ==> request.maximum_bytes_billed == Some(cap as i64)),
        settings.maximum_bytes_billed matches Some(cap) ==> (cap > i64::MAX
            ==> request.maximum_bytes_billed == Some(i64::MAX)),
        settings.location matches Some(l) ==> request.location@ == l@,
        settings.location is None ==> request.location@.len() == 0,
        settings.dataset is None ==> request.default_dataset is None,
        settings.dataset matches Some(d) ==> (request.default_dataset matches Some(reference)
            && reference.project_id@ == settings.project_id@ && reference.dataset_id@ == d@),
        request.query_parameters@.len() == parameters.len(),
        forall|k: int|
            0 <= k < parameters.len() ==> #[trigger] request.query_parameters@[k] == parameters[k],
        request.parameter_mode is Some <==> parameters.len() > 0,
        request.parameter_mode matches Some(mode) ==> mode@ == "POSITIONAL"@,
{
}

/// A request from a profile carries each of the profile's settings, the
/// statement as it stands, and the given parameters in their places.
pub proof fn law_request_carries_its_profile(
    request: QueryRequest,
    p: BigQueryProfile,
    statement: Seq<char>,
    parameters: Seq<QueryParameter>,
)
    requires
        profile_request(request, p, statement, parameters),
    ensures
        request.query@ == statement,
        request.use_legacy_sql == p.use_legacy_sql,
        p.timeout_ms <= i64::MAX ==> request.timeout_ms == Some(p.timeout_ms as i64),
        p.timeout_ms > i64::MAX ==> request.timeout_ms == Some(i64::MAX),
        p.maximum_bytes_billed is None ==> request.maximum_bytes_billed is None,
        p.maximum_bytes_billed matches Some(cap) ==> (cap <= i64::MAX
            ==> request.maximum_bytes_billed == Some(cap as i64)),
        p.maximum_bytes_billed matches Some(cap) ==> (cap > i64::MAX
            ==> request.maximum_bytes_billed == Some(i64::MAX)),
        p.location matches Some(l) ==> request.location@ == l@,
        p.location is None ==> request.location@.len() == 0,
        p.dataset is None ==> request.default_dataset is None,
        p.dataset matches Some(d) ==> (request.default_dataset matches Some(reference)
            && reference.project_id@ == p.project_id@ && reference.dataset_id@ == d@),
        request.query_parameters@.len() == parameters.len(),
        forall|k: int|
            0 <= k < parameters.len() ==> #[trigger] request.query_parameters@[k] == parameters[k],
        request.parameter_mode is Some <==> parameters.len() > 0,
        request.parameter_mode matches Some(mode) ==> mode@ == "POSITIONAL"@,
{
}

/// The statement of a call is the read statement of a resource binding that has
/// one, and the binding's statement on every other binding.
pub proof fn law_statement_by_surface(p: BigQueryProfile)
    ensures
        p.surface == Surface::Resource ==> (p.read_query matches Some(q) ==> statement_to_run(p)
            == q@),
        p.surface == Surface::Resource && p.read_query is None ==> statement_to_run(p)
            == p.statement@,
        p.surface == Surface::Tool || p.surface == Surface::Prompt ==> statement_to_run(p)
            == p.statement@,
{
}

/// Where the parameters are bound, a guarded binding has the statement that
/// will run looked at, as it stands; an unguarded one goes straight to a client.
pub proof fn law_guard_sees_the_statement(
    p: BigQueryProfile,
    call: Call,
    values: Vec<Json>,
    next: Stage,
    action: Action,
)
    requires
        after_binding(p, call, Ok(values), next, action),
        forall|i: int|
            0 <= i < values@.len() ==> !((#[trigger] values@[i])@ is Array) && !(values@[i]@
                is Object),
    ensures
        p.read_only ==> (action matches Action::Guard(statement) && statement@ == (if p.surface
            == Surface::Resource && p.read_query is Some {
            p.read_query->0@
        } else {
            p.statement@
        })),
        !p.read_only ==> action is Connect,
{
    law_only_scalars_are_bound(Ok(values));
}

/// The tool of a call is named by the first header whose key is the tool name's
/// in any ASCII case, and by the binding's name where there is none.
pub proof fn law_tool_is_named_by_first_header(
    headers: Seq<(String, String)>,
    backend_name: Seq<char>,
    i: int,
)
    requires
        0 <= i <= headers.len(),
        forall|j: int|
            0 <= j < i ==> ascii_lower((#[trigger] headers[j]).0@) != ascii_lower(
                "mcpg-tool-name"@,
            ),
        i < headers.len() ==> ascii_lower(headers[i].0@) == ascii_lower("mcpg-tool-name"@),
    ensures
        i < headers.len() ==> called_tool(headers, backend_name) == headers[i].1@,
        i == headers.len() ==> called_tool(headers, backend_name) == backend_name,
{
    lemma_header_from(headers, 0, i);
}

/// Headers with other keys are passed over.
proof fn lemma_header_from(headers: Seq<(String, String)>, from: int, i: int)
    requires
        0 <= from <= i <= headers.len(),
        forall|j: int|
            from <= j < i ==> ascii_lower((#[trigger] headers[j]).0@) != ascii_lower(
                "mcpg-tool-name"@,
            ),
        i < headers.len() ==> ascii_lower(headers[i].0@) == ascii_lower("mcpg-tool-name"@),
    ensures
        i < headers.len() ==> tool_header(headers, from) == Some(headers[i].1@),
        i == headers.len() ==> tool_header(headers, from) is None,
    decreases i - from,
{
    if from < i {
        lemma_header_from(headers, from + 1, i);
    }
}

/// The arguments of a call are the document that its payload holds; a payload
/// that holds none stands for an object without members.
pub proof fn law_payload_is_the_arguments(payload: Seq<u8>)
    ensures
        payload.len() > 0 ==> (parsed_bytes(payload) matches Some(document) ==> payload_arguments(
            payload,
        ) == document),
        payload.len() == 0 || parsed_bytes(payload) is None ==> payload_arguments(payload)
            == JsonView::Object(Seq::empty()),
{
}

/// What is said of a client that could not be set up names the step and ends in
/// the cause.
pub proof fn law_client_failures_name_the_step(step: ClientStep, cause: Seq<char>)
    ensures
        step == ClientStep::Credentials ==> client_failure(step, cause)
            == "BigQuery credentials parse failed: "@ + cause,
        step == ClientStep::Auth ==> client_failure(step, cause) == "BigQuery client auth failed: "@
            + cause,
        step == ClientStep::Init ==> client_failure(step, cause) == "BigQuery client init failed: "@
            + cause,
{
}

/// The settings of a profile's requests are the profile's own.
pub proof fn law_settings_are_the_profiles(settings: JobSettings, p: BigQueryProfile)
    requires
        settings_match(settings, p),
    ensures
        settings.project_id@ == p.project_id@,
        settings.dataset is Some <==> p.dataset is Some,
        p.dataset matches Some(d) ==> settings.dataset->0@ == d@,
        settings.location is Some <==> p.location is Some,
        p.location matches Some(l) ==> settings.location->0@ == l@,
        settings.use_legacy_sql == p.use_legacy_sql,
        settings.maximum_bytes_billed == p.maximum_bytes_billed,
        settings.timeout_ms == p.timeout_ms,
{
}

/// A parameter stands for its type and, unless null, for its value.
pub proof fn law_parameters_stand_for_themselves(parameter: QueryParameter)
    ensures
        parameter@.parameter_type == parameter.parameter_type@,
        parameter@.value is Some <==> parameter.value is Some,
        parameter.value matches Some(text) ==> parameter@.value == Some(text@),
{
}

/// A call is taken up exactly where its binding is registered, under the name of
/// the binding and with the arguments of its payload; another is refused by name.
pub proof fn law_calls_are_of_registered_bindings(
    profiles: Seq<(Seq<char>, BigQueryProfile)>,
    backend_name: Seq<char>,
    headers: Seq<(String, String)>,
    payload: Seq<u8>,
    r: Result<Call, BackendError>,
)
    requires
        call_begun(profiles, backend_name, headers, payload, r),
    ensures
        r is Ok <==> lookup(profiles, backend_name) is Some,
        r is Err ==> (r matches Err(BackendError::ProfileNotFound { backend_name: name }) && name@
            == backend_name),
        r matches Ok(call) ==> {
            &&& call.backend_name@ == backend_name
            &&& call.tool_name@ == called_tool(headers, backend_name)
            &&& headers.len() == 0 ==> call.tool_name@ == backend_name
            &&& payload.len() == 0 ==> call.arguments@ == JsonView::Object(Seq::empty())
            &&& payload.len() > 0 ==> (parsed_bytes(payload) matches Some(document)
                ==> call.arguments@ == document)
            &&& payload.len() > 0 && parsed_bytes(payload) is None ==> call.arguments@
                == JsonView::Object(Seq::empty())
        },
{
}

/// An answer goes out as the bytes of its whole envelope, and not cut short.
pub proof fn law_answers_go_out_whole(envelope: JsonView, r: Result<BackendResponse, BackendError>)
    requires
        finalized(envelope, r),
    ensures
        r is Ok,
        r->Ok_0.payload@ == written_bytes(sent_document(envelope)),
        !r->Ok_0.truncated,
{
}

/// Each stage takes the events that it waits for and no others; an answered call
/// takes none.
pub proof fn law_stages_wait_for_their_events(stage: Stage, event: Event)
    ensures
        fits(stage, event) <==> {
            ||| stage is Binding && event is Evaluated
            ||| stage is Guarding && event is Guarded
            ||| stage is Connecting && event is Connected
            ||| (stage is Running || stage is Planning) && (event is Replied || event is TimedOut)
            ||| stage is Pricing && event is Priced
        },
{
}

/// An envelope that could not be written fails the call, with the cause behind
/// what failed; one that was written goes out as it was written.
pub proof fn law_unwritten_envelopes_fail(
    written: Result<Vec<u8>, String>,
    r: Result<BackendResponse, BackendError>,
)
    requires
        payload_settled(written, r),
    ensures
        r is Ok <==> written is Ok,
        written matches Ok(payload) ==> r->Ok_0.payload@ == payload@ && !r->Ok_0.truncated,
        written matches Err(cause) ==> (r matches Err(BackendError::Transport { message })
            && message@ == "BigQuery plugin envelope serialization failed: "@ + cause@),
{
}

} // verus!
