//! What a call is answered with: the bodies of resources and prompts, estimates
//! and their pricing, and failures.

use vstd::prelude::*;

use crate::bigquery::{
    dry_run_settled, estimated, field_json, record_json, EstimateOutcome, QueryResponse,
};
use crate::call::{failure_outcome, Call};
use crate::envelope::{
    classified, failure_list, law_estimate_envelope_slots, law_result_envelope_slots,
    optional_failure, optional_row_count, optional_rows,
};
use crate::execute::{dataset_slot, failed, stepped, Action, Event, Stage};
use crate::json::{
    json_views, lemma_member_push, optional_count, optional_str, Json, JsonView, NumberView,
};
use crate::laws::rows::{columns_of, page_of};
use crate::observe::Outcome;
use crate::outside::{sent_document, written_text};
use crate::plugin::BigQueryProfile;
use crate::surface::{prompt_body, resource_body, resource_uri, rows_text, surface_word, Surface};
use crate::table::{type_word, TableFieldMode, TableFieldSchema, TableFieldType};

verus! {

/// The documents are those of the first rows of the page, as many as the cap
/// allows.
pub open spec fn are_kept_rows(
    rows: Seq<JsonView>,
    response: QueryResponse,
    max_rows: nat,
) -> bool {
    &&& rows.len() <= max_rows
    &&& rows.len() <= page_of(response).len()
    &&& rows.len() == max_rows || rows.len() == page_of(response).len()
    &&& forall|i: int|
        0 <= i < rows.len() ==> #[trigger] rows[i] == record_json(
            columns_of(response),
            page_of(response)[i],
        )
}

/// The names of a resource body and of a prompt body differ from each other.
proof fn lemma_body_names()
    ensures
        "uri"@.len() == 3,
        "mimeType"@.len() == 8,
        "text"@.len() == 4,
        "type"@.len() == 4,
        "text"@[1] == 'e',
        "type"@[1] == 'y',
        "role"@.len() == 4,
        "content"@.len() == 7,
{
    reveal_strlit("uri");
    reveal_strlit("mimeType");
    reveal_strlit("text");
    reveal_strlit("type");
    reveal_strlit("role");
    reveal_strlit("content");
}

/// The body of a resource has one content. It names the resource and the type
/// of JSON, and its text is the JSON text of the array of all the rows.
pub proof fn law_resource_body_holds_all_rows(uri: Seq<char>, rows: Seq<JsonView>)
    ensures
        ({
            let contents = resource_body(uri, rows_text(rows)).at("contents"@);
            let content = contents->Array_0[0];
            &&& contents is Array
            &&& contents->Array_0.len() == 1
            &&& content.at("uri"@) == JsonView::Str(uri)
            &&& content.at("mimeType"@) == JsonView::Str("application/json"@)
            &&& content.at("text"@) == JsonView::Str(
                written_text(sent_document(JsonView::Array(rows))),
            )
            &&& content->Object_0.len() == 3
        }),
{
    broadcast use lemma_member_push;

    lemma_body_names();
}

/// The body of a prompt has one message, from the user. Its content is a text:
/// the JSON text of the array of all the rows.
pub proof fn law_prompt_body_holds_all_rows(rows: Seq<JsonView>)
    ensures
        ({
            let messages = prompt_body(rows_text(rows)).at("messages"@);
            let message = messages->Array_0[0];
            let content = message.at("content"@);
            &&& messages is Array
            &&& messages->Array_0.len() == 1
            &&& message.at("role"@) == JsonView::Str("user"@)
            &&& content.at("type"@) == JsonView::Str("text"@)
            &&& content.at("text"@) == JsonView::Str(
                written_text(sent_document(JsonView::Array(rows))),
            )
            &&& message->Object_0.len() == 2
            &&& content->Object_0.len() == 2
        }),
{
    broadcast use lemma_member_push;

    lemma_body_names();
    assert("text"@ != "type"@);
}

/// What a resource or prompt shows of the rows is an array with as many parts as
/// there are rows, each the row in its place as it is sent.
pub proof fn law_sent_rows_keep_their_places(rows: Seq<JsonView>)
    ensures
        sent_document(JsonView::Array(rows)) is Array,
        sent_document(JsonView::Array(rows))->Array_0.len() == rows.len(),
        forall|i: int|
            0 <= i < rows.len() ==> #[trigger] sent_document(JsonView::Array(rows))->Array_0[i]
                == sent_document(rows[i]),
{
}

/// The read of a resource is answered with the rows of the reply under the
/// binding's own URI, or else under the one among the arguments.
pub proof fn law_resource_answer_holds_the_rows(
    p: BigQueryProfile,
    call: Call,
    response: QueryResponse,
    elapsed_ms: u64,
    next: Stage,
    action: Action,
    rows: Seq<JsonView>,
    uri: Seq<char>,
)
    requires
        p.surface == Surface::Resource,
        response.job_complete,
        stepped(
            p,
            call,
            Stage::Running,
            Event::Replied(Ok(response)),
            elapsed_ms,
            next,
            action,
        ),
        are_kept_rows(rows, response, p.max_rows as nat),
        match p.surface_uri {
            Some(u) => uri == u@,
            None => call.arguments@.at("uri"@) == JsonView::Str(uri),
        },
    ensures
        next is Done,
        action is Answer,
        ({
            let answer = action->Answer_0;
            let contents = answer.body@.at("contents"@);
            let content = contents->Array_0[0];
            &&& answer.outcome == Outcome::Success
            &&& answer.reason is None
            &&& contents is Array
            &&& contents->Array_0.len() == 1
            &&& content.at("uri"@) == JsonView::Str(uri)
            &&& content.at("mimeType"@) == JsonView::Str("application/json"@)
            &&& content.at("text"@) == JsonView::Str(
                written_text(sent_document(JsonView::Array(rows))),
            )
        }),
{
    assert(rows =~= crate::bigquery::reply_documents(response, p.max_rows as nat));
    law_resource_body_holds_all_rows(uri, rows);
}

/// A prompt is answered with the rows of the reply.
pub proof fn law_prompt_answer_holds_the_rows(
    p: BigQueryProfile,
    call: Call,
    response: QueryResponse,
    elapsed_ms: u64,
    next: Stage,
    action: Action,
    rows: Seq<JsonView>,
)
    requires
        p.surface == Surface::Prompt,
        response.job_complete,
        stepped(
            p,
            call,
            Stage::Running,
            Event::Replied(Ok(response)),
            elapsed_ms,
            next,
            action,
        ),
        are_kept_rows(rows, response, p.max_rows as nat),
    ensures
        next is Done,
        action is Answer,
        ({
            let answer = action->Answer_0;
            let messages = answer.body@.at("messages"@);
            let message = messages->Array_0[0];
            &&& answer.outcome == Outcome::Success
            &&& answer.reason is None
            &&& messages is Array
            &&& messages->Array_0.len() == 1
            &&& message.at("role"@) == JsonView::Str("user"@)
            &&& message.at("content"@).at("type"@) == JsonView::Str("text"@)
            &&& message.at("content"@).at("text"@) == JsonView::Str(
                written_text(sent_document(JsonView::Array(rows))),
            )
        }),
{
    assert(rows =~= crate::bigquery::reply_documents(response, p.max_rows as nat));
    law_prompt_body_holds_all_rows(rows);
}

/// A read of a resource with a URI neither on the binding nor among the
/// arguments fails.
pub proof fn law_resource_read_needs_a_uri(
    p: BigQueryProfile,
    call: Call,
    response: QueryResponse,
    elapsed_ms: u64,
    next: Stage,
    action: Action,
)
    requires
        p.surface == Surface::Resource,
        p.surface_uri is None,
        !(call.arguments@.at("uri"@) is Str),
        response.job_complete,
        stepped(
            p,
            call,
            Stage::Running,
            Event::Replied(Ok(response)),
            elapsed_ms,
            next,
            action,
        ),
    ensures
        action matches Action::Answer(answer) && {
            &&& answer.outcome == Outcome::BigQueryError
            &&& answer.reason matches Some(reason) && reason@
                == "resource surface requires a `uri` (set a static `uri` on the binding or invoke via a resources/read request)"@
        },
{
}

/// The URI of a read is the binding's own where it has one, whatever the
/// arguments say; else the text under `uri` among the arguments, and nothing
/// where there is no such text.
pub proof fn law_own_uri_wins(own: Option<Seq<char>>, arguments: JsonView)
    ensures
        own matches Some(u) ==> resource_uri(own, arguments) == Some(u),
        own is None ==> (arguments.at("uri"@) matches JsonView::Str(u) ==> resource_uri(
            own,
            arguments,
        ) == Some(u)),
        own is None && !(arguments.at("uri"@) is Str) ==> resource_uri(own, arguments) is None,
{
}

/// The words for the surfaces.
pub proof fn law_surface_words(s: Surface)
    ensures
        s == Surface::Tool ==> surface_word(s) == "tool"@,
        s == Surface::Resource ==> surface_word(s) == "resource"@,
        s == Surface::Prompt ==> surface_word(s) == "prompt"@,
{
}

/// An estimate has the bytes that the reply reports, whatever else the reply
/// says, and none where it reports none or fewer than zero. It has the cache hit
/// that the reply reports, and one document for each column, in column order.
pub proof fn law_estimate_reports_the_reply(response: QueryResponse, e: EstimateOutcome)
    requires
        estimated(response, e),
    ensures
        response.total_bytes_processed matches Some(b) ==> (b >= 0 ==> e.total_bytes_processed
            == Some(b as u64)),
        response.total_bytes_processed matches Some(b) ==> (b < 0 ==> e.total_bytes_processed
            is None),
        response.total_bytes_processed is None ==> e.total_bytes_processed is None,
        response.cache_hit == Some(true) ==> e.cache_hit,
        response.cache_hit != Some(true) ==> !e.cache_hit,
        e.schema@.len() == columns_of(response).len(),
        forall|i: int|
            0 <= i < e.schema@.len() ==> (#[trigger] e.schema@[i])@ == field_json(
                columns_of(response)[i],
            ),
{
    assert(json_views(e.schema@).len() == e.schema@.len());
    assert forall|i: int| 0 <= i < e.schema@.len() implies (#[trigger] e.schema@[i])@ == field_json(
        columns_of(response)[i],
    ) by {
        assert(json_views(e.schema@)[i] == e.schema@[i]@);
    }
}

/// A dry run gives an estimate exactly where the call went through; what is said
/// of a failed one ends in its cause.
pub proof fn law_dry_run_estimates(
    reply: Result<QueryResponse, String>,
    r: Result<EstimateOutcome, String>,
)
    requires
        dry_run_settled(reply, r),
    ensures
        r is Ok <==> reply is Ok,
        reply matches Err(cause) ==> (r matches Err(m) && m@ == "BigQuery dry run failed: "@
            + cause@),
        reply matches Ok(response) ==> (r matches Ok(e) && (
        response.total_bytes_processed matches Some(b) ==> (b >= 0 ==> e.total_bytes_processed
            == Some(b as u64)))),
{
}

/// The document of a column has its name, its type and its mode, in that order.
pub proof fn law_column_document(column: TableFieldSchema)
    ensures
        field_json(column) is Object,
        field_json(column)->Object_0.len() == 3,
        field_json(column)->Object_0[0] == ("name"@, JsonView::Str(column.name@)),
        field_json(column)->Object_0[1] == ("type"@, JsonView::Str(type_word(column.data_type))),
        field_json(column)->Object_0[2].0 == "mode"@,
        field_json(column)->Object_0[2].1 == (if column.mode == Some(TableFieldMode::Required) {
            JsonView::Str("REQUIRED"@)
        } else if column.mode == Some(TableFieldMode::Repeated) {
            JsonView::Str("REPEATED"@)
        } else {
            JsonView::Str("NULLABLE"@)
        }),
{
}

/// The words for the types of columns.
pub proof fn law_type_words()
    ensures
        type_word(TableFieldType::String) == "STRING"@,
        type_word(TableFieldType::Bytes) == "BYTES"@,
        type_word(TableFieldType::Integer) == "INTEGER"@,
        type_word(TableFieldType::Int64) == "INT64"@,
        type_word(TableFieldType::Float) == "FLOAT"@,
        type_word(TableFieldType::Float64) == "FLOAT64"@,
        type_word(TableFieldType::Boolean) == "BOOLEAN"@,
        type_word(TableFieldType::Bool) == "BOOL"@,
        type_word(TableFieldType::Timestamp) == "TIMESTAMP"@,
        type_word(TableFieldType::Date) == "DATE"@,
        type_word(TableFieldType::Time) == "TIME"@,
        type_word(TableFieldType::Datetime) == "DATETIME"@,
        type_word(TableFieldType::Numeric) == "NUMERIC"@,
        type_word(TableFieldType::Decimal) == "DECIMAL"@,
        type_word(TableFieldType::Bignumeric) == "BIGNUMERIC"@,
        type_word(TableFieldType::Bigdecimal) == "BIGDECIMAL"@,
        type_word(TableFieldType::Interval) == "INTERVAL"@,
        type_word(TableFieldType::Json) == "JSON"@,
        type_word(TableFieldType::Record) == "RECORD"@,
        type_word(TableFieldType::Struct) == "STRUCT"@,
{
}

/// A planned statement is priced exactly where the reply reports bytes and the
/// binding has a price, and then for exactly those bytes at that price.
pub proof fn law_reported_bytes_are_priced(
    p: BigQueryProfile,
    call: Call,
    response: QueryResponse,
    elapsed_ms: u64,
    next: Stage,
    action: Action,
)
    requires
        stepped(
            p,
            call,
            Stage::Planning,
            Event::Replied(Ok(response)),
            elapsed_ms,
            next,
            action,
        ),
    ensures
        p.price_per_tib_usd matches Some(price) ==> (
        response.total_bytes_processed matches Some(b) ==> (b >= 0 ==> {
            &&& action == (Action::Price { bytes: b as u64, price_per_tib_usd: price })
            &&& next matches Stage::Pricing { estimate } && {
                &&& estimate.total_bytes_processed == Some(b as u64)
                &&& estimate.cache_hit == (response.cache_hit == Some(true))
                &&& estimate.schema@.len() == columns_of(response).len()
            }
        })),
        p.price_per_tib_usd is None || response.total_bytes_processed is None
            || response.total_bytes_processed->0 < 0 ==> action is Answer && next is Done,
{
    if let Stage::Pricing { estimate } = next {
        law_estimate_reports_the_reply(response, estimate);
    }
}

/// An estimate that is not priced is answered at once: with the bytes that the
/// reply reports, the cache hit, the columns in their order and the time taken,
/// and without a cost.
pub proof fn law_unpriced_estimate_answer(
    p: BigQueryProfile,
    call: Call,
    response: QueryResponse,
    elapsed_ms: u64,
    next: Stage,
    action: Action,
)
    requires
        stepped(
            p,
            call,
            Stage::Planning,
            Event::Replied(Ok(response)),
            elapsed_ms,
            next,
            action,
        ),
        p.price_per_tib_usd is None || response.total_bytes_processed is None
            || response.total_bytes_processed->0 < 0,
    ensures
        action is Answer,
        ({
            let answer = action->Answer_0;
            let estimate = answer.body@.at("estimate"@);
            let columns = estimate.at("schema"@)->Array_0;
            &&& answer.outcome == Outcome::Success
            &&& answer.reason is None
            &&& (response.total_bytes_processed matches Some(b) ==> (b >= 0 ==> estimate.at(
                "totalBytesProcessed"@,
            ) == JsonView::Number(NumberView::PosInt(b as u64))))
            &&& response.total_bytes_processed is None ==> estimate.at("totalBytesProcessed"@)
                is Null
            &&& (response.total_bytes_processed matches Some(b) ==> (b < 0 ==> estimate.at(
                "totalBytesProcessed"@,
            ) is Null))
            &&& !estimate.has("estimatedCostUsd"@)
            &&& estimate.at("cacheHit"@) == JsonView::Bool(response.cache_hit == Some(true))
            &&& estimate.at("schema"@) is Array
            &&& columns.len() == columns_of(response).len()
            &&& forall|i: int|
                0 <= i < columns.len() ==> #[trigger] columns[i] == field_json(
                    columns_of(response)[i],
                )
            &&& estimate.at("durationMs"@) == JsonView::Number(NumberView::PosInt(elapsed_ms))
        }),
{
    law_estimate_envelope_slots(
        call.tool_name@,
        call.backend_name@,
        p.project_id@,
        dataset_slot(p),
        crate::bigquery::reply_bytes(response),
        None,
        response.cache_hit == Some(true),
        crate::execute::planned_columns(response),
        elapsed_ms,
    );
}

/// A priced estimate is answered with the cost that was worked out, beside what
/// the estimate held before.
pub proof fn law_priced_estimate_answer(
    p: BigQueryProfile,
    call: Call,
    estimate: EstimateOutcome,
    cost: String,
    elapsed_ms: u64,
    next: Stage,
    action: Action,
)
    requires
        stepped(
            p,
            call,
            Stage::Pricing { estimate },
            Event::Priced(cost),
            elapsed_ms,
            next,
            action,
        ),
    ensures
        next is Done,
        action is Answer,
        ({
            let answer = action->Answer_0;
            let body = answer.body@;
            let slot = body.at("estimate"@);
            let columns = slot.at("schema"@)->Array_0;
            &&& answer.outcome == Outcome::Success
            &&& answer.reason is None
            &&& body.at("toolName"@) == JsonView::Str(call.tool_name@)
            &&& body.at("profile"@) == JsonView::Str(call.backend_name@)
            &&& body.at("request"@).at("project"@) == JsonView::Str(p.project_id@)
            &&& body.at("request"@).at("dataset"@) == (match p.dataset {
                Some(d) => JsonView::Str(d@),
                None => JsonView::Null,
            })
            &&& body.at("request"@).at("dryRun"@) == JsonView::Bool(true)
            &&& slot.get("estimatedCostUsd"@) == Some(
                JsonView::Number(NumberView::Float(cost@)),
            )
            &&& (estimate.total_bytes_processed matches Some(b) ==> slot.at("totalBytesProcessed"@)
                == JsonView::Number(NumberView::PosInt(b)))
            &&& slot.at("cacheHit"@) == JsonView::Bool(estimate.cache_hit)
            &&& slot.at("schema"@) is Array
            &&& columns.len() == estimate.schema@.len()
            &&& forall|i: int|
                0 <= i < columns.len() ==> #[trigger] columns[i] == estimate.schema@[i]@
            &&& slot.at("durationMs"@) == JsonView::Number(NumberView::PosInt(elapsed_ms))
        }),
{
    law_estimate_envelope_slots(
        call.tool_name@,
        call.backend_name@,
        p.project_id@,
        dataset_slot(p),
        estimate.total_bytes_processed,
        Some(cost@),
        estimate.cache_hit,
        json_views(estimate.schema@),
        elapsed_ms,
    );
}

/// A failed call is answered with an envelope that keeps who was called, holds
/// no response, and says what went wrong in each of its failure slots.
pub proof fn law_failed_answer_slots(
    p: BigQueryProfile,
    call: Call,
    message: Seq<char>,
    outcome: Outcome,
    next: Stage,
    action: Action,
)
    requires
        failed(p, call, message, outcome, next, action),
    ensures
        next is Done,
        action is Answer,
        ({
            let answer = action->Answer_0;
            let body = answer.body@;
            let failure = body.at("downstreamError"@);
            &&& answer.outcome == outcome
            &&& answer.reason matches Some(reason) && reason@ == message
            &&& body.at("toolName"@) == JsonView::Str(call.tool_name@)
            &&& body.at("profile"@) == JsonView::Str(call.backend_name@)
            &&& body.at("request"@).at("project"@) == JsonView::Str(p.project_id@)
            &&& body.at("request"@).at("dataset"@) == (match p.dataset {
                Some(d) => JsonView::Str(d@),
                None => JsonView::Null,
            })
            &&& body.at("response"@) is Null
            &&& body.at("truncated"@) == JsonView::Bool(false)
            &&& body.at("error"@) == JsonView::Str(message)
            &&& body.at("downstreamErrors"@) == JsonView::Array(seq![failure])
            &&& failure == classified(message)
        }),
{
    law_result_envelope_slots(
        call.tool_name@,
        call.backend_name@,
        p.project_id@,
        dataset_slot(p),
        JsonView::Null,
        false,
        classified(message),
        JsonView::Array(seq![classified(message)]),
        JsonView::Str(message),
    );
}

/// What went wrong at each stage is what the call is answered with: a refusal of
/// the guard and a failed connection by their own words, a failed query or dry
/// run by its cause, and a reply that did not come in time as a timeout.
pub proof fn law_failures_say_what_went_wrong(
    p: BigQueryProfile,
    call: Call,
    stage: Stage,
    event: Event,
    elapsed_ms: u64,
    next: Stage,
    action: Action,
)
    requires
        stepped(p, call, stage, event, elapsed_ms, next, action),
    ensures
        stage is Guarding ==> (event matches Event::Guarded(Err(m)) ==> failed(
            p,
            call,
            m@,
            Outcome::BigQueryError,
            next,
            action,
        )),
        stage is Connecting ==> (event matches Event::Connected(Err(m)) ==> failed(
            p,
            call,
            m@,
            Outcome::BigQueryError,
            next,
            action,
        )),
        stage is Binding ==> (event matches Event::Evaluated(Err(m)) ==> failed(
            p,
            call,
            "evaluating params: "@ + m@,
            Outcome::InvalidSpec,
            next,
            action,
        )),
        stage is Running ==> (event matches Event::Replied(Err(m)) ==> failed(
            p,
            call,
            "BigQuery query failed: "@ + m@,
            failure_outcome("BigQuery query failed: "@ + m@),
            next,
            action,
        )),
        stage is Running && event is TimedOut ==> failed(
            p,
            call,
            "BigQuery call timed out"@,
            failure_outcome("BigQuery call timed out"@),
            next,
            action,
        ),
        stage is Running ==> (event matches Event::Replied(Ok(response)) ==> (
        !response.job_complete ==> failed(
            p,
            call,
            "BigQuery query timed out: job did not complete"@,
            failure_outcome("BigQuery query timed out: job did not complete"@),
            next,
            action,
        ))),
        stage is Planning ==> (event matches Event::Replied(Err(m)) ==> failed(
            p,
            call,
            "BigQuery dry run failed: "@ + m@,
            failure_outcome("BigQuery dry run failed: "@ + m@),
            next,
            action,
        )),
        stage is Planning && event is TimedOut ==> failed(
            p,
            call,
            "BigQuery dry run timed out"@,
            failure_outcome("BigQuery dry run timed out"@),
            next,
            action,
        ),
{
}

/// The guard's consent leads to a client with the parameters as they were, and a
/// client leads to the run or, on a dry-run binding, to the plan.
pub proof fn law_consent_leads_on(
    p: BigQueryProfile,
    call: Call,
    stage: Stage,
    event: Event,
    elapsed_ms: u64,
    next: Stage,
    action: Action,
)
    requires
        stepped(p, call, stage, event, elapsed_ms, next, action),
    ensures
        stage matches Stage::Guarding { parameters } ==> (event matches Event::Guarded(Ok(())) ==> {
            &&& action is Connect
            &&& next matches Stage::Connecting { parameters: kept } && kept@ == parameters@
        }),
        stage matches Stage::Connecting { parameters } ==> (event matches Event::Connected(Ok(()))
            ==> match action {
            Action::Run(request) => !p.dry_run && next is Running && request.query_parameters@
                == parameters@,
            Action::Plan(request) => p.dry_run && next is Planning && request.query_parameters@
                == parameters@,
            _ => false,
        }),
{
}

/// What an envelope is built from stands in it as it is: the rows in their
/// places, their number and the failure, each null where there is none; and the
/// list of failures has the one there is, or none.
pub proof fn law_envelope_parts(
    rows: Option<&[Json]>,
    count: Option<usize>,
    failure: Option<&Json>,
    text: Option<&str>,
    bytes: Option<u64>,
)
    ensures
        rows is None ==> optional_rows(rows) is Null,
        rows matches Some(rs) ==> (optional_rows(rows) matches JsonView::Array(xs) && xs.len()
            == rs@.len() && forall|i: int|
            0 <= i < xs.len() ==> #[trigger] xs[i] == rs@[i]@),
        count is None ==> optional_row_count(count) is Null,
        count matches Some(n) ==> optional_row_count(count) == JsonView::Number(
            NumberView::PosInt(n as u64),
        ),
        failure is None ==> optional_failure(failure) is Null && failure_list(failure)
            == JsonView::Array(Seq::empty()),
        failure matches Some(f) ==> optional_failure(failure) == f@ && failure_list(failure)
            == JsonView::Array(seq![f@]),
        text is None ==> optional_str(text) is Null,
        text matches Some(t) ==> optional_str(text) == JsonView::Str(t@),
        bytes is None ==> optional_count(bytes) is Null,
        bytes matches Some(b) ==> optional_count(bytes) == JsonView::Number(NumberView::PosInt(b)),
{
}

} // verus!
