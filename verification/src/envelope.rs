//! The structured envelope that a call answers with. A `downstreamError` that
//! is not null is the gateway's `isError` signal.

use vstd::prelude::*;

use crate::json::{
    copied, distinct_names, json_views, lemma_member_push, no_members, optional_count, optional_str, Json,
    JsonObject, JsonView, Number, NumberView,
};
use crate::outside::{
    all_settled, finite_double, lemma_settled_array, lemma_settled_empty, lemma_settled_push,
    numbers_settled,
};
use crate::text::{
    any_occurs_in, ascii_lower, chars_of, contains_any, is_at, lower_chars, needle_views,
    occurs_at, occurs_in, some_chars,
};

verus! {

/// The document for the envelope's `downstreamError` slot.
pub open spec fn downstream_error(kind: Seq<char>, message: Seq<char>, retryable: bool) -> JsonView {
    JsonView::Object(
        no_members().push(("kind"@, JsonView::Str(kind))).push(
            ("code"@, JsonView::Str("mcpg.downstream_bigquery."@ + kind)),
        ).push(("message"@, JsonView::Str(message))).push(
            ("retryable"@, JsonView::Bool(retryable)),
        ).push(
            (
                "retryClass"@,
                JsonView::Str(
                    if retryable {
                        "with_backoff"@
                    } else {
                        "do_not_retry"@
                    },
                ),
            ),
        ).push(
            (
                "suggestedAction"@,
                JsonView::Str(
                    if retryable {
                        "check_bigquery_connectivity_and_retry"@
                    } else {
                        "inspect_sql_error"@
                    },
                ),
            ),
        ),
    )
}

/// Build a document for the envelope's `downstreamError` slot.
pub fn bigquery_downstream_error(kind: &str, message: &str, retryable: bool) -> (r: Json)
    ensures
        r@ == downstream_error(kind@, message@, retryable),
        numbers_settled(r@),
{
    broadcast use {lemma_settled_push, lemma_settled_empty};

    let mut code = "mcpg.downstream_bigquery.".to_owned();
    code.append(kind);
    JsonObject::new().with("kind", Json::text(kind)).with("code", Json::String(code)).with(
        "message",
        Json::text(message),
    ).with("retryable", Json::Bool(retryable)).with(
        "retryClass",
        if retryable {
            Json::text("with_backoff")
        } else {
            Json::text("do_not_retry")
        },
    ).with(
        "suggestedAction",
        if retryable {
            Json::text("check_bigquery_connectivity_and_retry")
        } else {
            Json::text("inspect_sql_error")
        },
    ).build()
}

/// What marks a failure as the caller's or the configuration's: SQL, auth,
/// permission, cost cap, read-only guard.
pub open spec fn rejection_markers() -> Seq<Seq<char>> {
    seq![
        "syntax"@,
        "invalid query"@,
        "not found"@,
        "does not exist"@,
        "unrecognized name"@,
        "authentication"@,
        "auth "@,
        "invalid_grant"@,
        "credential"@,
        "unauthorized"@,
        "permission"@,
        "access denied"@,
        "forbidden"@,
        "maximum_bytes_billed"@,
        "bytesbilledlimitexceeded"@,
        "bytes billed"@,
        "read-only guard"@,
    ]
}

/// What marks a failure as one of the transport: connection, timeout, rate
/// limit, server error.
pub open spec fn transport_markers() -> Seq<Seq<char>> {
    seq![
        "connect"@,
        "timed out"@,
        "timeout"@,
        "broken pipe"@,
        "connection reset"@,
        "eof"@,
        "dns"@,
        "429"@,
        "too many requests"@,
        "rate limit"@,
        "ratelimitexceeded"@,
        "backenderror"@,
        "500"@,
        "502"@,
        "503"@,
        "504"@,
        "service unavailable"@,
    ]
}

/// A decimal digit.
pub open spec fn is_digit(c: char) -> bool {
    '0' <= c <= '9'
}

/// A server error code stands at position `i`: a `5` and two more digits, with
/// no digit before or behind them.
pub open spec fn server_error_at(s: Seq<char>, i: int) -> bool {
    &&& 0 <= i
    &&& i + 2 < s.len()
    &&& s[i] == '5'
    &&& is_digit(s[i + 1])
    &&& is_digit(s[i + 2])
    &&& i == 0 || !is_digit(s[i - 1])
    &&& i + 3 == s.len() || !is_digit(s[i + 3])
}

/// What stands right before a code that is given as a status.
pub open spec fn status_leads() -> Seq<Seq<char>> {
    seq![
        "code: "@,
        "status code "@,
        "status: "@,
        "status "@,
        "http "@,
        "http status server error ("@,
    ]
}

/// What stands at position `i` is given as a status.
pub open spec fn given_as_status(s: Seq<char>, i: int) -> bool {
    exists|k: int|
        0 <= k < status_leads().len() && occurs_at(
            s,
            #[trigger] status_leads()[k],
            i - status_leads()[k].len(),
        )
}

/// The text gives a server error code, 500 to 599, as a status. A number that
/// stands anywhere else is a position, a count or a value.
pub open spec fn names_server_error(s: Seq<char>) -> bool {
    exists|i: int| #[trigger] server_error_at(s, i) && given_as_status(s, i)
}

/// A failure is retryable where its message carries a transport marker or gives
/// a server error code as a status, and carries no rejection marker, whatever the ASCII case.
pub open spec fn is_retryable(message: Seq<char>) -> bool {
    &&& !any_occurs_in(ascii_lower(message), rejection_markers())
    &&& any_occurs_in(ascii_lower(message), transport_markers()) || names_server_error(
        ascii_lower(message),
    )
}

/// The kind of a failure.
pub open spec fn failure_kind(message: Seq<char>) -> Seq<char> {
    if is_retryable(message) {
        "transport_error"@
    } else {
        "bigquery_error"@
    }
}

/// The `downstreamError` document of a failure.
pub open spec fn classified(message: Seq<char>) -> JsonView {
    downstream_error(failure_kind(message), message, is_retryable(message))
}

/// Whether the character is a decimal digit.
fn digit(c: char) -> (r: bool)
    ensures
        r == is_digit(c),
{
    '0' <= c && c <= '9'
}

/// Whether what stands at `i` is given as a status.
fn follows_status_lead(s: &Vec<char>, i: usize) -> (r: bool)
    ensures
        r == given_as_status(s@, i as int),
{
    let leads: Vec<&str> = vec![
        "code: ",
        "status code ",
        "status: ",
        "status ",
        "http ",
        "http status server error (",
    ];
    assert(needle_views(leads@) =~= status_leads());
    let mut k: usize = 0;
    while k < leads.len()
        invariant
            k <= leads.len(),
            needle_views(leads@) == status_leads(),
            forall|j: int|
                0 <= j < k ==> !occurs_at(
                    s@,
                    #[trigger] status_leads()[j],
                    i - status_leads()[j].len(),
                ),
        decreases leads.len() - k,
    {
        assert(status_leads()[k as int] == leads@[k as int]@);
        let lead = chars_of(leads[k]);
        if lead.len() <= i && is_at(s, &lead, i - lead.len()) {
            return true;
        }
        k = k + 1;
    }
    false
}

/// Whether the text gives a server error code as a status.
fn server_error(s: &Vec<char>) -> (r: bool)
    ensures
        r == names_server_error(s@),
{
    let mut i: usize = 0;
    while i < s.len()
        invariant
            i <= s.len(),
            forall|j: int|
                0 <= j < i ==> !(#[trigger] server_error_at(s@, j) && given_as_status(s@, j)),
        decreases s.len() - i,
    {
        if s.len() - i > 2 && s[i] == '5' && digit(s[i + 1]) && digit(s[i + 2]) && (i == 0
            || !digit(s[i - 1])) && (s.len() - i == 3 || !digit(s[i + 3])) {
            assert(server_error_at(s@, i as int));
            if follows_status_lead(s, i) {
                return true;
            }
        }
        i = i + 1;
    }
    false
}

/// Whether a failure is worth a retry.
pub fn retryable_failure(message: &str) -> (r: bool)
    ensures
        r == is_retryable(message@),
{
    let lower = lower_chars(message);
    let rejections: Vec<&str> = vec![
        "syntax",
        "invalid query",
        "not found",
        "does not exist",
        "unrecognized name",
        "authentication",
        "auth ",
        "invalid_grant",
        "credential",
        "unauthorized",
        "permission",
        "access denied",
        "forbidden",
        "maximum_bytes_billed",
        "bytesbilledlimitexceeded",
        "bytes billed",
        "read-only guard",
    ];
    let transports: Vec<&str> = vec![
        "connect",
        "timed out",
        "timeout",
        "broken pipe",
        "connection reset",
        "eof",
        "dns",
        "429",
        "too many requests",
        "rate limit",
        "ratelimitexceeded",
        "backenderror",
        "500",
        "502",
        "503",
        "504",
        "service unavailable",
    ];
    assert(needle_views(rejections@) =~= rejection_markers());
    assert(needle_views(transports@) =~= transport_markers());
    // A rejection wins: a syntax error that happens to say "timeout" is still
    // a rejected query.
    !contains_any(&lower, &rejections) && (contains_any(&lower, &transports) || server_error(
        &lower,
    ))
}

/// Classify a failure by its message.
pub fn classify_error(message: &str) -> (r: Json)
    ensures
        r@ == classified(message@),
        numbers_settled(r@),
{
    let retryable = retryable_failure(message);
    let kind = if retryable {
        "transport_error"
    } else {
        "bigquery_error"
    };
    bigquery_downstream_error(kind, message, retryable)
}

/// `{"type": word}`.
pub open spec fn typed(word: Seq<char>) -> JsonView {
    JsonView::Object(no_members().push(("type"@, JsonView::Str(word))))
}

/// `{"type": [word, "null"]}`.
pub open spec fn nullable(word: Seq<char>) -> JsonView {
    JsonView::Object(no_members().push(("type"@, word_or_null(word))))
}

/// `[word, "null"]`.
pub open spec fn word_or_null(word: Seq<char>) -> JsonView {
    JsonView::Array(seq![JsonView::Str(word), JsonView::Str("null"@)])
}

/// `{"type": "array", "items": {}}`.
pub open spec fn any_array() -> JsonView {
    JsonView::Object(
        no_members().push(("type"@, JsonView::Str("array"@))).push(
            ("items"@, JsonView::Object(no_members())),
        ),
    )
}

/// `{"type": ["array", "null"], "items": {}}`.
pub open spec fn any_array_or_null() -> JsonView {
    JsonView::Object(
        no_members().push(("type"@, word_or_null("array"@))).push(
            ("items"@, JsonView::Object(no_members())),
        ),
    )
}

/// An open object schema: `{"type", "properties", "additionalProperties": true}`.
pub open spec fn open_object(kind: JsonView, properties: Seq<(Seq<char>, JsonView)>) -> JsonView {
    JsonView::Object(
        no_members().push(("type"@, kind)).push(("properties"@, JsonView::Object(properties))).push(
            ("additionalProperties"@, JsonView::Bool(true)),
        ),
    )
}

/// The schema of a whole envelope.
pub open spec fn envelope_schema(properties: Seq<(Seq<char>, JsonView)>) -> JsonView {
    JsonView::Object(
        no_members().push(
            ("$schema"@, JsonView::Str("https://json-schema.org/draft/2020-12/schema"@)),
        ).push(("type"@, JsonView::Str("object"@))).push(
            ("properties"@, JsonView::Object(properties)),
        ).push(("additionalProperties"@, JsonView::Bool(true))),
    )
}

fn typed_schema(word: &str) -> (r: Json)
    ensures
        r@ == typed(word@),
{
    JsonObject::new().with("type", Json::text(word)).build()
}

fn word_or_null_json(word: &str) -> (r: Json)
    ensures
        r@ == word_or_null(word@),
{
    let mut words: Vec<Json> = Vec::new();
    words.push(Json::text(word));
    words.push(Json::text("null"));
    assert(json_views(words@) =~= seq![JsonView::Str(word@), JsonView::Str("null"@)]);
    Json::array(words)
}

fn nullable_schema(word: &str) -> (r: Json)
    ensures
        r@ == nullable(word@),
{
    JsonObject::new().with("type", word_or_null_json(word)).build()
}

fn any_array_schema() -> (r: Json)
    ensures
        r@ == any_array(),
{
    JsonObject::new().with("type", Json::text("array")).with("items", JsonObject::new().build()).build()
}

fn any_array_or_null_schema() -> (r: Json)
    ensures
        r@ == any_array_or_null(),
{
    JsonObject::new().with("type", word_or_null_json("array")).with(
        "items",
        JsonObject::new().build(),
    ).build()
}

/// An open object schema over the given properties.
pub fn open_object_schema(kind: Json, properties: JsonObject) -> (r: Json)
    ensures
        r@ == open_object(kind@, properties@),
{
    JsonObject::new().with("type", kind).with("properties", properties.build()).with(
        "additionalProperties",
        Json::Bool(true),
    ).build()
}

fn whole_schema(properties: JsonObject) -> (r: Json)
    ensures
        r@ == envelope_schema(properties@),
{
    JsonObject::new().with(
        "$schema",
        Json::text("https://json-schema.org/draft/2020-12/schema"),
    ).with("type", Json::text("object")).with("properties", properties.build()).with(
        "additionalProperties",
        Json::Bool(true),
    ).build()
}

/// The properties of the row envelope.
pub open spec fn result_properties() -> Seq<(Seq<char>, JsonView)> {
    no_members().push(("toolName"@, typed("string"@))).push(("profile"@, typed("string"@))).push(
        (
            "request"@,
            open_object(
                JsonView::Str("object"@),
                no_members().push(("project"@, typed("string"@))).push(
                    ("dataset"@, nullable("string"@)),
                ),
            ),
        ),
    ).push(
        (
            "response"@,
            open_object(
                word_or_null("object"@),
                no_members().push(("rows"@, any_array_or_null())).push(
                    ("count"@, nullable("integer"@)),
                ).push(("truncated"@, typed("boolean"@))).push(("durationMs"@, typed("integer"@))),
            ),
        ),
    ).push(("truncated"@, typed("boolean"@))).push(("downstreamError"@, nullable("object"@))).push(
        ("downstreamErrors"@, any_array()),
    ).push(("error"@, nullable("string"@)))
}

/// JSON Schema (draft 2020-12) of the row envelope. The rows themselves stay
/// untyped, so that any row validates.
pub fn result_envelope_schema() -> (r: Json)
    ensures
        r@ == envelope_schema(result_properties()),
{
    let request = open_object_schema(
        Json::text("object"),
        JsonObject::new().with("project", typed_schema("string")).with(
            "dataset",
            nullable_schema("string"),
        ),
    );
    let response = open_object_schema(
        word_or_null_json("object"),
        JsonObject::new().with("rows", any_array_or_null_schema()).with(
            "count",
            nullable_schema("integer"),
        ).with("truncated", typed_schema("boolean")).with("durationMs", typed_schema("integer")),
    );
    whole_schema(
        JsonObject::new().with("toolName", typed_schema("string")).with(
            "profile",
            typed_schema("string"),
        ).with("request", request).with("response", response).with(
            "truncated",
            typed_schema("boolean"),
        ).with("downstreamError", nullable_schema("object")).with(
            "downstreamErrors",
            any_array_schema(),
        ).with("error", nullable_schema("string")),
    )
}

/// The rows of an envelope, or null.
pub open spec fn optional_rows(rows: Option<&[Json]>) -> JsonView {
    match rows {
        Some(rs) => JsonView::Array(json_views(rs@)),
        None => JsonView::Null,
    }
}

/// The row count of an envelope, or null.
pub open spec fn optional_row_count(n: Option<usize>) -> JsonView {
    match n {
        Some(v) => JsonView::Number(NumberView::PosInt(v as u64)),
        None => JsonView::Null,
    }
}

/// The failure in an envelope, or null.
pub open spec fn optional_failure(failure: Option<&Json>) -> JsonView {
    match failure {
        Some(f) => f@,
        None => JsonView::Null,
    }
}

/// The failures in an envelope: the one there is, or none.
pub open spec fn failure_list(failure: Option<&Json>) -> JsonView {
    match failure {
        Some(f) => JsonView::Array(seq![f@]),
        None => JsonView::Array(Seq::empty()),
    }
}

/// The `response` slot: null beside a failure, else the rows.
pub open spec fn response_slot(
    rows: JsonView,
    count: JsonView,
    truncated: bool,
    duration_ms: u64,
    failed: bool,
) -> JsonView {
    if failed {
        JsonView::Null
    } else {
        JsonView::Object(
            no_members().push(("rows"@, rows)).push(("count"@, count)).push(
                ("truncated"@, JsonView::Bool(truncated)),
            ).push(("durationMs"@, JsonView::Number(NumberView::PosInt(duration_ms)))),
        )
    }
}

/// The row envelope.
pub open spec fn result_envelope(
    tool_name: Seq<char>,
    profile_name: Seq<char>,
    project_id: Seq<char>,
    dataset: JsonView,
    response: JsonView,
    truncated: bool,
    failure: JsonView,
    failures: JsonView,
    error: JsonView,
) -> JsonView {
    JsonView::Object(
        no_members().push(("toolName"@, JsonView::Str(tool_name))).push(
            ("profile"@, JsonView::Str(profile_name)),
        ).push(
            (
                "request"@,
                JsonView::Object(
                    no_members().push(("project"@, JsonView::Str(project_id))).push(
                        ("dataset"@, dataset),
                    ),
                ),
            ),
        ).push(("response"@, response)).push(("truncated"@, JsonView::Bool(truncated))).push(
            ("downstreamError"@, failure),
        ).push(("downstreamErrors"@, failures)).push(("error"@, error)),
    )
}

/// Build the row envelope of a call.
pub fn build_result_envelope(
    tool_name: &str,
    profile_name: &str,
    project_id: &str,
    dataset: Option<&str>,
    rows: Option<&[Json]>,
    row_count: Option<usize>,
    truncated: bool,
    duration_ms: u128,
    downstream_error: Option<&Json>,
    error: Option<&str>,
) -> (r: Json)
    requires
        duration_ms <= u64::MAX,
    ensures
        r@ == result_envelope(
            tool_name@,
            profile_name@,
            project_id@,
            optional_str(dataset),
            response_slot(
                optional_rows(rows),
                optional_row_count(row_count),
                truncated,
                duration_ms as u64,
                downstream_error is Some,
            ),
            truncated,
            optional_failure(downstream_error),
            failure_list(downstream_error),
            optional_str(error),
        ),
        (rows matches Some(rs) ==> all_settled(rs@)) && (downstream_error matches Some(f)
            ==> numbers_settled(f@)) ==> numbers_settled(r@),
{
    broadcast use {lemma_settled_push, lemma_settled_empty};

    proof {
        if let Some(rs) = rows {
            if all_settled(rs@) {
                lemma_settled_array(rs@);
            }
        }
    }
    let response = if downstream_error.is_some() {
        Json::Null
    } else {
        let rows_json = match rows {
            Some(rs) => Json::array(copied(rs)),
            None => Json::Null,
        };
        let count_json = match row_count {
            Some(n) => Json::unsigned(n as u64),
            None => Json::Null,
        };
        JsonObject::new().with("rows", rows_json).with("count", count_json).with(
            "truncated",
            Json::Bool(truncated),
        ).with("durationMs", Json::unsigned(duration_ms as u64)).build()
    };
    let mut failures: Vec<Json> = Vec::new();
    let failure = match downstream_error {
        Some(f) => {
            failures.push(f.copy());
            f.copy()
        },
        None => Json::Null,
    };
    assert(JsonView::Array(json_views(failures@)) == failure_list(downstream_error)) by {
        match downstream_error {
            Some(f) => {
                assert(json_views(failures@) =~= seq![f@]);
            },
            None => {
                assert(json_views(failures@) =~= Seq::<JsonView>::empty());
            },
        }
    }
    let request = JsonObject::new().with("project", Json::text(project_id)).with(
        "dataset",
        Json::optional_text(dataset),
    ).build();
    JsonObject::new().with("toolName", Json::text(tool_name)).with(
        "profile",
        Json::text(profile_name),
    ).with("request", request).with("response", response).with(
        "truncated",
        Json::Bool(truncated),
    ).with("downstreamError", failure).with("downstreamErrors", Json::array(failures)).with(
        "error",
        Json::optional_text(error),
    ).build()
}

/// The properties of the estimate envelope.
pub open spec fn estimate_properties() -> Seq<(Seq<char>, JsonView)> {
    no_members().push(("toolName"@, typed("string"@))).push(("profile"@, typed("string"@))).push(
        (
            "request"@,
            open_object(
                JsonView::Str("object"@),
                no_members().push(("project"@, typed("string"@))).push(
                    ("dataset"@, nullable("string"@)),
                ).push(("dryRun"@, typed("boolean"@))),
            ),
        ),
    ).push(
        (
            "estimate"@,
            open_object(
                word_or_null("object"@),
                no_members().push(("totalBytesProcessed"@, nullable("integer"@))).push(
                    ("estimatedCostUsd"@, nullable("number"@)),
                ).push(("cacheHit"@, typed("boolean"@))).push(("schema"@, any_array())).push(
                    ("durationMs"@, typed("integer"@)),
                ),
            ),
        ),
    ).push(("truncated"@, typed("boolean"@))).push(("downstreamError"@, nullable("object"@))).push(
        ("downstreamErrors"@, any_array()),
    ).push(("error"@, nullable("string"@)))
}

/// JSON Schema (draft 2020-12) of the estimate envelope: bytes, cache hit,
/// columns and cost, and no rows.
pub fn estimate_envelope_schema() -> (r: Json)
    ensures
        r@ == envelope_schema(estimate_properties()),
{
    let request = open_object_schema(
        Json::text("object"),
        JsonObject::new().with("project", typed_schema("string")).with(
            "dataset",
            nullable_schema("string"),
        ).with("dryRun", typed_schema("boolean")),
    );
    let estimate = open_object_schema(
        word_or_null_json("object"),
        JsonObject::new().with("totalBytesProcessed", nullable_schema("integer")).with(
            "estimatedCostUsd",
            nullable_schema("number"),
        ).with("cacheHit", typed_schema("boolean")).with("schema", any_array_schema()).with(
            "durationMs",
            typed_schema("integer"),
        ),
    );
    whole_schema(
        JsonObject::new().with("toolName", typed_schema("string")).with(
            "profile",
            typed_schema("string"),
        ).with("request", request).with("estimate", estimate).with(
            "truncated",
            typed_schema("boolean"),
        ).with("downstreamError", nullable_schema("object")).with(
            "downstreamErrors",
            any_array_schema(),
        ).with("error", nullable_schema("string")),
    )
}

/// The `estimate` slot. The cost is there only where one was derived.
pub open spec fn estimate_slot(
    bytes: Option<u64>,
    cost: Option<Seq<char>>,
    cache_hit: bool,
    schema: Seq<JsonView>,
    duration_ms: u64,
) -> Seq<(Seq<char>, JsonView)> {
    let sized = no_members().push(("totalBytesProcessed"@, optional_count(bytes)));
    let priced = match cost {
        Some(text) => sized.push(
            ("estimatedCostUsd"@, JsonView::Number(NumberView::Float(text))),
        ),
        None => sized,
    };
    priced.push(("cacheHit"@, JsonView::Bool(cache_hit))).push(
        ("schema"@, JsonView::Array(schema)),
    ).push(("durationMs"@, JsonView::Number(NumberView::PosInt(duration_ms))))
}

/// The estimate envelope.
pub open spec fn estimate_envelope(
    tool_name: Seq<char>,
    profile_name: Seq<char>,
    project_id: Seq<char>,
    dataset: JsonView,
    estimate: Seq<(Seq<char>, JsonView)>,
) -> JsonView {
    JsonView::Object(
        no_members().push(("toolName"@, JsonView::Str(tool_name))).push(
            ("profile"@, JsonView::Str(profile_name)),
        ).push(
            (
                "request"@,
                JsonView::Object(
                    no_members().push(("project"@, JsonView::Str(project_id))).push(
                        ("dataset"@, dataset),
                    ).push(("dryRun"@, JsonView::Bool(true))),
                ),
            ),
        ).push(("estimate"@, JsonView::Object(estimate))).push(
            ("truncated"@, JsonView::Bool(false)),
        ).push(("downstreamError"@, JsonView::Null)).push(
            ("downstreamErrors"@, JsonView::Array(Seq::empty())),
        ).push(("error"@, JsonView::Null)),
    )
}

/// Build the estimate envelope of a dry run. `estimated_cost_usd` holds the
/// derived cost as a decimal text.
pub fn build_estimate_envelope(
    tool_name: &str,
    profile_name: &str,
    project_id: &str,
    dataset: Option<&str>,
    total_bytes_processed: Option<u64>,
    estimated_cost_usd: Option<&str>,
    cache_hit: bool,
    schema: &[Json],
    duration_ms: u128,
) -> (r: Json)
    requires
        duration_ms <= u64::MAX,
    ensures
        r@ == estimate_envelope(
            tool_name@,
            profile_name@,
            project_id@,
            optional_str(dataset),
            estimate_slot(
                total_bytes_processed,
                some_chars(estimated_cost_usd),
                cache_hit,
                json_views(schema@),
                duration_ms as u64,
            ),
        ),
        all_settled(schema@) && (estimated_cost_usd matches Some(cost) ==> finite_double(cost@)
            == Some(cost@)) ==> numbers_settled(r@),
{
    broadcast use {lemma_settled_push, lemma_settled_empty};

    proof {
        if all_settled(schema@) {
            lemma_settled_array(schema@);
        }
    }
    let request = JsonObject::new().with("project", Json::text(project_id)).with(
        "dataset",
        Json::optional_text(dataset),
    ).with("dryRun", Json::Bool(true)).build();
    let sized = JsonObject::new().with(
        "totalBytesProcessed",
        Json::optional_unsigned(total_bytes_processed),
    );
    let priced = match estimated_cost_usd {
        Some(text) => sized.with("estimatedCostUsd", Json::Number(Number::Float(text.to_owned()))),
        None => sized,
    };
    let estimate = priced.with("cacheHit", Json::Bool(cache_hit)).with(
        "schema",
        Json::array(copied(schema)),
    ).with("durationMs", Json::unsigned(duration_ms as u64)).build();
    let none: Vec<Json> = Vec::new();
    assert(json_views(none@) =~= Seq::<JsonView>::empty());
    JsonObject::new().with("toolName", Json::text(tool_name)).with(
        "profile",
        Json::text(profile_name),
    ).with("request", request).with("estimate", estimate).with("truncated", Json::Bool(false)).with(
        "downstreamError",
        Json::Null,
    ).with("downstreamErrors", Json::array(none)).with("error", Json::Null).build()
}

/// The names in the envelopes are different texts.
proof fn lemma_envelope_names()
    ensures
        "toolName"@.len() == 8,
        "profile"@.len() == 7,
        "request"@.len() == 7,
        "response"@.len() == 8,
        "estimate"@.len() == 8,
        "truncated"@.len() == 9,
        "downstreamError"@.len() == 15,
        "downstreamErrors"@.len() == 16,
        "error"@.len() == 5,
        "toolName"@[0] == 't',
        "profile"@[0] == 'p',
        "request"@[0] == 'r',
        "response"@[0] == 'r',
        "estimate"@[0] == 'e',
{
    reveal_strlit("toolName");
    reveal_strlit("profile");
    reveal_strlit("request");
    reveal_strlit("response");
    reveal_strlit("estimate");
    reveal_strlit("truncated");
    reveal_strlit("downstreamError");
    reveal_strlit("downstreamErrors");
    reveal_strlit("error");
}

/// The names in the slots of the envelopes are different texts.
proof fn lemma_slot_names()
    ensures
        "project"@.len() == 7,
        "dataset"@.len() == 7,
        "project"@[0] == 'p',
        "dataset"@[0] == 'd',
        "dryRun"@.len() == 6,
        "rows"@.len() == 4,
        "count"@.len() == 5,
        "truncated"@.len() == 9,
        "durationMs"@.len() == 10,
        "totalBytesProcessed"@.len() == 19,
        "estimatedCostUsd"@.len() == 16,
        "cacheHit"@.len() == 8,
        "schema"@.len() == 6,
{
    reveal_strlit("project");
    reveal_strlit("dataset");
    reveal_strlit("dryRun");
    reveal_strlit("rows");
    reveal_strlit("count");
    reveal_strlit("truncated");
    reveal_strlit("durationMs");
    reveal_strlit("totalBytesProcessed");
    reveal_strlit("estimatedCostUsd");
    reveal_strlit("cacheHit");
    reveal_strlit("schema");
}

/// No two members of the row envelope have the same name.
pub proof fn lemma_result_names_distinct(
    tool_name: Seq<char>,
    profile_name: Seq<char>,
    project_id: Seq<char>,
    dataset: JsonView,
    response: JsonView,
    truncated: bool,
    failure: JsonView,
    failures: JsonView,
    error: JsonView,
)
    ensures
        distinct_names(
            result_envelope(
                tool_name,
                profile_name,
                project_id,
                dataset,
                response,
                truncated,
                failure,
                failures,
                error,
            )->Object_0,
        ),
{
    lemma_envelope_names();
    let ms = result_envelope(
        tool_name,
        profile_name,
        project_id,
        dataset,
        response,
        truncated,
        failure,
        failures,
        error,
    )->Object_0;
    assert("request"@ != "profile"@ && "response"@ != "toolName"@);
    assert(ms.len() == 8);
    assert(ms[0].0 == "toolName"@ && ms[1].0 == "profile"@ && ms[2].0 == "request"@);
    assert(ms[3].0 == "response"@ && ms[4].0 == "truncated"@ && ms[5].0 == "downstreamError"@);
    assert(ms[6].0 == "downstreamErrors"@ && ms[7].0 == "error"@);
}

/// No two members of the estimate envelope have the same name.
pub proof fn lemma_estimate_names_distinct(
    tool_name: Seq<char>,
    profile_name: Seq<char>,
    project_id: Seq<char>,
    dataset: JsonView,
    estimate: Seq<(Seq<char>, JsonView)>,
)
    ensures
        distinct_names(
            estimate_envelope(
                tool_name,
                profile_name,
                project_id,
                dataset,
                estimate,
            )->Object_0,
        ),
{
    lemma_envelope_names();
    let ms = estimate_envelope(tool_name, profile_name, project_id, dataset, estimate)->Object_0;
    assert("request"@ != "profile"@ && "estimate"@ != "toolName"@);
    assert(ms.len() == 8);
    assert(ms[0].0 == "toolName"@ && ms[1].0 == "profile"@ && ms[2].0 == "request"@);
    assert(ms[3].0 == "estimate"@ && ms[4].0 == "truncated"@ && ms[5].0 == "downstreamError"@);
    assert(ms[6].0 == "downstreamErrors"@ && ms[7].0 == "error"@);
}

/// What stands in each slot of the row envelope.
pub proof fn law_result_envelope_slots(
    tool_name: Seq<char>,
    profile_name: Seq<char>,
    project_id: Seq<char>,
    dataset: JsonView,
    response: JsonView,
    truncated: bool,
    failure: JsonView,
    failures: JsonView,
    error: JsonView,
)
    ensures
        ({
            let envelope = result_envelope(
                tool_name,
                profile_name,
                project_id,
                dataset,
                response,
                truncated,
                failure,
                failures,
                error,
            );
            &&& envelope.at("toolName"@) == JsonView::Str(tool_name)
            &&& envelope.at("profile"@) == JsonView::Str(profile_name)
            &&& envelope.at("request"@).at("project"@) == JsonView::Str(project_id)
            &&& envelope.at("request"@).at("dataset"@) == dataset
            &&& envelope.at("response"@) == response
            &&& envelope.at("truncated"@) == JsonView::Bool(truncated)
            &&& envelope.at("downstreamError"@) == failure
            &&& envelope.at("downstreamErrors"@) == failures
            &&& envelope.at("error"@) == error
        }),
{
    broadcast use lemma_member_push;

    lemma_envelope_names();
    lemma_slot_names();
}

/// The response of an envelope is null exactly beside a failure; else it holds
/// the rows, their count, and whether there are more.
pub proof fn law_response_null_iff_failed(
    rows: JsonView,
    count: JsonView,
    truncated: bool,
    duration_ms: u64,
    failed: bool,
)
    ensures
        ({
            let response = response_slot(rows, count, truncated, duration_ms, failed);
            &&& response is Null <==> failed
            &&& !failed ==> {
                &&& response.at("rows"@) == rows
                &&& response.at("count"@) == count
                &&& response.at("truncated"@) == JsonView::Bool(truncated)
                &&& response.at("durationMs"@) == JsonView::Number(NumberView::PosInt(duration_ms))
            }
        }),
{
    broadcast use lemma_member_push;

    lemma_slot_names();
}

/// The members of the row envelope are exactly those that its schema declares,
/// and so are those of its request and of its response.
pub proof fn law_result_schema_covers_envelope(
    tool_name: Seq<char>,
    profile_name: Seq<char>,
    project_id: Seq<char>,
    dataset: JsonView,
    rows: JsonView,
    count: JsonView,
    truncated: bool,
    duration_ms: u64,
    failure: JsonView,
    failures: JsonView,
    error: JsonView,
    k: Seq<char>,
)
    ensures
        ({
            let response = response_slot(rows, count, truncated, duration_ms, false);
            let envelope = result_envelope(
                tool_name,
                profile_name,
                project_id,
                dataset,
                response,
                truncated,
                failure,
                failures,
                error,
            );
            let declared = envelope_schema(result_properties()).at("properties"@);
            &&& envelope.has(k) <==> declared.has(k)
            &&& envelope.at("request"@).has(k) <==> declared.at("request"@).at("properties"@).has(k)
            &&& envelope.at("response"@).has(k) <==> declared.at("response"@).at(
                "properties"@,
            ).has(k)
        }),
{
    broadcast use lemma_member_push;

    lemma_envelope_names();
    lemma_slot_names();
    lemma_schema_names();
}

/// The names in a schema are different texts.
proof fn lemma_schema_names()
    ensures
        "$schema"@.len() == 7,
        "type"@.len() == 4,
        "properties"@.len() == 10,
        "additionalProperties"@.len() == 20,
{
    reveal_strlit("$schema");
    reveal_strlit("type");
    reveal_strlit("properties");
    reveal_strlit("additionalProperties");
}

/// What stands in each slot of the estimate envelope: it is marked as a dry run,
/// carries no failure and no rows, and a cost only where one was derived.
pub proof fn law_estimate_envelope_slots(
    tool_name: Seq<char>,
    profile_name: Seq<char>,
    project_id: Seq<char>,
    dataset: JsonView,
    bytes: Option<u64>,
    cost: Option<Seq<char>>,
    cache_hit: bool,
    schema: Seq<JsonView>,
    duration_ms: u64,
)
    ensures
        ({
            let envelope = estimate_envelope(
                tool_name,
                profile_name,
                project_id,
                dataset,
                estimate_slot(bytes, cost, cache_hit, schema, duration_ms),
            );
            let estimate = envelope.at("estimate"@);
            &&& envelope.at("toolName"@) == JsonView::Str(tool_name)
            &&& envelope.at("profile"@) == JsonView::Str(profile_name)
            &&& envelope.at("request"@).at("project"@) == JsonView::Str(project_id)
            &&& envelope.at("request"@).at("dataset"@) == dataset
            &&& envelope.at("request"@).at("dryRun"@) == JsonView::Bool(true)
            &&& envelope.at("truncated"@) == JsonView::Bool(false)
            &&& envelope.at("downstreamError"@) is Null
            &&& envelope.at("downstreamErrors"@) == JsonView::Array(Seq::empty())
            &&& envelope.at("error"@) is Null
            &&& !envelope.has("response"@)
            &&& !estimate.has("rows"@)
            &&& estimate.at("totalBytesProcessed"@) == optional_count(bytes)
            &&& estimate.get("estimatedCostUsd"@) == (match cost {
                Some(text) => Some(JsonView::Number(NumberView::Float(text))),
                None => None,
            })
            &&& estimate.at("cacheHit"@) == JsonView::Bool(cache_hit)
            &&& estimate.at("schema"@) == JsonView::Array(schema)
            &&& estimate.at("durationMs"@) == JsonView::Number(NumberView::PosInt(duration_ms))
        }),
{
    broadcast use lemma_member_push;

    lemma_envelope_names();
    lemma_slot_names();
}

/// The members of the estimate envelope are exactly those that its schema
/// declares, and so are those of its request. So are those of its estimate, but
/// for the cost, which is declared also where none was derived.
pub proof fn law_estimate_schema_covers_envelope(
    tool_name: Seq<char>,
    profile_name: Seq<char>,
    project_id: Seq<char>,
    dataset: JsonView,
    bytes: Option<u64>,
    cost: Option<Seq<char>>,
    cache_hit: bool,
    schema: Seq<JsonView>,
    duration_ms: u64,
    k: Seq<char>,
)
    ensures
        ({
            let envelope = estimate_envelope(
                tool_name,
                profile_name,
                project_id,
                dataset,
                estimate_slot(bytes, cost, cache_hit, schema, duration_ms),
            );
            let declared = envelope_schema(estimate_properties()).at("properties"@);
            &&& envelope.has(k) <==> declared.has(k)
            &&& envelope.at("request"@).has(k) <==> declared.at("request"@).at("properties"@).has(k)
            &&& envelope.at("estimate"@).has(k) <==> declared.at("estimate"@).at(
                "properties"@,
            ).has(k) && (k == "estimatedCostUsd"@ ==> cost is Some)
        }),
{
    broadcast use lemma_member_push;

    lemma_envelope_names();
    lemma_slot_names();
    lemma_schema_names();
}

/// What a failure is classified as: its kind is a transport error exactly where
/// it is retryable, and its message is kept.
pub proof fn law_classified_slots(message: Seq<char>)
    ensures
        ({
            let failure = classified(message);
            &&& failure is Object
            &&& failure.at("kind"@) == JsonView::Str(failure_kind(message))
            &&& failure.at("message"@) == JsonView::Str(message)
            &&& failure.at("retryable"@) == JsonView::Bool(is_retryable(message))
            &&& failure_kind(message) == "transport_error"@ <==> is_retryable(message)
        }),
{
    broadcast use lemma_member_push;

    reveal_strlit("kind");
    reveal_strlit("code");
    reveal_strlit("message");
    reveal_strlit("retryable");
    reveal_strlit("retryClass");
    reveal_strlit("suggestedAction");
    reveal_strlit("transport_error");
    reveal_strlit("bigquery_error");
    assert("kind"@[0] != "code"@[0]);
    assert("kind"@.len() == 4 && "code"@.len() == 4 && "message"@.len() == 7);
    assert("retryable"@.len() == 9);
    assert("transport_error"@.len() != "bigquery_error"@.len());
}

/// A message that carries a rejection marker is not retryable, whatever else it
/// says.
pub proof fn law_rejection_wins(message: Seq<char>, k: int)
    requires
        0 <= k < rejection_markers().len(),
        occurs_in(ascii_lower(message), rejection_markers()[k]),
    ensures
        !is_retryable(message),
        failure_kind(message) == "bigquery_error"@,
{
}

/// A message that carries a transport marker and no rejection marker is
/// retryable.
pub proof fn law_transport_is_retryable(message: Seq<char>, k: int)
    requires
        0 <= k < transport_markers().len(),
        occurs_in(ascii_lower(message), transport_markers()[k]),
        forall|j: int|
            0 <= j < rejection_markers().len() ==> !occurs_in(
                ascii_lower(message),
                #[trigger] rejection_markers()[j],
            ),
    ensures
        is_retryable(message),
{
}

/// A message that gives a server error code as a status, and carries no
/// rejection marker, is retryable.
pub proof fn law_server_error_is_retryable(message: Seq<char>, i: int)
    requires
        server_error_at(ascii_lower(message), i),
        given_as_status(ascii_lower(message), i),
        forall|j: int|
            0 <= j < rejection_markers().len() ==> !occurs_in(
                ascii_lower(message),
                #[trigger] rejection_markers()[j],
            ),
    ensures
        is_retryable(message),
        failure_kind(message) == "transport_error"@,
{
}

/// A number alone makes no failure retryable: a message that carries no
/// transport marker, and gives no server error code as a status, is not.
pub proof fn law_bare_numbers_decide_nothing(message: Seq<char>)
    requires
        forall|j: int|
            0 <= j < transport_markers().len() ==> !occurs_in(
                ascii_lower(message),
                #[trigger] transport_markers()[j],
            ),
        forall|i: int|
            #[trigger] server_error_at(ascii_lower(message), i) ==> !given_as_status(
                ascii_lower(message),
                i,
            ),
    ensures
        !is_retryable(message),
        failure_kind(message) == "bigquery_error"@,
{
}

/// Two messages that differ in ASCII case alone are classified alike.
pub proof fn law_case_does_not_matter(a: Seq<char>, b: Seq<char>)
    requires
        ascii_lower(a) == ascii_lower(b),
    ensures
        is_retryable(a) == is_retryable(b),
        failure_kind(a) == failure_kind(b),
{
}

} // verus!
