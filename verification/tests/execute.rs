use bigquery_backend::arguments::CompiledParam;
use bigquery_backend::bigquery::{QueryParameter, QueryRequest, QueryResponse};
use bigquery_backend::call::{
    arguments_or_empty, begin_call, bind_parameters, finalize_payload, outcome_of_failure,
    payload_or_failure, request_arguments, tool_name, Call,
};
use bigquery_backend::execute::{step, Action, Answer, Event, Stage};
use bigquery_backend::json::{Json, Number};
use bigquery_backend::observe::Outcome;
use bigquery_backend::params::json_to_bq_param;
use bigquery_backend::plugin::{
    BackendError, BigQueryBackendPlugin, BigQueryProfile, GuardVerdicts,
};
use bigquery_backend::surface::Surface;
use bigquery_backend::table::{
    Cell, CellValue, TableFieldSchema, TableFieldType, TableSchema, Tuple,
};
use bigquery_backend::types::{BigQueryAuth, BigQueryAuthMode, BigQueryBackendSpec};

fn text(s: &str) -> Json {
    Json::String(s.to_owned())
}

fn whole(n: u64) -> Json {
    Json::Number(Number::PosInt(n))
}

fn spec() -> BigQueryBackendSpec {
    let auth = BigQueryAuth {
        mode: BigQueryAuthMode::ServiceAccount,
        credentials_json: "{}".into(),
    };
    let mut spec = BigQueryBackendSpec::with_defaults("proj".into(), auth);
    spec.dataset = Some("d".into());
    spec.statement = "SELECT id FROM t WHERE id = ?".into();
    spec.params = vec!["arguments.id".into()];
    spec.query.maximum_bytes_billed = Some(1024);
    spec
}

fn plugin_of(spec: BigQueryBackendSpec) -> BigQueryBackendPlugin {
    let mut plugin = BigQueryBackendPlugin::new();
    let verdicts = GuardVerdicts {
        statement: Ok(()),
        read_query: Ok(()),
        list_query: Ok(()),
        completions: vec![],
    };
    let params = spec.params.iter().map(|p| CompiledParam { source: p.clone() }).collect();
    plugin.register_profile("b", spec, &verdicts, Ok(params)).expect("register");
    plugin
}

fn call_of(plugin: &BigQueryBackendPlugin, payload: &str) -> Call {
    let headers = vec![("MCPG-Tool-Name".to_owned(), "the.tool".to_owned())];
    begin_call(plugin, "b", &headers, payload.as_bytes()).expect("call")
}

fn response() -> QueryResponse {
    QueryResponse {
        schema: Some(TableSchema {
            fields: vec![TableFieldSchema {
                name: "id".into(),
                data_type: TableFieldType::Integer,
                mode: None,
                fields: None,
            }],
        }),
        rows: Some(vec![Tuple { f: vec![Cell { v: CellValue::String("7".into()) }] }]),
        total_rows: Some(3),
        total_bytes_processed: Some(2048),
        job_complete: true,
        cache_hit: Some(true),
    }
}

fn next(p: &BigQueryProfile, call: &Call, stage: Stage, event: Event) -> (Stage, Action) {
    step(p, call, stage, event, 12).expect("an awaited event")
}

/// Takes a call up to its request.
fn request_of(p: &BigQueryProfile, call: &Call) -> (Stage, Action) {
    let (stage, action) =
        next(p, call, Stage::Binding, Event::Evaluated(Ok(vec![text("1 OR 1=1")])));
    let stage = match action {
        Action::Guard(_) => next(p, call, stage, Event::Guarded(Ok(()))).0,
        _ => stage,
    };
    next(p, call, stage, Event::Connected(Ok(())))
}

fn answer(action: Action) -> Answer {
    match action {
        Action::Answer(answer) => answer,
        other => panic!("expected an answer, got {other:?}"),
    }
}

fn run(action: Action) -> QueryRequest {
    match action {
        Action::Run(request) => request,
        other => panic!("expected a run, got {other:?}"),
    }
}

fn at<'a>(j: &'a Json, path: &[&str]) -> &'a Json {
    let mut here = j;
    for k in path {
        here = here.get(k).expect("member");
    }
    here
}

fn assert_failed(p: &BigQueryProfile, call: &Call, a: Answer, message: &str, outcome: Outcome) {
    assert_eq!(a.outcome, outcome);
    assert_eq!(a.reason.as_deref(), Some(message));
    assert_eq!(at(&a.body, &["toolName"]), &text(&call.tool_name));
    assert_eq!(at(&a.body, &["profile"]), &text("b"));
    assert_eq!(at(&a.body, &["request", "project"]), &text(&p.project_id));
    assert_eq!(at(&a.body, &["response"]), &Json::Null);
    assert_eq!(at(&a.body, &["truncated"]), &Json::Bool(false));
    assert_eq!(at(&a.body, &["downstreamError", "message"]), &text(message));
    assert_eq!(at(&a.body, &["error"]), &text(message));
}

#[test]
fn tool_call_runs_and_answers_with_rows() {
    let plugin = plugin_of(spec());
    let p = plugin.profile("b").unwrap();
    let call = call_of(&plugin, "{\"id\": 1}");
    let (stage, action) =
        next(p, &call, Stage::Binding, Event::Evaluated(Ok(vec![text("1 OR 1=1")])));
    assert!(matches!(&action, Action::Guard(s) if s == "SELECT id FROM t WHERE id = ?"));
    let (stage, action) = next(p, &call, stage, Event::Guarded(Ok(())));
    assert!(matches!(action, Action::Connect));
    let (stage, action) = next(p, &call, stage, Event::Connected(Ok(())));
    let request = run(action);
    assert_eq!(request.query, "SELECT id FROM t WHERE id = ?");
    assert_eq!(
        request.query_parameters,
        vec![QueryParameter { parameter_type: "STRING".into(), value: Some("1 OR 1=1".into()) }]
    );
    assert_eq!(request.parameter_mode.as_deref(), Some("POSITIONAL"));
    assert_eq!(request.maximum_bytes_billed, Some(1024));
    assert_eq!(request.max_results, Some(10_000));
    let (stage, action) = next(p, &call, stage, Event::Replied(Ok(response())));
    assert!(matches!(stage, Stage::Done));
    let a = answer(action);
    assert_eq!(a.outcome, Outcome::Success);
    assert_eq!(a.reason, None);
    assert_eq!(at(&a.body, &["toolName"]), &text("the.tool"));
    assert_eq!(at(&a.body, &["request", "dataset"]), &text("d"));
    assert_eq!(
        at(&a.body, &["response", "rows"]),
        &Json::Array(vec![Json::Object(vec![("id".into(), whole(7))])])
    );
    assert_eq!(at(&a.body, &["response", "count"]), &whole(1));
    assert_eq!(at(&a.body, &["response", "durationMs"]), &whole(12));
    assert_eq!(at(&a.body, &["truncated"]), &Json::Bool(true));
    assert_eq!(at(&a.body, &["downstreamError"]), &Json::Null);
}

#[test]
fn unbindable_parameters_end_the_call() {
    let plugin = plugin_of(spec());
    let p = plugin.profile("b").unwrap();
    let call = call_of(&plugin, "{}");
    let (_, action) =
        next(p, &call, Stage::Binding, Event::Evaluated(Err("no such key: id".into())));
    assert_failed(
        p,
        &call,
        answer(action),
        "evaluating params: no such key: id",
        Outcome::InvalidSpec,
    );
    let values = vec![text("x"), Json::Array(vec![])];
    let (_, action) = next(p, &call, Stage::Binding, Event::Evaluated(Ok(values)));
    assert_failed(
        p,
        &call,
        answer(action),
        "binding params: arrays and objects cannot be bound as query parameters",
        Outcome::InvalidSpec,
    );
}

#[test]
fn guard_and_client_refusals_end_the_call() {
    let plugin = plugin_of(spec());
    let p = plugin.profile("b").unwrap();
    let call = call_of(&plugin, "{}");
    let guarding = || Stage::Guarding { parameters: vec![] };
    let connecting = || Stage::Connecting { parameters: vec![] };
    let (_, action) = next(p, &call, guarding(), Event::Guarded(Err("read-only guard: no".into())));
    assert_failed(p, &call, answer(action), "read-only guard: no", Outcome::BigQueryError);
    let (_, action) = next(p, &call, connecting(), Event::Connected(Err("bad key".into())));
    assert_failed(p, &call, answer(action), "bad key", Outcome::BigQueryError);
}

#[test]
fn unguarded_binding_connects_at_once() {
    let mut s = spec();
    s.query.read_only = false;
    let plugin = plugin_of(s);
    let p = plugin.profile("b").unwrap();
    let call = call_of(&plugin, "{}");
    let (stage, action) = next(p, &call, Stage::Binding, Event::Evaluated(Ok(vec![])));
    assert!(matches!(stage, Stage::Connecting { .. }));
    assert!(matches!(action, Action::Connect));
}

#[test]
fn failed_runs_are_labelled() {
    let plugin = plugin_of(spec());
    let p = plugin.profile("b").unwrap();
    let call = call_of(&plugin, "{}");
    let after = |event: Event| answer(next(p, &call, Stage::Running, event).1);
    assert_failed(p, &call, after(Event::TimedOut), "BigQuery call timed out", Outcome::Timeout);
    assert_failed(
        p,
        &call,
        after(Event::Replied(Err("503".into()))),
        "BigQuery query failed: 503",
        Outcome::TransportError,
    );
    assert_failed(
        p,
        &call,
        after(Event::Replied(Err("access denied".into()))),
        "BigQuery query failed: access denied",
        Outcome::BigQueryError,
    );
    let waiting = QueryResponse { job_complete: false, ..response() };
    assert_failed(
        p,
        &call,
        after(Event::Replied(Ok(waiting))),
        "BigQuery query timed out: job did not complete",
        Outcome::Timeout,
    );
    assert_eq!(outcome_of_failure("TimeOut: syntax"), Outcome::Timeout);
    assert_eq!(outcome_of_failure("Code: 501. upstream fault"), Outcome::TransportError);
}

#[test]
fn resource_read_uses_the_read_query_and_the_requested_uri() {
    let mut s = spec();
    s.surface = Surface::Resource;
    s.read_query = Some("SELECT * FROM orders WHERE id = ?".into());
    let plugin = plugin_of(s);
    let p = plugin.profile("b").unwrap();
    let call = call_of(&plugin, "{\"uri\": \"bigquery://orders/42\"}");
    let (stage, action) = request_of(p, &call);
    assert_eq!(run(action).query, "SELECT * FROM orders WHERE id = ?");
    let a = answer(next(p, &call, stage, Event::Replied(Ok(response()))).1);
    assert_eq!(a.outcome, Outcome::Success);
    assert_eq!(
        a.body,
        Json::Object(vec![(
            "contents".into(),
            Json::Array(vec![Json::Object(vec![
                ("uri".into(), text("bigquery://orders/42")),
                ("mimeType".into(), text("application/json")),
                ("text".into(), text("[{\"id\":7}]")),
            ])])
        )])
    );

    let call = call_of(&plugin, "{\"uri\": 5}");
    let a = answer(next(p, &call, Stage::Running, Event::Replied(Ok(response()))).1);
    assert_failed(
        p,
        &call,
        a,
        "resource surface requires a `uri` (set a static `uri` on the binding or invoke via a resources/read request)",
        Outcome::BigQueryError,
    );
}

#[test]
fn static_uri_wins() {
    let mut s = spec();
    s.surface = Surface::Resource;
    s.uri = Some("bigquery://all".into());
    let plugin = plugin_of(s);
    let p = plugin.profile("b").unwrap();
    let call = call_of(&plugin, "{\"uri\": \"bigquery://one\"}");
    let (stage, action) = request_of(p, &call);
    assert_eq!(run(action).query, "SELECT id FROM t WHERE id = ?");
    let a = answer(next(p, &call, stage, Event::Replied(Ok(response()))).1);
    match at(&a.body, &["contents"]) {
        Json::Array(contents) => assert_eq!(contents[0].get("uri"), Some(&text("bigquery://all"))),
        other => panic!("expected contents, got {other:?}"),
    }
}

#[test]
fn prompt_answers_with_a_message() {
    let mut s = spec();
    s.surface = Surface::Prompt;
    let plugin = plugin_of(s);
    let p = plugin.profile("b").unwrap();
    let call = call_of(&plugin, "");
    let a = answer(next(p, &call, Stage::Running, Event::Replied(Ok(response()))).1);
    match at(&a.body, &["messages"]) {
        Json::Array(messages) => {
            assert_eq!(messages.len(), 1);
            assert_eq!(messages[0].get("role"), Some(&text("user")));
            assert_eq!(at(&messages[0], &["content", "type"]), &text("text"));
            assert_eq!(at(&messages[0], &["content", "text"]), &text("[{\"id\":7}]"));
        },
        other => panic!("expected messages, got {other:?}"),
    }
}

#[test]
fn dry_run_plans_prices_and_answers() {
    let mut s = spec();
    s.query.dry_run = true;
    s.query.price_per_tib_usd = Some(5.0f64.to_bits());
    let plugin = plugin_of(s);
    let p = plugin.profile("b").unwrap();
    let call = call_of(&plugin, "{}");
    let (stage, action) = request_of(p, &call);
    match action {
        Action::Plan(request) => {
            assert_eq!(request.query, "SELECT id FROM t WHERE id = ?");
            assert_eq!(request.dry_run, Some(true));
            assert_eq!(request.max_results, None);
            assert_eq!(request.query_parameters.len(), 1);
        },
        other => panic!("expected a plan, got {other:?}"),
    }
    let (stage, action) = next(p, &call, stage, Event::Replied(Ok(response())));
    let cost = match action {
        Action::Price { bytes, price_per_tib_usd } => {
            assert_eq!(bytes, 2048);
            assert_eq!(f64::from_bits(price_per_tib_usd), 5.0);
            "0.0000000093"
        },
        other => panic!("expected a pricing, got {other:?}"),
    };
    let (stage, action) = next(p, &call, stage, Event::Priced(cost.into()));
    assert!(matches!(stage, Stage::Done));
    let a = answer(action);
    assert_eq!(a.outcome, Outcome::Success);
    assert_eq!(at(&a.body, &["request", "dryRun"]), &Json::Bool(true));
    assert_eq!(at(&a.body, &["estimate", "totalBytesProcessed"]), &whole(2048));
    assert_eq!(
        at(&a.body, &["estimate", "estimatedCostUsd"]),
        &Json::Number(Number::Float(cost.into()))
    );
    assert_eq!(at(&a.body, &["estimate", "cacheHit"]), &Json::Bool(true));
    assert!(a.body.get("response").is_none());
}

#[test]
fn dry_run_without_price_or_bytes_has_no_cost() {
    let mut s = spec();
    s.query.dry_run = true;
    let plugin = plugin_of(s);
    let p = plugin.profile("b").unwrap();
    let call = call_of(&plugin, "{}");
    let a = answer(next(p, &call, Stage::Planning, Event::Replied(Ok(response()))).1);
    assert!(at(&a.body, &["estimate"]).get("estimatedCostUsd").is_none());

    let mut s = spec();
    s.query.dry_run = true;
    s.query.price_per_tib_usd = Some(5.0f64.to_bits());
    let plugin = plugin_of(s);
    let p = plugin.profile("b").unwrap();
    let unsized_reply = QueryResponse { total_bytes_processed: None, ..response() };
    let a = answer(next(p, &call, Stage::Planning, Event::Replied(Ok(unsized_reply))).1);
    assert_eq!(at(&a.body, &["estimate", "totalBytesProcessed"]), &Json::Null);
    assert!(at(&a.body, &["estimate"]).get("estimatedCostUsd").is_none());
}

#[test]
fn failed_dry_runs_degrade_to_the_error_envelope() {
    let mut s = spec();
    s.query.dry_run = true;
    let plugin = plugin_of(s);
    let p = plugin.profile("b").unwrap();
    let call = call_of(&plugin, "{}");
    let after = |event: Event| answer(next(p, &call, Stage::Planning, event).1);
    assert_failed(p, &call, after(Event::TimedOut), "BigQuery dry run timed out", Outcome::Timeout);
    assert_failed(
        p,
        &call,
        after(Event::Replied(Err("Syntax error".into()))),
        "BigQuery dry run failed: Syntax error",
        Outcome::BigQueryError,
    );
}

#[test]
fn unawaited_events_give_nothing() {
    let plugin = plugin_of(spec());
    let p = plugin.profile("b").unwrap();
    let call = call_of(&plugin, "{}");
    assert!(step(p, &call, Stage::Binding, Event::TimedOut, 0).is_none());
    assert!(step(p, &call, Stage::Running, Event::Guarded(Ok(())), 0).is_none());
    assert!(step(p, &call, Stage::Done, Event::TimedOut, 0).is_none());
    assert!(step(p, &call, Stage::Running, Event::Connected(Ok(())), 0).is_none());
}

#[test]
fn tool_name_comes_from_the_header() {
    let pair = |k: &str, v: &str| (k.to_owned(), v.to_owned());
    let headers = vec![
        pair("x", "no"),
        pair("MCPG-TOOL-name", "first"),
        pair("mcpg-tool-name", "second"),
    ];
    assert_eq!(tool_name(&headers, "b"), "first");
    assert_eq!(tool_name(&vec![pair("mcpg-tool", "no")], "b"), "b");
}

#[test]
fn arguments_are_the_payload_or_an_empty_object() {
    assert_eq!(request_arguments(b""), Json::Object(vec![]));
    assert_eq!(request_arguments(b"{not json"), Json::Object(vec![]));
    assert_eq!(
        request_arguments(b"{\"id\": \"x\"}"),
        Json::Object(vec![("id".into(), text("x"))])
    );
    assert_eq!(arguments_or_empty(None), Json::Object(vec![]));
    assert_eq!(arguments_or_empty(Some(Json::Null)), Json::Null);
}

#[test]
fn payload_is_the_written_envelope() {
    let envelope = Json::Object(vec![("b".into(), whole(1)), ("a".into(), Json::Null)]);
    let response = finalize_payload(&envelope).unwrap();
    assert_eq!(response.payload, b"{\"a\":null,\"b\":1}".to_vec());
    assert!(!response.truncated);
    match payload_or_failure(Err("why".into())) {
        Err(BackendError::Transport { message }) => {
            assert_eq!(message, "BigQuery plugin envelope serialization failed: why")
        },
        other => panic!("expected a failure, got {other:?}"),
    }
}

#[test]
fn scalars_are_lowered_by_their_type() {
    let lowered = |v: Json| {
        let p = json_to_bq_param(&v).unwrap();
        (p.parameter_type, p.value)
    };
    let typed = |t: &str, v: &str| (t.to_owned(), Some(v.to_owned()));
    assert_eq!(lowered(Json::Bool(true)), typed("BOOL", "true"));
    assert_eq!(lowered(Json::Bool(false)), typed("BOOL", "false"));
    assert_eq!(lowered(whole(42)), typed("INT64", "42"));
    assert_eq!(
        lowered(Json::Number(Number::NegInt(i64::MIN))),
        typed("INT64", "-9223372036854775808")
    );
    assert_eq!(lowered(Json::Number(Number::Float("0.5".into()))), typed("FLOAT64", "0.5"));
    assert_eq!(lowered(text("x'; --")), typed("STRING", "x'; --"));
    assert_eq!(lowered(Json::Null), ("STRING".to_owned(), None));
    assert!(json_to_bq_param(&Json::Array(vec![])).is_err());
    assert!(json_to_bq_param(&Json::Object(vec![])).is_err());
    assert_eq!(bind_parameters(Ok(vec![whole(1), text("a")])).unwrap().len(), 2);
}

/// A value that looks like SQL lowers to one positional text parameter.
#[test]
fn template_var_binds_as_param_not_interpolated() {
    let injection = "1 OR 1=1; DROP TABLE orders";
    let values = vec![text(injection)];
    let params = bind_parameters(Ok(values)).unwrap();
    assert_eq!(params.len(), 1);
    assert_eq!(params[0].parameter_type, "STRING");
    assert_eq!(params[0].value.as_deref(), Some(injection));
}

#[test]
fn sent_payload_flags_failure() {
    let plugin = plugin_of(spec());
    let p = plugin.profile("b").unwrap();
    let call = call_of(&plugin, "{}");
    let sent = |event: Event| {
        let a = answer(next(p, &call, Stage::Running, event).1);
        let payload = finalize_payload(&a.body).unwrap().payload;
        let document: serde_json::Value = serde_json::from_slice(&payload).unwrap();
        document
    };
    let failed = sent(Event::TimedOut);
    assert_eq!(failed["downstreamError"]["kind"], "transport_error");
    assert_eq!(failed["downstreamErrors"][0], failed["downstreamError"]);
    assert!(failed["response"].is_null());
    let succeeded = sent(Event::Replied(Ok(response())));
    assert!(succeeded["downstreamError"].is_null());
    assert_eq!(succeeded["response"]["rows"][0]["id"], 7);
}

#[test]
fn doubles_are_sent_as_numbers() {
    let plugin = plugin_of(spec());
    let p = plugin.profile("b").unwrap();
    let call = call_of(&plugin, "{}");
    for raw in ["0.1", "-0.0", "1e300", "5e-324", "1.7976931348623157e308", "123456789.125"] {
        let mut reply = response();
        reply.schema = Some(TableSchema {
            fields: vec![TableFieldSchema {
                name: "x".into(),
                data_type: TableFieldType::Float64,
                mode: None,
                fields: None,
            }],
        });
        reply.rows = Some(vec![Tuple { f: vec![Cell { v: CellValue::String(raw.into()) }] }]);
        let a = answer(next(p, &call, Stage::Running, Event::Replied(Ok(reply))).1);
        let payload = String::from_utf8(finalize_payload(&a.body).unwrap().payload).unwrap();
        let expected: f64 = raw.parse().unwrap();
        let shown = serde_json::Number::from_f64(expected).unwrap();
        assert!(payload.contains(&format!("\"rows\":[{{\"x\":{shown}}}]")), "{payload}");
    }
}
