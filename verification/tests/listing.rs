use bigquery_backend::bigquery::QueryResponse;
use bigquery_backend::json::{Json, Number};
use bigquery_backend::listing::{
    candidate_text, first_column_name, page_from_full_result, plan_completion, plan_listing,
    rows_to_completion_values, settle_completion, settle_listing, ListedResource, Reply,
};
use bigquery_backend::observe::{
    audit_action_for_outcome, audit_record, synthetic_system_identity, Actor, EndedCall, Outcome,
};
use bigquery_backend::outside::{json_bytes, json_text, parse_json_bytes};
use bigquery_backend::plugin::{BackendError, BigQueryBackendPlugin, GuardVerdicts};
use bigquery_backend::surface::{
    page_window, prompt_messages_body, resolve_resource_uri, resource_contents_body, PageWindow,
    Surface,
};
use bigquery_backend::table::{
    Cell, CellValue, TableFieldSchema, TableFieldType, TableSchema, Tuple,
};
use bigquery_backend::types::{
    BigQueryAuth, BigQueryAuthMode, BigQueryBackendSpec, CompletionConfig, ListQueryConfig,
};

fn text(s: &str) -> Json {
    Json::String(s.to_owned())
}

fn whole(n: u64) -> Json {
    Json::Number(Number::PosInt(n))
}

fn object(members: Vec<(&str, Json)>) -> Json {
    Json::Object(members.into_iter().map(|(k, v)| (k.to_owned(), v)).collect())
}

fn plugin() -> BigQueryBackendPlugin {
    let auth = BigQueryAuth {
        mode: BigQueryAuthMode::ServiceAccount,
        credentials_json: "{}".into(),
    };
    let mut spec = BigQueryBackendSpec::with_defaults("proj".into(), auth);
    spec.statement = "SELECT 1".into();
    spec.surface = Surface::Resource;
    spec.query.timeout_ms = 250;
    spec.list_query = Some(ListQueryConfig { sql: "SELECT uri FROM docs".into(), page_size: 2 });
    spec.variable_completions.insert(
        "name".into(),
        CompletionConfig {
            sql: "SELECT name FROM docs WHERE STARTS_WITH(name, ?)".into(),
            max_results: None,
        },
    );
    spec.variable_completions.insert(
        "few".into(),
        CompletionConfig { sql: "SELECT n FROM docs WHERE n > ?".into(), max_results: Some(2) },
    );
    let verdicts = GuardVerdicts {
        statement: Ok(()),
        read_query: Ok(()),
        list_query: Ok(()),
        completions: vec![Ok(()), Ok(())],
    };
    let mut plugin = BigQueryBackendPlugin::new();
    plugin.register_profile("r", spec, &verdicts, Ok(vec![])).expect("register");
    plugin
}

fn column(name: &str, data_type: TableFieldType) -> TableFieldSchema {
    TableFieldSchema { name: name.into(), data_type, mode: None, fields: None }
}

fn reply(columns: Vec<TableFieldSchema>, rows: Vec<Vec<&str>>) -> Reply {
    Reply::Replied(Ok(QueryResponse {
        schema: Some(TableSchema { fields: columns }),
        rows: Some(
            rows.into_iter()
                .map(|r| Tuple {
                    f: r.into_iter()
                        .map(|c| Cell { v: CellValue::String(c.to_owned()) })
                        .collect(),
                })
                .collect(),
        ),
        total_rows: None,
        total_bytes_processed: None,
        job_complete: true,
        cache_hit: None,
    }))
}

fn bare(uri: &str) -> ListedResource {
    ListedResource { uri: uri.into(), name: None, description: None, mime_type: None }
}

#[test]
fn listing_runs_the_statement_without_parameters() {
    let plugin = plugin();
    let p = plugin.profile("r").unwrap();
    let plan = plan_listing(p, None).unwrap().unwrap();
    assert_eq!(plan.request.query, "SELECT uri FROM docs");
    assert!(plan.request.query_parameters.is_empty());
    assert_eq!(plan.request.parameter_mode, None);
    assert_eq!(plan.request.max_results, Some(10_000));
    assert_eq!(plan.offset, 0);
    assert_eq!(plan.page_size, 2);
    assert_eq!(plan_listing(p, Some("4")).unwrap().unwrap().offset, 4);
    for bad in ["x", "-1", "", "18446744073709551616"] {
        match plan_listing(p, Some(bad)) {
            Err(BackendError::InvalidSpec { message }) => {
                assert_eq!(message, format!("list cursor '{bad}' is not a non-negative integer"))
            },
            other => panic!("expected InvalidSpec, got {other:?}"),
        }
    }
}

#[test]
fn following_cursors_lists_every_resource_once() {
    let plugin = plugin();
    let p = plugin.profile("r").unwrap();
    let rows = || {
        reply(
            vec![column("uri", TableFieldType::String)],
            vec![vec!["u1"], vec!["u2"], vec!["u3"], vec!["u4"], vec!["u5"]],
        )
    };
    let mut cursor: Option<String> = None;
    let mut seen: Vec<String> = vec![];
    let mut pages: usize = 0;
    loop {
        let plan = plan_listing(p, cursor.as_deref()).unwrap().unwrap();
        let page = settle_listing(p, plan.offset, plan.page_size, rows()).unwrap();
        pages += 1;
        seen.extend(page.resources.into_iter().map(|r| r.uri));
        match page.next_cursor {
            Some(c) => cursor = Some(c),
            None => break,
        }
    }
    assert_eq!(pages, 3);
    assert_eq!(seen, vec!["u1", "u2", "u3", "u4", "u5"]);
}

#[test]
fn listed_resources_carry_their_columns() {
    let rows = vec![
        object(vec![
            ("uri", text("u1")),
            ("name", text("n")),
            ("description", text("d")),
            ("mime_type", text("m")),
        ]),
        object(vec![("uri", whole(5))]),
        object(vec![("uri", text("u2")), ("name", Json::Null)]),
    ];
    let page = page_from_full_result(&rows, 0, 10);
    assert_eq!(
        page.resources,
        vec![
            ListedResource {
                uri: "u1".into(),
                name: Some("n".into()),
                description: Some("d".into()),
                mime_type: Some("m".into()),
            },
            bare("u2"),
        ]
    );
    assert_eq!(page.next_cursor, None);
    let beyond = page_from_full_result(&rows, 9, 10);
    assert!(beyond.resources.is_empty());
    assert_eq!(beyond.next_cursor, None);
}

#[test]
fn failed_listings_and_completions_are_errors() {
    let plugin = plugin();
    let p = plugin.profile("r").unwrap();
    let plan = plan_listing(p, None).unwrap().unwrap();
    match settle_listing(p, plan.offset, plan.page_size, Reply::NotConnected("bad key".into())) {
        Err(BackendError::Transport { message }) => assert_eq!(message, "bad key"),
        other => panic!("expected Transport, got {other:?}"),
    }
    match settle_listing(p, plan.offset, plan.page_size, Reply::TimedOut) {
        Err(BackendError::Timeout { timeout_ms }) => assert_eq!(timeout_ms, 250),
        other => panic!("expected Timeout, got {other:?}"),
    }
    let plan = plan_completion(p, "name", "a").unwrap();
    match settle_completion(p, plan.max, Reply::Replied(Err("boom".into()))) {
        Err(BackendError::Transport { message }) => {
            assert_eq!(message, "BigQuery query failed: boom")
        },
        other => panic!("expected Transport, got {other:?}"),
    }
}

#[test]
fn page_windows_are_clamped() {
    assert_eq!(page_window(5, 0, 2), PageWindow { start: 0, end: 2, next: Some(2) });
    assert_eq!(page_window(5, 4, 2), PageWindow { start: 4, end: 5, next: None });
    assert_eq!(page_window(4, 2, 2), PageWindow { start: 2, end: 4, next: None });
    assert_eq!(page_window(5, 9, 2), PageWindow { start: 5, end: 5, next: None });
    assert_eq!(page_window(5, u64::MAX, u64::MAX), PageWindow { start: 5, end: 5, next: None });
}

#[test]
fn completion_binds_the_prefix() {
    let plugin = plugin();
    let p = plugin.profile("r").unwrap();
    let plan = plan_completion(p, "name", "al' OR '1'='1").unwrap();
    assert_eq!(plan.request.query, "SELECT name FROM docs WHERE STARTS_WITH(name, ?)");
    assert_eq!(plan.request.query_parameters.len(), 1);
    assert_eq!(plan.request.query_parameters[0].parameter_type, "STRING");
    assert_eq!(plan.request.query_parameters[0].value.as_deref(), Some("al' OR '1'='1"));
    assert_eq!(plan.request.parameter_mode.as_deref(), Some("POSITIONAL"));
    assert_eq!(plan.max, 100);
    assert_eq!(plan.request.max_results, Some(100));
    assert_eq!(plan_completion(p, "few", "").unwrap().max, 2);
    assert!(plan_completion(p, "other", "").is_none());
}

#[test]
fn completion_takes_the_first_column_up_to_the_cap() {
    let plugin = plugin();
    let p = plugin.profile("r").unwrap();
    let plan = plan_completion(p, "few", "").unwrap();
    let rows = reply(
        vec![column("z", TableFieldType::Integer), column("a", TableFieldType::String)],
        vec![vec!["1", "x"], vec!["2", "y"], vec!["3", "w"]],
    );
    assert_eq!(settle_completion(p, plan.max, rows).unwrap(), vec!["1", "2"]);
    let none = reply(vec![column("z", TableFieldType::String)], vec![]);
    assert!(settle_completion(p, plan.max, none).unwrap().is_empty());
}

#[test]
fn completion_values_skip_nulls() {
    let rows = vec![
        object(vec![("n", text("a"))]),
        object(vec![("n", Json::Null)]),
        object(vec![("n", whole(5))]),
        object(vec![("m", text("b"))]),
    ];
    assert_eq!(first_column_name(&rows).as_deref(), Some("n"));
    assert_eq!(rows_to_completion_values(&rows, Some("n"), 9), vec!["a", "5"]);
    assert_eq!(rows_to_completion_values(&rows, Some("n"), 1), vec!["a"]);
    assert!(rows_to_completion_values(&rows, None, 9).is_empty());
    assert_eq!(first_column_name(&[]), None);
    assert_eq!(candidate_text(Some(&Json::Bool(true))).as_deref(), Some("true"));
}

#[test]
fn resource_template_read_shapes_single_row_contents() {
    let uri = "bigquery://orders/42";
    let row = object(vec![
        ("id", whole(42)),
        ("total", Json::Number(Number::Float("19.99".into()))),
    ]);
    let body = resource_contents_body(uri, std::slice::from_ref(&row));
    let contents = match body.get("contents") {
        Some(Json::Array(xs)) => xs,
        other => panic!("expected contents, got {other:?}"),
    };
    assert_eq!(contents.len(), 1);
    assert_eq!(contents[0].get("uri"), Some(&text(uri)));
    assert_eq!(contents[0].get("mimeType"), Some(&text("application/json")));
    let decoded: Vec<serde_json::Value> =
        serde_json::from_str(contents[0].get("text").and_then(|t| t.as_text()).unwrap()).unwrap();
    assert_eq!(decoded.len(), 1);
    assert_eq!(decoded[0]["id"], 42);
    assert_eq!(decoded[0]["total"], 19.99);
    assert_eq!(decoded[0].as_object().unwrap().len(), 2);
}

#[test]
fn prompt_body_holds_the_rows() {
    let body = prompt_messages_body(&[object(vec![("a", whole(1))])]);
    assert_eq!(
        json_text(&body),
        "{\"messages\":[{\"content\":{\"text\":\"[{\\\"a\\\":1}]\",\"type\":\"text\"},\"role\":\"user\"}]}"
    );
}

#[test]
fn uris_are_resolved() {
    let args = object(vec![("uri", text("u"))]);
    assert_eq!(resolve_resource_uri(Some("s"), &args).as_deref(), Some("s"));
    assert_eq!(resolve_resource_uri(None, &args).as_deref(), Some("u"));
    assert_eq!(resolve_resource_uri(None, &object(vec![("uri", whole(1))])), None);
    assert_eq!(resolve_resource_uri(None, &Json::Null), None);
}

#[test]
fn surfaces_have_words() {
    assert_eq!(Surface::default(), Surface::Tool);
    assert_eq!(Surface::Tool.as_str(), "tool");
    assert_eq!(Surface::Resource.as_str(), "resource");
    assert_eq!(Surface::Prompt.as_str(), "prompt");
}

#[test]
fn bytes_are_written_and_read() {
    let doc = object(vec![("k", text("ä\n"))]);
    let bytes = json_bytes(&doc).unwrap();
    assert_eq!(bytes, "{\"k\":\"ä\\n\"}".as_bytes().to_vec());
    assert_eq!(parse_json_bytes(&bytes), Some(doc));
    assert_eq!(parse_json_bytes(&[0xff]), None);
}

#[test]
fn audit_actions_follow_the_label() {
    assert_eq!(
        audit_action_for_outcome("timeout"),
        Some("dev.mcpg.backend.bigquery.request_timeout")
    );
    assert_eq!(
        audit_action_for_outcome("transport_error"),
        Some("dev.mcpg.backend.bigquery.request_failed")
    );
    assert_eq!(
        audit_action_for_outcome("bigquery_error"),
        Some("dev.mcpg.backend.bigquery.query_rejected")
    );
    assert_eq!(
        audit_action_for_outcome("invalid_spec"),
        Some("dev.mcpg.backend.bigquery.request_failed")
    );
    assert_eq!(audit_action_for_outcome("ok"), None);
    assert_eq!(audit_action_for_outcome("profile_not_found"), None);
}

fn ended(identified: bool) -> EndedCall<'static> {
    EndedCall {
        backend_name: "b",
        request_id: "rq-1",
        alias: "al",
        identified,
        duration_ms: 12,
        duration_nanos: 12_345_678,
    }
}

#[test]
fn failed_calls_are_recorded() {
    let r = audit_record(&ended(false), Outcome::Timeout, Some("late")).unwrap();
    assert_eq!(r.event_id, "bigquery-rq-1-12345678");
    assert_eq!(r.action, "dev.mcpg.backend.bigquery.request_timeout");
    assert_eq!(r.resource, "bigquery-binding://b");
    assert_eq!(r.request_id, "rq-1");
    assert_eq!(
        r.details,
        object(vec![
            ("backend", text("b")),
            ("duration_ms", whole(12)),
            ("outcome", text("timeout")),
            ("alias", text("al")),
            ("reason", text("late")),
        ])
    );
    match r.actor {
        Actor::System(identity) => {
            assert_eq!(identity.subject_id.as_deref(), Some("dev.mcpg.backend.bigquery"))
        },
        other => panic!("expected the system, got {other:?}"),
    }
    let r = audit_record(&ended(true), Outcome::BigQueryError, None).unwrap();
    assert!(matches!(r.actor, Actor::Caller));
    assert!(r.details.get("reason").is_none());
    assert!(audit_record(&ended(true), Outcome::Success, None).is_none());
    assert!(audit_record(&ended(true), Outcome::ProfileNotFound, Some("x")).is_none());
}

#[test]
fn system_identity_is_the_plugin() {
    let identity = synthetic_system_identity();
    assert_eq!(identity.kind, "system");
    assert_eq!(identity.trust_level, "verified");
    assert!(identity.auth_provider.is_none() && identity.issuer.is_none());
    assert!(identity.roles.is_empty() && identity.groups.is_empty() && identity.scopes.is_empty());
}

#[test]
fn outcomes_have_labels() {
    assert_eq!(Outcome::Success.label(), "ok");
    assert_eq!(Outcome::Timeout.label(), "timeout");
    assert_eq!(Outcome::TransportError.label(), "transport_error");
    assert_eq!(Outcome::BigQueryError.label(), "bigquery_error");
    assert_eq!(Outcome::InvalidSpec.label(), "invalid_spec");
    assert_eq!(Outcome::ProfileNotFound.label(), "profile_not_found");
}
