use bigquery_backend::envelope::{
    bigquery_downstream_error, build_estimate_envelope, build_result_envelope, classify_error,
    estimate_envelope_schema, result_envelope_schema,
};
use bigquery_backend::json::{Json, Number};
use bigquery_backend::outside::{json_text, parse_json_text};

fn text(s: &str) -> Json {
    Json::String(s.to_owned())
}

fn whole(n: u64) -> Json {
    Json::Number(Number::PosInt(n))
}

fn object(members: Vec<(&str, Json)>) -> Json {
    Json::Object(members.into_iter().map(|(k, v)| (k.to_owned(), v)).collect())
}

fn at<'a>(j: &'a Json, path: &[&str]) -> Option<&'a Json> {
    let mut here = j;
    for k in path {
        here = here.get(k)?;
    }
    Some(here)
}

fn item(j: Option<&Json>, i: usize) -> &Json {
    match j {
        Some(Json::Array(xs)) => &xs[i],
        other => panic!("expected an array, got {other:?}"),
    }
}

fn keys(j: &Json) -> Vec<String> {
    match j {
        Json::Object(ms) => ms.iter().map(|(k, _)| k.clone()).collect(),
        other => panic!("expected an object, got {other:?}"),
    }
}

#[test]
fn connect_failure_is_retryable_transport_error() {
    let e = classify_error("BigQuery request failed: connection refused");
    assert_eq!(e.get("kind"), Some(&text("transport_error")));
    assert_eq!(e.get("retryable"), Some(&Json::Bool(true)));
}

#[test]
fn rate_limit_is_retryable() {
    let e = classify_error("BigQuery API error. Code: 429. Message: too many requests");
    assert_eq!(e.get("kind"), Some(&text("transport_error")));
    assert_eq!(e.get("retryable"), Some(&Json::Bool(true)));
}

#[test]
fn sql_syntax_is_not_retryable() {
    let e = classify_error("BigQuery error: Syntax error: Unexpected identifier 'BOGUS' at [1:8]");
    assert_eq!(e.get("kind"), Some(&text("bigquery_error")));
    assert_eq!(e.get("retryable"), Some(&Json::Bool(false)));
}

#[test]
fn auth_failure_is_not_retryable() {
    let e = classify_error("token source failed: invalid_grant: authentication failed");
    assert_eq!(e.get("kind"), Some(&text("bigquery_error")));
    assert_eq!(e.get("retryable"), Some(&Json::Bool(false)));
}

#[test]
fn bytes_billed_exceeded_is_not_retryable() {
    let e = classify_error(
        "BigQuery error: Query exceeded limit for bytes billed: 1048576. (bytesBilledLimitExceeded)",
    );
    assert_eq!(e.get("kind"), Some(&text("bigquery_error")));
    assert_eq!(e.get("retryable"), Some(&Json::Bool(false)));
}

#[test]
fn rejection_wins_over_transport_and_case_does_not_matter() {
    let e = classify_error("SYNTAX error near TIMEOUT, Code: 503");
    assert_eq!(e.get("retryable"), Some(&Json::Bool(false)));
    let e = classify_error("Service Unavailable");
    assert_eq!(e.get("retryable"), Some(&Json::Bool(true)));
    let e = classify_error("something else");
    assert_eq!(e.get("retryable"), Some(&Json::Bool(false)));
    assert_eq!(e.get("message"), Some(&text("something else")));
}

#[test]
fn every_marker_decides() {
    for m in [
        "syntax", "invalid query", "not found", "does not exist", "unrecognized name",
        "authentication", "auth ", "invalid_grant", "credential", "unauthorized", "permission",
        "access denied", "forbidden", "maximum_bytes_billed", "bytesBilledLimitExceeded",
        "bytes billed", "read-only guard",
    ] {
        let e = classify_error(&format!("connect: {m}"));
        assert_eq!(e.get("retryable"), Some(&Json::Bool(false)), "{m}");
    }
    for m in [
        "connect", "timed out", "timeout", "broken pipe", "connection reset", "eof", "dns", "429",
        "too many requests", "rate limit", "rateLimitExceeded", "backendError", "500", "502",
        "503", "504", "service unavailable",
    ] {
        let e = classify_error(&format!("x {m} x"));
        assert_eq!(e.get("retryable"), Some(&Json::Bool(true)), "{m}");
    }
}

#[test]
fn every_server_error_status_is_retryable() {
    let e = classify_error("BigQuery API error. Code: 501. Message: upstream fault");
    assert_eq!(e.get("kind"), Some(&text("transport_error")));
    assert_eq!(e.get("retryable"), Some(&Json::Bool(true)));
    for code in 500..=599 {
        for m in [
            format!("Code: {code}"),
            format!("HTTP {code}: fault"),
            format!("status {code}"),
            format!("status: {code}."),
            format!("status code {code}"),
            format!("HTTP status server error ({code} Fault) for url"),
        ] {
            assert_eq!(classify_error(&m).get("retryable"), Some(&Json::Bool(true)), "{m}");
            let e = classify_error(&format!("{m} permission"));
            assert_eq!(e.get("retryable"), Some(&Json::Bool(false)), "{m}");
        }
    }
    for m in ["Code: 400", "Code: 499", "Code: 600", "Code: 5011", "Code: 51", "Code: 5x1"] {
        assert_eq!(classify_error(m).get("retryable"), Some(&Json::Bool(false)), "{m}");
    }
}

#[test]
fn bare_numbers_decide_nothing() {
    let e = classify_error("Column id is ambiguous at [1:512]");
    assert_eq!(e.get("kind"), Some(&text("bigquery_error")));
    assert_eq!(e.get("retryable"), Some(&Json::Bool(false)));
    for n in 505..=599 {
        for m in [
            format!("{n}"),
            format!("Column id is ambiguous at [1:{n}]"),
            format!("No matching signature at [{n}:8]"),
            format!("{n} rows affected"),
            format!("Code:{n}"),
        ] {
            assert_eq!(classify_error(&m).get("retryable"), Some(&Json::Bool(false)), "{m}");
        }
    }
}

#[test]
fn downstream_error_has_its_slots() {
    assert_eq!(
        bigquery_downstream_error("transport_error", "m", true),
        object(vec![
            ("kind", text("transport_error")),
            ("code", text("mcpg.downstream_bigquery.transport_error")),
            ("message", text("m")),
            ("retryable", Json::Bool(true)),
            ("retryClass", text("with_backoff")),
            ("suggestedAction", text("check_bigquery_connectivity_and_retry")),
        ])
    );
    let e = bigquery_downstream_error("k", "m", false);
    assert_eq!(e.get("retryClass"), Some(&text("do_not_retry")));
    assert_eq!(e.get("suggestedAction"), Some(&text("inspect_sql_error")));
}

#[test]
fn query_envelope_has_rows_count_and_truncated() {
    let rows = vec![object(vec![("id", whole(1))])];
    let env = build_result_envelope(
        "u.get",
        "u.get",
        "my-proj",
        Some("analytics"),
        Some(&rows),
        Some(1),
        false,
        7,
        None,
        None,
    );
    assert_eq!(at(&env, &["response", "count"]), Some(&whole(1)));
    assert_eq!(item(at(&env, &["response", "rows"]), 0).get("id"), Some(&whole(1)));
    assert_eq!(at(&env, &["response", "truncated"]), Some(&Json::Bool(false)));
    assert_eq!(at(&env, &["request", "project"]), Some(&text("my-proj")));
    assert_eq!(at(&env, &["request", "dataset"]), Some(&text("analytics")));
    assert_eq!(env.get("downstreamError"), Some(&Json::Null));
}

#[test]
fn truncated_flag_propagates() {
    let rows = vec![object(vec![("id", whole(1))])];
    let env = build_result_envelope(
        "u.get",
        "u.get",
        "proj",
        None,
        Some(&rows),
        Some(1),
        true,
        7,
        None,
        None,
    );
    assert_eq!(env.get("truncated"), Some(&Json::Bool(true)));
    assert_eq!(at(&env, &["response", "truncated"]), Some(&Json::Bool(true)));
}

#[test]
fn error_envelope_nulls_response() {
    let d = classify_error("BigQuery error: Syntax error");
    let env = build_result_envelope(
        "u.q",
        "u.q",
        "proj",
        None,
        None,
        None,
        false,
        2,
        Some(&d),
        Some("Syntax error"),
    );
    assert_eq!(env.get("response"), Some(&Json::Null));
    assert_eq!(at(&env, &["downstreamError", "kind"]), Some(&text("bigquery_error")));
    assert_eq!(env.get("downstreamErrors"), Some(&Json::Array(vec![d.clone()])));
    assert_eq!(env.get("error"), Some(&text("Syntax error")));
}

#[test]
fn estimate_envelope_carries_bytes_cache_and_cost() {
    let schema = vec![object(vec![
        ("name", text("day")),
        ("type", text("DATE")),
        ("mode", text("NULLABLE")),
    ])];
    let env = build_estimate_envelope(
        "rpt",
        "rpt",
        "my-proj",
        Some("analytics"),
        Some(1_572_864),
        Some("0.0089"),
        true,
        &schema,
        42,
    );
    assert_eq!(at(&env, &["request", "dryRun"]), Some(&Json::Bool(true)));
    assert_eq!(at(&env, &["estimate", "totalBytesProcessed"]), Some(&whole(1_572_864)));
    assert_eq!(at(&env, &["estimate", "cacheHit"]), Some(&Json::Bool(true)));
    assert_eq!(
        at(&env, &["estimate", "estimatedCostUsd"]),
        Some(&Json::Number(Number::Float("0.0089".into())))
    );
    assert_eq!(item(at(&env, &["estimate", "schema"]), 0).get("name"), Some(&text("day")));
    assert!(at(&env, &["estimate", "rows"]).is_none());
    assert_eq!(env.get("downstreamError"), Some(&Json::Null));
    let sent: serde_json::Value = serde_json::from_str(&json_text(&env)).unwrap();
    assert_eq!(sent["estimate"]["estimatedCostUsd"].as_f64(), Some(0.0089));
}

#[test]
fn estimate_envelope_omits_cost_without_price() {
    let env = build_estimate_envelope("rpt", "rpt", "proj", None, Some(1024), None, false, &[], 3);
    assert!(at(&env, &["estimate", "estimatedCostUsd"]).is_none());
    assert_eq!(at(&env, &["estimate", "totalBytesProcessed"]), Some(&whole(1024)));
    let sent: serde_json::Value = serde_json::from_str(&json_text(&env)).unwrap();
    assert!(sent["estimate"]["estimatedCostUsd"].is_null());
}

#[test]
fn estimate_schema_matches_envelope_shape() {
    let schema = estimate_envelope_schema();
    let env = build_estimate_envelope(
        "rpt",
        "rpt",
        "proj",
        Some("d"),
        Some(10),
        Some("1.0"),
        false,
        &[],
        1,
    );
    let props = schema.get("properties").expect("properties object");
    for key in keys(&env) {
        assert!(props.get(&key).is_some(), "estimate schema missing key `{key}`");
    }
}

#[test]
fn output_schema_matches_envelope_shape() {
    let schema = result_envelope_schema();
    assert_eq!(schema.get("type"), Some(&text("object")));
    let rows = vec![object(vec![("id", whole(1))])];
    let env = build_result_envelope(
        "u.get",
        "u.get",
        "my-proj",
        Some("analytics"),
        Some(&rows),
        Some(1),
        false,
        7,
        None,
        None,
    );
    let props = schema.get("properties").expect("properties object");
    for key in keys(&env) {
        assert!(props.get(&key).is_some(), "schema missing key `{key}`");
    }
    assert_eq!(keys(props), keys(&env));
    assert_eq!(
        at(&schema, &["properties", "response", "properties", "rows", "items"]),
        Some(&Json::Object(vec![]))
    );
}

#[test]
fn schemas_are_the_documented_documents() {
    let result = "{\"$schema\":\"https://json-schema.org/draft/2020-12/schema\",\"type\":\"object\",\
        \"properties\":{\"toolName\":{\"type\":\"string\"},\"profile\":{\"type\":\"string\"},\
        \"request\":{\"type\":\"object\",\"properties\":{\"project\":{\"type\":\"string\"},\
        \"dataset\":{\"type\":[\"string\",\"null\"]}},\"additionalProperties\":true},\
        \"response\":{\"type\":[\"object\",\"null\"],\"properties\":{\
        \"rows\":{\"type\":[\"array\",\"null\"],\"items\":{}},\
        \"count\":{\"type\":[\"integer\",\"null\"]},\"truncated\":{\"type\":\"boolean\"},\
        \"durationMs\":{\"type\":\"integer\"}},\"additionalProperties\":true},\
        \"truncated\":{\"type\":\"boolean\"},\"downstreamError\":{\"type\":[\"object\",\"null\"]},\
        \"downstreamErrors\":{\"type\":\"array\",\"items\":{}},\
        \"error\":{\"type\":[\"string\",\"null\"]}},\"additionalProperties\":true}";
    let expected: serde_json::Value = serde_json::from_str(result).unwrap();
    let sent: serde_json::Value = serde_json::from_str(&json_text(&result_envelope_schema())).unwrap();
    assert_eq!(sent, expected);

    let sent: serde_json::Value =
        serde_json::from_str(&json_text(&estimate_envelope_schema())).unwrap();
    let estimate = "{\"type\":[\"object\",\"null\"],\"properties\":{\
        \"totalBytesProcessed\":{\"type\":[\"integer\",\"null\"]},\
        \"estimatedCostUsd\":{\"type\":[\"number\",\"null\"]},\"cacheHit\":{\"type\":\"boolean\"},\
        \"schema\":{\"type\":\"array\",\"items\":{}},\"durationMs\":{\"type\":\"integer\"}},\
        \"additionalProperties\":true}";
    let expected: serde_json::Value = serde_json::from_str(estimate).unwrap();
    assert_eq!(sent["properties"]["estimate"], expected);
    assert_eq!(sent["properties"]["request"]["properties"]["dryRun"]["type"], "boolean");
}

#[test]
fn documents_are_sent_in_name_order() {
    let doc = object(vec![
        ("b", Json::Number(Number::NegInt(-1))),
        ("a", Json::Number(Number::Float("0.50".into()))),
        ("c", Json::Array(vec![Json::Null, Json::Bool(false), text("q\"")])),
        ("d", Json::Number(Number::Float("inf".into()))),
        ("a", whole(2)),
    ]);
    assert_eq!(json_text(&doc), "{\"a\":2,\"b\":-1,\"c\":[null,false,\"q\\\"\"],\"d\":null}");
    assert_eq!(json_text(&Json::Number(Number::Float("0.50".into()))), "0.5");
}

#[test]
fn documents_read_back() {
    let doc = parse_json_text("{\"n\":1,\"m\":[-2,0.5,\"x\"],\"o\":{}}").unwrap();
    assert_eq!(doc.get("n"), Some(&whole(1)));
    assert_eq!(parse_json_text(&json_text(&doc)), Some(doc));
    assert_eq!(parse_json_text("nope"), None);
}
