use base64::Engine;
use bigquery_backend::bigquery::{
    client_failure_text, dry_run_request, estimate_from_response, marshal_rows, marshal_scalar,
    marshal_value, query_request, settle_dry_run, settle_query, ClientStep, DatasetReference,
    JobSettings, QueryParameter, QueryResponse,
};
use bigquery_backend::json::{Json, Number};
use bigquery_backend::table::{
    Cell, CellValue, TableFieldMode, TableFieldSchema, TableFieldType, TableSchema, Tuple,
};

fn field(name: &str, ty: TableFieldType) -> TableFieldSchema {
    TableFieldSchema {
        name: name.to_owned(),
        data_type: ty,
        mode: Some(TableFieldMode::Nullable),
        fields: None,
    }
}

fn cell_str(s: &str) -> Cell {
    Cell { v: CellValue::String(s.to_owned()) }
}

fn cell_null() -> Cell {
    Cell { v: CellValue::Null }
}

fn text(s: &str) -> Json {
    Json::String(s.to_owned())
}

fn whole(n: u64) -> Json {
    Json::Number(Number::PosInt(n))
}

fn double(s: &str) -> Json {
    Json::Number(Number::Float(s.to_owned()))
}

fn object(members: Vec<(&str, Json)>) -> Json {
    Json::Object(members.into_iter().map(|(k, v)| (k.to_owned(), v)).collect())
}

fn no_reply() -> QueryResponse {
    QueryResponse {
        schema: None,
        rows: None,
        total_rows: None,
        total_bytes_processed: None,
        job_complete: true,
        cache_hit: None,
    }
}

#[test]
fn marshal_typed_row_with_null() {
    let schema = TableSchema {
        fields: vec![
            field("id", TableFieldType::Integer),
            field("name", TableFieldType::String),
            field("active", TableFieldType::Boolean),
            field("ratio", TableFieldType::Float),
        ],
    };
    let rows = vec![
        Tuple {
            f: vec![cell_str("1"), cell_str("alice"), cell_str("true"), cell_str("0.5")],
        },
        Tuple {
            f: vec![cell_str("2"), cell_null(), cell_str("false"), cell_str("1.25")],
        },
    ];
    let out = marshal_rows(&schema, &rows, 2, 10_000).unwrap();
    assert_eq!(out.row_count, 2);
    assert!(!out.truncated);
    assert_eq!(
        out.rows[0],
        object(vec![
            ("id", whole(1)),
            ("name", text("alice")),
            ("active", Json::Bool(true)),
            ("ratio", double("0.5")),
        ])
    );
    assert_eq!(out.rows[1].get("id"), Some(&whole(2)));
    assert!(out.rows[1].get("name").is_some());
    assert_eq!(out.rows[1].get("name"), Some(&Json::Null));
    assert_eq!(out.rows[1].get("active"), Some(&Json::Bool(false)));
    assert_eq!(out.rows[1].get("ratio"), Some(&double("1.25")));
}

#[test]
fn marshal_big_int_and_numeric_stay_strings() {
    let schema = TableSchema {
        fields: vec![
            field("huge", TableFieldType::Int64),
            field("amount", TableFieldType::Numeric),
        ],
    };
    let rows = vec![Tuple {
        f: vec![cell_str("99999999999999999999999999"), cell_str("12345.6789")],
    }];
    let out = marshal_rows(&schema, &rows, 1, 10).unwrap();
    assert_eq!(out.rows[0].get("huge"), Some(&text("99999999999999999999999999")));
    assert_eq!(out.rows[0].get("amount"), Some(&text("12345.6789")));
}

#[test]
fn marshal_bytes_are_base64() {
    let schema = TableSchema { fields: vec![field("blob", TableFieldType::Bytes)] };
    let encoded = base64::engine::general_purpose::STANDARD.encode(b"hello");
    let rows = vec![Tuple { f: vec![cell_str(&encoded)] }];
    let out = marshal_rows(&schema, &rows, 1, 10).unwrap();
    assert_eq!(out.rows[0].get("blob"), Some(&text(&encoded)));
}

#[test]
fn marshal_repeated_field_is_array() {
    let mut tags = field("tags", TableFieldType::String);
    tags.mode = Some(TableFieldMode::Repeated);
    let schema = TableSchema { fields: vec![tags] };
    let rows = vec![Tuple {
        f: vec![Cell { v: CellValue::Array(vec![cell_str("a"), cell_str("b")]) }],
    }];
    let out = marshal_rows(&schema, &rows, 1, 10).unwrap();
    assert_eq!(
        out.rows[0].get("tags"),
        Some(&Json::Array(vec![text("a"), text("b")]))
    );
}

#[test]
fn marshal_record_field_is_nested_object() {
    let mut addr = field("addr", TableFieldType::Record);
    addr.fields = Some(vec![
        field("city", TableFieldType::String),
        field("zip", TableFieldType::Integer),
    ]);
    let schema = TableSchema { fields: vec![addr] };
    let rows = vec![Tuple {
        f: vec![Cell {
            v: CellValue::Struct(Tuple { f: vec![cell_str("Berlin"), cell_str("10115")] }),
        }],
    }];
    let out = marshal_rows(&schema, &rows, 1, 10).unwrap();
    assert_eq!(
        out.rows[0].get("addr"),
        Some(&object(vec![("city", text("Berlin")), ("zip", whole(10115))]))
    );
}

#[test]
fn marshal_json_field_is_parsed() {
    let schema = TableSchema { fields: vec![field("doc", TableFieldType::Json)] };
    let rows = vec![Tuple { f: vec![cell_str("{\"a\":1}")] }];
    let out = marshal_rows(&schema, &rows, 1, 10).unwrap();
    assert_eq!(out.rows[0].get("doc"), Some(&object(vec![("a", whole(1))])));
}

#[test]
fn marshal_caps_and_flags_truncated() {
    let schema = TableSchema { fields: vec![field("id", TableFieldType::Integer)] };
    let rows: Vec<Tuple> = (1..=5).map(|n| Tuple { f: vec![cell_str(&format!("{n}"))] }).collect();
    let out = marshal_rows(&schema, &rows, 5, 2).unwrap();
    assert_eq!(out.row_count, 2);
    assert!(out.truncated);
    assert_eq!(out.rows[0].get("id"), Some(&whole(1)));
    assert_eq!(out.rows[1].get("id"), Some(&whole(2)));
}

#[test]
fn marshal_truncated_when_server_total_exceeds_page() {
    let schema = TableSchema { fields: vec![field("id", TableFieldType::Integer)] };
    let rows = vec![Tuple { f: vec![cell_str("1")] }];
    let out = marshal_rows(&schema, &rows, 100, 10).unwrap();
    assert_eq!(out.row_count, 1);
    assert!(out.truncated);
}

#[test]
fn larger_cap_keeps_the_same_first_rows() {
    let schema = TableSchema { fields: vec![field("id", TableFieldType::Integer)] };
    let rows: Vec<Tuple> = (1..=5).map(|n| Tuple { f: vec![cell_str(&format!("{n}"))] }).collect();
    let few = marshal_rows(&schema, &rows, 5, 2).unwrap();
    let all = marshal_rows(&schema, &rows, 5, 9).unwrap();
    assert_eq!(few.rows[..], all.rows[..2]);
    assert_eq!(all.row_count, 5);
    assert!(!all.truncated);
}

#[test]
fn integer_cells_keep_their_value() {
    let t = TableFieldType::Integer;
    assert_eq!(marshal_scalar(t, "0"), whole(0));
    assert_eq!(marshal_scalar(t, "-7"), Json::Number(Number::NegInt(-7)));
    assert_eq!(marshal_scalar(t, "+7"), whole(7));
    assert_eq!(marshal_scalar(t, "9223372036854775807"), whole(9223372036854775807));
    assert_eq!(
        marshal_scalar(t, "-9223372036854775808"),
        Json::Number(Number::NegInt(i64::MIN))
    );
    assert_eq!(marshal_scalar(t, "9223372036854775808"), text("9223372036854775808"));
    assert_eq!(marshal_scalar(t, "-9223372036854775809"), text("-9223372036854775809"));
    assert_eq!(marshal_scalar(t, "twelve"), text("twelve"));
    assert_eq!(marshal_scalar(t, ""), text(""));
    assert_eq!(marshal_scalar(t, "-"), text("-"));
}

#[test]
fn float_cells_are_numbers_or_texts() {
    let t = TableFieldType::Float64;
    assert_eq!(marshal_scalar(t, "1e3"), double("1000.0"));
    assert_eq!(marshal_scalar(t, "-0.250"), double("-0.25"));
    assert_eq!(marshal_scalar(t, "NaN"), text("NaN"));
    assert_eq!(marshal_scalar(t, "Infinity"), text("Infinity"));
    assert_eq!(marshal_scalar(t, "-inf"), text("-inf"));
    assert_eq!(marshal_scalar(t, "half"), text("half"));
}

#[test]
fn boolean_cells_take_two_words() {
    assert_eq!(marshal_scalar(TableFieldType::Bool, "true"), Json::Bool(true));
    assert_eq!(marshal_scalar(TableFieldType::Boolean, "false"), Json::Bool(false));
    assert_eq!(marshal_scalar(TableFieldType::Bool, "TRUE"), text("TRUE"));
}

#[test]
fn bytes_cells_keep_their_text() {
    for raw in ["aGVsbG8=", "", "not base64!", "aGVsbG8"] {
        assert_eq!(marshal_scalar(TableFieldType::Bytes, raw), text(raw));
    }
}

#[test]
fn json_cells_embed_or_keep_their_text() {
    let t = TableFieldType::Json;
    assert_eq!(marshal_scalar(t, "[1, -2, 0.5, null, \"x\", true]"), Json::Array(vec![
        whole(1),
        Json::Number(Number::NegInt(-2)),
        double("0.5"),
        Json::Null,
        text("x"),
        Json::Bool(true),
    ]));
    assert_eq!(marshal_scalar(t, "{broken"), text("{broken"));
    assert_eq!(marshal_scalar(t, ""), text(""));
}

#[test]
fn textual_types_keep_their_text() {
    for t in [
        TableFieldType::String,
        TableFieldType::Numeric,
        TableFieldType::Bignumeric,
        TableFieldType::Decimal,
        TableFieldType::Bigdecimal,
        TableFieldType::Timestamp,
        TableFieldType::Date,
        TableFieldType::Time,
        TableFieldType::Datetime,
        TableFieldType::Interval,
        TableFieldType::Record,
        TableFieldType::Struct,
    ] {
        assert_eq!(marshal_scalar(t, "0012.50"), text("0012.50"));
    }
}

#[test]
fn repeated_column_without_array_is_empty_array() {
    let mut tags = field("tags", TableFieldType::String);
    tags.mode = Some(TableFieldMode::Repeated);
    assert_eq!(marshal_value(&tags, &CellValue::Null), Json::Array(vec![]));
    assert_eq!(
        marshal_value(&tags, &CellValue::String("x".into())),
        Json::Array(vec![])
    );
}

#[test]
fn bare_array_on_plain_column_passes_through() {
    let n = field("n", TableFieldType::Integer);
    assert_eq!(
        marshal_value(&n, &CellValue::Array(vec![cell_str("1"), cell_null()])),
        Json::Array(vec![whole(1), Json::Null])
    );
}

#[test]
fn record_without_nested_columns_is_empty_object() {
    let r = field("r", TableFieldType::Record);
    let v = CellValue::Struct(Tuple { f: vec![cell_str("1")] });
    assert_eq!(marshal_value(&r, &v), Json::Object(vec![]));
}

#[test]
fn rows_follow_column_order_and_shorter_side() {
    let schema = TableSchema {
        fields: vec![
            field("z", TableFieldType::Integer),
            field("a", TableFieldType::Integer),
            field("m", TableFieldType::Integer),
        ],
    };
    let rows = vec![Tuple { f: vec![cell_str("1"), cell_str("2")] }];
    let out = marshal_rows(&schema, &rows, 1, 10).unwrap();
    assert_eq!(out.rows[0], object(vec![("z", whole(1)), ("a", whole(2))]));
}

#[test]
fn columns_that_share_a_name_give_one_member() {
    let schema = TableSchema {
        fields: vec![field("a", TableFieldType::Integer), field("a", TableFieldType::Integer)],
    };
    let rows = vec![Tuple { f: vec![cell_str("1"), cell_str("2")] }];
    let out = marshal_rows(&schema, &rows, 1, 10).unwrap();
    assert_eq!(out.rows[0], object(vec![("a", whole(2))]));
}

#[test]
fn estimate_from_dry_run_response_carries_bytes_cache_and_schema() {
    let response = QueryResponse {
        schema: Some(TableSchema {
            fields: vec![
                field("day", TableFieldType::Date),
                field("signups", TableFieldType::Integer),
            ],
        }),
        total_bytes_processed: Some(1_572_864),
        cache_hit: Some(true),
        ..no_reply()
    };
    let est = estimate_from_response(&response);
    assert_eq!(est.total_bytes_processed, Some(1_572_864));
    assert!(est.cache_hit);
    assert_eq!(est.schema.len(), 2);
    assert_eq!(est.schema[0].get("name"), Some(&text("day")));
    assert_eq!(est.schema[0].get("type"), Some(&text("DATE")));
    assert_eq!(est.schema[1].get("name"), Some(&text("signups")));
}

#[test]
fn estimate_tolerates_missing_bytes_and_cache() {
    let est = estimate_from_response(&no_reply());
    assert_eq!(est.total_bytes_processed, None);
    assert!(!est.cache_hit);
    assert!(est.schema.is_empty());
}

#[test]
fn estimate_columns_have_name_type_and_mode() {
    let mut required = field("a", TableFieldType::Int64);
    required.mode = Some(TableFieldMode::Required);
    let mut repeated = field("b", TableFieldType::Bignumeric);
    repeated.mode = Some(TableFieldMode::Repeated);
    let mut plain = field("c", TableFieldType::Struct);
    plain.mode = None;
    let est = estimate_from_response(&QueryResponse {
        schema: Some(TableSchema { fields: vec![required, repeated, plain] }),
        total_bytes_processed: Some(-1),
        ..no_reply()
    });
    assert_eq!(est.total_bytes_processed, None);
    assert_eq!(
        est.schema[0],
        object(vec![("name", text("a")), ("type", text("INT64")), ("mode", text("REQUIRED"))])
    );
    assert_eq!(
        est.schema[1],
        object(vec![
            ("name", text("b")),
            ("type", text("BIGNUMERIC")),
            ("mode", text("REPEATED"))
        ])
    );
    assert_eq!(
        est.schema[2],
        object(vec![("name", text("c")), ("type", text("STRUCT")), ("mode", text("NULLABLE"))])
    );
}

#[test]
fn failed_query_says_so() {
    assert_eq!(
        settle_query(Err("boom".into()), 10).unwrap_err(),
        "BigQuery query failed: boom"
    );
    let waiting = QueryResponse { job_complete: false, ..no_reply() };
    assert_eq!(
        settle_query(Ok(waiting), 10).unwrap_err(),
        "BigQuery query timed out: job did not complete"
    );
    assert_eq!(
        settle_dry_run(Err("boom".into())).unwrap_err(),
        "BigQuery dry run failed: boom"
    );
}

#[test]
fn query_reply_counts_rows() {
    let reply = |total: Option<i64>| QueryResponse {
        schema: Some(TableSchema { fields: vec![field("id", TableFieldType::Integer)] }),
        rows: Some(vec![Tuple { f: vec![cell_str("1")] }]),
        total_rows: total,
        ..no_reply()
    };
    assert!(!settle_query(Ok(reply(None)), 10).unwrap().truncated);
    assert!(!settle_query(Ok(reply(Some(-5))), 10).unwrap().truncated);
    assert!(settle_query(Ok(reply(Some(2))), 10).unwrap().truncated);
    let out = settle_query(Ok(no_reply()), 10).unwrap();
    assert_eq!(out.row_count, 0);
    assert!(!out.truncated);
}

fn settings() -> JobSettings<'static> {
    JobSettings {
        project_id: "proj",
        dataset: Some("d"),
        location: None,
        use_legacy_sql: false,
        maximum_bytes_billed: Some(u64::MAX),
        timeout_ms: 5000,
    }
}

#[test]
fn requests_carry_statement_settings_and_parameters() {
    let parameter = || QueryParameter {
        parameter_type: "STRING".into(),
        value: Some("1 OR 1=1; DROP TABLE orders".into()),
    };
    let run = query_request(&settings(), "SELECT ?", 7, vec![parameter()]);
    assert_eq!(run.query, "SELECT ?");
    assert_eq!(run.max_results, Some(7));
    assert_eq!(run.timeout_ms, Some(5000));
    assert_eq!(run.maximum_bytes_billed, Some(i64::MAX));
    assert_eq!(run.location, "");
    assert_eq!(
        run.default_dataset,
        Some(DatasetReference { project_id: "proj".into(), dataset_id: "d".into() })
    );
    assert_eq!(run.dry_run, None);
    assert_eq!(run.parameter_mode.as_deref(), Some("POSITIONAL"));
    assert_eq!(run.query_parameters, vec![parameter()]);

    let plan = dry_run_request(&settings(), "SELECT 1", vec![]);
    assert_eq!(plan.query, "SELECT 1");
    assert_eq!(plan.max_results, None);
    assert_eq!(plan.dry_run, Some(true));
    assert_eq!(plan.parameter_mode, None);
}

#[test]
fn client_failures_name_the_step() {
    assert_eq!(
        client_failure_text(ClientStep::Credentials, "x"),
        "BigQuery credentials parse failed: x"
    );
    assert_eq!(client_failure_text(ClientStep::Auth, "x"), "BigQuery client auth failed: x");
    assert_eq!(client_failure_text(ClientStep::Init, "x"), "BigQuery client init failed: x");
}
