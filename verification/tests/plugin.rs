use bigquery_backend::arguments::{
    arguments_referenced_by_params, extract_argument_idents, params_input_schema, CompiledParam,
};
use bigquery_backend::call::begin_call;
use bigquery_backend::json::Json;
use bigquery_backend::listing::{plan_completion, plan_listing};
use bigquery_backend::plugin::{
    guarded_texts, BackendError, BigQueryBackendPlugin, BigQueryProfile, GuardVerdicts,
};
use bigquery_backend::surface::Surface;
use bigquery_backend::types::{
    BigQueryAuth, BigQueryAuthMode, BigQueryBackendSpec, CompletionConfig, ListQueryConfig,
};

fn text(s: &str) -> Json {
    Json::String(s.to_owned())
}

fn minimal_spec() -> BigQueryBackendSpec {
    let auth = BigQueryAuth {
        mode: BigQueryAuthMode::ServiceAccount,
        credentials_json: "{}".into(),
    };
    let mut spec = BigQueryBackendSpec::with_defaults("my-proj".into(), auth);
    spec.dataset = Some("analytics".into());
    spec.location = Some("EU".into());
    spec.statement = "SELECT 1 AS one".into();
    spec
}

fn template_spec(read_query: &str) -> BigQueryBackendSpec {
    let auth = BigQueryAuth {
        mode: BigQueryAuthMode::default(),
        credentials_json: "{}".into(),
    };
    let mut spec = BigQueryBackendSpec::with_defaults("my-proj".into(), auth);
    spec.surface = Surface::Resource;
    spec.read_query = Some(read_query.into());
    spec.params = vec!["arguments.id".into()];
    spec
}

fn passed(completions: usize) -> GuardVerdicts {
    GuardVerdicts {
        statement: Ok(()),
        read_query: Ok(()),
        list_query: Ok(()),
        completions: (0..completions).map(|_| Ok(())).collect(),
    }
}

fn compiled(spec: &BigQueryBackendSpec) -> Result<Vec<CompiledParam>, String> {
    Ok(spec.params.iter().map(|p| CompiledParam { source: p.clone() }).collect())
}

fn register(
    plugin: &mut BigQueryBackendPlugin,
    name: &str,
    spec: BigQueryBackendSpec,
) -> Result<(), BackendError> {
    let verdicts = passed(spec.variable_completions.len());
    let params = compiled(&spec);
    plugin.register_profile(name, spec, &verdicts, params)
}

fn profile<'a>(plugin: &'a BigQueryBackendPlugin, name: &str) -> &'a BigQueryProfile {
    plugin.profile(name).expect("profile")
}

fn refusal(r: Result<(), BackendError>) -> String {
    match r {
        Err(BackendError::InvalidSpec { message }) => message,
        other => panic!("expected InvalidSpec, got {other:?}"),
    }
}

fn refused(spec: BigQueryBackendSpec) -> String {
    refusal(register(&mut BigQueryBackendPlugin::new(), "x", spec))
}

#[test]
fn kind_is_bigquery() {
    assert_eq!(BigQueryBackendPlugin::new().kind(), "bigquery");
}

#[test]
fn manifest_id() {
    assert_eq!(BigQueryBackendPlugin::new().manifest().id, "dev.mcpg.backend.bigquery");
}

#[test]
fn output_schema_is_object() {
    let schema = BigQueryBackendPlugin::new().output_schema("rpt");
    assert_eq!(schema.get("type"), Some(&text("object")));
}

#[test]
fn input_schema_is_permissive_object_when_unregistered() {
    let schema = BigQueryBackendPlugin::new().input_schema("rpt");
    assert_eq!(schema.get("type"), Some(&text("object")));
    assert_eq!(schema.get("additionalProperties"), Some(&Json::Bool(true)));
}

#[test]
fn extract_argument_idents_finds_names() {
    let got = extract_argument_idents("arguments.user_id + size(arguments.tags)");
    assert_eq!(got, vec!["user_id".to_owned(), "tags".to_owned()]);
    assert!(extract_argument_idents("1 + 2").is_empty());
}

#[test]
fn extract_argument_idents_at_the_edges() {
    assert!(extract_argument_idents("arguments.").is_empty());
    assert!(extract_argument_idents("arguments.-x").is_empty());
    assert_eq!(extract_argument_idents("arguments.arguments.x"), vec!["arguments".to_owned()]);
    assert_eq!(
        extract_argument_idents("arguments.a_1é arguments.a_1"),
        vec!["a_1".to_owned(), "a_1".to_owned()]
    );
    assert_eq!(extract_argument_idents("xarguments.B9"), vec!["B9".to_owned()]);
}

#[test]
fn referenced_names_are_distinct_in_first_seen_order() {
    let params = vec![
        CompiledParam { source: "arguments.b + arguments.a".into() },
        CompiledParam { source: "arguments.a * arguments.c".into() },
    ];
    let names = arguments_referenced_by_params(&params);
    assert_eq!(names, vec!["b".to_owned(), "a".to_owned(), "c".to_owned()]);
    let schema = params_input_schema(&names);
    assert_eq!(schema.get("properties").unwrap().get("c"), Some(&Json::Object(vec![])));
    assert_eq!(schema.get("properties").unwrap().get("d"), None);
}

#[test]
fn input_schema_lists_referenced_params() {
    let mut plugin = BigQueryBackendPlugin::new();
    let mut spec = minimal_spec();
    spec.statement = "SELECT id FROM t WHERE id = ?".into();
    spec.params = vec!["arguments.id".into()];
    register(&mut plugin, "rpt", spec).expect("register");
    let schema = plugin.input_schema("rpt");
    assert_eq!(schema.get("type"), Some(&text("object")));
    assert_eq!(schema.get("additionalProperties"), Some(&Json::Bool(true)));
    assert!(matches!(
        schema.get("properties").and_then(|p| p.get("id")),
        Some(Json::Object(_))
    ));
}

#[test]
fn register_accepts_params() {
    let mut plugin = BigQueryBackendPlugin::new();
    let mut spec = minimal_spec();
    spec.statement = "SELECT id FROM t WHERE id = ? AND p = ?".into();
    spec.params = vec!["arguments.id".into(), "arguments.p".into()];
    register(&mut plugin, "rpt", spec).expect("register");
    assert_eq!(profile(&plugin, "rpt").compiled_params.len(), 2);
}

#[test]
fn register_rejects_bad_cel_param() {
    let mut plugin = BigQueryBackendPlugin::new();
    let mut spec = minimal_spec();
    spec.params = vec!["this is not cel (((".into()];
    let err = plugin
        .register_profile("x", spec, &passed(0), Err("params[0] does not parse".into()))
        .expect_err("bad cel");
    assert!(matches!(err, BackendError::InvalidSpec { .. }));
}

#[test]
fn register_stores_variable_completions() {
    let mut plugin = BigQueryBackendPlugin::new();
    let mut spec = minimal_spec();
    spec.surface = Surface::Resource;
    spec.variable_completions.insert(
        "name".into(),
        CompletionConfig {
            sql: "SELECT name FROM docs WHERE STARTS_WITH(name, ?)".into(),
            max_results: None,
        },
    );
    register(&mut plugin, "r", spec).expect("register");
    assert!(profile(&plugin, "r").variable_completions.get("name").is_some());
}

#[test]
fn register_rejects_completion_without_placeholder() {
    let mut spec = minimal_spec();
    spec.variable_completions.insert(
        "name".into(),
        CompletionConfig { sql: "SELECT name FROM docs".into(), max_results: None },
    );
    let err = register(&mut BigQueryBackendPlugin::new(), "x", spec).expect_err("missing placeholder");
    assert!(matches!(err, BackendError::InvalidSpec { .. }));
}

#[test]
fn register_accepts_minimal_spec() {
    let mut plugin = BigQueryBackendPlugin::new();
    register(&mut plugin, "rpt", minimal_spec()).expect("register");
    let p = profile(&plugin, "rpt");
    assert_eq!(p.project_id, "my-proj");
    assert!(p.read_only);
    assert_eq!(p.statement, "SELECT 1 AS one");
    assert_eq!(p.surface, Surface::Tool);
    assert!(p.surface_uri.is_none());
}

#[test]
fn register_stores_resource_surface_and_uri() {
    let mut plugin = BigQueryBackendPlugin::new();
    let mut spec = minimal_spec();
    spec.surface = Surface::Resource;
    spec.uri = Some("bigquery://docs/all".into());
    register(&mut plugin, "r", spec).expect("register");
    let p = profile(&plugin, "r");
    assert_eq!(p.surface, Surface::Resource);
    assert_eq!(p.surface_uri.as_deref(), Some("bigquery://docs/all"));
}

#[test]
fn register_rejects_uri_on_tool_surface() {
    let mut spec = minimal_spec();
    spec.uri = Some("bigquery://x".into());
    let err = register(&mut BigQueryBackendPlugin::new(), "x", spec).expect_err("uri on tool surface");
    assert!(matches!(err, BackendError::InvalidSpec { .. }));
}

#[test]
fn register_rejects_cred_secret() {
    let mut spec = minimal_spec();
    spec.auth.credentials_json = "cred://x".into();
    let err = register(&mut BigQueryBackendPlugin::new(), "x", spec).expect_err("cred secret");
    assert!(matches!(err, BackendError::InvalidSpec { .. }));
}

#[test]
fn register_rejects_non_select_when_read_only() {
    let mut spec = minimal_spec();
    spec.statement = "DROP TABLE t".into();
    let verdicts = GuardVerdicts { statement: Err("not read-only".into()), ..passed(0) };
    let err = BigQueryBackendPlugin::new()
        .register_profile("x", spec, &verdicts, Ok(vec![]))
        .expect_err("non-select under read_only");
    assert!(matches!(err, BackendError::InvalidSpec { .. }));
}

#[test]
fn register_allows_non_select_when_not_read_only() {
    let mut spec = minimal_spec();
    spec.statement = "CREATE TABLE t (a INT64)".into();
    spec.query.read_only = false;
    let verdicts = GuardVerdicts { statement: Err("not read-only".into()), ..passed(0) };
    BigQueryBackendPlugin::new()
        .register_profile("x", spec, &verdicts, Ok(vec![]))
        .expect("register write under read_only=false");
}

#[test]
fn register_rejects_empty_statement() {
    let mut spec = minimal_spec();
    spec.statement = "   ".into();
    let err = register(&mut BigQueryBackendPlugin::new(), "x", spec).expect_err("empty statement");
    assert!(matches!(err, BackendError::InvalidSpec { .. }));
}

#[test]
fn execute_unknown_profile_is_profile_not_found() {
    let plugin = BigQueryBackendPlugin::new();
    let err = begin_call(&plugin, "missing", &vec![], &[]).expect_err("missing");
    assert!(matches!(err, BackendError::ProfileNotFound { .. }));
}

#[test]
fn list_resources_empty_when_unconfigured() {
    let mut plugin = BigQueryBackendPlugin::new();
    register(&mut plugin, "q", minimal_spec()).expect("register");
    let plan = plan_listing(profile(&plugin, "q"), None).expect("list");
    assert!(plan.is_none());
}

#[test]
fn complete_template_variable_empty_when_unconfigured() {
    let mut plugin = BigQueryBackendPlugin::new();
    register(&mut plugin, "q", minimal_spec()).expect("register");
    assert!(plan_completion(profile(&plugin, "q"), "v", "x").is_none());
}

#[test]
fn register_stores_dry_run_and_price() {
    let mut plugin = BigQueryBackendPlugin::new();
    let mut spec = minimal_spec();
    spec.query.dry_run = true;
    spec.query.price_per_tib_usd = Some(6.25f64.to_bits());
    register(&mut plugin, "est", spec).expect("register");
    let p = profile(&plugin, "est");
    assert!(p.dry_run);
    assert_eq!(p.price_per_tib_usd.map(f64::from_bits), Some(6.25));
}

#[test]
fn output_schema_is_estimate_shape_for_dry_run_binding() {
    let mut plugin = BigQueryBackendPlugin::new();
    register(&mut plugin, "rows", minimal_spec()).expect("register");
    let row_schema = plugin.output_schema("rows");
    assert!(row_schema.get("properties").unwrap().get("response").is_some());
    assert!(row_schema.get("properties").unwrap().get("estimate").is_none());

    let mut spec = minimal_spec();
    spec.query.dry_run = true;
    register(&mut plugin, "est", spec).expect("register");
    let est_schema = plugin.output_schema("est");
    let estimate = est_schema.get("properties").unwrap().get("estimate");
    assert!(estimate.is_some());
    assert!(estimate
        .and_then(|e| e.get("properties"))
        .and_then(|p| p.get("totalBytesProcessed"))
        .is_some());
}

#[test]
fn register_stores_list_query() {
    let mut plugin = BigQueryBackendPlugin::new();
    let mut spec = minimal_spec();
    spec.surface = Surface::Resource;
    spec.list_query = Some(ListQueryConfig { sql: "SELECT uri FROM docs".into(), page_size: 10 });
    register(&mut plugin, "r", spec).expect("register");
    assert!(profile(&plugin, "r").list_query.is_some());
}

#[test]
fn register_rejects_empty_list_query_sql() {
    let mut spec = minimal_spec();
    spec.list_query = Some(ListQueryConfig { sql: "  ".into(), page_size: 100 });
    let err = register(&mut BigQueryBackendPlugin::new(), "x", spec).expect_err("empty list sql");
    assert!(matches!(err, BackendError::InvalidSpec { .. }));
}

#[test]
fn register_resource_template_read_query() {
    let mut plugin = BigQueryBackendPlugin::new();
    register(&mut plugin, "rt", template_spec("SELECT * FROM dataset.orders WHERE id = ?"))
        .expect("read_query registers without a statement");
    let p = profile(&plugin, "rt");
    assert_eq!(p.read_query.as_deref(), Some("SELECT * FROM dataset.orders WHERE id = ?"));
    assert!(p.statement.is_empty());
    assert_eq!(p.surface, Surface::Resource);
    assert_eq!(p.compiled_params.len(), 1);
}

#[test]
fn register_rejects_read_query_on_tool_surface() {
    let mut spec = minimal_spec();
    spec.read_query = Some("SELECT * FROM t WHERE id = ?".into());
    let message = refused(spec);
    assert!(message.contains("read_query"), "{message}");
    assert!(message.contains("surface: resource"), "{message}");
}

#[test]
fn register_rejects_non_read_only_read_query() {
    let spec = template_spec("DELETE FROM dataset.orders WHERE id = ?");
    let verdicts = GuardVerdicts { read_query: Err("not read-only".into()), ..passed(0) };
    let params = compiled(&spec);
    let err = BigQueryBackendPlugin::new()
        .register_profile("x", spec, &verdicts, params)
        .expect_err("non-read-only read_query");
    assert!(matches!(err, BackendError::InvalidSpec { .. }));
}

#[test]
fn register_rejects_bare_cred_read_query() {
    let mut spec = template_spec("SELECT * FROM t WHERE k = 'cred://aws/x#id'");
    spec.params = vec![];
    let err = register(&mut BigQueryBackendPlugin::new(), "x", spec).expect_err("bare cred in read_query");
    assert!(matches!(err, BackendError::InvalidSpec { .. }));
}

#[test]
fn refusals_name_the_first_fault() {
    let mut spec = minimal_spec();
    spec.project_id = " ".into();
    spec.statement = "".into();
    assert_eq!(refused(spec), "project_id must not be empty");

    let mut spec = minimal_spec();
    spec.statement = "".into();
    spec.query.timeout_ms = 0;
    assert_eq!(
        refused(spec),
        "statement must not be empty (or set `read_query` for a resource_template read binding)"
    );

    let mut spec = minimal_spec();
    spec.query.timeout_ms = 0;
    spec.query.max_rows = 0;
    assert_eq!(refused(spec), "query.timeout_ms must be greater than 0");

    let mut spec = minimal_spec();
    spec.query.max_rows = 0;
    assert_eq!(refused(spec), "query.max_rows must be greater than 0");

    let mut spec = minimal_spec();
    spec.auth.credentials_json = "cred://x".into();
    assert_eq!(
        refused(spec),
        "auth.credentials_json must not be a cred:// URI — per-caller credentials are unsupported (the connection is one service identity); use ${env.X} / vault:// (resolved at config load) instead"
    );

    let mut spec = minimal_spec();
    spec.auth.credentials_json = "\n".into();
    assert_eq!(refused(spec), "auth.credentials_json must not be empty for mode service_account");

    let mut spec = minimal_spec();
    spec.surface = Surface::Prompt;
    spec.uri = Some("u".into());
    assert_eq!(
        refused(spec),
        "`uri` is only valid with `surface: resource` (this binding is `surface: prompt`)"
    );

    let mut spec = minimal_spec();
    spec.surface = Surface::Resource;
    spec.uri = Some(" ".into());
    assert_eq!(refused(spec), "`uri` must not be empty");

    let mut spec = minimal_spec();
    spec.read_query = Some(" ".into());
    assert_eq!(refused(spec), "`read_query` must not be empty");

    let mut spec = minimal_spec();
    spec.read_query = Some("SELECT 1".into());
    assert_eq!(
        refused(spec),
        "`read_query` is only valid with `surface: resource` (this binding is `surface: tool`)"
    );

    assert_eq!(
        refused(template_spec("SELECT 'cred://x'")),
        "`read_query` must not contain a bare cred:// URI — use ${cred://…} / ${env.X} (resolved at config load)"
    );

    let mut spec = minimal_spec();
    spec.list_query = Some(ListQueryConfig { sql: "SELECT 1".into(), page_size: 1001 });
    assert_eq!(refused(spec), "list_query.page_size (1001) must be in 1..=1000");
}

#[test]
fn guard_verdicts_are_passed_on() {
    let verdict = || Err("the guard says no".to_owned());
    let refuse = |spec: BigQueryBackendSpec, verdicts: GuardVerdicts| {
        refusal(BigQueryBackendPlugin::new().register_profile("x", spec, &verdicts, Ok(vec![])))
    };
    assert_eq!(
        refuse(minimal_spec(), GuardVerdicts { statement: verdict(), ..passed(0) }),
        "the guard says no"
    );
    let mut spec = minimal_spec();
    spec.list_query = Some(ListQueryConfig { sql: "DROP TABLE t".into(), page_size: 1 });
    assert_eq!(
        refuse(spec, GuardVerdicts { list_query: verdict(), ..passed(0) }),
        "the guard says no"
    );
    let mut spec = minimal_spec();
    for name in ["b", "a"] {
        spec.variable_completions.insert(
            name.into(),
            CompletionConfig { sql: format!("{name} ?"), max_results: None },
        );
    }
    assert_eq!(
        refuse(spec, GuardVerdicts { completions: vec![Ok(()), verdict()], ..passed(0) }),
        "the guard says no"
    );
    // A statement that is left out is not guarded.
    let mut plugin = BigQueryBackendPlugin::new();
    let spec = template_spec("SELECT 1");
    let verdicts = GuardVerdicts { statement: verdict(), ..passed(0) };
    assert!(plugin.register_profile("x", spec, &verdicts, Ok(vec![])).is_ok());
}

#[test]
fn parameters_that_do_not_compile_refuse_the_spec() {
    let r = BigQueryBackendPlugin::new().register_profile(
        "x",
        minimal_spec(),
        &passed(0),
        Err("params[0]: unexpected token".into()),
    );
    assert_eq!(refusal(r), "params[0]: unexpected token");
}

#[test]
fn registering_replaces_one_name_and_keeps_the_others() {
    let mut plugin = BigQueryBackendPlugin::default();
    register(&mut plugin, "a", minimal_spec()).expect("register");
    register(&mut plugin, "b", minimal_spec()).expect("register");
    let mut spec = minimal_spec();
    spec.statement = "SELECT 2".into();
    register(&mut plugin, "a", spec).expect("register");
    assert_eq!(profile(&plugin, "a").statement, "SELECT 2");
    assert_eq!(profile(&plugin, "b").statement, "SELECT 1 AS one");

    let mut spec = minimal_spec();
    spec.project_id = "".into();
    assert!(register(&mut plugin, "b", spec).is_err());
    assert_eq!(profile(&plugin, "b").project_id, "my-proj");
    assert!(matches!(
        plugin.profile("c"),
        Err(BackendError::ProfileNotFound { backend_name }) if backend_name == "c"
    ));
}

#[test]
fn audit_metadata_names_the_transport() {
    let metadata = BigQueryBackendPlugin::new().audit_metadata();
    assert_eq!(metadata.get("bigquery.transport"), Some(&text("plugin")));
}

#[test]
fn guard_looks_at_the_texts_of_the_spec() {
    let mut spec = minimal_spec();
    let texts = guarded_texts(&spec);
    assert_eq!(texts.statement.as_deref(), Some("SELECT 1 AS one"));
    assert_eq!(texts.read_query, None);
    assert_eq!(texts.list_query, None);
    assert!(texts.completions.is_empty());

    spec.statement = " \n".into();
    spec.read_query = Some("SELECT 2".into());
    spec.list_query = Some(ListQueryConfig { sql: "SELECT 3".into(), page_size: 1 });
    for name in ["b", "a"] {
        spec.variable_completions.insert(
            name.into(),
            CompletionConfig { sql: format!("SELECT {name} ?"), max_results: None },
        );
    }
    let texts = guarded_texts(&spec);
    assert_eq!(texts.statement, None);
    assert_eq!(texts.read_query.as_deref(), Some("SELECT 2"));
    assert_eq!(texts.list_query.as_deref(), Some("SELECT 3"));
    assert_eq!(texts.completions, vec!["SELECT a ?", "SELECT b ?"]);
}

#[test]
fn joined_expressions_join_their_names() {
    for (a, b) in [
        ("arguments.x", "arguments.y + arguments.x"),
        ("arguments.", "x"),
        ("", "arguments.z"),
        ("argu", "ments.q"),
    ] {
        let mut expected = extract_argument_idents(a);
        expected.extend(extract_argument_idents(b));
        assert_eq!(extract_argument_idents(&format!("{a} {b}")), expected);
    }
}
