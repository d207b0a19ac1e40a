use bigquery_backend::keyed::NameTable;
use bigquery_backend::surface::Surface;
use bigquery_backend::types::{
    default_list_page_size, validate_completion, validate_list_query, BigQueryAuth,
    BigQueryAuthMode, BigQueryBackendSpec, CompletionConfig, ListQueryConfig,
};

fn minimal() -> BigQueryBackendSpec {
    let auth = BigQueryAuth { mode: BigQueryAuthMode::default(), credentials_json: "{}".into() };
    let mut spec = BigQueryBackendSpec::with_defaults("my-proj".into(), auth);
    spec.statement = "SELECT 1 AS one".into();
    spec
}

#[test]
fn auth_mode_defaults_to_service_account() {
    assert_eq!(BigQueryAuthMode::default(), BigQueryAuthMode::ServiceAccount);
}

#[test]
fn auth_mode_has_its_word() {
    assert_eq!(BigQueryAuthMode::ServiceAccount.as_str(), "service_account");
}

#[test]
fn spec_applies_query_defaults_when_omitted() {
    let spec = minimal();
    assert_eq!(spec.auth.mode, BigQueryAuthMode::ServiceAccount);
    assert!(!spec.query.use_legacy_sql);
    assert!(spec.query.read_only);
    assert_eq!(spec.query.timeout_ms, 60_000);
    assert_eq!(spec.query.max_rows, 10_000);
    assert!(spec.query.maximum_bytes_billed.is_none());
}

#[test]
fn spec_params_default_empty() {
    assert!(minimal().params.is_empty());
}

#[test]
fn read_query_defaults_to_none() {
    assert!(minimal().read_query.is_none());
}

#[test]
fn other_spec_fields_have_defaults() {
    let spec = minimal();
    assert!(!spec.query.dry_run);
    assert!(spec.query.price_per_tib_usd.is_none());
    assert!(spec.dataset.is_none());
    assert!(spec.location.is_none());
    assert_eq!(spec.surface, Surface::Tool);
    assert!(spec.uri.is_none());
    assert!(spec.list_query.is_none());
    assert_eq!(spec.variable_completions.len(), 0);
    assert_eq!(default_list_page_size(), 100);
}

#[test]
fn validate_completion_requires_placeholder() {
    let mut cc = CompletionConfig {
        sql: "SELECT name FROM t WHERE STARTS_WITH(name, ?)".into(),
        max_results: None,
    };
    assert!(validate_completion("name", &cc).is_ok());
    cc.sql = "SELECT name FROM t".into();
    assert!(validate_completion("name", &cc).is_err());
    cc.sql = "   ".into();
    assert!(validate_completion("name", &cc).is_err());
}

#[test]
fn completion_refusals_name_the_variable() {
    let blank = CompletionConfig { sql: " \t".into(), max_results: None };
    assert_eq!(
        validate_completion("repo", &blank),
        Err("variable_completions.repo.sql must not be empty".to_owned())
    );
    let none = CompletionConfig { sql: "SELECT 1".into(), max_results: Some(3) };
    assert_eq!(
        validate_completion("repo", &none),
        Err("variable_completions.repo.sql must reference the `?` placeholder (bound to the typed prefix)"
            .to_owned())
    );
    let two = CompletionConfig { sql: "SELECT ? + ?".into(), max_results: None };
    assert!(validate_completion("repo", &two).is_err());
}

#[test]
fn validate_list_query_enforces_bounds() {
    let mut cfg = ListQueryConfig {
        sql: "SELECT uri FROM docs".into(),
        page_size: 100,
    };
    assert!(validate_list_query(&cfg).is_ok());
    cfg.page_size = 2000;
    assert!(validate_list_query(&cfg).is_err());
    cfg.page_size = 100;
    cfg.sql = "".into();
    assert!(validate_list_query(&cfg).is_err());
}

#[test]
fn list_query_refusals_say_why() {
    let mut cfg = ListQueryConfig { sql: "SELECT uri FROM docs".into(), page_size: 0 };
    assert_eq!(
        validate_list_query(&cfg),
        Err("list_query.page_size (0) must be in 1..=1000".to_owned())
    );
    cfg.page_size = 1001;
    assert_eq!(
        validate_list_query(&cfg),
        Err("list_query.page_size (1001) must be in 1..=1000".to_owned())
    );
    cfg.page_size = 1000;
    assert!(validate_list_query(&cfg).is_ok());
    cfg.page_size = 1;
    assert!(validate_list_query(&cfg).is_ok());
    cfg.sql = "\u{3000}\n".into();
    assert_eq!(
        validate_list_query(&cfg),
        Err("list_query.sql must not be empty".to_owned())
    );
}

#[test]
fn name_table_keeps_names_in_order() {
    let mut table: NameTable<u32> = NameTable::new();
    table.insert("b".into(), 1);
    table.insert("ab".into(), 2);
    table.insert("a".into(), 3);
    table.insert("b".into(), 4);
    assert_eq!(table.len(), 3);
    assert_eq!(table.name_at(0), "a");
    assert_eq!(table.name_at(1), "ab");
    assert_eq!(table.name_at(2), "b");
    assert_eq!(table.get("b"), Some(&4));
    assert_eq!(table.get("ab"), Some(&2));
    assert_eq!(table.get("c"), None);
    assert_eq!(*table.value_at(0), 3);
}
