//! What a spec is refused for, in which words, and what a registered one keeps.

use vstd::prelude::*;

use crate::arguments::CompiledParam;
use crate::decimal::decimal;
use crate::keyed::{ascending, law_stored_then_lookup, lookup, stored};
use crate::laws::texts::{law_absent_is_counted_zero, law_counts_add_up};
use crate::plugin::{
    are_guarded, completions_fault, is_sound, law_registered_iff_acceptable, profile_of,
    registered, registration_fault, BackendError, BigQueryProfile, GuardVerdicts, GuardedTexts,
};
use crate::surface::Surface;
use crate::text::{begins_with, is_blank, occurs_in};
use crate::types::{
    completion_fault, list_query_fault, BigQueryBackendSpec, CompletionConfig, ListQueryConfig,
};

verus! {

/// The spec has a statement or a read statement to run.
pub open spec fn has_a_statement(spec: BigQueryBackendSpec) -> bool {
    !is_blank(spec.statement@) || (spec.read_query is Some && !is_blank(spec.read_query->0@))
}

/// The project, the statements and the bounds of the spec are usable.
pub open spec fn usable_bounds(spec: BigQueryBackendSpec) -> bool {
    &&& !is_blank(spec.project_id@)
    &&& has_a_statement(spec)
    &&& spec.query.timeout_ms > 0
    &&& spec.query.max_rows > 0
}

/// The key of the spec is there and is no per-caller reference.
pub open spec fn usable_key(spec: BigQueryBackendSpec) -> bool {
    !begins_with(spec.auth.credentials_json@, "cred://"@) && !is_blank(spec.auth.credentials_json@)
}

/// The guard, where it is on, lets the statement pass that is there.
pub open spec fn statement_passes(spec: BigQueryBackendSpec, verdicts: GuardVerdicts) -> bool {
    spec.query.read_only && !is_blank(spec.statement@) ==> verdicts.statement is Ok
}

/// The URI, where there is one, stands on the resource surface and is not blank.
pub open spec fn usable_uri(spec: BigQueryBackendSpec) -> bool {
    spec.uri is Some ==> spec.surface == Surface::Resource && !is_blank(spec.uri->0@)
}

/// The read statement, where there is one, stands on the resource surface, is not
/// blank, holds no credential reference, and passes the guard where it is on.
pub open spec fn usable_read_query(spec: BigQueryBackendSpec, verdicts: GuardVerdicts) -> bool {
    spec.read_query is Some ==> {
        &&& !is_blank(spec.read_query->0@)
        &&& spec.surface == Surface::Resource
        &&& !occurs_in(spec.read_query->0@, "cred://"@)
        &&& spec.query.read_only ==> verdicts.read_query is Ok
    }
}

/// A fault of the project, the statement or the bounds is reported before any
/// other, in this order.
pub proof fn law_bounds_are_looked_at_first(
    spec: BigQueryBackendSpec,
    verdicts: GuardVerdicts,
    compiled: Result<Vec<CompiledParam>, String>,
)
    ensures
        ({
            let fault = registration_fault(spec, verdicts, compiled);
            &&& is_blank(spec.project_id@) ==> fault == Some("project_id must not be empty"@)
            &&& !is_blank(spec.project_id@) && !has_a_statement(spec) ==> fault == Some(
                "statement must not be empty (or set `read_query` for a resource_template read binding)"@,
            )
            &&& !is_blank(spec.project_id@) && has_a_statement(spec) && spec.query.timeout_ms == 0
                ==> fault == Some("query.timeout_ms must be greater than 0"@)
            &&& !is_blank(spec.project_id@) && has_a_statement(spec) && spec.query.timeout_ms > 0
                && spec.query.max_rows == 0 ==> fault == Some(
                "query.max_rows must be greater than 0"@,
            )
        }),
{
}

/// Behind the bounds, a per-caller key is refused, then a blank one, and then a
/// statement that the guard refuses, in the guard's own words.
pub proof fn law_key_and_statement_are_looked_at_next(
    spec: BigQueryBackendSpec,
    verdicts: GuardVerdicts,
    compiled: Result<Vec<CompiledParam>, String>,
)
    requires
        usable_bounds(spec),
    ensures
        ({
            let fault = registration_fault(spec, verdicts, compiled);
            let key = spec.auth.credentials_json@;
            &&& begins_with(key, "cred://"@) ==> fault == Some(
                "auth.credentials_json must not be a cred:// URI — per-caller credentials are unsupported (the connection is one service identity); use ${env.X} / vault:// (resolved at config load) instead"@,
            )
            &&& !begins_with(key, "cred://"@) && is_blank(key) ==> fault == Some(
                "auth.credentials_json must not be empty for mode service_account"@,
            )
            &&& usable_key(spec) && spec.query.read_only && !is_blank(spec.statement@) ==> (
            verdicts.statement matches Err(m) ==> fault == Some(m@))
        }),
{
}

/// Behind the statement, the URI is looked at and then the read statement: a
/// field on the wrong surface is refused with the surface that it stands on.
pub proof fn law_resource_fields_are_looked_at_next(
    spec: BigQueryBackendSpec,
    verdicts: GuardVerdicts,
    compiled: Result<Vec<CompiledParam>, String>,
)
    requires
        usable_bounds(spec),
        usable_key(spec),
        statement_passes(spec, verdicts),
    ensures
        ({
            let fault = registration_fault(spec, verdicts, compiled);
            let word = if spec.surface == Surface::Tool {
                "tool"@
            } else {
                "prompt"@
            };
            &&& spec.uri is Some && spec.surface != Surface::Resource ==> fault == Some(
                "`uri`"@
                    + " is only valid with `surface: resource` (this binding is `surface: "@ + word
                    + "`)"@,
            )
            &&& spec.uri is Some && spec.surface == Surface::Resource && is_blank(spec.uri->0@)
                ==> fault == Some("`uri` must not be empty"@)
            &&& usable_uri(spec) && spec.read_query is Some ==> {
                let q = spec.read_query->0@;
                &&& is_blank(q) ==> fault == Some("`read_query` must not be empty"@)
                &&& !is_blank(q) && spec.surface != Surface::Resource ==> fault == Some(
                    "`read_query`"@
                        + " is only valid with `surface: resource` (this binding is `surface: "@
                        + word + "`)"@,
                )
                &&& !is_blank(q) && spec.surface == Surface::Resource && occurs_in(q, "cred://"@)
                    ==> fault == Some(
                    "`read_query` must not contain a bare cred:// URI — use ${cred://…} / ${env.X} (resolved at config load)"@,
                )
                &&& !is_blank(q) && spec.surface == Surface::Resource && !occurs_in(q, "cred://"@)
                    && spec.query.read_only ==> (verdicts.read_query matches Err(m) ==> fault
                    == Some(m@))
            }
        }),
{
}

/// Behind those, the listing query is looked at, then the completion queries in
/// the order of their names, and last the parameters that did not compile.
pub proof fn law_queries_are_looked_at_last(
    spec: BigQueryBackendSpec,
    verdicts: GuardVerdicts,
    compiled: Result<Vec<CompiledParam>, String>,
)
    requires
        usable_bounds(spec),
        usable_key(spec),
        statement_passes(spec, verdicts),
        usable_uri(spec),
        usable_read_query(spec, verdicts),
    ensures
        ({
            let fault = registration_fault(spec, verdicts, compiled);
            &&& spec.list_query is Some ==> {
                let q = spec.list_query->0;
                &&& is_blank(q.sql@) ==> fault == Some("list_query.sql must not be empty"@)
                &&& !is_blank(q.sql@) && (q.page_size < 1 || q.page_size > 1000) ==> fault == Some(
                    "list_query.page_size ("@ + decimal(q.page_size as nat)
                        + ") must be in 1..=1000"@,
                )
                &&& !is_blank(q.sql@) && 1 <= q.page_size <= 1000 && spec.query.read_only ==> (
                verdicts.list_query matches Err(m) ==> fault == Some(m@))
            }
            &&& (spec.list_query is None || (list_query_fault(spec.list_query->0) is None && (
            spec.query.read_only ==> verdicts.list_query is Ok))) ==> {
                let queries = completions_fault(
                    spec.variable_completions@,
                    spec.query.read_only,
                    verdicts.completions@,
                    0,
                );
                &&& (queries matches Some(m) ==> fault == Some(m))
                &&& queries is None ==> (compiled matches Err(m) ==> fault == Some(m@))
                &&& queries is None && compiled is Ok ==> fault is None
            }
        }),
{
}

/// A listing query is usable exactly where its SQL is not blank and its pages
/// hold from 1 to 1000 rows.
pub proof fn law_usable_listing_queries(cfg: ListQueryConfig)
    ensures
        list_query_fault(cfg) is None <==> !is_blank(cfg.sql@) && 1 <= cfg.page_size <= 1000,
        is_blank(cfg.sql@) ==> list_query_fault(cfg) == Some("list_query.sql must not be empty"@),
        !is_blank(cfg.sql@) && !(1 <= cfg.page_size <= 1000) ==> list_query_fault(cfg) == Some(
            "list_query.page_size ("@ + decimal(cfg.page_size as nat) + ") must be in 1..=1000"@,
        ),
{
}

/// A completion query is usable where its SQL is not blank and holds one `?`,
/// with none before and none behind it. One with no `?`, or with a second one, is
/// refused by name.
pub proof fn law_usable_completion_queries(
    name: Seq<char>,
    cfg: CompletionConfig,
    before: Seq<char>,
    behind: Seq<char>,
)
    ensures
        is_blank(cfg.sql@) ==> completion_fault(name, cfg) == Some(
            "variable_completions."@ + name + ".sql must not be empty"@,
        ),
        !is_blank(cfg.sql@) && !cfg.sql@.contains('?') ==> completion_fault(name, cfg) == Some(
            "variable_completions."@ + name
                + ".sql must reference the `?` placeholder (bound to the typed prefix)"@,
        ),
        !is_blank(cfg.sql@) && cfg.sql@ == before + seq!['?'] + behind ==> {
            &&& !before.contains('?') && !behind.contains('?') ==> completion_fault(name, cfg)
                is None
            &&& before.contains('?') || behind.contains('?') ==> completion_fault(name, cfg)
                == Some(
                "variable_completions."@ + name
                    + ".sql must reference the `?` placeholder (bound to the typed prefix)"@,
            )
        },
{
    law_absent_is_counted_zero(cfg.sql@, '?');
    law_absent_is_counted_zero(before, '?');
    law_absent_is_counted_zero(behind, '?');
    law_counts_add_up(before + seq!['?'], behind, '?');
    law_counts_add_up(before, seq!['?'], '?');
}

/// The first completion query at fault, in the order of their names, is the one
/// that is reported: by its own fault, else in the words of the guard where that
/// is on.
pub proof fn law_first_completion_fault_is_reported(
    entries: Seq<(Seq<char>, CompletionConfig)>,
    read_only: bool,
    verdicts: Seq<Result<(), String>>,
    i: int,
)
    requires
        0 <= i < entries.len(),
        verdicts.len() == entries.len(),
        forall|k: int|
            #![trigger entries[k]]
            0 <= k < i ==> completion_fault(entries[k].0, entries[k].1) is None && (read_only
                ==> verdicts[k] is Ok),
    ensures
        completion_fault(entries[i].0, entries[i].1) matches Some(m) ==> completions_fault(
            entries,
            read_only,
            verdicts,
            0,
        ) == Some(m),
        completion_fault(entries[i].0, entries[i].1) is None && read_only ==> (
        verdicts[i] matches Err(m) ==> completions_fault(entries, read_only, verdicts, 0) == Some(
            m@,
        )),
{
    lemma_faults_from(entries, read_only, verdicts, 0, i);
}

/// Queries without a fault are passed over.
proof fn lemma_faults_from(
    entries: Seq<(Seq<char>, CompletionConfig)>,
    read_only: bool,
    verdicts: Seq<Result<(), String>>,
    from: int,
    i: int,
)
    requires
        0 <= from <= i < entries.len(),
        forall|k: int|
            #![trigger entries[k]]
            from <= k < i ==> completion_fault(entries[k].0, entries[k].1) is None && (read_only
                ==> verdicts[k] is Ok),
    ensures
        completions_fault(entries, read_only, verdicts, from) == completions_fault(
            entries,
            read_only,
            verdicts,
            i,
        ),
    decreases i - from,
{
    if from < i {
        assert(completion_fault(entries[from].0, entries[from].1) is None);
        lemma_faults_from(entries, read_only, verdicts, from + 1, i);
    }
}

/// A profile keeps what its spec says, field by field, and talks to no endpoint
/// but BigQuery's own.
pub proof fn law_profile_keeps_its_spec(spec: BigQueryBackendSpec, compiled: Vec<CompiledParam>)
    ensures
        ({
            let p = profile_of(spec, compiled);
            &&& p.project_id == spec.project_id
            &&& p.dataset == spec.dataset
            &&& p.location == spec.location
            &&& p.credentials_json == spec.auth.credentials_json
            &&& p.endpoint_override is None
            &&& p.statement == spec.statement
            &&& p.compiled_params == compiled
            &&& p.use_legacy_sql == spec.query.use_legacy_sql
            &&& p.read_only == spec.query.read_only
            &&& p.maximum_bytes_billed == spec.query.maximum_bytes_billed
            &&& p.max_rows == spec.query.max_rows
            &&& p.dry_run == spec.query.dry_run
            &&& p.price_per_tib_usd == spec.query.price_per_tib_usd
            &&& p.timeout_ms == spec.query.timeout_ms
            &&& p.surface == spec.surface
            &&& p.surface_uri == spec.uri
            &&& p.list_query == spec.list_query
            &&& p.read_query == spec.read_query
            &&& p.variable_completions == spec.variable_completions
        }),
{
}

/// Storing under a known name replaces its value and keeps the number of entries;
/// storing under a new one adds one entry.
pub proof fn law_storing_adds_at_most_one<V>(s: Seq<(Seq<char>, V)>, k: Seq<char>, v: V)
    requires
        ascending(s),
    ensures
        lookup(s, k) is Some ==> stored(s, k, v).len() == s.len(),
        lookup(s, k) is None ==> stored(s, k, v).len() == s.len() + 1,
    decreases s.len(),
{
    if s.len() > 0 && s[0].0 != k {
        let rest = s.drop_first();
        assert forall|i: int, j: int| 0 <= i < j < rest.len() implies crate::keyed::comes_before(
            rest[i].0,
            rest[j].0,
        ) by {
            assert(crate::keyed::comes_before(s[i + 1].0, s[j + 1].0));
        }
        law_storing_adds_at_most_one(rest, k, v);
        if crate::keyed::comes_before(k, s[0].0) {
            lemma_nothing_before_the_first(s, k, s.len() as int);
        }
    }
}

/// A name that comes before the first of ascending names is none of them.
proof fn lemma_nothing_before_the_first<V>(s: Seq<(Seq<char>, V)>, k: Seq<char>, n: int)
    requires
        ascending(s),
        s.len() > 0,
        crate::keyed::comes_before(k, s[0].0),
        n == s.len(),
    ensures
        lookup(s, k) is None,
    decreases s.len(),
{
    crate::keyed::law_order_irreflexive(k);
    if s.len() > 1 {
        let rest = s.drop_first();
        assert(crate::keyed::comes_before(s[0].0, s[1].0));
        crate::keyed::law_order_transitive(k, s[0].0, s[1].0);
        assert forall|i: int, j: int| 0 <= i < j < rest.len() implies crate::keyed::comes_before(
            rest[i].0,
            rest[j].0,
        ) by {
            assert(crate::keyed::comes_before(s[i + 1].0, s[j + 1].0));
        }
        lemma_nothing_before_the_first(rest, k, rest.len() as int);
    } else {
        reveal_with_fuel(lookup, 2);
    }
}

/// The guard is shown every SQL text of a spec as it stands: the statement unless
/// it is blank, the read statement, the listing query, and each completion query
/// in its place.
pub proof fn law_guard_is_shown_every_text(spec: BigQueryBackendSpec, r: GuardedTexts)
    requires
        are_guarded(spec, r),
    ensures
        r.statement is None <==> is_blank(spec.statement@),
        r.statement matches Some(t) ==> t@ == spec.statement@,
        r.read_query is Some <==> spec.read_query is Some,
        spec.read_query matches Some(q) ==> r.read_query->0@ == q@,
        r.list_query is Some <==> spec.list_query is Some,
        spec.list_query matches Some(q) ==> r.list_query->0@ == q.sql@,
        r.completions@.len() == spec.variable_completions@.len(),
        forall|i: int|
            0 <= i < r.completions@.len() ==> (#[trigger] r.completions@[i])@
                == spec.variable_completions@[i].1.sql@,
{
}

/// A spec at fault is refused in the words of its fault and leaves every binding
/// as it was. Any other is found under its name afterwards, with what it says
/// kept, and leaves every other binding as it was.
pub proof fn law_registration_takes_effect(
    before: Seq<(Seq<char>, BigQueryProfile)>,
    backend_name: Seq<char>,
    spec: BigQueryBackendSpec,
    verdicts: GuardVerdicts,
    compiled: Result<Vec<CompiledParam>, String>,
    r: Result<(), BackendError>,
    after: Seq<(Seq<char>, BigQueryProfile)>,
    other: Seq<char>,
)
    requires
        registered(before, backend_name, spec, verdicts, compiled, r, after),
    ensures
        registration_fault(spec, verdicts, compiled) matches Some(m) ==> {
            &&& r matches Err(BackendError::InvalidSpec { message }) && message@ == m
            &&& after == before
        },
        registration_fault(spec, verdicts, compiled) is None <==> r is Ok,
        other != backend_name ==> lookup(after, other) == lookup(before, other),
        r is Ok ==> compiled is Ok && lookup(after, backend_name) == Some(
            profile_of(spec, compiled->Ok_0),
        ),
        r is Ok ==> (lookup(after, backend_name) matches Some(p) && {
            &&& p.statement == spec.statement
            &&& p.project_id == spec.project_id
            &&& p.surface == spec.surface
            &&& p.read_only == spec.query.read_only
            &&& p.max_rows == spec.query.max_rows
            &&& p.maximum_bytes_billed == spec.query.maximum_bytes_billed
            &&& p.compiled_params == compiled->Ok_0
        }),
{
    if r is Ok {
        law_stored_then_lookup(before, backend_name, profile_of(spec, compiled->Ok_0), other);
    }
}

/// What every registered profile has: a project, a key that is no per-caller
/// reference, a statement, and bounds above zero. Only resources have a URI or a
/// read statement, and listing pages hold from 1 to 1000 rows.
pub proof fn law_sound_profiles(p: BigQueryProfile)
    requires
        is_sound(p),
    ensures
        !is_blank(p.project_id@),
        !is_blank(p.credentials_json@),
        !begins_with(p.credentials_json@, "cred://"@),
        is_blank(p.statement@) ==> p.read_query is Some && !is_blank(p.read_query->0@),
        p.timeout_ms > 0,
        p.max_rows > 0,
        p.surface != Surface::Resource ==> p.surface_uri is None && p.read_query is None,
        p.list_query matches Some(q) ==> 1 <= q.page_size <= 1000,
{
}

/// A spec without faults becomes a sound profile.
pub proof fn law_faultless_specs_are_sound(
    spec: BigQueryBackendSpec,
    verdicts: GuardVerdicts,
    compiled: Result<Vec<CompiledParam>, String>,
)
    requires
        verdicts.completions@.len() == spec.variable_completions@.len(),
        registration_fault(spec, verdicts, compiled) is None,
    ensures
        is_sound(profile_of(spec, compiled->Ok_0)),
        spec.query.read_only && !is_blank(spec.statement@) ==> verdicts.statement is Ok,
        spec.query.read_only && spec.read_query is Some ==> verdicts.read_query is Ok,
        spec.query.read_only && spec.list_query is Some ==> verdicts.list_query is Ok,
        spec.query.read_only ==> forall|i: int|
            0 <= i < verdicts.completions@.len() ==> #[trigger] verdicts.completions@[i] is Ok,
{
    law_registered_iff_acceptable(spec, verdicts, compiled);
    assert(spec.query.read_only ==> forall|i: int|
        0 <= i < verdicts.completions@.len() ==> #[trigger] verdicts.completions@[i] is Ok) by {
        if spec.query.read_only {
            assert forall|i: int| 0 <= i < verdicts.completions@.len() implies
                #[trigger] verdicts.completions@[i] is Ok by {
                let entry = spec.variable_completions@[i];
            }
        }
    }
}

} // verus!
