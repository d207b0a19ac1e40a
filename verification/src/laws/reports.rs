//! What is reported of an ended call, and what a spec left to its defaults is.

use vstd::prelude::*;

use crate::decimal::decimal;
use crate::json::{lemma_member_push, JsonView, NumberView};
use crate::observe::{
    audit_action, audit_details, audited, is_system_identity, law_failed_calls_are_audited,
    outcome_label, Actor, AuditRecord, EndedCall, Outcome, PluginIdentity,
};
use crate::types::default_bounds;

verus! {

/// The labels of the outcomes.
pub proof fn law_outcome_labels(o: Outcome)
    ensures
        o == Outcome::Success ==> outcome_label(o) == "ok"@,
        o == Outcome::Timeout ==> outcome_label(o) == "timeout"@,
        o == Outcome::TransportError ==> outcome_label(o) == "transport_error"@,
        o == Outcome::BigQueryError ==> outcome_label(o) == "bigquery_error"@,
        o == Outcome::InvalidSpec ==> outcome_label(o) == "invalid_spec"@,
        o == Outcome::ProfileNotFound ==> outcome_label(o) == "profile_not_found"@,
{
}

/// A timeout is audited as a timeout, a refused query as a rejection, and a
/// failure on the way or of the parameters as a failure. A success, an unknown
/// binding and any other label are not audited.
pub proof fn law_audit_actions(label: Seq<char>)
    ensures
        label == "timeout"@ ==> audit_action(label) == Some(
            "dev.mcpg.backend.bigquery.request_timeout"@,
        ),
        label == "transport_error"@ ==> audit_action(label) == Some(
            "dev.mcpg.backend.bigquery.request_failed"@,
        ),
        label == "invalid_spec"@ ==> audit_action(label) == Some(
            "dev.mcpg.backend.bigquery.request_failed"@,
        ),
        label == "bigquery_error"@ ==> audit_action(label) == Some(
            "dev.mcpg.backend.bigquery.query_rejected"@,
        ),
        label != "timeout"@ && label != "transport_error"@ && label != "invalid_spec"@ && label
            != "bigquery_error"@ ==> audit_action(label) is None,
        audit_action("ok"@) is None,
        audit_action("profile_not_found"@) is None,
{
    reveal_strlit("ok");
    reveal_strlit("timeout");
    reveal_strlit("transport_error");
    reveal_strlit("bigquery_error");
    reveal_strlit("invalid_spec");
    reveal_strlit("profile_not_found");
    assert("ok"@.len() == 2);
    assert("profile_not_found"@.len() == 17);
    assert("timeout"@.len() == 7);
    assert("transport_error"@.len() == 15);
    assert("bigquery_error"@.len() == 14);
    assert("invalid_spec"@.len() == 12);
}

/// The details of a record name the binding, the time taken in milliseconds, the
/// outcome's label and the alias, and the reason exactly where there is one.
pub proof fn law_audit_details(call: EndedCall, label: Seq<char>, reason: Option<&str>)
    ensures
        ({
            let details = audit_details(call, label, reason);
            &&& details.at("backend"@) == JsonView::Str(call.backend_name@)
            &&& details.at("duration_ms"@) == JsonView::Number(
                NumberView::PosInt(call.duration_ms),
            )
            &&& details.at("outcome"@) == JsonView::Str(label)
            &&& details.at("alias"@) == JsonView::Str(call.alias@)
            &&& (reason matches Some(why) ==> details.get("reason"@) == Some(JsonView::Str(why@)))
            &&& reason is None ==> !details.has("reason"@)
        }),
{
    broadcast use lemma_member_push;

    reveal_strlit("backend");
    reveal_strlit("duration_ms");
    reveal_strlit("outcome");
    reveal_strlit("alias");
    reveal_strlit("reason");
    assert("backend"@.len() == 7 && "outcome"@.len() == 7);
    assert("backend"@[0] == 'b' && "outcome"@[0] == 'o');
    assert("duration_ms"@.len() == 11 && "alias"@.len() == 5 && "reason"@.len() == 6);
}

/// The identity that stands in for a caller is the plugin's own, verified, and
/// holds no role, group or scope.
pub proof fn law_stand_in_identity(identity: PluginIdentity)
    requires
        is_system_identity(identity),
    ensures
        identity.kind@ == "system"@,
        identity.trust_level@ == "verified"@,
        identity.subject_id is Some,
        identity.subject_id->0@ == "dev.mcpg.backend.bigquery"@,
        identity.auth_provider is None,
        identity.issuer is None,
        identity.roles@.len() == 0,
        identity.groups@.len() == 0,
        identity.scopes@.len() == 0,
{
}

/// Where a spec does not say, the guard is on, the dialect is the standard one,
/// nothing caps the cost, a call may take a minute and give ten thousand rows,
/// and the statement is run and not priced.
pub proof fn law_default_bounds()
    ensures
        default_bounds().read_only,
        !default_bounds().use_legacy_sql,
        default_bounds().maximum_bytes_billed is None,
        default_bounds().timeout_ms == 60_000,
        default_bounds().max_rows == 10_000,
        !default_bounds().dry_run,
        default_bounds().price_per_tib_usd is None,
{
}

/// A record is made exactly where the call timed out, failed on the way, was
/// refused by BigQuery or had parameters that could not be bound. It names the
/// request, the binding, the action that goes with the outcome, the caller where
/// there is one, and how the call went.
pub proof fn law_audit_records(
    call: EndedCall,
    outcome: Outcome,
    reason: Option<&str>,
    r: Option<AuditRecord>,
)
    requires
        audited(call, outcome, reason, r),
    ensures
        r is None <==> outcome == Outcome::Success || outcome == Outcome::ProfileNotFound,
        r matches Some(record) ==> {
            &&& record.event_id@ == "bigquery-"@ + call.request_id@ + "-"@ + decimal(
                call.duration_nanos as nat,
            )
            &&& record.resource@ == "bigquery-binding://"@ + call.backend_name@
            &&& record.request_id@ == call.request_id@
            &&& outcome == Outcome::Timeout ==> record.action@
                == "dev.mcpg.backend.bigquery.request_timeout"@
            &&& outcome == Outcome::TransportError || outcome == Outcome::InvalidSpec
                ==> record.action@ == "dev.mcpg.backend.bigquery.request_failed"@
            &&& outcome == Outcome::BigQueryError ==> record.action@
                == "dev.mcpg.backend.bigquery.query_rejected"@
            &&& record.actor is Caller <==> call.identified
            &&& (record.actor matches Actor::System(identity) ==> identity.kind@ == "system"@)
            &&& record.details@.at("backend"@) == JsonView::Str(call.backend_name@)
            &&& record.details@.at("duration_ms"@) == JsonView::Number(
                NumberView::PosInt(call.duration_ms),
            )
            &&& record.details@.at("alias"@) == JsonView::Str(call.alias@)
            &&& record.details@.at("outcome"@) == JsonView::Str(outcome_label(outcome))
            &&& (reason matches Some(why) ==> record.details@.at("reason"@) == JsonView::Str(why@))
            &&& reason is None ==> !record.details@.has("reason"@)
        },
{
    law_outcome_labels(outcome);
    law_audit_actions(outcome_label(outcome));
    law_audit_details(call, outcome_label(outcome), reason);
    law_failed_calls_are_audited(outcome);
    reveal_strlit("timeout");
    reveal_strlit("transport_error");
    reveal_strlit("bigquery_error");
    reveal_strlit("invalid_spec");
    assert("timeout"@.len() == 7);
    assert("transport_error"@.len() == 15);
    assert("bigquery_error"@.len() == 14);
    assert("invalid_spec"@.len() == 12);
}

} // verus!
