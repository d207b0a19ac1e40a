//! What a call reports of itself: its outcome's label, and the audit record of
//! a failed call.

use vstd::prelude::*;

use crate::decimal::{decimal, render};
use crate::json::{no_members, Json, JsonObject, JsonView, NumberView};
use crate::text::same_text;

verus! {

/// How a call ended.
#[derive(Debug, Clone, Copy, PartialEq, Eq, Structural)]
pub enum Outcome {
    Success,
    Timeout,
    TransportError,
    BigQueryError,
    InvalidSpec,
    ProfileNotFound,
}

/// The label of an outcome in metrics and audit records.
pub open spec fn outcome_label(o: Outcome) -> Seq<char> {
    match o {
        Outcome::Success => "ok"@,
        Outcome::Timeout => "timeout"@,
        Outcome::TransportError => "transport_error"@,
        Outcome::BigQueryError => "bigquery_error"@,
        Outcome::InvalidSpec => "invalid_spec"@,
        Outcome::ProfileNotFound => "profile_not_found"@,
    }
}

impl Outcome {
    /// The label of the outcome in metrics and audit records.
    pub fn label(self) -> (r: &'static str)
        ensures
            r@ == outcome_label(self),
    {
        match self {
            Outcome::Success => "ok",
            Outcome::Timeout => "timeout",
            Outcome::TransportError => "transport_error",
            Outcome::BigQueryError => "bigquery_error",
            Outcome::InvalidSpec => "invalid_spec",
            Outcome::ProfileNotFound => "profile_not_found",
        }
    }
}

/// The audit action for an outcome's label; most labels have none.
pub open spec fn audit_action(label: Seq<char>) -> Option<Seq<char>> {
    if label == "timeout"@ {
        Some("dev.mcpg.backend.bigquery.request_timeout"@)
    } else if label == "transport_error"@ || label == "invalid_spec"@ {
        Some("dev.mcpg.backend.bigquery.request_failed"@)
    } else if label == "bigquery_error"@ {
        Some("dev.mcpg.backend.bigquery.query_rejected"@)
    } else {
        None
    }
}

/// The audit action for an outcome's label.
pub fn audit_action_for_outcome(label: &str) -> (r: Option<&'static str>)
    ensures
        match r {
            Some(a) => audit_action(label@) == Some(a@),
            None => audit_action(label@) is None,
        },
{
    if same_text(label, "timeout") {
        Some("dev.mcpg.backend.bigquery.request_timeout")
    } else if same_text(label, "transport_error") || same_text(label, "invalid_spec") {
        Some("dev.mcpg.backend.bigquery.request_failed")
    } else if same_text(label, "bigquery_error") {
        Some("dev.mcpg.backend.bigquery.query_rejected")
    } else {
        None
    }
}

/// An identity that the plugin acts under.
#[derive(Debug)]
pub struct PluginIdentity {
    pub kind: String,
    pub trust_level: String,
    pub subject_id: Option<String>,
    pub auth_provider: Option<String>,
    pub issuer: Option<String>,
    pub roles: Vec<String>,
    pub groups: Vec<String>,
    pub scopes: Vec<String>,
}

/// The identity of the plugin itself.
pub open spec fn is_system_identity(p: PluginIdentity) -> bool {
    &&& p.kind@ == "system"@
    &&& p.trust_level@ == "verified"@
    &&& p.subject_id matches Some(s) && s@ == "dev.mcpg.backend.bigquery"@
    &&& p.auth_provider is None
    &&& p.issuer is None
    &&& p.roles@ == Seq::<String>::empty()
    &&& p.groups@ == Seq::<String>::empty()
    &&& p.scopes@ == Seq::<String>::empty()
}

/// The identity that stands in for a caller without one.
pub fn synthetic_system_identity() -> (r: PluginIdentity)
    ensures
        is_system_identity(r),
{
    PluginIdentity {
        kind: "system".to_owned(),
        trust_level: "verified".to_owned(),
        subject_id: Some("dev.mcpg.backend.bigquery".to_owned()),
        auth_provider: None,
        issuer: None,
        roles: Vec::new(),
        groups: Vec::new(),
        scopes: Vec::new(),
    }
}

/// Who an audit record names as the actor.
#[derive(Debug)]
pub enum Actor {
    /// The caller's own identity.
    Caller,
    /// The plugin's identity, where the caller has none.
    System(PluginIdentity),
}

/// The audit record of a failed call.
#[derive(Debug)]
pub struct AuditRecord {
    pub event_id: String,
    pub actor: Actor,
    pub action: String,
    pub resource: String,
    pub request_id: String,
    pub details: Json,
}

/// A call that has ended, as far as its audit record goes.
pub struct EndedCall<'a> {
    pub backend_name: &'a str,
    pub request_id: &'a str,
    pub alias: &'a str,
    /// The caller has an identity.
    pub identified: bool,
    pub duration_ms: u64,
    pub duration_nanos: u128,
}

/// The details of an audit record.
pub open spec fn audit_details(call: EndedCall, label: Seq<char>, reason: Option<&str>) -> JsonView {
    let plain = no_members().push(("backend"@, JsonView::Str(call.backend_name@))).push(
        ("duration_ms"@, JsonView::Number(NumberView::PosInt(call.duration_ms))),
    ).push(("outcome"@, JsonView::Str(label))).push(("alias"@, JsonView::Str(call.alias@)));
    JsonView::Object(
        match reason {
            Some(why) => plain.push(("reason"@, JsonView::Str(why@))),
            None => plain,
        },
    )
}

/// What is recorded of an ended call: nothing for an outcome without an action,
/// else who acted, what was done to which binding, and how it went.
pub open spec fn audited(
    call: EndedCall,
    outcome: Outcome,
    reason: Option<&str>,
    r: Option<AuditRecord>,
) -> bool {
    match audit_action(outcome_label(outcome)) {
        Some(action) => r matches Some(record) && {
            &&& record.event_id@ == "bigquery-"@ + call.request_id@ + "-"@ + decimal(
                call.duration_nanos as nat,
            )
            &&& record.action@ == action
            &&& record.resource@ == "bigquery-binding://"@ + call.backend_name@
            &&& record.request_id@ == call.request_id@
            &&& record.details@ == audit_details(call, outcome_label(outcome), reason)
            &&& match record.actor {
                Actor::Caller => call.identified,
                Actor::System(identity) => !call.identified && is_system_identity(identity),
            }
        },
        None => r is None,
    }
}

/// The audit record of an ended call: none for an outcome without an action.
pub fn audit_record(call: &EndedCall, outcome: Outcome, reason: Option<&str>) -> (r: Option<
    AuditRecord,
>)
    ensures
        audited(*call, outcome, reason, r),
{
    let action = match audit_action_for_outcome(outcome.label()) {
        Some(a) => a,
        None => {
            return None;
        },
    };
    let mut event_id = "bigquery-".to_owned();
    event_id.append(call.request_id);
    event_id.append("-");
    event_id.append(render(call.duration_nanos).as_str());
    let mut resource = "bigquery-binding://".to_owned();
    resource.append(call.backend_name);
    let plain = JsonObject::new().with("backend", Json::text(call.backend_name)).with(
        "duration_ms",
        Json::unsigned(call.duration_ms),
    ).with("outcome", Json::text(outcome.label())).with("alias", Json::text(call.alias));
    let details = match reason {
        Some(why) => plain.with("reason", Json::text(why)),
        None => plain,
    };
    let actor = if call.identified {
        Actor::Caller
    } else {
        Actor::System(synthetic_system_identity())
    };
    Some(
        AuditRecord {
            event_id,
            actor,
            action: action.to_owned(),
            resource,
            request_id: call.request_id.to_owned(),
            details: details.build(),
        },
    )
}

/// A call is audited exactly where it failed at BigQuery, on the way there, or
/// on its parameters.
pub proof fn law_failed_calls_are_audited(o: Outcome)
    ensures
        audit_action(outcome_label(o)) is Some <==> (o == Outcome::Timeout || o
            == Outcome::TransportError || o == Outcome::BigQueryError || o == Outcome::InvalidSpec),
{
    reveal_strlit("ok");
    reveal_strlit("timeout");
    reveal_strlit("transport_error");
    reveal_strlit("bigquery_error");
    reveal_strlit("invalid_spec");
    reveal_strlit("profile_not_found");
    assert("ok"@.len() == 2);
    assert("profile_not_found"@.len() == 17);
    assert("timeout"@.len() == 7);
    assert("transport_error"@.len() == 15);
    assert("bigquery_error"@.len() == 14);
    assert("invalid_spec"@.len() == 12);
}

} // verus!
