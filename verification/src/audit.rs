//! Audit log entries for policy and route changes.

use vstd::prelude::*;
use crate::ids::{uuid_text, uuid_to_string};
use crate::json::{encode_json_string, json_string_literal};
use crate::text::to_owned_string;

verus! {

pub struct AuditLogEntry {
    pub id: u128,
    pub event_type: String,
    pub actor: Option<String>,
    pub target_type: Option<String>,
    pub target_id: Option<String>,
    pub detail_json: Option<String>,
    /// Milliseconds since the epoch.
    pub timestamp: i64,
}

/// JSON of an optional string: its literal, or `null`.
pub open spec fn json_opt(v: Option<Seq<char>>) -> Seq<char> {
    match v {
        Some(s) => json_string_literal(s),
        None => "null"@,
    }
}

/// Details of a policy change: `{"field":…,"new":…,"old":…}` (serde_json
/// writes object keys in order).
pub open spec fn policy_detail(field: Seq<char>, old: Option<Seq<char>>, new: Option<Seq<char>>) -> Seq<char> {
    "{\"field\":"@ + json_string_literal(field) + ",\"new\":"@ + json_opt(new) + ",\"old\":"@ + json_opt(old) + "}"@
}

fn push_json_opt(s: &mut String, v: &Option<String>)
    ensures
        final(s)@ == old(s)@ + json_opt(
            match v {
                Some(x) => Some(x@),
                None => None,
            },
        ),
{
    match v {
        Some(x) => {
            let t = encode_json_string(x.as_str());
            s.append(t.as_str());
        },
        None => s.append("null"),
    }
}

/// The audit entry of a policy change: type `policy_changed`, target the
/// policy field, details the field with its old and new values.
pub fn policy_changed_entry(
    id: u128,
    field: &str,
    old_value: &Option<String>,
    new_value: &Option<String>,
    actor: Option<String>,
    now: i64,
) -> (r: AuditLogEntry)
    ensures
        r.id == id,
        r.event_type@ == "policy_changed"@,
        r.actor == actor,
        r.target_type matches Some(t) && t@ == "policy"@,
        r.target_id matches Some(t) && t@ == field@,
        r.detail_json matches Some(d) && d@ == policy_detail(
            field@,
            match *old_value {
                Some(x) => Some(x@),
                None => None,
            },
            match *new_value {
                Some(x) => Some(x@),
                None => None,
            },
        ),
        r.timestamp == now,
{
    let mut d = String::from_str("{\"field\":");
    let f = encode_json_string(field);
    d.append(f.as_str());
    d.append(",\"new\":");
    push_json_opt(&mut d, new_value);
    d.append(",\"old\":");
    push_json_opt(&mut d, old_value);
    d.append("}");
    AuditLogEntry {
        id,
        event_type: String::from_str("policy_changed"),
        actor,
        target_type: Some(String::from_str("policy")),
        target_id: Some(to_owned_string(field)),
        detail_json: Some(d),
        timestamp: now,
    }
}

/// JSON of an optional route, given as JSON text: the text, or `null`.
pub open spec fn route_json(v: Option<Seq<char>>) -> Seq<char> {
    match v {
        Some(s) => s,
        None => "null"@,
    }
}

/// The audit entry of a route change: type `route_changed`, target the app,
/// details `{"new_route":…,"old_route":…}` from the routes' JSON.
pub fn route_changed_entry(
    id: u128,
    app_id: u128,
    old_route_json: Option<&str>,
    new_route_json: Option<&str>,
    actor: Option<String>,
    now: i64,
) -> (r: AuditLogEntry)
    ensures
        r.id == id,
        r.event_type@ == "route_changed"@,
        r.actor == actor,
        r.target_type matches Some(t) && t@ == "app"@,
        r.target_id matches Some(t) && t@ == uuid_text(app_id),
        r.detail_json matches Some(d) && d@ == "{\"new_route\":"@ + route_json(
            match new_route_json {
                Some(x) => Some(x@),
                None => None,
            },
        ) + ",\"old_route\":"@ + route_json(
            match old_route_json {
                Some(x) => Some(x@),
                None => None,
            },
        ) + "}"@,
        r.timestamp == now,
{
    let mut d = String::from_str("{\"new_route\":");
    match new_route_json {
        Some(x) => d.append(x),
        None => d.append("null"),
    }
    d.append(",\"old_route\":");
    match old_route_json {
        Some(x) => d.append(x),
        None => d.append("null"),
    }
    d.append("}");
    AuditLogEntry {
        id,
        event_type: String::from_str("route_changed"),
        actor,
        target_type: Some(String::from_str("app")),
        target_id: Some(uuid_to_string(app_id)),
        detail_json: Some(d),
        timestamp: now,
    }
}

} // verus!
