//! Configuration backup export/import: what a bundle declares, which of its
//! settings are applied, and the manifest and audit records of each operation.

use vstd::prelude::*;
use crate::digest::{backup_checksum, hex_lower, md5_digest};
use crate::text::{decimal, push_decimal, to_owned_string};

verus! {

/// Format version of an exported bundle.
pub const BUNDLE_FORMAT_VERSION: u32 = 1;

/// Content version of an exported bundle (it carries plugins, tailnet and Tor
/// profiles and the agent configurations).
pub const BUNDLE_CONTENT_VERSION: u32 = 2;

/// The settings of a bundle that an import applies.
pub struct SettingsToApply {
    pub api_port: Option<u16>,
    pub recovery_enabled: Option<bool>,
}

/// Settings an import applies from the bundle's settings object: the API port
/// where it is an unsigned integer (kept to its low 16 bits) and the recovery
/// flag where it is a boolean.
pub fn settings_to_apply(api_port: Option<u64>, recovery_enabled: Option<bool>) -> (r: SettingsToApply)
    ensures
        r.api_port == match api_port {
            Some(p) => Some((p % 65536) as u16),
            None => None,
        },
        r.recovery_enabled == recovery_enabled,
{
    SettingsToApply {
        api_port: match api_port {
            Some(p) => Some((p % 65536) as u16),
            None => None,
        },
        recovery_enabled,
    }
}

/// Positions of the items that decode, in order.
pub open spec fn decoded_positions(decoded: Seq<bool>) -> Seq<int>
    decreases decoded.len(),
{
    if decoded.len() == 0 {
        Seq::empty()
    } else {
        let p = decoded_positions(decoded.drop_last());
        if decoded.last() {
            p.push(decoded.len() - 1)
        } else {
            p
        }
    }
}

/// The items of a bundle section (rules, apps, profiles and the like) that an
/// import writes, by position: those that decode, in order. An item that does
/// not decode is skipped and the import goes on with the next; so does one
/// whose write fails.
pub fn items_to_write(decoded: &[bool]) -> (r: Vec<usize>)
    ensures
        r@.map_values(|i: usize| i as int) == decoded_positions(decoded@),
{
    let mut r: Vec<usize> = Vec::new();
    let mut i: usize = 0;
    while i < decoded.len()
        invariant
            i <= decoded@.len(),
            r@.map_values(|k: usize| k as int) == decoded_positions(decoded@.take(i as int)),
        decreases decoded@.len() - i,
    {
        proof {
            assert(decoded@.take(i + 1).drop_last() =~= decoded@.take(i as int));
        }
        if decoded[i] {
            let ghost before = r@;
            r.push(i);
            assert(r@.map_values(|k: usize| k as int) =~= before.map_values(|k: usize| k as int).push(i as int));
        }
        i += 1;
    }
    assert(decoded@.take(decoded@.len() as int) =~= decoded@);
    r
}

/// A backup operation recorded in the manifest.
pub struct BackupManifestEntry {
    pub id: u128,
    pub operation: String,
    pub format: String,
    pub checksum: String,
    /// Milliseconds since the epoch.
    pub created_at: i64,
    /// Details, as JSON text.
    pub detail_json: String,
}

/// Manifest entry of an operation on `data` (the JSON text or the encrypted
/// bytes): its checksum is the lower-case hex MD5 of the data.
pub fn manifest_entry(id: u128, operation: &str, format: &str, data: &[u8], detail_json: String, now: i64) -> (r:
    BackupManifestEntry)
    ensures
        r.id == id,
        r.operation@ == operation@,
        r.format@ == format@,
        r.checksum@ == hex_lower(md5_digest(data@)),
        r.created_at == now,
        r.detail_json@ == detail_json@,
{
    BackupManifestEntry {
        id,
        operation: to_owned_string(operation),
        format: to_owned_string(format),
        checksum: backup_checksum(data),
        created_at: now,
        detail_json,
    }
}

/// Details of an export: an empty JSON object.
pub fn export_detail() -> (r: String)
    ensures
        r@ == "{}"@,
{
    String::from_str("{}")
}

/// Details of an import: `{"version":N}` with the bundle's version.
pub fn import_detail(version: u32) -> (r: String)
    ensures
        r@ == "{\"version\":"@ + decimal(version as nat) + "}"@,
{
    let mut s = String::from_str("{\"version\":");
    push_decimal(&mut s, version as u64);
    s.append("}");
    s
}

/// A security audit record published after an import.
pub struct SecurityAuditEntry {
    pub action: String,
    pub actor: Option<String>,
    pub detail: Option<String>,
    /// Milliseconds since the epoch.
    pub timestamp: i64,
}

/// Audit of an import of `kind` (`json` or `encrypted`): action
/// `backup_import`, detail `{kind} import`, no actor.
pub fn import_audit(kind: &str, now: i64) -> (r: SecurityAuditEntry)
    ensures
        r.action@ == "backup_import"@,
        r.actor.is_none(),
        r.detail matches Some(d) && d@ == kind@ + " import"@,
        r.timestamp == now,
{
    let mut d = to_owned_string(kind);
    d.append(" import");
    SecurityAuditEntry { action: String::from_str("backup_import"), actor: None, detail: Some(d), timestamp: now }
}

} // verus!
