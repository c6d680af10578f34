//! Bookkeeping shared by the API's create and update handlers, and the small
//! decisions they take.

use vstd::prelude::*;
use crate::privacy::DnsTransport;
use crate::routing::{AppExitConfig, AppRecord, RouteView, TrafficRoute, effective_exit, routes_view};
use crate::text::{is_prefix_of, str_eq, to_owned_string};
use crate::cloud::{is_blank, is_unicode_space};

verus! {

/// Identity and times of a record about to be written.
pub struct RecordStamp {
    pub id: u128,
    /// Milliseconds since the epoch.
    pub created_at: i64,
    pub updated_at: i64,
}

/// Whether a creation time counts as unset: it falls in the epoch's first
/// second.
pub open spec fn unset_time(t: i64) -> bool {
    0 <= t < 1000
}

/// Stamps a record before it is written at `now`: a nil id becomes `fresh_id`,
/// an unset creation time becomes `now`, and the update time is `now`.
pub fn stamp_for_write(id: u128, created_at: i64, fresh_id: u128, now: i64) -> (r: RecordStamp)
    ensures
        r.id == (if id == 0 {
            fresh_id
        } else {
            id
        }),
        r.created_at == (if unset_time(created_at) {
            now
        } else {
            created_at
        }),
        r.updated_at == now,
{
    RecordStamp {
        id: if id == 0 {
            fresh_id
        } else {
            id
        },
        created_at: if 0 <= created_at && created_at < 1000 {
            now
        } else {
            created_at
        },
        updated_at: now,
    }
}

/// `true` or `false`, as audited.
pub fn bool_text(b: bool) -> (r: &'static str)
    ensures
        r@ == (if b {
            "true"@
        } else {
            "false"@
        }),
{
    if b {
        "true"
    } else {
        "false"
    }
}

/// Format of a backup export.
#[derive(Debug, Clone, Copy, PartialEq, Eq, Structural)]
pub enum BackupFormat {
    Json,
    Encrypted,
}

/// `format=encrypted` exports the protected bytes; anything else JSON.
pub fn backup_export_format(format: Option<&str>) -> (r: BackupFormat)
    ensures
        r == (if format matches Some(f) && f@ == "encrypted"@ {
            BackupFormat::Encrypted
        } else {
            BackupFormat::Json
        }),
{
    match format {
        Some(f) => if str_eq(f, "encrypted") {
            BackupFormat::Encrypted
        } else {
            BackupFormat::Json
        },
        None => BackupFormat::Json,
    }
}

/// Name for what base64's `STANDARD` engine decodes a text to: the bytes, or
/// `None` where the text is not valid padded standard base64.
pub uninterp spec fn base64_standard(text: Seq<char>) -> Option<Seq<u8>>;

/// `base64::engine::general_purpose::STANDARD.decode(input)`; the contract names
/// the decoded bytes (`base64_standard`). Of a failure it keeps the text of the
/// `DecodeError` (its `Display`), which the contract does not state.
#[verifier::external_body]
fn standard_base64_decode(input: &str) -> (r: Result<Vec<u8>, String>)
    ensures
        r is Ok <==> base64_standard(input@) is Some,
        r matches Ok(v) ==> base64_standard(input@) == Some(v@),
{
    match base64::Engine::decode(&base64::engine::general_purpose::STANDARD, input) {
        Ok(v) => Ok(v),
        Err(e) => Err(e.to_string()),
    }
}

/// Decodes the base64 payload of an encrypted backup import; a failure reads
/// `base64 decode: ` followed by the decoder's message.
pub fn base64_decode(input: &str) -> (r: Result<Vec<u8>, String>)
    ensures
        r is Ok <==> base64_standard(input@) is Some,
        r matches Ok(v) ==> base64_standard(input@) == Some(v@),
        r matches Err(m) ==> is_prefix_of("base64 decode: "@, m@),
{
    match standard_base64_decode(input) {
        Ok(v) => Ok(v),
        Err(e) => {
            let mut m = String::from_str("base64 decode: ");
            m.append(e.as_str());
            proof {
                reveal_strlit("base64 decode: ");
                assert(m@.subrange(0, 15) =~= "base64 decode: "@);
            }
            Err(m)
        },
    }
}

/// What a backup import carries.
pub enum BackupImport {
    /// The protected bytes of an encrypted backup.
    Encrypted(Vec<u8>),
    /// A JSON bundle.
    Json(String),
}

/// Reads the body of a backup import: `format=encrypted` carries base64 of the
/// protected bytes (refused, with the decoder's message, where it does not
/// decode); anything else carries the JSON bundle itself.
pub fn backup_import_payload(format: Option<&str>, data: String) -> (r: Result<BackupImport, String>)
    ensures
        backup_export_format_spec(format) == BackupFormat::Json ==> (r matches Ok(BackupImport::Json(j)) && j@
            == data@),
        backup_export_format_spec(format) == BackupFormat::Encrypted ==> match base64_standard(data@) {
            Some(b) => r matches Ok(BackupImport::Encrypted(v)) && v@ == b,
            None => r matches Err(m) && is_prefix_of("base64 decode: "@, m@),
        },
{
    match backup_export_format(format) {
        BackupFormat::Encrypted => match base64_decode(data.as_str()) {
            Ok(b) => Ok(BackupImport::Encrypted(b)),
            Err(e) => Err(e),
        },
        BackupFormat::Json => Ok(BackupImport::Json(data)),
    }
}

/// The format a `format` parameter selects: `encrypted`, else JSON.
pub open spec fn backup_export_format_spec(format: Option<&str>) -> BackupFormat {
    if format matches Some(f) && f@ == "encrypted"@ {
        BackupFormat::Encrypted
    } else {
        BackupFormat::Json
    }
}

/// A DNS resolver provider record.
pub struct DnsProviderRecord {
    pub id: u128,
    pub name: String,
    pub transport: DnsTransport,
    pub endpoint: String,
    pub priority: u32,
    pub enabled: bool,
    pub failure_count: u32,
    /// Milliseconds since the epoch.
    pub created_at: i64,
    pub updated_at: i64,
}

/// `r` is the default provider list: Cloudflare and Quad9 over
/// DNS-over-HTTPS, in that priority order, enabled, never failed, stamped `now`.
pub open spec fn is_default_providers(r: Seq<DnsProviderRecord>, cloudflare_id: u128, quad9_id: u128, now: i64) -> bool {
    &&& r.len() == 2
    &&& r[0].id == cloudflare_id && r[0].name@ == "cloudflare"@ && r[0].transport == DnsTransport::Doh
        && r[0].endpoint@ == "https://cloudflare-dns.com/dns-query"@ && r[0].priority == 10
    &&& r[1].id == quad9_id && r[1].name@ == "quad9"@ && r[1].transport == DnsTransport::Doh
        && r[1].endpoint@ == "https://dns.quad9.net/dns-query"@ && r[1].priority == 20
    &&& forall|i: int|
        0 <= i < 2 ==> (#[trigger] r[i]).enabled && r[i].failure_count == 0 && r[i].created_at == now
            && r[i].updated_at == now
}

/// The providers to store at start-up: the defaults where no provider is
/// stored yet (`existing_count` is how many are), none otherwise.
pub fn providers_to_seed(existing_count: usize, cloudflare_id: u128, quad9_id: u128, now: i64) -> (r: Vec<
    DnsProviderRecord,
>)
    ensures
        existing_count > 0 ==> r@.len() == 0,
        existing_count == 0 ==> is_default_providers(r@, cloudflare_id, quad9_id, now),
{
    if existing_count > 0 {
        return Vec::new();
    }
    default_dns_providers(cloudflare_id, quad9_id, now)
}

/// The providers stored on first start, when none exist: Cloudflare and Quad9
/// over DNS-over-HTTPS, in that priority order.
pub fn default_dns_providers(cloudflare_id: u128, quad9_id: u128, now: i64) -> (r: Vec<DnsProviderRecord>)
    ensures
        is_default_providers(r@, cloudflare_id, quad9_id, now),
{
    let mut v: Vec<DnsProviderRecord> = Vec::new();
    v.push(
        DnsProviderRecord {
            id: cloudflare_id,
            name: String::from_str("cloudflare"),
            transport: DnsTransport::Doh,
            endpoint: String::from_str("https://cloudflare-dns.com/dns-query"),
            priority: 10,
            enabled: true,
            failure_count: 0,
            created_at: now,
            updated_at: now,
        },
    );
    v.push(
        DnsProviderRecord {
            id: quad9_id,
            name: String::from_str("quad9"),
            transport: DnsTransport::Doh,
            endpoint: String::from_str("https://dns.quad9.net/dns-query"),
            priority: 20,
            enabled: true,
            failure_count: 0,
            created_at: now,
            updated_at: now,
        },
    );
    v
}

/// Event published for a logged DNS query.
#[derive(Debug, Clone, Copy, PartialEq, Eq, Structural)]
pub enum DnsQueryEvent {
    Blocked,
    Observed,
}

/// What happens to a DNS query log: it is stored unless the setting says not
/// to (an unreadable setting stores it), and announced as blocked or observed.
pub fn dns_log_disposition(store_setting: Option<bool>, blocked: bool) -> (r: (bool, DnsQueryEvent))
    ensures
        r.0 == match store_setting {
            Some(b) => b,
            None => true,
        },
        r.1 == (if blocked {
            DnsQueryEvent::Blocked
        } else {
            DnsQueryEvent::Observed
        }),
{
    (
        match store_setting {
            Some(b) => b,
            None => true,
        },
        if blocked {
            DnsQueryEvent::Blocked
        } else {
            DnsQueryEvent::Observed
        },
    )
}

/// The exit configuration a route update asks for: the configuration given,
/// else one made of the single route given, else none.
pub fn requested_exit_config(exit_config: Option<AppExitConfig>, route: Option<TrafficRoute>) -> (r: Option<
    AppExitConfig,
>)
    ensures
        match exit_config {
            Some(c) => r == Some(c),
            None => match route {
                Some(rt) => r matches Some(c) && routes_view(c.routes@) == seq![rt@] && c.on_exhaustion
                    == crate::routing::ExitOnExhaustion::Blocked,
                None => r.is_none(),
            },
        },
{
    match exit_config {
        Some(c) => Some(c),
        None => match route {
            Some(rt) => Some(AppExitConfig::from_single(rt)),
            None => None,
        },
    }
}

/// First route of an exit configuration (the primary route), if any.
pub fn primary_route(config: &Option<AppExitConfig>) -> (r: Option<TrafficRoute>)
    ensures
        match *config {
            Some(c) => if c.routes@.len() > 0 {
                r matches Some(rt) && rt@ == c.routes@[0]@
            } else {
                r.is_none()
            },
            None => r.is_none(),
        },
{
    match config {
        Some(c) => if c.routes.len() > 0 {
            Some(c.routes[0].duplicate())
        } else {
            None
        },
        None => None,
    }
}

/// Primary route in force for an app before an update: the first route of its
/// effective exit configuration.
pub fn previous_primary_route(record: &AppRecord) -> (r: Option<TrafficRoute>)
    ensures
        match effective_exit(*record) {
            Some((routes, _)) => if routes.len() > 0 {
                r matches Some(rt) && rt@ == routes[0]
            } else {
                r.is_none()
            },
            None => r.is_none(),
        },
{
    match record.effective_exit_routes() {
        Some((routes, _)) => {
            proof {
                assert(routes@.len() == routes_view(routes@).len());
                if routes@.len() > 0 {
                    assert(routes_view(routes@)[0] == routes@[0]@);
                }
            }
            if routes.len() > 0 {
                Some(routes[0].duplicate())
            } else {
                None
            }
        },
        None => None,
    }
}

/// Name of a cloned split-tunnel template: the requested name when it is not
/// blank, else `{original} (copy)`.
pub fn clone_name(requested: Option<&str>, original: &str) -> (r: String)
    ensures
        match requested {
            Some(n) if exists|i: int| 0 <= i < n@.len() && !is_unicode_space(#[trigger] n@[i]) => r@ == n@,
            _ => r@ == original@ + " (copy)"@,
        },
{
    match requested {
        Some(n) => {
            if !is_blank(n) {
                return to_owned_string(n);
            }
        },
        None => {},
    }
    let mut s = to_owned_string(original);
    s.append(" (copy)");
    s
}

} // verus!
