//! Retention of logged rows: which tables are purged, the statement that purges
//! one of them, and the cut-off instant before which rows go.

use vstd::prelude::*;
use crate::ids::{rfc3339_at_millis, utc_rfc3339};

verus! {

/// Milliseconds in a day.
pub const MILLIS_PER_DAY: i64 = 86_400_000;

/// The tables whose rows age out, each with its timestamp column.
pub fn retention_tables() -> (r: Vec<(&'static str, &'static str)>)
    ensures
        r@.len() == 7,
        r@[0].0@ == "dns_logs"@,
        r@[1].0@ == "traffic_logs"@,
        r@[2].0@ == "firewall_decisions"@,
        r@[3].0@ == "performance_snapshots"@,
        r@[4].0@ == "privacy_snapshots"@,
        r@[5].0@ == "privacy_analytics"@,
        r@[6].0@ == "audit_log"@,
        forall|i: int| 0 <= i < 7 ==> (#[trigger] r@[i]).1@ == "timestamp"@,
{
    let mut r: Vec<(&'static str, &'static str)> = Vec::new();
    r.push(("dns_logs", "timestamp"));
    r.push(("traffic_logs", "timestamp"));
    r.push(("firewall_decisions", "timestamp"));
    r.push(("performance_snapshots", "timestamp"));
    r.push(("privacy_snapshots", "timestamp"));
    r.push(("privacy_analytics", "timestamp"));
    r.push(("audit_log", "timestamp"));
    r
}

/// The statement that deletes the rows of `table` whose `column` is before the
/// bound parameter.
pub fn purge_statement(table: &str, column: &str) -> (r: String)
    ensures
        r@ == "DELETE FROM "@ + table@ + " WHERE "@ + column@ + " < ?"@,
{
    let mut s = String::from_str("DELETE FROM ");
    s.append(table);
    s.append(" WHERE ");
    s.append(column);
    s.append(" < ?");
    s
}

/// The instant `days` days before `now_millis`, in RFC 3339; `None` where that
/// instant lies outside what chrono can represent.
pub fn retention_cutoff(now_millis: i64, days: u64) -> (r: Option<String>)
    requires
        days * MILLIS_PER_DAY <= i64::MAX,
        now_millis - days * MILLIS_PER_DAY >= i64::MIN,
    ensures
        r.is_some() == utc_rfc3339((now_millis - days * MILLIS_PER_DAY) as i64).is_some(),
        r matches Some(s) ==> utc_rfc3339((now_millis - days * MILLIS_PER_DAY) as i64) == Some(s@),
{
    let span: i64 = (days as i64) * MILLIS_PER_DAY;
    rfc3339_at_millis(now_millis - span)
}

} // verus!
