//! Observability metrics in the Prometheus text format.

use vstd::prelude::*;
use crate::text::{decimal, push_decimal};

verus! {

pub struct MetricsSnapshot {
    pub active_tunnels: u32,
    pub active_transports: u32,
    pub blocked_requests: u64,
    pub dns_queries: u64,
    pub open_leak_incidents: u32,
    pub route_changes_24h: u64,
    pub timestamp: i64,
}

/// One gauge or counter: help line, type line and sample line.
pub open spec fn metric_block(name: Seq<char>, help: Seq<char>, kind: Seq<char>, value: nat) -> Seq<char> {
    "# HELP "@ + name + " "@ + help + "\n"@ + "# TYPE "@ + name + " "@ + kind + "\n"@ + name + " "@ + decimal(value)
        + "\n"@
}

/// The Prometheus exposition of a snapshot.
pub open spec fn prometheus_text(s: MetricsSnapshot) -> Seq<char> {
    metric_block("wiresentinel_active_tunnels"@, "Active VPN tunnels"@, "gauge"@, s.active_tunnels as nat)
        + metric_block(
        "wiresentinel_active_transports"@,
        "Active transport processes"@,
        "gauge"@,
        s.active_transports as nat,
    ) + metric_block(
        "wiresentinel_blocked_requests"@,
        "Blocked firewall decisions"@,
        "counter"@,
        s.blocked_requests as nat,
    ) + metric_block("wiresentinel_dns_queries"@, "DNS query count"@, "counter"@, s.dns_queries as nat)
        + metric_block(
        "wiresentinel_open_leak_incidents"@,
        "Open leak incidents"@,
        "gauge"@,
        s.open_leak_incidents as nat,
    ) + metric_block(
        "wiresentinel_route_changes_24h"@,
        "Route changes in 24h"@,
        "counter"@,
        s.route_changes_24h as nat,
    )
}

fn push_block(out: &mut String, name: &str, help: &str, kind: &str, value: u64)
    ensures
        final(out)@ == old(out)@ + metric_block(name@, help@, kind@, value as nat),
{
    out.append("# HELP ");
    out.append(name);
    out.append(" ");
    out.append(help);
    out.append("\n");
    out.append("# TYPE ");
    out.append(name);
    out.append(" ");
    out.append(kind);
    out.append("\n");
    out.append(name);
    out.append(" ");
    push_decimal(out, value);
    out.append("\n");
    assert(final(out)@ =~= old(out)@ + metric_block(name@, help@, kind@, value as nat));
}

pub struct MetricsService;

impl MetricsService {
    /// Renders a snapshot as Prometheus text.
    pub fn to_prometheus(snapshot: &MetricsSnapshot) -> (r: String)
        ensures
            r@ == prometheus_text(*snapshot),
    {
        let mut out = String::new();
        push_block(&mut out, "wiresentinel_active_tunnels", "Active VPN tunnels", "gauge", snapshot.active_tunnels as u64);
        push_block(
            &mut out,
            "wiresentinel_active_transports",
            "Active transport processes",
            "gauge",
            snapshot.active_transports as u64,
        );
        push_block(
            &mut out,
            "wiresentinel_blocked_requests",
            "Blocked firewall decisions",
            "counter",
            snapshot.blocked_requests,
        );
        push_block(&mut out, "wiresentinel_dns_queries", "DNS query count", "counter", snapshot.dns_queries);
        push_block(
            &mut out,
            "wiresentinel_open_leak_incidents",
            "Open leak incidents",
            "gauge",
            snapshot.open_leak_incidents as u64,
        );
        push_block(
            &mut out,
            "wiresentinel_route_changes_24h",
            "Route changes in 24h",
            "counter",
            snapshot.route_changes_24h,
        );
        assert(out@ =~= prometheus_text(*snapshot));
        out
    }
}

} // verus!
