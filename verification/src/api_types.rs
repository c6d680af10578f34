//! Query and body types of the REST API and how their defaults and sort
//! options are read.

use vstd::prelude::*;
use crate::text::str_eq;

verus! {

/// `?limit=&offset=`.
pub struct LimitQuery {
    pub limit: Option<u32>,
    pub offset: Option<u32>,
}

impl LimitQuery {
    /// The limit, or the endpoint's default.
    pub fn limit_or(&self, default: u32) -> (r: u32)
        ensures
            r == match self.limit {
                Some(l) => l,
                None => default,
            },
    {
        match self.limit {
            Some(l) => l,
            None => default,
        }
    }

    /// The offset, or 0.
    pub fn offset_or_zero(&self) -> (r: u32)
        ensures
            r == match self.offset {
                Some(o) => o,
                None => 0,
            },
    {
        match self.offset {
            Some(o) => o,
            None => 0,
        }
    }
}

/// Order of a listing.
#[derive(Debug, Clone, Copy, PartialEq, Eq, Structural)]
pub enum SortOrder {
    Asc,
    Desc,
}

/// `asc` sorts ascending; anything else, or nothing, descending.
pub fn parse_order(order: Option<&str>) -> (r: SortOrder)
    ensures
        r == (if order matches Some(o) && o@ == "asc"@ {
            SortOrder::Asc
        } else {
            SortOrder::Desc
        }),
{
    match order {
        Some(o) => if str_eq(o, "asc") {
            SortOrder::Asc
        } else {
            SortOrder::Desc
        },
        None => SortOrder::Desc,
    }
}

/// Field traffic logs are sorted by.
#[derive(Debug, Clone, Copy, PartialEq, Eq, Structural)]
pub enum TrafficSortField {
    Timestamp,
    Bytes,
}

/// `bytes` sorts by size; anything else, or nothing, by time.
pub fn parse_traffic_sort(sort: Option<&str>) -> (r: TrafficSortField)
    ensures
        r == (if sort matches Some(s) && s@ == "bytes"@ {
            TrafficSortField::Bytes
        } else {
            TrafficSortField::Timestamp
        }),
{
    match sort {
        Some(s) => if str_eq(s, "bytes") {
            TrafficSortField::Bytes
        } else {
            TrafficSortField::Timestamp
        },
        None => TrafficSortField::Timestamp,
    }
}

/// `?limit=&offset=&qname=&blocked=&sort=&order=` of the DNS log listing.
pub struct DnsLogsQuery {
    pub limit: Option<u32>,
    pub offset: Option<u32>,
    pub qname: Option<String>,
    pub blocked: Option<bool>,
    pub sort: Option<String>,
    pub order: Option<String>,
}

/// The storage query of a DNS log listing (always sorted by time).
pub struct DnsLogQuery {
    pub limit: u32,
    pub offset: u32,
    pub qname: Option<String>,
    pub blocked: Option<bool>,
    pub order: SortOrder,
}

impl DnsLogsQuery {
    /// The storage query: 100 entries from offset 0 unless given, newest first
    /// unless `order=asc`.
    pub fn to_log_query(self) -> (r: DnsLogQuery)
        ensures
            r.limit == match self.limit {
                Some(l) => l,
                None => 100,
            },
            r.offset == match self.offset {
                Some(o) => o,
                None => 0,
            },
            r.qname == self.qname,
            r.blocked == self.blocked,
            r.order == (if self.order matches Some(o) && o@ == "asc"@ {
                SortOrder::Asc
            } else {
                SortOrder::Desc
            }),
    {
        let order = match &self.order {
            Some(o) => parse_order(Some(o.as_str())),
            None => parse_order(None),
        };
        DnsLogQuery {
            limit: match self.limit {
                Some(l) => l,
                None => 100,
            },
            offset: match self.offset {
                Some(o) => o,
                None => 0,
            },
            qname: self.qname,
            blocked: self.blocked,
            order,
        }
    }
}

/// Body of `POST /vpn`: a profile name and its plaintext configuration.
pub struct AddVpnBody {
    pub name: String,
    pub config_plaintext: String,
}

/// Body of `POST /dns/resolve`.
pub struct ResolveBody {
    pub qname: String,
}

/// Body of `POST /anonymity/decoy/simulate`.
pub struct DecoySimulateRequest {
    pub target: String,
}

/// Default number of leak incidents listed.
pub fn default_leaks_limit() -> (r: u32)
    ensures
        r == 50,
{
    50
}

/// `?limit=` of the leak listing.
pub struct LeaksQuery {
    pub limit: u32,
}

impl LeaksQuery {
    /// The query without parameters.
    pub fn default_query() -> (r: LeaksQuery)
        ensures
            r.limit == 50,
    {
        LeaksQuery { limit: default_leaks_limit() }
    }
}

/// `?limit=` of the benchmark listing.
pub struct BenchmarkQuery {
    pub limit: Option<u32>,
}

impl BenchmarkQuery {
    /// The number of recent snapshots listed: 10 unless given.
    pub fn limit_or_default(&self) -> (r: u32)
        ensures
            r == match self.limit {
                Some(l) => l,
                None => 10,
            },
    {
        match self.limit {
            Some(l) => l,
            None => 10,
        }
    }
}

/// What a traffic export returns.
#[derive(Debug, Clone, Copy, PartialEq, Eq, Structural)]
pub enum ExportKind {
    /// Traffic logs as CSV.
    Csv,
    /// Traffic logs as JSON.
    Logs,
    /// The current bandwidth snapshots.
    Snapshots,
}

/// `format=csv` exports CSV; otherwise `source=logs` exports the logs as JSON;
/// otherwise the bandwidth snapshots.
pub fn export_kind(format: Option<&str>, source: Option<&str>) -> (r: ExportKind)
    ensures
        r == (if format matches Some(f) && f@ == "csv"@ {
            ExportKind::Csv
        } else if source matches Some(s) && s@ == "logs"@ {
            ExportKind::Logs
        } else {
            ExportKind::Snapshots
        }),
{
    let csv = match format {
        Some(f) => str_eq(f, "csv"),
        None => false,
    };
    if csv {
        return ExportKind::Csv;
    }
    let logs = match source {
        Some(s) => str_eq(s, "logs"),
        None => false,
    };
    if logs {
        ExportKind::Logs
    } else {
        ExportKind::Snapshots
    }
}

/// One traffic-log row of a CSV export, each column already rendered as text.
pub struct TrafficCsvRow {
    pub id: String,
    pub app_id: String,
    pub timestamp: String,
    pub protocol: String,
    pub remote_addr: String,
    pub domain: Option<String>,
    pub route: String,
}

/// Header line of the traffic CSV export.
pub open spec fn csv_header() -> Seq<char> {
    "id,app_id,timestamp,protocol,remote_addr,domain,route\n"@
}

/// One CSV line: the columns joined by commas, an absent domain left empty.
pub open spec fn csv_line(r: TrafficCsvRow) -> Seq<char> {
    r.id@ + ","@ + r.app_id@ + ","@ + r.timestamp@ + ","@ + r.protocol@ + ","@ + r.remote_addr@ + ","@
        + match r.domain {
        Some(d) => d@,
        None => Seq::empty(),
    } + ","@ + r.route@ + "\n"@
}

/// The lines of `rows`, in order.
pub open spec fn csv_lines(rows: Seq<TrafficCsvRow>) -> Seq<char>
    decreases rows.len(),
{
    if rows.len() == 0 {
        Seq::empty()
    } else {
        csv_lines(rows.drop_last()) + csv_line(rows.last())
    }
}

fn push_csv_line(s: &mut String, r: &TrafficCsvRow)
    ensures
        final(s)@ == old(s)@ + csv_line(*r),
{
    s.append(r.id.as_str());
    s.append(",");
    s.append(r.app_id.as_str());
    s.append(",");
    s.append(r.timestamp.as_str());
    s.append(",");
    s.append(r.protocol.as_str());
    s.append(",");
    s.append(r.remote_addr.as_str());
    s.append(",");
    match &r.domain {
        Some(d) => s.append(d.as_str()),
        None => {},
    }
    s.append(",");
    s.append(r.route.as_str());
    s.append("\n");
    proof {
        reveal_strlit(",");
        reveal_strlit("\n");
    }
    assert(s@ =~= old(s)@ + csv_line(*r));
}

/// The CSV export of traffic logs: the header, then one line per row.
pub fn traffic_csv(rows: &Vec<TrafficCsvRow>) -> (r: String)
    ensures
        r@ == csv_header() + csv_lines(rows@),
{
    let mut s = String::from_str("id,app_id,timestamp,protocol,remote_addr,domain,route\n");
    let mut i: usize = 0;
    while i < rows.len()
        invariant
            i <= rows@.len(),
            s@ == csv_header() + csv_lines(rows@.subrange(0, i as int)),
        decreases rows@.len() - i,
    {
        proof {
            assert(rows@.subrange(0, i + 1).drop_last() =~= rows@.subrange(0, i as int));
        }
        push_csv_line(&mut s, &rows[i]);
        i += 1;
    }
    assert(rows@.subrange(0, rows@.len() as int) =~= rows@);
    s
}

} // verus!
