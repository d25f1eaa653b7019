//! Scrape exporter: the routes of the HTTP surface and the families of
//! metrics that the registry holds.

use vstd::prelude::*;
use vstd::string::StringExecFns;

verus! {

/// HTTP status of a request that was served.
pub const STATUS_OK: u16 = 200;

/// HTTP status of a request for anything that is not a route.
pub const STATUS_NOT_FOUND: u16 = 404;

/// What a request asks for.
#[derive(Clone, Copy, Debug, PartialEq, Eq)]
pub enum Route {
    /// `GET /`: a greeting, to see that the exporter lives.
    Root,
    /// `GET /health`.
    Health,
    /// `GET /metrics`: the registry in text format.
    Metrics,
    /// Every other method and path.
    NotFound,
}

/// A response, ready to be sent.
#[derive(Debug)]
pub struct HttpResponse {
    pub status: u16,
    /// Value of the `Content-Type` header, where the response sets one.
    pub content_type: Option<String>,
    pub body: String,
}

/// Kind of a metric family.
#[derive(Clone, Copy, Debug, PartialEq, Eq)]
pub enum MetricKind {
    Counter,
    Gauge,
    Histogram,
}

/// The metric families of the registry.
#[derive(Clone, Copy, Debug, PartialEq, Eq)]
pub enum Metric {
    LocalIpTxBytesRate,
    LocalIpRxBytesRate,
    TotalTxBytesRate,
    TotalRxBytesRate,
    PacketLossPercentage,
    CurrentWindowSize,
    TotalPackets,
    TcpPackets,
    GlobalTcpPackets,
    PacketLossMissing,
    PacketLossDuplicate,
    PacketLossOutOfOrder,
    WindowShrink,
    ActiveConnections,
    PacketLossGap,
}

/// The route of a request with the given method and path.
pub open spec fn route_of(method: Seq<char>, path: Seq<char>) -> Route {
    if method != "GET"@ {
        Route::NotFound
    } else if path == "/"@ {
        Route::Root
    } else if path == "/health"@ {
        Route::Health
    } else if path == "/metrics"@ {
        Route::Metrics
    } else {
        Route::NotFound
    }
}

/// All of `parts`, one after the other.
pub open spec fn joined(parts: Seq<String>) -> Seq<char>
    decreases parts.len(),
{
    if parts.len() == 0 {
        Seq::empty()
    } else {
        joined(parts.drop_last()) + parts.last()@
    }
}

impl Route {
    /// Status of the response to this route.
    pub open spec fn status_of(self) -> u16 {
        if self is NotFound {
            STATUS_NOT_FOUND
        } else {
            STATUS_OK
        }
    }

    /// Content type of the response to this route: only the metrics say one.
    pub open spec fn content_type_of(self) -> Option<Seq<char>> {
        if self is Metrics {
            Some("text/plain; version=0.0.4"@)
        } else {
            None
        }
    }

    /// Body of the response to this route, where `exports` are the texts
    /// that the registries gave.
    pub open spec fn body_of(self, exports: Seq<String>) -> Seq<char> {
        match self {
            Route::Root => "Hello"@,
            Route::Health => "OK"@,
            Route::Metrics => joined(exports),
            Route::NotFound => "Not Found"@,
        }
    }
}

fn same_text(a: &str, b: &str) -> (r: bool)
    ensures
        r == (a@ == b@),
{
    let left = a.to_owned();
    let right = b.to_owned();
    left == right
}

/// Finds the route of a request.
pub fn route(method: &str, path: &str) -> (r: Route)
    ensures
        r == route_of(method@, path@),
{
    if !same_text(method, "GET") {
        Route::NotFound
    } else if same_text(path, "/") {
        Route::Root
    } else if same_text(path, "/health") {
        Route::Health
    } else if same_text(path, "/metrics") {
        Route::Metrics
    } else {
        Route::NotFound
    }
}

/// Builds the response to a routed request. For the metrics route the body
/// is `exports`, joined in their order; the other routes do not look at them.
pub fn respond(route: Route, exports: &Vec<String>) -> (response: HttpResponse)
    ensures
        response.status == route.status_of(),
        match (response.content_type, route.content_type_of()) {
            (Some(given), Some(wanted)) => given@ == wanted,
            (None, None) => true,
            _ => false,
        },
        response.body@ == route.body_of(exports@),
{
    match route {
        Route::Root => HttpResponse {
            status: STATUS_OK,
            content_type: None,
            body: "Hello".to_owned(),
        },
        Route::Health => HttpResponse { status: STATUS_OK, content_type: None, body: "OK".to_owned() },
        Route::Metrics => {
            let mut body = String::new();
            let mut i: usize = 0;
            while i < exports.len()
                invariant
                    i <= exports.len(),
                    body@ == joined(exports@.take(i as int)),
                decreases exports.len() - i,
            {
                body.append(exports[i].as_str());
                proof {
                    assert(exports@.take(i as int + 1).drop_last() =~= exports@.take(i as int));
                }
                i = i + 1;
            }
            proof {
                assert(exports@.take(exports@.len() as int) =~= exports@);
            }
            HttpResponse {
                status: STATUS_OK,
                content_type: Some("text/plain; version=0.0.4".to_owned()),
                body,
            }
        },
        Route::NotFound => HttpResponse {
            status: STATUS_NOT_FOUND,
            content_type: None,
            body: "Not Found".to_owned(),
        },
    }
}

/// Handles a request: finds its route and builds the response.
pub fn handle_request(method: &str, path: &str, exports: &Vec<String>) -> (response: HttpResponse)
    ensures
        response.status == route_of(method@, path@).status_of(),
        match (response.content_type, route_of(method@, path@).content_type_of()) {
            (Some(given), Some(wanted)) => given@ == wanted,
            (None, None) => true,
            _ => false,
        },
        response.body@ == route_of(method@, path@).body_of(exports@),
{
    respond(route(method, path), exports)
}

/// Serving a scrape reads the exports and changes nothing: two responses to
/// the same request over the same exports have the same status and body.
pub proof fn scrape_is_repeatable(
    method: Seq<char>,
    path: Seq<char>,
    exports: Seq<String>,
    first: HttpResponse,
    second: HttpResponse,
)
    requires
        first.status == route_of(method, path).status_of(),
        first.body@ == route_of(method, path).body_of(exports),
        second.status == route_of(method, path).status_of(),
        second.body@ == route_of(method, path).body_of(exports),
    ensures
        first.status == second.status,
        first.body@ == second.body@,
{
}

impl Metric {
    /// Name of the family, as a scrape shows it.
    pub open spec fn name_of(self) -> Seq<char> {
        match self {
            Metric::LocalIpTxBytesRate => "local_ip_tx_bytes_rate"@,
            Metric::LocalIpRxBytesRate => "local_ip_rx_bytes_rate"@,
            Metric::TotalTxBytesRate => "total_tx_bytes_rate"@,
            Metric::TotalRxBytesRate => "total_rx_bytes_rate"@,
            Metric::PacketLossPercentage => "tcp_monitor_packet_loss_missing_per_second"@,
            Metric::CurrentWindowSize => "current_window_size"@,
            Metric::TotalPackets => "tcp_monitor_total_packets"@,
            Metric::TcpPackets => "tcp_monitor_tcp_packets"@,
            Metric::GlobalTcpPackets => "tcp_monitor_global_tcp_packets"@,
            Metric::PacketLossMissing => "tcp_monitor_packet_loss_missing"@,
            Metric::PacketLossDuplicate => "tcp_monitor_packet_loss_duplicate"@,
            Metric::PacketLossOutOfOrder => "tcp_monitor_packet_loss_out_of_order"@,
            Metric::WindowShrink => "tcp_monitor_window_shrink"@,
            Metric::ActiveConnections => "tcp_monitor_active_connections"@,
            Metric::PacketLossGap => "tcp_monitor_packet_loss_gap"@,
        }
    }

    /// One line that says what the family measures.
    pub open spec fn help_of(self) -> Seq<char> {
        match self {
            Metric::LocalIpTxBytesRate => "Current transmission rate in bytes/sec per local IP"@,
            Metric::LocalIpRxBytesRate => "Current reception rate in bytes/sec per local IP"@,
            Metric::TotalTxBytesRate => "Total transmission rate in bytes/sec for all local IPs"@,
            Metric::TotalRxBytesRate => "Total reception rate in bytes/sec for all local IPs"@,
            Metric::PacketLossPercentage => "Packet loss percentage"@,
            Metric::CurrentWindowSize => "Current TCP window size"@,
            Metric::TotalPackets => "Total number of packets processed"@,
            Metric::TcpPackets => "Total number of TCP packets processed"@,
            Metric::GlobalTcpPackets => "Total number of global TCP packets processed"@,
            Metric::PacketLossMissing => "Number of missing sequence packet loss events"@,
            Metric::PacketLossDuplicate => "Number of duplicate packet loss events"@,
            Metric::PacketLossOutOfOrder => "Number of out-of-order packet loss events"@,
            Metric::WindowShrink => "Number of TCP window shrink events"@,
            Metric::ActiveConnections => "Number of active TCP connections"@,
            Metric::PacketLossGap => "Distribution of packet loss gap sizes"@,
        }
    }

    /// Kind of the family.
    pub open spec fn kind_of(self) -> MetricKind {
        match self {
            Metric::TotalPackets
            | Metric::TcpPackets
            | Metric::GlobalTcpPackets
            | Metric::PacketLossMissing
            | Metric::PacketLossDuplicate
            | Metric::PacketLossOutOfOrder
            | Metric::WindowShrink => MetricKind::Counter,
            Metric::PacketLossGap => MetricKind::Histogram,
            _ => MetricKind::Gauge,
        }
    }

    /// The family has one series for each local address, told apart by the
    /// label `local_ip`.
    pub open spec fn is_labelled(self) -> bool {
        self is LocalIpTxBytesRate || self is LocalIpRxBytesRate
    }

    /// Name of the family, as a scrape shows it.
    pub fn name(self) -> (name: &'static str)
        ensures
            name@ == self.name_of(),
    {
        match self {
            Metric::LocalIpTxBytesRate => "local_ip_tx_bytes_rate",
            Metric::LocalIpRxBytesRate => "local_ip_rx_bytes_rate",
            Metric::TotalTxBytesRate => "total_tx_bytes_rate",
            Metric::TotalRxBytesRate => "total_rx_bytes_rate",
            Metric::PacketLossPercentage => "tcp_monitor_packet_loss_missing_per_second",
            Metric::CurrentWindowSize => "current_window_size",
            Metric::TotalPackets => "tcp_monitor_total_packets",
            Metric::TcpPackets => "tcp_monitor_tcp_packets",
            Metric::GlobalTcpPackets => "tcp_monitor_global_tcp_packets",
            Metric::PacketLossMissing => "tcp_monitor_packet_loss_missing",
            Metric::PacketLossDuplicate => "tcp_monitor_packet_loss_duplicate",
            Metric::PacketLossOutOfOrder => "tcp_monitor_packet_loss_out_of_order",
            Metric::WindowShrink => "tcp_monitor_window_shrink",
            Metric::ActiveConnections => "tcp_monitor_active_connections",
            Metric::PacketLossGap => "tcp_monitor_packet_loss_gap",
        }
    }

    /// One line that says what the family measures.
    pub fn help(self) -> (help: &'static str)
        ensures
            help@ == self.help_of(),
    {
        match self {
            Metric::LocalIpTxBytesRate => "Current transmission rate in bytes/sec per local IP",
            Metric::LocalIpRxBytesRate => "Current reception rate in bytes/sec per local IP",
            Metric::TotalTxBytesRate => "Total transmission rate in bytes/sec for all local IPs",
            Metric::TotalRxBytesRate => "Total reception rate in bytes/sec for all local IPs",
            Metric::PacketLossPercentage => "Packet loss percentage",
            Metric::CurrentWindowSize => "Current TCP window size",
            Metric::TotalPackets => "Total number of packets processed",
            Metric::TcpPackets => "Total number of TCP packets processed",
            Metric::GlobalTcpPackets => "Total number of global TCP packets processed",
            Metric::PacketLossMissing => "Number of missing sequence packet loss events",
            Metric::PacketLossDuplicate => "Number of duplicate packet loss events",
            Metric::PacketLossOutOfOrder => "Number of out-of-order packet loss events",
            Metric::WindowShrink => "Number of TCP window shrink events",
            Metric::ActiveConnections => "Number of active TCP connections",
            Metric::PacketLossGap => "Distribution of packet loss gap sizes",
        }
    }

    /// Computes [`Metric::kind_of`].
    pub fn kind(self) -> (kind: MetricKind)
        ensures
            kind == self.kind_of(),
    {
        match self {
            Metric::TotalPackets
            | Metric::TcpPackets
            | Metric::GlobalTcpPackets
            | Metric::PacketLossMissing
            | Metric::PacketLossDuplicate
            | Metric::PacketLossOutOfOrder
            | Metric::WindowShrink => MetricKind::Counter,
            Metric::PacketLossGap => MetricKind::Histogram,
            _ => MetricKind::Gauge,
        }
    }

    /// Decides [`Metric::is_labelled`].
    pub fn labelled(self) -> (r: bool)
        ensures
            r == self.is_labelled(),
    {
        match self {
            Metric::LocalIpTxBytesRate | Metric::LocalIpRxBytesRate => true,
            _ => false,
        }
    }
}

/// The families of the registry, in the order in which they are registered.
pub open spec fn all_metrics() -> Seq<Metric> {
    seq![
        Metric::LocalIpTxBytesRate,
        Metric::LocalIpRxBytesRate,
        Metric::TotalTxBytesRate,
        Metric::TotalRxBytesRate,
        Metric::PacketLossPercentage,
        Metric::TotalPackets,
        Metric::TcpPackets,
        Metric::GlobalTcpPackets,
        Metric::PacketLossMissing,
        Metric::PacketLossDuplicate,
        Metric::PacketLossOutOfOrder,
        Metric::WindowShrink,
        Metric::ActiveConnections,
        Metric::CurrentWindowSize,
        Metric::PacketLossGap,
    ]
}

/// Upper bounds of the buckets of the loss-gap histogram, in bytes.
pub open spec fn gap_buckets() -> Seq<u32> {
    seq![1u32, 5u32, 10u32, 50u32, 100u32, 500u32, 1000u32, 5000u32]
}

/// Every family is in [`all_metrics`].
pub proof fn all_metrics_is_complete(metric: Metric)
    ensures
        all_metrics().contains(metric),
{
    let all = all_metrics();
    match metric {
        Metric::LocalIpTxBytesRate => assert(all[0] == metric),
        Metric::LocalIpRxBytesRate => assert(all[1] == metric),
        Metric::TotalTxBytesRate => assert(all[2] == metric),
        Metric::TotalRxBytesRate => assert(all[3] == metric),
        Metric::PacketLossPercentage => assert(all[4] == metric),
        Metric::TotalPackets => assert(all[5] == metric),
        Metric::TcpPackets => assert(all[6] == metric),
        Metric::GlobalTcpPackets => assert(all[7] == metric),
        Metric::PacketLossMissing => assert(all[8] == metric),
        Metric::PacketLossDuplicate => assert(all[9] == metric),
        Metric::PacketLossOutOfOrder => assert(all[10] == metric),
        Metric::WindowShrink => assert(all[11] == metric),
        Metric::ActiveConnections => assert(all[12] == metric),
        Metric::CurrentWindowSize => assert(all[13] == metric),
        Metric::PacketLossGap => assert(all[14] == metric),
    }
}

/// The families of the registry, as a list.
pub fn metric_list() -> (list: Vec<Metric>)
    ensures
        list@ == all_metrics(),
{
    let mut list: Vec<Metric> = Vec::new();
    list.push(Metric::LocalIpTxBytesRate);
    list.push(Metric::LocalIpRxBytesRate);
    list.push(Metric::TotalTxBytesRate);
    list.push(Metric::TotalRxBytesRate);
    list.push(Metric::PacketLossPercentage);
    list.push(Metric::TotalPackets);
    list.push(Metric::TcpPackets);
    list.push(Metric::GlobalTcpPackets);
    list.push(Metric::PacketLossMissing);
    list.push(Metric::PacketLossDuplicate);
    list.push(Metric::PacketLossOutOfOrder);
    list.push(Metric::WindowShrink);
    list.push(Metric::ActiveConnections);
    list.push(Metric::CurrentWindowSize);
    list.push(Metric::PacketLossGap);
    list
}

/// The bucket bounds of the loss-gap histogram, as a list.
pub fn gap_bucket_list() -> (list: Vec<u32>)
    ensures
        list@ == gap_buckets(),
{
    let mut list: Vec<u32> = Vec::new();
    list.push(1);
    list.push(5);
    list.push(10);
    list.push(50);
    list.push(100);
    list.push(500);
    list.push(1000);
    list.push(5000);
    list
}

} // verus!
