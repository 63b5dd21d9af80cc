//! The counters of a running service and the server that shows them.

use crate::error::SharedError;
use crate::text::same_text;
use std::sync::atomic::{AtomicU64, Ordering};
use std::sync::Arc;
use std::time::{Duration, Instant};
use vstd::prelude::*;
use vstd::string::StringExecFns;

verus! {

/// `std::time::Instant`, a reading of the monotonic clock. The library
/// carries it and looks at nothing inside.
#[verifier::external_type_specification]
#[verifier::external_body]
pub struct ExInstant(Instant);

/// `Instant::now` reads the monotonic clock. Nothing is claimed of the
/// reading.
pub assume_specification[ Instant::now ]() -> Instant;

/// Cloning an `Instant` gives an instant. Nothing more is claimed of it.
pub assume_specification[ <Instant as Clone>::clone ](instant: &Instant) -> Instant;

/// `Instant::elapsed` gives the time since the instant. Nothing is claimed
/// of it.
pub assume_specification[ Instant::elapsed ](instant: &Instant) -> Duration;

/// `Duration::as_secs` gives a duration in whole seconds. Nothing is
/// claimed of the number.
pub assume_specification[ Duration::as_secs ](duration: &Duration) -> u64;

/// The number that a text stands for, as `str::parse` reads it into 16
/// bits; none where it reads no such number.
pub uninterp spec fn parsed_u16(text: Seq<char>) -> Option<u16>;

/// `str::parse::<u16>` reads a decimal number of 16 bits from a text, or
/// fails. Its answer depends on the text alone.
#[verifier::external_body]
pub(crate) fn parse_u16(text: &str) -> (r: Option<u16>)
    ensures
        r == parsed_u16(text@),
{
    text.parse::<u16>().ok()
}

/// The truth value that a text stands for: `true` and `false` stand for
/// themselves, and no other text for anything.
pub open spec fn parsed_bool(text: Seq<char>) -> Option<bool> {
    if text == "true"@ {
        Some(true)
    } else if text == "false"@ {
        Some(false)
    } else {
        None
    }
}

/// Reads a truth value from a text.
pub fn parse_bool(text: &str) -> (r: Option<bool>)
    ensures
        r == parsed_bool(text@),
{
    if same_text(text, "true") {
        Some(true)
    } else if same_text(text, "false") {
        Some(false)
    } else {
        None
    }
}

/// Where and how the counters are shown.
#[derive(Clone, Debug)]
pub struct MetricsConfig {
    /// The address the server listens on.
    pub address: String,
    /// The port the server listens on.
    pub port: u16,
    /// The path of the counters.
    pub metrics_path: String,
    /// The path of the health check.
    pub health_path: String,
    /// Whether detailed counters are shown.
    pub enable_detailed_metrics: bool,
}

/// The port that a setting was read as, or 9090 where it could not be read.
pub fn port_or_default(read: Option<u16>) -> (port: u16)
    ensures
        port == read.unwrap_or(9090),
{
    match read {
        Some(number) => number,
        None => 9090,
    }
}

/// A setting, or its default where there is none.
pub fn setting_or(setting: Option<String>, default: &str) -> (text: String)
    ensures
        text@ == match setting {
            Some(given) => given@,
            None => default@,
        },
{
    match setting {
        Some(given) => given,
        None => String::from_str(default),
    }
}

impl MetricsConfig {
    /// The configuration that a set of settings describes. A setting that
    /// is missing has its default: all addresses, port 9090, the paths
    /// `/metrics` and `/health`, detailed counters shown. So has a port or a
    /// truth value that cannot be read.
    pub fn from_settings(
        address: Option<String>,
        port: Option<String>,
        metrics_path: Option<String>,
        health_path: Option<String>,
        enable_detailed_metrics: Option<String>,
    ) -> (config: Self)
        ensures
            config.address@ == match address {
                Some(given) => given@,
                None => "0.0.0.0"@,
            },
            config.port == match port {
                Some(given) => parsed_u16(given@).unwrap_or(9090),
                None => parsed_u16("9090"@).unwrap_or(9090),
            },
            config.metrics_path@ == match metrics_path {
                Some(given) => given@,
                None => "/metrics"@,
            },
            config.health_path@ == match health_path {
                Some(given) => given@,
                None => "/health"@,
            },
            config.enable_detailed_metrics == match enable_detailed_metrics {
                Some(given) => parsed_bool(given@).unwrap_or(true),
                None => true,
            },
    {
        let port_text = setting_or(port, "9090");
        let port = port_or_default(parse_u16(port_text.as_str()));
        let detailed_text = setting_or(enable_detailed_metrics, "true");
        let detailed = match parse_bool(detailed_text.as_str()) {
            Some(value) => value,
            None => true,
        };
        MetricsConfig {
            address: setting_or(address, "0.0.0.0"),
            port,
            metrics_path: setting_or(metrics_path, "/metrics"),
            health_path: setting_or(health_path, "/health"),
            enable_detailed_metrics: detailed,
        }
    }
}

/// The average of response times after one more response: the average so
/// far, weighted with the number of requests before this one, and the new
/// time, over the number of requests. With no request counted the average
/// stays as it is.
pub open spec fn moving_average_spec(average: u64, total_requests: u64, response_time_ms: u64) -> u64 {
    if total_requests > 0 {
        ((average * (total_requests - 1) + response_time_ms) / (total_requests as int)) as u64
    } else {
        average
    }
}

/// The average of response times after one more response.
pub fn moving_average(average: u64, total_requests: u64, response_time_ms: u64) -> (r: u64)
    ensures
        r == moving_average_spec(average, total_requests, response_time_ms),
{
    if total_requests > 0 {
        assert(average * (total_requests - 1) <= 0xffff_ffff_ffff_ffff * 0xffff_ffff_ffff_ffff)
            by (nonlinear_arith)
            requires
                0 <= average <= 0xffff_ffff_ffff_ffff,
                0 <= total_requests - 1 <= 0xffff_ffff_ffff_ffff,
        ;
        let weighted: u128 = (average as u128) * ((total_requests - 1) as u128);
        let sum: u128 = weighted + response_time_ms as u128;
        let mean: u128 = sum / (total_requests as u128);
        assert(mean <= u64::MAX) by (nonlinear_arith)
            requires
                sum == average * (total_requests - 1) + response_time_ms,
                mean == sum / (total_requests as u128),
                average <= u64::MAX,
                response_time_ms <= u64::MAX,
                total_requests >= 1,
        ;
        mean as u64
    } else {
        average
    }
}

/// The counters of a running service. They are shared, and each is changed
/// in one step.
#[derive(Clone, Debug)]
pub struct AppMetrics {
    /// When the service started.
    pub start_time: Instant,
    /// Requests seen.
    pub total_requests: Arc<AtomicU64>,
    /// Requests that succeeded.
    pub successful_requests: Arc<AtomicU64>,
    /// Requests that failed.
    pub failed_requests: Arc<AtomicU64>,
    /// Identifiers minted.
    pub generated_ids: Arc<AtomicU64>,
    /// The average response time in milliseconds.
    pub avg_response_time_ms: Arc<AtomicU64>,
}

impl Default for AppMetrics {
    /// Counters at zero, started now.
    fn default() -> (metrics: Self) {
        AppMetrics {
            start_time: Instant::now(),
            total_requests: Arc::new(AtomicU64::new(0)),
            successful_requests: Arc::new(AtomicU64::new(0)),
            failed_requests: Arc::new(AtomicU64::new(0)),
            generated_ids: Arc::new(AtomicU64::new(0)),
            avg_response_time_ms: Arc::new(AtomicU64::new(0)),
        }
    }
}

impl AppMetrics {
    /// Counts a request.
    pub fn increment_request(&self) {
        let _ = self.total_requests.fetch_add(1, Ordering::Relaxed);
    }

    /// Counts a request that succeeded and took `response_time_ms`.
    pub fn record_success(&self, response_time_ms: u64) {
        let _ = self.successful_requests.fetch_add(1, Ordering::Relaxed);
        self.update_avg_response_time(response_time_ms);
    }

    /// Counts a request that failed and took `response_time_ms`.
    pub fn record_failure(&self, response_time_ms: u64) {
        let _ = self.failed_requests.fetch_add(1, Ordering::Relaxed);
        self.update_avg_response_time(response_time_ms);
    }

    /// Counts an identifier.
    pub fn increment_generated_ids(&self) {
        let _ = self.generated_ids.fetch_add(1, Ordering::Relaxed);
    }

    /// Brings the average response time up to date with one more response.
    fn update_avg_response_time(&self, response_time_ms: u64) {
        let current = self.avg_response_time_ms.load(Ordering::Relaxed);
        let total = self.total_requests.load(Ordering::Relaxed);
        if total > 0 {
            self.avg_response_time_ms.store(
                moving_average(current, total, response_time_ms),
                Ordering::Relaxed,
            );
        }
    }

    /// How long the service has run, in whole seconds.
    pub fn uptime_seconds(&self) -> u64 {
        self.start_time.elapsed().as_secs()
    }
}

/// The server that shows the counters.
pub struct MetricsServer {
    config: MetricsConfig,
    metrics: Arc<AppMetrics>,
}

impl MetricsServer {
    /// The configuration of the server.
    pub closed spec fn config_spec(self) -> MetricsConfig {
        self.config
    }

    /// A server with counters at zero.
    pub fn new(config: MetricsConfig) -> (server: Self)
        ensures
            server.config_spec() == config,
    {
        MetricsServer { config, metrics: Arc::new(AppMetrics::default()) }
    }

    /// The configuration of the server.
    pub fn config(&self) -> (config: &MetricsConfig)
        ensures
            *config == self.config_spec(),
    {
        &self.config
    }

    /// The counters of the server.
    pub closed spec fn metrics_spec(self) -> Arc<AppMetrics> {
        self.metrics
    }

    /// The counters, to be shared with what counts.
    pub fn metrics(&self) -> (metrics: Arc<AppMetrics>)
        ensures
            metrics == self.metrics_spec(),
    {
        Arc::clone(&self.metrics)
    }
}

/// Makes the server that a set of settings describes, each missing setting
/// at its default, and hands it out with its counters. It always succeeds.
pub fn init_metrics(
    address: Option<String>,
    port: Option<String>,
    metrics_path: Option<String>,
    health_path: Option<String>,
    enable_detailed_metrics: Option<String>,
) -> (r: Result<(MetricsServer, Arc<AppMetrics>), SharedError>)
    ensures
        r matches Ok(pair) && pair.1 == pair.0.metrics_spec() && pair.0.config_spec().port
            == (match port {
            Some(given) => parsed_u16(given@).unwrap_or(9090),
            None => parsed_u16("9090"@).unwrap_or(9090),
        }) && pair.0.config_spec().address@ == (match address {
            Some(given) => given@,
            None => "0.0.0.0"@,
        }) && pair.0.config_spec().metrics_path@ == (match metrics_path {
            Some(given) => given@,
            None => "/metrics"@,
        }) && pair.0.config_spec().health_path@ == (match health_path {
            Some(given) => given@,
            None => "/health"@,
        }) && pair.0.config_spec().enable_detailed_metrics == (match enable_detailed_metrics {
            Some(given) => parsed_bool(given@).unwrap_or(true),
            None => true,
        }),
{
    init_metrics_with_config(
        MetricsConfig::from_settings(
            address,
            port,
            metrics_path,
            health_path,
            enable_detailed_metrics,
        ),
    )
}

/// Makes the server for a configuration and hands it out with its counters.
/// It always succeeds.
pub fn init_metrics_with_config(config: MetricsConfig) -> (r: Result<
    (MetricsServer, Arc<AppMetrics>),
    SharedError,
>)
    ensures
        r matches Ok(pair) && pair.0.config_spec() == config && pair.1 == pair.0.metrics_spec(),
{
    let server = MetricsServer::new(config);
    let metrics = server.metrics();
    Ok((server, metrics))
}

} // verus!
