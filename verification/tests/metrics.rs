use tinyid::clock::{now_rfc3339, now_unix_seconds};
use tinyid::config::{IdGeneratorRpcConfig, ServerConfig, UserRpcConfig};
use tinyid::error::{SharedError, StatusKind, TinyIdError, UserError};
use tinyid::metric::{
    init_metrics_with_config, moving_average, parse_bool, AppMetrics, MetricsConfig,
    MetricsServer,
};
use tinyid::text::{contains_char, decimal_string, join2, join3, same_text};

#[test]
fn test_app_metrics() {
    let metrics = AppMetrics::default();

    metrics.increment_request();
    assert_eq!(
        metrics
            .total_requests
            .load(std::sync::atomic::Ordering::Relaxed),
        1
    );

    metrics.record_success(100);
    assert_eq!(
        metrics
            .successful_requests
            .load(std::sync::atomic::Ordering::Relaxed),
        1
    );

    metrics.record_failure(200);
    assert_eq!(
        metrics
            .failed_requests
            .load(std::sync::atomic::Ordering::Relaxed),
        1
    );

    metrics.increment_generated_ids();
    assert_eq!(
        metrics
            .generated_ids
            .load(std::sync::atomic::Ordering::Relaxed),
        1
    );
}

#[test]
fn test_metrics_config() {
    let config = MetricsConfig::from_settings(None, None, None, None, None);
    assert_eq!(config.address, "0.0.0.0");
    assert_eq!(config.port, 9090);
    assert_eq!(config.metrics_path, "/metrics");
    assert_eq!(config.health_path, "/health");
}

#[test]
fn test_metrics_server_creation() {
    let config = MetricsConfig::from_settings(None, None, None, None, None);
    let server = MetricsServer::new(config);

    let metrics = server.metrics();
    metrics.increment_request();

    assert_eq!(
        metrics
            .total_requests
            .load(std::sync::atomic::Ordering::Relaxed),
        1
    );
}

#[test]
fn settings_replace_the_defaults() {
    let config = MetricsConfig::from_settings(
        Some("127.0.0.1".to_string()),
        Some("8081".to_string()),
        Some("/m".to_string()),
        Some("/h".to_string()),
        Some("false".to_string()),
    );
    assert_eq!(config.address, "127.0.0.1");
    assert_eq!(config.port, 8081);
    assert_eq!(config.metrics_path, "/m");
    assert_eq!(config.health_path, "/h");
    assert!(!config.enable_detailed_metrics);
}

#[test]
fn settings_that_cannot_be_read_fall_back() {
    let config = MetricsConfig::from_settings(
        None,
        Some("70000".to_string()),
        None,
        None,
        Some("yes".to_string()),
    );
    assert_eq!(config.port, 9090);
    assert!(config.enable_detailed_metrics);
    let config = MetricsConfig::from_settings(None, Some("port".to_string()), None, None, None);
    assert_eq!(config.port, 9090);
    assert_eq!(parse_bool("true"), Some(true));
    assert_eq!(parse_bool("false"), Some(false));
    assert_eq!(parse_bool("True"), None);
    assert_eq!(parse_bool(""), None);
}

#[test]
fn the_average_moves_with_each_response() {
    assert_eq!(moving_average(0, 1, 100), 100);
    assert_eq!(moving_average(100, 2, 200), 150);
    assert_eq!(moving_average(150, 3, 0), 100);
    assert_eq!(moving_average(7, 0, 1000), 7);
    assert_eq!(moving_average(u64::MAX, u64::MAX, u64::MAX), u64::MAX);
    assert_eq!(moving_average(10, 4, 1), 7);
}

#[test]
fn the_average_follows_the_counters() {
    let metrics = AppMetrics::default();
    metrics.increment_request();
    metrics.record_success(100);
    metrics.increment_request();
    metrics.record_failure(200);
    let average = metrics.avg_response_time_ms.load(std::sync::atomic::Ordering::Relaxed);
    assert_eq!(average, 150);
    assert!(metrics.uptime_seconds() < 60);
}

#[test]
fn the_server_hands_out_its_counters() {
    let config = MetricsConfig::from_settings(None, Some("1".to_string()), None, None, None);
    let (server, metrics) = init_metrics_with_config(config).ok().unwrap();
    assert_eq!(server.config().port, 1);
    metrics.increment_generated_ids();
    let again = server.metrics();
    assert_eq!(again.generated_ids.load(std::sync::atomic::Ordering::Relaxed), 1);
}

#[test]
fn server_configurations_carry_their_defaults() {
    let cfg = ServerConfig::new("0.0.0.0".to_string(), 8080, vec!["[::1]:50051".to_string()]);
    assert_eq!(cfg.addr, "0.0.0.0");
    assert_eq!(cfg.port, 8080);
    assert_eq!(cfg.grpc_addr, vec!["[::1]:50051".to_string()]);
    assert_eq!(cfg.id_generator.timestamp_bits, 42);
    let default = tinyid::config::IdGeneratorConfig::default();
    assert_eq!(cfg.id_generator.epoch, default.epoch);
    assert_eq!(
        (
            cfg.id_generator.worker_id,
            cfg.id_generator.datacenter_id,
            cfg.id_generator.sequence_bits,
            cfg.id_generator.worker_id_bits,
            cfg.id_generator.datacenter_id_bits,
            cfg.id_generator.max_sequence,
            cfg.id_generator.max_worker_id,
            cfg.id_generator.max_datacenter_id,
        ),
        (0, 0, 12, 7, 3, 4095, 127, 7)
    );
    assert_eq!(cfg.user_rpc.rpc_cfg.addr, vec!["http://[::1]:50052".to_string()]);

    let cfg = ServerConfig::default_for_test();
    assert_eq!(cfg.addr, "127.0.0.1");
    assert_eq!(cfg.port, 8080);
    assert_eq!(cfg.grpc_addr, vec!["[127.0.0.1]:50051".to_string()]);

    assert_eq!(
        IdGeneratorRpcConfig::default().rpc_cfg.addr,
        vec!["http://[::1]:50051".to_string()]
    );
    assert_eq!(UserRpcConfig::default().rpc_cfg.addr, vec!["http://[::1]:50052".to_string()]);
}

#[test]
fn each_error_has_its_text() {
    assert_eq!(
        TinyIdError::IdGenerationFailed("x".to_string()).to_string(),
        "ID generation failed: x"
    );
    assert_eq!(
        TinyIdError::UserServiceError("x".to_string()).to_string(),
        "User service error: x"
    );
    assert_eq!(TinyIdError::InternalError("x".to_string()).to_string(), "Internal error: x");
    assert_eq!(
        TinyIdError::ClockMovedBackwards(1234).to_string(),
        "Clock moved backwards by 1234ms"
    );
    assert_eq!(TinyIdError::InvalidRequest("x".to_string()).to_string(), "Invalid request: x");
    assert_eq!(TinyIdError::InvalidWorkerId(64).to_string(), "Invalid worker ID: 64");
    assert_eq!(TinyIdError::InvalidDatacenterId(32).to_string(), "Invalid datacenter ID: 32");
    assert_eq!(TinyIdError::ConfigError("x".to_string()).to_string(), "configuration error:x");
    assert_eq!(TinyIdError::ServerError("x".to_string()).to_string(), "Server error: x");

    assert_eq!(SharedError::InternalError("x".to_string()).to_string(), "Internal error: x");
    assert_eq!(
        SharedError::ConfigurationError("x".to_string()).to_string(),
        "Configuration error: x"
    );
    assert_eq!(SharedError::NetworkError("x".to_string()).to_string(), "Network error: x");
    assert_eq!(SharedError::NotFound("x".to_string()).to_string(), "Not found: x");
    assert_eq!(SharedError::ValidationError("x".to_string()).to_string(), "Validation error: x");
    assert_eq!(
        SharedError::ServiceUnavailable("x".to_string()).to_string(),
        "Service unavailable: x"
    );

    assert_eq!(UserError::NotFound(7).to_string(), "User not found: 7");
    assert_eq!(UserError::InvalidData("x".to_string()).to_string(), "Invalid user data: x");
    assert_eq!(UserError::AlreadyExists("x".to_string()).to_string(), "User already exists: x");
    assert_eq!(UserError::DatabaseError("x".to_string()).to_string(), "Database error: x");
    assert_eq!(UserError::InternalError("x".to_string()).to_string(), "Internal error: x");
}

#[test]
fn each_user_error_has_its_class() {
    assert_eq!(UserError::NotFound(7).status_kind(), StatusKind::NotFound);
    assert_eq!(UserError::InvalidData(String::new()).status_kind(), StatusKind::InvalidArgument);
    assert_eq!(UserError::AlreadyExists(String::new()).status_kind(), StatusKind::AlreadyExists);
    assert_eq!(UserError::DatabaseError(String::new()).status_kind(), StatusKind::Internal);
    assert_eq!(UserError::InternalError(String::new()).status_kind(), StatusKind::Internal);
}

#[test]
fn numbers_are_written_in_decimal() {
    assert_eq!(decimal_string(0), "0");
    assert_eq!(decimal_string(7), "7");
    assert_eq!(decimal_string(10), "10");
    assert_eq!(decimal_string(1001), "1001");
    assert_eq!(decimal_string(u64::MAX), "18446744073709551615");
}

#[test]
fn texts_are_joined_and_compared() {
    assert_eq!(join2("ab", "cd"), "abcd");
    assert_eq!(join3("a", "", "名"), "a名");
    assert!(same_text("名", "名"));
    assert!(!same_text("a", "b"));
    assert!(contains_char("a@b", '@'));
    assert!(!contains_char("ab", '@'));
    assert!(!contains_char("", '@'));
}

#[test]
fn the_present_instant_is_written_as_the_calendar_has_it() {
    let text = now_rfc3339().unwrap();
    // such as 2026-10-29T08:15:30.123456789+00:00
    assert!(text.len() >= 25);
    assert!(text.starts_with("20"));
    assert_eq!(&text[4..5], "-");
    assert_eq!(&text[7..8], "-");
    assert_eq!(&text[10..11], "T");
    assert!(text.ends_with("+00:00"));
    let seconds = now_unix_seconds();
    assert!(seconds > 1_700_000_000);
    assert!(now_unix_seconds() >= seconds);
}

#[test]
fn the_metrics_system_starts_from_settings() {
    let (server, metrics) =
        tinyid::metric::init_metrics(None, Some("9100".to_string()), None, None, None)
            .ok()
            .unwrap();
    assert_eq!(server.config().port, 9100);
    assert_eq!(server.config().address, "0.0.0.0");
    assert!(server.config().enable_detailed_metrics);
    metrics.increment_request();
    assert_eq!(server.metrics().total_requests.load(std::sync::atomic::Ordering::Relaxed), 1);
}
