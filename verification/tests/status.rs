use db2_exporter::config::{AppConfig, ConfigError};
use db2_exporter::downloader::DownloadService;
use db2_exporter::outcome::FailureReason;
use db2_exporter::status::{describe_status, is_success_status, rejection_message};
use db2_exporter::text::u32_to_decimal;

#[test]
fn success_is_the_class_of_200() {
    for code in 0..=u16::MAX {
        assert_eq!(is_success_status(code), (200..300).contains(&code));
    }
}

#[test]
fn status_is_shown_with_its_reason() {
    assert_eq!(describe_status(200), "200 OK");
    assert_eq!(describe_status(404), "404 Not Found");
    assert_eq!(describe_status(503), "503 Service Unavailable");
    assert_eq!(describe_status(999), "999 <unknown status code>");
    assert_eq!(describe_status(100), "100 Continue");
    assert_eq!(describe_status(99), "99");
    assert_eq!(describe_status(1000), "1000");
    assert_eq!(describe_status(0), "0");
}

#[test]
fn failure_reports() {
    assert_eq!(rejection_message("Map", "404 Not Found"), "Download error: Map: 404 Not Found");
    assert_eq!(
        FailureReason::Status { table: "Map".to_string(), status: 418 }.message(),
        "Download error: Map: 418 I'm a teapot"
    );
    assert_eq!(
        FailureReason::Status { table: "Map".to_string(), status: 7 }.message(),
        "Download error: Map: 7"
    );
    assert_eq!(
        FailureReason::RetriesExhausted { table: "Map".to_string() }.message(),
        "The number of attempts for the table has been exceeded Map"
    );
    assert_eq!(FailureReason::Timeout { detail: "timed out".to_string() }.message(), "timed out");
    assert_eq!(FailureReason::Io { detail: "disk full".to_string() }.message(), "disk full");
    assert_eq!(FailureReason::Transport { detail: "refused".to_string() }.message(), "refused");
}

#[test]
fn numbers_in_decimal() {
    assert_eq!(u32_to_decimal(0), "0");
    assert_eq!(u32_to_decimal(7), "7");
    assert_eq!(u32_to_decimal(10), "10");
    assert_eq!(u32_to_decimal(57212), "57212");
    assert_eq!(u32_to_decimal(1_000_000), "1000000");
    assert_eq!(u32_to_decimal(u32::MAX), "4294967295");
    for n in (0..200_000u32).step_by(37) {
        assert_eq!(u32_to_decimal(n), n.to_string());
    }
}

#[test]
fn stock_settings() {
    let config = AppConfig::new();
    assert_eq!(config.base_url, "https://wago.tools/db2");
    assert_eq!(config.requests_per_minute, 100);
    assert_eq!(config.max_retries, 3);
    assert_eq!(config.retry_delay_secs, 5);
    assert_eq!(config.max_concurrent_downloads, 4);
    assert_eq!(config.validate(), Ok(()));
}

#[test]
fn unusable_settings_are_named() {
    let mut config = AppConfig::new();
    config.max_concurrent_downloads = 0;
    assert_eq!(config.validate(), Err(ConfigError::ZeroConcurrentDownloads));
    assert_eq!(
        DownloadService::from_config(config, 0).err(),
        Some(ConfigError::ZeroConcurrentDownloads)
    );

    let mut config = AppConfig::new();
    config.requests_per_minute = 0;
    config.max_concurrent_downloads = 0;
    assert_eq!(config.validate(), Err(ConfigError::ZeroRequestsPerMinute));
    assert_eq!(
        DownloadService::from_config(config, 0).err(),
        Some(ConfigError::ZeroRequestsPerMinute)
    );

    let mut config = AppConfig::new();
    config.max_retries = 0;
    config.retry_delay_secs = 0;
    config.requests_per_minute = 7;
    config.max_concurrent_downloads = 2;
    let service = DownloadService::from_config(config, 42).unwrap();
    assert_eq!(service.rate_limiter().requests_per_minute(), 7);
    assert_eq!(service.rate_limiter().window_start(), 42);
    assert_eq!(service.rate_limiter().requests_made(), 0);
    assert_eq!(service.concurrent_downloads(), 2);
    assert_eq!(service.retry_policy().max_retries, 0);
}
