use echosrv::client::{ClientConfig, ClientConfigBuilder};
use echosrv::limits::{SizeError, SizeValidator};
use std::time::Duration;

#[test]
fn test_size_validator() {
    let validator = SizeValidator::new(100);

    assert!(validator.validate_size(50).is_ok());
    assert!(validator.validate_size(100).is_ok());
    assert!(validator.validate_size(101).is_err());
}

#[test]
fn size_validator_reports_actual_and_max() {
    let validator = SizeValidator::new(100);
    assert_eq!(validator.max_size(), 100);
    assert_eq!(
        validator.validate_size(101),
        Err(SizeError::TooLarge { actual: 101, max: 100 })
    );
    assert_eq!(validator.validate_size(0), Ok(()));
}

#[test]
fn size_validator_zero_maximum() {
    let validator = SizeValidator::new(0);
    assert!(validator.validate_size(0).is_ok());
    assert!(validator.validate_size(1).is_err());
}

#[test]
fn test_client_config_builder() {
    let config = ClientConfigBuilder::new()
        .read_timeout(Duration::from_secs(60))
        .write_timeout(Duration::from_secs(30))
        .buffer_size(2048)
        .max_response_size(1024 * 1024)
        .build();

    assert_eq!(config.read_timeout, Duration::from_secs(60));
    assert_eq!(config.write_timeout, Duration::from_secs(30));
    assert_eq!(config.buffer_size, 2048);
    assert_eq!(config.max_response_size, 1024 * 1024);
}

#[test]
fn test_size_validation() {
    let config = ClientConfig {
        max_response_size: 100,
        ..Default::default()
    };

    assert!(config.max_response_size == 100);
}

#[test]
fn client_config_defaults() {
    let config = ClientConfig::default();
    assert_eq!(config.read_timeout, Duration::from_secs(30));
    assert_eq!(config.write_timeout, Duration::from_secs(30));
    assert_eq!(config.connect_timeout, Duration::from_secs(10));
    assert_eq!(config.buffer_size, 1024);
    assert_eq!(config.max_response_size, 10 * 1024 * 1024);
}

#[test]
fn client_config_builder_connect_timeout() {
    let config = ClientConfigBuilder::new()
        .connect_timeout(Duration::from_millis(100))
        .build();
    assert_eq!(config.connect_timeout, Duration::from_millis(100));
    assert_eq!(config.read_timeout, Duration::from_secs(30));
}
