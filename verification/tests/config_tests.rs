use event_listener::config::{
    parse_node, parse_node_status, DataReaderConfigBuilder, DeploymentConfig,
};
use event_listener::error::ConfigurationError;

fn deployment() -> DeploymentConfig {
    DeploymentConfig::new(
        "sawtooth_message".to_string(),
        "1.0".to_string(),
        "8c40ac".to_string(),
        "/var/contracts/message.wasm".to_string(),
        "kafka:9092".to_string(),
        "consortium-events".to_string(),
    )
}

#[test]
fn deployment_getters_return_the_settings() {
    let d = deployment();
    assert_eq!(d.tp_name(), "sawtooth_message");
    assert_eq!(d.tp_version(), "1.0");
    assert_eq!(d.tp_prefix(), "8c40ac");
    assert_eq!(d.tp_path(), "/var/contracts/message.wasm");
}

#[test]
fn builder_defaults() {
    let b = DataReaderConfigBuilder::default();
    assert_eq!(b.splinterd_url.as_deref(), Some("http://127.0.0.1:8080"));
    assert_eq!(b.config_file.as_deref(), Some("deployment-config.yaml"));
}

#[test]
fn cli_args_override_defaults() {
    let mut b = DataReaderConfigBuilder::default();
    let b = b.with_cli_args(Some("http://other:9000".to_string()), None);
    assert_eq!(b.splinterd_url.as_deref(), Some("http://other:9000"));
    assert_eq!(b.config_file.as_deref(), Some("deployment-config.yaml"));
}

#[test]
fn cli_args_move_the_builder_value_only_when_not_overridden() {
    let mut b = DataReaderConfigBuilder::default();
    let r = b.with_cli_args(Some("http://other:9000".to_string()), None);
    // The overridden option stays in the builder; the defaulted one moves.
    assert_eq!(b.splinterd_url.as_deref(), Some("http://127.0.0.1:8080"));
    assert_eq!(b.config_file, None);
    assert_eq!(r.splinterd_url.as_deref(), Some("http://other:9000"));
    assert_eq!(r.config_file.as_deref(), Some("deployment-config.yaml"));
}

#[test]
fn build_with_everything_present() {
    let mut b = DataReaderConfigBuilder::default();
    let b = b.with_cli_args(None, Some("custom.yaml".to_string()));
    assert_eq!(b.config_file().as_deref(), Some("custom.yaml"));
    let config = b.build(Some(deployment())).unwrap();
    assert_eq!(config.splinterd_url(), "http://127.0.0.1:8080");
    assert_eq!(config.deployment_config().tp_prefix(), "8c40ac");
}

#[test]
fn build_without_url_is_a_configuration_error() {
    let b = DataReaderConfigBuilder { splinterd_url: None, config_file: None };
    match b.build(Some(deployment())).unwrap_err() {
        ConfigurationError::MissingValue(field) => assert_eq!(field, "splinterd_url"),
    }
}

#[test]
fn build_without_deployment_is_a_configuration_error() {
    let b = DataReaderConfigBuilder::default();
    match b.build(None).unwrap_err() {
        ConfigurationError::MissingValue(field) => {
            assert_eq!(field, "Deployment configuration file is missing");
        }
    }
}

#[test]
fn configuration_error_message_names_the_field() {
    let e = ConfigurationError::MissingValue("splinterd_url".to_string());
    assert_eq!(e.message(), "Missing configuration for splinterd_url");
}

#[test]
fn node_status_with_id() {
    let body = br#"{"node_id":"n1","version":"0.3"}"#;
    assert_eq!(parse_node_status(body).unwrap(), "n1");
}

#[test]
fn node_status_without_id_defaults_to_empty() {
    assert_eq!(parse_node_status(br#"{"version":"0.3"}"#).unwrap(), "");
    assert_eq!(parse_node_status(br#"{"node_id":7}"#).unwrap(), "");
}

#[test]
fn node_status_that_is_not_json_is_an_error() {
    let err = parse_node_status(b"no json here").unwrap_err();
    assert!(err.message().starts_with("Failed to get splinter node metadata: "));
}

#[test]
fn node_record_needs_an_identity() {
    let node = parse_node(br#"{"identity":"n1","endpoint":"tcp://n1:8044"}"#).unwrap();
    assert_eq!(node.identity, "n1");
    assert!(parse_node(br#"{"endpoint":"tcp://n1:8044"}"#).is_err());
    assert!(parse_node(b"]").is_err());
}
