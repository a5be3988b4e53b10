use std::collections::HashMap;
use std::time::Duration;

use agentic_server::telemetry::config::{
    parse_bool, parse_exporter, parse_protocol, ExporterSelection, OtlpProtocol, TelemetryConfig,
    TelemetryConfigError,
};

fn config_from(pairs: &[(&str, &str)]) -> Result<TelemetryConfig, TelemetryConfigError> {
    let vars: HashMap<&str, &str> = pairs.iter().copied().collect();
    TelemetryConfig::from_lookup(|name: &str| vars.get(name).map(|value| (*value).to_owned()))
}

#[test]
fn unset_environment_is_disabled() {
    let config = config_from(&[]).unwrap();
    assert!(!config.is_enabled());
    assert_eq!(config, TelemetryConfig::disabled());
    assert_eq!(config.service_name(), "agentic-api");
}

#[test]
fn otlp_selection_enables_each_signal_independently() {
    let traces_only = config_from(&[("OTEL_TRACES_EXPORTER", "otlp")]).unwrap();
    assert!(traces_only.is_enabled());
    assert_eq!(traces_only.traces(), ExporterSelection::Otlp);
    assert_eq!(traces_only.metrics(), ExporterSelection::Off);

    let metrics_only = config_from(&[("OTEL_METRICS_EXPORTER", "OTLP")]).unwrap();
    assert!(metrics_only.is_enabled());
    assert_eq!(metrics_only.traces(), ExporterSelection::Off);
    assert_eq!(metrics_only.metrics(), ExporterSelection::Otlp);
}

#[test]
fn sdk_disabled_overrides_exporter_selection() {
    let config = config_from(&[
        ("OTEL_SDK_DISABLED", "TRUE"),
        ("OTEL_TRACES_EXPORTER", "otlp"),
        ("OTEL_METRICS_EXPORTER", "otlp"),
        ("OTEL_SERVICE_NAME", "custom"),
    ])
    .unwrap();
    assert!(!config.is_enabled());
    assert_eq!(config, TelemetryConfig::disabled());
}

#[test]
fn sdk_disabled_rejects_non_boolean_values() {
    let error = config_from(&[("OTEL_SDK_DISABLED", "1")]).unwrap_err();
    assert_eq!(
        error,
        TelemetryConfigError::InvalidBool {
            var: "OTEL_SDK_DISABLED",
            value: "1".to_owned(),
        }
    );
}

#[test]
fn unknown_exporter_values_are_rejected() {
    let error = config_from(&[("OTEL_TRACES_EXPORTER", "otlp,console")]).unwrap_err();
    assert_eq!(
        error,
        TelemetryConfigError::UnknownExporter {
            var: "OTEL_TRACES_EXPORTER",
            value: "otlp,console".to_owned(),
        }
    );
}

#[test]
fn grpc_protocol_is_rejected_on_every_protocol_variable() {
    for var in [
        "OTEL_EXPORTER_OTLP_PROTOCOL",
        "OTEL_EXPORTER_OTLP_TRACES_PROTOCOL",
        "OTEL_EXPORTER_OTLP_METRICS_PROTOCOL",
    ] {
        let error = config_from(&[("OTEL_TRACES_EXPORTER", "otlp"), (var, "grpc")]).unwrap_err();
        assert!(
            matches!(&error, TelemetryConfigError::UnsupportedProtocol { var: failed, value } if *failed == var && value == "grpc"),
            "{var}: {}",
            error.to_string()
        );
        assert!(error.to_string().contains("Rust 1.88"), "{}", error.to_string());
    }
}

#[test]
fn http_protobuf_is_accepted_case_insensitively() {
    let config = config_from(&[
        ("OTEL_TRACES_EXPORTER", "otlp"),
        ("OTEL_EXPORTER_OTLP_PROTOCOL", " HTTP/Protobuf "),
    ])
    .unwrap();
    assert_eq!(config.protocol(), OtlpProtocol::HttpProtobuf);
}

#[test]
fn service_name_is_trimmed_and_defaulted() {
    let config = config_from(&[("OTEL_SERVICE_NAME", "  gateway-eu  ")]).unwrap();
    assert_eq!(config.service_name(), "gateway-eu");

    let blank = config_from(&[("OTEL_SERVICE_NAME", "   ")]).unwrap();
    assert_eq!(blank.service_name(), "agentic-api");
}

#[test]
fn programmatic_endpoint_is_never_read_from_the_environment() {
    let config = config_from(&[("OTEL_EXPORTER_OTLP_ENDPOINT", "http://collector:4318")]).unwrap();
    assert_eq!(config.otlp_endpoint(), None);
    let overridden = config.with_otlp_endpoint("http://127.0.0.1:1");
    assert_eq!(overridden.otlp_endpoint(), Some("http://127.0.0.1:1"));
}

#[test]
fn programmatic_timeout_is_kept() {
    let config = config_from(&[("OTEL_EXPORTER_OTLP_TIMEOUT", "5")]).unwrap();
    assert_eq!(config.otlp_timeout(), None);
    let bounded = config.with_otlp_timeout(Duration::from_millis(250));
    assert_eq!(bounded.otlp_timeout(), Some(Duration::from_millis(250)));
    assert_eq!(bounded.otlp_endpoint(), None);
    assert_eq!(bounded.clone(), bounded);
}

#[test]
fn blank_values_count_as_unset() {
    assert_eq!(parse_bool("V", None), Ok(false));
    assert_eq!(parse_bool("V", Some(" \t ")), Ok(false));
    assert_eq!(parse_bool("V", Some(" False ")), Ok(false));
    assert_eq!(parse_bool("V", Some(" tRuE ")), Ok(true));
    assert_eq!(parse_exporter("V", Some("\u{a0}")), Ok(ExporterSelection::Off));
    assert_eq!(parse_exporter("V", Some(" None ")), Ok(ExporterSelection::Off));
    assert_eq!(parse_protocol("V", Some("")), Ok(OtlpProtocol::HttpProtobuf));
}

#[test]
fn diagnostics_name_the_variable_and_the_trimmed_value() {
    assert_eq!(
        parse_bool("V", Some(" yes ")).unwrap_err().to_string(),
        "V must be `true` or `false`, got `yes`"
    );
    assert_eq!(
        parse_exporter("V", Some(" console ")).unwrap_err().to_string(),
        "V must be `none` or `otlp`, got `console`"
    );
    assert_eq!(
        parse_protocol("V", Some(" grpc ")).unwrap_err().to_string(),
        "V must be `http/protobuf` (gRPC is unavailable below Rust 1.88), got `grpc`"
    );
}

#[test]
fn kill_switch_does_not_hide_invalid_variables() {
    let error = config_from(&[("OTEL_SDK_DISABLED", "true"), ("OTEL_TRACES_EXPORTER", "console")]).unwrap_err();
    assert_eq!(
        error,
        TelemetryConfigError::UnknownExporter {
            var: "OTEL_TRACES_EXPORTER",
            value: "console".to_owned(),
        }
    );
    let error = config_from(&[
        ("OTEL_SDK_DISABLED", "true"),
        ("OTEL_EXPORTER_OTLP_METRICS_PROTOCOL", "grpc"),
    ])
    .unwrap_err();
    assert_eq!(
        error,
        TelemetryConfigError::UnsupportedProtocol {
            var: "OTEL_EXPORTER_OTLP_METRICS_PROTOCOL",
            value: "grpc".to_owned(),
        }
    );
    assert_eq!(config_from(&[("OTEL_SDK_DISABLED", "true")]).unwrap(), TelemetryConfig::default());
}

#[test]
fn protocol_has_its_wire_name() {
    assert_eq!(OtlpProtocol::default().as_str(), "http/protobuf");
    assert_eq!(OtlpProtocol::parse("V", "http/protobuf"), Ok(OtlpProtocol::HttpProtobuf));
    assert_eq!(ExporterSelection::parse("V", "otlp"), Ok(ExporterSelection::Otlp));
    assert_eq!(ExporterSelection::default(), ExporterSelection::Off);
}
