use swe_edge_runtime::config::{ConfigError, ConfigOverride, RuntimeConfig, RuntimeError};

fn override_with_service_name(name: &str) -> ConfigOverride {
    let mut o = ConfigOverride::empty();
    o.service_name = Some(name.to_string());
    o
}

fn override_with_tenant(id: &str) -> ConfigOverride {
    let mut o = ConfigOverride::empty();
    o.tenant_id = Some(id.to_string());
    o
}

#[test]
fn test_apply_to_overrides_set_fields_only() {
    let base = RuntimeConfig::default();
    let o = override_with_service_name("acme");
    let merged = o.apply_to(base);
    assert_eq!(merged.service_name, "acme");
    assert_eq!(merged.http_bind, "0.0.0.0:8080");
}

#[test]
fn test_apply_to_sets_tenant_id() {
    let base = RuntimeConfig::default();
    let merged = override_with_tenant("t-001").apply_to(base);
    assert_eq!(merged.tenant_id.as_deref(), Some("t-001"));
}

#[test]
fn test_apply_to_empty_tenant_id_leaves_none() {
    let base = RuntimeConfig::default();
    let merged = override_with_tenant("").apply_to(base);
    assert!(merged.tenant_id.is_none());
}

#[test]
fn test_apply_to_empty_tenant_id_does_not_clear_existing() {
    let base = RuntimeConfig::default().with_tenant_id("existing");
    let merged = override_with_tenant("").apply_to(base);
    assert_eq!(merged.tenant_id.as_deref(), Some("existing"));
}

#[test]
fn test_config_error_display_parse() {
    let e = ConfigError::Parse("bad toml".into());
    assert!(e.message().contains("parse error"));
}

#[test]
fn test_config_error_display_unknown_tenant() {
    let e = ConfigError::UnknownTenant("ghost".into());
    assert!(e.message().contains("ghost"));
}

#[test]
fn test_config_error_display_invalid_tenant_id() {
    let e = ConfigError::InvalidTenantId("../../etc".into());
    assert!(e.message().contains("../../etc"));
    assert!(e.message().contains("[a-zA-Z0-9_-]"));
}

#[test]
fn test_config_error_display_bad_env_var() {
    let e = ConfigError::BadEnvVar(
        "SWE_EDGE_SHUTDOWN_TIMEOUT=\"abc\": expected a non-negative integer".into(),
    );
    assert!(e.message().contains("SWE_EDGE_SHUTDOWN_TIMEOUT"));
}

#[test]
fn test_default_runtime_config_has_expected_values() {
    let cfg = RuntimeConfig::default();
    assert_eq!(cfg.http_bind, "0.0.0.0:8080");
    assert_eq!(cfg.grpc_bind, "0.0.0.0:50051");
    assert_eq!(cfg.shutdown_timeout_secs, 30);
    assert!(!cfg.systemd_notify);
}

#[test]
fn test_with_service_name_sets_name() {
    let cfg = RuntimeConfig::default().with_service_name("my-svc");
    assert_eq!(cfg.service_name, "my-svc");
}

#[test]
fn test_with_http_bind_sets_addr() {
    let cfg = RuntimeConfig::default().with_http_bind("127.0.0.1:9090");
    assert_eq!(cfg.http_bind, "127.0.0.1:9090");
}

#[test]
fn test_with_shutdown_timeout_sets_secs() {
    let cfg = RuntimeConfig::default().with_shutdown_timeout(60);
    assert_eq!(cfg.shutdown_timeout_secs, 60);
}

#[test]
fn test_with_systemd_notify_enables_flag() {
    let cfg = RuntimeConfig::default().with_systemd_notify(true);
    assert!(cfg.systemd_notify);
}

#[test]
fn grpc_bind_and_tenant_builders_set_fields() {
    let cfg = RuntimeConfig::default().with_grpc_bind("127.0.0.1:7000").with_tenant_id("acme");
    assert_eq!(cfg.grpc_bind, "127.0.0.1:7000");
    assert_eq!(cfg.tenant_id.as_deref(), Some("acme"));
    assert_eq!(cfg.service_name, "swe-edge");
}

#[test]
fn override_applies_every_field() {
    let o = ConfigOverride {
        service_name: Some("svc".into()),
        http_bind: Some("1.2.3.4:1".into()),
        grpc_bind: Some("1.2.3.4:2".into()),
        shutdown_timeout_secs: Some(7),
        systemd_notify: Some(true),
        tenant_id: Some("t".into()),
    };
    let c = o.apply_to(RuntimeConfig::default());
    assert_eq!(c.service_name, "svc");
    assert_eq!(c.http_bind, "1.2.3.4:1");
    assert_eq!(c.grpc_bind, "1.2.3.4:2");
    assert_eq!(c.shutdown_timeout_secs, 7);
    assert!(c.systemd_notify);
    assert_eq!(c.tenant_id.as_deref(), Some("t"));
}

#[test]
fn empty_override_changes_nothing() {
    let base = RuntimeConfig::default().with_tenant_id("x").with_shutdown_timeout(9);
    let c = ConfigOverride::empty().apply_to(base);
    assert_eq!(c.tenant_id.as_deref(), Some("x"));
    assert_eq!(c.shutdown_timeout_secs, 9);
    assert_eq!(c.service_name, "swe-edge");
}

#[test]
fn config_error_messages_are_exact() {
    assert_eq!(ConfigError::Parse("x".into()).message(), "config parse error: x");
    assert_eq!(ConfigError::Io("p: e".into()).message(), "config io error: p: e");
    assert_eq!(ConfigError::UnknownTenant("g".into()).message(), "unknown tenant: 'g'");
    assert_eq!(
        ConfigError::InvalidTenantId("a/b".into()).message(),
        "invalid tenant id: 'a/b' \u{2014} only [a-zA-Z0-9_-] are allowed"
    );
    assert_eq!(ConfigError::BadEnvVar("v".into()).message(), "invalid env var: v");
}

#[test]
fn runtime_error_messages() {
    assert_eq!(RuntimeError::StartFailed("x".into()).message(), "runtime start failed: x");
    assert_eq!(RuntimeError::ShutdownFailed("y".into()).message(), "runtime shutdown failed: y");
    assert_eq!(RuntimeError::ShutdownTimeout(5).message(), "runtime shutdown timed out after 5s");
    assert_eq!(RuntimeError::ShutdownTimeout(120).message(), "runtime shutdown timed out after 120s");
}

#[test]
fn test_validate_config_accepts_default_config() {
    let config = RuntimeConfig::default();
    assert!(swe_edge_runtime::validate_config(&config).is_ok());
}

#[test]
fn test_validate_config_rejects_empty_http_bind() {
    let mut config = RuntimeConfig::default();
    config.http_bind = "".into();
    assert!(swe_edge_runtime::validate_config(&config).is_err());
}

#[test]
fn test_validate_config_rejects_zero_shutdown_timeout() {
    let mut config = RuntimeConfig::default();
    config.shutdown_timeout_secs = 0;
    assert!(swe_edge_runtime::validate_config(&config).is_err());
}

#[test]
fn validate_config_leaves_grpc_bind_to_the_server() {
    let mut config = RuntimeConfig::default();
    config.grpc_bind = "".into();
    assert!(swe_edge_runtime::validate_config(&config).is_ok());
}

use swe_edge_runtime::config::{startup_config, BuilderSettings};

#[test]
fn test_app_name_sets_field() {
    let b = BuilderSettings::new().app_name("my-svc");
    assert_eq!(b.app_name.as_deref(), Some("my-svc"));
}

#[test]
fn test_config_sets_runtime_config() {
    let cfg = RuntimeConfig::default();
    let b = BuilderSettings::new().config(cfg);
    assert!(b.config.is_some());
}

#[test]
fn test_grpc_allow_unauthenticated_sets_flag() {
    assert!(BuilderSettings::new().grpc_allow_unauthenticated().grpc_allow_unauthenticated);
}

#[test]
fn test_grpc_auth_is_chainable_with_allow_unauthenticated() {
    let b = BuilderSettings::new().grpc_allow_unauthenticated();
    assert!(b.grpc_allow_unauthenticated);
}

#[test]
fn startup_config_maps_load_errors() {
    let ok = startup_config(Ok(RuntimeConfig::default())).unwrap();
    assert_eq!(ok.service_name, "swe-edge");
    let err = startup_config(Err(ConfigError::UnknownTenant("g".into()))).unwrap_err();
    assert!(matches!(err, RuntimeError::StartFailed(ref m) if m == "unknown tenant: 'g'"));
}

#[test]
fn validate_config_messages() {
    let mut c = RuntimeConfig::default();
    c.shutdown_timeout_secs = 0;
    match swe_edge_runtime::validate_config(&c) {
        Err(RuntimeError::StartFailed(m)) => assert_eq!(m, "shutdown_timeout_secs must be greater than zero"),
        other => panic!("unexpected {:?}", other),
    }
}

#[test]
fn egress_http_is_unconfigured_by_default_and_settable() {
    let c = RuntimeConfig::default();
    assert!(!c.egress_http_configured);
    let c = c.with_egress_http_configured(true);
    assert!(c.egress_http_configured);
    assert_eq!(c.http_bind, "0.0.0.0:8080");
}
