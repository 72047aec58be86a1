use swe_edge_runtime::config::{ConfigError, ConfigOverride};
use swe_edge_runtime::loader::{
    apply_env, apply_file_if_exists, exceeds_size_limit, parse_shutdown_timeout,
    validate_tenant_id, DefaultConfigLoader, EnvOverrides, FileLayer,
};
use swe_edge_runtime::RuntimeConfig;

fn shipped() -> Result<ConfigOverride, String> {
    Ok(ConfigOverride::empty())
}

fn service(name: &str) -> FileLayer {
    let mut o = ConfigOverride::empty();
    o.service_name = Some(name.to_string());
    FileLayer::Parsed(o)
}

fn timeout(secs: u64) -> FileLayer {
    let mut o = ConfigOverride::empty();
    o.shutdown_timeout_secs = Some(secs);
    FileLayer::Parsed(o)
}

fn two_dirs() -> DefaultConfigLoader {
    DefaultConfigLoader { config_dirs: vec!["/sys".to_string(), "/user".to_string()] }
}

#[test]
fn test_new_uses_default_config_dir() {
    let l = DefaultConfigLoader::new(None);
    assert_eq!(l.config_dirs, vec!["config".to_string()]);
}

#[test]
fn new_uses_config_dir_variable_when_set() {
    let l = DefaultConfigLoader::new(Some("/srv/edge".to_string()));
    assert_eq!(l.config_dirs, vec!["/srv/edge".to_string()]);
}

#[test]
fn test_with_dir_uses_supplied_path() {
    let l = DefaultConfigLoader::with_dir("/etc/myapp/edge");
    assert_eq!(l.config_dirs, vec!["/etc/myapp/edge".to_string()]);
}

#[test]
fn test_with_dir_load_reads_application_toml_from_supplied_dir() {
    let l = DefaultConfigLoader::with_dir("/tmp/x");
    let cfg = l.load(shipped(), vec![service("consumer-app")], EnvOverrides::none()).unwrap();
    assert_eq!(cfg.service_name, "consumer-app");
}

#[test]
fn test_with_dir_load_for_tenant_reads_tenant_from_supplied_dir() {
    let l = DefaultConfigLoader::with_dir("/tmp/x");
    let cfg = l
        .load_for_tenant("t1", shipped(), vec![FileLayer::Absent], &vec![true], service("t1"), EnvOverrides::none())
        .unwrap();
    assert_eq!(cfg.service_name, "t1");
    assert_eq!(cfg.tenant_id.as_deref(), Some("t1"));
}

#[test]
fn test_load_returns_defaults_when_no_application_toml() {
    let l = DefaultConfigLoader::with_dir("/tmp/x");
    let cfg = l.load(shipped(), vec![FileLayer::Absent], EnvOverrides::none()).unwrap();
    assert_eq!(cfg.service_name, "swe-edge");
    assert_eq!(cfg.http_bind, "0.0.0.0:8080");
    assert!(cfg.tenant_id.is_none());
}

#[test]
fn test_load_applies_application_toml_override() {
    let l = DefaultConfigLoader::with_dir("/tmp/x");
    let cfg = l.load(shipped(), vec![service("ops-edge")], EnvOverrides::none()).unwrap();
    assert_eq!(cfg.service_name, "ops-edge");
    assert_eq!(cfg.http_bind, "0.0.0.0:8080");
}

#[test]
fn test_load_for_tenant_applies_tenant_toml() {
    let l = DefaultConfigLoader::with_dir("/tmp/x");
    let mut o = ConfigOverride::empty();
    o.service_name = Some("acme-edge".into());
    o.http_bind = Some("0.0.0.0:8081".into());
    let cfg = l
        .load_for_tenant("acme", shipped(), vec![FileLayer::Absent], &vec![true], FileLayer::Parsed(o), EnvOverrides::none())
        .unwrap();
    assert_eq!(cfg.service_name, "acme-edge");
    assert_eq!(cfg.http_bind, "0.0.0.0:8081");
    assert_eq!(cfg.tenant_id.as_deref(), Some("acme"));
}

#[test]
fn test_load_for_tenant_missing_file_returns_unknown_tenant_error() {
    let l = DefaultConfigLoader::with_dir("/tmp/x");
    let err = l
        .load_for_tenant("ghost", shipped(), vec![FileLayer::Absent], &vec![false], FileLayer::Absent, EnvOverrides::none())
        .unwrap_err();
    assert!(matches!(err, ConfigError::UnknownTenant(id) if id == "ghost"));
}

#[test]
fn test_load_for_tenant_layers_over_application_toml() {
    let l = DefaultConfigLoader::with_dir("/tmp/x");
    let cfg = l
        .load_for_tenant("beta", shipped(), vec![timeout(60)], &vec![true], service("beta"), EnvOverrides::none())
        .unwrap();
    assert_eq!(cfg.service_name, "beta");
    assert_eq!(cfg.shutdown_timeout_secs, 60);
}

#[test]
fn test_xdg_higher_priority_dir_wins_over_lower() {
    let cfg = two_dirs().load(shipped(), vec![service("sys"), service("user")], EnvOverrides::none()).unwrap();
    assert_eq!(cfg.service_name, "user");
}

#[test]
fn test_xdg_lower_priority_dir_fills_unset_fields() {
    let cfg = two_dirs().load(shipped(), vec![timeout(90), service("user")], EnvOverrides::none()).unwrap();
    assert_eq!(cfg.service_name, "user");
    assert_eq!(cfg.shutdown_timeout_secs, 90);
}

#[test]
fn test_xdg_tenant_found_in_any_dir() {
    let l = two_dirs();
    let present = vec![true, false];
    assert_eq!(l.tenant_path("corp", &present).as_deref(), Some("/sys/tenants/corp.toml"));
    let cfg = l
        .load_for_tenant("corp", shipped(), vec![FileLayer::Absent, FileLayer::Absent], &present, service("corp"), EnvOverrides::none())
        .unwrap();
    assert_eq!(cfg.service_name, "corp");
}

fn tenant_err(id: &str) -> ConfigError {
    DefaultConfigLoader::with_dir("/tmp/x")
        .load_for_tenant(id, shipped(), vec![FileLayer::Absent], &vec![true], FileLayer::Absent, EnvOverrides::none())
        .unwrap_err()
}

#[test]
fn test_load_for_tenant_rejects_path_traversal_dotdot() {
    assert!(matches!(tenant_err("../../etc/passwd"), ConfigError::InvalidTenantId(_)));
}

#[test]
fn test_load_for_tenant_rejects_absolute_path() {
    assert!(matches!(tenant_err("/etc/passwd"), ConfigError::InvalidTenantId(_)));
}

#[test]
fn test_load_for_tenant_rejects_slash_in_id() {
    assert!(matches!(tenant_err("foo/bar"), ConfigError::InvalidTenantId(_)));
}

#[test]
fn test_load_for_tenant_rejects_empty_id() {
    assert!(matches!(tenant_err(""), ConfigError::InvalidTenantId(_)));
}

#[test]
fn test_load_for_tenant_accepts_valid_alphanum_dash_underscore() {
    let cfg = DefaultConfigLoader::with_dir("/tmp/x")
        .load_for_tenant("tenant-01_prod", shipped(), vec![FileLayer::Absent], &vec![true], service("ok"), EnvOverrides::none())
        .unwrap();
    assert_eq!(cfg.service_name, "ok");
}

#[test]
fn test_load_rejects_application_toml_exceeding_size_limit() {
    assert!(exceeds_size_limit(1_048_577));
    assert!(!exceeds_size_limit(1_048_576));
    let err = DefaultConfigLoader::with_dir("/tmp/x")
        .load(shipped(), vec![FileLayer::Oversized(1_048_577)], EnvOverrides::none())
        .unwrap_err();
    assert!(matches!(err, ConfigError::Io(_)));
    assert!(err.message().contains("1 MiB"));
    assert_eq!(
        err.message(),
        "config io error: /tmp/x/application.toml: config file exceeds the 1 MiB limit (1048577 bytes)"
    );
}

#[test]
fn test_parse_shutdown_timeout_rejects_non_numeric_value() {
    let err = parse_shutdown_timeout("not-a-number").unwrap_err();
    assert!(matches!(err, ConfigError::BadEnvVar(_)));
    assert!(err.message().contains("SWE_EDGE_SHUTDOWN_TIMEOUT"));
    assert!(err.message().contains("not-a-number"));
}

#[test]
fn test_parse_shutdown_timeout_rejects_negative_representation() {
    let err = parse_shutdown_timeout("-1").unwrap_err();
    assert!(matches!(err, ConfigError::BadEnvVar(_)));
}

#[test]
fn test_parse_shutdown_timeout_accepts_valid_integer() {
    assert_eq!(parse_shutdown_timeout("120").unwrap(), 120);
    assert_eq!(parse_shutdown_timeout("0").unwrap(), 0);
}

#[test]
fn parse_shutdown_timeout_edges() {
    assert_eq!(parse_shutdown_timeout("+7").unwrap(), 7);
    assert_eq!(parse_shutdown_timeout("18446744073709551615").unwrap(), u64::MAX);
    assert!(parse_shutdown_timeout("18446744073709551616").is_err());
    assert!(parse_shutdown_timeout("").is_err());
    assert!(parse_shutdown_timeout("+").is_err());
    assert!(parse_shutdown_timeout(" 1").is_err());
    match parse_shutdown_timeout("abc") {
        Err(ConfigError::BadEnvVar(m)) => {
            assert_eq!(m, "SWE_EDGE_SHUTDOWN_TIMEOUT=\"abc\": expected a non-negative integer")
        },
        other => panic!("unexpected {:?}", other),
    }
}

#[test]
fn validate_tenant_id_accepts_and_rejects() {
    assert!(validate_tenant_id("abc-DEF_09").is_ok());
    assert!(matches!(validate_tenant_id("a.b"), Err(ConfigError::InvalidTenantId(s)) if s == "a.b"));
    assert!(validate_tenant_id("caf\u{e9}").is_err());
}

#[test]
fn env_overrides_win_over_files() {
    let env = EnvOverrides {
        service_name: Some("env-svc".into()),
        http_bind: Some("9.9.9.9:1".into()),
        grpc_bind: None,
        shutdown_timeout: Some("15".into()),
        systemd_notify: Some("TRUE".into()),
        tenant_id: Some("env-tenant".into()),
    };
    let cfg = DefaultConfigLoader::with_dir("/d").load(shipped(), vec![service("file")], env).unwrap();
    assert_eq!(cfg.service_name, "env-svc");
    assert_eq!(cfg.http_bind, "9.9.9.9:1");
    assert_eq!(cfg.grpc_bind, "0.0.0.0:50051");
    assert_eq!(cfg.shutdown_timeout_secs, 15);
    assert!(cfg.systemd_notify);
    assert_eq!(cfg.tenant_id.as_deref(), Some("env-tenant"));
}

#[test]
fn env_systemd_notify_values() {
    for (v, want) in [("1", true), ("yes", true), ("Yes", true), ("true", true), ("0", false), ("on", false)] {
        let mut env = EnvOverrides::none();
        env.systemd_notify = Some(v.to_string());
        let cfg = apply_env(RuntimeConfig::default().with_systemd_notify(!want), env).unwrap();
        assert_eq!(cfg.systemd_notify, want, "value {v}");
    }
}

#[test]
fn env_bad_timeout_is_bad_env_var() {
    let mut env = EnvOverrides::none();
    env.shutdown_timeout = Some("-5".into());
    let err = apply_env(RuntimeConfig::default(), env).unwrap_err();
    assert!(matches!(err, ConfigError::BadEnvVar(_)));
}

#[test]
fn file_layer_errors() {
    let c = RuntimeConfig::default();
    assert!(apply_file_if_exists(c.clone(), "/p", FileLayer::Absent).is_ok());
    match apply_file_if_exists(c.clone(), "/p", FileLayer::Unreadable("denied".into())) {
        Err(ConfigError::Io(m)) => assert_eq!(m, "/p: denied"),
        other => panic!("unexpected {:?}", other),
    }
    match apply_file_if_exists(c, "/p", FileLayer::Malformed("bad".into())) {
        Err(ConfigError::Parse(m)) => assert_eq!(m, "bad"),
        other => panic!("unexpected {:?}", other),
    }
}

#[test]
fn shipped_defaults_parse_error_is_parse_error() {
    let err = DefaultConfigLoader::with_dir("/d")
        .load(Err("broken".into()), vec![FileLayer::Absent], EnvOverrides::none())
        .unwrap_err();
    assert!(matches!(err, ConfigError::Parse(m) if m == "broken"));
}

#[test]
fn tenant_layer_and_env_tenant_win_over_requested_id() {
    let mut o = ConfigOverride::empty();
    o.tenant_id = Some("from-file".into());
    let cfg = DefaultConfigLoader::with_dir("/d")
        .load_for_tenant("req", shipped(), vec![FileLayer::Absent], &vec![true], FileLayer::Parsed(o), EnvOverrides::none())
        .unwrap();
    assert_eq!(cfg.tenant_id.as_deref(), Some("from-file"));
}

#[test]
fn xdg_chain_order_and_defaults() {
    let l = DefaultConfigLoader::xdg_from(
        "app",
        Some("/high:/low::".into()),
        Some("/home/u/.config".into()),
        Some("/explicit".into()),
    );
    assert_eq!(
        l.config_dirs,
        vec!["/low/app", "/high/app", "/home/u/.config/app", "/explicit"]
    );
    let d = DefaultConfigLoader::xdg_from("app", None, None, None);
    assert_eq!(d.config_dirs, vec!["/etc/xdg/app"]);
    let e = DefaultConfigLoader::xdg_from("app", Some(String::new()), None, None);
    assert!(e.config_dirs.is_empty());
}

#[test]
fn xdg_includes_explicit_dir_last() {
    let l = DefaultConfigLoader::xdg("app", Some("/s".into()), Some("/x".into()));
    assert_eq!(l.config_dirs.first().map(String::as_str), Some("/s/app"));
    assert_eq!(l.config_dirs.last().map(String::as_str), Some("/x"));
}

#[test]
fn candidate_paths() {
    let l = DefaultConfigLoader { config_dirs: vec!["a/".into(), "b".into(), "".into()] };
    assert_eq!(l.application_files(), vec!["a/application.toml", "b/application.toml", "application.toml"]);
    assert_eq!(l.tenant_files("t"), vec!["a/tenants/t.toml", "b/tenants/t.toml", "tenants/t.toml"]);
    assert_eq!(l.tenant_path("t", &vec![true, true, false]).as_deref(), Some("b/tenants/t.toml"));
    assert_eq!(l.tenant_path("t", &vec![false, false, false]), None);
}
