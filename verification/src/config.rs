//! Runtime configuration, its partial overrides, and the error types of
//! configuration loading and of the runtime lifecycle.

use vstd::prelude::*;
use crate::text::{decimal, u64_to_decimal};

verus! {

/// Process-level configuration of the runtime.
#[derive(Debug, Clone)]
pub struct RuntimeConfig {
    /// Service name reported to observability and systemd.
    pub service_name: String,
    /// Address to bind the primary HTTP ingress server.
    pub http_bind: String,
    /// Address to bind the gRPC ingress server.
    pub grpc_bind: String,
    /// Seconds to wait for in-flight requests to drain on shutdown.
    pub shutdown_timeout_secs: u64,
    /// Emit systemd notifications (READY=1, STOPPING=1).
    pub systemd_notify: bool,
    /// Tenant identifier; `None` for single-tenant deployments.
    pub tenant_id: Option<String>,
    /// Skip gRPC auth interceptor enforcement (default: fail closed).
    pub grpc_allow_unauthenticated: bool,
    /// Auto-register the gRPC reflection service.
    pub grpc_reflection: bool,
    /// Whether HTTP egress client settings are configured. When they are,
    /// serving builds the egress client from them; otherwise a plain default
    /// client is used. The settings themselves are an outside type and
    /// travel beside this configuration.
    pub egress_http_configured: bool,
}

/// Mathematical model of a [`RuntimeConfig`].
pub struct RuntimeConfigView {
    pub service_name: Seq<char>,
    pub http_bind: Seq<char>,
    pub grpc_bind: Seq<char>,
    pub shutdown_timeout_secs: u64,
    pub systemd_notify: bool,
    pub tenant_id: Option<Seq<char>>,
    pub grpc_allow_unauthenticated: bool,
    pub grpc_reflection: bool,
    pub egress_http_configured: bool,
}

impl View for RuntimeConfig {
    type V = RuntimeConfigView;

    open spec fn view(&self) -> RuntimeConfigView {
        RuntimeConfigView {
            service_name: self.service_name@,
            http_bind: self.http_bind@,
            grpc_bind: self.grpc_bind@,
            shutdown_timeout_secs: self.shutdown_timeout_secs,
            systemd_notify: self.systemd_notify,
            tenant_id: self.tenant_id.deep_view(),
            grpc_allow_unauthenticated: self.grpc_allow_unauthenticated,
            grpc_reflection: self.grpc_reflection,
            egress_http_configured: self.egress_http_configured,
        }
    }
}

/// The shipped defaults.
pub open spec fn default_config_view() -> RuntimeConfigView {
    RuntimeConfigView {
        service_name: "swe-edge"@,
        http_bind: "0.0.0.0:8080"@,
        grpc_bind: "0.0.0.0:50051"@,
        shutdown_timeout_secs: 30,
        systemd_notify: false,
        tenant_id: None,
        grpc_allow_unauthenticated: false,
        grpc_reflection: false,
        egress_http_configured: false,
    }
}

impl Default for RuntimeConfig {
    fn default() -> (c: Self)
        ensures
            c@ == default_config_view(),
    {
        RuntimeConfig {
            service_name: String::from_str("swe-edge"),
            http_bind: String::from_str("0.0.0.0:8080"),
            grpc_bind: String::from_str("0.0.0.0:50051"),
            shutdown_timeout_secs: 30,
            systemd_notify: false,
            tenant_id: None,
            grpc_allow_unauthenticated: false,
            grpc_reflection: false,
            egress_http_configured: false,
        }
    }
}

impl RuntimeConfig {
    /// Override the service name.
    pub fn with_service_name(self, name: &str) -> (c: Self)
        ensures
            c@ == (RuntimeConfigView { service_name: name@, ..self@ }),
    {
        let mut c = self;
        c.service_name = String::from_str(name);
        c
    }

    /// Override the HTTP bind address.
    pub fn with_http_bind(self, addr: &str) -> (c: Self)
        ensures
            c@ == (RuntimeConfigView { http_bind: addr@, ..self@ }),
    {
        let mut c = self;
        c.http_bind = String::from_str(addr);
        c
    }

    /// Override the gRPC bind address.
    pub fn with_grpc_bind(self, addr: &str) -> (c: Self)
        ensures
            c@ == (RuntimeConfigView { grpc_bind: addr@, ..self@ }),
    {
        let mut c = self;
        c.grpc_bind = String::from_str(addr);
        c
    }

    /// Override the graceful-shutdown drain timeout in seconds.
    pub fn with_shutdown_timeout(self, secs: u64) -> (c: Self)
        ensures
            c@ == (RuntimeConfigView { shutdown_timeout_secs: secs, ..self@ }),
    {
        let mut c = self;
        c.shutdown_timeout_secs = secs;
        c
    }

    /// Enable or disable systemd notifications.
    pub fn with_systemd_notify(self, enabled: bool) -> (c: Self)
        ensures
            c@ == (RuntimeConfigView { systemd_notify: enabled, ..self@ }),
    {
        let mut c = self;
        c.systemd_notify = enabled;
        c
    }

    /// Set the tenant identifier.
    pub fn with_tenant_id(self, id: &str) -> (c: Self)
        ensures
            c@ == (RuntimeConfigView { tenant_id: Some(id@), ..self@ }),
    {
        let mut c = self;
        c.tenant_id = Some(String::from_str(id));
        c
    }

    /// Record whether HTTP egress client settings are configured.
    pub fn with_egress_http_configured(self, configured: bool) -> (c: Self)
        ensures
            c@ == (RuntimeConfigView { egress_http_configured: configured, ..self@ }),
    {
        let mut c = self;
        c.egress_http_configured = configured;
        c
    }
}

/// A partial [`RuntimeConfig`]: every key is optional, so any subset of
/// keys may be present in an overlay file.
#[derive(Debug, Clone)]
pub struct ConfigOverride {
    pub service_name: Option<String>,
    pub http_bind: Option<String>,
    pub grpc_bind: Option<String>,
    pub shutdown_timeout_secs: Option<u64>,
    pub systemd_notify: Option<bool>,
    pub tenant_id: Option<String>,
}

/// Mathematical model of a [`ConfigOverride`].
pub struct ConfigOverrideView {
    pub service_name: Option<Seq<char>>,
    pub http_bind: Option<Seq<char>>,
    pub grpc_bind: Option<Seq<char>>,
    pub shutdown_timeout_secs: Option<u64>,
    pub systemd_notify: Option<bool>,
    pub tenant_id: Option<Seq<char>>,
}

impl View for ConfigOverride {
    type V = ConfigOverrideView;

    open spec fn view(&self) -> ConfigOverrideView {
        ConfigOverrideView {
            service_name: self.service_name.deep_view(),
            http_bind: self.http_bind.deep_view(),
            grpc_bind: self.grpc_bind.deep_view(),
            shutdown_timeout_secs: self.shutdown_timeout_secs,
            systemd_notify: self.systemd_notify,
            tenant_id: self.tenant_id.deep_view(),
        }
    }
}

/// `Some(v)` replaces, `None` keeps.
pub open spec fn overlay<T>(o: Option<T>, base: T) -> T {
    match o {
        Some(v) => v,
        None => base,
    }
}

/// The result of laying override `o` over `base`: every key that is set
/// wins; an empty tenant id is ignored and never clears an existing one.
pub open spec fn apply_override(o: ConfigOverrideView, base: RuntimeConfigView) -> RuntimeConfigView {
    RuntimeConfigView {
        service_name: overlay(o.service_name, base.service_name),
        http_bind: overlay(o.http_bind, base.http_bind),
        grpc_bind: overlay(o.grpc_bind, base.grpc_bind),
        shutdown_timeout_secs: overlay(o.shutdown_timeout_secs, base.shutdown_timeout_secs),
        systemd_notify: overlay(o.systemd_notify, base.systemd_notify),
        tenant_id: match o.tenant_id {
            Some(t) => if t.len() > 0 { Some(t) } else { base.tenant_id },
            None => base.tenant_id,
        },
        grpc_allow_unauthenticated: base.grpc_allow_unauthenticated,
        grpc_reflection: base.grpc_reflection,
        egress_http_configured: base.egress_http_configured,
    }
}

impl ConfigOverride {
    /// An override that sets nothing.
    pub fn empty() -> (o: Self)
        ensures
            o@ == (ConfigOverrideView {
                service_name: None,
                http_bind: None,
                grpc_bind: None,
                shutdown_timeout_secs: None,
                systemd_notify: None,
                tenant_id: None,
            }),
    {
        ConfigOverride {
            service_name: None,
            http_bind: None,
            grpc_bind: None,
            shutdown_timeout_secs: None,
            systemd_notify: None,
            tenant_id: None,
        }
    }

    /// Apply this override onto a base config, returning the merged result.
    pub fn apply_to(self, base: RuntimeConfig) -> (c: RuntimeConfig)
        ensures
            c@ == apply_override(self@, base@),
    {
        let mut c = base;
        if let Some(v) = self.service_name {
            c.service_name = v;
        }
        if let Some(v) = self.http_bind {
            c.http_bind = v;
        }
        if let Some(v) = self.grpc_bind {
            c.grpc_bind = v;
        }
        if let Some(v) = self.shutdown_timeout_secs {
            c.shutdown_timeout_secs = v;
        }
        if let Some(v) = self.systemd_notify {
            c.systemd_notify = v;
        }
        if let Some(v) = self.tenant_id {
            if v.as_str().unicode_len() > 0 {
                c.tenant_id = Some(v);
            }
        }
        c
    }
}

/// Errors that can occur when loading configuration.
#[derive(Debug, Clone)]
pub enum ConfigError {
    /// The TOML text could not be parsed.
    Parse(String),
    /// A required config file could not be read.
    Io(String),
    /// The requested tenant config file does not exist.
    UnknownTenant(String),
    /// The tenant id holds characters outside `[a-zA-Z0-9_-]`.
    InvalidTenantId(String),
    /// An environment variable was set but could not be parsed.
    BadEnvVar(String),
}

/// Mathematical model of a [`ConfigError`].
pub enum ConfigErrorView {
    Parse(Seq<char>),
    Io(Seq<char>),
    UnknownTenant(Seq<char>),
    InvalidTenantId(Seq<char>),
    BadEnvVar(Seq<char>),
}

impl View for ConfigError {
    type V = ConfigErrorView;

    open spec fn view(&self) -> ConfigErrorView {
        match self {
            ConfigError::Parse(s) => ConfigErrorView::Parse(s@),
            ConfigError::Io(s) => ConfigErrorView::Io(s@),
            ConfigError::UnknownTenant(s) => ConfigErrorView::UnknownTenant(s@),
            ConfigError::InvalidTenantId(s) => ConfigErrorView::InvalidTenantId(s@),
            ConfigError::BadEnvVar(s) => ConfigErrorView::BadEnvVar(s@),
        }
    }
}

/// The human-readable rendering of a configuration error.
pub open spec fn config_error_text(e: ConfigErrorView) -> Seq<char> {
    match e {
        ConfigErrorView::Parse(s) => "config parse error: "@ + s,
        ConfigErrorView::Io(s) => "config io error: "@ + s,
        ConfigErrorView::UnknownTenant(s) => "unknown tenant: '"@ + s + "'"@,
        ConfigErrorView::InvalidTenantId(s) => "invalid tenant id: '"@ + s
            + "' \u{2014} only [a-zA-Z0-9_-] are allowed"@,
        ConfigErrorView::BadEnvVar(s) => "invalid env var: "@ + s,
    }
}

impl ConfigError {
    /// Human-readable message for this error.
    pub fn message(&self) -> (r: String)
        ensures
            r@ == config_error_text(self@),
    {
        match self {
            ConfigError::Parse(s) => {
                let r = String::from_str("config parse error: ");
                r.concat(s.as_str())
            },
            ConfigError::Io(s) => {
                let r = String::from_str("config io error: ");
                r.concat(s.as_str())
            },
            ConfigError::UnknownTenant(s) => {
                let r = String::from_str("unknown tenant: '");
                let r = r.concat(s.as_str());
                r.concat("'")
            },
            ConfigError::InvalidTenantId(s) => {
                let r = String::from_str("invalid tenant id: '");
                let r = r.concat(s.as_str());
                r.concat("' \u{2014} only [a-zA-Z0-9_-] are allowed")
            },
            ConfigError::BadEnvVar(s) => {
                let r = String::from_str("invalid env var: ");
                r.concat(s.as_str())
            },
        }
    }
}

/// Errors of the runtime lifecycle.
#[derive(Debug, Clone)]
pub enum RuntimeError {
    /// The runtime could not be started.
    StartFailed(String),
    /// Shutting down a component failed.
    ShutdownFailed(String),
    /// The shutdown drain did not finish within the given seconds.
    ShutdownTimeout(u64),
}

/// Mathematical model of a [`RuntimeError`].
pub enum RuntimeErrorView {
    StartFailed(Seq<char>),
    ShutdownFailed(Seq<char>),
    ShutdownTimeout(u64),
}

impl View for RuntimeError {
    type V = RuntimeErrorView;

    open spec fn view(&self) -> RuntimeErrorView {
        match self {
            RuntimeError::StartFailed(s) => RuntimeErrorView::StartFailed(s@),
            RuntimeError::ShutdownFailed(s) => RuntimeErrorView::ShutdownFailed(s@),
            RuntimeError::ShutdownTimeout(n) => RuntimeErrorView::ShutdownTimeout(*n),
        }
    }
}

/// The human-readable rendering of a runtime error.
pub open spec fn runtime_error_text(e: RuntimeErrorView) -> Seq<char> {
    match e {
        RuntimeErrorView::StartFailed(s) => "runtime start failed: "@ + s,
        RuntimeErrorView::ShutdownFailed(s) => "runtime shutdown failed: "@ + s,
        RuntimeErrorView::ShutdownTimeout(n) => "runtime shutdown timed out after "@
            + decimal(n as nat) + "s"@,
    }
}

impl RuntimeError {
    /// Human-readable message for this error.
    pub fn message(&self) -> (r: String)
        ensures
            r@ == runtime_error_text(self@),
    {
        match self {
            RuntimeError::StartFailed(s) => {
                let r = String::from_str("runtime start failed: ");
                r.concat(s.as_str())
            },
            RuntimeError::ShutdownFailed(s) => {
                let r = String::from_str("runtime shutdown failed: ");
                r.concat(s.as_str())
            },
            RuntimeError::ShutdownTimeout(n) => {
                let r = String::from_str("runtime shutdown timed out after ");
                let d = u64_to_decimal(*n);
                let r = r.concat(d.as_str());
                r.concat("s")
            },
        }
    }
}

/// A configuration is within bounds when the HTTP bind address is set and
/// the shutdown drain window is positive.
pub open spec fn config_within_bounds(c: RuntimeConfigView) -> bool {
    &&& c.http_bind.len() > 0
    &&& c.shutdown_timeout_secs > 0
}

/// The message of the first bound a configuration violates.
pub open spec fn bounds_violation_text(c: RuntimeConfigView) -> Seq<char> {
    if c.http_bind.len() == 0 {
        "http_bind must not be empty"@
    } else {
        "shutdown_timeout_secs must be greater than zero"@
    }
}

/// Check a [`RuntimeConfig`] before it is handed to the runtime: an empty
/// HTTP bind address or a zero shutdown timeout is refused with `StartFailed`
/// naming the first violated bound.
pub fn validate_config(config: &RuntimeConfig) -> (r: Result<(), RuntimeError>)
    ensures
        r is Ok <==> config_within_bounds(config@),
        r matches Err(e) ==> e@ == RuntimeErrorView::StartFailed(bounds_violation_text(config@)),
{
    if config.http_bind.as_str().unicode_len() == 0 {
        return Err(RuntimeError::StartFailed(String::from_str("http_bind must not be empty")));
    }
    if config.shutdown_timeout_secs == 0 {
        return Err(RuntimeError::StartFailed(
            String::from_str("shutdown_timeout_secs must be greater than zero"),
        ));
    }
    Ok(())
}

/// The configuration a server starts with when none was given: the loaded
/// one, or the loading error reported as `StartFailed` with its message.
pub fn startup_config(loaded: Result<RuntimeConfig, ConfigError>) -> (r: Result<RuntimeConfig, RuntimeError>)
    ensures
        match loaded {
            Ok(c) => r matches Ok(rc) && rc@ == c@,
            Err(e) => r matches Err(re) && re@ == RuntimeErrorView::StartFailed(config_error_text(e@)),
        },
{
    match loaded {
        Ok(c) => Ok(c),
        Err(e) => Err(RuntimeError::StartFailed(e.message())),
    }
}

/// Model of an optional configuration.
pub open spec fn config_opt_view(o: Option<RuntimeConfig>) -> Option<RuntimeConfigView> {
    match o {
        Some(c) => Some(c@),
        None => None,
    }
}

/// Settings of an edge runtime under assembly that are plain values: the
/// explicit configuration (loaded from the layered chain when absent), the
/// application name, and whether gRPC may run without authentication.
#[derive(Debug, Clone)]
pub struct BuilderSettings {
    pub config: Option<RuntimeConfig>,
    pub app_name: Option<String>,
    pub grpc_allow_unauthenticated: bool,
}

impl BuilderSettings {
    /// Nothing set.
    pub fn new() -> (b: Self)
        ensures
            b.config is None,
            b.app_name is None,
            !b.grpc_allow_unauthenticated,
    {
        BuilderSettings { config: None, app_name: None, grpc_allow_unauthenticated: false }
    }

    /// Set the runtime configuration.
    pub fn config(self, config: RuntimeConfig) -> (b: Self)
        ensures
            b.config matches Some(c) && c@ == config@,
            b.app_name.deep_view() == self.app_name.deep_view(),
            b.grpc_allow_unauthenticated == self.grpc_allow_unauthenticated,
    {
        let mut b = self;
        b.config = Some(config);
        b
    }

    /// Set the application name.
    pub fn app_name(self, name: &str) -> (b: Self)
        ensures
            b.app_name.deep_view() == Some(name@),
            config_opt_view(b.config) == config_opt_view(self.config),
            b.grpc_allow_unauthenticated == self.grpc_allow_unauthenticated,
    {
        let mut b = self;
        b.app_name = Some(String::from_str(name));
        b
    }

    /// Let gRPC serve without authentication.
    pub fn grpc_allow_unauthenticated(self) -> (b: Self)
        ensures
            b.grpc_allow_unauthenticated,
            config_opt_view(b.config) == config_opt_view(self.config),
            b.app_name.deep_view() == self.app_name.deep_view(),
    {
        let mut b = self;
        b.grpc_allow_unauthenticated = true;
        b
    }
}

} // verus!
