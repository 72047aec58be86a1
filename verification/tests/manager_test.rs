use swe_edge_runtime::config::{RuntimeConfig, RuntimeError};
use swe_edge_runtime::exposition::{
    metrics_reply, render_prometheus, routes_to_reflection, MetricKind, MetricSample,
};
use swe_edge_runtime::health::RuntimeStatus;
use swe_edge_runtime::manager::{
    health_report, plan_serve, shutdown_outcome, EgressSource, IngressSource, LifecycleComponent,
    RuntimeManagerCore, ShutdownStep, StartStep, TransportProbes,
};

fn make_manager() -> RuntimeManagerCore {
    RuntimeManagerCore::new(RuntimeConfig::default().with_systemd_notify(false))
}

fn start(m: &mut RuntimeManagerCore, has_ingress: bool) -> Result<(), RuntimeError> {
    match m.begin_start(has_ingress) {
        StartStep::AlreadyRunning => Ok(()),
        StartStep::Refused(e) => Err(e),
        StartStep::Proceed => {
            m.complete_start();
            Ok(())
        },
    }
}

fn shutdown(m: &mut RuntimeManagerCore, lifecycle: Result<(), String>) -> Result<(), RuntimeError> {
    match m.begin_shutdown() {
        ShutdownStep::AlreadyStopped => Ok(()),
        ShutdownStep::Proceed { .. } => m.complete_shutdown(lifecycle),
    }
}

#[test]
fn test_new_creates_stopped_status() {
    let m = make_manager();
    assert_eq!(m.status, RuntimeStatus::Stopped);
}

#[test]
fn test_start_transitions_status_to_running() {
    let mut m = make_manager();
    start(&mut m, true).expect("start ok");
    assert_eq!(m.status, RuntimeStatus::Running);
}

#[test]
fn test_start_is_idempotent() {
    let mut m = make_manager();
    start(&mut m, true).expect("first start ok");
    start(&mut m, true).expect("second start ok");
    assert_eq!(m.status, RuntimeStatus::Running);
    assert!(matches!(m.begin_start(true), StartStep::AlreadyRunning));
}

#[test]
fn test_shutdown_transitions_status_to_stopped() {
    let mut m = make_manager();
    start(&mut m, true).expect("start ok");
    shutdown(&mut m, Ok(())).expect("shutdown ok");
    assert_eq!(m.status, RuntimeStatus::Stopped);
}

#[test]
fn test_shutdown_is_idempotent() {
    let mut m = make_manager();
    shutdown(&mut m, Ok(())).expect("first");
    shutdown(&mut m, Ok(())).expect("second");
}

#[test]
fn test_start_fails_when_no_ingress_configured() {
    let mut m = RuntimeManagerCore::new(RuntimeConfig::default());
    let err = start(&mut m, false).unwrap_err();
    assert!(matches!(err, RuntimeError::StartFailed(_)));
    assert!(err.message().contains("no ingress transport"));
    assert_eq!(m.status, RuntimeStatus::Starting);
}

#[test]
fn notifications_follow_config() {
    let mut m = RuntimeManagerCore::new(RuntimeConfig::default().with_systemd_notify(true));
    assert!(matches!(m.begin_start(true), StartStep::Proceed));
    assert!(m.complete_start());
    assert!(matches!(m.begin_shutdown(), ShutdownStep::Proceed { notify_stopping: true }));
}

#[test]
fn failed_lifecycle_shutdown_is_reported() {
    let mut m = make_manager();
    start(&mut m, true).unwrap();
    let err = shutdown(&mut m, Err("boom".into())).unwrap_err();
    assert!(matches!(err, RuntimeError::ShutdownFailed(ref s) if s == "boom"));
    assert_eq!(m.status, RuntimeStatus::Stopping);
}

fn probes() -> TransportProbes {
    TransportProbes {
        ingress_http: Some(Ok(())),
        ingress_grpc: None,
        ingress_file: None,
        egress_http: Ok(()),
        egress_grpc: None,
    }
}

fn names(p: &TransportProbes) -> Vec<String> {
    health_report(RuntimeStatus::Running, &vec![], p, 0).components.into_iter().map(|c| c.name).collect()
}

#[test]
fn test_health_includes_ingress_http_and_egress_components() {
    let n = names(&probes());
    assert!(n.contains(&"ingress.http".to_string()));
    assert!(n.contains(&"egress.http".to_string()));
}

#[test]
fn test_health_reports_grpc_when_only_grpc_configured() {
    let mut p = probes();
    p.ingress_http = None;
    p.ingress_grpc = Some(Ok(()));
    let n = names(&p);
    assert!(n.contains(&"ingress.grpc".to_string()));
    assert!(!n.contains(&"ingress.http".to_string()));
    assert!(!n.contains(&"ingress.file".to_string()));
}

#[test]
fn test_health_reports_all_configured_transports() {
    let mut p = probes();
    p.ingress_grpc = Some(Ok(()));
    p.ingress_file = Some(Ok(()));
    let n = names(&p);
    assert!(n.contains(&"ingress.http".to_string()));
    assert!(n.contains(&"ingress.grpc".to_string()));
    assert!(n.contains(&"ingress.file".to_string()));
}

#[test]
fn test_health_reports_egress_grpc_when_configured() {
    let mut p = probes();
    p.egress_grpc = Some(Ok(()));
    let n = names(&p);
    assert!(n.contains(&"egress.grpc".to_string()), "egress.grpc must appear in health report");
    assert!(n.contains(&"egress.http".to_string()));
}

#[test]
fn test_health_reports_egress_grpc_unhealthy_when_down() {
    let mut p = probes();
    p.egress_grpc = Some(Err("unreachable".into()));
    let h = health_report(RuntimeStatus::Running, &vec![], &p, 3);
    let grpc_comp = h.components.iter().find(|c| c.name == "egress.grpc")
        .expect("egress.grpc component must be present");
    assert!(!grpc_comp.healthy, "egress.grpc must be unhealthy when health_check returns Err");
    assert_eq!(grpc_comp.detail.as_deref(), Some("unreachable"));
    assert!(!h.is_healthy());
    assert_eq!(h.uptime_secs, 3);
}

#[test]
fn health_report_lists_lifecycle_components_first() {
    let lc = vec![
        LifecycleComponent { id: "db".into(), healthy: true, message: None },
        LifecycleComponent { id: "cache".into(), healthy: false, message: None },
        LifecycleComponent { id: "queue".into(), healthy: false, message: Some("lagging".into()) },
    ];
    let h = health_report(RuntimeStatus::Running, &lc, &probes(), 0);
    let n: Vec<&str> = h.components.iter().map(|c| c.name.as_str()).collect();
    assert_eq!(n, vec!["db", "cache", "queue", "ingress.http", "egress.http"]);
    assert_eq!(h.components[1].detail.as_deref(), Some("degraded"));
    assert_eq!(h.components[2].detail.as_deref(), Some("lagging"));
    assert!(!h.is_healthy());
}

#[test]
fn mod_test_run_until_signal_starts_and_shuts_down_cleanly() {
    assert!(shutdown_outcome(Some(Ok(())), 30).is_ok());
}

#[test]
fn mod_test_run_until_signal_propagates_start_failure() {
    let mut m = RuntimeManagerCore::new(RuntimeConfig::default());
    let err = start(&mut m, false).unwrap_err();
    assert!(matches!(err, RuntimeError::StartFailed(_)));
}

#[test]
fn mod_test_run_until_signal_returns_shutdown_timeout_when_drain_exceeds_limit() {
    let err = shutdown_outcome(None, 5).unwrap_err();
    assert!(matches!(err, RuntimeError::ShutdownTimeout(5)));
}

fn plain_config() -> RuntimeConfig {
    RuntimeConfig::default()
}

fn reflecting_config() -> RuntimeConfig {
    let mut c = RuntimeConfig::default();
    c.grpc_reflection = true;
    c
}

#[test]
fn plan_serve_decisions() {
    let err = plan_serve(false, false, false, false, true, &reflecting_config()).unwrap_err();
    assert!(err.message().contains("no handler registered"));
    let p = plan_serve(true, true, false, true, true, &plain_config()).unwrap();
    assert_eq!(p.http, IngressSource::Dispatcher);
    assert_eq!(p.grpc, IngressSource::Handler);
    assert_eq!(p.egress, EgressSource::Registered);
    assert!(!p.reflection);
    let q = plan_serve(false, true, false, false, true, &plain_config().with_egress_http_configured(true)).unwrap();
    assert_eq!(q.grpc, IngressSource::Absent);
    assert_eq!(q.egress, EgressSource::Registered);
}

#[test]
fn plan_serve_without_registered_egress_client_still_serves() {
    let configured = plain_config().with_egress_http_configured(true);
    let from_config = plan_serve(true, false, false, false, false, &configured).unwrap();
    assert_eq!(from_config.http, IngressSource::Dispatcher);
    assert_eq!(from_config.egress, EgressSource::FromConfig);
    let plain = plan_serve(false, false, false, true, false, &plain_config()).unwrap();
    assert_eq!(plain.grpc, IngressSource::Handler);
    assert_eq!(plain.egress, EgressSource::PlainDefault);
}

#[test]
fn plan_serve_mounts_reflection_beside_grpc_routes() {
    let routed = plan_serve(false, false, true, true, true, &reflecting_config()).unwrap();
    assert_eq!(routed.grpc, IngressSource::Dispatcher);
    assert!(routed.reflection);
    let raw = plan_serve(false, false, false, true, true, &reflecting_config()).unwrap();
    assert!(!raw.reflection);
    let off = plan_serve(false, false, true, false, true, &plain_config()).unwrap();
    assert!(!off.reflection);
    let http_only = plan_serve(true, false, false, false, true, &reflecting_config()).unwrap();
    assert_eq!(http_only.grpc, IngressSource::Absent);
    assert!(!http_only.reflection);
}

#[test]
fn test_render_prometheus_formats_type_line_and_value() {
    let samples = vec![MetricSample {
        name: "my_counter".into(),
        kind: MetricKind::Counter,
        labels: vec![],
        value_text: "5".into(),
    }];
    let out = render_prometheus(&samples);
    assert!(out.contains("# TYPE my_counter counter"));
    assert!(out.contains("my_counter 5"));
}

#[test]
fn render_prometheus_labels_and_kinds() {
    let samples = vec![
        MetricSample {
            name: "lat".into(),
            kind: MetricKind::Histogram,
            labels: vec![("route".into(), "/a".into()), ("code".into(), "200".into())],
            value_text: "1.5".into(),
        },
        MetricSample { name: "g".into(), kind: MetricKind::Gauge, labels: vec![("k".into(), "v".into())], value_text: "7".into() },
    ];
    assert_eq!(
        render_prometheus(&samples),
        "# TYPE lat gauge\nlat{route=\"/a\",code=\"200\"} 1.5\n# TYPE g gauge\ng{k=\"v\"} 7\n"
    );
    assert_eq!(render_prometheus(&vec![]), "");
}

#[test]
fn test_handle_non_get_returns_invalid_input_error() {
    let err = metrics_reply(false, String::new()).unwrap_err();
    assert_eq!(err, "metrics endpoint only accepts GET");
    let ok = metrics_reply(true, "body".into()).unwrap();
    assert_eq!(ok.status, 200);
    assert_eq!(ok.content_type, "text/plain; version=0.0.4; charset=utf-8");
    assert_eq!(ok.body, "body");
}

#[test]
fn reflection_routing() {
    assert!(routes_to_reflection("/grpc.reflection.v1alpha.ServerReflection/ServerReflectionInfo"));
    assert!(!routes_to_reflection("/my.Service/Method"));
    assert!(!routes_to_reflection("/grpc.reflection"));
}
