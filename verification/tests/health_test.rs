use swe_edge_runtime::health::{ComponentHealth, RuntimeHealth, RuntimeStatus};

#[test]
fn test_component_healthy_has_no_detail() {
    let c = ComponentHealth::healthy("http-server");
    assert!(c.healthy);
    assert!(c.detail.is_none());
}

#[test]
fn test_component_unhealthy_has_detail() {
    let c = ComponentHealth::unhealthy("database", "connection refused");
    assert!(!c.healthy);
    assert_eq!(c.detail.as_deref(), Some("connection refused"));
}

#[test]
fn test_runtime_health_is_healthy_all_components_up() {
    let h = RuntimeHealth {
        status: RuntimeStatus::Running,
        components: vec![ComponentHealth::healthy("http"), ComponentHealth::healthy("grpc")],
        uptime_secs: 120,
    };
    assert!(h.is_healthy());
}

#[test]
fn test_runtime_health_is_unhealthy_if_any_component_down() {
    let h = RuntimeHealth {
        status: RuntimeStatus::Running,
        components: vec![ComponentHealth::healthy("http"), ComponentHealth::unhealthy("grpc", "timeout")],
        uptime_secs: 5,
    };
    assert!(!h.is_healthy());
}

#[test]
fn test_runtime_health_is_unhealthy_if_status_degraded() {
    let h = RuntimeHealth {
        status: RuntimeStatus::Degraded,
        components: vec![ComponentHealth::healthy("http")],
        uptime_secs: 10,
    };
    assert!(!h.is_healthy());
}

#[test]
fn runtime_health_with_no_components_follows_status() {
    let running = RuntimeHealth { status: RuntimeStatus::Running, components: vec![], uptime_secs: 0 };
    assert!(running.is_healthy());
    for s in [RuntimeStatus::Starting, RuntimeStatus::Stopping, RuntimeStatus::Stopped] {
        let h = RuntimeHealth { status: s, components: vec![], uptime_secs: 0 };
        assert!(!h.is_healthy());
        assert!(!s.is_healthy());
    }
}
