//! The runtime manager's decisions: the start / shutdown state machine,
//! the assembly of the health report, the outcome of a bounded shutdown
//! drain, and which ingress sources a server is assembled from.
//!
//! The asynchronous work in between (lifecycle hooks, transport health
//! probes, timers) is done by the caller, which reports each outcome back.

use vstd::prelude::*;
use crate::config::{RuntimeConfig, RuntimeError, RuntimeErrorView};
use crate::health::{ComponentHealth, ComponentView, RuntimeHealth, RuntimeStatus};

verus! {

/// Message of the start failure when no ingress transport is configured.
pub open spec fn no_ingress_text() -> Seq<char> {
    "no ingress transport configured \u{2014} add http, grpc, or file"@
}

/// What a start request decided.
#[derive(Debug, Clone)]
pub enum StartStep {
    /// The runtime was already running; nothing to do.
    AlreadyRunning,
    /// The start is refused with this error.
    Refused(RuntimeError),
    /// Run the start-up work, then call `complete_start`.
    Proceed,
}

/// What a shutdown request decided.
#[derive(Debug, Clone, Copy)]
pub enum ShutdownStep {
    /// The runtime was already stopped; nothing to do.
    AlreadyStopped,
    /// Run the lifecycle shutdown, then call `complete_shutdown`; emit a
    /// STOPPING notification first when `notify_stopping`.
    Proceed { notify_stopping: bool },
}

/// Model of a start request's outcome.
pub enum StartOutcome {
    AlreadyRunning,
    Refused(RuntimeErrorView),
    Proceed,
}

/// Status and decision of a start request made in status `s`.
pub open spec fn start_transition(s: RuntimeStatus, has_ingress: bool) -> (RuntimeStatus, StartOutcome) {
    if s == RuntimeStatus::Running {
        (RuntimeStatus::Running, StartOutcome::AlreadyRunning)
    } else if !has_ingress {
        (RuntimeStatus::Starting, StartOutcome::Refused(RuntimeErrorView::StartFailed(no_ingress_text())))
    } else {
        (RuntimeStatus::Starting, StartOutcome::Proceed)
    }
}

/// Status and result of a whole start (request, start-up work, completion).
pub open spec fn full_start(s: RuntimeStatus, has_ingress: bool) -> (RuntimeStatus, Result<(), RuntimeErrorView>) {
    match start_transition(s, has_ingress).1 {
        StartOutcome::AlreadyRunning => (s, Ok(())),
        StartOutcome::Refused(e) => (RuntimeStatus::Starting, Err(e)),
        StartOutcome::Proceed => (RuntimeStatus::Running, Ok(())),
    }
}

/// Status after a shutdown request made in status `s`, and whether the
/// lifecycle shutdown has to run.
pub open spec fn shutdown_transition(s: RuntimeStatus) -> (RuntimeStatus, bool) {
    if s == RuntimeStatus::Stopped {
        (RuntimeStatus::Stopped, false)
    } else {
        (RuntimeStatus::Stopping, true)
    }
}

/// Status and result once the lifecycle shutdown reported `lifecycle`.
pub open spec fn shutdown_completion(s: RuntimeStatus, lifecycle: Result<(), Seq<char>>) -> (RuntimeStatus, Result<(), RuntimeErrorView>) {
    match lifecycle {
        Ok(()) => (RuntimeStatus::Stopped, Ok(())),
        Err(m) => (s, Err(RuntimeErrorView::ShutdownFailed(m))),
    }
}

/// Status and result of a whole shutdown, the lifecycle shutdown (if it
/// runs) reporting `lifecycle`.
pub open spec fn full_shutdown(s: RuntimeStatus, lifecycle: Result<(), Seq<char>>) -> (RuntimeStatus, Result<(), RuntimeErrorView>) {
    let (s1, proceed) = shutdown_transition(s);
    if proceed {
        shutdown_completion(s1, lifecycle)
    } else {
        (s1, Ok(()))
    }
}

/// Model of a `Result<(), String>` reported by outside work.
pub open spec fn report_view(r: Result<(), String>) -> Result<(), Seq<char>> {
    match r {
        Ok(()) => Ok(()),
        Err(m) => Err(m@),
    }
}

/// Model of a `Result<(), RuntimeError>`.
pub open spec fn unit_result_view(r: Result<(), RuntimeError>) -> Result<(), RuntimeErrorView> {
    match r {
        Ok(()) => Ok(()),
        Err(e) => Err(e@),
    }
}

/// Drives a runtime through start, signal and shutdown.
pub trait Runner: Send + Sync {
    fn run(&self) -> Result<(), RuntimeError>;
}

/// Decision core of the runtime manager: its configuration and status.
#[derive(Debug, Clone)]
pub struct RuntimeManagerCore {
    pub config: RuntimeConfig,
    pub status: RuntimeStatus,
}

impl RuntimeManagerCore {
    /// A manager for `config`, initially stopped.
    pub fn new(config: RuntimeConfig) -> (m: Self)
        ensures
            m.config@ == config@,
            m.status == RuntimeStatus::Stopped,
    {
        RuntimeManagerCore { config, status: RuntimeStatus::Stopped }
    }

    /// A start request. A running manager stays running; otherwise the
    /// status becomes `Starting`, and the start is refused when no ingress
    /// transport is configured.
    pub fn begin_start(&mut self, has_ingress: bool) -> (step: StartStep)
        ensures
            final(self).config@ == old(self).config@,
            final(self).status == start_transition(old(self).status, has_ingress).0,
            match start_transition(old(self).status, has_ingress).1 {
                StartOutcome::AlreadyRunning => step is AlreadyRunning,
                StartOutcome::Refused(e) => step matches StartStep::Refused(r) && r@ == e,
                StartOutcome::Proceed => step is Proceed,
            },
    {
        if self.status == RuntimeStatus::Running {
            return StartStep::AlreadyRunning;
        }
        self.status = RuntimeStatus::Starting;
        if !has_ingress {
            return StartStep::Refused(RuntimeError::StartFailed(String::from_str(
                "no ingress transport configured \u{2014} add http, grpc, or file",
            )));
        }
        StartStep::Proceed
    }

    /// The start-up work finished: the manager is running. Returns whether
    /// to emit the READY notification.
    pub fn complete_start(&mut self) -> (notify_ready: bool)
        ensures
            final(self).config@ == old(self).config@,
            final(self).status == RuntimeStatus::Running,
            notify_ready == old(self).config.systemd_notify,
    {
        self.status = RuntimeStatus::Running;
        self.config.systemd_notify
    }

    /// A shutdown request. A stopped manager stays stopped; otherwise the
    /// status becomes `Stopping`.
    pub fn begin_shutdown(&mut self) -> (step: ShutdownStep)
        ensures
            final(self).config@ == old(self).config@,
            final(self).status == shutdown_transition(old(self).status).0,
            shutdown_transition(old(self).status).1 <==> step is Proceed,
            step matches ShutdownStep::Proceed { notify_stopping } ==> notify_stopping == old(self).config.systemd_notify,
    {
        if self.status == RuntimeStatus::Stopped {
            return ShutdownStep::AlreadyStopped;
        }
        self.status = RuntimeStatus::Stopping;
        ShutdownStep::Proceed { notify_stopping: self.config.systemd_notify }
    }

    /// The lifecycle shutdown reported `lifecycle`: on success the manager
    /// is stopped; a failure is returned as `ShutdownFailed` and leaves the
    /// status unchanged.
    pub fn complete_shutdown(&mut self, lifecycle: Result<(), String>) -> (r: Result<(), RuntimeError>)
        ensures
            final(self).config@ == old(self).config@,
            (final(self).status, unit_result_view(r)) == shutdown_completion(old(self).status, report_view(lifecycle)),
    {
        match lifecycle {
            Ok(()) => {
                self.status = RuntimeStatus::Stopped;
                Ok(())
            },
            Err(m) => Err(RuntimeError::ShutdownFailed(m)),
        }
    }
}

/// A component reported by the lifecycle monitor.
#[derive(Debug, Clone)]
pub struct LifecycleComponent {
    pub id: String,
    pub healthy: bool,
    pub message: Option<String>,
}

/// Mathematical model of a [`LifecycleComponent`].
pub struct LifecycleComponentView {
    pub id: Seq<char>,
    pub healthy: bool,
    pub message: Option<Seq<char>>,
}

impl View for LifecycleComponent {
    type V = LifecycleComponentView;

    open spec fn view(&self) -> LifecycleComponentView {
        LifecycleComponentView { id: self.id@, healthy: self.healthy, message: self.message.deep_view() }
    }
}

/// Results of the transport health probes: `None` for a transport that is
/// not configured, else `Ok` or the probe's error text.
#[derive(Debug)]
pub struct TransportProbes {
    pub ingress_http: Option<Result<(), String>>,
    pub ingress_grpc: Option<Result<(), String>>,
    pub ingress_file: Option<Result<(), String>>,
    pub egress_http: Result<(), String>,
    pub egress_grpc: Option<Result<(), String>>,
}

/// Model of an optional probe result.
pub open spec fn probe_view(p: Option<Result<(), String>>) -> Option<Result<(), Seq<char>>> {
    match p {
        Some(r) => Some(report_view(r)),
        None => None,
    }
}

/// Mathematical model of [`TransportProbes`].
pub struct ProbesView {
    pub ingress_http: Option<Result<(), Seq<char>>>,
    pub ingress_grpc: Option<Result<(), Seq<char>>>,
    pub ingress_file: Option<Result<(), Seq<char>>>,
    pub egress_http: Result<(), Seq<char>>,
    pub egress_grpc: Option<Result<(), Seq<char>>>,
}

impl View for TransportProbes {
    type V = ProbesView;

    open spec fn view(&self) -> ProbesView {
        ProbesView {
            ingress_http: probe_view(self.ingress_http),
            ingress_grpc: probe_view(self.ingress_grpc),
            ingress_file: probe_view(self.ingress_file),
            egress_http: report_view(self.egress_http),
            egress_grpc: probe_view(self.egress_grpc),
        }
    }
}

/// The health entry for a lifecycle component: unhealthy ones carry their
/// message, or `degraded` when they have none.
pub open spec fn lifecycle_entry(c: LifecycleComponentView) -> ComponentView {
    if c.healthy {
        ComponentView { name: c.id, healthy: true, detail: None }
    } else {
        ComponentView {
            name: c.id,
            healthy: false,
            detail: Some(
                match c.message {
                    Some(m) => m,
                    None => "degraded"@,
                },
            ),
        }
    }
}

/// The health entry for a probed transport.
pub open spec fn probe_entry(name: Seq<char>, r: Result<(), Seq<char>>) -> ComponentView {
    match r {
        Ok(()) => ComponentView { name, healthy: true, detail: None },
        Err(m) => ComponentView { name, healthy: false, detail: Some(m) },
    }
}

/// The entry for an optional transport: none when it is not configured.
pub open spec fn optional_entry(name: Seq<char>, p: Option<Result<(), Seq<char>>>) -> Seq<ComponentView> {
    match p {
        Some(r) => seq![probe_entry(name, r)],
        None => Seq::empty(),
    }
}

/// Components of a health report: the lifecycle components in order, then
/// `ingress.http`, `ingress.grpc`, `ingress.file` for each configured
/// ingress transport, `egress.http`, and `egress.grpc` when configured.
pub open spec fn expected_components(lc: Seq<LifecycleComponentView>, p: ProbesView) -> Seq<ComponentView> {
    lc.map_values(|c: LifecycleComponentView| lifecycle_entry(c))
        + optional_entry("ingress.http"@, p.ingress_http)
        + optional_entry("ingress.grpc"@, p.ingress_grpc)
        + optional_entry("ingress.file"@, p.ingress_file)
        + seq![probe_entry("egress.http"@, p.egress_http)]
        + optional_entry("egress.grpc"@, p.egress_grpc)
}

/// Model of a list of lifecycle components.
pub open spec fn lifecycle_view(v: Seq<LifecycleComponent>) -> Seq<LifecycleComponentView> {
    v.map_values(|c: LifecycleComponent| c@)
}

/// Model of a list of health components.
pub open spec fn components_view(v: Seq<ComponentHealth>) -> Seq<ComponentView> {
    v.map_values(|c: ComponentHealth| c@)
}

fn push_probe(out: &mut Vec<ComponentHealth>, name: &str, r: &Result<(), String>)
    ensures
        components_view(final(out)@) == components_view(old(out)@).push(probe_entry(name@, report_view(*r))),
{
    let c = match r {
        Ok(()) => ComponentHealth::healthy(name),
        Err(m) => ComponentHealth::unhealthy(name, m.as_str()),
    };
    let ghost before = out@;
    out.push(c);
    assert(components_view(out@) =~= components_view(before).push(probe_entry(name@, report_view(*r))));
}

fn push_optional(out: &mut Vec<ComponentHealth>, name: &str, p: &Option<Result<(), String>>)
    ensures
        components_view(final(out)@) == components_view(old(out)@) + optional_entry(name@, probe_view(*p)),
{
    match p {
        Some(r) => {
            push_probe(out, name, r);
            assert(components_view(out@) =~= components_view(old(out)@) + optional_entry(name@, probe_view(*p)));
        },
        None => {
            assert(components_view(out@) =~= components_view(old(out)@) + optional_entry(name@, probe_view(*p)));
        },
    }
}

/// Assembles the health report for a manager in `status` from the
/// lifecycle monitor's components and the transport probes.
pub fn health_report(
    status: RuntimeStatus,
    lifecycle: &Vec<LifecycleComponent>,
    probes: &TransportProbes,
    uptime_secs: u64,
) -> (h: RuntimeHealth)
    ensures
        h.status == status,
        h.uptime_secs == uptime_secs,
        components_view(h.components@) == expected_components(lifecycle_view(lifecycle@), probes@),
{
    let n = lifecycle.len();
    let mut out: Vec<ComponentHealth> = Vec::new();
    let mut i: usize = 0;
    while i < n
        invariant
            n == lifecycle@.len(),
            i <= n,
            components_view(out@) =~= lifecycle_view(lifecycle@).take(i as int).map_values(
                |c: LifecycleComponentView| lifecycle_entry(c),
            ),
        decreases n - i,
    {
        let lc = &lifecycle[i];
        let c = if lc.healthy {
            ComponentHealth::healthy(lc.id.as_str())
        } else {
            match &lc.message {
                Some(m) => ComponentHealth::unhealthy(lc.id.as_str(), m.as_str()),
                None => {
                    proof { reveal_strlit("degraded"); }
                    ComponentHealth::unhealthy(lc.id.as_str(), "degraded")
                },
            }
        };
        assert(c@ == lifecycle_entry(lifecycle@[i as int]@));
        let ghost before = out@;
        out.push(c);
        assert(lifecycle_view(lifecycle@).take(i as int + 1) =~= lifecycle_view(lifecycle@).take(i as int).push(lifecycle@[i as int]@));
        assert(components_view(out@) =~= components_view(before).push(c@));
        i = i + 1;
    }
    assert(lifecycle_view(lifecycle@).take(n as int) =~= lifecycle_view(lifecycle@));
    push_optional(&mut out, "ingress.http", &probes.ingress_http);
    push_optional(&mut out, "ingress.grpc", &probes.ingress_grpc);
    push_optional(&mut out, "ingress.file", &probes.ingress_file);
    push_probe(&mut out, "egress.http", &probes.egress_http);
    push_optional(&mut out, "egress.grpc", &probes.egress_grpc);
    RuntimeHealth { status, components: out, uptime_secs }
}

/// Outcome of the bounded shutdown drain: `drained` is the shutdown's
/// result, or `None` when it did not finish within `timeout_secs`.
pub fn shutdown_outcome(drained: Option<Result<(), RuntimeError>>, timeout_secs: u64) -> (r: Result<(), RuntimeError>)
    ensures
        match drained {
            Some(d) => unit_result_view(r) == unit_result_view(d),
            None => unit_result_view(r) == Err::<(), RuntimeErrorView>(RuntimeErrorView::ShutdownTimeout(timeout_secs)),
        },
{
    match drained {
        Some(d) => d,
        None => Err(RuntimeError::ShutdownTimeout(timeout_secs)),
    }
}

/// Where a server's ingress handler comes from.
#[derive(Debug, Clone, Copy, PartialEq, Eq, Structural)]
pub enum IngressSource {
    /// The route dispatcher built from registered routes.
    Dispatcher,
    /// The raw handler registered directly.
    Handler,
    /// Not served.
    Absent,
}

/// Where the HTTP egress client handed to the runtime comes from.
#[derive(Debug, Clone, Copy, PartialEq, Eq, Structural)]
pub enum EgressSource {
    /// The client registered on the builder.
    Registered,
    /// A client built from the configuration's `egress_http` settings.
    FromConfig,
    /// A plain default client.
    PlainDefault,
}

/// How the servers and the egress client are assembled.
#[derive(Debug, Clone, Copy, PartialEq, Eq, Structural)]
pub struct ServePlan {
    pub http: IngressSource,
    pub grpc: IngressSource,
    pub egress: EgressSource,
    /// Whether the gRPC reflection service is mounted beside the routes.
    pub reflection: bool,
}

/// Registered routes take precedence over a raw handler.
pub open spec fn pick_source(has_dispatcher: bool, has_handler: bool) -> IngressSource {
    if has_dispatcher {
        IngressSource::Dispatcher
    } else if has_handler {
        IngressSource::Handler
    } else {
        IngressSource::Absent
    }
}

/// A registered client wins; otherwise the configuration's settings, when
/// present; otherwise a plain default client.
pub open spec fn egress_source(registered: bool, configured: bool) -> EgressSource {
    if registered {
        EgressSource::Registered
    } else if configured {
        EgressSource::FromConfig
    } else {
        EgressSource::PlainDefault
    }
}

/// Reflection is mounted when the configuration asks for it and the gRPC
/// server is built from registered routes, which populate its registry.
pub open spec fn mounts_reflection(grpc_reflection: bool, grpc: IngressSource) -> bool {
    grpc_reflection && grpc == IngressSource::Dispatcher
}

/// The plan for a runtime that has at least one ingress handler.
pub open spec fn serve_plan(
    http_dispatcher: bool,
    http_handler: bool,
    grpc_dispatcher: bool,
    grpc_handler: bool,
    egress_registered: bool,
    egress_configured: bool,
    grpc_reflection: bool,
) -> ServePlan {
    ServePlan {
        http: pick_source(http_dispatcher, http_handler),
        grpc: pick_source(grpc_dispatcher, grpc_handler),
        egress: egress_source(egress_registered, egress_configured),
        reflection: mounts_reflection(grpc_reflection, pick_source(grpc_dispatcher, grpc_handler)),
    }
}

/// Message of the refusal to serve without any handler.
pub open spec fn no_handler_text() -> Seq<char> {
    "EdgeRuntime: no handler registered \u{2014} call .http_route() or .grpc_route()"@
}

fn pick(has_dispatcher: bool, has_handler: bool) -> (s: IngressSource)
    ensures
        s == pick_source(has_dispatcher, has_handler),
{
    if has_dispatcher {
        IngressSource::Dispatcher
    } else if has_handler {
        IngressSource::Handler
    } else {
        IngressSource::Absent
    }
}

/// Decides how the runtime is assembled from what was registered and from
/// `config`: routes win over raw handlers, a registered egress client wins
/// over one built from the configured settings, which wins over a plain
/// default client, and reflection is mounted beside registered gRPC routes
/// when the configuration asks for it. Serving needs at least one ingress
/// handler.
pub fn plan_serve(
    http_dispatcher: bool,
    http_handler: bool,
    grpc_dispatcher: bool,
    grpc_handler: bool,
    egress_registered: bool,
    config: &RuntimeConfig,
) -> (r: Result<ServePlan, RuntimeError>)
    ensures
        !(http_dispatcher || http_handler || grpc_dispatcher || grpc_handler) ==> (r matches Err(e)
            && e@ == RuntimeErrorView::StartFailed(no_handler_text())),
        (http_dispatcher || http_handler || grpc_dispatcher || grpc_handler) ==> r
            == Ok::<ServePlan, RuntimeError>(
            serve_plan(
                http_dispatcher,
                http_handler,
                grpc_dispatcher,
                grpc_handler,
                egress_registered,
                config.egress_http_configured,
                config.grpc_reflection,
            ),
        ),
{
    let http = pick(http_dispatcher, http_handler);
    let grpc = pick(grpc_dispatcher, grpc_handler);
    if http == IngressSource::Absent && grpc == IngressSource::Absent {
        return Err(RuntimeError::StartFailed(String::from_str(
            "EdgeRuntime: no handler registered \u{2014} call .http_route() or .grpc_route()",
        )));
    }
    let egress = if egress_registered {
        EgressSource::Registered
    } else if config.egress_http_configured {
        EgressSource::FromConfig
    } else {
        EgressSource::PlainDefault
    };
    let reflection = config.grpc_reflection && grpc == IngressSource::Dispatcher;
    Ok(ServePlan { http, grpc, egress, reflection })
}

} // verus!
