//! Properties of the library as a whole, stated over the models that the
//! functions' contracts use, and proved.

use vstd::prelude::*;
use crate::config::{
    apply_override, config_within_bounds, default_config_view, ConfigErrorView, ConfigOverrideView,
    RuntimeConfigView, RuntimeErrorView,
};
use crate::health::{ComponentHealth, ComponentView, RuntimeHealth, RuntimeStatus};
use crate::loader::{
    base_outcome, chain_outcome, env_outcome, layer_outcome, load_outcome, tenant_choice,
    tenant_file, tenant_outcome, EnvView, FileLayerView,
};
use crate::manager::{
    components_view, expected_components, full_shutdown, full_start, LifecycleComponentView,
    ProbesView,
};
use crate::metrics::{
    ascending, p99_ms_of, p99_us_of, percentile_index, positive_samples, run_ticks, sampler_after, sat_sub,
    tick_outcome, wrap_dec, wrap_inc, AutoscalePolicy, BackgroundSampler, TickReading,
};
use crate::monitor::{wrap_dec_i64, wrap_inc_i64};
use crate::paths::{digits_value, is_ascii_digit, parse_u64, tenant_id_ok, unsigned_digits};
use crate::text::{decimal, digit_char, lowercased};

verus! {

// ---------------------------------------------------------------- overrides

/// An override that sets nothing leaves the configuration unchanged.
pub proof fn law_empty_override_is_identity(c: RuntimeConfigView)
    ensures
        apply_override(
            ConfigOverrideView {
                service_name: None,
                http_bind: None,
                grpc_bind: None,
                shutdown_timeout_secs: None,
                systemd_notify: None,
                tenant_id: None,
            },
            c,
        ) == c,
{
}

/// An empty tenant id in an override never clears or replaces the tenant
/// id already configured.
pub proof fn law_empty_tenant_id_keeps_existing(o: ConfigOverrideView, c: RuntimeConfigView)
    requires
        o.tenant_id == Some(Seq::<char>::empty()),
    ensures
        apply_override(o, c).tenant_id == c.tenant_id,
{
}

/// Applying the same override twice is the same as applying it once.
pub proof fn law_override_idempotent(o: ConfigOverrideView, c: RuntimeConfigView)
    ensures
        apply_override(o, apply_override(o, c)) == apply_override(o, c),
{
}

// ----------------------------------------------------------------- layering

/// The last directory wins: when the highest-priority `application.toml`
/// parses and sets a key, the merged configuration has that key's value.
pub proof fn law_higher_priority_file_wins(
    c: RuntimeConfigView,
    dirs: Seq<Seq<char>>,
    layers: Seq<FileLayerView>,
    o: ConfigOverrideView,
    name: Seq<char>,
)
    requires
        dirs.len() == layers.len(),
        dirs.len() > 0,
        layers.last() == FileLayerView::Parsed(o),
        o.service_name == Some(name),
        chain_outcome(c, dirs.drop_last(), layers.drop_last()) is Ok,
    ensures
        chain_outcome(c, dirs, layers) matches Ok(r) && r.service_name == name,
{
}

/// Lower-priority files fill the keys that higher-priority files leave
/// unset: a parsed top layer that does not set the timeout keeps the value
/// the lower layers produced.
pub proof fn law_lower_priority_file_fills_unset(
    c: RuntimeConfigView,
    dirs: Seq<Seq<char>>,
    layers: Seq<FileLayerView>,
    o: ConfigOverrideView,
)
    requires
        dirs.len() == layers.len(),
        dirs.len() > 0,
        layers.last() == FileLayerView::Parsed(o),
        o.shutdown_timeout_secs is None,
        chain_outcome(c, dirs.drop_last(), layers.drop_last()) is Ok,
    ensures
        chain_outcome(c, dirs, layers) matches Ok(r)
            && r.shutdown_timeout_secs == chain_outcome(c, dirs.drop_last(), layers.drop_last())->Ok_0.shutdown_timeout_secs,
{
}

proof fn lemma_absent_chain(c: RuntimeConfigView, dirs: Seq<Seq<char>>, layers: Seq<FileLayerView>)
    requires
        forall|i: int| 0 <= i < layers.len() ==> #[trigger] layers[i] == FileLayerView::Absent,
    ensures
        chain_outcome(c, dirs, layers) == Ok::<RuntimeConfigView, ConfigErrorView>(c),
    decreases dirs.len(),
{
    if dirs.len() > 0 && layers.len() > 0 {
        let l = layers.drop_last();
        assert forall|i: int| 0 <= i < l.len() implies #[trigger] l[i] == FileLayerView::Absent by {
            assert(l[i] == layers[i]);
        }
        lemma_absent_chain(c, dirs.drop_last(), l);
        assert(layers.last() == layers[layers.len() - 1]);
    }
}

/// Without any `application.toml` the base configuration is the shipped
/// defaults over the built-in defaults.
pub proof fn law_no_files_gives_defaults(o: ConfigOverrideView, dirs: Seq<Seq<char>>, layers: Seq<FileLayerView>)
    requires
        forall|i: int| 0 <= i < layers.len() ==> #[trigger] layers[i] == FileLayerView::Absent,
    ensures
        base_outcome(Ok(o), dirs, layers) == Ok::<RuntimeConfigView, ConfigErrorView>(
            apply_override(o, default_config_view()),
        ),
{
    lemma_absent_chain(apply_override(o, default_config_view()), dirs, layers);
}

/// An oversized file is refused with an I/O error naming the path, and
/// nothing of its content is applied.
pub proof fn law_oversized_file_refused(c: RuntimeConfigView, path: Seq<char>, len: u64)
    ensures
        layer_outcome(c, path, FileLayerView::Oversized(len)) is Err,
        layer_outcome(c, path, FileLayerView::Oversized(len))->Err_0 is Io,
{
}

// -------------------------------------------------------------- environment

/// Environment variables override every file layer: when the whole chain
/// succeeds, a set `SWE_EDGE_SERVICE_NAME` / `SWE_EDGE_HTTP_BIND` /
/// `SWE_EDGE_GRPC_BIND` / `SWE_EDGE_TENANT_ID` is what the result holds.
pub proof fn law_environment_wins(
    shipped: Result<ConfigOverrideView, Seq<char>>,
    dirs: Seq<Seq<char>>,
    layers: Seq<FileLayerView>,
    env: EnvView,
)
    requires
        load_outcome(shipped, dirs, layers, env) is Ok,
    ensures
        env.service_name matches Some(v) ==> load_outcome(shipped, dirs, layers, env)->Ok_0.service_name == v,
        env.http_bind matches Some(v) ==> load_outcome(shipped, dirs, layers, env)->Ok_0.http_bind == v,
        env.grpc_bind matches Some(v) ==> load_outcome(shipped, dirs, layers, env)->Ok_0.grpc_bind == v,
        env.tenant_id matches Some(v) ==> load_outcome(shipped, dirs, layers, env)->Ok_0.tenant_id == Some(v),
{
}

/// An unset environment changes nothing.
pub proof fn law_empty_environment_is_identity(c: RuntimeConfigView)
    ensures
        env_outcome(
            c,
            EnvView {
                service_name: None,
                http_bind: None,
                grpc_bind: None,
                shutdown_timeout: None,
                systemd_notify: None,
                tenant_id: None,
            },
        ) == Ok::<RuntimeConfigView, ConfigErrorView>(c),
{
}

proof fn lemma_digit_char_value(k: nat)
    requires
        k < 10,
    ensures
        is_ascii_digit(digit_char(k)),
        digit_char(k) != '+',
        ((digit_char(k) as nat) - ('0' as nat)) as nat == k,
{
}

proof fn lemma_decimal_digits(n: nat)
    ensures
        decimal(n).len() > 0,
        forall|i: int| 0 <= i < decimal(n).len() ==> is_ascii_digit(#[trigger] decimal(n)[i]),
        decimal(n)[0] != '+',
        digits_value(decimal(n)) == n,
    decreases n,
{
    if n < 10 {
        lemma_digit_char_value(n);
        assert(decimal(n) == seq![digit_char(n)]);
        assert(decimal(n).drop_last() =~= Seq::<char>::empty());
        assert(digits_value(decimal(n)) == digits_value(Seq::<char>::empty()) * 10 + ((digit_char(n) as nat) - ('0' as nat)) as nat);
    } else {
        lemma_digit_char_value(n % 10);
        lemma_decimal_digits(n / 10);
        let d = decimal(n);
        let p = decimal(n / 10);
        assert(d == p + seq![digit_char(n % 10)]);
        assert(d.drop_last() =~= p);
        assert forall|i: int| 0 <= i < d.len() implies is_ascii_digit(#[trigger] d[i]) by {
            if i < p.len() {
                assert(d[i] == p[i]);
            }
        }
        assert(d[0] == p[0]);
        assert(digits_value(d) == digits_value(p) * 10 + ((digit_char(n % 10) as nat) - ('0' as nat)) as nat);
        assert((n / 10) * 10 + n % 10 == n);
    }
}

/// Every timeout a configuration can hold is accepted back from its
/// decimal text in `SWE_EDGE_SHUTDOWN_TIMEOUT`.
pub proof fn law_timeout_decimal_round_trip(n: u64)
    ensures
        parse_u64(decimal(n as nat)) == Some(n),
{
    lemma_decimal_digits(n as nat);
    assert(unsigned_digits(decimal(n as nat)) == decimal(n as nat));
}

/// A negative number is never accepted as a timeout.
pub proof fn law_negative_timeout_refused(s: Seq<char>)
    requires
        s.len() > 0,
        s[0] == '-',
    ensures
        parse_u64(s) is None,
{
    assert(unsigned_digits(s) == s);
    assert(!is_ascii_digit(s[0]));
}

// ------------------------------------------------------------------ tenants

/// A tenant id holding `.`, `/` or `\`, or the empty id, can never reach
/// the file system: the load fails with `InvalidTenantId` first.
pub proof fn law_path_traversal_refused(
    id: Seq<char>,
    shipped: Result<ConfigOverrideView, Seq<char>>,
    dirs: Seq<Seq<char>>,
    layers: Seq<FileLayerView>,
    present: Seq<bool>,
    tenant_layer: FileLayerView,
    env: EnvView,
)
    requires
        id.len() == 0 || exists|i: int| 0 <= i < id.len() && (id[i] == '.' || id[i] == '/' || id[i] == '\\'),
    ensures
        tenant_outcome(id, shipped, dirs, layers, present, tenant_layer, env)
            == Err::<RuntimeConfigView, ConfigErrorView>(ConfigErrorView::InvalidTenantId(id)),
{
    if id.len() > 0 {
        let i = choose|i: int| 0 <= i < id.len() && (id[i] == '.' || id[i] == '/' || id[i] == '\\');
        assert(!tenant_id_ok(id)) by {
            assert(!crate::paths::tenant_char_ok(id[i]));
        }
    }
}

proof fn lemma_choice_none(dirs: Seq<Seq<char>>, id: Seq<char>, present: Seq<bool>)
    requires
        dirs.len() == present.len(),
        forall|i: int| 0 <= i < present.len() ==> !#[trigger] present[i],
    ensures
        tenant_choice(dirs, id, present) is None,
    decreases dirs.len(),
{
    if dirs.len() > 0 {
        let p = present.drop_last();
        assert forall|i: int| 0 <= i < p.len() implies !#[trigger] p[i] by {
            assert(p[i] == present[i]);
        }
        assert(!present[present.len() - 1]);
        lemma_choice_none(dirs.drop_last(), id, p);
    }
}

/// A tenant whose file exists in no directory is refused with
/// `UnknownTenant` (once the id is valid and the base loads).
pub proof fn law_missing_tenant_refused(
    id: Seq<char>,
    shipped: Result<ConfigOverrideView, Seq<char>>,
    dirs: Seq<Seq<char>>,
    layers: Seq<FileLayerView>,
    present: Seq<bool>,
    tenant_layer: FileLayerView,
    env: EnvView,
)
    requires
        tenant_id_ok(id),
        base_outcome(shipped, dirs, layers) is Ok,
        dirs.len() == present.len(),
        forall|i: int| 0 <= i < present.len() ==> !#[trigger] present[i],
    ensures
        tenant_outcome(id, shipped, dirs, layers, present, tenant_layer, env)
            == Err::<RuntimeConfigView, ConfigErrorView>(ConfigErrorView::UnknownTenant(id)),
{
    lemma_choice_none(dirs, id, present);
}

/// The tenant file is found in whichever directory holds it, and when
/// several do, the highest-priority one is used.
pub proof fn law_tenant_file_highest_priority(dirs: Seq<Seq<char>>, id: Seq<char>, present: Seq<bool>, k: int)
    requires
        dirs.len() == present.len(),
        0 <= k < present.len(),
        present[k],
        forall|i: int| k < i < present.len() ==> !#[trigger] present[i],
    ensures
        tenant_choice(dirs, id, present) == Some(tenant_file(dirs[k], id)),
    decreases dirs.len(),
{
    if k < present.len() - 1 {
        let d = dirs.drop_last();
        let p = present.drop_last();
        assert(!present[present.len() - 1]);
        assert forall|i: int| k < i < p.len() implies !#[trigger] p[i] by {
            assert(p[i] == present[i]);
        }
        law_tenant_file_highest_priority(d, id, p, k);
        assert(d[k] == dirs[k]);
    }
}

/// A successful tenant load always names a tenant: the one some layer set,
/// or else the requested id.
pub proof fn law_tenant_id_always_set(
    id: Seq<char>,
    shipped: Result<ConfigOverrideView, Seq<char>>,
    dirs: Seq<Seq<char>>,
    layers: Seq<FileLayerView>,
    present: Seq<bool>,
    tenant_layer: FileLayerView,
    env: EnvView,
)
    requires
        tenant_outcome(id, shipped, dirs, layers, present, tenant_layer, env) is Ok,
    ensures
        tenant_outcome(id, shipped, dirs, layers, present, tenant_layer, env)->Ok_0.tenant_id is Some,
        env.tenant_id is None && tenant_layer == FileLayerView::Absent
            && base_outcome(shipped, dirs, layers)->Ok_0.tenant_id is None
            ==> tenant_outcome(id, shipped, dirs, layers, present, tenant_layer, env)->Ok_0.tenant_id == Some(id),
{
}

// ------------------------------------------------------------- validation

/// The built-in defaults pass validation.
pub proof fn law_defaults_are_valid()
    ensures
        config_within_bounds(default_config_view()),
{
    reveal_strlit("0.0.0.0:8080");
    reveal_strlit("0.0.0.0:50051");
}

// ---------------------------------------------------------------- lifecycle

/// Starting a running runtime is a no-op that succeeds.
pub proof fn law_start_idempotent(has_ingress: bool)
    ensures
        full_start(RuntimeStatus::Running, has_ingress) == (RuntimeStatus::Running, Ok::<(), RuntimeErrorView>(())),
{
}

/// A start with an ingress transport always ends running, and starting
/// again keeps it running.
pub proof fn law_start_reaches_running(s: RuntimeStatus, again: bool)
    ensures
        full_start(s, true).0 == RuntimeStatus::Running,
        full_start(s, true).1 is Ok,
        full_start(full_start(s, true).0, again) == (RuntimeStatus::Running, Ok::<(), RuntimeErrorView>(())),
{
}

/// Without an ingress transport a stopped runtime refuses to start with
/// `StartFailed`.
pub proof fn law_start_needs_ingress(s: RuntimeStatus)
    requires
        s != RuntimeStatus::Running,
    ensures
        full_start(s, false).1 matches Err(e) && e is StartFailed,
{
}

/// Shutting down a stopped runtime is a no-op that succeeds.
pub proof fn law_shutdown_idempotent(lifecycle: Result<(), Seq<char>>)
    ensures
        full_shutdown(RuntimeStatus::Stopped, lifecycle) == (RuntimeStatus::Stopped, Ok::<(), RuntimeErrorView>(())),
{
}

/// Start then shutdown brings a stopped runtime back to stopped.
pub proof fn law_start_shutdown_round_trip()
    ensures
        full_shutdown(full_start(RuntimeStatus::Stopped, true).0, Ok(()))
            == (RuntimeStatus::Stopped, Ok::<(), RuntimeErrorView>(())),
{
}

/// A failed lifecycle shutdown is reported and leaves the runtime stopping.
pub proof fn law_failed_shutdown_reported(s: RuntimeStatus, m: Seq<char>)
    requires
        s != RuntimeStatus::Stopped,
    ensures
        full_shutdown(s, Err(m)) == (RuntimeStatus::Stopping, Err::<(), RuntimeErrorView>(RuntimeErrorView::ShutdownFailed(m))),
{
}

// ------------------------------------------------------------------- health

/// Every configured transport appears in the health report under its name
/// (`egress.http` always does).
pub proof fn law_configured_transports_reported(lc: Seq<LifecycleComponentView>, p: ProbesView)
    ensures
        p.ingress_http is Some ==> exists|i: int| 0 <= i < expected_components(lc, p).len()
            && #[trigger] expected_components(lc, p)[i].name == "ingress.http"@,
        p.ingress_grpc is Some ==> exists|i: int| 0 <= i < expected_components(lc, p).len()
            && #[trigger] expected_components(lc, p)[i].name == "ingress.grpc"@,
        p.ingress_file is Some ==> exists|i: int| 0 <= i < expected_components(lc, p).len()
            && #[trigger] expected_components(lc, p)[i].name == "ingress.file"@,
        exists|i: int| 0 <= i < expected_components(lc, p).len()
            && #[trigger] expected_components(lc, p)[i].name == "egress.http"@,
        p.egress_grpc is Some ==> exists|i: int| 0 <= i < expected_components(lc, p).len()
            && #[trigger] expected_components(lc, p)[i].name == "egress.grpc"@,
{
    let e = expected_components(lc, p);
    let base = lc.map_values(|c: LifecycleComponentView| crate::manager::lifecycle_entry(c));
    let n = base.len();
    let a = if p.ingress_http is Some { 1int } else { 0int };
    let b = if p.ingress_grpc is Some { 1int } else { 0int };
    let f = if p.ingress_file is Some { 1int } else { 0int };
    if p.ingress_http is Some {
        assert(e[n as int].name == "ingress.http"@);
    }
    if p.ingress_grpc is Some {
        assert(e[n + a].name == "ingress.grpc"@);
    }
    if p.ingress_file is Some {
        assert(e[n + a + b].name == "ingress.file"@);
    }
    assert(e[n + a + b + f].name == "egress.http"@);
    if p.egress_grpc is Some {
        assert(e[n + a + b + f + 1].name == "egress.grpc"@);
    }
}

/// A transport whose probe failed makes the whole report unhealthy, and an
/// unhealthy gRPC egress is reported as such.
pub proof fn law_failed_probe_is_unhealthy(h: RuntimeHealth, lc: Seq<LifecycleComponentView>, p: ProbesView, m: Seq<char>)
    requires
        components_view(h.components@) == expected_components(lc, p),
        p.egress_grpc == Some(Err::<(), Seq<char>>(m)),
    ensures
        !h.spec_is_healthy(),
        expected_components(lc, p).last() == (ComponentView { name: "egress.grpc"@, healthy: false, detail: Some(m) }),
{
    let e = expected_components(lc, p);
    let k = e.len() - 1;
    assert(e[k] == components_view(h.components@)[k]);
    assert(!h.components@[k].healthy);
}

/// The report is healthy exactly when the runtime is running and every
/// lifecycle component and probed transport is healthy.
pub proof fn law_health_all_or_nothing(h: RuntimeHealth, lc: Seq<LifecycleComponentView>, p: ProbesView)
    requires
        components_view(h.components@) == expected_components(lc, p),
    ensures
        h.spec_is_healthy() <==> (h.status == RuntimeStatus::Running
            && forall|i: int| 0 <= i < expected_components(lc, p).len() ==> #[trigger] expected_components(lc, p)[i].healthy),
{
    let e = expected_components(lc, p);
    assert(h.components@.len() == e.len());
    assert forall|i: int| 0 <= i < e.len() implies #[trigger] e[i].healthy == h.components@[i].healthy by {
        assert(e[i] == components_view(h.components@)[i]);
    }
    if h.spec_is_healthy() {
        assert forall|i: int| 0 <= i < e.len() implies #[trigger] e[i].healthy by {
            assert(h.components@[i].healthy);
        }
    }
    if h.status == RuntimeStatus::Running && forall|i: int| 0 <= i < e.len() ==> #[trigger] e[i].healthy {
        assert forall|i: int| 0 <= i < h.components@.len() implies #[trigger] h.components@[i].healthy by {
            assert(e[i].healthy);
        }
    }
}

// ------------------------------------------------------------------ metrics

/// A started request that completes leaves the in-flight count where it was.
pub proof fn law_begin_then_record_balances(active: u64)
    ensures
        wrap_dec(wrap_inc(active)) == active,
{
}

/// The same for the signed in-flight gauge of provider-backed counters.
pub proof fn law_on_start_then_on_end_balances(in_flight: i64)
    ensures
        wrap_dec_i64(wrap_inc_i64(in_flight)) == in_flight,
{
}

proof fn lemma_positive_samples_come_from(s: Seq<u64>, x: u64)
    requires
        positive_samples(s).contains(x),
    ensures
        x > 0,
        exists|i: int| 0 <= i < s.len() && s[i] == x,
    decreases s.len(),
{
    let p = positive_samples(s.drop_last());
    if s.last() > 0 && x == s.last() {
        assert(s[s.len() - 1] == x);
    } else {
        if s.last() > 0 {
            let k = choose|k: int| 0 <= k < positive_samples(s).len() && positive_samples(s)[k] == x;
            assert(positive_samples(s) == p.push(s.last()));
            assert(k < p.len());
            assert(p[k] == x);
        }
        assert(p.contains(x));
        lemma_positive_samples_come_from(s.drop_last(), x);
        let i = choose|i: int| 0 <= i < s.drop_last().len() && s.drop_last()[i] == x;
        assert(s[i] == x);
    }
}

/// The reported 99th percentile is always one of the recorded latencies
/// (truncated to milliseconds).
pub proof fn law_p99_is_a_recorded_latency(s: Seq<u64>)
    requires
        positive_samples(s).len() > 0,
    ensures
        exists|i: int| 0 <= i < s.len() && s[i] > 0 && p99_ms_of(s) == s[i] / 1000,
{
    broadcast use vstd::seq_lib::group_to_multiset_ensures;
    let p = positive_samples(s);
    let sorted = p.sort_by(ascending());
    assert(vstd::relations::total_ordering(ascending()));
    p.lemma_sort_by_ensures(ascending());
    assert(sorted.len() == p.len()) by {
        assert(sorted.to_multiset().len() == p.to_multiset().len());
    }
    let k = percentile_index(p.len());
    assert(0 <= k < p.len()) by (nonlinear_arith)
        requires
            p.len() >= 1,
            k == (if (p.len() * 99) / 100 >= 1 { (p.len() * 99) / 100 - 1 } else { 0 }),
    ;
    let x = sorted[k];
    assert(sorted.contains(x));
    assert(sorted.to_multiset().count(x) > 0);
    assert(p.to_multiset().count(x) > 0);
    assert(p.contains(x));
    lemma_positive_samples_come_from(s, x);
    let i = choose|i: int| 0 <= i < s.len() && s[i] == x;
    assert(s[i] > 0 && p99_ms_of(s) == s[i] / 1000);
}

/// The sampler's rate is the number of requests completed since the
/// previous tick (while the total does not wrap).
pub proof fn law_rate_counts_requests_since_last_tick(prev: u64, k: u64)
    requires
        prev + k <= u64::MAX,
    ensures
        sat_sub((prev + k) as u64, prev) == k,
{
}

/// A sampler created with `policy` that ticks over the readings
/// `R_1, R_2, ...` publishes at tick `k` the saturating increases of the
/// request and error totals since tick `k - 1` (from zero at the first
/// tick) and the p99 latency read at tick `k`.
pub proof fn law_sampler_run_publishes_increases(policy: Option<AutoscalePolicy>, readings: Seq<TickReading>)
    ensures
        run_ticks(BackgroundSampler { prev_total: 0, prev_errors: 0, policy }, readings).len() == readings.len(),
        forall|k: int|
            0 <= k < readings.len() ==> {
                let out = #[trigger] run_ticks(BackgroundSampler { prev_total: 0, prev_errors: 0, policy }, readings)[k];
                &&& out.requests_per_sec == sat_sub(
                    readings[k].requests_total,
                    if k == 0 { 0u64 } else { readings[k - 1].requests_total },
                )
                &&& out.err_per_sec == sat_sub(
                    readings[k].errors_total,
                    if k == 0 { 0u64 } else { readings[k - 1].errors_total },
                )
                &&& out.latency_p99_ms == readings[k].latency_p99_ms
            },
{
    lemma_run_ticks(BackgroundSampler { prev_total: 0, prev_errors: 0, policy }, readings);
}

/// Over a whole run of ticks, a scale-out warning is raised only for a
/// value strictly above its threshold (a value equal to it raises none),
/// and never when the sampler has no policy.
pub proof fn law_sampler_run_warns_strictly(policy: Option<AutoscalePolicy>, readings: Seq<TickReading>)
    ensures
        forall|k: int|
            0 <= k < readings.len() ==> {
                let out = #[trigger] run_ticks(BackgroundSampler { prev_total: 0, prev_errors: 0, policy }, readings)[k];
                &&& policy is None ==> !out.signals.requests_active && !out.signals.requests_per_sec
                    && !out.signals.latency_p99_ms
                &&& policy matches Some(p) ==> {
                    &&& (out.signals.requests_active <==> readings[k].requests_active > p.requests_active_max)
                    &&& (out.signals.requests_per_sec <==> out.requests_per_sec > p.requests_per_sec_max)
                    &&& (out.signals.latency_p99_ms <==> out.latency_p99_ms > p.latency_p99_ms_max)
                }
            },
{
    lemma_run_ticks(BackgroundSampler { prev_total: 0, prev_errors: 0, policy }, readings);
}

proof fn lemma_run_ticks(s: BackgroundSampler, readings: Seq<TickReading>)
    ensures
        run_ticks(s, readings).len() == readings.len(),
        forall|k: int|
            0 <= k < readings.len() ==> #[trigger] run_ticks(s, readings)[k] == tick_outcome(
                BackgroundSampler {
                    prev_total: if k == 0 { s.prev_total } else { readings[k - 1].requests_total },
                    prev_errors: if k == 0 { s.prev_errors } else { readings[k - 1].errors_total },
                    policy: s.policy,
                },
                readings[k],
            ),
    decreases readings.len(),
{
    if readings.len() > 0 {
        let next = sampler_after(s, readings[0]);
        let rest = readings.drop_first();
        lemma_run_ticks(next, rest);
        assert forall|k: int| 0 <= k < readings.len() implies #[trigger] run_ticks(s, readings)[k]
            == tick_outcome(
                BackgroundSampler {
                    prev_total: if k == 0 { s.prev_total } else { readings[k - 1].requests_total },
                    prev_errors: if k == 0 { s.prev_errors } else { readings[k - 1].errors_total },
                    policy: s.policy,
                },
                readings[k],
            ) by {
            if k > 0 {
                assert(run_ticks(s, readings)[k] == run_ticks(next, rest)[k - 1]);
                assert(rest[k - 1] == readings[k]);
                if k > 1 {
                    assert(rest[k - 2] == readings[k - 1]);
                }
            }
        }
    }
}

// --------------------------------------------------------------- percentile

proof fn lemma_filter_all_kept(s: Seq<u64>, f: spec_fn(u64) -> bool)
    requires
        forall|i: int| 0 <= i < s.len() ==> #[trigger] f(s[i]),
    ensures
        s.filter(f).len() == s.len(),
    decreases s.len(),
{
    if s.len() > 0 {
        let d = s.drop_last();
        assert forall|i: int| 0 <= i < d.len() implies #[trigger] f(d[i]) by {
            assert(d[i] == s[i]);
        }
        lemma_filter_all_kept(d, f);
        d.lemma_filter_len_push(f, s.last());
        assert(d.push(s.last()) =~= s);
        assert(f(s[s.len() - 1]));
    }
}

proof fn lemma_filter_len_split(s: Seq<u64>, k: int, f: spec_fn(u64) -> bool)
    requires
        0 <= k <= s.len(),
    ensures
        s.filter(f).len() == s.take(k).filter(f).len() + s.skip(k).filter(f).len(),
{
    assert(s =~= s.take(k) + s.skip(k));
    Seq::filter_distributes_over_add(s.take(k), s.skip(k), f);
}

proof fn lemma_filter_len_singleton(x: u64, f: spec_fn(u64) -> bool)
    ensures
        seq![x].filter(f).len() == (if f(x) { 1int } else { 0int }),
{
    Seq::<u64>::empty().lemma_filter_len_push(f, x);
    assert(Seq::<u64>::empty().push(x) =~= seq![x]);
    reveal(Seq::filter);
}

/// Reordering the samples does not change how many satisfy `f`.
proof fn lemma_filter_len_perm(a: Seq<u64>, b: Seq<u64>, f: spec_fn(u64) -> bool)
    requires
        a.to_multiset() == b.to_multiset(),
    ensures
        a.filter(f).len() == b.filter(f).len(),
    decreases a.len(),
{
    broadcast use vstd::seq_lib::group_to_multiset_ensures;
    if a.len() == 0 {
        assert(b.to_multiset().len() == 0);
        assert(b.len() == 0);
        assert(a.filter(f).len() <= 0) by { a.lemma_filter_len(f); }
        assert(b.filter(f).len() <= 0) by { b.lemma_filter_len(f); }
    } else {
        let x = a.last();
        let a1 = a.drop_last();
        assert(a1.push(x) =~= a);
        assert(a.to_multiset() == a1.to_multiset().insert(x));
        assert(a.to_multiset().count(x) > 0);
        assert(b.contains(x));
        let j = choose|j: int| 0 <= j < b.len() && b[j] == x;
        let b1 = b.remove(j);
        assert(b1.to_multiset() == b.to_multiset().remove(x));
        assert(a1.to_multiset() =~= a.to_multiset().remove(x));
        lemma_filter_len_perm(a1, b1, f);
        a1.lemma_filter_len_push(f, x);
        let lo = b.take(j);
        let hi = b.skip(j + 1);
        assert(b =~= lo + (seq![x] + hi));
        assert(b1 =~= lo + hi);
        Seq::filter_distributes_over_add(lo, seq![x] + hi, f);
        Seq::filter_distributes_over_add(seq![x], hi, f);
        Seq::filter_distributes_over_add(lo, hi, f);
        lemma_filter_len_singleton(x, f);
    }
}

/// The reported 99th percentile ranks where the 99th percentile of `n`
/// recorded samples belongs: with `k = n * 99 / 100 - 1` (or 0 when that
/// is negative), at most `k` recorded samples are strictly smaller than
/// it and at least `k + 1` are no larger than it. In milliseconds it is
/// that sample truncated to whole milliseconds.
pub proof fn law_p99_rank(s: Seq<u64>)
    requires
        positive_samples(s).len() > 0,
    ensures
        ({
            let p = positive_samples(s);
            let v = p99_us_of(s);
            let k: int = if (p.len() * 99) / 100 >= 1 { (p.len() * 99) / 100 - 1 } else { 0 };
            &&& p.contains(v)
            &&& p.filter(|x: u64| x < v).len() <= k
            &&& p.filter(|x: u64| x <= v).len() >= k + 1
        }),
        p99_ms_of(s) == p99_us_of(s) / 1000,
{
    broadcast use vstd::seq_lib::group_to_multiset_ensures;
    let p = positive_samples(s);
    let q = p.sort_by(ascending());
    assert(vstd::relations::total_ordering(ascending()));
    p.lemma_sort_by_ensures(ascending());
    assert(q.len() == p.len()) by {
        assert(q.to_multiset().len() == p.to_multiset().len());
    }
    let n = p.len();
    let k: int = if (n * 99) / 100 >= 1 { (n * 99) / 100 - 1 } else { 0 };
    assert(0 <= k < n) by (nonlinear_arith)
        requires
            n >= 1,
            k == (if (n * 99) / 100 >= 1 { (n * 99) / 100 - 1 } else { 0 }),
    ;
    let v = q[k];
    assert(v == p99_us_of(s));
    assert(q.contains(v));
    assert(q.to_multiset().count(v) > 0);
    assert(p.contains(v));
    let lt = |x: u64| x < v;
    let le = |x: u64| x <= v;
    // In sorted order, nothing from position k on is below v.
    lemma_filter_len_split(q, k, lt);
    q.take(k).lemma_filter_len(lt);
    assert(q.skip(k).all(|x: u64| !lt(x))) by {
        assert forall|i: int| 0 <= i < q.skip(k).len() implies !lt(#[trigger] q.skip(k)[i]) by {
            assert(q.skip(k)[i] == q[k + i]);
            if i > 0 {
                assert(ascending()(q[k], q[k + i]));
            }
        }
    }
    q.skip(k).lemma_all_neg_filter_empty(lt);
    // Everything up to position k is at most v.
    lemma_filter_len_split(q, k + 1, le);
    assert forall|i: int| 0 <= i < q.take(k + 1).len() implies #[trigger] le(q.take(k + 1)[i]) by {
        assert(q.take(k + 1)[i] == q[i]);
        if i < k {
            assert(ascending()(q[i], q[k]));
        }
    }
    lemma_filter_all_kept(q.take(k + 1), le);
    lemma_filter_len_perm(p, q, lt);
    lemma_filter_len_perm(p, q, le);
}

// ------------------------------------------------------ layers, key by key

/// Laying an override over a configuration: every key the override sets
/// is what the result holds, every key it leaves unset keeps the base
/// value, and an empty tenant id never replaces the base one.
pub proof fn law_override_keys_win(o: ConfigOverrideView, c: RuntimeConfigView)
    ensures
        ({
            let r = apply_override(o, c);
            &&& r.service_name == (match o.service_name { Some(v) => v, None => c.service_name })
            &&& r.http_bind == (match o.http_bind { Some(v) => v, None => c.http_bind })
            &&& r.grpc_bind == (match o.grpc_bind { Some(v) => v, None => c.grpc_bind })
            &&& r.shutdown_timeout_secs == (match o.shutdown_timeout_secs {
                Some(v) => v,
                None => c.shutdown_timeout_secs,
            })
            &&& r.systemd_notify == (match o.systemd_notify { Some(v) => v, None => c.systemd_notify })
            &&& r.tenant_id == (match o.tenant_id {
                Some(t) => if t.len() > 0 { Some(t) } else { c.tenant_id },
                None => c.tenant_id,
            })
            &&& r.grpc_allow_unauthenticated == c.grpc_allow_unauthenticated
            &&& r.grpc_reflection == c.grpc_reflection
            &&& r.egress_http_configured == c.egress_http_configured
        }),
{
}

/// Applying the environment to any configuration: it fails exactly when
/// `SWE_EDGE_SHUTDOWN_TIMEOUT` is set to text that is not a non-negative
/// integer; otherwise every variable that is set is what the result holds
/// (the timeout as the number it spells, whatever the configuration held
/// before), every variable that is unset keeps the configuration's value,
/// and the keys the environment does not cover are untouched.
pub proof fn law_environment_applies(c: RuntimeConfigView, env: EnvView)
    ensures
        env_outcome(c, env) is Ok <==> (env.shutdown_timeout matches Some(v) ==> parse_u64(v) is Some),
        match env.shutdown_timeout {
            Some(v) => parse_u64(v) is None ==> env_outcome(c, env) == Err::<RuntimeConfigView, ConfigErrorView>(
                ConfigErrorView::BadEnvVar(crate::loader::bad_timeout_text(v)),
            ),
            None => true,
        },
        env_outcome(c, env) matches Ok(r) ==> {
            &&& r.service_name == (match env.service_name { Some(v) => v, None => c.service_name })
            &&& r.http_bind == (match env.http_bind { Some(v) => v, None => c.http_bind })
            &&& r.grpc_bind == (match env.grpc_bind { Some(v) => v, None => c.grpc_bind })
            &&& (match env.shutdown_timeout {
                Some(v) => parse_u64(v) == Some(r.shutdown_timeout_secs),
                None => r.shutdown_timeout_secs == c.shutdown_timeout_secs,
            })
            &&& r.systemd_notify == (match env.systemd_notify {
                Some(v) => lowercased(v) == "1"@ || lowercased(v) == "true"@ || lowercased(v) == "yes"@,
                None => c.systemd_notify,
            })
            &&& r.tenant_id == (match env.tenant_id { Some(v) => Some(v), None => c.tenant_id })
            &&& r.grpc_allow_unauthenticated == c.grpc_allow_unauthenticated
            &&& r.grpc_reflection == c.grpc_reflection
            &&& r.egress_http_configured == c.egress_http_configured
        },
{
}

/// Environment variables are applied on top of the tenant file too: when
/// a tenant load succeeds, every `SWE_EDGE_*` variable that is set is
/// what the result holds, whatever the tenant file and the directories'
/// files set.
pub proof fn law_environment_wins_over_tenant_file(
    id: Seq<char>,
    shipped: Result<ConfigOverrideView, Seq<char>>,
    dirs: Seq<Seq<char>>,
    layers: Seq<FileLayerView>,
    present: Seq<bool>,
    tenant_layer: FileLayerView,
    env: EnvView,
)
    requires
        tenant_outcome(id, shipped, dirs, layers, present, tenant_layer, env) is Ok,
    ensures
        ({
            let r = tenant_outcome(id, shipped, dirs, layers, present, tenant_layer, env)->Ok_0;
            &&& env.service_name matches Some(v) ==> r.service_name == v
            &&& env.http_bind matches Some(v) ==> r.http_bind == v
            &&& env.grpc_bind matches Some(v) ==> r.grpc_bind == v
            &&& env.shutdown_timeout matches Some(v) ==> parse_u64(v) == Some(r.shutdown_timeout_secs)
            &&& env.systemd_notify matches Some(v) ==> r.systemd_notify == (lowercased(v) == "1"@
                || lowercased(v) == "true"@ || lowercased(v) == "yes"@)
            &&& env.tenant_id matches Some(v) ==> r.tenant_id == Some(v)
        }),
{
    let c = base_outcome(shipped, dirs, layers)->Ok_0;
    let path = tenant_choice(dirs, id, present)->Some_0;
    let c2 = layer_outcome(c, path, tenant_layer)->Ok_0;
    law_environment_applies(c2, env);
}

/// The same without a tenant: when the load succeeds, every set
/// `SWE_EDGE_*` variable, the timeout and the notify switch included, is
/// what the result holds.
pub proof fn law_environment_wins_everywhere(
    shipped: Result<ConfigOverrideView, Seq<char>>,
    dirs: Seq<Seq<char>>,
    layers: Seq<FileLayerView>,
    env: EnvView,
)
    requires
        load_outcome(shipped, dirs, layers, env) is Ok,
    ensures
        ({
            let r = load_outcome(shipped, dirs, layers, env)->Ok_0;
            &&& env.service_name matches Some(v) ==> r.service_name == v
            &&& env.http_bind matches Some(v) ==> r.http_bind == v
            &&& env.grpc_bind matches Some(v) ==> r.grpc_bind == v
            &&& env.shutdown_timeout matches Some(v) ==> parse_u64(v) == Some(r.shutdown_timeout_secs)
            &&& env.systemd_notify matches Some(v) ==> r.systemd_notify == (lowercased(v) == "1"@
                || lowercased(v) == "true"@ || lowercased(v) == "yes"@)
            &&& env.tenant_id matches Some(v) ==> r.tenant_id == Some(v)
        }),
{
    law_environment_applies(base_outcome(shipped, dirs, layers)->Ok_0, env);
}

// ------------------------------------------------------- failed probes

/// Whether some component of `cs` is `name`, unhealthy, with detail `m`.
pub open spec fn reports_failure(cs: Seq<ComponentHealth>, name: Seq<char>, m: Seq<char>) -> bool {
    exists|i: int| 0 <= i < cs.len() && #[trigger] cs[i]@ == (ComponentView { name, healthy: false, detail: Some(m) })
}

/// Whether a configured transport's probe failed with `m`.
pub open spec fn probe_failed(p: Option<Result<(), Seq<char>>>, m: Seq<char>) -> bool {
    p == Some(Err::<(), Seq<char>>(m))
}

/// Every configured transport whose probe failed with message `m` appears
/// in the health report as unhealthy with detail `m`, and such a report is
/// never healthy: a report is healthy only when every probe succeeded.
pub proof fn law_failed_probes_reported(h: RuntimeHealth, lc: Seq<LifecycleComponentView>, p: ProbesView, m: Seq<char>)
    requires
        components_view(h.components@) == expected_components(lc, p),
    ensures
        probe_failed(p.ingress_http, m) ==> reports_failure(h.components@, "ingress.http"@, m),
        probe_failed(p.ingress_grpc, m) ==> reports_failure(h.components@, "ingress.grpc"@, m),
        probe_failed(p.ingress_file, m) ==> reports_failure(h.components@, "ingress.file"@, m),
        p.egress_http == Err::<(), Seq<char>>(m) ==> reports_failure(h.components@, "egress.http"@, m),
        probe_failed(p.egress_grpc, m) ==> reports_failure(h.components@, "egress.grpc"@, m),
        h.spec_is_healthy() ==> {
            &&& !(p.ingress_http matches Some(Err(_)))
            &&& !(p.ingress_grpc matches Some(Err(_)))
            &&& !(p.ingress_file matches Some(Err(_)))
            &&& p.egress_http is Ok
            &&& !(p.egress_grpc matches Some(Err(_)))
        },
{
    let e = expected_components(lc, p);
    let cs = h.components@;
    assert(cs.len() == e.len());
    assert forall|i: int| 0 <= i < e.len() implies #[trigger] cs[i]@ == e[i] by {
        assert(e[i] == components_view(cs)[i]);
    }
    let base = lc.map_values(|c: LifecycleComponentView| crate::manager::lifecycle_entry(c));
    let n = base.len();
    let a = if p.ingress_http is Some { 1int } else { 0int };
    let b = if p.ingress_grpc is Some { 1int } else { 0int };
    let f = if p.ingress_file is Some { 1int } else { 0int };
    if let Some(r) = p.ingress_http {
        assert(e[n as int] == crate::manager::probe_entry("ingress.http"@, r));
        assert(cs[n as int]@ == e[n as int]);
    }
    if let Some(r) = p.ingress_grpc {
        assert(e[n + a] == crate::manager::probe_entry("ingress.grpc"@, r));
        assert(cs[n + a]@ == e[n + a]);
    }
    if let Some(r) = p.ingress_file {
        assert(e[n + a + b] == crate::manager::probe_entry("ingress.file"@, r));
        assert(cs[n + a + b]@ == e[n + a + b]);
    }
    assert(e[n + a + b + f] == crate::manager::probe_entry("egress.http"@, p.egress_http));
    assert(cs[n + a + b + f]@ == e[n + a + b + f]);
    if let Some(r) = p.egress_grpc {
        assert(e[n + a + b + f + 1] == crate::manager::probe_entry("egress.grpc"@, r));
        assert(cs[n + a + b + f + 1]@ == e[n + a + b + f + 1]);
    }
}

} // verus!
