# swe_edge_runtime

Process-level runtime for edge services: layered configuration, the
start/shutdown lifecycle, health reporting and load metrics.

`src/` is the verified library (Verus):

- `config` — `RuntimeConfig`, partial overrides and how they merge, the
  configuration and lifecycle error types, configuration bounds.
- `loader` — the layered chain (shipped defaults, each directory's
  `application.toml`, `tenants/<id>.toml`, `SWE_EDGE_*` variables) and
  the errors it can end in.
- `paths` — path joining, the XDG directory chain, integer and tenant-id
  syntax.
- `manager` — the lifecycle state machine, the health report, the bounded
  shutdown outcome and server assembly decisions.
- `metrics`, `monitor` — latency ring buffer and its 99th percentile,
  request counters, the per-second sampler, Prometheus text.
- `exposition` — rendering exported metrics, the metrics endpoint reply,
  reflection routing.
- `laws` — properties of the library as a whole, proved.

`app/` holds what is not verified: TOML and environment input, file-system
probing, the asynchronous manager, servers, signals and serde companions.
