//! The layered configuration chain: shipped defaults, then each
//! directory's `application.toml` (lowest priority first), then for a
//! tenant its `tenants/<id>.toml`, then the `SWE_EDGE_*` environment.
//!
//! Reading files and the environment is left to the caller, which hands
//! the outcome of each read to these functions; every decision about how
//! the layers combine, and which error comes out, is made here.

use vstd::prelude::*;
use crate::config::{
    apply_override, default_config_view, overlay, ConfigError, ConfigErrorView, ConfigOverride,
    ConfigOverrideView, RuntimeConfig, RuntimeConfigView,
};
use crate::paths::{
    join_path, parse_u64, parse_u64_str, path_join, tenant_id_is_valid, tenant_id_ok,
    user_config_dir, xdg_chain, xdg_config_chain,
};
use crate::text::{debug_quote, debug_quoted, decimal, lowercased, str_eq, to_lowercase, u64_to_decimal};

verus! {

/// Refuse to read a config file larger than this (1 MiB).
pub const MAX_CONFIG_FILE_BYTES: u64 = 1048576;

/// Whether a file of `len` bytes is over the size limit.
pub fn exceeds_size_limit(len: u64) -> (r: bool)
    ensures
        r == (len > MAX_CONFIG_FILE_BYTES),
{
    len > MAX_CONFIG_FILE_BYTES
}

/// What reading one overlay file produced.
#[derive(Debug, Clone)]
pub enum FileLayer {
    /// The file does not exist.
    Absent,
    /// Its metadata or contents could not be read; the I/O error text.
    Unreadable(String),
    /// It exists but is larger than the limit; its length in bytes.
    Oversized(u64),
    /// It was read and parsed.
    Parsed(ConfigOverride),
    /// It was read but is not valid TOML for an override; the parser's text.
    Malformed(String),
}

/// Mathematical model of a [`FileLayer`].
pub enum FileLayerView {
    Absent,
    Unreadable(Seq<char>),
    Oversized(u64),
    Parsed(ConfigOverrideView),
    Malformed(Seq<char>),
}

impl View for FileLayer {
    type V = FileLayerView;

    open spec fn view(&self) -> FileLayerView {
        match self {
            FileLayer::Absent => FileLayerView::Absent,
            FileLayer::Unreadable(e) => FileLayerView::Unreadable(e@),
            FileLayer::Oversized(n) => FileLayerView::Oversized(*n),
            FileLayer::Parsed(o) => FileLayerView::Parsed(o@),
            FileLayer::Malformed(e) => FileLayerView::Malformed(e@),
        }
    }
}

/// The `SWE_EDGE_*` variables that were set (as Unicode text).
#[derive(Debug, Clone)]
pub struct EnvOverrides {
    /// `SWE_EDGE_SERVICE_NAME`
    pub service_name: Option<String>,
    /// `SWE_EDGE_HTTP_BIND`
    pub http_bind: Option<String>,
    /// `SWE_EDGE_GRPC_BIND`
    pub grpc_bind: Option<String>,
    /// `SWE_EDGE_SHUTDOWN_TIMEOUT`
    pub shutdown_timeout: Option<String>,
    /// `SWE_EDGE_SYSTEMD_NOTIFY`
    pub systemd_notify: Option<String>,
    /// `SWE_EDGE_TENANT_ID`
    pub tenant_id: Option<String>,
}

/// Mathematical model of [`EnvOverrides`].
pub struct EnvView {
    pub service_name: Option<Seq<char>>,
    pub http_bind: Option<Seq<char>>,
    pub grpc_bind: Option<Seq<char>>,
    pub shutdown_timeout: Option<Seq<char>>,
    pub systemd_notify: Option<Seq<char>>,
    pub tenant_id: Option<Seq<char>>,
}

impl View for EnvOverrides {
    type V = EnvView;

    open spec fn view(&self) -> EnvView {
        EnvView {
            service_name: self.service_name.deep_view(),
            http_bind: self.http_bind.deep_view(),
            grpc_bind: self.grpc_bind.deep_view(),
            shutdown_timeout: self.shutdown_timeout.deep_view(),
            systemd_notify: self.systemd_notify.deep_view(),
            tenant_id: self.tenant_id.deep_view(),
        }
    }
}

impl EnvOverrides {
    /// No variable set.
    pub fn none() -> (e: Self)
        ensures
            e@ == (EnvView {
                service_name: None,
                http_bind: None,
                grpc_bind: None,
                shutdown_timeout: None,
                systemd_notify: None,
                tenant_id: None,
            }),
    {
        EnvOverrides {
            service_name: None,
            http_bind: None,
            grpc_bind: None,
            shutdown_timeout: None,
            systemd_notify: None,
            tenant_id: None,
        }
    }
}

/// Text of the error for an unparsable `SWE_EDGE_SHUTDOWN_TIMEOUT` value.
pub open spec fn bad_timeout_text(v: Seq<char>) -> Seq<char> {
    "SWE_EDGE_SHUTDOWN_TIMEOUT="@ + debug_quoted(v) + ": expected a non-negative integer"@
}

/// Parses `SWE_EDGE_SHUTDOWN_TIMEOUT`: a non-negative integer, or
/// `BadEnvVar` naming the variable and quoting the value.
pub fn parse_shutdown_timeout(v: &str) -> (r: Result<u64, ConfigError>)
    ensures
        match parse_u64(v@) {
            Some(n) => r matches Ok(m) && m == n,
            None => r matches Err(e) && e@ == ConfigErrorView::BadEnvVar(bad_timeout_text(v@)),
        },
{
    match parse_u64_str(v) {
        Some(n) => Ok(n),
        None => {
            let msg = String::from_str("SWE_EDGE_SHUTDOWN_TIMEOUT=");
            let q = debug_quote(v);
            let msg = msg.concat(q.as_str());
            let msg = msg.concat(": expected a non-negative integer");
            Err(ConfigError::BadEnvVar(msg))
        },
    }
}

/// Rejects any tenant id that could escape the `tenants/` directory.
pub fn validate_tenant_id(id: &str) -> (r: Result<(), ConfigError>)
    ensures
        r is Ok <==> tenant_id_ok(id@),
        r matches Err(e) ==> e@ == ConfigErrorView::InvalidTenantId(id@),
{
    if tenant_id_is_valid(id) {
        Ok(())
    } else {
        Err(ConfigError::InvalidTenantId(String::from_str(id)))
    }
}

/// `SWE_EDGE_SYSTEMD_NOTIFY` enables notifications when its lowercase
/// form is `1`, `true` or `yes`.
pub open spec fn truthy(lower: Seq<char>) -> bool {
    lower == "1"@ || lower == "true"@ || lower == "yes"@
}

/// The result of applying the environment on top of `c`.
pub open spec fn env_outcome(c: RuntimeConfigView, env: EnvView) -> Result<RuntimeConfigView, ConfigErrorView> {
    let timeout = match env.shutdown_timeout {
        Some(v) => parse_u64(v),
        None => Some(c.shutdown_timeout_secs),
    };
    match timeout {
        None => Err(ConfigErrorView::BadEnvVar(bad_timeout_text(env.shutdown_timeout->0))),
        Some(t) => Ok(RuntimeConfigView {
            service_name: overlay(env.service_name, c.service_name),
            http_bind: overlay(env.http_bind, c.http_bind),
            grpc_bind: overlay(env.grpc_bind, c.grpc_bind),
            shutdown_timeout_secs: t,
            systemd_notify: match env.systemd_notify {
                Some(v) => truthy(lowercased(v)),
                None => c.systemd_notify,
            },
            tenant_id: match env.tenant_id {
                Some(v) => Some(v),
                None => c.tenant_id,
            },
            ..c
        }),
    }
}

/// Model of a `Result<RuntimeConfig, ConfigError>`.
pub open spec fn outcome_view(r: Result<RuntimeConfig, ConfigError>) -> Result<RuntimeConfigView, ConfigErrorView> {
    match r {
        Ok(c) => Ok(c@),
        Err(e) => Err(e@),
    }
}

/// Applies the `SWE_EDGE_*` variables on top of `cfg`.
pub fn apply_env(cfg: RuntimeConfig, env: EnvOverrides) -> (r: Result<RuntimeConfig, ConfigError>)
    ensures
        outcome_view(r) == env_outcome(cfg@, env@),
{
    let mut cfg = cfg;
    let ghost c0 = cfg@;
    let ghost ev = env@;
    if let Some(v) = env.service_name {
        cfg.service_name = v;
    }
    if let Some(v) = env.http_bind {
        cfg.http_bind = v;
    }
    if let Some(v) = env.grpc_bind {
        cfg.grpc_bind = v;
    }
    if let Some(v) = env.shutdown_timeout {
        match parse_shutdown_timeout(v.as_str()) {
            Ok(n) => {
                cfg.shutdown_timeout_secs = n;
            },
            Err(e) => {
                return Err(e);
            },
        }
    }
    if let Some(v) = env.systemd_notify {
        let lower = to_lowercase(v.as_str());
        proof {
            reveal_strlit("1");
            reveal_strlit("true");
            reveal_strlit("yes");
        }
        cfg.systemd_notify = str_eq(lower.as_str(), "1") || str_eq(lower.as_str(), "true")
            || str_eq(lower.as_str(), "yes");
    }
    if let Some(v) = env.tenant_id {
        cfg.tenant_id = Some(v);
    }
    Ok(cfg)
}

/// The file `application.toml` inside `dir`.
pub open spec fn application_file(dir: Seq<char>) -> Seq<char> {
    path_join(dir, "application.toml"@)
}

/// The file `tenants/<id>.toml` inside `dir`.
pub open spec fn tenant_file(dir: Seq<char>, id: Seq<char>) -> Seq<char> {
    path_join(path_join(dir, "tenants"@), id + ".toml"@)
}

/// Text of the error for an oversized config file.
pub open spec fn oversized_text(path: Seq<char>, len: u64) -> Seq<char> {
    path + ": config file exceeds the 1 MiB limit ("@ + decimal(len as nat) + " bytes)"@
}

/// The result of laying the file at `path`, read as `layer`, over `c`.
pub open spec fn layer_outcome(c: RuntimeConfigView, path: Seq<char>, layer: FileLayerView) -> Result<RuntimeConfigView, ConfigErrorView> {
    match layer {
        FileLayerView::Absent => Ok(c),
        FileLayerView::Unreadable(e) => Err(ConfigErrorView::Io(path + ": "@ + e)),
        FileLayerView::Oversized(n) => Err(ConfigErrorView::Io(oversized_text(path, n))),
        FileLayerView::Parsed(o) => Ok(apply_override(o, c)),
        FileLayerView::Malformed(e) => Err(ConfigErrorView::Parse(e)),
    }
}

/// The result of laying the `application.toml` of each directory in
/// `dirs`, read as `layers`, over `c`, lowest priority first; the first
/// error stops the chain.
pub open spec fn chain_outcome(c: RuntimeConfigView, dirs: Seq<Seq<char>>, layers: Seq<FileLayerView>) -> Result<RuntimeConfigView, ConfigErrorView>
    decreases dirs.len(),
{
    if dirs.len() == 0 || layers.len() == 0 {
        Ok(c)
    } else {
        match chain_outcome(c, dirs.drop_last(), layers.drop_last()) {
            Err(e) => Err(e),
            Ok(c1) => layer_outcome(c1, application_file(dirs.last()), layers.last()),
        }
    }
}

/// The base configuration: the shipped defaults file laid over the
/// built-in defaults, then every directory's `application.toml`.
pub open spec fn base_outcome(shipped: Result<ConfigOverrideView, Seq<char>>, dirs: Seq<Seq<char>>, layers: Seq<FileLayerView>) -> Result<RuntimeConfigView, ConfigErrorView> {
    match shipped {
        Err(e) => Err(ConfigErrorView::Parse(e)),
        Ok(o) => chain_outcome(apply_override(o, default_config_view()), dirs, layers),
    }
}

/// The full chain without a tenant: base, then the environment.
pub open spec fn load_outcome(shipped: Result<ConfigOverrideView, Seq<char>>, dirs: Seq<Seq<char>>, layers: Seq<FileLayerView>, env: EnvView) -> Result<RuntimeConfigView, ConfigErrorView> {
    match base_outcome(shipped, dirs, layers) {
        Err(e) => Err(e),
        Ok(c) => env_outcome(c, env),
    }
}

/// The tenant file that is used: the one in the highest-priority
/// directory where it exists (`present[i]` tells whether it exists in
/// `dirs[i]`).
pub open spec fn tenant_choice(dirs: Seq<Seq<char>>, id: Seq<char>, present: Seq<bool>) -> Option<Seq<char>>
    decreases dirs.len(),
{
    if dirs.len() == 0 || present.len() == 0 {
        None
    } else if present.last() {
        Some(tenant_file(dirs.last(), id))
    } else {
        tenant_choice(dirs.drop_last(), id, present.drop_last())
    }
}

/// The full chain for a tenant: the id is checked first; then the base;
/// then the tenant file (`UnknownTenant` when no directory has it); then
/// the environment; and when no layer named a tenant, the requested id.
pub open spec fn tenant_outcome(
    id: Seq<char>,
    shipped: Result<ConfigOverrideView, Seq<char>>,
    dirs: Seq<Seq<char>>,
    layers: Seq<FileLayerView>,
    present: Seq<bool>,
    tenant_layer: FileLayerView,
    env: EnvView,
) -> Result<RuntimeConfigView, ConfigErrorView> {
    if !tenant_id_ok(id) {
        Err(ConfigErrorView::InvalidTenantId(id))
    } else {
        match base_outcome(shipped, dirs, layers) {
            Err(e) => Err(e),
            Ok(c) => match tenant_choice(dirs, id, present) {
                None => Err(ConfigErrorView::UnknownTenant(id)),
                Some(path) => match layer_outcome(c, path, tenant_layer) {
                    Err(e) => Err(e),
                    Ok(c2) => match env_outcome(c2, env) {
                        Err(e) => Err(e),
                        Ok(c3) => Ok(
                            if c3.tenant_id is None {
                                RuntimeConfigView { tenant_id: Some(id), ..c3 }
                            } else {
                                c3
                            },
                        ),
                    },
                },
            },
        }
    }
}

/// Model of a parsed shipped-defaults file.
pub open spec fn shipped_view(s: Result<ConfigOverride, String>) -> Result<ConfigOverrideView, Seq<char>> {
    match s {
        Ok(o) => Ok(o@),
        Err(e) => Err(e@),
    }
}

/// Model of a list of file layers.
pub open spec fn layers_view(v: Seq<FileLayer>) -> Seq<FileLayerView> {
    v.map_values(|l: FileLayer| l@)
}

/// Loads [`RuntimeConfig`] through the layered chain. `config_dirs` lists
/// directories lowest priority first.
#[derive(Debug, Clone)]
pub struct DefaultConfigLoader {
    pub config_dirs: Vec<String>,
}

impl DefaultConfigLoader {
    /// The directory named by `SWE_EDGE_CONFIG_DIR` (passed in as
    /// `config_dir_var`), or `config` relative to the working directory.
    pub fn new(config_dir_var: Option<String>) -> (l: Self)
        ensures
            l.config_dirs.deep_view() == seq![
                match config_dir_var { Some(d) => d@, None => "config"@ }
            ],
    {
        let dir = match config_dir_var {
            Some(d) => d,
            None => String::from_str("config"),
        };
        let mut v: Vec<String> = Vec::new();
        v.push(dir);
        assert(v.deep_view() =~= seq![v@[0]@]);
        DefaultConfigLoader { config_dirs: v }
    }

    /// A single explicit directory.
    pub fn with_dir(dir: &str) -> (l: Self)
        ensures
            l.config_dirs.deep_view() == seq![dir@],
    {
        let mut v: Vec<String> = Vec::new();
        v.push(String::from_str(dir));
        assert(v.deep_view() =~= seq![dir@]);
        DefaultConfigLoader { config_dirs: v }
    }

    /// The XDG Base Directory chain for `app_name` given the environment
    /// values it depends on, with `config_home` the user config directory.
    pub fn xdg_from(
        app_name: &str,
        xdg_config_dirs: Option<String>,
        config_home: Option<String>,
        explicit_dir: Option<String>,
    ) -> (l: Self)
        ensures
            l.config_dirs.deep_view() == xdg_chain(
                app_name@,
                xdg_config_dirs.deep_view(),
                config_home.deep_view(),
                explicit_dir.deep_view(),
            ),
    {
        DefaultConfigLoader {
            config_dirs: xdg_config_chain(app_name, xdg_config_dirs, config_home, explicit_dir),
        }
    }

    /// The XDG chain for `app_name`: `$XDG_CONFIG_DIRS` (passed in as
    /// `xdg_config_dirs`), the user config directory as `dirs` reports it,
    /// and `$SWE_EDGE_CONFIG_DIR` (passed in as `explicit_dir`).
    pub fn xdg(app_name: &str, xdg_config_dirs: Option<String>, explicit_dir: Option<String>) -> (l: Self)
        ensures
            exists|home: Option<Seq<char>>|
                l.config_dirs.deep_view() == xdg_chain(
                    app_name@,
                    xdg_config_dirs.deep_view(),
                    home,
                    explicit_dir.deep_view(),
                ),
    {
        let home = user_config_dir();
        let l = Self::xdg_from(app_name, xdg_config_dirs, home, explicit_dir);
        assert(l.config_dirs.deep_view() == xdg_chain(app_name@, xdg_config_dirs.deep_view(), home.deep_view(), explicit_dir.deep_view()));
        l
    }

    /// The `application.toml` path of every directory, in order.
    pub fn application_files(&self) -> (r: Vec<String>)
        ensures
            r.deep_view() == self.config_dirs.deep_view().map_values(|d: Seq<char>| application_file(d)),
    {
        let n = self.config_dirs.len();
        let mut r: Vec<String> = Vec::new();
        let mut i: usize = 0;
        while i < n
            invariant
                n == self.config_dirs@.len(),
                i <= n,
                r@.len() == i,
                forall|j: int| 0 <= j < i ==> #[trigger] r.deep_view()[j] == application_file(self.config_dirs.deep_view()[j]),
            decreases n - i,
        {
            proof { reveal_strlit("application.toml"); }
            let p = join_path(self.config_dirs[i].as_str(), "application.toml");
            let ghost old_r = r.deep_view();
            r.push(p);
            assert(r.deep_view() =~= old_r.push(p@));
            i = i + 1;
        }
        assert(r.deep_view() =~= self.config_dirs.deep_view().map_values(|d: Seq<char>| application_file(d)));
        r
    }

    /// The `tenants/<id>.toml` path of every directory, in order.
    pub fn tenant_files(&self, tenant_id: &str) -> (r: Vec<String>)
        ensures
            r.deep_view() == self.config_dirs.deep_view().map_values(|d: Seq<char>| tenant_file(d, tenant_id@)),
    {
        let n = self.config_dirs.len();
        let mut r: Vec<String> = Vec::new();
        let mut i: usize = 0;
        while i < n
            invariant
                n == self.config_dirs@.len(),
                i <= n,
                r@.len() == i,
                forall|j: int| 0 <= j < i ==> #[trigger] r.deep_view()[j] == tenant_file(self.config_dirs.deep_view()[j], tenant_id@),
            decreases n - i,
        {
            let p = tenant_path_in(self.config_dirs[i].as_str(), tenant_id);
            let ghost old_r = r.deep_view();
            r.push(p);
            assert(r.deep_view() =~= old_r.push(p@));
            i = i + 1;
        }
        assert(r.deep_view() =~= self.config_dirs.deep_view().map_values(|d: Seq<char>| tenant_file(d, tenant_id@)));
        r
    }

    /// The tenant file to use: the one in the highest-priority directory
    /// where it exists. `present[i]` tells whether it exists in the
    /// directory `config_dirs[i]`.
    pub fn tenant_path(&self, tenant_id: &str, present: &Vec<bool>) -> (r: Option<String>)
        requires
            present@.len() == self.config_dirs@.len(),
        ensures
            r.deep_view() == tenant_choice(self.config_dirs.deep_view(), tenant_id@, present@),
    {
        let ghost dirs = self.config_dirs.deep_view();
        let mut k: usize = self.config_dirs.len();
        assert(dirs.take(k as int) =~= dirs);
        assert(present@.take(k as int) =~= present@);
        while k > 0
            invariant
                k <= self.config_dirs@.len(),
                present@.len() == self.config_dirs@.len(),
                dirs == self.config_dirs.deep_view(),
                tenant_choice(dirs, tenant_id@, present@)
                    == tenant_choice(dirs.take(k as int), tenant_id@, present@.take(k as int)),
            decreases k,
        {
            let ghost dk = dirs.take(k as int);
            let ghost pk = present@.take(k as int);
            assert(dk.drop_last() =~= dirs.take(k as int - 1));
            assert(pk.drop_last() =~= present@.take(k as int - 1));
            if present[k - 1] {
                let p = tenant_path_in(self.config_dirs[k - 1].as_str(), tenant_id);
                return Some(p);
            }
            k = k - 1;
        }
        None
    }

    /// The base configuration: `shipped` (the parsed shipped defaults, or
    /// the parser's error) over the built-in defaults, then each
    /// directory's `application.toml` read as `layers[i]`.
    pub fn base(&self, shipped: Result<ConfigOverride, String>, layers: Vec<FileLayer>) -> (r: Result<RuntimeConfig, ConfigError>)
        requires
            layers@.len() == self.config_dirs@.len(),
        ensures
            outcome_view(r) == base_outcome(shipped_view(shipped), self.config_dirs.deep_view(), layers_view(layers@)),
    {
        let ghost target = base_outcome(shipped_view(shipped), self.config_dirs.deep_view(), layers_view(layers@));
        let start = match shipped {
            Err(e) => {
                return Err(ConfigError::Parse(e));
            },
            Ok(o) => o.apply_to(RuntimeConfig::default()),
        };
        let ghost dirs = self.config_dirs.deep_view();
        let ghost all = layers_view(layers@);
        let ghost c0 = start@;
        let n = self.config_dirs.len();
        let mut rest = layers;
        let mut cfg = start;
        let mut i: usize = 0;
        assert(dirs.take(0) =~= Seq::<Seq<char>>::empty());
        while i < n
            invariant
                n == self.config_dirs@.len(),
                dirs == self.config_dirs.deep_view(),
                all.len() == n,
                i <= n,
                layers_view(rest@) =~= all.skip(i as int),
                target == chain_outcome(c0, dirs, all),
                target == base_outcome(shipped_view(shipped), self.config_dirs.deep_view(), layers_view(layers@)),
                chain_outcome(c0, dirs.take(i as int), all.take(i as int)) == Ok::<RuntimeConfigView, ConfigErrorView>(cfg@),
            decreases n - i,
        {
            let ghost ti = dirs.take(i as int + 1);
            let ghost li = all.take(i as int + 1);
            assert(ti.drop_last() =~= dirs.take(i as int));
            assert(li.drop_last() =~= all.take(i as int));
            assert(li.last() == all[i as int]);
            let ghost before = rest@;
            assert(layers_view(before).len() == before.len());
            let layer = rest.remove(0);
            assert(layers_view(before)[0] == before[0]@);
            assert(layer@ == all[i as int]);
            assert(rest@ =~= before.subrange(1, before.len() as int));
            assert forall|j: int| 0 <= j < rest@.len() implies #[trigger] layers_view(rest@)[j] == all.skip(i as int + 1)[j] by {
                assert(layers_view(rest@)[j] == rest@[j]@);
                assert(rest@[j] == before[j + 1]);
                assert(layers_view(before)[j + 1] == before[j + 1]@);
                assert(all.skip(i as int)[j + 1] == all[i as int + 1 + j]);
            }
            assert(layers_view(rest@) =~= all.skip(i as int + 1));
            proof { reveal_strlit("application.toml"); }
            let path = join_path(self.config_dirs[i].as_str(), "application.toml");
            assert(ti.last() == dirs[i as int]);
            assert(path@ == application_file(dirs[i as int]));
            match apply_file_if_exists(cfg, path.as_str(), layer) {
                Err(e) => {
                    proof { lemma_chain_error_sticks(c0, dirs, all, i as int + 1, e@); }
                    return Err(e);
                },
                Ok(c) => {
                    cfg = c;
                },
            }
            i = i + 1;
        }
        assert(dirs.take(n as int) =~= dirs);
        assert(all.take(n as int) =~= all);
        Ok(cfg)
    }

    /// Loads the configuration without a tenant: base, then environment.
    pub fn load(&self, shipped: Result<ConfigOverride, String>, layers: Vec<FileLayer>, env: EnvOverrides) -> (r: Result<RuntimeConfig, ConfigError>)
        requires
            layers@.len() == self.config_dirs@.len(),
        ensures
            outcome_view(r) == load_outcome(shipped_view(shipped), self.config_dirs.deep_view(), layers_view(layers@), env@),
    {
        match self.base(shipped, layers) {
            Err(e) => Err(e),
            Ok(c) => apply_env(c, env),
        }
    }

    /// Loads the configuration for a tenant. `present[i]` tells whether the
    /// tenant file exists in `config_dirs[i]`, and `tenant_layer` is what
    /// reading the chosen tenant file produced.
    pub fn load_for_tenant(
        &self,
        tenant_id: &str,
        shipped: Result<ConfigOverride, String>,
        layers: Vec<FileLayer>,
        present: &Vec<bool>,
        tenant_layer: FileLayer,
        env: EnvOverrides,
    ) -> (r: Result<RuntimeConfig, ConfigError>)
        requires
            layers@.len() == self.config_dirs@.len(),
            present@.len() == self.config_dirs@.len(),
        ensures
            outcome_view(r) == tenant_outcome(
                tenant_id@,
                shipped_view(shipped),
                self.config_dirs.deep_view(),
                layers_view(layers@),
                present@,
                tenant_layer@,
                env@,
            ),
    {
        match validate_tenant_id(tenant_id) {
            Err(e) => {
                return Err(e);
            },
            Ok(()) => {},
        }
        let cfg = match self.base(shipped, layers) {
            Err(e) => {
                return Err(e);
            },
            Ok(c) => c,
        };
        let path = match self.tenant_path(tenant_id, present) {
            None => {
                return Err(ConfigError::UnknownTenant(String::from_str(tenant_id)));
            },
            Some(p) => p,
        };
        let cfg = match apply_file_if_exists(cfg, path.as_str(), tenant_layer) {
            Err(e) => {
                return Err(e);
            },
            Ok(c) => c,
        };
        let mut cfg = match apply_env(cfg, env) {
            Err(e) => {
                return Err(e);
            },
            Ok(c) => c,
        };
        if cfg.tenant_id.is_none() {
            cfg.tenant_id = Some(String::from_str(tenant_id));
        }
        Ok(cfg)
    }
}

proof fn lemma_chain_error_sticks(
    c0: RuntimeConfigView,
    dirs: Seq<Seq<char>>,
    all: Seq<FileLayerView>,
    k: int,
    e: ConfigErrorView,
)
    requires
        0 <= k <= dirs.len(),
        all.len() == dirs.len(),
        chain_outcome(c0, dirs.take(k), all.take(k)) == Err::<RuntimeConfigView, ConfigErrorView>(e),
    ensures
        chain_outcome(c0, dirs, all) == Err::<RuntimeConfigView, ConfigErrorView>(e),
    decreases dirs.len() - k,
{
    if k < dirs.len() {
        let t = dirs.take(k + 1);
        let l = all.take(k + 1);
        assert(t.drop_last() =~= dirs.take(k));
        assert(l.drop_last() =~= all.take(k));
        lemma_chain_error_sticks(c0, dirs, all, k + 1, e);
    } else {
        assert(dirs.take(k) =~= dirs);
        assert(all.take(k) =~= all);
    }
}

/// `tenants/<id>.toml` inside `dir`.
fn tenant_path_in(dir: &str, tenant_id: &str) -> (r: String)
    ensures
        r@ == tenant_file(dir@, tenant_id@),
{
    proof {
        reveal_strlit("tenants");
        reveal_strlit(".toml");
    }
    let t = join_path(dir, "tenants");
    let name = String::from_str(tenant_id).concat(".toml");
    join_path(t.as_str(), name.as_str())
}

/// Lays the file at `path`, read as `layer`, over `cfg`: an absent file
/// changes nothing, an unreadable or oversized one is an `Io` error naming
/// the path, an unparsable one a `Parse` error.
pub fn apply_file_if_exists(cfg: RuntimeConfig, path: &str, layer: FileLayer) -> (r: Result<RuntimeConfig, ConfigError>)
    ensures
        outcome_view(r) == layer_outcome(cfg@, path@, layer@),
{
    match layer {
        FileLayer::Absent => Ok(cfg),
        FileLayer::Unreadable(e) => {
            let msg = String::from_str(path).concat(": ").concat(e.as_str());
            Err(ConfigError::Io(msg))
        },
        FileLayer::Oversized(n) => {
            let d = u64_to_decimal(n);
            let msg = String::from_str(path)
                .concat(": config file exceeds the 1 MiB limit (")
                .concat(d.as_str())
                .concat(" bytes)");
            Err(ConfigError::Io(msg))
        },
        FileLayer::Parsed(o) => Ok(o.apply_to(cfg)),
        FileLayer::Malformed(e) => Err(ConfigError::Parse(e)),
    }
}

} // verus!
