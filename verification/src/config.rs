//! Configuration read from `AETHERDB_*` environment variables.
//!
//! The caller hands over the variables as name/value pairs (first pair of a
//! name wins, as the environment holds each name once) together with the
//! outcome of parsing the two bind addresses, which this library does not
//! parse itself.
use vstd::prelude::*;

use crate::decimal::{decimal, decimal_at_most, decimal_text, parse_u64};
use crate::outside::{str_lowercase, to_lowercase};
use crate::telemetry::TelemetryConfig;
use crate::text::{concat, str_eq, to_owned_string};

verus! {

#[derive(Debug, Clone, Copy, PartialEq, Eq, Structural)]
pub enum EmbedProviderKind {
    Ollama,
    OpenAi,
}

#[derive(Debug, Clone, Copy, PartialEq, Eq, Structural)]
pub enum StorageRole {
    Primary,
    Replica,
}

#[derive(Debug, Clone, Copy, PartialEq, Eq, Structural)]
pub enum FederationRole {
    Hub,
    Spoke,
}

#[derive(Debug, Clone, Copy, PartialEq, Eq, Structural)]
pub enum LlmProviderKind {
    Ollama,
    OpenAi,
}

#[derive(Debug)]
pub enum ConfigError {
    Missing { var: String },
    Invalid { var: String, reason: String },
}

/// A configuration error as texts.
pub enum ConfigFailure {
    Missing(Seq<char>),
    Invalid(Seq<char>, Seq<char>),
}

impl ConfigError {
    pub open spec fn failure(&self) -> ConfigFailure {
        match self {
            ConfigError::Missing { var } => ConfigFailure::Missing(var@),
            ConfigError::Invalid { var, reason } => ConfigFailure::Invalid(var@, reason@),
        }
    }
}

pub open spec fn value_result<T>(r: Result<T, ConfigError>) -> Result<T, ConfigFailure> {
    match r {
        Ok(v) => Ok(v),
        Err(e) => Err(e.failure()),
    }
}

pub open spec fn text_result(r: Result<String, ConfigError>) -> Result<Seq<char>, ConfigFailure> {
    match r {
        Ok(v) => Ok(v@),
        Err(e) => Err(e.failure()),
    }
}

pub open spec fn opt_text(o: Option<String>) -> Option<Seq<char>> {
    match o {
        Some(s) => Some(s@),
        None => None,
    }
}

/// The value of the first pair named `name`.
pub open spec fn env_lookup(vars: Seq<(String, String)>, name: Seq<char>) -> Option<Seq<char>>
    decreases vars.len(),
{
    if vars.len() == 0 {
        None
    } else if vars[0].0@ == name {
        Some(vars[0].1@)
    } else {
        env_lookup(vars.drop_first(), name)
    }
}

/// A required variable: missing when not set (an empty value counts as set).
pub open spec fn env_required(vars: Seq<(String, String)>, name: Seq<char>) -> Result<Seq<char>, ConfigFailure> {
    match env_lookup(vars, name) {
        Some(v) => Ok(v),
        None => Err(ConfigFailure::Missing(name)),
    }
}

/// An optional variable: absent when not set or set to the empty text.
pub open spec fn env_optional(vars: Seq<(String, String)>, name: Seq<char>) -> Option<Seq<char>> {
    match env_lookup(vars, name) {
        Some(v) => if v.len() > 0 {
            Some(v)
        } else {
            None
        },
        None => None,
    }
}

/// A setting read with `parse` when present, `default` otherwise.
pub open spec fn setting<T>(
    v: Option<Seq<char>>,
    parse: spec_fn(Seq<char>) -> Result<T, ConfigFailure>,
    default: T,
) -> Result<T, ConfigFailure> {
    match v {
        Some(s) => parse(s),
        None => Ok(default),
    }
}

pub open spec fn embed_dim_spec(s: Seq<char>) -> Result<u16, ConfigFailure> {
    match decimal_at_most(s, u32::MAX as nat) {
        None => Err(ConfigFailure::Invalid("AETHERDB_EMBED_DIM"@, "not a valid integer: "@ + s)),
        Some(v) => if 1 <= v <= 65535 {
            Ok(v as u16)
        } else {
            Err(ConfigFailure::Invalid("AETHERDB_EMBED_DIM"@, "must be in 1..=65535, got "@ + decimal_text(v)))
        },
    }
}

pub open spec fn embed_provider_spec(s: Seq<char>) -> Result<EmbedProviderKind, ConfigFailure> {
    let l = str_lowercase(s);
    if l == "ollama"@ {
        Ok(EmbedProviderKind::Ollama)
    } else if l == "openai"@ {
        Ok(EmbedProviderKind::OpenAi)
    } else {
        Err(ConfigFailure::Invalid("AETHERDB_EMBED_PROVIDER"@, "must be 'ollama' or 'openai', got '"@ + s + "'"@))
    }
}

pub open spec fn bool_of_lowered(l: Seq<char>) -> Option<bool> {
    if l == "true"@ || l == "1"@ || l == "yes"@ {
        Some(true)
    } else if l == "false"@ || l == "0"@ || l == "no"@ {
        Some(false)
    } else {
        None
    }
}

pub open spec fn bool_spec(var: Seq<char>, s: Seq<char>) -> Result<bool, ConfigFailure> {
    match bool_of_lowered(str_lowercase(s)) {
        Some(b) => Ok(b),
        None => Err(ConfigFailure::Invalid(var, "expected boolean, got '"@ + s + "'"@)),
    }
}

pub open spec fn llm_provider_spec(var: Seq<char>, s: Seq<char>) -> Result<LlmProviderKind, ConfigFailure> {
    let l = str_lowercase(s);
    if l == "ollama"@ {
        Ok(LlmProviderKind::Ollama)
    } else if l == "openai"@ {
        Ok(LlmProviderKind::OpenAi)
    } else {
        Err(ConfigFailure::Invalid(var, "must be 'ollama' or 'openai', got '"@ + s + "'"@))
    }
}

pub open spec fn storage_role_spec(var: Seq<char>, s: Seq<char>) -> Result<StorageRole, ConfigFailure> {
    let l = str_lowercase(s);
    if l == "primary"@ {
        Ok(StorageRole::Primary)
    } else if l == "replica"@ {
        Ok(StorageRole::Replica)
    } else {
        Err(ConfigFailure::Invalid(var, "must be 'primary' or 'replica', got '"@ + s + "'"@))
    }
}

pub open spec fn federation_role_spec(var: Seq<char>, s: Seq<char>) -> Result<FederationRole, ConfigFailure> {
    let l = str_lowercase(s);
    if l == "hub"@ {
        Ok(FederationRole::Hub)
    } else if l == "spoke"@ {
        Ok(FederationRole::Spoke)
    } else {
        Err(ConfigFailure::Invalid(var, "must be 'hub' or 'spoke', got '"@ + s + "'"@))
    }
}

/// An unsigned integer setting no larger than `max`.
pub open spec fn integer_spec(var: Seq<char>, s: Seq<char>, max: nat) -> Result<nat, ConfigFailure> {
    match decimal_at_most(s, max) {
        Some(v) => Ok(v),
        None => Err(ConfigFailure::Invalid(var, "not a valid integer: "@ + s)),
    }
}

/// A bind address: refused with the parser's message when the caller found
/// it unparsable.
pub open spec fn bind_spec(binds: Seq<(String, String)>, var: Seq<char>, s: Seq<char>) -> Result<Seq<char>, ConfigFailure> {
    match env_lookup(binds, var) {
        Some(e) => Err(ConfigFailure::Invalid(var, "invalid socket address: "@ + e)),
        None => Ok(s),
    }
}

pub open spec fn starts_with_file(s: Seq<char>) -> bool {
    s.len() >= 5 && s.subrange(0, 5) == "file:"@
}


pub open spec fn or_default(o: Option<Seq<char>>, d: Seq<char>) -> Seq<char> {
    match o {
        Some(s) => s,
        None => d,
    }
}

/// The settings as texts and values.
pub struct ConfigSpec {
    pub libsql_url: Seq<char>,
    pub libsql_auth_token: Option<Seq<char>>,
    pub embed_dim: u16,
    pub embed_provider: EmbedProviderKind,
    pub embed_base_url: Seq<char>,
    pub embed_model: Seq<char>,
    pub embed_api_key: Option<Seq<char>>,
    pub redpanda_brokers: Seq<char>,
    pub clickhouse_url: Option<Seq<char>>,
    pub gateway_bind: Seq<char>,
    pub otlp_endpoint: Option<Seq<char>>,
    pub prometheus_bind: Seq<char>,
    pub log_level: Seq<char>,
    pub minimal_mode: bool,
    pub export_dir: Seq<char>,
    pub export_cron: Seq<char>,
    pub replica_local_path: Option<Seq<char>>,
    pub sync_interval_secs: u64,
    pub storage_role: StorageRole,
    pub llm_provider: LlmProviderKind,
    pub llm_base_url: Seq<char>,
    pub llm_model: Seq<char>,
    pub llm_api_key: Option<Seq<char>>,
    pub graph_enabled: bool,
    pub hnsw_enabled: bool,
    pub hnsw_ef_construction: usize,
    pub hnsw_m: usize,
    pub hnsw_ef_search: usize,
    pub hnsw_rebuild_interval_secs: u64,
    pub federation_enabled: bool,
    pub federation_hub_url: Option<Seq<char>>,
    pub federation_role: FederationRole,
    pub federation_sync_interval_secs: u64,
    pub federation_node_id: Option<Seq<char>>,
}

pub open spec fn u64_setting(vars: Seq<(String, String)>, var: Seq<char>, default: u64) -> Result<u64, ConfigFailure> {
    match env_optional(vars, var) {
        Some(s) => match integer_spec(var, s, u64::MAX as nat) {
            Ok(v) => Ok(v as u64),
            Err(e) => Err(e),
        },
        None => Ok(default),
    }
}

pub open spec fn usize_setting(vars: Seq<(String, String)>, var: Seq<char>, default: usize) -> Result<usize, ConfigFailure> {
    match env_optional(vars, var) {
        Some(s) => match integer_spec(var, s, usize::MAX as nat) {
            Ok(v) => Ok(v as usize),
            Err(e) => Err(e),
        },
        None => Ok(default),
    }
}

pub open spec fn bool_setting(vars: Seq<(String, String)>, var: Seq<char>) -> Result<bool, ConfigFailure> {
    setting(env_optional(vars, var), |s: Seq<char>| bool_spec(var, s), false)
}

pub open spec fn bind_setting_spec(
    vars: Seq<(String, String)>,
    binds: Seq<(String, String)>,
    var: Seq<char>,
    default: Seq<char>,
) -> Result<Seq<char>, ConfigFailure> {
    setting(env_optional(vars, var), |s: Seq<char>| bind_spec(binds, var, s), default)
}

/// The storage role when none is set: a replica when a local replica path is
/// given and the database URL is not a `file:` URL.
pub open spec fn default_storage_role(replica_local_path: Option<Seq<char>>, url: Seq<char>) -> StorageRole {
    if replica_local_path is Some && !starts_with_file(url) {
        StorageRole::Replica
    } else {
        StorageRole::Primary
    }
}

/// What the environment configures: the first failing setting, in the order
/// the settings are read, or every setting with its default where unset.
pub open spec fn config_outcome(vars: Seq<(String, String)>, binds: Seq<(String, String)>) -> Result<ConfigSpec, ConfigFailure> {
    let url = env_required(vars, "AETHERDB_LIBSQL_URL"@);
    let brokers = env_required(vars, "AETHERDB_REDPANDA_BROKERS"@);
    let dim = setting(env_optional(vars, "AETHERDB_EMBED_DIM"@), |s: Seq<char>| embed_dim_spec(s), 768u16);
    let provider = setting(
        env_optional(vars, "AETHERDB_EMBED_PROVIDER"@),
        |s: Seq<char>| embed_provider_spec(s),
        EmbedProviderKind::Ollama,
    );
    let embed_api_key = env_optional(vars, "AETHERDB_EMBED_API_KEY"@);
    let gateway = bind_setting_spec(vars, binds, "AETHERDB_GATEWAY_BIND"@, "0.0.0.0:8080"@);
    let prometheus = bind_setting_spec(vars, binds, "AETHERDB_PROMETHEUS_BIND"@, "0.0.0.0:9090"@);
    let minimal = bool_setting(vars, "AETHERDB_MINIMAL_MODE"@);
    let replica_local_path = env_optional(vars, "AETHERDB_REPLICA_LOCAL_PATH"@);
    let sync_interval = u64_setting(vars, "AETHERDB_SYNC_INTERVAL_SECS"@, 1);
    let role = setting(
        env_optional(vars, "AETHERDB_STORAGE_ROLE"@),
        |s: Seq<char>| storage_role_spec("AETHERDB_STORAGE_ROLE"@, s),
        default_storage_role(replica_local_path, url->Ok_0),
    );
    let llm = setting(
        env_optional(vars, "AETHERDB_LLM_PROVIDER"@),
        |s: Seq<char>| llm_provider_spec("AETHERDB_LLM_PROVIDER"@, s),
        LlmProviderKind::Ollama,
    );
    let llm_api_key = env_optional(vars, "AETHERDB_LLM_API_KEY"@);
    let graph = bool_setting(vars, "AETHERDB_GRAPH_ENABLED"@);
    let hnsw = bool_setting(vars, "AETHERDB_HNSW_ENABLED"@);
    let ef_construction = usize_setting(vars, "AETHERDB_HNSW_EF_CONSTRUCTION"@, 100);
    let hnsw_m = usize_setting(vars, "AETHERDB_HNSW_M"@, 16);
    let ef_search = usize_setting(vars, "AETHERDB_HNSW_EF_SEARCH"@, 50);
    let rebuild = u64_setting(vars, "AETHERDB_HNSW_REBUILD_INTERVAL"@, 300);
    let federation = bool_setting(vars, "AETHERDB_FEDERATION_ENABLED"@);
    let fed_role = setting(
        env_optional(vars, "AETHERDB_FEDERATION_ROLE"@),
        |s: Seq<char>| federation_role_spec("AETHERDB_FEDERATION_ROLE"@, s),
        FederationRole::Hub,
    );
    let fed_sync = u64_setting(vars, "AETHERDB_FEDERATION_SYNC_INTERVAL_SECS"@, 30);
    if url is Err {
        Err(url->Err_0)
    } else if brokers is Err {
        Err(brokers->Err_0)
    } else if dim is Err {
        Err(dim->Err_0)
    } else if provider is Err {
        Err(provider->Err_0)
    } else if provider->Ok_0 == EmbedProviderKind::OpenAi && embed_api_key is None {
        Err(ConfigFailure::Invalid("AETHERDB_EMBED_API_KEY"@, "required when AETHERDB_EMBED_PROVIDER=openai"@))
    } else if gateway is Err {
        Err(gateway->Err_0)
    } else if prometheus is Err {
        Err(prometheus->Err_0)
    } else if minimal is Err {
        Err(minimal->Err_0)
    } else if sync_interval is Err {
        Err(sync_interval->Err_0)
    } else if role is Err {
        Err(role->Err_0)
    } else if role->Ok_0 == StorageRole::Replica && replica_local_path is None {
        Err(ConfigFailure::Invalid("AETHERDB_REPLICA_LOCAL_PATH"@, "required when storage role is replica"@))
    } else if role->Ok_0 == StorageRole::Replica && starts_with_file(url->Ok_0) {
        Err(ConfigFailure::Invalid("AETHERDB_LIBSQL_URL"@, "replica mode requires a remote libsql URL, not file:"@))
    } else if llm is Err {
        Err(llm->Err_0)
    } else if llm->Ok_0 == LlmProviderKind::OpenAi && llm_api_key is None {
        Err(ConfigFailure::Invalid("AETHERDB_LLM_API_KEY"@, "required when AETHERDB_LLM_PROVIDER=openai"@))
    } else if graph is Err {
        Err(graph->Err_0)
    } else if hnsw is Err {
        Err(hnsw->Err_0)
    } else if ef_construction is Err {
        Err(ef_construction->Err_0)
    } else if hnsw_m is Err {
        Err(hnsw_m->Err_0)
    } else if ef_search is Err {
        Err(ef_search->Err_0)
    } else if rebuild is Err {
        Err(rebuild->Err_0)
    } else if federation is Err {
        Err(federation->Err_0)
    } else if fed_role is Err {
        Err(fed_role->Err_0)
    } else if fed_sync is Err {
        Err(fed_sync->Err_0)
    } else {
        Ok(ConfigSpec {
            libsql_url: url->Ok_0,
            libsql_auth_token: env_optional(vars, "AETHERDB_LIBSQL_AUTH_TOKEN"@),
            embed_dim: dim->Ok_0,
            embed_provider: provider->Ok_0,
            embed_base_url: or_default(env_optional(vars, "AETHERDB_EMBED_BASE_URL"@), "http://localhost:11434/v1"@),
            embed_model: or_default(env_optional(vars, "AETHERDB_EMBED_MODEL"@), "nomic-embed-text"@),
            embed_api_key,
            redpanda_brokers: brokers->Ok_0,
            clickhouse_url: env_optional(vars, "AETHERDB_CLICKHOUSE_URL"@),
            gateway_bind: gateway->Ok_0,
            otlp_endpoint: env_optional(vars, "AETHERDB_OTLP_ENDPOINT"@),
            prometheus_bind: prometheus->Ok_0,
            log_level: or_default(env_optional(vars, "AETHERDB_LOG_LEVEL"@), "info"@),
            minimal_mode: minimal->Ok_0,
            export_dir: or_default(env_optional(vars, "AETHERDB_EXPORT_DIR"@), "./exports/"@),
            export_cron: or_default(env_optional(vars, "AETHERDB_EXPORT_CRON"@), "0 * * * *"@),
            replica_local_path,
            sync_interval_secs: sync_interval->Ok_0,
            storage_role: role->Ok_0,
            llm_provider: llm->Ok_0,
            llm_base_url: or_default(env_optional(vars, "AETHERDB_LLM_BASE_URL"@), "http://localhost:11434/v1"@),
            llm_model: or_default(env_optional(vars, "AETHERDB_LLM_MODEL"@), "llama3.2"@),
            llm_api_key,
            graph_enabled: graph->Ok_0,
            hnsw_enabled: hnsw->Ok_0,
            hnsw_ef_construction: ef_construction->Ok_0,
            hnsw_m: hnsw_m->Ok_0,
            hnsw_ef_search: ef_search->Ok_0,
            hnsw_rebuild_interval_secs: rebuild->Ok_0,
            federation_enabled: federation->Ok_0,
            federation_hub_url: env_optional(vars, "AETHERDB_FEDERATION_HUB_URL"@),
            federation_role: fed_role->Ok_0,
            federation_sync_interval_secs: fed_sync->Ok_0,
            federation_node_id: env_optional(vars, "AETHERDB_FEDERATION_NODE_ID"@),
        })
    }
}

/// The settings of the whole system.
pub struct Config {
    pub libsql_url: String,
    pub libsql_auth_token: Option<String>,
    pub embed_dim: u16,
    pub embed_provider: EmbedProviderKind,
    pub embed_base_url: String,
    pub embed_model: String,
    pub embed_api_key: Option<String>,
    pub redpanda_brokers: String,
    pub clickhouse_url: Option<String>,
    /// The gateway's bind address, as checked by the caller.
    pub gateway_bind: String,
    pub otlp_endpoint: Option<String>,
    /// The metrics server's bind address, as checked by the caller.
    pub prometheus_bind: String,
    pub log_level: String,
    pub minimal_mode: bool,
    pub export_dir: String,
    pub export_cron: String,
    pub replica_local_path: Option<String>,
    pub sync_interval_secs: u64,
    pub storage_role: StorageRole,
    pub llm_provider: LlmProviderKind,
    pub llm_base_url: String,
    pub llm_model: String,
    pub llm_api_key: Option<String>,
    pub graph_enabled: bool,
    pub hnsw_enabled: bool,
    pub hnsw_ef_construction: usize,
    pub hnsw_m: usize,
    pub hnsw_ef_search: usize,
    pub hnsw_rebuild_interval_secs: u64,
    pub federation_enabled: bool,
    pub federation_hub_url: Option<String>,
    pub federation_role: FederationRole,
    pub federation_sync_interval_secs: u64,
    pub federation_node_id: Option<String>,
}

impl View for Config {
    type V = ConfigSpec;

    open spec fn view(&self) -> ConfigSpec {
        ConfigSpec {
            libsql_url: self.libsql_url@,
            libsql_auth_token: opt_text(self.libsql_auth_token),
            embed_dim: self.embed_dim,
            embed_provider: self.embed_provider,
            embed_base_url: self.embed_base_url@,
            embed_model: self.embed_model@,
            embed_api_key: opt_text(self.embed_api_key),
            redpanda_brokers: self.redpanda_brokers@,
            clickhouse_url: opt_text(self.clickhouse_url),
            gateway_bind: self.gateway_bind@,
            otlp_endpoint: opt_text(self.otlp_endpoint),
            prometheus_bind: self.prometheus_bind@,
            log_level: self.log_level@,
            minimal_mode: self.minimal_mode,
            export_dir: self.export_dir@,
            export_cron: self.export_cron@,
            replica_local_path: opt_text(self.replica_local_path),
            sync_interval_secs: self.sync_interval_secs,
            storage_role: self.storage_role,
            llm_provider: self.llm_provider,
            llm_base_url: self.llm_base_url@,
            llm_model: self.llm_model@,
            llm_api_key: opt_text(self.llm_api_key),
            graph_enabled: self.graph_enabled,
            hnsw_enabled: self.hnsw_enabled,
            hnsw_ef_construction: self.hnsw_ef_construction,
            hnsw_m: self.hnsw_m,
            hnsw_ef_search: self.hnsw_ef_search,
            hnsw_rebuild_interval_secs: self.hnsw_rebuild_interval_secs,
            federation_enabled: self.federation_enabled,
            federation_hub_url: opt_text(self.federation_hub_url),
            federation_role: self.federation_role,
            federation_sync_interval_secs: self.federation_sync_interval_secs,
            federation_node_id: opt_text(self.federation_node_id),
        }
    }
}

fn invalid(var: &str, reason: String) -> (e: ConfigError)
    ensures
        e.failure() == ConfigFailure::Invalid(var@, reason@),
{
    ConfigError::Invalid { var: to_owned_string(var), reason }
}

/// The value of the first pair named `name`.
pub fn lookup<'a>(vars: &'a Vec<(String, String)>, name: &str) -> (r: Option<&'a String>)
    ensures
        match r {
            Some(v) => env_lookup(vars@, name@) == Some(v@),
            None => env_lookup(vars@, name@) is None,
        },
{
    let mut i: usize = 0;
    assert(vars@.skip(0) =~= vars@);
    while i < vars.len()
        invariant
            i <= vars@.len(),
            env_lookup(vars@, name@) == env_lookup(vars@.skip(i as int), name@),
        decreases vars@.len() - i,
    {
        proof {
            assert(vars@.skip(i as int).drop_first() =~= vars@.skip(i + 1));
        }
        if str_eq(vars[i].0.as_str(), name) {
            return Some(&vars[i].1);
        }
        i = i + 1;
    }
    None
}

/// A required variable; an empty value counts as set.
pub fn required(vars: &Vec<(String, String)>, name: &str) -> (r: Result<String, ConfigError>)
    ensures
        text_result(r) == env_required(vars@, name@),
{
    match lookup(vars, name) {
        Some(v) => Ok(v.clone()),
        None => Err(ConfigError::Missing { var: to_owned_string(name) }),
    }
}

/// An optional variable; an empty value counts as unset.
pub fn optional(vars: &Vec<(String, String)>, name: &str) -> (r: Option<String>)
    ensures
        opt_text(r) == env_optional(vars@, name@),
{
    match lookup(vars, name) {
        Some(v) => if v.as_str().is_empty() {
            None
        } else {
            Some(v.clone())
        },
        None => None,
    }
}

fn text_or(o: Option<String>, d: &str) -> (r: String)
    ensures
        r@ == or_default(opt_text(o), d@),
{
    match o {
        Some(s) => s,
        None => to_owned_string(d),
    }
}

fn quoted_reason(prefix: &str, s: &str) -> (r: String)
    ensures
        r@ == prefix@ + s@ + "'"@,
{
    let a = concat(prefix, s);
    concat(a.as_str(), "'")
}

/// Reads the embedding dimension: a decimal `u32` in `1..=65535`, the range a
/// `u16` dimension can hold.
pub fn parse_embed_dim(s: &str) -> (r: Result<u16, ConfigError>)
    ensures
        value_result(r) == embed_dim_spec(s@),
{
    match parse_u64(s) {
        Some(v) if v <= 4294967295 => {
            if 1 <= v && v <= 65535 {
                Ok(v as u16)
            } else {
                let reason = concat("must be in 1..=65535, got ", decimal(v).as_str());
                Err(invalid("AETHERDB_EMBED_DIM", reason))
            }
        },
        _ => {
            proof {
                assert(crate::decimal::decimal_at_most(s@, u32::MAX as nat) is None);
            }
            Err(invalid("AETHERDB_EMBED_DIM", concat("not a valid integer: ", s)))
        },
    }
}

impl EmbedProviderKind {
    /// The provider an already lower-cased name stands for.
    pub fn from_lowered(l: &str) -> (r: Option<EmbedProviderKind>)
        ensures
            r == (if l@ == "ollama"@ {
                Some(EmbedProviderKind::Ollama)
            } else if l@ == "openai"@ {
                Some(EmbedProviderKind::OpenAi)
            } else {
                None
            }),
    {
        if str_eq(l, "ollama") {
            Some(EmbedProviderKind::Ollama)
        } else if str_eq(l, "openai") {
            Some(EmbedProviderKind::OpenAi)
        } else {
            None
        }
    }
}

impl LlmProviderKind {
    /// The provider an already lower-cased name stands for.
    pub fn from_lowered(l: &str) -> (r: Option<LlmProviderKind>)
        ensures
            r == (if l@ == "ollama"@ {
                Some(LlmProviderKind::Ollama)
            } else if l@ == "openai"@ {
                Some(LlmProviderKind::OpenAi)
            } else {
                None
            }),
    {
        if str_eq(l, "ollama") {
            Some(LlmProviderKind::Ollama)
        } else if str_eq(l, "openai") {
            Some(LlmProviderKind::OpenAi)
        } else {
            None
        }
    }
}

impl StorageRole {
    /// The role an already lower-cased name stands for.
    pub fn from_lowered(l: &str) -> (r: Option<StorageRole>)
        ensures
            r == (if l@ == "primary"@ {
                Some(StorageRole::Primary)
            } else if l@ == "replica"@ {
                Some(StorageRole::Replica)
            } else {
                None
            }),
    {
        if str_eq(l, "primary") {
            Some(StorageRole::Primary)
        } else if str_eq(l, "replica") {
            Some(StorageRole::Replica)
        } else {
            None
        }
    }
}

impl FederationRole {
    /// The role an already lower-cased name stands for.
    pub fn from_lowered(l: &str) -> (r: Option<FederationRole>)
        ensures
            r == (if l@ == "hub"@ {
                Some(FederationRole::Hub)
            } else if l@ == "spoke"@ {
                Some(FederationRole::Spoke)
            } else {
                None
            }),
    {
        if str_eq(l, "hub") {
            Some(FederationRole::Hub)
        } else if str_eq(l, "spoke") {
            Some(FederationRole::Spoke)
        } else {
            None
        }
    }
}

/// The boolean an already lower-cased word stands for.
pub fn bool_from_lowered(l: &str) -> (r: Option<bool>)
    ensures
        r == bool_of_lowered(l@),
{
    if str_eq(l, "true") || str_eq(l, "1") || str_eq(l, "yes") {
        Some(true)
    } else if str_eq(l, "false") || str_eq(l, "0") || str_eq(l, "no") {
        Some(false)
    } else {
        None
    }
}

/// Reads the embedding provider, ignoring case.
pub fn parse_provider(s: &str) -> (r: Result<EmbedProviderKind, ConfigError>)
    ensures
        value_result(r) == embed_provider_spec(s@),
{
    let l = to_lowercase(s);
    match EmbedProviderKind::from_lowered(l.as_str()) {
        Some(p) => Ok(p),
        None => Err(invalid("AETHERDB_EMBED_PROVIDER", quoted_reason("must be 'ollama' or 'openai', got '", s))),
    }
}

/// Reads a boolean: `true`, `1`, `yes` or `false`, `0`, `no`, ignoring case.
pub fn parse_bool(var: &str, s: &str) -> (r: Result<bool, ConfigError>)
    ensures
        value_result(r) == bool_spec(var@, s@),
{
    let l = to_lowercase(s);
    match bool_from_lowered(l.as_str()) {
        Some(b) => Ok(b),
        None => Err(invalid(var, quoted_reason("expected boolean, got '", s))),
    }
}

/// Reads the LLM provider, ignoring case.
pub fn parse_llm_provider(var: &str, s: &str) -> (r: Result<LlmProviderKind, ConfigError>)
    ensures
        value_result(r) == llm_provider_spec(var@, s@),
{
    let l = to_lowercase(s);
    match LlmProviderKind::from_lowered(l.as_str()) {
        Some(p) => Ok(p),
        None => Err(invalid(var, quoted_reason("must be 'ollama' or 'openai', got '", s))),
    }
}

/// Reads the storage role, ignoring case.
pub fn parse_storage_role(var: &str, s: &str) -> (r: Result<StorageRole, ConfigError>)
    ensures
        value_result(r) == storage_role_spec(var@, s@),
{
    let l = to_lowercase(s);
    match StorageRole::from_lowered(l.as_str()) {
        Some(p) => Ok(p),
        None => Err(invalid(var, quoted_reason("must be 'primary' or 'replica', got '", s))),
    }
}

/// Reads the federation role, ignoring case.
pub fn parse_federation_role(var: &str, s: &str) -> (r: Result<FederationRole, ConfigError>)
    ensures
        value_result(r) == federation_role_spec(var@, s@),
{
    let l = to_lowercase(s);
    match FederationRole::from_lowered(l.as_str()) {
        Some(p) => Ok(p),
        None => Err(invalid(var, quoted_reason("must be 'hub' or 'spoke', got '", s))),
    }
}

fn u64_value(vars: &Vec<(String, String)>, var: &str, default: u64) -> (r: Result<u64, ConfigError>)
    ensures
        value_result(r) == u64_setting(vars@, var@, default),
{
    match optional(vars, var) {
        Some(s) => match parse_u64(s.as_str()) {
            Some(v) => Ok(v),
            None => Err(invalid(var, concat("not a valid integer: ", s.as_str()))),
        },
        None => Ok(default),
    }
}

fn usize_value(vars: &Vec<(String, String)>, var: &str, default: usize) -> (r: Result<usize, ConfigError>)
    ensures
        value_result(r) == usize_setting(vars@, var@, default),
{
    match optional(vars, var) {
        Some(s) => match parse_u64(s.as_str()) {
            Some(v) if v <= usize::MAX as u64 => Ok(v as usize),
            _ => {
                proof {
                    assert(crate::decimal::decimal_at_most(s@, usize::MAX as nat) is None);
                }
                Err(invalid(var, concat("not a valid integer: ", s.as_str())))
            },
        },
        None => Ok(default),
    }
}

fn bool_value(vars: &Vec<(String, String)>, var: &str) -> (r: Result<bool, ConfigError>)
    ensures
        value_result(r) == bool_setting(vars@, var@),
{
    match optional(vars, var) {
        Some(s) => parse_bool(var, s.as_str()),
        None => Ok(false),
    }
}

fn bind_value(vars: &Vec<(String, String)>, binds: &Vec<(String, String)>, var: &str, default: &str) -> (r:
    Result<String, ConfigError>)
    ensures
        text_result(r) == bind_setting_spec(vars@, binds@, var@, default@),
{
    match optional(vars, var) {
        Some(s) => match lookup(binds, var) {
            Some(e) => Err(invalid(var, concat("invalid socket address: ", e.as_str()))),
            None => Ok(s),
        },
        None => Ok(to_owned_string(default)),
    }
}

/// `s` starts with `file:`.
pub fn is_file_url(s: &str) -> (r: bool)
    ensures
        r == starts_with_file(s@),
{
    let n = s.unicode_len();
    if n < 5 {
        return false;
    }
    let r = s.get_char(0) == 'f' && s.get_char(1) == 'i' && s.get_char(2) == 'l' && s.get_char(3) == 'e'
        && s.get_char(4) == ':';
    proof {
        reveal_strlit("file:");
        if r {
            assert(s@.subrange(0, 5) =~= "file:"@);
        } else {
            if s@.subrange(0, 5) == "file:"@ {
                assert(s@.subrange(0, 5)[0] == 'f');
                assert(s@.subrange(0, 5)[1] == 'i');
                assert(s@.subrange(0, 5)[2] == 'l');
                assert(s@.subrange(0, 5)[3] == 'e');
                assert(s@.subrange(0, 5)[4] == ':');
            }
        }
    }
    r
}

fn clone_opt(o: &Option<String>) -> (r: Option<String>)
    ensures
        opt_text(r) == opt_text(*o),
{
    match o {
        Some(s) => Some(s.clone()),
        None => None,
    }
}

impl Config {
    /// Reads the configuration from the environment's variables, given as
    /// name/value pairs, and from the caller's parse of the two bind
    /// addresses: `bind_errors` pairs a bind variable whose value does not
    /// parse as a socket address with the parser's message.
    ///
    /// Settings are read in a fixed order and the first one that fails is
    /// reported; unset settings take their defaults.
    #[verifier::rlimit(100)]
    #[verifier::spinoff_prover]
    pub fn from_vars(vars: &Vec<(String, String)>, bind_errors: &Vec<(String, String)>) -> (r: Result<
        Config,
        ConfigError,
    >)
        ensures
            match r {
                Ok(c) => config_outcome(vars@, bind_errors@) == Ok::<ConfigSpec, ConfigFailure>(c@),
                Err(e) => config_outcome(vars@, bind_errors@) == Err::<ConfigSpec, ConfigFailure>(e.failure()),
            },
    {
        let libsql_url = match required(vars, "AETHERDB_LIBSQL_URL") {
            Ok(v) => v,
            Err(e) => return Err(e),
        };
        let libsql_auth_token = optional(vars, "AETHERDB_LIBSQL_AUTH_TOKEN");
        let redpanda_brokers = match required(vars, "AETHERDB_REDPANDA_BROKERS") {
            Ok(v) => v,
            Err(e) => return Err(e),
        };
        let clickhouse_url = optional(vars, "AETHERDB_CLICKHOUSE_URL");
        let embed_dim = match optional(vars, "AETHERDB_EMBED_DIM") {
            Some(s) => match parse_embed_dim(s.as_str()) {
                Ok(v) => v,
                Err(e) => return Err(e),
            },
            None => 768,
        };
        let embed_provider = match optional(vars, "AETHERDB_EMBED_PROVIDER") {
            Some(s) => match parse_provider(s.as_str()) {
                Ok(v) => v,
                Err(e) => return Err(e),
            },
            None => EmbedProviderKind::Ollama,
        };
        let embed_base_url = text_or(optional(vars, "AETHERDB_EMBED_BASE_URL"), "http://localhost:11434/v1");
        let embed_model = text_or(optional(vars, "AETHERDB_EMBED_MODEL"), "nomic-embed-text");
        let embed_api_key = optional(vars, "AETHERDB_EMBED_API_KEY");
        if embed_provider == EmbedProviderKind::OpenAi && embed_api_key.is_none() {
            return Err(invalid("AETHERDB_EMBED_API_KEY", to_owned_string("required when AETHERDB_EMBED_PROVIDER=openai")));
        }
        let gateway_bind = match bind_value(vars, bind_errors, "AETHERDB_GATEWAY_BIND", "0.0.0.0:8080") {
            Ok(v) => v,
            Err(e) => return Err(e),
        };
        let prometheus_bind = match bind_value(vars, bind_errors, "AETHERDB_PROMETHEUS_BIND", "0.0.0.0:9090") {
            Ok(v) => v,
            Err(e) => return Err(e),
        };
        let otlp_endpoint = optional(vars, "AETHERDB_OTLP_ENDPOINT");
        let log_level = text_or(optional(vars, "AETHERDB_LOG_LEVEL"), "info");
        let minimal_mode = match bool_value(vars, "AETHERDB_MINIMAL_MODE") {
            Ok(v) => v,
            Err(e) => return Err(e),
        };
        let export_dir = text_or(optional(vars, "AETHERDB_EXPORT_DIR"), "./exports/");
        let export_cron = text_or(optional(vars, "AETHERDB_EXPORT_CRON"), "0 * * * *");
        let replica_local_path = optional(vars, "AETHERDB_REPLICA_LOCAL_PATH");
        let sync_interval_secs = match u64_value(vars, "AETHERDB_SYNC_INTERVAL_SECS", 1) {
            Ok(v) => v,
            Err(e) => return Err(e),
        };
        let storage_role = match optional(vars, "AETHERDB_STORAGE_ROLE") {
            Some(s) => match parse_storage_role("AETHERDB_STORAGE_ROLE", s.as_str()) {
                Ok(v) => v,
                Err(e) => return Err(e),
            },
            None => if replica_local_path.is_some() && !is_file_url(libsql_url.as_str()) {
                StorageRole::Replica
            } else {
                StorageRole::Primary
            },
        };
        if storage_role == StorageRole::Replica {
            if replica_local_path.is_none() {
                return Err(invalid("AETHERDB_REPLICA_LOCAL_PATH", to_owned_string("required when storage role is replica")));
            }
            if is_file_url(libsql_url.as_str()) {
                return Err(
                    invalid(
                        "AETHERDB_LIBSQL_URL",
                        to_owned_string("replica mode requires a remote libsql URL, not file:"),
                    ),
                );
            }
        }
        let llm_provider = match optional(vars, "AETHERDB_LLM_PROVIDER") {
            Some(s) => match parse_llm_provider("AETHERDB_LLM_PROVIDER", s.as_str()) {
                Ok(v) => v,
                Err(e) => return Err(e),
            },
            None => LlmProviderKind::Ollama,
        };
        let llm_base_url = text_or(optional(vars, "AETHERDB_LLM_BASE_URL"), "http://localhost:11434/v1");
        let llm_model = text_or(optional(vars, "AETHERDB_LLM_MODEL"), "llama3.2");
        let llm_api_key = optional(vars, "AETHERDB_LLM_API_KEY");
        if llm_provider == LlmProviderKind::OpenAi && llm_api_key.is_none() {
            return Err(invalid("AETHERDB_LLM_API_KEY", to_owned_string("required when AETHERDB_LLM_PROVIDER=openai")));
        }
        let graph_enabled = match bool_value(vars, "AETHERDB_GRAPH_ENABLED") {
            Ok(v) => v,
            Err(e) => return Err(e),
        };
        let hnsw_enabled = match bool_value(vars, "AETHERDB_HNSW_ENABLED") {
            Ok(v) => v,
            Err(e) => return Err(e),
        };
        let hnsw_ef_construction = match usize_value(vars, "AETHERDB_HNSW_EF_CONSTRUCTION", 100) {
            Ok(v) => v,
            Err(e) => return Err(e),
        };
        let hnsw_m = match usize_value(vars, "AETHERDB_HNSW_M", 16) {
            Ok(v) => v,
            Err(e) => return Err(e),
        };
        let hnsw_ef_search = match usize_value(vars, "AETHERDB_HNSW_EF_SEARCH", 50) {
            Ok(v) => v,
            Err(e) => return Err(e),
        };
        let hnsw_rebuild_interval_secs = match u64_value(vars, "AETHERDB_HNSW_REBUILD_INTERVAL", 300) {
            Ok(v) => v,
            Err(e) => return Err(e),
        };
        let federation_enabled = match bool_value(vars, "AETHERDB_FEDERATION_ENABLED") {
            Ok(v) => v,
            Err(e) => return Err(e),
        };
        let federation_hub_url = optional(vars, "AETHERDB_FEDERATION_HUB_URL");
        let federation_role = match optional(vars, "AETHERDB_FEDERATION_ROLE") {
            Some(s) => match parse_federation_role("AETHERDB_FEDERATION_ROLE", s.as_str()) {
                Ok(v) => v,
                Err(e) => return Err(e),
            },
            None => FederationRole::Hub,
        };
        let federation_sync_interval_secs = match u64_value(vars, "AETHERDB_FEDERATION_SYNC_INTERVAL_SECS", 30) {
            Ok(v) => v,
            Err(e) => return Err(e),
        };
        let federation_node_id = optional(vars, "AETHERDB_FEDERATION_NODE_ID");
        Ok(Config {
            libsql_url,
            libsql_auth_token,
            embed_dim,
            embed_provider,
            embed_base_url,
            embed_model,
            embed_api_key,
            redpanda_brokers,
            clickhouse_url,
            gateway_bind,
            otlp_endpoint,
            prometheus_bind,
            log_level,
            minimal_mode,
            export_dir,
            export_cron,
            replica_local_path,
            sync_interval_secs,
            storage_role,
            llm_provider,
            llm_base_url,
            llm_model,
            llm_api_key,
            graph_enabled,
            hnsw_enabled,
            hnsw_ef_construction,
            hnsw_m,
            hnsw_ef_search,
            hnsw_rebuild_interval_secs,
            federation_enabled,
            federation_hub_url,
            federation_role,
            federation_sync_interval_secs,
            federation_node_id,
        })
    }

    /// The telemetry settings of one service.
    pub fn telemetry_config(&self, service_name: &str) -> (t: TelemetryConfig)
        ensures
            t.service_name@ == service_name@,
            t.log_level@ == self.log_level@,
            opt_text(t.otlp_endpoint) == opt_text(self.otlp_endpoint),
            t.prometheus_bind@ == self.prometheus_bind@,
    {
        TelemetryConfig {
            service_name: to_owned_string(service_name),
            log_level: self.log_level.clone(),
            otlp_endpoint: clone_opt(&self.otlp_endpoint),
            prometheus_bind: self.prometheus_bind.clone(),
        }
    }
}

/// A name is found at the first index that carries it.
pub proof fn lemma_lookup_at(vars: Seq<(String, String)>, name: Seq<char>, k: int)
    requires
        0 <= k < vars.len(),
        vars[k].0@ == name,
        forall|j: int| 0 <= j < k ==> vars[j].0@ != name,
    ensures
        env_lookup(vars, name) == Some(vars[k].1@),
    decreases k,
{
    if k > 0 {
        lemma_lookup_at(vars.drop_first(), name, k - 1);
    }
}

/// A configuration that loads is consistent: its embedding dimension is at
/// least 1, a replica has a local replica path and a remote (not `file:`)
/// database URL, and an OpenAI provider, for embeddings or for the LLM,
/// comes with its API key.
pub proof fn lemma_loaded_config_is_consistent(vars: Seq<(String, String)>, binds: Seq<(String, String)>)
    requires
        config_outcome(vars, binds) is Ok,
    ensures
        ({
            let c = config_outcome(vars, binds)->Ok_0;
            &&& c.embed_dim >= 1
            &&& c.storage_role == StorageRole::Replica ==> c.replica_local_path is Some && !starts_with_file(
                c.libsql_url,
            )
            &&& c.embed_provider == EmbedProviderKind::OpenAi ==> c.embed_api_key is Some
            &&& c.llm_provider == LlmProviderKind::OpenAi ==> c.llm_api_key is Some
        }),
{
}

/// Without an explicit storage role the role is detected: a loaded
/// configuration is a replica exactly when a local replica path is set and
/// the database URL is not a `file:` URL.
pub proof fn lemma_storage_role_detected(vars: Seq<(String, String)>, binds: Seq<(String, String)>)
    requires
        config_outcome(vars, binds) is Ok,
        env_optional(vars, "AETHERDB_STORAGE_ROLE"@) is None,
    ensures
        ({
            let c = config_outcome(vars, binds)->Ok_0;
            c.storage_role == StorageRole::Replica <==> (c.replica_local_path is Some && !starts_with_file(
                c.libsql_url,
            ))
        }),
{
}

impl ConfigError {
    /// The error as it is shown.
    pub open spec fn message(&self) -> Seq<char> {
        match self {
            ConfigError::Missing { var } => "missing required environment variable: "@ + var@,
            ConfigError::Invalid { var, reason } => "invalid value for "@ + var@ + ": "@ + reason@,
        }
    }

    pub fn to_string(&self) -> (s: String)
        ensures
            s@ == self.message(),
    {
        match self {
            ConfigError::Missing { var } => concat("missing required environment variable: ", var.as_str()),
            ConfigError::Invalid { var, reason } => {
                let mut s = concat("invalid value for ", var.as_str());
                s.append(": ");
                s.append(reason.as_str());
                s
            },
        }
    }
}

/// `v` is the text of the variable `name`, or `default` when it is unset or
/// empty.
pub open spec fn reads_text(vars: Seq<(String, String)>, name: Seq<char>, v: Seq<char>, default: Seq<char>) -> bool {
    match env_optional(vars, name) {
        Some(s) => v == s,
        None => v == default,
    }
}

/// `b` is what the variable `name` says, ignoring case: `true`, `1` and `yes`
/// turn it on, `false`, `0` and `no` off; unset or empty leaves it off.
pub open spec fn reads_flag(vars: Seq<(String, String)>, name: Seq<char>, b: bool) -> bool {
    match env_optional(vars, name) {
        Some(s) => {
            let l = str_lowercase(s);
            ||| b && (l == "true"@ || l == "1"@ || l == "yes"@)
            ||| !b && (l == "false"@ || l == "0"@ || l == "no"@)
        },
        None => !b,
    }
}

/// `n` is the decimal number in the variable `name` (at most `max`), or
/// `default` when it is unset or empty.
pub open spec fn reads_number(vars: Seq<(String, String)>, name: Seq<char>, n: nat, max: nat, default: nat) -> bool {
    match env_optional(vars, name) {
        Some(s) => decimal_at_most(s, max) == Some(n),
        None => n == default,
    }
}

/// `choice` is `first` when the variable `name` reads `first_name` and
/// `second` when it reads `second_name`, ignoring case, and `default` when
/// it is unset or empty.
pub open spec fn reads_choice<T>(
    vars: Seq<(String, String)>,
    name: Seq<char>,
    choice: T,
    first_name: Seq<char>,
    first: T,
    second_name: Seq<char>,
    second: T,
    default: T,
) -> bool {
    match env_optional(vars, name) {
        Some(s) => {
            ||| str_lowercase(s) == first_name && choice == first
            ||| str_lowercase(s) == second_name && choice == second
        },
        None => choice == default,
    }
}

/// A configuration that loads takes each setting from its own variable: the
/// required texts as set, each optional text, flag, number and choice from
/// the variable of its name (with its default when that is unset or empty),
/// the bind addresses from their variables where the caller found them valid,
/// and no setting from another setting's variable.
#[verifier::rlimit(100)]
#[verifier::spinoff_prover]
pub proof fn lemma_loaded_config_reads_each_variable(vars: Seq<(String, String)>, binds: Seq<(String, String)>)
    requires
        config_outcome(vars, binds) is Ok,
    ensures
        ({
            let c = config_outcome(vars, binds)->Ok_0;
            &&& env_lookup(vars, "AETHERDB_LIBSQL_URL"@) == Some(c.libsql_url)
            &&& env_lookup(vars, "AETHERDB_REDPANDA_BROKERS"@) == Some(c.redpanda_brokers)
            &&& c.libsql_auth_token == env_optional(vars, "AETHERDB_LIBSQL_AUTH_TOKEN"@)
            &&& c.clickhouse_url == env_optional(vars, "AETHERDB_CLICKHOUSE_URL"@)
            &&& c.embed_api_key == env_optional(vars, "AETHERDB_EMBED_API_KEY"@)
            &&& c.otlp_endpoint == env_optional(vars, "AETHERDB_OTLP_ENDPOINT"@)
            &&& c.replica_local_path == env_optional(vars, "AETHERDB_REPLICA_LOCAL_PATH"@)
            &&& c.llm_api_key == env_optional(vars, "AETHERDB_LLM_API_KEY"@)
            &&& c.federation_hub_url == env_optional(vars, "AETHERDB_FEDERATION_HUB_URL"@)
            &&& c.federation_node_id == env_optional(vars, "AETHERDB_FEDERATION_NODE_ID"@)
            &&& reads_number(vars, "AETHERDB_EMBED_DIM"@, c.embed_dim as nat, u32::MAX as nat, 768)
            &&& reads_choice(vars, "AETHERDB_EMBED_PROVIDER"@, c.embed_provider, "ollama"@, EmbedProviderKind::Ollama,
                "openai"@, EmbedProviderKind::OpenAi, EmbedProviderKind::Ollama)
            &&& reads_text(vars, "AETHERDB_EMBED_BASE_URL"@, c.embed_base_url, "http://localhost:11434/v1"@)
            &&& reads_text(vars, "AETHERDB_EMBED_MODEL"@, c.embed_model, "nomic-embed-text"@)
            &&& reads_text(vars, "AETHERDB_GATEWAY_BIND"@, c.gateway_bind, "0.0.0.0:8080"@)
            &&& reads_text(vars, "AETHERDB_PROMETHEUS_BIND"@, c.prometheus_bind, "0.0.0.0:9090"@)
            &&& (env_optional(vars, "AETHERDB_GATEWAY_BIND"@) is Some ==> env_lookup(binds, "AETHERDB_GATEWAY_BIND"@) is None)
            &&& (env_optional(vars, "AETHERDB_PROMETHEUS_BIND"@) is Some ==> env_lookup(binds, "AETHERDB_PROMETHEUS_BIND"@) is None)
            &&& reads_text(vars, "AETHERDB_LOG_LEVEL"@, c.log_level, "info"@)
            &&& reads_flag(vars, "AETHERDB_MINIMAL_MODE"@, c.minimal_mode)
            &&& reads_text(vars, "AETHERDB_EXPORT_DIR"@, c.export_dir, "./exports/"@)
            &&& reads_text(vars, "AETHERDB_EXPORT_CRON"@, c.export_cron, "0 * * * *"@)
            &&& reads_number(vars, "AETHERDB_SYNC_INTERVAL_SECS"@, c.sync_interval_secs as nat, u64::MAX as nat, 1)
            &&& reads_choice(vars, "AETHERDB_STORAGE_ROLE"@, c.storage_role, "primary"@, StorageRole::Primary,
                "replica"@, StorageRole::Replica,
                if c.replica_local_path is Some && !starts_with_file(c.libsql_url) { StorageRole::Replica } else { StorageRole::Primary })
            &&& reads_choice(vars, "AETHERDB_LLM_PROVIDER"@, c.llm_provider, "ollama"@, LlmProviderKind::Ollama,
                "openai"@, LlmProviderKind::OpenAi, LlmProviderKind::Ollama)
            &&& reads_text(vars, "AETHERDB_LLM_BASE_URL"@, c.llm_base_url, "http://localhost:11434/v1"@)
            &&& reads_text(vars, "AETHERDB_LLM_MODEL"@, c.llm_model, "llama3.2"@)
            &&& reads_flag(vars, "AETHERDB_GRAPH_ENABLED"@, c.graph_enabled)
            &&& reads_flag(vars, "AETHERDB_HNSW_ENABLED"@, c.hnsw_enabled)
            &&& reads_number(vars, "AETHERDB_HNSW_EF_CONSTRUCTION"@, c.hnsw_ef_construction as nat, usize::MAX as nat, 100)
            &&& reads_number(vars, "AETHERDB_HNSW_M"@, c.hnsw_m as nat, usize::MAX as nat, 16)
            &&& reads_number(vars, "AETHERDB_HNSW_EF_SEARCH"@, c.hnsw_ef_search as nat, usize::MAX as nat, 50)
            &&& reads_number(vars, "AETHERDB_HNSW_REBUILD_INTERVAL"@, c.hnsw_rebuild_interval_secs as nat, u64::MAX as nat, 300)
            &&& reads_flag(vars, "AETHERDB_FEDERATION_ENABLED"@, c.federation_enabled)
            &&& reads_choice(vars, "AETHERDB_FEDERATION_ROLE"@, c.federation_role, "hub"@, FederationRole::Hub,
                "spoke"@, FederationRole::Spoke, FederationRole::Hub)
            &&& reads_number(vars, "AETHERDB_FEDERATION_SYNC_INTERVAL_SECS"@, c.federation_sync_interval_secs as nat, u64::MAX as nat, 30)
        }),
{
}

} // verus!
