use aetherdb::config::{
    parse_bool, parse_embed_dim, parse_federation_role, parse_llm_provider, parse_provider,
    parse_storage_role, Config, ConfigError, EmbedProviderKind, FederationRole, LlmProviderKind,
    StorageRole,
};

fn vars(pairs: &[(&str, &str)]) -> Vec<(String, String)> {
    pairs.iter().map(|(k, v)| (k.to_string(), v.to_string())).collect()
}

fn load(pairs: &[(&str, &str)]) -> Result<Config, ConfigError> {
    Config::from_vars(&vars(pairs), &Vec::new())
}

fn expect_invalid(r: Result<Config, ConfigError>) -> (String, String) {
    match r {
        Err(ConfigError::Invalid { var, reason }) => (var, reason),
        Err(e) => panic!("expected Invalid, got {:?}", e),
        Ok(_) => panic!("expected Invalid, got a configuration"),
    }
}

#[test]
fn missing_required_libsql_url_errors() {
    match load(&[("AETHERDB_REDPANDA_BROKERS", "localhost:9092")]) {
        Err(ConfigError::Missing { var }) => assert_eq!(var, "AETHERDB_LIBSQL_URL"),
        Err(e) => panic!("expected Missing{{AETHERDB_LIBSQL_URL}}, got {:?}", e),
        Ok(_) => panic!("expected Missing{{AETHERDB_LIBSQL_URL}}, got a configuration"),
    }
}

#[test]
fn missing_required_redpanda_brokers_errors() {
    match load(&[("AETHERDB_LIBSQL_URL", "file::memory:")]) {
        Err(ConfigError::Missing { var }) => assert_eq!(var, "AETHERDB_REDPANDA_BROKERS"),
        Err(e) => panic!("expected Missing{{AETHERDB_REDPANDA_BROKERS}}, got {:?}", e),
        Ok(_) => panic!("expected Missing{{AETHERDB_REDPANDA_BROKERS}}, got a configuration"),
    }
}

#[test]
fn embed_dim_above_limit_errors() {
    let (var, _) = expect_invalid(load(&[
        ("AETHERDB_LIBSQL_URL", "file::memory:"),
        ("AETHERDB_REDPANDA_BROKERS", "localhost:9092"),
        ("AETHERDB_EMBED_DIM", "70000"),
    ]));
    assert_eq!(var, "AETHERDB_EMBED_DIM");
}

#[test]
fn openai_provider_without_api_key_errors() {
    let (var, reason) = expect_invalid(load(&[
        ("AETHERDB_LIBSQL_URL", "file::memory:"),
        ("AETHERDB_REDPANDA_BROKERS", "localhost:9092"),
        ("AETHERDB_EMBED_PROVIDER", "openai"),
    ]));
    assert_eq!(var, "AETHERDB_EMBED_API_KEY");
    assert_eq!(reason, "required when AETHERDB_EMBED_PROVIDER=openai");
}

#[test]
fn defaults_applied_when_unset() {
    let cfg = load(&[
        ("AETHERDB_LIBSQL_URL", "file::memory:"),
        ("AETHERDB_REDPANDA_BROKERS", "localhost:9092"),
    ])
    .expect("config with only required vars");
    assert_eq!(cfg.embed_dim, 768);
    assert_eq!(cfg.embed_model, "nomic-embed-text");
    assert_eq!(cfg.log_level, "info");
    assert!(!cfg.minimal_mode);
    assert_eq!(cfg.storage_role, StorageRole::Primary);
    assert!(cfg.replica_local_path.is_none());
    assert_eq!(cfg.sync_interval_secs, 1);
}

#[test]
fn replica_mode_requires_local_path() {
    let (var, _) = expect_invalid(load(&[
        ("AETHERDB_LIBSQL_URL", "http://sqld:8080"),
        ("AETHERDB_REDPANDA_BROKERS", "localhost:9092"),
        ("AETHERDB_STORAGE_ROLE", "replica"),
    ]));
    assert_eq!(var, "AETHERDB_REPLICA_LOCAL_PATH");
}

#[test]
fn replica_mode_incompatible_with_file_url() {
    let (var, _) = expect_invalid(load(&[
        ("AETHERDB_LIBSQL_URL", "file:./aether.db"),
        ("AETHERDB_REDPANDA_BROKERS", "localhost:9092"),
        ("AETHERDB_STORAGE_ROLE", "replica"),
        ("AETHERDB_REPLICA_LOCAL_PATH", "./replica.db"),
    ]));
    assert_eq!(var, "AETHERDB_LIBSQL_URL");
}

#[test]
fn auto_detect_replica_from_remote_url_and_local_path() {
    let cfg = load(&[
        ("AETHERDB_LIBSQL_URL", "http://sqld:8080"),
        ("AETHERDB_REDPANDA_BROKERS", "localhost:9092"),
        ("AETHERDB_REPLICA_LOCAL_PATH", "./replica.db"),
    ])
    .expect("config with remote url + local path");
    assert_eq!(cfg.storage_role, StorageRole::Replica);
}

#[test]
fn every_default_when_only_required_vars_are_set() {
    let cfg = load(&[
        ("AETHERDB_LIBSQL_URL", "file::memory:"),
        ("AETHERDB_REDPANDA_BROKERS", "b:9092"),
    ])
    .unwrap();
    assert_eq!(cfg.libsql_url, "file::memory:");
    assert_eq!(cfg.redpanda_brokers, "b:9092");
    assert_eq!(cfg.embed_provider, EmbedProviderKind::Ollama);
    assert_eq!(cfg.embed_base_url, "http://localhost:11434/v1");
    assert_eq!(cfg.gateway_bind, "0.0.0.0:8080");
    assert_eq!(cfg.prometheus_bind, "0.0.0.0:9090");
    assert_eq!(cfg.export_dir, "./exports/");
    assert_eq!(cfg.export_cron, "0 * * * *");
    assert_eq!(cfg.llm_provider, LlmProviderKind::Ollama);
    assert_eq!(cfg.llm_model, "llama3.2");
    assert!(!cfg.graph_enabled && !cfg.hnsw_enabled && !cfg.federation_enabled);
    assert_eq!(cfg.hnsw_ef_construction, 100);
    assert_eq!(cfg.hnsw_m, 16);
    assert_eq!(cfg.hnsw_ef_search, 50);
    assert_eq!(cfg.hnsw_rebuild_interval_secs, 300);
    assert_eq!(cfg.federation_role, FederationRole::Hub);
    assert_eq!(cfg.federation_sync_interval_secs, 30);
    assert!(cfg.libsql_auth_token.is_none() && cfg.otlp_endpoint.is_none());
}

#[test]
fn empty_values_count_as_unset() {
    let cfg = load(&[
        ("AETHERDB_LIBSQL_URL", "file::memory:"),
        ("AETHERDB_REDPANDA_BROKERS", "b:9092"),
        ("AETHERDB_EMBED_DIM", ""),
        ("AETHERDB_LOG_LEVEL", ""),
    ])
    .unwrap();
    assert_eq!(cfg.embed_dim, 768);
    assert_eq!(cfg.log_level, "info");
}

#[test]
fn explicit_settings_are_read() {
    let cfg = load(&[
        ("AETHERDB_LIBSQL_URL", "http://db:8080"),
        ("AETHERDB_REDPANDA_BROKERS", "b:9092"),
        ("AETHERDB_EMBED_DIM", "384"),
        ("AETHERDB_EMBED_PROVIDER", "OpenAI"),
        ("AETHERDB_EMBED_API_KEY", "k"),
        ("AETHERDB_MINIMAL_MODE", "YES"),
        ("AETHERDB_SYNC_INTERVAL_SECS", "15"),
        ("AETHERDB_STORAGE_ROLE", "Primary"),
        ("AETHERDB_HNSW_M", "32"),
        ("AETHERDB_FEDERATION_ROLE", "spoke"),
    ])
    .unwrap();
    assert_eq!(cfg.embed_dim, 384);
    assert_eq!(cfg.embed_provider, EmbedProviderKind::OpenAi);
    assert_eq!(cfg.embed_api_key.as_deref(), Some("k"));
    assert!(cfg.minimal_mode);
    assert_eq!(cfg.sync_interval_secs, 15);
    assert_eq!(cfg.storage_role, StorageRole::Primary);
    assert_eq!(cfg.hnsw_m, 32);
    assert_eq!(cfg.federation_role, FederationRole::Spoke);
}

#[test]
fn bad_integer_names_the_variable_and_value() {
    let (var, reason) = expect_invalid(load(&[
        ("AETHERDB_LIBSQL_URL", "file::memory:"),
        ("AETHERDB_REDPANDA_BROKERS", "b"),
        ("AETHERDB_SYNC_INTERVAL_SECS", "soon"),
    ]));
    assert_eq!(var, "AETHERDB_SYNC_INTERVAL_SECS");
    assert_eq!(reason, "not a valid integer: soon");
}

#[test]
fn bind_errors_are_reported_for_their_variable() {
    let binds = vec![("AETHERDB_GATEWAY_BIND".to_string(), "invalid socket address syntax".to_string())];
    let r = Config::from_vars(
        &vars(&[
            ("AETHERDB_LIBSQL_URL", "file::memory:"),
            ("AETHERDB_REDPANDA_BROKERS", "b"),
            ("AETHERDB_GATEWAY_BIND", "nowhere"),
        ]),
        &binds,
    );
    let (var, reason) = expect_invalid(r);
    assert_eq!(var, "AETHERDB_GATEWAY_BIND");
    assert_eq!(reason, "invalid socket address: invalid socket address syntax");
}

#[test]
fn llm_openai_without_key_errors() {
    let (var, _) = expect_invalid(load(&[
        ("AETHERDB_LIBSQL_URL", "file::memory:"),
        ("AETHERDB_REDPANDA_BROKERS", "b"),
        ("AETHERDB_LLM_PROVIDER", "openai"),
    ]));
    assert_eq!(var, "AETHERDB_LLM_API_KEY");
}

#[test]
fn file_url_with_local_path_stays_primary() {
    let cfg = load(&[
        ("AETHERDB_LIBSQL_URL", "file:./a.db"),
        ("AETHERDB_REDPANDA_BROKERS", "b"),
        ("AETHERDB_REPLICA_LOCAL_PATH", "./r.db"),
    ])
    .unwrap();
    assert_eq!(cfg.storage_role, StorageRole::Primary);
}

#[test]
fn embed_dim_bounds() {
    assert_eq!(parse_embed_dim("1").unwrap(), 1);
    assert_eq!(parse_embed_dim("65535").unwrap(), 65535);
    match parse_embed_dim("65536") {
        Err(ConfigError::Invalid { reason, .. }) => assert_eq!(reason, "must be in 1..=65535, got 65536"),
        other => panic!("expected Invalid, got {:?}", other),
    }
    match parse_embed_dim("0") {
        Err(ConfigError::Invalid { var, reason }) => {
            assert_eq!(var, "AETHERDB_EMBED_DIM");
            assert_eq!(reason, "must be in 1..=65535, got 0");
        }
        other => panic!("expected Invalid, got {:?}", other),
    }
    match parse_embed_dim("x1") {
        Err(ConfigError::Invalid { reason, .. }) => assert_eq!(reason, "not a valid integer: x1"),
        other => panic!("expected Invalid, got {:?}", other),
    }
    assert!(parse_embed_dim("4294967296").is_err());
}

#[test]
fn enum_settings_ignore_case() {
    assert_eq!(parse_provider("OLLAMA").unwrap(), EmbedProviderKind::Ollama);
    assert_eq!(parse_llm_provider("V", "openai").unwrap(), LlmProviderKind::OpenAi);
    assert_eq!(parse_storage_role("V", "REPLICA").unwrap(), StorageRole::Replica);
    assert_eq!(parse_federation_role("V", "Hub").unwrap(), FederationRole::Hub);
    match parse_storage_role("V", "leader") {
        Err(ConfigError::Invalid { var, reason }) => {
            assert_eq!(var, "V");
            assert_eq!(reason, "must be 'primary' or 'replica', got 'leader'");
        }
        other => panic!("expected Invalid, got {:?}", other),
    }
    match parse_provider("gpt") {
        Err(ConfigError::Invalid { var, reason }) => {
            assert_eq!(var, "AETHERDB_EMBED_PROVIDER");
            assert_eq!(reason, "must be 'ollama' or 'openai', got 'gpt'");
        }
        other => panic!("expected Invalid, got {:?}", other),
    }
}

#[test]
fn booleans_accept_the_usual_spellings() {
    for s in ["true", "1", "yes", "TRUE", "Yes"] {
        assert!(parse_bool("V", s).unwrap());
    }
    for s in ["false", "0", "no", "NO"] {
        assert!(!parse_bool("V", s).unwrap());
    }
    match parse_bool("V", "maybe") {
        Err(ConfigError::Invalid { var, reason }) => {
            assert_eq!(var, "V");
            assert_eq!(reason, "expected boolean, got 'maybe'");
        }
        other => panic!("expected Invalid, got {:?}", other),
    }
}

#[test]
fn telemetry_config_copies_the_settings() {
    let cfg = load(&[
        ("AETHERDB_LIBSQL_URL", "file::memory:"),
        ("AETHERDB_REDPANDA_BROKERS", "b"),
        ("AETHERDB_LOG_LEVEL", "debug"),
        ("AETHERDB_OTLP_ENDPOINT", "http://otel:4317"),
    ])
    .unwrap();
    let t = cfg.telemetry_config("gateway");
    assert_eq!(t.service_name, "gateway");
    assert_eq!(t.log_level, "debug");
    assert_eq!(t.otlp_endpoint.as_deref(), Some("http://otel:4317"));
    assert_eq!(t.prometheus_bind, "0.0.0.0:9090");
}
