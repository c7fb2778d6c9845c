use kafu::error::KafuError;
use kafu::metadata::KafuFunctionMetadata;
use kafu::sender::resolve_migration_destination;
use kafu::stack::{InterruptReason, PendingMigration};
use indexmap::IndexMap;
use kafu::config::{
    find_node, get_first_node_id, migration_memory_compression_default, other_node_ids, AppConfig,
    ClusterConfig, ConfigError, FollowerOnCoordinatorLost, HeartbeatConfig, KafuConfig,
    MemoryMigrationMode, MigrationConfig, NodeConfig, WasmLocation,
};
use kafu::runtime_config::{make_runtime_config, LinkerConfig, LinkerSnapifyConfig, WasiConfig};

fn node(address: &str, port: u16) -> NodeConfig {
    NodeConfig { address: address.to_string(), port, placement: None }
}

fn config(nodes: &[(&str, &str, u16)]) -> KafuConfig {
    let mut map = IndexMap::new();
    for (id, addr, port) in nodes {
        map.insert(id.to_string(), node(addr, *port));
    }
    KafuConfig {
        name: "basic".to_string(),
        app: AppConfig { path: Some("app.wasm".to_string()), url: None, args: vec!["foo".to_string()], preopened_dir: None },
        nodes: map,
        cluster: ClusterConfig::default(),
        kafu_config_dir: "/etc/kafu".to_string(),
    }
}

#[test]
fn defaults() {
    let c = ClusterConfig::default();
    assert_eq!(c.heartbeat.follower_on_coordinator_lost, FollowerOnCoordinatorLost::ShutdownSelf);
    assert_eq!(c.heartbeat.interval_ms, 1000);
    assert_eq!(HeartbeatConfig::default_interval_ms(), 1000);
    assert!(c.migration.memory_compression);
    assert!(migration_memory_compression_default());
    assert_eq!(MigrationConfig::default().memory_migration, MemoryMigrationMode::Delta);
    let l = LinkerConfig::default();
    assert!(l.wasip1 && l.wasi_nn && l.spectest && l.kafu_helper);
    assert_eq!(l.snapify, LinkerSnapifyConfig::Enabled);
    assert!(WasiConfig::default().args.is_empty());
}

#[test]
fn validate_and_lookup() {
    let c = config(&[("n1", "127.0.0.1", 50051), ("n2", "", 50052)]);
    assert_eq!(c.validate(), Err(ConfigError::EmptyAddress));
    let c = config(&[("", "127.0.0.1", 50051)]);
    assert_eq!(c.validate(), Err(ConfigError::EmptyNodeId));
    let c = config(&[("n1", "127.0.0.1", 50051), ("n2", "10.0.0.2", 50052), ("n3", "10.0.0.3", 50053)]);
    assert_eq!(c.validate(), Ok(()));
    assert_eq!(get_first_node_id(&c).as_deref(), Some("n1"));
    assert_eq!(find_node(&c.nodes, "n2").unwrap().port, 50052);
    assert!(find_node(&c.nodes, "n9").is_none());
    assert_eq!(other_node_ids(&c, "n2"), vec!["n1".to_string(), "n3".to_string()]);
    let empty = config(&[]);
    assert_eq!(empty.validate(), Err(ConfigError::NoNodes));
    assert_eq!(ConfigError::NoNodes.message(), "At least one node is required in the nodes field");
    assert!(get_first_node_id(&empty).is_none());
}

#[test]
fn app_source_rules() {
    let mut c = config(&[("n1", "127.0.0.1", 50051)]);
    c.app.url = Some("http://x/app.wasm".to_string());
    assert_eq!(c.validate(), Err(ConfigError::BothPathAndUrl));
    c.app.path = None;
    assert!(matches!(c.get_wasm_location(), WasmLocation::Url(ref u) if u == "http://x/app.wasm"));
    c.app.url = None;
    assert_eq!(c.validate(), Err(ConfigError::NeitherPathNorUrl));
    c.app.path = Some("app.wasm".to_string());
    assert!(matches!(c.get_wasm_location(), WasmLocation::Path(ref p) if p == "/etc/kafu/app.wasm"));
    c.app.path = Some("/opt/app.wasm".to_string());
    assert!(matches!(c.get_wasm_location(), WasmLocation::Path(ref p) if p == "/opt/app.wasm"));
    c.name = String::new();
    assert_eq!(c.validate(), Err(ConfigError::EmptyName));
}

#[test]
fn runtime_config_from_cluster() {
    let c = config(&[("n1", "127.0.0.1", 50051)]);
    let r = make_runtime_config("n1", &c);
    assert_eq!(r.node_id, "n1");
    assert_eq!(r.wasi_config.args, vec!["foo".to_string()]);
    assert!(r.wasi_config.inherit_stdout && !r.wasi_config.inherit_env);
}

#[test]
fn shutdown_fans_out_to_other_nodes() {
    let c = config(&[("n1", "127.0.0.1", 50051), ("n2", "10.0.0.2", 50052), ("n3", "10.0.0.3", 50053)]);
    let reqs = kafu::liveness::cluster_shutdown_requests(&c, "n1", "program finished");
    let targets: Vec<&str> = reqs.iter().map(|(id, _)| id.as_str()).collect();
    assert_eq!(targets, vec!["n2", "n3"]);
    assert!(reqs.iter().all(|(_, r)| r.from_node_id == "n1" && r.reason == "program finished"));
}

#[test]
fn migration_destination_resolution() {
    let c = config(&[("n1", "127.0.0.1", 50051), ("n2", "10.0.0.2", 50052)]);
    let pending = |to: &str| {
        Some(PendingMigration {
            func: KafuFunctionMetadata { name: Some("f".to_string()), dest: Some(to.to_string()) },
            to_node_id: to.to_string(),
            reason: InterruptReason::FuncEntry,
        })
    };
    let n = resolve_migration_destination(&pending("n2"), &c.nodes).unwrap();
    assert_eq!((n.address.as_str(), n.port), ("10.0.0.2", 50052));
    assert!(matches!(resolve_migration_destination(&pending("n9"), &c.nodes), Err(KafuError::WasmMigrationError(_))));
    assert!(matches!(resolve_migration_destination(&None, &c.nodes), Err(KafuError::WasmMigrationError(_))));
}
