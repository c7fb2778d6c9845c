//! Cluster configuration: nodes in declaration order (the first is the
//! coordinator), the guest program, and the heartbeat and migration policies.
use vstd::prelude::*;

use crate::stack::str_equal;
use indexmap::IndexMap;

verus! {

#[verifier::external_type_specification]
#[verifier::external_body]
#[verifier::reject_recursive_types(K)]
#[verifier::reject_recursive_types(V)]
#[verifier::reject_recursive_types(S)]
pub struct ExIndexMap<K, V, S>(IndexMap<K, V, S>);

/// Where the guest binary comes from.
#[derive(Debug, Clone)]
pub enum WasmLocation {
    Path(String),
    Url(String),
}

/// Memory migration strategy.
#[derive(Debug, Clone, Copy, PartialEq, Eq, Structural)]
pub enum MemoryMigrationMode {
    /// Always send full memories.
    Full,
    /// Send only changed pages when the receiver has a baseline.
    Delta,
}

/// What a follower does when the coordinator is lost.
#[derive(Debug, Clone, Copy, PartialEq, Eq, Structural)]
pub enum FollowerOnCoordinatorLost {
    /// Shut this node down.
    ShutdownSelf,
    /// Log and go on.
    Ignore,
}

#[derive(Debug, Clone, Copy, PartialEq, Eq, Structural)]
pub struct MigrationConfig {
    /// Compress memory payloads with LZ4 when that shrinks them.
    pub memory_compression: bool,
    pub memory_migration: MemoryMigrationMode,
}

#[derive(Debug, Clone, Copy, PartialEq, Eq, Structural)]
pub struct HeartbeatConfig {
    pub follower_on_coordinator_lost: FollowerOnCoordinatorLost,
    /// Heartbeat interval in milliseconds.
    pub interval_ms: u64,
}

#[derive(Debug, Clone, Copy, PartialEq, Eq, Structural)]
pub struct ClusterConfig {
    pub heartbeat: HeartbeatConfig,
    pub migration: MigrationConfig,
}

/// The guest program: exactly one of `path` (relative to the configuration's
/// directory unless absolute) and `url`, its arguments and preopened directory.
#[derive(Debug, Clone)]
pub struct AppConfig {
    pub path: Option<String>,
    pub url: Option<String>,
    pub args: Vec<String>,
    pub preopened_dir: Option<String>,
}

/// Address and port of a node, and its placement group for orchestrators.
#[derive(Debug, Clone)]
pub struct NodeConfig {
    pub address: String,
    pub port: u16,
    pub placement: Option<String>,
}

/// The whole cluster configuration.
#[derive(Debug)]
pub struct KafuConfig {
    pub name: String,
    pub app: AppConfig,
    /// Nodes by ID, in declaration order.
    pub nodes: IndexMap<String, NodeConfig>,
    pub cluster: ClusterConfig,
    /// Directory that holds the configuration file.
    pub kafu_config_dir: String,
}

/// The nodes of a map in order, as `(node_id, address, port)`.
pub uninterp spec fn node_entries(m: IndexMap<String, NodeConfig>) -> Seq<(Seq<char>, Seq<char>, u16)>;

/// Relies on indexmap::IndexMap::len: the number of entries.
#[verifier::external_body]
fn nodes_len(m: &IndexMap<String, NodeConfig>) -> (r: usize)
    ensures
        r == node_entries(*m).len(),
{
    m.len()
}

/// Relies on indexmap::IndexMap::get_index: the entry at `i` in insertion
/// order; keys of an IndexMap are unique.
#[verifier::external_body]
fn node_at(m: &IndexMap<String, NodeConfig>, i: usize) -> (r: (&String, &NodeConfig))
    requires
        i < node_entries(*m).len(),
    ensures
        (r.0@, r.1.address@, r.1.port) == node_entries(*m)[i as int],
        forall|j: int| 0 <= j < node_entries(*m).len() && j != i ==> node_entries(*m)[j].0 != r.0@,
{
    m.get_index(i).unwrap()
}

/// Index of the node with ID `id`, if any.
pub open spec fn node_index(entries: Seq<(Seq<char>, Seq<char>, u16)>, id: Seq<char>) -> Option<int> {
    if exists|i: int| 0 <= i < entries.len() && entries[i].0 == id {
        Some(choose|i: int| 0 <= i < entries.len() && entries[i].0 == id)
    } else {
        None
    }
}

pub fn migration_memory_compression_default() -> (r: bool)
    ensures
        r,
{
    true
}

impl HeartbeatConfig {
    pub fn default_interval_ms() -> (r: u64)
        ensures
            r == 1000,
    {
        1000
    }
}

impl Default for HeartbeatConfig {
    fn default() -> (r: Self)
        ensures
            r.follower_on_coordinator_lost == FollowerOnCoordinatorLost::ShutdownSelf,
            r.interval_ms == 1000,
    {
        HeartbeatConfig {
            follower_on_coordinator_lost: FollowerOnCoordinatorLost::ShutdownSelf,
            interval_ms: HeartbeatConfig::default_interval_ms(),
        }
    }
}

impl Default for MigrationConfig {
    fn default() -> (r: Self)
        ensures
            r.memory_compression,
            r.memory_migration == MemoryMigrationMode::Delta,
    {
        MigrationConfig {
            memory_compression: migration_memory_compression_default(),
            memory_migration: MemoryMigrationMode::Delta,
        }
    }
}

impl Default for ClusterConfig {
    fn default() -> (r: Self)
        ensures
            r.heartbeat.follower_on_coordinator_lost == FollowerOnCoordinatorLost::ShutdownSelf,
            r.heartbeat.interval_ms == 1000,
            r.migration.memory_compression,
            r.migration.memory_migration == MemoryMigrationMode::Delta,
    {
        ClusterConfig { heartbeat: HeartbeatConfig::default(), migration: MigrationConfig::default() }
    }
}

/// Why a configuration is refused.
#[derive(Debug, Clone, Copy, PartialEq, Eq, Structural)]
pub enum ConfigError {
    EmptyName,
    NoNodes,
    EmptyNodeId,
    EmptyAddress,
    BothPathAndUrl,
    NeitherPathNorUrl,
}

impl ConfigError {
    /// The message shown to the operator.
    pub fn message(&self) -> (r: String)
        ensures
            *self == ConfigError::EmptyName ==> r@ == "Name is required in the name field"@,
            *self == ConfigError::NoNodes ==> r@ == "At least one node is required in the nodes field"@,
            *self == ConfigError::EmptyNodeId ==> r@ == "Node ID must not be empty"@,
            *self == ConfigError::EmptyAddress ==> r@ == "Address must not be empty"@,
            *self == ConfigError::BothPathAndUrl ==> r@ == "Only one of path or url can be specified"@,
            *self == ConfigError::NeitherPathNorUrl ==> r@ == "One of path or url must be specified"@,
    {
        match self {
            ConfigError::EmptyName => "Name is required in the name field".to_owned(),
            ConfigError::NoNodes => "At least one node is required in the nodes field".to_owned(),
            ConfigError::EmptyNodeId => "Node ID must not be empty".to_owned(),
            ConfigError::EmptyAddress => "Address must not be empty".to_owned(),
            ConfigError::BothPathAndUrl => "Only one of path or url can be specified".to_owned(),
            ConfigError::NeitherPathNorUrl => "One of path or url must be specified".to_owned(),
        }
    }
}

/// The first node, in order, with an empty ID or address, and which of the two.
pub open spec fn first_bad_node(entries: Seq<(Seq<char>, Seq<char>, u16)>, from: int) -> Option<ConfigError>
    decreases entries.len() - from,
{
    if from < 0 || from >= entries.len() {
        None
    } else if entries[from].0.len() == 0 {
        Some(ConfigError::EmptyNodeId)
    } else if entries[from].1.len() == 0 {
        Some(ConfigError::EmptyAddress)
    } else {
        first_bad_node(entries, from + 1)
    }
}

/// The first rule that a configuration breaks, in the order they are checked.
pub open spec fn config_error(c: KafuConfig) -> Option<ConfigError> {
    let entries = node_entries(c.nodes);
    if c.name@.len() == 0 {
        Some(ConfigError::EmptyName)
    } else if entries.len() == 0 {
        Some(ConfigError::NoNodes)
    } else if first_bad_node(entries, 0) is Some {
        first_bad_node(entries, 0)
    } else if c.app.path is Some && c.app.url is Some {
        Some(ConfigError::BothPathAndUrl)
    } else if c.app.path is None && c.app.url is None {
        Some(ConfigError::NeitherPathNorUrl)
    } else {
        None
    }
}

impl KafuConfig {
    /// Checks the rules that a configuration must keep: a name, at least one
    /// node, no empty node ID or address, and exactly one of path and url.
    pub fn validate(&self) -> (r: Result<(), ConfigError>)
        ensures
            r is Ok <==> config_error(*self) is None,
            r is Err ==> config_error(*self) == Some(r->Err_0),
    {
        if self.name.as_str().is_empty() {
            return Err(ConfigError::EmptyName);
        }
        let n = nodes_len(&self.nodes);
        if n == 0 {
            return Err(ConfigError::NoNodes);
        }
        let ghost entries = node_entries(self.nodes);
        let mut i: usize = 0;
        while i < n
            invariant
                n == entries.len(),
                entries == node_entries(self.nodes),
                i <= n,
                first_bad_node(entries, 0) == first_bad_node(entries, i as int),
                self.name@.len() != 0,
            decreases n - i,
        {
            let (id, node) = node_at(&self.nodes, i);
            assert(entries[i as int].0 == id@ && entries[i as int].1 == node.address@);
            if id.as_str().is_empty() {
                assert(first_bad_node(entries, i as int) == Some(ConfigError::EmptyNodeId));
                return Err(ConfigError::EmptyNodeId);
            }
            if node.address.as_str().is_empty() {
                return Err(ConfigError::EmptyAddress);
            }
            i = i + 1;
        }
        if self.app.path.is_some() && self.app.url.is_some() {
            return Err(ConfigError::BothPathAndUrl);
        }
        if self.app.path.is_none() && self.app.url.is_none() {
            return Err(ConfigError::NeitherPathNorUrl);
        }
        Ok(())
    }

    /// Where to load the guest from: an absolute path as it is, a relative one
    /// under the configuration's directory, else the URL.
    pub fn get_wasm_location(&self) -> (r: WasmLocation)
        requires
            self.app.path is Some || self.app.url is Some,
        ensures
            self.app.path is Some ==> {
                let p = self.app.path->0@;
                &&& (p.len() > 0 && p[0] == '/') ==> r == WasmLocation::Path(self.app.path->0)
                &&& !(p.len() > 0 && p[0] == '/') ==> r is Path && r->Path_0@
                    == self.kafu_config_dir@ + seq!['/'] + p
            },
            self.app.path is None ==> r == WasmLocation::Url(self.app.url->0),
    {
        match &self.app.path {
            Some(p) => {
                if p.as_str().unicode_len() > 0 && p.as_str().get_char(0) == '/' {
                    WasmLocation::Path(p.clone())
                } else {
                    let mut joined = self.kafu_config_dir.clone();
                    joined.append("/");
                    proof {
                        reveal_strlit("/");
                    }
                    joined.append(p.as_str());
                    WasmLocation::Path(joined)
                }
            },
            None => match &self.app.url {
                Some(u) => WasmLocation::Url(u.clone()),
                None => WasmLocation::Url(String::new()),
            },
        }
    }
}

/// Finds the node with ID `id`.
pub fn find_node<'a>(nodes: &'a IndexMap<String, NodeConfig>, id: &str) -> (r: Option<&'a NodeConfig>)
    ensures
        r is None <==> node_index(node_entries(*nodes), id@) is None,
        r is Some ==> {
            let e = node_entries(*nodes)[node_index(node_entries(*nodes), id@)->0];
            r->0.address@ == e.1 && r->0.port == e.2
        },
{
    let n = nodes_len(nodes);
    let ghost entries = node_entries(*nodes);
    let mut i: usize = 0;
    while i < n
        invariant
            n == entries.len(),
            entries == node_entries(*nodes),
            i <= n,
            forall|j: int| 0 <= j < i ==> entries[j].0 != id@,
        decreases n - i,
    {
        let (k, node) = node_at(nodes, i);
        if str_equal(k.as_str(), id) {
            let ghost c = choose|j: int| 0 <= j < entries.len() && entries[j].0 == id@;
            assert(c == i as int);
            return Some(node);
        }
        i = i + 1;
    }
    None
}

/// IDs of the first `n` nodes, leaving out `self_id`, in order.
pub open spec fn peer_ids(entries: Seq<(Seq<char>, Seq<char>, u16)>, self_id: Seq<char>, n: int) -> Seq<Seq<char>>
    decreases n,
{
    if n <= 0 {
        Seq::empty()
    } else if entries[n - 1].0 != self_id {
        peer_ids(entries, self_id, n - 1).push(entries[n - 1].0)
    } else {
        peer_ids(entries, self_id, n - 1)
    }
}

/// The strings of a vector as character sequences.
pub open spec fn string_views(v: Seq<String>) -> Seq<Seq<char>> {
    Seq::new(v.len(), |k: int| v[k]@)
}

/// IDs of the nodes other than `node_id`, in declaration order.
pub fn other_node_ids(config: &KafuConfig, node_id: &str) -> (r: Vec<String>)
    ensures
        string_views(r@) == peer_ids(node_entries(config.nodes), node_id@, node_entries(config.nodes).len() as int),
{
    let n = nodes_len(&config.nodes);
    let ghost entries = node_entries(config.nodes);
    let mut out: Vec<String> = Vec::new();
    let mut i: usize = 0;
    while i < n
        invariant
            n == entries.len(),
            entries == node_entries(config.nodes),
            i <= n,
            string_views(out@) == peer_ids(entries, node_id@, i as int),
        decreases n - i,
    {
        let (k, _) = node_at(&config.nodes, i);
        if !str_equal(k.as_str(), node_id) {
            let ghost before = out@;
            out.push(k.clone());
            assert(string_views(out@) =~= string_views(before).push(k@));
        }
        i = i + 1;
    }
    out
}

/// ID of the coordinator: the first node declared.
pub fn get_first_node_id(config: &KafuConfig) -> (r: Option<String>)
    ensures
        r is None <==> node_entries(config.nodes).len() == 0,
        r is Some ==> r->0@ == node_entries(config.nodes)[0].0,
{
    if nodes_len(&config.nodes) == 0 {
        None
    } else {
        let (k, _) = node_at(&config.nodes, 0);
        Some(k.clone())
    }
}

} // verus!
