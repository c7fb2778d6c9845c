//! Configuration of one runtime instance: its node, the guest's environment,
//! and which host import groups the linker provides.
use vstd::prelude::*;

use crate::config::KafuConfig;

verus! {

/// The guest's environment.
#[derive(Debug, Clone)]
pub struct WasiConfig {
    pub args: Vec<String>,
    /// Host directory mapped to `/` in the guest (the working directory when unset).
    pub preopened_dir: Option<String>,
    pub inherit_stdin: bool,
    pub inherit_stdout: bool,
    pub inherit_stderr: bool,
    pub inherit_env: bool,
}

fn copy_strings(v: &Vec<String>) -> (r: Vec<String>)
    ensures
        r@ == v@,
{
    let mut out: Vec<String> = Vec::new();
    let mut k: usize = 0;
    while k < v.len()
        invariant
            k <= v@.len(),
            out@ == v@.take(k as int),
        decreases v@.len() - k,
    {
        out.push(v[k].clone());
        assert(out@ =~= v@.take(k + 1));
        k = k + 1;
    }
    assert(v@.take(v@.len() as int) =~= v@);
    out
}

impl WasiConfig {
    /// The environment that a cluster configuration asks for: its arguments
    /// and preopened directory, standard streams inherited, no host environment.
    pub fn create_from_kafu_config(kafu_config: &KafuConfig) -> (r: Self)
        ensures
            r.args@ == kafu_config.app.args@,
            r.preopened_dir == kafu_config.app.preopened_dir,
            r.inherit_stdin && r.inherit_stdout && r.inherit_stderr && !r.inherit_env,
    {
        WasiConfig {
            args: copy_strings(&kafu_config.app.args),
            preopened_dir: match &kafu_config.app.preopened_dir {
                Some(d) => Some(d.clone()),
                None => None,
            },
            inherit_stdin: true,
            inherit_stdout: true,
            inherit_stderr: true,
            inherit_env: false,
        }
    }
}

impl Default for WasiConfig {
    fn default() -> (r: Self)
        ensures
            r.args@.len() == 0,
            r.preopened_dir is None,
            r.inherit_stdin && r.inherit_stdout && r.inherit_stderr && !r.inherit_env,
    {
        WasiConfig {
            args: Vec::new(),
            preopened_dir: None,
            inherit_stdin: true,
            inherit_stdout: true,
            inherit_stderr: true,
            inherit_env: false,
        }
    }
}

/// How the migration hook `snapify.should_checkpoint` is provided.
#[derive(Debug, Clone, Copy, PartialEq, Eq, Structural)]
pub enum LinkerSnapifyConfig {
    /// Real migration.
    Enabled,
    /// Single-node emulation: the hook only switches the node ID.
    Dummy,
    /// Not linked.
    Disabled,
}

/// Which import groups the linker provides.
#[derive(Debug, Clone, Copy, PartialEq, Eq, Structural)]
pub struct LinkerConfig {
    pub wasip1: bool,
    pub wasi_nn: bool,
    pub spectest: bool,
    pub kafu_helper: bool,
    pub snapify: LinkerSnapifyConfig,
}

impl Default for LinkerConfig {
    fn default() -> (r: Self)
        ensures
            r.wasip1 && r.wasi_nn && r.spectest && r.kafu_helper,
            r.snapify == LinkerSnapifyConfig::Enabled,
    {
        LinkerConfig {
            wasip1: true,
            wasi_nn: true,
            spectest: true,
            kafu_helper: true,
            snapify: LinkerSnapifyConfig::Enabled,
        }
    }
}

/// Everything a runtime instance is built from.
#[derive(Debug, Clone)]
pub struct KafuRuntimeConfig {
    pub node_id: String,
    pub wasi_config: WasiConfig,
    pub linker_config: LinkerConfig,
}

/// The runtime configuration of node `node_id` in a cluster.
pub fn make_runtime_config(node_id: &str, kafu_config: &KafuConfig) -> (r: KafuRuntimeConfig)
    ensures
        r.node_id@ == node_id@,
        r.wasi_config.args@ == kafu_config.app.args@,
        r.wasi_config.preopened_dir == kafu_config.app.preopened_dir,
        r.wasi_config.inherit_stdin && r.wasi_config.inherit_stdout && r.wasi_config.inherit_stderr,
        !r.wasi_config.inherit_env,
        r.linker_config.wasip1 && r.linker_config.wasi_nn && r.linker_config.spectest
            && r.linker_config.kafu_helper,
        r.linker_config.snapify == LinkerSnapifyConfig::Enabled,
{
    KafuRuntimeConfig {
        node_id: node_id.to_owned(),
        wasi_config: WasiConfig::create_from_kafu_config(kafu_config),
        linker_config: LinkerConfig::default(),
    }
}

} // verus!
