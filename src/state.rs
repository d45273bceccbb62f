//! The per-worker record of what was last applied and built.
use vstd::prelude::*;

verus! {

/// Snapshot of a worker's state at its last apply or build.
#[derive(Debug)]
pub struct WorkerState {
    pub worker_name: String,
    pub applied_at: String,
    /// Digest of the build-relevant configuration fields.
    pub yaml_build_hash: String,
    /// Digest of the whole configuration file.
    pub yaml_hash: Option<String>,
    /// Digest of the build recipe (Dockerfile), if it existed.
    pub dockerfile_hash: Option<String>,
    /// Digest of the entrypoint script, if it existed.
    pub command_hash: Option<String>,
    /// The three build digests joined, as of the last production build.
    pub pushed_build_hash: Option<String>,
    pub image_tag: Option<String>,
    pub plugins_arcgis: Option<bool>,
    pub plugins_qgis: Option<bool>,
}

pub open spec fn opt_view(o: Option<String>) -> Option<Seq<char>> {
    match o {
        Some(s) => Some(s@),
        None => None,
    }
}

pub fn clone_opt(o: &Option<String>) -> (r: Option<String>)
    ensures
        r == *o,
{
    match o {
        Some(s) => Some(s.clone()),
        None => None,
    }
}

impl WorkerState {
    /// A field-for-field copy.
    pub fn duplicate(&self) -> (r: WorkerState)
        ensures
            r == *self,
    {
        WorkerState {
            worker_name: self.worker_name.clone(),
            applied_at: self.applied_at.clone(),
            yaml_build_hash: self.yaml_build_hash.clone(),
            yaml_hash: clone_opt(&self.yaml_hash),
            dockerfile_hash: clone_opt(&self.dockerfile_hash),
            command_hash: clone_opt(&self.command_hash),
            pushed_build_hash: clone_opt(&self.pushed_build_hash),
            image_tag: clone_opt(&self.image_tag),
            plugins_arcgis: self.plugins_arcgis,
            plugins_qgis: self.plugins_qgis,
        }
    }

    /// The same record under another worker name.
    pub fn renamed(&self, new_name: &str) -> (r: WorkerState)
        ensures
            r.worker_name@ == new_name@,
            r == (WorkerState { worker_name: r.worker_name, ..*self }),
    {
        let mut s = self.duplicate();
        s.worker_name = new_name.to_string();
        s
    }
}

/// Where a worker's state record is kept inside the state directory.
pub fn state_path(state_dir: &str, worker_name: &str) -> (r: String)
    ensures
        r@ == state_dir@ + "/"@ + worker_name@ + ".yaml"@,
{
    String::from_str(state_dir).concat("/").concat(worker_name).concat(".yaml")
}

/// Where a worker's applied configuration is saved inside the
/// configurations directory.
pub fn config_path(configs_dir: &str, worker_name: &str) -> (r: String)
    ensures
        r@ == configs_dir@ + "/"@ + worker_name@ + ".json"@,
{
    String::from_str(configs_dir).concat("/").concat(worker_name).concat(".json")
}

/// Whether the configuration file drifted since the last apply: a worker
/// never applied, or one whose stored file digest differs (or is missing).
pub open spec fn config_changed(prev: Option<WorkerState>, new_yaml_hash: Seq<char>) -> bool {
    match prev {
        None => true,
        Some(s) => match s.yaml_hash {
            Some(h) => h@ != new_yaml_hash,
            None => new_yaml_hash.len() != 0,
        },
    }
}

/// Compares the stored digest of the configuration file with the digest of
/// the current file; `true` where they differ or nothing was applied yet.
pub fn check_changed_config(prev: Option<&WorkerState>, new_yaml_hash: &String) -> (r: bool)
    ensures
        r == config_changed(
            match prev {
                Some(s) => Some(*s),
                None => None,
            },
            new_yaml_hash@,
        ),
{
    match prev {
        Some(s) => match &s.yaml_hash {
            Some(h) => !(*h == *new_yaml_hash),
            None => new_yaml_hash.as_str().unicode_len() != 0,
        },
        None => true,
    }
}

} // verus!
