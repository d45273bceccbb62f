//! Apply reconciliation: keeping the registry in step with a worker
//! directory, deciding plugin registration, and the record an apply writes.
use vstd::prelude::*;

use crate::settings::{registered, Settings};
use crate::state::{clone_opt, opt_view, WorkerState};

verus! {

/// How the registry must change for a worker directory being applied.
#[derive(Debug)]
pub enum Registration {
    /// The directory is registered under the configured name.
    Keep(String),
    /// The directory is registered under another name: the worker was
    /// renamed in its configuration, so its record moves along.
    Rename { from: String, to: String },
    /// The configured name is registered at another directory: the worker
    /// moved.
    Relocate(String),
    /// Neither the directory nor the name is known.
    New(String),
}

/// Decides the registration change for the directory `dir` (canonical)
/// whose configuration names the worker `config_name`.
pub fn plan_registration(settings: &Settings, dir: &str, config_name: &str) -> (r: Registration)
    requires
        settings.wf(),
    ensures
        match r {
            Registration::Keep(n) => n@ == config_name@ && exists|i: int| 0 <= i < settings.entries().len()
                && (#[trigger] settings.entries()[i]) == (n@, dir@),
            Registration::Rename { from, to } => to@ == config_name@ && from@ != config_name@
                && exists|i: int| 0 <= i < settings.entries().len() && (#[trigger] settings.entries()[i]) == (from@, dir@),
            Registration::Relocate(n) => n@ == config_name@ && registered(settings.entries(), n@)
                && forall|i: int| 0 <= i < settings.entries().len() ==> (#[trigger] settings.entries()[i]).1 != dir@,
            Registration::New(n) => n@ == config_name@ && !registered(settings.entries(), n@)
                && forall|i: int| 0 <= i < settings.entries().len() ==> (#[trigger] settings.entries()[i]).1 != dir@,
        },
{
    match settings.find_worker_by_path(dir) {
        Some((name, _)) => {
            if crate::text::same_text(name.as_str(), config_name) {
                Registration::Keep(name)
            } else {
                Registration::Rename { from: name, to: config_name.to_string() }
            }
        },
        None => {
            match settings.get_worker_path(config_name) {
                Ok(_) => Registration::Relocate(config_name.to_string()),
                Err(_) => Registration::New(config_name.to_string()),
            }
        },
    }
}

/// What to do about one GIS plugin on apply.
#[derive(Clone, Copy, Debug, PartialEq, Eq, Structural)]
pub enum PluginStep {
    /// The flag did not change.
    Unchanged,
    /// Newly enabled but not installed: offer to install it.
    OfferInstall,
    /// Newly enabled and already installed.
    AlreadyInstalled,
    /// Newly disabled.
    Disabled,
}

pub open spec fn plugin_step_spec(current: Option<bool>, previous: Option<bool>, installed: bool) -> PluginStep {
    let cur = current == Some(true);
    let prev = previous == Some(true);
    if cur == prev {
        PluginStep::Unchanged
    } else if cur && !installed {
        PluginStep::OfferInstall
    } else if cur {
        PluginStep::AlreadyInstalled
    } else {
        PluginStep::Disabled
    }
}

/// Compares a plugin flag of the configuration with the one last applied
/// (an absent flag counts as off).
pub fn plugin_step(current: Option<bool>, previous: Option<bool>, installed: bool) -> (r: PluginStep)
    ensures
        r == plugin_step_spec(current, previous, installed),
{
    let cur = match current {
        Some(b) => b,
        None => false,
    };
    let prev = match previous {
        Some(b) => b,
        None => false,
    };
    if cur == prev {
        PluginStep::Unchanged
    } else if cur && !installed {
        PluginStep::OfferInstall
    } else if cur {
        PluginStep::AlreadyInstalled
    } else {
        PluginStep::Disabled
    }
}

/// The plugin flag recorded after the step: an offered installation that
/// was declined or failed leaves the plugin off.
pub fn resolved_plugin_flag(current: Option<bool>, step: PluginStep, installed_now: bool) -> (r: bool)
    ensures
        r == if step == PluginStep::OfferInstall { installed_now } else { current == Some(true) },
{
    match step {
        PluginStep::OfferInstall => installed_now,
        _ => match current {
            Some(b) => b,
            None => false,
        },
    }
}

/// The record an apply writes: fresh configuration digests and plugin
/// flags; everything that only a build sets is carried over unchanged.
pub fn applied_state(
    worker_name: &str,
    prev: Option<&WorkerState>,
    yaml_hash: String,
    yaml_build_hash: String,
    arcgis: bool,
    qgis: bool,
    applied_at: String,
) -> (r: WorkerState)
    ensures
        r.worker_name@ == worker_name@,
        r.applied_at == applied_at,
        r.yaml_build_hash == yaml_build_hash,
        r.yaml_hash == Some(yaml_hash),
        r.plugins_arcgis == Some(arcgis),
        r.plugins_qgis == Some(qgis),
        match prev {
            Some(p) => r.dockerfile_hash == p.dockerfile_hash && r.command_hash == p.command_hash
                && r.pushed_build_hash == p.pushed_build_hash && r.image_tag == p.image_tag,
            None => r.dockerfile_hash is None && r.command_hash is None && r.pushed_build_hash is None
                && r.image_tag is None,
        },
{
    let (dockerfile_hash, command_hash, pushed_build_hash, image_tag) = match prev {
        Some(p) => (clone_opt(&p.dockerfile_hash), clone_opt(&p.command_hash), clone_opt(&p.pushed_build_hash), clone_opt(&p.image_tag)),
        None => (None, None, None, None),
    };
    WorkerState {
        worker_name: worker_name.to_string(),
        applied_at,
        yaml_build_hash,
        yaml_hash: Some(yaml_hash),
        dockerfile_hash,
        command_hash,
        pushed_build_hash,
        image_tag,
        plugins_arcgis: Some(arcgis),
        plugins_qgis: Some(qgis),
    }
}

/// An apply never touches what decides a rebuild: after it, a build run
/// with the same request decides as it did before, save for the digest of
/// the build-relevant configuration, which the apply refreshes.
pub proof fn lemma_apply_keeps_build_decision(
    req: crate::reconcile::BuildRequest,
    prev: WorkerState,
    next: WorkerState,
    latest: Option<Seq<char>>,
)
    requires
        !req.prerelease,
        next.pushed_build_hash == prev.pushed_build_hash,
    ensures
        crate::reconcile::evaluation(req, Some(next), latest) == crate::reconcile::evaluation(req, Some(prev), latest),
{
}

} // verus!
