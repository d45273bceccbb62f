//! Build reconciliation: from the current digests, the declared version and
//! the last recorded state, decide whether a worker image is rebuilt.
use std::cmp::Ordering;
use vstd::prelude::*;

use crate::state::{clone_opt, opt_view, WorkerState};
use crate::version::{compare_worker_version, str_view, worker_version_cmp};

verus! {

/// What a build run is asked to do.
pub struct BuildRequest {
    pub worker_name: String,
    pub declared_version: String,
    /// A pre-release (development) build rather than a production one.
    pub prerelease: bool,
    /// Rebuild without consulting the decision matrix.
    pub force: bool,
    /// Digest of the build-relevant configuration fields.
    pub yaml_build_hash: String,
    /// Digest of the build recipe; `None` where the recipe file is missing.
    pub recipe_hash: Option<String>,
    /// Digest of the entrypoint script; `None` where it does not exist.
    pub command_hash: Option<String>,
}

/// Why a run builds nothing.
#[derive(Clone, Copy, Debug, PartialEq, Eq, Structural)]
pub enum SkipReason {
    /// The version moved but no build-relevant file did.
    FilesUnchanged,
    /// Neither version nor files moved.
    NothingChanged,
}

#[derive(Clone, Copy, Debug, PartialEq, Eq, Structural)]
pub enum Decision {
    Skip(SkipReason),
    Proceed,
}

/// Rejections of a build run.
#[derive(Debug)]
pub enum BuildError {
    /// The build recipe file does not exist.
    MissingRecipe,
    /// A version is not a plain `MAJOR.MINOR.PATCH` release.
    InvalidVersion(String),
    /// The declared version is below the latest built one.
    VersionRegression { declared: String, built: String },
    /// Files changed but the version was not incremented.
    MissingVersionBump(String),
}

/// The result of an evaluation, without the texts that errors carry.
pub enum Outcome {
    Skip(SkipReason),
    Proceed,
    MissingRecipe,
    InvalidVersion,
    VersionRegression,
    MissingVersionBump,
}

pub open spec fn outcome_of(r: Result<Decision, BuildError>) -> Outcome {
    match r {
        Ok(Decision::Skip(s)) => Outcome::Skip(s),
        Ok(Decision::Proceed) => Outcome::Proceed,
        Err(BuildError::MissingRecipe) => Outcome::MissingRecipe,
        Err(BuildError::InvalidVersion(_)) => Outcome::InvalidVersion,
        Err(BuildError::VersionRegression { .. }) => Outcome::VersionRegression,
        Err(BuildError::MissingVersionBump(_)) => Outcome::MissingVersionBump,
    }
}

/// Whether the version counts as changed, or the rejection it causes: a
/// malformed declared version is always rejected; a pre-release run only
/// warns on a lower version, or on a latest built version that is no plain
/// release, and goes on as if the version had changed.
pub open spec fn version_verdict(declared: Seq<char>, latest: Option<Seq<char>>, prerelease: bool) -> Result<bool, Outcome> {
    if crate::version::release_triple(declared) is None {
        Err(Outcome::InvalidVersion)
    } else {
    match worker_version_cmp(declared, latest) {
        None => if prerelease { Ok(true) } else { Err(Outcome::InvalidVersion) },
        Some(Ordering::Less) => if prerelease { Ok(true) } else { Err(Outcome::VersionRegression) },
        Some(Ordering::Equal) => Ok(false),
        Some(Ordering::Greater) => Ok(true),
    }
    }
}

/// The three build digests joined: configuration, recipe, entrypoint script.
pub open spec fn combined_hash(yaml: Seq<char>, recipe: Option<Seq<char>>, command: Option<Seq<char>>) -> Seq<char> {
    yaml + match recipe { Some(r) => r, None => Seq::empty() } + match command { Some(c) => c, None => Seq::empty() }
}

pub open spec fn request_combined(req: BuildRequest) -> Seq<char> {
    combined_hash(req.yaml_build_hash@, opt_view(req.recipe_hash), opt_view(req.command_hash))
}

/// Whether build-relevant files changed since the recorded state: field by
/// field for a pre-release, through the joined digest of the last
/// production build otherwise; always so without a record.
pub open spec fn files_changed(req: BuildRequest, prev: Option<WorkerState>) -> bool {
    match prev {
        None => true,
        Some(p) => if req.prerelease {
            p.yaml_build_hash@ != req.yaml_build_hash@
                || opt_view(p.dockerfile_hash) != opt_view(req.recipe_hash)
                || opt_view(p.command_hash) != opt_view(req.command_hash)
        } else {
            opt_view(p.pushed_build_hash) != Some(request_combined(req))
        },
    }
}

/// The decision matrix (version changed, files changed).
pub open spec fn decide(version_changed: bool, files: bool, prerelease: bool, force: bool) -> Outcome {
    if force {
        Outcome::Proceed
    } else if version_changed && !files {
        Outcome::Skip(SkipReason::FilesUnchanged)
    } else if !version_changed && files {
        if prerelease { Outcome::Proceed } else { Outcome::MissingVersionBump }
    } else if !version_changed && !files {
        Outcome::Skip(SkipReason::NothingChanged)
    } else {
        Outcome::Proceed
    }
}

pub open spec fn opt_ref_state(o: Option<&WorkerState>) -> Option<WorkerState> {
    match o {
        Some(s) => Some(*s),
        None => None,
    }
}

/// The full evaluation: version check, then the recipe, then the matrix.
pub open spec fn evaluation(req: BuildRequest, prev: Option<WorkerState>, latest: Option<Seq<char>>) -> Outcome {
    match version_verdict(req.declared_version@, latest, req.prerelease) {
        Err(o) => o,
        Ok(v) => if req.recipe_hash is None {
            Outcome::MissingRecipe
        } else {
            decide(v, files_changed(req, prev), req.prerelease, req.force)
        },
    }
}

fn opt_eq(a: &Option<String>, b: &Option<String>) -> (r: bool)
    ensures
        r == (opt_view(*a) == opt_view(*b)),
{
    match (a, b) {
        (Some(x), Some(y)) => *x == *y,
        (None, None) => true,
        _ => false,
    }
}

/// Joins the three build digests.
pub fn combine_hashes(req: &BuildRequest) -> (r: String)
    ensures
        r@ == request_combined(*req),
{
    let mut s = req.yaml_build_hash.clone();
    match &req.recipe_hash {
        Some(h) => s.append(h.as_str()),
        None => {},
    }
    match &req.command_hash {
        Some(h) => s.append(h.as_str()),
        None => {},
    }
    assert(s@ =~= request_combined(*req));
    s
}

/// Decides a build run from the request, the last recorded state of the
/// worker, and the latest version built for it (`None` if none was).
pub fn evaluate(req: &BuildRequest, prev: Option<&WorkerState>, latest_built: Option<&str>) -> (r: Result<Decision, BuildError>)
    ensures
        outcome_of(r) == evaluation(*req, opt_ref_state(prev), str_view(latest_built)),
        r matches Err(BuildError::VersionRegression { declared, built }) ==> declared@ == req.declared_version@
            && str_view(latest_built) == Some(built@),
        r matches Err(BuildError::MissingVersionBump(v)) ==> v@ == req.declared_version@,
{
    match compare_worker_version(req.declared_version.as_str(), None) {
        Err(m) => {
            return Err(BuildError::InvalidVersion(m));
        },
        Ok(_) => {},
    }
    let version_changed = match compare_worker_version(req.declared_version.as_str(), latest_built) {
        Ok(Ordering::Less) => {
            if req.prerelease {
                true
            } else {
                let built = match latest_built {
                    Some(l) => l.to_string(),
                    None => String::new(),
                };
                return Err(BuildError::VersionRegression { declared: req.declared_version.clone(), built });
            }
        },
        Ok(Ordering::Equal) => false,
        Ok(Ordering::Greater) => true,
        Err(m) => {
            if req.prerelease {
                true
            } else {
                return Err(BuildError::InvalidVersion(m));
            }
        },
    };
    if req.recipe_hash.is_none() {
        return Err(BuildError::MissingRecipe);
    }
    let files = match prev {
        None => true,
        Some(p) => if req.prerelease {
            !(p.yaml_build_hash == req.yaml_build_hash)
                || !opt_eq(&p.dockerfile_hash, &req.recipe_hash)
                || !opt_eq(&p.command_hash, &req.command_hash)
        } else {
            let combined = Some(combine_hashes(req));
            !opt_eq(&p.pushed_build_hash, &combined)
        },
    };
    if req.force {
        return Ok(Decision::Proceed);
    }
    if version_changed && !files {
        Ok(Decision::Skip(SkipReason::FilesUnchanged))
    } else if !version_changed && files {
        if req.prerelease {
            Ok(Decision::Proceed)
        } else {
            Err(BuildError::MissingVersionBump(req.declared_version.clone()))
        }
    } else if !version_changed && !files {
        Ok(Decision::Skip(SkipReason::NothingChanged))
    } else {
        Ok(Decision::Proceed)
    }
}

/// The image reference a build is tagged with: the environment picks the
/// repository, and a pre-release is always `latest`.
pub open spec fn image_tag_text(worker: Seq<char>, prerelease: bool, version: Seq<char>) -> Seq<char> {
    "geoengine-local"@ + (if prerelease { "-dev"@ } else { Seq::empty() }) + "/"@ + worker + ":"@
        + (if prerelease { "latest"@ } else { version })
}

/// The tag of the image that a build run produces.
pub fn image_tag(req: &BuildRequest) -> (r: String)
    ensures
        r@ == image_tag_text(req.worker_name@, req.prerelease, req.declared_version@),
{
    let mut s = String::from_str("geoengine-local");
    if req.prerelease {
        s.append("-dev");
    }
    s.append("/");
    s.append(req.worker_name.as_str());
    s.append(":");
    if req.prerelease {
        s.append("latest");
    } else {
        s.append(req.declared_version.as_str());
    }
    assert(s@ =~= image_tag_text(req.worker_name@, req.prerelease, req.declared_version@));
    s
}

/// What the record written after a successful build holds: the fresh
/// digests and tag, and what was not recomputed carried over from `prev`.
pub open spec fn committed(req: BuildRequest, prev: Option<WorkerState>, tag: Seq<char>, at: Seq<char>, s: WorkerState) -> bool {
    &&& s.worker_name@ == req.worker_name@
    &&& s.applied_at@ == at
    &&& s.yaml_build_hash@ == req.yaml_build_hash@
    &&& opt_view(s.dockerfile_hash) == opt_view(req.recipe_hash)
    &&& opt_view(s.command_hash) == opt_view(req.command_hash)
    &&& opt_view(s.image_tag) == Some(tag)
    &&& opt_view(s.pushed_build_hash) == if req.prerelease {
        match prev { Some(p) => opt_view(p.pushed_build_hash), None => None }
    } else {
        Some(request_combined(req))
    }
    &&& opt_view(s.yaml_hash) == match prev { Some(p) => opt_view(p.yaml_hash), None => None }
    &&& s.plugins_arcgis == match prev { Some(p) => p.plugins_arcgis, None => None }
    &&& s.plugins_qgis == match prev { Some(p) => p.plugins_qgis, None => None }
}

/// The record to store once the image `tag` was built at time `applied_at`.
pub fn commit(req: &BuildRequest, prev: Option<&WorkerState>, tag: String, applied_at: String) -> (r: WorkerState)
    ensures
        committed(*req, opt_ref_state(prev), tag@, applied_at@, r),
{
    let pushed = if req.prerelease {
        match prev {
            Some(p) => clone_opt(&p.pushed_build_hash),
            None => None,
        }
    } else {
        Some(combine_hashes(req))
    };
    WorkerState {
        worker_name: req.worker_name.clone(),
        applied_at,
        yaml_build_hash: req.yaml_build_hash.clone(),
        yaml_hash: match prev {
            Some(p) => clone_opt(&p.yaml_hash),
            None => None,
        },
        dockerfile_hash: clone_opt(&req.recipe_hash),
        command_hash: clone_opt(&req.command_hash),
        pushed_build_hash: pushed,
        image_tag: Some(tag),
        plugins_arcgis: match prev {
            Some(p) => p.plugins_arcgis,
            None => None,
        },
        plugins_qgis: match prev {
            Some(p) => p.plugins_qgis,
            None => None,
        },
    }
}

/// Unless a rebuild is forced, a run in which neither the version nor any
/// build-relevant file changed never proceeds to a build.
pub proof fn lemma_unchanged_never_proceeds(req: BuildRequest, prev: Option<WorkerState>, latest: Option<Seq<char>>)
    requires
        !req.force,
        version_verdict(req.declared_version@, latest, req.prerelease) == Ok::<bool, Outcome>(false),
        !files_changed(req, prev),
    ensures
        !(evaluation(req, prev, latest) is Proceed),
{
}

/// A production run over a recorded worker whose files changed while its
/// version did not is blocked for want of a version bump.
pub proof fn lemma_production_needs_version_bump(req: BuildRequest, prev: Option<WorkerState>, latest: Option<Seq<char>>)
    requires
        !req.force,
        !req.prerelease,
        prev is Some,
        req.recipe_hash is Some,
        version_verdict(req.declared_version@, latest, req.prerelease) == Ok::<bool, Outcome>(false),
        files_changed(req, prev),
    ensures
        evaluation(req, prev, latest) is MissingVersionBump,
{
}

/// The latest built version once a run's image exists: a production build
/// adds its own release, a pre-release build adds no release tag.
pub open spec fn latest_after_build(req: BuildRequest, latest: Option<Seq<char>>) -> Option<Seq<char>> {
    if !req.prerelease && crate::version::release_triple(req.declared_version@) is Some {
        Some(req.declared_version@)
    } else {
        latest
    }
}

/// Once a run that proceeded is committed, the same run evaluated again
/// (unforced) is skipped.
pub proof fn lemma_commit_then_skip(req: BuildRequest, prev: Option<WorkerState>, latest: Option<Seq<char>>, tag: Seq<char>, at: Seq<char>, next: WorkerState)
    requires
        !req.force,
        evaluation(req, prev, latest) is Proceed,
        committed(req, prev, tag, at, next),
    ensures
        evaluation(req, Some(next), latest_after_build(req, latest)) is Skip,
{
    assert(!files_changed(req, Some(next)));
    if !req.prerelease {
        if let Some(t) = crate::version::release_triple(req.declared_version@) {
            assert(crate::version::triple_cmp(t, t) == Ordering::Equal);
        }
    }
}

/// The tag a build writes is what version discovery reads back: a
/// production build's tag names its release, a pre-release build's tag
/// names none.
pub proof fn lemma_build_tag_discovery(worker: Seq<char>, version: Seq<char>)
    ensures
        crate::version::release_triple(version) is Some ==> crate::version::tag_release(worker, image_tag_text(worker, false, version)) == Some(version),
        crate::version::tag_release(worker, image_tag_text(worker, true, version)) is None,
{
    reveal_strlit("geoengine-local");
    reveal_strlit("geoengine-local/");
    reveal_strlit("/");
    reveal_strlit(":");
    reveal_strlit("-dev");
    reveal_strlit("latest");
    let p = crate::version::release_tag_prefix(worker);
    let prod = image_tag_text(worker, false, version);
    assert(prod =~= p + version);
    assert(prod.subrange(0, p.len() as int) =~= p);
    assert(prod.subrange(p.len() as int, prod.len() as int) =~= version);
    let dev = image_tag_text(worker, true, version);
    if p.len() <= dev.len() {
        assert(dev[15] == '-');
        assert(p[15] == '/');
        assert(dev.subrange(0, p.len() as int)[15] != p[15]);
    }
}

/// After a run that proceeded, the image list holds one more tag, the one
/// the run wrote: version discovery then finds the declared version for a
/// production build, and what it found before for a pre-release build.
pub proof fn lemma_latest_after_build(req: BuildRequest, prev: Option<WorkerState>, tags: Seq<String>, tag: String)
    requires
        !req.force,
        evaluation(req, prev, crate::version::latest_of(req.worker_name@, tags)) is Proceed,
        tag@ == image_tag_text(req.worker_name@, req.prerelease, req.declared_version@),
    ensures
        crate::version::latest_of(req.worker_name@, tags.push(tag)) == latest_after_build(
            req,
            crate::version::latest_of(req.worker_name@, tags),
        ),
{
    lemma_build_tag_discovery(req.worker_name@, req.declared_version@);
    assert(tags.push(tag).drop_last() =~= tags);
}

/// A build that proceeded, committed, and left its tag in the image list is
/// skipped when run again unchanged, with the latest version discovered
/// from that list.
pub proof fn lemma_rebuild_skipped(req: BuildRequest, prev: Option<WorkerState>, tags: Seq<String>, tag: String, at: Seq<char>, next: WorkerState)
    requires
        !req.force,
        evaluation(req, prev, crate::version::latest_of(req.worker_name@, tags)) is Proceed,
        tag@ == image_tag_text(req.worker_name@, req.prerelease, req.declared_version@),
        committed(req, prev, tag@, at, next),
    ensures
        evaluation(req, Some(next), crate::version::latest_of(req.worker_name@, tags.push(tag))) is Skip,
{
    lemma_latest_after_build(req, prev, tags, tag);
    lemma_commit_then_skip(req, prev, crate::version::latest_of(req.worker_name@, tags), tag@, at, next);
}

} // verus!
