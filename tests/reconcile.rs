use geoengine::reconcile::{commit, evaluate, image_tag, BuildError, BuildRequest, Decision, SkipReason};
use geoengine::state::{check_changed_config, WorkerState};

fn request(version: &str, prerelease: bool) -> BuildRequest {
    BuildRequest {
        worker_name: "w1".to_string(),
        declared_version: version.to_string(),
        prerelease,
        force: false,
        yaml_build_hash: "y1".to_string(),
        recipe_hash: Some("d1".to_string()),
        command_hash: Some("c1".to_string()),
    }
}

fn built_state(req: &BuildRequest, prev: Option<&WorkerState>) -> WorkerState {
    commit(req, prev, image_tag(req), "2024-01-01T00:00:00Z".to_string())
}

#[test]
fn first_build_proceeds_then_skips() {
    let req = request("1.0.0", false);
    assert_eq!(evaluate(&req, None, None).unwrap(), Decision::Proceed);
    let state = built_state(&req, None);
    assert_eq!(state.image_tag.as_deref(), Some("geoengine-local/w1:1.0.0"));
    assert_eq!(state.pushed_build_hash.as_deref(), Some("y1d1c1"));
    assert_eq!(evaluate(&req, Some(&state), Some("1.0.0")).unwrap(), Decision::Skip(SkipReason::NothingChanged));
}

#[test]
fn version_regression_in_production() {
    let req = request("1.1.0", false);
    let prev = built_state(&request("1.2.0", false), None);
    let before = format!("{:?}", prev);
    match evaluate(&req, Some(&prev), Some("1.2.0")) {
        Err(BuildError::VersionRegression { declared, built }) => {
            assert_eq!(declared, "1.1.0");
            assert_eq!(built, "1.2.0");
        }
        other => panic!("unexpected {:?}", other),
    }
    assert_eq!(format!("{:?}", prev), before);
}

#[test]
fn regression_in_prerelease_counts_as_changed() {
    let req = request("1.1.0", true);
    assert_eq!(evaluate(&req, None, Some("1.2.0")).unwrap(), Decision::Proceed);
    let prev = built_state(&req, None);
    assert_eq!(evaluate(&req, Some(&prev), Some("1.2.0")).unwrap(), Decision::Skip(SkipReason::FilesUnchanged));
}

#[test]
fn production_files_changed_without_bump_is_blocked() {
    let prev = built_state(&request("1.0.0", false), None);
    let mut req = request("1.0.0", false);
    req.command_hash = Some("c2".to_string());
    assert!(matches!(evaluate(&req, Some(&prev), Some("1.0.0")), Err(BuildError::MissingVersionBump(_))));
}

#[test]
fn prerelease_files_changed_without_bump_proceeds() {
    let prev = built_state(&request("1.0.0", true), None);
    let mut req = request("1.0.0", true);
    req.yaml_build_hash = "y2".to_string();
    assert_eq!(evaluate(&req, Some(&prev), Some("1.0.0")).unwrap(), Decision::Proceed);
}

#[test]
fn version_bump_without_file_change_skips() {
    let prev = built_state(&request("1.0.0", false), None);
    let req = request("1.1.0", false);
    assert_eq!(evaluate(&req, Some(&prev), Some("1.0.0")).unwrap(), Decision::Skip(SkipReason::FilesUnchanged));
}

#[test]
fn bump_and_change_proceeds() {
    let prev = built_state(&request("1.0.0", false), None);
    let mut req = request("1.1.0", false);
    req.recipe_hash = Some("d2".to_string());
    assert_eq!(evaluate(&req, Some(&prev), Some("1.0.0")).unwrap(), Decision::Proceed);
}

#[test]
fn force_proceeds_even_when_unchanged() {
    let mut req = request("1.0.0", false);
    let prev = built_state(&req, None);
    req.force = true;
    assert_eq!(evaluate(&req, Some(&prev), Some("1.0.0")).unwrap(), Decision::Proceed);
}

#[test]
fn missing_recipe_is_rejected() {
    let mut req = request("1.0.0", false);
    req.recipe_hash = None;
    assert!(matches!(evaluate(&req, None, None), Err(BuildError::MissingRecipe)));
}

#[test]
fn invalid_version_rejected_in_both_modes() {
    for dev in [false, true] {
        assert!(matches!(evaluate(&request("1.0", dev), None, None), Err(BuildError::InvalidVersion(_))));
        assert!(matches!(evaluate(&request("01.0.0", dev), None, None), Err(BuildError::InvalidVersion(_))));
        assert!(matches!(evaluate(&request("", dev), None, None), Err(BuildError::InvalidVersion(_))));
    }
}

#[test]
fn latest_release_candidate_is_not_a_comparable_release() {
    assert!(matches!(evaluate(&request("1.0.0", false), None, Some("1.0.0-rc1")), Err(BuildError::InvalidVersion(_))));
    assert_eq!(evaluate(&request("1.0.0", true), None, Some("2.0.0-rc1")).unwrap(), Decision::Proceed);
}

#[test]
fn prerelease_commit_keeps_pushed_hash_and_tags_latest() {
    let prod = built_state(&request("1.0.0", false), None);
    let dev_req = request("1.0.0", true);
    assert_eq!(image_tag(&dev_req), "geoengine-local-dev/w1:latest");
    let dev = built_state(&dev_req, Some(&prod));
    assert_eq!(dev.pushed_build_hash, prod.pushed_build_hash);
    assert_eq!(dev.image_tag.as_deref(), Some("geoengine-local-dev/w1:latest"));
}

#[test]
fn config_drift_detection() {
    let mut s = built_state(&request("1.0.0", false), None);
    assert!(check_changed_config(None, &"h".to_string()));
    assert!(check_changed_config(Some(&s), &"h".to_string()));
    s.yaml_hash = Some("h".to_string());
    assert!(!check_changed_config(Some(&s), &"h".to_string()));
    assert!(check_changed_config(Some(&s), &"g".to_string()));
}
