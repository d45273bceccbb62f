use geoengine::apply::applied_state;
use geoengine::diff::{diff_entries, parse_diff_target, DiffTarget};
use geoengine::dockerfile::{get_dockerfile_config, map_dockerfile_line};
use geoengine::state::{config_path, state_path};
use geoengine::worker_config::WorkerConfig;

#[test]
fn diff_targets() {
    assert_eq!(parse_diff_target(None).unwrap(), DiffTarget::All);
    assert_eq!(parse_diff_target(Some("docker")).unwrap(), DiffTarget::Docker);
    assert_eq!(
        parse_diff_target(Some("foo")).unwrap_err(),
        "Invalid diff target 'foo'. Expected one of: all, yaml, docker, command"
    );
}

#[test]
fn diff_reports_changed_files() {
    let mut prev = applied_state("w", None, "y1".to_string(), "b".to_string(), false, false, "t".to_string());
    prev.dockerfile_hash = Some("d1".to_string());
    let script = "main.py".to_string();
    let cmd_hash = "c2".to_string();
    let recipe = "d1".to_string();
    let e = diff_entries(DiffTarget::All, &prev, &"y2".to_string(), Some(&recipe), Some((&script, Some(&cmd_hash))));
    assert_eq!(e.len(), 3);
    assert_eq!(e[0].label, "geoengine.yaml");
    assert!(e[0].changed);
    assert_eq!(e[1].label, "Dockerfile");
    assert!(!e[1].changed);
    assert_eq!(e[2].label, "main.py (command script)");
    assert_eq!(e[2].old_hash, "");
    assert!(e[2].changed);
    let only = diff_entries(DiffTarget::Docker, &prev, &"y2".to_string(), None, None);
    assert!(only.is_empty());
}

#[test]
fn worker_template() {
    let t = WorkerConfig::template("demo");
    assert_eq!(t.name, "demo");
    assert_eq!(t.version.as_deref(), Some("1.0"));
    let cmd = t.command.as_ref().unwrap();
    assert_eq!(cmd.inputs.as_ref().unwrap().len(), 3);
    assert_eq!(t.local_dir_mounts.as_ref().unwrap()[1].container_path, "/output");
    assert!(!t.build_relevant_hash().is_empty());
}

#[test]
fn record_locations() {
    assert_eq!(state_path("/h/.geoengine/state", "w1"), "/h/.geoengine/state/w1.yaml");
    assert_eq!(config_path("/h/.geoengine/configs", "w1"), "/h/.geoengine/configs/w1.json");
}

fn lines(v: &[&str]) -> Vec<String> {
    v.iter().map(|s| s.to_string()).collect()
}

#[test]
fn dockerfile_lines() {
    assert_eq!(
        map_dockerfile_line("ENTRYPOINT [\"python\", \"main.py\"]", false, false),
        Some(("handler".to_string(), "python main.py".to_string()))
    );
    assert_eq!(map_dockerfile_line("CMD [\"run.sh\"]", false, false), None);
    assert_eq!(map_dockerfile_line("CMD [\"run.sh\"]", true, false), Some(("handler".to_string(), "run.sh".to_string())));
    assert_eq!(map_dockerfile_line("CMD run.sh", true, true), None);
    assert_eq!(map_dockerfile_line("   ", true, false), None);
    assert_eq!(map_dockerfile_line("FROM python:3.11", true, false), None);
}

#[test]
fn dockerfile_discovery() {
    let df = lines(&["FROM python:3.11", "COPY . /app", "ENTRYPOINT [\"python\", \"-u\", \"main.py\"]", "CMD [\"--help\"]"]);
    assert_eq!(get_dockerfile_config(&df), Some(("python".to_string(), "-u main.py".to_string())));
    let cmd_only = lines(&["FROM alpine", "CMD [\"./run\"]"]);
    assert_eq!(get_dockerfile_config(&cmd_only), Some(("./run".to_string(), String::new())));
    assert_eq!(get_dockerfile_config(&lines(&["FROM alpine"])), None);
    assert_eq!(get_dockerfile_config(&Vec::new()), None);
}
