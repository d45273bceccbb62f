use geoengine::api::{output_dir_of, AppError};
use geoengine::container::container_config;
use geoengine::jobs::{CancelAction, JobError, JobManager, JobRequest, JobStatus};
use geoengine::project::{GisConfig, GisTool, MountConfig, ProjectConfig, RuntimeConfig, ToolParameter};

fn param(name: &str, required: Option<bool>) -> ToolParameter {
    ToolParameter {
        name: name.to_string(),
        label: None,
        map_to: None,
        param_type: "string".to_string(),
        default_json: None,
        required,
        description: None,
        choices: None,
    }
}

fn project() -> ProjectConfig {
    ProjectConfig {
        name: "proj".to_string(),
        version: None,
        base_image: None,
        build: None,
        runtime: Some(RuntimeConfig {
            gpu: false,
            memory: Some("8g".to_string()),
            shm_size: None,
            mounts: Some(vec![
                MountConfig { host: "./data".to_string(), container: "/data".to_string(), readonly: Some(true) },
                MountConfig { host: "/abs".to_string(), container: "/abs".to_string(), readonly: None },
            ]),
            environment: Some(vec![("A".to_string(), "1".to_string())]),
            workdir: None,
        }),
        scripts: Some(vec![("run".to_string(), "python main.py".to_string())]),
        gis: Some(GisConfig {
            tools: Some(vec![GisTool {
                name: "clip".to_string(),
                label: None,
                description: None,
                script: "run".to_string(),
                inputs: Some(vec![param("raster", None), param("extent", Some(true)), param("note", Some(false))]),
                outputs: None,
            }]),
        }),
        deploy: None,
    }
}

fn request(inputs: &[(&str, &str)], output: Option<&str>) -> JobRequest {
    JobRequest {
        project: "proj".to_string(),
        tool: "clip".to_string(),
        inputs: inputs.iter().map(|(k, v)| (k.to_string(), v.to_string())).collect(),
        output_dir: output.map(|o| o.to_string()),
    }
}

fn full() -> JobRequest {
    request(&[("raster", "/tmp/a.tif"), ("extent", "0,0,1,1")], Some("/out"))
}

#[test]
fn submit_rejects_missing_required_input() {
    let p = project();
    let mut m = JobManager::new(2);
    m.submit_at(full(), Some(&p), 1, 100).unwrap();
    let before = m.list_jobs(true).len();
    let r = m.submit_at(request(&[("raster", "/tmp/a.tif")], None), Some(&p), 2, 100);
    assert!(matches!(r, Err(JobError::Validation(_))));
    assert_eq!(m.list_jobs(true).len(), before);
    assert!(m.get_job(2).is_none());
}

#[test]
fn submit_rejects_unknown_project_or_tool() {
    let p = project();
    let mut m = JobManager::new(2);
    assert!(matches!(m.submit_at(full(), None, 1, 0), Err(JobError::Validation(_))));
    let mut r = full();
    r.tool = "buffer".to_string();
    assert!(matches!(m.submit_at(r, Some(&p), 1, 0), Err(JobError::Validation(_))));
    assert_eq!(m.list_jobs(true).len(), 0);
}

#[test]
fn submit_optional_input_may_be_absent_and_ids_are_unique() {
    let p = project();
    let mut m = JobManager::new(2);
    assert_eq!(m.submit_at(full(), Some(&p), 7, 5).unwrap(), 7);
    assert!(matches!(m.submit_at(full(), Some(&p), 7, 5), Err(JobError::DuplicateId)));
    let j = m.get_job(7).unwrap();
    assert_eq!(j.status, JobStatus::Queued);
    assert_eq!(j.created_at, 5);
    assert!(j.container_id.is_none());
}

#[test]
fn submit_assigns_fresh_identifiers() {
    let p = project();
    let mut m = JobManager::new(2);
    let a = m.submit(full(), Some(&p)).unwrap();
    let b = m.submit(full(), Some(&p)).unwrap();
    assert_ne!(a, b);
    assert_eq!(m.list_jobs(false).len(), 2);
}

#[test]
fn two_workers_three_jobs() {
    let p = project();
    let mut m = JobManager::new(2);
    for id in 1..=3u128 {
        m.submit_at(full(), Some(&p), id, 0).unwrap();
    }
    let ready = m.process_pending();
    assert_eq!(ready, vec![1, 2]);
    for id in ready {
        m.record_started(id, format!("c{}", id), 10).unwrap();
    }
    assert_eq!(m.get_job(1).unwrap().status, JobStatus::Running);
    assert_eq!(m.get_job(2).unwrap().status, JobStatus::Running);
    assert_eq!(m.get_job(3).unwrap().status, JobStatus::Queued);
    assert!(m.process_pending().is_empty());
    assert!(matches!(m.record_started(3, "c3".to_string(), 11), Err(JobError::AtCapacity)));
    assert_eq!(m.record_exit(1, 0, 20).unwrap(), true);
    assert_eq!(m.get_job(1).unwrap().status, JobStatus::Completed);
    assert_eq!(m.process_pending(), vec![3]);
    m.record_started(3, "c3".to_string(), 21).unwrap();
    assert_eq!(m.get_job(3).unwrap().status, JobStatus::Running);
}

#[test]
fn running_never_exceeds_ceiling() {
    let p = project();
    let mut m = JobManager::new(3);
    for id in 0..10u128 {
        m.submit_at(full(), Some(&p), id, 0).unwrap();
    }
    for round in 0..4 {
        for id in m.process_pending() {
            m.record_started(id, format!("c{}", id), round).unwrap();
        }
        let running = m.list_jobs(false).iter().filter(|j| j.status == JobStatus::Running).count();
        assert!(running <= 3);
        if let Some(j) = m.list_jobs(false).into_iter().find(|j| j.status == JobStatus::Running) {
            let id = j.id;
            m.record_exit(id, 1, round).unwrap();
        }
    }
}

#[test]
fn cancel_queued_job_directly() {
    let p = project();
    let mut m = JobManager::new(1);
    m.submit_at(full(), Some(&p), 1, 0).unwrap();
    assert!(matches!(m.cancel(1, 5).unwrap(), CancelAction::Cancelled));
    let j = m.get_job(1).unwrap();
    assert_eq!(j.status, JobStatus::Cancelled);
    assert_eq!(j.completed_at, Some(5));
    assert!(j.container_id.is_none());
}

#[test]
fn cancel_running_job_stops_container_first() {
    let p = project();
    let mut m = JobManager::new(1);
    m.submit_at(full(), Some(&p), 1, 0).unwrap();
    m.record_started(1, "abc".to_string(), 1).unwrap();
    match m.cancel(1, 5).unwrap() {
        CancelAction::StopAndRemove(c) => assert_eq!(c, "abc"),
        other => panic!("unexpected {:?}", other),
    }
    assert_eq!(m.get_job(1).unwrap().status, JobStatus::Running);
    m.finish_cancel(1, 6).unwrap();
    assert_eq!(m.get_job(1).unwrap().status, JobStatus::Cancelled);
    m.submit_at(full(), Some(&p), 2, 7).unwrap();
    assert_eq!(m.process_pending(), vec![2]);
}

#[test]
fn cancel_terminal_or_unknown_job_fails() {
    let p = project();
    let mut m = JobManager::new(1);
    m.submit_at(full(), Some(&p), 1, 0).unwrap();
    m.record_start_failed(1, "no image".to_string(), 1).unwrap();
    assert!(matches!(m.cancel(1, 2), Err(JobError::InvalidTransition(JobStatus::Failed))));
    let j = m.get_job(1).unwrap();
    assert_eq!(j.status, JobStatus::Failed);
    assert_eq!(j.error.as_deref(), Some("no image"));
    assert_eq!(j.completed_at, Some(1));
    assert!(matches!(m.cancel(9, 2), Err(JobError::NotFound)));
    assert!(matches!(m.finish_cancel(1, 2), Err(JobError::InvalidTransition(JobStatus::Failed))));
}

#[test]
fn exit_codes_and_repeated_reports() {
    let p = project();
    let mut m = JobManager::new(2);
    m.submit_at(full(), Some(&p), 1, 0).unwrap();
    m.record_started(1, "c".to_string(), 1).unwrap();
    assert_eq!(m.record_exit(1, 3, 2).unwrap(), true);
    let j = m.get_job(1).unwrap();
    assert_eq!(j.status, JobStatus::Failed);
    assert_eq!(j.error.as_deref(), Some("Container exited with code 3"));
    assert_eq!(m.record_exit(1, 0, 3).unwrap(), false);
    m.submit_at(full(), Some(&p), 2, 4).unwrap();
    m.record_started(2, "d".to_string(), 5).unwrap();
    m.record_exit(2, -9, 6).unwrap();
    assert_eq!(m.get_job(2).unwrap().error.as_deref(), Some("Container exited with code -9"));
    assert_eq!(m.get_job(1).unwrap().status, JobStatus::Failed);
    assert_eq!(m.list_jobs(false).len(), 0);
    assert_eq!(m.list_jobs(true).len(), 2);
}

#[test]
fn output_only_for_completed_jobs() {
    let p = project();
    let mut m = JobManager::new(1);
    m.submit_at(full(), Some(&p), 1, 0).unwrap();
    assert_eq!(output_dir_of(m.get_job(1).unwrap()).unwrap_err().status_code(), 404);
    m.record_started(1, "c".to_string(), 1).unwrap();
    m.record_exit(1, 0, 2).unwrap();
    assert_eq!(output_dir_of(m.get_job(1).unwrap()).unwrap(), "/out");
}

#[test]
fn container_for_admitted_job() {
    let p = project();
    let mut m = JobManager::new(1);
    m.submit_at(request(&[("raster", "/tmp/a.tif"), ("extent", "0,0,1,1"), ("a", "x")], Some("/out")), Some(&p), 0x1234, 0).unwrap();
    let job = m.get_job(0x1234).unwrap();
    let files = vec![Some("a.tif".to_string()), None, None];
    let c = container_config(job, &p, "/home/u/proj", &files).unwrap();
    assert_eq!(c.image, "geoengine-proj:latest");
    assert_eq!(c.command, Some(vec!["/bin/sh".to_string(), "-c".to_string(), "python main.py".to_string()]));
    assert_eq!(
        c.env_vars,
        vec![
            ("A".to_string(), "1".to_string()),
            ("GEOENGINE_INPUT_RASTER".to_string(), "/tmp/a.tif".to_string()),
            ("GEOENGINE_INPUT_EXTENT".to_string(), "0,0,1,1".to_string()),
            ("GEOENGINE_INPUT_A".to_string(), "x".to_string()),
            ("GEOENGINE_OUTPUT_DIR".to_string(), "/output".to_string()),
        ]
    );
    assert_eq!(
        c.mounts,
        vec![
            ("/home/u/proj/data".to_string(), "/data".to_string(), true),
            ("/abs".to_string(), "/abs".to_string(), false),
            ("/out".to_string(), "/output".to_string(), false),
            ("/tmp/a.tif".to_string(), "/inputs/a.tif".to_string(), true),
        ]
    );
    assert_eq!(c.name.as_deref(), Some("geoengine-job-00000000-0000-0000-0000-000000001234"));
    assert_eq!(c.memory.as_deref(), Some("8g"));
    assert!(c.detach && !c.tty && !c.remove_on_exit && !c.gpu);
}

#[test]
fn container_needs_tool_and_script() {
    let mut p = project();
    let mut m = JobManager::new(1);
    m.submit_at(full(), Some(&p), 1, 0).unwrap();
    let job = m.get_job(1).unwrap();
    p.scripts = Some(vec![("other".to_string(), "x".to_string())]);
    assert!(container_config(job, &p, "/p", &Vec::new()).is_err());
    p.gis = None;
    assert!(container_config(job, &p, "/p", &Vec::new()).is_err());
}

#[test]
fn api_errors_map_to_status_codes() {
    assert_eq!(AppError::from_job_error(JobError::NotFound).status_code(), 404);
    assert_eq!(AppError::from_job_error(JobError::Validation("bad".to_string())).status_code(), 400);
    assert_eq!(AppError::from_job_error(JobError::InvalidTransition(JobStatus::Completed)).status_code(), 400);
    assert_eq!(AppError::from_job_error(JobError::AtCapacity).status_code(), 500);
    assert_eq!(AppError::from_job_error(JobError::DuplicateId).status_code(), 500);
    let h = geoengine::api::health("0.1.0", 100, 160);
    assert_eq!((h.status.as_str(), h.uptime_seconds), ("healthy", 60));
    assert_eq!(geoengine::api::health("0.1.0", 100, 90).uptime_seconds, 0);
    assert_eq!(AppError::NotFound("Job \"x\" not found".to_string()).body(), "{\"error\":\"Job \\\"x\\\" not found\"}");
}
