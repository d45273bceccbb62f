use geoengine::run::{plan_worker_run, InputPath};
use geoengine::worker_config::{InputParameter, WorkerConfig};

fn pairs(v: &[(&str, &str)]) -> Vec<(String, String)> {
    v.iter().map(|(k, x)| (k.to_string(), x.to_string())).collect()
}

fn config() -> WorkerConfig {
    let mut c = WorkerConfig::template("w1");
    c.version = Some("1.2.0".to_string());
    c.command.as_mut().unwrap().inputs.as_mut().unwrap().push(InputParameter {
        name: "extra_dir".to_string(),
        param_type: "Folder".to_string(),
        required: Some(false),
        default_json: None,
        description: None,
        enum_values: None,
        readonly: None,
    });
    c
}

#[test]
fn inputs_become_arguments_and_mounts() {
    let inputs = pairs(&[("input_file", "a.tif"), ("format", "png"), ("output_folder", "out"), ("extra_dir", "more")]);
    let paths = vec![
        InputPath::File { path: "/abs/a.tif".to_string(), name: "a.tif".to_string() },
        InputPath::Missing,
        InputPath::Dir { path: "/abs/out".to_string() },
        InputPath::Dir { path: "/abs/more".to_string() },
    ];
    let plan = plan_worker_run(&config(), "/work/w1", &inputs, &paths, &vec!["--verbose".to_string()], false).unwrap();
    assert_eq!(plan.image, "geoengine-local/w1:1.2.0");
    assert_eq!(
        plan.command[2],
        "python main.py --input_file /inputs/input_file/a.tif --format png --output_folder /mnt/input_0 --extra_dir /mnt/input_1 --verbose"
    );
    assert_eq!(
        plan.mounts,
        vec![
            ("/work/w1/data".to_string(), "/data".to_string(), false),
            ("/work/w1/output".to_string(), "/output".to_string(), false),
            ("/abs/a.tif".to_string(), "/inputs/input_file/a.tif".to_string(), true),
            ("/abs/out".to_string(), "/mnt/input_0".to_string(), false),
            ("/abs/more".to_string(), "/mnt/input_1".to_string(), true),
        ]
    );
    let dev = plan_worker_run(&config(), "/w", &Vec::new(), &Vec::new(), &Vec::new(), true).unwrap();
    assert_eq!(dev.image, "geoengine-local-dev/w1:latest");
    assert_eq!(dev.command[2], "python main.py");
}

#[test]
fn unusable_inputs_are_rejected() {
    let e = plan_worker_run(&config(), "/w", &pairs(&[("input_file", "x")]), &vec![InputPath::Missing], &Vec::new(), false)
        .unwrap_err();
    assert_eq!(e, "Input 'input_file' is declared as type 'file' but path does not exist: x");
    let e = plan_worker_run(&config(), "/w", &pairs(&[("input_file", "d")]), &vec![InputPath::Dir { path: "/d".to_string() }], &Vec::new(), false)
        .unwrap_err();
    assert_eq!(e, "Input 'input_file' is declared as type 'file' but received a non-file path: d");
    let e = plan_worker_run(&config(), "/w", &pairs(&[("extra_dir", "f")]), &vec![InputPath::Other], &Vec::new(), false)
        .unwrap_err();
    assert_eq!(e, "Input 'extra_dir' is declared as type 'folder' but received a non-directory path: f");
    let mut none = config();
    none.command = None;
    assert_eq!(
        plan_worker_run(&none, "/w", &Vec::new(), &Vec::new(), &Vec::new(), false).unwrap_err(),
        "No command defined for worker 'w1'"
    );
}
