use geoengine::project::{GisConfig, GisTool, MountConfig, ProjectConfig, RuntimeConfig, ToolParameter};
use geoengine::project_run::{plan_project_run, plan_tool_run};
use geoengine::run::InputPath;

fn param(name: &str, map_to: Option<&str>) -> ToolParameter {
    ToolParameter {
        name: name.to_string(),
        label: None,
        map_to: map_to.map(|m| m.to_string()),
        param_type: "raster".to_string(),
        default_json: None,
        required: None,
        description: None,
        choices: None,
    }
}

fn project() -> ProjectConfig {
    ProjectConfig {
        name: "proj".to_string(),
        version: None,
        base_image: None,
        build: None,
        runtime: Some(RuntimeConfig {
            gpu: true,
            memory: None,
            shm_size: Some("2g".to_string()),
            mounts: Some(vec![MountConfig { host: "./data".to_string(), container: "/data".to_string(), readonly: None }]),
            environment: Some(vec![("A".to_string(), "1".to_string())]),
            workdir: Some("/workspace".to_string()),
        }),
        scripts: Some(vec![("default".to_string(), "python main.py".to_string())]),
        gis: Some(GisConfig {
            tools: Some(vec![GisTool {
                name: "clip".to_string(),
                label: None,
                description: None,
                script: "default".to_string(),
                inputs: Some(vec![param("raster", Some("input")), param("extent", None)]),
                outputs: None,
            }]),
        }),
        deploy: None,
    }
}

#[test]
fn project_script_run() {
    let p = project();
    let c = plan_project_run(
        &p,
        "/p",
        &"default".to_string(),
        &vec!["--n".to_string(), "a b".to_string()],
        &vec![("B".to_string(), "2".to_string())],
        &vec![("/x".to_string(), "/y".to_string(), true)],
        false,
    )
    .unwrap();
    assert_eq!(c.image, "geoengine-proj:latest");
    assert_eq!(c.command.as_ref().unwrap()[2], "python main.py --n 'a b'");
    assert_eq!(c.env_vars, vec![("A".to_string(), "1".to_string()), ("B".to_string(), "2".to_string())]);
    assert_eq!(c.mounts, vec![("/p/data".to_string(), "/data".to_string(), false), ("/x".to_string(), "/y".to_string(), true)]);
    assert!(c.gpu && c.remove_on_exit && !c.detach && !c.tty);
    assert_eq!(c.workdir.as_deref(), Some("/workspace"));
    let none = plan_project_run(&p, "/p", &"train".to_string(), &Vec::new(), &Vec::new(), &Vec::new(), true);
    assert_eq!(none.unwrap_err(), "Script 'train' not found in project");
    let plain = plan_project_run(&p, "/p", &"default".to_string(), &Vec::new(), &Vec::new(), &Vec::new(), true).unwrap();
    assert_eq!(plain.command.unwrap()[2], "python main.py");
}

#[test]
fn tool_run_maps_inputs() {
    let p = project();
    let inputs = vec![
        ("raster".to_string(), "a.tif".to_string()),
        ("extent".to_string(), "0 0 1 1".to_string()),
        ("dir".to_string(), "d".to_string()),
    ];
    let paths = vec![
        InputPath::File { path: "/abs/a.tif".to_string(), name: "a.tif".to_string() },
        InputPath::Missing,
        InputPath::Dir { path: "/abs/d".to_string() },
    ];
    let out = "/abs/out".to_string();
    let c = plan_tool_run(&p, "proj", "/p", &"clip".to_string(), &inputs, &paths, Some(&out), true).unwrap();
    assert_eq!(
        c.command.as_ref().unwrap()[2],
        "python main.py --input /inputs/a.tif --extent '0 0 1 1' --dir /mnt/input_0"
    );
    assert_eq!(
        c.mounts,
        vec![
            ("/p/data".to_string(), "/data".to_string(), false),
            ("/abs/out".to_string(), "/output".to_string(), false),
            ("/abs/a.tif".to_string(), "/inputs/a.tif".to_string(), true),
            ("/abs/d".to_string(), "/mnt/input_0".to_string(), true),
        ]
    );
    assert_eq!(c.env_vars[1], ("GEOENGINE_OUTPUT_DIR".to_string(), "/output".to_string()));
    let e = plan_tool_run(&p, "proj", "/p", &"buffer".to_string(), &inputs, &paths, None, true).unwrap_err();
    assert_eq!(e, "Tool 'buffer' not found in project 'proj'");
}
