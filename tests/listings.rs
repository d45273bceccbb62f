use geoengine::api::{project_summary, tool_infos};
use geoengine::describe::{describe, parse_gis_filter, shown_in_listing, GisFilter};
use geoengine::project::{GisConfig, GisTool, ProjectConfig, ToolParameter};
use geoengine::worker_config::{PluginsConfig, WorkerConfig};

fn project() -> ProjectConfig {
    ProjectConfig {
        name: "p".to_string(),
        version: Some("0.3.0".to_string()),
        base_image: None,
        build: None,
        runtime: None,
        scripts: None,
        gis: Some(GisConfig {
            tools: Some(vec![GisTool {
                name: "clip".to_string(),
                label: Some("Clip".to_string()),
                description: None,
                script: "run".to_string(),
                inputs: Some(vec![ToolParameter {
                    name: "raster".to_string(),
                    label: None,
                    map_to: None,
                    param_type: "raster".to_string(),
                    default_json: None,
                    required: None,
                    description: None,
                    choices: None,
                }]),
                outputs: None,
            }]),
        }),
        deploy: None,
    }
}

#[test]
fn describe_defaults_inputs_to_required() {
    let mut c = WorkerConfig::template("w");
    let d = describe(&c, Some("1.0.0".to_string()));
    assert_eq!(d.name, "w");
    assert_eq!(d.inputs.len(), 3);
    assert!(d.inputs[0].required);
    assert!(!d.inputs[2].required);
    assert_eq!(d.version_built.as_deref(), Some("1.0.0"));
    c.command.as_mut().unwrap().inputs.as_mut().unwrap()[0].required = None;
    assert!(describe(&c, None).inputs[0].required);
    c.command = None;
    assert!(describe(&c, None).inputs.is_empty());
}

#[test]
fn gis_filtered_listing() {
    assert_eq!(parse_gis_filter(None).unwrap(), GisFilter::Any);
    assert_eq!(parse_gis_filter(Some("qgis")).unwrap(), GisFilter::Qgis);
    assert_eq!(parse_gis_filter(Some("grass")).unwrap_err(), "Invalid --gis listed: 'grass'");
    let mut c = WorkerConfig::template("w");
    c.plugins = Some(PluginsConfig { arcgis: Some(true), qgis: None });
    assert!(shown_in_listing(GisFilter::Any, None));
    assert!(shown_in_listing(GisFilter::ArcGis, Some(&c)));
    assert!(!shown_in_listing(GisFilter::Qgis, Some(&c)));
    assert!(!shown_in_listing(GisFilter::ArcGis, None));
}

#[test]
fn tools_and_summaries() {
    let p = project();
    let tools = tool_infos(&p);
    assert_eq!(tools.len(), 1);
    assert_eq!(tools[0].label.as_deref(), Some("Clip"));
    let inputs = tools[0].inputs.as_ref().unwrap();
    assert!(inputs[0].required);
    assert!(tools[0].outputs.is_none());
    let s = project_summary("p", "/work/p", &p);
    assert_eq!(s.tools_count, 1);
    assert_eq!(s.version.as_deref(), Some("0.3.0"));
    let mut empty = project();
    empty.gis = None;
    assert!(tool_infos(&empty).is_empty());
    assert_eq!(project_summary("p", "/w", &empty).tools_count, 0);
}
