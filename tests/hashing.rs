use geoengine::hashing::{sha256_bytes, sha256_string};
use geoengine::worker_config::{CommandConfig, DeployConfig, InputParameter, MountConfig, PluginsConfig, WorkerConfig};

fn config() -> WorkerConfig {
    WorkerConfig {
        name: "w1".to_string(),
        version: Some("1.0.0".to_string()),
        description: Some("A worker".to_string()),
        command: Some(CommandConfig {
            program: "python".to_string(),
            script: "main.py".to_string(),
            inputs: Some(vec![InputParameter {
                name: "input_file".to_string(),
                param_type: "file".to_string(),
                required: Some(true),
                default_json: None,
                description: Some("Input \"file\"".to_string()),
                enum_values: Some(vec!["a".to_string(), "b".to_string()]),
                readonly: Some(true),
            }]),
        }),
        local_dir_mounts: Some(vec![MountConfig {
            host_path: "./data".to_string(),
            container_path: "/data".to_string(),
            readonly: None,
        }]),
        plugins: Some(PluginsConfig { arcgis: Some(false), qgis: Some(true) }),
        deploy: Some(DeployConfig { tenant_id: None }),
    }
}

#[test]
fn sha256_known_digests() {
    assert_eq!(sha256_string(""), "e3b0c44298fc1c149afbf4c8996fb92427ae41e4649b934ca495991b7852b855");
    assert_eq!(sha256_string("abc"), "ba7816bf8f01cfea414140de5dae2223b00361a396177a9cb410ff61f20015ad");
    assert_eq!(sha256_bytes(b"abc"), sha256_string("abc"));
}

#[test]
fn build_fields_text_is_sorted_compact_json() {
    let text = config().build_fields_text();
    assert_eq!(
        text,
        "{\"command\":{\"inputs\":[{\"description\":\"Input \\\"file\\\"\",\"enum_values\":[\"a\",\"b\"],\"name\":\"input_file\",\"readonly\":true,\"required\":true,\"type\":\"file\"}],\"program\":\"python\",\"script\":\"main.py\"},\"local_dir_mounts\":[{\"container_path\":\"/data\",\"host_path\":\"./data\",\"readonly\":null}],\"name\":\"w1\"}"
    );
}

#[test]
fn build_fields_text_without_command_or_mounts() {
    let mut c = config();
    c.command = None;
    c.local_dir_mounts = None;
    c.name = "tab\there".to_string();
    assert_eq!(c.build_fields_text(), "{\"command\":null,\"local_dir_mounts\":null,\"name\":\"tab\\there\"}");
}

#[test]
fn build_hash_ignores_cosmetic_fields_and_is_stable() {
    let a = config();
    let mut b = config();
    b.description = Some("Something else".to_string());
    b.version = Some("2.0.0".to_string());
    b.plugins = None;
    b.deploy = None;
    assert_eq!(a.build_relevant_hash(), b.build_relevant_hash());
    assert_eq!(a.build_relevant_hash(), a.build_relevant_hash());
    assert_eq!(a.build_relevant_hash(), sha256_string(&a.build_fields_text()));
}

#[test]
fn build_hash_follows_build_fields() {
    let a = config();
    let mut b = config();
    b.command.as_mut().unwrap().script = "other.py".to_string();
    assert_ne!(a.build_relevant_hash(), b.build_relevant_hash());
    let mut c = config();
    c.name = "w2".to_string();
    assert_ne!(a.build_relevant_hash(), c.build_relevant_hash());
}
