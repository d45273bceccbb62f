use geoengine::cli_support::{
    command_line, missing_files, parse_env_file, parse_build_args, parse_env_vars, parse_mounts, shell_escape, short_hash, short_image_id,
    verify_arcgis_plugin_installed, verify_qgis_plugin_installed,
};

fn strings(v: &[&str]) -> Vec<String> {
    v.iter().map(|s| s.to_string()).collect()
}

#[test]
fn short_forms() {
    assert_eq!(short_hash(""), "(none)");
    assert_eq!(short_hash("abc"), "abc");
    assert_eq!(short_hash("0123456789abcdef"), "0123456789ab");
    assert_eq!(short_image_id("sha256:0123456789abcdef"), "0123456789ab");
    assert_eq!(short_image_id("sha256:"), "<none>");
    assert_eq!(short_image_id("abc"), "abc");
}

#[test]
fn shell_quoting() {
    assert_eq!(shell_escape("plain"), "plain");
    assert_eq!(shell_escape("a b"), "'a b'");
    assert_eq!(shell_escape("it's"), "'it'\\''s'");
    assert_eq!(shell_escape(""), "");
}

#[test]
fn env_var_arguments() {
    let v = parse_env_vars(&strings(&["A=1", "B=x=y"])).unwrap();
    assert_eq!(v, vec![("A".to_string(), "1".to_string()), ("B".to_string(), "x=y".to_string())]);
    assert_eq!(
        parse_env_vars(&strings(&["A=1", "oops"])).unwrap_err(),
        "Invalid environment variable format: oops. Expected KEY=VALUE"
    );
    assert_eq!(parse_build_args(&strings(&["X=1", "bad", "Y="])), vec![("X".to_string(), "1".to_string()), ("Y".to_string(), String::new())]);
}

#[test]
fn mount_arguments() {
    let v = parse_mounts(&strings(&["/h:/c", "/h2:/c2:ro", "/h3:/c3:rw"])).unwrap();
    assert_eq!(
        v,
        vec![
            ("/h".to_string(), "/c".to_string(), false),
            ("/h2".to_string(), "/c2".to_string(), true),
            ("/h3".to_string(), "/c3".to_string(), false),
        ]
    );
    assert_eq!(
        parse_mounts(&strings(&["/only"])).unwrap_err(),
        "Invalid mount format: /only. Expected host:container or host:container:ro"
    );
    assert!(parse_mounts(&strings(&["a:b:c:d"])).is_err());
}

#[test]
fn plugin_files() {
    let present = strings(&["GeoEngineTools.pyt", "x"]);
    assert_eq!(missing_files(&strings(&["GeoEngineTools.pyt", "geoengine_client.py"]), &present), strings(&["geoengine_client.py"]));
    assert!(!verify_arcgis_plugin_installed(&present));
    assert!(verify_arcgis_plugin_installed(&strings(&["geoengine_client.py", "GeoEngineTools.pyt"])));
    assert!(verify_qgis_plugin_installed(&strings(&["__init__.py", "geoengine_plugin.py", "geoengine_provider.py", "metadata.txt"])));
    assert!(!verify_qgis_plugin_installed(&strings(&["__init__.py"])));
}

#[test]
fn worker_command_lines() {
    assert_eq!(command_line("python", "main.py", &Vec::new()), "python main.py");
    assert_eq!(
        command_line("python", "main.py", &strings(&["--input", "/data/a b.tif", "--n", "3"])),
        "python main.py --input '/data/a b.tif' --n 3"
    );
}

#[test]
fn env_file_lines() {
    let lines = strings(&["# comment", "", "  A = 1 ", "B=\"two words\"", "C='x'", "no_equals", "D=a=b", "  # indented"]);
    assert_eq!(
        parse_env_file(&lines),
        vec![
            ("A".to_string(), "1".to_string()),
            ("B".to_string(), "two words".to_string()),
            ("C".to_string(), "x".to_string()),
            ("D".to_string(), "a=b".to_string()),
        ]
    );
}
