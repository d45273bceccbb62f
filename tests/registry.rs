use geoengine::apply::{applied_state, plan_registration, plugin_step, resolved_plugin_flag, PluginStep, Registration};
use geoengine::settings::{get_settings_file, Settings};
use geoengine::yaml_tree::{set_plugin_flag, YamlValue};

#[test]
fn register_lookup_and_unregister() {
    let mut s = Settings::new();
    s.register_worker("w1", "/a").unwrap();
    s.register_worker("w2", "/b").unwrap();
    s.register_worker("w1", "/c").unwrap();
    assert_eq!(s.list_workers(), vec![("w1".to_string(), "/c".to_string()), ("w2".to_string(), "/b".to_string())]);
    assert_eq!(s.get_worker_path("w1").unwrap(), "/c");
    assert_eq!(
        s.get_worker_path("w9").unwrap_err(),
        "Worker 'w9' not found. Run 'geoengine apply' to register it."
    );
    assert_eq!(s.find_worker_by_path("/b"), Some(("w2".to_string(), "/b".to_string())));
    assert_eq!(s.find_worker_by_path("/a"), None);
    s.unregister_worker("w1").unwrap();
    assert_eq!(s.unregister_worker("w1").unwrap_err(), "Worker 'w1' is not registered");
    assert_eq!(s.list_workers().len(), 1);
}

#[test]
fn settings_file_location() {
    assert_eq!(get_settings_file("/home/u/.geoengine"), "/home/u/.geoengine/settings.yaml");
}

#[test]
fn registration_plans() {
    let mut s = Settings::new();
    s.register_worker("w1", "/a").unwrap();
    assert!(matches!(plan_registration(&s, "/a", "w1"), Registration::Keep(n) if n == "w1"));
    assert!(matches!(plan_registration(&s, "/a", "w2"), Registration::Rename { from, to } if from == "w1" && to == "w2"));
    assert!(matches!(plan_registration(&s, "/z", "w1"), Registration::Relocate(n) if n == "w1"));
    assert!(matches!(plan_registration(&s, "/z", "w3"), Registration::New(n) if n == "w3"));
}

#[test]
fn plugin_steps() {
    assert_eq!(plugin_step(Some(true), Some(true), false), PluginStep::Unchanged);
    assert_eq!(plugin_step(None, Some(false), false), PluginStep::Unchanged);
    assert_eq!(plugin_step(Some(true), None, false), PluginStep::OfferInstall);
    assert_eq!(plugin_step(Some(true), None, true), PluginStep::AlreadyInstalled);
    assert_eq!(plugin_step(Some(false), Some(true), true), PluginStep::Disabled);
    assert!(!resolved_plugin_flag(Some(true), PluginStep::OfferInstall, false));
    assert!(resolved_plugin_flag(Some(true), PluginStep::AlreadyInstalled, false));
}

#[test]
fn apply_keeps_build_fields() {
    let first = applied_state("w1", None, "h1".to_string(), "b1".to_string(), true, false, "t1".to_string());
    assert_eq!(first.image_tag, None);
    let mut built = first;
    built.image_tag = Some("geoengine-local/w1:1.0.0".to_string());
    built.pushed_build_hash = Some("p".to_string());
    let second = applied_state("w1", Some(&built), "h2".to_string(), "b2".to_string(), false, false, "t2".to_string());
    assert_eq!(second.image_tag, built.image_tag);
    assert_eq!(second.pushed_build_hash.as_deref(), Some("p"));
    assert_eq!(second.yaml_hash.as_deref(), Some("h2"));
    assert_eq!(second.plugins_arcgis, Some(false));
    let renamed = second.renamed("w2");
    assert_eq!(renamed.worker_name, "w2");
    assert_eq!(renamed.yaml_hash, second.yaml_hash);
}

#[test]
fn plugin_flag_in_document_tree() {
    let key = |s: &str| YamlValue::Str(s.to_string());
    let mut doc = YamlValue::Mapping(vec![
        (key("name"), key("w1")),
        (key("plugins"), YamlValue::Mapping(vec![(key("arcgis"), YamlValue::Bool(true)), (key("extra"), YamlValue::Number("1".to_string()))])),
        (key("unknown"), YamlValue::Sequence(vec![YamlValue::Null])),
    ]);
    set_plugin_flag(&mut doc, "arcgis", false).unwrap();
    set_plugin_flag(&mut doc, "qgis", true).unwrap();
    let YamlValue::Mapping(es) = &doc else { panic!("not a mapping") };
    assert_eq!(es.len(), 3);
    let YamlValue::Mapping(ps) = &es[1].1 else { panic!("plugins not a mapping") };
    assert_eq!(ps.len(), 3);
    assert!(matches!(ps[0].1, YamlValue::Bool(false)));
    assert!(matches!(&ps[2], (YamlValue::Str(k), YamlValue::Bool(true)) if k == "qgis"));
    assert!(matches!(&es[2].1, YamlValue::Sequence(v) if v.len() == 1));

    let mut bare = YamlValue::Mapping(vec![(key("name"), key("w"))]);
    set_plugin_flag(&mut bare, "qgis", false).unwrap();
    let YamlValue::Mapping(es) = &bare else { panic!("not a mapping") };
    assert_eq!(es.len(), 2);

    let mut wrong = YamlValue::Mapping(vec![(key("plugins"), key("yes"))]);
    assert_eq!(set_plugin_flag(&mut wrong, "qgis", true).unwrap_err(), "Expected 'plugins' to be a mapping in geoengine.yaml");
    let mut scalar = YamlValue::Null;
    assert_eq!(set_plugin_flag(&mut scalar, "qgis", true).unwrap_err(), "Expected top-level mapping in geoengine.yaml");
}
