use kafka_console::resources::java_exe_for;
use kafka_console::settings::heap_from_field;
use kafka_console::error::SidecarError;
use kafka_console::resources::{
    has_jar_extension, java_bin_path, java_exe_name, kafbat_dir, resolve_layout,
};
use kafka_console::settings::{
    check_max_heap, heap_from_settings, settings_with_heap, DEFAULT_HEAP_MB, MAX_HEAP_MB,
    MIN_HEAP_MB,
};
use std::path::Path;

#[test]
fn default_when_missing() {
    assert_eq!(heap_from_settings(None), DEFAULT_HEAP_MB);
}

#[test]
fn roundtrip() {
    let text = settings_with_heap(None, 1024).unwrap();
    assert_eq!(heap_from_settings(Some(&text)), 1024);
}

#[test]
fn rejects_out_of_range() {
    assert!(settings_with_heap(None, 64).is_err());
    assert!(settings_with_heap(None, 99999).is_err());
}

#[test]
fn corrupt_file_falls_back_to_default() {
    assert_eq!(heap_from_settings(Some("not json")), DEFAULT_HEAP_MB);
}

#[test]
fn write_preserves_other_keys() {
    let text = settings_with_heap(Some(r#"{"theme":"dark"}"#), 1024).unwrap();
    let v: serde_json::Value = serde_json::from_str(&text).unwrap();
    assert_eq!(v.get("theme").and_then(|x| x.as_str()), Some("dark"));
    assert_eq!(v.get("maxHeapMb").and_then(|x| x.as_u64()), Some(1024));
}

#[test]
fn out_of_range_or_odd_values_read_as_default() {
    assert_eq!(heap_from_settings(Some(r#"{"maxHeapMb":64}"#)), DEFAULT_HEAP_MB);
    assert_eq!(heap_from_settings(Some(r#"{"maxHeapMb":99999}"#)), DEFAULT_HEAP_MB);
    assert_eq!(heap_from_settings(Some(r#"{"maxHeapMb":-5}"#)), DEFAULT_HEAP_MB);
    assert_eq!(heap_from_settings(Some(r#"{"maxHeapMb":"1024"}"#)), DEFAULT_HEAP_MB);
    assert_eq!(heap_from_settings(Some(r#"[1024]"#)), DEFAULT_HEAP_MB);
    assert_eq!(heap_from_settings(Some(r#"{"maxHeapMb":128}"#)), 128);
    assert_eq!(heap_from_settings(Some(r#"{"maxHeapMb":8192}"#)), 8192);
}

#[test]
fn heap_limits_are_checked_inclusively() {
    assert!(check_max_heap(MIN_HEAP_MB).is_ok());
    assert!(check_max_heap(MAX_HEAP_MB).is_ok());
    assert_eq!(
        check_max_heap(MIN_HEAP_MB - 1),
        Err("堆内存需在 128–8192 MB 之间".to_string())
    );
    assert!(check_max_heap(MAX_HEAP_MB + 1).is_err());
}

#[test]
fn rewriting_replaces_earlier_value_and_ignores_non_objects() {
    let text = settings_with_heap(Some(r#"{"maxHeapMb":256,"x":[1,2]}"#), 2048).unwrap();
    assert_eq!(heap_from_settings(Some(&text)), 2048);
    let v: serde_json::Value = serde_json::from_str(&text).unwrap();
    assert_eq!(v.get("x").and_then(|x| x.as_array()).map(|a| a.len()), Some(2));
    let fresh = settings_with_heap(Some("[1, 2]"), 512).unwrap();
    let v: serde_json::Value = serde_json::from_str(&fresh).unwrap();
    assert_eq!(v.as_object().map(|o| o.len()), Some(1));
    assert_eq!(heap_from_settings(Some(&fresh)), 512);
}

fn layout(dir: &str, with_java: bool, jars: Option<Vec<&str>>) -> Result<kafka_console::resources::Resources, SidecarError> {
    let java = java_bin_path(dir, java_exe_name());
    let entries = jars.map(|names| names.into_iter().map(String::from).collect());
    resolve_layout(dir, java, with_java, entries)
}

#[test]
fn resolves_full_layout() {
    let r = layout("/res", true, Some(vec!["api-1.5.0.jar"])).unwrap();
    assert!(Path::new(&r.java_bin).ends_with(java_exe_name()));
    assert!(r.jar.ends_with(".jar"));
    assert_eq!(r.jar, Path::new("/res").join("kafbat").join("api-1.5.0.jar").to_string_lossy());
}

#[test]
fn errors_when_java_missing() {
    assert!(matches!(
        layout("/res", false, Some(vec!["api-1.5.0.jar"])),
        Err(SidecarError::ResourceNotFound(_))
    ));
}

#[test]
fn errors_when_jar_missing() {
    assert!(matches!(
        layout("/res", true, Some(vec![])),
        Err(SidecarError::ResourceNotFound(_))
    ));
}

#[test]
fn missing_resources_are_named() {
    let java = java_bin_path("/res", java_exe_name());
    match layout("/res", false, None) {
        Err(SidecarError::ResourceNotFound(what)) => assert_eq!(what, java),
        _ => panic!("expected a missing java"),
    }
    match layout("/res", true, None) {
        Err(SidecarError::ResourceNotFound(what)) => assert_eq!(what, kafbat_dir("/res")),
        _ => panic!("expected a missing directory"),
    }
    match layout("/res", true, Some(vec!["README", ".jar", "x.jar.bak"])) {
        Err(SidecarError::ResourceNotFound(what)) => {
            assert_eq!(what, format!("{}/*.jar", kafbat_dir("/res")))
        }
        _ => panic!("expected no jar"),
    }
}

#[test]
fn first_jar_listed_is_taken() {
    let r = layout("/res", true, Some(vec!["notes.txt", "b.jar", "a.jar"])).unwrap();
    assert!(r.jar.ends_with("b.jar"));
}

#[test]
fn java_lives_under_jre_bin() {
    let expected = Path::new("/res").join("jre").join("bin").join(java_exe_name());
    assert_eq!(java_bin_path("/res", java_exe_name()), expected.to_string_lossy());
    let name = java_exe_name();
    assert!(name == "java" || name == "java.exe");
}

#[test]
fn jar_extension_matches_path_extension() {
    for name in ["a.jar", ".jar", "jar", "x.jar.bak", "x.JAR", "ab.jar", "..jar", "a.b.jar"] {
        let std_says = Path::new(name).extension().map(|x| x == "jar").unwrap_or(false);
        assert_eq!(has_jar_extension(name), std_says, "{name}");
    }
}

#[test]
fn jar_with_unusual_name_is_taken() {
    let r = layout("/res", true, Some(vec!["a:b.jar"])).unwrap();
    assert_eq!(r.jar, Path::new("/res").join("kafbat").join("a:b.jar").to_string_lossy());
}

#[test]
fn writing_heap_keeps_other_settings() {
    let text = settings_with_heap(Some(r#"{"theme":"dark","maxHeapMb":1024,"n":7}"#), 4096).unwrap();
    let v: serde_json::Value = serde_json::from_str(&text).unwrap();
    assert_eq!(v.get("theme").and_then(|x| x.as_str()), Some("dark"));
    assert_eq!(v.get("n").and_then(|x| x.as_u64()), Some(7));
    assert_eq!(v.get("maxHeapMb").and_then(|x| x.as_u64()), Some(4096));
    let fresh = settings_with_heap(None, 128).unwrap();
    assert_eq!(heap_from_settings(Some(&fresh)), 128);
}

#[test]
fn stored_number_selects_heap() {
    assert_eq!(heap_from_field(None), 512);
    assert_eq!(heap_from_field(Some(2048)), 2048);
    assert_eq!(heap_from_field(Some(128)), 128);
    assert_eq!(heap_from_field(Some(8192)), 8192);
    assert_eq!(heap_from_field(Some(127)), 512);
    assert_eq!(heap_from_field(Some(8193)), 512);
    assert_eq!(heap_from_field(Some(u64::MAX)), 512);
}

#[test]
fn floats_in_settings_survive_a_heap_write() {
    let before = r#"{"zoom":956.0342718892493,"ratio":0.1,"deep":{"a":[1.5e-300,2]}}"#;
    let text = settings_with_heap(Some(before), 1024).unwrap();
    let old: serde_json::Value = serde_json::from_str(before).unwrap();
    let new: serde_json::Value = serde_json::from_str(&text).unwrap();
    assert_eq!(new.get("zoom"), old.get("zoom"));
    assert_eq!(new.get("ratio"), old.get("ratio"));
    assert_eq!(new.get("deep"), old.get("deep"));
    assert_eq!(heap_from_settings(Some(&text)), 1024);
}

#[test]
fn java_name_follows_the_separator() {
    assert_eq!(java_exe_for('\\'), "java.exe");
    assert_eq!(java_exe_for('/'), "java");
    assert_eq!(java_exe_name(), java_exe_for(std::path::MAIN_SEPARATOR));
}
