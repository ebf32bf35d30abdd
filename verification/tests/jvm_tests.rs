use gamepilot::jvm::{
    apply_prism_jvm, config_file_name, config_format, json_jvm_edits, read_cfg_value,
    upsert_cfg_value, old_json_value, JsonEditValue, JsonScalar, JvmConfigFormat,
};

#[test]
fn upsert_then_read_gives_value() {
    let mut lines = vec!["InstanceType=OneSix".to_string(), "MaxMemAlloc=2048".to_string()];
    upsert_cfg_value(&mut lines, "MaxMemAlloc", "8192");
    assert_eq!(read_cfg_value(&lines, "MaxMemAlloc").as_deref(), Some("8192"));
    assert_eq!(lines.len(), 2);
    upsert_cfg_value(&mut lines, "JvmArgs", "-XX:+UseG1GC");
    assert_eq!(lines[2], "JvmArgs=-XX:+UseG1GC");
    assert_eq!(read_cfg_value(&lines, "InstanceType").as_deref(), Some("OneSix"));
    assert_eq!(read_cfg_value(&lines, "Missing"), None);
}

#[test]
fn prism_config_is_rewritten() {
    let (text, changes) = apply_prism_jvm(
        "InstanceType=OneSix\nMaxMemAlloc=2048\r\n",
        Some(8192),
        Some(4096),
        Some("-XX:+UseG1GC".to_string()),
        None,
    );
    assert_eq!(text, "InstanceType=OneSix\nMaxMemAlloc=8192\nMinMemAlloc=4096\nJvmArgs=-XX:+UseG1GC\n");
    assert_eq!(changes.len(), 3);
    assert_eq!(changes[0], ("MaxMemAlloc".to_string(), Some("2048".to_string()), "8192".to_string()));
    assert_eq!(changes[1], ("MinMemAlloc".to_string(), None, "4096".to_string()));
}

#[test]
fn config_format_order_and_error() {
    assert_eq!(config_format(true, true, true, true).unwrap(), JvmConfigFormat::Prism);
    assert_eq!(config_format(false, false, true, true).unwrap(), JvmConfigFormat::AtLauncher);
    assert_eq!(config_file_name(JvmConfigFormat::Modrinth), "profile.json");
    let err = config_format(false, false, false, false).unwrap_err();
    assert!(err.starts_with("No recognized launcher config found."));
}

#[test]
fn json_edits_per_format() {
    let cf = json_jvm_edits(JvmConfigFormat::CurseForge, Some(8192), Some("-Xss1m".to_string()), Some("java".to_string()));
    let keys: Vec<&str> = cf.iter().map(|e| e.key.as_str()).collect();
    assert_eq!(keys, vec!["allocatedMemory", "javaArgsOverride", "isCustomJavaArgs", "javaPath", "isCustomJavaPath"]);
    assert!(matches!(cf[0].value, JsonEditValue::Number(8192)));
    assert!(matches!(cf[2].value, JsonEditValue::Flag(true)));
    assert!(!cf[2].recorded);
    let mr = json_jvm_edits(JvmConfigFormat::Modrinth, Some(4096), None, Some("java".to_string()));
    assert_eq!(mr.len(), 1);
    assert_eq!(mr[0].old_keys, vec!["memory".to_string(), "maximumMemory".to_string()]);
    assert!(json_jvm_edits(JvmConfigFormat::Prism, Some(1), None, None).is_empty());
}

#[test]
fn old_json_value_takes_the_first_present_key() {
    let found = vec![None, Some(JsonScalar::Number(4096)), Some(JsonScalar::Number(8192))];
    assert_eq!(old_json_value(&found, true), Some("4096".to_string()));
    assert_eq!(old_json_value(&found, false), None);
    let text = vec![Some(JsonScalar::Text("-Xmx4G".to_string())), Some(JsonScalar::Text("x".to_string()))];
    assert_eq!(old_json_value(&text, false), Some("-Xmx4G".to_string()));
    assert_eq!(old_json_value(&vec![Some(JsonScalar::Other), Some(JsonScalar::Number(1))], true), None);
    assert_eq!(old_json_value(&vec![None, None], true), None);
}
