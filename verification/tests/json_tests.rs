use gamepilot::instance::{
    curseforge_instance_id_from_text, curseforge_versions_from_text, modrinth_versions_from_text, version_id_from_text,
};
use gamepilot::jvm::{apply_json_jvm, JvmConfigFormat};

#[test]
fn curseforge_json_settings_are_written_and_recorded() {
    let content = r#"{"allocatedMemory": 4096, "javaArgsOverride": "-Xss1M", "name": "Pack"}"#;
    let (out, changes) =
        apply_json_jvm(content, JvmConfigFormat::CurseForge, Some(8192), Some("-XX:+UseG1GC".to_string()), None).unwrap();
    assert_eq!(
        changes,
        vec![
            ("allocatedMemory".to_string(), Some("4096".to_string()), "8192".to_string()),
            ("javaArgsOverride".to_string(), Some("-Xss1M".to_string()), "-XX:+UseG1GC".to_string()),
        ]
    );
    let v: serde_json::Value = serde_json::from_str(&out).unwrap();
    assert_eq!(v["allocatedMemory"], serde_json::Value::from(8192u32));
    assert_eq!(v["javaArgsOverride"], serde_json::Value::from("-XX:+UseG1GC"));
    assert_eq!(v["isCustomJavaArgs"], serde_json::Value::Bool(true));
    assert_eq!(v["name"], serde_json::Value::from("Pack"));
    assert!(v.get("javaPath").is_none());
}

#[test]
fn atlauncher_reads_old_memory_from_memory_key() {
    let content = r#"{"memory": 2048, "extraArguments": "-Dx=1"}"#;
    let (_, changes) =
        apply_json_jvm(content, JvmConfigFormat::AtLauncher, Some(6144), Some("-Dy=2".to_string()), None).unwrap();
    assert_eq!(changes[0], ("maximumMemory".to_string(), Some("2048".to_string()), "6144".to_string()));
    assert_eq!(changes[1], ("javaArguments".to_string(), Some("-Dx=1".to_string()), "-Dy=2".to_string()));
}

#[test]
fn old_value_of_the_other_kind_is_none() {
    let content = r#"{"allocatedMemory": "lots"}"#;
    let (_, changes) = apply_json_jvm(content, JvmConfigFormat::CurseForge, Some(4096), None, None).unwrap();
    assert_eq!(changes, vec![("allocatedMemory".to_string(), None, "4096".to_string())]);
}

#[test]
fn null_configuration_becomes_an_object() {
    let (out, changes) = apply_json_jvm("null", JvmConfigFormat::Modrinth, Some(4096), None, None).unwrap();
    assert_eq!(changes, vec![("maximumMemory".to_string(), None, "4096".to_string())]);
    let v: serde_json::Value = serde_json::from_str(&out).unwrap();
    assert_eq!(v["maximumMemory"], serde_json::Value::from(4096u32));
}

#[test]
fn non_object_configuration_is_refused() {
    let r = apply_json_jvm("[]", JvmConfigFormat::CurseForge, Some(4096), None, None);
    assert_eq!(r, Err("Failed to parse CurseForge config: the configuration is not a JSON object".to_string()));
    let (out, changes) = apply_json_jvm("[]", JvmConfigFormat::CurseForge, None, None, None).unwrap();
    assert!(changes.is_empty());
    assert_eq!(out, "[]");
}

#[test]
fn invalid_configuration_reports_the_parser_message() {
    let e = apply_json_jvm("{", JvmConfigFormat::AtLauncher, Some(4096), None, None).unwrap_err();
    assert!(e.starts_with("Failed to parse config: "));
    assert!(e.contains("EOF while parsing an object"));
}

#[test]
fn curseforge_manifest_versions() {
    let content = r#"{"gameVersion": "1.20.1", "baseModLoader": {"name": "forge-47.2.0", "minecraftVersion": "1.20.1"}}"#;
    let (mc, loader, lv) = curseforge_versions_from_text(content).unwrap();
    assert_eq!(mc.as_deref(), Some("1.20.1"));
    assert_eq!(loader.as_deref(), Some("Forge"));
    assert_eq!(lv.as_deref(), Some("forge-47.2.0"));
    let fallback = r#"{"baseModLoader": {"name": "neoforge-21.1.77", "minecraftVersion": "1.21.1", "forgeVersion": "21.1.77"}}"#;
    let (mc, loader, lv) = curseforge_versions_from_text(fallback).unwrap();
    assert_eq!(mc.as_deref(), Some("1.21.1"));
    assert_eq!(loader.as_deref(), Some("NeoForge"));
    assert_eq!(lv.as_deref(), Some("21.1.77"));
    let present_null = r#"{"gameVersion": null, "baseModLoader": {"minecraftVersion": "1.21.1"}}"#;
    assert_eq!(curseforge_versions_from_text(present_null).unwrap().0, None);
    assert!(curseforge_versions_from_text("not json").is_none());
}

#[test]
fn modrinth_profile_versions() {
    let content = r#"{"game_version": "1.21.1", "loader": "fabric", "loader_version": "0.16.5"}"#;
    let (mc, loader, lv) = modrinth_versions_from_text(content).unwrap();
    assert_eq!(mc.as_deref(), Some("1.21.1"));
    assert_eq!(loader.as_deref(), Some("Fabric"));
    assert_eq!(lv.as_deref(), Some("0.16.5"));
    assert!(modrinth_versions_from_text("").is_none());
}

#[test]
fn version_json_id() {
    assert_eq!(version_id_from_text(r#"{"id": "1.20.4"}"#), Some(Some("1.20.4".to_string())));
    assert_eq!(version_id_from_text(r#"{"id": 5}"#), Some(None));
    assert_eq!(version_id_from_text("{"), None);
}

#[test]
fn curseforge_instance_id_prefers_addon_id() {
    let content = r#"{"installedModpack": {"addonID": 925200}}"#;
    assert_eq!(curseforge_instance_id_from_text(content, Some("Pack".to_string())), Some("925200".to_string()));
    assert_eq!(curseforge_instance_id_from_text("{}", Some("Pack".to_string())), Some("Pack".to_string()));
    assert_eq!(curseforge_instance_id_from_text("{", Some("Pack".to_string())), None);
}
