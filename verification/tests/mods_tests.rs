use gamepilot::mods::{
    analyze_mods, detect_conflicts_and_duplicates, detect_performance_mods, extract_mod_id,
    extract_version, find_missing_performance_mods, get_metadata_version, load_metadata,
    normalized_mod_id, ModInfo,
};

fn info(file: &str, id: Option<&str>, version: Option<&str>, size: u64) -> ModInfo {
    ModInfo {
        file_name: file.into(),
        mod_id: id.map(|s| s.to_string()),
        display_name: None,
        version: version.map(|s| s.to_string()),
        size_bytes: size,
    }
}

#[test]
fn get_metadata_version_returns_version() {
    let version = get_metadata_version();
    assert_eq!(version, "1.0.0");
}

#[test]
fn detects_sodium_optifine_conflict() {
    let mods = vec![
        info("sodium-0.5.8.jar", Some("sodium"), Some("0.5.8"), 1000),
        info("OptiFine_1.20.1_HD.jar", Some("optifine"), None, 2000),
    ];
    let (conflicts, _) = detect_conflicts_and_duplicates(&mods);
    assert!(conflicts.iter().any(|c| c.mod_a == "sodium" && c.mod_b == "optifine"));
}

#[test]
fn detects_duplicate_rendering_group() {
    let mods = vec![
        info("sodium-0.5.8.jar", Some("sodium"), Some("0.5.8"), 1000),
        info("embeddium-1.0.jar", Some("embeddium"), Some("1.0"), 2000),
    ];
    let (_, duplicates) = detect_conflicts_and_duplicates(&mods);
    assert!(duplicates.iter().any(|d| d.category == "rendering_optimizer"));
}

#[test]
fn no_conflicts_for_compatible_mods() {
    let mods = vec![
        info("modernfix-5.0.jar", Some("modernfix"), Some("5.0"), 1000),
        info("ferritecore-6.0.jar", Some("ferritecore"), Some("6.0"), 1000),
    ];
    let (conflicts, duplicates) = detect_conflicts_and_duplicates(&mods);
    assert!(conflicts.is_empty());
    assert!(duplicates.is_empty());
}

#[test]
fn metadata_loads_successfully() {
    let db = load_metadata();
    assert_eq!(db.version, "1.0.0");
    assert!(db.mods.len() >= 30);
    assert!(!db.known_conflicts.is_empty());
    assert!(!db.duplicate_groups.is_empty());
}

#[test]
fn jar_names_give_id_and_version() {
    assert_eq!(extract_mod_id("Sodium-Fabric-0.5.8.jar"), Some("sodium".to_string()));
    assert_eq!(extract_version("Sodium-Fabric-0.5.8.jar"), Some("0.5.8".to_string()));
    assert_eq!(extract_mod_id("OptiFine_HD.zip"), Some("optifine_hd".to_string()));
    assert_eq!(extract_version("OptiFine_HD.zip"), None);
    assert_eq!(extract_version("a.jar.jar"), None);
    let m = info("Lithium-1.2.jar.disabled", None, None, 0);
    assert_eq!(normalized_mod_id(&m), Some("lithium-1.2.jar".to_string()));
}

#[test]
fn duplicates_use_display_names() {
    let mods = vec![
        info("a.jar", Some("sodium"), None, 1),
        info("b.jar", Some("embeddium"), None, 1),
    ];
    let (_, duplicates) = detect_conflicts_and_duplicates(&mods);
    assert_eq!(duplicates.len(), 1);
    assert_eq!(duplicates[0].installed_mods, vec!["Sodium".to_string(), "Embeddium".to_string()]);
}

#[test]
fn performance_mods_are_found_once() {
    let mods = vec![
        info("entityculling-1.0.jar", None, None, 1),
        info("entity_culling-2.0.jar", None, None, 1),
        info("Sodium-0.5.jar", None, None, 1),
    ];
    let found = detect_performance_mods(&mods);
    assert_eq!(found, vec!["Entity Culling".to_string(), "Sodium".to_string()]);
    let missing = find_missing_performance_mods(&found, Some("fabric"));
    let names: Vec<&str> = missing.iter().map(|m| m.mod_name.as_str()).collect();
    assert_eq!(names, vec!["ModernFix", "FerriteCore", "ImmediatelyFast", "Clumps", "Distant Horizons"]);
    assert!(find_missing_performance_mods(&found, Some("quilt")).is_empty());
}

#[test]
fn mods_folder_listing_is_analysed() {
    let entries = vec![
        ("sodium-0.5.8.jar".to_string(), 1000u64),
        ("readme.txt".to_string(), 50u64),
        ("optifine-1.0.zip".to_string(), 2000u64),
    ];
    let a = analyze_mods(&entries, None);
    assert_eq!(a.total_mods, 2);
    assert_eq!(a.total_size_bytes, 3000);
    assert_eq!(a.mods[1].mod_id.as_deref(), Some("optifine"));
    assert_eq!(a.mods[1].version.as_deref(), Some("1.0"));
    assert_eq!(a.conflicts.len(), 1);
    assert_eq!(a.detected_performance_mods, vec!["Sodium".to_string()]);
    assert_eq!(a.missing_performance_mods.len(), 6);
}

#[test]
fn analyze_mods_returns_empty_for_nonexistent_path() {
    let analysis = analyze_mods(&Vec::new(), None);
    assert_eq!(analysis.total_mods, 0);
    assert!(analysis.conflicts.is_empty());
    assert!(analysis.duplicates.is_empty());
}

fn listing(names: &[&str]) -> Vec<(String, u64)> {
    names.iter().map(|n| (n.to_string(), 1000u64)).collect()
}

// A NeoForge pack of ten mods, three of them performance mods.
#[test]
fn test_parse_prism_mods() {
    let entries = listing(&[
        "modernfix-neoforge-5.19.4.jar",
        "ferritecore-7.0.2-neoforge.jar",
        "sodium-neoforge-0.6.0.jar",
        "jei-1.21.1-neoforge-19.8.jar",
        "create-1.21.1-6.0.jar",
        "jade-1.21.1-neoforge-15.0.jar",
        "appleskin-neoforge-mc1.21-3.0.5.jar",
        "waystones-neoforge-1.21.1-21.1.jar",
        "balm-neoforge-1.21.1-21.0.jar",
        "curios-neoforge-9.0.jar",
    ]);
    let analysis = analyze_mods(&entries, Some("NeoForge"));
    assert_eq!(analysis.total_mods, 10);
    assert!(analysis.detected_performance_mods.contains(&"ModernFix".to_string()), "Should detect ModernFix");
    assert!(analysis.detected_performance_mods.contains(&"FerriteCore".to_string()), "Should detect FerriteCore");
    assert!(analysis.detected_performance_mods.contains(&"Sodium".to_string()), "Should detect Sodium");
}

// A Fabric folder of five mods with Sodium and Lithium.
#[test]
fn test_manual_folder_mod_analysis() {
    let entries = listing(&[
        "sodium-fabric-0.5.11.jar",
        "lithium-fabric-0.12.1.jar",
        "fabric-api-0.92.2.jar",
        "iris-1.7.2.jar",
        "modmenu-7.2.2.jar",
    ]);
    let analysis = analyze_mods(&entries, Some("Fabric"));
    assert_eq!(analysis.total_mods, 5);
    assert!(analysis.detected_performance_mods.contains(&"Sodium".to_string()), "Should detect Sodium");
    assert!(analysis.detected_performance_mods.contains(&"Lithium".to_string()), "Should detect Lithium");
    let missing_names: Vec<&str> = analysis.missing_performance_mods.iter().map(|m| m.mod_name.as_str()).collect();
    assert!(missing_names.contains(&"ModernFix"), "Should recommend ModernFix (missing)");
    assert!(missing_names.contains(&"FerriteCore"), "Should recommend FerriteCore (missing)");
}

#[test]
fn lowered_names_and_ids_are_matched() {
    let found = gamepilot::mods::scan_lowered_name(Vec::new(), "sodium-fabric-0.5.8.jar");
    assert_eq!(found, vec!["Sodium".to_string()]);
    let again = gamepilot::mods::scan_lowered_name(found, "sodium-extra.jar");
    assert_eq!(again, vec!["Sodium".to_string()]);
    let ids = vec!["sodium".to_string(), "optifine".to_string()];
    let (conflicts, dups) = gamepilot::mods::conflicts_and_duplicates_of_ids(&ids);
    assert_eq!(conflicts.len(), 1);
    assert_eq!(dups.len(), 1);
}

#[test]
fn knowledge_base_holds_every_field_of_a_mod() {
    let db = gamepilot::mods::load_metadata();
    assert_eq!(db.mods.len(), 30);
    let sodium = &db.mods[0];
    assert_eq!(sodium.id, "sodium");
    assert_eq!(sodium.name, "Sodium");
    assert_eq!(sodium.loaders, vec!["fabric".to_string(), "neoforge".to_string()]);
    assert_eq!(sodium.side, "client");
    assert_eq!(sodium.category, "rendering");
    let impact = sodium.performance_impact.as_ref().unwrap();
    assert_eq!((impact.memory.as_str(), impact.startup.as_str(), impact.runtime.as_str()), ("low", "low", "high"));
    assert_eq!(sodium.safe_removal, None);
    assert_eq!(sodium.modrinth_slug, Some("sodium".to_string()));
    assert_eq!(sodium.description, "Modern rendering engine that greatly improves frame rates.");
    let optifine = db.mods.iter().find(|m| m.id == "optifine").unwrap();
    assert!(optifine.performance_impact.is_none());
    assert_eq!(optifine.modrinth_slug, None);
}
