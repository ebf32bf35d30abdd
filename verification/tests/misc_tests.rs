use gamepilot::health::{risk_label, score_modpack_health};
use gamepilot::instance::{instance_id_from_path, normalize_loader_name, parse_instance_cfg, versions_from_mmc_components};
use gamepilot::mods::ModAnalysis;
use gamepilot::platform::{discover_launchers, java_from_version_output, LauncherType};

#[test]
fn java_version_output_is_read() {
    let out = "openjdk version \"21.0.2\" 2024-01-16\nOpenJDK Runtime Environment Temurin-21.0.2+13 (build 21.0.2+13)\nOpenJDK 64-Bit Server VM Temurin-21.0.2+13 (build 21.0.2+13, mixed mode)\n";
    let j = java_from_version_output("/usr/bin/java".to_string(), out);
    assert_eq!(j.version.as_deref(), Some("21.0.2"));
    assert_eq!(j.vendor.as_deref(), Some("OpenJDK Runtime Environment Temurin-21.0.2+13 (build 21.0.2+13)"));
    assert!(j.is_64bit);
    let empty = java_from_version_output("x".to_string(), "");
    assert!(empty.version.is_none() && empty.vendor.is_none() && !empty.is_64bit);
}

#[test]
fn launchers_found_in_order() {
    let c = vec![
        ("/a".to_string(), "Prism Launcher".to_string(), LauncherType::PrismLauncher, false),
        ("/b".to_string(), "MultiMC".to_string(), LauncherType::MultiMC, true),
    ];
    let l = discover_launchers(&c);
    assert_eq!(l.len(), 1);
    assert_eq!(l[0].path, "/b");
    assert_eq!(l[0].launcher_type.to_display_string(), "MultiMC");
    assert_eq!(LauncherType::Modrinth.to_display_string(), "Modrinth App");
}

#[test]
fn instance_cfg_and_loaders() {
    let (java, args, xmx, xms) = parse_instance_cfg("JavaPath=/j\nJvmArgs = -Xss1m \nMaxMemAlloc=8192\nMinMemAlloc=lots\n");
    assert_eq!(java.as_deref(), Some("/j"));
    assert_eq!(args.as_deref(), Some("-Xss1m"));
    assert_eq!(xmx, Some(8192));
    assert_eq!(xms, None);
    assert_eq!(normalize_loader_name("neoforge-21.1"), "NeoForge");
    assert_eq!(normalize_loader_name("Forge 47"), "Forge");
    assert_eq!(normalize_loader_name("vanilla"), "vanilla");
    let comps = vec![
        (Some("net.minecraft".to_string()), Some("1.21.1".to_string())),
        (Some("net.neoforged".to_string()), Some("21.1.77".to_string())),
        (None, Some("ignored".to_string())),
    ];
    let (mc, loader, lv) = versions_from_mmc_components(&comps);
    assert_eq!(mc.as_deref(), Some("1.21.1"));
    assert_eq!(loader.as_deref(), Some("NeoForge"));
    assert_eq!(lv.as_deref(), Some("21.1.77"));
}

#[test]
fn instance_id_is_stable_hex() {
    let a = instance_id_from_path("/games/pack");
    assert_eq!(a, instance_id_from_path("/games/pack"));
    assert!(a.starts_with("inst-"));
    assert_eq!(a.len(), 5 + 24);
    assert!(a[5..].chars().all(|c| c.is_ascii_hexdigit() && !c.is_ascii_uppercase()));
    assert_ne!(a, instance_id_from_path("/games/other"));
    assert_eq!(instance_id_from_path(""), "inst-e3b0c44298fc1c149afbf4c8");
}

#[test]
fn health_scores() {
    assert_eq!(risk_label(80), "Good");
    assert_eq!(risk_label(101), "High Risk");
    assert_eq!(risk_label(45), "Needs Attention");
    let a = ModAnalysis {
        total_mods: 40,
        mods: Vec::new(),
        detected_performance_mods: vec!["FerriteCore".to_string(), "Sodium".to_string()],
        missing_performance_mods: Vec::new(),
        conflicts: Vec::new(),
        duplicates: Vec::new(),
        total_size_bytes: 300 * 1024 * 1024,
    };
    let h = score_modpack_health(&a, false);
    assert_eq!(h.memory_risk.score, 95);
    assert_eq!(h.memory_risk.detail, "40 mods, 300 MB total, FerriteCore installed");
    assert_eq!(h.rendering_risk.score, 90);
    assert_eq!(h.startup_risk.score, 80);
    assert_eq!(h.dependency_risk.score, 80);
    assert_eq!(h.optimization_score.score, 95);
    assert_eq!(h.overall_score, (95 + 90 + 80 + 80 + 95) / 5);
    assert_eq!(h.summary, "This modpack is well-optimized with low risk.");
    let h2 = score_modpack_health(&a, true);
    assert_eq!(h2.overall_score, h.overall_score - 10);
}

#[test]
fn content_hash_is_hex_sha256() {
    assert_eq!(
        gamepilot::instance::content_hash(b""),
        "e3b0c44298fc1c149afbf4c8996fb92427ae41e4649b934ca495991b7852b855"
    );
    assert_eq!(
        gamepilot::instance::content_hash(b"abc"),
        "ba7816bf8f01cfea414140de5dae2223b00361a396177a9cb410ff61f20015ad"
    );
}

#[test]
fn device_id_hashes_host_then_cpu() {
    // SHA-256("abc") begins ba7816bf8f01cfea.
    assert_eq!(gamepilot::instance::device_id("a", "bc"), "dev-ba7816bf8f01cfea");
    assert_eq!(gamepilot::instance::device_id("ab", "c"), "dev-ba7816bf8f01cfea");
    assert_ne!(gamepilot::instance::device_id("pc", "cpu"), gamepilot::instance::device_id("cpu", "pc"));
}

#[test]
fn rollback_point_records_the_content_hash() {
    let rp = gamepilot::jvm::rollback_point("rec-1", "/x/instance.cfg".to_string(), b"abc", "/x/b.bak".to_string());
    assert_eq!(rp.recommendation_id, "rec-1");
    assert_eq!(rp.file_path, "/x/instance.cfg");
    assert_eq!(rp.backup_path, "/x/b.bak");
    assert_eq!(rp.original_hash, gamepilot::instance::content_hash(b"abc"));
    assert_eq!(rp.id.len(), 36);
    assert!(rp.created_at.ends_with("+00:00"));
}
