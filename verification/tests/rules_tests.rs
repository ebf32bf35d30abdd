use gamepilot::instance::MinecraftInstance;
use gamepilot::mods::ModAnalysis;
use gamepilot::rules::{check_recommendation_status, generate_recommendations, optimized_jvm_flags, recommend_xmx_mb};

fn instance(mods: usize, xmx: Option<u32>, version: &str, loader: &str, args: Option<&str>) -> MinecraftInstance {
    MinecraftInstance {
        id: "test".into(),
        name: "Test Instance".into(),
        path: "/test".into(),
        launcher: "Prism Launcher".into(),
        minecraft_version: Some(version.into()),
        loader_type: Some(loader.into()),
        loader_version: Some("21.1.77".into()),
        mods_path: None,
        mod_count: mods,
        config_path: None,
        resource_packs_path: None,
        shader_packs_path: None,
        java_path: None,
        jvm_args: args.map(|s| s.to_string()),
        xmx_mb: xmx,
        xms_mb: None,
    }
}

#[test]
fn xmx_matches_float_scaling() {
    for ram in [4096u64, 8192, 16384, 32768, 65536] {
        for mods in [10usize, 150, 250] {
            let base: u32 = match ram {
                0..=7168 => 4096,
                7169..=12288 => 6144,
                12289..=20480 => 8192,
                20481..=36864 => 10240,
                _ => 12288,
            };
            let raised = if mods > 200 {
                (base as f64 * 1.3) as u32
            } else if mods > 100 {
                (base as f64 * 1.15) as u32
            } else {
                base
            };
            // The top of the RAM guidance range for the machine's memory.
            let top: u32 = match ram {
                0..=7168 => u32::MAX,
                7169..=12288 => 6144,
                12289..=20480 => 10240,
                20481..=36864 => 12288,
                _ => 16384,
            };
            assert_eq!(recommend_xmx_mb(ram, mods), raised.min(top));
        }
    }
}

#[test]
fn recommendations_generation() {
    let inst = instance(250, Some(4096), "1.21.1", "NeoForge", None);
    let recs = generate_recommendations(16384, &inst, None);
    assert!(recs.len() >= 3, "Should generate at least 3 recommendations, got {}", recs.len());
    assert!(recs.iter().any(|r| r.category == "java_jvm"), "Should have JVM recommendations");
    assert_eq!(recs[0].title, "Increase RAM allocation from 4096 MB to 10240 MB");
    assert_eq!(
        recs[0].description,
        "Your system has 16 GB RAM. With 250 mods installed, allocating 10240 MB is recommended. Current allocation of 4096 MB may cause stuttering and out-of-memory crashes."
    );
    assert_eq!(recs[0].evidence, "System RAM: 16384 MB, Current Xmx: 4096 MB, Mod count: 250");
    assert_eq!(recs[0].action_data.as_deref(), Some("-Xmx10240m -Xms5120m"));
    assert_eq!(recs[1].action_data.as_deref(), Some(optimized_jvm_flags().as_str()));
    assert_eq!(recs[2].title, "Ensure Java 21 is installed");
}

#[test]
fn ram_gb_rounds_half_to_even() {
    for ram in [1536u64, 2560, 1535, 1537, 16000, 16384] {
        let inst = instance(10, None, "1.20.1", "Forge", Some("-XX:+UseG1GC"));
        let recs = generate_recommendations(ram, &inst, None);
        let expected = format!("Your system has {:.0} GB RAM.", ram as f64 / 1024.0);
        assert!(recs[0].description.starts_with(&expected), "{} vs {}", recs[0].description, expected);
        assert_eq!(recs.len(), 1);
    }
}

#[test]
fn heavy_pack_sizes_match_float_formatting() {
    for bytes in [0u64, 524288, 1572864, 104857600, 123456789, 52428800 * 3 + 104857] {
        let a = ModAnalysis {
            total_mods: 201,
            mods: Vec::new(),
            detected_performance_mods: Vec::new(),
            missing_performance_mods: Vec::new(),
            conflicts: Vec::new(),
            duplicates: Vec::new(),
            total_size_bytes: bytes,
        };
        let inst = instance(201, Some(8000), "1.19", "Forge", Some("-XX:+UseZGC"));
        let recs = generate_recommendations(16384, &inst, Some(&a));
        let last = recs.last().unwrap();
        let mb = bytes as f64 / (1024.0 * 1024.0);
        assert_eq!(last.evidence, format!("Mod count: 201, Total size: {:.1} MB", mb));
        assert!(last.description.contains(&format!("totaling {:.0} MB", mb)));
        assert!(last.action_type.is_none());
    }
}

#[test]
fn test_recommendations_generation() {
    // A machine with 16384 MB of memory and an instance of 250 mods with no heap set.
    let inst = instance(250, None, "1.21.1", "NeoForge", None);
    let recs = generate_recommendations(16384, &inst, None);
    assert!(recs.len() >= 3, "Should generate at least 3 recommendations, got {}", recs.len());
    let categories: Vec<&str> = recs.iter().map(|r| r.category.as_str()).collect();
    assert!(categories.contains(&"java_jvm"), "Should have JVM recommendations");
}

#[test]
fn recommendation_status_is_checked() {
    assert!(check_recommendation_status("applied").is_ok());
    assert!(check_recommendation_status("ignored_always").is_ok());
    assert_eq!(check_recommendation_status("done"), Err("Invalid status: done".to_string()));
    assert_eq!(check_recommendation_status("Applied"), Err("Invalid status: Applied".to_string()));
}

#[test]
fn xmx_stays_within_ram_guidance() {
    for mods in [0usize, 50, 101, 150, 201, 400] {
        let x8 = recommend_xmx_mb(8192, mods);
        assert!((5120..=6144).contains(&x8));
        let x16 = recommend_xmx_mb(16384, mods);
        assert!((8192..=10240).contains(&x16));
        let x32 = recommend_xmx_mb(32768, mods);
        assert!((10240..=12288).contains(&x32));
        let x64 = recommend_xmx_mb(65536, mods);
        assert!((12288..=16384).contains(&x64));
    }
    assert_eq!(recommend_xmx_mb(8192, 101), 6144);
    assert_eq!(recommend_xmx_mb(32768, 150), 11776);
    assert_eq!(recommend_xmx_mb(4096, 250), 5324);
}

#[test]
fn recommendation_ids_are_uuid_v4() {
    let inst = instance(250, Some(4096), "1.21.1", "NeoForge", None);
    for r in generate_recommendations(16384, &inst, None) {
        let id = r.id.as_bytes();
        assert_eq!(id.len(), 36);
        assert_eq!(id[14], b'4');
        assert!(matches!(id[19], b'8' | b'9' | b'a' | b'b'));
        for (i, c) in id.iter().enumerate() {
            if [8, 13, 18, 23].contains(&i) {
                assert_eq!(*c, b'-');
            } else {
                assert!(c.is_ascii_hexdigit() && !c.is_ascii_uppercase());
            }
        }
    }
}

#[test]
fn generators_keep_earlier_recommendations() {
    let inst = instance(250, None, "1.20.1", "forge", None);
    let mut recs = Vec::new();
    gamepilot::rules::generate_ram_recommendation(16384, &inst, &mut recs);
    assert_eq!(recs.len(), 1);
    let first_id = recs[0].id.clone();
    let first_title = recs[0].title.clone();
    gamepilot::rules::generate_jvm_flag_recommendations(&inst, &mut recs);
    gamepilot::rules::generate_java_version_recommendation(&inst, &mut recs);
    assert!(recs.len() >= 2);
    assert_eq!(recs[0].id, first_id);
    assert_eq!(recs[0].title, first_title);
}
