use gamepilot::instance::MinecraftInstance;
use gamepilot::rules::Recommendation;
use gamepilot::sharing::{format_for_discord, generate_profile};

fn rec(category: &str, action: Option<&str>, title: &str) -> Recommendation {
    Recommendation {
        id: "x".into(),
        category: category.into(),
        severity: "info".into(),
        confidence: "high".into(),
        title: title.into(),
        description: "why".into(),
        evidence: "e".into(),
        expected_impact: "i".into(),
        risk_level: "low".into(),
        action_type: action.map(|s| s.to_string()),
        action_data: Some("https://modrinth.com/mod/x".into()),
    }
}

#[test]
fn profile_and_discord_message() {
    let inst = MinecraftInstance {
        id: "i".into(),
        name: "My Pack".into(),
        path: "/p".into(),
        launcher: "Prism Launcher".into(),
        minecraft_version: Some("1.21.1".into()),
        loader_type: Some("NeoForge".into()),
        loader_version: None,
        mods_path: None,
        mod_count: 3,
        config_path: None,
        resource_packs_path: None,
        shader_packs_path: None,
        java_path: None,
        jvm_args: None,
        xmx_mb: Some(8192),
        xms_mb: None,
    };
    let recs = vec![
        rec("modpack", Some("open_link"), "FerriteCore is not installed"),
        rec("java_jvm", Some("set_jvm_arg"), "Add flags"),
        rec("modpack", None, "Heavy modpack"),
    ];
    let p = generate_profile(&inst, &recs, Some(77));
    assert_eq!(p.recommended_mods.len(), 1);
    assert_eq!(p.recommended_mods[0].name, "FerriteCore is not installed");
    assert_eq!(p.version, "1.0.0");
    let msg = format_for_discord(&p);
    assert_eq!(
        msg,
        "**GamePilot Optimization Profile**\nGame: minecraft\nInstance: My Pack\nVersion: 1.21.1\nLoader: NeoForge\nHealth Score: 77/100\nRAM: 8192 MB\n\nRecommended Mods (1):\n- FerriteCore is not installed\n"
    );
}
