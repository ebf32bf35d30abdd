use gamepilot::config::{analyze_configs, generate_config_recommendations, lookup_entry, parse_key_values, parse_options_txt, parse_server_properties};

#[test]
fn options_are_parsed() {
    let o = parse_options_txt("renderDistance:16\nsimulationDistance:10\nmaxFps:260\ngraphicsMode:1\n# note\nenableVsync:true\nfullscreen:false\nrenderDistance:18\n");
    assert_eq!(o.render_distance, Some(18));
    assert_eq!(o.simulation_distance, Some(10));
    assert_eq!(o.max_framerate, Some(260));
    assert_eq!(o.graphics_level.as_deref(), Some("1"));
    assert_eq!(o.vsync, Some(true));
    assert_eq!(o.fullscreen, Some(false));
    assert_eq!(o.entity_shadows, None);
    assert_eq!(o.raw_entries.len(), 6);
    assert_eq!(o.raw_entries[0], ("renderDistance".to_string(), "18".to_string()));
}

#[test]
fn colon_before_equals() {
    let e = parse_key_values("a=b:c\n x = y \n=\n");
    assert_eq!(e, vec![("a=b".to_string(), "c".to_string()), ("x".to_string(), "y".to_string()), ("".to_string(), "".to_string())]);
    assert_eq!(lookup_entry(&e, "x").as_deref(), Some("y"));
    assert_eq!(lookup_entry(&e, "z"), None);
}

#[test]
fn server_properties_are_parsed() {
    let s = parse_server_properties("view-distance=12\nsimulation-distance=abc\nmax-tick-time=-1\n");
    assert_eq!(s.view_distance, Some(12));
    assert_eq!(s.simulation_distance, None);
    assert_eq!(s.max_tick_time, Some(-1));
}

#[test]
fn heavy_pack_gets_lighter_settings() {
    let a = analyze_configs(
        Some("renderDistance:16\nsimulationDistance:12\nmaxFps:999\n".to_string()),
        Some("view-distance=12\nsimulation-distance=10\n".to_string()),
        150,
    );
    let keys: Vec<&str> = a.recommendations.iter().map(|r| r.key.as_str()).collect();
    assert_eq!(keys, vec!["renderDistance", "simulationDistance", "maxFps", "view-distance", "simulation-distance"]);
    assert_eq!(a.recommendations[0].current_value, "16");
    assert_eq!(
        a.recommendations[0].reason,
        "Render distance 16 is high for a 150 mod pack. Reducing to 10 significantly decreases chunk rendering load."
    );
    assert_eq!(a.recommendations[0].impact, "Medium — fewer chunks rendered, smoother FPS");
}

#[test]
fn light_pack_only_caps_framerate() {
    let o = parse_options_txt("renderDistance:32\nmaxFps:260\n");
    let recs = generate_config_recommendations(&Some(o), &None, 100);
    assert_eq!(recs.len(), 1);
    assert_eq!(recs[0].recommended_value, "120");
    assert!(analyze_configs(None, None, 500).recommendations.is_empty());
}

#[test]
fn no_settings_files_give_no_advice() {
    let r = gamepilot::config::analyze_configs(None, None, 500);
    assert!(r.options.is_none());
    assert!(r.server_properties.is_none());
    assert!(r.recommendations.is_empty());
}

#[test]
fn missing_game_folders_leave_the_instance_folder() {
    assert_eq!(gamepilot::config::minecraft_dir("/nonexistent/gamepilot/instance"), "/nonexistent/gamepilot/instance");
}
