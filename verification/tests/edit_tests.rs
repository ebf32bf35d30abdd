use gamepilot::edit::{current_setting_value, describe_change, preview_config_change};
use gamepilot::platform::{instance_source, is_instance_entry, marker_names, select_instances, EntryProbe, InstanceSource, LauncherType};

fn probe(path: &str, name: &str, is_dir: bool, present: &[&str]) -> EntryProbe {
    EntryProbe {
        path: path.to_string(),
        name: name.to_string(),
        is_dir,
        present: present.iter().map(|s| s.to_string()).collect(),
    }
}

#[test]
fn preview_rewrites_matching_lines() {
    let content = "renderDistance:12\nfov: 0.5\n# note\n";
    let p = preview_config_change("options.txt".to_string(), content, "renderDistance".to_string(), "8".to_string());
    assert_eq!(p.file, "options.txt");
    assert_eq!(p.before, "renderDistance:12\nfov: 0.5\n# note");
    assert_eq!(p.after, "renderDistance:8\nfov: 0.5\n# note");
    assert_eq!(p.old_value, "renderDistance:12");
    assert_eq!(p.new_value, "8");
    assert_eq!(p.key, "renderDistance");
}

#[test]
fn preview_keeps_equals_separator_and_reports_last_match() {
    let content = " view-distance = 10\r\nmotd=hi\nview-distance=12";
    let p = preview_config_change("server.properties".to_string(), content, "view-distance".to_string(), "6".to_string());
    assert_eq!(p.after, "view-distance=6\nmotd=hi\nview-distance=6");
    assert_eq!(p.old_value, "view-distance=12");
}

#[test]
fn preview_without_the_key_changes_nothing() {
    let p = preview_config_change("options.txt".to_string(), "a:1\nb:2", "c".to_string(), "3".to_string());
    assert_eq!(p.before, p.after);
    assert_eq!(p.old_value, "");
}

#[test]
fn current_value_is_first_trimmed_match() {
    assert_eq!(current_setting_value("a = 1\na=2", "a"), Some("1".to_string()));
    assert_eq!(current_setting_value("x:y=z", "x:y"), Some("z".to_string()));
    assert_eq!(current_setting_value("gamma:0.5", "gamma"), Some("0.5".to_string()));
    assert_eq!(current_setting_value("nothing here", "gamma"), None);
}

#[test]
fn change_description_names_unset() {
    assert_eq!(describe_change("fov", &None, "70"), "Changed fov from (unset) to 70");
    assert_eq!(describe_change("fov", &Some("90".to_string()), "70"), "Changed fov from 90 to 70");
}

#[test]
fn instance_source_by_launcher() {
    assert_eq!(instance_source(LauncherType::PrismLauncher, true), InstanceSource::ListInstancesFolder);
    assert_eq!(instance_source(LauncherType::MultiMC, false), InstanceSource::ListRoot);
    assert_eq!(instance_source(LauncherType::ATLauncher, false), InstanceSource::ListInstancesFolder);
    assert_eq!(instance_source(LauncherType::CurseForge, true), InstanceSource::ListRoot);
    assert_eq!(instance_source(LauncherType::OfficialLauncher, true), InstanceSource::RootIfVersions);
    assert_eq!(instance_source(LauncherType::Custom, false), InstanceSource::Root);
    assert_eq!(marker_names().len(), 8);
}

#[test]
fn instances_are_selected_by_markers() {
    let entries = vec![
        probe("/i/Pack", "Pack", true, &["mmc-pack.json"]),
        probe("/i/.tmp", ".tmp", true, &["instance.cfg"]),
        probe("/i/file", "file", false, &["instance.cfg"]),
        probe("/i/Empty", "Empty", true, &[]),
        probe("/i/Other", "Other", true, &["minecraft"]),
    ];
    assert_eq!(select_instances(LauncherType::PrismLauncher, &entries), vec!["/i/Pack".to_string(), "/i/Other".to_string()]);
    assert!(select_instances(LauncherType::OfficialLauncher, &entries).is_empty());
    assert!(is_instance_entry(LauncherType::CurseForge, &probe("/c/x", "x", true, &["mods"])));
    assert!(!is_instance_entry(LauncherType::Modrinth, &probe("/m/x", "x", true, &["mods"])));
    assert!(is_instance_entry(LauncherType::Modrinth, &probe("/m/x", "x", true, &["profile.json"])));
    assert!(is_instance_entry(LauncherType::ATLauncher, &probe("/a/x", "x", true, &["instance.json"])));
}

#[test]
fn mod_archives_are_counted_case_insensitively() {
    let names: Vec<String> = ["Sodium.JAR", "pack.zip", "notes.txt", "old.jar.disabled"].iter().map(|s| s.to_string()).collect();
    assert_eq!(gamepilot::instance::count_mod_archives(&names), 2);
    assert_eq!(gamepilot::instance::count_mod_archives(&Vec::new()), 0);
}

#[test]
fn changed_setting_reads_back() {
    let content = "fov:70\nrenderDistance:12\nrenderDistance:16\n";
    let p = preview_config_change("options.txt".to_string(), content, "renderDistance".to_string(), " 8 ".to_string());
    assert_eq!(current_setting_value(&p.after, "renderDistance"), Some("8".to_string()));
    assert_eq!(current_setting_value(&p.after, "fov"), Some("70".to_string()));
    let q = preview_config_change("options.txt".to_string(), content, "gamma".to_string(), "1".to_string());
    assert_eq!(current_setting_value(&q.after, "gamma"), None);
}
