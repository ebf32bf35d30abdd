use gamepilot::games::parse_library_folders;
use gamepilot::modstore::{
    already_installed, disabled_name, enabled_name, mod_file_from, mod_version_from,
    search_facets, search_result_from, versions_url,
};
use gamepilot::system::{parse_pagefile_csv, parse_startup_csv};

#[test]
fn version_urls() {
    assert_eq!(versions_url("AANobbMI", None, None), "https://api.modrinth.com/v2/project/AANobbMI/version");
    assert_eq!(
        versions_url("AANobbMI", Some("1.21.1"), Some("NeoForge")),
        "https://api.modrinth.com/v2/project/AANobbMI/version?game_versions=[%221.21.1%22]&loaders=[%22neoforge%22]"
    );
    let f = search_facets(Some("1.20.1"), Some("Fabric"));
    assert_eq!(f, vec![vec!["project_type:mod".to_string()], vec!["versions:1.20.1".to_string()], vec!["categories:fabric".to_string()]]);
}

#[test]
fn answers_become_records() {
    let hit = search_result_from(Some("p".into()), Some("s".into()), Some("t".into()), None, None, None, None, vec![], None).unwrap();
    assert_eq!(hit.author, "Unknown");
    assert_eq!(hit.description, "");
    assert_eq!(hit.downloads, 0);
    assert!(search_result_from(None, Some("s".into()), Some("t".into()), None, None, None, None, vec![], None).is_none());
    let file = mod_file_from(Some("u".into()), Some("f.jar".into()), None, None).unwrap();
    assert_eq!(file.size, 0);
    assert!(!file.primary);
    assert!(mod_file_from(Some("u".into()), None, Some(1), Some(true)).is_none());
    let v = mod_version_from(Some("id".into()), Some("1.0".into()), None, vec![], vec![], Some(7), vec![file]).unwrap();
    assert_eq!(v.name, "");
    assert_eq!(v.downloads, 7);
    assert!(mod_version_from(Some("id".into()), None, None, vec![], vec![], None, vec![]).is_none());
    let r = already_installed("a.jar", "/m/a.jar".into());
    assert!(!r.success);
    assert_eq!(r.message, "a.jar already exists in mods folder");
}

#[test]
fn disable_and_enable_names() {
    assert_eq!(disabled_name("sodium.jar"), "sodium.jar.disabled");
    assert_eq!(enabled_name("sodium.jar.disabled"), "sodium.jar");
    assert_eq!(enabled_name(&disabled_name("x.zip")), "x.zip");
    assert_eq!(enabled_name("odd.disabled.disabled"), "odd");
}

#[test]
fn steam_library_folders() {
    let vdf = "\"libraryfolders\"\n{\n\t\"0\"\n\t{\n\t\t\"path\"\t\t\"C:\\\\Program Files (x86)\\\\Steam\"\n\t}\n\t\"1\"\n\t{\n\t\t\"path\"\t\t\"D:\\\\SteamLibrary\"\n\t}\n}\n";
    let paths = parse_library_folders(vdf);
    assert_eq!(paths, vec!["C:\\Program Files (x86)\\Steam".to_string(), "D:\\SteamLibrary".to_string()]);
}

#[test]
fn wmic_startup_rows() {
    let out = "Node,Caption,Command,Location\nPC, Discord ,\"C:\\d.exe\",HKU\nPC,,x,y\nshort,row\n";
    let progs = parse_startup_csv(out);
    assert_eq!(progs.len(), 1);
    assert_eq!(progs[0].name, "Discord");
    assert_eq!(progs[0].source, "HKU");
}

#[test]
fn wmic_pagefile_row() {
    let out = "\r\nNode,CurrentUsage,MaximumSize,Name\r\nPC,1024,4096,C:\\pagefile.sys\r\n";
    let s = parse_pagefile_csv(out, 4096).unwrap();
    assert_eq!(s.current_size_mb, 1024);
    assert_eq!(s.max_size_mb, 4096);
    assert_eq!(s.drive, "C:");
    assert_eq!(s.recommended_size_mb, 6144);
    assert!(!s.is_adequate);
    assert!(!s.is_system_managed);
    let managed = parse_pagefile_csv("PC,0,0,D:\\p.sys\n", 8192).unwrap();
    assert!(managed.is_adequate && managed.is_system_managed);
    assert!(parse_pagefile_csv("Node,x\n\n", 1).is_none());
}
