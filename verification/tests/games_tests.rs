use gamepilot::games::{
    discover_poe_installations, generate_performance_recommendations, league_instances, osrs_instances,
    parse_app_manifest, poe_game_info, tarkov_errors_message,
};
use gamepilot::modules::{GameModule, LeagueModule, OsrsModule, PoeModule, Rs3Module, SteamModule, TarkovModule};

// The modules are built from what the machine was found to hold; these tests
// run them as on a machine without the games installed.
fn league() -> LeagueModule {
    LeagueModule { install: None }
}

fn osrs() -> OsrsModule {
    OsrsModule { osrs: None, runelite: None }
}

fn rs3() -> Rs3Module {
    Rs3Module { path: None }
}

fn tarkov() -> TarkovModule {
    TarkovModule { install: None }
}

#[test]
fn game_info_returns_correct_metadata() {
    let module = league();
    let info = module.game_info();
    assert_eq!(info.id, "league-of-legends");
    assert_eq!(info.name, "League of Legends");
}

#[test]
fn discover_instances_returns_at_most_one() {
    let module = league();
    let instances = module.discover_instances();
    assert!(instances.len() <= 1);
    if let Some(inst) = instances.first() {
        assert_eq!(inst.game_id, "league-of-legends");
    }
}

#[test]
fn recommendations_does_not_panic() {
    let recs = generate_performance_recommendations(&vec!["discord".to_string()], false);
    for rec in &recs {
        assert!(!rec.id.is_empty());
        assert!(!rec.title.is_empty());
    }
}

#[test]
fn league_tips_name_running_programs() {
    let recs = generate_performance_recommendations(
        &vec!["obs".to_string(), "chrome".to_string()],
        true,
    );
    assert_eq!(recs.len(), 2);
    assert_eq!(recs[0].id, "league-close-chrome");
    assert_eq!(recs[0].title, "Close Google Chrome");
    assert_eq!(recs[1].id, "league-close-obs");
    let none = generate_performance_recommendations(&Vec::new(), false);
    assert_eq!(none.len(), 1);
    assert_eq!(none[0].id, "league-not-installed");
    assert_eq!(none[0].severity, "info");
}

#[test]
fn discover_returns_empty_when_no_install() {
    let instances = discover_poe_installations(None, None);
    for inst in &instances {
        assert_eq!(inst.game_id, "poe");
    }
    assert!(instances.is_empty());
}

#[test]
fn poe_installs_in_order() {
    let instances = discover_poe_installations(Some("/a".to_string()), Some("/b".to_string()));
    assert_eq!(instances.len(), 2);
    assert_eq!(instances[0].id, "poe1-standalone");
    assert_eq!(instances[1].name, "Path of Exile 2");
    let info = poe_game_info(&instances);
    assert!(info.installed);
    assert_eq!(info.install_path.as_deref(), Some("/a"));
}

#[test]
fn league_instance_when_installed() {
    let instances = league_instances(Some("C:\\Riot Games\\League of Legends".to_string()));
    assert_eq!(instances.len(), 1);
    assert_eq!(instances[0].id, "league-main");
    assert_eq!(instances[0].game_id, "league-of-legends");
    assert!(LeagueModule { install: Some("/x".to_string()) }.can_optimize());
}

#[test]
fn poe_module_game_info() {
    let module = PoeModule { poe1: None, poe2: None };
    let info = module.game_info();
    assert_eq!(info.id, "poe");
    assert_eq!(info.name, "Path of Exile");
    assert!(module.can_analyze());
    assert!(module.can_launch());
    assert!(!module.can_optimize());
}

#[test]
fn poe_module_reports_second_edition_alone() {
    let module = PoeModule { poe1: None, poe2: Some("/poe2".to_string()) };
    let info = module.game_info();
    assert!(info.installed);
    assert_eq!(info.install_path.as_deref(), Some("/poe2"));
    assert_eq!(module.discover_instances()[0].id, "poe2-standalone");
}

#[test]
fn osrs_module_game_info_has_correct_id() {
    let module = osrs();
    let info = module.game_info();
    assert_eq!(info.id, "runescape-osrs");
    assert!(info.name.contains("Old School"));
}

#[test]
fn rs3_module_game_info_has_correct_id() {
    let module = rs3();
    let info = module.game_info();
    assert_eq!(info.id, "runescape-rs3");
    assert!(info.name.contains("RS3"));
}

#[test]
fn both_modules_can_analyze() {
    assert!(osrs().can_analyze());
    assert!(rs3().can_analyze());
}

#[test]
fn osrs_instances_for_both_clients() {
    let v = osrs_instances(None, Some("/rl".to_string()));
    assert_eq!(v.len(), 1);
    assert_eq!(v[0].id, "osrs-runelite");
}

#[test]
fn game_info_has_correct_id() {
    let module = tarkov();
    let info = module.game_info();
    assert_eq!(info.id, "tarkov");
    assert_eq!(info.name, "Escape from Tarkov");
}

#[test]
fn can_analyze_returns_true() {
    let module = tarkov();
    assert!(module.can_analyze());
}

#[test]
fn discover_instances_empty_on_non_windows() {
    let module = tarkov();
    assert!(module.discover_instances().is_empty());
}

#[test]
fn tarkov_error_list() {
    let msg = tarkov_errors_message(&vec!["a".to_string(), "b".to_string()]);
    assert_eq!(msg, "Tarkov API errors: a; b");
}

#[test]
fn steam_manifest_is_read() {
    let acf = "\"AppState\"\n{\n\t\"appid\"\t\t\"570\"\n\t\"name\"\t\t\"Dota 2\"\n\t\"installdir\"\t\t\"dota 2 beta\"\n}\n";
    let game = parse_app_manifest(acf, "/lib").unwrap();
    assert_eq!(game.id, "steam-570");
    assert_eq!(game.name, "Dota 2");
    assert!(game.path.ends_with("dota 2 beta"));
    let runtime = acf.replace("Dota 2", "Steam Linux Runtime");
    assert!(parse_app_manifest(&runtime, "/lib").is_none());
    assert!(parse_app_manifest("\"appid\" \"1\"", "/lib").is_none());
}

#[test]
fn steam_module_lists_manifest_games() {
    let acf = "\"AppState\"\n{\n\t\"appid\"\t\t\"570\"\n\t\"name\"\t\t\"Dota 2\"\n\t\"installdir\"\t\t\"dota 2 beta\"\n}\n";
    let runtime = acf.replace("Dota 2", "Proton 8.0");
    let module = SteamModule {
        path: Some("/steam".to_string()),
        manifests: vec![("/lib".to_string(), runtime), ("/lib".to_string(), acf.to_string())],
    };
    let games = module.discover_instances();
    assert_eq!(games.len(), 1);
    assert_eq!(games[0].id, "steam-570");
    let info = module.game_info();
    assert_eq!(info.id, "steam");
    assert!(info.installed);
    assert!(!module.can_analyze());
}

#[test]
fn all_games_start_with_minecraft() {
    let infos = gamepilot::modules::discover_all_games(
        &SteamModule { path: None, manifests: Vec::new() },
        &league(),
        &PoeModule { poe1: None, poe2: None },
        &tarkov(),
        &osrs(),
        &rs3(),
    );
    let ids: Vec<&str> = infos.iter().map(|g| g.id.as_str()).collect();
    assert_eq!(ids, vec!["minecraft", "steam", "league-of-legends", "poe", "tarkov", "runescape-osrs", "runescape-rs3"]);
    assert!(infos[0].installed);
    assert!(!infos[1].installed);
}

#[test]
fn steam_game_path_is_under_common() {
    let acf = "\"AppState\"\n{\n\t\"appid\"\t\t\"570\"\n\t\"name\"\t\t\"Dota 2\"\n\t\"installdir\"\t\t\"dota 2 beta\"\n}\n";
    let game = parse_app_manifest(acf, "/lib").unwrap();
    assert_eq!(game.path, "/lib/common/dota 2 beta");
    let game = parse_app_manifest(acf, "/lib/").unwrap();
    assert_eq!(game.path, "/lib/common/dota 2 beta");
}

#[test]
fn candidate_paths_are_non_empty_on_known_platforms() {
    let paths = gamepilot::games::poe_candidate_paths("windows", None, "Path of Exile");
    assert!(!paths.is_empty());
    assert_eq!(paths[0], "C:\\Program Files (x86)\\Grinding Gear Games\\Path of Exile");
    let paths = gamepilot::games::poe_candidate_paths("macos", Some("/Users/me".to_string()), "Path of Exile");
    assert!(!paths.is_empty());
    assert_eq!(paths[0], "/Users/me/Library/Application Support/Path of Exile");
    let paths = gamepilot::games::poe_candidate_paths("linux", Some("/home/me".to_string()), "Path of Exile");
    assert!(paths.is_empty());
}

#[test]
fn poe_installs_use_the_first_folder_found() {
    let poe1 = vec![("/a".to_string(), false), ("/b".to_string(), true), ("/c".to_string(), true)];
    let poe2 = vec![("/d".to_string(), false)];
    let found = gamepilot::games::poe_installs_from_probes(&poe1, &poe2);
    assert_eq!(found.len(), 1);
    assert_eq!(found[0].id, "poe1-standalone");
    assert_eq!(found[0].path, "/b");
    assert_eq!(found[0].game_id, "poe");
}

#[test]
fn no_poe_installs_off_windows_and_macos() {
    assert!(gamepilot::games::find_poe_installations("linux", Some("/home/me".to_string())).is_empty());
}
