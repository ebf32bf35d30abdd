use gamepilot::detect::{auto_session_labels, detect_all_running_games, detect_running_game, detect_session_game, session_action, SessionAction};

fn procs(v: &[&str]) -> Vec<String> {
    v.iter().map(|s| s.to_string()).collect()
}

#[test]
fn first_known_game_in_table_order() {
    let p = procs(&["explorer.exe", "EscapeFromTarkov.exe", "javaw.exe"]);
    let g = detect_running_game(&p, Some("title".to_string())).unwrap();
    assert_eq!(g.game_id, "minecraft");
    assert_eq!(g.process_name, "javaw.exe");
    assert_eq!(g.window_title.as_deref(), Some("title"));
    let all = detect_all_running_games(&p);
    let ids: Vec<&str> = all.iter().map(|d| d.game_id.as_str()).collect();
    assert_eq!(ids, vec!["minecraft", "tarkov"]);
    assert!(detect_running_game(&procs(&["notepad"]), None).is_none());
}

#[test]
fn session_detection_and_actions() {
    let p = procs(&["RuneLite", "javaw"]);
    let (game, proc_name) = detect_session_game(&p).unwrap();
    assert_eq!(game, "runescape");
    assert_eq!(proc_name, "RuneLite");
    assert!(matches!(session_action(None, None), SessionAction::Idle));
    match session_action(Some("s1".to_string()), Some(("poe".to_string(), "PathOfExile".to_string()))) {
        SessionAction::Active { session_id, game_id } => {
            assert_eq!(session_id, "s1");
            assert_eq!(game_id, "poe");
        }
        _ => panic!("expected an active session"),
    }
    let (id, name) = auto_session_labels("league", "LeagueClient.exe");
    assert_eq!(id, "auto-league");
    assert_eq!(name, "Auto-detected: LeagueClient.exe");
}
