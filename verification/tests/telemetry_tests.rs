use gamepilot::telemetry::{first_existing, parse_log_line, tail_log_text};

#[test]
fn log_lines_are_parsed() {
    let e = parse_log_line("  [12:00:01] [Server thread/WARN]: Can't keep up!  ").unwrap();
    assert_eq!(e.timestamp, "12:00:01");
    assert_eq!(e.level, "WARN");
    assert_eq!(e.message, "[12:00:01] [Server thread/WARN]: Can't keep up!");
    assert!(parse_log_line("   ").is_none());
    let d = parse_log_line("plain text").unwrap();
    assert_eq!(d.timestamp, "");
    assert_eq!(d.level, "DEBUG");
    let c = parse_log_line("[[x] {main/ERROR}").unwrap();
    assert_eq!(c.timestamp, "x");
    assert_eq!(c.level, "ERROR");
}

#[test]
fn tail_keeps_notable_events_and_counts_bytes() {
    let chunk = "[a] [x/INFO]: hello\n[b] [x/INFO]: Loaded 10 mods\né\n[c] [x/ERROR]: boom";
    let (events, pos) = tail_log_text(chunk, 100);
    assert_eq!(events.len(), 2);
    assert_eq!(events[0].message, "[b] [x/INFO]: Loaded 10 mods");
    assert_eq!(events[1].level, "ERROR");
    assert_eq!(pos, 100 + chunk.len() as u64);
}

#[test]
fn tail_position_counts_crlf_endings() {
    let (events, pos) = tail_log_text("a\r\n", 0);
    assert!(events.is_empty());
    assert_eq!(pos, 3);
    let (_, pos) = tail_log_text("[t] [x/WARN]: w\r\n[u] [x/ERROR]: e\n", 7);
    assert_eq!(pos, 7 + 34);
}

#[test]
fn first_existing_candidate() {
    let c = vec![("a".to_string(), false), ("b".to_string(), true), ("c".to_string(), true)];
    assert_eq!(first_existing(&c).as_deref(), Some("b"));
    assert_eq!(first_existing(&vec![("a".to_string(), false)]), None);
}

#[test]
fn no_log_path_where_nothing_exists() {
    assert_eq!(gamepilot::telemetry::find_log_path("/nonexistent/gamepilot/instance"), None);
}
