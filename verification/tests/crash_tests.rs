use gamepilot::crash::{analyze_crashes, build_diagnosis, error_prefix_on_boundary, jvm_excerpt, scan_log_errors, try_analyze_crashes};

#[test]
fn test_no_crashes_on_empty_dir() {
    let diag = analyze_crashes(None, None, None);
    assert!(!diag.crash_detected);
    assert!(diag.crash_type.is_none());
    assert!(diag.recommendations.is_empty());
    assert_eq!(diag.summary, "No crashes or errors detected.");
    assert!(diag.timestamp.is_some());
}

#[test]
fn test_detects_oom_in_log() {
    let log = "[12:00:00] [Server thread/ERROR]: java.lang.OutOfMemoryError: Java heap space\n";
    let diag = analyze_crashes(None, Some(log.to_string()), None);
    assert!(diag.crash_detected);
    assert_eq!(diag.crash_type.as_deref(), Some("Out of Memory"));
    assert!(diag.recommendations.iter().any(|r| r.action == "apply_jvm"));
    assert_eq!(diag.summary, "Crash detected: Out of Memory");
}

#[test]
fn test_detects_crash_report_file() {
    let report = "---- Minecraft Crash Report ----\nDescription: Exception in server tick loop\njava.lang.OutOfMemoryError: GC overhead limit exceeded\n";
    let diag = analyze_crashes(
        Some(("crash-2024-01-01_12.00.00-server.txt".to_string(), report.to_string())),
        None,
        None,
    );
    assert!(diag.crash_detected);
    assert_eq!(diag.crash_file.as_deref(), Some("crash-2024-01-01_12.00.00-server.txt"));
    assert_eq!(diag.crash_type.as_deref(), Some("Out of Memory"));
    assert_eq!(diag.recommendations.len(), 2);
    assert_eq!(diag.recommendations[1].title, "Increase RAM and optimize GC flags");
}

#[test]
fn test_detects_access_violation() {
    let log = "[12:00:00] [Render thread/FATAL]: EXCEPTION_ACCESS_VIOLATION (0xc0000005)\n";
    let diag = analyze_crashes(None, Some(log.to_string()), None);
    assert!(diag.crash_detected);
    assert_eq!(diag.crash_type.as_deref(), Some("Access Violation"));
    assert!(diag.recommendations.iter().any(|r| r.title.contains("GPU drivers")));
}

#[test]
fn test_detects_jvm_crash_log() {
    let jvm = "# A fatal error has been detected by the Java Runtime Environment:\n#\n# EXCEPTION_ACCESS_VIOLATION\n";
    let diag = analyze_crashes(None, None, Some(jvm.to_string()));
    assert!(diag.crash_detected);
    assert_eq!(diag.crash_type.as_deref(), Some("Access Violation"));
}

#[test]
fn paging_file_wins_over_memory() {
    let diag = build_diagnosis(
        None,
        vec!["OutOfMemoryError: the paging file is too small".to_string()],
        None,
    );
    assert_eq!(diag.crash_type.as_deref(), Some("Paging File Exhausted"));
    assert_eq!(diag.recommendations.len(), 4);
    assert_eq!(diag.details.len(), 3);
}

#[test]
fn log_lines_are_added_once() {
    let line = "x".repeat(60);
    let diag = build_diagnosis(None, vec![line.clone(), line.clone() + "y"], None);
    assert_eq!(diag.details, vec![line]);
    assert_eq!(diag.summary, "2 error(s) found in game log");
}

#[test]
fn log_scan_keeps_newest_error_lines() {
    let mut log = String::new();
    for i in 0..30 {
        log.push_str(&format!("  line {} Fatal Error here  \n", i));
    }
    log.push_str("harmless\n");
    let errs = scan_log_errors(&log);
    assert_eq!(errs.len(), 20);
    assert_eq!(errs[0], "line 29 Fatal Error here");
    assert_eq!(errs[19], "line 10 Fatal Error here");
}

#[test]
fn jvm_log_head_is_first_hundred_lines() {
    let mut text = String::new();
    for i in 0..150 {
        text.push_str(&format!("{}\n", i));
    }
    let head = jvm_excerpt(&text);
    assert_eq!(head.lines().count(), 100);
    assert!(head.ends_with("99"));
}

#[test]
fn fifty_byte_cut_on_char_boundary() {
    assert!(error_prefix_on_boundary("short"));
    assert!(error_prefix_on_boundary(&"a".repeat(80)));
    let bad = format!("{}é{}", "a".repeat(49), "b".repeat(10));
    assert!(!error_prefix_on_boundary(&bad));
    let line = format!("error java.lang{}é tail", "a".repeat(34));
    assert!(!error_prefix_on_boundary(&line));
    assert!(try_analyze_crashes(None, Some(format!("{}\n", line)), None).is_none());
    assert!(try_analyze_crashes(None, Some("error java.lang ok\n".to_string()), None).is_some());
}

#[test]
fn lowered_crash_text_is_classified() {
    let (kind, details, recs) = gamepilot::crash::classify_lowered_crash_text("java.lang.outofmemoryerror: java heap space");
    assert_eq!(kind.as_deref(), Some("Out of Memory"));
    assert!(!details.is_empty());
    assert!(recs.iter().any(|r| r.action == "apply_jvm"));
    let (none, d, r) = gamepilot::crash::classify_lowered_crash_text("all good");
    assert!(none.is_none() && d.is_empty() && r.is_empty());
}
