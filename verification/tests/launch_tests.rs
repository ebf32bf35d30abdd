use gamepilot::launch::{
    curseforge_first_step, curseforge_next_step, curseforge_uri, folder_missing, launch_route,
    launcher_command, CurseForgeStep, LaunchRoute, StepOutcome,
};

#[test]
fn routes_by_launcher_name() {
    assert_eq!(launch_route("Prism Launcher"), LaunchRoute::Launcher);
    assert_eq!(launch_route("MULTIMC"), LaunchRoute::Launcher);
    assert_eq!(launch_route("CurseForge"), LaunchRoute::CurseForge);
    assert_eq!(launch_route("Modrinth App"), LaunchRoute::FolderOpen);
    assert_eq!(launcher_command("PrismLauncher").as_deref(), Some("prismlauncher"));
    assert_eq!(launcher_command("Custom"), None);
}

#[test]
fn curseforge_attempts_in_order() {
    let mut step = curseforge_first_step(true);
    let mut seen = vec![step];
    while let Some(next) = curseforge_next_step(step, StepOutcome::NotLaunched) {
        step = next;
        seen.push(step);
    }
    assert_eq!(seen.len(), 7);
    assert_eq!(seen[3], CurseForgeStep::TryApp(0));
    assert_eq!(seen[6], CurseForgeStep::OpenFolder);
    assert_eq!(curseforge_next_step(CurseForgeStep::TryUri(1), StepOutcome::Launched), None);
    assert_eq!(curseforge_first_step(false), CurseForgeStep::TryApp(0));
    assert_eq!(curseforge_uri("123", 2), "curseforge://run-instance/minecraft/123");
}

#[test]
fn missing_folder_report() {
    let r = folder_missing("/nope");
    assert!(!r.success);
    assert_eq!(r.message, "Instance path does not exist: /nope");
    assert!(r.session_id.is_none());
}
