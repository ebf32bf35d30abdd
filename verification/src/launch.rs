//! Launching an instance: which way to launch it, what to try in which order for
//! CurseForge, and what to report. The launching itself is done by the caller.
use vstd::prelude::*;
use crate::text;

verus! {

/// What a launch attempt came to.
#[derive(Debug, Clone)]
pub struct LaunchResult {
    pub success: bool,
    pub method: String,
    pub message: String,
    pub session_id: Option<String>,
}

/// What is needed to launch an instance.
#[derive(Debug, Clone)]
pub struct LaunchProfile {
    pub instance_id: String,
    pub launcher: String,
    pub instance_path: String,
    pub java_path: Option<String>,
    pub jvm_args: Option<String>,
}

/// The way an instance is launched.
#[derive(Debug, Clone, Copy, PartialEq, Eq, Structural)]
pub enum LaunchRoute {
    /// Through the Prism Launcher or MultiMC command line.
    Launcher,
    /// Through CurseForge.
    CurseForge,
    /// By opening the instance folder.
    FolderOpen,
}

/// The route for a launcher name, compared in lower case: Prism Launcher and
/// MultiMC use their command line, CurseForge its own way, anything else the folder.
pub open spec fn route_of(lower: Seq<char>) -> LaunchRoute {
    if lower == "prism launcher"@ || lower == "multimc"@ {
        LaunchRoute::Launcher
    } else if lower == "curseforge"@ {
        LaunchRoute::CurseForge
    } else {
        LaunchRoute::FolderOpen
    }
}

/// The route for launching with `launcher`.
pub fn launch_route(launcher: &str) -> (r: LaunchRoute)
    ensures
        r == route_of(text::spec_lowercase(launcher@)),
{
    let lower = text::lowercase(launcher);
    let l = lower.as_str();
    if text::str_eq(l, "prism launcher") || text::str_eq(l, "multimc") {
        LaunchRoute::Launcher
    } else if text::str_eq(l, "curseforge") {
        LaunchRoute::CurseForge
    } else {
        LaunchRoute::FolderOpen
    }
}

/// The command of a launcher: `prismlauncher` when its lower-cased name contains
/// `prism`, `multimc` when it contains `multimc`, none otherwise.
pub open spec fn launcher_command_of(lower: Seq<char>) -> Option<Seq<char>> {
    if text::contains(lower, "prism"@) {
        Some("prismlauncher"@)
    } else if text::contains(lower, "multimc"@) {
        Some("multimc"@)
    } else {
        None
    }
}

/// The command that launches instances of `launcher`.
pub fn launcher_command(launcher: &str) -> (r: Option<String>)
    ensures
        match r {
            Some(c) => launcher_command_of(text::spec_lowercase(launcher@)) == Some(c@),
            None => launcher_command_of(text::spec_lowercase(launcher@)) is None,
        },
{
    let lower = text::lowercase(launcher);
    let l = text::chars_of_string(&lower);
    if text::contains_str(&l, "prism") {
        Some(text::to_string("prismlauncher"))
    } else if text::contains_str(&l, "multimc") {
        Some(text::to_string("multimc"))
    } else {
        None
    }
}

fn concat2(a: &str, b: &str) -> (r: String)
    ensures
        r@ == a@ + b@,
{
    let mut v: Vec<char> = Vec::new();
    text::push_str(&mut v, a);
    text::push_str(&mut v, b);
    assert(v@ == Seq::<char>::empty() + a@ + b@);
    text::string_of(v.as_slice())
}

fn concat3(a: &str, b: &str, c: &str) -> (r: String)
    ensures
        r@ == a@ + b@ + c@,
{
    let mut v: Vec<char> = Vec::new();
    text::push_str(&mut v, a);
    text::push_str(&mut v, b);
    text::push_str(&mut v, c);
    assert(v@ == Seq::<char>::empty() + a@ + b@ + c@);
    text::string_of(v.as_slice())
}

/// The report of a launch through a launcher's command line.
pub fn launcher_launched(launcher: &str, instance_name: &str, session_id: String) -> (r: LaunchResult)
    ensures
        r.success,
        r.method@ == "Launched via "@ + launcher@,
        r.message@ == "Instance '"@ + instance_name@ + "' launched through "@ + launcher@ + "."@,
        r.session_id matches Some(s) && s@ == session_id@,
{
    let mut m: Vec<char> = Vec::new();
    text::push_str(&mut m, "Instance '");
    text::push_str(&mut m, instance_name);
    text::push_str(&mut m, "' launched through ");
    text::push_str(&mut m, launcher);
    text::push_str(&mut m, ".");
    assert(m@ =~= "Instance '"@ + instance_name@ + "' launched through "@ + launcher@ + "."@);
    LaunchResult {
        success: true,
        method: concat2("Launched via ", launcher),
        message: text::string_of(m.as_slice()),
        session_id: Some(session_id),
    }
}

/// The report where launchers cannot be started (outside Windows).
pub fn launcher_delegated(launcher: &str, session_id: String) -> (r: LaunchResult)
    ensures
        r.success,
        r.method@ == "Delegated (dev mode)"@,
        r.message@ == "On Windows, this would launch via "@ + launcher@
            + ". Open the instance folder to launch manually."@,
        r.session_id matches Some(s) && s@ == session_id@,
{
    LaunchResult {
        success: true,
        method: text::to_string("Delegated (dev mode)"),
        message: concat3(
            "On Windows, this would launch via ",
            launcher,
            ". Open the instance folder to launch manually.",
        ),
        session_id: Some(session_id),
    }
}

/// The report when the instance folder does not exist.
pub fn folder_missing(instance_path: &str) -> (r: LaunchResult)
    ensures
        !r.success,
        r.method@ == "folder_open"@,
        r.message@ == "Instance path does not exist: "@ + instance_path@,
        r.session_id is None,
{
    LaunchResult {
        success: false,
        method: text::to_string("folder_open"),
        message: concat2("Instance path does not exist: ", instance_path),
        session_id: None,
    }
}

/// The report when the instance folder was opened.
pub fn folder_opened(instance_path: &str, session_id: String) -> (r: LaunchResult)
    ensures
        r.success,
        r.method@ == "folder_open"@,
        r.message@ == "Opened instance folder. Launch Minecraft from your preferred launcher using the instance at: "@
            + instance_path@,
        r.session_id matches Some(s) && s@ == session_id@,
{
    LaunchResult {
        success: true,
        method: text::to_string("folder_open"),
        message: concat2("Opened instance folder. Launch Minecraft from your preferred launcher using the instance at: ",
            instance_path),
        session_id: Some(session_id),
    }
}

// ---------------------------------------------------------------------------
// CurseForge
// ---------------------------------------------------------------------------

/// One attempt of a CurseForge launch: one of the three `curseforge://` URI forms,
/// one of the three app paths, or opening the folder.
#[derive(Debug, Clone, Copy, PartialEq, Eq, Structural)]
pub enum CurseForgeStep {
    TryUri(u8),
    TryApp(u8),
    OpenFolder,
}

/// Whether an attempt started something.
#[derive(Debug, Clone, Copy, PartialEq, Eq, Structural)]
pub enum StepOutcome {
    Launched,
    NotLaunched,
}

/// The attempts left after a step, counting it: the launch ends within seven.
pub open spec fn steps_left(s: CurseForgeStep) -> int {
    match s {
        CurseForgeStep::TryUri(k) => 7 - k,
        CurseForgeStep::TryApp(j) => 4 - j,
        CurseForgeStep::OpenFolder => 1,
    }
}

/// A step that exists: URI forms and app paths are numbered 0 to 2.
pub open spec fn step_valid(s: CurseForgeStep) -> bool {
    match s {
        CurseForgeStep::TryUri(k) => k < 3,
        CurseForgeStep::TryApp(j) => j < 3,
        CurseForgeStep::OpenFolder => true,
    }
}

/// The first attempt: the URI forms when the CurseForge instance id is known,
/// else the app paths.
pub fn curseforge_first_step(has_instance_id: bool) -> (r: CurseForgeStep)
    ensures
        r == (if has_instance_id {
            CurseForgeStep::TryUri(0)
        } else {
            CurseForgeStep::TryApp(0)
        }),
{
    if has_instance_id {
        CurseForgeStep::TryUri(0)
    } else {
        CurseForgeStep::TryApp(0)
    }
}

/// The attempt after `step` came to `outcome`: none once something launched or
/// the folder was opened; otherwise the next URI form, then the app paths, then
/// the folder.
pub open spec fn next_step_of(step: CurseForgeStep, outcome: StepOutcome) -> Option<CurseForgeStep> {
    match outcome {
        StepOutcome::Launched => None,
        StepOutcome::NotLaunched => match step {
            CurseForgeStep::TryUri(k) => if k + 1 < 3 {
                Some(CurseForgeStep::TryUri((k + 1) as u8))
            } else {
                Some(CurseForgeStep::TryApp(0))
            },
            CurseForgeStep::TryApp(j) => if j + 1 < 3 {
                Some(CurseForgeStep::TryApp((j + 1) as u8))
            } else {
                Some(CurseForgeStep::OpenFolder)
            },
            CurseForgeStep::OpenFolder => None,
        },
    }
}

/// The attempt that follows `step`.
pub fn curseforge_next_step(step: CurseForgeStep, outcome: StepOutcome) -> (r: Option<
    CurseForgeStep,
>)
    requires
        step_valid(step),
    ensures
        r == next_step_of(step, outcome),
{
    match outcome {
        StepOutcome::Launched => None,
        StepOutcome::NotLaunched => match step {
            CurseForgeStep::TryUri(k) => if k + 1 < 3 {
                Some(CurseForgeStep::TryUri(k + 1))
            } else {
                Some(CurseForgeStep::TryApp(0))
            },
            CurseForgeStep::TryApp(j) => if j + 1 < 3 {
                Some(CurseForgeStep::TryApp(j + 1))
            } else {
                Some(CurseForgeStep::OpenFolder)
            },
            CurseForgeStep::OpenFolder => None,
        },
    }
}

/// A CurseForge launch ends: every next attempt is a valid step with fewer
/// attempts left, so no attempt is made twice and there are at most seven; it
/// stops only when an attempt launched or after opening the folder, so a launch
/// that nothing else achieves falls back to opening the instance folder.
pub proof fn law_curseforge_launch_ends(step: CurseForgeStep, outcome: StepOutcome)
    requires
        step_valid(step),
    ensures
        match next_step_of(step, outcome) {
            Some(n) => step_valid(n) && 0 < steps_left(n) < steps_left(step) <= 7,
            None => outcome is Launched || step is OpenFolder,
        },
        step == CurseForgeStep::TryApp(2) && outcome is NotLaunched ==> next_step_of(step, outcome) == Some(
            CurseForgeStep::OpenFolder,
        ),
{
}

/// The three `curseforge://` URI forms for a CurseForge instance id.
pub open spec fn curseforge_uri_texts(id: Seq<char>) -> Seq<Seq<char>> {
    seq![
        "curseforge://run/"@ + id,
        "curseforge://launch/"@ + id,
        "curseforge://run-instance/minecraft/"@ + id,
    ]
}

/// The URI form `k` (0 to 2) for a CurseForge instance id.
pub fn curseforge_uri(id: &str, k: u8) -> (r: String)
    requires
        k < 3,
    ensures
        r@ == curseforge_uri_texts(id@)[k as int],
{
    if k == 0 {
        concat2("curseforge://run/", id)
    } else if k == 1 {
        concat2("curseforge://launch/", id)
    } else {
        concat2("curseforge://run-instance/minecraft/", id)
    }
}

/// The report of a CurseForge launch that the attempt `step` started.
pub fn curseforge_launched(step: CurseForgeStep, instance_name: &str, session_id: String) -> (r:
    LaunchResult)
    requires
        !(step is OpenFolder),
    ensures
        r.success,
        r.method@ == (if step is TryUri {
            "CurseForge URI"@
        } else {
            "CurseForge App"@
        }),
        r.message@ == (if step is TryUri {
            "Launching '"@ + instance_name@
                + "' via CurseForge protocol. If the game doesn't start, open CurseForge and click Play on '"@
                + instance_name@ + "'."@
        } else {
            "Opened CurseForge. Click Play on '"@ + instance_name@
                + "' to launch. Your JVM optimizations are already applied."@
        }),
        r.session_id matches Some(s) && s@ == session_id@,
{
    match step {
        CurseForgeStep::TryUri(_) => {
            let mut m: Vec<char> = Vec::new();
            text::push_str(&mut m, "Launching '");
            text::push_str(&mut m, instance_name);
            text::push_str(
                &mut m,
                "' via CurseForge protocol. If the game doesn't start, open CurseForge and click Play on '",
            );
            text::push_str(&mut m, instance_name);
            text::push_str(&mut m, "'.");
            assert(m@ =~= "Launching '"@ + instance_name@
                + "' via CurseForge protocol. If the game doesn't start, open CurseForge and click Play on '"@
                + instance_name@ + "'."@);
            LaunchResult {
                success: true,
                method: text::to_string("CurseForge URI"),
                message: text::string_of(m.as_slice()),
                session_id: Some(session_id),
            }
        },
        _ => LaunchResult {
            success: true,
            method: text::to_string("CurseForge App"),
            message: concat3(
                "Opened CurseForge. Click Play on '",
                instance_name,
                "' to launch. Your JVM optimizations are already applied.",
            ),
            session_id: Some(session_id),
        },
    }
}

/// The message that replaces the folder report when no CurseForge launch worked.
pub fn curseforge_fallback_message(instance_name: &str) -> (r: String)
    ensures
        r@ == "Could not find CurseForge app. Opened the instance folder instead. Launch '"@
            + instance_name@
            + "' from CurseForge manually — your JVM optimizations are already saved."@,
{
    concat3(
        "Could not find CurseForge app. Opened the instance folder instead. Launch '",
        instance_name,
        "' from CurseForge manually — your JVM optimizations are already saved.",
    )
}

/// The report where CurseForge cannot be started (outside Windows).
pub fn curseforge_delegated(instance_name: &str, session_id: String) -> (r: LaunchResult)
    ensures
        r.success,
        r.method@ == "Delegated (dev mode)"@,
        r.message@ == "On Windows, this would launch '"@ + instance_name@ + "' via CurseForge."@,
        r.session_id matches Some(s) && s@ == session_id@,
{
    LaunchResult {
        success: true,
        method: text::to_string("Delegated (dev mode)"),
        message: concat3("On Windows, this would launch '", instance_name, "' via CurseForge."),
        session_id: Some(session_id),
    }
}

} // verus!
