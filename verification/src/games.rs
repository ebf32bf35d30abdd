//! The games besides Minecraft: what is known of each installation, the
//! instances found, Steam's manifest files, and advice for League of Legends.
use vstd::prelude::*;
use crate::text;
use crate::paths;
use crate::telemetry;

verus! {

/// A game the app knows about.
#[derive(Debug, Clone)]
pub struct GameInfo {
    pub id: String,
    pub name: String,
    pub icon: String,
    pub installed: bool,
    pub install_path: Option<String>,
}

/// An installation or profile of a game.
#[derive(Debug, Clone)]
pub struct GameInstance {
    pub id: String,
    pub game_id: String,
    pub name: String,
    pub path: String,
    pub version: Option<String>,
    pub last_played: Option<String>,
}

pub open spec fn ov(o: Option<String>) -> Option<Seq<char>> {
    match o {
        Some(s) => Some(s@),
        None => None,
    }
}

/// The game's info given where it is installed, if anywhere.
pub open spec fn info_is(g: GameInfo, id: Seq<char>, name: Seq<char>, icon: Seq<char>, install: Option<String>) -> bool {
    &&& g.id@ == id
    &&& g.name@ == name
    &&& g.icon@ == icon
    &&& g.installed == install is Some
    &&& ov(g.install_path) == ov(install)
}

/// An instance with no version and no last-played time.
pub open spec fn instance_is(i: GameInstance, id: Seq<char>, game_id: Seq<char>, name: Seq<char>, path: Seq<char>) -> bool {
    &&& i.id@ == id
    &&& i.game_id@ == game_id
    &&& i.name@ == name
    &&& i.path@ == path
    &&& i.version is None
    &&& i.last_played is None
}

/// The info of a game installed at `install`, if anywhere.
pub fn game_info_for(id: &str, name: &str, icon: &str, install: Option<String>) -> (g: GameInfo)
    ensures
        info_is(g, id@, name@, icon@, install),
{
    GameInfo {
        id: text::to_string(id),
        name: text::to_string(name),
        icon: text::to_string(icon),
        installed: install.is_some(),
        install_path: install,
    }
}

/// An instance with no version and no last-played time.
pub fn instance_for(id: &str, game_id: &str, name: &str, path: String) -> (i: GameInstance)
    ensures
        instance_is(i, id@, game_id@, name@, path@),
{
    GameInstance {
        id: text::to_string(id),
        game_id: text::to_string(game_id),
        name: text::to_string(name),
        path,
        version: None,
        last_played: None,
    }
}

/// The instances of a game with at most one installation: one when installed.
pub fn single_instance(id: &str, game_id: &str, name: &str, install: Option<String>) -> (r: Vec<GameInstance>)
    ensures
        match install {
            Some(p) => r.len() == 1 && instance_is(r@[0], id@, game_id@, name@, p@),
            None => r.len() == 0,
        },
{
    let mut v: Vec<GameInstance> = Vec::new();
    match install {
        Some(p) => v.push(instance_for(id, game_id, name, p)),
        None => {},
    }
    v
}

// ---------------------------------------------------------------------------
// League of Legends
// ---------------------------------------------------------------------------

/// League of Legends, installed at `install` if anywhere.
pub fn league_game_info(install: Option<String>) -> (g: GameInfo)
    ensures
        info_is(g, "league-of-legends"@, "League of Legends"@, "\u{2694}"@, install),
{
    game_info_for("league-of-legends", "League of Legends", "\u{2694}", install)
}

/// The League of Legends instance, when installed.
pub fn league_instances(install: Option<String>) -> (r: Vec<GameInstance>)
    ensures
        match install {
            Some(p) => r.len() == 1 && instance_is(r@[0], "league-main"@, "league-of-legends"@, "League of Legends"@, p@),
            None => r.len() == 0,
        },
{
    single_instance("league-main", "league-of-legends", "League of Legends", install)
}

/// A League of Legends tip.
#[derive(Debug, Clone)]
pub struct LeagueRecommendation {
    pub id: String,
    pub title: String,
    pub description: String,
    pub severity: String,
}

/// A player's scores in a live League of Legends game.
#[derive(Debug, Clone)]
pub struct PlayerScores {
    pub kills: Option<u32>,
    pub deaths: Option<u32>,
    pub assists: Option<u32>,
    pub creep_score: Option<u32>,
}

/// The programs worth closing while playing: process name and display name.
pub open spec fn closable_programs() -> Seq<(Seq<char>, Seq<char>)> {
    seq![
        ("chrome"@, "Google Chrome"@),
        ("firefox"@, "Firefox"@),
        ("discord"@, "Discord"@),
        ("spotify"@, "Spotify"@),
        ("obs"@, "OBS Studio"@),
    ]
}

/// A tip as id, title, description and severity.
pub type TipText = (Seq<char>, Seq<char>, Seq<char>, Seq<char>);

pub open spec fn tip_views(v: Seq<LeagueRecommendation>) -> Seq<TipText> {
    Seq::new(v.len(), |i: int| (v[i].id@, v[i].title@, v[i].description@, v[i].severity@))
}

/// The tips for the programs that run: close each.
pub open spec fn close_tips(progs: Seq<(Seq<char>, Seq<char>)>, running: Seq<Seq<char>>) -> Seq<TipText>
    decreases progs.len(),
{
    if progs.len() == 0 {
        Seq::empty()
    } else {
        let prev = close_tips(progs.drop_last(), running);
        let p = progs.last();
        if running.contains(p.0) {
            prev.push(
                (
                    "league-close-"@ + p.0,
                    "Close "@ + p.1,
                    p.1
                        + " is running and may impact League of Legends performance. Consider closing it before or during gameplay."@,
                    "low"@,
                ),
            )
        } else {
            prev
        }
    }
}

/// All tips: close the programs that run, and say so when the game is not installed.
pub open spec fn league_tips(running: Seq<Seq<char>>, installed: bool) -> Seq<TipText> {
    close_tips(closable_programs(), running) + if installed {
        Seq::<TipText>::empty()
    } else {
        seq![
            (
                "league-not-installed"@,
                "League of Legends not found"@,
                "Could not detect a League of Legends installation on this system."@,
                "info"@,
            ),
        ]
    }
}

pub open spec fn pair_views(v: Seq<(&str, &str)>) -> Seq<(Seq<char>, Seq<char>)> {
    Seq::new(v.len(), |i: int| (v[i].0@, v[i].1@))
}

/// The tips for playing League of Legends, given which of the closable programs
/// (by process name) run and whether the game is installed.
pub fn generate_performance_recommendations(running: &Vec<String>, league_installed: bool) -> (r: Vec<LeagueRecommendation>)
    ensures
        tip_views(r@) == league_tips(text::sviews(running@), league_installed),
{
    let progs = vec![
        ("chrome", "Google Chrome"),
        ("firefox", "Firefox"),
        ("discord", "Discord"),
        ("spotify", "Spotify"),
        ("obs", "OBS Studio"),
    ];
    let ghost pv = closable_programs();
    assert(pair_views(progs@) =~= pv);
    let ghost rv = text::sviews(running@);
    let mut recs: Vec<LeagueRecommendation> = Vec::new();
    let mut i: usize = 0;
    assert(pv.take(0) == Seq::<(Seq<char>, Seq<char>)>::empty());
    assert(tip_views(recs@) =~= Seq::<TipText>::empty());
    while i < progs.len()
        invariant
            i <= progs.len(),
            pair_views(progs@) == pv,
            pv == closable_programs(),
            rv == text::sviews(running@),
            tip_views(recs@) == close_tips(pv.take(i as int), rv),
        decreases progs.len() - i,
    {
        let (proc_name, display) = progs[i];
        assert(pv.take(i + 1).drop_last() == pv.take(i as int));
        assert(pv.take(i + 1).last() == (proc_name@, display@));
        let pn = text::chars_of(proc_name);
        if text::contains_string(running, &pn) {
            let mut id: Vec<char> = Vec::new();
            text::push_str(&mut id, "league-close-");
            text::push_str(&mut id, proc_name);
            let mut title: Vec<char> = Vec::new();
            text::push_str(&mut title, "Close ");
            text::push_str(&mut title, display);
            let mut desc: Vec<char> = Vec::new();
            text::push_str(&mut desc, display);
            text::push_str(
                &mut desc,
                " is running and may impact League of Legends performance. Consider closing it before or during gameplay.",
            );
            let ghost before = tip_views(recs@);
            recs.push(
                LeagueRecommendation {
                    id: text::string_of(id.as_slice()),
                    title: text::string_of(title.as_slice()),
                    description: text::string_of(desc.as_slice()),
                    severity: text::to_string("low"),
                },
            );
            assert(tip_views(recs@) =~= before.push(
                (
                    "league-close-"@ + proc_name@,
                    "Close "@ + display@,
                    display@
                        + " is running and may impact League of Legends performance. Consider closing it before or during gameplay."@,
                    "low"@,
                ),
            ));
        }
        i = i + 1;
    }
    assert(pv.take(progs.len() as int) == pv);
    let ghost c = tip_views(recs@);
    if !league_installed {
        recs.push(
            LeagueRecommendation {
                id: text::to_string("league-not-installed"),
                title: text::to_string("League of Legends not found"),
                description: text::to_string(
                    "Could not detect a League of Legends installation on this system.",
                ),
                severity: text::to_string("info"),
            },
        );
    }
    assert(tip_views(recs@) =~= league_tips(rv, league_installed));
    recs
}

// ---------------------------------------------------------------------------
// Path of Exile, RuneScape, Escape from Tarkov, Steam
// ---------------------------------------------------------------------------

/// The Path of Exile installations: Path of Exile and Path of Exile 2, each where
/// its folder was first found, if anywhere.
pub fn discover_poe_installations(poe1: Option<String>, poe2: Option<String>) -> (r: Vec<GameInstance>)
    ensures
        r.len() == (if poe1 is Some { 1int } else { 0 }) + (if poe2 is Some { 1int } else { 0 }),
        poe1 matches Some(p) ==> instance_is(r@[0], "poe1-standalone"@, "poe"@, "Path of Exile"@, p@),
        poe2 matches Some(p) ==> instance_is(r@[r.len() - 1], "poe2-standalone"@, "poe"@, "Path of Exile 2"@, p@),
{
    let mut v: Vec<GameInstance> = Vec::new();
    match poe1 {
        Some(p) => v.push(instance_for("poe1-standalone", "poe", "Path of Exile", p)),
        None => {},
    }
    match poe2 {
        Some(p) => v.push(instance_for("poe2-standalone", "poe", "Path of Exile 2", p)),
        None => {},
    }
    v
}

/// The Windows folders where the Path of Exile edition in folder `dir` is
/// looked for.
pub open spec fn poe_windows_folders(dir: Seq<char>) -> Seq<Seq<char>> {
    seq![
        "C:\\Program Files (x86)\\Grinding Gear Games\\"@ + dir,
        "C:\\Program Files\\Grinding Gear Games\\"@ + dir,
    ]
}

/// `p` is `home/Library/Application Support/<dir>`, with the separators that
/// `join` may put in.
pub open spec fn poe_mac_folder(home: Seq<char>, dir: Seq<char>, p: Seq<char>) -> bool {
    exists|s1: Seq<char>, s2: Seq<char>, s3: Seq<char>|
        #![trigger paths::separator_text(s1), paths::separator_text(s2), paths::separator_text(s3)]
        paths::separator_text(s1) && paths::separator_text(s2) && paths::separator_text(s3)
            && p == home + s1 + "Library"@ + s2 + "Application Support"@ + s3 + dir
}

/// Whether `p` is a folder where the Path of Exile edition in folder `dir` is
/// looked for on the platform `os` (`std::env::consts::OS`) with home folder
/// `home`: the two Windows folders, the macOS folder under the home folder
/// (stated where the home path is not a verbatim Windows path and `dir` is a
/// plain name), and none elsewhere.
pub open spec fn poe_candidate(os: Seq<char>, home: Option<Seq<char>>, dir: Seq<char>, p: Seq<char>) -> bool {
    if os == "windows"@ {
        poe_windows_folders(dir).contains(p)
    } else if os == "macos"@ {
        home matches Some(h) && (paths::safe_base(h) && paths::plain_name(dir) ==> poe_mac_folder(h, dir, p))
    } else {
        false
    }
}

/// The folders where the Path of Exile edition in folder `dir_name` is looked
/// for, in order, on the platform `os` with home folder `home`.
pub fn poe_candidate_paths(os: &str, home: Option<String>, dir_name: &str) -> (r: Vec<String>)
    ensures
        forall|k: int| 0 <= k < r.len() ==> poe_candidate(os@, ov(home), dir_name@, #[trigger] r@[k]@),
        os@ == "windows"@ ==> text::sviews(r@) == poe_windows_folders(dir_name@),
        os@ == "macos"@ ==> r.len() == (if home is Some {
            1int
        } else {
            0
        }),
        os@ != "windows"@ && os@ != "macos"@ ==> r.len() == 0,
{
    let mut out: Vec<String> = Vec::new();
    proof {
        reveal_strlit("windows");
        reveal_strlit("macos");
        assert("windows"@.len() != "macos"@.len());
    }
    if text::str_eq(os, "windows") {
        let mut a: Vec<char> = Vec::new();
        text::push_str(&mut a, "C:\\Program Files (x86)\\Grinding Gear Games\\");
        text::push_str(&mut a, dir_name);
        let mut b: Vec<char> = Vec::new();
        text::push_str(&mut b, "C:\\Program Files\\Grinding Gear Games\\");
        text::push_str(&mut b, dir_name);
        out.push(text::string_of(a.as_slice()));
        out.push(text::string_of(b.as_slice()));
        assert(text::sviews(out@) =~= poe_windows_folders(dir_name@));
        assert forall|k: int| 0 <= k < out.len() implies poe_candidate(os@, ov(home), dir_name@, #[trigger] out@[k]@) by {
            assert(poe_windows_folders(dir_name@)[k] == out@[k]@);
        }
    } else if text::str_eq(os, "macos") {
        match home {
            Some(h) => {
                let l = paths::path_join(h.as_str(), "Library");
                let a = paths::path_join(l.as_str(), "Application Support");
                let p = paths::path_join(a.as_str(), dir_name);
                proof {
                    reveal_strlit("Library");
                    reveal_strlit("Application Support");
                    reveal_strlit(".");
                    reveal_strlit("..");
                    assert("Library"@.len() != "."@.len() && "Library"@.len() != ".."@.len());
                    assert("Application Support"@.len() != "."@.len() && "Application Support"@.len() != ".."@.len());
                    assert(paths::plain_name("Library"@));
                    assert(paths::plain_name("Application Support"@));
                    if paths::safe_base(h@) && paths::plain_name(dir_name@) {
                        paths::lemma_joined_safe(h@, "Library"@, l@);
                        paths::lemma_joined_safe(l@, "Application Support"@, a@);
                        let s1 = choose|s: Seq<char>| paths::separator_text(s) && l@ == h@ + s + "Library"@;
                        let s2 = choose|s: Seq<char>| paths::separator_text(s) && a@ == l@ + s + "Application Support"@;
                        let s3 = choose|s: Seq<char>| paths::separator_text(s) && p@ == a@ + s + dir_name@;
                        assert(paths::separator_text(s1) && paths::separator_text(s2) && paths::separator_text(s3));
                        assert(p@ == h@ + s1 + "Library"@ + s2 + "Application Support"@ + s3 + dir_name@);
                    }
                }
                out.push(p);
            },
            None => {},
        }
    }
    out
}

/// The Path of Exile installations from the probes of the folders of each
/// edition (each folder with whether it was found): Path of Exile and Path of
/// Exile 2, each at its first folder that was found, if any.
pub fn poe_installs_from_probes(poe1: &Vec<(String, bool)>, poe2: &Vec<(String, bool)>) -> (r: Vec<GameInstance>)
    ensures
        ({
            let f1 = telemetry::first_existing_spec(telemetry::probe_views(poe1@));
            let f2 = telemetry::first_existing_spec(telemetry::probe_views(poe2@));
            &&& r.len() == (if f1 is Some { 1int } else { 0 }) + (if f2 is Some { 1int } else { 0 })
            &&& f1 matches Some(p) ==> instance_is(r@[0], "poe1-standalone"@, "poe"@, "Path of Exile"@, p)
            &&& f2 matches Some(p) ==> instance_is(r@[r.len() - 1], "poe2-standalone"@, "poe"@, "Path of Exile 2"@, p)
        }),
{
    let a = telemetry::first_existing(poe1);
    let b = telemetry::first_existing(poe2);
    discover_poe_installations(a, b)
}

/// A folder that `first_existing_spec` picks is one of the probed folders, and
/// one that was found.
pub proof fn lemma_first_existing_probed(c: Seq<(Seq<char>, bool)>)
    ensures
        telemetry::first_existing_spec(c) matches Some(p) ==> exists|k: int|
            0 <= k < c.len() && (#[trigger] c[k]).0 == p && c[k].1,
    decreases c.len(),
{
    if c.len() > 0 && !c[0].1 {
        lemma_first_existing_probed(c.drop_first());
        if let Some(p) = telemetry::first_existing_spec(c) {
            let k = choose|k: int| 0 <= k < c.drop_first().len() && (#[trigger] c.drop_first()[k]).0 == p && c.drop_first()[k].1;
            assert(c[k + 1] == c.drop_first()[k]);
        }
    } else if c.len() > 0 {
        assert(c[0].0 == c[0].0);
    }
}

/// A Path of Exile installation found on the platform `os`: an instance of one
/// edition at one of the folders where that edition is looked for.
pub open spec fn poe_install_of(os: Seq<char>, home: Option<Seq<char>>, i: GameInstance) -> bool {
    ||| instance_is(i, "poe1-standalone"@, "poe"@, "Path of Exile"@, i.path@) && poe_candidate(
        os,
        home,
        "Path of Exile"@,
        i.path@,
    )
    ||| instance_is(i, "poe2-standalone"@, "poe"@, "Path of Exile 2"@, i.path@) && poe_candidate(
        os,
        home,
        "Path of Exile 2"@,
        i.path@,
    )
}

fn copy_opt(o: &Option<String>) -> (r: Option<String>)
    ensures
        ov(r) == ov(*o),
{
    match o {
        Some(s) => Some(text::copy_string(s)),
        None => None,
    }
}

fn probe_all(cands: Vec<String>) -> (r: Vec<(String, bool)>)
    ensures
        r.len() == cands.len(),
        forall|k: int| 0 <= k < r.len() ==> (#[trigger] r@[k]).0@ == cands@[k]@,
{
    let mut out: Vec<(String, bool)> = Vec::new();
    let mut i: usize = 0;
    while i < cands.len()
        invariant
            i <= cands.len(),
            out.len() == i,
            forall|k: int| 0 <= k < out.len() ==> (#[trigger] out@[k]).0@ == cands@[k]@,
        decreases cands.len() - i,
    {
        let c = text::copy_string(&cands[i]);
        let found = paths::path_exists(c.as_str());
        out.push((c, found));
        i = i + 1;
    }
    out
}

/// The Path of Exile installations on this machine, on the platform `os` with
/// home folder `home`: each edition at the first of its folders that exists.
/// Which folders exist depends on the disk; each installation reported is of
/// its own edition, at one of that edition's folders, Path of Exile before Path
/// of Exile 2, and there are none on platforms other than Windows and macOS.
pub fn find_poe_installations(os: &str, home: Option<String>) -> (r: Vec<GameInstance>)
    ensures
        r.len() <= 2,
        forall|i: int| 0 <= i < r.len() ==> poe_install_of(os@, ov(home), #[trigger] r@[i]),
        r.len() == 2 ==> r@[0].id@ == "poe1-standalone"@ && r@[1].id@ == "poe2-standalone"@,
        os@ != "windows"@ && os@ != "macos"@ ==> r.len() == 0,
{
    let ghost hv = ov(home);
    let c1 = poe_candidate_paths(os, copy_opt(&home), "Path of Exile");
    let c2 = poe_candidate_paths(os, home, "Path of Exile 2");
    let ghost (cv1, cv2) = (c1@, c2@);
    let p1 = probe_all(c1);
    let p2 = probe_all(c2);
    let r = poe_installs_from_probes(&p1, &p2);
    proof {
        let v1 = telemetry::probe_views(p1@);
        let v2 = telemetry::probe_views(p2@);
        lemma_first_existing_probed(v1);
        lemma_first_existing_probed(v2);
        if let Some(p) = telemetry::first_existing_spec(v1) {
            let k = choose|k: int| 0 <= k < v1.len() && (#[trigger] v1[k]).0 == p && v1[k].1;
            assert(p1@[k].0@ == cv1[k]@);
            assert(poe_candidate(os@, hv, "Path of Exile"@, cv1[k]@));
        }
        if let Some(p) = telemetry::first_existing_spec(v2) {
            let k = choose|k: int| 0 <= k < v2.len() && (#[trigger] v2[k]).0 == p && v2[k].1;
            assert(p2@[k].0@ == cv2[k]@);
            assert(poe_candidate(os@, hv, "Path of Exile 2"@, cv2[k]@));
        }
        if os@ != "windows"@ && os@ != "macos"@ {
            assert(v1.len() == 0 && v2.len() == 0);
        }
    }
    r
}

/// Path of Exile, installed where its first installation is, if anywhere.
pub fn poe_game_info(installs: &Vec<GameInstance>) -> (g: GameInfo)
    ensures
        g.id@ == "poe"@,
        g.name@ == "Path of Exile"@,
        g.icon@ == "\u{2694}"@,
        g.installed == (installs.len() > 0),
        installs.len() > 0 ==> (g.install_path matches Some(p) && p@ == installs@[0].path@),
        installs.len() == 0 ==> g.install_path is None,
{
    let first = if installs.len() > 0 {
        Some(text::copy_string(&installs[0].path))
    } else {
        None
    };
    game_info_for("poe", "Path of Exile", "\u{2694}", first)
}

/// RuneScape 3, installed at `path` if anywhere.
pub fn rs3_game_info(path: Option<String>) -> (g: GameInfo)
    ensures
        info_is(g, "runescape-rs3"@, "RuneScape (RS3)"@, "\u{2694}"@, path),
{
    game_info_for("runescape-rs3", "RuneScape (RS3)", "\u{2694}", path)
}

/// The RuneScape 3 instance, when installed.
pub fn rs3_instances(path: Option<String>) -> (r: Vec<GameInstance>)
    ensures
        match path {
            Some(p) => r.len() == 1 && instance_is(r@[0], "rs3-main"@, "runescape-rs3"@, "RuneScape"@, p@),
            None => r.len() == 0,
        },
{
    single_instance("rs3-main", "runescape-rs3", "RuneScape", path)
}

/// Old School RuneScape, installed at `path` if anywhere.
pub fn osrs_game_info(path: Option<String>) -> (g: GameInfo)
    ensures
        info_is(g, "runescape-osrs"@, "Old School RuneScape"@, "\u{2694}"@, path),
{
    game_info_for("runescape-osrs", "Old School RuneScape", "\u{2694}", path)
}

/// The Old School RuneScape instances: the Jagex Launcher one and the RuneLite
/// one, each when found.
pub fn osrs_instances(osrs: Option<String>, runelite: Option<String>) -> (r: Vec<GameInstance>)
    ensures
        r.len() == (if osrs is Some { 1int } else { 0 }) + (if runelite is Some { 1int } else { 0 }),
        osrs matches Some(p) ==> instance_is(r@[0], "osrs-jagex"@, "runescape-osrs"@, "Old School RuneScape (Jagex Launcher)"@, p@),
        runelite matches Some(p) ==> instance_is(r@[r.len() - 1], "osrs-runelite"@, "runescape-osrs"@, "Old School RuneScape (RuneLite)"@, p@),
{
    let mut v: Vec<GameInstance> = Vec::new();
    match osrs {
        Some(p) => v.push(instance_for("osrs-jagex", "runescape-osrs", "Old School RuneScape (Jagex Launcher)", p)),
        None => {},
    }
    match runelite {
        Some(p) => v.push(instance_for("osrs-runelite", "runescape-osrs", "Old School RuneScape (RuneLite)", p)),
        None => {},
    }
    v
}

/// Escape from Tarkov, installed at `install` if anywhere.
pub fn tarkov_game_info(install: Option<String>) -> (g: GameInfo)
    ensures
        info_is(g, "tarkov"@, "Escape from Tarkov"@, "\u{2694}"@, install),
{
    game_info_for("tarkov", "Escape from Tarkov", "\u{2694}", install)
}

/// The Escape from Tarkov instance, when installed.
pub fn tarkov_instances(install: Option<String>) -> (r: Vec<GameInstance>)
    ensures
        match install {
            Some(p) => r.len() == 1 && instance_is(r@[0], "tarkov-live"@, "tarkov"@, "Escape from Tarkov"@, p@),
            None => r.len() == 0,
        },
{
    single_instance("tarkov-live", "tarkov", "Escape from Tarkov", install)
}

/// Ammunition data from the Tarkov API.
#[derive(Debug, Clone)]
pub struct AmmoData {
    pub name: String,
    pub short_name: String,
    pub caliber: String,
    pub damage: i32,
    pub penetration: i32,
    pub armor_damage: i32,
}

/// Flea-market prices of an item from the Tarkov API.
#[derive(Debug, Clone)]
pub struct ItemPrice {
    pub name: String,
    pub short_name: String,
    pub avg_24h_price: i64,
    pub last_low_price: i64,
}

/// The error for a Tarkov API answer with errors: their messages joined by `; `.
pub fn tarkov_errors_message(messages: &Vec<String>) -> (r: String)
    ensures
        r@ == "Tarkov API errors: "@ + text::join(text::sviews(messages@), "; "@),
{
    let mut m: Vec<char> = Vec::new();
    text::push_str(&mut m, "Tarkov API errors: ");
    let j = text::join_strings(messages, "; ");
    text::push_chars(&mut m, &j);
    text::string_of(m.as_slice())
}

/// Steam, installed at `path` if anywhere.
pub fn steam_game_info(path: Option<String>) -> (g: GameInfo)
    ensures
        info_is(g, "steam"@, "Steam"@, "\u{2636}"@, path),
{
    game_info_for("steam", "Steam", "\u{2636}", path)
}

/// The value of a manifest line: the text between its third and fourth `"`
/// (`split('"').nth(3)`).
pub open spec fn quoted_value(line: Seq<char>) -> Option<Seq<char>> {
    let parts = text::split_char(line, '"');
    if parts.len() > 3 {
        Some(parts[3])
    } else {
        None
    }
}

/// The value of the first line whose trimmed text starts with `"key"`.
pub open spec fn manifest_value(ls: Seq<Seq<char>>, key: Seq<char>) -> Option<Seq<char>>
    decreases ls.len(),
{
    if ls.len() == 0 {
        None
    } else if text::is_prefix(seq!['"'] + key + seq!['"'], text::trim(ls[0])) {
        quoted_value(ls[0])
    } else {
        manifest_value(ls.drop_first(), key)
    }
}

fn quoted_value_of(line: &Vec<char>) -> (r: Option<Vec<char>>)
    ensures
        match r {
            Some(v) => quoted_value(line@) == Some(v@),
            None => quoted_value(line@) is None,
        },
{
    let parts = text::split_on(line, '"');
    if parts.len() > 3 {
        assert(text::vviews(parts@)[3] == parts@[3]@);
        let v = text::slice_to_vec(&parts[3], 0, parts[3].len());
        assert(parts@[3]@.subrange(0, parts@[3]@.len() as int) == parts@[3]@);
        Some(v)
    } else {
        None
    }
}

fn manifest_value_of(ls: &Vec<Vec<char>>, key: &str) -> (r: Option<Vec<char>>)
    ensures
        match r {
            Some(v) => manifest_value(text::vviews(ls@), key@) == Some(v@),
            None => manifest_value(text::vviews(ls@), key@) is None,
        },
{
    let ghost lv = text::vviews(ls@);
    let mut pat: Vec<char> = Vec::new();
    pat.push('"');
    text::push_str(&mut pat, key);
    pat.push('"');
    assert(pat@ =~= seq!['"'] + key@ + seq!['"']);
    let mut i: usize = 0;
    assert(lv.skip(0) == lv);
    while i < ls.len()
        invariant
            i <= ls.len(),
            lv == text::vviews(ls@),
            pat@ == seq!['"'] + key@ + seq!['"'],
            manifest_value(lv, key@) == manifest_value(lv.skip(i as int), key@),
        decreases ls.len() - i,
    {
        assert(lv.skip(i as int)[0] == ls@[i as int]@);
        assert(lv.skip(i as int).drop_first() == lv.skip(i + 1));
        let t = text::trim_vec(&ls[i]);
        if text::seq_starts_with(&t, &pat) {
            return quoted_value_of(&ls[i]);
        }
        i = i + 1;
    }
    assert(lv.skip(i as int).len() == 0);
    None
}

/// A game of a Steam app manifest: app id, name and install folder, all present,
/// and a name that marks no redistributable, Proton or runtime package.
pub open spec fn manifest_game(content: Seq<char>) -> Option<(Seq<char>, Seq<char>, Seq<char>)> {
    let ls = text::lines(content);
    match (manifest_value(ls, "appid"@), manifest_value(ls, "name"@), manifest_value(ls, "installdir"@)) {
        (Some(a), Some(n), Some(d)) => if text::contains(n, "Redistributable"@) || text::contains(n, "Proton"@)
            || text::contains(n, "Runtime"@) {
            None
        } else {
            Some((a, n, d))
        },
        _ => None,
    }
}

/// `p` is `library/common/<dir>`, with the separators that `join` may put in.
pub open spec fn steam_game_path(library: Seq<char>, dir: Seq<char>, p: Seq<char>) -> bool {
    exists|s1: Seq<char>, s2: Seq<char>|
        #![trigger paths::separator_text(s1), paths::separator_text(s2)]
        paths::separator_text(s1) && paths::separator_text(s2)
            && p == library + s1 + "common"@ + s2 + dir
}

/// The game of a Steam `appmanifest_*.acf` text in the library folder
/// `library_path`: id `steam-<appid>`, the manifest's name, and as path the
/// library's `common/<installdir>` (joined with the platform's separator). The
/// path is stated where the install folder is a plain name and the library
/// path is not a verbatim Windows path.
pub fn parse_app_manifest(content: &str, library_path: &str) -> (r: Option<GameInstance>)
    ensures
        match manifest_game(content@) {
            Some(g) => r matches Some(i) && i.id@ == "steam-"@ + g.0 && i.game_id@ == "steam"@
                && i.name@ == g.1 && i.version is None && i.last_played is None
                && (paths::plain_name(g.2) ==> text::is_suffix(g.2, i.path@))
                && (paths::plain_name(g.2) && paths::safe_base(library_path@)
                    ==> steam_game_path(library_path@, g.2, i.path@)),
            None => r is None,
        },
{
    let cs = text::chars_of(content);
    let ls = text::lines_of(&cs);
    let app_id = match manifest_value_of(&ls, "appid") {
        Some(v) => v,
        None => return None,
    };
    let name = match manifest_value_of(&ls, "name") {
        Some(v) => v,
        None => return None,
    };
    let dir = match manifest_value_of(&ls, "installdir") {
        Some(v) => v,
        None => return None,
    };
    if text::contains_str(&name, "Redistributable") || text::contains_str(&name, "Proton")
        || text::contains_str(&name, "Runtime") {
        return None;
    }
    let mut id: Vec<char> = Vec::new();
    text::push_str(&mut id, "steam-");
    text::push_chars(&mut id, &app_id);
    let common = paths::path_join(library_path, "common");
    let dir_s = text::string_of(dir.as_slice());
    let game_path = paths::path_join(common.as_str(), dir_s.as_str());
    proof {
        reveal_strlit("common");
        reveal_strlit(".");
        reveal_strlit("..");
        assert("common"@.len() != "."@.len() && "common"@.len() != ".."@.len());
        assert(paths::plain_name("common"@));
        if paths::plain_name(dir@) && paths::safe_base(library_path@) {
            paths::lemma_joined_safe(library_path@, "common"@, common@);
            let s1 = choose|s: Seq<char>|
                paths::separator_text(s) && common@ == library_path@ + s + "common"@;
            let s2 = choose|s: Seq<char>|
                paths::separator_text(s) && game_path@ == common@ + s + dir@;
            assert(paths::separator_text(s1) && paths::separator_text(s2));
            assert(game_path@ == library_path@ + s1 + "common"@ + s2 + dir@);
        }
    }
    Some(
        GameInstance {
            id: text::string_of(id.as_slice()),
            game_id: text::to_string("steam"),
            name: text::string_of(name.as_slice()),
            path: game_path,
            version: None,
            last_played: None,
        },
    )
}

/// The library folders of a line of `libraryfolders.vdf`: a line whose trimmed
/// text, without its surrounding quotes, mentions `path`, gives its fourth
/// `"`-separated field with each `\\` turned into `\`.
pub open spec fn library_path_of(line: Seq<char>) -> Option<Seq<char>> {
    if text::contains(text::trim_char(text::trim(line), '"'), "path"@) {
        match quoted_value(line) {
            Some(v) => Some(text::replace_all(v, "\\\\"@, "\\"@)),
            None => None,
        }
    } else {
        None
    }
}

/// The library folders that the lines name, in order.
pub open spec fn library_paths(ls: Seq<Seq<char>>) -> Seq<Seq<char>>
    decreases ls.len(),
{
    if ls.len() == 0 {
        Seq::empty()
    } else {
        let prev = library_paths(ls.drop_last());
        match library_path_of(ls.last()) {
            Some(p) => prev.push(p),
            None => prev,
        }
    }
}

/// The library folders that a `libraryfolders.vdf` text names (each holds a
/// `steamapps` folder of its own).
pub fn parse_library_folders(content: &str) -> (r: Vec<String>)
    ensures
        text::sviews(r@) == library_paths(text::lines(content@)),
{
    let cs = text::chars_of(content);
    let ls = text::lines_of(&cs);
    let ghost lv = text::vviews(ls@);
    let mut out: Vec<String> = Vec::new();
    let mut i: usize = 0;
    assert(lv.take(0) == Seq::<Seq<char>>::empty());
    assert(text::sviews(out@) =~= Seq::<Seq<char>>::empty());
    while i < ls.len()
        invariant
            i <= ls.len(),
            lv == text::vviews(ls@),
            text::sviews(out@) == library_paths(lv.take(i as int)),
        decreases ls.len() - i,
    {
        assert(lv.take(i + 1).drop_last() == lv.take(i as int));
        assert(lv.take(i + 1).last() == ls@[i as int]@);
        let t = text::trim_vec(&ls[i]);
        let a = text::trim_start_char_vec(&t, '"');
        let b = text::trim_end_char_vec(&a, '"');
        if text::contains_str(&b, "path") {
            match quoted_value_of(&ls[i]) {
                Some(v) => {
                    let p = text::replace_all_vec(&v, "\\\\", "\\");
                    let ghost before = text::sviews(out@);
                    out.push(text::string_of(p.as_slice()));
                    assert(text::sviews(out@) =~= before.push(p@));
                },
                None => {},
            }
        }
        i = i + 1;
    }
    assert(lv.take(ls.len() as int) == lv);
    out
}

} // verus!
