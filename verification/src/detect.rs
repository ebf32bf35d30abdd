//! Which game is running: matching process names against known games, and what
//! the automatic session tracking does about it.
use vstd::prelude::*;
use crate::text;

verus! {

/// A game found among the running processes.
#[derive(Debug, Clone)]
pub struct DetectedGame {
    pub game_id: String,
    pub game_name: String,
    pub process_name: String,
    pub window_title: Option<String>,
    pub is_running: bool,
}

/// A screen capture taken for game detection.
#[derive(Debug, Clone)]
pub struct CaptureResult {
    pub width: u32,
    pub height: u32,
    pub window_title: String,
    pub timestamp: String,
    pub has_image: bool,
}

/// A known game: its id, its name and the process-name patterns that reveal it.
#[derive(Debug, Clone)]
pub struct GameRow {
    pub game_id: String,
    pub game_name: String,
    pub patterns: Vec<String>,
}

/// A game row as texts.
pub type RowText = (Seq<char>, Seq<char>, Seq<Seq<char>>);

pub open spec fn row_views(v: Seq<GameRow>) -> Seq<RowText> {
    Seq::new(v.len(), |i: int| (v[i].game_id@, v[i].game_name@, text::sviews(v[i].patterns@)))
}

/// The known games, in the order they are looked for.
pub open spec fn known_games() -> Seq<RowText> {
    seq![
        ("minecraft"@, "Minecraft"@, seq!["java"@, "javaw"@, "minecraft"@]),
        ("league"@, "League of Legends"@, seq!["LeagueClient"@, "League of Legends"@]),
        ("valorant"@, "VALORANT"@, seq!["VALORANT-Win64-Shipping"@]),
        ("tarkov"@, "Escape from Tarkov"@, seq!["EscapeFromTarkov"@]),
        ("runescape"@, "RuneScape"@, seq!["rs2client"@, "RuneScape"@, "runelite"@]),
        ("poe"@, "Path of Exile"@, seq!["PathOfExile"@, "PathOfExile_x64"@, "PathOfExileSteam"@]),
        ("csgo"@, "Counter-Strike"@, seq!["cs2"@, "csgo"@]),
        ("fortnite"@, "Fortnite"@, seq!["FortniteClient-Win64-Shipping"@]),
        ("overwatch"@, "Overwatch"@, seq!["Overwatch"@]),
        ("apex"@, "Apex Legends"@, seq!["r5apex"@]),
        ("gta5"@, "GTA V"@, seq!["GTA5"@, "PlayGTAV"@]),
        ("cyberpunk"@, "Cyberpunk 2077"@, seq!["Cyberpunk2077"@]),
        ("wow"@, "World of Warcraft"@, seq!["Wow"@, "WowClassic"@]),
        ("diablo4"@, "Diablo IV"@, seq!["Diablo IV"@]),
        ("steam_generic"@, "Steam Game"@, Seq::<Seq<char>>::empty()),
    ]
}

/// The known games, in the order they are looked for.
pub fn known_game_rows() -> (r: Vec<GameRow>)
    ensures
        row_views(r@) == known_games(),
{
    let mut rows: Vec<GameRow> = Vec::new();
    assert(row_views(rows@) =~= Seq::<RowText>::empty());
    let ghost b = row_views(rows@);
    let mut pats: Vec<String> = Vec::new();
    pats.push(text::to_string("java"));
    pats.push(text::to_string("javaw"));
    pats.push(text::to_string("minecraft"));
    assert(text::sviews(pats@) =~= seq!["java"@, "javaw"@, "minecraft"@]);
    rows.push(GameRow { game_id: text::to_string("minecraft"), game_name: text::to_string("Minecraft"), patterns: pats });
    assert(row_views(rows@) =~= b.push(("minecraft"@, "Minecraft"@, seq!["java"@, "javaw"@, "minecraft"@])));
    let ghost b = row_views(rows@);
    let mut pats: Vec<String> = Vec::new();
    pats.push(text::to_string("LeagueClient"));
    pats.push(text::to_string("League of Legends"));
    assert(text::sviews(pats@) =~= seq!["LeagueClient"@, "League of Legends"@]);
    rows.push(GameRow { game_id: text::to_string("league"), game_name: text::to_string("League of Legends"), patterns: pats });
    assert(row_views(rows@) =~= b.push(("league"@, "League of Legends"@, seq!["LeagueClient"@, "League of Legends"@])));
    let ghost b = row_views(rows@);
    let mut pats: Vec<String> = Vec::new();
    pats.push(text::to_string("VALORANT-Win64-Shipping"));
    assert(text::sviews(pats@) =~= seq!["VALORANT-Win64-Shipping"@]);
    rows.push(GameRow { game_id: text::to_string("valorant"), game_name: text::to_string("VALORANT"), patterns: pats });
    assert(row_views(rows@) =~= b.push(("valorant"@, "VALORANT"@, seq!["VALORANT-Win64-Shipping"@])));
    let ghost b = row_views(rows@);
    let mut pats: Vec<String> = Vec::new();
    pats.push(text::to_string("EscapeFromTarkov"));
    assert(text::sviews(pats@) =~= seq!["EscapeFromTarkov"@]);
    rows.push(GameRow { game_id: text::to_string("tarkov"), game_name: text::to_string("Escape from Tarkov"), patterns: pats });
    assert(row_views(rows@) =~= b.push(("tarkov"@, "Escape from Tarkov"@, seq!["EscapeFromTarkov"@])));
    let ghost b = row_views(rows@);
    let mut pats: Vec<String> = Vec::new();
    pats.push(text::to_string("rs2client"));
    pats.push(text::to_string("RuneScape"));
    pats.push(text::to_string("runelite"));
    assert(text::sviews(pats@) =~= seq!["rs2client"@, "RuneScape"@, "runelite"@]);
    rows.push(GameRow { game_id: text::to_string("runescape"), game_name: text::to_string("RuneScape"), patterns: pats });
    assert(row_views(rows@) =~= b.push(("runescape"@, "RuneScape"@, seq!["rs2client"@, "RuneScape"@, "runelite"@])));
    let ghost b = row_views(rows@);
    let mut pats: Vec<String> = Vec::new();
    pats.push(text::to_string("PathOfExile"));
    pats.push(text::to_string("PathOfExile_x64"));
    pats.push(text::to_string("PathOfExileSteam"));
    assert(text::sviews(pats@) =~= seq!["PathOfExile"@, "PathOfExile_x64"@, "PathOfExileSteam"@]);
    rows.push(GameRow { game_id: text::to_string("poe"), game_name: text::to_string("Path of Exile"), patterns: pats });
    assert(row_views(rows@) =~= b.push(("poe"@, "Path of Exile"@, seq!["PathOfExile"@, "PathOfExile_x64"@, "PathOfExileSteam"@])));
    let ghost b = row_views(rows@);
    let mut pats: Vec<String> = Vec::new();
    pats.push(text::to_string("cs2"));
    pats.push(text::to_string("csgo"));
    assert(text::sviews(pats@) =~= seq!["cs2"@, "csgo"@]);
    rows.push(GameRow { game_id: text::to_string("csgo"), game_name: text::to_string("Counter-Strike"), patterns: pats });
    assert(row_views(rows@) =~= b.push(("csgo"@, "Counter-Strike"@, seq!["cs2"@, "csgo"@])));
    let ghost b = row_views(rows@);
    let mut pats: Vec<String> = Vec::new();
    pats.push(text::to_string("FortniteClient-Win64-Shipping"));
    assert(text::sviews(pats@) =~= seq!["FortniteClient-Win64-Shipping"@]);
    rows.push(GameRow { game_id: text::to_string("fortnite"), game_name: text::to_string("Fortnite"), patterns: pats });
    assert(row_views(rows@) =~= b.push(("fortnite"@, "Fortnite"@, seq!["FortniteClient-Win64-Shipping"@])));
    let ghost b = row_views(rows@);
    let mut pats: Vec<String> = Vec::new();
    pats.push(text::to_string("Overwatch"));
    assert(text::sviews(pats@) =~= seq!["Overwatch"@]);
    rows.push(GameRow { game_id: text::to_string("overwatch"), game_name: text::to_string("Overwatch"), patterns: pats });
    assert(row_views(rows@) =~= b.push(("overwatch"@, "Overwatch"@, seq!["Overwatch"@])));
    let ghost b = row_views(rows@);
    let mut pats: Vec<String> = Vec::new();
    pats.push(text::to_string("r5apex"));
    assert(text::sviews(pats@) =~= seq!["r5apex"@]);
    rows.push(GameRow { game_id: text::to_string("apex"), game_name: text::to_string("Apex Legends"), patterns: pats });
    assert(row_views(rows@) =~= b.push(("apex"@, "Apex Legends"@, seq!["r5apex"@])));
    let ghost b = row_views(rows@);
    let mut pats: Vec<String> = Vec::new();
    pats.push(text::to_string("GTA5"));
    pats.push(text::to_string("PlayGTAV"));
    assert(text::sviews(pats@) =~= seq!["GTA5"@, "PlayGTAV"@]);
    rows.push(GameRow { game_id: text::to_string("gta5"), game_name: text::to_string("GTA V"), patterns: pats });
    assert(row_views(rows@) =~= b.push(("gta5"@, "GTA V"@, seq!["GTA5"@, "PlayGTAV"@])));
    let ghost b = row_views(rows@);
    let mut pats: Vec<String> = Vec::new();
    pats.push(text::to_string("Cyberpunk2077"));
    assert(text::sviews(pats@) =~= seq!["Cyberpunk2077"@]);
    rows.push(GameRow { game_id: text::to_string("cyberpunk"), game_name: text::to_string("Cyberpunk 2077"), patterns: pats });
    assert(row_views(rows@) =~= b.push(("cyberpunk"@, "Cyberpunk 2077"@, seq!["Cyberpunk2077"@])));
    let ghost b = row_views(rows@);
    let mut pats: Vec<String> = Vec::new();
    pats.push(text::to_string("Wow"));
    pats.push(text::to_string("WowClassic"));
    assert(text::sviews(pats@) =~= seq!["Wow"@, "WowClassic"@]);
    rows.push(GameRow { game_id: text::to_string("wow"), game_name: text::to_string("World of Warcraft"), patterns: pats });
    assert(row_views(rows@) =~= b.push(("wow"@, "World of Warcraft"@, seq!["Wow"@, "WowClassic"@])));
    let ghost b = row_views(rows@);
    let mut pats: Vec<String> = Vec::new();
    pats.push(text::to_string("Diablo IV"));
    assert(text::sviews(pats@) =~= seq!["Diablo IV"@]);
    rows.push(GameRow { game_id: text::to_string("diablo4"), game_name: text::to_string("Diablo IV"), patterns: pats });
    assert(row_views(rows@) =~= b.push(("diablo4"@, "Diablo IV"@, seq!["Diablo IV"@])));
    let ghost b = row_views(rows@);
    let pats: Vec<String> = Vec::new();
    assert(text::sviews(pats@) =~= Seq::<Seq<char>>::empty());
    rows.push(GameRow { game_id: text::to_string("steam_generic"), game_name: text::to_string("Steam Game"), patterns: pats });
    assert(row_views(rows@) =~= b.push(("steam_generic"@, "Steam Game"@, Seq::<Seq<char>>::empty())));
    assert(row_views(rows@) =~= known_games());
    rows
}

/// A process name matches a pattern when, both lower-cased, the name contains it.
pub open spec fn proc_matches(proc: Seq<char>, pattern: Seq<char>) -> bool {
    text::contains(text::spec_lowercase(proc), text::spec_lowercase(pattern))
}

/// A process name matches one of the patterns.
pub open spec fn matches_any(proc: Seq<char>, pats: Seq<Seq<char>>) -> bool {
    exists|k: int| 0 <= k < pats.len() && #[trigger] proc_matches(proc, pats[k])
}

/// The first process that matches one of the patterns.
pub open spec fn first_matching_proc(procs: Seq<Seq<char>>, pats: Seq<Seq<char>>) -> Option<Seq<char>>
    decreases procs.len(),
{
    if procs.len() == 0 {
        None
    } else if matches_any(procs[0], pats) {
        Some(procs[0])
    } else {
        first_matching_proc(procs.drop_first(), pats)
    }
}

/// The first known game (with patterns) that a process reveals, with the first
/// such process.
pub open spec fn detect_in(games: Seq<RowText>, procs: Seq<Seq<char>>) -> Option<(RowText, Seq<char>)>
    decreases games.len(),
{
    if games.len() == 0 {
        None
    } else {
        match first_matching_proc(procs, games[0].2) {
            Some(p) => if games[0].2.len() > 0 {
                Some((games[0], p))
            } else {
                detect_in(games.drop_first(), procs)
            },
            None => detect_in(games.drop_first(), procs),
        }
    }
}

/// Every known game (with patterns) that a process reveals, in table order, each
/// with the first such process.
pub open spec fn detect_all_in(games: Seq<RowText>, procs: Seq<Seq<char>>) -> Seq<(RowText, Seq<char>)>
    decreases games.len(),
{
    if games.len() == 0 {
        Seq::empty()
    } else {
        let prev = detect_all_in(games.drop_last(), procs);
        let g = games.last();
        match first_matching_proc(procs, g.2) {
            Some(p) => if g.2.len() > 0 {
                prev.push((g, p))
            } else {
                prev
            },
            None => prev,
        }
    }
}

/// Whether `proc` matches one of `pats`.
fn matches_any_exec(proc: &String, pats: &Vec<String>) -> (r: bool)
    ensures
        r == matches_any(proc@, text::sviews(pats@)),
{
    let lower_s = text::lowercase(proc.as_str());
    let lower = text::chars_of_string(&lower_s);
    let mut k: usize = 0;
    while k < pats.len()
        invariant
            k <= pats.len(),
            lower@ == text::spec_lowercase(proc@),
            forall|j: int| 0 <= j < k ==> !proc_matches(proc@, #[trigger] text::sviews(pats@)[j]),
        decreases pats.len() - k,
    {
        let pl = text::lowercase(pats[k].as_str());
        let pv = text::chars_of_string(&pl);
        assert(text::sviews(pats@)[k as int] == pats@[k as int]@);
        if text::seq_contains(&lower, &pv) {
            assert(proc_matches(proc@, text::sviews(pats@)[k as int]));
            return true;
        }
        k = k + 1;
    }
    false
}

/// The first process that matches one of `pats`.
fn first_matching(procs: &Vec<String>, pats: &Vec<String>) -> (r: Option<String>)
    ensures
        match r {
            Some(p) => first_matching_proc(text::sviews(procs@), text::sviews(pats@)) == Some(p@),
            None => first_matching_proc(text::sviews(procs@), text::sviews(pats@)) is None,
        },
{
    let ghost pv = text::sviews(procs@);
    let mut i: usize = 0;
    assert(pv.skip(0) == pv);
    while i < procs.len()
        invariant
            i <= procs.len(),
            pv == text::sviews(procs@),
            first_matching_proc(pv, text::sviews(pats@)) == first_matching_proc(pv.skip(i as int), text::sviews(pats@)),
        decreases procs.len() - i,
    {
        assert(pv.skip(i as int)[0] == procs@[i as int]@);
        assert(pv.skip(i as int).drop_first() == pv.skip(i + 1));
        if matches_any_exec(&procs[i], pats) {
            return Some(text::copy_string(&procs[i]));
        }
        i = i + 1;
    }
    assert(pv.skip(i as int).len() == 0);
    None
}

/// The detection as game texts, process name and window title.
pub open spec fn detected_view(d: DetectedGame) -> (Seq<char>, Seq<char>, Seq<char>) {
    (d.game_id@, d.game_name@, d.process_name@)
}

/// The first known game that one of the running processes reveals (games in table
/// order, processes in the order given), with the window title given.
pub fn detect_running_game(process_names: &Vec<String>, window_title: Option<String>) -> (r: Option<DetectedGame>)
    ensures
        match r {
            Some(d) => detect_in(known_games(), text::sviews(process_names@)) matches Some(x)
                && detected_view(d) == (x.0.0, x.0.1, x.1) && d.window_title == window_title
                && d.is_running,
            None => detect_in(known_games(), text::sviews(process_names@)) is None,
        },
{
    let rows = known_game_rows();
    let ghost gv = known_games();
    let ghost pv = text::sviews(process_names@);
    let mut i: usize = 0;
    assert(gv.skip(0) == gv);
    while i < rows.len()
        invariant
            i <= rows.len(),
            row_views(rows@) == gv,
            gv == known_games(),
            pv == text::sviews(process_names@),
            detect_in(gv, pv) == detect_in(gv.skip(i as int), pv),
        decreases rows.len() - i,
    {
        let row = &rows[i];
        assert(gv.skip(i as int)[0] == gv[i as int]);
        assert(gv.skip(i as int).drop_first() == gv.skip(i + 1));
        if row.patterns.len() > 0 {
            match first_matching(process_names, &row.patterns) {
                Some(p) => {
                    return Some(
                        DetectedGame {
                            game_id: text::copy_string(&row.game_id),
                            game_name: text::copy_string(&row.game_name),
                            process_name: p,
                            window_title,
                            is_running: true,
                        },
                    );
                },
                None => {},
            }
        }
        i = i + 1;
    }
    assert(gv.skip(i as int).len() == 0);
    None
}

pub open spec fn detected_views(v: Seq<DetectedGame>) -> Seq<(RowText, Seq<char>)> {
    Seq::new(v.len(), |i: int| ((v[i].game_id@, v[i].game_name@, Seq::<Seq<char>>::empty()), v[i].process_name@))
}

/// The known game's texts without its patterns.
pub open spec fn strip_patterns(v: Seq<(RowText, Seq<char>)>) -> Seq<(RowText, Seq<char>)> {
    Seq::new(v.len(), |i: int| ((v[i].0.0, v[i].0.1, Seq::<Seq<char>>::empty()), v[i].1))
}

/// Every known game that one of the running processes reveals, each once.
pub fn detect_all_running_games(process_names: &Vec<String>) -> (r: Vec<DetectedGame>)
    ensures
        detected_views(r@) == strip_patterns(detect_all_in(known_games(), text::sviews(process_names@))),
        forall|i: int| 0 <= i < r.len() ==> (#[trigger] r@[i]).window_title is None && r@[i].is_running,
{
    let rows = known_game_rows();
    let ghost gv = known_games();
    let ghost pv = text::sviews(process_names@);
    let mut found: Vec<DetectedGame> = Vec::new();
    let mut i: usize = 0;
    assert(gv.take(0) == Seq::<RowText>::empty());
    assert(detected_views(found@) =~= strip_patterns(detect_all_in(gv.take(0), pv)));
    while i < rows.len()
        invariant
            i <= rows.len(),
            row_views(rows@) == gv,
            gv == known_games(),
            pv == text::sviews(process_names@),
            detected_views(found@) == strip_patterns(detect_all_in(gv.take(i as int), pv)),
            forall|k: int| 0 <= k < found.len() ==> (#[trigger] found@[k]).window_title is None && found@[k].is_running,
        decreases rows.len() - i,
    {
        let row = &rows[i];
        assert(gv.take(i + 1).drop_last() == gv.take(i as int));
        assert(gv.take(i + 1).last() == gv[i as int]);
        let ghost before = detect_all_in(gv.take(i as int), pv);
        if row.patterns.len() > 0 {
            match first_matching(process_names, &row.patterns) {
                Some(p) => {
                    let ghost pp = p@;
                    let ghost dv = detected_views(found@);
                    found.push(
                        DetectedGame {
                            game_id: text::copy_string(&row.game_id),
                            game_name: text::copy_string(&row.game_name),
                            process_name: p,
                            window_title: None,
                            is_running: true,
                        },
                    );
                    assert(detected_views(found@) =~= dv.push(((gv[i as int].0, gv[i as int].1, Seq::<Seq<char>>::empty()), pp)));
                    assert(strip_patterns(before.push((gv[i as int], pp))) =~= strip_patterns(before).push(((gv[i as int].0, gv[i as int].1, Seq::<Seq<char>>::empty()), pp)));
                },
                None => {},
            }
        }
        i = i + 1;
    }
    assert(gv.take(rows.len() as int) == gv);
    found
}

// ---------------------------------------------------------------------------
// Automatic sessions
// ---------------------------------------------------------------------------

/// The process patterns that start an automatic session, with the game they reveal.
pub open spec fn session_patterns() -> Seq<(Seq<char>, Seq<char>)> {
    seq![
        ("java"@, "minecraft"@),
        ("javaw"@, "minecraft"@),
        ("LeagueClient"@, "league"@),
        ("League of Legends"@, "league"@),
        ("EscapeFromTarkov"@, "tarkov"@),
        ("PathOfExile"@, "poe"@),
        ("rs2client"@, "runescape"@),
        ("runelite"@, "runescape"@),
    ]
}

pub open spec fn pair_views(v: Seq<(&str, &str)>) -> Seq<(Seq<char>, Seq<char>)> {
    Seq::new(v.len(), |i: int| (v[i].0@, v[i].1@))
}

fn session_pattern_list() -> (r: Vec<(&'static str, &'static str)>)
    ensures
        pair_views(r@) == session_patterns(),
{
    let r = vec![
        ("java", "minecraft"),
        ("javaw", "minecraft"),
        ("LeagueClient", "league"),
        ("League of Legends", "league"),
        ("EscapeFromTarkov", "tarkov"),
        ("PathOfExile", "poe"),
        ("rs2client", "runescape"),
        ("runelite", "runescape"),
    ];
    assert(pair_views(r@) =~= session_patterns());
    r
}

/// The game of the first pattern that a process name matches.
pub open spec fn game_of_proc(proc: Seq<char>, pats: Seq<(Seq<char>, Seq<char>)>) -> Option<Seq<char>>
    decreases pats.len(),
{
    if pats.len() == 0 {
        None
    } else if proc_matches(proc, pats[0].0) {
        Some(pats[0].1)
    } else {
        game_of_proc(proc, pats.drop_first())
    }
}

/// The first process (in the order given) that reveals a game, with that game.
pub open spec fn session_game_in(procs: Seq<Seq<char>>) -> Option<(Seq<char>, Seq<char>)>
    decreases procs.len(),
{
    if procs.len() == 0 {
        None
    } else {
        match game_of_proc(procs[0], session_patterns()) {
            Some(g) => Some((g, procs[0])),
            None => session_game_in(procs.drop_first()),
        }
    }
}

fn game_of(proc: &String, pats: &Vec<(&'static str, &'static str)>) -> (r: Option<String>)
    requires
        pair_views(pats@) == session_patterns(),
    ensures
        match r {
            Some(g) => game_of_proc(proc@, session_patterns()) == Some(g@),
            None => game_of_proc(proc@, session_patterns()) is None,
        },
{
    let ghost sv = session_patterns();
    let lower_s = text::lowercase(proc.as_str());
    let lower = text::chars_of_string(&lower_s);
    let mut k: usize = 0;
    assert(sv.skip(0) == sv);
    while k < pats.len()
        invariant
            k <= pats.len(),
            pair_views(pats@) == sv,
            sv == session_patterns(),
            lower@ == text::spec_lowercase(proc@),
            game_of_proc(proc@, sv) == game_of_proc(proc@, sv.skip(k as int)),
        decreases pats.len() - k,
    {
        let (pattern, game) = pats[k];
        assert(sv.skip(k as int)[0] == (pattern@, game@));
        assert(sv.skip(k as int).drop_first() == sv.skip(k + 1));
        let pl = text::lowercase(pattern);
        let pv = text::chars_of_string(&pl);
        if text::seq_contains(&lower, &pv) {
            assert(proc_matches(proc@, sv.skip(k as int)[0].0));
            return Some(text::to_string(game));
        }
        k = k + 1;
    }
    assert(sv.skip(k as int).len() == 0);
    None
}

/// The game that starts an automatic session, and the process that revealed it.
pub fn detect_session_game(process_names: &Vec<String>) -> (r: Option<(String, String)>)
    ensures
        match r {
            Some(p) => session_game_in(text::sviews(process_names@)) == Some((p.0@, p.1@)),
            None => session_game_in(text::sviews(process_names@)) is None,
        },
{
    let pats = session_pattern_list();
    let ghost pv = text::sviews(process_names@);
    let mut i: usize = 0;
    assert(pv.skip(0) == pv);
    while i < process_names.len()
        invariant
            i <= process_names.len(),
            pair_views(pats@) == session_patterns(),
            pv == text::sviews(process_names@),
            session_game_in(pv) == session_game_in(pv.skip(i as int)),
        decreases process_names.len() - i,
    {
        assert(pv.skip(i as int)[0] == process_names@[i as int]@);
        assert(pv.skip(i as int).drop_first() == pv.skip(i + 1));
        match game_of(&process_names[i], &pats) {
            Some(g) => {
                return Some((g, text::copy_string(&process_names[i])));
            },
            None => {},
        }
        i = i + 1;
    }
    assert(pv.skip(i as int).len() == 0);
    None
}

/// What automatic session tracking does.
#[derive(Debug, Clone)]
pub enum SessionAction {
    /// A game runs and no session is active: start one.
    Start { game_id: String, process_name: String },
    /// A session is active but no game runs: end it.
    End { session_id: String },
    /// A session is active and a game runs: keep it.
    Active { session_id: String, game_id: String },
    /// Nothing runs and nothing is active.
    Idle,
}

/// The action for the active session (if any) and the detected game and process
/// (if any).
pub fn session_action(active_session: Option<String>, detected: Option<(String, String)>) -> (r: SessionAction)
    ensures
        match (active_session, detected) {
            (None, Some(d)) => r matches SessionAction::Start { game_id, process_name }
                && game_id@ == d.0@ && process_name@ == d.1@,
            (Some(s), None) => r matches SessionAction::End { session_id } && session_id@ == s@,
            (Some(s), Some(d)) => r matches SessionAction::Active { session_id, game_id }
                && session_id@ == s@ && game_id@ == d.0@,
            (None, None) => r is Idle,
        },
{
    match (active_session, detected) {
        (None, Some((game_id, process_name))) => SessionAction::Start { game_id, process_name },
        (Some(session_id), None) => SessionAction::End { session_id },
        (Some(session_id), Some((game_id, _))) => SessionAction::Active { session_id, game_id },
        (None, None) => SessionAction::Idle,
    }
}

/// The instance id and name of an automatic session for `game_id` revealed by
/// `process_name`: `auto-<game>` and `Auto-detected: <process>`.
pub fn auto_session_labels(game_id: &str, process_name: &str) -> (r: (String, String))
    ensures
        r.0@ == "auto-"@ + game_id@,
        r.1@ == "Auto-detected: "@ + process_name@,
{
    let mut a: Vec<char> = Vec::new();
    text::push_str(&mut a, "auto-");
    text::push_str(&mut a, game_id);
    let mut b: Vec<char> = Vec::new();
    text::push_str(&mut b, "Auto-detected: ");
    text::push_str(&mut b, process_name);
    assert(a@ =~= "auto-"@ + game_id@);
    assert(b@ =~= "Auto-detected: "@ + process_name@);
    (text::string_of(a.as_slice()), text::string_of(b.as_slice()))
}

/// The game ids of a list of detections.
pub open spec fn detected_ids(v: Seq<(RowText, Seq<char>)>) -> Seq<Seq<char>> {
    Seq::new(v.len(), |i: int| v[i].0.0)
}

/// The ids of a table of games.
pub open spec fn table_ids(v: Seq<RowText>) -> Seq<Seq<char>> {
    Seq::new(v.len(), |i: int| v[i].0)
}

pub open spec fn distinct(v: Seq<Seq<char>>) -> bool {
    forall|i: int, j: int| 0 <= i < j < v.len() ==> v[i] != v[j]
}

proof fn lemma_detect_all_from_table(games: Seq<RowText>, procs: Seq<Seq<char>>)
    ensures
        forall|k: int| 0 <= k < detect_all_in(games, procs).len() ==> table_ids(games).contains(
            #[trigger] detected_ids(detect_all_in(games, procs))[k],
        ),
        distinct(table_ids(games)) ==> distinct(detected_ids(detect_all_in(games, procs))),
    decreases games.len(),
{
    if games.len() > 0 {
        let g = games.drop_last();
        lemma_detect_all_from_table(g, procs);
        let prev = detect_all_in(g, procs);
        let cur = detect_all_in(games, procs);
        let pi = detected_ids(prev);
        let ci = detected_ids(cur);
        assert forall|k: int| 0 <= k < cur.len() implies table_ids(games).contains(#[trigger] ci[k]) by {
            if k < prev.len() {
                assert(ci[k] == pi[k]);
                assert(table_ids(g).contains(pi[k]));
                let j = choose|j: int| 0 <= j < table_ids(g).len() && table_ids(g)[j] == pi[k];
                assert(table_ids(games)[j] == pi[k]);
            } else {
                assert(ci[k] == games.last().0);
                assert(table_ids(games)[games.len() - 1] == games.last().0);
            }
        }
        if distinct(table_ids(games)) {
            assert(distinct(table_ids(g))) by {
                assert forall|i: int, j: int| 0 <= i < j < table_ids(g).len() implies table_ids(g)[i] != table_ids(g)[j] by {
                    assert(table_ids(g)[i] == table_ids(games)[i]);
                    assert(table_ids(g)[j] == table_ids(games)[j]);
                }
            }
            assert forall|i: int, j: int| 0 <= i < j < ci.len() implies ci[i] != ci[j] by {
                if j < prev.len() {
                    assert(ci[i] == pi[i] && ci[j] == pi[j]);
                } else {
                    assert(ci[i] == pi[i]);
                    assert(table_ids(g).contains(pi[i]));
                    let m = choose|m: int| 0 <= m < table_ids(g).len() && table_ids(g)[m] == pi[i];
                    assert(table_ids(games)[m] == pi[i]);
                    assert(ci[j] == table_ids(games)[games.len() - 1]);
                }
            }
        }
    }
}

/// Every game is reported at most once, and only games of the table are
/// reported, whenever the table's ids are distinct.
pub proof fn law_each_game_reported_once(games: Seq<RowText>, procs: Seq<Seq<char>>)
    requires
        distinct(table_ids(games)),
    ensures
        distinct(detected_ids(detect_all_in(games, procs))),
        forall|k: int| 0 <= k < detect_all_in(games, procs).len() ==> table_ids(games).contains(
            #[trigger] detected_ids(detect_all_in(games, procs))[k],
        ),
{
    lemma_detect_all_from_table(games, procs);
}

/// The built-in table names each game once, so each running game is reported once.
pub proof fn law_known_games_reported_once(procs: Seq<Seq<char>>)
    ensures
        distinct(detected_ids(detect_all_in(known_games(), procs))),
{
    reveal_strlit("minecraft");
    reveal_strlit("league");
    reveal_strlit("valorant");
    reveal_strlit("tarkov");
    reveal_strlit("runescape");
    reveal_strlit("poe");
    reveal_strlit("csgo");
    reveal_strlit("fortnite");
    reveal_strlit("overwatch");
    reveal_strlit("apex");
    reveal_strlit("gta5");
    reveal_strlit("cyberpunk");
    reveal_strlit("wow");
    reveal_strlit("diablo4");
    reveal_strlit("steam_generic");
    let t = table_ids(known_games());
    assert(distinct(t)) by {
        assert forall|i: int, j: int| 0 <= i < j < t.len() implies t[i] != t[j] by {
            if t[i] == t[j] {
                assert(t[i][0] == t[j][0]);
                assert(t[i].len() == t[j].len());
                assert(t[i][1] == t[j][1]);
            }
        }
    }
    law_each_game_reported_once(known_games(), procs);
}

} // verus!
