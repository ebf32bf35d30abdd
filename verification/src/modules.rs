//! The game modules behind one capability trait. A module holds what was found
//! on the machine about its game (where it is installed; for Steam, its app
//! manifests) and says from that what the game is and which instances it has.
use vstd::prelude::*;
use crate::games::{self, GameInfo, GameInstance};
use crate::paths;
use crate::text;

verus! {

/// What every game module can do: describe its game, list its instances, and
/// say whether it can launch, analyse and optimise them.
pub trait GameModule {
    fn game_info(&self) -> GameInfo;

    fn discover_instances(&self) -> Vec<GameInstance>;

    fn can_launch(&self) -> (r: bool)
        default_ensures
            r,
    {
        true
    }

    fn can_analyze(&self) -> (r: bool)
        default_ensures
            !r,
    {
        false
    }

    fn can_optimize(&self) -> (r: bool)
        default_ensures
            !r,
    {
        false
    }
}

fn copy_opt(o: &Option<String>) -> (r: Option<String>)
    ensures
        games::ov(r) == games::ov(*o),
{
    match o {
        Some(s) => Some(text::copy_string(s)),
        None => None,
    }
}

/// League of Legends, with its installation folder if one was found.
pub struct LeagueModule {
    pub install: Option<String>,
}

impl GameModule for LeagueModule {
    fn game_info(&self) -> (g: GameInfo)
        ensures
            games::info_is(g, "league-of-legends"@, "League of Legends"@, "\u{2694}"@, self.install),
    {
        let r = games::league_game_info(copy_opt(&self.install));
        r
    }

    fn discover_instances(&self) -> (r: Vec<GameInstance>)
        ensures
            match self.install {
                Some(p) => r.len() == 1 && games::instance_is(
                    r@[0],
                    "league-main"@,
                    "league-of-legends"@,
                    "League of Legends"@,
                    p@,
                ),
                None => r.len() == 0,
            },
    {
        games::league_instances(copy_opt(&self.install))
    }

    fn can_optimize(&self) -> (r: bool)
        ensures
            r,
    {
        true
    }
}

/// Path of Exile, with the folders where Path of Exile and Path of Exile 2 were
/// found, if anywhere.
pub struct PoeModule {
    pub poe1: Option<String>,
    pub poe2: Option<String>,
}

impl GameModule for PoeModule {
    fn game_info(&self) -> (g: GameInfo)
        ensures
            g.id@ == "poe"@,
            g.name@ == "Path of Exile"@,
            g.icon@ == "\u{2694}"@,
            g.installed == (self.poe1 is Some || self.poe2 is Some),
            games::ov(g.install_path) == (if self.poe1 is Some {
                games::ov(self.poe1)
            } else {
                games::ov(self.poe2)
            }),
    {
        let installs = games::discover_poe_installations(copy_opt(&self.poe1), copy_opt(&self.poe2));
        games::poe_game_info(&installs)
    }

    fn discover_instances(&self) -> (r: Vec<GameInstance>)
        ensures
            r.len() == (if self.poe1 is Some {
                1int
            } else {
                0
            }) + (if self.poe2 is Some {
                1int
            } else {
                0
            }),
            self.poe1 matches Some(p) ==> games::instance_is(
                r@[0],
                "poe1-standalone"@,
                "poe"@,
                "Path of Exile"@,
                p@,
            ),
            self.poe2 matches Some(p) ==> games::instance_is(
                r@[r.len() - 1],
                "poe2-standalone"@,
                "poe"@,
                "Path of Exile 2"@,
                p@,
            ),
    {
        games::discover_poe_installations(copy_opt(&self.poe1), copy_opt(&self.poe2))
    }

    fn can_analyze(&self) -> (r: bool)
        ensures
            r,
    {
        true
    }
}

/// RuneScape 3, with its installation folder if one was found.
pub struct Rs3Module {
    pub path: Option<String>,
}

impl GameModule for Rs3Module {
    fn game_info(&self) -> (g: GameInfo)
        ensures
            games::info_is(g, "runescape-rs3"@, "RuneScape (RS3)"@, "\u{2694}"@, self.path),
    {
        games::rs3_game_info(copy_opt(&self.path))
    }

    fn discover_instances(&self) -> (r: Vec<GameInstance>)
        ensures
            match self.path {
                Some(p) => r.len() == 1 && games::instance_is(
                    r@[0],
                    "rs3-main"@,
                    "runescape-rs3"@,
                    "RuneScape"@,
                    p@,
                ),
                None => r.len() == 0,
            },
    {
        games::rs3_instances(copy_opt(&self.path))
    }

    fn can_analyze(&self) -> (r: bool)
        ensures
            r,
    {
        true
    }
}

/// Old School RuneScape, with the Jagex Launcher installation and the RuneLite
/// folder, each if found.
pub struct OsrsModule {
    pub osrs: Option<String>,
    pub runelite: Option<String>,
}

impl GameModule for OsrsModule {
    fn game_info(&self) -> (g: GameInfo)
        ensures
            games::info_is(g, "runescape-osrs"@, "Old School RuneScape"@, "\u{2694}"@, self.osrs),
    {
        games::osrs_game_info(copy_opt(&self.osrs))
    }

    fn discover_instances(&self) -> (r: Vec<GameInstance>)
        ensures
            r.len() == (if self.osrs is Some {
                1int
            } else {
                0
            }) + (if self.runelite is Some {
                1int
            } else {
                0
            }),
            self.osrs matches Some(p) ==> games::instance_is(
                r@[0],
                "osrs-jagex"@,
                "runescape-osrs"@,
                "Old School RuneScape (Jagex Launcher)"@,
                p@,
            ),
            self.runelite matches Some(p) ==> games::instance_is(
                r@[r.len() - 1],
                "osrs-runelite"@,
                "runescape-osrs"@,
                "Old School RuneScape (RuneLite)"@,
                p@,
            ),
    {
        games::osrs_instances(copy_opt(&self.osrs), copy_opt(&self.runelite))
    }

    fn can_analyze(&self) -> (r: bool)
        ensures
            r,
    {
        true
    }
}

/// Escape from Tarkov, with its installation folder if one was found.
pub struct TarkovModule {
    pub install: Option<String>,
}

impl GameModule for TarkovModule {
    fn game_info(&self) -> (g: GameInfo)
        ensures
            games::info_is(g, "tarkov"@, "Escape from Tarkov"@, "\u{2694}"@, self.install),
    {
        games::tarkov_game_info(copy_opt(&self.install))
    }

    fn discover_instances(&self) -> (r: Vec<GameInstance>)
        ensures
            match self.install {
                Some(p) => r.len() == 1 && games::instance_is(
                    r@[0],
                    "tarkov-live"@,
                    "tarkov"@,
                    "Escape from Tarkov"@,
                    p@,
                ),
                None => r.len() == 0,
            },
    {
        games::tarkov_instances(copy_opt(&self.install))
    }

    fn can_analyze(&self) -> (r: bool)
        ensures
            r,
    {
        true
    }
}

/// Steam, with its installation folder if one was found, and the app manifests
/// of its libraries: each as the library folder and the manifest's text.
pub struct SteamModule {
    pub path: Option<String>,
    pub manifests: Vec<(String, String)>,
}

/// The games the manifests describe, in order: app id, name, install folder and
/// the library folder of the manifest.
pub open spec fn steam_games(ms: Seq<(String, String)>) -> Seq<
    (Seq<char>, Seq<char>, Seq<char>, Seq<char>),
>
    decreases ms.len(),
{
    if ms.len() == 0 {
        Seq::empty()
    } else {
        let prev = steam_games(ms.drop_last());
        match games::manifest_game(ms.last().1@) {
            Some(g) => prev.push((g.0, g.1, g.2, ms.last().0@)),
            None => prev,
        }
    }
}

/// A Steam game instance: id `steam-<appid>`, the manifest's name, no version,
/// and as path the library's `common/<installdir>` where the install folder is
/// a plain name and the library path is not a verbatim Windows path.
pub open spec fn steam_instance_is(
    i: GameInstance,
    g: (Seq<char>, Seq<char>, Seq<char>, Seq<char>),
) -> bool {
    &&& i.id@ == "steam-"@ + g.0
    &&& i.game_id@ == "steam"@
    &&& i.name@ == g.1
    &&& i.version is None
    &&& i.last_played is None
    &&& paths::plain_name(g.2) ==> text::is_suffix(g.2, i.path@)
    &&& paths::plain_name(g.2) && paths::safe_base(g.3) ==> games::steam_game_path(g.3, g.2, i.path@)
}

impl GameModule for SteamModule {
    fn game_info(&self) -> (g: GameInfo)
        ensures
            games::info_is(g, "steam"@, "Steam"@, "\u{2636}"@, self.path),
    {
        games::steam_game_info(copy_opt(&self.path))
    }

    /// The games of the manifests, each at its library's `common/<installdir>`.
    fn discover_instances(&self) -> (r: Vec<GameInstance>)
        ensures
            r.len() == steam_games(self.manifests@).len(),
            forall|i: int|
                0 <= i < r.len() ==> #[trigger] steam_instance_is(r@[i], steam_games(self.manifests@)[i]),
    {
        let ms = &self.manifests;
        let mut out: Vec<GameInstance> = Vec::new();
        let mut i: usize = 0;
        assert(ms@.take(0) =~= Seq::<(String, String)>::empty());
        while i < ms.len()
            invariant
                i <= ms.len(),
                out.len() == steam_games(ms@.take(i as int)).len(),
                forall|k: int|
                    0 <= k < out.len() ==> #[trigger] steam_instance_is(out@[k], steam_games(ms@.take(i as int))[k]),
            decreases ms.len() - i,
        {
            assert(ms@.take(i + 1).drop_last() =~= ms@.take(i as int));
            assert(ms@.take(i + 1).last() == ms@[i as int]);
            let ghost prev = steam_games(ms@.take(i as int));
            match games::parse_app_manifest(ms[i].1.as_str(), ms[i].0.as_str()) {
                Some(g) => {
                    let ghost before = out@;
                    out.push(g);
                    assert forall|k: int| 0 <= k < out.len() implies #[trigger] steam_instance_is(
                        out@[k],
                        steam_games(ms@.take(i + 1))[k],
                    ) by {
                        if k < before.len() {
                            assert(out@[k] == before[k]);
                        }
                    }
                },
                None => {},
            }
            i = i + 1;
        }
        assert(ms@.take(ms.len() as int) =~= ms@);
        out
    }
}

/// Minecraft, which the app always offers, with no single installation folder.
pub fn minecraft_game_info() -> (g: GameInfo)
    ensures
        g.id@ == "minecraft"@,
        g.name@ == "Minecraft"@,
        g.icon@ == "\u{25A3}"@,
        g.installed,
        g.install_path is None,
{
    GameInfo {
        id: text::to_string("minecraft"),
        name: text::to_string("Minecraft"),
        icon: text::to_string("\u{25A3}"),
        installed: true,
        install_path: None,
    }
}

/// Every game the app knows, in the order it lists them: Minecraft, then Steam,
/// League of Legends, Path of Exile, Escape from Tarkov, Old School RuneScape and
/// RuneScape 3, each as its module describes it.
pub fn discover_all_games(
    steam: &SteamModule,
    league: &LeagueModule,
    poe: &PoeModule,
    tarkov: &TarkovModule,
    osrs: &OsrsModule,
    rs3: &Rs3Module,
) -> (r: Vec<GameInfo>)
    ensures
        r.len() == 7,
        r@[0].id@ == "minecraft"@ && r@[0].name@ == "Minecraft"@ && r@[0].installed && r@[0].install_path is None,
        games::info_is(r@[1], "steam"@, "Steam"@, "\u{2636}"@, steam.path),
        games::info_is(r@[2], "league-of-legends"@, "League of Legends"@, "\u{2694}"@, league.install),
        r@[3].id@ == "poe"@ && r@[3].installed == (poe.poe1 is Some || poe.poe2 is Some),
        games::info_is(r@[4], "tarkov"@, "Escape from Tarkov"@, "\u{2694}"@, tarkov.install),
        games::info_is(r@[5], "runescape-osrs"@, "Old School RuneScape"@, "\u{2694}"@, osrs.osrs),
        games::info_is(r@[6], "runescape-rs3"@, "RuneScape (RS3)"@, "\u{2694}"@, rs3.path),
{
    let mut v: Vec<GameInfo> = Vec::new();
    v.push(minecraft_game_info());
    v.push(steam.game_info());
    v.push(league.game_info());
    v.push(poe.game_info());
    v.push(tarkov.game_info());
    v.push(osrs.game_info());
    v.push(rs3.game_info());
    v
}

} // verus!
