//! Minecraft settings files (`options.txt`, `server.properties`): parsing them
//! and recommending lighter settings for heavy mod packs.
use vstd::prelude::*;
use crate::paths;
use crate::telemetry;
use crate::text;

verus! {

/// What `options.txt` says about performance, with all its entries.
/// `raw_entries` holds each key once, in the order in which keys first appear,
/// with the value of the key's last line.
#[derive(Debug, Clone)]
pub struct OptionsAnalysis {
    pub render_distance: Option<i32>,
    pub simulation_distance: Option<i32>,
    pub max_framerate: Option<i32>,
    pub graphics_level: Option<String>,
    pub gui_scale: Option<i32>,
    pub vsync: Option<bool>,
    pub entity_shadows: Option<bool>,
    pub fullscreen: Option<bool>,
    pub raw_entries: Vec<(String, String)>,
}

/// What `server.properties` says about performance, with all its entries
/// (kept as in `OptionsAnalysis`).
#[derive(Debug, Clone)]
pub struct ServerPropertiesAnalysis {
    pub view_distance: Option<i32>,
    pub simulation_distance: Option<i32>,
    pub max_players: Option<i32>,
    pub spawn_protection: Option<i32>,
    pub max_tick_time: Option<i64>,
    pub network_compression_threshold: Option<i32>,
    pub raw_entries: Vec<(String, String)>,
}

/// A suggested change to one setting.
#[derive(Debug, Clone)]
pub struct ConfigRecommendation {
    pub file: String,
    pub key: String,
    pub current_value: String,
    pub recommended_value: String,
    pub reason: String,
    pub impact: String,
    pub confidence: String,
}

/// The settings of an instance and the changes suggested for them.
#[derive(Debug, Clone)]
pub struct ConfigAnalysis {
    pub options: Option<OptionsAnalysis>,
    pub server_properties: Option<ServerPropertiesAnalysis>,
    pub recommendations: Vec<ConfigRecommendation>,
}

// ---------------------------------------------------------------------------
// Key/value files as association lists
// ---------------------------------------------------------------------------

/// A key/value pair as texts.
pub type Pair = (Seq<char>, Seq<char>);

/// The texts of a list of key/value pairs.
pub open spec fn pairs_view(v: Seq<(String, String)>) -> Seq<Pair> {
    Seq::new(v.len(), |i: int| (v[i].0@, v[i].1@))
}

/// The value of the first pair with key `k`.
pub open spec fn lookup(a: Seq<Pair>, k: Seq<char>) -> Option<Seq<char>>
    decreases a.len(),
{
    if a.len() == 0 {
        None
    } else if a[0].0 == k {
        Some(a[0].1)
    } else {
        lookup(a.drop_first(), k)
    }
}

/// Map insertion on an association list: the first pair with key `k` gets the
/// value `v`; with no such pair, `(k, v)` goes at the end.
pub open spec fn assoc_insert(a: Seq<Pair>, k: Seq<char>, v: Seq<char>) -> Seq<Pair>
    decreases a.len(),
{
    if a.len() == 0 {
        seq![(k, v)]
    } else if a[0].0 == k {
        a.update(0, (k, v))
    } else {
        seq![a[0]] + assoc_insert(a.drop_first(), k, v)
    }
}

/// No key occurs twice.
pub open spec fn keys_unique(a: Seq<Pair>) -> bool {
    forall|i: int, j: int| 0 <= i < j < a.len() ==> a[i].0 != a[j].0
}

/// The key and value of a settings line: blank lines and `#` comments have
/// none; otherwise the line is cut at its first `:`, or else at its first `=`,
/// and both sides are trimmed.
pub open spec fn kv_line(line: Seq<char>) -> Option<Pair> {
    let t = text::trim(line);
    if t.len() == 0 || t[0] == '#' {
        None
    } else {
        match text::split_once(t, ':') {
            Some(p) => Some((text::trim(p.0), text::trim(p.1))),
            None => match text::split_once(t, '=') {
                Some(p) => Some((text::trim(p.0), text::trim(p.1))),
                None => None,
            },
        }
    }
}

/// The entries of a settings file, line by line, a later value for a key
/// replacing an earlier one.
pub open spec fn kv_entries(ls: Seq<Seq<char>>) -> Seq<Pair>
    decreases ls.len(),
{
    if ls.len() == 0 {
        Seq::empty()
    } else {
        let prev = kv_entries(ls.drop_last());
        match kv_line(ls.last()) {
            Some(p) => assoc_insert(prev, p.0, p.1),
            None => prev,
        }
    }
}

/// The entries of a settings file's text.
pub open spec fn file_entries(content: Seq<char>) -> Seq<Pair> {
    kv_entries(text::lines(content))
}

proof fn lemma_assoc_insert_at(a: Seq<Pair>, k: Seq<char>, v: Seq<char>, j: int)
    requires
        0 <= j <= a.len(),
        forall|i: int| 0 <= i < j ==> a[i].0 != k,
    ensures
        assoc_insert(a, k, v) == a.take(j) + assoc_insert(a.skip(j), k, v),
    decreases j,
{
    if j > 0 {
        lemma_assoc_insert_at(a.drop_first(), k, v, j - 1);
        assert(a.drop_first().take(j - 1) == a.take(j).drop_first());
        assert(a.drop_first().skip(j - 1) == a.skip(j));
        assert(a.take(j) == seq![a[0]] + a.take(j).drop_first());
    } else {
        assert(a.take(0) + assoc_insert(a.skip(0), k, v) == assoc_insert(a, k, v)) by {
            assert(a.skip(0) == a);
        }
    }
}

proof fn lemma_lookup_skip(a: Seq<Pair>, k: Seq<char>, j: int)
    requires
        0 <= j <= a.len(),
        forall|i: int| 0 <= i < j ==> a[i].0 != k,
    ensures
        lookup(a, k) == lookup(a.skip(j), k),
    decreases j,
{
    if j > 0 {
        lemma_lookup_skip(a.drop_first(), k, j - 1);
        assert(a.drop_first().skip(j - 1) == a.skip(j));
    } else {
        assert(a.skip(0) == a);
    }
}

/// The index of the first pair with key `k`, if any.
fn find_key(a: &Vec<(String, String)>, k: &Vec<char>) -> (r: Option<usize>)
    ensures
        match r {
            Some(j) => j < a.len() && a@[j as int].0@ == k@ && forall|i: int|
                0 <= i < j ==> (#[trigger] a@[i]).0@ != k@,
            None => forall|i: int| 0 <= i < a.len() ==> (#[trigger] a@[i]).0@ != k@,
        },
{
    let mut j: usize = 0;
    while j < a.len()
        invariant
            j <= a.len(),
            forall|i: int| 0 <= i < j ==> (#[trigger] a@[i]).0@ != k@,
        decreases a.len() - j,
    {
        let key = text::chars_of_string(&a[j].0);
        if text::seq_eq(&key, k) {
            return Some(j);
        }
        j = j + 1;
    }
    None
}

/// Sets the value of key `k` as `assoc_insert` does.
fn insert_entry(a: &mut Vec<(String, String)>, k: Vec<char>, v: Vec<char>)
    ensures
        pairs_view(final(a)@) == assoc_insert(pairs_view(old(a)@), k@, v@),
{
    let ghost av = pairs_view(a@);
    let pos = find_key(a, &k);
    let ks = text::string_of(k.as_slice());
    let vs = text::string_of(v.as_slice());
    match pos {
        Some(j) => {
            proof {
                lemma_assoc_insert_at(av, k@, v@, j as int);
                assert(av.skip(j as int)[0].0 == k@);
            }
            a.set(j, (ks, vs));
            assert(pairs_view(a@) =~= av.take(j as int) + av.skip(j as int).update(0, (k@, v@)));
        },
        None => {
            proof {
                lemma_assoc_insert_at(av, k@, v@, av.len() as int);
                assert(av.skip(av.len() as int) == Seq::<Pair>::empty());
                assert(av.take(av.len() as int) == av);
            }
            a.push((ks, vs));
            assert(pairs_view(a@) =~= av.push((k@, v@)));
        },
    }
}

/// The value of key `k`, if the entries have it.
pub fn lookup_entry(a: &Vec<(String, String)>, k: &str) -> (r: Option<String>)
    ensures
        match r {
            Some(s) => lookup(pairs_view(a@), k@) == Some(s@),
            None => lookup(pairs_view(a@), k@) is None,
        },
{
    let kv = text::chars_of(k);
    let ghost av = pairs_view(a@);
    match find_key(a, &kv) {
        Some(j) => {
            proof {
                lemma_lookup_skip(av, k@, j as int);
                assert(av.skip(j as int)[0] == av[j as int]);
            }
            Some(text::copy_string(&a[j].1))
        },
        None => {
            proof {
                lemma_lookup_skip(av, k@, av.len() as int);
                assert(av.skip(av.len() as int).len() == 0);
            }
            None
        },
    }
}

fn kv_line_of(line: &Vec<char>) -> (r: Option<(Vec<char>, Vec<char>)>)
    ensures
        match r {
            Some(p) => kv_line(line@) == Some((p.0@, p.1@)),
            None => kv_line(line@) is None,
        },
{
    let t = text::trim_vec(line);
    if t.len() == 0 || t[0] == '#' {
        return None;
    }
    match text::split_once_vec(&t, ':') {
        Some((a, b)) => Some((text::trim_vec(&a), text::trim_vec(&b))),
        None => match text::split_once_vec(&t, '=') {
            Some((a, b)) => Some((text::trim_vec(&a), text::trim_vec(&b))),
            None => None,
        },
    }
}

/// The entries of a `key:value` / `key=value` settings file.
pub fn parse_key_values(content: &str) -> (r: Vec<(String, String)>)
    ensures
        pairs_view(r@) == file_entries(content@),
{
    let cs = text::chars_of(content);
    let ls = text::lines_of(&cs);
    let ghost lv = text::vviews(ls@);
    let mut out: Vec<(String, String)> = Vec::new();
    let mut i: usize = 0;
    assert(lv.take(0) == Seq::<Seq<char>>::empty());
    assert(pairs_view(out@) =~= Seq::<Pair>::empty());
    while i < ls.len()
        invariant
            i <= ls.len(),
            lv == text::vviews(ls@),
            pairs_view(out@) == kv_entries(lv.take(i as int)),
        decreases ls.len() - i,
    {
        assert(lv.take(i + 1).drop_last() == lv.take(i as int));
        assert(lv.take(i + 1).last() == ls@[i as int]@);
        match kv_line_of(&ls[i]) {
            Some((k, v)) => insert_entry(&mut out, k, v),
            None => {},
        }
        i = i + 1;
    }
    assert(lv.take(ls.len() as int) == lv);
    out
}

// ---------------------------------------------------------------------------
// Typed settings
// ---------------------------------------------------------------------------

/// A setting read as an integer within `[min, max]`.
pub open spec fn entry_int(a: Seq<Pair>, k: Seq<char>, min: int, max: int) -> Option<int> {
    match lookup(a, k) {
        Some(v) => text::parse_int(v, min, max),
        None => None,
    }
}

/// A setting read as a flag: whether it is `true`.
pub open spec fn entry_flag(a: Seq<Pair>, k: Seq<char>) -> Option<bool> {
    match lookup(a, k) {
        Some(v) => Some(v == "true"@),
        None => None,
    }
}

pub open spec fn opt_i32(o: Option<i32>) -> Option<int> {
    match o {
        Some(v) => Some(v as int),
        None => None,
    }
}

pub open spec fn opt_u32(o: Option<u32>) -> Option<int> {
    match o {
        Some(v) => Some(v as int),
        None => None,
    }
}

pub open spec fn opt_i64(o: Option<i64>) -> Option<int> {
    match o {
        Some(v) => Some(v as int),
        None => None,
    }
}

pub open spec fn opt_str(o: Option<String>) -> Option<Seq<char>> {
    match o {
        Some(v) => Some(v@),
        None => None,
    }
}

fn entry_i32(a: &Vec<(String, String)>, k: &str) -> (r: Option<i32>)
    ensures
        opt_i32(r) == entry_int(pairs_view(a@), k@, i32::MIN as int, i32::MAX as int),
{
    match lookup_entry(a, k) {
        Some(v) => {
            let cs = text::chars_of_string(&v);
            text::parse_i32(&cs)
        },
        None => None,
    }
}

fn entry_i64(a: &Vec<(String, String)>, k: &str) -> (r: Option<i64>)
    ensures
        opt_i64(r) == entry_int(pairs_view(a@), k@, i64::MIN as int, i64::MAX as int),
{
    match lookup_entry(a, k) {
        Some(v) => {
            let cs = text::chars_of_string(&v);
            text::parse_i64(&cs)
        },
        None => None,
    }
}

fn entry_bool(a: &Vec<(String, String)>, k: &str) -> (r: Option<bool>)
    ensures
        r == entry_flag(pairs_view(a@), k@),
{
    match lookup_entry(a, k) {
        Some(v) => Some(text::str_eq(v.as_str(), "true")),
        None => None,
    }
}

/// `options.txt` as read by `parse_options_txt`.
pub open spec fn options_of(content: Seq<char>, o: OptionsAnalysis) -> bool {
    let a = file_entries(content);
    &&& pairs_view(o.raw_entries@) == a
    &&& opt_i32(o.render_distance) == entry_int(a, "renderDistance"@, i32::MIN as int, i32::MAX as int)
    &&& opt_i32(o.simulation_distance) == entry_int(
        a,
        "simulationDistance"@,
        i32::MIN as int,
        i32::MAX as int,
    )
    &&& opt_i32(o.max_framerate) == entry_int(a, "maxFps"@, i32::MIN as int, i32::MAX as int)
    &&& opt_str(o.graphics_level) == lookup(a, "graphicsMode"@)
    &&& opt_i32(o.gui_scale) == entry_int(a, "guiScale"@, i32::MIN as int, i32::MAX as int)
    &&& o.vsync == entry_flag(a, "enableVsync"@)
    &&& o.entity_shadows == entry_flag(a, "entityShadows"@)
    &&& o.fullscreen == entry_flag(a, "fullscreen"@)
}

/// `server.properties` as read by `parse_server_properties`.
pub open spec fn server_properties_of(content: Seq<char>, s: ServerPropertiesAnalysis) -> bool {
    let a = file_entries(content);
    &&& pairs_view(s.raw_entries@) == a
    &&& opt_i32(s.view_distance) == entry_int(a, "view-distance"@, i32::MIN as int, i32::MAX as int)
    &&& opt_i32(s.simulation_distance) == entry_int(
        a,
        "simulation-distance"@,
        i32::MIN as int,
        i32::MAX as int,
    )
    &&& opt_i32(s.max_players) == entry_int(a, "max-players"@, i32::MIN as int, i32::MAX as int)
    &&& opt_i32(s.spawn_protection) == entry_int(
        a,
        "spawn-protection"@,
        i32::MIN as int,
        i32::MAX as int,
    )
    &&& opt_i64(s.max_tick_time) == entry_int(a, "max-tick-time"@, i64::MIN as int, i64::MAX as int)
    &&& opt_i32(s.network_compression_threshold) == entry_int(
        a,
        "network-compression-threshold"@,
        i32::MIN as int,
        i32::MAX as int,
    )
}

/// Reads the performance settings of an `options.txt` text.
pub fn parse_options_txt(content: &str) -> (r: OptionsAnalysis)
    ensures
        options_of(content@, r),
{
    let entries = parse_key_values(content);
    OptionsAnalysis {
        render_distance: entry_i32(&entries, "renderDistance"),
        simulation_distance: entry_i32(&entries, "simulationDistance"),
        max_framerate: entry_i32(&entries, "maxFps"),
        graphics_level: lookup_entry(&entries, "graphicsMode"),
        gui_scale: entry_i32(&entries, "guiScale"),
        vsync: entry_bool(&entries, "enableVsync"),
        entity_shadows: entry_bool(&entries, "entityShadows"),
        fullscreen: entry_bool(&entries, "fullscreen"),
        raw_entries: entries,
    }
}

/// Reads the performance settings of a `server.properties` text.
pub fn parse_server_properties(content: &str) -> (r: ServerPropertiesAnalysis)
    ensures
        server_properties_of(content@, r),
{
    let entries = parse_key_values(content);
    ServerPropertiesAnalysis {
        view_distance: entry_i32(&entries, "view-distance"),
        simulation_distance: entry_i32(&entries, "simulation-distance"),
        max_players: entry_i32(&entries, "max-players"),
        spawn_protection: entry_i32(&entries, "spawn-protection"),
        max_tick_time: entry_i64(&entries, "max-tick-time"),
        network_compression_threshold: entry_i32(&entries, "network-compression-threshold"),
        raw_entries: entries,
    }
}

// ---------------------------------------------------------------------------
// Recommendations
// ---------------------------------------------------------------------------

/// A recommendation as its seven texts: file, key, current value, recommended
/// value, reason, impact, confidence.
pub type CfgText = (Seq<char>, Seq<char>, Seq<char>, Seq<char>, Seq<char>, Seq<char>, Seq<char>);

pub open spec fn cfg_view(r: ConfigRecommendation) -> CfgText {
    (
        r.file@,
        r.key@,
        r.current_value@,
        r.recommended_value@,
        r.reason@,
        r.impact@,
        r.confidence@,
    )
}

pub open spec fn cfg_views(v: Seq<ConfigRecommendation>) -> Seq<CfgText> {
    Seq::new(v.len(), |i: int| cfg_view(v[i]))
}

/// More than 100 mods make a heavy pack.
pub open spec fn heavy_pack(mod_count: nat) -> bool {
    mod_count > 100
}

pub open spec fn render_distance_rec(rd: int, mod_count: nat) -> CfgText {
    (
        "options.txt"@,
        "renderDistance"@,
        text::dec_int(rd),
        "10"@,
        "Render distance "@ + text::dec_int(rd) + " is high for a "@ + text::dec(mod_count)
            + " mod pack. Reducing to 10 significantly decreases chunk rendering load."@,
        "Medium — fewer chunks rendered, smoother FPS"@,
        "high"@,
    )
}

pub open spec fn simulation_distance_rec(sd: int) -> CfgText {
    (
        "options.txt"@,
        "simulationDistance"@,
        text::dec_int(sd),
        "6"@,
        "Simulation distance "@ + text::dec_int(sd)
            + " causes more entities and tile entities to tick. Reducing to 6 is the largest single-setting performance gain for heavy packs."@,
        "High — fewer ticking entities, lower CPU load"@,
        "high"@,
    )
}

pub open spec fn max_fps_rec(fps: int) -> CfgText {
    (
        "options.txt"@,
        "maxFps"@,
        text::dec_int(fps),
        "120"@,
        "Unlimited framerate causes unnecessary GPU load and heat. Capping at your monitor's refresh rate or 120 is sufficient."@,
        "Low — reduced GPU power draw and heat"@,
        "medium"@,
    )
}

pub open spec fn view_distance_rec(vd: int) -> CfgText {
    (
        "server.properties"@,
        "view-distance"@,
        text::dec_int(vd),
        "8"@,
        "Server view distance "@ + text::dec_int(vd)
            + " is high for a heavy modpack. Reducing to 8 cuts chunk generation and network traffic."@,
        "High — less server CPU and network usage"@,
        "high"@,
    )
}

pub open spec fn server_simulation_rec(sd: int) -> CfgText {
    (
        "server.properties"@,
        "simulation-distance"@,
        text::dec_int(sd),
        "6"@,
        "Server simulation distance "@ + text::dec_int(sd)
            + " causes excessive entity ticking. 6-8 is recommended for heavy modpacks."@,
        "High — significant TPS improvement"@,
        "high"@,
    )
}

/// The recommendations for the client settings: render distance above 12 and
/// simulation distance above 8 in a heavy pack, and an uncapped frame rate
/// (260, the "unlimited" slider value, or 999 and more).
pub open spec fn options_recs(o: OptionsAnalysis, mod_count: nat) -> Seq<CfgText> {
    (match o.render_distance {
        Some(rd) => when(heavy_pack(mod_count) && rd > 12, seq![render_distance_rec(rd as int, mod_count)]),
        None => Seq::empty(),
    }) + (match o.simulation_distance {
        Some(sd) => when(heavy_pack(mod_count) && sd > 8, seq![simulation_distance_rec(sd as int)]),
        None => Seq::empty(),
    }) + (match o.max_framerate {
        Some(fps) => when(fps == 260 || fps >= 999, seq![max_fps_rec(fps as int)]),
        None => Seq::empty(),
    })
}

/// The recommendations for the server settings: view distance above 10 and
/// simulation distance above 8 in a heavy pack.
pub open spec fn server_recs(s: ServerPropertiesAnalysis, mod_count: nat) -> Seq<CfgText> {
    (match s.view_distance {
        Some(vd) => when(heavy_pack(mod_count) && vd > 10, seq![view_distance_rec(vd as int)]),
        None => Seq::empty(),
    }) + (match s.simulation_distance {
        Some(sd) => when(heavy_pack(mod_count) && sd > 8, seq![server_simulation_rec(sd as int)]),
        None => Seq::empty(),
    })
}

/// `s` when `c` holds, else nothing.
pub open spec fn when<A>(c: bool, s: Seq<A>) -> Seq<A> {
    if c {
        s
    } else {
        Seq::empty()
    }
}

/// All recommendations: client settings first, then server settings.
pub open spec fn expected_config_recs(
    options: Option<OptionsAnalysis>,
    server_props: Option<ServerPropertiesAnalysis>,
    mod_count: nat,
) -> Seq<CfgText> {
    (match options {
        Some(o) => options_recs(o, mod_count),
        None => Seq::empty(),
    }) + (match server_props {
        Some(s) => server_recs(s, mod_count),
        None => Seq::empty(),
    })
}

fn make_cfg(
    file: &str,
    key: &str,
    current: Vec<char>,
    recommended: &str,
    reason: Vec<char>,
    impact: &str,
    confidence: &str,
) -> (r: ConfigRecommendation)
    ensures
        cfg_view(r) == (file@, key@, current@, recommended@, reason@, impact@, confidence@),
{
    ConfigRecommendation {
        file: text::to_string(file),
        key: text::to_string(key),
        current_value: text::string_of(current.as_slice()),
        recommended_value: text::to_string(recommended),
        reason: text::string_of(reason.as_slice()),
        impact: text::to_string(impact),
        confidence: text::to_string(confidence),
    }
}

fn push_cfg(v: &mut Vec<ConfigRecommendation>, r: ConfigRecommendation)
    ensures
        cfg_views(final(v)@) == cfg_views(old(v)@).push(cfg_view(r)),
{
    v.push(r);
    assert(cfg_views(v@) =~= cfg_views(old(v)@).push(cfg_view(r)));
}

fn dec_of(n: i32) -> (r: Vec<char>)
    ensures
        r@ == text::dec_int(n as int),
{
    let mut v: Vec<char> = Vec::new();
    text::push_dec_i64(&mut v, n as i64);
    assert(v@ == Seq::<char>::empty() + text::dec_int(n as int));
    v
}

/// Text of the form `head` + decimal of `n` + `tail`.
fn around_dec(head: &str, n: i32, tail: &str) -> (r: Vec<char>)
    ensures
        r@ == head@ + text::dec_int(n as int) + tail@,
{
    let mut v: Vec<char> = Vec::new();
    text::push_str(&mut v, head);
    text::push_dec_i64(&mut v, n as i64);
    text::push_str(&mut v, tail);
    assert(v@ == Seq::<char>::empty() + head@ + text::dec_int(n as int) + tail@);
    v
}

fn add_options_recs(recs: &mut Vec<ConfigRecommendation>, o: &OptionsAnalysis, mod_count: usize)
    ensures
        cfg_views(final(recs)@) == cfg_views(old(recs)@) + options_recs(*o, mod_count as nat),
{
    let ghost r0 = cfg_views(recs@);
    let heavy = mod_count > 100;
    match o.render_distance {
        Some(rd) => if heavy && rd > 12 {
            let mut reason = around_dec("Render distance ", rd, " is high for a ");
            text::push_dec(&mut reason, mod_count as u64);
            text::push_str(
                &mut reason,
                " mod pack. Reducing to 10 significantly decreases chunk rendering load.",
            );
            push_cfg(
                recs,
                make_cfg(
                    "options.txt",
                    "renderDistance",
                    dec_of(rd),
                    "10",
                    reason,
                    "Medium — fewer chunks rendered, smoother FPS",
                    "high",
                ),
            );
        },
        None => {},
    }
    match o.simulation_distance {
        Some(sd) => if heavy && sd > 8 {
            push_cfg(
                recs,
                make_cfg(
                    "options.txt",
                    "simulationDistance",
                    dec_of(sd),
                    "6",
                    around_dec(
                        "Simulation distance ",
                        sd,
                        " causes more entities and tile entities to tick. Reducing to 6 is the largest single-setting performance gain for heavy packs.",
                    ),
                    "High — fewer ticking entities, lower CPU load",
                    "high",
                ),
            );
        },
        None => {},
    }
    match o.max_framerate {
        Some(fps) => if fps == 260 || fps >= 999 {
            let reason = text::chars_of(
                "Unlimited framerate causes unnecessary GPU load and heat. Capping at your monitor's refresh rate or 120 is sufficient.",
            );
            push_cfg(
                recs,
                make_cfg(
                    "options.txt",
                    "maxFps",
                    dec_of(fps),
                    "120",
                    reason,
                    "Low — reduced GPU power draw and heat",
                    "medium",
                ),
            );
        },
        None => {},
    }
    assert(cfg_views(recs@) =~= r0 + options_recs(*o, mod_count as nat));
}

fn add_server_recs(
    recs: &mut Vec<ConfigRecommendation>,
    s: &ServerPropertiesAnalysis,
    mod_count: usize,
)
    ensures
        cfg_views(final(recs)@) == cfg_views(old(recs)@) + server_recs(*s, mod_count as nat),
{
    let ghost r0 = cfg_views(recs@);
    let heavy = mod_count > 100;
    match s.view_distance {
        Some(vd) => if heavy && vd > 10 {
            push_cfg(
                recs,
                make_cfg(
                    "server.properties",
                    "view-distance",
                    dec_of(vd),
                    "8",
                    around_dec(
                        "Server view distance ",
                        vd,
                        " is high for a heavy modpack. Reducing to 8 cuts chunk generation and network traffic.",
                    ),
                    "High — less server CPU and network usage",
                    "high",
                ),
            );
        },
        None => {},
    }
    match s.simulation_distance {
        Some(sd) => if heavy && sd > 8 {
            push_cfg(
                recs,
                make_cfg(
                    "server.properties",
                    "simulation-distance",
                    dec_of(sd),
                    "6",
                    around_dec(
                        "Server simulation distance ",
                        sd,
                        " causes excessive entity ticking. 6-8 is recommended for heavy modpacks.",
                    ),
                    "High — significant TPS improvement",
                    "high",
                ),
            );
        },
        None => {},
    }
    assert(cfg_views(recs@) =~= r0 + server_recs(*s, mod_count as nat));
}

/// The setting changes suggested for the parsed settings of an instance with
/// `mod_count` mods.
pub fn generate_config_recommendations(
    options: &Option<OptionsAnalysis>,
    server_props: &Option<ServerPropertiesAnalysis>,
    mod_count: usize,
) -> (r: Vec<ConfigRecommendation>)
    ensures
        cfg_views(r@) == expected_config_recs(*options, *server_props, mod_count as nat),
{
    let mut recs: Vec<ConfigRecommendation> = Vec::new();
    assert(cfg_views(recs@) =~= Seq::<CfgText>::empty());
    match options {
        Some(o) => add_options_recs(&mut recs, o, mod_count),
        None => {},
    }
    match server_props {
        Some(s) => add_server_recs(&mut recs, s, mod_count),
        None => {},
    }
    assert(cfg_views(recs@) =~= expected_config_recs(*options, *server_props, mod_count as nat));
    recs
}

/// The game folder of the instance at `instance_path`: its `.minecraft` folder
/// if that exists, else its `minecraft` folder if that exists, else the
/// instance folder itself. Which one it is depends on the disk.
pub fn minecraft_dir(instance_path: &str) -> (r: String)
    ensures
        paths::safe_base(instance_path@) ==> (r@ == instance_path@ || paths::joined(
            instance_path@,
            ".minecraft"@,
            r@,
        ) || paths::joined(instance_path@, "minecraft"@, r@)),
{
    let a = paths::path_join(instance_path, ".minecraft");
    let b = paths::path_join(instance_path, "minecraft");
    let ea = paths::path_exists(a.as_str());
    let eb = paths::path_exists(b.as_str());
    proof {
        reveal_strlit(".minecraft");
        reveal_strlit("minecraft");
        reveal_strlit(".");
        reveal_strlit("..");
        assert(".minecraft"@.len() != "."@.len() && ".minecraft"@.len() != ".."@.len());
        assert(paths::plain_name(".minecraft"@));
        assert(paths::plain_name("minecraft"@));
    }
    let ghost (av, bv) = (a@, b@);
    let candidates = vec![(a, ea), (b, eb)];
    let found = telemetry::first_existing(&candidates);
    proof {
        let pv = telemetry::probe_views(candidates@);
        assert(pv =~= seq![(av, ea), (bv, eb)]);
        reveal_with_fuel(telemetry::first_existing_spec, 3);
        assert(pv.drop_first() =~= seq![(bv, eb)]);
        assert(pv.drop_first().drop_first() =~= Seq::<(Seq<char>, bool)>::empty());
    }
    match found {
        Some(p) => p,
        None => text::to_string(instance_path),
    }
}

/// The settings analysis of an instance from the texts of its `options.txt` and
/// `server.properties` (`None` for a file that is not there) and its mod count.
pub fn analyze_configs(
    options_txt: Option<String>,
    server_properties: Option<String>,
    mod_count: usize,
) -> (r: ConfigAnalysis)
    ensures
        match options_txt {
            Some(c) => r.options matches Some(o) && options_of(c@, o),
            None => r.options is None,
        },
        match server_properties {
            Some(c) => r.server_properties matches Some(s) && server_properties_of(c@, s),
            None => r.server_properties is None,
        },
        cfg_views(r.recommendations@) == expected_config_recs(
            r.options,
            r.server_properties,
            mod_count as nat,
        ),
        options_txt is None && server_properties is None ==> r.recommendations@.len() == 0,
{
    let options = match &options_txt {
        Some(c) => Some(parse_options_txt(c.as_str())),
        None => None,
    };
    let server = match &server_properties {
        Some(c) => Some(parse_server_properties(c.as_str())),
        None => None,
    };
    let recommendations = generate_config_recommendations(&options, &server, mod_count);
    proof {
        law_no_settings_no_advice(mod_count as nat);
    }
    ConfigAnalysis { options, server_properties: server, recommendations }
}

// ---------------------------------------------------------------------------
// Laws
// ---------------------------------------------------------------------------

/// What a recommendation to lower a distance setting must satisfy: it is made
/// only for a heavy pack (over 100 mods) whose setting is above the threshold,
/// it shows the current value, and the value it recommends is lower. View
/// distance: above 10, lowered to 8; server simulation distance: above 8,
/// lowered to 6; render distance: above 12, lowered to 10; simulation distance:
/// above 8, lowered to 6.
pub open spec fn distance_advice_sound(
    r: CfgText,
    options: Option<OptionsAnalysis>,
    server_props: Option<ServerPropertiesAnalysis>,
    mod_count: nat,
) -> bool {
    &&& r.1 == "view-distance"@ ==> (mod_count > 100 && server_props is Some
        && server_props->0.view_distance is Some && server_props->0.view_distance->0 > 10
        && r.2 == text::dec_int(server_props->0.view_distance->0 as int) && r.3 == "8"@)
    &&& r.1 == "simulation-distance"@ ==> (mod_count > 100 && server_props is Some
        && server_props->0.simulation_distance is Some && server_props->0.simulation_distance->0 > 8
        && r.2 == text::dec_int(server_props->0.simulation_distance->0 as int) && r.3 == "6"@)
    &&& r.1 == "renderDistance"@ ==> (mod_count > 100 && options is Some
        && options->0.render_distance is Some && options->0.render_distance->0 > 12
        && r.2 == text::dec_int(options->0.render_distance->0 as int) && r.3 == "10"@)
    &&& r.1 == "simulationDistance"@ ==> (mod_count > 100 && options is Some
        && options->0.simulation_distance is Some && options->0.simulation_distance->0 > 8
        && r.2 == text::dec_int(options->0.simulation_distance->0 as int) && r.3 == "6"@)
}

/// Distance settings are lowered only where it helps: every distance
/// recommendation is for a heavy pack whose setting is above its threshold,
/// and recommends a lower value (see `distance_advice_sound`). Conversely, a
/// heavy pack whose server view distance is above 10 is told to lower it to 8.
pub proof fn law_distance_advice(
    options: Option<OptionsAnalysis>,
    server_props: Option<ServerPropertiesAnalysis>,
    mod_count: nat,
)
    ensures
        forall|k: int|
            0 <= k < expected_config_recs(options, server_props, mod_count).len() ==> distance_advice_sound(
                #[trigger] expected_config_recs(options, server_props, mod_count)[k],
                options,
                server_props,
                mod_count,
            ),
        (mod_count > 100 && server_props is Some && server_props->0.view_distance is Some
            && server_props->0.view_distance->0 > 10) ==> exists|k: int|
            0 <= k < expected_config_recs(options, server_props, mod_count).len() && (
            #[trigger] expected_config_recs(options, server_props, mod_count)[k]).1 == "view-distance"@
                && expected_config_recs(options, server_props, mod_count)[k].3 == "8"@,
{
    reveal_strlit("view-distance");
    reveal_strlit("simulation-distance");
    reveal_strlit("renderDistance");
    reveal_strlit("simulationDistance");
    reveal_strlit("maxFps");
    assert("view-distance"@.len() == 13 && "simulation-distance"@.len() == 19 && "renderDistance"@.len() == 14
        && "simulationDistance"@.len() == 18 && "maxFps"@.len() == 6);
    let ops = match options {
        Some(o) => options_recs(o, mod_count),
        None => Seq::<CfgText>::empty(),
    };
    let srv = match server_props {
        Some(sp) => server_recs(sp, mod_count),
        None => Seq::<CfgText>::empty(),
    };
    let all = expected_config_recs(options, server_props, mod_count);
    assert(all == ops + srv);
    assert forall|k: int| 0 <= k < all.len() implies distance_advice_sound(
        #[trigger] all[k],
        options,
        server_props,
        mod_count,
    ) by {
        if k < ops.len() {
            assert(all[k] == ops[k]);
            match options {
                Some(o) => {
                    let a = match o.render_distance {
                        Some(rd) => when(rd > 12 && heavy_pack(mod_count), seq![render_distance_rec(rd as int, mod_count)]),
                        None => Seq::empty(),
                    };
                    let b = match o.simulation_distance {
                        Some(sd) => when(sd > 8 && heavy_pack(mod_count), seq![simulation_distance_rec(sd as int)]),
                        None => Seq::empty(),
                    };
                    let c = match o.max_framerate {
                        Some(fps) => when(fps >= 999 || fps == 260, seq![max_fps_rec(fps as int)]),
                        None => Seq::empty(),
                    };
                    assert(ops == a + b + c);
                    if k < a.len() {
                        assert(ops[k] == a[k]);
                    } else if k < a.len() + b.len() {
                        assert(ops[k] == b[k - a.len()]);
                    } else {
                        assert(ops[k] == c[k - a.len() - b.len()]);
                    }
                },
                None => {},
            }
        } else {
            assert(all[k] == srv[k - ops.len()]);
            match server_props {
                Some(sp) => {
                    let d = match sp.view_distance {
                        Some(vd) => when(vd > 10 && heavy_pack(mod_count), seq![view_distance_rec(vd as int)]),
                        None => Seq::empty(),
                    };
                    let e = match sp.simulation_distance {
                        Some(sd) => when(sd > 8 && heavy_pack(mod_count), seq![server_simulation_rec(sd as int)]),
                        None => Seq::empty(),
                    };
                    assert(srv == d + e);
                    let j = k - ops.len();
                    if j < d.len() {
                        assert(srv[j] == d[j]);
                    } else {
                        assert(srv[j] == e[j - d.len()]);
                    }
                },
                None => {},
            }
        }
    }
    if mod_count > 100 && server_props is Some {
        let sp = server_props->0;
        if sp.view_distance is Some && sp.view_distance->0 > 10 {
            let vd = sp.view_distance->0;
            assert(srv[0] == view_distance_rec(vd as int));
            assert(all[ops.len() as int] == srv[0]);
        }
    }
}

/// Whether the recommendations hold one that sets `key` to `value`.
pub open spec fn recommends_setting(recs: Seq<CfgText>, key: Seq<char>, value: Seq<char>) -> bool {
    exists|k: int| 0 <= k < recs.len() && (#[trigger] recs[k]).1 == key && recs[k].3 == value
}

/// A heavy pack (over 100 mods) is told to lower each distance setting that is
/// above its threshold: render distance above 12 to 10, simulation distance
/// above 8 to 6, server simulation distance above 8 to 6; and any pack with an
/// uncapped frame rate (260 or at least 999) is told to cap it at 120.
pub proof fn law_heavy_pack_distances_lowered(
    options: Option<OptionsAnalysis>,
    server_props: Option<ServerPropertiesAnalysis>,
    mod_count: nat,
)
    ensures
        (mod_count > 100 && options is Some && options->0.render_distance is Some
            && options->0.render_distance->0 > 12) ==> recommends_setting(
            expected_config_recs(options, server_props, mod_count),
            "renderDistance"@,
            "10"@,
        ),
        (mod_count > 100 && options is Some && options->0.simulation_distance is Some
            && options->0.simulation_distance->0 > 8) ==> recommends_setting(
            expected_config_recs(options, server_props, mod_count),
            "simulationDistance"@,
            "6"@,
        ),
        (options is Some && options->0.max_framerate is Some && (options->0.max_framerate->0 == 260
            || options->0.max_framerate->0 >= 999)) ==> recommends_setting(
            expected_config_recs(options, server_props, mod_count),
            "maxFps"@,
            "120"@,
        ),
        (mod_count > 100 && server_props is Some && server_props->0.simulation_distance is Some
            && server_props->0.simulation_distance->0 > 8) ==> recommends_setting(
            expected_config_recs(options, server_props, mod_count),
            "simulation-distance"@,
            "6"@,
        ),
{
    let ops = match options {
        Some(o) => options_recs(o, mod_count),
        None => Seq::<CfgText>::empty(),
    };
    let srv = match server_props {
        Some(sp) => server_recs(sp, mod_count),
        None => Seq::<CfgText>::empty(),
    };
    let all = expected_config_recs(options, server_props, mod_count);
    assert(all == ops + srv);
    if options is Some {
        let o = options->0;
        let a = match o.render_distance {
            Some(rd) => when(rd > 12 && heavy_pack(mod_count), seq![render_distance_rec(rd as int, mod_count)]),
            None => Seq::empty(),
        };
        let b = match o.simulation_distance {
            Some(sd) => when(sd > 8 && heavy_pack(mod_count), seq![simulation_distance_rec(sd as int)]),
            None => Seq::empty(),
        };
        let c = match o.max_framerate {
            Some(fps) => when(fps >= 999 || fps == 260, seq![max_fps_rec(fps as int)]),
            None => Seq::empty(),
        };
        assert(ops == a + b + c);
        if a.len() > 0 {
            assert(all[0] == a[0]);
        }
        if b.len() > 0 {
            assert(all[a.len() as int] == b[0]);
        }
        if c.len() > 0 {
            assert(all[(a.len() + b.len()) as int] == c[0]);
        }
    }
    if server_props is Some {
        let sp = server_props->0;
        let d = match sp.view_distance {
            Some(vd) => when(vd > 10 && heavy_pack(mod_count), seq![view_distance_rec(vd as int)]),
            None => Seq::empty(),
        };
        let e = match sp.simulation_distance {
            Some(sd) => when(sd > 8 && heavy_pack(mod_count), seq![server_simulation_rec(sd as int)]),
            None => Seq::empty(),
        };
        assert(srv == d + e);
        if e.len() > 0 {
            assert(all[(ops.len() + d.len()) as int] == e[0]);
        }
    }
}

/// An instance with neither `options.txt` nor `server.properties` gets no
/// setting advice, whatever its mod count; with one of the files, all advice
/// comes from that file.
pub proof fn law_no_settings_no_advice(mod_count: nat)
    ensures
        expected_config_recs(None, None, mod_count).len() == 0,
        forall|o: OptionsAnalysis| #[trigger] expected_config_recs(Some(o), None, mod_count)
            == options_recs(o, mod_count),
        forall|sp: ServerPropertiesAnalysis| #[trigger] expected_config_recs(None, Some(sp), mod_count)
            == server_recs(sp, mod_count),
{
    assert forall|o: OptionsAnalysis| #[trigger] expected_config_recs(Some(o), None, mod_count)
        == options_recs(o, mod_count) by {
        assert(options_recs(o, mod_count) + Seq::<CfgText>::empty() =~= options_recs(o, mod_count));
    }
    assert forall|sp: ServerPropertiesAnalysis| #[trigger] expected_config_recs(None, Some(sp), mod_count)
        == server_recs(sp, mod_count) by {
        assert(Seq::<CfgText>::empty() + server_recs(sp, mod_count) =~= server_recs(sp, mod_count));
    }
}

proof fn lemma_lookup_after_insert(a: Seq<Pair>, k: Seq<char>, v: Seq<char>, other: Seq<char>)
    ensures
        lookup(assoc_insert(a, k, v), k) == Some(v),
        other != k ==> lookup(assoc_insert(a, k, v), other) == lookup(a, other),
    decreases a.len(),
{
    let r = assoc_insert(a, k, v);
    if a.len() == 0 {
        assert(r[0] == (k, v));
        assert(r.drop_first().len() == 0);
        if other != k {
            assert(lookup(r, other) == lookup(r.drop_first(), other));
        }
    } else if a[0].0 == k {
        assert(r[0] == (k, v));
        assert(r.drop_first() == a.drop_first());
        if other != k {
            assert(lookup(r, other) == lookup(r.drop_first(), other));
            assert(lookup(a, other) == lookup(a.drop_first(), other));
        }
    } else {
        lemma_lookup_after_insert(a.drop_first(), k, v, other);
        assert(r[0] == a[0]);
        assert(r.drop_first() == assoc_insert(a.drop_first(), k, v));
        assert(lookup(r, k) == lookup(r.drop_first(), k));
        if other != k {
            if a[0].0 == other {
                assert(lookup(r, other) == Some(a[0].1));
            } else {
                assert(lookup(r, other) == lookup(r.drop_first(), other));
                assert(lookup(a, other) == lookup(a.drop_first(), other));
            }
        }
    }
}

/// A setting written is what is read back, and writing one key leaves every
/// other key's value as it was.
pub proof fn law_settings_read_after_write(a: Seq<Pair>, k: Seq<char>, v: Seq<char>, other: Seq<char>)
    ensures
        lookup(assoc_insert(a, k, v), k) == Some(v),
        other != k ==> lookup(assoc_insert(a, k, v), other) == lookup(a, other),
{
    lemma_lookup_after_insert(a, k, v, other);
}

proof fn lemma_insert_keeps_unique(a: Seq<Pair>, k: Seq<char>, v: Seq<char>)
    requires
        keys_unique(a),
    ensures
        keys_unique(assoc_insert(a, k, v)),
        forall|i: int| 0 <= i < assoc_insert(a, k, v).len() ==> (#[trigger] assoc_insert(a, k, v)[i]).0 == k || a.contains(assoc_insert(a, k, v)[i]),
    decreases a.len(),
{
    let r = assoc_insert(a, k, v);
    if a.len() == 0 {
    } else if a[0].0 == k {
        assert forall|i: int| 0 <= i < r.len() implies (#[trigger] r[i]).0 == k || a.contains(r[i]) by {
            if i > 0 {
                assert(r[i] == a[i]);
            }
        }
    } else {
        let t = a.drop_first();
        assert(keys_unique(t)) by {
            assert forall|i: int, j: int| 0 <= i < j < t.len() implies t[i].0 != t[j].0 by {
                assert(t[i] == a[i + 1] && t[j] == a[j + 1]);
            }
        }
        lemma_insert_keeps_unique(t, k, v);
        let rt = assoc_insert(t, k, v);
        assert(r == seq![a[0]] + rt);
        assert forall|i: int| 0 <= i < r.len() implies (#[trigger] r[i]).0 == k || a.contains(r[i]) by {
            if i > 0 {
                assert(r[i] == rt[i - 1]);
                if rt[i - 1].0 != k {
                    assert(t.contains(rt[i - 1]));
                    let j = choose|j: int| 0 <= j < t.len() && t[j] == rt[i - 1];
                    assert(a[j + 1] == rt[i - 1]);
                }
            } else {
                assert(a[0] == r[0]);
            }
        }
        assert forall|i: int, j: int| 0 <= i < j < r.len() implies r[i].0 != r[j].0 by {
            if i == 0 {
                assert(r[j] == rt[j - 1]);
                if rt[j - 1].0 != k {
                    assert(t.contains(rt[j - 1]));
                    let m = choose|m: int| 0 <= m < t.len() && t[m] == rt[j - 1];
                    assert(a[m + 1] == rt[j - 1]);
                }
            } else {
                assert(r[i] == rt[i - 1] && r[j] == rt[j - 1]);
            }
        }
    }
}

/// A settings file's entries hold each key once.
pub proof fn law_settings_keys_unique(ls: Seq<Seq<char>>)
    ensures
        keys_unique(kv_entries(ls)),
    decreases ls.len(),
{
    if ls.len() > 0 {
        law_settings_keys_unique(ls.drop_last());
        match kv_line(ls.last()) {
            Some(p) => lemma_insert_keeps_unique(kv_entries(ls.drop_last()), p.0, p.1),
            None => {},
        }
    }
}

} // verus!
