//! The mods of a Minecraft instance: what the jar names say, which performance
//! mods are there or missing, and which installed mods clash or overlap.
use vstd::prelude::*;
use crate::text;

verus! {

/// A mod file in the `mods` folder.
#[derive(Debug, Clone)]
pub struct ModInfo {
    pub file_name: String,
    pub mod_id: Option<String>,
    pub display_name: Option<String>,
    pub version: Option<String>,
    pub size_bytes: u64,
}

/// The findings on a `mods` folder. The total size is kept in bytes.
#[derive(Debug, Clone)]
pub struct ModAnalysis {
    pub total_mods: usize,
    pub mods: Vec<ModInfo>,
    pub detected_performance_mods: Vec<String>,
    pub missing_performance_mods: Vec<PerformanceModRecommendation>,
    pub conflicts: Vec<ConflictWarning>,
    pub duplicates: Vec<DuplicateWarning>,
    pub total_size_bytes: u64,
}

/// A performance mod worth installing.
#[derive(Debug, Clone)]
pub struct PerformanceModRecommendation {
    pub mod_name: String,
    pub mod_id: String,
    pub reason: String,
    pub expected_impact: String,
    pub confidence: String,
    pub url: String,
    pub loaders: Vec<String>,
}

/// Two installed mods that are known not to work together.
#[derive(Debug, Clone)]
pub struct ConflictWarning {
    pub mod_a: String,
    pub mod_b: String,
    pub reason: String,
    pub severity: String,
}

/// Several installed mods that do the same job.
#[derive(Debug, Clone)]
pub struct DuplicateWarning {
    pub category: String,
    pub installed_mods: Vec<String>,
    pub recommendation: String,
}

/// The mod knowledge base: known mods, conflicts and overlapping groups.
#[derive(Debug, Clone)]
pub struct ModMetadataDb {
    pub version: String,
    pub mods: Vec<ModMetadata>,
    pub known_conflicts: Vec<ConflictRule>,
    pub duplicate_groups: Vec<DuplicateGroup>,
}

/// What the knowledge base knows of one mod.
#[derive(Debug, Clone)]
pub struct ModMetadata {
    pub id: String,
    pub name: String,
    pub loaders: Vec<String>,
    pub side: String,
    pub category: String,
    pub performance_impact: Option<PerformanceImpact>,
    pub safe_removal: Option<String>,
    pub modrinth_slug: Option<String>,
    pub description: String,
}

/// How heavy a mod is on memory, startup and runtime.
#[derive(Debug, Clone)]
pub struct PerformanceImpact {
    pub memory: String,
    pub startup: String,
    pub runtime: String,
}

/// Two mods that must not be installed together.
#[derive(Debug, Clone)]
pub struct ConflictRule {
    pub mod_a: String,
    pub mod_b: String,
    pub reason: String,
    pub severity: String,
}

/// Mods that do the same job; one of them is enough.
#[derive(Debug, Clone)]
pub struct DuplicateGroup {
    pub category: String,
    pub mods: Vec<String>,
    pub recommendation: String,
}

// ---------------------------------------------------------------------------
// What a jar name says
// ---------------------------------------------------------------------------

/// A file name without a `.jar` and then a `.zip` ending (each removed as often
/// as it ends the name).
pub open spec fn jar_stem(name: Seq<char>) -> Seq<char> {
    text::trim_end_matches(text::trim_end_matches(name, ".jar"@), ".zip"@)
}

/// The text before the first `-`, or all of it.
pub open spec fn before_dash(s: Seq<char>) -> Seq<char> {
    match text::split_once(s, '-') {
        Some(p) => p.0,
        None => s,
    }
}

/// The text after the last `c`, if `c` occurs.
pub open spec fn after_last(s: Seq<char>, c: char) -> Option<Seq<char>>
    decreases s.len(),
{
    if s.len() == 0 {
        None
    } else if s.last() == c {
        Some(Seq::empty())
    } else {
        match after_last(s.drop_last(), c) {
            Some(t) => Some(t.push(s.last())),
            None => None,
        }
    }
}

/// The mod id a jar name suggests: its stem up to the first `-`, lower-cased.
pub open spec fn mod_id_of(file_name: Seq<char>) -> Seq<char> {
    text::spec_lowercase(before_dash(jar_stem(file_name)))
}

/// The version a jar name suggests: the stem after its last `-`.
pub open spec fn version_of(file_name: Seq<char>) -> Option<Seq<char>> {
    after_last(jar_stem(file_name), '-')
}

/// The text view of an optional string.
pub open spec fn opt_view(o: Option<String>) -> Option<Seq<char>> {
    match o {
        Some(s) => Some(s@),
        None => None,
    }
}

fn jar_stem_of(name: &Vec<char>) -> (r: Vec<char>)
    ensures
        r@ == jar_stem(name@),
{
    let a = text::trim_end_matches_str(name, ".jar");
    text::trim_end_matches_str(&a, ".zip")
}

/// The mod id of a jar name: the part of its stem before the first `-`, lower-cased.
pub fn extract_mod_id(filename: &str) -> (r: Option<String>)
    ensures
        opt_view(r) == Some(mod_id_of(filename@)),
{
    let cs = text::chars_of(filename);
    let stem = jar_stem_of(&cs);
    let first = match text::split_once_vec(&stem, '-') {
        Some((a, _b)) => a,
        None => stem,
    };
    let s = text::string_of(first.as_slice());
    Some(text::lowercase(s.as_str()))
}

proof fn lemma_after_last(s: Seq<char>, c: char, k: int)
    requires
        0 <= k < s.len(),
        s[k] == c,
        forall|j: int| k < j < s.len() ==> s[j] != c,
    ensures
        after_last(s, c) == Some(s.subrange(k + 1, s.len() as int)),
    decreases s.len(),
{
    if k < s.len() - 1 {
        lemma_after_last(s.drop_last(), c, k);
        assert(s.subrange(k + 1, s.len() - 1).push(s.last()) == s.subrange(
            k + 1,
            s.len() as int,
        ));
    } else {
        assert(s.subrange(k + 1, s.len() as int) == Seq::<char>::empty());
    }
}

proof fn lemma_after_last_none(s: Seq<char>, c: char)
    requires
        forall|j: int| 0 <= j < s.len() ==> s[j] != c,
    ensures
        after_last(s, c) is None,
    decreases s.len(),
{
    if s.len() > 0 {
        lemma_after_last_none(s.drop_last(), c);
    }
}

/// The version of a jar name: the part of its stem after the last `-`, if any.
pub fn extract_version(filename: &str) -> (r: Option<String>)
    ensures
        opt_view(r) == version_of(filename@),
{
    let cs = text::chars_of(filename);
    let stem = jar_stem_of(&cs);
    let mut k: usize = stem.len();
    while k > 0 && stem[k - 1] != '-'
        invariant
            k <= stem.len(),
            forall|j: int| k <= j < stem.len() ==> stem@[j] != '-',
        decreases k,
    {
        k = k - 1;
    }
    if k == 0 {
        proof {
            lemma_after_last_none(stem@, '-');
        }
        None
    } else {
        proof {
            lemma_after_last(stem@, '-', k - 1);
        }
        let v = text::slice_to_vec(&stem, k, stem.len());
        Some(text::string_of(v.as_slice()))
    }
}

/// The id under which a mod is matched against the knowledge base: its own id
/// lower-cased, or else its lower-cased file name without `.jar`, `.zip` and
/// `.disabled` endings.
pub open spec fn normalized_id_of(m: ModInfo) -> Seq<char> {
    match m.mod_id {
        Some(id) => text::spec_lowercase(id@),
        None => text::trim_end_matches(
            text::trim_end_matches(
                text::trim_end_matches(text::spec_lowercase(m.file_name@), ".jar"@),
                ".zip"@,
            ),
            ".disabled"@,
        ),
    }
}

/// The id under which `mod_info` is matched against the knowledge base.
pub fn normalized_mod_id(mod_info: &ModInfo) -> (r: Option<String>)
    ensures
        opt_view(r) == Some(normalized_id_of(*mod_info)),
{
    match &mod_info.mod_id {
        Some(id) => Some(text::lowercase(id.as_str())),
        None => {
            let lower = text::lowercase(mod_info.file_name.as_str());
            let l = text::chars_of_string(&lower);
            let a = text::trim_end_matches_str(&l, ".jar");
            let b = text::trim_end_matches_str(&a, ".zip");
            let c = text::trim_end_matches_str(&b, ".disabled");
            Some(text::string_of(c.as_slice()))
        },
    }
}

// ---------------------------------------------------------------------------
// Conflicts and overlapping mods
// ---------------------------------------------------------------------------

/// A conflict rule or warning as its four texts: mod a, mod b, reason, severity.
pub type ConflictText = (Seq<char>, Seq<char>, Seq<char>, Seq<char>);

pub open spec fn rule_views(v: Seq<ConflictRule>) -> Seq<ConflictText> {
    Seq::new(v.len(), |i: int| (v[i].mod_a@, v[i].mod_b@, v[i].reason@, v[i].severity@))
}

pub open spec fn warning_views(v: Seq<ConflictWarning>) -> Seq<ConflictText> {
    Seq::new(v.len(), |i: int| (v[i].mod_a@, v[i].mod_b@, v[i].reason@, v[i].severity@))
}

/// The rules whose two mods each occur within some installed id, in rule order.
pub open spec fn conflicts_for(ids: Seq<Seq<char>>, rules: Seq<ConflictText>) -> Seq<ConflictText>
    decreases rules.len(),
{
    if rules.len() == 0 {
        Seq::empty()
    } else {
        let prev = conflicts_for(ids, rules.drop_last());
        let r = rules.last();
        if text::some_contains(ids, r.0) && text::some_contains(ids, r.1) {
            prev.push(r)
        } else {
            prev
        }
    }
}

/// The warnings for the conflict rules whose two mods are both installed.
pub fn detect_known_conflicts(installed_ids: &Vec<String>, rules: &Vec<ConflictRule>) -> (r: Vec<
    ConflictWarning,
>)
    ensures
        warning_views(r@) == conflicts_for(text::sviews(installed_ids@), rule_views(rules@)),
{
    let ghost ids = text::sviews(installed_ids@);
    let ghost rv = rule_views(rules@);
    let mut out: Vec<ConflictWarning> = Vec::new();
    let mut i: usize = 0;
    assert(rv.take(0) == Seq::<ConflictText>::empty());
    assert(warning_views(out@) =~= Seq::<ConflictText>::empty());
    while i < rules.len()
        invariant
            i <= rules.len(),
            ids == text::sviews(installed_ids@),
            rv == rule_views(rules@),
            warning_views(out@) == conflicts_for(ids, rv.take(i as int)),
        decreases rules.len() - i,
    {
        let rule = &rules[i];
        assert(rv.take(i + 1).drop_last() == rv.take(i as int));
        assert(rv.take(i + 1).last() == rv[i as int]);
        let a = text::chars_of_string(&rule.mod_a);
        let b = text::chars_of_string(&rule.mod_b);
        if text::any_contains(installed_ids, &a) && text::any_contains(installed_ids, &b) {
            let ghost before = warning_views(out@);
            out.push(
                ConflictWarning {
                    mod_a: text::copy_string(&rule.mod_a),
                    mod_b: text::copy_string(&rule.mod_b),
                    reason: text::copy_string(&rule.reason),
                    severity: text::copy_string(&rule.severity),
                },
            );
            assert(warning_views(out@) =~= before.push(rv[i as int]));
        }
        i = i + 1;
    }
    assert(rv.take(rules.len() as int) == rv);
    out
}

/// A known mod as its id and display name.
pub open spec fn known_views(v: Seq<ModMetadata>) -> Seq<(Seq<char>, Seq<char>)> {
    Seq::new(v.len(), |i: int| (v[i].id@, v[i].name@))
}

/// The display name of the first known mod with id `id`, or `id` itself.
pub open spec fn display_name(known: Seq<(Seq<char>, Seq<char>)>, id: Seq<char>) -> Seq<char>
    decreases known.len(),
{
    if known.len() == 0 {
        id
    } else if known[0].0 == id {
        known[0].1
    } else {
        display_name(known.drop_first(), id)
    }
}

/// The members of a group that occur within some installed id, by display name.
pub open spec fn installed_in_group(
    ids: Seq<Seq<char>>,
    members: Seq<Seq<char>>,
    known: Seq<(Seq<char>, Seq<char>)>,
) -> Seq<Seq<char>>
    decreases members.len(),
{
    if members.len() == 0 {
        Seq::empty()
    } else {
        let prev = installed_in_group(ids, members.drop_last(), known);
        if text::some_contains(ids, members.last()) {
            prev.push(display_name(known, members.last()))
        } else {
            prev
        }
    }
}

/// A group or warning as category, mods and recommendation.
pub type GroupText = (Seq<char>, Seq<Seq<char>>, Seq<char>);

pub open spec fn group_views(v: Seq<DuplicateGroup>) -> Seq<GroupText> {
    Seq::new(v.len(), |i: int| (v[i].category@, text::sviews(v[i].mods@), v[i].recommendation@))
}

pub open spec fn duplicate_views(v: Seq<DuplicateWarning>) -> Seq<GroupText> {
    Seq::new(
        v.len(),
        |i: int| (v[i].category@, text::sviews(v[i].installed_mods@), v[i].recommendation@),
    )
}

/// A warning for each group with more than one member installed, in group order.
pub open spec fn duplicates_for(
    ids: Seq<Seq<char>>,
    groups: Seq<GroupText>,
    known: Seq<(Seq<char>, Seq<char>)>,
) -> Seq<GroupText>
    decreases groups.len(),
{
    if groups.len() == 0 {
        Seq::empty()
    } else {
        let prev = duplicates_for(ids, groups.drop_last(), known);
        let g = groups.last();
        let inst = installed_in_group(ids, g.1, known);
        if inst.len() > 1 {
            prev.push((g.0, inst, g.2))
        } else {
            prev
        }
    }
}

fn display_name_of(known: &Vec<ModMetadata>, id: &String) -> (r: String)
    ensures
        r@ == display_name(known_views(known@), id@),
{
    let ghost kv = known_views(known@);
    let mut j: usize = 0;
    assert(kv.skip(0) == kv);
    while j < known.len()
        invariant
            j <= known.len(),
            kv == known_views(known@),
            display_name(kv, id@) == display_name(kv.skip(j as int), id@),
        decreases known.len() - j,
    {
        assert(kv.skip(j as int)[0] == kv[j as int]);
        assert(kv.skip(j as int).drop_first() == kv.skip(j + 1));
        let k = text::chars_of_string(&known[j].id);
        let want = text::chars_of_string(id);
        if text::seq_eq(&k, &want) {
            return text::copy_string(&known[j].name);
        }
        j = j + 1;
    }
    assert(kv.skip(known.len() as int).len() == 0);
    text::copy_string(id)
}

fn group_members_installed(
    installed_ids: &Vec<String>,
    members: &Vec<String>,
    known: &Vec<ModMetadata>,
) -> (r: Vec<String>)
    ensures
        text::sviews(r@) == installed_in_group(
            text::sviews(installed_ids@),
            text::sviews(members@),
            known_views(known@),
        ),
{
    let ghost ids = text::sviews(installed_ids@);
    let ghost mv = text::sviews(members@);
    let ghost kv = known_views(known@);
    let mut out: Vec<String> = Vec::new();
    let mut i: usize = 0;
    assert(mv.take(0) == Seq::<Seq<char>>::empty());
    assert(text::sviews(out@) =~= Seq::<Seq<char>>::empty());
    while i < members.len()
        invariant
            i <= members.len(),
            ids == text::sviews(installed_ids@),
            mv == text::sviews(members@),
            kv == known_views(known@),
            text::sviews(out@) == installed_in_group(ids, mv.take(i as int), kv),
        decreases members.len() - i,
    {
        assert(mv.take(i + 1).drop_last() == mv.take(i as int));
        assert(mv.take(i + 1).last() == members@[i as int]@);
        let m = text::chars_of_string(&members[i]);
        if text::any_contains(installed_ids, &m) {
            let name = display_name_of(known, &members[i]);
            let ghost before = text::sviews(out@);
            out.push(name);
            assert(text::sviews(out@) =~= before.push(display_name(kv, members@[i as int]@)));
        }
        i = i + 1;
    }
    assert(mv.take(members.len() as int) == mv);
    out
}

/// The warnings for the groups of which more than one member is installed.
pub fn detect_duplicate_groups(
    installed_ids: &Vec<String>,
    groups: &Vec<DuplicateGroup>,
    known_mods: &Vec<ModMetadata>,
) -> (r: Vec<DuplicateWarning>)
    ensures
        duplicate_views(r@) == duplicates_for(
            text::sviews(installed_ids@),
            group_views(groups@),
            known_views(known_mods@),
        ),
{
    let ghost ids = text::sviews(installed_ids@);
    let ghost gv = group_views(groups@);
    let ghost kv = known_views(known_mods@);
    let mut out: Vec<DuplicateWarning> = Vec::new();
    let mut i: usize = 0;
    assert(gv.take(0) == Seq::<GroupText>::empty());
    assert(duplicate_views(out@) =~= Seq::<GroupText>::empty());
    while i < groups.len()
        invariant
            i <= groups.len(),
            ids == text::sviews(installed_ids@),
            gv == group_views(groups@),
            kv == known_views(known_mods@),
            duplicate_views(out@) == duplicates_for(ids, gv.take(i as int), kv),
        decreases groups.len() - i,
    {
        let group = &groups[i];
        assert(gv.take(i + 1).drop_last() == gv.take(i as int));
        assert(gv.take(i + 1).last() == gv[i as int]);
        let inst = group_members_installed(installed_ids, &group.mods, known_mods);
        if inst.len() > 1 {
            let ghost before = duplicate_views(out@);
            let ghost iv = text::sviews(inst@);
            out.push(
                DuplicateWarning {
                    category: text::copy_string(&group.category),
                    installed_mods: inst,
                    recommendation: text::copy_string(&group.recommendation),
                },
            );
            assert(duplicate_views(out@) =~= before.push((gv[i as int].0, iv, gv[i as int].2)));
        }
        i = i + 1;
    }
    assert(gv.take(groups.len() as int) == gv);
    out
}

// ---------------------------------------------------------------------------
// Performance mods
// ---------------------------------------------------------------------------

/// File-name patterns of well-known performance mods, with the mod's name.
pub open spec fn known_performance_mods() -> Seq<(Seq<char>, Seq<char>)> {
    seq![
        ("modernfix"@, "ModernFix"@),
        ("ferritecore"@, "FerriteCore"@),
        ("sodium"@, "Sodium"@),
        ("embeddium"@, "Embeddium"@),
        ("entityculling"@, "Entity Culling"@),
        ("entity_culling"@, "Entity Culling"@),
        ("immediatelyfast"@, "ImmediatelyFast"@),
        ("servercore"@, "ServerCore"@),
        ("lithium"@, "Lithium"@),
        ("starlight"@, "Starlight"@),
        ("lazydfu"@, "LazyDFU"@),
        ("smoothboot"@, "Smooth Boot"@),
        ("dynamic_fps"@, "Dynamic FPS"@),
        ("dynamicfps"@, "Dynamic FPS"@),
        ("fastsuite"@, "FastSuite"@),
        ("noisium"@, "Noisium"@),
        ("clumps"@, "Clumps"@),
        ("krypton"@, "Krypton"@),
        ("memoryleakfix"@, "MemoryLeakFix"@),
        ("moreculling"@, "More Culling"@),
        ("exordium"@, "Exordium"@),
        ("distanthorizons"@, "Distant Horizons"@),
        ("distant_horizons"@, "Distant Horizons"@),
    ]
}

pub open spec fn pair_views(v: Seq<(&str, &str)>) -> Seq<(Seq<char>, Seq<char>)> {
    Seq::new(v.len(), |i: int| (v[i].0@, v[i].1@))
}

fn known_performance_mod_list() -> (r: Vec<(&'static str, &'static str)>)
    ensures
        pair_views(r@) == known_performance_mods(),
{
    let r = vec![
        ("modernfix", "ModernFix"),
        ("ferritecore", "FerriteCore"),
        ("sodium", "Sodium"),
        ("embeddium", "Embeddium"),
        ("entityculling", "Entity Culling"),
        ("entity_culling", "Entity Culling"),
        ("immediatelyfast", "ImmediatelyFast"),
        ("servercore", "ServerCore"),
        ("lithium", "Lithium"),
        ("starlight", "Starlight"),
        ("lazydfu", "LazyDFU"),
        ("smoothboot", "Smooth Boot"),
        ("dynamic_fps", "Dynamic FPS"),
        ("dynamicfps", "Dynamic FPS"),
        ("fastsuite", "FastSuite"),
        ("noisium", "Noisium"),
        ("clumps", "Clumps"),
        ("krypton", "Krypton"),
        ("memoryleakfix", "MemoryLeakFix"),
        ("moreculling", "More Culling"),
        ("exordium", "Exordium"),
        ("distanthorizons", "Distant Horizons"),
        ("distant_horizons", "Distant Horizons"),
    ];
    assert(pair_views(r@) =~= known_performance_mods());
    r
}

/// `detected` after one lower-cased file name is matched against `pats`: each
/// pattern it contains adds the mod's name unless the name is there already.
pub open spec fn scan_patterns(
    detected: Seq<Seq<char>>,
    lower: Seq<char>,
    pats: Seq<(Seq<char>, Seq<char>)>,
) -> Seq<Seq<char>>
    decreases pats.len(),
{
    if pats.len() == 0 {
        detected
    } else {
        let prev = scan_patterns(detected, lower, pats.drop_last());
        let p = pats.last();
        if text::contains(lower, p.0) && !prev.contains(p.1) {
            prev.push(p.1)
        } else {
            prev
        }
    }
}

/// The performance mods found among the file names, in order of discovery,
/// each name once.
pub open spec fn detect_perf(files: Seq<Seq<char>>) -> Seq<Seq<char>>
    decreases files.len(),
{
    if files.len() == 0 {
        Seq::empty()
    } else {
        scan_patterns(
            detect_perf(files.drop_last()),
            text::spec_lowercase(files.last()),
            known_performance_mods(),
        )
    }
}

/// The file names of the mods.
pub open spec fn file_names(mods: Seq<ModInfo>) -> Seq<Seq<char>> {
    Seq::new(mods.len(), |i: int| mods[i].file_name@)
}

/// The performance mods found so far (`detected`) after the lower-cased file
/// name `lower_name` is matched against the known mods: each known pattern that
/// the name contains adds its mod's name, unless that name is there already.
pub fn scan_lowered_name(detected: Vec<String>, lower_name: &str) -> (r: Vec<String>)
    ensures
        text::sviews(r@) == scan_patterns(text::sviews(detected@), lower_name@, known_performance_mods()),
{
    let known = known_performance_mod_list();
    let lower = text::chars_of(lower_name);
    let mut detected = detected;
    let ghost d0 = text::sviews(detected@);
    let ghost kv = known_performance_mods();
    let mut j: usize = 0;
    assert(kv.take(0) == Seq::<(Seq<char>, Seq<char>)>::empty());
    while j < known.len()
        invariant
            j <= known.len(),
            kv == known_performance_mods(),
            pair_views(known@) == kv,
            lower@ == lower_name@,
            text::sviews(detected@) == scan_patterns(d0, lower@, kv.take(j as int)),
        decreases known.len() - j,
    {
        let (pattern, name) = known[j];
        assert(kv.take(j + 1).drop_last() == kv.take(j as int));
        assert(kv.take(j + 1).last() == (pattern@, name@));
        let name_v = text::chars_of(name);
        if text::contains_str(&lower, pattern) && !text::contains_string(&detected, &name_v) {
            let ghost before = text::sviews(detected@);
            detected.push(text::to_string(name));
            assert(text::sviews(detected@) =~= before.push(name@));
        }
        j = j + 1;
    }
    assert(kv.take(known.len() as int) == kv);
    detected
}

/// The names of the well-known performance mods among `mods`.
pub fn detect_performance_mods(mods: &Vec<ModInfo>) -> (r: Vec<String>)
    ensures
        text::sviews(r@) == detect_perf(file_names(mods@)),
{
    let ghost fns = file_names(mods@);
    let mut detected: Vec<String> = Vec::new();
    let mut i: usize = 0;
    assert(fns.take(0) == Seq::<Seq<char>>::empty());
    assert(text::sviews(detected@) =~= Seq::<Seq<char>>::empty());
    while i < mods.len()
        invariant
            i <= mods.len(),
            fns == file_names(mods@),
            text::sviews(detected@) == detect_perf(fns.take(i as int)),
        decreases mods.len() - i,
    {
        assert(fns.take(i + 1).drop_last() == fns.take(i as int));
        assert(fns.take(i + 1).last() == mods@[i as int].file_name@);
        let lower_s = text::lowercase(mods[i].file_name.as_str());
        detected = scan_lowered_name(detected, lower_s.as_str());
        i = i + 1;
    }
    assert(fns.take(mods.len() as int) == fns);
    detected
}

/// A recommendation as name, id, reason, impact, confidence, url and loaders.
pub type PerfText = (Seq<char>, Seq<char>, Seq<char>, Seq<char>, Seq<char>, Seq<char>, Seq<Seq<char>>);

pub open spec fn perf_view(r: PerformanceModRecommendation) -> PerfText {
    (
        r.mod_name@,
        r.mod_id@,
        r.reason@,
        r.expected_impact@,
        r.confidence@,
        r.url@,
        text::sviews(r.loaders@),
    )
}

pub open spec fn perf_views(v: Seq<PerformanceModRecommendation>) -> Seq<PerfText> {
    Seq::new(v.len(), |i: int| perf_view(v[i]))
}

/// A recommendation for a mod available on Forge, NeoForge and Fabric.
pub open spec fn perf_text(
    name: Seq<char>,
    id: Seq<char>,
    reason: Seq<char>,
    impact: Seq<char>,
    confidence: Seq<char>,
    url: Seq<char>,
) -> PerfText {
    (name, id, reason, impact, confidence, url, seq!["Forge"@, "NeoForge"@, "Fabric"@])
}

/// The performance mods worth recommending, in order.
pub open spec fn recommended_mods() -> Seq<PerfText> {
    seq![
        perf_text(
            "ModernFix"@,
            "modernfix"@,
            "Reduces memory usage and improves startup time. Compatible with most modpacks."@,
            "Medium — reduced memory usage, faster startup"@,
            "high"@,
            "https://modrinth.com/mod/modernfix"@,
        ),
        perf_text(
            "FerriteCore"@,
            "ferritecore"@,
            "Significantly reduces memory usage through data structure optimization."@,
            "High — 50-200MB RAM reduction"@,
            "high"@,
            "https://modrinth.com/mod/ferrite-core"@,
        ),
        perf_text(
            "Entity Culling"@,
            "entityculling"@,
            "Skips rendering entities that are not visible, improving FPS."@,
            "Medium — +10-30% FPS in entity-heavy areas"@,
            "high"@,
            "https://modrinth.com/mod/entityculling"@,
        ),
        perf_text(
            "ImmediatelyFast"@,
            "immediatelyfast"@,
            "Optimizes immediate-mode rendering, improving HUD and GUI performance."@,
            "Low-Medium — smoother UI and HUD rendering"@,
            "high"@,
            "https://modrinth.com/mod/immediatelyfast"@,
        ),
        perf_text(
            "Clumps"@,
            "clumps"@,
            "Merges XP orbs into single entities, reducing entity count."@,
            "Low — reduces entity-related lag"@,
            "high"@,
            "https://modrinth.com/mod/clumps"@,
        ),
        perf_text(
            "Distant Horizons"@,
            "distanthorizons"@,
            "Renders far terrain using LOD meshes, dramatically improving visual range without GPU cost. Requires client-side installation."@,
            "High — massively extended render distance with minimal performance cost"@,
            "high"@,
            "https://modrinth.com/mod/distanthorizons"@,
        ),
    ]
}

fn make_perf(
    name: &str,
    id: &str,
    reason: &str,
    impact: &str,
    confidence: &str,
    url: &str,
) -> (r: PerformanceModRecommendation)
    ensures
        perf_view(r) == perf_text(name@, id@, reason@, impact@, confidence@, url@),
{
    let loaders = text::strings_of(&vec!["Forge", "NeoForge", "Fabric"]);
    let ghost lv = seq!["Forge"@, "NeoForge"@, "Fabric"@];
    assert(text::str_views(seq!["Forge", "NeoForge", "Fabric"]) =~= lv);
    PerformanceModRecommendation {
        mod_name: text::to_string(name),
        mod_id: text::to_string(id),
        reason: text::to_string(reason),
        expected_impact: text::to_string(impact),
        confidence: text::to_string(confidence),
        url: text::to_string(url),
        loaders,
    }
}

fn copy_perf(r: &PerformanceModRecommendation) -> (c: PerformanceModRecommendation)
    ensures
        perf_view(c) == perf_view(*r),
{
    PerformanceModRecommendation {
        mod_name: text::copy_string(&r.mod_name),
        mod_id: text::copy_string(&r.mod_id),
        reason: text::copy_string(&r.reason),
        expected_impact: text::copy_string(&r.expected_impact),
        confidence: text::copy_string(&r.confidence),
        url: text::copy_string(&r.url),
        loaders: text::copy_strings(&r.loaders),
    }
}

/// The performance mods worth recommending.
pub fn recommended_performance_mods() -> (r: Vec<PerformanceModRecommendation>)
    ensures
        perf_views(r@) == recommended_mods(),
{
    let mut v: Vec<PerformanceModRecommendation> = Vec::new();
    assert(perf_views(v@) =~= Seq::<PerfText>::empty());
    let ghost b = perf_views(v@);
    v.push(
        make_perf(
            "ModernFix",
            "modernfix",
            "Reduces memory usage and improves startup time. Compatible with most modpacks.",
            "Medium — reduced memory usage, faster startup",
            "high",
            "https://modrinth.com/mod/modernfix",
        ),
    );
    assert(perf_views(v@) =~= b.push(perf_text(
        "ModernFix"@,
        "modernfix"@,
        "Reduces memory usage and improves startup time. Compatible with most modpacks."@,
        "Medium — reduced memory usage, faster startup"@,
        "high"@,
        "https://modrinth.com/mod/modernfix"@,
    )));
    let ghost b = perf_views(v@);
    v.push(
        make_perf(
            "FerriteCore",
            "ferritecore",
            "Significantly reduces memory usage through data structure optimization.",
            "High — 50-200MB RAM reduction",
            "high",
            "https://modrinth.com/mod/ferrite-core",
        ),
    );
    assert(perf_views(v@) =~= b.push(perf_text(
        "FerriteCore"@,
        "ferritecore"@,
        "Significantly reduces memory usage through data structure optimization."@,
        "High — 50-200MB RAM reduction"@,
        "high"@,
        "https://modrinth.com/mod/ferrite-core"@,
    )));
    let ghost b = perf_views(v@);
    v.push(
        make_perf(
            "Entity Culling",
            "entityculling",
            "Skips rendering entities that are not visible, improving FPS.",
            "Medium — +10-30% FPS in entity-heavy areas",
            "high",
            "https://modrinth.com/mod/entityculling",
        ),
    );
    assert(perf_views(v@) =~= b.push(perf_text(
        "Entity Culling"@,
        "entityculling"@,
        "Skips rendering entities that are not visible, improving FPS."@,
        "Medium — +10-30% FPS in entity-heavy areas"@,
        "high"@,
        "https://modrinth.com/mod/entityculling"@,
    )));
    let ghost b = perf_views(v@);
    v.push(
        make_perf(
            "ImmediatelyFast",
            "immediatelyfast",
            "Optimizes immediate-mode rendering, improving HUD and GUI performance.",
            "Low-Medium — smoother UI and HUD rendering",
            "high",
            "https://modrinth.com/mod/immediatelyfast",
        ),
    );
    assert(perf_views(v@) =~= b.push(perf_text(
        "ImmediatelyFast"@,
        "immediatelyfast"@,
        "Optimizes immediate-mode rendering, improving HUD and GUI performance."@,
        "Low-Medium — smoother UI and HUD rendering"@,
        "high"@,
        "https://modrinth.com/mod/immediatelyfast"@,
    )));
    let ghost b = perf_views(v@);
    v.push(
        make_perf(
            "Clumps",
            "clumps",
            "Merges XP orbs into single entities, reducing entity count.",
            "Low — reduces entity-related lag",
            "high",
            "https://modrinth.com/mod/clumps",
        ),
    );
    assert(perf_views(v@) =~= b.push(perf_text(
        "Clumps"@,
        "clumps"@,
        "Merges XP orbs into single entities, reducing entity count."@,
        "Low — reduces entity-related lag"@,
        "high"@,
        "https://modrinth.com/mod/clumps"@,
    )));
    let ghost b = perf_views(v@);
    v.push(
        make_perf(
            "Distant Horizons",
            "distanthorizons",
            "Renders far terrain using LOD meshes, dramatically improving visual range without GPU cost. Requires client-side installation.",
            "High — massively extended render distance with minimal performance cost",
            "high",
            "https://modrinth.com/mod/distanthorizons",
        ),
    );
    assert(perf_views(v@) =~= b.push(perf_text(
        "Distant Horizons"@,
        "distanthorizons"@,
        "Renders far terrain using LOD meshes, dramatically improving visual range without GPU cost. Requires client-side installation."@,
        "High — massively extended render distance with minimal performance cost"@,
        "high"@,
        "https://modrinth.com/mod/distanthorizons"@,
    )));
    assert(perf_views(v@) =~= recommended_mods());
    v
}

/// A recommended mod is missing when no detected mod has its name (ignoring
/// case) and, when a loader is given, it is available for that loader.
pub open spec fn is_missing(detected: Seq<Seq<char>>, loader: Option<Seq<char>>, r: PerfText) -> bool {
    &&& !text::some_lower_eq(detected, r.0)
    &&& match loader {
        Some(l) => text::some_lower_eq(r.6, l),
        None => true,
    }
}

/// The recommendations that are missing, in order.
pub open spec fn missing_for(
    detected: Seq<Seq<char>>,
    loader: Option<Seq<char>>,
    recs: Seq<PerfText>,
) -> Seq<PerfText>
    decreases recs.len(),
{
    if recs.len() == 0 {
        Seq::empty()
    } else {
        let prev = missing_for(detected, loader, recs.drop_last());
        if is_missing(detected, loader, recs.last()) {
            prev.push(recs.last())
        } else {
            prev
        }
    }
}

pub open spec fn opt_str_view(o: Option<&str>) -> Option<Seq<char>> {
    match o {
        Some(s) => Some(s@),
        None => None,
    }
}

/// The recommended performance mods that are not installed and suit the loader.
pub fn find_missing_performance_mods(detected: &Vec<String>, loader: Option<&str>) -> (r: Vec<
    PerformanceModRecommendation,
>)
    ensures
        perf_views(r@) == missing_for(text::sviews(detected@), opt_str_view(loader), recommended_mods()),
{
    let all = recommended_performance_mods();
    let ghost dv = text::sviews(detected@);
    let ghost lv = opt_str_view(loader);
    let ghost rv = recommended_mods();
    let mut out: Vec<PerformanceModRecommendation> = Vec::new();
    let mut i: usize = 0;
    assert(rv.take(0) == Seq::<PerfText>::empty());
    assert(perf_views(out@) =~= Seq::<PerfText>::empty());
    while i < all.len()
        invariant
            i <= all.len(),
            perf_views(all@) == rv,
            dv == text::sviews(detected@),
            lv == opt_str_view(loader),
            rv == recommended_mods(),
            perf_views(out@) == missing_for(dv, lv, rv.take(i as int)),
        decreases all.len() - i,
    {
        let rec = &all[i];
        assert(rv.take(i + 1).drop_last() == rv.take(i as int));
        assert(rv.take(i + 1).last() == perf_view(*rec));
        let installed = text::any_lower_eq(detected, rec.mod_name.as_str());
        let fits = match loader {
            Some(l) => text::any_lower_eq(&rec.loaders, l),
            None => true,
        };
        if !installed && fits {
            let ghost before = perf_views(out@);
            out.push(copy_perf(rec));
            assert(perf_views(out@) =~= before.push(perf_view(*rec)));
        }
        i = i + 1;
    }
    assert(rv.take(all.len() as int) == rv);
    out
}

// ---------------------------------------------------------------------------
// The knowledge base
// ---------------------------------------------------------------------------

/// The version of the built-in knowledge base.
pub open spec fn metadata_version() -> Seq<char> {
    "1.0.0"@
}

/// The ids and names of the mods the knowledge base knows.
pub open spec fn builtin_known_mods() -> Seq<(Seq<char>, Seq<char>)> {
    seq![
        ("sodium"@, "Sodium"@),
        ("embeddium"@, "Embeddium"@),
        ("rubidium"@, "Rubidium"@),
        ("optifine"@, "OptiFine"@),
        ("iris"@, "Iris Shaders"@),
        ("oculus"@, "Oculus"@),
        ("lithium"@, "Lithium"@),
        ("canary"@, "Canary"@),
        ("radium"@, "Radium"@),
        ("starlight"@, "Starlight"@),
        ("phosphor"@, "Phosphor"@),
        ("ferritecore"@, "FerriteCore"@),
        ("modernfix"@, "ModernFix"@),
        ("memoryleakfix"@, "MemoryLeakFix"@),
        ("entityculling"@, "Entity Culling"@),
        ("moreculling"@, "More Culling"@),
        ("immediatelyfast"@, "ImmediatelyFast"@),
        ("exordium"@, "Exordium"@),
        ("dynamic_fps"@, "Dynamic FPS"@),
        ("distanthorizons"@, "Distant Horizons"@),
        ("betterfpsdist"@, "Better FPS - Render Distance"@),
        ("clumps"@, "Clumps"@),
        ("krypton"@, "Krypton"@),
        ("lazydfu"@, "LazyDFU"@),
        ("smoothboot"@, "Smooth Boot"@),
        ("fastload"@, "Fastload"@),
        ("noisium"@, "Noisium"@),
        ("c2me"@, "Concurrent Chunk Management Engine"@),
        ("servercore"@, "ServerCore"@),
        ("fastsuite"@, "FastSuite"@),
    ]
}

/// The conflict rules of the knowledge base.
pub open spec fn builtin_conflicts() -> Seq<ConflictText> {
    seq![
        ("sodium"@, "optifine"@, "Sodium and OptiFine both replace the rendering engine and cannot run together."@, "critical"@),
        ("embeddium"@, "optifine"@, "Embeddium and OptiFine both replace the rendering engine and cannot run together."@, "critical"@),
        ("rubidium"@, "optifine"@, "Rubidium and OptiFine both replace the rendering engine and cannot run together."@, "critical"@),
        ("embeddium"@, "rubidium"@, "Embeddium replaces Rubidium; having both installed crashes the game."@, "critical"@),
        ("iris"@, "optifine"@, "Iris and OptiFine both load shaders; keep only one of them."@, "high"@),
        ("oculus"@, "optifine"@, "Oculus and OptiFine both load shaders; keep only one of them."@, "high"@),
        ("starlight"@, "phosphor"@, "Starlight and Phosphor both rewrite the lighting engine."@, "high"@),
        ("canary"@, "radium"@, "Canary replaces Radium; both change the same game code."@, "high"@),
    ]
}

/// The groups of mods that do the same job.
pub open spec fn builtin_groups() -> Seq<GroupText> {
    seq![
        ("rendering_optimizer"@, seq!["sodium"@, "embeddium"@, "rubidium"@, "optifine"@], "Keep a single rendering optimizer: Sodium on Fabric and NeoForge, Embeddium on Forge."@),
        ("shader_loader"@, seq!["iris"@, "oculus"@, "optifine"@], "Keep a single shader loader."@),
        ("game_logic_optimizer"@, seq!["lithium"@, "canary"@, "radium"@], "Keep a single game-logic optimizer for your loader."@),
        ("lighting_engine"@, seq!["starlight"@, "phosphor"@], "Keep only Starlight."@),
    ]
}

fn impact(memory: &str, startup: &str, runtime: &str) -> (r: PerformanceImpact)
    ensures
        r.memory@ == memory@,
        r.startup@ == startup@,
        r.runtime@ == runtime@,
{
    PerformanceImpact {
        memory: text::to_string(memory),
        startup: text::to_string(startup),
        runtime: text::to_string(runtime),
    }
}

fn rule(mod_a: &str, mod_b: &str, reason: &str, severity: &str) -> (r: ConflictRule)
    ensures
        r.mod_a@ == mod_a@,
        r.mod_b@ == mod_b@,
        r.reason@ == reason@,
        r.severity@ == severity@,
{
    ConflictRule {
        mod_a: text::to_string(mod_a),
        mod_b: text::to_string(mod_b),
        reason: text::to_string(reason),
        severity: text::to_string(severity),
    }
}

/// What the knowledge base holds of one mod, as text.
pub struct ModText {
    pub id: Seq<char>,
    pub name: Seq<char>,
    pub loaders: Seq<Seq<char>>,
    pub side: Seq<char>,
    pub category: Seq<char>,
    /// Memory, startup and runtime impact.
    pub performance_impact: Option<(Seq<char>, Seq<char>, Seq<char>)>,
    pub safe_removal: Option<Seq<char>>,
    pub modrinth_slug: Option<Seq<char>>,
    pub description: Seq<char>,
}

/// The text of a known mod.
pub open spec fn mod_text(m: ModMetadata) -> ModText {
    ModText {
        id: m.id@,
        name: m.name@,
        loaders: text::sviews(m.loaders@),
        side: m.side@,
        category: m.category@,
        performance_impact: match m.performance_impact {
            Some(p) => Some((p.memory@, p.startup@, p.runtime@)),
            None => None,
        },
        safe_removal: opt_view(m.safe_removal),
        modrinth_slug: opt_view(m.modrinth_slug),
        description: m.description@,
    }
}

pub open spec fn mod_texts(v: Seq<ModMetadata>) -> Seq<ModText> {
    Seq::new(v.len(), |i: int| mod_text(v[i]))
}

/// Everything the knowledge base holds of the mods it knows, in order.
pub open spec fn builtin_mods() -> Seq<ModText> {
    seq![
        ModText {
            id: "sodium"@,
            name: "Sodium"@,
            loaders: seq!["fabric"@, "neoforge"@],
            side: "client"@,
            category: "rendering"@,
            performance_impact: Some(("low"@, "low"@, "high"@)),
            safe_removal: None,
            modrinth_slug: Some("sodium"@),
            description: "Modern rendering engine that greatly improves frame rates."@,
        },
        ModText {
            id: "embeddium"@,
            name: "Embeddium"@,
            loaders: seq!["forge"@, "neoforge"@],
            side: "client"@,
            category: "rendering"@,
            performance_impact: Some(("low"@, "low"@, "high"@)),
            safe_removal: None,
            modrinth_slug: Some("embeddium"@),
            description: "Sodium-based rendering optimizer for Forge and NeoForge."@,
        },
        ModText {
            id: "rubidium"@,
            name: "Rubidium"@,
            loaders: seq!["forge"@],
            side: "client"@,
            category: "rendering"@,
            performance_impact: None,
            safe_removal: None,
            modrinth_slug: Some("rubidium"@),
            description: "Unofficial Sodium port for Forge, superseded by Embeddium."@,
        },
        ModText {
            id: "optifine"@,
            name: "OptiFine"@,
            loaders: seq!["forge"@],
            side: "client"@,
            category: "rendering"@,
            performance_impact: None,
            safe_removal: None,
            modrinth_slug: None,
            description: "Closed-source rendering and shader mod."@,
        },
        ModText {
            id: "iris"@,
            name: "Iris Shaders"@,
            loaders: seq!["fabric"@, "neoforge"@],
            side: "client"@,
            category: "shaders"@,
            performance_impact: None,
            safe_removal: None,
            modrinth_slug: Some("iris"@),
            description: "Shader loader that works together with Sodium."@,
        },
        ModText {
            id: "oculus"@,
            name: "Oculus"@,
            loaders: seq!["forge"@],
            side: "client"@,
            category: "shaders"@,
            performance_impact: None,
            safe_removal: None,
            modrinth_slug: Some("oculus"@),
            description: "Port of Iris Shaders for Forge."@,
        },
        ModText {
            id: "lithium"@,
            name: "Lithium"@,
            loaders: seq!["fabric"@, "neoforge"@],
            side: "both"@,
            category: "game_logic"@,
            performance_impact: Some(("low"@, "low"@, "high"@)),
            safe_removal: None,
            modrinth_slug: Some("lithium"@),
            description: "Optimizes physics, mob AI and block ticking."@,
        },
        ModText {
            id: "canary"@,
            name: "Canary"@,
            loaders: seq!["forge"@],
            side: "both"@,
            category: "game_logic"@,
            performance_impact: None,
            safe_removal: None,
            modrinth_slug: Some("canary"@),
            description: "Port of Lithium for Forge."@,
        },
        ModText {
            id: "radium"@,
            name: "Radium"@,
            loaders: seq!["forge"@],
            side: "both"@,
            category: "game_logic"@,
            performance_impact: None,
            safe_removal: None,
            modrinth_slug: Some("radium"@),
            description: "Earlier Lithium port for Forge, superseded by Canary."@,
        },
        ModText {
            id: "starlight"@,
            name: "Starlight"@,
            loaders: seq!["fabric"@, "forge"@],
            side: "both"@,
            category: "lighting"@,
            performance_impact: None,
            safe_removal: None,
            modrinth_slug: Some("starlight"@),
            description: "Rewrites the light engine for much faster chunk lighting."@,
        },
        ModText {
            id: "phosphor"@,
            name: "Phosphor"@,
            loaders: seq!["fabric"@],
            side: "both"@,
            category: "lighting"@,
            performance_impact: None,
            safe_removal: None,
            modrinth_slug: Some("phosphor"@),
            description: "Lighting engine optimizer, superseded by Starlight."@,
        },
        ModText {
            id: "ferritecore"@,
            name: "FerriteCore"@,
            loaders: seq!["fabric"@, "forge"@, "neoforge"@],
            side: "both"@,
            category: "memory"@,
            performance_impact: Some(("high"@, "low"@, "low"@)),
            safe_removal: None,
            modrinth_slug: Some("ferrite-core"@),
            description: "Reduces memory usage through leaner data structures."@,
        },
        ModText {
            id: "modernfix"@,
            name: "ModernFix"@,
            loaders: seq!["fabric"@, "forge"@, "neoforge"@],
            side: "both"@,
            category: "memory"@,
            performance_impact: Some(("high"@, "high"@, "low"@)),
            safe_removal: None,
            modrinth_slug: Some("modernfix"@),
            description: "Improves startup time and memory usage."@,
        },
        ModText {
            id: "memoryleakfix"@,
            name: "MemoryLeakFix"@,
            loaders: seq!["fabric"@, "forge"@, "neoforge"@],
            side: "both"@,
            category: "memory"@,
            performance_impact: None,
            safe_removal: None,
            modrinth_slug: Some("memoryleakfix"@),
            description: "Fixes memory leaks in the game and in other mods."@,
        },
        ModText {
            id: "entityculling"@,
            name: "Entity Culling"@,
            loaders: seq!["fabric"@, "forge"@, "neoforge"@],
            side: "client"@,
            category: "rendering"@,
            performance_impact: None,
            safe_removal: None,
            modrinth_slug: Some("entityculling"@),
            description: "Skips rendering entities that cannot be seen."@,
        },
        ModText {
            id: "moreculling"@,
            name: "More Culling"@,
            loaders: seq!["fabric"@, "forge"@, "neoforge"@],
            side: "client"@,
            category: "rendering"@,
            performance_impact: None,
            safe_removal: None,
            modrinth_slug: Some("moreculling"@),
            description: "Culls blocks that cannot be seen."@,
        },
        ModText {
            id: "immediatelyfast"@,
            name: "ImmediatelyFast"@,
            loaders: seq!["fabric"@, "forge"@, "neoforge"@],
            side: "client"@,
            category: "rendering"@,
            performance_impact: None,
            safe_removal: None,
            modrinth_slug: Some("immediatelyfast"@),
            description: "Speeds up immediate-mode rendering of HUD and GUI."@,
        },
        ModText {
            id: "exordium"@,
            name: "Exordium"@,
            loaders: seq!["fabric"@, "forge"@, "neoforge"@],
            side: "client"@,
            category: "rendering"@,
            performance_impact: None,
            safe_removal: None,
            modrinth_slug: Some("exordium"@),
            description: "Renders the GUI at a lower frame rate than the world."@,
        },
        ModText {
            id: "dynamic_fps"@,
            name: "Dynamic FPS"@,
            loaders: seq!["fabric"@, "forge"@, "neoforge"@],
            side: "client"@,
            category: "rendering"@,
            performance_impact: None,
            safe_removal: None,
            modrinth_slug: Some("dynamic-fps"@),
            description: "Lowers the frame rate when the game is in the background."@,
        },
        ModText {
            id: "distanthorizons"@,
            name: "Distant Horizons"@,
            loaders: seq!["fabric"@, "forge"@, "neoforge"@],
            side: "client"@,
            category: "rendering"@,
            performance_impact: None,
            safe_removal: None,
            modrinth_slug: Some("distanthorizons"@),
            description: "Renders far terrain with level-of-detail meshes."@,
        },
        ModText {
            id: "betterfpsdist"@,
            name: "Better FPS - Render Distance"@,
            loaders: seq!["fabric"@, "forge"@, "neoforge"@],
            side: "client"@,
            category: "rendering"@,
            performance_impact: None,
            safe_removal: None,
            modrinth_slug: Some("better-fps-render-distance"@),
            description: "Renders chunks in a sphere instead of a cube."@,
        },
        ModText {
            id: "clumps"@,
            name: "Clumps"@,
            loaders: seq!["fabric"@, "forge"@, "neoforge"@],
            side: "both"@,
            category: "entities"@,
            performance_impact: None,
            safe_removal: None,
            modrinth_slug: Some("clumps"@),
            description: "Merges experience orbs into single entities."@,
        },
        ModText {
            id: "krypton"@,
            name: "Krypton"@,
            loaders: seq!["fabric"@],
            side: "both"@,
            category: "networking"@,
            performance_impact: None,
            safe_removal: None,
            modrinth_slug: Some("krypton"@),
            description: "Optimizes the networking stack."@,
        },
        ModText {
            id: "lazydfu"@,
            name: "LazyDFU"@,
            loaders: seq!["fabric"@, "forge"@],
            side: "both"@,
            category: "startup"@,
            performance_impact: None,
            safe_removal: None,
            modrinth_slug: Some("lazydfu"@),
            description: "Delays DataFixerUpper initialization to speed up startup."@,
        },
        ModText {
            id: "smoothboot"@,
            name: "Smooth Boot"@,
            loaders: seq!["fabric"@, "forge"@],
            side: "both"@,
            category: "startup"@,
            performance_impact: None,
            safe_removal: None,
            modrinth_slug: Some("smooth-boot-fabric"@),
            description: "Tunes thread priorities during startup."@,
        },
        ModText {
            id: "fastload"@,
            name: "Fastload"@,
            loaders: seq!["fabric"@],
            side: "client"@,
            category: "startup"@,
            performance_impact: None,
            safe_removal: None,
            modrinth_slug: Some("fastload"@),
            description: "Shortens world loading screens."@,
        },
        ModText {
            id: "noisium"@,
            name: "Noisium"@,
            loaders: seq!["fabric"@, "forge"@, "neoforge"@],
            side: "server"@,
            category: "worldgen"@,
            performance_impact: None,
            safe_removal: None,
            modrinth_slug: Some("noisium"@),
            description: "Speeds up world generation."@,
        },
        ModText {
            id: "c2me"@,
            name: "Concurrent Chunk Management Engine"@,
            loaders: seq!["fabric"@],
            side: "both"@,
            category: "worldgen"@,
            performance_impact: None,
            safe_removal: None,
            modrinth_slug: Some("c2me-fabric"@),
            description: "Generates and loads chunks in parallel."@,
        },
        ModText {
            id: "servercore"@,
            name: "ServerCore"@,
            loaders: seq!["fabric"@, "forge"@],
            side: "server"@,
            category: "server"@,
            performance_impact: None,
            safe_removal: None,
            modrinth_slug: Some("servercore"@),
            description: "Server-side optimizations for chunk ticking and mob spawning."@,
        },
        ModText {
            id: "fastsuite"@,
            name: "FastSuite"@,
            loaders: seq!["forge"@, "neoforge"@],
            side: "both"@,
            category: "recipes"@,
            performance_impact: None,
            safe_removal: None,
            modrinth_slug: Some("fastsuite"@),
            description: "Speeds up recipe lookups."@,
        },
    ]
}

fn builtin_mod_list() -> (r: Vec<ModMetadata>)
    ensures
        mod_texts(r@) == builtin_mods(),
        known_views(r@) == builtin_known_mods(),
{
    let mut mods: Vec<ModMetadata> = Vec::new();
    assert(known_views(mods@) =~= Seq::<(Seq<char>, Seq<char>)>::empty());
    assert(mod_texts(mods@) =~= Seq::<ModText>::empty());
    let ghost b = known_views(mods@);
    let ghost t = mod_texts(mods@);
    let loaders = text::strings_of(&vec!["fabric", "neoforge"]);
    assert(text::str_views(seq!["fabric", "neoforge"]) =~= seq!["fabric"@, "neoforge"@]);
    assert(text::sviews(loaders@) =~= seq!["fabric"@, "neoforge"@]);
    mods.push(
        ModMetadata {
            id: text::to_string("sodium"),
            name: text::to_string("Sodium"),
            loaders: loaders,
            side: text::to_string("client"),
            category: text::to_string("rendering"),
            performance_impact: Some(impact("low", "low", "high")),
            safe_removal: None,
            modrinth_slug: Some(text::to_string("sodium")),
            description: text::to_string("Modern rendering engine that greatly improves frame rates."),
        },
    );
    assert(known_views(mods@) =~= b.push(("sodium"@, "Sodium"@)));
    assert(mod_texts(mods@) =~= t.push(
        ModText {
            id: "sodium"@,
            name: "Sodium"@,
            loaders: seq!["fabric"@, "neoforge"@],
            side: "client"@,
            category: "rendering"@,
            performance_impact: Some(("low"@, "low"@, "high"@)),
            safe_removal: None,
            modrinth_slug: Some("sodium"@),
            description: "Modern rendering engine that greatly improves frame rates."@,
        },
    ));
    let ghost b = known_views(mods@);
    let ghost t = mod_texts(mods@);
    let loaders = text::strings_of(&vec!["forge", "neoforge"]);
    assert(text::str_views(seq!["forge", "neoforge"]) =~= seq!["forge"@, "neoforge"@]);
    assert(text::sviews(loaders@) =~= seq!["forge"@, "neoforge"@]);
    mods.push(
        ModMetadata {
            id: text::to_string("embeddium"),
            name: text::to_string("Embeddium"),
            loaders: loaders,
            side: text::to_string("client"),
            category: text::to_string("rendering"),
            performance_impact: Some(impact("low", "low", "high")),
            safe_removal: None,
            modrinth_slug: Some(text::to_string("embeddium")),
            description: text::to_string("Sodium-based rendering optimizer for Forge and NeoForge."),
        },
    );
    assert(known_views(mods@) =~= b.push(("embeddium"@, "Embeddium"@)));
    assert(mod_texts(mods@) =~= t.push(
        ModText {
            id: "embeddium"@,
            name: "Embeddium"@,
            loaders: seq!["forge"@, "neoforge"@],
            side: "client"@,
            category: "rendering"@,
            performance_impact: Some(("low"@, "low"@, "high"@)),
            safe_removal: None,
            modrinth_slug: Some("embeddium"@),
            description: "Sodium-based rendering optimizer for Forge and NeoForge."@,
        },
    ));
    let ghost b = known_views(mods@);
    let ghost t = mod_texts(mods@);
    let loaders = text::strings_of(&vec!["forge"]);
    assert(text::str_views(seq!["forge"]) =~= seq!["forge"@]);
    assert(text::sviews(loaders@) =~= seq!["forge"@]);
    mods.push(
        ModMetadata {
            id: text::to_string("rubidium"),
            name: text::to_string("Rubidium"),
            loaders: loaders,
            side: text::to_string("client"),
            category: text::to_string("rendering"),
            performance_impact: None,
            safe_removal: None,
            modrinth_slug: Some(text::to_string("rubidium")),
            description: text::to_string("Unofficial Sodium port for Forge, superseded by Embeddium."),
        },
    );
    assert(known_views(mods@) =~= b.push(("rubidium"@, "Rubidium"@)));
    assert(mod_texts(mods@) =~= t.push(
        ModText {
            id: "rubidium"@,
            name: "Rubidium"@,
            loaders: seq!["forge"@],
            side: "client"@,
            category: "rendering"@,
            performance_impact: None,
            safe_removal: None,
            modrinth_slug: Some("rubidium"@),
            description: "Unofficial Sodium port for Forge, superseded by Embeddium."@,
        },
    ));
    let ghost b = known_views(mods@);
    let ghost t = mod_texts(mods@);
    let loaders = text::strings_of(&vec!["forge"]);
    assert(text::str_views(seq!["forge"]) =~= seq!["forge"@]);
    assert(text::sviews(loaders@) =~= seq!["forge"@]);
    mods.push(
        ModMetadata {
            id: text::to_string("optifine"),
            name: text::to_string("OptiFine"),
            loaders: loaders,
            side: text::to_string("client"),
            category: text::to_string("rendering"),
            performance_impact: None,
            safe_removal: None,
            modrinth_slug: None,
            description: text::to_string("Closed-source rendering and shader mod."),
        },
    );
    assert(known_views(mods@) =~= b.push(("optifine"@, "OptiFine"@)));
    assert(mod_texts(mods@) =~= t.push(
        ModText {
            id: "optifine"@,
            name: "OptiFine"@,
            loaders: seq!["forge"@],
            side: "client"@,
            category: "rendering"@,
            performance_impact: None,
            safe_removal: None,
            modrinth_slug: None,
            description: "Closed-source rendering and shader mod."@,
        },
    ));
    let ghost b = known_views(mods@);
    let ghost t = mod_texts(mods@);
    let loaders = text::strings_of(&vec!["fabric", "neoforge"]);
    assert(text::str_views(seq!["fabric", "neoforge"]) =~= seq!["fabric"@, "neoforge"@]);
    assert(text::sviews(loaders@) =~= seq!["fabric"@, "neoforge"@]);
    mods.push(
        ModMetadata {
            id: text::to_string("iris"),
            name: text::to_string("Iris Shaders"),
            loaders: loaders,
            side: text::to_string("client"),
            category: text::to_string("shaders"),
            performance_impact: None,
            safe_removal: None,
            modrinth_slug: Some(text::to_string("iris")),
            description: text::to_string("Shader loader that works together with Sodium."),
        },
    );
    assert(known_views(mods@) =~= b.push(("iris"@, "Iris Shaders"@)));
    assert(mod_texts(mods@) =~= t.push(
        ModText {
            id: "iris"@,
            name: "Iris Shaders"@,
            loaders: seq!["fabric"@, "neoforge"@],
            side: "client"@,
            category: "shaders"@,
            performance_impact: None,
            safe_removal: None,
            modrinth_slug: Some("iris"@),
            description: "Shader loader that works together with Sodium."@,
        },
    ));
    let ghost b = known_views(mods@);
    let ghost t = mod_texts(mods@);
    let loaders = text::strings_of(&vec!["forge"]);
    assert(text::str_views(seq!["forge"]) =~= seq!["forge"@]);
    assert(text::sviews(loaders@) =~= seq!["forge"@]);
    mods.push(
        ModMetadata {
            id: text::to_string("oculus"),
            name: text::to_string("Oculus"),
            loaders: loaders,
            side: text::to_string("client"),
            category: text::to_string("shaders"),
            performance_impact: None,
            safe_removal: None,
            modrinth_slug: Some(text::to_string("oculus")),
            description: text::to_string("Port of Iris Shaders for Forge."),
        },
    );
    assert(known_views(mods@) =~= b.push(("oculus"@, "Oculus"@)));
    assert(mod_texts(mods@) =~= t.push(
        ModText {
            id: "oculus"@,
            name: "Oculus"@,
            loaders: seq!["forge"@],
            side: "client"@,
            category: "shaders"@,
            performance_impact: None,
            safe_removal: None,
            modrinth_slug: Some("oculus"@),
            description: "Port of Iris Shaders for Forge."@,
        },
    ));
    let ghost b = known_views(mods@);
    let ghost t = mod_texts(mods@);
    let loaders = text::strings_of(&vec!["fabric", "neoforge"]);
    assert(text::str_views(seq!["fabric", "neoforge"]) =~= seq!["fabric"@, "neoforge"@]);
    assert(text::sviews(loaders@) =~= seq!["fabric"@, "neoforge"@]);
    mods.push(
        ModMetadata {
            id: text::to_string("lithium"),
            name: text::to_string("Lithium"),
            loaders: loaders,
            side: text::to_string("both"),
            category: text::to_string("game_logic"),
            performance_impact: Some(impact("low", "low", "high")),
            safe_removal: None,
            modrinth_slug: Some(text::to_string("lithium")),
            description: text::to_string("Optimizes physics, mob AI and block ticking."),
        },
    );
    assert(known_views(mods@) =~= b.push(("lithium"@, "Lithium"@)));
    assert(mod_texts(mods@) =~= t.push(
        ModText {
            id: "lithium"@,
            name: "Lithium"@,
            loaders: seq!["fabric"@, "neoforge"@],
            side: "both"@,
            category: "game_logic"@,
            performance_impact: Some(("low"@, "low"@, "high"@)),
            safe_removal: None,
            modrinth_slug: Some("lithium"@),
            description: "Optimizes physics, mob AI and block ticking."@,
        },
    ));
    let ghost b = known_views(mods@);
    let ghost t = mod_texts(mods@);
    let loaders = text::strings_of(&vec!["forge"]);
    assert(text::str_views(seq!["forge"]) =~= seq!["forge"@]);
    assert(text::sviews(loaders@) =~= seq!["forge"@]);
    mods.push(
        ModMetadata {
            id: text::to_string("canary"),
            name: text::to_string("Canary"),
            loaders: loaders,
            side: text::to_string("both"),
            category: text::to_string("game_logic"),
            performance_impact: None,
            safe_removal: None,
            modrinth_slug: Some(text::to_string("canary")),
            description: text::to_string("Port of Lithium for Forge."),
        },
    );
    assert(known_views(mods@) =~= b.push(("canary"@, "Canary"@)));
    assert(mod_texts(mods@) =~= t.push(
        ModText {
            id: "canary"@,
            name: "Canary"@,
            loaders: seq!["forge"@],
            side: "both"@,
            category: "game_logic"@,
            performance_impact: None,
            safe_removal: None,
            modrinth_slug: Some("canary"@),
            description: "Port of Lithium for Forge."@,
        },
    ));
    let ghost b = known_views(mods@);
    let ghost t = mod_texts(mods@);
    let loaders = text::strings_of(&vec!["forge"]);
    assert(text::str_views(seq!["forge"]) =~= seq!["forge"@]);
    assert(text::sviews(loaders@) =~= seq!["forge"@]);
    mods.push(
        ModMetadata {
            id: text::to_string("radium"),
            name: text::to_string("Radium"),
            loaders: loaders,
            side: text::to_string("both"),
            category: text::to_string("game_logic"),
            performance_impact: None,
            safe_removal: None,
            modrinth_slug: Some(text::to_string("radium")),
            description: text::to_string("Earlier Lithium port for Forge, superseded by Canary."),
        },
    );
    assert(known_views(mods@) =~= b.push(("radium"@, "Radium"@)));
    assert(mod_texts(mods@) =~= t.push(
        ModText {
            id: "radium"@,
            name: "Radium"@,
            loaders: seq!["forge"@],
            side: "both"@,
            category: "game_logic"@,
            performance_impact: None,
            safe_removal: None,
            modrinth_slug: Some("radium"@),
            description: "Earlier Lithium port for Forge, superseded by Canary."@,
        },
    ));
    let ghost b = known_views(mods@);
    let ghost t = mod_texts(mods@);
    let loaders = text::strings_of(&vec!["fabric", "forge"]);
    assert(text::str_views(seq!["fabric", "forge"]) =~= seq!["fabric"@, "forge"@]);
    assert(text::sviews(loaders@) =~= seq!["fabric"@, "forge"@]);
    mods.push(
        ModMetadata {
            id: text::to_string("starlight"),
            name: text::to_string("Starlight"),
            loaders: loaders,
            side: text::to_string("both"),
            category: text::to_string("lighting"),
            performance_impact: None,
            safe_removal: None,
            modrinth_slug: Some(text::to_string("starlight")),
            description: text::to_string("Rewrites the light engine for much faster chunk lighting."),
        },
    );
    assert(known_views(mods@) =~= b.push(("starlight"@, "Starlight"@)));
    assert(mod_texts(mods@) =~= t.push(
        ModText {
            id: "starlight"@,
            name: "Starlight"@,
            loaders: seq!["fabric"@, "forge"@],
            side: "both"@,
            category: "lighting"@,
            performance_impact: None,
            safe_removal: None,
            modrinth_slug: Some("starlight"@),
            description: "Rewrites the light engine for much faster chunk lighting."@,
        },
    ));
    let ghost b = known_views(mods@);
    let ghost t = mod_texts(mods@);
    let loaders = text::strings_of(&vec!["fabric"]);
    assert(text::str_views(seq!["fabric"]) =~= seq!["fabric"@]);
    assert(text::sviews(loaders@) =~= seq!["fabric"@]);
    mods.push(
        ModMetadata {
            id: text::to_string("phosphor"),
            name: text::to_string("Phosphor"),
            loaders: loaders,
            side: text::to_string("both"),
            category: text::to_string("lighting"),
            performance_impact: None,
            safe_removal: None,
            modrinth_slug: Some(text::to_string("phosphor")),
            description: text::to_string("Lighting engine optimizer, superseded by Starlight."),
        },
    );
    assert(known_views(mods@) =~= b.push(("phosphor"@, "Phosphor"@)));
    assert(mod_texts(mods@) =~= t.push(
        ModText {
            id: "phosphor"@,
            name: "Phosphor"@,
            loaders: seq!["fabric"@],
            side: "both"@,
            category: "lighting"@,
            performance_impact: None,
            safe_removal: None,
            modrinth_slug: Some("phosphor"@),
            description: "Lighting engine optimizer, superseded by Starlight."@,
        },
    ));
    let ghost b = known_views(mods@);
    let ghost t = mod_texts(mods@);
    let loaders = text::strings_of(&vec!["fabric", "forge", "neoforge"]);
    assert(text::str_views(seq!["fabric", "forge", "neoforge"]) =~= seq!["fabric"@, "forge"@, "neoforge"@]);
    assert(text::sviews(loaders@) =~= seq!["fabric"@, "forge"@, "neoforge"@]);
    mods.push(
        ModMetadata {
            id: text::to_string("ferritecore"),
            name: text::to_string("FerriteCore"),
            loaders: loaders,
            side: text::to_string("both"),
            category: text::to_string("memory"),
            performance_impact: Some(impact("high", "low", "low")),
            safe_removal: None,
            modrinth_slug: Some(text::to_string("ferrite-core")),
            description: text::to_string("Reduces memory usage through leaner data structures."),
        },
    );
    assert(known_views(mods@) =~= b.push(("ferritecore"@, "FerriteCore"@)));
    assert(mod_texts(mods@) =~= t.push(
        ModText {
            id: "ferritecore"@,
            name: "FerriteCore"@,
            loaders: seq!["fabric"@, "forge"@, "neoforge"@],
            side: "both"@,
            category: "memory"@,
            performance_impact: Some(("high"@, "low"@, "low"@)),
            safe_removal: None,
            modrinth_slug: Some("ferrite-core"@),
            description: "Reduces memory usage through leaner data structures."@,
        },
    ));
    let ghost b = known_views(mods@);
    let ghost t = mod_texts(mods@);
    let loaders = text::strings_of(&vec!["fabric", "forge", "neoforge"]);
    assert(text::str_views(seq!["fabric", "forge", "neoforge"]) =~= seq!["fabric"@, "forge"@, "neoforge"@]);
    assert(text::sviews(loaders@) =~= seq!["fabric"@, "forge"@, "neoforge"@]);
    mods.push(
        ModMetadata {
            id: text::to_string("modernfix"),
            name: text::to_string("ModernFix"),
            loaders: loaders,
            side: text::to_string("both"),
            category: text::to_string("memory"),
            performance_impact: Some(impact("high", "high", "low")),
            safe_removal: None,
            modrinth_slug: Some(text::to_string("modernfix")),
            description: text::to_string("Improves startup time and memory usage."),
        },
    );
    assert(known_views(mods@) =~= b.push(("modernfix"@, "ModernFix"@)));
    assert(mod_texts(mods@) =~= t.push(
        ModText {
            id: "modernfix"@,
            name: "ModernFix"@,
            loaders: seq!["fabric"@, "forge"@, "neoforge"@],
            side: "both"@,
            category: "memory"@,
            performance_impact: Some(("high"@, "high"@, "low"@)),
            safe_removal: None,
            modrinth_slug: Some("modernfix"@),
            description: "Improves startup time and memory usage."@,
        },
    ));
    let ghost b = known_views(mods@);
    let ghost t = mod_texts(mods@);
    let loaders = text::strings_of(&vec!["fabric", "forge", "neoforge"]);
    assert(text::str_views(seq!["fabric", "forge", "neoforge"]) =~= seq!["fabric"@, "forge"@, "neoforge"@]);
    assert(text::sviews(loaders@) =~= seq!["fabric"@, "forge"@, "neoforge"@]);
    mods.push(
        ModMetadata {
            id: text::to_string("memoryleakfix"),
            name: text::to_string("MemoryLeakFix"),
            loaders: loaders,
            side: text::to_string("both"),
            category: text::to_string("memory"),
            performance_impact: None,
            safe_removal: None,
            modrinth_slug: Some(text::to_string("memoryleakfix")),
            description: text::to_string("Fixes memory leaks in the game and in other mods."),
        },
    );
    assert(known_views(mods@) =~= b.push(("memoryleakfix"@, "MemoryLeakFix"@)));
    assert(mod_texts(mods@) =~= t.push(
        ModText {
            id: "memoryleakfix"@,
            name: "MemoryLeakFix"@,
            loaders: seq!["fabric"@, "forge"@, "neoforge"@],
            side: "both"@,
            category: "memory"@,
            performance_impact: None,
            safe_removal: None,
            modrinth_slug: Some("memoryleakfix"@),
            description: "Fixes memory leaks in the game and in other mods."@,
        },
    ));
    let ghost b = known_views(mods@);
    let ghost t = mod_texts(mods@);
    let loaders = text::strings_of(&vec!["fabric", "forge", "neoforge"]);
    assert(text::str_views(seq!["fabric", "forge", "neoforge"]) =~= seq!["fabric"@, "forge"@, "neoforge"@]);
    assert(text::sviews(loaders@) =~= seq!["fabric"@, "forge"@, "neoforge"@]);
    mods.push(
        ModMetadata {
            id: text::to_string("entityculling"),
            name: text::to_string("Entity Culling"),
            loaders: loaders,
            side: text::to_string("client"),
            category: text::to_string("rendering"),
            performance_impact: None,
            safe_removal: None,
            modrinth_slug: Some(text::to_string("entityculling")),
            description: text::to_string("Skips rendering entities that cannot be seen."),
        },
    );
    assert(known_views(mods@) =~= b.push(("entityculling"@, "Entity Culling"@)));
    assert(mod_texts(mods@) =~= t.push(
        ModText {
            id: "entityculling"@,
            name: "Entity Culling"@,
            loaders: seq!["fabric"@, "forge"@, "neoforge"@],
            side: "client"@,
            category: "rendering"@,
            performance_impact: None,
            safe_removal: None,
            modrinth_slug: Some("entityculling"@),
            description: "Skips rendering entities that cannot be seen."@,
        },
    ));
    let ghost b = known_views(mods@);
    let ghost t = mod_texts(mods@);
    let loaders = text::strings_of(&vec!["fabric", "forge", "neoforge"]);
    assert(text::str_views(seq!["fabric", "forge", "neoforge"]) =~= seq!["fabric"@, "forge"@, "neoforge"@]);
    assert(text::sviews(loaders@) =~= seq!["fabric"@, "forge"@, "neoforge"@]);
    mods.push(
        ModMetadata {
            id: text::to_string("moreculling"),
            name: text::to_string("More Culling"),
            loaders: loaders,
            side: text::to_string("client"),
            category: text::to_string("rendering"),
            performance_impact: None,
            safe_removal: None,
            modrinth_slug: Some(text::to_string("moreculling")),
            description: text::to_string("Culls blocks that cannot be seen."),
        },
    );
    assert(known_views(mods@) =~= b.push(("moreculling"@, "More Culling"@)));
    assert(mod_texts(mods@) =~= t.push(
        ModText {
            id: "moreculling"@,
            name: "More Culling"@,
            loaders: seq!["fabric"@, "forge"@, "neoforge"@],
            side: "client"@,
            category: "rendering"@,
            performance_impact: None,
            safe_removal: None,
            modrinth_slug: Some("moreculling"@),
            description: "Culls blocks that cannot be seen."@,
        },
    ));
    let ghost b = known_views(mods@);
    let ghost t = mod_texts(mods@);
    let loaders = text::strings_of(&vec!["fabric", "forge", "neoforge"]);
    assert(text::str_views(seq!["fabric", "forge", "neoforge"]) =~= seq!["fabric"@, "forge"@, "neoforge"@]);
    assert(text::sviews(loaders@) =~= seq!["fabric"@, "forge"@, "neoforge"@]);
    mods.push(
        ModMetadata {
            id: text::to_string("immediatelyfast"),
            name: text::to_string("ImmediatelyFast"),
            loaders: loaders,
            side: text::to_string("client"),
            category: text::to_string("rendering"),
            performance_impact: None,
            safe_removal: None,
            modrinth_slug: Some(text::to_string("immediatelyfast")),
            description: text::to_string("Speeds up immediate-mode rendering of HUD and GUI."),
        },
    );
    assert(known_views(mods@) =~= b.push(("immediatelyfast"@, "ImmediatelyFast"@)));
    assert(mod_texts(mods@) =~= t.push(
        ModText {
            id: "immediatelyfast"@,
            name: "ImmediatelyFast"@,
            loaders: seq!["fabric"@, "forge"@, "neoforge"@],
            side: "client"@,
            category: "rendering"@,
            performance_impact: None,
            safe_removal: None,
            modrinth_slug: Some("immediatelyfast"@),
            description: "Speeds up immediate-mode rendering of HUD and GUI."@,
        },
    ));
    let ghost b = known_views(mods@);
    let ghost t = mod_texts(mods@);
    let loaders = text::strings_of(&vec!["fabric", "forge", "neoforge"]);
    assert(text::str_views(seq!["fabric", "forge", "neoforge"]) =~= seq!["fabric"@, "forge"@, "neoforge"@]);
    assert(text::sviews(loaders@) =~= seq!["fabric"@, "forge"@, "neoforge"@]);
    mods.push(
        ModMetadata {
            id: text::to_string("exordium"),
            name: text::to_string("Exordium"),
            loaders: loaders,
            side: text::to_string("client"),
            category: text::to_string("rendering"),
            performance_impact: None,
            safe_removal: None,
            modrinth_slug: Some(text::to_string("exordium")),
            description: text::to_string("Renders the GUI at a lower frame rate than the world."),
        },
    );
    assert(known_views(mods@) =~= b.push(("exordium"@, "Exordium"@)));
    assert(mod_texts(mods@) =~= t.push(
        ModText {
            id: "exordium"@,
            name: "Exordium"@,
            loaders: seq!["fabric"@, "forge"@, "neoforge"@],
            side: "client"@,
            category: "rendering"@,
            performance_impact: None,
            safe_removal: None,
            modrinth_slug: Some("exordium"@),
            description: "Renders the GUI at a lower frame rate than the world."@,
        },
    ));
    let ghost b = known_views(mods@);
    let ghost t = mod_texts(mods@);
    let loaders = text::strings_of(&vec!["fabric", "forge", "neoforge"]);
    assert(text::str_views(seq!["fabric", "forge", "neoforge"]) =~= seq!["fabric"@, "forge"@, "neoforge"@]);
    assert(text::sviews(loaders@) =~= seq!["fabric"@, "forge"@, "neoforge"@]);
    mods.push(
        ModMetadata {
            id: text::to_string("dynamic_fps"),
            name: text::to_string("Dynamic FPS"),
            loaders: loaders,
            side: text::to_string("client"),
            category: text::to_string("rendering"),
            performance_impact: None,
            safe_removal: None,
            modrinth_slug: Some(text::to_string("dynamic-fps")),
            description: text::to_string("Lowers the frame rate when the game is in the background."),
        },
    );
    assert(known_views(mods@) =~= b.push(("dynamic_fps"@, "Dynamic FPS"@)));
    assert(mod_texts(mods@) =~= t.push(
        ModText {
            id: "dynamic_fps"@,
            name: "Dynamic FPS"@,
            loaders: seq!["fabric"@, "forge"@, "neoforge"@],
            side: "client"@,
            category: "rendering"@,
            performance_impact: None,
            safe_removal: None,
            modrinth_slug: Some("dynamic-fps"@),
            description: "Lowers the frame rate when the game is in the background."@,
        },
    ));
    let ghost b = known_views(mods@);
    let ghost t = mod_texts(mods@);
    let loaders = text::strings_of(&vec!["fabric", "forge", "neoforge"]);
    assert(text::str_views(seq!["fabric", "forge", "neoforge"]) =~= seq!["fabric"@, "forge"@, "neoforge"@]);
    assert(text::sviews(loaders@) =~= seq!["fabric"@, "forge"@, "neoforge"@]);
    mods.push(
        ModMetadata {
            id: text::to_string("distanthorizons"),
            name: text::to_string("Distant Horizons"),
            loaders: loaders,
            side: text::to_string("client"),
            category: text::to_string("rendering"),
            performance_impact: None,
            safe_removal: None,
            modrinth_slug: Some(text::to_string("distanthorizons")),
            description: text::to_string("Renders far terrain with level-of-detail meshes."),
        },
    );
    assert(known_views(mods@) =~= b.push(("distanthorizons"@, "Distant Horizons"@)));
    assert(mod_texts(mods@) =~= t.push(
        ModText {
            id: "distanthorizons"@,
            name: "Distant Horizons"@,
            loaders: seq!["fabric"@, "forge"@, "neoforge"@],
            side: "client"@,
            category: "rendering"@,
            performance_impact: None,
            safe_removal: None,
            modrinth_slug: Some("distanthorizons"@),
            description: "Renders far terrain with level-of-detail meshes."@,
        },
    ));
    let ghost b = known_views(mods@);
    let ghost t = mod_texts(mods@);
    let loaders = text::strings_of(&vec!["fabric", "forge", "neoforge"]);
    assert(text::str_views(seq!["fabric", "forge", "neoforge"]) =~= seq!["fabric"@, "forge"@, "neoforge"@]);
    assert(text::sviews(loaders@) =~= seq!["fabric"@, "forge"@, "neoforge"@]);
    mods.push(
        ModMetadata {
            id: text::to_string("betterfpsdist"),
            name: text::to_string("Better FPS - Render Distance"),
            loaders: loaders,
            side: text::to_string("client"),
            category: text::to_string("rendering"),
            performance_impact: None,
            safe_removal: None,
            modrinth_slug: Some(text::to_string("better-fps-render-distance")),
            description: text::to_string("Renders chunks in a sphere instead of a cube."),
        },
    );
    assert(known_views(mods@) =~= b.push(("betterfpsdist"@, "Better FPS - Render Distance"@)));
    assert(mod_texts(mods@) =~= t.push(
        ModText {
            id: "betterfpsdist"@,
            name: "Better FPS - Render Distance"@,
            loaders: seq!["fabric"@, "forge"@, "neoforge"@],
            side: "client"@,
            category: "rendering"@,
            performance_impact: None,
            safe_removal: None,
            modrinth_slug: Some("better-fps-render-distance"@),
            description: "Renders chunks in a sphere instead of a cube."@,
        },
    ));
    let ghost b = known_views(mods@);
    let ghost t = mod_texts(mods@);
    let loaders = text::strings_of(&vec!["fabric", "forge", "neoforge"]);
    assert(text::str_views(seq!["fabric", "forge", "neoforge"]) =~= seq!["fabric"@, "forge"@, "neoforge"@]);
    assert(text::sviews(loaders@) =~= seq!["fabric"@, "forge"@, "neoforge"@]);
    mods.push(
        ModMetadata {
            id: text::to_string("clumps"),
            name: text::to_string("Clumps"),
            loaders: loaders,
            side: text::to_string("both"),
            category: text::to_string("entities"),
            performance_impact: None,
            safe_removal: None,
            modrinth_slug: Some(text::to_string("clumps")),
            description: text::to_string("Merges experience orbs into single entities."),
        },
    );
    assert(known_views(mods@) =~= b.push(("clumps"@, "Clumps"@)));
    assert(mod_texts(mods@) =~= t.push(
        ModText {
            id: "clumps"@,
            name: "Clumps"@,
            loaders: seq!["fabric"@, "forge"@, "neoforge"@],
            side: "both"@,
            category: "entities"@,
            performance_impact: None,
            safe_removal: None,
            modrinth_slug: Some("clumps"@),
            description: "Merges experience orbs into single entities."@,
        },
    ));
    let ghost b = known_views(mods@);
    let ghost t = mod_texts(mods@);
    let loaders = text::strings_of(&vec!["fabric"]);
    assert(text::str_views(seq!["fabric"]) =~= seq!["fabric"@]);
    assert(text::sviews(loaders@) =~= seq!["fabric"@]);
    mods.push(
        ModMetadata {
            id: text::to_string("krypton"),
            name: text::to_string("Krypton"),
            loaders: loaders,
            side: text::to_string("both"),
            category: text::to_string("networking"),
            performance_impact: None,
            safe_removal: None,
            modrinth_slug: Some(text::to_string("krypton")),
            description: text::to_string("Optimizes the networking stack."),
        },
    );
    assert(known_views(mods@) =~= b.push(("krypton"@, "Krypton"@)));
    assert(mod_texts(mods@) =~= t.push(
        ModText {
            id: "krypton"@,
            name: "Krypton"@,
            loaders: seq!["fabric"@],
            side: "both"@,
            category: "networking"@,
            performance_impact: None,
            safe_removal: None,
            modrinth_slug: Some("krypton"@),
            description: "Optimizes the networking stack."@,
        },
    ));
    let ghost b = known_views(mods@);
    let ghost t = mod_texts(mods@);
    let loaders = text::strings_of(&vec!["fabric", "forge"]);
    assert(text::str_views(seq!["fabric", "forge"]) =~= seq!["fabric"@, "forge"@]);
    assert(text::sviews(loaders@) =~= seq!["fabric"@, "forge"@]);
    mods.push(
        ModMetadata {
            id: text::to_string("lazydfu"),
            name: text::to_string("LazyDFU"),
            loaders: loaders,
            side: text::to_string("both"),
            category: text::to_string("startup"),
            performance_impact: None,
            safe_removal: None,
            modrinth_slug: Some(text::to_string("lazydfu")),
            description: text::to_string("Delays DataFixerUpper initialization to speed up startup."),
        },
    );
    assert(known_views(mods@) =~= b.push(("lazydfu"@, "LazyDFU"@)));
    assert(mod_texts(mods@) =~= t.push(
        ModText {
            id: "lazydfu"@,
            name: "LazyDFU"@,
            loaders: seq!["fabric"@, "forge"@],
            side: "both"@,
            category: "startup"@,
            performance_impact: None,
            safe_removal: None,
            modrinth_slug: Some("lazydfu"@),
            description: "Delays DataFixerUpper initialization to speed up startup."@,
        },
    ));
    let ghost b = known_views(mods@);
    let ghost t = mod_texts(mods@);
    let loaders = text::strings_of(&vec!["fabric", "forge"]);
    assert(text::str_views(seq!["fabric", "forge"]) =~= seq!["fabric"@, "forge"@]);
    assert(text::sviews(loaders@) =~= seq!["fabric"@, "forge"@]);
    mods.push(
        ModMetadata {
            id: text::to_string("smoothboot"),
            name: text::to_string("Smooth Boot"),
            loaders: loaders,
            side: text::to_string("both"),
            category: text::to_string("startup"),
            performance_impact: None,
            safe_removal: None,
            modrinth_slug: Some(text::to_string("smooth-boot-fabric")),
            description: text::to_string("Tunes thread priorities during startup."),
        },
    );
    assert(known_views(mods@) =~= b.push(("smoothboot"@, "Smooth Boot"@)));
    assert(mod_texts(mods@) =~= t.push(
        ModText {
            id: "smoothboot"@,
            name: "Smooth Boot"@,
            loaders: seq!["fabric"@, "forge"@],
            side: "both"@,
            category: "startup"@,
            performance_impact: None,
            safe_removal: None,
            modrinth_slug: Some("smooth-boot-fabric"@),
            description: "Tunes thread priorities during startup."@,
        },
    ));
    let ghost b = known_views(mods@);
    let ghost t = mod_texts(mods@);
    let loaders = text::strings_of(&vec!["fabric"]);
    assert(text::str_views(seq!["fabric"]) =~= seq!["fabric"@]);
    assert(text::sviews(loaders@) =~= seq!["fabric"@]);
    mods.push(
        ModMetadata {
            id: text::to_string("fastload"),
            name: text::to_string("Fastload"),
            loaders: loaders,
            side: text::to_string("client"),
            category: text::to_string("startup"),
            performance_impact: None,
            safe_removal: None,
            modrinth_slug: Some(text::to_string("fastload")),
            description: text::to_string("Shortens world loading screens."),
        },
    );
    assert(known_views(mods@) =~= b.push(("fastload"@, "Fastload"@)));
    assert(mod_texts(mods@) =~= t.push(
        ModText {
            id: "fastload"@,
            name: "Fastload"@,
            loaders: seq!["fabric"@],
            side: "client"@,
            category: "startup"@,
            performance_impact: None,
            safe_removal: None,
            modrinth_slug: Some("fastload"@),
            description: "Shortens world loading screens."@,
        },
    ));
    let ghost b = known_views(mods@);
    let ghost t = mod_texts(mods@);
    let loaders = text::strings_of(&vec!["fabric", "forge", "neoforge"]);
    assert(text::str_views(seq!["fabric", "forge", "neoforge"]) =~= seq!["fabric"@, "forge"@, "neoforge"@]);
    assert(text::sviews(loaders@) =~= seq!["fabric"@, "forge"@, "neoforge"@]);
    mods.push(
        ModMetadata {
            id: text::to_string("noisium"),
            name: text::to_string("Noisium"),
            loaders: loaders,
            side: text::to_string("server"),
            category: text::to_string("worldgen"),
            performance_impact: None,
            safe_removal: None,
            modrinth_slug: Some(text::to_string("noisium")),
            description: text::to_string("Speeds up world generation."),
        },
    );
    assert(known_views(mods@) =~= b.push(("noisium"@, "Noisium"@)));
    assert(mod_texts(mods@) =~= t.push(
        ModText {
            id: "noisium"@,
            name: "Noisium"@,
            loaders: seq!["fabric"@, "forge"@, "neoforge"@],
            side: "server"@,
            category: "worldgen"@,
            performance_impact: None,
            safe_removal: None,
            modrinth_slug: Some("noisium"@),
            description: "Speeds up world generation."@,
        },
    ));
    let ghost b = known_views(mods@);
    let ghost t = mod_texts(mods@);
    let loaders = text::strings_of(&vec!["fabric"]);
    assert(text::str_views(seq!["fabric"]) =~= seq!["fabric"@]);
    assert(text::sviews(loaders@) =~= seq!["fabric"@]);
    mods.push(
        ModMetadata {
            id: text::to_string("c2me"),
            name: text::to_string("Concurrent Chunk Management Engine"),
            loaders: loaders,
            side: text::to_string("both"),
            category: text::to_string("worldgen"),
            performance_impact: None,
            safe_removal: None,
            modrinth_slug: Some(text::to_string("c2me-fabric")),
            description: text::to_string("Generates and loads chunks in parallel."),
        },
    );
    assert(known_views(mods@) =~= b.push(("c2me"@, "Concurrent Chunk Management Engine"@)));
    assert(mod_texts(mods@) =~= t.push(
        ModText {
            id: "c2me"@,
            name: "Concurrent Chunk Management Engine"@,
            loaders: seq!["fabric"@],
            side: "both"@,
            category: "worldgen"@,
            performance_impact: None,
            safe_removal: None,
            modrinth_slug: Some("c2me-fabric"@),
            description: "Generates and loads chunks in parallel."@,
        },
    ));
    let ghost b = known_views(mods@);
    let ghost t = mod_texts(mods@);
    let loaders = text::strings_of(&vec!["fabric", "forge"]);
    assert(text::str_views(seq!["fabric", "forge"]) =~= seq!["fabric"@, "forge"@]);
    assert(text::sviews(loaders@) =~= seq!["fabric"@, "forge"@]);
    mods.push(
        ModMetadata {
            id: text::to_string("servercore"),
            name: text::to_string("ServerCore"),
            loaders: loaders,
            side: text::to_string("server"),
            category: text::to_string("server"),
            performance_impact: None,
            safe_removal: None,
            modrinth_slug: Some(text::to_string("servercore")),
            description: text::to_string("Server-side optimizations for chunk ticking and mob spawning."),
        },
    );
    assert(known_views(mods@) =~= b.push(("servercore"@, "ServerCore"@)));
    assert(mod_texts(mods@) =~= t.push(
        ModText {
            id: "servercore"@,
            name: "ServerCore"@,
            loaders: seq!["fabric"@, "forge"@],
            side: "server"@,
            category: "server"@,
            performance_impact: None,
            safe_removal: None,
            modrinth_slug: Some("servercore"@),
            description: "Server-side optimizations for chunk ticking and mob spawning."@,
        },
    ));
    let ghost b = known_views(mods@);
    let ghost t = mod_texts(mods@);
    let loaders = text::strings_of(&vec!["forge", "neoforge"]);
    assert(text::str_views(seq!["forge", "neoforge"]) =~= seq!["forge"@, "neoforge"@]);
    assert(text::sviews(loaders@) =~= seq!["forge"@, "neoforge"@]);
    mods.push(
        ModMetadata {
            id: text::to_string("fastsuite"),
            name: text::to_string("FastSuite"),
            loaders: loaders,
            side: text::to_string("both"),
            category: text::to_string("recipes"),
            performance_impact: None,
            safe_removal: None,
            modrinth_slug: Some(text::to_string("fastsuite")),
            description: text::to_string("Speeds up recipe lookups."),
        },
    );
    assert(known_views(mods@) =~= b.push(("fastsuite"@, "FastSuite"@)));
    assert(mod_texts(mods@) =~= t.push(
        ModText {
            id: "fastsuite"@,
            name: "FastSuite"@,
            loaders: seq!["forge"@, "neoforge"@],
            side: "both"@,
            category: "recipes"@,
            performance_impact: None,
            safe_removal: None,
            modrinth_slug: Some("fastsuite"@),
            description: "Speeds up recipe lookups."@,
        },
    ));
    assert(known_views(mods@) =~= builtin_known_mods());
    assert(mod_texts(mods@) =~= builtin_mods());
    mods
}

fn builtin_conflict_list() -> (r: Vec<ConflictRule>)
    ensures
        rule_views(r@) == builtin_conflicts(),
{
    let mut rules: Vec<ConflictRule> = Vec::new();
    assert(rule_views(rules@) =~= Seq::<ConflictText>::empty());
    let ghost b = rule_views(rules@);
    rules.push(rule("sodium", "optifine", "Sodium and OptiFine both replace the rendering engine and cannot run together.", "critical"));
    assert(rule_views(rules@) =~= b.push(("sodium"@, "optifine"@, "Sodium and OptiFine both replace the rendering engine and cannot run together."@, "critical"@)));
    let ghost b = rule_views(rules@);
    rules.push(rule("embeddium", "optifine", "Embeddium and OptiFine both replace the rendering engine and cannot run together.", "critical"));
    assert(rule_views(rules@) =~= b.push(("embeddium"@, "optifine"@, "Embeddium and OptiFine both replace the rendering engine and cannot run together."@, "critical"@)));
    let ghost b = rule_views(rules@);
    rules.push(rule("rubidium", "optifine", "Rubidium and OptiFine both replace the rendering engine and cannot run together.", "critical"));
    assert(rule_views(rules@) =~= b.push(("rubidium"@, "optifine"@, "Rubidium and OptiFine both replace the rendering engine and cannot run together."@, "critical"@)));
    let ghost b = rule_views(rules@);
    rules.push(rule("embeddium", "rubidium", "Embeddium replaces Rubidium; having both installed crashes the game.", "critical"));
    assert(rule_views(rules@) =~= b.push(("embeddium"@, "rubidium"@, "Embeddium replaces Rubidium; having both installed crashes the game."@, "critical"@)));
    let ghost b = rule_views(rules@);
    rules.push(rule("iris", "optifine", "Iris and OptiFine both load shaders; keep only one of them.", "high"));
    assert(rule_views(rules@) =~= b.push(("iris"@, "optifine"@, "Iris and OptiFine both load shaders; keep only one of them."@, "high"@)));
    let ghost b = rule_views(rules@);
    rules.push(rule("oculus", "optifine", "Oculus and OptiFine both load shaders; keep only one of them.", "high"));
    assert(rule_views(rules@) =~= b.push(("oculus"@, "optifine"@, "Oculus and OptiFine both load shaders; keep only one of them."@, "high"@)));
    let ghost b = rule_views(rules@);
    rules.push(rule("starlight", "phosphor", "Starlight and Phosphor both rewrite the lighting engine.", "high"));
    assert(rule_views(rules@) =~= b.push(("starlight"@, "phosphor"@, "Starlight and Phosphor both rewrite the lighting engine."@, "high"@)));
    let ghost b = rule_views(rules@);
    rules.push(rule("canary", "radium", "Canary replaces Radium; both change the same game code.", "high"));
    assert(rule_views(rules@) =~= b.push(("canary"@, "radium"@, "Canary replaces Radium; both change the same game code."@, "high"@)));
    assert(rule_views(rules@) =~= builtin_conflicts());
    rules
}

fn builtin_group_list() -> (r: Vec<DuplicateGroup>)
    ensures
        group_views(r@) == builtin_groups(),
{
    let mut groups: Vec<DuplicateGroup> = Vec::new();
    assert(group_views(groups@) =~= Seq::<GroupText>::empty());
    let ghost b = group_views(groups@);
    let members = text::strings_of(&vec!["sodium", "embeddium", "rubidium", "optifine"]);
    assert(text::str_views(seq!["sodium", "embeddium", "rubidium", "optifine"]) =~= seq!["sodium"@, "embeddium"@, "rubidium"@, "optifine"@]);
    groups.push(
        DuplicateGroup {
            category: text::to_string("rendering_optimizer"),
            mods: members,
            recommendation: text::to_string("Keep a single rendering optimizer: Sodium on Fabric and NeoForge, Embeddium on Forge."),
        },
    );
    assert(group_views(groups@) =~= b.push(("rendering_optimizer"@, seq!["sodium"@, "embeddium"@, "rubidium"@, "optifine"@], "Keep a single rendering optimizer: Sodium on Fabric and NeoForge, Embeddium on Forge."@)));
    let ghost b = group_views(groups@);
    let members = text::strings_of(&vec!["iris", "oculus", "optifine"]);
    assert(text::str_views(seq!["iris", "oculus", "optifine"]) =~= seq!["iris"@, "oculus"@, "optifine"@]);
    groups.push(
        DuplicateGroup {
            category: text::to_string("shader_loader"),
            mods: members,
            recommendation: text::to_string("Keep a single shader loader."),
        },
    );
    assert(group_views(groups@) =~= b.push(("shader_loader"@, seq!["iris"@, "oculus"@, "optifine"@], "Keep a single shader loader."@)));
    let ghost b = group_views(groups@);
    let members = text::strings_of(&vec!["lithium", "canary", "radium"]);
    assert(text::str_views(seq!["lithium", "canary", "radium"]) =~= seq!["lithium"@, "canary"@, "radium"@]);
    groups.push(
        DuplicateGroup {
            category: text::to_string("game_logic_optimizer"),
            mods: members,
            recommendation: text::to_string("Keep a single game-logic optimizer for your loader."),
        },
    );
    assert(group_views(groups@) =~= b.push(("game_logic_optimizer"@, seq!["lithium"@, "canary"@, "radium"@], "Keep a single game-logic optimizer for your loader."@)));
    let ghost b = group_views(groups@);
    let members = text::strings_of(&vec!["starlight", "phosphor"]);
    assert(text::str_views(seq!["starlight", "phosphor"]) =~= seq!["starlight"@, "phosphor"@]);
    groups.push(
        DuplicateGroup {
            category: text::to_string("lighting_engine"),
            mods: members,
            recommendation: text::to_string("Keep only Starlight."),
        },
    );
    assert(group_views(groups@) =~= b.push(("lighting_engine"@, seq!["starlight"@, "phosphor"@], "Keep only Starlight."@)));
    assert(group_views(groups@) =~= builtin_groups());
    groups
}

/// The built-in mod knowledge base.
pub fn load_metadata() -> (db: ModMetadataDb)
    ensures
        db.version@ == metadata_version(),
        mod_texts(db.mods@) == builtin_mods(),
        known_views(db.mods@) == builtin_known_mods(),
        rule_views(db.known_conflicts@) == builtin_conflicts(),
        group_views(db.duplicate_groups@) == builtin_groups(),
{
    ModMetadataDb {
        version: text::to_string("1.0.0"),
        mods: builtin_mod_list(),
        known_conflicts: builtin_conflict_list(),
        duplicate_groups: builtin_group_list(),
    }
}

/// The version of the mod knowledge base.
pub fn get_metadata_version() -> (r: String)
    ensures
        r@ == metadata_version(),
{
    load_metadata().version
}

/// The ids under which the mods are matched against the knowledge base.
pub open spec fn installed_ids_of(mods: Seq<ModInfo>) -> Seq<Seq<char>> {
    Seq::new(mods.len(), |i: int| normalized_id_of(mods[i]))
}

/// The known conflicts among `mods` and the groups of which they hold more than
/// one member, by the knowledge base.
pub fn detect_conflicts_and_duplicates(mods: &Vec<ModInfo>) -> (r: (Vec<ConflictWarning>, Vec<
    DuplicateWarning,
>))
    ensures
        warning_views(r.0@) == conflicts_for(installed_ids_of(mods@), builtin_conflicts()),
        duplicate_views(r.1@) == duplicates_for(
            installed_ids_of(mods@),
            builtin_groups(),
            builtin_known_mods(),
        ),
{
    let mut ids: Vec<String> = Vec::new();
    let mut i: usize = 0;
    while i < mods.len()
        invariant
            i <= mods.len(),
            text::sviews(ids@) == installed_ids_of(mods@).take(i as int),
        decreases mods.len() - i,
    {
        let ghost before = text::sviews(ids@);
        match normalized_mod_id(&mods[i]) {
            Some(id) => ids.push(id),
            None => {},
        }
        assert(text::sviews(ids@) =~= before.push(normalized_id_of(mods@[i as int])));
        assert(installed_ids_of(mods@).take(i + 1) =~= installed_ids_of(mods@).take(i as int).push(
            normalized_id_of(mods@[i as int]),
        ));
        i = i + 1;
    }
    assert(installed_ids_of(mods@).take(mods.len() as int) == installed_ids_of(mods@));
    conflicts_and_duplicates_of_ids(&ids)
}

/// The known conflicts among the installed mods, given by their lower-cased
/// ids, and the groups of which they hold more than one member, by the
/// knowledge base.
pub fn conflicts_and_duplicates_of_ids(ids: &Vec<String>) -> (r: (Vec<ConflictWarning>, Vec<DuplicateWarning>))
    ensures
        warning_views(r.0@) == conflicts_for(text::sviews(ids@), builtin_conflicts()),
        duplicate_views(r.1@) == duplicates_for(text::sviews(ids@), builtin_groups(), builtin_known_mods()),
{
    let metadata = load_metadata();
    let conflicts = detect_known_conflicts(ids, &metadata.known_conflicts);
    let duplicates = detect_duplicate_groups(ids, &metadata.duplicate_groups, &metadata.mods);
    (conflicts, duplicates)
}

// ---------------------------------------------------------------------------
// A mods folder
// ---------------------------------------------------------------------------

/// A file of the mods folder: its name and size in bytes.
pub type FileText = (Seq<char>, u64);

pub open spec fn entry_views(v: Seq<(String, u64)>) -> Seq<FileText> {
    Seq::new(v.len(), |i: int| (v[i].0@, v[i].1))
}

/// A mod archive: a `.jar` or `.zip` file.
pub open spec fn is_mod_file(name: Seq<char>) -> bool {
    text::is_suffix(".jar"@, name) || text::is_suffix(".zip"@, name)
}

/// The mod archives among the files, in order.
pub open spec fn mod_files(entries: Seq<FileText>) -> Seq<FileText>
    decreases entries.len(),
{
    if entries.len() == 0 {
        Seq::empty()
    } else {
        let prev = mod_files(entries.drop_last());
        if is_mod_file(entries.last().0) {
            prev.push(entries.last())
        } else {
            prev
        }
    }
}

/// The total size of the files.
pub open spec fn size_total(files: Seq<FileText>) -> int
    decreases files.len(),
{
    if files.len() == 0 {
        0
    } else {
        size_total(files.drop_last()) + files.last().1
    }
}

/// What a mod archive's name and size say of the mod.
pub open spec fn mod_info_for(m: ModInfo, f: FileText) -> bool {
    &&& m.file_name@ == f.0
    &&& opt_view(m.mod_id) == Some(mod_id_of(f.0))
    &&& m.display_name is None
    &&& opt_view(m.version) == version_of(f.0)
    &&& m.size_bytes == f.1
}

proof fn lemma_mod_files_prefix(entries: Seq<FileText>, i: int)
    requires
        0 <= i < entries.len(),
    ensures
        mod_files(entries.take(i + 1)) == if is_mod_file(entries[i].0) {
            mod_files(entries.take(i)).push(entries[i])
        } else {
            mod_files(entries.take(i))
        },
        size_total(mod_files(entries.take(i + 1))) == size_total(mod_files(entries.take(i))) + if is_mod_file(entries[i].0) {
            entries[i].1 as int
        } else {
            0
        },
{
    assert(entries.take(i + 1).drop_last() == entries.take(i));
    let prev = mod_files(entries.take(i));
    assert(prev.push(entries[i]).drop_last() == prev);
}

proof fn lemma_size_total_prefix_bound(entries: Seq<FileText>, i: int)
    requires
        0 <= i <= entries.len(),
    ensures
        size_total(mod_files(entries.take(i))) <= size_total(mod_files(entries)),
    decreases entries.len() - i,
{
    if i < entries.len() {
        lemma_size_total_prefix_bound(entries, i + 1);
        lemma_mod_files_prefix(entries, i);
    } else {
        assert(entries.take(i) == entries);
    }
}

/// Analyses a mods folder from its listing (file name and size, in listing order):
/// the mod archives, the performance mods found and missing for `loader`, and the
/// known conflicts and overlaps. The archives' sizes must add up within `u64`.
pub fn analyze_mods(entries: &Vec<(String, u64)>, loader: Option<&str>) -> (r: ModAnalysis)
    requires
        size_total(mod_files(entry_views(entries@))) <= u64::MAX,
    ensures
        ({
            let files = mod_files(entry_views(entries@));
            &&& r.mods.len() == files.len()
            &&& forall|i: int| 0 <= i < files.len() ==> mod_info_for(#[trigger] r.mods@[i], files[i])
            &&& r.total_mods == files.len()
            &&& r.total_size_bytes == size_total(files)
            &&& text::sviews(r.detected_performance_mods@) == detect_perf(file_names(r.mods@))
            &&& perf_views(r.missing_performance_mods@) == missing_for(
                text::sviews(r.detected_performance_mods@),
                opt_str_view(loader),
                recommended_mods(),
            )
            &&& warning_views(r.conflicts@) == conflicts_for(installed_ids_of(r.mods@), builtin_conflicts())
            &&& duplicate_views(r.duplicates@) == duplicates_for(
                installed_ids_of(r.mods@),
                builtin_groups(),
                builtin_known_mods(),
            )
        }),
{
    let ghost ev = entry_views(entries@);
    let mut mods: Vec<ModInfo> = Vec::new();
    let mut total: u64 = 0;
    let mut i: usize = 0;
    while i < entries.len()
        invariant
            i <= entries.len(),
            ev == entry_views(entries@),
            size_total(mod_files(ev)) <= u64::MAX,
            mods.len() == mod_files(ev.take(i as int)).len(),
            forall|k: int|
                0 <= k < mods.len() ==> mod_info_for(#[trigger] mods@[k], mod_files(ev.take(i as int))[k]),
            total == size_total(mod_files(ev.take(i as int))),
        decreases entries.len() - i,
    {
        proof {
            lemma_mod_files_prefix(ev, i as int);
            lemma_size_total_prefix_bound(ev, i + 1);
        }
        let name = text::chars_of_string(&entries[i].0);
        let size = entries[i].1;
        assert(ev[i as int] == (entries@[i as int].0@, size));
        if text::ends_with_str(&name, ".jar") || text::ends_with_str(&name, ".zip") {
            total = total + size;
            let fname = text::copy_string(&entries[i].0);
            mods.push(
                ModInfo {
                    mod_id: extract_mod_id(fname.as_str()),
                    display_name: None,
                    version: extract_version(fname.as_str()),
                    size_bytes: size,
                    file_name: fname,
                },
            );
        }
        i = i + 1;
    }
    assert(ev.take(entries.len() as int) == ev);
    let detected = detect_performance_mods(&mods);
    let missing = find_missing_performance_mods(&detected, loader);
    let (conflicts, duplicates) = detect_conflicts_and_duplicates(&mods);
    ModAnalysis {
        total_mods: mods.len(),
        mods,
        detected_performance_mods: detected,
        missing_performance_mods: missing,
        conflicts,
        duplicates,
        total_size_bytes: total,
    }
}

// ---------------------------------------------------------------------------
// Laws
// ---------------------------------------------------------------------------

/// No name occurs twice.
pub open spec fn no_repeats(v: Seq<Seq<char>>) -> bool {
    forall|i: int, j: int| 0 <= i < j < v.len() ==> v[i] != v[j]
}

proof fn lemma_scan_no_repeats(det: Seq<Seq<char>>, lower: Seq<char>, pats: Seq<(Seq<char>, Seq<char>)>)
    requires
        no_repeats(det),
    ensures
        no_repeats(scan_patterns(det, lower, pats)),
    decreases pats.len(),
{
    if pats.len() > 0 {
        lemma_scan_no_repeats(det, lower, pats.drop_last());
        let prev = scan_patterns(det, lower, pats.drop_last());
        let p = pats.last();
        if text::contains(lower, p.0) && !prev.contains(p.1) {
            let next = prev.push(p.1);
            assert forall|i: int, j: int| 0 <= i < j < next.len() implies next[i] != next[j] by {
                if j == next.len() - 1 {
                    assert(next[i] == prev[i]);
                    if next[i] == next[j] {
                        assert(prev.contains(p.1));
                    }
                }
            }
        }
    }
}

/// Each performance mod is reported once, however many of its files are installed.
pub proof fn law_performance_mods_reported_once(files: Seq<Seq<char>>)
    ensures
        no_repeats(detect_perf(files)),
    decreases files.len(),
{
    if files.len() > 0 {
        law_performance_mods_reported_once(files.drop_last());
        lemma_scan_no_repeats(
            detect_perf(files.drop_last()),
            text::spec_lowercase(files.last()),
            known_performance_mods(),
        );
    }
}

/// Every conflict reported is one of the rules, and both of its mods occur within
/// installed ids; the rules' order is kept.
pub proof fn law_conflicts_are_installed_rules(ids: Seq<Seq<char>>, rules: Seq<ConflictText>)
    ensures
        conflicts_for(ids, rules).len() <= rules.len(),
        forall|k: int|
            0 <= k < conflicts_for(ids, rules).len() ==> rules.contains(#[trigger] conflicts_for(ids, rules)[k])
                && text::some_contains(ids, conflicts_for(ids, rules)[k].0)
                && text::some_contains(ids, conflicts_for(ids, rules)[k].1),
    decreases rules.len(),
{
    if rules.len() > 0 {
        law_conflicts_are_installed_rules(ids, rules.drop_last());
        let prev = conflicts_for(ids, rules.drop_last());
        assert forall|k: int| 0 <= k < prev.len() implies rules.contains(#[trigger] prev[k]) by {
            assert(rules.drop_last().contains(prev[k]));
            let j = choose|j: int| 0 <= j < rules.drop_last().len() && rules.drop_last()[j] == prev[k];
            assert(rules[j] == prev[k]);
        }
        assert(rules[rules.len() - 1] == rules.last());
    }
}

/// Every conflict rule whose two mods both occur within some installed id is
/// reported: no rule is skipped, wherever it stands in the list.
pub proof fn law_installed_conflicts_all_reported(ids: Seq<Seq<char>>, rules: Seq<ConflictText>, k: int)
    requires
        0 <= k < rules.len(),
        exists|i: int| 0 <= i < ids.len() && text::contains(#[trigger] ids[i], rules[k].0),
        exists|j: int| 0 <= j < ids.len() && text::contains(#[trigger] ids[j], rules[k].1),
    ensures
        conflicts_for(ids, rules).contains(rules[k]),
    decreases rules.len(),
{
    let prev = conflicts_for(ids, rules.drop_last());
    if k == rules.len() - 1 {
        assert(rules.last() == rules[k]);
        assert(text::some_contains(ids, rules[k].0));
        assert(text::some_contains(ids, rules[k].1));
        assert(conflicts_for(ids, rules) == prev.push(rules[k]));
        assert(conflicts_for(ids, rules)[prev.len() as int] == rules[k]);
    } else {
        assert(rules.drop_last()[k] == rules[k]);
        law_installed_conflicts_all_reported(ids, rules.drop_last(), k);
        let m = choose|m: int| 0 <= m < prev.len() && prev[m] == rules[k];
        let r = rules.last();
        if text::some_contains(ids, r.0) && text::some_contains(ids, r.1) {
            assert(conflicts_for(ids, rules)[m] == rules[k]);
        }
    }
}

/// Every overlap reported names more than one installed mod.
pub proof fn law_duplicates_name_several_mods(
    ids: Seq<Seq<char>>,
    groups: Seq<GroupText>,
    known: Seq<(Seq<char>, Seq<char>)>,
)
    ensures
        forall|k: int|
            0 <= k < duplicates_for(ids, groups, known).len() ==> (#[trigger] duplicates_for(ids, groups, known)[k]).1.len() > 1,
    decreases groups.len(),
{
    if groups.len() > 0 {
        law_duplicates_name_several_mods(ids, groups.drop_last(), known);
        let prev = duplicates_for(ids, groups.drop_last(), known);
        let cur = duplicates_for(ids, groups, known);
        assert forall|k: int| 0 <= k < cur.len() implies (#[trigger] cur[k]).1.len() > 1 by {
            if k < prev.len() {
                assert(cur[k] == prev[k]);
            }
        }
    }
}

} // verus!
