//! Optimisation profiles that can be shared: building one from an instance and
//! its advice, and the Discord message that presents it.
use vstd::prelude::*;
use crate::text;
use crate::clock;
use crate::instance::MinecraftInstance;
use crate::rules::{Recommendation, rec_text, RecText};

verus! {

/// A shareable summary of how an instance is tuned.
#[derive(Debug, Clone)]
pub struct OptimizationProfile {
    pub version: String,
    pub created_at: String,
    pub game: String,
    pub instance_name: String,
    pub minecraft_version: Option<String>,
    pub loader: Option<String>,
    pub jvm_settings: Option<JvmProfile>,
    pub config_changes: Vec<ConfigChange>,
    pub recommended_mods: Vec<RecommendedMod>,
    pub health_score: Option<u32>,
    pub hardware_summary: Option<String>,
}

/// The Java settings of a profile.
#[derive(Debug, Clone)]
pub struct JvmProfile {
    pub xmx_mb: Option<u32>,
    pub xms_mb: Option<u32>,
    pub jvm_args: Option<String>,
    pub java_version: Option<String>,
}

/// A settings change in a profile.
#[derive(Debug, Clone)]
pub struct ConfigChange {
    pub file: String,
    pub key: String,
    pub value: String,
    pub reason: String,
}

/// A mod that a profile recommends.
#[derive(Debug, Clone)]
pub struct RecommendedMod {
    pub name: String,
    pub modrinth_slug: Option<String>,
    pub reason: String,
}

pub open spec fn ov(o: Option<String>) -> Option<Seq<char>> {
    match o {
        Some(s) => Some(s@),
        None => None,
    }
}

/// A recommended mod as name, slug and reason.
pub type ModText = (Seq<char>, Option<Seq<char>>, Seq<char>);

pub open spec fn mod_views(v: Seq<RecommendedMod>) -> Seq<ModText> {
    Seq::new(v.len(), |i: int| (v[i].name@, ov(v[i].modrinth_slug), v[i].reason@))
}

/// The advice that names a mod to get: category `modpack` with an `open_link` action.
pub open spec fn is_mod_advice(r: RecText) -> bool {
    r.category == "modpack"@ && r.action_type == Some("open_link"@)
}

/// The mods that the advice recommends, in order: the title as name, the link as
/// slug and the description as reason.
pub open spec fn mods_from_recs(recs: Seq<RecText>) -> Seq<ModText>
    decreases recs.len(),
{
    if recs.len() == 0 {
        Seq::empty()
    } else {
        let prev = mods_from_recs(recs.drop_last());
        let r = recs.last();
        if is_mod_advice(r) {
            prev.push((r.title, r.action_data, r.description))
        } else {
            prev
        }
    }
}

fn copy_opt(o: &Option<String>) -> (r: Option<String>)
    ensures
        ov(r) == ov(*o),
{
    match o {
        Some(s) => Some(text::copy_string(s)),
        None => None,
    }
}

/// A profile of `instance` with the mods that `recommendations` name, its health
/// score, and the time of creation.
pub fn generate_profile(
    instance: &MinecraftInstance,
    recommendations: &Vec<Recommendation>,
    health_score: Option<u32>,
) -> (p: OptimizationProfile)
    ensures
        p.version@ == "1.0.0"@,
        p.game@ == "minecraft"@,
        p.instance_name@ == instance.name@,
        ov(p.minecraft_version) == ov(instance.minecraft_version),
        ov(p.loader) == ov(instance.loader_type),
        p.jvm_settings matches Some(j) && j.xmx_mb == instance.xmx_mb && j.xms_mb == instance.xms_mb
            && ov(j.jvm_args) == ov(instance.jvm_args) && j.java_version is None,
        p.config_changes.len() == 0,
        mod_views(p.recommended_mods@) == mods_from_recs(crate::rules::rec_texts(recommendations@)),
        p.health_score == health_score,
        p.hardware_summary is None,
        text::is_suffix("+00:00"@, p.created_at@),
{
    let ghost rv = crate::rules::rec_texts(recommendations@);
    let mut mods: Vec<RecommendedMod> = Vec::new();
    let mut i: usize = 0;
    assert(rv.take(0) == Seq::<RecText>::empty());
    assert(mod_views(mods@) =~= Seq::<ModText>::empty());
    while i < recommendations.len()
        invariant
            i <= recommendations.len(),
            rv == crate::rules::rec_texts(recommendations@),
            mod_views(mods@) == mods_from_recs(rv.take(i as int)),
        decreases recommendations.len() - i,
    {
        let r = &recommendations[i];
        assert(rv.take(i + 1).drop_last() == rv.take(i as int));
        assert(rv.take(i + 1).last() == rec_text(*r));
        let is_link = match &r.action_type {
            Some(a) => text::str_eq(a.as_str(), "open_link"),
            None => false,
        };
        if text::str_eq(r.category.as_str(), "modpack") && is_link {
            let ghost before = mod_views(mods@);
            mods.push(
                RecommendedMod {
                    name: text::copy_string(&r.title),
                    modrinth_slug: copy_opt(&r.action_data),
                    reason: text::copy_string(&r.description),
                },
            );
            assert(mod_views(mods@) =~= before.push(
                (r.title@, ov(r.action_data), r.description@),
            ));
        }
        i = i + 1;
    }
    assert(rv.take(recommendations.len() as int) == rv);
    OptimizationProfile {
        version: text::to_string("1.0.0"),
        created_at: clock::now_rfc3339(),
        game: text::to_string("minecraft"),
        instance_name: text::copy_string(&instance.name),
        minecraft_version: copy_opt(&instance.minecraft_version),
        loader: copy_opt(&instance.loader_type),
        jvm_settings: Some(
            JvmProfile {
                xmx_mb: instance.xmx_mb,
                xms_mb: instance.xms_mb,
                jvm_args: copy_opt(&instance.jvm_args),
                java_version: None,
            },
        ),
        config_changes: Vec::new(),
        recommended_mods: mods,
        health_score,
        hardware_summary: None,
    }
}

/// `label` and `value` on a line of their own, when there is a value.
pub open spec fn line_if(label: Seq<char>, value: Option<Seq<char>>) -> Seq<char> {
    match value {
        Some(v) => label + v + "\n"@,
        None => Seq::empty(),
    }
}

/// The list lines of the recommended mods: `- name` each.
pub open spec fn mod_lines(mods: Seq<RecommendedMod>) -> Seq<char>
    decreases mods.len(),
{
    if mods.len() == 0 {
        Seq::empty()
    } else {
        mod_lines(mods.drop_last()) + "- "@ + mods.last().name@ + "\n"@
    }
}

/// The Discord message for a profile: a bold heading, the game and instance,
/// the version, loader, health score and RAM where known, and the recommended
/// mods when there are any.
pub open spec fn discord_text(p: OptimizationProfile) -> Seq<char> {
    "**GamePilot Optimization Profile**\n"@ + "Game: "@ + p.game@ + "\n"@ + "Instance: "@
        + p.instance_name@ + "\n"@ + line_if("Version: "@, ov(p.minecraft_version)) + line_if(
        "Loader: "@,
        ov(p.loader),
    ) + score_line(p.health_score) + ram_line(p.jvm_settings) + mods_block(p.recommended_mods@)
}

fn push_line_if(msg: &mut Vec<char>, label: &str, value: &Option<String>)
    ensures
        final(msg)@ == old(msg)@ + line_if(label@, ov(*value)),
{
    match value {
        Some(v) => {
            text::push_str(msg, label);
            text::push_string(msg, v);
            text::push_str(msg, "\n");
            assert(msg@ =~= old(msg)@ + (label@ + v@ + "\n"@));
        },
        None => {
            assert(msg@ =~= old(msg)@ + Seq::<char>::empty());
        },
    }
}

/// The health-score line, when there is a score.
pub open spec fn score_line(score: Option<u32>) -> Seq<char> {
    match score {
        Some(s) => "Health Score: "@ + text::dec(s as nat) + "/100\n"@,
        None => Seq::empty(),
    }
}

/// The RAM line, when the profile has a heap size.
pub open spec fn ram_line(jvm: Option<JvmProfile>) -> Seq<char> {
    match jvm {
        Some(j) => match j.xmx_mb {
            Some(x) => "RAM: "@ + text::dec(x as nat) + " MB\n"@,
            None => Seq::empty(),
        },
        None => Seq::empty(),
    }
}

/// The list of recommended mods, when there are any.
pub open spec fn mods_block(mods: Seq<RecommendedMod>) -> Seq<char> {
    if mods.len() > 0 {
        "\nRecommended Mods ("@ + text::dec(mods.len() as nat) + "):\n"@ + mod_lines(mods)
    } else {
        Seq::empty()
    }
}

fn push_score_line(msg: &mut Vec<char>, score: Option<u32>)
    ensures
        final(msg)@ == old(msg)@ + score_line(score),
{
    match score {
        Some(s) => {
            text::push_str(msg, "Health Score: ");
            text::push_dec(msg, s as u64);
            text::push_str(msg, "/100\n");
            assert(msg@ =~= old(msg)@ + score_line(score));
        },
        None => {
            assert(msg@ =~= old(msg)@ + score_line(score));
        },
    }
}

fn push_ram_line(msg: &mut Vec<char>, jvm: &Option<JvmProfile>)
    ensures
        final(msg)@ == old(msg)@ + ram_line(*jvm),
{
    let x = match jvm {
        Some(j) => j.xmx_mb,
        None => None,
    };
    match x {
        Some(x) => {
            text::push_str(msg, "RAM: ");
            text::push_dec(msg, x as u64);
            text::push_str(msg, " MB\n");
            assert(msg@ =~= old(msg)@ + ram_line(*jvm));
        },
        None => {
            assert(msg@ =~= old(msg)@ + ram_line(*jvm));
        },
    }
}

fn push_mods_block(msg: &mut Vec<char>, mods: &Vec<RecommendedMod>)
    ensures
        final(msg)@ == old(msg)@ + mods_block(mods@),
{
    if mods.len() > 0 {
        text::push_str(msg, "\nRecommended Mods (");
        text::push_dec(msg, mods.len() as u64);
        text::push_str(msg, "):\n");
        let ghost h = msg@;
        let mut i: usize = 0;
        assert(mods@.take(0) == Seq::<RecommendedMod>::empty());
        assert(msg@ =~= h + mod_lines(mods@.take(0)));
        while i < mods.len()
            invariant
                i <= mods.len(),
                msg@ == h + mod_lines(mods@.take(i as int)),
            decreases mods.len() - i,
        {
            let ghost before = msg@;
            text::push_str(msg, "- ");
            text::push_string(msg, &mods[i].name);
            text::push_str(msg, "\n");
            assert(mods@.take(i + 1).drop_last() == mods@.take(i as int));
            assert(msg@ =~= before + ("- "@ + mods@[i as int].name@ + "\n"@));
            i = i + 1;
        }
        assert(mods@.take(mods.len() as int) == mods@);
        assert(msg@ =~= old(msg)@ + mods_block(mods@));
    } else {
        assert(msg@ =~= old(msg)@ + mods_block(mods@));
    }
}

/// The Discord message that presents a profile.
pub fn format_for_discord(profile: &OptimizationProfile) -> (r: String)
    ensures
        r@ == discord_text(*profile),
{
    let mut msg: Vec<char> = Vec::new();
    text::push_str(&mut msg, "**GamePilot Optimization Profile**\n");
    text::push_str(&mut msg, "Game: ");
    text::push_string(&mut msg, &profile.game);
    text::push_str(&mut msg, "\n");
    text::push_str(&mut msg, "Instance: ");
    text::push_string(&mut msg, &profile.instance_name);
    text::push_str(&mut msg, "\n");
    let ghost m0 = msg@;
    push_line_if(&mut msg, "Version: ", &profile.minecraft_version);
    push_line_if(&mut msg, "Loader: ", &profile.loader);
    push_score_line(&mut msg, profile.health_score);
    push_ram_line(&mut msg, &profile.jvm_settings);
    push_mods_block(&mut msg, &profile.recommended_mods);
    assert(msg@ =~= m0 + line_if("Version: "@, ov(profile.minecraft_version)) + line_if(
        "Loader: "@,
        ov(profile.loader),
    ) + score_line(profile.health_score) + ram_line(profile.jvm_settings) + mods_block(
        profile.recommended_mods@,
    ));
    assert(msg@ =~= discord_text(*profile));
    text::string_of(msg.as_slice())
}

} // verus!
