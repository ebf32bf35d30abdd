//! A health score for a mod pack: memory, rendering, startup, dependency and
//! optimisation risks, each scored from 0 (bad) to 100 (good).
use vstd::prelude::*;
use crate::text;
use crate::mods::ModAnalysis;
use crate::rules;

verus! {

/// The health of a mod pack.
#[derive(Debug, Clone)]
pub struct ModpackHealth {
    pub overall_score: u32,
    pub memory_risk: RiskScore,
    pub rendering_risk: RiskScore,
    pub startup_risk: RiskScore,
    pub dependency_risk: RiskScore,
    pub optimization_score: RiskScore,
    pub summary: String,
}

/// One scored aspect.
#[derive(Debug, Clone)]
pub struct RiskScore {
    pub score: u32,
    pub label: String,
    pub detail: String,
}

/// The label of a score: Good from 80 to 100, Fair from 60, Needs Attention from
/// 40, High Risk otherwise (also above 100).
pub open spec fn label_of(score: int) -> Seq<char> {
    if 80 <= score <= 100 {
        "Good"@
    } else if 60 <= score <= 79 {
        "Fair"@
    } else if 40 <= score <= 59 {
        "Needs Attention"@
    } else {
        "High Risk"@
    }
}

/// The label of a score.
pub fn risk_label(score: i32) -> (r: String)
    ensures
        r@ == label_of(score as int),
{
    if 80 <= score && score <= 100 {
        text::to_string("Good")
    } else if 60 <= score && score <= 79 {
        text::to_string("Fair")
    } else if 40 <= score && score <= 59 {
        text::to_string("Needs Attention")
    } else {
        text::to_string("High Risk")
    }
}

pub open spec fn clamp(v: int, lo: int, hi: int) -> int {
    if v < lo {
        lo
    } else if v > hi {
        hi
    } else {
        v
    }
}

/// A score's texts.
pub open spec fn score_is(r: RiskScore, score: int, detail: Seq<char>) -> bool {
    r.score == score && r.label@ == label_of(score) && r.detail@ == detail
}

/// The memory score: by mod count, less for large packs (over 500 MB or 200 MB,
/// in MB of 2^20 bytes), more with FerriteCore and ModernFix.
pub open spec fn memory_score(a: ModAnalysis) -> int {
    let base = if a.total_mods <= 50 {
        90int
    } else if a.total_mods <= 100 {
        75
    } else if a.total_mods <= 200 {
        55
    } else if a.total_mods <= 300 {
        35
    } else {
        20
    };
    let penalty = if a.total_size_bytes > 500 * 0x10_0000 {
        15int
    } else if a.total_size_bytes > 200 * 0x10_0000 {
        5
    } else {
        0
    };
    let bonus = (if has_ferrite(a) {
        10int
    } else {
        0
    }) + (if has_modernfix(a) {
        5int
    } else {
        0
    });
    clamp(base - penalty + bonus, 0, 100)
}

pub open spec fn has_ferrite(a: ModAnalysis) -> bool {
    text::some_lower_contains(text::sviews(a.detected_performance_mods@), "ferritecore"@)
}

pub open spec fn has_modernfix(a: ModAnalysis) -> bool {
    text::some_lower_contains(text::sviews(a.detected_performance_mods@), "modernfix"@)
}

pub open spec fn memory_detail(a: ModAnalysis) -> Seq<char> {
    text::dec(a.total_mods as nat) + " mods, "@ + rules::mb_text0(a.total_size_bytes as nat)
        + " MB total"@ + (if has_ferrite(a) {
        ", FerriteCore installed"@
    } else {
        Seq::empty()
    }) + (if has_modernfix(a) {
        ", ModernFix installed"@
    } else {
        Seq::empty()
    })
}

fn count_score(n: usize, a: i32, b: i32, c: i32, d: i32, e: i32, t1: usize, t2: usize, t3: usize, t4: usize) -> (r: i32)
    ensures
        r == if n <= t1 {
            a
        } else if n <= t2 {
            b
        } else if n <= t3 {
            c
        } else if n <= t4 {
            d
        } else {
            e
        },
{
    if n <= t1 {
        a
    } else if n <= t2 {
        b
    } else if n <= t3 {
        c
    } else if n <= t4 {
        d
    } else {
        e
    }
}

/// The memory score of a pack whose size is below 2^53 bytes.
pub fn score_memory_risk(analysis: &ModAnalysis) -> (r: RiskScore)
    requires
        analysis.total_size_bytes < 0x20_0000_0000_0000,
    ensures
        score_is(r, memory_score(*analysis), memory_detail(*analysis)),
{
    let base = count_score(analysis.total_mods, 90, 75, 55, 35, 20, 50, 100, 200, 300);
    let penalty: i32 = if analysis.total_size_bytes > 500 * 0x10_0000 {
        15
    } else if analysis.total_size_bytes > 200 * 0x10_0000 {
        5
    } else {
        0
    };
    let ferrite = text::any_lower_contains(&analysis.detected_performance_mods, "ferritecore");
    let modernfix = text::any_lower_contains(&analysis.detected_performance_mods, "modernfix");
    let bonus: i32 = (if ferrite {
        10
    } else {
        0
    }) + (if modernfix {
        5
    } else {
        0
    });
    let v = base - penalty + bonus;
    let score: i32 = if v < 0 {
        0
    } else if v > 100 {
        100
    } else {
        v
    };
    let mut detail: Vec<char> = Vec::new();
    text::push_dec(&mut detail, analysis.total_mods as u64);
    text::push_str(&mut detail, " mods, ");
    text::push_dec(&mut detail, div_round_mb(analysis.total_size_bytes));
    text::push_str(&mut detail, " MB total");
    if ferrite {
        text::push_str(&mut detail, ", FerriteCore installed");
    }
    if modernfix {
        text::push_str(&mut detail, ", ModernFix installed");
    }
    proof {
        assert(detail@ =~= memory_detail(*analysis));
    }
    RiskScore { score: score as u32, label: risk_label(score), detail: text::string_of(detail.as_slice()) }
}

fn div_round_mb(b: u64) -> (r: u64)
    requires
        b < 0x20_0000_0000_0000,
    ensures
        r == rules::div_round_even(b as nat, 0x10_0000),
{
    let q = b / 0x10_0000;
    let rem = b % 0x10_0000;
    if rem * 2 > 0x10_0000 || (rem * 2 == 0x10_0000 && q % 2 == 1) {
        q + 1
    } else {
        q
    }
}

pub open spec fn has_sodium(a: ModAnalysis) -> bool {
    text::some_lower_contains(text::sviews(a.detected_performance_mods@), "sodium"@)
        || text::some_lower_contains(text::sviews(a.detected_performance_mods@), "embeddium"@)
}

pub open spec fn has_entity_culling(a: ModAnalysis) -> bool {
    text::some_lower_contains(text::sviews(a.detected_performance_mods@), "entity culling"@)
}

/// The rendering score: 70 (50 above 150 mods), plus 20 with Sodium or
/// Embeddium and 10 with Entity Culling, at most 100.
pub open spec fn rendering_score(a: ModAnalysis) -> int {
    let base = if a.total_mods > 150 {
        50int
    } else {
        70
    };
    let bonus = (if has_sodium(a) {
        20int
    } else {
        0
    }) + (if has_entity_culling(a) {
        10int
    } else {
        0
    });
    if base + bonus > 100 {
        100
    } else {
        base + bonus
    }
}

pub open spec fn rendering_detail(a: ModAnalysis) -> Seq<char> {
    "Rendering optimizer: "@ + (if has_sodium(a) {
        "present"@
    } else {
        "missing"@
    }) + (if has_entity_culling(a) {
        ", entity culling present"@
    } else {
        Seq::empty()
    })
}

/// The rendering score of a pack.
pub fn score_rendering_risk(analysis: &ModAnalysis) -> (r: RiskScore)
    ensures
        score_is(r, rendering_score(*analysis), rendering_detail(*analysis)),
{
    let sodium = text::any_lower_contains(&analysis.detected_performance_mods, "sodium")
        || text::any_lower_contains(&analysis.detected_performance_mods, "embeddium");
    let culling = text::any_lower_contains(&analysis.detected_performance_mods, "entity culling");
    let base: i32 = if analysis.total_mods > 150 {
        50
    } else {
        70
    };
    let bonus: i32 = (if sodium {
        20
    } else {
        0
    }) + (if culling {
        10
    } else {
        0
    });
    let score: i32 = if base + bonus > 100 {
        100
    } else {
        base + bonus
    };
    let mut detail: Vec<char> = Vec::new();
    text::push_str(&mut detail, "Rendering optimizer: ");
    if sodium {
        text::push_str(&mut detail, "present");
    } else {
        text::push_str(&mut detail, "missing");
    }
    if culling {
        text::push_str(&mut detail, ", entity culling present");
    }
    proof {
        assert(detail@ =~= rendering_detail(*analysis));
    }
    RiskScore { score: score as u32, label: risk_label(score), detail: text::string_of(detail.as_slice()) }
}

/// The startup score, by mod count.
pub open spec fn startup_score(a: ModAnalysis) -> int {
    if a.total_mods <= 30 {
        95int
    } else if a.total_mods <= 80 {
        80
    } else if a.total_mods <= 150 {
        65
    } else if a.total_mods <= 250 {
        45
    } else {
        25
    }
}

/// The startup score of a pack.
pub fn score_startup_risk(analysis: &ModAnalysis) -> (r: RiskScore)
    ensures
        score_is(
            r,
            startup_score(*analysis),
            text::dec(analysis.total_mods as nat) + " mods will affect startup time"@,
        ),
{
    let score = count_score(analysis.total_mods, 95, 80, 65, 45, 25, 30, 80, 150, 250);
    let mut detail: Vec<char> = Vec::new();
    text::push_dec(&mut detail, analysis.total_mods as u64);
    text::push_str(&mut detail, " mods will affect startup time");
    proof {
        assert(detail@ =~= text::dec(analysis.total_mods as nat) + " mods will affect startup time"@);
    }
    RiskScore { score: score as u32, label: risk_label(score), detail: text::string_of(detail.as_slice()) }
}

/// The dependency score, by mod count.
pub open spec fn dependency_score(a: ModAnalysis) -> int {
    if a.total_mods > 250 {
        40
    } else if a.total_mods > 150 {
        60
    } else {
        80
    }
}

/// The dependency score of a pack.
pub fn score_dependency_risk(analysis: &ModAnalysis) -> (r: RiskScore)
    ensures
        score_is(
            r,
            dependency_score(*analysis),
            "Dependency complexity scales with "@ + text::dec(analysis.total_mods as nat) + " mods"@,
        ),
{
    let score: i32 = if analysis.total_mods > 250 {
        40
    } else if analysis.total_mods > 150 {
        60
    } else {
        80
    };
    let mut detail: Vec<char> = Vec::new();
    text::push_str(&mut detail, "Dependency complexity scales with ");
    text::push_dec(&mut detail, analysis.total_mods as u64);
    text::push_str(&mut detail, " mods");
    proof {
        assert(detail@ =~= "Dependency complexity scales with "@ + text::dec(analysis.total_mods as nat)
            + " mods"@);
    }
    RiskScore { score: score as u32, label: risk_label(score), detail: text::string_of(detail.as_slice()) }
}

/// The optimisation score: 95 with nothing missing, else 90 less 12 per missing
/// mod plus 8 per installed performance mod, between 10 and 95.
pub open spec fn optimization_score_of(a: ModAnalysis) -> int {
    let missing = a.missing_performance_mods.len() as int;
    let found = a.detected_performance_mods.len() as int;
    if missing == 0 {
        95
    } else {
        clamp(90 - missing * 12 + found * 8, 10, 95)
    }
}

/// The counts of a pack stay small enough for the score's `i32` arithmetic.
pub open spec fn counts_fit(a: ModAnalysis) -> bool {
    &&& a.missing_performance_mods.len() * 12 <= i32::MAX
    &&& a.detected_performance_mods.len() * 8 <= i32::MAX
    &&& 90 - a.missing_performance_mods.len() * 12 + a.detected_performance_mods.len() * 8 <= i32::MAX
}

/// The optimisation score of a pack.
pub fn score_optimization(analysis: &ModAnalysis) -> (r: RiskScore)
    requires
        counts_fit(*analysis),
    ensures
        score_is(
            r,
            optimization_score_of(*analysis),
            text::dec(analysis.detected_performance_mods.len() as nat) + " performance mods installed, "@
                + text::dec(analysis.missing_performance_mods.len() as nat)
                + " recommended mods missing"@,
        ),
{
    let found = analysis.detected_performance_mods.len();
    let missing = analysis.missing_performance_mods.len();
    let score: u32 = if missing == 0 {
        95
    } else {
        let base = 90i32 - (missing as i32 * 12);
        let bonus = found as i32 * 8;
        let v = base + bonus;
        if v < 10 {
            10
        } else if v > 95 {
            95
        } else {
            v as u32
        }
    };
    let mut detail: Vec<char> = Vec::new();
    text::push_dec(&mut detail, found as u64);
    text::push_str(&mut detail, " performance mods installed, ");
    text::push_dec(&mut detail, missing as u64);
    text::push_str(&mut detail, " recommended mods missing");
    proof {
        assert(detail@ =~= text::dec(found as nat) + " performance mods installed, "@ + text::dec(
            missing as nat,
        ) + " recommended mods missing"@);
    }
    RiskScore { score, label: risk_label(score as i32), detail: text::string_of(detail.as_slice()) }
}

/// The overall score: the mean of the five scores (rounded down), 10 less when
/// the settings have issues (not below 0).
pub open spec fn overall_score(a: ModAnalysis, has_config_issues: bool) -> int {
    let mean = (memory_score(a) + rendering_score(a) + startup_score(a) + dependency_score(a)
        + optimization_score_of(a)) / 5;
    if has_config_issues {
        if mean >= 10 {
            mean - 10
        } else {
            0
        }
    } else {
        mean
    }
}

/// The one-line verdict for an overall score.
pub open spec fn summary_of(total: int) -> Seq<char> {
    if 80 <= total <= 100 {
        "This modpack is well-optimized with low risk."@
    } else if 60 <= total <= 79 {
        "This modpack is in reasonable shape but has room for improvement."@
    } else if 40 <= total <= 59 {
        "This modpack has several areas that could be improved for better performance."@
    } else {
        "This modpack has significant performance risks that should be addressed."@
    }
}

/// The health of a pack (whose size is below 2^53 bytes) and whether its
/// settings have issues.
pub fn score_modpack_health(analysis: &ModAnalysis, has_config_issues: bool) -> (h: ModpackHealth)
    requires
        analysis.total_size_bytes < 0x20_0000_0000_0000,
        counts_fit(*analysis),
    ensures
        h.overall_score == overall_score(*analysis, has_config_issues),
        h.summary@ == summary_of(overall_score(*analysis, has_config_issues)),
        score_is(h.memory_risk, memory_score(*analysis), memory_detail(*analysis)),
        score_is(h.rendering_risk, rendering_score(*analysis), rendering_detail(*analysis)),
        h.startup_risk.score == startup_score(*analysis),
        h.dependency_risk.score == dependency_score(*analysis),
        h.optimization_score.score == optimization_score_of(*analysis),
{
    let memory_risk = score_memory_risk(analysis);
    let rendering_risk = score_rendering_risk(analysis);
    let startup_risk = score_startup_risk(analysis);
    let dependency_risk = score_dependency_risk(analysis);
    let optimization_score = score_optimization(analysis);
    let mut total = (memory_risk.score + rendering_risk.score + startup_risk.score
        + dependency_risk.score + optimization_score.score) / 5;
    if has_config_issues {
        total = total.saturating_sub(10);
    }
    let summary = if 80 <= total && total <= 100 {
        text::to_string("This modpack is well-optimized with low risk.")
    } else if 60 <= total && total <= 79 {
        text::to_string("This modpack is in reasonable shape but has room for improvement.")
    } else if 40 <= total && total <= 59 {
        text::to_string(
            "This modpack has several areas that could be improved for better performance.",
        )
    } else {
        text::to_string("This modpack has significant performance risks that should be addressed.")
    };
    ModpackHealth {
        overall_score: total,
        memory_risk,
        rendering_risk,
        startup_risk,
        dependency_risk,
        optimization_score,
        summary,
    }
}

/// Every score lies between 0 and 100, and so does the overall score.
pub proof fn law_scores_within_range(a: ModAnalysis, has_config_issues: bool)
    ensures
        0 <= memory_score(a) <= 100,
        0 <= rendering_score(a) <= 100,
        0 <= startup_score(a) <= 100,
        0 <= dependency_score(a) <= 100,
        0 <= optimization_score_of(a) <= 100,
        0 <= overall_score(a, has_config_issues) <= 100,
{
}

/// Settings issues never raise the overall score.
pub proof fn law_config_issues_never_help(a: ModAnalysis)
    ensures
        overall_score(a, true) <= overall_score(a, false),
{
}


/// Startup only gets riskier with more mods: the startup score never rises as
/// the mod count grows, whatever else the two packs hold; it is 95 for at most
/// 30 mods and 25 (labelled "High Risk") above 250 mods.
pub proof fn law_startup_score_falls_with_mod_count(a: ModAnalysis, b: ModAnalysis)
    ensures
        a.total_mods <= b.total_mods ==> startup_score(b) <= startup_score(a),
        a.total_mods <= 30 ==> startup_score(a) == 95,
        a.total_mods > 250 ==> startup_score(a) == 25 && label_of(startup_score(a)) == "High Risk"@,
{
}

/// More mods never make the memory, rendering or dependency score better, for
/// packs of the same size with the same performance mods installed.
pub proof fn law_scores_fall_with_mod_count(a: ModAnalysis, b: ModAnalysis)
    requires
        a.detected_performance_mods == b.detected_performance_mods,
        a.total_size_bytes == b.total_size_bytes,
    ensures
        a.total_mods <= b.total_mods ==> memory_score(b) <= memory_score(a),
        a.total_mods <= b.total_mods ==> rendering_score(b) <= rendering_score(a),
        a.total_mods <= b.total_mods ==> dependency_score(b) <= dependency_score(a),
{
}

} // verus!
