//! The rules that turn the hardware, an instance and its mods into tuning advice:
//! how much memory to give Java, which GC flags, which Java version, which mods.
use vstd::prelude::*;
use crate::text;
use crate::instance::MinecraftInstance;
use crate::mods::ModAnalysis;

verus! {

/// One piece of advice.
#[derive(Debug, Clone)]
pub struct Recommendation {
    pub id: String,
    pub category: String,
    pub severity: String,
    pub confidence: String,
    pub title: String,
    pub description: String,
    pub evidence: String,
    pub expected_impact: String,
    pub risk_level: String,
    pub action_type: Option<String>,
    pub action_data: Option<String>,
}

/// The texts of a recommendation apart from its random id.
pub struct RecText {
    pub category: Seq<char>,
    pub severity: Seq<char>,
    pub confidence: Seq<char>,
    pub title: Seq<char>,
    pub description: Seq<char>,
    pub evidence: Seq<char>,
    pub expected_impact: Seq<char>,
    pub risk_level: Seq<char>,
    pub action_type: Option<Seq<char>>,
    pub action_data: Option<Seq<char>>,
}

pub open spec fn ov(o: Option<String>) -> Option<Seq<char>> {
    match o {
        Some(s) => Some(s@),
        None => None,
    }
}

pub open spec fn rec_text(r: Recommendation) -> RecText {
    RecText {
        category: r.category@,
        severity: r.severity@,
        confidence: r.confidence@,
        title: r.title@,
        description: r.description@,
        evidence: r.evidence@,
        expected_impact: r.expected_impact@,
        risk_level: r.risk_level@,
        action_type: ov(r.action_type),
        action_data: ov(r.action_data),
    }
}

pub open spec fn rec_texts(v: Seq<Recommendation>) -> Seq<RecText> {
    Seq::new(v.len(), |i: int| rec_text(v[i]))
}

/// A lower-case hexadecimal digit.
pub open spec fn is_lower_hex(c: char) -> bool {
    ('0' <= c && c <= '9') || ('a' <= c && c <= 'f')
}

/// The text of a version 4 UUID in its hyphenated lower-case form: 36
/// characters, hyphens at 8, 13, 18 and 23, lower-case hexadecimal digits
/// elsewhere, the version digit `4` at 14 and a variant digit of `8`, `9`, `a`
/// or `b` at 19.
pub open spec fn uuid_v4_text(s: Seq<char>) -> bool {
    &&& s.len() == 36
    &&& forall|i: int|
        0 <= i < 36 ==> if i == 8 || i == 13 || i == 18 || i == 23 {
            s[i] == '-'
        } else {
            is_lower_hex(s[i])
        }
    &&& s[14] == '4'
    &&& (s[19] == '8' || s[19] == '9' || s[19] == 'a' || s[19] == 'b')
}

/// Every recommendation's id is a version 4 UUID text.
pub open spec fn ids_are_uuids(v: Seq<Recommendation>) -> bool {
    forall|i: int| 0 <= i < v.len() ==> uuid_v4_text(#[trigger] v[i].id@)
}

/// `uuid::Uuid::new_v4().to_string()`: a fresh random id. Which id it is, is
/// chance; every outcome is a version 4 UUID in the hyphenated lower-case form
/// that `Display` gives.
#[verifier::external_body]
pub(crate) fn new_id() -> (r: String)
    ensures
        uuid_v4_text(r@),
{
    uuid::Uuid::new_v4().to_string()
}

fn make_rec(t: (String, String, String, String, String, String, String, String, Option<String>, Option<String>)) -> (r: Recommendation)
    ensures
        uuid_v4_text(r.id@),
        rec_text(r) == (RecText {
            category: t.0@,
            severity: t.1@,
            confidence: t.2@,
            title: t.3@,
            description: t.4@,
            evidence: t.5@,
            expected_impact: t.6@,
            risk_level: t.7@,
            action_type: ov(t.8),
            action_data: ov(t.9),
        }),
{
    Recommendation {
        id: new_id(),
        category: t.0,
        severity: t.1,
        confidence: t.2,
        title: t.3,
        description: t.4,
        evidence: t.5,
        expected_impact: t.6,
        risk_level: t.7,
        action_type: t.8,
        action_data: t.9,
    }
}

fn push_rec(v: &mut Vec<Recommendation>, r: Recommendation)
    ensures
        final(v)@ == old(v)@.push(r),
        final(v)@.take(old(v)@.len() as int) == old(v)@,
        rec_texts(final(v)@) == rec_texts(old(v)@).push(rec_text(r)),
{
    v.push(r);
    assert(v@.take(old(v)@.len() as int) =~= old(v)@);
    assert(rec_texts(v@) =~= rec_texts(old(v)@).push(rec_text(r)));
}

// ---------------------------------------------------------------------------
// Memory
// ---------------------------------------------------------------------------

/// The base heap size for the machine's memory.
pub open spec fn base_xmx(total_ram_mb: int) -> int {
    if total_ram_mb <= 7168 {
        4096
    } else if total_ram_mb <= 12288 {
        6144
    } else if total_ram_mb <= 20480 {
        8192
    } else if total_ram_mb <= 36864 {
        10240
    } else {
        12288
    }
}

/// The base size raised by 30% (rounded down) for more than 200 mods and by 15%
/// for more than 100.
pub open spec fn raised_xmx(base: int, mod_count: int) -> int {
    if mod_count > 200 {
        base * 13 / 10
    } else if mod_count > 100 {
        base * 115 / 100
    } else {
        base
    }
}

/// The top of the `-Xmx` range that the RAM guidance gives for the machine's
/// memory band: 6 GB for about 8 GB of memory, 10 GB for 16 GB, 12 GB for 32 GB
/// and 16 GB for 64 GB and more, leaving the rest to the system. Below 8 GB the
/// guidance gives no row.
pub open spec fn guidance_top(total_ram_mb: int) -> Option<int> {
    if total_ram_mb <= 7168 {
        None
    } else if total_ram_mb <= 12288 {
        Some(6144)
    } else if total_ram_mb <= 20480 {
        Some(10240)
    } else if total_ram_mb <= 36864 {
        Some(12288)
    } else {
        Some(16384)
    }
}

/// The recommended `-Xmx` in MB: the base size, raised for large packs, but no
/// more than the top of the guidance range for the machine's memory.
pub open spec fn xmx_for(total_ram_mb: int, mod_count: int) -> int {
    let r = raised_xmx(base_xmx(total_ram_mb), mod_count);
    match guidance_top(total_ram_mb) {
        Some(top) => if r > top {
            top
        } else {
            r
        },
        None => r,
    }
}

/// The recommended `-Xmx` in MB for a machine with `total_ram_mb` of memory and
/// an instance with `mod_count` mods. (For the five base sizes, the integer
/// percentages give the same values as multiplying by 1.3 and 1.15 in `f64` and
/// truncating.)
pub fn recommend_xmx_mb(total_ram_mb: u64, mod_count: usize) -> (r: u32)
    ensures
        r == xmx_for(total_ram_mb as int, mod_count as int),
{
    let (base, top): (u32, u32) = if total_ram_mb <= 7168 {
        (4096, 5324)
    } else if total_ram_mb <= 12288 {
        (6144, 6144)
    } else if total_ram_mb <= 20480 {
        (8192, 10240)
    } else if total_ram_mb <= 36864 {
        (10240, 12288)
    } else {
        (12288, 16384)
    };
    let raised: u32 = if mod_count > 200 {
        base * 13 / 10
    } else if mod_count > 100 {
        base * 115 / 100
    } else {
        base
    };
    if raised > top {
        top
    } else {
        raised
    }
}

/// `n / d` rounded to the nearest integer, ties to even: what `{:.0}` prints for
/// the exactly represented quotient.
pub open spec fn div_round_even(n: nat, d: nat) -> nat {
    let q = n / d;
    let r = n % d;
    if r * 2 > d || (r * 2 == d && q % 2 == 1) {
        q + 1
    } else {
        q
    }
}

fn div_round_even_u64(n: u64, d: u64) -> (r: u64)
    requires
        d > 0,
        n < 0x1000_0000_0000_0000,
        d <= 0x100_0000,
    ensures
        r == div_round_even(n as nat, d as nat),
{
    let q = n / d;
    let rem = n % d;
    if rem * 2 > d || (rem * 2 == d && q % 2 == 1) {
        q + 1
    } else {
        q
    }
}

/// The machine's memory in GB, as `{:.0}` prints `total_ram_mb / 1024.0`.
pub open spec fn ram_gb_text(total_ram_mb: nat) -> Seq<char> {
    text::dec(div_round_even(total_ram_mb, 1024))
}

/// The memory advice for an instance: raise the heap when it is more than 1 GB
/// below the recommendation, lower it when it is more than 2 GB above, set it
/// when none is set, and say nothing otherwise.
pub open spec fn ram_recs(total_ram_mb: nat, inst: MinecraftInstance) -> Seq<RecText> {
    let rec = xmx_for(total_ram_mb as int, inst.mod_count as int);
    let gb = ram_gb_text(total_ram_mb);
    let mods = text::dec(inst.mod_count as nat);
    let lower = if rec >= 1024 {
        rec - 1024
    } else {
        0
    };
    let cur = match inst.xmx_mb {
        Some(c) => c as nat,
        None => 0,
    };
    let evidence = "System RAM: "@ + text::dec(total_ram_mb) + " MB, Current Xmx: "@ + text::dec(cur)
        + " MB, Mod count: "@ + mods;
    let data = "-Xmx"@ + text::dec(rec as nat) + "m -Xms"@ + text::dec((rec / 2) as nat) + "m"@;
    let make = |severity: Seq<char>, title: Seq<char>, description: Seq<char>|
        RecText {
            category: "java_jvm"@,
            severity,
            confidence: "high"@,
            title,
            description,
            evidence,
            expected_impact: "Reduced stuttering, fewer out-of-memory crashes"@,
            risk_level: "low"@,
            action_type: Some("set_jvm_arg"@),
            action_data: Some(data),
        };
    match inst.xmx_mb {
        Some(c) => if (c as int) < lower {
            seq![
                make(
                    "warning"@,
                    "Increase RAM allocation from "@ + text::dec(c as nat) + " MB to "@ + text::dec(
                        rec as nat,
                    ) + " MB"@,
                    "Your system has "@ + gb + " GB RAM. With "@ + mods
                        + " mods installed, allocating "@ + text::dec(rec as nat)
                        + " MB is recommended. Current allocation of "@ + text::dec(c as nat)
                        + " MB may cause stuttering and out-of-memory crashes."@,
                ),
            ]
        } else if (c as int) > rec + 2048 {
            seq![
                make(
                    "info"@,
                    "Reduce RAM allocation from "@ + text::dec(c as nat) + " MB to "@ + text::dec(
                        rec as nat,
                    ) + " MB"@,
                    "Your system has "@ + gb + " GB RAM. Allocating "@ + text::dec(c as nat)
                        + " MB is excessive and may cause longer GC pauses. "@ + text::dec(
                        rec as nat,
                    ) + " MB is recommended for "@ + mods + " mods."@,
                ),
            ]
        } else {
            Seq::empty()
        },
        None => seq![
            make(
                "info"@,
                "Set RAM allocation to "@ + text::dec(rec as nat) + " MB"@,
                "Your system has "@ + gb + " GB RAM. With "@ + mods + " mods, "@ + text::dec(
                    rec as nat,
                ) + " MB is the recommended allocation for smooth gameplay."@,
            ),
        ],
    }
}

fn text_of(v: Vec<char>) -> (r: String)
    ensures
        r@ == v@,
{
    text::string_of(v.as_slice())
}

fn str_of(s: &str) -> (r: String)
    ensures
        r@ == s@,
{
    text::to_string(s)
}

/// Adds the memory advice of `ram_recs`. The machine's memory is below 2^53 MB,
/// so that its conversion to `f64` is exact.
pub fn generate_ram_recommendation(
    total_ram_mb: u64,
    instance: &MinecraftInstance,
    recs: &mut Vec<Recommendation>,
)
    requires
        total_ram_mb < 0x20_0000_0000_0000,
    ensures
        rec_texts(final(recs)@) == rec_texts(old(recs)@) + ram_recs(total_ram_mb as nat, *instance),
        ids_are_uuids(old(recs)@) ==> ids_are_uuids(final(recs)@),
        final(recs)@.take(old(recs)@.len() as int) == old(recs)@,
{
    let ghost r0 = rec_texts(recs@);
    assert(recs@.take(recs@.len() as int) =~= recs@);
    let rec = recommend_xmx_mb(total_ram_mb, instance.mod_count);
    let gb = div_round_even_u64(total_ram_mb, 1024);
    let lower: u32 = if rec >= 1024 {
        rec - 1024
    } else {
        0
    };
    let cur: u64 = match instance.xmx_mb {
        Some(c) => c as u64,
        None => 0,
    };
    let mut ev: Vec<char> = Vec::new();
    text::push_str(&mut ev, "System RAM: ");
    text::push_dec(&mut ev, total_ram_mb);
    text::push_str(&mut ev, " MB, Current Xmx: ");
    text::push_dec(&mut ev, cur);
    text::push_str(&mut ev, " MB, Mod count: ");
    text::push_dec(&mut ev, instance.mod_count as u64);
    let mut data: Vec<char> = Vec::new();
    text::push_str(&mut data, "-Xmx");
    text::push_dec(&mut data, rec as u64);
    text::push_str(&mut data, "m -Xms");
    text::push_dec(&mut data, (rec / 2) as u64);
    text::push_str(&mut data, "m");
    let mut title: Vec<char> = Vec::new();
    let mut desc: Vec<char> = Vec::new();
    let severity: &str;
    match instance.xmx_mb {
        Some(c) => {
            if c < lower {
                text::push_str(&mut title, "Increase RAM allocation from ");
                text::push_dec(&mut title, c as u64);
                text::push_str(&mut title, " MB to ");
                text::push_dec(&mut title, rec as u64);
                text::push_str(&mut title, " MB");
                text::push_str(&mut desc, "Your system has ");
                text::push_dec(&mut desc, gb);
                text::push_str(&mut desc, " GB RAM. With ");
                text::push_dec(&mut desc, instance.mod_count as u64);
                text::push_str(&mut desc, " mods installed, allocating ");
                text::push_dec(&mut desc, rec as u64);
                text::push_str(&mut desc, " MB is recommended. Current allocation of ");
                text::push_dec(&mut desc, c as u64);
                text::push_str(&mut desc, " MB may cause stuttering and out-of-memory crashes.");
                severity = "warning";
            } else if c > rec + 2048 {
                text::push_str(&mut title, "Reduce RAM allocation from ");
                text::push_dec(&mut title, c as u64);
                text::push_str(&mut title, " MB to ");
                text::push_dec(&mut title, rec as u64);
                text::push_str(&mut title, " MB");
                text::push_str(&mut desc, "Your system has ");
                text::push_dec(&mut desc, gb);
                text::push_str(&mut desc, " GB RAM. Allocating ");
                text::push_dec(&mut desc, c as u64);
                text::push_str(&mut desc, " MB is excessive and may cause longer GC pauses. ");
                text::push_dec(&mut desc, rec as u64);
                text::push_str(&mut desc, " MB is recommended for ");
                text::push_dec(&mut desc, instance.mod_count as u64);
                text::push_str(&mut desc, " mods.");
                severity = "info";
            } else {
                assert(rec_texts(recs@) =~= r0 + ram_recs(total_ram_mb as nat, *instance));
                return ;
            }
        },
        None => {
            text::push_str(&mut title, "Set RAM allocation to ");
            text::push_dec(&mut title, rec as u64);
            text::push_str(&mut title, " MB");
            text::push_str(&mut desc, "Your system has ");
            text::push_dec(&mut desc, gb);
            text::push_str(&mut desc, " GB RAM. With ");
            text::push_dec(&mut desc, instance.mod_count as u64);
            text::push_str(&mut desc, " mods, ");
            text::push_dec(&mut desc, rec as u64);
            text::push_str(&mut desc, " MB is the recommended allocation for smooth gameplay.");
            severity = "info";
        },
    }
    let r = make_rec(
        (
            str_of("java_jvm"),
            str_of(severity),
            str_of("high"),
            text_of(title),
            text_of(desc),
            text_of(ev),
            str_of("Reduced stuttering, fewer out-of-memory crashes"),
            str_of("low"),
            Some(str_of("set_jvm_arg")),
            Some(text_of(data)),
        ),
    );
    push_rec(recs, r);
    assert(rec_texts(recs@) =~= r0 + ram_recs(total_ram_mb as nat, *instance));
}

// ---------------------------------------------------------------------------
// JVM flags and Java version
// ---------------------------------------------------------------------------

/// The tuned G1GC flags for Minecraft.
pub open spec fn jvm_flags_text() -> Seq<char> {
    "-XX:+UseG1GC -XX:+ParallelRefProcEnabled -XX:MaxGCPauseMillis=200 -XX:+UnlockExperimentalVMOptions -XX:+DisableExplicitGC -XX:G1NewSizePercent=30 -XX:G1MaxNewSizePercent=40 -XX:G1HeapRegionSize=8M -XX:G1ReservePercent=20 -XX:G1HeapWastePercent=5 -XX:G1MixedGCCountTarget=4 -XX:InitiatingHeapOccupancyPercent=15 -XX:G1MixedGCLiveThresholdPercent=90 -XX:G1RSetUpdatingPauseTimePercent=5 -XX:SurvivorRatio=32 -XX:+PerfDisableSharedMem -XX:MaxTenuringThreshold=1"@
}

/// The tuned G1GC flags for Minecraft.
pub fn optimized_jvm_flags() -> (r: String)
    ensures
        r@ == jvm_flags_text(),
{
    text::to_string(
        "-XX:+UseG1GC -XX:+ParallelRefProcEnabled -XX:MaxGCPauseMillis=200 -XX:+UnlockExperimentalVMOptions -XX:+DisableExplicitGC -XX:G1NewSizePercent=30 -XX:G1MaxNewSizePercent=40 -XX:G1HeapRegionSize=8M -XX:G1ReservePercent=20 -XX:G1HeapWastePercent=5 -XX:G1MixedGCCountTarget=4 -XX:InitiatingHeapOccupancyPercent=15 -XX:G1MixedGCLiveThresholdPercent=90 -XX:G1RSetUpdatingPauseTimePercent=5 -XX:SurvivorRatio=32 -XX:+PerfDisableSharedMem -XX:MaxTenuringThreshold=1",
    )
}

/// An optional text, empty when absent.
pub open spec fn or_empty(o: Option<String>) -> Seq<char> {
    match o {
        Some(s) => s@,
        None => Seq::empty(),
    }
}

/// The GC advice: tuned G1GC flags when the JVM arguments choose no collector
/// (G1, Shenandoah or ZGC).
pub open spec fn jvm_flag_recs(inst: MinecraftInstance) -> Seq<RecText> {
    let args = or_empty(inst.jvm_args);
    if !text::contains(args, "UseG1GC"@) && !text::contains(args, "UseShenandoahGC"@)
        && !text::contains(args, "UseZGC"@) {
        seq![
            RecText {
                category: "java_jvm"@,
                severity: "info"@,
                confidence: "high"@,
                title: "Add optimized GC flags for Minecraft"@,
                description: "G1GC with tuned parameters reduces GC pause times and improves frame time consistency."@,
                evidence: "Current JVM args: '"@ + args + "'"@,
                expected_impact: "Reduced micro-stuttering from GC pauses"@,
                risk_level: "low"@,
                action_type: Some("set_jvm_arg"@),
                action_data: Some(jvm_flags_text()),
            },
        ]
    } else {
        Seq::empty()
    }
}

fn or_empty_chars(o: &Option<String>) -> (r: Vec<char>)
    ensures
        r@ == or_empty(*o),
{
    match o {
        Some(s) => text::chars_of_string(s),
        None => Vec::new(),
    }
}

/// Adds the GC advice of `jvm_flag_recs`.
pub fn generate_jvm_flag_recommendations(instance: &MinecraftInstance, recs: &mut Vec<Recommendation>)
    ensures
        rec_texts(final(recs)@) == rec_texts(old(recs)@) + jvm_flag_recs(*instance),
        ids_are_uuids(old(recs)@) ==> ids_are_uuids(final(recs)@),
        final(recs)@.take(old(recs)@.len() as int) == old(recs)@,
{
    let ghost r0 = rec_texts(recs@);
    assert(recs@.take(recs@.len() as int) =~= recs@);
    let args = or_empty_chars(&instance.jvm_args);
    if !text::contains_str(&args, "UseG1GC") && !text::contains_str(&args, "UseShenandoahGC")
        && !text::contains_str(&args, "UseZGC") {
        let mut ev: Vec<char> = Vec::new();
        text::push_str(&mut ev, "Current JVM args: '");
        text::push_chars(&mut ev, &args);
        text::push_str(&mut ev, "'");
        let r = make_rec(
            (
                str_of("java_jvm"),
                str_of("info"),
                str_of("high"),
                str_of("Add optimized GC flags for Minecraft"),
                str_of(
                    "G1GC with tuned parameters reduces GC pause times and improves frame time consistency.",
                ),
                text_of(ev),
                str_of("Reduced micro-stuttering from GC pauses"),
                str_of("low"),
                Some(str_of("set_jvm_arg")),
                Some(optimized_jvm_flags()),
            ),
        );
        push_rec(recs, r);
    }
    assert(rec_texts(recs@) =~= r0 + jvm_flag_recs(*instance));
}

/// The Java advice: Java 21 for Minecraft 1.20.5, 1.21 and 1.22 versions and for
/// NeoForge.
pub open spec fn java_version_recs(inst: MinecraftInstance) -> Seq<RecText> {
    let mc = or_empty(inst.minecraft_version);
    let loader = or_empty(inst.loader_type);
    let needs_21 = text::is_prefix("1.20.5"@, mc) || text::is_prefix("1.21"@, mc) || text::is_prefix(
        "1.22"@,
        mc,
    );
    let neoforge = text::contains(text::spec_lowercase(loader), "neoforge"@);
    if needs_21 || neoforge {
        seq![
            RecText {
                category: "java_jvm"@,
                severity: "warning"@,
                confidence: "high"@,
                title: "Ensure Java 21 is installed"@,
                description: "Minecraft "@ + mc + " with "@ + loader
                    + " requires Java 21. Using an older version will cause crashes or compatibility issues."@,
                evidence: "MC version: "@ + mc + ", Loader: "@ + loader,
                expected_impact: "Required for game to run correctly"@,
                risk_level: "none"@,
                action_type: Some("open_link"@),
                action_data: Some("https://adoptium.net/temurin/releases/?version=21"@),
            },
        ]
    } else {
        Seq::empty()
    }
}

/// Adds the Java advice of `java_version_recs`.
pub fn generate_java_version_recommendation(
    instance: &MinecraftInstance,
    recs: &mut Vec<Recommendation>,
)
    ensures
        rec_texts(final(recs)@) == rec_texts(old(recs)@) + java_version_recs(*instance),
        ids_are_uuids(old(recs)@) ==> ids_are_uuids(final(recs)@),
        final(recs)@.take(old(recs)@.len() as int) == old(recs)@,
{
    let ghost r0 = rec_texts(recs@);
    assert(recs@.take(recs@.len() as int) =~= recs@);
    let mc = or_empty_chars(&instance.minecraft_version);
    let loader = or_empty_chars(&instance.loader_type);
    let needs_21 = text::starts_with_str(&mc, "1.20.5") || text::starts_with_str(&mc, "1.21")
        || text::starts_with_str(&mc, "1.22");
    let loader_s = text::string_of(loader.as_slice());
    let lower_s = text::lowercase(loader_s.as_str());
    let lower = text::chars_of_string(&lower_s);
    let neoforge = text::contains_str(&lower, "neoforge");
    if needs_21 || neoforge {
        let mut desc: Vec<char> = Vec::new();
        text::push_str(&mut desc, "Minecraft ");
        text::push_chars(&mut desc, &mc);
        text::push_str(&mut desc, " with ");
        text::push_chars(&mut desc, &loader);
        text::push_str(
            &mut desc,
            " requires Java 21. Using an older version will cause crashes or compatibility issues.",
        );
        let mut ev: Vec<char> = Vec::new();
        text::push_str(&mut ev, "MC version: ");
        text::push_chars(&mut ev, &mc);
        text::push_str(&mut ev, ", Loader: ");
        text::push_chars(&mut ev, &loader);
        let r = make_rec(
            (
                str_of("java_jvm"),
                str_of("warning"),
                str_of("high"),
                str_of("Ensure Java 21 is installed"),
                text_of(desc),
                text_of(ev),
                str_of("Required for game to run correctly"),
                str_of("none"),
                Some(str_of("open_link")),
                Some(str_of("https://adoptium.net/temurin/releases/?version=21")),
            ),
        );
        push_rec(recs, r);
    }
    assert(rec_texts(recs@) =~= r0 + java_version_recs(*instance));
}

// ---------------------------------------------------------------------------
// Mods
// ---------------------------------------------------------------------------

/// The advice to install each missing performance mod.
pub open spec fn perf_mod_recs(a: ModAnalysis) -> Seq<RecText> {
    Seq::new(
        a.missing_performance_mods@.len(),
        |i: int|
            {
                let m = a.missing_performance_mods@[i];
                RecText {
                    category: "modpack"@,
                    severity: "info"@,
                    confidence: m.confidence@,
                    title: m.mod_name@ + " is not installed"@,
                    description: m.reason@,
                    evidence: "Scanned "@ + text::dec(a.total_mods as nat) + " mods, "@ + m.mod_name@
                        + " not found in mod list"@,
                    expected_impact: m.expected_impact@,
                    risk_level: "low"@,
                    action_type: Some("open_link"@),
                    action_data: Some(m.url@),
                }
            },
    )
}

/// Adds the advice of `perf_mod_recs`.
pub fn generate_performance_mod_recommendations(analysis: &ModAnalysis, recs: &mut Vec<Recommendation>)
    ensures
        rec_texts(final(recs)@) == rec_texts(old(recs)@) + perf_mod_recs(*analysis),
        ids_are_uuids(old(recs)@) ==> ids_are_uuids(final(recs)@),
        final(recs)@.take(old(recs)@.len() as int) == old(recs)@,
{
    let ghost r0 = rec_texts(recs@);
    assert(recs@.take(recs@.len() as int) =~= recs@);
    let ghost want = perf_mod_recs(*analysis);
    let mut i: usize = 0;
    while i < analysis.missing_performance_mods.len()
        invariant
            i <= analysis.missing_performance_mods.len(),
            want == perf_mod_recs(*analysis),
            rec_texts(recs@) == r0 + want.take(i as int),
            ids_are_uuids(old(recs)@) ==> ids_are_uuids(recs@),
            old(recs)@.len() <= recs@.len(),
            recs@.take(old(recs)@.len() as int) == old(recs)@,
        decreases analysis.missing_performance_mods.len() - i,
    {
        let m = &analysis.missing_performance_mods[i];
        let mut title: Vec<char> = Vec::new();
        text::push_string(&mut title, &m.mod_name);
        text::push_str(&mut title, " is not installed");
        let mut ev: Vec<char> = Vec::new();
        text::push_str(&mut ev, "Scanned ");
        text::push_dec(&mut ev, analysis.total_mods as u64);
        text::push_str(&mut ev, " mods, ");
        text::push_string(&mut ev, &m.mod_name);
        text::push_str(&mut ev, " not found in mod list");
        let r = make_rec(
            (
                str_of("modpack"),
                str_of("info"),
                text::copy_string(&m.confidence),
                text_of(title),
                text::copy_string(&m.reason),
                text_of(ev),
                text::copy_string(&m.expected_impact),
                str_of("low"),
                Some(str_of("open_link")),
                Some(text::copy_string(&m.url)),
            ),
        );
        let ghost prev = recs@;
        push_rec(recs, r);
        assert(recs@.take(old(recs)@.len() as int) =~= prev.take(old(recs)@.len() as int));
        assert(want.take(i + 1) =~= want.take(i as int).push(want[i as int]));
        i = i + 1;
    }
    assert(want.take(analysis.missing_performance_mods.len() as int) =~= want);
}

/// A size in bytes as `{:.0}` prints it in MB (the quotient by 2^20 is exact).
pub open spec fn mb_text0(bytes: nat) -> Seq<char> {
    text::dec(div_round_even(bytes, 0x10_0000))
}

/// A size in bytes as `{:.1}` prints it in MB.
pub open spec fn mb_text1(bytes: nat) -> Seq<char> {
    let t = div_round_even(bytes * 10, 0x10_0000);
    text::dec(t / 10) + seq!['.', text::digit_char(t % 10)]
}

/// The advice for packs of more than 200 mods.
pub open spec fn mod_count_recs(a: ModAnalysis) -> Seq<RecText> {
    if a.total_mods > 200 {
        let n = text::dec(a.total_mods as nat);
        seq![
            RecText {
                category: "modpack"@,
                severity: "warning"@,
                confidence: "medium"@,
                title: "Heavy modpack detected ("@ + n + " mods)"@,
                description: "This instance has "@ + n + " mods totaling "@ + mb_text0(
                    a.total_size_bytes as nat,
                )
                    + " MB. Large modpacks require more RAM and may benefit from performance-focused JVM flags and performance mods."@,
                evidence: "Mod count: "@ + n + ", Total size: "@ + mb_text1(a.total_size_bytes as nat)
                    + " MB"@,
                expected_impact: "Awareness — plan RAM and settings accordingly"@,
                risk_level: "none"@,
                action_type: None,
                action_data: None,
            },
        ]
    } else {
        Seq::empty()
    }
}

fn digit_of(n: u64) -> (c: char)
    requires
        n < 10,
    ensures
        c == text::digit_char(n as nat),
{
    let mut v: Vec<char> = Vec::new();
    text::push_dec(&mut v, n);
    assert(text::dec(n as nat) == seq![text::digit_char(n as nat)]);
    v[0]
}

/// Adds the advice of `mod_count_recs`. The pack's size is below 2^53 bytes, so
/// that its conversion to `f64` is exact.
pub fn generate_mod_count_recommendation(analysis: &ModAnalysis, recs: &mut Vec<Recommendation>)
    requires
        analysis.total_size_bytes < 0x20_0000_0000_0000,
    ensures
        rec_texts(final(recs)@) == rec_texts(old(recs)@) + mod_count_recs(*analysis),
        ids_are_uuids(old(recs)@) ==> ids_are_uuids(final(recs)@),
        final(recs)@.take(old(recs)@.len() as int) == old(recs)@,
{
    let ghost r0 = rec_texts(recs@);
    assert(recs@.take(recs@.len() as int) =~= recs@);
    if analysis.total_mods > 200 {
        let n = analysis.total_mods as u64;
        let b = analysis.total_size_bytes;
        let mut title: Vec<char> = Vec::new();
        text::push_str(&mut title, "Heavy modpack detected (");
        text::push_dec(&mut title, n);
        text::push_str(&mut title, " mods)");
        let mut desc: Vec<char> = Vec::new();
        text::push_str(&mut desc, "This instance has ");
        text::push_dec(&mut desc, n);
        text::push_str(&mut desc, " mods totaling ");
        text::push_dec(&mut desc, div_round_even_u64(b, 0x10_0000));
        text::push_str(
            &mut desc,
            " MB. Large modpacks require more RAM and may benefit from performance-focused JVM flags and performance mods.",
        );
        let t = div_round_even_u64(b * 10, 0x10_0000);
        let mut ev: Vec<char> = Vec::new();
        text::push_str(&mut ev, "Mod count: ");
        text::push_dec(&mut ev, n);
        text::push_str(&mut ev, ", Total size: ");
        text::push_dec(&mut ev, t / 10);
        ev.push('.');
        ev.push(digit_of(t % 10));
        text::push_str(&mut ev, " MB");
        proof {
            reveal_strlit(" MB");
            assert(ev@ =~= "Mod count: "@ + text::dec(n as nat) + ", Total size: "@ + mb_text1(b as nat)
                + " MB"@);
        }
        let r = make_rec(
            (
                str_of("modpack"),
                str_of("warning"),
                str_of("medium"),
                text_of(title),
                text_of(desc),
                text_of(ev),
                str_of("Awareness — plan RAM and settings accordingly"),
                str_of("none"),
                None,
                None,
            ),
        );
        push_rec(recs, r);
    }
    assert(rec_texts(recs@) =~= r0 + mod_count_recs(*analysis));
}

/// All advice for an instance on a machine with `total_ram_mb` of memory:
/// memory, GC flags, Java version, then, with a mod analysis, performance mods
/// and pack size.
pub open spec fn all_recs(
    total_ram_mb: nat,
    inst: MinecraftInstance,
    analysis: Option<ModAnalysis>,
) -> Seq<RecText> {
    ram_recs(total_ram_mb, inst) + jvm_flag_recs(inst) + java_version_recs(inst) + match analysis {
        Some(a) => perf_mod_recs(a) + mod_count_recs(a),
        None => Seq::empty(),
    }
}

/// The advice for an instance, as `all_recs` lists it. The machine's memory is
/// below 2^53 MB and the mods' size below 2^53 bytes (exact in `f64`).
pub fn generate_recommendations(
    total_ram_mb: u64,
    instance: &MinecraftInstance,
    mod_analysis: Option<&ModAnalysis>,
) -> (r: Vec<Recommendation>)
    requires
        total_ram_mb < 0x20_0000_0000_0000,
        match mod_analysis {
            Some(a) => a.total_size_bytes < 0x20_0000_0000_0000,
            None => true,
        },
    ensures
        ids_are_uuids(r@),
        rec_texts(r@) == all_recs(
            total_ram_mb as nat,
            *instance,
            match mod_analysis {
                Some(a) => Some(*a),
                None => None,
            },
        ),
{
    let mut recs: Vec<Recommendation> = Vec::new();
    assert(rec_texts(recs@) =~= Seq::<RecText>::empty());
    generate_ram_recommendation(total_ram_mb, instance, &mut recs);
    generate_jvm_flag_recommendations(instance, &mut recs);
    generate_java_version_recommendation(instance, &mut recs);
    match mod_analysis {
        Some(a) => {
            generate_performance_mod_recommendations(a, &mut recs);
            generate_mod_count_recommendation(a, &mut recs);
        },
        None => {},
    }
    assert(rec_texts(recs@) =~= all_recs(
        total_ram_mb as nat,
        *instance,
        match mod_analysis {
            Some(a) => Some(*a),
            None => None,
        },
    ));
    recs
}

// ---------------------------------------------------------------------------
// Laws
// ---------------------------------------------------------------------------

/// More memory or more mods never lowers the recommended heap.
pub proof fn law_xmx_monotone(ram1: int, ram2: int, mods1: int, mods2: int)
    requires
        ram1 <= ram2,
        mods1 <= mods2,
    ensures
        xmx_for(ram1, mods1) <= xmx_for(ram2, mods2),
{
}

/// The recommended heap lies in the range that the RAM guidance gives for 8, 16,
/// 32 and 64 GB of memory (5-6, 8-10, 10-12 and 12-16 GB), whatever the pack.
pub proof fn law_xmx_within_ram_guidance(mod_count: int)
    ensures
        5120 <= xmx_for(8192, mod_count) <= 6144,
        8192 <= xmx_for(16384, mod_count) <= 10240,
        10240 <= xmx_for(32768, mod_count) <= 12288,
        12288 <= xmx_for(65536, mod_count) <= 16384,
{
}

/// The risk levels a recommendation may state.
pub open spec fn risk_word(r: Seq<char>) -> bool {
    r == "none"@ || r == "low"@ || r == "medium"@ || r == "high"@
}

/// The confidence levels a recommendation may state.
pub open spec fn confidence_word(c: Seq<char>) -> bool {
    c == "low"@ || c == "medium"@ || c == "high"@
}

/// A piece of advice that has a title, states its evidence, a risk level of
/// the recommendation contract, and its category.
pub open spec fn explained(r: RecText) -> bool {
    &&& r.title.len() > 0
    &&& r.evidence.len() > 0
    &&& risk_word(r.risk_level)
    &&& (r.category == "java_jvm"@ || r.category == "modpack"@)
}

/// Every piece of advice has a title, states its evidence and one of the risk
/// levels `none`, `low`, `medium`, `high`, and is about Java or about the mod
/// pack.
pub proof fn law_advice_is_explained(total_ram_mb: nat, inst: MinecraftInstance, analysis: Option<ModAnalysis>)
    ensures
        forall|i: int| 0 <= i < all_recs(total_ram_mb, inst, analysis).len() ==> explained(
            #[trigger] all_recs(total_ram_mb, inst, analysis)[i],
        ),
{
    reveal_strlit("System RAM: ");
    reveal_strlit("low");
    reveal_strlit("none");
    reveal_strlit("Current JVM args: '");
    reveal_strlit("MC version: ");
    reveal_strlit("Scanned ");
    reveal_strlit("Mod count: ");
    reveal_strlit(" MB");
    reveal_strlit("Add optimized GC flags for Minecraft");
    reveal_strlit("Ensure Java 21 is installed");
    reveal_strlit(" is not installed");
    reveal_strlit(" mods)");
    let all = all_recs(total_ram_mb, inst, analysis);
    let a = ram_recs(total_ram_mb, inst);
    let b = jvm_flag_recs(inst);
    let c = java_version_recs(inst);
    assert forall|i: int| 0 <= i < all.len() implies explained(#[trigger] all[i]) by {
        if i < a.len() {
            assert(all[i] == a[i]);
        } else if i < a.len() + b.len() {
            assert(all[i] == b[i - a.len()]);
        } else if i < a.len() + b.len() + c.len() {
            assert(all[i] == c[i - a.len() - b.len()]);
        } else {
            match analysis {
                Some(an) => {
                    let p = perf_mod_recs(an);
                    let q = mod_count_recs(an);
                    let k = i - a.len() - b.len() - c.len();
                    if k < p.len() {
                        assert(all[i] == p[k]);
                    } else {
                        assert(all[i] == q[k - p.len()]);
                    }
                },
                None => {},
            }
        }
    }
}

/// Whether the advice holds a Java recommendation with the title `title`.
pub open spec fn has_java_rec_titled(recs: Seq<RecText>, title: Seq<char>) -> bool {
    exists|i: int| 0 <= i < recs.len() && (#[trigger] recs[i]).title == title && recs[i].category == "java_jvm"@
}

/// Minecraft 1.20.5 and later (versions starting with `1.20.5`, `1.21` or
/// `1.22`) and NeoForge (a loader name that, lower-cased, contains `neoforge`)
/// need Java 21: for such an instance, whatever its loader, memory and mods,
/// the advice asks to make sure Java 21 is installed; for any other it does
/// not.
pub proof fn law_java_21_advised(total_ram_mb: nat, inst: MinecraftInstance, analysis: Option<ModAnalysis>)
    ensures
        ({
            let needs = inst.minecraft_version matches Some(v) && (text::is_prefix("1.20.5"@, v@)
                || text::is_prefix("1.21"@, v@) || text::is_prefix("1.22"@, v@));
            let neoforge = text::contains(text::spec_lowercase(or_empty(inst.loader_type)), "neoforge"@);
            &&& needs ==> has_java_rec_titled(all_recs(total_ram_mb, inst, analysis), "Ensure Java 21 is installed"@)
            &&& neoforge ==> has_java_rec_titled(all_recs(total_ram_mb, inst, analysis), "Ensure Java 21 is installed"@)
            &&& !needs && !neoforge ==> java_version_recs(inst).len() == 0
        }),
{
    reveal_strlit("1.20.5");
    reveal_strlit("1.21");
    reveal_strlit("1.22");
    let a = ram_recs(total_ram_mb, inst);
    let b = jvm_flag_recs(inst);
    let c = java_version_recs(inst);
    let rest = match analysis {
        Some(an) => perf_mod_recs(an) + mod_count_recs(an),
        None => Seq::<RecText>::empty(),
    };
    let all = all_recs(total_ram_mb, inst, analysis);
    assert(all == a + b + c + rest);
    if c.len() > 0 {
        assert(all[(a.len() + b.len()) as int] == c[0]);
    }
}

/// Every piece of advice states one of the confidence levels `low`, `medium`,
/// `high`, given that the missing performance mods of the analysis do.
pub proof fn law_advice_confidence_is_graded(
    total_ram_mb: nat,
    inst: MinecraftInstance,
    analysis: Option<ModAnalysis>,
)
    requires
        analysis matches Some(a) ==> forall|k: int|
            0 <= k < a.missing_performance_mods@.len() ==> confidence_word(
                (#[trigger] a.missing_performance_mods@[k]).confidence@,
            ),
    ensures
        forall|i: int| 0 <= i < all_recs(total_ram_mb, inst, analysis).len() ==> confidence_word(
            (#[trigger] all_recs(total_ram_mb, inst, analysis)[i]).confidence,
        ),
{
    let all = all_recs(total_ram_mb, inst, analysis);
    let a = ram_recs(total_ram_mb, inst);
    let b = jvm_flag_recs(inst);
    let c = java_version_recs(inst);
    assert forall|i: int| 0 <= i < all.len() implies confidence_word(#[trigger] all[i].confidence) by {
        if i < a.len() {
            assert(all[i] == a[i]);
        } else if i < a.len() + b.len() {
            assert(all[i] == b[i - a.len()]);
        } else if i < a.len() + b.len() + c.len() {
            assert(all[i] == c[i - a.len() - b.len()]);
        } else {
            match analysis {
                Some(an) => {
                    let p = perf_mod_recs(an);
                    let q = mod_count_recs(an);
                    let k = i - a.len() - b.len() - c.len();
                    if k < p.len() {
                        assert(all[i] == p[k]);
                        assert(confidence_word(an.missing_performance_mods@[k].confidence@));
                    } else {
                        assert(all[i] == q[k - p.len()]);
                    }
                },
                None => {},
            }
        }
    }
}

// ---------------------------------------------------------------------------
// Recommendation status
// ---------------------------------------------------------------------------

/// The states a recommendation can be put in.
pub open spec fn recommendation_statuses() -> Seq<Seq<char>> {
    seq![
        "new"@,
        "accepted"@,
        "applied"@,
        "ignored_once"@,
        "ignored_always"@,
        "deferred"@,
        "rolled_back"@,
        "failed"@,
    ]
}

/// Whether a recommendation may be put in `status`: `Ok` for one of the known
/// states, else the error `Invalid status: <status>`.
pub fn check_recommendation_status(status: &str) -> (r: Result<(), String>)
    ensures
        r is Ok <==> recommendation_statuses().contains(status@),
        r matches Err(e) ==> e@ == "Invalid status: "@ + status@,
{
    let names: Vec<&str> = vec![
        "new",
        "accepted",
        "applied",
        "ignored_once",
        "ignored_always",
        "deferred",
        "rolled_back",
        "failed",
    ];
    let known = text::strings_of(&names);
    proof {
        reveal_strlit("new");
        reveal_strlit("accepted");
        reveal_strlit("applied");
        reveal_strlit("ignored_once");
        reveal_strlit("ignored_always");
        reveal_strlit("deferred");
        reveal_strlit("rolled_back");
        reveal_strlit("failed");
        assert(text::str_views(names@) =~= recommendation_statuses());
    }
    let cs = text::chars_of(status);
    if text::contains_string(&known, &cs) {
        Ok(())
    } else {
        let mut m: Vec<char> = Vec::new();
        text::push_str(&mut m, "Invalid status: ");
        text::push_str(&mut m, status);
        Err(text::string_of(m.as_slice()))
    }
}

} // verus!
