//! Crash diagnosis for a Minecraft instance: what the newest crash report, the
//! tail of `latest.log` and a JVM `hs_err_pid*.log` say went wrong, and what to do.
use vstd::prelude::*;
use crate::text;
use crate::clock;

verus! {

/// The verdict on an instance's recent crashes.
#[derive(Debug, Clone)]
pub struct CrashDiagnosis {
    pub crash_detected: bool,
    pub crash_type: Option<String>,
    pub summary: String,
    pub details: Vec<String>,
    pub recommendations: Vec<CrashRecommendation>,
    pub crash_file: Option<String>,
    pub timestamp: Option<String>,
}

/// One remedy for a diagnosed crash.
#[derive(Debug, Clone)]
pub struct CrashRecommendation {
    pub title: String,
    pub description: String,
    pub action: String,
    pub priority: String,
}

/// A recommendation as its four texts: title, description, action, priority.
pub type RecText = (Seq<char>, Seq<char>, Seq<char>, Seq<char>);

/// The texts of a recommendation.
pub open spec fn rec_view(r: CrashRecommendation) -> RecText {
    (r.title@, r.description@, r.action@, r.priority@)
}

/// The texts of a sequence of recommendations.
pub open spec fn recs_view(v: Seq<CrashRecommendation>) -> Seq<RecText> {
    Seq::new(v.len(), |i: int| rec_view(v[i]))
}

/// The text view of an optional string.
pub open spec fn opt_view(o: Option<String>) -> Option<Seq<char>> {
    match o {
        Some(s) => Some(s@),
        None => None,
    }
}

/// `s` when `c` holds, else nothing.
pub open spec fn when<A>(c: bool, s: Seq<A>) -> Seq<A> {
    if c {
        s
    } else {
        Seq::empty()
    }
}

// ---------------------------------------------------------------------------
// What the lower-cased crash text reveals
// ---------------------------------------------------------------------------

pub open spec fn out_of_memory(t: Seq<char>) -> bool {
    text::contains(t, "outofmemoryerror"@) || text::contains(t, "insufficient memory"@)
}

pub open spec fn metaspace(t: Seq<char>) -> bool {
    out_of_memory(t) && text::contains(t, "metaspace"@)
}

pub open spec fn paging_exhausted(t: Seq<char>) -> bool {
    text::contains(t, "paging file"@) || text::contains(t, "pagefile"@) || text::contains(
        t,
        "commit limit"@,
    )
}

pub open spec fn gc_overhead(t: Seq<char>) -> bool {
    text::contains(t, "gc overhead limit"@)
}

pub open spec fn mixin_conflict(t: Seq<char>) -> bool {
    text::contains(t, "mixin"@) && text::contains(t, "conflict"@)
}

pub open spec fn missing_dependency(t: Seq<char>) -> bool {
    text::contains(t, "mod"@) && (text::contains(t, "requires"@) || text::contains(t, "missing"@)
        || text::contains(t, "not found"@))
}

pub open spec fn access_violation(t: Seq<char>) -> bool {
    text::contains(t, "exception_access_violation"@)
}

/// The crash type: a paging-file failure wins, else the first of out of memory,
/// GC overhead, mod conflict, missing dependency and access violation that applies.
pub open spec fn crash_type_of(t: Seq<char>) -> Option<Seq<char>> {
    if paging_exhausted(t) {
        Some("Paging File Exhausted"@)
    } else if out_of_memory(t) {
        Some("Out of Memory"@)
    } else if gc_overhead(t) {
        Some("GC Overhead"@)
    } else if mixin_conflict(t) {
        Some("Mod Conflict"@)
    } else if missing_dependency(t) {
        Some("Missing Dependency"@)
    } else if access_violation(t) {
        Some("Access Violation"@)
    } else {
        None
    }
}

pub open spec fn rec_increase_ram() -> RecText {
    (
        "Increase RAM allocation"@,
        "Your modpack needs more RAM than currently allocated. Increase Xmx in JVM settings."@,
        "apply_jvm"@,
        "critical"@,
    )
}

pub open spec fn rec_metaspace() -> RecText {
    (
        "Increase Metaspace"@,
        "Add -XX:MaxMetaspaceSize=512m to JVM arguments."@,
        "apply_jvm"@,
        "high"@,
    )
}

pub open spec fn rec_free_disk() -> RecText {
    (
        "Free disk space on C: drive"@,
        "The paging file needs room to expand. Clear temporary files or move large applications to another drive."@,
        "disk_cleanup"@,
        "critical"@,
    )
}

pub open spec fn rec_move_instance() -> RecText {
    (
        "Move instance to a drive with more space"@,
        "If your Minecraft instance is on a nearly full drive, moving it to a drive with more free space prevents paging file issues."@,
        "migrate_instance"@,
        "high"@,
    )
}

pub open spec fn rec_paging_size() -> RecText {
    (
        "Increase paging file size"@,
        "Open System Properties > Advanced > Performance Settings > Advanced > Virtual Memory. Set a custom paging file on a drive with space (e.g., D:)."@,
        "open_settings"@,
        "high"@,
    )
}

pub open spec fn rec_gc() -> RecText {
    (
        "Increase RAM and optimize GC flags"@,
        "Increase Xmx by 2-4 GB and ensure G1GC is enabled with tuned parameters."@,
        "apply_jvm"@,
        "high"@,
    )
}

pub open spec fn rec_conflicts() -> RecText {
    (
        "Check for incompatible mods"@,
        "Run mod analysis to detect known conflicts. Try removing recently added mods."@,
        "analyze_mods"@,
        "high"@,
    )
}

pub open spec fn rec_dependencies() -> RecText {
    (
        "Check mod dependencies"@,
        "A required library or dependency mod is missing. Check the crash report for the specific mod name."@,
        "analyze_mods"@,
        "high"@,
    )
}

pub open spec fn rec_gpu() -> RecText {
    (
        "Update GPU drivers"@,
        "Access violations are often caused by outdated GPU drivers. Update to the latest version."@,
        "open_link"@,
        "high"@,
    )
}

/// The recommendations for the crash text `t`, in the order the checks run.
pub open spec fn expected_recommendations(t: Seq<char>) -> Seq<RecText> {
    when(out_of_memory(t), seq![rec_increase_ram()]) + when(metaspace(t), seq![rec_metaspace()])
        + when(
        paging_exhausted(t),
        seq![rec_free_disk(), rec_move_instance(), rec_paging_size()],
    ) + when(gc_overhead(t), seq![rec_gc()]) + when(mixin_conflict(t), seq![rec_conflicts()])
        + when(missing_dependency(t), seq![rec_dependencies()]) + when(
        access_violation(t),
        seq![rec_gpu()],
    )
}

/// The explanations for the crash text `t`, in the order the checks run.
pub open spec fn condition_details(t: Seq<char>) -> Seq<Seq<char>> {
    when(out_of_memory(t), seq!["Java ran out of memory (OutOfMemoryError)."@]) + when(
        metaspace(t),
        seq!["Specifically ran out of Metaspace (class loading area)."@],
    ) + when(
        paging_exhausted(t),
        seq![
            "Windows virtual memory (paging file) is too small or the disk it lives on is full."@,
        ],
    ) + when(
        gc_overhead(t),
        seq!["Java spent too much time garbage collecting. The heap is nearly full."@],
    ) + when(
        mixin_conflict(t),
        seq![
            "A mixin conflict between mods was detected. Two mods are trying to modify the same game code."@,
        ],
    ) + when(missing_dependency(t), seq!["A mod is missing a required dependency."@]) + when(
        access_violation(t),
        seq![
            "A native code crash occurred (EXCEPTION_ACCESS_VIOLATION). This can be caused by GPU drivers, bad JVM, or native mod libraries."@,
        ],
    )
}

// ---------------------------------------------------------------------------
// The 50-byte prefix of a log line
// ---------------------------------------------------------------------------

/// The number of bytes of `c` in UTF-8 (`char::len_utf8`).
pub open spec fn utf8_width(c: char) -> int {
    if (c as u32) < 0x80 {
        1
    } else if (c as u32) < 0x800 {
        2
    } else if (c as u32) < 0x10000 {
        3
    } else {
        4
    }
}

/// How many leading characters of `s` fit into `budget` bytes of UTF-8.
pub open spec fn prefix_chars(s: Seq<char>, budget: int) -> nat
    decreases s.len(),
{
    if s.len() == 0 || utf8_width(s[0]) > budget {
        0
    } else {
        1 + prefix_chars(s.drop_first(), budget - utf8_width(s[0]))
    }
}

/// How many bytes those leading characters take.
pub open spec fn prefix_bytes(s: Seq<char>, budget: int) -> int
    decreases s.len(),
{
    if s.len() == 0 || utf8_width(s[0]) > budget {
        0
    } else {
        utf8_width(s[0]) + prefix_bytes(s.drop_first(), budget - utf8_width(s[0]))
    }
}

/// The first 50 bytes of a log line, or the whole line when it is shorter.
pub open spec fn byte_prefix(s: Seq<char>) -> Seq<char> {
    s.take(prefix_chars(s, 50) as int)
}

/// Cutting `s` after `min(len, 50)` bytes lands between two characters: either the
/// whole line fits into 50 bytes, or a prefix of it takes exactly 50.
pub open spec fn prefix_on_boundary(s: Seq<char>) -> bool {
    prefix_chars(s, 50) == s.len() || prefix_bytes(s, 50) == 50
}

/// The details after the log lines are added: each line in turn, unless a detail
/// already there contains its first 50 bytes.
pub open spec fn with_log_details(ds: Seq<Seq<char>>, errs: Seq<Seq<char>>) -> Seq<Seq<char>>
    decreases errs.len(),
{
    if errs.len() == 0 {
        ds
    } else {
        let prev = with_log_details(ds, errs.drop_last());
        if text::some_contains(prev, byte_prefix(errs.last())) {
            prev
        } else {
            prev.push(errs.last())
        }
    }
}

/// The text that is searched: crash report, log lines joined by spaces and the
/// JVM log, separated by spaces and lower-cased.
pub open spec fn diagnosis_text(
    report: Option<(String, String)>,
    errs: Seq<Seq<char>>,
    jvm: Option<String>,
) -> Seq<char> {
    text::spec_lowercase(
        report_text(report) + " "@ + text::join(errs, " "@) + " "@ + jvm_text(jvm),
    )
}

/// The text of the crash report, empty when there is none.
pub open spec fn report_text(report: Option<(String, String)>) -> Seq<char> {
    match report {
        Some(p) => p.1@,
        None => Seq::empty(),
    }
}

/// The text of the JVM crash log, empty when there is none.
pub open spec fn jvm_text(jvm: Option<String>) -> Seq<char> {
    match jvm {
        Some(s) => s@,
        None => Seq::empty(),
    }
}

/// The one-line summary.
pub open spec fn summary_text(crash_type: Option<Seq<char>>, n_errors: nat) -> Seq<char> {
    match crash_type {
        Some(ct) => "Crash detected: "@ + ct,
        None => if n_errors > 0 {
            text::dec(n_errors) + " error(s) found in game log"@
        } else {
            "No crashes or errors detected."@
        },
    }
}

fn char_width(c: char) -> (w: usize)
    ensures
        w == utf8_width(c),
{
    let n = c as u32;
    if n < 0x80 {
        1
    } else if n < 0x800 {
        2
    } else if n < 0x10000 {
        3
    } else {
        4
    }
}

/// The number of characters and bytes of the longest prefix of `s` within `budget` bytes.
fn prefix_len(s: &Vec<char>, budget: usize) -> (r: (usize, usize))
    ensures
        r.0 == prefix_chars(s@, budget as int),
        r.1 == prefix_bytes(s@, budget as int),
        r.0 <= s.len(),
{
    let mut i: usize = 0;
    let mut used: usize = 0;
    assert(s@.skip(0) == s@);
    while i < s.len() && char_width(s[i]) <= budget - used
        invariant
            i <= s.len(),
            used <= budget,
            prefix_chars(s@, budget as int) == i + prefix_chars(s@.skip(i as int), budget - used),
            prefix_bytes(s@, budget as int) == used + prefix_bytes(
                s@.skip(i as int),
                budget - used,
            ),
        decreases s.len() - i,
    {
        let w = char_width(s[i]);
        assert(s@.skip(i as int)[0] == s@[i as int]);
        assert(s@.skip(i as int).drop_first() == s@.skip(i + 1));
        used = used + w;
        i = i + 1;
    }
    if i < s.len() {
        assert(s@.skip(i as int)[0] == s@[i as int]);
    } else {
        assert(s@.skip(i as int).len() == 0);
    }
    (i, used)
}

/// Whether slicing `line` after `min(len, 50)` bytes stays on a character boundary.
pub fn error_prefix_on_boundary(line: &str) -> (r: bool)
    ensures
        r == prefix_on_boundary(line@),
{
    let cs = text::chars_of(line);
    let (k, b) = prefix_len(&cs, 50);
    k == cs.len() || b == 50
}

fn make_rec(title: &str, description: &str, action: &str, priority: &str) -> (r:
    CrashRecommendation)
    ensures
        rec_view(r) == (title@, description@, action@, priority@),
{
    CrashRecommendation {
        title: text::to_string(title),
        description: text::to_string(description),
        action: text::to_string(action),
        priority: text::to_string(priority),
    }
}

fn push_rec(v: &mut Vec<CrashRecommendation>, r: CrashRecommendation)
    ensures
        recs_view(final(v)@) == recs_view(old(v)@).push(rec_view(r)),
{
    v.push(r);
    assert(recs_view(v@) =~= recs_view(old(v)@).push(rec_view(r)));
}

fn push_detail(v: &mut Vec<String>, s: &str)
    ensures
        text::sviews(final(v)@) == text::sviews(old(v)@).push(s@),
{
    v.push(text::to_string(s));
    assert(text::sviews(v@) =~= text::sviews(old(v)@).push(s@));
}

fn opt_string(s: &str) -> (r: Option<String>)
    ensures
        opt_view(r) == Some(s@),
{
    Some(text::to_string(s))
}

/// The lower-cased search text of `diagnosis_text`.
fn crash_text(
    crash_report: &Option<(String, String)>,
    log_errors: &Vec<String>,
    jvm_crash: &Option<String>,
) -> (t: Vec<char>)
    ensures
        t@ == diagnosis_text(*crash_report, text::sviews(log_errors@), *jvm_crash),
{
    let mut all: Vec<char> = Vec::new();
    match crash_report {
        Some(p) => text::push_string(&mut all, &p.1),
        None => {},
    }
    all.push(' ');
    let joined = text::join_strings(log_errors, " ");
    text::push_chars(&mut all, &joined);
    all.push(' ');
    match jvm_crash {
        Some(s) => text::push_string(&mut all, s),
        None => {},
    }
    proof {
        assert(all@ =~= report_text(*crash_report) + " "@ + text::join(
            text::sviews(log_errors@),
            " "@,
        ) + " "@ + jvm_text(*jvm_crash)) by {
            reveal_strlit(" ");
        }
    }
    let all_s = text::string_of(all.as_slice());
    let lower = text::lowercase(all_s.as_str());
    text::chars_of_string(&lower)
}

/// The crash type that `crash_type_of` gives for `t`.
fn crash_type_for(t: &Vec<char>) -> (r: Option<String>)
    ensures
        opt_view(r) == crash_type_of(t@),
{
    if text::contains_str(t, "paging file") || text::contains_str(t, "pagefile")
        || text::contains_str(t, "commit limit") {
        opt_string("Paging File Exhausted")
    } else if text::contains_str(t, "outofmemoryerror") || text::contains_str(
        t,
        "insufficient memory",
    ) {
        opt_string("Out of Memory")
    } else if text::contains_str(t, "gc overhead limit") {
        opt_string("GC Overhead")
    } else if text::contains_str(t, "mixin") && text::contains_str(t, "conflict") {
        opt_string("Mod Conflict")
    } else if text::contains_str(t, "mod") && (text::contains_str(t, "requires")
        || text::contains_str(t, "missing") || text::contains_str(t, "not found")) {
        opt_string("Missing Dependency")
    } else if text::contains_str(t, "exception_access_violation") {
        opt_string("Access Violation")
    } else {
        None
    }
}

fn add_memory_findings(t: &Vec<char>, recs: &mut Vec<CrashRecommendation>, details: &mut Vec<String>)
    ensures
        recs_view(final(recs)@) == recs_view(old(recs)@) + when(
            out_of_memory(t@),
            seq![rec_increase_ram()],
        ) + when(metaspace(t@), seq![rec_metaspace()]),
        text::sviews(final(details)@) == text::sviews(old(details)@) + when(
            out_of_memory(t@),
            seq!["Java ran out of memory (OutOfMemoryError)."@],
        ) + when(metaspace(t@), seq!["Specifically ran out of Metaspace (class loading area)."@]),
{
    let ghost r0 = recs_view(recs@);
    let ghost d0 = text::sviews(details@);
    let oom = text::contains_str(t, "outofmemoryerror") || text::contains_str(
        t,
        "insufficient memory",
    );
    if oom {
        push_detail(details, "Java ran out of memory (OutOfMemoryError).");
        push_rec(
            recs,
            make_rec(
                "Increase RAM allocation",
                "Your modpack needs more RAM than currently allocated. Increase Xmx in JVM settings.",
                "apply_jvm",
                "critical",
            ),
        );
        if text::contains_str(t, "metaspace") {
            push_detail(details, "Specifically ran out of Metaspace (class loading area).");
            push_rec(
                recs,
                make_rec(
                    "Increase Metaspace",
                    "Add -XX:MaxMetaspaceSize=512m to JVM arguments.",
                    "apply_jvm",
                    "high",
                ),
            );
        }
    }
    assert(recs_view(recs@) =~= r0 + when(out_of_memory(t@), seq![rec_increase_ram()]) + when(
        metaspace(t@),
        seq![rec_metaspace()],
    ));
    assert(text::sviews(details@) =~= d0 + when(
        out_of_memory(t@),
        seq!["Java ran out of memory (OutOfMemoryError)."@],
    ) + when(metaspace(t@), seq!["Specifically ran out of Metaspace (class loading area)."@]));
}

fn add_paging_findings(t: &Vec<char>, recs: &mut Vec<CrashRecommendation>, details: &mut Vec<String>)
    ensures
        recs_view(final(recs)@) == recs_view(old(recs)@) + when(
            paging_exhausted(t@),
            seq![rec_free_disk(), rec_move_instance(), rec_paging_size()],
        ),
        text::sviews(final(details)@) == text::sviews(old(details)@) + when(
            paging_exhausted(t@),
            seq![
                "Windows virtual memory (paging file) is too small or the disk it lives on is full."@,
            ],
        ),
{
    let ghost r0 = recs_view(recs@);
    let ghost d0 = text::sviews(details@);
    if text::contains_str(t, "paging file") || text::contains_str(t, "pagefile")
        || text::contains_str(t, "commit limit") {
        push_detail(
            details,
            "Windows virtual memory (paging file) is too small or the disk it lives on is full.",
        );
        push_rec(
            recs,
            make_rec(
                "Free disk space on C: drive",
                "The paging file needs room to expand. Clear temporary files or move large applications to another drive.",
                "disk_cleanup",
                "critical",
            ),
        );
        push_rec(
            recs,
            make_rec(
                "Move instance to a drive with more space",
                "If your Minecraft instance is on a nearly full drive, moving it to a drive with more free space prevents paging file issues.",
                "migrate_instance",
                "high",
            ),
        );
        push_rec(
            recs,
            make_rec(
                "Increase paging file size",
                "Open System Properties > Advanced > Performance Settings > Advanced > Virtual Memory. Set a custom paging file on a drive with space (e.g., D:).",
                "open_settings",
                "high",
            ),
        );
    }
    assert(recs_view(recs@) =~= r0 + when(
        paging_exhausted(t@),
        seq![rec_free_disk(), rec_move_instance(), rec_paging_size()],
    ));
    assert(text::sviews(details@) =~= d0 + when(
        paging_exhausted(t@),
        seq![
            "Windows virtual memory (paging file) is too small or the disk it lives on is full."@,
        ],
    ));
}

/// Adds one finding (its explanation and its recommendation) when `found` holds.
fn add_finding(
    found: bool,
    recs: &mut Vec<CrashRecommendation>,
    details: &mut Vec<String>,
    detail: &str,
    rec: CrashRecommendation,
)
    ensures
        recs_view(final(recs)@) == recs_view(old(recs)@) + when(found, seq![rec_view(rec)]),
        text::sviews(final(details)@) == text::sviews(old(details)@) + when(found, seq![detail@]),
{
    let ghost r0 = recs_view(recs@);
    let ghost d0 = text::sviews(details@);
    let ghost rv = rec_view(rec);
    if found {
        push_detail(details, detail);
        push_rec(recs, rec);
    }
    assert(recs_view(recs@) =~= r0 + when(found, seq![rv]));
    assert(text::sviews(details@) =~= d0 + when(found, seq![detail@]));
}

/// Classifies an already lower-cased crash text: the crash type, the
/// explanations and the recommendations it calls for.
pub fn classify_lowered_crash_text(lower: &str) -> (r: (Option<String>, Vec<String>, Vec<CrashRecommendation>))
    ensures
        opt_view(r.0) == crash_type_of(lower@),
        text::sviews(r.1@) == condition_details(lower@),
        recs_view(r.2@) == expected_recommendations(lower@),
{
    let t = text::chars_of(lower);
    let crash_type = crash_type_for(&t);
    let (details, recs) = condition_findings(&t);
    (crash_type, details, recs)
}

/// The explanations and recommendations that the crash text `t` calls for.
fn condition_findings(t: &Vec<char>) -> (r: (Vec<String>, Vec<CrashRecommendation>))
    ensures
        text::sviews(r.0@) == condition_details(t@),
        recs_view(r.1@) == expected_recommendations(t@),
{
    let mut recs: Vec<CrashRecommendation> = Vec::new();
    let mut details: Vec<String> = Vec::new();
    assert(recs_view(recs@) =~= Seq::<RecText>::empty());
    assert(text::sviews(details@) =~= Seq::<Seq<char>>::empty());
    add_memory_findings(t, &mut recs, &mut details);
    add_paging_findings(t, &mut recs, &mut details);
    let gc = text::contains_str(t, "gc overhead limit");
    add_finding(
        gc,
        &mut recs,
        &mut details,
        "Java spent too much time garbage collecting. The heap is nearly full.",
        make_rec(
            "Increase RAM and optimize GC flags",
            "Increase Xmx by 2-4 GB and ensure G1GC is enabled with tuned parameters.",
            "apply_jvm",
            "high",
        ),
    );
    let mixin = text::contains_str(t, "mixin") && text::contains_str(t, "conflict");
    add_finding(
        mixin,
        &mut recs,
        &mut details,
        "A mixin conflict between mods was detected. Two mods are trying to modify the same game code.",
        make_rec(
            "Check for incompatible mods",
            "Run mod analysis to detect known conflicts. Try removing recently added mods.",
            "analyze_mods",
            "high",
        ),
    );
    let missing = text::contains_str(t, "mod") && (text::contains_str(t, "requires")
        || text::contains_str(t, "missing") || text::contains_str(t, "not found"));
    add_finding(
        missing,
        &mut recs,
        &mut details,
        "A mod is missing a required dependency.",
        make_rec(
            "Check mod dependencies",
            "A required library or dependency mod is missing. Check the crash report for the specific mod name.",
            "analyze_mods",
            "high",
        ),
    );
    let av = text::contains_str(t, "exception_access_violation");
    add_finding(
        av,
        &mut recs,
        &mut details,
        "A native code crash occurred (EXCEPTION_ACCESS_VIOLATION). This can be caused by GPU drivers, bad JVM, or native mod libraries.",
        make_rec(
            "Update GPU drivers",
            "Access violations are often caused by outdated GPU drivers. Update to the latest version.",
            "open_link",
            "high",
        ),
    );
    (details, recs)
}

/// Adds each log line to the details unless one already contains its first 50 bytes.
fn add_log_details(details: &mut Vec<String>, log_errors: &Vec<String>)
    ensures
        text::sviews(final(details)@) == with_log_details(
            text::sviews(old(details)@),
            text::sviews(log_errors@),
        ),
{
    let ghost base = text::sviews(details@);
    let ghost errs = text::sviews(log_errors@);
    let mut i: usize = 0;
    assert(errs.take(0) == Seq::<Seq<char>>::empty());
    while i < log_errors.len()
        invariant
            i <= log_errors.len(),
            errs == text::sviews(log_errors@),
            text::sviews(details@) == with_log_details(base, errs.take(i as int)),
        decreases log_errors.len() - i,
    {
        let e = text::chars_of_string(&log_errors[i]);
        let (k, _b) = prefix_len(&e, 50);
        let prefix = text::slice_to_vec(&e, 0, k);
        assert(errs.take(i + 1).drop_last() == errs.take(i as int));
        assert(errs.take(i + 1).last() == log_errors@[i as int]@);
        assert(prefix@ == byte_prefix(log_errors@[i as int]@));
        if !text::any_contains(details, &prefix) {
            let ghost before = text::sviews(details@);
            details.push(text::copy_string(&log_errors[i]));
            assert(text::sviews(details@) =~= before.push(log_errors@[i as int]@));
        }
        i = i + 1;
    }
    assert(errs.take(log_errors.len() as int) == errs);
}

fn summary_for(crash_type: &Option<String>, n_errors: usize) -> (r: String)
    ensures
        r@ == summary_text(opt_view(*crash_type), n_errors as nat),
{
    match crash_type {
        Some(ct) => {
            let mut m: Vec<char> = Vec::new();
            text::push_str(&mut m, "Crash detected: ");
            text::push_string(&mut m, ct);
            text::string_of(m.as_slice())
        },
        None => if n_errors > 0 {
            let mut m: Vec<char> = Vec::new();
            text::push_dec(&mut m, n_errors as u64);
            text::push_str(&mut m, " error(s) found in game log");
            text::string_of(m.as_slice())
        } else {
            text::to_string("No crashes or errors detected.")
        },
    }
}

/// Puts together the diagnosis from the newest crash report (file name and text),
/// the error lines found in the game log, and the head of a JVM crash log.
/// The whole text is lower-cased and searched for the known failure signatures;
/// each log line is then added to the details unless a detail already contains
/// its first 50 bytes. Cutting a line after 50 bytes must not split a character.
pub fn build_diagnosis(
    crash_report: Option<(String, String)>,
    log_errors: Vec<String>,
    jvm_crash: Option<String>,
) -> (d: CrashDiagnosis)
    requires
        forall|i: int| 0 <= i < log_errors.len() ==> prefix_on_boundary(#[trigger] log_errors@[i]@),
    ensures
        ({
            let t = diagnosis_text(crash_report, text::sviews(log_errors@), jvm_crash);
            &&& opt_view(d.crash_type) == crash_type_of(t)
            &&& recs_view(d.recommendations@) == expected_recommendations(t)
            &&& text::sviews(d.details@) == with_log_details(
                condition_details(t),
                text::sviews(log_errors@),
            )
            &&& d.crash_detected == (crash_type_of(t) is Some || log_errors.len() > 0)
            &&& d.summary@ == summary_text(crash_type_of(t), log_errors.len() as nat)
            &&& opt_view(d.crash_file) == match crash_report {
                Some(p) => Some(p.0@),
                None => None::<Seq<char>>,
            }
            &&& d.timestamp matches Some(ts) && text::is_suffix("+00:00"@, ts@)
        }),
{
    let t = crash_text(&crash_report, &log_errors, &jvm_crash);
    let crash_type = crash_type_for(&t);
    let (mut details, recommendations) = condition_findings(&t);
    add_log_details(&mut details, &log_errors);
    let summary = summary_for(&crash_type, log_errors.len());
    let crash_file = match &crash_report {
        Some(p) => Some(text::copy_string(&p.0)),
        None => None,
    };
    let crash_detected = crash_type.is_some() || log_errors.len() > 0;
    CrashDiagnosis {
        crash_detected,
        crash_type,
        summary,
        details,
        recommendations,
        crash_file,
        timestamp: Some(clock::now_rfc3339()),
    }
}

// ---------------------------------------------------------------------------
// Reading the game log and the JVM crash log
// ---------------------------------------------------------------------------

/// A lower-cased log line that reports a crash-related error.
pub open spec fn is_error_line(lower: Seq<char>) -> bool {
    ||| text::contains(lower, "outofmemoryerror"@)
    ||| text::contains(lower, "insufficient memory"@)
    ||| text::contains(lower, "paging file"@)
    ||| text::contains(lower, "cannot allocate memory"@)
    ||| text::contains(lower, "gc overhead limit"@)
    ||| text::contains(lower, "exception_access_violation"@)
    ||| text::contains(lower, "fatal error"@)
    ||| text::contains(lower, "crash report"@)
    ||| (text::contains(lower, "error"@) && text::contains(lower, "java.lang"@))
}

/// The last `n` lines, newest first.
pub open spec fn last_lines_reversed(ls: Seq<Seq<char>>, n: nat) -> Seq<Seq<char>> {
    let k = if ls.len() < n {
        ls.len()
    } else {
        n
    };
    Seq::new(k, |i: int| ls[ls.len() - 1 - i])
}

/// The error lines among `cands`, in order, trimmed.
pub open spec fn error_lines(cands: Seq<Seq<char>>) -> Seq<Seq<char>>
    decreases cands.len(),
{
    if cands.len() == 0 {
        Seq::empty()
    } else {
        let prev = error_lines(cands.drop_last());
        if is_error_line(text::spec_lowercase(cands.last())) {
            prev.push(text::trim(cands.last()))
        } else {
            prev
        }
    }
}

/// The error lines of a game log: among its last 500 lines, newest first, those
/// that report a crash-related error, trimmed; at most 20 of them.
pub open spec fn log_error_lines(content: Seq<char>) -> Seq<Seq<char>> {
    let found = error_lines(last_lines_reversed(text::lines(content), 500));
    if found.len() > 20 {
        found.take(20)
    } else {
        found
    }
}

/// The head of a JVM crash log: its first 100 lines, joined by newlines.
pub open spec fn jvm_excerpt_text(content: Seq<char>) -> Seq<char> {
    let ls = text::lines(content);
    text::join(
        if ls.len() > 100 {
            ls.take(100)
        } else {
            ls
        },
        "\n"@,
    )
}

/// The error lines of a game log, as `log_error_lines` describes them.
pub fn scan_log_errors(content: &str) -> (r: Vec<String>)
    ensures
        text::sviews(r@) == log_error_lines(content@),
{
    let cs = text::chars_of(content);
    let ls = text::lines_of(&cs);
    let ghost lv = text::vviews(ls@);
    let n: usize = if ls.len() < 500 {
        ls.len()
    } else {
        500
    };
    let ghost cands = last_lines_reversed(lv, 500);
    let mut out: Vec<String> = Vec::new();
    let mut i: usize = 0;
    assert(cands.take(0) == Seq::<Seq<char>>::empty());
    assert(text::sviews(out@) =~= Seq::<Seq<char>>::empty());
    while i < n
        invariant
            n == cands.len(),
            n <= ls.len(),
            i <= n,
            lv == text::vviews(ls@),
            cands == last_lines_reversed(lv, 500),
            text::sviews(out@) == error_lines(cands.take(i as int)),
        decreases n - i,
    {
        let line = &ls[ls.len() - 1 - i];
        assert(cands[i as int] == line@);
        assert(cands.take(i + 1).drop_last() == cands.take(i as int));
        assert(cands.take(i + 1).last() == line@);
        let line_s = text::string_of(line.as_slice());
        let lower_s = text::lowercase(line_s.as_str());
        let lower = text::chars_of_string(&lower_s);
        let hit = text::contains_str(&lower, "outofmemoryerror") || text::contains_str(
            &lower,
            "insufficient memory",
        ) || text::contains_str(&lower, "paging file") || text::contains_str(
            &lower,
            "cannot allocate memory",
        ) || text::contains_str(&lower, "gc overhead limit") || text::contains_str(
            &lower,
            "exception_access_violation",
        ) || text::contains_str(&lower, "fatal error") || text::contains_str(
            &lower,
            "crash report",
        ) || (text::contains_str(&lower, "error") && text::contains_str(&lower, "java.lang"));
        if hit {
            let tr = text::trim_vec(line);
            let ghost before = text::sviews(out@);
            out.push(text::string_of(tr.as_slice()));
            assert(text::sviews(out@) =~= before.push(text::trim(line@)));
        }
        i = i + 1;
    }
    assert(cands.take(n as int) == cands);
    if out.len() > 20 {
        let ghost full = text::sviews(out@);
        out.truncate(20);
        assert(text::sviews(out@) =~= full.take(20));
    }
    out
}

/// The head of a JVM crash log, as `jvm_excerpt_text` describes it.
pub fn jvm_excerpt(content: &str) -> (r: String)
    ensures
        r@ == jvm_excerpt_text(content@),
{
    let cs = text::chars_of(content);
    let mut ls = text::lines_of(&cs);
    if ls.len() > 100 {
        let ghost full = text::vviews(ls@);
        ls.truncate(100);
        assert(text::vviews(ls@) =~= full.take(100));
    }
    let j = text::join_vecs(&ls, "\n");
    text::string_of(j.as_slice())
}

/// Every error line of the game log can be cut after 50 bytes.
pub open spec fn log_sliceable(latest_log: Option<String>) -> bool {
    match latest_log {
        Some(c) => forall|i: int|
            0 <= i < log_error_lines(c@).len() ==> prefix_on_boundary(
                #[trigger] log_error_lines(c@)[i],
            ),
        None => true,
    }
}

/// The error lines of an optional game log.
pub open spec fn log_errors_of(latest_log: Option<String>) -> Seq<Seq<char>> {
    match latest_log {
        Some(c) => log_error_lines(c@),
        None => Seq::empty(),
    }
}

/// The optional head of a JVM crash log.
pub open spec fn jvm_of(jvm_log: Option<String>) -> Option<Seq<char>> {
    match jvm_log {
        Some(c) => Some(jvm_excerpt_text(c@)),
        None => None,
    }
}

/// The diagnosis that `analyze_crashes` owes for the given inputs.
pub open spec fn diagnosis_for(
    d: CrashDiagnosis,
    crash_report: Option<(String, String)>,
    latest_log: Option<String>,
    jvm_log: Option<String>,
) -> bool {
    let errs = log_errors_of(latest_log);
    let j = match jvm_of(jvm_log) {
        Some(x) => x,
        None => Seq::empty(),
    };
    let t = text::spec_lowercase(report_text(crash_report) + " "@ + text::join(errs, " "@) + " "@ + j);
    &&& opt_view(d.crash_type) == crash_type_of(t)
    &&& recs_view(d.recommendations@) == expected_recommendations(t)
    &&& text::sviews(d.details@) == with_log_details(condition_details(t), errs)
    &&& d.crash_detected == (crash_type_of(t) is Some || errs.len() > 0)
    &&& d.summary@ == summary_text(crash_type_of(t), errs.len())
    &&& opt_view(d.crash_file) == match crash_report {
        Some(p) => Some(p.0@),
        None => None::<Seq<char>>,
    }
    &&& d.timestamp matches Some(ts) && text::is_suffix("+00:00"@, ts@)
}

/// Diagnoses an instance from what was read of it: the newest crash report (file
/// name and text), the text of `logs/latest.log` and of an `hs_err_pid*.log`.
pub fn analyze_crashes(
    crash_report: Option<(String, String)>,
    latest_log: Option<String>,
    jvm_log: Option<String>,
) -> (d: CrashDiagnosis)
    requires
        log_sliceable(latest_log),
    ensures
        diagnosis_for(d, crash_report, latest_log, jvm_log),
{
    let log_errors = match &latest_log {
        Some(c) => scan_log_errors(c.as_str()),
        None => Vec::new(),
    };
    let ghost errs = log_errors_of(latest_log);
    assert(text::sviews(log_errors@) =~= errs);
    assert forall|i: int| 0 <= i < log_errors.len() implies prefix_on_boundary(
        #[trigger] log_errors@[i]@,
    ) by {
        assert(text::sviews(log_errors@)[i] == log_errors@[i]@);
    }
    let jvm_crash = match &jvm_log {
        Some(c) => Some(jvm_excerpt(c.as_str())),
        None => None,
    };
    assert(jvm_text(jvm_crash) == match jvm_of(jvm_log) {
        Some(x) => x,
        None => Seq::<char>::empty(),
    });
    build_diagnosis(crash_report, log_errors, jvm_crash)
}

/// `analyze_crashes` where every error line of the log can be cut after 50 bytes;
/// `None` where one cannot (the cut would split a character).
pub fn try_analyze_crashes(
    crash_report: Option<(String, String)>,
    latest_log: Option<String>,
    jvm_log: Option<String>,
) -> (r: Option<CrashDiagnosis>)
    ensures
        match r {
            Some(d) => log_sliceable(latest_log) && diagnosis_for(d, crash_report, latest_log, jvm_log),
            None => !log_sliceable(latest_log),
        },
{
    let ok = match &latest_log {
        Some(c) => {
            let errs = scan_log_errors(c.as_str());
            let mut all_ok = true;
            let mut i: usize = 0;
            while i < errs.len()
                invariant
                    i <= errs.len(),
                    text::sviews(errs@) == log_error_lines(c@),
                    all_ok == forall|k: int| 0 <= k < i ==> prefix_on_boundary(#[trigger] errs@[k]@),
                decreases errs.len() - i,
            {
                let b = error_prefix_on_boundary(errs[i].as_str());
                if !b {
                    all_ok = false;
                }
                i = i + 1;
            }
            proof {
                let lines = log_error_lines(c@);
                assert forall|k: int| 0 <= k < errs.len() implies #[trigger] lines[k] == errs@[k]@ by {
                    assert(text::sviews(errs@)[k] == errs@[k]@);
                }
                if all_ok {
                    assert forall|k: int| 0 <= k < lines.len() implies prefix_on_boundary(
                        #[trigger] lines[k],
                    ) by {
                        assert(prefix_on_boundary(errs@[k]@));
                    }
                } else {
                    let k = choose|k: int| 0 <= k < errs.len() && !prefix_on_boundary(#[trigger] errs@[k]@);
                    assert(lines[k] == errs@[k]@);
                }
                assert(all_ok == log_sliceable(latest_log));
            }
            all_ok
        },
        None => true,
    };
    if ok {
        Some(analyze_crashes(crash_report, latest_log, jvm_log))
    } else {
        None
    }
}

/// Advice and explanations come only with a diagnosed crash type: with none,
/// there are neither recommendations nor explanations of a crash.
pub proof fn law_advice_needs_a_crash_type(t: Seq<char>)
    ensures
        crash_type_of(t) is None <==> expected_recommendations(t).len() == 0,
        crash_type_of(t) is None <==> condition_details(t).len() == 0,
{
}


/// The crash type names the first cause found, in this order of precedence:
/// a paging-file failure, running out of memory, GC overhead, a mixin conflict,
/// a missing dependency, an access violation; with none of these signatures
/// there is no crash type. The signatures are read in the lower-cased text.
pub proof fn law_crash_type_by_signature(t: Seq<char>)
    ensures
        ({
            let paging = text::contains(t, "paging file"@) || text::contains(t, "pagefile"@)
                || text::contains(t, "commit limit"@);
            let oom = text::contains(t, "outofmemoryerror"@) || text::contains(t, "insufficient memory"@);
            let gc = text::contains(t, "gc overhead limit"@);
            let conflict = text::contains(t, "mixin"@) && text::contains(t, "conflict"@);
            let dependency = text::contains(t, "mod"@) && (text::contains(t, "requires"@) || text::contains(
                t,
                "missing"@,
            ) || text::contains(t, "not found"@));
            let violation = text::contains(t, "exception_access_violation"@);
            &&& paging ==> crash_type_of(t) == Some("Paging File Exhausted"@)
            &&& !paging && oom ==> crash_type_of(t) == Some("Out of Memory"@)
            &&& !paging && !oom && gc ==> crash_type_of(t) == Some("GC Overhead"@)
            &&& !paging && !oom && !gc && conflict ==> crash_type_of(t) == Some("Mod Conflict"@)
            &&& !paging && !oom && !gc && !conflict && dependency ==> crash_type_of(t) == Some(
                "Missing Dependency"@,
            )
            &&& !paging && !oom && !gc && !conflict && !dependency && violation ==> crash_type_of(t)
                == Some("Access Violation"@)
            &&& !paging && !oom && !gc && !conflict && !dependency && !violation ==> crash_type_of(t)
                is None
        }),
{
}

/// Whether one of the recommendations has the title `title`.
pub open spec fn has_rec_titled(recs: Seq<RecText>, title: Seq<char>) -> bool {
    exists|i: int| 0 <= i < recs.len() && (#[trigger] recs[i]).0 == title
}

/// Each cause found in the text brings its fix among the recommendations.
proof fn lemma_fix_for_each_cause(t: Seq<char>)
    ensures
        paging_exhausted(t) ==> has_rec_titled(expected_recommendations(t), "Free disk space on C: drive"@),
        out_of_memory(t) ==> has_rec_titled(expected_recommendations(t), "Increase RAM allocation"@),
        gc_overhead(t) ==> has_rec_titled(expected_recommendations(t), "Increase RAM and optimize GC flags"@),
        mixin_conflict(t) ==> has_rec_titled(expected_recommendations(t), "Check for incompatible mods"@),
        missing_dependency(t) ==> has_rec_titled(expected_recommendations(t), "Check mod dependencies"@),
        access_violation(t) ==> has_rec_titled(expected_recommendations(t), "Update GPU drivers"@),
{
    let a = when(out_of_memory(t), seq![rec_increase_ram()]);
    let b = when(metaspace(t), seq![rec_metaspace()]);
    let c = when(paging_exhausted(t), seq![rec_free_disk(), rec_move_instance(), rec_paging_size()]);
    let d = when(gc_overhead(t), seq![rec_gc()]);
    let e = when(mixin_conflict(t), seq![rec_conflicts()]);
    let f = when(missing_dependency(t), seq![rec_dependencies()]);
    let g = when(access_violation(t), seq![rec_gpu()]);
    let all = expected_recommendations(t);
    assert(all == a + b + c + d + e + f + g);
    if out_of_memory(t) {
        assert(all[0] == rec_increase_ram());
    }
    if paging_exhausted(t) {
        assert(all[(a.len() + b.len()) as int] == rec_free_disk());
    }
    if gc_overhead(t) {
        assert(all[(a.len() + b.len() + c.len()) as int] == rec_gc());
    }
    if mixin_conflict(t) {
        assert(all[(a.len() + b.len() + c.len() + d.len()) as int] == rec_conflicts());
    }
    if missing_dependency(t) {
        assert(all[(a.len() + b.len() + c.len() + d.len() + e.len()) as int] == rec_dependencies());
    }
    if access_violation(t) {
        assert(all[(a.len() + b.len() + c.len() + d.len() + e.len() + f.len()) as int] == rec_gpu());
    }
}

/// The recommendations answer the crash type that was named: the fix for that
/// cause is among them, and the summary names the type.
pub proof fn law_crash_type_has_its_fix(t: Seq<char>, n_errors: nat)
    ensures
        crash_type_of(t) == Some("Paging File Exhausted"@) ==> has_rec_titled(
            expected_recommendations(t),
            "Free disk space on C: drive"@,
        ),
        crash_type_of(t) == Some("Out of Memory"@) ==> has_rec_titled(
            expected_recommendations(t),
            "Increase RAM allocation"@,
        ),
        crash_type_of(t) == Some("GC Overhead"@) ==> has_rec_titled(
            expected_recommendations(t),
            "Increase RAM and optimize GC flags"@,
        ),
        crash_type_of(t) == Some("Mod Conflict"@) ==> has_rec_titled(
            expected_recommendations(t),
            "Check for incompatible mods"@,
        ),
        crash_type_of(t) == Some("Missing Dependency"@) ==> has_rec_titled(
            expected_recommendations(t),
            "Check mod dependencies"@,
        ),
        crash_type_of(t) == Some("Access Violation"@) ==> has_rec_titled(
            expected_recommendations(t),
            "Update GPU drivers"@,
        ),
        crash_type_of(t) matches Some(ct) ==> summary_text(crash_type_of(t), n_errors) == "Crash detected: "@
            + ct,
{
    reveal_strlit("Paging File Exhausted");
    reveal_strlit("Out of Memory");
    reveal_strlit("GC Overhead");
    reveal_strlit("Mod Conflict");
    reveal_strlit("Missing Dependency");
    reveal_strlit("Access Violation");
    assert("Paging File Exhausted"@.len() == 21 && "Out of Memory"@.len() == 13 && "GC Overhead"@.len() == 11
        && "Mod Conflict"@.len() == 12 && "Missing Dependency"@.len() == 18 && "Access Violation"@.len() == 16);
    lemma_fix_for_each_cause(t);
}

} // verus!
