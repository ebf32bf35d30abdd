//! Game-log telemetry: reading the lines that `latest.log` gains, and finding
//! the log of an instance.
use vstd::prelude::*;
use crate::text;
use crate::paths;

verus! {

/// One line of the game log.
#[derive(Debug, Clone)]
pub struct LogEvent {
    pub timestamp: String,
    pub level: String,
    pub message: String,
}

/// The text before the first `c`, or all of it (`str::split(c).next()`).
pub open spec fn before_char(s: Seq<char>, c: char) -> Seq<char> {
    match text::split_once(s, c) {
        Some(p) => p.0,
        None => s,
    }
}

/// The timestamp of a trimmed log line: for a line that starts with `[`, the text
/// before the first `]` without its leading `[`s; otherwise nothing.
pub open spec fn log_timestamp(t: Seq<char>) -> Seq<char> {
    if t.len() > 0 && t[0] == '[' {
        text::trim_start_char(before_char(t, ']'), '[')
    } else {
        Seq::empty()
    }
}

/// The level of a log line, from its `/LEVEL]` or `/LEVEL}` marker.
pub open spec fn log_level(t: Seq<char>) -> Seq<char> {
    if text::contains(t, "/ERROR]"@) || text::contains(t, "/ERROR}"@) {
        "ERROR"@
    } else if text::contains(t, "/WARN]"@) || text::contains(t, "/WARN}"@) {
        "WARN"@
    } else if text::contains(t, "/INFO]"@) || text::contains(t, "/INFO}"@) {
        "INFO"@
    } else {
        "DEBUG"@
    }
}

/// A log event as timestamp, level and message.
pub type EventText = (Seq<char>, Seq<char>, Seq<char>);

/// The event of a log line: none for a blank line; otherwise the timestamp, the
/// level and the trimmed line.
pub open spec fn log_event_of(line: Seq<char>) -> Option<EventText> {
    let t = text::trim(line);
    if t.len() == 0 {
        None
    } else {
        Some((log_timestamp(t), log_level(t), t))
    }
}

pub open spec fn event_view(e: LogEvent) -> EventText {
    (e.timestamp@, e.level@, e.message@)
}

pub open spec fn event_views(v: Seq<LogEvent>) -> Seq<EventText> {
    Seq::new(v.len(), |i: int| event_view(v[i]))
}

/// Parses one line of the game log.
pub fn parse_log_line(line: &str) -> (r: Option<LogEvent>)
    ensures
        match r {
            Some(e) => log_event_of(line@) == Some(event_view(e)),
            None => log_event_of(line@) is None,
        },
{
    let cs = text::chars_of(line);
    let t = text::trim_vec(&cs);
    if t.len() == 0 {
        return None;
    }
    let ts: Vec<char> = if t[0] == '[' {
        let first = match text::split_once_vec(&t, ']') {
            Some((a, _b)) => a,
            None => text::slice_to_vec(&t, 0, t.len()),
        };
        assert(t@.subrange(0, t@.len() as int) == t@);
        text::trim_start_char_vec(&first, '[')
    } else {
        Vec::new()
    };
    let level = if text::contains_str(&t, "/ERROR]") || text::contains_str(&t, "/ERROR}") {
        "ERROR"
    } else if text::contains_str(&t, "/WARN]") || text::contains_str(&t, "/WARN}") {
        "WARN"
    } else if text::contains_str(&t, "/INFO]") || text::contains_str(&t, "/INFO}") {
        "INFO"
    } else {
        "DEBUG"
    };
    Some(
        LogEvent {
            timestamp: text::string_of(ts.as_slice()),
            level: text::to_string(level),
            message: text::string_of(t.as_slice()),
        },
    )
}

/// An event worth reporting: an error or warning, or a message about the heap,
/// GC, memory, a crash or loading.
pub open spec fn is_notable(e: EventText) -> bool {
    ||| e.1 == "ERROR"@
    ||| e.1 == "WARN"@
    ||| text::contains(e.2, "heap"@)
    ||| text::contains(e.2, "GC"@)
    ||| text::contains(e.2, "OutOfMemory"@)
    ||| text::contains(e.2, "crash"@)
    ||| text::contains(e.2, "Loading complete"@)
    ||| text::contains(e.2, "Loaded"@)
}

/// Whether an event is worth reporting.
pub fn is_notable_event(e: &LogEvent) -> (r: bool)
    ensures
        r == is_notable(event_view(*e)),
{
    let m = text::chars_of_string(&e.message);
    text::str_eq(e.level.as_str(), "ERROR") || text::str_eq(e.level.as_str(), "WARN")
        || text::contains_str(&m, "heap") || text::contains_str(&m, "GC") || text::contains_str(
        &m,
        "OutOfMemory",
    ) || text::contains_str(&m, "crash") || text::contains_str(&m, "Loading complete")
        || text::contains_str(&m, "Loaded")
}

/// The notable events of the lines, in order.
pub open spec fn notable_events(ls: Seq<Seq<char>>) -> Seq<EventText>
    decreases ls.len(),
{
    if ls.len() == 0 {
        Seq::empty()
    } else {
        let prev = notable_events(ls.drop_last());
        match log_event_of(ls.last()) {
            Some(e) => if is_notable(e) {
                prev.push(e)
            } else {
                prev
            },
            None => prev,
        }
    }
}

/// The read position after reading the text `chunk` from byte `from`: the end
/// of what was read, `from` plus the UTF-8 length of the text, every line
/// ending (`\n` or `\r\n`) counted with the bytes it has.
pub open spec fn position_after(from: int, chunk: Seq<char>) -> int {
    from + text::utf8_len(chunk)
}

/// Reading more of the log never moves the read position back.
pub proof fn law_position_never_goes_back(from: int, chunk: Seq<char>)
    ensures
        position_after(from, chunk) >= from,
{
    text::lemma_utf8_len_nonneg(chunk);
}

/// The notable events among the lines that the log gained since byte `from_pos`,
/// and the position after them: the end of the text read. `chunk` is the log's
/// text from `from_pos` on; the new position must fit in `u64`.
pub fn tail_log_text(chunk: &str, from_pos: u64) -> (r: (Vec<LogEvent>, u64))
    requires
        position_after(from_pos as int, chunk@) <= u64::MAX,
    ensures
        event_views(r.0@) == notable_events(text::lines(chunk@)),
        r.1 == position_after(from_pos as int, chunk@),
{
    let cs = text::chars_of(chunk);
    let ls = text::lines_of(&cs);
    let ghost lv = text::vviews(ls@);
    let mut events: Vec<LogEvent> = Vec::new();
    proof {
        text::lemma_utf8_len_nonneg(chunk@);
    }
    let pos: u64 = from_pos + text::utf8_len_of(&cs);
    let mut i: usize = 0;
    assert(lv.take(0) == Seq::<Seq<char>>::empty());
    assert(event_views(events@) =~= Seq::<EventText>::empty());
    while i < ls.len()
        invariant
            i <= ls.len(),
            lv == text::vviews(ls@),
            lv == text::lines(chunk@),
            event_views(events@) == notable_events(lv.take(i as int)),
        decreases ls.len() - i,
    {
        assert(lv.take(i + 1).drop_last() == lv.take(i as int));
        assert(lv.take(i + 1).last() == ls@[i as int]@);
        let line = &ls[i];
        let line_s = text::string_of(line.as_slice());
        match parse_log_line(line_s.as_str()) {
            Some(e) => {
                if is_notable_event(&e) {
                    let ghost before = event_views(events@);
                    let ghost ev = event_view(e);
                    events.push(e);
                    assert(event_views(events@) =~= before.push(ev));
                }
            },
            None => {},
        }
        i = i + 1;
    }
    assert(lv.take(ls.len() as int) == lv);
    (events, pos)
}

/// The first candidate that exists, as the probes found it.
pub open spec fn first_existing_spec(c: Seq<(Seq<char>, bool)>) -> Option<Seq<char>>
    decreases c.len(),
{
    if c.len() == 0 {
        None
    } else if c[0].1 {
        Some(c[0].0)
    } else {
        first_existing_spec(c.drop_first())
    }
}

pub open spec fn probe_views(v: Seq<(String, bool)>) -> Seq<(Seq<char>, bool)> {
    Seq::new(v.len(), |i: int| (v[i].0@, v[i].1))
}

/// The first path that was found to exist.
pub fn first_existing(candidates: &Vec<(String, bool)>) -> (r: Option<String>)
    ensures
        match r {
            Some(p) => first_existing_spec(probe_views(candidates@)) == Some(p@),
            None => first_existing_spec(probe_views(candidates@)) is None,
        },
{
    let ghost cv = probe_views(candidates@);
    let mut i: usize = 0;
    assert(cv.skip(0) == cv);
    while i < candidates.len()
        invariant
            i <= candidates.len(),
            cv == probe_views(candidates@),
            first_existing_spec(cv) == first_existing_spec(cv.skip(i as int)),
        decreases candidates.len() - i,
    {
        assert(cv.skip(i as int)[0] == cv[i as int]);
        if candidates[i].1 {
            return Some(text::copy_string(&candidates[i].0));
        }
        assert(cv.skip(i as int).drop_first() == cv.skip(i + 1));
        i = i + 1;
    }
    assert(cv.skip(i as int).len() == 0);
    None
}

/// `p` is `base/<dir>/logs/latest.log`, with the separators that `join` may
/// put in.
pub open spec fn log_in_game_dir(base: Seq<char>, dir: Seq<char>, p: Seq<char>) -> bool {
    exists|s1: Seq<char>, s2: Seq<char>, s3: Seq<char>|
        #![trigger paths::separator_text(s1), paths::separator_text(s2), paths::separator_text(s3)]
        paths::separator_text(s1) && paths::separator_text(s2) && paths::separator_text(s3)
            && p == base + s1 + dir + s2 + "logs"@ + s3 + "latest.log"@
}

/// `p` is `base/logs/latest.log`, with the separators that `join` may put in.
pub open spec fn log_in_instance_dir(base: Seq<char>, p: Seq<char>) -> bool {
    exists|s1: Seq<char>, s2: Seq<char>|
        #![trigger paths::separator_text(s1), paths::separator_text(s2)]
        paths::separator_text(s1) && paths::separator_text(s2)
            && p == base + s1 + "logs"@ + s2 + "latest.log"@
}

/// The three places where an instance keeps its game log.
pub open spec fn log_candidate(base: Seq<char>, p: Seq<char>) -> bool {
    ||| log_in_game_dir(base, ".minecraft"@, p)
    ||| log_in_game_dir(base, "minecraft"@, p)
    ||| log_in_instance_dir(base, p)
}

proof fn lemma_log_in_game_dir(
    base: Seq<char>,
    dir: Seq<char>,
    a0: Seq<char>,
    a1: Seq<char>,
    a: Seq<char>,
)
    requires
        paths::joined(base, dir, a0),
        paths::joined(a0, "logs"@, a1),
        paths::joined(a1, "latest.log"@, a),
    ensures
        log_in_game_dir(base, dir, a),
{
    let s1 = choose|s: Seq<char>| paths::separator_text(s) && a0 == base + s + dir;
    let s2 = choose|s: Seq<char>| paths::separator_text(s) && a1 == a0 + s + "logs"@;
    let s3 = choose|s: Seq<char>| paths::separator_text(s) && a == a1 + s + "latest.log"@;
    assert(paths::separator_text(s1) && paths::separator_text(s2) && paths::separator_text(s3));
    assert(a == base + s1 + dir + s2 + "logs"@ + s3 + "latest.log"@);
}

proof fn lemma_log_in_instance_dir(base: Seq<char>, c0: Seq<char>, c: Seq<char>)
    requires
        paths::joined(base, "logs"@, c0),
        paths::joined(c0, "latest.log"@, c),
    ensures
        log_in_instance_dir(base, c),
{
    let s1 = choose|s: Seq<char>| paths::separator_text(s) && c0 == base + s + "logs"@;
    let s2 = choose|s: Seq<char>| paths::separator_text(s) && c == c0 + s + "latest.log"@;
    assert(paths::separator_text(s1) && paths::separator_text(s2));
    assert(c == base + s1 + "logs"@ + s2 + "latest.log"@);
}

/// The game log of the instance at `instance_path`: the first of
/// `.minecraft/logs/latest.log`, `minecraft/logs/latest.log` and
/// `logs/latest.log` under it that exists. Which one that is depends on the
/// disk; a path found is one of these three, and so ends with `latest.log`.
pub fn find_log_path(instance_path: &str) -> (r: Option<String>)
    ensures
        r matches Some(p) ==> text::is_suffix("latest.log"@, p@),
        paths::safe_base(instance_path@) ==> (r matches Some(p) ==> log_candidate(
            instance_path@,
            p@,
        )),
{
    let a0 = paths::path_join(instance_path, ".minecraft");
    let a1 = paths::path_join(a0.as_str(), "logs");
    let a = paths::path_join(a1.as_str(), "latest.log");
    let b0 = paths::path_join(instance_path, "minecraft");
    let b1 = paths::path_join(b0.as_str(), "logs");
    let b = paths::path_join(b1.as_str(), "latest.log");
    let c0 = paths::path_join(instance_path, "logs");
    let c = paths::path_join(c0.as_str(), "latest.log");
    let ea = paths::path_exists(a.as_str());
    let eb = paths::path_exists(b.as_str());
    let ec = paths::path_exists(c.as_str());
    proof {
        reveal_strlit("latest.log");
        reveal_strlit(".minecraft");
        reveal_strlit("minecraft");
        reveal_strlit("logs");
        reveal_strlit(".");
        reveal_strlit("..");
        assert(paths::plain_name("latest.log"@));
        assert(".minecraft"@.len() != "."@.len() && ".minecraft"@.len() != ".."@.len());
        assert(paths::plain_name(".minecraft"@));
        assert(paths::plain_name("minecraft"@));
        assert("logs"@.len() != "."@.len() && "logs"@.len() != ".."@.len());
        assert(paths::plain_name("logs"@));
        if paths::safe_base(instance_path@) {
            paths::lemma_joined_safe(instance_path@, ".minecraft"@, a0@);
            paths::lemma_joined_safe(a0@, "logs"@, a1@);
            lemma_log_in_game_dir(instance_path@, ".minecraft"@, a0@, a1@, a@);
            paths::lemma_joined_safe(instance_path@, "minecraft"@, b0@);
            paths::lemma_joined_safe(b0@, "logs"@, b1@);
            lemma_log_in_game_dir(instance_path@, "minecraft"@, b0@, b1@, b@);
            paths::lemma_joined_safe(instance_path@, "logs"@, c0@);
            lemma_log_in_instance_dir(instance_path@, c0@, c@);
        }
    }
    let ghost (av, bv, cv) = (a@, b@, c@);
    let candidates = vec![(a, ea), (b, eb), (c, ec)];
    let r = first_existing(&candidates);
    proof {
        let pv = probe_views(candidates@);
        assert(pv =~= seq![(av, ea), (bv, eb), (cv, ec)]);
        reveal_with_fuel(first_existing_spec, 4);
        assert(pv.drop_first() =~= seq![(bv, eb), (cv, ec)]);
        assert(pv.drop_first().drop_first() =~= seq![(cv, ec)]);
        assert(pv.drop_first().drop_first().drop_first() =~= Seq::<(Seq<char>, bool)>::empty());
    }
    r
}

} // verus!
