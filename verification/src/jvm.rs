//! Writing Java settings into a launcher's instance configuration: the
//! `KEY=value` lines of Prism/MultiMC `instance.cfg`, and the edits for the JSON
//! files of CurseForge, ATLauncher and Modrinth.
use vstd::prelude::*;
use crate::json;
use crate::text;

verus! {

/// A backup taken before a configuration file is changed.
#[derive(Debug, Clone)]
pub struct RollbackPoint {
    pub id: String,
    pub recommendation_id: String,
    pub file_path: String,
    pub original_hash: String,
    pub backup_path: String,
    pub created_at: String,
}

/// The record of a backup of `file_path`, whose content `content` was copied to
/// `backup_path` before a change for `recommendation_id`: a fresh id, the hash of
/// the content that was backed up, and the time the record was made.
pub fn rollback_point(recommendation_id: &str, file_path: String, content: &[u8], backup_path: String) -> (r:
    RollbackPoint)
    ensures
        r.recommendation_id@ == recommendation_id@,
        r.file_path@ == file_path@,
        r.original_hash@ == crate::instance::hex_lower(crate::instance::spec_sha256(content@)),
        r.backup_path@ == backup_path@,
        crate::rules::uuid_v4_text(r.id@),
        text::is_suffix("+00:00"@, r.created_at@),
{
    RollbackPoint {
        id: crate::rules::new_id(),
        recommendation_id: text::to_string(recommendation_id),
        file_path,
        original_hash: crate::instance::content_hash(content),
        backup_path,
        created_at: crate::clock::now_rfc3339(),
    }
}

/// The prefix `key=` of a setting's line.
pub open spec fn key_prefix(key: Seq<char>) -> Seq<char> {
    key.push('=')
}

/// The value of the first line that starts with `key=`.
pub open spec fn read_cfg(lines: Seq<Seq<char>>, key: Seq<char>) -> Option<Seq<char>>
    decreases lines.len(),
{
    if lines.len() == 0 {
        None
    } else if text::is_prefix(key_prefix(key), lines[0]) {
        Some(lines[0].skip(key.len() + 1int))
    } else {
        read_cfg(lines.drop_first(), key)
    }
}

/// The lines after setting `key` to `value`: the first line that starts with
/// `key=` becomes `key=value`; with no such line, `key=value` is added at the end.
pub open spec fn upsert_cfg(lines: Seq<Seq<char>>, key: Seq<char>, value: Seq<char>) -> Seq<Seq<char>>
    decreases lines.len(),
{
    if lines.len() == 0 {
        seq![key_prefix(key) + value]
    } else if text::is_prefix(key_prefix(key), lines[0]) {
        lines.update(0, key_prefix(key) + value)
    } else {
        seq![lines[0]] + upsert_cfg(lines.drop_first(), key, value)
    }
}

proof fn lemma_upsert_at(lines: Seq<Seq<char>>, key: Seq<char>, value: Seq<char>, j: int)
    requires
        0 <= j <= lines.len(),
        forall|i: int| 0 <= i < j ==> !text::is_prefix(key_prefix(key), #[trigger] lines[i]),
    ensures
        upsert_cfg(lines, key, value) == lines.take(j) + upsert_cfg(lines.skip(j), key, value),
        read_cfg(lines, key) == read_cfg(lines.skip(j), key),
    decreases j,
{
    if j > 0 {
        lemma_upsert_at(lines.drop_first(), key, value, j - 1);
        assert(lines.drop_first().take(j - 1) == lines.take(j).drop_first());
        assert(lines.drop_first().skip(j - 1) == lines.skip(j));
        assert(lines.take(j) == seq![lines[0]] + lines.take(j).drop_first());
    } else {
        assert(lines.skip(0) == lines);
        assert(lines.take(0) + upsert_cfg(lines, key, value) == upsert_cfg(lines, key, value));
    }
}

fn prefix_of(key: &str) -> (r: Vec<char>)
    ensures
        r@ == key_prefix(key@),
{
    let mut p = text::chars_of(key);
    p.push('=');
    p
}

/// The index of the first line that starts with `key=`.
fn find_cfg_line(lines: &Vec<String>, prefix: &Vec<char>) -> (r: Option<usize>)
    ensures
        match r {
            Some(j) => j < lines.len() && text::is_prefix(prefix@, lines@[j as int]@) && forall|i: int|
                0 <= i < j ==> !text::is_prefix(prefix@, #[trigger] lines@[i]@),
            None => forall|i: int| 0 <= i < lines.len() ==> !text::is_prefix(prefix@, #[trigger] lines@[i]@),
        },
{
    let mut j: usize = 0;
    while j < lines.len()
        invariant
            j <= lines.len(),
            forall|i: int| 0 <= i < j ==> !text::is_prefix(prefix@, #[trigger] lines@[i]@),
        decreases lines.len() - j,
    {
        let l = text::chars_of_string(&lines[j]);
        if text::seq_starts_with(&l, prefix) {
            return Some(j);
        }
        j = j + 1;
    }
    None
}

/// The value of `key` in the lines of an `instance.cfg`.
pub fn read_cfg_value(lines: &Vec<String>, key: &str) -> (r: Option<String>)
    ensures
        match r {
            Some(v) => read_cfg(text::sviews(lines@), key@) == Some(v@),
            None => read_cfg(text::sviews(lines@), key@) is None,
        },
{
    let prefix = prefix_of(key);
    let ghost lv = text::sviews(lines@);
    match find_cfg_line(lines, &prefix) {
        Some(j) => {
            proof {
                lemma_upsert_at(lv, key@, Seq::empty(), j as int);
                assert(lv.skip(j as int)[0] == lv[j as int]);
            }
            let l = text::chars_of_string(&lines[j]);
            let rest = text::slice_to_vec(&l, prefix.len(), l.len());
            assert(l@.subrange(prefix@.len() as int, l@.len() as int) == l@.skip(key@.len() + 1int));
            Some(text::string_of(rest.as_slice()))
        },
        None => {
            proof {
                lemma_upsert_at(lv, key@, Seq::empty(), lv.len() as int);
                assert(lv.skip(lv.len() as int).len() == 0);
            }
            None
        },
    }
}

/// Sets `key` to `value` in the lines of an `instance.cfg`, as `upsert_cfg` does.
pub fn upsert_cfg_value(lines: &mut Vec<String>, key: &str, value: &str)
    ensures
        text::sviews(final(lines)@) == upsert_cfg(text::sviews(old(lines)@), key@, value@),
{
    let prefix = prefix_of(key);
    let ghost lv = text::sviews(lines@);
    let mut line: Vec<char> = Vec::new();
    text::push_chars(&mut line, &prefix);
    text::push_str(&mut line, value);
    assert(line@ == key_prefix(key@) + value@);
    let new_line = text::string_of(line.as_slice());
    match find_cfg_line(lines, &prefix) {
        Some(j) => {
            proof {
                lemma_upsert_at(lv, key@, value@, j as int);
                assert(lv.skip(j as int)[0] == lv[j as int]);
            }
            lines.set(j, new_line);
            assert(text::sviews(lines@) =~= lv.take(j as int) + lv.skip(j as int).update(
                0,
                key_prefix(key@) + value@,
            ));
        },
        None => {
            proof {
                lemma_upsert_at(lv, key@, value@, lv.len() as int);
                assert(lv.skip(lv.len() as int) == Seq::<Seq<char>>::empty());
                assert(lv.take(lv.len() as int) == lv);
            }
            lines.push(new_line);
            assert(text::sviews(lines@) =~= lv.push(key_prefix(key@) + value@));
        },
    }
}

proof fn lemma_read_after_upsert(lines: Seq<Seq<char>>, key: Seq<char>, value: Seq<char>)
    ensures
        read_cfg(upsert_cfg(lines, key, value), key) == Some(value),
    decreases lines.len(),
{
    let p = key_prefix(key);
    let line = p + value;
    assert(line.subrange(0, p.len() as int) == p);
    assert(line.skip(key.len() + 1int) == value);
    if lines.len() > 0 && !text::is_prefix(p, lines[0]) {
        lemma_read_after_upsert(lines.drop_first(), key, value);
        let u = upsert_cfg(lines, key, value);
        assert(u.drop_first() == upsert_cfg(lines.drop_first(), key, value));
    }
}

/// Setting a key and reading it back gives the value that was set.
pub proof fn law_cfg_read_after_write(lines: Seq<Seq<char>>, key: Seq<char>, value: Seq<char>)
    ensures
        read_cfg(upsert_cfg(lines, key, value), key) == Some(value),
{
    lemma_read_after_upsert(lines, key, value);
}

proof fn lemma_prefixes_distinct(k1: Seq<char>, k2: Seq<char>, line: Seq<char>)
    requires
        k1 != k2,
        !k1.contains('='),
        !k2.contains('='),
        text::is_prefix(key_prefix(k1), line),
    ensures
        !text::is_prefix(key_prefix(k2), line),
{
    if text::is_prefix(key_prefix(k2), line) {
        let p1 = key_prefix(k1);
        let p2 = key_prefix(k2);
        if k1.len() < k2.len() {
            assert(line[k1.len() as int] == p1[k1.len() as int]);
            assert(line[k1.len() as int] == p2[k1.len() as int]);
            assert(k2[k1.len() as int] == '=');
        } else if k2.len() < k1.len() {
            assert(line[k2.len() as int] == p2[k2.len() as int]);
            assert(line[k2.len() as int] == p1[k2.len() as int]);
            assert(k1[k2.len() as int] == '=');
        } else {
            assert forall|i: int| 0 <= i < k1.len() implies k1[i] == k2[i] by {
                assert(line[i] == p1[i]);
                assert(line[i] == p2[i]);
            }
            assert(k1 =~= k2);
        }
    }
}

proof fn lemma_read_other_after_upsert(lines: Seq<Seq<char>>, k1: Seq<char>, v: Seq<char>, k2: Seq<char>)
    requires
        k1 != k2,
        !k1.contains('='),
        !k2.contains('='),
    ensures
        read_cfg(upsert_cfg(lines, k1, v), k2) == read_cfg(lines, k2),
    decreases lines.len(),
{
    let p1 = key_prefix(k1);
    let nl = p1 + v;
    assert(nl.subrange(0, p1.len() as int) == p1);
    lemma_prefixes_distinct(k1, k2, nl);
    let u = upsert_cfg(lines, k1, v);
    if lines.len() == 0 {
        assert(u.len() == 1 && u[0] == nl);
        assert(u.drop_first().len() == 0);
        assert(read_cfg(u, k2) == read_cfg(u.drop_first(), k2));
    } else if text::is_prefix(p1, lines[0]) {
        lemma_prefixes_distinct(k1, k2, lines[0]);
        assert(u[0] == nl);
        assert(u.drop_first() == lines.drop_first());
        assert(read_cfg(u, k2) == read_cfg(u.drop_first(), k2));
        assert(read_cfg(lines, k2) == read_cfg(lines.drop_first(), k2));
    } else {
        lemma_read_other_after_upsert(lines.drop_first(), k1, v, k2);
        assert(u[0] == lines[0]);
        assert(u.drop_first() == upsert_cfg(lines.drop_first(), k1, v));
    }
}

/// Setting one key leaves every other key's value as it was, for keys without `=`.
pub proof fn law_cfg_write_keeps_other_keys(
    lines: Seq<Seq<char>>,
    key: Seq<char>,
    value: Seq<char>,
    other: Seq<char>,
)
    requires
        key != other,
        !key.contains('='),
        !other.contains('='),
    ensures
        read_cfg(upsert_cfg(lines, key, value), other) == read_cfg(lines, other),
{
    lemma_read_other_after_upsert(lines, key, value, other);
}

// ---------------------------------------------------------------------------
// Applying Java settings
// ---------------------------------------------------------------------------

/// A recorded change: the key, its value before (if any) and the new value.
pub type Change = (Seq<char>, Option<Seq<char>>, Seq<char>);

pub open spec fn ov(o: Option<String>) -> Option<Seq<char>> {
    match o {
        Some(s) => Some(s@),
        None => None,
    }
}

pub open spec fn change_views(v: Seq<(String, Option<String>, String)>) -> Seq<Change> {
    Seq::new(v.len(), |i: int| (v[i].0@, ov(v[i].1), v[i].2@))
}

/// The decimal text of an optional number.
pub open spec fn opt_dec(o: Option<u32>) -> Option<Seq<char>> {
    match o {
        Some(n) => Some(text::dec(n as nat)),
        None => None,
    }
}

/// One setting of `instance.cfg`: when there is a new value, record the change
/// (with the value before) and set the key.
pub open spec fn prism_step(
    st: (Seq<Seq<char>>, Seq<Change>),
    key: Seq<char>,
    val: Option<Seq<char>>,
) -> (Seq<Seq<char>>, Seq<Change>) {
    match val {
        Some(v) => (upsert_cfg(st.0, key, v), st.1.push((key, read_cfg(st.0, key), v))),
        None => st,
    }
}

/// The lines and changes after setting `-Xmx`, `-Xms`, the JVM arguments and the
/// Java path (each where given) in the lines of an `instance.cfg` text.
pub open spec fn prism_edit(
    content: Seq<char>,
    xmx: Option<u32>,
    xms: Option<u32>,
    args: Option<Seq<char>>,
    java: Option<Seq<char>>,
) -> (Seq<Seq<char>>, Seq<Change>) {
    let s0 = (text::lines(content), Seq::<Change>::empty());
    let s1 = prism_step(s0, "MaxMemAlloc"@, opt_dec(xmx));
    let s2 = prism_step(s1, "MinMemAlloc"@, opt_dec(xms));
    let s3 = prism_step(s2, "JvmArgs"@, args);
    prism_step(s3, "JavaPath"@, java)
}

fn lines_as_strings(content: &str) -> (r: Vec<String>)
    ensures
        text::sviews(r@) == text::lines(content@),
{
    let cs = text::chars_of(content);
    let ls = text::lines_of(&cs);
    let mut out: Vec<String> = Vec::new();
    let mut i: usize = 0;
    while i < ls.len()
        invariant
            i <= ls.len(),
            text::sviews(out@) == text::vviews(ls@).take(i as int),
        decreases ls.len() - i,
    {
        let ghost before = text::sviews(out@);
        out.push(text::string_of(ls[i].as_slice()));
        assert(text::sviews(out@) =~= before.push(ls@[i as int]@));
        assert(text::vviews(ls@).take(i + 1) =~= text::vviews(ls@).take(i as int).push(ls@[i as int]@));
        i = i + 1;
    }
    assert(text::vviews(ls@).take(ls.len() as int) == text::vviews(ls@));
    out
}

fn apply_step(lines: &mut Vec<String>, changes: &mut Vec<(String, Option<String>, String)>, key: &str, val: Option<String>)
    ensures
        (text::sviews(final(lines)@), change_views(final(changes)@)) == prism_step(
            (text::sviews(old(lines)@), change_views(old(changes)@)),
            key@,
            ov(val),
        ),
{
    match val {
        Some(v) => {
            let before = read_cfg_value(lines, key);
            let ghost cv = change_views(changes@);
            let ghost entry = (key@, ov(before), v@);
            upsert_cfg_value(lines, key, v.as_str());
            changes.push((text::to_string(key), before, v));
            assert(change_views(changes@) =~= cv.push(entry));
        },
        None => {},
    }
}

fn opt_dec_string(o: Option<u32>) -> (r: Option<String>)
    ensures
        ov(r) == opt_dec(o),
{
    match o {
        Some(n) => Some(text::dec_string(n as u64)),
        None => None,
    }
}

/// The new `instance.cfg` text and the changes made, for the settings given: the
/// edited lines of `prism_edit`, each followed by a newline.
pub fn apply_prism_jvm(
    content: &str,
    xmx_mb: Option<u32>,
    xms_mb: Option<u32>,
    jvm_args: Option<String>,
    java_path: Option<String>,
) -> (r: (String, Vec<(String, Option<String>, String)>))
    ensures
        ({
            let e = prism_edit(content@, xmx_mb, xms_mb, ov(jvm_args), ov(java_path));
            &&& r.0@ == text::join(e.0, "\n"@) + "\n"@
            &&& change_views(r.1@) == e.1
        }),
{
    let mut lines = lines_as_strings(content);
    let mut changes: Vec<(String, Option<String>, String)> = Vec::new();
    assert(change_views(changes@) =~= Seq::<Change>::empty());
    apply_step(&mut lines, &mut changes, "MaxMemAlloc", opt_dec_string(xmx_mb));
    apply_step(&mut lines, &mut changes, "MinMemAlloc", opt_dec_string(xms_mb));
    let ghost a = ov(jvm_args);
    let ghost j = ov(java_path);
    apply_step(&mut lines, &mut changes, "JvmArgs", jvm_args);
    apply_step(&mut lines, &mut changes, "JavaPath", java_path);
    let mut out = text::join_strings(&lines, "\n");
    out.push('\n');
    proof {
        reveal_strlit("\n");
    }
    (text::string_of(out.as_slice()), changes)
}

/// The configuration file of a launcher that holds the Java settings.
#[derive(Debug, Clone, Copy, PartialEq, Eq, Structural)]
pub enum JvmConfigFormat {
    /// Prism Launcher or MultiMC: `instance.cfg`.
    Prism,
    /// CurseForge: `minecraftinstance.json`.
    CurseForge,
    /// ATLauncher: `instance.json`.
    AtLauncher,
    /// Modrinth App: `profile.json`.
    Modrinth,
}

/// The error when an instance has none of the known configuration files.
pub open spec fn no_config_message() -> Seq<char> {
    "No recognized launcher config found. Supported: Prism/MultiMC (instance.cfg), CurseForge (minecraftinstance.json), ATLauncher (instance.json), Modrinth (profile.json)"@
}

/// The format to edit, from which configuration files exist, in the order
/// `instance.cfg`, `minecraftinstance.json`, `instance.json`, `profile.json`.
pub fn config_format(
    has_instance_cfg: bool,
    has_minecraftinstance_json: bool,
    has_instance_json: bool,
    has_profile_json: bool,
) -> (r: Result<JvmConfigFormat, String>)
    ensures
        match r {
            Ok(f) => f == (if has_instance_cfg {
                JvmConfigFormat::Prism
            } else if has_minecraftinstance_json {
                JvmConfigFormat::CurseForge
            } else if has_instance_json {
                JvmConfigFormat::AtLauncher
            } else {
                JvmConfigFormat::Modrinth
            }),
            Err(e) => !has_instance_cfg && !has_minecraftinstance_json && !has_instance_json
                && !has_profile_json && e@ == no_config_message(),
        },
        r is Err <==> (!has_instance_cfg && !has_minecraftinstance_json && !has_instance_json
            && !has_profile_json),
{
    if has_instance_cfg {
        Ok(JvmConfigFormat::Prism)
    } else if has_minecraftinstance_json {
        Ok(JvmConfigFormat::CurseForge)
    } else if has_instance_json {
        Ok(JvmConfigFormat::AtLauncher)
    } else if has_profile_json {
        Ok(JvmConfigFormat::Modrinth)
    } else {
        Err(
            text::to_string(
                "No recognized launcher config found. Supported: Prism/MultiMC (instance.cfg), CurseForge (minecraftinstance.json), ATLauncher (instance.json), Modrinth (profile.json)",
            ),
        )
    }
}

/// The file name of a configuration format.
pub fn config_file_name(f: JvmConfigFormat) -> (r: &'static str)
    ensures
        r@ == match f {
            JvmConfigFormat::Prism => "instance.cfg"@,
            JvmConfigFormat::CurseForge => "minecraftinstance.json"@,
            JvmConfigFormat::AtLauncher => "instance.json"@,
            JvmConfigFormat::Modrinth => "profile.json"@,
        },
{
    match f {
        JvmConfigFormat::Prism => "instance.cfg",
        JvmConfigFormat::CurseForge => "minecraftinstance.json",
        JvmConfigFormat::AtLauncher => "instance.json",
        JvmConfigFormat::Modrinth => "profile.json",
    }
}

/// A value written into a JSON configuration.
#[derive(Debug, Clone)]
pub enum JsonEditValue {
    Number(u32),
    Text(String),
    Flag(bool),
}

/// One edit of a JSON configuration: set `key` to `value`. When `recorded`, the
/// change is recorded with the value before, read from the first of `old_keys`
/// that is present (as a number when `old_is_number`, else as text).
#[derive(Debug, Clone)]
pub struct JsonEdit {
    pub key: String,
    pub value: JsonEditValue,
    pub old_keys: Vec<String>,
    pub old_is_number: bool,
    pub recorded: bool,
}

/// A value as a number, a text or a flag.
pub enum EditValueText {
    Number(u32),
    Text(Seq<char>),
    Flag(bool),
}

/// An edit as key, value, keys of the old value, whether that is a number, and
/// whether it is recorded.
pub type EditText = (Seq<char>, EditValueText, Seq<Seq<char>>, bool, bool);

pub open spec fn edit_value_view(v: JsonEditValue) -> EditValueText {
    match v {
        JsonEditValue::Number(n) => EditValueText::Number(n),
        JsonEditValue::Text(s) => EditValueText::Text(s@),
        JsonEditValue::Flag(b) => EditValueText::Flag(b),
    }
}

pub open spec fn edit_views(v: Seq<JsonEdit>) -> Seq<EditText> {
    Seq::new(
        v.len(),
        |i: int|
            (
                v[i].key@,
                edit_value_view(v[i].value),
                text::sviews(v[i].old_keys@),
                v[i].old_is_number,
                v[i].recorded,
            ),
    )
}

pub open spec fn when<A>(c: bool, s: Seq<A>) -> Seq<A> {
    if c {
        s
    } else {
        Seq::empty()
    }
}

/// The edits for a JSON format: CurseForge sets `allocatedMemory`, then
/// `javaArgsOverride` with `isCustomJavaArgs`, then `javaPath` with
/// `isCustomJavaPath`; ATLauncher and Modrinth set `maximumMemory` (old value from
/// `memory` or `maximumMemory`) and `javaArguments` (old value from
/// `javaArguments` or `extraArguments`). `-Xms` is not written to JSON formats,
/// nor the Java path for ATLauncher and Modrinth.
pub open spec fn json_edits_for(
    f: JvmConfigFormat,
    xmx: Option<u32>,
    args: Option<Seq<char>>,
    java: Option<Seq<char>>,
) -> Seq<EditText> {
    match f {
        JvmConfigFormat::CurseForge => when(
            xmx is Some,
            seq![("allocatedMemory"@, EditValueText::Number(xmx->0), seq!["allocatedMemory"@], true, true)],
        ) + when(
            args is Some,
            seq![
                ("javaArgsOverride"@, EditValueText::Text(args->0), seq!["javaArgsOverride"@], false, true),
                ("isCustomJavaArgs"@, EditValueText::Flag(true), Seq::<Seq<char>>::empty(), false, false),
            ],
        ) + when(
            java is Some,
            seq![
                ("javaPath"@, EditValueText::Text(java->0), seq!["javaPath"@], false, true),
                ("isCustomJavaPath"@, EditValueText::Flag(true), Seq::<Seq<char>>::empty(), false, false),
            ],
        ),
        JvmConfigFormat::AtLauncher | JvmConfigFormat::Modrinth => when(
            xmx is Some,
            seq![("maximumMemory"@, EditValueText::Number(xmx->0), seq!["memory"@, "maximumMemory"@], true, true)],
        ) + when(
            args is Some,
            seq![
                ("javaArguments"@, EditValueText::Text(args->0), seq!["javaArguments"@, "extraArguments"@], false, true),
            ],
        ),
        JvmConfigFormat::Prism => Seq::empty(),
    }
}

/// An edit with the old value read from `old`.
fn edit1(key: &str, value: JsonEditValue, old: &str, old_is_number: bool) -> (r: JsonEdit)
    ensures
        (r.key@, edit_value_view(r.value), text::sviews(r.old_keys@), r.old_is_number, r.recorded)
            == (key@, edit_value_view(value), seq![old@], old_is_number, true),
{
    let mut keys: Vec<String> = Vec::new();
    keys.push(text::to_string(old));
    assert(text::sviews(keys@) =~= seq![old@]);
    JsonEdit { key: text::to_string(key), value, old_keys: keys, old_is_number, recorded: true }
}

/// An edit with the old value read from `old1`, or else `old2`.
fn edit2(key: &str, value: JsonEditValue, old1: &str, old2: &str, old_is_number: bool) -> (r: JsonEdit)
    ensures
        (r.key@, edit_value_view(r.value), text::sviews(r.old_keys@), r.old_is_number, r.recorded)
            == (key@, edit_value_view(value), seq![old1@, old2@], old_is_number, true),
{
    let mut keys: Vec<String> = Vec::new();
    keys.push(text::to_string(old1));
    keys.push(text::to_string(old2));
    assert(text::sviews(keys@) =~= seq![old1@, old2@]);
    JsonEdit { key: text::to_string(key), value, old_keys: keys, old_is_number, recorded: true }
}

/// A flag set to true, not recorded.
fn flag_edit(key: &str) -> (r: JsonEdit)
    ensures
        (r.key@, edit_value_view(r.value), text::sviews(r.old_keys@), r.old_is_number, r.recorded)
            == (key@, EditValueText::Flag(true), Seq::<Seq<char>>::empty(), false, false),
{
    let keys: Vec<String> = Vec::new();
    assert(text::sviews(keys@) =~= Seq::<Seq<char>>::empty());
    JsonEdit { key: text::to_string(key), value: JsonEditValue::Flag(true), old_keys: keys, old_is_number: false, recorded: false }
}

fn push_edit(v: &mut Vec<JsonEdit>, e: JsonEdit)
    ensures
        edit_views(final(v)@) == edit_views(old(v)@).push(
            (e.key@, edit_value_view(e.value), text::sviews(e.old_keys@), e.old_is_number, e.recorded),
        ),
{
    let ghost ev = (e.key@, edit_value_view(e.value), text::sviews(e.old_keys@), e.old_is_number, e.recorded);
    v.push(e);
    assert(edit_views(v@) =~= edit_views(old(v)@).push(ev));
}

/// The edits that write the given Java settings into a JSON configuration.
pub fn json_jvm_edits(
    format: JvmConfigFormat,
    xmx_mb: Option<u32>,
    jvm_args: Option<String>,
    java_path: Option<String>,
) -> (r: Vec<JsonEdit>)
    ensures
        edit_views(r@) == json_edits_for(format, xmx_mb, ov(jvm_args), ov(java_path)),
{
    let mut out: Vec<JsonEdit> = Vec::new();
    let ghost a = ov(jvm_args);
    let ghost j = ov(java_path);
    assert(edit_views(out@) =~= Seq::<EditText>::empty());
    match format {
        JvmConfigFormat::CurseForge => {
            if let Some(x) = xmx_mb {
                push_edit(&mut out, edit1("allocatedMemory", JsonEditValue::Number(x), "allocatedMemory", true));
            }
            let ghost e1 = edit_views(out@);
            if let Some(args) = jvm_args {
                push_edit(&mut out, edit1("javaArgsOverride", JsonEditValue::Text(args), "javaArgsOverride", false));
                push_edit(&mut out, flag_edit("isCustomJavaArgs"));
            }
            let ghost e2 = edit_views(out@);
            assert(e2 =~= e1 + when(
                a is Some,
                seq![
                    ("javaArgsOverride"@, EditValueText::Text(a->0), seq!["javaArgsOverride"@], false, true),
                    ("isCustomJavaArgs"@, EditValueText::Flag(true), Seq::<Seq<char>>::empty(), false, false),
                ],
            ));
            if let Some(java) = java_path {
                push_edit(&mut out, edit1("javaPath", JsonEditValue::Text(java), "javaPath", false));
                push_edit(&mut out, flag_edit("isCustomJavaPath"));
            }
            assert(edit_views(out@) =~= e2 + when(
                j is Some,
                seq![
                    ("javaPath"@, EditValueText::Text(j->0), seq!["javaPath"@], false, true),
                    ("isCustomJavaPath"@, EditValueText::Flag(true), Seq::<Seq<char>>::empty(), false, false),
                ],
            ));
            assert(edit_views(out@) =~= json_edits_for(format, xmx_mb, a, j));
        },
        JvmConfigFormat::AtLauncher | JvmConfigFormat::Modrinth => {
            if let Some(x) = xmx_mb {
                push_edit(&mut out, edit2("maximumMemory", JsonEditValue::Number(x), "memory", "maximumMemory", true));
            }
            if let Some(args) = jvm_args {
                push_edit(&mut out, edit2("javaArguments", JsonEditValue::Text(args), "javaArguments", "extraArguments", false));
            }
            assert(edit_views(out@) =~= json_edits_for(format, xmx_mb, a, j));
        },
        JvmConfigFormat::Prism => {},
    }
    out
}

/// After the Java settings are written into `instance.cfg`, each setting that was
/// given reads back as the new value, and a setting that was not given reads as
/// before.
pub proof fn law_applied_settings_read_back(
    content: Seq<char>,
    xmx: Option<u32>,
    xms: Option<u32>,
    args: Option<Seq<char>>,
    java: Option<Seq<char>>,
)
    ensures
        ({
            let before = text::lines(content);
            let after = prism_edit(content, xmx, xms, args, java).0;
            &&& read_cfg(after, "MaxMemAlloc"@) == match opt_dec(xmx) {
                Some(v) => Some(v),
                None => read_cfg(before, "MaxMemAlloc"@),
            }
            &&& read_cfg(after, "MinMemAlloc"@) == match opt_dec(xms) {
                Some(v) => Some(v),
                None => read_cfg(before, "MinMemAlloc"@),
            }
            &&& read_cfg(after, "JvmArgs"@) == match args {
                Some(v) => Some(v),
                None => read_cfg(before, "JvmArgs"@),
            }
            &&& read_cfg(after, "JavaPath"@) == match java {
                Some(v) => Some(v),
                None => read_cfg(before, "JavaPath"@),
            }
        }),
{
    reveal_strlit("MaxMemAlloc");
    reveal_strlit("MinMemAlloc");
    reveal_strlit("JvmArgs");
    reveal_strlit("JavaPath");
    let k1 = "MaxMemAlloc"@;
    let k2 = "MinMemAlloc"@;
    let k3 = "JvmArgs"@;
    let k4 = "JavaPath"@;
    assert(!k1.contains('=')) by {
        assert forall|i: int| 0 <= i < k1.len() implies k1[i] != '=' by {}
    }
    assert(!k2.contains('=')) by {
        assert forall|i: int| 0 <= i < k2.len() implies k2[i] != '=' by {}
    }
    assert(!k3.contains('=')) by {
        assert forall|i: int| 0 <= i < k3.len() implies k3[i] != '=' by {}
    }
    assert(!k4.contains('=')) by {
        assert forall|i: int| 0 <= i < k4.len() implies k4[i] != '=' by {}
    }
    assert(k1 != k2 && k1 != k3 && k1 != k4 && k2 != k3 && k2 != k4 && k3 != k4) by {
        assert(k1[1] != k2[1]);
        assert(k1.len() != k3.len());
        assert(k1.len() != k4.len());
        assert(k2.len() != k3.len());
        assert(k2.len() != k4.len());
        assert(k3[1] != k4[1]);
    }
    let l0 = text::lines(content);
    let s1 = prism_step((l0, Seq::<Change>::empty()), k1, opt_dec(xmx));
    let s2 = prism_step(s1, k2, opt_dec(xms));
    let s3 = prism_step(s2, k3, args);
    let s4 = prism_step(s3, k4, java);
    match opt_dec(xmx) { Some(v) => law_cfg_read_after_write(l0, k1, v), None => {} }
    match opt_dec(xms) { Some(v) => law_cfg_read_after_write(s1.0, k2, v), None => {} }
    match args { Some(v) => law_cfg_read_after_write(s2.0, k3, v), None => {} }
    match java { Some(v) => law_cfg_read_after_write(s3.0, k4, v), None => {} }
    match opt_dec(xms) { Some(v) => law_cfg_write_keeps_other_keys(s1.0, k2, v, k1), None => {} }
    match args {
        Some(v) => {
            law_cfg_write_keeps_other_keys(s2.0, k3, v, k1);
            law_cfg_write_keeps_other_keys(s2.0, k3, v, k2);
        },
        None => {},
    }
    match java {
        Some(v) => {
            law_cfg_write_keeps_other_keys(s3.0, k4, v, k1);
            law_cfg_write_keeps_other_keys(s3.0, k4, v, k2);
            law_cfg_write_keeps_other_keys(s3.0, k4, v, k3);
        },
        None => {},
    }
    match opt_dec(xmx) {
        Some(v) => {
            law_cfg_write_keeps_other_keys(l0, k1, v, k2);
            law_cfg_write_keeps_other_keys(l0, k1, v, k3);
            law_cfg_write_keeps_other_keys(l0, k1, v, k4);
        },
        None => {},
    }
    match opt_dec(xms) {
        Some(v) => {
            law_cfg_write_keeps_other_keys(s1.0, k2, v, k3);
            law_cfg_write_keeps_other_keys(s1.0, k2, v, k4);
        },
        None => {},
    }
    match args { Some(v) => law_cfg_write_keeps_other_keys(s2.0, k3, v, k4), None => {} }
}

/// A value found under a key of a JSON configuration, as far as the edits read
/// it: a non-negative integer, a text, or anything else.
#[derive(Debug, Clone)]
pub enum JsonScalar {
    Number(u64),
    Text(String),
    Other,
}

/// A found value as a number, a text or anything else.
pub enum ScalarText {
    Number(u64),
    Text(Seq<char>),
    Other,
}

pub open spec fn scalar_view(v: JsonScalar) -> ScalarText {
    match v {
        JsonScalar::Number(n) => ScalarText::Number(n),
        JsonScalar::Text(s) => ScalarText::Text(s@),
        JsonScalar::Other => ScalarText::Other,
    }
}

pub open spec fn found_views(v: Seq<Option<JsonScalar>>) -> Seq<Option<ScalarText>> {
    Seq::new(
        v.len(),
        |i: int|
            match v[i] {
                Some(x) => Some(scalar_view(x)),
                None => None,
            },
    )
}

/// The value under the first of the keys that is present.
pub open spec fn first_found(v: Seq<Option<ScalarText>>) -> Option<ScalarText>
    decreases v.len(),
{
    if v.len() == 0 {
        None
    } else if v[0] is Some {
        v[0]
    } else {
        first_found(v.drop_first())
    }
}

/// The value a JSON edit records as the one before: the value under the first
/// of its keys that is present, as decimal text where a number is read, or as
/// the text where a text is read; none where no key is present or the value
/// there is of the other kind.
pub open spec fn old_value_text(v: Seq<Option<ScalarText>>, as_number: bool) -> Option<Seq<char>> {
    match first_found(v) {
        Some(ScalarText::Number(n)) => if as_number {
            Some(text::dec(n as nat))
        } else {
            None
        },
        Some(ScalarText::Text(t)) => if as_number {
            None
        } else {
            Some(t)
        },
        _ => None,
    }
}

/// The value before an edit, from what each of the edit's `old_keys` holds in the
/// configuration (`None` where the key is absent), in the order of the keys.
pub fn old_json_value(found: &Vec<Option<JsonScalar>>, as_number: bool) -> (r: Option<String>)
    ensures
        ov(r) == old_value_text(found_views(found@), as_number),
{
    let ghost fv = found_views(found@);
    let mut i: usize = 0;
    assert(fv.skip(0) =~= fv);
    while i < found.len()
        invariant
            i <= found.len(),
            fv == found_views(found@),
            first_found(fv) == first_found(fv.skip(i as int)),
        decreases found.len() - i,
    {
        assert(fv.skip(i as int)[0] == fv[i as int]);
        match &found[i] {
            Some(x) => {
                return match x {
                    JsonScalar::Number(n) => if as_number {
                        Some(text::dec_string(*n))
                    } else {
                        None
                    },
                    JsonScalar::Text(t) => if as_number {
                        None
                    } else {
                        Some(text::copy_string(t))
                    },
                    JsonScalar::Other => None,
                };
            },
            None => {},
        }
        assert(fv.skip(i as int).drop_first() =~= fv.skip(i + 1));
        i = i + 1;
    }
    assert(fv.skip(i as int).len() == 0);
    None
}


// ---------------------------------------------------------------------------
// Editing a JSON configuration
// ---------------------------------------------------------------------------

/// How a written value is shown in the record of a change.
pub open spec fn shown_value(v: EditValueText) -> Seq<char> {
    match v {
        EditValueText::Number(n) => text::dec(n as nat),
        EditValueText::Text(s) => s,
        EditValueText::Flag(b) => if b {
            "true"@
        } else {
            "false"@
        },
    }
}

/// What a document holding `m` has under each of the top-level keys `keys`.
pub open spec fn found_under(m: Map<Seq<Seq<char>>, ScalarText>, keys: Seq<Seq<char>>) -> Seq<
    Option<ScalarText>,
> {
    Seq::new(keys.len(), |i: int| json::entry_at(m, seq![keys[i]]))
}

/// The edits applied in order to a document that holds `m`: what it holds
/// after them, and the recorded changes. Each edit reads the value before from
/// the document as the earlier edits left it, then sets its key.
pub open spec fn run_json_edits(m: Map<Seq<Seq<char>>, ScalarText>, edits: Seq<EditText>) -> (Map<
    Seq<Seq<char>>,
    ScalarText,
>, Seq<Change>)
    decreases edits.len(),
{
    if edits.len() == 0 {
        (m, Seq::empty())
    } else {
        let e = edits[0];
        let before = old_value_text(found_under(m, e.2), e.3);
        let rest = run_json_edits(json::set_entry(m, e.0, json::written_scalar(e.1)), edits.drop_first());
        (rest.0, if e.4 {
            seq![(e.0, before, shown_value(e.1))] + rest.1
        } else {
            rest.1
        })
    }
}

/// The beginning of the error message for a configuration that cannot be
/// edited.
pub open spec fn json_failure_prefix(f: JvmConfigFormat) -> Seq<char> {
    if f is CurseForge {
        "Failed to parse CurseForge config"@
    } else {
        "Failed to parse config"@
    }
}

/// The error for a configuration text that cannot be edited: `serde_json`'s
/// message where the text is not JSON, else a note that it is not an object.
pub open spec fn json_failure_text(f: JvmConfigFormat, content: Seq<char>) -> Seq<char> {
    if json::json_valid(content) {
        json_failure_prefix(f) + ": "@ + "the configuration is not a JSON object"@
    } else {
        json_failure_prefix(f) + ": "@ + json::json_error_text(content)
    }
}

fn shown_text(v: &JsonEditValue) -> (r: String)
    ensures
        r@ == shown_value(edit_value_view(*v)),
{
    match v {
        JsonEditValue::Number(n) => text::dec_string(*n as u64),
        JsonEditValue::Text(s) => text::copy_string(s),
        JsonEditValue::Flag(b) => if *b {
            text::to_string("true")
        } else {
            text::to_string("false")
        },
    }
}

fn failure(format: JvmConfigFormat, detail: &str) -> (r: String)
    ensures
        r@ == json_failure_prefix(format) + ": "@ + detail@,
{
    let mut m: Vec<char> = Vec::new();
    match format {
        JvmConfigFormat::CurseForge => text::push_str(&mut m, "Failed to parse CurseForge config"),
        _ => text::push_str(&mut m, "Failed to parse config"),
    }
    text::push_str(&mut m, ": ");
    text::push_str(&mut m, detail);
    text::string_of(m.as_slice())
}

/// Writes the given Java settings into the text of a JSON launcher
/// configuration (CurseForge `minecraftinstance.json`, ATLauncher
/// `instance.json`, Modrinth `profile.json`): the edits of `json_jvm_edits`, in
/// order, each recording the value before where it is recorded. Gives the new
/// text, as `serde_json` writes it pretty-printed, and the changes. Fails with
/// the parser's message where the text is not JSON, and where there is an edit
/// to make but the document is neither an object nor null.
pub fn apply_json_jvm(
    content: &str,
    format: JvmConfigFormat,
    xmx_mb: Option<u32>,
    jvm_args: Option<String>,
    java_path: Option<String>,
) -> (r: Result<(String, Vec<(String, Option<String>, String)>), String>)
    ensures
        r is Ok <==> json::json_valid(content@) && (json::json_text_settable(content@)
            || json_edits_for(format, xmx_mb, ov(jvm_args), ov(java_path)).len() == 0),
        r matches Err(e) ==> e@ == json_failure_text(format, content@),
        r matches Ok(res) ==> change_views(res.1@) == run_json_edits(
            json::json_text_entries(content@),
            json_edits_for(format, xmx_mb, ov(jvm_args), ov(java_path)),
        ).1,
        r matches Ok(res) ==> json::json_valid(res.0@) && json::json_text_entries(res.0@)
            == run_json_edits(
            json::json_text_entries(content@),
            json_edits_for(format, xmx_mb, ov(jvm_args), ov(java_path)),
        ).0 && json::json_text_settable(res.0@) == json::json_text_settable(content@),
{
    let mut v = match json::json_parse(content) {
        Ok(v) => v,
        Err(e) => {
            return Err(failure(format, e.as_str()));
        },
    };
    let edits = json_jvm_edits(format, xmx_mb, jvm_args, java_path);
    let ghost ev = edit_views(edits@);
    if edits.len() > 0 && !json::json_is_settable(&v) {
        let r = failure(format, "the configuration is not a JSON object");
        return Err(r);
    }
    let ghost m0 = json::json_entries(v);
    let ghost total = run_json_edits(m0, ev);
    let ghost settable0 = json::json_settable(v);
    let mut changes: Vec<(String, Option<String>, String)> = Vec::new();
    let mut i: usize = 0;
    assert(ev.skip(0) =~= ev);
    assert(change_views(changes@) =~= Seq::<Change>::empty());
    while i < edits.len()
        invariant
            i <= edits.len(),
            ev == edit_views(edits@),
            edits.len() > 0 ==> json::json_settable(v),
            json::json_settable(v) == settable0,
            json::json_parsable(v),
            total == run_json_edits(m0, ev),
            total.0 == run_json_edits(json::json_entries(v), ev.skip(i as int)).0,
            total.1 == change_views(changes@) + run_json_edits(json::json_entries(v), ev.skip(i as int)).1,
        decreases edits.len() - i,
    {
        let e = &edits[i];
        let ghost m = json::json_entries(v);
        let ghost keys = text::sviews(e.old_keys@);
        let mut found: Vec<Option<JsonScalar>> = Vec::new();
        let mut j: usize = 0;
        while j < e.old_keys.len()
            invariant
                j <= e.old_keys.len(),
                keys == text::sviews(e.old_keys@),
                m == json::json_entries(v),
                found_views(found@) == found_under(m, keys).take(j as int),
            decreases e.old_keys.len() - j,
        {
            let ghost before = found_views(found@);
            let x = json::json_get(&v, e.old_keys[j].as_str());
            found.push(x);
            assert(found_views(found@) =~= before.push(json::scalar_opt_view(x)));
            assert(found_under(m, keys).take(j + 1) =~= found_under(m, keys).take(j as int).push(
                found_under(m, keys)[j as int],
            ));
            j = j + 1;
        }
        assert(found_under(m, keys).take(e.old_keys.len() as int) =~= found_under(m, keys));
        let before_value = old_json_value(&found, e.old_is_number);
        let shown = shown_text(&e.value);
        json::json_set(&mut v, e.key.as_str(), &e.value);
        let ghost rest = ev.skip(i as int);
        assert(rest[0] == ev[i as int]);
        assert(rest.drop_first() =~= ev.skip(i + 1));
        if e.recorded {
            let ghost cv = change_views(changes@);
            let key = text::copy_string(&e.key);
            changes.push((key, before_value, shown));
            assert(change_views(changes@) =~= cv + seq![(ev[i as int].0, ov(before_value), shown@)]);
            assert(total.1 == change_views(changes@) + run_json_edits(
                json::json_entries(v),
                ev.skip(i + 1),
            ).1) by {
                let tail = run_json_edits(json::json_entries(v), ev.skip(i + 1)).1;
                assert(cv + (seq![(ev[i as int].0, ov(before_value), shown@)] + tail) =~= cv + seq![
                    (ev[i as int].0, ov(before_value), shown@),
                ] + tail);
            }
        }
        i = i + 1;
    }
    assert(ev.skip(i as int) =~= Seq::<EditText>::empty());
    assert(change_views(changes@) + Seq::<Change>::empty() =~= change_views(changes@));
    let out = match json::json_pretty(&v) {
        Ok(s) => s,
        Err(e) => {
            return Err(e);
        },
    };
    Ok((out, changes))
}

} // verus!
