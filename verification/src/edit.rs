//! Single settings in `key=value` and `key:value` files: previewing a change of
//! one key, and reading the value a key has now.
use vstd::prelude::*;
use crate::text;

verus! {

/// A settings line, already trimmed, split at its separator: the text before
/// and after the first `=`, or, where the line has no `=`, the first `:`, and
/// which of the two it was.
pub open spec fn split_setting(t: Seq<char>) -> Option<(Seq<char>, Seq<char>, char)> {
    match text::split_once(t, '=') {
        Some(p) => Some((p.0, p.1, '=')),
        None => match text::split_once(t, ':') {
            Some(p) => Some((p.0, p.1, ':')),
            None => None,
        },
    }
}

/// Whether the line sets `key`: its trimmed text splits at a separator and the
/// trimmed part before it is `key`.
pub open spec fn sets_key(line: Seq<char>, key: Seq<char>) -> bool {
    match split_setting(text::trim(line)) {
        Some(p) => text::trim(p.0) == key,
        None => false,
    }
}

/// The line that sets `key` to `value` in place of `line`, with the separator
/// that `line` used.
pub open spec fn replaced_line(line: Seq<char>, key: Seq<char>, value: Seq<char>) -> Seq<char> {
    key + seq![split_setting(text::trim(line)).unwrap().2] + value
}

/// The lines after the change: each line that sets `key` replaced.
pub open spec fn changed_lines(ls: Seq<Seq<char>>, key: Seq<char>, value: Seq<char>) -> Seq<Seq<char>> {
    ls.map_values(
        |l: Seq<char>|
            if sets_key(l, key) {
                replaced_line(l, key, value)
            } else {
                l
            },
    )
}

/// The last line that sets `key`.
pub open spec fn last_setting_line(ls: Seq<Seq<char>>, key: Seq<char>) -> Option<Seq<char>>
    decreases ls.len(),
{
    if ls.len() == 0 {
        None
    } else if sets_key(ls.last(), key) {
        Some(ls.last())
    } else {
        last_setting_line(ls.drop_last(), key)
    }
}

/// The trimmed value of the first line that sets `key`.
pub open spec fn first_setting_value(ls: Seq<Seq<char>>, key: Seq<char>) -> Option<Seq<char>>
    decreases ls.len(),
{
    if ls.len() == 0 {
        None
    } else if sets_key(ls[0], key) {
        Some(text::trim(split_setting(text::trim(ls[0])).unwrap().1))
    } else {
        first_setting_value(ls.drop_first(), key)
    }
}

/// What a change of one key would do to a settings file.
#[derive(Debug, Clone)]
pub struct ConfigPreview {
    pub file: String,
    pub before: String,
    pub after: String,
    pub key: String,
    /// The whole last line that set the key, or empty.
    pub old_value: String,
    pub new_value: String,
}

/// `split_setting` of the trimmed line.
fn split_setting_of(line: &Vec<char>) -> (r: Option<(Vec<char>, Vec<char>, char)>)
    ensures
        match r {
            Some((a, b, c)) => split_setting(text::trim(line@)) == Some((a@, b@, c)),
            None => split_setting(text::trim(line@)) is None,
        },
{
    let t = text::trim_vec(line);
    match text::split_once_vec(&t, '=') {
        Some((a, b)) => Some((a, b, '=')),
        None => match text::split_once_vec(&t, ':') {
            Some((a, b)) => Some((a, b, ':')),
            None => None,
        },
    }
}

/// Whether the line sets `key`.
fn line_sets_key(line: &Vec<char>, key: &Vec<char>) -> (r: bool)
    ensures
        r == sets_key(line@, key@),
{
    match split_setting_of(line) {
        Some((k, _v, _c)) => {
            let kt = text::trim_vec(&k);
            text::seq_eq(&kt, key)
        },
        None => false,
    }
}

/// The preview of setting `key` to `new_value` in the file `filename` whose text
/// is `content`: the text before, the text after (each line that sets `key`
/// rewritten as `key`, its separator and `new_value`), and the last line that
/// set `key` before, or empty where none did.
pub fn preview_config_change(filename: String, content: &str, key: String, new_value: String) -> (r:
    ConfigPreview)
    ensures
        r.file@ == filename@,
        r.before@ == text::join(text::lines(content@), "\n"@),
        r.after@ == text::join(changed_lines(text::lines(content@), key@, new_value@), "\n"@),
        r.key@ == key@,
        r.old_value@ == match last_setting_line(text::lines(content@), key@) {
            Some(l) => l,
            None => Seq::<char>::empty(),
        },
        r.new_value@ == new_value@,
{
    let cs = text::chars_of(content);
    let ls = text::lines_of(&cs);
    let kc = text::chars_of_string(&key);
    let vc = text::chars_of_string(&new_value);
    let ghost lv = text::lines(content@);
    let mut after: Vec<Vec<char>> = Vec::new();
    let mut old: Option<Vec<char>> = None;
    let mut i: usize = 0;
    while i < ls.len()
        invariant
            i <= ls.len(),
            text::vviews(ls@) == lv,
            kc@ == key@,
            vc@ == new_value@,
            text::vviews(after@) == changed_lines(lv.take(i as int), key@, new_value@),
            match old {
                Some(o) => last_setting_line(lv.take(i as int), key@) == Some(o@),
                None => last_setting_line(lv.take(i as int), key@) is None,
            },
        decreases ls.len() - i,
    {
        let ghost l = lv[i as int];
        assert(ls@[i as int]@ == l);
        assert(lv.take(i + 1).drop_last() =~= lv.take(i as int));
        assert(lv.take(i + 1).last() == l);
        let ghost prev = text::vviews(after@);
        match split_setting_of(&ls[i]) {
            Some((k, _v, sep)) => {
                let kt = text::trim_vec(&k);
                if text::seq_eq(&kt, &kc) {
                    let mut line: Vec<char> = Vec::new();
                    text::push_chars(&mut line, &kc);
                    line.push(sep);
                    text::push_chars(&mut line, &vc);
                    assert(line@ =~= replaced_line(l, key@, new_value@));
                    assert(sets_key(l, key@));
                    old = Some(text::slice_to_vec(&ls[i], 0, ls[i].len()));
                    assert(ls@[i as int]@.subrange(0, ls@[i as int]@.len() as int) =~= l);
                    after.push(line);
                } else {
                    assert(!sets_key(l, key@));
                    after.push(text::slice_to_vec(&ls[i], 0, ls[i].len()));
                    assert(ls@[i as int]@.subrange(0, ls@[i as int]@.len() as int) =~= l);
                }
            },
            None => {
                after.push(text::slice_to_vec(&ls[i], 0, ls[i].len()));
                assert(ls@[i as int]@.subrange(0, ls@[i as int]@.len() as int) =~= l);
            },
        }
        assert(changed_lines(lv.take(i + 1), key@, new_value@) =~= changed_lines(lv.take(i as int), key@, new_value@).push(
            if sets_key(l, key@) {
                replaced_line(l, key@, new_value@)
            } else {
                l
            },
        ));
        assert(text::vviews(after@) =~= changed_lines(lv.take(i + 1), key@, new_value@));
        i = i + 1;
    }
    assert(lv.take(ls.len() as int) =~= lv);
    let before = text::join_vecs(&ls, "\n");
    let after_text = text::join_vecs(&after, "\n");
    let old_value = match old {
        Some(o) => text::string_of(o.as_slice()),
        None => String::new(),
    };
    ConfigPreview {
        file: filename,
        before: text::string_of(before.as_slice()),
        after: text::string_of(after_text.as_slice()),
        key,
        old_value,
        new_value,
    }
}

/// The value `key` has in the settings text `content`: the trimmed text after
/// the separator of the first line that sets it, if one does.
pub fn current_setting_value(content: &str, key: &str) -> (r: Option<String>)
    ensures
        match r {
            Some(v) => first_setting_value(text::lines(content@), key@) == Some(v@),
            None => first_setting_value(text::lines(content@), key@) is None,
        },
{
    let cs = text::chars_of(content);
    let ls = text::lines_of(&cs);
    let kc = text::chars_of(key);
    let ghost lv = text::lines(content@);
    let mut i: usize = 0;
    assert(lv.skip(0) =~= lv);
    while i < ls.len()
        invariant
            i <= ls.len(),
            text::vviews(ls@) == lv,
            kc@ == key@,
            lv == text::lines(content@),
            first_setting_value(lv, key@) == first_setting_value(lv.skip(i as int), key@),
        decreases ls.len() - i,
    {
        assert(ls@[i as int]@ == lv[i as int]);
        assert(lv.skip(i as int)[0] == lv[i as int]);
        match split_setting_of(&ls[i]) {
            Some((k, v, _sep)) => {
                let kt = text::trim_vec(&k);
                if text::seq_eq(&kt, &kc) {
                    let vt = text::trim_vec(&v);
                    assert(sets_key(lv[i as int], key@));
                    assert(first_setting_value(lv.skip(i as int), key@) == Some(text::trim(v@)));
                    return Some(text::string_of(vt.as_slice()));
                }
            },
            None => {},
        }
        assert(lv.skip(i as int).drop_first() =~= lv.skip(i + 1));
        i = i + 1;
    }
    None
}

/// The history line recorded for a settings change: `Changed {key} from {old}
/// to {new}`, with `(unset)` where the key had no value.
pub open spec fn change_description(key: Seq<char>, old: Option<Seq<char>>, new_value: Seq<char>) -> Seq<char> {
    "Changed "@ + key + " from "@ + match old {
        Some(o) => o,
        None => "(unset)"@,
    } + " to "@ + new_value
}

/// The description of a settings change, for the optimisation history.
pub fn describe_change(key: &str, old: &Option<String>, new_value: &str) -> (r: String)
    ensures
        r@ == change_description(
            key@,
            match old {
                Some(o) => Some(o@),
                None => None,
            },
            new_value@,
        ),
{
    let mut out: Vec<char> = Vec::new();
    text::push_str(&mut out, "Changed ");
    text::push_str(&mut out, key);
    text::push_str(&mut out, " from ");
    match old {
        Some(o) => text::push_string(&mut out, o),
        None => text::push_str(&mut out, "(unset)"),
    }
    text::push_str(&mut out, " to ");
    text::push_str(&mut out, new_value);
    text::string_of(out.as_slice())
}

// ---------------------------------------------------------------------------
// Reading a changed setting back
// ---------------------------------------------------------------------------

/// The separator of the first line that sets `key`.
pub open spec fn first_setting_sep(ls: Seq<Seq<char>>, key: Seq<char>) -> Option<char>
    decreases ls.len(),
{
    if ls.len() == 0 {
        None
    } else if sets_key(ls[0], key) {
        Some(split_setting(text::trim(ls[0])).unwrap().2)
    } else {
        first_setting_sep(ls.drop_first(), key)
    }
}

/// `s` holds no `c`.
pub open spec fn lacks(s: Seq<char>, c: char) -> bool {
    forall|i: int| 0 <= i < s.len() ==> s[i] != c
}

/// `trim_start(s)` drops the leading white space of `s`: it is `s` from its first
/// other character on.
proof fn lemma_trim_start_skip_ws(s: Seq<char>) -> (k: int)
    ensures
        0 <= k <= s.len(),
        text::trim_start(s) == s.skip(k),
        forall|j: int| 0 <= j < k ==> text::is_ws(s[j]),
        k < s.len() ==> !text::is_ws(s[k]),
    decreases s.len(),
{
    if s.len() > 0 && text::is_ws(s[0]) {
        let k1 = lemma_trim_start_skip_ws(s.drop_first());
        assert(s.drop_first().skip(k1) =~= s.skip(k1 + 1));
        assert forall|j: int| 0 <= j < k1 + 1 implies text::is_ws(s[j]) by {
            if j > 0 {
                assert(s[j] == s.drop_first()[j - 1]);
            }
        }
        if k1 + 1 < s.len() {
            assert(s[k1 + 1] == s.drop_first()[k1]);
        }
        k1 + 1
    } else {
        assert(s.skip(0) =~= s);
        0
    }
}

/// `trim_end(s)` is a prefix of `s`.
proof fn lemma_trim_end_prefix(s: Seq<char>) -> (m: int)
    ensures
        0 <= m <= s.len(),
        text::trim_end(s) == s.take(m),
    decreases s.len(),
{
    if s.len() > 0 && text::is_ws(s.last()) {
        let m1 = lemma_trim_end_prefix(s.drop_last());
        assert(s.drop_last().take(m1) =~= s.take(m1));
        m1
    } else {
        assert(s.take(s.len() as int) =~= s);
        s.len() as int
    }
}

/// Trimming the end twice is trimming it once.
proof fn lemma_trim_end_twice(s: Seq<char>)
    ensures
        text::trim_end(text::trim_end(s)) == text::trim_end(s),
    decreases s.len(),
{
    if s.len() > 0 && text::is_ws(s.last()) {
        lemma_trim_end_twice(s.drop_last());
    }
}

/// Trimming the start and the end can be done in either order.
proof fn lemma_trim_order(v: Seq<char>)
    ensures
        text::trim_start(text::trim_end(v)) == text::trim_end(text::trim_start(v)),
    decreases v.len(),
{
    if v.len() == 0 {
    } else if !text::is_ws(v.last()) {
        let k = lemma_trim_start_skip_ws(v);
        if k == v.len() {
            assert(text::is_ws(v[v.len() - 1]));
        }
        let t = v.skip(k);
        assert(t.len() > 0 && t.last() == v.last());
    } else {
        lemma_trim_order(v.drop_last());
        let k = lemma_trim_start_skip_ws(v);
        let k2 = lemma_trim_start_skip_ws(v.drop_last());
        if k == v.len() {
            assert forall|j: int| 0 <= j < v.drop_last().len() implies text::is_ws(v.drop_last()[j]) by {
                assert(v.drop_last()[j] == v[j]);
            }
            if k2 < v.drop_last().len() {
                assert(v.drop_last()[k2] == v[k2]);
            }
            assert(text::trim_start(v) =~= Seq::<char>::empty());
            assert(text::trim_start(v.drop_last()) =~= Seq::<char>::empty());
        } else {
            assert(k < v.len() - 1);
            if k2 < k {
                assert(v.drop_last()[k2] == v[k2]);
            }
            if k2 > k {
                assert(v.drop_last()[k] == v[k]);
            }
            assert(k2 == k);
            let t = v.skip(k);
            assert(v.drop_last().skip(k) =~= t.drop_last());
            assert(t.len() > 0 && t.last() == v.last());
        }
    }
}

/// Trimming a text without white space at its ends changes nothing there: a
/// trimmed non-empty text starts and ends with other characters.
proof fn lemma_trimmed_ends(s: Seq<char>)
    requires
        text::trim(s) == s,
        s.len() > 0,
    ensures
        !text::is_ws(s[0]),
        !text::is_ws(s.last()),
{
    let k = lemma_trim_start_skip_ws(s);
    let t = text::trim_start(s);
    let m = lemma_trim_end_prefix(t);
    assert(text::trim_end(t) == s);
    assert(k == 0);
    assert(t =~= s);
    if text::is_ws(s.last()) {
        let m2 = lemma_trim_end_prefix(s.drop_last());
        assert(text::trim_end(s) == text::trim_end(s.drop_last()));
    }
}

/// Trimming the end of `a + b`, where `a` ends in another character than white
/// space, trims only `b`.
proof fn lemma_trim_end_after(a: Seq<char>, b: Seq<char>)
    requires
        a.len() > 0,
        !text::is_ws(a.last()),
    ensures
        text::trim_end(a + b) == a + text::trim_end(b),
    decreases b.len(),
{
    if b.len() == 0 {
        assert(a + b =~= a);
        assert(a + text::trim_end(b) =~= a);
    } else {
        assert((a + b).last() == b.last());
        if text::is_ws(b.last()) {
            assert((a + b).drop_last() =~= a + b.drop_last());
            lemma_trim_end_after(a, b.drop_last());
        }
    }
}

/// The line that sets `key` to `v`, trimmed and split, gives back `key` and the
/// trimmed `v`.
proof fn lemma_replaced_line(line: Seq<char>, key: Seq<char>, v: Seq<char>)
    requires
        sets_key(line, key),
        text::trim(key) == key,
        lacks(key, '='),
        lacks(key, ':'),
        split_setting(text::trim(line)).unwrap().2 == ':' ==> lacks(v, '='),
    ensures
        sets_key(replaced_line(line, key, v), key),
        text::trim(split_setting(text::trim(replaced_line(line, key, v))).unwrap().1) == text::trim(v),
        split_setting(text::trim(replaced_line(line, key, v))).unwrap().2 == split_setting(text::trim(line)).unwrap().2,
{
    let sep = split_setting(text::trim(line)).unwrap().2;
    let a = key + seq![sep];
    let l = replaced_line(line, key, v);
    assert(l =~= a + v);
    assert(sep == '=' || sep == ':');
    assert(!text::is_ws(sep));
    if key.len() > 0 {
        lemma_trimmed_ends(key);
        assert(l[0] == key[0]);
    } else {
        assert(l[0] == sep);
    }
    assert(text::trim_start(l) == l);
    lemma_trim_end_after(a, v);
    let tv = text::trim_end(v);
    let t = a + tv;
    assert(text::trim(l) == t);
    let n = key.len() as int;
    assert(t[n] == sep);
    assert(t.take(n) =~= key);
    assert(t.subrange(n + 1, t.len() as int) =~= tv);
    let m = lemma_trim_end_prefix(v);
    if sep == '=' {
        assert(text::first_index(t, '=', n));
        text::lemma_split_char_first(t, '=', n);
    } else {
        assert forall|j: int| 0 <= j < t.len() implies t[j] != '=' by {
            if j < n {
                assert(t[j] == key[j]);
            } else if j > n {
                assert(t[j] == v[j - n - 1]);
            }
        }
        text::lemma_split_char_no_occurrence(t, '=');
        assert(text::first_index(t, ':', n));
        text::lemma_split_char_first(t, ':', n);
    }
    assert(split_setting(t) == Some((key, tv, sep)));
    lemma_trim_order(v);
    lemma_trim_end_twice(text::trim_start(v));
}

/// Reading a changed setting back: in the lines after setting `key` to `v`, the
/// first line that sets `key` gives the trimmed `v` where a line set it before,
/// and none does where none did. This holds for a key without white space at its
/// ends and without `=` or `:`, and, where the first line that set the key used
/// `:`, for a value without `=`.
pub proof fn law_changed_setting_reads_back(ls: Seq<Seq<char>>, key: Seq<char>, v: Seq<char>)
    requires
        text::trim(key) == key,
        lacks(key, '='),
        lacks(key, ':'),
        first_setting_sep(ls, key) == Some(':') ==> lacks(v, '='),
    ensures
        first_setting_value(changed_lines(ls, key, v), key) == match first_setting_value(ls, key) {
            Some(_) => Some(text::trim(v)),
            None => None,
        },
    decreases ls.len(),
{
    let c = changed_lines(ls, key, v);
    if ls.len() == 0 {
        assert(c.len() == 0);
    } else {
        assert(c[0] == (if sets_key(ls[0], key) {
            replaced_line(ls[0], key, v)
        } else {
            ls[0]
        }));
        if sets_key(ls[0], key) {
            lemma_replaced_line(ls[0], key, v);
        } else {
            assert(c.drop_first() =~= changed_lines(ls.drop_first(), key, v));
            law_changed_setting_reads_back(ls.drop_first(), key, v);
        }
    }
}

} // verus!
