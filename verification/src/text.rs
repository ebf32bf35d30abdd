//! Character-level text operations with their mathematical meaning.
//!
//! Every text value is modelled by its sequence of Unicode scalar values
//! (`Seq<char>`), which is the view that vstd gives to `String` and `&str`.
use vstd::prelude::*;

verus! {

// ---------------------------------------------------------------------------
// Conversions between std strings and character vectors
// ---------------------------------------------------------------------------

/// The characters of `s`, in order.
pub fn chars_of(s: &str) -> (r: Vec<char>)
    ensures
        r@ == s@,
{
    let mut v: Vec<char> = Vec::new();
    for c in it: s.chars()
        invariant
            v@ == it.seq().take(it.index() as int),
    {
        v.push(c);
    }
    v
}

/// The string made of the characters of `v`, in order (`FromIterator<&char>` for `String`).
#[verifier::external_body]
pub(crate) fn string_of(v: &[char]) -> (r: String)
    ensures
        r@ == v@,
{
    String::from_iter(v)
}

/// The result that `str::to_lowercase` gives: Unicode full lowercase mapping of every
/// character. It depends on its argument alone.
pub uninterp spec fn spec_lowercase(s: Seq<char>) -> Seq<char>;

/// A text of ASCII characters only.
pub open spec fn is_ascii_text(s: Seq<char>) -> bool {
    forall|i: int| 0 <= i < s.len() ==> (s[i] as u32) < 128
}

/// The ASCII lowercase of a character: `A`-`Z` become `a`-`z`, every other
/// character stays.
pub open spec fn ascii_lower(c: char) -> char {
    if 'A' <= c && c <= 'Z' {
        ((c as int) + 32) as char
    } else {
        c
    }
}

/// `str::to_lowercase`: the Unicode lowercase form of `s`, named by
/// `spec_lowercase`. For an ASCII text that is the ASCII lowercase of each
/// character (Unicode lowercases `A`-`Z` to `a`-`z` and leaves every other ASCII
/// character as it is).
#[verifier::external_body]
pub(crate) fn lowercase(s: &str) -> (r: String)
    ensures
        r@ == spec_lowercase(s@),
        is_ascii_text(s@) ==> r@ == s@.map_values(|c: char| ascii_lower(c)),
{
    s.to_lowercase()
}

/// The characters of `s`, in order.
pub fn chars_of_string(s: &String) -> (r: Vec<char>)
    ensures
        r@ == s@,
{
    chars_of(s.as_str())
}

/// Appends the characters of `s` to `out`.
pub fn push_str(out: &mut Vec<char>, s: &str)
    ensures
        final(out)@ == old(out)@ + s@,
{
    let mut v = chars_of(s);
    out.append(&mut v);
}

/// Appends the characters of `s` to `out`.
pub fn push_chars(out: &mut Vec<char>, s: &Vec<char>)
    ensures
        final(out)@ == old(out)@ + s@,
{
    let mut i: usize = 0;
    let ghost o = out@;
    while i < s.len()
        invariant
            i <= s.len(),
            out@ == o + s@.take(i as int),
        decreases s.len() - i,
    {
        out.push(s[i]);
        i = i + 1;
        assert(s@.take(i as int) == s@.take(i - 1).push(s@[i - 1]));
    }
    assert(s@.take(i as int) == s@);
}

/// Appends the characters of `s` to `out`.
pub fn push_string(out: &mut Vec<char>, s: &String)
    ensures
        final(out)@ == old(out)@ + s@,
{
    push_str(out, s.as_str());
}

/// A copy of `s`.
pub fn copy_string(s: &String) -> (r: String)
    ensures
        r@ == s@,
{
    String::from_str(s.as_str())
}

/// A new string with the characters of `s`.
pub fn to_string(s: &str) -> (r: String)
    ensures
        r@ == s@,
{
    String::from_str(s)
}

/// Whether two strings hold the same characters.
pub fn str_eq(a: &str, b: &str) -> (r: bool)
    ensures
        r == (a@ == b@),
{
    let x = chars_of(a);
    let y = chars_of(b);
    seq_eq(&x, &y)
}

/// Whether two character vectors hold the same characters.
pub fn seq_eq(x: &Vec<char>, y: &Vec<char>) -> (r: bool)
    ensures
        r == (x@ == y@),
{
    if x.len() != y.len() {
        return false;
    }
    let mut i: usize = 0;
    while i < x.len()
        invariant
            i <= x.len(),
            x.len() == y.len(),
            forall|j: int| 0 <= j < i ==> x@[j] == y@[j],
        decreases x.len() - i,
    {
        if x[i] != y[i] {
            return false;
        }
        i = i + 1;
    }
    assert(x@ =~= y@);
    true
}

// ---------------------------------------------------------------------------
// Prefixes, suffixes, containment
// ---------------------------------------------------------------------------

/// `p` is a prefix of `s`.
pub open spec fn is_prefix(p: Seq<char>, s: Seq<char>) -> bool {
    p.len() <= s.len() && s.subrange(0, p.len() as int) == p
}

/// `p` is a suffix of `s`.
pub open spec fn is_suffix(p: Seq<char>, s: Seq<char>) -> bool {
    p.len() <= s.len() && s.subrange(s.len() - p.len(), s.len() as int) == p
}

/// `p` occurs in `s` starting at index `i`.
pub open spec fn occurs_at(s: Seq<char>, p: Seq<char>, i: int) -> bool {
    0 <= i && i + p.len() <= s.len() && s.subrange(i, i + p.len()) == p
}

/// `p` occurs somewhere in `s` (as `str::contains` with a string pattern decides it).
pub open spec fn contains(s: Seq<char>, p: Seq<char>) -> bool {
    exists|i: int| occurs_at(s, p, i)
}

/// Whether `p` occurs in `s` at index `i`.
fn matches_at(s: &Vec<char>, p: &Vec<char>, i: usize) -> (r: bool)
    requires
        i + p.len() <= s.len(),
    ensures
        r == occurs_at(s@, p@, i as int),
{
    let mut k: usize = 0;
    while k < p.len()
        invariant
            k <= p.len(),
            i + p.len() <= s.len(),
            forall|j: int| 0 <= j < k ==> s@[i + j] == p@[j],
        decreases p.len() - k,
    {
        if s[i + k] != p[k] {
            assert(s@.subrange(i as int, i + p.len())[k as int] != p@[k as int]);
            return false;
        }
        k = k + 1;
    }
    assert(s@.subrange(i as int, i + p.len()) =~= p@);
    true
}

/// Whether `p` occurs in `s`.
pub fn seq_contains(s: &Vec<char>, p: &Vec<char>) -> (r: bool)
    ensures
        r == contains(s@, p@),
{
    if p.len() > s.len() {
        return false;
    }
    let last = s.len() - p.len();
    let mut i: usize = 0;
    loop
        invariant
            last == s.len() - p.len(),
            p.len() <= s.len(),
            i <= last,
            forall|j: int| 0 <= j < i ==> !occurs_at(s@, p@, j),
        decreases last - i,
    {
        if matches_at(s, p, i) {
            return true;
        }
        if i == last {
            assert forall|j: int| !occurs_at(s@, p@, j) by {
                if 0 <= j && j < i {
                }
            }
            return false;
        }
        i = i + 1;
    }
}

/// Whether the literal `p` occurs in `s`.
pub fn contains_str(s: &Vec<char>, p: &str) -> (r: bool)
    ensures
        r == contains(s@, p@),
{
    let pv = chars_of(p);
    seq_contains(s, &pv)
}

/// Whether `p` is a prefix of `s`.
pub fn seq_starts_with(s: &Vec<char>, p: &Vec<char>) -> (r: bool)
    ensures
        r == is_prefix(p@, s@),
{
    if p.len() > s.len() {
        return false;
    }
    let r = matches_at(s, p, 0);
    assert(s@.subrange(0, p@.len() as int) == s@.subrange(0, 0 + p@.len() as int));
    r
}

/// Whether the literal `p` is a prefix of `s`.
pub fn starts_with_str(s: &Vec<char>, p: &str) -> (r: bool)
    ensures
        r == is_prefix(p@, s@),
{
    let pv = chars_of(p);
    seq_starts_with(s, &pv)
}

/// Whether `p` is a suffix of `s`.
pub fn seq_ends_with(s: &Vec<char>, p: &Vec<char>) -> (r: bool)
    ensures
        r == is_suffix(p@, s@),
{
    if p.len() > s.len() {
        return false;
    }
    let r = matches_at(s, p, s.len() - p.len());
    assert(s@.subrange(s.len() - p.len(), s.len() as int) == s@.subrange(
        (s.len() - p.len()) as int,
        (s.len() - p.len()) + p@.len(),
    ));
    r
}

/// Whether the literal `p` is a suffix of `s`.
pub fn ends_with_str(s: &Vec<char>, p: &str) -> (r: bool)
    ensures
        r == is_suffix(p@, s@),
{
    let pv = chars_of(p);
    seq_ends_with(s, &pv)
}

/// `str::trim_end_matches` with a string pattern: removes `p` from the end of `s`
/// as often as it is a suffix there.
pub open spec fn trim_end_matches(s: Seq<char>, p: Seq<char>) -> Seq<char>
    decreases s.len(),
{
    if p.len() > 0 && is_suffix(p, s) {
        trim_end_matches(s.subrange(0, s.len() - p.len()), p)
    } else {
        s
    }
}

/// `str::trim_end_matches(p)` for a literal `p`, as a new vector.
pub fn trim_end_matches_str(s: &Vec<char>, p: &str) -> (r: Vec<char>)
    ensures
        r@ == trim_end_matches(s@, p@),
{
    let pv = chars_of(p);
    let mut end: usize = s.len();
    assert(s@.subrange(0, s@.len() as int) == s@);
    while pv.len() > 0 && pv.len() <= end && matches_at(s, &pv, end - pv.len())
        invariant
            end <= s.len(),
            pv@ == p@,
            trim_end_matches(s@, p@) == trim_end_matches(s@.subrange(0, end as int), p@),
        decreases end,
    {
        let ghost t = s@.subrange(0, end as int);
        assert(t.subrange(t.len() - pv@.len(), t.len() as int) == s@.subrange(
            end - pv.len(),
            end - pv.len() + pv@.len(),
        ));
        assert(t.subrange(0, t.len() - pv@.len()) == s@.subrange(0, end - pv.len()));
        end = end - pv.len();
    }
    let ghost t = s@.subrange(0, end as int);
    if pv.len() > 0 && pv.len() <= end {
        assert(t.subrange(t.len() - pv@.len(), t.len() as int) == s@.subrange(
            end - pv.len(),
            end - pv.len() + pv@.len(),
        ));
    }
    slice_to_vec(s, 0, end)
}

/// The characters of `s` from index `start` (inclusive) to `end` (exclusive).
pub fn slice_to_vec(s: &Vec<char>, start: usize, end: usize) -> (r: Vec<char>)
    requires
        start <= end <= s.len(),
    ensures
        r@ == s@.subrange(start as int, end as int),
{
    let mut r: Vec<char> = Vec::new();
    let mut i: usize = start;
    while i < end
        invariant
            start <= i <= end <= s.len(),
            r@ == s@.subrange(start as int, i as int),
        decreases end - i,
    {
        r.push(s[i]);
        i = i + 1;
        assert(s@.subrange(start as int, i as int) == s@.subrange(start as int, i - 1).push(
            s@[i - 1],
        ));
    }
    r
}

// ---------------------------------------------------------------------------
// White space and trimming
// ---------------------------------------------------------------------------

/// The Unicode `White_Space` property, which `char::is_whitespace` and `str::trim` use.
pub open spec fn is_ws(c: char) -> bool {
    ||| ('\u{9}' <= c && c <= '\u{d}')
    ||| c == ' '
    ||| c == '\u{85}'
    ||| c == '\u{a0}'
    ||| c == '\u{1680}'
    ||| ('\u{2000}' <= c && c <= '\u{200a}')
    ||| c == '\u{2028}'
    ||| c == '\u{2029}'
    ||| c == '\u{202f}'
    ||| c == '\u{205f}'
    ||| c == '\u{3000}'
}

/// Whether `c` is white space, as `char::is_whitespace` decides it.
pub fn char_is_ws(c: char) -> (r: bool)
    ensures
        r == is_ws(c),
{
    ('\u{9}' <= c && c <= '\u{d}') || c == ' ' || c == '\u{85}' || c == '\u{a0}' || c == '\u{1680}'
        || ('\u{2000}' <= c && c <= '\u{200a}') || c == '\u{2028}' || c == '\u{2029}'
        || c == '\u{202f}' || c == '\u{205f}' || c == '\u{3000}'
}

/// `s` without its leading white space.
pub open spec fn trim_start(s: Seq<char>) -> Seq<char>
    decreases s.len(),
{
    if s.len() > 0 && is_ws(s[0]) {
        trim_start(s.drop_first())
    } else {
        s
    }
}

/// `s` without its trailing white space.
pub open spec fn trim_end(s: Seq<char>) -> Seq<char>
    decreases s.len(),
{
    if s.len() > 0 && is_ws(s.last()) {
        trim_end(s.drop_last())
    } else {
        s
    }
}

/// `str::trim`: `s` without leading and trailing white space.
pub open spec fn trim(s: Seq<char>) -> Seq<char> {
    trim_end(trim_start(s))
}

proof fn lemma_trim_start_skip(s: Seq<char>, i: int)
    requires
        0 <= i <= s.len(),
        forall|j: int| 0 <= j < i ==> is_ws(s[j]),
    ensures
        trim_start(s) == trim_start(s.skip(i)),
    decreases i,
{
    if i > 0 {
        assert(s.drop_first().skip(i - 1) == s.skip(i));
        lemma_trim_start_skip(s.drop_first(), i - 1);
    } else {
        assert(s.skip(0) == s);
    }
}

proof fn lemma_trim_end_take(s: Seq<char>, i: int)
    requires
        0 <= i <= s.len(),
        forall|j: int| i <= j < s.len() ==> is_ws(s[j]),
    ensures
        trim_end(s) == trim_end(s.take(i)),
    decreases s.len() - i,
{
    if i < s.len() {
        assert(s.drop_last().take(i) == s.take(i));
        lemma_trim_end_take(s.drop_last(), i);
    } else {
        assert(s.take(i) == s);
    }
}

/// The bounds of `str::trim` applied to `s`: `trim(s)` is `s[start..end]`.
pub fn trim_bounds(s: &Vec<char>) -> (r: (usize, usize))
    ensures
        r.0 <= r.1 <= s.len(),
        trim(s@) == s@.subrange(r.0 as int, r.1 as int),
{
    let mut a: usize = 0;
    while a < s.len() && char_is_ws(s[a])
        invariant
            a <= s.len(),
            forall|j: int| 0 <= j < a ==> is_ws(s@[j]),
        decreases s.len() - a,
    {
        a = a + 1;
    }
    proof {
        lemma_trim_start_skip(s@, a as int);
    }
    let ghost t = s@.skip(a as int);
    let mut b: usize = s.len();
    while b > a && char_is_ws(s[b - 1])
        invariant
            a <= b <= s.len(),
            t == s@.skip(a as int),
            forall|j: int| b - a <= j < t.len() ==> is_ws(t[j]),
        decreases b,
    {
        b = b - 1;
    }
    proof {
        lemma_trim_end_take(t, b - a);
        assert(t.take(b - a) == s@.subrange(a as int, b as int));
        assert(trim_start(t) == t);
        if b > a {
            assert(t.take(b - a).last() == s@[b - 1]);
            assert(trim_end(t.take(b - a)) == t.take(b - a));
        } else {
            assert(trim_end(t.take(b - a)) == t.take(b - a));
        }
    }
    (a, b)
}

/// `str::trim`, as a new vector.
pub fn trim_vec(s: &Vec<char>) -> (r: Vec<char>)
    ensures
        r@ == trim(s@),
{
    let (a, b) = trim_bounds(s);
    slice_to_vec(s, a, b)
}

/// `str::trim`, as a new string.
pub fn trim_string(s: &str) -> (r: String)
    ensures
        r@ == trim(s@),
{
    let v = chars_of(s);
    let t = trim_vec(&v);
    string_of(t.as_slice())
}


// ---------------------------------------------------------------------------
// Splitting into pieces and lines
// ---------------------------------------------------------------------------

/// `str::split(c)` with a character pattern: the pieces between occurrences of `c`.
/// There is always at least one piece.
pub open spec fn split_char(s: Seq<char>, c: char) -> Seq<Seq<char>>
    decreases s.len(),
{
    if s.len() == 0 {
        seq![Seq::<char>::empty()]
    } else {
        let prev = split_char(s.drop_last(), c);
        if s.last() == c {
            prev.push(Seq::<char>::empty())
        } else {
            prev.update(prev.len() - 1, prev.last().push(s.last()))
        }
    }
}

/// `split_char` always yields at least one piece.
pub proof fn lemma_split_char_len(s: Seq<char>, c: char)
    ensures
        split_char(s, c).len() >= 1,
    decreases s.len(),
{
    if s.len() > 0 {
        lemma_split_char_len(s.drop_last(), c);
    }
}

/// The character sequences held by a vector of character vectors.
pub open spec fn vviews(v: Seq<Vec<char>>) -> Seq<Seq<char>> {
    Seq::new(v.len(), |i: int| v[i]@)
}

/// The pieces of `s` separated by `c`, as `str::split(c)` gives them.
pub fn split_on(s: &Vec<char>, c: char) -> (r: Vec<Vec<char>>)
    ensures
        vviews(r@) == split_char(s@, c),
        r.len() >= 1,
{
    let mut pieces: Vec<Vec<char>> = Vec::new();
    let mut cur: Vec<char> = Vec::new();
    let mut i: usize = 0;
    assert(s@.take(0) == Seq::<char>::empty());
    assert(vviews(pieces@).push(cur@) == split_char(s@.take(0), c));
    while i < s.len()
        invariant
            i <= s.len(),
            vviews(pieces@).push(cur@) == split_char(s@.take(i as int), c),
        decreases s.len() - i,
    {
        let ghost before = s@.take(i as int);
        proof {
            lemma_split_char_len(before, c);
        }
        let ch = s[i];
        assert(s@.take(i + 1).drop_last() == before);
        assert(s@.take(i + 1).last() == ch);
        if ch == c {
            let done = cur;
            let ghost pv = vviews(pieces@);
            pieces.push(done);
            assert(vviews(pieces@) =~= pv.push(done@));
            cur = Vec::new();
            assert(vviews(pieces@).push(cur@) =~= split_char(s@.take(i + 1), c));
        } else {
            let ghost old_cur = cur@;
            cur.push(ch);
            assert(vviews(pieces@).push(cur@) =~= split_char(s@.take(i + 1), c));
        }
        i = i + 1;
    }
    assert(s@.take(s.len() as int) == s@);
    let ghost pv = vviews(pieces@);
    pieces.push(cur);
    assert(vviews(pieces@) =~= pv.push(cur@));
    pieces
}

/// A line without the carriage return of a `\r\n` line ending.
pub open spec fn strip_cr(l: Seq<char>) -> Seq<char> {
    if l.len() > 0 && l.last() == '\r' {
        l.drop_last()
    } else {
        l
    }
}

/// `str::lines`: the lines of `s`, split at `\n`, each without the `\r` of a `\r\n`
/// ending; a final line ending does not start an empty line.
pub open spec fn lines(s: Seq<char>) -> Seq<Seq<char>> {
    let parts = split_char(s, '\n');
    let body = parts.take(parts.len() - 1).map_values(|l: Seq<char>| strip_cr(l));
    if parts.last().len() == 0 {
        body
    } else {
        body.push(parts.last())
    }
}

/// `strip_cr` of a vector.
pub fn strip_cr_vec(l: &Vec<char>) -> (r: Vec<char>)
    ensures
        r@ == strip_cr(l@),
{
    if l.len() > 0 && l[l.len() - 1] == '\r' {
        slice_to_vec(l, 0, l.len() - 1)
    } else {
        let r = slice_to_vec(l, 0, l.len());
        assert(l@.subrange(0, l@.len() as int) == l@);
        r
    }
}

/// The lines of `s`, as `str::lines` gives them.
pub fn lines_of(s: &Vec<char>) -> (r: Vec<Vec<char>>)
    ensures
        vviews(r@) == lines(s@),
{
    let parts = split_on(s, '\n');
    let n = parts.len() - 1;
    let ghost pv = vviews(parts@);
    let mut out: Vec<Vec<char>> = Vec::new();
    let mut i: usize = 0;
    while i < n
        invariant
            n == parts.len() - 1,
            i <= n,
            pv == vviews(parts@),
            vviews(out@) == pv.take(i as int).map_values(|l: Seq<char>| strip_cr(l)),
        decreases n - i,
    {
        let l = strip_cr_vec(&parts[i]);
        let ghost ov = vviews(out@);
        let ghost lv = l@;
        assert(lv == strip_cr(pv[i as int]));
        out.push(l);
        assert(vviews(out@) =~= ov.push(lv));
        assert(pv.take(i + 1).map_values(|l: Seq<char>| strip_cr(l)) =~= pv.take(i as int).map_values(
            |l: Seq<char>| strip_cr(l),
        ).push(lv));
        i = i + 1;
    }
    if parts[n].len() > 0 {
        let last = slice_to_vec(&parts[n], 0, parts[n].len());
        assert(parts[n as int]@.subrange(0, parts[n as int]@.len() as int) == parts[n as int]@);
        let ghost ov = vviews(out@);
        out.push(last);
        assert(vviews(out@) =~= ov.push(pv.last()));
    }
    out
}

/// `str::split_once(c)` with a character pattern: the text before and after the
/// first `c`.
pub open spec fn split_once(s: Seq<char>, c: char) -> Option<(Seq<char>, Seq<char>)> {
    let parts = split_char(s, c);
    if parts.len() <= 1 {
        None
    } else {
        Some((parts[0], s.subrange(parts[0].len() + 1int, s.len() as int)))
    }
}

/// Index of the first `c` in `s`, if there is one.
pub open spec fn first_index(s: Seq<char>, c: char, k: int) -> bool {
    0 <= k < s.len() && s[k] == c && forall|j: int| 0 <= j < k ==> s[j] != c
}

/// A text without `c` is one piece.
pub proof fn lemma_split_char_no_occurrence(s: Seq<char>, c: char)
    requires
        forall|j: int| 0 <= j < s.len() ==> s[j] != c,
    ensures
        split_char(s, c) == seq![s],
    decreases s.len(),
{
    if s.len() > 0 {
        lemma_split_char_no_occurrence(s.drop_last(), c);
        assert(s.drop_last().push(s.last()) == s);
        assert(split_char(s, c) =~= seq![s]);
    } else {
        assert(s == Seq::<char>::empty());
    }
}

/// The first piece ends at the first `c`.
pub proof fn lemma_split_char_first(s: Seq<char>, c: char, k: int)
    requires
        first_index(s, c, k),
    ensures
        split_char(s, c).len() >= 2,
        split_char(s, c)[0] == s.take(k),
    decreases s.len(),
{
    if s.len() - 1 == k {
        lemma_split_char_no_occurrence(s.drop_last(), c);
        assert(s.drop_last() == s.take(k));
    } else {
        lemma_split_char_first(s.drop_last(), c, k);
        assert(s.drop_last().take(k) == s.take(k));
    }
}

/// `str::split_once(c)`: the text before and after the first `c`, if `c` occurs.
pub fn split_once_vec(s: &Vec<char>, c: char) -> (r: Option<(Vec<char>, Vec<char>)>)
    ensures
        match r {
            Some((a, b)) => split_once(s@, c) == Some((a@, b@)),
            None => split_once(s@, c) is None,
        },
{
    let mut k: usize = 0;
    while k < s.len() && s[k] != c
        invariant
            k <= s.len(),
            forall|j: int| 0 <= j < k ==> s@[j] != c,
        decreases s.len() - k,
    {
        k = k + 1;
    }
    if k == s.len() {
        proof {
            lemma_split_char_no_occurrence(s@, c);
        }
        None
    } else {
        proof {
            lemma_split_char_first(s@, c, k as int);
        }
        let a = slice_to_vec(s, 0, k);
        let b = slice_to_vec(s, k + 1, s.len());
        Some((a, b))
    }
}

// ---------------------------------------------------------------------------
// Integers: parsing and decimal text
// ---------------------------------------------------------------------------

/// An ASCII decimal digit.
pub open spec fn is_digit(c: char) -> bool {
    '0' <= c && c <= '9'
}

/// Every character of `s` is an ASCII decimal digit.
pub open spec fn all_digits(s: Seq<char>) -> bool {
    forall|i: int| 0 <= i < s.len() ==> is_digit(#[trigger] s[i])
}

/// The number that the decimal digits `s` denote.
pub open spec fn digits_value(s: Seq<char>) -> nat
    decreases s.len(),
{
    if s.len() == 0 {
        0
    } else {
        digits_value(s.drop_last()) * 10 + ((s.last() as int) - ('0' as int)) as nat
    }
}

/// What `str::parse` gives for an integer type whose values are `min..=max`: an
/// optional sign (`-` only for signed types), then at least one ASCII digit, and a
/// value in range.
pub open spec fn parse_int(s: Seq<char>, min: int, max: int) -> Option<int> {
    let neg = s.len() > 0 && s[0] == '-' && min < 0;
    let signed = s.len() > 0 && (s[0] == '+' || neg);
    let d = if signed {
        s.drop_first()
    } else {
        s
    };
    if d.len() == 0 || !all_digits(d) {
        None
    } else {
        let v = if neg {
            -(digits_value(d) as int)
        } else {
            digits_value(d) as int
        };
        if min <= v && v <= max {
            Some(v)
        } else {
            None
        }
    }
}

proof fn lemma_digits_prefix_le(d: Seq<char>, i: int)
    requires
        all_digits(d),
        0 <= i <= d.len(),
    ensures
        digits_value(d.take(i)) <= digits_value(d),
    decreases d.len() - i,
{
    if i < d.len() {
        lemma_digits_prefix_le(d, i + 1);
        assert(d.take(i + 1).drop_last() == d.take(i));
        assert(d.take(i + 1).last() == d[i]);
    } else {
        assert(d.take(i) == d);
    }
}

/// The magnitude of the digits `s[from..]`, if it is at most `limit`.
fn digits_up_to(s: &Vec<char>, from: usize, limit: u64) -> (r: Option<u64>)
    requires
        from < s.len(),
        limit >= 9,
    ensures
        match r {
            Some(v) => all_digits(s@.skip(from as int)) && v == digits_value(s@.skip(from as int))
                && v <= limit,
            None => !all_digits(s@.skip(from as int)) || digits_value(s@.skip(from as int))
                > limit,
        },
{
    let ghost d = s@.skip(from as int);
    let mut acc: u64 = 0;
    let mut i: usize = from;
    assert(d.take(0) == Seq::<char>::empty());
    while i < s.len()
        invariant
            from <= i <= s.len(),
            d == s@.skip(from as int),
            all_digits(d.take(i - from)),
            acc == digits_value(d.take(i - from)),
            acc <= limit,
            limit >= 9,
        decreases s.len() - i,
    {
        let c = s[i];
        if !('0' <= c && c <= '9') {
            assert(d[i - from] == c);
            return None;
        }
        let dig: u64 = if c == '0' {
            0
        } else if c == '1' {
            1
        } else if c == '2' {
            2
        } else if c == '3' {
            3
        } else if c == '4' {
            4
        } else if c == '5' {
            5
        } else if c == '6' {
            6
        } else if c == '7' {
            7
        } else if c == '8' {
            8
        } else {
            9
        };
        assert(dig == (c as int) - ('0' as int));
        let ghost k = i - from;
        assert(d.take(k + 1).drop_last() == d.take(k));
        assert(d.take(k + 1).last() == c);
        assert(all_digits(d.take(k + 1)));
        if acc > (limit - dig) / 10 {
            proof {
                assert(digits_value(d.take(k + 1)) > limit) by (nonlinear_arith)
                    requires
                        digits_value(d.take(k + 1)) == acc * 10 + dig,
                        acc > (limit - dig) / 10,
                        dig <= limit || dig > limit,
                ;
                if all_digits(d) {
                    lemma_digits_prefix_le(d, k + 1);
                }
            }
            return None;
        }
        proof {
            assert(acc * 10 + dig <= limit) by (nonlinear_arith)
                requires
                    acc <= (limit - dig) / 10,
                    dig <= 9,
                    dig <= limit || acc == 0,
            ;
        }
        acc = acc * 10 + dig;
        i = i + 1;
    }
    assert(d.take(i - from) == d);
    Some(acc)
}

/// `str::parse::<i64>`.
pub fn parse_i64(s: &Vec<char>) -> (r: Option<i64>)
    ensures
        match r {
            Some(v) => parse_int(s@, i64::MIN as int, i64::MAX as int) == Some(v as int),
            None => parse_int(s@, i64::MIN as int, i64::MAX as int) is None,
        },
{
    if s.len() == 0 {
        return None;
    }
    let neg = s[0] == '-';
    let signed = s[0] == '+' || neg;
    let from: usize = if signed {
        1
    } else {
        0
    };
    if from >= s.len() {
        assert(s@.drop_first().len() == 0);
        return None;
    }
    assert(s@.skip(from as int) == (if signed {
        s@.drop_first()
    } else {
        s@
    }));
    let limit: u64 = if neg {
        0x8000_0000_0000_0000
    } else {
        0x7fff_ffff_ffff_ffff
    };
    match digits_up_to(s, from, limit) {
        None => None,
        Some(m) => {
            if neg {
                if m == 0x8000_0000_0000_0000 {
                    Some(i64::MIN)
                } else {
                    Some(-(m as i64))
                }
            } else {
                Some(m as i64)
            }
        },
    }
}

/// `str::parse::<u64>`.
pub fn parse_u64(s: &Vec<char>) -> (r: Option<u64>)
    ensures
        match r {
            Some(v) => parse_int(s@, 0, u64::MAX as int) == Some(v as int),
            None => parse_int(s@, 0, u64::MAX as int) is None,
        },
{
    if s.len() == 0 {
        return None;
    }
    let signed = s[0] == '+';
    let from: usize = if signed {
        1
    } else {
        0
    };
    if from >= s.len() {
        assert(s@.drop_first().len() == 0);
        return None;
    }
    assert(s@.skip(from as int) == (if signed {
        s@.drop_first()
    } else {
        s@
    }));
    digits_up_to(s, from, u64::MAX)
}

/// `str::parse::<i32>`.
pub fn parse_i32(s: &Vec<char>) -> (r: Option<i32>)
    ensures
        match r {
            Some(v) => parse_int(s@, i32::MIN as int, i32::MAX as int) == Some(v as int),
            None => parse_int(s@, i32::MIN as int, i32::MAX as int) is None,
        },
{
    match parse_i64(s) {
        Some(v) => {
            if i32::MIN as i64 <= v && v <= i32::MAX as i64 {
                Some(v as i32)
            } else {
                None
            }
        },
        None => None,
    }
}

/// `str::parse::<u32>`.
pub fn parse_u32(s: &Vec<char>) -> (r: Option<u32>)
    ensures
        match r {
            Some(v) => parse_int(s@, 0, u32::MAX as int) == Some(v as int),
            None => parse_int(s@, 0, u32::MAX as int) is None,
        },
{
    match parse_u64(s) {
        Some(v) => {
            if v <= u32::MAX as u64 {
                Some(v as u32)
            } else {
                None
            }
        },
        None => None,
    }
}

/// The ASCII digit for `n < 10`.
pub open spec fn digit_char(n: nat) -> char {
    if n == 0 {
        '0'
    } else if n == 1 {
        '1'
    } else if n == 2 {
        '2'
    } else if n == 3 {
        '3'
    } else if n == 4 {
        '4'
    } else if n == 5 {
        '5'
    } else if n == 6 {
        '6'
    } else if n == 7 {
        '7'
    } else if n == 8 {
        '8'
    } else {
        '9'
    }
}

/// The decimal text of `n`, as `Display` writes it.
pub open spec fn dec(n: nat) -> Seq<char>
    decreases n,
{
    if n < 10 {
        seq![digit_char(n)]
    } else {
        dec(n / 10).push(digit_char(n % 10))
    }
}

/// The decimal text of the integer `i`, with a `-` before a negative one.
pub open spec fn dec_int(i: int) -> Seq<char> {
    if i < 0 {
        seq!['-'] + dec((-i) as nat)
    } else {
        dec(i as nat)
    }
}

fn digit_of(n: u64) -> (c: char)
    requires
        n < 10,
    ensures
        c == digit_char(n as nat),
{
    if n == 0 {
        '0'
    } else if n == 1 {
        '1'
    } else if n == 2 {
        '2'
    } else if n == 3 {
        '3'
    } else if n == 4 {
        '4'
    } else if n == 5 {
        '5'
    } else if n == 6 {
        '6'
    } else if n == 7 {
        '7'
    } else if n == 8 {
        '8'
    } else {
        '9'
    }
}

/// Appends the decimal text of `n` to `out`.
pub fn push_dec(out: &mut Vec<char>, n: u64)
    ensures
        final(out)@ == old(out)@ + dec(n as nat),
    decreases n,
{
    if n >= 10 {
        push_dec(out, n / 10);
        out.push(digit_of(n % 10));
        assert(old(out)@ + dec(n as nat) == old(out)@ + dec((n / 10) as nat) + seq![
            digit_char((n % 10) as nat),
        ]);
    } else {
        out.push(digit_of(n));
        assert(old(out)@ + dec(n as nat) == old(out)@.push(digit_char(n as nat)));
    }
}

/// Appends the decimal text of the signed `n` to `out`.
pub fn push_dec_i64(out: &mut Vec<char>, n: i64)
    ensures
        final(out)@ == old(out)@ + dec_int(n as int),
{
    if n < 0 {
        out.push('-');
        let m: u64 = if n == i64::MIN {
            0x8000_0000_0000_0000
        } else {
            (-n) as u64
        };
        push_dec(out, m);
        assert(old(out)@ + dec_int(n as int) == old(out)@.push('-') + dec(m as nat));
    } else {
        push_dec(out, n as u64);
    }
}

/// The decimal text of `n`.
pub fn dec_string(n: u64) -> (r: String)
    ensures
        r@ == dec(n as nat),
{
    let mut v: Vec<char> = Vec::new();
    push_dec(&mut v, n);
    assert(v@ == Seq::<char>::empty() + dec(n as nat));
    string_of(v.as_slice())
}

/// The decimal text of the signed `n`.
pub fn dec_int_string(n: i64) -> (r: String)
    ensures
        r@ == dec_int(n as int),
{
    let mut v: Vec<char> = Vec::new();
    push_dec_i64(&mut v, n);
    assert(v@ == Seq::<char>::empty() + dec_int(n as int));
    string_of(v.as_slice())
}

// ---------------------------------------------------------------------------
// Joining
// ---------------------------------------------------------------------------

/// The text views of a sequence of strings.
pub open spec fn sviews(v: Seq<String>) -> Seq<Seq<char>> {
    Seq::new(v.len(), |i: int| v[i]@)
}

/// `[T]::join(sep)`: the pieces of `v` with `sep` between neighbours.
pub open spec fn join(v: Seq<Seq<char>>, sep: Seq<char>) -> Seq<char>
    decreases v.len(),
{
    if v.len() == 0 {
        Seq::empty()
    } else if v.len() == 1 {
        v[0]
    } else {
        join(v.drop_last(), sep) + sep + v.last()
    }
}

/// Joins character vectors with `sep` between neighbours.
pub fn join_vecs(v: &Vec<Vec<char>>, sep: &str) -> (r: Vec<char>)
    ensures
        r@ == join(vviews(v@), sep@),
{
    let mut out: Vec<char> = Vec::new();
    let mut i: usize = 0;
    while i < v.len()
        invariant
            i <= v.len(),
            out@ == join(vviews(v@).take(i as int), sep@),
        decreases v.len() - i,
    {
        let ghost prev = vviews(v@).take(i as int);
        if i > 0 {
            push_str(&mut out, sep);
        }
        push_chars(&mut out, &v[i]);
        assert(vviews(v@).take(i + 1).drop_last() == prev);
        if i == 0 {
            assert(out@ == v@[0]@);
        }
        i = i + 1;
    }
    assert(vviews(v@).take(v.len() as int) == vviews(v@));
    out
}

/// Joins strings with `sep` between neighbours.
pub fn join_strings(v: &Vec<String>, sep: &str) -> (r: Vec<char>)
    ensures
        r@ == join(sviews(v@), sep@),
{
    let mut out: Vec<char> = Vec::new();
    let mut i: usize = 0;
    while i < v.len()
        invariant
            i <= v.len(),
            out@ == join(sviews(v@).take(i as int), sep@),
        decreases v.len() - i,
    {
        let ghost prev = sviews(v@).take(i as int);
        if i > 0 {
            push_str(&mut out, sep);
        }
        push_string(&mut out, &v[i]);
        assert(sviews(v@).take(i + 1).drop_last() == prev);
        if i == 0 {
            assert(out@ == v@[0]@);
        }
        i = i + 1;
    }
    assert(sviews(v@).take(v.len() as int) == sviews(v@));
    out
}

/// One of `ds` contains `p`.
pub open spec fn some_contains(ds: Seq<Seq<char>>, p: Seq<char>) -> bool {
    exists|j: int| 0 <= j < ds.len() && #[trigger] contains(ds[j], p)
}

/// Whether one of `ds` contains `p`.
pub fn any_contains(ds: &Vec<String>, p: &Vec<char>) -> (r: bool)
    ensures
        r == some_contains(sviews(ds@), p@),
{
    let mut j: usize = 0;
    while j < ds.len()
        invariant
            j <= ds.len(),
            forall|k: int| 0 <= k < j ==> !contains(#[trigger] ds@[k]@, p@),
        decreases ds.len() - j,
    {
        let d = chars_of_string(&ds[j]);
        if seq_contains(&d, p) {
            assert(sviews(ds@)[j as int] == ds@[j as int]@);
            return true;
        }
        j = j + 1;
    }
    assert forall|k: int| 0 <= k < ds.len() implies !contains(#[trigger] sviews(ds@)[k], p@) by {
        assert(sviews(ds@)[k] == ds@[k]@);
    }
    false
}

/// Whether `v` holds a string equal to `x`.
pub fn contains_string(v: &Vec<String>, x: &Vec<char>) -> (r: bool)
    ensures
        r == sviews(v@).contains(x@),
{
    let mut j: usize = 0;
    while j < v.len()
        invariant
            j <= v.len(),
            forall|k: int| 0 <= k < j ==> #[trigger] v@[k]@ != x@,
        decreases v.len() - j,
    {
        let d = chars_of_string(&v[j]);
        if seq_eq(&d, x) {
            assert(sviews(v@)[j as int] == x@);
            return true;
        }
        j = j + 1;
    }
    assert forall|k: int| 0 <= k < v.len() implies #[trigger] sviews(v@)[k] != x@ by {
        assert(sviews(v@)[k] == v@[k]@);
    }
    false
}

/// One of `v` lower-cases to the same text as `x`.
pub open spec fn some_lower_eq(v: Seq<Seq<char>>, x: Seq<char>) -> bool {
    exists|j: int| 0 <= j < v.len() && #[trigger] spec_lowercase(v[j]) == spec_lowercase(x)
}

/// Whether one of `v` lower-cases to the same text as `x`.
pub fn any_lower_eq(v: &Vec<String>, x: &str) -> (r: bool)
    ensures
        r == some_lower_eq(sviews(v@), x@),
{
    let xl = lowercase(x);
    let xv = chars_of_string(&xl);
    let mut j: usize = 0;
    while j < v.len()
        invariant
            j <= v.len(),
            xv@ == spec_lowercase(x@),
            forall|k: int| 0 <= k < j ==> #[trigger] spec_lowercase(v@[k]@) != spec_lowercase(x@),
        decreases v.len() - j,
    {
        let l = lowercase(v[j].as_str());
        let lv = chars_of_string(&l);
        if seq_eq(&lv, &xv) {
            assert(sviews(v@)[j as int] == v@[j as int]@);
            return true;
        }
        j = j + 1;
    }
    assert forall|k: int| 0 <= k < v.len() implies #[trigger] spec_lowercase(sviews(v@)[k])
        != spec_lowercase(x@) by {
        assert(sviews(v@)[k] == v@[k]@);
    }
    false
}

/// The string slices' texts.
pub open spec fn str_views(v: Seq<&str>) -> Seq<Seq<char>> {
    Seq::new(v.len(), |i: int| v[i]@)
}

/// New strings with the texts of `v`.
pub fn strings_of(v: &Vec<&str>) -> (r: Vec<String>)
    ensures
        sviews(r@) == str_views(v@),
{
    let mut out: Vec<String> = Vec::new();
    let mut i: usize = 0;
    while i < v.len()
        invariant
            i <= v.len(),
            sviews(out@) == str_views(v@).take(i as int),
        decreases v.len() - i,
    {
        let ghost before = sviews(out@);
        out.push(to_string(v[i]));
        assert(sviews(out@) =~= before.push(v@[i as int]@));
        assert(str_views(v@).take(i + 1) =~= str_views(v@).take(i as int).push(v@[i as int]@));
        i = i + 1;
    }
    assert(str_views(v@).take(v.len() as int) == str_views(v@));
    out
}

/// A copy of a list of strings.
pub fn copy_strings(v: &Vec<String>) -> (r: Vec<String>)
    ensures
        sviews(r@) == sviews(v@),
{
    let mut out: Vec<String> = Vec::new();
    let mut i: usize = 0;
    while i < v.len()
        invariant
            i <= v.len(),
            sviews(out@) == sviews(v@).take(i as int),
        decreases v.len() - i,
    {
        let ghost before = sviews(out@);
        out.push(copy_string(&v[i]));
        assert(sviews(out@) =~= before.push(v@[i as int]@));
        assert(sviews(v@).take(i + 1) =~= sviews(v@).take(i as int).push(v@[i as int]@));
        i = i + 1;
    }
    assert(sviews(v@).take(v.len() as int) == sviews(v@));
    out
}

/// One of `v`, lower-cased, contains `p`.
pub open spec fn some_lower_contains(v: Seq<Seq<char>>, p: Seq<char>) -> bool {
    exists|j: int| 0 <= j < v.len() && #[trigger] contains(spec_lowercase(v[j]), p)
}

/// Whether one of `v`, lower-cased, contains `p`.
pub fn any_lower_contains(v: &Vec<String>, p: &str) -> (r: bool)
    ensures
        r == some_lower_contains(sviews(v@), p@),
{
    let mut j: usize = 0;
    while j < v.len()
        invariant
            j <= v.len(),
            forall|k: int| 0 <= k < j ==> !contains(#[trigger] spec_lowercase(v@[k]@), p@),
        decreases v.len() - j,
    {
        let l = lowercase(v[j].as_str());
        let lv = chars_of_string(&l);
        if contains_str(&lv, p) {
            assert(sviews(v@)[j as int] == v@[j as int]@);
            return true;
        }
        j = j + 1;
    }
    assert forall|k: int| 0 <= k < v.len() implies !contains(
        #[trigger] spec_lowercase(sviews(v@)[k]),
        p@,
    ) by {
        assert(sviews(v@)[k] == v@[k]@);
    }
    false
}

/// `str::trim_start_matches(c)` with a character: `s` without its leading `c`s.
pub open spec fn trim_start_char(s: Seq<char>, c: char) -> Seq<char>
    decreases s.len(),
{
    if s.len() > 0 && s[0] == c {
        trim_start_char(s.drop_first(), c)
    } else {
        s
    }
}

/// `str::trim_start_matches(c)` for a character `c`, as a new vector.
pub fn trim_start_char_vec(s: &Vec<char>, c: char) -> (r: Vec<char>)
    ensures
        r@ == trim_start_char(s@, c),
{
    let mut i: usize = 0;
    assert(s@.skip(0) == s@);
    while i < s.len() && s[i] == c
        invariant
            i <= s.len(),
            trim_start_char(s@, c) == trim_start_char(s@.skip(i as int), c),
        decreases s.len() - i,
    {
        assert(s@.skip(i as int).drop_first() == s@.skip(i + 1));
        i = i + 1;
    }
    assert(s@.skip(i as int) == s@.subrange(i as int, s.len() as int));
    slice_to_vec(s, i, s.len())
}

/// The number of bytes of `c` in UTF-8 (`char::len_utf8`).
pub open spec fn utf8_width(c: char) -> int {
    if (c as u32) < 0x80 {
        1
    } else if (c as u32) < 0x800 {
        2
    } else if (c as u32) < 0x10000 {
        3
    } else {
        4
    }
}

/// The number of bytes of `s` in UTF-8 (`str::len`).
pub open spec fn utf8_len(s: Seq<char>) -> int
    decreases s.len(),
{
    if s.len() == 0 {
        0
    } else {
        utf8_len(s.drop_last()) + utf8_width(s.last())
    }
}

/// The UTF-8 width of a character.
pub fn char_width(c: char) -> (w: usize)
    ensures
        w == utf8_width(c),
{
    let n = c as u32;
    if n < 0x80 {
        1
    } else if n < 0x800 {
        2
    } else if n < 0x10000 {
        3
    } else {
        4
    }
}

proof fn lemma_utf8_len_prefix(s: Seq<char>, i: int)
    requires
        0 <= i <= s.len(),
    ensures
        0 <= utf8_len(s.take(i)) <= utf8_len(s),
    decreases s.len() - i,
{
    if i < s.len() {
        lemma_utf8_len_prefix(s, i + 1);
        assert(s.take(i + 1).drop_last() == s.take(i));
        lemma_utf8_len_nonneg(s.take(i));
    } else {
        assert(s.take(i) == s);
        lemma_utf8_len_nonneg(s);
    }
}

/// A UTF-8 length is never negative.
pub proof fn lemma_utf8_len_nonneg(s: Seq<char>)
    ensures
        utf8_len(s) >= 0,
    decreases s.len(),
{
    if s.len() > 0 {
        lemma_utf8_len_nonneg(s.drop_last());
    }
}

/// The number of bytes of `s` in UTF-8.
pub fn utf8_len_of(s: &Vec<char>) -> (r: u64)
    requires
        utf8_len(s@) <= u64::MAX,
    ensures
        r == utf8_len(s@),
{
    let mut n: u64 = 0;
    let mut i: usize = 0;
    assert(s@.take(0) == Seq::<char>::empty());
    while i < s.len()
        invariant
            i <= s.len(),
            utf8_len(s@) <= u64::MAX,
            n == utf8_len(s@.take(i as int)),
        decreases s.len() - i,
    {
        proof {
            lemma_utf8_len_prefix(s@, i + 1);
            assert(s@.take(i + 1).drop_last() == s@.take(i as int));
        }
        n = n + char_width(s[i]) as u64;
        i = i + 1;
    }
    assert(s@.take(s.len() as int) == s@);
    n
}

/// `str::replace(from, to)`: every occurrence of `from`, found left to right
/// without overlap, replaced by `to`.
pub open spec fn replace_all(s: Seq<char>, from: Seq<char>, to: Seq<char>) -> Seq<char>
    decreases s.len(),
{
    if s.len() == 0 || from.len() == 0 {
        s
    } else if is_prefix(from, s) {
        to + replace_all(s.skip(from.len() as int), from, to)
    } else {
        seq![s[0]] + replace_all(s.drop_first(), from, to)
    }
}

/// `str::trim_end_matches(c)` with a character: `s` without its trailing `c`s.
pub open spec fn trim_end_char(s: Seq<char>, c: char) -> Seq<char>
    decreases s.len(),
{
    if s.len() > 0 && s.last() == c {
        trim_end_char(s.drop_last(), c)
    } else {
        s
    }
}

/// `str::trim_matches(c)` with a character: `s` without leading and trailing `c`s.
pub open spec fn trim_char(s: Seq<char>, c: char) -> Seq<char> {
    trim_end_char(trim_start_char(s, c), c)
}

/// `str::trim_end_matches(c)` for a character `c`, as a new vector.
pub fn trim_end_char_vec(s: &Vec<char>, c: char) -> (r: Vec<char>)
    ensures
        r@ == trim_end_char(s@, c),
{
    let mut e: usize = s.len();
    assert(s@.take(s.len() as int) == s@);
    while e > 0 && s[e - 1] == c
        invariant
            e <= s.len(),
            trim_end_char(s@, c) == trim_end_char(s@.take(e as int), c),
        decreases e,
    {
        assert(s@.take(e as int).drop_last() == s@.take(e - 1));
        e = e - 1;
    }
    assert(s@.take(e as int) == s@.subrange(0, e as int));
    slice_to_vec(s, 0, e)
}

/// `str::replace(from, to)` with literals, as a new vector.
pub fn replace_all_vec(s: &Vec<char>, from: &str, to: &str) -> (r: Vec<char>)
    ensures
        r@ == replace_all(s@, from@, to@),
{
    let f = chars_of(from);
    let t = chars_of(to);
    let mut out: Vec<char> = Vec::new();
    if f.len() == 0 {
        push_chars(&mut out, s);
        assert(out@ =~= s@);
        return out;
    }
    let mut i: usize = 0;
    assert(s@.skip(0) == s@);
    while i < s.len()
        invariant
            i <= s.len(),
            f@ == from@,
            t@ == to@,
            f.len() > 0,
            out@ + replace_all(s@.skip(i as int), from@, to@) == replace_all(s@, from@, to@),
        decreases s.len() - i,
    {
        let ghost rest = s@.skip(i as int);
        if f.len() <= s.len() - i && matches_at(s, &f, i) {
            assert(rest.subrange(0, f@.len() as int) == s@.subrange(i as int, i + f@.len()));
            assert(rest.skip(f@.len() as int) == s@.skip(i + f.len()));
            push_chars(&mut out, &t);
            i = i + f.len();
        } else {
            if f.len() <= s.len() - i {
                assert(rest.subrange(0, f@.len() as int) == s@.subrange(i as int, i + f@.len()));
            }
            assert(rest.drop_first() == s@.skip(i + 1));
            assert(rest[0] == s@[i as int]);
            out.push(s[i]);
            assert(out@ + replace_all(s@.skip(i + 1), from@, to@) == replace_all(s@, from@, to@)) by {
                assert(out@ == (out@.drop_last()).push(s@[i as int]));
                assert(seq![s@[i as int]] + replace_all(s@.skip(i + 1), from@, to@) == replace_all(rest, from@, to@));
                assert((out@.drop_last() + seq![s@[i as int]]) + replace_all(s@.skip(i + 1), from@, to@)
                    == out@.drop_last() + (seq![s@[i as int]] + replace_all(s@.skip(i + 1), from@, to@)));
                assert(out@.drop_last() + seq![s@[i as int]] =~= out@);
            }
            i = i + 1;
        }
    }
    assert(s@.skip(i as int).len() == 0);
    assert(out@ + Seq::<char>::empty() == out@);
    out
}

} // verus!
