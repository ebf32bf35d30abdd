//! RuneScape (RS3 and Old School) support: the Hiscores request URL and the
//! parsing of the Hiscores CSV answer.
use vstd::prelude::*;
use crate::text;

verus! {

/// A player's levels on the Hiscores.
#[derive(Debug, Clone)]
pub struct PlayerStats {
    pub username: String,
    pub game: String,
    pub skills: Vec<SkillLevel>,
    pub total_level: u32,
    pub total_xp: u64,
}

/// One skill row of the Hiscores.
#[derive(Debug, Clone)]
pub struct SkillLevel {
    pub name: String,
    pub level: u32,
    pub xp: u64,
    pub rank: u64,
}

/// An item of the Grand Exchange catalogue.
#[derive(Debug, Clone)]
pub struct GrandExchangeItem {
    pub item_id: u32,
    pub name: String,
    pub description: String,
    pub current_price: String,
    pub icon: String,
    pub members: bool,
}

/// The skills of Old School RuneScape, in the row order of the Hiscores CSV.
pub open spec fn osrs_skill_names() -> Seq<Seq<char>> {
    seq![
        "Overall"@, "Attack"@, "Defence"@, "Strength"@, "Hitpoints"@, "Ranged"@,
        "Prayer"@, "Magic"@, "Cooking"@, "Woodcutting"@, "Fletching"@, "Fishing"@,
        "Firemaking"@, "Crafting"@, "Smithing"@, "Mining"@, "Herblore"@, "Agility"@,
        "Thieving"@, "Slayer"@, "Farming"@, "Runecrafting"@, "Hunter"@, "Construction"@,
    ]
}

/// The skills of RuneScape 3, in the row order of the Hiscores CSV.
pub open spec fn rs3_skill_names() -> Seq<Seq<char>> {
    seq![
        "Overall"@, "Attack"@, "Defence"@, "Strength"@, "Constitution"@, "Ranged"@,
        "Prayer"@, "Magic"@, "Cooking"@, "Woodcutting"@, "Fletching"@, "Fishing"@,
        "Firemaking"@, "Crafting"@, "Smithing"@, "Mining"@, "Herblore"@, "Agility"@,
        "Thieving"@, "Slayer"@, "Farming"@, "Runecrafting"@, "Hunter"@, "Construction"@,
        "Summoning"@, "Dungeoneering"@, "Divination"@, "Invention"@, "Archaeology"@,
        "Necromancy"@,
    ]
}

/// The skill rows for a game variant: RS3 for `"rs3"`, Old School for anything else.
pub open spec fn skill_names(game: Seq<char>) -> Seq<Seq<char>> {
    if game == "rs3"@ {
        rs3_skill_names()
    } else {
        osrs_skill_names()
    }
}

/// The skills of Old School RuneScape, in Hiscores row order.
pub fn osrs_skills() -> (r: Vec<&'static str>)
    ensures
        text::str_views(r@) == osrs_skill_names(),
{
    let r = vec![
        "Overall", "Attack", "Defence", "Strength", "Hitpoints", "Ranged",
        "Prayer", "Magic", "Cooking", "Woodcutting", "Fletching", "Fishing",
        "Firemaking", "Crafting", "Smithing", "Mining", "Herblore", "Agility",
        "Thieving", "Slayer", "Farming", "Runecrafting", "Hunter", "Construction",
    ];
    assert(text::str_views(r@) =~= osrs_skill_names());
    r
}

/// The skills of RuneScape 3, in Hiscores row order.
pub fn rs3_skills() -> (r: Vec<&'static str>)
    ensures
        text::str_views(r@) == rs3_skill_names(),
{
    let r = vec![
        "Overall", "Attack", "Defence", "Strength", "Constitution", "Ranged",
        "Prayer", "Magic", "Cooking", "Woodcutting", "Fletching", "Fishing",
        "Firemaking", "Crafting", "Smithing", "Mining", "Herblore", "Agility",
        "Thieving", "Slayer", "Farming", "Runecrafting", "Hunter", "Construction",
        "Summoning", "Dungeoneering", "Divination", "Invention", "Archaeology",
        "Necromancy",
    ];
    assert(text::str_views(r@) =~= rs3_skill_names());
    r
}

/// The skill rows of the Hiscores CSV for `game`.
pub fn skills_for_game(game: &str) -> (r: Vec<&'static str>)
    ensures
        text::str_views(r@) == skill_names(game@),
{
    if text::str_eq(game, "rs3") {
        rs3_skills()
    } else {
        osrs_skills()
    }
}

/// An ASCII letter or digit.
pub open spec fn is_ascii_alnum(c: char) -> bool {
    ('0' <= c && c <= '9') || ('a' <= c && c <= 'z') || ('A' <= c && c <= 'Z')
}

/// The upper-case hexadecimal digit for `n < 16`.
pub open spec fn hex_digit(n: nat) -> char {
    if n < 10 {
        text::digit_char(n)
    } else if n == 10 {
        'A'
    } else if n == 11 {
        'B'
    } else if n == 12 {
        'C'
    } else if n == 13 {
        'D'
    } else if n == 14 {
        'E'
    } else {
        'F'
    }
}

/// The upper-case hexadecimal text of `n`.
pub open spec fn hex(n: nat) -> Seq<char>
    decreases n,
{
    if n < 16 {
        seq![hex_digit(n)]
    } else {
        hex(n / 16).push(hex_digit(n % 16))
    }
}

/// `{:02X}`: upper-case hexadecimal, at least two digits.
pub open spec fn hex2(n: nat) -> Seq<char> {
    if n < 16 {
        seq!['0', hex_digit(n)]
    } else {
        hex(n)
    }
}

/// How one character of a player name is written in the query string.
pub open spec fn url_char(c: char) -> Seq<char> {
    if c == ' ' {
        seq!['+']
    } else if is_ascii_alnum(c) || c == '-' || c == '_' || c == '.' {
        seq![c]
    } else {
        seq!['%'] + hex2((c as u32) as nat)
    }
}

/// The query-string form of a player name: spaces become `+`, ASCII letters, digits
/// and `-_.` stay, every other character becomes `%` and its code point in hex.
pub open spec fn url_encode(s: Seq<char>) -> Seq<char>
    decreases s.len(),
{
    if s.len() == 0 {
        Seq::empty()
    } else {
        url_encode(s.drop_last()) + url_char(s.last())
    }
}

fn hex_digit_of(n: u32) -> (c: char)
    requires
        n < 16,
    ensures
        c == hex_digit(n as nat),
{
    if n == 0 {
        '0'
    } else if n == 1 {
        '1'
    } else if n == 2 {
        '2'
    } else if n == 3 {
        '3'
    } else if n == 4 {
        '4'
    } else if n == 5 {
        '5'
    } else if n == 6 {
        '6'
    } else if n == 7 {
        '7'
    } else if n == 8 {
        '8'
    } else if n == 9 {
        '9'
    } else if n == 10 {
        'A'
    } else if n == 11 {
        'B'
    } else if n == 12 {
        'C'
    } else if n == 13 {
        'D'
    } else if n == 14 {
        'E'
    } else {
        'F'
    }
}

fn push_hex(out: &mut Vec<char>, n: u32)
    ensures
        final(out)@ == old(out)@ + hex(n as nat),
    decreases n,
{
    if n >= 16 {
        push_hex(out, n / 16);
        out.push(hex_digit_of(n % 16));
        assert(old(out)@ + hex(n as nat) == old(out)@ + hex((n / 16) as nat) + seq![
            hex_digit((n % 16) as nat),
        ]);
    } else {
        out.push(hex_digit_of(n));
        assert(old(out)@ + hex(n as nat) == old(out)@.push(hex_digit(n as nat)));
    }
}

/// Encodes a player name for the Hiscores query string.
pub fn urlencoded(s: &str) -> (r: String)
    ensures
        r@ == url_encode(s@),
{
    let cs = text::chars_of(s);
    let mut out: Vec<char> = Vec::new();
    let mut i: usize = 0;
    assert(cs@.take(0) == Seq::<char>::empty());
    while i < cs.len()
        invariant
            i <= cs.len(),
            out@ == url_encode(cs@.take(i as int)),
        decreases cs.len() - i,
    {
        let c = cs[i];
        let ghost before = out@;
        if c == ' ' {
            out.push('+');
        } else if ('0' <= c && c <= '9') || ('a' <= c && c <= 'z') || ('A' <= c && c <= 'Z')
            || c == '-' || c == '_' || c == '.' {
            out.push(c);
        } else {
            out.push('%');
            let n = c as u32;
            if n < 16 {
                out.push('0');
                out.push(hex_digit_of(n));
                assert(out@ == before + (seq!['%'] + seq!['0', hex_digit(n as nat)]));
            } else {
                push_hex(&mut out, n);
                assert(out@ == before + (seq!['%'] + hex(n as nat)));
            }
        }
        assert(out@ == before + url_char(c));
        assert(cs@.take(i + 1).drop_last() == cs@.take(i as int));
        i = i + 1;
    }
    assert(cs@.take(cs.len() as int) == cs@);
    text::string_of(out.as_slice())
}

/// The Hiscores address for a game variant and player, if the variant is known.
pub open spec fn hiscores_url_spec(game: Seq<char>, username: Seq<char>) -> Result<
    Seq<char>,
    Seq<char>,
> {
    if game == "osrs"@ {
        Ok(
            "https://secure.runescape.com/m=hiscore_oldschool/index_lite.ws?player="@
                + url_encode(username),
        )
    } else if game == "rs3"@ {
        Ok("https://secure.runescape.com/m=hiscore/index_lite.ws?player="@ + url_encode(username))
    } else {
        Err("Unknown game variant: "@ + game)
    }
}

/// The Hiscores address for a game variant (`"osrs"` or `"rs3"`) and player.
pub fn hiscores_url(game: &str, username: &str) -> (r: Result<String, String>)
    ensures
        match r {
            Ok(u) => hiscores_url_spec(game@, username@) == Ok::<Seq<char>, Seq<char>>(u@),
            Err(e) => hiscores_url_spec(game@, username@) == Err::<Seq<char>, Seq<char>>(e@),
        },
{
    let encoded = urlencoded(username);
    if text::str_eq(game, "osrs") {
        let mut out: Vec<char> = Vec::new();
        text::push_str(&mut out, "https://secure.runescape.com/m=hiscore_oldschool/index_lite.ws?player=");
        text::push_string(&mut out, &encoded);
        Ok(text::string_of(out.as_slice()))
    } else if text::str_eq(game, "rs3") {
        let mut out: Vec<char> = Vec::new();
        text::push_str(&mut out, "https://secure.runescape.com/m=hiscore/index_lite.ws?player=");
        text::push_string(&mut out, &encoded);
        Ok(text::string_of(out.as_slice()))
    } else {
        let mut out: Vec<char> = Vec::new();
        text::push_str(&mut out, "Unknown game variant: ");
        text::push_str(&mut out, game);
        Err(text::string_of(out.as_slice()))
    }
}

// --- Hiscores CSV ---

/// The comma-separated fields of a Hiscores row.
pub open spec fn row_fields(line: Seq<char>) -> Seq<Seq<char>> {
    text::split_char(line, ',')
}

/// A row with fewer than three fields is malformed.
pub open spec fn row_malformed(line: Seq<char>) -> bool {
    row_fields(line).len() < 3
}

/// The rank of a row: the first field as an `i64`, `-1` when it does not parse, and
/// `0` for any negative rank (an unranked skill).
pub open spec fn row_rank(line: Seq<char>) -> u64 {
    let r = match text::parse_int(text::trim(row_fields(line)[0]), i64::MIN as int, i64::MAX as int) {
        Some(v) => v,
        None => -1,
    };
    if r < 0 {
        0
    } else {
        r as u64
    }
}

/// The level of a row: the second field as a `u32`, `1` when it does not parse.
pub open spec fn row_level(line: Seq<char>) -> u32 {
    match text::parse_int(text::trim(row_fields(line)[1]), 0, u32::MAX as int) {
        Some(v) => v as u32,
        None => 1,
    }
}

/// The experience of a row: the third field as a `u64`, `0` when it does not parse.
pub open spec fn row_xp(line: Seq<char>) -> u64 {
    match text::parse_int(text::trim(row_fields(line)[2]), 0, u64::MAX as int) {
        Some(v) => v as u64,
        None => 0,
    }
}

/// The error for an answer with too few rows.
pub open spec fn too_few_lines_message(got: nat, expected: nat) -> Seq<char> {
    "Unexpected hiscores response: got "@ + text::dec(got) + " lines, expected at least "@ + text::dec(expected)
}

/// The error for a malformed row.
pub open spec fn malformed_message(i: nat, line: Seq<char>) -> Seq<char> {
    "Malformed hiscores line "@ + text::dec(i) + ": '"@ + line + "'"@
}

/// Row `k` is malformed and no row before it is.
pub open spec fn first_malformed(rows: Seq<Seq<char>>, k: int) -> bool {
    row_malformed(rows[k]) && forall|j: int| 0 <= j < k ==> !row_malformed(#[trigger] rows[j])
}

/// `e` is the error for the first malformed row, row `k`.
pub open spec fn malformed_error(rows: Seq<Seq<char>>, k: int, e: Seq<char>) -> bool {
    0 <= k && first_malformed(rows, k) && e == malformed_message(k as nat, rows[k])
}

fn parse_row(line: &Vec<char>, name: &str) -> (r: Option<SkillLevel>)
    ensures
        match r {
            None => row_malformed(line@),
            Some(s) => !row_malformed(line@) && s.name@ == name@ && s.rank == row_rank(line@)
                && s.level == row_level(line@) && s.xp == row_xp(line@),
        },
{
    let parts = text::split_on(line, ',');
    if parts.len() < 3 {
        return None;
    }
    let f0 = text::trim_vec(&parts[0]);
    let f1 = text::trim_vec(&parts[1]);
    let f2 = text::trim_vec(&parts[2]);
    let rank: i64 = match text::parse_i64(&f0) {
        Some(v) => v,
        None => -1,
    };
    let level: u32 = match text::parse_u32(&f1) {
        Some(v) => v,
        None => 1,
    };
    let xp: u64 = match text::parse_u64(&f2) {
        Some(v) => v,
        None => 0,
    };
    Some(
        SkillLevel {
            name: text::to_string(name),
            level,
            xp,
            rank: if rank < 0 {
                0
            } else {
                rank as u64
            },
        },
    )
}

/// A parsed skill: name, rank, level and experience.
pub type SkillText = (Seq<char>, u64, u32, u64);

/// What the Hiscores rows give for the skills `names`: too few rows, or the
/// error for the first malformed row among the first `names.len()`, or each
/// skill from its row. Only the first `names.len()` rows matter.
pub open spec fn hiscores_outcome(rows: Seq<Seq<char>>, names: Seq<Seq<char>>) -> Result<
    Seq<SkillText>,
    Seq<char>,
> {
    if rows.len() < names.len() {
        Err(too_few_lines_message(rows.len(), names.len()))
    } else if exists|k: int| 0 <= k < names.len() && #[trigger] first_malformed(rows, k) {
        let k = choose|k: int| 0 <= k < names.len() && #[trigger] first_malformed(rows, k);
        Err(malformed_message(k as nat, rows[k]))
    } else {
        Ok(Seq::new(names.len(), |j: int| (names[j], row_rank(rows[j]), row_level(rows[j]), row_xp(rows[j]))))
    }
}

/// The skills of a parse, or its error, as text.
pub open spec fn hiscores_result_view(r: Result<PlayerStats, String>) -> Result<Seq<SkillText>, Seq<char>> {
    match r {
        Ok(s) => Ok(
            Seq::new(
                s.skills@.len(),
                |j: int| (s.skills[j].name@, s.skills[j].rank, s.skills[j].level, s.skills[j].xp),
            ),
        ),
        Err(e) => Err(e@),
    }
}

proof fn lemma_first_malformed_unique(rows: Seq<Seq<char>>, a: int, b: int)
    requires
        0 <= a,
        0 <= b,
        first_malformed(rows, a),
        first_malformed(rows, b),
    ensures
        a == b,
{
    if a < b {
        assert(!row_malformed(rows[a]));
    } else if b < a {
        assert(!row_malformed(rows[b]));
    }
}

proof fn lemma_outcome_of_contract(rows: Seq<Seq<char>>, names: Seq<Seq<char>>, r: Result<PlayerStats, String>)
    requires
        match r {
            Ok(stats) => {
                &&& rows.len() >= names.len()
                &&& forall|j: int| 0 <= j < names.len() ==> !row_malformed(#[trigger] rows[j])
                &&& stats.skills.len() == names.len()
                &&& forall|j: int|
                    0 <= j < names.len() ==> {
                        &&& (#[trigger] stats.skills[j]).name@ == names[j]
                        &&& stats.skills[j].rank == row_rank(rows[j])
                        &&& stats.skills[j].level == row_level(rows[j])
                        &&& stats.skills[j].xp == row_xp(rows[j])
                    }
            },
            Err(e) => {
                ||| (rows.len() < names.len() && e@ == too_few_lines_message(rows.len(), names.len()))
                ||| (rows.len() >= names.len() && exists|k: int|
                    k < names.len() && #[trigger] malformed_error(rows, k, e@))
            },
        },
    ensures
        hiscores_result_view(r) == hiscores_outcome(rows, names),
{
    match r {
        Ok(stats) => {
            assert(!exists|k: int| 0 <= k < names.len() && #[trigger] first_malformed(rows, k));
            assert(hiscores_result_view(r)->Ok_0 =~= hiscores_outcome(rows, names)->Ok_0);
        },
        Err(e) => {
            if rows.len() >= names.len() {
                let k = choose|k: int| k < names.len() && #[trigger] malformed_error(rows, k, e@);
                assert(0 <= k < names.len() && first_malformed(rows, k));
                let k2 = choose|k: int| 0 <= k < names.len() && #[trigger] first_malformed(rows, k);
                lemma_first_malformed_unique(rows, k, k2);
            }
        },
    }
}

/// Parses the Hiscores CSV answer: one `rank,level,xp` row per skill, in the
/// order of `skill_names(game)`, followed by activity rows that are skipped.
pub fn parse_hiscores_csv(csv: &str, username: &str, game: &str) -> (r: Result<PlayerStats, String>)
    ensures
        ({
            let names = skill_names(game@);
            let rows = text::lines(csv@);
            match r {
                Ok(stats) => {
                    &&& rows.len() >= names.len()
                    &&& forall|j: int| 0 <= j < names.len() ==> !row_malformed(#[trigger] rows[j])
                    &&& stats.username@ == username@
                    &&& stats.game@ == game@
                    &&& stats.skills.len() == names.len()
                    &&& forall|j: int|
                        0 <= j < names.len() ==> {
                            &&& (#[trigger] stats.skills[j]).name@ == names[j]
                            &&& stats.skills[j].rank == row_rank(rows[j])
                            &&& stats.skills[j].level == row_level(rows[j])
                            &&& stats.skills[j].xp == row_xp(rows[j])
                        }
                    &&& stats.total_level == row_level(rows[0])
                    &&& stats.total_xp == row_xp(rows[0])
                },
                Err(e) => {
                    ||| (rows.len() < names.len() && e@ == too_few_lines_message(
                        rows.len(),
                        names.len(),
                    ))
                    ||| (rows.len() >= names.len() && exists|k: int|
                        k < names.len() && #[trigger] malformed_error(rows, k, e@))
                },
            }
        }),
        hiscores_result_view(r) == hiscores_outcome(text::lines(csv@), skill_names(game@)),
{
    let names = skills_for_game(game);
    let text = text::chars_of(csv);
    let rows = text::lines_of(&text);
    let ghost names_v = skill_names(game@);
    let ghost rows_v = text::lines(csv@);
    assert(text::vviews(rows@) == rows_v);
    if rows.len() < names.len() {
        let mut msg: Vec<char> = Vec::new();
        text::push_str(&mut msg, "Unexpected hiscores response: got ");
        text::push_dec(&mut msg, rows.len() as u64);
        text::push_str(&mut msg, " lines, expected at least ");
        text::push_dec(&mut msg, names.len() as u64);
        assert(msg@ == too_few_lines_message(rows.len() as nat, names.len() as nat));
        let r: Result<PlayerStats, String> = Err(text::string_of(msg.as_slice()));
        proof {
            lemma_outcome_of_contract(rows_v, names_v, r);
        }
        return r;
    }
    let mut skills: Vec<SkillLevel> = Vec::new();
    let mut i: usize = 0;
    while i < names.len()
        invariant
            i <= names.len() <= rows.len(),
            text::str_views(names@) == names_v,
            text::vviews(rows@) == rows_v,
            names_v == skill_names(game@),
            rows_v == text::lines(csv@),
            skills.len() == i,
            forall|j: int| 0 <= j < i ==> !row_malformed(#[trigger] rows_v[j]),
            forall|j: int|
                0 <= j < i ==> {
                    &&& (#[trigger] skills@[j]).name@ == names_v[j]
                    &&& skills@[j].rank == row_rank(rows_v[j])
                    &&& skills@[j].level == row_level(rows_v[j])
                    &&& skills@[j].xp == row_xp(rows_v[j])
                },
        decreases names.len() - i,
    {
        assert(rows_v[i as int] == rows@[i as int]@);
        assert(names_v[i as int] == names@[i as int]@);
        match parse_row(&rows[i], names[i]) {
            None => {
                let mut msg: Vec<char> = Vec::new();
                text::push_str(&mut msg, "Malformed hiscores line ");
                text::push_dec(&mut msg, i as u64);
                text::push_str(&mut msg, ": '");
                text::push_chars(&mut msg, &rows[i]);
                text::push_str(&mut msg, "'");
                assert(msg@ == malformed_message(i as nat, rows_v[i as int]));
                assert(first_malformed(rows_v, i as int));
                let e = text::string_of(msg.as_slice());
                assert(malformed_error(rows_v, i as int, e@));
                assert(exists|k: int| k < names_v.len() && #[trigger] malformed_error(rows_v, k, e@));
                assert(rows_v.len() >= names_v.len());
                let r: Result<PlayerStats, String> = Err(e);
                assert(r matches Err(ee) && ee@ == e@);
                proof {
                    lemma_outcome_of_contract(rows_v, names_v, r);
                }
                return r;
            },
            Some(s) => {
                skills.push(s);
            },
        }
        i = i + 1;
    }
    assert(names_v.len() > 0) by {
        reveal_with_fuel(skill_names, 1);
    }
    let total_level = skills[0].level;
    let total_xp = skills[0].xp;
    let r: Result<PlayerStats, String> = Ok(
        PlayerStats {
            username: text::to_string(username),
            game: text::to_string(game),
            skills,
            total_level,
            total_xp,
        },
    );
    proof {
        lemma_outcome_of_contract(rows_v, names_v, r);
    }
    r
}

// ---------------------------------------------------------------------------
// Laws
// ---------------------------------------------------------------------------

/// A character that may stand in a query string as it is.
pub open spec fn url_safe(c: char) -> bool {
    is_ascii_alnum(c) || c == '+' || c == '%' || c == '-' || c == '_' || c == '.'
}

pub open spec fn all_url_safe(s: Seq<char>) -> bool {
    forall|i: int| 0 <= i < s.len() ==> url_safe(#[trigger] s[i])
}

proof fn lemma_hex_safe(n: nat)
    ensures
        all_url_safe(hex(n)),
    decreases n,
{
    if n >= 16 {
        lemma_hex_safe(n / 16);
    }
}

proof fn lemma_url_char_safe(c: char)
    ensures
        all_url_safe(url_char(c)),
{
    let n = (c as u32) as nat;
    if !(c == ' ') && !(is_ascii_alnum(c) || c == '-' || c == '_' || c == '.') {
        if n >= 16 {
            lemma_hex_safe(n);
        }
        let t = url_char(c);
        assert forall|i: int| 0 <= i < t.len() implies url_safe(#[trigger] t[i]) by {
            if i > 0 {
                assert(t[i] == hex2(n)[i - 1]);
            }
        }
    }
}

/// The activity rows after the skill rows never change what a Hiscores answer
/// gives: two answers whose first `names.len()` rows are the same give the
/// same skills, or the same error.
pub proof fn law_activity_rows_ignored(rows1: Seq<Seq<char>>, rows2: Seq<Seq<char>>, names: Seq<Seq<char>>)
    requires
        rows1.len() >= names.len(),
        rows2.len() >= names.len(),
        rows1.take(names.len() as int) == rows2.take(names.len() as int),
    ensures
        hiscores_outcome(rows1, names) == hiscores_outcome(rows2, names),
{
    let n = names.len() as int;
    assert forall|j: int| 0 <= j < n implies rows1[j] == rows2[j] by {
        assert(rows1.take(n)[j] == rows2.take(n)[j]);
    }
    assert forall|k: int| 0 <= k < n implies first_malformed(rows1, k) == first_malformed(rows2, k) by {
        assert(forall|j: int| 0 <= j < k ==> rows1[j] == rows2[j]);
    }
    if exists|k: int| 0 <= k < n && #[trigger] first_malformed(rows1, k) {
        let k1 = choose|k: int| 0 <= k < n && #[trigger] first_malformed(rows1, k);
        assert(first_malformed(rows2, k1));
        let k2 = choose|k: int| 0 <= k < n && #[trigger] first_malformed(rows2, k);
        assert(first_malformed(rows1, k2));
        lemma_first_malformed_unique(rows1, k1, k2);
    } else {
        assert(!exists|k: int| 0 <= k < n && #[trigger] first_malformed(rows2, k)) by {
            if exists|k: int| 0 <= k < n && #[trigger] first_malformed(rows2, k) {
                let k2 = choose|k: int| 0 <= k < n && #[trigger] first_malformed(rows2, k);
                assert(first_malformed(rows1, k2));
            }
        }
        assert(hiscores_outcome(rows1, names)->Ok_0 =~= hiscores_outcome(rows2, names)->Ok_0);
    }
}

/// An encoded player name holds only letters, digits and `+ % - _ .`, so it
/// can stand in the Hiscores query string as it is.
pub proof fn law_encoded_name_is_url_safe(s: Seq<char>)
    ensures
        all_url_safe(url_encode(s)),
    decreases s.len(),
{
    if s.len() > 0 {
        law_encoded_name_is_url_safe(s.drop_last());
        lemma_url_char_safe(s.last());
        let a = url_encode(s.drop_last());
        let b = url_char(s.last());
        assert forall|i: int| 0 <= i < (a + b).len() implies url_safe(#[trigger] (a + b)[i]) by {
            if i < a.len() {
                assert((a + b)[i] == a[i]);
            } else {
                assert((a + b)[i] == b[i - a.len()]);
            }
        }
    }
}

} // verus!
