use gamepilot::runescape::{hiscores_url, osrs_skills, parse_hiscores_csv, rs3_skills, urlencoded};

const SAMPLE_OSRS_CSV: &str = "\
456,2277,4600000000
12345,99,200000000
23456,99,200000000
34567,99,200000000
45678,99,200000000
56789,99,200000000
67890,99,200000000
78901,99,200000000
89012,99,200000000
90123,99,200000000
11111,99,200000000
22222,99,200000000
33333,99,200000000
44444,99,200000000
55555,99,200000000
66666,99,200000000
77777,99,200000000
88888,99,200000000
99999,99,200000000
10101,99,200000000
20202,99,200000000
30303,99,200000000
40404,99,200000000
50505,99,200000000";

#[test]
fn parse_valid_osrs_hiscores() {
    let stats = parse_hiscores_csv(SAMPLE_OSRS_CSV, "Zezima", "osrs").unwrap();
    assert_eq!(stats.username, "Zezima");
    assert_eq!(stats.game, "osrs");
    assert_eq!(stats.skills.len(), osrs_skills().len());
    assert_eq!(stats.total_level, 2277);
    assert_eq!(stats.total_xp, 4_600_000_000);
    assert_eq!(stats.skills[0].name, "Overall");
    assert_eq!(stats.skills[0].rank, 456);
    assert_eq!(stats.skills[1].name, "Attack");
    assert_eq!(stats.skills[1].level, 99);
}

#[test]
fn parse_unranked_player_has_zero_rank() {
    let csv = SAMPLE_OSRS_CSV.replace("12345,99,200000000", "-1,1,0");
    let stats = parse_hiscores_csv(&csv, "Noob", "osrs").unwrap();
    assert_eq!(stats.skills[1].rank, 0);
    assert_eq!(stats.skills[1].level, 1);
    assert_eq!(stats.skills[1].xp, 0);
}

#[test]
fn parse_too_few_lines_returns_error() {
    let csv = "1,1000,100000\n2,50,5000";
    let result = parse_hiscores_csv(csv, "Short", "osrs");
    assert!(result.is_err());
    assert!(result.unwrap_err().contains("expected at least"));
}

#[test]
fn parse_malformed_line_returns_error() {
    let mut lines: Vec<String> = SAMPLE_OSRS_CSV.lines().map(String::from).collect();
    lines[3] = "bad_data".to_string();
    let csv = lines.join("\n");
    let result = parse_hiscores_csv(&csv, "BadData", "osrs");
    assert!(result.is_err());
    assert!(result.unwrap_err().contains("Malformed"));
}

#[test]
fn rs3_skills_has_more_entries_than_osrs() {
    assert!(rs3_skills().len() > osrs_skills().len());
}

#[test]
fn hiscores_url_osrs() {
    let url = hiscores_url("osrs", "Iron Mammal").unwrap();
    assert!(url.contains("hiscore_oldschool"));
    assert!(url.contains("Iron+Mammal"));
}

#[test]
fn hiscores_url_rs3() {
    let url = hiscores_url("rs3", "Zezima").unwrap();
    assert!(url.contains("m=hiscore/"));
    assert!(url.contains("Zezima"));
}

#[test]
fn hiscores_url_unknown_game_returns_error() {
    assert!(hiscores_url("runescape4", "Test").is_err());
}

#[test]
fn urlencoded_handles_spaces_and_specials() {
    assert_eq!(urlencoded("Iron Mammal"), "Iron+Mammal");
    assert_eq!(urlencoded("abc123"), "abc123");
    assert_eq!(urlencoded("a&b"), "a%26b");
}

#[test]
fn urlencoded_writes_code_points_in_upper_hex() {
    assert_eq!(urlencoded("a_b-c.d"), "a_b-c.d");
    assert_eq!(urlencoded("\n"), "%0A");
    assert_eq!(urlencoded("é"), "%E9");
    assert_eq!(urlencoded("€"), "%20AC");
}

#[test]
fn exact_error_messages() {
    let err = parse_hiscores_csv("1,1000,100000\n2,50,5000", "Short", "osrs").unwrap_err();
    assert_eq!(err, "Unexpected hiscores response: got 2 lines, expected at least 24");
    let mut lines: Vec<String> = SAMPLE_OSRS_CSV.lines().map(String::from).collect();
    lines[3] = "bad_data".to_string();
    let err = parse_hiscores_csv(&lines.join("\n"), "BadData", "osrs").unwrap_err();
    assert_eq!(err, "Malformed hiscores line 3: 'bad_data'");
    assert_eq!(hiscores_url("runescape4", "Test").unwrap_err(), "Unknown game variant: runescape4");
}

#[test]
fn unparsable_fields_take_defaults() {
    let csv = SAMPLE_OSRS_CSV.replace("12345,99,200000000", " x , y , z ");
    let stats = parse_hiscores_csv(&csv, "Odd", "osrs").unwrap();
    assert_eq!(stats.skills[1].rank, 0);
    assert_eq!(stats.skills[1].level, 1);
    assert_eq!(stats.skills[1].xp, 0);
}

#[test]
fn rs3_needs_thirty_rows() {
    let err = parse_hiscores_csv(SAMPLE_OSRS_CSV, "Zezima", "rs3").unwrap_err();
    assert_eq!(err, "Unexpected hiscores response: got 24 lines, expected at least 30");
    assert_eq!(
        hiscores_url("rs3", "A B").unwrap(),
        "https://secure.runescape.com/m=hiscore/index_lite.ws?player=A+B"
    );
}

#[test]
fn activity_rows_do_not_change_the_result() {
    let n = osrs_skills().len();
    let skill_rows: Vec<&str> = SAMPLE_OSRS_CSV.lines().take(n).collect();
    let a = format!("{}\n-1,-1\n5,100", skill_rows.join("\n"));
    let b = format!("{}\nanything at all", skill_rows.join("\n"));
    let sa = parse_hiscores_csv(&a, "Zezima", "osrs").unwrap();
    let sb = parse_hiscores_csv(&b, "Zezima", "osrs").unwrap();
    assert_eq!(sa.skills.len(), sb.skills.len());
    for (x, y) in sa.skills.iter().zip(sb.skills.iter()) {
        assert_eq!((&x.name, x.rank, x.level, x.xp), (&y.name, y.rank, y.level, y.xp));
    }
    assert_eq!(sa.total_xp, sb.total_xp);
}
