use clubdata::record::Wholegame;
use clubdata::transform::apply_transformations;
use clubdata::transform::parse_rule;
use clubdata::transform::Rule;

#[test]
fn test_apply_fullname_transformation() {
    let mut game = Wholegame::new();
    game.set_first_names("Alice".to_string());
    game.set_surname("Liddell".to_string());

    apply_transformations(&mut game, "fullname");
    assert_eq!(game.get_full_name(), "Alice Liddell");
}

#[test]
fn test_apply_team_name_regex_transformation() {
    let mut game = Wholegame::new();
    game.set_team("U10 Wonderland".to_string());

    apply_transformations(&mut game, "team_name_regex");
    assert_eq!(game.get_team(), "U10 Wonderland");
}

#[test]
fn fullname_joins_with_single_space() {
    let mut game = Wholegame::new();
    game.set_first_names("A".to_string());
    game.set_surname("B".to_string());
    apply_transformations(&mut game, "fullname");
    assert_eq!(game.get_full_name(), "A B");
}

#[test]
fn team_regex_trims_to_match() {
    let mut game = Wholegame::new();
    game.set_team("U10 Wonderland FC".to_string());
    apply_transformations(&mut game, "team_name_regex");
    assert_eq!(game.get_team(), "U10 Wonderland");
}

#[test]
fn team_regex_leaves_nonmatching_team() {
    let mut game = Wholegame::new();
    game.set_team("Seniors".to_string());
    apply_transformations(&mut game, "team_name_regex");
    assert_eq!(game.get_team(), "Seniors");
}

#[test]
fn team_regex_is_idempotent() {
    let mut game = Wholegame::new();
    game.set_team("U10 Wonderland FC".to_string());
    apply_transformations(&mut game, "team_name_regex");
    let once = game.get_team().to_string();
    apply_transformations(&mut game, "team_name_regex");
    assert_eq!(game.get_team(), once);
}

#[test]
fn team_regex_suffix_is_ignored() {
    let mut game = Wholegame::new();
    game.set_team("U7 Colts extra".to_string());
    apply_transformations(&mut game, "team_name_regex_v2");
    assert_eq!(game.get_team(), "U7 Colts");
}

#[test]
fn unknown_rule_changes_nothing() {
    let mut game = Wholegame::new();
    game.set_first_names("Jane".to_string());
    game.set_surname("Doe".to_string());
    game.set_team("U15 Rovers".to_string());
    game.set_fan_id("987654321".to_string());
    game.set_age_group("U15".to_string());
    game.set_suspended(true);
    game.set_consent_given(true);
    game.set_date_registered(Some("2023-09-02".to_string()));

    apply_transformations(&mut game, "fullnam");
    apply_transformations(&mut game, "rule1");
    apply_transformations(&mut game, "");

    assert_eq!(game.get_first_names(), "Jane");
    assert_eq!(game.get_surname(), "Doe");
    assert_eq!(game.get_full_name(), "");
    assert_eq!(game.get_team(), "U15 Rovers");
}

#[test]
fn rule_tokens_parse_as_documented() {
    assert_eq!(parse_rule("fullname"), Rule::FullName);
    assert_eq!(parse_rule("team_name_regex"), Rule::TeamNameRegex);
    assert_eq!(parse_rule("team_name_regex_whatever"), Rule::TeamNameRegex);
    assert_eq!(parse_rule("fullname2"), Rule::Unknown);
    assert_eq!(parse_rule("team_name_rege"), Rule::Unknown);
    assert_eq!(parse_rule("rule1"), Rule::Unknown);
}

#[test]
fn matcher_agrees_with_regex_engine() {
    let re = regex::Regex::new(r"U\d+ \w+").unwrap();
    let samples = [
        "U10 Wonderland FC",
        "U10 Wonderland",
        "Seniors",
        "xx U7 ab yy",
        "U Wonder",
        "U10Wonder",
        "AU10 Colts",
        "U10  Colts",
        "U123 a",
        "",
        "U10 ",
    ];
    for s in samples {
        let expected = re.find(s).map(|m| m.as_str());
        let got = clubdata::pattern::find_team_match(s).map(|(a, b)| &s[a..b]);
        assert_eq!(got, expected, "mismatch on {:?}", s);
    }
}
