use rustball::team::{all_teams, get_full_team_name, team_name};

#[test]
fn full_name_of_known_teams() {
    assert_eq!(get_full_team_name("BOS"), Some("Boston Red Sox"));
    assert_eq!(get_full_team_name("TB"), Some("Tampa Bay Rays"));
    assert_eq!(get_full_team_name("KC"), Some("Kansas City Royals"));
    assert_eq!(get_full_team_name("TEX"), Some("Texas Rangers"));
    assert_eq!(get_full_team_name("WAS"), Some("Washington Nationals"));
    assert_eq!(get_full_team_name("ARI"), Some("Arizona Diamondbacks"));
}

#[test]
fn full_name_of_unknown_abbreviations() {
    assert_eq!(get_full_team_name("XYZ"), None);
    assert_eq!(get_full_team_name(""), None);
    assert_eq!(get_full_team_name("bos"), None);
    assert_eq!(get_full_team_name("BOSX"), None);
    assert_eq!(get_full_team_name("BO"), None);
}

#[test]
fn every_league_team_has_a_full_name() {
    let teams = all_teams();
    assert_eq!(teams.len(), 30);
    for t in teams.iter() {
        assert!(get_full_team_name(t).is_some(), "no name for {}", t);
    }
    assert_eq!(teams[0], "ARI");
    assert_eq!(teams[29], "WAS");
}

#[test]
fn team_name_replies() {
    assert_eq!(team_name(Some("BOS")), "{\"result\":\"Boston Red Sox\"}");
    assert_eq!(team_name(Some("TEX")), "{\"result\":\"Texas Rangers\"}");
    assert_eq!(team_name(Some("XYZ")), "{\"error\":\"Invalid team\"}");
    assert_eq!(team_name(None), "{\"error\":\"No team specified\"}");
}
