//! The league's teams: their abbreviations and full names.

use vstd::prelude::*;

use crate::response::{json_error, json_error_string};
use crate::text::str_equal;

verus! {

/// The abbreviations of all teams of the league, in the order the league lists them.
pub open spec fn league_teams() -> Seq<Seq<char>> {
    seq![
        "ARI"@,
        "ATL"@,
        "BAL"@,
        "BOS"@,
        "CHC"@,
        "CWS"@,
        "CIN"@,
        "CLE"@,
        "COL"@,
        "DET"@,
        "HOU"@,
        "KC"@,
        "LAA"@,
        "LAD"@,
        "MIA"@,
        "MIL"@,
        "MIN"@,
        "NYM"@,
        "NYY"@,
        "OAK"@,
        "PHI"@,
        "PIT"@,
        "SD"@,
        "SF"@,
        "SEA"@,
        "STL"@,
        "TB"@,
        "TEX"@,
        "TOR"@,
        "WAS"@,
    ]
}

/// The full name of the team with the given abbreviation, if there is such a team.
pub open spec fn full_team_name(abbrev: Seq<char>) -> Option<Seq<char>> {
    if abbrev == "ARI"@ {
        Some("Arizona Diamondbacks"@)
    } else if abbrev == "ATL"@ {
        Some("Atlanta Braves"@)
    } else if abbrev == "BAL"@ {
        Some("Baltimore Orioles"@)
    } else if abbrev == "BOS"@ {
        Some("Boston Red Sox"@)
    } else if abbrev == "CHC"@ {
        Some("Chicago Cubs"@)
    } else if abbrev == "CIN"@ {
        Some("Cinncinati Reds"@)
    } else if abbrev == "CLE"@ {
        Some("Cleveland Indians"@)
    } else if abbrev == "COL"@ {
        Some("Colorado Rockies"@)
    } else if abbrev == "CWS"@ {
        Some("Chicago White Sox"@)
    } else if abbrev == "DET"@ {
        Some("Detroit Tigers"@)
    } else if abbrev == "HOU"@ {
        Some("Houston Astros"@)
    } else if abbrev == "KC"@ {
        Some("Kansas City Royals"@)
    } else if abbrev == "LAA"@ {
        Some("Los Angeles Angels of Anaheim"@)
    } else if abbrev == "LAD"@ {
        Some("Los Angeles Dodgers"@)
    } else if abbrev == "MIA"@ {
        Some("Miami Marlins"@)
    } else if abbrev == "MIL"@ {
        Some("Milwaukee Brewers"@)
    } else if abbrev == "MIN"@ {
        Some("Minnesota Twins"@)
    } else if abbrev == "NYM"@ {
        Some("New York Mets"@)
    } else if abbrev == "NYY"@ {
        Some("New York Yankees"@)
    } else if abbrev == "OAK"@ {
        Some("Oakland Athletics"@)
    } else if abbrev == "PHI"@ {
        Some("Philadelphia Phillies"@)
    } else if abbrev == "PIT"@ {
        Some("Pittsburgh Pirates"@)
    } else if abbrev == "SD"@ {
        Some("San Diego Padres"@)
    } else if abbrev == "SEA"@ {
        Some("Seattle Mariners"@)
    } else if abbrev == "SF"@ {
        Some("San Franciso Giants"@)
    } else if abbrev == "STL"@ {
        Some("St. Louis Cardinals"@)
    } else if abbrev == "TEX"@ {
        Some("Texas Rangers"@)
    } else if abbrev == "TB"@ {
        Some("Tampa Bay Rays"@)
    } else if abbrev == "TOR"@ {
        Some("Toronto Blue Jays"@)
    } else if abbrev == "WAS"@ {
        Some("Washington Nationals"@)
    } else {
        None
    }
}

/// The abbreviations of all teams of the league, in the order the league lists them.
pub fn all_teams() -> (r: Vec<&'static str>)
    ensures
        r@.map_values(|s: &'static str| s@) == league_teams(),
{
    let r = vec![
        "ARI", "ATL", "BAL", "BOS", "CHC", "CWS", "CIN", "CLE", "COL", "DET", "HOU", "KC", "LAA", "LAD", "MIA", "MIL", "MIN", "NYM", "NYY", "OAK", "PHI", "PIT", "SD", "SF", "SEA", "STL", "TB", "TEX", "TOR", "WAS",
    ];
    assert(r@.map_values(|s: &'static str| s@) =~= league_teams());
    r
}

/// Looks up the full name of a team by its abbreviation; `None` when no team
/// of the league has that abbreviation.
pub fn get_full_team_name(abbrev: &str) -> (r: Option<&'static str>)
    ensures
        match r {
            Some(name) => full_team_name(abbrev@) == Some(name@),
            None => full_team_name(abbrev@) is None,
        },
{
    if str_equal(abbrev, "ARI") {
        return Some("Arizona Diamondbacks");
    }
    if str_equal(abbrev, "ATL") {
        return Some("Atlanta Braves");
    }
    if str_equal(abbrev, "BAL") {
        return Some("Baltimore Orioles");
    }
    if str_equal(abbrev, "BOS") {
        return Some("Boston Red Sox");
    }
    if str_equal(abbrev, "CHC") {
        return Some("Chicago Cubs");
    }
    if str_equal(abbrev, "CIN") {
        return Some("Cinncinati Reds");
    }
    if str_equal(abbrev, "CLE") {
        return Some("Cleveland Indians");
    }
    if str_equal(abbrev, "COL") {
        return Some("Colorado Rockies");
    }
    if str_equal(abbrev, "CWS") {
        return Some("Chicago White Sox");
    }
    if str_equal(abbrev, "DET") {
        return Some("Detroit Tigers");
    }
    if str_equal(abbrev, "HOU") {
        return Some("Houston Astros");
    }
    if str_equal(abbrev, "KC") {
        return Some("Kansas City Royals");
    }
    if str_equal(abbrev, "LAA") {
        return Some("Los Angeles Angels of Anaheim");
    }
    if str_equal(abbrev, "LAD") {
        return Some("Los Angeles Dodgers");
    }
    if str_equal(abbrev, "MIA") {
        return Some("Miami Marlins");
    }
    if str_equal(abbrev, "MIL") {
        return Some("Milwaukee Brewers");
    }
    if str_equal(abbrev, "MIN") {
        return Some("Minnesota Twins");
    }
    if str_equal(abbrev, "NYM") {
        return Some("New York Mets");
    }
    if str_equal(abbrev, "NYY") {
        return Some("New York Yankees");
    }
    if str_equal(abbrev, "OAK") {
        return Some("Oakland Athletics");
    }
    if str_equal(abbrev, "PHI") {
        return Some("Philadelphia Phillies");
    }
    if str_equal(abbrev, "PIT") {
        return Some("Pittsburgh Pirates");
    }
    if str_equal(abbrev, "SD") {
        return Some("San Diego Padres");
    }
    if str_equal(abbrev, "SEA") {
        return Some("Seattle Mariners");
    }
    if str_equal(abbrev, "SF") {
        return Some("San Franciso Giants");
    }
    if str_equal(abbrev, "STL") {
        return Some("St. Louis Cardinals");
    }
    if str_equal(abbrev, "TEX") {
        return Some("Texas Rangers");
    }
    if str_equal(abbrev, "TB") {
        return Some("Tampa Bay Rays");
    }
    if str_equal(abbrev, "TOR") {
        return Some("Toronto Blue Jays");
    }
    if str_equal(abbrev, "WAS") {
        return Some("Washington Nationals");
    }
    None
}

/// The reply to a request for a team's full name: `{"result":"<name>"}`,
/// or an error when the address names no team or an unknown one.
pub open spec fn team_name_json(team: Option<Seq<char>>) -> Seq<char> {
    match team {
        None => json_error("No team specified"@),
        Some(t) => match full_team_name(t) {
            Some(name) => "{\"result\":\""@ + name + "\"}"@,
            None => json_error("Invalid team"@),
        },
    }
}

/// Answers a request for the full name of the team named in its address.
/// The service promises the full name without fixing the reply's shape:
/// `{"result":"<name>"}`, `No team specified` and `Invalid team` are
/// choices of this library, made to match the other replies.
pub fn team_name(team: Option<&str>) -> (r: String)
    ensures
        r@ == team_name_json(
            match team {
                Some(t) => Some(t@),
                None => None,
            },
        ),
{
    match team {
        None => json_error_string("No team specified"),
        Some(t) => match get_full_team_name(t) {
            Some(name) => {
                let mut r = String::from_str("{\"result\":\"");
                r.append(name);
                r.append("\"}");
                r
            },
            None => json_error_string("Invalid team"),
        },
    }
}

/// A team has a full name exactly when its abbreviation is one of the league's teams.
pub proof fn lemma_full_name_iff_league_team(abbrev: Seq<char>)
    ensures
        full_team_name(abbrev) is Some <==> league_teams().contains(abbrev),
{
    let teams = league_teams();
    if full_team_name(abbrev) is Some {
        if abbrev == "ARI"@ {
            assert(teams[0] == abbrev);
        } else if abbrev == "ATL"@ {
            assert(teams[1] == abbrev);
        } else if abbrev == "BAL"@ {
            assert(teams[2] == abbrev);
        } else if abbrev == "BOS"@ {
            assert(teams[3] == abbrev);
        } else if abbrev == "CHC"@ {
            assert(teams[4] == abbrev);
        } else if abbrev == "CWS"@ {
            assert(teams[5] == abbrev);
        } else if abbrev == "CIN"@ {
            assert(teams[6] == abbrev);
        } else if abbrev == "CLE"@ {
            assert(teams[7] == abbrev);
        } else if abbrev == "COL"@ {
            assert(teams[8] == abbrev);
        } else if abbrev == "DET"@ {
            assert(teams[9] == abbrev);
        } else if abbrev == "HOU"@ {
            assert(teams[10] == abbrev);
        } else if abbrev == "KC"@ {
            assert(teams[11] == abbrev);
        } else if abbrev == "LAA"@ {
            assert(teams[12] == abbrev);
        } else if abbrev == "LAD"@ {
            assert(teams[13] == abbrev);
        } else if abbrev == "MIA"@ {
            assert(teams[14] == abbrev);
        } else if abbrev == "MIL"@ {
            assert(teams[15] == abbrev);
        } else if abbrev == "MIN"@ {
            assert(teams[16] == abbrev);
        } else if abbrev == "NYM"@ {
            assert(teams[17] == abbrev);
        } else if abbrev == "NYY"@ {
            assert(teams[18] == abbrev);
        } else if abbrev == "OAK"@ {
            assert(teams[19] == abbrev);
        } else if abbrev == "PHI"@ {
            assert(teams[20] == abbrev);
        } else if abbrev == "PIT"@ {
            assert(teams[21] == abbrev);
        } else if abbrev == "SD"@ {
            assert(teams[22] == abbrev);
        } else if abbrev == "SF"@ {
            assert(teams[23] == abbrev);
        } else if abbrev == "SEA"@ {
            assert(teams[24] == abbrev);
        } else if abbrev == "STL"@ {
            assert(teams[25] == abbrev);
        } else if abbrev == "TB"@ {
            assert(teams[26] == abbrev);
        } else if abbrev == "TEX"@ {
            assert(teams[27] == abbrev);
        } else if abbrev == "TOR"@ {
            assert(teams[28] == abbrev);
        } else if abbrev == "WAS"@ {
            assert(teams[29] == abbrev);
        }
    }
    if teams.contains(abbrev) {
        let i: int = choose|i: int| 0 <= i < teams.len() && teams[i] == abbrev;
        assert(0 <= i < 30);
    }
}

/// The team with the given abbreviation has the given full name.
pub open spec fn has_full_name(abbrev: Seq<char>, name: Seq<char>) -> bool {
    full_team_name(abbrev) == Some(name)
}

proof fn lemma_full_name_ari()
    ensures
        has_full_name("ARI"@, "Arizona Diamondbacks"@),
{
    reveal_strlit("ARI");
}

proof fn lemma_full_name_atl()
    ensures
        has_full_name("ATL"@, "Atlanta Braves"@),
{
    reveal_strlit("ATL");
    reveal_strlit("ARI");
    assert("ATL"@[1] != "ARI"@[1]);
}

proof fn lemma_full_name_bal()
    ensures
        has_full_name("BAL"@, "Baltimore Orioles"@),
{
    reveal_strlit("BAL");
    reveal_strlit("ARI");
    assert("BAL"@[0] != "ARI"@[0]);
    reveal_strlit("ATL");
    assert("BAL"@[0] != "ATL"@[0]);
}

proof fn lemma_full_name_bos()
    ensures
        has_full_name("BOS"@, "Boston Red Sox"@),
{
    reveal_strlit("BOS");
    reveal_strlit("ARI");
    assert("BOS"@[0] != "ARI"@[0]);
    reveal_strlit("ATL");
    assert("BOS"@[0] != "ATL"@[0]);
    reveal_strlit("BAL");
    assert("BOS"@[1] != "BAL"@[1]);
}

proof fn lemma_full_name_chc()
    ensures
        has_full_name("CHC"@, "Chicago Cubs"@),
{
    reveal_strlit("CHC");
    reveal_strlit("ARI");
    assert("CHC"@[0] != "ARI"@[0]);
    reveal_strlit("ATL");
    assert("CHC"@[0] != "ATL"@[0]);
    reveal_strlit("BAL");
    assert("CHC"@[0] != "BAL"@[0]);
    reveal_strlit("BOS");
    assert("CHC"@[0] != "BOS"@[0]);
}

proof fn lemma_full_name_cin()
    ensures
        has_full_name("CIN"@, "Cinncinati Reds"@),
{
    reveal_strlit("CIN");
    reveal_strlit("ARI");
    assert("CIN"@[0] != "ARI"@[0]);
    reveal_strlit("ATL");
    assert("CIN"@[0] != "ATL"@[0]);
    reveal_strlit("BAL");
    assert("CIN"@[0] != "BAL"@[0]);
    reveal_strlit("BOS");
    assert("CIN"@[0] != "BOS"@[0]);
    reveal_strlit("CHC");
    assert("CIN"@[1] != "CHC"@[1]);
}

proof fn lemma_full_name_cle()
    ensures
        has_full_name("CLE"@, "Cleveland Indians"@),
{
    reveal_strlit("CLE");
    reveal_strlit("ARI");
    assert("CLE"@[0] != "ARI"@[0]);
    reveal_strlit("ATL");
    assert("CLE"@[0] != "ATL"@[0]);
    reveal_strlit("BAL");
    assert("CLE"@[0] != "BAL"@[0]);
    reveal_strlit("BOS");
    assert("CLE"@[0] != "BOS"@[0]);
    reveal_strlit("CHC");
    assert("CLE"@[1] != "CHC"@[1]);
    reveal_strlit("CIN");
    assert("CLE"@[1] != "CIN"@[1]);
}

proof fn lemma_full_name_col()
    ensures
        has_full_name("COL"@, "Colorado Rockies"@),
{
    reveal_strlit("COL");
    reveal_strlit("ARI");
    assert("COL"@[0] != "ARI"@[0]);
    reveal_strlit("ATL");
    assert("COL"@[0] != "ATL"@[0]);
    reveal_strlit("BAL");
    assert("COL"@[0] != "BAL"@[0]);
    reveal_strlit("BOS");
    assert("COL"@[0] != "BOS"@[0]);
    reveal_strlit("CHC");
    assert("COL"@[1] != "CHC"@[1]);
    reveal_strlit("CIN");
    assert("COL"@[1] != "CIN"@[1]);
    reveal_strlit("CLE");
    assert("COL"@[1] != "CLE"@[1]);
}

proof fn lemma_full_name_cws()
    ensures
        has_full_name("CWS"@, "Chicago White Sox"@),
{
    reveal_strlit("CWS");
    reveal_strlit("ARI");
    assert("CWS"@[0] != "ARI"@[0]);
    reveal_strlit("ATL");
    assert("CWS"@[0] != "ATL"@[0]);
    reveal_strlit("BAL");
    assert("CWS"@[0] != "BAL"@[0]);
    reveal_strlit("BOS");
    assert("CWS"@[0] != "BOS"@[0]);
    reveal_strlit("CHC");
    assert("CWS"@[1] != "CHC"@[1]);
    reveal_strlit("CIN");
    assert("CWS"@[1] != "CIN"@[1]);
    reveal_strlit("CLE");
    assert("CWS"@[1] != "CLE"@[1]);
    reveal_strlit("COL");
    assert("CWS"@[1] != "COL"@[1]);
}

proof fn lemma_full_name_det()
    ensures
        has_full_name("DET"@, "Detroit Tigers"@),
{
    reveal_strlit("DET");
    reveal_strlit("ARI");
    assert("DET"@[0] != "ARI"@[0]);
    reveal_strlit("ATL");
    assert("DET"@[0] != "ATL"@[0]);
    reveal_strlit("BAL");
    assert("DET"@[0] != "BAL"@[0]);
    reveal_strlit("BOS");
    assert("DET"@[0] != "BOS"@[0]);
    reveal_strlit("CHC");
    assert("DET"@[0] != "CHC"@[0]);
    reveal_strlit("CIN");
    assert("DET"@[0] != "CIN"@[0]);
    reveal_strlit("CLE");
    assert("DET"@[0] != "CLE"@[0]);
    reveal_strlit("COL");
    assert("DET"@[0] != "COL"@[0]);
    reveal_strlit("CWS");
    assert("DET"@[0] != "CWS"@[0]);
}

proof fn lemma_full_name_hou()
    ensures
        has_full_name("HOU"@, "Houston Astros"@),
{
    reveal_strlit("HOU");
    reveal_strlit("ARI");
    assert("HOU"@[0] != "ARI"@[0]);
    reveal_strlit("ATL");
    assert("HOU"@[0] != "ATL"@[0]);
    reveal_strlit("BAL");
    assert("HOU"@[0] != "BAL"@[0]);
    reveal_strlit("BOS");
    assert("HOU"@[0] != "BOS"@[0]);
    reveal_strlit("CHC");
    assert("HOU"@[0] != "CHC"@[0]);
    reveal_strlit("CIN");
    assert("HOU"@[0] != "CIN"@[0]);
    reveal_strlit("CLE");
    assert("HOU"@[0] != "CLE"@[0]);
    reveal_strlit("COL");
    assert("HOU"@[0] != "COL"@[0]);
    reveal_strlit("CWS");
    assert("HOU"@[0] != "CWS"@[0]);
    reveal_strlit("DET");
    assert("HOU"@[0] != "DET"@[0]);
}

proof fn lemma_full_name_kc()
    ensures
        has_full_name("KC"@, "Kansas City Royals"@),
{
    reveal_strlit("KC");
    reveal_strlit("ARI");
    assert("KC"@.len() != "ARI"@.len());
    reveal_strlit("ATL");
    assert("KC"@.len() != "ATL"@.len());
    reveal_strlit("BAL");
    assert("KC"@.len() != "BAL"@.len());
    reveal_strlit("BOS");
    assert("KC"@.len() != "BOS"@.len());
    reveal_strlit("CHC");
    assert("KC"@.len() != "CHC"@.len());
    reveal_strlit("CIN");
    assert("KC"@.len() != "CIN"@.len());
    reveal_strlit("CLE");
    assert("KC"@.len() != "CLE"@.len());
    reveal_strlit("COL");
    assert("KC"@.len() != "COL"@.len());
    reveal_strlit("CWS");
    assert("KC"@.len() != "CWS"@.len());
    reveal_strlit("DET");
    assert("KC"@.len() != "DET"@.len());
    reveal_strlit("HOU");
    assert("KC"@.len() != "HOU"@.len());
}

proof fn lemma_full_name_laa()
    ensures
        has_full_name("LAA"@, "Los Angeles Angels of Anaheim"@),
{
    reveal_strlit("LAA");
    reveal_strlit("ARI");
    assert("LAA"@[0] != "ARI"@[0]);
    reveal_strlit("ATL");
    assert("LAA"@[0] != "ATL"@[0]);
    reveal_strlit("BAL");
    assert("LAA"@[0] != "BAL"@[0]);
    reveal_strlit("BOS");
    assert("LAA"@[0] != "BOS"@[0]);
    reveal_strlit("CHC");
    assert("LAA"@[0] != "CHC"@[0]);
    reveal_strlit("CIN");
    assert("LAA"@[0] != "CIN"@[0]);
    reveal_strlit("CLE");
    assert("LAA"@[0] != "CLE"@[0]);
    reveal_strlit("COL");
    assert("LAA"@[0] != "COL"@[0]);
    reveal_strlit("CWS");
    assert("LAA"@[0] != "CWS"@[0]);
    reveal_strlit("DET");
    assert("LAA"@[0] != "DET"@[0]);
    reveal_strlit("HOU");
    assert("LAA"@[0] != "HOU"@[0]);
    reveal_strlit("KC");
    assert("LAA"@.len() != "KC"@.len());
}

proof fn lemma_full_name_lad()
    ensures
        has_full_name("LAD"@, "Los Angeles Dodgers"@),
{
    reveal_strlit("LAD");
    reveal_strlit("ARI");
    assert("LAD"@[0] != "ARI"@[0]);
    reveal_strlit("ATL");
    assert("LAD"@[0] != "ATL"@[0]);
    reveal_strlit("BAL");
    assert("LAD"@[0] != "BAL"@[0]);
    reveal_strlit("BOS");
    assert("LAD"@[0] != "BOS"@[0]);
    reveal_strlit("CHC");
    assert("LAD"@[0] != "CHC"@[0]);
    reveal_strlit("CIN");
    assert("LAD"@[0] != "CIN"@[0]);
    reveal_strlit("CLE");
    assert("LAD"@[0] != "CLE"@[0]);
    reveal_strlit("COL");
    assert("LAD"@[0] != "COL"@[0]);
    reveal_strlit("CWS");
    assert("LAD"@[0] != "CWS"@[0]);
    reveal_strlit("DET");
    assert("LAD"@[0] != "DET"@[0]);
    reveal_strlit("HOU");
    assert("LAD"@[0] != "HOU"@[0]);
    reveal_strlit("KC");
    assert("LAD"@.len() != "KC"@.len());
    reveal_strlit("LAA");
    assert("LAD"@[2] != "LAA"@[2]);
}

proof fn lemma_full_name_mia()
    ensures
        has_full_name("MIA"@, "Miami Marlins"@),
{
    reveal_strlit("MIA");
    reveal_strlit("ARI");
    assert("MIA"@[0] != "ARI"@[0]);
    reveal_strlit("ATL");
    assert("MIA"@[0] != "ATL"@[0]);
    reveal_strlit("BAL");
    assert("MIA"@[0] != "BAL"@[0]);
    reveal_strlit("BOS");
    assert("MIA"@[0] != "BOS"@[0]);
    reveal_strlit("CHC");
    assert("MIA"@[0] != "CHC"@[0]);
    reveal_strlit("CIN");
    assert("MIA"@[0] != "CIN"@[0]);
    reveal_strlit("CLE");
    assert("MIA"@[0] != "CLE"@[0]);
    reveal_strlit("COL");
    assert("MIA"@[0] != "COL"@[0]);
    reveal_strlit("CWS");
    assert("MIA"@[0] != "CWS"@[0]);
    reveal_strlit("DET");
    assert("MIA"@[0] != "DET"@[0]);
    reveal_strlit("HOU");
    assert("MIA"@[0] != "HOU"@[0]);
    reveal_strlit("KC");
    assert("MIA"@.len() != "KC"@.len());
    reveal_strlit("LAA");
    assert("MIA"@[0] != "LAA"@[0]);
    reveal_strlit("LAD");
    assert("MIA"@[0] != "LAD"@[0]);
}

proof fn lemma_full_name_mil()
    ensures
        has_full_name("MIL"@, "Milwaukee Brewers"@),
{
    reveal_strlit("MIL");
    reveal_strlit("ARI");
    assert("MIL"@[0] != "ARI"@[0]);
    reveal_strlit("ATL");
    assert("MIL"@[0] != "ATL"@[0]);
    reveal_strlit("BAL");
    assert("MIL"@[0] != "BAL"@[0]);
    reveal_strlit("BOS");
    assert("MIL"@[0] != "BOS"@[0]);
    reveal_strlit("CHC");
    assert("MIL"@[0] != "CHC"@[0]);
    reveal_strlit("CIN");
    assert("MIL"@[0] != "CIN"@[0]);
    reveal_strlit("CLE");
    assert("MIL"@[0] != "CLE"@[0]);
    reveal_strlit("COL");
    assert("MIL"@[0] != "COL"@[0]);
    reveal_strlit("CWS");
    assert("MIL"@[0] != "CWS"@[0]);
    reveal_strlit("DET");
    assert("MIL"@[0] != "DET"@[0]);
    reveal_strlit("HOU");
    assert("MIL"@[0] != "HOU"@[0]);
    reveal_strlit("KC");
    assert("MIL"@.len() != "KC"@.len());
    reveal_strlit("LAA");
    assert("MIL"@[0] != "LAA"@[0]);
    reveal_strlit("LAD");
    assert("MIL"@[0] != "LAD"@[0]);
    reveal_strlit("MIA");
    assert("MIL"@[2] != "MIA"@[2]);
}

proof fn lemma_full_name_min()
    ensures
        has_full_name("MIN"@, "Minnesota Twins"@),
{
    reveal_strlit("MIN");
    reveal_strlit("ARI");
    assert("MIN"@[0] != "ARI"@[0]);
    reveal_strlit("ATL");
    assert("MIN"@[0] != "ATL"@[0]);
    reveal_strlit("BAL");
    assert("MIN"@[0] != "BAL"@[0]);
    reveal_strlit("BOS");
    assert("MIN"@[0] != "BOS"@[0]);
    reveal_strlit("CHC");
    assert("MIN"@[0] != "CHC"@[0]);
    reveal_strlit("CIN");
    assert("MIN"@[0] != "CIN"@[0]);
    reveal_strlit("CLE");
    assert("MIN"@[0] != "CLE"@[0]);
    reveal_strlit("COL");
    assert("MIN"@[0] != "COL"@[0]);
    reveal_strlit("CWS");
    assert("MIN"@[0] != "CWS"@[0]);
    reveal_strlit("DET");
    assert("MIN"@[0] != "DET"@[0]);
    reveal_strlit("HOU");
    assert("MIN"@[0] != "HOU"@[0]);
    reveal_strlit("KC");
    assert("MIN"@.len() != "KC"@.len());
    reveal_strlit("LAA");
    assert("MIN"@[0] != "LAA"@[0]);
    reveal_strlit("LAD");
    assert("MIN"@[0] != "LAD"@[0]);
    reveal_strlit("MIA");
    assert("MIN"@[2] != "MIA"@[2]);
    reveal_strlit("MIL");
    assert("MIN"@[2] != "MIL"@[2]);
}

proof fn lemma_full_name_nym()
    ensures
        has_full_name("NYM"@, "New York Mets"@),
{
    reveal_strlit("NYM");
    reveal_strlit("ARI");
    assert("NYM"@[0] != "ARI"@[0]);
    reveal_strlit("ATL");
    assert("NYM"@[0] != "ATL"@[0]);
    reveal_strlit("BAL");
    assert("NYM"@[0] != "BAL"@[0]);
    reveal_strlit("BOS");
    assert("NYM"@[0] != "BOS"@[0]);
    reveal_strlit("CHC");
    assert("NYM"@[0] != "CHC"@[0]);
    reveal_strlit("CIN");
    assert("NYM"@[0] != "CIN"@[0]);
    reveal_strlit("CLE");
    assert("NYM"@[0] != "CLE"@[0]);
    reveal_strlit("COL");
    assert("NYM"@[0] != "COL"@[0]);
    reveal_strlit("CWS");
    assert("NYM"@[0] != "CWS"@[0]);
    reveal_strlit("DET");
    assert("NYM"@[0] != "DET"@[0]);
    reveal_strlit("HOU");
    assert("NYM"@[0] != "HOU"@[0]);
    reveal_strlit("KC");
    assert("NYM"@.len() != "KC"@.len());
    reveal_strlit("LAA");
    assert("NYM"@[0] != "LAA"@[0]);
    reveal_strlit("LAD");
    assert("NYM"@[0] != "LAD"@[0]);
    reveal_strlit("MIA");
    assert("NYM"@[0] != "MIA"@[0]);
    reveal_strlit("MIL");
    assert("NYM"@[0] != "MIL"@[0]);
    reveal_strlit("MIN");
    assert("NYM"@[0] != "MIN"@[0]);
}

proof fn lemma_full_name_nyy()
    ensures
        has_full_name("NYY"@, "New York Yankees"@),
{
    reveal_strlit("NYY");
    reveal_strlit("ARI");
    assert("NYY"@[0] != "ARI"@[0]);
    reveal_strlit("ATL");
    assert("NYY"@[0] != "ATL"@[0]);
    reveal_strlit("BAL");
    assert("NYY"@[0] != "BAL"@[0]);
    reveal_strlit("BOS");
    assert("NYY"@[0] != "BOS"@[0]);
    reveal_strlit("CHC");
    assert("NYY"@[0] != "CHC"@[0]);
    reveal_strlit("CIN");
    assert("NYY"@[0] != "CIN"@[0]);
    reveal_strlit("CLE");
    assert("NYY"@[0] != "CLE"@[0]);
    reveal_strlit("COL");
    assert("NYY"@[0] != "COL"@[0]);
    reveal_strlit("CWS");
    assert("NYY"@[0] != "CWS"@[0]);
    reveal_strlit("DET");
    assert("NYY"@[0] != "DET"@[0]);
    reveal_strlit("HOU");
    assert("NYY"@[0] != "HOU"@[0]);
    reveal_strlit("KC");
    assert("NYY"@.len() != "KC"@.len());
    reveal_strlit("LAA");
    assert("NYY"@[0] != "LAA"@[0]);
    reveal_strlit("LAD");
    assert("NYY"@[0] != "LAD"@[0]);
    reveal_strlit("MIA");
    assert("NYY"@[0] != "MIA"@[0]);
    reveal_strlit("MIL");
    assert("NYY"@[0] != "MIL"@[0]);
    reveal_strlit("MIN");
    assert("NYY"@[0] != "MIN"@[0]);
    reveal_strlit("NYM");
    assert("NYY"@[2] != "NYM"@[2]);
}

proof fn lemma_full_name_oak()
    ensures
        has_full_name("OAK"@, "Oakland Athletics"@),
{
    reveal_strlit("OAK");
    reveal_strlit("ARI");
    assert("OAK"@[0] != "ARI"@[0]);
    reveal_strlit("ATL");
    assert("OAK"@[0] != "ATL"@[0]);
    reveal_strlit("BAL");
    assert("OAK"@[0] != "BAL"@[0]);
    reveal_strlit("BOS");
    assert("OAK"@[0] != "BOS"@[0]);
    reveal_strlit("CHC");
    assert("OAK"@[0] != "CHC"@[0]);
    reveal_strlit("CIN");
    assert("OAK"@[0] != "CIN"@[0]);
    reveal_strlit("CLE");
    assert("OAK"@[0] != "CLE"@[0]);
    reveal_strlit("COL");
    assert("OAK"@[0] != "COL"@[0]);
    reveal_strlit("CWS");
    assert("OAK"@[0] != "CWS"@[0]);
    reveal_strlit("DET");
    assert("OAK"@[0] != "DET"@[0]);
    reveal_strlit("HOU");
    assert("OAK"@[0] != "HOU"@[0]);
    reveal_strlit("KC");
    assert("OAK"@.len() != "KC"@.len());
    reveal_strlit("LAA");
    assert("OAK"@[0] != "LAA"@[0]);
    reveal_strlit("LAD");
    assert("OAK"@[0] != "LAD"@[0]);
    reveal_strlit("MIA");
    assert("OAK"@[0] != "MIA"@[0]);
    reveal_strlit("MIL");
    assert("OAK"@[0] != "MIL"@[0]);
    reveal_strlit("MIN");
    assert("OAK"@[0] != "MIN"@[0]);
    reveal_strlit("NYM");
    assert("OAK"@[0] != "NYM"@[0]);
    reveal_strlit("NYY");
    assert("OAK"@[0] != "NYY"@[0]);
}

proof fn lemma_full_name_phi()
    ensures
        has_full_name("PHI"@, "Philadelphia Phillies"@),
{
    reveal_strlit("PHI");
    reveal_strlit("ARI");
    assert("PHI"@[0] != "ARI"@[0]);
    reveal_strlit("ATL");
    assert("PHI"@[0] != "ATL"@[0]);
    reveal_strlit("BAL");
    assert("PHI"@[0] != "BAL"@[0]);
    reveal_strlit("BOS");
    assert("PHI"@[0] != "BOS"@[0]);
    reveal_strlit("CHC");
    assert("PHI"@[0] != "CHC"@[0]);
    reveal_strlit("CIN");
    assert("PHI"@[0] != "CIN"@[0]);
    reveal_strlit("CLE");
    assert("PHI"@[0] != "CLE"@[0]);
    reveal_strlit("COL");
    assert("PHI"@[0] != "COL"@[0]);
    reveal_strlit("CWS");
    assert("PHI"@[0] != "CWS"@[0]);
    reveal_strlit("DET");
    assert("PHI"@[0] != "DET"@[0]);
    reveal_strlit("HOU");
    assert("PHI"@[0] != "HOU"@[0]);
    reveal_strlit("KC");
    assert("PHI"@.len() != "KC"@.len());
    reveal_strlit("LAA");
    assert("PHI"@[0] != "LAA"@[0]);
    reveal_strlit("LAD");
    assert("PHI"@[0] != "LAD"@[0]);
    reveal_strlit("MIA");
    assert("PHI"@[0] != "MIA"@[0]);
    reveal_strlit("MIL");
    assert("PHI"@[0] != "MIL"@[0]);
    reveal_strlit("MIN");
    assert("PHI"@[0] != "MIN"@[0]);
    reveal_strlit("NYM");
    assert("PHI"@[0] != "NYM"@[0]);
    reveal_strlit("NYY");
    assert("PHI"@[0] != "NYY"@[0]);
    reveal_strlit("OAK");
    assert("PHI"@[0] != "OAK"@[0]);
}

proof fn lemma_full_name_pit()
    ensures
        has_full_name("PIT"@, "Pittsburgh Pirates"@),
{
    reveal_strlit("PIT");
    reveal_strlit("ARI");
    assert("PIT"@[0] != "ARI"@[0]);
    reveal_strlit("ATL");
    assert("PIT"@[0] != "ATL"@[0]);
    reveal_strlit("BAL");
    assert("PIT"@[0] != "BAL"@[0]);
    reveal_strlit("BOS");
    assert("PIT"@[0] != "BOS"@[0]);
    reveal_strlit("CHC");
    assert("PIT"@[0] != "CHC"@[0]);
    reveal_strlit("CIN");
    assert("PIT"@[0] != "CIN"@[0]);
    reveal_strlit("CLE");
    assert("PIT"@[0] != "CLE"@[0]);
    reveal_strlit("COL");
    assert("PIT"@[0] != "COL"@[0]);
    reveal_strlit("CWS");
    assert("PIT"@[0] != "CWS"@[0]);
    reveal_strlit("DET");
    assert("PIT"@[0] != "DET"@[0]);
    reveal_strlit("HOU");
    assert("PIT"@[0] != "HOU"@[0]);
    reveal_strlit("KC");
    assert("PIT"@.len() != "KC"@.len());
    reveal_strlit("LAA");
    assert("PIT"@[0] != "LAA"@[0]);
    reveal_strlit("LAD");
    assert("PIT"@[0] != "LAD"@[0]);
    reveal_strlit("MIA");
    assert("PIT"@[0] != "MIA"@[0]);
    reveal_strlit("MIL");
    assert("PIT"@[0] != "MIL"@[0]);
    reveal_strlit("MIN");
    assert("PIT"@[0] != "MIN"@[0]);
    reveal_strlit("NYM");
    assert("PIT"@[0] != "NYM"@[0]);
    reveal_strlit("NYY");
    assert("PIT"@[0] != "NYY"@[0]);
    reveal_strlit("OAK");
    assert("PIT"@[0] != "OAK"@[0]);
    reveal_strlit("PHI");
    assert("PIT"@[1] != "PHI"@[1]);
}

proof fn lemma_full_name_sd()
    ensures
        has_full_name("SD"@, "San Diego Padres"@),
{
    reveal_strlit("SD");
    reveal_strlit("ARI");
    assert("SD"@.len() != "ARI"@.len());
    reveal_strlit("ATL");
    assert("SD"@.len() != "ATL"@.len());
    reveal_strlit("BAL");
    assert("SD"@.len() != "BAL"@.len());
    reveal_strlit("BOS");
    assert("SD"@.len() != "BOS"@.len());
    reveal_strlit("CHC");
    assert("SD"@.len() != "CHC"@.len());
    reveal_strlit("CIN");
    assert("SD"@.len() != "CIN"@.len());
    reveal_strlit("CLE");
    assert("SD"@.len() != "CLE"@.len());
    reveal_strlit("COL");
    assert("SD"@.len() != "COL"@.len());
    reveal_strlit("CWS");
    assert("SD"@.len() != "CWS"@.len());
    reveal_strlit("DET");
    assert("SD"@.len() != "DET"@.len());
    reveal_strlit("HOU");
    assert("SD"@.len() != "HOU"@.len());
    reveal_strlit("KC");
    assert("SD"@[0] != "KC"@[0]);
    reveal_strlit("LAA");
    assert("SD"@.len() != "LAA"@.len());
    reveal_strlit("LAD");
    assert("SD"@.len() != "LAD"@.len());
    reveal_strlit("MIA");
    assert("SD"@.len() != "MIA"@.len());
    reveal_strlit("MIL");
    assert("SD"@.len() != "MIL"@.len());
    reveal_strlit("MIN");
    assert("SD"@.len() != "MIN"@.len());
    reveal_strlit("NYM");
    assert("SD"@.len() != "NYM"@.len());
    reveal_strlit("NYY");
    assert("SD"@.len() != "NYY"@.len());
    reveal_strlit("OAK");
    assert("SD"@.len() != "OAK"@.len());
    reveal_strlit("PHI");
    assert("SD"@.len() != "PHI"@.len());
    reveal_strlit("PIT");
    assert("SD"@.len() != "PIT"@.len());
}

proof fn lemma_full_name_sea()
    ensures
        has_full_name("SEA"@, "Seattle Mariners"@),
{
    reveal_strlit("SEA");
    reveal_strlit("ARI");
    assert("SEA"@[0] != "ARI"@[0]);
    reveal_strlit("ATL");
    assert("SEA"@[0] != "ATL"@[0]);
    reveal_strlit("BAL");
    assert("SEA"@[0] != "BAL"@[0]);
    reveal_strlit("BOS");
    assert("SEA"@[0] != "BOS"@[0]);
    reveal_strlit("CHC");
    assert("SEA"@[0] != "CHC"@[0]);
    reveal_strlit("CIN");
    assert("SEA"@[0] != "CIN"@[0]);
    reveal_strlit("CLE");
    assert("SEA"@[0] != "CLE"@[0]);
    reveal_strlit("COL");
    assert("SEA"@[0] != "COL"@[0]);
    reveal_strlit("CWS");
    assert("SEA"@[0] != "CWS"@[0]);
    reveal_strlit("DET");
    assert("SEA"@[0] != "DET"@[0]);
    reveal_strlit("HOU");
    assert("SEA"@[0] != "HOU"@[0]);
    reveal_strlit("KC");
    assert("SEA"@.len() != "KC"@.len());
    reveal_strlit("LAA");
    assert("SEA"@[0] != "LAA"@[0]);
    reveal_strlit("LAD");
    assert("SEA"@[0] != "LAD"@[0]);
    reveal_strlit("MIA");
    assert("SEA"@[0] != "MIA"@[0]);
    reveal_strlit("MIL");
    assert("SEA"@[0] != "MIL"@[0]);
    reveal_strlit("MIN");
    assert("SEA"@[0] != "MIN"@[0]);
    reveal_strlit("NYM");
    assert("SEA"@[0] != "NYM"@[0]);
    reveal_strlit("NYY");
    assert("SEA"@[0] != "NYY"@[0]);
    reveal_strlit("OAK");
    assert("SEA"@[0] != "OAK"@[0]);
    reveal_strlit("PHI");
    assert("SEA"@[0] != "PHI"@[0]);
    reveal_strlit("PIT");
    assert("SEA"@[0] != "PIT"@[0]);
    reveal_strlit("SD");
    assert("SEA"@.len() != "SD"@.len());
}

proof fn lemma_full_name_sf()
    ensures
        has_full_name("SF"@, "San Franciso Giants"@),
{
    reveal_strlit("SF");
    reveal_strlit("ARI");
    assert("SF"@.len() != "ARI"@.len());
    reveal_strlit("ATL");
    assert("SF"@.len() != "ATL"@.len());
    reveal_strlit("BAL");
    assert("SF"@.len() != "BAL"@.len());
    reveal_strlit("BOS");
    assert("SF"@.len() != "BOS"@.len());
    reveal_strlit("CHC");
    assert("SF"@.len() != "CHC"@.len());
    reveal_strlit("CIN");
    assert("SF"@.len() != "CIN"@.len());
    reveal_strlit("CLE");
    assert("SF"@.len() != "CLE"@.len());
    reveal_strlit("COL");
    assert("SF"@.len() != "COL"@.len());
    reveal_strlit("CWS");
    assert("SF"@.len() != "CWS"@.len());
    reveal_strlit("DET");
    assert("SF"@.len() != "DET"@.len());
    reveal_strlit("HOU");
    assert("SF"@.len() != "HOU"@.len());
    reveal_strlit("KC");
    assert("SF"@[0] != "KC"@[0]);
    reveal_strlit("LAA");
    assert("SF"@.len() != "LAA"@.len());
    reveal_strlit("LAD");
    assert("SF"@.len() != "LAD"@.len());
    reveal_strlit("MIA");
    assert("SF"@.len() != "MIA"@.len());
    reveal_strlit("MIL");
    assert("SF"@.len() != "MIL"@.len());
    reveal_strlit("MIN");
    assert("SF"@.len() != "MIN"@.len());
    reveal_strlit("NYM");
    assert("SF"@.len() != "NYM"@.len());
    reveal_strlit("NYY");
    assert("SF"@.len() != "NYY"@.len());
    reveal_strlit("OAK");
    assert("SF"@.len() != "OAK"@.len());
    reveal_strlit("PHI");
    assert("SF"@.len() != "PHI"@.len());
    reveal_strlit("PIT");
    assert("SF"@.len() != "PIT"@.len());
    reveal_strlit("SD");
    assert("SF"@[1] != "SD"@[1]);
    reveal_strlit("SEA");
    assert("SF"@.len() != "SEA"@.len());
}

proof fn lemma_full_name_stl()
    ensures
        has_full_name("STL"@, "St. Louis Cardinals"@),
{
    reveal_strlit("STL");
    reveal_strlit("ARI");
    assert("STL"@[0] != "ARI"@[0]);
    reveal_strlit("ATL");
    assert("STL"@[0] != "ATL"@[0]);
    reveal_strlit("BAL");
    assert("STL"@[0] != "BAL"@[0]);
    reveal_strlit("BOS");
    assert("STL"@[0] != "BOS"@[0]);
    reveal_strlit("CHC");
    assert("STL"@[0] != "CHC"@[0]);
    reveal_strlit("CIN");
    assert("STL"@[0] != "CIN"@[0]);
    reveal_strlit("CLE");
    assert("STL"@[0] != "CLE"@[0]);
    reveal_strlit("COL");
    assert("STL"@[0] != "COL"@[0]);
    reveal_strlit("CWS");
    assert("STL"@[0] != "CWS"@[0]);
    reveal_strlit("DET");
    assert("STL"@[0] != "DET"@[0]);
    reveal_strlit("HOU");
    assert("STL"@[0] != "HOU"@[0]);
    reveal_strlit("KC");
    assert("STL"@.len() != "KC"@.len());
    reveal_strlit("LAA");
    assert("STL"@[0] != "LAA"@[0]);
    reveal_strlit("LAD");
    assert("STL"@[0] != "LAD"@[0]);
    reveal_strlit("MIA");
    assert("STL"@[0] != "MIA"@[0]);
    reveal_strlit("MIL");
    assert("STL"@[0] != "MIL"@[0]);
    reveal_strlit("MIN");
    assert("STL"@[0] != "MIN"@[0]);
    reveal_strlit("NYM");
    assert("STL"@[0] != "NYM"@[0]);
    reveal_strlit("NYY");
    assert("STL"@[0] != "NYY"@[0]);
    reveal_strlit("OAK");
    assert("STL"@[0] != "OAK"@[0]);
    reveal_strlit("PHI");
    assert("STL"@[0] != "PHI"@[0]);
    reveal_strlit("PIT");
    assert("STL"@[0] != "PIT"@[0]);
    reveal_strlit("SD");
    assert("STL"@.len() != "SD"@.len());
    reveal_strlit("SEA");
    assert("STL"@[1] != "SEA"@[1]);
    reveal_strlit("SF");
    assert("STL"@.len() != "SF"@.len());
}

proof fn lemma_full_name_tex()
    ensures
        has_full_name("TEX"@, "Texas Rangers"@),
{
    reveal_strlit("TEX");
    reveal_strlit("ARI");
    assert("TEX"@[0] != "ARI"@[0]);
    reveal_strlit("ATL");
    assert("TEX"@[0] != "ATL"@[0]);
    reveal_strlit("BAL");
    assert("TEX"@[0] != "BAL"@[0]);
    reveal_strlit("BOS");
    assert("TEX"@[0] != "BOS"@[0]);
    reveal_strlit("CHC");
    assert("TEX"@[0] != "CHC"@[0]);
    reveal_strlit("CIN");
    assert("TEX"@[0] != "CIN"@[0]);
    reveal_strlit("CLE");
    assert("TEX"@[0] != "CLE"@[0]);
    reveal_strlit("COL");
    assert("TEX"@[0] != "COL"@[0]);
    reveal_strlit("CWS");
    assert("TEX"@[0] != "CWS"@[0]);
    reveal_strlit("DET");
    assert("TEX"@[0] != "DET"@[0]);
    reveal_strlit("HOU");
    assert("TEX"@[0] != "HOU"@[0]);
    reveal_strlit("KC");
    assert("TEX"@.len() != "KC"@.len());
    reveal_strlit("LAA");
    assert("TEX"@[0] != "LAA"@[0]);
    reveal_strlit("LAD");
    assert("TEX"@[0] != "LAD"@[0]);
    reveal_strlit("MIA");
    assert("TEX"@[0] != "MIA"@[0]);
    reveal_strlit("MIL");
    assert("TEX"@[0] != "MIL"@[0]);
    reveal_strlit("MIN");
    assert("TEX"@[0] != "MIN"@[0]);
    reveal_strlit("NYM");
    assert("TEX"@[0] != "NYM"@[0]);
    reveal_strlit("NYY");
    assert("TEX"@[0] != "NYY"@[0]);
    reveal_strlit("OAK");
    assert("TEX"@[0] != "OAK"@[0]);
    reveal_strlit("PHI");
    assert("TEX"@[0] != "PHI"@[0]);
    reveal_strlit("PIT");
    assert("TEX"@[0] != "PIT"@[0]);
    reveal_strlit("SD");
    assert("TEX"@.len() != "SD"@.len());
    reveal_strlit("SEA");
    assert("TEX"@[0] != "SEA"@[0]);
    reveal_strlit("SF");
    assert("TEX"@.len() != "SF"@.len());
    reveal_strlit("STL");
    assert("TEX"@[0] != "STL"@[0]);
}

proof fn lemma_full_name_tb()
    ensures
        has_full_name("TB"@, "Tampa Bay Rays"@),
{
    reveal_strlit("TB");
    reveal_strlit("ARI");
    assert("TB"@.len() != "ARI"@.len());
    reveal_strlit("ATL");
    assert("TB"@.len() != "ATL"@.len());
    reveal_strlit("BAL");
    assert("TB"@.len() != "BAL"@.len());
    reveal_strlit("BOS");
    assert("TB"@.len() != "BOS"@.len());
    reveal_strlit("CHC");
    assert("TB"@.len() != "CHC"@.len());
    reveal_strlit("CIN");
    assert("TB"@.len() != "CIN"@.len());
    reveal_strlit("CLE");
    assert("TB"@.len() != "CLE"@.len());
    reveal_strlit("COL");
    assert("TB"@.len() != "COL"@.len());
    reveal_strlit("CWS");
    assert("TB"@.len() != "CWS"@.len());
    reveal_strlit("DET");
    assert("TB"@.len() != "DET"@.len());
    reveal_strlit("HOU");
    assert("TB"@.len() != "HOU"@.len());
    reveal_strlit("KC");
    assert("TB"@[0] != "KC"@[0]);
    reveal_strlit("LAA");
    assert("TB"@.len() != "LAA"@.len());
    reveal_strlit("LAD");
    assert("TB"@.len() != "LAD"@.len());
    reveal_strlit("MIA");
    assert("TB"@.len() != "MIA"@.len());
    reveal_strlit("MIL");
    assert("TB"@.len() != "MIL"@.len());
    reveal_strlit("MIN");
    assert("TB"@.len() != "MIN"@.len());
    reveal_strlit("NYM");
    assert("TB"@.len() != "NYM"@.len());
    reveal_strlit("NYY");
    assert("TB"@.len() != "NYY"@.len());
    reveal_strlit("OAK");
    assert("TB"@.len() != "OAK"@.len());
    reveal_strlit("PHI");
    assert("TB"@.len() != "PHI"@.len());
    reveal_strlit("PIT");
    assert("TB"@.len() != "PIT"@.len());
    reveal_strlit("SD");
    assert("TB"@[0] != "SD"@[0]);
    reveal_strlit("SEA");
    assert("TB"@.len() != "SEA"@.len());
    reveal_strlit("SF");
    assert("TB"@[0] != "SF"@[0]);
    reveal_strlit("STL");
    assert("TB"@.len() != "STL"@.len());
    reveal_strlit("TEX");
    assert("TB"@.len() != "TEX"@.len());
}

proof fn lemma_full_name_tor()
    ensures
        has_full_name("TOR"@, "Toronto Blue Jays"@),
{
    reveal_strlit("TOR");
    reveal_strlit("ARI");
    assert("TOR"@[0] != "ARI"@[0]);
    reveal_strlit("ATL");
    assert("TOR"@[0] != "ATL"@[0]);
    reveal_strlit("BAL");
    assert("TOR"@[0] != "BAL"@[0]);
    reveal_strlit("BOS");
    assert("TOR"@[0] != "BOS"@[0]);
    reveal_strlit("CHC");
    assert("TOR"@[0] != "CHC"@[0]);
    reveal_strlit("CIN");
    assert("TOR"@[0] != "CIN"@[0]);
    reveal_strlit("CLE");
    assert("TOR"@[0] != "CLE"@[0]);
    reveal_strlit("COL");
    assert("TOR"@[0] != "COL"@[0]);
    reveal_strlit("CWS");
    assert("TOR"@[0] != "CWS"@[0]);
    reveal_strlit("DET");
    assert("TOR"@[0] != "DET"@[0]);
    reveal_strlit("HOU");
    assert("TOR"@[0] != "HOU"@[0]);
    reveal_strlit("KC");
    assert("TOR"@.len() != "KC"@.len());
    reveal_strlit("LAA");
    assert("TOR"@[0] != "LAA"@[0]);
    reveal_strlit("LAD");
    assert("TOR"@[0] != "LAD"@[0]);
    reveal_strlit("MIA");
    assert("TOR"@[0] != "MIA"@[0]);
    reveal_strlit("MIL");
    assert("TOR"@[0] != "MIL"@[0]);
    reveal_strlit("MIN");
    assert("TOR"@[0] != "MIN"@[0]);
    reveal_strlit("NYM");
    assert("TOR"@[0] != "NYM"@[0]);
    reveal_strlit("NYY");
    assert("TOR"@[0] != "NYY"@[0]);
    reveal_strlit("OAK");
    assert("TOR"@[0] != "OAK"@[0]);
    reveal_strlit("PHI");
    assert("TOR"@[0] != "PHI"@[0]);
    reveal_strlit("PIT");
    assert("TOR"@[0] != "PIT"@[0]);
    reveal_strlit("SD");
    assert("TOR"@.len() != "SD"@.len());
    reveal_strlit("SEA");
    assert("TOR"@[0] != "SEA"@[0]);
    reveal_strlit("SF");
    assert("TOR"@.len() != "SF"@.len());
    reveal_strlit("STL");
    assert("TOR"@[0] != "STL"@[0]);
    reveal_strlit("TEX");
    assert("TOR"@[1] != "TEX"@[1]);
    reveal_strlit("TB");
    assert("TOR"@.len() != "TB"@.len());
}

proof fn lemma_full_name_was()
    ensures
        has_full_name("WAS"@, "Washington Nationals"@),
{
    reveal_strlit("WAS");
    reveal_strlit("ARI");
    assert("WAS"@[0] != "ARI"@[0]);
    reveal_strlit("ATL");
    assert("WAS"@[0] != "ATL"@[0]);
    reveal_strlit("BAL");
    assert("WAS"@[0] != "BAL"@[0]);
    reveal_strlit("BOS");
    assert("WAS"@[0] != "BOS"@[0]);
    reveal_strlit("CHC");
    assert("WAS"@[0] != "CHC"@[0]);
    reveal_strlit("CIN");
    assert("WAS"@[0] != "CIN"@[0]);
    reveal_strlit("CLE");
    assert("WAS"@[0] != "CLE"@[0]);
    reveal_strlit("COL");
    assert("WAS"@[0] != "COL"@[0]);
    reveal_strlit("CWS");
    assert("WAS"@[0] != "CWS"@[0]);
    reveal_strlit("DET");
    assert("WAS"@[0] != "DET"@[0]);
    reveal_strlit("HOU");
    assert("WAS"@[0] != "HOU"@[0]);
    reveal_strlit("KC");
    assert("WAS"@.len() != "KC"@.len());
    reveal_strlit("LAA");
    assert("WAS"@[0] != "LAA"@[0]);
    reveal_strlit("LAD");
    assert("WAS"@[0] != "LAD"@[0]);
    reveal_strlit("MIA");
    assert("WAS"@[0] != "MIA"@[0]);
    reveal_strlit("MIL");
    assert("WAS"@[0] != "MIL"@[0]);
    reveal_strlit("MIN");
    assert("WAS"@[0] != "MIN"@[0]);
    reveal_strlit("NYM");
    assert("WAS"@[0] != "NYM"@[0]);
    reveal_strlit("NYY");
    assert("WAS"@[0] != "NYY"@[0]);
    reveal_strlit("OAK");
    assert("WAS"@[0] != "OAK"@[0]);
    reveal_strlit("PHI");
    assert("WAS"@[0] != "PHI"@[0]);
    reveal_strlit("PIT");
    assert("WAS"@[0] != "PIT"@[0]);
    reveal_strlit("SD");
    assert("WAS"@.len() != "SD"@.len());
    reveal_strlit("SEA");
    assert("WAS"@[0] != "SEA"@[0]);
    reveal_strlit("SF");
    assert("WAS"@.len() != "SF"@.len());
    reveal_strlit("STL");
    assert("WAS"@[0] != "STL"@[0]);
    reveal_strlit("TEX");
    assert("WAS"@[0] != "TEX"@[0]);
    reveal_strlit("TB");
    assert("WAS"@.len() != "TB"@.len());
    reveal_strlit("TOR");
    assert("WAS"@[0] != "TOR"@[0]);
}

/// The full name of every team of the league, abbreviation by abbreviation.
pub proof fn lemma_team_full_names()
    ensures
        has_full_name("ARI"@, "Arizona Diamondbacks"@),
        has_full_name("ATL"@, "Atlanta Braves"@),
        has_full_name("BAL"@, "Baltimore Orioles"@),
        has_full_name("BOS"@, "Boston Red Sox"@),
        has_full_name("CHC"@, "Chicago Cubs"@),
        has_full_name("CIN"@, "Cinncinati Reds"@),
        has_full_name("CLE"@, "Cleveland Indians"@),
        has_full_name("COL"@, "Colorado Rockies"@),
        has_full_name("CWS"@, "Chicago White Sox"@),
        has_full_name("DET"@, "Detroit Tigers"@),
        has_full_name("HOU"@, "Houston Astros"@),
        has_full_name("KC"@, "Kansas City Royals"@),
        has_full_name("LAA"@, "Los Angeles Angels of Anaheim"@),
        has_full_name("LAD"@, "Los Angeles Dodgers"@),
        has_full_name("MIA"@, "Miami Marlins"@),
        has_full_name("MIL"@, "Milwaukee Brewers"@),
        has_full_name("MIN"@, "Minnesota Twins"@),
        has_full_name("NYM"@, "New York Mets"@),
        has_full_name("NYY"@, "New York Yankees"@),
        has_full_name("OAK"@, "Oakland Athletics"@),
        has_full_name("PHI"@, "Philadelphia Phillies"@),
        has_full_name("PIT"@, "Pittsburgh Pirates"@),
        has_full_name("SD"@, "San Diego Padres"@),
        has_full_name("SEA"@, "Seattle Mariners"@),
        has_full_name("SF"@, "San Franciso Giants"@),
        has_full_name("STL"@, "St. Louis Cardinals"@),
        has_full_name("TEX"@, "Texas Rangers"@),
        has_full_name("TB"@, "Tampa Bay Rays"@),
        has_full_name("TOR"@, "Toronto Blue Jays"@),
        has_full_name("WAS"@, "Washington Nationals"@),
{
    lemma_full_name_ari();
    lemma_full_name_atl();
    lemma_full_name_bal();
    lemma_full_name_bos();
    lemma_full_name_chc();
    lemma_full_name_cin();
    lemma_full_name_cle();
    lemma_full_name_col();
    lemma_full_name_cws();
    lemma_full_name_det();
    lemma_full_name_hou();
    lemma_full_name_kc();
    lemma_full_name_laa();
    lemma_full_name_lad();
    lemma_full_name_mia();
    lemma_full_name_mil();
    lemma_full_name_min();
    lemma_full_name_nym();
    lemma_full_name_nyy();
    lemma_full_name_oak();
    lemma_full_name_phi();
    lemma_full_name_pit();
    lemma_full_name_sd();
    lemma_full_name_sea();
    lemma_full_name_sf();
    lemma_full_name_stl();
    lemma_full_name_tex();
    lemma_full_name_tb();
    lemma_full_name_tor();
    lemma_full_name_was();
}

} // verus!
