use team_players::ddb::{game_item, player_item, score_item, team_item};
use team_players::item::{AttrValue, Item};
use team_players::models::{Game, Player, Score, Team};
use team_players::records::{
    check_game, check_player, check_player_defaulted, check_score, check_team, check_team_defaulted, game_from_item,
    player_from_item, score_from_item, team_from_item, FieldError,
};

fn s(x: &str) -> String {
    x.to_string()
}

fn sample_team() -> Team {
    Team { PK: s("T#01"), SK: s("T#01"), name: s("Lions"), code: s("LIO") }
}

#[test]
fn team_reads_back_as_written() {
    let team = sample_team();
    let item = team_item(&team);
    assert_eq!(check_team(&item), Ok(()));
    assert_eq!(check_team_defaulted(&item), Ok(()));
    let back = team_from_item(&item);
    assert_eq!(back.PK, "T#01");
    assert_eq!(back.SK, "T#01");
    assert_eq!(back.name, "Lions");
    assert_eq!(back.code, "LIO");
}

#[test]
fn player_reads_back_as_written() {
    let player = Player { PK: s("T#01"), SK: s("P#02"), fname: s("Ann"), lname: s("Lee"), photo: s("a.png") };
    let item = player_item(&player);
    assert_eq!(check_player(&item), Ok(()));
    assert_eq!(check_player_defaulted(&item), Ok(()));
    let back = player_from_item(&item);
    assert_eq!(back.PK, "T#01");
    assert_eq!(back.SK, "P#02");
    assert_eq!(back.fname, "Ann");
    assert_eq!(back.lname, "Lee");
    assert_eq!(back.photo, "a.png");
}

#[test]
fn game_reads_back_as_written() {
    let game = Game {
        PK: s("G#1"),
        SK: s("G#1"),
        title: s("Final"),
        teams: vec![s("T#a"), s("T#b")],
        venue: s("Arena"),
        date: s("2024-01-01"),
        time: s("18:00"),
    };
    let item = game_item(&game);
    assert_eq!(check_game(&item), Ok(()));
    let back = game_from_item(&item);
    assert_eq!(back.PK, "G#1");
    assert_eq!(back.SK, "G#1");
    assert_eq!(back.title, "Final");
    assert_eq!(back.teams, vec![s("T#a"), s("T#b")]);
    assert_eq!(back.venue, "Arena");
    assert_eq!(back.date, "2024-01-01");
    assert_eq!(back.time, "18:00");
}

#[test]
fn score_reads_back_as_written() {
    let score = Score { PK: s("G#1"), SK: s("12:30"), player: s("P#2"), team: s("T#a") };
    let item = score_item(&score);
    assert_eq!(check_score(&item), Ok(()));
    let back = score_from_item(&item);
    assert_eq!(back.PK, "G#1");
    assert_eq!(back.SK, "12:30");
    assert_eq!(back.player, "P#2");
    assert_eq!(back.team, "T#a");
}

#[test]
fn missing_field_is_missing() {
    let mut item = team_item(&sample_team());
    let mut partial = Item::new();
    partial.insert(s("PK"), AttrValue::S(s("T#01")));
    partial.insert(s("SK"), AttrValue::S(s("T#01")));
    partial.insert(s("name"), AttrValue::S(s("Lions")));
    assert_eq!(check_team(&partial), Err(FieldError::Missing));
    item.insert(s("code"), AttrValue::Other);
    assert_eq!(check_team(&item), Err(FieldError::InvalidKey));
}

#[test]
fn first_failing_field_decides() {
    let mut item = Item::new();
    item.insert(s("SK"), AttrValue::Ss(vec![]));
    // PK is checked before SK: missing comes first.
    assert_eq!(check_team(&item), Err(FieldError::Missing));
    // Where absent fields default, the wrong kind of SK is what fails.
    assert_eq!(check_team_defaulted(&item), Err(FieldError::InvalidKey));
}

#[test]
fn defaulted_team_reads_absent_fields_as_empty() {
    let mut item = Item::new();
    item.insert(s("name"), AttrValue::S(s("Lions")));
    assert_eq!(check_team_defaulted(&item), Ok(()));
    let team = team_from_item(&item);
    assert_eq!(team.PK, "");
    assert_eq!(team.SK, "");
    assert_eq!(team.name, "Lions");
    assert_eq!(team.code, "");
}

#[test]
fn game_teams_must_be_a_string_set() {
    let mut item = Item::new();
    for k in ["PK", "SK", "venue", "title", "date", "time"] {
        item.insert(s(k), AttrValue::S(s("x")));
    }
    assert_eq!(check_game(&item), Err(FieldError::Missing));
    item.insert(s("teams"), AttrValue::S(s("T#a")));
    assert_eq!(check_game(&item), Err(FieldError::InvalidKey));
    item.insert(s("teams"), AttrValue::Ss(vec![s("T#a")]));
    assert_eq!(check_game(&item), Ok(()));
}
