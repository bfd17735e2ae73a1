use team_players::api::{game, player, team};
use team_players::ddb::{game_item, player_item, score_item, team_item};
use team_players::ids::prefixed_ulid;
use team_players::item::{AttrValue, Item};
use team_players::models::{GameBody, PlayerBody, Score, Team, TeamBody};
use team_players::utils::AppErrorType;

fn s(x: &str) -> String {
    x.to_string()
}

const ALPHABET: &str = "0123456789ABCDEFGHJKMNPQRSTVWXYZ";

fn is_ulid_text(t: &str) -> bool {
    t.len() == 26 && t.chars().all(|c| ALPHABET.contains(c))
}

fn not_found_text(e: AppErrorType) -> String {
    match e {
        AppErrorType::NotFoundError(t) => t,
        AppErrorType::DbError(_) => panic!("expected a not-found error"),
    }
}

fn game_body() -> GameBody {
    GameBody {
        title: s("Final"),
        teams: vec![s("T#a"), s("T#b")],
        venue: s("Arena"),
        date: s("2024-05-01"),
        time: s("18:00"),
    }
}

#[test]
fn ulid_text_of_known_values() {
    let text = "01D39ZY06FGSCTVN4T2V9PKHFZ";
    let value = ulid::Ulid::from_string(text).unwrap().0;
    assert_eq!(prefixed_ulid("G#", value), format!("G#{}", text));
    assert_eq!(prefixed_ulid("", 0), "00000000000000000000000000");
    assert_eq!(prefixed_ulid("", u128::MAX), "7ZZZZZZZZZZZZZZZZZZZZZZZZZ");
    assert_eq!(prefixed_ulid("", 31), "0000000000000000000000000Z");
    assert_eq!(prefixed_ulid("", 32), "00000000000000000000000010");
}

#[test]
fn game_retrieve_key_and_answer() {
    assert_eq!(game::retrieve_key("abc"), "G#abc");
    let g = game::new_game(&game_body(), 0);
    let item = game_item(&g);
    let resp = game::retrieve_answer(Ok(item)).ok().unwrap();
    assert_eq!(resp.data.PK, "G#00000000000000000000000000");
    assert_eq!(resp.data.teams, vec![s("T#a"), s("T#b")]);
    assert_eq!(resp.message, "Team data");
    assert_eq!(resp.status, 202);
    assert!(resp.success);
    let err = game::retrieve_answer(Err(s("boom"))).err().unwrap();
    assert_eq!(not_found_text(err), "boom");
}

#[test]
fn new_game_uses_one_key_for_pk_and_sk() {
    let value = ulid::Ulid::from_string("01D39ZY06FGSCTVN4T2V9PKHFZ").unwrap().0;
    let g = game::new_game(&game_body(), value);
    assert_eq!(g.PK, "G#01D39ZY06FGSCTVN4T2V9PKHFZ");
    assert_eq!(g.SK, g.PK);
    assert_eq!(g.title, "Final");
    assert_eq!(g.venue, "Arena");
    assert_eq!(g.date, "2024-05-01");
    assert_eq!(g.time, "18:00");
    assert_eq!(g.teams, vec![s("T#a"), s("T#b")]);
}

#[test]
fn created_game_is_found_by_its_id() {
    let g = game::create_game(&game_body());
    assert!(g.PK.starts_with("G#"));
    assert!(is_ulid_text(&g.PK[2..]));
    assert_eq!(g.PK, g.SK);
    assert_eq!(game::retrieve_key(&g.PK[2..]), g.PK);
}

#[test]
fn game_create_answers() {
    let g = game::new_game(&game_body(), 1);
    let resp = game::create_answer(g, Ok(())).ok().unwrap();
    assert_eq!(resp.message, "Match added successfully!");
    assert_eq!(resp.status, 201);
    assert!(resp.success);
    assert_eq!(resp.data.PK, "G#00000000000000000000000001");
    let g = game::new_game(&game_body(), 1);
    let err = game::create_answer(g, Err(s("denied"))).err().unwrap();
    assert_eq!(not_found_text(err), "denied");
}

#[test]
fn score_post_answers() {
    let score = Score { PK: s("G#1"), SK: s("10:00"), player: s("P#1"), team: s("T#1") };
    let resp = game::post_team_score_answer(&score, Ok(())).ok().unwrap();
    assert_eq!(resp.data.PK, "G#1");
    assert_eq!(resp.data.SK, "10:00");
    assert_eq!(resp.data.player, "P#1");
    assert_eq!(resp.data.team, "T#1");
    assert_eq!(resp.message, "Score added successfully!");
    assert_eq!(resp.status, 201);
    assert!(resp.success);
    let err = game::post_team_score_answer(&score, Err(s("no table"))).err().unwrap();
    assert_eq!(not_found_text(err), "no table");
}

#[test]
fn team_list_answer() {
    let a = Team { PK: s("T#a"), SK: s("T#a"), name: s("A"), code: s("AA") };
    let b = Team { PK: s("T#b"), SK: s("T#b"), name: s("B"), code: s("BB") };
    let resp = team::list_answer(Ok(vec![team_item(&a), team_item(&b)])).ok().unwrap();
    assert_eq!(resp.data.len(), 2);
    assert_eq!(resp.data[0].name, "A");
    assert_eq!(resp.data[1].code, "BB");
    assert_eq!(resp.message, "");
    assert_eq!(resp.status, 200);
    assert!(resp.success);
    let empty = team::list_answer(Ok(vec![])).ok().unwrap();
    assert!(empty.data.is_empty());
    let err = team::list_answer(Err(s("scan failed"))).err().unwrap();
    assert_eq!(not_found_text(err), "scan failed");
}

#[test]
fn team_retrieve_answer() {
    let a = Team { PK: s("T#a"), SK: s("T#a"), name: s("A"), code: s("AA") };
    let resp = team::retrieve_answer(Ok(Some(team_item(&a)))).ok().unwrap();
    assert_eq!(resp.data.PK, "T#a");
    assert_eq!(resp.data.name, "A");
    assert_eq!(resp.status, 200);
    assert_eq!(resp.message, "");
    let err = team::retrieve_answer(Ok(None)).err().unwrap();
    assert_eq!(not_found_text(err), "Couldn't find an item of give id");
    let mut partial = Item::new();
    partial.insert(s("name"), AttrValue::S(s("only name")));
    let resp = team::retrieve_answer(Ok(Some(partial))).ok().unwrap();
    assert_eq!(resp.data.PK, "");
    assert_eq!(resp.data.name, "only name");
    let err = team::retrieve_answer(Err(s("query failed"))).err().unwrap();
    assert_eq!(not_found_text(err), "query failed");
}

#[test]
fn team_create() {
    let body = TeamBody { name: s("Lions"), code: s("LIO") };
    let t = team::new_team(&body, 0);
    assert_eq!(t.PK, "T#00000000000000000000000000");
    assert_eq!(t.SK, t.PK);
    assert_eq!(t.name, "Lions");
    assert_eq!(t.code, "LIO");
    let fresh = team::create_team(&body);
    assert!(fresh.PK.starts_with("T#"));
    assert!(is_ulid_text(&fresh.PK[2..]));
    assert_eq!(fresh.PK, fresh.SK);
    let resp = team::create_answer(t, Ok(())).ok().unwrap();
    assert_eq!(resp.message, "Team successfully created");
    assert_eq!(resp.status, 201);
    assert!(resp.success);
    let err = team::create_answer(fresh, Err(s("put failed"))).err().unwrap();
    assert_eq!(not_found_text(err), "put failed");
}

#[test]
fn created_team_is_not_found_by_the_team_lookup() {
    let body = TeamBody { name: s("Lions"), code: s("LIO") };
    let t = team::create_team(&body);
    let q = team_players::ddb::team_query(&t.PK[2..]);
    match q.values.get(":teamid") {
        Some(AttrValue::S(v)) => assert_ne!(v, &t.PK),
        _ => panic!("the query has a team id"),
    }
}

#[test]
fn team_update_and_delete_messages() {
    assert_eq!(team::update("7"), "Update team 7");
    assert_eq!(team::delete("7"), "Delte team 7");
}

#[test]
fn team_players_answer() {
    assert_eq!(team::team_players_key("9"), "T#9");
    let body = PlayerBody { team: s("T#9"), fname: s("Ann"), lname: s("Lee"), photo: s("p.png") };
    let p = player::new_player(&body, 5);
    let resp = team::get_team_players_answer(Ok(vec![player_item(&p)])).ok().unwrap();
    assert_eq!(resp.data.len(), 1);
    assert_eq!(resp.data[0].PK, "T#9");
    assert_eq!(resp.data[0].SK, "P#00000000000000000000000005");
    assert_eq!(resp.message, "Test message");
    assert_eq!(resp.status, 200);
    let err = team::get_team_players_answer(Err(s("oops"))).err().unwrap();
    assert_eq!(not_found_text(err), "oops");
}

#[test]
fn player_create() {
    let body = PlayerBody { team: s("T#9"), fname: s("Ann"), lname: s("Lee"), photo: s("p.png") };
    let p = player::new_player(&body, 0);
    assert_eq!(p.PK, "T#9");
    assert_eq!(p.SK, "P#00000000000000000000000000");
    assert_eq!(p.fname, "Ann");
    assert_eq!(p.lname, "Lee");
    assert_eq!(p.photo, "p.png");
    let fresh = player::create_player(&body);
    assert_eq!(fresh.PK, "T#9");
    assert!(fresh.SK.starts_with("P#"));
    assert!(is_ulid_text(&fresh.SK[2..]));
    let resp = player::create_answer(p, Ok(())).ok().unwrap();
    assert_eq!(resp.message, "Playe created successfully!");
    assert_eq!(resp.status, 201);
    assert!(resp.success);
    let err = player::create_answer(fresh, Err(s("x"))).err().unwrap();
    assert_eq!(not_found_text(err), "x");
}

#[test]
fn player_retrieve_answer() {
    assert_eq!(player::player_lookup_key("5"), "P#5");
    let mut item = Item::new();
    item.insert(s("fname"), AttrValue::S(s("Ann")));
    let resp = player::retrieve_answer(Ok(Some(item))).ok().unwrap();
    assert_eq!(resp.data.fname, "Ann");
    assert_eq!(resp.data.PK, "");
    assert_eq!(resp.data.photo, "");
    assert_eq!(resp.message, "Successfull");
    assert_eq!(resp.status, 202);
    assert!(resp.success);
    let err = player::retrieve_answer(Err(s("gone"))).err().unwrap();
    assert_eq!(not_found_text(err), "gone");
}

#[test]
fn player_history_answer() {
    let a = Score { PK: s("G#1"), SK: s("1"), player: s("P#5"), team: s("T#9") };
    let b = Score { PK: s("G#2"), SK: s("2"), player: s("P#5"), team: s("T#9") };
    let resp = player::retrieve_player_history_answer(Ok(vec![score_item(&a), score_item(&b)])).ok().unwrap();
    assert_eq!(resp.data.len(), 2);
    assert_eq!(resp.data[0].PK, "G#1");
    assert_eq!(resp.data[1].SK, "2");
    assert_eq!(resp.message, "");
    assert_eq!(resp.status, 200);
    assert!(resp.success);
    let err = player::retrieve_player_history_answer(Err(s("e"))).err().unwrap();
    assert_eq!(not_found_text(err), "e");
}

#[test]
fn different_ulid_values_give_different_keys() {
    let g1 = game::new_game(&game_body(), 1);
    let g2 = game::new_game(&game_body(), 2);
    assert_ne!(g1.PK, g2.PK);
    assert_eq!(g1.PK.len(), 28);
    let body = TeamBody { name: s("Lions"), code: s("LIO") };
    let v = 1u128 << 100;
    assert_ne!(team::new_team(&body, v).PK, team::new_team(&body, v + 1).PK);
    let pbody = PlayerBody { team: s("T#9"), fname: s("Ann"), lname: s("Lee"), photo: s("p.png") };
    assert_ne!(player::new_player(&pbody, 0).SK, player::new_player(&pbody, u128::MAX).SK);
}
