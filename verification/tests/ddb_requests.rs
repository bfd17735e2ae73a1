use team_players::ddb::{first_item, match_query, only_item, team_player_query, team_query};
use team_players::item::{AttrValue, Item};

fn s(x: &str) -> String {
    x.to_string()
}

fn value_of(item: &Item, key: &str) -> String {
    match item.get(key) {
        Some(AttrValue::S(v)) => v.clone(),
        _ => panic!("expected a string value for {}", key),
    }
}

#[test]
fn team_query_uses_team_prefix() {
    let q = team_query("42");
    assert_eq!(q.key_condition, "PK = :teamid");
    assert_eq!(value_of(&q.values, ":teamid"), "team#42");
    assert_eq!(q.values.into_pairs().len(), 1);
}

#[test]
fn team_player_query_asks_for_players() {
    let q = team_player_query("T#42");
    assert_eq!(q.key_condition, "PK = :team_id and begins_with(SK, :player_id)");
    assert_eq!(value_of(&q.values, ":team_id"), "T#42");
    assert_eq!(value_of(&q.values, ":player_id"), "P");
    assert_eq!(q.values.into_pairs().len(), 2);
}

#[test]
fn match_query_matches_pk_and_sk() {
    let q = match_query(s("G#7"));
    assert_eq!(q.key_condition, "PK = :game_id and SK=:game_id");
    assert_eq!(value_of(&q.values, ":game_id"), "G#7");
}

#[test]
fn first_item_of_query() {
    assert!(first_item(vec![]).is_none());
    let mut a = Item::new();
    a.insert(s("PK"), AttrValue::S(s("a")));
    let mut b = Item::new();
    b.insert(s("PK"), AttrValue::S(s("b")));
    let first = first_item(vec![a, b]).unwrap();
    assert_eq!(value_of(&first, "PK"), "a");
}

#[test]
fn only_item_of_query() {
    let mut a = Item::new();
    a.insert(s("PK"), AttrValue::S(s("a")));
    assert_eq!(value_of(&only_item(vec![a]), "PK"), "a");
}
