//! What the service asks of the table: the items it writes for each kind
//! of record, the key queries it runs, and which of the returned items it
//! keeps.

use crate::item::{AttrValue, AttrView, Item};
use crate::models::{copy_strings, Game, GameView, Player, PlayerView, Score, ScoreView, Team, TeamView};
use vstd::prelude::*;

verus! {

/// A query on the table's key: the key condition expression and the
/// values of its placeholders.
pub struct KeyQuery {
    pub key_condition: String,
    pub values: Item,
}

/// The item written for a team.
pub open spec fn team_attrs(t: TeamView) -> Map<Seq<char>, AttrView> {
    Map::empty()
        .insert("PK"@, AttrView::S(t.PK))
        .insert("SK"@, AttrView::S(t.SK))
        .insert("name"@, AttrView::S(t.name))
        .insert("code"@, AttrView::S(t.code))
}

/// The item written for a player.
pub open spec fn player_attrs(p: PlayerView) -> Map<Seq<char>, AttrView> {
    Map::empty()
        .insert("PK"@, AttrView::S(p.PK))
        .insert("SK"@, AttrView::S(p.SK))
        .insert("fname"@, AttrView::S(p.fname))
        .insert("lname"@, AttrView::S(p.lname))
        .insert("photo"@, AttrView::S(p.photo))
}

/// The item written for a match; its teams are a string set.
pub open spec fn game_attrs(g: GameView) -> Map<Seq<char>, AttrView> {
    Map::empty()
        .insert("PK"@, AttrView::S(g.PK))
        .insert("SK"@, AttrView::S(g.SK))
        .insert("title"@, AttrView::S(g.title))
        .insert("teams"@, AttrView::Ss(g.teams))
        .insert("date"@, AttrView::S(g.date))
        .insert("time"@, AttrView::S(g.time))
        .insert("venue"@, AttrView::S(g.venue))
}

/// The item written for a score.
pub open spec fn score_attrs(s: ScoreView) -> Map<Seq<char>, AttrView> {
    Map::empty()
        .insert("PK"@, AttrView::S(s.PK))
        .insert("SK"@, AttrView::S(s.SK))
        .insert("player"@, AttrView::S(s.player))
        .insert("team"@, AttrView::S(s.team))
}

fn text(s: &str) -> (r: String)
    ensures
        r@ == s@,
{
    String::from_str(s)
}

/// The item that `put_team` writes.
pub fn team_item(team: &Team) -> (r: Item)
    ensures
        r@ == team_attrs(team@),
{
    let mut item = Item::new();
    item.insert(text("PK"), AttrValue::S(team.PK.clone()));
    item.insert(text("SK"), AttrValue::S(team.SK.clone()));
    item.insert(text("name"), AttrValue::S(team.name.clone()));
    item.insert(text("code"), AttrValue::S(team.code.clone()));
    item
}

/// The item that `put_player` writes.
pub fn player_item(player: &Player) -> (r: Item)
    ensures
        r@ == player_attrs(player@),
{
    let mut item = Item::new();
    item.insert(text("PK"), AttrValue::S(player.PK.clone()));
    item.insert(text("SK"), AttrValue::S(player.SK.clone()));
    item.insert(text("fname"), AttrValue::S(player.fname.clone()));
    item.insert(text("lname"), AttrValue::S(player.lname.clone()));
    item.insert(text("photo"), AttrValue::S(player.photo.clone()));
    item
}

/// The item that `put_match` writes.
pub fn game_item(game: &Game) -> (r: Item)
    ensures
        r@ == game_attrs(game@),
{
    let mut item = Item::new();
    item.insert(text("PK"), AttrValue::S(game.PK.clone()));
    item.insert(text("SK"), AttrValue::S(game.SK.clone()));
    item.insert(text("title"), AttrValue::S(game.title.clone()));
    item.insert(text("teams"), AttrValue::Ss(copy_strings(&game.teams)));
    item.insert(text("date"), AttrValue::S(game.date.clone()));
    item.insert(text("time"), AttrValue::S(game.time.clone()));
    item.insert(text("venue"), AttrValue::S(game.venue.clone()));
    item
}

/// The item that `put_score` writes.
pub fn score_item(score: &Score) -> (r: Item)
    ensures
        r@ == score_attrs(score@),
{
    let mut item = Item::new();
    item.insert(text("PK"), AttrValue::S(score.PK.clone()));
    item.insert(text("SK"), AttrValue::S(score.SK.clone()));
    item.insert(text("player"), AttrValue::S(score.player.clone()));
    item.insert(text("team"), AttrValue::S(score.team.clone()));
    item
}

/// The key under which `get_team` looks a team up: `team#` and the id.
pub open spec fn team_lookup_key(id: Seq<char>) -> Seq<char> {
    "team#"@ + id
}

/// The query of `get_team`: the items whose `PK` is `team#` and the id.
pub fn team_query(id: &str) -> (r: KeyQuery)
    ensures
        r.key_condition@ == "PK = :teamid"@,
        r.values@ == Map::<Seq<char>, AttrView>::empty().insert(":teamid"@, AttrView::S(team_lookup_key(id@))),
{
    let mut values = Item::new();
    let key = text("team#").concat(id);
    values.insert(text(":teamid"), AttrValue::S(key));
    KeyQuery { key_condition: text("PK = :teamid"), values }
}

/// The query of `get_team_player`: the items whose `PK` is the given team
/// key and whose `SK` begins with `P`.
pub fn team_player_query(team_id: &str) -> (r: KeyQuery)
    ensures
        r.key_condition@ == "PK = :team_id and begins_with(SK, :player_id)"@,
        r.values@ == Map::<Seq<char>, AttrView>::empty()
            .insert(":team_id"@, AttrView::S(team_id@))
            .insert(":player_id"@, AttrView::S("P"@)),
{
    let mut values = Item::new();
    values.insert(text(":team_id"), AttrValue::S(text(team_id)));
    values.insert(text(":player_id"), AttrValue::S(text("P")));
    KeyQuery { key_condition: text("PK = :team_id and begins_with(SK, :player_id)"), values }
}

/// The query of `get_match`: the items whose `PK` and `SK` are both the
/// given match key.
pub fn match_query(game_id: String) -> (r: KeyQuery)
    ensures
        r.key_condition@ == "PK = :game_id and SK=:game_id"@,
        r.values@ == Map::<Seq<char>, AttrView>::empty().insert(":game_id"@, AttrView::S(game_id@)),
{
    let mut values = Item::new();
    values.insert(text(":game_id"), AttrValue::S(game_id));
    KeyQuery { key_condition: text("PK = :game_id and SK=:game_id"), values }
}

/// What `get_team` keeps of the items its query returned: the first, if
/// there is one.
pub fn first_item(items: Vec<Item>) -> (r: Option<Item>)
    ensures
        items@.len() == 0 ==> r is None,
        items@.len() > 0 ==> r == Some(items@[0]),
{
    let mut items = items;
    if items.len() == 0 {
        None
    } else {
        Some(items.remove(0))
    }
}

/// What `get_match` keeps of the items its query returned: the first,
/// which must be there.
pub fn only_item(items: Vec<Item>) -> (r: Item)
    requires
        items@.len() > 0,
    ensures
        r == items@[0],
{
    let mut items = items;
    items.remove(0)
}

} // verus!
