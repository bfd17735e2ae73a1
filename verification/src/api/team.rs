//! Teams and the players of a team.

use crate::ids::{fresh_ulid, prefixed_ulid, ulid_text};
use crate::item::Item;
use crate::models::{Player, PlayerView, Team, TeamBody, TeamBodyView, TeamView};
use crate::records::{
    player_check, player_from_item, player_of, team_check, team_check_defaulted, team_from_item, team_of,
};
use crate::utils::{AppErrorType, AppErrorView, AppResponse};
use vstd::prelude::*;

verus! {

/// The key of the team with the given id, as teams are created.
pub open spec fn team_key(id: Seq<char>) -> Seq<char> {
    "T#"@ + id
}

/// The team created from `body` under `key`, which is both its `PK` and
/// its `SK`.
pub open spec fn team_from_body(body: TeamBodyView, key: Seq<char>) -> TeamView {
    TeamView { PK: key, SK: key, name: body.name, code: body.code }
}

/// The teams read from `items`, in order.
pub open spec fn teams_of(items: Seq<Item>) -> Seq<TeamView> {
    items.map_values(|i: Item| team_of(i@))
}

/// The players read from `items`, in order.
pub open spec fn players_of(items: Seq<Item>) -> Seq<PlayerView> {
    items.map_values(|i: Item| crate::records::player_of(i@))
}

/// The teams held by `items`, each of which must hold a whole team.
pub fn teams_from_items(items: &Vec<Item>) -> (r: Vec<Team>)
    requires
        forall|i: int| 0 <= i < items@.len() ==> team_check(#[trigger] items@[i]@) is Ok,
    ensures
        r.deep_view() == teams_of(items@),
{
    let mut r: Vec<Team> = Vec::new();
    let mut i: usize = 0;
    while i < items.len()
        invariant
            i <= items@.len(),
            r@.len() == i,
            forall|j: int| 0 <= j < items@.len() ==> team_check(#[trigger] items@[j]@) is Ok,
            forall|j: int| 0 <= j < i ==> #[trigger] r@[j]@ == team_of(items@[j]@),
        decreases items@.len() - i,
    {
        assert(team_check(items@[i as int]@) is Ok);
        r.push(team_from_item(&items[i]));
        i = i + 1;
    }
    assert(r.deep_view() =~= teams_of(items@));
    r
}

/// The players held by `items`, each of which must hold a whole player.
pub fn players_from_items(items: &Vec<Item>) -> (r: Vec<Player>)
    requires
        forall|i: int| 0 <= i < items@.len() ==> player_check(#[trigger] items@[i]@) is Ok,
    ensures
        r.deep_view() == players_of(items@),
{
    let mut r: Vec<Player> = Vec::new();
    let mut i: usize = 0;
    while i < items.len()
        invariant
            i <= items@.len(),
            r@.len() == i,
            forall|j: int| 0 <= j < items@.len() ==> player_check(#[trigger] items@[j]@) is Ok,
            forall|j: int| 0 <= j < i ==> #[trigger] r@[j]@ == player_of(items@[j]@),
        decreases items@.len() - i,
    {
        assert(player_check(items@[i as int]@) is Ok);
        r.push(player_from_item(&items[i]));
        i = i + 1;
    }
    assert(r.deep_view() =~= players_of(items@));
    r
}

/// What `list` answers for the items of a scan of the table: every team.
pub fn list_answer(fetched: Result<Vec<Item>, String>) -> (r: Result<AppResponse<Vec<Team>>, AppErrorType>)
    requires
        fetched matches Ok(items) ==> forall|i: int|
            0 <= i < items@.len() ==> team_check(#[trigger] items@[i]@) is Ok,
    ensures
        match fetched {
            Ok(items) => r matches Ok(resp) && resp.data.deep_view() == teams_of(items@)
                && resp.message@ == Seq::<char>::empty() && resp.status == 200 && resp.success,
            Err(text) => r matches Err(e) && e@ == AppErrorView::NotFoundError(text@),
        },
{
    match fetched {
        Ok(items) => Ok(AppResponse::new(teams_from_items(&items), None, 200, true)),
        Err(text) => Err(AppErrorType::from_db_failure(text)),
    }
}

/// What `retrieve` answers for what `get_team` gave back: the team, with
/// absent fields empty, or a not-found error when there was none.
pub fn retrieve_answer(fetched: Result<Option<Item>, String>) -> (r: Result<AppResponse<Team>, AppErrorType>)
    requires
        fetched matches Ok(Some(item)) ==> team_check_defaulted(item@) is Ok,
    ensures
        match fetched {
            Ok(Some(item)) => r matches Ok(resp) && resp.data@ == team_of(item@)
                && resp.message@ == Seq::<char>::empty() && resp.status == 200 && resp.success,
            Ok(None) => r matches Err(e)
                && e@ == AppErrorView::NotFoundError("Couldn't find an item of give id"@),
            Err(text) => r matches Err(e) && e@ == AppErrorView::NotFoundError(text@),
        },
{
    match fetched {
        Ok(Some(item)) => Ok(AppResponse::new(team_from_item(&item), None, 200, true)),
        Ok(None) => Err(AppErrorType::NotFoundError(String::from_str("Couldn't find an item of give id"))),
        Err(text) => Err(AppErrorType::from_db_failure(text)),
    }
}

/// The team that `create` makes from `body` with the ULID `value`.
pub fn new_team(body: &TeamBody, value: u128) -> (r: Team)
    ensures
        r@ == team_from_body(body@, team_key(ulid_text(value))),
{
    let pk_and_sk = prefixed_ulid("T#", value);
    Team { PK: pk_and_sk.clone(), SK: pk_and_sk, name: body.name.clone(), code: body.code.clone() }
}

/// The team that `create` makes from `body`, under a fresh ULID.
pub fn create_team(body: &TeamBody) -> (r: Team)
    ensures
        exists|value: u128| r@ == team_from_body(body@, team_key(ulid_text(value))),
{
    let value = fresh_ulid();
    new_team(body, value)
}

/// What `create` answers once it has tried to store `team`.
pub fn create_answer(team: Team, stored: Result<(), String>) -> (r: Result<AppResponse<Team>, AppErrorType>)
    ensures
        match stored {
            Ok(()) => r matches Ok(resp) && resp.data@ == team@ && resp.message@ == "Team successfully created"@
                && resp.status == 201 && resp.success,
            Err(text) => r matches Err(e) && e@ == AppErrorView::NotFoundError(text@),
        },
{
    match stored {
        Ok(()) => Ok(AppResponse::new(team, Some(String::from_str("Team successfully created")), 201, true)),
        Err(text) => Err(AppErrorType::from_db_failure(text)),
    }
}

/// The answer of `update`.
pub fn update(team_id: &str) -> (r: String)
    ensures
        r@ == "Update team "@ + team_id@,
{
    String::from_str("Update team ").concat(team_id)
}

/// The answer of `delete`.
pub fn delete(team_id: &str) -> (r: String)
    ensures
        r@ == "Delte team "@ + team_id@,
{
    String::from_str("Delte team ").concat(team_id)
}

/// The team key that `get_team_players` asks the table for.
pub fn team_players_key(team_id: &str) -> (r: String)
    ensures
        r@ == team_key(team_id@),
{
    String::from_str("T#").concat(team_id)
}

/// What `get_team_players` answers for the items its query gave back.
pub fn get_team_players_answer(fetched: Result<Vec<Item>, String>) -> (r: Result<AppResponse<Vec<Player>>, AppErrorType>)
    requires
        fetched matches Ok(items) ==> forall|i: int|
            0 <= i < items@.len() ==> player_check(#[trigger] items@[i]@) is Ok,
    ensures
        match fetched {
            Ok(items) => r matches Ok(resp) && resp.data.deep_view() == players_of(items@)
                && resp.message@ == "Test message"@ && resp.status == 200 && resp.success,
            Err(text) => r matches Err(e) && e@ == AppErrorView::NotFoundError(text@),
        },
{
    match fetched {
        Ok(items) => Ok(AppResponse::new(players_from_items(&items), Some(String::from_str("Test message")), 200, true)),
        Err(text) => Err(AppErrorType::from_db_failure(text)),
    }
}

} // verus!
