//! Players and their score history.

use crate::ids::{fresh_ulid, prefixed_ulid, ulid_text};
use crate::item::Item;
use crate::models::{Player, PlayerBody, PlayerBodyView, PlayerView, Score, ScoreView};
use crate::records::{player_check_defaulted, player_from_item, player_of, score_check, score_from_item, score_of};
use crate::status::{accepted_code, created_code};
use crate::utils::{AppErrorType, AppErrorView, AppResponse};
use vstd::prelude::*;

verus! {

/// The key of the player with the given id.
pub open spec fn player_key(id: Seq<char>) -> Seq<char> {
    "P#"@ + id
}

/// The player created from `body` under `key`: its `PK` is the team it
/// was given, its `SK` the key.
pub open spec fn player_from_body(body: PlayerBodyView, key: Seq<char>) -> PlayerView {
    PlayerView { PK: body.team, SK: key, fname: body.fname, lname: body.lname, photo: body.photo }
}

/// The scores read from `items`, in order.
pub open spec fn scores_of(items: Seq<Item>) -> Seq<ScoreView> {
    items.map_values(|i: Item| score_of(i@))
}

/// The player that `create` makes from `body` with the ULID `value`.
pub fn new_player(body: &PlayerBody, value: u128) -> (r: Player)
    ensures
        r@ == player_from_body(body@, player_key(ulid_text(value))),
{
    Player {
        PK: body.team.clone(),
        SK: prefixed_ulid("P#", value),
        fname: body.fname.clone(),
        lname: body.lname.clone(),
        photo: body.photo.clone(),
    }
}

/// The player that `create` makes from `body`, under a fresh ULID.
pub fn create_player(body: &PlayerBody) -> (r: Player)
    ensures
        exists|value: u128| r@ == player_from_body(body@, player_key(ulid_text(value))),
{
    let value = fresh_ulid();
    new_player(body, value)
}

/// What `create` answers once it has tried to store `player`.
pub fn create_answer(player: Player, stored: Result<(), String>) -> (r: Result<AppResponse<Player>, AppErrorType>)
    ensures
        match stored {
            Ok(()) => r matches Ok(resp) && resp.data@ == player@ && resp.message@ == "Playe created successfully!"@
                && resp.status == 201 && resp.success,
            Err(text) => r matches Err(e) && e@ == AppErrorView::NotFoundError(text@),
        },
{
    match stored {
        Ok(()) => {
            let code = created_code();
            Ok(AppResponse::new(player, Some(String::from_str("Playe created successfully!")), code as i32, true))
        },
        Err(text) => Err(AppErrorType::from_db_failure(text)),
    }
}

/// The key that `retrieve` and `retrieve_player_history` ask the table for.
pub fn player_lookup_key(player_id: &str) -> (r: String)
    ensures
        r@ == player_key(player_id@),
{
    String::from_str("P#").concat(player_id)
}

/// What `retrieve` answers for what the lookup of a player gave back: the
/// player, with absent fields empty. The lookup must have found one.
pub fn retrieve_answer(fetched: Result<Option<Item>, String>) -> (r: Result<AppResponse<Player>, AppErrorType>)
    requires
        fetched matches Ok(found) ==> (found matches Some(item) && player_check_defaulted(item@) is Ok),
    ensures
        match fetched {
            Ok(found) => r matches Ok(resp) && resp.data@ == player_of(found->Some_0@)
                && resp.message@ == "Successfull"@ && resp.status == 202 && resp.success,
            Err(text) => r matches Err(e) && e@ == AppErrorView::NotFoundError(text@),
        },
{
    match fetched {
        Ok(Some(item)) => {
            let data = player_from_item(&item);
            let code = accepted_code();
            Ok(AppResponse::new(data, Some(String::from_str("Successfull")), code as i32, true))
        },
        Ok(None) => {
            assert(false);
            Err(AppErrorType::NotFoundError(String::new()))
        },
        Err(text) => Err(AppErrorType::from_db_failure(text)),
    }
}

/// The scores held by `items`, each of which must hold a whole score.
pub fn scores_from_items(items: &Vec<Item>) -> (r: Vec<Score>)
    requires
        forall|i: int| 0 <= i < items@.len() ==> score_check(#[trigger] items@[i]@) is Ok,
    ensures
        r.deep_view() == scores_of(items@),
{
    let mut r: Vec<Score> = Vec::new();
    let mut i: usize = 0;
    while i < items.len()
        invariant
            i <= items@.len(),
            r@.len() == i,
            forall|j: int| 0 <= j < items@.len() ==> score_check(#[trigger] items@[j]@) is Ok,
            forall|j: int| 0 <= j < i ==> #[trigger] r@[j]@ == score_of(items@[j]@),
        decreases items@.len() - i,
    {
        assert(score_check(items@[i as int]@) is Ok);
        r.push(score_from_item(&items[i]));
        i = i + 1;
    }
    assert(r.deep_view() =~= scores_of(items@));
    r
}

/// What `retrieve_player_history` answers for the items of the player's
/// history: every score, in order.
pub fn retrieve_player_history_answer(fetched: Result<Vec<Item>, String>) -> (r: Result<AppResponse<Vec<Score>>, AppErrorType>)
    requires
        fetched matches Ok(items) ==> forall|i: int|
            0 <= i < items@.len() ==> score_check(#[trigger] items@[i]@) is Ok,
    ensures
        match fetched {
            Ok(items) => r matches Ok(resp) && resp.data.deep_view() == scores_of(items@)
                && resp.message@ == Seq::<char>::empty() && resp.status == 200 && resp.success,
            Err(text) => r matches Err(e) && e@ == AppErrorView::NotFoundError(text@),
        },
{
    match fetched {
        Ok(items) => Ok(AppResponse::new(scores_from_items(&items), None, 200, true)),
        Err(text) => Err(AppErrorType::from_db_failure(text)),
    }
}

} // verus!
