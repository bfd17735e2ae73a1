//! Matches and their scores.

use crate::ids::{fresh_ulid, prefixed_ulid, ulid_text};
use crate::item::Item;
use crate::models::{copy_strings, Game, GameBody, GameBodyView, GameView, Score};
use crate::records::{game_check, game_from_item, game_of};
use crate::status::{accepted_code, created_code};
use crate::utils::{AppErrorType, AppErrorView, AppResponse};
use vstd::prelude::*;

verus! {

/// The key of the match with the given id.
pub open spec fn game_key(id: Seq<char>) -> Seq<char> {
    "G#"@ + id
}

/// The match created from `body` under `key`, which is both its `PK` and
/// its `SK`.
pub open spec fn game_from_body(body: GameBodyView, key: Seq<char>) -> GameView {
    GameView {
        PK: key,
        SK: key,
        title: body.title,
        teams: body.teams,
        venue: body.venue,
        date: body.date,
        time: body.time,
    }
}

/// The key that `retrieve` asks the table for.
pub fn retrieve_key(game_id: &str) -> (r: String)
    ensures
        r@ == game_key(game_id@),
{
    String::from_str("G#").concat(game_id)
}

/// What `retrieve` answers for what the table gave back: the stored match,
/// or the failure of the database call as a not-found error.
pub fn retrieve_answer(fetched: Result<Item, String>) -> (r: Result<AppResponse<Game>, AppErrorType>)
    requires
        fetched matches Ok(item) ==> game_check(item@) is Ok,
    ensures
        match fetched {
            Ok(item) => r matches Ok(resp) && resp.data@ == game_of(item@) && resp.message@ == "Team data"@
                && resp.status == 202 && resp.success,
            Err(text) => r matches Err(e) && e@ == AppErrorView::NotFoundError(text@),
        },
{
    match fetched {
        Ok(item) => {
            let data = game_from_item(&item);
            let code = accepted_code();
            Ok(AppResponse::new(data, Some(String::from_str("Team data")), code as i32, true))
        },
        Err(text) => Err(AppErrorType::from_db_failure(text)),
    }
}

/// The match that `create` makes from `body` with the ULID `value`.
pub fn new_game(body: &GameBody, value: u128) -> (r: Game)
    ensures
        r@ == game_from_body(body@, game_key(ulid_text(value))),
{
    let pk_and_sk = prefixed_ulid("G#", value);
    Game {
        PK: pk_and_sk.clone(),
        SK: pk_and_sk,
        title: body.title.clone(),
        teams: copy_strings(&body.teams),
        venue: body.venue.clone(),
        date: body.date.clone(),
        time: body.time.clone(),
    }
}

/// The match that `create` makes from `body`, under a fresh ULID.
pub fn create_game(body: &GameBody) -> (r: Game)
    ensures
        exists|value: u128| r@ == game_from_body(body@, game_key(ulid_text(value))),
{
    let value = fresh_ulid();
    new_game(body, value)
}

/// What `create` answers once it has tried to store `game`.
pub fn create_answer(game: Game, stored: Result<(), String>) -> (r: Result<AppResponse<Game>, AppErrorType>)
    ensures
        match stored {
            Ok(()) => r matches Ok(resp) && resp.data@ == game@ && resp.message@ == "Match added successfully!"@
                && resp.status == 201 && resp.success,
            Err(text) => r matches Err(e) && e@ == AppErrorView::NotFoundError(text@),
        },
{
    match stored {
        Ok(()) => {
            let code = created_code();
            Ok(AppResponse::new(game, Some(String::from_str("Match added successfully!")), code as i32, true))
        },
        Err(text) => Err(AppErrorType::from_db_failure(text)),
    }
}

/// What `post_team_score` answers once it has tried to store `score`: the
/// score it was given.
pub fn post_team_score_answer(score: &Score, stored: Result<(), String>) -> (r: Result<AppResponse<Score>, AppErrorType>)
    ensures
        match stored {
            Ok(()) => r matches Ok(resp) && resp.data@ == score@ && resp.message@ == "Score added successfully!"@
                && resp.status == 201 && resp.success,
            Err(text) => r matches Err(e) && e@ == AppErrorView::NotFoundError(text@),
        },
{
    match stored {
        Ok(()) => {
            let data = Score {
                PK: score.PK.clone(),
                SK: score.SK.clone(),
                player: score.player.clone(),
                team: score.team.clone(),
            };
            let code = created_code();
            Ok(AppResponse::new(data, Some(String::from_str("Score added successfully!")), code as i32, true))
        },
        Err(text) => Err(AppErrorType::from_db_failure(text)),
    }
}

} // verus!
