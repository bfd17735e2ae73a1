#![allow(non_snake_case)]

//! Reading stored records back out of table items.
//!
//! Each record is read field by field, in a fixed order. A field that is
//! present but of the wrong kind is an invalid key; a field that is absent
//! is either missing (where the record needs it) or read as the empty
//! string (where a default is allowed). The checks say which failure comes
//! first; the readers take items on which the check passes.

use crate::item::{AttrView, Item};
use crate::models::{Game, GameView, Player, PlayerView, Score, ScoreView, Team, TeamView};
use crate::utils::{item_to_value, item_to_vector, str_field, strs_field};
use vstd::prelude::*;

verus! {

/// Why a field of an item cannot be read.
#[derive(PartialEq, Eq, Structural, Clone, Copy, Debug)]
pub enum FieldError {
    /// The attribute is there but is not of the kind the field needs.
    InvalidKey,
    /// The attribute is not there and the field has no default.
    Missing,
}

/// A string field that must be present.
pub open spec fn required_str(m: Map<Seq<char>, AttrView>, key: Seq<char>) -> Result<(), FieldError> {
    match str_field(m, key) {
        Err(()) => Err(FieldError::InvalidKey),
        Ok(None) => Err(FieldError::Missing),
        Ok(Some(_)) => Ok(()),
    }
}

/// A string-set field that must be present.
pub open spec fn required_strs(m: Map<Seq<char>, AttrView>, key: Seq<char>) -> Result<(), FieldError> {
    match strs_field(m, key) {
        Err(()) => Err(FieldError::InvalidKey),
        Ok(None) => Err(FieldError::Missing),
        Ok(Some(_)) => Ok(()),
    }
}

/// A string field that defaults to the empty string when absent.
pub open spec fn defaulted_str(m: Map<Seq<char>, AttrView>, key: Seq<char>) -> Result<(), FieldError> {
    match str_field(m, key) {
        Err(()) => Err(FieldError::InvalidKey),
        Ok(_) => Ok(()),
    }
}

/// The first failure of two checks made one after the other.
pub open spec fn first_failure(a: Result<(), FieldError>, b: Result<(), FieldError>) -> Result<(), FieldError> {
    if a is Err {
        a
    } else {
        b
    }
}

/// The string in field `key`, or the empty string.
pub open spec fn str_or_empty(m: Map<Seq<char>, AttrView>, key: Seq<char>) -> Seq<char> {
    match str_field(m, key) {
        Ok(Some(s)) => s,
        _ => Seq::empty(),
    }
}

/// The strings in field `key`, or none.
pub open spec fn strs_or_empty(m: Map<Seq<char>, AttrView>, key: Seq<char>) -> Seq<Seq<char>> {
    match strs_field(m, key) {
        Ok(Some(v)) => v,
        _ => Seq::empty(),
    }
}

/// The team an item holds.
pub open spec fn team_of(m: Map<Seq<char>, AttrView>) -> TeamView {
    TeamView {
        PK: str_or_empty(m, "PK"@),
        SK: str_or_empty(m, "SK"@),
        name: str_or_empty(m, "name"@),
        code: str_or_empty(m, "code"@),
    }
}

/// Reading a team whose every field must be present.
pub open spec fn team_check(m: Map<Seq<char>, AttrView>) -> Result<(), FieldError> {
    first_failure(required_str(m, "PK"@), first_failure(required_str(m, "SK"@),
        first_failure(required_str(m, "name"@), required_str(m, "code"@))))
}

/// Reading a team whose absent fields are empty.
pub open spec fn team_check_defaulted(m: Map<Seq<char>, AttrView>) -> Result<(), FieldError> {
    first_failure(defaulted_str(m, "PK"@), first_failure(defaulted_str(m, "SK"@),
        first_failure(defaulted_str(m, "name"@), defaulted_str(m, "code"@))))
}

/// The player an item holds.
pub open spec fn player_of(m: Map<Seq<char>, AttrView>) -> PlayerView {
    PlayerView {
        PK: str_or_empty(m, "PK"@),
        SK: str_or_empty(m, "SK"@),
        fname: str_or_empty(m, "fname"@),
        lname: str_or_empty(m, "lname"@),
        photo: str_or_empty(m, "photo"@),
    }
}

/// Reading a player whose every field must be present.
pub open spec fn player_check(m: Map<Seq<char>, AttrView>) -> Result<(), FieldError> {
    first_failure(required_str(m, "PK"@), first_failure(required_str(m, "SK"@),
        first_failure(required_str(m, "fname"@), first_failure(required_str(m, "lname"@),
        required_str(m, "photo"@)))))
}

/// Reading a player whose absent fields are empty.
pub open spec fn player_check_defaulted(m: Map<Seq<char>, AttrView>) -> Result<(), FieldError> {
    first_failure(defaulted_str(m, "PK"@), first_failure(defaulted_str(m, "SK"@),
        first_failure(defaulted_str(m, "fname"@), first_failure(defaulted_str(m, "lname"@),
        defaulted_str(m, "photo"@)))))
}

/// The match an item holds.
pub open spec fn game_of(m: Map<Seq<char>, AttrView>) -> GameView {
    GameView {
        PK: str_or_empty(m, "PK"@),
        SK: str_or_empty(m, "SK"@),
        title: str_or_empty(m, "title"@),
        teams: strs_or_empty(m, "teams"@),
        venue: str_or_empty(m, "venue"@),
        date: str_or_empty(m, "date"@),
        time: str_or_empty(m, "time"@),
    }
}

/// Reading a match, field by field in the order `PK`, `SK`, `teams`,
/// `venue`, `title`, `date`, `time`; every field must be present.
pub open spec fn game_check(m: Map<Seq<char>, AttrView>) -> Result<(), FieldError> {
    first_failure(required_str(m, "PK"@), first_failure(required_str(m, "SK"@),
        first_failure(required_strs(m, "teams"@), first_failure(required_str(m, "venue"@),
        first_failure(required_str(m, "title"@), first_failure(required_str(m, "date"@),
        required_str(m, "time"@)))))))
}

/// The score an item holds.
pub open spec fn score_of(m: Map<Seq<char>, AttrView>) -> ScoreView {
    ScoreView {
        PK: str_or_empty(m, "PK"@),
        SK: str_or_empty(m, "SK"@),
        player: str_or_empty(m, "player"@),
        team: str_or_empty(m, "team"@),
    }
}

/// Reading a score, in the order `PK`, `SK`, `team`, `player`; every field
/// must be present.
pub open spec fn score_check(m: Map<Seq<char>, AttrView>) -> Result<(), FieldError> {
    first_failure(required_str(m, "PK"@), first_failure(required_str(m, "SK"@),
        first_failure(required_str(m, "team"@), required_str(m, "player"@))))
}

fn check_required_str(key: &str, item: &Item) -> (r: Result<(), FieldError>)
    ensures
        r == required_str(item@, key@),
{
    match item_to_value(key, item) {
        Err(()) => Err(FieldError::InvalidKey),
        Ok(None) => Err(FieldError::Missing),
        Ok(Some(_)) => Ok(()),
    }
}

fn check_required_strs(key: &str, item: &Item) -> (r: Result<(), FieldError>)
    ensures
        r == required_strs(item@, key@),
{
    match item_to_vector(key, item) {
        Err(()) => Err(FieldError::InvalidKey),
        Ok(None) => Err(FieldError::Missing),
        Ok(Some(_)) => Ok(()),
    }
}

fn check_defaulted_str(key: &str, item: &Item) -> (r: Result<(), FieldError>)
    ensures
        r == defaulted_str(item@, key@),
{
    match item_to_value(key, item) {
        Err(()) => Err(FieldError::InvalidKey),
        Ok(_) => Ok(()),
    }
}

/// The string in field `key`; absent fields read as the empty string.
fn read_str(key: &str, item: &Item) -> (r: String)
    requires
        defaulted_str(item@, key@) is Ok,
    ensures
        r@ == str_or_empty(item@, key@),
{
    match item_to_value(key, item) {
        Ok(Some(s)) => s,
        _ => String::new(),
    }
}

/// The strings in the string-set field `key`, which must be present.
fn read_strs(key: &str, item: &Item) -> (r: Vec<String>)
    requires
        required_strs(item@, key@) is Ok,
    ensures
        r.deep_view() == strs_or_empty(item@, key@),
{
    match item_to_vector(key, item) {
        Ok(Some(v)) => v,
        _ => {
            assert(false);
            Vec::new()
        },
    }
}

/// Whether `item` can be read as a team with every field present, and if
/// not, the first field's failure.
pub fn check_team(item: &Item) -> (r: Result<(), FieldError>)
    ensures
        r == team_check(item@),
{
    check_required_str("PK", item)?;
    check_required_str("SK", item)?;
    check_required_str("name", item)?;
    check_required_str("code", item)
}

/// Whether `item` can be read as a team whose absent fields are empty.
pub fn check_team_defaulted(item: &Item) -> (r: Result<(), FieldError>)
    ensures
        r == team_check_defaulted(item@),
{
    check_defaulted_str("PK", item)?;
    check_defaulted_str("SK", item)?;
    check_defaulted_str("name", item)?;
    check_defaulted_str("code", item)
}

/// The team that `item` holds, on items that a team check of either kind
/// accepts.
pub fn team_from_item(item: &Item) -> (r: Team)
    requires
        team_check_defaulted(item@) is Ok,
    ensures
        r@ == team_of(item@),
{
    Team {
        PK: read_str("PK", item),
        SK: read_str("SK", item),
        name: read_str("name", item),
        code: read_str("code", item),
    }
}

/// Whether `item` can be read as a player with every field present.
pub fn check_player(item: &Item) -> (r: Result<(), FieldError>)
    ensures
        r == player_check(item@),
{
    check_required_str("PK", item)?;
    check_required_str("SK", item)?;
    check_required_str("fname", item)?;
    check_required_str("lname", item)?;
    check_required_str("photo", item)
}

/// Whether `item` can be read as a player whose absent fields are empty.
pub fn check_player_defaulted(item: &Item) -> (r: Result<(), FieldError>)
    ensures
        r == player_check_defaulted(item@),
{
    check_defaulted_str("PK", item)?;
    check_defaulted_str("SK", item)?;
    check_defaulted_str("fname", item)?;
    check_defaulted_str("lname", item)?;
    check_defaulted_str("photo", item)
}

/// The player that `item` holds.
pub fn player_from_item(item: &Item) -> (r: Player)
    requires
        player_check_defaulted(item@) is Ok,
    ensures
        r@ == player_of(item@),
{
    Player {
        PK: read_str("PK", item),
        SK: read_str("SK", item),
        fname: read_str("fname", item),
        lname: read_str("lname", item),
        photo: read_str("photo", item),
    }
}

/// Whether `item` can be read as a match.
pub fn check_game(item: &Item) -> (r: Result<(), FieldError>)
    ensures
        r == game_check(item@),
{
    check_required_str("PK", item)?;
    check_required_str("SK", item)?;
    check_required_strs("teams", item)?;
    check_required_str("venue", item)?;
    check_required_str("title", item)?;
    check_required_str("date", item)?;
    check_required_str("time", item)
}

/// The match that `item` holds.
pub fn game_from_item(item: &Item) -> (r: Game)
    requires
        game_check(item@) is Ok,
    ensures
        r@ == game_of(item@),
{
    let PK = read_str("PK", item);
    let SK = read_str("SK", item);
    let teams = read_strs("teams", item);
    let venue = read_str("venue", item);
    let title = read_str("title", item);
    let date = read_str("date", item);
    let time = read_str("time", item);
    Game { PK, SK, title, teams, venue, date, time }
}

/// Whether `item` can be read as a score.
pub fn check_score(item: &Item) -> (r: Result<(), FieldError>)
    ensures
        r == score_check(item@),
{
    check_required_str("PK", item)?;
    check_required_str("SK", item)?;
    check_required_str("team", item)?;
    check_required_str("player", item)
}

/// The score that `item` holds.
pub fn score_from_item(item: &Item) -> (r: Score)
    requires
        score_check(item@) is Ok,
    ensures
        r@ == score_of(item@),
{
    let PK = read_str("PK", item);
    let SK = read_str("SK", item);
    let team = read_str("team", item);
    let player = read_str("player", item);
    Score { PK, SK, player, team }
}

} // verus!
