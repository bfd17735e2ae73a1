//! What holds across the operations of the service.

use crate::api::game::{game_from_body, game_key};
use crate::api::player::{player_from_body, player_key, scores_of};
use crate::api::team::{players_of, team_from_body, team_key, teams_of};
use crate::ddb::{game_attrs, player_attrs, score_attrs, team_attrs};
use crate::ids::{crockford_digits, ulid_text};
use crate::item::{AttrView, Item};
use crate::models::{GameBodyView, GameView, PlayerBodyView, PlayerView, ScoreView, TeamBodyView, TeamView};
use crate::records::{
    game_check, game_of, player_check, player_check_defaulted, player_of, score_check, score_of, team_check,
    team_check_defaulted, team_of,
};
use vstd::arithmetic::div_mod::{lemma_breakdown, lemma_small_mod};
use vstd::arithmetic::power2::{lemma2_to64, lemma_pow2_adds, lemma_pow2_pos, lemma_pow2_strictly_increases, pow2};
use vstd::prelude::*;

verus! {

/// A team written by `put_team` reads back, with every field present, as
/// the same team.
pub proof fn lemma_team_read_back(t: TeamView)
    ensures
        team_check(team_attrs(t)) is Ok,
        team_check_defaulted(team_attrs(t)) is Ok,
        team_of(team_attrs(t)) == t,
{
    reveal_strlit("PK");
    reveal_strlit("SK");
    reveal_strlit("name");
    reveal_strlit("code");
    let m = team_attrs(t);
    assert("PK"@[0] != "SK"@[0] && "PK"@[0] != "name"@[0] && "PK"@[0] != "code"@[0]);
    assert("SK"@[0] != "name"@[0] && "SK"@[0] != "code"@[0] && "name"@[0] != "code"@[0]);
    assert(m["PK"@] == AttrView::S(t.PK));
    assert(m["SK"@] == AttrView::S(t.SK));
    assert(m["name"@] == AttrView::S(t.name));
    assert(m["code"@] == AttrView::S(t.code));
}

/// A player written by `put_player` reads back, with every field present,
/// as the same player.
pub proof fn lemma_player_read_back(p: PlayerView)
    ensures
        player_check(player_attrs(p)) is Ok,
        player_check_defaulted(player_attrs(p)) is Ok,
        player_of(player_attrs(p)) == p,
{
    reveal_strlit("PK");
    reveal_strlit("SK");
    reveal_strlit("fname");
    reveal_strlit("lname");
    reveal_strlit("photo");
    let m = player_attrs(p);
    assert("PK"@[0] != "SK"@[0] && "PK"@[0] != "fname"@[0] && "PK"@[0] != "lname"@[0]);
    assert("PK"@[0] != "photo"@[0] && "SK"@[0] != "fname"@[0] && "SK"@[0] != "lname"@[0]);
    assert("SK"@[0] != "photo"@[0] && "fname"@[0] != "lname"@[0] && "fname"@[0] != "photo"@[0]);
    assert("lname"@[0] != "photo"@[0]);
    assert(m["PK"@] == AttrView::S(p.PK));
    assert(m["SK"@] == AttrView::S(p.SK));
    assert(m["fname"@] == AttrView::S(p.fname));
    assert(m["lname"@] == AttrView::S(p.lname));
    assert(m["photo"@] == AttrView::S(p.photo));
}

/// A match written by `put_match` reads back as the same match.
pub proof fn lemma_game_read_back(g: GameView)
    ensures
        game_check(game_attrs(g)) is Ok,
        game_of(game_attrs(g)) == g,
{
    reveal_strlit("PK");
    reveal_strlit("SK");
    reveal_strlit("title");
    reveal_strlit("teams");
    reveal_strlit("date");
    reveal_strlit("time");
    reveal_strlit("venue");
    let m = game_attrs(g);
    assert("PK"@[0] != "SK"@[0] && "PK"@[0] != "title"@[0] && "PK"@[0] != "date"@[0]);
    assert("SK"@[0] != "title"@[0] && "SK"@[0] != "date"@[0] && "SK"@[0] != "venue"@[0]);
    assert("PK"@.len() != "teams"@.len() && "PK"@.len() != "time"@.len() && "PK"@.len() != "venue"@.len());
    assert("SK"@.len() != "teams"@.len() && "SK"@.len() != "time"@.len());
    assert("title"@[0] != "date"@[0] && "title"@[0] != "venue"@[0] && "title"@[1] != "teams"@[1]);
    assert("title"@.len() != "time"@.len() && "teams"@[0] != "date"@[0] && "teams"@.len() != "time"@.len());
    assert("teams"@[0] != "venue"@[0] && "date"@[0] != "time"@[0] && "date"@[0] != "venue"@[0]);
    assert("time"@[0] != "venue"@[0]);
    assert(m["PK"@] == AttrView::S(g.PK));
    assert(m["SK"@] == AttrView::S(g.SK));
    assert(m["title"@] == AttrView::S(g.title));
    assert(m["teams"@] == AttrView::Ss(g.teams));
    assert(m["date"@] == AttrView::S(g.date));
    assert(m["time"@] == AttrView::S(g.time));
    assert(m["venue"@] == AttrView::S(g.venue));
}

/// A score written by `put_score` reads back as the same score.
pub proof fn lemma_score_read_back(s: ScoreView)
    ensures
        score_check(score_attrs(s)) is Ok,
        score_of(score_attrs(s)) == s,
{
    reveal_strlit("PK");
    reveal_strlit("SK");
    reveal_strlit("player");
    reveal_strlit("team");
    let m = score_attrs(s);
    assert("PK"@[0] != "SK"@[0] && "PK"@[0] != "player"@[0] && "PK"@[0] != "team"@[0]);
    assert("SK"@[0] != "player"@[0] && "SK"@[0] != "team"@[0] && "player"@[0] != "team"@[0]);
    assert(m["PK"@] == AttrView::S(s.PK));
    assert(m["SK"@] == AttrView::S(s.SK));
    assert(m["player"@] == AttrView::S(s.player));
    assert(m["team"@] == AttrView::S(s.team));
}

/// A match created under the id `id` carries, as both `PK` and `SK`, the
/// key that retrieving the match by that id looks up.
pub proof fn lemma_created_game_has_retrieve_key(body: GameBodyView, value: u128)
    ensures
        game_from_body(body, game_key(ulid_text(value))).PK == game_key(ulid_text(value)),
        game_from_body(body, game_key(ulid_text(value))).SK == game_key(ulid_text(value)),
{
}

/// A player created for the team key of `team_id` matches the query for
/// the players of that team: its `PK` is the team key, and its `SK`
/// begins with `P`.
pub proof fn lemma_created_player_in_team_query(body: PlayerBodyView, value: u128, team_id: Seq<char>)
    requires
        body.team == team_key(team_id),
    ensures
        player_from_body(body, player_key(ulid_text(value))).PK == team_key(team_id),
        "P"@.is_prefix_of(player_from_body(body, player_key(ulid_text(value))).SK),
{
    reveal_strlit("P");
    reveal_strlit("P#");
}

/// The value of a digit of Crockford's base 32.
spec fn crockford_value(c: char) -> int {
    if c == '0' { 0 } else if c == '1' { 1 } else if c == '2' { 2 } else if c == '3' { 3 }
    else if c == '4' { 4 } else if c == '5' { 5 } else if c == '6' { 6 } else if c == '7' { 7 }
    else if c == '8' { 8 } else if c == '9' { 9 } else if c == 'A' { 10 } else if c == 'B' { 11 }
    else if c == 'C' { 12 } else if c == 'D' { 13 } else if c == 'E' { 14 } else if c == 'F' { 15 }
    else if c == 'G' { 16 } else if c == 'H' { 17 } else if c == 'J' { 18 } else if c == 'K' { 19 }
    else if c == 'M' { 20 } else if c == 'N' { 21 } else if c == 'P' { 22 } else if c == 'Q' { 23 }
    else if c == 'R' { 24 } else if c == 'S' { 25 } else if c == 'T' { 26 } else if c == 'V' { 27 }
    else if c == 'W' { 28 } else if c == 'X' { 29 } else if c == 'Y' { 30 } else if c == 'Z' { 31 }
    else { 32 }
}

/// No two digits of Crockford's base 32 are the same character.
proof fn lemma_crockford_digits_distinct(p: int, q: int)
    requires
        0 <= p < 32,
        0 <= q < 32,
        crockford_digits()[p] == crockford_digits()[q],
    ensures
        p == q,
{
    assert forall|k: int| 0 <= k < 32 implies crockford_value(#[trigger] crockford_digits()[k]) == k by {
        assert(k == 0 || k == 1 || k == 2 || k == 3 || k == 4 || k == 5 || k == 6 || k == 7 || k == 8
            || k == 9 || k == 10 || k == 11 || k == 12 || k == 13 || k == 14 || k == 15 || k == 16
            || k == 17 || k == 18 || k == 19 || k == 20 || k == 21 || k == 22 || k == 23 || k == 24
            || k == 25 || k == 26 || k == 27 || k == 28 || k == 29 || k == 30 || k == 31);
    }
}

/// The base-32 digit of `v` worth `32^j`.
spec fn digit(v: u128, j: nat) -> int {
    (v as int / pow2(5 * j) as int) % 32
}

/// Numbers whose lowest `k` base-32 digits agree agree modulo `2^(5k)`.
proof fn lemma_low_digits_agree(a: u128, b: u128, k: nat)
    requires
        forall|j: nat| j < k ==> digit(a, j) == digit(b, j),
    ensures
        a as int % pow2(5 * k) as int == b as int % pow2(5 * k) as int,
    decreases k,
{
    if k == 0 {
        lemma2_to64();
        assert(a as int % 1 == 0);
        assert(b as int % 1 == 0);
    } else {
        let j = (k - 1) as nat;
        lemma_low_digits_agree(a, b, j);
        lemma_pow2_adds(5 * j, 5);
        lemma2_to64();
        lemma_pow2_pos(5 * j);
        assert(5 * k == 5 * j + 5);
        let y = pow2(5 * j) as int;
        lemma_breakdown(a as int, y, 32);
        lemma_breakdown(b as int, y, 32);
        assert(digit(a, j) == digit(b, j));
    }
}

/// Different values have different ULID texts.
pub proof fn lemma_ulid_text_injective(a: u128, b: u128)
    ensures
        a != b ==> ulid_text(a) != ulid_text(b),
{
    if ulid_text(a) == ulid_text(b) {
        assert forall|j: nat| j < 26 implies digit(a, j) == digit(b, j) by {
            let i = 25 - j;
            assert(ulid_text(a)[i] == ulid_text(b)[i]);
            assert((5 * (25 - i)) as nat == 5 * j);
            lemma_pow2_pos(5 * j);
            lemma_crockford_digits_distinct(digit(a, j), digit(b, j));
        }
        lemma_low_digits_agree(a, b, 26);
        lemma2_to64();
        lemma_pow2_adds(64, 64);
        lemma_pow2_strictly_increases(128, 130);
        lemma_small_mod(a as nat, pow2(130));
        lemma_small_mod(b as nat, pow2(130));
    }
}

/// A prefix followed by different texts gives different keys.
proof fn lemma_prefixed_distinct(prefix: Seq<char>, x: Seq<char>, y: Seq<char>)
    ensures
        x != y ==> prefix + x != prefix + y,
{
    if prefix + x == prefix + y {
        assert(x =~= (prefix + x).subrange(prefix.len() as int, (prefix + x).len() as int));
        assert(y =~= (prefix + y).subrange(prefix.len() as int, (prefix + y).len() as int));
    }
}

/// A key made of a two-character prefix and a ULID text: 28 characters,
/// the prefix, then 26 digits of Crockford's base 32.
pub open spec fn is_ulid_key(key: Seq<char>, prefix: Seq<char>) -> bool {
    &&& key.len() == 28
    &&& prefix.is_prefix_of(key)
    &&& forall|i: int| 2 <= i < 28 ==> crockford_digits().contains(#[trigger] key[i])
}

proof fn lemma_ulid_key_shape(prefix: Seq<char>, v: u128)
    requires
        prefix.len() == 2,
    ensures
        is_ulid_key(prefix + ulid_text(v), prefix),
{
    let key = prefix + ulid_text(v);
    assert(prefix =~= key.subrange(0, 2));
    assert forall|i: int| 2 <= i < 28 implies crockford_digits().contains(#[trigger] key[i]) by {
        lemma_pow2_pos((5 * (25 - (i - 2))) as nat);
        let d = (v as int / pow2((5 * (25 - (i - 2))) as nat) as int) % 32;
        assert(key[i] == crockford_digits()[d]);
    }
}

/// Matches created with different ULID values get different keys; each
/// key is its match's `PK` and `SK`, `G#` followed by a 26-digit ULID text.
pub proof fn lemma_created_games_have_distinct_keys(b1: GameBodyView, b2: GameBodyView, v1: u128, v2: u128)
    ensures
        is_ulid_key(game_from_body(b1, game_key(ulid_text(v1))).PK, "G#"@),
        game_from_body(b1, game_key(ulid_text(v1))).PK == game_from_body(b1, game_key(ulid_text(v1))).SK,
        v1 != v2 ==> game_from_body(b1, game_key(ulid_text(v1))).PK != game_from_body(b2, game_key(ulid_text(v2))).PK,
{
    reveal_strlit("G#");
    lemma_ulid_key_shape("G#"@, v1);
    lemma_ulid_text_injective(v1, v2);
    lemma_prefixed_distinct("G#"@, ulid_text(v1), ulid_text(v2));
}

/// Teams created with different ULID values get different keys; each key
/// is its team's `PK` and `SK`, `T#` followed by a 26-digit ULID text.
pub proof fn lemma_created_teams_have_distinct_keys(b1: TeamBodyView, b2: TeamBodyView, v1: u128, v2: u128)
    ensures
        is_ulid_key(team_from_body(b1, team_key(ulid_text(v1))).PK, "T#"@),
        team_from_body(b1, team_key(ulid_text(v1))).PK == team_from_body(b1, team_key(ulid_text(v1))).SK,
        v1 != v2 ==> team_from_body(b1, team_key(ulid_text(v1))).PK != team_from_body(b2, team_key(ulid_text(v2))).PK,
{
    reveal_strlit("T#");
    lemma_ulid_key_shape("T#"@, v1);
    lemma_ulid_text_injective(v1, v2);
    lemma_prefixed_distinct("T#"@, ulid_text(v1), ulid_text(v2));
}

/// Players created with different ULID values get different `SK`s; each
/// is `P#` followed by a 26-digit ULID text.
pub proof fn lemma_created_players_have_distinct_keys(b1: PlayerBodyView, b2: PlayerBodyView, v1: u128, v2: u128)
    ensures
        is_ulid_key(player_from_body(b1, player_key(ulid_text(v1))).SK, "P#"@),
        v1 != v2 ==> player_from_body(b1, player_key(ulid_text(v1))).SK != player_from_body(b2, player_key(ulid_text(v2))).SK,
{
    reveal_strlit("P#");
    lemma_ulid_key_shape("P#"@, v1);
    lemma_ulid_text_injective(v1, v2);
    lemma_prefixed_distinct("P#"@, ulid_text(v1), ulid_text(v2));
}

/// Reading a team whose fields must all be present takes each field from
/// the string attribute of its own name.
pub proof fn lemma_team_fields_from_own_attributes(m: Map<Seq<char>, AttrView>)
    requires
        team_check(m) is Ok,
    ensures
        m.contains_key("PK"@) && m["PK"@] == AttrView::S(team_of(m).PK),
        m.contains_key("SK"@) && m["SK"@] == AttrView::S(team_of(m).SK),
        m.contains_key("name"@) && m["name"@] == AttrView::S(team_of(m).name),
        m.contains_key("code"@) && m["code"@] == AttrView::S(team_of(m).code),
{
}

/// Reading a team whose absent fields are empty takes each present field
/// from the string attribute of its own name, and leaves each absent one
/// empty.
pub proof fn lemma_team_defaulted_fields(m: Map<Seq<char>, AttrView>)
    requires
        team_check_defaulted(m) is Ok,
    ensures
        m.contains_key("PK"@) ==> m["PK"@] == AttrView::S(team_of(m).PK),
        !m.contains_key("PK"@) ==> team_of(m).PK == Seq::<char>::empty(),
        m.contains_key("SK"@) ==> m["SK"@] == AttrView::S(team_of(m).SK),
        !m.contains_key("SK"@) ==> team_of(m).SK == Seq::<char>::empty(),
        m.contains_key("name"@) ==> m["name"@] == AttrView::S(team_of(m).name),
        !m.contains_key("name"@) ==> team_of(m).name == Seq::<char>::empty(),
        m.contains_key("code"@) ==> m["code"@] == AttrView::S(team_of(m).code),
        !m.contains_key("code"@) ==> team_of(m).code == Seq::<char>::empty(),
{
}

/// Reading a player whose fields must all be present takes each field
/// from the string attribute of its own name.
pub proof fn lemma_player_fields_from_own_attributes(m: Map<Seq<char>, AttrView>)
    requires
        player_check(m) is Ok,
    ensures
        m.contains_key("PK"@) && m["PK"@] == AttrView::S(player_of(m).PK),
        m.contains_key("SK"@) && m["SK"@] == AttrView::S(player_of(m).SK),
        m.contains_key("fname"@) && m["fname"@] == AttrView::S(player_of(m).fname),
        m.contains_key("lname"@) && m["lname"@] == AttrView::S(player_of(m).lname),
        m.contains_key("photo"@) && m["photo"@] == AttrView::S(player_of(m).photo),
{
}

/// Reading a player whose absent fields are empty takes each present field
/// from the string attribute of its own name, and leaves each absent one
/// empty.
pub proof fn lemma_player_defaulted_fields(m: Map<Seq<char>, AttrView>)
    requires
        player_check_defaulted(m) is Ok,
    ensures
        m.contains_key("PK"@) ==> m["PK"@] == AttrView::S(player_of(m).PK),
        !m.contains_key("PK"@) ==> player_of(m).PK == Seq::<char>::empty(),
        m.contains_key("SK"@) ==> m["SK"@] == AttrView::S(player_of(m).SK),
        !m.contains_key("SK"@) ==> player_of(m).SK == Seq::<char>::empty(),
        m.contains_key("fname"@) ==> m["fname"@] == AttrView::S(player_of(m).fname),
        !m.contains_key("fname"@) ==> player_of(m).fname == Seq::<char>::empty(),
        m.contains_key("lname"@) ==> m["lname"@] == AttrView::S(player_of(m).lname),
        !m.contains_key("lname"@) ==> player_of(m).lname == Seq::<char>::empty(),
        m.contains_key("photo"@) ==> m["photo"@] == AttrView::S(player_of(m).photo),
        !m.contains_key("photo"@) ==> player_of(m).photo == Seq::<char>::empty(),
{
}

/// Reading a match takes each field from the attribute of its own name:
/// the teams from the string set `teams`, every other field from a string.
pub proof fn lemma_game_fields_from_own_attributes(m: Map<Seq<char>, AttrView>)
    requires
        game_check(m) is Ok,
    ensures
        m.contains_key("PK"@) && m["PK"@] == AttrView::S(game_of(m).PK),
        m.contains_key("SK"@) && m["SK"@] == AttrView::S(game_of(m).SK),
        m.contains_key("title"@) && m["title"@] == AttrView::S(game_of(m).title),
        m.contains_key("teams"@) && m["teams"@] == AttrView::Ss(game_of(m).teams),
        m.contains_key("venue"@) && m["venue"@] == AttrView::S(game_of(m).venue),
        m.contains_key("date"@) && m["date"@] == AttrView::S(game_of(m).date),
        m.contains_key("time"@) && m["time"@] == AttrView::S(game_of(m).time),
{
}

/// Reading a score takes each field from the string attribute of its own
/// name.
pub proof fn lemma_score_fields_from_own_attributes(m: Map<Seq<char>, AttrView>)
    requires
        score_check(m) is Ok,
    ensures
        m.contains_key("PK"@) && m["PK"@] == AttrView::S(score_of(m).PK),
        m.contains_key("SK"@) && m["SK"@] == AttrView::S(score_of(m).SK),
        m.contains_key("player"@) && m["player"@] == AttrView::S(score_of(m).player),
        m.contains_key("team"@) && m["team"@] == AttrView::S(score_of(m).team),
{
}

/// The item written for a team holds exactly its four fields, each under
/// its own name.
pub proof fn lemma_team_item_fields(t: TeamView)
    ensures
        team_attrs(t).dom() == set!["PK"@, "SK"@, "name"@, "code"@],
        team_attrs(t)["PK"@] == AttrView::S(t.PK),
        team_attrs(t)["SK"@] == AttrView::S(t.SK),
        team_attrs(t)["name"@] == AttrView::S(t.name),
        team_attrs(t)["code"@] == AttrView::S(t.code),
{
    lemma_team_read_back(t);
    assert(team_attrs(t).dom() =~= set!["PK"@, "SK"@, "name"@, "code"@]);
}

/// The item written for a player holds exactly its five fields, each under
/// its own name.
pub proof fn lemma_player_item_fields(p: PlayerView)
    ensures
        player_attrs(p).dom() == set!["PK"@, "SK"@, "fname"@, "lname"@, "photo"@],
        player_attrs(p)["PK"@] == AttrView::S(p.PK),
        player_attrs(p)["SK"@] == AttrView::S(p.SK),
        player_attrs(p)["fname"@] == AttrView::S(p.fname),
        player_attrs(p)["lname"@] == AttrView::S(p.lname),
        player_attrs(p)["photo"@] == AttrView::S(p.photo),
{
    lemma_player_read_back(p);
    assert(player_attrs(p).dom() =~= set!["PK"@, "SK"@, "fname"@, "lname"@, "photo"@]);
}

/// The item written for a match holds exactly its seven fields, each under
/// its own name, the teams as a string set.
pub proof fn lemma_game_item_fields(g: GameView)
    ensures
        game_attrs(g).dom() == set!["PK"@, "SK"@, "title"@, "teams"@, "date"@, "time"@, "venue"@],
        game_attrs(g)["PK"@] == AttrView::S(g.PK),
        game_attrs(g)["SK"@] == AttrView::S(g.SK),
        game_attrs(g)["title"@] == AttrView::S(g.title),
        game_attrs(g)["teams"@] == AttrView::Ss(g.teams),
        game_attrs(g)["date"@] == AttrView::S(g.date),
        game_attrs(g)["time"@] == AttrView::S(g.time),
        game_attrs(g)["venue"@] == AttrView::S(g.venue),
{
    lemma_game_read_back(g);
    assert(game_attrs(g).dom() =~= set!["PK"@, "SK"@, "title"@, "teams"@, "date"@, "time"@, "venue"@]);
}

/// The item written for a score holds exactly its four fields, each under
/// its own name.
pub proof fn lemma_score_item_fields(s: ScoreView)
    ensures
        score_attrs(s).dom() == set!["PK"@, "SK"@, "player"@, "team"@],
        score_attrs(s)["PK"@] == AttrView::S(s.PK),
        score_attrs(s)["SK"@] == AttrView::S(s.SK),
        score_attrs(s)["player"@] == AttrView::S(s.player),
        score_attrs(s)["team"@] == AttrView::S(s.team),
{
    lemma_score_read_back(s);
    assert(score_attrs(s).dom() =~= set!["PK"@, "SK"@, "player"@, "team"@]);
}

/// The teams listed from a scan are the scanned items, one for one and in
/// order, each team's fields taken from its own item's attributes.
pub proof fn lemma_team_list_is_item_by_item(items: Seq<Item>)
    requires
        forall|i: int| 0 <= i < items.len() ==> team_check(#[trigger] items[i]@) is Ok,
    ensures
        teams_of(items).len() == items.len(),
        forall|j: int| #![trigger teams_of(items)[j]] 0 <= j < items.len() ==> {
            &&& items[j]@.contains_key("PK"@) && items[j]@["PK"@] == AttrView::S(teams_of(items)[j].PK)
            &&& items[j]@.contains_key("SK"@) && items[j]@["SK"@] == AttrView::S(teams_of(items)[j].SK)
            &&& items[j]@.contains_key("name"@) && items[j]@["name"@] == AttrView::S(teams_of(items)[j].name)
            &&& items[j]@.contains_key("code"@) && items[j]@["code"@] == AttrView::S(teams_of(items)[j].code)
        },
{
    assert forall|j: int| #![trigger teams_of(items)[j]] 0 <= j < items.len() implies {
        &&& items[j]@.contains_key("PK"@) && items[j]@["PK"@] == AttrView::S(teams_of(items)[j].PK)
        &&& items[j]@.contains_key("SK"@) && items[j]@["SK"@] == AttrView::S(teams_of(items)[j].SK)
        &&& items[j]@.contains_key("name"@) && items[j]@["name"@] == AttrView::S(teams_of(items)[j].name)
        &&& items[j]@.contains_key("code"@) && items[j]@["code"@] == AttrView::S(teams_of(items)[j].code)
    } by {
        assert(team_check(items[j]@) is Ok);
        lemma_team_fields_from_own_attributes(items[j]@);
    }
}

/// The players listed for a team are the queried items, one for one and in
/// order, each player's fields taken from its own item's attributes.
pub proof fn lemma_player_list_is_item_by_item(items: Seq<Item>)
    requires
        forall|i: int| 0 <= i < items.len() ==> player_check(#[trigger] items[i]@) is Ok,
    ensures
        players_of(items).len() == items.len(),
        forall|j: int| #![trigger players_of(items)[j]] 0 <= j < items.len() ==> {
            &&& items[j]@.contains_key("PK"@) && items[j]@["PK"@] == AttrView::S(players_of(items)[j].PK)
            &&& items[j]@.contains_key("SK"@) && items[j]@["SK"@] == AttrView::S(players_of(items)[j].SK)
            &&& items[j]@.contains_key("fname"@) && items[j]@["fname"@] == AttrView::S(players_of(items)[j].fname)
            &&& items[j]@.contains_key("lname"@) && items[j]@["lname"@] == AttrView::S(players_of(items)[j].lname)
            &&& items[j]@.contains_key("photo"@) && items[j]@["photo"@] == AttrView::S(players_of(items)[j].photo)
        },
{
    assert forall|j: int| #![trigger players_of(items)[j]] 0 <= j < items.len() implies {
        &&& items[j]@.contains_key("PK"@) && items[j]@["PK"@] == AttrView::S(players_of(items)[j].PK)
        &&& items[j]@.contains_key("SK"@) && items[j]@["SK"@] == AttrView::S(players_of(items)[j].SK)
        &&& items[j]@.contains_key("fname"@) && items[j]@["fname"@] == AttrView::S(players_of(items)[j].fname)
        &&& items[j]@.contains_key("lname"@) && items[j]@["lname"@] == AttrView::S(players_of(items)[j].lname)
        &&& items[j]@.contains_key("photo"@) && items[j]@["photo"@] == AttrView::S(players_of(items)[j].photo)
    } by {
        assert(player_check(items[j]@) is Ok);
        lemma_player_fields_from_own_attributes(items[j]@);
    }
}

/// The scores of a player's history are the queried items, one for one
/// and in order, each score's fields taken from its own item's attributes.
pub proof fn lemma_score_list_is_item_by_item(items: Seq<Item>)
    requires
        forall|i: int| 0 <= i < items.len() ==> score_check(#[trigger] items[i]@) is Ok,
    ensures
        scores_of(items).len() == items.len(),
        forall|j: int| #![trigger scores_of(items)[j]] 0 <= j < items.len() ==> {
            &&& items[j]@.contains_key("PK"@) && items[j]@["PK"@] == AttrView::S(scores_of(items)[j].PK)
            &&& items[j]@.contains_key("SK"@) && items[j]@["SK"@] == AttrView::S(scores_of(items)[j].SK)
            &&& items[j]@.contains_key("player"@) && items[j]@["player"@] == AttrView::S(scores_of(items)[j].player)
            &&& items[j]@.contains_key("team"@) && items[j]@["team"@] == AttrView::S(scores_of(items)[j].team)
        },
{
    assert forall|j: int| #![trigger scores_of(items)[j]] 0 <= j < items.len() implies {
        &&& items[j]@.contains_key("PK"@) && items[j]@["PK"@] == AttrView::S(scores_of(items)[j].PK)
        &&& items[j]@.contains_key("SK"@) && items[j]@["SK"@] == AttrView::S(scores_of(items)[j].SK)
        &&& items[j]@.contains_key("player"@) && items[j]@["player"@] == AttrView::S(scores_of(items)[j].player)
        &&& items[j]@.contains_key("team"@) && items[j]@["team"@] == AttrView::S(scores_of(items)[j].team)
    } by {
        assert(score_check(items[j]@) is Ok);
        lemma_score_fields_from_own_attributes(items[j]@);
    }
}

} // verus!
