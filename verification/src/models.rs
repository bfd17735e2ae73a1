#![allow(non_snake_case)]

use vstd::prelude::*;

verus! {

/// What a client sends to create a player.
#[derive(Clone, Debug)]
pub struct PlayerBody {
    pub team: String,
    pub fname: String,
    pub lname: String,
    pub photo: String,
}

/// A stored player: `PK` is the team the player belongs to, `SK` the
/// player's own key.
#[derive(Clone, Debug)]
pub struct Player {
    pub PK: String,
    pub SK: String,
    pub fname: String,
    pub lname: String,
    pub photo: String,
}

/// What a client sends to create a team.
#[derive(Clone, Debug)]
pub struct TeamBody {
    pub name: String,
    pub code: String,
}

/// A stored team.
#[derive(Clone, Debug)]
pub struct Team {
    pub PK: String,
    pub SK: String,
    pub name: String,
    pub code: String,
}

/// What a client sends to create a match.
#[derive(Clone, Debug)]
pub struct GameBody {
    pub title: String,
    pub teams: Vec<String>,
    pub venue: String,
    pub date: String,
    pub time: String,
}

/// A stored match.
#[derive(Clone, Debug)]
pub struct Game {
    pub PK: String,
    pub SK: String,
    pub title: String,
    pub teams: Vec<String>,
    pub venue: String,
    pub date: String,
    pub time: String,
}

/// A score posted for a match: `PK` is the match, `SK` the time of the
/// score.
#[derive(Clone, Debug)]
pub struct Score {
    pub PK: String,
    pub SK: String,
    pub player: String,
    pub team: String,
}

pub struct PlayerBodyView {
    pub team: Seq<char>,
    pub fname: Seq<char>,
    pub lname: Seq<char>,
    pub photo: Seq<char>,
}

pub struct PlayerView {
    pub PK: Seq<char>,
    pub SK: Seq<char>,
    pub fname: Seq<char>,
    pub lname: Seq<char>,
    pub photo: Seq<char>,
}

pub struct TeamBodyView {
    pub name: Seq<char>,
    pub code: Seq<char>,
}

pub struct TeamView {
    pub PK: Seq<char>,
    pub SK: Seq<char>,
    pub name: Seq<char>,
    pub code: Seq<char>,
}

pub struct GameBodyView {
    pub title: Seq<char>,
    pub teams: Seq<Seq<char>>,
    pub venue: Seq<char>,
    pub date: Seq<char>,
    pub time: Seq<char>,
}

pub struct GameView {
    pub PK: Seq<char>,
    pub SK: Seq<char>,
    pub title: Seq<char>,
    pub teams: Seq<Seq<char>>,
    pub venue: Seq<char>,
    pub date: Seq<char>,
    pub time: Seq<char>,
}

pub struct ScoreView {
    pub PK: Seq<char>,
    pub SK: Seq<char>,
    pub player: Seq<char>,
    pub team: Seq<char>,
}

impl View for PlayerBody {
    type V = PlayerBodyView;

    open spec fn view(&self) -> PlayerBodyView {
        PlayerBodyView { team: self.team@, fname: self.fname@, lname: self.lname@, photo: self.photo@ }
    }
}

impl View for Player {
    type V = PlayerView;

    open spec fn view(&self) -> PlayerView {
        PlayerView {
            PK: self.PK@,
            SK: self.SK@,
            fname: self.fname@,
            lname: self.lname@,
            photo: self.photo@,
        }
    }
}

impl DeepView for Player {
    type V = PlayerView;

    open spec fn deep_view(&self) -> PlayerView {
        self@
    }
}

impl View for TeamBody {
    type V = TeamBodyView;

    open spec fn view(&self) -> TeamBodyView {
        TeamBodyView { name: self.name@, code: self.code@ }
    }
}

impl View for Team {
    type V = TeamView;

    open spec fn view(&self) -> TeamView {
        TeamView { PK: self.PK@, SK: self.SK@, name: self.name@, code: self.code@ }
    }
}

impl DeepView for Team {
    type V = TeamView;

    open spec fn deep_view(&self) -> TeamView {
        self@
    }
}

impl View for GameBody {
    type V = GameBodyView;

    open spec fn view(&self) -> GameBodyView {
        GameBodyView {
            title: self.title@,
            teams: self.teams.deep_view(),
            venue: self.venue@,
            date: self.date@,
            time: self.time@,
        }
    }
}

impl View for Game {
    type V = GameView;

    open spec fn view(&self) -> GameView {
        GameView {
            PK: self.PK@,
            SK: self.SK@,
            title: self.title@,
            teams: self.teams.deep_view(),
            venue: self.venue@,
            date: self.date@,
            time: self.time@,
        }
    }
}

impl DeepView for Game {
    type V = GameView;

    open spec fn deep_view(&self) -> GameView {
        self@
    }
}

impl View for Score {
    type V = ScoreView;

    open spec fn view(&self) -> ScoreView {
        ScoreView { PK: self.PK@, SK: self.SK@, player: self.player@, team: self.team@ }
    }
}

impl DeepView for Score {
    type V = ScoreView;

    open spec fn deep_view(&self) -> ScoreView {
        self@
    }
}

/// A copy of a list of strings.
pub(crate) fn copy_strings(v: &Vec<String>) -> (r: Vec<String>)
    ensures
        r.deep_view() == v.deep_view(),
{
    let mut r: Vec<String> = Vec::new();
    let mut i: usize = 0;
    while i < v.len()
        invariant
            i <= v@.len(),
            r@.len() == i,
            forall|j: int| 0 <= j < i ==> #[trigger] r@[j]@ == v@[j]@,
        decreases v@.len() - i,
    {
        r.push(v[i].clone());
        i = i + 1;
    }
    assert(r.deep_view() =~= v.deep_view());
    r
}

} // verus!
