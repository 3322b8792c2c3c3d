use vstd::prelude::*;

verus! {

/// The number of players in a team, goal keeper included.
pub const TEAM_SIZE: usize = 5;

/// The two teams.
#[derive(Debug, Clone, Copy, PartialEq, Eq, Structural, Hash)]
pub enum TeamColor {
    Red,
    Blue,
}

impl TeamColor {
    /// The direction the team's half lies in along the length of the pitch:
    /// -1 for red, 1 for blue.
    pub fn sign(&self) -> (s: i32)
        ensures
            s == (match *self {
                TeamColor::Red => -1int,
                TeamColor::Blue => 1int,
            }),
    {
        match self {
            TeamColor::Red => -1,
            TeamColor::Blue => 1,
        }
    }

    /// The other team.
    pub open spec fn other(self) -> TeamColor {
        match self {
            TeamColor::Red => TeamColor::Blue,
            TeamColor::Blue => TeamColor::Red,
        }
    }

    /// The other team.
    pub fn opponent(&self) -> (c: TeamColor)
        ensures
            c == self.other(),
            c != *self,
    {
        match self {
            TeamColor::Red => TeamColor::Blue,
            TeamColor::Blue => TeamColor::Red,
        }
    }
}

/// The shirt numbers of a team; the first is the goal keeper's.
pub open spec fn spec_team_numbers(color: TeamColor) -> Seq<usize> {
    match color {
        TeamColor::Red => seq![11, 12, 13, 14, 15],
        TeamColor::Blue => seq![1, 2, 3, 4, 5],
    }
}

/// The pitch regions a team's players hold while defending; the first is
/// the goal keeper's.
pub open spec fn spec_defending_home_regions(color: TeamColor) -> Seq<usize> {
    match color {
        TeamColor::Red => seq![16, 9, 11, 12, 14],
        TeamColor::Blue => seq![1, 6, 8, 3, 5],
    }
}

/// The pitch regions a team's players hold while attacking; the first is
/// the goal keeper's.
pub open spec fn spec_attacking_home_regions(color: TeamColor) -> Seq<usize> {
    match color {
        TeamColor::Red => seq![16, 3, 5, 9, 13],
        TeamColor::Blue => seq![1, 4, 6, 12, 14],
    }
}

pub fn team_numbers(color: TeamColor) -> (r: [usize; 5])
    ensures
        r@ == spec_team_numbers(color),
{
    let r = match color {
        TeamColor::Red => [11, 12, 13, 14, 15],
        TeamColor::Blue => [1, 2, 3, 4, 5],
    };
    assert(r@ =~= spec_team_numbers(color));
    r
}

pub fn defending_home_regions(color: TeamColor) -> (r: [usize; 5])
    ensures
        r@ == spec_defending_home_regions(color),
{
    let r = match color {
        TeamColor::Red => [16, 9, 11, 12, 14],
        TeamColor::Blue => [1, 6, 8, 3, 5],
    };
    assert(r@ =~= spec_defending_home_regions(color));
    r
}

pub fn attacking_home_regions(color: TeamColor) -> (r: [usize; 5])
    ensures
        r@ == spec_attacking_home_regions(color),
{
    let r = match color {
        TeamColor::Red => [16, 3, 5, 9, 13],
        TeamColor::Blue => [1, 4, 6, 12, 14],
    };
    assert(r@ =~= spec_attacking_home_regions(color));
    r
}

/// Both teams keep their goal keeper in the same region whether defending or
/// attacking, and no two players of a team share a home region.
pub proof fn lemma_home_region_tables(color: TeamColor)
    ensures
        spec_defending_home_regions(color)[0] == spec_attacking_home_regions(color)[0],
        forall|i: int, j: int|
            0 <= i < j < 5 ==> spec_defending_home_regions(color)[i]
                != spec_defending_home_regions(color)[j],
        forall|i: int, j: int|
            0 <= i < j < 5 ==> spec_attacking_home_regions(color)[i]
                != spec_attacking_home_regions(color)[j],
{
}

/// The score and whether each team is ready for play.
#[derive(Debug, Clone, Copy, PartialEq, Eq, Structural)]
pub struct GameState {
    pub red_team_ready: bool,
    pub blue_team_ready: bool,
    pub red_team_score: usize,
    pub blue_team_score: usize,
}

impl GameState {
    /// No score, and neither team ready.
    pub fn default() -> (g: GameState)
        ensures
            g == (GameState {
                red_team_ready: false,
                blue_team_ready: false,
                red_team_score: 0,
                blue_team_score: 0,
            }),
    {
        GameState { red_team_ready: false, blue_team_ready: false, red_team_score: 0, blue_team_score: 0 }
    }

    /// The game is on once both teams are ready.
    pub open spec fn spec_is_game_on(self) -> bool {
        self.red_team_ready && self.blue_team_ready
    }

    pub fn is_game_on(&self) -> (r: bool)
        ensures
            r == self.spec_is_game_on(),
    {
        self.red_team_ready && self.blue_team_ready
    }

    /// The score of a team.
    pub open spec fn spec_score(self, color: TeamColor) -> usize {
        match color {
            TeamColor::Red => self.red_team_score,
            TeamColor::Blue => self.blue_team_score,
        }
    }

    /// Whether a team is ready.
    pub open spec fn spec_ready(self, color: TeamColor) -> bool {
        match color {
            TeamColor::Red => self.red_team_ready,
            TeamColor::Blue => self.blue_team_ready,
        }
    }

    /// Marks a team ready or not ready for play.
    pub fn set_team_ready(&mut self, color: TeamColor, ready: bool)
        ensures
            final(self).spec_ready(color) == ready,
            final(self).spec_ready(color.other()) == old(self).spec_ready(color.other()),
            final(self).red_team_score == old(self).red_team_score,
            final(self).blue_team_score == old(self).blue_team_score,
    {
        match color {
            TeamColor::Red => self.red_team_ready = ready,
            TeamColor::Blue => self.blue_team_ready = ready,
        }
    }

    /// Adds a goal to the score of the team named by a goal-scored event.
    pub fn record_goal(&mut self, color: TeamColor)
        requires
            old(self).spec_score(color) < usize::MAX,
        ensures
            final(self).spec_score(color) == old(self).spec_score(color) + 1,
            final(self).spec_score(color.other()) == old(self).spec_score(color.other()),
            final(self).red_team_ready == old(self).red_team_ready,
            final(self).blue_team_ready == old(self).blue_team_ready,
    {
        match color {
            TeamColor::Red => self.red_team_score = self.red_team_score + 1,
            TeamColor::Blue => self.blue_team_score = self.blue_team_score + 1,
        }
    }
}

/// A goal changes the score of one team by one and leaves the other's.
pub proof fn lemma_goal_changes_one_score(before: GameState, after: GameState, color: TeamColor)
    requires
        after.spec_score(color) == before.spec_score(color) + 1,
        after.spec_score(color.other()) == before.spec_score(color.other()),
    ensures
        after.red_team_score + after.blue_team_score == before.red_team_score
            + before.blue_team_score + 1,
{
}

/// A team that is not ready keeps the game off, whatever the other does.
pub proof fn lemma_not_ready_means_game_off(g: GameState, color: TeamColor)
    requires
        !g.spec_ready(color),
    ensures
        !g.spec_is_game_on(),
{
}

} // verus!
