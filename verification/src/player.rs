use vstd::prelude::*;

use crate::cooldown::{Cooldown, CooldownView};
use crate::entity::EntityId;
use crate::messaging::MessageEvent;
use crate::state_machine::StateKind;

verus! {

/// What every player of a team has: a shirt number, the pitch region it
/// currently holds and the one it returns to when sent home.
#[derive(Debug, Clone, Copy, PartialEq, Eq, Structural)]
pub struct SoccerPlayer {
    pub number: usize,
    pub home_region: usize,
    pub default_region: usize,
}

impl SoccerPlayer {
    /// The region the player holds, out of the regions of the pitch.
    pub fn get_home_region<'a, R>(&self, regions: &'a Vec<R>) -> (r: &'a R)
        requires
            self.home_region < regions.len(),
        ensures
            *r == regions@[self.home_region as int],
    {
        &regions[self.home_region]
    }
}

/// What a field player does in attack.
#[derive(Debug, Clone, Copy, PartialEq, Eq, Structural)]
pub enum FieldPlayerRole {
    Attacker,
    Defender,
}

/// A field player: its role, and the cooldown between two of its kicks.
#[derive(Debug, Clone)]
pub struct FieldPlayer {
    pub role: FieldPlayerRole,
    pub kick_cooldown: Cooldown,
}

/// The time between two kicks of a player that kicks `frequency` times a
/// second, in nanoseconds; a player that never kicks waits for ever.
pub open spec fn kick_interval(frequency: usize) -> u64 {
    if frequency == 0 {
        u64::MAX
    } else {
        (1_000_000_000int / (frequency as int)) as u64
    }
}

impl FieldPlayer {
    /// A field player that can kick `kick_frequency` times a second.
    pub fn new(kick_frequency: usize, role: FieldPlayerRole) -> (f: FieldPlayer)
        ensures
            f.role == role,
            f.kick_cooldown@ == CooldownView::fresh(kick_interval(kick_frequency)),
    {
        let interval: u64 = if kick_frequency == 0 {
            u64::MAX
        } else {
            1_000_000_000u64 / (kick_frequency as u64)
        };
        FieldPlayer { role, kick_cooldown: Cooldown::new(interval) }
    }

    /// Whether the kick cooldown has run out.
    pub fn is_ready_for_next_kick(&self) -> (r: bool)
        ensures
            r == self.kick_cooldown@.available,
    {
        self.kick_cooldown.available()
    }
}

/// The goal keeper of a team.
#[derive(Debug, Clone, Copy, PartialEq, Eq, Structural)]
pub struct GoalKeeper;

/// The states of a field player.
#[derive(Debug, Clone, Copy, PartialEq, Eq, Structural, Hash)]
pub enum FieldPlayerState {
    Wait,
    ReceiveBall,
    KickBall,
    Dribble,
    ChaseBall,
    ReturnToHomeRegion,
    SupportAttacker,
}

impl StateKind for FieldPlayerState {
    fn same_state(&self, other: &Self) -> (r: bool) {
        *self == *other
    }
}

impl FieldPlayerState {
    /// Waiting players and players on their way home head for their home
    /// region whenever the team's home regions change.
    pub fn heads_home_on_region_change(&self) -> (r: bool)
        ensures
            r == (*self == FieldPlayerState::Wait || *self == FieldPlayerState::ReturnToHomeRegion),
    {
        match self {
            FieldPlayerState::Wait => true,
            FieldPlayerState::ReturnToHomeRegion => true,
            _ => false,
        }
    }
}

/// The states of a goal keeper.
#[derive(Debug, Clone, Copy, PartialEq, Eq, Structural, Hash)]
pub enum GoalKeeperState {
    TendGoal,
    ReturnHome,
    PutBallBackInPlay,
    InterceptBall,
}

impl StateKind for GoalKeeperState {
    fn same_state(&self, other: &Self) -> (r: bool) {
        *self == *other
    }
}

/// What field players tell each other. Positions are of type `P`.
#[derive(Debug, Clone, Copy, PartialEq, Eq, Structural)]
pub enum FieldPlayerMessage<P> {
    SupportAttacker,
    GoHome,
    ReceiveBall(P),
    PassToMe(EntityId, P),
    Wait,
}

impl<P> MessageEvent for FieldPlayerMessage<P> {}

/// The states of the first goal keeper model.
#[derive(Debug, Clone, Copy, PartialEq, Eq, Structural)]
pub enum GoalieState {
    Idle,
}

impl GoalieState {
    pub fn default() -> (s: GoalieState)
        ensures
            s == GoalieState::Idle,
    {
        GoalieState::Idle
    }
}

/// The first goal keeper model: a team's keeper and the regions it holds.
#[derive(Debug, Clone, Copy, PartialEq, Eq, Structural)]
pub struct Goalie {
    pub home_region: usize,
    pub default_region: usize,
}

} // verus!
