use vstd::prelude::*;

use crate::entity::EntityId;
use crate::game::{
    GameState, TeamColor, attacking_home_regions, defending_home_regions,
    spec_attacking_home_regions, spec_defending_home_regions,
};
use crate::messaging::{MessageDispatcher, addressed, sent_at};
use crate::player::{FieldPlayerMessage, FieldPlayerState, SoccerPlayer};
use crate::selection::{
    FARTHEST_KEY, best_index, closest_index, is_first_best, is_first_closest, none_closer,
};
use crate::state_machine::{StateKind, StateMachine};

verus! {

/// The players of a team that hold a role: the one a pass is on its way to,
/// the one closest to the ball, the one in control of the ball, and the one
/// supporting it.
#[derive(Debug, Clone, Copy, PartialEq, Eq, Structural)]
pub struct TeamRoles {
    pub receiving: Option<EntityId>,
    pub closest: Option<EntityId>,
    pub controlling: Option<EntityId>,
    pub supporting: Option<EntityId>,
}

impl TeamRoles {
    /// Nobody holds a role.
    pub fn default() -> (r: TeamRoles)
        ensures
            r == (TeamRoles { receiving: None, closest: None, controlling: None, supporting: None }),
    {
        TeamRoles { receiving: None, closest: None, controlling: None, supporting: None }
    }
}

/// The states of a team.
#[derive(Debug, Clone, Copy, PartialEq, Eq, Structural, Hash)]
pub enum SoccerTeamState {
    PrepareForKickOff,
    Defending,
    Attacking,
}

impl StateKind for SoccerTeamState {
    fn same_state(&self, other: &Self) -> (r: bool) {
        *self == *other
    }
}

/// A team, and the spot of the pitch (of type `P`) where a supporting player
/// would help its attack most.
#[derive(Debug, Clone, Copy)]
pub struct SoccerTeam<P> {
    pub best_support_spot: Option<P>,
}

/// The receivers and messages that sending `message` to each of `entities`
/// queues, in order.
pub open spec fn sent_to_each<P>(entities: Seq<EntityId>, message: FieldPlayerMessage<P>) -> Seq<
    (Option<EntityId>, FieldPlayerMessage<P>),
> {
    entities.map_values(|e: EntityId| (Some(e), message))
}

/// The messages queued for a pass request: one, to the controller, when the
/// pass is safe.
pub open spec fn pass_request<P>(
    controller: EntityId,
    receiver: EntityId,
    receiver_position: P,
    pass_safe: bool,
) -> Seq<(Option<EntityId>, FieldPlayerMessage<P>)> {
    if pass_safe {
        seq![(Some(controller), FieldPlayerMessage::PassToMe(receiver, receiver_position))]
    } else {
        seq![]
    }
}

impl<P: Copy> SoccerTeam<P> {
    /// A team with no support spot chosen yet.
    pub fn default() -> (t: SoccerTeam<P>)
        ensures
            t.best_support_spot is None,
    {
        SoccerTeam { best_support_spot: None }
    }

    /// Asks the controller for a pass to `receiver` at `receiver_position`,
    /// when no opponent could intercept such a pass.
    pub fn request_pass(
        &self,
        dispatcher: &mut MessageDispatcher<FieldPlayerMessage<P>>,
        now: i64,
        controller: EntityId,
        receiver: EntityId,
        receiver_position: P,
        pass_safe: bool,
    )
        ensures
            addressed(final(dispatcher)@) == addressed(old(dispatcher)@) + pass_request(
                controller,
                receiver,
                receiver_position,
                pass_safe,
            ),
            sent_at(old(dispatcher)@, final(dispatcher)@, now as int),
    {
        if pass_safe {
            dispatcher.dispatch_message(
                now,
                Some(controller),
                FieldPlayerMessage::PassToMe(receiver, receiver_position),
            );
        }
        proof {
            assert(addressed(old(dispatcher)@) + pass_request(
                controller,
                receiver,
                receiver_position,
                pass_safe,
            ) =~= addressed(dispatcher@));
        }
    }

    /// Makes the first spot with the highest score above zero the team's best
    /// support spot, or none when no score is above zero. Scores are ranked
    /// by the order keys of their non-negative values.
    pub fn determine_best_supporting_position(&mut self, spots: &Vec<P>, score_keys: &Vec<u32>)
        requires
            spots.len() == score_keys.len(),
        ensures
            match final(self).best_support_spot {
                Some(spot) => exists|i: int|
                    is_first_best(score_keys@, 0, i) && spot == spots@[i],
                None => forall|j: int| 0 <= j < score_keys.len() ==> #[trigger] score_keys@[j] <= 0,
            },
    {
        match best_index(score_keys, 0) {
            Some(i) => {
                self.best_support_spot = Some(spots[i]);
                assert(is_first_best(score_keys@, 0, i as int));
            },
            None => {
                self.best_support_spot = None;
            },
        }
    }

    /// The attacker, other than the controller, closest to the best support
    /// spot. Distances are ranked by their order keys.
    pub fn determine_best_supporting_attacker(
        &self,
        teammates: &Vec<EntityId>,
        is_attacker: &Vec<bool>,
        distance_keys: &Vec<u32>,
        controller: EntityId,
    ) -> (best: Option<EntityId>)
        requires
            teammates.len() == is_attacker.len(),
            teammates.len() == distance_keys.len(),
        ensures
            match best {
                Some(e) => exists|i: int|
                    is_first_closest(
                        distance_keys@,
                        supporters(teammates@, is_attacker@, controller),
                        FARTHEST_KEY,
                        i,
                    ) && e == teammates@[i],
                None => none_closer(
                    distance_keys@,
                    supporters(teammates@, is_attacker@, controller),
                    FARTHEST_KEY,
                ),
            },
            match best {
                Some(e) => exists|i: int|
                    0 <= i < teammates.len() && #[trigger] teammates@[i] == e && is_attacker@[i]
                        && e != controller && distance_keys@[i] < FARTHEST_KEY && forall|j: int|
                        0 <= j < teammates.len() && is_attacker@[j] && teammates@[j] != controller
                            ==> distance_keys@[i] <= #[trigger] distance_keys@[j],
                None => forall|j: int|
                    0 <= j < teammates.len() && is_attacker@[j] && teammates@[j] != controller
                        ==> #[trigger] distance_keys@[j] >= FARTHEST_KEY,
            },
    {
        let mut eligible: Vec<bool> = Vec::new();
        let mut i: usize = 0;
        while i < teammates.len()
            invariant
                teammates.len() == is_attacker.len(),
                i <= teammates.len(),
                eligible@ == supporters(teammates@, is_attacker@, controller).take(i as int),
            decreases teammates.len() - i,
        {
            let can_support = is_attacker[i] && !teammates[i].same(&controller);
            eligible.push(can_support);
            proof {
                assert(eligible@ =~= supporters(teammates@, is_attacker@, controller).take(
                    i + 1,
                ));
            }
            i = i + 1;
        }
        assert(eligible@ =~= supporters(teammates@, is_attacker@, controller));
        match closest_index(distance_keys, &eligible, FARTHEST_KEY) {
            Some(k) => {
                assert(is_first_closest(distance_keys@, eligible@, FARTHEST_KEY, k as int));
                proof {
                    assert forall|j: int|
                        0 <= j < teammates.len() && is_attacker@[j] && teammates@[j] != controller
                        implies distance_keys@[k as int] <= #[trigger] distance_keys@[j] by {
                        assert(eligible@[j]);
                    }
                    assert(eligible@[k as int]);
                }
                Some(teammates[k])
            },
            None => {
                proof {
                    assert forall|j: int|
                        0 <= j < teammates.len() && is_attacker@[j] && teammates@[j] != controller
                        implies #[trigger] distance_keys@[j] >= FARTHEST_KEY by {
                        assert(eligible@[j]);
                    }
                }
                None
            },
        }
    }

    /// Makes the player closest to the ball the team's closest player, or
    /// nobody when no player is nearer than the largest finite distance.
    pub fn calculate_closest_player_to_ball(
        &self,
        roles: &mut TeamRoles,
        players: &Vec<EntityId>,
        distance_keys: &Vec<u32>,
    )
        requires
            players.len() == distance_keys.len(),
        ensures
            *final(roles) == (TeamRoles { closest: final(roles).closest, ..*old(roles) }),
            match final(roles).closest {
                Some(e) => exists|i: int|
                    is_first_closest(distance_keys@, everyone(players@.len()), FARTHEST_KEY, i)
                        && e == players@[i],
                None => none_closer(distance_keys@, everyone(players@.len()), FARTHEST_KEY),
            },
            match final(roles).closest {
                Some(e) => exists|i: int|
                    0 <= i < players.len() && #[trigger] players@[i] == e && distance_keys@[i]
                        < FARTHEST_KEY && forall|j: int|
                        0 <= j < players.len() ==> distance_keys@[i] <= #[trigger] distance_keys@[j],
                None => forall|j: int| 0 <= j < players.len() ==> #[trigger] distance_keys@[j] >= FARTHEST_KEY,
            },
    {
        let mut eligible: Vec<bool> = Vec::new();
        let mut i: usize = 0;
        while i < players.len()
            invariant
                i <= players.len(),
                eligible@ == everyone(i as nat),
            decreases players.len() - i,
        {
            eligible.push(true);
            proof {
                assert(eligible@ =~= everyone((i + 1) as nat));
            }
            i = i + 1;
        }
        match closest_index(distance_keys, &eligible, FARTHEST_KEY) {
            Some(k) => {
                assert(is_first_closest(distance_keys@, eligible@, FARTHEST_KEY, k as int));
                proof {
                    assert forall|j: int| 0 <= j < players.len() implies distance_keys@[k as int]
                        <= #[trigger] distance_keys@[j] by {
                        assert(eligible@[j]);
                    }
                }
                roles.closest = Some(players[k]);
            },
            None => {
                proof {
                    assert forall|j: int| 0 <= j < players.len() implies #[trigger] distance_keys@[j]
                        >= FARTHEST_KEY by {
                        assert(eligible@[j]);
                    }
                }
                roles.closest = None;
            },
        }
    }
}

/// Which teammates may support the controller: the attackers other than the
/// controller itself.
pub open spec fn supporters(teammates: Seq<EntityId>, is_attacker: Seq<bool>, controller: EntityId) -> Seq<
    bool,
> {
    Seq::new(teammates.len(), |i: int| is_attacker[i] && teammates[i] != controller)
}

/// Every one of `n` candidates.
pub open spec fn everyone(n: nat) -> Seq<bool> {
    Seq::new(n, |i: int| true)
}

/// Sends every field player of `field_players` back home.
pub fn send_all_field_players_home<P>(
    player_message_dispatcher: &mut MessageDispatcher<FieldPlayerMessage<P>>,
    now: i64,
    field_players: &Vec<EntityId>,
)
    ensures
        addressed(final(player_message_dispatcher)@) == addressed(old(player_message_dispatcher)@)
            + sent_to_each(field_players@, FieldPlayerMessage::GoHome),
        sent_at(old(player_message_dispatcher)@, final(player_message_dispatcher)@, now as int),
{
    let mut i: usize = 0;
    while i < field_players.len()
        invariant
            i <= field_players.len(),
            addressed(player_message_dispatcher@) == addressed(old(player_message_dispatcher)@)
                + sent_to_each(field_players@.take(i as int), FieldPlayerMessage::GoHome),
            sent_at(old(player_message_dispatcher)@, player_message_dispatcher@, now as int),
        decreases field_players.len() - i,
    {
        player_message_dispatcher.dispatch_message(
            now,
            Some(field_players[i]),
            FieldPlayerMessage::GoHome,
        );
        proof {
            assert(sent_to_each(field_players@.take(i + 1), FieldPlayerMessage::GoHome)
                =~= sent_to_each(field_players@.take(i as int), FieldPlayerMessage::GoHome).push(
                (Some(field_players@[i as int]), FieldPlayerMessage::<P>::GoHome),
            ));
        }
        i = i + 1;
    }
    assert(field_players@.take(field_players@.len() as int) =~= field_players@);
}

/// Gives the goal keeper the first of `home_regions` and the field players
/// the others, in order.
pub fn reset_player_home_regions(
    field_players: &mut Vec<SoccerPlayer>,
    goal_keeper: &mut SoccerPlayer,
    home_regions: [usize; 5],
)
    requires
        old(field_players).len() <= 4,
    ensures
        *final(goal_keeper) == (SoccerPlayer { home_region: home_regions@[0], ..*old(goal_keeper) }),
        final(field_players).len() == old(field_players).len(),
        forall|i: int|
            0 <= i < final(field_players).len() ==> #[trigger] final(field_players)@[i] == (SoccerPlayer {
                home_region: home_regions@[i + 1],
                ..old(field_players)@[i]
            }),
{
    goal_keeper.home_region = home_regions[0];
    let mut idx: usize = 0;
    while idx < field_players.len()
        invariant
            old(field_players).len() <= 4,
            idx <= field_players.len(),
            field_players.len() == old(field_players).len(),
            forall|i: int|
                0 <= i < idx ==> #[trigger] field_players@[i] == (SoccerPlayer {
                    home_region: home_regions@[i + 1],
                    ..old(field_players)@[i]
                }),
            forall|i: int| idx <= i < field_players.len() ==> #[trigger] field_players@[i] == old(field_players)@[i],
        decreases field_players.len() - idx,
    {
        field_players[idx].home_region = home_regions[idx + 1];
        idx = idx + 1;
    }
}

/// Whether a field player in `state` holding `home_region` must head for a
/// region among `region_count` regions that exist.
pub open spec fn region_known(state: FieldPlayerState, home_region: usize, region_count: nat) -> bool {
    (state == FieldPlayerState::Wait || state == FieldPlayerState::ReturnToHomeRegion) ==> home_region
        < region_count
}

/// The target a field player steers for after the team's home regions
/// change: its home region's position if it waits or is on its way home,
/// its old target otherwise.
pub open spec fn retargeted<P>(state: FieldPlayerState, home_region: usize, target: P, region_positions: Seq<P>) -> P {
    if state == FieldPlayerState::Wait || state == FieldPlayerState::ReturnToHomeRegion {
        region_positions[home_region as int]
    } else {
        target
    }
}

/// Points the waiting field players, and those on their way home, at the
/// positions of their home regions.
pub fn update_targets_of_waiting_players<P: Copy>(
    states: &Vec<FieldPlayerState>,
    field_players: &Vec<SoccerPlayer>,
    targets: &mut Vec<P>,
    region_positions: &Vec<P>,
)
    requires
        states.len() == field_players.len(),
        states.len() == old(targets).len(),
        forall|i: int|
            0 <= i < states.len() ==> #[trigger] region_known(
                states@[i],
                field_players@[i].home_region,
                region_positions@.len(),
            ),
    ensures
        final(targets).len() == old(targets).len(),
        forall|i: int|
            0 <= i < final(targets).len() ==> #[trigger] final(targets)@[i] == retargeted(
                states@[i],
                field_players@[i].home_region,
                old(targets)@[i],
                region_positions@,
            ),
{
    let mut i: usize = 0;
    while i < targets.len()
        invariant
            states.len() == field_players.len(),
            states.len() == old(targets).len(),
            targets.len() == old(targets).len(),
            i <= targets.len(),
            forall|k: int|
                0 <= k < states.len() ==> #[trigger] region_known(
                    states@[k],
                    field_players@[k].home_region,
                    region_positions@.len(),
                ),
            forall|k: int|
                0 <= k < i ==> #[trigger] targets@[k] == retargeted(
                    states@[k],
                    field_players@[k].home_region,
                    old(targets)@[k],
                    region_positions@,
                ),
            forall|k: int| i <= k < targets.len() ==> #[trigger] targets@[k] == old(targets)@[k],
        decreases targets.len() - i,
    {
        assert(region_known(states@[i as int], field_players@[i as int].home_region, region_positions@.len()));
        if states[i].heads_home_on_region_change() {
            let target = *field_players[i].get_home_region(region_positions);
            targets.set(i, target);
        }
        i = i + 1;
    }
}

/// Moves the team into a formation: the players take `home_regions`, and the
/// waiting players and those on their way home head for their new regions.
fn take_formation<P: Copy>(
    home_regions: [usize; 5],
    field_players: &mut Vec<SoccerPlayer>,
    goal_keeper: &mut SoccerPlayer,
    states: &Vec<FieldPlayerState>,
    targets: &mut Vec<P>,
    region_positions: &Vec<P>,
)
    requires
        old(field_players).len() <= 4,
        states.len() == old(field_players).len(),
        states.len() == old(targets).len(),
        forall|i: int|
            0 <= i < states.len() ==> #[trigger] region_known(
                states@[i],
                home_regions@[i + 1],
                region_positions@.len(),
            ),
    ensures
        *final(goal_keeper) == (SoccerPlayer { home_region: home_regions@[0], ..*old(goal_keeper) }),
        final(field_players).len() == old(field_players).len(),
        forall|i: int|
            0 <= i < final(field_players).len() ==> #[trigger] final(field_players)@[i] == (SoccerPlayer {
                home_region: home_regions@[i + 1],
                ..old(field_players)@[i]
            }),
        final(targets).len() == old(targets).len(),
        forall|i: int|
            0 <= i < final(targets).len() ==> #[trigger] final(targets)@[i] == retargeted(
                states@[i],
                home_regions@[i + 1],
                old(targets)@[i],
                region_positions@,
            ),
{
    reset_player_home_regions(field_players, goal_keeper, home_regions);
    assert forall|i: int| 0 <= i < states.len() implies #[trigger] region_known(
        states@[i],
        field_players@[i].home_region,
        region_positions@.len(),
    ) by {
        assert(field_players@[i].home_region == home_regions@[i + 1]);
    }
    update_targets_of_waiting_players(states, field_players, targets, region_positions);
    assert forall|i: int| 0 <= i < targets.len() implies #[trigger] targets@[i] == retargeted(
        states@[i],
        home_regions@[i + 1],
        old(targets)@[i],
        region_positions@,
    ) by {
        assert(field_players@[i].home_region == home_regions@[i + 1]);
    }
}

/// Entering kick-off preparation: the team is no longer ready, nobody holds a
/// role, and every field player of the team is sent home.
pub fn PrepareForKickOff_enter<P>(
    color: TeamColor,
    game_state: &mut GameState,
    roles: &mut TeamRoles,
    player_message_dispatcher: &mut MessageDispatcher<FieldPlayerMessage<P>>,
    now: i64,
    field_players: &Vec<EntityId>,
)
    ensures
        *final(game_state) == (match color {
            TeamColor::Red => GameState { red_team_ready: false, ..*old(game_state) },
            TeamColor::Blue => GameState { blue_team_ready: false, ..*old(game_state) },
        }),
        *final(roles) == (TeamRoles { receiving: None, closest: None, controlling: None, supporting: None }),
        addressed(final(player_message_dispatcher)@) == addressed(old(player_message_dispatcher)@)
            + sent_to_each(field_players@, FieldPlayerMessage::GoHome),
        sent_at(old(player_message_dispatcher)@, final(player_message_dispatcher)@, now as int),
{
    game_state.set_team_ready(color, false);
    *roles = TeamRoles::default();
    send_all_field_players_home(player_message_dispatcher, now, field_players);
}

/// Kick-off preparation ends, and the team starts defending, once every
/// player is in its home region.
pub fn PrepareForKickOff_execute(
    state_machine: &mut StateMachine<SoccerTeamState>,
    players_at_home: &Vec<bool>,
)
    ensures
        (forall|i: int| 0 <= i < players_at_home.len() ==> #[trigger] players_at_home@[i])
            ==> final(state_machine)@ == old(state_machine)@.changed_to(SoccerTeamState::Defending),
        !(forall|i: int| 0 <= i < players_at_home.len() ==> #[trigger] players_at_home@[i])
            ==> final(state_machine)@ == old(state_machine)@,
{
    let mut i: usize = 0;
    while i < players_at_home.len()
        invariant
            i <= players_at_home.len(),
            forall|k: int| 0 <= k < i ==> #[trigger] players_at_home@[k],
        decreases players_at_home.len() - i,
    {
        if !players_at_home[i] {
            return;
        }
        i = i + 1;
    }
    state_machine.change_state(SoccerTeamState::Defending);
}

/// Leaving kick-off preparation: the team is ready.
pub fn PrepareForKickOff_exit(color: TeamColor, game_state: &mut GameState)
    ensures
        *final(game_state) == (match color {
            TeamColor::Red => GameState { red_team_ready: true, ..*old(game_state) },
            TeamColor::Blue => GameState { blue_team_ready: true, ..*old(game_state) },
        }),
{
    game_state.set_team_ready(color, true);
}

/// Entering defence: the players take the team's defending home regions.
pub fn Defending_enter<P: Copy>(
    color: TeamColor,
    field_players: &mut Vec<SoccerPlayer>,
    goal_keeper: &mut SoccerPlayer,
    states: &Vec<FieldPlayerState>,
    targets: &mut Vec<P>,
    region_positions: &Vec<P>,
)
    requires
        old(field_players).len() <= 4,
        states.len() == old(field_players).len(),
        states.len() == old(targets).len(),
        forall|i: int|
            0 <= i < states.len() ==> #[trigger] region_known(
                states@[i],
                spec_defending_home_regions(color)[i + 1],
                region_positions@.len(),
            ),
    ensures
        *final(goal_keeper) == (SoccerPlayer {
            home_region: spec_defending_home_regions(color)[0],
            ..*old(goal_keeper)
        }),
        final(field_players).len() == old(field_players).len(),
        forall|i: int|
            0 <= i < final(field_players).len() ==> #[trigger] final(field_players)@[i] == (SoccerPlayer {
                home_region: spec_defending_home_regions(color)[i + 1],
                ..old(field_players)@[i]
            }),
        final(targets).len() == old(targets).len(),
        forall|i: int|
            0 <= i < final(targets).len() ==> #[trigger] final(targets)@[i] == retargeted(
                states@[i],
                spec_defending_home_regions(color)[i + 1],
                old(targets)@[i],
                region_positions@,
            ),
{
    let home_regions = defending_home_regions(color);
    take_formation(home_regions, field_players, goal_keeper, states, targets, region_positions);
}

/// A defending team attacks as soon as one of its players controls the ball.
pub fn Defending_execute(state_machine: &mut StateMachine<SoccerTeamState>, roles: &TeamRoles)
    ensures
        roles.controlling is Some ==> final(state_machine)@ == old(state_machine)@.changed_to(
            SoccerTeamState::Attacking,
        ),
        roles.controlling is None ==> final(state_machine)@ == old(state_machine)@,
{
    if roles.controlling.is_some() {
        state_machine.change_state(SoccerTeamState::Attacking);
    }
}

/// Entering attack: the players take the team's attacking home regions.
pub fn Attacking_enter<P: Copy>(
    color: TeamColor,
    field_players: &mut Vec<SoccerPlayer>,
    goal_keeper: &mut SoccerPlayer,
    states: &Vec<FieldPlayerState>,
    targets: &mut Vec<P>,
    region_positions: &Vec<P>,
)
    requires
        old(field_players).len() <= 4,
        states.len() == old(field_players).len(),
        states.len() == old(targets).len(),
        forall|i: int|
            0 <= i < states.len() ==> #[trigger] region_known(
                states@[i],
                spec_attacking_home_regions(color)[i + 1],
                region_positions@.len(),
            ),
    ensures
        *final(goal_keeper) == (SoccerPlayer {
            home_region: spec_attacking_home_regions(color)[0],
            ..*old(goal_keeper)
        }),
        final(field_players).len() == old(field_players).len(),
        forall|i: int|
            0 <= i < final(field_players).len() ==> #[trigger] final(field_players)@[i] == (SoccerPlayer {
                home_region: spec_attacking_home_regions(color)[i + 1],
                ..old(field_players)@[i]
            }),
        final(targets).len() == old(targets).len(),
        forall|i: int|
            0 <= i < final(targets).len() ==> #[trigger] final(targets)@[i] == retargeted(
                states@[i],
                spec_attacking_home_regions(color)[i + 1],
                old(targets)@[i],
                region_positions@,
            ),
{
    let home_regions = attacking_home_regions(color);
    take_formation(home_regions, field_players, goal_keeper, states, targets, region_positions);
}

/// An attacking team falls back to defence when it loses the ball; while it
/// keeps the ball its best support spot must be worked out again (the
/// result says so).
pub fn Attacking_execute(state_machine: &mut StateMachine<SoccerTeamState>, roles: &TeamRoles) -> (recompute_support: bool)
    ensures
        recompute_support == roles.controlling is Some,
        roles.controlling is None ==> final(state_machine)@ == old(state_machine)@.changed_to(
            SoccerTeamState::Defending,
        ),
        roles.controlling is Some ==> final(state_machine)@ == old(state_machine)@,
{
    if roles.controlling.is_some() {
        true
    } else {
        state_machine.change_state(SoccerTeamState::Defending);
        false
    }
}

/// Leaving attack: nobody supports the attacker any more.
pub fn Attacking_exit(roles: &mut TeamRoles)
    ensures
        *final(roles) == (TeamRoles { supporting: None, ..*old(roles) }),
{
    roles.supporting = None;
}

/// The messages that choosing `best` as supporting player queues, when
/// `supporting` supported before.
pub open spec fn support_messages<P>(supporting: Option<EntityId>, best: EntityId) -> Seq<
    (Option<EntityId>, FieldPlayerMessage<P>),
> {
    match supporting {
        Some(s) => if s != best {
            seq![(Some(s), FieldPlayerMessage::GoHome), (Some(best), FieldPlayerMessage::SupportAttacker)]
        } else {
            seq![(Some(best), FieldPlayerMessage::SupportAttacker)]
        },
        None => seq![(Some(best), FieldPlayerMessage::SupportAttacker)],
    }
}

/// Makes `best_supporting` the team's supporting player: a different player
/// that supported before is sent home, and the new one is told to support
/// the attacker.
pub fn find_support<P>(
    roles: &mut TeamRoles,
    message_dispatcher: &mut MessageDispatcher<FieldPlayerMessage<P>>,
    now: i64,
    best_supporting: EntityId,
)
    ensures
        *final(roles) == (TeamRoles { supporting: Some(best_supporting), ..*old(roles) }),
        addressed(final(message_dispatcher)@) == addressed(old(message_dispatcher)@)
            + support_messages::<P>(old(roles).supporting, best_supporting),
        sent_at(old(message_dispatcher)@, final(message_dispatcher)@, now as int),
{
    match roles.supporting {
        Some(supporting) => {
            if !supporting.same(&best_supporting) {
                roles.supporting = None;
                message_dispatcher.dispatch_message(now, Some(supporting), FieldPlayerMessage::GoHome);
                roles.supporting = Some(best_supporting);
            }
            message_dispatcher.dispatch_message(
                now,
                Some(best_supporting),
                FieldPlayerMessage::SupportAttacker,
            );
        },
        None => {
            roles.supporting = Some(best_supporting);
            message_dispatcher.dispatch_message(
                now,
                Some(best_supporting),
                FieldPlayerMessage::SupportAttacker,
            );
        },
    }
    proof {
        assert(addressed(old(message_dispatcher)@) + support_messages::<P>(
            old(roles).supporting,
            best_supporting,
        ) =~= addressed(message_dispatcher@));
    }
}

/// A goal was scored into the goal of `color`'s team: that team's score goes
/// up by one and every team prepares for kick-off.
pub fn goal_scored_event_handler(
    game_state: &mut GameState,
    teams: &mut Vec<StateMachine<SoccerTeamState>>,
    color: TeamColor,
)
    requires
        old(game_state).spec_score(color) < usize::MAX,
    ensures
        final(game_state).spec_score(color) == old(game_state).spec_score(color) + 1,
        final(game_state).spec_score(color.other()) == old(game_state).spec_score(color.other()),
        final(game_state).red_team_ready == old(game_state).red_team_ready,
        final(game_state).blue_team_ready == old(game_state).blue_team_ready,
        final(teams).len() == old(teams).len(),
        forall|i: int|
            0 <= i < final(teams).len() ==> #[trigger] final(teams)@[i]@ == old(teams)@[i]@.changed_to(
                SoccerTeamState::PrepareForKickOff,
            ),
{
    game_state.record_goal(color);
    let mut i: usize = 0;
    while i < teams.len()
        invariant
            i <= teams.len(),
            teams.len() == old(teams).len(),
            forall|k: int|
                0 <= k < i ==> #[trigger] teams@[k]@ == old(teams)@[k]@.changed_to(
                    SoccerTeamState::PrepareForKickOff,
                ),
            forall|k: int| i <= k < teams.len() ==> #[trigger] teams@[k]@ == old(teams)@[k]@,
        decreases teams.len() - i,
    {
        teams[i].change_state(SoccerTeamState::PrepareForKickOff);
        i = i + 1;
    }
}


/// The supporting attacker is the nearest candidate: every attacker other
/// than the controller is one, and none is nearer than the chosen one.
pub proof fn lemma_supporter_is_nearest_attacker(
    teammates: Seq<EntityId>,
    is_attacker: Seq<bool>,
    distance_keys: Seq<u32>,
    controller: EntityId,
    i: int,
    j: int,
)
    requires
        teammates.len() == is_attacker.len(),
        teammates.len() == distance_keys.len(),
        is_first_closest(distance_keys, supporters(teammates, is_attacker, controller), FARTHEST_KEY, i),
        0 <= j < teammates.len(),
        is_attacker[j],
        teammates[j] != controller,
    ensures
        is_attacker[i],
        teammates[i] != controller,
        distance_keys[i] < FARTHEST_KEY,
        distance_keys[i] <= distance_keys[j],
{
    assert(supporters(teammates, is_attacker, controller)[j]);
}

/// No supporting attacker is found only when every attacker other than the
/// controller is at least the largest finite distance away.
pub proof fn lemma_no_supporter_means_all_far(
    teammates: Seq<EntityId>,
    is_attacker: Seq<bool>,
    distance_keys: Seq<u32>,
    controller: EntityId,
    j: int,
)
    requires
        teammates.len() == is_attacker.len(),
        teammates.len() == distance_keys.len(),
        none_closer(distance_keys, supporters(teammates, is_attacker, controller), FARTHEST_KEY),
        0 <= j < teammates.len(),
        is_attacker[j],
        teammates[j] != controller,
    ensures
        distance_keys[j] >= FARTHEST_KEY,
{
    assert(supporters(teammates, is_attacker, controller)[j]);
}

/// The player closest to the ball is nearer than or as near as every player
/// of the list: each of them is a candidate.
pub proof fn lemma_closest_player_is_nearest(distance_keys: Seq<u32>, i: int, j: int)
    requires
        is_first_closest(distance_keys, everyone(distance_keys.len()), FARTHEST_KEY, i),
        0 <= j < distance_keys.len(),
    ensures
        distance_keys[i] < FARTHEST_KEY,
        distance_keys[i] <= distance_keys[j],
{
    assert(everyone(distance_keys.len())[j]);
}

/// Nobody is closest to the ball only when every player is at least the
/// largest finite distance away.
pub proof fn lemma_no_closest_means_all_far(distance_keys: Seq<u32>, j: int)
    requires
        none_closer(distance_keys, everyone(distance_keys.len()), FARTHEST_KEY),
        0 <= j < distance_keys.len(),
    ensures
        distance_keys[j] >= FARTHEST_KEY,
{
    assert(everyone(distance_keys.len())[j]);
}

} // verus!
