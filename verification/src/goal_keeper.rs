//! The states of a goal keeper. As for field players, what the keeper sees
//! of the pitch comes in as plain values, and what it does to the ball goes
//! out in its result.
use vstd::prelude::*;

use crate::agent::Agent;
use crate::entity::{EntityId, is_entity};
use crate::messaging::{MessageDispatcher, addressed, sent_at};
use crate::player::{FieldPlayerMessage, GoalKeeperState};
use crate::state_machine::StateMachine;
use crate::team::{TeamRoles, send_all_field_players_home, sent_to_each};

verus! {

/// Entering goal tending: interpose between the ball and the goal, aiming at
/// the rear interpose target.
pub fn TendGoal_enter<P: Copy>(agent: &mut Agent, target: &mut P, ball: EntityId, rear_interpose_target: P)
    ensures
        *final(agent) == (Agent { interpose: Some(ball), ..*old(agent) }),
        *final(target) == rear_interpose_target,
{
    agent.interpose_on(ball);
    *target = rear_interpose_target;
}

/// Tending the goal: follow the ball with the rear interpose target; trap a
/// ball within reach (the result is whether the keeper traps it, which
/// stops the ball) and put it back in play; go out to a ball that comes
/// close; go back home when too far from the goal mouth while the team has
/// the ball.
pub fn TendGoal_execute<P: Copy>(
    entity: EntityId,
    state_machine: &mut StateMachine<GoalKeeperState>,
    target: &mut P,
    roles: &mut TeamRoles,
    rear_interpose_target: P,
    ball_within_keeper_range: bool,
    ball_within_range_for_intercept: bool,
    too_far_from_goal_mouth: bool,
) -> (trap: bool)
    ensures
        *final(target) == rear_interpose_target,
        trap == ball_within_keeper_range,
        trap ==> {
            &&& *final(roles) == (TeamRoles { controlling: Some(entity), ..*old(roles) })
            &&& final(state_machine)@ == old(state_machine)@.changed_to(
                GoalKeeperState::PutBallBackInPlay,
            )
        },
        !trap ==> {
            &&& *final(roles) == *old(roles)
            &&& final(state_machine)@ == (if ball_within_range_for_intercept {
                old(state_machine)@.changed_to(GoalKeeperState::InterceptBall)
            } else if too_far_from_goal_mouth && old(roles).controlling is Some {
                old(state_machine)@.changed_to(GoalKeeperState::ReturnHome)
            } else {
                old(state_machine)@
            })
        },
{
    *target = rear_interpose_target;
    if ball_within_keeper_range {
        roles.controlling = Some(entity);
        state_machine.change_state(GoalKeeperState::PutBallBackInPlay);
        return true;
    }
    if ball_within_range_for_intercept {
        state_machine.change_state(GoalKeeperState::InterceptBall);
        return false;
    }
    let is_team_controlling = roles.controlling.is_some();
    if too_far_from_goal_mouth && is_team_controlling {
        state_machine.change_state(GoalKeeperState::ReturnHome);
    }
    false
}

/// Leaving goal tending: stop interposing.
pub fn TendGoal_exit(agent: &mut Agent)
    ensures
        *final(agent) == (Agent { interpose: None, ..*old(agent) }),
{
    agent.interpose_off();
}

/// Entering the way home: arrive at the target.
pub fn ReturnHome_enter(agent: &mut Agent)
    ensures
        *final(agent) == (Agent { arrive: true, ..*old(agent) }),
{
    agent.arrive_on();
}

/// Going home: head for the home region, and tend the goal again once inside
/// it while the team has the ball.
pub fn ReturnHome_execute<P: Copy>(
    state_machine: &mut StateMachine<GoalKeeperState>,
    target: &mut P,
    roles: &TeamRoles,
    home_position: P,
    in_home_region: bool,
)
    ensures
        *final(target) == home_position,
        final(state_machine)@ == (if in_home_region && roles.controlling is Some {
            old(state_machine)@.changed_to(GoalKeeperState::TendGoal)
        } else {
            old(state_machine)@
        }),
{
    *target = home_position;
    if in_home_region && roles.controlling.is_some() {
        state_machine.change_state(GoalKeeperState::TendGoal);
    }
}

/// Leaving the way home: stop arriving.
pub fn ReturnHome_exit(agent: &mut Agent)
    ensures
        *final(agent) == (Agent { arrive: false, ..*old(agent) }),
{
    agent.arrive_off();
}

/// Entering the interception: pursue the ball.
pub fn InterceptBall_enter(agent: &mut Agent, ball: EntityId)
    ensures
        *final(agent) == (Agent { pursuit: Some(ball), ..*old(agent) }),
{
    agent.pursuit_on(ball);
}

/// Whether the keeper counts as closest to the ball: it is its team's
/// closest player and, when the other team has a closest player, nearer the
/// ball than that one (`nearer_than_opponent`).
pub open spec fn keeper_is_closest(entity: EntityId, roles: TeamRoles, nearer_than_opponent: Option<bool>) -> bool {
    roles.closest == Some(entity) && match nearer_than_opponent {
        Some(nearer) => nearer,
        None => true,
    }
}

/// Intercepting: go back home when too far from the goal mouth, unless the
/// keeper is the player closest to the ball; trap a ball within reach (the
/// result is whether the keeper traps it, which stops the ball) and put it
/// back in play.
pub fn InterceptBall_execute(
    entity: EntityId,
    state_machine: &mut StateMachine<GoalKeeperState>,
    roles: &mut TeamRoles,
    nearer_than_opponent: Option<bool>,
    too_far_from_goal_mouth: bool,
    ball_within_keeper_range: bool,
) -> (trap: bool)
    ensures
        too_far_from_goal_mouth && !keeper_is_closest(entity, *old(roles), nearer_than_opponent) ==> {
            &&& final(state_machine)@ == old(state_machine)@.changed_to(GoalKeeperState::ReturnHome)
            &&& *final(roles) == *old(roles)
            &&& !trap
        },
        !(too_far_from_goal_mouth && !keeper_is_closest(entity, *old(roles), nearer_than_opponent))
            ==> {
            &&& trap == ball_within_keeper_range
            &&& *final(roles) == (if trap {
                TeamRoles { controlling: Some(entity), ..*old(roles) }
            } else {
                *old(roles)
            })
            &&& final(state_machine)@ == (if trap {
                old(state_machine)@.changed_to(GoalKeeperState::PutBallBackInPlay)
            } else {
                old(state_machine)@
            })
        },
        old(roles).closest == Some(entity) && nearer_than_opponent != Some(false) ==> {
            &&& trap == ball_within_keeper_range
            &&& trap ==> final(state_machine)@ == old(state_machine)@.changed_to(
                GoalKeeperState::PutBallBackInPlay,
            ) && final(roles).controlling == Some(entity)
            &&& !trap ==> final(state_machine)@ == old(state_machine)@ && *final(roles) == *old(roles)
        },
        too_far_from_goal_mouth && (old(roles).closest != Some(entity) || nearer_than_opponent
            == Some(false)) ==> !trap && final(state_machine)@ == old(state_machine)@.changed_to(
            GoalKeeperState::ReturnHome,
        ),
{
    let is_closest_player = if is_entity(roles.closest, entity) {
        match nearer_than_opponent {
            Some(nearer) => nearer,
            None => true,
        }
    } else {
        false
    };
    if too_far_from_goal_mouth && !is_closest_player {
        state_machine.change_state(GoalKeeperState::ReturnHome);
        return false;
    }
    if ball_within_keeper_range {
        roles.controlling = Some(entity);
        state_machine.change_state(GoalKeeperState::PutBallBackInPlay);
        return true;
    }
    false
}

/// Leaving the interception: stop pursuing.
pub fn InterceptBall_exit(agent: &mut Agent)
    ensures
        *final(agent) == (Agent { pursuit: None, ..*old(agent) }),
{
    agent.pursuit_off();
}

/// Entering the restart: the keeper controls the ball and every field player
/// in `field_players` is sent home.
pub fn PutBallBackInPlay_enter<P>(
    entity: EntityId,
    roles: &mut TeamRoles,
    player_message_dispatcher: &mut MessageDispatcher<FieldPlayerMessage<P>>,
    now: i64,
    field_players: &Vec<EntityId>,
)
    ensures
        sent_at(old(player_message_dispatcher)@, final(player_message_dispatcher)@, now as int),
        *final(roles) == (TeamRoles { controlling: Some(entity), ..*old(roles) }),
        addressed(final(player_message_dispatcher)@) == addressed(old(player_message_dispatcher)@)
            + sent_to_each(field_players@, FieldPlayerMessage::GoHome),
{
    roles.controlling = Some(entity);
    send_all_field_players_home(player_message_dispatcher, now, field_players);
}

/// Restarting play: when a safe pass was found (`pass`: the receiver and the
/// target) the keeper kicks the ball there (the result says so), gives up
/// control, tells the receiver, and tends the goal again; otherwise it
/// stands still.
pub fn PutBallBackInPlay_execute<P: Copy>(
    entity: EntityId,
    state_machine: &mut StateMachine<GoalKeeperState>,
    roles: &mut TeamRoles,
    field_player_message_dispatcher: &mut MessageDispatcher<FieldPlayerMessage<P>>,
    now: i64,
    pass: Option<(EntityId, P)>,
) -> (passed: bool)
    ensures
        sent_at(old(field_player_message_dispatcher)@, final(field_player_message_dispatcher)@, now as int),
        passed == pass is Some,
        match pass {
            Some((receiver, ball_target)) => {
                &&& *final(roles) == (TeamRoles {
                    controlling: if old(roles).controlling == Some(entity) {
                        None
                    } else {
                        old(roles).controlling
                    },
                    ..*old(roles)
                })
                &&& addressed(final(field_player_message_dispatcher)@) == addressed(
                    old(field_player_message_dispatcher)@,
                ).push((Some(receiver), FieldPlayerMessage::ReceiveBall(ball_target)))
                &&& final(state_machine)@ == old(state_machine)@.changed_to(GoalKeeperState::TendGoal)
            },
            None => {
                &&& *final(roles) == *old(roles)
                &&& final(field_player_message_dispatcher)@ == old(field_player_message_dispatcher)@
                &&& final(state_machine)@ == old(state_machine)@
            },
        },
{
    match pass {
        Some((receiver, ball_target)) => {
            if is_entity(roles.controlling, entity) {
                roles.controlling = None;
            }
            field_player_message_dispatcher.dispatch_message(
                now,
                Some(receiver),
                FieldPlayerMessage::ReceiveBall(ball_target),
            );
            state_machine.change_state(GoalKeeperState::TendGoal);
            true
        },
        None => false,
    }
}


/// A keeper that is its team's closest player, and nearer the ball than the
/// other team's closest player or facing none, counts as closest.
pub proof fn lemma_keeper_nearest_the_ball_is_closest(
    entity: EntityId,
    roles: TeamRoles,
    nearer_than_opponent: Option<bool>,
)
    requires
        roles.closest == Some(entity),
        nearer_than_opponent != Some(false),
    ensures
        keeper_is_closest(entity, roles, nearer_than_opponent),
{
}

/// A keeper that is not its team's closest player, or that the other team's
/// closest player beats to the ball, does not count as closest.
pub proof fn lemma_keeper_beaten_to_the_ball_is_not_closest(
    entity: EntityId,
    roles: TeamRoles,
    nearer_than_opponent: Option<bool>,
)
    requires
        roles.closest != Some(entity) || nearer_than_opponent == Some(false),
    ensures
        !keeper_is_closest(entity, roles, nearer_than_opponent),
{
}

} // verus!
