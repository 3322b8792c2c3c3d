//! The states of a field player. Each function decides what one field
//! player does in one state; what it reads of the pitch (distances, whether
//! a pass is safe) comes in as plain values, and what it does to the bodies
//! (kicks, halting) goes out in its result.
use vstd::prelude::*;

use crate::agent::Agent;
use crate::entity::{EntityId, is_entity};
use crate::messaging::{MessageDispatcher, addressed, sent_at};
use crate::player::{FieldPlayer, FieldPlayerMessage, FieldPlayerState, SoccerPlayer};
use crate::state_machine::StateMachine;
use crate::team::{SoccerTeam, TeamRoles, pass_request};

verus! {

/// What handling a message led to.
#[derive(Debug, Clone, Copy, PartialEq, Eq, Structural)]
pub enum MessageOutcome<P> {
    /// The message was handled; go on with the next one.
    Handled,
    /// No further message is handled this round.
    Stop,
    /// The ball was passed to `receiver` at `receiver_position`: kick it there,
    /// and look for support for the team.
    Passed { receiver: EntityId, receiver_position: P },
}

/// Whether a field player may only run at the slower speed of a player with
/// the ball: it controls the ball and has it within receiving range.
pub fn GlobalState_execute(
    entity: EntityId,
    controlling: Option<EntityId>,
    ball_within_receiving_range: bool,
) -> (with_ball: bool)
    ensures
        with_ball == (controlling == Some(entity) && ball_within_receiving_range),
{
    is_entity(controlling, entity) && ball_within_receiving_range
}

/// Handles one message sent to a field player.
pub fn GlobalState_on_message<P: Copy>(
    message: FieldPlayerMessage<P>,
    state_machine: &mut StateMachine<FieldPlayerState>,
    target: &mut P,
    player: &mut SoccerPlayer,
    team: &SoccerTeam<P>,
    has_receiver: bool,
    ball_within_kicking_range: bool,
    message_dispatcher: &mut MessageDispatcher<FieldPlayerMessage<P>>,
    now: i64,
) -> (outcome: MessageOutcome<P>)
    requires
        message is SupportAttacker && old(state_machine)@.current != FieldPlayerState::SupportAttacker
            ==> team.best_support_spot is Some,
    ensures
        sent_at(old(message_dispatcher)@, final(message_dispatcher)@, now as int),
        match message {
            FieldPlayerMessage::ReceiveBall(position) => {
                &&& *final(target) == position
                &&& final(state_machine)@ == old(state_machine)@.changed_to(FieldPlayerState::ReceiveBall)
                &&& *final(player) == *old(player)
                &&& final(message_dispatcher)@ == old(message_dispatcher)@
                &&& outcome == MessageOutcome::<P>::Handled
            },
            FieldPlayerMessage::SupportAttacker => if old(state_machine)@.current
                == FieldPlayerState::SupportAttacker {
                &&& *final(target) == *old(target)
                &&& final(state_machine)@ == old(state_machine)@
                &&& *final(player) == *old(player)
                &&& final(message_dispatcher)@ == old(message_dispatcher)@
                &&& outcome == MessageOutcome::<P>::Stop
            } else {
                &&& *final(target) == team.best_support_spot->0
                &&& final(state_machine)@ == old(state_machine)@.changed_to(
                    FieldPlayerState::SupportAttacker,
                )
                &&& *final(player) == *old(player)
                &&& final(message_dispatcher)@ == old(message_dispatcher)@
                &&& outcome == MessageOutcome::<P>::Handled
            },
            FieldPlayerMessage::GoHome => {
                &&& *final(target) == *old(target)
                &&& final(state_machine)@ == old(state_machine)@.changed_to(
                    FieldPlayerState::ReturnToHomeRegion,
                )
                &&& *final(player) == (SoccerPlayer {
                    home_region: old(player).default_region,
                    ..*old(player)
                })
                &&& final(message_dispatcher)@ == old(message_dispatcher)@
                &&& outcome == MessageOutcome::<P>::Handled
            },
            FieldPlayerMessage::Wait => {
                &&& *final(target) == *old(target)
                &&& final(state_machine)@ == old(state_machine)@.changed_to(FieldPlayerState::Wait)
                &&& *final(player) == *old(player)
                &&& final(message_dispatcher)@ == old(message_dispatcher)@
                &&& outcome == MessageOutcome::<P>::Handled
            },
            FieldPlayerMessage::PassToMe(receiver, receiver_position) => if has_receiver
                || !ball_within_kicking_range {
                &&& *final(target) == *old(target)
                &&& final(state_machine)@ == old(state_machine)@
                &&& *final(player) == *old(player)
                &&& final(message_dispatcher)@ == old(message_dispatcher)@
                &&& outcome == MessageOutcome::<P>::Stop
            } else {
                &&& *final(target) == *old(target)
                &&& final(state_machine)@ == old(state_machine)@.changed_to(FieldPlayerState::Wait)
                &&& *final(player) == *old(player)
                &&& addressed(final(message_dispatcher)@) == addressed(old(message_dispatcher)@).push(
                    (Some(receiver), FieldPlayerMessage::ReceiveBall(receiver_position)),
                )
                &&& outcome == (MessageOutcome::Passed { receiver, receiver_position })
            },
        },
{
    match message {
        FieldPlayerMessage::ReceiveBall(position) => {
            *target = position;
            state_machine.change_state(FieldPlayerState::ReceiveBall);
            MessageOutcome::Handled
        },
        FieldPlayerMessage::SupportAttacker => {
            if state_machine.is_in_state(FieldPlayerState::SupportAttacker) {
                return MessageOutcome::Stop;
            }
            *target = match team.best_support_spot {
                Some(spot) => spot,
                None => *target,
            };
            state_machine.change_state(FieldPlayerState::SupportAttacker);
            MessageOutcome::Handled
        },
        FieldPlayerMessage::GoHome => {
            player.home_region = player.default_region;
            state_machine.change_state(FieldPlayerState::ReturnToHomeRegion);
            MessageOutcome::Handled
        },
        FieldPlayerMessage::Wait => {
            state_machine.change_state(FieldPlayerState::Wait);
            MessageOutcome::Handled
        },
        FieldPlayerMessage::PassToMe(receiver, receiver_position) => {
            // the ball must be within reach, and nobody may be waiting for
            // another pass
            if has_receiver || !ball_within_kicking_range {
                return MessageOutcome::Stop;
            }
            message_dispatcher.dispatch_message(
                now,
                Some(receiver),
                FieldPlayerMessage::ReceiveBall(receiver_position),
            );
            state_machine.change_state(FieldPlayerState::Wait);
            MessageOutcome::Passed { receiver, receiver_position }
        },
    }
}

/// Entering the chase: seek the ball.
pub fn ChaseBall_enter(agent: &mut Agent)
    ensures
        *final(agent) == (Agent { seek: true, ..*old(agent) }),
{
    agent.seek_on();
}

/// Chasing the ball: kick it once within range, keep chasing while closest
/// to it, go home otherwise.
pub fn ChaseBall_execute<P: Copy>(
    entity: EntityId,
    state_machine: &mut StateMachine<FieldPlayerState>,
    target: &mut P,
    ball_within_kicking_range: bool,
    closest: Option<EntityId>,
    ball_position: P,
)
    ensures
        ball_within_kicking_range ==> final(state_machine)@ == old(state_machine)@.changed_to(
            FieldPlayerState::KickBall,
        ) && *final(target) == *old(target),
        !ball_within_kicking_range && closest == Some(entity) ==> final(state_machine)@ == old(
            state_machine,
        )@ && *final(target) == ball_position,
        !ball_within_kicking_range && closest != Some(entity) ==> final(state_machine)@ == old(
            state_machine,
        )@.changed_to(FieldPlayerState::ReturnToHomeRegion) && *final(target) == *old(target),
{
    if ball_within_kicking_range {
        state_machine.change_state(FieldPlayerState::KickBall);
        return ;
    }
    if is_entity(closest, entity) {
        *target = ball_position;
        return ;
    }
    state_machine.change_state(FieldPlayerState::ReturnToHomeRegion);
}

/// Leaving the chase: stop seeking.
pub fn ChaseBall_exit(agent: &mut Agent)
    ensures
        *final(agent) == (Agent { seek: false, ..*old(agent) }),
{
    agent.seek_off();
}

/// Entering the wait: before the game is on, wait in the home region.
pub fn Wait_enter<P: Copy>(game_on: bool, target: &mut P, home_position: P)
    ensures
        *final(target) == (if game_on {
            *old(target)
        } else {
            home_position
        }),
{
    if !game_on {
        *target = home_position;
    }
}

/// Whether a player that waits or supports, at its target, asks the
/// controller `controller` for a pass: it is another player than the
/// controller and nearer the opponent's goal.
pub open spec fn asks_for_pass(entity: EntityId, controller: Option<(EntityId, bool)>, ahead_of_attacker: bool) -> bool {
    controller matches Some((c, _)) && c != entity && ahead_of_attacker
}

/// Whether a player that waits at its target goes after the ball: the game
/// is on, it is the closest player, nobody is receiving a pass, and the goal
/// keeper does not hold the ball.
pub open spec fn chases_from_wait(
    entity: EntityId,
    controller: Option<(EntityId, bool)>,
    game_on: bool,
    closest: Option<EntityId>,
    has_receiver: bool,
) -> bool {
    &&& game_on
    &&& closest == Some(entity)
    &&& !has_receiver
    &&& !(controller matches Some((_, true)))
}

/// Waiting: a player pushed off its target arrives back at it; a player at
/// its target halts facing the ball (the result is whether it halts), asks
/// for a pass when ahead of the controller, and otherwise chases the ball
/// when it is the closest player and nobody else is after it. `controller`
/// is the team's controlling player and whether it is the goal keeper.
pub fn Wait_execute<P: Copy>(
    entity: EntityId,
    state_machine: &mut StateMachine<FieldPlayerState>,
    agent: &mut Agent,
    team: &SoccerTeam<P>,
    player_message_dispatcher: &mut MessageDispatcher<FieldPlayerMessage<P>>,
    now: i64,
    at_target: bool,
    controller: Option<(EntityId, bool)>,
    ahead_of_attacker: bool,
    pass_safe: bool,
    position: P,
    game_on: bool,
    closest: Option<EntityId>,
    has_receiver: bool,
) -> (halt: bool)
    ensures
        sent_at(old(player_message_dispatcher)@, final(player_message_dispatcher)@, now as int),
        halt == at_target,
        !at_target ==> {
            &&& *final(agent) == (Agent { arrive: true, ..*old(agent) })
            &&& final(state_machine)@ == old(state_machine)@
            &&& final(player_message_dispatcher)@ == old(player_message_dispatcher)@
        },
        at_target ==> *final(agent) == (Agent { arrive: false, ..*old(agent) }),
        at_target && asks_for_pass(entity, controller, ahead_of_attacker) ==> {
            &&& final(state_machine)@ == old(state_machine)@
            &&& addressed(final(player_message_dispatcher)@) == addressed(
                old(player_message_dispatcher)@,
            ) + pass_request((controller->0).0, entity, position, pass_safe)
        },
        at_target && !asks_for_pass(entity, controller, ahead_of_attacker) ==> {
            &&& final(player_message_dispatcher)@ == old(player_message_dispatcher)@
            &&& final(state_machine)@ == (if chases_from_wait(
                entity,
                controller,
                game_on,
                closest,
                has_receiver,
            ) {
                old(state_machine)@.changed_to(FieldPlayerState::ChaseBall)
            } else {
                old(state_machine)@
            })
        },
        at_target && !asks_for_pass(entity, controller, ahead_of_attacker) && game_on && closest
            == Some(entity) && !has_receiver && (controller is None || !(controller->0).1)
            ==> final(state_machine)@ == old(state_machine)@.changed_to(FieldPlayerState::ChaseBall),
        at_target && !(game_on && closest == Some(entity) && !has_receiver && (controller is None
            || !(controller->0).1)) ==> final(state_machine)@ == old(state_machine)@,
{
    // get back to the target after being bumped off it
    if !at_target {
        if !agent.arrive {
            agent.arrive_on();
        }
        return false;
    }
    if agent.arrive {
        agent.arrive_off();
    }
    let mut controller_is_goal_keeper = false;
    if let Some((controller_entity, is_goal_keeper)) = controller {
        controller_is_goal_keeper = is_goal_keeper;
        // a player further up the field than the controller asks for a pass
        if !controller_entity.same(&entity) && ahead_of_attacker {
            team.request_pass(
                player_message_dispatcher,
                now,
                controller_entity,
                entity,
                position,
                pass_safe,
            );
            return true;
        }
    }
    if game_on {
        if is_entity(closest, entity) && !has_receiver && !controller_is_goal_keeper {
            state_machine.change_state(FieldPlayerState::ChaseBall);
        }
    }
    true
}

/// Entering the reception of a pass: the player becomes the team's
/// receiving and controlling player, and either arrives at the pass target
/// or pursues the ball.
pub fn ReceiveBall_enter(
    entity: EntityId,
    roles: &mut TeamRoles,
    agent: &mut Agent,
    use_arrive: bool,
    ball: EntityId,
)
    ensures
        *final(roles) == (TeamRoles {
            receiving: Some(entity),
            controlling: Some(entity),
            ..*old(roles)
        }),
        *final(agent) == (if use_arrive {
            Agent { arrive: true, ..*old(agent) }
        } else {
            Agent { pursuit: Some(ball), ..*old(agent) }
        }),
{
    roles.controlling = None;
    roles.receiving = None;
    roles.receiving = Some(entity);
    roles.controlling = Some(entity);
    if use_arrive {
        agent.arrive_on();
    } else {
        agent.pursuit_on(ball);
    }
}

/// Receiving a pass: chase the ball once it is within range or the team lost
/// control; otherwise follow the ball when pursuing it, and halt facing the
/// ball on arrival (the result is whether it halts). `at_ball` is whether the
/// player is at the ball's position, `at_target` whether at its target.
pub fn ReceiveBall_execute<P: Copy>(
    state_machine: &mut StateMachine<FieldPlayerState>,
    agent: &mut Agent,
    target: &mut P,
    ball_within_receiving_range: bool,
    has_controller: bool,
    at_ball: bool,
    at_target: bool,
    ball_position: P,
) -> (halt: bool)
    ensures
        ball_within_receiving_range || !has_controller ==> {
            &&& final(state_machine)@ == old(state_machine)@.changed_to(FieldPlayerState::ChaseBall)
            &&& *final(agent) == *old(agent)
            &&& *final(target) == *old(target)
            &&& !halt
        },
        !ball_within_receiving_range && has_controller ==> {
            &&& final(state_machine)@ == old(state_machine)@
            &&& *final(target) == (if old(agent).pursuit is Some {
                ball_position
            } else {
                *old(target)
            })
            &&& halt == (if old(agent).pursuit is Some {
                at_ball
            } else {
                at_target
            })
            &&& *final(agent) == (if halt {
                Agent { arrive: false, pursuit: None, ..*old(agent) }
            } else {
                *old(agent)
            })
        },
{
    if ball_within_receiving_range || !has_controller {
        state_machine.change_state(FieldPlayerState::ChaseBall);
        return false;
    }
    let pursuing = agent.pursuit.is_some();
    if pursuing {
        *target = ball_position;
    }
    let arrived = if pursuing {
        at_ball
    } else {
        at_target
    };
    if arrived {
        agent.arrive_off();
        agent.pursuit_off();
    }
    arrived
}

/// Leaving the reception: stop arriving and pursuing; nobody is receiving.
pub fn ReceiveBall_exit(agent: &mut Agent, roles: &mut TeamRoles)
    ensures
        *final(agent) == (Agent { arrive: false, pursuit: None, ..*old(agent) }),
        *final(roles) == (TeamRoles { receiving: None, ..*old(roles) }),
{
    agent.arrive_off();
    agent.pursuit_off();
    roles.receiving = None;
}

/// Entering the kick: the player controls the ball, and goes back to chasing
/// it while its kick is on cooldown.
pub fn KickBall_enter(
    entity: EntityId,
    state_machine: &mut StateMachine<FieldPlayerState>,
    roles: &mut TeamRoles,
    field_player: &FieldPlayer,
)
    ensures
        *final(roles) == (TeamRoles { controlling: Some(entity), ..*old(roles) }),
        final(state_machine)@ == (if field_player.kick_cooldown@.available {
            old(state_machine)@
        } else {
            old(state_machine)@.changed_to(FieldPlayerState::ChaseBall)
        }),
{
    roles.controlling = Some(entity);
    if !field_player.is_ready_for_next_kick() {
        state_machine.change_state(FieldPlayerState::ChaseBall);
    }
}

/// What a kicking player does with the ball.
#[derive(Debug, Clone, Copy, PartialEq, Eq, Structural)]
pub enum KickOutcome<P> {
    /// The ball cannot be kicked; the player chases it.
    Chase,
    /// The player shoots at the goal and the team looks for support.
    Shoot,
    /// The player passes to `receiver` at `target` and the team looks for
    /// support.
    Pass { receiver: EntityId, target: P },
    /// The player dribbles up the field and the team looks for support.
    Dribble,
}

/// The outcome of a kick attempt.
pub open spec fn kick_outcome<P>(
    has_receiver: bool,
    controller_is_goal_keeper: bool,
    ball_behind: bool,
    can_shoot: bool,
    attempt_pot_shot: bool,
    threatened: bool,
    pass: Option<(EntityId, P)>,
) -> KickOutcome<P> {
    if has_receiver || controller_is_goal_keeper || ball_behind {
        KickOutcome::Chase
    } else if can_shoot || attempt_pot_shot {
        KickOutcome::Shoot
    } else if threatened && pass is Some {
        KickOutcome::Pass { receiver: (pass->0).0, target: (pass->0).1 }
    } else {
        KickOutcome::Dribble
    }
}

/// Kicking: the ball cannot be kicked while a pass is under way, while the
/// goal keeper holds it, or when it is behind the player; otherwise the
/// player shoots when it can (or tries its luck), passes when threatened and
/// a receiver is found (`pass`: the receiver and the target), and dribbles
/// otherwise.
pub fn KickBall_execute<P: Copy>(
    state_machine: &mut StateMachine<FieldPlayerState>,
    message_dispatcher: &mut MessageDispatcher<FieldPlayerMessage<P>>,
    now: i64,
    has_receiver: bool,
    controller_is_goal_keeper: bool,
    ball_behind: bool,
    can_shoot: bool,
    attempt_pot_shot: bool,
    threatened: bool,
    pass: Option<(EntityId, P)>,
) -> (outcome: KickOutcome<P>)
    ensures
        sent_at(old(message_dispatcher)@, final(message_dispatcher)@, now as int),
        outcome == kick_outcome(
            has_receiver,
            controller_is_goal_keeper,
            ball_behind,
            can_shoot,
            attempt_pot_shot,
            threatened,
            pass,
        ),
        final(state_machine)@ == old(state_machine)@.changed_to(
            match outcome {
                KickOutcome::Chase => FieldPlayerState::ChaseBall,
                KickOutcome::Shoot => FieldPlayerState::Wait,
                KickOutcome::Pass { .. } => FieldPlayerState::Wait,
                KickOutcome::Dribble => FieldPlayerState::Dribble,
            },
        ),
        match outcome {
            KickOutcome::Pass { receiver, target } => addressed(final(message_dispatcher)@)
                == addressed(old(message_dispatcher)@).push(
                (Some(receiver), FieldPlayerMessage::ReceiveBall(target)),
            ),
            _ => final(message_dispatcher)@ == old(message_dispatcher)@,
        },
        has_receiver || controller_is_goal_keeper || ball_behind ==> outcome == KickOutcome::<P>::Chase,
        !has_receiver && !controller_is_goal_keeper && !ball_behind && (can_shoot || attempt_pot_shot)
            ==> outcome == KickOutcome::<P>::Shoot && final(state_machine)@ == old(
            state_machine,
        )@.changed_to(FieldPlayerState::Wait),
        !has_receiver && !controller_is_goal_keeper && !ball_behind && !can_shoot && !attempt_pot_shot
            && threatened && pass is Some ==> outcome == (KickOutcome::Pass {
            receiver: (pass->0).0,
            target: (pass->0).1,
        }),
        !has_receiver && !controller_is_goal_keeper && !ball_behind && !can_shoot && !attempt_pot_shot
            && !(threatened && pass is Some) ==> outcome == KickOutcome::<P>::Dribble
            && final(state_machine)@ == old(state_machine)@.changed_to(FieldPlayerState::Dribble),
{
    if has_receiver || controller_is_goal_keeper || ball_behind {
        state_machine.change_state(FieldPlayerState::ChaseBall);
        return KickOutcome::Chase;
    }
    if can_shoot || attempt_pot_shot {
        state_machine.change_state(FieldPlayerState::Wait);
        return KickOutcome::Shoot;
    }
    if threatened {
        if let Some((receiver, target)) = pass {
            message_dispatcher.dispatch_message(
                now,
                Some(receiver),
                FieldPlayerMessage::ReceiveBall(target),
            );
            state_machine.change_state(FieldPlayerState::Wait);
            return KickOutcome::Pass { receiver, target };
        }
    }
    state_machine.change_state(FieldPlayerState::Dribble);
    KickOutcome::Dribble
}

/// Entering the dribble: the player controls the ball.
pub fn Dribble_enter(entity: EntityId, roles: &mut TeamRoles)
    ensures
        *final(roles) == (TeamRoles { controlling: Some(entity), ..*old(roles) }),
{
    roles.controlling = Some(entity);
}

/// Dribbling: after nudging the ball forward the player chases it again.
pub fn Dribble_execute(state_machine: &mut StateMachine<FieldPlayerState>)
    ensures
        final(state_machine)@ == old(state_machine)@.changed_to(FieldPlayerState::ChaseBall),
{
    state_machine.change_state(FieldPlayerState::ChaseBall);
}

/// Entering support: arrive at the team's best support spot.
pub fn SupportAttacker_enter<P: Copy>(agent: &mut Agent, target: &mut P, team: &SoccerTeam<P>)
    requires
        team.best_support_spot is Some,
    ensures
        *final(agent) == (Agent { arrive: true, ..*old(agent) }),
        *final(target) == team.best_support_spot->0,
{
    agent.arrive_on();
    if let Some(spot) = team.best_support_spot {
        *target = spot;
    }
}

/// The messages a supporting player that keeps supporting queues.
pub open spec fn support_requests<P>(
    controller: EntityId,
    entity: EntityId,
    position: P,
    can_shoot: bool,
    at_best_spot: bool,
    threatened: bool,
    pass_safe: bool,
) -> Seq<(Option<EntityId>, FieldPlayerMessage<P>)> {
    (if can_shoot {
        pass_request(controller, entity, position, pass_safe)
    } else {
        seq![]
    }) + (if at_best_spot && !can_shoot && !threatened {
        pass_request(controller, entity, position, pass_safe)
    } else {
        seq![]
    })
}

/// Supporting: go home when the team lost the ball; otherwise follow the
/// best support spot, ask for a pass when a shot is possible from there, and
/// on arrival halt facing the ball (the result is whether it halts) and ask
/// for a pass unless threatened.
pub fn SupportAttacker_execute<P: Copy>(
    entity: EntityId,
    state_machine: &mut StateMachine<FieldPlayerState>,
    agent: &mut Agent,
    target: &mut P,
    team: &SoccerTeam<P>,
    player_message_dispatcher: &mut MessageDispatcher<FieldPlayerMessage<P>>,
    now: i64,
    controller: Option<EntityId>,
    target_is_best_spot: bool,
    can_shoot: bool,
    at_best_spot: bool,
    threatened: bool,
    pass_safe: bool,
    position: P,
) -> (halt: bool)
    requires
        controller is Some ==> team.best_support_spot is Some,
    ensures
        sent_at(old(player_message_dispatcher)@, final(player_message_dispatcher)@, now as int),
        controller is None ==> {
            &&& final(state_machine)@ == old(state_machine)@.changed_to(
                FieldPlayerState::ReturnToHomeRegion,
            )
            &&& *final(agent) == *old(agent)
            &&& *final(target) == *old(target)
            &&& final(player_message_dispatcher)@ == old(player_message_dispatcher)@
            &&& !halt
        },
        controller is Some ==> {
            &&& final(state_machine)@ == old(state_machine)@
            &&& *final(target) == (if target_is_best_spot {
                *old(target)
            } else {
                team.best_support_spot->0
            })
            &&& halt == at_best_spot
            &&& final(agent).arrive == (!at_best_spot && (old(agent).arrive || !target_is_best_spot))
            &&& *final(agent) == (Agent { arrive: final(agent).arrive, ..*old(agent) })
            &&& addressed(final(player_message_dispatcher)@) == addressed(
                old(player_message_dispatcher)@,
            ) + support_requests(
                controller->0,
                entity,
                position,
                can_shoot,
                at_best_spot,
                threatened,
                pass_safe,
            )
        },
{
    let controller_entity = match controller {
        Some(c) => c,
        None => {
            state_machine.change_state(FieldPlayerState::ReturnToHomeRegion);
            return false;
        },
    };
    let ghost start = addressed(old(player_message_dispatcher)@);
    // follow the support spot as it moves
    if !target_is_best_spot {
        if let Some(spot) = team.best_support_spot {
            *target = spot;
        }
        agent.arrive_on();
    }
    if can_shoot {
        team.request_pass(player_message_dispatcher, now, controller_entity, entity, position, pass_safe);
    }
    let ghost middle = addressed(player_message_dispatcher@);
    if at_best_spot {
        agent.arrive_off();
        if !can_shoot && !threatened {
            team.request_pass(
                player_message_dispatcher,
                now,
                controller_entity,
                entity,
                position,
                pass_safe,
            );
        }
    }
    proof {
        assert(addressed(player_message_dispatcher@) =~= start + support_requests(
            controller_entity,
            entity,
            position,
            can_shoot,
            at_best_spot,
            threatened,
            pass_safe,
        ));
    }
    at_best_spot
}

/// Leaving support: nobody supports any more, and the player stops arriving.
pub fn SupportAttacker_exit(agent: &mut Agent, roles: &mut TeamRoles)
    ensures
        *final(agent) == (Agent { arrive: false, ..*old(agent) }),
        *final(roles) == (TeamRoles { supporting: None, ..*old(roles) }),
{
    roles.supporting = None;
    agent.arrive_off();
}

/// Entering the way home: arrive at the target, which becomes the home
/// region's position unless it already lies in the inner half of the home
/// region.
pub fn ReturnToHomeRegion_enter<P: Copy>(
    agent: &mut Agent,
    target: &mut P,
    target_in_home_region: bool,
    home_position: P,
)
    ensures
        *final(agent) == (Agent { arrive: true, ..*old(agent) }),
        *final(target) == (if target_in_home_region {
            *old(target)
        } else {
            home_position
        }),
{
    agent.arrive_on();
    if !target_in_home_region {
        *target = home_position;
    }
}

/// Going home: while the game is on, the closest player goes after the ball
/// when nobody else is, and a player that reached the inner half of its home
/// region waits where it stands; before the game is on, a player waits once
/// at its target.
pub fn ReturnToHomeRegion_execute<P: Copy>(
    entity: EntityId,
    state_machine: &mut StateMachine<FieldPlayerState>,
    target: &mut P,
    game_on: bool,
    closest: Option<EntityId>,
    has_receiver: bool,
    controller_is_goal_keeper: bool,
    in_home_region: bool,
    position: P,
    at_target: bool,
)
    ensures
        game_on && closest == Some(entity) && !has_receiver && !controller_is_goal_keeper ==> {
            &&& final(state_machine)@ == old(state_machine)@.changed_to(FieldPlayerState::ChaseBall)
            &&& *final(target) == *old(target)
        },
        game_on && !(closest == Some(entity) && !has_receiver && !controller_is_goal_keeper) ==> {
            &&& final(state_machine)@ == (if in_home_region {
                old(state_machine)@.changed_to(FieldPlayerState::Wait)
            } else {
                old(state_machine)@
            })
            &&& *final(target) == (if in_home_region {
                position
            } else {
                *old(target)
            })
        },
        !game_on ==> {
            &&& final(state_machine)@ == (if at_target {
                old(state_machine)@.changed_to(FieldPlayerState::Wait)
            } else {
                old(state_machine)@
            })
            &&& *final(target) == *old(target)
        },
{
    if game_on {
        if is_entity(closest, entity) && !has_receiver && !controller_is_goal_keeper {
            state_machine.change_state(FieldPlayerState::ChaseBall);
            return ;
        }
        if in_home_region {
            *target = position;
            state_machine.change_state(FieldPlayerState::Wait);
        }
    } else if at_target {
        state_machine.change_state(FieldPlayerState::Wait);
    }
}

/// Leaving the way home: stop arriving.
pub fn ReturnToHomeRegion_exit(agent: &mut Agent)
    ensures
        *final(agent) == (Agent { arrive: false, ..*old(agent) }),
{
    agent.arrive_off();
}

} // verus!

verus! {

/// A player never kicks while a pass is on its way to a team mate, while its
/// goal keeper holds the ball, or when the ball is behind it.
pub proof fn lemma_no_kick_when_blocked<P>(
    has_receiver: bool,
    controller_is_goal_keeper: bool,
    ball_behind: bool,
    can_shoot: bool,
    attempt_pot_shot: bool,
    threatened: bool,
    pass: Option<(EntityId, P)>,
)
    requires
        has_receiver || controller_is_goal_keeper || ball_behind,
    ensures
        kick_outcome(
            has_receiver,
            controller_is_goal_keeper,
            ball_behind,
            can_shoot,
            attempt_pot_shot,
            threatened,
            pass,
        ) == KickOutcome::<P>::Chase,
{
}

/// A player passes only when threatened, with no shot to take, and to the
/// receiver that was found.
pub proof fn lemma_pass_only_when_threatened<P>(
    has_receiver: bool,
    controller_is_goal_keeper: bool,
    ball_behind: bool,
    can_shoot: bool,
    attempt_pot_shot: bool,
    threatened: bool,
    pass: Option<(EntityId, P)>,
)
    requires
        kick_outcome(
            has_receiver,
            controller_is_goal_keeper,
            ball_behind,
            can_shoot,
            attempt_pot_shot,
            threatened,
            pass,
        ) is Pass,
    ensures
        threatened,
        !can_shoot,
        !attempt_pot_shot,
        pass is Some,
{
}


/// A free player (nobody is receiving a pass, its goal keeper does not hold
/// the ball, the ball is not behind it) that can score, or tries its luck,
/// shoots, whether threatened or not and whatever pass there is.
pub proof fn lemma_free_player_shoots_when_it_can<P>(
    can_shoot: bool,
    attempt_pot_shot: bool,
    threatened: bool,
    pass: Option<(EntityId, P)>,
)
    requires
        can_shoot || attempt_pot_shot,
    ensures
        kick_outcome(false, false, false, can_shoot, attempt_pot_shot, threatened, pass)
            == KickOutcome::<P>::Shoot,
{
}

/// A free player with no shot passes exactly when it is threatened and a
/// receiver was found, to that receiver and target, and dribbles otherwise.
pub proof fn lemma_free_player_without_shot_passes_or_dribbles<P>(
    threatened: bool,
    pass: Option<(EntityId, P)>,
)
    ensures
        threatened && pass is Some ==> kick_outcome(false, false, false, false, false, threatened, pass)
            == (KickOutcome::Pass { receiver: (pass->0).0, target: (pass->0).1 }),
        !(threatened && pass is Some) ==> kick_outcome(
            false,
            false,
            false,
            false,
            false,
            threatened,
            pass,
        ) == KickOutcome::<P>::Dribble,
{
}

/// A waiting player that is closest to the ball goes after it when the game
/// is on, nobody is receiving a pass, and the ball is not held by the goal
/// keeper: either no player controls it, or a field player does.
pub proof fn lemma_closest_waiting_player_chases(
    entity: EntityId,
    controller: Option<(EntityId, bool)>,
    has_receiver: bool,
)
    requires
        !has_receiver,
        controller is None || !(controller->0).1,
    ensures
        chases_from_wait(entity, controller, true, Some(entity), has_receiver),
{
}

/// A waiting player never chases when the game is off, when it is not the
/// closest player, when a pass is on its way, or when the goal keeper holds
/// the ball.
pub proof fn lemma_waiting_player_holds_back(
    entity: EntityId,
    controller: Option<(EntityId, bool)>,
    game_on: bool,
    closest: Option<EntityId>,
    has_receiver: bool,
)
    requires
        !game_on || closest != Some(entity) || has_receiver || (controller is Some && (controller->0).1),
    ensures
        !chases_from_wait(entity, controller, game_on, closest, has_receiver),
{
}

} // verus!
