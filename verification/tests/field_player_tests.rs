use soccer::agent::Agent;
use soccer::entity::EntityId;
use soccer::field_player::{
    ChaseBall_enter, ChaseBall_execute, ChaseBall_exit, Dribble_enter, Dribble_execute,
    GlobalState_execute, GlobalState_on_message, KickBall_enter, KickBall_execute, KickOutcome,
    MessageOutcome, ReceiveBall_enter, ReceiveBall_execute, ReceiveBall_exit,
    ReturnToHomeRegion_enter, ReturnToHomeRegion_execute, ReturnToHomeRegion_exit,
    SupportAttacker_enter, SupportAttacker_execute, SupportAttacker_exit, Wait_enter, Wait_execute,
};
use soccer::messaging::MessageDispatcher;
use soccer::player::{FieldPlayer, FieldPlayerMessage, FieldPlayerRole, FieldPlayerState, SoccerPlayer};
use soccer::state_machine::{StateMachine, StatePhase};
use soccer::team::{SoccerTeam, TeamRoles};

type Pos = (f32, f32);
type Msg = FieldPlayerMessage<Pos>;

/// The time at which the functions under test send their messages.
const NOW: i64 = 1_000;

fn id(bits: u64) -> EntityId {
    EntityId::from_bits(bits)
}

fn drain(d: &mut MessageDispatcher<Msg>) -> Vec<(Option<EntityId>, Msg)> {
    let mut out: Vec<(Option<EntityId>, Msg)> =
        d.dispatch_deferred_messages(i64::MAX).into_iter().map(|e| (e.receiver, e.message)).collect();
    out.sort_by_key(|(r, _)| r.map(|e| e.bits));
    out
}

struct Setup {
    machine: StateMachine<FieldPlayerState>,
    target: Pos,
    player: SoccerPlayer,
    team: SoccerTeam<Pos>,
    dispatcher: MessageDispatcher<Msg>,
}

fn setup(state: FieldPlayerState) -> Setup {
    Setup {
        machine: StateMachine::insert(state),
        target: (0.0, 0.0),
        player: SoccerPlayer { number: 3, home_region: 8, default_region: 6 },
        team: SoccerTeam { best_support_spot: Some((40.0, 10.0)) },
        dispatcher: MessageDispatcher::default(),
    }
}

fn on_message(s: &mut Setup, m: Msg, has_receiver: bool, in_range: bool) -> MessageOutcome<Pos> {
    GlobalState_on_message(m, &mut s.machine, &mut s.target, &mut s.player, &s.team, has_receiver, in_range, &mut s.dispatcher, NOW)
}

#[test]
fn receive_ball_message() {
    let mut s = setup(FieldPlayerState::Wait);
    let out = on_message(&mut s, FieldPlayerMessage::ReceiveBall((5.0, 6.0)), false, false);
    assert_eq!(out, MessageOutcome::Handled);
    assert_eq!(s.target, (5.0, 6.0));
    assert_eq!(s.machine.current_state(), FieldPlayerState::ReceiveBall);
}

#[test]
fn support_attacker_message() {
    let mut s = setup(FieldPlayerState::Wait);
    assert_eq!(on_message(&mut s, FieldPlayerMessage::SupportAttacker, false, false), MessageOutcome::Handled);
    assert_eq!(s.target, (40.0, 10.0));
    assert_eq!(s.machine.current_state(), FieldPlayerState::SupportAttacker);
    // already supporting: stop handling messages
    s.target = (1.0, 1.0);
    assert_eq!(on_message(&mut s, FieldPlayerMessage::SupportAttacker, false, false), MessageOutcome::Stop);
    assert_eq!(s.target, (1.0, 1.0));
}

#[test]
fn go_home_message_restores_default_region() {
    let mut s = setup(FieldPlayerState::ChaseBall);
    assert_eq!(on_message(&mut s, FieldPlayerMessage::GoHome, false, false), MessageOutcome::Handled);
    assert_eq!(s.player.home_region, 6);
    assert_eq!(s.machine.current_state(), FieldPlayerState::ReturnToHomeRegion);
}

#[test]
fn wait_message() {
    let mut s = setup(FieldPlayerState::ChaseBall);
    assert_eq!(on_message(&mut s, FieldPlayerMessage::Wait, false, false), MessageOutcome::Handled);
    assert_eq!(s.machine.current_state(), FieldPlayerState::Wait);
}

#[test]
fn pass_request_is_refused_without_ball_or_with_receiver() {
    let mut s = setup(FieldPlayerState::Dribble);
    let m = FieldPlayerMessage::PassToMe(id(9), (3.0, 3.0));
    assert_eq!(on_message(&mut s, m, true, true), MessageOutcome::Stop);
    assert_eq!(on_message(&mut s, m, false, false), MessageOutcome::Stop);
    assert_eq!(s.machine.current_state(), FieldPlayerState::Dribble);
    assert_eq!(s.dispatcher.len(), 0);
}

#[test]
fn pass_request_is_granted() {
    let mut s = setup(FieldPlayerState::Dribble);
    let m = FieldPlayerMessage::PassToMe(id(9), (3.0, 3.0));
    let out = on_message(&mut s, m, false, true);
    assert_eq!(out, MessageOutcome::Passed { receiver: id(9), receiver_position: (3.0, 3.0) });
    assert_eq!(s.machine.current_state(), FieldPlayerState::Wait);
    assert_eq!(drain(&mut s.dispatcher), vec![(Some(id(9)), FieldPlayerMessage::ReceiveBall((3.0, 3.0)))]);
}

#[test]
fn speed_limit_with_ball() {
    assert!(GlobalState_execute(id(1), Some(id(1)), true));
    assert!(!GlobalState_execute(id(1), Some(id(1)), false));
    assert!(!GlobalState_execute(id(1), Some(id(2)), true));
    assert!(!GlobalState_execute(id(1), None, true));
}

#[test]
fn chase_ball() {
    let mut agent = Agent::default();
    ChaseBall_enter(&mut agent);
    assert!(agent.seek);
    let mut m = StateMachine::insert(FieldPlayerState::ChaseBall);
    let mut target = (0.0, 0.0);
    ChaseBall_execute(id(1), &mut m, &mut target, false, Some(id(1)), (7.0, 7.0));
    assert_eq!(target, (7.0, 7.0));
    assert_eq!(m.current_state(), FieldPlayerState::ChaseBall);
    ChaseBall_execute(id(1), &mut m, &mut target, true, Some(id(1)), (8.0, 8.0));
    assert_eq!(m.current_state(), FieldPlayerState::KickBall);
    assert_eq!(target, (7.0, 7.0));
    let mut m = StateMachine::insert(FieldPlayerState::ChaseBall);
    ChaseBall_execute(id(1), &mut m, &mut target, false, Some(id(2)), (8.0, 8.0));
    assert_eq!(m.current_state(), FieldPlayerState::ReturnToHomeRegion);
    ChaseBall_exit(&mut agent);
    assert!(!agent.seek);
}

#[test]
fn wait_enter_targets_home_before_kick_off() {
    let mut target = (1.0, 1.0);
    Wait_enter(true, &mut target, (5.0, 5.0));
    assert_eq!(target, (1.0, 1.0));
    Wait_enter(false, &mut target, (5.0, 5.0));
    assert_eq!(target, (5.0, 5.0));
}

#[test]
fn wait_execute_arrives_back() {
    let team: SoccerTeam<Pos> = SoccerTeam::default();
    let mut d: MessageDispatcher<Msg> = MessageDispatcher::default();
    let mut m = StateMachine::insert(FieldPlayerState::Wait);
    let mut agent = Agent::default();
    let halt = Wait_execute(id(1), &mut m, &mut agent, &team, &mut d, NOW, false, None, false, false, (0.0, 0.0), true, Some(id(1)), false);
    assert!(!halt);
    assert!(agent.arrive);
    assert_eq!(m.current_state(), FieldPlayerState::Wait);
    let halt = Wait_execute(id(1), &mut m, &mut agent, &team, &mut d, NOW, true, None, false, false, (0.0, 0.0), true, Some(id(1)), false);
    assert!(halt);
    assert!(!agent.arrive);
    assert_eq!(m.current_state(), FieldPlayerState::ChaseBall);
}

#[test]
fn wait_execute_asks_controller_for_pass() {
    let team: SoccerTeam<Pos> = SoccerTeam::default();
    let mut d: MessageDispatcher<Msg> = MessageDispatcher::default();
    let mut m = StateMachine::insert(FieldPlayerState::Wait);
    let mut agent = Agent::default();
    let halt = Wait_execute(id(1), &mut m, &mut agent, &team, &mut d, NOW, true, Some((id(2), false)), true, true, (4.0, 4.0), true, Some(id(1)), false);
    assert!(halt);
    assert_eq!(m.current_state(), FieldPlayerState::Wait);
    assert_eq!(drain(&mut d), vec![(Some(id(2)), FieldPlayerMessage::PassToMe(id(1), (4.0, 4.0)))]);
    // an unsafe pass is not requested
    Wait_execute(id(1), &mut m, &mut agent, &team, &mut d, NOW, true, Some((id(2), false)), true, false, (4.0, 4.0), true, Some(id(1)), false);
    assert_eq!(d.len(), 0);
}

#[test]
fn wait_execute_leaves_ball_to_goal_keeper_and_receiver() {
    let team: SoccerTeam<Pos> = SoccerTeam::default();
    let mut d: MessageDispatcher<Msg> = MessageDispatcher::default();
    let mut agent = Agent::default();
    let mut m = StateMachine::insert(FieldPlayerState::Wait);
    Wait_execute(id(1), &mut m, &mut agent, &team, &mut d, NOW, true, Some((id(5), true)), false, false, (0.0, 0.0), true, Some(id(1)), false);
    assert_eq!(m.current_state(), FieldPlayerState::Wait);
    Wait_execute(id(1), &mut m, &mut agent, &team, &mut d, NOW, true, None, false, false, (0.0, 0.0), true, Some(id(1)), true);
    assert_eq!(m.current_state(), FieldPlayerState::Wait);
    Wait_execute(id(1), &mut m, &mut agent, &team, &mut d, NOW, true, None, false, false, (0.0, 0.0), false, Some(id(1)), false);
    assert_eq!(m.current_state(), FieldPlayerState::Wait);
}

#[test]
fn receive_ball_enter_takes_control() {
    let mut roles = TeamRoles { receiving: Some(id(4)), closest: Some(id(2)), controlling: Some(id(3)), supporting: None };
    let mut agent = Agent::default();
    ReceiveBall_enter(id(1), &mut roles, &mut agent, false, id(99));
    assert_eq!(roles.receiving, Some(id(1)));
    assert_eq!(roles.controlling, Some(id(1)));
    assert_eq!(roles.closest, Some(id(2)));
    assert_eq!(agent.pursuit, Some(id(99)));
    assert!(!agent.arrive);
    let mut agent = Agent::default();
    ReceiveBall_enter(id(1), &mut roles, &mut agent, true, id(99));
    assert!(agent.arrive);
    assert_eq!(agent.pursuit, None);
    ReceiveBall_exit(&mut agent, &mut roles);
    assert!(!agent.arrive);
    assert_eq!(roles.receiving, None);
    assert_eq!(roles.controlling, Some(id(1)));
}

#[test]
fn receive_ball_execute() {
    let mut m = StateMachine::insert(FieldPlayerState::ReceiveBall);
    let mut agent = Agent::default();
    agent.pursuit_on(id(99));
    let mut target = (0.0, 0.0);
    let halt = ReceiveBall_execute(&mut m, &mut agent, &mut target, false, true, false, true, (6.0, 6.0));
    assert!(!halt);
    assert_eq!(target, (6.0, 6.0));
    let halt = ReceiveBall_execute(&mut m, &mut agent, &mut target, false, true, true, false, (6.5, 6.0));
    assert!(halt);
    assert_eq!(agent.pursuit, None);
    assert_eq!(m.current_state(), FieldPlayerState::ReceiveBall);
    ReceiveBall_execute(&mut m, &mut agent, &mut target, true, true, false, false, (6.5, 6.0));
    assert_eq!(m.current_state(), FieldPlayerState::ChaseBall);
    let mut m = StateMachine::insert(FieldPlayerState::ReceiveBall);
    ReceiveBall_execute(&mut m, &mut agent, &mut target, false, false, false, false, (6.5, 6.0));
    assert_eq!(m.current_state(), FieldPlayerState::ChaseBall);
}

#[test]
fn kick_ball_enter() {
    let mut roles = TeamRoles::default();
    let mut m = StateMachine::insert(FieldPlayerState::KickBall);
    let mut f = FieldPlayer::new(1, FieldPlayerRole::Attacker);
    KickBall_enter(id(1), &mut m, &mut roles, &f);
    assert_eq!(roles.controlling, Some(id(1)));
    assert_eq!(m.current_state(), FieldPlayerState::KickBall);
    f.kick_cooldown.start();
    KickBall_enter(id(2), &mut m, &mut roles, &f);
    assert_eq!(roles.controlling, Some(id(2)));
    assert_eq!(m.current_state(), FieldPlayerState::ChaseBall);
}

#[test]
fn kick_ball_execute_outcomes() {
    let mut d: MessageDispatcher<Msg> = MessageDispatcher::default();
    let run = |d: &mut MessageDispatcher<Msg>, args: (bool, bool, bool, bool, bool, bool, Option<(EntityId, Pos)>)| {
        let mut m = StateMachine::insert(FieldPlayerState::KickBall);
        let out = KickBall_execute(&mut m, d, NOW, args.0, args.1, args.2, args.3, args.4, args.5, args.6);
        (out, m.current_state())
    };
    let pass = Some((id(3), (2.0, 2.0)));
    assert_eq!(run(&mut d, (true, false, false, true, true, true, pass)), (KickOutcome::Chase, FieldPlayerState::ChaseBall));
    assert_eq!(run(&mut d, (false, true, false, true, true, true, pass)), (KickOutcome::Chase, FieldPlayerState::ChaseBall));
    assert_eq!(run(&mut d, (false, false, true, true, true, true, pass)), (KickOutcome::Chase, FieldPlayerState::ChaseBall));
    assert_eq!(run(&mut d, (false, false, false, true, false, true, pass)), (KickOutcome::Shoot, FieldPlayerState::Wait));
    assert_eq!(run(&mut d, (false, false, false, false, true, false, None)), (KickOutcome::Shoot, FieldPlayerState::Wait));
    assert_eq!(run(&mut d, (false, false, false, false, false, false, pass)), (KickOutcome::Dribble, FieldPlayerState::Dribble));
    assert_eq!(run(&mut d, (false, false, false, false, false, true, None)), (KickOutcome::Dribble, FieldPlayerState::Dribble));
    assert_eq!(d.len(), 0);
    assert_eq!(
        run(&mut d, (false, false, false, false, false, true, pass)),
        (KickOutcome::Pass { receiver: id(3), target: (2.0, 2.0) }, FieldPlayerState::Wait)
    );
    assert_eq!(drain(&mut d), vec![(Some(id(3)), FieldPlayerMessage::ReceiveBall((2.0, 2.0)))]);
}

#[test]
fn dribble() {
    let mut roles = TeamRoles::default();
    Dribble_enter(id(4), &mut roles);
    assert_eq!(roles.controlling, Some(id(4)));
    let mut m = StateMachine::insert(FieldPlayerState::Dribble);
    Dribble_execute(&mut m);
    assert_eq!(m.current_state(), FieldPlayerState::ChaseBall);
    assert_eq!(m.phase(), StatePhase::Exit(FieldPlayerState::Dribble));
}

#[test]
fn support_attacker_states() {
    let team: SoccerTeam<Pos> = SoccerTeam { best_support_spot: Some((30.0, 5.0)) };
    let mut agent = Agent::default();
    let mut target = (0.0, 0.0);
    SupportAttacker_enter(&mut agent, &mut target, &team);
    assert!(agent.arrive);
    assert_eq!(target, (30.0, 5.0));

    let mut d: MessageDispatcher<Msg> = MessageDispatcher::default();
    let mut m = StateMachine::insert(FieldPlayerState::SupportAttacker);
    // lost the ball
    let halt = SupportAttacker_execute(id(1), &mut m, &mut agent, &mut target, &team, &mut d, NOW, None, true, true, true, false, true, (0.0, 0.0));
    assert!(!halt);
    assert_eq!(m.current_state(), FieldPlayerState::ReturnToHomeRegion);

    // spot moved, can shoot: follows the spot and asks for a pass once
    let mut m = StateMachine::insert(FieldPlayerState::SupportAttacker);
    target = (1.0, 1.0);
    agent.arrive_off();
    let halt = SupportAttacker_execute(id(1), &mut m, &mut agent, &mut target, &team, &mut d, NOW, Some(id(2)), false, true, false, false, true, (1.0, 1.0));
    assert!(!halt);
    assert_eq!(target, (30.0, 5.0));
    assert!(agent.arrive);
    assert_eq!(d.len(), 1);
    drain(&mut d);

    // arrived, no shot, not threatened: halts and asks for a pass
    let halt = SupportAttacker_execute(id(1), &mut m, &mut agent, &mut target, &team, &mut d, NOW, Some(id(2)), true, false, true, false, true, (30.0, 5.0));
    assert!(halt);
    assert!(!agent.arrive);
    assert_eq!(drain(&mut d), vec![(Some(id(2)), FieldPlayerMessage::PassToMe(id(1), (30.0, 5.0)))]);

    // arrived but threatened: no request
    SupportAttacker_execute(id(1), &mut m, &mut agent, &mut target, &team, &mut d, NOW, Some(id(2)), true, false, true, true, true, (30.0, 5.0));
    assert_eq!(d.len(), 0);

    // arrived and can shoot: exactly one request
    SupportAttacker_execute(id(1), &mut m, &mut agent, &mut target, &team, &mut d, NOW, Some(id(2)), true, true, true, false, true, (30.0, 5.0));
    assert_eq!(d.len(), 1);

    let mut roles = TeamRoles { supporting: Some(id(1)), ..TeamRoles::default() };
    agent.arrive_on();
    SupportAttacker_exit(&mut agent, &mut roles);
    assert_eq!(roles.supporting, None);
    assert!(!agent.arrive);
}

#[test]
fn return_to_home_region() {
    let mut agent = Agent::default();
    let mut target = (9.0, 9.0);
    ReturnToHomeRegion_enter(&mut agent, &mut target, true, (1.0, 1.0));
    assert!(agent.arrive);
    assert_eq!(target, (9.0, 9.0));
    ReturnToHomeRegion_enter(&mut agent, &mut target, false, (1.0, 1.0));
    assert_eq!(target, (1.0, 1.0));

    let mut m = StateMachine::insert(FieldPlayerState::ReturnToHomeRegion);
    ReturnToHomeRegion_execute(id(1), &mut m, &mut target, true, Some(id(1)), false, false, false, (2.0, 2.0), false);
    assert_eq!(m.current_state(), FieldPlayerState::ChaseBall);

    let mut m = StateMachine::insert(FieldPlayerState::ReturnToHomeRegion);
    ReturnToHomeRegion_execute(id(1), &mut m, &mut target, true, Some(id(1)), true, false, false, (2.0, 2.0), false);
    assert_eq!(m.current_state(), FieldPlayerState::ReturnToHomeRegion);
    ReturnToHomeRegion_execute(id(1), &mut m, &mut target, true, Some(id(3)), false, false, true, (2.0, 2.0), false);
    assert_eq!(m.current_state(), FieldPlayerState::Wait);
    assert_eq!(target, (2.0, 2.0));

    let mut m = StateMachine::insert(FieldPlayerState::ReturnToHomeRegion);
    ReturnToHomeRegion_execute(id(1), &mut m, &mut target, false, Some(id(1)), false, false, true, (3.0, 3.0), false);
    assert_eq!(m.current_state(), FieldPlayerState::ReturnToHomeRegion);
    ReturnToHomeRegion_execute(id(1), &mut m, &mut target, false, Some(id(1)), false, false, true, (3.0, 3.0), true);
    assert_eq!(m.current_state(), FieldPlayerState::Wait);
    assert_eq!(target, (2.0, 2.0));

    ReturnToHomeRegion_exit(&mut agent);
    assert!(!agent.arrive);
}
