//! A small state machine that walks its owner through idling, walking and
//! running, round and round.
use vstd::prelude::*;

use crate::state_machine::{StateKind, StateMachine, StateMachineView, StatePhase};

verus! {

/// The owner of a test state machine.
#[derive(Debug, Clone, Copy, PartialEq, Eq, Structural)]
pub struct StateMachineOwner;

impl StateMachineOwner {
    pub fn default() -> (o: StateMachineOwner)
        ensures
            o == StateMachineOwner,
    {
        StateMachineOwner
    }
}

/// The states of the test machine.
#[derive(Debug, Clone, Copy, PartialEq, Eq, Structural, Hash)]
pub enum TestState {
    Idle,
    Walk,
    Run,
}

impl StateKind for TestState {
    fn same_state(&self, other: &Self) -> (r: bool) {
        *self == *other
    }
}

/// The state that follows `s` in the cycle.
pub open spec fn next_state(s: TestState) -> TestState {
    match s {
        TestState::Idle => TestState::Walk,
        TestState::Walk => TestState::Run,
        TestState::Run => TestState::Idle,
    }
}

/// The machine after the execute systems ran: an owner executing a state
/// moves on to the next one.
pub open spec fn executed(m: StateMachineView<TestState>) -> StateMachineView<TestState> {
    match m.phase {
        StatePhase::Execute(s) => m.changed_to(next_state(s)),
        _ => m,
    }
}

/// The machine one frame later: an owner executing a state runs the execute
/// systems, any other owner's marker advances by one step.
pub open spec fn frame(m: StateMachineView<TestState>) -> StateMachineView<TestState> {
    match m.phase {
        StatePhase::Execute(_) => executed(m),
        _ => m.advanced(),
    }
}

/// Idling: move on to walking.
pub fn state_test_idle_execute(machine: &mut StateMachine<TestState>)
    ensures
        final(machine)@ == (if old(machine)@.phase == StatePhase::Execute(TestState::Idle) {
            old(machine)@.changed_to(TestState::Walk)
        } else {
            old(machine)@
        }),
{
    if machine.is_executing(TestState::Idle) {
        machine.change_state(TestState::Walk);
    }
}

/// Walking: move on to running.
pub fn state_test_walk_execute(machine: &mut StateMachine<TestState>)
    ensures
        final(machine)@ == (if old(machine)@.phase == StatePhase::Execute(TestState::Walk) {
            old(machine)@.changed_to(TestState::Run)
        } else {
            old(machine)@
        }),
{
    if machine.is_executing(TestState::Walk) {
        machine.change_state(TestState::Run);
    }
}

/// Running: move on to idling.
pub fn state_test_run_execute(machine: &mut StateMachine<TestState>)
    ensures
        final(machine)@ == (if old(machine)@.phase == StatePhase::Execute(TestState::Run) {
            old(machine)@.changed_to(TestState::Idle)
        } else {
            old(machine)@
        }),
{
    if machine.is_executing(TestState::Run) {
        machine.change_state(TestState::Idle);
    }
}

/// Runs one frame of the test machine: the execute systems when its owner
/// executes a state, the advance of its marker otherwise.
pub fn run_frame(machine: &mut StateMachine<TestState>)
    ensures
        final(machine)@ == frame(old(machine)@),
{
    let executing = match machine.phase() {
        StatePhase::Execute(_) => true,
        _ => false,
    };
    if executing {
        state_test_idle_execute(machine);
        state_test_walk_execute(machine);
        state_test_run_execute(machine);
    } else {
        machine.enter_advance();
        machine.exit_advance();
    }
}

/// An owner executing a state leaves it, enters the next state, and executes
/// that one three frames later.
pub proof fn lemma_frame_moves_on(m: StateMachineView<TestState>, s: TestState)
    requires
        m.is_consistent(),
        m.phase == StatePhase::Execute(s),
    ensures
        frame(m).phase == StatePhase::Exit(s),
        frame(frame(m)).phase == StatePhase::Enter(next_state(s)),
        frame(frame(frame(m))).is_consistent(),
        frame(frame(frame(m))).phase == StatePhase::Execute(next_state(s)),
        frame(frame(frame(m))).current == next_state(s),
        frame(frame(frame(m))).previous == Some(s),
{
}

/// Nine frames bring an owner executing a state back to executing it, after
/// going through the two other states.
pub proof fn lemma_cycle_of_three(m: StateMachineView<TestState>, s: TestState)
    requires
        m.is_consistent(),
        m.phase == StatePhase::Execute(s),
    ensures
        frame(frame(frame(frame(frame(frame(frame(frame(frame(m))))))))).phase
            == StatePhase::Execute(s),
        frame(frame(frame(frame(frame(frame(frame(frame(frame(m))))))))).current == s,
{
    let m3 = frame(frame(frame(m)));
    let m6 = frame(frame(frame(m3)));
    lemma_frame_moves_on(m, s);
    lemma_frame_moves_on(m3, next_state(s));
    lemma_frame_moves_on(m6, next_state(next_state(s)));
}

} // verus!
