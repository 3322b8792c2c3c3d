use vstd::prelude::*;

verus! {

/// Which of its three markers an entity driven by a state machine carries:
/// the state is being entered, executed, or left.
#[derive(Debug, Clone, Copy, PartialEq, Eq, Structural)]
pub enum StatePhase<S> {
    Enter(S),
    Execute(S),
    Exit(S),
}

/// A state type whose values can be compared in executable code.
pub trait StateKind: Copy {
    fn same_state(&self, other: &Self) -> (r: bool)
        ensures
            r == (*self == *other),
    ;
}

/// The mathematical value of a state machine.
pub struct StateMachineView<S> {
    pub current: S,
    pub previous: Option<S>,
    pub phase: StatePhase<S>,
}

impl<S> StateMachineView<S> {
    /// The marker matches the machine: an entered or executed state is the
    /// current one, and a state being left is the previous one.
    pub open spec fn is_consistent(self) -> bool {
        match self.phase {
            StatePhase::Enter(s) => s == self.current,
            StatePhase::Execute(s) => s == self.current,
            StatePhase::Exit(s) => self.previous == Some(s),
        }
    }

    /// A machine that starts out executing `start`, with no history.
    pub open spec fn started(start: S) -> Self {
        StateMachineView { current: start, previous: None, phase: StatePhase::Execute(start) }
    }

    /// The machine after a change of state: the old state is left and
    /// remembered, the new one becomes current.
    pub open spec fn changed_to(self, new_state: S) -> Self {
        StateMachineView {
            current: new_state,
            previous: Some(self.current),
            phase: StatePhase::Exit(self.current),
        }
    }

    /// The machine after going back to the state it was in before.
    pub open spec fn reverted(self) -> Self
        recommends
            self.previous is Some,
    {
        self.changed_to(self.previous->0)
    }

    /// The machine after the enter marker has turned into the execute marker.
    pub open spec fn enter_advanced(self) -> Self {
        match self.phase {
            StatePhase::Enter(s) => StateMachineView { phase: StatePhase::Execute(s), ..self },
            _ => self,
        }
    }

    /// The machine after the exit marker has turned into the enter marker of
    /// the current state.
    pub open spec fn exit_advanced(self) -> Self {
        match self.phase {
            StatePhase::Exit(_) => StateMachineView { phase: StatePhase::Enter(self.current), ..self },
            _ => self,
        }
    }

    /// The markers one frame later: an enter marker turns into the execute
    /// marker, an exit marker into the enter marker of the current state.
    /// Both advances see the marker the frame started with, so a marker
    /// moves on by one step at most.
    pub open spec fn advanced(self) -> Self {
        self.enter_advanced().exit_advanced()
    }
}

/// A finite state machine that remembers its previous state and tells which
/// phase (enter, execute, exit) its owner is in.
pub struct StateMachine<S> {
    current_state: S,
    previous_state: Option<S>,
    phase: StatePhase<S>,
}

impl<S> View for StateMachine<S> {
    type V = StateMachineView<S>;

    closed spec fn view(&self) -> StateMachineView<S> {
        StateMachineView {
            current: self.current_state,
            previous: self.previous_state,
            phase: self.phase,
        }
    }
}

impl<S> StateMachine<S> {
    #[verifier::type_invariant]
    spec fn well_formed(self) -> bool {
        self@.is_consistent()
    }
}

impl<S: Copy> StateMachine<S> {
    /// A machine that starts executing `starting_state`.
    pub fn insert(starting_state: S) -> (m: Self)
        ensures
            m@ == StateMachineView::started(starting_state),
            m@.is_consistent(),
    {
        StateMachine {
            current_state: starting_state,
            previous_state: None,
            phase: StatePhase::Execute(starting_state),
        }
    }

    /// The state the machine is in.
    pub fn current_state(&self) -> (s: S)
        ensures
            s == self@.current,
    {
        self.current_state
    }

    /// The state the machine was in before its last change, if any.
    pub fn previous_state(&self) -> (s: Option<S>)
        ensures
            s == self@.previous,
    {
        self.previous_state
    }

    /// The marker the owner of the machine carries.
    pub fn phase(&self) -> (p: StatePhase<S>)
        ensures
            p == self@.phase,
            self@.is_consistent(),
    {
        proof {
            use_type_invariant(self);
        }
        self.phase
    }

    /// Leaves the current state for `new_state`.
    pub fn change_state(&mut self, new_state: S)
        ensures
            final(self)@ == old(self)@.changed_to(new_state),
            final(self)@.is_consistent(),
    {
        let old_state = self.current_state;
        *self = StateMachine {
            current_state: new_state,
            previous_state: Some(old_state),
            phase: StatePhase::Exit(old_state),
        };
    }

    /// Goes back to the state the machine was in before its last change.
    pub fn revert_to_previous_state(&mut self)
        requires
            old(self)@.previous is Some,
        ensures
            final(self)@ == old(self)@.reverted(),
            final(self)@.is_consistent(),
    {
        let previous = match self.previous_state {
            Some(p) => p,
            None => self.current_state,
        };
        self.change_state(previous);
    }

    /// Turns the enter marker into the execute marker of the same state.
    pub fn enter_advance(&mut self)
        ensures
            final(self)@ == old(self)@.enter_advanced(),
            final(self)@.is_consistent(),
    {
        proof {
            use_type_invariant(&*self);
        }
        match self.phase {
            StatePhase::Enter(s) => {
                let current = self.current_state;
                let previous = self.previous_state;
                *self = StateMachine {
                    current_state: current,
                    previous_state: previous,
                    phase: StatePhase::Execute(s),
                };
            },
            _ => {},
        }
    }

    /// Turns the exit marker into the enter marker of the current state.
    pub fn exit_advance(&mut self)
        ensures
            final(self)@ == old(self)@.exit_advanced(),
            final(self)@.is_consistent(),
    {
        proof {
            use_type_invariant(&*self);
        }
        match self.phase {
            StatePhase::Exit(_) => {
                let current = self.current_state;
                let previous = self.previous_state;
                *self = StateMachine {
                    current_state: current,
                    previous_state: previous,
                    phase: StatePhase::Enter(current),
                };
            },
            _ => {},
        }
    }
}

impl<S: StateKind> StateMachine<S> {
    /// Whether the machine is in `state`.
    pub fn is_in_state(&self, state: S) -> (r: bool)
        ensures
            r == (self@.current == state),
    {
        self.current_state.same_state(&state)
    }

    /// Whether the owner is executing `state` (not entering or leaving it).
    pub fn is_executing(&self, state: S) -> (r: bool)
        ensures
            r == (self@.phase == StatePhase::Execute(state)),
    {
        match self.phase {
            StatePhase::Execute(s) => s.same_state(&state),
            _ => false,
        }
    }

    /// Whether the owner is entering `state`.
    pub fn is_entering(&self, state: S) -> (r: bool)
        ensures
            r == (self@.phase == StatePhase::Enter(state)),
    {
        match self.phase {
            StatePhase::Enter(s) => s.same_state(&state),
            _ => false,
        }
    }

    /// Whether the owner is leaving `state`.
    pub fn is_exiting(&self, state: S) -> (r: bool)
        ensures
            r == (self@.phase == StatePhase::Exit(state)),
    {
        match self.phase {
            StatePhase::Exit(s) => s.same_state(&state),
            _ => false,
        }
    }
}

/// Going back after a change of state makes the old state current again and
/// remembers the state that was left.
pub proof fn lemma_revert_undoes_change<S>(m: StateMachineView<S>, new_state: S)
    ensures
        m.changed_to(new_state).reverted().current == m.current,
        m.changed_to(new_state).reverted().previous == Some(new_state),
{
}

/// Two frames after a change of state, the owner executes the new state: it
/// enters the new state in between.
pub proof fn lemma_change_settles_into_execute<S>(m: StateMachineView<S>, new_state: S)
    ensures
        m.changed_to(new_state).advanced().phase == StatePhase::Enter(new_state),
        m.changed_to(new_state).advanced().advanced().phase == StatePhase::Execute(new_state),
        m.changed_to(new_state).advanced().advanced().current == new_state,
        m.changed_to(new_state).advanced().advanced().previous == Some(m.current),
{
}

/// Advancing markers never changes the current or the previous state, and
/// keeps a consistent machine consistent.
pub proof fn lemma_advance_keeps_states<S>(m: StateMachineView<S>)
    requires
        m.is_consistent(),
    ensures
        m.advanced().current == m.current,
        m.advanced().previous == m.previous,
        m.advanced().is_consistent(),
        m.enter_advanced().is_consistent(),
        m.exit_advanced().is_consistent(),
{
}

} // verus!
