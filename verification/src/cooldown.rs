use vstd::prelude::*;

verus! {

/// The mathematical value of a cooldown. Times are in nanoseconds.
pub struct CooldownView {
    pub elapsed: u64,
    pub duration: u64,
    pub available: bool,
    pub just_available: bool,
}

impl CooldownView {
    /// A cooldown that is only just available is available, and an available
    /// cooldown has no time on its stopwatch.
    pub open spec fn is_consistent(self) -> bool {
        &&& self.just_available ==> self.available
        &&& self.available ==> self.elapsed == 0
    }

    /// A fresh cooldown of `duration`: available, and just so.
    pub open spec fn fresh(duration: u64) -> Self {
        CooldownView { elapsed: 0, duration, available: true, just_available: true }
    }

    /// The cooldown after `start`: no longer available.
    pub open spec fn started(self) -> Self {
        CooldownView { available: false, just_available: false, ..self }
    }

    /// The cooldown after `reset`: stopwatch back to zero, available, and
    /// just so.
    pub open spec fn reset(self) -> Self {
        CooldownView { elapsed: 0, available: true, just_available: true, ..self }
    }

    /// The cooldown after `delta` nanoseconds went by. An available cooldown
    /// only stops being just available; a running one advances its stopwatch
    /// (saturating) and becomes available once the stopwatch reaches the
    /// duration.
    pub open spec fn ticked(self, delta: u64) -> Self {
        if self.available {
            CooldownView { just_available: false, ..self }
        } else {
            let elapsed = if self.elapsed + delta > u64::MAX {
                u64::MAX
            } else {
                (self.elapsed + delta) as u64
            };
            if elapsed >= self.duration {
                CooldownView { elapsed, ..self }.reset()
            } else {
                CooldownView { elapsed, ..self }
            }
        }
    }
}

/// Something that can be done again only once a duration has passed since it
/// was last started.
#[derive(Debug, Clone, Copy)]
pub struct Cooldown {
    elapsed: u64,
    duration: u64,
    available: bool,
    just_available: bool,
}

impl View for Cooldown {
    type V = CooldownView;

    closed spec fn view(&self) -> CooldownView {
        CooldownView {
            elapsed: self.elapsed,
            duration: self.duration,
            available: self.available,
            just_available: self.just_available,
        }
    }
}

impl Cooldown {
    /// Every cooldown is consistent.
    #[verifier::type_invariant]
    spec fn consistent(self) -> bool {
        self@.is_consistent()
    }

    /// A cooldown of `duration` nanoseconds, available at once.
    pub fn new(duration: u64) -> (c: Self)
        ensures
            c@ == CooldownView::fresh(duration),
            c@.is_consistent(),
    {
        Cooldown { elapsed: 0, duration, available: true, just_available: true }
    }

    /// Starts the cooldown: it is unavailable until its duration has passed.
    pub fn start(&mut self)
        ensures
            old(self)@.is_consistent(),
            final(self)@ == old(self)@.started(),
            final(self)@.is_consistent(),
    {
        proof {
            use_type_invariant(&*self);
        }
        let elapsed = self.elapsed;
        let duration = self.duration;
        *self = Cooldown { elapsed, duration, available: false, just_available: false };
    }

    /// Whether the cooldown has run out.
    pub fn available(&self) -> (r: bool)
        ensures
            r == self@.available,
            self@.is_consistent(),
    {
        proof {
            use_type_invariant(self);
        }
        self.available
    }

    /// Whether the cooldown ran out during the last tick.
    pub fn just_available(&self) -> (r: bool)
        ensures
            r == self@.just_available,
            self@.is_consistent(),
    {
        proof {
            use_type_invariant(self);
        }
        self.just_available
    }

    /// The time on the stopwatch, in nanoseconds.
    pub fn elapsed(&self) -> (r: u64)
        ensures
            r == self@.elapsed,
            self@.is_consistent(),
    {
        proof {
            use_type_invariant(self);
        }
        self.elapsed
    }

    /// The duration of the cooldown, in nanoseconds.
    pub fn duration(&self) -> (r: u64)
        ensures
            r == self@.duration,
    {
        self.duration
    }

    /// Lets `delta` nanoseconds go by.
    pub fn tick(&mut self, delta: u64) -> (r: &Self)
        ensures
            old(self)@.is_consistent(),
            final(self)@ == old(self)@.ticked(delta),
            final(self)@.is_consistent(),
            r@ == final(self)@,
    {
        proof {
            use_type_invariant(&*self);
        }
        let duration = self.duration;
        if self.available() {
            let elapsed = self.elapsed;
            *self = Cooldown { elapsed, duration, available: true, just_available: false };
            return self;
        }
        let elapsed = self.elapsed.saturating_add(delta);
        if elapsed >= duration {
            self.reset();
        } else {
            *self = Cooldown { elapsed, duration, available: false, just_available: false };
        }
        self
    }

    /// Makes the cooldown available again and clears its stopwatch.
    pub fn reset(&mut self)
        ensures
            old(self)@.is_consistent(),
            final(self)@ == old(self)@.reset(),
            final(self)@.is_consistent(),
    {
        proof {
            use_type_invariant(&*self);
        }
        let duration = self.duration;
        *self = Cooldown { elapsed: 0, duration, available: true, just_available: true };
    }
}

/// Every operation keeps a cooldown consistent.
pub proof fn lemma_operations_keep_consistency(c: CooldownView, delta: u64)
    requires
        c.is_consistent(),
    ensures
        c.started().is_consistent(),
        c.ticked(delta).is_consistent(),
        c.reset().is_consistent(),
{
}

/// A started cooldown is available again, and just so, after a tick of at
/// least its duration.
pub proof fn lemma_available_after_duration(c: CooldownView, delta: u64)
    requires
        delta >= c.duration,
    ensures
        c.started().ticked(delta).available,
        c.started().ticked(delta).just_available,
        c.started().ticked(delta).elapsed == 0,
{
}

/// A started cooldown whose stopwatch was clear stays unavailable through a
/// tick shorter than its duration.
pub proof fn lemma_unavailable_before_duration(c: CooldownView, delta: u64)
    requires
        c.elapsed == 0,
        delta < c.duration,
    ensures
        !c.started().ticked(delta).available,
        c.started().ticked(delta).elapsed == delta,
{
}

/// Being just available lasts one tick.
pub proof fn lemma_just_available_lasts_one_tick(c: CooldownView, delta: u64)
    requires
        c.is_consistent(),
        c.just_available,
    ensures
        !c.ticked(delta).just_available,
        c.ticked(delta).available,
{
}

} // verus!
