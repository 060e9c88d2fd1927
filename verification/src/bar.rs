//! The bar's settings and its life cycle: publish once, then either close
//! or go on publishing at the refresh rate.

use vstd::prelude::*;

verus! {

/// The settings of a bar. They do not change once the bar runs.
#[derive(Clone, Copy, Debug, PartialEq, Eq, Structural)]
pub struct X11Bar {
    /// The pause between two status lines, in milliseconds.
    pub refresh_rate_ms: u64,
    /// Whether the bar goes on publishing until the process is stopped.
    pub is_looped: bool,
}

/// Where a bar stands in its life.
#[derive(Clone, Copy, Debug, PartialEq, Eq, Structural)]
pub enum Phase {
    /// The display connection is open and nothing has been published.
    Created,
    /// At least one status line has been published.
    Published,
    /// The display connection has been released. Nothing follows.
    Closed,
}

/// What the program around the bar has to do next.
#[derive(Clone, Copy, Debug, PartialEq, Eq, Structural)]
pub enum Action {
    /// Compose a status line and publish it.
    Publish,
    /// Pause for the given number of milliseconds, then compose a status
    /// line and publish it.
    SleepThenPublish(u64),
    /// Release the display connection.
    Close,
}

impl Default for X11Bar {
    /// A bar that publishes once, with a refresh rate of one second.
    fn default() -> (r: Self)
        ensures
            r == (X11Bar { refresh_rate_ms: 1000, is_looped: false }),
    {
        X11Bar { refresh_rate_ms: 1000, is_looped: false }
    }
}

impl X11Bar {
    /// The action that is due in `phase` and the phase that it leads to;
    /// nothing once the bar is closed.
    pub open spec fn next_action(&self, phase: Phase) -> Option<(Action, Phase)> {
        match phase {
            Phase::Created => Some((Action::Publish, Phase::Published)),
            Phase::Published => if self.is_looped {
                Some((Action::SleepThenPublish(self.refresh_rate_ms), Phase::Published))
            } else {
                Some((Action::Close, Phase::Closed))
            },
            Phase::Closed => None,
        }
    }

    /// The first `steps` actions of a bar that stands in `phase`, or all of
    /// them where it closes earlier.
    pub open spec fn trace(&self, phase: Phase, steps: nat) -> Seq<Action>
        decreases steps,
    {
        if steps == 0 {
            Seq::empty()
        } else {
            match self.next_action(phase) {
                None => Seq::empty(),
                Some((action, next)) => seq![action] + self.trace(next, (steps - 1) as nat),
            }
        }
    }

    /// Decides what is due in `phase`. The caller performs the action and
    /// comes back with the new phase.
    pub fn step(&self, phase: Phase) -> (r: Option<(Action, Phase)>)
        ensures
            r == self.next_action(phase),
    {
        match phase {
            Phase::Created => Some((Action::Publish, Phase::Published)),
            Phase::Published => if self.is_looped {
                Some((Action::SleepThenPublish(self.refresh_rate_ms), Phase::Published))
            } else {
                Some((Action::Close, Phase::Closed))
            },
            Phase::Closed => None,
        }
    }

    /// Runs a new bar for at most `max_steps` actions and returns them in
    /// order.
    ///
    /// A bar that does not loop publishes once and closes, without a pause.
    /// A looping bar publishes, then pauses and publishes again for as long
    /// as it is allowed to, and never closes by itself.
    pub fn run(&self, max_steps: usize) -> (r: Vec<Action>)
        ensures
            r@ == self.trace(Phase::Created, max_steps as nat),
            !self.is_looped && max_steps >= 2 ==> r@ == seq![Action::Publish, Action::Close],
            self.is_looped ==> r@.len() == max_steps,
            self.is_looped ==> forall|i: int|
                0 <= i < r@.len() ==> r@[i] == if i == 0 {
                    Action::Publish
                } else {
                    Action::SleepThenPublish(self.refresh_rate_ms)
                },
    {
        let mut actions: Vec<Action> = Vec::new();
        let mut phase = Phase::Created;
        let mut done: usize = 0;
        while done < max_steps
            invariant
                done <= max_steps,
                self.trace(Phase::Created, max_steps as nat) == actions@ + self.trace(
                    phase,
                    (max_steps - done) as nat,
                ),
            ensures
                done == max_steps || self.next_action(phase) is None,
            decreases max_steps - done,
        {
            match self.step(phase) {
                None => {
                    break ;
                },
                Some((action, next)) => {
                    proof {
                        assert(actions@.push(action) + self.trace(
                            next,
                            (max_steps - done - 1) as nat,
                        ) =~= actions@ + self.trace(phase, (max_steps - done) as nat));
                    }
                    actions.push(action);
                    phase = next;
                    done = done + 1;
                },
            }
        }
        proof {
            assert(self.trace(phase, (max_steps - done) as nat) =~= Seq::<Action>::empty());
            assert(actions@ =~= self.trace(Phase::Created, max_steps as nat));
            if self.is_looped {
                self.looping_trace(max_steps as nat);
            } else if max_steps >= 2 {
                self.single_trace(max_steps as nat);
            }
        }
        actions
    }

    /// A bar that does not loop publishes exactly once, then releases the
    /// connection, and never pauses: whatever the number of steps it is
    /// given beyond two, its actions are one publish and one close.
    pub proof fn single_trace(&self, steps: nat)
        requires
            !self.is_looped,
            steps >= 2,
        ensures
            self.trace(Phase::Created, steps) == seq![Action::Publish, Action::Close],
    {
        reveal_with_fuel(X11Bar::trace, 4);
        assert(self.trace(Phase::Closed, (steps - 2) as nat) =~= Seq::<Action>::empty());
        assert(self.trace(Phase::Created, steps) =~= seq![Action::Publish, Action::Close]);
    }

    /// A looping bar never stops by itself: for every number of steps its
    /// trace has that many actions, the first a publish and each later one a
    /// pause of the refresh rate followed by a publish; it never closes.
    pub proof fn looping_trace(&self, steps: nat)
        requires
            self.is_looped,
        ensures
            self.trace(Phase::Created, steps).len() == steps,
            forall|i: int|
                0 <= i < steps ==> #[trigger] self.trace(Phase::Created, steps)[i] == if i == 0 {
                    Action::Publish
                } else {
                    Action::SleepThenPublish(self.refresh_rate_ms)
                },
    {
        if steps > 0 {
            self.looping_tail((steps - 1) as nat);
        }
    }

    /// Once a looping bar has published, all that follows is pause and
    /// publish.
    pub proof fn looping_tail(&self, steps: nat)
        requires
            self.is_looped,
        ensures
            self.trace(Phase::Published, steps).len() == steps,
            forall|i: int|
                0 <= i < steps ==> #[trigger] self.trace(Phase::Published, steps)[i]
                    == Action::SleepThenPublish(self.refresh_rate_ms),
        decreases steps,
    {
        if steps > 0 {
            self.looping_tail((steps - 1) as nat);
        }
    }

    /// Nothing is done on a closed bar: the connection is never used after
    /// its release.
    pub proof fn closed_is_final(&self, steps: nat)
        ensures
            self.next_action(Phase::Closed) is None,
            self.trace(Phase::Closed, steps) == Seq::<Action>::empty(),
    {
    }
}

} // verus!
