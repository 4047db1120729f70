use vstd::prelude::*;

verus! {

/// The state that starts a self-timed chain.
pub fn seed_state() -> (r: bool)
    ensures
        r,
{
    true
}

/// The state sent back into the first channel when the last one has passed
/// `terminal` on: the one inversion of the chain.
pub fn restart_state(terminal: bool) -> (r: bool)
    ensures
        r == !terminal,
{
    !terminal
}

/// Steps of the externally timed pattern: each channel on in turn, then each
/// channel off in turn.
pub const STEPS: u8 = 6;

/// Time between two steps of the externally timed pattern.
pub const STEP_MS: u64 = 500;

/// One command of the externally timed pattern: signal `channel` (from 1)
/// with `state`.
#[derive(Clone, Copy, Debug, PartialEq, Eq, Structural)]
pub struct Command {
    pub channel: usize,
    pub state: bool,
}

/// The command of step `step` (1 to 6): steps 1 to 3 switch channels 1 to 3
/// on, steps 4 to 6 switch them off.
pub open spec fn step_command(step: nat) -> Command {
    Command { channel: ((step - 1) % 3 + 1) as usize, state: step <= 3 }
}

/// The step after `step`, wrapping from 6 to 1.
pub open spec fn next_step(step: nat) -> nat {
    if step >= 6 {
        1
    } else {
        step + 1
    }
}

/// The sequencer of the externally timed pattern: a counter that cycles
/// through steps 1 to 6.
pub struct StepSequencer {
    step: u8,
}

impl StepSequencer {
    #[verifier::type_invariant]
    spec fn inv(&self) -> bool {
        1 <= self.step <= STEPS
    }

    /// The step whose command comes next.
    pub closed spec fn step(&self) -> nat {
        self.step as nat
    }

    /// A sequencer at step 1.
    pub fn new() -> (r: StepSequencer)
        ensures
            r.step() == 1,
    {
        StepSequencer { step: 1 }
    }

    /// The step whose command comes next.
    pub fn current_step(&self) -> (r: u8)
        ensures
            r as nat == self.step(),
            1 <= r <= 6,
    {
        proof {
            use_type_invariant(self);
        }
        self.step
    }

    /// Hands out the command of the current step and moves to the next one.
    pub fn advance(&mut self) -> (r: Command)
        ensures
            1 <= old(self).step() <= 6,
            r == step_command(old(self).step()),
            final(self).step() == next_step(old(self).step()),
    {
        proof {
            use_type_invariant(&*self);
        }
        let step = self.step;
        let channel: usize = ((step - 1) % 3 + 1) as usize;
        let r = Command { channel, state: step <= 3 };
        self.step = if step >= STEPS {
            1
        } else {
            step + 1
        };
        r
    }
}

} // verus!
