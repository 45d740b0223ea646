use vstd::prelude::*;

verus! {

/// POSIX interrupt signal number.
pub const SIGINT: i32 = 2;

/// POSIX terminate signal number.
pub const SIGTERM: i32 = 15;

/// Whether the main loop should keep going.
#[derive(Clone, Copy, Debug, PartialEq, Eq, Structural)]
pub enum RunState {
    Running,
    Stopping,
}

/// Interrupt and terminate both ask for a graceful stop.
pub open spec fn is_termination(sig: i32) -> bool {
    sig == SIGINT || sig == SIGTERM
}

/// The state after one signal is delivered in state `s`.
pub open spec fn after_signal(s: RunState, sig: i32) -> RunState {
    if is_termination(sig) {
        RunState::Stopping
    } else {
        s
    }
}

/// The state after the signals of `sigs` are delivered in order.
pub open spec fn after_signals(s: RunState, sigs: Seq<i32>) -> RunState
    decreases sigs.len(),
{
    if sigs.len() == 0 {
        s
    } else {
        after_signals(after_signal(s, sigs[0]), sigs.drop_first())
    }
}

/// Tells whether a signal number asks for a graceful stop.
pub fn is_termination_signal(sig: i32) -> (r: bool)
    ensures
        r == is_termination(sig),
{
    sig == SIGINT || sig == SIGTERM
}

/// The flag shared between the main loop and the signal watcher.
/// It starts `Running` and, once `Stopping`, stays so.
#[derive(Debug)]
pub struct ShutdownFlag {
    state: RunState,
}

impl ShutdownFlag {
    pub closed spec fn view(&self) -> RunState {
        self.state
    }

    pub fn new() -> (r: ShutdownFlag)
        ensures
            r.view() == RunState::Running,
    {
        ShutdownFlag { state: RunState::Running }
    }

    /// Records the delivery of a signal: a termination signal moves the flag
    /// to `Stopping`, any other leaves it as it was.
    pub fn on_signal(&mut self, sig: i32)
        ensures
            final(self).view() == after_signal(old(self).view(), sig),
    {
        if is_termination_signal(sig) {
            self.state = RunState::Stopping;
        }
    }

    pub fn state(&self) -> (r: RunState)
        ensures
            r == self.view(),
    {
        self.state
    }

    pub fn is_running(&self) -> (r: bool)
        ensures
            r == (self.view() == RunState::Running),
    {
        match self.state {
            RunState::Running => true,
            RunState::Stopping => false,
        }
    }
}

/// Once the flag reads `Stopping`, no sequence of further signals, of any
/// kind and any number, brings it back to `Running`.
pub proof fn lemma_stopping_is_final(sigs: Seq<i32>)
    ensures
        after_signals(RunState::Stopping, sigs) == RunState::Stopping,
    decreases sigs.len(),
{
    if sigs.len() > 0 {
        lemma_stopping_is_final(sigs.drop_first());
    }
}

/// A single termination signal anywhere in a run of signals leaves the flag
/// `Stopping`, whatever state it started in.
pub proof fn lemma_termination_stops(s: RunState, sigs: Seq<i32>, i: int)
    requires
        0 <= i < sigs.len(),
        is_termination(sigs[i]),
    ensures
        after_signals(s, sigs) == RunState::Stopping,
    decreases sigs.len(),
{
    if i == 0 {
        lemma_stopping_is_final(sigs.drop_first());
    } else {
        lemma_termination_stops(after_signal(s, sigs[0]), sigs.drop_first(), i - 1);
    }
}

} // verus!
