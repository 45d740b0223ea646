use vstd::prelude::*;
use crate::clock::{local_now, ClockTime};
use crate::render::{is_layout_for, layout_for, RenderLayout, WeatherSnapshot, BLANK};
use crate::shutdown::{after_signal, is_termination, RunState};

verus! {

/// How long to idle, in milliseconds, when no new reading is due yet.
pub const IDLE_MS: u64 = 500;

/// What one poll of the weather provider gave.
#[derive(Clone, Debug)]
pub enum PollOutcome {
    /// A new reading is ready.
    Fresh(WeatherSnapshot),
    /// The last fetch failed, with the provider's message.
    Failed(String),
    /// No new reading is due yet.
    Pending,
}

/// Sorts a provider answer into the three outcomes: no answer is `Pending`,
/// a reading is `Fresh`, an error is `Failed` with its message.
pub fn classify(update: Option<Result<WeatherSnapshot, String>>) -> (r: PollOutcome)
    ensures
        match update {
            None => r is Pending,
            Some(Ok(s)) => r == PollOutcome::Fresh(s),
            Some(Err(m)) => r == PollOutcome::Failed(m),
        },
{
    match update {
        None => PollOutcome::Pending,
        Some(Ok(s)) => PollOutcome::Fresh(s),
        Some(Err(m)) => PollOutcome::Failed(m),
    }
}

/// What the loop is waiting for.
#[derive(Clone, Copy, Debug, PartialEq, Eq, Structural)]
pub enum Phase {
    /// A read of the shutdown flag.
    Checking,
    /// The outcome of a poll.
    Polling,
    /// Nothing: the display has been released.
    Terminated,
}

/// What the loop is told.
#[derive(Clone, Debug)]
pub enum Event {
    /// The shutdown flag was read.
    Flag(RunState),
    /// The weather provider was polled.
    Polled(PollOutcome),
}

/// What the loop asks to be done next.
#[derive(Clone, Debug)]
pub enum Action {
    /// Read the shutdown flag.
    Check,
    /// Poll the weather provider.
    Poll,
    /// Clear, draw and present this frame, then read the flag.
    Render(RenderLayout),
    /// Print this fetch error to the diagnostic output, then read the flag.
    Report(String),
    /// Sleep this many milliseconds, then read the flag.
    Sleep(u64),
    /// Clear the screen to this color and release the display.
    Teardown(u32),
    /// Leave the loop.
    Halt,
}

/// The kinds of `Action`, without their payloads.
#[derive(Clone, Copy, Debug, PartialEq, Eq, Structural)]
pub enum ActionKind {
    Check,
    Poll,
    Render,
    Report,
    Sleep,
    Teardown,
    Halt,
}

impl Action {
    pub open spec fn kind(self) -> ActionKind {
        match self {
            Action::Check => ActionKind::Check,
            Action::Poll => ActionKind::Poll,
            Action::Render(_) => ActionKind::Render,
            Action::Report(_) => ActionKind::Report,
            Action::Sleep(_) => ActionKind::Sleep,
            Action::Teardown(_) => ActionKind::Teardown,
            Action::Halt => ActionKind::Halt,
        }
    }
}

/// The phase after event `e` in phase `p`. Events that do not answer what
/// the loop waits for leave the phase as it was.
pub open spec fn next_phase(p: Phase, e: Event) -> Phase {
    match (p, e) {
        (Phase::Checking, Event::Flag(RunState::Running)) => Phase::Polling,
        (Phase::Checking, Event::Flag(RunState::Stopping)) => Phase::Terminated,
        (Phase::Polling, Event::Polled(_)) => Phase::Checking,
        _ => p,
    }
}

/// The kind of action that event `e` in phase `p` leads to.
pub open spec fn next_kind(p: Phase, e: Event) -> ActionKind {
    match (p, e) {
        (Phase::Terminated, _) => ActionKind::Halt,
        (Phase::Checking, Event::Flag(RunState::Running)) => ActionKind::Poll,
        (Phase::Checking, Event::Flag(RunState::Stopping)) => ActionKind::Teardown,
        (Phase::Checking, Event::Polled(_)) => ActionKind::Check,
        (Phase::Polling, Event::Flag(_)) => ActionKind::Poll,
        (Phase::Polling, Event::Polled(PollOutcome::Fresh(_))) => ActionKind::Render,
        (Phase::Polling, Event::Polled(PollOutcome::Failed(_))) => ActionKind::Report,
        (Phase::Polling, Event::Polled(PollOutcome::Pending)) => ActionKind::Sleep,
    }
}

/// The payload that the action `a` for event `e` in phase `p` carries, with
/// the frame stamped at time `t`.
pub open spec fn payload_ok(p: Phase, e: Event, t: ClockTime, a: Action) -> bool {
    match a {
        Action::Render(l) => e matches Event::Polled(PollOutcome::Fresh(s)) && is_layout_for(l, s, t),
        Action::Report(m) => e matches Event::Polled(PollOutcome::Failed(msg)) && m@ == msg@,
        Action::Sleep(ms) => ms == IDLE_MS,
        Action::Teardown(c) => c == BLANK,
        _ => true,
    }
}

/// The kinds of action that the events of `es` lead to, in order, from
/// phase `p`.
pub open spec fn kinds(p: Phase, es: Seq<Event>) -> Seq<ActionKind>
    decreases es.len(),
{
    if es.len() == 0 {
        Seq::empty()
    } else {
        seq![next_kind(p, es[0])] + kinds(next_phase(p, es[0]), es.drop_first())
    }
}

/// The decisions of the main loop: it reads the shutdown flag, polls while
/// the flag reads `Running`, renders, reports or idles on each outcome, and
/// tears the display down once when the flag reads `Stopping`.
#[derive(Debug)]
pub struct MainLoop {
    phase: Phase,
}

impl MainLoop {
    pub closed spec fn view(&self) -> Phase {
        self.phase
    }

    /// A loop that starts by reading the flag.
    pub fn new() -> (r: MainLoop)
        ensures
            r.view() == Phase::Checking,
    {
        MainLoop { phase: Phase::Checking }
    }

    pub fn phase(&self) -> (r: Phase)
        ensures
            r == self.view(),
    {
        self.phase
    }

    /// Takes one event and says what to do next; a frame is stamped with the
    /// time of day `now`.
    pub fn step_at(&mut self, e: Event, now: &ClockTime) -> (r: Action)
        requires
            now.wf(),
        ensures
            final(self).view() == next_phase(old(self).view(), e),
            r.kind() == next_kind(old(self).view(), e),
            payload_ok(old(self).view(), e, *now, r),
    {
        match self.phase {
            Phase::Terminated => Action::Halt,
            Phase::Checking => match e {
                Event::Flag(RunState::Running) => {
                    self.phase = Phase::Polling;
                    Action::Poll
                },
                Event::Flag(RunState::Stopping) => {
                    self.phase = Phase::Terminated;
                    Action::Teardown(BLANK)
                },
                Event::Polled(_) => Action::Check,
            },
            Phase::Polling => match e {
                Event::Flag(_) => Action::Poll,
                Event::Polled(outcome) => {
                    self.phase = Phase::Checking;
                    match outcome {
                        PollOutcome::Fresh(s) => Action::Render(layout_for(&s, now)),
                        PollOutcome::Failed(m) => Action::Report(m),
                        PollOutcome::Pending => Action::Sleep(IDLE_MS),
                    }
                },
            },
        }
    }

    /// Takes one event and says what to do next; a frame is stamped with the
    /// local time now.
    pub fn step(&mut self, e: Event) -> (r: Action)
        ensures
            final(self).view() == next_phase(old(self).view(), e),
            r.kind() == next_kind(old(self).view(), e),
            exists|t: ClockTime| t.wf() && payload_ok(old(self).view(), e, t, r),
    {
        let now = local_now();
        self.step_at(e, &now)
    }
}

/// Once the display is released, every further event leads to `Halt`.
pub proof fn lemma_terminated_halts(es: Seq<Event>)
    ensures
        kinds(Phase::Terminated, es).len() == es.len(),
        forall|i: int| 0 <= i < es.len() ==> kinds(Phase::Terminated, es)[i] == ActionKind::Halt,
    decreases es.len(),
{
    if es.len() > 0 {
        lemma_terminated_halts(es.drop_first());
    }
}

/// A loop that reads `Running`, gets a fresh reading, and then reads the flag
/// after a termination signal, renders exactly once and then tears down; no
/// event after that renders again.
pub proof fn lemma_render_once_then_teardown(s: WeatherSnapshot, sig: i32, rest: Seq<Event>)
    requires
        is_termination(sig),
    ensures
        ({
            let es = seq![
                Event::Flag(RunState::Running),
                Event::Polled(PollOutcome::Fresh(s)),
                Event::Flag(after_signal(RunState::Running, sig)),
            ] + rest;
            let ks = kinds(Phase::Checking, es);
            &&& ks.len() == es.len()
            &&& ks[0] == ActionKind::Poll
            &&& ks[1] == ActionKind::Render
            &&& ks[2] == ActionKind::Teardown
            &&& forall|i: int| 3 <= i < ks.len() ==> ks[i] == ActionKind::Halt
        }),
{
    let es = seq![
        Event::Flag(RunState::Running),
        Event::Polled(PollOutcome::Fresh(s)),
        Event::Flag(after_signal(RunState::Running, sig)),
    ] + rest;
    let es1 = es.drop_first();
    let es2 = es1.drop_first();
    let es3 = es2.drop_first();
    assert(es3 =~= rest);
    lemma_terminated_halts(rest);
    let k3 = kinds(Phase::Terminated, es3);
    let k2 = kinds(Phase::Checking, es2);
    let k1 = kinds(Phase::Polling, es1);
    assert(k2 =~= seq![ActionKind::Teardown] + k3);
    assert(k1 =~= seq![ActionKind::Render] + k2);
}

} // verus!
