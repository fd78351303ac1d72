use vstd::prelude::*;
use vstd::arithmetic::div_mod::{lemma_fundamental_div_mod, lemma_mod_pos_bound};

verus! {

/// Whether the frame loop goes on.
#[derive(Clone, Copy, Debug, PartialEq, Eq, Structural)]
pub enum RunState {
    Running,
    Stopped,
}

/// The keys that the loop tells apart.
#[derive(Clone, Copy, Debug, PartialEq, Eq, Structural)]
pub enum Key {
    Escape,
    Other,
}

/// An input signal taken from the window's event queue.
#[derive(Clone, Copy, Debug, PartialEq, Eq, Structural)]
pub enum Signal {
    Quit,
    KeyDown(Key),
    Other,
}

/// What the loop does after polling its input.
#[derive(Clone, Copy, Debug, PartialEq, Eq, Structural)]
pub enum Action {
    /// Fill, present, then sleep out the rest of the frame.
    Render,
    /// Leave the loop at once, without sleeping.
    Exit,
}

/// A signal that ends the loop: the window is closed or Escape is pressed.
pub open spec fn stops(s: Signal) -> bool {
    s == Signal::Quit || s == Signal::KeyDown(Key::Escape)
}

/// Some signal of the batch ends the loop.
pub open spec fn stops_any(signals: Seq<Signal>) -> bool {
    exists|i: int| 0 <= i < signals.len() && stops(#[trigger] signals[i])
}

/// The state after one poll: stopped stays stopped, and a stopping signal
/// stops a running loop.
pub open spec fn next_state(state: RunState, signals: Seq<Signal>) -> RunState {
    if state == RunState::Stopped || stops_any(signals) {
        RunState::Stopped
    } else {
        RunState::Running
    }
}

/// The frame budget for `fps` frames a second: 1000 / fps milliseconds,
/// rounded to the nearest integer with halves going up.
pub open spec fn frame_budget(fps: int) -> int {
    (2 * 1000 + fps) / (2 * fps)
}

/// What is left of the budget after `elapsed` milliseconds, never below zero.
pub open spec fn sleep_time(budget: int, elapsed: int) -> int {
    if elapsed < budget {
        budget - elapsed
    } else {
        0
    }
}

/// Whether `s` ends the loop.
pub fn is_stop_signal(s: &Signal) -> (r: bool)
    ensures
        r == stops(*s),
{
    match s {
        Signal::Quit => true,
        Signal::KeyDown(Key::Escape) => true,
        _ => false,
    }
}

/// The state after the loop has polled `signals` in `state`.
pub fn poll_step(state: RunState, signals: &[Signal]) -> (r: RunState)
    ensures
        r == next_state(state, signals@),
{
    if state == RunState::Stopped {
        return RunState::Stopped;
    }
    let mut i: usize = 0;
    while i < signals.len()
        invariant
            i <= signals@.len(),
            forall|j: int| 0 <= j < i ==> !stops(#[trigger] signals@[j]),
        decreases signals@.len() - i,
    {
        if is_stop_signal(&signals[i]) {
            return RunState::Stopped;
        }
        i = i + 1;
    }
    RunState::Running
}

/// The frame budget in milliseconds for `fps` frames a second.
pub fn frame_budget_ms(fps: u32) -> (r: u64)
    requires
        fps > 0,
    ensures
        r == frame_budget(fps as int),
        2 * fps * r <= 2 * 1000 + fps < 2 * fps * (r + 1),
{
    let d: u64 = 2 * (fps as u64);
    let a: u64 = 2000 + (fps as u64);
    let r = a / d;
    proof {
        lemma_fundamental_div_mod(a as int, d as int);
        lemma_mod_pos_bound(a as int, d as int);
        assert(d * r <= a < d * r + d);
        assert(2 * fps * r == d * r) by (nonlinear_arith)
            requires
                d == 2 * fps,
        ;
        assert(2 * fps * (r + 1) == d * r + d) by (nonlinear_arith)
            requires
                d == 2 * fps,
        ;
    }
    r
}

/// How long to sleep after a frame that took `elapsed_ms` of a `budget_ms`
/// budget: the rest of the budget, or zero once it is spent.
pub fn sleep_time_ms(budget_ms: u64, elapsed_ms: u64) -> (r: u64)
    ensures
        r == sleep_time(budget_ms as int, elapsed_ms as int),
        elapsed_ms >= budget_ms ==> r == 0,
        r <= budget_ms,
{
    if elapsed_ms < budget_ms {
        budget_ms - elapsed_ms
    } else {
        0
    }
}

/// A stopping signal in the batch stops the loop in the poll that sees it,
/// whatever else the batch holds, so no sleep follows.
pub proof fn lemma_stop_signal_stops(state: RunState, signals: Seq<Signal>, i: int)
    requires
        0 <= i < signals.len(),
        stops(signals[i]),
    ensures
        next_state(state, signals) == RunState::Stopped,
{
}

/// Once stopped, no batch of signals starts the loop again.
pub proof fn lemma_stopped_is_final(signals: Seq<Signal>)
    ensures
        next_state(RunState::Stopped, signals) == RunState::Stopped,
{
}

/// The state of the frame loop and its fixed frame budget.
pub struct FrameDriver {
    pub state: RunState,
    pub budget_ms: u64,
}

impl FrameDriver {
    /// A running loop paced at `fps` frames a second.
    pub fn new(fps: u32) -> (d: FrameDriver)
        requires
            fps > 0,
        ensures
            d.state == RunState::Running,
            d.budget_ms == frame_budget(fps as int),
    {
        FrameDriver { state: RunState::Running, budget_ms: frame_budget_ms(fps) }
    }

    /// Whether the loop goes on.
    pub fn is_running(&self) -> (r: bool)
        ensures
            r == (self.state == RunState::Running),
    {
        self.state == RunState::Running
    }

    /// Takes the signals drained from the event queue at the start of an
    /// iteration, and says whether to render this frame or to leave.
    pub fn poll(&mut self, signals: &[Signal]) -> (a: Action)
        ensures
            final(self).state == next_state(old(self).state, signals@),
            final(self).budget_ms == old(self).budget_ms,
            a == Action::Exit <==> final(self).state == RunState::Stopped,
            stops_any(signals@) ==> a == Action::Exit,
    {
        self.state = poll_step(self.state, signals);
        if self.state == RunState::Stopped {
            Action::Exit
        } else {
            Action::Render
        }
    }

    /// How long to sleep after a frame whose fill and present took
    /// `elapsed_ms`.
    pub fn sleep_ms(&self, elapsed_ms: u64) -> (r: u64)
        ensures
            r == sleep_time(self.budget_ms as int, elapsed_ms as int),
    {
        sleep_time_ms(self.budget_ms, elapsed_ms)
    }
}

} // verus!
