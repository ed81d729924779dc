use vstd::prelude::*;

verus! {

/// Milliseconds between two ticks.
pub const TICK_MS: u64 = 250;

/// The key that ends the session.
pub const QUIT_KEY: char = 'q';

#[derive(Clone, Copy, Debug, PartialEq, Eq, Structural)]
pub enum Phase {
    Idle,
    Rendering,
    Waiting,
    Terminated,
}

/// What happened since the last step.
#[derive(Clone, Copy, Debug, PartialEq, Eq, Structural)]
pub enum LoopEvent {
    /// Nothing: the loop may go on.
    Proceed,
    /// The frame was sampled, laid out and painted.
    Rendered,
    /// A key was pressed.
    Key(char),
    /// An input event that is no key press.
    Other,
    /// The keyboard poll ran out of time.
    TimedOut,
}

/// What the driver is to do next.
#[derive(Clone, Copy, Debug, PartialEq, Eq, Structural)]
pub enum Action {
    /// Sample the metrics, lay them out and paint the frame.
    Render,
    /// Wait for a key press at most this many milliseconds.
    Poll(u64),
    /// Step again at once.
    Continue,
    /// End the loop.
    Stop,
}

/// When the last tick fired, and the interval between ticks, in milliseconds.
#[derive(Clone, Copy, Debug, PartialEq, Eq, Structural)]
pub struct TickClock {
    pub last_tick_ms: u64,
    pub interval_ms: u64,
}

#[derive(Clone, Copy, Debug, PartialEq, Eq, Structural)]
pub struct RefreshLoop {
    pub phase: Phase,
    pub clock: TickClock,
}

/// Time since the last tick; a clock that went back counts as none.
pub open spec fn elapsed(c: TickClock, now: u64) -> nat {
    if now >= c.last_tick_ms { (now - c.last_tick_ms) as nat } else { 0 }
}

/// What is left of the tick's budget: `max(0, interval - elapsed)`.
pub open spec fn wait_of(c: TickClock, now: u64) -> nat {
    if elapsed(c, now) >= c.interval_ms { 0 } else { (c.interval_ms - elapsed(c, now)) as nat }
}

/// One step of the loop: the next state and what the driver is to do.
pub open spec fn step_of(l: RefreshLoop, now: u64, e: LoopEvent) -> (RefreshLoop, Action) {
    match l.phase {
        Phase::Idle => (RefreshLoop { phase: Phase::Rendering, ..l }, Action::Render),
        Phase::Rendering => if e == LoopEvent::Rendered {
            (RefreshLoop { phase: Phase::Waiting, ..l }, Action::Poll(wait_of(l.clock, now) as u64))
        } else {
            (l, Action::Render)
        },
        Phase::Waiting => if e == LoopEvent::Key(QUIT_KEY) {
            (RefreshLoop { phase: Phase::Terminated, ..l }, Action::Stop)
        } else if elapsed(l.clock, now) >= l.clock.interval_ms {
            (
                RefreshLoop {
                    phase: Phase::Idle,
                    clock: TickClock { last_tick_ms: now, ..l.clock },
                },
                Action::Continue,
            )
        } else {
            (l, Action::Poll(wait_of(l.clock, now) as u64))
        },
        Phase::Terminated => (l, Action::Stop),
    }
}

impl TickClock {
    /// How long the keyboard poll may block at `now`.
    pub fn wait_ms(&self, now_ms: u64) -> (r: u64)
        ensures
            r as nat == wait_of(*self, now_ms),
            r <= self.interval_ms,
    {
        let elapsed: u64 = if now_ms >= self.last_tick_ms { now_ms - self.last_tick_ms } else { 0 };
        if elapsed >= self.interval_ms { 0 } else { self.interval_ms - elapsed }
    }
}

impl RefreshLoop {
    /// A loop about to run its first tick, the clock set at `now_ms`.
    pub fn new(now_ms: u64) -> (r: RefreshLoop)
        ensures
            r.phase == Phase::Idle,
            r.clock == (TickClock { last_tick_ms: now_ms, interval_ms: TICK_MS }),
    {
        RefreshLoop { phase: Phase::Idle, clock: TickClock { last_tick_ms: now_ms, interval_ms: TICK_MS } }
    }

    /// Takes the event observed at `now_ms` and says what to do next.
    pub fn step(&mut self, now_ms: u64, event: LoopEvent) -> (r: Action)
        ensures
            (*final(self), r) == step_of(*old(self), now_ms, event),
    {
        match self.phase {
            Phase::Idle => {
                self.phase = Phase::Rendering;
                Action::Render
            },
            Phase::Rendering => {
                if event == LoopEvent::Rendered {
                    self.phase = Phase::Waiting;
                    Action::Poll(self.clock.wait_ms(now_ms))
                } else {
                    Action::Render
                }
            },
            Phase::Waiting => {
                let elapsed: u64 = if now_ms >= self.clock.last_tick_ms {
                    now_ms - self.clock.last_tick_ms
                } else {
                    0
                };
                if event == LoopEvent::Key(QUIT_KEY) {
                    self.phase = Phase::Terminated;
                    Action::Stop
                } else if elapsed >= self.clock.interval_ms {
                    self.phase = Phase::Idle;
                    self.clock.last_tick_ms = now_ms;
                    Action::Continue
                } else {
                    Action::Poll(self.clock.wait_ms(now_ms))
                }
            },
            Phase::Terminated => Action::Stop,
        }
    }

    /// Whether the loop has ended.
    pub fn is_terminated(&self) -> (r: bool)
        ensures
            r == (self.phase == Phase::Terminated),
    {
        self.phase == Phase::Terminated
    }
}

/// The wait never goes below zero nor above the interval; once a whole interval
/// has passed (a slow cycle), it is zero, and the tick fires at the next step
/// of the waiting phase, with the clock reset to that moment.
pub proof fn lemma_no_drift(l: RefreshLoop, now: u64, e: LoopEvent)
    requires
        l.phase == Phase::Waiting,
        e != LoopEvent::Key(QUIT_KEY),
    ensures
        wait_of(l.clock, now) <= l.clock.interval_ms,
        elapsed(l.clock, now) >= l.clock.interval_ms ==> wait_of(l.clock, now) == 0,
        elapsed(l.clock, now) >= l.clock.interval_ms ==> step_of(l, now, e) == (
            RefreshLoop { phase: Phase::Idle, clock: TickClock { last_tick_ms: now, interval_ms: l.clock.interval_ms } },
            Action::Continue,
        ),
{
}

/// After a cycle that ends once the interval has passed, the poll is told to
/// wait zero milliseconds.
pub proof fn lemma_slow_render_polls_zero(l: RefreshLoop, now: u64)
    requires
        l.phase == Phase::Rendering,
        elapsed(l.clock, now) >= l.clock.interval_ms,
    ensures
        step_of(l, now, LoopEvent::Rendered).1 == Action::Poll(0),
        step_of(l, now, LoopEvent::Rendered).0.phase == Phase::Waiting,
{
}

/// The quit key while waiting ends the loop at once, whatever is left of the
/// wait; any other key or event before the interval has passed keeps it
/// waiting, for what is left of the tick.
pub proof fn lemma_quit_and_other_keys(l: RefreshLoop, now: u64, e: LoopEvent)
    requires
        l.phase == Phase::Waiting,
    ensures
        step_of(l, now, LoopEvent::Key(QUIT_KEY)).0.phase == Phase::Terminated,
        step_of(l, now, LoopEvent::Key(QUIT_KEY)).1 == Action::Stop,
        e != LoopEvent::Key(QUIT_KEY) && elapsed(l.clock, now) < l.clock.interval_ms ==> step_of(l, now, e)
            == (l, Action::Poll(wait_of(l.clock, now) as u64)),
        step_of(
            RefreshLoop { phase: Phase::Terminated, ..l },
            now,
            e,
        ).0.phase == Phase::Terminated,
{
}

} // verus!
