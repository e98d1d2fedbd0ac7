//! The render loop's lifecycle, and the guarantee that the terminal is
//! restored exactly once.
//!
//! Entering the dashboard takes over the terminal (alternate screen, raw
//! input mode); leaving it must give the terminal back — on the normal
//! quit path and on the error path alike, and never twice. The lifecycle
//! is a small state machine: `Initializing` until the takeover, `Running`
//! while frames are drawn, `Terminating` once the loop has stopped (quit
//! key or a draw error) but the terminal is still taken over, `Released`
//! after the restore. A `RenderSession` carries the machine together with
//! a ghost trace of every step taken, so the exactly-once law is stated
//! over whole histories, not single steps.

use vstd::prelude::*;

verus! {

/// Where the render loop stands in its lifecycle.
#[derive(Debug, Clone, Copy, PartialEq, Eq, Structural)]
pub enum Phase {
    /// Before the terminal takeover.
    Initializing,
    /// Terminal taken over; frames are being drawn.
    Running,
    /// The loop has stopped but the terminal is still taken over.
    Terminating,
    /// The terminal has been given back.
    Released,
}

/// What one frame of the running loop observed.
#[derive(Debug, Clone, Copy, PartialEq, Eq, Structural)]
pub enum FrameEvent {
    /// The quit key was pressed: stop the loop.
    QuitKey,
    /// Some other key was pressed: ignore it and keep drawing.
    OtherKey,
    /// No input arrived within the frame's wait: keep drawing.
    Idle,
    /// Drawing or input polling failed: stop the loop, the terminal must
    /// still be given back.
    DrawError,
}

/// One step of the lifecycle: the takeover, one frame, or the restore.
#[derive(Debug, Clone, Copy, PartialEq, Eq, Structural)]
pub enum UiStep {
    Begin,
    Frame(FrameEvent),
    Restore,
}

/// The phase a running loop is in after one frame: still `Running`, unless
/// the frame saw the quit key or failed.
pub open spec fn frame_next(ev: FrameEvent) -> Phase {
    match ev {
        FrameEvent::QuitKey => Phase::Terminating,
        FrameEvent::DrawError => Phase::Terminating,
        FrameEvent::OtherKey => Phase::Running,
        FrameEvent::Idle => Phase::Running,
    }
}

/// Which steps a phase admits: the takeover only before it happened,
/// frames only while running, the restore only after the loop stopped —
/// and nothing at all once the terminal was given back.
pub open spec fn step_enabled(p: Phase, step: UiStep) -> bool {
    match step {
        UiStep::Begin => p == Phase::Initializing,
        UiStep::Frame(_) => p == Phase::Running,
        UiStep::Restore => p == Phase::Terminating,
    }
}

/// The phase after taking one step.
pub open spec fn step_next(p: Phase, step: UiStep) -> Phase {
    match step {
        UiStep::Begin => Phase::Running,
        UiStep::Frame(ev) => frame_next(ev),
        UiStep::Restore => Phase::Released,
    }
}

/// Every step of the trace was admitted by the phase it was taken in.
pub open spec fn valid_trace(p: Phase, tr: Seq<UiStep>) -> bool
    decreases tr.len(),
{
    tr.len() == 0 || (step_enabled(p, tr.first()) && valid_trace(step_next(p, tr.first()), tr.drop_first()))
}

/// The phase reached after taking every step of the trace in order.
pub open spec fn run_trace(p: Phase, tr: Seq<UiStep>) -> Phase
    decreases tr.len(),
{
    if tr.len() == 0 {
        p
    } else {
        run_trace(step_next(p, tr.first()), tr.drop_first())
    }
}

/// How many restore steps the trace contains.
pub open spec fn restore_count(tr: Seq<UiStep>) -> nat
    decreases tr.len(),
{
    if tr.len() == 0 {
        0
    } else {
        (if tr.first() == UiStep::Restore {
            1nat
        } else {
            0nat
        }) + restore_count(tr.drop_first())
    }
}

/// How many restores a phase still owes before the terminal is back: one
/// from takeover until the restore has happened, none after.
pub open spec fn restores_owed(p: Phase) -> nat {
    if p == Phase::Released {
        0
    } else {
        1
    }
}

/// Along any valid trace, the restores taken plus the restores still owed
/// are constant: exactly the one restore the takeover owes.
proof fn lemma_restore_accounting(p: Phase, tr: Seq<UiStep>)
    requires
        valid_trace(p, tr),
    ensures
        restore_count(tr) + restores_owed(run_trace(p, tr)) == restores_owed(p),
    decreases tr.len(),
{
    if tr.len() > 0 {
        lemma_restore_accounting(step_next(p, tr.first()), tr.drop_first());
    }
}

/// Law of the terminal takeover: a session that ran from start to
/// `Released` restored the terminal exactly once — and however far a
/// session got, it never restored twice.
pub proof fn lemma_restore_exactly_once(tr: Seq<UiStep>)
    requires
        valid_trace(Phase::Initializing, tr),
    ensures
        restore_count(tr) <= 1,
        run_trace(Phase::Initializing, tr) == Phase::Released ==> restore_count(tr) == 1,
        run_trace(Phase::Initializing, tr) != Phase::Released ==> restore_count(tr) == 0,
{
    lemma_restore_accounting(Phase::Initializing, tr);
}

/// A trace admits one more step exactly when that step is enabled at its
/// final phase; the extended trace ends at the step's successor phase.
proof fn lemma_trace_snoc(p: Phase, tr: Seq<UiStep>, step: UiStep)
    requires
        valid_trace(p, tr),
        step_enabled(run_trace(p, tr), step),
    ensures
        valid_trace(p, tr.push(step)),
        run_trace(p, tr.push(step)) == step_next(run_trace(p, tr), step),
    decreases tr.len(),
{
    let s = tr.push(step);
    if tr.len() == 0 {
        assert(s.first() == step);
        assert(s.drop_first() =~= tr);
        assert(run_trace(p, s) == run_trace(step_next(p, step), tr));
        assert(run_trace(step_next(p, step), tr) == step_next(p, step));
        assert(valid_trace(step_next(p, step), tr));
    } else {
        lemma_trace_snoc(step_next(p, tr.first()), tr.drop_first(), step);
        assert(s.first() == tr.first());
        assert(s.drop_first() =~= tr.drop_first().push(step));
        assert(run_trace(p, s) == run_trace(step_next(p, s.first()), s.drop_first()));
        assert(run_trace(p, tr) == run_trace(step_next(p, tr.first()), tr.drop_first()));
        assert(valid_trace(p, s));
    }
}

/// The render loop's lifecycle as a value: the current phase, and a ghost
/// record of every step taken since the session was created.
pub struct RenderSession {
    pub phase: Phase,
    pub trace: Ghost<Seq<UiStep>>,
}

impl RenderSession {
    /// The recorded trace is a valid history that starts before the
    /// takeover and ends in the current phase.
    pub open spec fn wf(self) -> bool {
        &&& valid_trace(Phase::Initializing, self.trace@)
        &&& self.phase == run_trace(Phase::Initializing, self.trace@)
    }

    /// A fresh session, before the terminal takeover.
    pub fn new() -> (s: RenderSession)
        ensures
            s.wf(),
            s.phase == Phase::Initializing,
            s.trace@ == Seq::<UiStep>::empty(),
    {
        RenderSession { phase: Phase::Initializing, trace: Ghost(Seq::empty()) }
    }

    /// Record the terminal takeover; the loop is now running.
    pub fn begin(&mut self)
        requires
            old(self).wf(),
            old(self).phase == Phase::Initializing,
        ensures
            final(self).wf(),
            final(self).phase == Phase::Running,
            final(self).trace@ == old(self).trace@.push(UiStep::Begin),
    {
        proof {
            lemma_trace_snoc(Phase::Initializing, self.trace@, UiStep::Begin);
        }
        self.phase = Phase::Running;
        self.trace = Ghost(self.trace@.push(UiStep::Begin));
    }

    /// Record one frame's outcome. Returns whether the loop goes on: it
    /// stops on the quit key and on a draw failure, and keeps running on
    /// any other input or none.
    pub fn on_frame(&mut self, ev: FrameEvent) -> (keep_running: bool)
        requires
            old(self).wf(),
            old(self).phase == Phase::Running,
        ensures
            final(self).wf(),
            final(self).phase == frame_next(ev),
            final(self).trace@ == old(self).trace@.push(UiStep::Frame(ev)),
            keep_running == (frame_next(ev) == Phase::Running),
    {
        proof {
            lemma_trace_snoc(Phase::Initializing, self.trace@, UiStep::Frame(ev));
        }
        let next = match ev {
            FrameEvent::QuitKey => Phase::Terminating,
            FrameEvent::DrawError => Phase::Terminating,
            FrameEvent::OtherKey => Phase::Running,
            FrameEvent::Idle => Phase::Running,
        };
        self.phase = next;
        self.trace = Ghost(self.trace@.push(UiStep::Frame(ev)));
        match next {
            Phase::Running => true,
            _ => false,
        }
    }

    /// Record that the terminal was given back. Only a session whose loop
    /// has stopped — and that has not restored yet — admits this step, and
    /// afterwards the whole history contains exactly one restore.
    pub fn mark_restored(&mut self)
        requires
            old(self).wf(),
            old(self).phase == Phase::Terminating,
        ensures
            final(self).wf(),
            final(self).phase == Phase::Released,
            final(self).trace@ == old(self).trace@.push(UiStep::Restore),
            restore_count(final(self).trace@) == 1,
    {
        proof {
            lemma_trace_snoc(Phase::Initializing, self.trace@, UiStep::Restore);
            lemma_restore_exactly_once(self.trace@.push(UiStep::Restore));
        }
        self.phase = Phase::Released;
        self.trace = Ghost(self.trace@.push(UiStep::Restore));
    }

    /// Whether the loop should draw another frame.
    pub fn is_running(&self) -> (r: bool)
        ensures
            r == (self.phase == Phase::Running),
    {
        match self.phase {
            Phase::Running => true,
            _ => false,
        }
    }

    /// Whether the terminal is currently taken over, i.e. a restore is
    /// still owed.
    pub fn needs_restore(&self) -> (r: bool)
        ensures
            r == (self.phase == Phase::Terminating),
    {
        match self.phase {
            Phase::Terminating => true,
            _ => false,
        }
    }
}

} // verus!
