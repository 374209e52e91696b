//! The dual stopwatch state machine that times a puzzle solve: `sight`
//! times the sighted solve, `blind` the blindfolded one. Events from the
//! host application drive the transitions; an event that asks for an
//! impossible transition never brings the process down — the stopwatch
//! self-heals to `NotStarted` and reports a desync warning instead.

use crate::duration::duration_format;
use crate::duration::duration_to_string;
use vstd::prelude::*;

verus! {

/// `instant::Instant`, a monotonic clock reading, carried opaquely.
#[verifier::external_type_specification]
#[verifier::external_body]
pub struct ExInstant(instant::Instant);

/// Relies on `instant::Instant::now`: reads the monotonic clock. Nothing is
/// promised of the reading itself.
#[verifier::external_body]
fn now_instant() -> instant::Instant {
    instant::Instant::now()
}

/// Relies on `instant::Instant::elapsed`: the time since `start`, as the
/// clock reports it. Nothing is promised of the amount.
#[verifier::external_body]
fn elapsed_since(start: &instant::Instant) -> instant::Duration {
    start.elapsed()
}

/// Relies on `Duration::as_millis`: the duration in whole milliseconds,
/// converted to `u64`. Nothing is promised of the amount.
#[verifier::external_body]
fn duration_millis(d: &instant::Duration) -> u64 {
    d.as_millis() as u64
}

/// A three-state stopwatch: untouched, counting from a clock reading, or
/// holding a fixed elapsed time in whole milliseconds.
#[derive(Clone, Copy, Debug)]
pub enum Stopwatch {
    NotStarted,
    Running(instant::Instant),
    Stopped(u64),
}

/// The outcome of an event that asked a stopwatch for a transition it
/// cannot take. The stopwatch recovers by returning to `NotStarted`; the
/// caller may log the warning, and the time of this solve is lost.
#[derive(Clone, Copy, Debug, PartialEq, Eq, Structural)]
pub struct TimerDesyncWarning;

impl Stopwatch {
    /// Force the stopwatch back to `NotStarted`, from any state.
    pub fn reset(&mut self)
        ensures
            *final(self) == Stopwatch::NotStarted,
    {
        *self = Stopwatch::NotStarted;
    }

    /// Begin timing at the current clock reading. Valid only from
    /// `NotStarted`; from any other state the stopwatch falls back to
    /// `NotStarted` and a desync warning is returned.
    pub fn start(&mut self) -> (r: Result<(), TimerDesyncWarning>)
        ensures
            r is Ok <==> *old(self) is NotStarted,
            r is Ok ==> *final(self) is Running,
            r is Err ==> *final(self) == Stopwatch::NotStarted,
    {
        if let Stopwatch::NotStarted = *self {
            *self = Stopwatch::Running(now_instant());
            Ok(())
        } else {
            self.reset();
            Err(TimerDesyncWarning)
        }
    }

    /// Fix the elapsed time since the recorded start. Valid only from
    /// `Running`; from any other state the stopwatch falls back to
    /// `NotStarted` and a desync warning is returned.
    pub fn stop(&mut self) -> (r: Result<(), TimerDesyncWarning>)
        ensures
            r is Ok <==> *old(self) is Running,
            r is Ok ==> *final(self) is Stopped,
            r is Err ==> *final(self) == Stopwatch::NotStarted,
    {
        if let Stopwatch::Running(beginning) = *self {
            let d = elapsed_since(&beginning);
            *self = Stopwatch::Stopped(duration_millis(&d));
            Ok(())
        } else {
            self.reset();
            Err(TimerDesyncWarning)
        }
    }
}

/// The per-session pair of stopwatches.
#[derive(Clone, Copy, Debug)]
pub struct Timer {
    pub sight: Stopwatch,
    pub blind: Stopwatch,
}

impl Timer {
    /// A fresh timer, with both stopwatches untouched.
    pub fn new() -> (r: Timer)
        ensures
            r.sight == Stopwatch::NotStarted,
            r.blind == Stopwatch::NotStarted,
    {
        Timer { sight: Stopwatch::NotStarted, blind: Stopwatch::NotStarted }
    }

    /// Force both stopwatches back to `NotStarted`, whatever their state.
    /// No error is possible.
    pub fn on_puzzle_reset(&mut self)
        ensures
            final(self).sight == Stopwatch::NotStarted,
            final(self).blind == Stopwatch::NotStarted,
    {
        self.sight.reset();
        self.blind.reset();
    }

    /// Reset both stopwatches, then start blind timing: scrambling begins
    /// blind timing immediately. Starting from a freshly reset stopwatch
    /// cannot desync, so the outcome is always `Ok`.
    pub fn on_scramble(&mut self) -> (r: Result<(), TimerDesyncWarning>)
        ensures
            final(self).sight == Stopwatch::NotStarted,
            final(self).blind is Running,
            r is Ok,
    {
        self.sight.reset();
        self.blind.reset();
        self.blind.start()
    }

    /// Start sight timing at the first non-rotation twist. Later twists
    /// leave `sight` exactly as it is, so the call is idempotent and its
    /// outcome is always `Ok`.
    pub fn on_non_rotation_twist(&mut self) -> (r: Result<(), TimerDesyncWarning>)
        ensures
            old(self).sight is NotStarted ==> final(self).sight is Running,
            !(old(self).sight is NotStarted) ==> final(self).sight == old(self).sight,
            final(self).blind == old(self).blind,
            r is Ok,
    {
        if let Stopwatch::NotStarted = self.sight {
            self.sight.start()
        } else {
            Ok(())
        }
    }

    /// Stop sight timing: the puzzle is solved. `Ok` exactly when `sight`
    /// was `Running`; otherwise `sight` falls back to `NotStarted` and the
    /// warning is returned for the caller to log.
    pub fn on_solve(&mut self) -> (r: Result<(), TimerDesyncWarning>)
        ensures
            r is Ok <==> old(self).sight is Running,
            r is Ok ==> final(self).sight is Stopped,
            r is Err ==> final(self).sight == Stopwatch::NotStarted,
            final(self).blind == old(self).blind,
    {
        self.sight.stop()
    }

    /// Stop blind timing: the blindfold came off. `Ok` exactly when `blind`
    /// was `Running`; otherwise `blind` falls back to `NotStarted` and the
    /// warning is returned for the caller to log.
    pub fn on_blindfold_off(&mut self) -> (r: Result<(), TimerDesyncWarning>)
        ensures
            r is Ok <==> old(self).blind is Running,
            r is Ok ==> final(self).blind is Stopped,
            r is Err ==> final(self).blind == Stopwatch::NotStarted,
            final(self).sight == old(self).sight,
    {
        self.blind.stop()
    }

    /// The stopwatch the display shows.
    pub open spec fn selected(self, blind_mode: bool) -> Stopwatch {
        if blind_mode {
            self.blind
        } else {
            self.sight
        }
    }

    /// The label the display shows: `"Scramble"` until the puzzle has been
    /// fully scrambled; then, for the selected stopwatch (`blind` when
    /// `blind_mode` is set, else `sight`), `"Ready"` when untouched, the
    /// elapsed time so far when running, or the fixed final time.
    pub fn display_text(&self, blind_mode: bool, scrambled: bool) -> (r: String)
        ensures
            !scrambled ==> r@ == "Scramble"@,
            scrambled && self.selected(blind_mode) is NotStarted ==> r@ == "Ready"@,
            scrambled ==> (self.selected(blind_mode) matches Stopwatch::Stopped(ms) ==> r@
                == duration_format(ms as nat)),
            scrambled && self.selected(blind_mode) is Running ==> (exists|e: u64|
                r@ == duration_format(e as nat)),
    {
        if !scrambled {
            return "Scramble".to_owned();
        }
        let sw = if blind_mode {
            &self.blind
        } else {
            &self.sight
        };
        match *sw {
            Stopwatch::NotStarted => "Ready".to_owned(),
            Stopwatch::Running(start) => {
                let d = elapsed_since(&start);
                duration_to_string(duration_millis(&d))
            },
            Stopwatch::Stopped(ms) => duration_to_string(ms),
        }
    }
}

} // verus!
