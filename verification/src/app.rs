//! The application state machine: owns the timer and the session history,
//! maps input events to operations on them, and exposes an immutable
//! snapshot for rendering. Every transition is a pure, synchronous function
//! of the state, the event, and the wall-clock reading handed in.

use vstd::prelude::*;
use crate::history::SessionHistory;
use crate::scramble::{MoveToken, ScrambleSequence};
use crate::stats::ao5_ms;
use crate::timer::{now_millis, Timer};

verus! {

/// The discrete input events the engine reacts to; every other key is
/// mapped to `Ignored` and leaves the state unchanged.
#[derive(Clone, Copy, PartialEq, Eq, Structural, Debug)]
pub enum AppEvent {
    /// Terminate the run loop.
    Quit,
    /// Toggle the help overlay.
    ToggleHelp,
    /// Close the help overlay if it is shown, else reset the timer.
    Cancel,
    /// Start the timer, or stop it and record the solve.
    Space,
    /// Skip ahead to a fresh scramble.
    NextScramble,
    /// Navigate back to the most recent pending scramble.
    PreviousScramble,
    /// Any other input.
    Ignored,
}

/// How the timer is to be displayed: the settled elapsed milliseconds while
/// stopped, or a solve-in-progress marker while timing.
#[derive(Clone, Copy, PartialEq, Eq, Structural, Debug)]
pub enum TimerDisplay {
    Stopped { elapsed_ms: u64 },
    Solving,
}

/// The engine state: whether a solve is being timed, whether the help
/// overlay is shown, the solve timer, and the session history.
pub struct App {
    pub timing: bool,
    pub help_shown: bool,
    pub timer: Timer,
    pub history: SessionHistory,
}

/// The immutable snapshot the renderer consumes: reconstructed fresh on
/// each redraw, never a window into mutable engine state.
pub struct AppSnapshot {
    pub current_scramble: ScrambleSequence,
    pub timer_display: TimerDisplay,
    pub recent_durations_ms: Vec<u64>,
    pub average_of_five_ms: Option<u64>,
    pub help_shown: bool,
}

impl App {
    /// The `timing` flag mirrors the timer's own state exactly; every
    /// transition preserves this.
    pub open spec fn wf(self) -> bool {
        self.timing == self.timer.is_running()
    }

    /// The event-to-transition table: `post` is a state the engine may be
    /// in after handling `ev` in state `pre` with the clock reading
    /// `now_ms`, and `quit` says whether the run loop is to terminate.
    /// Freshly generated scrambles are random, so `post` is constrained,
    /// not computed: wherever a new scramble appears, only its
    /// well-formedness is fixed.
    pub open spec fn next_state(pre: App, ev: AppEvent, now_ms: u64, post: App, quit: bool) -> bool {
        &&& quit == (ev == AppEvent::Quit)
        &&& match ev {
            AppEvent::Quit => post == pre,
            AppEvent::Ignored => post == pre,
            AppEvent::ToggleHelp => {
                &&& post.help_shown == !pre.help_shown
                &&& post.timing == pre.timing
                &&& post.timer == pre.timer
                &&& post.history == pre.history
            },
            AppEvent::Cancel => {
                if pre.help_shown {
                    &&& post.help_shown == false
                    &&& post.timing == pre.timing
                    &&& post.timer == pre.timer
                    &&& post.history == pre.history
                } else {
                    &&& post.help_shown == pre.help_shown
                    &&& post.timing == pre.timing
                    &&& post.timer == pre.timer.spec_reset()
                    &&& post.history == pre.history
                }
            },
            AppEvent::Space => {
                if !pre.timing {
                    &&& post.timing == true
                    &&& post.help_shown == pre.help_shown
                    &&& post.timer == pre.timer.spec_start(now_ms)
                    &&& post.history == pre.history
                } else {
                    &&& post.timing == false
                    &&& post.help_shown == pre.help_shown
                    &&& post.timer == pre.timer.spec_stop(now_ms)
                    &&& post.history.completed_views() == pre.history.completed_views().push(
                        (pre.history.current(), pre.timer.spec_elapsed(now_ms)),
                    )
                    &&& post.history.pending_views() == pre.history.pending_views().push(
                        pre.history.current(),
                    )
                    &&& post.history.current_scramble.wf()
                }
            },
            AppEvent::NextScramble => {
                &&& post.help_shown == pre.help_shown
                &&& post.timing == pre.timing
                &&& post.timer == pre.timer
                &&& post.history.completed_views() == pre.history.completed_views()
                &&& post.history.pending_views() == pre.history.pending_views().push(
                    pre.history.current(),
                )
                &&& post.history.current_scramble.wf()
            },
            AppEvent::PreviousScramble => {
                &&& post.help_shown == pre.help_shown
                &&& post.timing == pre.timing
                &&& post.timer == pre.timer
                &&& post.history.completed_views() == pre.history.completed_views()
                &&& if pre.history.pending_views().len() > 0 {
                    &&& post.history.current() == pre.history.pending_views().last()
                    &&& post.history.pending_views() == pre.history.pending_views().drop_last()
                } else {
                    &&& post.history.current() == pre.history.current()
                    &&& post.history.pending_views() == pre.history.pending_views()
                }
            },
        }
    }

    /// A fresh engine: not timing, help hidden, a zeroed stopped timer, and
    /// a new session with one generated scramble.
    pub fn new() -> (app: App)
        ensures
            app.wf(),
            app.timing == false,
            app.help_shown == false,
            !app.timer.is_running(),
            app.timer.accumulated_ms == 0,
            app.history.completed_views().len() == 0,
            app.history.durations().len() == 0,
            app.history.pending_views().len() == 0,
            app.history.current_scramble.wf(),
    {
        App {
            timing: false,
            help_shown: false,
            timer: Timer::new(),
            history: SessionHistory::new(),
        }
    }

    /// Dispatches one input event at the clock reading `now_ms`, following
    /// the transition table; returns whether the run loop is to terminate.
    pub fn handle_event(&mut self, ev: AppEvent, now_ms: u64) -> (quit: bool)
        ensures
            App::next_state(*old(self), ev, now_ms, *final(self), quit),
            old(self).wf() ==> final(self).wf(),
    {
        match ev {
            AppEvent::Quit => true,
            AppEvent::Ignored => false,
            AppEvent::ToggleHelp => {
                self.help_shown = !self.help_shown;
                false
            },
            AppEvent::Cancel => {
                if self.help_shown {
                    self.help_shown = false;
                } else {
                    self.timer.reset();
                }
                false
            },
            AppEvent::Space => {
                if !self.timing {
                    self.timing = true;
                    self.timer.start(now_ms);
                } else {
                    self.timing = false;
                    self.timer.stop(now_ms);
                    let elapsed = self.timer.get_elapsed(now_ms);
                    self.history.record_solve(elapsed);
                }
                false
            },
            AppEvent::NextScramble => {
                self.history.next_scramble();
                false
            },
            AppEvent::PreviousScramble => {
                self.history.previous_scramble();
                false
            },
        }
    }

    /// Dispatches one input event at the current wall-clock reading. The
    /// clock's value is the machine's, so the transition is promised for
    /// some reading, not a particular one.
    pub fn handle_event_now(&mut self, ev: AppEvent) -> (quit: bool)
        ensures
            exists|now_ms: u64| App::next_state(*old(self), ev, now_ms, *final(self), quit),
            old(self).wf() ==> final(self).wf(),
    {
        let now_ms = now_millis();
        self.handle_event(ev, now_ms)
    }

    /// Builds the renderer's snapshot at the clock reading `now_ms`: the
    /// current scramble, the timer display, the completed durations most
    /// recent first, the average of five, and the help flag.
    pub fn snapshot(&self, now_ms: u64) -> (snap: AppSnapshot)
        ensures
            snap.current_scramble@ == self.history.current(),
            self.timing ==> snap.timer_display == TimerDisplay::Solving,
            !self.timing ==> snap.timer_display == (TimerDisplay::Stopped {
                elapsed_ms: self.timer.spec_elapsed(now_ms),
            }),
            snap.recent_durations_ms@.len() == self.history.durations().len(),
            forall|i: int| 0 <= i < snap.recent_durations_ms@.len()
                ==> #[trigger] snap.recent_durations_ms@[i]
                    == self.history.durations()[self.history.durations().len() - 1 - i],
            snap.average_of_five_ms == ao5_ms(self.history.durations()),
            snap.help_shown == self.help_shown,
    {
        let timer_display = if self.timing {
            TimerDisplay::Solving
        } else {
            TimerDisplay::Stopped { elapsed_ms: self.timer.get_elapsed(now_ms) }
        };
        let n = self.history.completed.len();
        let mut recent: Vec<u64> = Vec::new();
        let mut i: usize = 0;
        while i < n
            invariant
                i <= n,
                n == self.history.completed@.len(),
                recent@.len() == i,
                forall|j: int| 0 <= j < i ==> #[trigger] recent@[j]
                    == self.history.durations()[n - 1 - j],
            decreases n - i,
        {
            recent.push(self.history.completed[n - 1 - i].duration_ms);
            i = i + 1;
        }
        AppSnapshot {
            current_scramble: self.history.current_scramble.duplicate(),
            timer_display,
            recent_durations_ms: recent,
            average_of_five_ms: self.history.average_of_five(),
            help_shown: self.help_shown,
        }
    }

    /// Builds the renderer's snapshot at the current wall-clock reading.
    /// Every field but the running timer display is independent of the
    /// clock; while stopped the display shows the settled time exactly.
    pub fn snapshot_now(&self) -> (snap: AppSnapshot)
        ensures
            snap.current_scramble@ == self.history.current(),
            self.timing ==> snap.timer_display == TimerDisplay::Solving,
            !self.timing && !self.timer.is_running() ==> snap.timer_display
                == (TimerDisplay::Stopped { elapsed_ms: self.timer.accumulated_ms }),
            snap.recent_durations_ms@.len() == self.history.durations().len(),
            forall|i: int| 0 <= i < snap.recent_durations_ms@.len()
                ==> #[trigger] snap.recent_durations_ms@[i]
                    == self.history.durations()[self.history.durations().len() - 1 - i],
            snap.average_of_five_ms == ao5_ms(self.history.durations()),
            snap.help_shown == self.help_shown,
    {
        let now_ms = now_millis();
        self.snapshot(now_ms)
    }
}

} // verus!
