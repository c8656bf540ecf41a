//! The session state machine: screens, interval kinds, tick-driven elapsed
//! time, and the long-break cadence rule.

use vstd::prelude::*;

verus! {

/// Which view is active; also gates which commands are meaningful.
#[derive(Clone, Copy, Debug, PartialEq, Eq, Structural)]
pub enum Screen {
    Main,
    Timer,
    ConfirmQuit,
}

/// Which interval type is currently counting.
#[derive(Clone, Copy, Debug, PartialEq, Eq, Structural)]
pub enum IntervalKind {
    Focus,
    ShortBreak,
    LongBreak,
}

/// The abstract commands a user can issue.
#[derive(Clone, Copy, Debug, PartialEq, Eq, Structural)]
pub enum Command {
    Quit,
    Toggle,
    Back,
}

/// The whole session state. Durations are in seconds and are immutable after
/// construction; the counters are lifetime counts within one run.
#[derive(Clone, Copy, Debug, PartialEq, Eq, Structural)]
pub struct App {
    /// Whether the application should keep looping; set false only by an
    /// explicit quit confirmation.
    pub running: bool,
    /// The active view.
    pub screen: Screen,
    /// The interval type currently counting.
    pub interval_kind: IntervalKind,
    /// Whether elapsed time is accumulating (pause/resume flag).
    pub timer_active: bool,
    /// Configured length of a focus interval, in seconds.
    pub focus_duration: usize,
    /// Configured length of a short break, in seconds.
    pub short_break_duration: usize,
    /// Configured length of a long break, in seconds.
    pub long_break_duration: usize,
    /// Completed focus intervals so far.
    pub completed_focus_count: usize,
    /// Completed short breaks so far.
    pub completed_short_break_count: usize,
    /// Completed long breaks so far.
    pub completed_long_break_count: usize,
    /// After exactly this many completed short breaks, the next completed
    /// focus interval is followed by a long break.
    pub short_breaks_before_long_break: usize,
    /// Seconds accumulated in the current interval; reset to 0 on every
    /// interval transition.
    pub elapsed_seconds: usize,
}

impl App {
    /// The configured duration of the interval kind currently counting.
    pub open spec fn current_duration(self) -> usize {
        match self.interval_kind {
            IntervalKind::Focus => self.focus_duration,
            IntervalKind::ShortBreak => self.short_break_duration,
            IntervalKind::LongBreak => self.long_break_duration,
        }
    }

    /// Well-formedness: the elapsed time never sits at or past the current
    /// interval's duration, because the tick that reaches the duration also
    /// resets it (a fresh interval always starts at 0).
    pub open spec fn wf(self) -> bool {
        self.elapsed_seconds == 0 || self.elapsed_seconds < self.current_duration()
    }

    /// The state a new session starts in.
    pub open spec fn spec_new(
        focus_duration: usize,
        short_break_duration: usize,
        long_break_duration: usize,
        short_breaks_before_long_break: usize,
    ) -> App {
        App {
            running: true,
            screen: Screen::Main,
            interval_kind: IntervalKind::Focus,
            timer_active: false,
            focus_duration,
            short_break_duration,
            long_break_duration,
            completed_focus_count: 0,
            completed_short_break_count: 0,
            completed_long_break_count: 0,
            short_breaks_before_long_break,
            elapsed_seconds: 0,
        }
    }

    /// Construct a session with the given interval lengths (seconds) and
    /// short-break threshold, showing the main screen with the timer idle.
    pub fn new(
        focus_duration: usize,
        short_break_duration: usize,
        long_break_duration: usize,
        short_breaks_before_long_break: usize,
    ) -> (s: App)
        ensures
            s == App::spec_new(
                focus_duration,
                short_break_duration,
                long_break_duration,
                short_breaks_before_long_break,
            ),
            s.wf(),
    {
        App {
            running: true,
            screen: Screen::Main,
            interval_kind: IntervalKind::Focus,
            timer_active: false,
            focus_duration,
            short_break_duration,
            long_break_duration,
            completed_focus_count: 0,
            completed_short_break_count: 0,
            completed_long_break_count: 0,
            short_breaks_before_long_break,
            elapsed_seconds: 0,
        }
    }
}

impl App {
    /// What `handle_command` does: a pure, total transition on the session
    /// state, by current screen.
    pub open spec fn spec_handle_command(self, cmd: Command) -> App {
        match cmd {
            Command::Quit => match self.screen {
                // Asking to quit from the confirmation screen terminates.
                Screen::ConfirmQuit => App { running: false, ..self },
                // From the timer, pause first; either way, ask to confirm.
                Screen::Timer => App {
                    timer_active: false,
                    screen: Screen::ConfirmQuit,
                    ..self
                },
                Screen::Main => App { screen: Screen::ConfirmQuit, ..self },
            },
            Command::Toggle => match self.screen {
                // Starting from the main screen enters the timer running.
                Screen::Main => App { screen: Screen::Timer, timer_active: true, ..self },
                // On the timer screen, pause or resume.
                Screen::Timer => App { timer_active: !self.timer_active, ..self },
                Screen::ConfirmQuit => self,
            },
            Command::Back => match self.screen {
                // Leaving the timer pauses it and discards the in-progress
                // elapsed time: the interval does not resume later.
                Screen::Timer => App {
                    timer_active: false,
                    screen: Screen::Main,
                    elapsed_seconds: 0,
                    ..self
                },
                // Cancel the quit confirmation.
                Screen::ConfirmQuit => App { screen: Screen::Main, ..self },
                Screen::Main => self,
            },
        }
    }

    /// Apply one user command. Total: every command is meaningful or a no-op
    /// on every screen, and no command ever touches the counters, the
    /// durations or the interval kind. Elapsed time is touched by exactly one
    /// command: `Back` from the timer discards it.
    pub fn handle_command(&mut self, cmd: Command)
        ensures
            *final(self) == old(self).spec_handle_command(cmd),
            old(self).wf() ==> final(self).wf(),
    {
        match cmd {
            Command::Quit => {
                match self.screen {
                    Screen::ConfirmQuit => self.running = false,
                    Screen::Timer => self.timer_active = false,
                    Screen::Main => {}
                }
                self.screen = Screen::ConfirmQuit;
            }
            Command::Toggle => match self.screen {
                Screen::Main => {
                    self.screen = Screen::Timer;
                    self.timer_active = true;
                }
                Screen::Timer => self.timer_active = !self.timer_active,
                Screen::ConfirmQuit => {}
            },
            Command::Back => match self.screen {
                Screen::Timer => {
                    self.timer_active = false;
                    self.screen = Screen::Main;
                    self.elapsed_seconds = 0;
                }
                Screen::ConfirmQuit => self.screen = Screen::Main,
                Screen::Main => {}
            },
        }
    }
}

impl App {
    /// The elapsed time a tick reaches before the completion check: one more
    /// second when the timer is accumulating, unchanged otherwise.
    pub open spec fn tick_elapsed(self) -> int {
        if self.timer_active {
            self.elapsed_seconds + 1
        } else {
            self.elapsed_seconds as int
        }
    }

    /// Whether this tick completes the current interval.
    pub open spec fn tick_completes(self) -> bool {
        self.tick_elapsed() >= self.current_duration()
    }

    /// The one bound the machine forces on a tick: the counter a completion
    /// would increment has room left.
    pub open spec fn tick_counter_ok(self) -> bool {
        self.tick_completes() ==> match self.interval_kind {
            IntervalKind::Focus => self.completed_focus_count < usize::MAX,
            IntervalKind::ShortBreak => self.completed_short_break_count < usize::MAX,
            IntervalKind::LongBreak => self.completed_long_break_count < usize::MAX,
        }
    }

    /// What `on_tick` does: the state after one tick, and whether the audio
    /// cue fires (it fires exactly when a focus interval completes).
    pub open spec fn spec_on_tick(self) -> (App, bool) {
        let e = (self.tick_elapsed()) as usize;
        match self.interval_kind {
            IntervalKind::Focus => if e >= self.focus_duration {
                (
                    App {
                        completed_focus_count: (self.completed_focus_count + 1) as usize,
                        elapsed_seconds: 0,
                        interval_kind: if self.completed_short_break_count
                            == self.short_breaks_before_long_break {
                            IntervalKind::LongBreak
                        } else {
                            IntervalKind::ShortBreak
                        },
                        ..self
                    },
                    true,
                )
            } else {
                (App { elapsed_seconds: e, ..self }, false)
            },
            IntervalKind::ShortBreak => if e >= self.short_break_duration {
                (
                    App {
                        completed_short_break_count: (self.completed_short_break_count + 1)
                            as usize,
                        elapsed_seconds: 0,
                        interval_kind: IntervalKind::Focus,
                        ..self
                    },
                    false,
                )
            } else {
                (App { elapsed_seconds: e, ..self }, false)
            },
            IntervalKind::LongBreak => if e >= self.long_break_duration {
                (
                    App {
                        completed_long_break_count: (self.completed_long_break_count + 1)
                            as usize,
                        elapsed_seconds: 0,
                        interval_kind: IntervalKind::Focus,
                        ..self
                    },
                    false,
                )
            } else {
                (App { elapsed_seconds: e, ..self }, false)
            },
        }
    }

    /// Advance the session by one second of wall-clock time. When the timer
    /// is accumulating, the elapsed time grows by one; then, whatever the
    /// screen shows, the current interval is checked for completion against
    /// its configured duration, and on completion the matching counter is
    /// incremented, the elapsed time resets to 0, and the interval kind
    /// advances. A completed focus interval is followed by a long break
    /// exactly when the completed short breaks equal the threshold, else by
    /// a short break; any completed break is followed by a focus interval.
    /// Returns whether the audio cue should fire (focus completion only).
    pub fn on_tick(&mut self) -> (cue: bool)
        requires
            old(self).wf(),
            old(self).tick_counter_ok(),
        ensures
            *final(self) == old(self).spec_on_tick().0,
            cue == old(self).spec_on_tick().1,
            final(self).wf(),
    {
        if self.timer_active {
            self.elapsed_seconds += 1;
        }
        match self.interval_kind {
            IntervalKind::Focus => {
                if self.elapsed_seconds >= self.focus_duration {
                    self.completed_focus_count += 1;
                    self.elapsed_seconds = 0;
                    if self.completed_short_break_count == self.short_breaks_before_long_break {
                        self.interval_kind = IntervalKind::LongBreak;
                        return true;
                    }
                    self.interval_kind = IntervalKind::ShortBreak;
                    return true;
                }
            }
            IntervalKind::ShortBreak => {
                if self.elapsed_seconds >= self.short_break_duration {
                    self.completed_short_break_count += 1;
                    self.elapsed_seconds = 0;
                    self.interval_kind = IntervalKind::Focus;
                }
            }
            IntervalKind::LongBreak => {
                if self.elapsed_seconds >= self.long_break_duration {
                    self.completed_long_break_count += 1;
                    self.elapsed_seconds = 0;
                    self.interval_kind = IntervalKind::Focus;
                }
            }
        }
        false
    }
}

impl App {
    /// The whole minutes of the current interval's elapsed time, for display.
    pub fn elapsed_minutes(&self) -> (m: usize)
        ensures
            m == self.elapsed_seconds / 60,
    {
        self.elapsed_seconds / 60
    }

    /// The seconds of the current interval's elapsed time past the whole
    /// minutes, for display.
    pub fn elapsed_extra_seconds(&self) -> (s: usize)
        ensures
            s == self.elapsed_seconds % 60,
    {
        self.elapsed_seconds % 60
    }

    /// How many progress dots to draw: one per second into the current
    /// ten-second stretch.
    pub fn progress_dot_count(&self) -> (n: usize)
        ensures
            n == self.elapsed_seconds % 10,
    {
        self.elapsed_seconds % 10
    }
}

/// Law: while the timer is accumulating and the tick completes no interval,
/// each tick raises `elapsed_seconds` by exactly one and changes nothing
/// else, so over any such run of ticks the elapsed time grows by one per
/// call.
pub proof fn lemma_tick_increments_elapsed(s: App)
    requires
        s.wf(),
        s.timer_active,
        !s.tick_completes(),
    ensures
        s.spec_on_tick().0.elapsed_seconds == s.elapsed_seconds + 1,
        s.spec_on_tick().0 == (App { elapsed_seconds: s.spec_on_tick().0.elapsed_seconds, ..s }),
        s.spec_on_tick().1 == false,
        s.spec_on_tick().0.wf(),
{
}

/// Law: once the completed short breaks have reached the threshold, the tick
/// that completes a focus interval moves to a long break, not a short one.
pub proof fn lemma_long_break_cadence(s: App)
    requires
        s.wf(),
        s.interval_kind is Focus,
        s.tick_completes(),
        s.completed_short_break_count == s.short_breaks_before_long_break,
    ensures
        s.spec_on_tick().0.interval_kind is LongBreak,
        s.spec_on_tick().1 == true,
{
}

/// Law: `Back` on the timer screen always lands on the main screen with the
/// timer paused and the in-progress elapsed time discarded, whatever the
/// timer was doing before.
pub proof fn lemma_back_from_timer(s: App)
    requires
        s.screen is Timer,
    ensures
        s.spec_handle_command(Command::Back).screen is Main,
        !s.spec_handle_command(Command::Back).timer_active,
        s.spec_handle_command(Command::Back).elapsed_seconds == 0,
{
}

/// Law: asking to quit from the main screen and then backing out returns to
/// the main screen with the session still running.
pub proof fn lemma_quit_then_back_keeps_running(s: App)
    requires
        s.screen is Main,
        s.running,
    ensures
        s.spec_handle_command(Command::Quit).spec_handle_command(Command::Back).screen is Main,
        s.spec_handle_command(Command::Quit).spec_handle_command(Command::Back).running,
{
}

/// Law: confirming the quit — `Quit` on the confirmation screen — stops the
/// session unconditionally, whatever the rest of the state.
pub proof fn lemma_quit_from_confirm_stops(s: App)
    requires
        s.screen is ConfirmQuit,
    ensures
        !s.spec_handle_command(Command::Quit).running,
{
}

/// Law: a command that is a no-op on the current screen — `Toggle` on the
/// confirmation screen, `Back` on the main screen — leaves every field of
/// the state unchanged.
pub proof fn lemma_noop_command_changes_nothing(s: App)
    ensures
        s.screen is ConfirmQuit ==> s.spec_handle_command(Command::Toggle) == s,
        s.screen is Main ==> s.spec_handle_command(Command::Back) == s,
{
}

/// Law: from a fresh session, `Toggle` then `Back` then `Toggle` again ends
/// in exactly the state a single `Toggle` from a fresh session produces.
pub proof fn lemma_toggle_round_trip(
    focus_duration: usize,
    short_break_duration: usize,
    long_break_duration: usize,
    short_breaks_before_long_break: usize,
)
    ensures
        ({
            let fresh = App::spec_new(
                focus_duration,
                short_break_duration,
                long_break_duration,
                short_breaks_before_long_break,
            );
            fresh.spec_handle_command(Command::Toggle).spec_handle_command(
                Command::Back,
            ).spec_handle_command(Command::Toggle) == fresh.spec_handle_command(Command::Toggle)
        }),
{
}

impl Default for App {
    /// The default configuration: a 20-minute focus interval, a 5-minute
    /// short break, a 15-minute long break, and a long break after 2 short
    /// breaks.
    fn default() -> (s: App)
        ensures
            s == App::spec_new(1200, 300, 900, 2),
            s.wf(),
    {
        App::new(1200, 300, 900, 2)
    }
}

} // verus!
