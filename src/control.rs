//! The running flag and the timing settings shared by the control surface and
//! the background loop.
//!
//! A program shares one `JigglerState` between threads behind a lock; every
//! operation here then runs with exclusive access, which makes `start_jiggler`
//! an atomic test-and-set.
//!
//! Each successful start opens a new run, numbered afresh. A loop keeps the
//! number of the run it belongs to and ends once the current run is another,
//! so a stop followed at once by a start still ends the earlier loop.

use vstd::prelude::*;

verus! {

/// Seconds without pointer movement before jiggling starts, by default.
pub const DEFAULT_IDLE_THRESHOLD: u64 = 120;

/// Seconds between two jiggles while idle, by default.
pub const DEFAULT_JIGGLE_INTERVAL: u64 = 60;

/// The mathematical value of a `JigglerState`.
pub struct ControlModel {
    pub running: bool,
    /// The number of the latest run.
    pub run: u64,
    pub idle_threshold: u64,
    pub jiggle_interval: u64,
}

/// What a start request found.
#[derive(Clone, Copy, Debug, PartialEq, Eq, Structural)]
pub enum StartOutcome {
    /// The flag went from stopped to running, opening the run numbered `run`:
    /// the caller spawns one loop for that run.
    Started { run: u64 },
    /// A loop was already running: nothing is spawned.
    AlreadyRunning,
}

/// The running flag with the idle threshold and the jiggle interval.
#[derive(Clone, Copy, Debug)]
pub struct JigglerState {
    running: bool,
    run: u64,
    idle_threshold: u64,
    jiggle_interval: u64,
}

impl View for JigglerState {
    type V = ControlModel;

    closed spec fn view(&self) -> ControlModel {
        ControlModel {
            running: self.running,
            run: self.run,
            idle_threshold: self.idle_threshold,
            jiggle_interval: self.jiggle_interval,
        }
    }
}

/// The state at process start: stopped, with the default settings.
pub open spec fn initial_model() -> ControlModel {
    ControlModel {
        running: false,
        run: 0,
        idle_threshold: DEFAULT_IDLE_THRESHOLD,
        jiggle_interval: DEFAULT_JIGGLE_INTERVAL,
    }
}

/// The number of the run that follows run `run`; it wraps, and always differs.
pub open spec fn next_run(run: u64) -> u64 {
    if run == u64::MAX {
        0
    } else {
        (run + 1) as u64
    }
}

/// A start request: if the flag was clear, it becomes set and a new run
/// opens; if it was set, nothing changes.
pub open spec fn start_model(c: ControlModel) -> (ControlModel, StartOutcome) {
    if c.running {
        (c, StartOutcome::AlreadyRunning)
    } else {
        (
            ControlModel { running: true, run: next_run(c.run), ..c },
            StartOutcome::Started { run: next_run(c.run) },
        )
    }
}

/// A stop request: the flag becomes clear, whatever it was.
pub open spec fn stop_model(c: ControlModel) -> ControlModel {
    ControlModel { running: false, ..c }
}

/// The settings as the pair (idle threshold, jiggle interval).
pub open spec fn settings_of(c: ControlModel) -> (u64, u64) {
    (c.idle_threshold, c.jiggle_interval)
}

/// A settings update: both values are replaced, with no bounds imposed.
pub open spec fn update_model(c: ControlModel, idle_threshold: u64, jiggle_interval: u64) -> ControlModel {
    ControlModel { idle_threshold, jiggle_interval, ..c }
}

impl StartOutcome {
    /// The message that a start request reports.
    pub fn message(&self) -> (r: String)
        ensures
            r@ == (match self {
                StartOutcome::Started { .. } => "Jiggler started"@,
                StartOutcome::AlreadyRunning => "Already running"@,
            }),
    {
        match self {
            StartOutcome::Started { .. } => String::from_str("Jiggler started"),
            StartOutcome::AlreadyRunning => String::from_str("Already running"),
        }
    }
}

impl JigglerState {
    /// A stopped state with the default settings.
    pub fn new() -> (r: JigglerState)
        ensures
            r@ == initial_model(),
    {
        JigglerState {
            running: false,
            run: 0,
            idle_threshold: DEFAULT_IDLE_THRESHOLD,
            jiggle_interval: DEFAULT_JIGGLE_INTERVAL,
        }
    }

    /// Whether the background loop should go on.
    pub fn is_running(&self) -> (r: bool)
        ensures
            r == self@.running,
    {
        self.running
    }

    /// Sets the running flag and reports whether it was clear before, in one
    /// step: only a `Started` outcome may spawn a loop, for the run it names.
    pub fn start_jiggler(&mut self) -> (r: StartOutcome)
        ensures
            (final(self)@, r) == start_model(old(self)@),
    {
        if self.running {
            StartOutcome::AlreadyRunning
        } else {
            self.running = true;
            self.run = if self.run == u64::MAX {
                0
            } else {
                self.run + 1
            };
            StartOutcome::Started { run: self.run }
        }
    }

    /// Clears the running flag, and reports so; the loop exits at its next
    /// check. This never fails.
    pub fn stop_jiggler(&mut self) -> (r: String)
        ensures
            final(self)@ == stop_model(old(self)@),
            r@ == "Jiggler stopped"@,
    {
        self.running = false;
        String::from_str("Jiggler stopped")
    }

    /// The number of the latest run.
    pub fn current_run(&self) -> (r: u64)
        ensures
            r == self@.run,
    {
        self.run
    }

    /// The current (idle threshold, jiggle interval), in seconds.
    pub fn get_settings(&self) -> (r: (u64, u64))
        ensures
            r == settings_of(self@),
    {
        (self.idle_threshold, self.jiggle_interval)
    }

    /// Replaces both settings, and reports so; this never fails and imposes
    /// no bounds.
    pub fn update_settings(&mut self, idle_threshold: u64, jiggle_interval: u64) -> (r: String)
        ensures
            final(self)@ == update_model(old(self)@, idle_threshold, jiggle_interval),
            r@ == "Settings updated"@,
    {
        self.idle_threshold = idle_threshold;
        self.jiggle_interval = jiggle_interval;
        String::from_str("Settings updated")
    }
}

/// Two start requests in a row, with no stop between them, spawn at most one
/// loop: the second always finds the flag set and changes nothing, and the
/// first spawns one exactly when the flag was clear.
pub proof fn lemma_double_start_spawns_once(c: ControlModel)
    ensures
        start_model(start_model(c).0).1 == StartOutcome::AlreadyRunning,
        start_model(start_model(c).0).0 == start_model(c).0,
        start_model(c).0.running,
        (start_model(c).1 is Started) == !c.running,
{
}

/// Only an update changes the settings: start and stop requests leave them
/// as they were, so reading them again gives the same pair; an update makes
/// them the pair it was given.
pub proof fn lemma_settings_change_only_by_update(c: ControlModel, idle_threshold: u64, jiggle_interval: u64)
    ensures
        settings_of(start_model(c).0) == settings_of(c),
        settings_of(stop_model(c)) == settings_of(c),
        stop_model(c).run == c.run,
        settings_of(update_model(c, idle_threshold, jiggle_interval)) == (idle_threshold, jiggle_interval),
        update_model(c, idle_threshold, jiggle_interval).running == c.running,
        update_model(c, idle_threshold, jiggle_interval).run == c.run,
{
}

/// After a stop request the flag reads clear, and the next start request
/// reports `Started` for a run other than the one stopped, so a fresh loop is
/// spawned and the earlier one can tell that its run is over.
pub proof fn lemma_start_after_stop(c: ControlModel)
    ensures
        !stop_model(c).running,
        start_model(stop_model(c)).1 == (StartOutcome::Started { run: next_run(c.run) }),
        start_model(stop_model(c)).0.running,
        start_model(stop_model(c)).0.run == next_run(c.run),
        next_run(c.run) != c.run,
{
}

} // verus!
