//! The background loop's decisions.
//!
//! The loop is driven from outside: at the top of each iteration the driver
//! samples the pointer and the clock and hands them to `LoopState::tick` with a
//! snapshot of the shared `JigglerState`. The answer lists the status events to
//! publish and the next action: sleep, move the pointer, or exit. After a move
//! the driver samples the pointer again and hands it to `LoopState::moved`.
//!
//! A loop belongs to the run that started it. It exits at the first check that
//! finds the flag clear or another run current: a stop followed at once by a
//! start still ends it, while the new run's own loop goes on.

use vstd::prelude::*;
use rand::Rng;
use crate::control::{ControlModel, JigglerState, StartOutcome, next_run, start_model, stop_model, update_model};

verus! {

/// Seconds between two pointer checks while the user is active.
pub const POLL_INTERVAL: u64 = 5;

/// Largest distance, per axis, of one jiggle.
pub const JIGGLE_RADIUS: i32 = 5;

/// Clock ticks per second: the loop's clock counts milliseconds.
pub const MILLIS_PER_SECOND: u64 = 1000;

/// The position assumed when the pointer cannot be read and nothing is known.
pub const ORIGIN: (i32, i32) = (0, 0);

/// A notification for the control surface.
#[derive(Clone, Copy, Debug, PartialEq, Eq, Structural)]
pub enum StatusEvent {
    /// The pointer moved while the loop was jiggling.
    ActivityDetected,
    /// The pointer has been still for the idle threshold.
    IdleDetected,
    /// One jiggle was made, after the pointer had been still that long.
    Jiggled { dx: i32, dy: i32, idle_seconds: u64 },
    /// The loop has ended.
    Stopped,
}

/// What the driver does next.
#[derive(Clone, Copy, Debug, PartialEq, Eq, Structural)]
pub enum Action {
    /// Sleep that many seconds, then start the next iteration.
    Sleep { seconds: u64 },
    /// Move the pointer by this offset, sample it, and report it to `moved`.
    Move { dx: i32, dy: i32 },
    /// Leave the loop.
    Exit,
}

/// The mathematical value of a `LoopState`.
pub struct LoopModel {
    /// The run this loop belongs to.
    pub run: u64,
    pub last_position: (i32, i32),
    /// Clock reading, in milliseconds, of the last pointer movement.
    pub last_activity: u64,
    pub is_idle: bool,
    /// The jiggle that was asked for and not yet reported: (dx, dy, idle seconds).
    pub pending: Option<(i32, i32, u64)>,
    /// Whether the loop has exited.
    pub finished: bool,
}

/// The state private to one run of the loop, created afresh at each start.
#[derive(Clone, Copy, Debug)]
pub struct LoopState {
    run: u64,
    last_position: (i32, i32),
    last_activity: u64,
    is_idle: bool,
    pending: Option<(i32, i32, u64)>,
    finished: bool,
}

impl View for LoopState {
    type V = LoopModel;

    closed spec fn view(&self) -> LoopModel {
        LoopModel {
            run: self.run,
            last_position: self.last_position,
            last_activity: self.last_activity,
            is_idle: self.is_idle,
            pending: self.pending,
            finished: self.finished,
        }
    }
}

/// Whole seconds from `since` to `now`, truncated; zero if `now` is earlier.
pub open spec fn elapsed_seconds(since: u64, now: u64) -> u64 {
    if now >= since {
        ((now - since) / (MILLIS_PER_SECOND as int)) as u64
    } else {
        0
    }
}

/// Whether `d` is an admissible jiggle offset on one axis.
pub open spec fn offset_in_range(d: i32) -> bool {
    -JIGGLE_RADIUS <= d <= JIGGLE_RADIUS
}

/// A loop of run `run` that has just started, with the pointer at `position`
/// at time `now`.
pub open spec fn fresh_model(run: u64, position: (i32, i32), now: u64) -> LoopModel {
    LoopModel {
        run,
        last_position: position,
        last_activity: now,
        is_idle: false,
        pending: None,
        finished: false,
    }
}

/// One iteration of a running loop, with the pointer at `position` at time
/// `now`, under `idle_threshold`, where a jiggle would move by `(dx, dy)`.
pub open spec fn iteration_model(
    s: LoopModel,
    position: (i32, i32),
    now: u64,
    idle_threshold: u64,
    dx: i32,
    dy: i32,
) -> (LoopModel, Seq<StatusEvent>, Action) {
    let moved = position != s.last_position;
    let last_activity = if moved { now } else { s.last_activity };
    let woke = moved && s.is_idle;
    let still_idle = s.is_idle && !moved;
    let first = if woke { seq![StatusEvent::ActivityDetected] } else { Seq::empty() };
    let idle = elapsed_seconds(last_activity, now);
    if idle >= idle_threshold {
        let events = if still_idle { first } else { first.push(StatusEvent::IdleDetected) };
        (
            LoopModel {
                last_position: position,
                last_activity,
                is_idle: true,
                run: s.run,
                pending: Some((dx, dy, idle)),
                finished: false,
            },
            events,
            Action::Move { dx, dy },
        )
    } else {
        (
            LoopModel {
                last_position: position,
                last_activity,
                is_idle: still_idle,
                run: s.run,
                pending: None,
                finished: false,
            },
            first,
            Action::Sleep { seconds: POLL_INTERVAL },
        )
    }
}

/// Whether the loop of model `s` may go on under the shared state `c`: the
/// flag is set and the current run is the loop's own.
pub open spec fn run_current(s: LoopModel, c: ControlModel) -> bool {
    c.running && c.run == s.run
}

/// The top of an iteration: exit once the flag is clear or another run is
/// current, else iterate.
pub open spec fn tick_model(
    s: LoopModel,
    c: ControlModel,
    position: (i32, i32),
    now: u64,
    dx: i32,
    dy: i32,
) -> (LoopModel, Seq<StatusEvent>, Action) {
    if s.finished {
        (s, Seq::empty(), Action::Exit)
    } else if !run_current(s, c) {
        (
            LoopModel { pending: None, finished: true, ..s },
            seq![StatusEvent::Stopped],
            Action::Exit,
        )
    } else {
        iteration_model(s, position, now, c.idle_threshold, dx, dy)
    }
}

/// After a jiggle: the re-sampled `position` becomes the last known one, so
/// that the loop's own movement is not taken for the user's, and the loop
/// sleeps for the jiggle interval.
pub open spec fn moved_model(s: LoopModel, c: ControlModel, position: (i32, i32)) -> (
    LoopModel,
    Seq<StatusEvent>,
    Action,
) {
    if s.finished {
        (s, Seq::empty(), Action::Exit)
    } else {
        match s.pending {
            Some(p) => (
                LoopModel { last_position: position, pending: None, ..s },
                seq![StatusEvent::Jiggled { dx: p.0, dy: p.1, idle_seconds: p.2 }],
                Action::Sleep { seconds: c.jiggle_interval },
            ),
            None => (s, Seq::empty(), Action::Sleep { seconds: 0 }),
        }
    }
}

/// Relies on rand's `thread_rng().gen_range(lo..=hi)`: a value of the closed
/// range `lo..=hi`, which panics only when the range is empty.
#[verifier::external_body]
fn random_in_range(lo: i32, hi: i32) -> (r: i32)
    requires
        lo <= hi,
    ensures
        lo <= r <= hi,
{
    rand::thread_rng().gen_range(lo..=hi)
}

/// Two independent random offsets for one jiggle.
pub fn jiggle_offsets() -> (r: (i32, i32))
    ensures
        offset_in_range(r.0),
        offset_in_range(r.1),
{
    let dx = random_in_range(-JIGGLE_RADIUS, JIGGLE_RADIUS);
    let dy = random_in_range(-JIGGLE_RADIUS, JIGGLE_RADIUS);
    (dx, dy)
}

/// The pointer position read from the host, or `previous` where the read failed.
pub fn sample_or(reading: Option<(i32, i32)>, previous: (i32, i32)) -> (r: (i32, i32))
    ensures
        r == (match reading {
            Some(p) => p,
            None => previous,
        }),
{
    match reading {
        Some(p) => p,
        None => previous,
    }
}

impl LoopState {
    /// The state of a loop of run `run` (as `start_jiggler` reported it) that
    /// starts with the pointer at `position` at time `now`.
    pub fn new(run: u64, position: (i32, i32), now: u64) -> (r: LoopState)
        ensures
            r@ == fresh_model(run, position, now),
    {
        LoopState { run, last_position: position, last_activity: now, is_idle: false, pending: None, finished: false }
    }

    /// The last known pointer position, the fallback for a failed read.
    pub fn last_position(&self) -> (r: (i32, i32))
        ensures
            r == self@.last_position,
    {
        self.last_position
    }

    /// Whether the loop is jiggling.
    pub fn is_idle(&self) -> (r: bool)
        ensures
            r == self@.is_idle,
    {
        self.is_idle
    }

    /// Whether the loop has exited.
    pub fn is_finished(&self) -> (r: bool)
        ensures
            r == self@.finished,
    {
        self.finished
    }

    /// The top of an iteration, where a jiggle, if one is due, moves by `(dx, dy)`.
    pub fn tick_with_offsets(
        &mut self,
        control: &JigglerState,
        position: (i32, i32),
        now: u64,
        dx: i32,
        dy: i32,
    ) -> (r: (Vec<StatusEvent>, Action))
        ensures
            (final(self)@, r.0@, r.1) == tick_model(old(self)@, control@, position, now, dx, dy),
    {
        let mut events: Vec<StatusEvent> = Vec::new();
        if self.finished {
            return (events, Action::Exit);
        }
        if !control.is_running() || control.current_run() != self.run {
            self.pending = None;
            self.finished = true;
            events.push(StatusEvent::Stopped);
            proof {
                assert(events@ =~= seq![StatusEvent::Stopped]);
            }
            return (events, Action::Exit);
        }
        let moved = position.0 != self.last_position.0 || position.1 != self.last_position.1;
        if moved {
            self.last_activity = now;
            self.last_position = position;
            if self.is_idle {
                events.push(StatusEvent::ActivityDetected);
                self.is_idle = false;
            }
        }
        let idle: u64 = if now >= self.last_activity {
            (now - self.last_activity) / MILLIS_PER_SECOND
        } else {
            0
        };
        let (idle_threshold, _) = control.get_settings();
        if idle >= idle_threshold {
            if !self.is_idle {
                events.push(StatusEvent::IdleDetected);
                self.is_idle = true;
            }
            self.pending = Some((dx, dy, idle));
            proof {
                let m = tick_model(old(self)@, control@, position, now, dx, dy);
                assert(events@ =~= m.1);
            }
            (events, Action::Move { dx, dy })
        } else {
            self.pending = None;
            proof {
                let m = tick_model(old(self)@, control@, position, now, dx, dy);
                assert(events@ =~= m.1);
            }
            (events, Action::Sleep { seconds: POLL_INTERVAL })
        }
    }

    /// The top of an iteration, drawing the offsets of a jiggle at random.
    pub fn tick(&mut self, control: &JigglerState, position: (i32, i32), now: u64) -> (r: (
        Vec<StatusEvent>,
        Action,
    ))
        ensures
            exists|dx: i32, dy: i32|
                offset_in_range(dx) && offset_in_range(dy) && (final(self)@, r.0@, r.1)
                    == tick_model(old(self)@, control@, position, now, dx, dy),
    {
        let (dx, dy) = jiggle_offsets();
        self.tick_with_offsets(control, position, now, dx, dy)
    }

    /// Reports a jiggle as done, with the pointer sampled again at `position`.
    pub fn moved(&mut self, control: &JigglerState, position: (i32, i32)) -> (r: (
        Vec<StatusEvent>,
        Action,
    ))
        ensures
            (final(self)@, r.0@, r.1) == moved_model(old(self)@, control@, position),
    {
        let mut events: Vec<StatusEvent> = Vec::new();
        if self.finished {
            return (events, Action::Exit);
        }
        match self.pending {
            Some(p) => {
                self.last_position = position;
                self.pending = None;
                events.push(StatusEvent::Jiggled { dx: p.0, dy: p.1, idle_seconds: p.2 });
                let (_, jiggle_interval) = control.get_settings();
                proof {
                    assert(events@ =~= seq![StatusEvent::Jiggled { dx: p.0, dy: p.1, idle_seconds: p.2 }]);
                }
                (events, Action::Sleep { seconds: jiggle_interval })
            },
            None => (events, Action::Sleep { seconds: 0 }),
        }
    }
}

/// Settings updated before an iteration starts are the ones it uses: the
/// idle threshold at the top of the iteration and the jiggle interval after a
/// jiggle, whatever values were in force before.
pub proof fn lemma_iteration_uses_current_settings(
    s: LoopModel,
    c: ControlModel,
    idle_threshold: u64,
    jiggle_interval: u64,
    position: (i32, i32),
    now: u64,
    dx: i32,
    dy: i32,
)
    ensures
        !s.finished && run_current(s, c) ==> tick_model(s, update_model(c, idle_threshold, jiggle_interval), position, now, dx, dy)
            == iteration_model(s, position, now, idle_threshold, dx, dy),
        !s.finished && s.pending is Some ==> moved_model(s, update_model(c, idle_threshold, jiggle_interval), position).2
            == (Action::Sleep { seconds: jiggle_interval }),
{
}

/// With an idle threshold of zero, the first iteration of a fresh loop of the
/// current run reports
/// `IdleDetected` and moves the pointer, and the move is reported as `Jiggled`.
pub proof fn lemma_zero_threshold_jiggles_at_once(
    start_position: (i32, i32),
    start: u64,
    c: ControlModel,
    position: (i32, i32),
    now: u64,
    dx: i32,
    dy: i32,
    after: (i32, i32),
)
    requires
        c.running,
        c.idle_threshold == 0,
    ensures
        tick_model(fresh_model(c.run, start_position, start), c, position, now, dx, dy).1 == seq![StatusEvent::IdleDetected],
        tick_model(fresh_model(c.run, start_position, start), c, position, now, dx, dy).2 == (Action::Move { dx, dy }),
        moved_model(tick_model(fresh_model(c.run, start_position, start), c, position, now, dx, dy).0, c, after).1
            == seq![StatusEvent::Jiggled {
                dx,
                dy,
                idle_seconds: elapsed_seconds(
                    tick_model(fresh_model(c.run, start_position, start), c, position, now, dx, dy).0.last_activity,
                    now,
                ),
            }],
{
    assert(Seq::<StatusEvent>::empty().push(StatusEvent::IdleDetected) =~= seq![StatusEvent::IdleDetected]);
}

/// While the pointer stays where it was last seen, `IdleDetected` comes at the
/// first iteration at which the idle threshold has passed, and never before.
pub proof fn lemma_idle_detected_at_threshold(s: LoopModel, c: ControlModel, now: u64, dx: i32, dy: i32)
    requires
        !s.finished,
        !s.is_idle,
        run_current(s, c),
        now >= s.last_activity,
    ensures
        tick_model(s, c, s.last_position, now, dx, dy).1.contains(StatusEvent::IdleDetected)
            <==> now - s.last_activity >= c.idle_threshold * MILLIS_PER_SECOND,
        tick_model(s, c, s.last_position, now, dx, dy).1.contains(StatusEvent::IdleDetected)
            <==> elapsed_seconds(s.last_activity, now) >= c.idle_threshold,
{
    let d = (now - s.last_activity) as int;
    let t = c.idle_threshold as int;
    assert(d / 1000 >= t <==> d >= t * 1000) by (nonlinear_arith)
        requires
            d >= 0,
            t >= 0,
    ;
    let e = tick_model(s, c, s.last_position, now, dx, dy).1;
    if elapsed_seconds(s.last_activity, now) >= c.idle_threshold {
        assert(e[0] == StatusEvent::IdleDetected);
    } else {
        assert(e =~= Seq::<StatusEvent>::empty());
    }
}

/// The loop's own jiggle is not taken for the user's movement: once the
/// re-sampled position is reported, an iteration that finds the pointer there
/// reports no `ActivityDetected`.
pub proof fn lemma_own_jiggle_not_activity(
    s: LoopModel,
    c: ControlModel,
    after: (i32, i32),
    c_next: ControlModel,
    now: u64,
    dx: i32,
    dy: i32,
)
    requires
        !s.finished,
        s.pending is Some,
    ensures
        moved_model(s, c, after).0.last_position == after,
        !tick_model(moved_model(s, c, after).0, c_next, after, now, dx, dy).1.contains(StatusEvent::ActivityDetected),
{
    let e = tick_model(moved_model(s, c, after).0, c_next, after, now, dx, dy).1;
    if e.contains(StatusEvent::ActivityDetected) {
        let k = choose|k: int| 0 <= k < e.len() && e[k] == StatusEvent::ActivityDetected;
        assert(e[k] == StatusEvent::ActivityDetected);
    }
}

/// A loop that has exited stays silent: whatever comes next, it reports no
/// status event, changes nothing and only exits.
pub proof fn lemma_finished_loop_is_silent(
    s: LoopModel,
    c: ControlModel,
    position: (i32, i32),
    now: u64,
    dx: i32,
    dy: i32,
)
    requires
        s.finished,
    ensures
        tick_model(s, c, position, now, dx, dy) == (s, Seq::<StatusEvent>::empty(), Action::Exit),
        moved_model(s, c, position) == (s, Seq::<StatusEvent>::empty(), Action::Exit),
{
}

/// A stop request ends the loop of the run in force at its next iteration
/// with exactly one `Stopped`, also where a start request comes between the
/// stop and that iteration: the iteration reports `Stopped` alone and exits,
/// and the loop has then exited, after which it stays silent. The loop that
/// the new start spawns belongs to the new run, which is current, and begins
/// active.
pub proof fn lemma_stop_ends_loop(
    s: LoopModel,
    c: ControlModel,
    position: (i32, i32),
    now: u64,
    dx: i32,
    dy: i32,
    start_position: (i32, i32),
    start: u64,
)
    requires
        !s.finished,
        s.run == c.run,
    ensures
        tick_model(s, stop_model(c), position, now, dx, dy) == (
            (LoopModel { pending: None, finished: true, ..s }),
            seq![StatusEvent::Stopped],
            Action::Exit,
        ),
        tick_model(s, start_model(stop_model(c)).0, position, now, dx, dy) == (
            (LoopModel { pending: None, finished: true, ..s }),
            seq![StatusEvent::Stopped],
            Action::Exit,
        ),
        forall|c2: ControlModel, p2: (i32, i32), n2: u64, x2: i32, y2: i32|
            #![trigger tick_model((LoopModel { pending: None, finished: true, ..s }), c2, p2, n2, x2, y2)]
            tick_model((LoopModel { pending: None, finished: true, ..s }), c2, p2, n2, x2, y2) == (
                (LoopModel { pending: None, finished: true, ..s }),
                Seq::<StatusEvent>::empty(),
                Action::Exit,
            ),
        forall|c2: ControlModel, p2: (i32, i32)|
            #![trigger moved_model((LoopModel { pending: None, finished: true, ..s }), c2, p2)]
            moved_model((LoopModel { pending: None, finished: true, ..s }), c2, p2) == (
                (LoopModel { pending: None, finished: true, ..s }),
                Seq::<StatusEvent>::empty(),
                Action::Exit,
            ),
        start_model(stop_model(c)).1 == (StartOutcome::Started { run: next_run(c.run) }),
        run_current(fresh_model(next_run(c.run), start_position, start), start_model(stop_model(c)).0),
        !fresh_model(next_run(c.run), start_position, start).is_idle,
        !fresh_model(next_run(c.run), start_position, start).finished,
        fresh_model(next_run(c.run), start_position, start).pending is None,
{
}

} // verus!
