//! Timers and the events they emit.

use vstd::prelude::*;

use crate::correctness::{check_valid_string, valid_name};
use crate::error::ClockError;
use crate::handlers::{EventHandler, TimeEventHandler};

verus! {

/// An event emitted when a timer reaches one of its scheduled times.
#[derive(Debug)]
pub struct TimeEvent {
    /// The name of the timer that fired.
    pub name: String,
    /// The scheduled time of the event, in UNIX nanoseconds.
    pub ts_event: u64,
    /// The time at which the event was initialised, in UNIX nanoseconds.
    pub ts_init: u64,
}

impl View for TimeEvent {
    type V = (Seq<char>, int, int);

    open spec fn view(&self) -> (Seq<char>, int, int) {
        (self.name@, self.ts_event as int, self.ts_init as int)
    }
}

/// The abstract state of a timer.
pub struct TimerModel {
    pub name: Seq<char>,
    pub interval: int,
    pub start: int,
    pub stop: Option<int>,
    pub next: int,
    pub expired: bool,
}

/// A timer ends after firing at `t` when `t` reached its stop time, or when
/// no later fire time is representable.
pub open spec fn ends_at(t: int, interval: int, stop: Option<int>) -> bool {
    (stop is Some && t >= stop->0) || t + interval > u64::MAX
}

/// Whether fire time `t` lies past the stop time, so the timer never fires
/// at it.
pub open spec fn past_stop(t: int, stop: Option<int>) -> bool {
    stop is Some && t > stop->0
}

/// What a live timer with next fire time `next` does when advanced to `to`:
/// the times it fires at (none past its stop time), its next fire time, and
/// whether it has expired (as soon as `to` reaches its stop time).
pub open spec fn fire(next: int, interval: int, stop: Option<int>, to: int) -> (Seq<int>, int, bool)
    decreases (if interval <= 0 || next > to { 0 } else { to - next + 1 }),
{
    if interval <= 0 {
        (seq![], next, false)
    } else if past_stop(next, stop) {
        (seq![], next, to >= stop->0)
    } else if next > to {
        (seq![], next, false)
    } else if ends_at(next, interval, stop) {
        (seq![next], next, true)
    } else {
        let r = fire(next + interval, interval, stop, to);
        (seq![next] + r.0, r.1, r.2)
    }
}

/// The times at which timer `m` fires when advanced to `to`.
pub open spec fn fire_times(m: TimerModel, to: int) -> Seq<int> {
    if m.expired {
        seq![]
    } else {
        fire(m.next, m.interval, m.stop, to).0
    }
}

/// The events that timer `m` emits when advanced to `to`, in time order.
pub open spec fn timer_events(m: TimerModel, to: int) -> Seq<(Seq<char>, int, int)> {
    fire_times(m, to).map_values(|t: int| (m.name, t, t))
}

/// The state of timer `m` after being advanced to `to`.
pub open spec fn advanced(m: TimerModel, to: int) -> TimerModel {
    if m.expired {
        m
    } else {
        let r = fire(m.next, m.interval, m.stop, to);
        TimerModel { next: r.1, expired: r.2, ..m }
    }
}

proof fn fire_respects_stop(next: int, interval: int, stop: int, to: int)
    requires
        interval > 0,
    ensures
        forall|i: int|
            0 <= i < fire(next, interval, Some(stop), to).0.len() ==> #[trigger] fire(
                next,
                interval,
                Some(stop),
                to,
            ).0[i] <= stop,
        stop <= to ==> fire(next, interval, Some(stop), to).2,
    decreases (if next > to { 0 } else { to - next + 1 }),
{
    if !past_stop(next, Some(stop)) && next <= to && !ends_at(next, interval, Some(stop)) {
        fire_respects_stop(next + interval, interval, stop, to);
        let r = fire(next + interval, interval, Some(stop), to);
        assert forall|i: int| 0 <= i < fire(next, interval, Some(stop), to).0.len() implies #[trigger] fire(
            next,
            interval,
            Some(stop),
            to,
        ).0[i] <= stop by {
            if i > 0 {
                assert(fire(next, interval, Some(stop), to).0[i] == r.0[i - 1]);
            }
        }
    }
}

/// A stop time bounds a timer: advancing it never fires past its stop time,
/// and once advanced to its stop time or later it has expired.
pub proof fn stop_time_bounds_timer(m: TimerModel, to: int)
    requires
        timer_wf(m),
        m.stop is Some,
    ensures
        forall|i: int| 0 <= i < fire_times(m, to).len() ==> #[trigger] fire_times(m, to)[i] <= m.stop->0,
        m.stop->0 <= to ==> advanced(m, to).expired,
{
    if !m.expired {
        fire_respects_stop(m.next, m.interval, m.stop->0, to);
    }
}

/// Whether fire time `t` lies past the stop time `stop`.
fn stop_passed(t: u64, stop: Option<u64>) -> (r: bool)
    ensures
        r == past_stop(
            t as int,
            match stop {
                Some(s) => Some(s as int),
                None => None,
            },
        ),
{
    match stop {
        Some(s) => t > s,
        None => false,
    }
}

/// The view of a sequence of events.
pub open spec fn events_view(s: Seq<TimeEvent>) -> Seq<(Seq<char>, int, int)> {
    s.map_values(|e: TimeEvent| e@)
}

/// A repeating timer whose fire times are computed on demand, without waiting.
#[derive(Debug)]
pub struct TestTimer {
    /// The name of the timer.
    pub name: String,
    /// The time between two fires, in nanoseconds.
    pub interval_ns: u64,
    /// The time the timer starts from, in UNIX nanoseconds.
    pub start_time_ns: u64,
    /// The time after which the timer fires no more, if any.
    pub stop_time_ns: Option<u64>,
    next_time_ns: u64,
    is_expired: bool,
}

impl View for TestTimer {
    type V = TimerModel;

    closed spec fn view(&self) -> TimerModel {
        TimerModel {
            name: self.name@,
            interval: self.interval_ns as int,
            start: self.start_time_ns as int,
            stop: match self.stop_time_ns {
                Some(s) => Some(s as int),
                None => None,
            },
            next: self.next_time_ns as int,
            expired: self.is_expired,
        }
    }
}

/// The state of a timer that has just been built.
pub open spec fn fresh_timer(name: Seq<char>, interval: int, start: int, stop: Option<u64>) -> TimerModel {
    TimerModel {
        name,
        interval,
        start,
        stop: match stop {
            Some(s) => Some(s as int),
            None => None,
        },
        next: start + interval,
        expired: false,
    }
}

/// Whether a timer can be built from these parameters.
pub open spec fn valid_timer_config(name: Seq<char>, interval: int, start: int) -> bool {
    valid_name(name) && interval > 0 && start + interval <= u64::MAX
}

/// Whether a timer state is internally consistent.
pub open spec fn timer_wf(m: TimerModel) -> bool {
    m.interval > 0 && 0 <= m.next <= u64::MAX
}

impl TestTimer {
    /// Builds a timer that first fires one interval after `start_time_ns`.
    pub fn new(name: &str, interval_ns: u64, start_time_ns: u64, stop_time_ns: Option<u64>) -> (r:
        Result<TestTimer, ClockError>)
        ensures
            valid_timer_config(name@, interval_ns as int, start_time_ns as int) <==> r is Ok,
            r is Err ==> r == Err::<TestTimer, ClockError>(ClockError::InvalidTimerConfig),
            r matches Ok(t) ==> t@ == fresh_timer(
                name@,
                interval_ns as int,
                start_time_ns as int,
                stop_time_ns,
            ),
    {
        if !check_valid_string(name) || interval_ns == 0 || start_time_ns > u64::MAX - interval_ns {
            return Err(ClockError::InvalidTimerConfig);
        }
        Ok(TestTimer {
            name: name.to_owned(),
            interval_ns,
            start_time_ns,
            stop_time_ns,
            next_time_ns: start_time_ns + interval_ns,
            is_expired: false,
        })
    }

    /// The name of the timer.
    pub fn name(&self) -> (r: &String)
        ensures
            r@ == self@.name,
    {
        &self.name
    }

    /// The time after which the timer fires no more, if any.
    pub fn stop_time_ns(&self) -> (r: Option<u64>)
        ensures
            r matches Some(s) ==> self@.stop == Some(s as int),
            r is None ==> self@.stop is None,
    {
        self.stop_time_ns
    }

    /// The next time the timer is scheduled to fire.
    pub fn next_time_ns(&self) -> (r: u64)
        ensures
            r == self@.next,
    {
        self.next_time_ns
    }

    /// Whether the timer fires no more.
    pub fn is_expired(&self) -> (r: bool)
        ensures
            r == self@.expired,
    {
        self.is_expired
    }

    /// Stops the timer: it fires no more.
    pub fn cancel(&mut self)
        ensures
            final(self)@ == (TimerModel { expired: true, ..old(self)@ }),
    {
        self.is_expired = true;
    }

    /// Fires every scheduled time up to and including `to_time_ns`, returning
    /// the events in time order.
    pub fn advance(&mut self, to_time_ns: u64) -> (r: Vec<TimeEvent>)
        requires
            timer_wf(old(self)@),
        ensures
            timer_wf(final(self)@),
            final(self)@ == advanced(old(self)@, to_time_ns as int),
            events_view(r@) == timer_events(old(self)@, to_time_ns as int),
    {
        let ghost to = to_time_ns as int;
        let mut out: Vec<TimeEvent> = Vec::new();
        proof {
            assert(events_view(out@) =~= seq![]);
            assert(timer_events(old(self)@, to) =~= events_view(out@) + timer_events(self@, to));
        }
        while !self.is_expired && !stop_passed(self.next_time_ns, self.stop_time_ns)
            && self.next_time_ns <= to_time_ns
            invariant
                to == to_time_ns as int,
                timer_wf(self@),
                self@.name == old(self)@.name,
                self@.interval == old(self)@.interval,
                self@.start == old(self)@.start,
                self@.stop == old(self)@.stop,
                advanced(self@, to) == advanced(old(self)@, to),
                timer_events(old(self)@, to) == events_view(out@) + timer_events(self@, to),
            decreases (if self.is_expired || self.next_time_ns > to_time_ns {
                0
            } else {
                to_time_ns - self.next_time_ns + 1
            }),
        {
            let t = self.next_time_ns;
            let ghost before = self@;
            let ghost out_before = out@;
            out.push(TimeEvent { name: self.name.clone(), ts_event: t, ts_init: t });
            let stop_reached = match self.stop_time_ns {
                Some(s) => t >= s,
                None => false,
            };
            if stop_reached || t > u64::MAX - self.interval_ns {
                self.is_expired = true;
            } else {
                self.next_time_ns = t + self.interval_ns;
            }
            proof {
                let r = fire(before.next, before.interval, before.stop, to);
                assert(ends_at(t as int, before.interval, before.stop) == (stop_reached || t
                    > u64::MAX - self.interval_ns));
                assert(events_view(out@) =~= events_view(out_before) + seq![(before.name, t as int, t as int)]);
                if self.is_expired {
                    assert(fire_times(before, to) =~= seq![t as int]);
                    assert(timer_events(self@, to) =~= seq![]);
                    assert(timer_events(before, to) =~= seq![(before.name, t as int, t as int)]);
                } else {
                    assert(fire_times(before, to) =~= seq![t as int] + fire_times(self@, to));
                    assert(timer_events(before, to) =~= seq![(before.name, t as int, t as int)]
                        + timer_events(self@, to));
                }
            }
        }
        if !self.is_expired && stop_passed(self.next_time_ns, self.stop_time_ns) {
            match self.stop_time_ns {
                Some(s) => {
                    if to_time_ns >= s {
                        self.is_expired = true;
                    }
                },
                None => {},
            }
        }
        proof {
            assert(timer_events(self@, to) =~= seq![]);
            assert(events_view(out@) =~= timer_events(old(self)@, to));
        }
        out
    }
}

/// Whether a live timer can be built from these parameters: a one-shot timer
/// due at its start time needs no interval.
pub open spec fn valid_live_config(name: Seq<char>, interval: int, start: int, stop: Option<u64>) -> bool {
    &&& valid_name(name)
    &&& (interval > 0 || stop == Some(start as u64))
    &&& start + interval <= u64::MAX
}

/// The state of live timer `m` after it fired at its next fire time.
pub open spec fn after_fire(m: TimerModel) -> TimerModel {
    if ends_at(m.next, m.interval, m.stop) {
        TimerModel { expired: true, ..m }
    } else {
        TimerModel { next: m.next + m.interval, ..m }
    }
}

/// Whether live timer `m` is due to fire at time `now`.
pub open spec fn due(m: TimerModel, started: bool, now: int) -> bool {
    started && !m.expired && !past_stop(m.next, m.stop) && m.next <= now
}

/// Whether live timer `m` has run out at time `now`: its next fire time lies
/// past its stop time, and `now` reached the stop time.
pub open spec fn lapsed(m: TimerModel, started: bool, now: int) -> bool {
    started && !m.expired && past_stop(m.next, m.stop) && now >= m.stop->0
}

/// The abstract state of a live timer.
pub struct LiveTimerModel {
    pub timer: TimerModel,
    pub handler: EventHandler,
    pub started: bool,
}

/// A timer that fires against real time. The clock decides when it fires;
/// the surrounding runtime waits for its fire times and calls its handler.
#[derive(Debug)]
pub struct LiveTimer {
    name: String,
    interval_ns: u64,
    start_time_ns: u64,
    stop_time_ns: Option<u64>,
    next_time_ns: u64,
    is_expired: bool,
    handler: EventHandler,
    is_started: bool,
}

impl View for LiveTimer {
    type V = LiveTimerModel;

    closed spec fn view(&self) -> LiveTimerModel {
        LiveTimerModel {
            timer: TimerModel {
                name: self.name@,
                interval: self.interval_ns as int,
                start: self.start_time_ns as int,
                stop: match self.stop_time_ns {
                    Some(s) => Some(s as int),
                    None => None,
                },
                next: self.next_time_ns as int,
                expired: self.is_expired,
            },
            handler: self.handler,
            started: self.is_started,
        }
    }
}

impl LiveTimer {
    /// Builds a timer, bound to `handler`, that first fires one interval
    /// after `start_time_ns`. It fires only once started.
    pub fn new(
        name: &str,
        interval_ns: u64,
        start_time_ns: u64,
        stop_time_ns: Option<u64>,
        handler: EventHandler,
    ) -> (r: Result<LiveTimer, ClockError>)
        ensures
            valid_live_config(name@, interval_ns as int, start_time_ns as int, stop_time_ns) <==> r is Ok,
            r is Err ==> r == Err::<LiveTimer, ClockError>(ClockError::InvalidTimerConfig),
            r matches Ok(t) ==> t@ == (LiveTimerModel {
                timer: fresh_timer(name@, interval_ns as int, start_time_ns as int, stop_time_ns),
                handler,
                started: false,
            }),
    {
        let one_shot_now = match stop_time_ns {
            Some(s) => s == start_time_ns,
            None => false,
        };
        if !check_valid_string(name) || (interval_ns == 0 && !one_shot_now) || start_time_ns
            > u64::MAX - interval_ns {
            return Err(ClockError::InvalidTimerConfig);
        }
        Ok(LiveTimer {
            name: name.to_owned(),
            interval_ns,
            start_time_ns,
            stop_time_ns,
            next_time_ns: start_time_ns + interval_ns,
            is_expired: false,
            handler,
            is_started: false,
        })
    }

    /// The name of the timer.
    pub fn name(&self) -> (r: &String)
        ensures
            r@ == self@.timer.name,
    {
        &self.name
    }

    /// The time between two fires, in nanoseconds.
    pub fn interval_ns(&self) -> (r: u64)
        ensures
            r == self@.timer.interval,
    {
        self.interval_ns
    }

    /// The time after which the timer fires no more, if any.
    pub fn stop_time_ns(&self) -> (r: Option<u64>)
        ensures
            r matches Some(s) ==> self@.timer.stop == Some(s as int),
            r is None ==> self@.timer.stop is None,
    {
        self.stop_time_ns
    }

    /// The handler the timer's events go to.
    pub fn handler(&self) -> (r: EventHandler)
        ensures
            r == self@.handler,
    {
        self.handler
    }

    /// The next time the timer is scheduled to fire.
    pub fn next_time_ns(&self) -> (r: u64)
        ensures
            r == self@.timer.next,
    {
        self.next_time_ns
    }

    /// Whether the timer fires no more.
    pub fn is_expired(&self) -> (r: bool)
        ensures
            r == self@.timer.expired,
    {
        self.is_expired
    }

    /// Arms the timer: from now on it fires when due.
    pub fn start(&mut self)
        ensures
            final(self)@ == (LiveTimerModel { started: true, ..old(self)@ }),
    {
        self.is_started = true;
    }

    /// Stops the timer: it fires no more.
    pub fn cancel(&mut self)
        ensures
            final(self)@ == (LiveTimerModel {
                timer: TimerModel { expired: true, ..old(self)@.timer },
                ..old(self)@
            }),
    {
        self.is_expired = true;
    }

    /// Fires the timer if it is due at `now_ns`: returns the event for its
    /// next fire time, paired with its handler, and moves on to the following
    /// fire time or expires. A timer never fires past its stop time, and
    /// expires once `now_ns` reaches its stop time with no fire time left.
    pub fn fire(&mut self, now_ns: u64) -> (r: Option<TimeEventHandler>)
        ensures
            due(old(self)@.timer, old(self)@.started, now_ns as int) ==> {
                &&& r matches Some(h)
                &&& h.event@ == (old(self)@.timer.name, old(self)@.timer.next, now_ns as int)
                &&& h.handler == old(self)@.handler
                &&& final(self)@ == (LiveTimerModel { timer: after_fire(old(self)@.timer), ..old(self)@ })
            },
            lapsed(old(self)@.timer, old(self)@.started, now_ns as int) ==> r is None && final(self)@
                == (LiveTimerModel {
                timer: TimerModel { expired: true, ..old(self)@.timer },
                ..old(self)@
            }),
            !due(old(self)@.timer, old(self)@.started, now_ns as int) && !lapsed(
                old(self)@.timer,
                old(self)@.started,
                now_ns as int,
            ) ==> r is None && final(self)@ == old(self)@,
    {
        if !self.is_started || self.is_expired {
            return None;
        }
        if stop_passed(self.next_time_ns, self.stop_time_ns) {
            match self.stop_time_ns {
                Some(s) => {
                    if now_ns >= s {
                        self.is_expired = true;
                    }
                },
                None => {},
            }
            return None;
        }
        if self.next_time_ns > now_ns {
            return None;
        }
        let t = self.next_time_ns;
        let event = TimeEvent { name: self.name.clone(), ts_event: t, ts_init: now_ns };
        let stop_reached = match self.stop_time_ns {
            Some(s) => t >= s,
            None => false,
        };
        if stop_reached || t > u64::MAX - self.interval_ns {
            self.is_expired = true;
        } else {
            self.next_time_ns = t + self.interval_ns;
        }
        Some(TimeEventHandler { event, handler: self.handler })
    }
}

} // verus!
