//! A live clock: time is the wall clock, and each timer is armed when it is
//! registered, with its handler bound at that moment.

use vstd::prelude::*;

use crate::correctness::{check_positive_u64, check_valid_string, valid_name};
use crate::error::ClockError;
use crate::handlers::{EventHandler, TimeEventHandler};
use crate::registry::{
    has_timer, listed, listed_names, next_time_of, put_timer, timer_index, unique_timer_names,
    without_timer,
};
use crate::time::MonotonicTime;
use crate::timer::{after_fire, due, fresh_timer, lapsed, LiveTimer, TimerModel};

verus! {

/// The abstract state of a live clock.
pub struct LiveClockModel {
    pub timers: Seq<TimerModel>,
    /// The handler each timer is bound to, position by position.
    pub bound: Seq<EventHandler>,
    pub default_handler: Option<EventHandler>,
}

/// The bound handlers after storing a timer named `name` bound to `h`.
pub open spec fn put_bound(
    ts: Seq<TimerModel>,
    bs: Seq<EventHandler>,
    name: Seq<char>,
    h: EventHandler,
) -> Seq<EventHandler> {
    if has_timer(ts, name) {
        bs.update(timer_index(ts, name), h)
    } else {
        bs.push(h)
    }
}

/// The bound handlers after removing the timer named `name`, if any.
pub open spec fn without_bound(ts: Seq<TimerModel>, bs: Seq<EventHandler>, name: Seq<char>) -> Seq<
    EventHandler,
> {
    if has_timer(ts, name) {
        bs.remove(timer_index(ts, name))
    } else {
        bs
    }
}

/// The effective time of an alert requested for `alert` when the clock
/// reads `now`: an alert in the past is due now.
pub open spec fn clamped_alert(alert: int, now: int) -> int {
    if alert >= now {
        alert
    } else {
        now
    }
}

/// A clock that follows the wall clock; its timers fire in the background.
pub struct LiveClock {
    timers: Vec<LiveTimer>,
    default_callback: Option<EventHandler>,
}

impl View for LiveClock {
    type V = LiveClockModel;

    closed spec fn view(&self) -> LiveClockModel {
        LiveClockModel {
            timers: self.timers@.map_values(|t: LiveTimer| t@.timer),
            bound: self.timers@.map_values(|t: LiveTimer| t@.handler),
            default_handler: self.default_callback,
        }
    }
}

impl LiveClock {
    /// Timer names are unique and valid, and every registered timer is armed.
    pub open spec fn wf(&self) -> bool {
        &&& unique_timer_names(self@.timers)
        &&& self.armed()
        &&& forall|i: int| 0 <= i < self@.timers.len() ==> valid_name((#[trigger] self@.timers[i]).name)
    }

    /// Every registered timer is armed.
    pub closed spec fn armed(&self) -> bool {
        forall|i: int| 0 <= i < self.timers@.len() ==> (#[trigger] self.timers@[i])@.started
    }

    /// Creates a clock with no timers and no default handler.
    pub fn new() -> (r: LiveClock)
        ensures
            r.wf(),
            r@ == (LiveClockModel {
                timers: seq![],
                bound: seq![],
                default_handler: None,
            }),
    {
        let r = LiveClock { timers: Vec::new(), default_callback: None };
        proof {
            assert(r@.timers =~= seq![]);
            assert(r@.bound =~= seq![]);
        }
        r
    }

    /// The registered timers.
    pub fn get_timers(&self) -> (r: &Vec<LiveTimer>)
        ensures
            r@.map_values(|t: LiveTimer| t@.timer) == self@.timers,
            r@.map_values(|t: LiveTimer| t@.handler) == self@.bound,
    {
        &self.timers
    }

    fn find_timer(&self, name: &String) -> (r: Option<usize>)
        requires
            self.wf(),
        ensures
            match r {
                Some(i) => i < self@.timers.len() && self@.timers[i as int].name == name@
                    && has_timer(self@.timers, name@) && timer_index(self@.timers, name@) == i,
                None => !has_timer(self@.timers, name@),
            },
    {
        let mut i: usize = 0;
        while i < self.timers.len()
            invariant
                self.wf(),
                i <= self@.timers.len(),
                forall|j: int| 0 <= j < i ==> self@.timers[j].name != name@,
            decreases self.timers.len() - i,
        {
            if *self.timers[i].name() == *name {
                proof {
                    let ts = self@.timers;
                    assert(ts[i as int].name == name@);
                    assert(has_timer(ts, name@));
                    let k = timer_index(ts, name@);
                    assert(ts[k].name == ts[i as int].name);
                }
                return Some(i);
            }
            i = i + 1;
        }
        None
    }

    /// Stores an armed `timer`, cancelling and replacing any timer of the
    /// same name.
    fn store_timer(&mut self, timer: LiveTimer)
        requires
            old(self).wf(),
            timer@.started,
            valid_name(timer@.timer.name),
        ensures
            final(self).wf(),
            final(self)@ == (LiveClockModel {
                timers: put_timer(old(self)@.timers, timer@.timer),
                bound: put_bound(old(self)@.timers, old(self)@.bound, timer@.timer.name, timer@.handler),
                ..old(self)@
            }),
    {
        let ghost tm = timer@;
        let ghost ov = old(self).timers@;
        match self.find_timer(timer.name()) {
            Some(i) => {
                let mut replaced = self.timers.remove(i);
                replaced.cancel();
                self.timers.insert(i, timer);
                proof {
                    assert(self.timers@ =~= ov.update(i as int, self.timers@[i as int]));
                    assert(self@.timers =~= old(self)@.timers.update(i as int, tm.timer));
                    assert(self@.bound =~= old(self)@.bound.update(i as int, tm.handler));
                    assert forall|a: int, b: int|
                        0 <= a < self@.timers.len() && 0 <= b < self@.timers.len()
                            && #[trigger] self@.timers[a].name == #[trigger] self@.timers[b].name implies a
                        == b by {
                        assert(old(self)@.timers[a].name == self@.timers[a].name);
                        assert(old(self)@.timers[b].name == self@.timers[b].name);
                    }
                }
            },
            None => {
                self.timers.push(timer);
                proof {
                    assert(self@.timers =~= old(self)@.timers.push(tm.timer));
                    assert(self@.bound =~= old(self)@.bound.push(tm.handler));
                    assert forall|a: int, b: int|
                        0 <= a < self@.timers.len() && 0 <= b < self@.timers.len()
                            && #[trigger] self@.timers[a].name == #[trigger] self@.timers[b].name implies a
                        == b by {
                        if a < old(self)@.timers.len() && b == old(self)@.timers.len() {
                            assert(old(self)@.timers[a].name == tm.timer.name);
                        }
                        if b < old(self)@.timers.len() && a == old(self)@.timers.len() {
                            assert(old(self)@.timers[b].name == tm.timer.name);
                        }
                    }
                }
            },
        }
    }

    /// Reads the wall clock through the shared `time` source, in UNIX
    /// nanoseconds: never less than, and (below the largest timestamp) never
    /// equal to, an earlier reading of that source.
    pub fn timestamp_ns(&self, time: &mut MonotonicTime) -> (r: u64)
        ensures
            r == final(time).last(),
            r >= old(time).last(),
            old(time).last() < u64::MAX ==> r > old(time).last(),
    {
        time.get_time_ns()
    }

    /// Reads the wall clock through the shared `time` source, in UNIX
    /// microseconds.
    pub fn timestamp_us(&self, time: &mut MonotonicTime) -> (r: u64)
        ensures
            r == final(time).last() / 1000,
            final(time).last() >= old(time).last(),
            old(time).last() < u64::MAX ==> final(time).last() > old(time).last(),
    {
        time.get_time_ns() / 1000
    }

    /// Reads the wall clock through the shared `time` source, in UNIX
    /// milliseconds.
    pub fn timestamp_ms(&self, time: &mut MonotonicTime) -> (r: u64)
        ensures
            r == final(time).last() / 1_000_000,
            final(time).last() >= old(time).last(),
            old(time).last() < u64::MAX ==> final(time).last() > old(time).last(),
    {
        time.get_time_ns() / 1_000_000
    }

    fn is_listed(&self, i: usize, now: u64) -> (r: bool)
        requires
            i < self@.timers.len(),
        ensures
            r == listed(self@.timers[i as int], now as int),
    {
        let t = &self.timers[i];
        !t.is_expired() && match t.stop_time_ns() {
            Some(s) => s >= now,
            None => true,
        }
    }

    /// The names of the timers that have not expired and whose stop time is
    /// not before the latest reading of the shared `time` source.
    pub fn timer_names(&self, time: &MonotonicTime) -> (r: Vec<&str>)
        ensures
            r@.map_values(|s: &str| s@) == listed_names(self@.timers, time.last()),
    {
        let now = time.last_ns();
        let mut r: Vec<&str> = Vec::new();
        let mut i: usize = 0;
        proof {
            assert(self@.timers.take(0) =~= seq![]);
            assert(r@.map_values(|s: &str| s@) =~= seq![]);
        }
        while i < self.timers.len()
            invariant
                now == time.last(),
                i <= self@.timers.len(),
                r@.map_values(|s: &str| s@) == listed_names(self@.timers.take(i as int), now as int),
            decreases self.timers.len() - i,
        {
            let ghost before = r@;
            if self.is_listed(i, now) {
                r.push(self.timers[i].name().as_str());
                proof {
                    assert(r@.map_values(|s: &str| s@) =~= before.map_values(|s: &str| s@).push(
                        self@.timers[i as int].name,
                    ));
                }
            }
            proof {
                assert(self@.timers.take(i + 1).drop_last() =~= self@.timers.take(i as int));
            }
            i = i + 1;
        }
        proof {
            assert(self@.timers.take(i as int) =~= self@.timers);
        }
        r
    }

    /// The number of timers that `timer_names` lists.
    pub fn timer_count(&self, time: &MonotonicTime) -> (r: usize)
        ensures
            r == listed_names(self@.timers, time.last()).len(),
    {
        let now = time.last_ns();
        let mut n: usize = 0;
        let mut i: usize = 0;
        proof {
            assert(self@.timers.take(0) =~= seq![]);
        }
        while i < self.timers.len()
            invariant
                now == time.last(),
                i <= self@.timers.len(),
                n == listed_names(self@.timers.take(i as int), now as int).len(),
                n <= i,
            decreases self.timers.len() - i,
        {
            if self.is_listed(i, now) {
                n = n + 1;
            }
            proof {
                assert(self@.timers.take(i + 1).drop_last() =~= self@.timers.take(i as int));
            }
            i = i + 1;
        }
        proof {
            assert(self@.timers.take(i as int) =~= self@.timers);
        }
        n
    }

    /// Sets the handler bound to timers registered later without one.
    pub fn register_default_handler(&mut self, handler: EventHandler)
        requires
            old(self).wf(),
        ensures
            final(self).wf(),
            final(self)@ == (LiveClockModel { default_handler: Some(handler), ..old(self)@ }),
    {
        self.default_callback = Some(handler);
    }

    /// Registers a one-shot timer named `name` that fires at `alert_time_ns`,
    /// or at once if that time has passed on the shared `time` source, replacing any timer of that name.
    /// The timer is bound to `callback`, else to the default handler, and
    /// armed.
    pub fn set_time_alert_ns(
        &mut self,
        time: &mut MonotonicTime,
        name: &str,
        alert_time_ns: u64,
        callback: Option<EventHandler>,
    ) -> (r: Result<(), ClockError>)
        requires
            old(self).wf(),
        ensures
            final(self).wf(),
            r is Ok <==> valid_name(name@) && (callback is Some || old(self)@.default_handler is Some),
            !valid_name(name@) ==> r == Err::<(), ClockError>(ClockError::InvalidName),
            valid_name(name@) && callback is None && old(self)@.default_handler is None ==> r
                == Err::<(), ClockError>(ClockError::NoHandlerAvailable),
            r is Err ==> final(self)@ == old(self)@ && final(time).last() == old(time).last(),
            r is Ok ==> {
                let now = final(time).last();
                let due_at = clamped_alert(alert_time_ns as int, now);
                let h = match callback {
                    Some(c) => c,
                    None => old(self)@.default_handler->0,
                };
                &&& now >= old(time).last()
                &&& old(time).last() < u64::MAX ==> now > old(time).last()
                &&& final(self)@.default_handler == old(self)@.default_handler
                &&& final(self)@.timers == put_timer(
                    old(self)@.timers,
                    fresh_timer(name@, due_at - now, now, Some(due_at as u64)),
                )
                &&& final(self)@.bound == put_bound(old(self)@.timers, old(self)@.bound, name@, h)
            },
    {
        if !check_valid_string(name) {
            return Err(ClockError::InvalidName);
        }
        let handler = match callback {
            Some(c) => c,
            None => match self.default_callback {
                Some(d) => d,
                None => {
                    return Err(ClockError::NoHandlerAvailable);
                },
            },
        };
        let now = time.get_time_ns();
        let due_at = if alert_time_ns >= now {
            alert_time_ns
        } else {
            now
        };
        let mut timer = match LiveTimer::new(name, due_at - now, now, Some(due_at), handler) {
            Ok(t) => t,
            Err(e) => {
                assert(false);
                return Err(e);
            },
        };
        timer.start();
        self.store_timer(timer);
        Ok(())
    }

    /// Registers a timer named `name` that fires every `interval_ns` from
    /// `start_time_ns` on, until `stop_time_ns` if one is given, replacing
    /// any timer of that name. The timer is bound to `callback`, else to the
    /// default handler, and armed.
    pub fn set_timer_ns(
        &mut self,
        name: &str,
        interval_ns: u64,
        start_time_ns: u64,
        stop_time_ns: Option<u64>,
        callback: Option<EventHandler>,
    ) -> (r: Result<(), ClockError>)
        requires
            old(self).wf(),
        ensures
            final(self).wf(),
            r is Ok <==> valid_name(name@) && interval_ns > 0 && (callback is Some
                || old(self)@.default_handler is Some) && start_time_ns + interval_ns <= u64::MAX,
            !valid_name(name@) ==> r == Err::<(), ClockError>(ClockError::InvalidName),
            valid_name(name@) && interval_ns == 0 ==> r == Err::<(), ClockError>(
                ClockError::InvalidInterval,
            ),
            valid_name(name@) && interval_ns > 0 && callback is None
                && old(self)@.default_handler is None ==> r == Err::<(), ClockError>(
                ClockError::NoHandlerAvailable,
            ),
            valid_name(name@) && interval_ns > 0 && (callback is Some
                || old(self)@.default_handler is Some) && start_time_ns + interval_ns > u64::MAX
                ==> r == Err::<(), ClockError>(ClockError::InvalidTimerConfig),
            r is Err ==> final(self)@ == old(self)@,
            r is Ok ==> final(self)@ == (LiveClockModel {
                timers: put_timer(
                    old(self)@.timers,
                    fresh_timer(name@, interval_ns as int, start_time_ns as int, stop_time_ns),
                ),
                bound: put_bound(
                    old(self)@.timers,
                    old(self)@.bound,
                    name@,
                    match callback {
                        Some(c) => c,
                        None => old(self)@.default_handler->0,
                    },
                ),
                ..old(self)@
            }),
    {
        if !check_valid_string(name) {
            return Err(ClockError::InvalidName);
        }
        if !check_positive_u64(interval_ns) {
            return Err(ClockError::InvalidInterval);
        }
        let handler = match callback {
            Some(c) => c,
            None => match self.default_callback {
                Some(d) => d,
                None => {
                    return Err(ClockError::NoHandlerAvailable);
                },
            },
        };
        let mut timer = match LiveTimer::new(
            name,
            interval_ns,
            start_time_ns,
            stop_time_ns,
            handler,
        ) {
            Ok(t) => t,
            Err(e) => return Err(e),
        };
        timer.start();
        self.store_timer(timer);
        Ok(())
    }

    /// The next fire time of the timer named `name`, or zero when there is none.
    pub fn next_time_ns(&self, name: &str) -> (r: u64)
        requires
            self.wf(),
        ensures
            r == next_time_of(self@.timers, name@),
    {
        let key = name.to_owned();
        match self.find_timer(&key) {
            Some(i) => self.timers[i].next_time_ns(),
            None => 0,
        }
    }

    /// Stops and removes the timer named `name`; does nothing when there is
    /// none.
    pub fn cancel_timer(&mut self, name: &str)
        requires
            old(self).wf(),
        ensures
            final(self).wf(),
            final(self)@ == (LiveClockModel {
                timers: without_timer(old(self)@.timers, name@),
                bound: without_bound(old(self)@.timers, old(self)@.bound, name@),
                ..old(self)@
            }),
    {
        let key = name.to_owned();
        let ghost ov = self.timers@;
        match self.find_timer(&key) {
            Some(i) => {
                let mut timer = self.timers.remove(i);
                timer.cancel();
                proof {
                    let ot = old(self)@.timers;
                    assert(self.timers@ =~= ov.remove(i as int));
                    assert(self@.timers =~= ot.remove(i as int));
                    assert(self@.bound =~= old(self)@.bound.remove(i as int));
                    assert forall|a: int, b: int|
                        0 <= a < self@.timers.len() && 0 <= b < self@.timers.len()
                            && #[trigger] self@.timers[a].name == #[trigger] self@.timers[b].name implies a
                        == b by {
                        let a2 = if a < i { a } else { a + 1 };
                        let b2 = if b < i { b } else { b + 1 };
                        assert(ot[a2].name == self@.timers[a].name);
                        assert(ot[b2].name == self@.timers[b].name);
                    }
                    assert forall|a: int| 0 <= a < self.timers@.len() implies (
                    #[trigger] self.timers@[a])@.started by {
                        let a2 = if a < i { a } else { a + 1 };
                        assert(self.timers@[a] == ov[a2]);
                    }
                }
            },
            None => {},
        }
    }

    /// Stops and removes every timer.
    pub fn cancel_timers(&mut self)
        requires
            old(self).wf(),
        ensures
            final(self).wf(),
            final(self)@ == (LiveClockModel { timers: seq![], bound: seq![], ..old(self)@ }),
    {
        self.timers.clear();
        proof {
            assert(self@.timers =~= seq![]);
            assert(self@.bound =~= seq![]);
        }
    }

    /// Fires the timer named `name` if it is due at `now_ns`: returns its
    /// event paired with the handler it is bound to, and moves the timer on
    /// to its following fire time or expires it. A timer whose stop time
    /// `now_ns` reached with no fire time left expires without firing.
    /// Otherwise returns `None`, changing nothing.
    pub fn fire_timer(&mut self, name: &str, now_ns: u64) -> (r: Option<TimeEventHandler>)
        requires
            old(self).wf(),
        ensures
            final(self).wf(),
            ({
                let ts = old(self)@.timers;
                let i = timer_index(ts, name@);
                if has_timer(ts, name@) && due(ts[i], true, now_ns as int) {
                    &&& r matches Some(h)
                    &&& h.event@ == (name@, ts[i].next, now_ns as int)
                    &&& h.handler == old(self)@.bound[i]
                    &&& final(self)@ == (LiveClockModel {
                        timers: ts.update(i, after_fire(ts[i])),
                        ..old(self)@
                    })
                } else if has_timer(ts, name@) && lapsed(ts[i], true, now_ns as int) {
                    &&& r is None
                    &&& final(self)@ == (LiveClockModel {
                        timers: ts.update(i, TimerModel { expired: true, ..ts[i] }),
                        ..old(self)@
                    })
                } else {
                    r is None && final(self)@ == old(self)@
                }
            }),
    {
        let key = name.to_owned();
        let ghost ov = self.timers@;
        match self.find_timer(&key) {
            Some(i) => {
                assert(self.timers@[i as int]@.started);
                let r = self.timers[i].fire(now_ns);
                proof {
                    assert forall|j: int| 0 <= j < ov.len() && j != i implies self.timers@[j] == ov[j] by {}
                    let ghost m = old(self)@.timers[i as int];
                    if due(m, true, now_ns as int) {
                        assert(self@.timers =~= old(self)@.timers.update(i as int, after_fire(m)));
                        assert(self@.bound =~= old(self)@.bound);
                    } else if lapsed(m, true, now_ns as int) {
                        assert(self@.timers =~= old(self)@.timers.update(i as int, TimerModel { expired: true, ..m }));
                        assert(self@.bound =~= old(self)@.bound);
                    } else {
                        assert(self.timers@[i as int]@ == ov[i as int]@);
                        assert(self@.timers =~= old(self)@.timers);
                        assert(self@.bound =~= old(self)@.bound);
                    }
                    assert forall|a: int, b: int|
                        0 <= a < self@.timers.len() && 0 <= b < self@.timers.len()
                            && #[trigger] self@.timers[a].name == #[trigger] self@.timers[b].name implies a
                        == b by {
                        assert(old(self)@.timers[a].name == self@.timers[a].name);
                        assert(old(self)@.timers[b].name == self@.timers[b].name);
                    }
                    assert forall|a: int| 0 <= a < self.timers@.len() implies (
                    #[trigger] self.timers@[a])@.started by {
                        assert(ov[a]@.started);
                        if a == i {
                            assert(self.timers@[a]@.started);
                        }
                    }
                }
                r
            },
            None => None,
        }
    }
}

impl Default for LiveClock {
    fn default() -> (r: Self)
        ensures
            r.wf(),
            r@ == (LiveClockModel {
                timers: seq![],
                bound: seq![],
                default_handler: None,
            }),
    {
        LiveClock::new()
    }
}

} // verus!
