//! A deterministic clock: time moves only when told to, and fired events are
//! computed synchronously.

use vstd::prelude::*;
use vstd::multiset::lemma_multiset_empty_len;
use vstd::seq_lib::{to_multiset_build, to_multiset_insert, to_multiset_len};

use crate::correctness::{check_positive_u64, check_valid_string, valid_name};
use crate::error::ClockError;
use crate::handlers::{create_time_event_handler, EventHandler, TimeEventHandler};
use crate::registry::{
    handler_index, listed, listed_names, has_handler, has_timer, next_time_of, put_timer, resolve,
    timer_index, registered_handler_resolves, unique_handler_names, unique_timer_names, with_handler, without_timer,
};
use crate::timer::{
    advanced, events_view, fresh_timer, stop_time_bounds_timer, timer_events, timer_wf, TestTimer, TimeEvent, TimerModel,
};

verus! {

/// The abstract state of a deterministic clock.
pub struct ClockModel {
    pub time: int,
    pub timers: Seq<TimerModel>,
    pub default_handler: Option<EventHandler>,
    pub handlers: Seq<(Seq<char>, EventHandler)>,
}

/// The events of all timers when advanced to `to`, timer after timer.
pub open spec fn all_events(ts: Seq<TimerModel>, to: int) -> Seq<(Seq<char>, int, int)>
    decreases ts.len(),
{
    if ts.len() == 0 {
        seq![]
    } else {
        all_events(ts.drop_last(), to) + timer_events(ts.last(), to)
    }
}

/// Events in ascending order of their scheduled time.
pub open spec fn sorted_by_time(s: Seq<(Seq<char>, int, int)>) -> bool {
    forall|i: int, j: int| 0 <= i < j < s.len() ==> s[i].1 <= s[j].1
}

/// The timers advanced to `to`.
pub open spec fn advance_all(ts: Seq<TimerModel>, to: int) -> Seq<TimerModel> {
    ts.map_values(|m: TimerModel| advanced(m, to))
}

/// The state of clock `m` after advancing its timers to `to`; its own time
/// moves to `to` only when `set_time` holds.
pub open spec fn advance_clock(m: ClockModel, to: int, set_time: bool) -> ClockModel {
    ClockModel {
        time: if set_time {
            to
        } else {
            m.time
        },
        timers: advance_all(m.timers, to),
        ..m
    }
}

/// Time never moves backward: over two successive advances, each to a
/// target no earlier than the clock's time, the clock's time never
/// decreases.
pub proof fn advance_time_is_monotonic(m: ClockModel, t1: int, s1: bool, t2: int, s2: bool)
    requires
        t1 >= m.time,
        t2 >= advance_clock(m, t1, s1).time,
    ensures
        m.time <= advance_clock(m, t1, s1).time,
        advance_clock(m, t1, s1).time <= advance_clock(advance_clock(m, t1, s1), t2, s2).time,
{
}

/// Reorders `v` by ascending scheduled time.
pub fn sort_by_time(v: Vec<TimeEvent>) -> (r: Vec<TimeEvent>)
    ensures
        sorted_by_time(events_view(r@)),
        events_view(r@).to_multiset() == events_view(v@).to_multiset(),
{
    let ghost v0 = v@;
    let mut rest = v;
    let mut r: Vec<TimeEvent> = Vec::new();
    proof {
        assert(events_view(r@) =~= seq![]);
        to_multiset_len(events_view(r@));
        lemma_multiset_empty_len(events_view(r@).to_multiset());
        assert(events_view(r@).to_multiset().add(events_view(rest@).to_multiset()) =~= events_view(
            v0,
        ).to_multiset());
    }
    while rest.len() > 0
        invariant
            sorted_by_time(events_view(r@)),
            events_view(r@).to_multiset().add(events_view(rest@).to_multiset())
                == events_view(v0).to_multiset(),
        decreases rest.len(),
    {
        let ghost rest_before = rest@;
        let ghost r_before = r@;
        let e = rest.pop().unwrap();
        let mut p: usize = 0;
        while p < r.len() && r[p].ts_event <= e.ts_event
            invariant
                r@ == r_before,
                p <= r.len(),
                forall|j: int| 0 <= j < p ==> r@[j].ts_event <= e.ts_event,
            decreases r.len() - p,
        {
            p = p + 1;
        }
        assert(p == r.len() || r@[p as int].ts_event > e.ts_event);
        let ghost x = e@;
        let ghost ev = e.ts_event;
        r.insert(p, e);
        proof {
            let vb = events_view(r_before);
            assert(events_view(r@) =~= vb.insert(p as int, x));
            assert(events_view(rest_before) =~= events_view(rest@).push(x));
            to_multiset_insert(vb, p as int, x);
            to_multiset_build(events_view(rest@), x);
            assert(events_view(r@).to_multiset().add(events_view(rest@).to_multiset())
                =~= events_view(v0).to_multiset());
            assert forall|i: int, j: int|
                0 <= i < j < events_view(r@).len() implies events_view(r@)[i].1
                <= events_view(r@)[j].1 by {
                if j < p {
                } else if j == p {
                } else if i <= p {
                    assert(events_view(r_before)[p as int].1 <= events_view(r_before)[j - 1].1);
                } else {
                }
            }
        }
    }
    proof {
        assert(events_view(rest@) =~= seq![]);
        to_multiset_len(events_view(rest@));
        lemma_multiset_empty_len(events_view(rest@).to_multiset());
        assert(events_view(r@).to_multiset().add(events_view(rest@).to_multiset())
            =~= events_view(r@).to_multiset());
    }
    r
}

/// A deterministic clock, for back-testing and for tests.
///
/// Stores the current time, which moves only when advanced.
pub struct TestClock {
    time: u64,
    timers: Vec<TestTimer>,
    default_callback: Option<EventHandler>,
    callbacks: Vec<(String, EventHandler)>,
}

impl View for TestClock {
    type V = ClockModel;

    closed spec fn view(&self) -> ClockModel {
        ClockModel {
            time: self.time as int,
            timers: self.timers@.map_values(|t: TestTimer| t@),
            default_handler: self.default_callback,
            handlers: self.callbacks@.map_values(|p: (String, EventHandler)| (p.0@, p.1)),
        }
    }
}

impl TestClock {
    /// Timer names and handler names are unique, every timer is consistent,
    /// and every timer name is valid.
    pub open spec fn wf(&self) -> bool {
        &&& unique_timer_names(self@.timers)
        &&& unique_handler_names(self@.handlers)
        &&& forall|i: int| 0 <= i < self@.timers.len() ==> timer_wf(#[trigger] self@.timers[i])
        &&& forall|i: int| 0 <= i < self@.timers.len() ==> valid_name((#[trigger] self@.timers[i]).name)
    }

    /// Creates a clock at time zero, with no timers and no handlers.
    pub fn new() -> (r: TestClock)
        ensures
            r.wf(),
            r@ == (ClockModel {
                time: 0,
                timers: seq![],
                default_handler: None,
                handlers: seq![],
            }),
    {
        let r = TestClock {
            time: 0,
            timers: Vec::new(),
            default_callback: None,
            callbacks: Vec::new(),
        };
        proof {
            assert(r@.timers =~= seq![]);
            assert(r@.handlers =~= seq![]);
        }
        r
    }

    /// The registered timers.
    pub fn get_timers(&self) -> (r: &Vec<TestTimer>)
        ensures
            r@.map_values(|t: TestTimer| t@) == self@.timers,
    {
        &self.timers
    }

    fn find_timer(&self, name: &String) -> (r: Option<usize>)
        requires
            self.wf(),
        ensures
            match r {
                Some(i) => i < self@.timers.len() && self@.timers[i as int].name == name@
                    && has_timer(self@.timers, name@) && timer_index(self@.timers, name@) == i,
                None => !has_timer(self@.timers, name@),
            },
    {
        let mut i: usize = 0;
        while i < self.timers.len()
            invariant
                self.wf(),
                i <= self@.timers.len(),
                forall|j: int| 0 <= j < i ==> self@.timers[j].name != name@,
            decreases self.timers.len() - i,
        {
            if *self.timers[i].name() == *name {
                proof {
                    let ts = self@.timers;
                    assert(ts[i as int].name == name@);
                    assert(has_timer(ts, name@));
                    let k = timer_index(ts, name@);
                    assert(ts[k].name == ts[i as int].name);
                }
                return Some(i);
            }
            i = i + 1;
        }
        None
    }

    fn find_handler(&self, name: &String) -> (r: Option<usize>)
        requires
            self.wf(),
        ensures
            match r {
                Some(i) => i < self@.handlers.len() && self@.handlers[i as int].0 == name@
                    && has_handler(self@.handlers, name@) && handler_index(self@.handlers, name@)
                    == i,
                None => !has_handler(self@.handlers, name@),
            },
    {
        let mut i: usize = 0;
        while i < self.callbacks.len()
            invariant
                self.wf(),
                i <= self@.handlers.len(),
                forall|j: int| 0 <= j < i ==> self@.handlers[j].0 != name@,
            decreases self.callbacks.len() - i,
        {
            if self.callbacks[i].0 == *name {
                proof {
                    let hs = self@.handlers;
                    assert(hs[i as int].0 == name@);
                    assert(has_handler(hs, name@));
                    let k = handler_index(hs, name@);
                    assert(hs[k].0 == hs[i as int].0);
                }
                return Some(i);
            }
            i = i + 1;
        }
        None
    }

    /// Stores `timer`, replacing any timer of the same name.
    fn store_timer(&mut self, timer: TestTimer)
        requires
            old(self).wf(),
            timer_wf(timer@),
            valid_name(timer@.name),
        ensures
            final(self).wf(),
            final(self)@ == (ClockModel { timers: put_timer(old(self)@.timers, timer@), ..old(self)@ }),
    {
        let ghost tm = timer@;
        match self.find_timer(timer.name()) {
            Some(i) => {
                self.timers.set(i, timer);
                proof {
                    assert(self@.timers =~= old(self)@.timers.update(i as int, tm));
                    assert forall|a: int, b: int|
                        0 <= a < self@.timers.len() && 0 <= b < self@.timers.len()
                            && #[trigger] self@.timers[a].name == #[trigger] self@.timers[b].name implies a
                        == b by {
                        assert(old(self)@.timers[a].name == self@.timers[a].name);
                        assert(old(self)@.timers[b].name == self@.timers[b].name);
                    }
                }
            },
            None => {
                self.timers.push(timer);
                proof {
                    assert(self@.timers =~= old(self)@.timers.push(tm));
                    assert forall|a: int, b: int|
                        0 <= a < self@.timers.len() && 0 <= b < self@.timers.len()
                            && #[trigger] self@.timers[a].name == #[trigger] self@.timers[b].name implies a
                        == b by {
                        if a < old(self)@.timers.len() && b == old(self)@.timers.len() {
                            assert(old(self)@.timers[a].name == tm.name);
                        }
                        if b < old(self)@.timers.len() && a == old(self)@.timers.len() {
                            assert(old(self)@.timers[b].name == tm.name);
                        }
                    }
                }
            },
        }
    }

    /// Records the handler a timer named `name` is registered with: a given
    /// handler becomes its own, and with none it keeps no handler of its own.
    fn store_handler(&mut self, name: String, handler: Option<EventHandler>)
        requires
            old(self).wf(),
        ensures
            final(self).wf(),
            final(self)@ == (ClockModel {
                handlers: with_handler(old(self)@.handlers, name@, handler),
                ..old(self)@
            }),
    {
        let ghost nm = name@;
        let ghost ov = self.callbacks@;
        proof {
            registered_handler_resolves(old(self)@.handlers, nm, handler, None);
        }
        match self.find_handler(&name) {
            Some(i) => {
                match handler {
                    Some(h) => {
                        self.callbacks.set(i, (name, h));
                        proof {
                            assert(self@.handlers =~= old(self)@.handlers.update(i as int, (nm, h)));
                        }
                    },
                    None => {
                        self.callbacks.remove(i);
                        proof {
                            assert(self.callbacks@ =~= ov.remove(i as int));
                            assert(self@.handlers =~= old(self)@.handlers.remove(i as int));
                        }
                    },
                }
            },
            None => {
                match handler {
                    Some(h) => {
                        self.callbacks.push((name, h));
                        proof {
                            assert(self@.handlers =~= old(self)@.handlers.push((nm, h)));
                        }
                    },
                    None => {},
                }
            },
        }
        proof {
            assert(self@.timers =~= old(self)@.timers);
        }
    }

    /// The current time in UNIX nanoseconds.
    pub fn timestamp_ns(&self) -> (r: u64)
        ensures
            r == self@.time,
    {
        self.time
    }

    /// The current time in UNIX microseconds.
    pub fn timestamp_us(&self) -> (r: u64)
        ensures
            r == self@.time / 1000,
    {
        self.time / 1000
    }

    /// The current time in UNIX milliseconds.
    pub fn timestamp_ms(&self) -> (r: u64)
        ensures
            r == self@.time / 1_000_000,
    {
        self.time / 1_000_000
    }

    fn is_listed(&self, i: usize) -> (r: bool)
        requires
            i < self@.timers.len(),
        ensures
            r == listed(self@.timers[i as int], self@.time),
    {
        let t = &self.timers[i];
        !t.is_expired() && match t.stop_time_ns() {
            Some(s) => s >= self.time,
            None => true,
        }
    }

    /// The names of the timers that have not expired and whose stop time, if
    /// any, has not passed.
    pub fn timer_names(&self) -> (r: Vec<&str>)
        ensures
            r@.map_values(|s: &str| s@) == listed_names(self@.timers, self@.time),
    {
        let mut r: Vec<&str> = Vec::new();
        let mut i: usize = 0;
        proof {
            assert(self@.timers.take(0) =~= seq![]);
            assert(r@.map_values(|s: &str| s@) =~= seq![]);
        }
        while i < self.timers.len()
            invariant
                i <= self@.timers.len(),
                r@.map_values(|s: &str| s@) == listed_names(self@.timers.take(i as int), self@.time),
            decreases self.timers.len() - i,
        {
            let ghost before = r@;
            if self.is_listed(i) {
                r.push(self.timers[i].name().as_str());
                proof {
                    assert(r@.map_values(|s: &str| s@) =~= before.map_values(|s: &str| s@).push(
                        self@.timers[i as int].name,
                    ));
                }
            }
            proof {
                assert(self@.timers.take(i + 1).drop_last() =~= self@.timers.take(i as int));
            }
            i = i + 1;
        }
        proof {
            assert(self@.timers.take(i as int) =~= self@.timers);
        }
        r
    }

    /// The number of timers that `timer_names` lists.
    pub fn timer_count(&self) -> (r: usize)
        ensures
            r == listed_names(self@.timers, self@.time).len(),
    {
        let mut n: usize = 0;
        let mut i: usize = 0;
        proof {
            assert(self@.timers.take(0) =~= seq![]);
        }
        while i < self.timers.len()
            invariant
                i <= self@.timers.len(),
                n == listed_names(self@.timers.take(i as int), self@.time).len(),
                n <= i,
            decreases self.timers.len() - i,
        {
            if self.is_listed(i) {
                n = n + 1;
            }
            proof {
                assert(self@.timers.take(i + 1).drop_last() =~= self@.timers.take(i as int));
            }
            i = i + 1;
        }
        proof {
            assert(self@.timers.take(i as int) =~= self@.timers);
        }
        n
    }

    /// Sets the handler used for timers that have none of their own.
    pub fn register_default_handler(&mut self, callback: EventHandler)
        requires
            old(self).wf(),
        ensures
            final(self).wf(),
            final(self)@ == (ClockModel { default_handler: Some(callback), ..old(self)@ }),
    {
        self.default_callback = Some(callback);
        proof {
            assert(self@.timers =~= old(self)@.timers);
            assert(self@.handlers =~= old(self)@.handlers);
        }
    }

    /// The next fire time of the timer named `name`, or zero when there is none.
    pub fn next_time_ns(&self, name: &str) -> (r: u64)
        requires
            self.wf(),
        ensures
            r == next_time_of(self@.timers, name@),
    {
        let key = name.to_owned();
        match self.find_timer(&key) {
            Some(i) => self.timers[i].next_time_ns(),
            None => 0,
        }
    }

    /// Registers a one-shot timer named `name` that fires at `alert_time_ns`,
    /// replacing any timer of that name. A given `callback` becomes the
    /// timer's own handler.
    pub fn set_time_alert_ns(
        &mut self,
        name: &str,
        alert_time_ns: u64,
        callback: Option<EventHandler>,
    ) -> (r: Result<(), ClockError>)
        requires
            old(self).wf(),
        ensures
            final(self).wf(),
            r is Ok <==> valid_name(name@) && (callback is Some || old(self)@.default_handler is Some)
                && alert_time_ns > old(self)@.time,
            !valid_name(name@) ==> r == Err::<(), ClockError>(ClockError::InvalidName),
            valid_name(name@) && callback is None && old(self)@.default_handler is None ==> r
                == Err::<(), ClockError>(ClockError::NoHandlerAvailable),
            valid_name(name@) && (callback is Some || old(self)@.default_handler is Some)
                && alert_time_ns <= old(self)@.time ==> r == Err::<(), ClockError>(
                ClockError::InvalidTimerConfig,
            ),
            r is Err ==> final(self)@ == old(self)@,
            r is Ok ==> final(self)@ == (ClockModel {
                timers: put_timer(
                    old(self)@.timers,
                    fresh_timer(
                        name@,
                        alert_time_ns - old(self)@.time,
                        old(self)@.time,
                        Some(alert_time_ns),
                    ),
                ),
                handlers: with_handler(old(self)@.handlers, name@, callback),
                ..old(self)@
            }),
            r is Ok ==> resolve(final(self)@.handlers, final(self)@.default_handler, name@) == match callback {
                Some(h) => Some(h),
                None => old(self)@.default_handler,
            },
            r is Ok && callback is None ==> !has_handler(final(self)@.handlers, name@),
    {
        proof {
            registered_handler_resolves(old(self)@.handlers, name@, callback, old(self)@.default_handler);
        }
        if !check_valid_string(name) {
            return Err(ClockError::InvalidName);
        }
        if callback.is_none() && self.default_callback.is_none() {
            return Err(ClockError::NoHandlerAvailable);
        }
        let now = self.time;
        let interval_ns = if alert_time_ns >= now {
            alert_time_ns - now
        } else {
            0
        };
        let timer = match TestTimer::new(name, interval_ns, now, Some(alert_time_ns)) {
            Ok(t) => t,
            Err(e) => return Err(e),
        };
        self.store_handler(name.to_owned(), callback);
        self.store_timer(timer);
        Ok(())
    }

    /// Registers a timer named `name` that fires every `interval_ns` from
    /// `start_time_ns` on, until `stop_time_ns` if one is given, replacing
    /// any timer of that name. A given `callback` becomes the timer's own
    /// handler.
    pub fn set_timer_ns(
        &mut self,
        name: &str,
        interval_ns: u64,
        start_time_ns: u64,
        stop_time_ns: Option<u64>,
        callback: Option<EventHandler>,
    ) -> (r: Result<(), ClockError>)
        requires
            old(self).wf(),
        ensures
            final(self).wf(),
            r is Ok <==> valid_name(name@) && interval_ns > 0 && (callback is Some
                || old(self)@.default_handler is Some) && start_time_ns + interval_ns <= u64::MAX,
            !valid_name(name@) ==> r == Err::<(), ClockError>(ClockError::InvalidName),
            valid_name(name@) && interval_ns == 0 ==> r == Err::<(), ClockError>(
                ClockError::InvalidInterval,
            ),
            valid_name(name@) && interval_ns > 0 && callback is None
                && old(self)@.default_handler is None ==> r == Err::<(), ClockError>(
                ClockError::NoHandlerAvailable,
            ),
            valid_name(name@) && interval_ns > 0 && (callback is Some
                || old(self)@.default_handler is Some) && start_time_ns + interval_ns > u64::MAX
                ==> r == Err::<(), ClockError>(ClockError::InvalidTimerConfig),
            r is Err ==> final(self)@ == old(self)@,
            r is Ok ==> final(self)@ == (ClockModel {
                timers: put_timer(
                    old(self)@.timers,
                    fresh_timer(name@, interval_ns as int, start_time_ns as int, stop_time_ns),
                ),
                handlers: with_handler(old(self)@.handlers, name@, callback),
                ..old(self)@
            }),
            r is Ok ==> resolve(final(self)@.handlers, final(self)@.default_handler, name@) == match callback {
                Some(h) => Some(h),
                None => old(self)@.default_handler,
            },
            r is Ok && callback is None ==> !has_handler(final(self)@.handlers, name@),
    {
        proof {
            registered_handler_resolves(old(self)@.handlers, name@, callback, old(self)@.default_handler);
        }
        if !check_valid_string(name) {
            return Err(ClockError::InvalidName);
        }
        if !check_positive_u64(interval_ns) {
            return Err(ClockError::InvalidInterval);
        }
        if callback.is_none() && self.default_callback.is_none() {
            return Err(ClockError::NoHandlerAvailable);
        }
        let timer = match TestTimer::new(name, interval_ns, start_time_ns, stop_time_ns) {
            Ok(t) => t,
            Err(e) => return Err(e),
        };
        self.store_handler(name.to_owned(), callback);
        self.store_timer(timer);
        Ok(())
    }

    /// Removes the timer named `name`; does nothing when there is none.
    pub fn cancel_timer(&mut self, name: &str)
        requires
            old(self).wf(),
        ensures
            final(self).wf(),
            final(self)@ == (ClockModel {
                timers: without_timer(old(self)@.timers, name@),
                ..old(self)@
            }),
    {
        let key = name.to_owned();
        match self.find_timer(&key) {
            Some(i) => {
                let mut timer = self.timers.remove(i);
                timer.cancel();
                proof {
                    let ot = old(self)@.timers;
                    assert(self@.timers =~= ot.remove(i as int));
                    assert forall|a: int, b: int|
                        0 <= a < self@.timers.len() && 0 <= b < self@.timers.len()
                            && #[trigger] self@.timers[a].name == #[trigger] self@.timers[b].name implies a
                        == b by {
                        let a2 = if a < i { a } else { a + 1 };
                        let b2 = if b < i { b } else { b + 1 };
                        assert(ot[a2].name == self@.timers[a].name);
                        assert(ot[b2].name == self@.timers[b].name);
                    }
                }
            },
            None => {},
        }
    }

    /// Removes every timer.
    pub fn cancel_timers(&mut self)
        requires
            old(self).wf(),
        ensures
            final(self).wf(),
            final(self)@ == (ClockModel { timers: seq![], ..old(self)@ }),
    {
        self.timers.clear();
        proof {
            assert(self@.timers =~= seq![]);
            assert(self@.handlers =~= old(self)@.handlers);
        }
    }

    /// Advances every timer to `to_time_ns` and returns the events they
    /// fired, in ascending order of scheduled time. Moves the clock's own
    /// time to `to_time_ns` only when `set_time` holds.
    pub fn advance_time(&mut self, to_time_ns: u64, set_time: bool) -> (r: Vec<TimeEvent>)
        requires
            old(self).wf(),
            to_time_ns >= old(self)@.time,
        ensures
            final(self).wf(),
            final(self)@ == advance_clock(old(self)@, to_time_ns as int, set_time),
            forall|i: int|
                0 <= i < final(self)@.timers.len() && (#[trigger] final(self)@.timers[i]).stop is Some
                    && final(self)@.timers[i].stop->0 <= to_time_ns ==> final(self)@.timers[i].expired,
            sorted_by_time(events_view(r@)),
            events_view(r@).to_multiset() == all_events(
                old(self)@.timers,
                to_time_ns as int,
            ).to_multiset(),
    {
        if set_time {
            self.time = to_time_ns;
        }
        let ghost to = to_time_ns as int;
        let ghost ot = old(self)@.timers;
        let mut fired: Vec<TimeEvent> = Vec::new();
        let n = self.timers.len();
        let mut i: usize = 0;
        proof {
            assert(ot.take(0) =~= seq![]);
            assert(events_view(fired@) =~= seq![]);
        }
        while i < n
            invariant
                to == to_time_ns as int,
                ot == old(self)@.timers,
                n == ot.len(),
                i <= n,
                self@.timers.len() == n,
                self@.time == (if set_time { to } else { old(self)@.time }),
                self@.default_handler == old(self)@.default_handler,
                self@.handlers == old(self)@.handlers,
                unique_handler_names(old(self)@.handlers),
                unique_timer_names(ot),
                forall|j: int| 0 <= j < n ==> timer_wf(#[trigger] ot[j]),
                forall|j: int| 0 <= j < n ==> timer_wf(#[trigger] self@.timers[j]),
                forall|j: int| 0 <= j < i ==> #[trigger] self@.timers[j] == advanced(ot[j], to),
                forall|j: int| i <= j < n ==> #[trigger] self@.timers[j] == ot[j],
                events_view(fired@) == all_events(ot.take(i as int), to),
            decreases n - i,
        {
            let ghost before = fired@;
            assert(self.timers@[i as int]@ == self@.timers[i as int]);
            let ghost tv = self.timers@;
            let ghost pv = self@.timers;
            let mut step = self.timers[i].advance(to_time_ns);
            let ghost sv = step@;
            fired.append(&mut step);
            proof {
                assert(self.timers@.len() == n);
                assert(self@.timers[i as int] == advanced(ot[i as int], to));
                assert forall|j: int| 0 <= j < n && j != i implies self.timers@[j] == tv[j] by {}
                assert forall|j: int| 0 <= j < n && j != i implies #[trigger] self@.timers[j] == pv[j] by {
                    assert(self.timers@[j] == tv[j]);
                    assert(pv[j] == tv[j]@);
                }
                assert forall|j: int| 0 <= j < n implies timer_wf(#[trigger] self@.timers[j]) by {
                    if j != i {
                        assert(self@.timers[j] == pv[j]);
                    }
                }
                assert forall|j: int| 0 <= j < i + 1 implies #[trigger] self@.timers[j] == advanced(ot[j], to) by {
                    if j != i {
                        assert(self@.timers[j] == pv[j]);
                    }
                }
                assert(self.timers@[i as int]@ == self@.timers[i as int]);
                assert(events_view(fired@) =~= events_view(before) + events_view(sv));
                assert(ot.take(i + 1).drop_last() =~= ot.take(i as int));
                assert(events_view(fired@) =~= all_events(ot.take(i as int), to) + timer_events(
                    ot[i as int],
                    to,
                ));
            }
            i = i + 1;
        }
        proof {
            assert(ot.take(n as int) =~= ot);
            assert(self@.timers =~= advance_all(ot, to));
            assert forall|j: int|
                0 <= j < self@.timers.len() && (#[trigger] self@.timers[j]).stop is Some
                    && self@.timers[j].stop->0 <= to implies self@.timers[j].expired by {
                stop_time_bounds_timer(ot[j], to);
            }
            assert forall|a: int, b: int|
                0 <= a < self@.timers.len() && 0 <= b < self@.timers.len()
                    && #[trigger] self@.timers[a].name == #[trigger] self@.timers[b].name implies a
                == b by {
                assert(ot[a].name == self@.timers[a].name);
                assert(ot[b].name == self@.timers[b].name);
            }
        }
        sort_by_time(fired)
    }

    /// Pairs each event with the handler of its timer, or with the default
    /// handler when the timer has none of its own.
    pub fn match_handlers(&self, events: Vec<TimeEvent>) -> (r: Vec<TimeEventHandler>)
        requires
            self.wf(),
            forall|i: int|
                0 <= i < events@.len() ==> resolve(
                    self@.handlers,
                    self@.default_handler,
                    #[trigger] events@[i].name@,
                ) is Some,
        ensures
            r@.len() == events@.len(),
            forall|i: int|
                0 <= i < r@.len() ==> #[trigger] r@[i].event@ == events@[i]@ && Some(r@[i].handler)
                    == resolve(self@.handlers, self@.default_handler, events@[i].name@),
    {
        let ghost evs0 = events@;
        let mut rest = events;
        let mut r: Vec<TimeEventHandler> = Vec::new();
        while rest.len() > 0
            invariant
                self.wf(),
                r@.len() + rest@.len() == evs0.len(),
                rest@ == evs0.subrange(r@.len() as int, evs0.len() as int),
                forall|i: int|
                    0 <= i < evs0.len() ==> resolve(
                        self@.handlers,
                        self@.default_handler,
                        #[trigger] evs0[i].name@,
                    ) is Some,
                forall|i: int|
                    0 <= i < r@.len() ==> #[trigger] r@[i].event@ == evs0[i]@ && Some(r@[i].handler)
                        == resolve(self@.handlers, self@.default_handler, evs0[i].name@),
            decreases rest.len(),
        {
            let ghost k = r@.len() as int;
            let ghost rb = r@;
            let event = rest.remove(0);
            assert(event == evs0[k]);
            let handler = match self.find_handler(&event.name) {
                Some(j) => {
                    assert(self@.handlers[j as int] == (self.callbacks@[j as int].0@, self.callbacks@[j as int].1));
                    self.callbacks[j].1
                },
                None => match self.default_callback {
                    Some(d) => d,
                    None => {
                        assert(false);
                        EventHandler { id: 0 }
                    },
                },
            };
            assert(Some(handler) == resolve(self@.handlers, self@.default_handler, evs0[k].name@));
            r.push(create_time_event_handler(event, &handler));
            proof {
                assert(r@[k].event@ == evs0[k]@);
                assert forall|i: int| 0 <= i < r@.len() implies #[trigger] r@[i].event@ == evs0[i]@
                    && Some(r@[i].handler) == resolve(self@.handlers, self@.default_handler, evs0[i].name@) by {
                    if i < k {
                        assert(r@[i] == rb[i]);
                    }
                }
                assert(rest@ =~= evs0.subrange(r@.len() as int, evs0.len() as int));
            }
        }
        r
    }
}

impl Default for TestClock {
    fn default() -> (r: Self)
        ensures
            r.wf(),
            r@ == (ClockModel {
                time: 0,
                timers: seq![],
                default_handler: None,
                handlers: seq![],
            }),
    {
        TestClock::new()
    }
}

} // verus!
