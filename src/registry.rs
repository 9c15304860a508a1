//! The name-keyed registries a clock keeps: timers and per-timer handlers.

use vstd::prelude::*;

use crate::handlers::EventHandler;
use crate::timer::TimerModel;

verus! {

/// No two timers share a name.
pub open spec fn unique_timer_names(ts: Seq<TimerModel>) -> bool {
    forall|i: int, j: int|
        0 <= i < ts.len() && 0 <= j < ts.len() && #[trigger] ts[i].name == #[trigger] ts[j].name
            ==> i == j
}

pub open spec fn has_timer(ts: Seq<TimerModel>, name: Seq<char>) -> bool {
    exists|i: int| 0 <= i < ts.len() && #[trigger] ts[i].name == name
}

/// The position of the timer named `name`.
pub open spec fn timer_index(ts: Seq<TimerModel>, name: Seq<char>) -> int {
    choose|i: int| 0 <= i < ts.len() && #[trigger] ts[i].name == name
}

/// The registry after storing `t`, which replaces a timer of the same name.
pub open spec fn put_timer(ts: Seq<TimerModel>, t: TimerModel) -> Seq<TimerModel> {
    if has_timer(ts, t.name) {
        ts.update(timer_index(ts, t.name), t)
    } else {
        ts.push(t)
    }
}

/// The registry after removing the timer named `name`, if any.
pub open spec fn without_timer(ts: Seq<TimerModel>, name: Seq<char>) -> Seq<TimerModel> {
    if has_timer(ts, name) {
        ts.remove(timer_index(ts, name))
    } else {
        ts
    }
}

/// Whether timer `m` is listed when the clock's time is `now`: it has not
/// expired, and its stop time, if any, has not passed.
pub open spec fn listed(m: TimerModel, now: int) -> bool {
    !m.expired && !(m.stop is Some && m.stop->0 < now)
}

/// The names of the listed timers at time `now`, in registry order.
pub open spec fn listed_names(ts: Seq<TimerModel>, now: int) -> Seq<Seq<char>>
    decreases ts.len(),
{
    if ts.len() == 0 {
        seq![]
    } else {
        let r = listed_names(ts.drop_last(), now);
        if listed(ts.last(), now) {
            r.push(ts.last().name)
        } else {
            r
        }
    }
}

/// The next fire time of the timer named `name`, or zero when there is none.
pub open spec fn next_time_of(ts: Seq<TimerModel>, name: Seq<char>) -> int {
    if has_timer(ts, name) {
        ts[timer_index(ts, name)].next
    } else {
        0
    }
}

/// No two per-timer handlers share a name.
pub open spec fn unique_handler_names(hs: Seq<(Seq<char>, EventHandler)>) -> bool {
    forall|i: int, j: int|
        0 <= i < hs.len() && 0 <= j < hs.len() && #[trigger] hs[i].0 == #[trigger] hs[j].0 ==> i
            == j
}

pub open spec fn has_handler(hs: Seq<(Seq<char>, EventHandler)>, name: Seq<char>) -> bool {
    exists|i: int| 0 <= i < hs.len() && #[trigger] hs[i].0 == name
}

pub open spec fn handler_index(hs: Seq<(Seq<char>, EventHandler)>, name: Seq<char>) -> int {
    choose|i: int| 0 <= i < hs.len() && #[trigger] hs[i].0 == name
}

/// The per-timer handlers after registering a timer named `name` with
/// `handler`: a given handler becomes the timer's own; with none, the timer
/// keeps no handler of its own.
pub open spec fn with_handler(
    hs: Seq<(Seq<char>, EventHandler)>,
    name: Seq<char>,
    handler: Option<EventHandler>,
) -> Seq<(Seq<char>, EventHandler)> {
    match handler {
        None => if has_handler(hs, name) {
            hs.remove(handler_index(hs, name))
        } else {
            hs
        },
        Some(h) => if has_handler(hs, name) {
            hs.update(handler_index(hs, name), (name, h))
        } else {
            hs.push((name, h))
        },
    }
}

/// The handler for events of timer `name`: its own, else the default.
pub open spec fn resolve(
    hs: Seq<(Seq<char>, EventHandler)>,
    default: Option<EventHandler>,
    name: Seq<char>,
) -> Option<EventHandler> {
    if has_handler(hs, name) {
        Some(hs[handler_index(hs, name)].1)
    } else {
        default
    }
}

/// Cancelling is idempotent: removing a name that is not registered leaves
/// the registry as it is, and removing a name twice is removing it once.
pub proof fn cancel_is_idempotent(ts: Seq<TimerModel>, name: Seq<char>)
    requires
        unique_timer_names(ts),
    ensures
        !has_timer(ts, name) ==> without_timer(ts, name) == ts,
        without_timer(without_timer(ts, name), name) == without_timer(ts, name),
        !has_timer(without_timer(ts, name), name),
{
    if has_timer(ts, name) {
        let i = timer_index(ts, name);
        let r = ts.remove(i);
        if has_timer(r, name) {
            let j = choose|j: int| 0 <= j < r.len() && #[trigger] r[j].name == name;
            let j2 = if j < i { j } else { j + 1 };
            assert(ts[j2].name == ts[i].name);
        }
    }
}

proof fn listed_len_update(ts: Seq<TimerModel>, i: int, t: TimerModel, now: int)
    requires
        0 <= i < ts.len(),
        listed(ts[i], now) == listed(t, now),
    ensures
        listed_names(ts.update(i, t), now).len() == listed_names(ts, now).len(),
    decreases ts.len(),
{
    let u = ts.update(i, t);
    if i == ts.len() - 1 {
        assert(u.drop_last() =~= ts.drop_last());
    } else {
        assert(u.drop_last() =~= ts.drop_last().update(i, t));
        listed_len_update(ts.drop_last(), i, t, now);
    }
}

/// Registering a timer under a name already in use replaces the earlier
/// timer: the registry keeps its size, holds the new timer under that name,
/// and, when both timers are listed at time `now`, lists as many timers.
pub proof fn register_replaces(ts: Seq<TimerModel>, t: TimerModel, now: int)
    requires
        unique_timer_names(ts),
        has_timer(ts, t.name),
    ensures
        put_timer(ts, t).len() == ts.len(),
        has_timer(put_timer(ts, t), t.name),
        put_timer(ts, t)[timer_index(put_timer(ts, t), t.name)] == t,
        unique_timer_names(put_timer(ts, t)),
        listed(ts[timer_index(ts, t.name)], now) && listed(t, now) ==> listed_names(
            put_timer(ts, t),
            now,
        ).len() == listed_names(ts, now).len(),
{
    let i = timer_index(ts, t.name);
    let u = ts.update(i, t);
    assert(u[i].name == t.name);
    let k = timer_index(u, t.name);
    assert(u[k].name == t.name);
    if k != i {
        assert(ts[k].name == ts[i].name);
    }
    assert forall|a: int, b: int|
        0 <= a < u.len() && 0 <= b < u.len() && #[trigger] u[a].name == #[trigger] u[b].name implies a
        == b by {
        assert(ts[a].name == u[a].name);
        assert(ts[b].name == u[b].name);
    }
    if listed(ts[i], now) && listed(t, now) {
        listed_len_update(ts, i, t, now);
    }
}

/// The listed names at time `now` are exactly the names of the registered
/// timers that are listed: no expired timer and no timer whose stop time has
/// passed. There are at most as many as registered timers.
pub proof fn listed_names_are_listed_timers(ts: Seq<TimerModel>, now: int)
    ensures
        listed_names(ts, now).len() <= ts.len(),
        forall|k: int|
            0 <= k < listed_names(ts, now).len() ==> exists|i: int|
                0 <= i < ts.len() && ts[i].name == #[trigger] listed_names(ts, now)[k] && listed(
                    ts[i],
                    now,
                ),
        forall|i: int|
            0 <= i < ts.len() && listed(#[trigger] ts[i], now) ==> listed_names(ts, now).contains(
                ts[i].name,
            ),
    decreases ts.len(),
{
    if ts.len() > 0 {
        let d = ts.drop_last();
        listed_names_are_listed_timers(d, now);
        let r = listed_names(d, now);
        let l = listed_names(ts, now);
        assert forall|k: int| 0 <= k < l.len() implies exists|i: int|
            0 <= i < ts.len() && ts[i].name == #[trigger] l[k] && listed(ts[i], now) by {
            if k < r.len() {
                assert(l[k] == r[k]);
                let i = choose|i: int| 0 <= i < d.len() && d[i].name == r[k] && listed(d[i], now);
                assert(ts[i] == d[i]);
            } else {
                assert(ts[ts.len() - 1].name == l[k]);
            }
        }
        assert forall|i: int| 0 <= i < ts.len() && listed(#[trigger] ts[i], now) implies l.contains(
            ts[i].name,
        ) by {
            if i < d.len() {
                assert(d[i] == ts[i]);
                assert(r.contains(d[i].name));
                let k = choose|k: int| 0 <= k < r.len() && r[k] == d[i].name;
                assert(l[k] == r[k]);
            } else {
                assert(l[l.len() - 1] == ts[i].name);
            }
        }
    }
}

/// A timer's events go to the handler it was registered with, or, when it
/// was registered without one, to the default handler current at the time
/// of resolution: a later change of the default changes the resolution.
pub proof fn registered_handler_resolves(
    hs: Seq<(Seq<char>, EventHandler)>,
    name: Seq<char>,
    handler: Option<EventHandler>,
    default: Option<EventHandler>,
)
    requires
        unique_handler_names(hs),
    ensures
        unique_handler_names(with_handler(hs, name, handler)),
        resolve(with_handler(hs, name, handler), default, name) == match handler {
            Some(h) => Some(h),
            None => default,
        },
        handler is None ==> !has_handler(with_handler(hs, name, handler), name),
{
    let u = with_handler(hs, name, handler);
    if has_handler(hs, name) {
        let i = handler_index(hs, name);
        match handler {
            Some(h) => {
                assert forall|a: int, b: int|
                    0 <= a < u.len() && 0 <= b < u.len() && #[trigger] u[a].0 == #[trigger] u[b].0 implies a
                    == b by {
                    assert(hs[a].0 == u[a].0);
                    assert(hs[b].0 == u[b].0);
                }
                assert(u[i].0 == name);
                let k = handler_index(u, name);
                assert(u[k].0 == u[i].0);
            },
            None => {
                assert forall|a: int, b: int|
                    0 <= a < u.len() && 0 <= b < u.len() && #[trigger] u[a].0 == #[trigger] u[b].0 implies a
                    == b by {
                    let a2 = if a < i { a } else { a + 1 };
                    let b2 = if b < i { b } else { b + 1 };
                    assert(hs[a2].0 == u[a].0);
                    assert(hs[b2].0 == u[b].0);
                }
                if has_handler(u, name) {
                    let j = choose|j: int| 0 <= j < u.len() && #[trigger] u[j].0 == name;
                    let j2 = if j < i { j } else { j + 1 };
                    assert(hs[j2].0 == hs[i].0);
                }
            },
        }
    } else {
        match handler {
            Some(h) => {
                assert forall|a: int, b: int|
                    0 <= a < u.len() && 0 <= b < u.len() && #[trigger] u[a].0 == #[trigger] u[b].0 implies a
                    == b by {
                    if a < hs.len() && b == hs.len() {
                        assert(hs[a].0 == name);
                    }
                    if b < hs.len() && a == hs.len() {
                        assert(hs[b].0 == name);
                    }
                }
                assert(u[hs.len() as int].0 == name);
                let k = handler_index(u, name);
                assert(u[k].0 == name);
            },
            None => {},
        }
    }
}

} // verus!
