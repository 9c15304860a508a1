use nautilus_common::correctness::{check_positive_u64, check_valid_string};
use nautilus_common::error::ClockError;
use nautilus_common::handlers::{create_time_event_handler, EventHandler};
use nautilus_common::live_clock::LiveClock;
use nautilus_common::test_clock::{sort_by_time, TestClock};
use nautilus_common::time::{next_unique_ns, MonotonicTime};
use nautilus_common::timer::{LiveTimer, TestTimer, TimeEvent};

fn handler(id: u64) -> EventHandler {
    EventHandler { id }
}

fn event(name: &str, ts: u64) -> TimeEvent {
    TimeEvent { name: name.to_string(), ts_event: ts, ts_init: ts }
}

#[test]
fn new_clock_is_empty_at_zero() {
    let clock = TestClock::new();
    assert_eq!(clock.timestamp_ns(), 0);
    assert_eq!(clock.timer_count(), 0);
    assert!(clock.timer_names().is_empty());
}

#[test]
fn timestamps_at_each_precision() {
    let mut clock = TestClock::new();
    clock.advance_time(1_234_567_890, true);
    assert_eq!(clock.timestamp_ns(), 1_234_567_890);
    assert_eq!(clock.timestamp_us(), 1_234_567);
    assert_eq!(clock.timestamp_ms(), 1_234);
}

#[test]
fn advance_time_moves_forward() {
    let mut clock = TestClock::new();
    clock.advance_time(100, true);
    assert_eq!(clock.timestamp_ns(), 100);
    clock.advance_time(250, true);
    assert_eq!(clock.timestamp_ns(), 250);
    clock.advance_time(250, true);
    assert_eq!(clock.timestamp_ns(), 250);
}

#[test]
fn advance_time_without_setting_keeps_time() {
    let mut clock = TestClock::new();
    clock.register_default_handler(handler(1));
    clock.set_time_alert_ns("a", 50, None).unwrap();
    let events = clock.advance_time(60, false);
    assert_eq!(events.len(), 1);
    assert_eq!(clock.timestamp_ns(), 0);
}

#[test]
fn events_come_in_time_order() {
    let mut clock = TestClock::new();
    clock.register_default_handler(handler(1));
    clock.set_time_alert_ns("late", 100, None).unwrap();
    clock.set_time_alert_ns("early", 50, None).unwrap();
    let events = clock.advance_time(150, true);
    let times: Vec<u64> = events.iter().map(|e| e.ts_event).collect();
    assert_eq!(times, vec![50, 100]);
    assert_eq!(events[0].name, "early");
    assert_eq!(events[1].name, "late");
}

#[test]
fn repeating_timer_fires_each_interval_passed() {
    let mut clock = TestClock::new();
    clock.register_default_handler(handler(1));
    clock.set_timer_ns("tick", 10, 0, None, None).unwrap();
    let events = clock.advance_time(35, true);
    let times: Vec<u64> = events.iter().map(|e| e.ts_event).collect();
    assert_eq!(times, vec![10, 20, 30]);
    assert_eq!(clock.next_time_ns("tick"), 40);
}

#[test]
fn default_handler_resolves_at_fire_time() {
    let mut clock = TestClock::new();
    clock.register_default_handler(handler(1));
    clock.set_time_alert_ns("a", 10, None).unwrap();
    clock.set_time_alert_ns("b", 20, None).unwrap();
    let first = clock.advance_time(10, true);
    let matched = clock.match_handlers(first);
    assert_eq!(matched.len(), 1);
    assert_eq!(matched[0].handler, handler(1));
    clock.register_default_handler(handler(2));
    let second = clock.advance_time(20, true);
    let matched = clock.match_handlers(second);
    assert_eq!(matched.len(), 1);
    assert_eq!(matched[0].event.name, "b");
    assert_eq!(matched[0].handler, handler(2));
}

#[test]
fn own_handler_wins_over_default() {
    let mut clock = TestClock::new();
    clock.register_default_handler(handler(1));
    clock.set_time_alert_ns("own", 10, Some(handler(7))).unwrap();
    clock.set_time_alert_ns("shared", 10, None).unwrap();
    let events = clock.advance_time(10, true);
    let matched = clock.match_handlers(events);
    assert_eq!(matched.len(), 2);
    for m in &matched {
        if m.event.name == "own" {
            assert_eq!(m.handler, handler(7));
        } else {
            assert_eq!(m.handler, handler(1));
        }
    }
}

#[test]
fn registration_without_any_handler_fails() {
    let mut clock = TestClock::new();
    assert_eq!(clock.set_time_alert_ns("x", 10, None), Err(ClockError::NoHandlerAvailable));
    assert_eq!(clock.timer_count(), 0);
    assert_eq!(clock.set_timer_ns("y", 10, 0, None, None), Err(ClockError::NoHandlerAvailable));
    assert_eq!(clock.timer_count(), 0);
}

#[test]
fn invalid_names_are_rejected() {
    let mut clock = TestClock::new();
    clock.register_default_handler(handler(1));
    assert_eq!(clock.set_time_alert_ns("", 10, None), Err(ClockError::InvalidName));
    assert_eq!(clock.set_time_alert_ns("   ", 10, None), Err(ClockError::InvalidName));
    assert_eq!(clock.set_timer_ns("\t\n", 10, 0, None, None), Err(ClockError::InvalidName));
    assert_eq!(clock.set_timer_ns("caf\u{e9}", 10, 0, None, None), Err(ClockError::InvalidName));
    assert_eq!(clock.timer_count(), 0);
}

#[test]
fn zero_interval_is_rejected() {
    let mut clock = TestClock::new();
    clock.register_default_handler(handler(1));
    assert_eq!(clock.set_timer_ns("t", 0, 0, None, None), Err(ClockError::InvalidInterval));
    assert_eq!(clock.timer_count(), 0);
}

#[test]
fn alert_not_in_the_future_is_rejected() {
    let mut clock = TestClock::new();
    clock.register_default_handler(handler(1));
    clock.advance_time(100, true);
    assert_eq!(clock.set_time_alert_ns("now", 100, None), Err(ClockError::InvalidTimerConfig));
    assert_eq!(clock.set_time_alert_ns("past", 40, None), Err(ClockError::InvalidTimerConfig));
    assert_eq!(clock.timer_count(), 0);
}

#[test]
fn first_fire_past_largest_time_is_rejected() {
    let mut clock = TestClock::new();
    clock.register_default_handler(handler(1));
    assert_eq!(
        clock.set_timer_ns("t", 10, u64::MAX - 5, None, None),
        Err(ClockError::InvalidTimerConfig)
    );
}

#[test]
fn cancelling_is_idempotent() {
    let mut clock = TestClock::new();
    clock.register_default_handler(handler(1));
    clock.set_time_alert_ns("a", 10, None).unwrap();
    clock.cancel_timer("missing");
    assert_eq!(clock.timer_count(), 1);
    clock.cancel_timer("a");
    assert_eq!(clock.timer_count(), 0);
    clock.cancel_timer("a");
    assert_eq!(clock.timer_count(), 0);
    assert_eq!(clock.next_time_ns("a"), 0);
}

#[test]
fn cancel_timers_removes_all() {
    let mut clock = TestClock::new();
    clock.register_default_handler(handler(1));
    clock.set_time_alert_ns("a", 10, None).unwrap();
    clock.set_timer_ns("b", 5, 0, None, None).unwrap();
    assert_eq!(clock.timer_count(), 2);
    clock.cancel_timers();
    assert_eq!(clock.timer_count(), 0);
    assert!(clock.advance_time(100, true).is_empty());
}

#[test]
fn same_name_replaces_timer() {
    let mut clock = TestClock::new();
    clock.register_default_handler(handler(1));
    clock.set_time_alert_ns("a", 10, None).unwrap();
    clock.set_time_alert_ns("a", 30, None).unwrap();
    assert_eq!(clock.timer_count(), 1);
    assert_eq!(clock.timer_names(), vec!["a"]);
    assert_eq!(clock.next_time_ns("a"), 30);
    let events = clock.advance_time(40, true);
    assert_eq!(events.len(), 1);
    assert_eq!(events[0].ts_event, 30);
}

#[test]
fn expired_timers_are_not_listed() {
    let mut clock = TestClock::new();
    clock.register_default_handler(handler(1));
    clock.set_timer_ns("bounded", 10, 0, Some(20), None).unwrap();
    clock.set_timer_ns("open", 10, 0, None, None).unwrap();
    let events = clock.advance_time(25, true);
    assert_eq!(events.len(), 4);
    assert_eq!(clock.timer_names(), vec!["open"]);
    assert_eq!(clock.timer_count(), 1);
    assert!(clock.advance_time(100, true).iter().all(|e| e.name == "open"));
}

#[test]
fn alert_fires_once() {
    let mut clock = TestClock::new();
    clock.register_default_handler(handler(1));
    clock.set_time_alert_ns("once", 10, None).unwrap();
    assert_eq!(clock.advance_time(5, true).len(), 0);
    assert_eq!(clock.advance_time(10, true).len(), 1);
    assert_eq!(clock.advance_time(100, true).len(), 0);
    assert_eq!(clock.timer_count(), 0);
}

#[test]
fn test_timer_advance_and_cancel() {
    let mut timer = TestTimer::new("t", 5, 100, None).unwrap();
    assert_eq!(timer.next_time_ns(), 105);
    let events = timer.advance(116);
    let times: Vec<u64> = events.iter().map(|e| e.ts_event).collect();
    assert_eq!(times, vec![105, 110, 115]);
    assert_eq!(timer.next_time_ns(), 120);
    timer.cancel();
    assert!(timer.is_expired());
    assert!(timer.advance(1000).is_empty());
    assert!(TestTimer::new("t", 0, 0, None).is_err());
    assert!(TestTimer::new("", 1, 0, None).is_err());
}

#[test]
fn sort_orders_by_scheduled_time() {
    let sorted = sort_by_time(vec![event("c", 30), event("a", 10), event("b", 20), event("d", 10)]);
    let times: Vec<u64> = sorted.iter().map(|e| e.ts_event).collect();
    assert_eq!(times, vec![10, 10, 20, 30]);
}

#[test]
fn pairing_event_with_handler() {
    let paired = create_time_event_handler(event("x", 42), &handler(9));
    assert_eq!(paired.event.name, "x");
    assert_eq!(paired.event.ts_event, 42);
    assert_eq!(paired.handler, handler(9));
}

#[test]
fn name_and_interval_checks() {
    assert!(check_valid_string("timer-1"));
    assert!(check_valid_string(" a "));
    assert!(!check_valid_string(""));
    assert!(!check_valid_string(" \t "));
    assert!(!check_valid_string("\u{3000}x"));
    assert!(check_positive_u64(1));
    assert!(!check_positive_u64(0));
}

#[test]
fn unique_timestamps_follow_the_last() {
    assert_eq!(next_unique_ns(100, 150), 150);
    assert_eq!(next_unique_ns(100, 100), 101);
    assert_eq!(next_unique_ns(100, 20), 101);
    assert_eq!(next_unique_ns(u64::MAX, 5), u64::MAX);
}

#[test]
fn monotonic_time_never_repeats() {
    let mut source = MonotonicTime::new();
    let a = source.get_time_ns();
    let b = source.get_time_ns();
    let c = source.get_time_ns();
    assert!(a < b && b < c);
    assert_eq!(source.last_ns(), c);
    // 2020-01-01T00:00:00Z: a reading of the real wall clock is later.
    assert!(a > 1_577_836_800_000_000_000);
}

#[test]
fn live_clock_timestamps_increase() {
    let clock = LiveClock::new();
    let mut time = MonotonicTime::new();
    let a = clock.timestamp_ns(&mut time);
    let b = clock.timestamp_ns(&mut time);
    assert!(b > a);
    let us = clock.timestamp_us(&mut time);
    assert!(us >= b / 1000);
    let ms = clock.timestamp_ms(&mut time);
    assert!(ms >= us / 1000);
}

#[test]
fn live_clocks_sharing_a_source_never_repeat() {
    let first = LiveClock::new();
    let second = LiveClock::new();
    let mut time = MonotonicTime::new();
    let a = first.timestamp_ns(&mut time);
    let b = second.timestamp_ns(&mut time);
    let c = first.timestamp_ns(&mut time);
    assert!(a < b && b < c);
}

#[test]
fn live_alert_in_the_past_fires_now() {
    let mut clock = LiveClock::new();
    let mut time = MonotonicTime::new();
    clock.register_default_handler(handler(3));
    clock.set_time_alert_ns(&mut time, "soon", 1, None).unwrap();
    assert_eq!(clock.timer_count(&time), 1);
    let due_at = clock.next_time_ns("soon");
    assert_eq!(due_at, time.last_ns());
    assert!(clock.fire_timer("soon", due_at - 1).is_none());
    let fired = clock.fire_timer("soon", due_at).unwrap();
    assert_eq!(fired.event.name, "soon");
    assert_eq!(fired.event.ts_event, due_at);
    assert_eq!(fired.handler, handler(3));
    assert_eq!(clock.timer_count(&time), 0);
    assert!(clock.fire_timer("soon", due_at + 100).is_none());
}

#[test]
fn live_timer_binds_handler_at_registration() {
    let mut clock = LiveClock::new();
    let time = MonotonicTime::new();
    clock.register_default_handler(handler(1));
    clock.set_timer_ns("t", 10, 0, Some(30), None).unwrap();
    clock.register_default_handler(handler(2));
    let first = clock.fire_timer("t", 10).unwrap();
    assert_eq!(first.handler, handler(1));
    assert_eq!(first.event.ts_event, 10);
    assert_eq!(clock.next_time_ns("t"), 20);
    assert_eq!(clock.fire_timer("t", 25).unwrap().event.ts_event, 20);
    assert_eq!(clock.fire_timer("t", 30).unwrap().event.ts_event, 30);
    assert_eq!(clock.timer_count(&time), 0);
    assert!(clock.fire_timer("t", 40).is_none());
}

#[test]
fn live_timer_never_fires_past_its_stop() {
    let mut clock = LiveClock::new();
    let mut time = MonotonicTime::new();
    clock.register_default_handler(handler(1));
    clock.set_timer_ns("t", 10, 0, Some(5), None).unwrap();
    assert_eq!(clock.timer_count(&time), 1);
    clock.timestamp_ns(&mut time);
    assert!(clock.timer_names(&time).is_empty());
    assert_eq!(clock.timer_count(&time), 0);
    assert!(clock.fire_timer("t", 100).is_none());
    assert!(clock.get_timers()[0].is_expired());
}

#[test]
fn live_clock_registration_errors() {
    let mut clock = LiveClock::new();
    let mut time = MonotonicTime::new();
    assert_eq!(clock.set_time_alert_ns(&mut time, "x", 10, None), Err(ClockError::NoHandlerAvailable));
    assert_eq!(
        clock.set_time_alert_ns(&mut time, "", 10, Some(handler(1))),
        Err(ClockError::InvalidName)
    );
    assert_eq!(time.last_ns(), 0);
    assert_eq!(clock.set_timer_ns("x", 0, 0, None, Some(handler(1))), Err(ClockError::InvalidInterval));
    assert_eq!(
        clock.set_timer_ns("x", 10, u64::MAX, None, Some(handler(1))),
        Err(ClockError::InvalidTimerConfig)
    );
    assert_eq!(clock.timer_count(&time), 0);
}

#[test]
fn live_clock_cancel_and_replace() {
    let mut clock = LiveClock::new();
    let time = MonotonicTime::new();
    clock.register_default_handler(handler(1));
    clock.set_timer_ns("a", 10, 0, None, None).unwrap();
    clock.set_timer_ns("a", 20, 0, None, Some(handler(5))).unwrap();
    assert_eq!(clock.timer_count(&time), 1);
    assert_eq!(clock.next_time_ns("a"), 20);
    assert_eq!(clock.get_timers()[0].handler(), handler(5));
    clock.set_timer_ns("b", 20, 0, None, None).unwrap();
    clock.cancel_timer("missing");
    assert_eq!(clock.timer_names(&time).len(), 2);
    clock.cancel_timer("a");
    clock.cancel_timer("a");
    assert_eq!(clock.timer_names(&time), vec!["b"]);
    clock.cancel_timers();
    assert_eq!(clock.timer_count(&time), 0);
}

#[test]
fn stop_between_fire_times_expires_timer() {
    let mut clock = TestClock::new();
    clock.register_default_handler(handler(1));
    clock.set_timer_ns("early_stop", 10, 0, Some(5), None).unwrap();
    assert!(clock.advance_time(7, true).is_empty());
    assert!(clock.timer_names().is_empty());
    assert!(clock.advance_time(100, true).is_empty());
    clock.set_timer_ns("mid_stop", 10, 100, Some(115), None).unwrap();
    let events = clock.advance_time(119, true);
    let times: Vec<u64> = events.iter().map(|e| e.ts_event).collect();
    assert_eq!(times, vec![110]);
    assert_eq!(clock.timer_count(), 0);
}

#[test]
fn reregistering_without_handler_uses_default() {
    let mut clock = TestClock::new();
    clock.set_time_alert_ns("x", 100, Some(handler(1))).unwrap();
    clock.register_default_handler(handler(2));
    clock.set_time_alert_ns("x", 200, None).unwrap();
    let events = clock.advance_time(200, true);
    let matched = clock.match_handlers(events);
    assert_eq!(matched.len(), 1);
    assert_eq!(matched[0].event.ts_event, 200);
    assert_eq!(matched[0].handler, handler(2));
}

#[test]
fn live_timer_needs_start_to_fire() {
    let mut timer = LiveTimer::new("t", 10, 0, None, handler(1)).unwrap();
    assert!(timer.fire(100).is_none());
    timer.start();
    let fired = timer.fire(100).unwrap();
    assert_eq!(fired.event.ts_event, 10);
    assert_eq!(fired.event.ts_init, 100);
    assert_eq!(timer.next_time_ns(), 20);
    timer.cancel();
    assert!(timer.fire(100).is_none());
    assert!(LiveTimer::new("t", 0, 5, Some(5), handler(1)).is_ok());
    assert!(LiveTimer::new("t", 0, 5, None, handler(1)).is_err());
}

#[test]
fn timer_stopped_before_now_is_not_listed() {
    let mut clock = TestClock::new();
    clock.register_default_handler(handler(1));
    clock.advance_time(100, true);
    clock.set_timer_ns("t", 10, 0, Some(50), None).unwrap();
    assert!(clock.timer_names().is_empty());
    assert_eq!(clock.timer_count(), 0);
    clock.set_timer_ns("u", 10, 0, Some(100), None).unwrap();
    assert_eq!(clock.timer_names(), vec!["u"]);
    assert_eq!(clock.timer_count(), 1);
}
