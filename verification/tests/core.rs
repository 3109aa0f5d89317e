use shogo::demo::{DemoState, MEvent};
use shogo::engine::{Engine, Event, GameError, Renderer};
use shogo::timing::{frame_budget_millis, rounded_div_u64, Timer};

#[test]
fn budget_for_common_frame_rates() {
    assert_eq!(frame_budget_millis(30), 33);
    assert_eq!(frame_budget_millis(60), 17);
    assert_eq!(frame_budget_millis(1), 1000);
    assert_eq!(frame_budget_millis(1000), 1);
    assert_eq!(frame_budget_millis(2000), 1);
}

#[test]
fn engine_budget_is_in_tenths_of_a_second() {
    assert_eq!(rounded_div_u64(100, 30), 3);
    assert_eq!(rounded_div_u64(100, 60), 2);
    assert_eq!(rounded_div_u64(100, 201), 0);
}

#[test]
fn timer_sleeps_out_the_rest_of_the_budget() {
    let mut t = Timer::new(30, 1000);
    // 25 ms of the 33 ms budget have passed: sleep the remaining 8.
    assert_eq!(t.next_delay(1020, 1025), 8);
    // the budget has long passed: no sleep.
    assert_eq!(t.next_delay(1100, 1100), 0);
}

#[test]
fn timer_full_budget_when_no_time_passed() {
    let mut t = Timer::new(30, 500);
    assert_eq!(t.next_delay(500, 500), 33);
}

#[test]
fn engine_batches_events_in_arrival_order() {
    let mut e = Engine::new(30, 0);
    e.push_event(Event::MouseDown([3, 4]));
    e.push_event(Event::MouseDown([5, 6]));
    let delay = e.begin_frame(10, 12);
    assert_eq!(delay, 0);
    e.collect_batch();
    let batch = e.batch_events();
    assert_eq!(batch.len(), 2);
    assert_eq!(batch[0], Event::MouseDown([3, 4]));
    assert_eq!(batch[1], Event::MouseDown([5, 6]));
}

#[test]
fn engine_pending_queue_empty_after_collect() {
    let mut e = Engine::new(60, 0);
    e.push_event(Event::MouseDown([1, 1]));
    e.begin_frame(1, 1);
    e.collect_batch();
    assert_eq!(e.batch_events().len(), 1);
    // nothing arrived since: the next batch is empty.
    e.begin_frame(2, 2);
    e.collect_batch();
    assert_eq!(e.batch_events().len(), 0);
}

#[test]
fn renderer_reports_missed_deadline() {
    let r = Renderer::new(100);
    assert_eq!(r.render_outcome(Some(5)), Ok(5));
    assert_eq!(r.render_outcome::<i32>(None), Err(GameError::SocketErr));
}

#[test]
fn demo_follows_mouse_and_cycles_color() {
    let mut s = DemoState::new(3);
    let events = vec![
        MEvent::CanvasMouseMove { x: 7, y: 9 },
        MEvent::ButtonClick,
        MEvent::CanvasMouseMove { x: 2, y: 1 },
    ];
    let shutdown = s.apply_frame(&events);
    assert!(!shutdown);
    assert_eq!(s.mouse_pos, [2, 1]);
    assert_eq!(s.color_index, 1);
}

#[test]
fn demo_color_wraps_around_the_table() {
    let mut s = DemoState::new(3);
    let events = vec![
        MEvent::ButtonClick,
        MEvent::ButtonClick,
        MEvent::ButtonClick,
        MEvent::ButtonClick,
    ];
    assert!(!s.apply_frame(&events));
    assert_eq!(s.color_index, 1);
}

#[test]
fn demo_shutdown_stops_the_fold_at_once() {
    let mut s = DemoState::new(3);
    let events = vec![
        MEvent::ButtonClick,
        MEvent::ShutdownClick,
        MEvent::ButtonClick,
        MEvent::CanvasMouseMove { x: 50, y: 50 },
    ];
    let shutdown = s.apply_frame(&events);
    assert!(shutdown);
    // only the click before the shutdown was applied.
    assert_eq!(s.color_index, 1);
    assert_eq!(s.mouse_pos, [0, 0]);
}
