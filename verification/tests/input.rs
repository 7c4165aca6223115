use stackhand::byte_budget::{ByteBudget, ByteBudgetExceeded};
use stackhand::geometry::TerminalGeometry;
use stackhand::input::{
    Event, KeyCode, KeyEvent, KeyModifiers, MouseEvent, MouseEventKind, Rect,
};
use stackhand::input_batch::{collect_input_batch, ReadyEvent, INPUT_BATCH_LIMIT};
use stackhand::input_queue::{InputQueue, PushOutcome, INPUT_QUEUE_LIMIT};

#[test]
fn reservation_is_all_or_nothing_at_the_exact_limit() {
    let budget = ByteBudget::new(4);
    let reservation = budget.reserve(4).unwrap();

    assert_eq!(budget.pending_bytes(), 4);
    assert_eq!(budget.reserve(1).err(), Some(ByteBudgetExceeded { pending_bytes: 4 }));
    assert_eq!(budget.pending_bytes(), 4);

    drop(reservation);
    assert_eq!(budget.pending_bytes(), 0);
}

#[test]
fn checked_add_rejects_overflow_without_changing_the_budget() {
    let budget = ByteBudget::new(usize::MAX);
    let reservation = budget.reserve(usize::MAX).unwrap();

    assert_eq!(
        budget.reserve(1).err(),
        Some(ByteBudgetExceeded { pending_bytes: usize::MAX })
    );
    assert_eq!(budget.pending_bytes(), usize::MAX);

    drop(reservation);
    assert_eq!(budget.pending_bytes(), 0);
}

#[test]
fn a_committed_reservation_stays_pending_until_it_is_released() {
    let budget = ByteBudget::new(10);
    let reservation = budget.reserve(6).unwrap();
    assert_eq!(reservation.pending_before(), 0);
    reservation.commit();
    assert_eq!(budget.pending_bytes(), 6);
    let second = budget.reserve(4).unwrap();
    assert_eq!(second.pending_before(), 6);
    drop(second);
    budget.release(6);
    assert_eq!(budget.pending_bytes(), 0);
}

#[test]
fn both_ends_of_a_queue_share_one_budget() {
    let producer = ByteBudget::new(8);
    let consumer = producer.clone();
    let kept = producer.reserve(5).unwrap();
    assert_eq!(consumer.pending_bytes(), 5);
    assert_eq!(consumer.reserve(4).err(), Some(ByteBudgetExceeded { pending_bytes: 5 }));
    let dropped = consumer.reserve(3).unwrap();
    assert_eq!(producer.pending_bytes(), 8);
    drop(dropped);
    assert_eq!(producer.pending_bytes(), 5);
    kept.commit();
    consumer.release(5);
    assert_eq!(producer.pending_bytes(), 0);
}

#[test]
fn rejects_zero_geometry() {
    assert_eq!(TerminalGeometry::new(0, 24), None);
    assert_eq!(TerminalGeometry::new(80, 0), None);
}

#[test]
fn pane_geometry_never_becomes_zero() {
    let geometry = TerminalGeometry::from_pane(Rect { x: 0, y: 0, width: 0, height: 0 });

    assert_eq!(geometry.cols(), 1);
    assert_eq!(geometry.rows(), 1);
}

fn none() -> KeyModifiers {
    KeyModifiers { shift: false, control: false, alt: false, other: false }
}

fn wheel() -> Event {
    Event::Mouse(MouseEvent {
        kind: MouseEventKind::ScrollUp,
        column: 40,
        row: 15,
        modifiers: none(),
    })
}

fn areas() -> (Rect, Rect) {
    (Rect { x: 0, y: 0, width: 80, height: 8 }, Rect { x: 0, y: 8, width: 80, height: 15 })
}

fn quit() -> Event {
    Event::Key(KeyEvent::new(KeyCode::Char('q'), KeyModifiers { control: true, ..none() }))
}

fn ready(event: Event, owned: bool) -> ReadyEvent {
    (event, owned)
}

#[test]
fn stackhand_wheel_bursts_form_one_bounded_input_batch() {
    let (list, console) = areas();
    let mut queued: Vec<ReadyEvent> = (0..199).map(|_| ready(wheel(), true)).collect();
    queued.push(ready(quit(), true));

    let batch = collect_input_batch(wheel(), true, list, console, &queued);

    assert_eq!(batch.events.len(), 200);
    assert_eq!(batch.deferred, Some(quit()));
}

#[test]
fn child_owned_wheels_are_not_batched_into_the_terminal_queue() {
    let (list, console) = areas();

    let batch = collect_input_batch(wheel(), false, list, console, &vec![ready(quit(), true)]);

    assert_eq!(batch.events, vec![wheel()]);
    assert_eq!(batch.deferred, None);
    assert_eq!(batch.reads, 0);
}

#[test]
fn tracking_change_stops_the_batch_after_one_stale_event() {
    let (list, console) = areas();
    let next_wheel = wheel();

    let batch =
        collect_input_batch(wheel(), true, list, console, &vec![ready(next_wheel.clone(), false)]);

    assert_eq!(batch.events.len(), 1);
    assert_eq!(batch.deferred, Some(next_wheel));
}

#[test]
fn a_batch_never_drains_more_than_the_scheduling_bound() {
    let (list, console) = areas();
    let queued: Vec<ReadyEvent> =
        (0..2 * INPUT_BATCH_LIMIT).map(|_| ready(wheel(), true)).collect();

    let batch = collect_input_batch(wheel(), true, list, console, &queued);

    assert_eq!(batch.events.len(), INPUT_BATCH_LIMIT);
    assert_eq!(batch.reads, INPUT_BATCH_LIMIT - 1);
    assert_eq!(batch.deferred, None);
}

fn mouse(kind: MouseEventKind, column: u16) -> Event {
    Event::Mouse(MouseEvent { kind, column, row: 10, modifiers: none() })
}

fn actions(queue: &mut InputQueue) -> Vec<(Event, usize)> {
    queue.take_ready().unwrap().unwrap_or_default()
}

#[test]
fn repeated_wheels_use_one_bounded_queue_entry() {
    let mut queue = InputQueue::new();
    let wheel = mouse(MouseEventKind::ScrollUp, 20);
    for _ in 0..10_000 {
        queue.push(wheel.clone(), false);
    }
    assert_eq!(actions(&mut queue), vec![(wheel, 10_000)]);
}

#[test]
fn movement_keeps_only_the_latest_position() {
    let mut queue = InputQueue::new();
    queue.push(mouse(MouseEventKind::Moved, 20), false);
    let latest = mouse(MouseEventKind::Moved, 40);
    queue.push(latest.clone(), false);
    assert_eq!(actions(&mut queue), vec![(latest, 1)]);
}

#[test]
fn current_input_replaces_stale_wheels_when_the_queue_is_full() {
    let mut queue = InputQueue::new();
    for index in 0..INPUT_QUEUE_LIMIT {
        let direction = if index % 2 == 0 {
            MouseEventKind::ScrollUp
        } else {
            MouseEventKind::ScrollDown
        };
        queue.push(mouse(direction, index as u16), false);
    }

    queue.push(quit(), false);

    let held = actions(&mut queue);
    assert_eq!(held.len(), INPUT_QUEUE_LIMIT);
    assert_eq!(held.last(), Some(&(quit(), 1)));
    assert_eq!(held[0].0, mouse(MouseEventKind::ScrollDown, 1));
}

#[test]
fn opposite_wheels_keep_order_until_overload_requires_shedding() {
    let mut queue = InputQueue::new();
    let up = mouse(MouseEventKind::ScrollUp, 20);
    let down = mouse(MouseEventKind::ScrollDown, 20);
    queue.push(up.clone(), false);
    queue.push(down.clone(), false);
    queue.push(up.clone(), false);

    assert_eq!(actions(&mut queue), vec![(up.clone(), 1), (down, 1), (up, 1)]);
}

#[test]
fn a_failed_reader_reports_its_error_once() {
    let mut queue = InputQueue::new();
    assert!(matches!(queue.push(quit(), false), PushOutcome::Queued));
    queue.fail("the terminal went away".to_string());
    assert_eq!(queue.take_ready().err(), Some("the terminal went away".to_string()));
}
