use yagl::poller::{forward, POLL_INTERVAL_MICROS};
use yagl::window::{GamepadEvent, GamepadEventKind};
use yagl::{Event, EventQueue, Scalar};

fn button(id: usize, code: u16) -> GamepadEvent {
    GamepadEvent { id, kind: GamepadEventKind::ButtonPressed(code) }
}

#[test]
fn poller_looks_45_times_a_second() {
    assert_eq!(POLL_INTERVAL_MICROS, 22_222);
    assert_eq!(1_000_000 / POLL_INTERVAL_MICROS, 45);
}

#[test]
fn forward_sends_every_event_in_order() {
    let raw = vec![
        GamepadEvent { id: 0, kind: GamepadEventKind::Connected },
        button(0, 1),
        GamepadEvent { id: 1, kind: GamepadEventKind::Dropped },
        GamepadEvent {
            id: 0,
            kind: GamepadEventKind::AxisChanged(1, Scalar::from_bits(1.0f32.to_bits())),
        },
    ];
    let events = forward(&raw);
    assert_eq!(events.len(), 4);
    for (event, source) in events.iter().zip(raw.iter()) {
        assert_eq!(*event, Event::Gamepad(*source));
    }
    assert!(forward(&Vec::new()).is_empty());
}

#[test]
fn queue_gives_events_in_the_order_they_came() {
    let mut queue = EventQueue::new();
    assert_eq!(queue.len(), 0);
    assert_eq!(queue.pop(), None);
    queue.push(Event::MainEventsCleared);
    queue.inject(&vec![button(0, 1), button(0, 2)]);
    queue.push(Event::RedrawRequested);
    assert_eq!(queue.len(), 4);
    assert_eq!(queue.pop(), Some(Event::MainEventsCleared));
    assert_eq!(queue.pop(), Some(Event::Gamepad(button(0, 1))));
    assert_eq!(queue.pop(), Some(Event::Gamepad(button(0, 2))));
    assert_eq!(queue.pop(), Some(Event::RedrawRequested));
    assert_eq!(queue.pop(), None);
    assert_eq!(queue.len(), 0);
}

#[test]
fn a_fast_poller_loses_no_event_to_a_slow_loop() {
    let mut queue = EventQueue::new();
    let mut seen: Vec<Event> = Vec::new();
    let mut sent: u16 = 0;
    // The poller puts eight events in the time in which the loop takes one.
    for _ in 0..500 {
        let batch: Vec<GamepadEvent> = (0..8).map(|k| button(0, sent + k)).collect();
        sent += 8;
        queue.inject(&batch);
        if let Some(event) = queue.pop() {
            seen.push(event);
        }
    }
    assert_eq!(queue.len(), 3500);
    while let Some(event) = queue.pop() {
        seen.push(event);
    }
    assert_eq!(seen.len(), 4000);
    for (k, event) in seen.iter().enumerate() {
        assert_eq!(*event, Event::Gamepad(button(0, k as u16)));
    }
}

#[test]
fn take_all_empties_the_queue_in_order() {
    let mut queue = EventQueue::new();
    queue.push(Event::CloseRequested);
    queue.inject(&vec![button(1, 3)]);
    let events = queue.take_all();
    assert_eq!(events, vec![Event::CloseRequested, Event::Gamepad(button(1, 3))]);
    assert_eq!(queue.len(), 0);
    assert!(queue.take_all().is_empty());
}
