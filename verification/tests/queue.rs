use wyndow::events::WindowEvent;
use wyndow::queue::EventQueue;

#[test]
fn pop_on_empty_returns_empty_signal() {
    let mut q = EventQueue::new();
    assert_eq!(q.len(), 0);
    assert_eq!(q.pop(), None);
    assert_eq!(q.pop(), None);
}

#[test]
fn fifo_round_trip_keeps_order_without_loss_or_duplication() {
    let events = [
        WindowEvent::Close,
        WindowEvent::Resize { w: 1, h: 2 },
        WindowEvent::RequestRedraw,
        WindowEvent::Resize { w: 3, h: 4 },
        WindowEvent::Close,
    ];
    let mut q = EventQueue::new();
    for e in events {
        q.push(e);
    }
    assert_eq!(q.len(), events.len());
    for e in events {
        assert_eq!(q.pop(), Some(e));
    }
    assert_eq!(q.pop(), None);
}

#[test]
fn three_pushes_pop_in_order_then_empty() {
    let mut q = EventQueue::new();
    q.push(WindowEvent::Resize { w: 800, h: 600 });
    q.push(WindowEvent::RequestRedraw);
    q.push(WindowEvent::Close);
    assert_eq!(q.pop(), Some(WindowEvent::Resize { w: 800, h: 600 }));
    assert_eq!(q.pop(), Some(WindowEvent::RequestRedraw));
    assert_eq!(q.pop(), Some(WindowEvent::Close));
    assert_eq!(q.pop(), None);
}

#[test]
fn repeated_events_are_not_coalesced() {
    let mut q = EventQueue::new();
    q.push(WindowEvent::RequestRedraw);
    q.push(WindowEvent::RequestRedraw);
    assert_eq!(q.len(), 2);
    assert_eq!(q.pop(), Some(WindowEvent::RequestRedraw));
    assert_eq!(q.pop(), Some(WindowEvent::RequestRedraw));
    assert_eq!(q.pop(), None);
}
