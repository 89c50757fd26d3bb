//! The bounded input queue: first-in first-out order, and the shedding
//! policy that never loses a diff-carrying event.

use multiverse::diff::DiffOp;
use multiverse::input::{Input, Key};
use multiverse::queue::{Admission, InputQueue};
use multiverse::timeline::{EntryKind, TimelineEntry};

fn diff_event() -> Input {
    Input::TimelineUpdate(vec![DiffOp::PushBack {
        value: TimelineEntry {
            item_id: 1,
            kind: EntryKind::Event { event_id: Some(1), is_message: false },
        },
    }])
}

#[test]
fn events_come_out_in_arrival_order() {
    let mut q = InputQueue::new(8);
    assert_eq!(q.enqueue(Input::KeyPress(Key::Char('a'))), Admission::Enqueued);
    assert_eq!(q.enqueue(Input::Redraw), Admission::Enqueued);
    assert_eq!(q.enqueue(Input::KeyPress(Key::Char('b'))), Admission::Enqueued);
    assert!(matches!(q.dequeue(), Some(Input::KeyPress(Key::Char('a')))));
    assert!(matches!(q.dequeue(), Some(Input::Redraw)));
    assert!(matches!(q.dequeue(), Some(Input::KeyPress(Key::Char('b')))));
    assert!(q.dequeue().is_none());
}

#[test]
fn a_full_queue_sheds_only_redraw_signals() {
    let mut q = InputQueue::new(1);
    assert_eq!(q.enqueue(Input::Redraw), Admission::Enqueued);
    // Idempotent signal under pressure: shed without correctness loss.
    assert_eq!(q.enqueue(Input::Redraw), Admission::DroppedSignal);
    // A key press is not shed: its producer waits for space.
    assert_eq!(q.enqueue(Input::KeyPress(Key::Esc)), Admission::MustWait);
    // A diff batch must never be dropped.
    assert_eq!(q.enqueue(diff_event()), Admission::MustWait);
    assert_eq!(q.len(), 1);
    // Once the consumer catches up, the producer's retry is admitted.
    q.dequeue();
    assert_eq!(q.enqueue(diff_event()), Admission::Enqueued);
}

#[test]
fn a_zero_capacity_queue_admits_nothing() {
    let mut q = InputQueue::new(0);
    assert_eq!(q.enqueue(Input::Redraw), Admission::DroppedSignal);
    assert_eq!(q.enqueue(diff_event()), Admission::MustWait);
    assert_eq!(q.len(), 0);
}
