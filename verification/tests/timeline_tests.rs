//! The timeline model: diff-driven reconciliation, the chunk-reload
//! trigger, details switching, and the reaction target.

use multiverse::chunk::{Chunk, ChunkContent, ChunkRecord};
use multiverse::diff::DiffOp;
use multiverse::effect::Effect;
use multiverse::timeline::{Details, EntryKind, Message, Model, Scroll, TimelineEntry};

fn event(item_id: u64, event_id: Option<u64>) -> TimelineEntry {
    TimelineEntry { item_id, kind: EntryKind::Event { event_id, is_message: false } }
}

fn message_event(item_id: u64, event_id: Option<u64>) -> TimelineEntry {
    TimelineEntry { item_id, kind: EntryKind::Event { event_id, is_message: true } }
}

fn virtual_item(item_id: u64) -> TimelineEntry {
    TimelineEntry { item_id, kind: EntryKind::Virtual }
}

fn model_with(items: &[TimelineEntry]) -> Model {
    let mut m = Model::new("!room:example.org".to_string());
    let mut effects = Vec::new();
    let next = m.update(Message::Update(vec![DiffOp::Reset { values: items.to_vec() }]),
        &mut effects);
    assert!(next.is_none());
    m
}

#[test]
fn structural_diff_triggers_a_chunk_reload_with_the_anchor() {
    let mut m = Model::new("!room:example.org".to_string());
    let mut effects = Vec::new();
    m.update(
        Message::Update(vec![DiffOp::Reset {
            values: vec![virtual_item(1), event(2, None), event(3, Some(77)), event(4, Some(78))],
        }]),
        &mut effects,
    );
    // The anchor is the first item that carries an event identifier.
    assert_eq!(
        effects,
        vec![Effect::ReloadChunks { room_id: "!room:example.org".to_string(), anchor: 77 }]
    );
    assert_eq!(m.items.len(), 4);
    assert!(m.linked_chunks.is_empty());
}

#[test]
fn set_only_diff_does_not_reload_chunks() {
    let mut m = model_with(&[event(1, Some(10)), event(2, Some(20))]);
    m.feed_chunk(None);
    m.linked_chunks = vec![Chunk {
        identifier: 9,
        content: ChunkContent::Items { records: vec![ChunkRecord { event_id: Some(10) }] },
    }];
    let mut effects = Vec::new();
    m.update(
        Message::Update(vec![DiffOp::SetItem { index: 0, value: event(1, Some(11)) }]),
        &mut effects,
    );
    // An in-place overwrite cannot move chunk boundaries: no effect, and
    // the reconstructed view is kept.
    assert!(effects.is_empty());
    assert_eq!(m.linked_chunks.len(), 1);
}

#[test]
fn structural_diff_without_any_event_id_reloads_nothing() {
    let mut m = Model::new("!room:example.org".to_string());
    let mut effects = Vec::new();
    m.update(Message::Update(vec![DiffOp::PushBack { value: virtual_item(1) }]), &mut effects);
    assert!(effects.is_empty());
    assert!(m.linked_chunks.is_empty());
}

#[test]
fn feeding_chunks_walks_until_the_anchor_is_found() {
    let mut m = Model::new("!room:example.org".to_string());
    let mut effects = Vec::new();
    m.update(
        Message::Update(vec![DiffOp::PushBack { value: event(1, Some(42)) }]),
        &mut effects,
    );
    assert_eq!(
        effects,
        vec![Effect::ReloadChunks { room_id: "!room:example.org".to_string(), anchor: 42 }]
    );
    // The driver loads the tail chunk: no anchor there, the walk goes on.
    let more = m.feed_chunk(Some(Chunk {
        identifier: 7,
        content: ChunkContent::Items { records: vec![ChunkRecord { event_id: Some(90) }] },
    }));
    assert!(more);
    // The previous chunk holds the anchor: the walk stops after taking it.
    let more = m.feed_chunk(Some(Chunk {
        identifier: 6,
        content: ChunkContent::Items { records: vec![ChunkRecord { event_id: Some(42) }] },
    }));
    assert!(!more);
    let ids: Vec<u64> = m.linked_chunks.iter().map(|c| c.identifier).collect();
    assert_eq!(ids, vec![7, 6]);
}

#[test]
fn feeding_the_end_of_the_store_stops_the_walk() {
    let mut m = Model::new("!room:example.org".to_string());
    let mut effects = Vec::new();
    m.update(
        Message::Update(vec![DiffOp::PushBack { value: event(1, Some(5)) }]),
        &mut effects,
    );
    let more = m.feed_chunk(Some(Chunk {
        identifier: 1,
        content: ChunkContent::Gap { prev_token: "t".to_string() },
    }));
    assert!(more);
    // The store is exhausted: the collected chain stands as the result.
    let more = m.feed_chunk(None);
    assert!(!more);
    assert_eq!(m.linked_chunks.len(), 1);
}

#[test]
fn switching_between_schemes_resets_the_offset() {
    let mut m = model_with(&[
        event(1, Some(1)),
        event(2, Some(2)),
        event(3, Some(3)),
        event(4, Some(4)),
        event(5, Some(5)),
    ]);
    let mut effects = Vec::new();
    m.update(Message::Scroll(Scroll::Up), &mut effects);
    m.update(Message::Scroll(Scroll::Up), &mut effects);
    assert_eq!(m.scroll_position, 2);
    // Item-indexed to height-indexed: reset, whatever the offset was.
    m.update(Message::ShowDetails(Details::LinkedChunk), &mut effects);
    assert_eq!(m.scroll_position, 0);
    m.update(Message::Scroll(Scroll::Up), &mut effects);
    assert_eq!(m.scroll_position, 1);
    // Height-indexed back to item-indexed: reset again.
    m.update(Message::ShowDetails(Details::Origin), &mut effects);
    assert_eq!(m.scroll_position, 0);
}

#[test]
fn switching_within_one_scheme_keeps_the_offset() {
    let mut m = model_with(&[
        event(1, Some(1)),
        event(2, Some(2)),
        event(3, Some(3)),
        event(4, Some(4)),
    ]);
    let mut effects = Vec::new();
    m.update(Message::Scroll(Scroll::Up), &mut effects);
    assert_eq!(m.scroll_position, 1);
    m.update(Message::ShowDetails(Details::EventId), &mut effects);
    assert_eq!(m.scroll_position, 1);
    m.update(Message::ShowDetails(Details::Origin), &mut effects);
    assert_eq!(m.scroll_position, 1);
}

#[test]
fn reaction_goes_to_the_newest_plain_message() {
    let mut m = model_with(&[
        message_event(1, Some(1)),
        message_event(2, Some(2)),
        event(3, Some(3)),
        virtual_item(4),
    ]);
    let mut effects = Vec::new();
    m.update(Message::ToggleReactionOnLastMessage, &mut effects);
    assert_eq!(
        effects,
        vec![Effect::ToggleReaction { room_id: "!room:example.org".to_string(), item_id: 2 }]
    );
}

#[test]
fn reaction_with_no_message_item_does_nothing() {
    let mut m = model_with(&[event(1, Some(1)), virtual_item(2)]);
    let mut effects = Vec::new();
    m.update(Message::ToggleReactionOnLastMessage, &mut effects);
    assert!(effects.is_empty());
}

#[test]
fn paginate_backwards_is_handed_to_the_driver() {
    let mut m = model_with(&[event(1, Some(1))]);
    let mut effects = Vec::new();
    m.update(Message::PaginateBackwards, &mut effects);
    assert_eq!(
        effects,
        vec![Effect::PaginateBackwards { room_id: "!room:example.org".to_string() }]
    );
}
