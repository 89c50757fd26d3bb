//! The room browser: cursor clamping under a changing sequence, the search
//! filter decision, and the preview pane.

use multiverse::diff::DiffOp;
use multiverse::effect::Effect;
use multiverse::input::Key;
use multiverse::mode::room_list::{Message, Model, RoomEntry};

fn entry(room_id: &str) -> RoomEntry {
    RoomEntry { room_id: room_id.to_string(), display_name: None }
}

fn browser_with(rooms: &[&str]) -> Model {
    let mut m = Model::new();
    let mut effects = Vec::new();
    m.update(
        Message::UpdateRoomList(vec![DiffOp::Append {
            values: rooms.iter().map(|r| entry(r)).collect(),
        }]),
        &mut effects,
    );
    m
}

#[test]
fn the_first_room_is_selected_once_rooms_arrive() {
    let m = browser_with(&["!a:hs", "!b:hs"]);
    assert_eq!(m.selected, Some(0));
    let preview = m.selected_room_timeline.as_ref().expect("a preview for the cursor");
    assert_eq!(preview.room_id, "!a:hs");
}

#[test]
fn the_cursor_moves_within_bounds() {
    let mut m = browser_with(&["!a:hs", "!b:hs", "!c:hs"]);
    let mut effects = Vec::new();
    m.update(Message::MoveCursorDown, &mut effects);
    m.update(Message::MoveCursorDown, &mut effects);
    assert_eq!(m.selected, Some(2));
    // Clamped at the last room.
    m.update(Message::MoveCursorDown, &mut effects);
    assert_eq!(m.selected, Some(2));
    m.update(Message::MoveCursorUp, &mut effects);
    m.update(Message::MoveCursorUp, &mut effects);
    assert_eq!(m.selected, Some(0));
    // Floored at the first room.
    m.update(Message::MoveCursorUp, &mut effects);
    assert_eq!(m.selected, Some(0));
}

#[test]
fn an_index_based_cursor_drifts_under_an_insertion() {
    // The sequence [A, B, C] with the cursor on index 2 (room C) receives
    // an insertion at index 1: the cursor still points at index 2, which
    // now holds B. The cursor is index-based and unaware of identity; this
    // drift is accepted, and the cursor is merely re-validated.
    let mut m = browser_with(&["!a:hs", "!b:hs", "!c:hs"]);
    let mut effects = Vec::new();
    m.update(Message::MoveCursorDown, &mut effects);
    m.update(Message::MoveCursorDown, &mut effects);
    assert_eq!(m.selected, Some(2));
    m.update(
        Message::UpdateRoomList(vec![DiffOp::Insert { index: 1, value: entry("!x:hs") }]),
        &mut effects,
    );
    let ids: Vec<&str> = m.rooms.iter().map(|r| r.room_id.as_str()).collect();
    assert_eq!(ids, vec!["!a:hs", "!x:hs", "!b:hs", "!c:hs"]);
    assert_eq!(m.selected, Some(2));
    assert_eq!(m.rooms[2].room_id, "!b:hs");
}

#[test]
fn the_cursor_is_clamped_when_the_sequence_shrinks() {
    let mut m = browser_with(&["!a:hs", "!b:hs", "!c:hs"]);
    let mut effects = Vec::new();
    m.update(Message::MoveCursorDown, &mut effects);
    m.update(Message::MoveCursorDown, &mut effects);
    m.update(Message::UpdateRoomList(vec![DiffOp::Truncate { length: 1 }]), &mut effects);
    assert_eq!(m.selected, Some(0));
    m.update(Message::UpdateRoomList(vec![DiffOp::Clear]), &mut effects);
    assert_eq!(m.selected, None);
    assert!(m.selected_room_timeline.is_none());
}

#[test]
fn search_keys_go_to_the_widget_and_the_term_picks_the_filter() {
    let mut m = browser_with(&["!a:hs"]);
    let mut effects = Vec::new();
    m.update(Message::UpdateFilter(Key::Char('m')), &mut effects);
    assert_eq!(effects, vec![Effect::EditSearch { key: Key::Char('m') }]);

    let mut effects = Vec::new();
    m.set_search_term("mat".to_string(), &mut effects);
    assert_eq!(m.search, "mat");
    assert_eq!(
        effects,
        vec![Effect::SetRoomFilter { fuzzy_term: Some("mat".to_string()) }]
    );

    // An emptied term falls back to the plain non-left filter.
    let mut effects = Vec::new();
    m.set_search_term(String::new(), &mut effects);
    assert_eq!(effects, vec![Effect::SetRoomFilter { fuzzy_term: None }]);
}

#[test]
fn moving_the_cursor_reloads_the_preview() {
    let mut m = browser_with(&["!a:hs", "!b:hs"]);
    let mut effects = Vec::new();
    m.update(Message::MoveCursorDown, &mut effects);
    assert_eq!(
        effects,
        vec![Effect::LoadRoomPreview { room_id: "!b:hs".to_string() }]
    );
    let preview = m.selected_room_timeline.as_ref().unwrap();
    assert_eq!(preview.room_id, "!b:hs");
    assert!(preview.items.is_empty());
}
