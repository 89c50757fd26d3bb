//! Message chaining: every chain drains within three dispatch steps, and
//! the documented chains end where they should.

use multiverse::app::{Message, Mode, Model};
use multiverse::diff::DiffOp;
use multiverse::effect::Effect;
use multiverse::input::Key;
use multiverse::mode::room_list::{Message as RoomListMessage, Model as RoomListModel, RoomEntry};
use multiverse::room;

fn entry(room_id: &str) -> RoomEntry {
    RoomEntry { room_id: room_id.to_string(), display_name: None }
}

/// Feeds the message and every follow-up, counting the dispatch steps.
fn run_counting(m: &mut Model, first: Message, effects: &mut Vec<Effect>) -> usize {
    let mut steps = 0;
    let mut current = Some(first);
    while let Some(message) = current {
        current = m.update(message, effects);
        steps += 1;
        assert!(steps <= 3, "a chain must drain within three steps");
    }
    steps
}

fn model_with_room_list(rooms: &[&str], selected: usize) -> Model {
    let mut m = Model::new();
    let mut effects = Vec::new();
    m.update(Message::Mode(Mode::RoomList(RoomListModel::new())), &mut effects);
    let batch: Vec<DiffOp<RoomEntry>> =
        vec![DiffOp::Append { values: rooms.iter().map(|r| entry(r)).collect() }];
    m.update(Message::RoomList(RoomListMessage::UpdateRoomList(batch)), &mut effects);
    for _ in 0..selected {
        m.update(Message::RoomList(RoomListMessage::MoveCursorDown), &mut effects);
    }
    m
}

#[test]
fn selecting_a_room_chains_into_opening_it_within_three_steps() {
    let mut m = model_with_room_list(&["!a:hs", "!b:hs"], 1);
    let mut effects = Vec::new();
    let steps = run_counting(&mut m, Message::RoomList(RoomListMessage::Select), &mut effects);
    assert!(steps <= 3);
    // The chain ends with the room opened and the mode reset.
    assert!(matches!(m.mode, Mode::Idle));
    let room = m.room.as_ref().expect("the selected room is opened");
    assert_eq!(room.room_id, "!b:hs");
    assert!(effects.contains(&Effect::CancelModeStream));
    assert!(effects.contains(&Effect::SubscribeToRoom { room_id: "!b:hs".to_string() }));
    assert!(effects.contains(&Effect::StartTimelineStream { room_id: "!b:hs".to_string() }));
}

#[test]
fn enter_while_composing_chains_into_sending_the_draft() {
    let mut m = model_with_room_list(&["!a:hs"], 0);
    let mut effects = Vec::new();
    run_counting(&mut m, Message::RoomList(RoomListMessage::Select), &mut effects);
    m.update(Message::Mode(Mode::Insert), &mut Vec::new());
    m.room.as_mut().unwrap().set_draft("hello there".to_string());

    let mut effects = Vec::new();
    let steps = run_counting(
        &mut m,
        Message::Room(room::Message::UpdateMessage(Key::Enter)),
        &mut effects,
    );
    assert_eq!(steps, 3);
    assert_eq!(
        effects,
        vec![Effect::SendText { room_id: "!a:hs".to_string(), body: "hello there".to_string() }]
    );
    let room = m.room.as_ref().unwrap();
    assert_eq!(room.draft, "");
    // Sending scrolls the timeline back to the live end, and the chain
    // ends in the idle mode.
    assert_eq!(room.timeline.scroll_position, 0);
    assert!(matches!(m.mode, Mode::Idle));
}

#[test]
fn an_empty_draft_is_not_sent() {
    let mut m = model_with_room_list(&["!a:hs"], 0);
    run_counting(&mut m, Message::RoomList(RoomListMessage::Select), &mut Vec::new());
    let mut effects = Vec::new();
    let steps = run_counting(
        &mut m,
        Message::Room(room::Message::UpdateMessage(Key::Enter)),
        &mut effects,
    );
    assert_eq!(steps, 3);
    assert!(effects.is_empty());
}

#[test]
fn composing_keys_other_than_enter_do_not_chain() {
    let mut m = model_with_room_list(&["!a:hs"], 0);
    run_counting(&mut m, Message::RoomList(RoomListMessage::Select), &mut Vec::new());
    let mut effects = Vec::new();
    let next = m.update(Message::Room(room::Message::UpdateMessage(Key::Char('h'))), &mut effects);
    assert!(next.is_none());
    assert_eq!(effects, vec![Effect::EditDraft { key: Key::Char('h') }]);
}

#[test]
fn the_trampoline_drains_a_chain_in_one_call() {
    let mut m = model_with_room_list(&["!a:hs"], 0);
    let mut effects = Vec::new();
    m.run_chain(Message::RoomList(RoomListMessage::Select), &mut effects);
    assert!(m.room.is_some());
    assert!(matches!(m.mode, Mode::Idle));
}

#[test]
fn selecting_with_no_rooms_goes_nowhere() {
    let mut m = Model::new();
    let mut effects = Vec::new();
    m.update(Message::Mode(Mode::RoomList(RoomListModel::new())), &mut effects);
    let next = m.update(Message::RoomList(RoomListMessage::Select), &mut effects);
    assert!(next.is_none());
    assert!(m.room.is_none());
}

#[test]
fn room_commands_chain_back_into_leaving_the_mode() {
    let mut m = model_with_room_list(&["!a:hs"], 0);
    run_counting(&mut m, Message::RoomList(RoomListMessage::Select), &mut Vec::new());
    let mut effects = Vec::new();
    let steps = run_counting(&mut m, Message::Room(room::Message::MarkAsRead), &mut effects);
    assert_eq!(steps, 2);
    assert_eq!(effects, vec![Effect::MarkRoomAsRead { room_id: "!a:hs".to_string() }]);
    assert!(matches!(m.mode, Mode::Idle));

    let mut effects = Vec::new();
    run_counting(&mut m, Message::Room(room::Message::EmptyEventCache), &mut effects);
    assert_eq!(effects, vec![Effect::ClearRoomCache { room_id: "!a:hs".to_string() }]);
}
