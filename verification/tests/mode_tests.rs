//! The mode state machine: activation, escape, sub-model replacement, and
//! the lifetime of mode-owned background tasks as seen through effects.

use multiverse::app::{Message, Mode, Model};
use multiverse::effect::{Effect, LoggerEvent};
use multiverse::input::{map_key_event_to_message, Key};
use multiverse::mode::{logger, room_list, space};

fn model_in_mode(mode: Mode) -> Model {
    let mut m = Model::new();
    let mut effects = Vec::new();
    m.update(Message::Mode(mode), &mut effects);
    m
}

#[test]
fn escape_maps_to_leaving_the_mode_from_every_mode() {
    let mut effects = Vec::new();
    let modes = [
        Mode::Idle,
        Mode::Insert,
        Mode::Space(space::Model::new()),
        Mode::RoomList(room_list::Model::new()),
        Mode::Logger(logger::Model::new(&mut effects)),
    ];
    for mode in modes {
        let m = model_in_mode(mode);
        let mapped = map_key_event_to_message(&m, Key::Esc);
        assert!(matches!(mapped, Some(Message::Mode(Mode::Idle))));
    }
}

#[test]
fn escape_resets_to_idle_and_cancels_the_mode_stream() {
    let mut m = model_in_mode(Mode::RoomList(room_list::Model::new()));
    let mut effects = Vec::new();
    m.update(Message::Mode(Mode::Idle), &mut effects);
    assert!(matches!(m.mode, Mode::Idle));
    // The room-list subscription dies with its sub-model.
    assert_eq!(effects, vec![Effect::CancelModeStream]);
}

#[test]
fn escape_from_a_mode_without_a_stream_cancels_nothing() {
    let mut m = model_in_mode(Mode::Insert);
    let mut effects = Vec::new();
    m.update(Message::Mode(Mode::Idle), &mut effects);
    assert!(matches!(m.mode, Mode::Idle));
    assert!(effects.is_empty());
}

#[test]
fn entering_a_streaming_mode_starts_its_task() {
    let mut m = Model::new();
    let mut effects = Vec::new();
    m.update(Message::Mode(Mode::RoomList(room_list::Model::new())), &mut effects);
    assert_eq!(effects, vec![Effect::StartRoomListStream]);

    let mut effects = Vec::new();
    let mut logger_effects = Vec::new();
    m.update(
        Message::Mode(Mode::Logger(logger::Model::new(&mut logger_effects))),
        &mut effects,
    );
    // Replacing the room list cancels its stream, then the ticker starts.
    assert_eq!(effects, vec![Effect::CancelModeStream, Effect::StartLoggerTicker]);
    assert_eq!(
        logger_effects,
        vec![Effect::LoggerTransition { event: LoggerEvent::Hide }]
    );
}

#[test]
fn activation_keys_from_idle() {
    let m = Model::new();
    assert!(matches!(
        map_key_event_to_message(&m, Key::Char(' ')),
        Some(Message::Mode(Mode::Space(_)))
    ));
    assert!(matches!(
        map_key_event_to_message(&m, Key::Char('i')),
        Some(Message::Mode(Mode::Insert))
    ));
    assert!(matches!(map_key_event_to_message(&m, Key::Char('q')), Some(Message::Quit)));
    match map_key_event_to_message(&m, Key::Char('r')) {
        Some(Message::Mode(Mode::Room(overlay))) => assert!(!overlay.has_room_opened),
        other => panic!("expected the room overlay, got {:?}", other.is_some()),
    }
    assert!(map_key_event_to_message(&m, Key::Char('z')).is_none());
}

#[test]
fn unmatched_mode_message_pairs_are_silently_ignored() {
    // A room-list message while no room list is active: no state change,
    // no effect, no follow-up.
    let mut m = model_in_mode(Mode::Insert);
    let mut effects = Vec::new();
    let next = m.update(Message::RoomList(room_list::Message::MoveCursorDown), &mut effects);
    assert!(next.is_none());
    assert!(effects.is_empty());
    assert!(matches!(m.mode, Mode::Insert));

    let next = m.update(Message::Space(space::Message::OpenRoomList), &mut effects);
    assert!(next.is_none());
    assert!(effects.is_empty());
}

#[test]
fn quit_sets_the_exit_flag_and_nothing_else() {
    let mut m = Model::new();
    let mut effects = Vec::new();
    let next = m.update(Message::Quit, &mut effects);
    assert!(next.is_none());
    assert!(m.exit);
    assert!(effects.is_empty());
}

#[test]
fn the_palette_commands_ask_the_driver_and_leave_the_palette() {
    for (key, effect) in [
        (Key::Char('S'), Effect::StartSyncService),
        (Key::Char('s'), Effect::StopSyncService),
        (Key::Char('c'), Effect::ClearAllRoomCaches),
    ] {
        let mut m = model_in_mode(Mode::Space(space::Model::new()));
        let mapped = map_key_event_to_message(&m, key).expect("a palette key maps");
        let mut effects = Vec::new();
        let next = m.update(mapped, &mut effects);
        assert_eq!(effects, vec![effect]);
        assert!(matches!(next, Some(Message::Mode(Mode::Idle))));
    }
}

#[test]
fn logger_scrolling_depends_on_filter_visibility() {
    let mut effects = Vec::new();
    let mut lg = logger::Model::new(&mut effects);
    let mut effects = Vec::new();
    lg.update(logger::Message::Scroll(logger::Scroll::Up), &mut effects);
    // Filters hidden: scrolling pages the logs.
    assert_eq!(effects, vec![Effect::LoggerTransition { event: LoggerEvent::PrevPage }]);

    let mut effects = Vec::new();
    lg.update(logger::Message::ToggleFilters, &mut effects);
    assert!(lg.filters_are_visible);
    lg.update(logger::Message::Scroll(logger::Scroll::Up), &mut effects);
    lg.update(logger::Message::IncreaseShownLogLevel, &mut effects);
    assert_eq!(
        effects,
        vec![
            Effect::LoggerTransition { event: LoggerEvent::Hide },
            Effect::LoggerTransition { event: LoggerEvent::Up },
            Effect::LoggerTransition { event: LoggerEvent::Right },
        ]
    );
}

#[test]
fn logger_level_keys_do_nothing_while_filters_are_hidden() {
    let mut effects = Vec::new();
    let mut lg = logger::Model::new(&mut effects);
    let mut effects = Vec::new();
    lg.update(logger::Message::IncreaseShownLogLevel, &mut effects);
    lg.update(logger::Message::DecreaseShownLogLevel, &mut effects);
    lg.update(logger::Message::FocusFilter, &mut effects);
    assert!(effects.is_empty());
}

#[test]
fn the_command_panel_closes_on_the_next_message() {
    let mut effects = Vec::new();
    let mut lg = logger::Model::new(&mut effects);
    let mut effects = Vec::new();
    lg.update(logger::Message::OpenCommandPanel, &mut effects);
    assert!(lg.command_panel_is_opened);
    lg.update(logger::Message::Scroll(logger::Scroll::Down), &mut effects);
    assert!(!lg.command_panel_is_opened);
}
