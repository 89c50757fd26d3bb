//! The multiplexed input stream: the typed events that the four producer
//! tasks push into the single consumer queue, and their mapping — given the
//! current mode — to at most one dispatch message.

use vstd::prelude::*;

use crate::app;
use crate::diff::{batch_valid, DiffOp};
use crate::mode;
use crate::room;
use crate::timeline;
use crate::timeline::TimelineEntry;

verus! {

/// A pressed key, reduced to what the mapping reads. Only press events
/// reach the engine; releases and repeats are filtered at the source.
#[derive(Clone, Copy, PartialEq, Eq, Structural, Debug)]
pub enum Key {
    Esc,
    Enter,
    Up,
    Down,
    Left,
    Right,
    Char(char),
    Other,
}

/// One event of the single ordered input queue.
pub enum Input {
    /// A redraw-only signal: a terminal resize, a status change of the sync
    /// service, or a periodic tick. Idempotent, and droppable under queue
    /// pressure.
    Redraw,
    /// A key press.
    KeyPress(Key),
    /// A diff batch from the room-list stream. Must never be dropped.
    RoomListUpdate(Vec<DiffOp<mode::room_list::RoomEntry>>),
    /// A diff batch from the opened room's timeline stream. Must never be
    /// dropped.
    TimelineUpdate(Vec<DiffOp<TimelineEntry>>),
}

/// Redraw-only signals are idempotent and may be dropped under queue
/// pressure; diff batches never may.
pub open spec fn is_droppable(input: Input) -> bool {
    input matches Input::Redraw
}

/// Whether the producers' index precondition holds for this event against
/// the current model: diff batches must be valid for the sequence they
/// target. An event for a target that is not live is ignored downstream and
/// carries no obligation.
pub open spec fn input_wf(m: app::Model, input: Input) -> bool {
    match input {
        Input::RoomListUpdate(diffs) => match m.mode {
            app::Mode::RoomList(rl) => batch_valid(rl.rooms@, diffs@),
            _ => true,
        },
        Input::TimelineUpdate(diffs) => match m.room {
            Option::Some(r) => batch_valid(r.timeline.items@, diffs@),
            Option::None => true,
        },
        _ => true,
    }
}

/// The message a key press maps to, given the current mode. Escape always
/// leaves the current mode, whatever it is; every other key is interpreted
/// by the active mode alone, and a key the mode gives no meaning to maps to
/// nothing.
pub open spec fn key_message(m: app::Model, key: Key) -> Option<app::Message> {
    if key == Key::Esc {
        Option::Some(app::Message::Mode(app::Mode::Idle))
    } else {
        match m.mode {
            app::Mode::Idle => match key {
                Key::Char(c) => if c == 'q' {
                    Option::Some(app::Message::Quit)
                } else if c == ' ' {
                    Option::Some(app::Message::Mode(app::Mode::Space(mode::space::Model {  })))
                } else if c == 'r' {
                    Option::Some(
                        app::Message::Mode(
                            app::Mode::Room(
                                mode::room::Model { has_room_opened: m.room is Some },
                            ),
                        ),
                    )
                } else if c == 'i' {
                    Option::Some(app::Message::Mode(app::Mode::Insert))
                } else {
                    Option::None
                },
                Key::Up => Option::Some(
                    app::Message::Room(
                        room::Message::Timeline(
                            timeline::Message::Scroll(timeline::Scroll::Up),
                        ),
                    ),
                ),
                Key::Down => Option::Some(
                    app::Message::Room(
                        room::Message::Timeline(
                            timeline::Message::Scroll(timeline::Scroll::Down),
                        ),
                    ),
                ),
                _ => Option::None,
            },
            app::Mode::Insert => Option::Some(
                app::Message::Room(room::Message::UpdateMessage(key)),
            ),
            app::Mode::Space(_) => match key {
                Key::Char(c) => if c == 'f' {
                    Option::Some(app::Message::Space(mode::space::Message::OpenRoomList))
                } else if c == 'S' {
                    Option::Some(app::Message::Space(mode::space::Message::StartSyncService))
                } else if c == 's' {
                    Option::Some(app::Message::Space(mode::space::Message::StopSyncService))
                } else if c == 'c' {
                    Option::Some(app::Message::Space(mode::space::Message::EmptyEventCache))
                } else if c == 'l' {
                    Option::Some(app::Message::Space(mode::space::Message::OpenLogger))
                } else {
                    Option::None
                },
                _ => Option::None,
            },
            app::Mode::RoomList(_) => match key {
                Key::Up => Option::Some(
                    app::Message::RoomList(mode::room_list::Message::MoveCursorUp),
                ),
                Key::Down => Option::Some(
                    app::Message::RoomList(mode::room_list::Message::MoveCursorDown),
                ),
                Key::Enter => Option::Some(
                    app::Message::RoomList(mode::room_list::Message::Select),
                ),
                _ => Option::Some(
                    app::Message::RoomList(mode::room_list::Message::UpdateFilter(key)),
                ),
            },
            app::Mode::Room(_) => match key {
                Key::Char(c) => if c == 'b' {
                    Option::Some(
                        app::Message::Room(
                            room::Message::Timeline(timeline::Message::PaginateBackwards),
                        ),
                    )
                } else if c == 'r' {
                    Option::Some(
                        app::Message::Room(
                            room::Message::Timeline(
                                timeline::Message::ToggleReactionOnLastMessage,
                            ),
                        ),
                    )
                } else if c == 's' {
                    Option::Some(
                        app::Message::Room(
                            room::Message::Timeline(
                                timeline::Message::Scroll(timeline::Scroll::Start),
                            ),
                        ),
                    )
                } else if c == 'e' {
                    Option::Some(
                        app::Message::Room(
                            room::Message::Timeline(
                                timeline::Message::Scroll(timeline::Scroll::End),
                            ),
                        ),
                    )
                } else if c == 't' {
                    Option::Some(
                        app::Message::Room(
                            room::Message::Timeline(
                                timeline::Message::ShowDetails(timeline::Details::Timeline),
                            ),
                        ),
                    )
                } else if c == 'i' {
                    Option::Some(
                        app::Message::Room(
                            room::Message::Timeline(
                                timeline::Message::ShowDetails(timeline::Details::EventId),
                            ),
                        ),
                    )
                } else if c == 'o' {
                    Option::Some(
                        app::Message::Room(
                            room::Message::Timeline(
                                timeline::Message::ShowDetails(timeline::Details::Origin),
                            ),
                        ),
                    )
                } else if c == 'l' {
                    Option::Some(
                        app::Message::Room(
                            room::Message::Timeline(
                                timeline::Message::ShowDetails(timeline::Details::LinkedChunk),
                            ),
                        ),
                    )
                } else if c == 'm' {
                    Option::Some(app::Message::Room(room::Message::MarkAsRead))
                } else if c == 'c' {
                    Option::Some(app::Message::Room(room::Message::EmptyEventCache))
                } else {
                    Option::None
                },
                _ => Option::None,
            },
            app::Mode::Logger(_) => match key {
                Key::Char(c) => if c == 'l' {
                    Option::Some(app::Message::Logger(mode::logger::Message::OpenCommandPanel))
                } else if c == 's' {
                    Option::Some(app::Message::Logger(mode::logger::Message::FocusFilter))
                } else if c == 'f' {
                    Option::Some(app::Message::Logger(mode::logger::Message::ToggleFilters))
                } else {
                    Option::None
                },
                Key::Up => Option::Some(
                    app::Message::Logger(
                        mode::logger::Message::Scroll(mode::logger::Scroll::Up),
                    ),
                ),
                Key::Down => Option::Some(
                    app::Message::Logger(
                        mode::logger::Message::Scroll(mode::logger::Scroll::Down),
                    ),
                ),
                Key::Right => Option::Some(
                    app::Message::Logger(mode::logger::Message::IncreaseShownLogLevel),
                ),
                Key::Left => Option::Some(
                    app::Message::Logger(mode::logger::Message::DecreaseShownLogLevel),
                ),
                _ => Option::None,
            },
        }
    }
}

/// The message one queued event maps to: a redraw signal maps to nothing, a
/// key press goes through the mode-scoped key table, and each diff batch is
/// addressed to the sequence its stream feeds.
pub open spec fn input_message(m: app::Model, input: Input) -> Option<app::Message> {
    match input {
        Input::Redraw => Option::None,
        Input::KeyPress(key) => key_message(m, key),
        Input::RoomListUpdate(diffs) => Option::Some(
            app::Message::RoomList(mode::room_list::Message::UpdateRoomList(diffs)),
        ),
        Input::TimelineUpdate(diffs) => Option::Some(
            app::Message::Room(room::Message::Timeline(timeline::Message::Update(diffs))),
        ),
    }
}

/// An Escape-equivalent key press always maps to the message that leaves
/// the current mode, whatever the mode and the rest of the model are.
pub proof fn lemma_escape_always_leaves_mode(m: app::Model)
    ensures
        key_message(m, Key::Esc) == Option::Some(app::Message::Mode(app::Mode::Idle)),
{
}

/// Maps a key press to at most one message, scoped to the active mode.
pub fn map_key_event_to_message(app_model: &app::Model, key: Key) -> (r: Option<app::Message>)
    ensures
        r == key_message(*app_model, key),
{
    if key == Key::Esc {
        return Option::Some(app::Message::Mode(app::Mode::Idle));
    }
    match &app_model.mode {
        app::Mode::Idle => match key {
            Key::Char(c) => {
                if c == 'q' {
                    Option::Some(app::Message::Quit)
                } else if c == ' ' {
                    Option::Some(app::Message::Mode(app::Mode::Space(mode::space::Model::new())))
                } else if c == 'r' {
                    let has_room_opened = match &app_model.room {
                        Option::Some(_) => true,
                        Option::None => false,
                    };
                    Option::Some(
                        app::Message::Mode(
                            app::Mode::Room(mode::room::Model::new(has_room_opened)),
                        ),
                    )
                } else if c == 'i' {
                    Option::Some(app::Message::Mode(app::Mode::Insert))
                } else {
                    Option::None
                }
            }
            Key::Up => Option::Some(
                app::Message::Room(
                    room::Message::Timeline(timeline::Message::Scroll(timeline::Scroll::Up)),
                ),
            ),
            Key::Down => Option::Some(
                app::Message::Room(
                    room::Message::Timeline(timeline::Message::Scroll(timeline::Scroll::Down)),
                ),
            ),
            _ => Option::None,
        },
        app::Mode::Insert => Option::Some(app::Message::Room(room::Message::UpdateMessage(key))),
        app::Mode::Space(_) => match key {
            Key::Char(c) => {
                if c == 'f' {
                    Option::Some(app::Message::Space(mode::space::Message::OpenRoomList))
                } else if c == 'S' {
                    Option::Some(app::Message::Space(mode::space::Message::StartSyncService))
                } else if c == 's' {
                    Option::Some(app::Message::Space(mode::space::Message::StopSyncService))
                } else if c == 'c' {
                    Option::Some(app::Message::Space(mode::space::Message::EmptyEventCache))
                } else if c == 'l' {
                    Option::Some(app::Message::Space(mode::space::Message::OpenLogger))
                } else {
                    Option::None
                }
            }
            _ => Option::None,
        },
        app::Mode::RoomList(_) => match key {
            Key::Up => Option::Some(app::Message::RoomList(mode::room_list::Message::MoveCursorUp)),
            Key::Down => Option::Some(
                app::Message::RoomList(mode::room_list::Message::MoveCursorDown),
            ),
            Key::Enter => Option::Some(app::Message::RoomList(mode::room_list::Message::Select)),
            _ => Option::Some(app::Message::RoomList(mode::room_list::Message::UpdateFilter(key))),
        },
        app::Mode::Room(_) => match key {
            Key::Char(c) => {
                if c == 'b' {
                    Option::Some(
                        app::Message::Room(
                            room::Message::Timeline(timeline::Message::PaginateBackwards),
                        ),
                    )
                } else if c == 'r' {
                    Option::Some(
                        app::Message::Room(
                            room::Message::Timeline(timeline::Message::ToggleReactionOnLastMessage),
                        ),
                    )
                } else if c == 's' {
                    Option::Some(
                        app::Message::Room(
                            room::Message::Timeline(
                                timeline::Message::Scroll(timeline::Scroll::Start),
                            ),
                        ),
                    )
                } else if c == 'e' {
                    Option::Some(
                        app::Message::Room(
                            room::Message::Timeline(
                                timeline::Message::Scroll(timeline::Scroll::End),
                            ),
                        ),
                    )
                } else if c == 't' {
                    Option::Some(
                        app::Message::Room(
                            room::Message::Timeline(
                                timeline::Message::ShowDetails(timeline::Details::Timeline),
                            ),
                        ),
                    )
                } else if c == 'i' {
                    Option::Some(
                        app::Message::Room(
                            room::Message::Timeline(
                                timeline::Message::ShowDetails(timeline::Details::EventId),
                            ),
                        ),
                    )
                } else if c == 'o' {
                    Option::Some(
                        app::Message::Room(
                            room::Message::Timeline(
                                timeline::Message::ShowDetails(timeline::Details::Origin),
                            ),
                        ),
                    )
                } else if c == 'l' {
                    Option::Some(
                        app::Message::Room(
                            room::Message::Timeline(
                                timeline::Message::ShowDetails(timeline::Details::LinkedChunk),
                            ),
                        ),
                    )
                } else if c == 'm' {
                    Option::Some(app::Message::Room(room::Message::MarkAsRead))
                } else if c == 'c' {
                    Option::Some(app::Message::Room(room::Message::EmptyEventCache))
                } else {
                    Option::None
                }
            }
            _ => Option::None,
        },
        app::Mode::Logger(_) => match key {
            Key::Char(c) => {
                if c == 'l' {
                    Option::Some(app::Message::Logger(mode::logger::Message::OpenCommandPanel))
                } else if c == 's' {
                    Option::Some(app::Message::Logger(mode::logger::Message::FocusFilter))
                } else if c == 'f' {
                    Option::Some(app::Message::Logger(mode::logger::Message::ToggleFilters))
                } else {
                    Option::None
                }
            }
            Key::Up => Option::Some(
                app::Message::Logger(mode::logger::Message::Scroll(mode::logger::Scroll::Up)),
            ),
            Key::Down => Option::Some(
                app::Message::Logger(mode::logger::Message::Scroll(mode::logger::Scroll::Down)),
            ),
            Key::Right => Option::Some(
                app::Message::Logger(mode::logger::Message::IncreaseShownLogLevel),
            ),
            Key::Left => Option::Some(
                app::Message::Logger(mode::logger::Message::DecreaseShownLogLevel),
            ),
            _ => Option::None,
        },
    }
}

/// Maps one queued event to at most one dispatch message. The producers'
/// precondition on diff batches carries over to the produced message, so
/// the dispatcher may be fed directly with the result.
pub fn map_input_to_message(app_model: &app::Model, input: Input) -> (r: Option<app::Message>)
    requires
        input_wf(*app_model, input),
    ensures
        r == input_message(*app_model, input),
        r matches Option::Some(m2) ==> app::msg_wf(*app_model, m2),
{
    match input {
        Input::Redraw => Option::None,
        Input::KeyPress(key) => {
            let r = map_key_event_to_message(app_model, key);
            proof {
                lemma_key_message_wf(*app_model, key);
            }
            r
        }
        Input::RoomListUpdate(diffs) => Option::Some(
            app::Message::RoomList(mode::room_list::Message::UpdateRoomList(diffs)),
        ),
        Input::TimelineUpdate(diffs) => Option::Some(
            app::Message::Room(room::Message::Timeline(timeline::Message::Update(diffs))),
        ),
    }
}

/// A key press never carries a diff batch, so the message it maps to
/// always respects the producers' precondition.
proof fn lemma_key_message_wf(m: app::Model, key: Key)
    ensures
        key_message(m, key) matches Option::Some(m2) ==> app::msg_wf(m, m2),
{
}

} // verus!
