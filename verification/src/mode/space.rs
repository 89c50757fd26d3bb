//! The command palette: one key per service-level command. Every command
//! leaves the palette, either into the mode it opens or back to the idle
//! mode.

use vstd::prelude::*;

use crate::app;
use crate::effect::{Effect, LoggerEvent};
use crate::mode::logger;
use crate::mode::room_list;

verus! {

/// A command-palette message.
pub enum Message {
    OpenRoomList,
    StartSyncService,
    StopSyncService,
    EmptyEventCache,
    OpenLogger,
}

/// The command palette's sub-model. It holds no state of its own: every
/// command either switches the mode or asks the driver for one service
/// call, and the palette itself is left in either case.
pub struct Model {}

/// How one palette message transforms the effect list and which message it
/// chains into. The palette model itself never changes.
pub open spec fn space_step(
    message: Message,
    eff0: Seq<Effect>,
    eff1: Seq<Effect>,
    next: Option<app::Message>,
) -> bool {
    &&& (message matches Message::OpenRoomList ==> {
        &&& eff1 == eff0
        &&& next matches Option::Some(app::Message::Mode(app::Mode::RoomList(rl)))
            && rl.is_fresh()
    })
    &&& (message matches Message::StartSyncService ==> {
        &&& eff1 == eff0.push(Effect::StartSyncService)
        &&& next == Option::Some(app::Message::Mode(app::Mode::Idle))
    })
    &&& (message matches Message::StopSyncService ==> {
        &&& eff1 == eff0.push(Effect::StopSyncService)
        &&& next == Option::Some(app::Message::Mode(app::Mode::Idle))
    })
    &&& (message matches Message::EmptyEventCache ==> {
        &&& eff1 == eff0.push(Effect::ClearAllRoomCaches)
        &&& next == Option::Some(app::Message::Mode(app::Mode::Idle))
    })
    &&& (message matches Message::OpenLogger ==> {
        &&& eff1 == eff0.push(Effect::LoggerTransition { event: LoggerEvent::Hide })
        &&& next matches Option::Some(app::Message::Mode(app::Mode::Logger(lg)))
            && lg.command_panel_is_opened == false && lg.filters_are_visible == false
    })
}

impl Model {
    /// A fresh command palette.
    pub fn new() -> (m: Model) {
        Model {  }
    }

    /// Processes one palette message.
    pub fn update(&mut self, message: Message, effects: &mut Vec<Effect>) -> (next: Option<
        app::Message,
    >)
        ensures
            *final(self) == *old(self),
            space_step(message, old(effects)@, final(effects)@, next),
    {
        match message {
            Message::OpenRoomList => Option::Some(
                app::Message::Mode(app::Mode::RoomList(room_list::Model::new())),
            ),
            Message::StartSyncService => {
                effects.push(Effect::StartSyncService);
                Option::Some(app::Message::Mode(app::Mode::Idle))
            }
            Message::StopSyncService => {
                effects.push(Effect::StopSyncService);
                Option::Some(app::Message::Mode(app::Mode::Idle))
            }
            Message::EmptyEventCache => {
                effects.push(Effect::ClearAllRoomCaches);
                Option::Some(app::Message::Mode(app::Mode::Idle))
            }
            Message::OpenLogger => {
                Option::Some(app::Message::Mode(app::Mode::Logger(logger::Model::new(effects))))
            }
        }
    }
}

} // verus!
