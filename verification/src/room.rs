//! The opened room: its timeline, the draft of the message being composed,
//! and the room-level commands (send, mark as read, clear cache).

use vstd::prelude::*;

use crate::app;
use crate::diff::batch_valid;
use crate::effect::Effect;
use crate::input::Key;
use crate::timeline;

verus! {

/// A message addressed to the opened room.
pub enum Message {
    /// A key for the message composer; Enter sends the draft instead.
    UpdateMessage(Key),
    /// Send the draft as a plain text message, if it is non-empty.
    SendMessage,
    /// A message for the room's timeline.
    Timeline(timeline::Message),
    /// Send a read receipt.
    MarkAsRead,
    /// Clear this room's persisted event cache.
    EmptyEventCache,
}

/// The opened room's model: its identity, its timeline, and the composed
/// draft as the composer widget last reported it.
pub struct Model {
    pub room_id: String,
    pub timeline: timeline::Model,
    pub draft: String,
}

/// How one room message transforms the model and the effect list, and which
/// message it chains into. Every command but composing chains back into
/// leaving the current mode, so the overlay closes once the command ran.
pub open spec fn room_step(
    pre: Model,
    message: Message,
    post: Model,
    eff0: Seq<Effect>,
    eff1: Seq<Effect>,
    next: Option<app::Message>,
) -> bool {
    &&& post.room_id == pre.room_id
    &&& (message matches Message::UpdateMessage(key) ==> {
        if key == Key::Enter {
            &&& post == pre
            &&& eff1 == eff0
            &&& next == Option::Some(app::Message::Room(Message::SendMessage))
        } else {
            &&& post == pre
            &&& eff1 == eff0.push(Effect::EditDraft { key })
            &&& next is None
        }
    })
    &&& (message matches Message::SendMessage ==> {
        &&& post.draft@ == Seq::<char>::empty()
        &&& post.timeline.scroll_position == 0
        &&& post.timeline.items == pre.timeline.items
        &&& post.timeline.linked_chunks == pre.timeline.linked_chunks
        &&& post.timeline.details == pre.timeline.details
        &&& post.timeline.walk_anchor == pre.timeline.walk_anchor
        &&& eff1 == if pre.draft@.len() > 0 {
            eff0.push(Effect::SendText { room_id: pre.room_id, body: pre.draft })
        } else {
            eff0
        }
        &&& next == Option::Some(app::Message::Mode(app::Mode::Idle))
    })
    &&& (message matches Message::Timeline(tm) ==> {
        &&& post.draft == pre.draft
        &&& timeline::timeline_step(pre.timeline, tm, post.timeline, eff0, eff1)
        &&& next == Option::Some(app::Message::Mode(app::Mode::Idle))
    })
    &&& (message matches Message::MarkAsRead ==> {
        &&& post == pre
        &&& eff1 == eff0.push(Effect::MarkRoomAsRead { room_id: pre.room_id })
        &&& next == Option::Some(app::Message::Mode(app::Mode::Idle))
    })
    &&& (message matches Message::EmptyEventCache ==> {
        &&& post == pre
        &&& eff1 == eff0.push(Effect::ClearRoomCache { room_id: pre.room_id })
        &&& next == Option::Some(app::Message::Mode(app::Mode::Idle))
    })
}

impl Model {
    /// A freshly opened room with an empty draft and a fresh timeline.
    pub fn new(room_id: String) -> (m: Model)
        ensures
            m.room_id == room_id,
            m.timeline.is_fresh_for(room_id),
            m.draft@ == Seq::<char>::empty(),
    {
        let timeline_model = timeline::Model::new(room_id.clone());
        Model { room_id, timeline: timeline_model, draft: String::new() }
    }

    /// Takes the draft as the composer widget now holds it.
    pub fn set_draft(&mut self, draft: String)
        ensures
            final(self).room_id == old(self).room_id,
            final(self).timeline == old(self).timeline,
            final(self).draft == draft,
    {
        self.draft = draft;
    }

    /// Processes one room message.
    pub fn update(&mut self, message: Message, effects: &mut Vec<Effect>) -> (next: Option<
        app::Message,
    >)
        requires
            message matches Message::Timeline(tm) ==> (tm matches timeline::Message::Update(diffs)
                ==> batch_valid(old(self).timeline.items@, diffs@)),
        ensures
            room_step(*old(self), message, *final(self), old(effects)@, final(effects)@, next),
    {
        match message {
            Message::UpdateMessage(key) => {
                if key == Key::Enter {
                    return Option::Some(app::Message::Room(Message::SendMessage));
                }
                effects.push(Effect::EditDraft { key });
                Option::None
            }
            Message::SendMessage => {
                let body = self.draft.clone();
                self.draft = String::new();
                if !body.as_str().is_empty() {
                    effects.push(Effect::SendText { room_id: self.room_id.clone(), body });
                }
                let _ = self.timeline.update(
                    timeline::Message::Scroll(timeline::Scroll::End),
                    effects,
                );
                Option::Some(app::Message::Mode(app::Mode::Idle))
            }
            Message::Timeline(tm) => {
                let _ = self.timeline.update(tm, effects);
                Option::Some(app::Message::Mode(app::Mode::Idle))
            }
            Message::MarkAsRead => {
                effects.push(Effect::MarkRoomAsRead { room_id: self.room_id.clone() });
                Option::Some(app::Message::Mode(app::Mode::Idle))
            }
            Message::EmptyEventCache => {
                effects.push(Effect::ClearRoomCache { room_id: self.room_id.clone() });
                Option::Some(app::Message::Mode(app::Mode::Idle))
            }
        }
    }
}

} // verus!
