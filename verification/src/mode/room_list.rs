//! The room browser: an ordered room sequence driven by the room-list diff
//! stream, a cursor over it, a search term narrowing the remote filter, and
//! a preview timeline for the room under the cursor.

use vstd::prelude::*;

use crate::app;
use crate::diff::{apply_batch, batch_apply, batch_valid, DiffOp};
use crate::effect::Effect;
use crate::input::Key;
use crate::timeline;

verus! {

/// One room of the room list, as far as the engine reads it.
#[derive(Clone, PartialEq, Eq, Debug)]
pub struct RoomEntry {
    pub room_id: String,
    pub display_name: Option<String>,
}

/// A room-browser message.
pub enum Message {
    /// A key for the search input widget.
    UpdateFilter(Key),
    /// A diff batch from the room-list stream.
    UpdateRoomList(Vec<DiffOp<RoomEntry>>),
    MoveCursorUp,
    MoveCursorDown,
    /// Open the room under the cursor.
    Select,
}

/// The room browser's sub-model. Its background subscription to the
/// room-list stream is owned by the mode and cancelled when the mode is
/// left.
pub struct Model {
    pub rooms: Vec<RoomEntry>,
    /// The cursor. Never dangles: it is clamped after every structural
    /// change of the room sequence, and absent exactly while that sequence
    /// is empty or no room was selected yet.
    pub selected: Option<usize>,
    pub search: String,
    pub selected_room_timeline: Option<timeline::Model>,
}

/// The cursor after a structural change of the sequence: gone when the
/// sequence is empty, on the first room when there was none, clamped to the
/// last room when it dangled, kept otherwise.
pub open spec fn reselect(sel: Option<usize>, len: nat) -> Option<usize> {
    if len == 0 {
        Option::None
    } else {
        match sel {
            Option::Some(i) => if i < len {
                Option::Some(i)
            } else {
                Option::Some((len - 1) as usize)
            },
            Option::None => Option::<usize>::Some(0),
        }
    }
}

/// The cursor after one step up (towards the first room), floored at the
/// first room; nothing moves while no room is selected.
pub open spec fn cursor_up(sel: Option<usize>) -> Option<usize> {
    match sel {
        Option::Some(i) => Option::Some(if i > 0 {
            (i - 1) as usize
        } else {
            0
        }),
        Option::None => Option::<usize>::None,
    }
}

/// The cursor after one step down (towards the last room), clamped at the
/// last room; nothing moves while no room is selected.
pub open spec fn cursor_down(sel: Option<usize>, len: nat) -> Option<usize> {
    match sel {
        Option::Some(i) => Option::Some(if i + 1 < len {
            (i + 1) as usize
        } else {
            i
        }),
        Option::None => Option::<usize>::None,
    }
}

/// The preview pane after the cursor settled: it holds a fresh timeline for
/// the room under the cursor, whose initial items the driver is asked to
/// load. With no cursor there is no preview — and, by the model's
/// invariant, no room either that could be previewed.
pub open spec fn preview_updated(post: Model, eff0: Seq<Effect>, eff1: Seq<Effect>) -> bool {
    match post.selected {
        Option::Some(i) => {
            &&& i < post.rooms@.len()
            &&& post.selected_room_timeline matches Option::Some(t) && t.is_fresh_for(
                post.rooms@[i as int].room_id,
            )
            &&& eff1 == eff0.push(
                Effect::LoadRoomPreview { room_id: post.rooms@[i as int].room_id },
            )
        }
        Option::None => {
            &&& post.selected_room_timeline is None
            &&& eff1 == eff0
        }
    }
}

/// How one room-browser message transforms the sub-model and the effect
/// list, and which message it chains into.
pub open spec fn room_list_step(
    pre: Model,
    message: Message,
    post: Model,
    eff0: Seq<Effect>,
    eff1: Seq<Effect>,
    next: Option<app::Message>,
) -> bool {
    &&& (message matches Message::UpdateFilter(key) ==> {
        &&& post == pre
        &&& eff1 == eff0.push(Effect::EditSearch { key })
        &&& next is None
    })
    &&& (message matches Message::UpdateRoomList(diffs) ==> {
        &&& post.rooms@ == batch_apply(pre.rooms@, diffs@)
        &&& post.selected == reselect(pre.selected, post.rooms@.len())
        &&& post.search == pre.search
        &&& preview_updated(post, eff0, eff1)
        &&& next is None
    })
    &&& (message matches Message::MoveCursorUp ==> {
        &&& post.rooms == pre.rooms
        &&& post.selected == cursor_up(pre.selected)
        &&& post.search == pre.search
        &&& preview_updated(post, eff0, eff1)
        &&& next is None
    })
    &&& (message matches Message::MoveCursorDown ==> {
        &&& post.rooms == pre.rooms
        &&& post.selected == cursor_down(pre.selected, pre.rooms@.len())
        &&& post.search == pre.search
        &&& preview_updated(post, eff0, eff1)
        &&& next is None
    })
    &&& (message matches Message::Select ==> {
        &&& post == pre
        &&& eff1 == eff0
        &&& next == match pre.selected {
            Option::Some(i) => Option::Some(
                app::Message::OpenRoom(pre.rooms@[i as int].room_id),
            ),
            Option::None => Option::<app::Message>::None,
        }
    })
}

impl Model {
    /// The cursor never dangles past the end of the room sequence, and it
    /// is absent exactly while that sequence is empty: every update that
    /// fills the list also places the cursor, so "no cursor over a
    /// non-empty list" is unreachable, and the preview always follows the
    /// cursor.
    pub open spec fn wf(self) -> bool {
        &&& (self.selected matches Option::Some(i) ==> i < self.rooms@.len())
        &&& (self.selected is None ==> self.rooms@.len() == 0)
    }

    /// A just-created browser: empty, no cursor, empty search, no preview.
    pub open spec fn is_fresh(self) -> bool {
        &&& self.rooms@ == Seq::<RoomEntry>::empty()
        &&& self.selected is None
        &&& self.search@ == Seq::<char>::empty()
        &&& self.selected_room_timeline is None
    }

    /// A fresh room browser.
    pub fn new() -> (m: Model)
        ensures
            m.is_fresh(),
            m.wf(),
    {
        let m = Model {
            rooms: Vec::new(),
            selected: Option::None,
            search: String::new(),
            selected_room_timeline: Option::None,
        };
        proof {
            assert(m.rooms@ =~= Seq::<RoomEntry>::empty());
        }
        m
    }

    /// Processes one room-browser message.
    pub fn update(&mut self, message: Message, effects: &mut Vec<Effect>) -> (next: Option<
        app::Message,
    >)
        requires
            old(self).wf(),
            message matches Message::UpdateRoomList(diffs) ==> batch_valid(
                old(self).rooms@,
                diffs@,
            ),
        ensures
            final(self).wf(),
            room_list_step(*old(self), message, *final(self), old(effects)@, final(effects)@, next),
    {
        match message {
            Message::UpdateFilter(key) => {
                effects.push(Effect::EditSearch { key });
                Option::None
            }
            Message::UpdateRoomList(diffs) => {
                apply_batch(&mut self.rooms, diffs);
                let len = self.rooms.len();
                self.selected = if len == 0 {
                    Option::None
                } else {
                    match self.selected {
                        Option::Some(i) => if i < len {
                            Option::Some(i)
                        } else {
                            Option::Some(len - 1)
                        },
                        Option::None => Option::Some(0),
                    }
                };
                self.update_selected_room_timeline(effects);
                Option::None
            }
            Message::MoveCursorUp => {
                self.selected = match self.selected {
                    Option::Some(i) => Option::Some(
                        if i > 0 {
                            i - 1
                        } else {
                            0
                        },
                    ),
                    Option::None => Option::None,
                };
                self.update_selected_room_timeline(effects);
                Option::None
            }
            Message::MoveCursorDown => {
                let len = self.rooms.len();
                self.selected = match self.selected {
                    Option::Some(i) => Option::Some(
                        if i + 1 < len {
                            i + 1
                        } else {
                            i
                        },
                    ),
                    Option::None => Option::None,
                };
                self.update_selected_room_timeline(effects);
                Option::None
            }
            Message::Select => {
                match self.selected {
                    Option::Some(i) => {
                        let room_id = self.rooms[i].room_id.clone();
                        Option::Some(app::Message::OpenRoom(room_id))
                    }
                    Option::None => Option::None,
                }
            }
        }
    }

    /// Re-creates the preview timeline for the room under the cursor, and
    /// asks the driver to load its initial items; drops the preview when no
    /// room is under the cursor.
    pub fn update_selected_room_timeline(&mut self, effects: &mut Vec<Effect>)
        requires
            old(self).wf(),
        ensures
            final(self).rooms == old(self).rooms,
            final(self).selected == old(self).selected,
            final(self).search == old(self).search,
            preview_updated(*final(self), old(effects)@, final(effects)@),
    {
        match self.selected {
            Option::Some(i) => {
                let room_id = self.rooms[i].room_id.clone();
                self.selected_room_timeline = Option::Some(timeline::Model::new(room_id));
                let room_id = self.rooms[i].room_id.clone();
                effects.push(Effect::LoadRoomPreview { room_id });
            }
            Option::None => {
                self.selected_room_timeline = Option::None;
            }
        }
    }

    /// Takes the search term as the widget now holds it, and installs the
    /// matching remote filter: all non-left rooms, fuzzy-narrowed by the
    /// term exactly when it is non-empty.
    pub fn set_search_term(&mut self, term: String, effects: &mut Vec<Effect>)
        ensures
            final(self).rooms == old(self).rooms,
            final(self).selected == old(self).selected,
            final(self).selected_room_timeline == old(self).selected_room_timeline,
            final(self).search == term,
            final(effects)@ == old(effects)@.push(
                Effect::SetRoomFilter {
                    fuzzy_term: if term@.len() == 0 {
                        Option::<String>::None
                    } else {
                        Option::Some(term)
                    },
                },
            ),
    {
        let fuzzy_term = if term.as_str().is_empty() {
            Option::None
        } else {
            Option::Some(term.clone())
        };
        effects.push(Effect::SetRoomFilter { fuzzy_term });
        self.search = term;
    }
}

} // verus!
