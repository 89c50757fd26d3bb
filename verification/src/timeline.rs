//! The timeline of one opened room: its ordered item sequence, its scroll
//! state under two addressing schemes, and the chunk-store debug view.

use vstd::prelude::*;

use crate::app;
use crate::chunk::{chunk_contains_record, Chunk};
use crate::diff::{apply_batch, batch_apply, batch_has_structural, batch_needs_reload, batch_valid,
    DiffOp};
use crate::effect::Effect;

verus! {

/// A scroll intent, before any clamping.
#[derive(Clone, Copy, PartialEq, Eq, Debug)]
pub enum Scroll {
    Up,
    Down,
    Start,
    End,
}

/// Which details view the timeline currently shows. `Timeline`, `EventId`
/// and `Origin` are item-indexed; `LinkedChunk` is height-indexed.
#[derive(Clone, Copy, PartialEq, Eq, Debug)]
pub enum Details {
    Timeline,
    EventId,
    Origin,
    LinkedChunk,
}

/// Whether this details view addresses scroll offsets by rendered height
/// rather than by item count. The two schemes must never be conflated.
pub open spec fn is_height_indexed(d: Details) -> bool {
    d matches Details::LinkedChunk
}

/// What one timeline item is, as far as the engine reads it: whether it is a
/// remote event, which event identifier it carries (if any), and whether its
/// content is a plain message.
#[derive(Clone, Copy, PartialEq, Eq, Debug)]
pub enum EntryKind {
    Event { event_id: Option<u64>, is_message: bool },
    Virtual,
}

/// One item of the live timeline sequence. `item_id` is the item's unique
/// timeline identifier, used to address it in outbound calls.
#[derive(Clone, Copy, PartialEq, Eq, Debug)]
pub struct TimelineEntry {
    pub item_id: u64,
    pub kind: EntryKind,
}

/// How many items must stay visible when scrolling an item-indexed view.
pub const MINIMUM_NUMBER_OF_VISIBLE_ITEMS: usize = 3;

/// The highest offset an item-indexed view may take for a sequence of
/// `len` items: `max(0, len - minimum visible)`.
pub open spec fn item_scroll_cap(len: int) -> int {
    if len >= MINIMUM_NUMBER_OF_VISIBLE_ITEMS as int {
        len - MINIMUM_NUMBER_OF_VISIBLE_ITEMS as int
    } else {
        0
    }
}

/// The offset after one scroll intent against an item-indexed sequence of
/// `len` items. `Up` moves away from the live end, `Down` back towards it;
/// both clamp into `[0, item_scroll_cap(len)]`.
pub open spec fn item_scroll_step(scroll: Scroll, pos: int, len: int) -> int {
    match scroll {
        Scroll::Up => if pos + 1 <= item_scroll_cap(len) {
            pos + 1
        } else {
            item_scroll_cap(len)
        },
        Scroll::Down => if pos - 1 >= 0 {
            if pos - 1 <= item_scroll_cap(len) {
                pos - 1
            } else {
                item_scroll_cap(len)
            }
        } else {
            0
        },
        Scroll::Start => item_scroll_cap(len),
        Scroll::End => 0,
    }
}

/// The provisional offset after one scroll intent against the height-indexed
/// chunk view. The full content height is unknown until layout, so `Start`
/// records `usize::MAX` as a sentinel meaning "clamp to content height once
/// known", and `Up` grows the offset without an upper clamp.
pub open spec fn height_scroll_step(scroll: Scroll, pos: int) -> int {
    match scroll {
        Scroll::Up => if pos + 1 <= usize::MAX as int {
            pos + 1
        } else {
            pos
        },
        Scroll::Down => if pos - 1 >= 0 {
            pos - 1
        } else {
            0
        },
        Scroll::Start => usize::MAX as int,
        Scroll::End => 0,
    }
}

/// The offset after render-time correction of a height-indexed offset:
/// once the content height is known, the offset is clamped against the
/// scrollable length. Content that fits entirely needs no scrolling and
/// leaves the provisional offset untouched.
pub open spec fn height_scroll_clamp(pos: int, content_height: int, viewport_height: int) -> int {
    if viewport_height > content_height {
        pos
    } else {
        if pos <= content_height - viewport_height {
            pos
        } else {
            content_height - viewport_height
        }
    }
}

/// Applies a whole run of scroll intents to an item-indexed offset, in order.
pub open spec fn item_scroll_run(ops: Seq<Scroll>, pos: int, len: int) -> int
    decreases ops.len(),
{
    if ops.len() == 0 {
        pos
    } else {
        item_scroll_run(ops.drop_first(), item_scroll_step(ops[0], pos, len), len)
    }
}

/// Every non-empty run of scroll intents leaves an item-indexed offset inside
/// `[0, max(0, len - minimum visible)]`, whatever offset it started from.
pub proof fn lemma_item_scroll_run_in_range(ops: Seq<Scroll>, pos: int, len: int)
    requires
        ops.len() > 0,
        pos >= 0,
    ensures
        0 <= item_scroll_run(ops, pos, len) <= item_scroll_cap(len),
    decreases ops.len(),
{
    if ops.len() > 1 {
        lemma_item_scroll_run_in_range(ops.drop_first(), item_scroll_step(ops[0], pos, len), len);
    } else {
        assert(item_scroll_run(ops.drop_first(), item_scroll_step(ops[0], pos, len), len)
            == item_scroll_step(ops[0], pos, len));
    }
}

/// `Start` then `End` round-trips through the two clamped extremes: `Start`
/// lands exactly on the cap and `End` on zero, from any starting offset.
pub proof fn lemma_item_scroll_start_end(pos: int, len: int)
    ensures
        item_scroll_step(Scroll::Start, pos, len) == item_scroll_cap(len),
        item_scroll_step(Scroll::End, item_scroll_step(Scroll::Start, pos, len), len) == 0,
{
}

/// Updates an item-indexed scroll offset (room list, live timeline) by one
/// intent, clamped so at least the minimum number of items stays visible.
pub fn update_scroll_position_for_timeline(
    scroll: &Scroll,
    scroll_position: usize,
    number_of_items: usize,
) -> (r: usize)
    ensures
        r as int == item_scroll_step(*scroll, scroll_position as int, number_of_items as int),
        0 <= r as int <= item_scroll_cap(number_of_items as int),
{
    let cap = if number_of_items >= MINIMUM_NUMBER_OF_VISIBLE_ITEMS {
        number_of_items - MINIMUM_NUMBER_OF_VISIBLE_ITEMS
    } else {
        0
    };
    match scroll {
        Scroll::Up => {
            if scroll_position < cap {
                scroll_position + 1
            } else {
                cap
            }
        }
        Scroll::Down => {
            let lowered = if scroll_position > 0 {
                scroll_position - 1
            } else {
                0
            };
            if lowered <= cap {
                lowered
            } else {
                cap
            }
        }
        Scroll::Start => cap,
        Scroll::End => 0,
    }
}

/// Updates the provisional height-indexed offset of the chunk debug view by
/// one intent; `Start` records the "clamp once the height is known" sentinel.
pub fn update_scroll_position_for_linked_chunk(scroll: &Scroll, scroll_position: usize) -> (r:
    usize)
    ensures
        r as int == height_scroll_step(*scroll, scroll_position as int),
{
    match scroll {
        Scroll::Up => {
            if scroll_position < usize::MAX {
                scroll_position + 1
            } else {
                scroll_position
            }
        }
        Scroll::Down => {
            if scroll_position > 0 {
                scroll_position - 1
            } else {
                0
            }
        }
        Scroll::Start => usize::MAX,
        Scroll::End => 0,
    }
}

/// Corrects a height-indexed offset at render time, once the content height
/// is known, so later `Up`/`Down` deltas compose with the written-back value.
pub fn clamp_scroll_position_for_linked_chunk(
    scroll_position: usize,
    content_height: usize,
    viewport_height: usize,
) -> (r: usize)
    ensures
        r as int == height_scroll_clamp(
            scroll_position as int,
            content_height as int,
            viewport_height as int,
        ),
{
    if viewport_height > content_height {
        scroll_position
    } else {
        let scroll_length = content_height - viewport_height;
        if scroll_position <= scroll_length {
            scroll_position
        } else {
            scroll_length
        }
    }
}

/// The identifier of the oldest record of the live sequence that carries an
/// event identifier: the anchor that bounds a backward chunk walk.
pub open spec fn first_event_id(items: Seq<TimelineEntry>) -> Option<u64>
    decreases items.len(),
{
    if items.len() == 0 {
        Option::None
    } else {
        match items[0].kind {
            EntryKind::Event { event_id, is_message: _ } => match event_id {
                Option::Some(id) => Option::Some(id),
                Option::None => first_event_id(items.drop_first()),
            },
            EntryKind::Virtual => first_event_id(items.drop_first()),
        }
    }
}

/// The timeline identifier of the newest item whose content is a plain
/// message: the target of a reaction toggle.
pub open spec fn last_message_item_id(items: Seq<TimelineEntry>) -> Option<u64>
    decreases items.len(),
{
    if items.len() == 0 {
        Option::None
    } else {
        match items.last().kind {
            EntryKind::Event { event_id: _, is_message } => if is_message {
                Option::Some(items.last().item_id)
            } else {
                last_message_item_id(items.drop_last())
            },
            EntryKind::Virtual => last_message_item_id(items.drop_last()),
        }
    }
}

/// Finds the anchor record of the live sequence: the event identifier of
/// its first item that carries one.
#[verifier::loop_isolation(false)]
pub fn find_first_event_id(items: &Vec<TimelineEntry>) -> (r: Option<u64>)
    ensures
        r == first_event_id(items@),
{
    let mut i: usize = 0;
    proof {
        assert(items@.skip(0) =~= items@);
    }
    while i < items.len()
        invariant
            i <= items@.len(),
            first_event_id(items@) == first_event_id(items@.skip(i as int)),
        decreases items@.len() - i,
    {
        proof {
            assert(items@.skip(i as int)[0] == items@[i as int]);
            assert(items@.skip(i as int).drop_first() =~= items@.skip(i as int + 1));
        }
        match items[i].kind {
            EntryKind::Event { event_id: Option::Some(id), is_message: _ } => {
                return Option::Some(id);
            }
            _ => {}
        }
        i = i + 1;
    }
    Option::None
}

/// Finds the newest plain-message item of the live sequence.
#[verifier::loop_isolation(false)]
pub fn find_last_message_item(items: &Vec<TimelineEntry>) -> (r: Option<u64>)
    ensures
        r == last_message_item_id(items@),
{
    proof {
        assert(items@.take(items@.len() as int) =~= items@);
    }
    let mut i: usize = items.len();
    while i > 0
        invariant
            i <= items@.len(),
            last_message_item_id(items@) == last_message_item_id(items@.take(i as int)),
        decreases i,
    {
        let j = i - 1;
        proof {
            assert(items@.take(i as int).last() == items@[j as int]);
            assert(items@.take(i as int).drop_last() =~= items@.take(j as int));
        }
        let is_msg = match items[j].kind {
            EntryKind::Event { event_id: _, is_message } => is_message,
            EntryKind::Virtual => false,
        };
        if is_msg {
            return Option::Some(items[j].item_id);
        }
        i = j;
    }
    Option::None
}

/// How one timeline message transforms the model and the effect list:
/// `post` and `eff1` are the model and the effects after the step, `eff0`
/// the effects before it.
pub open spec fn timeline_step(
    pre: Model,
    message: Message,
    post: Model,
    eff0: Seq<Effect>,
    eff1: Seq<Effect>,
) -> bool {
    &&& post.room_id == pre.room_id
    &&& (message matches Message::Update(diffs) ==> {
        &&& post.items@ == batch_apply(pre.items@, diffs@)
        &&& post.details == pre.details
        &&& post.scroll_position == pre.scroll_position
        &&& if batch_has_structural(diffs@) {
            &&& post.linked_chunks@ == Seq::<Chunk>::empty()
            &&& post.walk_anchor == first_event_id(batch_apply(pre.items@, diffs@))
            &&& match first_event_id(batch_apply(pre.items@, diffs@)) {
                Option::Some(a) => eff1 == eff0.push(
                    Effect::ReloadChunks { room_id: pre.room_id, anchor: a },
                ),
                Option::None => eff1 == eff0,
            }
        } else {
            &&& post.linked_chunks == pre.linked_chunks
            &&& post.walk_anchor == pre.walk_anchor
            &&& eff1 == eff0
        }
    })
    &&& (message matches Message::Scroll(s) ==> {
        &&& post.scroll_position as int == if is_height_indexed(pre.details) {
            height_scroll_step(s, pre.scroll_position as int)
        } else {
            item_scroll_step(s, pre.scroll_position as int, pre.items@.len() as int)
        }
        &&& post.items == pre.items
        &&& post.linked_chunks == pre.linked_chunks
        &&& post.details == pre.details
        &&& post.walk_anchor == pre.walk_anchor
        &&& eff1 == eff0
    })
    &&& (message matches Message::PaginateBackwards ==> {
        &&& post == pre
        &&& eff1 == eff0.push(Effect::PaginateBackwards { room_id: pre.room_id })
    })
    &&& (message matches Message::ShowDetails(d) ==> {
        &&& post.details == d
        &&& post.scroll_position as int == if is_height_indexed(d) != is_height_indexed(
            pre.details,
        ) {
            0
        } else {
            pre.scroll_position as int
        }
        &&& post.items == pre.items
        &&& post.linked_chunks == pre.linked_chunks
        &&& post.walk_anchor == pre.walk_anchor
        &&& eff1 == eff0
    })
    &&& (message matches Message::ToggleReactionOnLastMessage ==> {
        &&& post == pre
        &&& match last_message_item_id(pre.items@) {
            Option::Some(id) => eff1 == eff0.push(
                Effect::ToggleReaction { room_id: pre.room_id, item_id: id },
            ),
            Option::None => eff1 == eff0,
        }
    })
}

/// Switching between the item-indexed and the height-indexed scheme always
/// resets the offset to zero, whatever it was; staying within one scheme
/// keeps it.
pub proof fn lemma_scheme_switch_resets(
    pre: Model,
    d: Details,
    post: Model,
    eff0: Seq<Effect>,
    eff1: Seq<Effect>,
)
    requires
        timeline_step(pre, Message::ShowDetails(d), post, eff0, eff1),
        is_height_indexed(d) != is_height_indexed(pre.details),
    ensures
        post.scroll_position == 0,
        post.details == d,
{
}

/// A message addressed to the timeline of the opened room.
pub enum Message {
    /// A diff batch from the timeline stream.
    Update(Vec<DiffOp<TimelineEntry>>),
    /// A scroll intent against the current details view.
    Scroll(Scroll),
    /// Ask the remote side for one more page of history.
    PaginateBackwards,
    /// Switch the details view.
    ShowDetails(Details),
    /// Toggle the reaction on the newest plain message.
    ToggleReactionOnLastMessage,
}

/// The timeline of one room: the live ordered item sequence, the
/// reconstructed chunk view, and the scroll state of whichever view is
/// shown.
pub struct Model {
    pub room_id: String,
    pub items: Vec<TimelineEntry>,
    pub linked_chunks: Vec<Chunk>,
    pub scroll_position: usize,
    pub details: Details,
    /// The anchor of a chunk walk in progress, if one is; cleared once the
    /// walk stops.
    pub walk_anchor: Option<u64>,
}

impl Model {
    /// A just-created timeline for this room: empty, scrolled to the live
    /// end, showing the plain view, with no walk in progress.
    pub open spec fn is_fresh_for(self, room_id: String) -> bool {
        &&& self.room_id == room_id
        &&& self.items@ == Seq::<TimelineEntry>::empty()
        &&& self.linked_chunks@ == Seq::<Chunk>::empty()
        &&& self.scroll_position == 0
        &&& self.details == Details::Timeline
        &&& self.walk_anchor is None
    }

    /// A fresh timeline with no items, no chunk view, and the plain view
    /// scrolled to the live end.
    pub fn new(room_id: String) -> (m: Model)
        ensures
            m.is_fresh_for(room_id),
    {
        let m = Model {
            room_id,
            items: Vec::new(),
            linked_chunks: Vec::new(),
            scroll_position: 0,
            details: Details::Timeline,
            walk_anchor: Option::None,
        };
        proof {
            assert(m.items@ =~= Seq::<TimelineEntry>::empty());
            assert(m.linked_chunks@ =~= Seq::<Chunk>::empty());
        }
        m
    }

    /// Processes one timeline message. Diff batches are applied strictly in
    /// order; a batch with a structural edit discards the chunk view and,
    /// when an anchor record exists, asks the driver to walk the chunk
    /// store again. Never chains a follow-up message.
    pub fn update(&mut self, message: Message, effects: &mut Vec<Effect>) -> (next: Option<
        app::Message,
    >)
        requires
            message matches Message::Update(diffs) ==> batch_valid(old(self).items@, diffs@),
        ensures
            next is None,
            timeline_step(*old(self), message, *final(self), old(effects)@, final(effects)@),
    {
        match message {
            Message::Update(diffs) => {
                let structural = batch_needs_reload(&diffs);
                apply_batch(&mut self.items, diffs);
                if structural {
                    self.linked_chunks.clear();
                    let anchor = find_first_event_id(&self.items);
                    self.walk_anchor = anchor;
                    match anchor {
                        Option::Some(a) => {
                            effects.push(
                                Effect::ReloadChunks { room_id: self.room_id.clone(), anchor: a },
                            );
                        }
                        Option::None => {}
                    }
                    proof {
                        assert(self.linked_chunks@ =~= Seq::<Chunk>::empty());
                    }
                }
                Option::None
            }
            Message::Scroll(s) => {
                let height = match self.details {
                    Details::LinkedChunk => true,
                    _ => false,
                };
                self.scroll_position = if height {
                    update_scroll_position_for_linked_chunk(&s, self.scroll_position)
                } else {
                    update_scroll_position_for_timeline(&s, self.scroll_position, self.items.len())
                };
                Option::None
            }
            Message::PaginateBackwards => {
                effects.push(Effect::PaginateBackwards { room_id: self.room_id.clone() });
                Option::None
            }
            Message::ShowDetails(d) => {
                let was_height = match self.details {
                    Details::LinkedChunk => true,
                    _ => false,
                };
                let is_height = match d {
                    Details::LinkedChunk => true,
                    _ => false,
                };
                if was_height != is_height {
                    self.scroll_position = 0;
                }
                self.details = d;
                Option::None
            }
            Message::ToggleReactionOnLastMessage => {
                match find_last_message_item(&self.items) {
                    Option::Some(id) => {
                        effects.push(
                            Effect::ToggleReaction { room_id: self.room_id.clone(), item_id: id },
                        );
                    }
                    Option::None => {}
                }
                Option::None
            }
        }
    }

    /// Takes one chunk loaded by the driver during a backward walk, or the
    /// driver's report that no earlier chunk exists. Returns whether the
    /// walk must go on: it stops immediately after a chunk that contains
    /// the anchor record, or when the store is exhausted.
    pub fn feed_chunk(&mut self, chunk: Option<Chunk>) -> (more: bool)
        requires
            old(self).walk_anchor is Some,
        ensures
            final(self).room_id == old(self).room_id,
            final(self).items == old(self).items,
            final(self).scroll_position == old(self).scroll_position,
            final(self).details == old(self).details,
            match chunk {
                Option::Some(c) => {
                    &&& final(self).linked_chunks@ == old(self).linked_chunks@.push(c)
                    &&& more == !chunk_contains_record(
                        c,
                        old(self).walk_anchor.unwrap(),
                    )
                    &&& final(self).walk_anchor == if more {
                        old(self).walk_anchor
                    } else {
                        Option::<u64>::None
                    }
                }
                Option::None => {
                    &&& final(self).linked_chunks == old(self).linked_chunks
                    &&& more == false
                    &&& final(self).walk_anchor is None
                }
            },
    {
        match chunk {
            Option::Some(c) => {
                let anchor = self.walk_anchor.unwrap();
                let found = crate::chunk::chunk_holds_record(&c, anchor);
                self.linked_chunks.push(c);
                if found {
                    self.walk_anchor = Option::None;
                    false
                } else {
                    true
                }
            }
            Option::None => {
                self.walk_anchor = Option::None;
                false
            }
        }
    }

    /// Writes back the render-time correction of the height-indexed offset,
    /// so later scroll deltas compose with the clamped value.
    pub fn apply_rendered_height(&mut self, content_height: usize, viewport_height: usize)
        ensures
            final(self).scroll_position as int == height_scroll_clamp(
                old(self).scroll_position as int,
                content_height as int,
                viewport_height as int,
            ),
            final(self).room_id == old(self).room_id,
            final(self).items == old(self).items,
            final(self).linked_chunks == old(self).linked_chunks,
            final(self).details == old(self).details,
            final(self).walk_anchor == old(self).walk_anchor,
    {
        self.scroll_position = clamp_scroll_position_for_linked_chunk(
            self.scroll_position,
            content_height,
            viewport_height,
        );
    }
}

} // verus!
