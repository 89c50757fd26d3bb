//! Outbound actions of the engine. The dispatcher never performs remote
//! calls or terminal work itself: it appends effects to a list, and the
//! driver loop performs them, in order, after the message chain drains.

use vstd::prelude::*;

use crate::input::Key;

verus! {

/// A transition of the diagnostics log widget, decided by the logger mode.
#[derive(Clone, Copy, PartialEq, Eq, Debug)]
pub enum LoggerEvent {
    Hide,
    Up,
    Down,
    PrevPage,
    NextPage,
    Focus,
    Right,
    Left,
}

/// One outbound action for the driver loop to perform. All remote calls are
/// best-effort: their failure is logged, not retried, and never fed back
/// into the engine.
#[derive(Clone, PartialEq, Debug)]
pub enum Effect {
    /// Start the backing sync service.
    StartSyncService,
    /// Stop the backing sync service.
    StopSyncService,
    /// Clear the persisted event caches of every room.
    ClearAllRoomCaches,
    /// Clear the persisted event cache of one room.
    ClearRoomCache { room_id: String },
    /// Install the room-list filter: non-left rooms, fuzzy-narrowed by the
    /// given term when one is present.
    SetRoomFilter { fuzzy_term: Option<String> },
    /// Feed the key to the room-search input widget.
    EditSearch { key: Key },
    /// Feed the key to the message composer widget.
    EditDraft { key: Key },
    /// Send a plain text message into the room.
    SendText { room_id: String, body: String },
    /// Send a read receipt for the room.
    MarkRoomAsRead { room_id: String },
    /// Ask the room's timeline to paginate backwards by one page.
    PaginateBackwards { room_id: String },
    /// Toggle the thumbs-up reaction on the timeline item.
    ToggleReaction { room_id: String, item_id: u64 },
    /// Walk the room's persisted chunk store backward from its tail, feeding
    /// each loaded chunk back to the timeline model, until it reports that
    /// the walk is over.
    ReloadChunks { room_id: String, anchor: u64 },
    /// Subscribe the sync service to the room.
    SubscribeToRoom { room_id: String },
    /// Spawn the forwarder task for the opened room's timeline diff stream.
    StartTimelineStream { room_id: String },
    /// Spawn the forwarder task for the room-list diff stream.
    StartRoomListStream,
    /// Spawn the periodic redraw ticker of the logger mode.
    StartLoggerTicker,
    /// Abort the background task owned by the mode that was just left.
    CancelModeStream,
    /// Abort the timeline forwarder of the room that was just replaced.
    CancelTimelineStream,
    /// Apply a transition to the diagnostics log widget.
    LoggerTransition { event: LoggerEvent },
    /// Load initial items for the room-list preview timeline.
    LoadRoomPreview { room_id: String },
}

} // verus!
