//! The room help overlay: a static command list, shown differently
//! depending on whether a room is opened. It has no messages of its own.

use vstd::prelude::*;

verus! {

/// The room help overlay's sub-model.
pub struct Model {
    pub has_room_opened: bool,
}

impl Model {
    /// A fresh overlay, remembering whether a room was opened when it was
    /// activated.
    pub fn new(has_room_opened: bool) -> (m: Model)
        ensures
            m.has_room_opened == has_room_opened,
    {
        Model { has_room_opened }
    }
}

} // verus!
