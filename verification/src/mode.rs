//! The mutually exclusive UI modes. Each mode owns its own sub-model and
//! its own message set; exactly one mode is active at a time, and activating
//! a new mode discards the previous sub-model together with any background
//! subscription it owned.

pub mod logger;
pub mod room;
pub mod room_list;
pub mod space;
