//! The diagnostics viewer: decides, from its two visibility flags, which
//! transition the log widget takes for each message. The widget itself is
//! driven by the effects.

use vstd::prelude::*;

use crate::app;
use crate::effect::{Effect, LoggerEvent};

verus! {

/// A scroll intent inside the diagnostics viewer.
#[derive(Clone, Copy, PartialEq, Eq, Debug)]
pub enum Scroll {
    Up,
    Down,
}

/// A diagnostics-viewer message.
pub enum Message {
    OpenCommandPanel,
    Scroll(Scroll),
    ToggleFilters,
    FocusFilter,
    IncreaseShownLogLevel,
    DecreaseShownLogLevel,
}

/// The diagnostics viewer's sub-model. Its background redraw ticker is
/// owned by the mode and cancelled when the mode is left.
pub struct Model {
    pub command_panel_is_opened: bool,
    pub filters_are_visible: bool,
}

/// How one diagnostics message transforms the sub-model and the effect
/// list. Every message closes the command panel again, except the one that
/// opens it; scrolling moves the filter list when the filters are visible
/// and pages the logs otherwise; the level keys act only while the filters
/// are visible. No message chains a follow-up.
pub open spec fn logger_step(
    pre: Model,
    message: Message,
    post: Model,
    eff0: Seq<Effect>,
    eff1: Seq<Effect>,
) -> bool {
    &&& (message matches Message::OpenCommandPanel ==> {
        &&& post.command_panel_is_opened == true
        &&& post.filters_are_visible == pre.filters_are_visible
        &&& eff1 == eff0
    })
    &&& (message matches Message::Scroll(s) ==> {
        &&& post.command_panel_is_opened == false
        &&& post.filters_are_visible == pre.filters_are_visible
        &&& eff1 == eff0.push(
            Effect::LoggerTransition {
                event: if pre.filters_are_visible {
                    match s {
                        Scroll::Up => LoggerEvent::Up,
                        Scroll::Down => LoggerEvent::Down,
                    }
                } else {
                    match s {
                        Scroll::Up => LoggerEvent::PrevPage,
                        Scroll::Down => LoggerEvent::NextPage,
                    }
                },
            },
        )
    })
    &&& (message matches Message::ToggleFilters ==> {
        &&& post.command_panel_is_opened == false
        &&& post.filters_are_visible == !pre.filters_are_visible
        &&& eff1 == eff0.push(Effect::LoggerTransition { event: LoggerEvent::Hide })
    })
    &&& (message matches Message::FocusFilter ==> {
        &&& post.command_panel_is_opened == false
        &&& post.filters_are_visible == pre.filters_are_visible
        &&& eff1 == if pre.filters_are_visible {
            eff0.push(Effect::LoggerTransition { event: LoggerEvent::Focus })
        } else {
            eff0
        }
    })
    &&& (message matches Message::IncreaseShownLogLevel ==> {
        &&& post.command_panel_is_opened == false
        &&& post.filters_are_visible == pre.filters_are_visible
        &&& eff1 == if pre.filters_are_visible {
            eff0.push(Effect::LoggerTransition { event: LoggerEvent::Right })
        } else {
            eff0
        }
    })
    &&& (message matches Message::DecreaseShownLogLevel ==> {
        &&& post.command_panel_is_opened == false
        &&& post.filters_are_visible == pre.filters_are_visible
        &&& eff1 == if pre.filters_are_visible {
            eff0.push(Effect::LoggerTransition { event: LoggerEvent::Left })
        } else {
            eff0
        }
    })
}

impl Model {
    /// A fresh diagnostics viewer; it immediately hides the filter pane of
    /// the widget.
    pub fn new(effects: &mut Vec<Effect>) -> (m: Model)
        ensures
            m.command_panel_is_opened == false,
            m.filters_are_visible == false,
            final(effects)@ == old(effects)@.push(
                Effect::LoggerTransition { event: LoggerEvent::Hide },
            ),
    {
        effects.push(Effect::LoggerTransition { event: LoggerEvent::Hide });
        Model { command_panel_is_opened: false, filters_are_visible: false }
    }

    /// Processes one diagnostics message. Never chains a follow-up.
    pub fn update(&mut self, message: Message, effects: &mut Vec<Effect>) -> (next: Option<
        app::Message,
    >)
        ensures
            next is None,
            logger_step(*old(self), message, *final(self), old(effects)@, final(effects)@),
    {
        self.command_panel_is_opened = false;
        match message {
            Message::OpenCommandPanel => {
                self.command_panel_is_opened = true;
            }
            Message::Scroll(s) => {
                let event = if self.filters_are_visible {
                    match s {
                        Scroll::Up => LoggerEvent::Up,
                        Scroll::Down => LoggerEvent::Down,
                    }
                } else {
                    match s {
                        Scroll::Up => LoggerEvent::PrevPage,
                        Scroll::Down => LoggerEvent::NextPage,
                    }
                };
                effects.push(Effect::LoggerTransition { event });
            }
            Message::ToggleFilters => {
                self.filters_are_visible = !self.filters_are_visible;
                effects.push(Effect::LoggerTransition { event: LoggerEvent::Hide });
            }
            Message::FocusFilter => {
                if self.filters_are_visible {
                    effects.push(Effect::LoggerTransition { event: LoggerEvent::Focus });
                }
            }
            Message::IncreaseShownLogLevel => {
                if self.filters_are_visible {
                    effects.push(Effect::LoggerTransition { event: LoggerEvent::Right });
                }
            }
            Message::DecreaseShownLogLevel => {
                if self.filters_are_visible {
                    effects.push(Effect::LoggerTransition { event: LoggerEvent::Left });
                }
            }
        }
        Option::None
    }
}

} // verus!
