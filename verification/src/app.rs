//! The application model: the mode state machine and the message
//! dispatcher. Dispatch is a single match over the pair of current mode and
//! message variant; an unmatched pair is silently ignored, since the mode
//! may change between the moment a message is queued and the moment it is
//! processed. Each step may chain into at most one follow-up message of
//! strictly smaller rank, so every chain drains within a bounded number of
//! steps.

use vstd::prelude::*;

use crate::diff::batch_valid;
use crate::effect::Effect;
use crate::mode::{logger, room_list, space};
use crate::mode;
use crate::room;
use crate::timeline;

verus! {

/// A top-level message: one variant per mode, plus the top-level controls.
pub enum Message {
    Quit,
    /// Open the room with this identifier, leaving whatever mode is active.
    OpenRoom(String),
    Room(room::Message),
    /// Switch to this mode, discarding the previous sub-model.
    Mode(Mode),
    Space(space::Message),
    RoomList(room_list::Message),
    Logger(logger::Message),
}

/// The mutually exclusive UI modes. Exactly one is active; activating a new
/// one replaces and drops the previous sub-model.
pub enum Mode {
    /// Idle: no mode is active.
    Idle,
    /// Composing: keys go to the message composer.
    Insert,
    Space(space::Model),
    RoomList(room_list::Model),
    Room(mode::room::Model),
    Logger(logger::Model),
}

/// Whether this mode's sub-model owns a background task (a stream
/// forwarder or a ticker) whose lifetime is the sub-model's lifetime.
pub open spec fn mode_has_stream(m: Mode) -> bool {
    ||| m matches Mode::RoomList(_)
    ||| m matches Mode::Logger(_)
}

/// The effects that leaving this mode appends: its background task, if it
/// owns one, is aborted the instant the sub-model is dropped.
pub open spec fn mode_cancel_effects(m: Mode) -> Seq<Effect> {
    if mode_has_stream(m) {
        seq![Effect::CancelModeStream]
    } else {
        Seq::empty()
    }
}

/// The effects that entering this mode appends: the background task its
/// sub-model owns, if any, is spawned.
pub open spec fn mode_start_effects(m: Mode) -> Seq<Effect> {
    match m {
        Mode::RoomList(_) => seq![Effect::StartRoomListStream],
        Mode::Logger(_) => seq![Effect::StartLoggerTicker],
        _ => Seq::empty(),
    }
}

/// The rank of a message: an upper bound on the number of dispatch steps
/// the chain it starts can still take. Every chained follow-up has a
/// strictly smaller rank, so no chain runs longer than the largest rank.
pub open spec fn msg_rank(message: Message) -> nat {
    match message {
        Message::Quit => 1,
        Message::OpenRoom(_) => 1,
        Message::Mode(_) => 1,
        Message::Logger(_) => 1,
        Message::Space(_) => 2,
        Message::RoomList(_) => 2,
        Message::Room(rm) => match rm {
            room::Message::UpdateMessage(_) => 3,
            _ => 2,
        },
    }
}

/// No message ranks above three: every dispatch chain drains within three
/// steps.
pub proof fn lemma_msg_rank_bounded(message: Message)
    ensures
        1 <= msg_rank(message) <= 3,
{
}

/// The rank of a chain position: zero once the chain has drained.
pub open spec fn opt_msg_rank(message: Option<Message>) -> nat {
    match message {
        Option::Some(m) => msg_rank(m),
        Option::None => 0,
    }
}

/// The producers' index precondition, per message: a diff batch must be
/// valid for the sequence it will be applied to. A batch whose target is
/// not live carries no obligation, since dispatch ignores it.
pub open spec fn msg_wf(m: Model, message: Message) -> bool {
    match message {
        Message::Mode(new_mode) => new_mode matches Mode::RoomList(rl) ==> rl.wf(),
        Message::Room(rm) => match rm {
            room::Message::Timeline(tm) => match tm {
                timeline::Message::Update(diffs) => match m.room {
                    Option::Some(r) => batch_valid(r.timeline.items@, diffs@),
                    Option::None => true,
                },
                _ => true,
            },
            _ => true,
        },
        Message::RoomList(rlm) => match rlm {
            room_list::Message::UpdateRoomList(diffs) => match m.mode {
                Mode::RoomList(rl) => batch_valid(rl.rooms@, diffs@),
                _ => true,
            },
            _ => true,
        },
        _ => true,
    }
}

/// How one dispatch step transforms the model and the effect list, and
/// which message it chains into, per pair of message variant and current
/// mode.
pub open spec fn app_step(
    pre: Model,
    message: Message,
    post: Model,
    eff0: Seq<Effect>,
    eff1: Seq<Effect>,
    next: Option<Message>,
) -> bool {
    &&& (message matches Message::Quit ==> {
                &&& post.exit == true
                &&& post.mode == pre.mode
                &&& post.room == pre.room
                &&& eff1 == eff0
                &&& next is None
            })
    &&& (message matches Message::OpenRoom(room_id) ==> {
                &&& post.exit == pre.exit
                &&& post.mode is Idle
                &&& post.room matches Option::Some(r) && r.room_id == room_id
                    && r.timeline.is_fresh_for(room_id) && r.draft@ == Seq::<char>::empty()
                &&& eff1 == eff0 + mode_cancel_effects(pre.mode)
                    + seq![Effect::SubscribeToRoom { room_id }] + (if pre.room is Some {
                    seq![Effect::CancelTimelineStream]
                } else {
                    Seq::<Effect>::empty()
                }) + seq![Effect::StartTimelineStream { room_id }]
                &&& next is None
            })
    &&& (message matches Message::Mode(m) ==> {
                &&& post.exit == pre.exit
                &&& post.mode == m
                &&& post.room == pre.room
                &&& eff1 == eff0 + mode_cancel_effects(pre.mode)
                    + mode_start_effects(m)
                &&& next is None
            })
    &&& (message matches Message::Room(rm) ==> {
                &&& post.exit == pre.exit
                &&& post.mode == pre.mode
                &&& match pre.room {
                    Option::Some(r0) => post.room matches Option::Some(r1)
                        && room::room_step(r0, rm, r1, eff0, eff1, next),
                    Option::None => {
                        &&& post.room is None
                        &&& eff1 == eff0
                        &&& next is None
                    },
                }
            })
    &&& (message matches Message::Space(sm) ==> {
                &&& post.exit == pre.exit
                &&& post.mode == pre.mode
                &&& post.room == pre.room
                &&& if pre.mode is Space {
                    space::space_step(sm, eff0, eff1, next)
                } else {
                    eff1 == eff0 && next is None
                }
            })
    &&& (message matches Message::RoomList(rlm) ==> {
                &&& post.exit == pre.exit
                &&& post.room == pre.room
                &&& match pre.mode {
                    Mode::RoomList(rl0) => post.mode matches Mode::RoomList(rl1)
                        && room_list::room_list_step(
                        rl0,
                        rlm,
                        rl1,
                        eff0,
                        eff1,
                        next,
                    ),
                    _ => {
                        &&& post.mode == pre.mode
                        &&& eff1 == eff0
                        &&& next is None
                    },
                }
            })
    &&& (message matches Message::Logger(lm) ==> {
                &&& post.exit == pre.exit
                &&& post.room == pre.room
                &&& match pre.mode {
                    Mode::Logger(lg0) => post.mode matches Mode::Logger(lg1)
                        && logger::logger_step(lg0, lm, lg1, eff0, eff1)
                        && next is None,
                    _ => {
                        &&& post.mode == pre.mode
                        &&& eff1 == eff0
                        &&& next is None
                    },
                }
            })
}

/// From any mode, the message that leaves the current mode always yields
/// the idle mode, drops the previous sub-model, and — when that sub-model
/// owned a background subscription — cancels it, so no further diff-driven
/// mutation can occur after the transition. It never chains a follow-up.
pub proof fn lemma_leaving_a_mode_resets_and_cancels(
    pre: Model,
    post: Model,
    eff0: Seq<Effect>,
    eff1: Seq<Effect>,
    next: Option<Message>,
)
    requires
        app_step(pre, Message::Mode(Mode::Idle), post, eff0, eff1, next),
    ensures
        post.mode is Idle,
        post.room == pre.room,
        mode_has_stream(pre.mode) ==> eff1 == eff0.push(Effect::CancelModeStream),
        !mode_has_stream(pre.mode) ==> eff1 == eff0,
        next is None,
{
    if mode_has_stream(pre.mode) {
        assert(eff1 =~= eff0.push(Effect::CancelModeStream));
    } else {
        assert(eff1 =~= eff0);
    }
}

/// Message chaining terminates: every dispatch step chains into a message
/// of strictly smaller rank, and no rank exceeds three, so repeated
/// dispatch drains any chain within three steps.
pub proof fn lemma_chains_terminate(
    pre: Model,
    message: Message,
    post: Model,
    eff0: Seq<Effect>,
    eff1: Seq<Effect>,
    next: Option<Message>,
)
    requires
        app_step(pre, message, post, eff0, eff1, next),
    ensures
        next matches Option::Some(m2) ==> msg_rank(m2) < msg_rank(message),
        msg_rank(message) <= 3,
{
    lemma_msg_rank_bounded(message);
}

/// The whole drained chain that one message starts: there is a sequence of
/// dispatch steps, each related to the previous one by `app_step`, from
/// `message` on the starting model through every chained follow-up, whose
/// last step chains nothing; `post` and `eff1` are the model and the
/// effect list after that last step. The ranks fall strictly along the
/// chain, so the relation is well-founded.
pub open spec fn chain_step(
    pre: Model,
    message: Message,
    post: Model,
    eff0: Seq<Effect>,
    eff1: Seq<Effect>,
) -> bool
    decreases msg_rank(message),
{
    exists|mid: Model, effm: Seq<Effect>, next: Option<Message>|
        {
            &&& #[trigger] app_step(pre, message, mid, eff0, effm, next)
            &&& match next {
                Option::Some(m2) => msg_rank(m2) < msg_rank(message) && chain_step(
                    mid,
                    m2,
                    post,
                    effm,
                    eff1,
                ),
                Option::None => post == mid && eff1 == effm,
            }
        }
}

/// The application model: the exit flag, the active mode, and the opened
/// room, if one is.
pub struct Model {
    pub exit: bool,
    pub mode: Mode,
    pub room: Option<room::Model>,
}

impl Model {
    /// The model's invariant: whatever sub-model the active mode holds is
    /// well-formed.
    pub open spec fn wf(self) -> bool {
        self.mode matches Mode::RoomList(rl) ==> rl.wf()
    }

    /// A fresh model: not exiting, idle, no room opened.
    pub fn new() -> (m: Model)
        ensures
            m.wf(),
            !m.exit,
            m.mode is Idle,
            m.room is None,
    {
        Model { exit: false, mode: Mode::Idle, room: Option::None }
    }

    /// Processes one message against the pair of current mode and message
    /// variant. Returns the chained follow-up, if the step produced one;
    /// the follow-up always ranks strictly below the message and respects
    /// the producers' precondition against the new state.
    pub fn update(&mut self, message: Message, effects: &mut Vec<Effect>) -> (next: Option<
        Message,
    >)
        requires
            old(self).wf(),
            msg_wf(*old(self), message),
        ensures
            final(self).wf(),
            next matches Option::Some(m2) ==> msg_rank(m2) < msg_rank(message),
            next matches Option::Some(m2) ==> msg_wf(*final(self), m2),
            app_step(*old(self), message, *final(self), old(effects)@, final(effects)@, next),
    {
        match message {
            Message::Quit => {
                self.exit = true;
                Option::None
            }
            Message::OpenRoom(room_id) => {
                let had_stream = match &self.mode {
                    Mode::RoomList(_) => true,
                    Mode::Logger(_) => true,
                    _ => false,
                };
                if had_stream {
                    effects.push(Effect::CancelModeStream);
                }
                self.mode = Mode::Idle;
                effects.push(Effect::SubscribeToRoom { room_id: room_id.clone() });
                let had_room = match &self.room {
                    Option::Some(_) => true,
                    Option::None => false,
                };
                if had_room {
                    effects.push(Effect::CancelTimelineStream);
                }
                effects.push(Effect::StartTimelineStream { room_id: room_id.clone() });
                proof {
                    assert(effects@ =~= old(effects)@ + mode_cancel_effects(old(self).mode)
                        + seq![Effect::SubscribeToRoom { room_id: room_id }] + (if old(
                        self,
                    ).room is Some {
                        seq![Effect::CancelTimelineStream]
                    } else {
                        Seq::<Effect>::empty()
                    }) + seq![Effect::StartTimelineStream { room_id: room_id }]);
                }
                self.room = Option::Some(room::Model::new(room_id));
                Option::None
            }
            Message::Mode(m) => {
                let had_stream = match &self.mode {
                    Mode::RoomList(_) => true,
                    Mode::Logger(_) => true,
                    _ => false,
                };
                if had_stream {
                    effects.push(Effect::CancelModeStream);
                }
                match &m {
                    Mode::RoomList(_) => effects.push(Effect::StartRoomListStream),
                    Mode::Logger(_) => effects.push(Effect::StartLoggerTicker),
                    _ => {}
                }
                proof {
                    assert(effects@ =~= old(effects)@ + mode_cancel_effects(old(self).mode)
                        + mode_start_effects(m));
                }
                self.mode = m;
                Option::None
            }
            Message::Room(rm) => {
                match &mut self.room {
                    Option::Some(room_model) => room_model.update(rm, effects),
                    Option::None => Option::None,
                }
            }
            Message::Space(sm) => {
                match &mut self.mode {
                    Mode::Space(space_model) => space_model.update(sm, effects),
                    _ => Option::None,
                }
            }
            Message::RoomList(rlm) => {
                match &mut self.mode {
                    Mode::RoomList(room_list_model) => room_list_model.update(rlm, effects),
                    _ => Option::None,
                }
            }
            Message::Logger(lm) => {
                match &mut self.mode {
                    Mode::Logger(logger_model) => logger_model.update(lm, effects),
                    _ => Option::None,
                }
            }
        }
    }

    /// The trampoline: processes one message and every follow-up it chains
    /// into, until the chain drains. Termination is by the strictly
    /// decreasing message rank; no chain takes more than three steps.
    pub fn run_chain(&mut self, message: Message, effects: &mut Vec<Effect>)
        requires
            old(self).wf(),
            msg_wf(*old(self), message),
        ensures
            final(self).wf(),
            chain_step(*old(self), message, *final(self), old(effects)@, final(effects)@),
    {
        let ghost pre0 = *self;
        let ghost msg0 = message;
        let ghost eff00 = effects@;
        let mut current = Option::Some(message);
        loop
            invariant
                self.wf(),
                current matches Option::Some(c) ==> msg_wf(*self, c),
                // Whatever the rest of the chain reaches, the whole chain
                // reaches; once the chain has drained, it reached here.
                current matches Option::Some(c) ==> forall|p: Model, ef: Seq<Effect>|
                    #[trigger] chain_step(*self, c, p, effects@, ef) ==> chain_step(
                        pre0,
                        msg0,
                        p,
                        eff00,
                        ef,
                    ),
                current is None ==> chain_step(pre0, msg0, *self, eff00, effects@),
            ensures
                self.wf(),
                chain_step(pre0, msg0, *self, eff00, effects@),
            decreases opt_msg_rank(current),
        {
            match current {
                Option::Some(m) => {
                    let ghost s_pre = *self;
                    let ghost e_pre = effects@;
                    current = self.update(m, effects);
                    proof {
                        let ghost taken = current;
                        match taken {
                            Option::Some(m2) => {
                                assert forall|p: Model, ef: Seq<Effect>| #[trigger] chain_step(
                                    *self,
                                    m2,
                                    p,
                                    effects@,
                                    ef,
                                ) implies chain_step(s_pre, m, p, e_pre, ef) by {
                                    assert(app_step(
                                        s_pre,
                                        m,
                                        *self,
                                        e_pre,
                                        effects@,
                                        Option::Some(m2),
                                    ));
                                }
                            }
                            Option::None => {
                                assert(app_step(
                                    s_pre,
                                    m,
                                    *self,
                                    e_pre,
                                    effects@,
                                    Option::<Message>::None,
                                ));
                                assert(chain_step(s_pre, m, *self, e_pre, effects@));
                            }
                        }
                    }
                }
                Option::None => {
                    break ;
                }
            }
        }
    }
}

} // verus!
