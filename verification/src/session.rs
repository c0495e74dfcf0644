//! The disambiguation session: one full present / await / resolve cycle
//! for a single ambiguous query, as a state machine.  The machine decides;
//! an outer driver performs sends, deletes and waiting, and feeds every
//! observation back in as an event.
//!
//! A session is created, presents the numbered options, and then either
//! short-circuits (a single option needs no disambiguation) or awaits a
//! correlated reply until a fixed deadline.  A reply with the number of a
//! listed option selects it; the cancellation keyword cancels; anything
//! else - including a number beyond the list - resolves nothing and does
//! not move the deadline.  On every exit path the presented message is
//! cleaned up, except a selection that the caller will edit in place.

use vstd::prelude::*;

use crate::choice::{ChoiceSet, PresentationConfig};
use crate::presenter::{choice_body, display_line_count, render_choice_body, PresentedMessage};
use crate::reply::{
    classify_reply, reply_cancels, reply_qualifies, reply_selects, ReplyClass,
};

verus! {

/// How long a session waits for a reply, in seconds.
pub const REPLY_TIMEOUT_SECS: u64 = 60;

/// How a pending choice ended, if it has.  It transitions away from
/// `Pending` exactly once.
#[derive(Clone, Copy, PartialEq, Eq, Structural, Debug)]
pub enum Resolution {
    /// No qualifying reply yet and the deadline has not passed.
    Pending,
    /// The requester picked the option at this position (counting from 0).
    Selected { index: usize },
    /// The requester sent the cancellation keyword.
    Cancelled,
    /// The deadline passed with no qualifying reply.
    TimedOut,
}

/// One pending interaction: who may answer, where, which message shows
/// the options, until when, and how it ended.
#[derive(Clone, Copy, PartialEq, Eq, Structural, Debug)]
pub struct PendingChoice {
    /// Identity of the user whose reply counts.
    pub requester_id: u64,
    /// Identity of the channel the reply must arrive in.
    pub channel_id: u64,
    /// Identity of the message showing the numbered options.
    pub presented_message_id: u64,
    /// Absolute time, in seconds, after which no reply counts.
    pub deadline_secs: u64,
    /// How the choice ended, if it has.
    pub resolution: Resolution,
}

/// Does a reply by `author_id` in `from_channel_id` belong to the session
/// keyed by `(requester_id, channel_id)`?  Sessions with different keys
/// never claim the same reply.
pub open spec fn correlator_matches(
    requester_id: u64,
    channel_id: u64,
    author_id: u64,
    from_channel_id: u64,
) -> bool {
    author_id == requester_id && from_channel_id == channel_id
}

/// What a finished session hands back to its caller.
#[derive(Clone, Copy, PartialEq, Eq, Structural, Debug)]
pub enum SessionOutcome {
    /// An option was picked; the handle names the presented message for
    /// a follow-up edit or a fresh send.
    Chosen { index: usize, message: PresentedMessage },
    /// Cancelled or timed out; the presented message is already gone and
    /// the caller has nothing further to do.
    NoChoice,
}

/// What the driver must do after feeding the machine one event: delete
/// the matched reply, delete the presented message (both best-effort),
/// and/or finish with an outcome.  A directive with nothing set means
/// the session is still awaiting a reply.
#[derive(Clone, Copy, PartialEq, Eq, Structural, Debug)]
pub struct Directive {
    /// Delete this message: the qualifying reply just consumed.
    pub delete_reply: Option<u64>,
    /// Delete this message: the presented options list.
    pub delete_presented: Option<u64>,
    /// The session is finished with this outcome.
    pub outcome: Option<SessionOutcome>,
}

impl Directive {
    /// A directive that asks for nothing: the session keeps waiting.
    pub open spec fn is_keep_waiting(self) -> bool {
        self.delete_reply is None && self.delete_presented is None && self.outcome is None
    }
}

/// Where one session stands.
#[derive(Clone, Copy, PartialEq, Eq, Structural, Debug)]
pub enum SessionState {
    /// Nothing sent yet.
    Created,
    /// The options are presented and a correlated reply is awaited;
    /// `pending.resolution` is still `Pending`.
    AwaitingReply { pending: PendingChoice },
    /// The session ended; `pending.resolution` says how.
    Resolved { pending: PendingChoice },
    /// The options message could not be delivered; terminal.
    Failed,
}

/// One disambiguation session over a fixed candidate list.
pub struct DisambiguationSession {
    choices: ChoiceSet,
    config: PresentationConfig,
    requester_id: u64,
    channel_id: u64,
    state: SessionState,
}

impl DisambiguationSession {
    /// The candidates under disambiguation.
    pub closed spec fn choices(&self) -> ChoiceSet {
        self.choices
    }

    /// The candidate labels, in display order.
    pub open spec fn labels(&self) -> Seq<Seq<char>> {
        self.choices().labels()
    }

    /// The presentation settings.
    pub closed spec fn config(&self) -> PresentationConfig {
        self.config
    }

    /// The user whose reply counts.
    pub closed spec fn requester_id(&self) -> u64 {
        self.requester_id
    }

    /// The channel the session runs in.
    pub closed spec fn channel_id(&self) -> u64 {
        self.channel_id
    }

    /// Where the session stands.
    pub closed spec fn state(&self) -> SessionState {
        self.state
    }

    /// What holds of every session: valid candidates and settings, a
    /// pending choice keyed by this session, a resolution that is
    /// `Pending` exactly while awaiting, and a selected index that names
    /// a listed option.
    pub open spec fn well_formed(&self) -> bool {
        &&& self.choices().well_formed()
        &&& self.config().well_formed()
        &&& match self.state() {
            SessionState::Created => true,
            SessionState::Failed => true,
            SessionState::AwaitingReply { pending } => {
                &&& pending.requester_id == self.requester_id()
                &&& pending.channel_id == self.channel_id()
                &&& pending.resolution is Pending
            },
            SessionState::Resolved { pending } => {
                &&& pending.requester_id == self.requester_id()
                &&& pending.channel_id == self.channel_id()
                &&& !(pending.resolution is Pending)
                &&& match pending.resolution {
                    Resolution::Selected { index } => index < self.labels().len(),
                    _ => true,
                }
            },
        }
    }

    /// Starts a session for these candidates, settings and key.  Nothing
    /// is sent yet.
    pub fn new(
        choices: ChoiceSet,
        config: PresentationConfig,
        requester_id: u64,
        channel_id: u64,
    ) -> (s: DisambiguationSession)
        requires
            choices.well_formed(),
            config.well_formed(),
        ensures
            s.well_formed(),
            s.choices() == choices,
            s.config() == config,
            s.requester_id() == requester_id,
            s.channel_id() == channel_id,
            s.state() == SessionState::Created,
    {
        DisambiguationSession {
            choices,
            config,
            requester_id,
            channel_id,
            state: SessionState::Created,
        }
    }

    /// The body of the message to present: the numbered options and the
    /// cancel line.
    pub fn presentation_body(&self) -> (s: String)
        ensures
            s@ == choice_body(self.labels()),
    {
        render_choice_body(&self.choices)
    }

    /// The options message could not be delivered: the session ends with
    /// its one hard error, and there is nothing to clean up.
    pub fn on_present_failed(&mut self)
        requires
            old(self).state() == SessionState::Created,
            old(self).well_formed(),
        ensures
            final(self).state() == SessionState::Failed,
            final(self).well_formed(),
            final(self).choices() == old(self).choices(),
            final(self).config() == old(self).config(),
            final(self).requester_id() == old(self).requester_id(),
            final(self).channel_id() == old(self).channel_id(),
    {
        self.state = SessionState::Failed;
    }

    /// The options message went out as `message_id` at `now_secs`.  A
    /// single option needs no disambiguation: the session short-circuits
    /// to that option without ever awaiting a reply.  Otherwise the
    /// session awaits until `now_secs + REPLY_TIMEOUT_SECS`.
    pub fn on_presented(&mut self, message_id: u64, now_secs: u64) -> (d: Directive)
        requires
            old(self).state() == SessionState::Created,
            old(self).well_formed(),
            now_secs + REPLY_TIMEOUT_SECS <= u64::MAX,
        ensures
            final(self).well_formed(),
            final(self).choices() == old(self).choices(),
            final(self).config() == old(self).config(),
            final(self).requester_id() == old(self).requester_id(),
            final(self).channel_id() == old(self).channel_id(),
            d.delete_reply is None,
            // One real option plus the cancel line displays two lines:
            // no disambiguation is needed.
            if display_line_count(old(self).labels().len()) == 2 {
                &&& final(self).state() == SessionState::Resolved {
                    pending: PendingChoice {
                        requester_id: old(self).requester_id(),
                        channel_id: old(self).channel_id(),
                        presented_message_id: message_id,
                        deadline_secs: (now_secs + REPLY_TIMEOUT_SECS) as u64,
                        resolution: Resolution::Selected { index: 0 },
                    },
                }
                &&& d.outcome == Some(
                    SessionOutcome::Chosen {
                        index: 0usize,
                        message: PresentedMessage {
                            channel_id: old(self).channel_id(),
                            message_id,
                        },
                    },
                )
                &&& d.delete_presented == (if old(self).config().edit_after_choice() {
                    Option::<u64>::None
                } else {
                    Some(message_id)
                })
            } else {
                &&& final(self).state() == SessionState::AwaitingReply {
                    pending: PendingChoice {
                        requester_id: old(self).requester_id(),
                        channel_id: old(self).channel_id(),
                        presented_message_id: message_id,
                        deadline_secs: (now_secs + REPLY_TIMEOUT_SECS) as u64,
                        resolution: Resolution::Pending,
                    },
                }
                &&& d.is_keep_waiting()
            },
    {
        let deadline_secs = now_secs + REPLY_TIMEOUT_SECS;
        if self.choices.len() == 1 {
            self.state = SessionState::Resolved {
                pending: PendingChoice {
                    requester_id: self.requester_id,
                    channel_id: self.channel_id,
                    presented_message_id: message_id,
                    deadline_secs,
                    resolution: Resolution::Selected { index: 0 },
                },
            };
            Directive {
                delete_reply: None,
                delete_presented: if self.config.edits_after_choice() {
                    None
                } else {
                    Some(message_id)
                },
                outcome: Some(
                    SessionOutcome::Chosen {
                        index: 0,
                        message: PresentedMessage { channel_id: self.channel_id, message_id },
                    },
                ),
            }
        } else {
            self.state = SessionState::AwaitingReply {
                pending: PendingChoice {
                    requester_id: self.requester_id,
                    channel_id: self.channel_id,
                    presented_message_id: message_id,
                    deadline_secs,
                    resolution: Resolution::Pending,
                },
            };
            Directive { delete_reply: None, delete_presented: None, outcome: None }
        }
    }

    /// An inbound message was observed at `now_secs` while awaiting.  A
    /// late observation means the deadline passed: the session times out.
    /// A message by another user or in another channel is ignored.  The
    /// requester's own message selects, cancels, or - when it does not
    /// qualify - is ignored without moving the deadline.
    pub fn on_reply(
        &mut self,
        author_id: u64,
        from_channel_id: u64,
        reply_message_id: u64,
        body: &str,
        now_secs: u64,
    ) -> (d: Directive)
        requires
            old(self).state() matches SessionState::AwaitingReply { .. },
            old(self).well_formed(),
        ensures
            final(self).well_formed(),
            final(self).choices() == old(self).choices(),
            final(self).config() == old(self).config(),
            final(self).requester_id() == old(self).requester_id(),
            final(self).channel_id() == old(self).channel_id(),
            ({
                let pending = old(self).state()->AwaitingReply_pending;
                let n = old(self).labels().len();
                if now_secs > pending.deadline_secs {
                    // The deadline passed before this observation.
                    &&& final(self).state() == SessionState::Resolved {
                        pending: PendingChoice { resolution: Resolution::TimedOut, ..pending },
                    }
                    &&& d == (Directive {
                        delete_reply: Option::<u64>::None,
                        delete_presented: Some(pending.presented_message_id),
                        outcome: Some(SessionOutcome::NoChoice),
                    })
                } else if !correlator_matches(
                    old(self).requester_id(),
                    old(self).channel_id(),
                    author_id,
                    from_channel_id,
                ) {
                    // Someone else's message: not consumed, not counted.
                    final(self).state() == old(self).state() && d.is_keep_waiting()
                } else if reply_cancels(body@) {
                    &&& final(self).state() == SessionState::Resolved {
                        pending: PendingChoice { resolution: Resolution::Cancelled, ..pending },
                    }
                    &&& d == (Directive {
                        delete_reply: Some(reply_message_id),
                        delete_presented: Some(pending.presented_message_id),
                        outcome: Some(SessionOutcome::NoChoice),
                    })
                } else if reply_qualifies(body@, n) {
                    let index = (crate::digits::dec_value(crate::reply::trimmed(body@))
                        - 1) as usize;
                    &&& reply_selects(body@, n, index as nat)
                    &&& final(self).state() == SessionState::Resolved {
                        pending: PendingChoice {
                            resolution: Resolution::Selected { index },
                            ..pending
                        },
                    }
                    &&& d == (Directive {
                        delete_reply: Some(reply_message_id),
                        delete_presented: (
                        if old(self).config().edit_after_choice() {
                            Option::<u64>::None
                        } else {
                            Some(pending.presented_message_id)
                        }),
                        outcome: Some(
                            SessionOutcome::Chosen {
                                index,
                                message: PresentedMessage {
                                    channel_id: old(self).channel_id(),
                                    message_id: pending.presented_message_id,
                                },
                            },
                        ),
                    })
                } else {
                    // Not a qualifying reply: the session keeps waiting
                    // with the same deadline.
                    final(self).state() == old(self).state() && d.is_keep_waiting()
                }
            }),
    {
        let (pending, n) = match &self.state {
            SessionState::AwaitingReply { pending } => (*pending, self.choices.len()),
            _ => {
                // Excluded by the precondition: the session is awaiting.
                proof {
                    assert(false);
                }
                (
                    PendingChoice {
                        requester_id: 0,
                        channel_id: 0,
                        presented_message_id: 0,
                        deadline_secs: 0,
                        resolution: Resolution::Pending,
                    },
                    0,
                )
            },
        };
        if now_secs > pending.deadline_secs {
            self.state = SessionState::Resolved {
                pending: PendingChoice { resolution: Resolution::TimedOut, ..pending },
            };
            return Directive {
                delete_reply: None,
                delete_presented: Some(pending.presented_message_id),
                outcome: Some(SessionOutcome::NoChoice),
            };
        }
        if !(author_id == self.requester_id && from_channel_id == self.channel_id) {
            return Directive { delete_reply: None, delete_presented: None, outcome: None };
        }
        match classify_reply(body, n) {
            ReplyClass::Cancel => {
                self.state = SessionState::Resolved {
                    pending: PendingChoice { resolution: Resolution::Cancelled, ..pending },
                };
                Directive {
                    delete_reply: Some(reply_message_id),
                    delete_presented: Some(pending.presented_message_id),
                    outcome: Some(SessionOutcome::NoChoice),
                }
            },
            ReplyClass::Choice { index } => {
                self.state = SessionState::Resolved {
                    pending: PendingChoice {
                        resolution: Resolution::Selected { index },
                        ..pending
                    },
                };
                Directive {
                    delete_reply: Some(reply_message_id),
                    delete_presented: if self.config.edits_after_choice() {
                        None
                    } else {
                        Some(pending.presented_message_id)
                    },
                    outcome: Some(
                        SessionOutcome::Chosen {
                            index,
                            message: PresentedMessage {
                                channel_id: self.channel_id,
                                message_id: pending.presented_message_id,
                            },
                        },
                    ),
                }
            },
            ReplyClass::NotQualifying => Directive {
                delete_reply: None,
                delete_presented: None,
                outcome: None,
            },
        }
    }

    /// The deadline passed with no qualifying reply: the session times
    /// out and the presented message is cleaned up.
    pub fn on_deadline(&mut self) -> (d: Directive)
        requires
            old(self).state() matches SessionState::AwaitingReply { .. },
            old(self).well_formed(),
        ensures
            final(self).well_formed(),
            final(self).choices() == old(self).choices(),
            final(self).config() == old(self).config(),
            final(self).requester_id() == old(self).requester_id(),
            final(self).channel_id() == old(self).channel_id(),
            ({
                let pending = old(self).state()->AwaitingReply_pending;
                &&& final(self).state() == SessionState::Resolved {
                    pending: PendingChoice { resolution: Resolution::TimedOut, ..pending },
                }
                &&& d == (Directive {
                    delete_reply: Option::<u64>::None,
                    delete_presented: Some(pending.presented_message_id),
                    outcome: Some(SessionOutcome::NoChoice),
                })
            }),
    {
        let pending = match &self.state {
            SessionState::AwaitingReply { pending } => *pending,
            _ => {
                // Excluded by the precondition: the session is awaiting.
                proof {
                    assert(false);
                }
                PendingChoice {
                    requester_id: 0,
                    channel_id: 0,
                    presented_message_id: 0,
                    deadline_secs: 0,
                    resolution: Resolution::Pending,
                }
            },
        };
        self.state = SessionState::Resolved {
            pending: PendingChoice { resolution: Resolution::TimedOut, ..pending },
        };
        Directive {
            delete_reply: None,
            delete_presented: Some(pending.presented_message_id),
            outcome: Some(SessionOutcome::NoChoice),
        }
    }
}

} // verus!
