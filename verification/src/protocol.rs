//! Running a whole disambiguation session over a trace of inbound
//! messages, against the in-memory gateway.  The trace is what the shared
//! event feed delivered while the session was pending, in arrival order;
//! `await_outcome` says, mathematically, how a pending session resolves
//! over any such trace, and `run_disambiguation` is the verified driver
//! that realises it.
//!
//! The laws of the protocol stand here as proof functions: a lone option
//! resolves at once, the first qualifying reply decides, silence times
//! out, and a session's resolution depends only on the replies matching
//! its own requester and channel.

use vstd::prelude::*;

use crate::choice::{ChoiceSet, PresentationConfig};
use crate::digits::dec_value;
use crate::gateway::{without_message, DeliveryError, GatewayModel, MessageRecord};
use crate::presenter::choice_body;
use crate::reply::{reply_cancels, reply_qualifies, reply_selects, trimmed};
use crate::session::{
    correlator_matches, DisambiguationSession, Resolution, SessionOutcome, SessionState,
    REPLY_TIMEOUT_SECS,
};

verus! {

/// What one inbound chat message is, mathematically.
pub struct InboundRecord {
    pub author_id: u64,
    pub channel_id: u64,
    pub message_id: u64,
    pub body: Seq<char>,
    pub at_secs: u64,
}

/// One inbound chat message, as the event feed hands it over.
#[derive(Clone, Debug)]
pub struct InboundMessage {
    /// Who sent it.
    pub author_id: u64,
    /// Where it was sent.
    pub channel_id: u64,
    /// Its own identity, for the best-effort cleanup of a matched reply.
    pub message_id: u64,
    /// Its text.
    pub body: String,
    /// The clock reading at arrival, in seconds.
    pub at_secs: u64,
}

impl View for InboundMessage {
    type V = InboundRecord;

    open spec fn view(&self) -> InboundRecord {
        InboundRecord {
            author_id: self.author_id,
            channel_id: self.channel_id,
            message_id: self.message_id,
            body: self.body@,
            at_secs: self.at_secs,
        }
    }
}

impl DeepView for InboundMessage {
    type V = InboundRecord;

    open spec fn deep_view(&self) -> InboundRecord {
        self.view()
    }
}

/// How awaiting ended: the resolution, and the identity of the reply
/// that caused it, if one did (for its best-effort cleanup).
pub struct AwaitOutcome {
    pub resolution: Resolution,
    pub reply_message_id: Option<u64>,
}

/// Does this message resolve a session keyed by `(requester_id,
/// channel_id)` that is still within its deadline?
pub open spec fn message_decides(
    m: InboundRecord,
    requester_id: u64,
    channel_id: u64,
    deadline_secs: u64,
    n_options: nat,
) -> bool {
    &&& m.at_secs <= deadline_secs
    &&& correlator_matches(requester_id, channel_id, m.author_id, m.channel_id)
    &&& reply_qualifies(m.body, n_options)
}

/// The resolution a qualifying reply body carries: cancellation, or the
/// choice it numbers.
pub open spec fn decision_of(m: InboundRecord, n_options: nat) -> Resolution {
    if reply_cancels(m.body) {
        Resolution::Cancelled
    } else {
        Resolution::Selected { index: (dec_value(trimmed(m.body)) - 1) as usize }
    }
}

/// How a session awaiting a reply resolves over a trace of inbound
/// messages, in arrival order.  The first observation past the deadline
/// times the session out; the first message of the session's requester
/// in the session's channel whose body qualifies decides; everything
/// else is passed over.  An exhausted trace stands for silence until the
/// deadline.
pub open spec fn await_outcome(
    msgs: Seq<InboundRecord>,
    requester_id: u64,
    channel_id: u64,
    deadline_secs: u64,
    n_options: nat,
) -> AwaitOutcome
    decreases msgs.len(),
{
    if msgs.len() == 0 {
        AwaitOutcome { resolution: Resolution::TimedOut, reply_message_id: None }
    } else {
        let m = msgs.first();
        if m.at_secs > deadline_secs {
            AwaitOutcome { resolution: Resolution::TimedOut, reply_message_id: None }
        } else if correlator_matches(requester_id, channel_id, m.author_id, m.channel_id)
            && reply_qualifies(m.body, n_options) {
            AwaitOutcome {
                resolution: decision_of(m, n_options),
                reply_message_id: Some(m.message_id),
            }
        } else {
            await_outcome(msgs.drop_first(), requester_id, channel_id, deadline_secs, n_options)
        }
    }
}

/// How a whole session resolves: a single option is auto-selected
/// without consulting the trace at all; otherwise awaiting decides.
pub open spec fn session_resolution(
    n_options: nat,
    msgs: Seq<InboundRecord>,
    requester_id: u64,
    channel_id: u64,
    deadline_secs: u64,
) -> AwaitOutcome {
    if n_options == 1 {
        AwaitOutcome { resolution: Resolution::Selected { index: 0 }, reply_message_id: None }
    } else {
        await_outcome(msgs, requester_id, channel_id, deadline_secs, n_options)
    }
}

/// Stepping past a message that neither decides nor is late leaves the
/// outcome unchanged.
proof fn lemma_await_outcome_skip_step(
    msgs: Seq<InboundRecord>,
    i: int,
    requester_id: u64,
    channel_id: u64,
    deadline_secs: u64,
    n_options: nat,
)
    requires
        0 <= i < msgs.len(),
        msgs[i].at_secs <= deadline_secs,
        !(correlator_matches(requester_id, channel_id, msgs[i].author_id, msgs[i].channel_id)
            && reply_qualifies(msgs[i].body, n_options)),
    ensures
        await_outcome(msgs.skip(i), requester_id, channel_id, deadline_secs, n_options)
            == await_outcome(msgs.skip(i + 1), requester_id, channel_id, deadline_secs, n_options),
{
    assert(msgs.skip(i).first() == msgs[i]);
    assert(msgs.skip(i).drop_first() =~= msgs.skip(i + 1));
}

/// A candidate list of exactly one option resolves to that option at
/// once, whatever the event feed carries: the trace is never consulted
/// and no reply is claimed.
pub proof fn lemma_single_option_auto_selects(
    msgs: Seq<InboundRecord>,
    requester_id: u64,
    channel_id: u64,
    deadline_secs: u64,
)
    ensures
        session_resolution(1, msgs, requester_id, channel_id, deadline_secs)
            == (AwaitOutcome {
            resolution: Resolution::Selected { index: 0usize },
            reply_message_id: None,
        }),
{
}

/// If the requester's reply numbering option `k` (between 1 and the
/// option count) is the first deciding observation, and nothing before
/// it is late, the session resolves to the selection of option `k - 1`
/// and claims exactly that reply.
pub proof fn lemma_numeric_reply_selects(
    msgs: Seq<InboundRecord>,
    j: int,
    requester_id: u64,
    channel_id: u64,
    deadline_secs: u64,
    n_options: nat,
    k: nat,
)
    requires
        0 <= j < msgs.len(),
        forall|l: int|
            0 <= l < j ==> (#[trigger] msgs[l]).at_secs <= deadline_secs && !message_decides(
                msgs[l],
                requester_id,
                channel_id,
                deadline_secs,
                n_options,
            ),
        msgs[j].at_secs <= deadline_secs,
        correlator_matches(requester_id, channel_id, msgs[j].author_id, msgs[j].channel_id),
        1 <= k <= n_options,
        reply_selects(msgs[j].body, n_options, (k - 1) as nat),
        n_options <= usize::MAX,
    ensures
        await_outcome(msgs, requester_id, channel_id, deadline_secs, n_options)
            == (AwaitOutcome {
            resolution: Resolution::Selected { index: (k - 1) as usize },
            reply_message_id: Some(msgs[j].message_id),
        }),
    decreases j,
{
    if j == 0 {
        let m = msgs.first();
        crate::reply::lemma_select_excludes_cancel(m.body, n_options, (k - 1) as nat);
        assert(reply_qualifies(m.body, n_options));
        assert(decision_of(m, n_options) == Resolution::Selected { index: (k - 1) as usize });
    } else {
        let rest = msgs.drop_first();
        assert(forall|l: int| 0 <= l < rest.len() ==> rest[l] == msgs[l + 1]);
        lemma_numeric_reply_selects(
            rest,
            j - 1,
            requester_id,
            channel_id,
            deadline_secs,
            n_options,
            k,
        );
        assert(msgs[0].at_secs <= deadline_secs);
        assert(!message_decides(msgs[0], requester_id, channel_id, deadline_secs, n_options));
    }
}

/// If the requester's cancellation is the first deciding observation,
/// and nothing before it is late, the session resolves to `Cancelled`
/// and claims exactly that reply.
pub proof fn lemma_cancel_reply_cancels(
    msgs: Seq<InboundRecord>,
    j: int,
    requester_id: u64,
    channel_id: u64,
    deadline_secs: u64,
    n_options: nat,
)
    requires
        0 <= j < msgs.len(),
        forall|l: int|
            0 <= l < j ==> (#[trigger] msgs[l]).at_secs <= deadline_secs && !message_decides(
                msgs[l],
                requester_id,
                channel_id,
                deadline_secs,
                n_options,
            ),
        msgs[j].at_secs <= deadline_secs,
        correlator_matches(requester_id, channel_id, msgs[j].author_id, msgs[j].channel_id),
        reply_cancels(msgs[j].body),
    ensures
        await_outcome(msgs, requester_id, channel_id, deadline_secs, n_options)
            == (AwaitOutcome {
            resolution: Resolution::Cancelled,
            reply_message_id: Some(msgs[j].message_id),
        }),
    decreases j,
{
    if j == 0 {
        assert(reply_qualifies(msgs.first().body, n_options));
    } else {
        let rest = msgs.drop_first();
        assert(forall|l: int| 0 <= l < rest.len() ==> rest[l] == msgs[l + 1]);
        lemma_cancel_reply_cancels(
            rest,
            j - 1,
            requester_id,
            channel_id,
            deadline_secs,
            n_options,
        );
    }
}

/// If no observation decides the session - every message is either past
/// the deadline, someone else's, or not a qualifying reply - the session
/// times out and claims no reply.  In particular a numeric reply beyond
/// the listed range decides nothing.
pub proof fn lemma_no_qualifying_reply_times_out(
    msgs: Seq<InboundRecord>,
    requester_id: u64,
    channel_id: u64,
    deadline_secs: u64,
    n_options: nat,
)
    requires
        forall|l: int|
            0 <= l < msgs.len() ==> !message_decides(
                #[trigger] msgs[l],
                requester_id,
                channel_id,
                deadline_secs,
                n_options,
            ),
    ensures
        await_outcome(msgs, requester_id, channel_id, deadline_secs, n_options)
            == (AwaitOutcome { resolution: Resolution::TimedOut, reply_message_id: None }),
    decreases msgs.len(),
{
    if msgs.len() > 0 && msgs.first().at_secs <= deadline_secs {
        let rest = msgs.drop_first();
        assert(forall|l: int| 0 <= l < rest.len() ==> rest[l] == msgs[l + 1]);
        assert(!message_decides(msgs[0], requester_id, channel_id, deadline_secs, n_options));
        lemma_no_qualifying_reply_times_out(
            rest,
            requester_id,
            channel_id,
            deadline_secs,
            n_options,
        );
    }
}

/// The messages of `msgs` belonging to the session keyed by
/// `(requester_id, channel_id)`, in their original order.
pub open spec fn own_replies(
    msgs: Seq<InboundRecord>,
    requester_id: u64,
    channel_id: u64,
) -> Seq<InboundRecord>
    decreases msgs.len(),
{
    if msgs.len() == 0 {
        msgs
    } else if correlator_matches(
        requester_id,
        channel_id,
        msgs.first().author_id,
        msgs.first().channel_id,
    ) {
        seq![msgs.first()] + own_replies(msgs.drop_first(), requester_id, channel_id)
    } else {
        own_replies(msgs.drop_first(), requester_id, channel_id)
    }
}

/// Everything in `own_replies` came from the original trace.
proof fn lemma_own_replies_membership(
    msgs: Seq<InboundRecord>,
    requester_id: u64,
    channel_id: u64,
)
    ensures
        forall|i: int|
            0 <= i < own_replies(msgs, requester_id, channel_id).len() ==> exists|j: int|
                0 <= j < msgs.len() && msgs[j] == #[trigger] own_replies(
                    msgs,
                    requester_id,
                    channel_id,
                )[i],
    decreases msgs.len(),
{
    if msgs.len() > 0 {
        let rest = msgs.drop_first();
        assert(forall|l: int| 0 <= l < rest.len() ==> rest[l] == msgs[l + 1]);
        lemma_own_replies_membership(rest, requester_id, channel_id);
        let own = own_replies(msgs, requester_id, channel_id);
        let own_rest = own_replies(rest, requester_id, channel_id);
        if correlator_matches(
            requester_id,
            channel_id,
            msgs.first().author_id,
            msgs.first().channel_id,
        ) {
            assert(own == seq![msgs.first()] + own_rest);
            assert forall|i: int| 0 <= i < own.len() implies exists|j: int|
                0 <= j < msgs.len() && msgs[j] == #[trigger] own[i] by {
                if i == 0 {
                    assert(own[0] == msgs[0]);
                } else {
                    assert(own[i] == own_rest[i - 1]);
                    let j = choose|j: int| 0 <= j < rest.len() && rest[j] == own_rest[i - 1];
                    assert(msgs[j + 1] == own[i]);
                }
            }
        }
    }
}

/// A trace whose observations all lie past the deadline can only time
/// the session out.
proof fn lemma_all_late_times_out(
    msgs: Seq<InboundRecord>,
    requester_id: u64,
    channel_id: u64,
    deadline_secs: u64,
    n_options: nat,
)
    requires
        forall|l: int| 0 <= l < msgs.len() ==> (#[trigger] msgs[l]).at_secs > deadline_secs,
    ensures
        await_outcome(msgs, requester_id, channel_id, deadline_secs, n_options)
            == (AwaitOutcome { resolution: Resolution::TimedOut, reply_message_id: None }),
{
    if msgs.len() > 0 {
        assert(msgs.first().at_secs > deadline_secs);
    }
}

/// A session's resolution depends only on the replies matching its own
/// `(requester_id, channel_id)` key: over a trace in time order, the
/// outcome over the whole shared feed equals the outcome over the
/// session's own messages alone.  Concurrent sessions with different
/// keys therefore resolve independently of one another.
pub proof fn lemma_resolution_depends_only_on_own_replies(
    msgs: Seq<InboundRecord>,
    requester_id: u64,
    channel_id: u64,
    deadline_secs: u64,
    n_options: nat,
)
    requires
        forall|a: int, b: int|
            0 <= a <= b < msgs.len() ==> (#[trigger] msgs[a]).at_secs <= (
            #[trigger] msgs[b]).at_secs,
    ensures
        await_outcome(msgs, requester_id, channel_id, deadline_secs, n_options) == await_outcome(
            own_replies(msgs, requester_id, channel_id),
            requester_id,
            channel_id,
            deadline_secs,
            n_options,
        ),
    decreases msgs.len(),
{
    if msgs.len() == 0 {
        return ;
    }
    let m = msgs.first();
    let rest = msgs.drop_first();
    assert(forall|l: int| 0 <= l < rest.len() ==> rest[l] == msgs[l + 1]);
    let own = own_replies(msgs, requester_id, channel_id);
    let own_rest = own_replies(rest, requester_id, channel_id);
    if correlator_matches(requester_id, channel_id, m.author_id, m.channel_id) {
        assert(own == seq![m] + own_rest);
        assert(own.first() == m);
        assert(own.drop_first() =~= own_rest);
        if m.at_secs > deadline_secs {
        } else if reply_qualifies(m.body, n_options) {
        } else {
            lemma_resolution_depends_only_on_own_replies(
                rest,
                requester_id,
                channel_id,
                deadline_secs,
                n_options,
            );
        }
    } else {
        assert(own =~= own_rest);
        if m.at_secs > deadline_secs {
            // The whole trace times out; the session's own messages are
            // all at least as late, so they time it out too.
            lemma_own_replies_membership(rest, requester_id, channel_id);
            assert forall|l: int| 0 <= l < own_rest.len() implies (
            #[trigger] own_rest[l]).at_secs > deadline_secs by {
                let j = choose|j: int| 0 <= j < rest.len() && rest[j] == own_rest[l];
                assert(msgs[0].at_secs <= msgs[j + 1].at_secs);
            }
            lemma_all_late_times_out(
                own_rest,
                requester_id,
                channel_id,
                deadline_secs,
                n_options,
            );
        } else {
            lemma_resolution_depends_only_on_own_replies(
                rest,
                requester_id,
                channel_id,
                deadline_secs,
                n_options,
            );
        }
    }
}

/// A reply can belong to at most one session key: sessions keyed by
/// different `(requester_id, channel_id)` pairs never claim the same
/// message.
pub proof fn lemma_distinct_sessions_share_no_reply(
    requester_a: u64,
    channel_a: u64,
    requester_b: u64,
    channel_b: u64,
    author_id: u64,
    from_channel_id: u64,
)
    requires
        !(requester_a == requester_b && channel_a == channel_b),
    ensures
        !(correlator_matches(requester_a, channel_a, author_id, from_channel_id)
            && correlator_matches(requester_b, channel_b, author_id, from_channel_id)),
{
}

/// Runs one whole disambiguation session: presents the options into the
/// gateway, resolves against the inbound trace, and cleans up.  Returns
/// the chosen index with the presented message's identity and channel,
/// `None` when the session was cancelled or timed out, or the delivery
/// error when the options message could not be sent.
///
/// The contract pins everything down over `session_resolution`: which
/// result comes back, and exactly which messages the gateway holds
/// afterwards - the presented message stays only for a selection that
/// the caller will edit in place, and the matched reply is removed.
pub fn run_disambiguation(
    choices: ChoiceSet,
    config: PresentationConfig,
    requester_id: u64,
    channel_id: u64,
    start_secs: u64,
    gateway: &mut GatewayModel,
    inbound: &Vec<InboundMessage>,
) -> (r: Result<Option<(usize, u64, u64)>, DeliveryError>)
    requires
        choices.well_formed(),
        config.well_formed(),
        old(gateway).wf(),
        old(gateway).next_id_headroom(),
        start_secs + REPLY_TIMEOUT_SECS <= u64::MAX,
    ensures
        final(gateway).wf(),
        final(gateway).sends_fail() == old(gateway).sends_fail(),
        match r {
            Err(_) => old(gateway).sends_fail() && final(gateway).log() == old(gateway).log(),
            Ok(choice) => {
                &&& !old(gateway).sends_fail()
                &&& ({
                    let pmid = old(gateway).next_id();
                    let sent = old(gateway).log().push(
                        MessageRecord {
                            message_id: pmid,
                            channel_id,
                            content: choice_body(choices.labels()),
                        },
                    );
                    let out = session_resolution(
                        choices.labels().len(),
                        inbound.deep_view(),
                        requester_id,
                        channel_id,
                        (start_secs + REPLY_TIMEOUT_SECS) as u64,
                    );
                    let after_reply = match out.reply_message_id {
                        Some(rid) => without_message(sent, rid),
                        None => sent,
                    };
                    let keep = out.resolution matches Resolution::Selected { .. }
                        && config.edit_after_choice();
                    &&& final(gateway).log() == (if keep {
                        after_reply
                    } else {
                        without_message(after_reply, pmid)
                    })
                    &&& match out.resolution {
                        Resolution::Selected { index } => choice == Some(
                            (index, pmid, channel_id),
                        ),
                        Resolution::Cancelled => choice is None,
                        Resolution::TimedOut => choice is None,
                        Resolution::Pending => false,
                    }
                })
            },
        },
{
    let ghost glabels = choices.labels();
    let ghost gdeadline = (start_secs + REPLY_TIMEOUT_SECS) as u64;
    let n_options = choices.len();
    let mut session = DisambiguationSession::new(choices, config, requester_id, channel_id);
    let body = session.presentation_body();
    let pmid = match gateway.send_message(channel_id, body) {
        Err(e) => {
            session.on_present_failed();
            return Err(e);
        },
        Ok(id) => id,
    };
    let ghost sent = gateway.log();
    let d = session.on_presented(pmid, start_secs);
    if let Some(id) = d.delete_presented {
        gateway.delete_message(id);
    }
    if let Some(outcome) = d.outcome {
        // A single option: auto-selected, the trace never consulted.
        return match outcome {
            SessionOutcome::Chosen { index, message } => Ok(
                Some((index, message.message_id, message.channel_id)),
            ),
            SessionOutcome::NoChoice => Ok(None),
        };
    }
    let n = inbound.len();
    let mut i: usize = 0;
    proof {
        assert(inbound.deep_view().skip(0) =~= inbound.deep_view());
    }
    while i < n
        invariant
            0 <= i <= n,
            n == inbound@.len(),
            n_options as nat == glabels.len(),
            glabels == choices.labels(),
            glabels.len() >= 2,
            start_secs + REPLY_TIMEOUT_SECS <= u64::MAX,
            gdeadline == (start_secs + REPLY_TIMEOUT_SECS) as u64,
            session.well_formed(),
            session.labels() == glabels,
            session.config() == config,
            session.requester_id() == requester_id,
            session.channel_id() == channel_id,
            session.state() == (SessionState::AwaitingReply {
                pending: crate::session::PendingChoice {
                    requester_id,
                    channel_id,
                    presented_message_id: pmid,
                    deadline_secs: gdeadline,
                    resolution: Resolution::Pending,
                },
            }),
            gateway.wf(),
            gateway.log() == sent,
            gateway.sends_fail() == old(gateway).sends_fail(),
            sent == old(gateway).log().push(
                MessageRecord {
                    message_id: pmid,
                    channel_id,
                    content: choice_body(glabels),
                },
            ),
            pmid == old(gateway).next_id(),
            !old(gateway).sends_fail(),
            await_outcome(
                inbound.deep_view().skip(i as int),
                requester_id,
                channel_id,
                gdeadline,
                glabels.len(),
            ) == await_outcome(
                inbound.deep_view(),
                requester_id,
                channel_id,
                gdeadline,
                glabels.len(),
            ),
        decreases n - i,
    {
        let ghost trace = inbound.deep_view();
        let ghost mrec = trace[i as int];
        proof {
            assert(mrec == inbound@[i as int]@);
            assert(trace.skip(i as int).first() == mrec);
            assert(trace.skip(i as int).drop_first() =~= trace.skip(i + 1));
        }
        let d = session.on_reply(
            inbound[i].author_id,
            inbound[i].channel_id,
            inbound[i].message_id,
            inbound[i].body.as_str(),
            inbound[i].at_secs,
        );
        if let Some(id) = d.delete_reply {
            gateway.delete_message(id);
        }
        if let Some(id) = d.delete_presented {
            gateway.delete_message(id);
        }
        if let Some(outcome) = d.outcome {
            proof {
                let out = session_resolution(
                    glabels.len(),
                    trace,
                    requester_id,
                    channel_id,
                    gdeadline,
                );
                assert(out == await_outcome(trace, requester_id, channel_id, gdeadline,
                    glabels.len()));
                assert(out == await_outcome(trace.skip(i as int), requester_id, channel_id,
                    gdeadline, glabels.len()));
                if mrec.at_secs > gdeadline {
                    assert(out == AwaitOutcome {
                        resolution: Resolution::TimedOut,
                        reply_message_id: None,
                    });
                    assert(outcome == SessionOutcome::NoChoice);
                    assert(gateway.log() == without_message(sent, pmid));
                } else {
                    assert(correlator_matches(requester_id, channel_id, mrec.author_id,
                        mrec.channel_id));
                    assert(reply_qualifies(mrec.body, glabels.len()));
                    assert(out == AwaitOutcome {
                        resolution: decision_of(mrec, glabels.len()),
                        reply_message_id: Some(mrec.message_id),
                    });
                    if reply_cancels(mrec.body) {
                        assert(out.resolution == Resolution::Cancelled);
                        assert(outcome == SessionOutcome::NoChoice);
                        assert(gateway.log() == without_message(
                            without_message(sent, mrec.message_id),
                            pmid,
                        ));
                    } else {
                        let index = (dec_value(trimmed(mrec.body)) - 1) as usize;
                        assert(out.resolution == Resolution::Selected { index });
                        assert(outcome == (SessionOutcome::Chosen {
                            index,
                            message: crate::presenter::PresentedMessage {
                                channel_id,
                                message_id: pmid,
                            },
                        }));
                        if config.edit_after_choice() {
                            assert(gateway.log() == without_message(sent, mrec.message_id));
                        } else {
                            assert(gateway.log() == without_message(
                                without_message(sent, mrec.message_id),
                                pmid,
                            ));
                        }
                    }
                }
            }
            return match outcome {
                SessionOutcome::Chosen { index, message } => Ok(
                    Some((index, message.message_id, message.channel_id)),
                ),
                SessionOutcome::NoChoice => Ok(None),
            };
        }
        proof {
            assert(mrec.at_secs <= gdeadline);
            assert(!(correlator_matches(requester_id, channel_id, mrec.author_id,
                mrec.channel_id) && reply_qualifies(mrec.body, glabels.len())));
            lemma_await_outcome_skip_step(
                trace,
                i as int,
                requester_id,
                channel_id,
                gdeadline,
                glabels.len(),
            );
        }
        i = i + 1;
    }
    proof {
        assert(inbound.deep_view().skip(n as int) =~= Seq::<InboundRecord>::empty());
    }
    let d = session.on_deadline();
    if let Some(id) = d.delete_presented {
        gateway.delete_message(id);
    }
    Ok(None)
}

/// Renders the final detail for a resolved session.  Only a `Selected`
/// outcome is acted on: the presented message is edited in place with
/// the detail of the chosen candidate.  For `None` - the session was
/// cancelled or timed out - there is nothing to do, since the session
/// already cleaned up.
///
/// Returns whether a message was edited: true exactly when an option
/// was chosen and its presented message is still held.
pub fn render_final_result(
    outcome: Option<(usize, u64, u64)>,
    detail: String,
    gateway: &mut GatewayModel,
) -> (edited: bool)
    ensures
        final(gateway).sends_fail() == old(gateway).sends_fail(),
        final(gateway).next_id() == old(gateway).next_id(),
        old(gateway).wf() ==> final(gateway).wf(),
        match outcome {
            Some((index, message_id, channel_id)) => {
                &&& final(gateway).log() == crate::gateway::with_edited_message(
                    old(gateway).log(),
                    message_id,
                    detail@,
                )
                &&& edited == crate::gateway::has_message(old(gateway).log(), message_id)
            },
            None => final(gateway).log() == old(gateway).log() && !edited,
        },
{
    match outcome {
        Some((_, message_id, _)) => gateway.edit_message(message_id, detail),
        None => false,
    }
}

} // verus!
