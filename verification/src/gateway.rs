//! A verified in-memory model of the chat gateway's message surface:
//! send, edit and delete, the three calls the protocol makes.  Sessions
//! are exercised against this model; a real deployment substitutes the
//! platform's own gateway and owes the same contracts.
//!
//! Deletion never raises: deleting a message that is already gone leaves
//! the store unchanged and returns like any other delete.  That
//! idempotence is part of the protocol's contract, since every exit path
//! cleans up best-effort.

use vstd::prelude::*;

verus! {

/// The send call failed (network or permission); the one gateway error
/// the protocol surfaces.
#[derive(Clone, Copy, PartialEq, Eq, Structural, Debug)]
pub struct DeliveryError;

/// What one stored message is, mathematically.
pub struct MessageRecord {
    pub message_id: u64,
    pub channel_id: u64,
    pub content: Seq<char>,
}

/// One message the gateway holds.
#[derive(Clone, Debug)]
pub struct ChannelMessage {
    pub message_id: u64,
    pub channel_id: u64,
    pub content: String,
}

impl View for ChannelMessage {
    type V = MessageRecord;

    open spec fn view(&self) -> MessageRecord {
        MessageRecord {
            message_id: self.message_id,
            channel_id: self.channel_id,
            content: self.content@,
        }
    }
}

impl DeepView for ChannelMessage {
    type V = MessageRecord;

    open spec fn deep_view(&self) -> MessageRecord {
        self.view()
    }
}

/// `m` with its content replaced.
pub open spec fn with_content(m: MessageRecord, content: Seq<char>) -> MessageRecord {
    MessageRecord { message_id: m.message_id, channel_id: m.channel_id, content }
}

/// `entries` with every message of this identity removed.
pub open spec fn without_message(entries: Seq<MessageRecord>, message_id: u64) -> Seq<
    MessageRecord,
>
    decreases entries.len(),
{
    if entries.len() == 0 {
        entries
    } else if entries.last().message_id == message_id {
        without_message(entries.drop_last(), message_id)
    } else {
        without_message(entries.drop_last(), message_id).push(entries.last())
    }
}

/// `entries` with the content of the message of this identity replaced.
pub open spec fn with_edited_message(
    entries: Seq<MessageRecord>,
    message_id: u64,
    content: Seq<char>,
) -> Seq<MessageRecord> {
    entries.map_values(
        |m: MessageRecord|
            if m.message_id == message_id {
                with_content(m, content)
            } else {
                m
            },
    )
}

/// Some stored message has this identity.
pub open spec fn has_message(entries: Seq<MessageRecord>, message_id: u64) -> bool {
    exists|i: int| 0 <= i < entries.len() && entries[i].message_id == message_id
}

/// Removing a message twice is removing it once: cleanup is idempotent,
/// so a session may delete a message another path already deleted.
pub proof fn lemma_delete_idempotent(entries: Seq<MessageRecord>, message_id: u64)
    ensures
        without_message(without_message(entries, message_id), message_id) == without_message(
            entries,
            message_id,
        ),
    decreases entries.len(),
{
    if entries.len() > 0 {
        lemma_delete_idempotent(entries.drop_last(), message_id);
        if entries.last().message_id != message_id {
            let rest = without_message(entries.drop_last(), message_id);
            let whole = rest.push(entries.last());
            assert(whole.drop_last() =~= rest);
            assert(whole.last() == entries.last());
        }
    }
}

/// A removed message is gone.
pub proof fn lemma_without_message_absent(entries: Seq<MessageRecord>, message_id: u64)
    ensures
        !has_message(without_message(entries, message_id), message_id),
    decreases entries.len(),
{
    if entries.len() > 0 {
        lemma_without_message_absent(entries.drop_last(), message_id);
        if entries.last().message_id != message_id {
            let rest = without_message(entries.drop_last(), message_id);
            let whole = rest.push(entries.last());
            assert(forall|i: int|
                0 <= i < whole.len() ==> whole[i] == (if i < rest.len() {
                    rest[i]
                } else {
                    entries.last()
                }));
        }
    }
}

/// Removing an absent message changes nothing.
pub proof fn lemma_without_message_noop(entries: Seq<MessageRecord>, message_id: u64)
    requires
        !has_message(entries, message_id),
    ensures
        without_message(entries, message_id) == entries,
    decreases entries.len(),
{
    if entries.len() > 0 {
        assert(entries.last() == entries[entries.len() - 1]);
        assert(forall|i: int|
            0 <= i < entries.drop_last().len() ==> entries.drop_last()[i] == entries[i]);
        lemma_without_message_noop(entries.drop_last(), message_id);
        assert(without_message(entries, message_id) =~= entries);
    }
}

/// The in-memory gateway.  `fail_sends` scripts a delivery failure, the
/// one hard error of the protocol.
#[derive(Clone, Debug)]
pub struct GatewayModel {
    messages: Vec<ChannelMessage>,
    next_message_id: u64,
    fail_sends: bool,
}

impl GatewayModel {
    /// Every message the gateway holds, oldest first.
    pub closed spec fn log(&self) -> Seq<MessageRecord> {
        self.messages.deep_view()
    }

    /// Whether sends are scripted to fail.
    pub closed spec fn sends_fail(&self) -> bool {
        self.fail_sends
    }

    /// Identities are unique and below the next one to be handed out.
    pub closed spec fn wf(&self) -> bool {
        &&& forall|i: int| 0 <= i < self.log().len() ==> (#[trigger] self.log()[i]).message_id
            < self.next_message_id
        &&& forall|i: int, j: int|
            0 <= i < j < self.log().len() ==> (#[trigger] self.log()[i]).message_id != (
            #[trigger] self.log()[j]).message_id
    }

    /// An empty gateway that delivers every send.
    pub fn new() -> (g: GatewayModel)
        ensures
            g.log() == Seq::<MessageRecord>::empty(),
            !g.sends_fail(),
            g.wf(),
    {
        let g = GatewayModel { messages: Vec::new(), next_message_id: 0, fail_sends: false };
        proof {
            assert(g.log() =~= Seq::<MessageRecord>::empty());
        }
        g
    }

    /// An empty gateway whose sends all fail, for exercising the
    /// delivery-error path.
    pub fn new_failing() -> (g: GatewayModel)
        ensures
            g.log() == Seq::<MessageRecord>::empty(),
            g.sends_fail(),
            g.wf(),
    {
        let g = GatewayModel { messages: Vec::new(), next_message_id: 0, fail_sends: true };
        proof {
            assert(g.log() =~= Seq::<MessageRecord>::empty());
        }
        g
    }

    /// Sends a message into a channel.  Succeeds with a fresh message
    /// identity exactly when sends are not scripted to fail.
    pub fn send_message(&mut self, channel_id: u64, content: String) -> (r: Result<
        u64,
        DeliveryError,
    >)
        requires
            old(self).wf(),
            old(self).next_id_headroom(),
        ensures
            final(self).wf(),
            final(self).sends_fail() == old(self).sends_fail(),
            match r {
                Ok(id) => {
                    &&& !old(self).sends_fail()
                    &&& id == old(self).next_id()
                    &&& final(self).next_id() == old(self).next_id() + 1
                    &&& !has_message(old(self).log(), id)
                    &&& final(self).log() == old(self).log().push(
                        MessageRecord { message_id: id, channel_id, content: content@ },
                    )
                },
                Err(_) => old(self).sends_fail() && final(self).log() == old(self).log()
                    && final(self).next_id() == old(self).next_id(),
            },
    {
        if self.fail_sends {
            return Err(DeliveryError);
        }
        let id = self.next_message_id;
        self.next_message_id = self.next_message_id + 1;
        self.messages.push(ChannelMessage { message_id: id, channel_id, content });
        proof {
            assert(self.log() =~= old(self).log().push(
                MessageRecord { message_id: id, channel_id, content: content@ },
            ));
        }
        Ok(id)
    }

    /// There is room for one more message identity.  A machine limit of
    /// the model, not of the protocol.
    pub open spec fn next_id_headroom(&self) -> bool {
        self.next_id() < u64::MAX
    }

    /// The next message identity to be handed out.
    pub closed spec fn next_id(&self) -> u64 {
        self.next_message_id
    }

    /// Deletes a message wherever it is.  Never raises: deleting a
    /// message that is already gone leaves the store as it is.
    pub fn delete_message(&mut self, message_id: u64)
        ensures
            final(self).log() == without_message(old(self).log(), message_id),
            final(self).sends_fail() == old(self).sends_fail(),
            final(self).next_id() == old(self).next_id(),
            old(self).wf() ==> final(self).wf(),
    {
        let n = self.messages.len();
        let mut kept: Vec<ChannelMessage> = Vec::new();
        let mut i: usize = 0;
        while i < n
            invariant
                0 <= i <= n,
                n == self.messages@.len(),
                kept.deep_view() == without_message(
                    self.log().take(i as int),
                    message_id,
                ),
            decreases n - i,
        {
            proof {
                assert(self.log().take(i + 1).drop_last() =~= self.log().take(i as int));
                assert(self.log().take(i + 1).last() == self.log()[i as int]);
            }
            if self.messages[i].message_id != message_id {
                let m = ChannelMessage {
                    message_id: self.messages[i].message_id,
                    channel_id: self.messages[i].channel_id,
                    content: self.messages[i].content.clone(),
                };
                proof {
                    assert(m@ == self.log()[i as int]);
                }
                kept.push(m);
                proof {
                    assert(kept.deep_view() =~= without_message(
                        self.log().take(i + 1),
                        message_id,
                    ));
                }
            }
            i = i + 1;
        }
        proof {
            assert(self.log().take(n as int) =~= self.log());
        }
        self.messages = kept;
        proof {
            if old(self).wf() {
                lemma_without_message_bounds(old(self).log(), message_id, self.next_message_id);
            }
        }
    }

    /// Replaces the content of a message.  Returns whether the message
    /// was there to edit.
    pub fn edit_message(&mut self, message_id: u64, content: String) -> (r: bool)
        ensures
            final(self).log() == with_edited_message(old(self).log(), message_id, content@),
            final(self).sends_fail() == old(self).sends_fail(),
            final(self).next_id() == old(self).next_id(),
            r == has_message(old(self).log(), message_id),
            old(self).wf() ==> final(self).wf(),
    {
        let n = self.messages.len();
        let mut edited: Vec<ChannelMessage> = Vec::new();
        let mut i: usize = 0;
        let mut found = false;
        let ghost goal = with_edited_message(old(self).log(), message_id, content@);
        while i < n
            invariant
                0 <= i <= n,
                n == self.messages@.len(),
                goal == with_edited_message(self.log(), message_id, content@),
                goal.len() == n,
                edited@.len() == i,
                forall|j: int| 0 <= j < i ==> (#[trigger] edited@[j])@ == goal[j],
                found == exists|j: int| 0 <= j < i && self.log()[j].message_id == message_id,
            decreases n - i,
        {
            let is_match = self.messages[i].message_id == message_id;
            let m = if is_match {
                proof {
                    assert(self.log()[i as int].message_id == message_id);
                }
                let channel_id = self.messages[i].channel_id;
                found = true;
                ChannelMessage { message_id, channel_id, content: content.clone() }
            } else {
                proof {
                    assert(self.log()[i as int].message_id != message_id);
                }
                ChannelMessage {
                    message_id: self.messages[i].message_id,
                    channel_id: self.messages[i].channel_id,
                    content: self.messages[i].content.clone(),
                }
            };
            proof {
                assert(m@ == goal[i as int]);
            }
            edited.push(m);
            proof {
                assert(edited@[i as int]@ == goal[i as int]);
            }
            i = i + 1;
        }
        proof {
            assert(edited.deep_view() =~= goal);
        }
        self.messages = edited;
        found
    }

    /// Whether a message with this identity is held.
    pub fn contains_message(&self, message_id: u64) -> (r: bool)
        ensures
            r == has_message(self.log(), message_id),
    {
        let n = self.messages.len();
        let mut i: usize = 0;
        while i < n
            invariant
                0 <= i <= n,
                n == self.messages@.len(),
                forall|j: int| 0 <= j < i ==> self.log()[j].message_id != message_id,
            decreases n - i,
        {
            if self.messages[i].message_id == message_id {
                proof {
                    assert(self.log()[i as int].message_id == message_id);
                }
                return true;
            }
            i = i + 1;
        }
        false
    }

    /// The content of the message with this identity, if it is held.
    pub fn message_content(&self, message_id: u64) -> (r: Option<String>)
        requires
            self.wf(),
        ensures
            match r {
                Some(s) => exists|i: int|
                    0 <= i < self.log().len() && (#[trigger] self.log()[i]).message_id
                        == message_id && self.log()[i].content == s@,
                None => !has_message(self.log(), message_id),
            },
    {
        let n = self.messages.len();
        let mut i: usize = 0;
        while i < n
            invariant
                0 <= i <= n,
                n == self.messages@.len(),
                forall|j: int| 0 <= j < i ==> self.log()[j].message_id != message_id,
            decreases n - i,
        {
            if self.messages[i].message_id == message_id {
                let s = self.messages[i].content.clone();
                proof {
                    assert(self.log()[i as int].message_id == message_id && self.log()[
                        i as int
                    ].content == s@);
                }
                return Some(s);
            }
            i = i + 1;
        }
        None
    }

    /// How many messages are held.
    pub fn message_count(&self) -> (n: usize)
        ensures
            n == self.log().len(),
    {
        self.messages.len()
    }
}

/// Every identity bound in `entries` stays bound after a removal, so the
/// gateway's well-formedness survives deletion.
proof fn lemma_without_message_bounds(entries: Seq<MessageRecord>, message_id: u64, bound: u64)
    requires
        forall|i: int| 0 <= i < entries.len() ==> (#[trigger] entries[i]).message_id < bound,
        forall|i: int, j: int|
            0 <= i < j < entries.len() ==> (#[trigger] entries[i]).message_id != (
            #[trigger] entries[j]).message_id,
    ensures
        forall|i: int|
            0 <= i < without_message(entries, message_id).len() ==> (#[trigger] without_message(
                entries,
                message_id,
            )[i]).message_id < bound,
        forall|i: int, j: int|
            0 <= i < j < without_message(entries, message_id).len() ==> (
            #[trigger] without_message(entries, message_id)[i]).message_id != (
            #[trigger] without_message(entries, message_id)[j]).message_id,
    decreases entries.len(),
{
    if entries.len() > 0 {
        let prefix = entries.drop_last();
        assert(forall|i: int| 0 <= i < prefix.len() ==> prefix[i] == entries[i]);
        assert(entries.last() == entries[entries.len() - 1]);
        lemma_without_message_bounds(prefix, message_id, bound);
        if entries.last().message_id == message_id {
            assert(without_message(entries, message_id) == without_message(prefix, message_id));
        } else {
            let rest = without_message(prefix, message_id);
            let whole = rest.push(entries.last());
            assert(without_message(entries, message_id) == whole);
            lemma_without_message_subset(prefix, message_id);
            assert(forall|i: int|
                0 <= i < whole.len() ==> whole[i] == (if i < rest.len() {
                    rest[i]
                } else {
                    entries.last()
                }));
            assert(forall|i: int|
                0 <= i < whole.len() ==> (#[trigger] whole[i]).message_id < bound);
            assert forall|i: int, j: int| 0 <= i < j < whole.len() implies (
            #[trigger] whole[i]).message_id != (#[trigger] whole[j]).message_id by {
                if j < rest.len() {
                } else {
                    assert(whole[j] == entries.last());
                    assert(exists|k: int| 0 <= k < prefix.len() && prefix[k] == whole[i]);
                    let k = choose|k: int| 0 <= k < prefix.len() && prefix[k] == whole[i];
                    assert(entries[k].message_id != entries[entries.len() - 1].message_id);
                }
            }
        }
    }
}

/// Everything that survives a removal was already there.
proof fn lemma_without_message_subset(entries: Seq<MessageRecord>, message_id: u64)
    ensures
        forall|i: int|
            0 <= i < without_message(entries, message_id).len() ==> exists|j: int|
                0 <= j < entries.len() && entries[j] == #[trigger] without_message(
                    entries,
                    message_id,
                )[i],
    decreases entries.len(),
{
    if entries.len() > 0 {
        let prefix = entries.drop_last();
        assert(forall|i: int| 0 <= i < prefix.len() ==> prefix[i] == entries[i]);
        lemma_without_message_subset(prefix, message_id);
        if entries.last().message_id != message_id {
            let rest = without_message(prefix, message_id);
            let whole = rest.push(entries.last());
            assert(forall|i: int|
                0 <= i < whole.len() ==> whole[i] == (if i < rest.len() {
                    rest[i]
                } else {
                    entries.last()
                }));
        }
    }
}

} // verus!
