//! The broadcast broker: the single point of fan-out for one logical
//! market-data topic. It owns a registry of subscribers of two kinds and
//! delivers every published record to each of them independently.

use vstd::prelude::*;

use std::sync::mpsc::{Sender, SyncSender};

use crate::channels::{channel_send, mailbox_try_send};
use crate::types::SpotTrade;

verus! {

/// The message envelope the broker distributes. Currently a single variant;
/// designed to admit future variants without breaking subscribers.
#[derive(Copy, Clone, Debug)]
pub enum MarketDataMsg {
    SpotTrade(SpotTrade),
}

/// A direct-mailbox subscriber: a bounded, non-blocking deliver-or-fail
/// inbox, identified by a stable id assigned at creation. The broker
/// deduplicates registrations on this id.
pub struct MailboxRecipient {
    id: u64,
    tx: SyncSender<MarketDataMsg>,
}

impl MailboxRecipient {
    /// The stable identity this recipient registers under.
    pub closed spec fn spec_id(&self) -> u64 {
        self.id
    }

    pub fn new(id: u64, tx: SyncSender<MarketDataMsg>) -> (r: Self)
        ensures
            r.spec_id() == id,
    {
        MailboxRecipient { id, tx }
    }

    pub fn id(&self) -> (r: u64)
        ensures
            r == self.spec_id(),
    {
        self.id
    }
}

/// A request to register a mailbox subscriber.
pub struct Subscribe(pub MailboxRecipient);

/// No two entries of a mailbox registry share an id.
pub open spec fn distinct_ids(ids: Seq<u64>) -> bool {
    forall|i: int, j: int| 0 <= i < j < ids.len() ==> ids[i] != ids[j]
}

/// The mailbox registry after a registration: unchanged when the id is
/// already present, appended otherwise.
pub open spec fn ids_after_subscribe(ids: Seq<u64>, id: u64) -> Seq<u64> {
    if ids.contains(id) {
        ids
    } else {
        ids.push(id)
    }
}

/// How many times `id` occurs in `ids`.
pub open spec fn count_id(ids: Seq<u64>, id: u64) -> nat
    decreases ids.len(),
{
    if ids.len() == 0 {
        0
    } else {
        count_id(ids.drop_last(), id) + if ids.last() == id {
            1nat
        } else {
            0nat
        }
    }
}

proof fn lemma_count_id_absent(ids: Seq<u64>, id: u64)
    requires
        !ids.contains(id),
    ensures
        count_id(ids, id) == 0,
    decreases ids.len(),
{
    if ids.len() > 0 {
        assert(forall|k: int| 0 <= k < ids.len() ==> ids[k] != id);
        assert(!ids.drop_last().contains(id));
        lemma_count_id_absent(ids.drop_last(), id);
    }
}

proof fn lemma_count_id_distinct(ids: Seq<u64>, id: u64)
    requires
        distinct_ids(ids),
        ids.contains(id),
    ensures
        count_id(ids, id) == 1,
    decreases ids.len(),
{
    let last = ids.last();
    let rest = ids.drop_last();
    if last == id {
        assert forall|k: int| 0 <= k < rest.len() implies rest[k] != id by {
            assert(ids[k] == rest[k]);
            assert(ids[k] != ids[ids.len() - 1]);
        }
        assert(!rest.contains(id));
        lemma_count_id_absent(rest, id);
    } else {
        let w = choose|k: int| 0 <= k < ids.len() && ids[k] == id;
        assert(w < ids.len() - 1);
        assert(rest[w] == id);
        assert(rest.contains(id));
        lemma_count_id_distinct(rest, id);
    }
}

/// Law: mailbox registration is idempotent. Starting from a registry with
/// distinct ids, one `subscribe` leaves exactly one entry for the id, keeps
/// the ids distinct, and every further `subscribe` of the same id is a
/// no-op — so the registry holds exactly one entry for the id regardless of
/// how many times it was subscribed.
pub proof fn lemma_mailbox_subscribe_idempotent(ids: Seq<u64>, id: u64)
    requires
        distinct_ids(ids),
    ensures
        distinct_ids(ids_after_subscribe(ids, id)),
        ids_after_subscribe(ids, id).contains(id),
        ids_after_subscribe(ids_after_subscribe(ids, id), id) == ids_after_subscribe(ids, id),
        count_id(ids_after_subscribe(ids, id), id) == 1,
{
    let after = ids_after_subscribe(ids, id);
    if ids.contains(id) {
        lemma_count_id_distinct(ids, id);
    } else {
        assert(after == ids.push(id));
        assert(after[after.len() - 1] == id);
        assert(after.contains(id));
        assert(forall|k: int| 0 <= k < ids.len() ==> ids[k] != id);
        assert(distinct_ids(after));
        lemma_count_id_distinct(after, id);
    }
}

/// The broadcast broker. Its only state is the subscriber registry, which
/// only grows; it performs no transformation on published records.
pub struct MarketDataBrokerActor {
    recipient_subs: Vec<MailboxRecipient>,
    sender_subs: Vec<Sender<MarketDataMsg>>,
}

impl MarketDataBrokerActor {
    /// The stable ids of the registered mailbox subscribers, in registration
    /// order.
    pub closed spec fn mailbox_ids(&self) -> Seq<u64> {
        self.recipient_subs@.map_values(|r: MailboxRecipient| r.spec_id())
    }

    /// How many queue subscribers are registered.
    pub closed spec fn queue_count(&self) -> nat {
        self.sender_subs@.len()
    }

    /// Well-formed: no two mailbox subscriptions share an id.
    pub open spec fn wf(&self) -> bool {
        distinct_ids(self.mailbox_ids())
    }

    /// How many mailbox subscribers are registered.
    pub fn mailbox_count(&self) -> (r: usize)
        ensures
            r == self.mailbox_ids().len(),
    {
        self.recipient_subs.len()
    }

    /// How many queue subscribers are registered.
    pub fn sender_count(&self) -> (r: usize)
        ensures
            r == self.queue_count(),
    {
        self.sender_subs.len()
    }

    /// Registers a direct-mailbox subscriber. Idempotent: when a recipient
    /// with an equal id is already registered this is a no-op, so the same
    /// consumer is never delivered to twice.
    pub fn subscribe_recipient(&mut self, subscriber: MailboxRecipient)
        ensures
            final(self).mailbox_ids() == ids_after_subscribe(
                old(self).mailbox_ids(),
                subscriber.spec_id(),
            ),
            final(self).queue_count() == old(self).queue_count(),
            old(self).wf() ==> final(self).wf(),
            old(self).mailbox_ids().contains(subscriber.spec_id()) ==> *final(self) == *old(self),
    {
        let n = self.recipient_subs.len();
        let mut k: usize = 0;
        while k < n
            invariant
                n == self.recipient_subs.len(),
                0 <= k <= n,
                *self == *old(self),
                forall|t: int| 0 <= t < k ==> self.mailbox_ids()[t] != subscriber.spec_id(),
            decreases n - k,
        {
            if self.recipient_subs[k].id() == subscriber.id() {
                proof {
                    assert(self.mailbox_ids()[k as int] == subscriber.spec_id());
                    assert(self.mailbox_ids().contains(subscriber.spec_id()));
                }
                return ;
            }
            k = k + 1;
        }
        proof {
            assert(forall|t: int| 0 <= t < self.mailbox_ids().len() ==> self.mailbox_ids()[t]
                != subscriber.spec_id());
            assert(!self.mailbox_ids().contains(subscriber.spec_id()));
        }
        self.recipient_subs.push(subscriber);
        proof {
            assert(final(self).mailbox_ids() =~= old(self).mailbox_ids().push(
                subscriber.spec_id(),
            ));
            if old(self).wf() {
                lemma_mailbox_subscribe_idempotent(old(self).mailbox_ids(), subscriber.spec_id());
            }
        }
    }

    /// Registers a queue-style subscriber. Not deduplicated: the queue
    /// registry grows by exactly one entry per call, even for an endpoint
    /// structurally equal to one already registered. This looseness is
    /// deliberate; queue endpoints carry no identity to deduplicate on.
    pub fn subscribe_sender(&mut self, subscriber: Sender<MarketDataMsg>)
        ensures
            final(self).queue_count() == old(self).queue_count() + 1,
            final(self).mailbox_ids() == old(self).mailbox_ids(),
            old(self).wf() ==> final(self).wf(),
    {
        self.sender_subs.push(subscriber);
    }

    /// Handles a subscription request by registering its mailbox recipient.
    pub fn handle_subscribe(&mut self, msg: Subscribe)
        ensures
            final(self).mailbox_ids() == ids_after_subscribe(
                old(self).mailbox_ids(),
                msg.0.spec_id(),
            ),
            final(self).queue_count() == old(self).queue_count(),
            old(self).wf() ==> final(self).wf(),
    {
        self.subscribe_recipient(msg.0);
    }

    /// Fans one published record out to every registered subscriber: all
    /// mailbox subscribers in registration order, then all queue subscribers
    /// in registration order. Each subscriber gets exactly one delivery
    /// attempt per call — the report holds one outcome per subscriber, in
    /// that order — and a failed attempt neither stops the fan-out nor
    /// removes the subscriber nor reaches the publisher. The registry is
    /// left unchanged, so publishing the same record again attempts every
    /// subscriber again.
    pub fn handle(&mut self, msg: MarketDataMsg) -> (report: Vec<bool>)
        ensures
            report@.len() == old(self).mailbox_ids().len() + old(self).queue_count(),
            *final(self) == *old(self),
    {
        let mut report: Vec<bool> = Vec::new();
        let mut k: usize = 0;
        let n = self.recipient_subs.len();
        while k < n
            invariant
                n == self.recipient_subs.len(),
                0 <= k <= n,
                *self == *old(self),
                report@.len() == k,
            decreases n - k,
        {
            let ok = mailbox_try_send(&self.recipient_subs[k].tx, msg);
            report.push(ok);
            k = k + 1;
        }
        let mut q: usize = 0;
        let m = self.sender_subs.len();
        while q < m
            invariant
                m == self.sender_subs.len(),
                n == self.recipient_subs.len(),
                0 <= q <= m,
                *self == *old(self),
                report@.len() == n + q,
            decreases m - q,
        {
            let ok = channel_send(&self.sender_subs[q], msg);
            report.push(ok);
            q = q + 1;
        }
        report
    }
}

impl Default for MarketDataBrokerActor {
    /// A broker with an empty registry.
    fn default() -> (r: Self)
        ensures
            r.mailbox_ids() == Seq::<u64>::empty(),
            r.queue_count() == 0,
            r.wf(),
    {
        MarketDataBrokerActor { recipient_subs: Vec::new(), sender_subs: Vec::new() }
    }
}

} // verus!
