//! The subscriber set of one watched table, and the fan-out of its changes.

use crate::message::{MessageBody, OutgoingMessage};
use crate::oneshot_lazy::Receiver;
use crate::service_path::{ServicePath, ServicePathView};
use crate::text::bytes_clone;
use vstd::prelude::*;

verus! {

/// A control message to a table watcher.
#[derive(Debug)]
pub enum TableWatcherMessage {
    /// Send the table's changes to `subscriber` from now on.
    Subscribe { subscriber: ServicePath },
    /// Send `subscriber` no more changes.
    Unsubscribe { subscriber: ServicePath },
}

/// The addresses of a list of subscribers, in order.
pub open spec fn addresses(subscribers: Seq<ServicePath>) -> Seq<ServicePathView> {
    subscribers.map_values(|s: ServicePath| s@)
}

/// The subscribers once `subscriber` has subscribed: a new one goes to the
/// end, one that is subscribed already changes nothing.
pub open spec fn subscribed(subscribers: Seq<ServicePathView>, subscriber: ServicePathView) -> Seq<
    ServicePathView,
> {
    if subscribers.contains(subscriber) {
        subscribers
    } else {
        subscribers.push(subscriber)
    }
}

/// The test for an address other than `subscriber`.
pub open spec fn other_than(subscriber: ServicePathView) -> spec_fn(ServicePathView) -> bool {
    |s: ServicePathView| s != subscriber
}

/// The subscribers once `subscriber` has been taken out.
pub open spec fn unsubscribed(
    subscribers: Seq<ServicePathView>,
    subscriber: ServicePathView,
) -> Seq<ServicePathView> {
    subscribers.filter(other_than(subscriber))
}

/// The subscribers once the control message `msg` has been carried out.
pub open spec fn after_message(subscribers: Seq<ServicePathView>, msg: TableWatcherMessage) -> Seq<
    ServicePathView,
> {
    match msg {
        TableWatcherMessage::Subscribe { subscriber } => subscribed(subscribers, subscriber@),
        TableWatcherMessage::Unsubscribe { subscriber } => unsubscribed(subscribers, subscriber@),
    }
}

/// Subscribing twice is subscribing once.
pub proof fn lemma_subscribe_idempotent(
    subscribers: Seq<ServicePathView>,
    subscriber: ServicePathView,
)
    ensures
        subscribed(subscribed(subscribers, subscriber), subscriber) == subscribed(
            subscribers,
            subscriber,
        ),
{
    if !subscribers.contains(subscriber) {
        let once = subscribers.push(subscriber);
        assert(once[subscribers.len() as int] == subscriber);
    }
}

/// Unsubscribing an address that is not subscribed changes nothing.
pub proof fn lemma_unsubscribe_absent(
    subscribers: Seq<ServicePathView>,
    subscriber: ServicePathView,
)
    requires
        !subscribers.contains(subscriber),
    ensures
        unsubscribed(subscribers, subscriber) == subscribers,
{
    lemma_filter_none_out(subscribers, subscriber);
}

/// An address that was taken out of the subscribers is not among them, and
/// no request of a later fan-out goes to it.
pub proof fn lemma_unsubscribed_gets_nothing(
    subscribers: Seq<ServicePathView>,
    subscriber: ServicePathView,
    payload: Seq<u8>,
    batch: Seq<OutgoingMessage>,
)
    requires
        is_fan_out(unsubscribed(subscribers, subscriber), payload, batch),
    ensures
        !unsubscribed(subscribers, subscriber).contains(subscriber),
        forall|j: int| 0 <= j < batch.len() ==> (#[trigger] batch[j]).destination@ != subscriber,
{
    let rest = unsubscribed(subscribers, subscriber);
    assert forall|j: int| 0 <= j < rest.len() implies rest[j] != subscriber by {
        subscribers.lemma_filter_pred(other_than(subscriber), j);
    }
}

/// An address that is not subscribed stays out until it subscribes: no
/// other control message brings it in.
pub proof fn lemma_stays_unsubscribed(
    subscribers: Seq<ServicePathView>,
    subscriber: ServicePathView,
    msg: TableWatcherMessage,
)
    requires
        !subscribers.contains(subscriber),
        !(msg matches TableWatcherMessage::Subscribe { subscriber: s } && s@ == subscriber),
    ensures
        !after_message(subscribers, msg).contains(subscriber),
{
    let after = after_message(subscribers, msg);
    if after.contains(subscriber) {
        let j = after.index_of(subscriber);
        assert(0 <= j < after.len() && after[j] == subscriber);
        match msg {
            TableWatcherMessage::Subscribe { subscriber: s } => {
                if !subscribers.contains(s@) {
                    if j < subscribers.len() {
                        assert(subscribers[j] == subscriber);
                    }
                }
            },
            TableWatcherMessage::Unsubscribe { subscriber: s } => {
                subscribers.lemma_filter_contains_rev(other_than(s@), subscriber);
            },
        }
    }
}

/// The subscribers once the control messages `msgs` have been carried out,
/// one after the other.
pub open spec fn after_messages(
    subscribers: Seq<ServicePathView>,
    msgs: Seq<TableWatcherMessage>,
) -> Seq<ServicePathView>
    decreases msgs.len(),
{
    if msgs.len() == 0 {
        subscribers
    } else {
        after_message(after_messages(subscribers, msgs.drop_last()), msgs.last())
    }
}

/// Whether `msg` subscribes `subscriber`.
pub open spec fn subscribes(msg: TableWatcherMessage, subscriber: ServicePathView) -> bool {
    msg matches TableWatcherMessage::Subscribe { subscriber: s } && s@ == subscriber
}

/// An address that was taken out of the subscribers gets no change, however
/// many control messages follow, until one of them subscribes it again.
pub proof fn lemma_unsubscribed_until_subscribed(
    subscribers: Seq<ServicePathView>,
    subscriber: ServicePathView,
    msgs: Seq<TableWatcherMessage>,
    payload: Seq<u8>,
    batch: Seq<OutgoingMessage>,
)
    requires
        forall|i: int| 0 <= i < msgs.len() ==> !subscribes(#[trigger] msgs[i], subscriber),
        is_fan_out(after_messages(unsubscribed(subscribers, subscriber), msgs), payload, batch),
    ensures
        !after_messages(unsubscribed(subscribers, subscriber), msgs).contains(subscriber),
        forall|j: int| 0 <= j < batch.len() ==> (#[trigger] batch[j]).destination@ != subscriber,
{
    let rest = unsubscribed(subscribers, subscriber);
    assert forall|j: int| 0 <= j < rest.len() implies rest[j] != subscriber by {
        subscribers.lemma_filter_pred(other_than(subscriber), j);
    }
    lemma_stays_out(rest, subscriber, msgs);
    let now = after_messages(rest, msgs);
    assert forall|j: int| 0 <= j < batch.len() implies (#[trigger] batch[j]).destination@
        != subscriber by {
        assert(now[j] == batch[j].destination@);
        assert(now.contains(now[j]));
    }
}

/// An address that is not subscribed stays out through any control messages
/// that do not subscribe it.
proof fn lemma_stays_out(
    subscribers: Seq<ServicePathView>,
    subscriber: ServicePathView,
    msgs: Seq<TableWatcherMessage>,
)
    requires
        forall|i: int| 0 <= i < msgs.len() ==> !subscribes(#[trigger] msgs[i], subscriber),
        !subscribers.contains(subscriber),
    ensures
        !after_messages(subscribers, msgs).contains(subscriber),
    decreases msgs.len(),
{
    if msgs.len() > 0 {
        assert forall|i: int| 0 <= i < msgs.drop_last().len() implies !subscribes(
            #[trigger] msgs.drop_last()[i],
            subscriber,
        ) by {
            assert(!subscribes(msgs[i], subscriber));
        }
        lemma_stays_out(subscribers, subscriber, msgs.drop_last());
        assert(!subscribes(msgs[msgs.len() - 1], subscriber));
        lemma_stays_unsubscribed(
            after_messages(subscribers, msgs.drop_last()),
            subscriber,
            msgs.last(),
        );
    }
}

/// The bytes of a list of encoded changes, in order.
pub open spec fn payload_views(payloads: Seq<Vec<u8>>) -> Seq<Seq<u8>> {
    payloads.map_values(|p: Vec<u8>| p@)
}

/// Whether `batches` holds, for each of `payloads` in order, its fan-out to
/// `subscribers`.
pub open spec fn is_fan_outs(
    subscribers: Seq<ServicePathView>,
    payloads: Seq<Seq<u8>>,
    batches: Seq<Vec<OutgoingMessage>>,
) -> bool {
    &&& batches.len() == payloads.len()
    &&& forall|i: int|
        0 <= i < payloads.len() ==> is_fan_out(subscribers, payloads[i], (#[trigger] batches[i])@)
}

/// Watches one table on behalf of a changing set of subscribers.
///
/// `B` is the outbox through which the changes leave. It is bound once, after
/// the watcher was made. Changes that the table reports before that are
/// kept, in their order, and forwarded when the outbox is bound.
///
/// The subscribers are kept in a list without duplicates, in the order in
/// which they subscribed: vstd's `HashSet` says nothing of a set of
/// `ServicePath`, whose hashing it has no model of.
pub struct TableWatcher<B> {
    outbox_rx: Receiver<B>,
    subscribers: Vec<ServicePath>,
    /// The encodings of the changes that wait for the outbox.
    pending: Vec<Vec<u8>>,
}

impl<B> TableWatcher<B> {
    #[verifier::type_invariant]
    spec fn distinct_subscribers(&self) -> bool {
        addresses(self.subscribers@).no_duplicates()
    }

    /// The subscribers, in the order in which a change is sent to them.
    pub closed spec fn subscriber_seq(&self) -> Seq<ServicePathView> {
        addresses(self.subscribers@)
    }

    /// The set of subscribers.
    pub open spec fn subscribers(&self) -> Set<ServicePathView> {
        self.subscriber_seq().to_set()
    }

    /// The outbox, once it is bound.
    pub closed spec fn outbox(&self) -> Option<B> {
        match self.outbox_rx {
            Receiver::Waiting => None,
            Receiver::Received(b) => Some(b),
        }
    }

    /// The encodings of the changes that wait for the outbox, oldest first.
    pub closed spec fn pending(&self) -> Seq<Seq<u8>> {
        payload_views(self.pending@)
    }

    /// A watcher without subscribers and without waiting changes, with the
    /// outbox as `outbox_rx` has it.
    pub fn new(outbox_rx: Receiver<B>) -> (watcher: Self)
        ensures
            watcher.subscribers() == Set::<ServicePathView>::empty(),
            watcher.subscriber_seq() == Seq::<ServicePathView>::empty(),
            watcher.pending() == Seq::<Seq<u8>>::empty(),
            watcher.outbox() == match outbox_rx {
                Receiver::Waiting => None,
                Receiver::Received(b) => Some(b),
            },
    {
        let watcher = TableWatcher { outbox_rx, subscribers: Vec::new(), pending: Vec::new() };
        assert(watcher.pending() =~= Seq::<Seq<u8>>::empty());
        assert(watcher.subscriber_seq() =~= Seq::<ServicePathView>::empty());
        assert(watcher.subscribers() =~= Set::<ServicePathView>::empty());
        watcher
    }
}

impl<B> TableWatcher<B> {
    /// The position of `subscriber` in the list, if it is there.
    fn find(&self, subscriber: &ServicePath) -> (pos: Option<usize>)
        ensures
            self.subscriber_seq().no_duplicates(),
            match pos {
                Some(i) => i < self.subscriber_seq().len() && self.subscriber_seq()[i as int]
                    == subscriber@,
                None => !self.subscriber_seq().contains(subscriber@),
            },
    {
        proof {
            use_type_invariant(self);
        }
        let mut i: usize = 0;
        while i < self.subscribers.len()
            invariant
                i <= self.subscribers.len(),
                addresses(self.subscribers@).no_duplicates(),
                forall|j: int| 0 <= j < i ==> self.subscribers@[j]@ != subscriber@,
            decreases self.subscribers.len() - i,
        {
            if self.subscribers[i].eq(subscriber) {
                return Some(i);
            }
            i += 1;
        }
        assert forall|j: int| 0 <= j < self.subscriber_seq().len() implies self.subscriber_seq()[j]
            != subscriber@ by {
            assert(self.subscriber_seq()[j] == self.subscribers@[j]@);
        }
        None
    }

    /// Whether `subscriber` is subscribed.
    pub fn is_subscribed(&self, subscriber: &ServicePath) -> (subscribed: bool)
        ensures
            subscribed == self.subscribers().contains(subscriber@),
    {
        self.find(subscriber).is_some()
    }

    /// The number of subscribers.
    pub fn subscriber_count(&self) -> (n: usize)
        ensures
            n == self.subscriber_seq().len(),
            n == self.subscribers().len(),
    {
        proof {
            use_type_invariant(self);
            self.subscriber_seq().unique_seq_to_set();
        }
        self.subscribers.len()
    }

    /// Carries out a control message: `Subscribe` adds the subscriber to the
    /// set, `Unsubscribe` takes it out. Adding a subscriber that is in the
    /// set, and taking out one that is not, change nothing.
    pub fn handle_tw_msg(&mut self, msg: TableWatcherMessage)
        ensures
            final(self).outbox() == old(self).outbox(),
            final(self).pending() == old(self).pending(),
            final(self).subscriber_seq().no_duplicates(),
            match msg {
                TableWatcherMessage::Subscribe { subscriber } => final(self).subscribers() == old(
                    self,
                ).subscribers().insert(subscriber@),
                TableWatcherMessage::Unsubscribe { subscriber } => final(self).subscribers() == old(
                    self,
                ).subscribers().remove(subscriber@),
            },
            final(self).subscriber_seq() == after_message(old(self).subscriber_seq(), msg),
    {
        match msg {
            TableWatcherMessage::Subscribe { subscriber } => {
                let pos = self.find(&subscriber);
                if pos.is_none() {
                    let ghost before = self.subscribers@;
                    let mut subscribers: Vec<ServicePath> = Vec::new();
                    std::mem::swap(&mut subscribers, &mut self.subscribers);
                    subscribers.push(subscriber);
                    proof {
                        let after = subscribers@;
                        assert(addresses(after) =~= addresses(before).push(subscriber@));
                        assert forall|a: int, b: int|
                            0 <= a < after.len() && 0 <= b < after.len() && a != b implies
                                addresses(
                            after,
                        )[a] != addresses(after)[b] by {
                            if a < before.len() {
                                assert(addresses(before)[a] == addresses(after)[a]);
                            }
                            if b < before.len() {
                                assert(addresses(before)[b] == addresses(after)[b]);
                            }
                        }
                        addresses(before).lemma_push_to_set_commute(subscriber@);
                    }
                    self.subscribers = subscribers;
                } else {
                    assert(old(self).subscribers().insert(subscriber@) =~= old(self).subscribers());
                }
            },
            TableWatcherMessage::Unsubscribe { subscriber } => {
                let ghost before = self.subscribers@;
                match self.find(&subscriber) {
                    Some(i) => {
                        let mut subscribers: Vec<ServicePath> = Vec::new();
                        std::mem::swap(&mut subscribers, &mut self.subscribers);
                        let _ = subscribers.remove(i);
                        proof {
                            lemma_filter_one_out(addresses(before), i as int);
                            assert(addresses(subscribers@) =~= addresses(before).remove(i as int));
                        }
                        self.subscribers = subscribers;
                    },
                    None => {
                        proof {
                            lemma_filter_none_out(addresses(before), subscriber@);
                        }
                    },
                }
            },
        }
    }
}

/// Whether `batch` holds one request per subscriber, in the subscribers'
/// order, each with the payload `payload`.
pub open spec fn is_fan_out(
    subscribers: Seq<ServicePathView>,
    payload: Seq<u8>,
    batch: Seq<OutgoingMessage>,
) -> bool {
    &&& batch.len() == subscribers.len()
    &&& forall|j: int|
        0 <= j < subscribers.len() ==> (#[trigger] batch[j]).destination@ == subscribers[j]
            && is_request_with(batch[j], payload)
}

/// Whether `message` is a request that carries `payload`.
pub open spec fn is_request_with(message: OutgoingMessage, payload: Seq<u8>) -> bool {
    message.body matches MessageBody::Request { payload: p } && p@ == payload
}

impl<B> TableWatcher<B> {
    /// Binds the outbox, and turns the changes that waited for it into
    /// requests to the subscribers of this moment, as
    /// [`TableWatcher::handle_table_read`] does. Only the first outbox is
    /// kept: a second one is handed back and nothing changes.
    pub fn bind_outbox(&mut self, outbox: B) -> (r: Result<Vec<Vec<OutgoingMessage>>, B>)
        ensures
            final(self).subscriber_seq() == old(self).subscriber_seq(),
            match r {
                Ok(batches) => {
                    &&& old(self).outbox() is None
                    &&& final(self).outbox() == Some(outbox)
                    &&& is_fan_outs(old(self).subscriber_seq(), old(self).pending(), batches@)
                    &&& final(self).pending() == Seq::<Seq<u8>>::empty()
                },
                Err(back) => {
                    &&& old(self).outbox() is Some
                    &&& final(self).outbox() == old(self).outbox()
                    &&& final(self).pending() == old(self).pending()
                    &&& back == outbox
                },
            },
    {
        proof {
            use_type_invariant(&*self);
        }
        let mut outbox_rx: Receiver<B> = Receiver::Waiting;
        std::mem::swap(&mut outbox_rx, &mut self.outbox_rx);
        let r = outbox_rx.receive(outbox);
        self.outbox_rx = outbox_rx;
        match r {
            Ok(()) => {
                let mut waited: Vec<Vec<u8>> = Vec::new();
                std::mem::swap(&mut waited, &mut self.pending);
                assert(self.pending() =~= Seq::<Seq<u8>>::empty());
                Ok(self.fan_out(&waited))
            },
            Err(back) => Err(back),
        }
    }

    /// The outbox, once it is bound.
    pub fn get_outbox(&self) -> (outbox: Option<&B>)
        ensures
            match outbox {
                Some(b) => self.outbox() == Some(*b),
                None => self.outbox() is None,
            },
    {
        self.outbox_rx.get()
    }

    /// For each of `payloads`, in order, one request to every subscriber.
    fn fan_out(&self, payloads: &Vec<Vec<u8>>) -> (batches: Vec<Vec<OutgoingMessage>>)
        ensures
            is_fan_outs(self.subscriber_seq(), payload_views(payloads@), batches@),
    {
        let mut batches: Vec<Vec<OutgoingMessage>> = Vec::new();
        let mut i: usize = 0;
        while i < payloads.len()
            invariant
                i <= payloads.len(),
                batches@.len() == i,
                forall|k: int|
                    0 <= k < i ==> is_fan_out(
                        self.subscriber_seq(),
                        payloads@[k]@,
                        (#[trigger] batches@[k])@,
                    ),
            decreases payloads.len() - i,
        {
            let mut batch: Vec<OutgoingMessage> = Vec::new();
            let mut j: usize = 0;
            while j < self.subscribers.len()
                invariant
                    i < payloads.len(),
                    j <= self.subscribers.len(),
                    batch@.len() == j,
                    forall|k: int|
                        0 <= k < j ==> (#[trigger] batch@[k]).destination@ == self.subscribers@[k]@
                            && is_request_with(batch@[k], payloads@[i as int]@),
                decreases self.subscribers.len() - j,
            {
                batch.push(
                    OutgoingMessage::request(self.subscribers[j].clone(), bytes_clone(&payloads[i])),
                );
                j += 1;
            }
            batches.push(batch);
            i += 1;
        }
        batches
    }

    /// Takes the changes that the table reported, given by their encodings
    /// and in the table's order.
    ///
    /// Once the outbox is bound, the changes are turned into requests: for
    /// each change that waited and then for each new one, in order, one
    /// request to every subscriber, with the change's encoding as its
    /// payload. Before that nothing can be forwarded: the changes are put
    /// behind those that wait already, and no request comes out.
    pub fn handle_table_read(&mut self, payloads: Vec<Vec<u8>>) -> (batches: Vec<
        Vec<OutgoingMessage>,
    >)
        ensures
            final(self).subscriber_seq() == old(self).subscriber_seq(),
            final(self).outbox() == old(self).outbox(),
            match old(self).outbox() {
                Some(_) => {
                    &&& is_fan_outs(
                        old(self).subscriber_seq(),
                        old(self).pending() + payload_views(payloads@),
                        batches@,
                    )
                    &&& final(self).pending() == Seq::<Seq<u8>>::empty()
                },
                None => {
                    &&& batches@.len() == 0
                    &&& final(self).pending() == old(self).pending() + payload_views(payloads@)
                },
            },
    {
        proof {
            use_type_invariant(&*self);
        }
        let mut payloads = payloads;
        let mut all: Vec<Vec<u8>> = Vec::new();
        std::mem::swap(&mut all, &mut self.pending);
        let ghost waited = all@;
        let ghost new = payloads@;
        all.append(&mut payloads);
        assert(payload_views(all@) =~= payload_views(waited) + payload_views(new));
        if self.outbox_rx.get().is_some() {
            assert(self.pending() =~= Seq::<Seq<u8>>::empty());
            self.fan_out(&all)
        } else {
            self.pending = all;
            Vec::new()
        }
    }
}

/// Filtering the element at `i` out of a sequence without duplicates removes
/// that position and nothing else.
proof fn lemma_filter_one_out(s: Seq<ServicePathView>, i: int)
    requires
        s.no_duplicates(),
        0 <= i < s.len(),
    ensures
        s.filter(other_than(s[i])) == s.remove(i),
        s.remove(i).no_duplicates(),
        s.remove(i).to_set() == s.to_set().remove(s[i]),
    decreases s.len(),
{
    let keep = other_than(s[i]);
    reveal(Seq::filter);
    let n = s.len() as int;
    if i == n - 1 {
        lemma_filter_none_out(s.drop_last(), s[i]);
        assert(s.remove(i) =~= s.drop_last());
    } else {
        let rest = s.drop_last();
        lemma_filter_one_out(rest, i);
        assert(rest[i] == s[i]);
        assert(keep(s.last()));
        assert(s.remove(i) =~= rest.remove(i).push(s.last()));
    }
    assert forall|a: int, b: int|
        0 <= a < s.remove(i).len() && 0 <= b < s.remove(i).len() && a != b implies s.remove(i)[a]
        != s.remove(i)[b] by {
        let a0 = if a < i { a } else { a + 1 };
        let b0 = if b < i { b } else { b + 1 };
        assert(s.remove(i)[a] == s[a0]);
        assert(s.remove(i)[b] == s[b0]);
    }
    assert forall|x: ServicePathView|
        s.remove(i).to_set().contains(x) <==> s.to_set().remove(s[i]).contains(x) by {
        if s.remove(i).contains(x) {
            let a = s.remove(i).index_of(x);
            assert(0 <= a < s.remove(i).len() && s.remove(i)[a] == x);
            let a0 = if a < i { a } else { a + 1 };
            assert(s[a0] == x);
        }
        if s.contains(x) && x != s[i] {
            let a0 = s.index_of(x);
            assert(0 <= a0 < s.len() && s[a0] == x);
            let a = if a0 < i { a0 } else { a0 - 1 };
            assert(s.remove(i)[a] == x);
        }
    }
    assert(s.remove(i).to_set() =~= s.to_set().remove(s[i]));
}

/// Filtering out an element that a sequence does not hold changes nothing.
proof fn lemma_filter_none_out(s: Seq<ServicePathView>, x: ServicePathView)
    requires
        !s.contains(x),
    ensures
        s.filter(other_than(x)) == s,
        s.to_set().remove(x) == s.to_set(),
    decreases s.len(),
{
    reveal(Seq::filter);
    if s.len() > 0 {
        assert forall|j: int| 0 <= j < s.drop_last().len() implies s.drop_last()[j] != x by {
            assert(s[j] == s.drop_last()[j]);
        }
        lemma_filter_none_out(s.drop_last(), x);
        assert(s[s.len() - 1] != x);
        assert(s.drop_last().push(s.last()) =~= s);
    }
    assert(s.to_set().remove(x) =~= s.to_set());
}

} // verus!
