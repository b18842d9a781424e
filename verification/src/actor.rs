//! The driver of one actor: it hands the actor's callbacks their events and
//! keeps the books on what has to be tried again.

use crate::codec::ToFromFieldValues;
use crate::key::{Key, KeyView, OwnedKey};
use crate::key_set::{with_key, without_key, KeySet};
use crate::message::{
    IncomingMessage, MessageBody, MessageBodyView, MessageId, OutgoingMessage, OutgoingMessageView,
    SwbusErrorCode,
};
use crate::row::FieldValues;
use crate::service_path::ServicePath;
use crate::state::{OutputTable, State, StateError};
use vstd::prelude::*;

verus! {

/// Outgoing messages, which are sent when the current callback returns.
#[derive(Debug)]
pub struct Outbox {
    outgoing_messages: Vec<OutgoingMessage>,
}

impl View for Outbox {
    type V = Seq<OutgoingMessage>;

    closed spec fn view(&self) -> Seq<OutgoingMessage> {
        self.outgoing_messages@
    }
}

impl Outbox {
    /// An outbox without messages.
    pub fn new() -> (outbox: Self)
        ensures
            outbox@ == Seq::<OutgoingMessage>::empty(),
    {
        Outbox { outgoing_messages: Vec::new() }
    }

    /// Queues `message` behind the messages that wait already.
    pub fn send(&mut self, message: OutgoingMessage)
        ensures
            final(self)@ == old(self)@.push(message),
    {
        self.outgoing_messages.push(message);
    }

    /// The number of messages that wait.
    pub fn len(&self) -> (n: usize)
        ensures
            n == self@.len(),
    {
        self.outgoing_messages.len()
    }

    /// Takes the waiting messages out of the outbox, oldest first.
    pub fn take(&mut self) -> (messages: Vec<OutgoingMessage>)
        ensures
            messages@ == old(self)@,
            final(self)@ == Seq::<OutgoingMessage>::empty(),
    {
        let mut messages: Vec<OutgoingMessage> = Vec::new();
        std::mem::swap(&mut messages, &mut self.outgoing_messages);
        messages
    }
}

/// The callbacks that an actor implements.
///
/// A callback gets the actor's state and an outbox for the messages that it
/// wants sent. It leaves the state well-formed. An error that it returns is
/// recorded by the driver: a failed table update is tried again later, a
/// failed request is reported to its sender.
pub trait Actor<I: ToFromFieldValues, O: ToFromFieldValues> {
    /// Handles the request `payload` that `source` sent.
    fn handle_request(
        &mut self,
        state: &mut State<I, O>,
        outbox: &mut Outbox,
        source: ServicePath,
        payload: Vec<u8>,
    ) -> (r: Result<(), String>)
        requires
            old(state).wf(),
        ensures
            final(state).wf(),
    ;

    /// Handles the news that the input table under `key` has changed.
    fn handle_table_update(
        &mut self,
        state: &mut State<I, O>,
        outbox: &mut Outbox,
        key: Key<'_>,
    ) -> (r: Result<(), String>)
        requires
            old(state).wf(),
        ensures
            final(state).wf(),
    ;
}

/// The same values in the opposite order.
fn reversed<T>(v: Vec<T>) -> (r: Vec<T>)
    ensures
        r@.len() == v@.len(),
        forall|j: int| 0 <= j < v@.len() ==> #[trigger] r@[j] == v@[v@.len() - 1 - j],
{
    let mut v = v;
    let ghost all = v@;
    let mut r: Vec<T> = Vec::new();
    while v.len() > 0
        invariant
            v@.len() + r@.len() == all.len(),
            forall|j: int| 0 <= j < v@.len() ==> #[trigger] v@[j] == all[j],
            forall|j: int| 0 <= j < r@.len() ==> #[trigger] r@[j] == all[all.len() - 1 - j],
        decreases v.len(),
    {
        let x = v.pop().unwrap();
        r.push(x);
    }
    r
}

/// What the entries of a ledger stand for, in order.
pub open spec fn ledger_view(entries: Seq<(MessageId, OutgoingMessage)>) -> Seq<
    (MessageId, OutgoingMessageView),
> {
    entries.map_values(|e: (MessageId, OutgoingMessage)| (e.0, e.1@))
}

/// The test for a message that waits for an acknowledgement: a request.
pub open spec fn needs_ack() -> spec_fn((MessageId, OutgoingMessageView)) -> bool {
    |e: (MessageId, OutgoingMessageView)| e.1.body is Request
}

/// The test for a message with another id than `id`.
pub open spec fn other_id(id: MessageId) -> spec_fn((MessageId, OutgoingMessageView)) -> bool {
    |e: (MessageId, OutgoingMessageView)| e.0 != id
}

/// The id that is handed out `n` messages after `start`: ids count up and
/// start over after the largest.
pub open spec fn id_after(start: MessageId, n: int) -> MessageId {
    ((start + n) % 0x1_0000_0000_0000_0000) as MessageId
}

/// Whether `sent` holds `messages` in order, numbered from `first` on.
pub open spec fn numbered_from(
    sent: Seq<(MessageId, OutgoingMessage)>,
    messages: Seq<OutgoingMessage>,
    first: MessageId,
) -> bool {
    &&& sent.len() == messages.len()
    &&& forall|i: int|
        0 <= i < sent.len() ==> (#[trigger] sent[i]).0 == id_after(first, i) && sent[i].1
            == messages[i]
}

/// The failed keys after the table update of `key` was handled: a failure
/// puts the key in, a success takes it out.
pub open spec fn after_table_update(failed: Seq<KeyView>, key: KeyView, succeeded: bool) -> Seq<
    KeyView,
> {
    if succeeded {
        without_key(failed, key)
    } else {
        with_key(failed, key)
    }
}

/// Whether `reply` is the response that the request `id` from `source` is
/// owed once its handler has returned `result`: success, or a failure that
/// carries the handler's reason.
pub open spec fn is_request_reply(
    reply: OutgoingMessageView,
    source: ServicePath,
    id: MessageId,
    result: Result<(), String>,
) -> bool {
    &&& reply.destination == source@
    &&& reply.body == match result {
        Ok(()) => MessageBodyView::Response {
            request_id: id,
            error_code: SwbusErrorCode::NoError,
            error_message: Seq::<char>::empty(),
        },
        Err(e) => MessageBodyView::Response {
            request_id: id,
            error_code: SwbusErrorCode::Fail,
            error_message: e@,
        },
    }
}

/// Whether `sent` holds the messages `messages`, in order.
pub open spec fn carries(
    sent: Seq<(MessageId, OutgoingMessage)>,
    messages: Seq<OutgoingMessage>,
) -> bool {
    &&& sent.len() == messages.len()
    &&& forall|i: int| 0 <= i < sent.len() ==> (#[trigger] sent[i]).1 == messages[i]
}

/// Whether the three sequences have the lengths of a chain of `n` calls:
/// the actor and the state before each call and after the last, and what
/// each call gave to send.
pub open spec fn chain_of<A, S>(
    actors: Seq<A>,
    states: Seq<S>,
    sents: Seq<Seq<(MessageId, OutgoingMessage)>>,
    n: nat,
) -> bool {
    &&& actors.len() == n + 1
    &&& states.len() == n + 1
    &&& sents.len() == n
}

/// The keys of a list of retried table updates, in order.
pub open spec fn retried_keys(retried: Seq<(OwnedKey, bool)>) -> Seq<KeyView> {
    retried.map_values(|e: (OwnedKey, bool)| e.0@)
}

/// The test for a retried table update that failed again.
pub open spec fn failed_again() -> spec_fn((OwnedKey, bool)) -> bool {
    |e: (OwnedKey, bool)| !e.1
}

/// The keys of the retried table updates that failed again, in order.
pub open spec fn still_failed(retried: Seq<(OwnedKey, bool)>) -> Seq<KeyView> {
    retried_keys(retried.filter(failed_again()))
}

/// Ids count on: `b` messages after the id that comes `a` messages after
/// `start` is the id that comes `a + b` messages after `start`.
pub proof fn lemma_id_after_sum(start: MessageId, a: int, b: int)
    requires
        0 <= a,
        0 <= b,
    ensures
        id_after(id_after(start, a), b) == id_after(start, a + b),
{
    let m = 0x1_0000_0000_0000_0000int;
    let x = start + a;
    assert(((x % m) + b) % m == (x + b) % m) by {
        vstd::arithmetic::div_mod::lemma_add_mod_noop(x, b, m);
        vstd::arithmetic::div_mod::lemma_add_mod_noop(x % m, b, m);
        vstd::arithmetic::div_mod::lemma_mod_twice(x, m);
    }
}

/// Takes the entries with the id `id` out of a ledger.
fn drop_id(ledger: &mut Vec<(MessageId, OutgoingMessage)>, id: MessageId)
    ensures
        ledger_view(final(ledger)@) == ledger_view(old(ledger)@).filter(other_id(id)),
{
    let mut all: Vec<(MessageId, OutgoingMessage)> = Vec::new();
    std::mem::swap(&mut all, ledger);
    let ghost before = all@;
    let n = all.len();
    let mut rest = reversed(all);
    let mut i: usize = 0;
    proof {
        assert(ledger_view(before.take(0)) =~= Seq::empty());
        assert(ledger_view(before.take(0)).filter(other_id(id)) =~= Seq::empty());
        assert(ledger_view(ledger@) =~= Seq::empty());
    }
    while i < n
        invariant
            i <= n,
            n == before.len(),
            rest@.len() == n - i,
            forall|j: int| 0 <= j < n - i ==> #[trigger] rest@[j] == before[n - 1 - j],
            ledger_view(ledger@) == ledger_view(before.take(i as int)).filter(other_id(id)),
        decreases n - i,
    {
        let entry = rest.pop().unwrap();
        let ghost kept = ledger@;
        proof {
            assert(entry == before[i as int]);
            assert(before.take(i + 1) =~= before.take(i as int).push(entry));
            assert(ledger_view(before.take(i + 1)) =~= ledger_view(before.take(i as int)).push(
                (entry.0, entry.1@),
            ));
            ledger_view(before.take(i as int)).lemma_filter_push(
                (entry.0, entry.1@),
                other_id(id),
            );
        }
        if entry.0 != id {
            ledger.push(entry);
            proof {
                assert(ledger_view(ledger@) =~= ledger_view(kept).push((entry.0, entry.1@)));
            }
        }
        i += 1;
    }
    proof {
        assert(before.take(n as int) =~= before);
    }
}

/// What handling one event gave: the callback's result, and the messages
/// that have to be sent now, each with the id that it was given.
#[derive(Debug)]
pub struct Handled {
    pub result: Result<(), String>,
    pub sent: Vec<(MessageId, OutgoingMessage)>,
}

/// The news that a row of an input table has changed.
#[derive(Debug)]
pub struct TableUpdate {
    /// The key of the row.
    pub key: OwnedKey,
    /// The row as it is now.
    pub fvs: FieldValues,
}

/// What one round of maintenance gave.
#[derive(Debug)]
pub struct Maintenance {
    /// The requests that still wait for their acknowledgement, to be sent
    /// again under their ids.
    pub resent: Vec<(MessageId, OutgoingMessage)>,
    /// The table updates that were tried again, each with whether it
    /// succeeded this time.
    pub retried: Vec<(OwnedKey, bool)>,
    /// The messages that the retried handlers queued, to be sent now.
    pub sent: Vec<(MessageId, OutgoingMessage)>,
}

/// Drives a single actor.
pub struct ActorDriver<A, I, O> {
    /// The actor being driven.
    actor: A,
    /// The actor's state: its local copies of table rows.
    state: State<I, O>,
    /// The outbox that the callbacks fill.
    outbox: Outbox,
    /// Requests that were sent and not acknowledged: they are sent again
    /// during maintenance.
    unacked_outgoing_messages: Vec<(MessageId, OutgoingMessage)>,
    /// Tables that were updated, but whose update the actor failed to handle.
    failed_table_updates: KeySet,
    /// The id of the next message.
    next_id: MessageId,
}

impl<I: ToFromFieldValues, O: ToFromFieldValues, A: Actor<I, O>> ActorDriver<A, I, O> {
    /// The actor being driven.
    pub closed spec fn actor_spec(&self) -> A {
        self.actor
    }

    /// The actor's state.
    pub closed spec fn state_spec(&self) -> State<I, O> {
        self.state
    }

    /// The requests that wait for an acknowledgement, oldest first.
    pub closed spec fn unacked(&self) -> Seq<(MessageId, OutgoingMessageView)> {
        ledger_view(self.unacked_outgoing_messages@)
    }

    /// The keys of the table updates that failed and were not yet handled
    /// with success, in the order in which they failed.
    pub closed spec fn failed(&self) -> Seq<KeyView> {
        self.failed_table_updates@
    }

    /// The messages that a callback has queued and that were not handed out
    /// yet. Between two calls of the driver there are none.
    pub closed spec fn queued(&self) -> Seq<OutgoingMessage> {
        self.outbox@
    }

    /// The id that the next message gets.
    pub closed spec fn next_id(&self) -> MessageId {
        self.next_id
    }

    /// The state is well-formed, and no message waits in the outbox.
    pub closed spec fn wf(&self) -> bool {
        &&& self.state.wf()
        &&& self.outbox@.len() == 0
    }

    /// A driver for `actor`, whose state is `state`.
    pub fn new(actor: A, state: State<I, O>) -> (driver: Self)
        requires
            state.wf(),
        ensures
            driver.wf(),
            driver.actor_spec() == actor,
            driver.state_spec() == state,
            driver.unacked() == Seq::<(MessageId, OutgoingMessageView)>::empty(),
            driver.failed() == Seq::<KeyView>::empty(),
            driver.next_id() == 0,
    {
        let driver = ActorDriver {
            actor,
            state,
            outbox: Outbox::new(),
            unacked_outgoing_messages: Vec::new(),
            failed_table_updates: KeySet::new(),
            next_id: 0,
        };
        assert(driver.unacked() =~= Seq::<(MessageId, OutgoingMessageView)>::empty());
        driver
    }

    /// The actor being driven.
    pub fn actor(&self) -> (actor: &A)
        ensures
            *actor == self.actor_spec(),
    {
        &self.actor
    }

    /// The actor's state.
    pub fn state(&self) -> (state: &State<I, O>)
        requires
            self.wf(),
        ensures
            *state == self.state_spec(),
            state.wf(),
    {
        &self.state
    }

    /// Whether the table update of `key` failed and was not yet handled
    /// with success.
    pub fn has_failed(&self, key: &Key<'_>) -> (failed: bool)
        ensures
            failed == self.failed().contains(key@),
    {
        self.failed_table_updates.contains(key)
    }

    /// The number of requests that wait for an acknowledgement.
    pub fn unacked_len(&self) -> (n: usize)
        ensures
            n == self.unacked().len(),
    {
        self.unacked_outgoing_messages.len()
    }

    /// Gives up on the request `id`: it waits for its acknowledgement no
    /// longer and is not sent again. When to give up is the caller's policy.
    pub fn give_up(&mut self, id: MessageId)
        requires
            old(self).wf(),
        ensures
            final(self).wf(),
            final(self).unacked() == old(self).unacked().filter(other_id(id)),
            final(self).failed() == old(self).failed(),
            final(self).next_id() == old(self).next_id(),
            final(self).state_spec() == old(self).state_spec(),
            final(self).actor_spec() == old(self).actor_spec(),
    {
        drop_id(&mut self.unacked_outgoing_messages, id);
    }

    /// Gives up on the failed table update of `key`: it is not tried again.
    /// When to give up is the caller's policy.
    pub fn give_up_update(&mut self, key: &Key<'_>)
        requires
            old(self).wf(),
        ensures
            final(self).wf(),
            final(self).failed() == without_key(old(self).failed(), key@),
            final(self).unacked() == old(self).unacked(),
            final(self).next_id() == old(self).next_id(),
            final(self).state_spec() == old(self).state_spec(),
            final(self).actor_spec() == old(self).actor_spec(),
    {
        self.failed_table_updates.remove(key);
    }

    /// Empties the outbox: numbers the messages, notes the requests among
    /// them in the ledger, and hands all of them out for sending.
    fn flush(&mut self) -> (sent: Vec<(MessageId, OutgoingMessage)>)
        ensures
            numbered_from(sent@, old(self).outbox@, old(self).next_id),
            final(self).next_id == id_after(old(self).next_id, sent@.len() as int),
            final(self).outbox@.len() == 0,
            final(self).unacked() == old(self).unacked() + ledger_view(sent@).filter(needs_ack()),
            final(self).state == old(self).state,
            final(self).actor == old(self).actor,
            final(self).failed_table_updates == old(self).failed_table_updates,
    {
        let messages = self.outbox.take();
        let ghost all = messages@;
        let ghost first = self.next_id;
        let ghost ledger = self.unacked();
        let n = messages.len();
        let mut sent: Vec<(MessageId, OutgoingMessage)> = Vec::new();
        let mut messages = reversed(messages);
        let mut i: usize = 0;
        proof {
            assert(ledger_view(sent@) =~= Seq::empty());
            assert(ledger + ledger_view(sent@).filter(needs_ack()) =~= ledger);
        }
        while i < n
            invariant
                i <= n,
                n == all.len(),
                messages@.len() == n - i,
                forall|j: int| 0 <= j < n - i ==> #[trigger] messages@[j] == all[n - 1 - j],
                numbered_from(sent@, all.take(i as int), first),
                self.next_id == id_after(first, i as int),
                self.unacked() == ledger + ledger_view(sent@).filter(needs_ack()),
                self.outbox@.len() == 0,
                self.state == old(self).state,
                self.actor == old(self).actor,
                self.failed_table_updates == old(self).failed_table_updates,
            decreases n - i,
        {
            let message = messages.pop().unwrap();
            let id = self.next_id;
            self.next_id = if id == u64::MAX {
                0
            } else {
                id + 1
            };
            let ghost sent_before = sent@;
            let ghost unacked_before = self.unacked_outgoing_messages@;
            if let MessageBody::Request { .. } = &message.body {
                self.unacked_outgoing_messages.push((id, message.duplicate()));
            }
            sent.push((id, message));
            proof {
                let entry = (id, message@);
                assert(message == all[i as int]);
                assert(all.take(i + 1) =~= all.take(i as int).push(message));
                assert(ledger_view(sent@) =~= ledger_view(sent_before).push(entry));
                ledger_view(sent_before).lemma_filter_push(entry, needs_ack());
                if message.body is Request {
                    assert(needs_ack()(entry));
                    assert(ledger_view(self.unacked_outgoing_messages@) =~= ledger_view(
                        unacked_before,
                    ).push(entry));
                    assert(self.unacked() =~= ledger + ledger_view(sent@).filter(needs_ack()));
                } else {
                    assert(!needs_ack()(entry));
                }
            }
            i += 1;
        }
        proof {
            assert(all.take(n as int) =~= all);
        }
        sent
    }

    /// Handles a message from the bus.
    ///
    /// A request goes to the actor's request handler, which is called once,
    /// with the actor's state, an empty outbox, the sender and the payload.
    /// The sender gets the response that [`request_reply`] makes of the
    /// handler's result. The response is the last of the messages handed
    /// out, behind those that the handler queued. A response that arrives
    /// acknowledges the request that it names: that request waits no longer.
    pub fn handle_swbus_message(&mut self, message: IncomingMessage) -> (r: Handled)
        requires
            old(self).wf(),
        ensures
            final(self).wf(),
            final(self).failed() == old(self).failed(),
            forall|i: int|
                0 <= i < r.sent@.len() ==> (#[trigger] r.sent@[i]).0 == id_after(
                    old(self).next_id(),
                    i,
                ),
            final(self).next_id() == id_after(old(self).next_id(), r.sent@.len() as int),
            match message.body {
                MessageBody::Request { payload } => {
                    &&& r.sent@.len() > 0
                    &&& is_request_reply(r.sent@.last().1@, message.source, message.id, r.result)
                    &&& final(self).unacked() == old(self).unacked() + ledger_view(
                        r.sent@,
                    ).filter(needs_ack())
                    &&& exists|
                        actor: &mut A,
                        state: &mut State<I, O>,
                        outbox: &mut Outbox,
                        source: ServicePath,
                    |
                        {
                            &&& #[trigger] call_ensures(
                                A::handle_request,
                                (actor, state, outbox, source, payload),
                                r.result,
                            )
                            &&& *actor == old(self).actor_spec()
                            &&& *state == old(self).state_spec()
                            &&& outbox@.len() == 0
                            &&& source@ == message.source@
                            &&& *final(actor) == final(self).actor_spec()
                            &&& *final(state) == final(self).state_spec()
                            &&& numbered_from(
                                r.sent@.drop_last(),
                                final(outbox)@,
                                old(self).next_id(),
                            )
                        }
                },
                MessageBody::Response { request_id, .. } => {
                    &&& r.result is Ok
                    &&& r.sent@.len() == 0
                    &&& final(self).unacked() == old(self).unacked().filter(other_id(request_id))
                    &&& final(self).state_spec() == old(self).state_spec()
                    &&& final(self).actor_spec() == old(self).actor_spec()
                },
            },
    {
        let IncomingMessage { id, source, body } = message;
        match body {
            MessageBody::Request { payload } => {
                let result = self.actor.handle_request(
                    &mut self.state,
                    &mut self.outbox,
                    source.clone(),
                    payload,
                );
                let ghost queued = self.outbox@;
                self.outbox.send(request_reply(source, id, &result));
                let sent = self.flush();
                proof {
                    assert(sent@.drop_last().len() == queued.len());
                    assert forall|i: int| 0 <= i < queued.len() implies (#[trigger] sent@.drop_last()[i]).0
                        == id_after(old(self).next_id(), i) && sent@.drop_last()[i].1 == queued[i] by {
                        assert(sent@.drop_last()[i] == sent@[i]);
                    }
                }
                Handled { result, sent }
            },
            MessageBody::Response { request_id, .. } => {
                drop_id(&mut self.unacked_outgoing_messages, request_id);
                Handled { result: Ok(()), sent: Vec::new() }
            },
        }
    }

    /// Copies of the requests that wait for their acknowledgement.
    fn unacked_copies(&self) -> (copies: Vec<(MessageId, OutgoingMessage)>)
        ensures
            ledger_view(copies@) == self.unacked(),
    {
        let mut copies: Vec<(MessageId, OutgoingMessage)> = Vec::new();
        let mut i: usize = 0;
        while i < self.unacked_outgoing_messages.len()
            invariant
                i <= self.unacked_outgoing_messages.len(),
                copies@.len() == i,
                forall|j: int|
                    0 <= j < i ==> (#[trigger] copies@[j]).0 == self.unacked_outgoing_messages@[j].0
                        && copies@[j].1@ == self.unacked_outgoing_messages@[j].1@,
            decreases self.unacked_outgoing_messages.len() - i,
        {
            let id = self.unacked_outgoing_messages[i].0;
            copies.push((id, self.unacked_outgoing_messages[i].1.duplicate()));
            i += 1;
        }
        assert(ledger_view(copies@) =~= self.unacked());
        copies
    }

    /// Runs one round of maintenance.
    ///
    /// Every request that waits for its acknowledgement is handed out to be
    /// sent again. Every table update that failed is tried again, once and
    /// in the order in which the updates failed: the actor's handler is
    /// called for each, with the actor and the state as the call before left
    /// them and an empty outbox. An update that succeeds now is failed no
    /// longer, one that fails again stays. What the handlers queued is
    /// handed out in the order of the calls.
    #[verifier::spinoff_prover]
    pub fn maintenence(&mut self) -> (r: Maintenance)
        requires
            old(self).wf(),
        ensures
            final(self).wf(),
            ledger_view(r.resent@) == old(self).unacked(),
            retried_keys(r.retried@) == old(self).failed(),
            exists|
                actors: Seq<A>,
                states: Seq<State<I, O>>,
                sents: Seq<Seq<(MessageId, OutgoingMessage)>>,
            |
                {
                    &&& #[trigger] chain_of(actors, states, sents, r.retried@.len())
                    &&& actors[0] == old(self).actor_spec()
                    &&& states[0] == old(self).state_spec()
                    &&& actors.last() == final(self).actor_spec()
                    &&& states.last() == final(self).state_spec()
                    &&& r.sent@ == sents.flatten()
                    &&& forall|i: int|
                        0 <= i < r.retried@.len() ==> (#[trigger] r.retried@[i]).0@ == old(
                            self,
                        ).failed()[i] && exists|
                            actor: &mut A,
                            state: &mut State<I, O>,
                            outbox: &mut Outbox,
                            k: Key<'_>,
                            result: Result<(), String>,
                        |
                            {
                                &&& #[trigger] call_ensures(
                                    A::handle_table_update,
                                    (actor, state, outbox, k),
                                    result,
                                )
                                &&& result is Ok == r.retried@[i].1
                                &&& *actor == actors[i]
                                &&& *state == states[i]
                                &&& outbox@.len() == 0
                                &&& k@ == r.retried@[i].0@
                                &&& *final(actor) == actors[i + 1]
                                &&& *final(state) == states[i + 1]
                                &&& carries(sents[i], final(outbox)@)
                            }
                },
            final(self).failed() == still_failed(r.retried@),
            final(self).unacked() == old(self).unacked() + ledger_view(r.sent@).filter(needs_ack()),
            forall|i: int|
                0 <= i < r.sent@.len() ==> (#[trigger] r.sent@[i]).0 == id_after(
                    old(self).next_id(),
                    i,
                ),
            final(self).next_id() == id_after(old(self).next_id(), r.sent@.len() as int),
    {
        let resent = self.unacked_copies();
        let keys = self.failed_table_updates.keys();
        let ghost failed = self.failed();
        let ghost unacked = self.unacked();
        let ghost first = self.next_id();
        let mut retried: Vec<(OwnedKey, bool)> = Vec::new();
        let mut sent: Vec<(MessageId, OutgoingMessage)> = Vec::new();
        let mut i: usize = 0;
        let ghost mut actors: Seq<A> = seq![self.actor_spec()];
        let ghost mut states: Seq<State<I, O>> = seq![self.state_spec()];
        let ghost mut sents: Seq<Seq<(MessageId, OutgoingMessage)>> = Seq::empty();
        proof {
            assert(sents.flatten() =~= Seq::empty());
            assert(retried@.filter(failed_again()) =~= Seq::empty());
            assert(still_failed(retried@) =~= Seq::empty());
            assert(failed.skip(0) =~= failed);
            assert(still_failed(retried@) + failed.skip(0) =~= failed);
            assert(retried_keys(retried@) =~= failed.take(0));
            assert(ledger_view(sent@) =~= Seq::empty());
            assert(unacked + ledger_view(sent@).filter(needs_ack()) =~= unacked);
        }
        while i < keys.len()
            invariant
                i <= keys.len(),
                self.wf(),
                failed.no_duplicates(),
                crate::key_set::key_views(keys@) == failed,
                retried_keys(retried@) == failed.take(i as int),
                self.failed() == still_failed(retried@) + failed.skip(i as int),
                forall|m: int|
                    0 <= m < still_failed(retried@).len() ==> failed.take(i as int).contains(
                        #[trigger] still_failed(retried@)[m],
                    ),
                self.unacked() == unacked + ledger_view(sent@).filter(needs_ack()),
                forall|j: int| 0 <= j < sent@.len() ==>
                    (#[trigger] sent@[j]).0 == id_after(first, j),
                self.next_id() == id_after(first, sent@.len() as int),
                chain_of(actors, states, sents, i as nat),
                retried@.len() == i,
                actors[0] == old(self).actor_spec(),
                states[0] == old(self).state_spec(),
                actors[i as int] == self.actor_spec(),
                states[i as int] == self.state_spec(),
                sent@ == sents.flatten(),
                forall|j: int|
                    0 <= j < i ==> (#[trigger] retried@[j]).0@ == failed[j] && exists|
                        actor: &mut A,
                        state: &mut State<I, O>,
                        outbox: &mut Outbox,
                        k: Key<'_>,
                        result: Result<(), String>,
                    |
                        {
                            &&& #[trigger] call_ensures(
                                A::handle_table_update,
                                (actor, state, outbox, k),
                                result,
                            )
                            &&& result is Ok == retried@[j].1
                            &&& *actor == actors[j]
                            &&& *state == states[j]
                            &&& outbox@.len() == 0
                            &&& k@ == retried@[j].0@
                            &&& *final(actor) == actors[j + 1]
                            &&& *final(state) == states[j + 1]
                            &&& carries(sents[j], final(outbox)@)
                        },
            decreases keys.len() - i,
        {
            let key = keys[i].clone();
            let ghost actors_before = actors;
            let ghost states_before = states;
            let ghost sents_before = sents;
            let ghost kept = still_failed(retried@);
            let ghost rest = failed.skip(i as int);
            let ghost retried_before = retried@;
            let ghost sent_before = sent@;
            let ghost id_before = self.next_id();
            let mut handled = self.handle_table_update(keys[i].clone());
            let succeeded = handled.result.is_ok();
            let ghost now_sent = handled.sent@;
            proof {
                let k = key@;
                assert(k == failed[i as int]);
                assert(rest[0] == k);
                assert(failed.skip(i + 1) =~= rest.remove(0));
                assert(failed.take(i + 1) =~= failed.take(i as int).push(k));
                assert(!kept.contains(k)) by {
                    if kept.contains(k) {
                        let m = kept.index_of(k);
                        assert(0 <= m < kept.len() && kept[m] == k);
                        assert(failed.take(i as int).contains(kept[m]));
                        let j = failed.take(i as int).index_of(k);
                        assert(0 <= j < i && failed.take(i as int)[j] == k);
                        assert(failed[j] == failed[i as int]);
                    }
                }
                assert(rest.no_duplicates()) by {
                    assert forall|a: int, b: int|
                        0 <= a < rest.len() && 0 <= b < rest.len() && a != b implies rest[a]
                        != rest[b] by {
                        assert(rest[a] == failed[a + i]);
                        assert(rest[b] == failed[b + i]);
                    }
                }
                let entry = (key, succeeded);
                retried_before.lemma_filter_push(entry, failed_again());
                assert(retried_keys(retried_before.push(entry)) =~= retried_keys(
                    retried_before,
                ).push(k));
                if succeeded {
                    Seq::filter_distributes_over_add(kept, rest, crate::key_set::other_key(k));
                    crate::key_set::lemma_without_absent_key(kept, k);
                    crate::key_set::lemma_without_key_at(rest, 0);
                    assert(still_failed(retried_before.push(entry)) == kept);
                } else {
                    assert((kept + rest)[kept.len() as int] == k);
                    assert((kept + rest).contains(k));
                    let fails = retried_before.filter(failed_again());
                    assert(retried_keys(fails.push(entry)) =~= retried_keys(fails).push(k));
                    assert(still_failed(retried_before.push(entry)) == kept.push(k));
                    assert(kept.push(k) + failed.skip(i + 1) =~= kept + rest);
                    assert forall|m: int| 0 <= m < kept.push(k).len() implies failed.take(
                        i + 1,
                    ).contains(#[trigger] kept.push(k)[m]) by {
                        if m < kept.len() {
                            let x = kept[m];
                            assert(failed.take(i as int).contains(x));
                            let j = failed.take(i as int).index_of(x);
                            assert(0 <= j < i && failed.take(i as int)[j] == x);
                            assert(failed.take(i + 1)[j] == x);
                        } else {
                            assert(failed.take(i + 1)[i as int] == k);
                        }
                    }
                }
                if succeeded {
                    assert forall|m: int| 0 <= m < kept.len() implies failed.take(i + 1).contains(
                        #[trigger] kept[m],
                    ) by {
                        let x = kept[m];
                        assert(failed.take(i as int).contains(x));
                        let j = failed.take(i as int).index_of(x);
                        assert(0 <= j < i && failed.take(i as int)[j] == x);
                        assert(failed.take(i + 1)[j] == x);
                    }
                }
                // The messages of this update follow those of the updates before it.
                let now = handled.sent@;
                assert(ledger_view(sent_before + now) =~= ledger_view(sent_before) + ledger_view(
                    now,
                ));
                Seq::filter_distributes_over_add(
                    ledger_view(sent_before),
                    ledger_view(now),
                    needs_ack(),
                );
                assert(unacked + (ledger_view(sent_before).filter(needs_ack()) + ledger_view(
                    now,
                ).filter(needs_ack())) =~= (unacked + ledger_view(sent_before).filter(
                    needs_ack(),
                )) + ledger_view(now).filter(needs_ack()));
                assert forall|j: int| 0 <= j < (sent_before + now).len() implies (
                #[trigger] (sent_before + now)[j]).0 == id_after(first, j) by {
                    if j >= sent_before.len() {
                        lemma_id_after_sum(first, sent_before.len() as int, j - sent_before.len());
                        assert((sent_before + now)[j] == now[j - sent_before.len()]);
                    }
                }
                lemma_id_after_sum(first, sent_before.len() as int, now.len() as int);
            }
            proof {
                actors = actors.push(self.actor_spec());
                states = states.push(self.state_spec());
                sents = sents.push(handled.sent@);
                sents_before.lemma_flatten_push(handled.sent@);
            }
            retried.push((key, succeeded));
            sent.append(&mut handled.sent);
            i += 1;
            proof {
                let n = i as int - 1;
                assert forall|j: int| 0 <= j < i implies (#[trigger] retried@[j]).0@ == failed[j]
                    && exists|
                        actor: &mut A,
                        state: &mut State<I, O>,
                        outbox: &mut Outbox,
                        k: Key<'_>,
                        result: Result<(), String>,
                    |
                        {
                            &&& #[trigger] call_ensures(
                                A::handle_table_update,
                                (actor, state, outbox, k),
                                result,
                            )
                            &&& result is Ok == retried@[j].1
                            &&& *actor == actors[j]
                            &&& *state == states[j]
                            &&& outbox@.len() == 0
                            &&& k@ == retried@[j].0@
                            &&& *final(actor) == actors[j + 1]
                            &&& *final(state) == states[j + 1]
                            &&& carries(sents[j], final(outbox)@)
                        } by {
                    if j < n {
                        assert(retried@[j] == retried_before[j]);
                        assert(actors[j] == actors_before[j]);
                        assert(actors[j + 1] == actors_before[j + 1]);
                        assert(states[j] == states_before[j]);
                        assert(states[j + 1] == states_before[j + 1]);
                        assert(sents[j] == sents_before[j]);
                    } else {
                        assert(retried@[j].1 == succeeded);
                        assert(retried@[j].0@ == failed[j]);
                        assert(actors[j] == actors_before[n]);
                        assert(states[j] == states_before[n]);
                        assert(actors[j + 1] == self.actor_spec());
                        assert(states[j + 1] == self.state_spec());
                        assert(sents[j] == now_sent);
                    }
                }
            }
        }
        proof {
            assert(failed.skip(keys.len() as int) =~= Seq::empty());
            assert(still_failed(retried@) + failed.skip(keys.len() as int) =~= still_failed(
                retried@,
            ));
            assert(failed.take(keys.len() as int) =~= failed);
        }
        Maintenance { resent, retried, sent }
    }

    /// Takes over the new row of an input table and tells the actor that the
    /// table has changed, as [`ActorDriver::handle_table_update`] says. The
    /// handler sees the state in which the table has the new row and no memo.
    ///
    /// An update for a key under which no input table is registered is
    /// refused, and nothing changes.
    pub fn handle_update(&mut self, update: TableUpdate) -> (r: Result<Handled, StateError>)
        requires
            old(self).wf(),
        ensures
            final(self).wf(),
            r is Ok <==> old(self).state_spec().inputs().contains_key(update.key@),
            match r {
                Ok(handled) => {
                    &&& exists|
                        actor: &mut A,
                        state: &mut State<I, O>,
                        outbox: &mut Outbox,
                        k: Key<'_>,
                    |
                        {
                            &&& #[trigger] call_ensures(
                                A::handle_table_update,
                                (actor, state, outbox, k),
                                handled.result,
                            )
                            &&& *actor == old(self).actor_spec()
                            &&& state.inputs() == old(self).state_spec().inputs().insert(
                                update.key@,
                                state.inputs()[update.key@],
                            )
                            &&& state.inputs()[update.key@].row() == update.fvs@
                            &&& state.inputs()[update.key@].cached() is None
                            &&& state.outputs() == old(self).state_spec().outputs()
                            &&& state.output_keys() == old(self).state_spec().output_keys()
                            &&& outbox@.len() == 0
                            &&& k@ == update.key@
                            &&& *final(actor) == final(self).actor_spec()
                            &&& *final(state) == final(self).state_spec()
                            &&& numbered_from(
                                handled.sent@,
                                final(outbox)@,
                                old(self).next_id(),
                            )
                        }
                    &&& final(self).failed() == after_table_update(
                        old(self).failed(),
                        update.key@,
                        handled.result is Ok,
                    )
                    &&& final(self).unacked() == old(self).unacked() + ledger_view(
                        handled.sent@,
                    ).filter(needs_ack())
                    &&& forall|i: int|
                        0 <= i < handled.sent@.len() ==> (#[trigger] handled.sent@[i]).0
                            == id_after(old(self).next_id(), i)
                    &&& final(self).next_id() == id_after(
                        old(self).next_id(),
                        handled.sent@.len() as int,
                    )
                },
                Err(e) => {
                    &&& e == StateError::NotFound
                    &&& final(self).state_spec() == old(self).state_spec()
                    &&& final(self).actor_spec() == old(self).actor_spec()
                    &&& final(self).failed() == old(self).failed()
                    &&& final(self).unacked() == old(self).unacked()
                    &&& final(self).next_id() == old(self).next_id()
                },
            },
    {
        let TableUpdate { key, fvs } = update;
        if !self.state.has_input(key.borrow()) {
            return Err(StateError::NotFound);
        }
        self.state.input(key.borrow().as_ref()).update(fvs);
        Ok(self.handle_table_update(key))
    }

    /// Drains the dirty output tables of the actor's state: hands out every
    /// output table that was modified since the last drain, and clears its
    /// flag.
    pub fn drain_dirty_outputs(&mut self) -> (dirty: Vec<&OutputTable<O>>)
        requires
            old(self).wf(),
        ensures
            final(self).wf(),
            old(self).state_spec().drained(&final(self).state_spec()),
            dirty@.len() == old(self).state_spec().dirty_tables().len(),
            forall|m: int|
                0 <= m < dirty@.len() ==> *(#[trigger] dirty@[m]) == old(
                    self,
                ).state_spec().dirty_tables()[m],
            final(self).failed() == old(self).failed(),
            final(self).unacked() == old(self).unacked(),
            final(self).next_id() == old(self).next_id(),
            final(self).actor_spec() == old(self).actor_spec(),
    {
        self.state.iter_dirty_output_tables()
    }

    /// Notes how the table update of `key` went: a failure puts `key` among
    /// the failed table updates, for maintenance to try again; a success
    /// takes it out.
    pub fn record_table_update(&mut self, key: OwnedKey, succeeded: bool)
        ensures
            old(self).wf() ==> final(self).wf(),
            final(self).failed() == after_table_update(old(self).failed(), key@, succeeded),
            final(self).failed().no_duplicates(),
            final(self).unacked() == old(self).unacked(),
            final(self).next_id() == old(self).next_id(),
            final(self).state_spec() == old(self).state_spec(),
            final(self).actor_spec() == old(self).actor_spec(),
            final(self).queued() == old(self).queued(),
    {
        if succeeded {
            self.failed_table_updates.remove(key.borrow());
        } else {
            self.failed_table_updates.insert(key);
        }
    }

    /// Tells the actor that the input table under `key` has changed.
    ///
    /// The actor's handler is called once, with the actor's state, an empty
    /// outbox and `key`. How it went is noted as
    /// [`ActorDriver::record_table_update`] says. The messages that the
    /// handler queued are numbered and handed out, and the requests among
    /// them wait for their acknowledgement from now on.
    pub fn handle_table_update(&mut self, key: OwnedKey) -> (r: Handled)
        requires
            old(self).wf(),
        ensures
            final(self).wf(),
            exists|actor: &mut A, state: &mut State<I, O>, outbox: &mut Outbox, k: Key<'_>|
                {
                    &&& #[trigger] call_ensures(
                        A::handle_table_update,
                        (actor, state, outbox, k),
                        r.result,
                    )
                    &&& *actor == old(self).actor_spec()
                    &&& *state == old(self).state_spec()
                    &&& outbox@.len() == 0
                    &&& k@ == key@
                    &&& *final(actor) == final(self).actor_spec()
                    &&& *final(state) == final(self).state_spec()
                    &&& numbered_from(r.sent@, final(outbox)@, old(self).next_id())
                },
            final(self).failed() == after_table_update(old(self).failed(), key@, r.result is Ok),
            final(self).failed().no_duplicates(),
            final(self).unacked() == old(self).unacked() + ledger_view(r.sent@).filter(needs_ack()),
            forall|i: int|
                0 <= i < r.sent@.len() ==> (#[trigger] r.sent@[i]).0 == id_after(
                    old(self).next_id(),
                    i,
                ),
            final(self).next_id() == id_after(old(self).next_id(), r.sent@.len() as int),
    {
        let result = self.actor.handle_table_update(
            &mut self.state,
            &mut self.outbox,
            key.borrow().as_ref(),
        );
        self.record_table_update(key, result.is_ok());
        let sent = self.flush();
        Handled { result, sent }
    }
}

/// The response that the request `id` from `source` is owed once its handler
/// has returned `result`: success, or a failure that carries the handler's
/// reason.
pub fn request_reply(source: ServicePath, id: MessageId, result: &Result<(), String>) -> (reply:
    OutgoingMessage)
    ensures
        is_request_reply(reply@, source, id, *result),
{
    let (error_code, error_message) = match result {
        Ok(()) => (SwbusErrorCode::NoError, String::new()),
        Err(e) => (SwbusErrorCode::Fail, e.clone()),
    };
    OutgoingMessage {
        destination: source,
        body: MessageBody::Response { request_id: id, error_code, error_message },
    }
}

} // verus!
