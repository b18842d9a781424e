//! The bridge between one watched table and the bus.
//!
//! The bridge serves the control protocol by which subscribers come and go,
//! unsubscribes a subscriber when a message to it could not be delivered,
//! and turns the table's changes into requests to the current subscribers.

use crate::message::{IncomingMessage, MessageBody, MessageId, OutgoingMessage, SwbusErrorCode};
use crate::oneshot_lazy::Receiver;
use crate::row::FieldValues;
use crate::service_path::{ServicePath, ServicePathView};
use crate::table_watcher::{
    after_message, is_fan_outs, payload_views, unsubscribed, TableWatcher, TableWatcherMessage,
};
use vstd::prelude::*;

verus! {

/// What a change did to a row.
#[derive(Debug, Clone, Copy, PartialEq, Eq, Structural)]
pub enum KeyOperation {
    /// The row was written.
    Upsert,
    /// The row was deleted.
    Delete,
}

/// One change of a table: the row's key, what happened to the row, and the
/// row's fields as they are after a write.
#[derive(Debug)]
pub struct KeyOpFieldValues {
    pub key: String,
    pub operation: KeyOperation,
    pub field_values: FieldValues,
}

/// A table that reports its changes, as the bridge sees it.
pub trait ConsumerTable {
    /// Takes the pending changes off the table, oldest first.
    fn pops(&mut self) -> Vec<KeyOpFieldValues>;
}

/// Whether `message` is the request that `change` is forwarded as: it goes
/// to an address that `dest_generator` gives for the change and carries an
/// encoding that `encode` gives for it.
pub open spec fn is_routed<
    F: Fn(&KeyOpFieldValues) -> ServicePath,
    E: Fn(&KeyOpFieldValues) -> Vec<u8>,
>(dest_generator: F, encode: E, change: KeyOpFieldValues, message: OutgoingMessage) -> bool {
    &&& call_ensures(dest_generator, (&change,), message.destination)
    &&& message.body is Request
    &&& call_ensures(encode, (&change,), message.body->payload)
}

/// Whether `message` is the request that some change is forwarded as.
pub open spec fn is_routed_change<
    F: Fn(&KeyOpFieldValues) -> ServicePath,
    E: Fn(&KeyOpFieldValues) -> Vec<u8>,
>(dest_generator: F, encode: E, message: OutgoingMessage) -> bool {
    exists|change: KeyOpFieldValues| is_routed(dest_generator, encode, change, message)
}

/// Turns a table's changes into requests, one per change and in the order
/// given: the change goes to the address that `dest_generator` picks for it,
/// encoded by `encode`.
pub fn route_changes<
    F: Fn(&KeyOpFieldValues) -> ServicePath,
    E: Fn(&KeyOpFieldValues) -> Vec<u8>,
>(changes: &Vec<KeyOpFieldValues>, dest_generator: &F, encode: &E) -> (out: Vec<OutgoingMessage>)
    requires
        forall|i: int|
            0 <= i < changes@.len() ==> call_requires(*dest_generator, (&#[trigger] changes@[i],))
                && call_requires(*encode, (&changes@[i],)),
    ensures
        out@.len() == changes@.len(),
        forall|i: int|
            0 <= i < changes@.len() ==> is_routed(
                *dest_generator,
                *encode,
                changes@[i],
                #[trigger] out@[i],
            ),
{
    let mut out: Vec<OutgoingMessage> = Vec::new();
    let mut i: usize = 0;
    while i < changes.len()
        invariant
            i <= changes.len(),
            out@.len() == i,
            forall|k: int|
                0 <= k < changes@.len() ==> call_requires(
                    *dest_generator,
                    (&#[trigger] changes@[k],),
                ) && call_requires(*encode, (&changes@[k],)),
            forall|k: int|
                0 <= k < i ==> is_routed(*dest_generator, *encode, changes@[k], #[trigger] out@[k]),
        decreases changes.len() - i,
    {
        let destination = dest_generator(&changes[i]);
        let payload = encode(&changes[i]);
        out.push(OutgoingMessage::request(destination, payload));
        i += 1;
    }
    out
}

/// Takes the pending changes off `table` and turns them into requests as
/// [`route_changes`] says.
///
/// What `pops` hands out is the table's own affair. The result is tied to
/// it all the same: there is a call of `pops` that took the table from what
/// it was to what it is now, and the requests are the changes that this
/// call returned, one request per change and in their order.
pub fn forward_changes<
    T: ConsumerTable,
    F: Fn(&KeyOpFieldValues) -> ServicePath,
    E: Fn(&KeyOpFieldValues) -> Vec<u8>,
>(table: &mut T, dest_generator: &F, encode: &E) -> (out: Vec<OutgoingMessage>)
    requires
        forall|change: KeyOpFieldValues|
            call_requires(*dest_generator, (&change,)) && call_requires(*encode, (&change,)),
    ensures
        exists|popped: &mut T, changes: Vec<KeyOpFieldValues>|
            {
                &&& #[trigger] call_ensures(T::pops, (popped,), changes)
                &&& *popped == *old(table)
                &&& *final(popped) == *final(table)
                &&& out@.len() == changes@.len()
                &&& forall|i: int|
                    0 <= i < changes@.len() ==> is_routed(
                        *dest_generator,
                        *encode,
                        changes@[i],
                        #[trigger] out@[i],
                    )
            },
        forall|i: int|
            0 <= i < out@.len() ==> is_routed_change(*dest_generator, *encode, #[trigger] out@[i]),
{
    let changes = table.pops();
    let out = route_changes(&changes, dest_generator, encode);
    assert forall|i: int| 0 <= i < out@.len() implies is_routed_change(
        *dest_generator,
        *encode,
        #[trigger] out@[i],
    ) by {
        assert(is_routed(*dest_generator, *encode, changes@[i], out@[i]));
    }
    out
}

/// The reply that a decoded control payload is owed: success where the
/// payload was understood, else an error that names the reason.
pub open spec fn is_reply_to(
    reply: OutgoingMessage,
    message: IncomingMessage,
    decoded: Result<TableWatcherMessage, String>,
) -> bool {
    &&& reply.destination@ == message.source@
    &&& reply.body matches MessageBody::Response { request_id, error_code, error_message }
    &&& request_id == message.id
    &&& match decoded {
        Ok(_) => error_code == SwbusErrorCode::NoError && error_message@ == Seq::<char>::empty(),
        Err(e) => error_code == SwbusErrorCode::InvalidPayload && error_message == e,
    }
}

/// The subscribers after a control payload was handled: a payload that was
/// understood is carried out, one that was not changes nothing.
pub open spec fn after_decoded(
    subscribers: Seq<ServicePathView>,
    decoded: Result<TableWatcherMessage, String>,
) -> Seq<ServicePathView> {
    match decoded {
        Ok(msg) => after_message(subscribers, msg),
        Err(_) => subscribers,
    }
}

/// A bridge that converts the changes of one table into bus messages.
///
/// `B` is the outbox of the actor that hosts the bridge.
pub struct ConsumerBridge<B> {
    table_watcher: TableWatcher<B>,
}

impl<B> ConsumerBridge<B> {
    /// The subscribers, in the order in which a change is sent to them.
    pub closed spec fn subscriber_seq(&self) -> Seq<ServicePathView> {
        self.table_watcher.subscriber_seq()
    }

    /// The set of subscribers.
    pub open spec fn subscribers(&self) -> Set<ServicePathView> {
        self.subscriber_seq().to_set()
    }

    /// The outbox, once the bridge was initialized.
    pub closed spec fn outbox(&self) -> Option<B> {
        self.table_watcher.outbox()
    }

    /// The encodings of the changes that wait for the outbox, oldest first.
    pub closed spec fn pending(&self) -> Seq<Seq<u8>> {
        self.table_watcher.pending()
    }

    /// A bridge without subscribers that waits for its outbox.
    pub fn new() -> (bridge: Self)
        ensures
            bridge.subscriber_seq() == Seq::<ServicePathView>::empty(),
            bridge.pending() == Seq::<Seq<u8>>::empty(),
            bridge.outbox() is None,
    {
        ConsumerBridge { table_watcher: TableWatcher::new(Receiver::new()) }
    }

    /// Hands the bridge the outbox of its host, and turns the changes that
    /// waited for it into requests, as [`ConsumerBridge::handle_table_read`]
    /// does. Only the first outbox is kept: a second one is handed back and
    /// nothing changes.
    pub fn init(&mut self, outbox: B) -> (r: Result<Vec<Vec<OutgoingMessage>>, B>)
        ensures
            final(self).subscriber_seq() == old(self).subscriber_seq(),
            match r {
                Ok(batches) => {
                    &&& old(self).outbox() is None
                    &&& final(self).outbox() == Some(outbox)
                    &&& is_fan_outs(old(self).subscriber_seq(), old(self).pending(), batches@)
                    &&& final(self).pending() == Seq::<Seq<u8>>::empty()
                },
                Err(back) => {
                    &&& old(self).outbox() is Some
                    &&& final(self).outbox() == old(self).outbox()
                    &&& final(self).pending() == old(self).pending()
                    &&& back == outbox
                },
            },
    {
        self.table_watcher.bind_outbox(outbox)
    }

    /// The outbox, once the bridge was initialized.
    pub fn get_outbox(&self) -> (outbox: Option<&B>)
        ensures
            match outbox {
                Some(b) => self.outbox() == Some(*b),
                None => self.outbox() is None,
            },
    {
        self.table_watcher.get_outbox()
    }

    /// Handles a request whose payload was decoded as `decoded`.
    ///
    /// A control message is carried out and answered with success. A payload
    /// that was not understood is answered with an error that carries the
    /// decoder's reason, and the subscribers stay as they are.
    pub fn handle_decoded(
        &mut self,
        message: &IncomingMessage,
        decoded: Result<TableWatcherMessage, String>,
    ) -> (reply: OutgoingMessage)
        ensures
            final(self).outbox() == old(self).outbox(),
            final(self).pending() == old(self).pending(),
            final(self).subscriber_seq() == after_decoded(old(self).subscriber_seq(), decoded),
            is_reply_to(reply, *message, decoded),
    {
        match decoded {
            Ok(tw_msg) => {
                self.table_watcher.handle_tw_msg(tw_msg);
                OutgoingMessage::ok_response(message)
            },
            Err(e) => OutgoingMessage::error_response(message, SwbusErrorCode::InvalidPayload, e),
        }
    }

    /// Handles a message from the bus. A request is decoded with `decode`
    /// and handled as [`ConsumerBridge::handle_decoded`] says; a response
    /// changes nothing and gets no reply.
    pub fn handle_message<F: FnOnce(&Vec<u8>) -> Result<TableWatcherMessage, String>>(
        &mut self,
        message: &IncomingMessage,
        decode: F,
    ) -> (reply: Option<OutgoingMessage>)
        requires
            message.body matches MessageBody::Request { payload } ==> call_requires(
                decode,
                (&payload,),
            ),
        ensures
            final(self).outbox() == old(self).outbox(),
            final(self).pending() == old(self).pending(),
            match message.body {
                MessageBody::Request { payload } => exists|
                    decoded: Result<TableWatcherMessage, String>,
                |
                    {
                        &&& call_ensures(decode, (&payload,), decoded)
                        &&& final(self).subscriber_seq() == after_decoded(
                            old(self).subscriber_seq(),
                            decoded,
                        )
                        &&& reply matches Some(r) && is_reply_to(r, *message, decoded)
                    },
                MessageBody::Response { .. } => {
                    &&& reply is None
                    &&& final(self).subscriber_seq() == old(self).subscriber_seq()
                },
            },
    {
        match &message.body {
            MessageBody::Request { payload } => {
                let decoded = decode(payload);
                Some(self.handle_decoded(message, decoded))
            },
            MessageBody::Response { .. } => None,
        }
    }

    /// Takes `subscriber` out of the subscribers, because the message `_id`
    /// to it could not be delivered. It is taken out whether or not it is
    /// still subscribed.
    pub fn handle_message_failure(&mut self, _id: MessageId, subscriber: ServicePath)
        ensures
            final(self).outbox() == old(self).outbox(),
            final(self).pending() == old(self).pending(),
            final(self).subscriber_seq() == unsubscribed(old(self).subscriber_seq(), subscriber@),
            final(self).subscribers() == old(self).subscribers().remove(subscriber@),
            !final(self).subscribers().contains(subscriber@),
    {
        self.table_watcher.handle_tw_msg(TableWatcherMessage::Unsubscribe { subscriber });
    }

    /// Takes the changes that the table reported, given by their encodings
    /// and in the table's order.
    ///
    /// Once the bridge is initialized, the changes are turned into requests:
    /// for each change that waited and then for each new one, in order, one
    /// request to every subscriber, with the change's encoding as its
    /// payload. Before that nothing can be forwarded: the changes are put
    /// behind those that wait already, and no request comes out.
    pub fn handle_table_read(&mut self, payloads: Vec<Vec<u8>>) -> (batches: Vec<
        Vec<OutgoingMessage>,
    >)
        ensures
            final(self).subscriber_seq() == old(self).subscriber_seq(),
            final(self).outbox() == old(self).outbox(),
            match old(self).outbox() {
                Some(_) => {
                    &&& is_fan_outs(
                        old(self).subscriber_seq(),
                        old(self).pending() + payload_views(payloads@),
                        batches@,
                    )
                    &&& final(self).pending() == Seq::<Seq<u8>>::empty()
                },
                None => {
                    &&& batches@.len() == 0
                    &&& final(self).pending() == old(self).pending() + payload_views(payloads@)
                },
            },
    {
        self.table_watcher.handle_table_read(payloads)
    }
}

} // verus!
