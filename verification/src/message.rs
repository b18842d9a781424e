//! The messages that actors exchange over the bus, as plain values.

use crate::service_path::{ServicePath, ServicePathView};
use crate::text::bytes_clone;
use vstd::prelude::*;

verus! {

/// The number by which a message is told apart from the others of its sender.
pub type MessageId = u64;

/// The outcome that a response reports.
#[derive(Debug, Clone, Copy, PartialEq, Eq, Structural)]
pub enum SwbusErrorCode {
    /// The request was carried out.
    NoError,
    /// The request's payload could not be understood.
    InvalidPayload,
    /// The request came from a sender that the receiver does not serve.
    InvalidSource,
    /// The receiver failed to carry out the request.
    Fail,
}

/// What a message carries.
#[derive(Debug)]
pub enum MessageBody {
    /// A request, with a payload that the receiver interprets.
    Request { payload: Vec<u8> },
    /// The response to the request `request_id`.
    Response { request_id: MessageId, error_code: SwbusErrorCode, error_message: String },
}

/// What a [`MessageBody`] stands for.
pub enum MessageBodyView {
    Request { payload: Seq<u8> },
    Response { request_id: MessageId, error_code: SwbusErrorCode, error_message: Seq<char> },
}

impl View for MessageBody {
    type V = MessageBodyView;

    open spec fn view(&self) -> MessageBodyView {
        match *self {
            MessageBody::Request { payload } => MessageBodyView::Request { payload: payload@ },
            MessageBody::Response {
                request_id,
                error_code,
                error_message,
            } => MessageBodyView::Response {
                request_id,
                error_code,
                error_message: error_message@,
            },
        }
    }
}

/// A message that arrived from the bus.
#[derive(Debug)]
pub struct IncomingMessage {
    pub id: MessageId,
    pub source: ServicePath,
    pub body: MessageBody,
}

/// A message to be sent over the bus.
#[derive(Debug)]
pub struct OutgoingMessage {
    pub destination: ServicePath,
    pub body: MessageBody,
}

/// What an [`OutgoingMessage`] stands for.
pub struct OutgoingMessageView {
    pub destination: ServicePathView,
    pub body: MessageBodyView,
}

impl View for OutgoingMessage {
    type V = OutgoingMessageView;

    open spec fn view(&self) -> OutgoingMessageView {
        OutgoingMessageView { destination: self.destination@, body: self.body@ }
    }
}

impl OutgoingMessage {
    /// A request to `destination` that carries `payload`.
    pub fn request(destination: ServicePath, payload: Vec<u8>) -> (message: Self)
        ensures
            message.destination == destination,
            message.body == (MessageBody::Request { payload }),
    {
        OutgoingMessage { destination, body: MessageBody::Request { payload } }
    }

    /// The response that tells the sender of `request` that it was carried out.
    pub fn ok_response(request: &IncomingMessage) -> (message: Self)
        ensures
            message.destination@ == request.source@,
            message.body matches MessageBody::Response { request_id, error_code, error_message }
                && request_id == request.id && error_code == SwbusErrorCode::NoError && error_message@
                == Seq::<char>::empty(),
    {
        OutgoingMessage {
            destination: request.source.clone(),
            body: MessageBody::Response {
                request_id: request.id,
                error_code: SwbusErrorCode::NoError,
                error_message: String::new(),
            },
        }
    }

    /// The response that tells the sender of `request` that it failed with
    /// `error_code`, for the reason `error_message`.
    pub fn error_response(
        request: &IncomingMessage,
        error_code: SwbusErrorCode,
        error_message: String,
    ) -> (message: Self)
        ensures
            message.destination@ == request.source@,
            message.body == (MessageBody::Response {
                request_id: request.id,
                error_code,
                error_message,
            }),
    {
        OutgoingMessage {
            destination: request.source.clone(),
            body: MessageBody::Response { request_id: request.id, error_code, error_message },
        }
    }

    /// A copy of the message.
    pub fn duplicate(&self) -> (copy: Self)
        ensures
            copy@ == self@,
    {
        let body = match &self.body {
            MessageBody::Request { payload } => MessageBody::Request {
                payload: bytes_clone(payload),
            },
            MessageBody::Response { request_id, error_code, error_message } => {
                MessageBody::Response {
                    request_id: *request_id,
                    error_code: *error_code,
                    error_message: error_message.clone(),
                }
            },
        };
        OutgoingMessage { destination: self.destination.clone(), body }
    }
}

} // verus!
