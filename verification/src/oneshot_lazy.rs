//! The receiving end of a one-time handoff.
//!
//! A value is bound at most once. Before that the receiver is waiting; from
//! then on it holds the value and hands out references to it without waiting.

use vstd::prelude::*;

verus! {

/// A receiver that keeps the value it received.
pub enum Receiver<T> {
    /// Nothing was received yet.
    Waiting,
    /// The value that was received.
    Received(T),
}

impl<T> Receiver<T> {
    /// A receiver that waits for its value.
    pub fn new() -> (receiver: Self)
        ensures
            receiver is Waiting,
    {
        Receiver::Waiting
    }

    /// The value, if it was received already. `None` tells the caller to
    /// wait for the value and to bind it with [`Receiver::receive`].
    pub fn get(&self) -> (value: Option<&T>)
        ensures
            match value {
                Some(v) => *self == Receiver::Received(*v),
                None => *self is Waiting,
            },
    {
        match self {
            Receiver::Waiting => None,
            Receiver::Received(val) => Some(val),
        }
    }

    /// Binds the value that arrived. Only the first value is kept: a second
    /// one is handed back and the receiver stays as it is.
    pub fn receive(&mut self, val: T) -> (r: Result<(), T>)
        ensures
            match r {
                Ok(()) => *old(self) is Waiting && *final(self) == Receiver::Received(val),
                Err(back) => *old(self) is Received && *final(self) == *old(self) && back == val,
            },
    {
        match self {
            Receiver::Waiting => {
                *self = Receiver::Received(val);
                Ok(())
            },
            Receiver::Received(_) => Err(val),
        }
    }
}

} // verus!
