//! The CAN port: the one place where frames leave and enter the stack.
use vstd::prelude::*;
use crate::error::Error;
use std::rc::Rc;

verus! {

/// One CAN 2.0A frame: an 11-bit identifier and up to eight data bytes.
#[derive(Debug, Clone)]
pub struct Message {
    pub id: u32,
    pub data: Vec<u8>,
}

impl Message {
    /// An empty frame on id 0.
    pub fn new() -> (r: Message)
        ensures
            r.id == 0,
            r.data@.len() == 0,
    {
        Message { id: 0, data: Vec::new() }
    }
}

/// A CAN driver. Implementations send and receive single frames; the stack
/// above decides everything else.
pub trait CanInterface {
    /// Sends one frame. A driver fails with `TooMuchData` for more than eight
    /// bytes, `IncompleteWrite` when it accepted less than a frame, `Io` on a
    /// driver error.
    fn send(&self, id: u32, message: &[u8]) -> Result<(), Error>;

    /// Waits up to `timeout_us` microseconds for one frame; `Timeout` when none came.
    fn recv(&self, timeout_us: u64) -> Result<Message, Error>;

    /// Sends `message` on its own id.
    fn send_msg(&self, message: &Message) -> Result<(), Error> {
        self.send(message.id, message.data.as_slice())
    }
}

/// Endless reception from a port: each step waits for one frame.
pub struct RecvIterator<'a, C: CanInterface> {
    interface: &'a C,
    timeout_us: u64,
}

impl<'a, C: CanInterface> RecvIterator<'a, C> {
    /// The next frame, or the port's error; there is always a next attempt.
    pub fn next(&mut self) -> (r: Option<Result<Message, Error>>)
        ensures
            r is Some,
    {
        Some(self.interface.recv(self.timeout_us))
    }
}

/// Gives a port's frames one after another.
pub trait CanInterfaceIterator: CanInterface + Sized {
    fn recv_iter(&self, timeout_us: u64) -> RecvIterator<'_, Self>;
}

impl<S: CanInterface> CanInterfaceIterator for S {
    fn recv_iter(&self, timeout_us: u64) -> RecvIterator<'_, S> {
        RecvIterator { interface: self, timeout_us }
    }
}

/// A shared port is used through its handle.
impl<C: CanInterface> CanInterface for Rc<C> {
    fn send(&self, id: u32, message: &[u8]) -> Result<(), Error> {
        (**self).send(id, message)
    }

    fn recv(&self, timeout_us: u64) -> Result<Message, Error> {
        (**self).recv(timeout_us)
    }
}

} // verus!
