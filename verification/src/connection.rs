//! The byte stream handed to callers.

use tokio::net::UnixStream;
use vstd::prelude::*;

verus! {

/// One owned, bidirectional byte stream, with no protocol and no state added
/// to it. Its view is the stream it owns.
///
/// A connection is independent of the endpoint it came from: it holds the
/// stream alone.
pub struct Connection {
    inner: UnixStream,
}

impl View for Connection {
    type V = UnixStream;

    closed spec fn view(&self) -> UnixStream {
        self.inner
    }
}

impl Connection {
    /// Takes ownership of an accepted or dialed stream.
    pub fn wrap(stream: UnixStream) -> (connection: Self)
        ensures
            connection@ == stream,
    {
        Connection { inner: stream }
    }

    /// Gives the stream back, untouched.
    pub fn into_inner(self) -> (stream: UnixStream)
        ensures
            stream == self@,
    {
        self.inner
    }

    /// The stream, for reading. Every read, write, flush and shutdown on a
    /// connection is that operation on this stream.
    pub fn get_ref(&self) -> (stream: &UnixStream)
        ensures
            *stream == self@,
    {
        &self.inner
    }

    /// The stream, for exclusive use. Whatever is done through the borrow is
    /// done to the connection's own stream.
    pub fn get_mut(&mut self) -> (stream: &mut UnixStream)
        ensures
            *stream == old(self)@,
            final(self)@ == *final(stream),
    {
        &mut self.inner
    }
}

} // verus!
