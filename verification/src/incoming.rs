//! The accept loop: what the sequence of incoming connections yields for each
//! outcome of polling the listener.

use crate::connection::Connection;
use tokio::net::UnixStream;
use vstd::prelude::*;

verus! {

/// The state of a suspended operation when it is polled.
pub enum Polled<T> {
    /// Not ready yet: the caller is suspended again.
    Pending,
    /// Completed with this value.
    Ready(T),
}

/// The next item of the sequence of incoming connections, given what polling
/// the listener for a connection came to.
///
/// An accepted stream is yielded as a [`Connection`]; the peer's address is
/// dropped. A failure to accept is yielded as an item and does not end the
/// sequence. The sequence never ends: no outcome yields `Ready(None)`.
pub fn poll_next<A>(accepted: Polled<Result<(UnixStream, A), std::io::Error>>) -> (item: Polled<
    Option<Result<Connection, std::io::Error>>,
>)
    ensures
        match accepted {
            Polled::Pending => item is Pending,
            Polled::Ready(Ok((stream, _))) => {
                &&& item matches Polled::Ready(Some(Ok(connection)))
                &&& connection@ == stream
            },
            Polled::Ready(Err(e)) => item == Polled::Ready(
                Some(Err::<Connection, std::io::Error>(e)),
            ),
        },
{
    match accepted {
        Polled::Pending => Polled::Pending,
        Polled::Ready(Ok((stream, _addr))) => Polled::Ready(Some(Ok(Connection::wrap(stream)))),
        Polled::Ready(Err(e)) => Polled::Ready(Some(Err(e))),
    }
}

} // verus!
