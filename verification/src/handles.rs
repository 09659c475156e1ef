//! The operating-system values that the endpoint carries but never looks
//! into. Each is declared opaque: nothing is assumed of what it holds.

use vstd::prelude::*;

verus! {

/// `std::io::Error`: an I/O failure as the platform reported it. It is passed
/// on to the caller unchanged; no contract speaks of what it holds.
#[verifier::external_type_specification]
#[verifier::external_body]
pub struct ExIoError(std::io::Error);

/// `tokio::net::UnixListener`: a listening Unix domain socket. The endpoint
/// owns at most one and hands it to the accept loop; nothing here reads it.
#[verifier::external_type_specification]
#[verifier::external_body]
pub struct ExUnixListener(tokio::net::UnixListener);

/// `tokio::net::UnixStream`: one end of a connected Unix domain socket. A
/// connection owns exactly one; nothing here reads it.
#[verifier::external_type_specification]
#[verifier::external_body]
pub struct ExUnixStream(tokio::net::UnixStream);

} // verus!
