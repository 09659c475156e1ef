//! The owner of a listening socket: its path, its permission policy and the
//! listener itself.

use crate::connection::Connection;
use crate::error::Error;
use crate::security::{is_permission_plan, PermissionChange, SecurityAttributes, OWNER_ONLY};
use tokio::net::{UnixListener, UnixStream};
use vstd::prelude::*;

verus! {

/// What an endpoint is, to its contracts.
pub struct EndpointView {
    /// The filesystem address, fixed at construction.
    pub path: Seq<char>,
    /// The permission bits that the next bind will stamp on the node, if any.
    pub attributes: Option<u16>,
    /// The listening socket, once one has been bound.
    pub listener: Option<UnixListener>,
}

/// A local endpoint, addressed by a filesystem path.
///
/// It starts unbound. A successful bind makes it bound, and it stays bound
/// from then on; a later successful bind replaces the listener it owns, so it
/// never owns more than one. The path never changes.
pub struct Endpoint {
    path: String,
    security_attributes: SecurityAttributes,
    unix_listener: Option<UnixListener>,
}

impl View for Endpoint {
    type V = EndpointView;

    closed spec fn view(&self) -> EndpointView {
        EndpointView {
            path: self.path@,
            attributes: self.security_attributes@,
            listener: self.unix_listener,
        }
    }
}

impl Endpoint {
    /// A new, unbound endpoint at `path`, open to the owner only. Nothing is
    /// touched in the filesystem.
    pub fn new(path: String) -> (endpoint: Self)
        ensures
            endpoint@ == (EndpointView {
                path: path@,
                attributes: Some(OWNER_ONLY),
                listener: None,
            }),
    {
        Endpoint { path, security_attributes: SecurityAttributes::empty(), unix_listener: None }
    }

    /// The path of the endpoint.
    pub fn path(&self) -> (path: &str)
        ensures
            path@ == self@.path,
    {
        self.path.as_str()
    }

    /// Replaces the permission policy. It takes effect at the next bind; a
    /// listener that is already bound keeps the bits it was given.
    pub fn set_security_attributes(&mut self, security_attributes: SecurityAttributes)
        ensures
            final(self)@ == (EndpointView { attributes: security_attributes@, ..old(self)@ }),
    {
        self.security_attributes = security_attributes;
    }

    /// The permission policy in force.
    pub fn security_attributes(&self) -> (attrs: SecurityAttributes)
        ensures
            attrs@ == self@.attributes,
    {
        self.security_attributes
    }

    /// Whether the endpoint owns a listener.
    pub fn is_bound(&self) -> (bound: bool)
        ensures
            bound == self@.listener is Some,
    {
        self.unix_listener.is_some()
    }

    /// Starts a session of incoming connections, given what binding a
    /// listener at [`path`](Self::path) came to.
    ///
    /// Where the bind failed, the failure is reported and the endpoint is
    /// left exactly as it was, a listener from an earlier session included.
    /// Where it succeeded, the endpoint takes the new listener, releasing any
    /// earlier one, and the result plans the stamping of the current
    /// attributes on the fresh node: see [`is_permission_plan`]. The listener
    /// stays with the endpoint even where that plan is a failure.
    pub fn incoming(&mut self, bound: Result<UnixListener, std::io::Error>) -> (plan: Result<
        Option<PermissionChange>,
        Error,
    >)
        ensures
            match bound {
                Ok(listener) => {
                    &&& final(self)@ == (EndpointView { listener: Some(listener), ..old(self)@ })
                    &&& is_permission_plan(old(self)@.attributes, old(self)@.path, plan)
                },
                Err(e) => {
                    &&& final(self)@ == old(self)@
                    &&& plan == Err::<Option<PermissionChange>, Error>(Error::Bind(e))
                },
            },
    {
        match bound {
            Ok(listener) => {
                self.unix_listener = Some(listener);
                self.security_attributes.apply_permissions(self.path.as_str())
            },
            Err(e) => Err(Error::Bind(e)),
        }
    }

    /// The listener, for the exclusive use of one accept loop. While the
    /// borrow lives the endpoint cannot be used, so no second loop can be
    /// started on it. `None` while the endpoint is unbound.
    pub fn listener_mut(&mut self) -> (listener: Option<&mut UnixListener>)
        ensures
            match listener {
                Some(l) => {
                    &&& old(self)@.listener == Some(*l)
                    &&& final(self)@ == (EndpointView { listener: Some(*final(l)), ..old(self)@ })
                },
                None => {
                    &&& old(self)@.listener is None
                    &&& final(self)@ == old(self)@
                },
            },
    {
        match &mut self.unix_listener {
            Some(l) => Some(l),
            None => None,
        }
    }

    /// Completes an outbound dial: a stream that connected becomes a
    /// [`Connection`], a failure is handed on unchanged.
    pub fn connect(dialed: Result<UnixStream, std::io::Error>) -> (r: Result<
        Connection,
        std::io::Error,
    >)
        ensures
            match dialed {
                Ok(stream) => r matches Ok(connection) && connection@ == stream,
                Err(e) => r == Err::<Connection, std::io::Error>(e),
            },
    {
        match dialed {
            Ok(stream) => Ok(Connection::wrap(stream)),
            Err(e) => Err(e),
        }
    }
}

} // verus!
