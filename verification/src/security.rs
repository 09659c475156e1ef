//! Permission bits of the socket's filesystem node, and how they are put on
//! it.

use crate::error::Error;
use crate::path::{is_c_string, platform_string, representable, to_platform_string};
use crate::path::{lemma_platform_string_is_c_string, lemma_representable_iff_no_nul};
use vstd::prelude::*;

verus! {

/// Owner may read and write; group and others have no access.
pub const OWNER_ONLY: u16 = 0o600;

/// Owner, group and others may read and write.
pub const EVERYONE: u16 = 0o666;

/// The permission bits to stamp on a socket node once it exists.
///
/// Its view is the optional mode: `Some(bits)` asks for exactly `bits`,
/// `None` leaves the node as the bind created it. Only the builders below
/// change it, and each replaces what was requested before: requests are
/// never merged.
#[derive(Clone, Copy, Debug)]
pub struct SecurityAttributes {
    mode: Option<u16>,
}

impl View for SecurityAttributes {
    type V = Option<u16>;

    closed spec fn view(&self) -> Option<u16> {
        self.mode
    }
}

/// One permission-change system call, ready to be issued.
#[derive(Debug)]
pub struct PermissionChange {
    /// The node's path as a NUL-terminated platform string.
    pub path: Vec<u8>,
    /// The permission bits to set.
    pub mode: u16,
}

/// Whether `plan` is what applying the attributes `attrs` to the node at
/// `path` comes to: a failure if the path cannot be handed to the platform,
/// else one system call with exactly the requested bits, or none at all where
/// no bits were requested.
pub open spec fn is_permission_plan(
    attrs: Option<u16>,
    path: Seq<char>,
    plan: Result<Option<PermissionChange>, Error>,
) -> bool {
    if !representable(path) {
        plan == Err::<Option<PermissionChange>, Error>(Error::InvalidInput)
    } else {
        match attrs {
            None => plan == Ok::<Option<PermissionChange>, Error>(None),
            Some(mode) => {
                &&& plan matches Ok(Some(change))
                &&& change.path@ == platform_string(path)
                &&& change.mode == mode
            },
        }
    }
}

impl SecurityAttributes {
    /// Attributes that admit the owner (and the administrator) only.
    pub fn empty() -> (attrs: Self)
        ensures
            attrs@ == Some(OWNER_ONLY),
    {
        SecurityAttributes { mode: Some(OWNER_ONLY) }
    }

    /// Opens the socket to every local user. Never fails.
    pub fn allow_everyone_connect(self) -> (r: Result<Self, std::io::Error>)
        ensures
            r is Ok,
            r->Ok_0@ == Some(EVERYONE),
    {
        let mut attrs = self;
        attrs.mode = Some(EVERYONE);
        Ok(attrs)
    }

    /// Requests exactly `mode`, taken verbatim. Never fails.
    pub fn set_mode(self, mode: u16) -> (r: Result<Self, std::io::Error>)
        ensures
            r is Ok,
            r->Ok_0@ == Some(mode),
    {
        let mut attrs = self;
        attrs.mode = Some(mode);
        Ok(attrs)
    }

    /// Attributes that let everyone create. On this transport creating and
    /// connecting are governed by the same bits, so no override is requested
    /// at all: the node keeps what the bind gave it. Never fails.
    pub fn allow_everyone_create() -> (r: Result<Self, std::io::Error>)
        ensures
            r is Ok,
            r->Ok_0@ is None,
    {
        Ok(SecurityAttributes { mode: None })
    }

    /// The requested permission bits, if any.
    pub fn mode(&self) -> (mode: Option<u16>)
        ensures
            mode == self@,
    {
        self.mode
    }

    /// Plans the stamping of these attributes on the node at `path`, which
    /// must exist by then (that is, after the bind).
    ///
    /// The path is validated first, whether or not any bits are requested: a
    /// path with a zero byte fails as invalid input and no system call is
    /// planned.
    pub fn apply_permissions(&self, path: &str) -> (plan: Result<Option<PermissionChange>, Error>)
        ensures
            is_permission_plan(self@, path@, plan),
    {
        let path = to_platform_string(path)?;
        match self.mode {
            Some(mode) => Ok(Some(PermissionChange { path, mode })),
            None => Ok(None),
        }
    }
}

/// What the permission-change system call came to: it fails exactly when it
/// returned `-1`, and then with the OS error code `errno`.
pub fn chmod_outcome(status: i32, errno: i32) -> (r: Result<(), Error>)
    ensures
        status == -1 ==> r == Err::<(), Error>(Error::Permissions { errno }),
        status != -1 ==> r is Ok,
{
    if status == -1 {
        Err(Error::Permissions { errno })
    } else {
        Ok(())
    }
}

/// A path with a NUL character in it is never stamped: whatever the
/// attributes, the plan is an invalid-input failure and holds no system call.
pub proof fn lemma_nul_in_path_is_invalid_input(
    attrs: Option<u16>,
    path: Seq<char>,
    plan: Result<Option<PermissionChange>, Error>,
)
    requires
        path.contains('\0'),
        is_permission_plan(attrs, path, plan),
    ensures
        plan == Err::<Option<PermissionChange>, Error>(Error::InvalidInput),
{
    lemma_representable_iff_no_nul(path);
}

/// Every system call that is planned sets exactly the requested bits, on a
/// path that is a well-formed C string.
pub proof fn lemma_planned_change_is_well_formed(
    attrs: Option<u16>,
    path: Seq<char>,
    plan: Result<Option<PermissionChange>, Error>,
)
    requires
        is_permission_plan(attrs, path, plan),
    ensures
        plan matches Ok(Some(change)) ==> {
            &&& attrs == Some(change.mode)
            &&& is_c_string(change.path@)
            &&& !path.contains('\0')
        },
        plan is Ok <==> !path.contains('\0'),
        plan matches Ok(None) ==> attrs is None,
{
    lemma_representable_iff_no_nul(path);
    if representable(path) {
        lemma_platform_string_is_c_string(path);
    }
}

} // verus!
