//! The failures that this crate itself reports.

use vstd::prelude::*;

verus! {

/// Why a listening socket could not be brought up.
///
/// Failures of accepting, dialing and stream I/O are the platform's own
/// `std::io::Error` and are handed on as they come.
#[derive(Debug)]
pub enum Error {
    /// The platform refused to bind the socket (address in use, permission
    /// denied, invalid path, ...). Carries the platform's report unchanged.
    Bind(std::io::Error),
    /// The path holds a zero byte and so cannot be written as a
    /// NUL-terminated platform string. An invalid-input failure.
    InvalidInput,
    /// The permission-change system call was rejected with this OS error
    /// code.
    Permissions { errno: i32 },
}

} // verus!
