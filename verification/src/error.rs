use vstd::prelude::*;

verus! {

/// Why a platform service could not do what was asked of it.
#[derive(Debug, Clone, Copy, PartialEq, Eq, Structural)]
pub enum PlatformError {
    /// Setting a socket option failed; `code` is what the kernel call returned.
    SyscallFailed { code: i32 },
    /// No reply arrived within the time allowed.
    Timeout,
    /// No session with the keyring service could be opened.
    StoreUnavailable,
    /// The keyring holds no readable password for the user.
    NotFound,
    /// The notification service could not be reached or turned the call down.
    NotificationFailed,
}

} // verus!
