//! Platform services for a VPN client on Linux: the socket options that
//! switch a UDP socket to IPsec NAT traversal, the conversation with the
//! desktop keyring that keeps the user's password, and the desktop
//! notification that reports a problem.
//!
//! Nothing here touches a socket or the message bus. Each service is split
//! into the decisions, which live here with their contracts, and the calls
//! themselves, which a caller performs and reports back.

pub mod error;
pub mod exchange;
pub mod keychain;
pub mod keyring;
pub mod notification;
pub mod sockopt;
pub mod tunnel;

pub use error::PlatformError;
pub use keychain::{acquire_password, store_password};
pub use notification::send_notification;
pub use tunnel::new_tun_config;
