//! The two socket options that prepare a UDP socket for ESP-in-UDP traffic.
//!
//! Both are options of the UDP level. The option-set call itself is the
//! caller's: this module says with which level, option, value and value size
//! it is made, and what its return code means.

use vstd::prelude::*;
use crate::error::PlatformError;

verus! {

/// How IPsec packets are wrapped into UDP datagrams.
#[derive(Debug, Clone, Copy, PartialEq, Eq, Structural)]
pub enum UdpEncap {
    /// ESP packets inside UDP datagrams, for NAT traversal.
    EspInUdp,
}

/// The kernel's selector for ESP-in-UDP encapsulation.
pub const UDP_ENCAP_ESPINUDP: i32 = 2;

/// The arguments of one option-set call: protocol level, option, the integer
/// value handed over, and that value's size in bytes.
#[derive(Debug, Clone, Copy, PartialEq, Eq, Structural)]
pub struct SocketOption {
    pub level: i32,
    pub name: i32,
    pub value: i32,
    pub size: u32,
}

/// The integer that selects an encapsulation mode in the kernel.
pub open spec fn encap_selector(encap: UdpEncap) -> i32 {
    match encap {
        UdpEncap::EspInUdp => UDP_ENCAP_ESPINUDP,
    }
}

/// `libc::SOL_UDP`: the UDP protocol level, 17 on every Linux target.
#[verifier::external_body]
fn udp_level() -> (level: i32)
    ensures
        level == 17,
{
    libc::SOL_UDP
}

/// `libc::UDP_ENCAP`: the option that sets the encapsulation mode, 100 on
/// every Linux target.
#[verifier::external_body]
fn udp_encap_name() -> (name: i32)
    ensures
        name == 100,
{
    libc::UDP_ENCAP
}

/// `libc::SO_NO_CHECK`: the option that switches checksum validation off,
/// 11 on every Linux target.
#[verifier::external_body]
fn no_check_name() -> (name: i32)
    ensures
        name == 11,
{
    libc::SO_NO_CHECK
}

/// The size in bytes of the integer that carries an option's value.
fn value_size() -> (size: u32)
    ensures
        size == 4,
{
    broadcast use vstd::layout::layout_of_primitives;
    let n: usize = core::mem::size_of::<i32>();
    n as u32
}

/// The option-set call that puts a UDP socket into the mode `encap`: at the
/// UDP level, the encapsulation option, with the mode's selector as its
/// value.
pub open spec fn encap_option_model(encap: UdpEncap) -> SocketOption {
    SocketOption { level: 17, name: 100, value: encap_selector(encap), size: 4 }
}

/// The option-set call that switches checksum validation off when `flag` is
/// set and on when it is not: at the UDP level, the no-check option, with the
/// flag as 1 or 0.
pub open spec fn no_check_option_model(flag: bool) -> SocketOption {
    SocketOption { level: 17, name: 11, value: if flag { 1i32 } else { 0i32 }, size: 4 }
}

/// The option that puts a UDP socket into the encapsulation mode `encap`.
pub fn encap_option(encap: UdpEncap) -> (opt: SocketOption)
    ensures
        opt == encap_option_model(encap),
{
    let value: i32 = match encap {
        UdpEncap::EspInUdp => UDP_ENCAP_ESPINUDP,
    };
    SocketOption { level: udp_level(), name: udp_encap_name(), value, size: value_size() }
}

/// The option that tells the kernel not to validate UDP checksums when `flag`
/// is set, and to validate them when it is not.
pub fn no_check_option(flag: bool) -> (opt: SocketOption)
    ensures
        opt == no_check_option_model(flag),
{
    let value: i32 = if flag { 1 } else { 0 };
    SocketOption { level: udp_level(), name: no_check_name(), value, size: value_size() }
}

/// Both options are set at the same level, that of UDP; they are different
/// options there, and each carries one integer of four bytes.
pub proof fn options_share_the_udp_level(encap: UdpEncap, flag: bool)
    ensures
        encap_option_model(encap).level == no_check_option_model(flag).level,
        encap_option_model(encap).name != no_check_option_model(flag).name,
        encap_option_model(encap).size == no_check_option_model(flag).size == 4,
{
}

/// What the return code of an option-set call means: zero is success, and
/// anything else is a failure that carries the code.
pub fn option_result(rc: i32) -> (r: Result<(), PlatformError>)
    ensures
        rc == 0 ==> r == Ok::<(), PlatformError>(()),
        rc != 0 ==> r == Err::<(), PlatformError>(PlatformError::SyscallFailed { code: rc }),
{
    if rc != 0 {
        Err(PlatformError::SyscallFailed { code: rc })
    } else {
        Ok(())
    }
}

} // verus!
