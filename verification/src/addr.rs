//! Interface indices and network addresses as plain values.

use vstd::prelude::*;

verus! {

/// An interface index: a `u32` that is not zero.
#[derive(Debug, Clone, Copy, PartialEq, Eq)]
pub struct NonZeroU32 {
    value: u32,
}

impl View for NonZeroU32 {
    type V = u32;

    closed spec fn view(&self) -> u32 {
        self.value
    }
}

impl DeepView for NonZeroU32 {
    type V = u32;

    open spec fn deep_view(&self) -> u32 {
        self@
    }
}

/// The index `n` stands for: none for zero.
pub open spec fn nonzero(n: u32) -> Option<u32> {
    if n == 0 {
        None
    } else {
        Some(n)
    }
}

impl NonZeroU32 {
    #[verifier::type_invariant]
    closed spec fn is_nonzero(self) -> bool {
        self.value != 0
    }

    /// The index `n`, unless it is zero.
    pub fn new(n: u32) -> (index: Option<NonZeroU32>)
        ensures
            index.deep_view() == nonzero(n),
    {
        if n == 0 {
            None
        } else {
            Some(NonZeroU32 { value: n })
        }
    }

    /// The number.
    pub fn get(self) -> (n: u32)
        ensures
            n == self@,
            n != 0,
    {
        proof {
            use_type_invariant(&self);
        }
        self.value
    }
}

/// An IP address, its bytes in network order.
#[derive(Debug, Clone, Copy, PartialEq, Eq)]
pub enum IpAddr {
    /// An IPv4 address.
    V4([u8; 4]),
    /// An IPv6 address.
    V6([u8; 16]),
}

/// An IP address with a port.
#[derive(Debug, Clone, Copy, PartialEq, Eq)]
pub struct SocketAddr {
    /// The address.
    pub ip: IpAddr,
    /// The port.
    pub port: u16,
}

/// The interface number that stands for an optional index: zero for all
/// interfaces.
pub open spec fn interface_number_of(index: Option<u32>) -> u32 {
    match index {
        Some(i) => i,
        None => 0,
    }
}

/// The interface number to browse on: zero stands for all interfaces.
pub fn interface_number(index: Option<NonZeroU32>) -> (number: u32)
    ensures
        number == interface_number_of(index.deep_view()),
        number == 0 <==> index is None,
{
    match index {
        Some(i) => i.get(),
        None => 0,
    }
}

/// A number read back as an index gives the index that it was made from.
pub proof fn law_interface_number_round_trip(index: Option<u32>)
    requires
        index != Some(0u32),
    ensures
        nonzero(interface_number_of(index)) == index,
{
}

/// The value of a number in network byte order.
pub open spec fn big_endian_u16(bytes: [u8; 2]) -> u16 {
    (bytes[0] * 256 + bytes[1]) as u16
}

/// Reads a port that arrives in network byte order.
pub fn port_from_network(bytes: [u8; 2]) -> (port: u16)
    ensures
        port == big_endian_u16(bytes),
        port == bytes[0] * 256 + bytes[1],
{
    (bytes[0] as u16) * 256 + (bytes[1] as u16)
}

/// Zero is the one number that stands for no index; every other number stands for
/// itself, in both directions.
pub proof fn law_interface_numbers(n: u32)
    ensures
        nonzero(n) is None <==> n == 0,
        n != 0 ==> nonzero(n) == Some(n),
        interface_number_of(None) == 0,
        interface_number_of(Some(n)) == n,
{
}

} // verus!
