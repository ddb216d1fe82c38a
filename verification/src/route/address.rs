//! The addresses that route attributes carry as bytes: four bytes are an
//! IPv4 address, sixteen an IPv6 address.

use vstd::prelude::*;

verus! {

/// An IP address, as the bytes in the order of the wire.
#[derive(Debug, Clone, Copy, PartialEq, Eq)]
pub enum IpAddress {
    V4([u8; 4]),
    V6([u8; 16]),
}

impl IpAddress {
    /// The bytes of the address.
    pub open spec fn bytes(self) -> Seq<u8> {
        match self {
            IpAddress::V4(a) => a@,
            IpAddress::V6(a) => a@,
        }
    }
}

/// The address that the value of an address attribute stands for: IPv4
/// where it has four bytes, IPv6 where it has sixteen, none with any other
/// length.
pub fn ip_address(bytes: &[u8]) -> (r: Option<IpAddress>)
    ensures
        match r {
            Some(IpAddress::V4(a)) => bytes@.len() == 4 && a@ == bytes@,
            Some(IpAddress::V6(a)) => bytes@.len() == 16 && a@ == bytes@,
            None => bytes@.len() != 4 && bytes@.len() != 16,
        },
{
    if bytes.len() == 4 {
        let a: [u8; 4] = [bytes[0], bytes[1], bytes[2], bytes[3]];
        assert(a@ =~= bytes@);
        Some(IpAddress::V4(a))
    } else if bytes.len() == 16 {
        let a: [u8; 16] = [
            bytes[0],
            bytes[1],
            bytes[2],
            bytes[3],
            bytes[4],
            bytes[5],
            bytes[6],
            bytes[7],
            bytes[8],
            bytes[9],
            bytes[10],
            bytes[11],
            bytes[12],
            bytes[13],
            bytes[14],
            bytes[15],
        ];
        assert(a@ =~= bytes@);
        Some(IpAddress::V6(a))
    } else {
        None
    }
}

} // verus!
