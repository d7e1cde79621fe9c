use vstd::prelude::*;

verus! {

/// An IP address, held as its network-order octets.
#[derive(Clone, Copy, Debug, PartialEq, Eq)]
pub enum IpAddr {
    V4([u8; 4]),
    V6([u8; 16]),
}

} // verus!
