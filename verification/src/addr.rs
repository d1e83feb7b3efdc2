//! Socket addresses as the message header carries them: an IPv4 or IPv6
//! address, given by its octets in network order, and a port.
use vstd::prelude::*;

verus! {

/// The destination or source of a datagram that travels through the tunnel.
#[allow(inconsistent_fields)]
#[derive(Clone, Copy, Debug)]
pub enum SocketAddr {
    V4 { ip: [u8; 4], port: u16 },
    V6 { ip: [u8; 16], port: u16 },
}

/// Whether two arrays of octets hold the same bytes.
fn same_octets<const N: usize>(a: &[u8; N], b: &[u8; N]) -> (r: bool)
    ensures
        r == (*a == *b),
{
    let mut i: usize = 0;
    while i < N
        invariant
            0 <= i <= N,
            a@.len() == N,
            b@.len() == N,
            forall|j: int| 0 <= j < i ==> a@[j] == b@[j],
        decreases N - i,
    {
        if a[i] != b[i] {
            return false;
        }
        i = i + 1;
    }
    assert(*a =~= *b);
    true
}

impl PartialEq for SocketAddr {
    fn eq(&self, other: &Self) -> (r: bool) {
        match (self, other) {
            (SocketAddr::V4 { ip: a, port: p }, SocketAddr::V4 { ip: b, port: q }) => {
                *p == *q && same_octets(a, b)
            },
            (SocketAddr::V6 { ip: a, port: p }, SocketAddr::V6 { ip: b, port: q }) => {
                *p == *q && same_octets(a, b)
            },
            _ => false,
        }
    }
}

impl Eq for SocketAddr {
}

impl vstd::std_specs::cmp::PartialEqSpecImpl for SocketAddr {
    open spec fn obeys_eq_spec() -> bool {
        true
    }

    open spec fn eq_spec(&self, other: &Self) -> bool {
        *self == *other
    }
}

} // verus!
