//! Raw socket addresses and their translation to structured IP addresses.
//!
//! A raw socket address is modelled as the kernel lays it out: a 16-bit
//! address family tag followed by the remaining bytes of the structure.
//! For the internet families the address bytes sit at a fixed offset
//! behind the tag (behind the 2-byte port for IPv4, behind the 2-byte
//! port and the 4-byte flow label for IPv6) and are carried in network
//! order, most significant byte first.

use vstd::prelude::*;

verus! {

/// The address family tag of an IPv4 socket address, as the platforms
/// that provide the link-change notification channel number it.
pub const FAMILY_INET: u16 = 2;

/// The address family tag of an IPv6 socket address on the same
/// platform family.
pub const FAMILY_INET6: u16 = 10;

/// Offset of the IPv4 address inside the bytes that follow the family
/// tag: it sits behind the 2-byte port.
pub const INET_ADDR_OFFSET: usize = 2;

/// Offset of the IPv6 address behind the family tag: it sits behind the
/// 2-byte port and the 4-byte flow label.
pub const INET6_ADDR_OFFSET: usize = 6;

/// One raw socket address as the kernel reports it: the address family
/// tag and the bytes that follow it in the structure.
#[derive(Debug)]
pub struct SockaddrData {
    pub family: u16,
    pub data: Vec<u8>,
}

/// The mathematical value of a raw socket address.
#[verifier::ext_equal]
pub ghost struct SockaddrModel {
    pub family: u16,
    pub data: Seq<u8>,
}

impl View for SockaddrData {
    type V = SockaddrModel;

    open spec fn view(&self) -> SockaddrModel {
        SockaddrModel { family: self.family, data: self.data@ }
    }
}

impl Clone for SockaddrData {
    /// A clone carries the same family and the same bytes.
    fn clone(&self) -> (res: Self)
        ensures
            res@ == self@,
    {
        let res = SockaddrData { family: self.family, data: self.data.clone() };
        proof {
            assert(res.data@ =~= self.data@);
        }
        res
    }
}

/// Compares two byte vectors by value.
fn bytes_eq(a: &Vec<u8>, b: &Vec<u8>) -> (r: bool)
    ensures
        r == (a@ == b@),
{
    if a.len() != b.len() {
        return false;
    }
    let mut i: usize = 0;
    while i < a.len()
        invariant
            i <= a@.len(),
            a@.len() == b@.len(),
            forall|k: int| 0 <= k < i ==> a@[k] == b@[k],
        decreases a@.len() - i,
    {
        if a[i] != b[i] {
            return false;
        }
        i += 1;
    }
    proof {
        assert(a@ =~= b@);
    }
    true
}

impl PartialEq for SockaddrData {
    /// Two raw socket addresses are equal when their family tags and
    /// their bytes are.
    fn eq(&self, other: &Self) -> (r: bool) {
        let r = self.family == other.family && bytes_eq(&self.data, &other.data);
        proof {
            if r {
                assert(self@ =~= other@);
            }
        }
        r
    }
}

impl vstd::std_specs::cmp::PartialEqSpecImpl for SockaddrData {
    open spec fn obeys_eq_spec() -> bool {
        true
    }

    open spec fn eq_spec(&self, other: &SockaddrData) -> bool {
        self@ == other@
    }
}

/// A structured IP address: four octets, or eight 16-bit segments, each
/// exactly as transmitted in network order.
#[derive(Clone, Copy, PartialEq, Eq, Structural, Debug)]
pub enum IpAddress {
    V4(u8, u8, u8, u8),
    V6(u16, u16, u16, u16, u16, u16, u16, u16),
}

/// The 16-bit segment read in network order from two consecutive bytes.
pub open spec fn segment16(data: Seq<u8>, i: int) -> u16 {
    ((data[i] as int) * 256 + (data[i + 1] as int)) as u16
}

/// What a raw socket address translates to: the IPv4 or IPv6 address
/// read from the family-specific offset, or nothing when the family is
/// not an internet family or the structure is too short to hold the
/// address it announces.
pub open spec fn ip_of_sockaddr(sa: SockaddrModel) -> Option<IpAddress> {
    if sa.family == FAMILY_INET && sa.data.len() >= INET_ADDR_OFFSET + 4 {
        Some(
            IpAddress::V4(
                sa.data[INET_ADDR_OFFSET as int],
                sa.data[INET_ADDR_OFFSET + 1],
                sa.data[INET_ADDR_OFFSET + 2],
                sa.data[INET_ADDR_OFFSET + 3],
            ),
        )
    } else if sa.family == FAMILY_INET6 && sa.data.len() >= INET6_ADDR_OFFSET + 16 {
        Some(
            IpAddress::V6(
                segment16(sa.data, INET6_ADDR_OFFSET as int),
                segment16(sa.data, INET6_ADDR_OFFSET + 2),
                segment16(sa.data, INET6_ADDR_OFFSET + 4),
                segment16(sa.data, INET6_ADDR_OFFSET + 6),
                segment16(sa.data, INET6_ADDR_OFFSET + 8),
                segment16(sa.data, INET6_ADDR_OFFSET + 10),
                segment16(sa.data, INET6_ADDR_OFFSET + 12),
                segment16(sa.data, INET6_ADDR_OFFSET + 14),
            ),
        )
    } else {
        None
    }
}

/// Translation lifted to an optional address: an absent structure
/// translates to nothing.
pub open spec fn ip_of_opt_sockaddr(sa: Option<SockaddrModel>) -> Option<IpAddress> {
    match sa {
        None => None,
        Some(s) => ip_of_sockaddr(s),
    }
}

/// Reads the 16-bit segment at offset `i` of `data` in network order.
fn read_segment16(data: &Vec<u8>, i: usize) -> (r: u16)
    requires
        i + 1 < data@.len(),
    ensures
        r == segment16(data@, i as int),
{
    let n = data.len();
    assert(i + 1 < n);
    (data[i] as u16) * 256 + (data[i + 1] as u16)
}

/// Translates a raw socket address into a structured IP address.
///
/// Returns the address carried by the structure for the two internet
/// families, and `None` when the structure is absent, announces another
/// family, or is too short for the address of its family.
pub fn to_ipaddr(sa: Option<&SockaddrData>) -> (r: Option<IpAddress>)
    ensures
        r == ip_of_opt_sockaddr(match sa {
            Some(s) => Some(s@),
            None => None,
        }),
{
    match sa {
        None => None,
        Some(s) => {
            if s.family == FAMILY_INET && s.data.len() >= INET_ADDR_OFFSET + 4 {
                Some(
                    IpAddress::V4(
                        s.data[INET_ADDR_OFFSET],
                        s.data[INET_ADDR_OFFSET + 1],
                        s.data[INET_ADDR_OFFSET + 2],
                        s.data[INET_ADDR_OFFSET + 3],
                    ),
                )
            } else if s.family == FAMILY_INET6 && s.data.len() >= INET6_ADDR_OFFSET + 16 {
                Some(
                    IpAddress::V6(
                        read_segment16(&s.data, INET6_ADDR_OFFSET),
                        read_segment16(&s.data, INET6_ADDR_OFFSET + 2),
                        read_segment16(&s.data, INET6_ADDR_OFFSET + 4),
                        read_segment16(&s.data, INET6_ADDR_OFFSET + 6),
                        read_segment16(&s.data, INET6_ADDR_OFFSET + 8),
                        read_segment16(&s.data, INET6_ADDR_OFFSET + 10),
                        read_segment16(&s.data, INET6_ADDR_OFFSET + 12),
                        read_segment16(&s.data, INET6_ADDR_OFFSET + 14),
                    ),
                )
            } else {
                None
            }
        },
    }
}

} // verus!
