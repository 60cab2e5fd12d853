//! Interface records and the broadcast/destination helper.

use vstd::prelude::*;

use crate::addr::IpAddress;
use crate::addr::SockaddrData;
use crate::addr::SockaddrModel;
use crate::addr::ip_of_opt_sockaddr;

verus! {

/// One kernel-reported entry: an interface name together with the
/// address information of one address family.
///
/// `alt_addr` is the record's platform-dependent secondary address
/// slot. On some platform families the underlying storage is a union
/// that means either the broadcast address or the destination address
/// of a point-to-point link; on others only the destination address
/// exists. The boundary that fills a record selects the slot its build
/// target provides; this library exposes the slot and interprets it
/// only in [`do_broadcast`].
#[derive(Debug)]
pub struct IfRecord {
    pub name: String,
    pub addr: Option<SockaddrData>,
    pub alt_addr: Option<SockaddrData>,
}

/// The mathematical value of an interface record.
#[verifier::ext_equal]
pub ghost struct IfRecordModel {
    pub name: Seq<char>,
    pub addr: Option<SockaddrModel>,
    pub alt_addr: Option<SockaddrModel>,
}

/// The mathematical value of an optional raw socket address.
pub open spec fn opt_sockaddr_view(sa: Option<SockaddrData>) -> Option<SockaddrModel> {
    match sa {
        None => None,
        Some(s) => Some(s@),
    }
}

impl View for IfRecord {
    type V = IfRecordModel;

    open spec fn view(&self) -> IfRecordModel {
        IfRecordModel {
            name: self.name@,
            addr: opt_sockaddr_view(self.addr),
            alt_addr: opt_sockaddr_view(self.alt_addr),
        }
    }
}

/// Clones an optional raw socket address, keeping its value.
fn clone_opt_sockaddr(sa: &Option<SockaddrData>) -> (res: Option<SockaddrData>)
    ensures
        opt_sockaddr_view(res) == opt_sockaddr_view(*sa),
{
    match sa {
        None => None,
        Some(s) => Some(s.clone()),
    }
}

impl Clone for IfRecord {
    /// A clone carries the same name and the same address slots: the
    /// iterator hands records out by value through this.
    fn clone(&self) -> (res: Self)
        ensures
            res@ == self@,
    {
        IfRecord {
            name: self.name.clone(),
            addr: clone_opt_sockaddr(&self.addr),
            alt_addr: clone_opt_sockaddr(&self.alt_addr),
        }
    }
}

/// Compares two optional raw socket addresses by value.
fn opt_sockaddr_eq(a: &Option<SockaddrData>, b: &Option<SockaddrData>) -> (r: bool)
    ensures
        r == (opt_sockaddr_view(*a) == opt_sockaddr_view(*b)),
{
    match (a, b) {
        (None, None) => true,
        (Some(x), Some(y)) => x == y,
        _ => false,
    }
}

impl PartialEq for IfRecord {
    /// Two records are equal when their names and both address slots
    /// are.
    fn eq(&self, other: &Self) -> (r: bool) {
        let r = self.name == other.name && opt_sockaddr_eq(&self.addr, &other.addr)
            && opt_sockaddr_eq(&self.alt_addr, &other.alt_addr);
        proof {
            if r {
                assert(self@ =~= other@);
            }
        }
        r
    }
}

impl vstd::std_specs::cmp::PartialEqSpecImpl for IfRecord {
    open spec fn obeys_eq_spec() -> bool {
        true
    }

    open spec fn eq_spec(&self, other: &IfRecord) -> bool {
        self@ == other@
    }
}

/// What the broadcast/destination helper extracts from a record: the
/// translation of its secondary address slot.
pub open spec fn broadcast_of(rec: IfRecordModel) -> Option<IpAddress> {
    ip_of_opt_sockaddr(rec.alt_addr)
}

/// Extracts the broadcast/destination address of one record.
///
/// Reads the record's platform-appropriate secondary address slot and
/// translates it; returns `None` when the slot is empty or its family
/// is not an internet family.
pub fn do_broadcast(rec: &IfRecord) -> (r: Option<IpAddress>)
    ensures
        r == broadcast_of(rec@),
{
    match &rec.alt_addr {
        None => None,
        Some(sa) => crate::addr::to_ipaddr(Some(sa)),
    }
}

} // verus!
