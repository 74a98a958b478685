//! Classification of an endpoint as inside or outside the configured
//! address ranges.

use vstd::prelude::*;

use crate::address::address_of;
use crate::address::parse_ip;
use crate::address::ClassifyError;
use crate::address::IpAddress;
use crate::address::ETYPE_ARP;
use crate::address::ETYPE_IPV6;
use crate::range::CidrRange;

verus! {

/// Where an endpoint lies: inside one of the configured ranges, with its
/// address, or outside all of them.
#[derive(Debug, PartialEq, Eq, PartialOrd, Ord, Hash, Copy, Clone, Structural)]
pub enum Location {
    Inside(IpAddress),
    Outside,
}

/// Whether some range of `ranges` holds `address`.
pub open spec fn is_inside(address: IpAddress, ranges: Seq<CidrRange>) -> bool {
    exists|i: int| 0 <= i < ranges.len() && (#[trigger] ranges[i]).covers(address)
}

/// The location of a resolved address against `ranges`.
pub open spec fn classify(address: IpAddress, ranges: Seq<CidrRange>) -> Location {
    if is_inside(address, ranges) {
        Location::Inside(address)
    } else {
        Location::Outside
    }
}

/// The location that a family tag and raw address bytes denote against
/// `ranges`: malformed where the address is, none where the tag names no
/// address, else the classification of the address.
pub open spec fn location_of(etype: u32, addr: Seq<u8>, ranges: Seq<CidrRange>) -> Result<
    Option<Location>,
    ClassifyError,
> {
    match address_of(etype, addr) {
        Err(e) => Err(e),
        Ok(None) => Ok(None),
        Ok(Some(address)) => Ok(Some(classify(address, ranges))),
    }
}

/// Classifies one endpoint of a flow record. The ranges are tried in their
/// configured order and the first that holds the address decides.
pub fn parse_location(etype: u32, addr: &Vec<u8>, cidr_list: &Vec<CidrRange>) -> (r: Result<
    Option<Location>,
    ClassifyError,
>)
    ensures
        r == location_of(etype, addr@, cidr_list@),
{
    match parse_ip(etype, addr) {
        Err(e) => Err(e),
        Ok(None) => Ok(None),
        Ok(Some(address)) => {
            let mut i: usize = 0;
            while i < cidr_list.len()
                invariant
                    i <= cidr_list.len(),
                    address_of(etype, addr@) == Ok::<Option<IpAddress>, ClassifyError>(
                        Some(address),
                    ),
                    forall|j: int| 0 <= j < i ==> !(#[trigger] cidr_list@[j]).covers(address),
                decreases cidr_list.len() - i,
            {
                if cidr_list[i].contains(address) {
                    assert(cidr_list@[i as int].covers(address));
                    return Ok(Some(Location::Inside(address)));
                }
                i = i + 1;
            }
            Ok(Some(Location::Outside))
        },
    }
}

/// Classification is a function of the tag, the address bytes and the
/// ordered range list: two results for the same inputs are equal.
pub proof fn classification_is_deterministic(
    etype: u32,
    addr: Seq<u8>,
    ranges: Seq<CidrRange>,
    first: Result<Option<Location>, ClassifyError>,
    second: Result<Option<Location>, ClassifyError>,
)
    requires
        first == location_of(etype, addr, ranges),
        second == location_of(etype, addr, ranges),
    ensures
        first == second,
{
}

/// With no range configured every resolved address is outside.
pub proof fn no_range_means_outside(address: IpAddress)
    ensures
        classify(address, Seq::<CidrRange>::empty()) == Location::Outside,
{
}

/// An inside location always carries the very address that was classified.
pub proof fn inside_carries_the_address(address: IpAddress, ranges: Seq<CidrRange>)
    ensures
        classify(address, ranges) == Location::Inside(address) || classify(address, ranges)
            == Location::Outside,
        classify(address, ranges) == Location::Inside(address) <==> is_inside(address, ranges),
{
}

/// An IPv6 tag with any number of address bytes other than sixteen is a
/// malformed address, never a silent absence.
pub proof fn short_ipv6_is_malformed(addr: Seq<u8>, ranges: Seq<CidrRange>)
    requires
        addr.len() != 16,
    ensures
        location_of(ETYPE_IPV6, addr, ranges) == Err::<Option<Location>, ClassifyError>(
            ClassifyError::MalformedAddress,
        ),
{
}

/// An address-resolution tag names no address, whatever the bytes are.
pub proof fn arp_has_no_address(addr: Seq<u8>, ranges: Seq<CidrRange>)
    ensures
        location_of(ETYPE_ARP, addr, ranges) == Ok::<Option<Location>, ClassifyError>(None),
{
}

} // verus!
