//! Configured address ranges in CIDR form: a network address and the number
//! of leading bits that an address must share with it.

use cidr_utils::cidr::IpCidr;
use cidr_utils::cidr::IpCidrError;
use vstd::prelude::*;

use crate::address::IpAddress;

verus! {

/// Why a CIDR range was refused.
#[derive(Debug, PartialEq, Eq, Copy, Clone, Structural)]
pub enum RangeError {
    /// The prefix length exceeds the width of the address family.
    IncorrectBitsRange,
    /// A dotted mask is not a run of ones followed by a run of zeros.
    IncorrectMask,
    /// The text is no CIDR range at all.
    IncorrectText,
}

/// The mask that keeps the leading `bits` bits of an IPv4 address.
pub open spec fn mask_v4(bits: u8) -> u32 {
    if bits == 0 {
        0u32
    } else {
        0xffff_ffffu32 << ((32 - bits) as u32)
    }
}

/// The mask that keeps the leading `bits` bits of an IPv6 address.
pub open spec fn mask_v6(bits: u8) -> u128 {
    if bits == 0 {
        0u128
    } else {
        0xffff_ffff_ffff_ffff_ffff_ffff_ffff_ffffu128 << ((128 - bits) as u32)
    }
}

/// Number of bits in an address of the family of `address`.
pub open spec fn family_width(address: IpAddress) -> u8 {
    match address {
        IpAddress::V4(_) => 32u8,
        IpAddress::V6(_) => 128u8,
    }
}

/// `address` with everything after its leading `bits` bits cleared.
pub open spec fn network_of(address: IpAddress, bits: u8) -> IpAddress {
    match address {
        IpAddress::V4(a) => IpAddress::V4(a & mask_v4(bits)),
        IpAddress::V6(a) => IpAddress::V6(a & mask_v6(bits)),
    }
}

/// What the text of a CIDR range denotes: the address it is written with and
/// its prefix length, or the reason why it denotes none.
pub uninterp spec fn cidr_text_parts(text: Seq<char>) -> Result<(IpAddress, u8), RangeError>;

/// One configured address range.
#[derive(Debug, PartialEq, Eq, Copy, Clone)]
pub struct CidrRange {
    network: IpAddress,
    bits: u8,
}

/// Whether `made` is what building a range from `address` and `bits` gives:
/// a range over the network of `address` when the prefix length fits the
/// family, the bits-range error when it does not.
pub open spec fn built_from(made: Result<CidrRange, RangeError>, address: IpAddress, bits: u8) -> bool {
    if bits <= family_width(address) {
        &&& made is Ok
        &&& made->Ok_0.network() == network_of(address, bits)
        &&& made->Ok_0.bits() == bits
    } else {
        made == Err::<CidrRange, RangeError>(RangeError::IncorrectBitsRange)
    }
}

/// Whether `made` is what reading a range from parsed text gives: the parse
/// error where there is one, else the range built from the parsed parts.
pub open spec fn read_from(made: Result<CidrRange, RangeError>, parts: Result<(IpAddress, u8), RangeError>) -> bool {
    match parts {
        Ok((address, bits)) => built_from(made, address, bits),
        Err(e) => made == Err::<CidrRange, RangeError>(e),
    }
}

fn make_mask_v4(bits: u8) -> (m: u32)
    requires
        bits <= 32,
    ensures
        m == mask_v4(bits),
{
    if bits == 0 {
        0
    } else {
        let shift: u32 = 32 - bits as u32;
        0xffff_ffffu32 << shift
    }
}

fn make_mask_v6(bits: u8) -> (m: u128)
    requires
        bits <= 128,
    ensures
        m == mask_v6(bits),
{
    if bits == 0 {
        0
    } else {
        let shift: u32 = 128 - bits as u32;
        0xffff_ffff_ffff_ffff_ffff_ffff_ffff_ffffu128 << shift
    }
}

/// Calls `cidr_utils::cidr::IpCidr::from_str` and reads the prefix and the
/// prefix length off the parsed range with `get_prefix` and `get_bits`. The
/// contract gives that outcome a name and claims only that it is a function
/// of the text.
#[verifier::external_body]
fn parse_cidr_text(text: &str) -> (r: Result<(IpAddress, u8), RangeError>)
    ensures
        r == cidr_text_parts(text@),
{
    match IpCidr::from_str(text) {
        Ok(IpCidr::V4(cidr)) => Ok((IpAddress::V4(cidr.get_prefix()), cidr.get_bits())),
        Ok(IpCidr::V6(cidr)) => Ok((IpAddress::V6(cidr.get_prefix()), cidr.get_bits())),
        Err(IpCidrError::IncorrectBitsRange) => Err(RangeError::IncorrectBitsRange),
        Err(IpCidrError::IncorrectMask) => Err(RangeError::IncorrectMask),
        Err(IpCidrError::IncorrectIpCIDRString) => Err(RangeError::IncorrectText),
    }
}

impl CidrRange {
    #[verifier::type_invariant]
    spec fn well_formed(self) -> bool {
        &&& self.bits <= family_width(self.network)
        &&& network_of(self.network, self.bits) == self.network
    }

    /// The first address of the range.
    pub closed spec fn network(self) -> IpAddress {
        self.network
    }

    /// The number of leading bits that every address of the range shares.
    pub closed spec fn bits(self) -> u8 {
        self.bits
    }

    /// Whether `address` lies in the range: it is of the range's family and
    /// its leading bits are those of the network.
    pub open spec fn covers(self, address: IpAddress) -> bool {
        family_width(address) == family_width(self.network()) && network_of(address, self.bits())
            == self.network()
    }

    /// Builds the range that holds `address` and every address sharing its
    /// leading `bits` bits.
    pub fn new(address: IpAddress, bits: u8) -> (made: Result<CidrRange, RangeError>)
        ensures
            built_from(made, address, bits),
            made is Ok ==> made->Ok_0.covers(address),
    {
        match address {
            IpAddress::V4(a) => {
                if bits > 32 {
                    return Err(RangeError::IncorrectBitsRange);
                }
                let m: u32 = make_mask_v4(bits);
                assert((a & m) & m == a & m) by (bit_vector);
                Ok(CidrRange { network: IpAddress::V4(a & m), bits })
            },
            IpAddress::V6(a) => {
                if bits > 128 {
                    return Err(RangeError::IncorrectBitsRange);
                }
                let m: u128 = make_mask_v6(bits);
                assert((a & m) & m == a & m) by (bit_vector);
                Ok(CidrRange { network: IpAddress::V6(a & m), bits })
            },
        }
    }

    /// Builds a range from what parsing its text gave.
    pub fn from_parts(parts: Result<(IpAddress, u8), RangeError>) -> (made: Result<
        CidrRange,
        RangeError,
    >)
        ensures
            read_from(made, parts),
    {
        match parts {
            Ok((address, bits)) => CidrRange::new(address, bits),
            Err(e) => Err(e),
        }
    }

    /// Reads a range from its text, such as `10.0.0.0/8` or `2001:db8::/32`.
    pub fn parse(text: &str) -> (made: Result<CidrRange, RangeError>)
        ensures
            read_from(made, cidr_text_parts(text@)),
    {
        CidrRange::from_parts(parse_cidr_text(text))
    }

    /// The first address of the range.
    pub fn first_address(&self) -> (a: IpAddress)
        ensures
            a == self.network(),
    {
        self.network
    }

    /// The prefix length of the range.
    pub fn prefix_bits(&self) -> (b: u8)
        ensures
            b == self.bits(),
    {
        self.bits
    }

    /// Tells whether `address` lies in the range.
    pub fn contains(&self, address: IpAddress) -> (r: bool)
        ensures
            r == self.covers(address),
    {
        proof {
            use_type_invariant(self);
        }
        match address {
            IpAddress::V4(a) => match self.network {
                IpAddress::V4(p) => a & make_mask_v4(self.bits) == p,
                IpAddress::V6(_) => false,
            },
            IpAddress::V6(a) => match self.network {
                IpAddress::V4(_) => false,
                IpAddress::V6(p) => a & make_mask_v6(self.bits) == p,
            },
        }
    }
}

} // verus!
