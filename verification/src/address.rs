//! Endpoint addresses as they arrive in a flow record: an address-family tag
//! and the raw address bytes in network order.

use vstd::prelude::*;

verus! {

/// Address-family tag of an IPv4 frame.
pub const ETYPE_IPV4: u32 = 0x0800;

/// Address-family tag of an IPv6 frame.
pub const ETYPE_IPV6: u32 = 0x86DD;

/// Address-family tag of an address-resolution frame, which names no
/// endpoint address.
pub const ETYPE_ARP: u32 = 0x0806;

/// An IP address, held as the integer that its bytes spell in network
/// (big-endian) order. Addresses are ordered IPv4 before IPv6, and within a
/// family by that integer.
#[derive(Debug, PartialEq, Eq, PartialOrd, Ord, Hash, Copy, Clone, Structural)]
pub enum IpAddress {
    V4(u32),
    V6(u128),
}

/// Why an endpoint could not be classified.
#[derive(Debug, PartialEq, Eq, Copy, Clone, Structural)]
pub enum ClassifyError {
    /// The number of address bytes is not the one that the family tag
    /// requires.
    MalformedAddress,
}

/// `256` to the power `n`.
pub open spec fn pow256(n: nat) -> nat
    decreases n,
{
    if n == 0 {
        1
    } else {
        256 * pow256((n - 1) as nat)
    }
}

/// The integer that `bytes` spell in big-endian order.
pub open spec fn be_value(bytes: Seq<u8>) -> nat
    decreases bytes.len(),
{
    if bytes.len() == 0 {
        0
    } else {
        be_value(bytes.drop_last()) * 256 + bytes.last() as nat
    }
}

/// The address that a family tag and raw bytes denote: an IPv4 tag asks for
/// exactly 4 bytes and an IPv6 tag for exactly 16, any other count being
/// malformed; every other tag, the address-resolution tag among them, names
/// no address.
pub open spec fn address_of(etype: u32, addr: Seq<u8>) -> Result<Option<IpAddress>, ClassifyError> {
    if etype == ETYPE_IPV4 {
        if addr.len() == 4 {
            Ok(Some(IpAddress::V4(be_value(addr) as u32)))
        } else {
            Err(ClassifyError::MalformedAddress)
        }
    } else if etype == ETYPE_IPV6 {
        if addr.len() == 16 {
            Ok(Some(IpAddress::V6(be_value(addr) as u128)))
        } else {
            Err(ClassifyError::MalformedAddress)
        }
    } else {
        Ok(None)
    }
}

/// `n` bytes spell an integer below `256^n`.
pub proof fn be_value_bound(bytes: Seq<u8>)
    ensures
        be_value(bytes) < pow256(bytes.len()),
    decreases bytes.len(),
{
    if bytes.len() > 0 {
        be_value_bound(bytes.drop_last());
    }
}

/// `pow256` grows with its exponent.
pub proof fn pow256_grows(a: nat, b: nat)
    requires
        a <= b,
    ensures
        0 < pow256(a) <= pow256(b),
    decreases b,
{
    if b == 0 {
    } else if a == b {
        pow256_grows((a - 1) as nat, (a - 1) as nat);
    } else {
        pow256_grows(a, (b - 1) as nat);
    }
}

/// Four bytes fill 32 bits and sixteen bytes fill 128.
pub proof fn pow256_of_address_widths()
    ensures
        pow256(4) == 0x1_0000_0000,
        pow256(16) == 0x1_0000_0000_0000_0000_0000_0000_0000_0000,
{
    reveal_with_fuel(pow256, 5);
    assert(pow256(4) == 0x1_0000_0000);
    assert(pow256(8) == 0x1_0000_0000 * pow256(4));
    assert(pow256(12) == 0x1_0000_0000 * pow256(8));
    assert(pow256(16) == 0x1_0000_0000 * pow256(12));
}

/// Reads up to sixteen bytes as one big-endian integer.
fn read_be(bytes: &Vec<u8>) -> (v: u128)
    requires
        bytes.len() <= 16,
    ensures
        v == be_value(bytes@),
{
    let mut acc: u128 = 0;
    let mut i: usize = 0;
    while i < bytes.len()
        invariant
            i <= bytes.len() <= 16,
            acc == be_value(bytes@.take(i as int)),
        decreases bytes.len() - i,
    {
        proof {
            let head = bytes@.take(i as int);
            let next = bytes@.take(i + 1);
            assert(next.drop_last() =~= head);
            assert(next.last() == bytes@[i as int]);
            be_value_bound(head);
            pow256_grows((i + 1) as nat, 16);
            pow256_of_address_widths();
        }
        acc = acc * 256 + bytes[i] as u128;
        i = i + 1;
    }
    assert(bytes@.take(i as int) =~= bytes@);
    acc
}

/// Resolves the address of one endpoint from its family tag and raw bytes.
pub fn parse_ip(etype: u32, addr: &Vec<u8>) -> (r: Result<Option<IpAddress>, ClassifyError>)
    ensures
        r == address_of(etype, addr@),
{
    if etype == ETYPE_IPV4 {
        if addr.len() != 4 {
            return Err(ClassifyError::MalformedAddress);
        }
        proof {
            be_value_bound(addr@);
            pow256_of_address_widths();
        }
        let value: u128 = read_be(addr);
        Ok(Some(IpAddress::V4(value as u32)))
    } else if etype == ETYPE_IPV6 {
        if addr.len() != 16 {
            return Err(ClassifyError::MalformedAddress);
        }
        Ok(Some(IpAddress::V6(read_be(addr))))
    } else {
        Ok(None)
    }
}

} // verus!
