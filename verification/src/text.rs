//! Text forms: numbers in decimal, IPv4 addresses in dotted decimal, IPv6
//! addresses in their shortest usual form, and locations as they are written
//! out and as they are tagged.

use vstd::prelude::*;
use vstd::string::StringExecFns;

use crate::address::IpAddress;
use crate::location::Location;

verus! {

/// The character of one digit below sixteen, letters in lower case.
pub open spec fn digit_char(d: int) -> char {
    if d == 0 {
        '0'
    } else if d == 1 {
        '1'
    } else if d == 2 {
        '2'
    } else if d == 3 {
        '3'
    } else if d == 4 {
        '4'
    } else if d == 5 {
        '5'
    } else if d == 6 {
        '6'
    } else if d == 7 {
        '7'
    } else if d == 8 {
        '8'
    } else if d == 9 {
        '9'
    } else if d == 10 {
        'a'
    } else if d == 11 {
        'b'
    } else if d == 12 {
        'c'
    } else if d == 13 {
        'd'
    } else if d == 14 {
        'e'
    } else {
        'f'
    }
}

/// `n` in decimal, without leading zeros.
pub open spec fn decimal(n: nat) -> Seq<char>
    decreases n,
{
    if n < 10 {
        seq![digit_char(n as int)]
    } else {
        decimal(n / 10).push(digit_char((n % 10) as int))
    }
}

/// `n` in lower-case hexadecimal, without leading zeros.
pub open spec fn hexadecimal(n: nat) -> Seq<char>
    decreases n,
{
    if n < 16 {
        seq![digit_char(n as int)]
    } else {
        hexadecimal(n / 16).push(digit_char((n % 16) as int))
    }
}

/// `n` in decimal, with a minus sign where it is negative.
pub open spec fn signed_decimal(n: int) -> Seq<char> {
    if n < 0 {
        seq!['-'] + decimal((-n) as nat)
    } else {
        decimal(n as nat)
    }
}

/// An IPv4 address in dotted decimal.
pub open spec fn ipv4_text(a: u32) -> Seq<char> {
    decimal((a / 0x100_0000) as nat) + seq!['.'] + decimal((a / 0x1_0000 % 0x100) as nat) + seq![
        '.',
    ] + decimal((a / 0x100 % 0x100) as nat) + seq!['.'] + decimal((a % 0x100) as nat)
}

/// The `i`-th of the eight 16-bit groups of an IPv6 address, counted from
/// the most significant.
pub open spec fn segment(a: u128, i: int) -> u16 {
    ((a >> ((16 * (7 - i)) as u128)) & 0xffff) as u16
}

/// The eight 16-bit groups of an IPv6 address, most significant first.
pub open spec fn segments(a: u128) -> Seq<u16> {
    Seq::new(8, |i: int| segment(a, i))
}

/// Whether the `len` groups from `start` on are all zero.
pub open spec fn zero_run(segs: Seq<u16>, start: int, len: int) -> bool {
    &&& 0 <= start
    &&& 0 <= len
    &&& start + len <= segs.len()
    &&& forall|i: int| start <= i < start + len ==> segs[i] == 0
}

/// Whether the run at `start` of length `len` is the first of the longest
/// runs of zero groups that end at or before `bound`.
pub open spec fn first_longest_zero_run(segs: Seq<u16>, bound: int, start: int, len: int) -> bool {
    &&& zero_run(segs, start, len)
    &&& start + len <= bound
    &&& forall|s: int, l: int|
        #[trigger] zero_run(segs, s, l) && s + l <= bound ==> l < len || (l == len && start <= s)
}

/// The first of the longest runs of zero groups, as start and length.
pub open spec fn longest_zero_run(segs: Seq<u16>) -> (int, int) {
    choose|run: (int, int)| first_longest_zero_run(segs, segs.len() as int, run.0, run.1)
}

/// Groups in hexadecimal, joined by colons.
pub open spec fn joined(segs: Seq<u16>) -> Seq<char>
    decreases segs.len(),
{
    if segs.len() == 0 {
        Seq::empty()
    } else if segs.len() == 1 {
        hexadecimal(segs[0] as nat)
    } else {
        joined(segs.drop_last()) + seq![':'] + hexadecimal(segs.last() as nat)
    }
}

/// An IPv6 address in text. An address that maps an IPv4 address is written
/// as `::ffff:` and the IPv4 address in dotted decimal. In any other, the
/// first of the longest runs of two or more zero groups is written as `::`,
/// and the groups around it in hexadecimal, joined by colons.
pub open spec fn ipv6_text(a: u128) -> Seq<char> {
    if a >> 32 == 0xffff {
        "::ffff:"@ + ipv4_text((a & 0xffff_ffff) as u32)
    } else {
        let segs = segments(a);
        let run = longest_zero_run(segs);
        if run.1 > 1 {
            joined(segs.subrange(0, run.0)) + "::"@ + joined(segs.subrange(run.0 + run.1, 8))
        } else {
            joined(segs)
        }
    }
}

/// An address in text.
pub open spec fn address_text(address: IpAddress) -> Seq<char> {
    match address {
        IpAddress::V4(a) => ipv4_text(a),
        IpAddress::V6(a) => ipv6_text(a),
    }
}

/// A location as it is written out: the address of an inside location, the
/// word `outside` for an outside one.
pub open spec fn location_text(location: Location) -> Seq<char> {
    match location {
        Location::Inside(address) => address_text(address),
        Location::Outside => "outside"@,
    }
}

/// A location as it is tagged: `Inside(` address `)` or `Outside`.
pub open spec fn location_tag(location: Location) -> Seq<char> {
    match location {
        Location::Inside(address) => "Inside("@ + address_text(address) + ")"@,
        Location::Outside => "Outside"@,
    }
}

/// At most one run is the first of the longest runs of zero groups.
pub proof fn longest_zero_run_is_unique(segs: Seq<u16>, start: int, len: int)
    requires
        first_longest_zero_run(segs, segs.len() as int, start, len),
    ensures
        longest_zero_run(segs) == (start, len),
{
    let run = longest_zero_run(segs);
    let witness = (start, len);
    assert(first_longest_zero_run(segs, segs.len() as int, witness.0, witness.1));
    assert(zero_run(segs, run.0, run.1));
    assert(zero_run(segs, start, len));
}

fn push_digit(out: &mut String, d: u8)
    requires
        d < 16,
    ensures
        final(out)@ == old(out)@.push(digit_char(d as int)),
{
    proof {
        reveal_strlit("0");
        reveal_strlit("1");
        reveal_strlit("2");
        reveal_strlit("3");
        reveal_strlit("4");
        reveal_strlit("5");
        reveal_strlit("6");
        reveal_strlit("7");
        reveal_strlit("8");
        reveal_strlit("9");
        reveal_strlit("a");
        reveal_strlit("b");
        reveal_strlit("c");
        reveal_strlit("d");
        reveal_strlit("e");
        reveal_strlit("f");
    }
    let digit: &str = if d == 0 {
        "0"
    } else if d == 1 {
        "1"
    } else if d == 2 {
        "2"
    } else if d == 3 {
        "3"
    } else if d == 4 {
        "4"
    } else if d == 5 {
        "5"
    } else if d == 6 {
        "6"
    } else if d == 7 {
        "7"
    } else if d == 8 {
        "8"
    } else if d == 9 {
        "9"
    } else if d == 10 {
        "a"
    } else if d == 11 {
        "b"
    } else if d == 12 {
        "c"
    } else if d == 13 {
        "d"
    } else if d == 14 {
        "e"
    } else {
        "f"
    };
    assert(digit@ =~= seq![digit_char(d as int)]);
    out.append(digit);
    assert(out@ =~= old(out)@.push(digit_char(d as int)));
}

fn push_char(out: &mut String, piece: &str)
    requires
        piece@.len() == 1,
    ensures
        final(out)@ == old(out)@ + seq![piece@[0]],
{
    assert(piece@ =~= seq![piece@[0]]);
    out.append(piece);
}

/// Appends `n` in decimal.
pub fn push_decimal(out: &mut String, n: u64)
    ensures
        final(out)@ == old(out)@ + decimal(n as nat),
    decreases n,
{
    if n < 10 {
        push_digit(out, n as u8);
        assert(out@ =~= old(out)@ + decimal(n as nat));
    } else {
        push_decimal(out, n / 10);
        push_digit(out, (n % 10) as u8);
        assert(out@ =~= old(out)@ + decimal(n as nat));
    }
}

/// Appends `n` in lower-case hexadecimal.
pub fn push_hexadecimal(out: &mut String, n: u16)
    ensures
        final(out)@ == old(out)@ + hexadecimal(n as nat),
    decreases n,
{
    if n < 16 {
        push_digit(out, n as u8);
        assert(out@ =~= old(out)@ + hexadecimal(n as nat));
    } else {
        push_hexadecimal(out, n / 16);
        push_digit(out, (n % 16) as u8);
        assert(out@ =~= old(out)@ + hexadecimal(n as nat));
    }
}

/// Appends `n` in decimal, with a minus sign where it is negative.
pub fn push_signed_decimal(out: &mut String, n: i64)
    ensures
        final(out)@ == old(out)@ + signed_decimal(n as int),
{
    if n < 0 {
        proof {
            reveal_strlit("-");
        }
        push_char(out, "-");
        let size: u64 = if n == i64::MIN {
            0x8000_0000_0000_0000
        } else {
            (-n) as u64
        };
        push_decimal(out, size);
        assert(out@ =~= old(out)@ + signed_decimal(n as int));
    } else {
        push_decimal(out, n as u64);
    }
}

/// Appends an IPv4 address in dotted decimal.
pub fn push_ipv4(out: &mut String, a: u32)
    ensures
        final(out)@ == old(out)@ + ipv4_text(a),
{
    proof {
        reveal_strlit(".");
    }
    push_decimal(out, (a / 0x100_0000) as u64);
    push_char(out, ".");
    push_decimal(out, (a / 0x1_0000 % 0x100) as u64);
    push_char(out, ".");
    push_decimal(out, (a / 0x100 % 0x100) as u64);
    push_char(out, ".");
    push_decimal(out, (a % 0x100) as u64);
    assert(out@ =~= old(out)@ + ipv4_text(a));
}

/// The eight 16-bit groups of an IPv6 address, most significant first.
pub fn split_segments(a: u128) -> (segs: Vec<u16>)
    ensures
        segs@ == segments(a),
{
    let mut segs: Vec<u16> = Vec::new();
    let mut i: usize = 0;
    while i < 8
        invariant
            i <= 8,
            segs@.len() == i,
            forall|j: int| 0 <= j < i ==> segs@[j] == segment(a, j),
        decreases 8 - i,
    {
        let shift: u128 = (16 * (7 - i)) as u128;
        let group: u128 = (a >> shift) & 0xffff;
        assert(group <= 0xffff) by (bit_vector)
            requires
                group == (a >> shift) & 0xffff,
        ;
        segs.push(group as u16);
        i = i + 1;
    }
    assert(segs@ =~= segments(a));
    segs
}

/// Finds the first of the longest runs of zero groups.
pub fn find_zero_run(segs: &Vec<u16>) -> (run: (usize, usize))
    ensures
        first_longest_zero_run(segs@, segs@.len() as int, run.0 as int, run.1 as int),
        longest_zero_run(segs@) == (run.0 as int, run.1 as int),
{
    let mut best_start: usize = 0;
    let mut best_len: usize = 0;
    let mut cur_len: usize = 0;
    let mut i: usize = 0;
    assert(zero_run(segs@, 0, 0));
    while i < segs.len()
        invariant
            i <= segs.len(),
            cur_len <= i,
            zero_run(segs@, i - cur_len, cur_len as int),
            cur_len < i ==> segs@[i - cur_len - 1] != 0,
            best_len == 0 ==> best_start == 0,
            cur_len <= best_len,
            first_longest_zero_run(segs@, i as int, best_start as int, best_len as int),
        decreases segs.len() - i,
    {
        let ghost before = i as int;
        let ghost old_start = best_start as int;
        let ghost old_len = best_len as int;
        let ghost old_cur = cur_len as int;
        if segs[i] == 0 {
            cur_len = cur_len + 1;
            assert(zero_run(segs@, before + 1 - cur_len, cur_len as int));
            if cur_len > best_len {
                best_start = i + 1 - cur_len;
                best_len = cur_len;
            }
            assert forall|s: int, l: int| #[trigger]
                zero_run(segs@, s, l) && s + l <= before + 1 implies l < best_len || (l
                == best_len && best_start <= s) by {
                if s + l <= before {
                    assert(l < old_len || (l == old_len && old_start <= s));
                } else if l > 0 {
                    if s < before + 1 - cur_len {
                        assert(segs@[before - old_cur - 1] == 0);
                    }
                }
            }
        } else {
            cur_len = 0;
            assert(zero_run(segs@, before + 1, 0));
            assert forall|s: int, l: int| #[trigger]
                zero_run(segs@, s, l) && s + l <= before + 1 implies l < best_len || (l
                == best_len && best_start <= s) by {
                if s + l <= before {
                    assert(l < old_len || (l == old_len && old_start <= s));
                } else if l > 0 {
                    assert(segs@[before] == 0);
                }
            }
        }
        i = i + 1;
    }
    proof {
        longest_zero_run_is_unique(segs@, best_start as int, best_len as int);
    }
    (best_start, best_len)
}

/// Appends the groups from `from` up to `to` in hexadecimal, joined by
/// colons.
pub fn push_joined(out: &mut String, segs: &Vec<u16>, from: usize, to: usize)
    requires
        from <= to <= segs.len(),
    ensures
        final(out)@ == old(out)@ + joined(segs@.subrange(from as int, to as int)),
{
    proof {
        reveal_strlit(":");
    }
    let mut i: usize = from;
    assert(out@ =~= old(out)@ + joined(segs@.subrange(from as int, from as int)));
    while i < to
        invariant
            from <= i <= to <= segs.len(),
            ":"@.len() == 1,
            ":"@[0] == ':',
            out@ == old(out)@ + joined(segs@.subrange(from as int, i as int)),
        decreases to - i,
    {
        let ghost upto = segs@.subrange(from as int, i + 1);
        assert(upto.drop_last() =~= segs@.subrange(from as int, i as int));
        assert(upto.last() == segs@[i as int]);
        if i > from {
            push_char(out, ":");
        }
        push_hexadecimal(out, segs[i]);
        assert(out@ =~= old(out)@ + joined(upto));
        i = i + 1;
    }
}

/// Appends an IPv6 address in text.
pub fn push_ipv6(out: &mut String, a: u128)
    ensures
        final(out)@ == old(out)@ + ipv6_text(a),
{
    if a >> 32 == 0xffff {
        out.append("::ffff:");
        let low: u128 = a & 0xffff_ffff;
        assert(low <= 0xffff_ffff) by (bit_vector)
            requires
                low == a & 0xffff_ffff,
        ;
        push_ipv4(out, low as u32);
        assert(out@ =~= old(out)@ + ipv6_text(a));
    } else {
        let segs = split_segments(a);
        let run = find_zero_run(&segs);
        if run.1 > 1 {
            push_joined(out, &segs, 0, run.0);
            out.append("::");
            push_joined(out, &segs, run.0 + run.1, 8);
            assert(out@ =~= old(out)@ + ipv6_text(a));
        } else {
            push_joined(out, &segs, 0, 8);
            assert(segs@.subrange(0, 8) =~= segs@);
        }
    }
}

/// Appends an address in text.
pub fn push_address(out: &mut String, address: &IpAddress)
    ensures
        final(out)@ == old(out)@ + address_text(*address),
{
    match address {
        IpAddress::V4(a) => push_ipv4(out, *a),
        IpAddress::V6(a) => push_ipv6(out, *a),
    }
}

/// `n` in decimal.
pub fn decimal_text(n: u64) -> (text: String)
    ensures
        text@ == decimal(n as nat),
{
    let mut out = String::new();
    push_decimal(&mut out, n);
    assert(out@ =~= decimal(n as nat));
    out
}

/// `n` in decimal, with a minus sign where it is negative.
pub fn signed_decimal_text(n: i64) -> (text: String)
    ensures
        text@ == signed_decimal(n as int),
{
    let mut out = String::new();
    push_signed_decimal(&mut out, n);
    assert(out@ =~= signed_decimal(n as int));
    out
}

impl IpAddress {
    /// The address in text.
    pub fn to_text(&self) -> (text: String)
        ensures
            text@ == address_text(*self),
    {
        let mut out = String::new();
        push_address(&mut out, self);
        assert(out@ =~= address_text(*self));
        out
    }
}

impl Location {
    /// The location as it is written out: the address of an inside
    /// location, the word `outside` for an outside one.
    pub fn to_text(&self) -> (text: String)
        ensures
            text@ == location_text(*self),
    {
        let mut out = String::new();
        match self {
            Location::Inside(address) => {
                push_address(&mut out, address);
            },
            Location::Outside => {
                out.append("outside");
            },
        }
        assert(out@ =~= location_text(*self));
        out
    }

    /// The location as it is tagged: `Inside(` address `)` or `Outside`.
    pub fn to_tag(&self) -> (text: String)
        ensures
            text@ == location_tag(*self),
    {
        let mut out = String::new();
        match self {
            Location::Inside(address) => {
                out.append("Inside(");
                push_address(&mut out, address);
                out.append(")");
            },
            Location::Outside => {
                out.append("Outside");
            },
        }
        assert(out@ =~= location_tag(*self));
        out
    }
}

} // verus!
