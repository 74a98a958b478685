//! The points that one flush hands to the time-series sink: one point for
//! every cache entry, tagged with the number of the batch it belongs to.

use vstd::prelude::*;
use vstd::wrapping::i64_specs;

use crate::cache::AggregatedKey;
use crate::cache::CommunicationData;
use crate::location::Location;

verus! {

/// Nanoseconds in one second.
pub const NANOS_PER_SECOND: i64 = 1_000_000_000;

/// One point of a write batch. The endpoints, the VLANs, the protocol and
/// the batch number are its tags, the two counters its fields.
#[derive(Debug, PartialEq, Eq, Copy, Clone, Structural)]
pub struct Point {
    pub source: Location,
    pub target: Location,
    pub src_vlan: u32,
    pub dst_vlan: u32,
    pub proto: u32,
    pub batch_number: i64,
    pub packets: i64,
    pub bytes: i64,
    pub timestamp: i64,
}

/// A 64-bit counter read as a signed 64-bit integer with the same bits:
/// itself where it fits, and `2^64` less where it does not.
pub open spec fn as_signed(x: u64) -> i64 {
    i64_specs::signed_crop(x as int)
}

/// The start of a window in nanoseconds, as a signed 64-bit integer. Where
/// the product leaves 64 bits it wraps around.
pub open spec fn window_nanos(time: u64) -> i64 {
    i64_specs::wrapping_mul(as_signed(time), 1_000_000_000i64)
}

/// The point written for one cache entry in batch `batch_number`.
pub open spec fn point_of(entry: (AggregatedKey, CommunicationData), batch_number: i64) -> Point {
    Point {
        source: entry.0.source,
        target: entry.0.target,
        src_vlan: entry.0.src_vlan,
        dst_vlan: entry.0.dst_vlan,
        proto: entry.0.proto,
        batch_number,
        packets: as_signed(entry.1.packets),
        bytes: as_signed(entry.1.bytes),
        timestamp: window_nanos(entry.0.time),
    }
}

/// The batch written for `entries`: one point for each entry, in the order
/// of the entries.
pub open spec fn batch_of(entries: Seq<(AggregatedKey, CommunicationData)>, batch_number: i64) -> Seq<
    Point,
> {
    Seq::new(entries.len(), |i: int| point_of(entries[i], batch_number))
}

/// A counter that fits a signed 64-bit integer is written unchanged.
pub proof fn as_signed_in_range(x: u64)
    requires
        x <= i64::MAX,
    ensures
        as_signed(x) == x,
{
}

/// A window start whose nanoseconds fit a signed 64-bit integer is written
/// as exactly its seconds times `10^9`.
pub proof fn window_nanos_in_range(time: u64)
    requires
        time * 1_000_000_000 <= i64::MAX,
    ensures
        window_nanos(time) == time * 1_000_000_000,
{
    assert(time <= i64::MAX) by (nonlinear_arith)
        requires
            time * 1_000_000_000 <= i64::MAX,
    ;
}

/// Reads a 64-bit counter as a signed 64-bit integer with the same bits.
pub fn to_signed(x: u64) -> (r: i64)
    ensures
        r == as_signed(x),
{
    if x <= 0x7fff_ffff_ffff_ffff {
        x as i64
    } else {
        let low: u64 = x - 0x8000_0000_0000_0000;
        (low as i64) + i64::MIN
    }
}

/// Converts a window start from seconds to nanoseconds.
pub fn to_nanos(time: u64) -> (r: i64)
    ensures
        r == window_nanos(time),
{
    to_signed(time).wrapping_mul(NANOS_PER_SECOND)
}

/// Builds the point of one cache entry.
pub fn make_point(key: &AggregatedKey, data: &CommunicationData, batch_number: i64) -> (p: Point)
    ensures
        p == point_of((*key, *data), batch_number),
{
    Point {
        source: key.source,
        target: key.target,
        src_vlan: key.src_vlan,
        dst_vlan: key.dst_vlan,
        proto: key.proto,
        batch_number,
        packets: to_signed(data.packets),
        bytes: to_signed(data.bytes),
        timestamp: to_nanos(key.time),
    }
}

/// Builds the write batch for `entries`: every entry gives one point, and
/// every point carries `batch_number`.
pub fn build_batch(entries: &Vec<(AggregatedKey, CommunicationData)>, batch_number: i64) -> (batch: Vec<
    Point,
>)
    ensures
        batch@ == batch_of(entries@, batch_number),
{
    let mut batch: Vec<Point> = Vec::new();
    let mut i: usize = 0;
    while i < entries.len()
        invariant
            i <= entries.len(),
            batch@ == batch_of(entries@.take(i as int), batch_number),
        decreases entries.len() - i,
    {
        batch.push(make_point(&entries[i].0, &entries[i].1, batch_number));
        assert(batch@ =~= batch_of(entries@.take(i + 1), batch_number));
        i = i + 1;
    }
    assert(entries@.take(i as int) =~= entries@);
    batch
}

} // verus!
