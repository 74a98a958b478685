//! The aggregation cache: one accumulating pair of counters for every
//! aggregation key seen since the cache was last emptied.

use vstd::prelude::*;

use crate::location::Location;

verus! {

/// What flows are grouped by: the start of the time window, the two
/// classified endpoints, the VLANs and the protocol.
#[derive(Debug, PartialEq, Eq, PartialOrd, Ord, Hash, Copy, Clone, Structural)]
pub struct AggregatedKey {
    pub time: u64,
    pub source: Location,
    pub target: Location,
    pub src_vlan: u32,
    pub dst_vlan: u32,
    pub proto: u32,
}

/// The counters accumulated under one key.
#[derive(Debug, PartialEq, Eq, PartialOrd, Ord, Copy, Clone, Structural)]
pub struct CommunicationData {
    pub packets: u64,
    pub bytes: u64,
}

/// Whether some entry of `entries` is filed under `key`.
pub open spec fn has_key(entries: Seq<(AggregatedKey, CommunicationData)>, key: AggregatedKey) -> bool {
    exists|i: int| 0 <= i < entries.len() && (#[trigger] entries[i]).0 == key
}

/// Whether no key occurs twice in `entries`.
pub open spec fn distinct_keys(entries: Seq<(AggregatedKey, CommunicationData)>) -> bool {
    forall|i: int, j: int|
        0 <= i < j < entries.len() ==> (#[trigger] entries[i]).0 != (#[trigger] entries[j]).0
}

/// An index at which `key` is filed, where it is filed at all.
pub open spec fn position(entries: Seq<(AggregatedKey, CommunicationData)>, key: AggregatedKey) -> int {
    choose|i: int| 0 <= i < entries.len() && (#[trigger] entries[i]).0 == key
}

/// The counters filed under `key`, if any.
pub open spec fn lookup(entries: Seq<(AggregatedKey, CommunicationData)>, key: AggregatedKey) -> Option<
    CommunicationData,
> {
    if has_key(entries, key) {
        Some(entries[position(entries, key)].1)
    } else {
        None
    }
}

/// The counters filed under `key`, counting an absent key as zero.
pub open spec fn counted(entries: Seq<(AggregatedKey, CommunicationData)>, key: AggregatedKey) -> (int, int) {
    match lookup(entries, key) {
        Some(data) => (data.packets as int, data.bytes as int),
        None => (0int, 0int),
    }
}

/// Whether adding `packets` and `bytes` under `key` stays within 64 bits.
pub open spec fn fits(
    entries: Seq<(AggregatedKey, CommunicationData)>,
    key: AggregatedKey,
    packets: u64,
    bytes: u64,
) -> bool {
    &&& counted(entries, key).0 + packets <= u64::MAX
    &&& counted(entries, key).1 + bytes <= u64::MAX
}

/// The entries after `packets` and `bytes` were merged under `key`: a new
/// entry at the end where the key was absent, else the sums in the place of
/// the existing entry. Entries keep the order in which their keys first
/// arrived.
pub open spec fn merged(
    entries: Seq<(AggregatedKey, CommunicationData)>,
    key: AggregatedKey,
    packets: u64,
    bytes: u64,
) -> Seq<(AggregatedKey, CommunicationData)> {
    if has_key(entries, key) {
        let i = position(entries, key);
        entries.update(
            i,
            (
                key,
                CommunicationData {
                    packets: (entries[i].1.packets + packets) as u64,
                    bytes: (entries[i].1.bytes + bytes) as u64,
                },
            ),
        )
    } else {
        entries.push((key, CommunicationData { packets, bytes }))
    }
}

/// The entries read as a mapping from key to counters.
pub open spec fn as_map(entries: Seq<(AggregatedKey, CommunicationData)>) -> Map<
    AggregatedKey,
    CommunicationData,
> {
    Map::new(
        |key: AggregatedKey| has_key(entries, key),
        |key: AggregatedKey| entries[position(entries, key)].1,
    )
}

/// Where keys are distinct, a key is filed at exactly one index.
pub proof fn position_is_unique(entries: Seq<(AggregatedKey, CommunicationData)>, key: AggregatedKey, i: int)
    requires
        distinct_keys(entries),
        0 <= i < entries.len(),
        entries[i].0 == key,
    ensures
        has_key(entries, key),
        position(entries, key) == i,
        lookup(entries, key) == Some(entries[i].1),
{
    let p = position(entries, key);
    assert(0 <= p < entries.len() && entries[p].0 == key);
    if p < i {
        assert(entries[p].0 != entries[i].0);
    } else if i < p {
        assert(entries[i].0 != entries[p].0);
    }
}

/// Merging keeps keys distinct and files the sums under the merged key.
pub proof fn merged_files_the_sum(
    entries: Seq<(AggregatedKey, CommunicationData)>,
    key: AggregatedKey,
    packets: u64,
    bytes: u64,
)
    requires
        distinct_keys(entries),
        fits(entries, key, packets, bytes),
    ensures
        distinct_keys(merged(entries, key, packets, bytes)),
        counted(merged(entries, key, packets, bytes), key) == (
            counted(entries, key).0 + packets,
            counted(entries, key).1 + bytes,
        ),
        lookup(merged(entries, key, packets, bytes), key) is Some,
{
    let after = merged(entries, key, packets, bytes);
    if has_key(entries, key) {
        let i = position(entries, key);
        assert forall|a: int, b: int| 0 <= a < b < after.len() implies (#[trigger] after[a]).0
            != (#[trigger] after[b]).0 by {
            assert(after[a].0 == entries[a].0);
            assert(after[b].0 == entries[b].0);
        }
        position_is_unique(after, key, i);
    } else {
        assert forall|a: int, b: int| 0 <= a < b < after.len() implies (#[trigger] after[a]).0
            != (#[trigger] after[b]).0 by {
            assert(after[a] == entries[a]);
            if b < entries.len() {
                assert(after[b] == entries[b]);
            }
        }
        position_is_unique(after, key, entries.len() as int);
    }
}

/// Merging under one key leaves what is filed under every other key alone.
pub proof fn merged_touches_one_key(
    entries: Seq<(AggregatedKey, CommunicationData)>,
    key: AggregatedKey,
    packets: u64,
    bytes: u64,
    other: AggregatedKey,
)
    requires
        distinct_keys(entries),
        fits(entries, key, packets, bytes),
        other != key,
    ensures
        lookup(merged(entries, key, packets, bytes), other) == lookup(entries, other),
{
    let after = merged(entries, key, packets, bytes);
    merged_files_the_sum(entries, key, packets, bytes);
    if has_key(entries, other) {
        let j = position(entries, other);
        assert(after[j] == entries[j]);
        position_is_unique(after, other, j);
    } else {
        if has_key(after, other) {
            let j = position(after, other);
            if j < entries.len() {
                assert(entries[j].0 == after[j].0);
            }
            assert(false);
        }
    }
}

/// Read as a mapping, merging is one insertion of the summed counters.
pub proof fn merged_as_map(
    entries: Seq<(AggregatedKey, CommunicationData)>,
    key: AggregatedKey,
    packets: u64,
    bytes: u64,
)
    requires
        distinct_keys(entries),
        fits(entries, key, packets, bytes),
    ensures
        as_map(merged(entries, key, packets, bytes)) == as_map(entries).insert(
            key,
            CommunicationData {
                packets: (counted(entries, key).0 + packets) as u64,
                bytes: (counted(entries, key).1 + bytes) as u64,
            },
        ),
{
    let after = merged(entries, key, packets, bytes);
    let sum = CommunicationData {
        packets: (counted(entries, key).0 + packets) as u64,
        bytes: (counted(entries, key).1 + bytes) as u64,
    };
    merged_files_the_sum(entries, key, packets, bytes);
    let target = as_map(entries).insert(key, sum);
    assert forall|k: AggregatedKey| #[trigger] as_map(after).dom().contains(k)
        == target.dom().contains(k) by {
        if k != key {
            merged_touches_one_key(entries, key, packets, bytes, k);
        }
    }
    assert forall|k: AggregatedKey| #[trigger] as_map(after).dom().contains(k) implies as_map(after)[k]
        == target[k] by {
        if k != key {
            merged_touches_one_key(entries, key, packets, bytes, k);
        }
    }
    assert(as_map(after) =~= target);
}

/// Two records with the same key merge to the sum of their counters,
/// whichever arrives first.
pub proof fn merge_order_is_irrelevant(
    entries: Seq<(AggregatedKey, CommunicationData)>,
    key: AggregatedKey,
    first_packets: u64,
    first_bytes: u64,
    second_packets: u64,
    second_bytes: u64,
)
    requires
        distinct_keys(entries),
        counted(entries, key).0 + first_packets + second_packets <= u64::MAX,
        counted(entries, key).1 + first_bytes + second_bytes <= u64::MAX,
    ensures
        merged(merged(entries, key, first_packets, first_bytes), key, second_packets, second_bytes)
            == merged(
            merged(entries, key, second_packets, second_bytes),
            key,
            first_packets,
            first_bytes,
        ),
        counted(
            merged(merged(entries, key, first_packets, first_bytes), key, second_packets, second_bytes),
            key,
        ) == (
            counted(entries, key).0 + first_packets + second_packets,
            counted(entries, key).1 + first_bytes + second_bytes,
        ),
{
    let one = merged(entries, key, first_packets, first_bytes);
    let two = merged(entries, key, second_packets, second_bytes);
    merged_files_the_sum(entries, key, first_packets, first_bytes);
    merged_files_the_sum(entries, key, second_packets, second_bytes);
    merged_files_the_sum(one, key, second_packets, second_bytes);
    merged_files_the_sum(two, key, first_packets, first_bytes);
    let i = if has_key(entries, key) {
        position(entries, key)
    } else {
        entries.len() as int
    };
    position_is_unique(one, key, i);
    position_is_unique(two, key, i);
    assert(merged(one, key, second_packets, second_bytes) =~= merged(
        two,
        key,
        first_packets,
        first_bytes,
    ));
}

/// The aggregation cache. It holds at most one entry for each key, in the
/// order in which the keys first arrived.
pub struct AggregationCache {
    entries: Vec<(AggregatedKey, CommunicationData)>,
}

impl AggregationCache {
    #[verifier::type_invariant]
    spec fn well_formed(self) -> bool {
        distinct_keys(self.entries@)
    }

    /// The entries of the cache, in the order in which their keys first
    /// arrived.
    pub closed spec fn entries(self) -> Seq<(AggregatedKey, CommunicationData)> {
        self.entries@
    }

    /// The cache read as a mapping from key to counters.
    pub open spec fn view(self) -> Map<AggregatedKey, CommunicationData> {
        as_map(self.entries())
    }

    /// An empty cache.
    pub fn new() -> (cache: AggregationCache)
        ensures
            cache.entries() == Seq::<(AggregatedKey, CommunicationData)>::empty(),
    {
        AggregationCache { entries: Vec::new() }
    }

    /// Number of entries.
    pub fn len(&self) -> (n: usize)
        ensures
            n == self.entries().len(),
    {
        self.entries.len()
    }

    /// Whether the cache holds no entry.
    pub fn is_empty(&self) -> (r: bool)
        ensures
            r == (self.entries().len() == 0),
    {
        self.entries.len() == 0
    }

    /// The index at which `key` is filed, if it is filed.
    fn find(&self, key: &AggregatedKey) -> (r: Option<usize>)
        ensures
            distinct_keys(self.entries@),
            match r {
                Some(i) => i < self.entries@.len() && self.entries@[i as int].0 == *key
                    && has_key(self.entries@, *key) && position(self.entries@, *key) == i,
                None => !has_key(self.entries@, *key),
            },
    {
        proof {
            use_type_invariant(self);
        }
        let mut i: usize = 0;
        while i < self.entries.len()
            invariant
                i <= self.entries.len(),
                distinct_keys(self.entries@),
                forall|j: int| 0 <= j < i ==> (#[trigger] self.entries@[j]).0 != *key,
            decreases self.entries.len() - i,
        {
            if self.entries[i].0 == *key {
                proof {
                    position_is_unique(self.entries@, *key, i as int);
                }
                return Some(i);
            }
            i = i + 1;
        }
        None
    }

    /// The counters filed under `key`, if any.
    pub fn get(&self, key: &AggregatedKey) -> (r: Option<CommunicationData>)
        ensures
            r == lookup(self.entries(), *key),
    {
        match self.find(key) {
            Some(i) => Some(self.entries[i].1),
            None => None,
        }
    }

    /// Whether `packets` and `bytes` can be merged under `key` without a
    /// counter leaving 64 bits.
    pub fn can_merge(&self, key: &AggregatedKey, packets: u64, bytes: u64) -> (r: bool)
        ensures
            r == fits(self.entries(), *key, packets, bytes),
    {
        match self.get(key) {
            Some(data) => packets <= u64::MAX - data.packets && bytes <= u64::MAX - data.bytes,
            None => true,
        }
    }

    /// Merges the counters of one record: a key not yet present gets an
    /// entry with these counters, a key already present has them added to
    /// its entry. No other entry changes.
    pub fn merge(&mut self, key: AggregatedKey, packets: u64, bytes: u64)
        requires
            fits(old(self).entries(), key, packets, bytes),
        ensures
            final(self).entries() == merged(old(self).entries(), key, packets, bytes),
            distinct_keys(final(self).entries()),
    {
        let found: Option<usize> = self.find(&key);
        proof {
            merged_files_the_sum(self.entries@, key, packets, bytes);
        }
        let mut entries: Vec<(AggregatedKey, CommunicationData)> = Vec::new();
        core::mem::swap(&mut self.entries, &mut entries);
        match found {
            Some(i) => {
                let data: CommunicationData = entries[i].1;
                let sum = CommunicationData {
                    packets: data.packets + packets,
                    bytes: data.bytes + bytes,
                };
                entries.set(i, (key, sum));
            },
            None => {
                entries.push((key, CommunicationData { packets, bytes }));
            },
        }
        self.entries = entries;
    }

    /// A copy of the entries, in the order in which their keys first
    /// arrived.
    pub fn snapshot(&self) -> (entries: Vec<(AggregatedKey, CommunicationData)>)
        ensures
            entries@ == self.entries(),
            distinct_keys(entries@),
    {
        proof {
            use_type_invariant(self);
        }
        let mut out: Vec<(AggregatedKey, CommunicationData)> = Vec::new();
        let mut i: usize = 0;
        while i < self.entries.len()
            invariant
                i <= self.entries.len(),
                out@ == self.entries@.take(i as int),
            decreases self.entries.len() - i,
        {
            out.push(self.entries[i]);
            assert(self.entries@.take(i + 1) =~= self.entries@.take(i as int).push(self.entries@[i as int]));
            i = i + 1;
        }
        assert(self.entries@.take(i as int) =~= self.entries@);
        out
    }

    /// Removes every entry.
    pub fn clear(&mut self)
        ensures
            final(self).entries() == Seq::<(AggregatedKey, CommunicationData)>::empty(),
    {
        self.entries = Vec::new();
    }
}

} // verus!
