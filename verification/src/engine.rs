//! The aggregation-and-flush engine: it takes in one flow record at a time,
//! decides when the cache is due for a flush, hands out the batch to write
//! and empties the cache once the write is confirmed.
//!
//! The engine does no input or output. Its caller receives the records,
//! performs the write and the waiting, and tells the engine what happened.

use vstd::prelude::*;
use vstd::wrapping::i64_specs;
use vstd::wrapping::u64_specs;

use crate::address::ClassifyError;
use crate::cache::counted;
use crate::cache::distinct_keys;
use crate::cache::fits;
use crate::cache::merge_order_is_irrelevant;
use crate::cache::merged;
use crate::cache::AggregatedKey;
use crate::cache::AggregationCache;
use crate::cache::CommunicationData;
use crate::location::location_of;
use crate::location::parse_location;
use crate::location::Location;
use crate::monitor::Report;
use crate::point::batch_of;
use crate::point::build_batch;
use crate::point::Point;
use crate::range::CidrRange;
use crate::window::bucket_of;
use crate::window::time_bucket;

verus! {

/// Bytes counted for every merged record on top of its encoded length.
pub const RECORD_OVERHEAD: usize = 4;

/// Seconds to wait after a failed write before the flush is tried again.
pub const RETRY_DELAY_SECONDS: u64 = 5;

/// One decoded flow record.
#[derive(Debug, PartialEq, Eq, Clone)]
pub struct FlowRecord {
    pub etype: u32,
    pub src_addr: Vec<u8>,
    pub dst_addr: Vec<u8>,
    pub src_vlan: u32,
    pub dst_vlan: u32,
    pub proto: u32,
    pub bytes: u64,
    pub packets: u64,
    pub time_flow_start: u64,
    pub time_received: u64,
}

/// Where the engine stands in its cycle.
#[derive(Debug, PartialEq, Eq, Copy, Clone, Structural)]
pub enum Phase {
    /// The flush check is pending; no record may be taken in.
    Flushing,
    /// A batch was handed out and its write has not been reported yet.
    Writing,
    /// The next record may be taken in.
    Receiving,
}

/// How a flush check ended.
#[derive(Debug, PartialEq, Eq, Copy, Clone, Structural)]
pub enum FlushOutcome {
    /// The cache was not due; nothing was written.
    NotDue,
    /// The batch was written and the cache emptied.
    Flushed,
    /// The write failed; the cache is kept and the flush is tried again
    /// after the retry delay.
    FailedRetrying,
}

/// What the caller does after a flush check.
#[derive(Debug, PartialEq, Eq, Clone)]
pub enum FlushCheck {
    /// Nothing to write: go on to receive.
    NotDue,
    /// Write this batch and report how it went.
    Due(Vec<Point>),
}

/// What can go wrong while the engine is driven.
#[derive(Debug, PartialEq, Eq, Copy, Clone, Structural)]
pub enum Condition {
    /// The message bus reported an error instead of a message.
    ReceiveError,
    /// A message arrived without a payload.
    MissingPayload,
    /// A payload could not be decoded into a flow record.
    DecodeFailure,
    /// A record names no endpoint address.
    Unclassifiable,
    /// An endpoint address has the wrong number of bytes for its family.
    MalformedAddress,
    /// The sink refused a write.
    WriteFailure,
}

/// How the driver of the engine answers a condition.
#[derive(Debug, PartialEq, Eq, Copy, Clone, Structural)]
pub enum Handling {
    /// Go on with the next turn of the loop; no state is lost.
    Continue,
    /// Wait for the given number of seconds, then try the flush again.
    RetryAfter(u64),
    /// End the process.
    Abort,
}

/// What became of a record that was taken in.
#[derive(Debug, PartialEq, Eq, Copy, Clone, Structural)]
pub enum Ingest {
    /// The record names no endpoint address and was left out.
    Dropped,
    /// The record was merged into the cache.
    Merged,
}

/// Why a record could not be taken in.
#[derive(Debug, PartialEq, Eq, Copy, Clone, Structural)]
pub enum IngestError {
    /// An endpoint address has the wrong number of bytes for its family.
    MalformedAddress,
    /// The receive time does not fit a signed 64-bit integer.
    ReceiveTimeOutOfRange,
}

/// The state of the engine as plain values.
pub struct EngineState {
    /// The cache entries, in the order in which their keys first arrived.
    pub entries: Seq<(AggregatedKey, CommunicationData)>,
    /// Bytes counted for the records merged since the last successful flush.
    pub approx_size: usize,
    /// Number that the next batch will carry.
    pub batch_number: i64,
    /// Size from which on the cache is due for a flush.
    pub threshold: usize,
    /// The configured address ranges, in their configured order.
    pub ranges: Seq<CidrRange>,
    /// Where the engine stands in its cycle.
    pub phase: Phase,
    /// Bytes of all records received since the counter was last taken.
    pub transferred: u64,
    /// Receive time of the record merged last.
    pub last_processed: i64,
}

/// The state of a new engine.
pub open spec fn initial_state(threshold: usize, ranges: Seq<CidrRange>) -> EngineState {
    EngineState {
        entries: Seq::empty(),
        approx_size: 0,
        batch_number: 0,
        threshold,
        ranges,
        phase: Phase::Flushing,
        transferred: 0,
        last_processed: 0,
    }
}

/// Whether the cache is due for a flush.
pub open spec fn is_due(s: EngineState) -> bool {
    s.approx_size >= s.threshold
}

/// Whether the size counter and the cache agree: the counter is zero
/// exactly when the cache is empty.
pub open spec fn consistent(s: EngineState) -> bool {
    s.approx_size == 0 <==> s.entries.len() == 0
}

/// The state after a flush check. A due cache starts a write, which uses up
/// one batch number; a cache that is not due lets the next record in.
pub open spec fn after_check(s: EngineState) -> EngineState {
    if is_due(s) {
        EngineState {
            batch_number: i64_specs::wrapping_add(s.batch_number, 1i64),
            phase: Phase::Writing,
            ..s
        }
    } else {
        EngineState { phase: Phase::Receiving, ..s }
    }
}

/// The state after a write was reported. A successful write empties the
/// cache and resets the size counter; a failed one changes neither and
/// leads back to the flush check.
pub open spec fn after_write(s: EngineState, written: bool) -> EngineState {
    if written {
        EngineState { entries: Seq::empty(), approx_size: 0, phase: Phase::Receiving, ..s }
    } else {
        EngineState { phase: Phase::Flushing, ..s }
    }
}

/// The outcome of a flush whose write was reported.
pub open spec fn outcome_of(written: bool) -> FlushOutcome {
    if written {
        FlushOutcome::Flushed
    } else {
        FlushOutcome::FailedRetrying
    }
}

/// The state after a whole flush check with the given outcome.
pub open spec fn after_flush(s: EngineState, outcome: FlushOutcome) -> EngineState {
    match outcome {
        FlushOutcome::NotDue => after_check(s),
        FlushOutcome::Flushed => after_write(after_check(s), true),
        FlushOutcome::FailedRetrying => after_write(after_check(s), false),
    }
}

/// How each condition is answered: a receive error and an unclassifiable
/// record are passed over, a failed write is retried after the retry delay,
/// and everything else ends the process.
pub open spec fn handling_of(condition: Condition) -> Handling {
    match condition {
        Condition::ReceiveError => Handling::Continue,
        Condition::Unclassifiable => Handling::Continue,
        Condition::WriteFailure => Handling::RetryAfter(RETRY_DELAY_SECONDS),
        Condition::MissingPayload => Handling::Abort,
        Condition::DecodeFailure => Handling::Abort,
        Condition::MalformedAddress => Handling::Abort,
    }
}

/// Tells how the driver answers a condition.
pub fn handling(condition: Condition) -> (h: Handling)
    ensures
        h == handling_of(condition),
{
    match condition {
        Condition::ReceiveError | Condition::Unclassifiable => Handling::Continue,
        Condition::WriteFailure => Handling::RetryAfter(RETRY_DELAY_SECONDS),
        Condition::MissingPayload | Condition::DecodeFailure | Condition::MalformedAddress => {
            Handling::Abort
        },
    }
}

/// The state after a receive failed: nothing was taken in, and the flush
/// check comes next.
pub open spec fn after_receive_failure(s: EngineState) -> EngineState {
    EngineState { phase: Phase::Flushing, ..s }
}

/// The monitoring counters of a state.
pub open spec fn report_of(s: EngineState) -> Report {
    Report { last_processed: s.last_processed, cache_size: s.approx_size, transferred: s.transferred }
}

/// The state after a report was taken: the bytes transferred start again
/// from zero, and nothing else changes.
pub open spec fn after_report(s: EngineState) -> EngineState {
    EngineState { transferred: 0, ..s }
}

/// The aggregation key of a record: none where the family tag names no
/// address, an error where an endpoint address is malformed.
pub open spec fn record_key(record: FlowRecord, ranges: Seq<CidrRange>) -> Result<
    Option<AggregatedKey>,
    ClassifyError,
> {
    match location_of(record.etype, record.src_addr@, ranges) {
        Err(e) => Err(e),
        Ok(None) => Ok(None),
        Ok(Some(source)) => match location_of(record.etype, record.dst_addr@, ranges) {
            Err(e) => Err(e),
            Ok(None) => Ok(None),
            Ok(Some(target)) => Ok(
                Some(
                    AggregatedKey {
                        time: bucket_of(record.time_flow_start as nat) as u64,
                        source,
                        target,
                        src_vlan: record.src_vlan,
                        dst_vlan: record.dst_vlan,
                        proto: record.proto,
                    },
                ),
            ),
        },
    }
}

/// What taking in a record gives.
pub open spec fn ingest_result(record: FlowRecord, ranges: Seq<CidrRange>) -> Result<
    Ingest,
    IngestError,
> {
    match record_key(record, ranges) {
        Err(_) => Err(IngestError::MalformedAddress),
        Ok(None) => Ok(Ingest::Dropped),
        Ok(Some(_)) => if record.time_received > i64::MAX {
            Err(IngestError::ReceiveTimeOutOfRange)
        } else {
            Ok(Ingest::Merged)
        },
    }
}

/// Whether the counters have room for a record: merging it keeps the two
/// counters of its key within 64 bits and the size counter within `usize`.
/// A record that is not merged needs no room.
pub open spec fn has_room(s: EngineState, record: FlowRecord, payload_len: usize) -> bool {
    match record_key(record, s.ranges) {
        Ok(Some(key)) => record.time_received <= i64::MAX ==> {
            &&& fits(s.entries, key, record.packets, record.bytes)
            &&& s.approx_size + RECORD_OVERHEAD + payload_len <= usize::MAX
        },
        _ => true,
    }
}

/// The state after a record was taken in. The bytes of every record count
/// as transferred. A merged record adds its counters under its key, its
/// overhead and encoded length to the size counter, and becomes the record
/// processed last; the flush check comes next. A dropped record changes
/// nothing else, and a refused one leaves the engine waiting as it was.
pub open spec fn after_record(s: EngineState, record: FlowRecord, payload_len: usize) -> EngineState {
    let counted = EngineState {
        transferred: u64_specs::wrapping_add(s.transferred, record.bytes),
        ..s
    };
    match record_key(record, s.ranges) {
        Err(_) => counted,
        Ok(None) => EngineState { phase: Phase::Flushing, ..counted },
        Ok(Some(key)) => if record.time_received > i64::MAX {
            counted
        } else {
            EngineState {
                entries: merged(s.entries, key, record.packets, record.bytes),
                approx_size: (s.approx_size + RECORD_OVERHEAD + payload_len) as usize,
                last_processed: record.time_received as i64,
                phase: Phase::Flushing,
                ..counted
            }
        },
    }
}

/// A flush check starts a write exactly when the size counter has reached
/// the threshold: never below it, and at the first check at or above it.
pub proof fn flush_starts_exactly_when_due(s: EngineState)
    requires
        s.phase == Phase::Flushing,
    ensures
        after_check(s).phase == Phase::Writing <==> s.approx_size >= s.threshold,
        after_check(s).phase == Phase::Receiving <==> s.approx_size < s.threshold,
        after_check(s).entries == s.entries,
        after_check(s).approx_size == s.approx_size,
{
}

/// A failed flush leaves the cache and the size counter exactly as they
/// were before the attempt, and leaves the cache due, so that the next check
/// tries again.
pub proof fn failed_flush_keeps_everything(s: EngineState)
    requires
        is_due(s),
    ensures
        after_write(after_check(s), false).entries == s.entries,
        after_write(after_check(s), false).approx_size == s.approx_size,
        after_write(after_check(s), false).phase == Phase::Flushing,
        is_due(after_write(after_check(s), false)),
{
}

/// Every flush attempt uses up one batch number, whether its write succeeds
/// or fails, so that a later attempt never carries the number of an earlier
/// one. The largest 64-bit number is left out: the attempt after it starts
/// again from the smallest.
pub proof fn batch_numbers_increase(s: EngineState, written: bool)
    requires
        is_due(s),
        s.batch_number < i64::MAX,
    ensures
        after_check(s).batch_number == s.batch_number + 1,
        after_write(after_check(s), written).batch_number == s.batch_number + 1,
{
}

/// No step of the engine ever lowers the batch number or changes it outside
/// a flush attempt.
pub proof fn batch_number_changes_only_on_attempts(
    s: EngineState,
    written: bool,
    record: FlowRecord,
    payload_len: usize,
)
    ensures
        after_write(s, written).batch_number == s.batch_number,
        after_receive_failure(s).batch_number == s.batch_number,
        after_report(s).batch_number == s.batch_number,
        after_record(s, record, payload_len).batch_number == s.batch_number,
        !is_due(s) ==> after_check(s).batch_number == s.batch_number,
{
}

/// A successful flush empties the cache and resets the size counter
/// together.
pub proof fn successful_flush_resets_both(s: EngineState)
    ensures
        after_write(s, true).entries.len() == 0,
        after_write(s, true).approx_size == 0,
        after_write(s, true).phase == Phase::Receiving,
{
}

/// The size counter and the cache stay in agreement through every step: a
/// new engine has both empty, merging a record makes both non-empty, and
/// only a successful flush resets them.
pub proof fn steps_keep_size_and_cache_consistent(
    s: EngineState,
    written: bool,
    record: FlowRecord,
    payload_len: usize,
)
    requires
        consistent(s),
        has_room(s, record, payload_len),
    ensures
        consistent(initial_state(s.threshold, s.ranges)),
        consistent(after_check(s)),
        consistent(after_write(s, written)),
        consistent(after_receive_failure(s)),
        consistent(after_report(s)),
        consistent(after_record(s, record, payload_len)),
{
}

/// Two records with the same aggregation key merge to the sum of their
/// counters, whichever of them is taken in first.
pub proof fn same_key_records_merge_to_their_sum(
    s: EngineState,
    first: FlowRecord,
    first_len: usize,
    second: FlowRecord,
    second_len: usize,
    key: AggregatedKey,
)
    requires
        distinct_keys(s.entries),
        record_key(first, s.ranges) == Ok::<Option<AggregatedKey>, ClassifyError>(Some(key)),
        record_key(second, s.ranges) == Ok::<Option<AggregatedKey>, ClassifyError>(Some(key)),
        first.time_received <= i64::MAX,
        second.time_received <= i64::MAX,
        counted(s.entries, key).0 + first.packets + second.packets <= u64::MAX,
        counted(s.entries, key).1 + first.bytes + second.bytes <= u64::MAX,
    ensures
        after_record(after_record(s, first, first_len), second, second_len).entries
            == after_record(after_record(s, second, second_len), first, first_len).entries,
        counted(
            after_record(after_record(s, first, first_len), second, second_len).entries,
            key,
        ) == (
            counted(s.entries, key).0 + first.packets + second.packets,
            counted(s.entries, key).1 + first.bytes + second.bytes,
        ),
{
    merge_order_is_irrelevant(
        s.entries,
        key,
        first.packets,
        first.bytes,
        second.packets,
        second.bytes,
    );
}

/// A record that is not merged, whether dropped or refused, changes neither
/// the cache, nor the size counter, nor the time of the record processed
/// last.
pub proof fn dropped_record_changes_no_counter(s: EngineState, record: FlowRecord, payload_len: usize)
    requires
        ingest_result(record, s.ranges) != Ok::<Ingest, IngestError>(Ingest::Merged),
    ensures
        after_record(s, record, payload_len).entries == s.entries,
        after_record(s, record, payload_len).approx_size == s.approx_size,
        after_record(s, record, payload_len).last_processed == s.last_processed,
{
}

/// The aggregation-and-flush engine.
pub struct Aggregator {
    cache: AggregationCache,
    approx_size: usize,
    batch_number: i64,
    threshold: usize,
    ranges: Vec<CidrRange>,
    phase: Phase,
    transferred: u64,
    last_processed: i64,
}

impl Aggregator {
    /// The state of the engine as plain values.
    pub closed spec fn view(&self) -> EngineState {
        EngineState {
            entries: self.cache.entries(),
            approx_size: self.approx_size,
            batch_number: self.batch_number,
            threshold: self.threshold,
            ranges: self.ranges@,
            phase: self.phase,
            transferred: self.transferred,
            last_processed: self.last_processed,
        }
    }

    /// An engine with an empty cache that flushes once `threshold` bytes
    /// were counted and classifies endpoints against `ranges`.
    pub fn new(threshold: usize, ranges: Vec<CidrRange>) -> (engine: Aggregator)
        ensures
            engine@ == initial_state(threshold, ranges@),
    {
        Aggregator {
            cache: AggregationCache::new(),
            approx_size: 0,
            batch_number: 0,
            threshold,
            ranges,
            phase: Phase::Flushing,
            transferred: 0,
            last_processed: 0,
        }
    }

    /// Where the engine stands in its cycle.
    pub fn phase(&self) -> (p: Phase)
        ensures
            p == self@.phase,
    {
        self.phase
    }

    /// Bytes counted for the records merged since the last successful
    /// flush.
    pub fn approx_size(&self) -> (n: usize)
        ensures
            n == self@.approx_size,
    {
        self.approx_size
    }

    /// Size from which on the cache is due for a flush.
    pub fn threshold(&self) -> (n: usize)
        ensures
            n == self@.threshold,
    {
        self.threshold
    }

    /// Number that the next batch will carry.
    pub fn batch_number(&self) -> (n: i64)
        ensures
            n == self@.batch_number,
    {
        self.batch_number
    }

    /// Number of cache entries.
    pub fn cache_len(&self) -> (n: usize)
        ensures
            n == self@.entries.len(),
    {
        self.cache.len()
    }

    /// A copy of the cache entries, in the order in which their keys first
    /// arrived.
    pub fn snapshot(&self) -> (entries: Vec<(AggregatedKey, CommunicationData)>)
        ensures
            entries@ == self@.entries,
            distinct_keys(entries@),
    {
        self.cache.snapshot()
    }

    /// Bytes of all records received since the counter was last taken.
    pub fn transferred(&self) -> (n: u64)
        ensures
            n == self@.transferred,
    {
        self.transferred
    }

    /// Receive time of the record merged last.
    pub fn last_processed(&self) -> (t: i64)
        ensures
            t == self@.last_processed,
    {
        self.last_processed
    }

    /// Takes a snapshot of the monitoring counters and starts the count of
    /// transferred bytes again from zero. The cache is not touched.
    pub fn take_report(&mut self) -> (report: Report)
        ensures
            report == report_of(old(self)@),
            final(self)@ == after_report(old(self)@),
    {
        let report = Report {
            last_processed: self.last_processed,
            cache_size: self.approx_size,
            transferred: self.transferred,
        };
        self.transferred = 0;
        report
    }

    /// Whether the cache is due for a flush.
    pub fn flush_due(&self) -> (due: bool)
        ensures
            due == is_due(self@),
    {
        self.approx_size >= self.threshold
    }

    /// Checks whether the cache is due for a flush. If it is, the batch
    /// holds one point for every cache entry, each tagged with the batch
    /// number that this attempt uses up.
    pub fn check_flush(&mut self) -> (step: FlushCheck)
        requires
            old(self)@.phase == Phase::Flushing,
        ensures
            final(self)@ == after_check(old(self)@),
            match step {
                FlushCheck::NotDue => !is_due(old(self)@),
                FlushCheck::Due(batch) => is_due(old(self)@) && batch@ == batch_of(
                    old(self)@.entries,
                    old(self)@.batch_number,
                ),
            },
    {
        if self.approx_size >= self.threshold {
            let entries = self.cache.snapshot();
            let batch = build_batch(&entries, self.batch_number);
            self.batch_number = self.batch_number.wrapping_add(1);
            self.phase = Phase::Writing;
            FlushCheck::Due(batch)
        } else {
            self.phase = Phase::Receiving;
            FlushCheck::NotDue
        }
    }

    /// Takes the report of a write. After a successful write the cache is
    /// empty and the size counter zero; after a failed one both are as they
    /// were before the attempt.
    pub fn complete_flush(&mut self, written: bool) -> (outcome: FlushOutcome)
        requires
            old(self)@.phase == Phase::Writing,
        ensures
            final(self)@ == after_write(old(self)@, written),
            outcome == outcome_of(written),
    {
        if written {
            self.cache.clear();
            self.approx_size = 0;
            self.phase = Phase::Receiving;
            FlushOutcome::Flushed
        } else {
            self.phase = Phase::Flushing;
            FlushOutcome::FailedRetrying
        }
    }

    /// Runs one whole flush check with a write that reports at once: checks
    /// whether the cache is due, hands a due batch to `write`, and takes
    /// what `write` says as the report of the write.
    pub fn maybe_flush<F: FnOnce(&Vec<Point>) -> bool>(&mut self, write: F) -> (outcome:
        FlushOutcome)
        requires
            old(self)@.phase == Phase::Flushing,
            forall|batch: &Vec<Point>| #[trigger] write.requires((batch,)),
        ensures
            outcome == FlushOutcome::NotDue <==> !is_due(old(self)@),
            final(self)@ == after_flush(old(self)@, outcome),
            is_due(old(self)@) ==> exists|batch: Vec<Point>, written: bool|
                batch@ == batch_of(old(self)@.entries, old(self)@.batch_number)
                    && #[trigger] write.ensures((&batch,), written) && outcome == outcome_of(
                    written,
                ),
    {
        match self.check_flush() {
            FlushCheck::NotDue => FlushOutcome::NotDue,
            FlushCheck::Due(batch) => {
                let written: bool = write(&batch);
                self.complete_flush(written)
            },
        }
    }

    /// Takes the report of a failed receive: no record was taken in.
    pub fn receive_failed(&mut self)
        requires
            old(self)@.phase == Phase::Receiving,
        ensures
            final(self)@ == after_receive_failure(old(self)@),
    {
        self.phase = Phase::Flushing;
    }

    /// The aggregation key of a record.
    pub fn key_for(&self, record: &FlowRecord) -> (r: Result<Option<AggregatedKey>, ClassifyError>)
        ensures
            r == record_key(*record, self@.ranges),
    {
        let source: Location = match parse_location(record.etype, &record.src_addr, &self.ranges) {
            Err(e) => {
                return Err(e);
            },
            Ok(None) => {
                return Ok(None);
            },
            Ok(Some(location)) => location,
        };
        let target: Location = match parse_location(record.etype, &record.dst_addr, &self.ranges) {
            Err(e) => {
                return Err(e);
            },
            Ok(None) => {
                return Ok(None);
            },
            Ok(Some(location)) => location,
        };
        Ok(
            Some(
                AggregatedKey {
                    time: time_bucket(record.time_flow_start),
                    source,
                    target,
                    src_vlan: record.src_vlan,
                    dst_vlan: record.dst_vlan,
                    proto: record.proto,
                },
            ),
        )
    }

    /// Whether the counters have room for a record whose key is known.
    fn room_with(
        &self,
        keyed: &Result<Option<AggregatedKey>, ClassifyError>,
        record: &FlowRecord,
        payload_len: usize,
    ) -> (r: bool)
        requires
            *keyed == record_key(*record, self@.ranges),
        ensures
            r == has_room(self@, *record, payload_len),
    {
        match keyed {
            Ok(Some(key)) => {
                record.time_received > 0x7fff_ffff_ffff_ffff || (self.cache.can_merge(
                    key,
                    record.packets,
                    record.bytes,
                ) && payload_len <= usize::MAX - RECORD_OVERHEAD && self.approx_size <= usize::MAX
                    - RECORD_OVERHEAD - payload_len)
            },
            _ => true,
        }
    }

    /// Takes in a record whose key is known.
    fn take(
        &mut self,
        keyed: Result<Option<AggregatedKey>, ClassifyError>,
        record: &FlowRecord,
        payload_len: usize,
    ) -> (r: Result<Ingest, IngestError>)
        requires
            keyed == record_key(*record, old(self)@.ranges),
            has_room(old(self)@, *record, payload_len),
        ensures
            r == ingest_result(*record, old(self)@.ranges),
            final(self)@ == after_record(old(self)@, *record, payload_len),
    {
        self.transferred = self.transferred.wrapping_add(record.bytes);
        match keyed {
            Err(_) => Err(IngestError::MalformedAddress),
            Ok(None) => {
                self.phase = Phase::Flushing;
                Ok(Ingest::Dropped)
            },
            Ok(Some(key)) => {
                if record.time_received > 0x7fff_ffff_ffff_ffff {
                    return Err(IngestError::ReceiveTimeOutOfRange);
                }
                self.cache.merge(key, record.packets, record.bytes);
                self.last_processed = record.time_received as i64;
                self.approx_size = self.approx_size + (RECORD_OVERHEAD + payload_len);
                self.phase = Phase::Flushing;
                Ok(Ingest::Merged)
            },
        }
    }

    /// Whether the counters have room for a record.
    pub fn room_for(&self, record: &FlowRecord, payload_len: usize) -> (r: bool)
        ensures
            r == has_room(self@, *record, payload_len),
    {
        let keyed = self.key_for(record);
        self.room_with(&keyed, record, payload_len)
    }

    /// Takes in one record with the length of its encoding.
    pub fn ingest(&mut self, record: &FlowRecord, payload_len: usize) -> (r: Result<
        Ingest,
        IngestError,
    >)
        requires
            old(self)@.phase == Phase::Receiving,
            has_room(old(self)@, *record, payload_len),
        ensures
            r == ingest_result(*record, old(self)@.ranges),
            final(self)@ == after_record(old(self)@, *record, payload_len),
    {
        let keyed = self.key_for(record);
        self.take(keyed, record, payload_len)
    }

    /// Takes in one record if the counters have room for it, and says
    /// `None`, changing nothing, if they have not.
    pub fn try_ingest(&mut self, record: &FlowRecord, payload_len: usize) -> (r: Option<
        Result<Ingest, IngestError>,
    >)
        requires
            old(self)@.phase == Phase::Receiving,
        ensures
            has_room(old(self)@, *record, payload_len) ==> r == Some(
                ingest_result(*record, old(self)@.ranges),
            ) && final(self)@ == after_record(old(self)@, *record, payload_len),
            !has_room(old(self)@, *record, payload_len) ==> r is None && final(self)@ == old(
                self,
            )@,
    {
        let keyed = self.key_for(record);
        if self.room_with(&keyed, record, payload_len) {
            Some(self.take(keyed, record, payload_len))
        } else {
            None
        }
    }
}

} // verus!
