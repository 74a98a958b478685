use flow_aggregator::address::IpAddress;
use flow_aggregator::cache::AggregatedKey;
use flow_aggregator::cache::CommunicationData;
use flow_aggregator::engine::Aggregator;
use flow_aggregator::engine::FlowRecord;
use flow_aggregator::engine::FlushCheck;
use flow_aggregator::engine::FlushOutcome;
use flow_aggregator::engine::Ingest;
use flow_aggregator::engine::IngestError;
use flow_aggregator::engine::Phase;
use flow_aggregator::engine::RECORD_OVERHEAD;
use flow_aggregator::engine::RETRY_DELAY_SECONDS;
use flow_aggregator::location::Location;
use flow_aggregator::point::Point;
use flow_aggregator::range::CidrRange;

fn ranges() -> Vec<CidrRange> {
    vec![CidrRange::parse("10.0.0.0/8").unwrap()]
}

fn record(proto: u32, time_flow_start: u64, packets: u64, bytes: u64) -> FlowRecord {
    FlowRecord {
        etype: 0x0800,
        src_addr: vec![10, 1, 2, 3],
        dst_addr: vec![8, 8, 8, 8],
        src_vlan: 10,
        dst_vlan: 20,
        proto,
        bytes,
        packets,
        time_flow_start,
        time_received: 1_700_000_000,
    }
}

fn key(time: u64, proto: u32) -> AggregatedKey {
    AggregatedKey {
        time,
        source: Location::Inside(IpAddress::V4(0x0a01_0203)),
        target: Location::Outside,
        src_vlan: 10,
        dst_vlan: 20,
        proto,
    }
}

fn receive(engine: &mut Aggregator, r: &FlowRecord, payload_len: usize) -> Result<Ingest, IngestError> {
    assert_eq!(engine.check_flush(), FlushCheck::NotDue);
    engine.ingest(r, payload_len)
}

#[test]
fn constants_have_their_values() {
    assert_eq!(RECORD_OVERHEAD, 4);
    assert_eq!(RETRY_DELAY_SECONDS, 5);
}

#[test]
fn new_engine_is_empty_and_checks_first() {
    let engine = Aggregator::new(100, ranges());
    assert_eq!(engine.phase(), Phase::Flushing);
    assert_eq!(engine.approx_size(), 0);
    assert_eq!(engine.threshold(), 100);
    assert_eq!(engine.batch_number(), 0);
    assert_eq!(engine.cache_len(), 0);
    assert_eq!(engine.transferred(), 0);
    assert_eq!(engine.last_processed(), 0);
    assert!(!engine.flush_due());
}

#[test]
fn flush_is_not_due_below_the_threshold() {
    let mut engine = Aggregator::new(100, ranges());
    assert_eq!(receive(&mut engine, &record(6, 1000, 1, 10), 95), Ok(Ingest::Merged));
    assert_eq!(engine.approx_size(), 99);
    assert!(!engine.flush_due());
    assert_eq!(engine.check_flush(), FlushCheck::NotDue);
    assert_eq!(engine.phase(), Phase::Receiving);
    assert_eq!(engine.batch_number(), 0);
}

#[test]
fn flush_is_due_at_the_threshold() {
    let mut engine = Aggregator::new(100, ranges());
    assert_eq!(receive(&mut engine, &record(6, 1000, 1, 10), 96), Ok(Ingest::Merged));
    assert_eq!(engine.approx_size(), 100);
    assert!(engine.flush_due());
    match engine.check_flush() {
        FlushCheck::Due(batch) => assert_eq!(batch.len(), 1),
        FlushCheck::NotDue => panic!("the cache was due"),
    }
    assert_eq!(engine.phase(), Phase::Writing);
}

#[test]
fn three_records_reach_the_threshold_and_flush_once() {
    let mut engine = Aggregator::new(100, ranges());
    let mut attempts = 0;
    let mut written: Vec<Point> = vec![];
    let records = [record(6, 1000, 1, 10), record(17, 1000, 2, 20), record(6, 1100, 3, 30)];
    for r in &records {
        match engine.check_flush() {
            FlushCheck::Due(_) => panic!("flushed too early"),
            FlushCheck::NotDue => {},
        }
        assert_eq!(engine.ingest(r, 36), Ok(Ingest::Merged));
    }
    assert_eq!(engine.approx_size(), 120);
    match engine.check_flush() {
        FlushCheck::Due(batch) => {
            attempts += 1;
            written = batch;
            assert_eq!(engine.complete_flush(true), FlushOutcome::Flushed);
        },
        FlushCheck::NotDue => {},
    }
    assert_eq!(attempts, 1);
    assert_eq!(engine.phase(), Phase::Receiving);
    assert_eq!(
        written,
        vec![
            Point {
                source: Location::Inside(IpAddress::V4(0x0a01_0203)),
                target: Location::Outside,
                src_vlan: 10,
                dst_vlan: 20,
                proto: 6,
                batch_number: 0,
                packets: 4,
                bytes: 40,
                timestamp: 900_000_000_000,
            },
            Point {
                source: Location::Inside(IpAddress::V4(0x0a01_0203)),
                target: Location::Outside,
                src_vlan: 10,
                dst_vlan: 20,
                proto: 17,
                batch_number: 0,
                packets: 2,
                bytes: 20,
                timestamp: 900_000_000_000,
            },
        ]
    );
    assert_eq!(engine.cache_len(), 0);
    assert_eq!(engine.approx_size(), 0);
    assert_eq!(engine.ingest(&record(6, 1000, 9, 90), 36), Ok(Ingest::Merged));
    assert_eq!(engine.check_flush(), FlushCheck::NotDue);
}

#[test]
fn records_differing_in_protocol_get_two_entries() {
    let mut engine = Aggregator::new(80, ranges());
    assert_eq!(receive(&mut engine, &record(6, 1000, 1, 10), 36), Ok(Ingest::Merged));
    assert_eq!(receive(&mut engine, &record(17, 1000, 2, 20), 36), Ok(Ingest::Merged));
    assert_eq!(
        engine.snapshot(),
        vec![
            (key(900, 6), CommunicationData { packets: 1, bytes: 10 }),
            (key(900, 17), CommunicationData { packets: 2, bytes: 20 }),
        ]
    );
    match engine.check_flush() {
        FlushCheck::Due(batch) => {
            assert_eq!(batch.len(), 2);
            assert_eq!((batch[0].proto, batch[0].packets, batch[0].bytes), (6, 1, 10));
            assert_eq!((batch[1].proto, batch[1].packets, batch[1].bytes), (17, 2, 20));
        },
        FlushCheck::NotDue => panic!("the cache was due"),
    }
}

#[test]
fn failed_flush_keeps_cache_and_size() {
    let mut engine = Aggregator::new(50, ranges());
    assert_eq!(receive(&mut engine, &record(6, 1000, 1, 10), 36), Ok(Ingest::Merged));
    assert_eq!(receive(&mut engine, &record(17, 1000, 2, 20), 36), Ok(Ingest::Merged));
    let before = engine.snapshot();
    let size = engine.approx_size();
    let first = match engine.check_flush() {
        FlushCheck::Due(batch) => batch,
        FlushCheck::NotDue => panic!("the cache was due"),
    };
    assert_eq!(engine.complete_flush(false), FlushOutcome::FailedRetrying);
    assert_eq!(engine.snapshot(), before);
    assert_eq!(engine.approx_size(), size);
    assert_eq!(engine.phase(), Phase::Flushing);
    let second = match engine.check_flush() {
        FlushCheck::Due(batch) => batch,
        FlushCheck::NotDue => panic!("the cache was still due"),
    };
    assert_eq!(first.len(), second.len());
    assert_eq!(first[0].batch_number, 0);
    assert_eq!(second[0].batch_number, 1);
    assert_eq!(Point { batch_number: 1, ..first[1] }, second[1]);
    assert_eq!(engine.complete_flush(true), FlushOutcome::Flushed);
    assert_eq!(engine.batch_number(), 2);
    assert_eq!(engine.cache_len(), 0);
    assert_eq!(engine.approx_size(), 0);
}

#[test]
fn batch_numbers_count_every_attempt() {
    let mut engine = Aggregator::new(0, vec![]);
    for expected in 0..5 {
        assert_eq!(engine.batch_number(), expected);
        match engine.check_flush() {
            FlushCheck::Due(batch) => assert!(batch.is_empty()),
            FlushCheck::NotDue => panic!("a threshold of zero is always due"),
        }
        assert_eq!(engine.complete_flush(expected % 2 == 0), if expected % 2 == 0 {
            FlushOutcome::Flushed
        } else {
            FlushOutcome::FailedRetrying
        });
        if engine.phase() == Phase::Receiving {
            engine.receive_failed();
        }
    }
    assert_eq!(engine.batch_number(), 5);
}

#[test]
fn record_without_address_is_dropped() {
    let mut engine = Aggregator::new(100, ranges());
    let arp = FlowRecord { etype: 0x0806, ..record(6, 1000, 1, 10) };
    assert_eq!(receive(&mut engine, &arp, 36), Ok(Ingest::Dropped));
    assert_eq!(engine.cache_len(), 0);
    assert_eq!(engine.approx_size(), 0);
    assert_eq!(engine.last_processed(), 0);
    assert_eq!(engine.transferred(), 10);
    assert_eq!(engine.phase(), Phase::Flushing);
}

#[test]
fn malformed_address_is_an_error() {
    let mut engine = Aggregator::new(100, ranges());
    let short_source = FlowRecord { src_addr: vec![10, 1, 2], ..record(6, 1000, 1, 10) };
    assert_eq!(receive(&mut engine, &short_source, 36), Err(IngestError::MalformedAddress));
    assert_eq!(engine.phase(), Phase::Receiving);
    let long_target = FlowRecord { dst_addr: vec![0; 16], ..record(6, 1000, 1, 10) };
    assert_eq!(engine.ingest(&long_target, 36), Err(IngestError::MalformedAddress));
    let short_v6 = FlowRecord { etype: 0x86DD, ..record(6, 1000, 1, 10) };
    assert_eq!(engine.ingest(&short_v6, 36), Err(IngestError::MalformedAddress));
    assert_eq!(engine.cache_len(), 0);
    assert_eq!(engine.approx_size(), 0);
    assert_eq!(engine.transferred(), 30);
}

#[test]
fn receive_time_beyond_the_range_is_an_error() {
    let mut engine = Aggregator::new(100, ranges());
    let late = FlowRecord { time_received: i64::MAX as u64 + 1, ..record(6, 1000, 1, 10) };
    assert_eq!(receive(&mut engine, &late, 36), Err(IngestError::ReceiveTimeOutOfRange));
    assert_eq!(engine.cache_len(), 0);
    assert_eq!(engine.approx_size(), 0);
    let latest = FlowRecord { time_received: i64::MAX as u64, ..record(6, 1000, 1, 10) };
    assert_eq!(engine.ingest(&latest, 36), Ok(Ingest::Merged));
    assert_eq!(engine.last_processed(), i64::MAX);
}

#[test]
fn merged_record_updates_size_and_time() {
    let mut engine = Aggregator::new(1000, ranges());
    assert_eq!(receive(&mut engine, &record(6, 1000, 1, 10), 0), Ok(Ingest::Merged));
    assert_eq!(engine.approx_size(), 4);
    assert_eq!(receive(&mut engine, &record(6, 1001, 1, 10), 100), Ok(Ingest::Merged));
    assert_eq!(engine.approx_size(), 108);
    assert_eq!(engine.last_processed(), 1_700_000_000);
    assert_eq!(engine.transferred(), 20);
    assert_eq!(engine.cache_len(), 1);
    assert_eq!(engine.snapshot(), vec![(key(900, 6), CommunicationData { packets: 2, bytes: 20 })]);
}

#[test]
fn failed_receive_leads_back_to_the_check() {
    let mut engine = Aggregator::new(100, ranges());
    assert_eq!(engine.check_flush(), FlushCheck::NotDue);
    engine.receive_failed();
    assert_eq!(engine.phase(), Phase::Flushing);
    assert_eq!(engine.cache_len(), 0);
    assert_eq!(engine.approx_size(), 0);
    assert_eq!(engine.check_flush(), FlushCheck::NotDue);
}

#[test]
fn try_ingest_refuses_what_the_counters_cannot_hold() {
    let mut engine = Aggregator::new(usize::MAX, ranges());
    assert_eq!(engine.check_flush(), FlushCheck::NotDue);
    assert_eq!(engine.try_ingest(&record(6, 1000, u64::MAX, 10), 36), Some(Ok(Ingest::Merged)));
    assert_eq!(engine.check_flush(), FlushCheck::NotDue);
    assert!(!engine.room_for(&record(6, 1000, 1, 10), 36));
    assert_eq!(engine.try_ingest(&record(6, 1000, 1, 10), 36), None);
    assert_eq!(engine.phase(), Phase::Receiving);
    assert_eq!(engine.approx_size(), 40);
    assert_eq!(engine.transferred(), 10);
    assert_eq!(engine.try_ingest(&record(6, 1000, 0, 10), usize::MAX - 43), None);
    assert_eq!(engine.try_ingest(&record(6, 1000, 0, 10), usize::MAX - 44), Some(Ok(Ingest::Merged)));
    assert_eq!(engine.approx_size(), usize::MAX);
    assert_eq!(engine.transferred(), 20);
}

#[test]
fn transferred_bytes_wrap_around() {
    let mut engine = Aggregator::new(1000, ranges());
    let arp = FlowRecord { etype: 0x0806, ..record(6, 1000, 1, u64::MAX) };
    assert_eq!(receive(&mut engine, &arp, 0), Ok(Ingest::Dropped));
    assert_eq!(engine.transferred(), u64::MAX);
    let arp = FlowRecord { etype: 0x0806, ..record(6, 1000, 1, 3) };
    assert_eq!(receive(&mut engine, &arp, 0), Ok(Ingest::Dropped));
    assert_eq!(engine.transferred(), 2);
}

#[test]
fn same_key_records_sum_in_either_order() {
    let first = record(6, 1000, 7, 900);
    let second = FlowRecord { time_received: 1_700_000_050, ..record(6, 1199, 3, 100) };
    let mut one = Aggregator::new(1000, ranges());
    assert_eq!(receive(&mut one, &first, 10), Ok(Ingest::Merged));
    assert_eq!(receive(&mut one, &second, 20), Ok(Ingest::Merged));
    let mut two = Aggregator::new(1000, ranges());
    assert_eq!(receive(&mut two, &second, 20), Ok(Ingest::Merged));
    assert_eq!(receive(&mut two, &first, 10), Ok(Ingest::Merged));
    assert_eq!(one.snapshot(), two.snapshot());
    assert_eq!(one.snapshot(), vec![(key(900, 6), CommunicationData { packets: 10, bytes: 1000 })]);
    assert_eq!(one.approx_size(), 38);
    assert_eq!(two.approx_size(), 38);
}

#[test]
fn key_is_made_of_window_endpoints_vlans_and_protocol() {
    let engine = Aggregator::new(1000, ranges());
    assert_eq!(engine.key_for(&record(6, 1000, 1, 10)), Ok(Some(key(900, 6))));
    let inward = FlowRecord {
        src_addr: vec![8, 8, 8, 8],
        dst_addr: vec![10, 0, 0, 1],
        src_vlan: 1,
        dst_vlan: 2,
        ..record(17, 1200, 1, 10)
    };
    assert_eq!(
        engine.key_for(&inward),
        Ok(Some(AggregatedKey {
            time: 1200,
            source: Location::Outside,
            target: Location::Inside(IpAddress::V4(0x0a00_0001)),
            src_vlan: 1,
            dst_vlan: 2,
            proto: 17,
        }))
    );
    let arp = FlowRecord { etype: 0x0806, ..record(6, 1000, 1, 10) };
    assert_eq!(engine.key_for(&arp), Ok(None));
}

#[test]
fn records_in_neighbouring_windows_get_two_entries() {
    let mut engine = Aggregator::new(1000, ranges());
    assert_eq!(receive(&mut engine, &record(6, 1199, 1, 10), 0), Ok(Ingest::Merged));
    assert_eq!(receive(&mut engine, &record(6, 1200, 2, 20), 0), Ok(Ingest::Merged));
    assert_eq!(
        engine.snapshot(),
        vec![
            (key(900, 6), CommunicationData { packets: 1, bytes: 10 }),
            (key(1200, 6), CommunicationData { packets: 2, bytes: 20 }),
        ]
    );
}
