use flow_aggregator::address::IpAddress;
use flow_aggregator::location::Location;
use flow_aggregator::point::Point;
use flow_aggregator::sink::data_points;
use flow_aggregator::sink::SinkError;
use flow_aggregator::sink::SinkPoint;
use influxdb2::models::DataPoint;
use influxdb2::models::WriteDataPoint;

fn point() -> Point {
    Point {
        source: Location::Inside(IpAddress::V4(0x0a01_0203)),
        target: Location::Outside,
        src_vlan: 10,
        dst_vlan: 20,
        proto: 6,
        batch_number: 3,
        packets: 4,
        bytes: 40,
        timestamp: 900_000_000_000,
    }
}

fn line(made: &DataPoint) -> String {
    let mut out: Vec<u8> = vec![];
    made.write_data_point_to(&mut out).unwrap();
    String::from_utf8(out).unwrap()
}

fn pair(name: &str, value: &str) -> (String, String) {
    (name.to_string(), value.to_string())
}

#[test]
fn point_is_shaped_for_the_sink() {
    assert_eq!(
        SinkPoint::encode(&point()),
        SinkPoint {
            measurement: "sflow".to_string(),
            tags: vec![
                pair("source", "Inside(10.1.2.3)"),
                pair("target", "Outside"),
                pair("src_vlan", "10"),
                pair("dst_vlan", "20"),
                pair("proto", "6"),
                pair("batch_number", "3"),
            ],
            fields: vec![("packets".to_string(), 4), ("bytes".to_string(), 40)],
            timestamp: 900_000_000_000,
        }
    );
}

#[test]
fn negative_values_keep_their_sign() {
    let shaped = SinkPoint::encode(&Point { batch_number: -2, packets: -1, timestamp: -5, ..point() });
    assert_eq!(shaped.tags[5], pair("batch_number", "-2"));
    assert_eq!(shaped.fields[0], ("packets".to_string(), -1));
    assert_eq!(shaped.timestamp, -5);
}

#[test]
fn data_point_holds_what_the_point_holds() {
    let made = SinkPoint::encode(&point()).to_data_point().unwrap();
    assert_eq!(
        line(&made),
        "sflow,batch_number=3,dst_vlan=20,proto=6,source=Inside(10.1.2.3),src_vlan=10,target=Outside \
         bytes=40i,packets=4i 900000000000\n"
    );
}

#[test]
fn point_without_fields_is_refused() {
    let bare = SinkPoint {
        measurement: "sflow".to_string(),
        tags: vec![pair("source", "Outside")],
        fields: vec![],
        timestamp: 1,
    };
    assert_eq!(bare.to_data_point().err(), Some(SinkError::NoFields));
}

#[test]
fn later_value_of_a_name_replaces_the_earlier() {
    let twice = SinkPoint {
        measurement: "m".to_string(),
        tags: vec![pair("k", "first"), pair("k", "second")],
        fields: vec![("f".to_string(), 1), ("f".to_string(), 2)],
        timestamp: 7,
    };
    assert_eq!(line(&twice.to_data_point().unwrap()), "m,k=second f=2i 7\n");
}

#[test]
fn batch_gives_one_data_point_for_each_point() {
    let batch = vec![point(), Point { proto: 17, target: Location::Inside(IpAddress::V6(1)), ..point() }];
    let made = data_points(&batch).unwrap();
    assert_eq!(made.len(), 2);
    assert_eq!(line(&made[0]), line(&SinkPoint::encode(&batch[0]).to_data_point().unwrap()));
    assert_eq!(
        line(&made[1]),
        "sflow,batch_number=3,dst_vlan=20,proto=17,source=Inside(10.1.2.3),src_vlan=10,target=Inside(::1) \
         bytes=40i,packets=4i 900000000000\n"
    );
    assert!(data_points(&vec![]).unwrap().is_empty());
}
