//! The shape in which points reach the time-series sink: a measurement
//! name, tags in text, integer fields and a timestamp.

use influxdb2::models::data_point::DataPointError;
use influxdb2::models::DataPoint;
use vstd::prelude::*;
use vstd::string::StringExecFns;

use crate::point::Point;
use crate::text::decimal;
use crate::text::decimal_text;
use crate::text::location_tag;
use crate::text::signed_decimal;
use crate::text::signed_decimal_text;

verus! {

#[verifier::external_type_specification]
#[verifier::external_body]
pub struct ExDataPoint(DataPoint);

#[verifier::external_type_specification]
#[verifier::external_body]
pub struct ExDataPointError(DataPointError);

/// The measurement name that a data point was built with.
pub uninterp spec fn data_point_measurement(made: DataPoint) -> Seq<char>;

/// The tags that a data point holds, by name.
pub uninterp spec fn data_point_tags(made: DataPoint) -> Map<Seq<char>, Seq<char>>;

/// The integer fields that a data point holds, by name.
pub uninterp spec fn data_point_fields(made: DataPoint) -> Map<Seq<char>, i64>;

/// The timestamp that a data point was built with.
pub uninterp spec fn data_point_timestamp(made: DataPoint) -> Option<i64>;

/// Why a point could not be brought into the shape of the sink.
#[derive(Debug, PartialEq, Eq, Copy, Clone, Structural)]
pub enum SinkError {
    /// The point has no field; the sink takes none without one.
    NoFields,
}

/// One point in the shape of the sink, all in plain values.
#[derive(Debug, PartialEq, Eq, Clone)]
pub struct SinkPoint {
    pub measurement: String,
    pub tags: Vec<(String, String)>,
    pub fields: Vec<(String, i64)>,
    pub timestamp: i64,
}

/// Name and value of every tag, as text.
pub open spec fn tag_texts(tags: Seq<(String, String)>) -> Seq<(Seq<char>, Seq<char>)> {
    Seq::new(tags.len(), |i: int| (tags[i].0@, tags[i].1@))
}

/// Name and value of every field, the name as text.
pub open spec fn field_texts(fields: Seq<(String, i64)>) -> Seq<(Seq<char>, i64)> {
    Seq::new(fields.len(), |i: int| (fields[i].0@, fields[i].1))
}

/// The pairs read as a mapping from name to value, a later pair replacing
/// an earlier one of the same name.
pub open spec fn as_mapping<V>(pairs: Seq<(Seq<char>, V)>) -> Map<Seq<char>, V>
    decreases pairs.len(),
{
    if pairs.len() == 0 {
        Map::empty()
    } else {
        as_mapping(pairs.drop_last()).insert(pairs.last().0, pairs.last().1)
    }
}

/// Whether a data point holds exactly this measurement, these tags, these
/// fields and this timestamp.
pub open spec fn carries(
    made: DataPoint,
    measurement: Seq<char>,
    tags: Seq<(Seq<char>, Seq<char>)>,
    fields: Seq<(Seq<char>, i64)>,
    timestamp: i64,
) -> bool {
    &&& data_point_measurement(made) == measurement
    &&& data_point_tags(made) == as_mapping(tags)
    &&& data_point_fields(made) == as_mapping(fields)
    &&& data_point_timestamp(made) == Some(timestamp)
}

/// The tags of a point: both endpoints as they are tagged, and the VLANs,
/// the protocol and the batch number in decimal.
pub open spec fn tags_of(p: Point) -> Seq<(Seq<char>, Seq<char>)> {
    seq![
        ("source"@, location_tag(p.source)),
        ("target"@, location_tag(p.target)),
        ("src_vlan"@, decimal(p.src_vlan as nat)),
        ("dst_vlan"@, decimal(p.dst_vlan as nat)),
        ("proto"@, decimal(p.proto as nat)),
        ("batch_number"@, signed_decimal(p.batch_number as int)),
    ]
}

/// The fields of a point: its two counters.
pub open spec fn fields_of(p: Point) -> Seq<(Seq<char>, i64)> {
    seq![("packets"@, p.packets), ("bytes"@, p.bytes)]
}

/// Whether `made` is the point `p` in the shape of the sink.
pub open spec fn encodes(made: SinkPoint, p: Point) -> bool {
    &&& made.measurement@ == "sflow"@
    &&& tag_texts(made.tags@) == tags_of(p)
    &&& field_texts(made.fields@) == fields_of(p)
    &&& made.timestamp == p.timestamp
}

/// Whether a data point is the point `p` as the sink takes it.
pub open spec fn is_point(made: DataPoint, p: Point) -> bool {
    carries(made, "sflow"@, tags_of(p), fields_of(p), p.timestamp)
}

/// Builds a data point with `influxdb2::models::DataPoint::builder`, the
/// builder's `tag`, `field` and `timestamp`, and its `build`. The builder
/// keeps tags and fields by name, a later value replacing an earlier one of
/// the same name, and `build` refuses exactly the points without a field;
/// the contract claims that, and that the data point holds what it was
/// built with.
#[verifier::external_body]
fn build_data_point(point: &SinkPoint) -> (r: Result<DataPoint, DataPointError>)
    ensures
        r is Ok <==> point.fields@.len() > 0,
        r is Ok ==> data_point_measurement(r->Ok_0) == point.measurement@,
        r is Ok ==> data_point_tags(r->Ok_0) == as_mapping(tag_texts(point.tags@)),
        r is Ok ==> data_point_fields(r->Ok_0) == as_mapping(field_texts(point.fields@)),
        r is Ok ==> data_point_timestamp(r->Ok_0) == Some(point.timestamp),
{
    let mut builder = DataPoint::builder(point.measurement.clone());
    for (name, value) in point.tags.iter() {
        builder = builder.tag(name.clone(), value.clone());
    }
    for (name, value) in point.fields.iter() {
        builder = builder.field(name.clone(), *value);
    }
    builder.timestamp(point.timestamp).build()
}

impl SinkPoint {
    /// Brings a point into the shape of the sink.
    pub fn encode(p: &Point) -> (made: SinkPoint)
        ensures
            encodes(made, *p),
    {
        let mut tags: Vec<(String, String)> = Vec::new();
        tags.push((String::from_str("source"), p.source.to_tag()));
        tags.push((String::from_str("target"), p.target.to_tag()));
        tags.push((String::from_str("src_vlan"), decimal_text(p.src_vlan as u64)));
        tags.push((String::from_str("dst_vlan"), decimal_text(p.dst_vlan as u64)));
        tags.push((String::from_str("proto"), decimal_text(p.proto as u64)));
        tags.push((String::from_str("batch_number"), signed_decimal_text(p.batch_number)));
        let mut fields: Vec<(String, i64)> = Vec::new();
        fields.push((String::from_str("packets"), p.packets));
        fields.push((String::from_str("bytes"), p.bytes));
        assert(tag_texts(tags@) =~= tags_of(*p));
        assert(field_texts(fields@) =~= fields_of(*p));
        SinkPoint { measurement: String::from_str("sflow"), tags, fields, timestamp: p.timestamp }
    }

    /// Builds the data point that the sink's client takes.
    pub fn to_data_point(&self) -> (r: Result<DataPoint, SinkError>)
        ensures
            r is Ok <==> self.fields@.len() > 0,
            r is Err ==> r->Err_0 == SinkError::NoFields,
            r is Ok ==> carries(
                r->Ok_0,
                self.measurement@,
                tag_texts(self.tags@),
                field_texts(self.fields@),
                self.timestamp,
            ),
    {
        match build_data_point(self) {
            Ok(made) => Ok(made),
            Err(_) => Err(SinkError::NoFields),
        }
    }
}

/// Builds the data points of one write batch, one for each point and in the
/// same order. A point of a batch has two fields, so none is refused.
pub fn data_points(batch: &Vec<Point>) -> (r: Result<Vec<DataPoint>, SinkError>)
    ensures
        r is Ok,
        r->Ok_0@.len() == batch@.len(),
        forall|i: int| 0 <= i < batch@.len() ==> is_point(#[trigger] r->Ok_0@[i], batch@[i]),
{
    let mut made: Vec<DataPoint> = Vec::new();
    let mut i: usize = 0;
    while i < batch.len()
        invariant
            i <= batch.len(),
            made@.len() == i,
            forall|j: int| 0 <= j < i ==> is_point(#[trigger] made@[j], batch@[j]),
        decreases batch.len() - i,
    {
        let shaped = SinkPoint::encode(&batch[i]);
        assert(field_texts(shaped.fields@).len() == fields_of(batch@[i as int]).len());
        match shaped.to_data_point() {
            Ok(point) => {
                made.push(point);
            },
            Err(e) => {
                return Err(e);
            },
        }
        i = i + 1;
    }
    Ok(made)
}

} // verus!
