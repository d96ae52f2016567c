//! How a telemetry record is stored as a time-series point: its measurement,
//! timestamp, tags and fields.
use crate::telemetry::{
    time_millis, DatedTelemetry, ElectricalTelemetry, EnvironmentalTelemetry, SystemTelemetry, Telemetry,
};
use vstd::prelude::*;

verus! {

/// The value of a field of a point.
#[derive(Clone, Copy, Debug, PartialEq, Eq)]
pub enum FieldValue {
    /// A float reading, as `f32` bits.
    Float(u32),
    Integer(i64),
    UnsignedInteger(u64),
    Boolean(bool),
}

/// A point of the time series, written with millisecond precision.
#[derive(Clone, Debug, PartialEq)]
pub struct InfluxPoint {
    pub measurement: String,
    /// Milliseconds since the epoch.
    pub timestamp: u128,
    pub tags: Vec<(String, String)>,
    pub fields: Vec<(String, FieldValue)>,
}

/// The view of a point: measurement, timestamp, tags and fields.
pub open spec fn point_view(p: InfluxPoint) -> (Seq<char>, u128, Seq<(Seq<char>, Seq<char>)>, Seq<(Seq<char>, FieldValue)>) {
    (
        p.measurement@,
        p.timestamp,
        p.tags@.map_values(|t: (String, String)| (t.0@, t.1@)),
        p.fields@.map_values(|f: (String, FieldValue)| (f.0@, f.1)),
    )
}

/// The point that stores a telemetry record.
pub open spec fn spec_point(t: DatedTelemetry) -> (Seq<char>, u128, Seq<(Seq<char>, Seq<char>)>, Seq<(Seq<char>, FieldValue)>) {
    let ts = time_millis(t.date) as u128;
    match t.telemetry {
        Telemetry::Spatial(s) => (
            seq!['s', 'p', 'a', 'c', 'e'],
            ts,
            Seq::empty(),
            seq![
                (seq!['l', 'a', 't'], FieldValue::Float(s.latitude)),
                (seq!['l', 'o', 'n'], FieldValue::Float(s.longitude)),
                (seq!['v', 'e', 'l', 'o', 'c', 'i', 't', 'y'], FieldValue::Float(s.velocity)),
                (seq!['a', 'l', 't', 'i', 't', 'u', 'd', 'e'], FieldValue::Float(s.altitude)),
                (seq!['s', 'a', 't', 'e', 'l', 'l', 'i', 't', 'e', 's'], FieldValue::Integer(s.satellites as i64)),
            ],
        ),
        Telemetry::Electrical(ElectricalTelemetry::Amps { tag, value }) => (
            seq!['a', 'm', 'p', 'e', 'r', 'a', 'g', 'e'],
            ts,
            seq![(seq!['n', 'a', 'm', 'e'], tag@)],
            seq![(seq!['v', 'a', 'l', 'u', 'e'], FieldValue::Float(value))],
        ),
        Telemetry::Electrical(ElectricalTelemetry::Voltage { tag, value }) => (
            seq!['v', 'o', 'l', 't', 'a', 'g', 'e'],
            ts,
            seq![(seq!['n', 'a', 'm', 'e'], tag@)],
            seq![(seq!['v', 'a', 'l', 'u', 'e'], FieldValue::Float(value))],
        ),
        Telemetry::Environmental(EnvironmentalTelemetry::Temperature { tag, value }) => (
            seq!['t', 'e', 'm', 'p', 'e', 'r', 'a', 't', 'u', 'r', 'e'],
            ts,
            seq![(seq!['n', 'a', 'm', 'e'], tag@)],
            seq![(seq!['v', 'a', 'l', 'u', 'e'], FieldValue::Float(value))],
        ),
        Telemetry::Environmental(EnvironmentalTelemetry::Humidity { tag, value }) => (
            seq!['h', 'u', 'm', 'i', 'd', 'i', 't', 'y'],
            ts,
            seq![(seq!['n', 'a', 'm', 'e'], tag@)],
            seq![(seq!['v', 'a', 'l', 'u', 'e'], FieldValue::Float(value))],
        ),
        Telemetry::Relay(r) => (
            seq!['r', 'e', 'l', 'a', 'y'],
            ts,
            seq![(seq!['n', 'a', 'm', 'e'], r.tag@)],
            seq![(seq!['s', 't', 'a', 't', 'u', 's'], FieldValue::Boolean(r.status))],
        ),
        Telemetry::System(SystemTelemetry::Radio { channel, rx, tx }) => (
            seq!['r', 'a', 'd', 'i', 'o'],
            ts,
            Seq::empty(),
            seq![
                (seq!['c', 'h', 'a', 'n', 'n', 'e', 'l'], FieldValue::UnsignedInteger(channel as u64)),
                (seq!['r', 'x'], FieldValue::UnsignedInteger(rx as u64)),
                (seq!['t', 'x'], FieldValue::UnsignedInteger(tx as u64)),
            ],
        ),
    }
}

/// Each record is stored at its date in whole milliseconds since the epoch,
/// under the measurement of its kind: a position fix as `space` with its
/// latitude, longitude, velocity, altitude and satellites and no tag; an
/// ammeter, voltmeter, thermometer or hygrometer reading as `amperage`,
/// `voltage`, `temperature` or `humidity`, tagged with the meter's name,
/// with its reading as `value`; a relay as `relay`, tagged with its name,
/// with its own status as `status`; the radio as `radio` with its channel and
/// received and sent counts and no tag.
pub proof fn lemma_point_layout(t: DatedTelemetry)
    ensures
        spec_point(t).1 == time_millis(t.date) as u128,
        t.telemetry matches Telemetry::Spatial(s) ==> spec_point(t).0 == seq!['s', 'p', 'a', 'c', 'e']
            && spec_point(t).2.len() == 0 && spec_point(t).3 == seq![
            (seq!['l', 'a', 't'], FieldValue::Float(s.latitude)),
            (seq!['l', 'o', 'n'], FieldValue::Float(s.longitude)),
            (seq!['v', 'e', 'l', 'o', 'c', 'i', 't', 'y'], FieldValue::Float(s.velocity)),
            (seq!['a', 'l', 't', 'i', 't', 'u', 'd', 'e'], FieldValue::Float(s.altitude)),
            (seq!['s', 'a', 't', 'e', 'l', 'l', 'i', 't', 'e', 's'], FieldValue::Integer(s.satellites as i64)),
        ],
        t.telemetry matches Telemetry::Electrical(ElectricalTelemetry::Amps { tag, value })
            ==> spec_point(t).0 == seq!['a', 'm', 'p', 'e', 'r', 'a', 'g', 'e'] && spec_point(t).2
            == seq![(seq!['n', 'a', 'm', 'e'], tag@)] && spec_point(t).3 == seq![
            (seq!['v', 'a', 'l', 'u', 'e'], FieldValue::Float(value)),
        ],
        t.telemetry matches Telemetry::Electrical(ElectricalTelemetry::Voltage { tag, value })
            ==> spec_point(t).0 == seq!['v', 'o', 'l', 't', 'a', 'g', 'e'] && spec_point(t).2
            == seq![(seq!['n', 'a', 'm', 'e'], tag@)] && spec_point(t).3 == seq![
            (seq!['v', 'a', 'l', 'u', 'e'], FieldValue::Float(value)),
        ],
        t.telemetry matches Telemetry::Environmental(EnvironmentalTelemetry::Temperature { tag, value })
            ==> spec_point(t).0 == seq!['t', 'e', 'm', 'p', 'e', 'r', 'a', 't', 'u', 'r', 'e']
            && spec_point(t).2 == seq![(seq!['n', 'a', 'm', 'e'], tag@)] && spec_point(t).3 == seq![
            (seq!['v', 'a', 'l', 'u', 'e'], FieldValue::Float(value)),
        ],
        t.telemetry matches Telemetry::Environmental(EnvironmentalTelemetry::Humidity { tag, value })
            ==> spec_point(t).0 == seq!['h', 'u', 'm', 'i', 'd', 'i', 't', 'y'] && spec_point(t).2
            == seq![(seq!['n', 'a', 'm', 'e'], tag@)] && spec_point(t).3 == seq![
            (seq!['v', 'a', 'l', 'u', 'e'], FieldValue::Float(value)),
        ],
        t.telemetry matches Telemetry::Relay(r) ==> spec_point(t).0 == seq!['r', 'e', 'l', 'a', 'y']
            && spec_point(t).2 == seq![(seq!['n', 'a', 'm', 'e'], r.tag@)] && spec_point(t).3.len() == 1
            && spec_point(t).3[0].0 == seq!['s', 't', 'a', 't', 'u', 's'] && spec_point(t).3[0].1
            == FieldValue::Boolean(r.status),
        t.telemetry matches Telemetry::System(SystemTelemetry::Radio { channel, rx, tx })
            ==> spec_point(t).0 == seq!['r', 'a', 'd', 'i', 'o'] && spec_point(t).2.len() == 0
            && spec_point(t).3 == seq![
            (seq!['c', 'h', 'a', 'n', 'n', 'e', 'l'], FieldValue::UnsignedInteger(channel as u64)),
            (seq!['r', 'x'], FieldValue::UnsignedInteger(rx as u64)),
            (seq!['t', 'x'], FieldValue::UnsignedInteger(tx as u64)),
        ],
{
}

fn literal(s: &str) -> (r: String)
    ensures
        r@ == s@,
{
    String::from_str(s)
}

fn name_tag(tag: &String) -> (r: Vec<(String, String)>)
    ensures
        r@.map_values(|t: (String, String)| (t.0@, t.1@)) == seq![(seq!['n', 'a', 'm', 'e'], tag@)],
{
    proof {
        reveal_strlit("name");
                assert("name"@ =~= seq!['n', 'a', 'm', 'e']);
    }
    let mut r: Vec<(String, String)> = Vec::new();
    r.push((literal("name"), tag.clone()));
    assert(r@.map_values(|t: (String, String)| (t.0@, t.1@)) =~= seq![(seq!['n', 'a', 'm', 'e'], tag@)]);
    r
}

fn single_field(name: &str, v: FieldValue) -> (r: Vec<(String, FieldValue)>)
    ensures
        r@.map_values(|f: (String, FieldValue)| (f.0@, f.1)) == seq![(name@, v)],
{
    let mut r: Vec<(String, FieldValue)> = Vec::new();
    r.push((literal(name), v));
    assert(r@.map_values(|f: (String, FieldValue)| (f.0@, f.1)) =~= seq![(name@, v)]);
    r
}

/// The point that stores a telemetry record. Its timestamp is the record's
/// date in whole milliseconds since the epoch, cast to `u128` as the writer
/// expects.
pub fn influx_point(t: &DatedTelemetry) -> (p: InfluxPoint)
    ensures
        point_view(p) == spec_point(*t),
{
    let millis: i128 = (t.date.secs as i128) * 1000 + ((t.date.nanos / 1_000_000) as i128);
    let timestamp = #[verifier::truncate] (millis as u128);
    match &t.telemetry {
        Telemetry::Spatial(s) => {
            proof {
                reveal_strlit("space");
                assert("space"@ =~= seq!['s', 'p', 'a', 'c', 'e']);
                reveal_strlit("lat");
                assert("lat"@ =~= seq!['l', 'a', 't']);
                reveal_strlit("lon");
                assert("lon"@ =~= seq!['l', 'o', 'n']);
                reveal_strlit("velocity");
                assert("velocity"@ =~= seq!['v', 'e', 'l', 'o', 'c', 'i', 't', 'y']);
                reveal_strlit("altitude");
                assert("altitude"@ =~= seq!['a', 'l', 't', 'i', 't', 'u', 'd', 'e']);
                reveal_strlit("satellites");
                assert("satellites"@ =~= seq!['s', 'a', 't', 'e', 'l', 'l', 'i', 't', 'e', 's']);
            }
            let mut fields: Vec<(String, FieldValue)> = Vec::new();
            fields.push((literal("lat"), FieldValue::Float(s.latitude)));
            fields.push((literal("lon"), FieldValue::Float(s.longitude)));
            fields.push((literal("velocity"), FieldValue::Float(s.velocity)));
            fields.push((literal("altitude"), FieldValue::Float(s.altitude)));
            fields.push((literal("satellites"), FieldValue::Integer(s.satellites as i64)));
            let p = InfluxPoint { measurement: literal("space"), timestamp, tags: Vec::new(), fields };
            assert(point_view(p).2 =~= spec_point(*t).2);
            assert(point_view(p).3 =~= spec_point(*t).3);
            assert(point_view(p).0 =~= spec_point(*t).0);
            p
        },
        Telemetry::Electrical(ElectricalTelemetry::Amps { tag, value }) => {
            proof {
                reveal_strlit("amperage");
                assert("amperage"@ =~= seq!['a', 'm', 'p', 'e', 'r', 'a', 'g', 'e']);
                reveal_strlit("value");
                assert("value"@ =~= seq!['v', 'a', 'l', 'u', 'e']);
            }
            let p = InfluxPoint {
                measurement: literal("amperage"),
                timestamp,
                tags: name_tag(tag),
                fields: single_field("value", FieldValue::Float(*value)),
            };
            assert(point_view(p).0 =~= spec_point(*t).0);
            assert(point_view(p).3 =~= spec_point(*t).3);
            p
        },
        Telemetry::Electrical(ElectricalTelemetry::Voltage { tag, value }) => {
            proof {
                reveal_strlit("voltage");
                assert("voltage"@ =~= seq!['v', 'o', 'l', 't', 'a', 'g', 'e']);
                reveal_strlit("value");
                assert("value"@ =~= seq!['v', 'a', 'l', 'u', 'e']);
            }
            let p = InfluxPoint {
                measurement: literal("voltage"),
                timestamp,
                tags: name_tag(tag),
                fields: single_field("value", FieldValue::Float(*value)),
            };
            assert(point_view(p).0 =~= spec_point(*t).0);
            assert(point_view(p).3 =~= spec_point(*t).3);
            p
        },
        Telemetry::Environmental(EnvironmentalTelemetry::Temperature { tag, value }) => {
            proof {
                reveal_strlit("temperature");
                assert("temperature"@ =~= seq!['t', 'e', 'm', 'p', 'e', 'r', 'a', 't', 'u', 'r', 'e']);
                reveal_strlit("value");
                assert("value"@ =~= seq!['v', 'a', 'l', 'u', 'e']);
            }
            let p = InfluxPoint {
                measurement: literal("temperature"),
                timestamp,
                tags: name_tag(tag),
                fields: single_field("value", FieldValue::Float(*value)),
            };
            assert(point_view(p).0 =~= spec_point(*t).0);
            assert(point_view(p).3 =~= spec_point(*t).3);
            p
        },
        Telemetry::Environmental(EnvironmentalTelemetry::Humidity { tag, value }) => {
            proof {
                reveal_strlit("humidity");
                assert("humidity"@ =~= seq!['h', 'u', 'm', 'i', 'd', 'i', 't', 'y']);
                reveal_strlit("value");
                assert("value"@ =~= seq!['v', 'a', 'l', 'u', 'e']);
            }
            let p = InfluxPoint {
                measurement: literal("humidity"),
                timestamp,
                tags: name_tag(tag),
                fields: single_field("value", FieldValue::Float(*value)),
            };
            assert(point_view(p).0 =~= spec_point(*t).0);
            assert(point_view(p).3 =~= spec_point(*t).3);
            p
        },
        Telemetry::Relay(r) => {
            proof {
                reveal_strlit("relay");
                assert("relay"@ =~= seq!['r', 'e', 'l', 'a', 'y']);
                reveal_strlit("status");
                assert("status"@ =~= seq!['s', 't', 'a', 't', 'u', 's']);
            }
            let p = InfluxPoint {
                measurement: literal("relay"),
                timestamp,
                tags: name_tag(&r.tag),
                fields: single_field("status", FieldValue::Boolean(r.status)),
            };
            assert(point_view(p).0 =~= spec_point(*t).0);
            assert(point_view(p).3 =~= spec_point(*t).3);
            p
        },
        Telemetry::System(SystemTelemetry::Radio { channel, rx, tx }) => {
            proof {
                reveal_strlit("radio");
                assert("radio"@ =~= seq!['r', 'a', 'd', 'i', 'o']);
                reveal_strlit("channel");
                assert("channel"@ =~= seq!['c', 'h', 'a', 'n', 'n', 'e', 'l']);
                reveal_strlit("rx");
                assert("rx"@ =~= seq!['r', 'x']);
                reveal_strlit("tx");
                assert("tx"@ =~= seq!['t', 'x']);
            }
            let mut fields: Vec<(String, FieldValue)> = Vec::new();
            fields.push((literal("channel"), FieldValue::UnsignedInteger(*channel as u64)));
            fields.push((literal("rx"), FieldValue::UnsignedInteger(*rx as u64)));
            fields.push((literal("tx"), FieldValue::UnsignedInteger(*tx as u64)));
            let p = InfluxPoint { measurement: literal("radio"), timestamp, tags: Vec::new(), fields };
            assert(point_view(p).2 =~= spec_point(*t).2);
            assert(point_view(p).3 =~= spec_point(*t).3);
            assert(point_view(p).0 =~= spec_point(*t).0);
            p
        },
    }
}

} // verus!
