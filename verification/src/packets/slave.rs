//! Packets that the radio slave sends. Each payload is a fixed sequence of
//! big-endian fields. The `f32` readings travel as their IEEE-754 bit
//! patterns, and the library keeps them so: `f32::from_bits` gives the
//! reading.
use crate::wire::{
    be_u32_at, lemma_be_u32_at_bytes, lemma_be_u32_roundtrip, push_u32_be, u32_be_bytes, ByteReader,
    RadioError,
};
use vstd::prelude::*;

verus! {

/// The answer to a ping. It carries no payload.
#[derive(Clone, Copy, Debug, PartialEq, Eq)]
pub struct Pong;

/// A position fix.
#[derive(Clone, Copy, Debug, PartialEq, Eq)]
pub struct GPS {
    /// Milliseconds on the slave's clock.
    pub timestamp: u32,
    pub satellites: u8,
    /// Speed in metres per second, as `f32` bits.
    pub mps: u32,
    /// Latitude, as `f32` bits.
    pub lat: u32,
    /// Longitude, as `f32` bits.
    pub lon: u32,
    /// Altitude, as `f32` bits.
    pub altitude: u32,
}

/// A thermometer reading.
#[derive(Clone, Copy, Debug, PartialEq, Eq)]
pub struct Temperature {
    pub timestamp: u32,
    /// The thermometer's id.
    pub tag: u8,
    /// The reading, as `f32` bits.
    pub value: u32,
}

/// A voltmeter reading.
#[derive(Clone, Copy, Debug, PartialEq, Eq)]
pub struct Voltage {
    pub timestamp: u32,
    /// The voltmeter's id.
    pub tag: u8,
    /// The reading, as `f32` bits.
    pub value: u32,
}

/// An ammeter reading.
#[derive(Clone, Copy, Debug, PartialEq, Eq)]
pub struct Amps {
    pub timestamp: u32,
    /// The ammeter's id.
    pub tag: u8,
    /// The reading, as `f32` bits.
    pub value: u32,
}

/// The state of the slave's radio.
#[derive(Clone, Copy, Debug, PartialEq, Eq)]
pub struct RadioReport {
    pub timestamp: u32,
    pub channel: u8,
    pub rx: u32,
    pub tx: u32,
}

/// The result of reading a payload: the value, or the end of the payload
/// came first.
pub open spec fn spec_read<T>(s: Seq<u8>, need: int, v: T) -> Result<T, RadioError> {
    if s.len() >= need {
        Ok(v)
    } else {
        Err(RadioError::UnexpectedEnd)
    }
}

/// A pong reads no field, so any payload holds one.
pub open spec fn spec_read_pong(s: Seq<u8>) -> Result<Pong, RadioError> {
    Ok(Pong)
}

pub open spec fn spec_pong_bytes(p: Pong) -> Seq<u8> {
    Seq::empty()
}

pub open spec fn spec_read_gps(s: Seq<u8>) -> Result<GPS, RadioError> {
    spec_read(
        s,
        21,
        GPS {
            timestamp: be_u32_at(s, 0),
            satellites: s[4],
            mps: be_u32_at(s, 5),
            lat: be_u32_at(s, 9),
            lon: be_u32_at(s, 13),
            altitude: be_u32_at(s, 17),
        },
    )
}

pub open spec fn spec_gps_bytes(g: GPS) -> Seq<u8> {
    u32_be_bytes(g.timestamp) + seq![g.satellites] + u32_be_bytes(g.mps) + u32_be_bytes(g.lat)
        + u32_be_bytes(g.lon) + u32_be_bytes(g.altitude)
}

pub open spec fn spec_read_temperature(s: Seq<u8>) -> Result<Temperature, RadioError> {
    spec_read(s, 9, Temperature { timestamp: be_u32_at(s, 0), tag: s[4], value: be_u32_at(s, 5) })
}

pub open spec fn spec_temperature_bytes(t: Temperature) -> Seq<u8> {
    u32_be_bytes(t.timestamp) + seq![t.tag] + u32_be_bytes(t.value)
}

pub open spec fn spec_read_voltage(s: Seq<u8>) -> Result<Voltage, RadioError> {
    spec_read(s, 9, Voltage { timestamp: be_u32_at(s, 0), tag: s[4], value: be_u32_at(s, 5) })
}

pub open spec fn spec_voltage_bytes(v: Voltage) -> Seq<u8> {
    u32_be_bytes(v.timestamp) + seq![v.tag] + u32_be_bytes(v.value)
}

pub open spec fn spec_read_amps(s: Seq<u8>) -> Result<Amps, RadioError> {
    spec_read(s, 9, Amps { timestamp: be_u32_at(s, 0), tag: s[4], value: be_u32_at(s, 5) })
}

pub open spec fn spec_amps_bytes(a: Amps) -> Seq<u8> {
    u32_be_bytes(a.timestamp) + seq![a.tag] + u32_be_bytes(a.value)
}

pub open spec fn spec_read_radio_report(s: Seq<u8>) -> Result<RadioReport, RadioError> {
    spec_read(
        s,
        13,
        RadioReport {
            timestamp: be_u32_at(s, 0),
            channel: s[4],
            rx: be_u32_at(s, 5),
            tx: be_u32_at(s, 9),
        },
    )
}

pub open spec fn spec_radio_report_bytes(r: RadioReport) -> Seq<u8> {
    u32_be_bytes(r.timestamp) + seq![r.channel] + u32_be_bytes(r.rx) + u32_be_bytes(r.tx)
}

impl Pong {
    /// Reads the payload of a pong: there is nothing to read, and bytes in
    /// the payload are ignored.
    pub fn deserialize(data: Vec<u8>) -> (r: Result<Pong, RadioError>)
        ensures
            r == spec_read_pong(data@),
    {
        Ok(Pong)
    }

    /// Appends the payload of this pong: nothing.
    pub fn serialize(&self, writer: &mut Vec<u8>)
        ensures
            final(writer)@ == old(writer)@ + spec_pong_bytes(*self),
    {
        assert(writer@ =~= old(writer)@ + spec_pong_bytes(*self));
    }
}

impl GPS {
    /// Reads the payload of a position fix; bytes after it are ignored.
    pub fn deserialize(data: Vec<u8>) -> (r: Result<GPS, RadioError>)
        ensures
            r == spec_read_gps(data@),
    {
        let mut reader = ByteReader::new(data.as_slice());
        let timestamp = reader.read_u32()?;
        let satellites = reader.read_u8()?;
        let mps = reader.read_u32()?;
        let lat = reader.read_u32()?;
        let lon = reader.read_u32()?;
        let altitude = reader.read_u32()?;
        Ok(GPS { timestamp, satellites, mps, lat, lon, altitude })
    }

    /// Appends the payload of this position fix.
    pub fn serialize(&self, writer: &mut Vec<u8>)
        ensures
            final(writer)@ == old(writer)@ + spec_gps_bytes(*self),
    {
        push_u32_be(writer, self.timestamp);
        writer.push(self.satellites);
        push_u32_be(writer, self.mps);
        push_u32_be(writer, self.lat);
        push_u32_be(writer, self.lon);
        push_u32_be(writer, self.altitude);
        assert(writer@ =~= old(writer)@ + spec_gps_bytes(*self));
    }
}

impl Temperature {
    /// Reads the payload of a thermometer reading; bytes after it are ignored.
    pub fn deserialize(data: Vec<u8>) -> (r: Result<Temperature, RadioError>)
        ensures
            r == spec_read_temperature(data@),
    {
        let mut reader = ByteReader::new(data.as_slice());
        let timestamp = reader.read_u32()?;
        let tag = reader.read_u8()?;
        let value = reader.read_u32()?;
        Ok(Temperature { timestamp, tag, value })
    }

    /// Appends the payload of this reading.
    pub fn serialize(&self, writer: &mut Vec<u8>)
        ensures
            final(writer)@ == old(writer)@ + spec_temperature_bytes(*self),
    {
        push_u32_be(writer, self.timestamp);
        writer.push(self.tag);
        push_u32_be(writer, self.value);
        assert(writer@ =~= old(writer)@ + spec_temperature_bytes(*self));
    }
}

impl Voltage {
    /// Reads the payload of a voltmeter reading; bytes after it are ignored.
    pub fn deserialize(data: Vec<u8>) -> (r: Result<Voltage, RadioError>)
        ensures
            r == spec_read_voltage(data@),
    {
        let mut reader = ByteReader::new(data.as_slice());
        let timestamp = reader.read_u32()?;
        let tag = reader.read_u8()?;
        let value = reader.read_u32()?;
        Ok(Voltage { timestamp, tag, value })
    }

    /// Appends the payload of this reading.
    pub fn serialize(&self, writer: &mut Vec<u8>)
        ensures
            final(writer)@ == old(writer)@ + spec_voltage_bytes(*self),
    {
        push_u32_be(writer, self.timestamp);
        writer.push(self.tag);
        push_u32_be(writer, self.value);
        assert(writer@ =~= old(writer)@ + spec_voltage_bytes(*self));
    }
}

impl Amps {
    /// Reads the payload of an ammeter reading; bytes after it are ignored.
    pub fn deserialize(data: Vec<u8>) -> (r: Result<Amps, RadioError>)
        ensures
            r == spec_read_amps(data@),
    {
        let mut reader = ByteReader::new(data.as_slice());
        let timestamp = reader.read_u32()?;
        let tag = reader.read_u8()?;
        let value = reader.read_u32()?;
        Ok(Amps { timestamp, tag, value })
    }

    /// Appends the payload of this reading.
    pub fn serialize(&self, writer: &mut Vec<u8>)
        ensures
            final(writer)@ == old(writer)@ + spec_amps_bytes(*self),
    {
        push_u32_be(writer, self.timestamp);
        writer.push(self.tag);
        push_u32_be(writer, self.value);
        assert(writer@ =~= old(writer)@ + spec_amps_bytes(*self));
    }
}

impl RadioReport {
    /// Reads the payload of a radio report; bytes after it are ignored.
    pub fn deserialize(data: Vec<u8>) -> (r: Result<RadioReport, RadioError>)
        ensures
            r == spec_read_radio_report(data@),
    {
        let mut reader = ByteReader::new(data.as_slice());
        let timestamp = reader.read_u32()?;
        let channel = reader.read_u8()?;
        let rx = reader.read_u32()?;
        let tx = reader.read_u32()?;
        Ok(RadioReport { timestamp, channel, rx, tx })
    }

    /// Appends the payload of this report.
    pub fn serialize(&self, writer: &mut Vec<u8>)
        ensures
            final(writer)@ == old(writer)@ + spec_radio_report_bytes(*self),
    {
        push_u32_be(writer, self.timestamp);
        writer.push(self.channel);
        push_u32_be(writer, self.rx);
        push_u32_be(writer, self.tx);
        assert(writer@ =~= old(writer)@ + spec_radio_report_bytes(*self));
    }
}


/// A pong's payload is read back as the pong, whatever follows it.
pub proof fn lemma_pong_roundtrip(p: Pong, rest: Seq<u8>)
    ensures
        spec_read_pong(spec_pong_bytes(p) + rest) == Ok::<Pong, RadioError>(p),
{
}

/// A position fix's payload is read back as the fix, whatever follows it.
pub proof fn lemma_gps_roundtrip(g: GPS, rest: Seq<u8>)
    ensures
        spec_read_gps(spec_gps_bytes(g) + rest) == Ok::<GPS, RadioError>(g),
{
    let s = spec_gps_bytes(g) + rest;
    lemma_be_u32_roundtrip(g.timestamp);
    lemma_be_u32_roundtrip(g.mps);
    lemma_be_u32_roundtrip(g.lat);
    lemma_be_u32_roundtrip(g.lon);
    lemma_be_u32_roundtrip(g.altitude);
    assert(s.subrange(0, 4) =~= u32_be_bytes(g.timestamp));
    assert(s[4] == g.satellites);
    assert(s.subrange(5, 9) =~= u32_be_bytes(g.mps));
    assert(s.subrange(9, 13) =~= u32_be_bytes(g.lat));
    assert(s.subrange(13, 17) =~= u32_be_bytes(g.lon));
    assert(s.subrange(17, 21) =~= u32_be_bytes(g.altitude));
    lemma_be_u32_at_bytes(s, 0, g.timestamp);
    lemma_be_u32_at_bytes(s, 5, g.mps);
    lemma_be_u32_at_bytes(s, 9, g.lat);
    lemma_be_u32_at_bytes(s, 13, g.lon);
    lemma_be_u32_at_bytes(s, 17, g.altitude);
}

/// The shared shape of the three meter readings.
proof fn lemma_reading_fields(s: Seq<u8>, timestamp: u32, tag: u8, value: u32)
    requires
        s.len() >= 9,
        s.subrange(0, 9) == u32_be_bytes(timestamp) + seq![tag] + u32_be_bytes(value),
    ensures
        be_u32_at(s, 0) == timestamp,
        s[4] == tag,
        be_u32_at(s, 5) == value,
{
    lemma_be_u32_roundtrip(timestamp);
    lemma_be_u32_roundtrip(value);
    let w = s.subrange(0, 9);
    assert(s.subrange(0, 4) =~= w.subrange(0, 4));
    assert(w.subrange(0, 4) =~= u32_be_bytes(timestamp));
    assert(s[4] == w[4]);
    assert(s.subrange(5, 9) =~= w.subrange(5, 9));
    assert(w.subrange(5, 9) =~= u32_be_bytes(value));
    lemma_be_u32_at_bytes(s, 0, timestamp);
    lemma_be_u32_at_bytes(s, 5, value);
}

/// A thermometer reading's payload is read back as the reading.
pub proof fn lemma_temperature_roundtrip(t: Temperature, rest: Seq<u8>)
    ensures
        spec_read_temperature(spec_temperature_bytes(t) + rest) == Ok::<Temperature, RadioError>(t),
{
    let s = spec_temperature_bytes(t) + rest;
    assert(s.subrange(0, 9) =~= spec_temperature_bytes(t));
    lemma_reading_fields(s, t.timestamp, t.tag, t.value);
}

/// A voltmeter reading's payload is read back as the reading.
pub proof fn lemma_voltage_roundtrip(v: Voltage, rest: Seq<u8>)
    ensures
        spec_read_voltage(spec_voltage_bytes(v) + rest) == Ok::<Voltage, RadioError>(v),
{
    let s = spec_voltage_bytes(v) + rest;
    assert(s.subrange(0, 9) =~= spec_voltage_bytes(v));
    lemma_reading_fields(s, v.timestamp, v.tag, v.value);
}

/// An ammeter reading's payload is read back as the reading.
pub proof fn lemma_amps_roundtrip(a: Amps, rest: Seq<u8>)
    ensures
        spec_read_amps(spec_amps_bytes(a) + rest) == Ok::<Amps, RadioError>(a),
{
    let s = spec_amps_bytes(a) + rest;
    assert(s.subrange(0, 9) =~= spec_amps_bytes(a));
    lemma_reading_fields(s, a.timestamp, a.tag, a.value);
}

/// A radio report's payload is read back as the report.
pub proof fn lemma_radio_report_roundtrip(r: RadioReport, rest: Seq<u8>)
    ensures
        spec_read_radio_report(spec_radio_report_bytes(r) + rest) == Ok::<RadioReport, RadioError>(r),
{
    let s = spec_radio_report_bytes(r) + rest;
    lemma_be_u32_roundtrip(r.timestamp);
    lemma_be_u32_roundtrip(r.rx);
    lemma_be_u32_roundtrip(r.tx);
    assert(s.subrange(0, 4) =~= u32_be_bytes(r.timestamp));
    assert(s[4] == r.channel);
    assert(s.subrange(5, 9) =~= u32_be_bytes(r.rx));
    assert(s.subrange(9, 13) =~= u32_be_bytes(r.tx));
    lemma_be_u32_at_bytes(s, 0, r.timestamp);
    lemma_be_u32_at_bytes(s, 5, r.rx);
    lemma_be_u32_at_bytes(s, 9, r.tx);
}

/// A pong's payload is empty, and any payload reads as a pong.
pub proof fn lemma_pong_layout(p: Pong, s: Seq<u8>)
    ensures
        spec_pong_bytes(p).len() == 0,
        spec_read_pong(s) == Ok::<Pong, RadioError>(Pong),
{
}

/// A position fix's payload: the timestamp in bytes 0..4, the satellites in
/// byte 4, then speed, latitude, longitude and altitude in bytes 5..9,
/// 9..13, 13..17 and 17..21, each big-endian. A payload under 21 bytes ends
/// too early.
pub proof fn lemma_gps_read_layout(s: Seq<u8>)
    ensures
        s.len() >= 21 ==> spec_read_gps(s) == Ok::<GPS, RadioError>(
            GPS {
                timestamp: be_u32_at(s, 0),
                satellites: s[4],
                mps: be_u32_at(s, 5),
                lat: be_u32_at(s, 9),
                lon: be_u32_at(s, 13),
                altitude: be_u32_at(s, 17),
            },
        ),
        s.len() < 21 ==> spec_read_gps(s) == Err::<GPS, RadioError>(RadioError::UnexpectedEnd),
{
}

/// The payload of a position fix is 21 bytes: timestamp, satellites, speed,
/// latitude, longitude and altitude, in that order.
pub proof fn lemma_gps_bytes_layout(g: GPS)
    ensures
        spec_gps_bytes(g).len() == 21,
        spec_gps_bytes(g).subrange(0, 4) == u32_be_bytes(g.timestamp),
        spec_gps_bytes(g)[4] == g.satellites,
        spec_gps_bytes(g).subrange(5, 9) == u32_be_bytes(g.mps),
        spec_gps_bytes(g).subrange(9, 13) == u32_be_bytes(g.lat),
        spec_gps_bytes(g).subrange(13, 17) == u32_be_bytes(g.lon),
        spec_gps_bytes(g).subrange(17, 21) == u32_be_bytes(g.altitude),
{
    let s = spec_gps_bytes(g);
    lemma_be_u32_roundtrip(g.timestamp);
    lemma_be_u32_roundtrip(g.mps);
    lemma_be_u32_roundtrip(g.lat);
    lemma_be_u32_roundtrip(g.lon);
    lemma_be_u32_roundtrip(g.altitude);
    assert(s.subrange(0, 4) =~= u32_be_bytes(g.timestamp));
    assert(s.subrange(5, 9) =~= u32_be_bytes(g.mps));
    assert(s.subrange(9, 13) =~= u32_be_bytes(g.lat));
    assert(s.subrange(13, 17) =~= u32_be_bytes(g.lon));
    assert(s.subrange(17, 21) =~= u32_be_bytes(g.altitude));
}

/// A thermometer reading's payload: the timestamp in bytes 0..4, the
/// thermometer's id in byte 4 and the reading in bytes 5..9, big-endian. A
/// payload under 9 bytes ends too early.
pub proof fn lemma_temperature_read_layout(s: Seq<u8>)
    ensures
        s.len() >= 9 ==> spec_read_temperature(s) == Ok::<Temperature, RadioError>(
            Temperature { timestamp: be_u32_at(s, 0), tag: s[4], value: be_u32_at(s, 5) },
        ),
        s.len() < 9 ==> spec_read_temperature(s) == Err::<Temperature, RadioError>(
            RadioError::UnexpectedEnd,
        ),
{
}

/// The payload of a thermometer reading is 9 bytes: timestamp, id, reading.
pub proof fn lemma_temperature_bytes_layout(t: Temperature)
    ensures
        spec_temperature_bytes(t).len() == 9,
        spec_temperature_bytes(t).subrange(0, 4) == u32_be_bytes(t.timestamp),
        spec_temperature_bytes(t)[4] == t.tag,
        spec_temperature_bytes(t).subrange(5, 9) == u32_be_bytes(t.value),
{
    let s = spec_temperature_bytes(t);
    lemma_be_u32_roundtrip(t.timestamp);
    lemma_be_u32_roundtrip(t.value);
    assert(s.subrange(0, 4) =~= u32_be_bytes(t.timestamp));
    assert(s.subrange(5, 9) =~= u32_be_bytes(t.value));
}

/// A voltmeter reading's payload: the timestamp in bytes 0..4, the
/// voltmeter's id in byte 4 and the reading in bytes 5..9, big-endian. A
/// payload under 9 bytes ends too early.
pub proof fn lemma_voltage_read_layout(s: Seq<u8>)
    ensures
        s.len() >= 9 ==> spec_read_voltage(s) == Ok::<Voltage, RadioError>(
            Voltage { timestamp: be_u32_at(s, 0), tag: s[4], value: be_u32_at(s, 5) },
        ),
        s.len() < 9 ==> spec_read_voltage(s) == Err::<Voltage, RadioError>(RadioError::UnexpectedEnd),
{
}

/// The payload of a voltmeter reading is 9 bytes: timestamp, id, reading.
pub proof fn lemma_voltage_bytes_layout(v: Voltage)
    ensures
        spec_voltage_bytes(v).len() == 9,
        spec_voltage_bytes(v).subrange(0, 4) == u32_be_bytes(v.timestamp),
        spec_voltage_bytes(v)[4] == v.tag,
        spec_voltage_bytes(v).subrange(5, 9) == u32_be_bytes(v.value),
{
    let s = spec_voltage_bytes(v);
    lemma_be_u32_roundtrip(v.timestamp);
    lemma_be_u32_roundtrip(v.value);
    assert(s.subrange(0, 4) =~= u32_be_bytes(v.timestamp));
    assert(s.subrange(5, 9) =~= u32_be_bytes(v.value));
}

/// An ammeter reading's payload: the timestamp in bytes 0..4, the
/// ammeter's id in byte 4 and the reading in bytes 5..9, big-endian. A
/// payload under 9 bytes ends too early.
pub proof fn lemma_amps_read_layout(s: Seq<u8>)
    ensures
        s.len() >= 9 ==> spec_read_amps(s) == Ok::<Amps, RadioError>(
            Amps { timestamp: be_u32_at(s, 0), tag: s[4], value: be_u32_at(s, 5) },
        ),
        s.len() < 9 ==> spec_read_amps(s) == Err::<Amps, RadioError>(RadioError::UnexpectedEnd),
{
}

/// The payload of an ammeter reading is 9 bytes: timestamp, id, reading.
pub proof fn lemma_amps_bytes_layout(a: Amps)
    ensures
        spec_amps_bytes(a).len() == 9,
        spec_amps_bytes(a).subrange(0, 4) == u32_be_bytes(a.timestamp),
        spec_amps_bytes(a)[4] == a.tag,
        spec_amps_bytes(a).subrange(5, 9) == u32_be_bytes(a.value),
{
    let s = spec_amps_bytes(a);
    lemma_be_u32_roundtrip(a.timestamp);
    lemma_be_u32_roundtrip(a.value);
    assert(s.subrange(0, 4) =~= u32_be_bytes(a.timestamp));
    assert(s.subrange(5, 9) =~= u32_be_bytes(a.value));
}

/// A radio report's payload: the timestamp in bytes 0..4, the channel in
/// byte 4, the received and sent counts in bytes 5..9 and 9..13,
/// big-endian. A payload under 13 bytes ends too early.
pub proof fn lemma_radio_report_read_layout(s: Seq<u8>)
    ensures
        s.len() >= 13 ==> spec_read_radio_report(s) == Ok::<RadioReport, RadioError>(
            RadioReport {
                timestamp: be_u32_at(s, 0),
                channel: s[4],
                rx: be_u32_at(s, 5),
                tx: be_u32_at(s, 9),
            },
        ),
        s.len() < 13 ==> spec_read_radio_report(s) == Err::<RadioReport, RadioError>(
            RadioError::UnexpectedEnd,
        ),
{
}

/// The payload of a radio report is 13 bytes: timestamp, channel, received,
/// sent.
pub proof fn lemma_radio_report_bytes_layout(r: RadioReport)
    ensures
        spec_radio_report_bytes(r).len() == 13,
        spec_radio_report_bytes(r).subrange(0, 4) == u32_be_bytes(r.timestamp),
        spec_radio_report_bytes(r)[4] == r.channel,
        spec_radio_report_bytes(r).subrange(5, 9) == u32_be_bytes(r.rx),
        spec_radio_report_bytes(r).subrange(9, 13) == u32_be_bytes(r.tx),
{
    let s = spec_radio_report_bytes(r);
    lemma_be_u32_roundtrip(r.timestamp);
    lemma_be_u32_roundtrip(r.rx);
    lemma_be_u32_roundtrip(r.tx);
    assert(s.subrange(0, 4) =~= u32_be_bytes(r.timestamp));
    assert(s.subrange(5, 9) =~= u32_be_bytes(r.rx));
    assert(s.subrange(9, 13) =~= u32_be_bytes(r.tx));
}
} // verus!
