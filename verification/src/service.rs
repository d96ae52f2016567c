//! The telemetry service on the boat: it opens send windows on the radio,
//! collects what the slave sends, and turns the readings into telemetry
//! records dated on the shore clock.
use crate::packets::SlavePacket;
use crate::tagger::{default_thermometer_tag, default_voltimeter_tag, tag_lookup, Tagger};
use crate::text::decimal;
use crate::telemetry::{
    normal_time, sub_millis, time_nanos, DatedTelemetry, ElectricalTelemetry,
    EnvironmentalTelemetry, SpatialTelemetry, SystemTelemetry, Telemetry, UtcTime,
};
use vstd::prelude::*;

verus! {

/// The time, on the slave's clock, at which a packet's reading was taken.
pub open spec fn spec_packet_timestamp(p: SlavePacket) -> Option<u32> {
    match p {
        SlavePacket::GPS(x) => Some(x.timestamp),
        SlavePacket::Temperature(x) => Some(x.timestamp),
        SlavePacket::Voltage(x) => Some(x.timestamp),
        SlavePacket::RadioReport(x) => Some(x.timestamp),
        SlavePacket::Pong(_) => None,
        SlavePacket::EndSendWindow(_) => None,
    }
}

/// The packet was read no later than `time` on the slave's clock.
pub open spec fn taken_by(p: SlavePacket, time: u32) -> bool {
    match spec_packet_timestamp(p) {
        Some(ts) => ts <= time,
        None => true,
    }
}

/// The shore date, in nanoseconds since the epoch, of a reading taken at
/// `ts` on the slave's clock, when the send window closed at `time` on that
/// clock and `now` on shore: `time - ts` milliseconds before `now`.
pub open spec fn reading_date(now: UtcTime, time: u32, ts: u32) -> int {
    time_nanos(now) - (time - ts) * 1_000_000
}

/// A reading of the shore clock: after the epoch, nanoseconds below a
/// second.
pub open spec fn clock_reading(now: UtcTime) -> bool {
    now.secs >= 0 && normal_time(now)
}

/// The telemetry that a packet gives, with the sensor names that the
/// tagger held before.
pub open spec fn telemetry_of(
    p: SlavePacket,
    t: Telemetry,
    voltimeters: Map<u8, Seq<char>>,
    thermometers: Map<u8, Seq<char>>,
) -> bool {
    match p {
        SlavePacket::GPS(x) => t == Telemetry::Spatial(
            SpatialTelemetry {
                latitude: x.lat,
                longitude: x.lon,
                velocity: x.mps,
                satellites: x.satellites as i32,
                altitude: x.altitude,
            },
        ),
        SlavePacket::Temperature(x) => t matches Telemetry::Environmental(
            EnvironmentalTelemetry::Temperature { tag, value },
        ) && tag@ == tag_lookup(thermometers, x.tag, default_thermometer_tag(x.tag)).0 && value
            == x.value,
        SlavePacket::Voltage(x) => t matches Telemetry::Electrical(
            ElectricalTelemetry::Voltage { tag, value },
        ) && tag@ == tag_lookup(voltimeters, x.tag, default_voltimeter_tag(x.tag)).0 && value
            == x.value,
        SlavePacket::RadioReport(x) => t == Telemetry::System(
            SystemTelemetry::Radio { channel: x.channel, rx: x.rx, tx: x.tx },
        ),
        _ => false,
    }
}

/// What converting a packet does to the tagger: a reading of a meter asks
/// for its name.
pub open spec fn tagger_after(p: SlavePacket, before: Tagger, after: Tagger) -> bool {
    match p {
        SlavePacket::Temperature(x) => {
            &&& after.thermometer_tags() == tag_lookup(
                before.thermometer_tags(),
                x.tag,
                default_thermometer_tag(x.tag),
            ).1
            &&& after.voltimeter_tags() == before.voltimeter_tags()
            &&& after.has_unsaved() == (before.has_unsaved() || !before.thermometer_tags().contains_key(
                x.tag,
            ))
        },
        SlavePacket::Voltage(x) => {
            &&& after.voltimeter_tags() == tag_lookup(
                before.voltimeter_tags(),
                x.tag,
                default_voltimeter_tag(x.tag),
            ).1
            &&& after.thermometer_tags() == before.thermometer_tags()
            &&& after.has_unsaved() == (before.has_unsaved() || !before.voltimeter_tags().contains_key(
                x.tag,
            ))
        },
        _ => {
            &&& after.voltimeter_tags() == before.voltimeter_tags()
            &&& after.thermometer_tags() == before.thermometer_tags()
            &&& after.has_unsaved() == before.has_unsaved()
        },
    }
}

/// The result of converting packet `p` at shore time `now`.
pub open spec fn converted(p: SlavePacket, time: u32, now: UtcTime, before: Tagger, r: Option<DatedTelemetry>) -> bool {
    &&& (r is None <==> spec_packet_timestamp(p) is None)
    &&& r matches Some(d) ==> {
        &&& normal_time(d.date)
        &&& time_nanos(d.date) == reading_date(now, time, spec_packet_timestamp(p)->0)
        &&& telemetry_of(p, d.telemetry, before.voltimeter_tags(), before.thermometer_tags())
    }
}

/// A reading taken when the window closed is dated at the shore time of the
/// close, one taken `k` milliseconds earlier on the slave's clock `k`
/// milliseconds earlier on shore, and a later reading never gets an earlier
/// date.
pub proof fn lemma_reading_date(now: UtcTime, time: u32, ts: u32, later: u32)
    requires
        ts <= later <= time,
    ensures
        reading_date(now, time, time) == time_nanos(now),
        time_nanos(now) - reading_date(now, time, ts) == (time - ts) * 1_000_000,
        reading_date(now, time, ts) <= reading_date(now, time, later),
{
}

/// What a packet's record holds: a position fix its latitude, longitude,
/// speed as velocity, satellites and altitude; a thermometer or voltmeter
/// reading its value under the meter's stored name, or under `Thermometer `
/// or `Voltimeter ` and the id in decimal for a meter not seen before; a
/// radio report its channel and received and sent counts. Pongs and the
/// ends of send windows give no record.
pub proof fn lemma_telemetry_fields(
    p: SlavePacket,
    t: Telemetry,
    voltimeters: Map<u8, Seq<char>>,
    thermometers: Map<u8, Seq<char>>,
)
    requires
        telemetry_of(p, t, voltimeters, thermometers),
    ensures
        !(p is Pong) && !(p is EndSendWindow),
        p matches SlavePacket::GPS(g) ==> (t matches Telemetry::Spatial(s) && s.latitude == g.lat
            && s.longitude == g.lon && s.velocity == g.mps && s.altitude == g.altitude && s.satellites
            == g.satellites as i32),
        p matches SlavePacket::Temperature(x) ==> (t matches Telemetry::Environmental(
            EnvironmentalTelemetry::Temperature { tag, value },
        ) && value == x.value && (thermometers.contains_key(x.tag) ==> tag@ == thermometers[x.tag])
            && (!thermometers.contains_key(x.tag) ==> tag@ == seq![
            'T', 'h', 'e', 'r', 'm', 'o', 'm', 'e', 't', 'e', 'r', ' ',
        ] + decimal(x.tag as nat))),
        p matches SlavePacket::Voltage(x) ==> (t matches Telemetry::Electrical(
            ElectricalTelemetry::Voltage { tag, value },
        ) && value == x.value && (voltimeters.contains_key(x.tag) ==> tag@ == voltimeters[x.tag])
            && (!voltimeters.contains_key(x.tag) ==> tag@ == seq![
            'V', 'o', 'l', 't', 'i', 'm', 'e', 't', 'e', 'r', ' ',
        ] + decimal(x.tag as nat))),
        p matches SlavePacket::RadioReport(x) ==> t == Telemetry::System(
            SystemTelemetry::Radio { channel: x.channel, rx: x.rx, tx: x.tx },
        ),
{
}

/// `chrono::Utc::now`, as its seconds (`timestamp`) and nanoseconds
/// (`timestamp_subsec_nanos`). The result depends on the clock. It is after
/// the epoch, as `Utc::now` panics on a clock set before it, and its
/// nanoseconds are those of a `std::time::Duration`, below a second.
#[verifier::external_body]
fn utc_now() -> (t: UtcTime)
    ensures
        clock_reading(t),
{
    let now = chrono::Utc::now();
    UtcTime { secs: now.timestamp(), nanos: now.timestamp_subsec_nanos() }
}

/// The time at which a packet's reading was taken, on the slave's clock.
pub fn packet_timestamp(p: &SlavePacket) -> (r: Option<u32>)
    ensures
        r == spec_packet_timestamp(*p),
{
    match p {
        SlavePacket::GPS(x) => Some(x.timestamp),
        SlavePacket::Temperature(x) => Some(x.timestamp),
        SlavePacket::Voltage(x) => Some(x.timestamp),
        SlavePacket::RadioReport(x) => Some(x.timestamp),
        SlavePacket::Pong(_) => None,
        SlavePacket::EndSendWindow(_) => None,
    }
}

/// Turns a packet of a send window that closed at `time` on the slave's
/// clock and at `now` on shore into a telemetry record. Pongs and end-of-window packets carry none.
pub fn to_telemetry_at(packet: SlavePacket, tagger: &mut Tagger, time: u32, now: UtcTime) -> (r: Option<
    DatedTelemetry,
>)
    requires
        taken_by(packet, time),
        clock_reading(now),
    ensures
        converted(packet, time, now, *old(tagger), r),
        tagger_after(packet, *old(tagger), *final(tagger)),
{
    match packet {
        SlavePacket::GPS(x) => {
            let telemetry = Telemetry::Spatial(
                SpatialTelemetry {
                    latitude: x.lat,
                    longitude: x.lon,
                    velocity: x.mps,
                    satellites: x.satellites as i32,
                    altitude: x.altitude,
                },
            );
            Some(DatedTelemetry { date: sub_millis(now, time - x.timestamp), telemetry })
        },
        SlavePacket::Temperature(x) => {
            let tag = tagger.thermometer(x.tag);
            let telemetry = Telemetry::Environmental(
                EnvironmentalTelemetry::Temperature { tag, value: x.value },
            );
            Some(DatedTelemetry { date: sub_millis(now, time - x.timestamp), telemetry })
        },
        SlavePacket::Voltage(x) => {
            let tag = tagger.voltimeter(x.tag);
            let telemetry = Telemetry::Electrical(ElectricalTelemetry::Voltage { tag, value: x.value });
            Some(DatedTelemetry { date: sub_millis(now, time - x.timestamp), telemetry })
        },
        SlavePacket::RadioReport(x) => {
            let telemetry = Telemetry::System(
                SystemTelemetry::Radio { channel: x.channel, rx: x.rx, tx: x.tx },
            );
            Some(DatedTelemetry { date: sub_millis(now, time - x.timestamp), telemetry })
        },
        SlavePacket::Pong(_) => None,
        SlavePacket::EndSendWindow(_) => None,
    }
}

/// Turns a packet of a send window that closed at `time` on the slave's
/// clock into a telemetry record dated by the shore clock, read now.
pub fn to_telemetry(packet: SlavePacket, tagger: &mut Tagger, time: u32) -> (r: Option<DatedTelemetry>)
    requires
        taken_by(packet, time),
    ensures
        exists|now: UtcTime| clock_reading(now) && #[trigger] converted(packet, time, now, *old(tagger), r),
        tagger_after(packet, *old(tagger), *final(tagger)),
{
    let now = utc_now();
    let r = to_telemetry_at(packet, tagger, time, now);
    assert(converted(packet, time, now, *old(tagger), r));
    r
}

/// No packet of `ps` closes a send window.
pub open spec fn holds_no_end(ps: Seq<SlavePacket>) -> bool {
    forall|i: int| 0 <= i < ps.len() ==> !(#[trigger] ps[i] is EndSendWindow)
}

/// The packets that the slave sent in one send window.
pub struct SendWindow {
    packets: Vec<SlavePacket>,
    time: u32,
}

impl View for SendWindow {
    /// The packets received, in order, and the slave's clock when the window
    /// closed (0 while it is open).
    type V = (Seq<SlavePacket>, u32);

    closed spec fn view(&self) -> (Seq<SlavePacket>, u32) {
        (self.packets@, self.time)
    }
}

impl SendWindow {
    /// A window that has received nothing.
    pub fn new() -> (w: SendWindow)
        ensures
            w@ == (Seq::<SlavePacket>::empty(), 0u32),
            holds_no_end(w@.0),
    {
        SendWindow { packets: Vec::new(), time: 0 }
    }

    /// Receives one packet; returns whether it closes the window.
    pub fn receive(&mut self, packet: SlavePacket) -> (closed: bool)
        ensures
            match packet {
                SlavePacket::EndSendWindow(ms) => closed && final(self)@ == (old(self)@.0, ms),
                _ => !closed && final(self)@ == (old(self)@.0.push(packet), old(self)@.1),
            },
            holds_no_end(old(self)@.0) ==> holds_no_end(final(self)@.0),
    {
        match packet {
            SlavePacket::EndSendWindow(ms) => {
                self.time = ms;
                true
            },
            _ => {
                self.packets.push(packet);
                false
            },
        }
    }

    /// The packets to convert, with the slave's clock at the window's end;
    /// nothing when the window never closed, closed at 0, or was empty.
    pub fn finish(self) -> (r: Option<(Vec<SlavePacket>, u32)>)
        ensures
            r is None <==> (self@.1 == 0 || self@.0.len() == 0),
            r matches Some((ps, t)) ==> ps@ == self@.0 && t == self@.1,
    {
        if self.time == 0 || self.packets.len() == 0 {
            None
        } else {
            Some((self.packets, self.time))
        }
    }
}

} // verus!
