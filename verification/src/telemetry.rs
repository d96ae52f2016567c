//! Telemetry records, as the shore services exchange them. Readings that the
//! radio measured as `f32` are kept as their IEEE-754 bit patterns.
use vstd::prelude::*;

verus! {

/// A time on the UTC clock: whole seconds since the Unix epoch, and the
/// nanoseconds past them.
#[derive(Clone, Copy, Debug, PartialEq, Eq)]
pub struct UtcTime {
    pub secs: i64,
    pub nanos: u32,
}

/// The time in nanoseconds since the epoch.
pub open spec fn time_nanos(t: UtcTime) -> int {
    t.secs * 1_000_000_000 + t.nanos
}

/// The time in whole milliseconds since the epoch: the seconds times a
/// thousand, plus the whole milliseconds of the nanoseconds.
pub open spec fn time_millis(t: UtcTime) -> int {
    t.secs * 1000 + t.nanos / 1_000_000
}

/// A time whose nanoseconds stay below a second, as a clock reading has.
pub open spec fn normal_time(t: UtcTime) -> bool {
    t.nanos < 1_000_000_000
}

/// The whole milliseconds of a time are its nanoseconds since the epoch
/// divided by a million, rounded down.
pub proof fn lemma_time_millis(t: UtcTime)
    ensures
        time_millis(t) * 1_000_000 <= time_nanos(t) < time_millis(t) * 1_000_000 + 1_000_000,
        time_millis(t) == time_nanos(t) / 1_000_000,
{
    let q: int = (t.nanos / 1_000_000) as int;
    let r: int = (t.nanos % 1_000_000) as int;
    assert(t.nanos == q * 1_000_000 + r && 0 <= r < 1_000_000) by (nonlinear_arith)
        requires
            q == t.nanos / 1_000_000,
            r == t.nanos % 1_000_000,
    ;
    assert(time_nanos(t) == (t.secs * 1000 + q) * 1_000_000 + r) by (nonlinear_arith)
        requires
            time_nanos(t) == t.secs * 1_000_000_000 + t.nanos,
            t.nanos == q * 1_000_000 + r,
    ;
    vstd::arithmetic::div_mod::lemma_fundamental_div_mod_converse(
        time_nanos(t),
        1_000_000,
        t.secs * 1000 + q,
        r,
    );
}

/// `t` moved `ms` milliseconds back.
pub fn sub_millis(t: UtcTime, ms: u32) -> (r: UtcTime)
    requires
        normal_time(t),
        t.secs >= i64::MIN + 4_294_968,
    ensures
        normal_time(r),
        time_nanos(r) == time_nanos(t) - ms * 1_000_000,
{
    let whole = (ms / 1000) as i64;
    let part = (ms % 1000) * 1_000_000;
    assert(ms == (ms / 1000) * 1000 + ms % 1000);
    if t.nanos >= part {
        UtcTime { secs: t.secs - whole, nanos: t.nanos - part }
    } else {
        UtcTime { secs: t.secs - whole - 1, nanos: t.nanos + 1_000_000_000 - part }
    }
}

/// A telemetry record with the time it was measured.
#[derive(Clone, Debug, PartialEq)]
pub struct DatedTelemetry {
    pub date: UtcTime,
    pub telemetry: Telemetry,
}

#[derive(Clone, Debug, PartialEq)]
pub enum Telemetry {
    Spatial(SpatialTelemetry),
    Electrical(ElectricalTelemetry),
    Environmental(EnvironmentalTelemetry),
    Relay(RelayTelemetry),
    System(SystemTelemetry),
}

/// A current or voltage reading of a named meter; `value` holds `f32` bits.
#[derive(Clone, Debug, PartialEq)]
pub enum ElectricalTelemetry {
    Amps { tag: String, value: u32 },
    Voltage { tag: String, value: u32 },
}

/// A temperature or humidity reading of a named sensor; `value` holds
/// `f32` bits.
#[derive(Clone, Debug, PartialEq)]
pub enum EnvironmentalTelemetry {
    Temperature { tag: String, value: u32 },
    Humidity { tag: String, value: u32 },
}

/// A position fix. Latitude, longitude, velocity and altitude hold `f32`
/// bits.
#[derive(Clone, Copy, Debug, PartialEq, Eq)]
pub struct SpatialTelemetry {
    pub latitude: u32,
    pub longitude: u32,
    pub velocity: u32,
    pub satellites: i32,
    pub altitude: u32,
}

/// The state of a named relay.
#[derive(Clone, Debug, PartialEq)]
pub struct RelayTelemetry {
    pub tag: String,
    pub status: bool,
}

/// The state of the boat's own systems.
#[derive(Clone, Copy, Debug, PartialEq, Eq)]
pub enum SystemTelemetry {
    Radio { channel: u8, rx: u32, tx: u32 },
}

} // verus!
