use nautic::influx::{influx_point, FieldValue};
use nautic::packets::slave::{RadioReport, Temperature, Voltage, GPS, Pong};
use nautic::packets::SlavePacket;
use nautic::service::{packet_timestamp, to_telemetry, to_telemetry_at, SendWindow};
use nautic::tagger::Tagger;
use nautic::telemetry::{
    sub_millis, DatedTelemetry, ElectricalTelemetry, EnvironmentalTelemetry, RelayTelemetry, SpatialTelemetry,
    SystemTelemetry, Telemetry, UtcTime,
};

#[test]
fn new_sensors_get_default_names() {
    let mut t = Tagger::default();
    assert_eq!(t.voltimeter(0), "Voltimeter 0");
    assert_eq!(t.voltimeter(42), "Voltimeter 42");
    assert_eq!(t.thermometer(255), "Thermometer 255");
    assert_eq!(t.thermometer(7), "Thermometer 7");
    assert!(t.take_unsaved());
    assert!(!t.take_unsaved());
}

#[test]
fn known_sensors_keep_their_names() {
    let mut t = Tagger::new(&vec![(3, "Batería".to_string())], &vec![]);
    assert_eq!(t.voltimeter(3), "Batería");
    assert!(!t.take_unsaved());
    assert_eq!(t.voltimeter(3), "Batería");
    assert_eq!(t.thermometer(3), "Thermometer 3");
    assert_eq!(t.thermometer(3), "Thermometer 3");
    assert!(t.take_unsaved());
}

#[test]
fn later_entry_wins_when_loading() {
    let t = Tagger::new(&vec![(1, "a".to_string()), (1, "b".to_string())], &vec![]);
    assert_eq!(t.voltimeter_entries(), vec![(1, "b".to_string())]);
}

#[test]
fn stored_entries_reload_to_same_tagger() {
    let mut t = Tagger::default();
    t.voltimeter(200);
    t.voltimeter(2);
    t.thermometer(9);
    let v = t.voltimeter_entries();
    let th = t.thermometer_entries();
    assert_eq!(v, vec![(2, "Voltimeter 2".to_string()), (200, "Voltimeter 200".to_string())]);
    assert_eq!(th, vec![(9, "Thermometer 9".to_string())]);
    let mut u = Tagger::new(&v, &th);
    assert_eq!(u.voltimeter_entries(), v);
    assert_eq!(u.thermometer(9), "Thermometer 9");
    assert!(!u.take_unsaved());
}

#[test]
fn gps_becomes_spatial_telemetry() {
    let mut t = Tagger::default();
    let p = SlavePacket::GPS(GPS { timestamp: 400, satellites: 9, mps: 1, lat: 2, lon: 3, altitude: 4 });
    let d = to_telemetry_at(p, &mut t, 1000, UtcTime { secs: 50, nanos: 123_456_789 }).unwrap();
    assert_eq!(d.date, UtcTime { secs: 49, nanos: 523_456_789 });
    assert_eq!(
        d.telemetry,
        Telemetry::Spatial(SpatialTelemetry { latitude: 2, longitude: 3, velocity: 1, satellites: 9, altitude: 4 })
    );
}

#[test]
fn meter_readings_carry_tag_names() {
    let mut t = Tagger::default();
    let d = to_telemetry_at(SlavePacket::Voltage(Voltage { timestamp: 10, tag: 1, value: 77 }), &mut t, 10, UtcTime { secs: 5, nanos: 7 }).unwrap();
    assert_eq!(d.date, UtcTime { secs: 5, nanos: 7 });
    assert_eq!(
        d.telemetry,
        Telemetry::Electrical(ElectricalTelemetry::Voltage { tag: "Voltimeter 1".to_string(), value: 77 })
    );
    let d = to_telemetry_at(SlavePacket::Temperature(Temperature { timestamp: 0, tag: 4, value: 8 }), &mut t, 10, UtcTime { secs: 0, nanos: 5_000_000 }).unwrap();
    assert_eq!(d.date, UtcTime { secs: -1, nanos: 995_000_000 });
    assert_eq!(
        d.telemetry,
        Telemetry::Environmental(EnvironmentalTelemetry::Temperature { tag: "Thermometer 4".to_string(), value: 8 })
    );
    assert!(t.take_unsaved());
}

#[test]
fn radio_report_becomes_system_telemetry() {
    let mut t = Tagger::default();
    let d = to_telemetry_at(
        SlavePacket::RadioReport(RadioReport { timestamp: 1, channel: 2, rx: 3, tx: 4 }),
        &mut t,
        1,
        UtcTime { secs: 0, nanos: 0 },
    )
    .unwrap();
    assert_eq!(d.telemetry, Telemetry::System(SystemTelemetry::Radio { channel: 2, rx: 3, tx: 4 }));
    assert!(!t.take_unsaved());
}

#[test]
fn control_packets_carry_no_telemetry() {
    let mut t = Tagger::default();
    assert!(to_telemetry_at(SlavePacket::Pong(Pong), &mut t, 0, UtcTime { secs: 0, nanos: 0 }).is_none());
    assert!(to_telemetry(SlavePacket::EndSendWindow(5), &mut t, 5).is_none());
    assert_eq!(packet_timestamp(&SlavePacket::EndSendWindow(5)), None);
    assert_eq!(packet_timestamp(&SlavePacket::Voltage(Voltage { timestamp: 6, tag: 0, value: 0 })), Some(6));
}

#[test]
fn to_telemetry_dates_by_the_shore_clock() {
    let mut t = Tagger::default();
    let d = to_telemetry(SlavePacket::Voltage(Voltage { timestamp: 0, tag: 1, value: 7 }), &mut t, 1000).unwrap();
    assert!(d.date.secs > 1_600_000_000);
    assert!(d.date.nanos < 1_000_000_000);
}

#[test]
fn send_window_collects_until_end() {
    let mut w = SendWindow::new();
    assert!(!w.receive(SlavePacket::Pong(Pong)));
    assert!(!w.receive(SlavePacket::Voltage(Voltage { timestamp: 1, tag: 1, value: 1 })));
    assert!(w.receive(SlavePacket::EndSendWindow(300)));
    let (ps, time) = w.finish().unwrap();
    assert_eq!(time, 300);
    assert_eq!(ps.len(), 2);
}

#[test]
fn send_window_without_end_or_packets_is_dropped() {
    let mut w = SendWindow::new();
    w.receive(SlavePacket::Pong(Pong));
    assert!(w.finish().is_none());
    let mut w = SendWindow::new();
    w.receive(SlavePacket::EndSendWindow(10));
    assert!(w.finish().is_none());
    let mut w = SendWindow::new();
    w.receive(SlavePacket::Pong(Pong));
    w.receive(SlavePacket::EndSendWindow(0));
    assert!(w.finish().is_none());
}

#[test]
fn spatial_point() {
    let d = DatedTelemetry {
        date: UtcTime { secs: 1, nanos: 234_999_999 },
        telemetry: Telemetry::Spatial(SpatialTelemetry { latitude: 1, longitude: 2, velocity: 3, satellites: -1, altitude: 4 }),
    };
    let p = influx_point(&d);
    assert_eq!(p.measurement, "space");
    assert_eq!(p.timestamp, 1234);
    assert!(p.tags.is_empty());
    assert_eq!(
        p.fields,
        vec![
            ("lat".to_string(), FieldValue::Float(1)),
            ("lon".to_string(), FieldValue::Float(2)),
            ("velocity".to_string(), FieldValue::Float(3)),
            ("altitude".to_string(), FieldValue::Float(4)),
            ("satellites".to_string(), FieldValue::Integer(-1)),
        ]
    );
}

#[test]
fn named_points() {
    let cases = vec![
        (Telemetry::Electrical(ElectricalTelemetry::Amps { tag: "m".into(), value: 1 }), "amperage"),
        (Telemetry::Electrical(ElectricalTelemetry::Voltage { tag: "m".into(), value: 1 }), "voltage"),
        (Telemetry::Environmental(EnvironmentalTelemetry::Temperature { tag: "m".into(), value: 1 }), "temperature"),
        (Telemetry::Environmental(EnvironmentalTelemetry::Humidity { tag: "m".into(), value: 1 }), "humidity"),
    ];
    for (t, name) in cases {
        let p = influx_point(&DatedTelemetry { date: UtcTime { secs: 0, nanos: 5_000_000 }, telemetry: t });
        assert_eq!(p.measurement, name);
        assert_eq!(p.tags, vec![("name".to_string(), "m".to_string())]);
        assert_eq!(p.fields, vec![("value".to_string(), FieldValue::Float(1))]);
    }
}

#[test]
fn relay_and_radio_points() {
    let p = influx_point(&DatedTelemetry {
        date: UtcTime { secs: 0, nanos: 0 },
        telemetry: Telemetry::Relay(RelayTelemetry { tag: "bomba".into(), status: true }),
    });
    assert_eq!(p.measurement, "relay");
    assert_eq!(p.tags, vec![("name".to_string(), "bomba".to_string())]);
    assert_eq!(p.fields, vec![("status".to_string(), FieldValue::Boolean(true))]);
    let p = influx_point(&DatedTelemetry {
        date: UtcTime { secs: -1, nanos: 999_000_000 },
        telemetry: Telemetry::System(SystemTelemetry::Radio { channel: 3, rx: 4, tx: 5 }),
    });
    assert_eq!(p.measurement, "radio");
    assert_eq!(p.timestamp, u128::MAX);
    assert_eq!(
        p.fields,
        vec![
            ("channel".to_string(), FieldValue::UnsignedInteger(3)),
            ("rx".to_string(), FieldValue::UnsignedInteger(4)),
            ("tx".to_string(), FieldValue::UnsignedInteger(5)),
        ]
    );
}

#[test]
fn sub_millis_borrows_a_second() {
    assert_eq!(sub_millis(UtcTime { secs: 10, nanos: 500_000_000 }, 1_250), UtcTime { secs: 9, nanos: 250_000_000 });
    assert_eq!(sub_millis(UtcTime { secs: 10, nanos: 100_000_000 }, 200), UtcTime { secs: 9, nanos: 900_000_000 });
    assert_eq!(sub_millis(UtcTime { secs: 10, nanos: 1 }, 0), UtcTime { secs: 10, nanos: 1 });
}
