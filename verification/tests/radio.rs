use nautic::packets::receiver;
use nautic::frame::{encode_frame, FrameDecoder, PacketFrame, PACKET_HEAD};
use nautic::packets::master::{ChangeChannel, Ping};
use nautic::packets::slave::{Amps, RadioReport, Temperature, Voltage, GPS, Pong};
use nautic::packets::{
    encode_master_packet, encode_slave_packet, Deserializable, MasterPacket, PacketGroup,
    Serializable, SlavePacket,
};
use nautic::wire::{push_u32_be, ByteReader, RadioError};

fn decode_all(bytes: &[u8]) -> Vec<PacketFrame> {
    let mut d = FrameDecoder::new();
    d.feed(bytes)
}

#[test]
fn frame_bytes_are_head_id_length_payload() {
    let f = PacketFrame { id: 3, data: vec![1, 2, 3] };
    assert_eq!(encode_frame(&f), vec![0xAA, 3, 0, 0, 0, 3, 1, 2, 3]);
}

#[test]
fn empty_frame_bytes() {
    let f = PacketFrame { id: 7, data: vec![] };
    assert_eq!(encode_frame(&f), vec![PACKET_HEAD, 7, 0, 0, 0, 0]);
}

#[test]
fn decoder_completes_frame_on_last_byte() {
    let bytes = encode_frame(&PacketFrame { id: 9, data: vec![0xAA, 5] });
    let mut d = FrameDecoder::new();
    for b in &bytes[..bytes.len() - 1] {
        assert!(d.push(*b).is_none());
    }
    let f = d.push(bytes[bytes.len() - 1]).expect("frame");
    assert_eq!(f.id, 9);
    assert_eq!(f.data, vec![0xAA, 5]);
}

#[test]
fn decoder_skips_noise_before_head() {
    let mut bytes = vec![0x00, 0x13, 0xFF];
    bytes.extend(encode_frame(&PacketFrame { id: 1, data: vec![4] }));
    let frames = decode_all(&bytes);
    assert_eq!(frames.len(), 1);
    assert_eq!(frames[0].id, 1);
    assert_eq!(frames[0].data, vec![4]);
}

#[test]
fn decoder_reads_consecutive_frames() {
    let mut bytes = encode_frame(&PacketFrame { id: 1, data: vec![] });
    bytes.extend(encode_frame(&PacketFrame { id: 2, data: vec![8, 9] }));
    let frames = decode_all(&bytes);
    assert_eq!(frames.len(), 2);
    assert_eq!((frames[0].id, frames[0].data.clone()), (1, vec![]));
    assert_eq!((frames[1].id, frames[1].data.clone()), (2, vec![8, 9]));
}

#[test]
fn decoder_keeps_partial_frame_across_feeds() {
    let bytes = encode_frame(&PacketFrame { id: 4, data: vec![1, 2, 3, 4, 5] });
    let mut d = FrameDecoder::new();
    assert!(d.feed(&bytes[..4]).is_empty());
    let frames = d.feed(&bytes[4..]);
    assert_eq!(frames.len(), 1);
    assert_eq!(frames[0].data, vec![1, 2, 3, 4, 5]);
}

#[test]
fn push_u32_be_writes_most_significant_first() {
    let mut out = vec![9];
    push_u32_be(&mut out, 0x0102_0304);
    assert_eq!(out, vec![9, 1, 2, 3, 4]);
}

#[test]
fn byte_reader_reads_fields_and_stops_at_end() {
    let data = [0, 0, 1, 0, 7];
    let mut r = ByteReader::new(&data);
    assert_eq!(r.read_u32(), Ok(256));
    assert_eq!(r.read_u8(), Ok(7));
    assert_eq!(r.read_u8(), Err(RadioError::UnexpectedEnd));
}

#[test]
fn gps_payload_is_read_big_endian() {
    let data = vec![
        0, 0, 0x03, 0xE8, // timestamp 1000
        6, // satellites
        0x3F, 0x80, 0, 0, // mps 1.0
        0x42, 0x28, 0, 0, // lat 42.0
        0xC0, 0x00, 0, 0, // lon -2.0
        0x41, 0x20, 0, 0, // altitude 10.0
    ];
    let g = GPS::deserialize(data).unwrap();
    assert_eq!(g.timestamp, 1000);
    assert_eq!(g.satellites, 6);
    assert_eq!(f32::from_bits(g.mps), 1.0);
    assert_eq!(f32::from_bits(g.lat), 42.0);
    assert_eq!(f32::from_bits(g.lon), -2.0);
    assert_eq!(f32::from_bits(g.altitude), 10.0);
}

#[test]
fn short_payload_is_unexpected_end() {
    assert_eq!(GPS::deserialize(vec![0; 20]), Err(RadioError::UnexpectedEnd));
    assert_eq!(Temperature::deserialize(vec![0; 8]), Err(RadioError::UnexpectedEnd));
}

#[test]
fn pong_has_no_payload() {
    assert_eq!(Pong::deserialize(vec![]), Ok(Pong));
    assert_eq!(Pong::deserialize(vec![1, 2]), Ok(Pong));
    let mut w = vec![7];
    Pong.serialize(&mut w);
    assert_eq!(w, vec![7]);
    assert_eq!(encode_slave_packet(&SlavePacket::Pong(Pong)), vec![0xAA, 0, 0, 0, 0, 0]);
}

#[test]
fn trailing_bytes_are_ignored() {
    let v = Voltage::deserialize(vec![0, 0, 0, 5, 2, 0, 0, 0, 1, 99, 99]).unwrap();
    assert_eq!(v, Voltage { timestamp: 5, tag: 2, value: 1 });
}

#[test]
fn meter_readings_roundtrip() {
    let t = Temperature { timestamp: 77, tag: 3, value: 21.5f32.to_bits() };
    let mut w = vec![];
    t.serialize(&mut w);
    assert_eq!(w.len(), 9);
    assert_eq!(Temperature::deserialize(w).unwrap(), t);
    let a = Amps { timestamp: 1, tag: 2, value: 3 };
    let mut w = vec![];
    a.serialize(&mut w);
    assert_eq!(Amps::deserialize(w).unwrap(), a);
    let r = RadioReport { timestamp: 10, channel: 4, rx: 100, tx: 200 };
    let mut w = vec![];
    r.serialize(&mut w);
    assert_eq!(w, vec![0, 0, 0, 10, 4, 0, 0, 0, 100, 0, 0, 0, 200]);
    assert_eq!(RadioReport::deserialize(w).unwrap(), r);
}

#[test]
fn master_packet_ids_and_frames() {
    assert_eq!(MasterPacket::Ping(Ping { id: 5 }).id(), 0);
    assert_eq!(MasterPacket::ChangeChannel(ChangeChannel { value: 3 }).id(), 1);
    assert_eq!(MasterPacket::StartSendWindow.id(), 2);
    let f = MasterPacket::ChangeChannel(ChangeChannel { value: 3 }).serialize();
    assert_eq!((f.id, f.data), (1, vec![3]));
    assert_eq!(
        encode_master_packet(&MasterPacket::Ping(Ping { id: 5 })),
        vec![0xAA, 0, 0, 0, 0, 1, 5]
    );
}

#[test]
fn slave_packet_ids() {
    assert_eq!(SlavePacket::Pong(Pong).id(), 0);
    assert_eq!(SlavePacket::GPS(GPS { timestamp: 0, satellites: 0, mps: 0, lat: 0, lon: 0, altitude: 0 }).id(), 1);
    assert_eq!(SlavePacket::Temperature(Temperature { timestamp: 0, tag: 0, value: 0 }).id(), 2);
    assert_eq!(SlavePacket::Voltage(Voltage { timestamp: 0, tag: 0, value: 0 }).id(), 3);
    assert_eq!(SlavePacket::RadioReport(RadioReport { timestamp: 0, channel: 0, rx: 0, tx: 0 }).id(), 4);
    assert_eq!(SlavePacket::EndSendWindow(9).id(), 5);
}

#[test]
fn unknown_ids_are_refused() {
    assert_eq!(
        SlavePacket::deserialize(PacketFrame { id: 6, data: vec![] }),
        Err(RadioError::UnknownPacket(6))
    );
    assert_eq!(
        MasterPacket::deserialize(PacketFrame { id: 200, data: vec![1] }),
        Err(RadioError::UnknownPacket(200))
    );
}

#[test]
fn slave_packets_survive_the_radio() {
    let packets = vec![
        SlavePacket::Pong(Pong),
        SlavePacket::GPS(GPS { timestamp: 1, satellites: 2, mps: 3, lat: 4, lon: 5, altitude: 6 }),
        SlavePacket::Temperature(Temperature { timestamp: 7, tag: 8, value: 9 }),
        SlavePacket::Voltage(Voltage { timestamp: 10, tag: 11, value: 12 }),
        SlavePacket::RadioReport(RadioReport { timestamp: 13, channel: 14, rx: 15, tx: 16 }),
        SlavePacket::EndSendWindow(0xDEAD_BEEF),
    ];
    let mut bytes = vec![0x55];
    for p in &packets {
        bytes.extend(encode_slave_packet(p));
    }
    let frames = decode_all(&bytes);
    assert_eq!(frames.len(), packets.len());
    for (f, p) in frames.into_iter().zip(packets.iter()) {
        assert_eq!(SlavePacket::deserialize(f).unwrap(), *p);
    }
}

#[test]
fn master_packets_survive_the_radio() {
    for p in [
        MasterPacket::Ping(Ping { id: 42 }),
        MasterPacket::ChangeChannel(ChangeChannel { value: 12 }),
        MasterPacket::StartSendWindow,
    ] {
        let frames = decode_all(&encode_master_packet(&p));
        assert_eq!(frames.len(), 1);
        let f = frames.into_iter().next().unwrap();
        assert_eq!(MasterPacket::deserialize(f).unwrap(), p);
    }
}

#[test]
fn end_send_window_reads_clock() {
    assert_eq!(
        SlavePacket::deserialize(PacketFrame { id: 5, data: vec![0, 0, 0x27, 0x10] }),
        Ok(SlavePacket::EndSendWindow(10000))
    );
    assert_eq!(
        SlavePacket::deserialize(PacketFrame { id: 5, data: vec![0, 0] }),
        Err(RadioError::UnexpectedEnd)
    );
}

#[test]
fn receiver_ping_has_no_payload() {
    assert_eq!(receiver::encode_master_packet(&receiver::MasterPacket::Ping), vec![0xAA, 0, 0, 0, 0, 0]);
    assert_eq!(
        receiver::MasterPacket::deserialize(PacketFrame { id: 0, data: vec![] }),
        Ok(receiver::MasterPacket::Ping)
    );
    assert_eq!(
        receiver::MasterPacket::deserialize(PacketFrame { id: 0, data: vec![9, 9] }),
        Ok(receiver::MasterPacket::Ping)
    );
    assert_eq!(
        receiver::MasterPacket::deserialize(PacketFrame { id: 1, data: vec![3] }),
        Err(RadioError::UnknownPacket(1))
    );
}

#[test]
fn receiver_slave_packets() {
    assert_eq!(
        receiver::SlavePacket::deserialize(PacketFrame { id: 0, data: vec![] }),
        Ok(receiver::SlavePacket::Pong)
    );
    assert_eq!(
        receiver::SlavePacket::deserialize(PacketFrame { id: 2, data: vec![0; 9] }),
        Err(RadioError::UnknownPacket(2))
    );
    let g = GPS { timestamp: 1, satellites: 2, mps: 3, lat: 4, lon: 5, altitude: 6 };
    let bytes = receiver::encode_slave_packet(&receiver::SlavePacket::GPS(g));
    let frames = decode_all(&bytes);
    assert_eq!(frames.len(), 1);
    assert_eq!(frames[0].id, 1);
    let f = frames.into_iter().next().unwrap();
    assert_eq!(receiver::SlavePacket::deserialize(f), Ok(receiver::SlavePacket::GPS(g)));
    assert_eq!(receiver::SlavePacket::Pong.id(), 0);
    assert_eq!(receiver::MasterPacket::Ping.id(), 0);
}
