//! The two packet groups of the radio link and their frames.
use crate::frame::{
    encode_frame, frame_fits, lemma_decode_encoded_frame, scan_frame, spec_encode_frame, PacketFrame,
};
use crate::wire::{be_u32_at, u32_be_bytes, RadioError};
use vstd::prelude::*;

pub mod master;
pub mod receiver;
pub mod slave;

use master::{
    spec_change_channel_bytes, spec_ping_bytes, spec_read_change_channel, spec_read_ping,
    ChangeChannel, Ping,
};
use slave::{
    lemma_gps_roundtrip, lemma_pong_roundtrip, lemma_radio_report_roundtrip,
    lemma_temperature_roundtrip, lemma_voltage_roundtrip, spec_gps_bytes, spec_pong_bytes, spec_radio_report_bytes, spec_read_gps,
    spec_read_pong, spec_read_radio_report, spec_read_temperature, spec_read_voltage,
    spec_temperature_bytes, spec_voltage_bytes, RadioReport, Temperature, Voltage, GPS, Pong,
};

verus! {

/// A group of packets that share an id space.
pub trait PacketGroup: Sized {
    /// The id that the packet's frame carries.
    fn id(&self) -> u8;
}

/// Packets that can be read from a frame.
pub trait Deserializable: PacketGroup {
    fn deserialize(frame: PacketFrame) -> Result<Self, RadioError>;
}

/// Packets that can be written as a frame.
pub trait Serializable: PacketGroup {
    fn serialize(&self) -> PacketFrame;
}

/// Packets from the master to the slave.
#[derive(Clone, Copy, Debug, PartialEq, Eq)]
pub enum MasterPacket {
    Ping(Ping),
    ChangeChannel(ChangeChannel),
    /// Opens a window in which the slave sends what it measured. The
    /// telemetry service sends this packet, but no packet group of the
    /// radio defines it; the library gives it id 2, the first id after those
    /// the group defines, and no payload.
    StartSendWindow,
}

/// Packets from the slave to the master.
#[derive(Clone, Copy, Debug, PartialEq, Eq)]
pub enum SlavePacket {
    Pong(Pong),
    GPS(GPS),
    Temperature(Temperature),
    Voltage(Voltage),
    RadioReport(RadioReport),
    /// Closes a send window, with the slave's clock in milliseconds. The
    /// telemetry service reads this packet, but no packet group of the
    /// radio defines it; the library gives it id 5, the first id after those
    /// the group defines, and the clock as a big-endian `u32` payload.
    EndSendWindow(u32),
}

pub open spec fn spec_master_id(p: MasterPacket) -> u8 {
    match p {
        MasterPacket::Ping(_) => 0,
        MasterPacket::ChangeChannel(_) => 1,
        MasterPacket::StartSendWindow => 2,
    }
}

pub open spec fn spec_master_payload(p: MasterPacket) -> Seq<u8> {
    match p {
        MasterPacket::Ping(x) => spec_ping_bytes(x),
        MasterPacket::ChangeChannel(x) => spec_change_channel_bytes(x),
        MasterPacket::StartSendWindow => Seq::empty(),
    }
}

/// The frame of a master packet.
pub open spec fn spec_master_frame(p: MasterPacket) -> (u8, Seq<u8>) {
    (spec_master_id(p), spec_master_payload(p))
}

/// The master packet that a frame holds.
pub open spec fn spec_read_master(f: (u8, Seq<u8>)) -> Result<MasterPacket, RadioError> {
    if f.0 == 0 {
        match spec_read_ping(f.1) {
            Ok(x) => Ok(MasterPacket::Ping(x)),
            Err(e) => Err(e),
        }
    } else if f.0 == 1 {
        match spec_read_change_channel(f.1) {
            Ok(x) => Ok(MasterPacket::ChangeChannel(x)),
            Err(e) => Err(e),
        }
    } else if f.0 == 2 {
        Ok(MasterPacket::StartSendWindow)
    } else {
        Err(RadioError::UnknownPacket(f.0))
    }
}

pub open spec fn spec_slave_id(p: SlavePacket) -> u8 {
    match p {
        SlavePacket::Pong(_) => 0,
        SlavePacket::GPS(_) => 1,
        SlavePacket::Temperature(_) => 2,
        SlavePacket::Voltage(_) => 3,
        SlavePacket::RadioReport(_) => 4,
        SlavePacket::EndSendWindow(_) => 5,
    }
}

pub open spec fn spec_slave_payload(p: SlavePacket) -> Seq<u8> {
    match p {
        SlavePacket::Pong(x) => spec_pong_bytes(x),
        SlavePacket::GPS(x) => spec_gps_bytes(x),
        SlavePacket::Temperature(x) => spec_temperature_bytes(x),
        SlavePacket::Voltage(x) => spec_voltage_bytes(x),
        SlavePacket::RadioReport(x) => spec_radio_report_bytes(x),
        SlavePacket::EndSendWindow(ms) => crate::wire::u32_be_bytes(ms),
    }
}

/// The frame of a slave packet.
pub open spec fn spec_slave_frame(p: SlavePacket) -> (u8, Seq<u8>) {
    (spec_slave_id(p), spec_slave_payload(p))
}

/// The payload of an end-of-window packet: the slave's clock.
pub open spec fn spec_read_end_send_window(s: Seq<u8>) -> Result<u32, RadioError> {
    if s.len() >= 4 {
        Ok(crate::wire::be_u32_at(s, 0))
    } else {
        Err(RadioError::UnexpectedEnd)
    }
}

/// The slave packet that a frame holds.
pub open spec fn spec_read_slave(f: (u8, Seq<u8>)) -> Result<SlavePacket, RadioError> {
    if f.0 == 0 {
        match spec_read_pong(f.1) {
            Ok(x) => Ok(SlavePacket::Pong(x)),
            Err(e) => Err(e),
        }
    } else if f.0 == 1 {
        match spec_read_gps(f.1) {
            Ok(x) => Ok(SlavePacket::GPS(x)),
            Err(e) => Err(e),
        }
    } else if f.0 == 2 {
        match spec_read_temperature(f.1) {
            Ok(x) => Ok(SlavePacket::Temperature(x)),
            Err(e) => Err(e),
        }
    } else if f.0 == 3 {
        match spec_read_voltage(f.1) {
            Ok(x) => Ok(SlavePacket::Voltage(x)),
            Err(e) => Err(e),
        }
    } else if f.0 == 4 {
        match spec_read_radio_report(f.1) {
            Ok(x) => Ok(SlavePacket::RadioReport(x)),
            Err(e) => Err(e),
        }
    } else if f.0 == 5 {
        match spec_read_end_send_window(f.1) {
            Ok(x) => Ok(SlavePacket::EndSendWindow(x)),
            Err(e) => Err(e),
        }
    } else {
        Err(RadioError::UnknownPacket(f.0))
    }
}

impl PacketGroup for MasterPacket {
    fn id(&self) -> (r: u8)
        ensures
            r == spec_master_id(*self),
    {
        match self {
            MasterPacket::Ping(_) => 0,
            MasterPacket::ChangeChannel(_) => 1,
            MasterPacket::StartSendWindow => 2,
        }
    }
}

impl Serializable for MasterPacket {
    fn serialize(&self) -> (r: PacketFrame)
        ensures
            r@ == spec_master_frame(*self),
            r.id == spec_master_id(*self),
    {
        let mut writer: Vec<u8> = Vec::new();
        match self {
            MasterPacket::Ping(p) => p.serialize(&mut writer),
            MasterPacket::ChangeChannel(p) => p.serialize(&mut writer),
            MasterPacket::StartSendWindow => {},
        }
        assert(writer@ =~= spec_master_payload(*self));
        PacketFrame { id: self.id(), data: writer }
    }
}

impl Deserializable for MasterPacket {
    fn deserialize(frame: PacketFrame) -> (r: Result<MasterPacket, RadioError>)
        ensures
            r == spec_read_master(frame@),
    {
        if frame.id == 0 {
            Ok(MasterPacket::Ping(Ping::deserialize(frame.data)?))
        } else if frame.id == 1 {
            Ok(MasterPacket::ChangeChannel(ChangeChannel::deserialize(frame.data)?))
        } else if frame.id == 2 {
            Ok(MasterPacket::StartSendWindow)
        } else {
            Err(RadioError::UnknownPacket(frame.id))
        }
    }
}

impl PacketGroup for SlavePacket {
    fn id(&self) -> (r: u8)
        ensures
            r == spec_slave_id(*self),
    {
        match self {
            SlavePacket::Pong(_) => 0,
            SlavePacket::GPS(_) => 1,
            SlavePacket::Temperature(_) => 2,
            SlavePacket::Voltage(_) => 3,
            SlavePacket::RadioReport(_) => 4,
            SlavePacket::EndSendWindow(_) => 5,
        }
    }
}

impl Serializable for SlavePacket {
    fn serialize(&self) -> (r: PacketFrame)
        ensures
            r@ == spec_slave_frame(*self),
            r.id == spec_slave_id(*self),
    {
        let mut writer: Vec<u8> = Vec::new();
        match self {
            SlavePacket::Pong(p) => p.serialize(&mut writer),
            SlavePacket::GPS(p) => p.serialize(&mut writer),
            SlavePacket::Temperature(p) => p.serialize(&mut writer),
            SlavePacket::Voltage(p) => p.serialize(&mut writer),
            SlavePacket::RadioReport(p) => p.serialize(&mut writer),
            SlavePacket::EndSendWindow(ms) => crate::wire::push_u32_be(&mut writer, *ms),
        }
        assert(writer@ =~= spec_slave_payload(*self));
        PacketFrame { id: self.id(), data: writer }
    }
}

impl Deserializable for SlavePacket {
    fn deserialize(frame: PacketFrame) -> (r: Result<SlavePacket, RadioError>)
        ensures
            r == spec_read_slave(frame@),
    {
        if frame.id == 0 {
            Ok(SlavePacket::Pong(Pong::deserialize(frame.data)?))
        } else if frame.id == 1 {
            Ok(SlavePacket::GPS(GPS::deserialize(frame.data)?))
        } else if frame.id == 2 {
            Ok(SlavePacket::Temperature(Temperature::deserialize(frame.data)?))
        } else if frame.id == 3 {
            Ok(SlavePacket::Voltage(Voltage::deserialize(frame.data)?))
        } else if frame.id == 4 {
            Ok(SlavePacket::RadioReport(RadioReport::deserialize(frame.data)?))
        } else if frame.id == 5 {
            let mut reader = crate::wire::ByteReader::new(frame.data.as_slice());
            let ms = reader.read_u32()?;
            Ok(SlavePacket::EndSendWindow(ms))
        } else {
            Err(RadioError::UnknownPacket(frame.id))
        }
    }
}

/// The bytes that carry a master packet over the radio.
pub fn encode_master_packet(packet: &MasterPacket) -> (out: Vec<u8>)
    ensures
        out@ == spec_encode_frame(spec_master_frame(*packet)),
{
    let frame = packet.serialize();
    encode_frame(&frame)
}

/// The bytes that carry a slave packet over the radio.
pub fn encode_slave_packet(packet: &SlavePacket) -> (out: Vec<u8>)
    ensures
        out@ == spec_encode_frame(spec_slave_frame(*packet)),
{
    let frame = packet.serialize();
    encode_frame(&frame)
}


/// Reading the frame of a master packet gives back the packet.
pub proof fn lemma_master_packet_roundtrip(p: MasterPacket)
    ensures
        spec_read_master(spec_master_frame(p)) == Ok::<MasterPacket, RadioError>(p),
{
    match p {
        MasterPacket::Ping(x) => {
            assert(spec_ping_bytes(x)[0] == x.id);
        },
        MasterPacket::ChangeChannel(x) => {
            assert(spec_change_channel_bytes(x)[0] == x.value);
        },
        MasterPacket::StartSendWindow => {},
    }
}

/// Reading the frame of a slave packet gives back the packet.
pub proof fn lemma_slave_packet_roundtrip(p: SlavePacket)
    ensures
        spec_read_slave(spec_slave_frame(p)) == Ok::<SlavePacket, RadioError>(p),
{
    let e = Seq::<u8>::empty();
    match p {
        SlavePacket::Pong(x) => {
            lemma_pong_roundtrip(x, e);
            assert(spec_pong_bytes(x) + e =~= spec_pong_bytes(x));
        },
        SlavePacket::GPS(x) => {
            lemma_gps_roundtrip(x, e);
            assert(spec_gps_bytes(x) + e =~= spec_gps_bytes(x));
        },
        SlavePacket::Temperature(x) => {
            lemma_temperature_roundtrip(x, e);
            assert(spec_temperature_bytes(x) + e =~= spec_temperature_bytes(x));
        },
        SlavePacket::Voltage(x) => {
            lemma_voltage_roundtrip(x, e);
            assert(spec_voltage_bytes(x) + e =~= spec_voltage_bytes(x));
        },
        SlavePacket::RadioReport(x) => {
            lemma_radio_report_roundtrip(x, e);
            assert(spec_radio_report_bytes(x) + e =~= spec_radio_report_bytes(x));
        },
        SlavePacket::EndSendWindow(ms) => {
            crate::wire::lemma_be_u32_roundtrip(ms);
        },
    }
}

/// A master packet sent over the radio is received as the same packet.
pub proof fn lemma_master_wire_roundtrip(p: MasterPacket)
    ensures
        scan_frame(spec_encode_frame(spec_master_frame(p))) matches Some((_, f)) && spec_read_master(f)
            == Ok::<MasterPacket, RadioError>(p),
{
    assert(frame_fits(spec_master_frame(p)));
    lemma_decode_encoded_frame(spec_master_frame(p));
    lemma_master_packet_roundtrip(p);
}

/// A slave packet sent over the radio is received as the same packet.
pub proof fn lemma_slave_wire_roundtrip(p: SlavePacket)
    ensures
        scan_frame(spec_encode_frame(spec_slave_frame(p))) matches Some((_, f)) && spec_read_slave(f)
            == Ok::<SlavePacket, RadioError>(p),
{
    assert(frame_fits(spec_slave_frame(p)));
    lemma_decode_encoded_frame(spec_slave_frame(p));
    lemma_slave_packet_roundtrip(p);
}

/// The frame of each master packet: a ping carries id 0 and its id byte, a
/// channel change id 1 and the channel, the start of a send window id 2 and
/// nothing.
pub proof fn lemma_master_frame_layout(p: MasterPacket)
    ensures
        spec_master_frame(p).0 == spec_master_id(p),
        p matches MasterPacket::Ping(x) ==> spec_master_frame(p) == (0u8, seq![x.id]),
        p matches MasterPacket::ChangeChannel(c) ==> spec_master_frame(p) == (1u8, seq![c.value]),
        p is StartSendWindow ==> spec_master_frame(p) == (2u8, Seq::<u8>::empty()),
{
}

/// Which master packet a frame holds, by its id: 0 a ping whose id is the
/// first payload byte, 1 a channel change to the first payload byte, 2 the
/// start of a send window; an empty payload ends a ping or a channel change
/// too early, and any other id is refused. A packet read carries the id of
/// its frame.
pub proof fn lemma_read_master_by_id(f: (u8, Seq<u8>))
    ensures
        f.0 == 0 && f.1.len() >= 1 ==> spec_read_master(f) == Ok::<MasterPacket, RadioError>(
            MasterPacket::Ping(Ping { id: f.1[0] }),
        ),
        f.0 == 1 && f.1.len() >= 1 ==> spec_read_master(f) == Ok::<MasterPacket, RadioError>(
            MasterPacket::ChangeChannel(ChangeChannel { value: f.1[0] }),
        ),
        f.0 == 2 ==> spec_read_master(f) == Ok::<MasterPacket, RadioError>(
            MasterPacket::StartSendWindow,
        ),
        f.0 <= 1 && f.1.len() == 0 ==> spec_read_master(f) == Err::<MasterPacket, RadioError>(
            RadioError::UnexpectedEnd,
        ),
        f.0 > 2 ==> spec_read_master(f) == Err::<MasterPacket, RadioError>(
            RadioError::UnknownPacket(f.0),
        ),
        spec_read_master(f) matches Ok(p) ==> spec_master_id(p) == f.0,
{
}

/// The id on the frame of each slave packet: a pong 0, a position fix 1, a
/// temperature 2, a voltage 3, a radio report 4 and the end of a send
/// window 5, the same id that `id` gives.
pub proof fn lemma_slave_frame_ids(p: SlavePacket)
    ensures
        spec_slave_frame(p).0 == spec_slave_id(p),
        p is Pong ==> spec_slave_frame(p).0 == 0,
        p is GPS ==> spec_slave_frame(p).0 == 1,
        p is Temperature ==> spec_slave_frame(p).0 == 2,
        p is Voltage ==> spec_slave_frame(p).0 == 3,
        p is RadioReport ==> spec_slave_frame(p).0 == 4,
        p is EndSendWindow ==> spec_slave_frame(p).0 == 5,
        p matches SlavePacket::EndSendWindow(ms) ==> spec_slave_frame(p).1 == u32_be_bytes(ms),
{
}

/// Which slave packet a frame holds, by its id: 0 a pong, whatever the
/// payload; 1 a position fix, 2 a temperature, 3 a voltage, 4 a radio
/// report and 5 the end of a send window, each read from the big-endian
/// fields of its payload; a payload too short for its packet ends too
/// early, and an id above 5 is refused. A packet read carries the id of its
/// frame.
pub proof fn lemma_read_slave_by_id(f: (u8, Seq<u8>))
    ensures
        f.0 == 0 ==> spec_read_slave(f) == Ok::<SlavePacket, RadioError>(SlavePacket::Pong(Pong)),
        f.0 == 1 && f.1.len() >= 21 ==> spec_read_slave(f) == Ok::<SlavePacket, RadioError>(
            SlavePacket::GPS(
                GPS {
                    timestamp: be_u32_at(f.1, 0),
                    satellites: f.1[4],
                    mps: be_u32_at(f.1, 5),
                    lat: be_u32_at(f.1, 9),
                    lon: be_u32_at(f.1, 13),
                    altitude: be_u32_at(f.1, 17),
                },
            ),
        ),
        f.0 == 2 && f.1.len() >= 9 ==> spec_read_slave(f) == Ok::<SlavePacket, RadioError>(
            SlavePacket::Temperature(
                Temperature { timestamp: be_u32_at(f.1, 0), tag: f.1[4], value: be_u32_at(f.1, 5) },
            ),
        ),
        f.0 == 3 && f.1.len() >= 9 ==> spec_read_slave(f) == Ok::<SlavePacket, RadioError>(
            SlavePacket::Voltage(
                Voltage { timestamp: be_u32_at(f.1, 0), tag: f.1[4], value: be_u32_at(f.1, 5) },
            ),
        ),
        f.0 == 4 && f.1.len() >= 13 ==> spec_read_slave(f) == Ok::<SlavePacket, RadioError>(
            SlavePacket::RadioReport(
                RadioReport {
                    timestamp: be_u32_at(f.1, 0),
                    channel: f.1[4],
                    rx: be_u32_at(f.1, 5),
                    tx: be_u32_at(f.1, 9),
                },
            ),
        ),
        f.0 == 5 && f.1.len() >= 4 ==> spec_read_slave(f) == Ok::<SlavePacket, RadioError>(
            SlavePacket::EndSendWindow(be_u32_at(f.1, 0)),
        ),
        (f.0 == 1 && f.1.len() < 21) || ((f.0 == 2 || f.0 == 3) && f.1.len() < 9) || (f.0 == 4
            && f.1.len() < 13) || (f.0 == 5 && f.1.len() < 4) ==> spec_read_slave(f) == Err::<
            SlavePacket,
            RadioError,
        >(RadioError::UnexpectedEnd),
        f.0 > 5 ==> spec_read_slave(f) == Err::<SlavePacket, RadioError>(
            RadioError::UnknownPacket(f.0),
        ),
        spec_read_slave(f) matches Ok(p) ==> spec_slave_id(p) == f.0,
{
}
} // verus!
