//! The packet group of the radio test program: a ping with no payload, and
//! the slave's answers, a pong or a position fix.
use super::slave::{lemma_gps_roundtrip, spec_gps_bytes, spec_read_gps, GPS};
use super::{Deserializable, PacketGroup, Serializable};
use crate::frame::{
    encode_frame, frame_fits, lemma_decode_encoded_frame, scan_frame, spec_encode_frame, PacketFrame,
};
use crate::wire::{be_u32_at, RadioError};
use vstd::prelude::*;

verus! {

/// Packets from the test program to the slave.
#[derive(Clone, Copy, Debug, PartialEq, Eq)]
pub enum MasterPacket {
    /// A ping; it carries no payload.
    Ping,
}

/// Packets from the slave to the test program.
#[derive(Clone, Copy, Debug, PartialEq, Eq)]
pub enum SlavePacket {
    /// The answer to a ping; it carries no payload.
    Pong,
    GPS(GPS),
}

pub open spec fn spec_master_frame(p: MasterPacket) -> (u8, Seq<u8>) {
    match p {
        MasterPacket::Ping => (0, Seq::empty()),
    }
}

/// The master packet that a frame holds: id 0 is a ping, whatever its
/// payload; every other id is refused.
pub open spec fn spec_read_master(f: (u8, Seq<u8>)) -> Result<MasterPacket, RadioError> {
    if f.0 == 0 {
        Ok(MasterPacket::Ping)
    } else {
        Err(RadioError::UnknownPacket(f.0))
    }
}

pub open spec fn spec_slave_id(p: SlavePacket) -> u8 {
    match p {
        SlavePacket::Pong => 0,
        SlavePacket::GPS(_) => 1,
    }
}

pub open spec fn spec_slave_frame(p: SlavePacket) -> (u8, Seq<u8>) {
    match p {
        SlavePacket::Pong => (0, Seq::empty()),
        SlavePacket::GPS(g) => (1, spec_gps_bytes(g)),
    }
}

/// The slave packet that a frame holds: id 0 is a pong, whatever its
/// payload; id 1 a position fix; every other id is refused.
pub open spec fn spec_read_slave(f: (u8, Seq<u8>)) -> Result<SlavePacket, RadioError> {
    if f.0 == 0 {
        Ok(SlavePacket::Pong)
    } else if f.0 == 1 {
        match spec_read_gps(f.1) {
            Ok(g) => Ok(SlavePacket::GPS(g)),
            Err(e) => Err(e),
        }
    } else {
        Err(RadioError::UnknownPacket(f.0))
    }
}

impl PacketGroup for MasterPacket {
    fn id(&self) -> (r: u8)
        ensures
            r == spec_master_frame(*self).0,
    {
        match self {
            MasterPacket::Ping => 0,
        }
    }
}

impl Serializable for MasterPacket {
    fn serialize(&self) -> (r: PacketFrame)
        ensures
            r@ == spec_master_frame(*self),
    {
        let data: Vec<u8> = Vec::new();
        assert(data@ =~= spec_master_frame(*self).1);
        PacketFrame { id: self.id(), data }
    }
}

impl Deserializable for MasterPacket {
    fn deserialize(frame: PacketFrame) -> (r: Result<MasterPacket, RadioError>)
        ensures
            r == spec_read_master(frame@),
    {
        if frame.id == 0 {
            Ok(MasterPacket::Ping)
        } else {
            Err(RadioError::UnknownPacket(frame.id))
        }
    }
}

impl PacketGroup for SlavePacket {
    fn id(&self) -> (r: u8)
        ensures
            r == spec_slave_id(*self),
    {
        match self {
            SlavePacket::Pong => 0,
            SlavePacket::GPS(_) => 1,
        }
    }
}

impl Serializable for SlavePacket {
    fn serialize(&self) -> (r: PacketFrame)
        ensures
            r@ == spec_slave_frame(*self),
            r.id == spec_slave_id(*self),
    {
        let mut writer: Vec<u8> = Vec::new();
        match self {
            SlavePacket::Pong => {},
            SlavePacket::GPS(g) => g.serialize(&mut writer),
        }
        assert(writer@ =~= spec_slave_frame(*self).1);
        PacketFrame { id: self.id(), data: writer }
    }
}

impl Deserializable for SlavePacket {
    fn deserialize(frame: PacketFrame) -> (r: Result<SlavePacket, RadioError>)
        ensures
            r == spec_read_slave(frame@),
    {
        if frame.id == 0 {
            Ok(SlavePacket::Pong)
        } else if frame.id == 1 {
            Ok(SlavePacket::GPS(GPS::deserialize(frame.data)?))
        } else {
            Err(RadioError::UnknownPacket(frame.id))
        }
    }
}

/// The bytes that carry a test program's packet over the radio.
pub fn encode_master_packet(packet: &MasterPacket) -> (out: Vec<u8>)
    ensures
        out@ == spec_encode_frame(spec_master_frame(*packet)),
{
    let frame = packet.serialize();
    encode_frame(&frame)
}

/// The bytes that carry a slave's answer to the test program.
pub fn encode_slave_packet(packet: &SlavePacket) -> (out: Vec<u8>)
    ensures
        out@ == spec_encode_frame(spec_slave_frame(*packet)),
{
    let frame = packet.serialize();
    encode_frame(&frame)
}

/// A test program's packet sent over the radio is received as the same
/// packet.
pub proof fn lemma_master_wire_roundtrip(p: MasterPacket)
    ensures
        scan_frame(spec_encode_frame(spec_master_frame(p))) matches Some((_, f)) && spec_read_master(f)
            == Ok::<MasterPacket, RadioError>(p),
{
    assert(frame_fits(spec_master_frame(p)));
    lemma_decode_encoded_frame(spec_master_frame(p));
}

/// A slave's answer sent over the radio is received as the same packet.
pub proof fn lemma_slave_wire_roundtrip(p: SlavePacket)
    ensures
        scan_frame(spec_encode_frame(spec_slave_frame(p))) matches Some((_, f)) && spec_read_slave(f)
            == Ok::<SlavePacket, RadioError>(p),
{
    assert(frame_fits(spec_slave_frame(p)));
    lemma_decode_encoded_frame(spec_slave_frame(p));
    match p {
        SlavePacket::Pong => {},
        SlavePacket::GPS(g) => {
            lemma_gps_roundtrip(g, Seq::empty());
            assert(spec_gps_bytes(g) + Seq::<u8>::empty() =~= spec_gps_bytes(g));
        },
    }
}

/// The frames of the test group: a ping is id 0 with no payload, a pong
/// id 0 with no payload, a position fix id 1 with the fix's payload.
pub proof fn lemma_receiver_frame_layout(m: MasterPacket, p: SlavePacket)
    ensures
        spec_master_frame(m) == (0u8, Seq::<u8>::empty()),
        p is Pong ==> spec_slave_frame(p) == (0u8, Seq::<u8>::empty()),
        p matches SlavePacket::GPS(g) ==> spec_slave_frame(p) == (1u8, spec_gps_bytes(g)),
        spec_slave_frame(p).0 == spec_slave_id(p),
{
}

/// Which packet of the test group a frame holds, by its id: for the test
/// program, id 0 is a ping whatever its payload; for the slave's answers,
/// id 0 is a pong whatever its payload and id 1 a position fix read from
/// the big-endian fields of its payload, which ends too early under 21
/// bytes. Every other id is refused.
pub proof fn lemma_receiver_read_by_id(f: (u8, Seq<u8>))
    ensures
        f.0 == 0 ==> spec_read_master(f) == Ok::<MasterPacket, RadioError>(MasterPacket::Ping),
        f.0 != 0 ==> spec_read_master(f) == Err::<MasterPacket, RadioError>(
            RadioError::UnknownPacket(f.0),
        ),
        f.0 == 0 ==> spec_read_slave(f) == Ok::<SlavePacket, RadioError>(SlavePacket::Pong),
        f.0 == 1 && f.1.len() >= 21 ==> spec_read_slave(f) == Ok::<SlavePacket, RadioError>(
            SlavePacket::GPS(
                GPS {
                    timestamp: be_u32_at(f.1, 0),
                    satellites: f.1[4],
                    mps: be_u32_at(f.1, 5),
                    lat: be_u32_at(f.1, 9),
                    lon: be_u32_at(f.1, 13),
                    altitude: be_u32_at(f.1, 17),
                },
            ),
        ),
        f.0 == 1 && f.1.len() < 21 ==> spec_read_slave(f) == Err::<SlavePacket, RadioError>(
            RadioError::UnexpectedEnd,
        ),
        f.0 > 1 ==> spec_read_slave(f) == Err::<SlavePacket, RadioError>(
            RadioError::UnknownPacket(f.0),
        ),
{
}

} // verus!
