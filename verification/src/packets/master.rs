//! Packets that the master (the shore side) sends to the radio slave.
use crate::wire::{ByteReader, RadioError};
use vstd::prelude::*;

verus! {

/// A ping; the slave answers with a pong carrying the same id.
#[derive(Clone, Copy, Debug, PartialEq, Eq)]
pub struct Ping {
    pub id: u8,
}

/// Asks the slave to move to another radio channel.
#[derive(Clone, Copy, Debug, PartialEq, Eq)]
pub struct ChangeChannel {
    pub value: u8,
}

pub open spec fn spec_ping_bytes(p: Ping) -> Seq<u8> {
    seq![p.id]
}

pub open spec fn spec_change_channel_bytes(c: ChangeChannel) -> Seq<u8> {
    seq![c.value]
}

pub open spec fn spec_read_ping(s: Seq<u8>) -> Result<Ping, RadioError> {
    if s.len() >= 1 {
        Ok(Ping { id: s[0] })
    } else {
        Err(RadioError::UnexpectedEnd)
    }
}

pub open spec fn spec_read_change_channel(s: Seq<u8>) -> Result<ChangeChannel, RadioError> {
    if s.len() >= 1 {
        Ok(ChangeChannel { value: s[0] })
    } else {
        Err(RadioError::UnexpectedEnd)
    }
}

impl Ping {
    /// Appends the payload of this ping: its id.
    pub fn serialize(&self, writer: &mut Vec<u8>)
        ensures
            final(writer)@ == old(writer)@ + spec_ping_bytes(*self),
    {
        writer.push(self.id);
        assert(writer@ =~= old(writer)@ + spec_ping_bytes(*self));
    }

    /// Reads the payload of a ping; bytes after it are ignored.
    pub fn deserialize(data: Vec<u8>) -> (r: Result<Ping, RadioError>)
        ensures
            r == spec_read_ping(data@),
    {
        let mut reader = ByteReader::new(data.as_slice());
        let id = reader.read_u8()?;
        Ok(Ping { id })
    }
}

impl ChangeChannel {
    /// Appends the payload of this request: the channel.
    pub fn serialize(&self, writer: &mut Vec<u8>)
        ensures
            final(writer)@ == old(writer)@ + spec_change_channel_bytes(*self),
    {
        writer.push(self.value);
        assert(writer@ =~= old(writer)@ + spec_change_channel_bytes(*self));
    }

    /// Reads the payload of a channel change; bytes after it are ignored.
    pub fn deserialize(data: Vec<u8>) -> (r: Result<ChangeChannel, RadioError>)
        ensures
            r == spec_read_change_channel(data@),
    {
        let mut reader = ByteReader::new(data.as_slice());
        let value = reader.read_u8()?;
        Ok(ChangeChannel { value })
    }
}

} // verus!
