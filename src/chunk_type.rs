use vstd::prelude::*;

verus! {

/// The kind of an SCTP chunk, as carried in one byte on the wire.
///
/// Codes without a name of their own are kept as `Unknown(code)`, so every byte
/// maps to some value.
#[derive(PartialEq, Eq, Structural, Clone, Copy, Debug)]
pub enum ChunkType {
    PayloadData,
    Init,
    InitAck,
    Sack,
    Heartbeat,
    HeartbeatAck,
    Abort,
    Shutdown,
    ShutdownAck,
    Error,
    CookieEcho,
    CookieAck,
    Cwr,
    ShutdownComplete,
    Reconfig,
    ForwardTsn,
    Unknown(u8),
}

impl ChunkType {
    /// The chunk type that a wire byte denotes.
    pub open spec fn spec_from_byte(b: u8) -> ChunkType {
        if b == 0 { ChunkType::PayloadData }
        else if b == 1 { ChunkType::Init }
        else if b == 2 { ChunkType::InitAck }
        else if b == 3 { ChunkType::Sack }
        else if b == 4 { ChunkType::Heartbeat }
        else if b == 5 { ChunkType::HeartbeatAck }
        else if b == 6 { ChunkType::Abort }
        else if b == 7 { ChunkType::Shutdown }
        else if b == 8 { ChunkType::ShutdownAck }
        else if b == 9 { ChunkType::Error }
        else if b == 10 { ChunkType::CookieEcho }
        else if b == 11 { ChunkType::CookieAck }
        else if b == 13 { ChunkType::Cwr }
        else if b == 14 { ChunkType::ShutdownComplete }
        else if b == 130 { ChunkType::Reconfig }
        else if b == 192 { ChunkType::ForwardTsn }
        else { ChunkType::Unknown(b) }
    }

    /// The wire byte of a chunk type.
    pub open spec fn spec_to_byte(self) -> u8 {
        match self {
            ChunkType::PayloadData => 0,
            ChunkType::Init => 1,
            ChunkType::InitAck => 2,
            ChunkType::Sack => 3,
            ChunkType::Heartbeat => 4,
            ChunkType::HeartbeatAck => 5,
            ChunkType::Abort => 6,
            ChunkType::Shutdown => 7,
            ChunkType::ShutdownAck => 8,
            ChunkType::Error => 9,
            ChunkType::CookieEcho => 10,
            ChunkType::CookieAck => 11,
            ChunkType::Cwr => 13,
            ChunkType::ShutdownComplete => 14,
            ChunkType::Reconfig => 130,
            ChunkType::ForwardTsn => 192,
            ChunkType::Unknown(b) => b,
        }
    }

    /// A value is canonical when `Unknown` holds only codes without a name.
    pub open spec fn wf(self) -> bool {
        match self {
            ChunkType::Unknown(b) => ChunkType::spec_from_byte(b) == ChunkType::Unknown(b),
            _ => true,
        }
    }

    /// Maps a wire byte to its chunk type; total, never fails.
    pub fn from_byte(b: u8) -> (r: ChunkType)
        ensures
            r == ChunkType::spec_from_byte(b),
            r.wf(),
    {
        match b {
            0 => ChunkType::PayloadData,
            1 => ChunkType::Init,
            2 => ChunkType::InitAck,
            3 => ChunkType::Sack,
            4 => ChunkType::Heartbeat,
            5 => ChunkType::HeartbeatAck,
            6 => ChunkType::Abort,
            7 => ChunkType::Shutdown,
            8 => ChunkType::ShutdownAck,
            9 => ChunkType::Error,
            10 => ChunkType::CookieEcho,
            11 => ChunkType::CookieAck,
            13 => ChunkType::Cwr,
            14 => ChunkType::ShutdownComplete,
            130 => ChunkType::Reconfig,
            192 => ChunkType::ForwardTsn,
            _ => ChunkType::Unknown(b),
        }
    }

    /// The wire byte of this chunk type.
    pub fn to_byte(&self) -> (r: u8)
        ensures
            r == self.spec_to_byte(),
    {
        match *self {
            ChunkType::PayloadData => 0,
            ChunkType::Init => 1,
            ChunkType::InitAck => 2,
            ChunkType::Sack => 3,
            ChunkType::Heartbeat => 4,
            ChunkType::HeartbeatAck => 5,
            ChunkType::Abort => 6,
            ChunkType::Shutdown => 7,
            ChunkType::ShutdownAck => 8,
            ChunkType::Error => 9,
            ChunkType::CookieEcho => 10,
            ChunkType::CookieAck => 11,
            ChunkType::Cwr => 13,
            ChunkType::ShutdownComplete => 14,
            ChunkType::Reconfig => 130,
            ChunkType::ForwardTsn => 192,
            ChunkType::Unknown(b) => b,
        }
    }
}

/// Reading back the byte of a canonical chunk type gives the same chunk type.
pub proof fn lemma_byte_round_trip(c: ChunkType)
    requires
        c.wf(),
    ensures
        ChunkType::spec_from_byte(c.spec_to_byte()) == c,
{
}

/// Every byte survives decoding and re-encoding.
pub proof fn lemma_from_byte_to_byte(b: u8)
    ensures
        ChunkType::spec_from_byte(b).spec_to_byte() == b,
        ChunkType::spec_from_byte(b).wf(),
{
}

} // verus!
