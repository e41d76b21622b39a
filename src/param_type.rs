use vstd::prelude::*;

verus! {

/// The kind of a parameter, as carried in the 16-bit type field of its header.
///
/// Codes without a name of their own are kept as `Unknown(code)`, so every code
/// maps to some value.
#[derive(PartialEq, Eq, Structural, Clone, Copy, Debug)]
pub enum ParamType {
    HeartbeatInfo,
    Ipv4Addr,
    Ipv6Addr,
    StateCookie,
    UnrecognizedParam,
    CookiePreservative,
    HostNameAddr,
    SupportedAddrTypes,
    OutSsnResetReq,
    IncSsnResetReq,
    SsnTsnResetReq,
    ReconfigResp,
    AddOutStreamsReq,
    AddIncStreamsReq,
    Random,
    ChunkList,
    ReqHmacAlgo,
    Padding,
    SupportedExt,
    ForwardTsnSupp,
    AddIpAddr,
    DelIpAddr,
    ErrClauseInd,
    SetPriAddr,
    SuccessInd,
    AdaptLayerInd,
    Unknown(u16),
}

impl ParamType {
    /// The parameter type that a wire code denotes.
    pub open spec fn spec_from_code(c: u16) -> ParamType {
        if c == 1 { ParamType::HeartbeatInfo }
        else if c == 5 { ParamType::Ipv4Addr }
        else if c == 6 { ParamType::Ipv6Addr }
        else if c == 7 { ParamType::StateCookie }
        else if c == 8 { ParamType::UnrecognizedParam }
        else if c == 9 { ParamType::CookiePreservative }
        else if c == 11 { ParamType::HostNameAddr }
        else if c == 12 { ParamType::SupportedAddrTypes }
        else if c == 13 { ParamType::OutSsnResetReq }
        else if c == 14 { ParamType::IncSsnResetReq }
        else if c == 15 { ParamType::SsnTsnResetReq }
        else if c == 16 { ParamType::ReconfigResp }
        else if c == 17 { ParamType::AddOutStreamsReq }
        else if c == 18 { ParamType::AddIncStreamsReq }
        else if c == 32770 { ParamType::Random }
        else if c == 32771 { ParamType::ChunkList }
        else if c == 32772 { ParamType::ReqHmacAlgo }
        else if c == 32773 { ParamType::Padding }
        else if c == 32776 { ParamType::SupportedExt }
        else if c == 49152 { ParamType::ForwardTsnSupp }
        else if c == 49153 { ParamType::AddIpAddr }
        else if c == 49154 { ParamType::DelIpAddr }
        else if c == 49155 { ParamType::ErrClauseInd }
        else if c == 49156 { ParamType::SetPriAddr }
        else if c == 49157 { ParamType::SuccessInd }
        else if c == 49158 { ParamType::AdaptLayerInd }
        else { ParamType::Unknown(c) }
    }

    /// The wire code of a parameter type.
    pub open spec fn spec_to_code(self) -> u16 {
        match self {
            ParamType::HeartbeatInfo => 1,
            ParamType::Ipv4Addr => 5,
            ParamType::Ipv6Addr => 6,
            ParamType::StateCookie => 7,
            ParamType::UnrecognizedParam => 8,
            ParamType::CookiePreservative => 9,
            ParamType::HostNameAddr => 11,
            ParamType::SupportedAddrTypes => 12,
            ParamType::OutSsnResetReq => 13,
            ParamType::IncSsnResetReq => 14,
            ParamType::SsnTsnResetReq => 15,
            ParamType::ReconfigResp => 16,
            ParamType::AddOutStreamsReq => 17,
            ParamType::AddIncStreamsReq => 18,
            ParamType::Random => 32770,
            ParamType::ChunkList => 32771,
            ParamType::ReqHmacAlgo => 32772,
            ParamType::Padding => 32773,
            ParamType::SupportedExt => 32776,
            ParamType::ForwardTsnSupp => 49152,
            ParamType::AddIpAddr => 49153,
            ParamType::DelIpAddr => 49154,
            ParamType::ErrClauseInd => 49155,
            ParamType::SetPriAddr => 49156,
            ParamType::SuccessInd => 49157,
            ParamType::AdaptLayerInd => 49158,
            ParamType::Unknown(c) => c,
        }
    }

    /// A value is canonical when `Unknown` holds only codes without a name.
    pub open spec fn wf(self) -> bool {
        match self {
            ParamType::Unknown(c) => ParamType::spec_from_code(c) == ParamType::Unknown(c),
            _ => true,
        }
    }

    /// Maps a wire code to its parameter type; total, never fails.
    pub fn from_code(c: u16) -> (r: ParamType)
        ensures
            r == ParamType::spec_from_code(c),
            r.wf(),
    {
        match c {
            1 => ParamType::HeartbeatInfo,
            5 => ParamType::Ipv4Addr,
            6 => ParamType::Ipv6Addr,
            7 => ParamType::StateCookie,
            8 => ParamType::UnrecognizedParam,
            9 => ParamType::CookiePreservative,
            11 => ParamType::HostNameAddr,
            12 => ParamType::SupportedAddrTypes,
            13 => ParamType::OutSsnResetReq,
            14 => ParamType::IncSsnResetReq,
            15 => ParamType::SsnTsnResetReq,
            16 => ParamType::ReconfigResp,
            17 => ParamType::AddOutStreamsReq,
            18 => ParamType::AddIncStreamsReq,
            32770 => ParamType::Random,
            32771 => ParamType::ChunkList,
            32772 => ParamType::ReqHmacAlgo,
            32773 => ParamType::Padding,
            32776 => ParamType::SupportedExt,
            49152 => ParamType::ForwardTsnSupp,
            49153 => ParamType::AddIpAddr,
            49154 => ParamType::DelIpAddr,
            49155 => ParamType::ErrClauseInd,
            49156 => ParamType::SetPriAddr,
            49157 => ParamType::SuccessInd,
            49158 => ParamType::AdaptLayerInd,
            _ => ParamType::Unknown(c),
        }
    }

    /// The wire code of this parameter type.
    pub fn to_code(&self) -> (r: u16)
        ensures
            r == self.spec_to_code(),
    {
        match *self {
            ParamType::HeartbeatInfo => 1,
            ParamType::Ipv4Addr => 5,
            ParamType::Ipv6Addr => 6,
            ParamType::StateCookie => 7,
            ParamType::UnrecognizedParam => 8,
            ParamType::CookiePreservative => 9,
            ParamType::HostNameAddr => 11,
            ParamType::SupportedAddrTypes => 12,
            ParamType::OutSsnResetReq => 13,
            ParamType::IncSsnResetReq => 14,
            ParamType::SsnTsnResetReq => 15,
            ParamType::ReconfigResp => 16,
            ParamType::AddOutStreamsReq => 17,
            ParamType::AddIncStreamsReq => 18,
            ParamType::Random => 32770,
            ParamType::ChunkList => 32771,
            ParamType::ReqHmacAlgo => 32772,
            ParamType::Padding => 32773,
            ParamType::SupportedExt => 32776,
            ParamType::ForwardTsnSupp => 49152,
            ParamType::AddIpAddr => 49153,
            ParamType::DelIpAddr => 49154,
            ParamType::ErrClauseInd => 49155,
            ParamType::SetPriAddr => 49156,
            ParamType::SuccessInd => 49157,
            ParamType::AdaptLayerInd => 49158,
            ParamType::Unknown(c) => c,
        }
    }
}

/// Reading back the code of a canonical parameter type gives the same type.
pub proof fn lemma_code_round_trip(t: ParamType)
    requires
        t.wf(),
    ensures
        ParamType::spec_from_code(t.spec_to_code()) == t,
{
}

} // verus!
