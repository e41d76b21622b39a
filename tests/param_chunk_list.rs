use bytes::{Bytes, BytesMut};
use sctp_param::chunk_type::ChunkType;
use sctp_param::error::Error;
use sctp_param::param_chunk_list::ParamChunkList;
use sctp_param::param_header::ParamHeader;
use sctp_param::param_type::ParamType;

fn list(codes: &[u8]) -> ParamChunkList {
    ParamChunkList { chunk_types: codes.iter().map(|b| ChunkType::from_byte(*b)).collect() }
}

fn encode(p: &ParamChunkList) -> Vec<u8> {
    let mut buf = BytesMut::new();
    let n = p.marshal_to(&mut buf).unwrap();
    assert_eq!(n, buf.len());
    buf.to_vec()
}

#[test]
fn encode_three_chunk_types() {
    let p = list(&[0, 1, 14]);
    let raw = encode(&p);
    assert_eq!(raw, vec![0x80, 0x03, 0x00, 0x03, 0x00, 0x01, 0x0E]);
    let back = ParamChunkList::unmarshal(&Bytes::from(raw)).unwrap();
    assert_eq!(
        back.chunk_types,
        vec![ChunkType::PayloadData, ChunkType::Init, ChunkType::ShutdownComplete]
    );
}

#[test]
fn encode_empty_list() {
    let p = list(&[]);
    let raw = encode(&p);
    assert_eq!(raw, vec![0x80, 0x03, 0x00, 0x00]);
    let back = ParamChunkList::unmarshal(&Bytes::from(raw)).unwrap();
    assert!(back.chunk_types.is_empty());
}

#[test]
fn declared_length_is_ignored_on_decode() {
    let raw = Bytes::from(vec![0x80, 0x03, 0x00, 0x02, 0x05]);
    let p = ParamChunkList::unmarshal(&raw).unwrap();
    assert_eq!(p.chunk_types, vec![ChunkType::HeartbeatAck]);
    let raw = Bytes::from(vec![0x80, 0x03, 0x00, 0x00, 0x03, 0x04]);
    let p = ParamChunkList::unmarshal(&raw).unwrap();
    assert_eq!(p.chunk_types, vec![ChunkType::Sack, ChunkType::Heartbeat]);
}

#[test]
fn type_mismatch_is_rejected() {
    let raw = Bytes::from(vec![0x80, 0x02, 0x00, 0x01, 0x00]);
    assert_eq!(ParamChunkList::unmarshal(&raw).unwrap_err(), Error::ErrParamTypeUnexpected);
    let raw = Bytes::from(vec![0x00, 0x01, 0x00, 0x00]);
    assert_eq!(ParamChunkList::unmarshal(&raw).unwrap_err(), Error::ErrParamTypeUnexpected);
}

#[test]
fn truncated_header_is_rejected() {
    for raw in [vec![], vec![0x80], vec![0x80, 0x03], vec![0x80, 0x03, 0x00]] {
        let raw = Bytes::from(raw);
        assert_eq!(ParamChunkList::unmarshal(&raw).unwrap_err(), Error::ErrParamHeaderTooShort);
        assert_eq!(ParamHeader::unmarshal(&raw).unwrap_err(), Error::ErrParamHeaderTooShort);
    }
}

#[test]
fn unknown_chunk_bytes_are_kept() {
    let raw = Bytes::from(vec![0x80, 0x03, 0x00, 0x03, 12, 200, 255]);
    let p = ParamChunkList::unmarshal(&raw).unwrap();
    assert_eq!(
        p.chunk_types,
        vec![ChunkType::Unknown(12), ChunkType::Unknown(200), ChunkType::Unknown(255)]
    );
    assert_eq!(encode(&p)[4..], [12, 200, 255]);
}

#[test]
fn every_byte_round_trips() {
    let codes: Vec<u8> = (0..=255).collect();
    let p = list(&codes);
    let raw = encode(&p);
    assert_eq!(raw[..4], [0x80, 0x03, 0x01, 0x00]);
    let back = ParamChunkList::unmarshal(&Bytes::from(raw)).unwrap();
    assert_eq!(back.chunk_types, p.chunk_types);
    for b in 0..=255u8 {
        assert_eq!(ChunkType::from_byte(b).to_byte(), b);
    }
}

#[test]
fn header_matches_value_length() {
    let p = list(&[3, 4, 5, 130, 192]);
    let h = p.header();
    assert_eq!(h.typ, ParamType::ChunkList);
    assert_eq!(h.value_length as usize, p.value_length());
    assert_eq!(p.value_length(), 5);
    assert_eq!(list(&[]).header().value_length, 0);
}

#[test]
fn marshal_appends_and_counts_whole_buffer() {
    let mut buf = BytesMut::new();
    buf.extend_from_slice(&[0xAA, 0xBB]);
    let n = list(&[7]).marshal_to(&mut buf).unwrap();
    assert_eq!(n, 7);
    assert_eq!(buf.to_vec(), vec![0xAA, 0xBB, 0x80, 0x03, 0x00, 0x01, 0x07]);
}

#[test]
fn header_codec() {
    let h = ParamHeader { typ: ParamType::Random, value_length: 0x0102 };
    let mut buf = BytesMut::new();
    assert_eq!(h.marshal_to(&mut buf).unwrap(), 4);
    assert_eq!(buf.to_vec(), vec![0x80, 0x02, 0x01, 0x02]);
    let raw = Bytes::from(vec![0x80, 0x02, 0x01, 0x02, 0x09]);
    assert_eq!(ParamHeader::unmarshal(&raw).unwrap(), h);
    let raw = Bytes::from(vec![0x12, 0x34, 0x00, 0x00]);
    assert_eq!(ParamHeader::unmarshal(&raw).unwrap().typ, ParamType::Unknown(0x1234));
}

#[test]
fn param_type_codes() {
    assert_eq!(ParamType::from_code(0x8003), ParamType::ChunkList);
    assert_eq!(ParamType::ChunkList.to_code(), 0x8003);
    assert_eq!(ParamType::from_code(1), ParamType::HeartbeatInfo);
    assert_eq!(ParamType::from_code(2), ParamType::Unknown(2));
    assert_eq!(ParamType::Unknown(2).to_code(), 2);
}

#[test]
fn marshal_then_unmarshal_gives_equal_param() {
    let p = list(&[0, 1, 14, 130, 77]);
    let raw = p.marshal().unwrap();
    assert_eq!(raw.to_vec(), vec![0x80, 0x03, 0x00, 0x05, 0x00, 0x01, 0x0E, 0x82, 0x4D]);
    let back = ParamChunkList::unmarshal(&raw).unwrap();
    assert!(back == p);
    assert!(back != list(&[0, 1, 14, 130]));
    assert!(back != list(&[0, 1, 14, 130, 78]));
    let empty = list(&[]);
    assert!(ParamChunkList::unmarshal(&empty.marshal().unwrap()).unwrap() == empty);
}

#[test]
fn header_marshal_counts_only_its_own_bytes() {
    let mut buf = BytesMut::new();
    buf.extend_from_slice(&[1, 2, 3]);
    let h = ParamHeader { typ: ParamType::ChunkList, value_length: 2 };
    assert_eq!(h.marshal_to(&mut buf).unwrap(), 4);
    assert_eq!(buf.to_vec(), vec![1, 2, 3, 0x80, 0x03, 0x00, 0x02]);
}
