use actor_wire::codec::Deserialiser;
use actor_wire::envelope::{MsgEnvelope, ReceiveEnvelope};
use actor_wire::error::SerError;
use actor_wire::helpers::{deserialise_msg, serialise_msg, serialise_to_recv_envelope};
use actor_wire::path::{ActorPath, Address, SystemPath, Transport};
use actor_wire::{ppindexed, ppstatic};
use bytes::Bytes;

const U1: [u8; 16] = [
    0x67, 0xe5, 0x50, 0x44, 0x10, 0xb1, 0x42, 0x6f, 0x92, 0x47, 0xbb, 0x68, 0x0e, 0x5f, 0xe0,
    0xc8,
];

fn local_system(port: u16) -> SystemPath {
    SystemPath::new(Transport::Tcp, Address::Ipv4([127, 0, 0, 1]), port)
}

fn unique_src() -> ActorPath {
    ActorPath::Unique { system: local_system(1), id: U1 }
}

fn named_dst() -> ActorPath {
    ActorPath::Named {
        system: local_system(2),
        segments: vec!["svc".to_string(), "worker".to_string()],
    }
}

fn scenario_frame() -> Vec<u8> {
    let mut frame = vec![8u8, 127, 0, 0, 1, 0, 1];
    frame.extend_from_slice(&U1);
    frame.extend_from_slice(&[9u8, 127, 0, 0, 1, 0, 2, 0, 10]);
    frame.extend_from_slice(b"svc/worker");
    frame.extend_from_slice(&[0u8, 0, 0, 0, 0, 0, 0, 42]);
    frame
}

fn unpack(env: ReceiveEnvelope) -> (ActorPath, ActorPath, u64, Bytes) {
    match env {
        ReceiveEnvelope::Msg { src, dst, ser_id, data } => (src, dst, ser_id, data),
    }
}

fn is_invalid<T>(r: Result<T, SerError>) -> bool {
    matches!(r, Err(SerError::InvalidData(_)))
}

#[test]
fn scenario_static_ping_frame() {
    let bytes = serialise_msg(&unique_src(), &named_dst(), ppstatic::Ping).unwrap();
    assert_eq!(&bytes[..], &scenario_frame()[..]);
    let (src, dst, ser_id, data) = unpack(deserialise_msg(bytes).unwrap());
    assert_eq!(src, unique_src());
    assert_eq!(dst, named_dst());
    assert_eq!(ser_id, 42);
    assert!(data.is_empty());
}

#[test]
fn scenario_indexed_ping_round_trip() {
    let bytes = serialise_msg(&unique_src(), &named_dst(), ppindexed::Ping::new(7)).unwrap();
    let (_, _, ser_id, data) = unpack(deserialise_msg(bytes).unwrap());
    assert_eq!(ser_id, 42);
    assert_eq!(&data[..], &[0u8, 0, 0, 0, 0, 0, 0, 7][..]);
    let ping = ppindexed::Ping::deserialise(&data).unwrap();
    assert_eq!(ping.index, 7);
}

#[test]
fn round_trip_both_orders_and_pong() {
    let bytes = serialise_msg(&named_dst(), &unique_src(), ppindexed::Pong::new(u64::MAX)).unwrap();
    let (src, dst, ser_id, data) = unpack(deserialise_msg(bytes).unwrap());
    assert_eq!(src, named_dst());
    assert_eq!(dst, unique_src());
    assert_eq!(ser_id, 43);
    assert_eq!(ppindexed::Pong::deserialise(&data).unwrap().index, u64::MAX);
}

#[test]
fn round_trip_ipv6_udp_and_local() {
    let mut v6 = [0u8; 16];
    for (i, b) in v6.iter_mut().enumerate() {
        *b = (i as u8) * 17;
    }
    let src = ActorPath::Named {
        system: SystemPath::new(Transport::Udp, Address::Ipv6(v6), 65535),
        segments: vec!["a".to_string(), "".to_string(), "ünï".to_string()],
    };
    let dst = ActorPath::Unique {
        system: SystemPath::new(Transport::Local, Address::Ipv4([10, 1, 2, 3]), 0),
        id: [0xff; 16],
    };
    let bytes = serialise_msg(&src, &dst, ppstatic::Pong).unwrap();
    assert_eq!(bytes.len(), src.size_hint().unwrap() + dst.size_hint().unwrap() + 8);
    let (s, d, ser_id, data) = unpack(deserialise_msg(bytes).unwrap());
    assert_eq!(s, src);
    assert_eq!(d, dst);
    assert_eq!(ser_id, 43);
    assert!(data.is_empty());
}

#[test]
fn tag_is_eight_big_endian_bytes() {
    for index in [0u64, 0x0102030405060708] {
        let bytes = serialise_msg(&unique_src(), &named_dst(), ppindexed::Ping::new(index)).unwrap();
        let h = unique_src().size_hint().unwrap() + named_dst().size_hint().unwrap();
        assert_eq!(&bytes[h..h + 8], &42u64.to_be_bytes()[..]);
        assert_eq!(&bytes[h + 8..], &index.to_be_bytes()[..]);
    }
    let bytes = serialise_msg(&unique_src(), &named_dst(), ppstatic::Ping).unwrap();
    let h = unique_src().size_hint().unwrap() + named_dst().size_hint().unwrap();
    assert_eq!(bytes.len(), h + 8);
    assert_eq!(&bytes[h..], &42u64.to_be_bytes()[..]);
}

#[test]
fn trailing_bytes_are_the_payload() {
    for tail in [vec![], vec![1u8], vec![0xde, 0xad, 0xbe, 0xef, 0, 0, 0, 0, 0, 9]] {
        let mut frame = scenario_frame();
        frame.extend_from_slice(&tail);
        let (_, _, ser_id, data) = unpack(deserialise_msg(Bytes::from(frame)).unwrap());
        assert_eq!(ser_id, 42);
        assert_eq!(&data[..], &tail[..]);
    }
}

#[test]
fn named_path_splits_on_slash() {
    let mut frame = vec![9u8, 127, 0, 0, 1, 0, 2, 0, 10];
    frame.extend_from_slice(b"svc/worker");
    let (path, end) = ActorPath::deserialise(&frame, 0).unwrap();
    assert_eq!(end, frame.len());
    assert_eq!(path, named_dst());
}

#[test]
fn empty_name_is_invalid() {
    let frame = vec![9u8, 127, 0, 0, 1, 0, 2, 0, 0, 1, 2, 3];
    assert!(is_invalid(ActorPath::deserialise(&frame, 0)));
}

#[test]
fn name_that_is_not_utf8_is_invalid() {
    let frame = vec![9u8, 127, 0, 0, 1, 0, 2, 0, 3, b'a', b'/', 0xff];
    assert!(is_invalid(ActorPath::deserialise(&frame, 0)));
}

#[test]
fn short_name_is_invalid() {
    let frame = vec![9u8, 127, 0, 0, 1, 0, 2, 0, 5, b'a', b'b'];
    assert!(is_invalid(ActorPath::deserialise(&frame, 0)));
}

#[test]
fn unique_id_needs_sixteen_bytes() {
    let mut frame = vec![8u8, 127, 0, 0, 1, 0, 1];
    frame.extend_from_slice(&U1[..15]);
    assert!(is_invalid(ActorPath::deserialise(&frame, 0)));
    frame.push(U1[15]);
    let (path, end) = ActorPath::deserialise(&frame, 0).unwrap();
    assert_eq!(end, 23);
    assert_eq!(path, unique_src());
}

#[test]
fn unsupported_headers_are_invalid() {
    // protocol identifier 3
    assert!(is_invalid(ActorPath::deserialise(&[24u8, 127, 0, 0, 1, 0, 1], 0)));
    // domain address family
    assert!(is_invalid(ActorPath::deserialise(&[12u8, 127, 0, 0, 1, 0, 1], 0)));
    // no header at all
    assert!(is_invalid(deserialise_msg(Bytes::new())));
}

#[test]
fn short_tag_is_invalid() {
    let mut frame = scenario_frame();
    frame.truncate(frame.len() - 1);
    assert!(is_invalid(deserialise_msg(Bytes::from(frame))));
}

#[test]
fn paths_without_encoding_are_refused() {
    let domain = ActorPath::Unique {
        system: SystemPath::new(Transport::Tcp, Address::Domain("example.org".to_string()), 80),
        id: U1,
    };
    assert_eq!(domain.size_hint(), None);
    assert!(is_invalid(serialise_msg(&domain, &named_dst(), ppstatic::Ping)));
    let empty = ActorPath::Named { system: local_system(2), segments: vec![] };
    assert_eq!(empty.size_hint(), None);
    assert!(is_invalid(serialise_msg(&unique_src(), &empty, ppstatic::Ping)));
    let long = ActorPath::Named { system: local_system(2), segments: vec!["x".repeat(65536)] };
    assert!(is_invalid(serialise_msg(&unique_src(), &long, ppstatic::Ping)));
    let mut buf = vec![1u8];
    assert!(is_invalid(empty.serialise(&mut buf)));
    assert_eq!(buf, vec![1u8]);
}

#[test]
fn path_size_hints_match_encodings() {
    assert_eq!(unique_src().size_hint(), Some(23));
    assert_eq!(named_dst().size_hint(), Some(19));
    let mut buf = Vec::new();
    named_dst().serialise(&mut buf).unwrap();
    assert_eq!(buf.len(), 19);
}

#[test]
fn local_envelope_holds_the_message() {
    let env = serialise_to_recv_envelope(unique_src(), named_dst(), ppindexed::Ping::new(258)).unwrap();
    let MsgEnvelope::Receive(env) = env;
    let (src, dst, ser_id, data) = unpack(env);
    assert_eq!(src, unique_src());
    assert_eq!(dst, named_dst());
    assert_eq!(ser_id, 42);
    assert_eq!(&data[..], &[0u8, 0, 0, 0, 0, 0, 1, 2][..]);
}

#[test]
fn indexed_deserialiser_needs_eight_bytes() {
    assert!(is_invalid(ppindexed::Ping::deserialise(&[0u8; 7])));
    assert_eq!(ppindexed::Ping::deserialise(&[0u8, 0, 0, 0, 0, 0, 0, 5, 9]).unwrap().index, 5);
    assert_eq!(ppstatic::Ping::deserialise(&[]).unwrap(), ppstatic::Ping);
    assert_eq!(ppstatic::Pong::deserialise(&[1u8]).unwrap(), ppstatic::Pong);
}

#[test]
fn local_envelope_needs_a_size_hint() {
    let domain = ActorPath::Named {
        system: SystemPath::new(Transport::Tcp, Address::Domain("example.org".to_string()), 80),
        segments: vec!["svc".to_string()],
    };
    let r = serialise_to_recv_envelope(unique_src(), named_dst(), domain);
    assert!(matches!(r, Err(SerError::Unknown(_))));
}

#[test]
fn paths_and_integers_travel_as_messages() {
    let bytes = serialise_msg(&unique_src(), &named_dst(), 0x0a0b_u64).unwrap();
    let (_, _, ser_id, data) = unpack(deserialise_msg(bytes).unwrap());
    assert_eq!(ser_id, actor_wire::codec::U64_SER_ID);
    assert_eq!(&data[..], &0x0a0b_u64.to_be_bytes()[..]);

    let env = serialise_to_recv_envelope(unique_src(), unique_src(), named_dst()).unwrap();
    let MsgEnvelope::Receive(env) = env;
    let (_, _, ser_id, data) = unpack(env);
    assert_eq!(ser_id, actor_wire::codec::ACTOR_PATH_SER_ID);
    let (path, end) = ActorPath::deserialise(&data, 0).unwrap();
    assert_eq!(end, data.len());
    assert_eq!(path, named_dst());
}
