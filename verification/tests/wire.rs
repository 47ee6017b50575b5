use userns_child_exec::codec::{decode_reply, decode_request, encode_reply, encode_request};
use userns_child_exec::protocol::{MapError, MapKind, MapRequest, RpcReply, RpcRequest};
use userns_child_exec::render::{deny_value, gid_map_path, map_line, proc_dir, render_u32,
    setgroups_path, uid_map_path};

#[test]
fn ping_encodes_to_one_zero_byte() {
    assert_eq!(encode_request(&RpcRequest::Ping), vec![0u8]);
}

#[test]
fn mapping_request_encodes_little_endian() {
    let req = MapRequest {
        kind: MapKind::Uid,
        pid: 0x01020304,
        id_inside_ns: 0,
        id_outside_ns: 1000,
        length: 1,
    };
    let bytes = encode_request(&RpcRequest::Mapping(req));
    let expected = vec![
        1u8, 1, // mapping, UID
        0x04, 0x03, 0x02, 0x01, // pid
        0, 0, 0, 0, // id_inside_ns
        0xe8, 0x03, 0, 0, // id_outside_ns = 1000
        1, 0, 0, 0, // length
    ];
    assert_eq!(bytes, expected);
}

#[test]
fn request_round_trips() {
    let cases = vec![
        RpcRequest::Ping,
        RpcRequest::Mapping(MapRequest::gid_for(1, 0)),
        RpcRequest::Mapping(MapRequest::uid_for(4294967295, 4294967295)),
        RpcRequest::Mapping(MapRequest {
            kind: MapKind::Gid,
            pid: 77,
            id_inside_ns: 3,
            id_outside_ns: 9,
            length: 65536,
        }),
    ];
    for m in cases {
        let bytes = encode_request(&m);
        assert_eq!(decode_request(&bytes), Some(m));
    }
}

#[test]
fn malformed_requests_are_rejected() {
    assert_eq!(decode_request(&[]), None);
    assert_eq!(decode_request(&[2]), None); // unknown tag
    assert_eq!(decode_request(&[0, 0]), None); // ping with trailing byte
    assert_eq!(decode_request(&[1; 17]), None); // short mapping
    assert_eq!(decode_request(&[1; 19]), None); // long mapping
    let mut bad_kind = [0u8; 18];
    bad_kind[0] = 1;
    bad_kind[1] = 2; // no such kind
    assert_eq!(decode_request(&bad_kind), None);
}

#[test]
fn replies_round_trip() {
    let cases = vec![
        RpcReply::Ack,
        RpcReply::Failed(MapError::InvalidArgument),
        RpcReply::Failed(MapError::NotFound),
        RpcReply::Failed(MapError::Internal),
    ];
    for (i, r) in cases.into_iter().enumerate() {
        let bytes = encode_reply(&r);
        assert_eq!(bytes, vec![i as u8]);
        assert_eq!(decode_reply(&bytes), Some(r));
    }
}

#[test]
fn malformed_replies_are_rejected() {
    assert_eq!(decode_reply(&[]), None);
    assert_eq!(decode_reply(&[4]), None);
    assert_eq!(decode_reply(&[0, 0]), None);
}

#[test]
fn decimal_rendering_is_exact() {
    assert_eq!(render_u32(0), b"0".to_vec());
    assert_eq!(render_u32(7), b"7".to_vec());
    assert_eq!(render_u32(10), b"10".to_vec());
    assert_eq!(render_u32(1000), b"1000".to_vec());
    assert_eq!(render_u32(4294967295), b"4294967295".to_vec());
}

#[test]
fn mapping_line_is_exact() {
    assert_eq!(map_line(0, 1000, 1), b"0 1000 1\n".to_vec());
    assert_eq!(map_line(3, 9, 65536), b"3 9 65536\n".to_vec());
}

#[test]
fn mapping_paths_are_exact() {
    assert_eq!(proc_dir(1), b"/proc/1".to_vec());
    assert_eq!(setgroups_path(1234), b"/proc/1234/setgroups".to_vec());
    assert_eq!(gid_map_path(1234), b"/proc/1234/gid_map".to_vec());
    assert_eq!(uid_map_path(1234), b"/proc/1234/uid_map".to_vec());
    assert_eq!(deny_value(), b"deny".to_vec());
}
