//! The wire encoding of the mapping protocol.
//!
//! Requests and replies travel over a local stream socket. A `Ping` request
//! is the single byte 0. A mapping request is 18 bytes: the byte 1, a kind
//! byte (0 for GID, 1 for UID), then the process id and the mapping triple
//! as four little-endian 32-bit fields. A reply is a single byte: 0 for
//! `Ack`, 1 to 3 for the three errors.
//!
//! Decoding accepts exactly the encodings: it returns `Some(m)` on the
//! bytes that encode `m`, and `None` on every byte string that encodes
//! nothing. Together with the injectivity of the encoding this pins down
//! both round trips.

use vstd::prelude::*;
use vstd::bytes::{lemma_auto_spec_u32_to_from_le_bytes, spec_u32_to_le_bytes, u32_from_le_bytes,
    u32_to_le_bytes};
use vstd::slice::{slice_index_get, slice_subrange};
use crate::protocol::{MapError, MapKind, MapRequest, RpcReply, RpcRequest};

verus! {

/// The kind byte on the wire: 0 for a GID request, 1 for a UID request.
pub open spec fn spec_kind_byte(k: MapKind) -> u8 {
    match k {
        MapKind::Gid => 0,
        MapKind::Uid => 1,
    }
}

/// The 18-byte encoding of a mapping request.
pub open spec fn spec_encode_mapping(r: MapRequest) -> Seq<u8> {
    seq![1u8, spec_kind_byte(r.kind)] + spec_u32_to_le_bytes(r.pid) + spec_u32_to_le_bytes(
        r.id_inside_ns,
    ) + spec_u32_to_le_bytes(r.id_outside_ns) + spec_u32_to_le_bytes(r.length)
}

/// The encoding of a request: one byte 0 for `Ping`, 18 bytes for a
/// mapping request.
pub open spec fn spec_encode_request(m: RpcRequest) -> Seq<u8> {
    match m {
        RpcRequest::Ping => seq![0u8],
        RpcRequest::Mapping(r) => spec_encode_mapping(r),
    }
}

/// The single reply byte: 0 for `Ack`, 1 for `InvalidArgument`, 2 for
/// `NotFound`, 3 for `Internal`.
pub open spec fn spec_reply_byte(r: RpcReply) -> u8 {
    match r {
        RpcReply::Ack => 0,
        RpcReply::Failed(MapError::InvalidArgument) => 1,
        RpcReply::Failed(MapError::NotFound) => 2,
        RpcReply::Failed(MapError::Internal) => 3,
    }
}

/// The encoding of a reply.
pub open spec fn spec_encode_reply(r: RpcReply) -> Seq<u8> {
    seq![spec_reply_byte(r)]
}

/// Encode a request for the wire.
pub fn encode_request(m: &RpcRequest) -> (r: Vec<u8>)
    ensures
        r@ == spec_encode_request(*m),
{
    match m {
        RpcRequest::Ping => {
            let mut v: Vec<u8> = Vec::new();
            v.push(0);
            proof {
                assert(v@ =~= spec_encode_request(*m));
            }
            v
        },
        RpcRequest::Mapping(req) => {
            let mut v: Vec<u8> = Vec::new();
            v.push(1);
            match req.kind {
                MapKind::Gid => v.push(0),
                MapKind::Uid => v.push(1),
            }
            let mut pid = u32_to_le_bytes(req.pid);
            v.append(&mut pid);
            let mut inside = u32_to_le_bytes(req.id_inside_ns);
            v.append(&mut inside);
            let mut outside = u32_to_le_bytes(req.id_outside_ns);
            v.append(&mut outside);
            let mut length = u32_to_le_bytes(req.length);
            v.append(&mut length);
            proof {
                assert(v@ =~= spec_encode_request(*m));
            }
            v
        },
    }
}

/// Decode a request from the wire: `Some` on exactly the bytes that encode
/// a request, and then the request they encode.
pub fn decode_request(b: &[u8]) -> (r: Option<RpcRequest>)
    ensures
        r matches Some(m) ==> spec_encode_request(m) == b@,
        r is None ==> forall|m: RpcRequest| #[trigger] spec_encode_request(m) != b@,
{
    proof {
        lemma_auto_spec_u32_to_from_le_bytes();
    }
    if b.len() == 1 && *slice_index_get(b, 0) == 0u8 {
        proof {
            assert(spec_encode_request(RpcRequest::Ping) =~= b@);
        }
        Some(RpcRequest::Ping)
    } else if b.len() == 18 && *slice_index_get(b, 0) == 1u8 && *slice_index_get(b, 1) <= 1u8 {
        let kind = if *slice_index_get(b, 1) == 0u8 {
            MapKind::Gid
        } else {
            MapKind::Uid
        };
        let pid = u32_from_le_bytes(slice_subrange(b, 2, 6));
        let id_inside_ns = u32_from_le_bytes(slice_subrange(b, 6, 10));
        let id_outside_ns = u32_from_le_bytes(slice_subrange(b, 10, 14));
        let length = u32_from_le_bytes(slice_subrange(b, 14, 18));
        let req = MapRequest { kind, pid, id_inside_ns, id_outside_ns, length };
        proof {
            assert(spec_encode_mapping(req) =~= b@);
        }
        Some(RpcRequest::Mapping(req))
    } else {
        proof {
            assert forall|m: RpcRequest| #[trigger] spec_encode_request(m) != b@ by {
                match m {
                    RpcRequest::Ping => {
                        assert(spec_encode_request(m).len() == 1);
                        if b@.len() == 1 {
                            assert(spec_encode_request(m)[0] == 0);
                        }
                    },
                    RpcRequest::Mapping(r) => {
                        assert(spec_encode_mapping(r).len() == 18);
                        assert(spec_encode_mapping(r)[0] == 1);
                        assert(spec_encode_mapping(r)[1] == spec_kind_byte(r.kind));
                        assert(spec_kind_byte(r.kind) <= 1);
                    },
                }
            }
        }
        None
    }
}

/// Encode a reply for the wire.
pub fn encode_reply(r: &RpcReply) -> (out: Vec<u8>)
    ensures
        out@ == spec_encode_reply(*r),
{
    let byte: u8 = match r {
        RpcReply::Ack => 0,
        RpcReply::Failed(MapError::InvalidArgument) => 1,
        RpcReply::Failed(MapError::NotFound) => 2,
        RpcReply::Failed(MapError::Internal) => 3,
    };
    let mut v: Vec<u8> = Vec::new();
    v.push(byte);
    proof {
        assert(v@ =~= spec_encode_reply(*r));
    }
    v
}

/// Decode a reply from the wire: `Some` on exactly the bytes that encode a
/// reply, and then the reply they encode.
pub fn decode_reply(b: &[u8]) -> (r: Option<RpcReply>)
    ensures
        r matches Some(rep) ==> spec_encode_reply(rep) == b@,
        r is None ==> forall|rep: RpcReply| #[trigger] spec_encode_reply(rep) != b@,
{
    if b.len() != 1 {
        return None;
    }
    let byte = *slice_index_get(b, 0);
    let rep = if byte == 0 {
        Some(RpcReply::Ack)
    } else if byte == 1 {
        Some(RpcReply::Failed(MapError::InvalidArgument))
    } else if byte == 2 {
        Some(RpcReply::Failed(MapError::NotFound))
    } else if byte == 3 {
        Some(RpcReply::Failed(MapError::Internal))
    } else {
        None
    };
    proof {
        if rep is Some {
            assert(spec_encode_reply(rep->0) =~= b@);
        } else {
            assert forall|r: RpcReply| #[trigger] spec_encode_reply(r) != b@ by {
                assert(spec_encode_reply(r)[0] == spec_reply_byte(r));
                assert(spec_reply_byte(r) <= 3);
            }
        }
    }
    rep
}

/// The request encoding is injective: equal encodings come from equal
/// requests. With the decoder's contract this gives both round trips:
/// decoding an encoding yields the encoded request, and encoding a decoded
/// byte string yields those bytes again.
pub proof fn lemma_encode_request_injective(m1: RpcRequest, m2: RpcRequest)
    requires
        spec_encode_request(m1) == spec_encode_request(m2),
    ensures
        m1 == m2,
{
    lemma_auto_spec_u32_to_from_le_bytes();
    match (m1, m2) {
        (RpcRequest::Ping, RpcRequest::Ping) => {
        },
        (RpcRequest::Ping, RpcRequest::Mapping(r2)) => {
            assert(spec_encode_request(m1).len() == 1);
            assert(spec_encode_request(m2).len() == 18);
        },
        (RpcRequest::Mapping(r1), RpcRequest::Ping) => {
            assert(spec_encode_request(m1).len() == 18);
            assert(spec_encode_request(m2).len() == 1);
        },
        (RpcRequest::Mapping(r1), RpcRequest::Mapping(r2)) => {
            let s1 = spec_encode_mapping(r1);
            let s2 = spec_encode_mapping(r2);
            assert(s1[1] == spec_kind_byte(r1.kind) && s2[1] == spec_kind_byte(r2.kind));
            assert(r1.kind == r2.kind);
            lemma_mapping_fields_from_encoding(r1);
            lemma_mapping_fields_from_encoding(r2);
        },
    }
}

/// Every field of a mapping request can be read back from its encoding.
proof fn lemma_mapping_fields_from_encoding(r: MapRequest)
    ensures
        spec_encode_mapping(r).subrange(2, 6) == spec_u32_to_le_bytes(r.pid),
        spec_encode_mapping(r).subrange(6, 10) == spec_u32_to_le_bytes(r.id_inside_ns),
        spec_encode_mapping(r).subrange(10, 14) == spec_u32_to_le_bytes(r.id_outside_ns),
        spec_encode_mapping(r).subrange(14, 18) == spec_u32_to_le_bytes(r.length),
{
    lemma_auto_spec_u32_to_from_le_bytes();
    assert(spec_encode_mapping(r).subrange(2, 6) =~= spec_u32_to_le_bytes(r.pid));
    assert(spec_encode_mapping(r).subrange(6, 10) =~= spec_u32_to_le_bytes(r.id_inside_ns));
    assert(spec_encode_mapping(r).subrange(10, 14) =~= spec_u32_to_le_bytes(r.id_outside_ns));
    assert(spec_encode_mapping(r).subrange(14, 18) =~= spec_u32_to_le_bytes(r.length));
}

/// The reply encoding is injective: equal encodings come from equal
/// replies.
pub proof fn lemma_encode_reply_injective(r1: RpcReply, r2: RpcReply)
    requires
        spec_encode_reply(r1) == spec_encode_reply(r2),
    ensures
        r1 == r2,
{
    assert(spec_encode_reply(r1)[0] == spec_reply_byte(r1));
    assert(spec_encode_reply(r2)[0] == spec_reply_byte(r2));
}

} // verus!
