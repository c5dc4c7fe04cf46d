//! Building envelopes and frames from messages, and reading frames back.
use crate::buffer::{bytes_as_slice, bytes_tail, bytes_view, freeze};
use crate::codec::Serialisable;
use crate::envelope::{MsgEnvelope, ReceiveEnvelope};
use crate::error::SerError;
use crate::path::{decode_path, encodable, encode_path, ActorPath, PathModel};
use crate::wire::{be64, be64_value, get_u64_be};
use bytes::Bytes;
use vstd::prelude::*;

verus! {

/// A size hint taken as a number of bytes, an absent one as zero.
pub open spec fn hint_or_zero(h: Option<usize>) -> int {
    match h {
        Some(n) => n as int,
        None => 0,
    }
}

/// The number of bytes that a frame is expected to take: the hints of both paths, the
/// eight bytes of the tag and the message's hint.
pub open spec fn size_estimate(
    src: Option<usize>,
    dst: Option<usize>,
    msg: Option<usize>,
) -> int {
    hint_or_zero(src) + hint_or_zero(dst) + 8 + hint_or_zero(msg)
}

/// A frame: both paths, the tag in eight big-endian bytes, then the payload.
pub open spec fn encode_msg(src: PathModel, dst: PathModel, ser_id: u64, payload: Seq<u8>) -> Seq<
    u8,
> {
    encode_path(src) + encode_path(dst) + be64(ser_id) + payload
}

/// The source, destination, tag and payload of a frame, or `None` where its header is
/// malformed or short. The payload is every byte after the tag.
pub open spec fn decode_msg(b: Seq<u8>) -> Option<(PathModel, PathModel, u64, Seq<u8>)> {
    match decode_path(b) {
        None => None,
        Some((src, n)) => match decode_path(b.subrange(n, b.len() as int)) {
            None => None,
            Some((dst, m)) => if b.len() < n + m + 8 {
                None
            } else {
                Some(
                    (
                        src,
                        dst,
                        be64_value(b.subrange(n + m, n + m + 8)),
                        b.subrange(n + m + 8, b.len() as int),
                    ),
                )
            },
        },
    }
}

/// Adds a size hint to a running estimate, an absent hint as zero; the sum saturates.
fn add_hint(size: usize, hint: Option<usize>) -> (r: usize)
    ensures
        size + hint_or_zero(hint) == 0 <==> r == 0,
        size + hint_or_zero(hint) <= usize::MAX ==> r == size + hint_or_zero(hint),
{
    match hint {
        Some(n) => size.saturating_add(n),
        None => size,
    }
}

/// Builds an envelope for local delivery: the message is written into a buffer sized by
/// its hint, which is then frozen.
pub fn serialise_to_recv_envelope<M: Serialisable>(src: ActorPath, dst: ActorPath, msg: M) -> (r:
    Result<MsgEnvelope, SerError>)
    ensures
        msg.spec_size_hint() is None ==> r is Err && r->Err_0 is Unknown,
        msg.spec_size_hint() is Some ==> (r is Ok <==> msg.spec_serialisable()),
        r is Ok ==> match r->Ok_0 {
            MsgEnvelope::Receive(e) => e.holds(src@, dst@, msg.spec_serid(), msg.wire_bytes()),
        },
{
    match msg.size_hint() {
        Some(size) => {
            let mut buf: Vec<u8> = Vec::with_capacity(size);
            match msg.serialise(&mut buf) {
                Ok(_) => {
                    let envelope = MsgEnvelope::Receive(
                        ReceiveEnvelope::Msg {
                            src,
                            dst,
                            ser_id: msg.serid(),
                            data: freeze(buf),
                        },
                    );
                    Ok(envelope)
                },
                Err(ser_err) => Err(ser_err),
            }
        },
        None => Err(SerError::Unknown("Unknown serialisation size".to_string())),
    }
}

/// Encodes both paths, the message's tag and the message into one frozen frame.
pub fn serialise_msg<M: Serialisable>(src: &ActorPath, dst: &ActorPath, msg: M) -> (r: Result<
    Bytes,
    SerError,
>)
    ensures
        size_estimate(src.spec_size_hint(), dst.spec_size_hint(), msg.spec_size_hint()) == 0
            ==> r is Err && r->Err_0 is InvalidData,
        r is Ok <==> encodable(src@) && encodable(dst@) && msg.spec_serialisable(),
        !encodable(src@) || !encodable(dst@) ==> r is Err && r->Err_0 is InvalidData,
        r is Ok ==> bytes_view(r->Ok_0) == encode_msg(
            src@,
            dst@,
            msg.spec_serid(),
            msg.wire_bytes(),
        ),
{
    let ser_id = msg.serid();
    let mut size: usize = 0;
    size = add_hint(size, src.size_hint());
    size = add_hint(size, dst.size_hint());
    size = add_hint(size, ser_id.size_hint());
    size = add_hint(size, msg.size_hint());
    if size == 0 {
        return Err(SerError::InvalidData("Encoded size is zero".to_string()));
    }
    let mut buf: Vec<u8> = Vec::with_capacity(size);
    src.serialise(&mut buf)?;
    dst.serialise(&mut buf)?;
    ser_id.serialise(&mut buf)?;
    msg.serialise(&mut buf)?;
    assert(buf@ =~= encode_msg(src@, dst@, msg.spec_serid(), msg.wire_bytes()));
    Ok(freeze(buf))
}

/// Reads a frame: both paths, the tag, and every remaining byte as the payload, which is
/// shared with `buffer` rather than copied.
pub fn deserialise_msg(buffer: Bytes) -> (r: Result<ReceiveEnvelope, SerError>)
    ensures
        match decode_msg(bytes_view(buffer)) {
            None => r is Err && r->Err_0 is InvalidData,
            Some((src, dst, ser_id, data)) => r is Ok && r->Ok_0.holds(src, dst, ser_id, data),
        },
{
    let bytes = bytes_as_slice(&buffer);
    let ghost b = bytes@;
    assert(b.subrange(0, b.len() as int) =~= b);
    let (src, n) = ActorPath::deserialise(bytes, 0)?;
    let (dst, m) = ActorPath::deserialise(bytes, n)?;
    if bytes.len() - m < 8 {
        return Err(SerError::InvalidData("not enough bytes for a serialisation id".to_string()));
    }
    let ser_id = get_u64_be(bytes, m);
    let data = bytes_tail(&buffer, m + 8);
    Ok(ReceiveEnvelope::Msg { src, dst, ser_id, data })
}

} // verus!
