//! Properties that relate the encoders and the decoders.
use crate::helpers::{decode_msg, encode_msg};
use crate::path::{
    address_bytes, decode_path, decode_pieces, encodable, encode_path, family_id, header_byte,
    join_name, parse_name, split_name, transport_id, transport_of, AddressModel, PathModel,
};
use crate::wire::{be16, be64, be64_value, lemma_be16_round_trip, lemma_be64_round_trip, SEP};
use vstd::prelude::*;
use vstd::utf8::{encode_scalar, encode_utf8, valid_utf8};

verus! {

/// The UTF-8 encodings of some segments.
pub open spec fn encoded_segments(segments: Seq<Seq<char>>) -> Seq<Seq<u8>> {
    segments.map_values(|s: Seq<char>| encode_utf8(s))
}

/// Whether an address holds as many bytes as its family requires.
pub open spec fn wf_address(a: AddressModel) -> bool {
    match a {
        AddressModel::Ipv4(b) => b.len() == 4,
        AddressModel::Ipv6(b) => b.len() == 16,
        AddressModel::Domain(_) => true,
    }
}

/// A path that encodes and decodes back to itself: its address and identifier have their
/// sizes, it is [`encodable`], and a name's segments hold no `/` and are not one empty
/// segment.
pub open spec fn valid_path(p: PathModel) -> bool {
    &&& wf_address(p.system().address)
    &&& encodable(p)
    &&& match p {
        PathModel::Unique { id, .. } => id.len() == 16,
        PathModel::Named { segments, .. } => (forall|i: int|
            0 <= i < segments.len() ==> !(#[trigger] segments[i]).contains('/')) && join_name(
            segments,
        ).len() > 0,
    }
}

proof fn lemma_scalar_not_sep(c: char)
    requires
        c != '/',
    ensures
        !encode_scalar(c as u32).contains(SEP),
{
    let v = c as u32;
    vstd::utf8::char_is_scalar(c);
    assert(v != 0x2F) by {
        assert(('/' as u32) == 0x2F);
    }
    let e = encode_scalar(v);
    assert forall|i: int| 0 <= i < e.len() implies e[i] != SEP by {
        if v <= 0x7F {
            assert((v & 0x7F) as u8 != 0x2Fu8) by (bit_vector)
                requires
                    v <= 0x7F,
                    v != 0x2F,
            ;
        } else {
            assert forall|x: u8| (0x80u8 | x) != 0x2Fu8 by {
                assert((0x80u8 | x) != 0x2Fu8) by (bit_vector);
            }
            assert forall|x: u8| (0xC0u8 | x) != 0x2Fu8 by {
                assert((0xC0u8 | x) != 0x2Fu8) by (bit_vector);
            }
            assert forall|x: u8| (0xE0u8 | x) != 0x2Fu8 by {
                assert((0xE0u8 | x) != 0x2Fu8) by (bit_vector);
            }
            assert forall|x: u8| (0xF0u8 | x) != 0x2Fu8 by {
                assert((0xF0u8 | x) != 0x2Fu8) by (bit_vector);
            }
        }
    }
}

proof fn lemma_encoding_not_sep(s: Seq<char>)
    requires
        !s.contains('/'),
    ensures
        !encode_utf8(s).contains(SEP),
    decreases s.len(),
{
    if s.len() > 0 {
        assert(s[0] != '/') by {
            if s[0] == '/' {
                assert(s.contains('/'));
            }
        }
        lemma_scalar_not_sep(s[0]);
        assert(!s.drop_first().contains('/')) by {
            if s.drop_first().contains('/') {
                let i = choose|i: int| 0 <= i < s.drop_first().len() && s.drop_first()[i] == '/';
                assert(s[i + 1] == '/');
            }
        }
        lemma_encoding_not_sep(s.drop_first());
        let a = encode_scalar(s[0] as u32);
        let b = encode_utf8(s.drop_first());
        assert(encode_utf8(s) == a + b);
        assert forall|i: int| 0 <= i < (a + b).len() implies (a + b)[i] != SEP by {
            if i < a.len() {
                assert(!a.contains(SEP));
            } else {
                assert(b[i - a.len()] == (a + b)[i]);
            }
        }
    }
}

proof fn lemma_split_non_empty(b: Seq<u8>)
    ensures
        split_name(b).len() >= 1,
    decreases b.len(),
{
    if b.len() > 0 {
        lemma_split_non_empty(b.drop_last());
    }
}

proof fn lemma_split_append(x: Seq<u8>, p: Seq<u8>)
    requires
        !p.contains(SEP),
    ensures
        split_name(x + p) == split_name(x).update(
            split_name(x).len() - 1,
            split_name(x).last() + p,
        ),
    decreases p.len(),
{
    lemma_split_non_empty(x);
    if p.len() == 0 {
        assert(x + p =~= x);
        assert(split_name(x).last() + p =~= split_name(x).last());
        assert(split_name(x).update(split_name(x).len() - 1, split_name(x).last())
            =~= split_name(x));
    } else {
        let q = p.drop_last();
        assert(!q.contains(SEP)) by {
            if q.contains(SEP) {
                let i = choose|i: int| 0 <= i < q.len() && q[i] == SEP;
                assert(p[i] == SEP);
            }
        }
        lemma_split_append(x, q);
        assert((x + p).drop_last() =~= x + q);
        assert(p.last() != SEP) by {
            assert(p[p.len() - 1] == p.last());
        }
        assert((x + p).last() == p.last());
        let r = split_name(x + q);
        assert(split_name(x + p) == r.update(r.len() - 1, r.last().push(p.last())));
        let sx = split_name(x);
        assert(r.len() == sx.len());
        assert(r.last() == sx.last() + q);
        assert((sx.last() + q).push(p.last()) =~= sx.last() + p);
        assert(split_name(x + p) =~= split_name(x).update(
            split_name(x).len() - 1,
            split_name(x).last() + p,
        ));
    }
}

proof fn lemma_split_join(segments: Seq<Seq<char>>)
    requires
        segments.len() >= 1,
        forall|i: int| 0 <= i < segments.len() ==> !(#[trigger] segments[i]).contains('/'),
    ensures
        split_name(join_name(segments)) == encoded_segments(segments),
    decreases segments.len(),
{
    let e = encode_utf8(segments.last());
    lemma_encoding_not_sep(segments.last());
    if segments.len() == 1 {
        assert(Seq::<u8>::empty() + e =~= e);
        lemma_split_append(Seq::<u8>::empty(), e);
        assert(split_name(Seq::<u8>::empty()) =~= seq![seq![]]);
        assert(split_name(e) =~= encoded_segments(segments));
    } else {
        let front = segments.drop_last();
        assert forall|i: int| 0 <= i < front.len() implies !(#[trigger] front[i]).contains('/') by {
            assert(front[i] == segments[i]);
        }
        lemma_split_join(front);
        let x = join_name(front);
        let xs = x + seq![SEP];
        assert(xs.drop_last() =~= x);
        assert(split_name(xs) == split_name(x).push(seq![]));
        lemma_split_append(xs, e);
        assert(join_name(segments) == xs + e);
        assert(Seq::<u8>::empty() + e =~= e);
        assert(split_name(join_name(segments)) =~= encoded_segments(segments));
    }
}

proof fn lemma_parse_join(segments: Seq<Seq<char>>)
    requires
        segments.len() >= 1,
        forall|i: int| 0 <= i < segments.len() ==> !(#[trigger] segments[i]).contains('/'),
        join_name(segments).len() > 0,
    ensures
        parse_name(join_name(segments)) == Some(segments),
{
    lemma_split_join(segments);
    let parts = split_name(join_name(segments));
    assert forall|i: int| 0 <= i < parts.len() implies valid_utf8(#[trigger] parts[i]) by {
        vstd::utf8::encode_utf8_valid_utf8(segments[i]);
    }
    assert forall|i: int| 0 <= i < parts.len() implies decode_pieces(parts)[i] == segments[i] by {
        vstd::utf8::encode_utf8_decode_utf8(segments[i]);
    }
    assert(decode_pieces(parts) =~= segments);
}

proof fn lemma_header(p: PathModel)
    requires
        !(p.system().address is Domain),
    ensures
        header_byte(p) % 2 == (if p is Named { 1u8 } else { 0u8 }),
        (header_byte(p) / 2) % 4 == family_id(p.system().address),
        header_byte(p) / 8 == transport_id(p.system().protocol),
        transport_of(transport_id(p.system().protocol)) == p.system().protocol,
{
}

/// A name that is one empty segment is refused on decode, whatever follows it.
pub proof fn lemma_empty_name_rejected(p: PathModel, rest: Seq<u8>)
    requires
        p is Named,
        wf_address(p.system().address),
        encodable(p),
        join_name(p->Named_segments).len() == 0,
    ensures
        decode_path(encode_path(p) + rest) is None,
{
    let b = encode_path(p) + rest;
    let s = p.system();
    lemma_header(p);
    lemma_be16_round_trip(0u16);
    let alen: int = address_bytes(s.address).len() as int;
    assert(b[0] == header_byte(p));
    assert(b[3 + alen] == be16(0u16)[0]);
    assert(b[4 + alen] == be16(0u16)[1]);
    assert(b.subrange(5 + alen, 5 + alen) =~= Seq::<u8>::empty());
}

/// A unique path decodes only with all sixteen bytes of its identifier: with fewer it is
/// refused, with all of them its identifier comes back bit for bit.
pub proof fn lemma_unique_id(p: PathModel)
    requires
        p is Unique,
        valid_path(p),
    ensures
        forall|k: int|
            0 <= k < 16 ==> (#[trigger] decode_path(
                encode_path(p).subrange(0, encode_path(p).len() - 16 + k),
            )) is None,
        decode_path(encode_path(p)) == Some((p, encode_path(p).len() as int)),
{
    let e = encode_path(p);
    lemma_header(p);
    assert forall|k: int| 0 <= k < 16 implies (#[trigger] decode_path(
        e.subrange(0, e.len() - 16 + k),
    )) is None by {
        let b = e.subrange(0, e.len() - 16 + k);
        assert(b[0] == e[0]);
    }
    assert(e + Seq::<u8>::empty() =~= e);
    lemma_path_round_trip(p, Seq::<u8>::empty());
}

/// An encoded path decodes back to itself, whatever follows it, and takes exactly the
/// bytes of its encoding.
pub proof fn lemma_path_round_trip(p: PathModel, rest: Seq<u8>)
    requires
        valid_path(p),
    ensures
        decode_path(encode_path(p) + rest) == Some((p, encode_path(p).len() as int)),
{
    let b = encode_path(p) + rest;
    let s = p.system();
    lemma_header(p);
    lemma_be16_round_trip(s.port);
    let alen: int = address_bytes(s.address).len() as int;
    assert(b[0] == header_byte(p));
    assert(b.subrange(1, 1 + alen) =~= address_bytes(s.address));
    assert(b[1 + alen] == be16(s.port)[0]);
    assert(b[2 + alen] == be16(s.port)[1]);
    match p {
        PathModel::Unique { system, id } => {
            assert(b.subrange(3 + alen, 3 + alen + 16) =~= id);
        },
        PathModel::Named { system, segments } => {
            let name = join_name(segments);
            lemma_be16_round_trip(name.len() as u16);
            assert(b[3 + alen] == be16(name.len() as u16)[0]);
            assert(b[4 + alen] == be16(name.len() as u16)[1]);
            assert(b.subrange(5 + alen, 5 + alen + name.len()) =~= name);
            lemma_parse_join(segments);
        },
    }
}

/// A frame made of two valid paths, a tag and any payload decodes back to those four.
pub proof fn lemma_round_trip(src: PathModel, dst: PathModel, ser_id: u64, payload: Seq<u8>)
    requires
        valid_path(src),
        valid_path(dst),
    ensures
        decode_msg(encode_msg(src, dst, ser_id, payload)) == Some((src, dst, ser_id, payload)),
{
    let es = encode_path(src);
    let ed = encode_path(dst);
    let b = encode_msg(src, dst, ser_id, payload);
    let n = es.len() as int;
    let m = ed.len() as int;
    assert(b =~= es + (ed + be64(ser_id) + payload));
    lemma_path_round_trip(src, ed + be64(ser_id) + payload);
    assert(b.subrange(n, b.len() as int) =~= ed + (be64(ser_id) + payload));
    lemma_path_round_trip(dst, be64(ser_id) + payload);
    assert(b.subrange(n + m, n + m + 8) =~= be64(ser_id));
    lemma_be64_round_trip(ser_id);
    assert(b.subrange(n + m + 8, b.len() as int) =~= payload);
}

/// The tag takes exactly eight bytes, big-endian, right after the two paths, whatever
/// the payload's length.
pub proof fn lemma_tag_width(src: PathModel, dst: PathModel, ser_id: u64, payload: Seq<u8>)
    ensures
        ({
            let b = encode_msg(src, dst, ser_id, payload);
            let h: int = (encode_path(src).len() + encode_path(dst).len()) as int;
            &&& b.len() == h + 8 + payload.len()
            &&& b.subrange(h, h + 8) == be64(ser_id)
            &&& be64_value(b.subrange(h, h + 8)) == ser_id
        }),
{
    let b = encode_msg(src, dst, ser_id, payload);
    let h: int = (encode_path(src).len() + encode_path(dst).len()) as int;
    assert(b.subrange(h, h + 8) =~= be64(ser_id));
    lemma_be64_round_trip(ser_id);
}

/// Whatever bytes follow a valid header, none or many, come back verbatim as the payload.
pub proof fn lemma_payload_verbatim(src: PathModel, dst: PathModel, ser_id: u64, payload: Seq<u8>)
    requires
        valid_path(src),
        valid_path(dst),
    ensures
        decode_msg(encode_msg(src, dst, ser_id, payload)) matches Some((_, _, _, data)) && data
            == payload,
{
    lemma_round_trip(src, dst, ser_id, payload);
}

} // verus!
