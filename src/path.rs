//! Actor addresses and their wire encoding.
use crate::codec::{Serialisable, ACTOR_PATH_SER_ID};
use crate::error::SerError;
use crate::wire::{be16, be16_value, get_u16_be, put_slice, put_u16_be, SEP};
use vstd::prelude::*;
use vstd::utf8::{decode_utf8, encode_utf8, valid_utf8};

verus! {

/// The protocol over which a system is reached.
#[derive(Clone, Copy, Debug, PartialEq, Eq, Structural)]
pub enum Transport {
    Local,
    Tcp,
    Udp,
}

/// A network address of a system.
#[derive(Clone, Debug, PartialEq, Eq)]
pub enum Address {
    Ipv4([u8; 4]),
    Ipv6([u8; 16]),
    /// A domain name; it is not resolved and has no wire encoding here.
    Domain(String),
}

/// A network endpoint that hosts actors.
#[derive(Clone, Debug, PartialEq, Eq)]
pub struct SystemPath {
    pub protocol: Transport,
    pub address: Address,
    pub port: u16,
}

/// A reference to an actor: a unique identifier, or a hierarchical name, bound to a system.
#[derive(Clone, Debug, PartialEq, Eq)]
pub enum ActorPath {
    Unique { system: SystemPath, id: [u8; 16] },
    Named { system: SystemPath, segments: Vec<String> },
}

/// The value of an [`Address`].
pub enum AddressModel {
    Ipv4(Seq<u8>),
    Ipv6(Seq<u8>),
    Domain(Seq<char>),
}

/// The value of a [`SystemPath`].
pub struct SystemModel {
    pub protocol: Transport,
    pub address: AddressModel,
    pub port: u16,
}

/// The value of an [`ActorPath`].
pub enum PathModel {
    Unique { system: SystemModel, id: Seq<u8> },
    Named { system: SystemModel, segments: Seq<Seq<char>> },
}

impl View for Address {
    type V = AddressModel;

    open spec fn view(&self) -> AddressModel {
        match self {
            Address::Ipv4(a) => AddressModel::Ipv4(a@),
            Address::Ipv6(a) => AddressModel::Ipv6(a@),
            Address::Domain(s) => AddressModel::Domain(s@),
        }
    }
}

impl View for SystemPath {
    type V = SystemModel;

    open spec fn view(&self) -> SystemModel {
        SystemModel { protocol: self.protocol, address: self.address@, port: self.port }
    }
}

impl View for ActorPath {
    type V = PathModel;

    open spec fn view(&self) -> PathModel {
        match self {
            ActorPath::Unique { system, id } => PathModel::Unique { system: system@, id: id@ },
            ActorPath::Named { system, segments } => PathModel::Named {
                system: system@,
                segments: string_views(segments@),
            },
        }
    }
}

impl PathModel {
    pub open spec fn system(self) -> SystemModel {
        match self {
            PathModel::Unique { system, .. } => system,
            PathModel::Named { system, .. } => system,
        }
    }
}

/// The protocol's identifier in a path header.
pub open spec fn transport_id(t: Transport) -> u8 {
    match t {
        Transport::Local => 0,
        Transport::Tcp => 1,
        Transport::Udp => 2,
    }
}

/// The protocol with the given identifier.
pub open spec fn transport_of(id: u8) -> Transport {
    if id == 0 {
        Transport::Local
    } else if id == 1 {
        Transport::Tcp
    } else {
        Transport::Udp
    }
}

/// The address family's identifier in a path header.
pub open spec fn family_id(a: AddressModel) -> u8 {
    match a {
        AddressModel::Ipv4(_) => 0,
        AddressModel::Ipv6(_) => 1,
        AddressModel::Domain(_) => 2,
    }
}

/// The header byte: the path type in bit 0, the address family in bits 1 and 2,
/// the protocol in the bits above.
pub open spec fn header_byte(p: PathModel) -> u8 {
    let kind: u8 = if p is Named { 1 } else { 0 };
    (kind + 2 * family_id(p.system().address) + 8 * transport_id(p.system().protocol)) as u8
}

/// The segments of a name, each in UTF-8, joined by the separator byte.
pub open spec fn join_name(segments: Seq<Seq<char>>) -> Seq<u8>
    decreases segments.len(),
{
    if segments.len() == 0 {
        seq![]
    } else if segments.len() == 1 {
        encode_utf8(segments[0])
    } else {
        join_name(segments.drop_last()) + seq![SEP] + encode_utf8(segments.last())
    }
}

/// The address bytes of an address that has an encoding.
pub open spec fn address_bytes(a: AddressModel) -> Seq<u8> {
    match a {
        AddressModel::Ipv4(b) => b,
        AddressModel::Ipv6(b) => b,
        AddressModel::Domain(_) => seq![],
    }
}

/// Whether a path has a wire encoding: its address is not a domain name, and a name
/// has at least one segment and at most `u16::MAX` bytes.
pub open spec fn encodable(p: PathModel) -> bool {
    &&& !(p.system().address is Domain)
    &&& match p {
        PathModel::Unique { .. } => true,
        PathModel::Named { segments, .. } => segments.len() >= 1 && join_name(segments).len()
            <= u16::MAX,
    }
}

/// The wire encoding of a path that is [`encodable`].
pub open spec fn encode_path(p: PathModel) -> Seq<u8> {
    let head = seq![header_byte(p)] + address_bytes(p.system().address) + be16(p.system().port);
    match p {
        PathModel::Unique { id, .. } => head + id,
        PathModel::Named { segments, .. } => {
            let name = join_name(segments);
            head + be16(name.len() as u16) + name
        },
    }
}

/// The character sequences of some strings.
pub open spec fn string_views(v: Seq<String>) -> Seq<Seq<char>> {
    v.map_values(|s: String| s@)
}

/// The characters that some pieces of UTF-8 encode.
pub open spec fn decode_pieces(parts: Seq<Seq<u8>>) -> Seq<Seq<char>> {
    parts.map_values(|p: Seq<u8>| decode_utf8(p))
}

/// The pieces of `b` between separator bytes; there is always at least one.
pub open spec fn split_name(b: Seq<u8>) -> Seq<Seq<u8>>
    decreases b.len(),
{
    if b.len() == 0 {
        seq![seq![]]
    } else {
        let r = split_name(b.drop_last());
        if b.last() == SEP {
            r.push(seq![])
        } else {
            r.update(r.len() - 1, r.last().push(b.last()))
        }
    }
}

/// The segments of an encoded name: `None` where the name is empty or a piece is not UTF-8.
pub open spec fn parse_name(b: Seq<u8>) -> Option<Seq<Seq<char>>> {
    let parts = split_name(b);
    if b.len() == 0 || exists|i: int| 0 <= i < parts.len() && !valid_utf8(#[trigger] parts[i]) {
        None
    } else {
        Some(decode_pieces(parts))
    }
}

/// The path encoded at the start of `b`, with the number of bytes it takes; `None` where
/// the bytes are too few or do not form a path.
pub open spec fn decode_path(b: Seq<u8>) -> Option<(PathModel, int)> {
    if b.len() < 1 {
        None
    } else {
        let h = b[0];
        let fam = (h / 2) % 4;
        let tid = h / 8;
        if tid > 2 || fam > 1 {
            None
        } else {
            let alen: int = if fam == 0 { 4 } else { 16 };
            if b.len() < 3 + alen {
                None
            } else {
                let address = if fam == 0 {
                    AddressModel::Ipv4(b.subrange(1, 5))
                } else {
                    AddressModel::Ipv6(b.subrange(1, 17))
                };
                let system = SystemModel {
                    protocol: transport_of(tid),
                    address,
                    port: be16_value(b[1 + alen], b[2 + alen]),
                };
                let off = 3 + alen;
                if h % 2 == 0 {
                    if b.len() < off + 16 {
                        None
                    } else {
                        Some((PathModel::Unique { system, id: b.subrange(off, off + 16) }, off + 16))
                    }
                } else if b.len() < off + 2 {
                    None
                } else {
                    let n = be16_value(b[off], b[off + 1]) as int;
                    if b.len() < off + 2 + n {
                        None
                    } else {
                        match parse_name(b.subrange(off + 2, off + 2 + n)) {
                            Some(segments) => Some(
                                (PathModel::Named { system, segments }, off + 2 + n),
                            ),
                            None => None,
                        }
                    }
                }
            }
        }
    }
}

/// Relies on `String::from_utf8`: succeeds exactly on valid UTF-8, and the string then
/// holds those bytes.
#[verifier::external_body]
fn string_from_utf8(v: Vec<u8>) -> (r: Option<String>)
    ensures
        r is Some <==> valid_utf8(v@),
        r is Some ==> encode_utf8(r->0@) == v@,
{
    String::from_utf8(v).ok()
}

/// The bytes of `buf` from `start` to `end`, copied.
fn copy_range(buf: &[u8], start: usize, end: usize) -> (r: Vec<u8>)
    requires
        start <= end <= buf@.len(),
    ensures
        r@ == buf@.subrange(start as int, end as int),
{
    let mut out: Vec<u8> = Vec::with_capacity(end - start);
    let mut i: usize = start;
    while i < end
        invariant
            start <= i <= end <= buf@.len(),
            out@ == buf@.subrange(start as int, i as int),
        decreases end - i,
    {
        out.push(buf[i]);
        i = i + 1;
        assert(out@ =~= buf@.subrange(start as int, i as int));
    }
    out
}

/// A piece of a name as a string, where it is valid UTF-8.
fn piece_to_string(buf: &[u8], start: usize, end: usize) -> (r: Option<String>)
    requires
        start <= end <= buf@.len(),
    ensures
        r is Some <==> valid_utf8(buf@.subrange(start as int, end as int)),
        r is Some ==> r->0@ == decode_utf8(buf@.subrange(start as int, end as int)),
{
    let piece = copy_range(buf, start, end);
    let r = string_from_utf8(piece);
    proof {
        if r is Some {
            vstd::utf8::encode_utf8_decode_utf8(r->0@);
        }
    }
    r
}

/// The segments of the name held in `buf` from `start` to `end`.
fn parse_name_exec(buf: &[u8], start: usize, end: usize) -> (r: Option<Vec<String>>)
    requires
        start <= end <= buf@.len(),
    ensures
        match parse_name(buf@.subrange(start as int, end as int)) {
            None => r is None,
            Some(segs) => r is Some && string_views(r->0@) == segs,
        },
{
    let ghost name = buf@.subrange(start as int, end as int);
    if start == end {
        return None;
    }
    let mut segments: Vec<String> = Vec::new();
    let mut ok = true;
    let mut seg_start: usize = start;
    let mut i: usize = start;
    let ghost mut done: Seq<Seq<u8>> = seq![];
    assert(buf@.subrange(start as int, start as int) =~= seq![]);
    assert(split_name(seq![]) =~= seq![seq![]]);
    assert(done.push(seq![]) =~= seq![seq![]]);
    while i < end
        invariant
            start <= seg_start <= i <= end <= buf@.len(),
            split_name(buf@.subrange(start as int, i as int)) == done.push(
                buf@.subrange(seg_start as int, i as int),
            ),
            ok <==> forall|k: int| 0 <= k < done.len() ==> valid_utf8(#[trigger] done[k]),
            ok ==> string_views(segments@) == decode_pieces(done),
        decreases end - i,
    {
        let ghost prev = buf@.subrange(start as int, i as int);
        let ghost cur = buf@.subrange(start as int, i + 1);
        assert(cur.drop_last() =~= prev);
        assert(cur.last() == buf@[i as int]);
        if buf[i] == SEP {
            let piece = piece_to_string(buf, seg_start, i);
            let ghost old_done = done;
            let ghost old_segments = segments@;
            proof {
                done = done.push(buf@.subrange(seg_start as int, i as int));
                assert(done.drop_last() =~= old_done);
                assert forall|k: int| 0 <= k < old_done.len() implies done[k] == old_done[k] by {}
            }
            match piece {
                Some(s) => {
                    assert(valid_utf8(done[done.len() - 1]));
                    if ok {
                        assert(string_views(old_segments) == decode_pieces(old_done));
                        segments.push(s);
                        assert forall|j: int| 0 <= j < done.len() implies string_views(
                            segments@,
                        )[j] == decode_pieces(done)[j] by {
                            if j < old_done.len() {
                                assert(string_views(old_segments)[j] == decode_pieces(
                                    old_done,
                                )[j]);
                            }
                        }
                        assert(string_views(segments@) =~= decode_pieces(done));
                    }
                },
                None => {
                    ok = false;
                    assert(!valid_utf8(done[done.len() - 1]));
                },
            }
            seg_start = i + 1;
            assert(split_name(cur) == split_name(prev).push(seq![]));
            assert(buf@.subrange(seg_start as int, i + 1) =~= seq![]);
            assert(split_name(cur) =~= done.push(buf@.subrange(seg_start as int, i + 1)));
        } else {
            assert(buf@.subrange(seg_start as int, i + 1) =~= buf@.subrange(
                seg_start as int,
                i as int,
            ).push(buf@[i as int]));
            assert(split_name(cur) =~= done.push(buf@.subrange(seg_start as int, i + 1)));
        }
        i = i + 1;
    }
    let last = piece_to_string(buf, seg_start, end);
    let ghost parts = done.push(buf@.subrange(seg_start as int, end as int));
    assert(split_name(name) == parts);
    let ghost old_segments = segments@;
    match last {
        Some(s) => {
            if ok {
                assert(string_views(old_segments) == decode_pieces(done));
                segments.push(s);
                assert forall|j: int| 0 <= j < parts.len() implies string_views(segments@)[j]
                    == decode_pieces(parts)[j] by {
                    if j < done.len() {
                        assert(string_views(old_segments)[j] == decode_pieces(done)[j]);
                    }
                }
                assert(string_views(segments@) =~= decode_pieces(parts));
                assert forall|k: int| 0 <= k < parts.len() implies valid_utf8(#[trigger] parts[k]) by {
                    if k < done.len() {
                        assert(valid_utf8(done[k]));
                    }
                }
                Some(segments)
            } else {
                proof {
                    let k = choose|k: int| 0 <= k < done.len() && !valid_utf8(#[trigger] done[k]);
                    assert(!valid_utf8(parts[k]));
                }
                None
            }
        },
        None => {
            assert(!valid_utf8(parts[parts.len() - 1]));
            None
        },
    }
}

/// The four bytes of `buf` from `pos`.
fn read_array4(buf: &[u8], pos: usize) -> (r: [u8; 4])
    requires
        pos + 4 <= buf@.len(),
    ensures
        r@ == buf@.subrange(pos as int, pos + 4),
{
    let r = [buf[pos], buf[pos + 1], buf[pos + 2], buf[pos + 3]];
    assert(r@ =~= buf@.subrange(pos as int, pos + 4));
    r
}

/// The sixteen bytes of `buf` from `pos`.
fn read_array16(buf: &[u8], pos: usize) -> (r: [u8; 16])
    requires
        pos + 16 <= buf@.len(),
    ensures
        r@ == buf@.subrange(pos as int, pos + 16),
{
    let r = [
        buf[pos],
        buf[pos + 1],
        buf[pos + 2],
        buf[pos + 3],
        buf[pos + 4],
        buf[pos + 5],
        buf[pos + 6],
        buf[pos + 7],
        buf[pos + 8],
        buf[pos + 9],
        buf[pos + 10],
        buf[pos + 11],
        buf[pos + 12],
        buf[pos + 13],
        buf[pos + 14],
        buf[pos + 15],
    ];
    assert(r@ =~= buf@.subrange(pos as int, pos + 16));
    r
}

impl Transport {
    fn id(&self) -> (r: u8)
        ensures
            r == transport_id(*self),
    {
        match self {
            Transport::Local => 0,
            Transport::Tcp => 1,
            Transport::Udp => 2,
        }
    }
}

impl SystemPath {
    pub fn new(protocol: Transport, address: Address, port: u16) -> (r: SystemPath)
        ensures
            r.protocol == protocol,
            r.address == address,
            r.port == port,
    {
        SystemPath { protocol, address, port }
    }
}

/// The segments joined by the separator, each in UTF-8.
fn name_bytes(segments: &Vec<String>) -> (r: Vec<u8>)
    ensures
        r@ == join_name(string_views(segments@)),
{
    let ghost segs = string_views(segments@);
    let mut out: Vec<u8> = Vec::new();
    let mut k: usize = 0;
    while k < segments.len()
        invariant
            k <= segments@.len(),
            segs == string_views(segments@),
            out@ == join_name(segs.take(k as int)),
        decreases segments@.len() - k,
    {
        if k > 0 {
            out.push(SEP);
        }
        let bytes = segments[k].as_str().as_bytes();
        put_slice(&mut out, bytes);
        proof {
            let next = segs.take(k + 1);
            assert(next.drop_last() =~= segs.take(k as int));
            assert(next.last() == segments@[k as int]@);
            assert(out@ =~= join_name(next));
        }
        k = k + 1;
    }
    assert(segs.take(segments@.len() as int) =~= segs);
    out
}

impl ActorPath {
    pub open spec fn spec_size_hint(&self) -> Option<usize> {
        if encodable(self@) {
            Some(encode_path(self@).len() as usize)
        } else {
            None
        }
    }

    /// The number of bytes of the encoding, or `None` where there is none.
    pub fn size_hint(&self) -> (r: Option<usize>)
        ensures
            r == self.spec_size_hint(),
    {
        let system = self.system();
        let alen: usize = match &system.address {
            Address::Ipv4(_) => 4,
            Address::Ipv6(_) => 16,
            Address::Domain(_) => {
                return None;
            },
        };
        match self {
            ActorPath::Unique { .. } => Some(1 + alen + 2 + 16),
            ActorPath::Named { segments, .. } => {
                let name = name_bytes(segments);
                if segments.len() == 0 || name.len() > 65535 {
                    None
                } else {
                    Some(1 + alen + 2 + 2 + name.len())
                }
            },
        }
    }

    pub fn system(&self) -> (r: &SystemPath)
        ensures
            r@ == self@.system(),
    {
        match self {
            ActorPath::Unique { system, .. } => system,
            ActorPath::Named { system, .. } => system,
        }
    }

    /// Reads the path encoded in `buf` from `pos`, and the position just after it.
    pub fn deserialise(buf: &[u8], pos: usize) -> (r: Result<(ActorPath, usize), SerError>)
        requires
            pos <= buf@.len(),
        ensures
            match decode_path(buf@.subrange(pos as int, buf@.len() as int)) {
                None => r is Err && r->Err_0 is InvalidData,
                Some((p, n)) => r is Ok && r->Ok_0.0@ == p && r->Ok_0.1 == pos + n,
            },
    {
        let ghost b = buf@.subrange(pos as int, buf@.len() as int);
        if buf.len() - pos < 1 {
            return Err(SerError::InvalidData("no bytes for a path header".to_string()));
        }
        let h = buf[pos];
        let fam = (h / 2) % 4;
        let tid = h / 8;
        if tid > 2 || fam > 1 {
            return Err(SerError::InvalidData("unsupported path header".to_string()));
        }
        let alen: usize = if fam == 0 { 4 } else { 16 };
        if buf.len() - pos < 3 + alen {
            return Err(SerError::InvalidData("not enough bytes for a system path".to_string()));
        }
        let address = if fam == 0 {
            let a = read_array4(buf, pos + 1);
            assert(a@ =~= b.subrange(1, 5));
            Address::Ipv4(a)
        } else {
            let a = read_array16(buf, pos + 1);
            assert(a@ =~= b.subrange(1, 17));
            Address::Ipv6(a)
        };
        let protocol = if tid == 0 {
            Transport::Local
        } else if tid == 1 {
            Transport::Tcp
        } else {
            Transport::Udp
        };
        let port = get_u16_be(buf, pos + 1 + alen);
        let system = SystemPath { protocol, address, port };
        let off = pos + 3 + alen;
        if h % 2 == 0 {
            if buf.len() - off < 16 {
                return Err(SerError::InvalidData("not enough bytes for a unique id".to_string()));
            }
            let id = read_array16(buf, off);
            assert(id@ =~= b.subrange(3 + alen, 3 + alen + 16));
            Ok((ActorPath::Unique { system, id }, off + 16))
        } else {
            if buf.len() - off < 2 {
                return Err(SerError::InvalidData("not enough bytes for a name length".to_string()));
            }
            let n = get_u16_be(buf, off) as usize;
            if buf.len() - off - 2 < n {
                return Err(SerError::InvalidData("not enough bytes for a name".to_string()));
            }
            assert(buf@.subrange(off + 2, off + 2 + n) =~= b.subrange(
                3 + alen + 2,
                3 + alen + 2 + n,
            ));
            match parse_name_exec(buf, off + 2, off + 2 + n) {
                Some(segments) => Ok((ActorPath::Named { system, segments }, off + 2 + n)),
                None => Err(SerError::InvalidData("a name with no valid segments".to_string())),
            }
        }
    }

    /// Appends the wire encoding of this path; fails, writing nothing, where there is none.
    pub fn serialise(&self, buf: &mut Vec<u8>) -> (r: Result<(), SerError>)
        ensures
            r is Ok <==> encodable(self@),
            r is Ok ==> final(buf)@ == old(buf)@ + encode_path(self@),
            r is Err ==> final(buf)@ == old(buf)@ && r->Err_0 is InvalidData,
    {
        let system = self.system();
        let family: u8 = match &system.address {
            Address::Ipv4(_) => 0,
            Address::Ipv6(_) => 1,
            Address::Domain(_) => {
                return Err(SerError::InvalidData("domain addresses have no encoding".to_string()));
            },
        };
        let name: Option<Vec<u8>> = match self {
            ActorPath::Unique { .. } => None,
            ActorPath::Named { segments, .. } => {
                let name = name_bytes(segments);
                if segments.len() == 0 {
                    return Err(SerError::InvalidData("a named path has no segment".to_string()));
                }
                if name.len() > 65535 {
                    return Err(SerError::InvalidData("a named path is too long".to_string()));
                }
                Some(name)
            },
        };
        let kind: u8 = if name.is_some() { 1 } else { 0 };
        buf.push(kind + 2 * family + 8 * system.protocol.id());
        match &system.address {
            Address::Ipv4(a) => put_slice(buf, vstd::array::array_as_slice(a)),
            Address::Ipv6(a) => put_slice(buf, vstd::array::array_as_slice(a)),
            Address::Domain(_) => {},
        }
        put_u16_be(buf, system.port);
        match self {
            ActorPath::Unique { id, .. } => put_slice(buf, vstd::array::array_as_slice(id)),
            ActorPath::Named { .. } => {
                let name = name.unwrap();
                put_u16_be(buf, name.len() as u16);
                put_slice(buf, name.as_slice());
            },
        }
        assert(final(buf)@ =~= old(buf)@ + encode_path(self@));
        Ok(())
    }
}

/// A path is written in its wire encoding; one without an encoding reports no size.
impl Serialisable for ActorPath {
    open spec fn spec_serid(&self) -> u64 {
        ACTOR_PATH_SER_ID
    }

    open spec fn spec_size_hint(&self) -> Option<usize> {
        ActorPath::spec_size_hint(self)
    }

    open spec fn spec_serialisable(&self) -> bool {
        encodable(self@)
    }

    open spec fn wire_bytes(&self) -> Seq<u8> {
        encode_path(self@)
    }

    fn serid(&self) -> (r: u64) {
        ACTOR_PATH_SER_ID
    }

    fn size_hint(&self) -> (r: Option<usize>) {
        ActorPath::size_hint(self)
    }

    fn serialise(&self, buf: &mut Vec<u8>) -> (r: Result<(), SerError>) {
        ActorPath::serialise(self, buf)
    }
}

} // verus!
