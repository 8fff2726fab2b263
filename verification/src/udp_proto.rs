//! Flow footer codec: a fixed-size footer at the tail of a tunnelled datagram
//! carries the flow 5-tuple. Two footer sizes exist (IPv4 and IPv6 flows), and
//! a reserved 32-bit marker identifies session-establish frames.

use vstd::prelude::*;

verus! {

/// Marker found where the footer discriminant would sit when the server sent
/// a session-establish frame rather than a tunnelled payload.
pub const UDP_CHANNEL_ESTABLISH_ID: u32 = 0xd01f_e683;

/// Footer discriminant for an IPv4-endpoint flow.
pub const REDIRECT_FLOW_4_FOOTER_ID: u32 = 0x5cb8_67cf;

/// Footer discriminant for an IPv6-endpoint flow.
pub const REDIRECT_FLOW_6_FOOTER_ID: u32 = 0x6668_676f;

/// On-wire length of the IPv4-flow footer.
pub const UDP_FLOW_LEN_V4: usize = 16;

/// On-wire length of the IPv6-flow footer.
pub const UDP_FLOW_LEN_V6: usize = 40;

/// The flow 5-tuple carried in a datagram footer: source and destination of a
/// tunnelled UDP flow, either both IPv4 or both IPv6.
#[derive(Clone, Copy, PartialEq, Eq, Structural, Debug)]
pub enum UdpFlow {
    V4 { src_ip: u32, src_port: u16, dst_ip: u32, dst_port: u16 },
    V6 { src_ip: u128, src_port: u16, dst_ip: u128, dst_port: u16 },
}

/// Big-endian bytes of a `u16`.
pub open spec fn be2(x: u16) -> Seq<u8> {
    seq![(x >> 8) as u8, x as u8]
}

/// Big-endian bytes of a `u32`.
pub open spec fn be4(x: u32) -> Seq<u8> {
    seq![(x >> 24) as u8, (x >> 16) as u8, (x >> 8) as u8, x as u8]
}

/// Big-endian bytes of a `u64`.
pub open spec fn be8(x: u64) -> Seq<u8> {
    seq![
        (x >> 56) as u8, (x >> 48) as u8, (x >> 40) as u8, (x >> 32) as u8,
        (x >> 24) as u8, (x >> 16) as u8, (x >> 8) as u8, x as u8,
    ]
}

/// Big-endian bytes of a `u128`.
pub open spec fn be16(x: u128) -> Seq<u8> {
    seq![
        (x >> 120) as u8, (x >> 112) as u8, (x >> 104) as u8, (x >> 96) as u8,
        (x >> 88) as u8, (x >> 80) as u8, (x >> 72) as u8, (x >> 64) as u8,
        (x >> 56) as u8, (x >> 48) as u8, (x >> 40) as u8, (x >> 32) as u8,
        (x >> 24) as u8, (x >> 16) as u8, (x >> 8) as u8, x as u8,
    ]
}

/// The `u16` whose big-endian bytes stand at `s[i]`, `s[i + 1]`.
pub open spec fn u16_at(s: Seq<u8>, i: int) -> u16 {
    (((s[i] as u16) << 8) | (s[i + 1] as u16)) as u16
}

/// The `u32` whose big-endian bytes stand at `s[i]` through `s[i + 3]`.
pub open spec fn u32_at(s: Seq<u8>, i: int) -> u32 {
    (((s[i] as u32) << 24) | ((s[i + 1] as u32) << 16) | ((s[i + 2] as u32) << 8)
        | (s[i + 3] as u32)) as u32
}

/// The `u128` whose big-endian bytes stand at `s[i]` through `s[i + 15]`.
pub open spec fn u128_at(s: Seq<u8>, i: int) -> u128 {
    (((s[i] as u128) << 120) | ((s[i + 1] as u128) << 112) | ((s[i + 2] as u128) << 104)
        | ((s[i + 3] as u128) << 96) | ((s[i + 4] as u128) << 88) | ((s[i + 5] as u128) << 80)
        | ((s[i + 6] as u128) << 72) | ((s[i + 7] as u128) << 64) | ((s[i + 8] as u128) << 56)
        | ((s[i + 9] as u128) << 48) | ((s[i + 10] as u128) << 40) | ((s[i + 11] as u128) << 32)
        | ((s[i + 12] as u128) << 24) | ((s[i + 13] as u128) << 16) | ((s[i + 14] as u128) << 8)
        | (s[i + 15] as u128)) as u128
}

/// On-wire footer bytes of a flow: source, destination, then the discriminant.
pub open spec fn footer_bytes(flow: UdpFlow) -> Seq<u8> {
    match flow {
        UdpFlow::V4 { src_ip, src_port, dst_ip, dst_port } =>
            be4(src_ip) + be4(dst_ip) + be2(src_port) + be2(dst_port)
                + be4(REDIRECT_FLOW_4_FOOTER_ID),
        UdpFlow::V6 { src_ip, src_port, dst_ip, dst_port } =>
            be16(src_ip) + be16(dst_ip) + be2(src_port) + be2(dst_port)
                + be4(REDIRECT_FLOW_6_FOOTER_ID),
    }
}

/// The discriminant read from the last four bytes of `s`.
pub open spec fn tail_id(s: Seq<u8>) -> u32 {
    u32_at(s, s.len() - 4)
}

/// What parsing the tail of a datagram yields: the flow on a recognised
/// footer, `Err(Some(id))` on an unknown discriminant `id` (in particular the
/// establish marker), and `Err(None)` when the datagram is too short for the
/// discriminant it announces.
pub open spec fn parse_tail_spec(s: Seq<u8>) -> Result<UdpFlow, Option<u32>> {
    if s.len() < 4 {
        Err(None)
    } else if tail_id(s) == REDIRECT_FLOW_4_FOOTER_ID {
        if s.len() < UDP_FLOW_LEN_V4 {
            Err(None)
        } else {
            let b = s.len() - UDP_FLOW_LEN_V4;
            Ok(UdpFlow::V4 {
                src_ip: u32_at(s, b),
                dst_ip: u32_at(s, b + 4),
                src_port: u16_at(s, b + 8),
                dst_port: u16_at(s, b + 10),
            })
        }
    } else if tail_id(s) == REDIRECT_FLOW_6_FOOTER_ID {
        if s.len() < UDP_FLOW_LEN_V6 {
            Err(None)
        } else {
            let b = s.len() - UDP_FLOW_LEN_V6;
            Ok(UdpFlow::V6 {
                src_ip: u128_at(s, b),
                dst_ip: u128_at(s, b + 16),
                src_port: u16_at(s, b + 32),
                dst_port: u16_at(s, b + 34),
            })
        }
    } else {
        Err(Some(tail_id(s)))
    }
}

impl UdpFlow {
    /// On-wire length of this flow's footer.
    pub open spec fn spec_len(&self) -> usize {
        match self {
            UdpFlow::V4 { .. } => UDP_FLOW_LEN_V4,
            UdpFlow::V6 { .. } => UDP_FLOW_LEN_V6,
        }
    }

    /// On-wire length of this flow's footer.
    pub fn len(&self) -> (r: usize)
        ensures
            r == self.spec_len(),
            r == footer_bytes(*self).len(),
    {
        match self {
            UdpFlow::V4 { .. } => UDP_FLOW_LEN_V4,
            UdpFlow::V6 { .. } => UDP_FLOW_LEN_V6,
        }
    }

    /// Appends this flow's footer to `data`.
    pub fn write_to_vec(&self, data: &mut Vec<u8>)
        ensures
            final(data)@ == old(data)@ + footer_bytes(*self),
    {
        match *self {
            UdpFlow::V4 { src_ip, src_port, dst_ip, dst_port } => {
                push_u32_be(data, src_ip);
                push_u32_be(data, dst_ip);
                push_u16_be(data, src_port);
                push_u16_be(data, dst_port);
                push_u32_be(data, REDIRECT_FLOW_4_FOOTER_ID);
                proof {
                    assert(data@ =~= old(data)@ + footer_bytes(*self));
                }
            }
            UdpFlow::V6 { src_ip, src_port, dst_ip, dst_port } => {
                push_u128_be(data, src_ip);
                push_u128_be(data, dst_ip);
                push_u16_be(data, src_port);
                push_u16_be(data, dst_port);
                push_u32_be(data, REDIRECT_FLOW_6_FOOTER_ID);
                proof {
                    assert(data@ =~= old(data)@ + footer_bytes(*self));
                }
            }
        }
    }

    /// Parses the flow footer from the tail of the first `len` bytes of `data`.
    pub fn from_tail(data: &Vec<u8>, len: usize) -> (r: Result<UdpFlow, Option<u32>>)
        requires
            len <= data@.len(),
        ensures
            r == parse_tail_spec(data@.subrange(0, len as int)),
    {
        let ghost s = data@.subrange(0, len as int);
        if len < 4 {
            return Err(None);
        }
        let id = read_u32_be(data, len - 4);
        proof {
            lemma_u32_at_subrange(data@, len as int, len - 4);
            assert(id == tail_id(s));
        }
        if id == REDIRECT_FLOW_4_FOOTER_ID {
            if len < UDP_FLOW_LEN_V4 {
                return Err(None);
            }
            let b = len - UDP_FLOW_LEN_V4;
            let src_ip = read_u32_be(data, b);
            let dst_ip = read_u32_be(data, b + 4);
            let src_port = read_u16_be(data, b + 8);
            let dst_port = read_u16_be(data, b + 10);
            proof {
                lemma_u32_at_subrange(data@, len as int, b as int);
                lemma_u32_at_subrange(data@, len as int, b + 4);
                lemma_u16_at_subrange(data@, len as int, b + 8);
                lemma_u16_at_subrange(data@, len as int, b + 10);
            }
            Ok(UdpFlow::V4 { src_ip, src_port, dst_ip, dst_port })
        } else if id == REDIRECT_FLOW_6_FOOTER_ID {
            if len < UDP_FLOW_LEN_V6 {
                return Err(None);
            }
            let b = len - UDP_FLOW_LEN_V6;
            let src_ip = read_u128_be(data, b);
            let dst_ip = read_u128_be(data, b + 16);
            let src_port = read_u16_be(data, b + 32);
            let dst_port = read_u16_be(data, b + 34);
            proof {
                lemma_u128_at_subrange(data@, len as int, b as int);
                lemma_u128_at_subrange(data@, len as int, b + 16);
                lemma_u16_at_subrange(data@, len as int, b + 32);
                lemma_u16_at_subrange(data@, len as int, b + 34);
            }
            Ok(UdpFlow::V6 { src_ip, src_port, dst_ip, dst_port })
        } else {
            Err(Some(id))
        }
    }
}

/// Appends the big-endian bytes of `x` to `data`.
fn push_u16_be(data: &mut Vec<u8>, x: u16)
    ensures
        final(data)@ == old(data)@ + be2(x),
{
    data.push((x >> 8) as u8);
    data.push(x as u8);
    proof {
        assert(data@ =~= old(data)@ + be2(x));
    }
}

/// Appends the big-endian bytes of `x` to `data`.
fn push_u32_be(data: &mut Vec<u8>, x: u32)
    ensures
        final(data)@ == old(data)@ + be4(x),
{
    data.push((x >> 24) as u8);
    data.push((x >> 16) as u8);
    data.push((x >> 8) as u8);
    data.push(x as u8);
    proof {
        assert(data@ =~= old(data)@ + be4(x));
    }
}

/// Appends the big-endian bytes of `x` to `data`.
fn push_u128_be(data: &mut Vec<u8>, x: u128)
    ensures
        final(data)@ == old(data)@ + be16(x),
{
    data.push((x >> 120) as u8);
    data.push((x >> 112) as u8);
    data.push((x >> 104) as u8);
    data.push((x >> 96) as u8);
    data.push((x >> 88) as u8);
    data.push((x >> 80) as u8);
    data.push((x >> 72) as u8);
    data.push((x >> 64) as u8);
    data.push((x >> 56) as u8);
    data.push((x >> 48) as u8);
    data.push((x >> 40) as u8);
    data.push((x >> 32) as u8);
    data.push((x >> 24) as u8);
    data.push((x >> 16) as u8);
    data.push((x >> 8) as u8);
    data.push(x as u8);
    proof {
        assert(data@ =~= old(data)@ + be16(x));
    }
}

/// Reads the big-endian `u16` at index `i`.
fn read_u16_be(data: &Vec<u8>, i: usize) -> (r: u16)
    requires
        i + 2 <= data@.len(),
    ensures
        r == u16_at(data@, i as int),
{
    let n: usize = data.len();
    assert(i + 2 <= n);
    ((data[i] as u16) << 8) | (data[i + 1] as u16)
}

/// Reads the big-endian `u32` at index `i`.
fn read_u32_be(data: &Vec<u8>, i: usize) -> (r: u32)
    requires
        i + 4 <= data@.len(),
    ensures
        r == u32_at(data@, i as int),
{
    let n: usize = data.len();
    assert(i + 4 <= n);
    ((data[i] as u32) << 24) | ((data[i + 1] as u32) << 16) | ((data[i + 2] as u32) << 8)
        | (data[i + 3] as u32)
}

/// Reads the big-endian `u128` at index `i`.
fn read_u128_be(data: &Vec<u8>, i: usize) -> (r: u128)
    requires
        i + 16 <= data@.len(),
    ensures
        r == u128_at(data@, i as int),
{
    let n: usize = data.len();
    assert(i + 16 <= n);
    ((data[i] as u128) << 120) | ((data[i + 1] as u128) << 112) | ((data[i + 2] as u128) << 104)
        | ((data[i + 3] as u128) << 96) | ((data[i + 4] as u128) << 88)
        | ((data[i + 5] as u128) << 80) | ((data[i + 6] as u128) << 72)
        | ((data[i + 7] as u128) << 64) | ((data[i + 8] as u128) << 56)
        | ((data[i + 9] as u128) << 48) | ((data[i + 10] as u128) << 40)
        | ((data[i + 11] as u128) << 32) | ((data[i + 12] as u128) << 24)
        | ((data[i + 13] as u128) << 16) | ((data[i + 14] as u128) << 8)
        | (data[i + 15] as u128)
}

/// A `u16` read back from within a subrange equals the one read in place.
proof fn lemma_u16_at_subrange(s: Seq<u8>, len: int, i: int)
    requires
        0 <= i,
        i + 2 <= len,
        len <= s.len(),
    ensures
        u16_at(s, i) == u16_at(s.subrange(0, len), i),
{
}

/// A `u32` read back from within a subrange equals the one read in place.
proof fn lemma_u32_at_subrange(s: Seq<u8>, len: int, i: int)
    requires
        0 <= i,
        i + 4 <= len,
        len <= s.len(),
    ensures
        u32_at(s, i) == u32_at(s.subrange(0, len), i),
{
}

/// A `u128` read back from within a subrange equals the one read in place.
proof fn lemma_u128_at_subrange(s: Seq<u8>, len: int, i: int)
    requires
        0 <= i,
        i + 16 <= len,
        len <= s.len(),
    ensures
        u128_at(s, i) == u128_at(s.subrange(0, len), i),
{
}

/// Recomposing a `u16` from its big-endian bytes gives it back.
proof fn lemma_u16_round(x: u16)
    ensures
        ((((x >> 8) as u8 as u16) << 8) | (x as u8 as u16)) == x,
{
    assert(((((x >> 8) as u8 as u16) << 8) | (x as u8 as u16)) == x) by (bit_vector);
}

/// Recomposing a `u32` from its big-endian bytes gives it back.
proof fn lemma_u32_round(x: u32)
    ensures
        ((((x >> 24) as u8 as u32) << 24) | (((x >> 16) as u8 as u32) << 16)
            | (((x >> 8) as u8 as u32) << 8) | (x as u8 as u32)) == x,
{
    assert(((((x >> 24) as u8 as u32) << 24) | (((x >> 16) as u8 as u32) << 16)
        | (((x >> 8) as u8 as u32) << 8) | (x as u8 as u32)) == x) by (bit_vector);
}

/// Recomposing a `u128` from its big-endian bytes gives it back.
proof fn lemma_u128_round(x: u128)
    ensures
        ((((x >> 120) as u8 as u128) << 120) | (((x >> 112) as u8 as u128) << 112)
            | (((x >> 104) as u8 as u128) << 104) | (((x >> 96) as u8 as u128) << 96)
            | (((x >> 88) as u8 as u128) << 88) | (((x >> 80) as u8 as u128) << 80)
            | (((x >> 72) as u8 as u128) << 72) | (((x >> 64) as u8 as u128) << 64)
            | (((x >> 56) as u8 as u128) << 56) | (((x >> 48) as u8 as u128) << 48)
            | (((x >> 40) as u8 as u128) << 40) | (((x >> 32) as u8 as u128) << 32)
            | (((x >> 24) as u8 as u128) << 24) | (((x >> 16) as u8 as u128) << 16)
            | (((x >> 8) as u8 as u128) << 8) | (x as u8 as u128)) == x,
{
    assert(((((x >> 120) as u8 as u128) << 120) | (((x >> 112) as u8 as u128) << 112)
        | (((x >> 104) as u8 as u128) << 104) | (((x >> 96) as u8 as u128) << 96)
        | (((x >> 88) as u8 as u128) << 88) | (((x >> 80) as u8 as u128) << 80)
        | (((x >> 72) as u8 as u128) << 72) | (((x >> 64) as u8 as u128) << 64)
        | (((x >> 56) as u8 as u128) << 56) | (((x >> 48) as u8 as u128) << 48)
        | (((x >> 40) as u8 as u128) << 40) | (((x >> 32) as u8 as u128) << 32)
        | (((x >> 24) as u8 as u128) << 24) | (((x >> 16) as u8 as u128) << 16)
        | (((x >> 8) as u8 as u128) << 8) | (x as u8 as u128)) == x) by (bit_vector);
}

/// Reading the bytes of `be2(x)` placed at `i` inside `s` yields `x`.
proof fn lemma_u16_at_be2(s: Seq<u8>, i: int, x: u16)
    requires
        0 <= i,
        i + 2 <= s.len(),
        s[i] == be2(x)[0],
        s[i + 1] == be2(x)[1],
    ensures
        u16_at(s, i) == x,
{
    lemma_u16_round(x);
}

/// Reading the bytes of `be4(x)` placed at `i` inside `s` yields `x`.
proof fn lemma_u32_at_be4(s: Seq<u8>, i: int, x: u32)
    requires
        0 <= i,
        i + 4 <= s.len(),
        forall|k: int| 0 <= k < 4 ==> s[i + k] == be4(x)[k],
    ensures
        u32_at(s, i) == x,
{
    assert(s[i] == be4(x)[0]);
    assert(s[i + 1] == be4(x)[1]);
    assert(s[i + 2] == be4(x)[2]);
    assert(s[i + 3] == be4(x)[3]);
    lemma_u32_round(x);
}

/// Reading the bytes of `be16(x)` placed at `i` inside `s` yields `x`.
proof fn lemma_u128_at_be16(s: Seq<u8>, i: int, x: u128)
    requires
        0 <= i,
        i + 16 <= s.len(),
        forall|k: int| 0 <= k < 16 ==> s[i + k] == be16(x)[k],
    ensures
        u128_at(s, i) == x,
{
    assert(s[i] == be16(x)[0]);
    assert(s[i + 1] == be16(x)[1]);
    assert(s[i + 2] == be16(x)[2]);
    assert(s[i + 3] == be16(x)[3]);
    assert(s[i + 4] == be16(x)[4]);
    assert(s[i + 5] == be16(x)[5]);
    assert(s[i + 6] == be16(x)[6]);
    assert(s[i + 7] == be16(x)[7]);
    assert(s[i + 8] == be16(x)[8]);
    assert(s[i + 9] == be16(x)[9]);
    assert(s[i + 10] == be16(x)[10]);
    assert(s[i + 11] == be16(x)[11]);
    assert(s[i + 12] == be16(x)[12]);
    assert(s[i + 13] == be16(x)[13]);
    assert(s[i + 14] == be16(x)[14]);
    assert(s[i + 15] == be16(x)[15]);
    lemma_u128_round(x);
}

/// Round trip: appending a flow footer to any payload and parsing the tail of
/// the result recovers the flow exactly, and leaves the payload bytes
/// unchanged in front.
pub proof fn lemma_flow_round_trip(payload: Seq<u8>, flow: UdpFlow)
    ensures
        parse_tail_spec(payload + footer_bytes(flow)) == Ok::<UdpFlow, Option<u32>>(flow),
        (payload + footer_bytes(flow)).subrange(0, payload.len() as int) == payload,
{
    let s = payload + footer_bytes(flow);
    let f = footer_bytes(flow);
    let n = payload.len() as int;
    assert forall|k: int| 0 <= k < f.len() implies s[n + k] == f[k] by {}
    match flow {
        UdpFlow::V4 { src_ip, src_port, dst_ip, dst_port } => {
            assert(f.len() == 16);
            let b = s.len() - 16;
            assert(b == n);
            lemma_u32_at_be4(s, b + 12, REDIRECT_FLOW_4_FOOTER_ID);
            assert(tail_id(s) == REDIRECT_FLOW_4_FOOTER_ID);
            lemma_u32_at_be4(s, b, src_ip);
            lemma_u32_at_be4(s, b + 4, dst_ip);
            lemma_u16_at_be2(s, b + 8, src_port);
            lemma_u16_at_be2(s, b + 10, dst_port);
        }
        UdpFlow::V6 { src_ip, src_port, dst_ip, dst_port } => {
            assert(f.len() == 40);
            let b = s.len() - 40;
            assert(b == n);
            lemma_u32_at_be4(s, b + 36, REDIRECT_FLOW_6_FOOTER_ID);
            assert(tail_id(s) == REDIRECT_FLOW_6_FOOTER_ID);
            assert(tail_id(s) != REDIRECT_FLOW_4_FOOTER_ID);
            lemma_u128_at_be16(s, b, src_ip);
            lemma_u128_at_be16(s, b + 16, dst_ip);
            lemma_u16_at_be2(s, b + 32, src_port);
            lemma_u16_at_be2(s, b + 34, dst_port);
        }
    }
    assert((payload + footer_bytes(flow)).subrange(0, payload.len() as int) =~= payload);
}

} // verus!
