//! The packet codec: byte-exact construction of probe frames and
//! best-effort decoding of received frames.
//!
//! A probe is an Ethernet II frame carrying an IPv4 or IPv6 header and a
//! TCP header with no payload.  Every header is specified down to the
//! byte by a spec function, and each builder proves that the bytes it
//! produces are exactly those of its spec.

use vstd::prelude::*;

use crate::net::IpAddr;
use crate::net::Responder;
use crate::net::SpecIpAddr;
use crate::net::SpecSrcConfig;
use crate::net::SpecTarget;
use crate::net::SrcConfig;
use crate::net::Target;

verus! {

/// Ethernet II ethertype for IPv4.
pub const ETHERTYPE_IPV4: u16 = 0x0800;

/// Ethernet II ethertype for IPv6.
pub const ETHERTYPE_IPV6: u16 = 0x86DD;

/// IP protocol / next-header number of TCP.
pub const IP_PROTO_TCP: u8 = 6;

/// Time-to-live (hop limit) carried by every probe.
pub const PROBE_TTL: u8 = 20;

/// Window size advertised by every probe.
pub const PROBE_WINDOW: u16 = 4;

// ---------------------------------------------------------------------
// Internet checksum
// ---------------------------------------------------------------------

/// Sum of the big-endian 16-bit words of `b` starting at index `i`; a
/// trailing odd byte counts as the high byte of a final word.
pub open spec fn spec_sum_words(b: Seq<u8>, i: int) -> int
    decreases b.len() - i,
{
    if i < 0 || i >= b.len() {
        0
    } else if i + 1 == b.len() {
        (b[i] as int) * 256
    } else {
        (b[i] as int) * 256 + (b[i + 1] as int) + spec_sum_words(b, i + 2)
    }
}

/// One end-around-carry folding step of the ones'-complement sum.
pub open spec fn spec_fold_carry(s: int) -> int {
    s / 0x10000 + s % 0x10000
}

/// The internet checksum of `b`: the ones' complement of the
/// end-around-carry sum of its 16-bit words.  Two folding steps suffice
/// for any input shorter than 65536 bytes.
pub open spec fn spec_checksum(b: Seq<u8>) -> u16 {
    (0xffff - spec_fold_carry(spec_fold_carry(spec_sum_words(b, 0)))) as u16
}

/// Computes the internet checksum of `data`.
fn checksum(data: &Vec<u8>) -> (r: u16)
    requires
        data@.len() <= 0x10000,
    ensures
        r == spec_checksum(data@),
{
    let n = data.len();
    let mut s: u64 = 0;
    let mut i: usize = 0;
    while i + 1 < n
        invariant
            n == data@.len() <= 0x10000,
            i <= n,
            s <= 0x8000 * i,
            s + spec_sum_words(data@, i as int) == spec_sum_words(data@, 0),
        decreases n - i,
    {
        s = s + (data[i] as u64) * 256 + (data[i + 1] as u64);
        i = i + 2;
    }
    if i < n {
        assert(spec_sum_words(data@, i as int) == (data@[i as int] as int) * 256);
        s = s + (data[i] as u64) * 256;
        i = i + 1;
    }
    assert(s == spec_sum_words(data@, 0));
    let f1: u64 = s / 0x10000 + s % 0x10000;
    let f2: u64 = f1 / 0x10000 + f1 % 0x10000;
    assert(f2 <= 0xffff);
    (0xffff - f2) as u16
}

// ---------------------------------------------------------------------
// Header layouts
// ---------------------------------------------------------------------

/// The 14 bytes of an Ethernet II header: destination, source, ethertype.
pub open spec fn spec_eth_header(dst_mac: Seq<u8>, src_mac: Seq<u8>, ethertype: u16) -> Seq<u8> {
    seq![
        dst_mac[0], dst_mac[1], dst_mac[2], dst_mac[3], dst_mac[4], dst_mac[5],
        src_mac[0], src_mac[1], src_mac[2], src_mac[3], src_mac[4], src_mac[5],
        (ethertype / 256) as u8, (ethertype % 256) as u8,
    ]
}

/// The 20 bytes of an options-free IPv4 header with the given checksum
/// field: version 4, header length 5 words, no fragmentation
/// (don't-fragment set), identification 0.
pub open spec fn spec_ipv4_header_fields(
    src: Seq<u8>,
    dst: Seq<u8>,
    payload_len: u16,
    ttl: u8,
    proto: u8,
    cksum: u16,
) -> Seq<u8> {
    seq![
        0x45u8, 0u8,
        (((20 + payload_len) as int) / 256) as u8, (((20 + payload_len) as int) % 256) as u8,
        0u8, 0u8, 0x40u8, 0u8,
        ttl, proto,
        (cksum / 256) as u8, (cksum % 256) as u8,
        src[0], src[1], src[2], src[3],
        dst[0], dst[1], dst[2], dst[3],
    ]
}

/// An options-free IPv4 header with its checksum field filled in.
pub open spec fn spec_ipv4_header(
    src: Seq<u8>,
    dst: Seq<u8>,
    payload_len: u16,
    ttl: u8,
    proto: u8,
) -> Seq<u8> {
    spec_ipv4_header_fields(
        src,
        dst,
        payload_len,
        ttl,
        proto,
        spec_checksum(spec_ipv4_header_fields(src, dst, payload_len, ttl, proto, 0)),
    )
}

/// The 40 bytes of an IPv6 header: version 6, traffic class 0, flow
/// label 0.
pub open spec fn spec_ipv6_header(
    src: Seq<u8>,
    dst: Seq<u8>,
    payload_len: u16,
    next_header: u8,
    hop_limit: u8,
) -> Seq<u8> {
    seq![
        0x60u8, 0u8, 0u8, 0u8,
        (payload_len / 256) as u8, (payload_len % 256) as u8,
        next_header, hop_limit,
        src[0], src[1], src[2], src[3], src[4], src[5], src[6], src[7],
        src[8], src[9], src[10], src[11], src[12], src[13], src[14], src[15],
        dst[0], dst[1], dst[2], dst[3], dst[4], dst[5], dst[6], dst[7],
        dst[8], dst[9], dst[10], dst[11], dst[12], dst[13], dst[14], dst[15],
    ]
}

/// The TCP flags byte for the SYN and ACK bits.
pub open spec fn spec_tcp_flags(syn: bool, ack: bool) -> u8 {
    if syn && ack {
        0x12u8
    } else if syn {
        0x02u8
    } else if ack {
        0x10u8
    } else {
        0u8
    }
}

/// The 20 bytes of an options-free TCP header with the given checksum
/// field: data offset 5 words, urgent pointer 0.
pub open spec fn spec_tcp_header(
    src_port: u16,
    dst_port: u16,
    seq_no: u32,
    ack_no: u32,
    syn: bool,
    ack: bool,
    window: u16,
    cksum: u16,
) -> Seq<u8> {
    seq![
        (src_port / 256) as u8, (src_port % 256) as u8,
        (dst_port / 256) as u8, (dst_port % 256) as u8,
        (seq_no / 0x1000000) as u8, ((seq_no / 0x10000) % 256) as u8,
        ((seq_no / 256) % 256) as u8, (seq_no % 256) as u8,
        (ack_no / 0x1000000) as u8, ((ack_no / 0x10000) % 256) as u8,
        ((ack_no / 256) % 256) as u8, (ack_no % 256) as u8,
        0x50u8, spec_tcp_flags(syn, ack),
        (window / 256) as u8, (window % 256) as u8,
        (cksum / 256) as u8, (cksum % 256) as u8,
        0u8, 0u8,
    ]
}

/// The IPv4 pseudo-header that prefixes a TCP segment for checksumming.
pub open spec fn spec_v4_pseudo_header(src: Seq<u8>, dst: Seq<u8>, tcp_len: u16) -> Seq<u8> {
    seq![
        src[0], src[1], src[2], src[3],
        dst[0], dst[1], dst[2], dst[3],
        0u8, IP_PROTO_TCP,
        (tcp_len / 256) as u8, (tcp_len % 256) as u8,
    ]
}

/// The IPv6 pseudo-header that prefixes a TCP segment for checksumming.
pub open spec fn spec_v6_pseudo_header(src: Seq<u8>, dst: Seq<u8>, tcp_len: u16) -> Seq<u8> {
    seq![
        src[0], src[1], src[2], src[3], src[4], src[5], src[6], src[7],
        src[8], src[9], src[10], src[11], src[12], src[13], src[14], src[15],
        dst[0], dst[1], dst[2], dst[3], dst[4], dst[5], dst[6], dst[7],
        dst[8], dst[9], dst[10], dst[11], dst[12], dst[13], dst[14], dst[15],
        0u8, 0u8, (tcp_len / 256) as u8, (tcp_len % 256) as u8,
        0u8, 0u8, 0u8, IP_PROTO_TCP,
    ]
}

/// The checksum of a payload-free TCP header under the IPv4 pseudo-header.
pub open spec fn spec_tcp_cksum_v4(
    src_ip: Seq<u8>,
    dst_ip: Seq<u8>,
    src_port: u16,
    dst_port: u16,
    seq_no: u32,
    ack_no: u32,
    syn: bool,
    ack: bool,
    window: u16,
) -> u16 {
    spec_checksum(
        spec_v4_pseudo_header(src_ip, dst_ip, 20)
            + spec_tcp_header(src_port, dst_port, seq_no, ack_no, syn, ack, window, 0),
    )
}

/// The checksum of a payload-free TCP header under the IPv6 pseudo-header.
pub open spec fn spec_tcp_cksum_v6(
    src_ip: Seq<u8>,
    dst_ip: Seq<u8>,
    src_port: u16,
    dst_port: u16,
    seq_no: u32,
    ack_no: u32,
    syn: bool,
    ack: bool,
    window: u16,
) -> u16 {
    spec_checksum(
        spec_v6_pseudo_header(src_ip, dst_ip, 20)
            + spec_tcp_header(src_port, dst_port, seq_no, ack_no, syn, ack, window, 0),
    )
}

/// A whole payload-free IPv4 TCP frame: Ethernet, IPv4, TCP, 54 bytes.
pub open spec fn spec_ipv4_tcp_frame(
    src_mac: Seq<u8>,
    dst_mac: Seq<u8>,
    src_ip: Seq<u8>,
    dst_ip: Seq<u8>,
    src_port: u16,
    dst_port: u16,
    seq_no: u32,
    ack_no: u32,
    syn: bool,
    ack: bool,
    window: u16,
    ttl: u8,
) -> Seq<u8> {
    spec_eth_header(dst_mac, src_mac, ETHERTYPE_IPV4)
        + spec_ipv4_header(src_ip, dst_ip, 20, ttl, IP_PROTO_TCP)
        + spec_tcp_header(
            src_port,
            dst_port,
            seq_no,
            ack_no,
            syn,
            ack,
            window,
            spec_tcp_cksum_v4(src_ip, dst_ip, src_port, dst_port, seq_no, ack_no, syn, ack, window),
        )
}

/// A whole payload-free IPv6 TCP frame: Ethernet, IPv6, TCP, 74 bytes.
pub open spec fn spec_ipv6_tcp_frame(
    src_mac: Seq<u8>,
    dst_mac: Seq<u8>,
    src_ip: Seq<u8>,
    dst_ip: Seq<u8>,
    src_port: u16,
    dst_port: u16,
    seq_no: u32,
    ack_no: u32,
    syn: bool,
    ack: bool,
    window: u16,
    hop_limit: u8,
) -> Seq<u8> {
    spec_eth_header(dst_mac, src_mac, ETHERTYPE_IPV6)
        + spec_ipv6_header(src_ip, dst_ip, 20, IP_PROTO_TCP, hop_limit)
        + spec_tcp_header(
            src_port,
            dst_port,
            seq_no,
            ack_no,
            syn,
            ack,
            window,
            spec_tcp_cksum_v6(src_ip, dst_ip, src_port, dst_port, seq_no, ack_no, syn, ack, window),
        )
}

// ---------------------------------------------------------------------
// Header builders
// ---------------------------------------------------------------------

fn build_eth_header(dst_mac: &[u8; 6], src_mac: &[u8; 6], ethertype: u16) -> (r: Vec<u8>)
    ensures
        r@ == spec_eth_header(dst_mac@, src_mac@, ethertype),
{
    let mut h: Vec<u8> = Vec::new();
    h.push(dst_mac[0]);
    h.push(dst_mac[1]);
    h.push(dst_mac[2]);
    h.push(dst_mac[3]);
    h.push(dst_mac[4]);
    h.push(dst_mac[5]);
    h.push(src_mac[0]);
    h.push(src_mac[1]);
    h.push(src_mac[2]);
    h.push(src_mac[3]);
    h.push(src_mac[4]);
    h.push(src_mac[5]);
    h.push((ethertype / 256) as u8);
    h.push((ethertype % 256) as u8);
    proof {
        assert(h@ =~= spec_eth_header(dst_mac@, src_mac@, ethertype));
    }
    h
}

fn build_ipv4_header(src: &[u8; 4], dst: &[u8; 4], payload_len: u16, ttl: u8, proto: u8) -> (r:
    Vec<u8>)
    requires
        payload_len <= 0xffeb,
    ensures
        r@ == spec_ipv4_header(src@, dst@, payload_len, ttl, proto),
{
    let total: u16 = 20 + payload_len;
    let mut h: Vec<u8> = Vec::new();
    h.push(0x45);
    h.push(0);
    h.push((total / 256) as u8);
    h.push((total % 256) as u8);
    h.push(0);
    h.push(0);
    h.push(0x40);
    h.push(0);
    h.push(ttl);
    h.push(proto);
    h.push(0);
    h.push(0);
    h.push(src[0]);
    h.push(src[1]);
    h.push(src[2]);
    h.push(src[3]);
    h.push(dst[0]);
    h.push(dst[1]);
    h.push(dst[2]);
    h.push(dst[3]);
    proof {
        assert(h@ =~= spec_ipv4_header_fields(src@, dst@, payload_len, ttl, proto, 0));
    }
    let ck = checksum(&h);
    h.set(10, (ck / 256) as u8);
    h.set(11, (ck % 256) as u8);
    proof {
        assert(h@ =~= spec_ipv4_header_fields(src@, dst@, payload_len, ttl, proto, ck));
    }
    h
}

fn build_ipv6_header(
    src: &[u8; 16],
    dst: &[u8; 16],
    payload_len: u16,
    next_header: u8,
    hop_limit: u8,
) -> (r: Vec<u8>)
    ensures
        r@ == spec_ipv6_header(src@, dst@, payload_len, next_header, hop_limit),
{
    let mut h: Vec<u8> = Vec::new();
    h.push(0x60);
    h.push(0);
    h.push(0);
    h.push(0);
    h.push((payload_len / 256) as u8);
    h.push((payload_len % 256) as u8);
    h.push(next_header);
    h.push(hop_limit);
    let mut i: usize = 0;
    while i < 16
        invariant
            8 <= h@.len() == 8 + i,
            i <= 16,
            forall|j: int| 0 <= j < 8 ==> h@[j] == spec_ipv6_header(src@, dst@, payload_len, next_header, hop_limit)[j],
            forall|j: int| 0 <= j < i ==> h@[8 + j] == src@[j],
        decreases 16 - i,
    {
        h.push(src[i]);
        i = i + 1;
    }
    let mut i: usize = 0;
    while i < 16
        invariant
            h@.len() == 24 + i,
            i <= 16,
            forall|j: int| 0 <= j < 8 ==> h@[j] == spec_ipv6_header(src@, dst@, payload_len, next_header, hop_limit)[j],
            forall|j: int| 0 <= j < 16 ==> h@[8 + j] == src@[j],
            forall|j: int| 0 <= j < i ==> h@[24 + j] == dst@[j],
        decreases 16 - i,
    {
        h.push(dst[i]);
        i = i + 1;
    }
    proof {
        assert(h@ =~= spec_ipv6_header(src@, dst@, payload_len, next_header, hop_limit));
    }
    h
}

fn build_tcp_header(
    src_port: u16,
    dst_port: u16,
    seq_no: u32,
    ack_no: u32,
    syn: bool,
    ack: bool,
    window: u16,
    cksum: u16,
) -> (r: Vec<u8>)
    ensures
        r@ == spec_tcp_header(src_port, dst_port, seq_no, ack_no, syn, ack, window, cksum),
{
    let flags: u8 = if syn && ack {
        0x12
    } else if syn {
        0x02
    } else if ack {
        0x10
    } else {
        0
    };
    let mut h: Vec<u8> = Vec::new();
    h.push((src_port / 256) as u8);
    h.push((src_port % 256) as u8);
    h.push((dst_port / 256) as u8);
    h.push((dst_port % 256) as u8);
    h.push((seq_no / 0x1000000) as u8);
    h.push(((seq_no / 0x10000) % 256) as u8);
    h.push(((seq_no / 256) % 256) as u8);
    h.push((seq_no % 256) as u8);
    h.push((ack_no / 0x1000000) as u8);
    h.push(((ack_no / 0x10000) % 256) as u8);
    h.push(((ack_no / 256) % 256) as u8);
    h.push((ack_no % 256) as u8);
    h.push(0x50);
    h.push(flags);
    h.push((window / 256) as u8);
    h.push((window % 256) as u8);
    h.push((cksum / 256) as u8);
    h.push((cksum % 256) as u8);
    h.push(0);
    h.push(0);
    proof {
        assert(h@ =~= spec_tcp_header(src_port, dst_port, seq_no, ack_no, syn, ack, window, cksum));
    }
    h
}

fn build_v4_pseudo_header(src: &[u8; 4], dst: &[u8; 4], tcp_len: u16) -> (r: Vec<u8>)
    ensures
        r@ == spec_v4_pseudo_header(src@, dst@, tcp_len),
{
    let mut h: Vec<u8> = Vec::new();
    h.push(src[0]);
    h.push(src[1]);
    h.push(src[2]);
    h.push(src[3]);
    h.push(dst[0]);
    h.push(dst[1]);
    h.push(dst[2]);
    h.push(dst[3]);
    h.push(0);
    h.push(IP_PROTO_TCP);
    h.push((tcp_len / 256) as u8);
    h.push((tcp_len % 256) as u8);
    proof {
        assert(h@ =~= spec_v4_pseudo_header(src@, dst@, tcp_len));
    }
    h
}

fn build_v6_pseudo_header(src: &[u8; 16], dst: &[u8; 16], tcp_len: u16) -> (r: Vec<u8>)
    ensures
        r@ == spec_v6_pseudo_header(src@, dst@, tcp_len),
{
    let mut h: Vec<u8> = Vec::new();
    let mut i: usize = 0;
    while i < 16
        invariant
            h@.len() == i <= 16,
            forall|j: int| 0 <= j < i ==> h@[j] == src@[j],
        decreases 16 - i,
    {
        h.push(src[i]);
        i = i + 1;
    }
    let mut i: usize = 0;
    while i < 16
        invariant
            h@.len() == 16 + i,
            i <= 16,
            forall|j: int| 0 <= j < 16 ==> h@[j] == src@[j],
            forall|j: int| 0 <= j < i ==> h@[16 + j] == dst@[j],
        decreases 16 - i,
    {
        h.push(dst[i]);
        i = i + 1;
    }
    h.push(0);
    h.push(0);
    h.push((tcp_len / 256) as u8);
    h.push((tcp_len % 256) as u8);
    h.push(0);
    h.push(0);
    h.push(0);
    h.push(IP_PROTO_TCP);
    proof {
        assert(h@ =~= spec_v6_pseudo_header(src@, dst@, tcp_len));
    }
    h
}

// ---------------------------------------------------------------------
// Frame encoders
// ---------------------------------------------------------------------

/// Builds a whole payload-free IPv4 TCP frame, checksums filled in.
pub fn encode_tcp_frame_v4(
    src_mac: &[u8; 6],
    dst_mac: &[u8; 6],
    src_ip: &[u8; 4],
    dst_ip: &[u8; 4],
    src_port: u16,
    dst_port: u16,
    seq_no: u32,
    ack_no: u32,
    syn: bool,
    ack: bool,
    window: u16,
    ttl: u8,
) -> (r: Vec<u8>)
    ensures
        r@ == spec_ipv4_tcp_frame(
            src_mac@, dst_mac@, src_ip@, dst_ip@,
            src_port, dst_port, seq_no, ack_no, syn, ack, window, ttl,
        ),
        r@.len() == 54,
{
    let mut ck_buf = build_v4_pseudo_header(src_ip, dst_ip, 20);
    let mut tcp_zero = build_tcp_header(src_port, dst_port, seq_no, ack_no, syn, ack, window, 0);
    ck_buf.append(&mut tcp_zero);
    let tcp_ck = checksum(&ck_buf);
    let mut frame = build_eth_header(dst_mac, src_mac, ETHERTYPE_IPV4);
    let mut ip = build_ipv4_header(src_ip, dst_ip, 20, ttl, IP_PROTO_TCP);
    let mut tcp = build_tcp_header(src_port, dst_port, seq_no, ack_no, syn, ack, window, tcp_ck);
    frame.append(&mut ip);
    frame.append(&mut tcp);
    frame
}

/// Builds a whole payload-free IPv6 TCP frame, checksum filled in.
pub fn encode_tcp_frame_v6(
    src_mac: &[u8; 6],
    dst_mac: &[u8; 6],
    src_ip: &[u8; 16],
    dst_ip: &[u8; 16],
    src_port: u16,
    dst_port: u16,
    seq_no: u32,
    ack_no: u32,
    syn: bool,
    ack: bool,
    window: u16,
    hop_limit: u8,
) -> (r: Vec<u8>)
    ensures
        r@ == spec_ipv6_tcp_frame(
            src_mac@, dst_mac@, src_ip@, dst_ip@,
            src_port, dst_port, seq_no, ack_no, syn, ack, window, hop_limit,
        ),
        r@.len() == 74,
{
    let mut ck_buf = build_v6_pseudo_header(src_ip, dst_ip, 20);
    let mut tcp_zero = build_tcp_header(src_port, dst_port, seq_no, ack_no, syn, ack, window, 0);
    ck_buf.append(&mut tcp_zero);
    let tcp_ck = checksum(&ck_buf);
    let mut frame = build_eth_header(dst_mac, src_mac, ETHERTYPE_IPV6);
    let mut ip = build_ipv6_header(src_ip, dst_ip, 20, IP_PROTO_TCP, hop_limit);
    let mut tcp = build_tcp_header(src_port, dst_port, seq_no, ack_no, syn, ack, window, tcp_ck);
    frame.append(&mut ip);
    frame.append(&mut tcp);
    frame
}

/// The bytes of the SYN probe for one target: IPv4 when both the source
/// and the target address are version 4, otherwise IPv6 with any
/// version-4 address promoted to its mapped form.
pub open spec fn spec_encode_probe(c: SpecSrcConfig, t: SpecTarget) -> Seq<u8> {
    if c.src_ip is V6 || t.ip is V6 {
        spec_ipv6_tcp_frame(
            c.src_mac, c.dst_mac, c.src_ip.as_v6_octets(), t.ip.as_v6_octets(),
            c.src_port, t.port, 0, 0, true, false, PROBE_WINDOW, PROBE_TTL,
        )
    } else {
        spec_ipv4_tcp_frame(
            c.src_mac, c.dst_mac, c.src_ip.octets(), t.ip.octets(),
            c.src_port, t.port, 0, 0, true, false, PROBE_WINDOW, PROBE_TTL,
        )
    }
}

/// The length of the probe frame for one target.
pub open spec fn spec_probe_len(c: SpecSrcConfig, t: SpecTarget) -> int {
    if c.src_ip is V6 || t.ip is V6 {
        74
    } else {
        54
    }
}

/// Encodes the SYN probe frame for one target: SYN set, sequence number
/// 0, window 4, time-to-live 20.
pub fn encode_probe(src: &SrcConfig, target: &Target) -> (r: Vec<u8>)
    ensures
        r@ == spec_encode_probe(src@, target@),
        r@.len() == spec_probe_len(src@, target@),
{
    if src.src_ip.is_ipv6() || target.ip.is_ipv6() {
        let s6 = src.src_ip.to_v6_octets();
        let d6 = target.ip.to_v6_octets();
        encode_tcp_frame_v6(
            &src.src_mac, &src.dst_mac, &s6, &d6,
            src.src_port, target.port, 0, 0, true, false, PROBE_WINDOW, PROBE_TTL,
        )
    } else {
        let s4 = match &src.src_ip {
            IpAddr::V4(o) => *o,
            IpAddr::V6(_) => vstd::pervasive::unreached(),
        };
        let d4 = match &target.ip {
            IpAddr::V4(o) => *o,
            IpAddr::V6(_) => vstd::pervasive::unreached(),
        };
        encode_tcp_frame_v4(
            &src.src_mac, &src.dst_mac, &s4, &d4,
            src.src_port, target.port, 0, 0, true, false, PROBE_WINDOW, PROBE_TTL,
        )
    }
}

// ---------------------------------------------------------------------
// Frame decoding
// ---------------------------------------------------------------------

/// What decoding the TCP header at offset `off` yields: the responder's
/// port is the segment's source port.  The header must be whole, with a
/// data offset of at least 5 words all present in the frame.
pub open spec fn spec_decode_tcp(b: Seq<u8>, off: int, ip: SpecIpAddr) -> Option<SpecTarget> {
    if b.len() < off + 20 {
        None
    } else {
        let doff = (b[off + 12] as int) / 16;
        if doff < 5 || b.len() < off + doff * 4 {
            None
        } else {
            Some(SpecTarget { ip, port: ((b[off] as int) * 256 + (b[off + 1] as int)) as u16 })
        }
    }
}

/// What decoding an IPv4 packet at offset 14 yields: version 4, header
/// length of at least 5 words all present, protocol TCP; the responder's
/// address is the packet's source address.
pub open spec fn spec_decode_ipv4(b: Seq<u8>) -> Option<SpecTarget> {
    if b.len() < 34 {
        None
    } else {
        let version = (b[14] as int) / 16;
        let ihl = (b[14] as int) % 16;
        if version != 4 || ihl < 5 || b.len() < 14 + ihl * 4 {
            None
        } else if b[23] != IP_PROTO_TCP {
            None
        } else {
            spec_decode_tcp(b, 14 + ihl * 4, SpecIpAddr::V4(seq![b[26], b[27], b[28], b[29]]))
        }
    }
}

/// What decoding an IPv6 packet at offset 14 yields: version 6, next
/// header TCP directly (extension headers are treated as non-TCP); the
/// responder's address is the packet's source address.
pub open spec fn spec_decode_ipv6(b: Seq<u8>) -> Option<SpecTarget> {
    if b.len() < 54 {
        None
    } else if (b[14] as int) / 16 != 6 {
        None
    } else if b[20] != IP_PROTO_TCP {
        None
    } else {
        spec_decode_tcp(
            b,
            54,
            SpecIpAddr::V6(
                seq![
                    b[22], b[23], b[24], b[25], b[26], b[27], b[28], b[29],
                    b[30], b[31], b[32], b[33], b[34], b[35], b[36], b[37],
                ],
            ),
        )
    }
}

/// What decoding a received frame yields: the source address and source
/// TCP port of a well-formed TCP frame, and nothing for anything else.
pub open spec fn spec_decode(b: Seq<u8>) -> Option<SpecTarget> {
    if b.len() < 14 {
        None
    } else {
        let ethertype = (b[12] as int) * 256 + (b[13] as int);
        if ethertype == ETHERTYPE_IPV4 {
            spec_decode_ipv4(b)
        } else if ethertype == ETHERTYPE_IPV6 {
            spec_decode_ipv6(b)
        } else {
            None
        }
    }
}

/// Decodes the TCP header at `off` once the IP layer has been accepted.
fn decode_tcp(frame: &Vec<u8>, off: usize, ip: IpAddr) -> (r: Option<Responder>)
    requires
        off <= 74,
    ensures
        crate::net::spec_view_opt(r) == spec_decode_tcp(frame@, off as int, ip@),
{
    let n = frame.len();
    if n < off + 20 {
        return None;
    }
    let doff = (frame[off + 12] / 16) as usize;
    if doff < 5 || n < off + doff * 4 {
        return None;
    }
    let port: u16 = (frame[off] as u16) * 256 + (frame[off + 1] as u16);
    Some(Target { ip, port })
}

/// Decodes a received frame.  Returns the responder whose answer it is —
/// the frame's source IP address and source TCP port — or `None` for a
/// frame that is not well-formed TCP over IP over Ethernet II.
pub fn decode_response(frame: &Vec<u8>) -> (r: Option<Responder>)
    ensures
        crate::net::spec_view_opt(r) == spec_decode(frame@),
{
    let n = frame.len();
    if n < 14 {
        return None;
    }
    let ethertype: u32 = (frame[12] as u32) * 256 + (frame[13] as u32);
    if ethertype == ETHERTYPE_IPV4 as u32 {
        if n < 34 {
            return None;
        }
        let version = frame[14] / 16;
        let ihl = (frame[14] % 16) as usize;
        if version != 4 || ihl < 5 || n < 14 + ihl * 4 {
            return None;
        }
        if frame[23] != IP_PROTO_TCP {
            return None;
        }
        let ip = IpAddr::V4([frame[26], frame[27], frame[28], frame[29]]);
        proof {
            assert(ip@->V4_0 =~= seq![frame@[26], frame@[27], frame@[28], frame@[29]]);
        }
        decode_tcp(frame, 14 + ihl * 4, ip)
    } else if ethertype == ETHERTYPE_IPV6 as u32 {
        if n < 54 {
            return None;
        }
        if frame[14] / 16 != 6 {
            return None;
        }
        if frame[20] != IP_PROTO_TCP {
            return None;
        }
        let ip = IpAddr::V6(
            [
                frame[22], frame[23], frame[24], frame[25], frame[26], frame[27], frame[28],
                frame[29], frame[30], frame[31], frame[32], frame[33], frame[34], frame[35],
                frame[36], frame[37],
            ],
        );
        proof {
            assert(ip@->V6_0 =~= seq![
                frame@[22], frame@[23], frame@[24], frame@[25], frame@[26], frame@[27],
                frame@[28], frame@[29], frame@[30], frame@[31], frame@[32], frame@[33],
                frame@[34], frame@[35], frame@[36], frame@[37],
            ]);
        }
        decode_tcp(frame, 54, ip)
    } else {
        None
    }
}

// ---------------------------------------------------------------------
// Codec laws
// ---------------------------------------------------------------------

/// Decoding a synthetic IPv4 TCP frame — a SYN-ACK response among them —
/// recovers exactly the frame's source address and source port.
pub proof fn lemma_round_trip_v4(
    src_mac: Seq<u8>,
    dst_mac: Seq<u8>,
    src_ip: Seq<u8>,
    dst_ip: Seq<u8>,
    src_port: u16,
    dst_port: u16,
    seq_no: u32,
    ack_no: u32,
    syn: bool,
    ack: bool,
    window: u16,
    ttl: u8,
)
    requires
        src_mac.len() == 6,
        dst_mac.len() == 6,
        src_ip.len() == 4,
        dst_ip.len() == 4,
    ensures
        spec_decode(
            spec_ipv4_tcp_frame(
                src_mac, dst_mac, src_ip, dst_ip,
                src_port, dst_port, seq_no, ack_no, syn, ack, window, ttl,
            ),
        ) == Some(SpecTarget { ip: SpecIpAddr::V4(src_ip), port: src_port }),
{
    let b = spec_ipv4_tcp_frame(
        src_mac, dst_mac, src_ip, dst_ip,
        src_port, dst_port, seq_no, ack_no, syn, ack, window, ttl,
    );
    assert(b.len() == 54);
    assert(b[12] == 8 && b[13] == 0);
    assert(b[14] == 0x45u8);
    assert(b[23] == IP_PROTO_TCP);
    assert(b[26] == src_ip[0] && b[27] == src_ip[1] && b[28] == src_ip[2] && b[29] == src_ip[3]);
    assert(b[34] == (src_port / 256) as u8 && b[35] == (src_port % 256) as u8);
    assert(b[46] == 0x50u8);
    assert(seq![b[26], b[27], b[28], b[29]] =~= src_ip);
    assert((b[34] as int) * 256 + (b[35] as int) == src_port);
}

/// Decoding a synthetic IPv6 TCP frame recovers exactly the frame's
/// source address and source port.
pub proof fn lemma_round_trip_v6(
    src_mac: Seq<u8>,
    dst_mac: Seq<u8>,
    src_ip: Seq<u8>,
    dst_ip: Seq<u8>,
    src_port: u16,
    dst_port: u16,
    seq_no: u32,
    ack_no: u32,
    syn: bool,
    ack: bool,
    window: u16,
    hop_limit: u8,
)
    requires
        src_mac.len() == 6,
        dst_mac.len() == 6,
        src_ip.len() == 16,
        dst_ip.len() == 16,
    ensures
        spec_decode(
            spec_ipv6_tcp_frame(
                src_mac, dst_mac, src_ip, dst_ip,
                src_port, dst_port, seq_no, ack_no, syn, ack, window, hop_limit,
            ),
        ) == Some(SpecTarget { ip: SpecIpAddr::V6(src_ip), port: src_port }),
{
    let b = spec_ipv6_tcp_frame(
        src_mac, dst_mac, src_ip, dst_ip,
        src_port, dst_port, seq_no, ack_no, syn, ack, window, hop_limit,
    );
    assert(b.len() == 74);
    assert(b[12] == 0x86u8 && b[13] == 0xddu8);
    assert(b[14] == 0x60u8);
    assert(b[20] == IP_PROTO_TCP);
    assert(forall|j: int| 0 <= j < 16 ==> b[22 + j] == src_ip[j]);
    assert(b[54] == (src_port / 256) as u8 && b[55] == (src_port % 256) as u8);
    assert(b[66] == 0x50u8);
    assert(seq![
        b[22], b[23], b[24], b[25], b[26], b[27], b[28], b[29],
        b[30], b[31], b[32], b[33], b[34], b[35], b[36], b[37],
    ] =~= src_ip);
    assert((b[54] as int) * 256 + (b[55] as int) == src_port);
}

/// The IP protocol (next-header) field of a frame, where the frame is
/// long enough to carry one.
pub open spec fn spec_ip_protocol(b: Seq<u8>) -> Option<u8> {
    if b.len() < 14 {
        None
    } else {
        let ethertype = (b[12] as int) * 256 + (b[13] as int);
        if ethertype == ETHERTYPE_IPV4 && b.len() >= 34 {
            Some(b[23])
        } else if ethertype == ETHERTYPE_IPV6 && b.len() >= 54 {
            Some(b[20])
        } else {
            None
        }
    }
}

/// A frame decodes to a responder only if its transport is TCP; any
/// other transport — UDP among them — is ignored.
pub proof fn lemma_non_tcp_ignored(b: Seq<u8>)
    ensures
        spec_decode(b) is Some ==> spec_ip_protocol(b) == Some(IP_PROTO_TCP),
{
}

/// A frame shorter than the shortest well-formed TCP frame — truncated
/// or garbage bytes among them — decodes to nothing.
pub proof fn lemma_short_frame_ignored(b: Seq<u8>)
    requires
        b.len() < 54,
    ensures
        spec_decode(b) is None,
{
}

} // verus!
