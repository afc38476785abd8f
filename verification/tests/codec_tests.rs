use xdpscan::codec::decode_response;
use xdpscan::codec::encode_probe;
use xdpscan::codec::encode_tcp_frame_v4;
use xdpscan::codec::encode_tcp_frame_v6;
use xdpscan::IpAddr;
use xdpscan::SrcConfig;
use xdpscan::Target;

fn mac_a() -> [u8; 6] {
    [0xf6, 0xe0, 0xf6, 0xc9, 0x60, 0x0a]
}

fn mac_b() -> [u8; 6] {
    [0x4a, 0xf1, 0x30, 0xeb, 0x0d, 0x31]
}

fn scanner() -> SrcConfig {
    SrcConfig {
        src_mac: mac_a(),
        dst_mac: mac_b(),
        src_ip: IpAddr::V4([192, 168, 69, 1]),
        src_port: 4321,
    }
}

#[test]
fn synack_round_trip_v4() {
    // A synthetic SYN-ACK sent back by the probed host: its source is the
    // target's identity, and decoding recovers exactly that.
    let frame = encode_tcp_frame_v4(
        &mac_b(),
        &mac_a(),
        &[192, 168, 69, 2],
        &[192, 168, 69, 1],
        1234,
        4321,
        0,
        1,
        true,
        true,
        0,
        20,
    );
    let r = decode_response(&frame).expect("a well-formed SYN-ACK must decode");
    assert_eq!(r.ip, IpAddr::V4([192, 168, 69, 2]));
    assert_eq!(r.port, 1234);
}

#[test]
fn synack_round_trip_v6() {
    let src_ip = [0x20, 0x01, 0x0d, 0xb8, 0, 0, 0, 0, 0, 0, 0, 0, 0, 0, 0, 2];
    let dst_ip = [0x20, 0x01, 0x0d, 0xb8, 0, 0, 0, 0, 0, 0, 0, 0, 0, 0, 0, 1];
    let frame = encode_tcp_frame_v6(
        &mac_b(),
        &mac_a(),
        &src_ip,
        &dst_ip,
        443,
        40000,
        7,
        1,
        true,
        true,
        512,
        64,
    );
    let r = decode_response(&frame).expect("a well-formed IPv6 SYN-ACK must decode");
    assert_eq!(r.ip, IpAddr::V6(src_ip));
    assert_eq!(r.port, 443);
}

#[test]
fn probe_decodes_to_scanner_identity() {
    // Decoding always recovers the frame's *source*; for a probe that is
    // the scanner itself.
    let target = Target { ip: IpAddr::V4([192, 168, 69, 2]), port: 1234 };
    let probe = encode_probe(&scanner(), &target);
    assert_eq!(probe.len(), 54);
    let r = decode_response(&probe).expect("a probe is itself well-formed TCP");
    assert_eq!(r.ip, IpAddr::V4([192, 168, 69, 1]));
    assert_eq!(r.port, 4321);
}

#[test]
fn mixed_families_promote_to_v6() {
    let target = Target {
        ip: IpAddr::V6([0x20, 0x01, 0x0d, 0xb8, 0, 0, 0, 0, 0, 0, 0, 0, 0, 0, 0, 9]),
        port: 80,
    };
    let probe = encode_probe(&scanner(), &target);
    assert_eq!(probe.len(), 74);
    // The IPv4 source is carried in its mapped form.
    assert_eq!(&probe[22..38], &[0, 0, 0, 0, 0, 0, 0, 0, 0, 0, 0xff, 0xff, 192, 168, 69, 1]);
}

#[test]
fn probe_bytes_exact() {
    let target = Target { ip: IpAddr::V4([192, 168, 69, 2]), port: 1234 };
    let probe = encode_probe(&scanner(), &target);
    assert_eq!(probe.len(), 54);
    // Ethernet: destination, source, ethertype.
    assert_eq!(&probe[0..6], &mac_b());
    assert_eq!(&probe[6..12], &mac_a());
    assert_eq!(&probe[12..14], &[0x08, 0x00]);
    // IPv4: version/IHL, total length 40, DF, TTL 20, protocol TCP.
    assert_eq!(probe[14], 0x45);
    assert_eq!(&probe[16..18], &[0x00, 0x28]);
    assert_eq!(&probe[20..22], &[0x40, 0x00]);
    assert_eq!(probe[22], 20);
    assert_eq!(probe[23], 6);
    // IPv4 header checksum, computed by hand for these field values.
    assert_eq!(&probe[24..26], &[0x5b, 0x7c]);
    assert_eq!(&probe[26..30], &[192, 168, 69, 1]);
    assert_eq!(&probe[30..34], &[192, 168, 69, 2]);
    // TCP: ports, sequence 0, data offset 5, SYN only, window 4.
    assert_eq!(&probe[34..36], &[0x10, 0xe1]);
    assert_eq!(&probe[36..38], &[0x04, 0xd2]);
    assert_eq!(&probe[38..42], &[0, 0, 0, 0]);
    assert_eq!(probe[46], 0x50);
    assert_eq!(probe[47], 0x02);
    assert_eq!(&probe[48..50], &[0x00, 0x04]);
    assert_eq!(&probe[52..54], &[0, 0]);
}

#[test]
fn etherparse_agrees_on_probe() {
    // The reference parser must see exactly the fields the probe was
    // built from, and both checksums must be the ones it would compute.
    let target = Target { ip: IpAddr::V4([192, 168, 69, 2]), port: 1234 };
    let probe = encode_probe(&scanner(), &target);
    let parsed = etherparse::PacketHeaders::from_ethernet_slice(&probe).expect("parses");
    let link = match parsed.link.expect("link header") {
        etherparse::LinkHeader::Ethernet2(e) => e,
        other => panic!("unexpected link header {:?}", other),
    };
    assert_eq!(link.source, mac_a());
    assert_eq!(link.destination, mac_b());
    let (ipv4, _exts) = match parsed.net.expect("net header") {
        etherparse::NetHeaders::Ipv4(h, e) => (h, e),
        other => panic!("unexpected net header {:?}", other),
    };
    assert_eq!(ipv4.source, [192, 168, 69, 1]);
    assert_eq!(ipv4.destination, [192, 168, 69, 2]);
    assert_eq!(ipv4.time_to_live, 20);
    assert_eq!(ipv4.header_checksum, ipv4.calc_header_checksum());
    let tcp = match parsed.transport.expect("transport header") {
        etherparse::TransportHeader::Tcp(t) => t,
        other => panic!("unexpected transport header {:?}", other),
    };
    assert_eq!(tcp.source_port, 4321);
    assert_eq!(tcp.destination_port, 1234);
    assert_eq!(tcp.sequence_number, 0);
    assert_eq!(tcp.window_size, 4);
    assert!(tcp.syn);
    assert!(!tcp.ack);
    assert_eq!(tcp.checksum, tcp.calc_checksum_ipv4(&ipv4, &[]).expect("checksum"));
}

#[test]
fn etherparse_agrees_on_v6_frame() {
    let src_ip = [0xfd, 0, 0, 0, 0, 0, 0, 0, 0, 0, 0, 0, 0, 0, 0, 2];
    let dst_ip = [0xfd, 0, 0, 0, 0, 0, 0, 0, 0, 0, 0, 0, 0, 0, 0, 1];
    let frame = encode_tcp_frame_v6(
        &mac_a(),
        &mac_b(),
        &src_ip,
        &dst_ip,
        4321,
        22,
        0,
        0,
        true,
        false,
        4,
        20,
    );
    let parsed = etherparse::PacketHeaders::from_ethernet_slice(&frame).expect("parses");
    let (ipv6, _exts) = match parsed.net.expect("net header") {
        etherparse::NetHeaders::Ipv6(h, e) => (h, e),
        other => panic!("unexpected net header {:?}", other),
    };
    assert_eq!(ipv6.source, src_ip);
    assert_eq!(ipv6.destination, dst_ip);
    assert_eq!(ipv6.hop_limit, 20);
    let tcp = match parsed.transport.expect("transport header") {
        etherparse::TransportHeader::Tcp(t) => t,
        other => panic!("unexpected transport header {:?}", other),
    };
    assert_eq!(tcp.source_port, 4321);
    assert_eq!(tcp.destination_port, 22);
    assert_eq!(tcp.checksum, tcp.calc_checksum_ipv6(&ipv6, &[]).expect("checksum"));
}

#[test]
fn udp_frame_ignored() {
    // A well-formed UDP frame, built with the reference builder, decodes
    // to no responder.
    let builder = etherparse::PacketBuilder::ethernet2(mac_b(), mac_a())
        .ipv4([192, 168, 69, 2], [192, 168, 69, 1], 20)
        .udp(1234, 4321);
    let mut frame = Vec::with_capacity(builder.size(4));
    builder.write(&mut frame, &[1, 2, 3, 4]).expect("build UDP frame");
    assert_eq!(decode_response(&frame), None);
}

#[test]
fn non_ip_ethertype_ignored() {
    let target = Target { ip: IpAddr::V4([192, 168, 69, 2]), port: 1234 };
    let mut frame = encode_probe(&scanner(), &target);
    // Rewrite the ethertype to ARP; everything else stays well-formed.
    frame[12] = 0x08;
    frame[13] = 0x06;
    assert_eq!(decode_response(&frame), None);
}

#[test]
fn truncated_frames_ignored() {
    let target = Target { ip: IpAddr::V4([192, 168, 69, 2]), port: 1234 };
    let probe = encode_probe(&scanner(), &target);
    for cut in 0..probe.len() {
        let shortened: Vec<u8> = probe[..cut].to_vec();
        assert_eq!(decode_response(&shortened), None, "cut at {}", cut);
    }
}

#[test]
fn garbage_bytes_ignored() {
    let mut noise: Vec<u8> = Vec::new();
    let mut x: u32 = 0x12345678;
    for _ in 0..200 {
        x = x.wrapping_mul(1664525).wrapping_add(1013904223);
        noise.push((x >> 24) as u8);
    }
    assert_eq!(decode_response(&noise), None);
    let zeros = vec![0u8; 100];
    assert_eq!(decode_response(&zeros), None);
}

#[test]
fn bad_version_and_short_tcp_ignored() {
    let target = Target { ip: IpAddr::V4([192, 168, 69, 2]), port: 1234 };
    let probe = encode_probe(&scanner(), &target);

    // IP version field corrupted.
    let mut bad_version = probe.clone();
    bad_version[14] = 0x65;
    assert_eq!(decode_response(&bad_version), None);

    // Data offset pointing past the end of the frame.
    let mut bad_doff = probe.clone();
    bad_doff[46] = 0xf0;
    assert_eq!(decode_response(&bad_doff), None);

    // Data offset below the legal minimum.
    let mut tiny_doff = probe;
    tiny_doff[46] = 0x40;
    assert_eq!(decode_response(&tiny_doff), None);
}
