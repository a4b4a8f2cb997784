use rustcapture::packet::{
    handle_packet, log_packet_info, next_packet_number, parse_ethernet, parse_icmp, parse_ipv4,
    parse_tcp, parse_udp, CapturedPacket, FrameSummary, PacketCounter, TcpFlags,
};
use rustcapture::text::{decimal_string, hex4_string};

fn ipv4_tcp_frame() -> Vec<u8> {
    let mut f = vec![
        // Ethernet: dst, src, type 0x0800
        0x00, 0x11, 0x22, 0x33, 0x44, 0x55, 0xaa, 0xbb, 0xcc, 0xdd, 0xee, 0xff, 0x08, 0x00,
        // IPv4: version/IHL, TOS, total length, id, flags, TTL 64, proto 6, checksum
        0x45, 0x00, 0x00, 0x28, 0x00, 0x01, 0x00, 0x00, 0x40, 0x06, 0x00, 0x00,
        // src 192.168.1.10, dst 10.0.0.1
        192, 168, 1, 10, 10, 0, 0, 1,
    ];
    // TCP: 443 -> 51000, seq 1, ack 2, offset 5, flags SYN|ACK, window 1024
    f.extend_from_slice(&[
        0x01, 0xbb, 0xc7, 0x38, 0, 0, 0, 1, 0, 0, 0, 2, 0x50, 0x12, 0x04, 0x00, 0, 0, 0, 0,
    ]);
    f
}

#[test]
fn ethernet_header_is_read() {
    let f = ipv4_tcp_frame();
    let eth = parse_ethernet(&f).unwrap();
    assert_eq!(eth.dst_mac, "00:11:22:33:44:55");
    assert_eq!(eth.src_mac, "aa:bb:cc:dd:ee:ff");
    assert_eq!(eth.ethertype, 0x0800);
}

#[test]
fn ethernet_needs_fourteen_bytes() {
    assert!(parse_ethernet(&[0u8; 13]).is_none());
    assert!(parse_ethernet(&[]).is_none());
    let eth = parse_ethernet(&[0u8; 14]).unwrap();
    assert_eq!(eth.src_mac, "00:00:00:00:00:00");
    assert_eq!(eth.ethertype, 0);
}

#[test]
fn ipv4_header_is_read() {
    let f = ipv4_tcp_frame();
    let ip = parse_ipv4(&f[14..]).unwrap();
    assert_eq!(ip.src_ip, "192.168.1.10");
    assert_eq!(ip.dst_ip, "10.0.0.1");
    assert_eq!(ip._protocol, 6);
    assert_eq!(ip.protocol_name, "TCP");
}

#[test]
fn ipv4_needs_twenty_bytes() {
    assert!(parse_ipv4(&[0u8; 19]).is_none());
    let ip = parse_ipv4(&[0u8; 20]).unwrap();
    assert_eq!(ip.src_ip, "0.0.0.0");
    assert_eq!(ip.protocol_name, "OTHER");
}

#[test]
fn ipv4_protocol_names() {
    let names = [
        (1u8, "ICMP"),
        (6, "TCP"),
        (17, "UDP"),
        (47, "GRE"),
        (50, "ESP"),
        (51, "AH"),
        (58, "ICMPv6"),
        (99, "OTHER"),
    ];
    for (p, name) in names {
        let mut h = [0u8; 20];
        h[9] = p;
        assert_eq!(parse_ipv4(&h).unwrap().protocol_name, name);
    }
}

#[test]
fn ipv4_addresses_use_full_decimal() {
    let mut h = [0u8; 20];
    h[12..16].copy_from_slice(&[255, 100, 9, 0]);
    h[16..20].copy_from_slice(&[1, 22, 199, 250]);
    let ip = parse_ipv4(&h).unwrap();
    assert_eq!(ip.src_ip, "255.100.9.0");
    assert_eq!(ip.dst_ip, "1.22.199.250");
}

#[test]
fn tcp_header_is_read() {
    let f = ipv4_tcp_frame();
    let t = parse_tcp(&f[34..]).unwrap();
    assert_eq!(t.src_port, 443);
    assert_eq!(t.dst_port, 51000);
    assert_eq!(t.seq_num, 1);
    assert_eq!(t.ack_num, 2);
    assert_eq!(t.header_len, 20);
    assert_eq!(t.flags.bits, 0x12);
    assert_eq!(t.window, 1024);
    assert!(parse_tcp(&f[35..]).is_none());
}

#[test]
fn tcp_flag_names() {
    assert_eq!(TcpFlags { bits: 0x12 }.to_string(), "SYN ACK");
    assert_eq!(TcpFlags { bits: 0x00 }.to_string(), "");
    assert_eq!(TcpFlags { bits: 0xff }.to_string(), "FIN SYN RST PSH ACK URG ECE CWR");
    assert_eq!(TcpFlags { bits: 0x11 }.to_string(), "FIN ACK");
}

#[test]
fn udp_header_is_read() {
    let u = parse_udp(&[0x00, 0x35, 0x13, 0x88, 0x00, 0x20, 0xbe, 0xef]).unwrap();
    assert_eq!(u.src_port, 53);
    assert_eq!(u.dst_port, 5000);
    assert_eq!(u.length, 32);
    assert_eq!(u.checksum, 0xbeef);
    assert!(parse_udp(&[0u8; 7]).is_none());
}

#[test]
fn icmp_header_is_read() {
    let i = parse_icmp(&[8, 0, 0xf7, 0xff]).unwrap();
    assert_eq!(i.icmp_type, 8);
    assert_eq!(i.code, 0);
    assert_eq!(i.kind_name, "Echo Request");
    assert_eq!(parse_icmp(&[3, 1, 0, 0]).unwrap().kind_name, "Destination Unreachable");
    assert_eq!(parse_icmp(&[200, 1, 0, 0]).unwrap().kind_name, "Other");
    assert!(parse_icmp(&[0u8; 3]).is_none());
}

#[test]
fn packet_numbers_count_up_from_one() {
    let mut c = PacketCounter::new();
    assert_eq!(c.value(), 0);
    assert_eq!(next_packet_number(&mut c), 1);
    assert_eq!(next_packet_number(&mut c), 2);
    assert_eq!(next_packet_number(&mut c), 3);
    assert_eq!(c.value(), 3);
}

#[test]
fn captured_packet_keeps_bytes() {
    let p = CapturedPacket::new(vec![1, 2, 3], "eth0".to_string());
    assert_eq!(p.len(), 3);
    assert_eq!(p.data, vec![1, 2, 3]);
}

#[test]
fn handle_packet_reports_ipv4() {
    let mut c = PacketCounter::new();
    let r = handle_packet(&mut c, CapturedPacket::new(ipv4_tcp_frame(), "eth0".to_string()));
    assert_eq!(r.packet, 1);
    assert_eq!(r.len, 54);
    assert_eq!(r.interface, None);
    match r.frame {
        FrameSummary::Ipv4 { ethernet, ipv4 } => {
            assert_eq!(ethernet.src_mac, "aa:bb:cc:dd:ee:ff");
            assert_eq!(ipv4.src_ip, "192.168.1.10");
            assert_eq!(ipv4.protocol_name, "TCP");
        }
        other => panic!("unexpected {:?}", other),
    }
}

#[test]
fn handle_packet_reports_small_and_other_frames() {
    let mut c = PacketCounter::new();
    let r = handle_packet(&mut c, CapturedPacket::new(vec![0u8; 10], String::new()));
    assert_eq!(r.packet, 1);
    assert!(matches!(r.frame, FrameSummary::TooSmall));
    let mut arp = vec![0u8; 42];
    arp[12] = 0x08;
    arp[13] = 0x06;
    let r = handle_packet(&mut c, CapturedPacket::new(arp, String::new()));
    assert_eq!(r.packet, 2);
    match r.frame {
        FrameSummary::Ethernet { ethernet } => assert_eq!(ethernet.ethertype, 0x0806),
        other => panic!("unexpected {:?}", other),
    }
    // IPv4 type but shorter than 34 bytes: logged as a plain Ethernet frame
    let mut short = vec![0u8; 30];
    short[12] = 0x08;
    let r = handle_packet(&mut c, CapturedPacket::new(short, String::new()));
    assert!(matches!(r.frame, FrameSummary::Ethernet { .. }));
}

#[test]
fn log_packet_info_uses_given_length() {
    let f = ipv4_tcp_frame();
    let r = log_packet_info(&f, f.len(), 3, 77);
    assert_eq!(r.packet, 77);
    assert_eq!(r.interface, Some(3));
    assert!(matches!(r.frame, FrameSummary::Ipv4 { .. }));
    let r = log_packet_info(&f, 10, 3, 78);
    assert!(matches!(r.frame, FrameSummary::TooSmall));
    let r = log_packet_info(&f[..5], 20, 3, 79);
    assert!(matches!(r.frame, FrameSummary::EthernetUnparsed));
}

#[test]
fn number_formatting() {
    assert_eq!(decimal_string(0), "0");
    assert_eq!(decimal_string(7), "7");
    assert_eq!(decimal_string(1234567890), "1234567890");
    assert_eq!(decimal_string(u64::MAX), u64::MAX.to_string());
    assert_eq!(hex4_string(0x0800), "0x0800");
    assert_eq!(hex4_string(0x86dd), "0x86dd");
    assert_eq!(hex4_string(0xffff), "0xffff");
}

#[test]
fn successive_calls_hand_out_consecutive_numbers() {
    let mut c = PacketCounter::new();
    for _ in 0..5 {
        next_packet_number(&mut c);
    }
    assert_eq!(c.value(), 5);
    let got: Vec<u64> = (0..7).map(|_| next_packet_number(&mut c)).collect();
    assert_eq!(got, vec![6, 7, 8, 9, 10, 11, 12]);
    assert_eq!(c.value(), 12);
}
