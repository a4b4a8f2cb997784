use std::sync::atomic::AtomicBool;
use std::sync::Arc;

use rustcapture::entry::{frame_decodable, PacketEntry};
use rustcapture::tui::PacketMetadata;
use rustcapture::viewer::{
    footer_text, info_cut_allowed, line_style, row_color, truncate_info, App, KeyInput,
    LineStyle, RowColor, TuiMessage,
};

fn frame(ethertype: u16, len: usize) -> Vec<u8> {
    let mut f = vec![0u8; len];
    f[0..6].copy_from_slice(&[1, 2, 3, 4, 5, 6]);
    f[6..12].copy_from_slice(&[0xa, 0xb, 0xc, 0xd, 0xe, 0xf]);
    f[12] = (ethertype >> 8) as u8;
    f[13] = ethertype as u8;
    f
}

fn ipv4_frame(proto: u8, transport: &[u8]) -> Vec<u8> {
    let mut f = frame(0x0800, 34);
    f[14] = 0x45;
    f[22] = 64;
    f[23] = proto;
    f[26..30].copy_from_slice(&[10, 0, 0, 1]);
    f[30..34].copy_from_slice(&[10, 0, 0, 2]);
    f.extend_from_slice(transport);
    f
}

fn entry(n: u64) -> PacketEntry {
    PacketEntry::from_raw(n, &frame(0x0806, 42), "eth0".to_string())
}

fn app() -> App {
    App::new(Arc::new(AtomicBool::new(true)))
}

#[test]
fn entry_for_tcp_segment() {
    let mut tcp = vec![0u8; 20];
    tcp[0..2].copy_from_slice(&80u16.to_be_bytes());
    tcp[2..4].copy_from_slice(&8080u16.to_be_bytes());
    tcp[4..8].copy_from_slice(&100u32.to_be_bytes());
    tcp[8..12].copy_from_slice(&200u32.to_be_bytes());
    tcp[12] = 0x50;
    tcp[13] = 0x18;
    tcp[14..16].copy_from_slice(&512u16.to_be_bytes());
    tcp.extend_from_slice(b"hello");
    let e = PacketEntry::from_raw(9, &ipv4_frame(6, &tcp), "wlan0".to_string());
    assert_eq!(e.number, 9);
    assert_eq!(e.interface, "wlan0");
    assert_eq!(e.length, 59);
    assert_eq!(e.src, "10.0.0.1");
    assert_eq!(e.dst, "10.0.0.2");
    assert_eq!(e.protocol, "TCP");
    assert_eq!(e.info, "10.0.0.1:80 → 10.0.0.2:8080 [PSH ACK]");
    let m = &e.metadata;
    assert_eq!(m.src_mac, "0a:0b:0c:0d:0e:0f");
    assert_eq!(m.dst_mac, "01:02:03:04:05:06");
    assert_eq!(m.ethertype, "IPv4");
    assert_eq!(m.ttl, Some(64));
    assert_eq!(m.ip_header_len, Some(20));
    assert_eq!(m.src_port, Some(80));
    assert_eq!(m.dst_port, Some(8080));
    assert_eq!(m.tcp_seq, Some(100));
    assert_eq!(m.tcp_ack, Some(200));
    assert_eq!(m.tcp_flags.as_deref(), Some("PSH ACK"));
    assert_eq!(m.tcp_window, Some(512));
    assert_eq!(m.payload_len, 5);
}

#[test]
fn entry_for_udp_datagram() {
    let udp = [0x00, 0x35, 0x04, 0xd2, 0x00, 0x0c, 0x12, 0x34, 1, 2, 3, 4];
    let e = PacketEntry::from_raw(1, &ipv4_frame(17, &udp), "eth0".to_string());
    assert_eq!(e.protocol, "UDP");
    assert_eq!(e.info, "10.0.0.1:53 → 10.0.0.2:1234 len=12");
    assert_eq!(e.metadata.udp_length, Some(12));
    assert_eq!(e.metadata.udp_checksum, Some(0x1234));
    assert_eq!(e.metadata.payload_len, 4);
    assert_eq!(e.metadata.tcp_seq, None);
}

#[test]
fn entry_for_udp_length_below_header() {
    let udp = [0, 1, 0, 2, 0, 3, 0, 0];
    let e = PacketEntry::from_raw(1, &ipv4_frame(17, &udp), "eth0".to_string());
    assert_eq!(e.metadata.payload_len, 0);
}

#[test]
fn entry_for_icmp_echo() {
    let icmp = [8, 0, 0xf7, 0xff, 0, 1, 0, 1, 9, 9];
    let e = PacketEntry::from_raw(1, &ipv4_frame(1, &icmp), "eth0".to_string());
    assert_eq!(e.protocol, "ICMP");
    assert_eq!(e.info, "Echo Request (type=8, code=0)");
    assert_eq!(e.metadata.icmp_type.as_deref(), Some("Echo Request (8)"));
    assert_eq!(e.metadata.payload_len, 2);
}

#[test]
fn entry_for_other_ip_protocol() {
    let e = PacketEntry::from_raw(1, &ipv4_frame(47, &[1, 2, 3]), "eth0".to_string());
    assert_eq!(e.protocol, "GRE");
    assert_eq!(e.info, "10.0.0.1 → 10.0.0.2");
    assert_eq!(e.metadata.payload_len, 3);
}

#[test]
fn entry_for_truncated_tcp() {
    let e = PacketEntry::from_raw(1, &ipv4_frame(6, &[0u8; 10]), "eth0".to_string());
    assert_eq!(e.protocol, "TCP");
    assert_eq!(e.info, "");
    assert_eq!(e.metadata.src_port, None);
    assert_eq!(e.metadata.payload_len, 0);
    assert_eq!(e.metadata.ttl, Some(64));
}

#[test]
fn entry_for_arp_ipv6_and_unknown() {
    let arp = PacketEntry::from_raw(1, &frame(0x0806, 42), "eth0".to_string());
    assert_eq!(arp.protocol, "ARP");
    assert_eq!(arp.metadata.ethertype, "ARP");
    assert_eq!(arp.metadata.payload_len, 28);
    assert_eq!(arp.src, "0a:0b:0c:0d:0e:0f");
    assert_eq!(arp.dst, "01:02:03:04:05:06");
    let v6 = PacketEntry::from_raw(2, &frame(0x86dd, 60), "eth0".to_string());
    assert_eq!(v6.protocol, "IPv6");
    assert_eq!(v6.metadata.payload_len, 46);
    let other = PacketEntry::from_raw(3, &frame(0x88cc, 20), "eth0".to_string());
    assert_eq!(other.protocol, "0x88cc");
    assert_eq!(other.metadata.ethertype, "0x88cc");
    // IPv4 type but too short to decode
    let short = PacketEntry::from_raw(4, &frame(0x0800, 30), "eth0".to_string());
    assert_eq!(short.protocol, "0x0800");
    assert_eq!(short.metadata.payload_len, 16);
}

#[test]
fn entry_for_short_frame() {
    let e = PacketEntry::from_raw(5, &[1, 2, 3], "lo".to_string());
    assert_eq!(e.protocol, "???");
    assert_eq!(e.src, "");
    assert_eq!(e.length, 3);
    assert_eq!(e.metadata.payload_len, 0);
}

#[test]
fn decodable_rejects_overlong_ip_header() {
    let mut f = ipv4_frame(6, &[]);
    assert!(frame_decodable(&f));
    f[14] = 0x4f; // IHL 15 claims 60 bytes of header
    assert!(!frame_decodable(&f));
    assert!(frame_decodable(&[0u8; 5]));
}

#[test]
fn metadata_lines_for_tcp() {
    let mut m = PacketMetadata::default();
    m.src_mac = "aa".to_string();
    m.dst_mac = "bb".to_string();
    m.ethertype = "IPv4".to_string();
    m.ttl = Some(64);
    m.ip_header_len = Some(20);
    m.src_port = Some(1);
    m.dst_port = Some(2);
    m.tcp_seq = Some(3);
    m.tcp_ack = Some(4);
    m.tcp_flags = Some("SYN".to_string());
    m.tcp_window = Some(5);
    m.payload_len = 6;
    assert_eq!(
        m.to_lines(),
        vec![
            "── Ethernet ──",
            "  Src MAC: aa",
            "  Dst MAC: bb",
            "  Type: IPv4",
            "── IP ──",
            "  TTL: 64",
            "  Header Len: 20 bytes",
            "── TCP ──",
            "  Ports: 1 → 2",
            "  Seq: 3",
            "  Ack: 4",
            "  Flags: [SYN]",
            "  Window: 5",
            "── Payload ──",
            "  Size: 6 bytes",
        ]
    );
}

#[test]
fn metadata_lines_for_udp_icmp_and_empty() {
    let mut m = PacketMetadata::default();
    assert_eq!(
        m.to_lines(),
        vec![
            "── Ethernet ──",
            "  Src MAC: ",
            "  Dst MAC: ",
            "  Type: ",
            "── Payload ──",
            "  Size: 0 bytes",
        ]
    );
    m.src_port = Some(53);
    m.dst_port = Some(99);
    m.udp_length = Some(8);
    m.icmp_type = Some("Echo Reply (0)".to_string());
    let lines = m.to_lines();
    assert_eq!(
        lines[4..],
        [
            "── UDP ──",
            "  Ports: 53 → 99",
            "  Length: 8",
            "── ICMP ──",
            "  Type: Echo Reply (0)",
            "── Payload ──",
            "  Size: 0 bytes",
        ]
    );
    // ports without TCP or UDP details: no transport section
    m.udp_length = None;
    assert_eq!(m.to_lines().len(), 8);
}

#[test]
fn app_starts_empty() {
    let a = app();
    assert!(a.packets.is_empty());
    assert_eq!(a.packet_count, 0);
    assert!(a.auto_scroll);
    assert_eq!(a.max_packets, 1000);
    assert!(!a.show_detail);
    assert_eq!(a.table_state.selected(), None);
    assert!(a.selected_packet().is_none());
}

#[test]
fn packet_table_keeps_last_thousand() {
    let mut a = app();
    for n in 1..=1005u64 {
        a.add_packet(entry(n));
    }
    assert_eq!(a.packets.len(), 1000);
    assert_eq!(a.packet_count, 1005);
    assert_eq!(a.packets[0].number, 6);
    assert_eq!(a.packets[999].number, 1005);
    assert_eq!(a.table_state.selected(), Some(999));
    assert_eq!(a.selected_packet().unwrap().number, 1005);
}

#[test]
fn small_table_drops_oldest() {
    let mut a = app();
    a.max_packets = 2;
    a.add_packet(entry(1));
    a.add_packet(entry(2));
    a.add_packet(entry(3));
    let numbers: Vec<u64> = a.packets.iter().map(|p| p.number).collect();
    assert_eq!(numbers, vec![2, 3]);
}

#[test]
fn scrolling_moves_selection_and_auto_scroll() {
    let mut a = app();
    for n in 1..=3 {
        a.add_packet(entry(n));
    }
    assert_eq!(a.table_state.selected(), Some(2));
    a.scroll_up();
    assert!(!a.auto_scroll);
    assert_eq!(a.table_state.selected(), Some(1));
    a.add_packet(entry(4));
    assert_eq!(a.table_state.selected(), Some(1));
    a.scroll_up();
    a.scroll_up();
    assert_eq!(a.table_state.selected(), Some(0));
    a.scroll_down();
    assert_eq!(a.table_state.selected(), Some(1));
    assert!(!a.auto_scroll);
    a.scroll_down();
    a.scroll_down();
    assert_eq!(a.table_state.selected(), Some(3));
    assert!(!a.auto_scroll);
    a.scroll_down();
    assert_eq!(a.table_state.selected(), Some(3));
    assert!(a.auto_scroll);
    a.scroll_up();
    a.scroll_to_bottom();
    assert!(a.auto_scroll);
    assert_eq!(a.table_state.selected(), Some(3));
}

#[test]
fn scrolling_an_empty_table() {
    let mut a = app();
    a.scroll_down();
    assert_eq!(a.table_state.selected(), Some(0));
    assert!(a.selected_packet().is_none());
    a.scroll_up();
    assert_eq!(a.table_state.selected(), Some(0));
    a.scroll_to_bottom();
    assert_eq!(a.table_state.selected(), Some(0));
}

#[test]
fn keys_drive_the_viewer() {
    let mut a = app();
    a.add_packet(entry(1));
    a.add_packet(entry(2));
    assert!(!a.handle_key(KeyInput::Up));
    assert_eq!(a.table_state.selected(), Some(0));
    assert!(!a.handle_key(KeyInput::Char('j')));
    assert_eq!(a.table_state.selected(), Some(1));
    assert!(!a.handle_key(KeyInput::Char('k')));
    assert!(!a.handle_key(KeyInput::Char('G')));
    assert_eq!(a.table_state.selected(), Some(1));
    assert!(a.auto_scroll);
    assert!(!a.handle_key(KeyInput::Char(' ')));
    assert!(!a.auto_scroll);
    assert!(!a.handle_key(KeyInput::Char(' ')));
    assert!(a.auto_scroll);
    assert!(!a.handle_key(KeyInput::Enter));
    assert!(a.show_detail);
    a.toggle_detail();
    assert!(!a.show_detail);
    assert!(!a.handle_key(KeyInput::Char('x')));
    assert!(!a.handle_key(KeyInput::Other));
    assert!(a.handle_key(KeyInput::Char('q')));
    assert!(a.handle_key(KeyInput::Esc));
    assert!(!a.handle_key(KeyInput::Down));
    assert!(!a.handle_key(KeyInput::End));
}

#[test]
fn messages_add_packets_or_quit() {
    let mut a = app();
    assert!(!a.handle_message(TuiMessage::Packet(entry(1))));
    assert_eq!(a.packets.len(), 1);
    assert!(a.handle_message(TuiMessage::Quit));
    assert_eq!(a.packets.len(), 1);
}

#[test]
fn row_colors_by_protocol() {
    assert_eq!(row_color(&"TCP".to_string()), RowColor::Green);
    assert_eq!(row_color(&"UDP".to_string()), RowColor::Blue);
    assert_eq!(row_color(&"ICMP".to_string()), RowColor::Magenta);
    assert_eq!(row_color(&"ARP".to_string()), RowColor::Yellow);
    assert_eq!(row_color(&"IPv6".to_string()), RowColor::Cyan);
    assert_eq!(row_color(&"GRE".to_string()), RowColor::Plain);
}

#[test]
fn info_is_truncated_past_thirty_bytes() {
    let short = "a".repeat(30);
    assert_eq!(truncate_info(&short), short);
    let long = "b".repeat(31);
    assert_eq!(truncate_info(&long), format!("{}...", "b".repeat(27)));
    let arrow = format!("{}→xyz", "c".repeat(25)); // the arrow spans bytes 25..28
    assert!(!info_cut_allowed(&arrow));
    assert!(info_cut_allowed(&long));
}

#[test]
fn footer_and_line_styles() {
    assert_eq!(footer_text(true), " q: Quit | ↑↓: Scroll | Enter: Hide detail | Space: Auto-scroll ");
    assert_eq!(footer_text(false), " q: Quit | ↑↓: Scroll | Enter: Show detail | Space: Auto-scroll ");
    assert_eq!(line_style(&"── IP ──".to_string()), LineStyle::Heading);
    assert_eq!(line_style(&"  TTL: 1".to_string()), LineStyle::Field);
    assert_eq!(line_style(&"x".to_string()), LineStyle::Other);
}

#[test]
fn entries_carry_a_timestamp() {
    let before = std::time::Instant::now();
    let e = entry(1);
    let after = std::time::Instant::now();
    assert!(before <= e.timestamp && e.timestamp <= after);
    let copy = e.clone();
    assert_eq!(copy.timestamp, e.timestamp);
}

#[test]
fn scroll_down_then_up_returns() {
    let mut a = app();
    for n in 1..=5 {
        a.add_packet(entry(n));
    }
    a.scroll_up();
    a.scroll_up();
    assert_eq!(a.table_state.selected(), Some(2));
    a.scroll_down();
    a.scroll_up();
    assert_eq!(a.table_state.selected(), Some(2));
}

#[test]
fn drawing_clamps_selection_onto_table() {
    // `k` on an empty table selects row 0; drawing clears it again.
    let mut a = app();
    assert!(!a.handle_key(KeyInput::Char('k')));
    assert_eq!(a.table_state.selected(), Some(0));
    a.clamp_selection();
    assert_eq!(a.table_state.selected(), None);
    // With auto-scroll off, a packet then arrives and nothing is selected.
    a.handle_message(TuiMessage::Packet(entry(1)));
    a.clamp_selection();
    assert_eq!(a.table_state.selected(), None);
    assert!(a.selected_packet().is_none());
    // A selection past the end moves to the last row.
    a.handle_message(TuiMessage::Packet(entry(2)));
    a.table_state.select(Some(7));
    a.clamp_selection();
    assert_eq!(a.table_state.selected(), Some(1));
    assert_eq!(a.selected_packet().unwrap().number, 2);
    // A selection on the table stays.
    a.table_state.select(Some(0));
    a.clamp_selection();
    assert_eq!(a.table_state.selected(), Some(0));
}

#[test]
fn quit_message_at_full_count() {
    let mut a = app();
    a.packet_count = u64::MAX;
    assert!(a.handle_message(TuiMessage::Quit));
    assert_eq!(a.packet_count, u64::MAX);
}
