use vstd::prelude::*;

use crate::packet::{
    be16, be32, flags_text, ipv4_text, mac_text, parse_ethernet, parse_icmp, parse_ipv4,
    parse_tcp, parse_udp, protocol_name_of, EthernetInfo, Ipv4Info, control_message_name,
};
use crate::text::{dec, dec_byte, hex4_prefixed, hex4_string, push_decimal, push_str};
use crate::tui::{empty_metadata, MetadataView, PacketMetadata};

verus! {

/// `std::time::Instant`, carried through as the moment a packet was seen.
#[verifier::external_type_specification]
#[verifier::external_body]
pub struct ExInstant(std::time::Instant);

/// Calls `std::time::Instant::now`, which reads the monotonic clock; nothing
/// is stated of the instant it returns.
#[verifier::external_body]
pub(crate) fn now() -> std::time::Instant {
    std::time::Instant::now()
}

/// `Instant::clone`: `Instant` is `Copy`, so the clone is the same instant.
pub assume_specification[ <std::time::Instant as Clone>::clone ](i: &std::time::Instant) -> (r:
    std::time::Instant)
    ensures
        r == *i,
;

/// The frame carries an IPv4 packet that the viewer decodes: Ethernet type
/// 0x0800 and at least 34 bytes.
pub open spec fn has_ipv4(d: Seq<u8>) -> bool {
    d.len() >= 34 && be16(d[12], d[13]) == 0x0800
}

/// IPv4 header length in bytes (IHL times four).
pub open spec fn ip_header_len_of(d: Seq<u8>) -> u8 {
    ((d[14] % 16) * 4) as u8
}

/// The bytes after the IPv4 header.
pub open spec fn ip_payload(d: Seq<u8>) -> Seq<u8> {
    d.skip(14 + ip_header_len_of(d))
}

/// The viewer can decode the frame: an IPv4 header does not claim more bytes
/// than the frame has.
pub open spec fn from_raw_defined(d: Seq<u8>) -> bool {
    has_ipv4(d) ==> 14 + ip_header_len_of(d) <= d.len()
}

/// `a - b`, or 0 where `b > a`.
pub open spec fn sat_len(a: nat, b: nat) -> usize {
    if a > b {
        (a - b) as usize
    } else {
        0
    }
}

/// Label of a non-IPv4 Ethernet type.
pub open spec fn link_label(et: u16) -> Seq<char> {
    if et == 0x0806 {
        "ARP"@
    } else if et == 0x86DD {
        "IPv6"@
    } else {
        hex4_prefixed(et)
    }
}

/// Metadata of an Ethernet frame that is not decoded as IPv4.
pub open spec fn link_metadata(d: Seq<u8>) -> MetadataView {
    MetadataView {
        src_mac: mac_text(d, 6),
        dst_mac: mac_text(d, 0),
        ethertype: link_label(be16(d[12], d[13])),
        payload_len: sat_len(d.len(), 14),
        ..empty_metadata()
    }
}

/// Metadata of an IPv4 frame before its transport header is read.
pub open spec fn ip_metadata(d: Seq<u8>) -> MetadataView {
    MetadataView {
        src_mac: mac_text(d, 6),
        dst_mac: mac_text(d, 0),
        ethertype: "IPv4"@,
        ttl: Some(d[22]),
        ip_header_len: Some(ip_header_len_of(d)),
        ..empty_metadata()
    }
}

/// `src:port → dst:port [FLAGS]` for a TCP segment `pl` in frame `d`.
pub open spec fn tcp_text(d: Seq<u8>, pl: Seq<u8>) -> Seq<char> {
    ipv4_text(d, 26) + ":"@ + dec(be16(pl[0], pl[1]) as nat) + " → "@ + ipv4_text(d, 30) + ":"@
        + dec(be16(pl[2], pl[3]) as nat) + " ["@ + flags_text(pl[13]) + "]"@
}

/// Metadata `base` with the TCP header of `pl`.
pub open spec fn with_tcp(base: MetadataView, pl: Seq<u8>) -> MetadataView {
    MetadataView {
        src_port: Some(be16(pl[0], pl[1])),
        dst_port: Some(be16(pl[2], pl[3])),
        tcp_seq: Some(be32(pl[4], pl[5], pl[6], pl[7])),
        tcp_ack: Some(be32(pl[8], pl[9], pl[10], pl[11])),
        tcp_flags: Some(flags_text(pl[13])),
        tcp_window: Some(be16(pl[14], pl[15])),
        payload_len: sat_len(pl.len(), ((pl[12] / 16) * 4) as nat),
        ..base
    }
}

/// `src:port → dst:port len=N` for a UDP datagram `pl` in frame `d`.
pub open spec fn udp_text(d: Seq<u8>, pl: Seq<u8>) -> Seq<char> {
    ipv4_text(d, 26) + ":"@ + dec(be16(pl[0], pl[1]) as nat) + " → "@ + ipv4_text(d, 30) + ":"@
        + dec(be16(pl[2], pl[3]) as nat) + " len="@ + dec(be16(pl[4], pl[5]) as nat)
}

/// Metadata `base` with the UDP header of `pl`.
pub open spec fn with_udp(base: MetadataView, pl: Seq<u8>) -> MetadataView {
    MetadataView {
        src_port: Some(be16(pl[0], pl[1])),
        dst_port: Some(be16(pl[2], pl[3])),
        udp_length: Some(be16(pl[4], pl[5])),
        udp_checksum: Some(be16(pl[6], pl[7])),
        payload_len: sat_len(be16(pl[4], pl[5]) as nat, 8),
        ..base
    }
}

/// `Name (type=T, code=C)` for a control message `pl`.
pub open spec fn control_text(pl: Seq<u8>) -> Seq<char> {
    control_message_name(pl[0]) + " (type="@ + dec(pl[0] as nat) + ", code="@ + dec(pl[1] as nat)
        + ")"@
}

/// `Name (T)` for a control message `pl`.
pub open spec fn control_label(pl: Seq<u8>) -> Seq<char> {
    control_message_name(pl[0]) + " ("@ + dec(pl[0] as nat) + ")"@
}

/// Metadata `base` with the control message header of `pl`.
pub open spec fn with_control(base: MetadataView, pl: Seq<u8>) -> MetadataView {
    MetadataView { icmp_type: Some(control_label(pl)), payload_len: sat_len(pl.len(), 8), ..base }
}

/// The summary line and the metadata of an IPv4 frame `d`, by the protocol
/// number: TCP (6), UDP (17) and ICMP (1) when their headers are complete,
/// nothing more when they are not, the two addresses for other protocols.
pub open spec fn ipv4_description(d: Seq<u8>) -> (Seq<char>, MetadataView) {
    let pl = ip_payload(d);
    let base = ip_metadata(d);
    let p = d[23];
    if p == 6 {
        if pl.len() >= 20 {
            (tcp_text(d, pl), with_tcp(base, pl))
        } else {
            (Seq::empty(), base)
        }
    } else if p == 17 {
        if pl.len() >= 8 {
            (udp_text(d, pl), with_udp(base, pl))
        } else {
            (Seq::empty(), base)
        }
    } else if p == 1 {
        if pl.len() >= 4 {
            (control_text(pl), with_control(base, pl))
        } else {
            (Seq::empty(), base)
        }
    } else {
        (
            ipv4_text(d, 26) + " → "@ + ipv4_text(d, 30),
            MetadataView { payload_len: pl.len() as usize, ..base },
        )
    }
}

/// What the packet table shows of a frame, as mathematical values.
pub struct DescriptionView {
    pub src: Seq<char>,
    pub dst: Seq<char>,
    pub protocol: Seq<char>,
    pub info: Seq<char>,
    pub metadata: MetadataView,
}

/// What the packet table shows of frame `d`.
pub open spec fn describe(d: Seq<u8>) -> DescriptionView {
    if d.len() < 14 {
        DescriptionView {
            src: Seq::empty(),
            dst: Seq::empty(),
            protocol: "???"@,
            info: Seq::empty(),
            metadata: empty_metadata(),
        }
    } else if has_ipv4(d) {
        DescriptionView {
            src: ipv4_text(d, 26),
            dst: ipv4_text(d, 30),
            protocol: protocol_name_of(d[23]),
            info: ipv4_description(d).0,
            metadata: ipv4_description(d).1,
        }
    } else {
        DescriptionView {
            src: mac_text(d, 6),
            dst: mac_text(d, 0),
            protocol: link_label(be16(d[12], d[13])),
            info: Seq::empty(),
            metadata: link_metadata(d),
        }
    }
}

proof fn lemma_ipv4_text_skip(d: Seq<u8>)
    requires
        d.len() >= 34,
    ensures
        ipv4_text(d.skip(14), 12) == ipv4_text(d, 26),
        ipv4_text(d.skip(14), 16) == ipv4_text(d, 30),
        d.skip(14)[9] == d[23],
        d.skip(14)[8] == d[22],
        d.skip(14)[0] == d[14],
{
    let s = d.skip(14);
    assert(s[12] == d[26] && s[13] == d[27] && s[14] == d[28] && s[15] == d[29]);
    assert(s[16] == d[30] && s[17] == d[31] && s[18] == d[32] && s[19] == d[33]);
}

/// What the packet table shows of a frame.
struct FrameDescription {
    src: String,
    dst: String,
    protocol: String,
    info: String,
    metadata: PacketMetadata,
}

impl View for FrameDescription {
    type V = DescriptionView;

    closed spec fn view(&self) -> DescriptionView {
        DescriptionView {
            src: self.src@,
            dst: self.dst@,
            protocol: self.protocol@,
            info: self.info@,
            metadata: self.metadata@,
        }
    }
}

fn header_len_byte(b: u8) -> (h: u8)
    ensures
        h == ((b % 16) * 4) as u8,
{
    (b % 16) * 4
}

fn payload_after(data: &[u8], ihl: u8) -> (pl: &[u8])
    requires
        14 + ihl <= data@.len(),
    ensures
        pl@ == data@.skip(14 + ihl),
{
    let start = 14 + ihl as usize;
    let pl = &data[start..data.len()];
    assert(pl@ =~= data@.skip(14 + ihl));
    pl
}

fn u16_to_u64(v: u16) -> (w: u64)
    ensures
        w == v,
{
    v as u64
}

fn u8_to_u64(v: u8) -> (w: u64)
    ensures
        w == v,
{
    v as u64
}

fn len_minus_tcp_header(n: usize, header_len: u8) -> (r: usize)
    ensures
        r == sat_len(n as nat, header_len as nat),
{
    n.saturating_sub(header_len as usize)
}

fn udp_payload_len(length: u16) -> (r: usize)
    ensures
        r == sat_len(length as nat, 8),
{
    length.saturating_sub(8) as usize
}

/// `src:sport → dst:dport` as a new string.
fn endpoints_text(ipv4: &Ipv4Info, sport: u16, dport: u16) -> (s: String)
    ensures
        s@ == ipv4.src_ip@ + ":"@ + dec(sport as nat) + " → "@ + ipv4.dst_ip@ + ":"@ + dec(
            dport as nat,
        ),
{
    let mut s = ipv4.src_ip.clone();
    push_str(&mut s, ":");
    push_decimal(&mut s, sport as u64);
    push_str(&mut s, " → ");
    push_str(&mut s, ipv4.dst_ip.as_str());
    push_str(&mut s, ":");
    push_decimal(&mut s, dport as u64);
    assert(s@ =~= ipv4.src_ip@ + ":"@ + dec(sport as nat) + " → "@ + ipv4.dst_ip@ + ":"@ + dec(
        dport as nat,
    ));
    s
}

fn tcp_part(d: &[u8], ipv4: &Ipv4Info, pl: &[u8], base: PacketMetadata) -> (r: (
    String,
    PacketMetadata,
))
    requires
        d@.len() >= 34,
        ipv4.src_ip@ == ipv4_text(d@, 26),
        ipv4.dst_ip@ == ipv4_text(d@, 30),
    ensures
        pl@.len() >= 20 ==> r.0@ == tcp_text(d@, pl@) && r.1@ == with_tcp(base@, pl@),
        pl@.len() < 20 ==> r.0@ == Seq::<char>::empty() && r.1@ == base@,
{
    match parse_tcp(pl) {
        Some(tcp) => {
            let flags = tcp.flags.to_string();
            let mut info = endpoints_text(ipv4, tcp.src_port, tcp.dst_port);
            push_str(&mut info, " [");
            push_str(&mut info, flags.as_str());
            push_str(&mut info, "]");
            assert(info@ =~= tcp_text(d@, pl@));
            let mut m = base;
            m.src_port = Some(tcp.src_port);
            m.dst_port = Some(tcp.dst_port);
            m.tcp_seq = Some(tcp.seq_num);
            m.tcp_ack = Some(tcp.ack_num);
            m.tcp_flags = Some(tcp.flags.to_string());
            m.tcp_window = Some(tcp.window);
            m.payload_len = len_minus_tcp_header(pl.len(), tcp.header_len);
            (info, m)
        },
        None => (String::new(), base),
    }
}

fn udp_part(d: &[u8], ipv4: &Ipv4Info, pl: &[u8], base: PacketMetadata) -> (r: (
    String,
    PacketMetadata,
))
    requires
        d@.len() >= 34,
        ipv4.src_ip@ == ipv4_text(d@, 26),
        ipv4.dst_ip@ == ipv4_text(d@, 30),
    ensures
        pl@.len() >= 8 ==> r.0@ == udp_text(d@, pl@) && r.1@ == with_udp(base@, pl@),
        pl@.len() < 8 ==> r.0@ == Seq::<char>::empty() && r.1@ == base@,
{
    match parse_udp(pl) {
        Some(udp) => {
            let mut info = endpoints_text(ipv4, udp.src_port, udp.dst_port);
            push_str(&mut info, " len=");
            push_decimal(&mut info, u16_to_u64(udp.length));
            assert(info@ =~= udp_text(d@, pl@));
            let mut m = base;
            m.src_port = Some(udp.src_port);
            m.dst_port = Some(udp.dst_port);
            m.udp_length = Some(udp.length);
            m.udp_checksum = Some(udp.checksum);
            m.payload_len = udp_payload_len(udp.length);
            (info, m)
        },
        None => (String::new(), base),
    }
}

fn control_part(pl: &[u8], base: PacketMetadata) -> (r: (String, PacketMetadata))
    ensures
        pl@.len() >= 4 ==> r.0@ == control_text(pl@) && r.1@ == with_control(base@, pl@),
        pl@.len() < 4 ==> r.0@ == Seq::<char>::empty() && r.1@ == base@,
{
    match parse_icmp(pl) {
        Some(msg) => {
            let mut info = String::new();
            push_str(&mut info, msg.kind_name);
            push_str(&mut info, " (type=");
            push_decimal(&mut info, u8_to_u64(msg.icmp_type));
            push_str(&mut info, ", code=");
            push_decimal(&mut info, u8_to_u64(msg.code));
            push_str(&mut info, ")");
            assert(info@ =~= control_text(pl@));
            let mut label = String::new();
            push_str(&mut label, msg.kind_name);
            push_str(&mut label, " (");
            push_decimal(&mut label, u8_to_u64(msg.icmp_type));
            push_str(&mut label, ")");
            assert(label@ =~= control_label(pl@));
            let mut m = base;
            m.icmp_type = Some(label);
            m.payload_len = pl.len().saturating_sub(8);
            (info, m)
        },
        None => (String::new(), base),
    }
}

fn describe_ipv4(data: &[u8], eth: EthernetInfo, ipv4: Ipv4Info) -> (r: FrameDescription)
    requires
        has_ipv4(data@),
        from_raw_defined(data@),
        eth@ == crate::packet::ethernet_fields(data@),
        ipv4@ == crate::packet::ipv4_fields(data@.skip(14)),
    ensures
        r@ == describe(data@),
{
    proof {
        lemma_ipv4_text_skip(data@);
    }
    let ihl = header_len_byte(data[14]);
    let base = PacketMetadata {
        src_mac: eth.src_mac,
        dst_mac: eth.dst_mac,
        ethertype: String::from_str("IPv4"),
        ttl: Some(data[22]),
        ip_header_len: Some(ihl),
        src_port: None,
        dst_port: None,
        tcp_seq: None,
        tcp_ack: None,
        tcp_flags: None,
        tcp_window: None,
        udp_length: None,
        udp_checksum: None,
        icmp_type: None,
        payload_len: 0,
    };
    assert(base@ == ip_metadata(data@));
    let pl = payload_after(data, ihl);
    assert(pl@ == ip_payload(data@));
    let (info, metadata) = if ipv4._protocol == 6 {
        tcp_part(data, &ipv4, pl, base)
    } else if ipv4._protocol == 17 {
        udp_part(data, &ipv4, pl, base)
    } else if ipv4._protocol == 1 {
        control_part(pl, base)
    } else {
        let mut info = ipv4.src_ip.clone();
        push_str(&mut info, " → ");
        push_str(&mut info, ipv4.dst_ip.as_str());
        let mut m = base;
        m.payload_len = pl.len();
        (info, m)
    };
    let r = FrameDescription {
        src: ipv4.src_ip,
        dst: ipv4.dst_ip,
        protocol: String::from_str(ipv4.protocol_name),
        info,
        metadata,
    };
    assert(r@.info == ipv4_description(data@).0);
    assert(r@.metadata == ipv4_description(data@).1);
    r
}

fn describe_link(data: &[u8], eth: EthernetInfo) -> (r: FrameDescription)
    requires
        data@.len() >= 14,
        eth@ == crate::packet::ethernet_fields(data@),
    ensures
        r@.src == mac_text(data@, 6),
        r@.dst == mac_text(data@, 0),
        r@.protocol == link_label(eth.ethertype),
        r@.info == Seq::<char>::empty(),
        r@.metadata == link_metadata(data@),
{
    let label = if eth.ethertype == 0x0806 {
        String::from_str("ARP")
    } else if eth.ethertype == 0x86DD {
        String::from_str("IPv6")
    } else {
        hex4_string(eth.ethertype)
    };
    let metadata = PacketMetadata {
        src_mac: eth.src_mac.clone(),
        dst_mac: eth.dst_mac.clone(),
        ethertype: label.clone(),
        ttl: None,
        ip_header_len: None,
        src_port: None,
        dst_port: None,
        tcp_seq: None,
        tcp_ack: None,
        tcp_flags: None,
        tcp_window: None,
        udp_length: None,
        udp_checksum: None,
        icmp_type: None,
        payload_len: data.len().saturating_sub(14),
    };
    FrameDescription {
        src: eth.src_mac,
        dst: eth.dst_mac,
        protocol: label,
        info: String::new(),
        metadata,
    }
}

fn describe_frame(data: &[u8]) -> (r: FrameDescription)
    requires
        from_raw_defined(data@),
    ensures
        r@ == describe(data@),
{
    match parse_ethernet(data) {
        None => {
            FrameDescription {
                src: String::new(),
                dst: String::new(),
                protocol: String::from_str("???"),
                info: String::new(),
                metadata: PacketMetadata::default(),
            }
        },
        Some(eth) => {
            if eth.ethertype == 0x0800 && data.len() >= 34 {
                let rest = &data[14..data.len()];
                assert(rest@ =~= data@.skip(14));
                match parse_ipv4(rest) {
                    Some(ipv4) => describe_ipv4(data, eth, ipv4),
                    None => describe_link(data, eth),
                }
            } else {
                describe_link(data, eth)
            }
        },
    }
}

/// ARP and IPv6 frames are labelled by their Ethernet type and not decoded
/// further: no IP or transport field is filled, the payload is everything
/// after the Ethernet header.
pub proof fn law_arp_ipv6_labelled_only(d: Seq<u8>)
    requires
        14 <= d.len() <= usize::MAX,
        be16(d[12], d[13]) == 0x0806 || be16(d[12], d[13]) == 0x86DD,
    ensures
        describe(d).protocol == (if be16(d[12], d[13]) == 0x0806 {
            "ARP"@
        } else {
            "IPv6"@
        }),
        describe(d).metadata.ethertype == describe(d).protocol,
        describe(d).info.len() == 0,
        describe(d).metadata.ttl is None,
        describe(d).metadata.src_port is None,
        describe(d).metadata.dst_port is None,
        describe(d).metadata.payload_len == d.len() - 14,
{
}

/// The packet table and the capture log read an IPv4 frame alike: the
/// table's addresses and protocol are those of the parsed IPv4 header.
pub proof fn law_table_matches_log(d: Seq<u8>)
    requires
        has_ipv4(d),
    ensures
        describe(d).src == crate::packet::ipv4_fields(d.skip(14)).src_ip,
        describe(d).dst == crate::packet::ipv4_fields(d.skip(14)).dst_ip,
        describe(d).protocol == crate::packet::ipv4_fields(d.skip(14)).protocol_name,
        describe(d).metadata.src_mac == crate::packet::ethernet_fields(d).src_mac,
        describe(d).metadata.dst_mac == crate::packet::ethernet_fields(d).dst_mac,
{
    lemma_ipv4_text_skip(d);
}

/// A frame too short for an Ethernet header shows as `???` with nothing else.
pub proof fn law_short_frame_unknown(d: Seq<u8>)
    requires
        d.len() < 14,
    ensures
        describe(d).protocol == "???"@,
        describe(d).src.len() == 0,
        describe(d).dst.len() == 0,
        describe(d).info.len() == 0,
        describe(d).metadata == empty_metadata(),
{
}

/// For an IPv4 frame carrying a complete TCP header, the payload size is
/// what follows the TCP header: the bytes after the IP header (IHL, the low
/// nibble of byte 14, times four) less the TCP header (data offset, the high
/// nibble of its byte 12, times four), or 0 when the header claims more; the
/// ports are the header's first two big-endian pairs.
pub proof fn law_tcp_payload_after_data_offset(d: Seq<u8>)
    requires
        d.len() <= usize::MAX,
        d.len() >= 34,
        d[12] == 0x08 && d[13] == 0x00,
        d[23] == 6,
        14 + (d[14] % 16) * 4 + 20 <= d.len(),
    ensures
        ({
            let off = 14 + (d[14] % 16) * 4;
            let ip_payload = d.len() - off;
            let tcp_header = (d[off + 12] / 16) * 4;
            &&& describe(d).protocol == "TCP"@
            &&& describe(d).metadata.payload_len == (if ip_payload > tcp_header {
                ip_payload - tcp_header
            } else {
                0
            })
            &&& describe(d).metadata.src_port == Some((d[off] * 256 + d[off + 1]) as u16)
            &&& describe(d).metadata.dst_port == Some((d[off + 2] * 256 + d[off + 3]) as u16)
        }),
{
    crate::packet::lemma_be16_value(d[12], d[13]);
    let off = 14 + (d[14] % 16) * 4;
    let pl = ip_payload(d);
    assert(pl.len() == d.len() - off);
    assert(pl[12] == d[off + 12] && pl[0] == d[off] && pl[1] == d[off + 1]);
    assert(pl[2] == d[off + 2] && pl[3] == d[off + 3]);
    crate::packet::lemma_be16_value(pl[0], pl[1]);
    crate::packet::lemma_be16_value(pl[2], pl[3]);
}

/// For an IPv4 frame carrying a complete UDP header, the payload size is the
/// UDP length field (bytes 4 and 5 of the header) less the 8-byte header, or 0.
pub proof fn law_udp_payload_from_length(d: Seq<u8>)
    requires
        d.len() <= usize::MAX,
        d.len() >= 34,
        d[12] == 0x08 && d[13] == 0x00,
        d[23] == 17,
        14 + (d[14] % 16) * 4 + 8 <= d.len(),
    ensures
        ({
            let off = 14 + (d[14] % 16) * 4;
            let length = d[off + 4] * 256 + d[off + 5];
            &&& describe(d).protocol == "UDP"@
            &&& describe(d).metadata.payload_len == (if length > 8 {
                length - 8
            } else {
                0
            })
            &&& describe(d).metadata.udp_length == Some(length as u16)
        }),
{
    crate::packet::lemma_be16_value(d[12], d[13]);
    let off = 14 + (d[14] % 16) * 4;
    let pl = ip_payload(d);
    assert(pl[4] == d[off + 4] && pl[5] == d[off + 5]);
    crate::packet::lemma_be16_value(pl[4], pl[5]);
}

/// For an IPv4 frame carrying an ICMP message of at least 4 bytes, the
/// payload size is what follows its 8-byte header, or 0, and the type is
/// labelled with its number.
pub proof fn law_control_payload_after_header(d: Seq<u8>)
    requires
        d.len() <= usize::MAX,
        d.len() >= 34,
        d[12] == 0x08 && d[13] == 0x00,
        d[23] == 1,
        14 + (d[14] % 16) * 4 + 4 <= d.len(),
    ensures
        ({
            let off = 14 + (d[14] % 16) * 4;
            let rest = d.len() - off;
            &&& describe(d).protocol == "ICMP"@
            &&& describe(d).metadata.payload_len == (if rest > 8 {
                rest - 8
            } else {
                0
            })
            &&& describe(d).metadata.icmp_type == Some(
                control_message_name(d[off]) + " ("@ + dec_byte(d[off]) + ")"@,
            )
            &&& describe(d).metadata.src_port is None
        }),
{
    crate::packet::lemma_be16_value(d[12], d[13]);
    let off = 14 + (d[14] % 16) * 4;
    let pl = ip_payload(d);
    assert(pl[0] == d[off]);
}

/// A packet entry for display in the TUI
#[derive(Clone)]
pub struct PacketEntry {
    pub number: u64,
    pub timestamp: std::time::Instant,
    pub interface: String,
    pub length: usize,
    pub src: String,
    pub dst: String,
    pub protocol: String,
    pub info: String,
    pub metadata: PacketMetadata,
}

/// A packet entry as mathematical values (all but the time it was seen).
pub struct EntryView {
    pub number: u64,
    pub interface: Seq<char>,
    pub length: nat,
    pub description: DescriptionView,
}

impl View for PacketEntry {
    type V = EntryView;

    open spec fn view(&self) -> EntryView {
        EntryView {
            number: self.number,
            interface: self.interface@,
            length: self.length as nat,
            description: DescriptionView {
                src: self.src@,
                dst: self.dst@,
                protocol: self.protocol@,
                info: self.info@,
                metadata: self.metadata@,
            },
        }
    }
}

/// Whether `PacketEntry::from_raw` can decode `data`: false exactly where an
/// IPv4 header claims more bytes than the frame has.
pub fn frame_decodable(data: &[u8]) -> (ok: bool)
    ensures
        ok == from_raw_defined(data@),
{
    if data.len() >= 34 && (data[12] as u16) * 256 + (data[13] as u16) == 0x0800 {
        14 + (header_len_byte(data[14]) as usize) <= data.len()
    } else {
        true
    }
}

impl PacketEntry {
    /// Decodes a captured frame for the packet table.
    pub fn from_raw(number: u64, data: &[u8], interface: String) -> (entry: Self)
        requires
            from_raw_defined(data@),
        ensures
            entry@ == (EntryView {
                number,
                interface: interface@,
                length: data@.len(),
                description: describe(data@),
            }),
    {
        let length = data.len();
        let d = describe_frame(data);
        let entry = PacketEntry {
            number,
            timestamp: now(),
            interface,
            length,
            src: d.src,
            dst: d.dst,
            protocol: d.protocol,
            info: d.info,
            metadata: d.metadata,
        };
        assert(entry@.description == d@);
        entry
    }
}

} // verus!
