use vstd::prelude::*;

use crate::text::{dec, hex2, push_decimal, push_hex2};

verus! {

/// Captured packet with its raw bytes.
#[derive(Debug, Clone)]
pub struct CapturedPacket {
    /// Raw packet bytes
    pub data: Vec<u8>,
}

impl CapturedPacket {
    /// Wraps the bytes of a captured frame; the interface name is not kept.
    pub fn new(data: Vec<u8>, _interface: String) -> (packet: Self)
        ensures
            packet.data@ == data@,
    {
        Self { data }
    }

    /// Number of bytes in the packet.
    pub fn len(&self) -> (n: usize)
        ensures
            n == self.data@.len(),
    {
        self.data.len()
    }
}

/// Big-endian 16-bit value of two bytes.
pub open spec fn be16(hi: u8, lo: u8) -> u16 {
    (hi * 256 + lo) as u16
}

/// Big-endian 32-bit value of four bytes.
pub open spec fn be32(b0: u8, b1: u8, b2: u8, b3: u8) -> u32 {
    (b0 * 16777216 + b1 * 65536 + b2 * 256 + b3) as u32
}

/// `aa:bb:cc:dd:ee:ff` for the six bytes of `b` starting at `start`.
pub open spec fn mac_text(b: Seq<u8>, start: int) -> Seq<char> {
    hex2(b[start]) + seq![':'] + hex2(b[start + 1]) + seq![':'] + hex2(b[start + 2]) + seq![':']
        + hex2(b[start + 3]) + seq![':'] + hex2(b[start + 4]) + seq![':'] + hex2(b[start + 5])
}

/// Dotted decimal notation for the four bytes of `b` starting at `start`.
pub open spec fn ipv4_text(b: Seq<u8>, start: int) -> Seq<char> {
    dec(b[start] as nat) + seq!['.'] + dec(b[start + 1] as nat) + seq!['.'] + dec(
        b[start + 2] as nat,
    ) + seq!['.'] + dec(b[start + 3] as nat)
}

/// Parsed Ethernet frame info
#[derive(Debug)]
pub struct EthernetInfo {
    pub src_mac: String,
    pub dst_mac: String,
    pub ethertype: u16,
}

/// What an Ethernet header holds, as mathematical values.
pub struct EthernetView {
    pub src_mac: Seq<char>,
    pub dst_mac: Seq<char>,
    pub ethertype: u16,
}

impl View for EthernetInfo {
    type V = EthernetView;

    open spec fn view(&self) -> EthernetView {
        EthernetView { src_mac: self.src_mac@, dst_mac: self.dst_mac@, ethertype: self.ethertype }
    }
}

/// The Ethernet header fields of a frame of at least 14 bytes.
pub open spec fn ethernet_fields(data: Seq<u8>) -> EthernetView {
    EthernetView {
        src_mac: mac_text(data, 6),
        dst_mac: mac_text(data, 0),
        ethertype: be16(data[12], data[13]),
    }
}

/// What `parse_ethernet` gives for `data`: `None` below 14 bytes.
pub open spec fn ethernet_parsed(info: Option<EthernetInfo>, data: Seq<u8>) -> bool {
    match info {
        None => data.len() < 14,
        Some(e) => data.len() >= 14 && e@ == ethernet_fields(data),
    }
}

fn mac_string(data: &[u8], start: usize) -> (s: String)
    requires
        start + 6 <= data@.len(),
    ensures
        s@ == mac_text(data@, start as int),
{
    let mut s = String::new();
    push_hex2(&mut s, data[start]);
    s.push(':');
    push_hex2(&mut s, data[start + 1]);
    s.push(':');
    push_hex2(&mut s, data[start + 2]);
    s.push(':');
    push_hex2(&mut s, data[start + 3]);
    s.push(':');
    push_hex2(&mut s, data[start + 4]);
    s.push(':');
    push_hex2(&mut s, data[start + 5]);
    assert(s@ =~= mac_text(data@, start as int));
    s
}

fn ipv4_string(data: &[u8], start: usize) -> (s: String)
    requires
        start + 4 <= data@.len(),
    ensures
        s@ == ipv4_text(data@, start as int),
{
    let mut s = String::new();
    push_decimal(&mut s, data[start] as u64);
    s.push('.');
    push_decimal(&mut s, data[start + 1] as u64);
    s.push('.');
    push_decimal(&mut s, data[start + 2] as u64);
    s.push('.');
    push_decimal(&mut s, data[start + 3] as u64);
    assert(s@ =~= ipv4_text(data@, start as int));
    s
}

fn read_be16(data: &[u8], at: usize) -> (v: u16)
    requires
        at + 2 <= data@.len(),
    ensures
        v == be16(data@[at as int], data@[at + 1]),
{
    (data[at] as u16) * 256 + (data[at + 1] as u16)
}

fn read_be32(data: &[u8], at: usize) -> (v: u32)
    requires
        at + 4 <= data@.len(),
    ensures
        v == be32(data@[at as int], data@[at + 1], data@[at + 2], data@[at + 3]),
{
    (data[at] as u32) * 16777216 + (data[at + 1] as u32) * 65536 + (data[at + 2] as u32) * 256
        + (data[at + 3] as u32)
}

/// Parse Ethernet header from raw bytes
pub fn parse_ethernet(data: &[u8]) -> (info: Option<EthernetInfo>)
    ensures
        ethernet_parsed(info, data@),
{
    if data.len() < 14 {
        return None;
    }
    let dst_mac = mac_string(data, 0);
    let src_mac = mac_string(data, 6);
    let ethertype = read_be16(data, 12);
    Some(EthernetInfo { src_mac, dst_mac, ethertype })
}

/// Name of an IP protocol number.
pub open spec fn protocol_name_of(protocol: u8) -> Seq<char> {
    if protocol == 1 {
        "ICMP"@
    } else if protocol == 6 {
        "TCP"@
    } else if protocol == 17 {
        "UDP"@
    } else if protocol == 47 {
        "GRE"@
    } else if protocol == 50 {
        "ESP"@
    } else if protocol == 51 {
        "AH"@
    } else if protocol == 58 {
        "ICMPv6"@
    } else {
        "OTHER"@
    }
}

/// Parsed IPv4 packet info
#[derive(Debug)]
pub struct Ipv4Info {
    pub src_ip: String,
    pub dst_ip: String,
    pub _protocol: u8,
    pub protocol_name: &'static str,
}

/// What an IPv4 header holds, as mathematical values.
pub struct Ipv4View {
    pub src_ip: Seq<char>,
    pub dst_ip: Seq<char>,
    pub protocol: u8,
    pub protocol_name: Seq<char>,
}

impl View for Ipv4Info {
    type V = Ipv4View;

    open spec fn view(&self) -> Ipv4View {
        Ipv4View {
            src_ip: self.src_ip@,
            dst_ip: self.dst_ip@,
            protocol: self._protocol,
            protocol_name: self.protocol_name@,
        }
    }
}

/// The IPv4 header fields of a header of at least 20 bytes.
pub open spec fn ipv4_fields(data: Seq<u8>) -> Ipv4View {
    Ipv4View {
        src_ip: ipv4_text(data, 12),
        dst_ip: ipv4_text(data, 16),
        protocol: data[9],
        protocol_name: protocol_name_of(data[9]),
    }
}

/// What `parse_ipv4` gives for `data`: `None` below 20 bytes.
pub open spec fn ipv4_parsed(info: Option<Ipv4Info>, data: Seq<u8>) -> bool {
    match info {
        None => data.len() < 20,
        Some(i) => data.len() >= 20 && i@ == ipv4_fields(data),
    }
}

fn protocol_name(protocol: u8) -> (name: &'static str)
    ensures
        name@ == protocol_name_of(protocol),
{
    match protocol {
        1 => "ICMP",
        6 => "TCP",
        17 => "UDP",
        47 => "GRE",
        50 => "ESP",
        51 => "AH",
        58 => "ICMPv6",
        _ => "OTHER",
    }
}

/// Parse IPv4 header from raw bytes (starting after Ethernet header)
pub fn parse_ipv4(data: &[u8]) -> (info: Option<Ipv4Info>)
    ensures
        ipv4_parsed(info, data@),
{
    if data.len() < 20 {
        return None;
    }
    let src_ip = ipv4_string(data, 12);
    let dst_ip = ipv4_string(data, 16);
    let protocol = data[9];
    let protocol_name = protocol_name(protocol);
    Some(Ipv4Info { src_ip, dst_ip, _protocol: protocol, protocol_name })
}

/// TCP flag byte (FIN, SYN, RST, PSH, ACK, URG, ECE, CWR from the low bit up).
#[derive(Debug, Clone, Copy)]
pub struct TcpFlags {
    pub bits: u8,
}

/// Appends `name` to the space-separated list `acc` when the flag is set.
pub open spec fn with_flag(acc: Seq<char>, set: bool, name: Seq<char>) -> Seq<char> {
    if !set {
        acc
    } else if acc.len() == 0 {
        name
    } else {
        acc + seq![' '] + name
    }
}

/// Names of the set flags, low bit first, separated by single spaces.
pub open spec fn flags_text(bits: u8) -> Seq<char> {
    let a = with_flag(Seq::empty(), bits & 0x01 != 0, "FIN"@);
    let b = with_flag(a, bits & 0x02 != 0, "SYN"@);
    let c = with_flag(b, bits & 0x04 != 0, "RST"@);
    let d = with_flag(c, bits & 0x08 != 0, "PSH"@);
    let e = with_flag(d, bits & 0x10 != 0, "ACK"@);
    let f = with_flag(e, bits & 0x20 != 0, "URG"@);
    let g = with_flag(f, bits & 0x40 != 0, "ECE"@);
    with_flag(g, bits & 0x80 != 0, "CWR"@)
}

fn add_flag(acc: &mut String, set: bool, name: &str)
    ensures
        final(acc)@ == with_flag(old(acc)@, set, name@),
{
    if set {
        if acc.as_str().is_empty() {
            acc.append(name);
        } else {
            acc.push(' ');
            acc.append(name);
        }
    }
    assert(final(acc)@ =~= with_flag(old(acc)@, set, name@));
}

impl TcpFlags {
    /// Names of the set flags, e.g. `SYN ACK`.
    pub fn to_string(&self) -> (s: String)
        ensures
            s@ == flags_text(self.bits),
    {
        let b = self.bits;
        let mut s = String::new();
        add_flag(&mut s, b & 0x01 != 0, "FIN");
        add_flag(&mut s, b & 0x02 != 0, "SYN");
        add_flag(&mut s, b & 0x04 != 0, "RST");
        add_flag(&mut s, b & 0x08 != 0, "PSH");
        add_flag(&mut s, b & 0x10 != 0, "ACK");
        add_flag(&mut s, b & 0x20 != 0, "URG");
        add_flag(&mut s, b & 0x40 != 0, "ECE");
        add_flag(&mut s, b & 0x80 != 0, "CWR");
        s
    }
}

/// Parsed TCP header info
#[derive(Debug, Clone, Copy)]
pub struct TcpInfo {
    pub src_port: u16,
    pub dst_port: u16,
    pub seq_num: u32,
    pub ack_num: u32,
    /// Header length in bytes (data offset times four)
    pub header_len: u8,
    pub flags: TcpFlags,
    pub window: u16,
}

/// The TCP header fields of a segment of at least 20 bytes.
pub open spec fn tcp_fields_match(t: TcpInfo, data: Seq<u8>) -> bool {
    &&& t.src_port == be16(data[0], data[1])
    &&& t.dst_port == be16(data[2], data[3])
    &&& t.seq_num == be32(data[4], data[5], data[6], data[7])
    &&& t.ack_num == be32(data[8], data[9], data[10], data[11])
    &&& t.header_len == (data[12] / 16) * 4
    &&& t.flags.bits == data[13]
    &&& t.window == be16(data[14], data[15])
}

/// Parse a TCP header (starting after the IP header)
pub fn parse_tcp(data: &[u8]) -> (info: Option<TcpInfo>)
    ensures
        match info {
            None => data@.len() < 20,
            Some(t) => data@.len() >= 20 && tcp_fields_match(t, data@),
        },
{
    if data.len() < 20 {
        return None;
    }
    Some(
        TcpInfo {
            src_port: read_be16(data, 0),
            dst_port: read_be16(data, 2),
            seq_num: read_be32(data, 4),
            ack_num: read_be32(data, 8),
            header_len: (data[12] / 16) * 4,
            flags: TcpFlags { bits: data[13] },
            window: read_be16(data, 14),
        },
    )
}

/// Parsed UDP header info
#[derive(Debug, Clone, Copy)]
pub struct UdpInfo {
    pub src_port: u16,
    pub dst_port: u16,
    pub length: u16,
    pub checksum: u16,
}

/// The UDP header fields of a datagram of at least 8 bytes.
pub open spec fn udp_fields_match(u: UdpInfo, data: Seq<u8>) -> bool {
    &&& u.src_port == be16(data[0], data[1])
    &&& u.dst_port == be16(data[2], data[3])
    &&& u.length == be16(data[4], data[5])
    &&& u.checksum == be16(data[6], data[7])
}

/// Parse a UDP header (starting after the IP header)
pub fn parse_udp(data: &[u8]) -> (info: Option<UdpInfo>)
    ensures
        match info {
            None => data@.len() < 8,
            Some(u) => data@.len() >= 8 && udp_fields_match(u, data@),
        },
{
    if data.len() < 8 {
        return None;
    }
    Some(
        UdpInfo {
            src_port: read_be16(data, 0),
            dst_port: read_be16(data, 2),
            length: read_be16(data, 4),
            checksum: read_be16(data, 6),
        },
    )
}

/// Name of an ICMP message type.
pub open spec fn control_message_name(t: u8) -> Seq<char> {
    if t == 0 {
        "Echo Reply"@
    } else if t == 3 {
        "Destination Unreachable"@
    } else if t == 5 {
        "Redirect"@
    } else if t == 8 {
        "Echo Request"@
    } else if t == 11 {
        "Time Exceeded"@
    } else if t == 12 {
        "Parameter Problem"@
    } else {
        "Other"@
    }
}

fn control_name(t: u8) -> (name: &'static str)
    ensures
        name@ == control_message_name(t),
{
    match t {
        0 => "Echo Reply",
        3 => "Destination Unreachable",
        5 => "Redirect",
        8 => "Echo Request",
        11 => "Time Exceeded",
        12 => "Parameter Problem",
        _ => "Other",
    }
}

/// Parsed ICMP header info
#[derive(Debug, Clone, Copy)]
pub struct IcmpInfo {
    pub icmp_type: u8,
    pub code: u8,
    pub kind_name: &'static str,
}

/// Parse an ICMP header (starting after the IP header): type, code, checksum.
pub fn parse_icmp(data: &[u8]) -> (info: Option<IcmpInfo>)
    ensures
        match info {
            None => data@.len() < 4,
            Some(i) => data@.len() >= 4 && i.icmp_type == data@[0] && i.code == data@[1]
                && i.kind_name@ == control_message_name(data@[0]),
        },
{
    if data.len() < 4 {
        return None;
    }
    Some(IcmpInfo { icmp_type: data[0], code: data[1], kind_name: control_name(data[0]) })
}

/// Numbers the captured packets, from 1 upwards.
pub struct PacketCounter {
    count: u64,
}

impl View for PacketCounter {
    type V = nat;

    closed spec fn view(&self) -> nat {
        self.count as nat
    }
}

impl PacketCounter {
    /// A counter that has numbered no packet yet.
    pub fn new() -> (c: Self)
        ensures
            c@ == 0,
    {
        PacketCounter { count: 0 }
    }

    /// How many packets have been numbered.
    pub fn value(&self) -> (n: u64)
        ensures
            n == self@,
    {
        self.count
    }
}

/// Get the next packet number
pub fn next_packet_number(counter: &mut PacketCounter) -> (n: u64)
    requires
        old(counter)@ < u64::MAX,
    ensures
        n == old(counter)@ + 1,
        final(counter)@ == n,
        final(counter)@ == count_after(old(counter)@, 1),
        seq![n as nat] == numbers_handed_out(old(counter)@, 1),
{
    counter.count = counter.count + 1;
    assert(count_after(old(counter)@, 0) == old(counter)@);
    assert(numbers_handed_out(old(counter)@, 0) =~= Seq::<nat>::empty());
    assert(numbers_handed_out(old(counter)@, 1) =~= seq![counter.count as nat]);
    counter.count
}

/// The count after `k` successive calls of `next_packet_number` from count
/// `c`: each call adds one.
pub open spec fn count_after(c: nat, k: nat) -> nat
    decreases k,
{
    if k == 0 {
        c
    } else {
        count_after(c, (k - 1) as nat) + 1
    }
}

/// The numbers that `k` successive calls of `next_packet_number` hand out
/// from count `c`, in call order: each call returns the count before it plus
/// one.
pub open spec fn numbers_handed_out(c: nat, k: nat) -> Seq<nat>
    decreases k,
{
    if k == 0 {
        Seq::empty()
    } else {
        numbers_handed_out(c, (k - 1) as nat).push(count_after(c, (k - 1) as nat) + 1)
    }
}

/// Successive calls of `next_packet_number` number packets consecutively:
/// from count `c`, `k` calls (each allowed, as the count stays below the
/// largest `u64`) hand out exactly `c + 1` to `c + k`, in increasing order,
/// no number twice, and leave the count at `c + k`.
pub proof fn law_consecutive_numbers(c: nat, k: nat)
    requires
        c + k <= u64::MAX,
    ensures
        forall|i: nat| i < k ==> #[trigger] count_after(c, i) < u64::MAX,
        count_after(c, k) == c + k,
        numbers_handed_out(c, k).len() == k,
        forall|i: int| 0 <= i < k ==> #[trigger] numbers_handed_out(c, k)[i] == c + 1 + i,
        forall|i: int, j: int|
            0 <= i < j < k ==> numbers_handed_out(c, k)[i] < numbers_handed_out(c, k)[j],
        numbers_handed_out(c, k).no_duplicates(),
        numbers_handed_out(c, k).to_set() == Set::new(|n: nat| c + 1 <= n <= c + k),
    decreases k,
{
    lemma_count_after(c, k);
    if k > 0 {
        law_consecutive_numbers(c, (k - 1) as nat);
    }
    let s = numbers_handed_out(c, k);
    assert forall|i: nat| i < k implies #[trigger] count_after(c, i) < u64::MAX by {
        lemma_count_after(c, i);
    }
    assert forall|i: int| 0 <= i < k implies #[trigger] s[i] == c + 1 + i by {
        if i < k - 1 {
            assert(s[i] == numbers_handed_out(c, (k - 1) as nat)[i]);
        } else {
            lemma_count_after(c, (k - 1) as nat);
        }
    }
    assert(s.to_set() =~= Set::new(|n: nat| c + 1 <= n <= c + k)) by {
        assert forall|n: nat| s.to_set().contains(n) implies c + 1 <= n <= c + k by {
            let i = choose|i: int| 0 <= i < s.len() && s[i] == n;
            assert(s[i] == c + 1 + i);
        }
        assert forall|n: nat| c + 1 <= n <= c + k implies s.to_set().contains(n) by {
            let i = n - c - 1;
            assert(s[i] == n);
        }
    }
}

proof fn lemma_count_after(c: nat, k: nat)
    ensures
        count_after(c, k) == c + k,
    decreases k,
{
    if k > 0 {
        lemma_count_after(c, (k - 1) as nat);
    }
}

/// What a captured frame turned out to be, for the capture log.
#[derive(Debug)]
pub enum FrameSummary {
    /// Fewer than 14 bytes: logged as a warning.
    TooSmall,
    /// The Ethernet header could not be read: logged as a warning.
    EthernetUnparsed,
    /// An IPv4 packet: logged at info level.
    Ipv4 { ethernet: EthernetInfo, ipv4: Ipv4Info },
    /// Any other Ethernet frame: logged at debug level.
    Ethernet { ethernet: EthernetInfo },
}

/// What the log says of a frame of `len` bytes whose bytes are `data`.
pub open spec fn frame_summarized(f: FrameSummary, data: Seq<u8>, len: int) -> bool {
    if len < 14 {
        f is TooSmall
    } else if data.len() < 14 {
        f is EthernetUnparsed
    } else if be16(data[12], data[13]) == 0x0800 && len >= 34 && data.len() >= 34 {
        f matches FrameSummary::Ipv4 { ethernet, ipv4 } && ethernet@ == ethernet_fields(data)
            && ipv4@ == ipv4_fields(data.skip(14))
    } else {
        f matches FrameSummary::Ethernet { ethernet } && ethernet@ == ethernet_fields(data)
    }
}

/// `be16` is the big-endian value of its two bytes.
pub proof fn lemma_be16_value(hi: u8, lo: u8)
    ensures
        be16(hi, lo) == hi * 256 + lo,
        be16(hi, lo) == 0x0800 <==> (hi == 0x08 && lo == 0x00),
{
}

/// Only a frame whose Ethernet type bytes (12 and 13) are `08 00` is logged
/// as IPv4, and then only with at least 34 bytes; a frame with a complete
/// Ethernet header of any other type is logged as a plain Ethernet frame,
/// with that type.
pub proof fn law_ipv4_summary_needs_ipv4_type(f: FrameSummary, d: Seq<u8>, len: int)
    requires
        frame_summarized(f, d, len),
    ensures
        f is Ipv4 ==> d.len() >= 34 && len >= 34 && d[12] == 0x08 && d[13] == 0x00,
        (len >= 14 && d.len() >= 14 && !(d[12] == 0x08 && d[13] == 0x00)) ==> f is Ethernet,
        f matches FrameSummary::Ethernet { ethernet } ==> ethernet.ethertype == d[12] * 256
            + d[13],
        len < 14 <==> f is TooSmall,
{
    if d.len() >= 14 {
        lemma_be16_value(d[12], d[13]);
    }
}

fn summarize_frame(data: &[u8], len: usize) -> (f: FrameSummary)
    ensures
        frame_summarized(f, data@, len as int),
{
    if len < 14 {
        return FrameSummary::TooSmall;
    }
    let eth = match parse_ethernet(data) {
        Some(eth) => eth,
        None => return FrameSummary::EthernetUnparsed,
    };
    if eth.ethertype == 0x0800 && len >= 34 {
        let rest = &data[14..data.len()];
        assert(rest@ =~= data@.skip(14));
        if let Some(ipv4) = parse_ipv4(rest) {
            return FrameSummary::Ipv4 { ethernet: eth, ipv4 };
        }
    }
    FrameSummary::Ethernet { ethernet: eth }
}

/// One line of the capture log: the packet's number, its length, the
/// interface index where the raw socket reports one, and what it holds.
#[derive(Debug)]
pub struct PacketReport {
    pub packet: u64,
    pub len: usize,
    pub interface: Option<i32>,
    pub frame: FrameSummary,
}

/// Parsing a captured packet from the interface loop: numbers it and
/// describes what the log records of it.
pub fn handle_packet(counter: &mut PacketCounter, packet: CapturedPacket) -> (report: PacketReport)
    requires
        old(counter)@ < u64::MAX,
    ensures
        final(counter)@ == old(counter)@ + 1,
        report.packet == final(counter)@,
        report.len == packet.data@.len(),
        report.interface is None,
        frame_summarized(report.frame, packet.data@, packet.data@.len() as int),
{
    let packet_num = next_packet_number(counter);
    let len = packet.len();
    let frame = summarize_frame(packet.data.as_slice(), len);
    PacketReport { packet: packet_num, len, interface: None, frame }
}

/// Log packet info for raw socket capture: describes what the log records of
/// the `len` received bytes `data` on interface `ifindex`.
pub fn log_packet_info(data: &[u8], len: usize, ifindex: i32, packet_count: u64) -> (report:
    PacketReport)
    ensures
        report.packet == packet_count,
        report.len == len,
        report.interface == Some(ifindex),
        frame_summarized(report.frame, data@, len as int),
{
    let frame = summarize_frame(data, len);
    PacketReport { packet: packet_count, len, interface: Some(ifindex), frame }
}

} // verus!
