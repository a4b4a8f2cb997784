use vstd::prelude::*;

use crate::text::{dec, dec_usize, push_decimal, push_str};

verus! {

/// The character views of a sequence of strings.
pub open spec fn views(v: Seq<String>) -> Seq<Seq<char>> {
    v.map_values(|s: String| s@)
}

fn push_line(lines: &mut Vec<String>, line: String)
    ensures
        views(final(lines)@) == views(old(lines)@).push(line@),
{
    lines.push(line);
    assert(views(final(lines)@) =~= views(old(lines)@).push(line@));
}

/// `prefix` followed by `value`, as a new string.
fn labelled(prefix: &str, value: &String) -> (s: String)
    ensures
        s@ == prefix@ + value@,
{
    let mut s = String::new();
    push_str(&mut s, prefix);
    push_str(&mut s, value.as_str());
    assert(s@ =~= prefix@ + value@);
    s
}

/// `prefix`, the decimal notation of `n`, then `suffix`, as a new string.
fn labelled_number(prefix: &str, n: u64, suffix: &str) -> (s: String)
    ensures
        s@ == prefix@ + dec(n as nat) + suffix@,
{
    let mut s = String::new();
    push_str(&mut s, prefix);
    push_decimal(&mut s, n);
    push_str(&mut s, suffix);
    assert(s@ =~= prefix@ + dec(n as nat) + suffix@);
    s
}

fn labelled_u8(prefix: &str, n: u8, suffix: &str) -> (s: String)
    ensures
        s@ == prefix@ + dec(n as nat) + suffix@,
{
    labelled_number(prefix, n as u64, suffix)
}

fn labelled_u16(prefix: &str, n: u16, suffix: &str) -> (s: String)
    ensures
        s@ == prefix@ + dec(n as nat) + suffix@,
{
    labelled_number(prefix, n as u64, suffix)
}

fn labelled_u32(prefix: &str, n: u32, suffix: &str) -> (s: String)
    ensures
        s@ == prefix@ + dec(n as nat) + suffix@,
{
    labelled_number(prefix, n as u64, suffix)
}

fn labelled_usize(prefix: &str, n: usize, suffix: &str) -> (s: String)
    ensures
        s@ == prefix@ + dec(n as nat) + suffix@,
{
    labelled_number(prefix, n as u64, suffix)
}

/// Packet metadata for detail view
#[derive(Clone)]
pub struct PacketMetadata {
    // Ethernet
    pub src_mac: String,
    pub dst_mac: String,
    pub ethertype: String,
    // IP
    pub ttl: Option<u8>,
    pub ip_header_len: Option<u8>,
    // TCP specific
    pub src_port: Option<u16>,
    pub dst_port: Option<u16>,
    pub tcp_seq: Option<u32>,
    pub tcp_ack: Option<u32>,
    pub tcp_flags: Option<String>,
    pub tcp_window: Option<u16>,
    // UDP specific
    pub udp_length: Option<u16>,
    pub udp_checksum: Option<u16>,
    // ICMP specific
    pub icmp_type: Option<String>,
    // Payload
    pub payload_len: usize,
}

/// Packet metadata as mathematical values.
pub struct MetadataView {
    pub src_mac: Seq<char>,
    pub dst_mac: Seq<char>,
    pub ethertype: Seq<char>,
    pub ttl: Option<u8>,
    pub ip_header_len: Option<u8>,
    pub src_port: Option<u16>,
    pub dst_port: Option<u16>,
    pub tcp_seq: Option<u32>,
    pub tcp_ack: Option<u32>,
    pub tcp_flags: Option<Seq<char>>,
    pub tcp_window: Option<u16>,
    pub udp_length: Option<u16>,
    pub udp_checksum: Option<u16>,
    pub icmp_type: Option<Seq<char>>,
    pub payload_len: usize,
}

/// The view of an optional string.
pub open spec fn opt_view(s: Option<String>) -> Option<Seq<char>> {
    match s {
        Some(t) => Some(t@),
        None => None,
    }
}

impl View for PacketMetadata {
    type V = MetadataView;

    open spec fn view(&self) -> MetadataView {
        MetadataView {
            src_mac: self.src_mac@,
            dst_mac: self.dst_mac@,
            ethertype: self.ethertype@,
            ttl: self.ttl,
            ip_header_len: self.ip_header_len,
            src_port: self.src_port,
            dst_port: self.dst_port,
            tcp_seq: self.tcp_seq,
            tcp_ack: self.tcp_ack,
            tcp_flags: opt_view(self.tcp_flags),
            tcp_window: self.tcp_window,
            udp_length: self.udp_length,
            udp_checksum: self.udp_checksum,
            icmp_type: opt_view(self.icmp_type),
            payload_len: self.payload_len,
        }
    }
}

/// Metadata with every field empty.
pub open spec fn empty_metadata() -> MetadataView {
    MetadataView {
        src_mac: Seq::empty(),
        dst_mac: Seq::empty(),
        ethertype: Seq::empty(),
        ttl: None,
        ip_header_len: None,
        src_port: None,
        dst_port: None,
        tcp_seq: None,
        tcp_ack: None,
        tcp_flags: None,
        tcp_window: None,
        udp_length: None,
        udp_checksum: None,
        icmp_type: None,
        payload_len: 0,
    }
}

impl Default for PacketMetadata {
    fn default() -> (m: Self)
        ensures
            m@ == empty_metadata(),
    {
        PacketMetadata {
            src_mac: String::new(),
            dst_mac: String::new(),
            ethertype: String::new(),
            ttl: None,
            ip_header_len: None,
            src_port: None,
            dst_port: None,
            tcp_seq: None,
            tcp_ack: None,
            tcp_flags: None,
            tcp_window: None,
            udp_length: None,
            udp_checksum: None,
            icmp_type: None,
            payload_len: 0,
        }
    }
}

/// The single line `line` when `present`, else nothing.
pub open spec fn line_if(present: bool, line: Seq<char>) -> Seq<Seq<char>> {
    if present {
        seq![line]
    } else {
        Seq::empty()
    }
}

/// Ethernet section of the detail view.
pub open spec fn ethernet_lines(m: MetadataView) -> Seq<Seq<char>> {
    seq![
        "── Ethernet ──"@,
        "  Src MAC: "@ + m.src_mac,
        "  Dst MAC: "@ + m.dst_mac,
        "  Type: "@ + m.ethertype,
    ]
}

/// IP section of the detail view: present when the TTL is known.
pub open spec fn ip_lines(m: MetadataView) -> Seq<Seq<char>> {
    match m.ttl {
        Some(ttl) => seq!["── IP ──"@, ttl_line(ttl)] + match m.ip_header_len {
            Some(h) => seq!["  Header Len: "@ + dec(h as nat) + " bytes"@],
            None => Seq::empty(),
        },
        None => Seq::empty(),
    }
}

/// `  Ports: src → dst`
pub open spec fn ports_line(src: u16, dst: u16) -> Seq<char> {
    "  Ports: "@ + dec(src as nat) + " → "@ + dec(dst as nat)
}

/// `  Seq: n` when a sequence number is known.
pub open spec fn seq_part(m: MetadataView) -> Seq<Seq<char>> {
    line_if(m.tcp_seq is Some, "  Seq: "@ + dec(m.tcp_seq.unwrap() as nat))
}

/// `  Ack: n` when an acknowledgement number is known.
pub open spec fn ack_part(m: MetadataView) -> Seq<Seq<char>> {
    line_if(m.tcp_ack is Some, "  Ack: "@ + dec(m.tcp_ack.unwrap() as nat))
}

/// `  Flags: [..]` when the flags are known.
pub open spec fn flags_part(m: MetadataView) -> Seq<Seq<char>> {
    line_if(m.tcp_flags is Some, "  Flags: ["@ + m.tcp_flags.unwrap() + "]"@)
}

/// `  Window: n` when the window is known.
pub open spec fn window_part(m: MetadataView) -> Seq<Seq<char>> {
    line_if(m.tcp_window is Some, "  Window: "@ + dec(m.tcp_window.unwrap() as nat))
}

/// `  TTL: n`
pub open spec fn ttl_line(ttl: u8) -> Seq<char> {
    "  TTL: "@ + dec(ttl as nat)
}

/// TCP section of the detail view.
pub open spec fn tcp_lines(m: MetadataView, src: u16, dst: u16) -> Seq<Seq<char>> {
    seq!["── TCP ──"@, ports_line(src, dst)] + seq_part(m) + ack_part(m) + flags_part(m)
        + window_part(m)
}

/// UDP section of the detail view.
pub open spec fn udp_lines(m: MetadataView, src: u16, dst: u16) -> Seq<Seq<char>> {
    seq!["── UDP ──"@, ports_line(src, dst)] + line_if(
        m.udp_length is Some,
        "  Length: "@ + dec(m.udp_length.unwrap() as nat),
    )
}

/// Transport section: TCP when a sequence number is known, else UDP when a
/// length is known; only when both ports are known.
pub open spec fn transport_lines(m: MetadataView) -> Seq<Seq<char>> {
    match (m.src_port, m.dst_port) {
        (Some(src), Some(dst)) => if m.tcp_seq is Some {
            tcp_lines(m, src, dst)
        } else if m.udp_length is Some {
            udp_lines(m, src, dst)
        } else {
            Seq::empty()
        },
        _ => Seq::empty(),
    }
}

/// ICMP section of the detail view.
pub open spec fn icmp_lines(m: MetadataView) -> Seq<Seq<char>> {
    match m.icmp_type {
        Some(t) => seq!["── ICMP ──"@, "  Type: "@ + t],
        None => Seq::empty(),
    }
}

/// Payload section of the detail view.
pub open spec fn payload_lines(m: MetadataView) -> Seq<Seq<char>> {
    seq!["── Payload ──"@, "  Size: "@ + dec(m.payload_len as nat) + " bytes"@]
}

/// All lines of the detail view, in order.
pub open spec fn metadata_lines(m: MetadataView) -> Seq<Seq<char>> {
    ethernet_lines(m) + ip_lines(m) + transport_lines(m) + icmp_lines(m) + payload_lines(m)
}

fn push_ethernet_lines(lines: &mut Vec<String>, meta: &PacketMetadata)
    ensures
        views(final(lines)@) == views(old(lines)@) + ethernet_lines(meta@),
{
    push_line(lines, labelled("── Ethernet ──", &String::new()));
    push_line(lines, labelled("  Src MAC: ", &meta.src_mac));
    push_line(lines, labelled("  Dst MAC: ", &meta.dst_mac));
    push_line(lines, labelled("  Type: ", &meta.ethertype));
    assert(views(final(lines)@) =~= views(old(lines)@) + ethernet_lines(meta@));
}

fn push_ip_lines(lines: &mut Vec<String>, meta: &PacketMetadata)
    ensures
        views(final(lines)@) == views(old(lines)@) + ip_lines(meta@),
{
    proof {
        reveal_strlit("");
    }
    if let Some(ttl) = meta.ttl {
        push_line(lines, labelled("── IP ──", &String::new()));
        push_line(lines, labelled_u8("  TTL: ", ttl, ""));
        assert(views(lines@) =~= views(old(lines)@) + seq!["── IP ──"@, ttl_line(ttl)]);
        if let Some(hlen) = meta.ip_header_len {
            push_line(lines, labelled_u8("  Header Len: ", hlen, " bytes"));
        }
    }
    assert(views(final(lines)@) =~= views(old(lines)@) + ip_lines(meta@));
}

fn push_tcp_lines(lines: &mut Vec<String>, meta: &PacketMetadata, src: u16, dst: u16)
    ensures
        views(final(lines)@) == views(old(lines)@) + tcp_lines(meta@, src, dst),
{
    proof {
        reveal_strlit("");
    }
    let ghost m = meta@;
    push_line(lines, labelled("── TCP ──", &String::new()));
    push_line(lines, ports_text(src, dst));
    let ghost l0 = views(lines@);
    assert(l0 =~= views(old(lines)@) + seq!["── TCP ──"@, ports_line(src, dst)]);
    if let Some(seq) = meta.tcp_seq {
        push_line(lines, labelled_u32("  Seq: ", seq, ""));
    }
    let ghost l1 = views(lines@);
    assert(l1 =~= l0 + seq_part(m));
    if let Some(ack) = meta.tcp_ack {
        push_line(lines, labelled_u32("  Ack: ", ack, ""));
    }
    let ghost l2 = views(lines@);
    assert(l2 =~= l1 + ack_part(m));
    if let Some(ref flags) = meta.tcp_flags {
        let mut line = labelled("  Flags: [", flags);
        push_str(&mut line, "]");
        push_line(lines, line);
    }
    let ghost l3 = views(lines@);
    assert(l3 =~= l2 + flags_part(m));
    if let Some(win) = meta.tcp_window {
        push_line(lines, labelled_u16("  Window: ", win, ""));
    }
    assert(views(lines@) =~= l3 + window_part(m));
    assert(views(final(lines)@) =~= views(old(lines)@) + tcp_lines(m, src, dst));
}

fn push_udp_lines(lines: &mut Vec<String>, meta: &PacketMetadata, src: u16, dst: u16)
    ensures
        views(final(lines)@) == views(old(lines)@) + udp_lines(meta@, src, dst),
{
    proof {
        reveal_strlit("");
    }
    push_line(lines, labelled("── UDP ──", &String::new()));
    push_line(lines, ports_text(src, dst));
    let ghost l0 = views(lines@);
    assert(l0 =~= views(old(lines)@) + seq!["── UDP ──"@, ports_line(src, dst)]);
    if let Some(len) = meta.udp_length {
        push_line(lines, labelled_u16("  Length: ", len, ""));
    }
    assert(views(final(lines)@) =~= views(old(lines)@) + udp_lines(meta@, src, dst));
}

fn push_transport_lines(lines: &mut Vec<String>, meta: &PacketMetadata)
    ensures
        views(final(lines)@) == views(old(lines)@) + transport_lines(meta@),
{
    if let (Some(src), Some(dst)) = (meta.src_port, meta.dst_port) {
        if meta.tcp_seq.is_some() {
            push_tcp_lines(lines, meta, src, dst);
        } else if meta.udp_length.is_some() {
            push_udp_lines(lines, meta, src, dst);
        }
    }
    assert(views(final(lines)@) =~= views(old(lines)@) + transport_lines(meta@));
}

fn push_echo_lines(lines: &mut Vec<String>, meta: &PacketMetadata)
    ensures
        views(final(lines)@) == views(old(lines)@) + icmp_lines(meta@),
{
    if let Some(ref kind) = meta.icmp_type {
        push_line(lines, labelled("── ICMP ──", &String::new()));
        push_line(lines, labelled("  Type: ", kind));
    }
    assert(views(final(lines)@) =~= views(old(lines)@) + icmp_lines(meta@));
}

fn push_payload_lines(lines: &mut Vec<String>, meta: &PacketMetadata)
    ensures
        views(final(lines)@) == views(old(lines)@) + payload_lines(meta@),
{
    push_line(lines, labelled("── Payload ──", &String::new()));
    push_line(lines, labelled_usize("  Size: ", meta.payload_len, " bytes"));
    assert(views(final(lines)@) =~= views(old(lines)@) + payload_lines(meta@));
}

impl PacketMetadata {
    /// Format metadata as lines for display
    pub fn to_lines(&self) -> (lines: Vec<String>)
        ensures
            views(lines@) == metadata_lines(self@),
    {
        let mut lines: Vec<String> = Vec::new();
        assert(views(lines@) =~= Seq::empty());
        push_ethernet_lines(&mut lines, self);
        push_ip_lines(&mut lines, self);
        push_transport_lines(&mut lines, self);
        push_echo_lines(&mut lines, self);
        push_payload_lines(&mut lines, self);
        assert(views(lines@) =~= metadata_lines(self@));
        lines
    }
}

fn ports_text(src: u16, dst: u16) -> (s: String)
    ensures
        s@ == ports_line(src, dst),
{
    let mut s = labelled_number("  Ports: ", src as u64, " → ");
    push_decimal(&mut s, dst as u64);
    assert(s@ =~= ports_line(src, dst));
    s
}

/// The detail panel always opens with the four Ethernet lines and closes
/// with the payload section; a known ICMP type adds the ICMP heading and the
/// type line right before the payload section, whatever the ports are.
pub proof fn law_control_section_before_payload(m: MetadataView)
    ensures
        ({
            let lines = metadata_lines(m);
            let n = lines.len();
            &&& n >= 6
            &&& lines[0] == "── Ethernet ──"@
            &&& lines[1] == "  Src MAC: "@ + m.src_mac
            &&& lines[2] == "  Dst MAC: "@ + m.dst_mac
            &&& lines[3] == "  Type: "@ + m.ethertype
            &&& lines[n - 2] == "── Payload ──"@
            &&& lines[n - 1] == "  Size: "@ + dec_usize(m.payload_len) + " bytes"@
            &&& (m.icmp_type matches Some(t) ==> n >= 8 && lines[n - 4] == "── ICMP ──"@
                && lines[n - 3] == "  Type: "@ + t)
        }),
{
    let lines = metadata_lines(m);
    let head = ethernet_lines(m) + ip_lines(m) + transport_lines(m);
    assert(lines == head + icmp_lines(m) + payload_lines(m));
    assert(head.len() >= 4);
    assert(head[0] == "── Ethernet ──"@ && head[3] == "  Type: "@ + m.ethertype);
}

} // verus!
