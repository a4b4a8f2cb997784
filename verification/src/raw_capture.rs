use vstd::prelude::*;

use crate::entry::{describe, from_raw_defined, EntryView, PacketEntry};
use crate::packet::{frame_summarized, log_packet_info, next_packet_number, PacketCounter, PacketReport};

verus! {

/// The interface index to bind the raw socket to: the named interface's
/// index when the system knows it, else 0 (all interfaces).
pub open spec fn bind_index_of(named: bool, found: Option<i32>) -> i32 {
    if named {
        match found {
            Some(i) => i,
            None => 0,
        }
    } else {
        0
    }
}

/// Bind to interface (0 = all interfaces): `found` is the system's index of
/// the named interface, looked up only when one is named.
pub fn resolve_bind_index(interface: &Option<String>, found: Option<i32>) -> (idx: i32)
    ensures
        idx == bind_index_of(interface is Some, found),
{
    match interface {
        Some(_) => match found {
            Some(i) => i,
            None => 0,
        },
        None => 0,
    }
}

/// The interface name shown for raw captures: the named one, else `all`.
pub fn interface_label(interface: &Option<String>) -> (name: String)
    ensures
        name@ == match interface {
            Some(n) => n@,
            None => "all"@,
        },
{
    match interface {
        Some(n) => n.clone(),
        None => String::from_str("all"),
    }
}

/// What the raw capture loop does with a received packet.
pub enum RawAction {
    /// Send this entry to the terminal viewer.
    Display(PacketEntry),
    /// Log this report.
    Log(PacketReport),
}

/// Raw socket capture, one received packet of `data` on interface `ifindex`:
/// numbers it, then decodes it for the viewer (shown under `iface_name`) or
/// describes it for the log.
pub fn raw_packet_step(
    counter: &mut PacketCounter,
    data: &[u8],
    ifindex: i32,
    to_tui: bool,
    iface_name: &String,
) -> (action: RawAction)
    requires
        old(counter)@ < u64::MAX,
        to_tui ==> from_raw_defined(data@),
    ensures
        final(counter)@ == old(counter)@ + 1,
        match action {
            RawAction::Display(e) => to_tui && e@ == (EntryView {
                number: final(counter)@ as u64,
                interface: iface_name@,
                length: data@.len(),
                description: describe(data@),
            }),
            RawAction::Log(report) => {
                &&& !to_tui
                &&& report.packet == final(counter)@
                &&& report.len == data@.len()
                &&& report.interface == Some(ifindex)
                &&& frame_summarized(report.frame, data@, data@.len() as int)
            },
        },
{
    let packet_count = next_packet_number(counter);
    if to_tui {
        RawAction::Display(PacketEntry::from_raw(packet_count, data, iface_name.clone()))
    } else {
        RawAction::Log(log_packet_info(data, data.len(), ifindex, packet_count))
    }
}

} // verus!
