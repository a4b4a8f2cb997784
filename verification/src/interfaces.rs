use vstd::prelude::*;

use vstd::string::StrSliceExecFns;

use crate::entry::{from_raw_defined, EntryView, describe, PacketEntry};
use crate::packet::{
    frame_summarized, handle_packet, next_packet_number, CapturedPacket, PacketCounter,
    PacketReport,
};

verus! {

/// A capture interface: its name, where the system gives one a description,
/// and whether the system reports it up.
pub struct Interface {
    pub name: String,
    pub description: Option<String>,
    pub up: bool,
}

/// The name starts with `lo` (a loopback interface).
pub open spec fn is_loopback_name(name: Seq<char>) -> bool {
    name.len() >= 2 && name[0] == 'l' && name[1] == 'o'
}

/// An interface worth capturing on: up, not the `any` pseudo-device, and not
/// a loopback interface unless those are wanted.
pub open spec fn usable(name: Seq<char>, up: bool, include_loopback: bool) -> bool {
    up && name != "any"@ && (include_loopback || !is_loopback_name(name))
}

/// `usable` as a predicate on interfaces.
pub open spec fn usable_interface(include_loopback: bool) -> spec_fn(Interface) -> bool {
    |d: Interface| usable(d.name@, d.up, include_loopback)
}

fn is_usable(name: &String, up: bool, include_loopback: bool) -> (ok: bool)
    ensures
        ok == usable(name@, up, include_loopback),
{
    if !up {
        return false;
    }
    if *name == String::from_str("any") {
        return false;
    }
    if include_loopback {
        return true;
    }
    let text = name.as_str();
    !(text.unicode_len() >= 2 && text.get_char(0) == 'l' && text.get_char(1) == 'o')
}

/// Filter interfaces to only include usable ones (up, not `any`, not
/// loopback unless asked for), in their order.
pub fn filter_usable_interfaces(devices: Vec<Interface>, include_loopback: bool) -> (kept: Vec<
    Interface,
>)
    ensures
        kept@ == devices@.filter(usable_interface(include_loopback)),
{
    let ghost all = devices@;
    let ghost pred = usable_interface(include_loopback);
    let mut kept: Vec<Interface> = Vec::new();
    for dev in it: devices.into_iter()
        invariant
            it.seq() == all,
            pred == usable_interface(include_loopback),
            kept@ == all.take(it.index() as int).filter(pred),
    {
        let ghost i = it.index();
        let ghost before = kept@;
        let keep = is_usable(&dev.name, dev.up, include_loopback);
        if keep {
            kept.push(dev);
        }
        proof {
            // The first i + 1 interfaces are the first i and then `dev`.
            let t = all.take(i + 1);
            assert(t.drop_last() =~= all.take(i as int));
            assert(t.last() == dev);
            reveal_with_fuel(Seq::<_>::filter, 1);
            assert(kept@ == t.filter(pred));
        }
    }
    proof {
        assert(all.take(all.len() as int) =~= all);
    }
    kept
}

/// Every kept interface is up and is not the `any` pseudo-device, and
/// loopback interfaces are kept only when asked for.
pub proof fn law_kept_interfaces_usable(devices: Seq<Interface>, include_loopback: bool, i: int)
    requires
        0 <= i < devices.filter(usable_interface(include_loopback)).len(),
    ensures
        devices.filter(usable_interface(include_loopback))[i].up,
        devices.filter(usable_interface(include_loopback))[i].name@ != "any"@,
        !include_loopback ==> !is_loopback_name(
            devices.filter(usable_interface(include_loopback))[i].name@,
        ),
{
    devices.lemma_filter_pred(usable_interface(include_loopback), i);
}

/// Every interface that is up, is not named `any`, and (unless loopback is
/// wanted) whose name does not begin with `lo` is kept; an interface is kept
/// only if it is all of these.
pub proof fn law_filter_keeps_every_usable(devices: Seq<Interface>, include_loopback: bool, i: int)
    requires
        0 <= i < devices.len(),
    ensures
        devices.filter(usable_interface(include_loopback)).contains(devices[i]) <==> ({
            let name = devices[i].name@;
            &&& devices[i].up
            &&& name != "any"@
            &&& (include_loopback || !(name.len() >= 2 && name[0] == 'l' && name[1] == 'o'))
        }),
{
    let p = usable_interface(include_loopback);
    if p(devices[i]) {
        devices.lemma_filter_contains(p, i);
    } else {
        let f = devices.filter(p);
        if f.contains(devices[i]) {
            let j = choose|j: int| 0 <= j < f.len() && f[j] == devices[i];
            devices.lemma_filter_pred(p, j);
        }
    }
}

/// Filtering the filtered list changes nothing.
pub proof fn law_filter_idempotent(devices: Seq<Interface>, include_loopback: bool)
    ensures
        devices.filter(usable_interface(include_loopback)).filter(usable_interface(include_loopback))
            == devices.filter(usable_interface(include_loopback)),
    decreases devices.len(),
{
    let p = usable_interface(include_loopback);
    reveal_with_fuel(Seq::<_>::filter, 1);
    if devices.len() > 0 {
        law_filter_idempotent(devices.drop_last(), include_loopback);
        let sub = devices.drop_last().filter(p);
        if p(devices.last()) {
            assert(sub.push(devices.last()).drop_last() =~= sub);
        }
    }
}

/// Packet interface containing the interface and the captured packet containing its payload
#[derive(Debug)]
pub struct PacketMessage {
    pub packet: CapturedPacket,
    pub interface: String,
}

/// The message a capture thread sends for `data` captured on `interface`.
pub fn packet_message(interface: &String, data: Vec<u8>) -> (msg: PacketMessage)
    ensures
        msg.packet.data@ == data@,
        msg.interface@ == interface@,
{
    let packet = CapturedPacket::new(data, interface.clone());
    PacketMessage { packet, interface: interface.clone() }
}

/// Why a capture could not start.
#[derive(Debug, Clone, Copy, PartialEq, Eq)]
pub enum CaptureError {
    /// No interface was named and none of the system's is usable.
    NoUsableInterfaces,
    /// Not one capture thread could be started.
    NoCaptureThreads,
}

impl CaptureError {
    /// The error's message.
    pub fn message(&self) -> (m: &'static str)
        ensures
            m@ == match self {
                CaptureError::NoUsableInterfaces => "No usable capture interfaces found"@,
                CaptureError::NoCaptureThreads => "Failed to start any capture threads"@,
            },
    {
        match self {
            CaptureError::NoUsableInterfaces => "No usable capture interfaces found",
            CaptureError::NoCaptureThreads => "Failed to start any capture threads",
        }
    }
}

/// The interfaces to capture on: the named one alone (with no description
/// and no flags, as a device made from a bare name has), else the usable ones
/// among `listed` (all of the system's interfaces, which are only read when
/// no interface is named), an error when there are none.
pub fn capture_devices(interface: Option<String>, listed: Vec<Interface>) -> (r: Result<
    Vec<Interface>,
    CaptureError,
>)
    ensures
        match interface {
            Some(name) => r matches Ok(v) && v@.len() == 1 && v@[0].name@ == name@
                && v@[0].description is None && !v@[0].up,
            None => if listed@.filter(usable_interface(false)).len() == 0 {
                r == Err::<Vec<Interface>, CaptureError>(CaptureError::NoUsableInterfaces)
            } else {
                r matches Ok(v) && v@ == listed@.filter(usable_interface(false))
            },
        },
{
    match interface {
        Some(name) => {
            let mut v = Vec::new();
            v.push(Interface { name, description: None, up: false });
            Ok(v)
        },
        None => {
            let filtered = filter_usable_interfaces(listed, false);
            if filtered.len() == 0 {
                Err(CaptureError::NoUsableInterfaces)
            } else {
                Ok(filtered)
            }
        },
    }
}

/// Capture goes on only when at least one capture thread started.
pub fn threads_started(count: usize) -> (r: Result<(), CaptureError>)
    ensures
        r == if count == 0 {
            Err::<(), CaptureError>(CaptureError::NoCaptureThreads)
        } else {
            Ok(())
        },
{
    if count == 0 {
        Err(CaptureError::NoCaptureThreads)
    } else {
        Ok(())
    }
}

/// What a capture thread's read turned into.
#[derive(Debug, Clone, Copy)]
pub enum CaptureOutcome {
    /// A packet was read and sent on; `delivered` is false when the channel
    /// was closed.
    Packet { delivered: bool },
    /// No packet within the read timeout.
    Timeout { channel_closed: bool },
    /// The capture failed.
    Failed,
}

/// Why a capture thread stops.
#[derive(Debug, Clone, Copy, PartialEq, Eq)]
pub enum StopReason {
    ChannelClosed,
    CaptureError,
}

/// Whether a capture thread reads on.
#[derive(Debug, Clone, Copy, PartialEq, Eq)]
pub enum LoopControl {
    Continue,
    Stop(StopReason),
}

/// The capture thread stops once nobody listens or the capture fails, and
/// reads on otherwise.
pub open spec fn next_control(outcome: CaptureOutcome) -> LoopControl {
    match outcome {
        CaptureOutcome::Packet { delivered } => if delivered {
            LoopControl::Continue
        } else {
            LoopControl::Stop(StopReason::ChannelClosed)
        },
        CaptureOutcome::Timeout { channel_closed } => if channel_closed {
            LoopControl::Stop(StopReason::ChannelClosed)
        } else {
            LoopControl::Continue
        },
        CaptureOutcome::Failed => LoopControl::Stop(StopReason::CaptureError),
    }
}

/// Decides whether a capture thread reads on after `outcome`.
pub fn capture_loop_step(outcome: CaptureOutcome) -> (c: LoopControl)
    ensures
        c == next_control(outcome),
{
    match outcome {
        CaptureOutcome::Packet { delivered } => if delivered {
            LoopControl::Continue
        } else {
            LoopControl::Stop(StopReason::ChannelClosed)
        },
        CaptureOutcome::Timeout { channel_closed } => if channel_closed {
            LoopControl::Stop(StopReason::ChannelClosed)
        } else {
            LoopControl::Continue
        },
        CaptureOutcome::Failed => LoopControl::Stop(StopReason::CaptureError),
    }
}

/// What the central packet handler does with one message.
pub enum HandlerAction {
    /// Send this entry to the terminal viewer.
    Display(PacketEntry),
    /// Log this report in the span of `interface`.
    Log { interface: String, report: PacketReport },
}

/// Central packet handler, one message: numbers the packet, then decodes it
/// for the viewer or describes it for the log.
pub fn handler_step(counter: &mut PacketCounter, msg: PacketMessage, to_tui: bool) -> (action:
    HandlerAction)
    requires
        old(counter)@ < u64::MAX,
        to_tui ==> from_raw_defined(msg.packet.data@),
    ensures
        final(counter)@ == old(counter)@ + 1,
        match action {
            HandlerAction::Display(e) => to_tui && e@ == (EntryView {
                number: final(counter)@ as u64,
                interface: msg.interface@,
                length: msg.packet.data@.len(),
                description: describe(msg.packet.data@),
            }),
            HandlerAction::Log { interface, report } => {
                &&& !to_tui
                &&& interface@ == msg.interface@
                &&& report.packet == final(counter)@
                &&& report.len == msg.packet.data@.len()
                &&& report.interface is None
                &&& frame_summarized(report.frame, msg.packet.data@, msg.packet.data@.len() as int)
            },
        },
{
    if to_tui {
        let packet_num = next_packet_number(counter);
        let entry = PacketEntry::from_raw(packet_num, msg.packet.data.as_slice(), msg.interface);
        HandlerAction::Display(entry)
    } else {
        let report = handle_packet(counter, msg.packet);
        HandlerAction::Log { interface: msg.interface, report }
    }
}

} // verus!
