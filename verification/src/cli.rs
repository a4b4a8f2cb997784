use vstd::prelude::*;

verus! {

/// Capture backend.
#[derive(Debug, Clone, Copy, PartialEq, Eq)]
pub enum CaptureMethod {
    /// Use raw AF_PACKET socket (requires root)
    Raw,
    /// Use libpcap for capture
    Pcap,
}

/// Command-line options.
#[derive(Debug)]
pub struct Args {
    /// Capture method to use
    pub method: CaptureMethod,
    /// Network interface to capture on (default: all for raw, all available for pcap)
    pub interface: Option<String>,
    /// BPF filter expression (pcap mode only)
    pub filter: Option<String>,
    /// Promiscuous mode (pcap mode only)
    pub promiscuous: bool,
    /// Enable terminal UI mode
    pub tui: bool,
}

} // verus!
