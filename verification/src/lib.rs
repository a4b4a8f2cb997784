//! Packet capture support library: frame parsing, packet reports for the
//! capture loops, and the state of the terminal viewer.

pub mod cli;
pub mod packet;
pub mod text;
pub mod tui;
pub mod entry;
pub mod viewer;
pub mod interfaces;
pub mod raw_capture;
