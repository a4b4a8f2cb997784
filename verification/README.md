# rustcapture

A Linux packet capture tool (raw `AF_PACKET` sockets or libpcap) with a
terminal packet viewer. The decoding and decision logic is a library verified
with Verus; the program around it does the I/O.

- `src/` — the verified library
  - `packet.rs`: Ethernet, IPv4, TCP, UDP and ICMP header parsing, packet
    numbering, and the report each frame gets in the capture log
  - `text.rs`: decimal and hexadecimal rendering used by the parsers
  - `tui.rs`: packet metadata and its detail-panel lines
  - `entry.rs`: decoding a frame into a row of the packet table
  - `viewer.rs`: the viewer's state (bounded packet table, selection,
    auto-scroll, detail panel), key and message handling, row styling
  - `interfaces.rs`: interface selection for libpcap capture, the capture
    thread's stop rule and the central packet handler's step
  - `raw_capture.rs`: raw-socket binding choices and per-packet step
  - `cli.rs`: command-line option types
- `app/` — the executable: argument parsing (clap), sockets (libc), libpcap,
  the tokio runtime, logging (tracing) and terminal rendering (ratatui,
  crossterm)
- `tests/` — tests of the library on concrete frames and key sequences
