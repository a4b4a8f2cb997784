use vstd::prelude::*;

use std::sync::atomic::AtomicBool;
use std::sync::Arc;

use crate::entry::{now, PacketEntry};
use vstd::string::{StrSliceExecFns, StringSliceAdditionalSpecFns};
use vstd::utf8::{decode_utf8, encode_utf8, encode_utf8_decode_utf8, is_char_boundary};

verus! {

/// Message for TUI updates
pub enum TuiMessage {
    Packet(PacketEntry),
    Quit,
}

/// Which row of the packet table is selected.
pub struct TableSelection {
    pub selected: Option<usize>,
}

impl TableSelection {
    /// Nothing selected.
    pub fn new() -> (t: Self)
        ensures
            t.selected is None,
    {
        TableSelection { selected: None }
    }

    /// Selects a row, or none.
    pub fn select(&mut self, index: Option<usize>)
        ensures
            final(self).selected == index,
    {
        self.selected = index;
    }

    /// The selected row, if any.
    pub fn selected(&self) -> (i: Option<usize>)
        ensures
            i == self.selected,
    {
        self.selected
    }
}

/// TUI Application state
pub struct App {
    pub packets: Vec<PacketEntry>,
    pub table_state: TableSelection,
    pub packet_count: u64,
    pub start_time: std::time::Instant,
    pub running: Arc<AtomicBool>,
    pub auto_scroll: bool,
    pub max_packets: usize,
    pub show_detail: bool,
}

/// The viewer's state as mathematical values (all but the start time and
/// the shared running flag).
pub struct AppView {
    pub packets: Seq<PacketEntry>,
    pub selected: Option<usize>,
    pub packet_count: u64,
    pub auto_scroll: bool,
    pub max_packets: usize,
    pub show_detail: bool,
}

impl View for App {
    type V = AppView;

    open spec fn view(&self) -> AppView {
        AppView {
            packets: self.packets@,
            selected: self.table_state.selected,
            packet_count: self.packet_count,
            auto_scroll: self.auto_scroll,
            max_packets: self.max_packets,
            show_detail: self.show_detail,
        }
    }
}

/// `n - 1`, or 0 for 0.
pub open spec fn last_index(n: nat) -> usize {
    if n == 0 {
        0
    } else {
        (n - 1) as usize
    }
}

/// The state after a packet arrives: counted, appended, the oldest dropped
/// beyond `max_packets`, and the last row selected while auto-scrolling.
pub open spec fn added(v: AppView, entry: PacketEntry) -> AppView {
    let pushed = v.packets.push(entry);
    let packets = if pushed.len() > v.max_packets {
        pushed.drop_first()
    } else {
        pushed
    };
    AppView {
        packets,
        packet_count: (v.packet_count + 1) as u64,
        selected: if v.auto_scroll && packets.len() > 0 {
            Some((packets.len() - 1) as usize)
        } else {
            v.selected
        },
        ..v
    }
}

/// The state after moving the selection up one row; auto-scroll stops.
pub open spec fn scrolled_up(v: AppView) -> AppView {
    AppView {
        auto_scroll: false,
        selected: Some(
            match v.selected {
                Some(i) => if i > 0 {
                    (i - 1) as usize
                } else {
                    0
                },
                None => 0,
            },
        ),
        ..v
    }
}

/// The state after moving the selection down one row; reaching the last row
/// turns auto-scroll on.
pub open spec fn scrolled_down(v: AppView) -> AppView {
    let last = last_index(v.packets.len());
    match v.selected {
        Some(i) => if i >= last {
            AppView { auto_scroll: true, selected: Some(last), ..v }
        } else {
            AppView { selected: Some((i + 1) as usize), ..v }
        },
        None => AppView { selected: Some(0), ..v },
    }
}

/// The state after jumping to the last row; auto-scroll turns on.
pub open spec fn scrolled_to_bottom(v: AppView) -> AppView {
    AppView {
        auto_scroll: true,
        selected: if v.packets.len() > 0 {
            Some((v.packets.len() - 1) as usize)
        } else {
            v.selected
        },
        ..v
    }
}

/// The state with the detail panel shown or hidden the other way.
pub open spec fn detail_toggled(v: AppView) -> AppView {
    AppView { show_detail: !v.show_detail, ..v }
}

/// The selection as the table's drawing leaves it: a row past the end moves
/// to the last row, and an empty table has no selection.
pub open spec fn selection_clamped(v: AppView) -> AppView {
    let n = v.packets.len();
    AppView {
        selected: if n == 0 {
            None
        } else {
            match v.selected {
                Some(i) => if i >= n {
                    Some((n - 1) as usize)
                } else {
                    Some(i)
                },
                None => None,
            }
        },
        ..v
    }
}

/// The packet of the selected row, when the row holds one.
pub open spec fn selected_entry(v: AppView) -> Option<PacketEntry> {
    match v.selected {
        Some(i) => if i < v.packets.len() {
            Some(v.packets[i as int])
        } else {
            None
        },
        None => None,
    }
}

impl App {
    /// An empty viewer: no packets, auto-scroll on, up to 1000 packets kept.
    pub fn new(running: Arc<AtomicBool>) -> (app: Self)
        ensures
            app@ == (AppView {
                packets: Seq::empty(),
                selected: None,
                packet_count: 0,
                auto_scroll: true,
                max_packets: 1000,
                show_detail: false,
            }),
            app.running == running,
    {
        App {
            packets: Vec::new(),
            table_state: TableSelection::new(),
            packet_count: 0,
            start_time: now(),
            running,
            auto_scroll: true,
            max_packets: 1000,
            show_detail: false,
        }
    }

    /// Records an arriving packet.
    pub fn add_packet(&mut self, entry: PacketEntry)
        requires
            old(self).packet_count < u64::MAX,
        ensures
            final(self)@ == added(old(self)@, entry),
            final(self).running == old(self).running,
            final(self).start_time == old(self).start_time,
    {
        self.packet_count = self.packet_count + 1;
        self.packets.push(entry);

        // Trim old packets if we exceed max
        if self.packets.len() > self.max_packets {
            self.packets.remove(0);
        }
        // Auto-scroll to bottom
        if self.auto_scroll && !self.packets.is_empty() {
            self.table_state.select(Some(self.packets.len() - 1));
        }
        assert(final(self)@.packets =~= added(old(self)@, entry).packets);
    }

    /// Shows or hides the detail panel.
    pub fn toggle_detail(&mut self)
        ensures
            final(self)@ == detail_toggled(old(self)@),
            final(self).running == old(self).running,
            final(self).start_time == old(self).start_time,
    {
        self.show_detail = !self.show_detail;
    }

    /// The packet of the selected row, if the row holds one.
    pub fn selected_packet(&self) -> (p: Option<&PacketEntry>)
        ensures
            match p {
                Some(e) => selected_entry(self@) == Some(*e),
                None => selected_entry(self@) is None,
            },
    {
        match self.table_state.selected() {
            Some(i) => if i < self.packets.len() {
                Some(&self.packets[i])
            } else {
                None
            },
            None => None,
        }
    }

    /// Brings the selection back onto the table, as drawing the table does:
    /// past the end it moves to the last row, on an empty table it is cleared.
    pub fn clamp_selection(&mut self)
        ensures
            final(self)@ == selection_clamped(old(self)@),
            final(self).running == old(self).running,
            final(self).start_time == old(self).start_time,
    {
        let n = self.packets.len();
        match self.table_state.selected() {
            Some(i) => {
                if i >= n {
                    self.table_state.select(Some(n.saturating_sub(1)));
                }
            },
            None => {},
        }
        if n == 0 {
            self.table_state.select(None);
        }
    }

    /// Moves the selection up one row and stops auto-scroll.
    pub fn scroll_up(&mut self)
        ensures
            final(self)@ == scrolled_up(old(self)@),
            final(self).running == old(self).running,
            final(self).start_time == old(self).start_time,
    {
        self.auto_scroll = false;
        let i = match self.table_state.selected() {
            Some(i) => i.saturating_sub(1),
            None => 0,
        };
        self.table_state.select(Some(i));
    }

    /// Moves the selection down one row; at the last row auto-scroll resumes.
    pub fn scroll_down(&mut self)
        ensures
            final(self)@ == scrolled_down(old(self)@),
            final(self).running == old(self).running,
            final(self).start_time == old(self).start_time,
    {
        let i = match self.table_state.selected() {
            Some(i) => {
                if i >= self.packets.len().saturating_sub(1) {
                    self.auto_scroll = true;
                    self.packets.len().saturating_sub(1)
                } else {
                    i + 1
                }
            },
            None => 0,
        };
        self.table_state.select(Some(i));
    }

    /// Jumps to the last row and resumes auto-scroll.
    pub fn scroll_to_bottom(&mut self)
        ensures
            final(self)@ == scrolled_to_bottom(old(self)@),
            final(self).running == old(self).running,
            final(self).start_time == old(self).start_time,
    {
        self.auto_scroll = true;
        if !self.packets.is_empty() {
            self.table_state.select(Some(self.packets.len() - 1));
        }
    }
}

/// A key press, as the viewer reads it.
#[derive(Clone, Copy, Debug)]
pub enum KeyInput {
    Char(char),
    Esc,
    Up,
    Down,
    End,
    Enter,
    Other,
}

/// The state after a key press, and whether the viewer quits: `q`/Esc quit,
/// Up/`k` and Down/`j` scroll, End/`G` jump to the last row, Space toggles
/// auto-scroll, Enter toggles the detail panel; other keys do nothing.
pub open spec fn key_pressed(v: AppView, key: KeyInput) -> (AppView, bool) {
    match key {
        KeyInput::Char(c) => if c == 'q' {
            (v, true)
        } else if c == 'k' {
            (scrolled_up(v), false)
        } else if c == 'j' {
            (scrolled_down(v), false)
        } else if c == 'G' {
            (scrolled_to_bottom(v), false)
        } else if c == ' ' {
            (AppView { auto_scroll: !v.auto_scroll, ..v }, false)
        } else {
            (v, false)
        },
        KeyInput::Esc => (v, true),
        KeyInput::Up => (scrolled_up(v), false),
        KeyInput::Down => (scrolled_down(v), false),
        KeyInput::End => (scrolled_to_bottom(v), false),
        KeyInput::Enter => (detail_toggled(v), false),
        KeyInput::Other => (v, false),
    }
}

impl App {
    /// Applies a key press; returns whether the viewer should quit.
    pub fn handle_key(&mut self, key: KeyInput) -> (quit: bool)
        ensures
            (final(self)@, quit) == key_pressed(old(self)@, key),
            final(self).running == old(self).running,
            final(self).start_time == old(self).start_time,
    {
        match key {
            KeyInput::Char('q') | KeyInput::Esc => true,
            KeyInput::Up | KeyInput::Char('k') => {
                self.scroll_up();
                false
            },
            KeyInput::Down | KeyInput::Char('j') => {
                self.scroll_down();
                false
            },
            KeyInput::End | KeyInput::Char('G') => {
                self.scroll_to_bottom();
                false
            },
            KeyInput::Char(' ') => {
                self.auto_scroll = !self.auto_scroll;
                false
            },
            KeyInput::Enter => {
                self.toggle_detail();
                false
            },
            _ => false,
        }
    }

    /// Applies a message from the capture side; returns whether the viewer
    /// should quit.
    pub fn handle_message(&mut self, msg: TuiMessage) -> (quit: bool)
        requires
            msg is Packet ==> old(self).packet_count < u64::MAX,
        ensures
            match msg {
                TuiMessage::Packet(e) => final(self)@ == added(old(self)@, e) && !quit,
                TuiMessage::Quit => final(self)@ == old(self)@ && quit,
            },
            final(self).running == old(self).running,
            final(self).start_time == old(self).start_time,
    {
        match msg {
            TuiMessage::Packet(entry) => {
                self.add_packet(entry);
                false
            },
            TuiMessage::Quit => true,
        }
    }
}

/// The table keeps at most `max_packets` packets: if it held no more before a
/// packet arrives, it holds no more after.
pub proof fn law_packet_table_bounded(v: AppView, entry: PacketEntry)
    requires
        v.packets.len() <= v.max_packets,
    ensures
        added(v, entry).packets.len() <= v.max_packets,
        added(v, entry).max_packets == v.max_packets,
{
}

/// An arriving packet becomes the last row (when at least one is kept), the
/// rows before it are the previous rows with the oldest dropped once the
/// table is full, and the count of packets seen grows by one.
pub proof fn law_add_appends(v: AppView, entry: PacketEntry)
    requires
        v.max_packets >= 1,
        v.packets.len() <= v.max_packets,
        v.packet_count < u64::MAX,
    ensures
        added(v, entry).packets.last() == entry,
        added(v, entry).packets.drop_last() == if v.packets.len() == v.max_packets {
            v.packets.drop_first()
        } else {
            v.packets
        },
        added(v, entry).packet_count == v.packet_count + 1,
{
    let pushed = v.packets.push(entry);
    if pushed.len() > v.max_packets {
        assert(pushed.drop_first().drop_last() =~= v.packets.drop_first());
    } else {
        assert(pushed.drop_last() =~= v.packets);
    }
}

/// While auto-scroll is on, the newest packet is the selected one.
pub proof fn law_auto_scroll_follows_newest(v: AppView, entry: PacketEntry)
    requires
        v.auto_scroll,
        v.max_packets >= 1,
        v.packets.len() <= v.max_packets,
    ensures
        selected_entry(added(v, entry)) == Some(entry),
{
    let pushed = v.packets.push(entry);
    let packets = added(v, entry).packets;
    if pushed.len() > v.max_packets {
        assert(packets[packets.len() - 1] == pushed[pushed.len() - 1]);
    }
}

/// With auto-scroll off, arriving packets leave the selection where it is.
pub proof fn law_manual_selection_stays(v: AppView, entry: PacketEntry)
    requires
        !v.auto_scroll,
    ensures
        added(v, entry).selected == v.selected,
        !added(v, entry).auto_scroll,
{
}

/// Scrolling up turns auto-scroll off.
pub proof fn law_scroll_up_stops_auto_scroll(v: AppView)
    ensures
        !scrolled_up(v).auto_scroll,
        scrolled_up(v).packets == v.packets,
{
}

/// Scrolling down never selects past the last packet, and stopping on the
/// last row turns auto-scroll back on.
pub proof fn law_scroll_down_in_range(v: AppView)
    ensures
        scrolled_down(v).selected matches Some(i) && (v.packets.len() > 0 ==> i
            < v.packets.len()),
        scrolled_down(v).packets == v.packets,
        (v.selected matches Some(i) && i + 1 >= v.packets.len()) ==> scrolled_down(v).auto_scroll,
{
}

/// Scrolling down then up from a row that is not the last returns to it.
pub proof fn law_scroll_down_then_up(v: AppView, i: usize)
    requires
        v.selected == Some(i),
        i + 1 < v.packets.len(),
        v.packets.len() <= usize::MAX,
    ensures
        scrolled_up(scrolled_down(v)).selected == Some(i),
{
}

/// Jumping to the bottom selects the newest packet and resumes auto-scroll.
pub proof fn law_bottom_selects_newest(v: AppView)
    requires
        v.packets.len() > 0,
        v.packets.len() <= usize::MAX,
    ensures
        selected_entry(scrolled_to_bottom(v)) == Some(v.packets.last()),
        scrolled_to_bottom(v).auto_scroll,
{
}

/// After the table is drawn, a selection names a row that exists, and the
/// packets are untouched; a selection already on the table stays.
pub proof fn law_clamped_selection_in_range(v: AppView)
    ensures
        selection_clamped(v).selected matches Some(i) ==> i < v.packets.len(),
        selection_clamped(v).packets == v.packets,
        (v.selected matches Some(i) && i < v.packets.len()) ==> selection_clamped(v).selected
            == v.selected,
        selection_clamped(selection_clamped(v)) == selection_clamped(v),
{
}

/// Toggling the detail panel twice restores the state.
pub proof fn law_toggle_detail_twice(v: AppView)
    ensures
        detail_toggled(detail_toggled(v)) == v,
{
}

/// Space twice restores the state.
pub proof fn law_space_twice(v: AppView)
    ensures
        key_pressed(key_pressed(v, KeyInput::Char(' ')).0, KeyInput::Char(' ')).0 == v,
        !key_pressed(v, KeyInput::Char(' ')).1,
{
}

/// Only `q` and Esc quit, and they leave the state as it is.
pub proof fn law_quit_keys(v: AppView, key: KeyInput)
    ensures
        key_pressed(v, key).1 <==> (key == KeyInput::Esc || key == KeyInput::Char('q')),
        key_pressed(v, key).1 ==> key_pressed(v, key).0 == v,
{
}

/// The arrow keys and End do what `j`, `k` and `G` do.
pub proof fn law_arrow_keys_match_letters(v: AppView)
    ensures
        key_pressed(v, KeyInput::Down) == key_pressed(v, KeyInput::Char('j')),
        key_pressed(v, KeyInput::Up) == key_pressed(v, KeyInput::Char('k')),
        key_pressed(v, KeyInput::End) == key_pressed(v, KeyInput::Char('G')),
{
}

/// Down (or `j`) on a row that is not the last selects the next row, and
/// changes nothing else.
pub proof fn law_down_moves_one_row(v: AppView, i: usize)
    requires
        v.selected == Some(i),
        i + 1 < v.packets.len(),
        v.packets.len() <= usize::MAX,
    ensures
        key_pressed(v, KeyInput::Down) == (AppView { selected: Some((i + 1) as usize), ..v }, false),
        key_pressed(v, KeyInput::Char('j')) == (
            AppView { selected: Some((i + 1) as usize), ..v },
            false,
        ),
{
}

/// Down (or `j`) on the last row stays there and turns auto-scroll on; with
/// nothing selected it selects the first row.
pub proof fn law_down_at_end_or_unselected(v: AppView)
    ensures
        v.packets.len() > 0 && v.selected == Some((v.packets.len() - 1) as usize) ==> key_pressed(
            v,
            KeyInput::Down,
        ).0 == (AppView { auto_scroll: true, ..v }),
        v.selected is None ==> key_pressed(v, KeyInput::Down).0 == (AppView {
            selected: Some(0),
            ..v
        }),
{
}

/// Up (or `k`) selects the row above (row 0 stays row 0, nothing selected
/// becomes row 0) and turns auto-scroll off, changing nothing else.
pub proof fn law_up_moves_one_row(v: AppView)
    ensures
        key_pressed(v, KeyInput::Up) == (
            AppView {
                auto_scroll: false,
                selected: Some(
                    match v.selected {
                        Some(i) => if i >= 1 {
                            (i - 1) as usize
                        } else {
                            0
                        },
                        None => 0,
                    },
                ),
                ..v
            },
            false,
        ),
{
}

/// End (or `G`) selects the newest packet, when there is one, and turns
/// auto-scroll on; Enter shows or hides the detail panel; Space switches
/// auto-scroll; none of them quits or touches the packets.
pub proof fn law_other_keys(v: AppView)
    ensures
        v.packets.len() > 0 ==> key_pressed(v, KeyInput::End) == (
            AppView {
                auto_scroll: true,
                selected: Some((v.packets.len() - 1) as usize),
                ..v
            },
            false,
        ),
        key_pressed(v, KeyInput::End).0.auto_scroll,
        key_pressed(v, KeyInput::Enter) == (AppView { show_detail: !v.show_detail, ..v }, false),
        key_pressed(v, KeyInput::Char(' ')) == (AppView { auto_scroll: !v.auto_scroll, ..v }, false),
        key_pressed(v, KeyInput::Other) == (v, false),
{
}

/// Colour of a row of the packet table.
#[derive(Clone, Copy, Debug, PartialEq, Eq)]
pub enum RowColor {
    Green,
    Blue,
    Magenta,
    Yellow,
    Cyan,
    Plain,
}

/// Row colour by protocol: TCP green, UDP blue, ICMP magenta, ARP yellow,
/// IPv6 cyan, others plain.
pub open spec fn row_color_of(protocol: Seq<char>) -> RowColor {
    if protocol == "TCP"@ {
        RowColor::Green
    } else if protocol == "UDP"@ {
        RowColor::Blue
    } else if protocol == "ICMP"@ {
        RowColor::Magenta
    } else if protocol == "ARP"@ {
        RowColor::Yellow
    } else if protocol == "IPv6"@ {
        RowColor::Cyan
    } else {
        RowColor::Plain
    }
}

/// The colour of a table row showing `protocol`.
pub fn row_color(protocol: &String) -> (c: RowColor)
    ensures
        c == row_color_of(protocol@),
{
    if *protocol == String::from_str("TCP") {
        RowColor::Green
    } else if *protocol == String::from_str("UDP") {
        RowColor::Blue
    } else if *protocol == String::from_str("ICMP") {
        RowColor::Magenta
    } else if *protocol == String::from_str("ARP") {
        RowColor::Yellow
    } else if *protocol == String::from_str("IPv6") {
        RowColor::Cyan
    } else {
        RowColor::Plain
    }
}

/// The info column shortens text of more than 30 bytes to its first 27
/// bytes and `...`; that cut must fall between characters.
pub open spec fn info_cut_ok(info: Seq<char>) -> bool {
    encode_utf8(info).len() <= 30 || is_char_boundary(encode_utf8(info), 27)
}

/// The info column's text for `info`.
pub open spec fn shown_info(info: Seq<char>) -> Seq<char> {
    if encode_utf8(info).len() > 30 {
        decode_utf8(encode_utf8(info).subrange(0, 27)) + "..."@
    } else {
        info
    }
}

/// Whether `truncate_info` can shorten `info`: false exactly where the
/// 27-byte cut would split a character.
pub fn info_cut_allowed(info: &String) -> (ok: bool)
    requires
        encode_utf8(info@).len() <= usize::MAX,
    ensures
        ok == info_cut_ok(info@),
{
    let text = info.as_str();
    text.len() <= 30 || text.is_char_boundary(27)
}

/// Truncate info to fit the table column.
pub fn truncate_info(info: &String) -> (shown: String)
    requires
        encode_utf8(info@).len() <= usize::MAX,
        info_cut_ok(info@),
    ensures
        shown@ == shown_info(info@),
{
    let text = info.as_str();
    if text.len() > 30 {
        let (head, _) = text.split_at(27);
        proof {
            encode_utf8_decode_utf8(head@);
            assert(text.spec_bytes() == encode_utf8(info@));
            assert(head.spec_bytes() == encode_utf8(head@));
            assert(head@ == decode_utf8(encode_utf8(info@).subrange(0, 27)));
        }
        let mut shown = head.to_owned();
        shown.append("...");
        assert(shown@ == head@ + "..."@);
        shown
    } else {
        info.clone()
    }
}

/// Footer help text.
pub fn footer_text(show_detail: bool) -> (t: &'static str)
    ensures
        t@ == if show_detail {
            " q: Quit | ↑↓: Scroll | Enter: Hide detail | Space: Auto-scroll "@
        } else {
            " q: Quit | ↑↓: Scroll | Enter: Show detail | Space: Auto-scroll "@
        },
{
    if show_detail {
        " q: Quit | ↑↓: Scroll | Enter: Hide detail | Space: Auto-scroll "
    } else {
        " q: Quit | ↑↓: Scroll | Enter: Show detail | Space: Auto-scroll "
    }
}

/// How a line of the detail panel is styled.
#[derive(Clone, Copy, Debug, PartialEq, Eq)]
pub enum LineStyle {
    /// Starts with `──`: a section heading.
    Heading,
    /// Starts with two spaces: a field.
    Field,
    /// Anything else.
    Other,
}

/// The style of detail line `line`.
pub open spec fn line_style_of(line: Seq<char>) -> LineStyle {
    if line.len() >= 2 && line[0] == '─' && line[1] == '─' {
        LineStyle::Heading
    } else if line.len() >= 2 && line[0] == ' ' && line[1] == ' ' {
        LineStyle::Field
    } else {
        LineStyle::Other
    }
}

/// The style of a line of the detail panel.
pub fn line_style(line: &String) -> (s: LineStyle)
    ensures
        s == line_style_of(line@),
{
    let text = line.as_str();
    if text.unicode_len() >= 2 {
        let a = text.get_char(0);
        let b = text.get_char(1);
        if a == '─' && b == '─' {
            LineStyle::Heading
        } else if a == ' ' && b == ' ' {
            LineStyle::Field
        } else {
            LineStyle::Other
        }
    } else {
        LineStyle::Other
    }
}

} // verus!
