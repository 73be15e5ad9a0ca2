//! The detail panel: extended information on the selected connection.

use vstd::prelude::*;
use crate::connection::{
    Connection, ConnectionKind, ConnectionStatus, Ip4Config, Ip6Config, bar_of, band_of,
};
use crate::nm::numbers::{decimal, decimal_string};
use crate::text::{after_last, concat2, concat3, own, text_after_last};
use crate::app::{selected_connection, App};
use crate::text::{pad_right, padded_right};
use crate::ui::rows::{line_text, push_piece, piece_views, Emphasis, Piece, Tone};

verus! {

/// One line of the detail panel.
#[derive(Debug)]
pub enum DetailLine {
    /// Status marker and connection label.
    Title { indicator: char, label: String },
    Blank,
    /// A labelled value.
    Field { label: String, value: String },
    /// A section heading.
    Section(String),
    /// The closing status line.
    Status(String),
}

/// A detail line as the contracts see it.
pub enum DetailLineView {
    Title { indicator: char, label: Seq<char> },
    Blank,
    Field { label: Seq<char>, value: Seq<char> },
    Section(Seq<char>),
    Status(Seq<char>),
}

impl View for DetailLine {
    type V = DetailLineView;

    open spec fn view(&self) -> DetailLineView {
        match self {
            DetailLine::Title { indicator, label } => DetailLineView::Title {
                indicator: *indicator,
                label: label@,
            },
            DetailLine::Blank => DetailLineView::Blank,
            DetailLine::Field { label, value } => DetailLineView::Field {
                label: label@,
                value: value@,
            },
            DetailLine::Section(s) => DetailLineView::Section(s@),
            DetailLine::Status(s) => DetailLineView::Status(s@),
        }
    }
}

pub open spec fn line_views(ls: Seq<DetailLine>) -> Seq<DetailLineView> {
    ls.map_values(|l: DetailLine| l@)
}

pub open spec fn field(label: Seq<char>, value: Seq<char>) -> DetailLineView {
    DetailLineView::Field { label, value }
}

/// The type-specific fields.
pub open spec fn kind_fields(k: ConnectionKind) -> Seq<DetailLineView> {
    match k {
        ConnectionKind::Wifi(w) => seq![
            field("Type"@, "Wi-Fi"@),
            field("SSID"@, w.ssid@),
            field("Security"@, w.security.spec_label()),
            field("Signal"@, decimal(w.strength as nat) + "% "@ + bar_of(w.strength)),
        ] + match w.frequency {
            Some(f) => seq![field("Band"@, band_of(f)), field("Frequency"@, decimal(f as nat) + " MHz"@)],
            None => Seq::empty(),
        } + match w.bssid {
            Some(b) => seq![field("BSSID"@, b@)],
            None => Seq::empty(),
        },
        ConnectionKind::Ethernet => seq![field("Type"@, "Ethernet"@)],
        ConnectionKind::Vpn(v) => seq![
            field("Type"@, "VPN"@),
            field("Plugin"@, after_last(v.service_type@, '.')),
        ],
        ConnectionKind::Loopback => seq![field("Type"@, "Loopback"@)],
        ConnectionKind::Modem(_) => seq![field("Type"@, "Mobile broadband"@)],
        ConnectionKind::Other(t) => seq![field("Type"@, t@)],
    }
}

/// One line per name server, the first one labelled `DNS`.
pub open spec fn dns_fields(ns: Seq<String>) -> Seq<DetailLineView> {
    Seq::new(
        ns.len(),
        |i: int|
            field(
                if i == 0 {
                    "DNS"@
                } else {
                    ""@
                },
                ns[i]@,
            ),
    )
}

/// An address section: its heading, the address, the gateway if any, the name servers.
pub open spec fn ip_section(
    title: Seq<char>,
    address: Seq<char>,
    gateway: Option<String>,
    nameservers: Seq<String>,
) -> Seq<DetailLineView> {
    seq![DetailLineView::Blank, DetailLineView::Section(title), field("Address"@, address)]
        + match gateway {
        Some(g) => seq![field("Gateway"@, g@)],
        None => Seq::empty(),
    } + dns_fields(nameservers)
}

/// The IPv4 section, present when the connection has an IPv4 configuration.
pub open spec fn ip4_fields(ip4: Option<Ip4Config>) -> Seq<DetailLineView> {
    match ip4 {
        Some(ip) => ip_section("IPv4"@, ip.address@, ip.gateway, ip.nameservers@),
        None => Seq::empty(),
    }
}

/// The IPv6 section, present when the connection has an IPv6 configuration.
pub open spec fn ip6_fields(ip6: Option<Ip6Config>) -> Seq<DetailLineView> {
    match ip6 {
        Some(ip) => ip_section("IPv6"@, ip.address@, ip.gateway, ip.nameservers@),
        None => Seq::empty(),
    }
}

/// All lines of the panel for connection `c`.
pub open spec fn detail_spec(c: Connection) -> Seq<DetailLineView> {
    seq![
        DetailLineView::Title { indicator: c.status.spec_indicator(), label: c.spec_label() },
        DetailLineView::Blank,
    ] + kind_fields(c.kind) + match c.device {
        Some(d) => seq![field("Device"@, d@)],
        None => Seq::empty(),
    } + ip4_fields(c.ip4) + ip6_fields(c.ip6) + seq![
        DetailLineView::Blank,
        DetailLineView::Status("Status: "@ + c.status.spec_label()),
    ]
}

pub open spec fn spec_detail_tone(status: ConnectionStatus) -> Tone {
    match status {
        ConnectionStatus::Active => Tone::Active,
        ConnectionStatus::Activating | ConnectionStatus::Deactivating => Tone::Warn,
        _ => Tone::Dim,
    }
}

/// Colour role of the title and status lines of the panel.
pub fn detail_tone(status: ConnectionStatus) -> (r: Tone)
    ensures
        r == spec_detail_tone(status),
{
    match status {
        ConnectionStatus::Active => Tone::Active,
        ConnectionStatus::Activating | ConnectionStatus::Deactivating => Tone::Warn,
        _ => Tone::Dim,
    }
}

fn push_field(lines: &mut Vec<DetailLine>, label: &str, value: String)
    ensures
        line_views(final(lines)@) == line_views(old(lines)@).push(field(label@, value@)),
{
    let ghost before = lines@;
    lines.push(DetailLine::Field { label: own(label), value });
    assert(line_views(lines@) =~= line_views(before).push(field(label@, value@)));
}

fn push_line(lines: &mut Vec<DetailLine>, line: DetailLine)
    ensures
        line_views(final(lines)@) == line_views(old(lines)@).push(line@),
{
    let ghost before = lines@;
    lines.push(line);
    assert(line_views(lines@) =~= line_views(before).push(line@));
}

fn push_kind_fields(lines: &mut Vec<DetailLine>, k: &ConnectionKind)
    ensures
        line_views(final(lines)@) == line_views(old(lines)@) + kind_fields(*k),
{
    let ghost before = line_views(lines@);
    proof {
        reveal_strlit("");
    }
    match k {
        ConnectionKind::Wifi(w) => {
            push_field(lines, "Type", own("Wi-Fi"));
            push_field(lines, "SSID", own(w.ssid.as_str()));
            push_field(lines, "Security", own(w.security.label()));
            let digits = decimal_string(w.strength as u32);
            let bar = w.strength_bar();
            push_field(lines, "Signal", concat3(digits.as_str(), "% ", bar.as_str()));
            match w.frequency {
                Some(f) => {
                    let band = if f < 3000 {
                        "2.4 GHz"
                    } else {
                        "5 GHz"
                    };
                    push_field(lines, "Band", own(band));
                    let mhz = decimal_string(f);
                    push_field(lines, "Frequency", concat2(mhz.as_str(), " MHz"));
                },
                None => {},
            }
            match &w.bssid {
                Some(b) => push_field(lines, "BSSID", own(b.as_str())),
                None => {},
            }
            assert(line_views(lines@) =~= before + kind_fields(*k));
        },
        ConnectionKind::Ethernet => {
            push_field(lines, "Type", own("Ethernet"));
            assert(line_views(lines@) =~= before + kind_fields(*k));
        },
        ConnectionKind::Vpn(v) => {
            push_field(lines, "Type", own("VPN"));
            push_field(lines, "Plugin", text_after_last(v.service_type.as_str(), '.'));
            assert(line_views(lines@) =~= before + kind_fields(*k));
        },
        ConnectionKind::Loopback => {
            push_field(lines, "Type", own("Loopback"));
            assert(line_views(lines@) =~= before + kind_fields(*k));
        },
        ConnectionKind::Modem(_) => {
            push_field(lines, "Type", own("Mobile broadband"));
            assert(line_views(lines@) =~= before + kind_fields(*k));
        },
        ConnectionKind::Other(t) => {
            push_field(lines, "Type", own(t.as_str()));
            assert(line_views(lines@) =~= before + kind_fields(*k));
        },
    }
}

fn push_ip_section(
    lines: &mut Vec<DetailLine>,
    title: &str,
    address: &String,
    gateway: &Option<String>,
    nameservers: &Vec<String>,
)
    ensures
        line_views(final(lines)@) == line_views(old(lines)@) + ip_section(
            title@,
            address@,
            *gateway,
            nameservers@,
        ),
{
    let ghost before = line_views(lines@);
    push_line(lines, DetailLine::Blank);
    push_line(lines, DetailLine::Section(own(title)));
    push_field(lines, "Address", own(address.as_str()));
    match gateway {
        Some(g) => push_field(lines, "Gateway", own(g.as_str())),
        None => {},
    }
    let ghost head = line_views(lines@);
    let mut i: usize = 0;
    while i < nameservers.len()
        invariant
            i <= nameservers@.len(),
            line_views(lines@) == head + dns_fields(nameservers@).take(i as int),
        decreases nameservers.len() - i,
    {
        let label = if i == 0 {
            "DNS"
        } else {
            ""
        };
        push_field(lines, label, own(nameservers[i].as_str()));
        proof {
            reveal_strlit("");
            assert(dns_fields(nameservers@).take(i + 1) =~= dns_fields(nameservers@).take(
                i as int,
            ).push(dns_fields(nameservers@)[i as int]));
        }
        i = i + 1;
    }
    assert(dns_fields(nameservers@).take(i as int) =~= dns_fields(nameservers@));
    assert(line_views(lines@) =~= before + ip_section(title@, address@, *gateway, nameservers@));
}

/// The lines of the detail panel for `c` (see [`detail_spec`]).
pub fn detail_lines(c: &Connection) -> (r: Vec<DetailLine>)
    ensures
        line_views(r@) == detail_spec(*c),
{
    let mut lines: Vec<DetailLine> = Vec::new();
    push_line(&mut lines, DetailLine::Title { indicator: c.status.indicator(), label: own(c.label()) });
    push_line(&mut lines, DetailLine::Blank);
    push_kind_fields(&mut lines, &c.kind);
    match &c.device {
        Some(d) => push_field(&mut lines, "Device", own(d.as_str())),
        None => {},
    }
    let ghost before_ip = line_views(lines@);
    match &c.ip4 {
        Some(ip) => push_ip_section(&mut lines, "IPv4", &ip.address, &ip.gateway, &ip.nameservers),
        None => {},
    }
    assert(line_views(lines@) =~= before_ip + ip4_fields(c.ip4));
    let ghost before_ip6 = line_views(lines@);
    match &c.ip6 {
        Some(ip) => push_ip_section(&mut lines, "IPv6", &ip.address, &ip.gateway, &ip.nameservers),
        None => {},
    }
    assert(line_views(lines@) =~= before_ip6 + ip6_fields(c.ip6));
    push_line(&mut lines, DetailLine::Blank);
    push_line(&mut lines, DetailLine::Status(concat2("Status: ", c.status.label())));
    assert(line_views(lines@) =~= detail_spec(*c));
    lines
}


/// The pieces of text of one panel line; `tone` colours the title and the
/// status line.
pub open spec fn line_pieces(l: DetailLineView, tone: Tone) -> Seq<(Seq<char>, Tone, Emphasis)> {
    match l {
        DetailLineView::Title { indicator, label } => seq![
            ("  "@, Tone::Plain, Emphasis::Normal),
            (seq![indicator], tone, Emphasis::Normal),
            (" "@, Tone::Plain, Emphasis::Normal),
            (label, tone, Emphasis::Bold),
        ],
        DetailLineView::Blank => Seq::empty(),
        DetailLineView::Field { label, value } => seq![
            ("  "@ + pad_right(label, 11) + " "@, Tone::Dim, Emphasis::Normal),
            (value, Tone::Plain, Emphasis::Normal),
        ],
        DetailLineView::Section(title) => seq![("  "@ + title, Tone::Accent, Emphasis::Underlined)],
        DetailLineView::Status(text) => seq![("  "@ + text, tone, Emphasis::Normal)],
    }
}

/// The text of each kind of panel line.
pub proof fn lemma_line_text(l: DetailLineView, tone: Tone)
    ensures
        line_text(line_pieces(l, tone)) == match l {
            DetailLineView::Title { indicator, label } => "  "@ + seq![indicator] + " "@ + label,
            DetailLineView::Blank => Seq::<char>::empty(),
            DetailLineView::Field { label, value } => "  "@ + pad_right(label, 11) + " "@ + value,
            DetailLineView::Section(title) => "  "@ + title,
            DetailLineView::Status(text) => "  "@ + text,
        },
{
    reveal_with_fuel(line_text, 5);
    let p = line_pieces(l, tone);
    match l {
        DetailLineView::Title { indicator, label } => {
            assert(p.drop_last().drop_last().drop_last().drop_last() =~= Seq::empty());
            assert(Seq::<char>::empty() + "  "@ =~= "  "@);
        },
        DetailLineView::Field { label, value } => {
            assert(p.drop_last().drop_last() =~= Seq::empty());
            assert(Seq::<char>::empty() + ("  "@ + pad_right(label, 11) + " "@) =~= "  "@
                + pad_right(label, 11) + " "@);
        },
        DetailLineView::Section(title) => {
            assert(p.drop_last() =~= Seq::empty());
            assert(Seq::<char>::empty() + ("  "@ + title) =~= "  "@ + title);
        },
        DetailLineView::Status(text) => {
            assert(p.drop_last() =~= Seq::empty());
            assert(Seq::<char>::empty() + ("  "@ + text) =~= "  "@ + text);
        },
        DetailLineView::Blank => {},
    }
}

/// The panel's lines of text for connection `c`.
pub open spec fn panel_spec(c: Connection) -> Seq<Seq<(Seq<char>, Tone, Emphasis)>> {
    detail_spec(c).map_values(|l: DetailLineView| line_pieces(l, spec_detail_tone(c.status)))
}

/// What the panel shows when no connection is selected.
pub open spec fn empty_panel() -> Seq<Seq<(Seq<char>, Tone, Emphasis)>> {
    seq![seq![("  No connection selected"@, Tone::Dim, Emphasis::Normal)]]
}

pub open spec fn line_views_of(lines: Seq<Vec<Piece>>) -> Seq<Seq<(Seq<char>, Tone, Emphasis)>> {
    lines.map_values(|v: Vec<Piece>| piece_views(v@))
}

/// The pieces of text of one panel line (see [`line_pieces`]).
pub fn panel_line(l: &DetailLine, tone: Tone) -> (r: Vec<Piece>)
    ensures
        piece_views(r@) == line_pieces(l@, tone),
{
    let mut r: Vec<Piece> = Vec::new();
    match l {
        DetailLine::Title { indicator, label } => {
            push_piece(&mut r, own("  "), Tone::Plain, Emphasis::Normal);
            let mut ind = String::new();
            crate::text::push_char(&mut ind, *indicator);
            push_piece(&mut r, ind, tone, Emphasis::Normal);
            push_piece(&mut r, own(" "), Tone::Plain, Emphasis::Normal);
            push_piece(&mut r, own(label.as_str()), tone, Emphasis::Bold);
        },
        DetailLine::Blank => {},
        DetailLine::Field { label, value } => {
            let padded = padded_right(label.as_str(), 11);
            push_piece(&mut r, concat3("  ", padded.as_str(), " "), Tone::Dim, Emphasis::Normal);
            push_piece(&mut r, own(value.as_str()), Tone::Plain, Emphasis::Normal);
        },
        DetailLine::Section(title) => {
            push_piece(&mut r, concat2("  ", title.as_str()), Tone::Accent, Emphasis::Underlined);
        },
        DetailLine::Status(text) => {
            push_piece(&mut r, concat2("  ", text.as_str()), tone, Emphasis::Normal);
        },
    }
    assert(piece_views(r@) =~= line_pieces(l@, tone));
    r
}

/// The panel's lines for connection `c` (see [`panel_spec`]).
pub fn build_lines(c: &Connection) -> (r: Vec<Vec<Piece>>)
    ensures
        line_views_of(r@) == panel_spec(*c),
{
    let tone = detail_tone(c.status);
    let lines = detail_lines(c);
    let mut out: Vec<Vec<Piece>> = Vec::new();
    let mut i: usize = 0;
    while i < lines.len()
        invariant
            i <= lines@.len(),
            line_views(lines@) == detail_spec(*c),
            tone == spec_detail_tone(c.status),
            line_views_of(out@) == panel_spec(*c).take(i as int),
        decreases lines.len() - i,
    {
        let ghost before = out@;
        out.push(panel_line(&lines[i], tone));
        proof {
            assert(line_views(lines@)[i as int] == lines@[i as int]@);
            assert(line_views_of(out@) =~= line_views_of(before).push(panel_spec(*c)[i as int]));
            assert(panel_spec(*c).take(i + 1) =~= panel_spec(*c).take(i as int).push(
                panel_spec(*c)[i as int],
            ));
        }
        i = i + 1;
    }
    assert(panel_spec(*c).take(i as int) =~= panel_spec(*c));
    out
}

/// The detail panel of `app`: the lines of its selected connection, or a
/// note that none is selected.
pub fn detail_panel(app: &App) -> (r: Vec<Vec<Piece>>)
    ensures
        line_views_of(r@) == match selected_connection(app@) {
            Some(c) => panel_spec(c),
            None => empty_panel(),
        },
{
    match app.selected_conn() {
        Some(c) => build_lines(c),
        None => {
            let mut line: Vec<Piece> = Vec::new();
            assert(piece_views(line@) =~= Seq::empty());
            push_piece(&mut line, own("  No connection selected"), Tone::Dim, Emphasis::Normal);
            assert(piece_views(line@) =~= seq![
                ("  No connection selected"@, Tone::Dim, Emphasis::Normal),
            ]);
            let mut out: Vec<Vec<Piece>> = Vec::new();
            out.push(line);
            assert(line_views_of(out@) =~= empty_panel());
            out
        },
    }
}

} // verus!
