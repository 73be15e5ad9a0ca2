//! The one-line summary below the connection list.

use vstd::prelude::*;
use crate::app::{App, ListItemView};
use crate::connection::{Connection, ConnectionStatus, NmState};
use crate::text::{before_first, concat2, concat3, own, text_before_first};
use crate::app::AppView;
use crate::ui::rows::{lemma_line_text_concat, lemma_line_text_one, line_text, push_piece, piece_views, Emphasis, Piece, Tone};

verus! {

/// The active connection as the status line shows it.
#[derive(Debug)]
pub struct ActiveSummary {
    /// The connection's list label.
    pub label: String,
    /// Its device, if known.
    pub device: Option<String>,
    /// Its IPv4 address without the prefix length, if it has one.
    pub address: Option<String>,
}

/// What the status line shows when no message is pending.
#[derive(Debug)]
pub struct StatusLine {
    /// Marker of the daemon state.
    pub indicator: char,
    /// Whether the daemon reports connectivity (picks the colour).
    pub connected: bool,
    /// The daemon state in words.
    pub state_label: String,
    /// The first active connection of the list, if any.
    pub active: Option<ActiveSummary>,
    /// Networking is switched off.
    pub networking_off: bool,
    /// The Wi-Fi radio is switched off.
    pub wireless_off: bool,
}

pub open spec fn state_indicator(s: NmState) -> char {
    match s {
        NmState::ConnectedGlobal | NmState::ConnectedSite | NmState::ConnectedLocal => '●',
        NmState::Connecting => '◌',
        NmState::Disconnected | NmState::Disconnecting => '○',
        _ => '?',
    }
}

/// The first active connection among the rows.
pub open spec fn first_active(items: Seq<ListItemView>) -> Option<Connection>
    decreases items.len(),
{
    if items.len() == 0 {
        None
    } else {
        match items[0] {
            ListItemView::Connection(c) => if c.status == ConnectionStatus::Active {
                Some(c)
            } else {
                first_active(items.drop_first())
            },
            _ => first_active(items.drop_first()),
        }
    }
}

pub open spec fn opt_view(o: Option<String>) -> Option<Seq<char>> {
    match o {
        Some(s) => Some(s@),
        None => None,
    }
}

/// The summary of the active connection `c`.
pub open spec fn active_summary_matches(a: ActiveSummary, c: Connection) -> bool {
    &&& a.label@ == c.spec_label()
    &&& opt_view(a.device) == opt_view(c.device)
    &&& opt_view(a.address) == match c.ip4 {
        Some(ip) => Some(before_first(ip.address@, '/')),
        None => None,
    }
}

fn clone_opt(o: &Option<String>) -> (r: Option<String>)
    ensures
        opt_view(r) == opt_view(*o),
{
    match o {
        Some(s) => Some(own(s.as_str())),
        None => None,
    }
}

fn summarize(c: &Connection) -> (r: ActiveSummary)
    ensures
        active_summary_matches(r, *c),
{
    ActiveSummary {
        label: own(c.label()),
        device: clone_opt(&c.device),
        address: match &c.ip4 {
            Some(ip) => Some(text_before_first(ip.address.as_str(), '/')),
            None => None,
        },
    }
}

/// The first active connection among `items`.
fn find_active(items: &Vec<crate::app::ListItem>) -> (r: Option<&Connection>)
    ensures
        match first_active(crate::app::views(items@)) {
            Some(c) => r == Some(&c),
            None => r is None,
        },
{
    let ghost vs = crate::app::views(items@);
    let mut j: usize = 0;
    assert(vs.skip(0) =~= vs);
    while j < items.len()
        invariant
            vs == crate::app::views(items@),
            j <= items@.len(),
            first_active(vs) == first_active(vs.skip(j as int)),
        decreases items.len() - j,
    {
        assert(vs.skip(j as int).drop_first() =~= vs.skip(j + 1));
        assert(vs.skip(j as int)[0] == items@[j as int]@);
        if let Some(c) = items[j].as_connection() {
            if c.is_active() {
                return Some(c);
            }
        }
        j = j + 1;
    }
    assert(vs.skip(j as int).len() == 0);
    None
}

/// The status line of `app` (used when it has no status message).
pub fn status_line(app: &App) -> (r: StatusLine)
    ensures
        r.indicator == state_indicator(app.nm_state),
        r.connected == app.nm_state.spec_is_connected(),
        r.state_label@ == app.nm_state.spec_label(),
        match first_active(app@.items) {
            Some(c) => r.active matches Some(a) && active_summary_matches(a, c),
            None => r.active is None,
        },
        r.networking_off == !app.networking_enabled,
        r.wireless_off == !app.wireless_enabled,
{
    let indicator = match app.nm_state {
        NmState::ConnectedGlobal | NmState::ConnectedSite | NmState::ConnectedLocal => '●',
        NmState::Connecting => '◌',
        NmState::Disconnected | NmState::Disconnecting => '○',
        _ => '?',
    };
    let active = match find_active(&app.items) {
        Some(c) => Some(summarize(c)),
        None => None,
    };
    StatusLine {
        indicator,
        connected: app.nm_state.is_connected(),
        state_label: own(app.nm_state.label()),
        active,
        networking_off: !app.networking_enabled,
        wireless_off: !app.wireless_enabled,
    }
}

/// What the status bar shows: the pending message, or else the summary.
#[derive(Debug)]
pub enum StatusBar {
    Message(String),
    Summary(StatusLine),
}

/// The status bar of `app`: its status message when it has one, the
/// summary of [`status_line`] otherwise.
pub fn status_bar(app: &App) -> (r: StatusBar)
    ensures
        match app.status_message {
            Some(m) => r matches StatusBar::Message(t) && t@ == m@,
            None => r is Summary,
        },
        r matches StatusBar::Summary(s) ==> s.indicator == state_indicator(app.nm_state)
            && s.connected == app.nm_state.spec_is_connected() && s.state_label@
            == app.nm_state.spec_label() && s.networking_off == !app.networking_enabled
            && s.wireless_off == !app.wireless_enabled && match first_active(app@.items) {
            Some(c) => s.active matches Some(a) && active_summary_matches(a, c),
            None => s.active is None,
        },
{
    match &app.status_message {
        Some(m) => StatusBar::Message(own(m.as_str())),
        None => StatusBar::Summary(status_line(app)),
    }
}


pub open spec fn piece(text: Seq<char>, tone: Tone, emphasis: Emphasis) -> (Seq<char>, Tone, Emphasis) {
    (text, tone, emphasis)
}

/// The pieces of the summary of the active connection `c`.
pub open spec fn active_pieces(c: Connection) -> Seq<(Seq<char>, Tone, Emphasis)> {
    seq![piece("  ─  "@, Tone::Dim, Emphasis::Normal), piece(c.spec_label(), Tone::Plain, Emphasis::Normal)]
        + match c.device {
        Some(d) => seq![piece(" ["@ + d@ + "]"@, Tone::Dim, Emphasis::Normal)],
        None => Seq::empty(),
    } + match c.ip4 {
        Some(ip) => seq![piece("  "@ + before_first(ip.address@, '/'), Tone::Dim, Emphasis::Normal)],
        None => Seq::empty(),
    }
}

/// The status bar as pieces of text: the pending message, or the daemon
/// state, the first active connection and the switched-off radios.
pub open spec fn status_pieces_spec(v: AppView) -> Seq<(Seq<char>, Tone, Emphasis)> {
    match v.status {
        Some(m) => seq![piece(" "@ + m, Tone::Warn, Emphasis::Normal)],
        None => {
            let tone = if v.nm_state.spec_is_connected() {
                Tone::Active
            } else {
                Tone::Warn
            };
            seq![
                piece(" "@, Tone::Plain, Emphasis::Normal),
                piece(seq![state_indicator(v.nm_state)], tone, Emphasis::Bold),
                piece(" "@, Tone::Plain, Emphasis::Normal),
                piece(v.nm_state.spec_label(), tone, Emphasis::Normal),
            ] + match first_active(v.items) {
                Some(c) => active_pieces(c),
                None => Seq::empty(),
            } + if v.networking_enabled {
                Seq::empty()
            } else {
                seq![
                    piece("  ─  "@, Tone::Dim, Emphasis::Normal),
                    piece("Net: off"@, Tone::Warn, Emphasis::Bold),
                ]
            } + if v.wireless_enabled {
                Seq::empty()
            } else {
                seq![
                    piece("  "@, Tone::Plain, Emphasis::Normal),
                    piece("Wi-Fi: off"@, Tone::Warn, Emphasis::Bold),
                ]
            }
        },
    }
}

fn push_active(line: &mut Vec<Piece>, c: &Connection)
    ensures
        piece_views(final(line)@) == piece_views(old(line)@) + active_pieces(*c),
{
    let ghost before = piece_views(line@);
    push_piece(line, own("  ─  "), Tone::Dim, Emphasis::Normal);
    push_piece(line, own(c.label()), Tone::Plain, Emphasis::Normal);
    match &c.device {
        Some(d) => push_piece(line, concat3(" [", d.as_str(), "]"), Tone::Dim, Emphasis::Normal),
        None => {},
    }
    match &c.ip4 {
        Some(ip) => {
            let addr = text_before_first(ip.address.as_str(), '/');
            push_piece(line, concat2("  ", addr.as_str()), Tone::Dim, Emphasis::Normal);
        },
        None => {},
    }
    assert(piece_views(line@) =~= before + active_pieces(*c));
}

/// The pieces of text of the status bar (see [`status_pieces_spec`]).
pub fn status_pieces(app: &App) -> (r: Vec<Piece>)
    ensures
        piece_views(r@) == status_pieces_spec(app@),
{
    let mut line: Vec<Piece> = Vec::new();
    assert(piece_views(line@) =~= Seq::empty());
    match &app.status_message {
        Some(m) => {
            push_piece(&mut line, concat2(" ", m.as_str()), Tone::Warn, Emphasis::Normal);
            assert(piece_views(line@) =~= status_pieces_spec(app@));
        },
        None => {
            let tone = if app.nm_state.is_connected() {
                Tone::Active
            } else {
                Tone::Warn
            };
            let indicator = match app.nm_state {
                NmState::ConnectedGlobal | NmState::ConnectedSite | NmState::ConnectedLocal => '●',
                NmState::Connecting => '◌',
                NmState::Disconnected | NmState::Disconnecting => '○',
                _ => '?',
            };
            let mut ind = String::new();
            crate::text::push_char(&mut ind, indicator);
            push_piece(&mut line, own(" "), Tone::Plain, Emphasis::Normal);
            push_piece(&mut line, ind, tone, Emphasis::Bold);
            push_piece(&mut line, own(" "), Tone::Plain, Emphasis::Normal);
            push_piece(&mut line, own(app.nm_state.label()), tone, Emphasis::Normal);
            let ghost head = piece_views(line@);
            match find_active(&app.items) {
                Some(c) => push_active(&mut line, c),
                None => {},
            }
            let ghost with_active = piece_views(line@);
            if !app.networking_enabled {
                push_piece(&mut line, own("  ─  "), Tone::Dim, Emphasis::Normal);
                push_piece(&mut line, own("Net: off"), Tone::Warn, Emphasis::Bold);
            }
            let ghost with_net = piece_views(line@);
            if !app.wireless_enabled {
                push_piece(&mut line, own("  "), Tone::Plain, Emphasis::Normal);
                push_piece(&mut line, own("Wi-Fi: off"), Tone::Warn, Emphasis::Bold);
            }
            proof {
                let v = app@;
                assert(head =~= seq![
                    piece(" "@, Tone::Plain, Emphasis::Normal),
                    piece(seq![state_indicator(v.nm_state)], tone, Emphasis::Bold),
                    piece(" "@, Tone::Plain, Emphasis::Normal),
                    piece(v.nm_state.spec_label(), tone, Emphasis::Normal),
                ]);
                assert(with_active =~= head + match first_active(v.items) {
                    Some(c) => active_pieces(c),
                    None => Seq::empty(),
                });
                assert(piece_views(line@) =~= status_pieces_spec(v));
            }
        },
    }
    line
}

/// The text of the summary of the active connection `c`.
pub open spec fn active_text(c: Connection) -> Seq<char> {
    "  ─  "@ + c.spec_label() + match c.device {
        Some(d) => " ["@ + d@ + "]"@,
        None => Seq::empty(),
    } + match c.ip4 {
        Some(ip) => "  "@ + before_first(ip.address@, '/'),
        None => Seq::empty(),
    }
}

proof fn lemma_text_of_pieces(
    p0: (Seq<char>, Tone, Emphasis),
    p1: (Seq<char>, Tone, Emphasis),
)
    ensures
        line_text(seq![p0, p1]) == p0.0 + p1.0,
{
    lemma_line_text_concat(seq![p0], seq![p1]);
    lemma_line_text_one(p0);
    lemma_line_text_one(p1);
    assert(seq![p0] + seq![p1] =~= seq![p0, p1]);
}

proof fn lemma_active_text(c: Connection)
    ensures
        line_text(active_pieces(c)) == active_text(c),
{
    let e = Emphasis::Normal;
    let two = seq![piece("  ─  "@, Tone::Dim, e), piece(c.spec_label(), Tone::Plain, e)];
    let d = match c.device {
        Some(d) => seq![piece(" ["@ + d@ + "]"@, Tone::Dim, e)],
        None => Seq::<(Seq<char>, Tone, Emphasis)>::empty(),
    };
    let a = match c.ip4 {
        Some(ip) => seq![piece("  "@ + before_first(ip.address@, '/'), Tone::Dim, e)],
        None => Seq::<(Seq<char>, Tone, Emphasis)>::empty(),
    };
    lemma_text_of_pieces(two[0], two[1]);
    assert(seq![two[0], two[1]] =~= two);
    lemma_line_text_concat(two, d);
    lemma_line_text_concat(two + d, a);
    assert(line_text(Seq::<(Seq<char>, Tone, Emphasis)>::empty()) == Seq::<char>::empty());
    if d.len() > 0 {
        lemma_line_text_one(d[0]);
        assert(seq![d[0]] =~= d);
    }
    if a.len() > 0 {
        lemma_line_text_one(a[0]);
        assert(seq![a[0]] =~= a);
    }
    assert(line_text(two) + line_text(d) + line_text(a) =~= active_text(c));
}

proof fn lemma_head_text(ind: char, label: Seq<char>, tone: Tone)
    ensures
        line_text(
            seq![
                piece(" "@, Tone::Plain, Emphasis::Normal),
                piece(seq![ind], tone, Emphasis::Bold),
                piece(" "@, Tone::Plain, Emphasis::Normal),
                piece(label, tone, Emphasis::Normal),
            ],
        ) == " "@ + seq![ind] + " "@ + label,
{
    let h = seq![
        piece(" "@, Tone::Plain, Emphasis::Normal),
        piece(seq![ind], tone, Emphasis::Bold),
        piece(" "@, Tone::Plain, Emphasis::Normal),
        piece(label, tone, Emphasis::Normal),
    ];
    lemma_text_of_pieces(h[0], h[1]);
    lemma_text_of_pieces(h[2], h[3]);
    lemma_line_text_concat(seq![h[0], h[1]], seq![h[2], h[3]]);
    assert(seq![h[0], h[1]] + seq![h[2], h[3]] =~= h);
}

/// The text of the status bar: the pending message after a space, or the
/// state marker and label, then the active connection's summary and the
/// switched-off radios.
pub proof fn lemma_status_text(v: AppView)
    ensures
        line_text(status_pieces_spec(v)) == match v.status {
            Some(m) => " "@ + m,
            None => " "@ + seq![state_indicator(v.nm_state)] + " "@ + v.nm_state.spec_label()
                + match first_active(v.items) {
                Some(c) => active_text(c),
                None => Seq::empty(),
            } + if v.networking_enabled {
                Seq::empty()
            } else {
                "  ─  "@ + "Net: off"@
            } + if v.wireless_enabled {
                Seq::empty()
            } else {
                "  "@ + "Wi-Fi: off"@
            },
        },
{
    let e = Emphasis::Normal;
    match v.status {
        Some(m) => {
            lemma_line_text_one(piece(" "@, Tone::Warn, e));
            lemma_line_text_one(piece(" "@ + m, Tone::Warn, e));
        },
        None => {
            let tone = if v.nm_state.spec_is_connected() {
                Tone::Active
            } else {
                Tone::Warn
            };
            let head = seq![
                piece(" "@, Tone::Plain, e),
                piece(seq![state_indicator(v.nm_state)], tone, Emphasis::Bold),
                piece(" "@, Tone::Plain, e),
                piece(v.nm_state.spec_label(), tone, e),
            ];
            let act = match first_active(v.items) {
                Some(c) => active_pieces(c),
                None => Seq::<(Seq<char>, Tone, Emphasis)>::empty(),
            };
            let net = if v.networking_enabled {
                Seq::<(Seq<char>, Tone, Emphasis)>::empty()
            } else {
                seq![piece("  ─  "@, Tone::Dim, e), piece("Net: off"@, Tone::Warn, Emphasis::Bold)]
            };
            let wifi = if v.wireless_enabled {
                Seq::<(Seq<char>, Tone, Emphasis)>::empty()
            } else {
                seq![piece("  "@, Tone::Plain, e), piece("Wi-Fi: off"@, Tone::Warn, Emphasis::Bold)]
            };
            lemma_head_text(state_indicator(v.nm_state), v.nm_state.spec_label(), tone);
            lemma_line_text_concat(head, act);
            lemma_line_text_concat(head + act, net);
            lemma_line_text_concat(head + act + net, wifi);
            assert(line_text(Seq::<(Seq<char>, Tone, Emphasis)>::empty()) == Seq::<char>::empty());
            if !v.networking_enabled {
                lemma_text_of_pieces(net[0], net[1]);
                assert(seq![net[0], net[1]] =~= net);
            }
            if !v.wireless_enabled {
                lemma_text_of_pieces(wifi[0], wifi[1]);
                assert(seq![wifi[0], wifi[1]] =~= wifi);
            }
            match first_active(v.items) {
                Some(c) => lemma_active_text(c),
                None => {},
            }
            assert(status_pieces_spec(v) == head + act + net + wifi);
        },
    }
}

} // verus!
