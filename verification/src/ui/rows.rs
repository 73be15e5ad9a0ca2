//! Rows of the connection list: the text of each cell and its colour role.

use vstd::prelude::*;
use crate::connection::{Connection, ConnectionKind, ConnectionStatus, bar_of, band_of};
use crate::nm::numbers::{decimal, decimal_string};
use crate::text::{concat2, concat3, own, pad_left, pad_right, padded_left, padded_right};

verus! {

/// Colour roles of the interface; the terminal front end maps them to colours.
#[derive(Debug, Clone, Copy, PartialEq, Eq, Structural)]
pub enum Tone {
    /// Default terminal colour.
    Plain,
    /// Active connections and a connected daemon.
    Active,
    /// Transitions and warnings.
    Warn,
    /// Secondary information.
    Dim,
    /// Headings and key names.
    Accent,
    /// Signal of 75 % and more.
    SignalStrong,
    /// Signal of 50 % to 74 %.
    SignalGood,
    /// Signal of 25 % to 49 %.
    SignalFair,
    /// Weaker signal, and values above 100.
    SignalWeak,
}

/// A piece of text with its colour role.
#[derive(Debug)]
pub struct Styled {
    pub text: String,
    pub tone: Tone,
}

impl View for Styled {
    type V = (Seq<char>, Tone);

    open spec fn view(&self) -> (Seq<char>, Tone) {
        (self.text@, self.tone)
    }
}

/// Emphasis of a piece of text.
#[derive(Debug, Clone, Copy, PartialEq, Eq, Structural)]
pub enum Emphasis {
    Normal,
    Bold,
    Underlined,
}

/// A piece of a line of text: its characters, colour role and emphasis.
#[derive(Debug)]
pub struct Piece {
    pub text: String,
    pub tone: Tone,
    pub emphasis: Emphasis,
}

impl View for Piece {
    type V = (Seq<char>, Tone, Emphasis);

    open spec fn view(&self) -> (Seq<char>, Tone, Emphasis) {
        (self.text@, self.tone, self.emphasis)
    }
}

/// The views of a sequence of pieces.
pub open spec fn piece_views(s: Seq<Piece>) -> Seq<(Seq<char>, Tone, Emphasis)> {
    s.map_values(|p: Piece| p@)
}

/// The text of a line made of `pieces`.
pub open spec fn line_text(pieces: Seq<(Seq<char>, Tone, Emphasis)>) -> Seq<char>
    decreases pieces.len(),
{
    if pieces.len() == 0 {
        Seq::empty()
    } else {
        line_text(pieces.drop_last()) + pieces.last().0
    }
}

/// The text of two lines put one after the other.
pub proof fn lemma_line_text_concat(
    a: Seq<(Seq<char>, Tone, Emphasis)>,
    b: Seq<(Seq<char>, Tone, Emphasis)>,
)
    ensures
        line_text(a + b) == line_text(a) + line_text(b),
    decreases b.len(),
{
    if b.len() == 0 {
        assert(a + b =~= a);
        assert(line_text(a) + line_text(b) =~= line_text(a));
    } else {
        lemma_line_text_concat(a, b.drop_last());
        assert((a + b).drop_last() =~= a + b.drop_last());
        assert((a + b).last() == b.last());
    }
}

/// The text of a line of one piece.
pub proof fn lemma_line_text_one(p: (Seq<char>, Tone, Emphasis))
    ensures
        line_text(seq![p]) == p.0,
{
    assert(seq![p].drop_last() =~= Seq::empty());
    assert(line_text(Seq::<(Seq<char>, Tone, Emphasis)>::empty()) + p.0 =~= p.0);
}

/// Appends a piece to a line.
pub fn push_piece(line: &mut Vec<Piece>, text: String, tone: Tone, emphasis: Emphasis)
    ensures
        piece_views(final(line)@) == piece_views(old(line)@).push((text@, tone, emphasis)),
{
    let ghost before = line@;
    line.push(Piece { text, tone, emphasis });
    assert(piece_views(line@) =~= piece_views(before).push((text@, tone, emphasis)));
}

/// The views of a sequence of styled pieces.
pub open spec fn styled_views(s: Seq<Styled>) -> Seq<(Seq<char>, Tone)> {
    s.map_values(|p: Styled| p@)
}

pub open spec fn spec_strength_tone(strength: u8) -> Tone {
    if 75 <= strength && strength <= 100 {
        Tone::SignalStrong
    } else if 50 <= strength && strength <= 74 {
        Tone::SignalGood
    } else if 25 <= strength && strength <= 49 {
        Tone::SignalFair
    } else {
        Tone::SignalWeak
    }
}

/// Colour role of a signal-strength bar.
pub fn strength_tone(strength: u8) -> (r: Tone)
    ensures
        r == spec_strength_tone(strength),
{
    if 75 <= strength && strength <= 100 {
        Tone::SignalStrong
    } else if 50 <= strength && strength <= 74 {
        Tone::SignalGood
    } else if 25 <= strength && strength <= 49 {
        Tone::SignalFair
    } else {
        Tone::SignalWeak
    }
}

pub open spec fn spec_status_tone(status: ConnectionStatus) -> Tone {
    match status {
        ConnectionStatus::Active => Tone::Active,
        ConnectionStatus::Activating | ConnectionStatus::Deactivating => Tone::Warn,
        ConnectionStatus::Inactive => Tone::Plain,
        ConnectionStatus::Unknown => Tone::Dim,
    }
}

/// Colour role of a connection's status marker in the list.
pub fn status_tone(status: ConnectionStatus) -> (r: Tone)
    ensures
        r == spec_status_tone(status),
{
    match status {
        ConnectionStatus::Active => Tone::Active,
        ConnectionStatus::Activating | ConnectionStatus::Deactivating => Tone::Warn,
        ConnectionStatus::Inactive => Tone::Plain,
        ConnectionStatus::Unknown => Tone::Dim,
    }
}

/// `s` cut to `max_chars` characters, the last of them replaced by `…` when
/// anything was cut.
pub open spec fn spec_truncate(s: Seq<char>, max_chars: nat) -> Seq<char> {
    if s.len() <= max_chars {
        s
    } else {
        s.take(max_chars - 1).push('…')
    }
}

/// Shortens `s` to at most `max_chars` characters, ending in `…` when cut.
pub fn truncate(s: &str, max_chars: usize) -> (r: String)
    requires
        s@.len() <= max_chars || max_chars > 0,
    ensures
        r@ == spec_truncate(s@, max_chars as nat),
{
    let n = s.unicode_len();
    if n <= max_chars {
        own(s)
    } else {
        let r = concat2(s.substring_char(0, max_chars - 1), "…");
        proof {
            reveal_strlit("…");
        }
        assert(r@ =~= s@.take(max_chars - 1).push('…'));
        r
    }
}

/// The name column of a row: cut to 22 characters, padded to 24.
pub open spec fn name_cell(s: Seq<char>) -> Seq<char> {
    pad_right(spec_truncate(s, 22), 24)
}

pub open spec fn name_tone(c: Connection) -> Tone {
    if c.status == ConnectionStatus::Active {
        Tone::Active
    } else {
        Tone::Plain
    }
}

/// The cells of a connection's row in the list.
pub open spec fn row_spec(c: Connection) -> Seq<(Seq<char>, Tone)> {
    let marker = (seq![' ', c.status.spec_indicator(), ' '], spec_status_tone(c.status));
    match c.kind {
        ConnectionKind::Wifi(w) => seq![
            marker,
            (name_cell(w.ssid@), name_tone(c)),
            if c.saved {
                (""@, Tone::Plain)
            } else {
                (" +"@, Tone::Warn)
            },
            (bar_of(w.strength), spec_strength_tone(w.strength)),
            (" "@ + pad_left(decimal(w.strength as nat), 3) + "%"@, Tone::Dim),
            if w.security != crate::connection::WifiSecurity::Open {
                (" 🔒"@, Tone::Plain)
            } else {
                ("   "@, Tone::Plain)
            },
            match w.frequency {
                Some(f) => (" "@ + band_of(f), Tone::Dim),
                None => (""@, Tone::Plain),
            },
        ],
        ConnectionKind::Ethernet => seq![
            marker,
            (name_cell(c.id@), name_tone(c)),
            (
                " ["@ + match c.device {
                    Some(d) => d@,
                    None => "eth?"@,
                } + "]"@,
                Tone::Dim,
            ),
        ],
        ConnectionKind::Vpn(_) => seq![
            marker,
            (name_cell(c.id@), name_tone(c)),
            (" VPN"@, Tone::Dim),
        ],
        _ => seq![(" "@ + spec_truncate(c.id@, 30), Tone::Plain)],
    }
}

fn styled(text: String, tone: Tone) -> (r: Styled)
    ensures
        r@ == (text@, tone),
{
    Styled { text, tone }
}

fn name_column(name: &str, c: &Connection) -> (r: Styled)
    ensures
        r@ == (name_cell(name@), name_tone(*c)),
{
    let cut = truncate(name, 22);
    let tone = if c.is_active() {
        Tone::Active
    } else {
        Tone::Plain
    };
    styled(padded_right(cut.as_str(), 24), tone)
}

/// The cells of a connection's row in the list (see [`row_spec`]).
pub fn connection_row(c: &Connection) -> (r: Vec<Styled>)
    ensures
        styled_views(r@) == row_spec(*c),
{
    let mut r: Vec<Styled> = Vec::new();
    let mut marker = String::new();
    crate::text::push_char(&mut marker, ' ');
    crate::text::push_char(&mut marker, c.status.indicator());
    crate::text::push_char(&mut marker, ' ');
    assert(marker@ =~= seq![' ', c.status.spec_indicator(), ' ']);
    proof {
        reveal_strlit("");
    }
    match &c.kind {
        ConnectionKind::Wifi(w) => {
            r.push(styled(marker, status_tone(c.status)));
            r.push(name_column(w.ssid.as_str(), c));
            if c.saved {
                r.push(styled(String::new(), Tone::Plain));
            } else {
                r.push(styled(own(" +"), Tone::Warn));
            }
            r.push(styled(w.strength_bar(), strength_tone(w.strength)));
            let digits = decimal_string(w.strength as u32);
            let pct = padded_left(digits.as_str(), 3);
            r.push(styled(concat3(" ", pct.as_str(), "%"), Tone::Dim));
            if w.security.is_secured() {
                r.push(styled(own(" 🔒"), Tone::Plain));
            } else {
                r.push(styled(own("   "), Tone::Plain));
            }
            match w.band_label() {
                Some(b) => r.push(styled(concat2(" ", b), Tone::Dim)),
                None => r.push(styled(String::new(), Tone::Plain)),
            }
            assert(styled_views(r@).len() == 7);
            assert(row_spec(*c).len() == 7);
            assert(styled_views(r@)[0] == row_spec(*c)[0]);
            assert(styled_views(r@)[1] == row_spec(*c)[1]);
            assert(styled_views(r@)[2] == row_spec(*c)[2]);
            assert(styled_views(r@)[3] == row_spec(*c)[3]);
            assert(styled_views(r@)[4] == row_spec(*c)[4]);
            assert(styled_views(r@)[5] == row_spec(*c)[5]);
            assert(styled_views(r@)[6] == row_spec(*c)[6]);
            assert(styled_views(r@) =~= row_spec(*c));
        },
        ConnectionKind::Ethernet => {
            r.push(styled(marker, status_tone(c.status)));
            r.push(name_column(c.id.as_str(), c));
            let device: &str = match &c.device {
                Some(d) => d.as_str(),
                None => "eth?",
            };
            r.push(styled(concat3(" [", device, "]"), Tone::Dim));
            assert(styled_views(r@) =~= row_spec(*c));
        },
        ConnectionKind::Vpn(_) => {
            r.push(styled(marker, status_tone(c.status)));
            r.push(name_column(c.id.as_str(), c));
            r.push(styled(own(" VPN"), Tone::Dim));
            assert(styled_views(r@) =~= row_spec(*c));
        },
        _ => {
            let cut = truncate(c.id.as_str(), 30);
            r.push(styled(concat2(" ", cut.as_str()), Tone::Plain));
            assert(styled_views(r@) =~= row_spec(*c));
        },
    }
    r
}

} // verus!
