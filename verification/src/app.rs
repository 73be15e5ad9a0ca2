//! Application state and the decisions taken on each key press.
//!
//! The event loop that owns the terminal and the NetworkManager client lives
//! outside this library; it feeds key presses and refreshed connection lists
//! into [`App`] and acts on the returned [`Action`].

use vstd::prelude::*;
use crate::connection::{
    Connection, ConnectionKind, ConnectionStatus, NmState, VpnInfo, WifiInfo, WifiMode,
    WifiSecurity, Ip4Config,
};
use crate::text::{concat3, own, str_eq};
use crate::ui::key::Key;
use vstd::arithmetic::div_mod::{
    lemma_add_mod_noop, lemma_fundamental_div_mod, lemma_fundamental_div_mod_converse,
};

verus! {

broadcast use vstd::seq_lib::group_seq_properties;

// ── List items ───────────────────────────────────────────────────────────────

/// A single row in the connection list.
#[derive(Debug)]
pub enum ListItem {
    /// Section title.
    Header(String),
    /// A saved profile or a visible access point.
    Connection(Connection),
    /// The `[ Connect to hidden… ]` entry at the end of the Wi-Fi section.
    HiddenWifiConnect,
}

/// A list row as the contracts see it.
pub enum ListItemView {
    Header(Seq<char>),
    Connection(Connection),
    HiddenWifiConnect,
}

impl View for ListItem {
    type V = ListItemView;

    open spec fn view(&self) -> ListItemView {
        match self {
            ListItem::Header(h) => ListItemView::Header(h@),
            ListItem::Connection(c) => ListItemView::Connection(*c),
            ListItem::HiddenWifiConnect => ListItemView::HiddenWifiConnect,
        }
    }
}

/// The views of a sequence of rows.
pub open spec fn views(items: Seq<ListItem>) -> Seq<ListItemView> {
    items.map_values(|i: ListItem| i@)
}

/// Rows that the selection can rest on: connections and the hidden-network entry.
pub open spec fn selectable_pred() -> spec_fn(ListItemView) -> bool {
    |i: ListItemView| i is Connection || i is HiddenWifiConnect
}

/// The selectable rows, in list order.
pub open spec fn selectable(items: Seq<ListItemView>) -> Seq<ListItemView> {
    items.filter(selectable_pred())
}

impl ListItem {
    /// The connection this row shows, if it shows one.
    pub fn as_connection(&self) -> (r: Option<&Connection>)
        ensures
            r == (match self {
                ListItem::Connection(c) => Some(c),
                _ => None,
            }),
    {
        match self {
            ListItem::Connection(c) => Some(c),
            _ => None,
        }
    }

    /// Whether this row shows a connection.
    pub fn is_connection(&self) -> (r: bool)
        ensures
            r == (self is Connection),
    {
        matches!(self, ListItem::Connection(_))
    }

    /// Whether the selection can rest on this row.
    pub fn is_selectable(&self) -> (r: bool)
        ensures
            r == selectable_pred()(self@),
    {
        matches!(self, ListItem::Connection(_) | ListItem::HiddenWifiConnect)
    }
}

// ── Grouping ─────────────────────────────────────────────────────────────────

pub open spec fn wifi_pred() -> spec_fn(Connection) -> bool {
    |c: Connection| c.kind is Wifi
}

pub open spec fn ethernet_pred() -> spec_fn(Connection) -> bool {
    |c: Connection| c.kind is Ethernet
}

pub open spec fn vpn_pred() -> spec_fn(Connection) -> bool {
    |c: Connection| c.kind is Vpn
}

pub open spec fn other_pred() -> spec_fn(Connection) -> bool {
    |c: Connection| !(c.kind is Wifi || c.kind is Ethernet || c.kind is Vpn)
}

/// Connections shown as list rows.
pub open spec fn as_rows(cs: Seq<Connection>) -> Seq<ListItemView> {
    cs.map_values(|c: Connection| ListItemView::Connection(c))
}

/// A titled section, or nothing when it has no connections.
pub open spec fn section(title: Seq<char>, cs: Seq<Connection>) -> Seq<ListItemView> {
    if cs.len() == 0 {
        Seq::empty()
    } else {
        seq![ListItemView::Header(title)] + as_rows(cs)
    }
}

/// The connection list: the Wi-Fi section (always shown, ending with the
/// hidden-network entry), then Ethernet, VPN and everything else, each in the
/// order the connections came in.
pub open spec fn list_items_spec(cs: Seq<Connection>) -> Seq<ListItemView> {
    seq![ListItemView::Header("Wi-Fi"@)] + as_rows(cs.filter(wifi_pred())) + seq![
        ListItemView::HiddenWifiConnect,
    ] + section("Ethernet"@, cs.filter(ethernet_pred())) + section("VPN"@, cs.filter(vpn_pred()))
        + section("Other"@, cs.filter(other_pred()))
}

proof fn lemma_group_step(
    cs: Seq<Connection>,
    i: int,
    group: Seq<ListItem>,
    pred: spec_fn(Connection) -> bool,
    c: Connection,
)
    requires
        0 <= i < cs.len(),
        c == cs[i],
        views(group) == as_rows(cs.take(i).filter(pred)),
    ensures
        pred(c) ==> views(group.push(ListItem::Connection(c))) == as_rows(
            cs.take(i + 1).filter(pred),
        ),
        !pred(c) ==> views(group) == as_rows(cs.take(i + 1).filter(pred)),
{
    assert(cs.take(i + 1) =~= cs.take(i).push(c));
    cs.take(i).lemma_filter_push(c, pred);
    if pred(c) {
        let f = cs.take(i).filter(pred);
        assert(views(group.push(ListItem::Connection(c))) =~= views(group).push(
            ListItemView::Connection(c),
        ));
        assert(as_rows(f.push(c)) =~= as_rows(f).push(ListItemView::Connection(c)));
        assert(views(group.push(ListItem::Connection(c))) =~= as_rows(
            cs.take(i + 1).filter(pred),
        ));
    }
}

/// Appends a titled section to `items` when `group` is not empty.
fn push_section(items: &mut Vec<ListItem>, title: &str, group: Vec<ListItem>)
    ensures
        views(final(items)@) == views(old(items)@) + (if group@.len() == 0 {
            Seq::empty()
        } else {
            seq![ListItemView::Header(title@)] + views(group@)
        }),
{
    if group.len() == 0 {
        assert(views(items@) =~= views(items@) + Seq::<ListItemView>::empty());
        return;
    }
    let ghost before = items@;
    let ghost rows = group@;
    items.push(ListItem::Header(own(title)));
    let mut group = group;
    items.append(&mut group);
    assert(views(items@) =~= views(before) + (seq![ListItemView::Header(title@)] + views(rows)));
}

/// Groups connections into titled sections (see [`list_items_spec`]).
pub fn build_list_items(connections: Vec<Connection>) -> (r: Vec<ListItem>)
    ensures
        views(r@) == list_items_spec(connections@),
{
    let ghost cs = connections@;
    let mut rest = connections;
    let mut wifi: Vec<ListItem> = Vec::new();
    let mut ethernet: Vec<ListItem> = Vec::new();
    let mut vpn: Vec<ListItem> = Vec::new();
    let mut other: Vec<ListItem> = Vec::new();
    let ghost mut i: int = 0;
    proof {
        assert(views(wifi@) =~= as_rows(cs.take(0).filter(wifi_pred())));
        assert(views(ethernet@) =~= as_rows(cs.take(0).filter(ethernet_pred())));
        assert(views(vpn@) =~= as_rows(cs.take(0).filter(vpn_pred())));
        assert(views(other@) =~= as_rows(cs.take(0).filter(other_pred())));
    }
    while rest.len() > 0
        invariant
            0 <= i <= cs.len(),
            rest@ == cs.skip(i),
            views(wifi@) == as_rows(cs.take(i).filter(wifi_pred())),
            views(ethernet@) == as_rows(cs.take(i).filter(ethernet_pred())),
            views(vpn@) == as_rows(cs.take(i).filter(vpn_pred())),
            views(other@) == as_rows(cs.take(i).filter(other_pred())),
        decreases rest.len(),
    {
        let c = rest.remove(0);
        proof {
            assert(c == cs[i]);
            lemma_group_step(cs, i, wifi@, wifi_pred(), c);
            lemma_group_step(cs, i, ethernet@, ethernet_pred(), c);
            lemma_group_step(cs, i, vpn@, vpn_pred(), c);
            lemma_group_step(cs, i, other@, other_pred(), c);
        }
        match &c.kind {
            ConnectionKind::Wifi(_) => wifi.push(ListItem::Connection(c)),
            ConnectionKind::Ethernet => ethernet.push(ListItem::Connection(c)),
            ConnectionKind::Vpn(_) => vpn.push(ListItem::Connection(c)),
            _ => other.push(ListItem::Connection(c)),
        }
        proof {
            assert(rest@ =~= cs.skip(i + 1));
            i = i + 1;
        }
    }
    assert(cs.take(i) =~= cs);
    let mut items: Vec<ListItem> = Vec::new();
    items.push(ListItem::Header(own("Wi-Fi")));
    items.append(&mut wifi);
    items.push(ListItem::HiddenWifiConnect);
    proof {
        assert(views(items@) =~= seq![ListItemView::Header("Wi-Fi"@)] + as_rows(
            cs.filter(wifi_pred()),
        ) + seq![ListItemView::HiddenWifiConnect]);
        assert(cs.filter(ethernet_pred()).len() == 0 ==> as_rows(cs.filter(ethernet_pred()))
            =~= Seq::empty());
        assert(cs.filter(vpn_pred()).len() == 0 ==> as_rows(cs.filter(vpn_pred())) =~= Seq::empty());
        assert(cs.filter(other_pred()).len() == 0 ==> as_rows(cs.filter(other_pred()))
            =~= Seq::empty());
    }
    push_section(&mut items, "Ethernet", ethernet);
    push_section(&mut items, "VPN", vpn);
    push_section(&mut items, "Other", other);
    proof {
        assert(views(items@) =~= list_items_spec(cs));
    }
    items
}


// ── Application state ────────────────────────────────────────────────────────

/// Outcome of handling a key press.
#[derive(Debug, Clone, Copy, PartialEq, Eq, Structural)]
pub enum Action {
    Quit,
    Continue,
    /// Ask NetworkManager to switch networking on (`true`) or off.
    SetNetworking(bool),
    /// Ask NetworkManager to switch the Wi-Fi radio on (`true`) or off.
    SetWireless(bool),
}

/// Everything that drives the interface: NetworkManager state, list, focus.
#[derive(Debug)]
pub struct App {
    /// Flat list of rows (section headers interleaved).
    pub items: Vec<ListItem>,
    /// Index of the focused row among the selectable rows.
    pub selected: usize,
    /// Whether the detail panel is visible.
    pub show_detail: bool,
    /// Overall NetworkManager daemon state.
    pub nm_state: NmState,
    /// Whether the app is operating without a live NetworkManager daemon.
    pub demo_mode: bool,
    /// Help overlay visible.
    pub show_help: bool,
    /// Status message shown in the status bar.
    pub status_message: Option<String>,
    /// Whether networking as a whole is switched on.
    pub networking_enabled: bool,
    /// Whether the Wi-Fi radio is switched on.
    pub wireless_enabled: bool,
}

/// The application state as the contracts see it.
pub struct AppView {
    pub items: Seq<ListItemView>,
    pub selected: nat,
    pub show_detail: bool,
    pub nm_state: NmState,
    pub demo_mode: bool,
    pub show_help: bool,
    pub status: Option<Seq<char>>,
    pub networking_enabled: bool,
    pub wireless_enabled: bool,
}

impl View for App {
    type V = AppView;

    open spec fn view(&self) -> AppView {
        AppView {
            items: views(self.items@),
            selected: self.selected as nat,
            show_detail: self.show_detail,
            nm_state: self.nm_state,
            demo_mode: self.demo_mode,
            show_help: self.show_help,
            status: match self.status_message {
                Some(m) => Some(m@),
                None => None,
            },
            networking_enabled: self.networking_enabled,
            wireless_enabled: self.wireless_enabled,
        }
    }
}

/// What a key press asks for.
pub enum KeyEffect {
    Quit,
    ToggleHelp,
    CloseHelp,
    ToggleDetail,
    MoveUp,
    MoveDown,
    Connect,
    Disconnect,
    Refresh,
    ToggleNetworking,
    ToggleWireless,
    Nothing,
}

/// The key bindings of the main screen.
pub open spec fn key_effect(key: Key, control: bool, show_help: bool) -> KeyEffect {
    match key {
        Key::Char(c) => if c == 'q' || c == 'Q' || (c == 'c' && control) {
            KeyEffect::Quit
        } else if c == '?' {
            KeyEffect::ToggleHelp
        } else if c == 'p' {
            KeyEffect::ToggleDetail
        } else if c == 'k' {
            KeyEffect::MoveUp
        } else if c == 'j' {
            KeyEffect::MoveDown
        } else if c == 'd' {
            KeyEffect::Disconnect
        } else if c == 'r' {
            KeyEffect::Refresh
        } else if c == 'n' {
            KeyEffect::ToggleNetworking
        } else if c == 'w' {
            KeyEffect::ToggleWireless
        } else {
            KeyEffect::Nothing
        },
        Key::Esc => if show_help {
            KeyEffect::CloseHelp
        } else {
            KeyEffect::Nothing
        },
        Key::Tab => KeyEffect::ToggleDetail,
        Key::Up => KeyEffect::MoveUp,
        Key::Down => KeyEffect::MoveDown,
        Key::Enter => KeyEffect::Connect,
        Key::Delete => KeyEffect::Disconnect,
        Key::F(n) => if n == 5 {
            KeyEffect::Refresh
        } else {
            KeyEffect::Nothing
        },
        _ => KeyEffect::Nothing,
    }
}

/// What the event loop is asked to do after a key press of the given effect.
pub open spec fn effect_action(v: AppView, e: KeyEffect) -> Action {
    match e {
        KeyEffect::Quit => Action::Quit,
        KeyEffect::ToggleNetworking => Action::SetNetworking(!v.networking_enabled),
        KeyEffect::ToggleWireless => Action::SetWireless(!v.wireless_enabled),
        _ => Action::Continue,
    }
}

/// The selected row, when the selection points at a selectable row.
pub open spec fn selected_row(v: AppView) -> Option<ListItemView> {
    let sel = selectable(v.items);
    if v.selected < sel.len() {
        Some(sel[v.selected as int])
    } else {
        None
    }
}

/// The selected connection, when the selected row shows one.
pub open spec fn selected_connection(v: AppView) -> Option<Connection> {
    match selected_row(v) {
        Some(ListItemView::Connection(c)) => Some(c),
        _ => None,
    }
}

/// The selection moved by `delta` rows, wrapping around at either end.
pub open spec fn moved_selection(v: AppView, delta: int) -> nat {
    let n = selectable(v.items).len();
    if n == 0 {
        v.selected
    } else {
        ((v.selected + delta) % (n as int)) as nat
    }
}

pub open spec fn connect_message(c: Connection) -> Seq<char> {
    if c.status == ConnectionStatus::Active {
        "'"@ + c.spec_label() + "' is already connected."@
    } else {
        "Connecting to '"@ + c.spec_label() + "'…"@
    }
}

pub open spec fn disconnect_message(c: Connection) -> Seq<char> {
    if c.status == ConnectionStatus::Active {
        "Disconnecting '"@ + c.spec_label() + "'…"@
    } else {
        "'"@ + c.spec_label() + "' is not active."@
    }
}

/// The state after a key press of the given effect.
pub open spec fn apply_effect(v: AppView, e: KeyEffect) -> AppView {
    match e {
        KeyEffect::ToggleHelp => AppView { show_help: !v.show_help, ..v },
        KeyEffect::CloseHelp => AppView { show_help: false, ..v },
        KeyEffect::ToggleDetail => AppView { show_detail: !v.show_detail, ..v },
        KeyEffect::MoveUp => AppView { selected: moved_selection(v, -1), ..v },
        KeyEffect::MoveDown => AppView { selected: moved_selection(v, 1), ..v },
        KeyEffect::Connect => match selected_connection(v) {
            Some(c) => AppView { status: Some(connect_message(c)), ..v },
            None => v,
        },
        KeyEffect::Disconnect => match selected_connection(v) {
            Some(c) => AppView { status: Some(disconnect_message(c)), ..v },
            None => v,
        },
        KeyEffect::Refresh => AppView { status: Some("Refreshing…"@), ..v },
        _ => v,
    }
}

/// The state after a refresh that read `state` and `cs` from NetworkManager.
pub open spec fn refreshed(v: AppView, state: NmState, cs: Seq<Connection>) -> AppView {
    if v.demo_mode {
        v
    } else {
        let items = list_items_spec(cs);
        let n = selectable(items).len();
        AppView {
            nm_state: state,
            items,
            selected: if n > 0 && v.selected > n - 1 {
                (n - 1) as nat
            } else {
                v.selected
            },
            ..v
        }
    }
}

/// `(-k) % n`, in terms of `k % n`.
proof fn lemma_neg_mod(k: int, n: int)
    requires
        0 < n,
        0 < k,
    ensures
        (-k) % n == (if k % n == 0 {
            0
        } else {
            n - k % n
        }),
{
    lemma_fundamental_div_mod(k, n);
    let q = k / n;
    let m = k % n;
    if m == 0 {
        assert(-k == (-q) * n + 0) by (nonlinear_arith)
            requires
                k == n * q + m,
                m == 0,
        ;
        lemma_fundamental_div_mod_converse(-k, n, -q, 0);
    } else {
        assert(-k == (-q - 1) * n + (n - m)) by (nonlinear_arith)
            requires
                k == n * q + m,
        ;
        lemma_fundamental_div_mod_converse(-k, n, -q - 1, n - m);
    }
}

proof fn lemma_selectable_step(items: Seq<ListItem>, j: int)
    requires
        0 <= j < items.len(),
    ensures
        selectable(views(items.take(j + 1))) == (if selectable_pred()(items[j]@) {
            selectable(views(items.take(j))).push(items[j]@)
        } else {
            selectable(views(items.take(j)))
        }),
{
    assert(views(items.take(j + 1)) =~= views(items.take(j)).push(items[j]@));
    views(items.take(j)).lemma_filter_push(items[j]@, selectable_pred());
}

impl App {
    /// The state of a session without NetworkManager, showing sample data.
    pub fn demo(show_detail: bool) -> (r: App)
        ensures
            exists|cs: Seq<Connection>| demo_data(cs) && r@.items == list_items_spec(cs),
            r@.selected == 0,
            r@.show_detail == show_detail,
            r@.nm_state == NmState::ConnectedGlobal,
            r@.demo_mode,
            !r@.show_help,
            r@.status == Some("Demo mode — NetworkManager not available"@),
            r@.networking_enabled,
            r@.wireless_enabled,
    {
        let cs = demo_connections();
        App {
            items: build_list_items(cs),
            selected: 0,
            show_detail,
            nm_state: NmState::ConnectedGlobal,
            demo_mode: true,
            show_help: false,
            status_message: Some(own("Demo mode — NetworkManager not available")),
            networking_enabled: true,
            wireless_enabled: true,
        }
    }

    /// The state of a session connected to NetworkManager, before its first refresh.
    pub fn live(show_detail: bool) -> (r: App)
        ensures
            r@.items == Seq::<ListItemView>::empty(),
            r@.selected == 0,
            r@.show_detail == show_detail,
            r@.nm_state == NmState::Unknown,
            !r@.demo_mode,
            !r@.show_help,
            r@.status is None,
            r@.networking_enabled,
            r@.wireless_enabled,
    {
        let r = App {
            items: Vec::new(),
            selected: 0,
            show_detail,
            nm_state: NmState::Unknown,
            demo_mode: false,
            show_help: false,
            status_message: None,
            networking_enabled: true,
            wireless_enabled: true,
        };
        assert(r@.items =~= Seq::<ListItemView>::empty());
        r
    }

    /// Takes in what a refresh read from NetworkManager; the selection is kept
    /// within the new list. A demo session keeps its sample data.
    pub fn apply_refresh(&mut self, state: NmState, connections: Vec<Connection>)
        ensures
            final(self)@ == refreshed(old(self)@, state, connections@),
    {
        if self.demo_mode {
            return;
        }
        self.nm_state = state;
        self.items = build_list_items(connections);
        let n = self.selectable_count();
        if n > 0 && self.selected > n - 1 {
            self.selected = n - 1;
        }
    }

    /// The number of selectable rows.
    pub fn selectable_count(&self) -> (r: usize)
        ensures
            r == selectable(self@.items).len(),
    {
        let mut count: usize = 0;
        let mut j: usize = 0;
        while j < self.items.len()
            invariant
                j <= self.items@.len(),
                count == selectable(views(self.items@.take(j as int))).len(),
                count <= j,
            decreases self.items.len() - j,
        {
            proof {
                lemma_selectable_step(self.items@, j as int);
            }
            if self.items[j].is_selectable() {
                count = count + 1;
            }
            j = j + 1;
        }
        assert(self.items@.take(j as int) =~= self.items@);
        count
    }

    /// The position in `items` of the selected row.
    pub fn selected_position(&self) -> (r: Option<usize>)
        ensures
            match r {
                Some(p) => p < self.items@.len() && selected_row(self@) == Some(
                    self@.items[p as int],
                ),
                None => selected_row(self@) is None,
            },
    {
        let ghost items = self.items@;
        let mut count: usize = 0;
        let mut j: usize = 0;
        while j < self.items.len()
            invariant
                items == self.items@,
                j <= items.len(),
                count == selectable(views(items.take(j as int))).len(),
                count <= self.selected,
            decreases self.items.len() - j,
        {
            proof {
                lemma_selectable_step(items, j as int);
            }
            if self.items[j].is_selectable() {
                if count == self.selected {
                    proof {
                        let head = views(items.take(j + 1));
                        let tail = views(items.skip(j + 1));
                        assert(views(items) =~= head + tail);
                        Seq::filter_distributes_over_add(
                            head,
                            tail,
                            selectable_pred(),
                        );
                        assert(selectable(views(items))[count as int] == items[j as int]@);
                    }
                    return Some(j);
                }
                count = count + 1;
            }
            j = j + 1;
        }
        assert(items.take(j as int) =~= items);
        None
    }

    /// The selected connection, if the selected row shows one.
    pub fn selected_conn(&self) -> (r: Option<&Connection>)
        ensures
            match r {
                Some(c) => selected_connection(self@) == Some(*c),
                None => selected_connection(self@) is None,
            },
    {
        match self.selected_position() {
            Some(p) => self.items[p].as_connection(),
            None => None,
        }
    }

    /// Moves the selection by `delta` selectable rows, wrapping around.
    pub fn move_selection(&mut self, delta: i32)
        ensures
            final(self)@ == (AppView { selected: moved_selection(old(self)@, delta as int), ..old(self)@ }),
    {
        let n = self.selectable_count();
        if n == 0 {
            return;
        }
        let a = self.selected % n;
        let b: usize = if delta >= 0 {
            (delta as usize) % n
        } else {
            let k = (0i64 - delta as i64) as usize;
            let m = k % n;
            proof {
                lemma_neg_mod(k as int, n as int);
            }
            if m == 0 {
                0
            } else {
                n - m
            }
        };
        let r = if a >= n - b {
            a - (n - b)
        } else {
            a + b
        };
        proof {
            let s = old(self).selected as int;
            let ni = n as int;
            lemma_add_mod_noop(s, delta as int, ni);
            assert(b as int == (delta as int) % ni);
            if a + b >= ni {
                lemma_fundamental_div_mod_converse(a + b, ni, 1, a + b - ni);
            } else {
                lemma_fundamental_div_mod_converse(a + b, ni, 0, a + b);
            }
        }
        self.selected = r;
    }

    /// Reports, for the selected connection, what Enter does to it.
    pub fn connect_selected(&mut self)
        ensures
            final(self)@ == apply_effect(old(self)@, KeyEffect::Connect),
    {
        let msg = match self.selected_conn() {
            Some(conn) => if conn.is_active() {
                Some(concat3("'", conn.label(), "' is already connected."))
            } else {
                Some(concat3("Connecting to '", conn.label(), "'…"))
            },
            None => None,
        };
        if msg.is_some() {
            self.status_message = msg;
        }
    }

    /// Reports, for the selected connection, what a disconnect does to it.
    pub fn disconnect_selected(&mut self)
        ensures
            final(self)@ == apply_effect(old(self)@, KeyEffect::Disconnect),
    {
        let msg = match self.selected_conn() {
            Some(conn) => if conn.is_active() {
                Some(concat3("Disconnecting '", conn.label(), "'…"))
            } else {
                Some(concat3("'", conn.label(), "' is not active."))
            },
            None => None,
        };
        if msg.is_some() {
            self.status_message = msg;
        }
    }

    /// Handles a key press on the main screen.
    pub fn handle_key(&mut self, key: Key, control: bool) -> (r: Action)
        ensures
            r == effect_action(old(self)@, key_effect(key, control, old(self)@.show_help)),
            final(self)@ == apply_effect(old(self)@, key_effect(key, control, old(self)@.show_help)),
    {
        match key {
            Key::Char(c) => {
                if c == 'q' || c == 'Q' || (c == 'c' && control) {
                    return Action::Quit;
                } else if c == '?' {
                    self.show_help = !self.show_help;
                } else if c == 'p' {
                    self.show_detail = !self.show_detail;
                } else if c == 'k' {
                    self.move_selection(-1);
                } else if c == 'j' {
                    self.move_selection(1);
                } else if c == 'd' {
                    self.disconnect_selected();
                } else if c == 'r' {
                    self.status_message = Some(own("Refreshing…"));
                } else if c == 'n' {
                    return Action::SetNetworking(!self.networking_enabled);
                } else if c == 'w' {
                    return Action::SetWireless(!self.wireless_enabled);
                }
            },
            Key::Esc => {
                if self.show_help {
                    self.show_help = false;
                }
            },
            Key::Tab => {
                self.show_detail = !self.show_detail;
            },
            Key::Up => {
                self.move_selection(-1);
            },
            Key::Down => {
                self.move_selection(1);
            },
            Key::Enter => {
                self.connect_selected();
            },
            Key::Delete => {
                self.disconnect_selected();
            },
            Key::F(n) => {
                if n == 5 {
                    self.status_message = Some(own("Refreshing…"));
                }
            },
            _ => {},
        }
        Action::Continue
    }
}

// ── Laws ─────────────────────────────────────────────────────────────────────

/// Key presses on the main screen never change the list, the daemon state or
/// the demo flag; only a refresh does.
pub proof fn lemma_keys_keep_list(v: AppView, key: Key, control: bool)
    ensures
        apply_effect(v, key_effect(key, control, v.show_help)).items == v.items,
        apply_effect(v, key_effect(key, control, v.show_help)).nm_state == v.nm_state,
        apply_effect(v, key_effect(key, control, v.show_help)).demo_mode == v.demo_mode,
{
}

/// A selection on a selectable row stays on a selectable row whatever key is pressed.
pub proof fn lemma_keys_keep_selection_valid(v: AppView, key: Key, control: bool)
    requires
        v.selected < selectable(v.items).len(),
    ensures
        apply_effect(v, key_effect(key, control, v.show_help)).selected < selectable(
            v.items,
        ).len(),
{
}

/// Moving down and then up returns to the same row.
pub proof fn lemma_down_then_up(v: AppView)
    requires
        v.selected < selectable(v.items).len(),
    ensures
        moved_selection(AppView { selected: moved_selection(v, 1), ..v }, -1) == v.selected,
{
    let n = selectable(v.items).len() as int;
    let s = v.selected as int;
    if s + 1 < n {
        lemma_fundamental_div_mod_converse(s + 1, n, 0, s + 1);
        lemma_fundamental_div_mod_converse(s, n, 0, s);
    } else {
        lemma_fundamental_div_mod_converse(s + 1, n, 1, 0);
        lemma_fundamental_div_mod_converse(-1, n, -1, n - 1);
    }
}

/// Up and `k` move the selection one row up, wrapping from the first row to
/// the last; Down and `j` move it one row down, wrapping from the last row to
/// the first.  Nothing else changes and the session goes on.
pub proof fn lemma_navigation_keys(v: AppView, control: bool)
    requires
        v.selected < selectable(v.items).len(),
    ensures
        forall|key: Key|
            key == Key::Up || key == Key::Char('k') ==> {
                &&& #[trigger] apply_effect(v, key_effect(key, control, v.show_help)) == (AppView {
                    selected: if v.selected > 0 {
                        (v.selected - 1) as nat
                    } else {
                        (selectable(v.items).len() - 1) as nat
                    },
                    ..v
                })
                &&& effect_action(v, key_effect(key, control, v.show_help)) == Action::Continue
            },
        forall|key: Key|
            key == Key::Down || key == Key::Char('j') ==> {
                &&& #[trigger] apply_effect(v, key_effect(key, control, v.show_help)) == (AppView {
                    selected: if v.selected + 1 < selectable(v.items).len() {
                        v.selected + 1
                    } else {
                        0
                    },
                    ..v
                })
                &&& effect_action(v, key_effect(key, control, v.show_help)) == Action::Continue
            },
{
    let n = selectable(v.items).len() as int;
    let s = v.selected as int;
    if s > 0 {
        lemma_fundamental_div_mod_converse(s - 1, n, 0, s - 1);
    } else {
        lemma_fundamental_div_mod_converse(-1, n, -1, n - 1);
    }
    if s + 1 < n {
        lemma_fundamental_div_mod_converse(s + 1, n, 0, s + 1);
    } else {
        lemma_fundamental_div_mod_converse(s + 1, n, 1, 0);
    }
}

/// The other keys of the main screen: `q`, `Q` and Ctrl-C quit; Tab and `p`
/// show or hide the detail panel; `?` shows or hides the help, which Esc
/// closes; `n` and `w` ask to switch networking and the Wi-Fi radio to the
/// opposite of their state; `r` and F5 announce a scan; Enter, and `d` or
/// Delete, announce connecting or disconnecting the selected connection.
/// `e`, `a` and `D` change nothing.
pub proof fn lemma_main_keys(v: AppView, control: bool)
    ensures
        effect_action(v, key_effect(Key::Char('q'), control, v.show_help)) == Action::Quit,
        effect_action(v, key_effect(Key::Char('Q'), control, v.show_help)) == Action::Quit,
        effect_action(v, key_effect(Key::Char('c'), true, v.show_help)) == Action::Quit,
        apply_effect(v, key_effect(Key::Tab, control, v.show_help)) == (AppView {
            show_detail: !v.show_detail,
            ..v
        }),
        apply_effect(v, key_effect(Key::Char('p'), control, v.show_help)) == (AppView {
            show_detail: !v.show_detail,
            ..v
        }),
        apply_effect(v, key_effect(Key::Char('?'), control, v.show_help)) == (AppView {
            show_help: !v.show_help,
            ..v
        }),
        apply_effect(v, key_effect(Key::Esc, control, v.show_help)) == (AppView {
            show_help: false,
            ..v
        }),
        apply_effect(v, key_effect(Key::Char('n'), control, v.show_help)) == v,
        effect_action(v, key_effect(Key::Char('n'), control, v.show_help)) == Action::SetNetworking(
            !v.networking_enabled,
        ),
        apply_effect(v, key_effect(Key::Char('w'), control, v.show_help)) == v,
        effect_action(v, key_effect(Key::Char('w'), control, v.show_help)) == Action::SetWireless(
            !v.wireless_enabled,
        ),
        apply_effect(v, key_effect(Key::Char('r'), control, v.show_help)) == (AppView {
            status: Some("Refreshing…"@),
            ..v
        }),
        apply_effect(v, key_effect(Key::F(5), control, v.show_help)) == (AppView {
            status: Some("Refreshing…"@),
            ..v
        }),
        forall|c: Connection|
            selected_connection(v) == Some(c) ==> #[trigger] apply_effect(
                v,
                key_effect(Key::Enter, control, v.show_help),
            ).status == Some(
                if c.status == ConnectionStatus::Active {
                    "'"@ + c.spec_label() + "' is already connected."@
                } else {
                    "Connecting to '"@ + c.spec_label() + "'…"@
                },
            ),
        forall|key: Key|
            (key == Key::Char('d') || key == Key::Delete) ==> forall|c: Connection|
                selected_connection(v) == Some(c) ==> #[trigger] apply_effect(
                    v,
                    key_effect(key, control, v.show_help),
                ) == (AppView {
                    status: Some(
                        if c.status == ConnectionStatus::Active {
                            "Disconnecting '"@ + c.spec_label() + "'…"@
                        } else {
                            "'"@ + c.spec_label() + "' is not active."@
                        },
                    ),
                    ..v
                }),
        (selected_connection(v) is None) ==> apply_effect(
            v,
            key_effect(Key::Enter, control, v.show_help),
        ) == v,
        apply_effect(v, key_effect(Key::Char('e'), control, v.show_help)) == v,
        apply_effect(v, key_effect(Key::Char('a'), control, v.show_help)) == v,
        apply_effect(v, key_effect(Key::Char('D'), control, v.show_help)) == v,
{
}

/// The list always has a selectable row: the hidden-network entry.
pub proof fn lemma_list_has_selectable(cs: Seq<Connection>)
    ensures
        selectable(list_items_spec(cs)).len() > 0,
{
    let items = list_items_spec(cs);
    let k = 1 + cs.filter(wifi_pred()).len();
    assert(items[k as int] == ListItemView::HiddenWifiConnect);
    items.lemma_filter_contains(selectable_pred(), k as int);
}

/// After a refresh of a live session the selection rests on a selectable row.
pub proof fn lemma_refresh_selection_valid(v: AppView, state: NmState, cs: Seq<Connection>)
    requires
        !v.demo_mode,
    ensures
        refreshed(v, state, cs).selected < selectable(refreshed(v, state, cs).items).len(),
{
    lemma_list_has_selectable(cs);
}

/// The connections shown by a list of rows, in order.
pub open spec fn connections_in(items: Seq<ListItemView>) -> Seq<Connection>
    decreases items.len(),
{
    if items.len() == 0 {
        Seq::empty()
    } else {
        let prev = connections_in(items.drop_last());
        match items.last() {
            ListItemView::Connection(c) => prev.push(c),
            _ => prev,
        }
    }
}

proof fn lemma_connections_in_concat(a: Seq<ListItemView>, b: Seq<ListItemView>)
    ensures
        connections_in(a + b) == connections_in(a) + connections_in(b),
    decreases b.len(),
{
    if b.len() == 0 {
        assert(a + b =~= a);
        assert(connections_in(a) + connections_in(b) =~= connections_in(a));
    } else {
        lemma_connections_in_concat(a, b.drop_last());
        assert((a + b).drop_last() =~= a + b.drop_last());
        assert((a + b).last() == b.last());
        match b.last() {
            ListItemView::Connection(c) => {
                assert(connections_in(a) + connections_in(b) =~= (connections_in(a)
                    + connections_in(b.drop_last())).push(c));
            },
            _ => {},
        }
    }
}

proof fn lemma_connections_in_non_connection(item: ListItemView)
    requires
        !(item is Connection),
    ensures
        connections_in(seq![item]) == Seq::<Connection>::empty(),
{
    assert(seq![item].drop_last() =~= Seq::<ListItemView>::empty());
    assert(connections_in(Seq::<ListItemView>::empty()) == Seq::<Connection>::empty());
    assert(seq![item].last() == item);
}

proof fn lemma_connections_in_rows(s: Seq<Connection>)
    ensures
        connections_in(as_rows(s)) == s,
    decreases s.len(),
{
    if s.len() > 0 {
        lemma_connections_in_rows(s.drop_last());
        assert(as_rows(s).drop_last() =~= as_rows(s.drop_last()));
        assert(s.drop_last().push(s.last()) =~= s);
    }
}

proof fn lemma_connections_in_section(title: Seq<char>, s: Seq<Connection>)
    ensures
        connections_in(section(title, s)) == s,
{
    if s.len() == 0 {
        assert(section(title, s) =~= Seq::<ListItemView>::empty());
        assert(s =~= Seq::<Connection>::empty());
    } else {
        lemma_connections_in_concat(seq![ListItemView::Header(title)], as_rows(s));
        lemma_connections_in_rows(s);
        lemma_connections_in_non_connection(ListItemView::Header(title));
        assert(Seq::<Connection>::empty() + s =~= s);
    }
}

proof fn lemma_groups_partition(cs: Seq<Connection>)
    ensures
        cs.filter(wifi_pred()).to_multiset().add(cs.filter(ethernet_pred()).to_multiset()).add(
            cs.filter(vpn_pred()).to_multiset(),
        ).add(cs.filter(other_pred()).to_multiset()) == cs.to_multiset(),
    decreases cs.len(),
{
    broadcast use vstd::seq_lib::group_to_multiset_ensures;

    if cs.len() == 0 {
        reveal(Seq::filter);
        assert(cs.to_multiset() =~= vstd::multiset::Multiset::empty());
        assert(cs.filter(wifi_pred()).to_multiset() =~= vstd::multiset::Multiset::empty());
        assert(cs.filter(ethernet_pred()).to_multiset() =~= vstd::multiset::Multiset::empty());
        assert(cs.filter(vpn_pred()).to_multiset() =~= vstd::multiset::Multiset::empty());
        assert(cs.filter(other_pred()).to_multiset() =~= vstd::multiset::Multiset::empty());
        assert(vstd::multiset::Multiset::<Connection>::empty().add(vstd::multiset::Multiset::empty()).add(
            vstd::multiset::Multiset::empty(),
        ).add(vstd::multiset::Multiset::empty()) =~= vstd::multiset::Multiset::empty());
    } else {
        let init = cs.drop_last();
        let x = cs.last();
        lemma_groups_partition(init);
        assert(init.push(x) =~= cs);
        init.lemma_filter_push(x, wifi_pred());
        init.lemma_filter_push(x, ethernet_pred());
        init.lemma_filter_push(x, vpn_pred());
        init.lemma_filter_push(x, other_pred());
        let w = init.filter(wifi_pred()).to_multiset();
        let e = init.filter(ethernet_pred()).to_multiset();
        let v = init.filter(vpn_pred()).to_multiset();
        let o = init.filter(other_pred()).to_multiset();
        assert(cs.to_multiset() =~= init.to_multiset().insert(x));
        if x.kind is Wifi {
            assert(w.insert(x).add(e).add(v).add(o) =~= w.add(e).add(v).add(o).insert(x));
        } else if x.kind is Ethernet {
            assert(w.add(e.insert(x)).add(v).add(o) =~= w.add(e).add(v).add(o).insert(x));
        } else if x.kind is Vpn {
            assert(w.add(e).add(v.insert(x)).add(o) =~= w.add(e).add(v).add(o).insert(x));
        } else {
            assert(w.add(e).add(v).add(o.insert(x)) =~= w.add(e).add(v).add(o).insert(x));
        }
    }
}

/// Grouping loses and repeats nothing: the list shows each connection once,
/// section by section, each section in input order.
pub proof fn lemma_list_shows_each_connection_once(cs: Seq<Connection>)
    ensures
        connections_in(list_items_spec(cs)) == cs.filter(wifi_pred()) + cs.filter(ethernet_pred())
            + cs.filter(vpn_pred()) + cs.filter(other_pred()),
        connections_in(list_items_spec(cs)).to_multiset() == cs.to_multiset(),
{
    broadcast use vstd::seq_lib::group_to_multiset_ensures;

    let head = seq![ListItemView::Header("Wi-Fi"@)];
    let wifi = as_rows(cs.filter(wifi_pred()));
    let hidden = seq![ListItemView::HiddenWifiConnect];
    let eth = section("Ethernet"@, cs.filter(ethernet_pred()));
    let vpn = section("VPN"@, cs.filter(vpn_pred()));
    let other = section("Other"@, cs.filter(other_pred()));
    lemma_connections_in_non_connection(ListItemView::Header("Wi-Fi"@));
    lemma_connections_in_non_connection(ListItemView::HiddenWifiConnect);
    lemma_connections_in_rows(cs.filter(wifi_pred()));
    lemma_connections_in_section("Ethernet"@, cs.filter(ethernet_pred()));
    lemma_connections_in_section("VPN"@, cs.filter(vpn_pred()));
    lemma_connections_in_section("Other"@, cs.filter(other_pred()));
    lemma_connections_in_concat(head, wifi);
    lemma_connections_in_concat(head + wifi, hidden);
    lemma_connections_in_concat(head + wifi + hidden, eth);
    lemma_connections_in_concat(head + wifi + hidden + eth, vpn);
    lemma_connections_in_concat(head + wifi + hidden + eth + vpn, other);
    assert(list_items_spec(cs) == head + wifi + hidden + eth + vpn + other);
    let w = cs.filter(wifi_pred());
    let e = cs.filter(ethernet_pred());
    let v = cs.filter(vpn_pred());
    let o = cs.filter(other_pred());
    assert(connections_in(list_items_spec(cs)) =~= w + e + v + o);
    lemma_groups_partition(cs);
    vstd::seq_lib::lemma_multiset_commutative(w, e);
    vstd::seq_lib::lemma_multiset_commutative(w + e, v);
    vstd::seq_lib::lemma_multiset_commutative(w + e + v, o);
}

// ── Sample data ──────────────────────────────────────────────────────────────

pub open spec fn opt_view(o: Option<String>) -> Option<Seq<char>> {
    match o {
        Some(s) => Some(s@),
        None => None,
    }
}

pub open spec fn wifi_entry(
    c: Connection,
    name: Seq<char>,
    uuid: Seq<char>,
    strength: u8,
    security: WifiSecurity,
    frequency: u32,
    bssid: Option<Seq<char>>,
    status: ConnectionStatus,
) -> bool {
    &&& c.id@ == name
    &&& c.uuid@ == uuid
    &&& c.status == status
    &&& c.saved
    &&& c.kind matches ConnectionKind::Wifi(w) && w.ssid@ == name && w.strength == strength
        && w.security == security && w.frequency == Some(frequency) && opt_view(w.bssid) == bssid
        && w.mode == WifiMode::Infrastructure
}

/// The sample connections of a demo session: three Wi-Fi networks (the first
/// one active, with an address), one Ethernet profile and one OpenVPN profile.
pub open spec fn demo_data(cs: Seq<Connection>) -> bool {
    &&& cs.len() == 5
    &&& wifi_entry(
        cs[0],
        "Home Network"@,
        "11111111-0000-0000-0000-000000000001"@,
        87,
        WifiSecurity::Wpa3,
        5180,
        Some("aa:bb:cc:dd:ee:ff"@),
        ConnectionStatus::Active,
    )
    &&& cs[0].ip4 matches Some(ip) && ip.address@ == "192.168.1.100/24"@ && opt_view(ip.gateway)
        == Some("192.168.1.1"@) && ip.nameservers@.len() == 2 && ip.nameservers@[0]@
        == "1.1.1.1"@ && ip.nameservers@[1]@ == "8.8.8.8"@
    &&& opt_view(cs[0].device) == Some("wlan0"@)
    &&& wifi_entry(
        cs[1],
        "Neighbour WiFi"@,
        "11111111-0000-0000-0000-000000000002"@,
        42,
        WifiSecurity::Wpa2,
        2437,
        Some("11:22:33:44:55:66"@),
        ConnectionStatus::Inactive,
    )
    &&& cs[0].ip6 is None
    &&& cs[1].ip4 is None && cs[1].ip6 is None && cs[1].device is None
    &&& wifi_entry(
        cs[2],
        "CoffeeShop"@,
        "11111111-0000-0000-0000-000000000003"@,
        61,
        WifiSecurity::Open,
        5240,
        None,
        ConnectionStatus::Inactive,
    )
    &&& cs[2].ip4 is None && cs[2].ip6 is None && cs[2].device is None
    &&& cs[3].id@ == "Wired Connection 1"@ && cs[3].uuid@ == "22222222-0000-0000-0000-000000000001"@
    &&& cs[3].kind is Ethernet && cs[3].status == ConnectionStatus::Inactive && cs[3].ip4 is None
        && cs[3].ip6 is None
    &&& opt_view(cs[3].device) == Some("eth0"@) && cs[3].saved
    &&& cs[4].id@ == "Work VPN"@ && cs[4].uuid@ == "33333333-0000-0000-0000-000000000001"@
    &&& cs[4].kind matches ConnectionKind::Vpn(v) && v.service_type@
        == "org.freedesktop.NetworkManager.openvpn"@
    &&& cs[4].status == ConnectionStatus::Inactive && cs[4].ip4 is None
        && cs[4].ip6 is None && cs[4].device is None
    &&& cs[4].saved
}

fn demo_wifi(
    name: &str,
    uuid: &str,
    strength: u8,
    security: WifiSecurity,
    frequency: u32,
    bssid: Option<&str>,
    status: ConnectionStatus,
) -> (r: Connection)
    ensures
        wifi_entry(
            r,
            name@,
            uuid@,
            strength,
            security,
            frequency,
            match bssid {
                Some(b) => Some(b@),
                None => None,
            },
            status,
        ),
        r.ip4 is None,
        r.ip6 is None,
        r.device is None,
{
    Connection {
        id: own(name),
        uuid: own(uuid),
        kind: ConnectionKind::Wifi(
            WifiInfo {
                ssid: own(name),
                strength,
                security,
                frequency: Some(frequency),
                bssid: match bssid {
                    Some(b) => Some(own(b)),
                    None => None,
                },
                mode: WifiMode::Infrastructure,
            },
        ),
        status,
        ip4: None,
        ip6: None,
        device: None,
        saved: true,
    }
}

/// The sample connections shown when NetworkManager is not available.
pub fn demo_connections() -> (r: Vec<Connection>)
    ensures
        demo_data(r@),
{
    let mut home = demo_wifi(
        "Home Network",
        "11111111-0000-0000-0000-000000000001",
        87,
        WifiSecurity::Wpa3,
        5180,
        Some("aa:bb:cc:dd:ee:ff"),
        ConnectionStatus::Active,
    );
    let mut nameservers: Vec<String> = Vec::new();
    nameservers.push(own("1.1.1.1"));
    nameservers.push(own("8.8.8.8"));
    home.ip4 = Some(
        Ip4Config {
            address: own("192.168.1.100/24"),
            gateway: Some(own("192.168.1.1")),
            nameservers,
        },
    );
    home.device = Some(own("wlan0"));
    let neighbour = demo_wifi(
        "Neighbour WiFi",
        "11111111-0000-0000-0000-000000000002",
        42,
        WifiSecurity::Wpa2,
        2437,
        Some("11:22:33:44:55:66"),
        ConnectionStatus::Inactive,
    );
    let cafe = demo_wifi(
        "CoffeeShop",
        "11111111-0000-0000-0000-000000000003",
        61,
        WifiSecurity::Open,
        5240,
        None,
        ConnectionStatus::Inactive,
    );
    let wired = Connection {
        id: own("Wired Connection 1"),
        uuid: own("22222222-0000-0000-0000-000000000001"),
        kind: ConnectionKind::Ethernet,
        status: ConnectionStatus::Inactive,
        ip4: None,
        ip6: None,
        device: Some(own("eth0")),
        saved: true,
    };
    let vpn = Connection {
        id: own("Work VPN"),
        uuid: own("33333333-0000-0000-0000-000000000001"),
        kind: ConnectionKind::Vpn(VpnInfo { service_type: own("org.freedesktop.NetworkManager.openvpn") }),
        status: ConnectionStatus::Inactive,
        ip4: None,
        ip6: None,
        device: None,
        saved: true,
    };
    let mut r: Vec<Connection> = Vec::new();
    r.push(home);
    r.push(neighbour);
    r.push(cafe);
    r.push(wired);
    r.push(vpn);
    r
}

/// Whether a status message reports an activation or deactivation in progress.
pub fn is_inflight_status(msg: &str) -> (r: bool)
    ensures
        r == (msg@ == "Activating…"@ || msg@ == "Deactivating…"@),
{
    str_eq(msg, "Activating…") || str_eq(msg, "Deactivating…")
}

} // verus!
