//! Installed NetworkManager VPN plugins, described by `*.name` files.

use vstd::prelude::*;
use crate::nm::order::{seq_lt, str_lt, lemma_seq_lt_asym, lemma_seq_lt_trans, lemma_seq_lt_total};
use crate::text::{chars_of, is_ws_exec, push_char, str_eq, string_of, string_of_range, trim, trim_str, own, lemma_trim_range, lemma_lead_ws_bound, lemma_trail_ws_bound, first_index, lemma_first_index, find_char};

verus! {

broadcast use vstd::seq_lib::group_to_multiset_ensures;

/// An installed VPN plugin described by a `*.name` file under `NetworkManager/VPN`.
#[derive(Debug)]
pub struct VpnPluginInfo {
    /// Short plugin id used by `nmcli connection import type <name>`.
    pub name: String,
    /// D-Bus VPN service type (e.g. `org.freedesktop.NetworkManager.openvpn`).
    pub service_type: String,
    /// Human-readable label for UI menus.
    pub label: String,
}

// ── `*.name` files ───────────────────────────────────────────────────────────

/// The lines of a text: the pieces between line feeds.
pub open spec fn split_lines(s: Seq<char>) -> Seq<Seq<char>>
    decreases s.len(),
{
    if s.len() == 0 {
        seq![Seq::empty()]
    } else {
        let prev = split_lines(s.drop_last());
        if s.last() == '\n' {
            prev.push(Seq::empty())
        } else {
            prev.update(prev.len() - 1, prev.last().push(s.last()))
        }
    }
}

pub proof fn lemma_split_lines_nonempty(s: Seq<char>)
    ensures
        split_lines(s).len() > 0,
    decreases s.len(),
{
    if s.len() > 0 {
        lemma_split_lines_nonempty(s.drop_last());
    }
}


/// The `key = value` pair of a line, if it is one: blank lines, comments
/// (`#`) and section headers (`[`) are not; key and value are trimmed.
pub open spec fn line_entry(line: Seq<char>) -> Option<(Seq<char>, Seq<char>)> {
    let t = trim(line);
    if t.len() == 0 || t[0] == '#' || t[0] == '[' {
        None
    } else {
        match first_index(t, '=') {
            Some(i) => Some((trim(t.take(i)), trim(t.skip(i + 1)))),
            None => None,
        }
    }
}

/// The last `name` and `service` values of the lines.
pub open spec fn name_file_values(lines: Seq<Seq<char>>) -> (Option<Seq<char>>, Option<Seq<char>>)
    decreases lines.len(),
{
    if lines.len() == 0 {
        (None, None)
    } else {
        let prev = name_file_values(lines.drop_last());
        match line_entry(lines.last()) {
            Some(e) => if e.0 == "name"@ {
                (Some(e.1), prev.1)
            } else if e.0 == "service"@ {
                (prev.0, Some(e.1))
            } else {
                prev
            },
            None => prev,
        }
    }
}

/// UI label of a plugin name: known plugins by their usual spelling, `VPN`
/// for an empty name, otherwise the name with its first character upper-cased.
pub open spec fn humanized(name: Seq<char>) -> Seq<char> {
    if name == "openvpn"@ {
        "OpenVPN"@
    } else if name == "wireguard"@ {
        "WireGuard"@
    } else if name == "vpnc"@ {
        "VPNC"@
    } else if name == "openconnect"@ {
        "OpenConnect"@
    } else if name == "pptp"@ {
        "PPTP"@
    } else if name == "l2tp"@ {
        "L2TP"@
    } else if name == "iodine"@ {
        "Iodine"@
    } else if name == "libreswan"@ {
        "Libreswan"@
    } else if name == "fortisslvpn"@ {
        "Fortinet SSL VPN"@
    } else if name == "sstp"@ {
        "SSTP"@
    } else if name.len() == 0 {
        "VPN"@
    } else {
        upper_of(name[0]) + name.drop_first()
    }
}

/// Plugin names with a label of their own.
pub open spec fn known_plugin_name(name: Seq<char>) -> bool {
    ||| name == "openvpn"@
    ||| name == "wireguard"@
    ||| name == "vpnc"@
    ||| name == "openconnect"@
    ||| name == "pptp"@
    ||| name == "l2tp"@
    ||| name == "iodine"@
    ||| name == "libreswan"@
    ||| name == "fortisslvpn"@
    ||| name == "sstp"@
}

/// The upper-case mapping of a character (`char::to_uppercase`), one or more
/// characters long.
pub uninterp spec fn upper_of(c: char) -> Seq<char>;

/// `char::to_uppercase`, collected into a string.  An ASCII letter maps to its
/// ASCII capital and any other ASCII character to itself.
#[verifier::external_body]
fn char_to_uppercase(c: char) -> (r: String)
    ensures
        r@ == upper_of(c),
        ('a' <= c && c <= 'z') ==> r@ == seq![((c as u32) - 32) as char],
        (c as u32) < 128 && !('a' <= c && c <= 'z') ==> r@ == seq![c],
{
    c.to_uppercase().collect::<String>()
}

/// Human-readable label for a plugin name.
pub fn humanize_plugin_name(name: &str) -> (r: String)
    ensures
        r@ == humanized(name@),
        !known_plugin_name(name@) && name@.len() > 0 && 'a' <= name@[0] && name@[0] <= 'z' ==> r@
            == seq![((name@[0] as u32) - 32) as char] + name@.drop_first(),
        !known_plugin_name(name@) && name@.len() > 0 && (name@[0] as u32) < 128 && !('a'
            <= name@[0] && name@[0] <= 'z') ==> r@ == name@,
{
    if str_eq(name, "openvpn") {
        own("OpenVPN")
    } else if str_eq(name, "wireguard") {
        own("WireGuard")
    } else if str_eq(name, "vpnc") {
        own("VPNC")
    } else if str_eq(name, "openconnect") {
        own("OpenConnect")
    } else if str_eq(name, "pptp") {
        own("PPTP")
    } else if str_eq(name, "l2tp") {
        own("L2TP")
    } else if str_eq(name, "iodine") {
        own("Iodine")
    } else if str_eq(name, "libreswan") {
        own("Libreswan")
    } else if str_eq(name, "fortisslvpn") {
        own("Fortinet SSL VPN")
    } else if str_eq(name, "sstp") {
        own("SSTP")
    } else if name.is_empty() {
        own("VPN")
    } else {
        let cs = chars_of(name);
        let mut r = char_to_uppercase(cs[0]);
        let rest = string_of_range(&cs, 1, cs.len());
        r.append(rest.as_str());
        assert(cs@.subrange(1, cs@.len() as int) =~= name@.drop_first());
        assert(seq![name@[0]] + name@.drop_first() =~= name@);
        r
    }
}


/// The key and value of one line.
fn parse_line(line: &Vec<char>) -> (r: Option<(String, String)>)
    ensures
        match r {
            Some(p) => line_entry(line@) == Some((p.0@, p.1@)),
            None => line_entry(line@) is None,
        },
{
    let t = trim_str(string_of(line).as_str());
    let tc = chars_of(t.as_str());
    if tc.len() == 0 || tc[0] == '#' || tc[0] == '[' {
        return None;
    }
    match find_char(&tc, '=') {
        Some(i) => {
            let key = trim_str(string_of_range(&tc, 0, i).as_str());
            let value = trim_str(string_of_range(&tc, i + 1, tc.len()).as_str());
            assert(tc@.subrange(0, i as int) =~= tc@.take(i as int));
            assert(tc@.subrange(i + 1, tc@.len() as int) =~= tc@.skip(i + 1));
            Some((key, value))
        },
        None => None,
    }
}

pub open spec fn opt_string_view(o: Option<String>) -> Option<Seq<char>> {
    crate::connection::profile::opt_view(o)
}

/// The plugin a `*.name` file describes: its `name` and `service` keys are
/// required, the label comes from the name.
pub open spec fn plugin_of(content: Seq<char>) -> Option<(Seq<char>, Seq<char>)> {
    let v = name_file_values(split_lines(content));
    match (v.0, v.1) {
        (Some(n), Some(s)) => Some((n, s)),
        _ => None,
    }
}

fn absorb_line(
    line: &Vec<char>,
    name: &mut Option<String>,
    service: &mut Option<String>,
)
    ensures
        (opt_string_view(*final(name)), opt_string_view(*final(service))) == (match line_entry(
            line@,
        ) {
            Some(e) => if e.0 == "name"@ {
                (Some(e.1), opt_string_view(*old(service)))
            } else if e.0 == "service"@ {
                (opt_string_view(*old(name)), Some(e.1))
            } else {
                (opt_string_view(*old(name)), opt_string_view(*old(service)))
            },
            None => (opt_string_view(*old(name)), opt_string_view(*old(service))),
        }),
{
    match parse_line(line) {
        Some((k, v)) => {
            if str_eq(k.as_str(), "name") {
                *name = Some(v);
            } else if str_eq(k.as_str(), "service") {
                *service = Some(v);
            }
        },
        None => {},
    }
}

/// Parse the content of a `*.name` file.
pub fn parse_name_file_content(content: &str) -> (r: Option<VpnPluginInfo>)
    ensures
        r is Some <==> plugin_of(content@) is Some,
        r matches Some(p) ==> ({
            let e = plugin_of(content@)->Some_0;
            &&& p.name@ == e.0
            &&& p.service_type@ == e.1
            &&& p.label@ == humanized(e.0)
        }),
{
    let cs = chars_of(content);
    let mut name: Option<String> = None;
    let mut service: Option<String> = None;
    let mut line: Vec<char> = Vec::new();
    let ghost mut done: Seq<Seq<char>> = Seq::empty();
    let mut i: usize = 0;
    while i < cs.len()
        invariant
            cs@ == content@,
            i <= cs@.len(),
            split_lines(cs@.take(i as int)) == done.push(line@),
            (opt_string_view(name), opt_string_view(service)) == name_file_values(done),
        decreases cs@.len() - i,
    {
        let c = cs[i];
        let ghost t1 = cs@.take(i + 1);
        assert(t1.drop_last() =~= cs@.take(i as int));
        assert(t1.last() == c);
        if c == '\n' {
            absorb_line(&line, &mut name, &mut service);
            proof {
                let nd = done.push(line@);
                assert(nd.drop_last() =~= done);
                done = nd;
            }
            line = Vec::new();
            assert(split_lines(t1) =~= done.push(line@));
        } else {
            line.push(c);
            assert(split_lines(t1) =~= done.push(line@));
        }
        i = i + 1;
    }
    absorb_line(&line, &mut name, &mut service);
    proof {
        assert(cs@.take(cs@.len() as int) =~= cs@);
        let all = done.push(line@);
        assert(all.drop_last() =~= done);
    }
    match (name, service) {
        (Some(n), Some(s)) => {
            let label = humanize_plugin_name(n.as_str());
            Some(VpnPluginInfo { name: n, service_type: s, label })
        },
        _ => None,
    }
}

// ── Plugin list ──────────────────────────────────────────────────────────────

pub open spec fn plugins_sorted(s: Seq<VpnPluginInfo>) -> bool {
    forall|i: int, j: int| 0 <= i < j < s.len() ==> !seq_lt((#[trigger] s[j]).label@, (#[trigger] s[i]).label@)
}

/// Whether a plugin of `s` has service type `t`.
pub open spec fn has_service(s: Seq<VpnPluginInfo>, t: Seq<char>) -> bool {
    exists|i: int| 0 <= i < s.len() && (#[trigger] s[i]).service_type@ == t
}

/// `s` without every plugin whose service type an earlier plugin already has.
pub open spec fn dedup_service(s: Seq<VpnPluginInfo>) -> Seq<VpnPluginInfo>
    decreases s.len(),
{
    if s.len() == 0 {
        s
    } else {
        let prev = dedup_service(s.drop_last());
        if has_service(prev, s.last().service_type@) {
            prev
        } else {
            prev.push(s.last())
        }
    }
}

/// Plugins labelled `l`.
pub open spec fn labelled(l: Seq<char>) -> spec_fn(VpnPluginInfo) -> bool {
    |p: VpnPluginInfo| p.label@ == l
}

/// `s` orders `orig` by label, keeping plugins with equal labels in their
/// input order.
pub open spec fn stably_sorted(s: Seq<VpnPluginInfo>, orig: Seq<VpnPluginInfo>) -> bool {
    &&& plugins_sorted(s)
    &&& s.to_multiset() == orig.to_multiset()
    &&& forall|l: Seq<char>| #[trigger] s.filter(labelled(l)) == orig.filter(labelled(l))
}

proof fn lemma_filter_none(s: Seq<VpnPluginInfo>, pred: spec_fn(VpnPluginInfo) -> bool)
    requires
        forall|i: int| 0 <= i < s.len() ==> !pred(#[trigger] s[i]),
    ensures
        s.filter(pred) == Seq::<VpnPluginInfo>::empty(),
{
    assert(s.all(|x: VpnPluginInfo| !pred(x)));
    s.lemma_all_neg_filter_empty(pred);
    assert(s.filter(pred) =~= Seq::<VpnPluginInfo>::empty());
}

/// Inserting `x` after every plugin whose label does not sort after its own,
/// and before the rest, appends it to the plugins of its label.
proof fn lemma_insert_keeps_label_order(out: Seq<VpnPluginInfo>, x: VpnPluginInfo, p: int)
    requires
        0 <= p <= out.len(),
        plugins_sorted(out),
        p < out.len() ==> seq_lt(x.label@, out[p].label@),
    ensures
        forall|l: Seq<char>| #[trigger] out.insert(p, x).filter(labelled(l)) == (if x.label@ == l {
            out.filter(labelled(l)).push(x)
        } else {
            out.filter(labelled(l))
        }),
{
    let head = out.take(p);
    let tail = out.skip(p);
    assert forall|q: int| 0 <= q < tail.len() implies seq_lt(x.label@, (#[trigger] tail[q]).label@) by {
        let j = p + q;
        assert(tail[q] == out[j]);
        if j > p {
            assert(!seq_lt(out[j].label@, out[p].label@));
            if seq_lt(out[p].label@, out[j].label@) {
                lemma_seq_lt_trans(x.label@, out[p].label@, out[j].label@);
            } else {
                lemma_seq_lt_total(out[p].label@, out[j].label@);
            }
        }
    }
    assert forall|l: Seq<char>| #[trigger] out.insert(p, x).filter(labelled(l)) == (if x.label@
        == l {
        out.filter(labelled(l)).push(x)
    } else {
        out.filter(labelled(l))
    }) by {
        let pred = labelled(l);
        assert(out =~= head + tail);
        assert(out.insert(p, x) =~= head.push(x) + tail);
        Seq::filter_distributes_over_add(head, tail, pred);
        Seq::filter_distributes_over_add(head.push(x), tail, pred);
        head.lemma_filter_push(x, pred);
        if x.label@ == l {
            assert forall|q: int| 0 <= q < tail.len() implies !pred(#[trigger] tail[q]) by {
                lemma_seq_lt_asym(x.label@, tail[q].label@);
            }
            lemma_filter_none(tail, pred);
            assert(head.filter(pred) + Seq::<VpnPluginInfo>::empty() =~= head.filter(pred));
            assert(head.filter(pred).push(x) + Seq::<VpnPluginInfo>::empty() =~= head.filter(
                pred,
            ).push(x));
        }
    }
}


/// The position of `s[i]` among the plugins of its label.
proof fn lemma_filter_at(s: Seq<VpnPluginInfo>, i: int)
    requires
        0 <= i < s.len(),
    ensures
        ({
            let pred = labelled(s[i].label@);
            let c = s.take(i).filter(pred).len();
            c < s.filter(pred).len() && s.filter(pred)[c as int] == s[i]
        }),
{
    let pred = labelled(s[i].label@);
    assert(s.take(i + 1) =~= s.take(i).push(s[i]));
    s.take(i).lemma_filter_push(s[i], pred);
    assert(s =~= s.take(i + 1) + s.skip(i + 1));
    Seq::filter_distributes_over_add(s.take(i + 1), s.skip(i + 1), pred);
}

/// A plugin labelled `l` occurs in `s` from position `i` on when `s` has
/// more plugins labelled `l` than its first `i` entries.
proof fn lemma_label_later(s: Seq<VpnPluginInfo>, i: int, l: Seq<char>)
    requires
        0 <= i <= s.len(),
        s.take(i).filter(labelled(l)).len() < s.filter(labelled(l)).len(),
    ensures
        exists|j: int| i <= j < s.len() && (#[trigger] s[j]).label@ == l,
{
    let pred = labelled(l);
    assert(s =~= s.take(i) + s.skip(i));
    Seq::filter_distributes_over_add(s.take(i), s.skip(i), pred);
    let rest = s.skip(i).filter(pred);
    assert(rest.len() > 0);
    let e = rest[0];
    s.skip(i).lemma_filter_pred(pred, 0);
    assert(rest.contains(e));
    s.skip(i).lemma_filter_contains_rev(pred, e);
    let q = choose|q: int| 0 <= q < s.skip(i).len() && s.skip(i)[q] == e;
    assert(s[i + q] == e);
}

proof fn lemma_stable_prefix(a: Seq<VpnPluginInfo>, b: Seq<VpnPluginInfo>, orig: Seq<VpnPluginInfo>, i: int)
    requires
        stably_sorted(a, orig),
        stably_sorted(b, orig),
        a.len() == b.len(),
        0 <= i <= a.len(),
    ensures
        a.take(i) == b.take(i),
    decreases i,
{
    if i > 0 {
        let k = i - 1;
        lemma_stable_prefix(a, b, orig, k);
        let la = a[k].label@;
        let lb = b[k].label@;
        lemma_filter_at(a, k);
        lemma_filter_at(b, k);
        assert(a.filter(labelled(la)) == b.filter(labelled(la)));
        assert(a.filter(labelled(lb)) == b.filter(labelled(lb)));
        if seq_lt(la, lb) {
            // `b` must hold a plugin labelled `la` after position `k`,
            // which would sort before `b[k]`.
            lemma_label_later(b, k, la);
            let j = choose|j: int| k <= j < b.len() && (#[trigger] b[j]).label@ == la;
            lemma_seq_lt_asym(la, lb);
            assert(j != k);
            assert(!seq_lt(b[j].label@, b[k].label@));
        } else if seq_lt(lb, la) {
            lemma_label_later(a, k, lb);
            let j = choose|j: int| k <= j < a.len() && (#[trigger] a[j]).label@ == lb;
            lemma_seq_lt_asym(la, lb);
            assert(j != k);
            assert(!seq_lt(a[j].label@, a[k].label@));
        } else {
            lemma_seq_lt_total(la, lb);
        }
        assert(a[k] == b[k]);
        assert(a.take(i) =~= a.take(k).push(a[k]));
        assert(b.take(i) =~= b.take(k).push(b[k]));
    }
}

/// Sorting by label while keeping equal labels in their order has exactly
/// one outcome, so the contract of `sort_and_dedup_plugins` fixes its result.
pub proof fn lemma_stably_sorted_unique(
    a: Seq<VpnPluginInfo>,
    b: Seq<VpnPluginInfo>,
    orig: Seq<VpnPluginInfo>,
)
    requires
        stably_sorted(a, orig),
        stably_sorted(b, orig),
    ensures
        a == b,
{
    broadcast use vstd::seq_lib::group_to_multiset_ensures;

    assert(a.len() == a.to_multiset().len());
    assert(b.len() == b.to_multiset().len());
    lemma_stable_prefix(a, b, orig, a.len() as int);
    assert(a =~= a.take(a.len() as int));
    assert(b =~= b.take(b.len() as int));
}

/// Sorts plugins by label, keeping plugins with equal labels in their order,
/// then keeps only the first plugin of each service type.
pub fn sort_and_dedup_plugins(plugins: Vec<VpnPluginInfo>) -> (r: Vec<VpnPluginInfo>)
    ensures
        exists|s: Seq<VpnPluginInfo>| stably_sorted(s, plugins@) && r@ == dedup_service(s),
        plugins_sorted(r@),
        forall|i: int, j: int|
            0 <= i < j < r@.len() ==> (#[trigger] r@[i]).service_type@ != (#[trigger] r@[j]).service_type@,
        forall|i: int| 0 <= i < r@.len() ==> plugins@.contains(#[trigger] r@[i]),
        forall|t: Seq<char>| #[trigger] has_service(plugins@, t) <==> has_service(r@, t),
{
    let ghost orig = plugins@;
    let mut rest = plugins;
    let mut sorted: Vec<VpnPluginInfo> = Vec::new();
    let mut k: usize = 0;
    let len0 = rest.len();
    while rest.len() > 0
        invariant
            k <= orig.len(),
            orig.len() == len0,
            rest@ == orig.skip(k as int),
            plugins_sorted(sorted@),
            sorted@.to_multiset() == orig.take(k as int).to_multiset(),
            forall|l: Seq<char>| #[trigger] sorted@.filter(labelled(l)) == orig.take(
                k as int,
            ).filter(labelled(l)),
        decreases rest@.len(),
    {
        assert(k < orig.len());
        let x = rest.remove(0);
        assert(x == orig[k as int]);
        let mut p: usize = 0;
        while p < sorted.len() && !str_lt(x.label.as_str(), sorted[p].label.as_str())
            invariant
                p <= sorted@.len(),
                forall|i: int| 0 <= i < p ==> !seq_lt(x.label@, (#[trigger] sorted@[i]).label@),
            decreases sorted@.len() - p,
        {
            p = p + 1;
        }
        let ghost old_s = sorted@;
        sorted.insert(p, x);
        proof {
            let n = sorted@;
            assert(n == old_s.insert(p as int, x));
            assert forall|i: int, j: int| 0 <= i < j < n.len() implies !seq_lt(
                (#[trigger] n[j]).label@,
                (#[trigger] n[i]).label@,
            ) by {
                if i < p && j == p {
                    assert(n[i] == old_s[i]);
                } else if i == p && j > p {
                    assert(n[j] == old_s[j - 1]);
                    assert(seq_lt(x.label@, old_s[p as int].label@));
                    if j - 1 > p {
                        assert(!seq_lt(old_s[j - 1].label@, old_s[p as int].label@));
                    }
                    lemma_seq_lt_asym(old_s[j - 1].label@, x.label@);
                    if seq_lt(old_s[j - 1].label@, x.label@) {
                        lemma_seq_lt_trans(old_s[j - 1].label@, x.label@, old_s[p as int].label@);
                    }
                } else if i < p && j < p {
                    assert(n[i] == old_s[i] && n[j] == old_s[j]);
                } else if i < p && j > p {
                    assert(n[i] == old_s[i] && n[j] == old_s[j - 1]);
                } else {
                    assert(n[i] == old_s[i - 1] && n[j] == old_s[j - 1]);
                }
            }
            assert(orig.take(k + 1) =~= orig.take(k as int).push(x));
            lemma_insert_keeps_label_order(old_s, x, p as int);
            assert forall|l: Seq<char>| #[trigger] n.filter(labelled(l)) == orig.take(k + 1).filter(
                labelled(l),
            ) by {
                orig.take(k as int).lemma_filter_push(x, labelled(l));
            }
        }
        k = k + 1;
    }
    assert(orig.take(k as int) =~= orig);
    let ghost s = sorted@;
    let n0 = sorted.len();
    let mut out: Vec<VpnPluginInfo> = Vec::new();
    let mut i: usize = 0;
    while sorted.len() > 0
        invariant
            s.len() == n0,
            sorted@ == s.skip(i as int),
            i <= s.len(),
            out@ == dedup_service(s.take(i as int)),
        decreases sorted@.len(),
    {
        assert(i < s.len());
        let x = sorted.remove(0);
        assert(x == s[i as int]);
        let ghost t1 = s.take(i + 1);
        assert(t1.drop_last() =~= s.take(i as int));
        let keep = !has_service_exec(&out, &x.service_type);
        if keep {
            out.push(x);
        }
        i = i + 1;
    }
    assert(s.take(i as int) =~= s);
    proof {
        lemma_same_elements(s, orig);
        lemma_dedup_sorted(s);
        lemma_dedup_services(s);
        lemma_dedup_from_input(s);
        assert forall|j: int| 0 <= j < out@.len() implies orig.contains(#[trigger] out@[j]) by {
            let k = choose|k: int| 0 <= k < s.len() && s[k] == #[trigger] dedup_service(s)[j];
            assert(s.contains(s[k]));
        }
        assert forall|t: Seq<char>| #[trigger] has_service(orig, t) <==> has_service(s, t) by {
            if has_service(orig, t) {
                let k = choose|k: int| 0 <= k < orig.len() && (#[trigger] orig[k]).service_type@ == t;
                assert(orig.contains(orig[k]));
                let m = choose|m: int| 0 <= m < s.len() && s[m] == orig[k];
                assert(s[m].service_type@ == t);
            }
            if has_service(s, t) {
                let k = choose|k: int| 0 <= k < s.len() && (#[trigger] s[k]).service_type@ == t;
                assert(s.contains(s[k]));
                let m = choose|m: int| 0 <= m < orig.len() && orig[m] == s[k];
                assert(orig[m].service_type@ == t);
            }
        }
    }
    out
}

/// Two arrangements of the same plugins hold the same plugins.
proof fn lemma_same_elements(a: Seq<VpnPluginInfo>, b: Seq<VpnPluginInfo>)
    requires
        a.to_multiset() == b.to_multiset(),
    ensures
        forall|x: VpnPluginInfo| a.contains(x) <==> b.contains(x),
{
    broadcast use vstd::seq_lib::group_to_multiset_ensures;

    assert forall|x: VpnPluginInfo| a.contains(x) <==> b.contains(x) by {
        vstd::seq_lib::to_multiset_contains(a, x);
        vstd::seq_lib::to_multiset_contains(b, x);
    }
}

fn has_service_exec(l: &Vec<VpnPluginInfo>, t: &String) -> (r: bool)
    ensures
        r == has_service(l@, t@),
{
    let mut i: usize = 0;
    while i < l.len()
        invariant
            i <= l@.len(),
            forall|j: int| 0 <= j < i ==> (#[trigger] l@[j]).service_type@ != t@,
        decreases l@.len() - i,
    {
        if str_eq(l[i].service_type.as_str(), t.as_str()) {
            return true;
        }
        i = i + 1;
    }
    false
}

/// Every plugin that deduplication keeps is a plugin of the input.
pub proof fn lemma_dedup_from_input(s: Seq<VpnPluginInfo>)
    ensures
        forall|i: int|
            0 <= i < dedup_service(s).len() ==> exists|k: int|
                0 <= k < s.len() && s[k] == #[trigger] dedup_service(s)[i],
    decreases s.len(),
{
    if s.len() > 0 {
        let init = s.drop_last();
        lemma_dedup_from_input(init);
        let prev = dedup_service(init);
        assert forall|i: int| 0 <= i < dedup_service(s).len() implies exists|k: int|
            0 <= k < s.len() && s[k] == #[trigger] dedup_service(s)[i] by {
            if i < prev.len() {
                let k = choose|k: int| 0 <= k < init.len() && init[k] == prev[i];
                assert(s[k] == init[k]);
                assert(dedup_service(s)[i] == prev[i]);
            } else {
                assert(s[s.len() - 1] == s.last());
            }
        }
    }
}

/// After deduplication no two plugins share a service type, and every
/// service type of the input is still present.
pub proof fn lemma_dedup_services(s: Seq<VpnPluginInfo>)
    ensures
        forall|i: int, j: int|
            0 <= i < j < dedup_service(s).len() ==> (#[trigger] dedup_service(s)[i]).service_type@
                != (#[trigger] dedup_service(s)[j]).service_type@,
        forall|t: Seq<char>| #[trigger] has_service(s, t) <==> has_service(dedup_service(s), t),
    decreases s.len(),
{
    if s.len() > 0 {
        let init = s.drop_last();
        let x = s.last();
        lemma_dedup_services(init);
        let prev = dedup_service(init);
        let d = dedup_service(s);
        assert forall|t: Seq<char>| #[trigger] has_service(s, t) <==> has_service(d, t) by {
            if has_service(s, t) {
                let k = choose|k: int| 0 <= k < s.len() && (#[trigger] s[k]).service_type@ == t;
                if k < init.len() {
                    assert(init[k] == s[k]);
                    assert(has_service(init, t));
                    let m = choose|m: int| 0 <= m < prev.len() && (#[trigger] prev[m]).service_type@ == t;
                    assert(d[m] == prev[m]);
                } else if !has_service(prev, t) {
                    assert(d[prev.len() as int] == x);
                }
            }
            if has_service(d, t) {
                let m = choose|m: int| 0 <= m < d.len() && (#[trigger] d[m]).service_type@ == t;
                if m < prev.len() {
                    assert(d[m] == prev[m]);
                    assert(has_service(prev, t));
                    assert(has_service(init, t));
                    let k = choose|k: int| 0 <= k < init.len() && (#[trigger] init[k]).service_type@ == t;
                    assert(init[k] == s[k]);
                    assert(s[k].service_type@ == t);
                } else {
                    assert(d[m] == x);
                    assert(s[s.len() - 1] == x);
                }
            }
        }
        assert forall|i: int, j: int| 0 <= i < j < d.len() implies (#[trigger] d[i]).service_type@
            != (#[trigger] d[j]).service_type@ by {
            if j < prev.len() {
                assert(d[i] == prev[i] && d[j] == prev[j]);
            } else {
                assert(d[i] == prev[i]);
                assert(!has_service(prev, x.service_type@));
            }
        }
    }
}

/// Deduplicating a list sorted by label leaves it sorted by label.
pub proof fn lemma_dedup_sorted(s: Seq<VpnPluginInfo>)
    requires
        plugins_sorted(s),
    ensures
        plugins_sorted(dedup_service(s)),
    decreases s.len(),
{
    if s.len() > 0 {
        let init = s.drop_last();
        assert forall|i: int, j: int| 0 <= i < j < init.len() implies !seq_lt(
            (#[trigger] init[j]).label@,
            (#[trigger] init[i]).label@,
        ) by {
            assert(init[i] == s[i] && init[j] == s[j]);
        }
        lemma_dedup_sorted(init);
        lemma_dedup_from_input(init);
        let prev = dedup_service(init);
        let d = dedup_service(s);
        assert forall|i: int, j: int| 0 <= i < j < d.len() implies !seq_lt(
            (#[trigger] d[j]).label@,
            (#[trigger] d[i]).label@,
        ) by {
            if j < prev.len() {
                assert(d[i] == prev[i] && d[j] == prev[j]);
            } else {
                assert(d[i] == prev[i]);
                let k = choose|k: int| 0 <= k < init.len() && init[k] == #[trigger] prev[i];
                assert(s[k] == init[k]);
                assert(d[j] == s[s.len() - 1]);
            }
        }
    }
}

// ── `nmcli connection import` ────────────────────────────────────────────────

/// The UUID in the first pair of parentheses of `nmcli connection import`
/// output, trimmed; it must be at least 36 bytes long and hold a `-`.
pub open spec fn import_uuid_of(stdout: Seq<char>) -> Option<Seq<char>> {
    match first_index(stdout, '(') {
        Some(o) => {
            let rest = stdout.skip(o + 1);
            match first_index(rest, ')') {
                Some(e) => {
                    let u = trim(rest.take(e));
                    if vstd::utf8::encode_utf8(u).len() >= 36 && u.contains('-') {
                        Some(u)
                    } else {
                        None
                    }
                },
                None => None,
            }
        },
        None => None,
    }
}

fn contains_char(cs: &Vec<char>, c: char) -> (r: bool)
    ensures
        r == cs@.contains(c),
{
    let mut i: usize = 0;
    while i < cs.len()
        invariant
            i <= cs@.len(),
            forall|j: int| 0 <= j < i ==> cs@[j] != c,
        decreases cs@.len() - i,
    {
        if cs[i] == c {
            return true;
        }
        i = i + 1;
    }
    false
}

/// Parse a connection UUID from `nmcli connection import` stdout.
pub fn parse_import_uuid(stdout: &str) -> (r: Option<String>)
    ensures
        opt_string_view(r) == import_uuid_of(stdout@),
{
    let cs = chars_of(stdout);
    let open = match find_char(&cs, '(') {
        Some(o) => o,
        None => {
            return None;
        },
    };
    let rest = string_of_range(&cs, open + 1, cs.len());
    assert(rest@ =~= stdout@.skip(open + 1));
    let rc = chars_of(rest.as_str());
    let close = match find_char(&rc, ')') {
        Some(e) => e,
        None => {
            return None;
        },
    };
    let inner = string_of_range(&rc, 0, close);
    assert(inner@ =~= rest@.take(close as int));
    let uuid = trim_str(inner.as_str());
    let uc = chars_of(uuid.as_str());
    if crate::text::utf8_len_at_least(&uc, 36) && contains_char(&uc, '-') {
        Some(uuid)
    } else {
        None
    }
}

} // verus!
