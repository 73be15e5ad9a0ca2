//! Order of the connection list: active entries first, then by kind, then by
//! label.

use vstd::prelude::*;
use crate::connection::{Connection, ConnectionKind, ConnectionStatus};
use crate::text::chars_of;

verus! {

broadcast use vstd::seq_lib::group_to_multiset_ensures;

/// Lexicographic order of character sequences by code point (the byte order
/// of their UTF-8 encodings).
pub open spec fn seq_lt(a: Seq<char>, b: Seq<char>) -> bool
    decreases a.len(),
{
    if a.len() == 0 {
        b.len() > 0
    } else if b.len() == 0 {
        false
    } else if a[0] != b[0] {
        a[0] < b[0]
    } else {
        seq_lt(a.drop_first(), b.drop_first())
    }
}

pub proof fn lemma_seq_lt_asym(a: Seq<char>, b: Seq<char>)
    ensures
        !(seq_lt(a, b) && seq_lt(b, a)),
        !seq_lt(a, a),
    decreases a.len(),
{
    if a.len() > 0 && b.len() > 0 && a[0] == b[0] {
        lemma_seq_lt_asym(a.drop_first(), b.drop_first());
    }
    if a.len() > 0 {
        lemma_seq_lt_asym(a.drop_first(), a.drop_first());
    }
}

pub proof fn lemma_seq_lt_trans(a: Seq<char>, b: Seq<char>, c: Seq<char>)
    requires
        seq_lt(a, b),
        seq_lt(b, c),
    ensures
        seq_lt(a, c),
    decreases a.len(),
{
    if a.len() > 0 && b.len() > 0 && c.len() > 0 && a[0] == b[0] && b[0] == c[0] {
        lemma_seq_lt_trans(a.drop_first(), b.drop_first(), c.drop_first());
    }
}

pub proof fn lemma_seq_lt_total(a: Seq<char>, b: Seq<char>)
    requires
        !seq_lt(a, b),
        !seq_lt(b, a),
    ensures
        a == b,
    decreases a.len(),
{
    if a.len() > 0 && b.len() > 0 {
        if a[0] == b[0] {
            lemma_seq_lt_total(a.drop_first(), b.drop_first());
            assert(a =~= seq![a[0]] + a.drop_first());
            assert(b =~= seq![b[0]] + b.drop_first());
        } else {
        }
    }
}

/// Whether `a` sorts before `b`.
pub fn str_lt(a: &str, b: &str) -> (r: bool)
    ensures
        r == seq_lt(a@, b@),
{
    let x = chars_of(a);
    let y = chars_of(b);
    let mut i: usize = 0;
    assert(a@.skip(0) =~= a@ && b@.skip(0) =~= b@);
    while i < x.len() && i < y.len()
        invariant
            x@ == a@,
            y@ == b@,
            i <= x@.len(),
            i <= y@.len(),
            seq_lt(a@, b@) == seq_lt(a@.skip(i as int), b@.skip(i as int)),
        decreases x@.len() - i,
    {
        let ghost sa = a@.skip(i as int);
        let ghost sb = b@.skip(i as int);
        assert(sa[0] == x@[i as int] && sb[0] == y@[i as int]);
        if x[i] != y[i] {
            return x[i] < y[i];
        }
        assert(sa.drop_first() =~= a@.skip(i + 1));
        assert(sb.drop_first() =~= b@.skip(i + 1));
        i = i + 1;
    }
    i < y.len()
}

/// Position of a kind in the list order.
pub open spec fn kind_rank(kind: ConnectionKind) -> u8 {
    match kind {
        ConnectionKind::Wifi(_) => 0,
        ConnectionKind::Ethernet => 1,
        ConnectionKind::Vpn(_) => 2,
        ConnectionKind::Loopback => 3,
        ConnectionKind::Other(_) => 4,
        ConnectionKind::Modem(_) => 5,
    }
}

pub fn kind_order(kind: &ConnectionKind) -> (r: u8)
    ensures
        r == kind_rank(*kind),
{
    match kind {
        ConnectionKind::Wifi(_) => 0,
        ConnectionKind::Ethernet => 1,
        ConnectionKind::Vpn(_) => 2,
        ConnectionKind::Loopback => 3,
        ConnectionKind::Other(_) => 4,
        ConnectionKind::Modem(_) => 5,
    }
}

/// `a` sorts strictly before `b`: active first, then by kind, then by label.
pub open spec fn listed_before(a: Connection, b: Connection) -> bool {
    let aa = a.status == ConnectionStatus::Active;
    let ba = b.status == ConnectionStatus::Active;
    ||| aa && !ba
    ||| aa == ba && kind_rank(a.kind) < kind_rank(b.kind)
    ||| aa == ba && kind_rank(a.kind) == kind_rank(b.kind) && seq_lt(a.spec_label(), b.spec_label())
}

pub proof fn lemma_listed_before_order(a: Connection, b: Connection, c: Connection)
    ensures
        !(listed_before(a, b) && listed_before(b, a)),
        listed_before(a, b) && listed_before(b, c) ==> listed_before(a, c),
{
    lemma_seq_lt_asym(a.spec_label(), b.spec_label());
    if seq_lt(a.spec_label(), b.spec_label()) && seq_lt(b.spec_label(), c.spec_label()) {
        lemma_seq_lt_trans(a.spec_label(), b.spec_label(), c.spec_label());
    }
}

fn before(a: &Connection, b: &Connection) -> (r: bool)
    ensures
        r == listed_before(*a, *b),
{
    let aa = a.is_active();
    let ba = b.is_active();
    if aa != ba {
        return aa;
    }
    let ka = kind_order(&a.kind);
    let kb = kind_order(&b.kind);
    if ka != kb {
        return ka < kb;
    }
    str_lt(a.label(), b.label())
}

/// What the list order compares: activity, kind, label.
pub open spec fn sort_key(c: Connection) -> (bool, u8, Seq<char>) {
    (c.status == ConnectionStatus::Active, kind_rank(c.kind), c.spec_label())
}

/// Entries with sort key `k`.
pub open spec fn has_key(k: (bool, u8, Seq<char>)) -> spec_fn(Connection) -> bool {
    |c: Connection| sort_key(c) == k
}

/// Two entries compare equal exactly when their sort keys are equal, and
/// the order depends on the keys alone.
pub proof fn lemma_listed_before_keys(a: Connection, b: Connection, c: Connection)
    ensures
        !listed_before(a, b) && !listed_before(b, a) <==> sort_key(a) == sort_key(b),
        sort_key(b) == sort_key(c) ==> (listed_before(a, b) <==> listed_before(a, c)),
{
    lemma_seq_lt_asym(a.spec_label(), b.spec_label());
    if !seq_lt(a.spec_label(), b.spec_label()) && !seq_lt(b.spec_label(), a.spec_label()) {
        lemma_seq_lt_total(a.spec_label(), b.spec_label());
    }
}

proof fn lemma_filter_none<A>(s: Seq<A>, pred: spec_fn(A) -> bool)
    requires
        forall|i: int| 0 <= i < s.len() ==> !pred(#[trigger] s[i]),
    ensures
        s.filter(pred) == Seq::<A>::empty(),
{
    assert(s.all(|x: A| !pred(x)));
    s.lemma_all_neg_filter_empty(pred);
    assert(s.filter(pred) =~= Seq::<A>::empty());
}

pub open spec fn list_sorted(s: Seq<Connection>) -> bool {
    forall|i: int, j: int| 0 <= i < j < s.len() ==> !listed_before(#[trigger] s[j], #[trigger] s[i])
}

/// Inserting `x` after every entry it does not sort before, and before the
/// rest, appends it to the entries of its own key and leaves the others.
proof fn lemma_insert_keeps_key_order(out: Seq<Connection>, x: Connection, p: int)
    requires
        0 <= p <= out.len(),
        list_sorted(out),
        forall|i: int| 0 <= i < p ==> !listed_before(x, #[trigger] out[i]),
        p < out.len() ==> listed_before(x, out[p]),
    ensures
        forall|key: (bool, u8, Seq<char>)| #[trigger] out.insert(p, x).filter(has_key(key)) == (
        if sort_key(x) == key {
            out.filter(has_key(key)).push(x)
        } else {
            out.filter(has_key(key))
        }),
{
    let head = out.take(p);
    let tail = out.skip(p);
    assert forall|q: int| 0 <= q < tail.len() implies listed_before(x, #[trigger] tail[q]) by {
        let j = p + q;
        assert(tail[q] == out[j]);
        if j > p {
            assert(!listed_before(out[j], out[p]));
            lemma_listed_before_keys(out[p], out[j], out[j]);
            lemma_listed_before_keys(x, out[p], out[j]);
            lemma_listed_before_order(x, out[p], out[j]);
            if !listed_before(out[p], out[j]) {
                assert(sort_key(out[p]) == sort_key(out[j]));
            }
        }
    }
    assert forall|key: (bool, u8, Seq<char>)| #[trigger] out.insert(p, x).filter(has_key(key)) == (
    if sort_key(x) == key {
        out.filter(has_key(key)).push(x)
    } else {
        out.filter(has_key(key))
    }) by {
        let pred = has_key(key);
        assert(out =~= head + tail);
        assert(out.insert(p, x) =~= head.push(x) + tail);
        Seq::filter_distributes_over_add(head, tail, pred);
        Seq::filter_distributes_over_add(head.push(x), tail, pred);
        head.lemma_filter_push(x, pred);
        if sort_key(x) == key {
            assert forall|q: int| 0 <= q < tail.len() implies !pred(#[trigger] tail[q]) by {
                lemma_listed_before_keys(x, tail[q], tail[q]);
                lemma_listed_before_order(x, tail[q], tail[q]);
            }
            lemma_filter_none(tail, pred);
            assert(tail.filter(pred) =~= Seq::<Connection>::empty());
            assert(head.filter(pred) + Seq::<Connection>::empty() =~= head.filter(pred));
            assert(head.filter(pred).push(x) + Seq::<Connection>::empty() =~= head.filter(pred).push(x));
        }
    }
}

/// Sorts the connection list: active entries first, then Wi-Fi, Ethernet,
/// VPN, loopback, other kinds and mobile broadband, then by label.  Entries
/// that compare equal keep their order.
pub fn sort_connections(v: Vec<Connection>) -> (r: Vec<Connection>)
    ensures
        stable_list_order(r@, v@),
{
    let ghost orig = v@;
    let mut rest = v;
    let mut out: Vec<Connection> = Vec::new();
    let mut k: usize = 0;
    let len0 = rest.len();
    while rest.len() > 0
        invariant
            k <= orig.len(),
            orig.len() == len0,
            rest@ == orig.skip(k as int),
            list_sorted(out@),
            out@.to_multiset() == orig.take(k as int).to_multiset(),
            forall|key: (bool, u8, Seq<char>)| #[trigger] out@.filter(has_key(key)) == orig.take(
                k as int,
            ).filter(has_key(key)),
            out@.len() == k,
        decreases rest@.len(),
    {
        assert(k < orig.len());
        let x = rest.remove(0);
        assert(x == orig[k as int]);
        let mut p: usize = 0;
        while p < out.len() && !before(&x, &out[p])
            invariant
                p <= out@.len(),
                forall|i: int| 0 <= i < p ==> !listed_before(x, #[trigger] out@[i]),
            decreases out@.len() - p,
        {
            p = p + 1;
        }
        let ghost old_out = out@;
        out.insert(p, x);
        proof {
            let n = out@;
            assert(n == old_out.insert(p as int, x));
            assert forall|i: int, j: int| 0 <= i < j < n.len() implies !listed_before(
                #[trigger] n[j],
                #[trigger] n[i],
            ) by {
                if i < p && j == p {
                    assert(n[i] == old_out[i]);
                } else if i == p && j > p {
                    assert(n[j] == old_out[j - 1]);
                    assert(listed_before(x, old_out[p as int]));
                    if j - 1 > p {
                        assert(!listed_before(old_out[j - 1], old_out[p as int]));
                    }
                    lemma_listed_before_order(old_out[j - 1], x, old_out[p as int]);
                } else if i < p && j < p {
                    assert(n[i] == old_out[i] && n[j] == old_out[j]);
                } else if i < p && j > p {
                    assert(n[i] == old_out[i] && n[j] == old_out[j - 1]);
                } else {
                    assert(n[i] == old_out[i - 1] && n[j] == old_out[j - 1]);
                }
            }
            assert(orig.take(k + 1) =~= orig.take(k as int).push(x));
            lemma_insert_keeps_key_order(old_out, x, p as int);
            assert forall|key: (bool, u8, Seq<char>)| #[trigger] n.filter(has_key(key)) == orig.take(
                k + 1,
            ).filter(has_key(key)) by {
                orig.take(k as int).lemma_filter_push(x, has_key(key));
            }
        }
        k = k + 1;
    }
    assert(orig.take(k as int) =~= orig);
    out
}


/// `s` is `orig` in list order, entries with equal sort keys kept in their
/// input order (what `sort_connections` returns).
pub open spec fn stable_list_order(s: Seq<Connection>, orig: Seq<Connection>) -> bool {
    &&& list_sorted(s)
    &&& s.to_multiset() == orig.to_multiset()
    &&& forall|k: (bool, u8, Seq<char>)| #[trigger] s.filter(has_key(k)) == orig.filter(has_key(k))
}

proof fn lemma_key_filter_at(s: Seq<Connection>, i: int)
    requires
        0 <= i < s.len(),
    ensures
        ({
            let pred = has_key(sort_key(s[i]));
            let c = s.take(i).filter(pred).len();
            c < s.filter(pred).len() && s.filter(pred)[c as int] == s[i]
        }),
{
    let pred = has_key(sort_key(s[i]));
    assert(s.take(i + 1) =~= s.take(i).push(s[i]));
    s.take(i).lemma_filter_push(s[i], pred);
    assert(s =~= s.take(i + 1) + s.skip(i + 1));
    Seq::filter_distributes_over_add(s.take(i + 1), s.skip(i + 1), pred);
}

proof fn lemma_key_later(s: Seq<Connection>, i: int, k: (bool, u8, Seq<char>))
    requires
        0 <= i <= s.len(),
        s.take(i).filter(has_key(k)).len() < s.filter(has_key(k)).len(),
    ensures
        exists|j: int| i <= j < s.len() && sort_key(#[trigger] s[j]) == k,
{
    let pred = has_key(k);
    assert(s =~= s.take(i) + s.skip(i));
    Seq::filter_distributes_over_add(s.take(i), s.skip(i), pred);
    let rest = s.skip(i).filter(pred);
    let e = rest[0];
    s.skip(i).lemma_filter_pred(pred, 0);
    assert(rest.contains(e));
    s.skip(i).lemma_filter_contains_rev(pred, e);
    let q = choose|q: int| 0 <= q < s.skip(i).len() && s.skip(i)[q] == e;
    assert(s[i + q] == e);
}

proof fn lemma_stable_list_prefix(a: Seq<Connection>, b: Seq<Connection>, orig: Seq<Connection>, i: int)
    requires
        stable_list_order(a, orig),
        stable_list_order(b, orig),
        a.len() == b.len(),
        0 <= i <= a.len(),
    ensures
        a.take(i) == b.take(i),
    decreases i,
{
    if i > 0 {
        let k = i - 1;
        lemma_stable_list_prefix(a, b, orig, k);
        let ka = sort_key(a[k]);
        let kb = sort_key(b[k]);
        lemma_key_filter_at(a, k);
        lemma_key_filter_at(b, k);
        assert(a.filter(has_key(ka)) == b.filter(has_key(ka)));
        assert(a.filter(has_key(kb)) == b.filter(has_key(kb)));
        lemma_listed_before_keys(a[k], b[k], b[k]);
        lemma_listed_before_order(a[k], b[k], b[k]);
        if listed_before(a[k], b[k]) {
            // `b` holds an entry with `a[k]`'s key after position `k`, which
            // would sort before `b[k]`.
            lemma_key_later(b, k, ka);
            let j = choose|j: int| k <= j < b.len() && sort_key(#[trigger] b[j]) == ka;
            lemma_listed_before_keys(b[k], a[k], b[j]);
            lemma_listed_before_keys(b[j], b[k], b[k]);
            assert(j != k);
            assert(listed_before(b[j], b[k]));
            assert(!listed_before(b[j], b[k]));
        } else if listed_before(b[k], a[k]) {
            lemma_key_later(a, k, kb);
            let j = choose|j: int| k <= j < a.len() && sort_key(#[trigger] a[j]) == kb;
            lemma_listed_before_keys(a[j], a[k], a[k]);
            assert(j != k);
            assert(listed_before(a[j], a[k]));
            assert(!listed_before(a[j], a[k]));
        }
        assert(ka == kb);
        assert(a[k] == b[k]);
        assert(a.take(i) =~= a.take(k).push(a[k]));
        assert(b.take(i) =~= b.take(k).push(b[k]));
    }
}

/// Ordering a list while keeping entries with equal sort keys in their order
/// has exactly one outcome: the contract of `sort_connections` fixes its
/// result.
pub proof fn lemma_stable_list_order_unique(a: Seq<Connection>, b: Seq<Connection>, orig: Seq<Connection>)
    requires
        stable_list_order(a, orig),
        stable_list_order(b, orig),
    ensures
        a == b,
{
    assert(a.len() == a.to_multiset().len());
    assert(b.len() == b.to_multiset().len());
    lemma_stable_list_prefix(a, b, orig, a.len() as int);
    assert(a =~= a.take(a.len() as int));
    assert(b =~= b.take(b.len() as int));
}

/// The kinds come in this order in the list: Wi-Fi, Ethernet, VPN,
/// loopback, other kinds, mobile broadband.
pub proof fn lemma_kind_rank_order(
    w: crate::connection::WifiInfo,
    v: crate::connection::VpnInfo,
    t: String,
    m: crate::connection::ModemInfo,
)
    ensures
        kind_rank(ConnectionKind::Wifi(w)) < kind_rank(ConnectionKind::Ethernet),
        kind_rank(ConnectionKind::Ethernet) < kind_rank(ConnectionKind::Vpn(v)),
        kind_rank(ConnectionKind::Vpn(v)) < kind_rank(ConnectionKind::Loopback),
        kind_rank(ConnectionKind::Loopback) < kind_rank(ConnectionKind::Other(t)),
        kind_rank(ConnectionKind::Other(t)) < kind_rank(ConnectionKind::Modem(m)),
{
}

/// In a list ordered as `sort_connections` orders it, active entries come
/// first; among entries that are both active or both not, a Wi-Fi entry
/// comes before every other kind and the kinds follow their order; entries
/// of the same activity and kind come by label.
pub proof fn lemma_sorted_list_layout(r: Seq<Connection>, orig: Seq<Connection>)
    requires
        stable_list_order(r, orig),
    ensures
        forall|i: int, j: int|
            0 <= i < j < r.len() && (#[trigger] r[j]).status == ConnectionStatus::Active ==> (
            #[trigger] r[i]).status == ConnectionStatus::Active,
        forall|i: int, j: int|
            0 <= i < j < r.len() && ((#[trigger] r[i]).status == ConnectionStatus::Active) == ((
            #[trigger] r[j]).status == ConnectionStatus::Active) ==> kind_rank(r[i].kind)
                <= kind_rank(r[j].kind),
        forall|i: int, j: int|
            0 <= i < j < r.len() && ((#[trigger] r[i]).status == ConnectionStatus::Active) == ((
            #[trigger] r[j]).status == ConnectionStatus::Active) && r[j].kind is Wifi ==> r[i].kind is Wifi,
        forall|i: int, j: int|
            0 <= i < j < r.len() && ((#[trigger] r[i]).status == ConnectionStatus::Active) == ((
            #[trigger] r[j]).status == ConnectionStatus::Active) && kind_rank(r[i].kind) == kind_rank(
                r[j].kind,
            ) ==> !seq_lt(r[j].spec_label(), r[i].spec_label()),
{
    assert forall|i: int, j: int| 0 <= i < j < r.len() implies !listed_before(
        #[trigger] r[j],
        #[trigger] r[i],
    ) by {}
}

} // verus!
