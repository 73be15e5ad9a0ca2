//! Merging live scan and modem data into the connection list.

use vstd::prelude::*;
use super::{Connection, ConnectionKind, ConnectionStatus, WifiInfo, ModemInfo, ModemLiveData, clone_opt_string};
use crate::text::{str_eq, concat2};

verus! {

pub open spec fn has_ssid(s: Seq<WifiInfo>, k: Seq<char>) -> bool {
    exists|i: int| 0 <= i < s.len() && (#[trigger] s[i]).ssid@ == k
}

/// The position of SSID `k` in `s` (meaningful when it occurs once).
pub open spec fn ssid_index(s: Seq<WifiInfo>, k: Seq<char>) -> int {
    choose|i: int| 0 <= i < s.len() && (#[trigger] s[i]).ssid@ == k
}

pub open spec fn ssids_unique(s: Seq<WifiInfo>) -> bool {
    forall|i: int, j: int|
        0 <= i < s.len() && 0 <= j < s.len() && i != j ==> (#[trigger] s[i]).ssid@ != (
        #[trigger] s[j]).ssid@
}

/// The strongest access point of each SSID, in order of first appearance;
/// among equally strong ones the earliest wins.
pub open spec fn best_aps(aps: Seq<WifiInfo>) -> Seq<WifiInfo>
    decreases aps.len(),
{
    if aps.len() == 0 {
        Seq::empty()
    } else {
        let prev = best_aps(aps.drop_last());
        let ap = aps.last();
        if has_ssid(prev, ap.ssid@) {
            let i = ssid_index(prev, ap.ssid@);
            if ap.strength > prev[i].strength {
                prev.update(i, ap)
            } else {
                prev
            }
        } else {
            prev.push(ap)
        }
    }
}

pub proof fn lemma_best_aps_unique(aps: Seq<WifiInfo>)
    ensures
        ssids_unique(best_aps(aps)),
    decreases aps.len(),
{
    if aps.len() > 0 {
        lemma_best_aps_unique(aps.drop_last());
        let prev = best_aps(aps.drop_last());
        let ap = aps.last();
        if has_ssid(prev, ap.ssid@) {
            let i = ssid_index(prev, ap.ssid@);
            let b = best_aps(aps);
            assert forall|x: int, y: int|
                0 <= x < b.len() && 0 <= y < b.len() && x != y implies (#[trigger] b[x]).ssid@ != (
                #[trigger] b[y]).ssid@ by {
                assert(prev[x].ssid@ != prev[y].ssid@);
            }
        }
    }
}

proof fn lemma_front_index(aps: Seq<WifiInfo>)
    requires
        aps.len() > 0,
    ensures
        forall|j: int| 0 <= j < aps.len() - 1 ==> #[trigger] aps.drop_last()[j] == aps[j],
{
}

/// Every SSID of the scan has a kept access point.
proof fn lemma_best_aps_cover(aps: Seq<WifiInfo>)
    ensures
        forall|j: int| 0 <= j < aps.len() ==> has_ssid(best_aps(aps), (#[trigger] aps[j]).ssid@),
    decreases aps.len(),
{
    if aps.len() > 0 {
        let front = aps.drop_last();
        let last = (aps.len() - 1) as int;
        lemma_best_aps_cover(front);
        lemma_front_index(aps);
        let prev = best_aps(front);
        let ap = aps.last();
        let b = best_aps(aps);
        assert forall|j: int| 0 <= j < aps.len() implies has_ssid(b, (#[trigger] aps[j]).ssid@) by {
            if j < last {
                assert(front[j] == aps[j]);
                assert(has_ssid(prev, front[j].ssid@));
                let x = choose|x: int| 0 <= x < prev.len() && (#[trigger] prev[x]).ssid@ == front[j].ssid@;
                if has_ssid(prev, ap.ssid@) {
                    let i0 = ssid_index(prev, ap.ssid@);
                    assert(b[x].ssid@ == prev[x].ssid@);
                } else {
                    assert(b[x] == prev[x]);
                }
                assert(b[x].ssid@ == aps[j].ssid@);
            } else if has_ssid(prev, ap.ssid@) {
                let i0 = ssid_index(prev, ap.ssid@);
                assert(b[i0].ssid@ == aps[j].ssid@);
            } else {
                assert(b[prev.len() as int] == aps[j]);
            }
        }
    }
}

/// No scanned access point is stronger than the one kept for its SSID.
proof fn lemma_best_aps_max(aps: Seq<WifiInfo>)
    ensures
        forall|i: int, j: int|
            0 <= i < best_aps(aps).len() && 0 <= j < aps.len() && (#[trigger] aps[j]).ssid@ == (
            #[trigger] best_aps(aps)[i]).ssid@ ==> aps[j].strength <= best_aps(aps)[i].strength,
    decreases aps.len(),
{
    if aps.len() > 0 {
        let front = aps.drop_last();
        let last = (aps.len() - 1) as int;
        lemma_best_aps_max(front);
        lemma_best_aps_cover(front);
        lemma_best_aps_unique(front);
        lemma_front_index(aps);
        let prev = best_aps(front);
        let ap = aps.last();
        let b = best_aps(aps);
        assert forall|i: int, j: int|
            0 <= i < b.len() && 0 <= j < aps.len() && (#[trigger] aps[j]).ssid@ == (
            #[trigger] b[i]).ssid@ implies aps[j].strength <= b[i].strength by {
            if has_ssid(prev, ap.ssid@) {
                let i0 = ssid_index(prev, ap.ssid@);
                if j < last {
                    assert(front[j] == aps[j]);
                    if i != i0 {
                        assert(b[i] == prev[i]);
                    } else {
                        assert(front[j].ssid@ == prev[i0].ssid@);
                    }
                } else if i != i0 {
                    assert(prev[i].ssid@ != prev[i0].ssid@);
                }
            } else {
                if i < prev.len() {
                    assert(b[i] == prev[i]);
                    if j < last {
                        assert(front[j] == aps[j]);
                    } else {
                        assert(prev[i].ssid@ != ap.ssid@);
                    }
                } else if j < last {
                    assert(front[j] == aps[j]);
                    assert(has_ssid(prev, front[j].ssid@));
                }
            }
        }
    }
}

/// Each kept access point is a scanned one, the first of its SSID to reach
/// its strength.
proof fn lemma_best_aps_first(aps: Seq<WifiInfo>)
    ensures
        forall|i: int|
            0 <= i < best_aps(aps).len() ==> exists|k: int|
                0 <= k < aps.len() && aps[k] == #[trigger] best_aps(aps)[i] && forall|j: int|
                    0 <= j < k && (#[trigger] aps[j]).ssid@ == aps[k].ssid@ ==> aps[j].strength
                        < aps[k].strength,
    decreases aps.len(),
{
    if aps.len() > 0 {
        let front = aps.drop_last();
        let last = (aps.len() - 1) as int;
        lemma_best_aps_first(front);
        lemma_best_aps_max(front);
        lemma_best_aps_cover(front);
        lemma_front_index(aps);
        let prev = best_aps(front);
        let ap = aps.last();
        let b = best_aps(aps);
        assert forall|i: int| 0 <= i < b.len() implies exists|k: int|
            0 <= k < aps.len() && aps[k] == #[trigger] b[i] && forall|j: int|
                0 <= j < k && (#[trigger] aps[j]).ssid@ == aps[k].ssid@ ==> aps[j].strength
                    < aps[k].strength by {
            let fresh = if has_ssid(prev, ap.ssid@) {
                i == ssid_index(prev, ap.ssid@) && ap.strength > prev[i].strength
            } else {
                i == prev.len()
            };
            if fresh {
                assert forall|j: int| 0 <= j < last && (#[trigger] aps[j]).ssid@ == aps[last].ssid@
                    implies aps[j].strength < aps[last].strength by {
                    assert(front[j] == aps[j]);
                    if has_ssid(prev, ap.ssid@) {
                        assert(front[j].ssid@ == prev[i].ssid@);
                    } else {
                        assert(has_ssid(prev, front[j].ssid@));
                    }
                }
                assert(aps[last] == b[i]);
            } else {
                assert(b[i] == prev[i]);
                let k = choose|k: int|
                    0 <= k < front.len() && front[k] == #[trigger] prev[i] && forall|j: int|
                        0 <= j < k && (#[trigger] front[j]).ssid@ == front[k].ssid@
                            ==> front[j].strength < front[k].strength;
                assert(aps[k] == front[k]);
                assert forall|j: int| 0 <= j < k && (#[trigger] aps[j]).ssid@ == aps[k].ssid@
                    implies aps[j].strength < aps[k].strength by {
                    assert(front[j] == aps[j]);
                }
            }
        }
    }
}

/// The access points kept from a scan: one per SSID seen, each the strongest
/// of its SSID (no scanned access point of that SSID is stronger), and, among
/// equally strong ones, the first scanned.
pub proof fn lemma_best_aps_strongest(aps: Seq<WifiInfo>)
    ensures
        ssids_unique(best_aps(aps)),
        forall|j: int| 0 <= j < aps.len() ==> has_ssid(best_aps(aps), (#[trigger] aps[j]).ssid@),
        forall|i: int, j: int|
            0 <= i < best_aps(aps).len() && 0 <= j < aps.len() && (#[trigger] aps[j]).ssid@ == (
            #[trigger] best_aps(aps)[i]).ssid@ ==> aps[j].strength <= best_aps(aps)[i].strength,
        forall|i: int|
            0 <= i < best_aps(aps).len() ==> exists|k: int|
                0 <= k < aps.len() && aps[k] == #[trigger] best_aps(aps)[i] && forall|j: int|
                    0 <= j < k && (#[trigger] aps[j]).ssid@ == aps[k].ssid@ ==> aps[j].strength
                        < aps[k].strength,
{
    lemma_best_aps_unique(aps);
    lemma_best_aps_cover(aps);
    lemma_best_aps_max(aps);
    lemma_best_aps_first(aps);
}

/// SSIDs of the Wi-Fi entries of a connection list.
pub open spec fn is_listed_ssid(conns: Seq<Connection>, k: Seq<char>) -> bool {
    exists|i: int|
        0 <= i < conns.len() && (#[trigger] conns[i]).kind is Wifi && conns[i].kind->Wifi_0.ssid@
            == k
}

/// A connection with its Wi-Fi data refreshed from `best` when its SSID was seen.
pub open spec fn refreshed(c: Connection, best: Seq<WifiInfo>) -> Connection {
    match c.kind {
        ConnectionKind::Wifi(w) => if has_ssid(best, w.ssid@) {
            let b = best[ssid_index(best, w.ssid@)];
            Connection {
                kind: ConnectionKind::Wifi(
                    WifiInfo {
                        strength: b.strength,
                        frequency: b.frequency,
                        bssid: b.bssid,
                        security: b.security,
                        ..w
                    },
                ),
                ..c
            }
        } else {
            c
        },
        _ => c,
    }
}

/// Access points of `best` whose SSID no Wi-Fi entry of `conns` has, in order.
pub open spec fn unlisted_aps(best: Seq<WifiInfo>, conns: Seq<Connection>) -> Seq<WifiInfo>
    decreases best.len(),
{
    if best.len() == 0 {
        Seq::empty()
    } else {
        let prev = unlisted_aps(best.drop_last(), conns);
        if is_listed_ssid(conns, best.last().ssid@) {
            prev
        } else {
            prev.push(best.last())
        }
    }
}

/// `c` is the unsaved, inactive entry shown for access point `ap`.
pub open spec fn is_visible_entry(c: Connection, ap: WifiInfo) -> bool {
    &&& c.id@ == ap.ssid@
    &&& c.uuid@ == "visible:"@ + ap.ssid@
    &&& c.kind == ConnectionKind::Wifi(ap)
    &&& c.status == ConnectionStatus::Inactive
    &&& c.ip4 is None
    &&& c.ip6 is None
    &&& c.device is None
    &&& !c.saved
}

/// Index of an entry of `best` with SSID `ssid`.
fn find_ssid(best: &Vec<WifiInfo>, ssid: &String) -> (r: Option<usize>)
    ensures
        match r {
            Some(i) => i < best@.len() && best@[i as int].ssid@ == ssid@,
            None => !has_ssid(best@, ssid@),
        },
{
    let mut i: usize = 0;
    while i < best.len()
        invariant
            i <= best@.len(),
            forall|j: int| 0 <= j < i ==> (#[trigger] best@[j]).ssid@ != ssid@,
        decreases best@.len() - i,
    {
        if str_eq(best[i].ssid.as_str(), ssid.as_str()) {
            return Some(i);
        }
        i = i + 1;
    }
    None
}

fn contains_string(l: &Vec<String>, s: &String) -> (r: bool)
    ensures
        r == exists|i: int| 0 <= i < l@.len() && (#[trigger] l@[i])@ == s@,
{
    let mut i: usize = 0;
    while i < l.len()
        invariant
            i <= l@.len(),
            forall|j: int| 0 <= j < i ==> (#[trigger] l@[j])@ != s@,
        decreases l@.len() - i,
    {
        if str_eq(l[i].as_str(), s.as_str()) {
            return true;
        }
        i = i + 1;
    }
    false
}

/// The strongest access point per SSID.
fn strongest_per_ssid(aps: &Vec<WifiInfo>) -> (r: Vec<WifiInfo>)
    ensures
        r@ == best_aps(aps@),
{
    let mut best: Vec<WifiInfo> = Vec::new();
    let mut i: usize = 0;
    while i < aps.len()
        invariant
            i <= aps@.len(),
            best@ == best_aps(aps@.take(i as int)),
        decreases aps@.len() - i,
    {
        proof {
            lemma_best_aps_unique(aps@.take(i as int));
        }
        let ap = &aps[i];
        let ghost prev = best@;
        assert(aps@.take(i + 1).drop_last() =~= aps@.take(i as int));
        assert(aps@.take(i + 1).last() == aps@[i as int]);
        match find_ssid(&best, &ap.ssid) {
            Some(j) => {
                proof {
                    let k = ap.ssid@;
                    assert(has_ssid(prev, k));
                    let c = ssid_index(prev, k);
                    if c != j {
                        assert(prev[c].ssid@ != prev[j as int].ssid@);
                    }
                }
                if ap.strength > best[j].strength {
                    best.set(j, ap.clone());
                }
            },
            None => {
                best.push(ap.clone());
            },
        }
        i = i + 1;
    }
    assert(aps@.take(aps@.len() as int) =~= aps@);
    best
}

/// `merged` is the list `conns` after merging the scan `aps` into it: every
/// entry refreshed from the strongest access point of its SSID, then one
/// visible entry for each SSID that no Wi-Fi entry had.
pub open spec fn scan_merged(conns: Seq<Connection>, aps: Seq<WifiInfo>, merged: Seq<Connection>) -> bool {
    let best = best_aps(aps);
    let added = unlisted_aps(best, conns);
    let n = conns.len();
    &&& merged.len() == n + added.len()
    &&& forall|i: int| 0 <= i < n ==> #[trigger] merged[i] == refreshed(conns[i], best)
    &&& forall|j: int| 0 <= j < added.len() ==> is_visible_entry(#[trigger] merged[n + j], added[j])
}

proof fn lemma_unlisted_from_best(best: Seq<WifiInfo>, conns: Seq<Connection>, j: int)
    requires
        0 <= j < unlisted_aps(best, conns).len(),
    ensures
        exists|k: int| 0 <= k < best.len() && best[k] == unlisted_aps(best, conns)[j],
    decreases best.len(),
{
    let prev = unlisted_aps(best.drop_last(), conns);
    if j < prev.len() {
        lemma_unlisted_from_best(best.drop_last(), conns, j);
        let k = choose|k: int| 0 <= k < best.drop_last().len() && best.drop_last()[k] == prev[j];
        assert(best[k] == prev[j]);
    } else {
        assert(best[best.len() - 1] == best.last());
    }
}

proof fn lemma_unlisted_covers_best(best: Seq<WifiInfo>, conns: Seq<Connection>, k: int)
    requires
        0 <= k < best.len(),
        !is_listed_ssid(conns, best[k].ssid@),
    ensures
        exists|j: int| 0 <= j < unlisted_aps(best, conns).len() && unlisted_aps(best, conns)[j]
            == best[k],
    decreases best.len(),
{
    let prev = unlisted_aps(best.drop_last(), conns);
    if k < best.len() - 1 {
        assert(best.drop_last()[k] == best[k]);
        lemma_unlisted_covers_best(best.drop_last(), conns, k);
        let j = choose|j: int| 0 <= j < prev.len() && prev[j] == best[k];
        assert(unlisted_aps(best, conns)[j] == prev[j]);
    } else {
        assert(unlisted_aps(best, conns)[prev.len() as int] == best[k]);
    }
}

proof fn lemma_unlisted_empty(best: Seq<WifiInfo>, conns: Seq<Connection>)
    requires
        forall|k: int| 0 <= k < best.len() ==> is_listed_ssid(conns, #[trigger] best[k].ssid@),
    ensures
        unlisted_aps(best, conns).len() == 0,
    decreases best.len(),
{
    if best.len() > 0 {
        assert forall|k: int| 0 <= k < best.drop_last().len() implies is_listed_ssid(
            conns,
            #[trigger] best.drop_last()[k].ssid@,
        ) by {
            assert(best.drop_last()[k] == best[k]);
        }
        lemma_unlisted_empty(best.drop_last(), conns);
        assert(best.last() == best[best.len() - 1]);
    }
}

proof fn lemma_refreshed_twice(c: Connection, best: Seq<WifiInfo>)
    ensures
        refreshed(refreshed(c, best), best) == refreshed(c, best),
{
}

/// After a merge, every Wi-Fi entry whose SSID the scan saw carries the
/// signal strength of the strongest scanned access point of that SSID: no
/// scanned access point of its SSID is stronger, and one of them is as strong.
pub proof fn lemma_merge_keeps_strongest(conns: Seq<Connection>, aps: Seq<WifiInfo>, merged: Seq<Connection>)
    requires
        scan_merged(conns, aps, merged),
    ensures
        forall|m: int, x: int|
            0 <= m < merged.len() && 0 <= x < aps.len() && (#[trigger] merged[m]).kind is Wifi
                && (#[trigger] aps[x]).ssid@ == merged[m].kind->Wifi_0.ssid@ ==> aps[x].strength
                <= merged[m].kind->Wifi_0.strength,
        forall|m: int, x: int|
            0 <= m < merged.len() && 0 <= x < aps.len() && (#[trigger] merged[m]).kind is Wifi
                && (#[trigger] aps[x]).ssid@ == merged[m].kind->Wifi_0.ssid@ ==> exists|y: int|
                0 <= y < aps.len() && aps[y].ssid@ == merged[m].kind->Wifi_0.ssid@
                    && #[trigger] aps[y].strength == merged[m].kind->Wifi_0.strength,
{
    let best = best_aps(aps);
    let n = conns.len() as int;
    let added = unlisted_aps(best, conns);
    lemma_best_aps_strongest(aps);
    assert forall|m: int, x: int|
        0 <= m < merged.len() && 0 <= x < aps.len() && (#[trigger] merged[m]).kind is Wifi
            && (#[trigger] aps[x]).ssid@ == merged[m].kind->Wifi_0.ssid@ implies aps[x].strength
            <= merged[m].kind->Wifi_0.strength && exists|y: int|
            0 <= y < aps.len() && aps[y].ssid@ == merged[m].kind->Wifi_0.ssid@
                && #[trigger] aps[y].strength == merged[m].kind->Wifi_0.strength by {
        let k: int = if m < n {
            let w = conns[m].kind->Wifi_0;
            assert(merged[m] == refreshed(conns[m], best));
            assert(has_ssid(best, aps[x].ssid@));
            ssid_index(best, w.ssid@)
        } else {
            let j = m - n;
            assert(is_visible_entry(merged[n + j], added[j]));
            lemma_unlisted_from_best(best, conns, j);
            choose|k: int| 0 <= k < best.len() && best[k] == added[j]
        };
        assert(0 <= k < best.len());
        assert(best[k].ssid@ == merged[m].kind->Wifi_0.ssid@);
        assert(best[k].strength == merged[m].kind->Wifi_0.strength);
        let y = choose|y: int|
            0 <= y < aps.len() && aps[y] == #[trigger] best[k] && forall|j: int|
                0 <= j < y && (#[trigger] aps[j]).ssid@ == aps[y].ssid@ ==> aps[j].strength
                    < aps[y].strength;
        assert(aps[y].strength == merged[m].kind->Wifi_0.strength);
    }
}

proof fn lemma_unlisted_unique(best: Seq<WifiInfo>, conns: Seq<Connection>)
    requires
        ssids_unique(best),
    ensures
        ssids_unique(unlisted_aps(best, conns)),
    decreases best.len(),
{
    if best.len() > 0 {
        let front = best.drop_last();
        assert forall|x: int, y: int|
            0 <= x < front.len() && 0 <= y < front.len() && x != y implies (#[trigger] front[x]).ssid@
            != (#[trigger] front[y]).ssid@ by {
            assert(front[x] == best[x] && front[y] == best[y]);
        }
        lemma_unlisted_unique(front, conns);
        let prev = unlisted_aps(front, conns);
        let u = unlisted_aps(best, conns);
        if !is_listed_ssid(conns, best.last().ssid@) {
            assert forall|x: int, y: int|
                0 <= x < u.len() && 0 <= y < u.len() && x != y implies (#[trigger] u[x]).ssid@ != (
                #[trigger] u[y]).ssid@ by {
                if x < prev.len() && y < prev.len() {
                } else if x < prev.len() {
                    lemma_unlisted_from_best(front, conns, x);
                    let k = choose|k: int| 0 <= k < front.len() && front[k] == prev[x];
                    assert(front[k] == best[k]);
                    assert(best[k].ssid@ != best[best.len() - 1].ssid@);
                } else {
                    lemma_unlisted_from_best(front, conns, y);
                    let k = choose|k: int| 0 <= k < front.len() && front[k] == prev[y];
                    assert(front[k] == best[k]);
                    assert(best[k].ssid@ != best[best.len() - 1].ssid@);
                }
            }
        }
    }
}

proof fn lemma_merge_listed(conns: Seq<Connection>, aps: Seq<WifiInfo>, merged: Seq<Connection>)
    requires
        scan_merged(conns, aps, merged),
    ensures
        merged.len() >= conns.len(),
        forall|i: int|
            0 <= i < conns.len() ==> (#[trigger] merged[i]) == (Connection {
                kind: merged[i].kind,
                ..conns[i]
            }),
        forall|i: int|
            0 <= i < conns.len() && (!(conns[i].kind is Wifi) || !has_ssid(
                aps,
                conns[i].kind->Wifi_0.ssid@,
            )) ==> #[trigger] merged[i] == conns[i],
        forall|i: int|
            0 <= i < conns.len() && conns[i].kind is Wifi && has_ssid(
                aps,
                conns[i].kind->Wifi_0.ssid@,
            ) ==> exists|y: int|
                0 <= y < aps.len() && aps[y].ssid@ == conns[i].kind->Wifi_0.ssid@ && (
                #[trigger] merged[i]).kind == ConnectionKind::Wifi(
                    (WifiInfo {
                        strength: aps[y].strength,
                        frequency: aps[y].frequency,
                        bssid: aps[y].bssid,
                        security: aps[y].security,
                        ..conns[i].kind->Wifi_0
                    }),
                ),
{
    let best = best_aps(aps);
    let n = conns.len() as int;
    let added = unlisted_aps(best, conns);
    lemma_best_aps_strongest(aps);
    assert forall|i: int|
        0 <= i < conns.len() && conns[i].kind is Wifi && has_ssid(
            aps,
            conns[i].kind->Wifi_0.ssid@,
        ) implies exists|y: int|
            0 <= y < aps.len() && aps[y].ssid@ == conns[i].kind->Wifi_0.ssid@ && (
            #[trigger] merged[i]).kind == ConnectionKind::Wifi(
                (WifiInfo {
                    strength: aps[y].strength,
                    frequency: aps[y].frequency,
                    bssid: aps[y].bssid,
                    security: aps[y].security,
                    ..conns[i].kind->Wifi_0
                }),
            ) by {
        let w = conns[i].kind->Wifi_0;
        let x = choose|x: int| 0 <= x < aps.len() && (#[trigger] aps[x]).ssid@ == w.ssid@;
        assert(has_ssid(best, aps[x].ssid@));
        let k = ssid_index(best, w.ssid@);
        assert(merged[i] == refreshed(conns[i], best));
        let y = choose|y: int|
            0 <= y < aps.len() && aps[y] == #[trigger] best[k] && forall|j: int|
                0 <= j < y && (#[trigger] aps[j]).ssid@ == aps[y].ssid@ ==> aps[j].strength
                    < aps[y].strength;
        assert(aps[y] == best[k]);
    }
    assert forall|i: int|
        0 <= i < conns.len() && (!(conns[i].kind is Wifi) || !has_ssid(
            aps,
            conns[i].kind->Wifi_0.ssid@,
        )) implies #[trigger] merged[i] == conns[i] by {
        assert(merged[i] == refreshed(conns[i], best));
        if conns[i].kind is Wifi && has_ssid(best, conns[i].kind->Wifi_0.ssid@) {
            let k = choose|k: int| 0 <= k < best.len() && (#[trigger] best[k]).ssid@
                == conns[i].kind->Wifi_0.ssid@;
            let y = choose|y: int|
                0 <= y < aps.len() && aps[y] == #[trigger] best[k] && forall|j: int|
                    0 <= j < y && (#[trigger] aps[j]).ssid@ == aps[y].ssid@ ==> aps[j].strength
                        < aps[y].strength;
            assert(aps[y].ssid@ == conns[i].kind->Wifi_0.ssid@);
        }
    }
}

#[verifier::rlimit(30)]
proof fn lemma_merge_added(conns: Seq<Connection>, aps: Seq<WifiInfo>, merged: Seq<Connection>)
    requires
        scan_merged(conns, aps, merged),
    ensures
        forall|m: int|
            conns.len() <= m < merged.len() ==> exists|y: int|
                0 <= y < aps.len() && is_visible_entry(#[trigger] merged[m], aps[y])
                    && !is_listed_ssid(conns, aps[y].ssid@),
        forall|k: Seq<char>|
            #[trigger] has_ssid(aps, k) && !is_listed_ssid(conns, k) ==> exists|m: int|
                conns.len() <= m < merged.len() && (#[trigger] merged[m]).kind is Wifi
                    && merged[m].kind->Wifi_0.ssid@ == k,
        forall|m1: int, m2: int|
            conns.len() <= m1 < merged.len() && conns.len() <= m2 < merged.len() && m1 != m2
                ==> (#[trigger] merged[m1]).id@ != (#[trigger] merged[m2]).id@,
{
    let best = best_aps(aps);
    lemma_best_aps_strongest(aps);
    lemma_unlisted_unique(best, conns);
    let n = conns.len() as int;
    let added = unlisted_aps(best, conns);
    assert forall|m: int| conns.len() <= m < merged.len() implies exists|y: int|
        0 <= y < aps.len() && is_visible_entry(#[trigger] merged[m], aps[y]) && !is_listed_ssid(
            conns,
            aps[y].ssid@,
        ) by {
        let j = m - n;
        assert(is_visible_entry(merged[n + j], added[j]));
        lemma_unlisted_from_best(best, conns, j);
        let k = choose|k: int| 0 <= k < best.len() && best[k] == added[j];
        lemma_unlisted_not_listed(best, conns, j);
        let y = choose|y: int|
            0 <= y < aps.len() && aps[y] == #[trigger] best[k] && forall|q: int|
                0 <= q < y && (#[trigger] aps[q]).ssid@ == aps[y].ssid@ ==> aps[q].strength
                    < aps[y].strength;
        assert(aps[y] == added[j]);
    }
    assert forall|kk: Seq<char>|
        #[trigger] has_ssid(aps, kk) && !is_listed_ssid(conns, kk) implies exists|m: int|
            conns.len() <= m < merged.len() && (#[trigger] merged[m]).kind is Wifi
                && merged[m].kind->Wifi_0.ssid@ == kk by {
        let x = choose|x: int| 0 <= x < aps.len() && (#[trigger] aps[x]).ssid@ == kk;
        assert(has_ssid(best, aps[x].ssid@));
        let k = choose|k: int| 0 <= k < best.len() && (#[trigger] best[k]).ssid@ == aps[x].ssid@;
        lemma_unlisted_covers_best(best, conns, k);
        let j = choose|j: int| 0 <= j < added.len() && added[j] == best[k];
        assert(is_visible_entry(merged[n + j], added[j]));
    }
    assert forall|m1: int, m2: int|
        conns.len() <= m1 < merged.len() && conns.len() <= m2 < merged.len() && m1 != m2 implies (
        #[trigger] merged[m1]).id@ != (#[trigger] merged[m2]).id@ by {
        let j1 = m1 - n;
        let j2 = m2 - n;
        assert(is_visible_entry(merged[n + j1], added[j1]));
        assert(is_visible_entry(merged[n + j2], added[j2]));
        assert(added[j1].ssid@ != added[j2].ssid@);
    }
}


/// What a merge does to the list.  Each entry already listed keeps
/// everything but its Wi-Fi data; a Wi-Fi entry whose SSID the scan saw takes
/// the strength, frequency, BSSID and security of one scanned access point of
/// that SSID, and any other entry is unchanged.  After them come unsaved,
/// inactive entries, one per scanned SSID that no listed Wi-Fi entry has, and
/// nothing else.
pub proof fn lemma_merge_entries(conns: Seq<Connection>, aps: Seq<WifiInfo>, merged: Seq<Connection>)
    requires
        scan_merged(conns, aps, merged),
    ensures
        merged.len() >= conns.len(),
        forall|i: int|
            0 <= i < conns.len() ==> (#[trigger] merged[i]) == (Connection {
                kind: merged[i].kind,
                ..conns[i]
            }),
        forall|i: int|
            0 <= i < conns.len() && (!(conns[i].kind is Wifi) || !has_ssid(
                aps,
                conns[i].kind->Wifi_0.ssid@,
            )) ==> #[trigger] merged[i] == conns[i],
        forall|i: int|
            0 <= i < conns.len() && conns[i].kind is Wifi && has_ssid(
                aps,
                conns[i].kind->Wifi_0.ssid@,
            ) ==> exists|y: int|
                0 <= y < aps.len() && aps[y].ssid@ == conns[i].kind->Wifi_0.ssid@ && (
                #[trigger] merged[i]).kind == ConnectionKind::Wifi(
                    (WifiInfo {
                        strength: aps[y].strength,
                        frequency: aps[y].frequency,
                        bssid: aps[y].bssid,
                        security: aps[y].security,
                        ..conns[i].kind->Wifi_0
                    }),
                ),
        forall|m: int|
            conns.len() <= m < merged.len() ==> exists|y: int|
                0 <= y < aps.len() && is_visible_entry(#[trigger] merged[m], aps[y])
                    && !is_listed_ssid(conns, aps[y].ssid@),
        forall|k: Seq<char>|
            #[trigger] has_ssid(aps, k) && !is_listed_ssid(conns, k) ==> exists|m: int|
                conns.len() <= m < merged.len() && (#[trigger] merged[m]).kind is Wifi
                    && merged[m].kind->Wifi_0.ssid@ == k,
        forall|m1: int, m2: int|
            conns.len() <= m1 < merged.len() && conns.len() <= m2 < merged.len() && m1 != m2
                ==> (#[trigger] merged[m1]).id@ != (#[trigger] merged[m2]).id@,
{
    lemma_merge_listed(conns, aps, merged);
    lemma_merge_added(conns, aps, merged);
}

proof fn lemma_unlisted_not_listed(best: Seq<WifiInfo>, conns: Seq<Connection>, j: int)
    requires
        0 <= j < unlisted_aps(best, conns).len(),
    ensures
        !is_listed_ssid(conns, unlisted_aps(best, conns)[j].ssid@),
    decreases best.len(),
{
    let prev = unlisted_aps(best.drop_last(), conns);
    if j < prev.len() {
        lemma_unlisted_not_listed(best.drop_last(), conns, j);
    }
}

/// Merging the same scan a second time changes nothing: every access point
/// of the scan is then listed, and every entry already carries the data of
/// the strongest access point of its SSID.
pub proof fn lemma_merge_twice(
    conns: Seq<Connection>,
    aps: Seq<WifiInfo>,
    once: Seq<Connection>,
    twice: Seq<Connection>,
)
    requires
        scan_merged(conns, aps, once),
        scan_merged(once, aps, twice),
    ensures
        twice == once,
{
    let best = best_aps(aps);
    lemma_best_aps_unique(aps);
    let added = unlisted_aps(best, conns);
    let n = conns.len();
    assert forall|k: int| 0 <= k < best.len() implies is_listed_ssid(once, #[trigger] best[k].ssid@) by {
        if is_listed_ssid(conns, best[k].ssid@) {
            let i = choose|i: int|
                0 <= i < conns.len() && (#[trigger] conns[i]).kind is Wifi && conns[i].kind->Wifi_0.ssid@
                    == best[k].ssid@;
            assert(once[i] == refreshed(conns[i], best));
            assert(once[i].kind is Wifi && once[i].kind->Wifi_0.ssid@ == best[k].ssid@);
        } else {
            lemma_unlisted_covers_best(best, conns, k);
            let j = choose|j: int| 0 <= j < added.len() && added[j] == best[k];
            assert(is_visible_entry(once[n + j], added[j]));
            assert(once[n + j].kind is Wifi && once[n + j].kind->Wifi_0.ssid@ == best[k].ssid@);
        }
    }
    lemma_unlisted_empty(best, once);
    assert forall|i: int| 0 <= i < once.len() implies #[trigger] twice[i] == once[i] by {
        assert(twice[i] == refreshed(once[i], best));
        if i < n {
            lemma_refreshed_twice(conns[i], best);
        } else {
            let j = i - n;
            assert(is_visible_entry(once[n + j], added[j]));
            lemma_unlisted_from_best(best, conns, j);
            let k = choose|k: int| 0 <= k < best.len() && best[k] == added[j];
            let ap = added[j];
            assert(has_ssid(best, ap.ssid@));
            let m = ssid_index(best, ap.ssid@);
            if m != k {
                assert(best[m].ssid@ != best[k].ssid@);
            }
            assert(best[m] == ap);
        }
    }
    assert(twice =~= once);
}

/// Merge live scan data into saved Wi-Fi connections and append visible-only APs.
///
/// For each Wi-Fi entry whose SSID appears in `access_points`, the signal,
/// frequency, BSSID and security of the strongest access point with that
/// SSID replace the stored values.  Access points with no matching entry are
/// appended as unsaved, inactive entries, one per SSID.
pub fn merge_wifi_scan_data(connections: &mut Vec<Connection>, access_points: Vec<WifiInfo>)
    ensures
        scan_merged(old(connections)@, access_points@, final(connections)@),
{
    let best = strongest_per_ssid(&access_points);
    proof {
        lemma_best_aps_unique(access_points@);
    }
    let ghost orig = connections@;
    let ghost n = orig.len();
    let len0 = connections.len();
    assert(n <= usize::MAX);
    let mut rest: Vec<Connection> = Vec::new();
    std::mem::swap(&mut rest, connections);
    let mut out: Vec<Connection> = Vec::new();
    let mut saved_ssids: Vec<String> = Vec::new();
    let mut k: usize = 0;
    while rest.len() > 0
        invariant
            n == orig.len(),
            n <= usize::MAX,
            k <= n,
            rest@ == orig.skip(k as int),
            out@.len() == k,
            forall|i: int| 0 <= i < k ==> #[trigger] out@[i] == refreshed(orig[i], best@),
            ssids_unique(best@),
            forall|s: Seq<char>|
                (exists|i: int| 0 <= i < saved_ssids@.len() && (#[trigger] saved_ssids@[i])@ == s)
                    <==> is_listed_ssid(orig.take(k as int), s),
        decreases rest@.len(),
    {
        assert(k < n);
        let c = rest.remove(0);
        assert(c == orig[k as int]);
        let ghost cg = c;
        let ghost old_saved = saved_ssids@;
        let Connection { id, uuid, kind, status, ip4, ip6, device, saved } = c;
        let new_kind = match kind {
            ConnectionKind::Wifi(w) => {
                let ghost wg = w;
                saved_ssids.push(w.ssid.clone());
                match find_ssid(&best, &w.ssid) {
                    Some(j) => {
                        proof {
                            let kk = w.ssid@;
                            let ci = ssid_index(best@, kk);
                            if ci != j {
                                assert(best@[ci].ssid@ != best@[j as int].ssid@);
                            }
                        }
                        let b = &best[j];
                        ConnectionKind::Wifi(
                            WifiInfo {
                                ssid: w.ssid,
                                strength: b.strength,
                                security: b.security,
                                frequency: b.frequency,
                                bssid: clone_opt_string(&b.bssid),
                                mode: w.mode,
                            },
                        )
                    },
                    None => ConnectionKind::Wifi(w),
                }
            },
            other => other,
        };
        let updated = Connection { id, uuid, kind: new_kind, status, ip4, ip6, device, saved };
        assert(updated == refreshed(cg, best@));
        out.push(updated);
        proof {
            let t1 = orig.take(k + 1);
            let t0 = orig.take(k as int);
            assert(t1 =~= t0.push(orig[k as int]));
            assert(saved_ssids@ == (if cg.kind is Wifi {
                old_saved.push(cg.kind->Wifi_0.ssid)
            } else {
                old_saved
            }));
            assert forall|s: Seq<char>|
                (exists|i: int| 0 <= i < saved_ssids@.len() && (#[trigger] saved_ssids@[i])@ == s)
                    <==> is_listed_ssid(t1, s) by {
                if is_listed_ssid(t1, s) {
                    let i = choose|i: int|
                        0 <= i < t1.len() && (#[trigger] t1[i]).kind is Wifi
                            && t1[i].kind->Wifi_0.ssid@ == s;
                    if i < k {
                        assert(t0[i] == t1[i]);
                        assert(is_listed_ssid(t0, s));
                        let m = choose|m: int|
                            0 <= m < old_saved.len() && (#[trigger] old_saved[m])@ == s;
                        assert(saved_ssids@[m] == old_saved[m]);
                    } else {
                        assert(saved_ssids@[saved_ssids@.len() - 1]@ == s);
                    }
                }
                if exists|i: int| 0 <= i < saved_ssids@.len() && (#[trigger] saved_ssids@[i])@ == s {
                    let i = choose|i: int|
                        0 <= i < saved_ssids@.len() && (#[trigger] saved_ssids@[i])@ == s;
                    if i < old_saved.len() {
                        assert(old_saved[i] == saved_ssids@[i]);
                        assert(is_listed_ssid(t0, s));
                        let m = choose|m: int|
                            0 <= m < t0.len() && (#[trigger] t0[m]).kind is Wifi
                                && t0[m].kind->Wifi_0.ssid@ == s;
                        assert(t1[m] == t0[m]);
                    } else {
                        assert(t1[k as int] == cg);
                    }
                }
            }
        }
        k = k + 1;
    }
    assert(orig.take(n as int) =~= orig);
    let ghost base_len = out@.len();
    let mut j: usize = 0;
    while j < best.len()
        invariant
            n == orig.len(),
            base_len == n,
            j <= best@.len(),
            out@.len() == n + unlisted_aps(best@.take(j as int), orig).len(),
            forall|i: int| 0 <= i < n ==> #[trigger] out@[i] == refreshed(orig[i], best@),
            forall|m: int|
                0 <= m < unlisted_aps(best@.take(j as int), orig).len() ==> is_visible_entry(
                    #[trigger] out@[n + m],
                    unlisted_aps(best@.take(j as int), orig)[m],
                ),
            forall|s: Seq<char>|
                (exists|i: int| 0 <= i < saved_ssids@.len() && (#[trigger] saved_ssids@[i])@ == s)
                    <==> is_listed_ssid(orig, s),
        decreases best@.len() - j,
    {
        let ghost prev = unlisted_aps(best@.take(j as int), orig);
        assert(best@.take(j + 1).drop_last() =~= best@.take(j as int));
        assert(best@.take(j + 1).last() == best@[j as int]);
        let ap = &best[j];
        if !contains_string(&saved_ssids, &ap.ssid) {
            let entry = Connection {
                id: ap.ssid.clone(),
                uuid: concat2("visible:", ap.ssid.as_str()),
                kind: ConnectionKind::Wifi(ap.clone()),
                status: ConnectionStatus::Inactive,
                ip4: None,
                ip6: None,
                device: None,
                saved: false,
            };
            out.push(entry);
        }
        j = j + 1;
    }
    assert(best@.take(best@.len() as int) =~= best@);
    *connections = out;
}

/// Copies live modem readings into the modem entries whose device is the
/// modem's interface.
#[verifier::opaque]
pub open spec fn modem_refreshed(c: Connection, live: Seq<ModemLiveData>) -> Connection {
    match (c.kind, c.device) {
        (ConnectionKind::Modem(_), Some(d)) => if has_interface(live, d@) {
            let l = live[first_interface(live, d@)];
            Connection {
                kind: ConnectionKind::Modem(
                    ModemInfo {
                        apn: l.apn,
                        operator_name: l.operator_name,
                        operator_code: l.operator_code,
                        signal_quality: l.signal_quality,
                        access_technology: l.access_technology,
                        sim_locked: l.sim_locked,
                    },
                ),
                ..c
            }
        } else {
            c
        },
        _ => c,
    }
}

pub open spec fn has_interface(live: Seq<ModemLiveData>, d: Seq<char>) -> bool {
    exists|i: int| 0 <= i < live.len() && (#[trigger] live[i]).interface@ == d
}

/// Position of the first reading of interface `d`.
pub open spec fn first_interface(live: Seq<ModemLiveData>, d: Seq<char>) -> int {
    choose|i: int|
        0 <= i < live.len() && (#[trigger] live[i]).interface@ == d && forall|j: int|
            0 <= j < i ==> (#[trigger] live[j]).interface@ != d
}

fn find_interface(live: &[ModemLiveData], d: &String) -> (r: Option<usize>)
    ensures
        match r {
            Some(i) => i < live@.len() && live@[i as int].interface@ == d@ && i == first_interface(
                live@,
                d@,
            ),
            None => !has_interface(live@, d@),
        },
{
    let mut i: usize = 0;
    while i < live.len()
        invariant
            i <= live@.len(),
            forall|j: int| 0 <= j < i ==> (#[trigger] live@[j]).interface@ != d@,
        decreases live@.len() - i,
    {
        if str_eq(live[i].interface.as_str(), d.as_str()) {
            proof {
                let f = first_interface(live@, d@);
                assert(0 <= i < live@.len() && live@[i as int].interface@ == d@ && forall|j: int|
                    0 <= j < i ==> (#[trigger] live@[j]).interface@ != d@);
                if f != i {
                    if f < i {
                    } else {
                        assert(live@[i as int].interface@ != d@);
                    }
                }
            }
            return Some(i);
        }
        i = i + 1;
    }
    None
}

fn refresh_modem(c: Connection, live: &[ModemLiveData]) -> (r: Connection)
    ensures
        r == modem_refreshed(c, live@),
{
    let ghost cg = c;
    let Connection { id, uuid, kind, status, ip4, ip6, device, saved } = c;
    let new_kind = match kind {
        ConnectionKind::Modem(m) => {
        let found = match &device {
            Some(d) => find_interface(live, d),
            None => None,
        };
        match found {
            Some(i) => {
            let l = &live[i];
            ConnectionKind::Modem(
                ModemInfo {
                apn: clone_opt_string(&l.apn),
                operator_name: clone_opt_string(&l.operator_name),
                operator_code: clone_opt_string(&l.operator_code),
                signal_quality: l.signal_quality,
                access_technology: l.access_technology,
                sim_locked: l.sim_locked,
                },
            )
            },
            None => ConnectionKind::Modem(m),
        }
        },
        other => other,
    };
    let updated = Connection { id, uuid, kind: new_kind, status, ip4, ip6, device, saved };
    proof {
        reveal(modem_refreshed);
        if cg.kind is Modem && cg.device is Some {
            let d = cg.device->0@;
            if has_interface(live@, d) {
                let f = first_interface(live@, d);
                assert(updated == modem_refreshed(cg, live@));
            } else {
                assert(updated == cg);
            }
        } else if cg.kind is Modem {
            assert(updated.kind == cg.kind);
            assert(updated.id == cg.id);
            assert(updated.device == cg.device);
            assert(updated == cg);
        } else {
            assert(updated.kind == cg.kind);
            assert(updated == cg);
        }
    }
    updated
}

/// Merge live modem readings into the mobile broadband entries of the list.
pub fn merge_modem_live_data(connections: &mut Vec<Connection>, live: &[ModemLiveData])
    ensures
        final(connections)@.len() == old(connections)@.len(),
        forall|i: int|
            0 <= i < old(connections)@.len() ==> #[trigger] final(connections)@[i]
                == modem_refreshed(old(connections)@[i], live@),
{
    let ghost orig = connections@;
    let ghost n = orig.len();
    let len0 = connections.len();
    assert(n <= usize::MAX);
    let mut rest: Vec<Connection> = Vec::new();
    std::mem::swap(&mut rest, connections);
    let mut out: Vec<Connection> = Vec::new();
    let mut k: usize = 0;
    while rest.len() > 0
        invariant
            n == orig.len(),
            n <= usize::MAX,
            k <= n,
            rest@ == orig.skip(k as int),
            out@.len() == k,
            forall|i: int| 0 <= i < k ==> #[trigger] out@[i] == modem_refreshed(orig[i], live@),
        decreases rest@.len(),
    {
        assert(k < n);
        let c = rest.remove(0);
        assert(c == orig[k as int]);
        let updated = refresh_modem(c, live);
        out.push(updated);
        k = k + 1;
    }
    *connections = out;
}

} // verus!
