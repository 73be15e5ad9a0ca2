//! String-keyed dictionaries holding NetworkManager connection settings.
//!
//! A connection's settings are a dictionary from section name (such as
//! `ipv4`) to a dictionary from key to value.  The values are the handful of
//! shapes that the library reads or writes; any other value is carried as
//! `Other`, which the library never creates and leaves in place.
//!
//! The dictionary is a vector of entries with unique keys: std's `HashMap`
//! gives the verifier no model of `String` keys (vstd's key model covers
//! integer and boolean keys), and vstd's `StringHashMap` offers no way to walk
//! its entries, which is needed when the settings are handed over.

use vstd::prelude::*;

verus! {

/// Values that can be duplicated with their view preserved.
pub trait Duplicate: View + Sized {
    fn duplicate(&self) -> (r: Self)
        ensures
            r@ == self@;
}

/// A dictionary from strings to values, with no key occurring twice.
#[derive(Debug)]
pub struct StrMap<V: View> {
    entries: Vec<(String, V)>,
}

pub open spec fn keys_unique<V>(e: Seq<(String, V)>) -> bool {
    forall|i: int, j: int|
        0 <= i < e.len() && 0 <= j < e.len() && i != j ==> (#[trigger] e[i]).0@ != (#[trigger] e[j]).0@
}

pub open spec fn has_key_at<V>(e: Seq<(String, V)>, k: Seq<char>, i: int) -> bool {
    0 <= i < e.len() && e[i].0@ == k
}

pub open spec fn map_of<V: View>(e: Seq<(String, V)>) -> Map<Seq<char>, V::V> {
    Map::new(
        |k: Seq<char>| exists|i: int| has_key_at(e, k, i),
        |k: Seq<char>| e[choose|i: int| has_key_at(e, k, i)].1@,
    )
}

pub proof fn lemma_map_of_at<V: View>(e: Seq<(String, V)>, i: int)
    requires
        keys_unique(e),
        0 <= i < e.len(),
    ensures
        map_of(e).contains_key(e[i].0@),
        map_of(e)[e[i].0@] == e[i].1@,
{
    let k = e[i].0@;
    assert(has_key_at(e, k, i));
    let j = choose|j: int| has_key_at(e, k, j);
    assert(has_key_at(e, k, j));
    if j != i {
        assert(e[i].0@ != e[j].0@);
    }
}

pub proof fn lemma_map_of_absent<V: View>(e: Seq<(String, V)>, k: Seq<char>)
    requires
        forall|i: int| 0 <= i < e.len() ==> (#[trigger] e[i]).0@ != k,
    ensures
        !map_of(e).contains_key(k),
{
}

/// Two entry sequences with unique keys have the same dictionary when every
/// key of each occurs in the other with the same value.
pub proof fn lemma_map_of_ext<V: View>(e: Seq<(String, V)>, m: Map<Seq<char>, V::V>)
    requires
        keys_unique(e),
        forall|i: int| 0 <= i < e.len() ==> m.contains_key((#[trigger] e[i]).0@) && m[e[i].0@]
            == e[i].1@,
        forall|k: Seq<char>| m.contains_key(k) ==> exists|i: int| has_key_at(e, k, i),
    ensures
        map_of(e) == m,
{
    assert forall|k: Seq<char>| #[trigger] map_of(e).contains_key(k) <==> m.contains_key(k) by {
        if map_of(e).contains_key(k) {
            let i = choose|i: int| has_key_at(e, k, i);
            assert(m.contains_key(e[i].0@));
        }
    }
    assert forall|k: Seq<char>| #[trigger] map_of(e).contains_key(k) implies map_of(e)[k]
        == m[k] by {
        let i = choose|i: int| has_key_at(e, k, i);
        lemma_map_of_at(e, i);
    }
    assert(map_of(e) =~= m);
}

impl<V: View> View for StrMap<V> {
    type V = Map<Seq<char>, V::V>;

    closed spec fn view(&self) -> Map<Seq<char>, V::V> {
        map_of(self.entries@)
    }
}

impl<V: View> StrMap<V> {
    #[verifier::type_invariant]
    closed spec fn inv(self) -> bool {
        keys_unique(self.entries@)
    }

    /// The empty dictionary.
    pub fn new() -> (r: Self)
        ensures
            r@ == Map::<Seq<char>, V::V>::empty(),
    {
        let r = StrMap { entries: Vec::new() };
        assert(r@ =~= Map::<Seq<char>, V::V>::empty());
        r
    }

    /// Index of the entry holding `key`, if any.
    fn find(&self, key: &str) -> (r: Option<usize>)
        ensures
            match r {
                Some(i) => i < self.entries@.len() && self.entries@[i as int].0@ == key@,
                None => forall|i: int|
                    0 <= i < self.entries@.len() ==> (#[trigger] self.entries@[i]).0@ != key@,
            },
    {
        let mut i: usize = 0;
        while i < self.entries.len()
            invariant
                i <= self.entries@.len(),
                forall|j: int| 0 <= j < i ==> (#[trigger] self.entries@[j]).0@ != key@,
            decreases self.entries@.len() - i,
        {
            if crate::text::str_eq(self.entries[i].0.as_str(), key) {
                return Some(i);
            }
            i = i + 1;
        }
        None
    }

    /// Whether `key` is present.
    pub fn contains_key(&self, key: &str) -> (r: bool)
        ensures
            r == self@.contains_key(key@),
    {
        proof {
            use_type_invariant(self);
        }
        match self.find(key) {
            Some(i) => {
                proof {
                    lemma_map_of_at(self.entries@, i as int);
                }
                true
            },
            None => false,
        }
    }

    /// The value of `key`, if present.
    pub fn get(&self, key: &str) -> (r: Option<&V>)
        ensures
            r is Some <==> self@.contains_key(key@),
            r matches Some(v) ==> v@ == self@[key@],
    {
        proof {
            use_type_invariant(self);
        }
        match self.find(key) {
            Some(i) => {
                proof {
                    lemma_map_of_at(self.entries@, i as int);
                }
                Some(&self.entries[i].1)
            },
            None => None,
        }
    }

    /// Sets `key` to `value`, replacing any previous value.
    pub fn insert(&mut self, key: String, value: V)
        ensures
            final(self)@ == old(self)@.insert(key@, value@),
    {
        proof {
            use_type_invariant(&*self);
        }
        let ghost old_map = self@;
        let found = self.find(key.as_str());
        let mut e: Vec<(String, V)> = Vec::new();
        std::mem::swap(&mut e, &mut self.entries);
        let ghost old_e = e@;
        let ghost k = key@;
        let ghost v = value@;
        assert(map_of(old_e) == old_map);
        match found {
            Some(i) => {
                e.set(i, (key, value));
                proof {
                    let ne = e@;
                    assert(keys_unique(ne)) by {
                        assert forall|a: int, b: int|
                            0 <= a < ne.len() && 0 <= b < ne.len() && a != b implies (
                            #[trigger] ne[a]).0@ != (#[trigger] ne[b]).0@ by {
                            if a != i && b != i {
                                assert(ne[a] == old_e[a] && ne[b] == old_e[b]);
                            } else if a == i {
                                assert(ne[b] == old_e[b]);
                                assert(old_e[i as int].0@ == k);
                            } else {
                                assert(ne[a] == old_e[a]);
                                assert(old_e[i as int].0@ == k);
                            }
                        }
                    }
                    let m = old_map.insert(k, v);
                    assert forall|j: int| 0 <= j < ne.len() implies m.contains_key(
                        (#[trigger] ne[j]).0@,
                    ) && m[ne[j].0@] == ne[j].1@ by {
                        if j != i {
                            assert(ne[j] == old_e[j]);
                            lemma_map_of_at(old_e, j);
                            assert(old_e[i as int].0@ == k);
                        }
                    }
                    assert forall|kk: Seq<char>| m.contains_key(kk) implies exists|j: int|
                        has_key_at(ne, kk, j) by {
                        if kk == k {
                            assert(has_key_at(ne, kk, i as int));
                        } else {
                            let j = choose|j: int| has_key_at(old_e, kk, j);
                            assert(ne[j] == old_e[j]);
                            assert(has_key_at(ne, kk, j));
                        }
                    }
                    lemma_map_of_ext(ne, m);
                }
            },
            None => {
                e.push((key, value));
                proof {
                    let ne = e@;
                    let n = old_e.len() as int;
                    assert(keys_unique(ne)) by {
                        assert forall|a: int, b: int|
                            0 <= a < ne.len() && 0 <= b < ne.len() && a != b implies (
                            #[trigger] ne[a]).0@ != (#[trigger] ne[b]).0@ by {
                            if a != n && b != n {
                                assert(ne[a] == old_e[a] && ne[b] == old_e[b]);
                            } else if a == n {
                                assert(ne[b] == old_e[b]);
                            } else {
                                assert(ne[a] == old_e[a]);
                            }
                        }
                    }
                    let m = old_map.insert(k, v);
                    assert forall|j: int| 0 <= j < ne.len() implies m.contains_key(
                        (#[trigger] ne[j]).0@,
                    ) && m[ne[j].0@] == ne[j].1@ by {
                        if j != n {
                            assert(ne[j] == old_e[j]);
                            lemma_map_of_at(old_e, j);
                        }
                    }
                    assert forall|kk: Seq<char>| m.contains_key(kk) implies exists|j: int|
                        has_key_at(ne, kk, j) by {
                        if kk == k {
                            assert(has_key_at(ne, kk, n));
                        } else {
                            let j = choose|j: int| has_key_at(old_e, kk, j);
                            assert(ne[j] == old_e[j]);
                            assert(has_key_at(ne, kk, j));
                        }
                    }
                    lemma_map_of_ext(ne, m);
                }
            },
        }
        self.entries = e;
    }

    /// Removes `key` and returns its value, if it was present.
    pub fn remove(&mut self, key: &str) -> (r: Option<V>)
        ensures
            final(self)@ == old(self)@.remove(key@),
            r is Some <==> old(self)@.contains_key(key@),
            r matches Some(v) ==> v@ == old(self)@[key@],
    {
        proof {
            use_type_invariant(&*self);
        }
        let ghost old_map = self@;
        let found = self.find(key);
        match found {
            None => {
                proof {
                    lemma_map_of_absent(self.entries@, key@);
                    assert(old_map.remove(key@) =~= old_map);
                }
                None
            },
            Some(i) => {
                let mut e: Vec<(String, V)> = Vec::new();
                std::mem::swap(&mut e, &mut self.entries);
                let ghost old_e = e@;
                let ghost k = key@;
                proof {
                    lemma_map_of_at(old_e, i as int);
                }
                let (_, v) = e.remove(i);
                proof {
                    let ne = e@;
                    assert(ne =~= old_e.remove(i as int));
                    assert forall|j: int| 0 <= j < ne.len() implies #[trigger] ne[j] == (if j < i {
                        old_e[j]
                    } else {
                        old_e[j + 1]
                    }) by {}
                    assert(keys_unique(ne)) by {
                        assert forall|a: int, b: int|
                            0 <= a < ne.len() && 0 <= b < ne.len() && a != b implies (
                            #[trigger] ne[a]).0@ != (#[trigger] ne[b]).0@ by {
                            let oa = if a < i { a } else { a + 1 };
                            let ob = if b < i { b } else { b + 1 };
                            assert(ne[a] == old_e[oa]);
                            assert(ne[b] == old_e[ob]);
                        }
                    }
                    let m = old_map.remove(k);
                    assert forall|j: int| 0 <= j < ne.len() implies m.contains_key(
                        (#[trigger] ne[j]).0@,
                    ) && m[ne[j].0@] == ne[j].1@ by {
                        let oj = if j < i { j } else { j + 1 };
                        assert(ne[j] == old_e[oj]);
                        lemma_map_of_at(old_e, oj);
                        assert(old_e[oj].0@ != old_e[i as int].0@);
                    }
                    assert forall|kk: Seq<char>| m.contains_key(kk) implies exists|j: int|
                        has_key_at(ne, kk, j) by {
                        let oj = choose|j: int| has_key_at(old_e, kk, j);
                        assert(oj != i);
                        let j = if oj < i { oj } else { oj - 1 };
                        assert(ne[j] == old_e[oj]);
                        assert(has_key_at(ne, kk, j));
                    }
                    lemma_map_of_ext(ne, m);
                }
                self.entries = e;
                Some(v)
            },
        }
    }

    /// Number of keys.
    pub fn len(&self) -> (r: usize)
        ensures
            r == self@.len(),
    {
        proof {
            use_type_invariant(self);
            lemma_len(self.entries@);
        }
        self.entries.len()
    }

    /// The key and value stored at position `i` of the dictionary's entry order.
    pub fn entry_at(&self, i: usize) -> (r: (&String, &V))
        requires
            i < self@.len(),
        ensures
            self@.contains_key(r.0@),
            self@[r.0@] == r.1@,
    {
        proof {
            use_type_invariant(self);
            lemma_len(self.entries@);
            lemma_map_of_at(self.entries@, i as int);
        }
        let e = &self.entries[i];
        (&e.0, &e.1)
    }
}

/// The dictionary has as many keys as entries.
proof fn lemma_len<V: View>(e: Seq<(String, V)>)
    requires
        keys_unique(e),
    ensures
        map_of(e).dom().finite(),
        map_of(e).len() == e.len(),
    decreases e.len(),
{
    if e.len() == 0 {
        assert(map_of(e).dom() =~= Set::empty());
    } else {
        let p = e.drop_last();
        assert(keys_unique(p)) by {
            assert forall|a: int, b: int|
                0 <= a < p.len() && 0 <= b < p.len() && a != b implies (#[trigger] p[a]).0@ != (
                #[trigger] p[b]).0@ by {
                assert(p[a] == e[a] && p[b] == e[b]);
            }
        }
        lemma_len(p);
        let k = e.last().0@;
        assert(map_of(e).dom() =~= map_of(p).dom().insert(k)) by {
            assert forall|kk: Seq<char>| #[trigger] map_of(e).dom().contains(kk) implies map_of(
                p,
            ).dom().contains(kk) || kk == k by {
                let i = choose|i: int| has_key_at(e, kk, i);
                if i < p.len() {
                    assert(has_key_at(p, kk, i));
                }
            }
            assert forall|kk: Seq<char>| #[trigger] map_of(p).dom().contains(kk) implies map_of(
                e,
            ).dom().contains(kk) by {
                let i = choose|i: int| has_key_at(p, kk, i);
                assert(has_key_at(e, kk, i));
            }
            assert(has_key_at(e, k, e.len() - 1));
        }
        assert(!map_of(p).dom().contains(k)) by {
            if map_of(p).dom().contains(k) {
                let i = choose|i: int| has_key_at(p, k, i);
                assert(e[i].0@ == e[e.len() - 1].0@);
            }
        }
    }
}

impl<V: Duplicate> Duplicate for StrMap<V> {
    fn duplicate(&self) -> (r: Self) {
        proof {
            use_type_invariant(self);
        }
        let mut e: Vec<(String, V)> = Vec::new();
        let mut i: usize = 0;
        while i < self.entries.len()
            invariant
                keys_unique(self.entries@),
                i <= self.entries@.len(),
                e@.len() == i,
                forall|j: int|
                    0 <= j < i ==> (#[trigger] e@[j]).0@ == self.entries@[j].0@ && e@[j].1@
                        == self.entries@[j].1@,
            decreases self.entries@.len() - i,
        {
            let k = self.entries[i].0.clone();
            let v = self.entries[i].1.duplicate();
            e.push((k, v));
            i = i + 1;
        }
        proof {
            let se = self.entries@;
            assert(keys_unique(e@)) by {
                assert forall|a: int, b: int|
                    0 <= a < e@.len() && 0 <= b < e@.len() && a != b implies (
                    #[trigger] e@[a]).0@ != (#[trigger] e@[b]).0@ by {
                    assert(se[a].0@ != se[b].0@);
                }
            }
            assert forall|j: int| 0 <= j < e@.len() implies map_of(se).contains_key(
                (#[trigger] e@[j]).0@,
            ) && map_of(se)[e@[j].0@] == e@[j].1@ by {
                lemma_map_of_at(se, j);
            }
            assert forall|kk: Seq<char>| map_of(se).contains_key(kk) implies exists|j: int|
                has_key_at(e@, kk, j) by {
                let j = choose|j: int| has_key_at(se, kk, j);
                assert(has_key_at(e@, kk, j));
            }
            lemma_map_of_ext(e@, map_of(se));
        }
        StrMap { entries: e }
    }
}

// ── Values ───────────────────────────────────────────────────────────────────

/// A field of an entry of `address-data` or `dns-data`.
#[derive(Debug)]
pub enum FieldValue {
    Str(String),
    U32(u32),
    Other,
}

pub enum FieldValueView {
    Str(Seq<char>),
    U32(u32),
    Other,
}

impl View for FieldValue {
    type V = FieldValueView;

    open spec fn view(&self) -> FieldValueView {
        match self {
            FieldValue::Str(s) => FieldValueView::Str(s@),
            FieldValue::U32(n) => FieldValueView::U32(*n),
            FieldValue::Other => FieldValueView::Other,
        }
    }
}

impl Duplicate for FieldValue {
    fn duplicate(&self) -> (r: Self) {
        match self {
            FieldValue::Str(s) => FieldValue::Str(s.clone()),
            FieldValue::U32(n) => FieldValue::U32(*n),
            FieldValue::Other => FieldValue::Other,
        }
    }
}

/// One entry of `address-data` or `dns-data`: a dictionary of fields.
pub type Record = StrMap<FieldValue>;

/// A settings value of one of the shapes the library reads or writes.
#[derive(Debug)]
pub enum SettingValue {
    /// D-Bus `s`.
    Str(String),
    /// D-Bus `ay`.
    Bytes(Vec<u8>),
    /// D-Bus `b`.
    Bool(bool),
    /// D-Bus `u`.
    U32(u32),
    /// D-Bus `as`.
    StrList(Vec<String>),
    /// D-Bus `au`.
    U32List(Vec<u32>),
    /// Legacy address list, read as (address, prefix) pairs.
    AddressPairs(Vec<(String, u32)>),
    /// D-Bus `aa{sv}`.
    Records(Vec<Record>),
    /// Any other value; kept as it is.
    Other,
}

pub enum SettingValueView {
    Str(Seq<char>),
    Bytes(Seq<u8>),
    Bool(bool),
    U32(u32),
    StrList(Seq<Seq<char>>),
    U32List(Seq<u32>),
    AddressPairs(Seq<(Seq<char>, u32)>),
    Records(Seq<Map<Seq<char>, FieldValueView>>),
    Other,
}

impl View for SettingValue {
    type V = SettingValueView;

    open spec fn view(&self) -> SettingValueView {
        match self {
            SettingValue::Str(s) => SettingValueView::Str(s@),
            SettingValue::Bytes(b) => SettingValueView::Bytes(b@),
            SettingValue::Bool(b) => SettingValueView::Bool(*b),
            SettingValue::U32(n) => SettingValueView::U32(*n),
            SettingValue::StrList(l) => SettingValueView::StrList(l@.map_values(|s: String| s@)),
            SettingValue::U32List(l) => SettingValueView::U32List(l@),
            SettingValue::AddressPairs(l) => SettingValueView::AddressPairs(
                l@.map_values(|p: (String, u32)| (p.0@, p.1)),
            ),
            SettingValue::Records(l) => SettingValueView::Records(l@.map_values(|r: Record| r@)),
            SettingValue::Other => SettingValueView::Other,
        }
    }
}

impl Duplicate for SettingValue {
    fn duplicate(&self) -> (r: Self) {
        match self {
            SettingValue::Str(s) => SettingValue::Str(s.clone()),
            SettingValue::Bytes(b) => SettingValue::Bytes(b.clone()),
            SettingValue::Bool(b) => SettingValue::Bool(*b),
            SettingValue::U32(n) => SettingValue::U32(*n),
            SettingValue::StrList(l) => {
                let mut out: Vec<String> = Vec::new();
                let mut i: usize = 0;
                while i < l.len()
                    invariant
                        i <= l@.len(),
                        out@.len() == i,
                        forall|j: int| 0 <= j < i ==> (#[trigger] out@[j])@ == l@[j]@,
                    decreases l@.len() - i,
                {
                    out.push(l[i].clone());
                    i = i + 1;
                }
                assert(out@.map_values(|s: String| s@) =~= l@.map_values(|s: String| s@));
                SettingValue::StrList(out)
            },
            SettingValue::U32List(l) => SettingValue::U32List(l.clone()),
            SettingValue::AddressPairs(l) => {
                let mut out: Vec<(String, u32)> = Vec::new();
                let mut i: usize = 0;
                while i < l.len()
                    invariant
                        i <= l@.len(),
                        out@.len() == i,
                        forall|j: int|
                            0 <= j < i ==> (#[trigger] out@[j]).0@ == l@[j].0@ && out@[j].1
                                == l@[j].1,
                    decreases l@.len() - i,
                {
                    out.push((l[i].0.clone(), l[i].1));
                    i = i + 1;
                }
                assert(out@.map_values(|p: (String, u32)| (p.0@, p.1)) =~= l@.map_values(
                    |p: (String, u32)| (p.0@, p.1),
                ));
                SettingValue::AddressPairs(out)
            },
            SettingValue::Records(l) => {
                let mut out: Vec<Record> = Vec::new();
                let mut i: usize = 0;
                while i < l.len()
                    invariant
                        i <= l@.len(),
                        out@.len() == i,
                        forall|j: int| 0 <= j < i ==> (#[trigger] out@[j])@ == l@[j]@,
                    decreases l@.len() - i,
                {
                    out.push(l[i].duplicate());
                    i = i + 1;
                }
                assert(out@.map_values(|r: Record| r@) =~= l@.map_values(|r: Record| r@));
                SettingValue::Records(out)
            },
            SettingValue::Other => SettingValue::Other,
        }
    }
}

/// One section of connection settings: key to value.
pub type Section = StrMap<SettingValue>;

/// All the settings of a connection: section name to section.
pub type NmSettings = StrMap<Section>;

/// Mathematical value of a section.
pub type SectionView = Map<Seq<char>, SettingValueView>;

/// Mathematical value of a connection's settings.
pub type SettingsView = Map<Seq<char>, SectionView>;

} // verus!
