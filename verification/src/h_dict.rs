//! The Haystack dict value: named values.
use vstd::prelude::*;
use std::collections::HashMap;
use crate::text::{str_eq, push_char, push_str};
use crate::h_val::{HBox, HVal, HType, zinc_of, json_of, share, dict_zinc, dict_json, has_non_null};

verus! {

/// Named values, in the order they were first set; no two entries have the
/// same name.
#[derive(Clone, Debug, PartialEq)]
pub struct HDict<T> {
    pub entries: Vec<(String, HBox<T>)>,
}

/// The dict type under its short name.
pub type Dict<T> = HDict<T>;

/// Whether no two entries of `s` have the same name.
pub open spec fn unique_keys<T>(s: Seq<(String, HBox<T>)>) -> bool {
    forall|i: int, j: int| 0 <= i < j < s.len() ==> s[i].0@ != s[j].0@
}

/// Whether `k` names an entry of `s`.
pub open spec fn has_key<T>(s: Seq<(String, HBox<T>)>, k: Seq<char>) -> bool {
    exists|i: int| 0 <= i < s.len() && s[i].0@ == k
}

/// The position of the entry named `k` in `s` (meaningful where `has_key`).
pub open spec fn key_index<T>(s: Seq<(String, HBox<T>)>, k: Seq<char>) -> int {
    choose|i: int| 0 <= i < s.len() && s[i].0@ == k
}

/// The value of the entry named `k`, if there is one.
pub open spec fn lookup<T>(s: Seq<(String, HBox<T>)>, k: Seq<char>) -> Option<HBox<T>> {
    if has_key(s, k) { Some(s[key_index(s, k)].1) } else { None }
}

/// The entries after setting `k` to `v`: the entry named `k` takes the new
/// value in place, or a new entry is added at the end.
pub open spec fn set_entry<T>(s: Seq<(String, HBox<T>)>, k: String, v: HBox<T>) -> Seq<(String, HBox<T>)> {
    if has_key(s, k@) {
        s.update(key_index(s, k@), (k, v))
    } else {
        s.push((k, v))
    }
}

/// The entries after setting, in order, every entry of `t`.
pub open spec fn set_all<T>(s: Seq<(String, HBox<T>)>, t: Seq<(String, HBox<T>)>) -> Seq<(String, HBox<T>)>
    decreases t.len(),
{
    if t.len() == 0 {
        s
    } else {
        set_entry(set_all(s, t.drop_last()), t.last().0, t.last().1)
    }
}

/// Whether the entries `s` are those of the map `m`, each once.
pub open spec fn enumerates<T>(s: Seq<(String, HBox<T>)>, m: Map<String, HBox<T>>) -> bool {
    s.len() == m.len() && forall|i: int| 0 <= i < s.len() ==> #[trigger] m.contains_key(s[i].0) && m[s[i].0] == s[i].1
}

/// Whether the entries `r` are the entries `s` after setting every entry of
/// the map `m`, in some order in which the map hands them out.
pub open spec fn extended_by<T>(s: Seq<(String, HBox<T>)>, r: Seq<(String, HBox<T>)>, m: Map<String, HBox<T>>) -> bool {
    exists|t: Seq<(String, HBox<T>)>| unique_keys(t) && enumerates(t, m) && r == #[trigger] set_all(s, t)
}

/// Setting an entry keeps the names unique, and afterwards the name is present
/// with the new value while every other name keeps its value.
pub proof fn lemma_set_entry<T>(s: Seq<(String, HBox<T>)>, k: String, v: HBox<T>)
    requires
        unique_keys(s),
    ensures
        unique_keys(set_entry(s, k, v)),
        lookup(set_entry(s, k, v), k@) == Some(v),
        forall|k2: Seq<char>| k2 != k@ ==> lookup(set_entry(s, k, v), k2) == lookup(s, k2),
        forall|k2: Seq<char>| has_key(set_entry(s, k, v), k2) == (has_key(s, k2) || k2 == k@),
{
    let r = set_entry(s, k, v);
    if has_key(s, k@) {
        let i = key_index(s, k@);
        assert(r[i].0@ == k@);
        assert forall|k2: Seq<char>| has_key(r, k2) == (has_key(s, k2) || k2 == k@) by {
            if has_key(s, k2) {
                let j = key_index(s, k2);
                assert(r[j].0@ == k2);
            }
            if has_key(r, k2) {
                let j = choose|j: int| 0 <= j < r.len() && r[j].0@ == k2;
                assert(s[j].0@ == k2);
            }
        }
        assert(lookup(r, k@) == Some(v)) by {
            let j = key_index(r, k@);
            assert(r[j].0@ == k@);
            if j != i {
                assert(s[j].0@ == k@);
            }
        }
        assert forall|k2: Seq<char>| k2 != k@ implies lookup(r, k2) == lookup(s, k2) by {
            if has_key(s, k2) {
                let j = key_index(s, k2);
                assert(r[j].0@ == k2);
                let j2 = key_index(r, k2);
                assert(s[j2].0@ == k2);
            }
        }
    } else {
        assert(r[s.len() as int].0@ == k@);
        assert forall|k2: Seq<char>| has_key(r, k2) == (has_key(s, k2) || k2 == k@) by {
            if has_key(s, k2) {
                let j = key_index(s, k2);
                assert(r[j].0@ == k2);
            }
            if has_key(r, k2) {
                let j = choose|j: int| 0 <= j < r.len() && r[j].0@ == k2;
                if j < s.len() {
                    assert(s[j].0@ == k2);
                }
            }
        }
        assert(lookup(r, k@) == Some(v)) by {
            let j = key_index(r, k@);
            assert(r[j].0@ == k@);
        }
        assert forall|k2: Seq<char>| k2 != k@ implies lookup(r, k2) == lookup(s, k2) by {
            if has_key(s, k2) {
                let j = key_index(s, k2);
                assert(r[j].0@ == k2);
                let j2 = key_index(r, k2);
                assert(j2 < s.len());
                assert(s[j2].0@ == k2);
            }
        }
    }
}

/// Setting every entry of `t` keeps the names unique.
pub proof fn lemma_set_all_unique<T>(s: Seq<(String, HBox<T>)>, t: Seq<(String, HBox<T>)>)
    requires
        unique_keys(s),
    ensures
        unique_keys(set_all(s, t)),
    decreases t.len(),
{
    if t.len() > 0 {
        lemma_set_all_unique(s, t.drop_last());
        lemma_set_entry(set_all(s, t.drop_last()), t.last().0, t.last().1);
    }
}

/// Where the names of `s` are distinct and all among the names of a finite
/// map with as many names, every name of the map is a name of `s`.
proof fn lemma_keys_fill_map<T>(s: Seq<(String, HBox<T>)>, m: Map<String, HBox<T>>)
    requires
        unique_keys(s),
        m.dom().finite(),
        m.len() == s.len(),
        forall|i: int| 0 <= i < s.len() ==> #[trigger] m.contains_key(s[i].0),
    ensures
        forall|x: String| #[trigger] m.contains_key(x) ==> exists|i: int| 0 <= i < s.len() && s[i].0 == x,
{
    let ks = s.map_values(|e: (String, HBox<T>)| e.0);
    assert(ks.no_duplicates()) by {
        assert forall|i: int, j: int| 0 <= i < ks.len() && 0 <= j < ks.len() && i != j implies ks[i] != ks[j] by {
            if i < j {
                assert(s[i].0@ != s[j].0@);
            } else {
                assert(s[j].0@ != s[i].0@);
            }
        }
    }
    ks.unique_seq_to_set();
    let names = ks.to_set();
    assert(names.subset_of(m.dom())) by {
        assert forall|x: String| names.contains(x) implies m.dom().contains(x) by {
            let i = choose|i: int| 0 <= i < ks.len() && ks[i] == x;
            assert(ks[i] == s[i].0);
            assert(m.contains_key(s[i].0));
        }
    }
    vstd::seq_lib::seq_to_set_is_finite(ks);
    vstd::set_lib::lemma_subset_equality(names, m.dom());
    assert forall|x: String| #[trigger] m.contains_key(x) implies exists|i: int| 0 <= i < s.len() && s[i].0 == x by {
        assert(names.contains(x));
        let i = choose|i: int| 0 <= i < ks.len() && ks[i] == x;
        assert(ks[i] == s[i].0);
    }
}

/// A dict turned into a map (`into_map`) and the map turned back into a dict
/// (`from_map`) give every name the value it had, though the entries may come
/// in another order.
pub proof fn law_dict_map_roundtrip<T>(d: HDict<T>, m: Map<String, HBox<T>>, r: Seq<(String, HBox<T>)>)
    requires
        d.wf(),
        m.dom().finite(),
        m.len() == d@.len(),
        forall|i: int| 0 <= i < d@.len() ==> #[trigger] m.contains_key(d@[i].0) && m[d@[i].0] == d@[i].1,
        unique_keys(r),
        enumerates(r, m),
    ensures
        r.len() == d@.len(),
        forall|k: Seq<char>| #[trigger] lookup(r, k) == lookup(d@, k),
{
    let s = d@;
    lemma_keys_fill_map(s, m);
    assert forall|i: int| 0 <= i < r.len() implies #[trigger] m.contains_key(r[i].0) by {
        assert(m.contains_key(r[i].0));
    }
    lemma_keys_fill_map(r, m);
    assert forall|k: Seq<char>| #[trigger] lookup(r, k) == lookup(s, k) by {
        if has_key(r, k) {
            let i = key_index(r, k);
            assert(m.contains_key(r[i].0));
            assert(m[r[i].0] == r[i].1);
            let j = choose|j: int| 0 <= j < s.len() && s[j].0 == r[i].0;
            assert(has_key(s, k));
            let j2 = key_index(s, k);
            assert(j2 == j) by {
                if j2 < j {
                    assert(s[j2].0@ != s[j].0@);
                } else if j < j2 {
                    assert(s[j].0@ != s[j2].0@);
                }
            }
            assert(m.contains_key(s[j].0) && m[s[j].0] == s[j].1);
        } else if has_key(s, k) {
            let j = key_index(s, k);
            assert(m.contains_key(s[j].0));
            let i = choose|i: int| 0 <= i < r.len() && r[i].0 == s[j].0;
            assert(r[i].0@ == k);
        }
    }
}

/// A map turned into a dict (`from_map`) and the dict turned back into a
/// map (`into_map`) is the map it started from: no name is lost or added, and
/// every name keeps its value.
pub proof fn law_map_dict_roundtrip<T>(m: Map<String, HBox<T>>, r: Seq<(String, HBox<T>)>, m2: Map<String, HBox<T>>)
    requires
        m.dom().finite(),
        unique_keys(r),
        enumerates(r, m),
        m2.dom().finite(),
        m2.len() == r.len(),
        forall|i: int| 0 <= i < r.len() ==> #[trigger] m2.contains_key(r[i].0) && m2[r[i].0] == r[i].1,
    ensures
        m2 == m,
{
    assert forall|i: int| 0 <= i < r.len() implies #[trigger] m.contains_key(r[i].0) by {
        assert(m.contains_key(r[i].0));
    }
    lemma_keys_fill_map(r, m);
    assert forall|i: int| 0 <= i < r.len() implies #[trigger] m2.contains_key(r[i].0) by {
        assert(m2.contains_key(r[i].0));
    }
    lemma_keys_fill_map(r, m2);
    assert forall|x: String| #[trigger] m2.contains_key(x) == m.contains_key(x) by {
        if m2.contains_key(x) {
            let i = choose|i: int| 0 <= i < r.len() && r[i].0 == x;
            assert(m.contains_key(r[i].0));
        }
        if m.contains_key(x) {
            let i = choose|i: int| 0 <= i < r.len() && r[i].0 == x;
            assert(m2.contains_key(r[i].0));
        }
    }
    assert forall|x: String| #[trigger] m2.contains_key(x) implies m2[x] == m[x] by {
        let i = choose|i: int| 0 <= i < r.len() && r[i].0 == x;
        assert(m2.contains_key(r[i].0));
        assert(m2[r[i].0] == r[i].1);
        assert(m.contains_key(r[i].0));
        assert(m[r[i].0] == r[i].1);
    }
    assert(m2 =~= m);
}

/// `HashMap::into_iter` collected into a vector: the entries of the map, each
/// once, in the order the map hands them out (which its hasher decides). The
/// names are distinct and every name of the map is among them with its value.
#[verifier::external_body]
fn hash_map_entries<T>(map: HashMap<String, HBox<T>>) -> (r: Vec<(String, HBox<T>)>)
    ensures
        unique_keys(r@),
        r@.len() == map@.len(),
        forall|i: int| 0 <= i < r@.len() ==> #[trigger] map@.contains_key(r@[i].0) && map@[r@[i].0] == r@[i].1,
{
    map.into_iter().collect()
}

/// `HashMap` collected from entries with distinct names: it holds exactly those
/// entries.
#[verifier::external_body]
fn entries_hash_map<T>(entries: Vec<(String, HBox<T>)>) -> (r: HashMap<String, HBox<T>>)
    requires
        unique_keys(entries@),
    ensures
        r@.len() == entries@.len(),
        forall|i: int| 0 <= i < entries@.len() ==> #[trigger] r@.contains_key(entries@[i].0) && r@[entries@[i].0] == entries@[i].1,
{
    entries.into_iter().collect()
}

impl<T> HDict<T> {
    /// The entries of the dict.
    pub open spec fn view(&self) -> Seq<(String, HBox<T>)> {
        self.entries@
    }

    /// No two entries have the same name.
    pub open spec fn wf(&self) -> bool {
        unique_keys(self@)
    }

    /// The Zinc text: `{`, the non-null entries, `}` (see `dict_zinc`).
    pub open spec fn zinc(&self) -> Seq<char> {
        zinc_of(HVal::Dict(*self))
    }

    /// The JSON text: `{`, the non-null entries as `"name":"value"`, `}`.
    pub open spec fn json(&self) -> Seq<char> {
        json_of(HVal::Dict(*self))
    }

    /// The empty dict.
    pub fn new() -> (r: HDict<T>)
        ensures
            r@ == Seq::<(String, HBox<T>)>::empty(),
            r.wf(),
    {
        HDict { entries: Vec::new() }
    }

    /// The dict of the entries of `map`, in the order the map hands them out.
    pub fn from_map(map: HashMap<String, HBox<T>>) -> (r: HDict<T>)
        ensures
            r.wf(),
            enumerates(r@, map@),
    {
        HDict { entries: hash_map_entries(map) }
    }

    /// The dict of the given entries; a later entry with a name already set
    /// replaces the value of the earlier one.
    pub fn from_entries(entries: Vec<(String, HBox<T>)>) -> (r: HDict<T>)
        ensures
            r.wf(),
            r@ == set_all(Seq::empty(), entries@),
    {
        let mut d = HDict::new();
        d.merge(HDict { entries });
        d
    }

    /// The position of the entry named `key`, if there is one.
    fn position(&self, key: &str) -> (r: Option<usize>)
        requires
            self.wf(),
        ensures
            r matches Some(i) ==> i < self@.len() && self@[i as int].0@ == key@ && key_index(self@, key@)
                == i,
            (r is Some) == has_key(self@, key@),
    {
        let mut i: usize = 0;
        while i < self.entries.len()
            invariant
                self.wf(),
                i <= self.entries@.len(),
                forall|j: int| 0 <= j < i ==> self.entries@[j].0@ != key@,
            decreases self.entries@.len() - i,
        {
            if str_eq(self.entries[i].0.as_str(), key) {
                proof {
                    let k = key_index(self@, key@);
                    assert(self@[k].0@ == key@);
                    if k < i {
                        assert(self@[k].0@ != self@[i as int].0@);
                    } else if k > i {
                        assert(self@[i as int].0@ != self@[k].0@);
                    }
                }
                return Some(i);
            }
            i = i + 1;
        }
        None
    }

    /// Whether an entry is named `key`.
    pub fn has(&self, key: &str) -> (r: bool)
        requires
            self.wf(),
        ensures
            r == has_key(self@, key@),
    {
        self.position(key).is_some()
    }

    /// The number of entries.
    pub fn len(&self) -> (r: usize)
        ensures
            r == self@.len(),
    {
        self.entries.len()
    }

    /// Sets the entry named `key` to `value`; hands back the value it replaces, if any.
    pub fn set(&mut self, key: String, value: HBox<T>) -> (r: Option<HBox<T>>)
        requires
            old(self).wf(),
        ensures
            final(self).wf(),
            final(self)@ == set_entry(old(self)@, key, value),
            r == lookup(old(self)@, key@),
    {
        proof { lemma_set_entry(self@, key, value); }
        match self.position(key.as_str()) {
            Some(i) => {
                let old_v = share(&self.entries[i].1);
                self.entries.set(i, (key, value));
                Some(old_v)
            },
            None => {
                self.entries.push((key, value));
                None
            },
        }
    }

    /// Sets every entry of `other`, in its order.
    pub fn merge(&mut self, other: HDict<T>)
        requires
            old(self).wf(),
        ensures
            final(self).wf(),
            final(self)@ == set_all(old(self)@, other@),
    {
        let ghost start = self@;
        let ghost all = other.entries@;
        let mut i: usize = 0;
        let mut entries = other.entries;
        let n = entries.len();
        while entries.len() > 0
            invariant
                n == all.len(),
                i <= all.len(),
                entries@ == all.skip(i as int),
                self.wf(),
                self@ == set_all(start, all.take(i as int)),
            decreases entries@.len(),
        {
            let (k, v) = entries.remove(0);
            proof {
                assert(all.take(i + 1).drop_last() == all.take(i as int));
                assert(all.take(i + 1).last() == all[i as int]);
                assert(all.skip(i + 1) == all.skip(i as int).remove(0));
            }
            let _ = self.set(k, v);
            i = i + 1;
        }
        assert(all.take(all.len() as int) == all);
    }

    /// Sets every entry of `other`, in the order the map hands them out.
    pub fn extend(&mut self, other: HashMap<String, HBox<T>>)
        requires
            old(self).wf(),
        ensures
            final(self).wf(),
            extended_by(old(self)@, final(self)@, other@),
    {
        let d = HDict::from_map(other);
        let ghost t = d@;
        self.merge(d);
        assert(unique_keys(t) && enumerates(t, other@) && self@ == set_all(old(self)@, t));
    }

    /// The value of the entry named `key`, if there is one.
    pub fn get(&self, key: &str) -> (r: Option<&HBox<T>>)
        requires
            self.wf(),
        ensures
            r matches Some(v) ==> lookup(self@, key@) == Some(*v),
            (r is Some) == has_key(self@, key@),
    {
        match self.position(key) {
            Some(i) => Some(&self.entries[i].1),
            None => None,
        }
    }

    /// The entries as a `HashMap`.
    pub fn into_map(self) -> (r: HashMap<String, HBox<T>>)
        requires
            self.wf(),
        ensures
            r@.len() == self@.len(),
            forall|i: int| 0 <= i < self@.len() ==> #[trigger] r@.contains_key(self@[i].0) && r@[self@[i].0] == self@[i].1,
    {
        let ghost s = self@;
        let entries = self.entries;
        assert(entries@ == s);
        let r = entries_hash_map(entries);
        r
    }

    /// Whether the dict has no entry.
    pub fn is_empty(&self) -> (r: bool)
        ensures
            r == (self@.len() == 0),
    {
        self.entries.len() == 0
    }

    /// The entries, in order.
    pub fn iter(&self) -> (r: &[(String, HBox<T>)])
        ensures
            r@ == self@,
    {
        self.entries.as_slice()
    }

    /// Whether an entry after position `i` holds a value other than null.
    pub(crate) fn has_non_null_after(&self, i: usize) -> (r: bool)
        requires
            i < self@.len(),
        ensures
            r == has_non_null(self@.skip(i + 1)),
    {
        let ghost rest = self@.skip(i + 1);
        let n = self.entries.len();
        let mut j: usize = i + 1;
        while j < self.entries.len()
            invariant
                i + 1 <= j <= self.entries@.len(),
                rest == self@.skip(i + 1),
                forall|m: int| i + 1 <= m < j ==> (*self@[m].1) is Null,
            decreases self.entries@.len() - j,
        {
            match &*self.entries[j].1 {
                HVal::Null(_) => {},
                _ => {
                    proof {
                        assert(rest[j - i - 1] == self@[j as int]);
                    }
                    return true;
                },
            }
            j = j + 1;
        }
        proof {
            assert forall|m: int| 0 <= m < rest.len() implies (*rest[m].1) is Null by {
                assert(rest[m] == self@[m + i + 1]);
            }
        }
        false
    }

    /// Writes `{`, the non-null entries, `}`: a remove entry as `-name`, a
    /// marker entry as `name`, any other as `name:value` followed by a space
    /// when a non-null entry follows.
    pub fn to_zinc(&self, buf: &mut String) -> (r: core::fmt::Result)
        ensures
            r is Ok,
            final(buf)@ == old(buf)@ + self.zinc(),
        decreases self,
    {
        let ghost start = buf@;
        push_char(buf, '{');
        let mut i: usize = 0;
        assert(self@.skip(0) == self@);
        while i < self.entries.len()
            invariant
                i <= self.entries@.len(),
                buf@ + dict_zinc(self@.skip(i as int)) == start + seq!['{'] + dict_zinc(self@),
            decreases self.entries@.len() - i,
        {
            let ghost before = buf@;
            let ghost rest = self@.skip(i as int);
            proof {
                assert(rest.drop_first() == self@.skip(i + 1));
                assert(rest[0] == self@[i as int]);
            }
            let more = self.has_non_null_after(i);
            let k = self.entries[i].0.as_str();
            let v: &HVal<T> = &*self.entries[i].1;
            match v {
                HVal::Null(_) => {},
                HVal::Remove(_) => {
                    push_char(buf, '-');
                    push_str(buf, k);
                },
                HVal::Marker(_) => {
                    push_str(buf, k);
                },
                _ => {
                    push_str(buf, k);
                    push_char(buf, ':');
                    proof {
                        assert(decreases_to!(*self => *self.entries@[i as int].1));
                    }
                    let _ = v.to_zinc(buf);
                    if more {
                        push_char(buf, ' ');
                    }
                },
            }
            i = i + 1;
        }
        assert(self@.skip(self@.len() as int) == Seq::<(String, HBox<T>)>::empty());
        push_char(buf, '}');
        Ok(())
    }

    /// Writes the Trio text, which is the Zinc text.
    pub fn to_trio(&self, buf: &mut String) -> (r: core::fmt::Result)
        ensures
            r is Ok,
            final(buf)@ == old(buf)@ + self.zinc(),
    {
        self.to_zinc(buf)
    }

    /// Writes `{`, the non-null entries as `"name":"value"` separated by commas, `}`.
    pub fn to_json(&self, buf: &mut String) -> (r: core::fmt::Result)
        ensures
            r is Ok,
            final(buf)@ == old(buf)@ + self.json(),
        decreases self,
    {
        let ghost start = buf@;
        push_char(buf, '{');
        let mut i: usize = 0;
        assert(self@.skip(0) == self@);
        while i < self.entries.len()
            invariant
                i <= self.entries@.len(),
                buf@ + dict_json(self@.skip(i as int)) == start + seq!['{'] + dict_json(self@),
            decreases self.entries@.len() - i,
        {
            let ghost rest = self@.skip(i as int);
            proof {
                assert(rest.drop_first() == self@.skip(i + 1));
                assert(rest[0] == self@[i as int]);
            }
            let more = self.has_non_null_after(i);
            let k = self.entries[i].0.as_str();
            let v: &HVal<T> = &*self.entries[i].1;
            match v {
                HVal::Null(_) => {},
                _ => {
                    push_char(buf, '"');
                    push_str(buf, k);
                    push_char(buf, '"');
                    push_char(buf, ':');
                    push_char(buf, '"');
                    proof {
                        assert(decreases_to!(*self => *self.entries@[i as int].1));
                    }
                    let _ = v.to_json(buf);
                    push_char(buf, '"');
                    if more {
                        push_char(buf, ',');
                    }
                },
            }
            i = i + 1;
        }
        assert(self@.skip(self@.len() as int) == Seq::<(String, HBox<T>)>::empty());
        push_char(buf, '}');
        Ok(())
    }

    /// A dict with the same entries.
    pub fn copy(&self) -> (r: HDict<T>)
        ensures
            r@ == self@,
    {
        let mut entries: Vec<(String, HBox<T>)> = Vec::new();
        let mut i: usize = 0;
        while i < self.entries.len()
            invariant
                i <= self.entries@.len(),
                entries@ == self@.take(i as int),
            decreases self.entries@.len() - i,
        {
            let k = self.entries[i].0.clone();
            let v = share(&self.entries[i].1);
            entries.push((k, v));
            assert(self@.take(i + 1) == self@.take(i as int).push(self@[i as int]));
            i = i + 1;
        }
        assert(self@.take(self@.len() as int) == self@);
        HDict { entries }
    }

    /// The kind of value: `HType::Dict`.
    pub fn haystack_type(&self) -> (r: HType)
        ensures
            r == HType::Dict,
    {
        HType::Dict
    }

    /// Dicts never compare equal as Haystack values.
    pub fn _eq(&self, _other: &HVal<T>) -> (r: bool)
        ensures
            !r,
    {
        false
    }

    /// This value as a Haystack value.
    pub fn to_hval(self) -> (r: HVal<T>)
        ensures
            r == HVal::Dict(self),
    {
        HVal::Dict(self)
    }

    /// This value as a shared Haystack value.
    pub fn to_hbox(self) -> (r: HBox<T>)
        ensures
            *r == HVal::Dict(self),
    {
        std::rc::Rc::new(HVal::Dict(self))
    }
}

} // verus!
