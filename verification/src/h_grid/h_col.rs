//! A column of a grid.
use vstd::prelude::*;
use std::collections::HashMap;
use crate::text::{push_char, push_str, to_owned_string};
use crate::h_dict::{HDict, has_key, lookup, enumerates, extended_by};
use crate::h_val::{HBox, HVal, col_zinc, col_meta_zinc};

verus! {

/// A column of a grid: a name and metadata.
#[derive(Clone, Debug, PartialEq)]
pub struct HCol<T> {
    pub name: String,
    pub meta: HDict<T>,
}

/// The column type under its short name.
pub type Col<T> = HCol<T>;

/// The characters of a string value, if `v` is one.
pub open spec fn str_of<T>(v: HVal<T>) -> Option<Seq<char>> {
    match v {
        HVal::Str(s) => Some(s@),
        _ => None,
    }
}

/// The display text of a column with metadata `m`: its `dis`, else its
/// `name`, else its `tag`, else `!default`; `None` where no text is defined
/// (the entry found first is not a string, or the column is displayed by
/// `disMacro`, `disKey` or `id`).
pub open spec fn col_dis<T>(m: Seq<(String, HBox<T>)>) -> Option<Seq<char>> {
    if has_key(m, "dis"@) {
        str_of(*lookup(m, "dis"@).unwrap())
    } else if has_key(m, "disMacro"@) || has_key(m, "disKey"@) {
        None
    } else if has_key(m, "name"@) {
        str_of(*lookup(m, "name"@).unwrap())
    } else if has_key(m, "tag"@) {
        str_of(*lookup(m, "tag"@).unwrap())
    } else if has_key(m, "id"@) {
        None
    } else {
        Some("!default"@)
    }
}

impl<T> HCol<T> {
    /// The metadata has no two entries of the same name.
    pub open spec fn wf(&self) -> bool {
        self.meta.wf()
    }

    /// The Zinc text: the name, and a space and the metadata if there is any.
    pub open spec fn zinc(&self) -> Seq<char> {
        col_zinc(*self)
    }

    /// The column `name` with the entries of `meta`, if given, as metadata.
    pub fn new(name: String, meta: Option<HashMap<String, HBox<T>>>) -> (r: Self)
        ensures
            r.name == name,
            r.wf(),
            meta is None ==> r.meta@.len() == 0,
            meta matches Some(m) ==> enumerates(r.meta@, m@),
    {
        let meta = match meta {
            Some(m) => HDict::from_map(m),
            None => HDict::new(),
        };
        HCol { name, meta }
    }

    /// A copy of the metadata.
    pub fn meta(&self) -> (r: HDict<T>)
        ensures
            r@ == self.meta@,
    {
        self.meta.copy()
    }

    /// The metadata entry named `key`, if there is one.
    pub fn get(&self, key: String) -> (r: Option<&HBox<T>>)
        requires
            self.wf(),
        ensures
            r matches Some(v) ==> lookup(self.meta@, key@) == Some(*v),
            (r is Some) == has_key(self.meta@, key@),
    {
        self.meta.get(key.as_str())
    }

    /// Whether a metadata entry is named `key`.
    pub fn has(&self, key: &str) -> (r: bool)
        requires
            self.wf(),
        ensures
            r == has_key(self.meta@, key@),
    {
        self.meta.has(key)
    }

    /// Sets every entry of `meta` in the metadata, in the order the map hands them out.
    pub fn add_meta(&mut self, meta: HashMap<String, HBox<T>>)
        requires
            old(self).wf(),
        ensures
            final(self).wf(),
            final(self).name == old(self).name,
            extended_by(old(self).meta@, final(self).meta@, meta@),
    {
        self.meta.extend(meta);
    }

    /// The display text of the column (see `col_dis`).
    pub fn dis(&self) -> (r: String)
        requires
            self.wf(),
            col_dis(self.meta@) is Some,
        ensures
            Some(r@) == col_dis(self.meta@),
    {
        if let Some(v) = self.meta.get("dis") {
            match &**v {
                HVal::Str(s) => s.clone_into_string(),
                _ => vstd::pervasive::unreached(),
            }
        } else if self.meta.has("disMacro") || self.meta.has("disKey") {
            vstd::pervasive::unreached()
        } else if let Some(v) = self.meta.get("name") {
            match &**v {
                HVal::Str(s) => s.clone_into_string(),
                _ => vstd::pervasive::unreached(),
            }
        } else if let Some(v) = self.meta.get("tag") {
            match &**v {
                HVal::Str(s) => s.clone_into_string(),
                _ => vstd::pervasive::unreached(),
            }
        } else if self.meta.has("id") {
            vstd::pervasive::unreached()
        } else {
            to_owned_string("!default")
        }
    }

    /// The name of the column.
    pub fn name(&self) -> (r: &str)
        ensures
            r@ == self.name@,
    {
        self.name.as_str()
    }

    /// Writes the name, and a space and the metadata entries separated by
    /// spaces (`name` for a marker, `name:value` otherwise) if there are any.
    pub fn to_zinc(&self, buf: &mut String) -> (r: core::fmt::Result)
        ensures
            r is Ok,
            final(buf)@ == old(buf)@ + self.zinc(),
        decreases self,
    {
        let ghost start = buf@;
        push_str(buf, self.name.as_str());
        let n = self.meta.entries.len();
        if n > 0 {
            push_char(buf, ' ');
            let ghost mid = buf@;
            let mut i: usize = 0;
            while i < n
                invariant
                    n == self.meta.entries@.len(),
                    i <= n,
                    buf@ == mid + col_meta_zinc(self.meta.entries@.take(i as int)),
                decreases n - i,
            {
                if i > 0 {
                    push_char(buf, ' ');
                }
                push_str(buf, self.meta.entries[i].0.as_str());
                let v: &HVal<T> = &*self.meta.entries[i].1;
                match v {
                    HVal::Marker(_) => {},
                    _ => {
                        push_char(buf, ':');
                        proof {
                            assert(decreases_to!(*self => *self.meta.entries@[i as int].1));
                        }
                        let _ = v.to_zinc(buf);
                    },
                }
                proof {
                    let t = self.meta.entries@.take(i + 1);
                    assert(t.drop_last() == self.meta.entries@.take(i as int));
                    assert(t.last() == self.meta.entries@[i as int]);
                    if i == 0 {
                        assert(t[0] == self.meta.entries@[0]);
                    }
                }
                i = i + 1;
            }
            assert(self.meta.entries@.take(n as int) == self.meta.entries@);
        }
        Ok(())
    }

    /// A column with the same name and metadata.
    pub fn copy(&self) -> (r: HCol<T>)
        ensures
            r.name == self.name,
            r.meta@ == self.meta@,
    {
        HCol { name: self.name.clone(), meta: self.meta.copy() }
    }
}

} // verus!
