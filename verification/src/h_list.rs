//! The Haystack list value.
use vstd::prelude::*;
use crate::text::push_char;
use crate::h_val::{HBox, HVal, HType, list_zinc, list_json, zinc_of, json_of};

verus! {

/// A list of values.
#[derive(Clone, Debug, PartialEq)]
pub struct HList<T> {
    pub inner: Vec<HBox<T>>,
}

/// The list type under its short name.
pub type List<T> = HList<T>;

impl<T> HList<T> {
    /// The elements of the list.
    pub open spec fn view(&self) -> Seq<HBox<T>> {
        self.inner@
    }

    /// The Zinc text: the elements' Zinc texts in brackets, separated by `, `.
    pub open spec fn zinc(&self) -> Seq<char> {
        zinc_of(HVal::List(*self))
    }

    /// The JSON text: the elements' JSON texts quoted, in brackets, separated by commas.
    pub open spec fn json(&self) -> Seq<char> {
        json_of(HVal::List(*self))
    }

    /// The empty list.
    pub fn new() -> (r: HList<T>)
        ensures
            r@ == Seq::<HBox<T>>::empty(),
    {
        HList { inner: Vec::new() }
    }

    /// The list of the elements of `vec`.
    pub fn from_vec(vec: Vec<HBox<T>>) -> (r: HList<T>)
        ensures
            r@ == vec@,
    {
        HList { inner: vec }
    }

    /// The element at `index`, if there is one.
    pub fn get(&self, index: usize) -> (r: Option<&HBox<T>>)
        ensures
            index < self@.len() ==> r == Some(&self@[index as int]),
            index >= self@.len() ==> r is None,
    {
        if index < self.inner.len() {
            Some(&self.inner[index])
        } else {
            None
        }
    }

    /// The number of elements.
    pub fn len(&self) -> (r: usize)
        ensures
            r == self@.len(),
    {
        self.inner.len()
    }

    /// Whether the list has no element.
    pub fn is_empty(&self) -> (r: bool)
        ensures
            r == (self@.len() == 0),
    {
        self.inner.len() == 0
    }

    /// The first element, if any.
    pub fn first(&self) -> (r: Option<&HBox<T>>)
        ensures
            self@.len() > 0 ==> r == Some(&self@[0]),
            self@.len() == 0 ==> r is None,
    {
        if self.inner.len() > 0 {
            Some(&self.inner[0])
        } else {
            None
        }
    }

    /// The last element, if any.
    pub fn last(&self) -> (r: Option<&HBox<T>>)
        ensures
            self@.len() > 0 ==> r == Some(&self@.last()),
            self@.len() == 0 ==> r is None,
    {
        let n = self.inner.len();
        if n > 0 {
            Some(&self.inner[n - 1])
        } else {
            None
        }
    }

    /// Appends `value` at the end.
    pub fn push(&mut self, value: HBox<T>)
        ensures
            final(self)@ == old(self)@.push(value),
    {
        self.inner.push(value);
    }

    /// Writes the elements' Zinc texts in brackets, separated by `, `.
    pub fn to_zinc(&self, buf: &mut String) -> (r: core::fmt::Result)
        ensures
            r is Ok,
            final(buf)@ == old(buf)@ + self.zinc(),
        decreases self,
    {
        let ghost start = buf@;
        push_char(buf, '[');
        let mut i: usize = 0;
        while i < self.inner.len()
            invariant
                i <= self.inner@.len(),
                buf@ == start + seq!['['] + list_zinc(self.inner@.take(i as int)),
            decreases self.inner@.len() - i,
        {
            let ghost before = buf@;
            if i > 0 {
                push_char(buf, ',');
                push_char(buf, ' ');
            }
            let v: &HVal<T> = &*self.inner[i];
            proof {
                assert(decreases_to!(*self => *self.inner@[i as int]));
            }
            let _ = v.to_zinc(buf);
            proof {
                let t = self.inner@.take(i + 1);
                assert(t.drop_last() == self.inner@.take(i as int));
                assert(t.last() == self.inner@[i as int]);
                if i == 0 {
                    assert(t.len() == 1);
                    assert(t[0] == self.inner@[0]);
                }
            }
            i = i + 1;
        }
        assert(self.inner@.take(self.inner@.len() as int) == self.inner@);
        push_char(buf, ']');
        Ok(())
    }

    /// Writes the Trio text, which is the Zinc text.
    pub fn to_trio(&self, buf: &mut String) -> (r: core::fmt::Result)
        ensures
            r is Ok,
            final(buf)@ == old(buf)@ + self.zinc(),
    {
        self.to_zinc(buf)
    }

    /// Writes the elements' JSON texts quoted, in brackets, separated by commas.
    pub fn to_json(&self, buf: &mut String) -> (r: core::fmt::Result)
        ensures
            r is Ok,
            final(buf)@ == old(buf)@ + self.json(),
        decreases self,
    {
        let ghost start = buf@;
        push_char(buf, '[');
        let mut i: usize = 0;
        while i < self.inner.len()
            invariant
                i <= self.inner@.len(),
                buf@ == start + seq!['['] + list_json(self.inner@.take(i as int)),
            decreases self.inner@.len() - i,
        {
            if i > 0 {
                push_char(buf, ',');
            }
            push_char(buf, '"');
            let v: &HVal<T> = &*self.inner[i];
            proof {
                assert(decreases_to!(*self => *self.inner@[i as int]));
            }
            let _ = v.to_json(buf);
            push_char(buf, '"');
            proof {
                let t = self.inner@.take(i + 1);
                assert(t.drop_last() == self.inner@.take(i as int));
                assert(t.last() == self.inner@[i as int]);
                if i == 0 {
                    assert(t.len() == 1);
                    assert(t[0] == self.inner@[0]);
                }
            }
            i = i + 1;
        }
        assert(self.inner@.take(self.inner@.len() as int) == self.inner@);
        push_char(buf, ']');
        Ok(())
    }

    /// The kind of value: `HType::List`.
    pub fn haystack_type(&self) -> (r: HType)
        ensures
            r == HType::List,
    {
        HType::List
    }

    /// Lists never compare equal as Haystack values.
    pub fn _eq(&self, _other: &HVal<T>) -> (r: bool)
        ensures
            !r,
    {
        false
    }

    /// This value as a Haystack value.
    pub fn to_hval(self) -> (r: HVal<T>)
        ensures
            r == HVal::List(self),
    {
        HVal::List(self)
    }

    /// This value as a shared Haystack value.
    pub fn to_hbox(self) -> (r: HBox<T>)
        ensures
            *r == HVal::List(self),
    {
        std::rc::Rc::new(HVal::List(self))
    }
}

} // verus!
