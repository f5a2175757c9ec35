//! A persistent singly-linked list with structural sharing.
//!
//! A `List` is either empty or a node holding one value and a shared
//! reference to the remainder. Operations never mutate an existing list:
//! they return a new list that shares every node it did not have to rebuild.
//! Elements are required to be `Copy` wherever an operation hands a stored
//! value out or rebuilds nodes, so that every value read from a list is a
//! logically independent copy.

use std::rc::Rc;
use vstd::laws_eq::obeys_concrete_eq;
use vstd::prelude::*;
use vstd::std_specs::cmp::PartialEqSpec;

verus! {

#[derive(Debug)]
enum ListEnum<T> {
    Node { value: T, next: List<T> },
    Empty,
}

/// An immutable singly-linked sequence. The abstract value of a list is the
/// sequence of its elements, front first (`self@`).
#[derive(Debug)]
pub struct List<T> {
    inner: Rc<ListEnum<T>>,
}

impl<T> List<T> {
    /// The sequence of elements held by the list, front first.
    pub closed spec fn seq(self) -> Seq<T>
        decreases self,
    {
        match *self.inner {
            ListEnum::Node { value, next } => seq![value] + next.seq(),
            ListEnum::Empty => Seq::empty(),
        }
    }

    /// The canonical empty list.
    pub fn empty() -> (r: Self)
        ensures
            r@ == Seq::<T>::empty(),
    {
        Self { inner: Rc::new(ListEnum::Empty) }
    }

    /// A new list with `value` at the front, sharing `next` as its tail.
    pub fn node(value: T, next: Self) -> (r: Self)
        ensures
            r@ == seq![value] + next@,
    {
        let node = ListEnum::Node { value, next };
        Self { inner: Rc::new(node) }
    }

    /// A new list with `value` at the front, sharing `self` as its tail.
    /// `self` is unaffected.
    pub fn prepend(&self, value: T) -> (r: Self)
        ensures
            r@ == seq![value] + self@,
    {
        Self::node(value, self.clone())
    }

    /// The list with the front element removed, sharing all remaining
    /// storage, or `None` when the list is empty.
    pub fn tail(&self) -> (r: Option<Self>)
        ensures
            self@.len() == 0 ==> r is None,
            self@.len() > 0 ==> (r matches Some(t) && t@ == self@.drop_first()),
    {
        match &*self.inner {
            ListEnum::Node { value: _, next } => {
                proof {
                    assert(self@ =~= seq![self@[0]] + next@);
                    assert(next@ =~= self@.drop_first());
                }
                Some(next.clone())
            },
            ListEnum::Empty => None,
        }
    }

    /// Whether the list holds no elements.
    pub fn is_empty(&self) -> (r: bool)
        ensures
            r <==> self@.len() == 0,
    {
        match &*self.inner {
            ListEnum::Node { .. } => false,
            ListEnum::Empty => true,
        }
    }
}

impl<T: Copy> List<T> {
    /// The front element, or `None` when the list is empty.
    pub fn head(&self) -> (r: Option<T>)
        ensures
            self@.len() == 0 ==> r is None,
            self@.len() > 0 ==> r == Some(self@[0]),
    {
        match &*self.inner {
            ListEnum::Node { value, .. } => Some(*value),
            ListEnum::Empty => None,
        }
    }

    /// The front element and the remainder in one decomposition, or `None`
    /// when the list is empty.
    pub fn uncons(&self) -> (r: Option<(T, Self)>)
        ensures
            self@.len() == 0 ==> r is None,
            self@.len() > 0 ==> (r matches Some(p) && p.0 == self@[0] && p.1@ == self@.drop_first(
            )),
    {
        match &*self.inner {
            ListEnum::Node { value, next } => {
                proof {
                    assert(next@ =~= self@.drop_first());
                }
                Some((*value, next.clone()))
            },
            ListEnum::Empty => None,
        }
    }

    /// Builds a list whose front-to-back order equals the slice's order.
    pub fn from_slice(slice: &[T]) -> (r: Self)
        ensures
            r@ == slice@,
    {
        let mut r = Self::empty();
        let mut i: usize = slice.len();
        while i > 0
            invariant
                i <= slice@.len(),
                r@ == slice@.skip(i as int),
            decreases i,
        {
            i = i - 1;
            r = r.prepend(slice[i]);
            proof {
                assert(r@ =~= slice@.skip(i as int));
            }
        }
        proof {
            assert(slice@.skip(0) =~= slice@);
        }
        r
    }

    /// A new list in which `value` occupies position `index` (front = 0) and
    /// every element of `self` keeps its relative order; `None` when `index`
    /// exceeds the list's length. Nodes before the insertion point are
    /// rebuilt; everything after it is shared with `self`.
    pub fn insert(&self, value: T, index: usize) -> (r: Option<Self>)
        ensures
            index <= self@.len() ==> (r matches Some(l) && l@ == self@.take(index as int) + seq![
                value,
            ] + self@.skip(index as int)),
            index > self@.len() ==> r is None,
        decreases self,
    {
        if index == 0 {
            let r = Self::node(value, self.clone());
            proof {
                assert(r@ =~= self@.take(0) + seq![value] + self@.skip(0));
            }
            Some(r)
        } else {
            match &*self.inner {
                ListEnum::Node { value: v, next } => {
                    match next.insert(value, index - 1) {
                        Some(rest) => {
                            let r = Self::node(*v, rest);
                            proof {
                                assert(r@ =~= self@.take(index as int) + seq![value] + self@.skip(
                                    index as int,
                                ));
                            }
                            Some(r)
                        },
                        None => None,
                    }
                },
                ListEnum::Empty => None,
            }
        }
    }

    /// A new list holding `self`'s elements followed by `other`'s. `self`'s
    /// nodes are rebuilt; `other` is shared as the terminal tail.
    pub fn concat(&self, other: &Self) -> (r: Self)
        ensures
            r@ == self@ + other@,
        decreases self,
    {
        match &*self.inner {
            ListEnum::Node { value, next } => {
                let r = Self::node(*value, next.concat(other));
                proof {
                    assert(r@ =~= self@ + other@);
                }
                r
            },
            ListEnum::Empty => {
                let r = other.clone();
                proof {
                    assert(r@ =~= self@ + other@);
                }
                r
            },
        }
    }

    /// A new list with the elements in reverse order; `self` is untouched.
    pub fn reverse(&self) -> (r: Self)
        ensures
            r@ == self@.reverse(),
    {
        let r = self.reverse_onto(Self::empty());
        proof {
            assert(self@.reverse() + Seq::<T>::empty() =~= self@.reverse());
        }
        r
    }

    /// Reversal with an explicit accumulator: the reverse of `self` followed
    /// by `acc`.
    fn reverse_onto(&self, acc: Self) -> (r: Self)
        ensures
            r@ == self@.reverse() + acc@,
        decreases self,
    {
        match &*self.inner {
            ListEnum::Node { value, next } => {
                let r = next.reverse_onto(Self::node(*value, acc));
                proof {
                    assert(r@ =~= self@.reverse() + acc@);
                }
                r
            },
            ListEnum::Empty => {
                proof {
                    assert(self@.reverse() + acc@ =~= acc@);
                }
                acc
            },
        }
    }
}

/// Relies on std's `format!` macro: renders one value with its `Debug`
/// implementation. What text a `Debug` implementation produces is not
/// specified here.
#[verifier::external_body]
pub(crate) fn debug_string<T: core::fmt::Debug>(value: &T) -> String {
    format!("{:?}", value)
}

/// Relies on `String::push_str`: appends the string slice to the end of the
/// string.
#[verifier::external_body]
pub(crate) fn append_str(dest: &mut String, part: &str)
    ensures
        final(dest)@ == old(dest)@ + part@,
{
    dest.push_str(part)
}

/// The shape of a list's rendering: one chunk of text per element, in
/// element order, each followed by `", "`, closed by the terminal marker
/// `"_"`. The chunk texts themselves come from the element type's `Debug`
/// implementation and are not fixed here.
pub open spec fn is_rendering<T>(s: Seq<T>, r: Seq<char>) -> bool
    decreases s.len(),
{
    if s.len() == 0 {
        r == "_"@
    } else {
        exists|chunk: Seq<char>, rest: Seq<char>|
            r == chunk + ", "@ + rest && is_rendering(s.drop_first(), rest)
    }
}

impl<T: core::fmt::Debug> List<T> {
    /// A deterministic left-to-right textual form: each element's debug
    /// rendering followed by `", "`, with `"_"` marking the terminal empty
    /// list. The element text itself comes from `Debug` and is not specified
    /// here; the empty list renders as `"_"` exactly. Rendering walks the
    /// list without consuming or changing it.
    pub fn into_string(&self) -> (r: String)
        ensures
            self@.len() == 0 ==> r@ == "_"@,
            r@.len() >= 1 && r@[r@.len() - 1] == '_',
            is_rendering(self@, r@),
        decreases self,
    {
        proof {
            reveal_strlit("_");
        }
        match &*self.inner {
            ListEnum::Node { value, next } => {
                let mut owned = debug_string(value);
                let ghost chunk = owned@;
                append_str(&mut owned, ", ");
                let rest = next.into_string();
                append_str(&mut owned, rest.as_str());
                proof {
                    assert(next@ =~= self@.drop_first());
                    assert(owned@ =~= chunk + ", "@ + rest@);
                    assert(is_rendering(self@.drop_first(), rest@));
                    assert(is_rendering(self@, owned@));
                }
                owned
            },
            ListEnum::Empty => "_".to_owned(),
        }
    }
}

impl<T: PartialEq> List<T> {
    /// Structural equality: both lists are empty, or both start with equal
    /// values and have structurally equal tails. When `T`'s `==` agrees with
    /// logical equality, this holds exactly when the two lists hold the same
    /// sequence of elements.
    pub fn equals(&self, other: &Self) -> (r: bool)
        ensures
            obeys_concrete_eq::<T>() ==> (r <==> self@ == other@),
        decreases self,
    {
        proof {
            reveal(vstd::laws_eq::obeys_concrete_eq);
        }
        match (&*self.inner, &*other.inner) {
            (
                ListEnum::Node { value: v1, next: n1 },
                ListEnum::Node { value: v2, next: n2 },
            ) => {
                let values_eq = v1 == v2;
                let nexts_eq = n1.equals(n2);
                proof {
                    if obeys_concrete_eq::<T>() {
                        if values_eq && nexts_eq {
                            assert(self@ =~= other@);
                        }
                        if self@ == other@ {
                            assert(*v1 == self@[0] && *v2 == other@[0]);
                            assert(n1@ =~= self@.drop_first());
                            assert(n2@ =~= other@.drop_first());
                        }
                    }
                }
                values_eq && nexts_eq
            },
            (ListEnum::Empty, ListEnum::Empty) => true,
            _ => {
                proof {
                    if self@.len() == 0 {
                        assert(other@.len() > 0);
                    } else {
                        assert(other@.len() == 0);
                    }
                }
                false
            },
        }
    }
}

impl<T: PartialEq> PartialEq for List<T> {
    fn eq(&self, other: &Self) -> (r: bool) {
        self.equals(other)
    }
}

impl<T: PartialEq> vstd::std_specs::cmp::PartialEqSpecImpl for List<T> {
    open spec fn obeys_eq_spec() -> bool {
        obeys_concrete_eq::<T>()
    }

    open spec fn eq_spec(&self, other: &Self) -> bool {
        self@ == other@
    }
}

impl<T> View for List<T> {
    type V = Seq<T>;

    open spec fn view(&self) -> Seq<T> {
        self.seq()
    }
}

impl<T> Clone for List<T> {
    /// A clone shares all storage with, and is equal in value to, the
    /// original.
    fn clone(&self) -> (r: Self)
        ensures
            r == *self,
    {
        List { inner: self.inner.clone() }
    }
}

/// Structural equality is reflexive and value-based: under an element `==`
/// that agrees with logical equality, two lists compare equal exactly when
/// they hold the same sequence of elements, however each was built, and
/// compare unequal whenever any element or the lengths differ.
pub proof fn lemma_equality_is_value_based<T: PartialEq>(a: List<T>, b: List<T>)
    ensures
        a.eq_spec(&a),
        a.eq_spec(&b) <==> a@ == b@,
{
}

/// Decomposing a non-empty list into head and tail and prepending the head
/// back yields the original list's value.
pub proof fn lemma_uncons_prepend_roundtrip<T>(l: List<T>)
    requires
        l@.len() > 0,
    ensures
        seq![l@[0]] + l@.drop_first() == l@,
{
    assert(seq![l@[0]] + l@.drop_first() =~= l@);
}

/// Inserting at index 0 yields what prepending yields; inserting at an index
/// equal to the list's length yields what concatenation with a singleton
/// yields. (Inserting past the length yields `None`, by `insert`'s contract.)
pub proof fn lemma_insert_at_ends<T>(l: List<T>, value: T)
    ensures
        l@.take(0) + seq![value] + l@.skip(0) == seq![value] + l@,
        l@.take(l@.len() as int) + seq![value] + l@.skip(l@.len() as int) == l@ + seq![value],
{
    assert(l@.take(0) + seq![value] + l@.skip(0) =~= seq![value] + l@);
    assert(l@.take(l@.len() as int) + seq![value] + l@.skip(l@.len() as int) =~= l@ + seq![value]);
}

/// Reversal is an involution: reversing twice restores the original value.
pub proof fn lemma_reverse_involution<T>(l: List<T>)
    ensures
        l@.reverse().reverse() == l@,
{
    assert(l@.reverse().reverse() =~= l@);
}

/// Concatenation has the empty list as left and right identity and is
/// associative.
pub proof fn lemma_concat_identity_assoc<T>(a: List<T>, b: List<T>, c: List<T>)
    ensures
        a@ + Seq::<T>::empty() == a@,
        Seq::<T>::empty() + a@ == a@,
        (a@ + b@) + c@ == a@ + (b@ + c@),
{
    assert(a@ + Seq::<T>::empty() =~= a@);
    assert(Seq::<T>::empty() + a@ =~= a@);
    assert((a@ + b@) + c@ =~= a@ + (b@ + c@));
}

} // verus!
