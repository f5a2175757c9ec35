//! A persistent FIFO queue built from two persistent lists.
//!
//! The queue keeps an `ins` list (most recent enqueue at the front) and an
//! `outs` list (next element to dequeue at the front). Its logical content,
//! front to back, is always `outs` followed by the reverse of `ins`. When a
//! read finds `outs` empty, it first moves the reversed `ins` into `outs`
//! ("revolve"); each element is reversed at most once over its lifetime in
//! the queue, which makes every operation amortized constant time.

use crate::list::append_str;
use crate::list::is_rendering;
use crate::list::List;
use vstd::laws_eq::obeys_concrete_eq;
use vstd::prelude::*;

verus! {

/// A persistent first-in-first-out queue. The abstract value of a queue is
/// the sequence of its elements in dequeue order (`self@`).
#[derive(Debug)]
pub struct Queue<T> {
    ins: List<T>,
    outs: List<T>,
}

impl<T> Queue<T> {
    /// The elements of the incoming list, most recently enqueued first.
    pub closed spec fn ins_seq(&self) -> Seq<T> {
        self.ins@
    }

    /// The elements of the outgoing list, next to dequeue first.
    pub closed spec fn outs_seq(&self) -> Seq<T> {
        self.outs@
    }

    /// The empty queue.
    pub fn new() -> (r: Self)
        ensures
            r@ == Seq::<T>::empty(),
            r.ins_seq() == Seq::<T>::empty(),
            r.outs_seq() == Seq::<T>::empty(),
    {
        let r = Queue { ins: List::empty(), outs: List::empty() };
        proof {
            assert(r@ =~= Seq::<T>::empty());
        }
        r
    }

    /// A new queue with `value` appended at the back. Constant time: the
    /// value is prepended to the incoming list and the outgoing list is
    /// shared unchanged.
    pub fn enqueue(&self, value: T) -> (r: Self)
        ensures
            r@ == self@.push(value),
            r.ins_seq() == seq![value] + self.ins_seq(),
            r.outs_seq() == self.outs_seq(),
    {
        let r = Queue { ins: self.ins.prepend(value), outs: self.outs.clone() };
        proof {
            assert((seq![value] + self.ins_seq()).reverse() =~= self.ins_seq().reverse() + seq![
                value,
            ]);
            assert(r@ =~= self@.push(value));
        }
        r
    }
}

impl<T: Copy> Queue<T> {
    /// A queue whose dequeue order equals the slice's order: the input is
    /// stored reversed in the incoming list, so repeated revolve and dequeue
    /// reproduce the original order.
    pub fn from_slice(slice: &[T]) -> (r: Self)
        ensures
            r@ == slice@,
            r.ins_seq() == slice@.reverse(),
            r.outs_seq() == Seq::<T>::empty(),
    {
        let r = Queue { ins: List::from_slice(slice).reverse(), outs: List::empty() };
        proof {
            assert(slice@.reverse().reverse() =~= slice@);
            assert(r@ =~= slice@);
        }
        r
    }

    /// Moves every element of the incoming list, reversed, behind the
    /// outgoing list. The logical content is unchanged: revolving is
    /// invisible to every caller-facing operation.
    fn revolve(&self) -> (r: Self)
        ensures
            r@ == self@,
            r.ins_seq() == Seq::<T>::empty(),
            r.outs_seq() == self@,
    {
        let r = Queue { ins: List::empty(), outs: self.outs.concat(&self.ins.reverse()) };
        proof {
            assert(r.outs_seq() == self@);
            assert(r@ =~= self@);
        }
        r
    }

    /// The front element together with the queue that remains, or `None`
    /// when the queue is empty. When the outgoing list is exhausted the
    /// incoming list is revolved first, so the front is always the oldest
    /// still-queued element.
    ///
    /// The remaining queue's incoming list is empty only on the revolve
    /// path, where everything pending really has been folded into the
    /// outgoing list. When the outgoing list already had a front, pending
    /// incoming elements are deliberately preserved rather than forced out:
    /// emptying the incoming list there would discard values enqueued since
    /// the last revolve.
    pub fn dequeue(&self) -> (r: Option<(T, Self)>)
        ensures
            self@.len() == 0 ==> r is None,
            self@.len() > 0 ==> (r matches Some(p) && p.0 == self@[0] && p.1@
                == self@.drop_first()),
            self@.len() > 0 && self.outs_seq().len() == 0 ==> (r matches Some(p)
                && p.1.ins_seq() == Seq::<T>::empty() && p.1.outs_seq() == self@.drop_first()),
            self.outs_seq().len() > 0 ==> (r matches Some(p) && p.1.ins_seq() == self.ins_seq()
                && p.1.outs_seq() == self.outs_seq().drop_first()),
    {
        let queue = if self.outs.is_empty() {
            self.revolve()
        } else {
            self.clone()
        };
        proof {
            assert(queue@ == self@);
            if self.outs_seq().len() > 0 {
                assert(self@[0] == self.outs_seq()[0]);
            }
        }
        match queue.outs.uncons() {
            Some((value, rest)) => {
                let r = Queue { ins: queue.ins.clone(), outs: rest };
                proof {
                    assert(r@ =~= queue@.drop_first());
                    if self.outs_seq().len() > 0 {
                        assert(queue@ =~= self.outs_seq() + self.ins_seq().reverse());
                        assert(rest@ =~= self.outs_seq().drop_first());
                    }
                }
                Some((value, r))
            },
            None => {
                proof {
                    assert(queue.outs_seq().len() == 0);
                    assert(self@.len() == 0);
                }
                None
            },
        }
    }

    /// The front element without removing it, or `None` when the queue is
    /// empty; based on the same revolved view as `dequeue`.
    pub fn peek(&self) -> (r: Option<T>)
        ensures
            self@.len() == 0 ==> r is None,
            self@.len() > 0 ==> r == Some(self@[0]),
    {
        let queue = if self.outs.is_empty() {
            self.revolve()
        } else {
            self.clone()
        };
        proof {
            assert(queue@ == self@);
            if self.outs_seq().len() > 0 {
                assert(self@[0] == self.outs_seq()[0]);
            }
        }
        queue.outs.head()
    }
}

impl<T: Copy + core::fmt::Debug> Queue<T> {
    /// The incoming list's rendering and the reversed outgoing list's
    /// rendering, each in brackets. The element order matches the dequeue
    /// order only when the queue is fully revolved: this is a debug aid, not
    /// a semantic guarantee. The empty queue renders as `"[_][_]"` exactly.
    pub fn into_string(&self) -> (r: String)
        ensures
            self.ins_seq().len() == 0 && self.outs_seq().len() == 0 ==> r@ == "[_][_]"@,
            r@.len() >= 1 && r@[r@.len() - 1] == ']',
            exists|a: Seq<char>, b: Seq<char>|
                r@ == "["@ + a + "]["@ + b + "]"@ && is_rendering(self.ins_seq(), a)
                    && is_rendering(self.outs_seq().reverse(), b),
    {
        let mut owned = "[".to_owned();
        let ins_part = self.ins.into_string();
        append_str(&mut owned, ins_part.as_str());
        append_str(&mut owned, "][");
        let outs_part = self.outs.reverse().into_string();
        append_str(&mut owned, outs_part.as_str());
        append_str(&mut owned, "]");
        proof {
            reveal_strlit("]");
            assert(owned@ =~= "["@ + ins_part@ + "]["@ + outs_part@ + "]"@);
            if self.ins_seq().len() == 0 && self.outs_seq().len() == 0 {
                reveal_strlit("[");
                reveal_strlit("][");
                reveal_strlit("_");
                reveal_strlit("[_][_]");
                assert(owned@ =~= "[_][_]"@);
            }
        }
        owned
    }
}

impl<T: PartialEq> Queue<T> {
    /// Structural equality: the incoming lists are equal and the outgoing
    /// lists are equal. This is stricter than equality of logical content:
    /// two queues holding the same dequeue sequence but split differently
    /// between the two lists (for example, one already revolved and one not)
    /// compare unequal.
    pub fn equals(&self, other: &Self) -> (r: bool)
        ensures
            obeys_concrete_eq::<T>() ==> (r <==> (self.ins_seq() == other.ins_seq()
                && self.outs_seq() == other.outs_seq())),
    {
        self.ins.equals(&other.ins) && self.outs.equals(&other.outs)
    }
}

impl<T: PartialEq> PartialEq for Queue<T> {
    fn eq(&self, other: &Self) -> (r: bool) {
        self.equals(other)
    }
}

impl<T: PartialEq> vstd::std_specs::cmp::PartialEqSpecImpl for Queue<T> {
    open spec fn obeys_eq_spec() -> bool {
        obeys_concrete_eq::<T>()
    }

    open spec fn eq_spec(&self, other: &Self) -> bool {
        self.ins_seq() == other.ins_seq() && self.outs_seq() == other.outs_seq()
    }
}

impl<T> View for Queue<T> {
    type V = Seq<T>;

    open spec fn view(&self) -> Seq<T> {
        self.outs_seq() + self.ins_seq().reverse()
    }
}

impl<T> Clone for Queue<T> {
    /// A clone shares all storage with, and is equal in value to, the
    /// original.
    fn clone(&self) -> (r: Self)
        ensures
            r == *self,
    {
        Queue { ins: self.ins.clone(), outs: self.outs.clone() }
    }
}

/// First-in-first-out ordering: appending a value at the back leaves the
/// front and the relative order of everything already queued unchanged, and
/// a value appended to an empty queue becomes the next to leave.
pub proof fn lemma_fifo_order<T>(s: Seq<T>, value: T)
    ensures
        s.push(value).len() == s.len() + 1,
        s.len() > 0 ==> s.push(value)[0] == s[0] && s.push(value).drop_first()
            == s.drop_first().push(value),
        s.len() == 0 ==> s.push(value)[0] == value,
{
    if s.len() > 0 {
        assert(s.push(value).drop_first() =~= s.drop_first().push(value));
    }
}

/// Revolve transparency: what `peek` and `dequeue` observe is a function of
/// the queue's logical content alone, never of how that content is split
/// between the incoming and outgoing lists. Two queues with equal content
/// agree on the front element and on the content that remains after it.
pub proof fn lemma_revolve_transparency<T>(a: Queue<T>, b: Queue<T>)
    requires
        a@ == b@,
    ensures
        a@.len() == b@.len(),
        a@.len() > 0 ==> a@[0] == b@[0] && a@.drop_first() == b@.drop_first(),
{
}

} // verus!
