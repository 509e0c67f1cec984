use vstd::prelude::*;
use std::collections::VecDeque;

verus! {

/// The last `cap` items of `s` (all of them when there are no more).
pub open spec fn keep_last<T>(s: Seq<T>, cap: nat) -> Seq<T> {
    if s.len() > cap {
        s.skip(s.len() - cap)
    } else {
        s
    }
}

/// A queue that keeps only its newest `cap` items: pushing past the
/// capacity drops the oldest.
#[derive(Debug)]
pub struct BoundedQueue<T> {
    items: VecDeque<T>,
    cap: usize,
}

impl<T> View for BoundedQueue<T> {
    type V = Seq<T>;

    closed spec fn view(&self) -> Seq<T> {
        self.items@
    }
}

impl<T> BoundedQueue<T> {
    #[verifier::type_invariant]
    spec fn within_cap(self) -> bool {
        self.items@.len() <= self.cap
    }

    /// The most items the queue keeps.
    pub closed spec fn capacity(self) -> nat {
        self.cap as nat
    }

    /// An empty queue that keeps at most `cap` items.
    pub fn new(cap: usize) -> (q: BoundedQueue<T>)
        ensures
            q@ == Seq::<T>::empty(),
            q.capacity() == cap,
    {
        BoundedQueue { items: VecDeque::new(), cap }
    }

    /// The most items the queue keeps.
    pub fn cap(&self) -> (c: usize)
        ensures
            c == self.capacity(),
    {
        self.cap
    }

    pub fn len(&self) -> (n: usize)
        ensures
            n == self@.len(),
            n <= self.capacity(),
    {
        proof {
            use_type_invariant(self);
        }
        self.items.len()
    }

    /// The item at `i`, oldest first.
    pub fn get(&self, i: usize) -> (x: &T)
        requires
            i < self@.len(),
        ensures
            *x == self@[i as int],
    {
        &self.items[i]
    }

    /// The newest item, if any.
    pub fn back(&self) -> (x: Option<&T>)
        ensures
            self@.len() == 0 ==> x is None,
            self@.len() > 0 ==> x == Some(&self@.last()),
    {
        let n = self.items.len();
        if n == 0 {
            None
        } else {
            Some(&self.items[n - 1])
        }
    }

    /// Appends `item`, dropping the oldest items past the capacity.
    pub fn push(&mut self, item: T)
        ensures
            final(self)@ == keep_last(old(self)@.push(item), old(self).capacity()),
            final(self).capacity() == old(self).capacity(),
            final(self)@.len() <= final(self).capacity(),
    {
        proof {
            use_type_invariant(&*self);
        }
        let ghost all = self.items@.push(item);
        let mut items: VecDeque<T> = VecDeque::new();
        std::mem::swap(&mut items, &mut self.items);
        items.push_back(item);
        if items.len() > self.cap {
            items.pop_front();
            assert(items@ =~= all.skip(all.len() - self.cap));
        }
        self.items = items;
    }
}

/// Pushing onto a full queue keeps its length, and the pushed item is then
/// the newest one.
pub proof fn lemma_push_keeps_newest<T>(s: Seq<T>, cap: nat, x: T)
    requires
        s.len() <= cap,
        cap > 0,
    ensures
        keep_last(s.push(x), cap).len() == if s.len() == cap { cap } else { s.len() + 1 },
        keep_last(s.push(x), cap).last() == x,
{
}

} // verus!
