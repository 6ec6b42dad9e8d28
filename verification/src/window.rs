//! A strict sliding window: a bounded queue that forgets its oldest item
//! when a new one arrives at a full window.

use std::collections::VecDeque;
use vstd::prelude::*;

verus! {

/// The newest `limit` items of `items`, oldest first; all of them where
/// there are no more than `limit`.
pub open spec fn newest<T>(items: Seq<T>, limit: nat) -> Seq<T> {
    if items.len() <= limit {
        items
    } else {
        items.subrange(items.len() - limit, items.len() as int)
    }
}

/// What a window of limit `limit` that held `start` holds after the items
/// of `values` were pushed one by one, first to last.
pub open spec fn after_pushes<T>(start: Seq<T>, values: Seq<T>, limit: nat) -> Seq<T>
    decreases values.len(),
{
    if values.len() == 0 {
        start
    } else {
        newest(after_pushes(start, values.drop_last(), limit).push(values.last()), limit)
    }
}

/// Pushing onto what was already cut to the limit, and cutting again, is
/// the same as pushing first and cutting once.
pub proof fn newest_of_push<T>(items: Seq<T>, value: T, limit: nat)
    ensures
        newest(newest(items, limit).push(value), limit) == newest(items.push(value), limit),
{
    assert(newest(newest(items, limit).push(value), limit) =~= newest(items.push(value), limit));
}

/// A window never holds more than its limit: after any run of pushes onto
/// a window within its limit it holds the newest `limit` items of all that
/// it was given, in the order of their arrival. From an empty window that
/// is as many items as were pushed, or `limit` if more were.
pub proof fn pushes_keep_newest<T>(start: Seq<T>, values: Seq<T>, limit: nat)
    requires
        start.len() <= limit,
    ensures
        after_pushes(start, values, limit) == newest(start + values, limit),
        after_pushes(start, values, limit).len() <= limit,
        start.len() == 0 ==> after_pushes(start, values, limit) == newest(values, limit),
        start.len() == 0 ==> after_pushes(start, values, limit).len() == if values.len() <= limit {
            values.len()
        } else {
            limit
        },
    decreases values.len(),
{
    if values.len() == 0 {
        assert(start + values =~= start);
    } else {
        let front = values.drop_last();
        pushes_keep_newest(start, front, limit);
        newest_of_push(start + front, values.last(), limit);
        assert((start + front).push(values.last()) =~= start + values);
    }
    if start.len() == 0 {
        assert(start + values =~= values);
    }
}

/// A bounded first-in, first-out store of samples.
pub struct RollingWindow<T> {
    samples: VecDeque<T>,
    capacity: usize,
}

impl<T> View for RollingWindow<T> {
    type V = Seq<T>;

    /// The samples held, oldest first.
    closed spec fn view(&self) -> Seq<T> {
        self.samples@
    }
}

impl<T> RollingWindow<T> {
    #[verifier::type_invariant]
    spec fn within_limit(&self) -> bool {
        self.samples@.len() <= self.capacity
    }

    /// The most samples the window keeps.
    pub closed spec fn limit(&self) -> nat {
        self.capacity as nat
    }

    /// An empty window that keeps at most `capacity` samples.
    pub fn new(capacity: usize) -> (window: Self)
        ensures
            window@ == Seq::<T>::empty(),
            window.limit() == capacity,
    {
        RollingWindow { samples: VecDeque::new(), capacity }
    }

    pub fn capacity(&self) -> (capacity: usize)
        ensures
            capacity == self.limit(),
    {
        self.capacity
    }

    pub fn len(&self) -> (len: usize)
        ensures
            len == self@.len(),
            len <= self.limit(),
    {
        proof {
            use_type_invariant(self);
        }
        self.samples.len()
    }

    pub fn is_empty(&self) -> (empty: bool)
        ensures
            empty == (self@.len() == 0),
    {
        self.samples.len() == 0
    }

    /// Adds `value` as the newest sample. A full window first drops its
    /// oldest; a window of limit zero keeps nothing.
    pub fn push(&mut self, value: T)
        ensures
            final(self)@ == newest(old(self)@.push(value), old(self).limit()),
            final(self)@.len() <= final(self).limit(),
            final(self).limit() == old(self).limit(),
    {
        proof {
            use_type_invariant(&*self);
        }
        if self.capacity == 0 {
            assert(self@ =~= newest(self@.push(value), 0));
            return ;
        }
        let mut samples: VecDeque<T> = VecDeque::new();
        std::mem::swap(&mut samples, &mut self.samples);
        let ghost before = samples@;
        if samples.len() == self.capacity {
            let _ = samples.pop_front();
        }
        samples.push_back(value);
        assert(samples@ =~= newest(before.push(value), self.capacity as nat));
        self.samples = samples;
    }

    /// The sample at `index`, counted from the oldest.
    pub fn get(&self, index: usize) -> (sample: Option<&T>)
        ensures
            index < self@.len() ==> sample == Some(&self@[index as int]),
            index >= self@.len() ==> sample is None,
    {
        if index < self.samples.len() {
            Some(&self.samples[index])
        } else {
            None
        }
    }

    /// The newest sample.
    pub fn back(&self) -> (sample: Option<&T>)
        ensures
            self@.len() > 0 ==> sample == Some(&self@.last()),
            self@.len() == 0 ==> sample is None,
    {
        let len: usize = self.samples.len();
        if len > 0 {
            Some(&self.samples[len - 1])
        } else {
            None
        }
    }
}

impl<T: Copy> RollingWindow<T> {
    /// The newest `count` samples, oldest first; all of them where the
    /// window holds no more than `count`.
    pub fn newest_samples(&self, count: usize) -> (samples: Vec<T>)
        ensures
            samples@ == newest(self@, count as nat),
    {
        let len: usize = self.samples.len();
        let start: usize = if len <= count {
            0
        } else {
            len - count
        };
        let mut samples: Vec<T> = Vec::new();
        let mut index: usize = start;
        while index < len
            invariant
                len == self.samples@.len(),
                start <= index <= len,
                samples@ == self.samples@.subrange(start as int, index as int),
            decreases len - index,
        {
            samples.push(self.samples[index]);
            index = index + 1;
            assert(samples@ =~= self.samples@.subrange(start as int, index as int));
        }
        assert(samples@ =~= newest(self@, count as nat));
        samples
    }

    /// Adds the items of `values` one by one, first to last. The window
    /// then holds the newest of what it held and what it was given.
    pub fn push_all(&mut self, values: &Vec<T>)
        ensures
            final(self)@ == newest(old(self)@ + values@, old(self).limit()),
            final(self)@.len() <= final(self).limit(),
            final(self).limit() == old(self).limit(),
    {
        let ghost start = self@;
        let ghost limit = self.limit();
        let _ = self.len();
        let mut index: usize = 0;
        proof {
            assert(values@.subrange(0, 0) =~= Seq::<T>::empty());
        }
        while index < values.len()
            invariant
                index <= values@.len(),
                start.len() <= limit,
                self.limit() == limit,
                self@.len() <= limit,
                self@ == after_pushes(start, values@.subrange(0, index as int), limit),
            decreases values@.len() - index,
        {
            self.push(values[index]);
            proof {
                let taken = values@.subrange(0, index as int + 1);
                assert(taken.drop_last() =~= values@.subrange(0, index as int));
                assert(taken.last() == values@[index as int]);
            }
            index = index + 1;
        }
        proof {
            assert(values@.subrange(0, index as int) =~= values@);
            pushes_keep_newest(start, values@, limit);
        }
    }

    /// All samples held, oldest first.
    pub fn to_vec(&self) -> (samples: Vec<T>)
        ensures
            samples@ == self@,
    {
        let len: usize = self.samples.len();
        self.newest_samples(len)
    }
}

} // verus!
