use std::collections::VecDeque;
use vstd::prelude::*;

verus! {

/// A first-in, first-out log that keeps at most `capacity` entries and counts
/// every push ever made.
///
/// The view of a log is the sequence of retained entries, oldest first.
pub struct Memory<T> {
    capacity: usize,
    count: usize,
    data: VecDeque<T>,
}

impl<T> View for Memory<T> {
    type V = Seq<T>;

    closed spec fn view(&self) -> Seq<T> {
        self.data@
    }
}

/// The last `capacity` entries of `values`, or all of them if there are fewer.
pub open spec fn newest<T>(values: Seq<T>, capacity: nat) -> Seq<T> {
    if values.len() <= capacity {
        values
    } else {
        values.subrange(values.len() - capacity, values.len() as int)
    }
}

/// The entries a log of the given capacity retains after `value` is pushed onto
/// the entries `retained`: the newest of them all, as many as the capacity
/// allows. A log of capacity zero retains nothing.
pub open spec fn retained_after_push<T>(retained: Seq<T>, capacity: nat, value: T) -> Seq<T> {
    newest(retained.push(value), capacity)
}

/// The entry that leaves a log of the given capacity when `value` is pushed:
/// the oldest of them all, if together they are more than the capacity allows.
/// From a log of capacity zero that is the value pushed.
pub open spec fn evicted_by_push<T>(retained: Seq<T>, capacity: nat, value: T) -> Option<T> {
    if retained.len() + 1 > capacity {
        Some(retained.push(value)[0])
    } else {
        None
    }
}

/// The entries retained after every entry of `values` is pushed in order.
pub open spec fn retained_after_pushes<T>(retained: Seq<T>, capacity: nat, values: Seq<T>) -> Seq<
    T,
>
    decreases values.len(),
{
    if values.len() == 0 {
        retained
    } else {
        retained_after_push(
            retained_after_pushes(retained, capacity, values.drop_last()),
            capacity,
            values.last(),
        )
    }
}

/// Taking the newest entries twice, with one more entry in between, is the same
/// as taking them once at the end.
proof fn lemma_newest_of_newest<T>(values: Seq<T>, capacity: nat, value: T)
    ensures
        newest(newest(values, capacity).push(value), capacity) == newest(
            values.push(value),
            capacity,
        ),
{
    assert(newest(newest(values, capacity).push(value), capacity) =~= newest(
        values.push(value),
        capacity,
    ));
}

/// Any run of pushes onto an empty log retains exactly the newest `capacity`
/// entries pushed, in the order they were pushed, and never more than the
/// capacity, whatever the capacity is.
pub proof fn lemma_pushes_keep_newest<T>(capacity: nat, values: Seq<T>)
    ensures
        retained_after_pushes(Seq::<T>::empty(), capacity, values) == newest(values, capacity),
        retained_after_pushes(Seq::<T>::empty(), capacity, values).len() == if values.len()
            <= capacity {
            values.len()
        } else {
            capacity
        },
    decreases values.len(),
{
    if values.len() == 0 {
        assert(newest(values, capacity) =~= Seq::<T>::empty());
    } else {
        let earlier = values.drop_last();
        lemma_pushes_keep_newest(capacity, earlier);
        lemma_newest_of_newest(earlier, capacity, values.last());
        assert(earlier.push(values.last()) =~= values);
    }
}

/// One push more than the capacity drops the first entry pushed and nothing else.
pub proof fn lemma_overfull_by_one<T>(capacity: nat, values: Seq<T>)
    requires
        values.len() == capacity + 1,
    ensures
        retained_after_pushes(Seq::<T>::empty(), capacity, values) == values.subrange(
            1,
            values.len() as int,
        ),
        retained_after_pushes(Seq::<T>::empty(), capacity, values).len() == capacity,
{
    lemma_pushes_keep_newest(capacity, values);
}

impl<T> Memory<T> {
    /// The capacity the log was made with.
    pub closed spec fn capacity(&self) -> nat {
        self.capacity as nat
    }

    /// The number of pushes made over the log's lifetime.
    pub closed spec fn pushes(&self) -> nat {
        self.count as nat
    }

    /// The log holds no more than its capacity, and no more than was pushed.
    /// Every log does.
    #[verifier::type_invariant]
    pub open spec fn wf(&self) -> bool {
        &&& self@.len() <= self.capacity()
        &&& self@.len() <= self.pushes()
    }

    /// An empty log that keeps at most `capacity` entries.
    pub fn new(capacity: usize) -> (log: Self)
        ensures
            log@ == Seq::<T>::empty(),
            log.capacity() == capacity,
            log.pushes() == 0,
            log.wf(),
    {
        Self { capacity, count: 0, data: VecDeque::new() }
    }

    /// Appends `value`, first evicting the oldest entry if the log is full.
    /// Returns the evicted entry. A log of capacity zero evicts the value
    /// itself and stays empty; the push is counted all the same.
    pub fn push(&mut self, value: T) -> (evicted: Option<T>)
        requires
            old(self).pushes() < usize::MAX,
        ensures
            final(self)@ == retained_after_push(old(self)@, old(self).capacity(), value),
            evicted == evicted_by_push(old(self)@, old(self).capacity(), value),
            final(self).pushes() == old(self).pushes() + 1,
            final(self).capacity() == old(self).capacity(),
            final(self)@.len() <= final(self).capacity(),
            final(self).wf(),
    {
        proof {
            use_type_invariant(&*self);
        }
        self.count += 1;
        if self.capacity == 0 {
            assert(self.data@ =~= retained_after_push(self.data@, 0, value));
            return Some(value);
        }
        // The entries are taken out while they change, so that the log holds no
        // more than its capacity at every step.
        let mut data = VecDeque::new();
        std::mem::swap(&mut self.data, &mut data);
        let mut result = None;
        if data.len() == self.capacity {
            result = data.pop_front();
        }
        data.push_back(value);
        assert(data@ =~= retained_after_push(old(self).data@, self.capacity as nat, value));
        std::mem::swap(&mut self.data, &mut data);
        result
    }

    /// The entry at `index`, counted from the oldest retained, if there is one.
    pub fn get(&self, index: usize) -> (entry: Option<&T>)
        ensures
            index < self@.len() ==> entry == Some(&self@[index as int]),
            index >= self@.len() ==> entry.is_none(),
    {
        if index < self.data.len() {
            Some(&self.data[index])
        } else {
            None
        }
    }

    /// The number of entries retained; never more than the capacity.
    pub fn len(&self) -> (n: usize)
        ensures
            n == self@.len(),
            n <= self.capacity(),
    {
        proof {
            use_type_invariant(self);
        }
        self.data.len()
    }

    /// Whether no entry is retained.
    pub fn is_empty(&self) -> (empty: bool)
        ensures
            empty == (self@.len() == 0),
    {
        self.data.len() == 0
    }

    /// The number of pushes made over the log's lifetime, evicted entries included.
    pub fn count(&self) -> (n: usize)
        ensures
            n == self.pushes(),
    {
        self.count
    }
}

impl<T> vstd::std_specs::core::IndexSpecImpl<usize> for Memory<T> {
    /// Only a retained entry can be indexed.
    open spec fn index_req(&self, index: &usize) -> bool {
        *index < self@.len()
    }
}

impl<T> std::ops::Index<usize> for Memory<T> {
    type Output = T;

    /// The entry at `index`, counted from the oldest retained.
    fn index(&self, index: usize) -> (entry: &T)
        ensures
            *entry == self@[index as int],
    {
        &self.data[index]
    }
}

} // verus!
