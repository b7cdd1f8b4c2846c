use vstd::prelude::*;

verus! {

/// A queue of bounded capacity kept in a ring buffer: items can be added and removed at both
/// ends.
pub struct Fifo<T> {
    data: Vec<Option<T>>,
    capacity: usize,
    front: usize,
    len: usize,
}

/// The slot of the ring buffer at position `index` counted from slot 0, wrapping once.
pub open spec fn wrapped(index: int, capacity: int) -> int {
    if index < capacity {
        index
    } else {
        index - capacity
    }
}

impl<T: Copy> Fifo<T> {
    /// The queued items, front first.
    pub closed spec fn view(self) -> Seq<T> {
        Seq::new(
            self.len as nat,
            |i: int| self.data@[wrapped(self.front + i, self.capacity as int)].unwrap(),
        )
    }

    /// The number of items the queue holds at most.
    pub closed spec fn max_len(self) -> nat {
        self.capacity as nat
    }

    pub closed spec fn wf(self) -> bool {
        &&& self.data@.len() == self.capacity
        &&& self.capacity <= isize::MAX
        &&& self.len <= self.capacity
        &&& self.capacity > 0 ==> self.front < self.capacity
        &&& self.capacity == 0 ==> self.front == 0
        &&& forall|i: int|
            0 <= i < self.len ==> (#[trigger] self.data@[wrapped(
                self.front + i,
                self.capacity as int,
            )]) is Some
    }

    /// An empty queue that holds up to `capacity` items.
    pub fn with_capacity(capacity: usize) -> (r: Fifo<T>)
        requires
            capacity <= isize::MAX,
        ensures
            r.wf(),
            r.view() == Seq::<T>::empty(),
            r.max_len() == capacity,
    {
        let mut data: Vec<Option<T>> = Vec::new();
        let mut i: usize = 0;
        while i < capacity
            invariant
                i <= capacity,
                data@.len() == i,
            decreases capacity - i,
        {
            data.push(None);
            i += 1;
        }
        let r = Fifo { data, capacity, front: 0, len: 0 };
        assert(r.view() =~= Seq::<T>::empty());
        r
    }

    pub fn is_empty(&self) -> (r: bool)
        requires
            self.wf(),
        ensures
            r == (self.view().len() == 0),
    {
        self.len == 0
    }

    pub fn len(&self) -> (r: usize)
        requires
            self.wf(),
        ensures
            r == self.view().len(),
    {
        self.len
    }

    fn wrap_index(&self, index: usize) -> (r: usize)
        requires
            self.wf(),
            index < 2 * self.capacity,
        ensures
            r == wrapped(index as int, self.capacity as int),
            r < self.capacity,
    {
        if index < self.capacity {
            index
        } else {
            index - self.capacity
        }
    }

    pub fn capacity(&self) -> (r: usize)
        requires
            self.wf(),
        ensures
            r == self.max_len(),
    {
        self.capacity
    }

    pub fn is_full(&self) -> (r: bool)
        requires
            self.wf(),
        ensures
            r == (self.view().len() == self.max_len()),
    {
        self.len == self.capacity
    }

    /// Adds `value` at the back.
    pub fn push_back(&mut self, value: T)
        requires
            old(self).wf(),
            old(self).view().len() < old(self).max_len(),
        ensures
            final(self).wf(),
            final(self).max_len() == old(self).max_len(),
            final(self).view() == old(self).view().push(value),
    {
        let index = self.wrap_index(self.front + self.len);
        self.data.set(index, Some(value));
        self.len += 1;
        assert forall|i: int| 0 <= i < self.len implies (#[trigger] self.data@[wrapped(
            self.front + i,
            self.capacity as int,
        )]) is Some by {
            if i < self.len - 1 {
                assert(old(self).data@[wrapped(self.front + i, self.capacity as int)] is Some);
            }
        }
        assert(self.view() =~= old(self).view().push(value));
    }

    /// Adds `value` at the front.
    pub fn push_front(&mut self, value: T)
        requires
            old(self).wf(),
            old(self).view().len() < old(self).max_len(),
        ensures
            final(self).wf(),
            final(self).max_len() == old(self).max_len(),
            final(self).view() == seq![value] + old(self).view(),
    {
        self.len += 1;
        self.front = if self.front == 0 {
            self.capacity - 1
        } else {
            self.front - 1
        };
        self.data.set(self.front, Some(value));
        assert forall|i: int| 0 <= i < self.len implies (#[trigger] self.data@[wrapped(
            self.front + i,
            self.capacity as int,
        )]) is Some by {
            if i > 0 {
                assert(old(self).data@[wrapped(old(self).front + (i - 1), self.capacity as int)]
                    is Some);
            }
        }
        assert forall|i: int| 0 <= i < self.len implies #[trigger] self.view()[i] == (seq![value]
            + old(self).view())[i] by {
            if i > 0 {
                assert(wrapped(self.front + i, self.capacity as int) == wrapped(
                    old(self).front + (i - 1),
                    self.capacity as int,
                ));
            }
        }
        assert(self.view() =~= seq![value] + old(self).view());
    }

    /// Removes and returns the item at the back, or gives `None` when the queue is empty.
    pub fn pop_back(&mut self) -> (r: Option<T>)
        requires
            old(self).wf(),
        ensures
            final(self).wf(),
            final(self).max_len() == old(self).max_len(),
            old(self).view().len() == 0 ==> r is None && final(self).view() == old(self).view(),
            old(self).view().len() > 0 ==> r == Some(old(self).view().last())
                && final(self).view() == old(self).view().drop_last(),
    {
        if self.len == 0 {
            return None;
        }
        self.len -= 1;
        let index = self.wrap_index(self.front + self.len);
        let value = self.data[index];
        assert(value == Some(old(self).view().last()));
        assert(self.view() =~= old(self).view().drop_last());
        value
    }

    /// Removes and returns the item at the front, or gives `None` when the queue is empty.
    pub fn pop_front(&mut self) -> (r: Option<T>)
        requires
            old(self).wf(),
        ensures
            final(self).wf(),
            final(self).max_len() == old(self).max_len(),
            old(self).view().len() == 0 ==> r is None && final(self).view() == old(self).view(),
            old(self).view().len() > 0 ==> r == Some(old(self).view()[0])
                && final(self).view() == old(self).view().drop_first(),
    {
        if self.len == 0 {
            return None;
        }
        self.len -= 1;
        assert(wrapped(self.front + 0, self.capacity as int) == self.front);
        let value = self.data[self.front];
        self.front = self.wrap_index(self.front + 1);
        assert forall|i: int| 0 <= i < self.len implies (#[trigger] self.data@[wrapped(
            self.front + i,
            self.capacity as int,
        )]) is Some by {
            assert(wrapped(self.front + i, self.capacity as int) == wrapped(
                old(self).front + (i + 1),
                self.capacity as int,
            ));
        }
        assert forall|i: int| 0 <= i < self.len implies #[trigger] self.view()[i] == old(
            self,
        ).view().drop_first()[i] by {
            assert(wrapped(self.front + i, self.capacity as int) == wrapped(
                old(self).front + (i + 1),
                self.capacity as int,
            ));
        }
        assert(self.view() =~= old(self).view().drop_first());
        value
    }

    /// A well-formed queue holds at most `max_len` items.
    pub proof fn lemma_len_bound(self)
        requires
            self.wf(),
        ensures
            self.view().len() <= self.max_len(),
    {
    }

    /// Removes every item.
    pub fn clear(&mut self)
        requires
            old(self).wf(),
        ensures
            final(self).wf(),
            final(self).max_len() == old(self).max_len(),
            final(self).view() == Seq::<T>::empty(),
    {
        self.len = 0;
        self.front = 0;
        assert(self.view() =~= Seq::<T>::empty());
    }

    /// The item at the front, if any.
    pub fn front(&self) -> (r: Option<T>)
        requires
            self.wf(),
        ensures
            self.view().len() == 0 ==> r is None,
            self.view().len() > 0 ==> r == Some(self.view()[0]),
    {
        if self.len == 0 {
            None
        } else {
            Some(self.index(0))
        }
    }

    /// The item at position `index` from the front.
    pub fn index(&self, index: usize) -> (r: T)
        requires
            self.wf(),
            index < self.view().len(),
        ensures
            r == self.view()[index as int],
    {
        let slot = self.wrap_index(self.front + index);
        self.data[slot].unwrap()
    }

    /// Replaces the item at position `index` from the front by `value`.
    pub fn set(&mut self, index: usize, value: T)
        requires
            old(self).wf(),
            index < old(self).view().len(),
        ensures
            final(self).wf(),
            final(self).max_len() == old(self).max_len(),
            final(self).view() == old(self).view().update(index as int, value),
    {
        let slot = self.wrap_index(self.front + index);
        self.data.set(slot, Some(value));
        proof {
            assert forall|i: int| 0 <= i < self.len implies (#[trigger] self.data@[wrapped(
                self.front + i,
                self.capacity as int,
            )]) is Some by {}
            assert(self.view() =~= old(self).view().update(index as int, value));
        }
    }

    /// The items, front first.
    pub fn iter(&self) -> (r: Vec<T>)
        requires
            self.wf(),
        ensures
            r@ == self.view(),
    {
        let mut result: Vec<T> = Vec::new();
        let mut i: usize = 0;
        while i < self.len
            invariant
                self.wf(),
                i <= self.len,
                result@ == self.view().take(i as int),
            decreases self.len - i,
        {
            result.push(self.index(i));
            i += 1;
            assert(result@ =~= self.view().take(i as int));
        }
        assert(self.view().take(self.len as int) =~= self.view());
        result
    }
}

/// Items leave a queue in the order they entered it: pushing `value` at the back of a queue
/// that is not full and popping everything from the front yields the old items, then `value`.
pub proof fn law_fifo_order<T>(items: Seq<T>, value: T)
    ensures
        items.push(value).take(items.len() as int) == items,
        items.push(value)[items.len() as int] == value,
        (seq![value] + items).drop_first() == items,
        items.push(value).drop_last() == items,
{
    assert(items.push(value).take(items.len() as int) =~= items);
    assert((seq![value] + items).drop_first() =~= items);
    assert(items.push(value).drop_last() =~= items);
}

} // verus!
