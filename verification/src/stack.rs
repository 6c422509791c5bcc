//! Fixed-capacity most-recently-added stack, the shape of every inventory
//! compartment: pushing inserts at the front and evicts the oldest entry,
//! removing shifts the tail left and opens a free slot at the end.

use vstd::prelude::*;

verus! {

/// A sequence of `cap` empty slots.
pub open spec fn empty_slots<T>(cap: nat) -> Seq<Option<T>> {
    Seq::new(cap, |i: int| None::<T>)
}

/// The slots after one push: the new value in front, the oldest slot gone.
pub open spec fn pushed_slots<T>(s: Seq<Option<T>>, v: T) -> Seq<Option<T>>
    recommends
        s.len() > 0,
{
    seq![Some(v)] + s.drop_last()
}

/// The slots after pushing every value of `vs` in order.
pub open spec fn pushed_all_slots<T>(s: Seq<Option<T>>, vs: Seq<T>) -> Seq<Option<T>>
    decreases vs.len(),
{
    if vs.len() == 0 {
        s
    } else {
        pushed_all_slots(pushed_slots(s, vs[0]), vs.drop_first())
    }
}

/// Fixed-capacity ring of `Option` slots. The capacity is chosen at
/// construction and never changes; the newest entry sits at index 0.
pub struct Stack<T: Copy> {
    slots: Vec<Option<T>>,
}

impl<T: Copy> Stack<T> {
    /// The slots in order, newest first.
    pub closed spec fn view(&self) -> Seq<Option<T>> {
        self.slots@
    }

    /// An empty stack of `capacity` slots.
    pub fn new(capacity: usize) -> (r: Stack<T>)
        ensures
            r@ == empty_slots::<T>(capacity as nat),
    {
        let mut slots: Vec<Option<T>> = Vec::new();
        let mut i: usize = 0;
        while i < capacity
            invariant
                i <= capacity,
                slots@ =~= empty_slots::<T>(i as nat),
            decreases capacity - i,
        {
            slots.push(None);
            assert(slots@ =~= empty_slots::<T>((i + 1) as nat));
            i = i + 1;
        }
        Stack { slots }
    }

    /// How many slots the stack has (filled or not).
    pub fn capacity(&self) -> (r: usize)
        ensures
            r == self@.len(),
    {
        self.slots.len()
    }

    /// The slot at `position`: `None` when nothing is stored there.
    pub fn index(&self, position: usize) -> (r: Option<T>)
        requires
            position < self@.len(),
        ensures
            r == self@[position as int],
    {
        self.slots[position]
    }

    /// A copy of all slots in order, newest entry first.
    pub fn iter(&self) -> (r: Vec<Option<T>>)
        ensures
            r@ == self@,
    {
        let mut out: Vec<Option<T>> = Vec::new();
        let mut i: usize = 0;
        while i < self.slots.len()
            invariant
                i <= self.slots.len(),
                out@ =~= self.slots@.take(i as int),
            decreases self.slots.len() - i,
        {
            out.push(self.slots[i]);
            assert(out@ =~= self.slots@.take(i as int + 1));
            i = i + 1;
        }
        assert(out@ =~= self.slots@);
        out
    }

    /// Inserts `item` in front; every other entry moves one slot towards the
    /// tail and the oldest entry is evicted.
    pub fn push(&mut self, item: T)
        requires
            old(self)@.len() > 0,
        ensures
            final(self)@ == pushed_slots(old(self)@, item),
    {
        self.slots.insert(0, Some(item));
        self.slots.pop();
        assert(final(self)@ =~= pushed_slots(old(self)@, item));
    }

    /// Empties the slot at `position`: entries behind it move one slot
    /// forward and the tail slot becomes free.
    pub fn remove(&mut self, position: usize)
        requires
            position < old(self)@.len(),
        ensures
            final(self)@ == old(self)@.remove(position as int) + seq![None::<T>],
    {
        self.slots.remove(position);
        self.slots.push(None);
        assert(final(self)@ =~= old(self)@.remove(position as int) + seq![None::<T>]);
    }
}

/// How a run of pushes reads back: position `i` holds the `i`-th most recent
/// value while those last, and behind them the earlier slots, shifted back.
pub proof fn lemma_pushed_all_slots<T>(s: Seq<Option<T>>, vs: Seq<T>)
    requires
        s.len() > 0,
    ensures
        pushed_all_slots(s, vs).len() == s.len(),
        forall|i: int|
            0 <= i < s.len() ==> #[trigger] pushed_all_slots(s, vs)[i] == if i < vs.len() {
                Some(vs[vs.len() - 1 - i])
            } else {
                s[i - vs.len()]
            },
    decreases vs.len(),
{
    if vs.len() == 0 {
    } else {
        let stepped = pushed_slots(s, vs[0]);
        lemma_pushed_all_slots(stepped, vs.drop_first());
        assert forall|i: int| 0 <= i < s.len() implies #[trigger] pushed_all_slots(s, vs)[i]
            == if i < vs.len() {
                Some(vs[vs.len() - 1 - i])
            } else {
                s[i - vs.len()]
            } by {
            let rest = vs.drop_first();
            assert(pushed_all_slots(s, vs) == pushed_all_slots(stepped, rest));
            if i < rest.len() {
                assert(rest[rest.len() - 1 - i] == vs[vs.len() - 1 - i]);
            } else if i == rest.len() {
                assert(stepped[0] == Some(vs[0]));
            } else {
                assert(stepped[i - rest.len()] == s.drop_last()[i - rest.len() - 1]);
            }
        }
    }
}

/// Law of eviction: after pushing at least as many values as the stack has
/// slots, the stack holds exactly the most recent `capacity` values, newest
/// first; everything older has been evicted.
pub proof fn lemma_push_overflow_keeps_recent<T>(s: Seq<Option<T>>, vs: Seq<T>)
    requires
        s.len() > 0,
        vs.len() >= s.len(),
    ensures
        pushed_all_slots(s, vs) == Seq::new(s.len(), |i: int| Some(vs[vs.len() - 1 - i])),
{
    lemma_pushed_all_slots(s, vs);
    assert(pushed_all_slots(s, vs) =~= Seq::new(s.len(), |i: int| Some(vs[vs.len() - 1 - i])));
}

} // verus!
