use vstd::prelude::*;

verus! {

/// What a window of `capacity` slots shows after the elements of `pushed` were
/// pushed into it, oldest first: the last `capacity` of them, newest last, padded
/// at the front with `zero` while fewer than `capacity` were pushed.
pub open spec fn window_of<T>(zero: T, capacity: nat, pushed: Seq<T>) -> Seq<T> {
    Seq::new(
        capacity,
        |j: int|
            if pushed.len() - capacity + j >= 0 {
                pushed[pushed.len() - capacity + j]
            } else {
                zero
            },
    )
}

/// A window with its newest slot replaced by `zero`.
pub open spec fn masked<T>(slots: Seq<T>, zero: T) -> Seq<T> {
    if slots.len() > 0 {
        slots.update(slots.len() - 1, zero)
    } else {
        slots
    }
}

/// A window into which nothing was pushed holds `zero` in every slot.
pub proof fn lemma_window_of_nothing<T>(zero: T, capacity: nat)
    ensures
        window_of(zero, capacity, Seq::<T>::empty()) == Seq::new(capacity, |j: int| zero),
{
    assert(window_of(zero, capacity, Seq::<T>::empty()) =~= Seq::new(capacity, |j: int| zero));
}

/// One more push moves every slot one place to the front, drops the oldest slot
/// and puts the new element last.
pub proof fn lemma_window_of_push<T>(zero: T, capacity: nat, pushed: Seq<T>, element: T)
    requires
        capacity > 0,
    ensures
        window_of(zero, capacity, pushed.push(element)) == window_of(
            zero,
            capacity,
            pushed,
        ).drop_first().push(element),
{
    assert(window_of(zero, capacity, pushed.push(element)) =~= window_of(
        zero,
        capacity,
        pushed,
    ).drop_first().push(element));
}

/// While fewer elements were pushed than the window has slots, the slots in
/// front of them hold `zero`, and the pushed elements fill the back in order.
pub proof fn lemma_short_window_is_padded<T>(zero: T, capacity: nat, pushed: Seq<T>, j: int)
    requires
        pushed.len() < capacity,
        0 <= j < capacity,
    ensures
        j < capacity - pushed.len() ==> window_of(zero, capacity, pushed)[j] == zero,
        j >= capacity - pushed.len() ==> window_of(zero, capacity, pushed)[j] == pushed[j - (
        capacity - pushed.len())],
{
}

/// Once at least as many elements were pushed as the window has slots, the last
/// slot holds the element pushed last, and slot `j` holds the element pushed
/// `capacity - 1 - j` pushes before it.
pub proof fn lemma_full_window_is_recent<T>(zero: T, capacity: nat, pushed: Seq<T>, j: int)
    requires
        capacity > 0,
        pushed.len() >= capacity,
        0 <= j < capacity,
    ensures
        window_of(zero, capacity, pushed)[capacity - 1] == pushed.last(),
        window_of(zero, capacity, pushed)[j] == pushed[pushed.len() - 1 - (capacity - 1 - j)],
{
}

/// A masked window has `zero` in its last slot, whatever was there, and agrees
/// with the window in every other slot.
pub proof fn lemma_masked_slots<T>(slots: Seq<T>, zero: T, j: int)
    requires
        0 <= j < slots.len(),
    ensures
        masked(slots, zero).len() == slots.len(),
        masked(slots, zero)[slots.len() - 1] == zero,
        j < slots.len() - 1 ==> masked(slots, zero)[j] == slots[j],
{
}

/// A buffer of a fixed number of slots that keeps the elements pushed last,
/// oldest first.
pub struct RollingWindow<T: Copy> {
    slots: Vec<T>,
    zero: T,
    pushed: Ghost<Seq<T>>,
}

impl<T: Copy> RollingWindow<T> {
    /// The slots, oldest first.
    pub closed spec fn view(&self) -> Seq<T> {
        self.slots@
    }

    /// The element that pads and masks this window.
    pub closed spec fn zero(&self) -> T {
        self.zero
    }

    /// Every element pushed so far, oldest first.
    pub closed spec fn pushed(&self) -> Seq<T> {
        self.pushed@
    }

    /// A window has at least one slot, and its slots are what its pushes left.
    pub open spec fn wf(&self) -> bool {
        &&& self@.len() > 0
        &&& self@ == window_of(self.zero(), self@.len(), self.pushed())
    }

    /// What each slot of a window holds: slot `j` holds the element pushed
    /// `capacity - 1 - j` pushes before the last one, or `zero` if there were not
    /// that many pushes yet.  So the last slot holds the element pushed last.
    pub proof fn lemma_slot(&self, j: int)
        requires
            self.wf(),
            0 <= j < self@.len(),
        ensures
            ({
                let k = self.pushed().len() - 1 - (self@.len() - 1 - j);
                &&& k >= 0 ==> self@[j] == self.pushed()[k]
                &&& k < 0 ==> self@[j] == self.zero()
            }),
            self.pushed().len() > 0 ==> self@.last() == self.pushed().last(),
    {
    }

    /// A window of `capacity` slots, each holding `zero`.
    pub fn new(capacity: usize, zero: T) -> (window: Self)
        requires
            capacity > 0,
        ensures
            window.wf(),
            window.zero() == zero,
            window.pushed() == Seq::<T>::empty(),
            window@ == Seq::new(capacity as nat, |j: int| zero),
    {
        let mut slots: Vec<T> = Vec::new();
        let mut i: usize = 0;
        while i < capacity
            invariant
                i <= capacity,
                slots@ == Seq::new(i as nat, |j: int| zero),
            decreases capacity - i,
        {
            slots.push(zero);
            i = i + 1;
            assert(slots@ =~= Seq::new(i as nat, |j: int| zero));
        }
        proof {
            lemma_window_of_nothing(zero, capacity as nat);
        }
        RollingWindow { slots, zero, pushed: Ghost(Seq::empty()) }
    }

    /// The number of slots.
    pub fn capacity(&self) -> (capacity: usize)
        ensures
            capacity == self@.len(),
    {
        self.slots.len()
    }

    /// Moves every slot one place to the front, dropping the oldest, and writes
    /// `element` into the last slot.
    pub fn push(&mut self, element: T)
        requires
            old(self).wf(),
        ensures
            final(self).wf(),
            final(self)@ == old(self)@.drop_first().push(element),
            final(self)@.len() == old(self)@.len(),
            final(self)@.last() == element,
            final(self).pushed() == old(self).pushed().push(element),
            final(self).zero() == old(self).zero(),
    {
        proof {
            lemma_window_of_push(self.zero, self.slots@.len(), self.pushed@, element);
        }
        next_sequence(&mut self.slots, element);
        self.pushed = Ghost(self.pushed@.push(element));
    }

    /// An independent copy of the slots, oldest first.
    pub fn snapshot(&self) -> (out: Vec<T>)
        ensures
            out@ == self@,
    {
        copy_slots(&self.slots)
    }

    /// A copy of the slots with `zero` in place of the newest.
    pub fn masked_snapshot(&self) -> (out: Vec<T>)
        requires
            self.wf(),
        ensures
            out@ == masked(self@, self.zero()),
            out@.len() == self@.len(),
            out@.last() == self.zero(),
            forall|j: int| 0 <= j < self@.len() - 1 ==> out@[j] == self@[j],
    {
        masked_next(&self.slots, self.zero)
    }
}

/// Rotates `seq` one place to the front and overwrites its last slot with
/// `new_last_element`: the oldest element leaves, the others keep their order.
pub fn next_sequence<T>(seq: &mut Vec<T>, new_last_element: T)
    requires
        old(seq).len() > 0,
    ensures
        final(seq)@ == old(seq)@.drop_first().push(new_last_element),
        final(seq).len() == old(seq).len(),
{
    let _oldest: T = seq.remove(0);
    seq.push(new_last_element);
    assert(seq@ =~= old(seq)@.drop_first().push(new_last_element));
}

/// A copy of `seq` with `zero` in its last slot; `seq` itself is left as it is.
pub fn masked_next<T: Copy>(seq: &Vec<T>, zero: T) -> (out: Vec<T>)
    requires
        seq.len() > 0,
    ensures
        out@ == masked(seq@, zero),
        out.len() == seq.len(),
        out@.last() == zero,
        forall|j: int| 0 <= j < seq.len() - 1 ==> out@[j] == seq@[j],
{
    let mut out: Vec<T> = copy_slots(seq);
    let last: usize = out.len() - 1;
    out.set(last, zero);
    out
}

/// Copies a vector of plain values.
pub fn copy_slots<T: Copy>(slots: &Vec<T>) -> (out: Vec<T>)
    ensures
        out@ == slots@,
{
    let mut out: Vec<T> = Vec::new();
    let mut i: usize = 0;
    while i < slots.len()
        invariant
            i <= slots.len(),
            out@ == slots@.take(i as int),
        decreases slots.len() - i,
    {
        out.push(slots[i]);
        i = i + 1;
        assert(out@ =~= slots@.take(i as int));
    }
    assert(slots@.take(slots.len() as int) =~= slots@);
    out
}

/// What a window shows depends only on its size, its zero and what was pushed
/// into it.
pub proof fn lemma_same_pushes_same_slots<T: Copy>(a: RollingWindow<T>, b: RollingWindow<T>)
    requires
        a.wf(),
        b.wf(),
        a@.len() == b@.len(),
        a.zero() == b.zero(),
        a.pushed() == b.pushed(),
    ensures
        a@ == b@,
        masked(a@, a.zero()) == masked(b@, b.zero()),
{
}

/// Two snapshots of one window, with no push between them, are the same.
pub proof fn lemma_snapshot_repeats<T: Copy>(window: RollingWindow<T>, first: Vec<T>, second: Vec<T>)
    requires
        first@ == window@,
        second@ == window@,
    ensures
        first@ == second@,
{
}

} // verus!
