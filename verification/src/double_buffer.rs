//! The double-buffer container: two copies of a value plus a selector.

use vstd::prelude::*;

verus! {

broadcast use vstd::array::group_array_axioms;

/// Two copies of a value of type `T` together with a selector marking which
/// copy is current. The copy opposite the selector is the staging ("next")
/// copy.
///
/// The selector is meant to stay within `{0, 1}` ([`DoubleBuffer::wf`]).
/// `set_index` deliberately performs no validation, so the accessors that
/// index by the selector require [`DoubleBuffer::wf`] instead of panicking
/// on an out-of-range selector.
#[derive(Debug)]
pub struct DoubleBuffer<T> {
    buffer: [T; 2],
    index: u8,
}

impl<T> DoubleBuffer<T> {
    /// The two stored copies, in physical order, as a sequence of length 2.
    pub closed spec fn slots(&self) -> Seq<T> {
        self.buffer@
    }

    /// The stored selector.
    pub closed spec fn sel(&self) -> u8 {
        self.index
    }

    /// The selector designates one of the two physical positions.
    pub open spec fn wf(&self) -> bool {
        self.sel() == 0 || self.sel() == 1
    }

    /// The copy the selector designates.
    pub open spec fn spec_current(&self) -> T
        recommends
            self.wf(),
    {
        self.slots()[self.sel() as int]
    }

    /// The copy opposite the selector.
    pub open spec fn spec_next(&self) -> T
        recommends
            self.wf(),
    {
        self.slots()[1 - self.sel() as int]
    }

    /// Construct a buffer manually from two copies and a selector.
    ///
    /// The selector is stored as given; only a selector within `{0, 1}`
    /// yields a well-formed buffer.
    pub fn from_buffer(buffer: [T; 2], index: u8) -> (result: Self)
        ensures
            result.slots() == buffer@,
            result.sel() == index,
    {
        DoubleBuffer { buffer, index }
    }

    /// Read the stored selector.
    pub fn index(&self) -> (result: u8)
        ensures
            result == self.sel(),
    {
        self.index
    }

    /// Overwrite the selector without validation.
    ///
    /// A value outside `{0, 1}` leaves the buffer ill-formed: the indexing
    /// accessors then refuse it (their callers must re-establish
    /// [`DoubleBuffer::wf`] first).
    pub fn set_index(&mut self, value: u8)
        ensures
            final(self).sel() == value,
            final(self).slots() == old(self).slots(),
    {
        self.index = value;
    }

    /// Borrow the underlying two-slot storage for reading.
    pub fn buffer(&self) -> (result: &[T; 2])
        ensures
            result@ == self.slots(),
    {
        &self.buffer
    }

    /// Borrow the underlying two-slot storage for mutation. The selector is
    /// untouched; the slots afterwards hold whatever the caller wrote through
    /// the returned reference.
    pub fn buffer_mut(&mut self) -> (result: &mut [T; 2])
        ensures
            (*result)@ == old(self).slots(),
            final(self).slots() == final(result)@,
            final(self).sel() == old(self).sel(),
    {
        &mut self.buffer
    }

    /// Read the copy the selector designates.
    pub fn current(&self) -> (result: &T)
        requires
            self.wf(),
        ensures
            *result == self.spec_current(),
    {
        &self.buffer[self.index as usize]
    }

    /// Read the copy opposite the selector.
    pub fn next(&self) -> (result: &T)
        requires
            self.wf(),
        ensures
            *result == self.spec_next(),
    {
        &self.buffer[1 - self.index as usize]
    }

    /// Read both copies at once, in physical order, independent of the
    /// selector.
    pub fn split(&self) -> (result: (&T, &T))
        ensures
            *result.0 == self.slots()[0],
            *result.1 == self.slots()[1],
    {
        (&self.buffer[0], &self.buffer[1])
    }

    /// Borrow both copies mutably at once, in physical order, independent of
    /// the selector. The two references are disjoint by construction: each
    /// borrows its own slot of the underlying storage.
    pub fn split_mut(&mut self) -> (result: (&mut T, &mut T))
        ensures
            *result.0 == old(self).slots()[0],
            *result.1 == old(self).slots()[1],
            final(self).sel() == old(self).sel(),
            final(self).slots() == seq![*final(result.0), *final(result.1)],
    {
        let (first, second) = self.buffer.split_at_mut(1);
        (first.first_mut().unwrap(), second.first_mut().unwrap())
    }

    /// Borrow the copy the selector designates mutably. The opposite copy and
    /// the selector are untouched.
    pub fn current_mut(&mut self) -> (result: &mut T)
        requires
            old(self).wf(),
        ensures
            *result == old(self).spec_current(),
            final(self).sel() == old(self).sel(),
            final(self).slots() == old(self).slots().update(
                old(self).sel() as int,
                *final(result),
            ),
            final(self).spec_next() == old(self).spec_next(),
    {
        if self.index == 0 {
            let (first, _second) = self.split_mut();
            first
        } else {
            let (_first, second) = self.split_mut();
            second
        }
    }

    /// Borrow the copy opposite the selector mutably. The current copy and
    /// the selector are untouched.
    pub fn next_mut(&mut self) -> (result: &mut T)
        requires
            old(self).wf(),
        ensures
            *result == old(self).spec_next(),
            final(self).sel() == old(self).sel(),
            final(self).slots() == old(self).slots().update(
                1 - old(self).sel() as int,
                *final(result),
            ),
            final(self).spec_current() == old(self).spec_current(),
    {
        if self.index == 0 {
            let (_first, second) = self.split_mut();
            second
        } else {
            let (first, _second) = self.split_mut();
            first
        }
    }

    /// Borrow both copies at once in logical order: the current copy for
    /// reading, the staging copy for writing. Both references come out of one
    /// exclusive borrow of the storage, so they can never alias.
    pub fn split_ordered(&mut self) -> (result: (&T, &mut T))
        requires
            old(self).wf(),
        ensures
            *result.0 == old(self).spec_current(),
            *result.1 == old(self).spec_next(),
            final(self).sel() == old(self).sel(),
            final(self).slots() == old(self).slots().update(
                1 - old(self).sel() as int,
                *final(result.1),
            ),
            final(self).spec_current() == old(self).spec_current(),
            final(self).spec_next() == *final(result.1),
    {
        if self.index == 0 {
            let (first, second) = self.split_mut();
            (&*first, second)
        } else {
            let (first, second) = self.split_mut();
            (&*second, first)
        }
    }

    /// Apply a caller-supplied function to `(current, next)` as handed out by
    /// [`DoubleBuffer::split_ordered`], and return whatever it returns.
    pub fn apply<Res, F: FnOnce(&T, &mut T) -> Res>(&mut self, f: F) -> (result: Res)
        requires
            old(self).wf(),
            forall|cur: &T, nxt: &mut T|
                *cur == old(self).spec_current() && *nxt == old(self).spec_next()
                    ==> call_requires(f, (cur, nxt)),
        ensures
            final(self).sel() == old(self).sel(),
            final(self).spec_current() == old(self).spec_current(),
            final(self).slots() == old(self).slots().update(
                1 - old(self).sel() as int,
                final(self).spec_next(),
            ),
            exists|cur: &T, nxt: &mut T|
                *cur == old(self).spec_current() && *nxt == old(self).spec_next()
                    && *final(nxt) == final(self).spec_next()
                    && call_ensures(f, (cur, nxt), result),
    {
        let (prev, next) = self.split_ordered();
        f(prev, next)
    }

    /// Toggle the selector between 0 and 1: the staging copy becomes current
    /// and the current copy becomes the staging one. Slot contents are
    /// untouched.
    pub fn swap(&mut self)
        requires
            old(self).wf(),
        ensures
            final(self).wf(),
            final(self).sel() == 1 - old(self).sel(),
            final(self).slots() == old(self).slots(),
            final(self).spec_current() == old(self).spec_next(),
            final(self).spec_next() == old(self).spec_current(),
    {
        self.index = 1 - self.index;
    }
}

impl<T: Clone> DoubleBuffer<T> {
    /// Create a buffer from one seed value. The staging slot holds the seed
    /// itself, the current slot holds its clone, and the selector is 0.
    pub fn new(value: T) -> (result: Self)
        ensures
            result.wf(),
            result.sel() == 0,
            result.spec_next() == value,
            vstd::pervasive::cloned::<T>(value, result.spec_current()),
    {
        Self::from_buffer([value.clone(), value], 0)
    }
}

impl<T: Clone> From<T> for DoubleBuffer<T> {
    /// Create a buffer seeded from one value by conversion, exactly as
    /// [`DoubleBuffer::new`] does.
    fn from(value: T) -> (result: Self)
        ensures
            result.wf(),
            result.sel() == 0,
            result.spec_next() == value,
            vstd::pervasive::cloned::<T>(value, result.spec_current()),
    {
        Self::new(value)
    }
}

impl<T: Clone> vstd::std_specs::convert::FromSpecImpl<T> for DoubleBuffer<T> {
    open spec fn obeys_from_spec() -> bool {
        false
    }

    open spec fn from_spec(v: T) -> Self {
        choose|b: Self| b.sel() == 0 && b.spec_next() == v
    }
}

impl<T: Default + Clone> Default for DoubleBuffer<T> {
    /// Create a buffer seeded from `T`'s default value, exactly as
    /// [`DoubleBuffer::new`] does.
    fn default() -> (result: Self)
        ensures
            result.wf(),
            result.sel() == 0,
            call_ensures(T::default, (), result.spec_next()),
            vstd::pervasive::cloned::<T>(result.spec_next(), result.spec_current()),
    {
        Self::new(T::default())
    }
}

/// The container always holds exactly two copies: the two spec views of any
/// buffer — the physical slots and the (current, next) pair — range over a
/// sequence of length 2.
pub broadcast proof fn lemma_two_slots<T>(b: DoubleBuffer<T>)
    ensures
        (#[trigger] b.slots()).len() == 2,
{
}

/// Toggling a well-formed selector keeps it within {0, 1}: together with the
/// constructors' guarantees, the selector stays valid under every operation
/// of the container except a deliberate out-of-range `set_index`.
pub proof fn lemma_toggle_keeps_selector_valid<T>(before: DoubleBuffer<T>, after: DoubleBuffer<T>)
    requires
        before.wf(),
        after.sel() == 1 - before.sel(),
    ensures
        after.wf(),
{
}

/// Swapping twice is the identity on the pair (slots, selector): one swap
/// toggles the selector and leaves the slots alone, so a second swap restores
/// the starting state exactly.
pub proof fn lemma_double_swap_identity<T>(
    start: DoubleBuffer<T>,
    once: DoubleBuffer<T>,
    twice: DoubleBuffer<T>,
)
    requires
        start.wf(),
        once.sel() == 1 - start.sel(),
        once.slots() == start.slots(),
        twice.sel() == 1 - once.sel(),
        twice.slots() == once.slots(),
    ensures
        twice.sel() == start.sel(),
        twice.slots() == start.slots(),
{
}

/// The physical pair that `split` hands out and the logical pair that
/// `split_ordered` hands out agree once the selector is accounted for: with
/// selector 0 the current copy is slot 0 and the staging copy is slot 1; with
/// selector 1 the roles are reversed. Since a swap never moves slot contents,
/// the physical pair is the same before and after any number of swaps.
pub proof fn lemma_physical_and_logical_views_agree<T>(b: DoubleBuffer<T>)
    requires
        b.wf(),
    ensures
        b.sel() == 0 ==> b.spec_current() == b.slots()[0] && b.spec_next() == b.slots()[1],
        b.sel() == 1 ==> b.spec_current() == b.slots()[1] && b.spec_next() == b.slots()[0],
{
}

/// A value staged into the next slot (through `split_ordered`, `next_mut` or
/// `apply`) becomes the current value after one swap, while the previously
/// current value becomes the staging one.
pub proof fn lemma_staged_value_becomes_current<T>(
    start: DoubleBuffer<T>,
    staged: DoubleBuffer<T>,
    swapped: DoubleBuffer<T>,
    value: T,
)
    requires
        start.wf(),
        staged.sel() == start.sel(),
        staged.slots() == start.slots().update(1 - start.sel() as int, value),
        swapped.sel() == 1 - staged.sel(),
        swapped.slots() == staged.slots(),
    ensures
        swapped.wf(),
        swapped.spec_current() == value,
        swapped.spec_next() == start.spec_current(),
{
}

} // verus!
