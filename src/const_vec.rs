use vstd::prelude::*;

verus! {

/// An array with a `Vec`-like API whose capacity `N` is fixed by its type.
///
/// `data` holds every slot that has been written so far; only the first
/// `len` of them are live. Slots at `len` and beyond keep the value last
/// written to them (popping or clearing never erases a slot), which is what
/// lets `set_len` bring them back.
pub struct ConstVec<T, const N: usize> {
    data: Vec<T>,
    len: usize,
}

impl<T, const N: usize> ConstVec<T, N> {
    /// Every slot that has been written, live or not.
    pub closed spec fn slots(&self) -> Seq<T> {
        self.data@
    }

    /// The number of live elements.
    pub closed spec fn spec_len(&self) -> nat {
        self.len as nat
    }

    /// The live elements lie within the written slots, which lie within the
    /// capacity.
    pub open spec fn well_formed(&self) -> bool {
        self.spec_len() <= self.slots().len() <= N
    }

    /// Returns a new, empty ConstVec.
    pub fn new() -> (r: Self)
        ensures
            r.well_formed(),
            r@ == Seq::<T>::empty(),
            r.slots() == Seq::<T>::empty(),
    {
        ConstVec { data: Vec::new(), len: 0 }
    }

    /// Returns how many elements the ConstVec currently contains.
    pub fn len(&self) -> (r: usize)
        requires
            self.well_formed(),
        ensures
            r == self@.len(),
    {
        self.len
    }

    /// Returns how many elements the ConstVec can hold at most.
    pub fn capacity(&self) -> (r: usize)
        ensures
            r == N,
    {
        N
    }

    /// Whether the ConstVec holds no element.
    pub fn is_empty(&self) -> (r: bool)
        requires
            self.well_formed(),
        ensures
            r == (self@.len() == 0),
    {
        self.len() == 0
    }

    /// Whether the ConstVec holds at least one element.
    pub fn is_not_empty(&self) -> (r: bool)
        requires
            self.well_formed(),
        ensures
            r == (self@.len() != 0),
    {
        !self.is_empty()
    }

    /// Whether the ConstVec has reached its capacity and has no room left.
    pub fn is_full(&self) -> (r: bool)
        requires
            self.well_formed(),
        ensures
            r == (self@.len() == N),
    {
        self.len == N
    }

    /// Whether the ConstVec has room for at least one more element.
    pub fn is_not_full(&self) -> (r: bool)
        requires
            self.well_formed(),
        ensures
            r == (self@.len() < N),
    {
        self.len < N
    }

    /// Sets the number of live elements to `new_len`, which must not exceed
    /// the number of slots written so far: those slots hold values, and the
    /// first `new_len` of them become the live elements.
    pub fn set_len(&mut self, new_len: usize)
        requires
            old(self).well_formed(),
            new_len <= old(self).slots().len(),
        ensures
            final(self).well_formed(),
            final(self).slots() == old(self).slots(),
            final(self)@ == old(self).slots().subrange(0, new_len as int),
    {
        self.len = new_len;
    }
}

impl<T: Copy, const N: usize> ConstVec<T, N> {
    /// Pushes `data` onto the ConstVec, which must not be full.
    pub fn push_unchecked(&mut self, data: T)
        requires
            old(self).well_formed(),
            old(self)@.len() < N,
        ensures
            final(self).well_formed(),
            final(self)@ == old(self)@.push(data),
            final(self).slots() == written_after_push(old(self).slots(), old(self)@.len(), data),
    {
        let len = self.len();
        if len < self.data.len() {
            self.data.set(len, data);
        } else {
            self.data.push(data);
        }
        self.set_len(len + 1);
        assert(self@ =~= old(self)@.push(data));
    }

    /// Pushes `data` onto the ConstVec if it has room; otherwise leaves it
    /// unchanged and hands `data` back.
    pub fn try_push(&mut self, data: T) -> (r: Result<(), T>)
        requires
            old(self).well_formed(),
        ensures
            final(self).well_formed(),
            (final(self)@, r) == push_model(N as nat, old(self)@, data),
            final(self).slots() == (if r is Ok {
                written_after_push(old(self).slots(), old(self)@.len(), data)
            } else {
                old(self).slots()
            }),
    {
        if self.is_full() {
            Err(data)
        } else {
            self.push_unchecked(data);
            Ok(())
        }
    }

    /// Pushes `data` onto the ConstVec, which must not be full.
    pub fn push(&mut self, data: T)
        requires
            old(self).well_formed(),
            old(self)@.len() < N,
        ensures
            final(self).well_formed(),
            final(self)@ == old(self)@.push(data),
            final(self).slots() == written_after_push(old(self).slots(), old(self)@.len(), data),
    {
        match self.try_push(data) {
            Ok(_) => {},
            // Cannot happen: the ConstVec is not full.
            Err(_) => {},
        }
    }

    /// Removes the last element, which must exist, and returns it.
    /// Its slot keeps the value.
    pub fn pop_unchecked(&mut self) -> (r: T)
        requires
            old(self).well_formed(),
            old(self)@.len() > 0,
        ensures
            final(self).well_formed(),
            final(self).slots() == old(self).slots(),
            final(self)@ == old(self)@.drop_last(),
            r == old(self)@.last(),
    {
        let len = self.len() - 1;
        let popped = self.data[len];
        self.set_len(len);
        assert(self@ =~= old(self)@.drop_last());
        popped
    }

    /// Removes the last element and returns it, or returns `None` when the
    /// ConstVec is empty.
    pub fn pop(&mut self) -> (r: Option<T>)
        requires
            old(self).well_formed(),
        ensures
            final(self).well_formed(),
            final(self).slots() == old(self).slots(),
            (final(self)@, r) == pop_model(old(self)@),
    {
        if self.is_empty() {
            None
        } else {
            Some(self.pop_unchecked())
        }
    }

    /// Removes every element; the slots keep their values.
    pub fn clear(&mut self)
        requires
            old(self).well_formed(),
        ensures
            final(self).well_formed(),
            *final(self) == old(self).cleared(),
            final(self)@ == Seq::<T>::empty(),
    {
        self.len = 0;
    }
}

impl<T, const N: usize> ConstVec<T, N> {
    /// The ConstVec with the same slots and no live element.
    pub closed spec fn cleared(self) -> Self {
        ConstVec { data: self.data, len: 0 }
    }

    /// Clearing leaves no element, and clearing twice is clearing once.
    pub proof fn lemma_clear_idempotent(v: Self)
        requires
            v.well_formed(),
        ensures
            v.cleared().well_formed(),
            v.cleared()@.len() == 0,
            v.cleared().cleared() == v.cleared(),
    {
    }
}

impl<T, const N: usize> View for ConstVec<T, N> {
    type V = Seq<T>;

    /// The live elements, from the bottom of the stack to its top.
    open spec fn view(&self) -> Seq<T> {
        self.slots().subrange(0, self.spec_len() as int)
    }
}

/// The written slots after a push onto `len` live elements: the slot at `len`
/// is overwritten, or added when every written slot was live.
pub open spec fn written_after_push<T>(slots: Seq<T>, len: nat, x: T) -> Seq<T> {
    if len < slots.len() {
        slots.update(len as int, x)
    } else {
        slots.push(x)
    }
}

/// A push onto the elements `s` of a container of capacity `cap`: the new
/// elements and the result.
pub open spec fn push_model<T>(cap: nat, s: Seq<T>, x: T) -> (Seq<T>, Result<(), T>) {
    if s.len() < cap {
        (s.push(x), Ok(()))
    } else {
        (s, Err(x))
    }
}

/// A pop from the elements `s`: the new elements and the result.
pub open spec fn pop_model<T>(s: Seq<T>) -> (Seq<T>, Option<T>) {
    if s.len() == 0 {
        (s, None)
    } else {
        (s.drop_last(), Some(s.last()))
    }
}

} // verus!
