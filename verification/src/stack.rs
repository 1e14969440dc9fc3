//! A last-in-first-out (LIFO) stack backed by a growable array.

use vstd::prelude::*;

verus! {

/// A LIFO stack.
///
/// The abstract view of a stack is the sequence of its elements in push
/// order: the oldest element first, the most recently pushed element last.
/// The top of the stack is therefore the last element of the view.
pub struct Stack<T> {
    items: Vec<T>,
}

impl<T> View for Stack<T> {
    type V = Seq<T>;

    closed spec fn view(&self) -> Seq<T> {
        self.items@
    }
}

/// The top of a stack whose view is `s`: the most recently pushed element
/// that was not yet popped, or nothing when the stack is empty.
pub open spec fn top_of<T>(s: Seq<T>) -> Option<T> {
    if s.len() == 0 {
        None
    } else {
        Some(s.last())
    }
}

impl<T> Stack<T> {
    /// Creates an empty stack.
    pub fn new() -> (s: Self)
        ensures
            s@ == Seq::<T>::empty(),
    {
        Stack { items: Vec::new() }
    }

    /// Pushes `value` onto the top of the stack: the view grows by `value`
    /// at its end.
    pub fn push(&mut self, value: T)
        ensures
            final(self)@ == old(self)@.push(value),
    {
        self.items.push(value);
    }

    /// Removes the top value from the stack and returns it, or `None` if the
    /// stack is empty. Popping an empty stack leaves it unchanged.
    pub fn pop(&mut self) -> (r: Option<T>)
        ensures
            old(self)@.len() == 0 ==> r is None && final(self)@ == old(self)@,
            old(self)@.len() > 0 ==> r == Some(old(self)@.last())
                && final(self)@ == old(self)@.drop_last(),
    {
        self.items.pop()
    }

    /// Returns a reference to the top value of the stack, or `None` if the
    /// stack is empty. The stack itself is only read, never changed.
    pub fn peek(&self) -> (r: Option<&T>)
        ensures
            r is None <==> self@.len() == 0,
            r matches Some(v) ==> top_of(self@) == Some(*v),
    {
        if self.items.len() > 0 {
            Some(&self.items[self.items.len() - 1])
        } else {
            None
        }
    }

    /// True exactly when the stack holds no elements.
    pub fn is_empty(&self) -> (r: bool)
        ensures
            r <==> self@.len() == 0,
    {
        self.items.is_empty()
    }

    /// The number of elements currently on the stack.
    pub fn len(&self) -> (r: usize)
        ensures
            r == self@.len(),
    {
        self.items.len()
    }

    /// Read-only access to the underlying sequence of elements, in push
    /// order (oldest first, top last).
    pub fn as_slice(&self) -> (r: &[T])
        ensures
            r@ == self@,
    {
        self.items.as_slice()
    }

    /// Starts a fresh traversal of the stack from its current top. The
    /// traversal yields the elements in top-to-bottom order, that is, the
    /// reverse of push order; the stack stays borrowed, so it cannot change
    /// while the traversal is alive.
    pub fn iter(&self) -> (it: StackIterator<T>)
        ensures
            it.remaining() == self@.reverse(),
    {
        StackIterator { items: &self.items, index: self.items.len() }
    }
}

impl<T> Default for Stack<T> {
    /// Creates an empty stack, the same as [`Stack::new`].
    fn default() -> (s: Self)
        ensures
            s@ == Seq::<T>::empty(),
    {
        Stack::new()
    }
}

/// The view a stack reaches when the values of `values` are pushed onto it
/// one by one, in order, starting from the view `init`.
pub open spec fn after_pushes<T>(init: Seq<T>, values: Seq<T>) -> Seq<T>
    decreases values.len(),
{
    if values.len() == 0 {
        init
    } else {
        after_pushes(init.push(values.first()), values.drop_first())
    }
}

/// Pushing a run of values appends them to the view in push order.
pub proof fn lemma_after_pushes<T>(init: Seq<T>, values: Seq<T>)
    ensures
        after_pushes(init, values) == init + values,
    decreases values.len(),
{
    if values.len() == 0 {
        assert(after_pushes(init, values) =~= init + values);
    } else {
        lemma_after_pushes(init.push(values.first()), values.drop_first());
        assert(init.push(values.first()) + values.drop_first() =~= init + values);
    }
}

/// After pushing the values of `values` onto an empty stack, one by one and
/// in order, the view is `values` itself: the length equals the number of
/// pushes, and the stack is non-empty exactly when at least one value was
/// pushed.
pub proof fn lemma_len_after_pushes<T>(values: Seq<T>)
    ensures
        after_pushes(Seq::<T>::empty(), values) == values,
        after_pushes(Seq::<T>::empty(), values).len() == values.len(),
        after_pushes(Seq::<T>::empty(), values).len() == 0 <==> values.len() == 0,
{
    lemma_after_pushes(Seq::<T>::empty(), values);
    assert(Seq::<T>::empty() + values =~= values);
}

/// Pushing a value and popping right after is a no-op pair: on the view
/// `s.push(v)` that `push(v)` leaves behind, `pop` is specified to return
/// `Some(v)` — the pushed value, since it is the last element — and to leave
/// the view `s` it started from, with its original length and top.
pub proof fn lemma_push_then_pop<T>(s: Seq<T>, v: T)
    ensures
        s.push(v).len() > 0,
        s.push(v).last() == v,
        s.push(v).drop_last() == s,
{
    assert(s.push(v).drop_last() =~= s);
}

/// Peeking is deterministic: the contract of `peek` pins its result down as
/// `top_of` of the stack's view, so any two results it allows on the same
/// view are equal. Since `peek` borrows the stack immutably, the view — and
/// with it the length — is the same before and after the call, and two calls
/// with no mutation in between see the same view.
pub proof fn lemma_peek_agrees<T>(s: Seq<T>, r1: Option<T>, r2: Option<T>)
    requires
        r1 == top_of(s),
        r2 == top_of(s),
    ensures
        r1 == r2,
{
}

/// The emptiness check is idempotent: the contract of `is_empty` pins its
/// result down as a function of the stack's view, so repeated calls without
/// mutation in between all return the same value.
pub proof fn lemma_is_empty_stable<T>(s: Seq<T>, r1: bool, r2: bool)
    requires
        r1 == (s.len() == 0),
        r2 == (s.len() == 0),
    ensures
        r1 == r2,
{
}

/// A traversal over the elements of a [`Stack`], from the top down.
pub struct StackIterator<'a, T> {
    items: &'a Vec<T>,
    index: usize,
}

impl<'a, T> StackIterator<'a, T> {
    /// The elements the traversal has yet to yield, in the order it will
    /// yield them (from the top of the stack towards the bottom).
    pub closed spec fn remaining(&self) -> Seq<T> {
        self.items@.take(self.index as int).reverse()
    }

    #[verifier::type_invariant]
    closed spec fn wf(self) -> bool {
        self.index <= self.items@.len()
    }

    /// Yields the next element, or `None` once every element of the stack
    /// has been yielded; after that, it keeps returning `None`.
    pub fn next(&mut self) -> (r: Option<&'a T>)
        ensures
            old(self).remaining().len() == 0 ==> r is None
                && final(self).remaining() == old(self).remaining(),
            old(self).remaining().len() > 0 ==> (r matches Some(v)
                && *v == old(self).remaining().first()
                && final(self).remaining() == old(self).remaining().drop_first()),
    {
        proof {
            use_type_invariant(&*self);
        }
        if self.index > 0 {
            self.index = self.index - 1;
            let r = &self.items[self.index];
            proof {
                assert(final(self).remaining() =~= old(self).remaining().drop_first());
            }
            Some(r)
        } else {
            None
        }
    }
}

} // verus!
