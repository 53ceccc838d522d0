use vstd::prelude::*;
use std::sync::Arc;
use crate::error::Error;

verus! {

// ---------------------------------------------------------------------------
// Counter
// ---------------------------------------------------------------------------

/// The counter value after one increment: the machine word wraps at the top.
pub open spec fn counter_inc(v: usize) -> usize {
    if v == usize::MAX { 0 } else { (v + 1) as usize }
}

/// The counter value after one decrement: the machine word wraps at zero.
pub open spec fn counter_dec(v: usize) -> usize {
    if v == 0 { usize::MAX } else { (v - 1) as usize }
}

/// A shared statistics counter.
///
/// The counter is updated through exclusive access; every operation is a
/// single read-modify-write, with the wrap-around behaviour of the machine
/// word that an atomic `fetch_add` / `fetch_sub` has.
pub struct AtomicCounter {
    value: usize,
}

impl View for AtomicCounter {
    type V = usize;

    closed spec fn view(&self) -> usize {
        self.value
    }
}

impl AtomicCounter {
    /// Create a new counter starting at zero.
    pub fn new() -> (c: Self)
        ensures
            c@ == 0,
    {
        AtomicCounter { value: 0 }
    }

    /// Increment and return the *previous* value.
    pub fn increment(&mut self) -> (prev: usize)
        ensures
            prev == old(self)@,
            final(self)@ == counter_inc(old(self)@),
    {
        let prev = self.value;
        self.value = self.value.wrapping_add(1);
        prev
    }

    /// Decrement and return the *previous* value.
    pub fn decrement(&mut self) -> (prev: usize)
        ensures
            prev == old(self)@,
            final(self)@ == counter_dec(old(self)@),
    {
        let prev = self.value;
        self.value = self.value.wrapping_sub(1);
        prev
    }

    /// Read the current value.
    pub fn get(&self) -> (v: usize)
        ensures
            v == self@,
    {
        self.value
    }

    /// Compare-and-swap: only write `new` if the current value equals `expected`.
    ///
    /// Returns `Ok(previous)` on success, `Err(actual)` on failure.
    pub fn compare_exchange(&mut self, expected: usize, new: usize) -> (r: Result<usize, usize>)
        ensures
            old(self)@ == expected ==> r == Ok::<usize, usize>(expected) && final(self)@ == new,
            old(self)@ != expected ==> r == Err::<usize, usize>(old(self)@) && final(self)@ == old(self)@,
    {
        let current = self.value;
        if current == expected {
            self.value = new;
            Ok(current)
        } else {
            Err(current)
        }
    }
}

impl Default for AtomicCounter {
    fn default() -> (c: Self)
        ensures
            c@ == 0,
    {
        Self::new()
    }
}

/// An increment is the successor and a decrement the predecessor modulo the
/// machine word's range.
pub proof fn lemma_counter_wraps_like_machine_word(v: usize)
    ensures
        counter_inc(v) == (v + 1) % (usize::MAX + 1),
        counter_dec(v) == (v + usize::MAX) % (usize::MAX + 1),
{
    let m: int = usize::MAX + 1;
    if v == usize::MAX {
        vstd::arithmetic::div_mod::lemma_mod_self_0(m);
    } else {
        vstd::arithmetic::div_mod::lemma_small_mod((v + 1) as nat, m as nat);
    }
    if v == 0 {
        vstd::arithmetic::div_mod::lemma_small_mod(usize::MAX as nat, m as nat);
    } else {
        vstd::arithmetic::div_mod::lemma_mod_add_multiples_vanish(v - 1, m);
        vstd::arithmetic::div_mod::lemma_small_mod((v - 1) as nat, m as nat);
        assert(v + usize::MAX == m + (v - 1));
    }
}

/// An increment followed by a decrement restores the counter, and so does a
/// decrement followed by an increment, wrap-around included.
pub proof fn lemma_counter_inc_dec_inverse(v: usize)
    ensures
        counter_dec(counter_inc(v)) == v,
        counter_inc(counter_dec(v)) == v,
{
}

// ---------------------------------------------------------------------------
// Treiber stack
// ---------------------------------------------------------------------------

/// A LIFO stack. Values are kept in push order, the most recently pushed last,
/// so pushing, popping and dropping never recurse, however deep the stack.
///
/// Its view is the sequence of values from the top of the stack down.
pub struct TreiberStack<T> {
    items: Vec<T>,
}

/// The values of `items`, kept in push order, from the top of the stack down.
spec fn top_down<T>(items: Seq<T>) -> Seq<T> {
    Seq::new(items.len(), |i: int| items[items.len() - 1 - i])
}

impl<T> View for TreiberStack<T> {
    type V = Seq<T>;

    closed spec fn view(&self) -> Seq<T> {
        top_down(self.items@)
    }
}

/// The stack after pushing `v` on top of `s`.
pub open spec fn stack_push<T>(s: Seq<T>, v: T) -> Seq<T> {
    seq![v].add(s)
}

impl<T> TreiberStack<T> {
    /// Create an empty stack.
    pub fn new() -> (s: Self)
        ensures
            s@ == Seq::<T>::empty(),
    {
        let s = TreiberStack { items: Vec::new() };
        assert(s@ =~= Seq::<T>::empty());
        s
    }

    /// Push `value` onto the top of the stack.
    pub fn push(&mut self, value: T) -> (r: Result<(), Error>)
        ensures
            r == Ok::<(), Error>(()),
            final(self)@ == stack_push(old(self)@, value),
    {
        self.items.push(value);
        assert(self@ =~= stack_push(old(self)@, value));
        Ok(())
    }

    /// Pop the top value from the stack, returning `None` if empty.
    pub fn pop(&mut self) -> (r: Option<T>)
        ensures
            old(self)@.len() == 0 ==> r == None::<T> && final(self)@ == old(self)@,
            old(self)@.len() > 0 ==> r == Some(old(self)@[0]) && final(self)@ == old(self)@.drop_first(),
    {
        let r = self.items.pop();
        assert(self@ =~= if old(self)@.len() == 0 { old(self)@ } else { old(self)@.drop_first() });
        r
    }

    /// Return `true` if the stack is empty.
    pub fn is_empty(&self) -> (b: bool)
        ensures
            b == (self@.len() == 0),
    {
        self.items.len() == 0
    }
}

// ---------------------------------------------------------------------------
// Reference-counted shared object
// ---------------------------------------------------------------------------

/// Makes another owner of the same allocation.
///
/// Calls `Arc::clone`, which bumps the reference count and returns a pointer to
/// the same allocation; the contract states that the new pointer sees the same
/// value.
#[verifier::external_body]
fn share_allocation<T>(a: &Arc<T>) -> (r: Arc<T>)
    ensures
        *r == **a,
{
    Arc::clone(a)
}

/// A reference-counted handle to a heap-allocated kernel object: every clone
/// owns one count, and the object is freed when the last owner goes away.
pub struct KernelArc<T> {
    inner: Arc<T>,
}

impl<T> View for KernelArc<T> {
    type V = T;

    closed spec fn view(&self) -> T {
        *self.inner
    }
}

impl<T> KernelArc<T> {
    /// Create a new `KernelArc` with a single owner.
    pub fn new(data: T) -> (r: Result<Self, Error>)
        ensures
            r is Ok,
            r matches Ok(a) && a@ == data,
    {
        Ok(KernelArc { inner: Arc::new(data) })
    }

    /// Borrow the inner data.
    pub fn as_ref(&self) -> (r: &T)
        ensures
            *r == self@,
    {
        &*self.inner
    }
}

impl<T> Clone for KernelArc<T> {
    fn clone(&self) -> (c: Self)
        ensures
            c@ == self@,
    {
        KernelArc { inner: share_allocation(&self.inner) }
    }
}

// ---------------------------------------------------------------------------
// RCU-protected value
// ---------------------------------------------------------------------------

/// A published value that readers access inside a read-side critical section
/// and that a writer replaces as a whole, getting the old value back to free
/// once no reader can still see it.
pub struct RcuProtected<T> {
    current: Box<T>,
}

impl<T> View for RcuProtected<T> {
    type V = T;

    closed spec fn view(&self) -> T {
        *self.current
    }
}

impl<T> RcuProtected<T> {
    /// Create a new RCU-protected value.
    pub fn new(value: T) -> (r: Result<Self, Error>)
        ensures
            r is Ok,
            r matches Ok(p) && p@ == value,
    {
        Ok(RcuProtected { current: Box::new(value) })
    }

    /// Reader path: run `f` on the currently published value and return what
    /// it returns.
    pub fn read<R, F: FnOnce(&T) -> R>(&self, f: F) -> (r: R)
        requires
            f.requires((&self@,)),
        ensures
            f.ensures((&self@,), r),
    {
        f(&*self.current)
    }

    /// Writer path: publish `new_value` and hand back the value it replaces.
    pub fn replace(&mut self, new_value: T) -> (r: Result<T, Error>)
        ensures
            r is Ok,
            r matches Ok(prev) && prev == old(self)@,
            final(self)@ == new_value,
    {
        let mut published = Box::new(new_value);
        core::mem::swap(&mut self.current, &mut published);
        Ok(*published)
    }
}

// ---------------------------------------------------------------------------
// Laws
// ---------------------------------------------------------------------------

/// Last in, first out: popping right after a push gives back the pushed value
/// and leaves the stack as it was before the push.
pub proof fn lemma_stack_push_pop<T>(s: Seq<T>, v: T)
    ensures
        stack_push(s, v).len() > 0,
        stack_push(s, v)[0] == v,
        stack_push(s, v).drop_first() == s,
{
    assert(stack_push(s, v).drop_first() =~= s);
}

} // verus!
