//! The call stack: up to sixteen return addresses, last in, first out.

use vstd::prelude::*;

verus! {

/// How many return addresses the stack holds at most.
pub const MAX_STACK: usize = 16;

pub struct Stack {
    storage: [u16; MAX_STACK],
    len: usize,
}

impl View for Stack {
    type V = Seq<u16>;

    /// The addresses on the stack, the most recently pushed last.
    closed spec fn view(&self) -> Seq<u16> {
        self.storage@.subrange(0, self.len as int)
    }
}

impl Stack {
    pub closed spec fn wf(&self) -> bool {
        self.len <= MAX_STACK
    }

    pub proof fn lemma_wf(&self)
        requires
            self.wf(),
        ensures
            self@.len() <= MAX_STACK,
    {
    }

    pub fn new() -> (r: Self)
        ensures
            r.wf(),
            r@ == Seq::<u16>::empty(),
    {
        let r = Self { len: 0, storage: [0u16; MAX_STACK] };
        assert(r@ =~= Seq::<u16>::empty());
        r
    }

    /// Empties the stack.
    pub fn reset(&mut self)
        ensures
            final(self).wf(),
            final(self)@ == Seq::<u16>::empty(),
    {
        self.storage = [0u16; MAX_STACK];
        self.len = 0;
        assert(self@ =~= Seq::<u16>::empty());
    }

    /// Pushes `item`; refused, with the stack unchanged, when it is full.
    pub fn push(&mut self, item: u16) -> (r: Option<()>)
        requires
            old(self).wf(),
        ensures
            final(self).wf(),
            old(self)@.len() < MAX_STACK ==> r is Some && final(self)@ == old(self)@.push(item),
            old(self)@.len() >= MAX_STACK ==> r is None && final(self)@ == old(self)@,
    {
        if self.len >= MAX_STACK {
            None
        } else {
            self.storage[self.len] = item;
            self.len += 1;
            assert(self@ =~= old(self)@.push(item));
            Some(())
        }
    }

    /// The most recently pushed address, left on the stack; `None` when it
    /// is empty.
    pub fn peek(&self) -> (r: Option<u16>)
        requires
            self.wf(),
        ensures
            self@.len() > 0 ==> r == Some(self@.last()),
            self@.len() == 0 ==> r is None,
    {
        if self.len > 0 {
            Some(self.storage[self.len - 1])
        } else {
            None
        }
    }

    /// Whether no more addresses can be pushed.
    pub fn is_full(&self) -> (r: bool)
        requires
            self.wf(),
        ensures
            r == (self@.len() >= MAX_STACK),
    {
        self.len >= MAX_STACK
    }

    /// Pops the most recently pushed address; `None`, with the stack
    /// unchanged, when it is empty.
    pub fn pop(&mut self) -> (r: Option<u16>)
        requires
            old(self).wf(),
        ensures
            final(self).wf(),
            old(self)@.len() > 0 ==> r == Some(old(self)@.last()) && final(self)@ == old(self)@.drop_last(),
            old(self)@.len() == 0 ==> r is None && final(self)@ == old(self)@,
    {
        if self.len > 0 {
            self.len -= 1;
            assert(self@ =~= old(self)@.drop_last());
            Some(self.storage[self.len])
        } else {
            None
        }
    }

    /// Pushing an address and popping at once gives the address back and
    /// leaves the stack as it was, whenever the stack had room.
    pub proof fn lemma_push_pop(s: Seq<u16>, a: u16)
        ensures
            s.push(a).last() == a,
            s.push(a).drop_last() == s,
    {
        assert(s.push(a).drop_last() =~= s);
    }
}

} // verus!
