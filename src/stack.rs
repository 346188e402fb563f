//! The bounded return-address stack.

use vstd::prelude::*;
use crate::fault::Fault;

verus! {

/// Number of return addresses the stack can hold.
pub const STACK_DEPTH: usize = 16;

/// Sixteen return-address slots and a stack pointer; the slots below the
/// pointer are the live entries, oldest first.
pub struct Stack {
    sp: u8,
    data: Vec<u16>,
}

impl View for Stack {
    type V = Seq<u16>;

    closed spec fn view(&self) -> Seq<u16> {
        self.data@.subrange(0, self.sp as int)
    }
}

impl Stack {
    pub closed spec fn wf(&self) -> bool {
        &&& self.data.len() == STACK_DEPTH
        &&& self.sp <= STACK_DEPTH
    }

    /// A well-formed stack holds at most `STACK_DEPTH` entries.
    pub proof fn lemma_depth_bounded(&self)
        requires
            self.wf(),
        ensures
            self@.len() <= STACK_DEPTH,
    {
    }

    pub fn new() -> (r: Stack)
        ensures
            r.wf(),
            r@ == Seq::<u16>::empty(),
    {
        let data: Vec<u16> = vec![0u16; STACK_DEPTH];
        let r = Stack { sp: 0, data };
        assert(r@ =~= Seq::<u16>::empty());
        r
    }

    /// Pushes a return address; fails, leaving the stack as it was, where
    /// it is already full.
    pub fn push(&mut self, value: u16) -> (r: Result<(), Fault>)
        requires
            old(self).wf(),
        ensures
            final(self).wf(),
            r is Ok <==> old(self)@.len() < STACK_DEPTH,
            r is Ok ==> final(self)@ == old(self)@.push(value),
            r is Err ==> r == Err::<(), Fault>(Fault::StackOverflow) && final(self)@ == old(self)@,
    {
        if self.sp as usize >= STACK_DEPTH {
            return Err(Fault::StackOverflow);
        }
        let ghost before = self@;
        self.data.set(self.sp as usize, value);
        self.sp = self.sp + 1;
        assert(self@ =~= before.push(value));
        Ok(())
    }

    /// Pops the most recent return address; fails, leaving the stack as it
    /// was, where it is empty.
    pub fn pop(&mut self) -> (r: Result<u16, Fault>)
        requires
            old(self).wf(),
        ensures
            final(self).wf(),
            r is Ok <==> old(self)@.len() > 0,
            r is Ok ==> r == Ok::<u16, Fault>(old(self)@.last()) && final(self)@
                == old(self)@.drop_last(),
            r is Err ==> r == Err::<u16, Fault>(Fault::StackUnderflow) && final(self)@ == old(self)@,
    {
        if self.sp == 0 {
            return Err(Fault::StackUnderflow);
        }
        let ghost before = self@;
        self.sp = self.sp - 1;
        assert(self@ =~= before.drop_last());
        Ok(self.data[self.sp as usize])
    }
    /// The live return addresses, oldest first.
    pub fn entries(&self) -> (r: Vec<u16>)
        requires
            self.wf(),
        ensures
            r@ == self@,
    {
        let mut r: Vec<u16> = Vec::new();
        let mut k: usize = 0;
        while k < self.sp as usize
            invariant
                self.wf(),
                k <= self.sp,
                r@ == self.data@.subrange(0, k as int),
            decreases self.sp - k,
        {
            r.push(self.data[k]);
            k = k + 1;
            assert(r@ =~= self.data@.subrange(0, k as int));
        }
        r
    }
}

} // verus!
