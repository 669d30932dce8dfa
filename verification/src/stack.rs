use vstd::prelude::*;

verus! {

/// Number of return addresses the stack can hold: CHIP-8 allows up to 16 levels of nested
/// subroutines.
pub const STACK_DEPTH: usize = 16;

/// The call stack: an array of 16 16-bit values, holding the addresses that the interpreter
/// returns to when a subroutine finishes.
pub struct Stack {
    data: [u16; 16],
    /// The index of where to put the next address.
    i: usize,
}

impl Stack {
    #[verifier::type_invariant]
    spec fn within_capacity(self) -> bool {
        self.i <= STACK_DEPTH
    }
}

impl View for Stack {
    /// The addresses on the stack, the most recently pushed one last.
    type V = Seq<u16>;

    closed spec fn view(&self) -> Seq<u16> {
        self.data@.take(self.i as int)
    }
}

impl Stack {
    /// An empty stack.
    pub fn new() -> (s: Self)
        ensures
            s@ == Seq::<u16>::empty(),
    {
        let s = Stack { data: [0u16; 16], i: 0 };
        assert(s@ =~= Seq::<u16>::empty());
        s
    }

    /// The number of addresses on the stack.
    pub fn len(&self) -> (n: usize)
        ensures
            n == self@.len(),
            n <= STACK_DEPTH,
    {
        proof {
            use_type_invariant(self);
        }
        self.i
    }

    /// Pushes `addr`; the stack must not be full.
    pub fn push(&mut self, addr: u16)
        requires
            old(self)@.len() < STACK_DEPTH,
        ensures
            final(self)@ == old(self)@.push(addr),
    {
        proof {
            use_type_invariant(&*self);
        }
        let i = self.i;
        self.data[i] = addr;
        self.i = i + 1;
        assert(self@ =~= old(self)@.push(addr));
    }

    /// Removes and returns the most recently pushed address; the stack must not be empty.
    pub fn pop(&mut self) -> (addr: u16)
        requires
            old(self)@.len() > 0,
        ensures
            addr == old(self)@.last(),
            final(self)@ == old(self)@.drop_last(),
    {
        proof {
            use_type_invariant(&*self);
        }
        self.i = self.i - 1;
        assert(self@ =~= old(self)@.drop_last());
        self.data[self.i]
    }
}

} // verus!
