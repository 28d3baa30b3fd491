use std::collections::VecDeque;
use vstd::prelude::*;

verus! {

/// A byte FIFO of fixed capacity: the staging area between the user and a socket.
pub struct Ring {
    pub(crate) data: VecDeque<u8>,
    pub(crate) cap: usize,
}

impl View for Ring {
    type V = Seq<u8>;

    closed spec fn view(&self) -> Seq<u8> {
        self.data@
    }
}

impl Ring {
    /// The number of bytes the ring can hold at once.
    pub open(crate) spec fn capacity(&self) -> nat {
        self.cap as nat
    }

    pub open(crate) spec fn wf(&self) -> bool {
        &&& self.cap > 0
        &&& self@.len() <= self.cap
    }

    /// An empty ring that holds up to `cap` bytes.
    pub fn new(cap: usize) -> (r: Ring)
        requires
            cap > 0,
        ensures
            r.wf(),
            r@ == Seq::<u8>::empty(),
            r.capacity() == cap,
    {
        Ring { data: VecDeque::new(), cap }
    }

    /// How many bytes are waiting to be read.
    pub fn read_available(&self) -> (r: usize)
        requires
            self.wf(),
        ensures
            r == self@.len(),
    {
        self.data.len()
    }

    /// How many more bytes fit.
    pub fn write_available(&self) -> (r: usize)
        requires
            self.wf(),
        ensures
            r == self.capacity() - self@.len(),
    {
        self.cap - self.data.len()
    }

    /// Takes the oldest byte, if there is one.
    pub fn read(&mut self) -> (r: Option<u8>)
        requires
            old(self).wf(),
        ensures
            final(self).wf(),
            final(self).capacity() == old(self).capacity(),
            old(self)@.len() == 0 ==> r.is_none() && final(self)@ == old(self)@,
            old(self)@.len() > 0 ==> r == Some(old(self)@[0]) && final(self)@ == old(self)@.drop_first(),
    {
        self.data.pop_front()
    }

    /// Appends a byte unless the ring is full; says whether it did.
    pub fn write(&mut self, byte: u8) -> (r: bool)
        requires
            old(self).wf(),
        ensures
            final(self).wf(),
            final(self).capacity() == old(self).capacity(),
            r == (old(self)@.len() < old(self).capacity()),
            r ==> final(self)@ == old(self)@.push(byte),
            !r ==> final(self)@ == old(self)@,
    {
        if self.data.len() < self.cap {
            self.data.push_back(byte);
            true
        } else {
            false
        }
    }

    /// A copy of the bytes waiting, oldest first.
    pub fn contents(&self) -> (r: Vec<u8>)
        requires
            self.wf(),
        ensures
            r@ == self@,
    {
        let mut out: Vec<u8> = Vec::new();
        let n = self.data.len();
        let mut i: usize = 0;
        while i < n
            invariant
                n == self@.len(),
                i <= n,
                out@ == self@.subrange(0, i as int),
            decreases n - i,
        {
            out.push(self.data[i]);
            i = i + 1;
            assert(out@ =~= self@.subrange(0, i as int));
        }
        assert(out@ =~= self@);
        out
    }

    /// Drops the `n` oldest bytes, which have been handed on.
    pub fn consume(&mut self, n: usize)
        requires
            old(self).wf(),
            n <= old(self)@.len(),
        ensures
            final(self).wf(),
            final(self).capacity() == old(self).capacity(),
            final(self)@ == old(self)@.subrange(n as int, old(self)@.len() as int),
    {
        let mut i: usize = 0;
        while i < n
            invariant
                self.wf(),
                self.cap == old(self).cap,
                i <= n,
                n <= old(self)@.len(),
                self@ == old(self)@.subrange(i as int, old(self)@.len() as int),
            decreases n - i,
        {
            let _ = self.data.pop_front();
            i = i + 1;
            assert(self@ =~= old(self)@.subrange(i as int, old(self)@.len() as int));
        }
    }

    /// Appends bytes that have arrived; they must fit.
    pub fn extend(&mut self, bytes: &Vec<u8>)
        requires
            old(self).wf(),
            old(self)@.len() + bytes@.len() <= old(self).capacity(),
        ensures
            final(self).wf(),
            final(self).capacity() == old(self).capacity(),
            final(self)@ == old(self)@ + bytes@,
    {
        let mut i: usize = 0;
        while i < bytes.len()
            invariant
                self.wf(),
                self.cap == old(self).cap,
                i <= bytes@.len(),
                old(self)@.len() + bytes@.len() <= old(self).capacity(),
                self@ == old(self)@ + bytes@.subrange(0, i as int),
            decreases bytes@.len() - i,
        {
            self.data.push_back(bytes[i]);
            i = i + 1;
            assert(self@ =~= old(self)@ + bytes@.subrange(0, i as int));
        }
        assert(bytes@.subrange(0, bytes@.len() as int) =~= bytes@);
    }
}

} // verus!
