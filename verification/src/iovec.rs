use vstd::prelude::*;
use vstd::slice::slice_to_vec;

verus! {

/// One buffer of a vectored write: the bytes a gathering call reads.
pub struct IoVec {
    data: Vec<u8>,
}

impl View for IoVec {
    type V = Seq<u8>;

    closed spec fn view(&self) -> Seq<u8> {
        self.data@
    }
}

impl IoVec {
    /// A buffer descriptor over a copy of the given bytes.
    pub fn new(buffer: &[u8]) -> (r: IoVec)
        ensures
            r@ == buffer@,
    {
        IoVec { data: slice_to_vec(buffer) }
    }

    /// A buffer descriptor that takes the bytes over.
    pub fn from_vec(buffer: Vec<u8>) -> (r: IoVec)
        ensures
            r@ == buffer@,
    {
        IoVec { data: buffer }
    }

    /// The buffer's length in bytes.
    pub fn len(&self) -> (r: usize)
        ensures
            r == self@.len(),
    {
        self.data.len()
    }

    /// The bytes the buffer holds.
    pub fn bytes(&self) -> (r: &Vec<u8>)
        ensures
            r@ == self@,
    {
        &self.data
    }
}

/// One buffer of a vectored read: a scattering call fills a prefix of it and
/// leaves the tail untouched.
pub struct IoVecMut {
    data: Vec<u8>,
}

impl View for IoVecMut {
    type V = Seq<u8>;

    closed spec fn view(&self) -> Seq<u8> {
        self.data@
    }
}

impl IoVecMut {
    /// A mutable buffer descriptor that takes the buffer over; its contents
    /// are what a scattering call finds and may partly overwrite.
    pub fn new(buffer: Vec<u8>) -> (r: IoVecMut)
        ensures
            r@ == buffer@,
    {
        IoVecMut { data: buffer }
    }

    /// The buffer's length in bytes.
    pub fn len(&self) -> (r: usize)
        ensures
            r == self@.len(),
    {
        self.data.len()
    }

    /// The bytes the buffer holds.
    pub fn bytes(&self) -> (r: &Vec<u8>)
        ensures
            r@ == self@,
    {
        &self.data
    }

    /// Give the buffer back, with whatever a scattering call wrote into it.
    pub fn into_vec(self) -> (r: Vec<u8>)
        ensures
            r@ == self@,
    {
        self.data
    }

    /// Overwrite the buffer's prefix with the given bytes, leaving the tail
    /// as it was.
    pub(crate) fn fill_prefix(&mut self, src: &[u8])
        requires
            src@.len() <= old(self)@.len(),
        ensures
            final(self)@ == src@ + old(self)@.subrange(src@.len() as int, old(self)@.len() as int),
    {
        let n = src.len();
        let mut i: usize = 0;
        while i < n
            invariant
                i <= n,
                n == src@.len() <= self@.len(),
                self@.len() == old(self)@.len(),
                forall|k: int| 0 <= k < i ==> self@[k] == src@[k],
                forall|k: int| i <= k < self@.len() ==> self@[k] == old(self)@[k],
            decreases n - i,
        {
            let b = *vstd::slice::slice_index_get(src, i);
            self.data[i] = b;
            i += 1;
        }
        proof {
            assert(self@ =~= src@ + old(self)@.subrange(src@.len() as int, old(self)@.len() as int));
        }
    }
}

} // verus!
