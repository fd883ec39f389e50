//! The one primitive through which foreign memory is reached, and a
//! self-contained memory image that answers it.

use vstd::prelude::*;

verus! {

/// Read-only access to a foreign address space.
///
/// A reader answers bulk reads and nothing else. Every higher-level operation
/// of this crate is built on `read`, so an implementation for a live process is
/// the only place where raw foreign memory is touched.
pub trait MemoryReader {
    /// The answer to a request for `length` bytes at `address`: `None` when the
    /// read faults, otherwise the bytes obtained, which may be fewer than
    /// requested.
    spec fn outcome(&self, address: usize, length: usize) -> Option<Seq<u8>>;

    /// Reads up to `length` bytes starting at `address`.
    fn read(&self, address: usize, length: usize) -> (bytes: Option<Vec<u8>>)
        ensures
            self.outcome(address, length) == bytes_of(bytes),
    ;
}

/// What a read returned, as plain mathematical values.
pub open spec fn bytes_of(bytes: Option<Vec<u8>>) -> Option<Seq<u8>> {
    match bytes {
        Some(v) => Some(v@),
        None => None,
    }
}

/// A contiguous block of bytes standing at a fixed address.
///
/// Addresses from `base` up to `base + bytes.len()` are mapped; every other
/// address faults.
pub struct MemoryImage {
    pub base: usize,
    pub bytes: Vec<u8>,
}

impl MemoryImage {
    /// An image holding `bytes` from address `base` on.
    pub fn new(base: usize, bytes: Vec<u8>) -> (image: MemoryImage)
        ensures
            image.base == base,
            image.bytes@ == bytes@,
    {
        MemoryImage { base, bytes }
    }

    /// Whether `address` lies inside the image.
    pub open spec fn maps(&self, address: usize) -> bool {
        self.base <= address < self.base + self.bytes@.len()
    }

    /// The bytes a read of `length` bytes at a mapped `address` obtains: the
    /// requested range, cut short where the image ends.
    pub open spec fn window(&self, address: usize, length: usize) -> Seq<u8>
        recommends
            self.maps(address),
    {
        let start = address - self.base;
        let available = self.bytes@.len() - start;
        let count = if length <= available { length as int } else { available };
        self.bytes@.subrange(start, start + count)
    }
}

impl MemoryReader for MemoryImage {
    open spec fn outcome(&self, address: usize, length: usize) -> Option<Seq<u8>> {
        if self.maps(address) {
            Some(self.window(address, length))
        } else {
            None
        }
    }

    fn read(&self, address: usize, length: usize) -> (bytes: Option<Vec<u8>>) {
        if address < self.base {
            return None;
        }
        let start: usize = address - self.base;
        if start >= self.bytes.len() {
            return None;
        }
        let available: usize = self.bytes.len() - start;
        let count: usize = if length <= available { length } else { available };
        let mut out: Vec<u8> = Vec::new();
        let mut i: usize = 0;
        while i < count
            invariant
                i <= count,
                start + count <= self.bytes.len(),
                out@ == self.bytes@.subrange(start as int, start + i),
            decreases count - i,
        {
            out.push(self.bytes[start + i]);
            i += 1;
        }
        Some(out)
    }
}

/// Whether `read` can answer every request and answers each request in one
/// way only.
pub open spec fn steady<F: Fn(usize, usize) -> Option<Vec<u8>>>(read: F) -> bool {
    &&& forall|address: usize, length: usize| read.requires((address, length))
    &&& forall|address: usize, length: usize, first: Option<Vec<u8>>, second: Option<Vec<u8>>|
        read.ensures((address, length), first) && read.ensures((address, length), second)
            ==> bytes_of(first) == bytes_of(second)
}

/// Whether `outcome` is an answer that `read` can give to a request for
/// `length` bytes at `address`.
pub open spec fn answers<F: Fn(usize, usize) -> Option<Vec<u8>>>(
    read: F,
    address: usize,
    length: usize,
    outcome: Option<Seq<u8>>,
) -> bool {
    exists|bytes: Option<Vec<u8>>| #[trigger]
        read.ensures((address, length), bytes) && bytes_of(bytes) == outcome
}

/// A reader that hands every request to a function of its owner, such as one
/// that reads the memory of a live process.
///
/// The function has to answer a request the same way whenever it is asked:
/// what is read through one reader is one image of the memory. Where the
/// memory behind it moves on, its owner sees to that by making a reader for
/// each pass and keeping the answers given within the pass.
pub struct FnReader<F: Fn(usize, usize) -> Option<Vec<u8>>> {
    read: F,
}

impl<F: Fn(usize, usize) -> Option<Vec<u8>>> FnReader<F> {
    #[verifier::type_invariant]
    spec fn well_formed(self) -> bool {
        steady(self.read)
    }

    /// The function that answers the reads.
    pub closed spec fn source(&self) -> F {
        self.read
    }

    /// A reader that answers with `read`.
    pub fn new(read: F) -> (reader: FnReader<F>)
        requires
            steady(read),
        ensures
            reader.source() == read,
    {
        FnReader { read }
    }
}

impl<F: Fn(usize, usize) -> Option<Vec<u8>>> MemoryReader for FnReader<F> {
    open spec fn outcome(&self, address: usize, length: usize) -> Option<Seq<u8>> {
        choose|outcome: Option<Seq<u8>>| answers(self.source(), address, length, outcome)
    }

    fn read(&self, address: usize, length: usize) -> (bytes: Option<Vec<u8>>) {
        proof {
            use_type_invariant(self);
        }
        let bytes = (self.read)(address, length);
        assert(answers(self.source(), address, length, bytes_of(bytes)));
        bytes
    }
}

} // verus!
