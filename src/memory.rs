use vstd::prelude::*;

verus! {

/// The guest's linear memory as the host sees it: a flat run of bytes that
/// can be read and written one byte at a time inside its current size.
pub trait LinearMemory {
    /// The bytes that the memory holds now.
    spec fn bytes(&self) -> Seq<u8>;

    /// The current size in bytes.
    fn size(&self) -> (r: usize)
        ensures
            r == self.bytes().len(),
    ;

    /// The byte at `offset`.
    fn load(&self, offset: usize) -> (r: u8)
        requires
            offset < self.bytes().len(),
        ensures
            r == self.bytes()[offset as int],
    ;

    /// Replaces the byte at `offset`.
    fn store(&mut self, offset: usize, value: u8)
        requires
            offset < old(self).bytes().len(),
        ensures
            final(self).bytes() == old(self).bytes().update(offset as int, value),
    ;
}

/// A linear memory held in a vector: the host keeps its own copy of the
/// guest's bytes.
pub struct GuestMemory {
    data: Vec<u8>,
}

impl View for GuestMemory {
    type V = Seq<u8>;

    closed spec fn view(&self) -> Seq<u8> {
        self.data@
    }
}

impl GuestMemory {
    /// A memory of `size` zero bytes.
    pub fn new(size: usize) -> (r: GuestMemory)
        ensures
            r@ == Seq::new(size as nat, |i: int| 0u8),
    {
        let mut data: Vec<u8> = Vec::new();
        let mut i: usize = 0;
        while i < size
            invariant
                i <= size,
                data@ == Seq::new(i as nat, |j: int| 0u8),
            decreases size - i,
        {
            data.push(0u8);
            i = i + 1;
            assert(data@ =~= Seq::new(i as nat, |j: int| 0u8));
        }
        GuestMemory { data }
    }

    /// A memory that holds exactly `data`.
    pub fn from_bytes(data: Vec<u8>) -> (r: GuestMemory)
        ensures
            r@ == data@,
    {
        GuestMemory { data }
    }

    /// The bytes held, in order.
    pub fn as_bytes(&self) -> (r: &[u8])
        ensures
            r@ == self@,
    {
        self.data.as_slice()
    }
}

impl LinearMemory for GuestMemory {
    open spec fn bytes(&self) -> Seq<u8> {
        self@
    }

    fn size(&self) -> (r: usize) {
        self.data.len()
    }

    fn load(&self, offset: usize) -> (r: u8) {
        self.data[offset]
    }

    fn store(&mut self, offset: usize, value: u8) {
        self.data.set(offset, value);
    }
}

impl LinearMemory for [u8] {
    open spec fn bytes(&self) -> Seq<u8> {
        self@
    }

    fn size(&self) -> (r: usize) {
        self.len()
    }

    fn load(&self, offset: usize) -> (r: u8) {
        self[offset]
    }

    fn store(&mut self, offset: usize, value: u8) {
        self[offset] = value;
    }
}

/// The unsigned number that four bytes encode, least significant first.
pub open spec fn u32_from_le(b0: u8, b1: u8, b2: u8, b3: u8) -> int {
    b0 as int + 256 * (b1 as int) + 65536 * (b2 as int) + 16777216 * (b3 as int)
}

/// Whether `len` bytes from `offset` lie inside a memory of `size` bytes.
pub open spec fn in_bounds(offset: int, len: int, size: int) -> bool {
    0 <= offset && 0 <= len && offset + len <= size
}

/// Copies `len` bytes from `offset`, or gives `None` when the range does not
/// lie inside the memory.
pub fn get_bytes<M: LinearMemory + ?Sized>(mem: &M, offset: u32, len: u32) -> (r: Option<Vec<u8>>)
    ensures
        match r {
            Some(v) => in_bounds(offset as int, len as int, mem.bytes().len() as int) && v@
                == mem.bytes().subrange(offset as int, offset + len),
            None => !in_bounds(offset as int, len as int, mem.bytes().len() as int),
        },
{
    let size = mem.size();
    let start = offset as usize;
    let n = len as usize;
    if start > size || n > size - start {
        return None;
    }
    let mut out: Vec<u8> = Vec::new();
    let mut i: usize = 0;
    while i < n
        invariant
            i <= n,
            start + n <= size,
            size == mem.bytes().len(),
            out@ == mem.bytes().subrange(start as int, start + i),
        decreases n - i,
    {
        out.push(mem.load(start + i));
        i = i + 1;
        assert(out@ =~= mem.bytes().subrange(start as int, start + i));
    }
    Some(out)
}

/// Reads the byte at `offset`, or gives `None` past the end of the memory.
pub fn get_u8<M: LinearMemory + ?Sized>(mem: &M, offset: u32) -> (r: Option<u8>)
    ensures
        match r {
            Some(v) => offset < mem.bytes().len() && v == mem.bytes()[offset as int],
            None => offset >= mem.bytes().len(),
        },
{
    let size = mem.size();
    if (offset as usize) < size {
        Some(mem.load(offset as usize))
    } else {
        None
    }
}

/// Reads the little-endian `u32` that starts at `offset`, or gives `None`
/// when its four bytes do not all lie inside the memory.
pub fn get_u32<M: LinearMemory + ?Sized>(mem: &M, offset: u32) -> (r: Option<u32>)
    ensures
        match r {
            Some(v) => in_bounds(offset as int, 4, mem.bytes().len() as int) && v as int
                == u32_from_le(
                mem.bytes()[offset as int],
                mem.bytes()[offset + 1],
                mem.bytes()[offset + 2],
                mem.bytes()[offset + 3],
            ),
            None => !in_bounds(offset as int, 4, mem.bytes().len() as int),
        },
{
    let size = mem.size();
    let start = offset as usize;
    if start > size || 4 > size - start {
        return None;
    }
    let b0 = mem.load(start);
    let b1 = mem.load(start + 1);
    let b2 = mem.load(start + 2);
    let b3 = mem.load(start + 3);
    Some(b0 as u32 + 256 * (b1 as u32) + 65536 * (b2 as u32) + 16777216 * (b3 as u32))
}

/// Writes one byte at `offset` and reports success; past the end of the
/// memory nothing is written and the result is `false`.
pub fn set_u8<M: LinearMemory + ?Sized>(mem: &mut M, offset: u32, value: u8) -> (ok: bool)
    ensures
        ok == (offset < old(mem).bytes().len()),
        ok ==> final(mem).bytes() == old(mem).bytes().update(offset as int, value),
        !ok ==> final(mem).bytes() == old(mem).bytes(),
{
    let size = mem.size();
    if (offset as usize) < size {
        mem.store(offset as usize, value);
        true
    } else {
        false
    }
}

} // verus!
