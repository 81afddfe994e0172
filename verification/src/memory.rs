//! The host/guest memory bridge: the ABI for passing structured data
//! across the trust boundary.
//!
//! Values crossing a host/module call are encoded as a single
//! unsigned 64-bit word that combines a memory offset (high 32 bits)
//! with a byte length (low 32 bits).  To pass a buffer into a module
//! call, the host asks the module's allocator for a region, copies
//! the payload into it, and passes the encoded word.  To read a
//! result out, the host decodes the returned word and copies the
//! region out of the module's memory.  Every access is bounds-checked
//! against the current memory size: an offset/length pair that
//! reaches beyond it fails with a structured boundary error and no
//! byte outside the module's region is touched.

use vstd::prelude::*;
use crate::error::BoundaryError;

verus! {

/// The boundary word for a region: offset in the high 32 bits,
/// length in the low 32 bits.
pub open spec fn slice_word(offset: u32, length: u32) -> u64 {
    ((offset as u64) << 32u64) | (length as u64)
}

/// The offset half of a boundary word.
pub open spec fn word_offset(w: u64) -> u32 {
    (w >> 32u64) as u32
}

/// The length half of a boundary word.
pub open spec fn word_length(w: u64) -> u32 {
    (w & 0xFFFF_FFFFu64) as u32
}

/// Decoding a boundary word recovers exactly the offset and length
/// that were encoded.
pub proof fn lemma_slice_word_roundtrip(offset: u32, length: u32)
    ensures
        word_offset(slice_word(offset, length)) == offset,
        word_length(slice_word(offset, length)) == length,
{
    assert((((offset as u64) << 32u64) | (length as u64)) >> 32u64 == offset as u64)
        by (bit_vector);
    assert(((((offset as u64) << 32u64) | (length as u64)) & 0xFFFF_FFFFu64) == length as u64)
        by (bit_vector);
}

pub fn encode_slice_word(offset: u32, length: u32) -> (w: u64)
    ensures
        w == slice_word(offset, length),
        word_offset(w) == offset,
        word_length(w) == length,
{
    proof {
        lemma_slice_word_roundtrip(offset, length);
    }
    ((offset as u64) << 32u64) | (length as u64)
}

pub fn decode_word_offset(w: u64) -> (offset: u32)
    ensures
        offset == word_offset(w),
{
    (w >> 32u64) as u32
}

pub fn decode_word_length(w: u64) -> (length: u32)
    ensures
        length == word_length(w),
{
    (w & 0xFFFF_FFFFu64) as u32
}

/// What a bounds-checked read of `length` bytes at `offset` yields:
/// the bytes of that region, or nothing when the region reaches
/// beyond the memory.
pub open spec fn spec_read(mem: Seq<u8>, offset: u32, length: u32) -> Option<Seq<u8>> {
    if offset + length <= mem.len() {
        Some(mem.subrange(offset as int, offset + length))
    } else {
        None
    }
}

/// Memory after writing `bytes` at `offset` (in bounds).
pub open spec fn spec_write(mem: Seq<u8>, offset: u32, bytes: Seq<u8>) -> Seq<u8> {
    mem.subrange(0, offset as int) + bytes + mem.subrange(offset + bytes.len(), mem.len() as int)
}

/// The host's model of one module's linear memory, together with the
/// module's allocator.  Exactly one bridge exists per module
/// instance; it must not outlive the instance.
///
/// The allocator is modeled the way a freshly instantiated module
/// behaves: a request for `length` bytes grows the memory and hands
/// back the offset of the new region.
#[derive(Debug)]
pub struct ModuleMemory {
    data: Vec<u8>,
}

impl View for ModuleMemory {
    type V = Seq<u8>;

    closed spec fn view(&self) -> Seq<u8> {
        self.data@
    }
}

impl ModuleMemory {
    pub fn new(size: usize) -> (m: ModuleMemory)
        ensures
            m@.len() == size,
            forall|i: int| 0 <= i < size ==> m@[i] == 0u8,
    {
        ModuleMemory { data: vec![0u8; size] }
    }

    pub fn size(&self) -> (n: usize)
        ensures
            n == self@.len(),
    {
        self.data.len()
    }

    /// Bounds-checked read: copies `length` bytes starting at
    /// `offset` out of the module's memory into host-owned storage.
    /// An offset/length pair that exceeds the current memory size
    /// fails with a boundary error.
    pub fn read(&self, offset: u32, length: u32) -> (r: Result<Vec<u8>, BoundaryError>)
        ensures
            match r {
                Ok(bytes) => spec_read(self@, offset, length) == Some(bytes@),
                Err(e) => {
                    &&& spec_read(self@, offset, length) is None
                    &&& (e matches BoundaryError::OutOfBounds { offset: o2, length: l2, size: s2 }
                        && o2 == offset && l2 == length && s2 == self@.len())
                },
            },
    {
        let size = self.data.len();
        let end: u64 = offset as u64 + length as u64;
        if end > size as u64 {
            return Err(BoundaryError::OutOfBounds { offset, length, size });
        }
        let mut bytes: Vec<u8> = Vec::new();
        let mut i: usize = 0;
        while i < length as usize
            invariant
                offset + length <= self@.len(),
                self@.len() <= usize::MAX,
                i <= length,
                bytes@ == self@.subrange(offset as int, offset + i),
            decreases length as usize - i,
        {
            bytes.push(self.data[offset as usize + i]);
            proof {
                assert(bytes@ =~= self@.subrange(offset as int, offset + i + 1));
            }
            i += 1;
        }
        proof {
            assert(bytes@ =~= self@.subrange(offset as int, offset + length));
        }
        Ok(bytes)
    }

    /// Bounds-checked write of `bytes` at `offset`.  On failure the
    /// memory is unchanged.
    pub fn write(&mut self, offset: u32, bytes: &Vec<u8>) -> (r: Result<(), BoundaryError>)
        requires
            bytes@.len() <= u32::MAX,
        ensures
            match r {
                Ok(()) => {
                    &&& offset + bytes@.len() <= old(self)@.len()
                    &&& final(self)@ == spec_write(old(self)@, offset, bytes@)
                },
                Err(e) => {
                    &&& offset + bytes@.len() > old(self)@.len()
                    &&& *final(self) == *old(self)
                    &&& (e matches BoundaryError::OutOfBounds { offset: o2, length: l2, size: s2 }
                        && o2 == offset && l2 == bytes@.len() && s2 == old(self)@.len())
                },
            },
    {
        let size = self.data.len();
        let end: u64 = offset as u64 + bytes.len() as u64;
        if end > size as u64 {
            return Err(BoundaryError::OutOfBounds {
                offset,
                length: bytes.len() as u32,
                size,
            });
        }
        let mut i: usize = 0;
        while i < bytes.len()
            invariant
                offset + bytes@.len() <= self@.len(),
                self@.len() <= usize::MAX,
                i <= bytes@.len(),
                self@.len() == old(self)@.len(),
                forall|j: int| 0 <= j < offset ==> self@[j] == old(self)@[j],
                forall|j: int| 0 <= j < i ==> self@[offset + j] == bytes@[j],
                forall|j: int| offset + bytes@.len() <= j < self@.len()
                    ==> self@[j] == old(self)@[j],
            decreases bytes@.len() - i,
        {
            self.data[offset as usize + i] = bytes[i];
            i += 1;
        }
        proof {
            assert(self@ =~= spec_write(old(self)@, offset, bytes@));
        }
        Ok(())
    }

    /// The module's allocator: obtains a fresh region of `length`
    /// bytes and returns its offset.  Fails when the memory cannot
    /// grow that far.
    pub fn allocate(&mut self, length: u32) -> (r: Result<u32, BoundaryError>)
        ensures
            match r {
                Ok(offset) => {
                    &&& offset == old(self)@.len()
                    &&& old(self)@.len() + length <= u32::MAX
                    &&& final(self)@.len() == old(self)@.len() + length
                    &&& final(self)@.subrange(0, old(self)@.len() as int) == old(self)@
                },
                Err(e) => {
                    &&& old(self)@.len() + length > u32::MAX
                    &&& *final(self) == *old(self)
                    &&& e == (BoundaryError::AllocFailed { length })
                },
            },
    {
        let size = self.data.len();
        if size > u32::MAX as usize || length as u64 > u32::MAX as u64 - size as u64 {
            return Err(BoundaryError::AllocFailed { length });
        }
        let offset = size as u32;
        let mut i: usize = 0;
        while i < length as usize
            invariant
                self@.len() == old(self)@.len() + i,
                i <= length,
                self@.subrange(0, old(self)@.len() as int) == old(self)@,
            decreases length as usize - i,
        {
            self.data.push(0u8);
            proof {
                assert(self@.subrange(0, old(self)@.len() as int)
                    =~= self@.subrange(0, self@.len() - 1).subrange(0, old(self)@.len() as int));
            }
            i += 1;
        }
        Ok(offset)
    }

    /// Pass a buffer into the module: ask the allocator for a region,
    /// copy the payload into it, and return the encoded boundary
    /// word.  On failure the memory is unchanged.
    pub fn encode_buffer(&mut self, bytes: &Vec<u8>) -> (r: Result<u64, BoundaryError>)
        ensures
            match r {
                Ok(w) => {
                    &&& word_offset(w) == old(self)@.len()
                    &&& word_length(w) == bytes@.len()
                    &&& spec_read(final(self)@, word_offset(w), word_length(w)) == Some(bytes@)
                    &&& final(self)@.subrange(0, old(self)@.len() as int) == old(self)@
                    &&& final(self)@.len() == old(self)@.len() + bytes@.len()
                },
                Err(e) => {
                    &&& old(self)@.len() + bytes@.len() > u32::MAX
                    &&& *final(self) == *old(self)
                    &&& (e matches BoundaryError::AllocFailed { .. })
                },
            },
    {
        if bytes.len() as u64 > u32::MAX as u64 {
            // A buffer this large cannot be described by a boundary
            // word at all, whatever the allocator would say.
            return Err(BoundaryError::AllocFailed { length: u32::MAX });
        }
        let length = bytes.len() as u32;
        let offset = match self.allocate(length) {
            Ok(offset) => offset,
            Err(e) => {
                return Err(e);
            },
        };
        let ghost mid = self@;
        match self.write(offset, bytes) {
            Ok(()) => {},
            Err(_e) => {
                // The allocator has just grown the memory past this
                // region, so the write cannot be out of bounds.
                proof {
                    assert(false);
                }
            },
        }
        proof {
            lemma_slice_word_roundtrip(offset, length);
            assert(self@ == spec_write(mid, offset, bytes@));
            assert(self@.len() == mid.len());
            assert(self@.subrange(offset as int, offset + length) =~= bytes@);
            assert(self@.subrange(0, old(self)@.len() as int) =~= old(self)@);
        }
        Ok(encode_slice_word(offset, length))
    }

    /// Read a result out of the module: decode the boundary word and
    /// copy the region it names out of the module's memory.
    pub fn read_slice(&self, w: u64) -> (r: Result<Vec<u8>, BoundaryError>)
        ensures
            match r {
                Ok(bytes) => spec_read(self@, word_offset(w), word_length(w)) == Some(bytes@),
                Err(e) => {
                    &&& spec_read(self@, word_offset(w), word_length(w)) is None
                    &&& e matches BoundaryError::OutOfBounds { offset, length, size: _ }
                        && offset == word_offset(w) && length == word_length(w)
                },
            },
    {
        let offset = decode_word_offset(w);
        let length = decode_word_length(w);
        self.read(offset, length)
    }
}

/// Round trip across the boundary: encoding a buffer into a module's
/// memory via the allocator and immediately decoding the same
/// offset+length word reproduces the original bytes exactly.
///
/// The allocator places the region at the end of the old memory and
/// grows it by the buffer's length; the buffer is then written there
/// and the word encodes that region.  Reading the word back yields
/// the buffer, whatever the memory held before.
pub proof fn lemma_encode_decode_roundtrip(mem: Seq<u8>, fill: Seq<u8>, bytes: Seq<u8>)
    requires
        mem.len() + bytes.len() <= u32::MAX,
        fill.len() == bytes.len(),
    ensures
        ({
            let grown = mem + fill;
            let written = spec_write(grown, mem.len() as u32, bytes);
            let w = slice_word(mem.len() as u32, bytes.len() as u32);
            spec_read(written, word_offset(w), word_length(w)) == Some(bytes)
        }),
{
    let offset = mem.len() as u32;
    let length = bytes.len() as u32;
    lemma_slice_word_roundtrip(offset, length);
    let grown = mem + fill;
    let written = spec_write(grown, offset, bytes);
    assert(written.len() == grown.len());
    assert(written.subrange(offset as int, offset + length) =~= bytes);
}

} // verus!
