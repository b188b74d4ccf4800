//! A verified in-memory block device: the whole volume held as one byte
//! vector. It backs the round-trip law that writing a range and reading it
//! back returns the bytes that were written.

use crate::BlockDevice;
use crate::BlockError;
use crate::EINVAL;
use vstd::prelude::*;

verus! {

/// The volume contents after `bytes` has been stored at `offset`.
pub open spec fn spec_store(contents: Seq<u8>, offset: int, bytes: Seq<u8>) -> Seq<u8>
    recommends
        0 <= offset,
        offset + bytes.len() <= contents.len(),
{
    contents.subrange(0, offset) + bytes + contents.subrange(
        offset + bytes.len(),
        contents.len() as int,
    )
}

/// Law: storing a byte range and then reading the same range back returns
/// exactly the bytes that were stored, and leaves the volume length alone.
pub proof fn lemma_store_read_round_trip(contents: Seq<u8>, offset: int, bytes: Seq<u8>)
    requires
        0 <= offset,
        offset + bytes.len() <= contents.len(),
    ensures
        spec_store(contents, offset, bytes).len() == contents.len(),
        spec_store(contents, offset, bytes).subrange(offset, offset + bytes.len()) == bytes,
{
    assert(spec_store(contents, offset, bytes).subrange(offset, offset + bytes.len()) =~= bytes);
}

/// An in-memory block device over a byte vector whose length is a whole
/// number of blocks.
#[derive(Debug)]
pub struct MemBlockDevice {
    data: Vec<u8>,
    block_size: u32,
}

impl MemBlockDevice {
    /// Every device holds a kernel-acceptable block size and a whole number
    /// of blocks.
    #[verifier::type_invariant]
    spec fn wf(&self) -> bool {
        &&& vstd::arithmetic::power2::is_pow2(self.block_size as int)
        &&& self.block_size >= 512
        &&& (self.data@.len() as int) % (self.block_size as int) == 0
    }

    /// The bytes of the volume.
    pub closed spec fn contents(&self) -> Seq<u8> {
        self.data@
    }

    /// The block size the device reports.
    pub closed spec fn spec_block_size(&self) -> u32 {
        self.block_size
    }

    /// Creates a device over `data`, which must hold a whole number of
    /// blocks of a kernel-acceptable block size.
    pub fn from_vec(data: Vec<u8>, block_size: u32) -> (d: MemBlockDevice)
        requires
            vstd::arithmetic::power2::is_pow2(block_size as int),
            block_size >= 512,
            (data@.len() as int) % (block_size as int) == 0,
        ensures
            d.contents() == data@,
            d.spec_block_size() == block_size,
    {
        MemBlockDevice { data, block_size }
    }

    /// Fills `buf` from the volume starting at `offset`. A range that
    /// leaves the volume is refused with `EINVAL` and the buffer is left as
    /// it was.
    pub fn read_at(&self, offset: u64, buf: &mut Vec<u8>) -> (r: Result<(), BlockError>)
        ensures
            final(buf)@.len() == old(buf)@.len(),
            offset + old(buf)@.len() <= self.contents().len() ==> r is Ok && final(buf)@
                == self.contents().subrange(offset as int, offset + old(buf)@.len()),
            offset + old(buf)@.len() > self.contents().len() ==> r == Err::<(), BlockError>(
                BlockError { errno: Some(EINVAL) },
            ) && final(buf)@ == old(buf)@,
    {
        let n = self.data.len();
        if offset > n as u64 || buf.len() as u64 > n as u64 - offset {
            return Err(BlockError { errno: Some(EINVAL) });
        }
        let start = offset as usize;
        let count = buf.len();
        let mut i: usize = 0;
        while i < count
            invariant
                i <= count,
                buf@.len() == count,
                n == self.data@.len(),
                start + count <= self.data@.len(),
                forall|j: int| 0 <= j < i ==> buf@[j] == self.data@[start + j],
            decreases count - i,
        {
            let v = self.data[start + i];
            buf[i] = v;
            i += 1;
        }
        proof {
            assert(buf@ =~= self.contents().subrange(offset as int, offset + count));
        }
        Ok(())
    }

    /// Stores `bytes` into the volume starting at `offset`. A range that
    /// leaves the volume is refused with `EINVAL` and the volume is left as
    /// it was.
    pub fn write_at(&mut self, offset: u64, bytes: &[u8]) -> (r: Result<(), BlockError>)
        ensures
            final(self).spec_block_size() == old(self).spec_block_size(),
            offset + bytes@.len() <= old(self).contents().len() ==> r is Ok
                && final(self).contents() == spec_store(
                old(self).contents(),
                offset as int,
                bytes@,
            ),
            offset + bytes@.len() > old(self).contents().len() ==> r == Err::<(), BlockError>(
                BlockError { errno: Some(EINVAL) },
            ) && final(self).contents() == old(self).contents(),
    {
        proof {
            use_type_invariant(&*self);
        }
        let n = self.data.len();
        if offset > n as u64 || bytes.len() as u64 > n as u64 - offset {
            return Err(BlockError { errno: Some(EINVAL) });
        }
        let start = offset as usize;
        let count = bytes.len();
        let mut i: usize = 0;
        while i < count
            invariant
                i <= count,
                self.wf(),
                n == self.data@.len(),
                self.data@.len() == old(self).data@.len(),
                self.block_size == old(self).block_size,
                start + count <= self.data@.len(),
                bytes@.len() == count,
                forall|j: int| 0 <= j < start ==> self.data@[j] == old(self).data@[j],
                forall|j: int| 0 <= j < i ==> self.data@[start + j] == bytes@[j],
                forall|j: int|
                    start + count <= j < self.data@.len() ==> self.data@[j] == old(self).data@[j],
            decreases count - i,
        {
            let v = bytes[i];
            self.data[start + i] = v;
            i += 1;
        }
        proof {
            assert(self.data@ =~= spec_store(old(self).contents(), offset as int, bytes@));
        }
        Ok(())
    }

    /// The number of whole blocks the volume holds.
    pub fn block_count(&self) -> (r: u64)
        ensures
            r == self.contents().len() as int / self.spec_block_size() as int,
    {
        proof {
            use_type_invariant(&*self);
        }
        (self.data.len() / (self.block_size as usize)) as u64
    }

    /// The block size the device was created with.
    pub fn block_size_bytes(&self) -> (r: u32)
        ensures
            r == self.spec_block_size(),
    {
        self.block_size
    }
}

impl BlockDevice for MemBlockDevice {
    /// Serves a driver read from the volume exactly as
    /// [`MemBlockDevice::read_at`] does, leaving the volume untouched.
    fn read(&mut self, offset: u64, bytes: &mut Vec<u8>) -> (r: Result<(), BlockError>)
        ensures
            *final(self) == *old(self),
            final(bytes)@.len() == old(bytes)@.len(),
            offset + old(bytes)@.len() <= old(self).contents().len() ==> r is Ok && final(bytes)@
                == old(self).contents().subrange(offset as int, offset + old(bytes)@.len()),
            offset + old(bytes)@.len() > old(self).contents().len() ==> r == Err::<(), BlockError>(
                BlockError { errno: Some(EINVAL) },
            ) && final(bytes)@ == old(bytes)@,
    {
        self.read_at(offset, bytes)
    }

    /// Serves a driver write to the volume exactly as
    /// [`MemBlockDevice::write_at`] does.
    fn write(&mut self, offset: u64, bytes: &[u8]) -> (r: Result<(), BlockError>)
        ensures
            final(self).spec_block_size() == old(self).spec_block_size(),
            offset + bytes@.len() <= old(self).contents().len() ==> r is Ok
                && final(self).contents() == spec_store(
                old(self).contents(),
                offset as int,
                bytes@,
            ),
            offset + bytes@.len() > old(self).contents().len() ==> r == Err::<(), BlockError>(
                BlockError { errno: Some(EINVAL) },
            ) && final(self).contents() == old(self).contents(),
    {
        self.write_at(offset, bytes)
    }

    fn block_size(&self) -> (r: u32)
        ensures
            r == self.spec_block_size(),
    {
        self.block_size_bytes()
    }

    fn blocks(&self) -> (r: u64)
        ensures
            r == self.contents().len() as int / self.spec_block_size() as int,
    {
        self.block_count()
    }
}

} // verus!
