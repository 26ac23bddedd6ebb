//! The part of a flash partition table that the OTA data logic needs: what
//! a partition is for, and the bytes it holds.

use vstd::prelude::*;

verus! {

/// Sub-types of an application partition.
#[derive(Debug, Clone, Copy, PartialEq, Eq, Structural)]
pub enum AppPartitionSubType {
    /// Factory image
    Factory,
    /// OTA slot 0
    Ota0,
    /// OTA slot 1
    Ota1,
    /// Test image
    Test,
}

/// Sub-types of a data partition.
#[derive(Debug, Clone, Copy, PartialEq, Eq, Structural)]
pub enum DataPartitionSubType {
    /// Data partition which stores OTA information
    Ota,
    /// Phy init data
    Phy,
    /// Non-volatile storage
    Nvs,
    /// Core dump
    Coredump,
    /// Keys of an encrypted non-volatile storage
    NvsKeys,
    /// FAT file system
    Fat,
    /// SPIFFS file system
    Spiffs,
    /// LittleFS file system
    LittleFs,
}

/// What a partition holds.
#[derive(Debug, Clone, Copy, PartialEq, Eq, Structural)]
pub enum PartitionType {
    /// Application.
    App(AppPartitionSubType),
    /// Data.
    Data(DataPartitionSubType),
}

/// Errors which can be returned.
#[derive(Debug, Clone, Copy, PartialEq, Eq, Structural)]
pub enum Error {
    /// The partition table or a value read from it is invalid.
    Invalid,
    /// An access beyond the end of the partition.
    OutOfBounds,
    /// The partition is not what the operation needs.
    InvalidPartition {
        /// The size that it needs.
        expected_size: usize,
        /// The type that it needs.
        expected_type: PartitionType,
    },
    /// The operation is not possible in the current state.
    InvalidState,
}

/// A region of flash: the bytes of one partition, and what it is for.
#[derive(Debug, Clone)]
pub struct FlashRegion {
    partition_type: PartitionType,
    data: Vec<u8>,
}

impl View for FlashRegion {
    type V = Seq<u8>;

    closed spec fn view(&self) -> Seq<u8> {
        self.data@
    }
}

/// `data` with `bytes` written at `offset`.
pub open spec fn splice(data: Seq<u8>, offset: int, bytes: Seq<u8>) -> Seq<u8> {
    Seq::new(
        data.len(),
        |i: int|
            if offset <= i < offset + bytes.len() {
                bytes[i - offset]
            } else {
                data[i]
            },
    )
}

/// `len` bytes of `data` from `offset` on.
pub open spec fn slice_at(data: Seq<u8>, offset: int, len: int) -> Seq<u8> {
    data.subrange(offset, offset + len)
}

impl FlashRegion {
    /// What the partition is for.
    pub closed spec fn kind(&self) -> PartitionType {
        self.partition_type
    }

    /// A region for a partition of type `partition_type` that holds `data`.
    pub fn new(partition_type: PartitionType, data: Vec<u8>) -> (region: FlashRegion)
        ensures
            region@ == data@,
            region.kind() == partition_type,
    {
        FlashRegion { partition_type, data }
    }

    /// The size of the partition in bytes.
    pub fn capacity(&self) -> (size: usize)
        ensures
            size == self@.len(),
    {
        self.data.len()
    }

    /// What the partition is for.
    pub fn partition_type(&self) -> (kind: PartitionType)
        ensures
            kind == self.kind(),
    {
        self.partition_type
    }

    /// The bytes of the partition.
    pub fn data(&self) -> (data: &Vec<u8>)
        ensures
            data@ == self@,
    {
        &self.data
    }

    /// Reads `len` bytes from `offset` on.
    pub fn read(&self, offset: usize, len: usize) -> (bytes: Result<Vec<u8>, Error>)
        ensures
            offset + len <= self@.len() <==> bytes is Ok,
            bytes matches Ok(b) ==> b@ == slice_at(self@, offset as int, len as int),
            bytes matches Err(e) ==> e == Error::OutOfBounds,
    {
        if len > self.data.len() || offset > self.data.len() - len {
            return Err(Error::OutOfBounds);
        }
        let mut bytes: Vec<u8> = Vec::new();
        let mut i: usize = 0;
        while i < len
            invariant
                i <= len,
                offset + len <= self.data@.len() <= usize::MAX,
                bytes@ == self.data@.subrange(offset as int, offset + i),
            decreases len - i,
        {
            bytes.push(self.data[offset + i]);
            i += 1;
        }
        Ok(bytes)
    }

    /// Writes `bytes` from `offset` on.
    pub fn write(&mut self, offset: usize, bytes: &Vec<u8>) -> (done: Result<(), Error>)
        ensures
            final(self).kind() == old(self).kind(),
            offset + bytes@.len() <= old(self)@.len() <==> done is Ok,
            done is Ok ==> final(self)@ == splice(old(self)@, offset as int, bytes@),
            done matches Err(e) ==> e == Error::OutOfBounds && final(self)@ == old(self)@,
    {
        let len: usize = bytes.len();
        if len > self.data.len() || offset > self.data.len() - len {
            return Err(Error::OutOfBounds);
        }
        let mut i: usize = 0;
        while i < len
            invariant
                i <= len,
                len == bytes@.len(),
                self.data@.len() == old(self).data@.len(),
                offset + len <= self.data@.len() <= usize::MAX,
                self.partition_type == old(self).partition_type,
                self.data@ == splice(old(self).data@, offset as int, bytes@.subrange(0, i as int)),
            decreases len - i,
        {
            self.data.set(offset + i, bytes[i]);
            i += 1;
        }
        assert(bytes@.subrange(0, len as int) == bytes@);
        Ok(())
    }
}

} // verus!
