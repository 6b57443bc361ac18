//! The two fixed-size records of a split virtqueue and their wire format.

use crate::wire::{
    le_bytes, le_read, le_value, le_write, lemma_le_bytes_len, lemma_le_round_trip,
    lemma_le_value_bound, pow256,
};
use vstd::prelude::*;

verus! {

/// Marks a buffer as continuing via the next field.
pub const VIRTQ_DESC_F_NEXT: u16 = 0x1;

/// Marks a buffer as device write-only.
pub const VIRTQ_DESC_F_WRITE: u16 = 0x2;

/// Shows that the buffer contains a list of buffer descriptors.
pub const VIRTQ_DESC_F_INDIRECT: u16 = 0x4;

/// Number of bytes a descriptor occupies in the descriptor table.
pub const VIRTQ_DESCRIPTOR_SIZE: usize = 16;

/// A virtio descriptor: one buffer of a chain.
#[derive(Clone, Copy, Debug)]
pub struct Descriptor {
    /// Guest physical address of device specific data
    pub addr: u64,
    /// Length of device specific data
    pub len: u32,
    /// Includes next, write, and indirect bits
    pub flags: u16,
    /// Index into the descriptor table of the next descriptor if flags has
    /// the next bit set
    pub next: u16,
}

impl Default for Descriptor {
    fn default() -> (d: Descriptor)
        ensures
            d == (Descriptor { addr: 0, len: 0, flags: 0, next: 0 }),
    {
        Descriptor { addr: 0, len: 0, flags: 0, next: 0 }
    }
}

impl Descriptor {
    /// Creates a descriptor from its four fields.
    pub fn new(addr: u64, len: u32, flags: u16, next: u16) -> (d: Descriptor)
        ensures
            d == (Descriptor { addr, len, flags, next }),
    {
        Descriptor { addr, len, flags, next }
    }

    /// The sixteen bytes that stand for this descriptor in the descriptor
    /// table: `addr`, `len`, `flags` and `next`, each little-endian.
    pub open spec fn encode(self) -> Seq<u8> {
        le_bytes(self.addr as nat, 8) + le_bytes(self.len as nat, 4) + le_bytes(
            self.flags as nat,
            2,
        ) + le_bytes(self.next as nat, 2)
    }

    /// The descriptor that sixteen bytes of the descriptor table stand for.
    pub open spec fn decode(bytes: Seq<u8>) -> Descriptor
        recommends
            bytes.len() == 16,
    {
        Descriptor {
            addr: le_value(bytes.subrange(0, 8)) as u64,
            len: le_value(bytes.subrange(8, 12)) as u32,
            flags: le_value(bytes.subrange(12, 14)) as u16,
            next: le_value(bytes.subrange(14, 16)) as u16,
        }
    }

    /// Parses a descriptor from its sixteen bytes in the descriptor table.
    pub fn from_bytes(bytes: &[u8; VIRTQ_DESCRIPTOR_SIZE]) -> (d: Descriptor)
        ensures
            d == Descriptor::decode(bytes@),
    {
        let addr = le_read(bytes, 0, 8);
        let len = le_read(bytes, 8, 4);
        let flags = le_read(bytes, 12, 2);
        let next = le_read(bytes, 14, 2);
        proof {
            lemma_le_value_bound(bytes@.subrange(8, 12));
            lemma_le_value_bound(bytes@.subrange(12, 14));
            lemma_le_value_bound(bytes@.subrange(14, 16));
            reveal_with_fuel(pow256, 5);
        }
        Descriptor { addr, len: len as u32, flags: flags as u16, next: next as u16 }
    }

    /// Lays the descriptor out as its sixteen bytes in the descriptor table.
    pub fn to_bytes(&self) -> (bytes: [u8; VIRTQ_DESCRIPTOR_SIZE])
        ensures
            bytes@ == self.encode(),
    {
        let mut bytes: [u8; VIRTQ_DESCRIPTOR_SIZE] = [0u8; VIRTQ_DESCRIPTOR_SIZE];
        le_write(&mut bytes, 0, 8, self.addr);
        le_write(&mut bytes, 8, 4, self.len as u64);
        le_write(&mut bytes, 12, 2, self.flags as u64);
        le_write(&mut bytes, 14, 2, self.next as u64);
        proof {
            lemma_le_bytes_len(self.addr as nat, 8);
            lemma_le_bytes_len(self.len as nat, 4);
            lemma_le_bytes_len(self.flags as nat, 2);
            lemma_le_bytes_len(self.next as nat, 2);
            assert(bytes@ =~= bytes@.subrange(0, 8) + bytes@.subrange(8, 12) + bytes@.subrange(
                12,
                14,
            ) + bytes@.subrange(14, 16));
            assert(bytes@.subrange(0, 8) =~= le_bytes(self.addr as nat, 8));
            assert(bytes@.subrange(8, 12) =~= le_bytes(self.len as nat, 4));
            assert(bytes@.subrange(12, 14) =~= le_bytes(self.flags as nat, 2));
        }
        bytes
    }

    /// Return the guest physical address of descriptor buffer
    pub fn addr(&self) -> (r: u64)
        ensures
            r == self.addr,
    {
        self.addr
    }

    /// Return the length of descriptor buffer
    pub fn len(&self) -> (r: u32)
        ensures
            r == self.len,
    {
        self.len
    }

    /// Return the flags for this descriptor, including next, write and indirect
    /// bits
    pub fn flags(&self) -> (r: u16)
        ensures
            r == self.flags,
    {
        self.flags
    }

    /// Return the value stored in the `next` field of the descriptor.
    pub fn next(&self) -> (r: u16)
        ensures
            r == self.next,
    {
        self.next
    }

    /// Whether the flags mark this descriptor as pointing to an indirect
    /// table.
    pub open spec fn spec_is_indirect(&self) -> bool {
        self.flags & VIRTQ_DESC_F_INDIRECT != 0
    }

    /// Whether the flags say that another descriptor follows.
    pub open spec fn spec_has_next(&self) -> bool {
        self.flags & VIRTQ_DESC_F_NEXT != 0
    }

    /// Whether the flags mark the buffer as one the device writes.
    pub open spec fn spec_is_write_only(&self) -> bool {
        self.flags & VIRTQ_DESC_F_WRITE != 0
    }

    /// Check whether this is an indirect descriptor.
    #[verifier::when_used_as_spec(spec_is_indirect)]
    pub fn is_indirect(&self) -> (r: bool)
        ensures
            r == self.spec_is_indirect(),
    {
        self.flags() & VIRTQ_DESC_F_INDIRECT != 0
    }

    /// Check whether the `VIRTQ_DESC_F_NEXT` is set for the descriptor.
    #[verifier::when_used_as_spec(spec_has_next)]
    pub fn has_next(&self) -> (r: bool)
        ensures
            r == self.spec_has_next(),
    {
        self.flags() & VIRTQ_DESC_F_NEXT != 0
    }

    /// Checks if the driver designated this as a write only descriptor.
    ///
    /// If this is false, this descriptor is read only.
    /// Write only means the the emulated device can write and the driver can read.
    #[verifier::when_used_as_spec(spec_is_write_only)]
    pub fn is_write_only(&self) -> (r: bool)
        ensures
            r == self.spec_is_write_only(),
    {
        self.flags & VIRTQ_DESC_F_WRITE != 0
    }
}


/// Represents the contents of an element from the used virtqueue ring.
#[derive(Clone, Copy, Debug)]
pub struct VirtqUsedElem {
    /// Index of the head of the descriptor chain that was used.
    pub id: u32,
    /// Number of bytes that the device wrote into the chain's buffers.
    pub len: u32,
}

impl Default for VirtqUsedElem {
    fn default() -> (e: VirtqUsedElem)
        ensures
            e == (VirtqUsedElem { id: 0, len: 0 }),
    {
        VirtqUsedElem { id: 0, len: 0 }
    }
}

impl VirtqUsedElem {
    /// The element that reports the chain of head `id`, with `len` bytes
    /// written: the head widened to 32 bits, and the length.
    pub open spec fn spec_new(id: u16, len: u32) -> VirtqUsedElem {
        VirtqUsedElem { id: id as u32, len }
    }

    /// Create a new `VirtqUsedElem` instance.
    #[verifier::when_used_as_spec(spec_new)]
    pub fn new(id: u16, len: u32) -> (e: VirtqUsedElem)
        ensures
            e == (VirtqUsedElem { id: id as u32, len }),
            e == Self::spec_new(id, len),
    {
        VirtqUsedElem { id: id as u32, len }
    }

    /// The eight bytes that stand for this element in the used ring: `id`
    /// and `len`, each little-endian.
    pub open spec fn encode(self) -> Seq<u8> {
        le_bytes(self.id as nat, 4) + le_bytes(self.len as nat, 4)
    }

    /// The element that eight bytes of the used ring stand for.
    pub open spec fn decode(bytes: Seq<u8>) -> VirtqUsedElem
        recommends
            bytes.len() == 8,
    {
        VirtqUsedElem {
            id: le_value(bytes.subrange(0, 4)) as u32,
            len: le_value(bytes.subrange(4, 8)) as u32,
        }
    }

    /// Parses an element from its eight bytes in the used ring.
    pub fn from_bytes(bytes: &[u8; 8]) -> (e: VirtqUsedElem)
        ensures
            e == VirtqUsedElem::decode(bytes@),
    {
        let id = le_read(bytes, 0, 4);
        let len = le_read(bytes, 4, 4);
        proof {
            lemma_le_value_bound(bytes@.subrange(0, 4));
            lemma_le_value_bound(bytes@.subrange(4, 8));
            reveal_with_fuel(pow256, 5);
        }
        VirtqUsedElem { id: id as u32, len: len as u32 }
    }

    /// Lays the element out as its eight bytes in the used ring.
    pub fn to_bytes(&self) -> (bytes: [u8; 8])
        ensures
            bytes@ == self.encode(),
    {
        let mut bytes: [u8; 8] = [0u8; 8];
        le_write(&mut bytes, 0, 4, self.id as u64);
        le_write(&mut bytes, 4, 4, self.len as u64);
        proof {
            lemma_le_bytes_len(self.id as nat, 4);
            lemma_le_bytes_len(self.len as nat, 4);
            assert(bytes@ =~= bytes@.subrange(0, 4) + bytes@.subrange(4, 8));
            assert(bytes@.subrange(0, 4) =~= le_bytes(self.id as nat, 4));
        }
        bytes
    }
}

/// Parsing the bytes that a descriptor is laid out as gives the descriptor
/// back, field for field.
pub proof fn lemma_descriptor_round_trip(d: Descriptor)
    ensures
        d.encode().len() == 16,
        Descriptor::decode(d.encode()) == d,
{
    let bytes = d.encode();
    lemma_le_bytes_len(d.addr as nat, 8);
    lemma_le_bytes_len(d.len as nat, 4);
    lemma_le_bytes_len(d.flags as nat, 2);
    lemma_le_bytes_len(d.next as nat, 2);
    assert(bytes.subrange(0, 8) =~= le_bytes(d.addr as nat, 8));
    assert(bytes.subrange(8, 12) =~= le_bytes(d.len as nat, 4));
    assert(bytes.subrange(12, 14) =~= le_bytes(d.flags as nat, 2));
    assert(bytes.subrange(14, 16) =~= le_bytes(d.next as nat, 2));
    reveal_with_fuel(pow256, 9);
    lemma_le_round_trip(d.addr as nat, 8);
    lemma_le_round_trip(d.len as nat, 4);
    lemma_le_round_trip(d.flags as nat, 2);
    lemma_le_round_trip(d.next as nat, 2);
}

/// Parsing the bytes that an element of the used ring is laid out as gives
/// the element back.
pub proof fn lemma_used_elem_round_trip(e: VirtqUsedElem)
    ensures
        e.encode().len() == 8,
        VirtqUsedElem::decode(e.encode()) == e,
{
    let bytes = e.encode();
    lemma_le_bytes_len(e.id as nat, 4);
    lemma_le_bytes_len(e.len as nat, 4);
    assert(bytes.subrange(0, 4) =~= le_bytes(e.id as nat, 4));
    assert(bytes.subrange(4, 8) =~= le_bytes(e.len as nat, 4));
    reveal_with_fuel(pow256, 5);
    lemma_le_round_trip(e.id as nat, 4);
    lemma_le_round_trip(e.len as nat, 4);
}

} // verus!
