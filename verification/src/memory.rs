//! Access to guest memory.
//!
//! Guest memory is shared with the driver, which runs beside the device and
//! is not trusted. Nothing is therefore assumed of a value that was read from
//! it: two reads of one address may differ, and a read need not return what
//! the device wrote there. What is fixed is where the memory lies: its
//! regions are set when it is made, so whether an access succeeds depends
//! on the memory and the address alone. The functions of this module only
//! pass the calls on; their contracts are believed, not proved.

use std::sync::atomic::Ordering;
use vm_memory::guest_memory::Error as GuestMemoryError;
use vm_memory::{Bytes, GuestAddress, GuestMemoryBackend, GuestMemoryMmap};
use vstd::prelude::*;

verus! {

/// `vm_memory::GuestRegionCollection`, the collection of regions that
/// `GuestMemoryMmap` is. Nothing of its inside is visible here.
#[verifier::external_type_specification]
#[verifier::external_body]
#[verifier::reject_recursive_types(R)]
pub struct ExGuestRegionCollection<R>(vm_memory::GuestRegionCollection<R>);

/// `vm_memory::GuestRegionMmap`, one mapped region of guest memory. Nothing
/// of its inside is visible here.
#[verifier::external_type_specification]
#[verifier::external_body]
#[verifier::reject_recursive_types(B)]
pub struct ExGuestRegionMmap<B>(vm_memory::GuestRegionMmap<B>);

/// `vm_memory::guest_memory::Error`, the error of a failed access to guest
/// memory. Nothing of its inside is visible here.
#[verifier::external_type_specification]
#[verifier::external_body]
pub struct ExGuestMemoryError(GuestMemoryError);

/// The guest addresses that lie in one of the regions of `mem`. The regions
/// are fixed when the memory is made, so this set belongs to the value.
pub uninterp spec fn mapped(mem: GuestMemoryMmap) -> Set<int>;

/// The guest addresses at which `mem` serves an atomic access of sixteen
/// bits: those whose two bytes lie in one region, at a place of the host's
/// memory that is aligned for it. Like the regions, this set belongs to the
/// value.
pub uninterp spec fn atomic_u16_addrs(mem: GuestMemoryMmap) -> Set<u64>;

/// Whether all of the `len` bytes from `base` on lie in regions of `mem`,
/// short of the last guest address.
pub open spec fn spec_range_is_mapped(mem: GuestMemoryMmap, base: u64, len: nat) -> bool {
    &&& base + len <= u64::MAX
    &&& forall|a: int| base <= a < base + len ==> #[trigger] mapped(mem).contains(a)
}

/// `GuestMemoryBackend::check_range`. It walks the regions that hold the
/// bytes from `base` on and succeeds when they cover all `len` of them, with
/// no gap and without running past the last guest address. The result is
/// claimed to be exactly that; `vm_memory` documents it as "whether the range
/// [base, base + len) is valid".
#[verifier::external_body]
pub(crate) fn range_is_mapped(mem: &GuestMemoryMmap, base: u64, len: usize) -> (r: bool)
    ensures
        r == (base + len <= u64::MAX && forall|a: int|
            base <= a < base + len ==> #[trigger] mapped(*mem).contains(a)),
{
    GuestMemoryBackend::check_range(mem, GuestAddress(base), len)
}

/// `Bytes::read_obj` for the sixteen bytes of a descriptor. It copies them
/// out of the regions that hold the bytes from `addr` on, by the walk that
/// `check_range` makes, and fails where these do not cover all sixteen. The
/// read is claimed to succeed exactly when they do. Nothing is claimed of
/// what was read.
#[verifier::external_body]
pub(crate) fn read_descriptor_bytes(mem: &GuestMemoryMmap, addr: u64) -> (r: Result<
    [u8; 16],
    GuestMemoryError,
>)
    ensures
        r is Ok <==> spec_range_is_mapped(*mem, addr, 16),
{
    mem.read_obj::<[u8; 16]>(GuestAddress(addr))
}

/// `Bytes::read_obj` for the two bytes of an entry of the available ring.
/// It copies them as it copies a descriptor's, with no demand on the
/// alignment, and is claimed to succeed exactly when both lie in regions.
/// Nothing is claimed of what was read.
#[verifier::external_body]
pub(crate) fn read_entry_bytes(mem: &GuestMemoryMmap, addr: u64) -> (r: Result<
    [u8; 2],
    GuestMemoryError,
>)
    ensures
        r is Ok <==> spec_range_is_mapped(*mem, addr, 2),
{
    mem.read_obj::<[u8; 2]>(GuestAddress(addr))
}

/// `Bytes::write_obj` for the eight bytes of an element of the used ring.
/// It copies them into the regions that hold the bytes from `addr` on, by
/// the walk that `check_range` makes, and fails where these do not cover all
/// eight. The write is claimed to succeed exactly when they do.
#[verifier::external_body]
pub(crate) fn write_used_elem_bytes(mem: &GuestMemoryMmap, bytes: [u8; 8], addr: u64) -> (r: Result<
    (),
    GuestMemoryError,
>)
    ensures
        r is Ok <==> spec_range_is_mapped(*mem, addr, 8),
{
    mem.write_obj::<[u8; 8]>(bytes, GuestAddress(addr))
}

/// `Bytes::load` for a 16-bit value: one atomic load, in the byte order of
/// the host. Whether it succeeds depends on the memory and the address
/// alone, not on the order: it is claimed to succeed exactly at the
/// addresses of `atomic_u16_addrs`. Nothing is claimed of what was read. An
/// atomic load panics when asked to release, so these two orders are left
/// out.
#[verifier::external_body]
pub(crate) fn load_u16(mem: &GuestMemoryMmap, addr: u64, order: Ordering) -> (r: Result<
    u16,
    GuestMemoryError,
>)
    requires
        order != Ordering::Release,
        order != Ordering::AcqRel,
    ensures
        r is Ok <==> atomic_u16_addrs(*mem).contains(addr),
{
    mem.load::<u16>(GuestAddress(addr), order)
}

/// `Bytes::store` for a 16-bit value: one atomic store, in the byte order of
/// the host. It finds its place as a load does, and is claimed to succeed
/// exactly at the addresses of `atomic_u16_addrs`, whatever the value and
/// the order. An atomic store panics when asked to acquire, so these two
/// orders are left out.
#[verifier::external_body]
pub(crate) fn store_u16(mem: &GuestMemoryMmap, val: u16, addr: u64, order: Ordering) -> (r: Result<
    (),
    GuestMemoryError,
>)
    requires
        order != Ordering::Acquire,
        order != Ordering::AcqRel,
    ensures
        r is Ok <==> atomic_u16_addrs(*mem).contains(addr),
{
    mem.store::<u16>(val, GuestAddress(addr), order)
}

/// `std::sync::atomic::fence`. It has no result; it panics when the order is
/// `Relaxed`, which is left out.
pub assume_specification[ std::sync::atomic::fence ](order: Ordering)
    requires
        order != Ordering::Relaxed,
;

} // verus!
