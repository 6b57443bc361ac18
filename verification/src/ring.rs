//! Layout of the three areas of a split virtqueue in guest memory, and the
//! arithmetic on ring positions, which run freely modulo 2^16.

use vstd::prelude::*;

verus! {

/// Size of one element of the used ring.
pub const VIRTQ_USED_ELEMENT_SIZE: u64 = 8;

/// Used ring header: flags (u16) + idx (u16)
pub const VIRTQ_USED_RING_HEADER_SIZE: u64 = 4;

/// Size of the used ring metadata: header + avail_event (u16). The total size
/// of the used ring is this plus one element for each entry of the queue.
pub const VIRTQ_USED_RING_META_SIZE: u64 = VIRTQ_USED_RING_HEADER_SIZE + 2;

/// Flag of the used ring by which the device asks for no notifications.
pub const VIRTQ_USED_F_NO_NOTIFY: u16 = 0x1;

/// Size of one element of the available ring.
pub const VIRTQ_AVAIL_ELEMENT_SIZE: u64 = 2;

/// Avail ring header: flags(u16) + idx(u16)
pub const VIRTQ_AVAIL_RING_HEADER_SIZE: u64 = 4;

/// Size of the available ring metadata: header + used_event (u16). The total
/// size of the available ring is this plus one element for each entry of the
/// queue.
pub const VIRTQ_AVAIL_RING_META_SIZE: u64 = VIRTQ_AVAIL_RING_HEADER_SIZE + 2;

/// The guest address `offset` bytes after `base`. Guest addresses have 64
/// bits, and the sum is taken modulo 2^64.
pub open spec fn spec_offset_addr(base: u64, offset: nat) -> u64 {
    ((base + offset) % 0x1_0000_0000_0000_0000) as u64
}

/// Where entry `index` of the descriptor table at `desc_table` lies.
pub open spec fn spec_descriptor_addr(desc_table: u64, index: u16) -> u64 {
    spec_offset_addr(desc_table, 16 * index as nat)
}

/// Where the `idx` field of a ring lies: after its `flags`.
pub open spec fn spec_ring_idx_addr(ring: u64) -> u64 {
    spec_offset_addr(ring, 2)
}

/// Where the available ring keeps the entry for the free-running position
/// `position`, in a queue of `size` entries.
pub open spec fn spec_avail_slot_addr(avail_ring: u64, position: u16, size: u16) -> u64
    recommends
        size > 0,
{
    spec_offset_addr(avail_ring, 4 + 2 * (position as nat % size as nat))
}

/// Where the used ring keeps the element for the free-running position
/// `position`, in a queue of `size` entries.
pub open spec fn spec_used_slot_addr(used_ring: u64, position: u16, size: u16) -> u64
    recommends
        size > 0,
{
    spec_offset_addr(used_ring, 4 + 8 * (position as nat % size as nat))
}

/// Where the `used_event` field lies: after the last entry of the available
/// ring.
pub open spec fn spec_used_event_addr(avail_ring: u64, size: u16) -> u64 {
    spec_offset_addr(avail_ring, 4 + 2 * size as nat)
}

/// Where the `avail_event` field lies: after the last element of the used
/// ring.
pub open spec fn spec_avail_event_addr(used_ring: u64, size: u16) -> u64 {
    spec_offset_addr(used_ring, 4 + 8 * size as nat)
}

/// Number of bytes of a descriptor table of `size` entries.
pub open spec fn spec_desc_table_size(size: u16) -> nat {
    16 * size as nat
}

/// Number of bytes of an available ring of `size` entries.
pub open spec fn spec_avail_ring_size(size: u16) -> nat {
    6 + 2 * size as nat
}

/// Number of bytes of a used ring of `size` entries.
pub open spec fn spec_used_ring_size(size: u16) -> nat {
    6 + 8 * size as nat
}

/// Whether `n` is one of 1, 2, 4, 8, ...
pub open spec fn spec_is_power_of_two(n: nat) -> bool
    decreases n,
{
    n == 1 || (n > 1 && n % 2 == 0 && spec_is_power_of_two(n / 2))
}

/// How far `to` lies after `from` on the ring of the 2^16 positions.
pub open spec fn spec_distance(from: u16, to: u16) -> nat {
    ((to - from) % 0x1_0000) as nat
}

/// The event-index test. The device has published up to `used_idx`, it last
/// reported at `old_idx`, and the driver asked to hear once `used_event` has
/// been passed. No notification is due while the position right after
/// `used_event` lies at least as far before `used_idx` as `old_idx` does.
pub open spec fn spec_suppresses(used_idx: u16, used_event: u16, old_idx: u16) -> bool {
    ((used_idx - used_event - 1) % 0x1_0000) >= spec_distance(old_idx, used_idx)
}

/// Computes the guest address `offset` bytes after `base`.
#[verifier::when_used_as_spec(spec_offset_addr_exec)]
pub fn offset_addr(base: u64, offset: u64) -> (r: u64)
    ensures
        r == spec_offset_addr(base, offset as nat),
{
    base.wrapping_add(offset)
}

/// `offset_addr` as a spec function of the same parameters.
pub open spec fn spec_offset_addr_exec(base: u64, offset: u64) -> u64 {
    spec_offset_addr(base, offset as nat)
}

/// Computes where entry `index` of the descriptor table at `desc_table` lies.
pub fn descriptor_addr(desc_table: u64, index: u16) -> (r: u64)
    ensures
        r == spec_descriptor_addr(desc_table, index),
{
    offset_addr(desc_table, index as u64 * 16)
}

/// Computes where the `idx` field of a ring lies.
pub fn ring_idx_addr(ring: u64) -> (r: u64)
    ensures
        r == spec_ring_idx_addr(ring),
{
    offset_addr(ring, 2)
}

/// Computes where the available ring keeps the entry for `position`.
pub fn avail_slot_addr(avail_ring: u64, position: u16, size: u16) -> (r: u64)
    requires
        size > 0,
    ensures
        r == spec_avail_slot_addr(avail_ring, position, size),
{
    let slot: u64 = (position % size) as u64;
    offset_addr(avail_ring, VIRTQ_AVAIL_RING_HEADER_SIZE + slot * VIRTQ_AVAIL_ELEMENT_SIZE)
}

/// Computes where the used ring keeps the element for `position`.
pub fn used_slot_addr(used_ring: u64, position: u16, size: u16) -> (r: u64)
    requires
        size > 0,
    ensures
        r == spec_used_slot_addr(used_ring, position, size),
{
    let slot: u64 = (position % size) as u64;
    offset_addr(used_ring, VIRTQ_USED_RING_HEADER_SIZE + slot * VIRTQ_USED_ELEMENT_SIZE)
}

/// Computes where the `used_event` field of the available ring lies.
pub fn used_event_addr(avail_ring: u64, size: u16) -> (r: u64)
    ensures
        r == spec_used_event_addr(avail_ring, size),
{
    offset_addr(avail_ring, VIRTQ_AVAIL_RING_HEADER_SIZE + size as u64 * VIRTQ_AVAIL_ELEMENT_SIZE)
}

/// Computes where the `avail_event` field of the used ring lies.
pub fn avail_event_addr(used_ring: u64, size: u16) -> (r: u64)
    ensures
        r == spec_avail_event_addr(used_ring, size),
{
    offset_addr(used_ring, VIRTQ_USED_RING_HEADER_SIZE + size as u64 * VIRTQ_USED_ELEMENT_SIZE)
}

/// Computes the number of bytes of a descriptor table of `size` entries.
pub fn desc_table_size(size: u16) -> (r: usize)
    ensures
        r == spec_desc_table_size(size),
{
    16 * size as usize
}

/// Computes the number of bytes of an available ring of `size` entries.
pub fn avail_ring_size(size: u16) -> (r: usize)
    ensures
        r == spec_avail_ring_size(size),
{
    6 + 2 * size as usize
}

/// Computes the number of bytes of a used ring of `size` entries.
pub fn used_ring_size(size: u16) -> (r: usize)
    ensures
        r == spec_used_ring_size(size),
{
    6 + 8 * size as usize
}

/// The powers of two that a queue size can be.
proof fn lemma_powers_of_two_u16(n: u16)
    ensures
        spec_is_power_of_two(n as nat) <==> (n == 1 || n == 2 || n == 4 || n == 8 || n == 16 || n
            == 32 || n == 64 || n == 128 || n == 256 || n == 512 || n == 1024 || n == 2048 || n
            == 4096 || n == 8192 || n == 16384 || n == 32768),
{
    reveal_with_fuel(spec_is_power_of_two, 18);
}

/// Tells whether `n` is a power of two.
pub fn is_power_of_two(n: u16) -> (r: bool)
    ensures
        r == spec_is_power_of_two(n as nat),
{
    proof {
        lemma_powers_of_two_u16(n);
    }
    if n == 0 {
        return false;
    }
    let below: u16 = n - 1;
    assert((n & below == 0) <==> (n == 1 || n == 2 || n == 4 || n == 8 || n == 16 || n == 32 || n
        == 64 || n == 128 || n == 256 || n == 512 || n == 1024 || n == 2048 || n == 4096 || n
        == 8192 || n == 16384 || n == 32768)) by (bit_vector)
        requires
            n != 0,
            below == n - 1,
    ;
    (n & below) == 0
}

/// Decides the event-index test on three ring positions.
pub fn suppresses(used_idx: u16, used_event: u16, old_idx: u16) -> (r: bool)
    ensures
        r == spec_suppresses(used_idx, used_event, old_idx),
{
    used_idx.wrapping_sub(used_event).wrapping_sub(1) >= used_idx.wrapping_sub(old_idx)
}

/// A notification is due exactly when the position that the driver waits for
/// lies in the window from the last report (inclusive) to what is published
/// now (exclusive).
pub proof fn lemma_suppresses_outside_window(used_idx: u16, used_event: u16, old_idx: u16)
    ensures
        spec_suppresses(used_idx, used_event, old_idx) <==> !(spec_distance(old_idx, used_event)
            < spec_distance(old_idx, used_idx)),
{
}

/// In a descriptor table that does not run past the last guest address,
/// the entry of every index below the size lies inside the table, and no
/// address wraps around.
pub proof fn lemma_descriptor_in_table(desc_table: u64, index: u16, size: u16)
    requires
        index < size,
        desc_table + spec_desc_table_size(size) <= u64::MAX,
    ensures
        spec_descriptor_addr(desc_table, index) == desc_table + 16 * index,
        spec_descriptor_addr(desc_table, index) + 16 <= desc_table + spec_desc_table_size(size),
{
}

/// In an available ring that does not run past the last guest address, the
/// slot of every position lies among the entries, after the header and
/// before the `used_event` field, which is the last of the ring; and no
/// address wraps around.
pub proof fn lemma_avail_slot_in_ring(avail_ring: u64, position: u16, size: u16)
    requires
        size > 0,
        avail_ring + spec_avail_ring_size(size) <= u64::MAX,
    ensures
        spec_ring_idx_addr(avail_ring) == avail_ring + 2,
        spec_avail_slot_addr(avail_ring, position, size) == avail_ring + 4 + 2 * (position as int
            % size as int),
        avail_ring + 4 <= spec_avail_slot_addr(avail_ring, position, size),
        spec_avail_slot_addr(avail_ring, position, size) + 2 <= spec_used_event_addr(
            avail_ring,
            size,
        ),
        spec_used_event_addr(avail_ring, size) + 2 == avail_ring + spec_avail_ring_size(size),
{
    let slot = position as int % size as int;
    assert(0 <= slot < size);
    assert(4 + 2 * (position as nat % size as nat) == 4 + 2 * slot);
}

/// In a used ring that does not run past the last guest address, the slot
/// of every position lies among the elements, after the header and before
/// the `avail_event` field, which is the last of the ring; and no address
/// wraps around.
pub proof fn lemma_used_slot_in_ring(used_ring: u64, position: u16, size: u16)
    requires
        size > 0,
        used_ring + spec_used_ring_size(size) <= u64::MAX,
    ensures
        spec_ring_idx_addr(used_ring) == used_ring + 2,
        spec_used_slot_addr(used_ring, position, size) == used_ring + 4 + 8 * (position as int
            % size as int),
        used_ring + 4 <= spec_used_slot_addr(used_ring, position, size),
        spec_used_slot_addr(used_ring, position, size) + 8 <= spec_avail_event_addr(
            used_ring,
            size,
        ),
        spec_avail_event_addr(used_ring, size) + 2 == used_ring + spec_used_ring_size(size),
{
    let slot = position as int % size as int;
    assert(0 <= slot < size);
    assert(4 + 8 * (position as nat % size as nat) == 4 + 8 * slot);
}

} // verus!
