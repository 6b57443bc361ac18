//! The device's view of one split virtqueue: its configuration, its
//! positions in the two rings, completions and notification suppression.

use crate::chain::DescriptorChain;
use crate::descriptor::{lemma_used_elem_round_trip, VirtqUsedElem};
use crate::error::Error;
use crate::memory::{
    atomic_u16_addrs, load_u16, range_is_mapped, read_entry_bytes, spec_range_is_mapped, store_u16,
    write_used_elem_bytes,
};
use crate::ring::{
    avail_event_addr, avail_ring_size, avail_slot_addr, desc_table_size, is_power_of_two,
    lemma_avail_slot_in_ring, lemma_descriptor_in_table, lemma_used_slot_in_ring, ring_idx_addr,
    spec_avail_event_addr, spec_avail_ring_size, spec_avail_slot_addr, spec_desc_table_size,
    spec_descriptor_addr, spec_distance, spec_is_power_of_two, spec_ring_idx_addr,
    spec_suppresses, spec_used_event_addr, spec_used_ring_size, spec_used_slot_addr, suppresses,
    used_event_addr, used_ring_size, used_slot_addr, VIRTQ_USED_F_NO_NOTIFY,
};
use std::sync::atomic::{fence, Ordering};
use crate::wire::u16_from_le;
use vm_memory::GuestMemoryMmap;
use vstd::prelude::*;

verus! {

/// Consuming iterator over all available descriptor chain heads in the queue.
#[derive(Debug)]
pub struct AvailIter<'a, 'b> {
    /// The guest memory that holds the queue.
    pub mem: &'a GuestMemoryMmap,
    /// Guest physical address of the descriptor table
    pub desc_table: u64,
    /// Guest physical address of the available ring
    pub avail_ring: u64,
    /// The position up to which the driver had made chains available when
    /// the iterator was made.
    pub last_index: u16,
    /// The size of the queue in elements.
    pub queue_size: u16,
    /// The queue's own position in the available ring.
    pub next_avail: &'b mut u16,
}

impl<'a, 'b> AvailIter<'a, 'b> {
    /// Whether nothing is left to take: the queue has caught up with the
    /// driver, or has no entries at all.
    pub open spec fn exhausted(self) -> bool {
        *self.next_avail == self.last_index || self.queue_size == 0
    }

    /// Whether the iterator can take a chain: something is left, and the two
    /// bytes of the slot of the queue's position in the available ring lie
    /// in guest memory.
    pub open spec fn can_take(self) -> bool {
        &&& !self.exhausted()
        &&& spec_range_is_mapped(
            *self.mem,
            spec_avail_slot_addr(self.avail_ring, *self.next_avail, self.queue_size),
            2,
        )
    }

    /// Takes the next chain that the driver has made available, and moves
    /// the queue's position past it. The head of the chain is read from the
    /// slot of that position in the available ring.
    ///
    /// A chain is taken exactly when something is left and the slot lies in
    /// guest memory; else the position stays. The head comes from guest
    /// memory and may be any index.
    pub fn next(&mut self) -> (r: Option<DescriptorChain<'a>>)
        ensures
            final(self).mem == old(self).mem,
            final(self).desc_table == old(self).desc_table,
            final(self).avail_ring == old(self).avail_ring,
            final(self).last_index == old(self).last_index,
            final(self).queue_size == old(self).queue_size,
            *final(final(self).next_avail) == *final(old(self).next_avail),
            r is Some <==> old(self).can_take(),
            match r {
                Some(chain) => {
                    &&& *final(self).next_avail == old(self).next_avail.wrapping_add(1)
                    &&& chain == (DescriptorChain {
                        mem: old(self).mem,
                        desc_table: old(self).desc_table,
                        queue_size: old(self).queue_size,
                        head_index: chain.head_index,
                        next_index: chain.head_index,
                        ttl: old(self).queue_size,
                        is_indirect: false,
                    })
                },
                None => *final(self).next_avail == *old(self).next_avail,
            },
    {
        if *self.next_avail == self.last_index || self.queue_size == 0 {
            return None;
        }
        // All the values involved are 16 bits wide, so the offset is small.
        // An address that is off only makes the read fail, because the
        // memory checks every access.
        let addr = avail_slot_addr(self.avail_ring, *self.next_avail, self.queue_size);
        match read_entry_bytes(self.mem, addr) {
            Ok(bytes) => Some(self.take(u16_from_le(&bytes))),
            Err(_) => None,
        }
    }

    /// Takes the chain that starts at `head_index`, the head that the
    /// available ring held in the slot of the queue's position: the position
    /// moves past the slot, and the chain is a new one on the queue's
    /// descriptor table.
    pub fn take(&mut self, head_index: u16) -> (chain: DescriptorChain<'a>)
        ensures
            final(self).mem == old(self).mem,
            final(self).desc_table == old(self).desc_table,
            final(self).avail_ring == old(self).avail_ring,
            final(self).last_index == old(self).last_index,
            final(self).queue_size == old(self).queue_size,
            *final(final(self).next_avail) == *final(old(self).next_avail),
            *final(self).next_avail == old(self).next_avail.wrapping_add(1),
            chain == (DescriptorChain {
                mem: old(self).mem,
                desc_table: old(self).desc_table,
                queue_size: old(self).queue_size,
                head_index,
                next_index: head_index,
                ttl: old(self).queue_size,
                is_indirect: false,
            }),
    {
        *self.next_avail = (*self.next_avail).wrapping_add(1);

        DescriptorChain::new(self.mem, self.desc_table, self.queue_size, head_index)
    }
}

/// What can be wrong with the configuration of a queue.
#[derive(Clone, Copy, Debug, PartialEq, Eq, Structural)]
pub enum QueueDefect {
    /// The driver has not marked the queue as ready.
    NotReady,
    /// The size is no power of two, or more than the device offers.
    InvalidSize,
    /// The descriptor table does not lie in guest memory.
    DescTableOutOfBounds,
    /// The available ring does not lie in guest memory.
    AvailRingOutOfBounds,
    /// The used ring does not lie in guest memory.
    UsedRingOutOfBounds,
    /// The descriptor table is not aligned to sixteen bytes.
    DescTableMisaligned,
    /// The available ring is not aligned to two bytes.
    AvailRingMisaligned,
    /// The used ring is not aligned to four bytes.
    UsedRingMisaligned,
}

/// A virtio queue's parameters.
#[derive(Debug)]
pub struct Queue<'a> {
    /// The guest memory that holds the queue.
    pub mem: &'a GuestMemoryMmap,
    /// The maximal size in elements offered by the device
    pub max_size: u16,
    /// Position in the available ring of the next chain to take.
    pub next_avail: u16,
    /// Position in the used ring of the next element to publish.
    pub next_used: u16,
    /// VIRTIO_F_RING_EVENT_IDX negotiated
    pub event_idx_enabled: bool,
    /// The last used value when using EVENT_IDX
    pub signalled_used: Option<u16>,
    /// The queue size in elements the driver selected
    pub size: u16,
    /// Indicates if the queue is finished with configuration
    pub ready: bool,
    /// Guest physical address of the descriptor table
    pub desc_table: u64,
    /// Guest physical address of the available ring
    pub avail_ring: u64,
    /// Guest physical address of the used ring
    pub used_ring: u64,
}

impl<'a> Clone for Queue<'a> {
    fn clone(&self) -> (q: Self)
        ensures
            q == *self,
    {
        Queue {
            mem: self.mem,
            max_size: self.max_size,
            next_avail: self.next_avail,
            next_used: self.next_used,
            event_idx_enabled: self.event_idx_enabled,
            signalled_used: self.signalled_used,
            size: self.size,
            ready: self.ready,
            desc_table: self.desc_table,
            avail_ring: self.avail_ring,
            used_ring: self.used_ring,
        }
    }
}

impl<'a> Queue<'a> {
    /// The size that the queue works with: the driver's, but no more than
    /// the device offers.
    pub open spec fn spec_actual_size(&self) -> u16 {
        if self.size <= self.max_size {
            self.size
        } else {
            self.max_size
        }
    }

    /// The queue as a device reset leaves it: as `new` makes it, with the
    /// same memory and maximal size.
    pub open spec fn reset_state(self) -> Self {
        Queue {
            mem: self.mem,
            max_size: self.max_size,
            size: self.max_size,
            ready: false,
            desc_table: 0,
            avail_ring: 0,
            used_ring: 0,
            next_avail: 0,
            next_used: 0,
            event_idx_enabled: false,
            signalled_used: None,
        }
    }

    /// Whether all of the `len` bytes from `base` on lie in guest memory.
    pub open spec fn holds_range(self, base: u64, len: nat) -> bool {
        spec_range_is_mapped(*self.mem, base, len)
    }

    /// Whether guest memory serves an atomic access of sixteen bits at
    /// `addr`.
    pub open spec fn serves(self, addr: u64) -> bool {
        atomic_u16_addrs(*self.mem).contains(addr)
    }

    /// The store by which the queue turns notifications from the driver on
    /// or off: where it goes, what is stored, and in which order; `None`
    /// where nothing is stored. Without the event index it is the flags of
    /// the used ring, which become 0 to ask for notifications and
    /// `VIRTQ_USED_F_NO_NOTIFY` to ask for none. With it, it is the
    /// `avail_event` field after the last element of the used ring, which
    /// becomes the queue's own position in the available ring, not the one
    /// that the driver has published; and turning notifications off stores
    /// nothing. The store is relaxed: a fence follows where one is needed.
    pub open spec fn planned_notification_store(self, enable: bool) -> Option<
        (u64, u16, Ordering),
    > {
        if !self.event_idx_enabled {
            Some(
                (
                    self.used_ring,
                    if enable {
                        0u16
                    } else {
                        VIRTQ_USED_F_NO_NOTIFY
                    },
                    Ordering::Relaxed,
                ),
            )
        } else if enable {
            Some(
                (
                    spec_avail_event_addr(self.used_ring, self.spec_actual_size()),
                    self.next_avail,
                    Ordering::Relaxed,
                ),
            )
        } else {
            None
        }
    }

    /// Whether the queue can turn notifications from the driver on or off:
    /// guest memory serves the store, or there is none to make.
    pub open spec fn can_set_notification(self, enable: bool) -> bool {
        match self.planned_notification_store(enable) {
            Some((addr, _, _)) => self.serves(addr),
            None => true,
        }
    }

    /// The load by which `iter` learns up to where the driver has made
    /// chains available: the `idx` of the available ring, acquired, so that
    /// the entries that the driver wrote before it are seen after it.
    pub open spec fn planned_available_load(self) -> (u64, Ordering) {
        (spec_ring_idx_addr(self.avail_ring), Ordering::Acquire)
    }

    /// What `add_used` hands to guest memory for the head `head_index` and
    /// `len` bytes written, `None` where the head is no index of the queue:
    /// the address of the slot of the queue's position in the used ring; the
    /// eight bytes of the element, which go there; the address of the ring's
    /// `idx`; the position after this one, which goes there; and the order
    /// of that store, which releases the element with it.
    pub open spec fn planned_publication(self, head_index: u16, len: u32) -> Option<
        (u64, Seq<u8>, u64, u16, Ordering),
    > {
        if head_index >= self.spec_actual_size() {
            None
        } else {
            Some(
                (
                    spec_used_slot_addr(self.used_ring, self.next_used, self.spec_actual_size()),
                    VirtqUsedElem::spec_new(head_index, len).encode(),
                    spec_ring_idx_addr(self.used_ring),
                    self.next_used.wrapping_add(1),
                    Ordering::Release,
                ),
            )
        }
    }

    /// Whether the queue can publish an element: the eight bytes of the slot
    /// of its position in the used ring lie in guest memory.
    pub open spec fn can_write_used(self) -> bool {
        self.holds_range(
            spec_used_slot_addr(self.used_ring, self.next_used, self.spec_actual_size()),
            8,
        )
    }

    /// What makes a queue fit for use: the driver has marked it ready; its
    /// size is a power of two and no more than the device offers; the
    /// descriptor table and the two rings lie in guest memory with all their
    /// bytes; and each of the three is aligned as its entries demand.
    pub open spec fn spec_is_valid(&self) -> bool {
        &&& self.ready
        &&& self.size <= self.max_size
        &&& spec_is_power_of_two(self.size as nat)
        &&& self.holds_range(self.desc_table, spec_desc_table_size(self.size))
        &&& self.holds_range(self.avail_ring, spec_avail_ring_size(self.size))
        &&& self.holds_range(self.used_ring, spec_used_ring_size(self.size))
        &&& self.desc_table % 16 == 0
        &&& self.avail_ring % 2 == 0
        &&& self.used_ring % 4 == 0
    }

    /// The queue after one more element has been published.
    pub open spec fn published(self) -> Self {
        Queue { next_used: self.next_used.wrapping_add(1), ..self }
    }

    /// The queue after it has decided on a notification: it remembers up to
    /// where it had published.
    pub open spec fn decided(self) -> Self {
        Queue { signalled_used: Some(self.next_used), ..self }
    }

    /// Whether a notification is due when the driver waits for `used_event`:
    /// always at the first decision, and later unless the event-index test
    /// suppresses it.
    pub open spec fn notifies(self, used_event: u16) -> bool {
        match self.signalled_used {
            Some(old_idx) => !spec_suppresses(self.next_used, used_event, old_idx),
            None => true,
        }
    }

    /// Constructs an empty virtio queue with the given `max_size`.
    pub fn new(mem: &'a GuestMemoryMmap, max_size: u16) -> (q: Queue<'a>)
        ensures
            q == (Queue {
                mem,
                max_size,
                size: max_size,
                ready: false,
                desc_table: 0,
                avail_ring: 0,
                used_ring: 0,
                next_avail: 0,
                next_used: 0,
                event_idx_enabled: false,
                signalled_used: None,
            }),
    {
        Queue {
            mem,
            max_size,
            size: max_size,
            ready: false,
            desc_table: 0,
            avail_ring: 0,
            used_ring: 0,
            next_avail: 0,
            next_used: 0,
            event_idx_enabled: false,
            signalled_used: None,
        }
    }

    /// Gets the virtio queue maximum size.
    pub fn max_size(&self) -> (r: u16)
        ensures
            r == self.max_size,
    {
        self.max_size
    }

    /// Return the actual size of the queue, as the driver may not set up a
    /// queue as big as the device allows.
    #[verifier::when_used_as_spec(spec_actual_size)]
    pub fn actual_size(&self) -> (r: u16)
        ensures
            r == self.spec_actual_size(),
    {
        if self.size <= self.max_size {
            self.size
        } else {
            self.max_size
        }
    }

    /// Reset the queue to a state that is acceptable for a device reset
    pub fn reset(&mut self)
        ensures
            *final(self) == old(self).reset_state(),
    {
        self.ready = false;
        self.size = self.max_size;
        self.desc_table = 0;
        self.avail_ring = 0;
        self.used_ring = 0;
        self.next_avail = 0;
        self.next_used = 0;
        self.signalled_used = None;
        self.event_idx_enabled = false;
    }

    /// Enable/disable the VIRTIO_F_RING_EVENT_IDX feature.
    pub fn set_event_idx(&mut self, enabled: bool)
        ensures
            *final(self) == (Queue {
                signalled_used: None,
                event_idx_enabled: enabled,
                ..*old(self)
            }),
    {
        self.signalled_used = None;
        self.event_idx_enabled = enabled;
    }

    /// What is wrong with the queue, if anything: the first of the checks of
    /// `is_valid` that fails, in the order in which they are made.
    pub open spec fn spec_defect(&self) -> Option<QueueDefect> {
        if !self.ready {
            Some(QueueDefect::NotReady)
        } else if self.size > self.max_size || !spec_is_power_of_two(self.size as nat) {
            Some(QueueDefect::InvalidSize)
        } else if !self.holds_range(self.desc_table, spec_desc_table_size(self.size)) {
            Some(QueueDefect::DescTableOutOfBounds)
        } else if !self.holds_range(self.avail_ring, spec_avail_ring_size(self.size)) {
            Some(QueueDefect::AvailRingOutOfBounds)
        } else if !self.holds_range(self.used_ring, spec_used_ring_size(self.size)) {
            Some(QueueDefect::UsedRingOutOfBounds)
        } else if self.desc_table % 16 != 0 {
            Some(QueueDefect::DescTableMisaligned)
        } else if self.avail_ring % 2 != 0 {
            Some(QueueDefect::AvailRingMisaligned)
        } else if self.used_ring % 4 != 0 {
            Some(QueueDefect::UsedRingMisaligned)
        } else {
            None
        }
    }

    /// Finds what is wrong with the queue, if anything. A queue is valid
    /// exactly when nothing is.
    pub fn defect(&self) -> (r: Option<QueueDefect>)
        ensures
            r == self.spec_defect(),
            r is None <==> self.spec_is_valid(),
    {
        let queue_size = self.actual_size();
        if !self.ready {
            Some(QueueDefect::NotReady)
        } else if self.size > self.max_size || !is_power_of_two(self.size) {
            Some(QueueDefect::InvalidSize)
        } else if !range_is_mapped(self.mem, self.desc_table, desc_table_size(queue_size)) {
            Some(QueueDefect::DescTableOutOfBounds)
        } else if !range_is_mapped(self.mem, self.avail_ring, avail_ring_size(queue_size)) {
            Some(QueueDefect::AvailRingOutOfBounds)
        } else if !range_is_mapped(self.mem, self.used_ring, used_ring_size(queue_size)) {
            Some(QueueDefect::UsedRingOutOfBounds)
        } else if self.desc_table % 16 != 0 {
            Some(QueueDefect::DescTableMisaligned)
        } else if self.avail_ring % 2 != 0 {
            Some(QueueDefect::AvailRingMisaligned)
        } else if self.used_ring % 4 != 0 {
            Some(QueueDefect::UsedRingMisaligned)
        } else {
            None
        }
    }

    /// Check if the virtio queue configuration is valid.
    #[verifier::when_used_as_spec(spec_is_valid)]
    pub fn is_valid(&self) -> (r: bool)
        ensures
            r == self.spec_is_valid(),
    {
        self.defect().is_none()
    }

    /// Reads the `idx` field from the available ring.
    ///
    /// The field lies two bytes into the ring. The load succeeds exactly
    /// when guest memory serves it there, and fails with the memory's error
    /// else. The value comes from guest memory and may be any position. A
    /// load cannot release, so `order` is not one of the two orders that do.
    pub fn avail_idx(&self, order: Ordering) -> (r: Result<u16, Error>)
        requires
            order != Ordering::Release,
            order != Ordering::AcqRel,
        ensures
            r is Ok <==> self.serves(spec_ring_idx_addr(self.avail_ring)),
            r is Err ==> r matches Err(Error::GuestMemory(_)),
    {
        let addr = ring_idx_addr(self.avail_ring);
        Error::from_memory(load_u16(self.mem, addr, order))
    }

    /// Makes the load by which `iter` learns up to where the driver has made
    /// chains available: its address and its order.
    pub fn available_load(&self) -> (r: (u64, Ordering))
        ensures
            r == self.planned_available_load(),
    {
        (ring_idx_addr(self.avail_ring), Ordering::Acquire)
    }

    /// A consuming iterator over all available descriptor chain heads offered by the driver.
    ///
    /// The iterator takes chains up to the position that the driver has
    /// published, which is loaded first, acquiring what the driver wrote
    /// before it. It moves the queue's own position as it takes them. The
    /// load is the one that `available_load` makes, and there is an iterator
    /// exactly when guest memory serves it: the one that `chains_up_to`
    /// makes for the position that was loaded.
    pub fn iter<'b>(&'b mut self) -> (r: Result<AvailIter<'a, 'b>, Error>)
        ensures
            r is Ok <==> old(self).serves(spec_ring_idx_addr(old(self).avail_ring)),
            match r {
                Ok(it) => {
                    &&& it.mem == old(self).mem
                    &&& it.desc_table == old(self).desc_table
                    &&& it.avail_ring == old(self).avail_ring
                    &&& it.queue_size == old(self).actual_size()
                    &&& *it.next_avail == old(self).next_avail
                    &&& *final(self) == (Queue {
                        next_avail: *final(it.next_avail),
                        ..*old(self)
                    })
                },
                Err(e) => e is GuestMemory && *final(self) == *old(self),
            },
    {
        let (addr, order) = self.available_load();
        let last_index = match Error::from_memory(load_u16(self.mem, addr, order)) {
            Ok(idx) => idx,
            Err(e) => {
                return Err(e);
            },
        };
        Ok(self.chains_up_to(last_index))
    }

    /// The iterator that takes the chains from the queue's position up to
    /// `last_index`, the position that the driver has published. It works
    /// with the queue's memory, table, ring and size, and moves the queue's
    /// own position as it takes them.
    pub fn chains_up_to<'b>(&'b mut self, last_index: u16) -> (it: AvailIter<'a, 'b>)
        ensures
            it.mem == old(self).mem,
            it.desc_table == old(self).desc_table,
            it.avail_ring == old(self).avail_ring,
            it.last_index == last_index,
            it.queue_size == old(self).actual_size(),
            *it.next_avail == old(self).next_avail,
            *final(self) == (Queue { next_avail: *final(it.next_avail), ..*old(self) }),
    {
        let queue_size = self.actual_size();
        AvailIter {
            mem: self.mem,
            desc_table: self.desc_table,
            avail_ring: self.avail_ring,
            last_index,
            queue_size,
            next_avail: &mut self.next_avail,
        }
    }

    /// Puts an available descriptor head into the used ring for use by the guest.
    ///
    /// A head that is no index of the queue is refused. Else the element is
    /// written into the slot of the queue's position in the used ring, the
    /// position moves on by one, and the new position is stored as the
    /// ring's `idx`, releasing the element with it. What goes where is what
    /// `publication` makes, handed to guest memory as it is. Where the slot
    /// does not lie in guest memory, the call fails and the queue has not
    /// moved; where the memory does not serve the store of the position, the
    /// call fails and the queue has moved on all the same.
    pub fn add_used(&mut self, head_index: u16, len: u32) -> (r: Result<(), Error>)
        ensures
            head_index >= old(self).actual_size() ==> (r matches Err(
                Error::InvalidDescriptorIndex,
            )) && *final(self) == *old(self),
            head_index < old(self).actual_size() && !old(self).can_write_used() ==> (r matches Err(
                Error::GuestMemory(_),
            )) && *final(self) == *old(self),
            head_index < old(self).actual_size() && old(self).can_write_used() && !old(
                self,
            ).serves(spec_ring_idx_addr(old(self).used_ring)) ==> (r matches Err(
                Error::GuestMemory(_),
            )) && *final(self) == old(self).published(),
            head_index < old(self).actual_size() && old(self).can_write_used() && old(self).serves(
                spec_ring_idx_addr(old(self).used_ring),
            ) ==> r is Ok && *final(self) == old(self).published(),
    {
        let (slot, bytes, idx_addr, idx, order) = match self.publication(head_index, len) {
            Some(publication) => publication,
            None => {
                return Err(Error::InvalidDescriptorIndex);
            },
        };
        match Error::from_memory(write_used_elem_bytes(self.mem, bytes, slot)) {
            Ok(_) => {},
            Err(e) => {
                return Err(e);
            },
        }

        self.next_used = idx;

        Error::from_memory(store_u16(self.mem, idx, idx_addr, order))
    }

    /// Makes what `add_used` hands to guest memory for the head
    /// `head_index` and `len` bytes written: the slot and the bytes of the
    /// element that go there, and the address of the ring's `idx` with the
    /// position that goes there and the order of that store. There is
    /// nothing to hand on where the head is no index of the queue.
    pub fn publication(&self, head_index: u16, len: u32) -> (r: Option<
        (u64, [u8; 8], u64, u16, Ordering),
    >)
        ensures
            match r {
                Some((slot, bytes, idx_addr, idx, order)) => self.planned_publication(
                    head_index,
                    len,
                ) == Some((slot, bytes@, idx_addr, idx, order)),
                None => self.planned_publication(head_index, len) is None,
            },
    {
        if head_index >= self.actual_size() {
            return None;
        }
        let slot = used_slot_addr(self.used_ring, self.next_used, self.actual_size());
        let elem = VirtqUsedElem::new(head_index, len);
        Some(
            (
                slot,
                elem.to_bytes(),
                ring_idx_addr(self.used_ring),
                self.next_used.wrapping_add(1),
                Ordering::Release,
            ),
        )
    }

    /// Makes the store by which the queue turns notifications from the
    /// driver on or off: its address, its value and its order, or `None`
    /// where nothing is stored.
    pub fn notification_store(&self, enable: bool) -> (r: Option<(u64, u16, Ordering)>)
        ensures
            r == self.planned_notification_store(enable),
    {
        if !self.event_idx_enabled {
            let flags = if enable {
                0
            } else {
                VIRTQ_USED_F_NO_NOTIFY
            };
            Some((self.used_ring, flags, Ordering::Relaxed))
        } else if enable {
            // The position of the queue is written, not the `idx` that the
            // driver has published, so that no notification is missed. More
            // details in `enable_notification`.
            let addr = avail_event_addr(self.used_ring, self.actual_size());
            Some((addr, self.next_avail, Ordering::Relaxed))
        } else {
            // Notifications are effectively disabled by default after
            // triggering once when `VIRTIO_F_EVENT_IDX` is negotiated, so
            // nothing is done in that case.
            None
        }
    }

    /// Write the appropriate values to enable or disable notifications from the driver. Every
    /// access in this method uses `Relaxed` ordering because a fence is added by the caller
    /// when appropriate.
    ///
    /// The store is the one that `notification_store` makes, handed to guest
    /// memory as it is. The call succeeds exactly when the memory serves
    /// it, or there is none to make, and fails with the memory's error else.
    /// The queue itself does not change.
    fn set_notification(&mut self, enable: bool) -> (r: Result<(), Error>)
        ensures
            *final(self) == *old(self),
            r is Ok <==> old(self).can_set_notification(enable),
            r is Err ==> r matches Err(Error::GuestMemory(_)),
    {
        match self.notification_store(enable) {
            Some((addr, value, order)) => Error::from_memory(
                store_u16(self.mem, value, addr, order),
            ),
            None => Ok(()),
        }
    }

    /// Enable notification events from the guest driver. Returns true if one or more descriptors
    /// can be consumed from the available ring after notifications were enabled (and thus it's
    /// possible there will be no corresponding notification).
    ///
    /// The answer compares the queue's position with the `idx` that the
    /// driver has published, which is read from guest memory after a fence.
    /// The call succeeds exactly when guest memory serves both the store
    /// that turns the notifications on and the load of that `idx`, and fails
    /// with the memory's error else. The queue itself does not change.
    pub fn enable_notification(&mut self) -> (r: Result<bool, Error>)
        ensures
            *final(self) == *old(self),
            r is Ok <==> old(self).can_set_notification(true) && old(self).serves(
                spec_ring_idx_addr(old(self).avail_ring),
            ),
            r is Err ==> r matches Err(Error::GuestMemory(_)),
    {
        match self.set_notification(true) {
            Ok(_) => {},
            Err(e) => {
                return Err(e);
            },
        }
        // Ensures the following read is not reordered before any previous write operation.
        fence(Ordering::SeqCst);

        // The available ring may have been updated just before notifications
        // were enabled again, so look once more. The comparison is with the
        // queue's own position, because that is where it stopped taking
        // chains.
        match self.avail_idx(Ordering::Relaxed) {
            Ok(idx) => Ok(self.has_pending(idx)),
            Err(e) => Err(e),
        }
    }

    /// Tells whether the driver, which has published `avail_idx`, has made
    /// chains available that the queue has not taken: whether that position
    /// differs from the queue's own.
    pub fn has_pending(&self, avail_idx: u16) -> (r: bool)
        ensures
            r == (avail_idx != self.next_avail),
    {
        avail_idx != self.next_avail
    }

    /// Disable notification events from the guest driver.
    ///
    /// With the event index nothing is written, and the call succeeds.
    /// Without it the call succeeds exactly when guest memory serves the
    /// store into the flags of the used ring, and fails with the memory's
    /// error else. The queue itself does not change.
    pub fn disable_notification(&mut self) -> (r: Result<(), Error>)
        ensures
            *final(self) == *old(self),
            r is Ok <==> old(self).can_set_notification(false),
            r is Err ==> r matches Err(Error::GuestMemory(_)),
    {
        self.set_notification(false)
    }

    /// Return the value present in the used_event field of the avail ring.
    ///
    /// If the VIRTIO_F_EVENT_IDX feature bit is not negotiated, the flags field in the available
    /// ring offers a crude mechanism for the driver to inform the device that it doesn’t want
    /// interrupts when buffers are used. Otherwise virtq_avail.used_event is a more performant
    /// alternative where the driver specifies how far the device can progress before interrupting.
    ///
    /// Neither of these interrupt suppression methods are reliable, as they are not synchronized
    /// with the device, but they serve as useful optimizations. So we only ensure access to the
    /// virtq_avail.used_event is atomic, but do not need to synchronize with other memory accesses.
    ///
    /// The field lies after the last entry of the available ring. The load
    /// succeeds exactly when guest memory serves it there, and fails with
    /// the memory's error else. The value may be any position.
    fn used_event(&self, order: Ordering) -> (r: Result<u16, Error>)
        requires
            order != Ordering::Release,
            order != Ordering::AcqRel,
        ensures
            r is Ok <==> self.serves(spec_used_event_addr(self.avail_ring, self.spec_actual_size())),
            r is Err ==> r matches Err(Error::GuestMemory(_)),
    {
        let used_event_addr = used_event_addr(self.avail_ring, self.actual_size());
        Error::from_memory(load_u16(self.mem, used_event_addr, order))
    }

    /// Decides whether a notification is due, given the position
    /// `used_event` that the driver waits for, and remembers up to where the
    /// queue had published at this decision.
    pub fn should_notify(&mut self, used_event: u16) -> (r: bool)
        ensures
            r == old(self).notifies(used_event),
            *final(self) == old(self).decided(),
    {
        let used_idx = self.next_used;
        let previous = self.signalled_used;
        self.signalled_used = Some(used_idx);
        match previous {
            // The three positions lie on an axis that wraps around. Where
            // `old_idx` is closer to `used_idx` than `used_event` is, the
            // driver has been told already.
            Some(old_idx) => !suppresses(used_idx, used_event, old_idx),
            None => true,
        }
    }

    /// Check whether a notification to the guest is needed.
    ///
    /// Please note this method has side effects: once it returns `true`, it considers the
    /// driver will actually be notified, remember the associated index in the used ring, and
    /// won't return `true` again until the driver updates `used_event` and/or the notification
    /// conditions hold once more.
    ///
    /// Without the event index a notification is always due. With it, the
    /// position that the driver waits for is read from guest memory; the
    /// call succeeds exactly when the memory serves that load, and where it
    /// fails nothing changes. The first decision notifies, and one that
    /// follows another with nothing published in between does not.
    pub fn needs_notification(&mut self) -> (r: Result<bool, Error>)
        ensures
            !old(self).event_idx_enabled ==> r == Ok::<bool, Error>(true) && *final(self) == *old(
                self,
            ),
            old(self).event_idx_enabled ==> (r is Ok <==> old(self).serves(
                spec_used_event_addr(old(self).avail_ring, old(self).spec_actual_size()),
            )),
            old(self).event_idx_enabled ==> match r {
                Ok(notify) => {
                    &&& *final(self) == old(self).decided()
                    &&& old(self).signalled_used is None ==> notify
                    &&& old(self).signalled_used == Some(old(self).next_used) ==> !notify
                },
                Err(e) => e is GuestMemory && *final(self) == *old(self),
            },
    {
        // Complete all the writes in add_used() before reading the event.
        fence(Ordering::SeqCst);

        // The VRING_AVAIL_F_NO_INTERRUPT flag isn't supported yet.
        if !self.event_idx_enabled {
            return Ok(true);
        }
        match self.used_event(Ordering::Relaxed) {
            Ok(used_event) => Ok(self.should_notify(used_event)),
            Err(e) => Err(e),
        }
    }

    /// Goes back one position in the available descriptor chain offered by the driver.
    /// Rust does not support bidirectional iterators. This is the only way to revert the effect
    /// of an iterator increment on the queue.
    pub fn go_to_previous_position(&mut self)
        ensures
            *final(self) == (Queue {
                next_avail: old(self).next_avail.wrapping_sub(1),
                ..*old(self)
            }),
    {
        self.next_avail = self.next_avail.wrapping_sub(1);
    }

    /// Returns the index for the next descriptor in the available ring.
    pub fn next_avail(&self) -> (r: u16)
        ensures
            r == self.next_avail,
    {
        self.next_avail
    }

    /// Sets the index for the next descriptor in the available ring.
    pub fn set_next_avail(&mut self, next_avail: u16)
        ensures
            *final(self) == (Queue { next_avail, ..*old(self) }),
    {
        self.next_avail = next_avail;
    }
}


/// What `add_used` hands to guest memory for a head that is an index of
/// the queue: the bytes read back as the element of that head and length, in
/// the slot of the queue's position; and the position that is stored as the
/// ring's `idx`, with release, is the old one plus one modulo 2^16, which is
/// also where the queue then stands.
pub proof fn lemma_publication(q: Queue<'_>, head_index: u16, len: u32)
    requires
        head_index < q.spec_actual_size(),
    ensures
        match q.planned_publication(head_index, len) {
            Some((slot, bytes, idx_addr, idx, order)) => {
                &&& slot == spec_used_slot_addr(q.used_ring, q.next_used, q.spec_actual_size())
                &&& bytes.len() == 8
                &&& VirtqUsedElem::decode(bytes) == VirtqUsedElem::spec_new(head_index, len)
                &&& idx_addr == spec_ring_idx_addr(q.used_ring)
                &&& idx == (q.next_used + 1) % 0x1_0000
                &&& idx == q.published().next_used
                &&& order == Ordering::Release
            },
            None => false,
        },
{
    lemma_used_elem_round_trip(VirtqUsedElem::spec_new(head_index, len));
}

/// Publishing one element moves the queue's position in the used ring on by
/// exactly one, modulo 2^16, and changes nothing else. That position is what
/// `add_used` stores as the ring's `idx`.
pub proof fn lemma_published_moves_by_one(q: Queue<'_>)
    ensures
        q.published().next_used == (q.next_used + 1) % 0x1_0000,
        q.published() == (Queue { next_used: q.published().next_used, ..q }),
{
}

/// All that a valid queue hands to guest memory lies in the three areas that
/// `is_valid` has found there: the `idx` of either ring, the flags of the
/// used ring, the two event fields, the slot of every position in either
/// ring, and every entry of the descriptor table.
pub proof fn lemma_valid_queue_stays_in_memory(q: Queue<'_>, position: u16, index: u16)
    requires
        q.spec_is_valid(),
        index < q.size,
    ensures
        q.holds_range(spec_descriptor_addr(q.desc_table, index), 16),
        q.holds_range(spec_ring_idx_addr(q.avail_ring), 2),
        q.holds_range(spec_avail_slot_addr(q.avail_ring, position, q.spec_actual_size()), 2),
        q.holds_range(spec_used_event_addr(q.avail_ring, q.spec_actual_size()), 2),
        q.holds_range(q.used_ring, 2),
        q.holds_range(spec_ring_idx_addr(q.used_ring), 2),
        q.holds_range(spec_used_slot_addr(q.used_ring, position, q.spec_actual_size()), 8),
        q.holds_range(spec_avail_event_addr(q.used_ring, q.spec_actual_size()), 2),
{
    lemma_descriptor_in_table(q.desc_table, index, q.size);
    lemma_avail_slot_in_ring(q.avail_ring, position, q.size);
    lemma_used_slot_in_ring(q.used_ring, position, q.size);
}

/// A valid queue can publish at every position: the slot lies in guest
/// memory. So `add_used` fails on it only for a head that is no index of the
/// queue, or where the memory does not serve the store of the `idx`.
pub proof fn lemma_valid_queue_can_publish(q: Queue<'_>)
    requires
        q.spec_is_valid(),
    ensures
        q.can_write_used(),
{
    lemma_used_slot_in_ring(q.used_ring, q.next_used, q.size);
}

/// On a valid queue a chain can load every descriptor of the table: a walk
/// on the queue's table that is not at its end finds the entry that comes
/// next in guest memory.
pub proof fn lemma_valid_queue_chain_can_load(q: Queue<'_>, chain: DescriptorChain<'_>)
    requires
        q.spec_is_valid(),
        chain.mem == q.mem,
        chain.desc_table == q.desc_table,
        chain.queue_size == q.size,
        !chain.exhausted(),
    ensures
        chain.can_load(),
{
    lemma_descriptor_in_table(q.desc_table, chain.next_index, q.size);
}

/// Resetting a queue that has just been reset changes nothing.
pub proof fn lemma_reset_is_idempotent(q: Queue<'_>)
    ensures
        q.reset_state().reset_state() == q.reset_state(),
{
}

/// A queue that is valid works with the size that the driver selected, and
/// that size is not zero.
pub proof fn lemma_valid_queue_has_its_size(q: Queue<'_>)
    requires
        q.spec_is_valid(),
    ensures
        q.spec_actual_size() == q.size,
        q.size > 0,
{
}

/// Once the queue has decided on a notification, it asks for no other as
/// long as it has published nothing more, whatever position the driver
/// waits for.
pub proof fn lemma_no_notification_without_progress(q: Queue<'_>, used_event: u16)
    ensures
        !q.decided().notifies(used_event),
{
}

/// After a decision, and with more elements published since, a notification
/// is due exactly when the queue has moved past the position that the driver
/// waits for: when that position lies from the last decision (inclusive) to
/// the queue's new position (exclusive) on the ring of positions. Until then
/// none is due.
pub proof fn lemma_notification_when_event_passed(q: Queue<'_>, next_used: u16, used_event: u16)
    ensures
        (Queue { next_used, ..q.decided() }).notifies(used_event) <==> spec_distance(
            q.next_used,
            used_event,
        ) < spec_distance(q.next_used, next_used),
{
}

} // verus!
