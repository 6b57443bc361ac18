//! Walking a descriptor chain.
//!
//! Every link of a chain is read from guest memory and may be anything. The
//! walk is bounded all the same: each descriptor that it yields uses up one
//! of the `ttl` steps that a table allows, and a table is entered at most
//! once.

use crate::descriptor::{lemma_descriptor_round_trip, Descriptor};
use crate::error::Error;
use crate::memory::{read_descriptor_bytes, spec_range_is_mapped};
use crate::ring::{descriptor_addr, spec_descriptor_addr};
use vm_memory::GuestMemoryMmap;
use vstd::prelude::*;

verus! {

/// A virtio descriptor chain.
#[derive(Debug)]
pub struct DescriptorChain<'a> {
    /// The guest memory that holds the descriptors and their buffers.
    pub mem: &'a GuestMemoryMmap,
    /// Guest address of the table that the walk is in.
    pub desc_table: u64,
    /// Number of entries of that table.
    pub queue_size: u16,
    /// Index of the first descriptor of the chain.
    pub head_index: u16,
    /// Index of the descriptor that comes next.
    pub next_index: u16,
    /// Number of descriptors that the walk may still yield from this table.
    pub ttl: u16,
    /// Whether the walk has entered an indirect table.
    pub is_indirect: bool,
}

impl<'a> Clone for DescriptorChain<'a> {
    fn clone(&self) -> (chain: Self)
        ensures
            chain == *self,
    {
        DescriptorChain {
            mem: self.mem,
            desc_table: self.desc_table,
            queue_size: self.queue_size,
            head_index: self.head_index,
            next_index: self.next_index,
            ttl: self.ttl,
            is_indirect: self.is_indirect,
        }
    }
}

impl<'a> DescriptorChain<'a> {
    /// Whether the walk has come to its end: no step is left, or the next
    /// index lies outside the table.
    pub open spec fn exhausted(self) -> bool {
        self.ttl == 0 || self.next_index >= self.queue_size
    }

    /// Whether the walk can load the descriptor that comes next: it is not at
    /// its end, and the sixteen bytes of that entry of the table lie in
    /// guest memory.
    pub open spec fn can_load(self) -> bool {
        &&& !self.exhausted()
        &&& spec_range_is_mapped(
            *self.mem,
            spec_descriptor_addr(self.desc_table, self.next_index),
            16,
        )
    }

    /// Whether a descriptor may stand for an indirect table: its address is
    /// sixteen-byte aligned and its length is that of at most 65535 whole
    /// descriptors.
    pub open spec fn describes_table(desc: Descriptor) -> bool {
        desc.addr % 16 == 0 && desc.len % 16 == 0 && desc.len / 16 <= 65535
    }

    /// The walk at the start of the table of `count` entries at `table`,
    /// entered from this walk.
    pub open spec fn entered_at(self, table: u64, count: u16) -> Self {
        DescriptorChain {
            desc_table: table,
            queue_size: count,
            next_index: 0,
            ttl: count,
            is_indirect: true,
            ..self
        }
    }

    /// The walk at the start of the indirect table that `desc` describes.
    pub open spec fn entered(self, desc: Descriptor) -> Self {
        self.entered_at(desc.addr, (desc.len / 16) as u16)
    }

    /// The walk after it has yielded `desc`: it follows the link of `desc`,
    /// and has one step less; without a link no step is left.
    pub open spec fn followed(self, desc: Descriptor) -> Self {
        if desc.has_next() {
            DescriptorChain {
                next_index: desc.next,
                ttl: if self.ttl > 0 {
                    (self.ttl - 1) as u16
                } else {
                    0
                },
                ..self
            }
        } else {
            DescriptorChain { ttl: 0, ..self }
        }
    }

    /// Number of descriptors that the walk can yield at most: the steps left
    /// in this table and, while no indirect table has been entered, those of
    /// the largest table that could be.
    pub open spec fn budget(self) -> nat {
        if self.is_indirect {
            self.ttl as nat
        } else {
            self.ttl as nat + 0x1_0000
        }
    }

    /// One call of `next` that takes the walk from `self` to `after` and
    /// yields `desc`. The walk could load the entry that came next. Either
    /// that was `desc`, or it was an indirect descriptor, the walk entered
    /// its table, could load the first entry of it, and that was `desc`.
    pub open spec fn yields(self, after: Self, desc: Descriptor) -> bool {
        &&& self.can_load()
        &&& !desc.is_indirect()
        &&& {
            ||| after == self.followed(desc)
            ||| {
                &&& !self.is_indirect
                &&& after.desc_table % 16 == 0
                &&& self.entered_at(after.desc_table, after.queue_size).can_load()
                &&& after == self.entered_at(after.desc_table, after.queue_size).followed(desc)
            }
        }
    }

    /// One call of `next` that takes the walk from `self` to `after` and
    /// yields nothing. Either the walk has not moved, or it could load the
    /// entry that came next, found an indirect descriptor, entered its table
    /// and stopped at the start of it.
    pub open spec fn stops(self, after: Self) -> bool {
        ||| after == self
        ||| {
            &&& self.can_load()
            &&& !self.is_indirect
            &&& after.desc_table % 16 == 0
            &&& after == self.entered_at(after.desc_table, after.queue_size)
        }
    }

    /// Creates a chain that may yield `ttl` descriptors of the table.
    pub fn with_ttl(
        mem: &'a GuestMemoryMmap,
        desc_table: u64,
        queue_size: u16,
        ttl: u16,
        head_index: u16,
    ) -> (chain: Self)
        ensures
            chain == (DescriptorChain {
                mem,
                desc_table,
                queue_size,
                head_index,
                next_index: head_index,
                ttl,
                is_indirect: false,
            }),
    {
        DescriptorChain {
            mem,
            desc_table,
            queue_size,
            head_index,
            next_index: head_index,
            ttl,
            is_indirect: false,
        }
    }

    /// Create a new `DescriptorChain` instance.
    pub fn new(mem: &'a GuestMemoryMmap, desc_table: u64, queue_size: u16, head_index: u16) -> (chain:
        Self)
        ensures
            chain == (DescriptorChain {
                mem,
                desc_table,
                queue_size,
                head_index,
                next_index: head_index,
                ttl: queue_size,
                is_indirect: false,
            }),
    {
        Self::with_ttl(mem, desc_table, queue_size, queue_size, head_index)
    }

    /// Get the descriptor index of the chain header
    pub fn head_index(&self) -> (r: u16)
        ensures
            r == self.head_index,
    {
        self.head_index
    }

    /// Return the guest memory object that can be used to access the buffers
    /// pointed to by the descriptor chain.
    pub fn memory(&self) -> (r: &'a GuestMemoryMmap)
        ensures
            r == self.mem,
    {
        self.mem
    }

    /// Returns an iterator that only yields the readable descriptors in the chain.
    pub fn readable(self) -> (iter: DescriptorChainRwIter<'a>)
        ensures
            iter == (DescriptorChainRwIter { chain: self, writable: false }),
    {
        DescriptorChainRwIter { chain: self, writable: false }
    }

    /// Returns an iterator that only yields the writable descriptors in the chain.
    pub fn writable(self) -> (iter: DescriptorChainRwIter<'a>)
        ensures
            iter == (DescriptorChainRwIter { chain: self, writable: true }),
    {
        DescriptorChainRwIter { chain: self, writable: true }
    }

    /// Alters the internal state of the `DescriptorChain` to switch iterating over an
    /// indirect descriptor table defined by `desc`.
    ///
    /// A table inside a table is refused, and so is a table that is not
    /// aligned, not made of whole descriptors, or longer than an index can
    /// reach. The walk is then left as it was.
    pub fn process_indirect_descriptor(&mut self, desc: Descriptor) -> (r: Result<(), Error>)
        ensures
            old(self).is_indirect ==> r matches Err(Error::InvalidIndirectDescriptor),
            !old(self).is_indirect && !Self::describes_table(desc) ==> r matches Err(
                Error::InvalidIndirectDescriptorTable,
            ),
            !old(self).is_indirect && Self::describes_table(desc) ==> r is Ok,
            r is Ok ==> *final(self) == old(self).entered(desc),
            r is Err ==> *final(self) == *old(self),
    {
        if self.is_indirect {
            return Err(Error::InvalidIndirectDescriptor);
        }
        let table_len: u32 = desc.len() / 16;
        // Check the target indirect descriptor table is correctly aligned.
        if desc.addr() % 16 != 0 || desc.len() % 16 != 0 || table_len > 65535 {
            return Err(Error::InvalidIndirectDescriptorTable);
        }
        self.desc_table = desc.addr();
        self.queue_size = table_len as u16;
        self.next_index = 0;
        self.ttl = self.queue_size;
        self.is_indirect = true;

        Ok(())
    }

    /// Moves the walk past `desc`, which it is about to yield: on to the
    /// descriptor that `desc` links to, with one step less, or to the end
    /// where `desc` has no link.
    pub fn follow(&mut self, desc: &Descriptor)
        ensures
            *final(self) == old(self).followed(*desc),
    {
        if desc.has_next() {
            self.next_index = desc.next();
            // A walk that is not at its end has a step left to give.
            if self.ttl > 0 {
                self.ttl -= 1;
            }
        } else {
            self.ttl = 0;
        }
    }

    /// What the walk does with `desc`, the descriptor that it has loaded
    /// from the entry that came next, and what `next` then returns: a
    /// descriptor that is no indirect one is yielded as it was loaded, and
    /// the walk follows it; an indirect one whose table is refused ends the
    /// call with nothing and leaves the walk as it was; and for an indirect
    /// one whose table is entered there is no result yet, because the first
    /// entry of that table is to be loaded.
    pub open spec fn advanced(self, desc: Descriptor) -> (Self, Option<Option<Descriptor>>) {
        if !desc.is_indirect() {
            (self.followed(desc), Some(Some(desc)))
        } else if !self.is_indirect && Self::describes_table(desc) {
            (self.entered(desc), None)
        } else {
            (self, Some(None))
        }
    }

    /// Takes the walk past `desc`, the descriptor that it has loaded from
    /// the entry that came next, and says what `next` returns for it. The
    /// outer `None` says that the walk has entered an indirect table and is
    /// to load again.
    pub fn advance(&mut self, desc: Descriptor) -> (r: Option<Option<Descriptor>>)
        ensures
            *final(self) == old(self).advanced(desc).0,
            r == old(self).advanced(desc).1,
            !desc.is_indirect() ==> r == Some(Some(desc)) && *final(self) == old(self).followed(
                desc,
            ),
            desc.is_indirect() && !old(self).is_indirect && Self::describes_table(desc) ==> r
                is None && *final(self) == old(self).entered(desc),
            desc.is_indirect() && (old(self).is_indirect || !Self::describes_table(desc)) ==> r
                == Some(None::<Descriptor>) && *final(self) == *old(self),
    {
        if desc.is_indirect() {
            match self.process_indirect_descriptor(desc) {
                Ok(_) => None,
                Err(_) => Some(None),
            }
        } else {
            self.follow(&desc);
            Some(Some(desc))
        }
    }

    /// Reads the descriptor that comes next from guest memory: the sixteen
    /// bytes of the entry of the table that the next index picks. There is
    /// none at the end of the walk, and none where those bytes do not lie in
    /// guest memory; else there is one, and it may hold anything.
    fn load_next(&self) -> (r: Option<Descriptor>)
        ensures
            r is Some <==> self.can_load(),
    {
        if self.ttl == 0 || self.next_index >= self.queue_size {
            return None;
        }
        // The index does not exceed the queue size, and the memory checks
        // every access, so an address that is off only makes the read fail.
        let desc_addr = descriptor_addr(self.desc_table, self.next_index);
        match read_descriptor_bytes(self.mem, desc_addr) {
            Ok(bytes) => Some(Descriptor::from_bytes(&bytes)),
            Err(_) => None,
        }
    }

    /// Returns the next descriptor in this descriptor chain, if there is one.
    ///
    /// Note that this is distinct from the next descriptor chain returned by
    /// [`AvailIter`](struct.AvailIter.html), which is the head of the next
    /// _available_ descriptor chain.
    ///
    /// Each descriptor is loaded from the entry that comes next and handed
    /// to `advance`, which says what is returned for it. The descriptors
    /// come from guest memory, so the contract says what holds whatever was
    /// read: where the walk is at its end, or the entry
    /// that comes next does not lie in guest memory, nothing is yielded and
    /// nothing changes; a descriptor that is yielded is no indirect one, was
    /// loaded from the entry that came next, in the table that the walk was
    /// in or at the start of an indirect table that it entered on the way,
    /// and the walk has followed it; and where nothing is yielded the walk
    /// has not moved but for such an entry.
    pub fn next(&mut self) -> (r: Option<Descriptor>)
        ensures
            !old(self).can_load() ==> r is None && *final(self) == *old(self),
            match r {
                Some(desc) => old(self).yields(*final(self), desc),
                None => old(self).stops(*final(self)),
            },
    {
        loop
            invariant
                old(self).stops(*self),
                *self != *old(self) ==> self.is_indirect,
            decreases
                    (if self.is_indirect {
                        0nat
                    } else {
                        1nat
                    }),
        {
            let desc = match self.load_next() {
                Some(desc) => desc,
                None => {
                    return None;
                },
            };
            match self.advance(desc) {
                Some(result) => {
                    return result;
                },
                None => {},
            }
        }
    }
}

/// A descriptor that is written into the table as its sixteen bytes, and
/// is no indirect one, is what the walk yields when it reads those bytes
/// back: the same four fields.
pub proof fn lemma_written_descriptor_is_yielded(chain: DescriptorChain<'_>, desc: Descriptor)
    requires
        chain.can_load(),
        !desc.is_indirect(),
    ensures
        Descriptor::decode(desc.encode()) == desc,
        chain.advanced(Descriptor::decode(desc.encode())) == (
            chain.followed(desc),
            Some(Some(desc)),
        ),
        chain.yields(chain.followed(desc), Descriptor::decode(desc.encode())),
{
    lemma_descriptor_round_trip(desc);
}

/// Whether `run` is a walk that yields `descs`: each state of it leads to
/// the one after it by one call of `next` that yields the descriptor of the
/// same place.
pub open spec fn walks(run: Seq<DescriptorChain<'_>>, descs: Seq<Descriptor>) -> bool {
    &&& run.len() == descs.len() + 1
    &&& forall|i: int| 0 <= i < descs.len() ==> (#[trigger] run[i]).yields(run[i + 1], descs[i])
}

/// A descriptor that is yielded costs at least one unit of the budget.
pub proof fn lemma_yield_uses_budget(
    before: DescriptorChain<'_>,
    after: DescriptorChain<'_>,
    desc: Descriptor,
)
    requires
        before.yields(after, desc),
    ensures
        after.budget() < before.budget(),
        before.is_indirect ==> after.is_indirect,
        before.is_indirect == after.is_indirect ==> after.ttl < before.ttl && after.desc_table
            == before.desc_table && after.queue_size == before.queue_size,
        before.is_indirect != after.is_indirect ==> after.ttl < after.queue_size,
{
}

/// Every part of a walk is a walk: the states from place `from` to place
/// `to`, with the descriptors that were yielded between them.
pub proof fn lemma_part_of_walk(
    run: Seq<DescriptorChain<'_>>,
    descs: Seq<Descriptor>,
    from: int,
    to: int,
)
    requires
        walks(run, descs),
        0 <= from <= to <= descs.len(),
    ensures
        walks(run.subrange(from, to + 1), descs.subrange(from, to)),
{
    let part = run.subrange(from, to + 1);
    let yielded = descs.subrange(from, to);
    assert forall|i: int| 0 <= i < yielded.len() implies (#[trigger] part[i]).yields(
        part[i + 1],
        yielded[i],
    ) by {
        assert(run[from + i].yields(run[from + i + 1], descs[from + i]));
    }
}

/// A walk that goes on by one call of `next` that yields a descriptor is a
/// walk.
pub proof fn lemma_walk_goes_on(
    run: Seq<DescriptorChain<'_>>,
    descs: Seq<Descriptor>,
    after: DescriptorChain<'_>,
    desc: Descriptor,
)
    requires
        walks(run, descs),
        run.last().yields(after, desc),
    ensures
        walks(run.push(after), descs.push(desc)),
{
    let longer = run.push(after);
    let more = descs.push(desc);
    assert forall|i: int| 0 <= i < more.len() implies (#[trigger] longer[i]).yields(
        longer[i + 1],
        more[i],
    ) by {
        if i < descs.len() {
            assert(run[i].yields(run[i + 1], descs[i]));
        }
    }
}

/// A walk that stays in one table yields no more descriptors than that
/// table allowed at the start, whatever links the descriptors hold. For a
/// chain as `new` makes it that is the size of the queue; for a walk that
/// has just entered an indirect table it is the number of its entries.
pub proof fn lemma_walk_in_one_table_bounded(run: Seq<DescriptorChain<'_>>, descs: Seq<Descriptor>)
    requires
        walks(run, descs),
        run.last().is_indirect == run[0].is_indirect,
    ensures
        descs.len() + run.last().ttl <= run[0].ttl,
        run.last().desc_table == run[0].desc_table,
        run.last().queue_size == run[0].queue_size,
    decreases descs.len(),
{
    if descs.len() > 0 {
        let n = descs.len() as int;
        let shorter = run.drop_last();
        let fewer = descs.drop_last();
        lemma_yield_uses_budget(run[n - 1], run[n], descs[n - 1]);
        lemma_part_of_walk(run, descs, 0, n - 1);
        lemma_walk_keeps_table_kind(shorter, fewer);
        lemma_walk_in_one_table_bounded(shorter, fewer);
    }
}

/// A walk never leaves an indirect table that it has entered.
pub proof fn lemma_walk_keeps_table_kind(run: Seq<DescriptorChain<'_>>, descs: Seq<Descriptor>)
    requires
        walks(run, descs),
    ensures
        run[0].is_indirect ==> run.last().is_indirect,
        run.last().budget() + descs.len() <= run[0].budget(),
    decreases descs.len(),
{
    if descs.len() > 0 {
        let n = descs.len() as int;
        let shorter = run.drop_last();
        let fewer = descs.drop_last();
        lemma_yield_uses_budget(run[n - 1], run[n], descs[n - 1]);
        lemma_part_of_walk(run, descs, 0, n - 1);
        lemma_walk_keeps_table_kind(shorter, fewer);
    }
}

/// A walk whose first step enters an indirect table yields no more
/// descriptors than that table has entries, whatever links they hold.
pub proof fn lemma_walk_in_indirect_table_bounded(
    run: Seq<DescriptorChain<'_>>,
    descs: Seq<Descriptor>,
)
    requires
        walks(run, descs),
        descs.len() > 0,
        !run[0].is_indirect,
        run[1].is_indirect,
    ensures
        descs.len() <= run[1].queue_size,
        run.last().is_indirect,
        run.last().queue_size == run[1].queue_size,
{
    let rest = run.drop_first();
    let later = descs.drop_first();
    lemma_yield_uses_budget(run[0], run[1], descs[0]);
    lemma_part_of_walk(run, descs, 1, descs.len() as int);
    lemma_walk_keeps_table_kind(rest, later);
    lemma_walk_in_one_table_bounded(rest, later);
}

/// An iterator for readable or writable descriptors.
#[derive(Debug)]
pub struct DescriptorChainRwIter<'a> {
    /// The chain that is walked.
    pub chain: DescriptorChain<'a>,
    /// Whether the writable descriptors are wanted, or the readable ones.
    pub writable: bool,
}

impl<'a> Clone for DescriptorChainRwIter<'a> {
    fn clone(&self) -> (iter: Self)
        ensures
            iter == *self,
    {
        DescriptorChainRwIter { chain: self.chain.clone(), writable: self.writable }
    }
}

impl<'a> DescriptorChainRwIter<'a> {
    /// One call of `next` that takes the iterator from `self` to `after`
    /// with the result `found`, where its chain went through the states
    /// `run` and yielded `descs`. All that were passed over have the
    /// direction that is not wanted. With a result, the chain has just
    /// yielded it, and it has the wanted direction; without one, the chain
    /// has come to its end.
    pub open spec fn finds(
        self,
        after: Self,
        found: Option<Descriptor>,
        run: Seq<DescriptorChain<'a>>,
        descs: Seq<Descriptor>,
    ) -> bool {
        &&& after.writable == self.writable
        &&& walks(run, descs)
        &&& run[0] == self.chain
        &&& match found {
            Some(desc) => {
                &&& descs.len() > 0
                &&& descs.last() == desc
                &&& desc.is_write_only() == self.writable
                &&& run.last() == after.chain
                &&& forall|i: int|
                    0 <= i < descs.len() - 1 ==> (#[trigger] descs[i]).is_write_only()
                        != self.writable
            },
            None => {
                &&& run.last().stops(after.chain)
                &&& forall|i: int|
                    0 <= i < descs.len() ==> (#[trigger] descs[i]).is_write_only() != self.writable
            },
        }
    }

    /// What the filter does with what its chain has yielded, and what `next`
    /// then returns: a descriptor of the wanted direction is returned as it
    /// was yielded; one of the other direction is passed over, and there is
    /// no result yet, because the chain is to be asked again; and where the
    /// chain has yielded nothing, the filter is at its end as well.
    pub open spec fn filtered(self, yielded: Option<Descriptor>) -> Option<Option<Descriptor>> {
        match yielded {
            Some(desc) => if desc.is_write_only() == self.writable {
                Some(Some(desc))
            } else {
                None
            },
            None => Some(None),
        }
    }

    /// Says what `next` returns for what the chain has yielded. The outer
    /// `None` says that a descriptor of the other direction was passed over
    /// and the chain is to be asked again.
    pub fn filter(&self, yielded: Option<Descriptor>) -> (r: Option<Option<Descriptor>>)
        ensures
            r == self.filtered(yielded),
    {
        match yielded {
            Some(desc) => if desc.is_write_only() == self.writable {
                Some(Some(desc))
            } else {
                None
            },
            None => Some(None),
        }
    }

    /// Returns the next descriptor in this descriptor chain that has the
    /// wanted direction, if there is one.
    ///
    /// Note that this is distinct from the next descriptor chain returned by
    /// [`AvailIter`](struct.AvailIter.html), which is the head of the next
    /// _available_ descriptor chain.
    ///
    /// The chain is asked for its next descriptor, and what it yields is
    /// handed to `filter`, which says what is returned for it, until there
    /// is a result. The descriptors come from guest memory, so the contract
    /// says what holds whatever the chain has yielded.
    pub fn next(&mut self) -> (r: Option<Descriptor>)
        ensures
            exists|run: Seq<DescriptorChain<'a>>, descs: Seq<Descriptor>|
                old(self).finds(*final(self), r, run, descs),
            !old(self).chain.can_load() ==> r is None && *final(self) == *old(self),
            r is Some ==> final(self).chain.budget() < old(self).chain.budget(),
            final(self).chain.budget() <= old(self).chain.budget(),
    {
        let ghost mut run: Seq<DescriptorChain<'a>> = seq![self.chain];
        let ghost mut descs: Seq<Descriptor> = Seq::empty();
        loop
            invariant
                self.writable == old(self).writable,
                walks(run, descs),
                run[0] == old(self).chain,
                run.last() == self.chain,
                forall|i: int|
                    0 <= i < descs.len() ==> (#[trigger] descs[i]).is_write_only() != self.writable,
                descs.len() > 0 ==> old(self).chain.can_load(),
                descs.len() == 0 ==> *self == *old(self),
            decreases self.chain.budget(),
        {
            let ghost before = self.chain;
            let yielded = self.chain.next();
            proof {
                match yielded {
                    Some(desc) => {
                        lemma_walk_goes_on(run, descs, self.chain, desc);
                        lemma_yield_uses_budget(before, self.chain, desc);
                        run = run.push(self.chain);
                        descs = descs.push(desc);
                        lemma_walk_keeps_table_kind(run, descs);
                        if desc.is_write_only() == self.writable {
                            assert(old(self).finds(*self, Some(desc), run, descs));
                        }
                    },
                    None => {
                        lemma_walk_keeps_table_kind(run, descs);
                        assert(old(self).finds(*self, None, run, descs));
                    },
                }
            }
            match self.filter(yielded) {
                Some(result) => {
                    return result;
                },
                None => {},
            }
        }
    }
}

} // verus!
