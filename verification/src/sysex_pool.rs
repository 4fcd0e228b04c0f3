//! A fixed pool of byte slots that gives outgoing SysEx messages a stable
//! home for the length of one processing block.
//!
//! Every slot is allocated once, up front; during processing a message is
//! copied into the next free slot (truncated to the slot size) and the pool
//! is cleared again before the next block.

use vstd::prelude::*;

verus! {

/// The abstract state of a [`SysExOutputPool`].
pub struct SysExPoolModel {
    /// The bytes held by each slot handed out since the last clear, in the
    /// order the slots were handed out.
    pub slots: Seq<Seq<u8>>,
    /// The number of slots.
    pub capacity: nat,
    /// The size of every slot in bytes.
    pub slot_size: nat,
    /// Whether an allocation failed since the last clear.
    pub overflowed: bool,
}

/// A model that a pool can be in: no more slots in use than exist, and no
/// slot holds more than the slot size.
pub open spec fn pool_wf(m: SysExPoolModel) -> bool {
    &&& m.slots.len() <= m.capacity
    &&& forall|i: int| 0 <= i < m.slots.len() ==> #[trigger] m.slots[i].len() <= m.slot_size
}

/// The number of bytes of `data` that a slot keeps: all of them, or the
/// slot size when the message is longer.
pub open spec fn kept_len(m: SysExPoolModel, data: Seq<u8>) -> nat {
    if data.len() <= m.slot_size { data.len() } else { m.slot_size }
}

/// What an allocation of `data` answers: the slot it used and the number of
/// bytes copied, or `None` when every slot is in use.
pub open spec fn allocation(m: SysExPoolModel, data: Seq<u8>) -> Option<(int, int)> {
    if m.slots.len() < m.capacity {
        Some((m.slots.len() as int, kept_len(m, data) as int))
    } else {
        None
    }
}

/// The pool after an allocation of `data`: the next slot holds the kept
/// prefix of `data`, or, when every slot is in use, the overflow flag is set.
pub open spec fn allocated(m: SysExPoolModel, data: Seq<u8>) -> SysExPoolModel {
    if m.slots.len() < m.capacity {
        SysExPoolModel { slots: m.slots.push(data.take(kept_len(m, data) as int)), ..m }
    } else {
        SysExPoolModel { overflowed: true, ..m }
    }
}

/// The pool after a clear: no slot in use and no overflow; capacity and
/// slot size are kept.
pub open spec fn cleared(m: SysExPoolModel) -> SysExPoolModel {
    SysExPoolModel { slots: Seq::empty(), overflowed: false, ..m }
}

/// Pool of pre-allocated buffers for SysEx output.
#[derive(Debug)]
pub struct SysExOutputPool {
    buffers: Vec<Vec<u8>>,
    lengths: Vec<usize>,
    max_slots: usize,
    max_buffer_size: usize,
    next_slot: usize,
    overflowed: bool,
}

impl View for SysExOutputPool {
    type V = SysExPoolModel;

    closed spec fn view(&self) -> SysExPoolModel {
        SysExPoolModel {
            slots: Seq::new(
                self.next_slot as nat,
                |i: int| self.buffers@[i]@.take(self.lengths@[i] as int),
            ),
            capacity: self.max_slots as nat,
            slot_size: self.max_buffer_size as nat,
            overflowed: self.overflowed,
        }
    }
}

impl SysExOutputPool {
    /// The pool's internal invariant: one buffer and one length per slot,
    /// every buffer of the slot size, and the next free slot in range.
    pub closed spec fn wf(&self) -> bool {
        &&& self.buffers@.len() == self.max_slots
        &&& self.lengths@.len() == self.max_slots
        &&& self.next_slot <= self.max_slots
        &&& forall|i: int| 0 <= i < self.max_slots ==> #[trigger] self.buffers@[i]@.len() == self.max_buffer_size
        &&& forall|i: int| 0 <= i < self.max_slots ==> #[trigger] self.lengths@[i] <= self.max_buffer_size
    }

    /// Creates a pool of `slots` slots of `buffer_size` bytes each, all of
    /// them allocated here.
    pub fn with_capacity(slots: usize, buffer_size: usize) -> (p: Self)
        ensures
            p.wf(),
            p@.slots.len() == 0,
            p@.capacity == slots,
            p@.slot_size == buffer_size,
            !p@.overflowed,
    {
        let mut buffers: Vec<Vec<u8>> = Vec::new();
        let mut lengths: Vec<usize> = Vec::new();
        let mut k: usize = 0;
        while k < slots
            invariant
                k <= slots,
                buffers@.len() == k,
                lengths@.len() == k,
                forall|i: int| 0 <= i < k ==> #[trigger] buffers@[i]@.len() == buffer_size,
                forall|i: int| 0 <= i < k ==> #[trigger] lengths@[i] == 0,
            decreases slots - k,
        {
            let mut buf: Vec<u8> = Vec::new();
            let mut j: usize = 0;
            while j < buffer_size
                invariant
                    j <= buffer_size,
                    buf@.len() == j,
                decreases buffer_size - j,
            {
                buf.push(0u8);
                j = j + 1;
            }
            buffers.push(buf);
            lengths.push(0);
            k = k + 1;
        }
        let p = SysExOutputPool {
            buffers,
            lengths,
            max_slots: slots,
            max_buffer_size: buffer_size,
            next_slot: 0,
            overflowed: false,
        };
        assert(p@.slots =~= Seq::<Seq<u8>>::empty());
        p
    }

    /// Frees every slot and resets the overflow flag.
    pub fn clear(&mut self)
        requires
            old(self).wf(),
        ensures
            final(self).wf(),
            final(self)@ == cleared(old(self)@),
    {
        self.next_slot = 0;
        self.overflowed = false;
        assert(self@.slots =~= Seq::<Seq<u8>>::empty());
    }

    /// Whether an allocation failed since the last clear.
    pub fn has_overflowed(&self) -> (r: bool)
        ensures
            r == self@.overflowed,
    {
        self.overflowed
    }

    /// The number of slots.
    pub fn capacity(&self) -> (r: usize)
        ensures
            r == self@.capacity,
    {
        self.max_slots
    }

    /// Copies `data` into the next free slot, truncated to the slot size,
    /// and answers the slot and the number of bytes kept; `None` (and the
    /// overflow flag set) when every slot is in use.
    pub fn allocate(&mut self, data: &[u8]) -> (r: Option<(usize, usize)>)
        requires
            old(self).wf(),
        ensures
            final(self).wf(),
            final(self)@ == allocated(old(self)@, data@),
            r matches Some((slot, len)) ==> allocation(old(self)@, data@) == Some((slot as int, len as int)),
            r is None ==> allocation(old(self)@, data@) is None,
    {
        if self.next_slot >= self.max_slots {
            self.overflowed = true;
            proof {
                assert(self@.slots =~= old(self)@.slots);
            }
            return None;
        }
        let slot = self.next_slot;
        let copy_len = if data.len() < self.max_buffer_size { data.len() } else { self.max_buffer_size };
        let mut i: usize = 0;
        while i < copy_len
            invariant
                old(self).wf(),
                i <= copy_len,
                copy_len <= data@.len(),
                copy_len <= self.max_buffer_size,
                slot == self.next_slot,
                slot < self.max_slots,
                self.max_slots == old(self).max_slots,
                self.max_buffer_size == old(self).max_buffer_size,
                self.next_slot == old(self).next_slot,
                self.overflowed == old(self).overflowed,
                self.lengths@ == old(self).lengths@,
                self.buffers@.len() == old(self).buffers@.len(),
                forall|k: int| 0 <= k < self.max_slots && k != slot ==> #[trigger] self.buffers@[k] == old(self).buffers@[k],
                self.buffers@[slot as int]@.len() == self.max_buffer_size,
                forall|k: int| 0 <= k < i ==> #[trigger] self.buffers@[slot as int]@[k] == data@[k],
            decreases copy_len - i,
        {
            let b = data[i];
            self.buffers[slot].set(i, b);
            i = i + 1;
        }
        self.lengths.set(slot, copy_len);
        self.next_slot = slot + 1;
        proof {
            let m0 = old(self)@;
            let want = m0.slots.push(data@.take(kept_len(m0, data@) as int));
            assert forall|k: int| 0 <= k < self.next_slot implies #[trigger] self@.slots[k] == want[k] by {
                if k == slot {
                    assert(self@.slots[k] =~= data@.take(copy_len as int));
                }
            }
            assert(self@.slots =~= want);
        }
        Some((slot, copy_len))
    }

    /// The bytes held by a slot that was handed out since the last clear.
    pub fn slot_bytes(&self, slot: usize) -> (r: &[u8])
        requires
            self.wf(),
            slot < self@.slots.len(),
        ensures
            r@ == self@.slots[slot as int],
    {
        let len = self.lengths[slot];
        let buf = self.buffers[slot].as_slice();
        let r = &buf[0..len];
        assert(r@ =~= self@.slots[slot as int]);
        r
    }
}

/// Every operation keeps a pool model in a state it can be in.
pub proof fn lemma_pool_stays_wf(m: SysExPoolModel, data: Seq<u8>)
    requires
        pool_wf(m),
    ensures
        pool_wf(allocated(m, data)),
        pool_wf(cleared(m)),
{
}

/// What an allocation stores is read back unchanged: the slot it answers
/// holds the first `len` bytes of the message, `len` being the message
/// length capped at the slot size, and the slots handed out before keep
/// their bytes.
pub proof fn lemma_allocation_reads_back(m: SysExPoolModel, data: Seq<u8>)
    requires
        pool_wf(m),
        allocation(m, data) is Some,
    ensures
        ({
            let (slot, len) = allocation(m, data)->0;
            &&& allocated(m, data).slots[slot] == data.take(len)
            &&& len == (if data.len() <= m.slot_size { data.len() as int } else { m.slot_size as int })
            &&& forall|k: int| 0 <= k < m.slots.len() ==> #[trigger] allocated(m, data).slots[k] == m.slots[k]
        }),
{
}

/// After a clear, the next allocation uses the first slot, and it fails
/// only when the pool has no slot at all.
pub proof fn lemma_clear_then_allocate(m: SysExPoolModel, data: Seq<u8>)
    ensures
        m.capacity > 0 ==> allocation(cleared(m), data) == Some((0int, kept_len(m, data) as int)),
        m.capacity == 0 ==> allocation(cleared(m), data) is None,
{
}

/// The overflow flag, once set, stays set until the next clear.
pub proof fn lemma_overflow_is_sticky(m: SysExPoolModel, data: Seq<u8>)
    requires
        m.overflowed,
    ensures
        allocated(m, data).overflowed,
{
}

} // verus!
