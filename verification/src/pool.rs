//! The buffer pool: bookkeeping for the driver-shared memory slots of one
//! stream.
//!
//! A pool is created from the driver's answer to the "request buffers"
//! control request, has every slot's region described by a "query buffer"
//! reply before anything else may happen, and is released exactly once at
//! teardown. The pool tracks, per slot, the one logical owner of the region:
//! user code, the engine, or the driver, determined solely by the slot's
//! state.

use vstd::prelude::*;

use crate::codec::{BufType, BufferDesc, Memory};
use crate::error::StreamError;

verus! {

/// The ownership state of one slot's region.
///
/// Exactly one party may touch a region at any time: user code while `Free`,
/// the driver while `Queued`, and the engine (momentarily, before the caller
/// sees the frame) while `Filled`.
#[derive(Clone, Copy, PartialEq, Eq, Structural, Debug)]
pub enum SlotState {
    /// Available to user code; the driver does not know about it.
    Free,
    /// Ownership transferred to the driver; the region must not be touched.
    Queued,
    /// Returned by the driver with data, owned by the engine until handed on.
    Filled,
}

/// One unit of shared memory tracked by the pool.
#[derive(Clone, Copy, PartialEq, Eq, Structural, Debug)]
pub struct BufferSlot {
    /// Ordinal position in the pool, assigned once at pool creation.
    pub index: u32,
    /// Byte offset of the slot's region, as reported by the driver.
    pub offset: u64,
    /// Length in bytes of the slot's region.
    pub length: u32,
    /// How many bytes of the region hold payload data.
    pub bytesused: u32,
    /// Who owns the region right now.
    pub state: SlotState,
    /// Whether the region is currently mapped.
    pub mapped: bool,
}

/// How many slots of `s` are in state `st`.
pub open spec fn count_in_state(s: Seq<BufferSlot>, st: SlotState) -> nat
    decreases s.len(),
{
    if s.len() == 0 {
        0
    } else {
        count_in_state(s.drop_last(), st) + (if s.last().state == st {
            1nat
        } else {
            0nat
        })
    }
}

/// The slot states partition the pool: every slot is in exactly one state,
/// so the `Free`, `Queued` and `Filled` counts always sum to the number of
/// slots.
pub proof fn lemma_slot_states_partition(s: Seq<BufferSlot>)
    ensures
        count_in_state(s, SlotState::Free) + count_in_state(s, SlotState::Queued) + count_in_state(
            s,
            SlotState::Filled,
        ) == s.len(),
    decreases s.len(),
{
    if s.len() > 0 {
        lemma_slot_states_partition(s.drop_last());
    }
}

/// How many slots of `s` are mapped.
pub open spec fn count_mapped(s: Seq<BufferSlot>) -> nat
    decreases s.len(),
{
    if s.len() == 0 {
        0
    } else {
        count_mapped(s.drop_last()) + (if s.last().mapped {
            1nat
        } else {
            0nat
        })
    }
}

/// Counting mapped slots, one prefix step at a time.
proof fn lemma_count_mapped_take_snoc(s: Seq<BufferSlot>, i: int)
    requires
        0 <= i < s.len(),
    ensures
        count_mapped(s.take(i + 1)) == count_mapped(s.take(i)) + (if s[i].mapped {
            1nat
        } else {
            0nat
        }),
{
    assert(s.take(i + 1).drop_last() =~= s.take(i));
    assert(s.take(i + 1).last() == s[i]);
}

/// True when the byte ranges of `a` and `b` do not overlap.
pub open spec fn regions_disjoint(a: BufferDesc, b: BufferDesc) -> bool {
    a.offset + a.length <= b.offset || b.offset + b.length <= a.offset
}

/// True when the "query buffer" reply `d` acceptably describes slot `i` of a
/// pool with the given buffer type and memory mode.
pub open spec fn desc_ok(buf_type: BufType, memory: Memory, d: BufferDesc, i: int) -> bool {
    &&& d.buf_type == buf_type
    &&& d.memory == memory
    &&& d.index == i
    &&& d.length > 0
    &&& d.offset + d.length <= u64::MAX
}

/// True when `descs` acceptably describes, slot by slot, the regions of a
/// pool of `m` slots: one reply per slot, in slot order, positive lengths,
/// pairwise non-overlapping regions.
pub open spec fn replies_ok_for(
    buf_type: BufType,
    memory: Memory,
    m: int,
    descs: Seq<BufferDesc>,
) -> bool {
    &&& descs.len() == m
    &&& forall|i: int| 0 <= i < descs.len() ==> desc_ok(buf_type, memory, #[trigger] descs[i], i)
    &&& Pool::replies_disjoint(descs)
}

/// True when the byte ranges of two slots do not overlap.
pub open spec fn slots_disjoint(a: BufferSlot, b: BufferSlot) -> bool {
    a.offset + a.length <= b.offset || b.offset + b.length <= a.offset
}

/// The pool of shared-memory slots of one stream.
pub struct Pool {
    /// Which logical stream the pool's buffers belong to.
    pub buf_type: BufType,
    /// How the buffers are exchanged; fixed for the pool's lifetime.
    pub memory: Memory,
    /// The slots, in index order; the count is fixed at creation.
    pub slots: Vec<BufferSlot>,
    /// Whether the pool has been released.
    pub released: bool,
}

impl Pool {
    /// The structural invariant of a pool.
    pub open spec fn wf(self) -> bool {
        &&& self.slots@.len() <= u32::MAX
        &&& forall|i: int|
            0 <= i < self.slots@.len() ==> (#[trigger] self.slots@[i]).index == i
        &&& forall|i: int|
            0 <= i < self.slots@.len() ==> (#[trigger] self.slots@[i]).bytesused
                <= self.slots@[i].length
        &&& forall|i: int|
            0 <= i < self.slots@.len() && (#[trigger] self.slots@[i]).mapped ==> self.slots@[i].length
                > 0 && self.slots@[i].offset + self.slots@[i].length <= u64::MAX
        &&& forall|i: int, j: int|
            0 <= i < j < self.slots@.len() && (#[trigger] self.slots@[i]).mapped && (
            #[trigger] self.slots@[j]).mapped ==> slots_disjoint(self.slots@[i], self.slots@[j])
        &&& self.released ==> forall|i: int|
            0 <= i < self.slots@.len() ==> !(#[trigger] self.slots@[i]).mapped
                && self.slots@[i].state == SlotState::Free && self.slots@[i].bytesused == 0
    }

    /// How many slots the pool holds.
    pub open spec fn slot_count(self) -> nat {
        self.slots@.len()
    }

    /// True when some slot is currently mapped.
    pub open spec fn any_mapped(self) -> bool {
        exists|i: int| 0 <= i < self.slots@.len() && (#[trigger] self.slots@[i]).mapped
    }

    /// The slot a fresh pool starts with at position `i`.
    pub open spec fn fresh_slot(i: int) -> BufferSlot {
        BufferSlot {
            index: i as u32,
            offset: 0,
            length: 0,
            bytesused: 0,
            state: SlotState::Free,
            mapped: false,
        }
    }

    /// Builds the pool from the driver's answer to the "request buffers"
    /// control request.
    ///
    /// `reply` carries the realized buffer count the driver granted, or the
    /// driver's refusal (`Unsupported` when the buffer type/memory mode pair
    /// is not implemented, `Busy` when buffers are already allocated for this
    /// handle and type, `Io` on a hard failure). The realized count, not the
    /// requested one, is authoritative: the pool succeeds exactly when
    /// `1 <= granted <= requested`, and a granted count of zero or one above
    /// the request is a malformed driver response.
    pub fn allocate(
        buf_type: BufType,
        memory: Memory,
        requested: u32,
        reply: Result<u32, StreamError>,
    ) -> (r: Result<Pool, StreamError>)
        ensures
            requested == 0 ==> r == Err::<Pool, StreamError>(StreamError::Unsupported),
            requested > 0 ==> match reply {
                Err(e) => r == Err::<Pool, StreamError>(e),
                Ok(m) => if 1 <= m <= requested {
                    r matches Ok(p) && {
                        &&& p.wf()
                        &&& p.buf_type == buf_type
                        &&& p.memory == memory
                        &&& !p.released
                        &&& p.slots@.len() == m
                        &&& forall|i: int|
                            0 <= i < m ==> #[trigger] p.slots@[i] == Pool::fresh_slot(i)
                    }
                } else {
                    r == Err::<Pool, StreamError>(StreamError::MalformedResponse)
                },
            },
    {
        if requested == 0 {
            return Err(StreamError::Unsupported);
        }
        let granted = match reply {
            Ok(m) => m,
            Err(e) => {
                return Err(e);
            },
        };
        if granted == 0 || granted > requested {
            return Err(StreamError::MalformedResponse);
        }
        let mut slots: Vec<BufferSlot> = Vec::new();
        let mut i: u32 = 0;
        while i < granted
            invariant
                0 <= i <= granted,
                slots@.len() == i,
                forall|j: int| 0 <= j < i ==> #[trigger] slots@[j] == Pool::fresh_slot(j),
            decreases granted - i,
        {
            slots.push(
                BufferSlot {
                    index: i,
                    offset: 0,
                    length: 0,
                    bytesused: 0,
                    state: SlotState::Free,
                    mapped: false,
                },
            );
            i = i + 1;
        }
        Ok(Pool { buf_type, memory, slots, released: false })
    }

    /// True when the "query buffer" reply for slot `i` is acceptable.
    pub open spec fn map_reply_ok(self, d: BufferDesc, i: int) -> bool {
        desc_ok(self.buf_type, self.memory, d, i)
    }

    /// True when a sequence of region descriptions is pairwise non-overlapping.
    pub open spec fn replies_disjoint(descs: Seq<BufferDesc>) -> bool {
        forall|i: int, j: int|
            0 <= i < j < descs.len() ==> regions_disjoint(
                #[trigger] descs[i],
                #[trigger] descs[j],
            )
    }

    /// True when the "query buffer" replies describe every slot exactly once,
    /// with non-overlapping regions.
    pub open spec fn map_replies_ok(self, descs: Seq<BufferDesc>) -> bool {
        replies_ok_for(self.buf_type, self.memory, self.slots@.len() as int, descs)
    }

    /// The slot produced by mapping reply `d` at position `i`.
    pub open spec fn mapped_slot(d: BufferDesc, i: int) -> BufferSlot {
        BufferSlot {
            index: i as u32,
            offset: d.offset,
            length: d.length,
            bytesused: 0,
            state: SlotState::Free,
            mapped: true,
        }
    }

    /// Records the region of every slot from the driver's "query buffer"
    /// replies, exactly once per pool.
    ///
    /// Succeeds exactly when the pool is not yet mapped or released and the
    /// replies are one per slot, in slot order, with positive lengths and
    /// pairwise non-overlapping regions; the pool then holds exactly as many
    /// mapped regions as it has slots. Any failure leaves the pool unchanged:
    /// no partially mapped pool ever escapes.
    pub fn map_all(&mut self, descs: &Vec<BufferDesc>) -> (r: Result<(), StreamError>)
        requires
            old(self).wf(),
        ensures
            final(self).wf(),
            r is Ok <==> (!old(self).released && !old(self).any_mapped()
                && old(self).map_replies_ok(descs@)),
            (old(self).released || old(self).any_mapped()) ==> r == Err::<(), StreamError>(
                StreamError::Busy,
            ),
            r matches Err(e) ==> *final(self) == *old(self) && (e == StreamError::Busy || e
                == StreamError::MalformedResponse),
            r is Ok ==> {
                &&& final(self).buf_type == old(self).buf_type
                &&& final(self).memory == old(self).memory
                &&& !final(self).released
                &&& final(self).slots@.len() == old(self).slots@.len()
                &&& forall|i: int|
                    0 <= i < final(self).slots@.len() ==> #[trigger] final(self).slots@[i]
                        == Pool::mapped_slot(descs@[i], i)
            },
    {
        if self.released {
            return Err(StreamError::Busy);
        }
        let n = self.slots.len();
        let mut i: usize = 0;
        while i < n
            invariant
                *self == *old(self),
                self.wf(),
                !self.released,
                n == self.slots@.len(),
                0 <= i <= n,
                forall|j: int| 0 <= j < i ==> !(#[trigger] self.slots@[j]).mapped,
            decreases n - i,
        {
            if self.slots[i].mapped {
                return Err(StreamError::Busy);
            }
            i = i + 1;
        }
        if descs.len() != n {
            return Err(StreamError::MalformedResponse);
        }
        let mut i: usize = 0;
        while i < n
            invariant
                *self == *old(self),
                self.wf(),
                !self.released,
                !self.any_mapped(),
                n == self.slots@.len(),
                n == descs@.len(),
                0 <= i <= n,
                forall|j: int| 0 <= j < i ==> self.map_reply_ok(#[trigger] descs@[j], j),
            decreases n - i,
        {
            let d = descs[i];
            if !(d.buf_type.code() == self.buf_type.code() && d.memory.code()
                == self.memory.code()) {
                return Err(StreamError::MalformedResponse);
            }
            if d.index as usize != i || d.length == 0 {
                return Err(StreamError::MalformedResponse);
            }
            if d.offset > u64::MAX - d.length as u64 {
                return Err(StreamError::MalformedResponse);
            }
            i = i + 1;
        }
        let mut i: usize = 0;
        while i < n
            invariant
                *self == *old(self),
                self.wf(),
                !self.released,
                !self.any_mapped(),
                n == self.slots@.len(),
                n == descs@.len(),
                0 <= i <= n,
                forall|p: int, q: int|
                    0 <= p < q < n && p < i ==> regions_disjoint(
                        #[trigger] descs@[p],
                        #[trigger] descs@[q],
                    ),
                forall|j: int| 0 <= j < n ==> self.map_reply_ok(#[trigger] descs@[j], j),
            decreases n - i,
        {
            let mut j: usize = i + 1;
            while j < n
                invariant
                    *self == *old(self),
                    self.wf(),
                    !self.released,
                    !self.any_mapped(),
                    n == self.slots@.len(),
                    n == descs@.len(),
                    0 <= i < j <= n,
                    forall|q: int| i < q < j ==> regions_disjoint(
                        descs@[i as int],
                        #[trigger] descs@[q],
                    ),
                    forall|k: int| 0 <= k < n ==> self.map_reply_ok(#[trigger] descs@[k], k),
                decreases n - j,
            {
                let a = descs[i];
                let b = descs[j];
                if !(a.offset + a.length as u64 <= b.offset || b.offset + b.length as u64
                    <= a.offset) {
                    return Err(StreamError::MalformedResponse);
                }
                j = j + 1;
            }
            i = i + 1;
        }
        let ghost prior = *self;
        let mut i: usize = 0;
        while i < n
            invariant
                n == self.slots@.len(),
                n == descs@.len(),
                0 <= i <= n,
                self.buf_type == prior.buf_type,
                self.memory == prior.memory,
                self.released == prior.released,
                !prior.released,
                prior.map_replies_ok(descs@),
                forall|j: int|
                    0 <= j < i ==> #[trigger] self.slots@[j] == Pool::mapped_slot(descs@[j], j),
                forall|j: int| i <= j < n ==> #[trigger] self.slots@[j] == prior.slots@[j],
            decreases n - i,
        {
            let d = descs[i];
            self.slots[i] = BufferSlot {
                index: d.index,
                offset: d.offset,
                length: d.length,
                bytesused: 0,
                state: SlotState::Free,
                mapped: true,
            };
            i = i + 1;
        }
        Ok(())
    }

    /// Marks every slot unmapped and the pool released.
    ///
    /// Teardown must not fail, so this returns no error; the result is how
    /// many regions stopped being mapped by this call. Releasing an already
    /// released pool is a no-op: it changes nothing and unmaps nothing, so
    /// nothing is ever unmapped twice.
    pub fn release(&mut self) -> (released_now: usize)
        requires
            old(self).wf(),
        ensures
            final(self).wf(),
            final(self).released,
            final(self).buf_type == old(self).buf_type,
            final(self).memory == old(self).memory,
            final(self).slots@.len() == old(self).slots@.len(),
            forall|i: int|
                0 <= i < old(self).slots@.len() ==> #[trigger] final(self).slots@[i] == (BufferSlot {
                    state: SlotState::Free,
                    bytesused: 0,
                    mapped: false,
                    ..old(self).slots@[i]
                }),
            released_now == count_mapped(old(self).slots@),
            old(self).released ==> released_now == 0 && *final(self) == *old(self),
    {
        if self.released {
            proof {
                lemma_count_mapped_all_unmapped(self.slots@);
            }
            return 0;
        }
        let ghost prior = *self;
        let n = self.slots.len();
        let mut count: usize = 0;
        let mut i: usize = 0;
        while i < n
            invariant
                n == self.slots@.len(),
                n == prior.slots@.len(),
                0 <= i <= n,
                count <= i,
                self.buf_type == prior.buf_type,
                self.memory == prior.memory,
                self.released == prior.released,
                count == count_mapped(prior.slots@.take(i as int)),
                forall|j: int|
                    0 <= j < i ==> #[trigger] self.slots@[j] == (BufferSlot {
                        state: SlotState::Free,
                        bytesused: 0,
                        mapped: false,
                        ..prior.slots@[j]
                    }),
                forall|j: int| i <= j < n ==> #[trigger] self.slots@[j] == prior.slots@[j],
            decreases n - i,
        {
            proof {
                lemma_count_mapped_take_snoc(prior.slots@, i as int);
            }
            if self.slots[i].mapped {
                count = count + 1;
            }
            let s = self.slots[i];
            self.slots[i] = BufferSlot { state: SlotState::Free, bytesused: 0, mapped: false, ..s };
            i = i + 1;
        }
        self.released = true;
        proof {
            assert(prior.slots@.take(n as int) =~= prior.slots@);
        }
        count
    }
}

/// A sequence of fully mapped slots has a mapped count of its length.
pub(crate) proof fn lemma_count_mapped_all_mapped(s: Seq<BufferSlot>)
    requires
        forall|i: int| 0 <= i < s.len() ==> (#[trigger] s[i]).mapped,
    ensures
        count_mapped(s) == s.len(),
    decreases s.len(),
{
    if s.len() > 0 {
        lemma_count_mapped_all_mapped(s.drop_last());
    }
}

/// A sequence of unmapped slots has a mapped count of zero.
proof fn lemma_count_mapped_all_unmapped(s: Seq<BufferSlot>)
    requires
        forall|i: int| 0 <= i < s.len() ==> !(#[trigger] s[i]).mapped,
    ensures
        count_mapped(s) == 0,
    decreases s.len(),
{
    if s.len() > 0 {
        lemma_count_mapped_all_unmapped(s.drop_last());
    }
}

} // verus!
