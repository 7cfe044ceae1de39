//! The streaming engines: the state machines that sequence the buffer
//! exchange with the driver.
//!
//! An engine drives the request sequence allocate → map → prime → start →
//! repeat(retrieve, hand to caller, resubmit) → stop → unmap, in a
//! read-oriented ([`ReadStream`]) and a write-oriented ([`WriteStream`])
//! variant. The engine decides; the caller performs the control requests and
//! feeds each driver reply back in as a plain value, so every decision the
//! engine takes is verified for every reply the driver could give.

use vstd::prelude::*;

use crate::codec::{BufType, BufferDesc, Memory};
use crate::error::StreamError;
use crate::pool::{
    count_in_state, lemma_count_mapped_all_mapped, lemma_slot_states_partition, replies_ok_for,
    BufferSlot, Pool, SlotState,
};

verus! {

/// Where an engine stands in the mandated request sequence.
#[derive(Clone, Copy, PartialEq, Eq, Structural, Debug)]
pub enum EngineState {
    /// Pool allocated and mapped, buffers not yet primed.
    Idle,
    /// Ready to start: a read engine has every slot queued, a write engine
    /// has every slot free for the caller to fill.
    Primed,
    /// The start request has been issued and not yet matched by a stop.
    Active,
    /// The pool is released; the engine can only be dropped.
    Closed,
}

/// What the driver answered to a blocking "retrieve buffer" request.
#[derive(Clone, Copy, PartialEq, Eq, Structural, Debug)]
pub enum RetrieveReply {
    /// The driver handed back one buffer.
    Dequeued {
        /// The slot the driver completed; completion order is the driver's,
        /// never assumed to follow index order.
        index: u32,
        /// How many bytes of the region the driver filled or drained.
        bytesused: u32,
        /// Buffer flags reported by the driver.
        flags: u32,
    },
    /// A non-blocking handle had no buffer ready; the caller may retry.
    Empty,
    /// The device failed hard; the engine instance must be reconstructed.
    Failed,
}

/// What a teardown asks the caller to do at the device: issue the stop
/// request, and unmap this many regions.
#[derive(Clone, Copy, PartialEq, Eq, Structural, Debug)]
pub struct CloseActions {
    /// True when the stream was active, so a stop request is owed. Its
    /// failure is reported but never stops the teardown.
    pub stop_stream: bool,
    /// How many regions stopped being mapped by this call.
    pub unmapped: usize,
}

/// True when some slot of `s` is in state `st`.
pub open spec fn has_state(s: Seq<BufferSlot>, st: SlotState) -> bool {
    exists|i: int| 0 <= i < s.len() && (#[trigger] s[i]).state == st
}

/// True when `i` is the lowest-indexed slot of `s` in state `Free`.
pub open spec fn is_lowest_free(s: Seq<BufferSlot>, i: int) -> bool {
    &&& 0 <= i < s.len()
    &&& s[i].state == SlotState::Free
    &&& forall|j: int| 0 <= j < i ==> (#[trigger] s[j]).state != SlotState::Free
}

/// Every slot sequence with a free slot has a lowest-indexed free slot, so
/// the clauses of [`WriteStream::submit`] that speak of it are never vacuous:
/// `k` is any free slot's position.
pub proof fn lemma_lowest_free_exists(s: Seq<BufferSlot>, k: int)
    requires
        0 <= k < s.len(),
        s[k].state == SlotState::Free,
    ensures
        exists|i: int| is_lowest_free(s, i),
    decreases k,
{
    if forall|j: int| 0 <= j < k ==> (#[trigger] s[j]).state != SlotState::Free {
        assert(is_lowest_free(s, k));
    } else {
        let j = choose|j: int| 0 <= j < k && (#[trigger] s[j]).state == SlotState::Free;
        lemma_lowest_free_exists(s, j);
    }
}

/// A pool as it comes out of `allocate` followed by `map_all`: every slot
/// mapped, free and empty, and at least one slot.
pub open spec fn pool_ready(p: Pool) -> bool {
    &&& p.wf()
    &&& !p.released
    &&& p.slots@.len() > 0
    &&& forall|i: int|
        0 <= i < p.slots@.len() ==> (#[trigger] p.slots@[i]).mapped && p.slots@[i].state
            == SlotState::Free && p.slots@[i].bytesused == 0
}

/// The read-oriented streaming engine, retrieving driver-filled buffers.
pub struct ReadStream {
    /// The shared-memory slots this engine exchanges with the driver.
    pub pool: Pool,
    /// Where the engine stands in the request sequence.
    pub state: EngineState,
}

impl ReadStream {
    /// The structural invariant of a read engine.
    pub open spec fn wf(self) -> bool {
        &&& self.pool.wf()
        &&& self.pool.slots@.len() > 0
        &&& (self.state == EngineState::Closed <==> self.pool.released)
        &&& self.state != EngineState::Closed ==> forall|i: int|
            0 <= i < self.pool.slots@.len() ==> (#[trigger] self.pool.slots@[i]).mapped
        &&& self.state == EngineState::Idle ==> forall|i: int|
            0 <= i < self.pool.slots@.len() ==> (#[trigger] self.pool.slots@[i]).state
                == SlotState::Free && self.pool.slots@[i].bytesused == 0
    }

    /// How many slots the engine drives.
    pub open spec fn slot_count(self) -> nat {
        self.pool.slots@.len()
    }

    /// Wraps a freshly mapped pool into an idle read engine.
    pub fn new(pool: Pool) -> (r: ReadStream)
        requires
            pool_ready(pool),
        ensures
            r.wf(),
            r.state == EngineState::Idle,
            r.pool == pool,
    {
        ReadStream { pool, state: EngineState::Idle }
    }

    /// Builds a read engine from the driver's answers to the "request
    /// buffers" request (`alloc_reply`) and the per-slot "query buffer"
    /// requests (`map_replies`).
    ///
    /// Succeeds exactly when the driver granted between one and `requested`
    /// buffers and described one positive-length, non-overlapping region per
    /// granted slot; a driver refusal is handed through, and a reply outside
    /// that schema is a `MalformedResponse`. No partial engine is ever
    /// returned.
    pub fn open(
        buf_type: BufType,
        requested: u32,
        alloc_reply: Result<u32, StreamError>,
        map_replies: &Vec<BufferDesc>,
    ) -> (r: Result<ReadStream, StreamError>)
        ensures
            requested == 0 ==> r == Err::<ReadStream, StreamError>(StreamError::Unsupported),
            requested > 0 ==> match alloc_reply {
                Err(e) => r == Err::<ReadStream, StreamError>(e),
                Ok(m) => if !(1 <= m <= requested) {
                    r == Err::<ReadStream, StreamError>(StreamError::MalformedResponse)
                } else if !replies_ok_for(buf_type, Memory::Mmap, m as int, map_replies@) {
                    r == Err::<ReadStream, StreamError>(StreamError::MalformedResponse)
                } else {
                    r matches Ok(eng) && {
                        &&& eng.wf()
                        &&& eng.state == EngineState::Idle
                        &&& eng.pool.buf_type == buf_type
                        &&& eng.pool.memory == Memory::Mmap
                        &&& eng.pool.slots@.len() == m
                        &&& forall|i: int|
                            0 <= i < m ==> #[trigger] eng.pool.slots@[i] == Pool::mapped_slot(
                                map_replies@[i],
                                i,
                            )
                    }
                },
            },
    {
        let mut pool = match Pool::allocate(buf_type, Memory::Mmap, requested, alloc_reply) {
            Ok(p) => p,
            Err(e) => {
                return Err(e);
            },
        };
        match pool.map_all(map_replies) {
            Ok(()) => {},
            Err(_) => {
                return Err(StreamError::MalformedResponse);
            },
        }
        Ok(ReadStream::new(pool))
    }

    /// Primes the stream: submits every slot to the driver, so that capture
    /// can fill buffers the instant streaming starts.
    ///
    /// Succeeds exactly once, on an idle engine: every slot goes from `Free`
    /// to `Queued`. Priming again is `AlreadyActive`; a closed engine is
    /// `NotActive`. A failure changes nothing.
    pub fn prime(&mut self) -> (r: Result<(), StreamError>)
        requires
            old(self).wf(),
        ensures
            final(self).wf(),
            r is Ok <==> old(self).state == EngineState::Idle,
            old(self).state == EngineState::Closed ==> r == Err::<(), StreamError>(
                StreamError::NotActive,
            ),
            (old(self).state == EngineState::Primed || old(self).state == EngineState::Active)
                ==> r == Err::<(), StreamError>(StreamError::AlreadyActive),
            r matches Err(e) ==> *final(self) == *old(self),
            r is Ok ==> {
                &&& final(self).state == EngineState::Primed
                &&& final(self).pool.buf_type == old(self).pool.buf_type
                &&& final(self).pool.memory == old(self).pool.memory
                &&& !final(self).pool.released
                &&& final(self).pool.slots@.len() == old(self).pool.slots@.len()
                &&& forall|i: int|
                    0 <= i < old(self).pool.slots@.len() ==> #[trigger] final(self).pool.slots@[i]
                        == (BufferSlot { state: SlotState::Queued, ..old(self).pool.slots@[i] })
            },
    {
        match self.state {
            EngineState::Idle => {},
            EngineState::Closed => {
                return Err(StreamError::NotActive);
            },
            _ => {
                return Err(StreamError::AlreadyActive);
            },
        }
        let ghost prior = *self;
        let n = self.pool.slots.len();
        let mut i: usize = 0;
        while i < n
            invariant
                n == self.pool.slots@.len(),
                0 <= i <= n,
                self.state == prior.state,
                self.pool.buf_type == prior.pool.buf_type,
                self.pool.memory == prior.pool.memory,
                self.pool.released == prior.pool.released,
                prior.wf(),
                prior.state == EngineState::Idle,
                forall|j: int|
                    0 <= j < i ==> #[trigger] self.pool.slots@[j] == (BufferSlot {
                        state: SlotState::Queued,
                        ..prior.pool.slots@[j]
                    }),
                forall|j: int| i <= j < n ==> #[trigger] self.pool.slots@[j] == prior.pool.slots@[j],
            decreases n - i,
        {
            let s = self.pool.slots[i];
            self.pool.slots[i] = BufferSlot { state: SlotState::Queued, ..s };
            i = i + 1;
        }
        self.state = EngineState::Primed;
        Ok(())
    }

    /// Issues the "start streaming" transition.
    ///
    /// Succeeds exactly when the engine is primed. Starting twice is a
    /// caller error (`AlreadyActive`); starting an engine that was never
    /// primed, or is closed, is `NotActive`. A failure changes nothing.
    pub fn start(&mut self) -> (r: Result<(), StreamError>)
        requires
            old(self).wf(),
        ensures
            final(self).wf(),
            r is Ok <==> old(self).state == EngineState::Primed,
            old(self).state == EngineState::Active ==> r == Err::<(), StreamError>(
                StreamError::AlreadyActive,
            ),
            (old(self).state == EngineState::Idle || old(self).state == EngineState::Closed) ==> r
                == Err::<(), StreamError>(StreamError::NotActive),
            r matches Err(e) ==> *final(self) == *old(self),
            r is Ok ==> *final(self) == (ReadStream { state: EngineState::Active, ..*old(self) }),
    {
        match self.state {
            EngineState::Primed => {
                self.state = EngineState::Active;
                Ok(())
            },
            EngineState::Active => Err(StreamError::AlreadyActive),
            _ => Err(StreamError::NotActive),
        }
    }

    /// Says whether a blocking "retrieve buffer" request may be issued now.
    ///
    /// Retrieval needs an active engine with at least one slot queued with
    /// the driver: retrieving with nothing queued would block forever with no
    /// way to signal, and is reported as the caller error `NothingQueued`
    /// instead.
    pub fn retrieve_ready(&self) -> (r: Result<(), StreamError>)
        requires
            self.wf(),
        ensures
            r is Ok <==> (self.state == EngineState::Active && has_state(
                self.pool.slots@,
                SlotState::Queued,
            )),
            self.state != EngineState::Active ==> r == Err::<(), StreamError>(
                StreamError::NotActive,
            ),
            self.state == EngineState::Active && !has_state(self.pool.slots@, SlotState::Queued)
                ==> r == Err::<(), StreamError>(StreamError::NothingQueued),
    {
        match self.state {
            EngineState::Active => {},
            _ => {
                return Err(StreamError::NotActive);
            },
        }
        let n = self.pool.slots.len();
        let mut i: usize = 0;
        while i < n
            invariant
                self.state == EngineState::Active,
                n == self.pool.slots@.len(),
                0 <= i <= n,
                forall|j: int|
                    0 <= j < i ==> (#[trigger] self.pool.slots@[j]).state != SlotState::Queued,
            decreases n - i,
        {
            if matches!(self.pool.slots[i].state, SlotState::Queued) {
                return Ok(());
            }
            i = i + 1;
        }
        Err(StreamError::NothingQueued)
    }

    /// Applies the driver's answer to a "retrieve buffer" request: the named
    /// slot passes from the driver back to the engine, `Queued` → `Filled`,
    /// and its index is returned so the caller can hand the filled region on
    /// exactly once.
    ///
    /// The engine must be active with something queued, as
    /// [`Self::retrieve_ready`] checks. The driver chooses which queued slot
    /// completes; any queued index is accepted, in whatever order the driver
    /// finishes. A reply naming a slot that is not queued, an index out of
    /// range, or a byte count beyond the region is a `MalformedResponse`.
    /// `Empty` is the retryable `WouldBlock`; `Failed` is a fatal `Io`. On
    /// any failure the engine is unchanged.
    pub fn finish_retrieve(&mut self, reply: RetrieveReply) -> (r: Result<u32, StreamError>)
        requires
            old(self).wf(),
        ensures
            final(self).wf(),
            old(self).state != EngineState::Active ==> r == Err::<u32, StreamError>(
                StreamError::NotActive,
            ) && *final(self) == *old(self),
            old(self).state == EngineState::Active && !has_state(
                old(self).pool.slots@,
                SlotState::Queued,
            ) ==> r == Err::<u32, StreamError>(StreamError::NothingQueued)
                && *final(self) == *old(self),
            old(self).state == EngineState::Active && has_state(
                old(self).pool.slots@,
                SlotState::Queued,
            ) ==> match reply {
                RetrieveReply::Empty => r == Err::<u32, StreamError>(StreamError::WouldBlock)
                    && *final(self) == *old(self),
                RetrieveReply::Failed => r == Err::<u32, StreamError>(StreamError::Io)
                    && *final(self) == *old(self),
                RetrieveReply::Dequeued { index, bytesused, flags } => {
                    if index < old(self).pool.slots@.len() && old(self).pool.slots@[
                        index as int
                    ].state == SlotState::Queued && bytesused <= old(self).pool.slots@[
                        index as int
                    ].length {
                        &&& r == Ok::<u32, StreamError>(index)
                        &&& final(self).state == EngineState::Active
                        &&& final(self).pool == (Pool {
                            slots: final(self).pool.slots,
                            ..old(self).pool
                        })
                        &&& final(self).pool.slots@ == old(self).pool.slots@.update(
                            index as int,
                            BufferSlot {
                                state: SlotState::Filled,
                                bytesused,
                                ..old(self).pool.slots@[index as int]
                            },
                        )
                    } else {
                        r == Err::<u32, StreamError>(StreamError::MalformedResponse) && *final(self)
                            == *old(self)
                    }
                },
            },
    {
        match self.retrieve_ready() {
            Ok(()) => {},
            Err(e) => {
                return Err(e);
            },
        }
        match reply {
            RetrieveReply::Empty => Err(StreamError::WouldBlock),
            RetrieveReply::Failed => Err(StreamError::Io),
            RetrieveReply::Dequeued { index, bytesused, flags: _ } => {
                let n = self.pool.slots.len();
                if index as usize >= n {
                    return Err(StreamError::MalformedResponse);
                }
                let s = self.pool.slots[index as usize];
                if !matches!(s.state, SlotState::Queued) {
                    return Err(StreamError::MalformedResponse);
                }
                if bytesused > s.length {
                    return Err(StreamError::MalformedResponse);
                }
                self.pool.slots[index as usize] = BufferSlot {
                    state: SlotState::Filled,
                    bytesused,
                    ..s
                };
                Ok(index)
            },
        }
    }

    /// Hands a fully consumed slot back to the driver: `Filled` → `Queued`.
    ///
    /// Only a slot the caller just retrieved, and whose region it is done
    /// with, may be resubmitted; the engine never resubmits speculatively.
    /// The returned descriptor is what the caller's "queue buffer" request
    /// must carry.
    pub fn resubmit(&mut self, index: u32) -> (d: BufferDesc)
        requires
            old(self).wf(),
            old(self).state == EngineState::Active,
            index < old(self).pool.slots@.len(),
            old(self).pool.slots@[index as int].state == SlotState::Filled,
        ensures
            final(self).wf(),
            final(self).state == EngineState::Active,
            final(self).pool == (Pool { slots: final(self).pool.slots, ..old(self).pool }),
            final(self).pool.slots@ == old(self).pool.slots@.update(
                index as int,
                BufferSlot {
                    state: SlotState::Queued,
                    bytesused: 0,
                    ..old(self).pool.slots@[index as int]
                },
            ),
            d == (BufferDesc {
                buf_type: old(self).pool.buf_type,
                memory: old(self).pool.memory,
                index,
                flags: 0,
                bytesused: 0,
                length: old(self).pool.slots@[index as int].length,
                offset: old(self).pool.slots@[index as int].offset,
                timestamp_sec: 0,
                timestamp_usec: 0,
            }),
    {
        let s = self.pool.slots[index as usize];
        self.pool.slots[index as usize] = BufferSlot {
            state: SlotState::Queued,
            bytesused: 0,
            ..s
        };
        BufferDesc {
            buf_type: self.pool.buf_type,
            memory: self.pool.memory,
            index,
            flags: 0,
            bytesused: 0,
            length: s.length,
            offset: s.offset,
            timestamp_sec: 0,
            timestamp_usec: 0,
        }
    }

    /// Tears the engine down: the pool is released and the engine is closed.
    ///
    /// Teardown never fails and runs to completion whatever state the engine
    /// is in: the returned actions tell the caller to issue the stop request
    /// (exactly when the stream was active — its failure is reported, not
    /// propagated) and how many regions stopped being mapped. Closing an
    /// already closed engine is a no-op that asks for nothing, so no region
    /// is ever unmapped twice.
    pub fn close(&mut self) -> (actions: CloseActions)
        requires
            old(self).wf(),
        ensures
            final(self).wf(),
            final(self).state == EngineState::Closed,
            final(self).pool.released,
            actions.stop_stream == (old(self).state == EngineState::Active),
            old(self).state != EngineState::Closed ==> actions.unmapped == old(
                self,
            ).pool.slots@.len(),
            old(self).state == EngineState::Closed ==> *final(self) == *old(self)
                && !actions.stop_stream && actions.unmapped == 0,
            final(self).pool.slots@.len() == old(self).pool.slots@.len(),
    {
        let was_active = matches!(self.state, EngineState::Active);
        if matches!(self.state, EngineState::Closed) {
            let unmapped = self.pool.release();
            return CloseActions { stop_stream: false, unmapped };
        }
        proof {
            lemma_count_mapped_all_mapped(self.pool.slots@);
        }
        let unmapped = self.pool.release();
        self.state = EngineState::Closed;
        CloseActions { stop_stream: was_active, unmapped }
    }
}

/// At any point in a read engine's life the slot states partition its
/// pool: every slot is in exactly one of `Free`, `Queued` and `Filled`, and
/// the three counts always sum to the number of slots.
pub proof fn lemma_read_stream_partition(eng: ReadStream)
    ensures
        count_in_state(eng.pool.slots@, SlotState::Free) + count_in_state(
            eng.pool.slots@,
            SlotState::Queued,
        ) + count_in_state(eng.pool.slots@, SlotState::Filled) == eng.slot_count(),
{
    lemma_slot_states_partition(eng.pool.slots@);
}

/// At any point in a write engine's life the slot states partition its
/// pool, as for a read engine.
pub proof fn lemma_write_stream_partition(eng: WriteStream)
    ensures
        count_in_state(eng.pool.slots@, SlotState::Free) + count_in_state(
            eng.pool.slots@,
            SlotState::Queued,
        ) + count_in_state(eng.pool.slots@, SlotState::Filled) == eng.slot_count(),
{
    lemma_slot_states_partition(eng.pool.slots@);
}

/// The write-oriented streaming engine, submitting caller-filled buffers.
pub struct WriteStream {
    /// The shared-memory slots this engine exchanges with the driver.
    pub pool: Pool,
    /// Where the engine stands in the request sequence.
    pub state: EngineState,
}

impl WriteStream {
    /// The structural invariant of a write engine.
    pub open spec fn wf(self) -> bool {
        &&& self.pool.wf()
        &&& self.pool.slots@.len() > 0
        &&& (self.state == EngineState::Closed <==> self.pool.released)
        &&& self.state != EngineState::Closed ==> forall|i: int|
            0 <= i < self.pool.slots@.len() ==> (#[trigger] self.pool.slots@[i]).mapped
        &&& self.state == EngineState::Idle ==> forall|i: int|
            0 <= i < self.pool.slots@.len() ==> (#[trigger] self.pool.slots@[i]).state
                == SlotState::Free && self.pool.slots@[i].bytesused == 0
    }

    /// How many slots the engine drives.
    pub open spec fn slot_count(self) -> nat {
        self.pool.slots@.len()
    }

    /// Wraps a freshly mapped pool into an idle write engine.
    pub fn new(pool: Pool) -> (r: WriteStream)
        requires
            pool_ready(pool),
        ensures
            r.wf(),
            r.state == EngineState::Idle,
            r.pool == pool,
    {
        WriteStream { pool, state: EngineState::Idle }
    }

    /// Builds a write engine from the driver's answers to the "request
    /// buffers" request (`alloc_reply`) and the per-slot "query buffer"
    /// requests (`map_replies`).
    ///
    /// Succeeds exactly when the driver granted between one and `requested`
    /// buffers and described one positive-length, non-overlapping region per
    /// granted slot; a driver refusal is handed through, and a reply outside
    /// that schema is a `MalformedResponse`. No partial engine is ever
    /// returned.
    pub fn open(
        buf_type: BufType,
        requested: u32,
        alloc_reply: Result<u32, StreamError>,
        map_replies: &Vec<BufferDesc>,
    ) -> (r: Result<WriteStream, StreamError>)
        ensures
            requested == 0 ==> r == Err::<WriteStream, StreamError>(StreamError::Unsupported),
            requested > 0 ==> match alloc_reply {
                Err(e) => r == Err::<WriteStream, StreamError>(e),
                Ok(m) => if !(1 <= m <= requested) {
                    r == Err::<WriteStream, StreamError>(StreamError::MalformedResponse)
                } else if !replies_ok_for(buf_type, Memory::Mmap, m as int, map_replies@) {
                    r == Err::<WriteStream, StreamError>(StreamError::MalformedResponse)
                } else {
                    r matches Ok(eng) && {
                        &&& eng.wf()
                        &&& eng.state == EngineState::Idle
                        &&& eng.pool.buf_type == buf_type
                        &&& eng.pool.memory == Memory::Mmap
                        &&& eng.pool.slots@.len() == m
                        &&& forall|i: int|
                            0 <= i < m ==> #[trigger] eng.pool.slots@[i] == Pool::mapped_slot(
                                map_replies@[i],
                                i,
                            )
                    }
                },
            },
    {
        let mut pool = match Pool::allocate(buf_type, Memory::Mmap, requested, alloc_reply) {
            Ok(p) => p,
            Err(e) => {
                return Err(e);
            },
        };
        match pool.map_all(map_replies) {
            Ok(()) => {},
            Err(_) => {
                return Err(StreamError::MalformedResponse);
            },
        }
        Ok(WriteStream::new(pool))
    }

    /// Primes the stream. For the write direction this submits nothing: the
    /// caller supplies the data to submit, so every slot stays `Free`.
    ///
    /// Succeeds exactly once, on an idle engine. Priming again is
    /// `AlreadyActive`; a closed engine is `NotActive`. A failure changes
    /// nothing.
    pub fn prime(&mut self) -> (r: Result<(), StreamError>)
        requires
            old(self).wf(),
        ensures
            final(self).wf(),
            r is Ok <==> old(self).state == EngineState::Idle,
            old(self).state == EngineState::Closed ==> r == Err::<(), StreamError>(
                StreamError::NotActive,
            ),
            (old(self).state == EngineState::Primed || old(self).state == EngineState::Active)
                ==> r == Err::<(), StreamError>(StreamError::AlreadyActive),
            r matches Err(e) ==> *final(self) == *old(self),
            r is Ok ==> *final(self) == (WriteStream { state: EngineState::Primed, ..*old(self) }),
    {
        match self.state {
            EngineState::Idle => {
                self.state = EngineState::Primed;
                Ok(())
            },
            EngineState::Closed => Err(StreamError::NotActive),
            _ => Err(StreamError::AlreadyActive),
        }
    }

    /// Issues the "start streaming" transition.
    ///
    /// Succeeds exactly when the engine is primed. Starting twice is a
    /// caller error (`AlreadyActive`); starting an engine that was never
    /// primed, or is closed, is `NotActive`. A failure changes nothing.
    pub fn start(&mut self) -> (r: Result<(), StreamError>)
        requires
            old(self).wf(),
        ensures
            final(self).wf(),
            r is Ok <==> old(self).state == EngineState::Primed,
            old(self).state == EngineState::Active ==> r == Err::<(), StreamError>(
                StreamError::AlreadyActive,
            ),
            (old(self).state == EngineState::Idle || old(self).state == EngineState::Closed) ==> r
                == Err::<(), StreamError>(StreamError::NotActive),
            r matches Err(e) ==> *final(self) == *old(self),
            r is Ok ==> *final(self) == (WriteStream { state: EngineState::Active, ..*old(self) }),
    {
        match self.state {
            EngineState::Primed => {
                self.state = EngineState::Active;
                Ok(())
            },
            EngineState::Active => Err(StreamError::AlreadyActive),
            _ => Err(StreamError::NotActive),
        }
    }

    /// Hands the driver a buffer the caller has filled: the engine selects
    /// the lowest-indexed `Free` slot, records that its first `bytesused`
    /// bytes hold payload, and moves it `Free` → `Queued`. The returned
    /// descriptor is what the caller's "submit buffer" request must carry,
    /// and names the slot region the caller must have written.
    ///
    /// An engine that is not active is `NotActive`; no free slot right now
    /// is the retryable `WouldBlock` (reclaim a drained buffer first); a
    /// payload larger than the selected slot's region is `Unsupported`. On
    /// any failure the engine is unchanged.
    pub fn submit(&mut self, bytesused: u32) -> (r: Result<BufferDesc, StreamError>)
        requires
            old(self).wf(),
        ensures
            final(self).wf(),
            old(self).state != EngineState::Active ==> r == Err::<BufferDesc, StreamError>(
                StreamError::NotActive,
            ) && *final(self) == *old(self),
            old(self).state == EngineState::Active && !has_state(
                old(self).pool.slots@,
                SlotState::Free,
            ) ==> r == Err::<BufferDesc, StreamError>(StreamError::WouldBlock)
                && *final(self) == *old(self),
            old(self).state == EngineState::Active ==> forall|i: int|
                is_lowest_free(old(self).pool.slots@, i) ==> if bytesused <= old(
                    self,
                ).pool.slots@[i].length {
                    &&& r == Ok::<BufferDesc, StreamError>(
                        BufferDesc {
                            buf_type: old(self).pool.buf_type,
                            memory: old(self).pool.memory,
                            index: i as u32,
                            flags: 0,
                            bytesused,
                            length: old(self).pool.slots@[i].length,
                            offset: old(self).pool.slots@[i].offset,
                            timestamp_sec: 0,
                            timestamp_usec: 0,
                        },
                    )
                    &&& final(self).state == EngineState::Active
                    &&& final(self).pool == (Pool {
                        slots: final(self).pool.slots,
                        ..old(self).pool
                    })
                    &&& final(self).pool.slots@ == old(self).pool.slots@.update(
                        i,
                        BufferSlot {
                            state: SlotState::Queued,
                            bytesused,
                            ..old(self).pool.slots@[i]
                        },
                    )
                } else {
                    r == Err::<BufferDesc, StreamError>(StreamError::Unsupported) && *final(self)
                        == *old(self)
                },
    {
        match self.state {
            EngineState::Active => {},
            _ => {
                return Err(StreamError::NotActive);
            },
        }
        let n = self.pool.slots.len();
        let mut i: usize = 0;
        while i < n
            invariant
                *self == *old(self),
                self.state == EngineState::Active,
                self.wf(),
                n == self.pool.slots@.len(),
                0 <= i <= n,
                forall|j: int|
                    0 <= j < i ==> (#[trigger] self.pool.slots@[j]).state != SlotState::Free,
            decreases n - i,
        {
            if matches!(self.pool.slots[i].state, SlotState::Free) {
                let s = self.pool.slots[i];
                if bytesused > s.length {
                    return Err(StreamError::Unsupported);
                }
                self.pool.slots[i] = BufferSlot { state: SlotState::Queued, bytesused, ..s };
                return Ok(
                    BufferDesc {
                        buf_type: self.pool.buf_type,
                        memory: self.pool.memory,
                        index: i as u32,
                        flags: 0,
                        bytesused,
                        length: s.length,
                        offset: s.offset,
                        timestamp_sec: 0,
                        timestamp_usec: 0,
                    },
                );
            }
            i = i + 1;
        }
        Err(StreamError::WouldBlock)
    }

    /// The slot the next submission will select: the lowest-indexed `Free`
    /// slot, whose region the caller should fill before calling
    /// [`Self::submit`]; `None` when every slot is with the driver.
    pub fn next_free_index(&self) -> (r: Option<u32>)
        requires
            self.wf(),
        ensures
            match r {
                Some(i) => is_lowest_free(self.pool.slots@, i as int),
                None => !has_state(self.pool.slots@, SlotState::Free),
            },
    {
        let n = self.pool.slots.len();
        let mut i: usize = 0;
        while i < n
            invariant
                self.wf(),
                n == self.pool.slots@.len(),
                0 <= i <= n,
                forall|j: int|
                    0 <= j < i ==> (#[trigger] self.pool.slots@[j]).state != SlotState::Free,
            decreases n - i,
        {
            if matches!(self.pool.slots[i].state, SlotState::Free) {
                return Some(i as u32);
            }
            i = i + 1;
        }
        None
    }

    /// Says whether a blocking "retrieve buffer" request may be issued now
    /// to reclaim a drained buffer.
    pub fn reclaim_ready(&self) -> (r: Result<(), StreamError>)
        requires
            self.wf(),
        ensures
            r is Ok <==> (self.state == EngineState::Active && has_state(
                self.pool.slots@,
                SlotState::Queued,
            )),
            self.state != EngineState::Active ==> r == Err::<(), StreamError>(
                StreamError::NotActive,
            ),
            self.state == EngineState::Active && !has_state(self.pool.slots@, SlotState::Queued)
                ==> r == Err::<(), StreamError>(StreamError::NothingQueued),
    {
        match self.state {
            EngineState::Active => {},
            _ => {
                return Err(StreamError::NotActive);
            },
        }
        let n = self.pool.slots.len();
        let mut i: usize = 0;
        while i < n
            invariant
                self.state == EngineState::Active,
                n == self.pool.slots@.len(),
                0 <= i <= n,
                forall|j: int|
                    0 <= j < i ==> (#[trigger] self.pool.slots@[j]).state != SlotState::Queued,
            decreases n - i,
        {
            if matches!(self.pool.slots[i].state, SlotState::Queued) {
                return Ok(());
            }
            i = i + 1;
        }
        Err(StreamError::NothingQueued)
    }

    /// Applies the driver's answer to a "retrieve buffer" request: the named
    /// slot has been drained by the driver and passes back to the caller,
    /// `Queued` → `Free`, so it can be filled and submitted again.
    ///
    /// The engine must be active with something queued, as
    /// [`Self::reclaim_ready`] checks. The driver chooses which queued slot
    /// drains first; any queued index is accepted. A reply naming a slot
    /// that is not queued or an index out of range is a `MalformedResponse`.
    /// `Empty` is the retryable `WouldBlock`; `Failed` is a fatal `Io`. On
    /// any failure the engine is unchanged.
    pub fn reclaim(&mut self, reply: RetrieveReply) -> (r: Result<u32, StreamError>)
        requires
            old(self).wf(),
        ensures
            final(self).wf(),
            old(self).state != EngineState::Active ==> r == Err::<u32, StreamError>(
                StreamError::NotActive,
            ) && *final(self) == *old(self),
            old(self).state == EngineState::Active && !has_state(
                old(self).pool.slots@,
                SlotState::Queued,
            ) ==> r == Err::<u32, StreamError>(StreamError::NothingQueued)
                && *final(self) == *old(self),
            old(self).state == EngineState::Active && has_state(
                old(self).pool.slots@,
                SlotState::Queued,
            ) ==> match reply {
                RetrieveReply::Empty => r == Err::<u32, StreamError>(StreamError::WouldBlock)
                    && *final(self) == *old(self),
                RetrieveReply::Failed => r == Err::<u32, StreamError>(StreamError::Io)
                    && *final(self) == *old(self),
                RetrieveReply::Dequeued { index, bytesused, flags } => {
                    if index < old(self).pool.slots@.len() && old(self).pool.slots@[
                        index as int
                    ].state == SlotState::Queued {
                        &&& r == Ok::<u32, StreamError>(index)
                        &&& final(self).state == EngineState::Active
                        &&& final(self).pool == (Pool {
                            slots: final(self).pool.slots,
                            ..old(self).pool
                        })
                        &&& final(self).pool.slots@ == old(self).pool.slots@.update(
                            index as int,
                            BufferSlot {
                                state: SlotState::Free,
                                bytesused: 0,
                                ..old(self).pool.slots@[index as int]
                            },
                        )
                    } else {
                        r == Err::<u32, StreamError>(StreamError::MalformedResponse) && *final(self)
                            == *old(self)
                    }
                },
            },
    {
        match self.reclaim_ready() {
            Ok(()) => {},
            Err(e) => {
                return Err(e);
            },
        }
        match reply {
            RetrieveReply::Empty => Err(StreamError::WouldBlock),
            RetrieveReply::Failed => Err(StreamError::Io),
            RetrieveReply::Dequeued { index, bytesused: _, flags: _ } => {
                let n = self.pool.slots.len();
                if index as usize >= n {
                    return Err(StreamError::MalformedResponse);
                }
                let s = self.pool.slots[index as usize];
                if !matches!(s.state, SlotState::Queued) {
                    return Err(StreamError::MalformedResponse);
                }
                self.pool.slots[index as usize] = BufferSlot {
                    state: SlotState::Free,
                    bytesused: 0,
                    ..s
                };
                Ok(index)
            },
        }
    }

    /// Tears the engine down: the pool is released and the engine is closed.
    ///
    /// Teardown never fails and runs to completion whatever state the engine
    /// is in: the returned actions tell the caller to issue the stop request
    /// (exactly when the stream was active — its failure is reported, not
    /// propagated) and how many regions stopped being mapped. Closing an
    /// already closed engine is a no-op that asks for nothing, so no region
    /// is ever unmapped twice.
    pub fn close(&mut self) -> (actions: CloseActions)
        requires
            old(self).wf(),
        ensures
            final(self).wf(),
            final(self).state == EngineState::Closed,
            final(self).pool.released,
            actions.stop_stream == (old(self).state == EngineState::Active),
            old(self).state != EngineState::Closed ==> actions.unmapped == old(
                self,
            ).pool.slots@.len(),
            old(self).state == EngineState::Closed ==> *final(self) == *old(self)
                && !actions.stop_stream && actions.unmapped == 0,
            final(self).pool.slots@.len() == old(self).pool.slots@.len(),
    {
        let was_active = matches!(self.state, EngineState::Active);
        if matches!(self.state, EngineState::Closed) {
            let unmapped = self.pool.release();
            return CloseActions { stop_stream: false, unmapped };
        }
        proof {
            lemma_count_mapped_all_mapped(self.pool.slots@);
        }
        let unmapped = self.pool.release();
        self.state = EngineState::Closed;
        CloseActions { stop_stream: was_active, unmapped }
    }
}

} // verus!
