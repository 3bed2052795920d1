//! Uploading the chunks of a large payload: which chunk is sent next, how
//! many may be in flight, when one is sent again and when the upload is
//! over. Sending and waiting are the caller's part.

use crate::error::Error;
use crate::submit::{
    chunk_count, chunk_of, chunk_total, chunk_within, Chunk, Retry, SubmitConfig, Verdict,
};
use vstd::prelude::*;

verus! {

/// A chunk that has been sent and is neither confirmed nor given up.
#[derive(Debug, Clone, Copy, PartialEq, Eq, Structural)]
pub struct InFlight {
    /// The chunk's index.
    pub index: u64,
    /// How many attempts to send it have failed.
    pub failures: u16,
}

/// What an answer of the gateway means for a chunk.
#[derive(Debug, Clone, Copy, PartialEq, Eq, Structural)]
pub enum ChunkStep {
    /// The chunk is confirmed and no longer in flight.
    Completed,
    /// The attempt failed: send `chunk` again after `seconds`. It stays in
    /// flight meanwhile.
    RetryAfter { seconds: u64, chunk: Chunk },
    /// The chunk has exhausted its attempts and is given up. Chunks in
    /// flight go on; no further chunk is sent.
    GaveUp,
    /// No chunk of this index is in flight; nothing changed.
    Unknown,
}

/// The state of an upload as mathematical values.
pub struct ChunkUploadView {
    /// Length of the payload in bytes.
    pub data_size: u64,
    /// Size of a chunk.
    pub block_size: u64,
    /// How many times a chunk is attempted.
    pub retries: u16,
    /// Seconds between two attempts of a chunk.
    pub retry_sleep: u64,
    /// The most chunks that may be in flight.
    pub concurrency: usize,
    /// How many chunks have been sent at least once: those with an index
    /// below this number.
    pub dispatched: u64,
    /// The chunks in flight, in the order in which they were first sent.
    pub in_flight: Seq<InFlight>,
    /// How many chunks are confirmed.
    pub completed: u64,
    /// How many chunks are given up.
    pub failed: u64,
}

impl ChunkUploadView {
    /// The number of chunks of the payload.
    pub open spec fn total(self) -> nat {
        chunk_count(self.data_size, self.block_size)
    }

    /// What holds of every upload: the constants allow progress; no more
    /// chunks are in flight than the limit; every chunk sent is in flight,
    /// confirmed or given up; and every chunk in flight was sent, has
    /// attempts left, and is in flight once.
    pub open spec fn wf(self) -> bool {
        &&& self.block_size > 0
        &&& self.retries > 0
        &&& self.concurrency > 0
        &&& self.dispatched <= self.total()
        &&& self.in_flight.len() <= self.concurrency
        &&& self.completed + self.failed + self.in_flight.len() == self.dispatched
        &&& forall|i: int|
            0 <= i < self.in_flight.len() ==> (#[trigger] self.in_flight[i]).index
                < self.dispatched && self.in_flight[i].failures < self.retries
        &&& forall|i: int, j: int|
            0 <= i < self.in_flight.len() && 0 <= j < self.in_flight.len() && i != j ==> (
            #[trigger] self.in_flight[i]).index != (#[trigger] self.in_flight[j]).index
    }

    /// Whether a further chunk may be sent now: none has been given up, some
    /// are left, and the limit of chunks in flight is not reached.
    pub open spec fn can_dispatch(self) -> bool {
        &&& self.failed == 0
        &&& self.dispatched < self.total()
        &&& self.in_flight.len() < self.concurrency
    }

    /// The state after the next chunk has been sent.
    pub open spec fn after_dispatch(self) -> ChunkUploadView {
        ChunkUploadView {
            dispatched: (self.dispatched + 1) as u64,
            in_flight: self.in_flight.push(InFlight { index: self.dispatched, failures: 0 }),
            ..self
        }
    }

    /// Whether the chunk `index` is in flight.
    pub open spec fn is_in_flight(self, index: u64) -> bool {
        exists|i: int| 0 <= i < self.in_flight.len() && (#[trigger] self.in_flight[i]).index == index
    }

    /// The place of the chunk `index` among the chunks in flight.
    pub open spec fn slot_of(self, index: u64) -> int {
        choose|i: int| 0 <= i < self.in_flight.len() && (#[trigger] self.in_flight[i]).index == index
    }

    /// Where the chunk `index` stands among its attempts.
    pub open spec fn attempts_of(self, index: u64) -> Retry {
        Retry {
            retries: self.retries,
            retry_sleep: self.retry_sleep,
            failures: self.in_flight[self.slot_of(index)].failures,
        }
    }

    /// What the answer `status` means for the chunk `index`.
    pub open spec fn step_of(self, index: u64, status: Option<u16>) -> ChunkStep {
        if !self.is_in_flight(index) {
            ChunkStep::Unknown
        } else {
            match self.attempts_of(index).verdict(status) {
                Verdict::Success => ChunkStep::Completed,
                Verdict::Exhausted => ChunkStep::GaveUp,
                Verdict::RetryAfter { seconds } => ChunkStep::RetryAfter {
                    seconds,
                    chunk: chunk_of(self.data_size, self.block_size, index),
                },
            }
        }
    }

    /// The state after the answer `status` to the chunk `index`: a confirmed
    /// chunk and one given up leave the chunks in flight and are counted;
    /// one that is tried again has one more failure; the others stay as
    /// they are.
    pub open spec fn after_response(self, index: u64, status: Option<u16>) -> ChunkUploadView {
        let slot = self.slot_of(index);
        match self.step_of(index, status) {
            ChunkStep::Unknown => self,
            ChunkStep::Completed => ChunkUploadView {
                in_flight: self.in_flight.remove(slot),
                completed: (self.completed + 1) as u64,
                ..self
            },
            ChunkStep::GaveUp => ChunkUploadView {
                in_flight: self.in_flight.remove(slot),
                failed: (self.failed + 1) as u64,
                ..self
            },
            ChunkStep::RetryAfter { .. } => ChunkUploadView {
                in_flight: self.in_flight.update(
                    slot,
                    InFlight {
                        index,
                        failures: (self.in_flight[slot].failures + 1) as u16,
                    },
                ),
                ..self
            },
        }
    }

    /// How the upload has ended, `None` while it has not: it goes on while
    /// chunks are in flight; after that it has failed if a chunk was given
    /// up, and succeeded if every chunk was sent.
    pub open spec fn outcome(self) -> Option<Result<(), Error>> {
        if self.in_flight.len() > 0 {
            None
        } else if self.failed > 0 {
            Some(Err(Error::ChunkUploadFailed))
        } else if self.dispatched == self.total() {
            Some(Ok(()))
        } else {
            None
        }
    }

    /// Sending the next chunk keeps the upload well formed; in particular no
    /// more chunks are in flight than the limit.
    pub proof fn lemma_dispatch_wf(self)
        requires
            self.wf(),
            self.can_dispatch(),
        ensures
            self.after_dispatch().wf(),
            self.after_dispatch().in_flight.len() <= self.concurrency,
            self.total() <= u64::MAX,
    {
        crate::submit::lemma_chunk_bounds(self.data_size, self.block_size, self.dispatched);
        let next = self.after_dispatch();
        assert forall|i: int| 0 <= i < next.in_flight.len() implies (
        #[trigger] next.in_flight[i]).index < next.dispatched && next.in_flight[i].failures
            < next.retries by {
            if i < self.in_flight.len() {
                assert(next.in_flight[i] == self.in_flight[i]);
            }
        }
        assert forall|i: int, j: int|
            0 <= i < next.in_flight.len() && 0 <= j < next.in_flight.len() && i != j implies (
        #[trigger] next.in_flight[i]).index != (#[trigger] next.in_flight[j]).index by {
            if i < self.in_flight.len() {
                assert(next.in_flight[i] == self.in_flight[i]);
            }
            if j < self.in_flight.len() {
                assert(next.in_flight[j] == self.in_flight[j]);
            }
        }
    }

    /// A chunk in flight has one place among the chunks in flight.
    pub proof fn lemma_slot(self, index: u64, slot: int)
        requires
            self.wf(),
            0 <= slot < self.in_flight.len(),
            self.in_flight[slot].index == index,
        ensures
            self.is_in_flight(index),
            self.slot_of(index) == slot,
    {
        let chosen = self.slot_of(index);
        assert(self.in_flight[chosen].index == index);
    }

    /// An answer keeps the upload well formed; in particular no more chunks
    /// are in flight than the limit.
    pub proof fn lemma_response_wf(self, index: u64, status: Option<u16>)
        requires
            self.wf(),
        ensures
            self.after_response(index, status).wf(),
            self.after_response(index, status).in_flight.len() <= self.concurrency,
            self.is_in_flight(index) ==> index < self.total(),
    {
        if self.is_in_flight(index) {
            let slot = self.slot_of(index);
            let next = self.after_response(index, status);
            assert(self.in_flight[slot].index == index);
            match self.step_of(index, status) {
                ChunkStep::RetryAfter { .. } => {
                    assert forall|i: int| 0 <= i < next.in_flight.len() implies (
                    #[trigger] next.in_flight[i]).index < next.dispatched
                        && next.in_flight[i].failures < next.retries by {
                        if i != slot {
                            assert(next.in_flight[i] == self.in_flight[i]);
                        }
                    }
                    assert forall|i: int, j: int|
                        0 <= i < next.in_flight.len() && 0 <= j < next.in_flight.len() && i
                            != j implies (#[trigger] next.in_flight[i]).index != (
                    #[trigger] next.in_flight[j]).index by {
                        assert(next.in_flight[i].index == self.in_flight[i].index);
                        assert(next.in_flight[j].index == self.in_flight[j].index);
                    }
                },
                _ => {
                    assert forall|i: int| 0 <= i < next.in_flight.len() implies (
                    #[trigger] next.in_flight[i]).index < next.dispatched
                        && next.in_flight[i].failures < next.retries by {
                        if i < slot {
                            assert(next.in_flight[i] == self.in_flight[i]);
                        } else {
                            assert(next.in_flight[i] == self.in_flight[i + 1]);
                        }
                    }
                    assert forall|i: int, j: int|
                        0 <= i < next.in_flight.len() && 0 <= j < next.in_flight.len() && i
                            != j implies (#[trigger] next.in_flight[i]).index != (
                    #[trigger] next.in_flight[j]).index by {
                        let si = if i < slot {
                            i
                        } else {
                            i + 1
                        };
                        let sj = if j < slot {
                            j
                        } else {
                            j + 1
                        };
                        assert(next.in_flight[i] == self.in_flight[si]);
                        assert(next.in_flight[j] == self.in_flight[sj]);
                    }
                },
            }
        }
    }

    /// An upload that is not over can always move: a chunk is in flight, or
    /// the next one may be sent.
    pub proof fn lemma_progress(self)
        requires
            self.wf(),
            self.outcome() is None,
        ensures
            self.in_flight.len() > 0 || self.can_dispatch(),
    {
    }

    /// An upload that has succeeded has every chunk confirmed; one that has
    /// failed has given a chunk up.
    pub proof fn lemma_outcome(self)
        requires
            self.wf(),
        ensures
            self.outcome() == Some(Ok::<(), Error>(())) ==> self.completed == self.total()
                && self.failed == 0,
            self.outcome() matches Some(Err(e)) ==> e == Error::ChunkUploadFailed && self.failed
                > 0,
    {
    }
}

/// The upload of a payload's chunks.
pub struct ChunkUpload {
    data_size: u64,
    block_size: u64,
    retries: u16,
    retry_sleep: u64,
    concurrency: usize,
    dispatched: u64,
    in_flight: Vec<InFlight>,
    completed: u64,
    failed: u64,
}

impl View for ChunkUpload {
    type V = ChunkUploadView;

    closed spec fn view(&self) -> ChunkUploadView {
        ChunkUploadView {
            data_size: self.data_size,
            block_size: self.block_size,
            retries: self.retries,
            retry_sleep: self.retry_sleep,
            concurrency: self.concurrency,
            dispatched: self.dispatched,
            in_flight: self.in_flight@,
            completed: self.completed,
            failed: self.failed,
        }
    }
}

/// Whether an upload can be started with these constants: chunks have a
/// size, may be attempted, and may be in flight.
pub open spec fn can_upload(config: SubmitConfig, buffer: usize) -> bool {
    config.block_size > 0 && config.retries > 0 && config.concurrency_of(buffer) > 0
}

impl ChunkUpload {
    #[verifier::type_invariant]
    spec fn well_formed(&self) -> bool {
        self@.wf()
    }

    /// Starts the upload of a payload of `data_size` bytes with at most
    /// `buffer_factor × buffer` chunks in flight. Fails with
    /// `ChunkUploadFailed` where the constants allow no chunk to be sent.
    pub fn new(data_size: u64, buffer: usize, config: &SubmitConfig) -> (upload: Result<
        ChunkUpload,
        Error,
    >)
        ensures
            match upload {
                Ok(u) => can_upload(*config, buffer) && u@.wf() && u@ == (ChunkUploadView {
                    data_size,
                    block_size: config.block_size,
                    retries: config.retries,
                    retry_sleep: config.retry_sleep,
                    concurrency: config.concurrency_of(buffer) as usize,
                    dispatched: 0,
                    in_flight: Seq::empty(),
                    completed: 0,
                    failed: 0,
                }),
                Err(e) => e == Error::ChunkUploadFailed && !can_upload(*config, buffer),
            },
    {
        let concurrency = config.concurrency(buffer);
        if config.block_size == 0 || config.retries == 0 || concurrency == 0 {
            return Err(Error::ChunkUploadFailed);
        }
        Ok(
            ChunkUpload {
                data_size,
                block_size: config.block_size,
                retries: config.retries,
                retry_sleep: config.retry_sleep,
                concurrency,
                dispatched: 0,
                in_flight: Vec::new(),
                completed: 0,
                failed: 0,
            },
        )
    }

    /// The number of chunks of the payload.
    pub fn total_chunks(&self) -> (total: u64)
        ensures
            total == self@.total(),
            self@.wf(),
    {
        proof {
            use_type_invariant(self);
        }
        chunk_total(self.data_size, self.block_size)
    }

    /// The number of chunks in flight. It never exceeds the limit.
    pub fn in_flight_count(&self) -> (count: usize)
        ensures
            count == self@.in_flight.len(),
            count <= self@.concurrency,
            self@.wf(),
    {
        proof {
            use_type_invariant(self);
        }
        self.in_flight.len()
    }

    /// The chunk to send next, if one may be sent now, and the state after
    /// it has been sent. Without one the state is unchanged.
    pub fn next_chunk(self) -> (next: (ChunkUpload, Option<Chunk>))
        ensures
            self@.wf(),
            next.0@.wf(),
            next.0@.in_flight.len() <= next.0@.concurrency,
            self@.can_dispatch() ==> next.0@ == self@.after_dispatch() && next.1 == Some(
                chunk_of(self@.data_size, self@.block_size, self@.dispatched),
            ),
            !self@.can_dispatch() ==> next.0@ == self@ && next.1 is None,
    {
        proof {
            use_type_invariant(&self);
        }
        let total = chunk_total(self.data_size, self.block_size);
        if self.failed != 0 || self.dispatched >= total || self.in_flight.len()
            >= self.concurrency {
            return (self, None);
        }
        proof {
            self@.lemma_dispatch_wf();
        }
        let chunk = chunk_within(self.data_size, self.block_size, self.dispatched);
        let ChunkUpload {
            data_size,
            block_size,
            retries,
            retry_sleep,
            concurrency,
            dispatched,
            in_flight,
            completed,
            failed,
        } = self;
        let mut in_flight = in_flight;
        in_flight.push(InFlight { index: dispatched, failures: 0 });
        let next = ChunkUpload {
            data_size,
            block_size,
            retries,
            retry_sleep,
            concurrency,
            dispatched: dispatched + 1,
            in_flight,
            completed,
            failed,
        };
        (next, Some(chunk))
    }

    /// Takes the gateway's answer to the chunk `index`: what it means for
    /// the chunk, and the state after it. `status` is the HTTP status,
    /// `None` where the request did not get through.
    pub fn on_response(self, index: u64, status: Option<u16>) -> (next: (ChunkUpload, ChunkStep))
        ensures
            self@.wf(),
            next.0@.wf(),
            next.0@.in_flight.len() <= next.0@.concurrency,
            next.0@ == self@.after_response(index, status),
            next.1 == self@.step_of(index, status),
    {
        proof {
            use_type_invariant(&self);
            self@.lemma_response_wf(index, status);
        }
        let mut slot: usize = 0;
        while slot < self.in_flight.len() && self.in_flight[slot].index != index
            invariant
                slot <= self.in_flight.len(),
                forall|i: int| 0 <= i < slot ==> (#[trigger] self.in_flight@[i]).index != index,
            decreases self.in_flight.len() - slot,
        {
            slot += 1;
        }
        if slot >= self.in_flight.len() {
            assert(!self@.is_in_flight(index));
            return (self, ChunkStep::Unknown);
        }
        proof {
            self@.lemma_slot(index, slot as int);
        }
        let entry = self.in_flight[slot];
        let attempts = Retry {
            retries: self.retries,
            retry_sleep: self.retry_sleep,
            failures: entry.failures,
        };
        let (verdict, after) = attempts.on_response(status);
        let chunk = chunk_within(self.data_size, self.block_size, index);
        let ChunkUpload {
            data_size,
            block_size,
            retries,
            retry_sleep,
            concurrency,
            dispatched,
            in_flight,
            completed,
            failed,
        } = self;
        let mut in_flight = in_flight;
        match verdict {
            Verdict::Success => {
                in_flight.remove(slot);
                let next = ChunkUpload {
                    data_size,
                    block_size,
                    retries,
                    retry_sleep,
                    concurrency,
                    dispatched,
                    in_flight,
                    completed: completed + 1,
                    failed,
                };
                (next, ChunkStep::Completed)
            },
            Verdict::Exhausted => {
                in_flight.remove(slot);
                let next = ChunkUpload {
                    data_size,
                    block_size,
                    retries,
                    retry_sleep,
                    concurrency,
                    dispatched,
                    in_flight,
                    completed,
                    failed: failed + 1,
                };
                (next, ChunkStep::GaveUp)
            },
            Verdict::RetryAfter { seconds } => {
                in_flight.set(slot, InFlight { index, failures: after.failures });
                let next = ChunkUpload {
                    data_size,
                    block_size,
                    retries,
                    retry_sleep,
                    concurrency,
                    dispatched,
                    in_flight,
                    completed,
                    failed,
                };
                (next, ChunkStep::RetryAfter { seconds, chunk })
            },
        }
    }

    /// How the upload has ended: `None` while it has not, `Ok` when every
    /// chunk is confirmed, `ChunkUploadFailed` when a chunk was given up and
    /// none is in flight any more.
    pub fn outcome(&self) -> (outcome: Option<Result<(), Error>>)
        ensures
            outcome == self@.outcome(),
            self@.wf(),
    {
        proof {
            use_type_invariant(self);
        }
        if self.in_flight.len() > 0 {
            None
        } else if self.failed > 0 {
            Some(Err(Error::ChunkUploadFailed))
        } else if self.dispatched == chunk_total(self.data_size, self.block_size) {
            Some(Ok(()))
        } else {
            None
        }
    }
}

} // verus!
