//! The decisions of publishing a signed transaction: how a payload is
//! routed, how it is cut into chunks, and when a failed request is tried
//! again. Requests and delays themselves are the caller's part: it tells
//! each answer of the gateway and is told what to do next.

use crate::crypto::base64::Base64;
use crate::error::Error;
use crate::transaction::Tx;
use crate::{BLOCK_SIZE, CHUNKS_BUFFER_FACTOR, CHUNKS_RETRIES, CHUNKS_RETRY_SLEEP, MAX_TX_DATA};
use vstd::prelude::*;

verus! {

/// The HTTP status that counts as success.
pub const STATUS_OK: u16 = 200;

/// The constants that govern a submission.
#[derive(Debug, Clone, Copy, PartialEq, Eq, Structural)]
pub struct SubmitConfig {
    /// Payloads of this many bytes or more are uploaded in chunks.
    pub max_tx_data: u64,
    /// Size of a chunk in bytes.
    pub block_size: u64,
    /// How many times a request is attempted.
    pub retries: u16,
    /// Seconds to wait between two attempts.
    pub retry_sleep: u64,
    /// Multiplier of the caller's buffer size that bounds the chunk requests
    /// in flight.
    pub buffer_factor: usize,
}

impl Default for SubmitConfig {
    fn default() -> (config: SubmitConfig)
        ensures
            config == (SubmitConfig {
                max_tx_data: MAX_TX_DATA,
                block_size: BLOCK_SIZE,
                retries: CHUNKS_RETRIES,
                retry_sleep: CHUNKS_RETRY_SLEEP,
                buffer_factor: CHUNKS_BUFFER_FACTOR,
            }),
    {
        SubmitConfig {
            max_tx_data: MAX_TX_DATA,
            block_size: BLOCK_SIZE,
            retries: CHUNKS_RETRIES,
            retry_sleep: CHUNKS_RETRY_SLEEP,
            buffer_factor: CHUNKS_BUFFER_FACTOR,
        }
    }
}

/// How a payload reaches the gateway.
#[derive(Debug, Clone, Copy, PartialEq, Eq, Structural)]
pub enum Route {
    /// Inside the transaction, in one request.
    Inline,
    /// In chunks, each in a request of its own, beside the transaction's
    /// header.
    Chunked,
}

impl SubmitConfig {
    /// The route of a payload of `data_size` bytes: chunked from the
    /// threshold on, inline below it.
    pub open spec fn route_of(self, data_size: u64) -> Route {
        if data_size >= self.max_tx_data {
            Route::Chunked
        } else {
            Route::Inline
        }
    }

    /// The route of a payload of `data_size` bytes.
    pub fn route(&self, data_size: u64) -> (route: Route)
        ensures
            route == self.route_of(data_size),
    {
        if data_size >= self.max_tx_data {
            Route::Chunked
        } else {
            Route::Inline
        }
    }

    /// The most chunk requests that may be in flight for a caller's buffer
    /// of `buffer` requests: `buffer_factor × buffer`, capped at what a
    /// `usize` holds.
    pub open spec fn concurrency_of(self, buffer: usize) -> nat {
        if self.buffer_factor * buffer <= usize::MAX {
            (self.buffer_factor * buffer) as nat
        } else {
            usize::MAX as nat
        }
    }

    /// The most chunk requests that may be in flight at once.
    pub fn concurrency(&self, buffer: usize) -> (limit: usize)
        ensures
            limit == self.concurrency_of(buffer),
    {
        match self.buffer_factor.checked_mul(buffer) {
            Some(limit) => limit,
            None => usize::MAX,
        }
    }
}

/// A slice of a payload that is uploaded in a request of its own.
#[derive(Debug, Clone, Copy, PartialEq, Eq, Structural)]
pub struct Chunk {
    /// Position of the chunk among the payload's chunks, from 0.
    pub index: u64,
    /// Position of the chunk's first byte in the payload.
    pub offset: u64,
    /// Number of bytes in the chunk.
    pub len: u64,
}

/// The number of chunks of a payload of `data_size` bytes cut into blocks of
/// `block_size` bytes: every full block, and one more for what is left.
/// Blocks without a size cut no chunks.
pub open spec fn chunk_count(data_size: u64, block_size: u64) -> nat {
    if block_size == 0 {
        0
    } else {
        (data_size as nat / block_size as nat + if data_size as nat % block_size as nat == 0 {
            0nat
        } else {
            1nat
        }) as nat
    }
}

/// The chunk at `index`: it starts at `index × block_size` and takes a whole
/// block, or what is left of the payload where that is less.
pub open spec fn chunk_of(data_size: u64, block_size: u64, index: u64) -> Chunk
    recommends
        block_size > 0,
        index < chunk_count(data_size, block_size),
{
    let offset = index as nat * block_size as nat;
    let rest = data_size as nat - offset;
    Chunk {
        index,
        offset: offset as u64,
        len: (if rest < block_size {
            rest
        } else {
            block_size as int
        }) as u64,
    }
}

/// Chunks lie inside the payload, are not empty, and their index follows
/// from their offset.
pub proof fn lemma_chunk_bounds(data_size: u64, block_size: u64, index: u64)
    requires
        block_size > 0,
        index < chunk_count(data_size, block_size),
    ensures
        index as nat * block_size as nat == chunk_of(data_size, block_size, index).offset,
        chunk_of(data_size, block_size, index).offset / block_size == index,
        0 < chunk_of(data_size, block_size, index).len <= block_size,
        chunk_of(data_size, block_size, index).offset + chunk_of(
            data_size,
            block_size,
            index,
        ).len <= data_size,
        chunk_count(data_size, block_size) <= data_size,
{
    let d = data_size as int;
    let b = block_size as int;
    let i = index as int;
    let q = d / b;
    vstd::arithmetic::div_mod::lemma_fundamental_div_mod(d, b);
    vstd::arithmetic::div_mod::lemma_mod_bound(d, b);
    assert(d == b * q + d % b);
    assert(i * b < d) by (nonlinear_arith)
        requires
            d == b * q + d % b,
            0 <= d % b < b,
            0 <= i,
            (d % b == 0 && i < q) || (d % b != 0 && i <= q),
            b > 0,
    ;
    assert(i * b / b == i) by (nonlinear_arith)
        requires
            b > 0,
            i >= 0,
    ;
    assert(q >= 0 && b * q >= q) by (nonlinear_arith)
        requires
            d >= 0,
            b >= 1,
            q == d / b,
    ;
}

/// Consecutive chunks touch: each begins where the one before it ends, the
/// first begins at 0 and the last ends with the payload.
pub proof fn lemma_chunks_cover(data_size: u64, block_size: u64, index: u64)
    requires
        block_size > 0,
        index < chunk_count(data_size, block_size),
    ensures
        index == 0 ==> chunk_of(data_size, block_size, index).offset == 0,
        index + 1 < chunk_count(data_size, block_size) ==> chunk_of(
            data_size,
            block_size,
            (index + 1) as u64,
        ).offset == chunk_of(data_size, block_size, index).offset + chunk_of(
            data_size,
            block_size,
            index,
        ).len,
        index + 1 == chunk_count(data_size, block_size) ==> chunk_of(
            data_size,
            block_size,
            index,
        ).offset + chunk_of(data_size, block_size, index).len == data_size,
{
    let d = data_size as int;
    let b = block_size as int;
    let i = index as int;
    let q = d / b;
    lemma_chunk_bounds(data_size, block_size, index);
    vstd::arithmetic::div_mod::lemma_fundamental_div_mod(d, b);
    vstd::arithmetic::div_mod::lemma_mod_bound(d, b);
    assert(d == b * q + d % b);
    if index + 1 < chunk_count(data_size, block_size) {
        lemma_chunk_bounds(data_size, block_size, (index + 1) as u64);
        assert((i + 1) * b == i * b + b) by (nonlinear_arith);
        assert(d - i * b >= b);
    } else {
        assert(d - i * b <= b) by (nonlinear_arith)
            requires
                d == b * q + d % b,
                0 <= d % b < b,
                (d % b == 0 && i + 1 == q) || (d % b != 0 && i == q),
                b > 0,
        ;
    }
}

/// The number of chunks of a payload.
pub fn chunk_total(data_size: u64, block_size: u64) -> (total: u64)
    ensures
        total == chunk_count(data_size, block_size),
{
    if block_size == 0 {
        return 0;
    }
    let full: u64 = data_size / block_size;
    proof {
        vstd::arithmetic::div_mod::lemma_fundamental_div_mod(data_size as int, block_size as int);
        vstd::arithmetic::div_mod::lemma_mod_bound(data_size as int, block_size as int);
        assert(data_size % block_size != 0 ==> full < u64::MAX) by (nonlinear_arith)
            requires
                data_size == block_size * full + data_size % block_size,
                block_size >= 1,
                data_size <= u64::MAX,
                full >= 0,
        ;
    }
    if data_size % block_size == 0 {
        full
    } else {
        full + 1
    }
}

/// The chunk at `index`, which the payload has.
pub(crate) fn chunk_within(data_size: u64, block_size: u64, index: u64) -> (chunk: Chunk)
    requires
        block_size > 0,
        index < chunk_count(data_size, block_size),
    ensures
        chunk == chunk_of(data_size, block_size, index),
{
    proof {
        lemma_chunk_bounds(data_size, block_size, index);
    }
    let offset: u64 = index * block_size;
    let rest: u64 = data_size - offset;
    Chunk { index, offset, len: if rest < block_size { rest } else { block_size } }
}

/// The chunk at `index`, `None` where the payload has no such chunk.
pub fn chunk_at(data_size: u64, block_size: u64, index: u64) -> (chunk: Option<Chunk>)
    ensures
        chunk == (if index < chunk_count(data_size, block_size) {
            Some(chunk_of(data_size, block_size, index))
        } else {
            None
        }),
{
    if index < chunk_total(data_size, block_size) {
        Some(chunk_within(data_size, block_size, index))
    } else {
        None
    }
}

/// Where a request stands among its attempts.
#[derive(Debug, Clone, Copy, PartialEq, Eq, Structural)]
pub struct Retry {
    /// How many times the request may be attempted.
    pub retries: u16,
    /// Seconds to wait between two attempts.
    pub retry_sleep: u64,
    /// How many attempts have failed so far.
    pub failures: u16,
}

/// What an answer of the gateway means for a request.
#[derive(Debug, Clone, Copy, PartialEq, Eq, Structural)]
pub enum Verdict {
    /// The gateway accepted the request.
    Success,
    /// The attempt failed; the request is sent again after the delay.
    RetryAfter { seconds: u64 },
    /// The attempt failed and was the last one allowed.
    Exhausted,
}

impl Retry {
    /// The verdict on an answer. `status` is the HTTP status, `None` where
    /// the request did not get through. Only status 200 is success; a
    /// failure that leaves attempts is retried after the delay.
    pub open spec fn verdict(self, status: Option<u16>) -> Verdict {
        if status == Some(STATUS_OK) {
            Verdict::Success
        } else if self.failures + 1 >= self.retries {
            Verdict::Exhausted
        } else {
            Verdict::RetryAfter { seconds: self.retry_sleep }
        }
    }

    /// The state after an answer: one more failure where the request is
    /// tried again, unchanged otherwise.
    pub open spec fn after(self, status: Option<u16>) -> Retry {
        if self.verdict(status) is RetryAfter {
            Retry { failures: (self.failures + 1) as u16, ..self }
        } else {
            self
        }
    }

    /// A request that has not been attempted yet.
    pub fn new(config: &SubmitConfig) -> (state: Retry)
        ensures
            state == (Retry {
                retries: config.retries,
                retry_sleep: config.retry_sleep,
                failures: 0,
            }),
    {
        Retry { retries: config.retries, retry_sleep: config.retry_sleep, failures: 0 }
    }

    /// Takes an answer of the gateway: the verdict on it and the state
    /// after it.
    pub fn on_response(self, status: Option<u16>) -> (next: (Verdict, Retry))
        ensures
            next.0 == self.verdict(status),
            next.1 == self.after(status),
    {
        let success = match status {
            Some(code) => code == STATUS_OK,
            None => false,
        };
        if success {
            (Verdict::Success, self)
        } else if self.failures >= self.retries || self.retries - self.failures <= 1 {
            (Verdict::Exhausted, self)
        } else {
            (
                Verdict::RetryAfter { seconds: self.retry_sleep },
                Retry { failures: self.failures + 1, ..self },
            )
        }
    }
}

/// What a run of answers comes to.
pub struct Replay {
    /// The verdict that ended the run; `None` where the answers ran out
    /// first.
    pub outcome: Option<Verdict>,
    /// How many requests were sent.
    pub attempts: nat,
    /// How many seconds were spent waiting between them.
    pub waited: nat,
}

/// Plays the answers `statuses`, in order, to a request in the state
/// `state`: each answer is the gateway's to one attempt, and after each
/// failure that leaves attempts the delay is waited.
pub open spec fn replay(state: Retry, statuses: Seq<Option<u16>>) -> Replay
    decreases statuses.len(),
{
    if statuses.len() == 0 {
        Replay { outcome: None, attempts: 0, waited: 0 }
    } else {
        match state.verdict(statuses[0]) {
            Verdict::RetryAfter { seconds } => {
                let rest = replay(state.after(statuses[0]), statuses.drop_first());
                Replay {
                    outcome: rest.outcome,
                    attempts: rest.attempts + 1,
                    waited: rest.waited + seconds as nat,
                }
            },
            verdict => Replay { outcome: Some(verdict), attempts: 1, waited: 0 },
        }
    }
}

/// A gateway that never answers with success exhausts a request after
/// exactly as many attempts as it has left, with the delay waited between
/// every two of them.
pub proof fn lemma_failures_exhaust(state: Retry, statuses: Seq<Option<u16>>)
    requires
        state.failures < state.retries,
        statuses.len() >= state.retries - state.failures,
        forall|i: int| 0 <= i < statuses.len() ==> statuses[i] != Some(STATUS_OK),
    ensures
        replay(state, statuses).outcome == Some(Verdict::Exhausted),
        replay(state, statuses).attempts == state.retries - state.failures,
        replay(state, statuses).waited == (state.retries - state.failures - 1)
            * state.retry_sleep,
    decreases statuses.len(),
{
    if state.failures + 1 < state.retries {
        let next = state.after(statuses[0]);
        let rest = statuses.drop_first();
        assert forall|i: int| 0 <= i < rest.len() implies rest[i] != Some(STATUS_OK) by {
            assert(rest[i] == statuses[i + 1]);
        }
        lemma_failures_exhaust(next, rest);
        assert((state.retries - state.failures - 1) * state.retry_sleep == (state.retries
            - next.failures - 1) * state.retry_sleep + state.retry_sleep) by (nonlinear_arith)
            requires
                next.failures == state.failures + 1,
        ;
    }
}

/// A request succeeds at the first answer with success, if that comes
/// before the attempts run out.
pub proof fn lemma_first_success(state: Retry, statuses: Seq<Option<u16>>, k: int)
    requires
        0 <= k < statuses.len(),
        state.failures + k < state.retries,
        statuses[k] == Some(STATUS_OK),
        forall|i: int| 0 <= i < k ==> statuses[i] != Some(STATUS_OK),
    ensures
        replay(state, statuses).outcome == Some(Verdict::Success),
        replay(state, statuses).attempts == k + 1,
        replay(state, statuses).waited == k * state.retry_sleep,
    decreases k,
{
    if k > 0 {
        let next = state.after(statuses[0]);
        let rest = statuses.drop_first();
        assert forall|i: int| 0 <= i < k - 1 implies rest[i] != Some(STATUS_OK) by {
            assert(rest[i] == statuses[i + 1]);
        }
        assert(rest[k - 1] == statuses[k]);
        lemma_first_success(next, rest, k - 1);
        assert(k * state.retry_sleep == (k - 1) * state.retry_sleep + state.retry_sleep)
            by (nonlinear_arith);
    }
}

/// The next move in posting a transaction's header.
pub enum PostStep {
    /// Posting is over: the id and the fee of the transaction that was
    /// accepted, or the error.
    Finished(Result<(Base64, u64), Error>),
    /// Wait for `seconds`, then post the transaction again.
    RetryAfter { seconds: u64, state: Retry },
}

/// What posting `tx` starts with. An empty id fails at once with
/// `UnsignedTransaction`, without an attempt; a retry bound of zero allows
/// no attempt and fails with `StatusCodeNotOk`.
pub open spec fn post_begin(id: Seq<u8>, config: SubmitConfig) -> Result<Retry, Error> {
    if id.len() == 0 {
        Err(Error::UnsignedTransaction)
    } else if config.retries == 0 {
        Err(Error::StatusCodeNotOk)
    } else {
        Ok(Retry { retries: config.retries, retry_sleep: config.retry_sleep, failures: 0 })
    }
}

/// What posting a transaction with the id `id` and the fee `fee` comes to
/// when the gateway answers `statuses` in turn: the id and the fee at the
/// first success, `StatusCodeNotOk` once the attempts are exhausted, `None`
/// where the answers run out before either.
pub open spec fn post_result(
    id: Seq<u8>,
    fee: u64,
    config: SubmitConfig,
    statuses: Seq<Option<u16>>,
) -> Option<Result<(Seq<u8>, u64), Error>> {
    match post_begin(id, config) {
        Err(e) => Some(Err(e)),
        Ok(state) => match replay(state, statuses).outcome {
            Some(Verdict::Success) => Some(Ok((id, fee))),
            Some(Verdict::Exhausted) => Some(Err(Error::StatusCodeNotOk)),
            _ => None,
        },
    }
}

/// Posting a signed transaction to a gateway that never answers with
/// success fails with `StatusCodeNotOk` after exactly as many posts as the
/// retry bound, with the delay waited between every two of them.
pub proof fn lemma_post_gives_up(
    id: Seq<u8>,
    fee: u64,
    config: SubmitConfig,
    statuses: Seq<Option<u16>>,
)
    requires
        id.len() > 0,
        config.retries > 0,
        statuses.len() >= config.retries,
        forall|i: int| 0 <= i < statuses.len() ==> statuses[i] != Some(STATUS_OK),
    ensures
        post_result(id, fee, config, statuses) == Some(
            Err::<(Seq<u8>, u64), Error>(Error::StatusCodeNotOk),
        ),
        replay(post_begin(id, config)->Ok_0, statuses).attempts == config.retries,
        replay(post_begin(id, config)->Ok_0, statuses).waited == (config.retries - 1)
            * config.retry_sleep,
{
    lemma_failures_exhaust(post_begin(id, config)->Ok_0, statuses);
}

/// Starts posting the signed transaction `signed_transaction`: on `Ok`, the
/// caller posts the transaction and tells the answer to
/// `post_transaction_step`.
pub fn post_transaction_begin(signed_transaction: &Tx, config: &SubmitConfig) -> (state: Result<
    Retry,
    Error,
>)
    ensures
        state == post_begin(signed_transaction@.id, *config),
{
    if signed_transaction.id.is_empty() {
        Err(Error::UnsignedTransaction)
    } else if config.retries == 0 {
        Err(Error::StatusCodeNotOk)
    } else {
        Ok(Retry::new(config))
    }
}

/// Takes the gateway's answer to one post of `signed_transaction`. Success
/// finishes with the transaction's id and fee; a failure is retried after
/// the delay while attempts are left, and finishes with `StatusCodeNotOk`
/// when they are not.
pub fn post_transaction_step(signed_transaction: &Tx, state: Retry, status: Option<u16>) -> (step:
    PostStep)
    ensures
        match state.verdict(status) {
            Verdict::Success => step matches PostStep::Finished(Ok(receipt)) && receipt.0@
                == signed_transaction@.id && receipt.1 == signed_transaction@.reward,
            Verdict::Exhausted => step matches PostStep::Finished(Err(e)) && e
                == Error::StatusCodeNotOk,
            Verdict::RetryAfter { seconds } => step matches PostStep::RetryAfter {
                seconds: s,
                state: next,
            } && s == seconds && next == state.after(status),
        },
{
    let (verdict, next) = state.on_response(status);
    match verdict {
        Verdict::Success => PostStep::Finished(
            Ok((signed_transaction.id.clone(), signed_transaction.reward)),
        ),
        Verdict::Exhausted => PostStep::Finished(Err(Error::StatusCodeNotOk)),
        Verdict::RetryAfter { seconds } => PostStep::RetryAfter { seconds, state: next },
    }
}

} // verus!
