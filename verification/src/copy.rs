//! Bounded streaming copy: the one primitive every ingestion path reuses.
//!
//! A source is consumed in chunks; each chunk is written through as it
//! arrives, and a running total enforces a byte ceiling.  A stream whose
//! total length fits under the ceiling is copied exactly; one that would
//! run past it is rejected with `SizeExceeded` after at most the ceiling's
//! worth of bytes has reached the sink, and is never silently truncated.

use vstd::prelude::*;
use crate::error::ServiceError;

verus! {

/// An asynchronous byte source wrapped so it can be consumed as a stream
/// of owned chunks.  The chunk-classification step of its polling logic is
/// [`poll_step`]; the surrounding event loop drives it.
#[derive(Debug)]
pub struct BufferedBytesStream<T> {
    pub inner: T,
}

/// What one low-level read of the source reported.
pub enum ReadOutcome {
    /// `n` bytes were placed at the front of the caller's buffer; zero
    /// means the source is exhausted.
    Read { n: usize },
    /// The read was interrupted before any progress; it should simply be
    /// retried.
    Interrupted,
    /// Any other read failure; the stream must surface it.
    Failed { message: String },
}

/// What the stream does in response to one [`ReadOutcome`].
pub enum StreamStep {
    /// Hand this chunk onward.
    Yield { chunk: Vec<u8> },
    /// End of stream: a read reported zero bytes.
    End,
    /// No progress was made; poll again.
    Retry,
    /// Surface the read failure.
    Abort { message: String },
}

/// Classifies one read of the underlying source: a zero-length read ends
/// the stream, `n` fresh bytes become a chunk of exactly those bytes, an
/// interruption is retried rather than failed, and any other error aborts.
pub fn poll_step(outcome: ReadOutcome, buf: &Vec<u8>) -> (step: StreamStep)
    requires
        outcome matches ReadOutcome::Read { n } ==> n <= buf.len(),
    ensures
        match outcome {
            ReadOutcome::Read { n } => if n == 0 {
                step is End
            } else {
                step matches StreamStep::Yield { chunk } && chunk@ == buf@.take(n as int)
            },
            ReadOutcome::Interrupted => step is Retry,
            ReadOutcome::Failed { message } => (step matches StreamStep::Abort {
                message: m,
            } && m == message),
        },
{
    match outcome {
        ReadOutcome::Read { n } => {
            if n == 0 {
                StreamStep::End
            } else {
                let mut chunk: Vec<u8> = Vec::new();
                let mut i: usize = 0;
                while i < n
                    invariant
                        i <= n <= buf.len(),
                        chunk@ == buf@.take(i as int),
                    decreases n - i,
                {
                    chunk.push(buf[i]);
                    proof {
                        assert(chunk@ =~= buf@.take(i + 1));
                    }
                    i = i + 1;
                }
                StreamStep::Yield { chunk }
            }
        },
        ReadOutcome::Interrupted => StreamStep::Retry,
        ReadOutcome::Failed { message } => StreamStep::Abort { message },
    }
}

/// Total length of a sequence of chunks.
pub open spec fn sum_lens(chunks: Seq<Seq<u8>>) -> int
    decreases chunks.len(),
{
    if chunks.len() == 0 {
        0
    } else {
        chunks.first().len() + sum_lens(chunks.drop_first())
    }
}

/// The chunks flattened back into the byte stream they carry.
pub open spec fn concat_chunks(chunks: Seq<Seq<u8>>) -> Seq<u8>
    decreases chunks.len(),
{
    if chunks.len() == 0 {
        Seq::empty()
    } else {
        chunks.first() + concat_chunks(chunks.drop_first())
    }
}

/// How many leading chunks a copy with ceiling `cap` admits before the
/// running total would first run past the ceiling.
pub open spec fn admitted_chunks(chunks: Seq<Seq<u8>>, cap: int) -> int
    decreases chunks.len(),
{
    if chunks.len() == 0 {
        0
    } else if chunks.first().len() <= cap {
        1 + admitted_chunks(chunks.drop_first(), cap - chunks.first().len())
    } else {
        0
    }
}

pub proof fn lemma_admitted_chunks_bounds(chunks: Seq<Seq<u8>>, cap: int)
    requires
        cap >= 0,
    ensures
        0 <= admitted_chunks(chunks, cap) <= chunks.len(),
        sum_lens(chunks.take(admitted_chunks(chunks, cap))) <= cap,
    decreases chunks.len(),
{
    if chunks.len() == 0 {
    } else if chunks.first().len() <= cap {
        lemma_admitted_chunks_bounds(chunks.drop_first(), cap - chunks.first().len());
        let k = admitted_chunks(chunks, cap);
        assert(chunks.take(k).drop_first() =~= chunks.drop_first().take(k - 1));
    } else {
        assert(chunks.take(0) =~= Seq::<Seq<u8>>::empty());
    }
}

/// Every chunk is admitted exactly when the whole stream fits under the
/// ceiling.
pub proof fn lemma_admitted_chunks_complete(chunks: Seq<Seq<u8>>, cap: int)
    requires
        cap >= 0,
    ensures
        admitted_chunks(chunks, cap) == chunks.len() <==> sum_lens(chunks) <= cap,
    decreases chunks.len(),
{
    if chunks.len() == 0 {
    } else if chunks.first().len() <= cap {
        lemma_admitted_chunks_complete(chunks.drop_first(), cap - chunks.first().len());
        lemma_admitted_chunks_bounds(chunks.drop_first(), cap - chunks.first().len());
    } else {
        lemma_sum_lens_nonneg(chunks.drop_first());
    }
}

pub proof fn lemma_sum_lens_nonneg(chunks: Seq<Seq<u8>>)
    ensures
        sum_lens(chunks) >= 0,
    decreases chunks.len(),
{
    if chunks.len() > 0 {
        lemma_sum_lens_nonneg(chunks.drop_first());
    }
}

/// The length of the flattened stream is the total of the chunk lengths.
pub proof fn lemma_concat_chunks_len(chunks: Seq<Seq<u8>>)
    ensures
        concat_chunks(chunks).len() == sum_lens(chunks),
    decreases chunks.len(),
{
    if chunks.len() > 0 {
        lemma_concat_chunks_len(chunks.drop_first());
    }
}

/// Running byte count of a copy in progress, enforcing the ceiling.
pub struct CopyLimiter {
    pub copied: u64,
    pub cap: u64,
}

impl CopyLimiter {
    /// A fresh limiter that has admitted nothing.
    pub fn new(cap: u64) -> (r: CopyLimiter)
        ensures
            r.copied == 0,
            r.cap == cap,
    {
        CopyLimiter { copied: 0, cap }
    }

    /// Offers a chunk of `n` bytes; the chunk is admitted, and counted,
    /// exactly when it keeps the running total at or under the ceiling.
    /// A rejected chunk leaves the count untouched, so the caller fails
    /// without writing it: the copy never silently truncates.
    pub fn accept(&mut self, n: u64) -> (ok: bool)
        ensures
            ok <==> old(self).copied + n <= old(self).cap,
            final(self).cap == old(self).cap,
            ok ==> final(self).copied == old(self).copied + n,
            !ok ==> final(self).copied == old(self).copied,
    {
        if n <= self.cap && self.copied <= self.cap - n {
            self.copied = self.copied + n;
            true
        } else {
            false
        }
    }
}

/// Copies a chunked byte stream into `sink` under the ceiling `cap`.
///
/// A stream of total length `L` is appended to the sink exactly and in
/// full when `L <= cap`; otherwise the copy stops at the first chunk that
/// would run past the ceiling, reports `SizeExceeded`, and has appended
/// only the admitted prefix — never more than `cap` bytes.
pub fn copy_chunks(chunks: &Vec<Vec<u8>>, cap: u64, sink: &mut Vec<u8>) -> (r: Result<
    u64,
    ServiceError,
>)
    ensures
        r is Ok <==> sum_lens(chunks.deep_view()) <= cap,
        r matches Ok(total) ==> {
            &&& total == sum_lens(chunks.deep_view())
            &&& final(sink)@ == old(sink)@ + concat_chunks(chunks.deep_view())
        },
        r matches Err(e) ==> {
            &&& e is SizeExceeded
            &&& final(sink)@ == old(sink)@ + concat_chunks(
                chunks.deep_view().take(admitted_chunks(chunks.deep_view(), cap as int)),
            )
            &&& final(sink)@.len() <= old(sink)@.len() + cap
        },
{
    let ghost all = chunks.deep_view();
    let mut limiter = CopyLimiter::new(cap);
    let mut i: usize = 0;
    proof {
        assert(all.skip(0) =~= all);
        assert(all.take(0) =~= Seq::<Seq<u8>>::empty());
    }
    while i < chunks.len()
        invariant
            i <= chunks.len(),
            all == chunks.deep_view(),
            limiter.cap == cap,
            limiter.copied == sum_lens(all.take(i as int)),
            limiter.copied <= cap,
            admitted_chunks(all, cap as int) == i + admitted_chunks(
                all.skip(i as int),
                cap - limiter.copied,
            ),
            sink@ == old(sink)@ + concat_chunks(all.take(i as int)),
        decreases chunks.len() - i,
    {
        let chunk = &chunks[i];
        proof {
            assert(all.skip(i as int).first() =~= all[i as int]);
            assert(all.skip(i as int).drop_first() =~= all.skip(i + 1));
            assert(all.take(i + 1).drop_last() =~= all.take(i as int));
            lemma_sum_take_step(all, i as int);
        }
        if !limiter.accept(chunk.len() as u64) {
            proof {
                assert(admitted_chunks(all.skip(i as int), cap - limiter.copied) == 0);
                assert(admitted_chunks(all, cap as int) == i);
                lemma_concat_chunks_len(all.take(i as int));
                lemma_admitted_chunks_complete(all, cap as int);
            }
            return Err(ServiceError::SizeExceeded);
        }
        sink.extend_from_slice(chunk.as_slice());
        proof {
            lemma_concat_take_step(all, i as int);
        }
        i = i + 1;
    }
    proof {
        assert(all.take(chunks.len() as int) =~= all);
        assert(all.skip(chunks.len() as int) =~= Seq::<Seq<u8>>::empty());
    }
    Ok(limiter.copied)
}

/// Prefix-sum step: one more chunk adds exactly its length.
pub proof fn lemma_sum_take_step(chunks: Seq<Seq<u8>>, i: int)
    requires
        0 <= i < chunks.len(),
    ensures
        sum_lens(chunks.take(i + 1)) == sum_lens(chunks.take(i)) + chunks[i].len(),
    decreases i,
{
    if i == 0 {
        assert(chunks.take(1).first() =~= chunks[0]);
        assert(chunks.take(1).drop_first() =~= Seq::<Seq<u8>>::empty());
        assert(chunks.take(0) =~= Seq::<Seq<u8>>::empty());
    } else {
        lemma_sum_take_step(chunks.drop_first(), i - 1);
        assert(chunks.take(i + 1).first() =~= chunks.first());
        assert(chunks.take(i + 1).drop_first() =~= chunks.drop_first().take(i));
        assert(chunks.take(i).first() =~= chunks.first());
        assert(chunks.take(i).drop_first() =~= chunks.drop_first().take(i - 1));
    }
}

/// Prefix-concatenation step: one more chunk appends exactly its bytes.
pub proof fn lemma_concat_take_step(chunks: Seq<Seq<u8>>, i: int)
    requires
        0 <= i < chunks.len(),
    ensures
        concat_chunks(chunks.take(i + 1)) == concat_chunks(chunks.take(i)) + chunks[i],
    decreases i,
{
    if i == 0 {
        assert(chunks.take(1).first() =~= chunks[0]);
        assert(chunks.take(1).drop_first() =~= Seq::<Seq<u8>>::empty());
        assert(chunks.take(0) =~= Seq::<Seq<u8>>::empty());
        assert(concat_chunks(chunks.take(1)) =~= concat_chunks(chunks.take(0)) + chunks[0]);
    } else {
        lemma_concat_take_step(chunks.drop_first(), i - 1);
        assert(chunks.take(i + 1).first() =~= chunks.first());
        assert(chunks.take(i + 1).drop_first() =~= chunks.drop_first().take(i));
        assert(chunks.take(i).first() =~= chunks.first());
        assert(chunks.take(i).drop_first() =~= chunks.drop_first().take(i - 1));
        assert(concat_chunks(chunks.take(i + 1)) =~= concat_chunks(chunks.take(i)) + chunks[i]);
    }
}

} // verus!
