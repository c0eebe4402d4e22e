//! Streaming download accounting. The caller performs the HTTP request and
//! the chunk-by-chunk transfer — reading one chunk, writing it to disk,
//! then asking for the next, which bounds buffering to a single chunk —
//! and this module keeps the verified ledger of the transfer: whether the
//! response may be streamed at all, how the progress counter evolves with
//! each chunk, which progress event to emit, and what outcome the transfer
//! ends in.

use vstd::prelude::*;

verus! {

/// The terminal and non-terminal states of one transfer.
#[derive(Clone, Copy, PartialEq, Eq, Structural, Debug)]
pub enum TransferState {
    InProgress,
    Completed,
    Failed,
}

/// One progress notification, emitted after each chunk is written.
/// `total == 0` means the server did not declare a content length: the
/// total is unknown, not guessed.
#[derive(Clone, Copy, PartialEq, Eq, Structural, Debug)]
pub struct ProgressEvent {
    /// Bytes transferred so far.
    pub downloaded: u64,
    /// Bytes expected in all, or 0 when unknown.
    pub total: u64,
}

/// The errors a transfer can end in. Each aborts the download immediately;
/// the partially written destination file is left in place, and the byte
/// offset reached is carried for context.
#[derive(Clone, Copy, PartialEq, Eq, Structural, Debug)]
pub enum DownloadError {
    /// The server answered with a non-success HTTP status; nothing was
    /// written.
    HttpStatus { code: u16 },
    /// The transport failed, or the body contradicted the declared
    /// content length, after `offset` bytes were transferred.
    Network { offset: u64 },
    /// Writing to the destination failed after `offset` bytes were
    /// transferred.
    Io { offset: u64 },
}

/// The state of one fetch: source, destination, the declared total (absent
/// when the server sent no content length), the bytes transferred so far,
/// and the transfer state. Lives only for the duration of one fetch.
#[derive(Clone, Debug)]
pub struct DownloadTask {
    pub url: String,
    pub dest: String,
    pub total: Option<u64>,
    pub downloaded: u64,
    pub state: TransferState,
}

impl DownloadTask {
    /// The task invariant: the progress counter never exceeds the declared
    /// total when one is known, and a completed transfer with a known
    /// total transferred exactly that much.
    pub open spec fn wf(self) -> bool {
        match self.total {
            Some(t) => self.downloaded <= t && (self.state is Completed ==> self.downloaded == t),
            None => true,
        }
    }

    /// The total as progress events report it: 0 when unknown.
    pub open spec fn spec_reported_total(self) -> u64 {
        match self.total {
            Some(t) => t,
            None => 0,
        }
    }

    /// Starts the ledger for a response the server has answered. A
    /// non-success HTTP status (outside 200..=299) is a terminal error
    /// before any bytes are written; a success status yields a fresh
    /// in-progress task with the declared content length, or an unknown
    /// total when the header was absent.
    pub fn begin(url: String, dest: String, status: u16, content_length: Option<u64>) -> (r:
        Result<DownloadTask, DownloadError>)
        ensures
            200 <= status < 300 ==> (r matches Ok(t) && t == (DownloadTask {
                url,
                dest,
                total: content_length,
                downloaded: 0,
                state: TransferState::InProgress,
            }) && t.wf()),
            !(200 <= status < 300) ==> r == Err::<DownloadTask, DownloadError>(
                DownloadError::HttpStatus { code: status },
            ),
    {
        if 200 <= status && status < 300 {
            Ok(
                DownloadTask {
                    url,
                    dest,
                    total: content_length,
                    downloaded: 0,
                    state: TransferState::InProgress,
                },
            )
        } else {
            Err(DownloadError::HttpStatus { code: status })
        }
    }

    /// Accounts for one chunk of `len` bytes that the caller has read and
    /// written to the destination, and returns the progress event to emit:
    /// the accumulated byte count, and the declared total (0 when
    /// unknown). A body that would overrun a declared content length is a
    /// transport protocol failure: the transfer fails at its current
    /// offset and the counter does not move, so the counter never exceeds
    /// a known total.
    pub fn on_chunk(&mut self, len: u64) -> (r: Result<ProgressEvent, DownloadError>)
        requires
            old(self).state is InProgress,
            old(self).wf(),
            old(self).downloaded + len <= u64::MAX,
        ensures
            final(self).wf(),
            final(self).url == old(self).url,
            final(self).dest == old(self).dest,
            final(self).total == old(self).total,
            final(self).downloaded >= old(self).downloaded,
            (old(self).total matches Some(t) && old(self).downloaded + len > t) ==> (r
                == Err::<ProgressEvent, DownloadError>(
                DownloadError::Network { offset: old(self).downloaded },
            ) && final(self).state is Failed && final(self).downloaded == old(self).downloaded),
            !(old(self).total matches Some(t) && old(self).downloaded + len > t) ==> (r
                == Ok::<ProgressEvent, DownloadError>(spec_chunk_step(*old(self), len).1)
                && *final(self) == spec_chunk_step(*old(self), len).0
                && final(self).state is InProgress && final(self).downloaded == old(self).downloaded
                + len),
    {
        let overruns = match self.total {
            Some(t) => len > t - self.downloaded,
            None => false,
        };
        if overruns {
            self.state = TransferState::Failed;
            Err(DownloadError::Network { offset: self.downloaded })
        } else {
            self.downloaded = self.downloaded + len;
            let total = match self.total {
                Some(t) => t,
                None => 0,
            };
            Ok(ProgressEvent { downloaded: self.downloaded, total })
        }
    }

    /// Closes the ledger when the body stream ends. With a known total the
    /// transfer succeeded exactly when every declared byte arrived; a
    /// short body is a transport failure at the offset reached. With an
    /// unknown total the stream's end is the only signal there is, and the
    /// transfer completes with whatever was streamed.
    pub fn finish(&mut self) -> (r: Result<u64, DownloadError>)
        requires
            old(self).state is InProgress,
            old(self).wf(),
        ensures
            final(self).wf(),
            final(self).url == old(self).url,
            final(self).dest == old(self).dest,
            final(self).total == old(self).total,
            final(self).downloaded == old(self).downloaded,
            (match old(self).total {
                Some(t) => old(self).downloaded == t,
                None => true,
            }) ==> (r == Ok::<u64, DownloadError>(old(self).downloaded)
                && final(self).state is Completed),
            (old(self).total matches Some(t) && old(self).downloaded < t) ==> (r == Err::<
                u64,
                DownloadError,
            >(DownloadError::Network { offset: old(self).downloaded })
                && final(self).state is Failed),
    {
        let complete = match self.total {
            Some(t) => self.downloaded == t,
            None => true,
        };
        if complete {
            self.state = TransferState::Completed;
            Ok(self.downloaded)
        } else {
            self.state = TransferState::Failed;
            Err(DownloadError::Network { offset: self.downloaded })
        }
    }

    /// Records that the transport or the destination failed mid-transfer.
    /// The transfer aborts at its current offset — the error carries it —
    /// and the partially written file is the caller's to keep or discard.
    pub fn fail(&mut self, disk: bool) -> (e: DownloadError)
        requires
            old(self).state is InProgress,
            old(self).wf(),
        ensures
            final(self).wf(),
            final(self).url == old(self).url,
            final(self).dest == old(self).dest,
            final(self).total == old(self).total,
            final(self).downloaded == old(self).downloaded,
            final(self).state is Failed,
            disk ==> e == (DownloadError::Io { offset: old(self).downloaded }),
            !disk ==> e == (DownloadError::Network { offset: old(self).downloaded }),
    {
        self.state = TransferState::Failed;
        if disk {
            DownloadError::Io { offset: self.downloaded }
        } else {
            DownloadError::Network { offset: self.downloaded }
        }
    }
}

/// The sum of a sequence of chunk sizes.
pub open spec fn spec_chunk_sum(chunks: Seq<u64>) -> int
    decreases chunks.len(),
{
    if chunks.len() == 0 {
        0
    } else {
        spec_chunk_sum(chunks.drop_last()) + chunks.last()
    }
}

/// One successful `on_chunk` step, at the specification level: the next
/// task state and the emitted event.
pub open spec fn spec_chunk_step(t: DownloadTask, len: u64) -> (DownloadTask, ProgressEvent) {
    (
        DownloadTask {
            url: t.url,
            dest: t.dest,
            total: t.total,
            downloaded: (t.downloaded + len) as u64,
            state: t.state,
        },
        ProgressEvent { downloaded: (t.downloaded + len) as u64, total: t.spec_reported_total() },
    )
}

/// The task state and emitted event sequence after streaming `chunks`
/// through `on_chunk`, one successful step per chunk.
pub open spec fn spec_run_chunks(t: DownloadTask, chunks: Seq<u64>) -> (
    DownloadTask,
    Seq<ProgressEvent>,
)
    decreases chunks.len(),
{
    if chunks.len() == 0 {
        (t, Seq::empty())
    } else {
        let prior = spec_run_chunks(t, chunks.drop_last());
        let stepped = spec_chunk_step(prior.0, chunks.last());
        (stepped.0, prior.1.push(stepped.1))
    }
}

/// A sum of chunk sizes is never negative.
pub proof fn lemma_chunk_sum_nonneg(chunks: Seq<u64>)
    ensures
        spec_chunk_sum(chunks) >= 0,
    decreases chunks.len(),
{
    if chunks.len() > 0 {
        lemma_chunk_sum_nonneg(chunks.drop_last());
    }
}

/// After streaming `chunks`, the counter has grown by exactly their sum,
/// every other field is untouched, and event `i` reports the sum of the
/// first `i + 1` chunks against the task's declared total.
proof fn lemma_run_chunks_events(t: DownloadTask, chunks: Seq<u64>)
    requires
        t.downloaded + spec_chunk_sum(chunks) <= u64::MAX,
    ensures
        spec_run_chunks(t, chunks).0.url == t.url,
        spec_run_chunks(t, chunks).0.dest == t.dest,
        spec_run_chunks(t, chunks).0.total == t.total,
        spec_run_chunks(t, chunks).0.state == t.state,
        spec_run_chunks(t, chunks).0.downloaded == t.downloaded + spec_chunk_sum(chunks),
        spec_run_chunks(t, chunks).1.len() == chunks.len(),
        forall|i: int|
            0 <= i < chunks.len() ==> (#[trigger] spec_run_chunks(t, chunks).1[i]).downloaded
                == t.downloaded + spec_chunk_sum(chunks.take(i + 1)) && spec_run_chunks(
                t,
                chunks,
            ).1[i].total == t.spec_reported_total(),
    decreases chunks.len(),
{
    if chunks.len() > 0 {
        let sub = chunks.drop_last();
        lemma_chunk_sum_nonneg(sub);
        lemma_run_chunks_events(t, sub);
        assert forall|i: int|
            0 <= i < chunks.len() implies (#[trigger] spec_run_chunks(t, chunks).1[i]).downloaded
            == t.downloaded + spec_chunk_sum(chunks.take(i + 1)) && spec_run_chunks(
            t,
            chunks,
        ).1[i].total == t.spec_reported_total() by {
            if i < chunks.len() - 1 {
                assert(sub.take(i + 1) =~= chunks.take(i + 1));
                assert(spec_run_chunks(t, chunks).1[i] == spec_run_chunks(t, sub).1[i]);
            } else {
                assert(chunks.take(i + 1) =~= chunks);
            }
        }
    }
}

/// Law: a simulated download of declared total `N` split into chunks
/// summing to `N` emits a non-decreasing sequence of `downloaded` values
/// whose last entry is `N`, and leaves the counter at exactly `N`. Each
/// chunk is written to the destination before the next is requested, so a
/// caller that faithfully executes the plan holds a destination file of
/// `downloaded` bytes at every step — `N` at the end.
pub proof fn lemma_download_progress(t: DownloadTask, chunks: Seq<u64>)
    requires
        t.state is InProgress,
        t.downloaded == 0,
        t.total matches Some(n) && spec_chunk_sum(chunks) == n,
    ensures
        spec_run_chunks(t, chunks).1.len() == chunks.len(),
        forall|i: int|
            0 <= i < chunks.len() - 1 ==> (#[trigger] spec_run_chunks(t, chunks).1[i]).downloaded
                <= spec_run_chunks(t, chunks).1[i + 1].downloaded,
        chunks.len() > 0 ==> spec_run_chunks(t, chunks).1.last().downloaded == t.total->Some_0,
        spec_run_chunks(t, chunks).0.downloaded == t.total->Some_0,
{
    lemma_run_chunks_events(t, chunks);
    assert(chunks.take(chunks.len() as int) =~= chunks);
    assert forall|i: int|
        0 <= i < chunks.len() - 1 implies (#[trigger] spec_run_chunks(t, chunks).1[i]).downloaded
        <= spec_run_chunks(t, chunks).1[i + 1].downloaded by {
        assert(chunks.take(i + 2).drop_last() =~= chunks.take(i + 1));
        assert(spec_chunk_sum(chunks.take(i + 2)) == spec_chunk_sum(chunks.take(i + 1)) + chunks[i
            + 1]);
    }
}

/// Law: when the server omits the content length, every progress event
/// reports the total as unknown (0), and streaming the whole body leaves
/// an in-progress task with an unknown total — on which `finish` is bound
/// by its contract to report success with all streamed bytes accounted.
pub proof fn lemma_download_unknown_total(t: DownloadTask, chunks: Seq<u64>)
    requires
        t.state is InProgress,
        t.downloaded == 0,
        t.total is None,
        spec_chunk_sum(chunks) <= u64::MAX,
    ensures
        spec_run_chunks(t, chunks).1.len() == chunks.len(),
        forall|i: int|
            0 <= i < chunks.len() ==> (#[trigger] spec_run_chunks(t, chunks).1[i]).total == 0,
        spec_run_chunks(t, chunks).0.downloaded == spec_chunk_sum(chunks),
        spec_run_chunks(t, chunks).0.total is None,
        spec_run_chunks(t, chunks).0.state is InProgress,
{
    lemma_chunk_sum_nonneg(chunks);
    lemma_run_chunks_events(t, chunks);
}

} // verus!
