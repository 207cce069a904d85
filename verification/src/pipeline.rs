//! The decisions of the reader and writer stages and of the orchestrator
//! that joins the three stages of a run.

use crate::stats::{counts_of, sum_counts, total_after, Arrival, StatsState};
use vstd::prelude::*;

verus! {

/// The most bytes that one read asks for.
pub const CHUNK_SIZE: usize = 16 * 1024;

/// How a stage stands after a step.
#[derive(Clone, Copy, Debug, PartialEq, Eq, Structural)]
pub enum StageStatus {
    /// The stage goes on with its next step.
    Running,
    /// The stage has ended cleanly.
    Finished,
    /// The stage has ended with an error.
    Failed,
}

/// What one read of the input source gave.
#[derive(Clone, Copy, Debug, PartialEq, Eq, Structural)]
pub enum ReadOutcome {
    /// The read succeeded with this many bytes; zero means the source is
    /// exhausted.
    Read(usize),
    /// The read failed.
    Failed,
}

/// What one write to the output sink gave.
#[derive(Clone, Copy, Debug, PartialEq, Eq, Structural)]
pub enum WriteOutcome {
    /// The whole chunk was written.
    Written,
    /// The consumer of the output has closed its end.
    BrokenPipe,
    /// The write failed for another reason.
    Failed,
}

/// What the reader stage does after one read.
pub struct ReaderStep {
    /// The byte count for the statistics stage, if one is sent.
    pub count: Option<usize>,
    /// The chunk for the writer stage, if one is forwarded; an empty chunk
    /// tells the writer that the stream has ended.
    pub chunk: Option<Vec<u8>>,
    /// Whether the reader goes on, has finished or has failed.
    pub status: StageStatus,
}

/// The byte count that the reader sends after a read: the size of every
/// successful read, zero included; nothing after a failed one.
pub open spec fn count_sent(outcome: ReadOutcome) -> Option<usize> {
    match outcome {
        ReadOutcome::Read(n) => Some(n),
        ReadOutcome::Failed => None,
    }
}

/// The bytes that the reader forwards after a read into `buffer`: the part
/// of the buffer that the read filled; nothing after a failed read.
pub open spec fn chunk_forwarded(buffer: Seq<u8>, outcome: ReadOutcome) -> Option<Seq<u8>> {
    match outcome {
        ReadOutcome::Read(n) => Some(buffer.take(n as int)),
        ReadOutcome::Failed => None,
    }
}

/// How the reader stands after a read: it goes on after data, has finished
/// once the source is exhausted, and has failed with the read.
pub open spec fn reader_status(outcome: ReadOutcome) -> StageStatus {
    match outcome {
        ReadOutcome::Read(n) => if n == 0 {
            StageStatus::Finished
        } else {
            StageStatus::Running
        },
        ReadOutcome::Failed => StageStatus::Failed,
    }
}

impl ReaderStep {
    /// The bytes of the chunk that the step forwards, if it forwards one.
    pub open spec fn chunk_bytes(self) -> Option<Seq<u8>> {
        match self.chunk {
            Some(chunk) => Some(chunk@),
            None => None,
        }
    }
}

/// Decides what the reader stage does after a read into `buffer`. A read
/// never gives more bytes than the buffer holds.
pub fn reader_step(buffer: &[u8], outcome: ReadOutcome) -> (step: ReaderStep)
    requires
        outcome matches ReadOutcome::Read(n) ==> n <= buffer@.len(),
    ensures
        step.count == count_sent(outcome),
        step.chunk_bytes() == chunk_forwarded(buffer@, outcome),
        step.status == reader_status(outcome),
{
    match outcome {
        ReadOutcome::Read(n) => {
            let mut chunk: Vec<u8> = Vec::new();
            let mut i: usize = 0;
            while i < n
                invariant
                    i <= n <= buffer@.len(),
                    chunk@ == buffer@.take(i as int),
                decreases n - i,
            {
                chunk.push(buffer[i]);
                i += 1;
                assert(chunk@ =~= buffer@.take(i as int));
            }
            let status = if n == 0 {
                StageStatus::Finished
            } else {
                StageStatus::Running
            };
            ReaderStep { count: Some(n), chunk: Some(chunk), status }
        },
        ReadOutcome::Failed => ReaderStep { count: None, chunk: None, status: StageStatus::Failed },
    }
}

/// Whether the writer is to write the chunk it received: every chunk but
/// the empty one, which ends the stream.
pub open spec fn writes_chunk(chunk: Seq<u8>) -> bool {
    chunk.len() > 0
}

/// Decides whether the writer stage writes `chunk` or, on the empty chunk,
/// ends cleanly.
pub fn writer_receive(chunk: &[u8]) -> (write: bool)
    ensures
        write == writes_chunk(chunk@),
{
    chunk.len() > 0
}

/// How the writer stands after a write: it goes on after a full write, ends
/// cleanly when the consumer has gone away, and fails on any other error.
pub open spec fn writer_status(outcome: WriteOutcome) -> StageStatus {
    match outcome {
        WriteOutcome::Written => StageStatus::Running,
        WriteOutcome::BrokenPipe => StageStatus::Finished,
        WriteOutcome::Failed => StageStatus::Failed,
    }
}

/// Decides how the writer stage goes on after a write.
pub fn writer_after_write(outcome: WriteOutcome) -> (status: StageStatus)
    ensures
        status == writer_status(outcome),
{
    match outcome {
        WriteOutcome::Written => StageStatus::Running,
        WriteOutcome::BrokenPipe => StageStatus::Finished,
        WriteOutcome::Failed => StageStatus::Failed,
    }
}

/// The stages of a run, in the order in which their outcomes are inspected.
#[derive(Clone, Copy, Debug, PartialEq, Eq, Structural)]
pub enum Stage {
    Reader,
    Stats,
    Writer,
}

/// The stage whose failure is the run's failure: the first that failed, in
/// the order reader, statistics, writer; none where all three ended cleanly.
pub open spec fn first_failed(reader: StageStatus, stats: StageStatus, writer: StageStatus)
    -> Option<Stage> {
    if reader == StageStatus::Failed {
        Some(Stage::Reader)
    } else if stats == StageStatus::Failed {
        Some(Stage::Stats)
    } else if writer == StageStatus::Failed {
        Some(Stage::Writer)
    } else {
        None
    }
}

/// Picks the failure that the run reports, after all three stages ended.
pub fn first_failure(reader: StageStatus, stats: StageStatus, writer: StageStatus) -> (failed:
    Option<Stage>)
    ensures
        failed == first_failed(reader, stats, writer),
{
    if reader == StageStatus::Failed {
        Some(Stage::Reader)
    } else if stats == StageStatus::Failed {
        Some(Stage::Stats)
    } else if writer == StageStatus::Failed {
        Some(Stage::Writer)
    } else {
        None
    }
}

/// The exit status of the process: zero for a run without a failure, one
/// otherwise.
pub open spec fn exit_status(failed: Option<Stage>) -> u8 {
    if failed.is_none() {
        0
    } else {
        1
    }
}

/// The exit status of the process for the failure that the run reports.
pub fn exit_code(failed: Option<Stage>) -> (code: u8)
    ensures
        code == exit_status(failed),
{
    match failed {
        None => 0,
        Some(_) => 1,
    }
}

/// What a run of the reader and the writer leaves behind.
pub struct Transfer {
    /// The byte counts sent to the statistics stage, in order.
    pub counts: Seq<usize>,
    /// The bytes written to the output sink, in order.
    pub sink: Seq<u8>,
    /// How the reader stood after its last read.
    pub reader: StageStatus,
}

/// The messages of a byte count that may be absent.
pub open spec fn sent(count: Option<usize>) -> Seq<usize> {
    match count {
        Some(n) => seq![n],
        None => Seq::empty(),
    }
}

/// The bytes that reach the sink for a chunk that the reader forwarded,
/// where every write succeeds: the chunk, unless it is empty or absent.
pub open spec fn delivered(chunk: Option<Seq<u8>>) -> Seq<u8> {
    match chunk {
        Some(bytes) => if writes_chunk(bytes) {
            bytes
        } else {
            Seq::empty()
        },
        None => Seq::empty(),
    }
}

/// The run in which the reads of the source, of which `unread` is still to
/// come, give `reads` in order and every write succeeds. A read of `n`
/// bytes brings the next `n` unread bytes into the buffer. The reader reads
/// on only while it is running.
pub open spec fn transfer(unread: Seq<u8>, reads: Seq<ReadOutcome>) -> Transfer
    decreases reads.len(),
{
    if reads.len() == 0 {
        Transfer { counts: Seq::empty(), sink: Seq::empty(), reader: StageStatus::Running }
    } else {
        let outcome = reads.first();
        let counts = sent(count_sent(outcome));
        let sink = delivered(chunk_forwarded(unread, outcome));
        match outcome {
            ReadOutcome::Read(n) if reader_status(outcome) == StageStatus::Running => {
                let rest = transfer(unread.skip(n as int), reads.drop_first());
                Transfer {
                    counts: counts + rest.counts,
                    sink: sink + rest.sink,
                    reader: rest.reader,
                }
            },
            _ => Transfer { counts, sink, reader: reader_status(outcome) },
        }
    }
}

/// The reads of a source that is read to its end in pieces of `sizes`: one
/// successful read for each size, then the read that finds nothing more.
pub open spec fn reads_to_end(sizes: Seq<usize>) -> Seq<ReadOutcome> {
    Seq::new(
        sizes.len() + 1,
        |i: int|
            if i < sizes.len() {
                ReadOutcome::Read(sizes[i])
            } else {
                ReadOutcome::Read(0)
            },
    )
}

/// A source that is read to its end, in pieces of any sizes, arrives whole:
/// the sink holds the bytes of the source in their order, the counts sent
/// are the sizes followed by the sentinel, and a statistics stage that met
/// those counts, at whatever times, holds the size of the source as its
/// total.
pub proof fn lemma_transfer_conserves(
    source: Seq<u8>,
    sizes: Seq<usize>,
    silent: bool,
    arrivals: Seq<Arrival>,
)
    requires
        forall|i: int| 0 <= i < sizes.len() ==> sizes[i] > 0,
        sum_counts(sizes) == source.len(),
        source.len() <= usize::MAX,
        counts_of(arrivals) == transfer(source, reads_to_end(sizes)).counts,
    ensures
        transfer(source, reads_to_end(sizes)).sink == source,
        transfer(source, reads_to_end(sizes)).counts == sizes.push(0),
        transfer(source, reads_to_end(sizes)).reader == StageStatus::Finished,
        total_after(0, transfer(source, reads_to_end(sizes)).counts) == source.len(),
        StatsState::fresh(silent).after(arrivals).total == source.len(),
{
    lemma_transfer_to_end(source, sizes);
    lemma_sum_with_sentinel(sizes);
    crate::stats::lemma_total_is_sum(0, sizes.push(0));
    crate::stats::lemma_stage_total(StatsState::fresh(silent), arrivals);
}

/// The sentinel adds nothing to the sum of the counts.
pub proof fn lemma_sum_with_sentinel(sizes: Seq<usize>)
    ensures
        sum_counts(sizes.push(0)) == sum_counts(sizes),
    decreases sizes.len(),
{
    let with_sentinel = sizes.push(0);
    if sizes.len() == 0 {
        assert(with_sentinel.drop_first() =~= Seq::<usize>::empty());
        assert(sum_counts(with_sentinel.drop_first()) == 0);
        assert(with_sentinel.first() == 0);
    } else {
        lemma_sum_with_sentinel(sizes.drop_first());
        assert(with_sentinel.drop_first() =~= sizes.drop_first().push(0));
        assert(with_sentinel.first() == sizes.first());
    }
}

proof fn lemma_transfer_to_end(source: Seq<u8>, sizes: Seq<usize>)
    requires
        forall|i: int| 0 <= i < sizes.len() ==> sizes[i] > 0,
        sum_counts(sizes) == source.len(),
    ensures
        transfer(source, reads_to_end(sizes)).sink == source,
        transfer(source, reads_to_end(sizes)).counts == sizes.push(0),
        transfer(source, reads_to_end(sizes)).reader == StageStatus::Finished,
    decreases sizes.len(),
{
    let reads = reads_to_end(sizes);
    let run = transfer(source, reads);
    if sizes.len() == 0 {
        assert(reads.first() == ReadOutcome::Read(0));
        assert(source =~= Seq::<u8>::empty());
        assert(run.sink =~= source);
        assert(run.counts =~= sizes.push(0));
    } else {
        let n = sizes.first();
        let rest = sizes.drop_first();
        assert(reads.first() == ReadOutcome::Read(n));
        assert(reads.drop_first() =~= reads_to_end(rest));
        assert(forall|i: int| 0 <= i < rest.len() ==> rest[i] == sizes[i + 1]);
        lemma_transfer_to_end(source.skip(n as int), rest);
        assert(source.take(n as int) + source.skip(n as int) =~= source);
        assert(seq![n] + rest.push(0) =~= sizes.push(0));
    }
}

/// Whatever the reads give, a zero count is never followed by another
/// message, so at most one is sent; and the reader has finished exactly
/// when the last message sent is that zero.
pub proof fn lemma_sentinel_is_last(unread: Seq<u8>, reads: Seq<ReadOutcome>)
    ensures
        forall|i: int|
            0 <= i < transfer(unread, reads).counts.len() && transfer(unread, reads).counts[i]
                == 0 ==> i == transfer(unread, reads).counts.len() - 1,
        transfer(unread, reads).reader == StageStatus::Finished <==> (transfer(
            unread,
            reads,
        ).counts.len() > 0 && transfer(unread, reads).counts.last() == 0),
    decreases reads.len(),
{
    if reads.len() > 0 {
        match reads.first() {
            ReadOutcome::Read(n) => {
                if n > 0 {
                    lemma_sentinel_is_last(unread.skip(n as int), reads.drop_first());
                }
            },
            ReadOutcome::Failed => {},
        }
    }
}

/// A consumer that closes the output early does not fail the run: the
/// writer ends cleanly on the broken pipe, and where neither of the other
/// stages failed the run reports no failure and exits with zero.
pub proof fn lemma_broken_pipe_is_clean(reader: StageStatus, stats: StageStatus)
    requires
        reader != StageStatus::Failed,
        stats != StageStatus::Failed,
    ensures
        writer_status(WriteOutcome::BrokenPipe) == StageStatus::Finished,
        first_failed(reader, stats, writer_status(WriteOutcome::BrokenPipe)).is_none(),
        exit_status(first_failed(reader, stats, writer_status(WriteOutcome::BrokenPipe))) == 0,
{
}

/// The run fails exactly when one of its stages failed.
pub proof fn lemma_failure_iff_stage_failed(
    reader: StageStatus,
    stats: StageStatus,
    writer: StageStatus,
)
    ensures
        first_failed(reader, stats, writer).is_some() <==> (reader == StageStatus::Failed || stats
            == StageStatus::Failed || writer == StageStatus::Failed),
        exit_status(first_failed(reader, stats, writer)) != 0 <==> (reader == StageStatus::Failed
            || stats == StageStatus::Failed || writer == StageStatus::Failed),
{
}

} // verus!
