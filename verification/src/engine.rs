//! The transform engine: progress accounting in fixed chunks over a job's
//! input, the codec pass that transforms it, and the single terminal message
//! that closes the stream.  Progress can be handed out incrementally — one
//! message as each chunk's bytes arrive — or as the whole run at once; both
//! are the same verified stream.

use vstd::prelude::*;
use crate::codec::{compress_bytes, decompress_bytes, zstd_decoding, zstd_encoding};
use crate::level::{spec_zstd_level, CompressionLevel};
use crate::message::{progress_monotonic, progress_total_fixed, valid_stream, CompressMessage};

verus! {

/// Bytes moved per engine iteration; the granularity of progress reports.
pub const CHUNK_SIZE: u64 = 65536;

/// Which way a job transforms its input.
#[derive(Debug, Clone, Copy, PartialEq, Eq, Structural)]
pub enum Direction {
    Compress,
    Decompress,
}

/// One user-initiated transform request, immutable once started.
pub struct Job {
    pub input_path: String,
    pub output_path: String,
    pub direction: Direction,
    pub level: CompressionLevel,
}

/// How many chunks a `total`-byte input yields: `total / CHUNK_SIZE` rounded
/// up, so an empty input yields none.
pub open spec fn chunk_count(total: u64) -> int {
    (total + CHUNK_SIZE - 1) / (CHUNK_SIZE as int)
}

/// The progress message after chunk `i` (counted from zero): the cumulative
/// input-side byte count, against the fixed total.
pub open spec fn chunk_progress_at(total: u64, i: int) -> CompressMessage {
    CompressMessage::Progress {
        bytes_processed: if (i + 1) * (CHUNK_SIZE as int) <= total {
            ((i + 1) * (CHUNK_SIZE as int)) as u64
        } else {
            total
        },
        total_bytes: total,
    }
}

/// The whole run of progress messages for a `total`-byte input.
pub open spec fn chunk_progress_seq(total: u64) -> Seq<CompressMessage> {
    Seq::new(chunk_count(total) as nat, |i: int| chunk_progress_at(total, i))
}

/// The run of progress messages is all `Progress`, reports the fixed total,
/// never decreases, and — for a non-empty input — ends at the full input
/// size; an empty input yields no messages at all.
pub proof fn lemma_chunk_progress_properties(total: u64)
    ensures
        forall|i: int|
            0 <= i < chunk_progress_seq(total).len() ==> #[trigger] chunk_progress_seq(total)[i]
                is Progress,
        progress_monotonic(chunk_progress_seq(total)),
        progress_total_fixed(chunk_progress_seq(total), total),
        total == 0 ==> chunk_progress_seq(total).len() == 0,
        total > 0 ==> chunk_progress_seq(total).len() > 0 && chunk_progress_seq(
            total,
        ).last().progress_bytes() == total,
{
    let s = chunk_progress_seq(total);
    assert forall|i: int, j: int|
        0 <= i <= j < s.len() && s[i] is Progress && s[j] is Progress implies s[
        i].progress_bytes() <= s[j].progress_bytes() by {
        assert((i + 1) * (CHUNK_SIZE as int) <= (j + 1) * (CHUNK_SIZE as int)) by (nonlinear_arith)
            requires
                i <= j,
        ;
    }
    if total > 0 {
        let n = chunk_count(total);
        assert(n * (CHUNK_SIZE as int) >= total) by (nonlinear_arith)
            requires
                n == (total + CHUNK_SIZE - 1) / (CHUNK_SIZE as int),
                total > 0,
        ;
        assert(s.last() == chunk_progress_at(total, n - 1));
    }
}

/// A whole job's message stream — its chunked progress run closed by one
/// terminal message — is well formed: the terminal message comes last and is
/// unique, the byte counts never decrease, every progress report carries the
/// fixed total, and for a non-empty input the last report reaches it.
pub proof fn lemma_job_stream(total: u64, t: CompressMessage)
    requires
        t.is_terminal(),
    ensures
        valid_stream(chunk_progress_seq(total).push(t)),
        progress_monotonic(chunk_progress_seq(total).push(t)),
        progress_total_fixed(chunk_progress_seq(total).push(t), total),
        total > 0 ==> chunk_progress_seq(total).last().progress_bytes() == total,
{
    lemma_chunk_progress_properties(total);
    crate::message::lemma_stream_assembly(chunk_progress_seq(total), t, total);
}

/// How many progress messages a feed has handed out: its covered byte count
/// in whole chunks, all of them once the total is covered.
pub open spec fn messages_sent(f: ProgressFeed) -> int {
    if f.done == f.total {
        chunk_count(f.total)
    } else {
        f.done as int / (CHUNK_SIZE as int)
    }
}

/// Hands out a job's progress messages one at a time: a caller that reads
/// the input incrementally asks after every read, and receives a message as
/// soon as the bytes it reports have been covered.  The messages handed out
/// are exactly those of `chunk_progress_seq(total)`, in order.
pub struct ProgressFeed {
    /// Input-side bytes covered by the messages handed out so far.
    pub done: u64,
    /// The fixed input size the messages report.
    pub total: u64,
}

impl ProgressFeed {
    /// The covered count sits on a chunk boundary until the total is
    /// reached.
    pub open spec fn wf(self) -> bool {
        self.done == self.total || (self.done < self.total && self.done % CHUNK_SIZE == 0)
    }

    /// A feed for a `total`-byte input, with nothing handed out yet.
    pub fn new(total: u64) -> (f: ProgressFeed)
        ensures
            f.wf(),
            f.done == 0,
            f.total == total,
    {
        ProgressFeed { done: 0, total }
    }

    /// Hand out the next progress message once `covered` input bytes are
    /// available: the message after the next chunk, when `covered` reaches
    /// its byte count; `None` when it does not, or when the whole run has
    /// been handed out.
    pub fn advance(&mut self, covered: u64) -> (m: Option<CompressMessage>)
        requires
            old(self).wf(),
        ensures
            final(self).wf(),
            final(self).total == old(self).total,
            old(self).done == old(self).total ==> m is None && *final(self) == *old(self),
            old(self).done < old(self).total ==> {
                let next = if old(self).done + CHUNK_SIZE <= old(self).total {
                    old(self).done + CHUNK_SIZE
                } else {
                    old(self).total as int
                };
                if covered >= next {
                    &&& m == Some(chunk_progress_seq(old(self).total)[messages_sent(*old(self))])
                    &&& final(self).done == next
                    &&& messages_sent(*final(self)) == messages_sent(*old(self)) + 1
                } else {
                    m is None && *final(self) == *old(self)
                }
            },
    {
        if self.done == self.total {
            return None;
        }
        let remaining = self.total - self.done;
        let step = if remaining >= CHUNK_SIZE {
            CHUNK_SIZE
        } else {
            remaining
        };
        let next = self.done + step;
        if covered >= next {
            proof {
                let k = messages_sent(*old(self));
                assert(k == self.done as int / (CHUNK_SIZE as int));
                assert(self.done == k * (CHUNK_SIZE as int) && k < chunk_count(self.total))
                    by (nonlinear_arith)
                    requires
                        k == self.done as int / (CHUNK_SIZE as int),
                        self.done < self.total,
                        self.done % CHUNK_SIZE == 0,
                        chunk_count(self.total) == (self.total + CHUNK_SIZE - 1) / (
                        CHUNK_SIZE as int),
                ;
                assert(chunk_progress_seq(self.total)[k] == chunk_progress_at(self.total, k));
                if next < self.total {
                    assert(next as int / (CHUNK_SIZE as int) == k + 1) by (nonlinear_arith)
                        requires
                            next == (k + 1) * (CHUNK_SIZE as int),
                    ;
                } else {
                    assert(chunk_count(self.total) == k + 1) by (nonlinear_arith)
                        requires
                            k * (CHUNK_SIZE as int) < self.total <= (k + 1) * (CHUNK_SIZE as int),
                            chunk_count(self.total) == (self.total + CHUNK_SIZE - 1) / (
                            CHUNK_SIZE as int),
                    ;
                }
            }
            self.done = next;
            Some(CompressMessage::Progress { bytes_processed: next, total_bytes: self.total })
        } else {
            None
        }
    }
}

/// Emit the whole progress run for a `total`-byte input at once.
fn progress_messages(total: u64) -> (msgs: Vec<CompressMessage>)
    ensures
        msgs@ == chunk_progress_seq(total),
{
    let mut feed = ProgressFeed::new(total);
    let mut msgs: Vec<CompressMessage> = Vec::new();
    loop
        invariant
            feed.wf(),
            feed.total == total,
            msgs@.len() == messages_sent(feed),
            msgs@ =~= chunk_progress_seq(total).take(msgs@.len() as int),
        ensures
            feed.done == feed.total,
        decreases total - feed.done,
    {
        match feed.advance(total) {
            Some(m) => {
                msgs.push(m);
                proof {
                    assert(msgs@ =~= chunk_progress_seq(total).take(msgs@.len() as int));
                }
            },
            None => {
                proof {
                    assert(feed.done == feed.total);
                }
                break ;
            },
        }
    }
    proof {
        assert(msgs@ =~= chunk_progress_seq(total));
    }
    msgs
}

/// Run the codec over the whole input.  Compression always succeeds and
/// yields the zstd frame for the input at the job's level; decompression
/// yields the decoded bytes exactly when the input is a well-formed frame,
/// and an error otherwise.
pub fn transform_bytes(direction: Direction, level: CompressionLevel, data: &Vec<u8>) -> (r: Result<
    Vec<u8>,
    String,
>)
    ensures
        direction is Compress ==> r is Ok,
        direction is Compress && r is Ok ==> r->Ok_0@ == zstd_encoding(
            data@,
            spec_zstd_level(level) as int,
        ),
        direction is Compress && r is Ok ==> zstd_decoding(r->Ok_0@) == Some(data@),
        direction is Decompress ==> (r is Ok <==> zstd_decoding(data@) is Some),
        direction is Decompress && r is Ok ==> Some(r->Ok_0@) == zstd_decoding(data@),
{
    match direction {
        Direction::Compress => compress_bytes(data, level.zstd_level()),
        Direction::Decompress => decompress_bytes(data),
    }
}

/// Run one transform over the whole input: the progress run paired with the
/// codec's outcome (see `transform_bytes`).  Progress counts input-side
/// bytes either way, so an empty input yields no progress messages.
pub fn run_transform(direction: Direction, level: CompressionLevel, data: &Vec<u8>) -> (r: (
    Vec<CompressMessage>,
    Result<Vec<u8>, String>,
))
    ensures
        r.0@ == chunk_progress_seq(data@.len() as u64),
        direction is Compress ==> r.1 is Ok,
        direction is Compress && r.1 is Ok ==> r.1->Ok_0@ == zstd_encoding(
            data@,
            spec_zstd_level(level) as int,
        ),
        direction is Compress && r.1 is Ok ==> zstd_decoding(r.1->Ok_0@) == Some(data@),
        direction is Decompress ==> (r.1 is Ok <==> zstd_decoding(data@) is Some),
        direction is Decompress && r.1 is Ok ==> Some(r.1->Ok_0@) == zstd_decoding(data@),
{
    let total: u64 = data.len() as u64;
    let msgs = progress_messages(total);
    let outcome = transform_bytes(direction, level, data);
    (msgs, outcome)
}

/// Round-trip integrity: decompressing the frame produced by compressing a
/// byte sequence yields that sequence exactly, at every level and every
/// size.  Neither `unwrap` can panic: compression of an in-memory buffer
/// succeeds, and a fresh frame always decodes.
pub fn round_trip(data: &Vec<u8>, level: CompressionLevel) -> (r: Vec<u8>)
    ensures
        r@ == data@,
{
    let frame = compress_bytes(data, level.zstd_level()).unwrap();
    decompress_bytes(&frame).unwrap()
}

/// Build the one terminal message for a job from the codec outcome and the
/// outcome of writing the transformed bytes out: a failure of either step
/// becomes `Error` with that step's text; otherwise `Finished` reports the
/// input size, the transformed size, and the output path.
pub fn terminal_message(
    input_len: u64,
    transformed: &Result<Vec<u8>, String>,
    write_error: &Option<String>,
    output_path: &String,
) -> (m: CompressMessage)
    ensures
        m.is_terminal(),
        transformed is Err ==> m is Error && m->Error_0@ == transformed->Err_0@,
        transformed is Ok && write_error is Some ==> m is Error && m->Error_0@
            == write_error->0@,
        transformed is Ok && write_error is None ==> {
            &&& m is Finished
            &&& m->Finished_original_size == input_len
            &&& m->Finished_compressed_size == transformed->Ok_0@.len()
            &&& m->Finished_output_path@ == output_path@
        },
{
    match transformed {
        Err(e) => CompressMessage::Error(e.clone()),
        Ok(bytes) => match write_error {
            Some(e) => CompressMessage::Error(e.clone()),
            None => CompressMessage::Finished {
                original_size: input_len,
                compressed_size: bytes.len() as u64,
                output_path: output_path.clone(),
            },
        },
    }
}

} // verus!
