//! The message protocol a running job reports through: any number of
//! `Progress` updates followed by exactly one terminal `Finished` or `Error`.

use vstd::prelude::*;

verus! {

/// One message sent from a running job to the controller.
#[derive(Debug, PartialEq, Eq)]
pub enum CompressMessage {
    /// A chunk was processed; `bytes_processed` counts input-side bytes so
    /// far, `total_bytes` is the input size (0 means unknown).
    Progress { bytes_processed: u64, total_bytes: u64 },
    /// The job completed.  For compression `original_size` is the input size
    /// and `compressed_size` the output size; for decompression the fields
    /// carry the compressed input size and the decompressed output size, in
    /// that order.
    Finished { original_size: u64, compressed_size: u64, output_path: String },
    /// The job failed; the text describes the failure.
    Error(String),
}

impl CompressMessage {
    /// A terminal message closes a job's stream.
    pub open spec fn is_terminal(self) -> bool {
        self is Finished || self is Error
    }

    /// The input-side byte count of a `Progress` message.
    pub open spec fn progress_bytes(self) -> u64
        recommends
            self is Progress,
    {
        self->Progress_bytes_processed
    }
}

/// A well-formed job stream: some `Progress` messages followed by exactly one
/// terminal message.
pub open spec fn valid_stream(s: Seq<CompressMessage>) -> bool {
    &&& s.len() > 0
    &&& s.last().is_terminal()
    &&& forall|i: int| 0 <= i < s.len() - 1 ==> s[i] is Progress
}

/// Progress byte counts never decrease along the stream.
pub open spec fn progress_monotonic(s: Seq<CompressMessage>) -> bool {
    forall|i: int, j: int|
        0 <= i <= j < s.len() && s[i] is Progress && s[j] is Progress
            ==> s[i].progress_bytes() <= s[j].progress_bytes()
}

/// Every `Progress` message in the stream reports the same fixed total.
pub open spec fn progress_total_fixed(s: Seq<CompressMessage>, total: u64) -> bool {
    forall|i: int| 0 <= i < s.len() && s[i] is Progress ==> s[i]->Progress_total_bytes == total
}

/// In a well-formed stream the terminal message is unique and nothing —
/// in particular no `Progress` message — follows it.
pub proof fn lemma_terminal_unique(s: Seq<CompressMessage>)
    requires
        valid_stream(s),
    ensures
        s[s.len() - 1].is_terminal(),
        forall|i: int| 0 <= i < s.len() && (#[trigger] s[i]).is_terminal() ==> i == s.len() - 1,
        forall|i: int| 0 <= i < s.len() - 1 ==> !(#[trigger] s[i]).is_terminal(),
{
}

/// Appending one terminal message to any run of `Progress` messages yields a
/// well-formed stream; monotonicity and the fixed total carry over.
pub proof fn lemma_stream_assembly(p: Seq<CompressMessage>, t: CompressMessage, total: u64)
    requires
        forall|i: int| 0 <= i < p.len() ==> p[i] is Progress,
        progress_monotonic(p),
        progress_total_fixed(p, total),
        t.is_terminal(),
    ensures
        valid_stream(p.push(t)),
        progress_monotonic(p.push(t)),
        progress_total_fixed(p.push(t), total),
{
    let s = p.push(t);
    assert forall|i: int| 0 <= i < s.len() - 1 implies s[i] is Progress by {
        assert(s[i] == p[i]);
    }
}

} // verus!
