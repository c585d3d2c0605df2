//! The controller state machine: one value owns the whole interactive state,
//! and every transition — a key press, a job message, the dismiss timer — is
//! a method with an exact contract.  The controller performs no I/O itself:
//! the surrounding loop hands in key actions, picker outcomes, job messages
//! and clock readings, and carries the returned `Job` values to a runner.
//!
//! Starting a job while another runs is permitted: the new job supersedes
//! the old one from the controller's point of view, and the caller is
//! expected to replace the old job's channel, whose remaining messages are
//! then discarded.  The superseded run itself is never cancelled.

use vstd::prelude::*;
use vstd::string::StringExecFns;
use crate::engine::{Direction, Job};
use crate::level::{spec_decrease, spec_increase, CompressionLevel};
use crate::message::CompressMessage;
use crate::paths::{
    compress_output_path, decompress_output_path, file_name_of, spec_file_name,
    spec_strip_extension,
};
use crate::textfmt::{dec_seq, ratio_text, spec_ratio_text, u64_to_string};

verus! {

/// How long a finished job's summary stays before the controller returns to
/// idle, in milliseconds.
pub const RESULT_DISMISS_MILLIS: u64 = 2000;

/// A key press, abstracted away from the concrete key bindings.
#[derive(Debug, Clone, Copy, PartialEq, Eq, Structural)]
pub enum KeyAction {
    /// Leave the application.
    Quit,
    /// Move the compression level one step toward `Best`.
    RaiseLevel,
    /// Move the compression level one step toward `Fast`.
    LowerLevel,
    /// Compress a file, writing beside it.
    StartCompress,
    /// Compress a file, asking where to save the output.
    StartCompressTo,
    /// Decompress a file.
    StartDecompress,
    /// Any key without a binding.
    Other,
}

/// What the controller asks the surrounding loop to let the user pick.
#[derive(Debug, Clone, Copy, PartialEq, Eq, Structural)]
pub enum PickRequest {
    /// Pick a file to compress; the output path is derived.
    CompressInput,
    /// Pick a file to compress, then a place to save the output.
    CompressInputAndSave,
    /// Pick a compressed file to decompress.
    DecompressInput,
}

/// The label of a compression preset, as the status line shows it.
pub open spec fn label_seq(l: CompressionLevel) -> Seq<char> {
    match l {
        CompressionLevel::Fast => "Fast"@,
        CompressionLevel::Normal => "Normal"@,
        CompressionLevel::Best => "Best"@,
    }
}

/// The status line at start-up.
pub open spec fn spec_initial_status() -> Seq<char> {
    " Press 'o' to compress or 'd' to decompress a file"@
}

/// The status line while compressing, level shown.
pub open spec fn spec_compress_status(name: Seq<char>, l: CompressionLevel) -> Seq<char> {
    " Compressing "@ + name + " ["@ + label_seq(l) + "]"@
}

/// The status line while compressing to a chosen place.
pub open spec fn spec_compress_to_status(name: Seq<char>) -> Seq<char> {
    " Compressing "@ + name
}

/// The status line while decompressing.
pub open spec fn spec_decompress_status(name: Seq<char>) -> Seq<char> {
    " Decompressing "@ + name
}

/// The status line after the user closed a picker without choosing a file.
pub open spec fn spec_cancel_status() -> Seq<char> {
    "Not Compressing "@
}

/// The status line after a failed job.
pub open spec fn spec_error_status(e: Seq<char>) -> Seq<char> {
    " Error: "@ + e
}

/// The status line after a successful compression.
pub open spec fn spec_compress_done_status() -> Seq<char> {
    " Compression complete!"@
}

/// The status line after a successful decompression.
pub open spec fn spec_decompress_done_status() -> Seq<char> {
    " Decompression complete!"@
}

/// The summary shown after a compression: both sizes and the ratio of
/// compressed to original size as a truncated percentage.
pub open spec fn spec_compress_summary(path: Seq<char>, original: u64, compressed: u64) -> Seq<
    char,
> {
    "\nCompression successful!\nSaved to: "@ + path + "\nOriginal: "@ + dec_seq(original as nat)
        + " bytes\nCompressed: "@ + dec_seq(compressed as nat) + " bytes ("@ + spec_ratio_text(
        compressed as nat,
        original as nat,
    ) + "% of original)\n"@
}

/// The summary shown after a decompression: both sizes, no ratio.
pub open spec fn spec_decompress_summary(path: Seq<char>, compressed: u64, decompressed: u64) -> Seq<
    char,
> {
    "\nDecompression successful!\nSaved to: "@ + path + "\nCompressed: "@ + dec_seq(
        compressed as nat,
    ) + " bytes\nDecompressed: "@ + dec_seq(decompressed as nat) + " bytes\n"@
}

fn build_compress_summary(path: &String, original: u64, compressed: u64) -> (r: String)
    ensures
        r@ == spec_compress_summary(path@, original, compressed),
{
    let mut s = String::from_str("\nCompression successful!\nSaved to: ");
    s.append(path.as_str());
    s.append("\nOriginal: ");
    let o = u64_to_string(original);
    s.append(o.as_str());
    s.append(" bytes\nCompressed: ");
    let c = u64_to_string(compressed);
    s.append(c.as_str());
    s.append(" bytes (");
    let ratio = ratio_text(compressed, original);
    s.append(ratio.as_str());
    s.append("% of original)\n");
    proof {
        assert(s@ =~= spec_compress_summary(path@, original, compressed));
    }
    s
}

fn build_decompress_summary(path: &String, compressed: u64, decompressed: u64) -> (r: String)
    ensures
        r@ == spec_decompress_summary(path@, compressed, decompressed),
{
    let mut s = String::from_str("\nDecompression successful!\nSaved to: ");
    s.append(path.as_str());
    s.append("\nCompressed: ");
    let c = u64_to_string(compressed);
    s.append(c.as_str());
    s.append(" bytes\nDecompressed: ");
    let d = u64_to_string(decompressed);
    s.append(d.as_str());
    s.append(" bytes\n");
    proof {
        assert(s@ =~= spec_decompress_summary(path@, compressed, decompressed));
    }
    s
}

/// The whole interactive state.  The progress fraction is kept as a pair of
/// byte counts; a renderer divides them (`progress_total == 0` means no
/// fraction is known).
pub struct ControllerState {
    /// The user asked to leave.
    pub exit_requested: bool,
    /// A job is active from the controller's point of view.
    pub running: bool,
    /// The active job decompresses rather than compresses.
    pub decompressing: bool,
    /// Input-side bytes the active job has processed.
    pub progress_bytes: u64,
    /// The active job's input size; 0 when unknown.
    pub progress_total: u64,
    /// The status line.
    pub status_message: String,
    /// The summary of the last finished job, until dismissed.
    pub last_result: Option<String>,
    /// When the last job finished, on the caller's millisecond clock.
    pub finished_at: Option<u64>,
    /// The preset for the next compression job.
    pub level: CompressionLevel,
}

impl ControllerState {
    /// Internal consistency: a running job has no pending dismiss timer, and
    /// only a running job can be a decompression.
    pub open spec fn wf(self) -> bool {
        &&& (self.decompressing ==> self.running)
        &&& (self.running ==> self.finished_at is None)
    }

    /// The idle state the application starts in.
    pub fn new() -> (s: ControllerState)
        ensures
            s.wf(),
            !s.exit_requested,
            !s.running,
            !s.decompressing,
            s.progress_bytes == 0,
            s.progress_total == 0,
            s.status_message@ == spec_initial_status(),
            s.last_result is None,
            s.finished_at is None,
            s.level is Normal,
    {
        ControllerState {
            exit_requested: false,
            running: false,
            decompressing: false,
            progress_bytes: 0,
            progress_total: 0,
            status_message: String::from_str(" Press 'o' to compress or 'd' to decompress a file"),
            last_result: None,
            finished_at: None,
            level: CompressionLevel::Normal,
        }
    }

    /// React to one key press.  Quitting and level changes act at once (the
    /// level is locked while a job runs); the start keys change nothing and
    /// only ask the caller to run the matching file picker, so that a
    /// cancelled pick leaves everything but the status line untouched.
    pub fn on_key(&mut self, key: KeyAction) -> (r: Option<PickRequest>)
        requires
            old(self).wf(),
        ensures
            final(self).wf(),
            match key {
                KeyAction::Quit => *final(self) == (ControllerState {
                    exit_requested: true,
                    ..*old(self)
                }) && r is None,
                KeyAction::RaiseLevel => *final(self) == (ControllerState {
                    level: if old(self).running {
                        old(self).level
                    } else {
                        spec_increase(old(self).level)
                    },
                    ..*old(self)
                }) && r is None,
                KeyAction::LowerLevel => *final(self) == (ControllerState {
                    level: if old(self).running {
                        old(self).level
                    } else {
                        spec_decrease(old(self).level)
                    },
                    ..*old(self)
                }) && r is None,
                KeyAction::StartCompress => *final(self) == *old(self) && r == Some(
                    PickRequest::CompressInput,
                ),
                KeyAction::StartCompressTo => *final(self) == *old(self) && r == Some(
                    PickRequest::CompressInputAndSave,
                ),
                KeyAction::StartDecompress => *final(self) == *old(self) && r == Some(
                    PickRequest::DecompressInput,
                ),
                KeyAction::Other => *final(self) == *old(self) && r is None,
            },
    {
        match key {
            KeyAction::Quit => {
                self.exit_requested = true;
                None
            },
            KeyAction::RaiseLevel => {
                if !self.running {
                    self.level = self.level.increase();
                }
                None
            },
            KeyAction::LowerLevel => {
                if !self.running {
                    self.level = self.level.decrease();
                }
                None
            },
            KeyAction::StartCompress => Some(PickRequest::CompressInput),
            KeyAction::StartCompressTo => Some(PickRequest::CompressInputAndSave),
            KeyAction::StartDecompress => Some(PickRequest::DecompressInput),
            KeyAction::Other => None,
        }
    }

    /// The user closed a file picker without choosing: no job starts and
    /// nothing changes but the status line.
    pub fn pick_cancelled(&mut self)
        requires
            old(self).wf(),
        ensures
            final(self).wf(),
            final(self).status_message@ == spec_cancel_status(),
            *final(self) == (ControllerState {
                status_message: final(self).status_message,
                ..*old(self)
            }),
    {
        self.status_message = String::from_str("Not Compressing ");
    }

    /// Start a compression job on a picked file, writing beside it.
    pub fn begin_compress(&mut self, input_path: String) -> (job: Job)
        requires
            old(self).wf(),
        ensures
            final(self).wf(),
            *final(self) == (ControllerState {
                running: true,
                decompressing: false,
                progress_bytes: 0,
                progress_total: 0,
                status_message: final(self).status_message,
                finished_at: None,
                ..*old(self)
            }),
            final(self).status_message@ == spec_compress_status(
                spec_file_name(input_path@),
                old(self).level,
            ),
            job.direction is Compress,
            job.level == old(self).level,
            job.input_path@ == input_path@,
            job.output_path@ == input_path@ + ".zst"@,
    {
        let output_path = compress_output_path(input_path.as_str());
        let mut status = String::from_str(" Compressing ");
        status.append(file_name_of(input_path.as_str()));
        status.append(" [");
        status.append(self.level.label());
        status.append("]");
        proof {
            assert(status@ =~= spec_compress_status(spec_file_name(input_path@), old(self).level));
        }
        self.running = true;
        self.decompressing = false;
        self.progress_bytes = 0;
        self.progress_total = 0;
        self.finished_at = None;
        self.status_message = status;
        Job { input_path, output_path, direction: Direction::Compress, level: self.level }
    }

    /// Start a compression job on a picked file, writing to a chosen place —
    /// or, when the save picker was cancelled, to the derived default.
    pub fn begin_compress_to(&mut self, input_path: String, chosen_output: Option<String>) -> (job:
        Job)
        requires
            old(self).wf(),
        ensures
            final(self).wf(),
            *final(self) == (ControllerState {
                running: true,
                decompressing: false,
                progress_bytes: 0,
                progress_total: 0,
                status_message: final(self).status_message,
                finished_at: None,
                ..*old(self)
            }),
            final(self).status_message@ == spec_compress_to_status(spec_file_name(input_path@)),
            job.direction is Compress,
            job.level == old(self).level,
            job.input_path@ == input_path@,
            chosen_output is Some ==> job.output_path@ == chosen_output->Some_0@,
            chosen_output is None ==> job.output_path@ == input_path@ + ".zst"@,
    {
        let output_path = match chosen_output {
            Some(p) => p,
            None => compress_output_path(input_path.as_str()),
        };
        let mut status = String::from_str(" Compressing ");
        status.append(file_name_of(input_path.as_str()));
        proof {
            assert(status@ =~= spec_compress_to_status(spec_file_name(input_path@)));
        }
        self.running = true;
        self.decompressing = false;
        self.progress_bytes = 0;
        self.progress_total = 0;
        self.finished_at = None;
        self.status_message = status;
        Job { input_path, output_path, direction: Direction::Compress, level: self.level }
    }

    /// Start a decompression job on a picked file, writing to the path with
    /// the extension stripped.
    pub fn begin_decompress(&mut self, input_path: String) -> (job: Job)
        requires
            old(self).wf(),
        ensures
            final(self).wf(),
            *final(self) == (ControllerState {
                running: true,
                decompressing: true,
                progress_bytes: 0,
                progress_total: 0,
                status_message: final(self).status_message,
                finished_at: None,
                ..*old(self)
            }),
            final(self).status_message@ == spec_decompress_status(spec_file_name(input_path@)),
            job.direction is Decompress,
            job.level == old(self).level,
            job.input_path@ == input_path@,
            job.output_path@ == spec_strip_extension(input_path@),
    {
        let output_path = decompress_output_path(input_path.as_str());
        let mut status = String::from_str(" Decompressing ");
        status.append(file_name_of(input_path.as_str()));
        proof {
            assert(status@ =~= spec_decompress_status(spec_file_name(input_path@)));
        }
        self.running = true;
        self.decompressing = true;
        self.progress_bytes = 0;
        self.progress_total = 0;
        self.finished_at = None;
        self.status_message = status;
        Job { input_path, output_path, direction: Direction::Decompress, level: self.level }
    }

    /// Apply one job message.  A `Progress` with a known total updates the
    /// fraction and nothing else — one with `total_bytes == 0` changes
    /// nothing at all.  `Finished` ends the job, forces the fraction to one,
    /// records the summary and the finish time.  `Error` ends the job,
    /// clears the fraction and shows the error text.  Returns whether the
    /// message was terminal, so the caller can drop the job's channel.
    pub fn apply_message(&mut self, msg: CompressMessage, now_millis: u64) -> (terminal: bool)
        requires
            old(self).wf(),
        ensures
            final(self).wf(),
            terminal == msg.is_terminal(),
            msg matches CompressMessage::Progress { bytes_processed, total_bytes } ==> {
                &&& total_bytes > 0 ==> *final(self) == (ControllerState {
                    progress_bytes: bytes_processed,
                    progress_total: total_bytes,
                    ..*old(self)
                })
                &&& total_bytes == 0 ==> *final(self) == *old(self)
            },
            msg matches CompressMessage::Finished {
                original_size,
                compressed_size,
                output_path,
            } ==> {
                &&& *final(self) == (ControllerState {
                    running: false,
                    decompressing: false,
                    progress_bytes: 1,
                    progress_total: 1,
                    status_message: final(self).status_message,
                    last_result: final(self).last_result,
                    finished_at: Some(now_millis),
                    ..*old(self)
                })
                &&& old(self).decompressing ==> final(self).status_message@
                    == spec_decompress_done_status() && (final(self).last_result matches Some(t)
                    && t@ == spec_decompress_summary(output_path@, original_size, compressed_size))
                &&& !old(self).decompressing ==> final(self).status_message@
                    == spec_compress_done_status() && (final(self).last_result matches Some(t) && t@
                    == spec_compress_summary(output_path@, original_size, compressed_size))
            },
            msg matches CompressMessage::Error(e) ==> {
                &&& *final(self) == (ControllerState {
                    running: false,
                    decompressing: false,
                    progress_bytes: 0,
                    progress_total: 0,
                    status_message: final(self).status_message,
                    ..*old(self)
                })
                &&& final(self).status_message@ == spec_error_status(e@)
            },
    {
        match msg {
            CompressMessage::Progress { bytes_processed, total_bytes } => {
                if total_bytes > 0 {
                    self.progress_bytes = bytes_processed;
                    self.progress_total = total_bytes;
                }
                false
            },
            CompressMessage::Finished { original_size, compressed_size, output_path } => {
                self.running = false;
                self.progress_bytes = 1;
                self.progress_total = 1;
                if self.decompressing {
                    self.decompressing = false;
                    self.status_message = String::from_str(" Decompression complete!");
                    self.last_result = Some(
                        build_decompress_summary(&output_path, original_size, compressed_size),
                    );
                } else {
                    self.status_message = String::from_str(" Compression complete!");
                    self.last_result = Some(
                        build_compress_summary(&output_path, original_size, compressed_size),
                    );
                }
                self.finished_at = Some(now_millis);
                true
            },
            CompressMessage::Error(e) => {
                self.running = false;
                self.decompressing = false;
                self.progress_bytes = 0;
                self.progress_total = 0;
                let mut status = String::from_str(" Error: ");
                status.append(e.as_str());
                self.status_message = status;
                true
            },
        }
    }

    /// Let the dismiss timer run: once the configured time has passed since
    /// a job finished, clear the progress display, drop back to idle and
    /// tell the caller, who decides what leaving the summary means (the
    /// interactive loop exits).
    pub fn tick_dismiss(&mut self, now_millis: u64) -> (dismiss: bool)
        requires
            old(self).wf(),
        ensures
            final(self).wf(),
            dismiss == (old(self).finished_at matches Some(t) && now_millis >= t + RESULT_DISMISS_MILLIS),
            dismiss ==> *final(self) == (ControllerState {
                progress_bytes: 0,
                progress_total: 0,
                finished_at: None,
                ..*old(self)
            }),
            !dismiss ==> *final(self) == *old(self),
    {
        match self.finished_at {
            Some(t) => {
                if now_millis >= t && now_millis - t >= RESULT_DISMISS_MILLIS {
                    self.progress_bytes = 0;
                    self.progress_total = 0;
                    self.finished_at = None;
                    true
                } else {
                    false
                }
            },
            None => false,
        }
    }
}

} // verus!
