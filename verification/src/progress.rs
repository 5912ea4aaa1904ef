//! Progress reporting for a batch import.
//!
//! The orchestrator emits one progress event per processing step of
//! each file, with a percentage computed from completed step units
//! over the whole batch — monotonically non-decreasing across the job
//! — and one final completion event with the elapsed time and file
//! count.  Events exist only on the wire to the observer; nothing here
//! is persisted.

use vstd::prelude::*;
use vstd::arithmetic::div_mod::lemma_div_is_ordered;

verus! {

/// Steps each file passes through, in order.
pub const STEPS_PER_FILE: usize = 5;

/// One processing step of one file.
#[derive(Clone, Copy, Debug, PartialEq, Eq, Structural)]
pub enum ImportStep {
    /// Opening and decoding the source.
    Opening,
    /// Fingerprinting and cache lookup.
    Processing,
    /// Deriving the preview artifact.
    CreatingPreview,
    /// Deriving and storing the master artifact.
    SavingMaster,
    /// Reading resolution metadata.
    ExtractingMetadata,
}

/// The wire name of a step.
pub open spec fn spec_step_name(step: ImportStep) -> Seq<char> {
    match step {
        ImportStep::Opening => "Opening image"@,
        ImportStep::Processing => "Processing image"@,
        ImportStep::CreatingPreview => "Creating low-res version"@,
        ImportStep::SavingMaster => "Saving high-res version"@,
        ImportStep::ExtractingMetadata => "Extracting metadata"@,
    }
}

impl ImportStep {
    /// The wire name of this step.
    pub fn name(&self) -> (r: &'static str)
        ensures
            r@ == spec_step_name(*self),
    {
        match self {
            ImportStep::Opening => "Opening image",
            ImportStep::Processing => "Processing image",
            ImportStep::CreatingPreview => "Creating low-res version",
            ImportStep::SavingMaster => "Saving high-res version",
            ImportStep::ExtractingMetadata => "Extracting metadata",
        }
    }
}

/// The whole-number percentage of completed steps, clamped to 100; an
/// empty batch is complete at once.
pub open spec fn spec_progress(current: int, total: int) -> int {
    if total <= 0 {
        100
    } else if current * 100 / total > 100 {
        100
    } else {
        current * 100 / total
    }
}

/// Percentage of completed steps over total steps.
pub fn calculate_progress(current_step: usize, total_steps: usize) -> (r: u32)
    ensures
        r as int == spec_progress(current_step as int, total_steps as int),
{
    if total_steps == 0 {
        return 100;
    }
    proof {
        assert((current_step as int) * 100 < 0x10000000000000000000) by (nonlinear_arith)
            requires
                0 <= (current_step as int) < 0x10000000000000000,
        ;
    }
    let scaled: u128 = (current_step as u128) * 100;
    let percent: u128 = scaled / (total_steps as u128);
    if percent > 100 {
        100
    } else {
        percent as u32
    }
}

/// Monotonicity: with the step count fixed, the reported percentage
/// never decreases as steps complete.
pub proof fn lemma_progress_monotonic(current1: int, current2: int, total: int)
    requires
        0 <= current1 <= current2,
    ensures
        spec_progress(current1, total) <= spec_progress(current2, total),
{
    if total > 0 {
        assert(current1 * 100 <= current2 * 100) by (nonlinear_arith)
            requires
                current1 <= current2,
        ;
        lemma_div_is_ordered(current1 * 100, current2 * 100, total);
    }
}

/// The percentage is always in the interval from zero to one hundred.
pub proof fn lemma_progress_in_range(current: int, total: int)
    requires
        0 <= current,
    ensures
        0 <= spec_progress(current, total) <= 100,
{
    if total > 0 {
        assert(current * 100 >= 0) by (nonlinear_arith)
            requires
                current >= 0,
        ;
        vstd::arithmetic::div_mod::lemma_div_pos_is_pos(current * 100, total);
    }
}

/// One progress message on the wire: a percentage in the closed
/// interval zero to one hundred, the step's name, and the identity of
/// the file being processed, when one is.
#[derive(Clone, Debug)]
pub struct ProgressEvent {
    /// Whole-number percentage of the batch completed.
    pub percentage: u32,
    /// The wire name of the step being entered.
    pub step: String,
    /// Name of the file this event concerns, if any.
    pub file: Option<String>,
}

/// The final message of a job: elapsed wall-clock time, rendered by
/// the caller, and the number of files processed.
#[derive(Clone, Debug)]
pub struct CompleteEvent {
    /// Human-readable elapsed time for the whole batch.
    pub time_taken: String,
    /// How many files the batch contained.
    pub total_files: usize,
}

/// Per-file transfer messages for a push channel that streams a file's
/// bytes in chunks alongside its lifecycle.
#[derive(Clone, Debug)]
pub enum DownloadEvent {
    /// A file's transfer began.
    Started {
        /// Name of the file.
        file_name: String,
        /// Total bytes to expect.
        content_length: u64,
    },
    /// One chunk of a file's bytes.
    Progress {
        /// Name of the file.
        file_name: String,
        /// The bytes of this chunk.
        chunk: Vec<u8>,
    },
    /// A file's transfer completed.
    Finished {
        /// Name of the file.
        file_name: String,
    },
}

} // verus!
