//! The import orchestrator.
//!
//! A job drives a batch of source files through fingerprinting,
//! probing, derivation and metadata extraction.  For each file it
//! first consults the derived store; only missing artifacts are
//! derived, at most once per fingerprint per job, and the final result
//! list is ordered by original request order regardless of the order
//! in which per-file outcomes arrive.  A failure on one file is
//! recorded in that file's outcome and does not abort its siblings.

use vstd::prelude::*;
use vstd::pervasive::VecAdditionalExecFns;
use crate::codec::decode_image;
use crate::codec::is_sized_png;
use crate::codec::is_sized_tiff;
use crate::codec::is_master_encoding;
use crate::codec::master_bytes;
use crate::codec::preview_png;
use crate::codec::spec_decodes;
use crate::codec::spec_tiff_bytes;
use crate::errors::ImportError;
use crate::info::ImageInfo;
use crate::pixel::DecodedImage;
use crate::probe::Container;
use crate::probe::probe_image;
use crate::probe::spec_probe;
use crate::progress::ImportStep;
use crate::progress::ProgressEvent;
use crate::progress::CompleteEvent;
use crate::progress::STEPS_PER_FILE;
use crate::progress::calculate_progress;
use crate::progress::spec_progress;
use crate::progress::spec_step_name;
use crate::resize::longest_edge;
use crate::resize::scaled_dimensions;
use crate::resize::spec_new_dimensions;
use crate::store::spec_store_write;

verus! {

/// Default ceiling on either probed dimension, guarding against
/// decompression-bomb inputs before any full decode.
pub const DEFAULT_DIMENSION_CEILING: u32 = 32768;

/// Per-job configuration, threaded into the orchestrator explicitly:
/// set once before the first file, immutable thereafter.
#[derive(Clone, Copy, Debug, PartialEq, Eq, Structural)]
pub struct JobConfig {
    /// Longest-edge bound of the preview artifact.
    pub bound: u32,
    /// Ceiling on either probed source dimension.
    pub ceiling: u32,
}

impl JobConfig {
    /// A configuration with the given preview bound and dimension
    /// ceiling.
    pub fn new(bound: u32, ceiling: u32) -> (r: JobConfig)
        requires
            bound >= 1,
        ensures
            r.bound == bound,
            r.ceiling == ceiling,
    {
        JobConfig { bound, ceiling }
    }
}

/// What must be derived for one file, given which artifacts the store
/// already holds and the probed source dimensions.
#[derive(Clone, Copy, Debug, PartialEq, Eq, Structural)]
pub struct DerivationPlan {
    /// Whether a preview artifact must be produced and written.
    pub derive_preview: bool,
    /// Whether a master artifact must be produced and written.
    pub derive_master: bool,
    /// Whether the preview artifact is the master itself (the source
    /// already fits the bound, so preview generation is skipped).
    pub preview_is_master: bool,
    /// Width the preview artifact has.
    pub preview_width: u32,
    /// Height the preview artifact has.
    pub preview_height: u32,
}

/// Decide the derivation work for one file.
///
/// The store is consulted first: an artifact it already holds is never
/// derived again.  A source whose longest edge fits the bound gets no
/// separate preview — the preview is the master — and the preview
/// dimensions are then the source's own.
pub fn plan_derivation(
    has_preview: bool,
    has_master: bool,
    width: u32,
    height: u32,
    bound: u32,
) -> (p: DerivationPlan)
    requires
        bound >= 1,
    ensures
        p.derive_master == !has_master,
        p.preview_is_master == (longest_edge(width as int, height as int) <= bound),
        p.derive_preview == (!has_preview && !p.preview_is_master),
        match spec_new_dimensions(width as int, height as int, bound as int) {
            Some(dims) => (p.preview_width as int, p.preview_height as int) == dims,
            None => p.preview_width == width && p.preview_height == height,
        },
        longest_edge(width as int, height as int) <= bound ==> !p.derive_preview
            && p.preview_is_master && p.preview_width == width && p.preview_height == height,
{
    match scaled_dimensions(width, height, bound) {
        Some((new_width, new_height)) => DerivationPlan {
            derive_preview: !has_preview,
            derive_master: !has_master,
            preview_is_master: false,
            preview_width: new_width,
            preview_height: new_height,
        },
        None => DerivationPlan {
            derive_preview: false,
            derive_master: !has_master,
            preview_is_master: true,
            preview_width: width,
            preview_height: height,
        },
    }
}

/// The store after one file's import: the master artifact's bytes land
/// when the plan derives a master, then the preview artifact's when it
/// derives a preview, each under the append-only write discipline.
pub open spec fn spec_store_after_import(
    store: Map<Seq<char>, Seq<u8>>,
    plan: DerivationPlan,
    preview_path: Seq<char>,
    master_path: Seq<char>,
    preview_data: Seq<u8>,
    master_data: Seq<u8>,
) -> Map<Seq<char>, Seq<u8>> {
    let after_master = if plan.derive_master {
        spec_store_write(store, master_path, master_data)
    } else {
        store
    };
    if plan.derive_preview {
        spec_store_write(after_master, preview_path, preview_data)
    } else {
        after_master
    }
}

/// Determinism of the cache: importing a file whose two artifacts the
/// store already holds writes nothing — the store, and so every
/// artifact's bytes and path, is exactly as before.  Such a plan comes
/// from [`plan_derivation`] whenever both presence checks succeed.
pub proof fn lemma_cached_import_writes_nothing(
    store: Map<Seq<char>, Seq<u8>>,
    plan: DerivationPlan,
    preview_path: Seq<char>,
    master_path: Seq<char>,
    preview_data: Seq<u8>,
    master_data: Seq<u8>,
)
    requires
        !plan.derive_preview,
        !plan.derive_master,
    ensures
        spec_store_after_import(store, plan, preview_path, master_path, preview_data, master_data)
            == store,
{
}

/// The artifacts derived for one file, with the source and preview
/// dimensions the result record reports.
#[derive(Debug, PartialEq, Eq)]
pub struct DerivedArtifacts {
    /// Bytes of a freshly derived preview, when one was missing and
    /// the source exceeds the bound.
    pub preview_bytes: Option<Vec<u8>>,
    /// Bytes of a freshly derived master, when one was missing.
    pub master_bytes: Option<Vec<u8>>,
    /// Probed source width.
    pub width: u32,
    /// Probed source height.
    pub height: u32,
    /// Width of the preview artifact.
    pub preview_width: u32,
    /// Height of the preview artifact.
    pub preview_height: u32,
    /// Whether the preview artifact is the master itself.
    pub preview_is_master: bool,
}

/// Derive the missing artifacts for one source file's bytes.
///
/// The probe's ceiling check runs strictly first: an oversized source
/// is rejected as `DimensionTooLarge` and no decode is attempted.  The
/// source is decoded at most once, shared between the preview and
/// master steps.  A source already in the archival container has its
/// master copied byte for byte.
pub fn derive_artifacts(
    source: &[u8],
    has_preview: bool,
    has_master: bool,
    config: &JobConfig,
) -> (r: Result<DerivedArtifacts, ImportError>)
    requires
        config.bound >= 1,
    ensures
        match spec_probe(source@) {
            Some(p) => {
                &&& ((p.width > config.ceiling || p.height > config.ceiling) <==> r == Err::<
                    DerivedArtifacts,
                    ImportError,
                >(ImportError::DimensionTooLarge))
                &&& (r matches Ok(d) ==> {
                    &&& d.width == p.width && d.height == p.height
                    &&& d.preview_is_master == (longest_edge(p.width as int, p.height as int)
                        <= config.bound)
                    &&& (d.master_bytes is Some <==> !has_master)
                    &&& (d.preview_bytes is Some <==> (!has_preview && !d.preview_is_master))
                    &&& (match spec_new_dimensions(
                        p.width as int,
                        p.height as int,
                        config.bound as int,
                    ) {
                        Some(dims) => (d.preview_width as int, d.preview_height as int) == dims,
                        None => d.preview_width == p.width && d.preview_height == p.height,
                    })
                    &&& (p.container == Container::Tiff ==> (d.master_bytes matches Some(v) ==> v@
                        == source@))
                    &&& (p.container == Container::Other ==> (d.master_bytes matches Some(v)
                        ==> is_sized_tiff(v@, p.width as int, p.height as int)))
                    &&& (d.preview_bytes matches Some(v) ==> is_sized_png(
                        v@,
                        d.preview_width as int,
                        d.preview_height as int,
                    ))
                })
                &&& ((p.width <= config.ceiling && p.height <= config.ceiling && has_preview
                    && has_master) ==> r is Ok)
                &&& ({
                    &&& p.width <= config.ceiling && p.height <= config.ceiling
                    &&& (((!has_preview && longest_edge(p.width as int, p.height as int)
                        > config.bound) || (!has_master && p.container == Container::Other))
                        ==> spec_decodes(source@))
                    &&& (!has_master ==> (p.container == Container::Tiff || (
                    p.format.spec_tiff_supported() && p.width >= 1 && p.height >= 1
                        && p.width as int * p.height as int * p.format.spec_bytes_per_pixel()
                        < 0x80000000)))
                    &&& (!has_preview ==> (longest_edge(p.width as int, p.height as int)
                        <= config.bound || (p.format.spec_png_supported()
                        && p.format.spec_single_byte_samples() && (spec_new_dimensions(
                        p.width as int,
                        p.height as int,
                        config.bound as int,
                    ) matches Some(dims) && dims.0 >= 1 && dims.1 >= 1 && dims.0 * dims.1
                        * p.format.spec_bytes_per_pixel() <= usize::MAX))))
                } ==> r is Ok)
            },
            None => r matches Err(e) && (e == ImportError::FormatError || e
                == ImportError::UnsupportedPixelFormat),
        },
{
    let probe = match probe_image(source, config.ceiling) {
        Ok(p) => p,
        Err(e) => {
            return Err(e);
        },
    };
    let plan = plan_derivation(has_preview, has_master, probe.width, probe.height, config.bound);
    let needs_decode = plan.derive_preview || (plan.derive_master && probe.container
        == Container::Other);
    let decoded: Option<DecodedImage> = if needs_decode {
        match decode_image(source) {
            Ok(img) => Some(img),
            Err(e) => {
                return Err(e);
            },
        }
    } else {
        None
    };
    let preview: Option<Vec<u8>> = if plan.derive_preview {
        let img = match &decoded {
            Some(img) => img,
            None => vstd::pervasive::unreached(),
        };
        match preview_png(img, config.bound) {
            Ok(v) => Some(v),
            Err(e) => {
                return Err(e);
            },
        }
    } else {
        None
    };
    let master: Option<Vec<u8>> = if plan.derive_master {
        match master_bytes(source, probe.container, decoded.as_ref()) {
            Ok(v) => {
                proof {
                    if probe.container == Container::Other {
                        let img = decoded.unwrap();
                        assert(v@ == spec_tiff_bytes(
                            img.format,
                            img.width as int,
                            img.height as int,
                            img.bytes@,
                        ));
                        assert(img.bytes@.len() == (probe.width as int) * (probe.height as int)
                            * img.format.spec_bytes_per_pixel());
                        assert(is_master_encoding(
                            v@,
                            img.format,
                            probe.width as int,
                            probe.height as int,
                        ));
                    }
                }
                Some(v)
            },
            Err(e) => {
                return Err(e);
            },
        }
    } else {
        None
    };
    Ok(
        DerivedArtifacts {
            preview_bytes: preview,
            master_bytes: master,
            width: probe.width,
            height: probe.height,
            preview_width: plan.preview_width,
            preview_height: plan.preview_height,
            preview_is_master: plan.preview_is_master,
        },
    )
}

/// Whether a sequence of names contains the given name.
pub open spec fn spec_seq_contains(names: Seq<Seq<char>>, name: Seq<char>) -> bool {
    exists|i: int| 0 <= i < names.len() && names[i] == name
}

/// Once a fingerprint is marked in-flight, it stays marked: a later
/// occurrence of the same fingerprint in the job is served from the
/// first occurrence's artifacts instead of being derived again.
pub proof fn lemma_derivation_at_most_once(marked: Seq<Seq<char>>, fingerprint: Seq<char>)
    ensures
        spec_seq_contains(marked.push(fingerprint), fingerprint),
        forall|other: Seq<char>|
            spec_seq_contains(marked, other) ==> spec_seq_contains(marked.push(fingerprint), other),
{
    assert(marked.push(fingerprint)[marked.len() as int] == fingerprint);
    assert forall|other: Seq<char>|
        spec_seq_contains(marked, other) implies spec_seq_contains(
        marked.push(fingerprint),
        other,
    ) by {
        let i = choose|i: int| 0 <= i < marked.len() && marked[i] == other;
        assert(marked.push(fingerprint)[i] == other);
    }
}

/// One batch import job.
///
/// The job owns the ordered request list, buffers per-file outcomes by
/// original index, counts completed progress steps, and keeps the
/// in-flight marker list that deduplicates same-fingerprint sources
/// within the job.
pub struct Job {
    paths: Vec<String>,
    results: Vec<Option<Result<ImageInfo, ImportError>>>,
    derived: Vec<String>,
    steps_done: usize,
}

impl Job {
    /// The requested source paths, in request order.
    pub closed spec fn spec_paths(self) -> Seq<Seq<char>> {
        self.paths@.map_values(|s: String| s@)
    }

    /// The per-file outcomes recorded so far, by request index.
    pub closed spec fn spec_results(self) -> Seq<Option<Result<ImageInfo, ImportError>>> {
        self.results@
    }

    /// The fingerprints marked in-flight so far.
    pub closed spec fn spec_derived(self) -> Seq<Seq<char>> {
        self.derived@.map_values(|s: String| s@)
    }

    /// Progress steps completed so far.
    pub closed spec fn spec_steps_done(self) -> int {
        self.steps_done as int
    }

    /// Total progress steps of the batch.
    pub open spec fn total_steps(self) -> int {
        self.spec_paths().len() * STEPS_PER_FILE
    }

    /// One outcome slot per requested path, and a step total that fits
    /// the step counter.
    pub open spec fn wf(self) -> bool {
        &&& self.spec_results().len() == self.spec_paths().len()
        &&& self.total_steps() <= usize::MAX
    }

    /// A fresh job for the given request list: no outcomes, no
    /// in-flight fingerprints, no progress.
    pub fn new(paths: Vec<String>) -> (r: Job)
        requires
            paths@.len() * STEPS_PER_FILE <= usize::MAX,
        ensures
            r.wf(),
            r.spec_paths() == paths@.map_values(|s: String| s@),
            r.spec_results().len() == paths@.len(),
            forall|i: int| 0 <= i < paths@.len() ==> r.spec_results()[i] is None,
            r.spec_derived() == Seq::<Seq<char>>::empty(),
            r.spec_steps_done() == 0,
    {
        let n = paths.len();
        let mut results: Vec<Option<Result<ImageInfo, ImportError>>> = Vec::new();
        let mut i: usize = 0;
        while i < n
            invariant
                i <= n,
                results@.len() == i,
                forall|j: int| 0 <= j < i ==> results@[j] is None,
            decreases n - i,
        {
            results.push(None);
            i = i + 1;
        }
        let job = Job { paths, results, derived: Vec::new(), steps_done: 0 };
        proof {
            assert(job.spec_derived() =~= Seq::<Seq<char>>::empty());
        }
        job
    }

    /// How many files the job contains.
    pub fn file_count(&self) -> (r: usize)
        ensures
            r == self.spec_paths().len(),
    {
        self.paths.len()
    }

    /// The requested path at an index.
    pub fn path_at(&self, index: usize) -> (r: &String)
        requires
            index < self.spec_paths().len(),
        ensures
            r@ == self.spec_paths()[index as int],
    {
        &self.paths[index]
    }

    /// Enter the next processing step of a file, and the progress
    /// event announcing it.  The percentage never decreases from one
    /// step to the next.
    pub fn advance_step(&mut self, file_index: usize, step: ImportStep) -> (event: ProgressEvent)
        requires
            old(self).wf(),
            file_index < old(self).spec_paths().len(),
            old(self).spec_steps_done() < old(self).total_steps(),
        ensures
            final(self).wf(),
            final(self).spec_paths() == old(self).spec_paths(),
            final(self).spec_results() == old(self).spec_results(),
            final(self).spec_derived() == old(self).spec_derived(),
            final(self).spec_steps_done() == old(self).spec_steps_done() + 1,
            event.percentage as int == spec_progress(
                old(self).spec_steps_done() + 1,
                old(self).total_steps(),
            ),
            event.step@ == spec_step_name(step),
            event.file matches Some(f) && f@ == old(self).spec_paths()[file_index as int],
    {
        self.steps_done = self.steps_done + 1;
        let total = self.paths.len() * STEPS_PER_FILE;
        let percentage = calculate_progress(self.steps_done, total);
        ProgressEvent {
            percentage,
            step: self.step_name_owned(step),
            file: Some(self.paths[file_index].clone()),
        }
    }

    /// The owned wire name of a step.
    fn step_name_owned(&self, step: ImportStep) -> (r: String)
        ensures
            r@ == spec_step_name(step),
    {
        step.name().to_owned()
    }

    /// Whether this file's artifacts must be derived, marking its
    /// fingerprint in-flight when they must.
    ///
    /// Derivation happens exactly when some artifact is missing from
    /// the store and no earlier file of this job already derived — or
    /// is deriving — the same fingerprint.
    pub fn needs_derivation(&mut self, fingerprint: &String, has_preview: bool, has_master: bool) -> (r:
        bool)
        requires
            old(self).wf(),
        ensures
            final(self).wf(),
            final(self).spec_paths() == old(self).spec_paths(),
            final(self).spec_results() == old(self).spec_results(),
            final(self).spec_steps_done() == old(self).spec_steps_done(),
            r == (!(has_preview && has_master) && !spec_seq_contains(
                old(self).spec_derived(),
                fingerprint@,
            )),
            r ==> final(self).spec_derived() == old(self).spec_derived().push(fingerprint@),
            !r ==> final(self).spec_derived() == old(self).spec_derived(),
    {
        if has_preview && has_master {
            return false;
        }
        let n = self.derived.len();
        let mut i: usize = 0;
        while i < n
            invariant
                *self == *old(self),
                old(self).wf(),
                i <= n == self.derived@.len(),
                forall|j: int| 0 <= j < i ==> self.derived@[j]@ != fingerprint@,
            decreases n - i,
        {
            if self.derived[i].eq(fingerprint) {
                proof {
                    assert(self.spec_derived()[i as int] == fingerprint@);
                }
                return false;
            }
            i = i + 1;
        }
        let ghost before = self.spec_derived();
        self.derived.push(fingerprint.clone());
        proof {
            assert(self.spec_derived() =~= before.push(fingerprint@));
            assert forall|j: int| 0 <= j < before.len() implies before[j] != fingerprint@ by {
                assert(old(self).derived@[j]@ != fingerprint@);
            }
        }
        true
    }

    /// Record one file's outcome under its original request index.
    pub fn record_result(&mut self, index: usize, outcome: Result<ImageInfo, ImportError>)
        requires
            old(self).wf(),
            index < old(self).spec_results().len(),
            old(self).spec_results()[index as int] is None,
        ensures
            final(self).wf(),
            final(self).spec_paths() == old(self).spec_paths(),
            final(self).spec_derived() == old(self).spec_derived(),
            final(self).spec_steps_done() == old(self).spec_steps_done(),
            final(self).spec_results() == old(self).spec_results().update(
                index as int,
                Some(outcome),
            ),
    {
        self.results.set(index, Some(outcome));
    }

    /// Whether every file's outcome has been recorded.
    pub fn is_complete(&self) -> (r: bool)
        requires
            self.wf(),
        ensures
            r == (forall|i: int| 0 <= i < self.spec_results().len() ==> self.spec_results()[i]
                is Some),
    {
        let n = self.results.len();
        let mut i: usize = 0;
        while i < n
            invariant
                i <= n == self.spec_results().len(),
                forall|j: int| 0 <= j < i ==> self.spec_results()[j] is Some,
            decreases n - i,
        {
            if self.results[i].is_none() {
                return false;
            }
            i = i + 1;
        }
        true
    }

    /// The completion message for this job.
    pub fn complete_event(&self, time_taken: String) -> (r: CompleteEvent)
        ensures
            r.time_taken@ == time_taken@,
            r.total_files == self.spec_paths().len(),
    {
        CompleteEvent { time_taken, total_files: self.paths.len() }
    }

    /// The ordered outcome list: one entry per requested path, in
    /// request order, whatever order the outcomes were recorded in.
    pub fn into_results(self) -> (r: Vec<Result<ImageInfo, ImportError>>)
        requires
            self.wf(),
            forall|i: int| 0 <= i < self.spec_results().len() ==> self.spec_results()[i] is Some,
        ensures
            r@.len() == self.spec_paths().len(),
            forall|i: int|
                0 <= i < r@.len() ==> r@[i] == #[trigger] self.spec_results()[i].unwrap(),
    {
        let ghost all = self.spec_results();
        let mut remaining = self.results;
        let mut out: Vec<Result<ImageInfo, ImportError>> = Vec::new();
        let mut i: usize = 0;
        let n = remaining.len();
        while i < n
            invariant
                i <= n == all.len(),
                remaining@ =~= all.skip(i as int),
                forall|j: int| 0 <= j < all.len() ==> all[j] is Some,
                out@.len() == i,
                forall|j: int| 0 <= j < i ==> out@[j] == #[trigger] all[j].unwrap(),
            decreases n - i,
        {
            let slot = remaining.remove(0);
            out.push(slot.unwrap());
            proof {
                assert(all.skip(i as int).drop_first() =~= all.skip(i + 1));
            }
            i = i + 1;
        }
        out
    }
}

/// The outcome list after replaying recorded outcomes, each an
/// (index, outcome) pair, in the order they completed.
pub open spec fn apply_records<R>(init: Seq<Option<R>>, records: Seq<(int, R)>) -> Seq<Option<R>>
    decreases records.len(),
{
    if records.len() == 0 {
        init
    } else {
        apply_records(init.update(records.first().0, Some(records.first().1)), records.drop_first())
    }
}

/// A slot no record addresses keeps its value.
proof fn lemma_apply_records_untouched<R>(init: Seq<Option<R>>, records: Seq<(int, R)>, slot: int)
    requires
        0 <= slot < init.len(),
        forall|k: int| 0 <= k < records.len() ==> (#[trigger] records[k]).0 != slot,
        forall|k: int| 0 <= k < records.len() ==> 0 <= (#[trigger] records[k]).0 < init.len(),
    ensures
        apply_records(init, records)[slot] == init[slot],
    decreases records.len(),
{
    if records.len() > 0 {
        let init2 = init.update(records.first().0, Some(records.first().1));
        assert forall|k: int| 0 <= k < records.drop_first().len() implies (#[trigger] records.drop_first()[k]).0
            != slot && 0 <= (#[trigger] records.drop_first()[k]).0 < init2.len() by {
            assert(records.drop_first()[k] == records[k + 1]);
        }
        lemma_apply_records_untouched(init2, records.drop_first(), slot);
    }
}

/// Order preservation: when each request index is completed exactly
/// once, the final outcome list holds, at every index, the outcome
/// recorded for that index — however the completions were ordered.
pub proof fn lemma_order_preservation<R>(init: Seq<Option<R>>, records: Seq<(int, R)>, k: int)
    requires
        0 <= k < records.len(),
        forall|k1: int, k2: int|
            0 <= k1 < k2 < records.len() ==> (#[trigger] records[k1]).0 != (
            #[trigger] records[k2]).0,
        forall|j: int| 0 <= j < records.len() ==> 0 <= (#[trigger] records[j]).0 < init.len(),
    ensures
        apply_records(init, records)[records[k].0] == Some(records[k].1),
    decreases records.len(),
{
    let init2 = init.update(records.first().0, Some(records.first().1));
    let rest = records.drop_first();
    assert forall|j: int| 0 <= j < rest.len() implies 0 <= (#[trigger] rest[j]).0 < init2.len() by {
        assert(rest[j] == records[j + 1]);
    }
    if k == 0 {
        assert forall|j: int| 0 <= j < rest.len() implies (#[trigger] rest[j]).0 != records[0].0 by {
            assert(rest[j] == records[j + 1]);
        }
        lemma_apply_records_untouched(init2, rest, records[0].0);
    } else {
        assert forall|k1: int, k2: int| 0 <= k1 < k2 < rest.len() implies (#[trigger] rest[k1]).0
            != (#[trigger] rest[k2]).0 by {
            assert(rest[k1] == records[k1 + 1]);
            assert(rest[k2] == records[k2 + 1]);
        }
        assert(rest[k - 1] == records[k]);
        lemma_order_preservation(init2, rest, k - 1);
    }
}

} // verus!
