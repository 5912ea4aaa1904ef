use image_cache::errors::ImportError;
use image_cache::info::ImageInfo;
use image_cache::info::assemble_image_info;
use image_cache::job::DEFAULT_DIMENSION_CEILING;
use image_cache::job::Job;
use image_cache::job::JobConfig;
use image_cache::job::derive_artifacts;
use image_cache::job::plan_derivation;
use image_cache::progress::ImportStep;
use image_cache::progress::calculate_progress;

fn png_source(width: u32, height: u32) -> Vec<u8> {
    let img = image::RgbImage::from_fn(width, height, |x, y| {
        image::Rgb([(x % 13) as u8, (y % 17) as u8, 3])
    });
    let mut buf = std::io::Cursor::new(Vec::new());
    img.write_to(&mut buf, image::ImageFormat::Png).unwrap();
    buf.into_inner()
}

fn outcome(name: &str) -> Result<ImageInfo, ImportError> {
    Ok(assemble_image_info(
        String::from(name),
        String::from("/cache/highres/x.tiff"),
        10,
        10,
        String::from("0.10 KB"),
        None,
        Some(72),
    ))
}

#[test]
fn plan_skips_preview_below_bound() {
    let plan = plan_derivation(false, false, 800, 600, 1024);
    assert!(!plan.derive_preview);
    assert!(plan.preview_is_master);
    assert!(plan.derive_master);
    assert_eq!((plan.preview_width, plan.preview_height), (800, 600));
}

#[test]
fn plan_derives_only_missing_artifacts() {
    let plan = plan_derivation(true, false, 4000, 2000, 1024);
    assert!(!plan.derive_preview);
    assert!(plan.derive_master);
    let plan = plan_derivation(false, true, 4000, 2000, 1024);
    assert!(plan.derive_preview);
    assert!(!plan.derive_master);
    assert_eq!((plan.preview_width, plan.preview_height), (1024, 512));
}

#[test]
fn plan_for_cached_file_does_no_work() {
    let plan = plan_derivation(true, true, 4000, 2000, 1024);
    assert!(!plan.derive_preview);
    assert!(!plan.derive_master);
}

#[test]
fn derivation_for_cached_file_writes_nothing() {
    let source = png_source(200, 100);
    let config = JobConfig::new(50, DEFAULT_DIMENSION_CEILING);
    let derived = derive_artifacts(&source, true, true, &config).unwrap();
    assert!(derived.preview_bytes.is_none());
    assert!(derived.master_bytes.is_none());
    assert_eq!((derived.width, derived.height), (200, 100));
}

#[test]
fn derivation_produces_missing_artifacts() {
    let source = png_source(200, 100);
    let config = JobConfig::new(50, DEFAULT_DIMENSION_CEILING);
    let derived = derive_artifacts(&source, false, false, &config).unwrap();
    assert!(!derived.preview_is_master);
    assert_eq!((derived.preview_width, derived.preview_height), (50, 25));
    let preview = image::load_from_memory(&derived.preview_bytes.unwrap()).unwrap();
    assert_eq!((preview.width(), preview.height()), (50, 25));
    let master = image::load_from_memory(&derived.master_bytes.unwrap()).unwrap();
    assert_eq!((master.width(), master.height()), (200, 100));
}

#[test]
fn derivation_below_bound_uses_master_as_preview() {
    let source = png_source(40, 30);
    let config = JobConfig::new(1024, DEFAULT_DIMENSION_CEILING);
    let derived = derive_artifacts(&source, false, false, &config).unwrap();
    assert!(derived.preview_is_master);
    assert!(derived.preview_bytes.is_none());
    assert!(derived.master_bytes.is_some());
    assert_eq!((derived.preview_width, derived.preview_height), (40, 30));
}

#[test]
fn oversized_source_is_rejected_before_decode() {
    let source = png_source(200, 100);
    let config = JobConfig::new(1024, 150);
    assert_eq!(
        derive_artifacts(&source, false, false, &config),
        Err(ImportError::DimensionTooLarge)
    );
}

#[test]
fn unrecognized_source_is_rejected() {
    let source = vec![9u8; 16];
    let config = JobConfig::new(1024, DEFAULT_DIMENSION_CEILING);
    assert_eq!(
        derive_artifacts(&source, false, false, &config),
        Err(ImportError::FormatError)
    );
}

#[test]
fn results_come_back_in_request_order() {
    let paths = vec![String::from("a.png"), String::from("b.png"), String::from("c.png")];
    let mut job = Job::new(paths);
    // Completion order C, A, B must not disturb request order A, B, C.
    job.record_result(2, outcome("c"));
    job.record_result(0, outcome("a"));
    assert!(!job.is_complete());
    job.record_result(1, outcome("b"));
    assert!(job.is_complete());
    let results = job.into_results();
    let names: Vec<String> = results
        .into_iter()
        .map(|r| r.unwrap().image_name)
        .collect();
    assert_eq!(names, vec!["a", "b", "c"]);
}

#[test]
fn failures_are_recorded_per_file() {
    let paths = vec![String::from("good.png"), String::from("bad.bin")];
    let mut job = Job::new(paths);
    job.record_result(0, outcome("good"));
    job.record_result(1, Err(ImportError::FormatError));
    let results = job.into_results();
    assert!(results[0].is_ok());
    assert_eq!(results[1], Err(ImportError::FormatError));
}

#[test]
fn progress_percentages_never_decrease() {
    let paths = vec![String::from("a"), String::from("b"), String::from("c")];
    let mut job = Job::new(paths);
    let steps = [
        ImportStep::Opening,
        ImportStep::Processing,
        ImportStep::CreatingPreview,
        ImportStep::SavingMaster,
        ImportStep::ExtractingMetadata,
    ];
    let mut last: u32 = 0;
    for file in 0..3usize {
        for step in steps {
            let event = job.advance_step(file, step);
            assert!(event.percentage >= last);
            assert!(event.percentage <= 100);
            last = event.percentage;
        }
    }
    assert_eq!(last, 100);
}

#[test]
fn progress_events_name_step_and_file() {
    let paths = vec![String::from("photo.png")];
    let mut job = Job::new(paths);
    let event = job.advance_step(0, ImportStep::Opening);
    assert_eq!(event.step, "Opening image");
    assert_eq!(event.file.as_deref(), Some("photo.png"));
    assert_eq!(event.percentage, 20);
}

#[test]
fn progress_math_matches_the_wire_contract() {
    assert_eq!(calculate_progress(0, 10), 0);
    assert_eq!(calculate_progress(1, 10), 10);
    assert_eq!(calculate_progress(10, 10), 100);
    assert_eq!(calculate_progress(5, 0), 100);
    assert_eq!(calculate_progress(1, 15), 6);
}

#[test]
fn same_fingerprint_is_derived_at_most_once_per_job() {
    let paths = vec![String::from("copy1.png"), String::from("copy2.png")];
    let mut job = Job::new(paths);
    let fingerprint = String::from("abcd");
    assert!(job.needs_derivation(&fingerprint, false, false));
    // Second occurrence of the same content: served from the first.
    assert!(!job.needs_derivation(&fingerprint, false, false));
    // A different fingerprint still derives.
    assert!(job.needs_derivation(&String::from("ef01"), false, false));
}

#[test]
fn fully_cached_fingerprint_needs_no_derivation() {
    let paths = vec![String::from("a.png")];
    let mut job = Job::new(paths);
    assert!(!job.needs_derivation(&String::from("abcd"), true, true));
    // It was not marked in-flight, so a cache miss later still derives.
    assert!(job.needs_derivation(&String::from("abcd"), false, true));
}

#[test]
fn completion_event_counts_files() {
    let paths = vec![String::from("a"), String::from("b")];
    let job = Job::new(paths);
    let done = job.complete_event(String::from("1.23s"));
    assert_eq!(done.total_files, 2);
    assert_eq!(done.time_taken, "1.23s");
}
