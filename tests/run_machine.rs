use std::collections::HashMap;
use std::io::Cursor;

use hdri_pipeline::errors::{ErrorKind, PipelineError, ToolFailure};
use hdri_pipeline::run::{Action, Outcome, PipelineRequest, PipelineRun, Work};
use hdri_pipeline::tools::{OutputSink, ToolCall};

fn request(inputs: &[&str]) -> PipelineRequest {
    PipelineRequest {
        radiance_path: "/rad".to_string(),
        hdrgen_path: String::new(),
        dcraw_emu_path: String::new(),
        output_path: "/out".to_string(),
        input_images: inputs.iter().map(|s| s.to_string()).collect(),
        response_function: String::new(),
        fisheye_correction_cal: String::new(),
        vignetting_correction_cal: String::new(),
        photometric_adjustment_cal: String::new(),
        neutral_density_cal: String::new(),
        diameter: "16".to_string(),
        xleft: "0".to_string(),
        ydown: "0".to_string(),
        xdim: String::new(),
        ydim: String::new(),
        vertical_angle: String::new(),
        horizontal_angle: String::new(),
        scale_limit: "5000".to_string(),
        scale_label: "cd/m2".to_string(),
        scale_levels: "10".to_string(),
        legend_dimensions: "100 200".to_string(),
    }
}

fn jpeg_of(rgb: [u8; 3]) -> Vec<u8> {
    let img = image::RgbImage::from_pixel(16, 16, image::Rgb(rgb));
    let mut out = Cursor::new(Vec::new());
    img.write_to(&mut out, image::ImageFormat::Jpeg).unwrap();
    out.into_inner()
}

/// What a fake host saw while driving a run.
#[derive(Default)]
struct Trace {
    progress: Vec<u64>,
    calls: Vec<ToolCall>,
    copies: Vec<(String, String)>,
    created: Vec<String>,
    listed: Vec<String>,
    read: Vec<Vec<String>>,
}

/// Drives a run to its end: directories listed from `dirs`, files read from `files`, every
/// tool succeeding unless its program is `failing`.
fn drive(
    req: PipelineRequest,
    first_is_directory: bool,
    dirs: &HashMap<String, Vec<String>>,
    files: &HashMap<String, Vec<u8>>,
    failing: Option<&str>,
) -> (Result<String, PipelineError>, Trace) {
    let mut trace = Trace::default();
    let (mut run, mut action): (PipelineRun, Action) = PipelineRun::start(req, first_is_directory);
    for _ in 0..1000 {
        if let Some(p) = action.progress {
            trace.progress.push(p);
        }
        let outcome = match action.work {
            Work::Finish(result) => return (result, trace),
            Work::CreateDir(d) => {
                trace.created.push(d);
                Outcome::Done
            },
            Work::ListDir(d) => {
                trace.listed.push(d.clone());
                Outcome::Listing(dirs.get(&d).cloned().unwrap_or_default())
            },
            Work::ReadFiles(list) => {
                trace.read.push(list.clone());
                Outcome::Contents(list.iter().map(|f| files[f].clone()).collect())
            },
            Work::Copy { from, to } => {
                trace.copies.push((from, to));
                Outcome::Done
            },
            Work::ReadClock(pattern) => {
                assert_eq!(pattern, "%m-%d-%Y_%H-%M-%S");
                Outcome::Time("01-02-2024_13-04-05".to_string())
            },
            Work::Run(call) => {
                let fails = failing == Some(call.program.as_str());
                let captured = match call.stdout {
                    OutputSink::Capture if !fails => "dgp: 0.31".to_string(),
                    _ => String::new(),
                };
                trace.calls.push(call.clone());
                hdri_pipeline::run::judge_tool_run(&call, !fails, captured)
            },
        };
        action = run.step(outcome);
    }
    panic!("the run did not end");
}

fn programs(trace: &Trace) -> Vec<String> {
    trace.calls.iter().map(|c| c.program.clone()).collect()
}

#[test]
fn single_scene_progress_goes_by_fifths() {
    let (result, trace) = drive(request(&["a.tif", "b.tif"]), false, &HashMap::new(), &HashMap::new(), None);
    let expected_image = std::path::Path::new("/out").to_path_buf();
    let out = result.unwrap();
    assert!(out.starts_with(&expected_image.display().to_string()));
    assert_eq!(out, expected_image.join("01-02-2024_13-04-05.hdr").display().to_string());
    assert_eq!(trace.progress, vec![0, 20, 40, 60, 80, 100]);
    assert_eq!(
        programs(&trace),
        vec!["hdrgen", "ra_xyze", "pcompos", "evalglare", "getinfo", "falsecolor"]
    );
    assert_eq!(trace.copies.len(), 2);
    assert!(trace.copies[1].1.ends_with("01-02-2024_13-04-05_fc.hdr"));
}

#[test]
fn single_scene_chains_each_stage_to_the_last_image() {
    let mut req = request(&["a.tif"]);
    req.diameter = "1200".to_string();
    req.fisheye_correction_cal = "fe.cal".to_string();
    req.photometric_adjustment_cal = "cf.cal".to_string();
    let (result, trace) = drive(req, false, &HashMap::new(), &HashMap::new(), None);
    assert!(result.is_ok());
    assert_eq!(
        programs(&trace),
        vec!["hdrgen", "ra_xyze", "pcompos", "pfilt", "pcomb", "pcomb", "evalglare", "getinfo", "falsecolor"]
    );
    let tmp = std::path::Path::new("/out").join("tmp");
    let at = |name: &str| tmp.join(name).display().to_string();
    // Each stage reads what the previous one wrote.
    assert_eq!(trace.calls[1].args[2], at("merge_exposures.hdr"));
    assert_eq!(trace.calls[2].args[4], at("nullify_exposure_value.hdr"));
    assert_eq!(trace.calls[3].args[5], at("crop.hdr"));
    assert_eq!(trace.calls[4].args[2], at("resize.hdr"));
    assert_eq!(trace.calls[5].args[3], at("projection_adjustment.hdr"));
    assert_eq!(trace.calls[6].args[6], at("photometric_adjustment.hdr"));
    assert_eq!(trace.calls[7].stdin_file, Some(at("photometric_adjustment.hdr")));
    assert_eq!(trace.calls[7].args[3], "EVALGLARE= dgp: 0.31");
    assert_eq!(trace.calls[7].args[1], "VIEW= -vta -vv 180 -vh 180");
    assert_eq!(trace.calls[8].args[9], at("header_editing.hdr"));
    assert_eq!(trace.calls[3].args[2], "1000");
    assert_eq!(trace.progress, vec![0, 20, 40, 60, 80, 100]);
}

#[test]
fn unsupported_file_stops_before_any_tool() {
    let (run, action) = PipelineRun::start(request(&["a.jpg", "b.png", "c.jpg"]), false);
    assert!(run.is_finished());
    assert!(action.progress.is_none());
    match action.work {
        Work::Finish(Err(e)) => {
            assert_eq!(e.kind, ErrorKind::Validation);
            assert_eq!(e.describe(), "Unsupported image format.");
        },
        _ => panic!("expected a validation error"),
    }
}

#[test]
fn empty_request_is_rejected() {
    let (_, action) = PipelineRun::start(request(&[]), false);
    match action.work {
        Work::Finish(Err(e)) => {
            assert_eq!(e.kind, ErrorKind::Validation);
            assert_eq!(e.describe(), "No input images were provided.");
        },
        _ => panic!("expected a validation error"),
    }
}

#[test]
fn non_numeric_diameter_is_rejected() {
    let mut req = request(&["a.tif"]);
    req.diameter = "12.5".to_string();
    let (run, action) = PipelineRun::start(req, false);
    assert!(run.is_finished());
    assert!(matches!(action.work, Work::Finish(Err(ref e)) if e.kind == ErrorKind::Validation));
    match action.work {
        Work::Finish(Err(e)) => assert_eq!(e.describe(), "The diameter must be an unsigned integer."),
        _ => panic!("expected a validation error"),
    }
}

fn rejection_message(req: PipelineRequest) -> String {
    let (run, action) = PipelineRun::start(req, false);
    assert!(run.is_finished());
    match action.work {
        Work::Finish(Err(e)) => {
            assert_eq!(e.kind, ErrorKind::Validation);
            e.describe()
        },
        _ => panic!("expected a validation error"),
    }
}

#[test]
fn each_numeric_parameter_is_named_when_unreadable() {
    let mut req = request(&["a.tif"]);
    req.xleft = "1.5".to_string();
    assert_eq!(rejection_message(req), "xleft must be an unsigned integer.");
    let mut req = request(&["a.tif"]);
    req.ydown = "-2".to_string();
    assert_eq!(rejection_message(req), "ydown must be an unsigned integer.");
    let mut req = request(&["a.tif"]);
    req.xdim = "wide".to_string();
    req.ydim = "500".to_string();
    assert_eq!(rejection_message(req), "xdim must be an unsigned integer.");
    let mut req = request(&["a.tif"]);
    req.xdim = "500".to_string();
    req.ydim = String::new();
    assert_eq!(rejection_message(req), "ydim must be an unsigned integer.");
    let mut req = request(&["a.tif"]);
    req.xdim = "500".to_string();
    req.ydim = "400".to_string();
    let (run, _) = PipelineRun::start(req, false);
    assert!(!run.is_finished());
}

#[test]
fn failing_glare_analysis_fails_the_run() {
    let (result, trace) = drive(request(&["a.tif"]), false, &HashMap::new(), &HashMap::new(), Some("evalglare"));
    let e = result.unwrap_err();
    assert_eq!(e.kind, ErrorKind::ToolInvocation(ToolFailure::ExitStatus));
    assert_eq!(e.describe(), "PIPELINE ERROR: command 'evalglare' failed.");
    assert_eq!(programs(&trace), vec!["hdrgen", "ra_xyze", "pcompos", "evalglare"]);
}

#[test]
fn batch_with_an_empty_directory_writes_nothing() {
    let mut dirs = HashMap::new();
    dirs.insert("/in/s1".to_string(), vec!["/in/s1/a.tif".to_string(), "/in/s1/notes.txt".to_string()]);
    dirs.insert("/in/s2".to_string(), vec!["/in/s2/readme.md".to_string()]);
    dirs.insert("/in/s3".to_string(), vec!["/in/s3/c.tif".to_string()]);
    let (result, trace) = drive(request(&["/in/s1", "/in/s2", "/in/s3"]), true, &dirs, &HashMap::new(), None);
    let e = result.unwrap_err();
    assert_eq!(e.kind, ErrorKind::Validation);
    assert_eq!(e.describe(), "All directories must contain at least one LDR image: /in/s2");
    assert!(trace.calls.is_empty());
    assert!(trace.copies.is_empty());
    assert!(trace.progress.is_empty());
    assert_eq!(trace.listed, vec!["/in/s1".to_string(), "/in/s2".to_string()]);
}

#[test]
fn batch_processes_every_directory_in_order() {
    let mut dirs = HashMap::new();
    dirs.insert("/in/s1".to_string(), vec!["/in/s1/a.tif".to_string(), "/in/s1/b.TIF".to_string()]);
    dirs.insert("/in/s2".to_string(), vec!["/in/s2/c.tiff".to_string(), "/in/s2/x.png".to_string()]);
    let (result, trace) = drive(request(&["/in/s1", "/in/s2"]), true, &dirs, &HashMap::new(), None);
    assert_eq!(result.unwrap(), "/out");
    assert_eq!(trace.progress, vec![0, 10, 20, 30, 40, 50, 60, 70, 80, 90, 100]);
    assert_eq!(trace.copies.len(), 4);
    assert!(trace.copies[0].1.ends_with("s1_01-02-2024_13-04-05.hdr"));
    assert!(trace.copies[3].1.ends_with("s2_01-02-2024_13-04-05_fc.hdr"));
    assert_eq!(trace.calls[0].args[0], "/in/s1/a.tif");
    assert_eq!(trace.calls[0].args[1], "/in/s1/b.TIF");
    assert_eq!(trace.calls[6].args[0], "/in/s2/c.tiff");
    let tmp = std::path::Path::new("/out").join("tmp");
    assert_eq!(trace.created, vec![
        tmp.display().to_string(),
        tmp.join("s1").display().to_string(),
        tmp.join("s2").display().to_string(),
    ]);
}

#[test]
fn tool_failure_ends_the_run_without_later_stages() {
    let (result, trace) = drive(request(&["a.tif"]), false, &HashMap::new(), &HashMap::new(), Some("pcompos"));
    let e = result.unwrap_err();
    assert_eq!(e.kind, ErrorKind::ToolInvocation(ToolFailure::ExitStatus));
    assert_eq!(programs(&trace), vec!["hdrgen", "ra_xyze", "pcompos"]);
    assert!(trace.copies.is_empty());
    assert_eq!(trace.progress, vec![0, 20, 40]);
}

#[test]
fn raw_inputs_are_converted_before_the_merge() {
    let (result, trace) = drive(request(&["a.CR2", "b.cr2"]), false, &HashMap::new(), &HashMap::new(), None);
    assert!(result.is_ok());
    let tmp = std::path::Path::new("/out").join("tmp");
    let first_tiff = tmp.join("input1.tiff").display().to_string();
    let second_tiff = tmp.join("input2.tiff").display().to_string();
    assert_eq!(programs(&trace)[..3], ["dcraw_emu", "dcraw_emu", "hdrgen"]);
    assert_eq!(trace.calls[0].args[15], first_tiff);
    assert_eq!(trace.calls[0].args[16], "a.CR2");
    assert_eq!(trace.calls[1].args[15], second_tiff);
    assert_eq!(trace.calls[2].args[..2], [first_tiff, second_tiff]);
}

#[test]
fn jpeg_scene_merges_the_selected_exposures() {
    let mut files = HashMap::new();
    files.insert("dark.jpg".to_string(), jpeg_of([5, 5, 5]));
    files.insert("bright.jpg".to_string(), jpeg_of([250, 250, 250]));
    files.insert("mid.jpg".to_string(), jpeg_of([128, 128, 128]));
    let (result, trace) = drive(request(&["dark.jpg", "bright.jpg", "mid.jpg"]), false, &HashMap::new(), &files, None);
    assert!(result.is_ok());
    assert_eq!(trace.read, vec![vec!["dark.jpg".to_string(), "bright.jpg".to_string(), "mid.jpg".to_string()]]);
    assert_eq!(trace.calls[0].program, "hdrgen");
    assert_eq!(trace.calls[0].args[..3], ["bright.jpg".to_string(), "mid.jpg".to_string(), "-o".to_string()]);
}

#[test]
fn undecodable_exposure_fails_the_run() {
    let mut files = HashMap::new();
    files.insert("a.jpg".to_string(), jpeg_of([100, 100, 100]));
    files.insert("b.jpg".to_string(), b"broken".to_vec());
    let (result, trace) = drive(request(&["a.jpg", "b.jpg"]), false, &HashMap::new(), &files, None);
    let e = result.unwrap_err();
    assert_eq!(e.kind, ErrorKind::Decode);
    assert!(e.describe().starts_with("Failed to decode image b.jpg: "));
    assert!(trace.calls.is_empty());
}

#[test]
fn failed_copy_is_fatal() {
    let (mut run, mut action) = PipelineRun::start(request(&["a.tif"]), false);
    loop {
        let outcome = match &action.work {
            Work::Copy { .. } => Outcome::Failed(PipelineError::new(ErrorKind::Filesystem, "copy failed")),
            Work::ReadClock(_) => Outcome::Time("01-02-2024_13-04-05".to_string()),
            Work::Run(call) => hdri_pipeline::run::judge_tool_run(call, true, "v".to_string()),
            Work::Finish(_) => break,
            _ => Outcome::Done,
        };
        action = run.step(outcome);
    }
    match action.work {
        Work::Finish(Err(e)) => assert_eq!(e.kind, ErrorKind::Filesystem),
        _ => panic!("expected the copy failure"),
    }
}
