use hdri_pipeline::errors::{ErrorKind, ToolFailure};
use hdri_pipeline::run::{judge_tool_run, output_file_names, progress_percent, stage_call, Outcome, SceneParams};
use hdri_pipeline::stages::{stage_plan, CalibrationFiles, Stage};
use hdri_pipeline::tools::{
    converted_image_path, crop, display_hdr_img, evalglare, falsecolor, header_editing,
    merge_exposures, photometric_adjustment, read_header, ConfigSettings, LuminanceArgs,
    OutputSink, ToolLocation,
};
use hdri_pipeline::exposure::FisheyeGeometry;

fn cal(projection: &str, vignetting: &str, nd: &str, photometric: &str) -> CalibrationFiles {
    CalibrationFiles {
        fisheye_correction_cal: projection.to_string(),
        vignetting_correction_cal: vignetting.to_string(),
        neutral_density_cal: nd.to_string(),
        photometric_adjustment_cal: photometric.to_string(),
    }
}

fn settings() -> ConfigSettings {
    ConfigSettings {
        radiance_path: "/rad".to_string(),
        hdrgen_path: String::new(),
        dcraw_emu_path: "/dc".to_string(),
        output_path: "/out".to_string(),
        temp_path: "/out/tmp".to_string(),
    }
}

fn strings(list: &[&str]) -> Vec<String> {
    list.iter().map(|s| s.to_string()).collect()
}

fn calibration_stages(plan: &[Stage]) -> Vec<Stage> {
    plan.iter()
        .copied()
        .filter(|s| {
            matches!(s, Stage::Projection | Stage::Vignetting | Stage::NeutralDensity | Stage::Photometric)
        })
        .collect()
}

#[test]
fn resize_runs_only_above_one_thousand() {
    let none = cal("", "", "", "");
    assert!(!stage_plan(999, &none).contains(&Stage::Resize));
    assert!(!stage_plan(1000, &none).contains(&Stage::Resize));
    assert!(stage_plan(1001, &none).contains(&Stage::Resize));
    assert_eq!(
        stage_plan(1001, &none),
        vec![
            Stage::Merge,
            Stage::NullifyExposure,
            Stage::Crop,
            Stage::Resize,
            Stage::Evalglare,
            Stage::HeaderEdit,
            Stage::Falsecolor,
        ]
    );
}

#[test]
fn calibration_stages_keep_fixed_order() {
    let all = stage_plan(800, &cal("p.cal", "v.cal", "n.cal", "f.cal"));
    assert_eq!(
        calibration_stages(&all),
        vec![Stage::Projection, Stage::Vignetting, Stage::NeutralDensity, Stage::Photometric]
    );
    let some = stage_plan(800, &cal("", "v.cal", "", "f.cal"));
    assert_eq!(calibration_stages(&some), vec![Stage::Vignetting, Stage::Photometric]);
    let other = stage_plan(2000, &cal("p.cal", "", "n.cal", ""));
    assert_eq!(
        other,
        vec![
            Stage::Merge,
            Stage::NullifyExposure,
            Stage::Crop,
            Stage::Resize,
            Stage::Projection,
            Stage::NeutralDensity,
            Stage::Evalglare,
            Stage::HeaderEdit,
            Stage::Falsecolor,
        ]
    );
}

#[test]
fn progress_of_five_steps() {
    let values: Vec<u64> = (0..=5).map(|k| progress_percent(k, 5)).collect();
    assert_eq!(values, vec![0, 20, 40, 60, 80, 100]);
    assert_eq!(progress_percent(1, 3), 33);
    assert_eq!(progress_percent(1, 8), 13);
    assert_eq!(progress_percent(7, 15), 47);
}

#[test]
fn merge_call_lists_inputs_and_response() {
    let call = merge_exposures(&settings(), &strings(&["a.jpg", "b.jpg"]), &"cam.rsp".to_string(), &"/t/m.hdr".to_string());
    assert!(matches!(call.location, ToolLocation::Bundled));
    assert_eq!(call.program, "hdrgen");
    assert_eq!(call.args, strings(&["a.jpg", "b.jpg", "-o", "/t/m.hdr", "-r", "cam.rsp", "-a", "-e", "-f", "-g", "-F"]));
    let plain = merge_exposures(&settings(), &strings(&["a.jpg"]), &String::new(), &"/t/m.hdr".to_string());
    assert_eq!(plain.args, strings(&["a.jpg", "-o", "/t/m.hdr", "-a", "-e", "-f", "-g", "-F"]));
}

#[test]
fn crop_call_offsets_the_square() {
    let call = crop(&settings(), &"in.hdr".to_string(), &"out.hdr".to_string(), &"1200".to_string(), &"30".to_string(), &"40".to_string());
    assert_eq!(call.program, "pcompos");
    assert_eq!(call.args, strings(&["-x", "1200", "-y", "1200", "in.hdr", "-30", "-40"]));
    assert!(matches!(call.stdout, OutputSink::File(ref f) if f == "out.hdr"));
    assert!(matches!(call.location, ToolLocation::Directory(ref d) if d == "/rad"));
}

#[test]
fn header_call_records_view_and_glare() {
    let call = header_editing(&settings(), &"in.hdr".to_string(), &"out.hdr".to_string(), &"180".to_string(), &"170".to_string(), &"0.42".to_string());
    assert_eq!(call.program, "getinfo");
    assert_eq!(call.args, strings(&["-a", "VIEW= -vta -vv 180 -vh 170", "-a", "EVALGLARE= 0.42"]));
    assert_eq!(call.stdin_file, Some("in.hdr".to_string()));
}

#[test]
fn glare_call_captures_its_report() {
    let call = evalglare(&settings(), &"x.hdr".to_string(), &"180".to_string(), &"180".to_string());
    assert_eq!(call.args, strings(&["-vta", "-vv", "180", "-vh", "180", "-V", "x.hdr"]));
    assert!(matches!(call.stdout, OutputSink::Capture));
}

#[test]
fn falsecolor_call_extends_the_search_path() {
    let lum = LuminanceArgs {
        scale_limit: "5000".to_string(),
        scale_label: "cd/m2".to_string(),
        scale_levels: "10".to_string(),
        legend_dimensions: "100 200".to_string(),
    };
    let call = falsecolor(&settings(), &"h.hdr".to_string(), &"fc.hdr".to_string(), &lum);
    assert_eq!(call.args, strings(&["-s", "5000", "-l", "cd/m2", "-n", "10", "-e -lw/-lh", "100 200", "-i", "h.hdr"]));
    assert_eq!(call.search_dir, Some("/rad".to_string()));
}

#[test]
fn photometric_call_keeps_the_header() {
    let call = photometric_adjustment(&settings(), &"i.hdr".to_string(), &"o.hdr".to_string(), &"cf.cal".to_string());
    assert_eq!(call.program, "pcomb");
    assert_eq!(call.args, strings(&["-h", "-f", "cf.cal", "i.hdr"]));
}

#[test]
fn viewer_and_header_reader_calls() {
    let view = display_hdr_img(&"/rad".to_string(), &"img.hdr".to_string());
    assert_eq!(view.program, "ximage");
    assert_eq!(view.args, strings(&["-g", "2.2", "-e", "auto", "img.hdr"]));
    let read = read_header(&"img.hdr".to_string(), &"/rad".to_string());
    assert_eq!(read.program, "getinfo");
    assert_eq!(read.args, strings(&["img.hdr"]));
    assert!(matches!(read.stdout, OutputSink::Capture));
}

#[test]
fn converted_inputs_are_numbered() {
    let expected = std::path::Path::new("/out/tmp").join("input12.tiff");
    assert_eq!(converted_image_path(&"/out/tmp".to_string(), 12), expected.display().to_string());
}

#[test]
fn stage_call_reads_the_given_artifact() {
    let params = SceneParams {
        response_function: String::new(),
        calibration: cal("", "", "", ""),
        geometry: FisheyeGeometry { diameter: 1000, xleft: 10, ydown: 20 },
        diameter: "1000".to_string(),
        xleft: "10".to_string(),
        ydown: "20".to_string(),
        xdim: "500".to_string(),
        ydim: "500".to_string(),
        vertical_angle: "180".to_string(),
        horizontal_angle: "180".to_string(),
        luminance: LuminanceArgs {
            scale_limit: "1".to_string(),
            scale_label: "l".to_string(),
            scale_levels: "2".to_string(),
            legend_dimensions: "3".to_string(),
        },
    };
    let call = stage_call(&settings(), &params, Stage::Resize, &"/out/tmp/crop.hdr".to_string(), &Vec::new(), &String::new());
    assert_eq!(call.program, "pfilt");
    assert_eq!(call.args, strings(&["-1", "-x", "500", "-y", "500", "/out/tmp/crop.hdr"]));
    let out = std::path::Path::new("/out/tmp").join("resize.hdr").display().to_string();
    assert!(matches!(call.stdout, OutputSink::File(ref f) if *f == out));
}

#[test]
fn tool_exit_status_decides_the_outcome() {
    let glare = evalglare(&settings(), &"x.hdr".to_string(), &"180".to_string(), &"180".to_string());
    assert!(matches!(judge_tool_run(&glare, true, "dgp 0.3".to_string()), Outcome::Captured(ref t) if t == "dgp 0.3"));
    // A report printed before a failing exit does not count.
    match judge_tool_run(&glare, false, "dgp 0.3".to_string()) {
        Outcome::Failed(e) => {
            assert_eq!(e.kind, ErrorKind::ToolInvocation(ToolFailure::ExitStatus));
            assert_eq!(e.describe(), "PIPELINE ERROR: command 'evalglare' failed.");
        },
        _ => panic!("expected a failure"),
    }
    let c = crop(&settings(), &"i".to_string(), &"o".to_string(), &"1".to_string(), &"2".to_string(), &"3".to_string());
    assert!(matches!(judge_tool_run(&c, true, String::new()), Outcome::Done));
    match judge_tool_run(&c, false, String::new()) {
        Outcome::Failed(e) => {
            assert_eq!(e.kind, ErrorKind::ToolInvocation(ToolFailure::ExitStatus));
            assert_eq!(e.describe(), "PIPELINE ERROR: command 'pcompos' failed.");
        },
        _ => panic!("expected a failure"),
    }
}

#[test]
fn output_names_follow_the_mode() {
    let (img, map) = output_file_names(Some("scene1"), "01-02-2024_03-04-05");
    assert_eq!(img, "scene1_01-02-2024_03-04-05.hdr");
    assert_eq!(map, "scene1_01-02-2024_03-04-05_fc.hdr");
    let (img, map) = output_file_names(None, "01-02-2024_03-04-05");
    assert_eq!(img, "01-02-2024_03-04-05.hdr");
    assert_eq!(map, "01-02-2024_03-04-05_fc.hdr");
}
