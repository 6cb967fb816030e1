//! A run over one scene or a batch of scenes, as a sequence of steps: each step takes the
//! outcome of the last action and decides the next one, which the caller carries out.
use vstd::prelude::*;
use vstd::string::StringExecFns;

use crate::errors::{ErrorKind, PipelineError, ToolFailure};
use crate::exposure::{
    all_decode, candidate_stats, decoded_image, filter_images, fisheye_mask, is_brightness_order,
    names_first_undecodable,
    selected_paths, FisheyeGeometry,
};
use crate::formats::{is_jpeg, is_jpeg_path, is_raw, is_raw_path, is_supported_format, is_supported_path};
use crate::stages::{
    lemma_five_major_steps, majors_before, 
    counts_for_progress, is_major_step, output_name, stage_output_name, stage_plan,
    stage_plan_of, CalibrationFiles, Stage,
};
use crate::text::{
    concat, concat3, file_name_of, is_empty_text, join_path, joined_path, parse_u32, parsed_u32,
    path_file_name,
};
use crate::tools::{
    convert_to_tiff, convert_to_tiff_view, converted_image_path, converted_name, crop, crop_view, evalglare, evalglare_view, falsecolor,
    falsecolor_view, header_editing, header_editing_view, merge_exposures,
    merge_exposures_view, neutral_density, neutral_density_view, nullify_exposure_value,
    nullify_exposure_value_view, photometric_adjustment, photometric_adjustment_view,
    projection_adjustment, projection_adjustment_view, resize, resize_view, texts,
    vignetting_effect_correction, vignetting_effect_correction_view, ConfigSettings,
    LuminanceArgs, OutputSink, ToolCall, ToolCallView,
};

verus! {

/// Percentage of a run done after `current` of `total` major steps, rounded half up.
pub open spec fn percent(current: int, total: int) -> int {
    (200 * current + total) / (2 * total)
}

/// Percentage of a run done after `current` of `total` major steps, rounded half up.
pub fn progress_percent(current: u64, total: u64) -> (r: u64)
    requires
        0 < total <= u32::MAX,
        current <= total,
    ensures
        r == percent(current as int, total as int),
{
    (200 * current + total) / (2 * total)
}

/// More steps done never shows less progress.
pub proof fn lemma_percent_monotone(a: int, b: int, total: int)
    requires
        0 <= a <= b,
        0 < total,
    ensures
        percent(a, total) <= percent(b, total),
{
    vstd::arithmetic::div_mod::lemma_div_is_ordered(200 * a + total, 200 * b + total, 2 * total);
}

/// A run of one scene reports 0, 20, 40, 60, 80 and 100 percent as its five major steps
/// complete.
pub proof fn lemma_single_scene_progress()
    ensures
        Seq::new(6, |k: int| percent(k, 5)) == seq![0int, 20, 40, 60, 80, 100],
{
    assert(percent(0, 5) == 0) by (nonlinear_arith);
    assert(percent(1, 5) == 20) by (nonlinear_arith);
    assert(percent(2, 5) == 40) by (nonlinear_arith);
    assert(percent(3, 5) == 60) by (nonlinear_arith);
    assert(percent(4, 5) == 80) by (nonlinear_arith);
    assert(percent(5, 5) == 100) by (nonlinear_arith);
    assert(Seq::new(6, |k: int| percent(k, 5)) =~= seq![0int, 20, 40, 60, 80, 100]);
}

/// What a run is asked to do.
#[derive(Clone, Debug)]
pub struct PipelineRequest {
    pub radiance_path: String,
    pub hdrgen_path: String,
    pub dcraw_emu_path: String,
    pub output_path: String,
    /// Image files of one scene, or directories holding one scene each.
    pub input_images: Vec<String>,
    pub response_function: String,
    pub fisheye_correction_cal: String,
    pub vignetting_correction_cal: String,
    pub photometric_adjustment_cal: String,
    pub neutral_density_cal: String,
    pub diameter: String,
    pub xleft: String,
    pub ydown: String,
    pub xdim: String,
    pub ydim: String,
    pub vertical_angle: String,
    pub horizontal_angle: String,
    pub scale_limit: String,
    pub scale_label: String,
    pub scale_levels: String,
    pub legend_dimensions: String,
}

/// The settings every scene of a run shares.
#[derive(Clone, Debug)]
pub struct SceneParams {
    pub response_function: String,
    pub calibration: CalibrationFiles,
    pub geometry: FisheyeGeometry,
    pub diameter: String,
    pub xleft: String,
    pub ydown: String,
    pub xdim: String,
    pub ydim: String,
    pub vertical_angle: String,
    pub horizontal_angle: String,
    pub luminance: LuminanceArgs,
}

/// What the caller reports after carrying out an action.
#[derive(Clone, Debug)]
pub enum Outcome {
    /// The action succeeded.
    Done,
    /// The entries of the listed directory.
    Listing(Vec<String>),
    /// The bytes of the files that were asked for, in order.
    Contents(Vec<Vec<u8>>),
    /// The captured output of a tool.
    Captured(String),
    /// The local date and time, written with the pattern that was asked for.
    Time(String),
    /// The action failed.
    Failed(PipelineError),
}

/// Work for the caller to carry out.
#[derive(Debug)]
pub enum Work {
    CreateDir(String),
    ListDir(String),
    ReadFiles(Vec<String>),
    Run(ToolCall),
    Copy { from: String, to: String },
    /// Read the local date and time and write it with this strftime pattern.
    ReadClock(String),
    /// The run is over, with this result.
    Finish(Result<String, PipelineError>),
}

/// The next action: a progress percentage to report first, if any, and the work.
#[derive(Debug)]
pub struct Action {
    pub progress: Option<u64>,
    pub work: Work,
}

/// What the current scene is waiting for.
#[derive(Clone, Copy, Debug, PartialEq, Eq, Structural)]
pub enum Task {
    /// The conversion of raw input number `k` (from 0) to TIFF.
    Convert(usize),
    /// The bytes of the JPEG candidates.
    ReadExposures,
    /// Stage number `k` of the plan.
    RunStage(usize),
    /// The local time that names the outputs.
    ReadClock,
    /// The copy of the final HDR image.
    CopyImage,
    /// The copy of the luminance map.
    CopyMap,
}

/// Where a run stands.
#[derive(Clone, Copy, Debug, PartialEq, Eq, Structural)]
pub enum Phase {
    /// Creating the working directory.
    CreatingTemp,
    /// Creating the working directory of input directory `i`.
    CreatingSceneDir(usize),
    /// Listing input directory `i`.
    ListingSceneDir(usize),
    /// Processing scene `s`.
    Scene(usize, Task),
    Finished,
}

/// The state of a run between two actions.
#[derive(Clone, Debug)]
pub struct PipelineRun {
    pub settings: ConfigSettings,
    pub params: SceneParams,
    /// Whether each input is a directory holding one scene.
    pub batch: bool,
    pub inputs: Vec<String>,
    /// The image files of each scene found so far.
    pub scenes: Vec<Vec<String>>,
    pub plan: Vec<Stage>,
    pub phase: Phase,
    pub steps_done: u64,
    pub total_steps: u64,
    /// The images the merge takes.
    pub merge_inputs: Vec<String>,
    /// The image the running stage reads.
    pub artifact: String,
    /// The glare value of the current scene.
    pub glare: String,
    /// Names of the current scene's final images in the output directory.
    pub image_name: String,
    pub map_name: String,
}

/// The image a stage reads: the last image written before it. The glare analysis writes no
/// image, so the stage after it reads what the analysis read.
pub open spec fn input_of(temp: Seq<char>, plan: Seq<Stage>, k: int) -> Seq<char>
    decreases k,
{
    if k <= 0 {
        Seq::empty()
    } else if plan[k - 1] == Stage::Evalglare {
        input_of(temp, plan, k - 1)
    } else {
        joined_path(temp, stage_output_name(plan[k - 1]))
    }
}

/// The call that runs `stage` of a scene whose working directory is `settings.temp_path`.
pub open spec fn stage_call_view(
    settings: ConfigSettings,
    params: SceneParams,
    stage: Stage,
    input: Seq<char>,
    merge_inputs: Seq<Seq<char>>,
    glare: Seq<char>,
) -> ToolCallView {
    let out = joined_path(settings.temp_path@, stage_output_name(stage));
    match stage {
        Stage::Merge => merge_exposures_view(settings, merge_inputs, params.response_function@, out),
        Stage::NullifyExposure => nullify_exposure_value_view(settings, input, out),
        Stage::Crop => crop_view(
            settings,
            input,
            out,
            params.diameter@,
            params.xleft@,
            params.ydown@,
        ),
        Stage::Resize => resize_view(settings, input, out, params.xdim@, params.ydim@),
        Stage::Projection => projection_adjustment_view(
            settings,
            input,
            out,
            params.calibration.fisheye_correction_cal@,
        ),
        Stage::Vignetting => vignetting_effect_correction_view(
            settings,
            input,
            out,
            params.calibration.vignetting_correction_cal@,
        ),
        Stage::NeutralDensity => neutral_density_view(
            settings,
            input,
            out,
            params.calibration.neutral_density_cal@,
        ),
        Stage::Photometric => photometric_adjustment_view(
            settings,
            input,
            out,
            params.calibration.photometric_adjustment_cal@,
        ),
        Stage::Evalglare => evalglare_view(
            settings,
            input,
            params.vertical_angle@,
            params.horizontal_angle@,
        ),
        Stage::HeaderEdit => header_editing_view(
            settings,
            input,
            out,
            params.vertical_angle@,
            params.horizontal_angle@,
            glare,
        ),
        Stage::Falsecolor => falsecolor_view(settings, input, out, params.luminance),
    }
}

/// The call that runs `stage` on the image `input` (the merge takes `merge_inputs`, the
/// header edit records `glare`).
pub fn stage_call(
    settings: &ConfigSettings,
    params: &SceneParams,
    stage: Stage,
    input: &String,
    merge_inputs: &Vec<String>,
    glare: &String,
) -> (r: ToolCall)
    ensures
        r@ == stage_call_view(*settings, *params, stage, input@, texts(merge_inputs@), glare@),
{
    let out = join_path(settings.temp_path.as_str(), output_name(stage));
    match stage {
        Stage::Merge => merge_exposures(settings, merge_inputs, &params.response_function, &out),
        Stage::NullifyExposure => nullify_exposure_value(settings, input, &out),
        Stage::Crop => crop(settings, input, &out, &params.diameter, &params.xleft, &params.ydown),
        Stage::Resize => resize(settings, input, &out, &params.xdim, &params.ydim),
        Stage::Projection => projection_adjustment(
            settings,
            input,
            &out,
            &params.calibration.fisheye_correction_cal,
        ),
        Stage::Vignetting => vignetting_effect_correction(
            settings,
            input,
            &out,
            &params.calibration.vignetting_correction_cal,
        ),
        Stage::NeutralDensity => neutral_density(
            settings,
            input,
            &out,
            &params.calibration.neutral_density_cal,
        ),
        Stage::Photometric => photometric_adjustment(
            settings,
            input,
            &out,
            &params.calibration.photometric_adjustment_cal,
        ),
        Stage::Evalglare => evalglare(settings, input, &params.vertical_angle, &params.horizontal_angle),
        Stage::HeaderEdit => header_editing(
            settings,
            input,
            &out,
            &params.vertical_angle,
            &params.horizontal_angle,
            glare,
        ),
        Stage::Falsecolor => falsecolor(settings, input, &out, &params.luminance),
    }
}

/// Names of a scene's two final images in the output directory: `<base>_<time>.hdr` and
/// `<base>_<time>_fc.hdr` for a scene read from directory `base`, `<time>.hdr` and
/// `<time>_fc.hdr` for the single scene.
pub open spec fn output_names(base: Option<Seq<char>>, timestamp: Seq<char>) -> (Seq<char>, Seq<char>) {
    let stem = match base {
        Some(b) => b + "_"@ + timestamp,
        None => timestamp,
    };
    (stem + ".hdr"@, stem + "_fc.hdr"@)
}

/// Names of a scene's two final images in the output directory.
pub fn output_file_names(base: Option<&str>, timestamp: &str) -> (r: (String, String))
    ensures
        (r.0@, r.1@) == output_names(
            match base {
                Some(b) => Some(b@),
                None => None,
            },
            timestamp@,
        ),
{
    let stem = match base {
        Some(b) => concat3(b, "_", timestamp),
        None => String::from_str(timestamp),
    };
    (concat(stem.as_str(), ".hdr"), concat(stem.as_str(), "_fc.hdr"))
}

/// How a tool's run ends: a non-zero exit status is a failure; on success, a tool whose output
/// is captured hands back what it printed.
pub fn judge_tool_run(call: &ToolCall, exit_success: bool, captured: String) -> (r: Outcome)
    ensures
        !exit_success ==> (r matches Outcome::Failed(e) && e.kind == ErrorKind::ToolInvocation(
            ToolFailure::ExitStatus,
        ) && e.message@ == "PIPELINE ERROR: command '"@ + call.program@ + "' failed."@),
        exit_success && call.stdout is Capture ==> (r matches Outcome::Captured(t) && t@
            == captured@),
        exit_success && !(call.stdout is Capture) ==> r is Done,
{
    if !exit_success {
        let message = concat3("PIPELINE ERROR: command '", call.program.as_str(), "' failed.");
        return Outcome::Failed(
            PipelineError { kind: ErrorKind::ToolInvocation(ToolFailure::ExitStatus), message },
        );
    }
    match call.stdout {
        OutputSink::Capture => Outcome::Captured(captured),
        _ => Outcome::Done,
    }
}

/// Whether a run stopped at once, with an error of `kind`.
pub open spec fn fails_at_once(run: PipelineRun, action: Action, kind: ErrorKind) -> bool {
    &&& run.phase is Finished
    &&& action.progress is None
    &&& action.work matches Work::Finish(Err(e)) && e.kind == kind
}

/// The state a run starts in: the request's settings, with a 1000 by 1000 target size when
/// none is given and 180 degree view angles when they are not given.
pub open spec fn starts_from(request: PipelineRequest, first_is_directory: bool, run: PipelineRun) -> bool {
    &&& run.settings.radiance_path == request.radiance_path
    &&& run.settings.hdrgen_path == request.hdrgen_path
    &&& run.settings.dcraw_emu_path == request.dcraw_emu_path
    &&& run.settings.output_path == request.output_path
    &&& run.settings.temp_path@ == joined_path(request.output_path@, "tmp"@)
    &&& run.params.response_function == request.response_function
    &&& run.params.calibration.fisheye_correction_cal == request.fisheye_correction_cal
    &&& run.params.calibration.vignetting_correction_cal == request.vignetting_correction_cal
    &&& run.params.calibration.neutral_density_cal == request.neutral_density_cal
    &&& run.params.calibration.photometric_adjustment_cal == request.photometric_adjustment_cal
    &&& Some(run.params.geometry.diameter) == parsed_u32(request.diameter@)
    &&& Some(run.params.geometry.xleft) == parsed_u32(request.xleft@)
    &&& Some(run.params.geometry.ydown) == parsed_u32(request.ydown@)
    &&& run.params.diameter == request.diameter
    &&& run.params.xleft == request.xleft
    &&& run.params.ydown == request.ydown
    &&& run.params.xdim@ == (if request.xdim@.len() == 0 {
        "1000"@
    } else {
        request.xdim@
    })
    &&& run.params.ydim@ == (if request.xdim@.len() == 0 {
        "1000"@
    } else {
        request.ydim@
    })
    &&& run.params.vertical_angle@ == (if request.vertical_angle@.len() == 0 {
        "180"@
    } else {
        request.vertical_angle@
    })
    &&& run.params.horizontal_angle@ == (if request.horizontal_angle@.len() == 0 {
        "180"@
    } else {
        request.horizontal_angle@
    })
    &&& run.params.luminance.scale_limit == request.scale_limit
    &&& run.params.luminance.scale_label == request.scale_label
    &&& run.params.luminance.scale_levels == request.scale_levels
    &&& run.params.luminance.legend_dimensions == request.legend_dimensions
    &&& run.batch == first_is_directory
    &&& run.inputs == request.input_images
    &&& run.steps_done == 0
    &&& (!first_is_directory ==> run.scenes@.len() == 1 && run.scenes@[0]@ == request.input_images@)
}

/// Why a request is rejected before any work, if it is: the first problem found, in the order
/// no input, an unsupported file (single scene), then each numeric parameter that does not read
/// as an unsigned integer (the target size only when it is given), then too many inputs.
pub open spec fn rejection(request: PipelineRequest, first_is_directory: bool) -> Option<Seq<char>> {
    if request.input_images@.len() == 0 {
        Some("No input images were provided."@)
    } else if !first_is_directory && !all_supported(request.input_images@) {
        Some("Unsupported image format."@)
    } else if parsed_u32(request.diameter@) is None {
        Some("The diameter must be an unsigned integer."@)
    } else if parsed_u32(request.xleft@) is None {
        Some("xleft must be an unsigned integer."@)
    } else if parsed_u32(request.ydown@) is None {
        Some("ydown must be an unsigned integer."@)
    } else if request.xdim@.len() > 0 && parsed_u32(request.xdim@) is None {
        Some("xdim must be an unsigned integer."@)
    } else if request.xdim@.len() > 0 && parsed_u32(request.ydim@) is None {
        Some("ydim must be an unsigned integer."@)
    } else if request.input_images@.len() >= 0x1000_0000 {
        Some("Too many inputs."@)
    } else {
        None
    }
}

/// Whether all entries of a single-scene request are supported image files.
pub open spec fn all_supported(paths: Seq<String>) -> bool {
    forall|i: int| 0 <= i < paths.len() ==> is_supported_path(#[trigger] paths[i]@)
}

/// The entries of a listing that are supported image files, in order.
pub open spec fn supported_entries(entries: Seq<String>) -> Seq<String> {
    entries.filter(|e: String| is_supported_path(e@))
}

fn finish_with(kind: ErrorKind, message: &str) -> (a: Action)
    ensures
        a.progress is None,
        a.work matches Work::Finish(Err(e)) && e.kind == kind && e.message@ == message@,
{
    Action { progress: None, work: Work::Finish(Err(PipelineError::new(kind, message))) }
}

fn text_or_default(s: &String, default: &str) -> (r: String)
    ensures
        r@ == (if s@.len() == 0 {
            default@
        } else {
            s@
        }),
{
    if is_empty_text(s.as_str()) {
        String::from_str(default)
    } else {
        s.clone()
    }
}

impl PipelineRun {
    /// The number of scenes of the run.
    pub open spec fn scene_count(&self) -> int {
        if self.batch {
            self.inputs@.len() as int
        } else {
            1
        }
    }

    /// What holds of a run in every phase.
    pub open spec fn wf_common(&self) -> bool {
        &&& 0 < self.inputs@.len() < 0x1000_0000
        &&& self.total_steps == 5 * self.scene_count()
        &&& self.steps_done <= self.total_steps
        &&& self.scenes@.len() <= self.scene_count()
        &&& !self.batch ==> self.scenes@.len() == 1
        &&& forall|i: int| 0 <= i < self.scenes@.len() ==> (#[trigger] self.scenes@[i])@.len() > 0
    }

    /// What holds of a run between two actions.
    pub open spec fn wf(&self) -> bool {
        &&& self.wf_common()
        &&& (!(self.phase is Scene) && !(self.phase is Finished) ==> self.steps_done == 0)
        &&& match self.phase {
            Phase::CreatingTemp => self.batch ==> self.scenes@.len() == 0,
            Phase::CreatingSceneDir(i) => self.batch && i < self.inputs@.len() && self.scenes@.len()
                == i,
            Phase::ListingSceneDir(i) => self.batch && i < self.inputs@.len() && self.scenes@.len()
                == i,
            Phase::Scene(s, task) => {
                &&& s < self.scene_count()
                &&& self.scenes@.len() == self.scene_count()
                &&& self.plan@ == stage_plan_of(self.params.geometry.diameter, self.params.calibration@)
                &&& task matches Task::RunStage(k) ==> k < self.plan@.len() && self.artifact@
                    == input_of(self.settings.temp_path@, self.plan@, k as int)
                &&& task matches Task::Convert(k) ==> k < self.scenes@[s as int]@.len()
                &&& task is ReadExposures ==> is_jpeg_path(self.scenes@[s as int]@[0]@)
                &&& (task is Convert || task is ReadExposures) ==> self.artifact@ == Seq::<char>::empty()
            },
            Phase::Finished => true,
        }
    }

    pub open spec fn finished(&self) -> bool {
        self.phase is Finished
    }

    /// Whether the run is over.
    pub fn is_finished(&self) -> (r: bool)
        ensures
            r == self.finished(),
    {
        match self.phase {
            Phase::Finished => true,
            _ => false,
        }
    }

    /// Checks a request and starts its run. `first_is_directory` tells whether the first
    /// input is a directory, which makes each input a scene of its own.
    pub fn start(request: PipelineRequest, first_is_directory: bool) -> (r: (PipelineRun, Action))
        ensures
            rejection(request, first_is_directory) matches Some(message) ==> fails_at_once(
                r.0,
                r.1,
                ErrorKind::Validation,
            ) && (r.1.work matches Work::Finish(Err(e)) && e.message@ == message),
            rejection(request, first_is_directory) is None ==> !r.0.finished(),
            !r.0.finished() ==> starts_from(request, first_is_directory, r.0),
            !r.0.finished() ==> {
                &&& r.0.wf()
                &&& r.0.phase == Phase::CreatingTemp
                &&& r.0.batch == first_is_directory
                &&& r.0.inputs@ == request.input_images@
                &&& r.1.progress is None
                &&& r.1.work matches Work::CreateDir(d) && d@ == joined_path(
                    request.output_path@,
                    "tmp"@,
                )
            },
    {
        let n = request.input_images.len();
        let diameter = parse_u32(request.diameter.as_str());
        let xleft = parse_u32(request.xleft.as_str());
        let ydown = parse_u32(request.ydown.as_str());
        let mut unsupported = false;
        if !first_is_directory {
            let mut i: usize = 0;
            while i < n
                invariant
                    i <= n == request.input_images@.len(),
                    !unsupported ==> forall|j: int|
                        0 <= j < i ==> is_supported_path(#[trigger] request.input_images@[j]@),
                    unsupported ==> !all_supported(request.input_images@),
                decreases n - i,
            {
                if !is_supported_format(request.input_images[i].as_str()) {
                    unsupported = true;
                }
                i = i + 1;
            }
        }
        let temp_root = join_path(request.output_path.as_str(), "tmp");
        let request_xdim = request.xdim.clone();
        let request_ydim = request.ydim.clone();
        let (xdim, ydim) = if is_empty_text(request.xdim.as_str()) {
            (String::from_str("1000"), String::from_str("1000"))
        } else {
            (request.xdim.clone(), request.ydim.clone())
        };
        let run = PipelineRun {
            settings: ConfigSettings {
                radiance_path: request.radiance_path.clone(),
                hdrgen_path: request.hdrgen_path.clone(),
                dcraw_emu_path: request.dcraw_emu_path.clone(),
                output_path: request.output_path.clone(),
                temp_path: temp_root.clone(),
            },
            params: SceneParams {
                response_function: request.response_function.clone(),
                calibration: CalibrationFiles {
                    fisheye_correction_cal: request.fisheye_correction_cal.clone(),
                    vignetting_correction_cal: request.vignetting_correction_cal.clone(),
                    neutral_density_cal: request.neutral_density_cal.clone(),
                    photometric_adjustment_cal: request.photometric_adjustment_cal.clone(),
                },
                geometry: FisheyeGeometry {
                    diameter: match diameter {
                        Some(d) => d,
                        None => 0,
                    },
                    xleft: match xleft {
                        Some(x) => x,
                        None => 0,
                    },
                    ydown: match ydown {
                        Some(y) => y,
                        None => 0,
                    },
                },
                diameter: request.diameter.clone(),
                xleft: request.xleft.clone(),
                ydown: request.ydown.clone(),
                xdim,
                ydim,
                vertical_angle: text_or_default(&request.vertical_angle, "180"),
                horizontal_angle: text_or_default(&request.horizontal_angle, "180"),
                luminance: LuminanceArgs {
                    scale_limit: request.scale_limit.clone(),
                    scale_label: request.scale_label.clone(),
                    scale_levels: request.scale_levels.clone(),
                    legend_dimensions: request.legend_dimensions.clone(),
                },
            },
            batch: first_is_directory,
            inputs: request.input_images,
            scenes: Vec::new(),
            plan: Vec::new(),
            phase: Phase::Finished,
            steps_done: 0,
            total_steps: 5,
            merge_inputs: Vec::new(),
            artifact: String::new(),
            glare: String::new(),
            image_name: String::new(),
            map_name: String::new(),
        };
        let mut run = run;
        if n == 0 {
            return (run, finish_with(ErrorKind::Validation, "No input images were provided."));
        }
        if unsupported {
            return (run, finish_with(ErrorKind::Validation, "Unsupported image format."));
        }
        if diameter.is_none() {
            return (run, finish_with(ErrorKind::Validation, "The diameter must be an unsigned integer."));
        }
        if xleft.is_none() {
            return (run, finish_with(ErrorKind::Validation, "xleft must be an unsigned integer."));
        }
        if ydown.is_none() {
            return (run, finish_with(ErrorKind::Validation, "ydown must be an unsigned integer."));
        }
        if !is_empty_text(request_xdim.as_str()) && parse_u32(request_xdim.as_str()).is_none() {
            return (run, finish_with(ErrorKind::Validation, "xdim must be an unsigned integer."));
        }
        if !is_empty_text(request_xdim.as_str()) && parse_u32(request_ydim.as_str()).is_none() {
            return (run, finish_with(ErrorKind::Validation, "ydim must be an unsigned integer."));
        }
        if n >= 0x1000_0000 {
            return (run, finish_with(ErrorKind::Validation, "Too many inputs."));
        }
        if first_is_directory {
            run.total_steps = 5 * (n as u64);
        } else {
            run.scenes.push(copy_paths(&run.inputs));
        }
        run.phase = Phase::CreatingTemp;
        (run, Action { progress: None, work: Work::CreateDir(temp_root) })
    }
}


/// The supported image files among a directory's entries, in order.
pub fn supported_only(entries: &Vec<String>) -> (r: Vec<String>)
    ensures
        r@ == supported_entries(entries@),
{
    let mut kept: Vec<String> = Vec::new();
    let mut i: usize = 0;
    while i < entries.len()
        invariant
            i <= entries@.len(),
            kept@ == supported_entries(entries@.subrange(0, i as int)),
        decreases entries@.len() - i,
    {
        let ghost prefix = entries@.subrange(0, i + 1);
        assert(prefix.drop_last() =~= entries@.subrange(0, i as int));
        assert(prefix.last() == entries@[i as int]);
        let ghost before = kept@;
        proof {
            reveal_with_fuel(Seq::filter, 2);
        }
        if is_supported_format(entries[i].as_str()) {
            kept.push(entries[i].clone());
        }
        assert(supported_entries(prefix) == (if is_supported_path(entries@[i as int]@) {
            before.push(entries@[i as int])
        } else {
            before
        }));
        i = i + 1;
        assert(kept@ =~= supported_entries(entries@.subrange(0, i as int)));
    }
    assert(entries@.subrange(0, i as int) =~= entries@);
    kept
}

/// The message for an input directory that holds no supported image: it names the directory.
pub open spec fn empty_directory_message(dir: Seq<char>) -> Seq<char> {
    "All directories must contain at least one LDR image: "@ + dir
}

/// Whether a listing holds no supported image file.
pub open spec fn listing_is_empty(entries: Seq<String>) -> bool {
    supported_entries(entries).len() == 0
}

/// A directory whose listing holds no supported image holds none of its entries that the
/// merge could take.
pub proof fn lemma_empty_listing_has_no_image(entries: Seq<String>)
    requires
        listing_is_empty(entries),
    ensures
        forall|j: int| 0 <= j < entries.len() ==> !is_supported_path(#[trigger] entries[j]@),
{
    assert forall|j: int| 0 <= j < entries.len() implies !is_supported_path(
        #[trigger] entries[j]@,
    ) by {
        if is_supported_path(entries[j]@) {
            entries.lemma_filter_contains(|e: String| is_supported_path(e@), j);
        }
    }
}

/// What every step keeps: the run stays well formed, progress only grows and is reported as
/// the percentage of major steps done, tool calls and copies come only while a scene is
/// processed and no scene is left for the listing of directories, a `Finish` comes exactly
/// when the run ends, and each stage runs on the image its predecessor wrote.
pub open spec fn advances(before: PipelineRun, after: PipelineRun, r: Action) -> bool {
    &&& after.wf()
    &&& after.total_steps == before.total_steps
    &&& before.steps_done <= after.steps_done
    &&& r.progress matches Some(p) ==> p == percent(after.steps_done as int, after.total_steps as int)
    &&& (r.work is Run || r.work is Copy || r.work is ReadFiles || r.work is ReadClock)
        ==> after.phase is Scene
    &&& before.phase is Scene ==> after.phase is Scene || after.phase is Finished
    &&& (r.work is Finish <==> after.finished())
    &&& after.phase matches Phase::Scene(_, Task::RunStage(k)) ==> (r.work matches Work::Run(c)
        && c@ == stage_call_view(
        after.settings,
        after.params,
        after.plan@[k as int],
        after.artifact@,
        texts(after.merge_inputs@),
        after.glare@,
    ))
}

/// The TIFFs that the first `n` raw inputs of a scene are converted to.
pub open spec fn converted_paths(temp: Seq<char>, n: int) -> Seq<Seq<char>> {
    Seq::new(n as nat, |j: int| joined_path(temp, converted_name((j + 1) as nat)))
}

/// A step leaves the request, the tool locations and the output directory as they were.
pub open spec fn keeps_request(before: PipelineRun, after: PipelineRun) -> bool {
    &&& after.settings.radiance_path == before.settings.radiance_path
    &&& after.settings.hdrgen_path == before.settings.hdrgen_path
    &&& after.settings.dcraw_emu_path == before.settings.dcraw_emu_path
    &&& after.settings.output_path == before.settings.output_path
    &&& after.params == before.params
    &&& after.batch == before.batch
    &&& after.inputs == before.inputs
    &&& after.total_steps == before.total_steps
}

/// Scene `s` has just begun: its working directory is chosen, and raw inputs go to conversion,
/// JPEG ones to be read for selection, and TIFF ones straight to the merge.
pub open spec fn scene_started(after: PipelineRun, s: int, r: Action) -> bool {
    let images = after.scenes@[s]@;
    &&& after.settings.temp_path@ == after.scene_temp_dir(s)
    &&& after.glare@ == Seq::<char>::empty()
    &&& if is_raw_path(images[0]@) {
        &&& after.phase == Phase::Scene(s as usize, Task::Convert(0))
        &&& r.work matches Work::Run(c) && c@ == convert_to_tiff_view(
            after.settings.dcraw_emu_path@,
            images[0]@,
            joined_path(after.settings.temp_path@, converted_name(1)),
        )
    } else if is_jpeg_path(images[0]@) {
        &&& after.phase == Phase::Scene(s as usize, Task::ReadExposures)
        &&& r.work matches Work::ReadFiles(f) && f@ == images
    } else {
        &&& after.phase == Phase::Scene(s as usize, Task::RunStage(0))
        &&& after.merge_inputs@ == images
    }
}

/// Names of the final images of scene `s` in the output directory, for a clock reading `ts`.
pub open spec fn scene_output_names(run: PipelineRun, s: int, ts: Seq<char>) -> (Seq<char>, Seq<char>) {
    output_names(
        if run.batch {
            Some(path_file_name(run.inputs@[s]@))
        } else {
            None
        },
        ts,
    )
}

/// What one step does, for an outcome that is not a failure.
pub open spec fn step_spec(before: PipelineRun, outcome: Outcome, after: PipelineRun, r: Action) -> bool {
    match before.phase {
        Phase::CreatingTemp => if before.batch {
            &&& after.phase == Phase::CreatingSceneDir(0)
            &&& r.progress is None
            &&& r.work matches Work::CreateDir(d) && d@ == before.scene_temp_dir(0)
        } else {
            &&& after.scenes == before.scenes
            &&& after.steps_done == before.steps_done
            &&& r.progress == Some(0u64)
            &&& scene_started(after, 0, r)
        },
        Phase::CreatingSceneDir(i) => {
            &&& after.steps_done == before.steps_done
            &&& after.phase == Phase::ListingSceneDir(i)
            &&& r.progress is None
            &&& r.work matches Work::ListDir(d) && d@ == before.inputs@[i as int]@
        },
        Phase::ListingSceneDir(i) => match outcome {
            Outcome::Listing(entries) => if listing_is_empty(entries@) {
                &&& fails_at_once(after, r, ErrorKind::Validation)
                &&& r.work matches Work::Finish(Err(e)) && e.message@ == empty_directory_message(
                    before.inputs@[i as int]@,
                )
            } else {
                &&& after.scenes@.len() == before.scenes@.len() + 1
                &&& after.scenes@.last()@ == supported_entries(entries@)
                &&& if i + 1 < before.inputs@.len() {
                    &&& after.phase == Phase::CreatingSceneDir((i + 1) as usize)
                    &&& r.work matches Work::CreateDir(d) && d@ == before.scene_temp_dir(i + 1)
                } else {
                    &&& r.progress == Some(0u64)
                    &&& scene_started(after, 0, r)
                }
            },
            _ => fails_at_once(after, r, ErrorKind::Filesystem),
        },
        Phase::Scene(s, task) => {
            &&& (!after.finished() ==> after.scenes == before.scenes)
            &&& (!(task is RunStage) ==> after.steps_done == before.steps_done)
            &&& ((task is Convert || task is ReadExposures || task is ReadClock || task is CopyImage)
                ==> r.progress is None)
            &&& match task {
                Task::Convert(k) => if k + 1 < before.scenes@[s as int]@.len() {
                    &&& after.phase == Phase::Scene(s, Task::Convert((k + 1) as usize))
                    &&& r.work matches Work::Run(c) && c@ == convert_to_tiff_view(
                        before.settings.dcraw_emu_path@,
                        before.scenes@[s as int]@[k + 1]@,
                        joined_path(before.settings.temp_path@, converted_name((k + 2) as nat)),
                    )
                } else {
                    &&& after.phase == Phase::Scene(s, Task::RunStage(0))
                    &&& texts(after.merge_inputs@) == converted_paths(
                        before.settings.temp_path@,
                        before.scenes@[s as int]@.len() as int,
                    )
                },
                Task::ReadExposures => match outcome {
                    Outcome::Contents(c) => if c@.len() != before.scenes@[s as int]@.len() {
                        fails_at_once(after, r, ErrorKind::Filesystem)
                    } else if !all_decode(c@) {
                        &&& fails_at_once(after, r, ErrorKind::Decode)
                        &&& r.work matches Work::Finish(Err(e)) && names_first_undecodable(
                            before.scenes@[s as int]@,
                            c@,
                            e.message@,
                        )
                    } else {
                        let (w0, h0, px0) = decoded_image(c@[0]@)->Some_0;
                        let stats = candidate_stats(
                            c@,
                            fisheye_mask(before.params.geometry, w0 as nat, h0 as nat),
                        );
                        &&& after.phase == Phase::Scene(s, Task::RunStage(0))
                        &&& exists|ord: Seq<usize>|
                            is_brightness_order(stats, ord) && after.merge_inputs@ == selected_paths(
                                before.scenes@[s as int]@,
                                stats,
                                ord,
                            )
                    },
                    _ => fails_at_once(after, r, ErrorKind::Filesystem),
                },
                Task::RunStage(k) => {
                    let stage = before.plan@[k as int];
                    &&& (stage == Stage::Evalglare ==> after.glare@ == match outcome {
                        Outcome::Captured(t) => t@,
                        _ => Seq::<char>::empty(),
                    })
                    &&& (stage != Stage::Evalglare ==> after.artifact@ == joined_path(
                        before.settings.temp_path@,
                        stage_output_name(stage),
                    ))
                    &&& (counts_for_progress(stage) ==> after.steps_done == (if before.steps_done
                        < before.total_steps {
                        before.steps_done + 1
                    } else {
                        before.steps_done as int
                    }) && r.progress == Some(
                        percent(after.steps_done as int, after.total_steps as int) as u64,
                    ))
                    &&& (!counts_for_progress(stage) ==> after.steps_done == before.steps_done
                        && r.progress is None)
                    &&& if k + 1 < before.plan@.len() {
                        after.phase == Phase::Scene(s, Task::RunStage((k + 1) as usize))
                    } else {
                        &&& after.phase == Phase::Scene(s, Task::ReadClock)
                        &&& r.work matches Work::ReadClock(pattern) && pattern@ == timestamp_pattern()
                    }
                },
                Task::ReadClock => match outcome {
                    Outcome::Time(ts) => {
                        &&& after.phase == Phase::Scene(s, Task::CopyImage)
                        &&& (after.image_name@, after.map_name@) == scene_output_names(
                            before,
                            s as int,
                            ts@,
                        )
                        &&& r.progress is None
                        &&& r.work matches Work::Copy { from, to } && from@ == joined_path(
                            before.settings.temp_path@,
                            "header_editing.hdr"@,
                        ) && to@ == joined_path(before.settings.output_path@, after.image_name@)
                    },
                    _ => fails_at_once(after, r, ErrorKind::Validation),
                },
                Task::CopyImage => {
                    &&& after.phase == Phase::Scene(s, Task::CopyMap)
                    &&& r.work matches Work::Copy { from, to } && from@ == joined_path(
                        before.settings.temp_path@,
                        "falsecolor_output.hdr"@,
                    ) && to@ == joined_path(before.settings.output_path@, before.map_name@)
                },
                Task::CopyMap => if s + 1 < before.scenes@.len() {
                    &&& r.progress is None
                    &&& scene_started(after, s + 1, r)
                } else {
                    &&& after.finished()
                    &&& r.progress is None
                    &&& r.work matches Work::Finish(Ok(path)) && path@ == (if before.batch {
                        before.settings.output_path@
                    } else {
                        joined_path(before.settings.output_path@, before.image_name@)
                    })
                },
            }
        },
        Phase::Finished => true,
    }
}

/// No step done shows no progress.
proof fn lemma_percent_zero(total: int)
    requires
        0 < total,
    ensures
        percent(0, total) == 0,
{
    vstd::arithmetic::div_mod::lemma_basic_div(total, 2 * total);
}

fn copy_paths(v: &Vec<String>) -> (r: Vec<String>)
    ensures
        r@ == v@,
{
    let mut out: Vec<String> = Vec::new();
    let mut k: usize = 0;
    while k < v.len()
        invariant
            k <= v@.len(),
            out@ == v@.subrange(0, k as int),
        decreases v@.len() - k,
    {
        out.push(v[k].clone());
        k = k + 1;
        assert(out@ =~= v@.subrange(0, k as int));
    }
    assert(out@ =~= v@);
    out
}

/// The pattern of the local time in the names of the outputs.
pub const TIMESTAMP_PATTERN: &'static str = "%m-%d-%Y_%H-%M-%S";

/// The pattern of the local time in the names of the outputs: month, day, year, then the hour
/// of a 24-hour clock, minutes and seconds.
pub open spec fn timestamp_pattern() -> Seq<char> {
    "%m-%d-%Y_%H-%M-%S"@
}

impl PipelineRun {
    /// The working directory of scene `s`: a sub-directory named after its input directory in
    /// batch mode, the run's working directory otherwise.
    pub open spec fn scene_temp_dir(&self, s: int) -> Seq<char> {
        let root = joined_path(self.settings.output_path@, "tmp"@);
        if self.batch {
            joined_path(root, path_file_name(self.inputs@[s]@))
        } else {
            root
        }
    }

    fn scene_temp_path(&self, s: usize) -> (r: String)
        requires
            self.batch ==> s < self.inputs@.len(),
        ensures
            r@ == self.scene_temp_dir(s as int),
    {
        let root = join_path(self.settings.output_path.as_str(), "tmp");
        if self.batch {
            let name = file_name_of(self.inputs[s].as_str());
            join_path(root.as_str(), name.as_str())
        } else {
            root
        }
    }

    fn run_stage(&mut self, s: usize, k: usize, progress: Option<u64>) -> (r: Action)
        requires
            old(self).wf_common(),
            s < old(self).scene_count(),
            old(self).scenes@.len() == old(self).scene_count(),
            old(self).plan@ == stage_plan_of(
                old(self).params.geometry.diameter,
                old(self).params.calibration@,
            ),
            k < old(self).plan@.len(),
            old(self).artifact@ == input_of(old(self).settings.temp_path@, old(self).plan@, k as int),
        ensures
            *final(self) == (PipelineRun { phase: Phase::Scene(s, Task::RunStage(k)), ..*old(self) }),
            final(self).wf(),
            r.progress == progress,
            r.work matches Work::Run(c) && c@ == stage_call_view(
                final(self).settings,
                final(self).params,
                final(self).plan@[k as int],
                final(self).artifact@,
                texts(final(self).merge_inputs@),
                final(self).glare@,
            ),
    {
        self.phase = Phase::Scene(s, Task::RunStage(k));
        let call = stage_call(
            &self.settings,
            &self.params,
            self.plan[k],
            &self.artifact,
            &self.merge_inputs,
            &self.glare,
        );
        Action { progress, work: Work::Run(call) }
    }

    fn begin_scene(&mut self, s: usize, progress: Option<u64>) -> (r: Action)
        requires
            old(self).wf_common(),
            s < old(self).scene_count(),
            old(self).scenes@.len() == old(self).scene_count(),
        ensures
            final(self).wf(),
            final(self).phase is Scene,
            final(self).steps_done == old(self).steps_done,
            final(self).total_steps == old(self).total_steps,
            final(self).batch == old(self).batch,
            final(self).inputs == old(self).inputs,
            final(self).scenes == old(self).scenes,
            r.progress == progress,
            !(r.work is Finish),
            keeps_request(*old(self), *final(self)),
            scene_started(*final(self), s as int, r),
            final(self).phase matches Phase::Scene(_, Task::RunStage(k)) ==> (r.work matches Work::Run(
                c,
            ) && c@ == stage_call_view(
                final(self).settings,
                final(self).params,
                final(self).plan@[k as int],
                final(self).artifact@,
                texts(final(self).merge_inputs@),
                final(self).glare@,
            )),
    {
        self.settings.temp_path = self.scene_temp_path(s);
        self.plan = stage_plan(self.params.geometry.diameter, &self.params.calibration);
        self.artifact = String::new();
        self.glare = String::new();
        assert(self.scenes@[s as int]@.len() > 0);
        if is_raw(self.scenes[s][0].as_str()) {
            let first = converted_image_path(&self.settings.temp_path, 1);
            let call = convert_to_tiff(&self.settings.dcraw_emu_path, &self.scenes[s][0], &first);
            self.phase = Phase::Scene(s, Task::Convert(0));
            Action { progress, work: Work::Run(call) }
        } else if is_jpeg(self.scenes[s][0].as_str()) {
            let files = copy_paths(&self.scenes[s]);
            self.phase = Phase::Scene(s, Task::ReadExposures);
            Action { progress, work: Work::ReadFiles(files) }
        } else {
            self.merge_inputs = copy_paths(&self.scenes[s]);
            self.run_stage(s, 0, progress)
        }
    }

    fn converted_inputs(&self, n: usize) -> (r: Vec<String>)
        ensures
            texts(r@) == converted_paths(self.settings.temp_path@, n as int),
    {
        let mut paths: Vec<String> = Vec::new();
        let mut i: usize = 0;
        while i < n
            invariant
                i <= n,
                texts(paths@) == converted_paths(self.settings.temp_path@, i as int),
            decreases n - i,
        {
            let next = converted_image_path(&self.settings.temp_path, (i + 1) as u64);
            let ghost before = paths@;
            assert(next@ == converted_paths(self.settings.temp_path@, i + 1)[i as int]);
            paths.push(next);
            assert(texts(paths@) =~= texts(before).push(next@));
            i = i + 1;
            assert(texts(paths@) =~= converted_paths(self.settings.temp_path@, i as int));
        }
        paths
    }

    fn stop(&mut self, error: PipelineError) -> (r: Action)
        requires
            old(self).wf_common(),
        ensures
            final(self).wf(),
            fails_at_once(*final(self), r, error.kind),
            r.work matches Work::Finish(Err(e)) && e.message@ == error.message@,
            *final(self) == (PipelineRun { phase: Phase::Finished, ..*old(self) }),
    {
        self.phase = Phase::Finished;
        Action { progress: None, work: Work::Finish(Err(error)) }
    }

    /// Takes the outcome of the last action and decides the next one. A failure ends the run
    /// at once with that failure; so does a directory with no supported image.
    pub fn step(&mut self, outcome: Outcome) -> (r: Action)
        requires
            old(self).wf(),
            !old(self).finished(),
        ensures
            step_post(*old(self), outcome, *final(self), r),
            advances(*old(self), *final(self), r),
            keeps_request(*old(self), *final(self)),
            !(outcome is Failed) ==> step_spec(*old(self), outcome, *final(self), r),
            outcome matches Outcome::Failed(e) ==> fails_at_once(*final(self), r, e.kind) && (
            r.work matches Work::Finish(Err(f)) && f.message@ == e.message@),
            old(self).phase is ListingSceneDir ==> (outcome matches Outcome::Listing(entries) ==> (
            listing_is_empty(entries@) ==> fails_at_once(*final(self), r, ErrorKind::Validation))),
    {
        proof {
            reveal(step_post);
        }
        let outcome = match outcome {
            Outcome::Failed(e) => {
                return self.stop(e);
            },
            other => other,
        };
        match self.phase {
            Phase::CreatingTemp => {
                if self.batch {
                    let dir = self.scene_temp_path(0);
                    self.phase = Phase::CreatingSceneDir(0);
                    Action { progress: None, work: Work::CreateDir(dir) }
                } else {
                    let p = progress_percent(self.steps_done, self.total_steps);
                    proof {
                        lemma_percent_zero(self.total_steps as int);
                    }
                    self.begin_scene(0, Some(p))
                }
            },
            Phase::CreatingSceneDir(i) => {
                self.phase = Phase::ListingSceneDir(i);
                Action { progress: None, work: Work::ListDir(self.inputs[i].clone()) }
            },
            Phase::ListingSceneDir(i) => self.after_listing(i, outcome),
            Phase::Scene(s, task) => match task {
                Task::Convert(k) => self.after_conversion(s, k),
                Task::ReadExposures => self.after_reading(s, outcome),
                Task::RunStage(k) => self.after_stage(s, k, outcome),
                Task::ReadClock => self.after_clock(s, outcome),
                Task::CopyImage => {
                    let from = join_path(self.settings.temp_path.as_str(), "falsecolor_output.hdr");
                    let to = join_path(self.settings.output_path.as_str(), self.map_name.as_str());
                    self.phase = Phase::Scene(s, Task::CopyMap);
                    Action { progress: None, work: Work::Copy { from, to } }
                },
                Task::CopyMap => {
                    if s + 1 < self.scenes.len() {
                        self.begin_scene(s + 1, None)
                    } else {
                        let result = if self.batch {
                            self.settings.output_path.clone()
                        } else {
                            join_path(self.settings.output_path.as_str(), self.image_name.as_str())
                        };
                        self.phase = Phase::Finished;
                        Action { progress: None, work: Work::Finish(Ok(result)) }
                    }
                },
            },
            Phase::Finished => self.stop(PipelineError::new(ErrorKind::Validation, "The run is over.")),
        }
    }

    fn after_listing(&mut self, i: usize, outcome: Outcome) -> (r: Action)
        requires
            old(self).wf(),
            old(self).phase == Phase::ListingSceneDir(i),
        ensures
            advances(*old(self), *final(self), r),
            keeps_request(*old(self), *final(self)),
            step_spec(*old(self), outcome, *final(self), r),
    {
        let entries = match outcome {
            Outcome::Listing(entries) => entries,
            _ => {
                return self.stop(
                    PipelineError::new(ErrorKind::Filesystem, "Expected a directory listing."),
                );
            },
        };
        let images = supported_only(&entries);
        if images.len() == 0 {
            let message = concat(
                "All directories must contain at least one LDR image: ",
                self.inputs[i].as_str(),
            );
            return self.stop(PipelineError { kind: ErrorKind::Validation, message });
        }
        self.scenes.push(images);
        if i + 1 < self.inputs.len() {
            let dir = self.scene_temp_path(i + 1);
            self.phase = Phase::CreatingSceneDir(i + 1);
            Action { progress: None, work: Work::CreateDir(dir) }
        } else {
            let p = progress_percent(self.steps_done, self.total_steps);
            proof {
                lemma_percent_zero(self.total_steps as int);
            }
            self.begin_scene(0, Some(p))
        }
    }

    fn after_conversion(&mut self, s: usize, k: usize) -> (r: Action)
        requires
            old(self).wf(),
            old(self).phase == Phase::Scene(s, Task::Convert(k)),
        ensures
            advances(*old(self), *final(self), r),
            keeps_request(*old(self), *final(self)),
            step_spec(*old(self), Outcome::Done, *final(self), r),
    {
        let n = self.scenes[s].len();
        if k + 1 < n {
            let out = converted_image_path(&self.settings.temp_path, (k + 2) as u64);
            let call = convert_to_tiff(&self.settings.dcraw_emu_path, &self.scenes[s][k + 1], &out);
            self.phase = Phase::Scene(s, Task::Convert(k + 1));
            Action { progress: None, work: Work::Run(call) }
        } else {
            self.merge_inputs = self.converted_inputs(n);
            self.run_stage(s, 0, None)
        }
    }

    fn after_reading(&mut self, s: usize, outcome: Outcome) -> (r: Action)
        requires
            old(self).wf(),
            old(self).phase == Phase::Scene(s, Task::ReadExposures),
        ensures
            advances(*old(self), *final(self), r),
            keeps_request(*old(self), *final(self)),
            step_spec(*old(self), outcome, *final(self), r),
    {
        let contents = match outcome {
            Outcome::Contents(c) => c,
            _ => {
                return self.stop(
                    PipelineError::new(ErrorKind::Filesystem, "Expected the bytes of the exposures."),
                );
            },
        };
        if contents.len() != self.scenes[s].len() {
            return self.stop(
                PipelineError::new(ErrorKind::Filesystem, "Could not read every exposure."),
            );
        }
        match filter_images(&self.scenes[s], &contents, self.params.geometry) {
            Ok(kept) => {
                self.merge_inputs = kept;
                self.run_stage(s, 0, None)
            },
            Err(e) => self.stop(e),
        }
    }

    fn after_stage(&mut self, s: usize, k: usize, outcome: Outcome) -> (r: Action)
        requires
            old(self).wf(),
            old(self).phase == Phase::Scene(s, Task::RunStage(k)),
        ensures
            advances(*old(self), *final(self), r),
            keeps_request(*old(self), *final(self)),
            step_spec(*old(self), outcome, *final(self), r),
    {
        let stage = self.plan[k];
        if stage == Stage::Evalglare {
            self.glare = match outcome {
                Outcome::Captured(text) => text,
                _ => String::new(),
            };
        } else {
            self.artifact = join_path(self.settings.temp_path.as_str(), output_name(stage));
        }
        let progress = if is_major_step(stage) {
            if self.steps_done < self.total_steps {
                self.steps_done = self.steps_done + 1;
            }
            Some(progress_percent(self.steps_done, self.total_steps))
        } else {
            None
        };
        if k + 1 < self.plan.len() {
            self.run_stage(s, k + 1, progress)
        } else {
            self.phase = Phase::Scene(s, Task::ReadClock);
            Action { progress, work: Work::ReadClock(String::from_str(TIMESTAMP_PATTERN)) }
        }
    }

    fn after_clock(&mut self, s: usize, outcome: Outcome) -> (r: Action)
        requires
            old(self).wf(),
            old(self).phase == Phase::Scene(s, Task::ReadClock),
        ensures
            advances(*old(self), *final(self), r),
            keeps_request(*old(self), *final(self)),
            step_spec(*old(self), outcome, *final(self), r),
    {
        match outcome {
            Outcome::Time(stamp) => self.copy_outputs(s, &stamp),
            _ => self.stop(PipelineError::new(ErrorKind::Validation, "Expected the local time.")),
        }
    }

    /// The scene's stages are done: names its outputs after the local time `stamp` and copies
    /// the first.
    fn copy_outputs(&mut self, s: usize, stamp: &String) -> (r: Action)
        requires
            old(self).wf_common(),
            old(self).phase is Scene,
            s < old(self).scene_count(),
            old(self).scenes@.len() == old(self).scene_count(),
            old(self).plan@ == stage_plan_of(
                old(self).params.geometry.diameter,
                old(self).params.calibration@,
            ),
        ensures
            *final(self) == (PipelineRun {
                phase: Phase::Scene(s, Task::CopyImage),
                image_name: final(self).image_name,
                map_name: final(self).map_name,
                ..*old(self)
            }),
            final(self).wf(),
            r.progress is None,
            (final(self).image_name@, final(self).map_name@) == scene_output_names(
                *old(self),
                s as int,
                stamp@,
            ),
            r.work matches Work::Copy { from, to } && from@ == joined_path(
                old(self).settings.temp_path@,
                "header_editing.hdr"@,
            ) && to@ == joined_path(old(self).settings.output_path@, final(self).image_name@),
    {
        let (image, map) = if self.batch {
            let base = file_name_of(self.inputs[s].as_str());
            output_file_names(Some(base.as_str()), stamp.as_str())
        } else {
            output_file_names(None, stamp.as_str())
        };
        assert((image@, map@) == scene_output_names(*old(self), s as int, stamp@));
        self.image_name = image;
        self.map_name = map;
        let from = join_path(self.settings.temp_path.as_str(), "header_editing.hdr");
        let to = join_path(self.settings.output_path.as_str(), self.image_name.as_str());
        self.phase = Phase::Scene(s, Task::CopyImage);
        Action { progress: None, work: Work::Copy { from, to } }
    }
}


/// In batch mode no tool runs, no exposure is read and no output is copied before every input
/// directory has been listed and found to hold supported images; a directory without any ends
/// the run at once (the contract of `PipelineRun::step`), so such a run writes no output.
pub proof fn lemma_work_waits_for_every_listing(before: PipelineRun, after: PipelineRun, r: Action)
    requires
        before.batch,
        advances(before, after, r),
        keeps_request(before, after),
    ensures
        r.work is Run || r.work is Copy || r.work is ReadFiles ==> {
            &&& after.scenes@.len() == before.inputs@.len()
            &&& forall|i: int| 0 <= i < after.scenes@.len() ==> (#[trigger] after.scenes@[i])@.len() > 0
        },
{
}


/// What one call of `PipelineRun::step` guarantees, from its state and outcome to the next
/// state and action.
#[verifier::opaque]
pub open spec fn step_post(before: PipelineRun, outcome: Outcome, after: PipelineRun, r: Action) -> bool {
    &&& advances(before, after, r)
    &&& keeps_request(before, after)
    &&& (!(outcome is Failed) ==> step_spec(before, outcome, after, r))
    &&& (outcome matches Outcome::Failed(e) ==> fails_at_once(after, r, e.kind))
}

/// The progress percentages reported along a sequence of actions, in order.
pub open spec fn emitted(actions: Seq<Action>) -> Seq<u64>
    decreases actions.len(),
{
    if actions.len() == 0 {
        Seq::empty()
    } else {
        let before = emitted(actions.drop_last());
        match actions.last().progress {
            Some(p) => before.push(p),
            None => before,
        }
    }
}

/// The reports of a single-scene run after `m` major steps: 0, 20, ..., 20 m.
pub open spec fn reported(m: int) -> Seq<u64> {
    Seq::new((m + 1) as nat, |k: int| (20 * k) as u64)
}

/// How many major steps a single-scene run has done when it waits for `task`.
pub open spec fn expected_steps(run: PipelineRun, task: Task) -> int {
    match task {
        Task::Convert(_) => 0,
        Task::ReadExposures => 0,
        Task::RunStage(k) => majors_before(run.plan@, k as int),
        _ => 5,
    }
}

/// What a single-scene run has reported so far, given where it stands.
#[verifier::opaque]
pub open spec fn reports_so_far(run: PipelineRun, em: Seq<u64>) -> bool {
    &&& run.wf()
    &&& !run.batch
    &&& match run.phase {
        Phase::CreatingTemp => em.len() == 0 && run.steps_done == 0,
        Phase::Scene(_, task) => run.steps_done == expected_steps(run, task) && em == reported(
            run.steps_done as int,
        ),
        _ => false,
    }
}

proof fn lemma_percent_of_five(k: int)
    requires
        0 <= k <= 5,
    ensures
        percent(k, 5) == 20 * k,
{
    vstd::arithmetic::div_mod::lemma_fundamental_div_mod_converse(200 * k + 5, 10, 20 * k, 5);
}

proof fn lemma_reports_grow(m: int)
    requires
        0 <= m < 5,
    ensures
        reported(m).push((20 * (m + 1)) as u64) == reported(m + 1),
{
    assert(reported(m).push((20 * (m + 1)) as u64) =~= reported(m + 1));
}

#[verifier::spinoff_prover]
#[verifier::rlimit(80)]
proof fn lemma_reports_step(before: PipelineRun, outcome: Outcome, after: PipelineRun, r: Action, em: Seq<u64>)
    requires
        reports_so_far(before, em),
        !before.finished(),
        !after.finished(),
        step_post(before, outcome, after, r),
    ensures
        reports_so_far(
            after,
            match r.progress {
                Some(p) => em.push(p),
                None => em,
            },
        ),
{
    reveal(step_post);
    reveal(reports_so_far);
    let plan = stage_plan_of(before.params.geometry.diameter, before.params.calibration@);
    lemma_five_major_steps(before.params.geometry.diameter, before.params.calibration@);
    assert(before.total_steps == 5);
    if let Phase::Scene(s, task) = before.phase {
        assert(after.plan@ == before.plan@);
        assert(before.plan@ == plan);
        if let Task::RunStage(k) = task {
            let stage = before.plan@[k as int];
            assert(stage == plan[k as int]);
            if counts_for_progress(stage) {
                assert(before.steps_done < 5);
                assert(after.steps_done == before.steps_done + 1);
                lemma_percent_of_five(after.steps_done as int);
                lemma_reports_grow(before.steps_done as int);
            } else {
                assert(r.progress is None);
            }
            assert(majors_before(plan, k + 1) == majors_before(plan, k as int) + (if counts_for_progress(
                stage,
            ) {
                1int
            } else {
                0int
            }));
        }
    } else {
        assert(before.phase is CreatingTemp);
        assert(r.progress == Some(0u64));
        assert(em.push(0u64) =~= reported(0));
        assert(after.steps_done == 0);
    }
}

/// A single-scene run that ends in success reports exactly 0, 20, 40, 60, 80 and 100 percent,
/// in that order, whatever calibration stages it runs: `states[i + 1]` and `actions[i + 1]`
/// are what `step` made of `states[i]` and `outcomes[i]`, from the state and action that
/// `start` gave.
pub proof fn lemma_single_scene_run_progress(
    states: Seq<PipelineRun>,
    outcomes: Seq<Outcome>,
    actions: Seq<Action>,
)
    requires
        states.len() == actions.len() == outcomes.len() + 1,
        states[0].wf(),
        !states[0].batch,
        states[0].phase == Phase::CreatingTemp,
        states[0].steps_done == 0,
        actions[0].progress is None,
        actions[0].work is CreateDir,
        forall|i: int|
            0 <= i < outcomes.len() ==> !(#[trigger] states[i]).finished() && step_post(
                states[i],
                outcomes[i],
                states[i + 1],
                actions[i + 1],
            ),
        actions.last().work matches Work::Finish(Ok(_)),
    ensures
        emitted(actions) == seq![0u64, 20, 40, 60, 80, 100],
{
    let n = outcomes.len() as int;
    assert(n > 0);
    lemma_reports_along(states, outcomes, actions, n - 1);
    let before = states[n - 1];
    let after = states[n];
    let r = actions[n];
    let em = emitted(actions.take(n));
    assert(actions.take(n + 1).drop_last() =~= actions.take(n));
    assert(actions.take(n + 1) =~= actions);
    lemma_final_report(before, outcomes[n - 1], after, r, em);
}

#[verifier::spinoff_prover]
#[verifier::rlimit(80)]
proof fn lemma_final_report(before: PipelineRun, outcome: Outcome, after: PipelineRun, r: Action, em: Seq<u64>)
    requires
        reports_so_far(before, em),
        !before.finished(),
        step_post(before, outcome, after, r),
        r.work matches Work::Finish(Ok(_)),
    ensures
        match r.progress {
            Some(p) => em.push(p),
            None => em,
        } == seq![0u64, 20, 40, 60, 80, 100],
{
    reveal(step_post);
    reveal(reports_so_far);
    assert(reported(5) =~= seq![0u64, 20, 40, 60, 80, 100]);
}

proof fn lemma_reports_along(
    states: Seq<PipelineRun>,
    outcomes: Seq<Outcome>,
    actions: Seq<Action>,
    i: int,
)
    requires
        states.len() == actions.len() == outcomes.len() + 1,
        0 <= i < outcomes.len(),
        states[0].wf(),
        !states[0].batch,
        states[0].phase == Phase::CreatingTemp,
        states[0].steps_done == 0,
        actions[0].progress is None,
        forall|j: int|
            0 <= j < outcomes.len() ==> !(#[trigger] states[j]).finished() && step_post(
                states[j],
                outcomes[j],
                states[j + 1],
                actions[j + 1],
            ),
    ensures
        reports_so_far(states[i], emitted(actions.take(i + 1))),
    decreases i,
{
    if i == 0 {
        assert(actions.take(1).drop_last() =~= actions.take(0));
        assert(actions.take(1).last() == actions[0]);
        assert(emitted(actions.take(0)) == Seq::<u64>::empty());
        assert(emitted(actions.take(1)) == Seq::<u64>::empty());
        reveal(reports_so_far);
    } else {
        lemma_reports_along(states, outcomes, actions, i - 1);
        assert(actions.take(i + 1).drop_last() =~= actions.take(i));
        assert(actions.take(i + 1).last() == actions[i]);
        assert(emitted(actions.take(i + 1)) == match actions[i].progress {
            Some(p) => emitted(actions.take(i)).push(p),
            None => emitted(actions.take(i)),
        });
        assert(!states[i].finished());
        assert(step_post(states[i - 1], outcomes[i - 1], states[i], actions[i]));
        lemma_reports_step(
            states[i - 1],
            outcomes[i - 1],
            states[i],
            actions[i],
            emitted(actions.take(i)),
        );
    }
}

} // verus!
