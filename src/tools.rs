//! The external tools of the pipeline, described as calls for the caller to start.
use vstd::prelude::*;
use vstd::string::StringExecFns;

use crate::text::{
    concat, concat3, decimal, decimal_text, file_stem, get_file_name, is_empty_text, joined_path,
    join_path,
};

verus! {

/// Where the executable of a tool is found.
#[derive(Clone, Debug)]
pub enum ToolLocation {
    /// The copy shipped with the application.
    Bundled,
    /// The given directory (empty: looked up on the search path).
    Directory(String),
}

/// Where the standard output of a tool goes.
#[derive(Clone, Debug)]
pub enum OutputSink {
    /// Left to the tool; it writes its own output files.
    Inherit,
    /// Written to this file, which is created first.
    File(String),
    /// Captured and handed back as text.
    Capture,
}

/// One run of an external tool: everything needed to start it and route its streams.
#[derive(Clone, Debug)]
pub struct ToolCall {
    pub location: ToolLocation,
    pub program: String,
    pub args: Vec<String>,
    /// A file fed to the tool's standard input.
    pub stdin_file: Option<String>,
    pub stdout: OutputSink,
    /// A directory put in front of the tool's `PATH`, for tools that call others.
    pub search_dir: Option<String>,
}

pub enum SinkView {
    Inherit,
    File(Seq<char>),
    Capture,
}

/// What a tool call stands for; `directory` is `None` for the bundled copy.
pub struct ToolCallView {
    pub directory: Option<Seq<char>>,
    pub program: Seq<char>,
    pub args: Seq<Seq<char>>,
    pub stdin_file: Option<Seq<char>>,
    pub stdout: SinkView,
    pub search_dir: Option<Seq<char>>,
}

pub open spec fn texts(v: Seq<String>) -> Seq<Seq<char>> {
    v.map_values(|s: String| s@)
}

pub open spec fn opt_text(o: Option<String>) -> Option<Seq<char>> {
    match o {
        Some(s) => Some(s@),
        None => None,
    }
}

impl View for ToolCall {
    type V = ToolCallView;

    open spec fn view(&self) -> ToolCallView {
        ToolCallView {
            directory: match self.location {
                ToolLocation::Bundled => None,
                ToolLocation::Directory(d) => Some(d@),
            },
            program: self.program@,
            args: texts(self.args@),
            stdin_file: opt_text(self.stdin_file),
            stdout: match self.stdout {
                OutputSink::Inherit => SinkView::Inherit,
                OutputSink::File(f) => SinkView::File(f@),
                OutputSink::Capture => SinkView::Capture,
            },
            search_dir: opt_text(self.search_dir),
        }
    }
}

/// The locations of the tools and of a run's outputs.
#[derive(Clone, Debug)]
pub struct ConfigSettings {
    /// Directory of the rendering suite (pcompos, pfilt, pcomb, evalglare, getinfo, ...).
    pub radiance_path: String,
    /// Directory of the merge tool; empty for the bundled one.
    pub hdrgen_path: String,
    /// Directory of the raw converter; empty for the bundled one.
    pub dcraw_emu_path: String,
    /// Where the final images are copied.
    pub output_path: String,
    /// Where the current scene's intermediate images are written.
    pub temp_path: String,
}

/// Settings of the luminance map's scale and legend.
#[derive(Clone, Debug)]
pub struct LuminanceArgs {
    pub scale_limit: String,
    pub scale_label: String,
    pub scale_levels: String,
    pub legend_dimensions: String,
}

/// Where a tool configured by `dir` is found: the bundled copy when `dir` is empty.
pub open spec fn location_of(dir: Seq<char>) -> Option<Seq<char>> {
    if dir.len() == 0 {
        None
    } else {
        Some(dir)
    }
}

fn location(dir: &String) -> (r: ToolLocation)
    ensures
        match r {
            ToolLocation::Bundled => location_of(dir@) == None::<Seq<char>>,
            ToolLocation::Directory(d) => location_of(dir@) == Some(d@),
        },
{
    if is_empty_text(dir.as_str()) {
        ToolLocation::Bundled
    } else {
        ToolLocation::Directory(dir.clone())
    }
}

fn push_arg(args: &mut Vec<String>, a: &str)
    ensures
        texts(final(args)@) == texts(old(args)@).push(a@),
{
    args.push(String::from_str(a));
    assert(texts(args@) =~= texts(old(args)@).push(a@));
}

fn directory(dir: &String) -> (r: ToolLocation)
    ensures
        r matches ToolLocation::Directory(d) && d@ == dir@,
{
    ToolLocation::Directory(dir.clone())
}

/// The call that `merge_exposures` builds.
pub open spec fn merge_exposures_view(config_settings: ConfigSettings, input_images: Seq<Seq<char>>, response_function: Seq<char>, output_file: Seq<char>) -> ToolCallView {
    ToolCallView {
        directory: location_of(config_settings.hdrgen_path@),
        program: "hdrgen"@,
        args: input_images + seq!["-o"@, output_file] + (if response_function.len() > 0 { seq!["-r"@, response_function] } else { Seq::empty() }) + seq!["-a"@, "-e"@, "-f"@, "-g"@, "-F"@],
        stdin_file: None,
        stdout: SinkView::Inherit,
        search_dir: None,
    }
}

/// The merge of bracketed exposures into one HDR image, written to `output_file`;
/// `response_function` is passed only when it is not empty.
pub fn merge_exposures(
    config_settings: &ConfigSettings,
    input_images: &Vec<String>,
    response_function: &String,
    output_file: &String,
) -> (r: ToolCall)
    ensures
        r@ == merge_exposures_view(*config_settings, texts(input_images@), response_function@, output_file@),
{
    let mut args: Vec<String> = Vec::new();
    let mut i: usize = 0;
    while i < input_images.len()
        invariant
            i <= input_images@.len(),
            texts(args@) == texts(input_images@.subrange(0, i as int)),
        decreases input_images@.len() - i,
    {
        push_arg(&mut args, input_images[i].as_str());
        i = i + 1;
        assert(texts(input_images@.subrange(0, i as int)) =~= texts(
            input_images@.subrange(0, i - 1),
        ).push(input_images@[i - 1]@));
    }
    assert(input_images@.subrange(0, i as int) =~= input_images@);
    let ghost base = texts(args@);
    push_arg(&mut args, "-o");
    push_arg(&mut args, output_file.as_str());
    let ghost with_output = texts(args@);
    assert(with_output =~= base + seq!["-o"@, output_file@]);
    if !is_empty_text(response_function.as_str()) {
        push_arg(&mut args, "-r");
        push_arg(&mut args, response_function.as_str());
    }
    let ghost with_response = texts(args@);
    push_arg(&mut args, "-a");
    push_arg(&mut args, "-e");
    push_arg(&mut args, "-f");
    push_arg(&mut args, "-g");
    push_arg(&mut args, "-F");
    assert(texts(args@) =~= with_response + seq!["-a"@, "-e"@, "-f"@, "-g"@, "-F"@]);
    assert(with_response =~= texts(input_images@) + seq!["-o"@, output_file@] + (if response_function@.len()
        > 0 {
        seq!["-r"@, response_function@]
    } else {
        Seq::empty()
    }));
    ToolCall {
        location: location(&config_settings.hdrgen_path),
        program: String::from_str("hdrgen"),
        args,
        stdin_file: None,
        stdout: OutputSink::Inherit,
        search_dir: None,
    }
}

/// The arguments that convert one raw image to a 16-bit linear TIFF.
pub open spec fn raw_conversion_args(output_file: Seq<char>, input_image: Seq<char>) -> Seq<Seq<char>> {
    seq![
        "-T"@, "-o"@, "1"@, "-W"@, "-j"@, "-q"@, "3"@, "-g"@, "2"@, "0"@, "-t"@, "0"@, "-b"@,
        "1.1"@, "-Z"@, output_file, input_image,
    ]
}

/// The call that `convert_to_tiff` builds.
pub open spec fn convert_to_tiff_view(dcraw_emu_path: Seq<char>, input_image: Seq<char>, output_file: Seq<char>) -> ToolCallView {
    ToolCallView {
        directory: location_of(dcraw_emu_path),
        program: "dcraw_emu"@,
        args: raw_conversion_args(output_file, input_image),
        stdin_file: None,
        stdout: SinkView::Inherit,
        search_dir: None,
    }
}

/// The conversion of one raw image to a TIFF at `output_file`.
pub fn convert_to_tiff(dcraw_emu_path: &String, input_image: &String, output_file: &String) -> (r: ToolCall)
    ensures
        r@ == convert_to_tiff_view(dcraw_emu_path@, input_image@, output_file@),
{
    let mut args: Vec<String> = Vec::new();
    push_arg(&mut args, "-T");
    push_arg(&mut args, "-o");
    push_arg(&mut args, "1");
    push_arg(&mut args, "-W");
    push_arg(&mut args, "-j");
    push_arg(&mut args, "-q");
    push_arg(&mut args, "3");
    push_arg(&mut args, "-g");
    push_arg(&mut args, "2");
    push_arg(&mut args, "0");
    push_arg(&mut args, "-t");
    push_arg(&mut args, "0");
    push_arg(&mut args, "-b");
    push_arg(&mut args, "1.1");
    push_arg(&mut args, "-Z");
    push_arg(&mut args, output_file.as_str());
    push_arg(&mut args, input_image.as_str());
    assert(texts(args@) =~= raw_conversion_args(output_file@, input_image@));
    ToolCall {
        location: location(dcraw_emu_path),
        program: String::from_str("dcraw_emu"),
        args,
        stdin_file: None,
        stdout: OutputSink::Inherit,
        search_dir: None,
    }
}

/// Name of the TIFF that the raw input numbered `index` (from 1) is converted to.
pub open spec fn converted_name(index: nat) -> Seq<char> {
    "input"@ + decimal(index) + ".tiff"@
}

/// Path of the TIFF that the raw input numbered `index` (from 1) is converted to.
pub fn converted_image_path(temp_path: &String, index: u64) -> (r: String)
    ensures
        r@ == joined_path(temp_path@, converted_name(index as nat)),
{
    let number = decimal_text(index);
    let name = concat3("input", number.as_str(), ".tiff");
    join_path(temp_path.as_str(), name.as_str())
}

/// The call that `nullify_exposure_value` builds.
pub open spec fn nullify_exposure_value_view(config_settings: ConfigSettings, input_file: Seq<char>, output_file: Seq<char>) -> ToolCallView {
    ToolCallView {
        directory: Some(config_settings.radiance_path@),
        program: "ra_xyze"@,
        args: seq!["-r"@, "-o"@, input_file, output_file],
        stdin_file: None,
        stdout: SinkView::Inherit,
        search_dir: None,
    }
}

/// Resetting the exposure value recorded in an HDR image.
pub fn nullify_exposure_value(config_settings: &ConfigSettings, input_file: &String, output_file: &String) -> (r: ToolCall)
    ensures
        r@ == nullify_exposure_value_view(*config_settings, input_file@, output_file@),
{
    let mut args: Vec<String> = Vec::new();
    push_arg(&mut args, "-r");
    push_arg(&mut args, "-o");
    push_arg(&mut args, input_file.as_str());
    push_arg(&mut args, output_file.as_str());
    assert(texts(args@) =~= seq!["-r"@, "-o"@, input_file@, output_file@]);
    ToolCall {
        location: directory(&config_settings.radiance_path),
        program: String::from_str("ra_xyze"),
        args,
        stdin_file: None,
        stdout: OutputSink::Inherit,
        search_dir: None,
    }
}

/// The call that `crop` builds.
pub open spec fn crop_view(config_settings: ConfigSettings, input_file: Seq<char>, output_file: Seq<char>, diameter: Seq<char>, xleft: Seq<char>, ydown: Seq<char>) -> ToolCallView {
    ToolCallView {
        directory: Some(config_settings.radiance_path@),
        program: "pcompos"@,
        args: seq![ "-x"@, diameter, "-y"@, diameter, input_file, "-"@ + xleft, "-"@ + ydown, ],
        stdin_file: None,
        stdout: SinkView::File(output_file),
        search_dir: None,
    }
}

/// Cropping an HDR image to the square that circumscribes the fisheye view.
pub fn crop(
    config_settings: &ConfigSettings,
    input_file: &String,
    output_file: &String,
    diameter: &String,
    xleft: &String,
    ydown: &String,
) -> (r: ToolCall)
    ensures
        r@ == crop_view(*config_settings, input_file@, output_file@, diameter@, xleft@, ydown@),
{
    let mut args: Vec<String> = Vec::new();
    push_arg(&mut args, "-x");
    push_arg(&mut args, diameter.as_str());
    push_arg(&mut args, "-y");
    push_arg(&mut args, diameter.as_str());
    push_arg(&mut args, input_file.as_str());
    let x = concat("-", xleft.as_str());
    push_arg(&mut args, x.as_str());
    let y = concat("-", ydown.as_str());
    push_arg(&mut args, y.as_str());
    assert(texts(args@) =~= seq![
        "-x"@,
        diameter@,
        "-y"@,
        diameter@,
        input_file@,
        "-"@ + xleft@,
        "-"@ + ydown@,
    ]);
    ToolCall {
        location: directory(&config_settings.radiance_path),
        program: String::from_str("pcompos"),
        args,
        stdin_file: None,
        stdout: OutputSink::File(output_file.clone()),
        search_dir: None,
    }
}

/// The call that `resize` builds.
pub open spec fn resize_view(config_settings: ConfigSettings, input_file: Seq<char>, output_file: Seq<char>, xdim: Seq<char>, ydim: Seq<char>) -> ToolCallView {
    ToolCallView {
        directory: Some(config_settings.radiance_path@),
        program: "pfilt"@,
        args: seq!["-1"@, "-x"@, xdim, "-y"@, ydim, input_file],
        stdin_file: None,
        stdout: SinkView::File(output_file),
        search_dir: None,
    }
}

/// Resizing an HDR image to `xdim` by `ydim` pixels.
pub fn resize(
    config_settings: &ConfigSettings,
    input_file: &String,
    output_file: &String,
    xdim: &String,
    ydim: &String,
) -> (r: ToolCall)
    ensures
        r@ == resize_view(*config_settings, input_file@, output_file@, xdim@, ydim@),
{
    let mut args: Vec<String> = Vec::new();
    push_arg(&mut args, "-1");
    push_arg(&mut args, "-x");
    push_arg(&mut args, xdim.as_str());
    push_arg(&mut args, "-y");
    push_arg(&mut args, ydim.as_str());
    push_arg(&mut args, input_file.as_str());
    assert(texts(args@) =~= seq!["-1"@, "-x"@, xdim@, "-y"@, ydim@, input_file@]);
    ToolCall {
        location: directory(&config_settings.radiance_path),
        program: String::from_str("pfilt"),
        args,
        stdin_file: None,
        stdout: OutputSink::File(output_file.clone()),
        search_dir: None,
    }
}

/// The call that `calibration` builds.
pub open spec fn calibration_view(config_settings: ConfigSettings, input_file: Seq<char>, output_file: Seq<char>, calibration_file: Seq<char>, keep_header: bool) -> ToolCallView {
    ToolCallView {
        directory: Some(config_settings.radiance_path@),
        program: "pcomb"@,
        args: (if keep_header { seq!["-h"@] } else { Seq::empty() }) + seq!["-f"@, calibration_file, input_file],
        stdin_file: None,
        stdout: SinkView::File(output_file),
        search_dir: None,
    }
}

/// Applying a calibration file to an HDR image with pcomb; `keep_header` keeps the input's
/// header lines.
fn calibration(
    config_settings: &ConfigSettings,
    input_file: &String,
    output_file: &String,
    calibration_file: &String,
    keep_header: bool,
) -> (r: ToolCall)
    ensures
        r@ == calibration_view(*config_settings, input_file@, output_file@, calibration_file@, keep_header),
{
    let mut args: Vec<String> = Vec::new();
    if keep_header {
        push_arg(&mut args, "-h");
    }
    let ghost head = texts(args@);
    push_arg(&mut args, "-f");
    push_arg(&mut args, calibration_file.as_str());
    push_arg(&mut args, input_file.as_str());
    assert(texts(args@) =~= head + seq!["-f"@, calibration_file@, input_file@]);
    assert(head =~= (if keep_header {
        seq!["-h"@]
    } else {
        Seq::empty()
    }));
    ToolCall {
        location: directory(&config_settings.radiance_path),
        program: String::from_str("pcomb"),
        args,
        stdin_file: None,
        stdout: OutputSink::File(output_file.clone()),
        search_dir: None,
    }
}

/// The call that `projection_adjustment` builds.
pub open spec fn projection_adjustment_view(config_settings: ConfigSettings, input_file: Seq<char>, output_file: Seq<char>, fisheye_correction_cal: Seq<char>) -> ToolCallView {
    ToolCallView {
        directory: Some(config_settings.radiance_path@),
        program: "pcomb"@,
        args: seq!["-f"@, fisheye_correction_cal, input_file],
        stdin_file: None,
        stdout: SinkView::File(output_file),
        search_dir: None,
    }
}

/// Correcting the fisheye projection of an HDR image with a calibration file.
pub fn projection_adjustment(
    config_settings: &ConfigSettings,
    input_file: &String,
    output_file: &String,
    fisheye_correction_cal: &String,
) -> (r: ToolCall)
    ensures
        r@ == projection_adjustment_view(*config_settings, input_file@, output_file@, fisheye_correction_cal@),
{
    calibration(config_settings, input_file, output_file, fisheye_correction_cal, false)
}

/// The call that `vignetting_effect_correction` builds.
pub open spec fn vignetting_effect_correction_view(config_settings: ConfigSettings, input_file: Seq<char>, output_file: Seq<char>, vignetting_correction_cal: Seq<char>) -> ToolCallView {
    ToolCallView {
        directory: Some(config_settings.radiance_path@),
        program: "pcomb"@,
        args: seq!["-f"@, vignetting_correction_cal, input_file],
        stdin_file: None,
        stdout: SinkView::File(output_file),
        search_dir: None,
    }
}

/// Correcting the vignetting of an HDR image with a calibration file.
pub fn vignetting_effect_correction(
    config_settings: &ConfigSettings,
    input_file: &String,
    output_file: &String,
    vignetting_correction_cal: &String,
) -> (r: ToolCall)
    ensures
        r@ == vignetting_effect_correction_view(*config_settings, input_file@, output_file@, vignetting_correction_cal@),
{
    calibration(config_settings, input_file, output_file, vignetting_correction_cal, false)
}

/// The call that `neutral_density` builds.
pub open spec fn neutral_density_view(config_settings: ConfigSettings, input_file: Seq<char>, output_file: Seq<char>, neutral_density_cal: Seq<char>) -> ToolCallView {
    ToolCallView {
        directory: Some(config_settings.radiance_path@),
        program: "pcomb"@,
        args: seq!["-f"@, neutral_density_cal, input_file],
        stdin_file: None,
        stdout: SinkView::File(output_file),
        search_dir: None,
    }
}

/// Compensating a neutral density filter with a calibration file.
pub fn neutral_density(
    config_settings: &ConfigSettings,
    input_file: &String,
    output_file: &String,
    neutral_density_cal: &String,
) -> (r: ToolCall)
    ensures
        r@ == neutral_density_view(*config_settings, input_file@, output_file@, neutral_density_cal@),
{
    calibration(config_settings, input_file, output_file, neutral_density_cal, false)
}

/// The call that `photometric_adjustment` builds.
pub open spec fn photometric_adjustment_view(config_settings: ConfigSettings, input_file: Seq<char>, output_file: Seq<char>, photometric_adjustment_cal: Seq<char>) -> ToolCallView {
    ToolCallView {
        directory: Some(config_settings.radiance_path@),
        program: "pcomb"@,
        args: seq!["-h"@, "-f"@, photometric_adjustment_cal, input_file],
        stdin_file: None,
        stdout: SinkView::File(output_file),
        search_dir: None,
    }
}

/// Scaling an HDR image to measured luminance with a calibration file, keeping its header.
pub fn photometric_adjustment(
    config_settings: &ConfigSettings,
    input_file: &String,
    output_file: &String,
    photometric_adjustment_cal: &String,
) -> (r: ToolCall)
    ensures
        r@ == photometric_adjustment_view(*config_settings, input_file@, output_file@, photometric_adjustment_cal@),
{
    let r = calibration(config_settings, input_file, output_file, photometric_adjustment_cal, true);
    assert(seq!["-h"@] + seq!["-f"@, photometric_adjustment_cal@, input_file@] =~= seq![
        "-h"@,
        "-f"@,
        photometric_adjustment_cal@,
        input_file@,
    ]);
    r
}

/// The call that `evalglare` builds.
pub open spec fn evalglare_view(config_settings: ConfigSettings, input_file: Seq<char>, vertical_angle: Seq<char>, horizontal_angle: Seq<char>) -> ToolCallView {
    ToolCallView {
        directory: Some(config_settings.radiance_path@),
        program: "evalglare"@,
        args: seq!["-vta"@, "-vv"@, vertical_angle, "-vh"@, horizontal_angle, "-V"@, input_file],
        stdin_file: None,
        stdout: SinkView::Capture,
        search_dir: None,
    }
}

/// Glare analysis of an HDR image; its report is captured.
pub fn evalglare(
    config_settings: &ConfigSettings,
    input_file: &String,
    vertical_angle: &String,
    horizontal_angle: &String,
) -> (r: ToolCall)
    ensures
        r@ == evalglare_view(*config_settings, input_file@, vertical_angle@, horizontal_angle@),
{
    let mut args: Vec<String> = Vec::new();
    push_arg(&mut args, "-vta");
    push_arg(&mut args, "-vv");
    push_arg(&mut args, vertical_angle.as_str());
    push_arg(&mut args, "-vh");
    push_arg(&mut args, horizontal_angle.as_str());
    push_arg(&mut args, "-V");
    push_arg(&mut args, input_file.as_str());
    assert(texts(args@) =~= seq![
        "-vta"@,
        "-vv"@,
        vertical_angle@,
        "-vh"@,
        horizontal_angle@,
        "-V"@,
        input_file@,
    ]);
    ToolCall {
        location: directory(&config_settings.radiance_path),
        program: String::from_str("evalglare"),
        args,
        stdin_file: None,
        stdout: OutputSink::Capture,
        search_dir: None,
    }
}

/// The header line that records the view of a fisheye image.
pub open spec fn view_header(vertical_angle: Seq<char>, horizontal_angle: Seq<char>) -> Seq<char> {
    "VIEW= -vta -vv "@ + vertical_angle + " -vh "@ + horizontal_angle
}

/// The header line that records the glare analysis.
pub open spec fn glare_header(glare_value: Seq<char>) -> Seq<char> {
    "EVALGLARE= "@ + glare_value
}

/// The call that `header_editing` builds.
pub open spec fn header_editing_view(config_settings: ConfigSettings, input_file: Seq<char>, output_file: Seq<char>, vertical_angle: Seq<char>, horizontal_angle: Seq<char>, glare_value: Seq<char>) -> ToolCallView {
    ToolCallView {
        directory: Some(config_settings.radiance_path@),
        program: "getinfo"@,
        args: seq![ "-a"@, view_header(vertical_angle, horizontal_angle), "-a"@, glare_header(glare_value), ],
        stdin_file: Some(input_file),
        stdout: SinkView::File(output_file),
        search_dir: None,
    }
}

/// Writing the view angles and the glare value into the header of an HDR image.
pub fn header_editing(
    config_settings: &ConfigSettings,
    input_file: &String,
    output_file: &String,
    vertical_angle: &String,
    horizontal_angle: &String,
    glare_value: &String,
) -> (r: ToolCall)
    ensures
        r@ == header_editing_view(*config_settings, input_file@, output_file@, vertical_angle@, horizontal_angle@, glare_value@),
{
    let mut args: Vec<String> = Vec::new();
    push_arg(&mut args, "-a");
    let mut view = concat("VIEW= -vta -vv ", vertical_angle.as_str());
    view.append(" -vh ");
    view.append(horizontal_angle.as_str());
    push_arg(&mut args, view.as_str());
    push_arg(&mut args, "-a");
    let glare = concat("EVALGLARE= ", glare_value.as_str());
    push_arg(&mut args, glare.as_str());
    assert(texts(args@) =~= seq![
        "-a"@,
        view_header(vertical_angle@, horizontal_angle@),
        "-a"@,
        glare_header(glare_value@),
    ]);
    ToolCall {
        location: directory(&config_settings.radiance_path),
        program: String::from_str("getinfo"),
        args,
        stdin_file: Some(input_file.clone()),
        stdout: OutputSink::File(output_file.clone()),
        search_dir: None,
    }
}

/// The call that `falsecolor` builds.
pub open spec fn falsecolor_view(config_settings: ConfigSettings, input_file: Seq<char>, output_file: Seq<char>, luminance_args: LuminanceArgs) -> ToolCallView {
    ToolCallView {
        directory: Some(config_settings.radiance_path@),
        program: "falsecolor"@,
        args: seq![ "-s"@, luminance_args.scale_limit@, "-l"@, luminance_args.scale_label@, "-n"@, luminance_args.scale_levels@, "-e -lw/-lh"@, luminance_args.legend_dimensions@, "-i"@, input_file, ],
        stdin_file: None,
        stdout: SinkView::File(output_file),
        search_dir: Some(config_settings.radiance_path@),
    }
}

/// Rendering the luminance map of an HDR image. The tool calls others of its suite, so the
/// suite's directory goes in front of its search path.
pub fn falsecolor(
    config_settings: &ConfigSettings,
    input_file: &String,
    output_file: &String,
    luminance_args: &LuminanceArgs,
) -> (r: ToolCall)
    ensures
        r@ == falsecolor_view(*config_settings, input_file@, output_file@, *luminance_args),
{
    let mut args: Vec<String> = Vec::new();
    push_arg(&mut args, "-s");
    push_arg(&mut args, luminance_args.scale_limit.as_str());
    push_arg(&mut args, "-l");
    push_arg(&mut args, luminance_args.scale_label.as_str());
    push_arg(&mut args, "-n");
    push_arg(&mut args, luminance_args.scale_levels.as_str());
    push_arg(&mut args, "-e -lw/-lh");
    push_arg(&mut args, luminance_args.legend_dimensions.as_str());
    push_arg(&mut args, "-i");
    push_arg(&mut args, input_file.as_str());
    let ghost expected = seq![
        "-s"@,
        luminance_args.scale_limit@,
        "-l"@,
        luminance_args.scale_label@,
        "-n"@,
        luminance_args.scale_levels@,
        "-e -lw/-lh"@,
        luminance_args.legend_dimensions@,
        "-i"@,
        input_file@,
    ];
    assert(texts(args@) =~= expected);
    ToolCall {
        location: directory(&config_settings.radiance_path),
        program: String::from_str("falsecolor"),
        args,
        stdin_file: None,
        stdout: OutputSink::File(output_file.clone()),
        search_dir: Some(config_settings.radiance_path.clone()),
    }
}

/// The call that `display_hdr_img` builds.
pub open spec fn display_hdr_img_view(radiance_path: Seq<char>, image_path: Seq<char>) -> ToolCallView {
    ToolCallView {
        directory: Some(radiance_path),
        program: "ximage"@,
        args: seq!["-g"@, "2.2"@, "-e"@, "auto"@, image_path],
        stdin_file: None,
        stdout: SinkView::Inherit,
        search_dir: None,
    }
}

/// Showing an HDR image on screen with automatic exposure.
pub fn display_hdr_img(radiance_path: &String, image_path: &String) -> (r: ToolCall)
    ensures
        r@ == display_hdr_img_view(radiance_path@, image_path@),
{
    let mut args: Vec<String> = Vec::new();
    push_arg(&mut args, "-g");
    push_arg(&mut args, "2.2");
    push_arg(&mut args, "-e");
    push_arg(&mut args, "auto");
    push_arg(&mut args, image_path.as_str());
    assert(texts(args@) =~= seq!["-g"@, "2.2"@, "-e"@, "auto"@, image_path@]);
    ToolCall {
        location: directory(radiance_path),
        program: String::from_str("ximage"),
        args,
        stdin_file: None,
        stdout: OutputSink::Inherit,
        search_dir: None,
    }
}

/// The call that `read_header` builds.
pub open spec fn read_header_view(file_path: Seq<char>, radiance_path: Seq<char>) -> ToolCallView {
    ToolCallView {
        directory: Some(radiance_path),
        program: "getinfo"@,
        args: seq![file_path],
        stdin_file: None,
        stdout: SinkView::Capture,
        search_dir: None,
    }
}

/// Reading the header of an HDR file; the header is captured.
pub fn read_header(file_path: &String, radiance_path: &String) -> (r: ToolCall)
    ensures
        r@ == read_header_view(file_path@, radiance_path@),
{
    let mut args: Vec<String> = Vec::new();
    push_arg(&mut args, file_path.as_str());
    assert(texts(args@) =~= seq![file_path@]);
    ToolCall {
        location: directory(radiance_path),
        program: String::from_str("getinfo"),
        args,
        stdin_file: None,
        stdout: OutputSink::Capture,
        search_dir: None,
    }
}


/// The conversion of a raw image, for previewing, to a TIFF named after it in `out_dir`;
/// also gives that TIFF's path.
pub fn raw_preview(dcraw_emu_path: &String, out_dir: &String, image: &String) -> (r: (ToolCall, String))
    ensures
        r.1@ == joined_path(out_dir@, file_stem(image@) + ".tiff"@),
        r.0@ == convert_to_tiff_view(dcraw_emu_path@, image@, r.1@),
{
    let stem = get_file_name(image.as_str());
    let name = concat(stem.as_str(), ".tiff");
    let out = join_path(out_dir.as_str(), name.as_str());
    let call = convert_to_tiff(dcraw_emu_path, image, &out);
    (call, out)
}

} // verus!
