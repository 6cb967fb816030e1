//! The stages of one scene and the order in which they run.
use vstd::prelude::*;

use crate::text::is_empty_text;

verus! {

/// A stage of the processing of one scene.
#[derive(Clone, Copy, Debug, PartialEq, Eq, Structural)]
pub enum Stage {
    Merge,
    NullifyExposure,
    Crop,
    Resize,
    Projection,
    Vignetting,
    NeutralDensity,
    Photometric,
    Evalglare,
    HeaderEdit,
    Falsecolor,
}

/// The calibration files of a run; an empty path turns its stage off.
#[derive(Clone, Debug)]
pub struct CalibrationFiles {
    pub fisheye_correction_cal: String,
    pub vignetting_correction_cal: String,
    pub neutral_density_cal: String,
    pub photometric_adjustment_cal: String,
}

/// Which calibration stages are on.
pub struct CalibrationSwitches {
    pub projection: bool,
    pub vignetting: bool,
    pub neutral_density: bool,
    pub photometric: bool,
}

impl View for CalibrationFiles {
    type V = CalibrationSwitches;

    open spec fn view(&self) -> CalibrationSwitches {
        CalibrationSwitches {
            projection: self.fisheye_correction_cal@.len() > 0,
            vignetting: self.vignetting_correction_cal@.len() > 0,
            neutral_density: self.neutral_density_cal@.len() > 0,
            photometric: self.photometric_adjustment_cal@.len() > 0,
        }
    }
}

/// Diameters above this many pixels are resized after the crop.
pub const RESIZE_THRESHOLD: u32 = 1000;

pub open spec fn optional(on: bool, stage: Stage) -> Seq<Stage> {
    if on {
        seq![stage]
    } else {
        Seq::empty()
    }
}

/// The stages of one scene, in order.
pub open spec fn stage_plan_of(diameter: u32, cal: CalibrationSwitches) -> Seq<Stage> {
    seq![Stage::Merge, Stage::NullifyExposure, Stage::Crop] + optional(
        diameter > RESIZE_THRESHOLD,
        Stage::Resize,
    ) + optional(cal.projection, Stage::Projection) + optional(cal.vignetting, Stage::Vignetting)
        + optional(cal.neutral_density, Stage::NeutralDensity) + optional(
        cal.photometric,
        Stage::Photometric,
    ) + seq![Stage::Evalglare, Stage::HeaderEdit, Stage::Falsecolor]
}

fn push_if(plan: &mut Vec<Stage>, on: bool, stage: Stage)
    ensures
        final(plan)@ == old(plan)@ + optional(on, stage),
{
    if on {
        plan.push(stage);
    }
    assert(plan@ =~= old(plan)@ + optional(on, stage));
}

/// The stages of one scene: the fixed chain, with the resize only for diameters above the
/// threshold and each calibration only when its file is given.
pub fn stage_plan(diameter: u32, calibration: &CalibrationFiles) -> (plan: Vec<Stage>)
    ensures
        plan@ == stage_plan_of(diameter, calibration@),
{
    let mut plan: Vec<Stage> = Vec::new();
    plan.push(Stage::Merge);
    plan.push(Stage::NullifyExposure);
    plan.push(Stage::Crop);
    assert(plan@ =~= seq![Stage::Merge, Stage::NullifyExposure, Stage::Crop]);
    push_if(&mut plan, diameter > RESIZE_THRESHOLD, Stage::Resize);
    push_if(&mut plan, !is_empty_text(calibration.fisheye_correction_cal.as_str()), Stage::Projection);
    push_if(&mut plan, !is_empty_text(calibration.vignetting_correction_cal.as_str()), Stage::Vignetting);
    push_if(&mut plan, !is_empty_text(calibration.neutral_density_cal.as_str()), Stage::NeutralDensity);
    push_if(
        &mut plan,
        !is_empty_text(calibration.photometric_adjustment_cal.as_str()),
        Stage::Photometric,
    );
    let ghost before_tail = plan@;
    plan.push(Stage::Evalglare);
    plan.push(Stage::HeaderEdit);
    plan.push(Stage::Falsecolor);
    assert(plan@ =~= before_tail + seq![Stage::Evalglare, Stage::HeaderEdit, Stage::Falsecolor]);
    plan
}

/// Whether a stage applies a calibration file.
pub open spec fn is_calibration(s: Stage) -> bool {
    s == Stage::Projection || s == Stage::Vignetting || s == Stage::NeutralDensity || s
        == Stage::Photometric
}

/// The fixed order of the calibration stages.
pub open spec fn calibration_rank(s: Stage) -> int {
    match s {
        Stage::Projection => 0,
        Stage::Vignetting => 1,
        Stage::NeutralDensity => 2,
        _ => 3,
    }
}

/// Whether the calibration stage `s` is switched on.
pub open spec fn calibration_on(cal: CalibrationSwitches, s: Stage) -> bool {
    match s {
        Stage::Projection => cal.projection,
        Stage::Vignetting => cal.vignetting,
        Stage::NeutralDensity => cal.neutral_density,
        _ => cal.photometric,
    }
}

/// The rank in the plan of every stage: its position in the full chain.
pub open spec fn chain_rank(s: Stage) -> int {
    match s {
        Stage::Merge => 0,
        Stage::NullifyExposure => 1,
        Stage::Crop => 2,
        Stage::Resize => 3,
        Stage::Projection => 4,
        Stage::Vignetting => 5,
        Stage::NeutralDensity => 6,
        Stage::Photometric => 7,
        Stage::Evalglare => 8,
        Stage::HeaderEdit => 9,
        Stage::Falsecolor => 10,
    }
}

/// Every plan lists its stages in the order of the full chain, each at most once.
#[verifier::spinoff_prover]
pub proof fn lemma_plan_follows_chain(diameter: u32, cal: CalibrationSwitches)
    ensures
        forall|i: int, j: int|
            0 <= i < j < stage_plan_of(diameter, cal).len() ==> chain_rank(
                #[trigger] stage_plan_of(diameter, cal)[i],
            ) < chain_rank(#[trigger] stage_plan_of(diameter, cal)[j]),
{
    let plan = stage_plan_of(diameter, cal);
    let a = seq![Stage::Merge, Stage::NullifyExposure, Stage::Crop];
    let b = optional(diameter > RESIZE_THRESHOLD, Stage::Resize);
    let c = optional(cal.projection, Stage::Projection);
    let d = optional(cal.vignetting, Stage::Vignetting);
    let e = optional(cal.neutral_density, Stage::NeutralDensity);
    let f = optional(cal.photometric, Stage::Photometric);
    let g = seq![Stage::Evalglare, Stage::HeaderEdit, Stage::Falsecolor];
    assert(plan == a + b + c + d + e + f + g);
    let ab = a + b;
    let abc = ab + c;
    let abcd = abc + d;
    let abcde = abcd + e;
    let abcdef = abcde + f;
    // Each prefix is increasing in chain rank and ends below the rank of what follows.
    assert forall|i: int, j: int| 0 <= i < j < ab.len() implies chain_rank(ab[i]) < chain_rank(
        ab[j],
    ) by {
        if j >= 3 {
            assert(ab[j] == Stage::Resize);
        }
    }
    assert forall|i: int| 0 <= i < ab.len() implies chain_rank(#[trigger] ab[i]) <= 3 by {}
    assert forall|i: int, j: int| 0 <= i < j < abc.len() implies chain_rank(abc[i]) < chain_rank(
        abc[j],
    ) by {
        if j >= ab.len() {
            assert(abc[j] == Stage::Projection);
            assert(abc[i] == ab[i]);
        } else {
            assert(abc[i] == ab[i] && abc[j] == ab[j]);
        }
    }
    assert forall|i: int| 0 <= i < abc.len() implies chain_rank(#[trigger] abc[i]) <= 4 by {
        if i < ab.len() {
            assert(abc[i] == ab[i]);
        }
    }
    assert forall|i: int, j: int| 0 <= i < j < abcd.len() implies chain_rank(abcd[i]) < chain_rank(
        abcd[j],
    ) by {
        if j >= abc.len() {
            assert(abcd[j] == Stage::Vignetting);
            assert(abcd[i] == abc[i]);
        } else {
            assert(abcd[i] == abc[i] && abcd[j] == abc[j]);
        }
    }
    assert forall|i: int| 0 <= i < abcd.len() implies chain_rank(#[trigger] abcd[i]) <= 5 by {
        if i < abc.len() {
            assert(abcd[i] == abc[i]);
        }
    }
    assert forall|i: int, j: int| 0 <= i < j < abcde.len() implies chain_rank(abcde[i])
        < chain_rank(abcde[j]) by {
        if j >= abcd.len() {
            assert(abcde[j] == Stage::NeutralDensity);
            assert(abcde[i] == abcd[i]);
        } else {
            assert(abcde[i] == abcd[i] && abcde[j] == abcd[j]);
        }
    }
    assert forall|i: int| 0 <= i < abcde.len() implies chain_rank(#[trigger] abcde[i]) <= 6 by {
        if i < abcd.len() {
            assert(abcde[i] == abcd[i]);
        }
    }
    assert forall|i: int, j: int| 0 <= i < j < abcdef.len() implies chain_rank(abcdef[i])
        < chain_rank(abcdef[j]) by {
        if j >= abcde.len() {
            assert(abcdef[j] == Stage::Photometric);
            assert(abcdef[i] == abcde[i]);
        } else {
            assert(abcdef[i] == abcde[i] && abcdef[j] == abcde[j]);
        }
    }
    assert forall|i: int| 0 <= i < abcdef.len() implies chain_rank(#[trigger] abcdef[i]) <= 7 by {
        if i < abcde.len() {
            assert(abcdef[i] == abcde[i]);
        }
    }
    assert forall|i: int, j: int| 0 <= i < j < plan.len() implies chain_rank(
        #[trigger] plan[i],
    ) < chain_rank(#[trigger] plan[j]) by {
        assert(plan == abcdef + g);
        if i >= abcdef.len() {
            assert(plan[i] == g[i - abcdef.len()] && plan[j] == g[j - abcdef.len()]);
        } else if j >= abcdef.len() {
            assert(plan[i] == abcdef[i] && plan[j] == g[j - abcdef.len()]);
        } else {
            assert(plan[i] == abcdef[i] && plan[j] == abcdef[j]);
        }
    }
}

/// Which stages a plan holds: the fixed ones always, the resize for large diameters, and
/// each calibration stage when its file is given.
pub proof fn lemma_plan_members(diameter: u32, cal: CalibrationSwitches, s: Stage)
    ensures
        stage_plan_of(diameter, cal).contains(s) <==> (if s == Stage::Resize {
            diameter > RESIZE_THRESHOLD
        } else if is_calibration(s) {
            calibration_on(cal, s)
        } else {
            true
        }),
{
    let plan = stage_plan_of(diameter, cal);
    let a = seq![Stage::Merge, Stage::NullifyExposure, Stage::Crop];
    let b = optional(diameter > RESIZE_THRESHOLD, Stage::Resize);
    let c = optional(cal.projection, Stage::Projection);
    let d = optional(cal.vignetting, Stage::Vignetting);
    let e = optional(cal.neutral_density, Stage::NeutralDensity);
    let f = optional(cal.photometric, Stage::Photometric);
    let g = seq![Stage::Evalglare, Stage::HeaderEdit, Stage::Falsecolor];
    assert(plan == a + b + c + d + e + f + g);
    broadcast use vstd::seq_lib::lemma_seq_concat_contains_all_elements;

    if s == Stage::Merge {
        assert(a[0] == s);
    } else if s == Stage::NullifyExposure {
        assert(a[1] == s);
    } else if s == Stage::Crop {
        assert(a[2] == s);
    } else if s == Stage::Evalglare {
        assert(g[0] == s);
    } else if s == Stage::HeaderEdit {
        assert(g[1] == s);
    } else if s == Stage::Falsecolor {
        assert(g[2] == s);
    } else if s == Stage::Resize {
        if diameter > RESIZE_THRESHOLD {
            assert(b[0] == s);
        }
    } else if s == Stage::Projection {
        if cal.projection {
            assert(c[0] == s);
        }
    } else if s == Stage::Vignetting {
        if cal.vignetting {
            assert(d[0] == s);
        }
    } else if s == Stage::NeutralDensity {
        if cal.neutral_density {
            assert(e[0] == s);
        }
    } else {
        if cal.photometric {
            assert(f[0] == s);
        }
    }
}

/// The resize stage is in a scene's plan exactly when the diameter is above the threshold.
pub proof fn lemma_resize_iff_large_diameter(diameter: u32, cal: CalibrationSwitches)
    ensures
        stage_plan_of(diameter, cal).contains(Stage::Resize) <==> diameter > RESIZE_THRESHOLD,
{
    lemma_plan_members(diameter, cal, Stage::Resize);
}

/// The calibration stages that are on all run, in the fixed order projection, vignetting,
/// neutral density, photometric, whatever subset is on; the others do not run.
pub proof fn lemma_calibration_order(diameter: u32, cal: CalibrationSwitches)
    ensures
        forall|s: Stage|
            is_calibration(s) ==> (stage_plan_of(diameter, cal).contains(s) <==> calibration_on(
                cal,
                s,
            )),
        forall|i: int, j: int|
            0 <= i < j < stage_plan_of(diameter, cal).len() && is_calibration(
                #[trigger] stage_plan_of(diameter, cal)[i],
            ) && is_calibration(#[trigger] stage_plan_of(diameter, cal)[j]) ==> calibration_rank(
                stage_plan_of(diameter, cal)[i],
            ) < calibration_rank(stage_plan_of(diameter, cal)[j]),
{
    assert forall|s: Stage| is_calibration(s) implies (stage_plan_of(diameter, cal).contains(s)
        <==> calibration_on(cal, s)) by {
        lemma_plan_members(diameter, cal, s);
    }
    lemma_plan_follows_chain(diameter, cal);
}

/// Name of the image a stage writes in the scene's working directory.
pub open spec fn stage_output_name(s: Stage) -> Seq<char> {
    match s {
        Stage::Merge => "merge_exposures.hdr"@,
        Stage::NullifyExposure => "nullify_exposure_value.hdr"@,
        Stage::Crop => "crop.hdr"@,
        Stage::Resize => "resize.hdr"@,
        Stage::Projection => "projection_adjustment.hdr"@,
        Stage::Vignetting => "vignetting_correction.hdr"@,
        Stage::NeutralDensity => "neutral_density.hdr"@,
        Stage::Photometric => "photometric_adjustment.hdr"@,
        Stage::Evalglare => "evalglare.txt"@,
        Stage::HeaderEdit => "header_editing.hdr"@,
        Stage::Falsecolor => "falsecolor_output.hdr"@,
    }
}

/// Name of the image a stage writes in the scene's working directory (the glare analysis
/// writes none; its name is unused).
pub fn output_name(s: Stage) -> (r: &'static str)
    ensures
        r@ == stage_output_name(s),
{
    match s {
        Stage::Merge => "merge_exposures.hdr",
        Stage::NullifyExposure => "nullify_exposure_value.hdr",
        Stage::Crop => "crop.hdr",
        Stage::Resize => "resize.hdr",
        Stage::Projection => "projection_adjustment.hdr",
        Stage::Vignetting => "vignetting_correction.hdr",
        Stage::NeutralDensity => "neutral_density.hdr",
        Stage::Photometric => "photometric_adjustment.hdr",
        Stage::Evalglare => "evalglare.txt",
        Stage::HeaderEdit => "header_editing.hdr",
        Stage::Falsecolor => "falsecolor_output.hdr",
    }
}

/// Whether finishing the stage completes one of the five major steps that progress counts.
pub open spec fn counts_for_progress(s: Stage) -> bool {
    s == Stage::Merge || s == Stage::NullifyExposure || s == Stage::Crop || s == Stage::Evalglare
        || s == Stage::HeaderEdit
}

pub fn is_major_step(s: Stage) -> (r: bool)
    ensures
        r == counts_for_progress(s),
{
    match s {
        Stage::Merge | Stage::NullifyExposure | Stage::Crop | Stage::Evalglare
        | Stage::HeaderEdit => true,
        _ => false,
    }
}


/// How many of the first `k` stages of `plan` are major steps.
pub open spec fn majors_before(plan: Seq<Stage>, k: int) -> int
    decreases k,
{
    if k <= 0 {
        0
    } else {
        majors_before(plan, k - 1) + (if counts_for_progress(plan[k - 1]) {
            1int
        } else {
            0int
        })
    }
}

proof fn lemma_majors_concat(a: Seq<Stage>, b: Seq<Stage>, j: int)
    requires
        0 <= j <= b.len(),
    ensures
        majors_before(a + b, a.len() + j) == majors_before(a, a.len() as int) + majors_before(b, j),
    decreases j,
{
    if j == 0 {
        lemma_majors_prefix(a, a + b, a.len() as int);
    } else {
        lemma_majors_concat(a, b, j - 1);
        assert((a + b)[a.len() + j - 1] == b[j - 1]);
    }
}

proof fn lemma_majors_prefix(a: Seq<Stage>, c: Seq<Stage>, k: int)
    requires
        0 <= k <= a.len(),
        k <= c.len(),
        forall|i: int| 0 <= i < k ==> a[i] == c[i],
    ensures
        majors_before(a, k) == majors_before(c, k),
    decreases k,
{
    if k > 0 {
        lemma_majors_prefix(a, c, k - 1);
    }
}

proof fn lemma_majors_monotone(plan: Seq<Stage>, j: int, k: int)
    requires
        0 <= j <= k,
    ensures
        majors_before(plan, j) <= majors_before(plan, k),
    decreases k - j,
{
    if j < k {
        lemma_majors_monotone(plan, j, k - 1);
    }
}

/// Every plan has exactly five major steps, whatever stages are switched on, and a stage that
/// is one leaves room for it among them.
pub proof fn lemma_five_major_steps(diameter: u32, cal: CalibrationSwitches)
    ensures
        majors_before(stage_plan_of(diameter, cal), stage_plan_of(diameter, cal).len() as int) == 5,
        forall|k: int|
            0 <= k < stage_plan_of(diameter, cal).len() && counts_for_progress(
                #[trigger] stage_plan_of(diameter, cal)[k],
            ) ==> majors_before(stage_plan_of(diameter, cal), k) < 5,
{
    let plan = stage_plan_of(diameter, cal);
    let a = seq![Stage::Merge, Stage::NullifyExposure, Stage::Crop];
    let b = optional(diameter > RESIZE_THRESHOLD, Stage::Resize);
    let c = optional(cal.projection, Stage::Projection);
    let d = optional(cal.vignetting, Stage::Vignetting);
    let e = optional(cal.neutral_density, Stage::NeutralDensity);
    let f = optional(cal.photometric, Stage::Photometric);
    let g = seq![Stage::Evalglare, Stage::HeaderEdit, Stage::Falsecolor];
    let ab = a + b;
    let abc = ab + c;
    let abcd = abc + d;
    let abcde = abcd + e;
    let abcdef = abcde + f;
    assert(plan == abcdef + g);
    assert(majors_before(a, 3) == 3) by {
        reveal_with_fuel(majors_before, 4);
    }
    assert(majors_before(g, 3) == 2) by {
        reveal_with_fuel(majors_before, 4);
    }
    assert forall|o: Seq<Stage>| o.len() <= 1 && (forall|i: int| 0 <= i < o.len() ==> !counts_for_progress(#[trigger] o[i]))
        implies majors_before(o, o.len() as int) == 0 by {
        reveal_with_fuel(majors_before, 2);
    }
    lemma_majors_concat(a, b, b.len() as int);
    lemma_majors_concat(ab, c, c.len() as int);
    lemma_majors_concat(abc, d, d.len() as int);
    lemma_majors_concat(abcd, e, e.len() as int);
    lemma_majors_concat(abcde, f, f.len() as int);
    lemma_majors_concat(abcdef, g, 3);
    assert forall|k: int|
        0 <= k < plan.len() && counts_for_progress(#[trigger] plan[k]) implies majors_before(plan, k)
        < 5 by {
        lemma_majors_monotone(plan, k + 1, plan.len() as int);
        if k == plan.len() - 1 {
            assert(plan[k] == Stage::Falsecolor);
        }
    }
}

} // verus!
