//! Choice of the exposures worth merging: the fisheye mask, the brightness statistics of
//! each candidate, and the brightness-ordered range that is kept.
use vstd::arithmetic::div_mod::lemma_fundamental_div_mod_converse;
use vstd::prelude::*;
use vstd::string::StringExecFns;

use rayon::prelude::{IndexedParallelIterator, IntoParallelRefIterator, ParallelIterator};

use crate::errors::{ErrorKind, PipelineError};
use crate::formats::{is_jpeg, is_jpeg_path};

verus! {

/// The circle of the fisheye view: its diameter and the bottom-left corner of the square
/// that circumscribes it, in pixels.
#[derive(Clone, Copy, Debug, PartialEq, Eq, Structural)]
pub struct FisheyeGeometry {
    pub diameter: u32,
    pub xleft: u32,
    pub ydown: u32,
}

/// Whether pixel `(x, y)` lies in the fisheye circle: `(x - xc)² + (y - yc)² <= r²` with
/// `r = diameter / 2`, `xc = xleft + r`, `yc = ydown + r`, here scaled by two so that a half
/// pixel radius stays exact.
pub open spec fn in_circle(g: FisheyeGeometry, x: int, y: int) -> bool {
    let d = g.diameter as int;
    let dx = 2 * x - 2 * g.xleft - d;
    let dy = 2 * y - 2 * g.ydown - d;
    dx * dx + dy * dy <= d * d
}

/// The mask of a `width` by `height` grid, row by row: entry `y * width + x` tells whether
/// pixel `(x, y)` is in the fisheye circle.
pub open spec fn circle_mask(g: FisheyeGeometry, width: nat, height: nat) -> Seq<bool> {
    Seq::new(width * height, |i: int| in_circle(g, i % (width as int), i / (width as int)))
}

/// A mask over a pixel grid, row by row.
#[derive(Clone, Debug)]
pub struct CircleMask {
    pub width: u32,
    pub height: u32,
    pub inside: Vec<bool>,
}

impl CircleMask {
    pub open spec fn wf(&self) -> bool {
        self.inside@.len() == self.width * self.height
    }
}

/// What a mask stands for: its grid and its entries.
pub struct MaskView {
    pub width: nat,
    pub height: nat,
    pub inside: Seq<bool>,
}

impl View for CircleMask {
    type V = MaskView;

    open spec fn view(&self) -> MaskView {
        MaskView { width: self.width as nat, height: self.height as nat, inside: self.inside@ }
    }
}

/// The fisheye mask of a `width` by `height` grid.
pub open spec fn fisheye_mask(g: FisheyeGeometry, width: nat, height: nat) -> MaskView {
    MaskView { width, height, inside: circle_mask(g, width, height) }
}

fn pixel_in_circle(g: FisheyeGeometry, x: u32, y: u32) -> (r: bool)
    ensures
        r == in_circle(g, x as int, y as int),
{
    let d = g.diameter as i128;
    let dx: i128 = 2 * (x as i128) - 2 * (g.xleft as i128) - d;
    let dy: i128 = 2 * (y as i128) - 2 * (g.ydown as i128) - d;
    assert(0 <= dx * dx <= 0x4_0000_0000_0000_0000_0000 && 0 <= dy * dy
        <= 0x4_0000_0000_0000_0000_0000 && 0 <= d * d <= 0x4_0000_0000_0000_0000_0000)
        by (nonlinear_arith)
        requires
            -0x4_0000_0000 <= dx <= 0x4_0000_0000,
            -0x4_0000_0000 <= dy <= 0x4_0000_0000,
            0 <= d <= 0x4_0000_0000,
    ;
    dx * dx + dy * dy <= d * d
}

/// The fisheye mask of a `width` by `height` image.
pub fn compute_circle_mask(geometry: FisheyeGeometry, width: u32, height: u32) -> (m: CircleMask)
    requires
        width * height <= usize::MAX,
    ensures
        m.wf(),
        m.width == width,
        m.height == height,
        m.inside@ == circle_mask(geometry, width as nat, height as nat),
{
    let mut inside: Vec<bool> = Vec::new();
    let mut y: u32 = 0;
    while y < height
        invariant
            y <= height,
            width * height <= usize::MAX,
            inside@.len() == y * width,
            forall|i: int|
                0 <= i < inside@.len() ==> #[trigger] inside@[i] == in_circle(
                    geometry,
                    i % (width as int),
                    i / (width as int),
                ),
        decreases height - y,
    {
        let mut x: u32 = 0;
        while x < width
            invariant
                y < height,
                x <= width,
                width * height <= usize::MAX,
                inside@.len() == y * width + x,
                forall|i: int|
                    0 <= i < inside@.len() ==> #[trigger] inside@[i] == in_circle(
                        geometry,
                        i % (width as int),
                        i / (width as int),
                    ),
            decreases width - x,
        {
            proof {
                lemma_fundamental_div_mod_converse(
                    y * width + x,
                    width as int,
                    y as int,
                    x as int,
                );
                assert(y * width + x < height * width) by (nonlinear_arith)
                    requires
                        y < height,
                        x < width,
                ;
            }
            inside.push(pixel_in_circle(geometry, x, y));
            x = x + 1;
        }
        assert((y + 1) * width == y * width + width) by (nonlinear_arith);
        y = y + 1;
    }
    let m = CircleMask { width, height, inside };
    assert(height * width == width * height) by (nonlinear_arith);
    assert(m.inside@ =~= circle_mask(geometry, width as nat, height as nat));
    m
}

/// Equal inputs give the same mask, bit for bit.
pub proof fn lemma_mask_deterministic(
    geometry: FisheyeGeometry,
    width: nat,
    height: nat,
    a: Seq<bool>,
    b: Seq<bool>,
)
    requires
        a == circle_mask(geometry, width, height),
        b == circle_mask(geometry, width, height),
    ensures
        a == b,
{
}


/// Brightness statistics of one exposure over the fisheye mask.
#[derive(Clone, Copy, Debug, PartialEq, Eq, Structural)]
pub struct ExposureStats {
    /// Masked pixels whose three channels are all below the crushed-black limit.
    pub pixels_below: u64,
    /// Masked pixels whose three channels are all above the blown-highlight limit.
    pub pixels_above: u64,
    /// Mean perceived brightness `0.299 R + 0.587 G + 0.114 B` of the masked pixels, in
    /// thousandths of a level, rounded down; 0 when no pixel is masked.
    pub mean_brightness: u64,
}

/// A channel value below this is crushed black.
pub const DARK_LIMIT: u8 = 27;

/// A channel value above this is a blown highlight.
pub const BRIGHT_LIMIT: u8 = 228;

/// A decoded image: three bytes (red, green, blue) per pixel, row by row.
#[derive(Clone, Debug)]
pub struct RgbImage {
    pub width: u32,
    pub height: u32,
    pub pixels: Vec<u8>,
}

/// Whether pixel number `p` of an image `width` pixels wide falls inside the mask. Pixels
/// beyond the mask's grid are outside it.
pub open spec fn masked_at(mask: MaskView, width: int, p: int) -> bool {
    let x = p % width;
    let y = p / width;
    x < mask.width && y < mask.height && mask.inside[y * mask.width + x]
}

/// Perceived brightness of pixel `p` in thousandths of a level.
pub open spec fn luma_milli(px: Seq<u8>, p: int) -> int {
    299 * px[3 * p] + 587 * px[3 * p + 1] + 114 * px[3 * p + 2]
}

pub open spec fn is_crushed(px: Seq<u8>, p: int) -> bool {
    px[3 * p] < DARK_LIMIT && px[3 * p + 1] < DARK_LIMIT && px[3 * p + 2] < DARK_LIMIT
}

pub open spec fn is_blown(px: Seq<u8>, p: int) -> bool {
    px[3 * p] > BRIGHT_LIMIT && px[3 * p + 1] > BRIGHT_LIMIT && px[3 * p + 2] > BRIGHT_LIMIT
}

/// Running totals of a scan over the first pixels of an image.
pub struct ScanTotals {
    pub masked: int,
    pub luma: int,
    pub dark: int,
    pub bright: int,
}

/// Totals over pixels `0 .. n` of an image `width` pixels wide.
pub open spec fn scan_totals(mask: MaskView, width: int, px: Seq<u8>, n: int) -> ScanTotals
    decreases n,
{
    if n <= 0 {
        ScanTotals { masked: 0, luma: 0, dark: 0, bright: 0 }
    } else {
        let t = scan_totals(mask, width, px, n - 1);
        let p = n - 1;
        if masked_at(mask, width, p) {
            ScanTotals {
                masked: t.masked + 1,
                luma: t.luma + luma_milli(px, p),
                dark: t.dark + (if is_crushed(px, p) { 1int } else { 0int }),
                bright: t.bright + (if is_blown(px, p) { 1int } else { 0int }),
            }
        } else {
            t
        }
    }
}

/// The statistics of a `width` by `height` image with pixel bytes `px` over `mask`.
pub open spec fn exposure_stats(mask: MaskView, width: int, height: int, px: Seq<u8>) -> ExposureStats {
    let t = scan_totals(mask, width, px, width * height);
    ExposureStats {
        pixels_below: t.dark as u64,
        pixels_above: t.bright as u64,
        mean_brightness: if t.masked == 0 {
            0
        } else {
            (t.luma / t.masked) as u64
        },
    }
}

/// Brightness statistics of `image` over the pixels inside `mask`.
pub fn scan_exposure(image: &RgbImage, mask: &CircleMask) -> (r: ExposureStats)
    requires
        mask.wf(),
        3 * (image.width * image.height) <= image.pixels@.len(),
    ensures
        r == exposure_stats(mask@, image.width as int, image.height as int, image.pixels@),
{
    let w = image.width as usize;
    let ghost width = image.width as int;
    let pixel_bytes = image.pixels.len();
    let mask_len = mask.inside.len();
    assert(image.width * image.height <= usize::MAX);
    let n: usize = w * (image.height as usize);
    let mut masked: u64 = 0;
    let mut luma: u128 = 0;
    let mut dark: u64 = 0;
    let mut bright: u64 = 0;
    let mut p: usize = 0;
    while p < n
        invariant
            p <= n,
            n == image.width * image.height,
            w == image.width,
            width == image.width,
            mask.wf(),
            3 * n <= image.pixels@.len(),
            pixel_bytes == image.pixels@.len(),
            mask_len == mask.inside@.len(),
            masked <= p,
            dark <= p,
            bright <= p,
            luma <= 255000 * masked,
            masked == scan_totals(mask@, width, image.pixels@, p as int).masked,
            luma == scan_totals(mask@, width, image.pixels@, p as int).luma,
            dark == scan_totals(mask@, width, image.pixels@, p as int).dark,
            bright == scan_totals(mask@, width, image.pixels@, p as int).bright,
        decreases n - p,
    {
        assert(w > 0) by (nonlinear_arith)
            requires
                p < n,
                n == w * image.height,
        ;
        let x = p % w;
        let y = p / w;
        let inside = if x < mask.width as usize && y < mask.height as usize {
            assert(y * mask.width + x < mask.width * mask.height) by (nonlinear_arith)
                requires
                    y < mask.height,
                    x < mask.width,
            ;
            mask.inside[y * (mask.width as usize) + x]
        } else {
            false
        };
        if inside {
            let i = 3 * p;
            let r = image.pixels[i];
            let g = image.pixels[i + 1];
            let b = image.pixels[i + 2];
            luma = luma + 299 * (r as u128) + 587 * (g as u128) + 114 * (b as u128);
            masked = masked + 1;
            if r < DARK_LIMIT && g < DARK_LIMIT && b < DARK_LIMIT {
                dark = dark + 1;
            } else if r > BRIGHT_LIMIT && g > BRIGHT_LIMIT && b > BRIGHT_LIMIT {
                bright = bright + 1;
            }
        }
        p = p + 1;
    }
    let mean: u64 = if masked == 0 {
        0
    } else {
        assert((luma as int) / (masked as int) <= 255000) by (nonlinear_arith)
            requires
                luma <= 255000 * masked,
                masked > 0,
        ;
        (luma / (masked as u128)) as u64
    };
    ExposureStats { pixels_below: dark, pixels_above: bright, mean_brightness: mean }
}

/// What decoding a file's bytes gives: width, height and pixel bytes, or nothing when the
/// bytes are not an image that can be read.
pub uninterp spec fn decoded_image(bytes: Seq<u8>) -> Option<(u32, u32, Seq<u8>)>;

/// Relies on `image::load_from_memory` (format guessed from the bytes) and
/// `DynamicImage::to_rgb8`: decoding depends on the bytes alone, and the buffer of an
/// `RgbImage` holds at least three bytes per pixel.
#[verifier::external_body]
fn decode_rgb(bytes: &[u8]) -> (r: Result<RgbImage, String>)
    ensures
        r matches Ok(img) ==> decoded_image(bytes@) == Some((img.width, img.height, img.pixels@))
            && 3 * (img.width * img.height) <= img.pixels@.len(),
        r is Err ==> decoded_image(bytes@) is None,
{
    match image::load_from_memory(bytes) {
        Ok(decoded) => {
            let rgb = decoded.to_rgb8();
            let (width, height) = rgb.dimensions();
            Ok(RgbImage { width, height, pixels: rgb.into_raw() })
        },
        Err(e) => Err(e.to_string()),
    }
}

/// What analysing one candidate's bytes over `mask` gives.
pub open spec fn analysis_outcome(bytes: Seq<u8>, mask: MaskView, r: Result<ExposureStats, String>) -> bool {
    match decoded_image(bytes) {
        None => r is Err,
        Some((w, h, px)) => r == Ok::<ExposureStats, String>(
            exposure_stats(mask, w as int, h as int, px),
        ),
    }
}

/// Decodes one candidate and measures it over `mask`; the error holds the decoder's message.
pub fn analyze_exposure(bytes: &Vec<u8>, mask: &CircleMask) -> (r: Result<ExposureStats, String>)
    requires
        mask.wf(),
    ensures
        analysis_outcome(bytes@, mask@, r),
{
    match decode_rgb(bytes.as_slice()) {
        Ok(image) => Ok(scan_exposure(&image, mask)),
        Err(message) => Err(message),
    }
}

/// Relies on rayon's `par_iter().map(..).collect_into_vec(..)`: the closure runs on every
/// item, on a pool of threads, and the results land in the order of the items.
#[verifier::external_body]
fn analyze_all(images: &Vec<Vec<u8>>, mask: &CircleMask) -> (r: Vec<Result<ExposureStats, String>>)
    requires
        mask.wf(),
    ensures
        r@.len() == images@.len(),
        forall|i: int| 0 <= i < images@.len() ==> analysis_outcome(images@[i]@, mask@, #[trigger] r@[i]),
{
    let mut out = Vec::new();
    images.par_iter().map(|bytes| analyze_exposure(bytes, mask)).collect_into_vec(&mut out);
    out
}


/// Candidate `i` comes before candidate `j`: it is brighter, or as bright and given earlier.
pub open spec fn ranks_before(s: Seq<ExposureStats>, i: int, j: int) -> bool {
    s[i].mean_brightness > s[j].mean_brightness || (s[i].mean_brightness
        == s[j].mean_brightness && i < j)
}

/// `ord` lists the candidates of `s` from brightest to darkest, equal brightness in input order.
pub open spec fn is_brightness_order(s: Seq<ExposureStats>, ord: Seq<usize>) -> bool {
    &&& ord.len() == s.len()
    &&& forall|k: int| 0 <= k < ord.len() ==> #[trigger] ord[k] < s.len()
    &&& forall|a: int, b: int|
        0 <= a < b < ord.len() ==> ranks_before(s, #[trigger] ord[a] as int, #[trigger] ord[b] as int)
}

/// The statistics of `s` taken in the order `ord`.
pub open spec fn in_order(s: Seq<ExposureStats>, ord: Seq<usize>) -> Seq<ExposureStats> {
    ord.map_values(|i: usize| s[i as int])
}

/// The first position at or after `i` whose exposure has no crushed black, or `s.len()`.
pub open spec fn first_free_of_black(s: Seq<ExposureStats>, i: int) -> int
    decreases s.len() - i,
{
    if i >= s.len() {
        s.len() as int
    } else if s[i].pixels_below == 0 {
        i
    } else {
        first_free_of_black(s, i + 1)
    }
}

/// Where the kept range starts in the brightness-sorted statistics: the first exposure with
/// no crushed black, or 0 when every one has some.
pub open spec fn selection_start(s: Seq<ExposureStats>) -> int {
    let k = first_free_of_black(s, 0);
    if k < s.len() {
        k
    } else {
        0
    }
}

/// The last position `p` with `lo < p < j` whose exposure has no blown highlight, or `s.len()`.
pub open spec fn last_free_of_white(s: Seq<ExposureStats>, lo: int, j: int) -> int
    decreases j - lo,
{
    if j <= lo + 1 {
        s.len() as int
    } else if s[j - 1].pixels_above == 0 {
        j - 1
    } else {
        last_free_of_white(s, lo, j - 1)
    }
}

/// Where the kept range ends (exclusive) in the brightness-sorted statistics: the last
/// exposure after the start with no blown highlight, or the count of exposures.
pub open spec fn selection_end(s: Seq<ExposureStats>) -> int {
    last_free_of_white(s, selection_start(s), s.len() as int)
}

/// The paths kept when the candidates `paths`, measured as `s`, are taken in the order `ord`.
pub open spec fn selected_paths(paths: Seq<String>, s: Seq<ExposureStats>, ord: Seq<usize>) -> Seq<String> {
    let sorted = in_order(s, ord);
    ord.subrange(selection_start(sorted), selection_end(sorted)).map_values(
        |i: usize| paths[i as int],
    )
}

proof fn lemma_last_free_of_white_range(s: Seq<ExposureStats>, lo: int, j: int)
    requires
        0 <= lo,
        j <= s.len(),
    ensures
        last_free_of_white(s, lo, j) == s.len() || lo < last_free_of_white(s, lo, j) < j,
    decreases j - lo,
{
    if j > lo + 1 && s[j - 1].pixels_above != 0 {
        lemma_last_free_of_white_range(s, lo, j - 1);
    }
}

/// The candidates from brightest to darkest; equally bright ones keep their input order.
pub fn brightness_order(stats: &Vec<ExposureStats>) -> (ord: Vec<usize>)
    ensures
        is_brightness_order(stats@, ord@),
{
    let n = stats.len();
    let mut ord: Vec<usize> = Vec::new();
    let mut i: usize = 0;
    while i < n
        invariant
            i <= n == stats@.len(),
            ord@.len() == i,
            forall|k: int| 0 <= k < ord@.len() ==> #[trigger] ord@[k] < i,
            forall|a: int, b: int|
                0 <= a < b < ord@.len() ==> ranks_before(
                    stats@,
                    #[trigger] ord@[a] as int,
                    #[trigger] ord@[b] as int,
                ),
        decreases n - i,
    {
        let key = stats[i].mean_brightness;
        let mut pos: usize = 0;
        while pos < ord.len() && stats[ord[pos]].mean_brightness >= key
            invariant
                i < n == stats@.len(),
                pos <= ord@.len() == i,
                key == stats@[i as int].mean_brightness,
                forall|k: int| 0 <= k < ord@.len() ==> #[trigger] ord@[k] < i,
                forall|k: int| 0 <= k < pos ==> stats@[#[trigger] ord@[k] as int].mean_brightness >= key,
            decreases ord@.len() - pos,
        {
            pos = pos + 1;
        }
        let ghost old_ord = ord@;
        ord.insert(pos, i);
        assert forall|a: int, b: int| 0 <= a < b < ord@.len() implies ranks_before(
            stats@,
            #[trigger] ord@[a] as int,
            #[trigger] ord@[b] as int,
        ) by {
            if b < pos {
                assert(ord@[a] == old_ord[a] && ord@[b] == old_ord[b]);
            } else if b == pos {
                assert(ord@[a] == old_ord[a]);
            } else if a < pos {
                assert(ord@[a] == old_ord[a] && ord@[b] == old_ord[b - 1]);
            } else if a == pos {
                assert(ord@[b] == old_ord[b - 1]);
                assert(ranks_before(stats@, old_ord[pos as int] as int, old_ord[b - 1] as int)
                    || b - 1 == pos);
            } else {
                assert(ord@[a] == old_ord[a - 1] && ord@[b] == old_ord[b - 1]);
            }
        }
        i = i + 1;
    }
    ord
}

/// Where the kept range starts and ends (exclusive) in brightness-sorted statistics.
pub fn selection_bounds(sorted: &Vec<ExposureStats>) -> (r: (usize, usize))
    ensures
        r.0 == selection_start(sorted@),
        r.1 == selection_end(sorted@),
        r.0 <= r.1 <= sorted@.len(),
{
    let n = sorted.len();
    let mut i: usize = 0;
    while i < n && sorted[i].pixels_below != 0
        invariant
            i <= n == sorted@.len(),
            first_free_of_black(sorted@, 0) == first_free_of_black(sorted@, i as int),
        decreases n - i,
    {
        i = i + 1;
    }
    let start = if i < n {
        i
    } else {
        0
    };
    let mut j: usize = n;
    while j > start + 1 && sorted[j - 1].pixels_above != 0
        invariant
            start < n ==> j <= n,
            start == selection_start(sorted@),
            n == sorted@.len(),
            j <= n,
            last_free_of_white(sorted@, start as int, n as int) == last_free_of_white(
                sorted@,
                start as int,
                j as int,
            ),
        decreases j,
    {
        j = j - 1;
    }
    let end = if j > start + 1 {
        j - 1
    } else {
        n
    };
    proof {
        lemma_last_free_of_white_range(sorted@, start as int, n as int);
    }
    (start, end)
}

/// The exposures worth merging: the candidates from brightest to darkest, from the first one
/// with no crushed black up to (not including) the last later one with no blown highlight.
pub fn select_exposures(paths: &Vec<String>, stats: &Vec<ExposureStats>) -> (r: Vec<String>)
    requires
        paths@.len() == stats@.len(),
    ensures
        exists|ord: Seq<usize>| is_brightness_order(stats@, ord) && r@ == selected_paths(paths@, stats@, ord),
{
    let ord = brightness_order(stats);
    let mut sorted: Vec<ExposureStats> = Vec::new();
    let mut k: usize = 0;
    while k < ord.len()
        invariant
            is_brightness_order(stats@, ord@),
            k <= ord@.len(),
            sorted@ == in_order(stats@, ord@).subrange(0, k as int),
        decreases ord@.len() - k,
    {
        sorted.push(stats[ord[k]]);
        k = k + 1;
        assert(sorted@ =~= in_order(stats@, ord@).subrange(0, k as int));
    }
    assert(sorted@ =~= in_order(stats@, ord@));
    let (start, end) = selection_bounds(&sorted);
    let mut kept: Vec<String> = Vec::new();
    let mut q: usize = start;
    while q < end
        invariant
            is_brightness_order(stats@, ord@),
            paths@.len() == stats@.len(),
            start <= q <= end <= ord@.len(),
            kept@ == ord@.subrange(start as int, q as int).map_values(|i: usize| paths@[i as int]),
        decreases end - q,
    {
        kept.push(paths[ord[q]].clone());
        q = q + 1;
        assert(kept@ =~= ord@.subrange(start as int, q as int).map_values(|i: usize| paths@[i as int]));
    }
    assert(kept@ == selected_paths(paths@, stats@, ord@));
    kept
}


/// Whether every candidate's bytes decode.
pub open spec fn all_decode(contents: Seq<Vec<u8>>) -> bool {
    forall|i: int| 0 <= i < contents.len() ==> (#[trigger] decoded_image(contents[i]@)) is Some
}

/// The statistics of every candidate over `mask`, for candidates that all decode.
pub open spec fn candidate_stats(contents: Seq<Vec<u8>>, mask: MaskView) -> Seq<ExposureStats> {
    Seq::new(
        contents.len(),
        |i: int|
            {
                let (w, h, px) = decoded_image(contents[i]@)->Some_0;
                exposure_stats(mask, w as int, h as int, px)
            },
    )
}

/// What filtering JPEG candidates `paths`, whose files hold `contents`, gives: a decode error
/// when any candidate fails to decode, else the informative ones from brightest to darkest,
/// measured over the fisheye mask of the first candidate's grid.
/// The start of the message for an image that does not decode: it names the image.
pub open spec fn decode_failure_prefix(path: Seq<char>) -> Seq<char> {
    "Failed to decode image "@ + path + ": "@
}

/// `message` names the first candidate whose bytes do not decode.
pub open spec fn names_first_undecodable(paths: Seq<String>, contents: Seq<Vec<u8>>, message: Seq<char>) -> bool {
    exists|k: int|
        0 <= k < contents.len() && (#[trigger] decoded_image(contents[k]@)) is None && (forall|j: int|
            0 <= j < k ==> (#[trigger] decoded_image(contents[j]@)) is Some) && {
            let prefix = decode_failure_prefix(paths[k]@);
            prefix.len() <= message.len() && message.subrange(0, prefix.len() as int) == prefix
        }
}

pub open spec fn filter_outcome(
    paths: Seq<String>,
    contents: Seq<Vec<u8>>,
    g: FisheyeGeometry,
    r: Result<Vec<String>, PipelineError>,
) -> bool {
    if !all_decode(contents) {
        r matches Err(e) && e.kind == ErrorKind::Decode && names_first_undecodable(
            paths,
            contents,
            e.message@,
        )
    } else {
        let (w0, h0, px0) = decoded_image(contents[0]@)->Some_0;
        let stats = candidate_stats(contents, fisheye_mask(g, w0 as nat, h0 as nat));
        &&& r matches Ok(kept)
        &&& exists|ord: Seq<usize>|
            is_brightness_order(stats, ord) && kept@ == selected_paths(paths, stats, ord)
    }
}

fn decode_failure(path: &String, detail: &String) -> (r: String)
    ensures
        r@ == decode_failure_prefix(path@) + detail@,
{
    let mut message = String::from_str("Failed to decode image ");
    message.append(path.as_str());
    message.append(": ");
    message.append(detail.as_str());
    message
}

/// Drops the exposures that add no range to the merge. Candidates that are not JPEG (judged
/// by the first one) come back unchanged. `contents[i]` holds the bytes of `input_images[i]`;
/// they are read only when the first candidate is a JPEG.
pub fn filter_images(
    input_images: &Vec<String>,
    contents: &Vec<Vec<u8>>,
    geometry: FisheyeGeometry,
) -> (r: Result<Vec<String>, PipelineError>)
    requires
        input_images@.len() > 0 && is_jpeg_path(input_images@[0]@) ==> contents@.len()
            == input_images@.len(),
    ensures
        input_images@.len() == 0 || !is_jpeg_path(input_images@[0]@) ==> (r matches Ok(kept)
            && kept@ == input_images@),
        input_images@.len() > 0 && is_jpeg_path(input_images@[0]@) ==> filter_outcome(
            input_images@,
            contents@,
            geometry,
            r,
        ),
{
    if input_images.len() == 0 || !is_jpeg(input_images[0].as_str()) {
        let mut same: Vec<String> = Vec::new();
        let mut k: usize = 0;
        while k < input_images.len()
            invariant
                k <= input_images@.len(),
                same@ == input_images@.subrange(0, k as int),
            decreases input_images@.len() - k,
        {
            same.push(input_images[k].clone());
            k = k + 1;
            assert(same@ =~= input_images@.subrange(0, k as int));
        }
        assert(same@ =~= input_images@);
        return Ok(same);
    }
    let first = match decode_rgb(contents[0].as_slice()) {
        Ok(image) => image,
        Err(detail) => {
            assert(!all_decode(contents@)) by {
                assert(decoded_image(contents@[0]@) is None);
            }
            let message = decode_failure(&input_images[0], &detail);
            assert(message@.subrange(0, decode_failure_prefix(input_images@[0]@).len() as int)
                =~= decode_failure_prefix(input_images@[0]@));
            assert(names_first_undecodable(input_images@, contents@, message@)) by {
                assert(decoded_image(contents@[0]@) is None);
            }
            return Err(PipelineError { kind: ErrorKind::Decode, message });
        },
    };
    let first_bytes = first.pixels.len();
    let mask = compute_circle_mask(geometry, first.width, first.height);
    let results = analyze_all(contents, &mask);
    let ghost m = fisheye_mask(geometry, first.width as nat, first.height as nat);
    assert(mask@ == m);
    let mut stats: Vec<ExposureStats> = Vec::new();
    let mut i: usize = 0;
    while i < results.len()
        invariant
            results@.len() == contents@.len() == input_images@.len(),
            input_images@.len() > 0 && is_jpeg_path(input_images@[0]@),
            decoded_image(contents@[0]@) == Some((first.width, first.height, first.pixels@)),
            m == fisheye_mask(geometry, first.width as nat, first.height as nat),
            i <= results@.len(),
            mask@ == m,
            forall|j: int| 0 <= j < contents@.len() ==> analysis_outcome(contents@[j]@, m, #[trigger] results@[j]),
            stats@.len() == i,
            forall|j: int| 0 <= j < i ==> (#[trigger] decoded_image(contents@[j]@)) is Some,
            forall|j: int| 0 <= j < i ==> #[trigger] stats@[j] == candidate_stats(contents@, m)[j],
        decreases results@.len() - i,
    {
        match &results[i] {
            Ok(found) => {
                assert(analysis_outcome(contents@[i as int]@, m, results@[i as int]));
                stats.push(*found);
            },
            Err(detail) => {
                assert(analysis_outcome(contents@[i as int]@, m, results@[i as int]));
                assert(!all_decode(contents@));
                let message = decode_failure(&input_images[i], detail);
                assert(message@.subrange(0, decode_failure_prefix(input_images@[i as int]@).len() as int)
                    =~= decode_failure_prefix(input_images@[i as int]@));
                assert(names_first_undecodable(input_images@, contents@, message@)) by {
                    assert(decoded_image(contents@[i as int]@) is None);
                }
                return Err(PipelineError { kind: ErrorKind::Decode, message });
            },
        }
        i = i + 1;
    }
    assert(all_decode(contents@));
    assert(stats@ =~= candidate_stats(contents@, m));
    let kept = select_exposures(input_images, &stats);
    let r: Result<Vec<String>, PipelineError> = Ok(kept);
    assert(filter_outcome(input_images@, contents@, geometry, r)) by {
        let (w0, h0, px0) = decoded_image(contents@[0]@)->Some_0;
        assert(w0 == first.width && h0 == first.height);
    }
    r
}


/// Every candidate appears in a brightness order.
proof fn lemma_order_lists_every_candidate(s: Seq<ExposureStats>, ord: Seq<usize>, v: int)
    requires
        is_brightness_order(s, ord),
        0 <= v < s.len(),
    ensures
        exists|p: int| 0 <= p < ord.len() && ord[p] == v,
{
    let ints = ord.map_values(|x: usize| x as int);
    assert(ints.no_duplicates()) by {
        assert forall|i: int, j: int| 0 <= i < ints.len() && 0 <= j < ints.len() && i != j implies ints[i]
            != ints[j] by {
            if i < j {
                assert(ranks_before(s, ord[i] as int, ord[j] as int));
            } else {
                assert(ranks_before(s, ord[j] as int, ord[i] as int));
            }
        }
    }
    ints.unique_seq_to_set();
    let range = vstd::set_lib::set_int_range(0, s.len() as int);
    vstd::set_lib::lemma_int_range(0, s.len() as int);
    assert(ints.to_set().subset_of(range)) by {
        assert forall|x: int| ints.to_set().contains(x) implies range.contains(x) by {
            let p = choose|p: int| 0 <= p < ints.len() && ints[p] == x;
            assert(ord[p] < s.len());
        }
    }
    vstd::seq_lib::seq_to_set_is_finite(ints);
    vstd::set_lib::lemma_subset_equality(ints.to_set(), range);
    assert(range.contains(v));
    assert(ints.to_set().contains(v));
    let p = choose|p: int| 0 <= p < ints.len() && ints[p] == v;
    assert(ord[p] == v);
}

proof fn lemma_orders_agree_below(s: Seq<ExposureStats>, a: Seq<usize>, b: Seq<usize>, k: int)
    requires
        is_brightness_order(s, a),
        is_brightness_order(s, b),
        0 <= k <= a.len(),
    ensures
        forall|j: int| 0 <= j < k ==> a[j] == b[j],
    decreases k,
{
    if k > 0 {
        lemma_orders_agree_below(s, a, b, k - 1);
        let i = k - 1;
        let x = a[i] as int;
        let y = b[i] as int;
        if x != y {
            lemma_order_lists_every_candidate(s, a, y);
            lemma_order_lists_every_candidate(s, b, x);
            let p = choose|p: int| 0 <= p < a.len() && a[p] == y;
            let q = choose|q: int| 0 <= q < b.len() && b[q] == x;
            if p < i {
                assert(b[p] == a[p]);
                assert(ranks_before(s, b[p] as int, b[i] as int));
            }
            if q < i {
                assert(a[q] == b[q]);
                assert(ranks_before(s, a[q] as int, a[i] as int));
            }
            assert(ranks_before(s, a[i] as int, a[p] as int));
            assert(ranks_before(s, b[i] as int, b[q] as int));
        }
    }
}

/// The brightness order of a set of candidates is unique: sorting is deterministic, equal
/// brightness going by input order.
pub proof fn lemma_brightness_order_unique(s: Seq<ExposureStats>, a: Seq<usize>, b: Seq<usize>)
    requires
        is_brightness_order(s, a),
        is_brightness_order(s, b),
    ensures
        a == b,
{
    lemma_orders_agree_below(s, a, b, a.len() as int);
    assert(a =~= b);
}

} // verus!
