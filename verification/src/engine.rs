//! Decisions of the OCR pipeline: how rotated text is handled, how detected
//! regions are recognized, the reading order of results, and how a reported
//! page orientation is corrected.
use image::DynamicImage;
use vstd::prelude::*;
use crate::mnn::{Backend, InferenceConfig, PrecisionMode};

verus! {

/// Regions are recognized with exact-width parallel inference from this many on.
pub const PARALLEL_RECOGNITION_MIN_REGIONS: usize = 5;

/// Strategy for recognizing text whose baseline is rotated by 90 or 270 degrees.
///
/// This is independent of the optional document-orientation model. The latter
/// rotates a whole page, while this mode handles mixed horizontal and vertical
/// text regions in the same image.
#[non_exhaustive]
#[derive(Debug, Default, Clone, Copy, PartialEq, Eq)]
pub enum RotatedTextMode {
    /// Keep the standard single-pass OCR pipeline.
    #[default]
    Disabled,
    /// Re-orient tall regions already found by the normal detection pass.
    DetectedOnly,
    /// Also detect on 90° and 270° copies to recover regions missed by the
    /// normal detection pass.
    Robust,
}

/// How a set of detected regions is recognized.
#[derive(Debug, Clone, Copy, PartialEq, Eq)]
pub enum RegionRecognitionStrategy {
    /// Padded batches of regions.
    Batch,
    /// One exact-width tensor per region, prepared in parallel.
    ExactWidthParallel,
}

/// Exact-width parallel recognition is used when parallelism is enabled and
/// the page has at least five regions.
pub open spec fn region_strategy_for(enable_parallel: bool, region_count: usize) -> RegionRecognitionStrategy {
    if enable_parallel && region_count >= PARALLEL_RECOGNITION_MIN_REGIONS {
        RegionRecognitionStrategy::ExactWidthParallel
    } else {
        RegionRecognitionStrategy::Batch
    }
}

/// Chooses how the detected regions of a page are recognized.
pub fn select_region_recognition_strategy(enable_parallel: bool, region_count: usize) -> (r:
    RegionRecognitionStrategy)
    ensures
        r == region_strategy_for(enable_parallel, region_count),
{
    if enable_parallel && region_count >= PARALLEL_RECOGNITION_MIN_REGIONS {
        RegionRecognitionStrategy::ExactWidthParallel
    } else {
        RegionRecognitionStrategy::Batch
    }
}

// ============== Engine configuration ==============

/// The inference configuration that the models of an engine are created with:
/// the engine's backend, thread count and precision, and the defaults of
/// [`InferenceConfig`] for everything else.
pub fn engine_inference_config(backend: Backend, thread_count: i32, precision_mode: PrecisionMode) -> (r:
    InferenceConfig)
    ensures
        r == (InferenceConfig {
            thread_count: thread_count,
            precision_mode: precision_mode,
            backend: backend,
            ..crate::mnn::default_inference_config()
        }),
{
    InferenceConfig::new().with_threads(thread_count).with_precision(precision_mode).with_backend(
        backend,
    )
}

/// The model paths an engine builder must have been given, in the order it
/// checks them: detection model, recognition model, charset. The first one
/// missing is reported.
pub fn required_model_paths<P>(det: Option<P>, rec: Option<P>, charset: Option<P>) -> (r: Result<
    (P, P, P),
    crate::error::OcrError,
>)
    ensures
        det is None ==> (r matches Err(crate::error::OcrError::InvalidParameter(m)) && m@
            == "Missing det_model_path"@),
        det is Some && rec is None ==> (r matches Err(crate::error::OcrError::InvalidParameter(m))
            && m@ == "Missing rec_model_path"@),
        det is Some && rec is Some && charset is None ==> (r matches Err(
            crate::error::OcrError::InvalidParameter(m),
        ) && m@ == "Missing charset_path"@),
        det matches Some(d) ==> (rec matches Some(e) ==> (charset matches Some(c) ==> r matches Ok(
            paths,
        ) && paths == (d, e, c))),
{
    let d = match det {
        Some(d) => d,
        None => {
            return Err(
                crate::error::OcrError::InvalidParameter(String::from_str("Missing det_model_path")),
            );
        },
    };
    let e = match rec {
        Some(e) => e,
        None => {
            return Err(
                crate::error::OcrError::InvalidParameter(String::from_str("Missing rec_model_path")),
            );
        },
    };
    let c = match charset {
        Some(c) => c,
        None => {
            return Err(
                crate::error::OcrError::InvalidParameter(String::from_str("Missing charset_path")),
            );
        },
    };
    Ok((d, e, c))
}

// ============== Vertical text ==============

/// The two corner orders under which a tall box `[top_left, top_right,
/// bottom_right, bottom_left]` reads as a horizontal line: turned a quarter
/// clockwise and a quarter counter-clockwise.
pub fn vertical_recognition_variants<P: Copy>(corners: [P; 4]) -> (r: [[P; 4]; 2])
    ensures
        r[0]@ == seq![corners[3], corners[0], corners[1], corners[2]],
        r[1]@ == seq![corners[1], corners[2], corners[3], corners[0]],
{
    let top_left = corners[0];
    let top_right = corners[1];
    let bottom_right = corners[2];
    let bottom_left = corners[3];
    let r = [
        [bottom_left, top_left, top_right, bottom_right],
        [top_right, bottom_right, bottom_left, top_left],
    ];
    assert(r[0]@ =~= seq![corners[3], corners[0], corners[1], corners[2]]);
    assert(r[1]@ =~= seq![corners[1], corners[2], corners[3], corners[0]]);
    r
}

/// Turning the corner cycle of a box by one position.
pub open spec fn rotate_corners_right<P>(c: Seq<P>) -> Seq<P> {
    seq![c[3], c[0], c[1], c[2]]
}

/// Turning the corner cycle of a box by one position the other way.
pub open spec fn rotate_corners_left<P>(c: Seq<P>) -> Seq<P> {
    seq![c[1], c[2], c[3], c[0]]
}

/// The two vertical variants are inverse to each other: applying one order
/// after the other gives back the corners it started from.
pub proof fn law_vertical_variants_inverse<P>(c: Seq<P>)
    requires
        c.len() == 4,
    ensures
        rotate_corners_left(rotate_corners_right(c)) == c,
        rotate_corners_right(rotate_corners_left(c)) == c,
{
    assert(rotate_corners_left(rotate_corners_right(c)) =~= c);
    assert(rotate_corners_right(rotate_corners_left(c)) =~= c);
}

// ============== Reading order ==============

/// Result `a` comes before result `b` in reading order: by top edge, then by
/// left edge, then by its position in the input (the sort is stable).
pub open spec fn reads_before(keys: Seq<(i32, i32)>, a: usize, b: usize) -> bool {
    keys[a as int].0 < keys[b as int].0 || (keys[a as int].0 == keys[b as int].0 && (keys[a
        as int].1 < keys[b as int].1 || (keys[a as int].1 == keys[b as int].1 && a < b)))
}

/// `order` lists every index of `keys` exactly once.
pub open spec fn is_index_permutation(order: Seq<usize>, n: nat) -> bool {
    &&& order.len() == n
    &&& forall|p: int| 0 <= p < order.len() ==> #[trigger] order[p] < n
    &&& forall|p: int, q: int| 0 <= p < q < order.len() ==> #[trigger] order[p] != #[trigger] order[q]
}

/// `order` is in reading order.
pub open spec fn in_reading_order(keys: Seq<(i32, i32)>, order: Seq<usize>) -> bool {
    forall|p: int, q: int|
        0 <= p < q < order.len() ==> #[trigger] reads_before(keys, order[p], order[q])
}

/// The reading order of results whose boxes have the given `(top, left)`
/// corners: the indices of the results sorted by top edge, then left edge,
/// keeping the input order of equal corners.
pub fn reading_order(keys: &[(i32, i32)]) -> (r: Vec<usize>)
    ensures
        is_index_permutation(r@, keys@.len()),
        in_reading_order(keys@, r@),
{
    let mut order: Vec<usize> = Vec::new();
    let mut i: usize = 0;
    while i < keys.len()
        invariant
            i <= keys@.len(),
            is_index_permutation(order@, i as nat),
            in_reading_order(keys@, order@),
        decreases keys@.len() - i,
    {
        let (top, left) = keys[i];
        let mut pos: usize = 0;
        while pos < order.len() && !(top < keys[order[pos]].0 || (top == keys[order[pos]].0 && left
            < keys[order[pos]].1))
            invariant
                i < keys@.len(),
                (top, left) == keys@[i as int],
                pos <= order@.len(),
                is_index_permutation(order@, i as nat),
                forall|p: int| 0 <= p < pos ==> #[trigger] reads_before(keys@, order@[p], i),
            decreases order@.len() - pos,
        {
            pos = pos + 1;
        }
        proof {
            if pos < order@.len() {
                assert forall|q: int| pos <= q < order@.len() implies #[trigger] reads_before(
                    keys@,
                    i,
                    order@[q],
                ) by {
                    if q > pos {
                        assert(reads_before(keys@, order@[pos as int], order@[q]));
                    }
                }
            }
        }
        let ghost before = order@;
        order.insert(pos, i);
        proof {
            assert(order@ == before.insert(pos as int, i));
            assert forall|p: int, q: int| 0 <= p < q < order@.len() implies #[trigger] order@[p]
                != #[trigger] order@[q] by {
                if p < pos && q < pos {
                } else if p < pos && q == pos {
                } else if p < pos {
                    assert(order@[q] == before[q - 1]);
                } else if p == pos {
                    assert(order@[q] == before[q - 1]);
                } else {
                    assert(order@[p] == before[p - 1] && order@[q] == before[q - 1]);
                }
            }
            assert forall|p: int, q: int| 0 <= p < q < order@.len() implies #[trigger] reads_before(
                keys@,
                order@[p],
                order@[q],
            ) by {
                if p < pos && q < pos {
                    assert(reads_before(keys@, before[p], before[q]));
                } else if p < pos && q == pos {
                } else if p < pos {
                    assert(order@[q] == before[q - 1]);
                    assert(reads_before(keys@, before[p], before[q - 1]));
                } else if p == pos {
                    assert(order@[q] == before[q - 1]);
                } else {
                    assert(order@[p] == before[p - 1] && order@[q] == before[q - 1]);
                    assert(reads_before(keys@, before[p - 1], before[q - 1]));
                }
            }
        }
        i = i + 1;
    }
    order
}

// ============== Page orientation ==============

/// A clockwise quarter-turn multiple applied to a page image.
#[derive(Debug, Clone, Copy, PartialEq, Eq)]
pub enum ImageTurn {
    Clockwise90,
    Clockwise180,
    Clockwise270,
}

/// The clockwise angle of a turn, in degrees.
pub open spec fn turn_degrees(t: ImageTurn) -> int {
    match t {
        ImageTurn::Clockwise90 => 90,
        ImageTurn::Clockwise180 => 180,
        ImageTurn::Clockwise270 => 270,
    }
}

/// The turn that undoes a page rotation reported as `angle` degrees from
/// horizontal, taken modulo 360; none for an upright page or an angle that is
/// not a quarter turn.
pub open spec fn correction_for(angle: int) -> Option<ImageTurn> {
    let a = angle % 360;
    if a == 90 {
        Some(ImageTurn::Clockwise270)
    } else if a == 180 {
        Some(ImageTurn::Clockwise180)
    } else if a == 270 {
        Some(ImageTurn::Clockwise90)
    } else {
        None
    }
}

/// The turn that corrects a page reported as rotated by `angle` degrees.
pub fn orientation_correction(angle: i32) -> (r: Option<ImageTurn>)
    ensures
        r == correction_for(angle as int),
{
    let a = match angle.checked_rem_euclid(360) {
        Some(a) => a,
        None => 0,
    };
    if a == 90 {
        Some(ImageTurn::Clockwise270)
    } else if a == 180 {
        Some(ImageTurn::Clockwise180)
    } else if a == 270 {
        Some(ImageTurn::Clockwise90)
    } else {
        None
    }
}

/// A reported angle that is a multiple of 360 degrees needs no correction.
pub fn is_upright(angle: i32) -> (r: bool)
    ensures
        r == (angle as int % 360 == 0),
{
    match angle.checked_rem_euclid(360) {
        Some(a) => a == 0,
        None => false,
    }
}

/// The correction undoes the reported rotation (the two add up to whole
/// turns), depends only on the angle modulo 360, and exists exactly for
/// quarter, half and three-quarter turns.
pub proof fn law_correction_undoes_rotation(angle: int)
    ensures
        correction_for(angle) matches Some(t) ==> (angle + turn_degrees(t)) % 360 == 0,
        correction_for(angle) == correction_for(angle + 360),
        correction_for(angle) is Some <==> (angle % 360 == 90 || angle % 360 == 180 || angle % 360
            == 270),
{
    assert((angle + 360) % 360 == angle % 360) by (nonlinear_arith);
    if correction_for(angle) is Some {
        let a = angle % 360;
        vstd::arithmetic::div_mod::lemma_fundamental_div_mod(angle, 360);
        let q = angle / 360;
        assert(angle + (360 - a) == (q + 1) * 360);
        vstd::arithmetic::div_mod::lemma_mod_multiples_basic(q + 1, 360);
    }
}

// ============== Turning page images ==============

/// Width and height of an image of the given size after the turn: a quarter
/// or three-quarter turn swaps them.
pub open spec fn turned_size(size: (u32, u32), turn: ImageTurn) -> (u32, u32) {
    match turn {
        ImageTurn::Clockwise180 => size,
        _ => (size.1, size.0),
    }
}

/// The image that `DynamicImage::rotate90` makes: turned a quarter clockwise.
pub uninterp spec fn rotated90(img: DynamicImage) -> DynamicImage;

/// The image that `DynamicImage::rotate180` makes: turned half a turn.
pub uninterp spec fn rotated180(img: DynamicImage) -> DynamicImage;

/// The image that `DynamicImage::rotate270` makes: turned three quarters clockwise.
pub uninterp spec fn rotated270(img: DynamicImage) -> DynamicImage;

/// The image turned clockwise by the turn.
pub open spec fn turned(img: DynamicImage, turn: ImageTurn) -> DynamicImage {
    match turn {
        ImageTurn::Clockwise90 => rotated90(img),
        ImageTurn::Clockwise180 => rotated180(img),
        ImageTurn::Clockwise270 => rotated270(img),
    }
}

/// `DynamicImage::rotate90`: the image turned a quarter clockwise, in its own
/// pixel format. The image crate writes it into a buffer of the swapped size.
#[verifier::external_body]
fn rotate90_of(img: &DynamicImage) -> (r: DynamicImage)
    ensures
        r == rotated90(*img),
        crate::preprocess::image_size(r) == turned_size(
            crate::preprocess::image_size(*img),
            ImageTurn::Clockwise90,
        ),
        crate::preprocess::pixel_layout(r) == crate::preprocess::pixel_layout(*img),
{
    img.rotate90()
}

/// `DynamicImage::rotate180`: the image turned half a turn, in its own pixel
/// format and of the same size.
#[verifier::external_body]
fn rotate180_of(img: &DynamicImage) -> (r: DynamicImage)
    ensures
        r == rotated180(*img),
        crate::preprocess::image_size(r) == crate::preprocess::image_size(*img),
        crate::preprocess::pixel_layout(r) == crate::preprocess::pixel_layout(*img),
{
    img.rotate180()
}

/// `DynamicImage::rotate270`: the image turned three quarters clockwise, in
/// its own pixel format and of the swapped size.
#[verifier::external_body]
fn rotate270_of(img: &DynamicImage) -> (r: DynamicImage)
    ensures
        r == rotated270(*img),
        crate::preprocess::image_size(r) == turned_size(
            crate::preprocess::image_size(*img),
            ImageTurn::Clockwise270,
        ),
        crate::preprocess::pixel_layout(r) == crate::preprocess::pixel_layout(*img),
{
    img.rotate270()
}

/// `Clone::clone` of a `DynamicImage`: an equal image.
#[verifier::external_body]
fn image_copy(img: &DynamicImage) -> (r: DynamicImage)
    ensures
        r == *img,
{
    img.clone()
}

/// Turn the image clockwise, keeping its pixel format.
pub fn turn_image(image: &DynamicImage, turn: ImageTurn) -> (r: DynamicImage)
    ensures
        r == turned(*image, turn),
        crate::preprocess::image_size(r) == turned_size(crate::preprocess::image_size(*image), turn),
        crate::preprocess::pixel_layout(r) == crate::preprocess::pixel_layout(*image),
{
    match turn {
        ImageTurn::Clockwise90 => rotate90_of(image),
        ImageTurn::Clockwise180 => rotate180_of(image),
        ImageTurn::Clockwise270 => rotate270_of(image),
    }
}

/// Size of a page image after the correction for a reported rotation of
/// `angle` degrees.
pub open spec fn corrected_size(size: (u32, u32), angle: int) -> (u32, u32) {
    match correction_for(angle) {
        Some(turn) => turned_size(size, turn),
        None => size,
    }
}

/// The page image after the correction for a reported rotation of `angle`
/// degrees: its 8-bit RGB conversion turned back, or the image itself when no
/// correction applies.
pub open spec fn corrected_page(img: DynamicImage, angle: int) -> DynamicImage {
    match correction_for(angle) {
        Some(turn) => turned(crate::preprocess::rgb8_converted(img), turn),
        None => img,
    }
}

/// Rotate a page image back from the rotation reported for it: an image that
/// needs a quarter, half or three-quarter turn is turned as an 8-bit RGB image;
/// any other angle leaves a copy of the image.
pub fn rotate_by_angle(image: &DynamicImage, angle: i32) -> (r: DynamicImage)
    ensures
        r == corrected_page(*image, angle as int),
        crate::preprocess::image_size(r) == corrected_size(
            crate::preprocess::image_size(*image),
            angle as int,
        ),
{
    match orientation_correction(angle) {
        Some(turn) => turn_image(&crate::preprocess::rgb8_image(image), turn),
        None => image_copy(image),
    }
}

/// A page turned clockwise by a quarter-turn multiple and then corrected for
/// that reported angle has the width and height it had before the turn.
pub proof fn law_correction_restores_page_size(size: (u32, u32), turn: ImageTurn)
    ensures
        corrected_size(turned_size(size, turn), turn_degrees(turn)) == size,
{
}

/// A page reported as rotated is turned back as an 8-bit RGB image by the
/// opposite turn: a reported quarter turn (90) by three quarters clockwise, a
/// reported half turn by half a turn, a reported three-quarter turn (270) by a
/// quarter clockwise; any other angle (taken modulo 360) leaves the page as it
/// is.
pub proof fn law_page_turned_back_by_opposite_turn(img: DynamicImage, angle: int)
    ensures
        angle % 360 == 90 ==> corrected_page(img, angle) == rotated270(
            crate::preprocess::rgb8_converted(img),
        ),
        angle % 360 == 180 ==> corrected_page(img, angle) == rotated180(
            crate::preprocess::rgb8_converted(img),
        ),
        angle % 360 == 270 ==> corrected_page(img, angle) == rotated90(
            crate::preprocess::rgb8_converted(img),
        ),
        angle % 360 != 90 && angle % 360 != 180 && angle % 360 != 270 ==> corrected_page(
            img,
            angle,
        ) == img,
        correction_for(angle) matches Some(t) ==> corrected_page(img, angle) == turned(
            crate::preprocess::rgb8_converted(img),
            t,
        ) && (angle + turn_degrees(t)) % 360 == 0,
{
    law_correction_undoes_rotation(angle);
}

/// Turning an image is the image crate's rotation by the turn's angle: 90,
/// 180 or 270 degrees clockwise.
pub proof fn law_turn_is_rotation_by_its_degrees(img: DynamicImage, turn: ImageTurn)
    ensures
        turn_degrees(turn) == 90 ==> turned(img, turn) == rotated90(img),
        turn_degrees(turn) == 180 ==> turned(img, turn) == rotated180(img),
        turn_degrees(turn) == 270 ==> turned(img, turn) == rotated270(img),
{
}

} // verus!
