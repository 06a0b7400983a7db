use crate::config::ControlSettings;
use vstd::prelude::*;

verus! {

/// One scored box returned by the detector, in whole pixels of the captured
/// frame. The confidence is in thousandths, from 0 to 1000.
#[derive(Clone, Copy, Debug, PartialEq, Eq, Structural)]
pub struct Detection {
    pub xmin: i32,
    pub ymin: i32,
    pub xmax: i32,
    pub ymax: i32,
    pub confidence: u16,
}

/// Four times the square of the Euclidean distance between the centre of a
/// box, `((xmin + xmax) / 2, (ymin + ymax) / 2)`, and the point
/// `(hx / 2, hy / 2)`. The point is given in half pixels, so that the centre
/// of a frame of odd size is exact; the factor four keeps the value an
/// integer and changes no comparison.
pub open spec fn distance_sq4_half(d: Detection, hx: int, hy: int) -> int {
    let ax = d.xmin + d.xmax - hx;
    let ay = d.ymin + d.ymax - hy;
    ax * ax + ay * ay
}

/// Four times the square of the Euclidean distance between the centre of a
/// box and the point `(cx, cy)`, given in whole pixels.
pub open spec fn distance_sq4(d: Detection, cx: int, cy: int) -> int {
    distance_sq4_half(d, 2 * cx, 2 * cy)
}

/// `k` is the index of the box nearest to the point `(hx / 2, hy / 2)`: no
/// box is nearer, and every box before it is strictly farther.
pub open spec fn is_nearest_half(dets: Seq<Detection>, hx: int, hy: int, k: int) -> bool {
    &&& 0 <= k < dets.len()
    &&& forall|j: int|
        0 <= j < dets.len() ==> distance_sq4_half(dets[k], hx, hy) <= #[trigger] distance_sq4_half(
            dets[j],
            hx,
            hy,
        )
    &&& forall|j: int|
        0 <= j < k ==> distance_sq4_half(dets[k], hx, hy) < #[trigger] distance_sq4_half(
            dets[j],
            hx,
            hy,
        )
}

/// `k` is the index of the box nearest to the point `(cx, cy)`, given in
/// whole pixels: no box is nearer, and every box before it is strictly
/// farther.
pub open spec fn is_nearest(dets: Seq<Detection>, cx: int, cy: int, k: int) -> bool {
    is_nearest_half(dets, 2 * cx, 2 * cy, k)
}

/// `k` is the index of the box nearest to the centre of a frame of `width`
/// by `height` pixels, the point `(width / 2, height / 2)` with its half
/// pixel where the size is odd.
pub open spec fn is_nearest_in_frame(dets: Seq<Detection>, width: u32, height: u32, k: int) -> bool {
    is_nearest_half(dets, width as int, height as int, k)
}

/// The integer part of `a / b`, rounded towards zero.
pub open spec fn trunc_div(a: int, b: int) -> int
    recommends
        b > 0,
{
    if a >= 0 {
        a / b
    } else {
        -((-a) / b)
    }
}

/// `v` held to the range of `i32`.
pub open spec fn clamp_i32(v: int) -> int {
    if v < i32::MIN {
        i32::MIN as int
    } else if v > i32::MAX {
        i32::MAX as int
    } else {
        v
    }
}

/// A thousand times the offset of the target point from the centre along one
/// axis. The target point is `lo + (hi - lo) * (0.5 + offset)`, the offset
/// given in thousandths; the centre is `h / 2`, given in half pixels.
pub open spec fn raw_offset_half(lo: int, hi: int, h: int, offset: int) -> int {
    (2 * lo - h) * 500 + (hi - lo) * (500 + offset)
}

/// A thousand times the offset of the target point from the centre along one
/// axis, the centre given in whole pixels.
pub open spec fn raw_offset_milli(lo: int, hi: int, center: int, offset: int) -> int {
    raw_offset_half(lo, hi, 2 * center, offset)
}

/// The pointer movement along one axis: the raw offset times the sensitivity
/// (in thousandths), rounded towards zero and held to the range of `i32`.
/// The centre is `h / 2`, given in half pixels.
pub open spec fn axis_delta_half(lo: int, hi: int, h: int, offset: int, sensitivity: int) -> int {
    clamp_i32(trunc_div(raw_offset_half(lo, hi, h, offset) * sensitivity, 1_000_000))
}

/// The pointer movement along one axis, the centre given in whole pixels.
pub open spec fn axis_delta(lo: int, hi: int, center: int, offset: int, sensitivity: int) -> int {
    axis_delta_half(lo, hi, 2 * center, offset, sensitivity)
}

/// The pointer movement towards a box, measured from the centre of a frame
/// of `width` by `height` pixels.
pub open spec fn delta_in_frame_of(
    target: Detection,
    width: u32,
    height: u32,
    settings: ControlSettings,
) -> (i32, i32) {
    (
        axis_delta_half(
            target.xmin as int,
            target.xmax as int,
            width as int,
            settings.x_target_offset as int,
            settings.yaw_sensitivity as int,
        ) as i32,
        axis_delta_half(
            target.ymin as int,
            target.ymax as int,
            height as int,
            settings.y_target_offset as int,
            settings.pitch_sensitivity as int,
        ) as i32,
    )
}

/// Whether a coordinate in half pixels is one that a centre in whole pixels
/// or the size of a frame can give.
spec fn half_in_range(h: i64) -> bool {
    -0x1_0000_0000 <= h <= 0x1_0000_0000
}

/// Four times the squared distance of one box from the point `(hx / 2, hy / 2)`.
fn distance_from(d: &Detection, hx: i64, hy: i64) -> (v: i128)
    requires
        half_in_range(hx),
        half_in_range(hy),
    ensures
        v == distance_sq4_half(*d, hx as int, hy as int),
        0 <= v,
{
    let ax: i128 = d.xmin as i128 + d.xmax as i128 - hx as i128;
    let ay: i128 = d.ymin as i128 + d.ymax as i128 - hy as i128;
    assert(0 <= ax * ax <= 0x4_0000_0000 * 0x4_0000_0000) by (nonlinear_arith)
        requires
            -0x4_0000_0000 <= ax <= 0x4_0000_0000,
    ;
    assert(0 <= ay * ay <= 0x4_0000_0000 * 0x4_0000_0000) by (nonlinear_arith)
        requires
            -0x4_0000_0000 <= ay <= 0x4_0000_0000,
    ;
    ax * ax + ay * ay
}

/// The index of the box nearest to the point `(hx / 2, hy / 2)`.
fn nearest_from(detections: &[Detection], hx: i64, hy: i64) -> (r: Option<usize>)
    requires
        half_in_range(hx),
        half_in_range(hy),
    ensures
        r is None <==> detections@.len() == 0,
        r matches Some(k) ==> is_nearest_half(detections@, hx as int, hy as int, k as int),
{
    if detections.len() == 0 {
        return None;
    }
    let mut best: usize = 0;
    let mut best_dist: i128 = distance_from(&detections[0], hx, hy);
    let mut i: usize = 1;
    while i < detections.len()
        invariant
            half_in_range(hx),
            half_in_range(hy),
            1 <= i <= detections@.len(),
            best < i,
            best_dist == distance_sq4_half(detections@[best as int], hx as int, hy as int),
            forall|j: int|
                0 <= j < i ==> best_dist <= #[trigger] distance_sq4_half(
                    detections@[j],
                    hx as int,
                    hy as int,
                ),
            forall|j: int|
                0 <= j < best ==> best_dist < #[trigger] distance_sq4_half(
                    detections@[j],
                    hx as int,
                    hy as int,
                ),
        decreases detections@.len() - i,
    {
        let dist = distance_from(&detections[i], hx, hy);
        if dist < best_dist {
            best = i;
            best_dist = dist;
        }
        i = i + 1;
    }
    Some(best)
}

/// The index of the box nearest to `(center_x, center_y)`; of several at the
/// same distance, the first. `None` for an empty list only.
pub fn nearest_index(detections: &[Detection], center_x: i32, center_y: i32) -> (r: Option<usize>)
    ensures
        r is None <==> detections@.len() == 0,
        r matches Some(k) ==> is_nearest(detections@, center_x as int, center_y as int, k as int),
{
    nearest_from(detections, 2 * (center_x as i64), 2 * (center_y as i64))
}

/// The index of the box nearest to the centre of a frame of `width` by
/// `height` pixels; of several at the same distance, the first. `None` for
/// an empty list only. The centre of a frame of odd size lies half a pixel
/// off the grid, and is taken where it lies.
pub fn nearest_in_frame(detections: &[Detection], width: u32, height: u32) -> (r: Option<usize>)
    ensures
        r is None <==> detections@.len() == 0,
        r matches Some(k) ==> is_nearest_in_frame(detections@, width, height, k as int),
{
    nearest_from(detections, width as i64, height as i64)
}

/// The box nearest to `(center_x, center_y)` by the distance between the
/// box's centre and that point; of several at the same distance, the first
/// in the list. `None` for an empty list only.
pub fn select_nearest(detections: &[Detection], center_x: i32, center_y: i32) -> (r: Option<
    Detection,
>)
    ensures
        r is None <==> detections@.len() == 0,
        r matches Some(d) ==> exists|k: int|
            is_nearest(detections@, center_x as int, center_y as int, k) && d == detections@[k],
{
    match nearest_index(detections, center_x, center_y) {
        Some(k) => {
            assert(is_nearest(detections@, center_x as int, center_y as int, k as int));
            Some(detections[k])
        },
        None => None,
    }
}

/// The pointer movement along one axis, from the centre `h / 2`.
fn delta_from(lo: i32, hi: i32, h: i64, offset: i32, sensitivity: u32) -> (d: i32)
    requires
        half_in_range(h),
    ensures
        d == axis_delta_half(lo as int, hi as int, h as int, offset as int, sensitivity as int),
{
    let shift: i128 = (2 * (lo as i128) - h as i128) * 500;
    let span: i128 = hi as i128 - lo as i128;
    let weight: i128 = 500 + offset as i128;
    assert(-0x1_0000_0000 * 0x1_0000_0000 <= span * weight <= 0x1_0000_0000 * 0x1_0000_0000)
        by (nonlinear_arith)
        requires
            -0x1_0000_0000 <= span <= 0x1_0000_0000,
            -0x1_0000_0000 <= weight <= 0x1_0000_0000,
    ;
    let raw: i128 = shift + span * weight;
    let s: i128 = sensitivity as i128;
    assert(-0x2_0000_0000_0000_0000 * 0x1_0000_0000 <= raw * s <= 0x2_0000_0000_0000_0000
        * 0x1_0000_0000) by (nonlinear_arith)
        requires
            -0x2_0000_0000_0000_0000 <= raw <= 0x2_0000_0000_0000_0000,
            0 <= s <= 0x1_0000_0000,
    ;
    let scaled: i128 = raw * s;
    if scaled >= 0 {
        let q: u128 = (scaled as u128) / 1_000_000;
        if q > 0x7fff_ffff {
            i32::MAX
        } else {
            q as i32
        }
    } else {
        let q: u128 = ((-scaled) as u128) / 1_000_000;
        if q > 0x8000_0000 {
            i32::MIN
        } else {
            (-(q as i64)) as i32
        }
    }
}

/// The pointer movement that brings the target point of a box to the centre:
/// per axis, the target point `lo + (hi - lo) * (0.5 + offset)` minus the
/// centre, times the sensitivity, rounded towards zero.
pub fn compute_delta(target: &Detection, center_x: i32, center_y: i32, settings: &ControlSettings) -> (d:
    (i32, i32))
    ensures
        d.0 == axis_delta(
            target.xmin as int,
            target.xmax as int,
            center_x as int,
            settings.x_target_offset as int,
            settings.yaw_sensitivity as int,
        ),
        d.1 == axis_delta(
            target.ymin as int,
            target.ymax as int,
            center_y as int,
            settings.y_target_offset as int,
            settings.pitch_sensitivity as int,
        ),
{
    let dx = delta_from(
        target.xmin,
        target.xmax,
        2 * (center_x as i64),
        settings.x_target_offset,
        settings.yaw_sensitivity,
    );
    let dy = delta_from(
        target.ymin,
        target.ymax,
        2 * (center_y as i64),
        settings.y_target_offset,
        settings.pitch_sensitivity,
    );
    (dx, dy)
}

/// The pointer movement that brings the target point of a box to the centre
/// of a frame of `width` by `height` pixels: per axis, the target point
/// `lo + (hi - lo) * (0.5 + offset)` minus half the size, times the
/// sensitivity, rounded towards zero.
pub fn delta_in_frame(target: &Detection, width: u32, height: u32, settings: &ControlSettings) -> (d:
    (i32, i32))
    ensures
        d == delta_in_frame_of(*target, width, height, *settings),
{
    let dx = delta_from(
        target.xmin,
        target.xmax,
        width as i64,
        settings.x_target_offset,
        settings.yaw_sensitivity,
    );
    let dy = delta_from(
        target.ymin,
        target.ymax,
        height as i64,
        settings.y_target_offset,
        settings.pitch_sensitivity,
    );
    (dx, dy)
}

/// There is at most one nearest box: two indices that are both nearest to
/// the same point are the same.
pub proof fn lemma_nearest_unique(dets: Seq<Detection>, hx: int, hy: int, a: int, b: int)
    requires
        is_nearest_half(dets, hx, hy, a),
        is_nearest_half(dets, hx, hy, b),
    ensures
        a == b,
{
    if a < b {
        assert(distance_sq4_half(dets[b], hx, hy) < distance_sq4_half(dets[a], hx, hy));
        assert(distance_sq4_half(dets[a], hx, hy) <= distance_sq4_half(dets[b], hx, hy));
    } else if b < a {
        assert(distance_sq4_half(dets[a], hx, hy) < distance_sq4_half(dets[b], hx, hy));
        assert(distance_sq4_half(dets[b], hx, hy) <= distance_sq4_half(dets[a], hx, hy));
    }
}

/// Every list that is not empty has a nearest box, whatever the point.
pub proof fn lemma_nearest_exists(dets: Seq<Detection>, hx: int, hy: int)
    requires
        dets.len() > 0,
    ensures
        exists|k: int| is_nearest_half(dets, hx, hy, k),
    decreases dets.len(),
{
    if dets.len() == 1 {
        assert(is_nearest_half(dets, hx, hy, 0));
    } else {
        let head = dets.drop_last();
        lemma_nearest_exists(head, hx, hy);
        let k = choose|k: int| is_nearest_half(head, hx, hy, k);
        let last = dets.len() - 1;
        assert forall|j: int| 0 <= j < head.len() implies head[j] == dets[j] by {}
        if distance_sq4_half(dets[last], hx, hy) < distance_sq4_half(dets[k], hx, hy) {
            assert forall|j: int| 0 <= j < dets.len() implies distance_sq4_half(
                dets[last],
                hx,
                hy,
            ) <= #[trigger] distance_sq4_half(dets[j], hx, hy) by {
                if j < last {
                    assert(distance_sq4_half(head[k], hx, hy) <= distance_sq4_half(
                        head[j],
                        hx,
                        hy,
                    ));
                }
            }
            assert forall|j: int| 0 <= j < last implies distance_sq4_half(dets[last], hx, hy)
                < #[trigger] distance_sq4_half(dets[j], hx, hy) by {
                assert(distance_sq4_half(head[k], hx, hy) <= distance_sq4_half(head[j], hx, hy));
            }
            assert(is_nearest_half(dets, hx, hy, last));
        } else {
            assert forall|j: int| 0 <= j < dets.len() implies distance_sq4_half(dets[k], hx, hy)
                <= #[trigger] distance_sq4_half(dets[j], hx, hy) by {
                if j < last {
                    assert(distance_sq4_half(head[k], hx, hy) <= distance_sq4_half(
                        head[j],
                        hx,
                        hy,
                    ));
                }
            }
            assert forall|j: int| 0 <= j < k implies distance_sq4_half(dets[k], hx, hy)
                < #[trigger] distance_sq4_half(dets[j], hx, hy) by {
                assert(distance_sq4_half(head[k], hx, hy) < distance_sq4_half(head[j], hx, hy));
            }
            assert(is_nearest_half(dets, hx, hy, k));
        }
    }
}

/// A box whose target point is the centre asks for no movement: with no
/// offset, a box whose own centre is the point `h / 2` gives zero whatever
/// the sensitivity. For a centre in whole pixels `h` is twice the centre; for
/// the centre of a frame it is the frame's size.
pub proof fn lemma_centered_box_needs_no_move(lo: int, hi: int, h: int, sensitivity: int)
    requires
        lo + hi == h,
    ensures
        axis_delta_half(lo, hi, h, 0, sensitivity) == 0,
{
    assert(raw_offset_half(lo, hi, h, 0) == 0) by {
        assert((2 * lo - h) * 500 + (hi - lo) * 500 == 500 * (lo + hi - h)) by (nonlinear_arith);
    }
    assert(0 * sensitivity == 0);
}

} // verus!
