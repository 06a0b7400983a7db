use screen_detect::config::ControlSettings;
use screen_detect::region::{frame_size, resolve_region, CapturePlan, Rect, RegionMode};
use screen_detect::target::{
    compute_delta, delta_in_frame, nearest_in_frame, nearest_index, select_nearest, Detection,
};

fn boxed(xmin: i32, ymin: i32, xmax: i32, ymax: i32) -> Detection {
    Detection { xmin, ymin, xmax, ymax, confidence: 900 }
}

#[test]
fn select_nearest_of_nothing_is_none() {
    assert_eq!(select_nearest(&[], 320, 320), None);
    assert_eq!(nearest_index(&[], 0, 0), None);
}

#[test]
fn select_nearest_picks_the_closest_centre() {
    let dets = vec![boxed(0, 0, 100, 100), boxed(300, 300, 360, 360), boxed(600, 600, 640, 640)];
    assert_eq!(select_nearest(&dets, 320, 320), Some(dets[1]));
    assert_eq!(nearest_index(&dets, 320, 320), Some(1));
    assert_eq!(select_nearest(&dets, 0, 0), Some(dets[0]));
    assert_eq!(select_nearest(&dets, 640, 640), Some(dets[2]));
}

#[test]
fn select_nearest_breaks_ties_by_order() {
    let left = boxed(100, 300, 140, 340);
    let right = boxed(500, 300, 540, 340);
    assert_eq!(nearest_index(&[left, right], 320, 320), Some(0));
    assert_eq!(nearest_index(&[right, left], 320, 320), Some(0));
    assert_eq!(select_nearest(&[right, left], 320, 320), Some(right));
    let same = boxed(100, 300, 140, 340);
    assert_eq!(nearest_index(&[right, left, same], 320, 320), Some(0));
}

#[test]
fn select_nearest_sees_half_pixel_centres() {
    // centres at 10.5 and 11: the point 11 is nearer to the second
    let a = boxed(10, 0, 11, 0);
    let b = boxed(11, 0, 11, 0);
    assert_eq!(nearest_index(&[a, b], 11, 0), Some(1));
    // centres at 10.5 and 10: the point 11 is nearer to the first
    let c = boxed(10, 0, 10, 0);
    assert_eq!(nearest_index(&[a, c], 11, 0), Some(0));
}

#[test]
fn select_nearest_survives_extreme_coordinates() {
    let far = boxed(i32::MIN, i32::MIN, i32::MIN, i32::MIN);
    let near = boxed(i32::MAX, i32::MAX, i32::MAX, i32::MAX);
    assert_eq!(nearest_index(&[far, near], i32::MAX, i32::MAX), Some(1));
    assert_eq!(nearest_index(&[far, near], i32::MIN, i32::MIN), Some(0));
}

#[test]
fn centred_box_gives_no_movement() {
    let settings = ControlSettings::default();
    assert_eq!(compute_delta(&boxed(300, 300, 340, 340), 320, 320, &settings), (0, 0));
}

#[test]
fn fixed_square_on_full_hd_end_to_end() {
    let plan = resolve_region(RegionMode::Center640, 1920, 1080);
    assert_eq!(plan, CapturePlan::Region(Rect { x: 640, y: 220, width: 640, height: 640 }));
    let (w, h) = frame_size(plan, 1920, 1080);
    assert_eq!((w, h), (640, 640));
    let dets = vec![boxed(300, 300, 340, 340)];
    let k = nearest_in_frame(&dets, w, h).unwrap();
    assert_eq!(delta_in_frame(&dets[k], w, h, &ControlSettings::default()), (0, 0));
    let hit = select_nearest(&dets, 320, 320).unwrap();
    assert_eq!(compute_delta(&hit, 320, 320, &ControlSettings::default()), (0, 0));
}

#[test]
fn the_centre_of_an_odd_frame_lies_on_the_half_pixel() {
    let mut settings = ControlSettings::default();
    settings.yaw_sensitivity = 1000;
    settings.pitch_sensitivity = 1000;
    // the centre is (1.5, 10); the first box is 2 away, the second a little more
    let dets = [boxed(1, 11, 2, 13), boxed(0, 7, 2, 9)];
    assert_eq!(nearest_in_frame(&dets, 3, 20), Some(0));
    assert_eq!(delta_in_frame(&dets[0], 3, 20, &settings), (0, 2));
    assert_eq!(delta_in_frame(&dets[1], 3, 20, &settings), (0, -2));
    // from the whole pixel (1, 10) the second box is the nearer
    assert_eq!(nearest_index(&dets, 1, 10), Some(1));
    // centres at 0.5 and 2.5 are equally far from 1.5: the first wins
    let tie = [boxed(0, 0, 1, 0), boxed(2, 0, 3, 0)];
    assert_eq!(nearest_in_frame(&tie, 3, 0), Some(0));
    assert_eq!(nearest_in_frame(&[tie[1], tie[0]], 3, 0), Some(0));
    // half a pixel times a sensitivity of 1.0 rounds towards zero
    assert_eq!(delta_in_frame(&boxed(2, 2, 2, 2), 3, 3, &settings), (0, 0));
    assert_eq!(delta_in_frame(&boxed(3, 0, 3, 0), 3, 3, &settings), (1, -1));
    settings.yaw_sensitivity = 2000;
    settings.pitch_sensitivity = 2000;
    assert_eq!(delta_in_frame(&boxed(2, 1, 2, 1), 3, 3, &settings), (1, -1));
}

#[test]
fn frame_centre_agrees_with_the_whole_pixel_on_even_frames() {
    let settings = ControlSettings::default();
    let dets = [boxed(0, 0, 100, 100), boxed(400, 300, 440, 340), boxed(7, 9, 600, 13)];
    assert_eq!(nearest_in_frame(&dets, 640, 480), nearest_index(&dets, 320, 240));
    for d in &dets {
        assert_eq!(delta_in_frame(d, 640, 480, &settings), compute_delta(d, 320, 240, &settings));
    }
    assert_eq!(nearest_in_frame(&[], 640, 480), None);
    let far = boxed(i32::MIN, i32::MIN, i32::MIN, i32::MIN);
    let near = boxed(i32::MAX, i32::MAX, i32::MAX, i32::MAX);
    assert_eq!(nearest_in_frame(&[far, near], u32::MAX, u32::MAX), Some(1));
}

#[test]
fn delta_scales_by_sensitivity_and_truncates() {
    let mut settings = ControlSettings::default();
    // target point (120, 120); offset from (100, 100) is (20, 20); times 0.3 is 6
    assert_eq!(compute_delta(&boxed(100, 100, 140, 140), 100, 100, &settings), (6, 6));
    // offset (-21, 21) times 0.3 is (-6.3, 6.3): rounds towards zero
    assert_eq!(compute_delta(&boxed(59, 101, 99, 141), 100, 100, &settings), (-6, 6));
    settings.yaw_sensitivity = 1000;
    settings.pitch_sensitivity = 2000;
    assert_eq!(compute_delta(&boxed(100, 100, 140, 140), 100, 100, &settings), (20, 40));
    // a half-pixel target point: 100 + 41 * 0.5 = 120.5, times 1.0 truncates to 20
    assert_eq!(compute_delta(&boxed(100, 100, 141, 141), 100, 100, &settings), (20, 41));
}

#[test]
fn delta_follows_target_offsets() {
    let mut settings = ControlSettings::default();
    settings.yaw_sensitivity = 1000;
    settings.pitch_sensitivity = 1000;
    settings.x_target_offset = 500;
    settings.y_target_offset = -500;
    // x: 100 + 40 * 1.0 = 140; y: 100 + 40 * 0.0 = 100
    assert_eq!(compute_delta(&boxed(100, 100, 140, 140), 0, 0, &settings), (140, 100));
    settings.x_target_offset = -1000;
    settings.y_target_offset = 1000;
    // x: 100 + 40 * -0.5 = 80; y: 100 + 40 * 1.5 = 160
    assert_eq!(compute_delta(&boxed(100, 100, 140, 140), 0, 0, &settings), (80, 160));
}

#[test]
fn delta_saturates_at_the_ends_of_i32() {
    let mut settings = ControlSettings::default();
    settings.yaw_sensitivity = u32::MAX;
    settings.pitch_sensitivity = u32::MAX;
    let d = boxed(i32::MAX, i32::MIN, i32::MAX, i32::MIN);
    assert_eq!(compute_delta(&d, i32::MIN, i32::MAX, &settings), (i32::MAX, i32::MIN));
}
