use desktop_shell::animate::{
    animate_window_resize, eased_progress, frame_length, target_units, is_within_a_pixel, AnimateError, AnimationRequest, Frame, ResizeStep,
    DEFAULT_DURATION, DEFAULT_STEPS, MAX_STEPS, MAX_TARGET,
};
use desktop_shell::geometry::Size;

fn request(w: i64, h: i64, duration: Option<u64>, steps: Option<u64>) -> AnimationRequest {
    AnimationRequest::new(String::from("main"), w, h, duration, steps).unwrap()
}

#[test]
fn resize_runs_every_step_and_lands_on_target() {
    let req = request(800_000, 600_000, Some(100), Some(10));
    let plan = animate_window_resize(Some(Size { width: 400, height: 300 }), &req).unwrap();
    assert_eq!(plan.frames.len(), 11);
    assert_eq!(plan.delay, 10);
    assert_eq!(plan.frames[0], Frame { width: 400, height: 300 });
    assert_eq!(plan.frames[10], Frame { width: 800, height: 600 });
}

#[test]
fn resize_follows_ease_out_quadratic() {
    let req = request(800_000, 600_000, Some(100), Some(10));
    let plan = animate_window_resize(Some(Size { width: 400, height: 300 }), &req).unwrap();
    let widths: Vec<i64> = plan.frames.iter().map(|f| f.width).collect();
    assert_eq!(widths, vec![400, 476, 544, 604, 656, 700, 736, 764, 784, 796, 800]);
    let heights: Vec<i64> = plan.frames.iter().map(|f| f.height).collect();
    assert_eq!(heights, vec![300, 357, 408, 453, 492, 525, 552, 573, 588, 597, 600]);
}

#[test]
fn resize_within_a_pixel_sets_nothing() {
    let req = request(400_400, 300_200, None, None);
    let plan = animate_window_resize(Some(Size { width: 400, height: 300 }), &req).unwrap();
    assert!(plan.frames.is_empty());
}

#[test]
fn resize_with_one_dimension_moving_animates_both() {
    let req = request(400_400, 301_000, Some(300), Some(3));
    let plan = animate_window_resize(Some(Size { width: 400, height: 300 }), &req).unwrap();
    assert_eq!(plan.frames.len(), 4);
    assert_eq!(plan.delay, 100);
    assert_eq!(plan.frames[3], Frame { width: 400, height: 301 });
}

#[test]
fn resize_of_missing_window_is_not_found() {
    let req = request(800_000, 600_000, None, None);
    assert_eq!(animate_window_resize(None, &req).unwrap_err(), AnimateError::NotFound);
}

#[test]
fn request_defaults() {
    let req = request(1_000, 1_000, None, None);
    assert_eq!(req.duration, 300);
    assert_eq!(req.steps, 30);
    assert_eq!(DEFAULT_DURATION, 300);
    assert_eq!(DEFAULT_STEPS, 30);
    assert_eq!(req.label, "main");
    assert_eq!(req.to_width, 1_000);
    assert_eq!(req.to_height, 1_000);
}

#[test]
fn request_bounds() {
    assert!(AnimationRequest::new(String::from("main"), 0, 0, None, Some(0)).is_none());
    assert!(AnimationRequest::new(String::from("main"), 0, 0, None, Some(MAX_STEPS + 1)).is_none());
    assert!(AnimationRequest::new(String::from("main"), 0, 0, None, Some(MAX_STEPS)).is_some());
    assert!(AnimationRequest::new(String::from("main"), MAX_TARGET + 1, 0, None, None).is_none());
    assert!(AnimationRequest::new(String::from("main"), 0, -MAX_TARGET - 1, None, None).is_none());
    assert!(AnimationRequest::new(String::from("main"), MAX_TARGET, -MAX_TARGET, None, None).is_some());
}

#[test]
fn delay_is_integer_quotient() {
    let req = request(800_000, 600_000, Some(100), Some(30));
    let plan = animate_window_resize(Some(Size { width: 400, height: 300 }), &req).unwrap();
    assert_eq!(plan.delay, 3);
    assert_eq!(plan.frames.len(), 31);
}

#[test]
fn halves_round_away_from_zero() {
    // three quarters of the way from 0 to 2 pixels is 1.5
    assert_eq!(frame_length(0, 2_000, 1, 2), 2);
    assert_eq!(frame_length(0, -2_000, 1, 2), -2);
    assert_eq!(frame_length(0, 1_000, 1, 2), 1);
    assert_eq!(frame_length(0, 600, 1, 2), 0);
    assert_eq!(frame_length(0, -600, 2, 2), -1);
}

#[test]
fn final_frame_is_rounded_target() {
    assert_eq!(frame_length(400, 800_499, 7, 7), 800);
    assert_eq!(frame_length(400, 800_500, 7, 7), 801);
    assert_eq!(frame_length(400, 100_000, 30, 30), 100);
    assert_eq!(frame_length(400, 100_000, 0, 30), 400);
}

#[test]
fn frames_move_monotonically_toward_target() {
    let steps: u64 = 30;
    let mut last_up = frame_length(400, 1_280_000, 0, steps);
    let mut last_down = frame_length(1280, 375_000, 0, steps);
    for i in 1..=steps {
        let up = frame_length(400, 1_280_000, i, steps);
        let down = frame_length(1280, 375_000, i, steps);
        assert!(up >= last_up);
        assert!(down <= last_down);
        last_up = up;
        last_down = down;
    }
    assert_eq!(last_up, 1280);
    assert_eq!(last_down, 375);
}

#[test]
fn extreme_values_stay_exact() {
    assert_eq!(frame_length(u32::MAX, -MAX_TARGET, MAX_STEPS, MAX_STEPS), -2_147_483_647);
    assert_eq!(frame_length(u32::MAX, MAX_TARGET, 0, MAX_STEPS), 4_294_967_295);
}

#[test]
fn pixel_distance_is_strict() {
    assert!(is_within_a_pixel(400, 400_999));
    assert!(is_within_a_pixel(400, 399_001));
    assert!(!is_within_a_pixel(400, 401_000));
    assert!(!is_within_a_pixel(400, 399_000));
}

#[test]
fn eased_progress_runs_from_zero_to_one() {
    let steps: u64 = 10;
    assert_eq!(eased_progress(0, steps), 0);
    assert_eq!(eased_progress(steps, steps), (steps * steps) as u128);
    assert_eq!(eased_progress(5, steps), 75);
    assert_eq!(eased_progress(1, steps), 19);
    assert_eq!(eased_progress(1, 1), 1);
}

#[test]
fn eased_progress_never_decreases() {
    for steps in [1u64, 2, 3, 30, 1000] {
        let mut last = eased_progress(0, steps);
        for i in 1..=steps {
            let now = eased_progress(i, steps);
            assert!(now >= last);
            last = now;
        }
        assert_eq!(last, (steps * steps) as u128);
    }
    assert_eq!(
        eased_progress(MAX_STEPS, MAX_STEPS),
        (MAX_STEPS as u128) * (MAX_STEPS as u128)
    );
}

#[test]
fn plan_hands_out_frames_in_order_then_finishes() {
    let req = request(402_000, 300_000, Some(9), Some(2));
    let plan = animate_window_resize(Some(Size { width: 400, height: 300 }), &req).unwrap();
    assert_eq!(
        plan.next_step(0, true),
        ResizeStep::Resize { frame: Frame { width: 400, height: 300 }, pause: 4 }
    );
    assert_eq!(
        plan.next_step(1, true),
        ResizeStep::Resize { frame: Frame { width: 402, height: 300 }, pause: 4 }
    );
    assert_eq!(
        plan.next_step(2, true),
        ResizeStep::Resize { frame: Frame { width: 402, height: 300 }, pause: 4 }
    );
    assert_eq!(plan.next_step(3, true), ResizeStep::Finished);
}

#[test]
fn plan_aborts_after_a_failed_size_set() {
    let req = request(800_000, 600_000, Some(100), Some(10));
    let plan = animate_window_resize(Some(Size { width: 400, height: 300 }), &req).unwrap();
    assert_eq!(plan.next_step(4, false), ResizeStep::Aborted);
    assert_eq!(plan.next_step(0, false), ResizeStep::Aborted);
    let mut issued = 0;
    let mut sets = 0;
    let mut ok = true;
    while let ResizeStep::Resize { .. } = plan.next_step(issued, ok) {
        sets += 1;
        ok = sets != 4;
        issued += 1;
    }
    assert_eq!(sets, 4);
    assert_eq!(plan.next_step(issued, ok), ResizeStep::Aborted);
}

#[test]
fn empty_plan_finishes_at_once() {
    let req = request(400_400, 300_200, None, None);
    let plan = animate_window_resize(Some(Size { width: 400, height: 300 }), &req).unwrap();
    assert_eq!(plan.next_step(0, true), ResizeStep::Finished);
}

#[test]
fn target_units_from_parts() {
    assert_eq!(target_units(false, 400, 400, true), Some(400_400));
    assert_eq!(target_units(false, 400, 999, false), Some(400_999));
    assert_eq!(target_units(false, 399, 0, false), Some(399_001));
    assert_eq!(target_units(false, 399, 0, true), Some(399_000));
    assert_eq!(target_units(true, 2, 500, true), Some(-2_500));
    assert_eq!(target_units(true, 0, 0, false), Some(-1));
    assert_eq!(target_units(false, 0, 0, true), Some(0));
    assert_eq!(target_units(false, 1, 1000, true), None);
    assert_eq!(target_units(false, 2_147_483_647, 0, true), Some(MAX_TARGET));
    assert_eq!(target_units(true, 2_147_483_647, 0, true), Some(-MAX_TARGET));
    assert_eq!(target_units(false, 2_147_483_647, 0, false), None);
    assert_eq!(target_units(false, u32::MAX, 999, true), None);
}

#[test]
fn target_units_keep_the_pixel_distance() {
    // 400.9996 and 399.0004 lie less than a pixel from 400; 401 and 399 do not
    assert!(is_within_a_pixel(400, target_units(false, 400, 999, false).unwrap()));
    assert!(is_within_a_pixel(400, target_units(false, 399, 0, false).unwrap()));
    assert!(!is_within_a_pixel(400, target_units(false, 401, 0, true).unwrap()));
    assert!(!is_within_a_pixel(400, target_units(false, 399, 0, true).unwrap()));
    // just below zero is within a pixel of zero
    assert!(is_within_a_pixel(0, target_units(true, 0, 999, false).unwrap()));
    assert!(!is_within_a_pixel(0, target_units(true, 1, 0, true).unwrap()));
}

#[test]
fn target_units_keep_the_rounded_target() {
    // 400.4999.. rounds to 400, 400.5 to 401, -2.5 to -3
    let below = target_units(false, 400, 499, false).unwrap();
    let half = target_units(false, 400, 500, true).unwrap();
    let negative_half = target_units(true, 2, 500, true).unwrap();
    assert_eq!(frame_length(300, below, 4, 4), 400);
    assert_eq!(frame_length(300, half, 4, 4), 401);
    assert_eq!(frame_length(300, negative_half, 4, 4), -3);
}
