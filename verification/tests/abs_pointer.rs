use computer_use_hyprland::abs_pointer::{
    click, drag, drag_point_at, drag_step_count, move_to, AbsPointerGeometry, PointerButton,
    PointerEvent, DRAG_MAX_STEPS, DRAG_STEP_PAUSE_MS, DRAG_STEP_PIXELS,
};

#[test]
fn axis_range_ends_at_last_desktop_pixel() {
    let geometry = AbsPointerGeometry::from_dimensions(1920, 1080);

    assert_eq!(geometry.axis_maxima(), (1919, 1079));
}

#[test]
fn pointer_landing_preserves_the_request_and_emitted_coordinates() {
    let geometry = AbsPointerGeometry::from_dimensions(1920, 1080);

    for (requested, emitted) in [
        ((640, 480), (640, 480)),
        ((1920, 1080), (1919, 1079)),
        ((-1, -1), (0, 0)),
        ((i32::MAX, i32::MAX), (1919, 1079)),
    ] {
        let landing = geometry.landing_for(requested.0, requested.1);
        assert_eq!(landing.requested, requested);
        assert_eq!(landing.emitted, emitted);
    }
}

#[test]
fn a_repeated_point_has_a_neighbor_to_be_nudged_through() {
    let geometry = AbsPointerGeometry::from_dimensions(1920, 1080);

    // The kernel drops an EV_ABS event that repeats the current value, so
    // every point needs somewhere one pixel away to be moved through.
    for point in [(0, 0), (960, 540), (1919, 1079)] {
        let neighbor = geometry
            .neighbor_of(point.0, point.1)
            .expect("a desktop wider than one pixel always has a neighbor");
        assert_ne!(neighbor, point);
        assert_eq!(geometry.clamp_coordinates(neighbor.0, neighbor.1), neighbor);
    }
}

#[test]
fn a_single_pixel_desktop_has_nowhere_to_nudge_through() {
    let geometry = AbsPointerGeometry::from_dimensions(1, 1);

    assert_eq!(geometry.neighbor_of(0, 0), None);
}

#[test]
fn a_drag_takes_one_step_per_eight_pixels_of_its_longer_axis() {
    assert_eq!(drag_step_count((100, 100), (100, 100)), 1);
    assert_eq!(drag_step_count((100, 100), (104, 100)), 1);
    assert_eq!(
        drag_step_count((100, 100), (100 + DRAG_STEP_PIXELS * 10, 140)),
        10
    );
    assert_eq!(drag_step_count((0, 0), (0, -80)), 10);
}

#[test]
fn a_long_drag_stays_within_the_step_ceiling() {
    assert_eq!(drag_step_count((0, 0), (10_000, 0)), DRAG_MAX_STEPS);
    assert_eq!(
        drag_step_count((i32::MIN, 0), (i32::MAX, 0)),
        DRAG_MAX_STEPS
    );
}

#[test]
fn a_drag_walks_from_its_start_to_exactly_its_end() {
    let (start, end) = ((300, 16), (420, 96));
    let steps = drag_step_count(start, end);
    assert!(steps > 1, "a 120-pixel drag is more than one jump");

    let points = (1..=steps)
        .map(|step| drag_point_at(start, end, step, steps))
        .collect::<Vec<_>>();

    assert_eq!(*points.last().expect("at least one step"), end);
    assert!(points.iter().all(|point| {
        (start.0..=end.0).contains(&point.0) && (start.1..=end.1).contains(&point.1)
    }));
    for pair in points.windows(2) {
        assert!(
            (pair[1].0 - pair[0].0).abs() <= DRAG_STEP_PIXELS
                && (pair[1].1 - pair[0].1).abs() <= DRAG_STEP_PIXELS,
            "no step jumps further than {DRAG_STEP_PIXELS} pixels: {pair:?}"
        );
    }
}

#[test]
fn unsupported_buttons_fall_through_to_other_backends() {
    assert!(matches!(
        PointerButton::from_name(None),
        Some(PointerButton::Left)
    ));
    assert!(matches!(
        PointerButton::from_name(Some("right")),
        Some(PointerButton::Right)
    ));
    assert!(matches!(
        PointerButton::from_name(Some("middle")),
        Some(PointerButton::Middle)
    ));

    for button in ["side", "extra", "forward", "back"] {
        assert!(
            PointerButton::from_name(Some(button)).is_none(),
            "{button} must fall through instead of becoming a left click"
        );
    }
}

#[test]
fn a_fresh_point_is_one_move_and_a_repeated_one_is_nudged() {
    let geometry = AbsPointerGeometry::from_dimensions(1920, 1080);

    let (landing, events) = move_to(geometry, (0, 0), 5, 7);
    assert_eq!(landing.emitted, (5, 7));
    assert_eq!(events, vec![PointerEvent::Absolute(5, 7)]);

    let (_, again) = move_to(geometry, (5, 7), 5, 7);
    assert_eq!(
        again,
        vec![PointerEvent::Absolute(4, 7), PointerEvent::Absolute(5, 7)]
    );
}

#[test]
fn a_double_click_presses_and_releases_twice() {
    let geometry = AbsPointerGeometry::from_dimensions(100, 100);
    let (landing, events) = click(geometry, (-1, -1), 10, 200, PointerButton::Right, 2);

    assert_eq!(landing.requested, (10, 200));
    assert_eq!(landing.emitted, (10, 99));
    assert_eq!(
        events,
        vec![
            PointerEvent::Absolute(10, 99),
            PointerEvent::Pause(30),
            PointerEvent::Button(0x111, true),
            PointerEvent::Pause(30),
            PointerEvent::Button(0x111, false),
            PointerEvent::Pause(40),
            PointerEvent::Button(0x111, true),
            PointerEvent::Pause(30),
            PointerEvent::Button(0x111, false),
            PointerEvent::Pause(40),
        ]
    );
}

#[test]
fn a_click_of_no_times_is_one_click() {
    let geometry = AbsPointerGeometry::from_dimensions(100, 100);
    let none = click(geometry, (0, 0), 1, 1, PointerButton::Left, 0);
    let one = click(geometry, (0, 0), 1, 1, PointerButton::Left, 1);
    assert_eq!(none, one);
}

#[test]
fn a_drag_presses_where_it_starts_and_releases_where_it_ends() {
    let geometry = AbsPointerGeometry::from_dimensions(100, 100);
    let (landing, events) = drag(geometry, (0, 0), (10, 10), (26, 10), PointerButton::Middle);

    assert_eq!(landing.steps, 2);
    assert_eq!(landing.start.emitted, (10, 10));
    assert_eq!(landing.end.emitted, (26, 10));
    assert_eq!(
        events,
        vec![
            PointerEvent::Absolute(10, 10),
            PointerEvent::Pause(30),
            PointerEvent::Button(0x112, true),
            PointerEvent::Pause(40),
            PointerEvent::Absolute(18, 10),
            PointerEvent::Pause(DRAG_STEP_PAUSE_MS),
            PointerEvent::Absolute(26, 10),
            PointerEvent::Pause(DRAG_STEP_PAUSE_MS),
            PointerEvent::Pause(40),
            PointerEvent::Button(0x112, false),
        ]
    );
}

#[test]
fn the_buttons_have_the_codes_of_the_kernel() {
    assert_eq!(PointerButton::Left.key_code(), 272);
    assert_eq!(PointerButton::Right.key_code(), 273);
    assert_eq!(PointerButton::Middle.key_code(), 274);
}

#[test]
fn any_point_has_a_neighbor_where_there_is_room() {
    let geometry = AbsPointerGeometry::from_dimensions(1920, 1080);
    assert_eq!(geometry.neighbor_of(i32::MAX, 5), Some((i32::MAX - 1, 5)));
    assert_eq!(geometry.neighbor_of(i32::MIN, 5), Some((i32::MIN + 1, 5)));
}
