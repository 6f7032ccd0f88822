use computer_use_hyprland::abs_pointer::{DragLanding, PointerButton, PointerLanding};
use computer_use_hyprland::cache::{BoundsOffset, CachedBounds};
use computer_use_hyprland::elements::{AccessibilityAction, AccessibilityNode, Bounds};
use computer_use_hyprland::gate::{gate_question, gate_target, GateQuestion};
use computer_use_hyprland::input::KeyboardCommandBackend;
use computer_use_hyprland::notes::{action_success, ActionOutput, STALE_TREE_MESSAGE};
use computer_use_hyprland::params::{
    ActionParams, ActivateWindowParams, ClickParams, DragParams, PressKeyParams, ScrollParams,
    SetValueParams, TypeTextParams,
};
use computer_use_hyprland::tools::click::{
    click, click_at_point, click_commands, click_repeats, start_click, ActionOutcome, ClickReport,
    ClickTask, PointerOutcome,
};
use computer_use_hyprland::tools::drag::{
    drag, drag_inner, start_drag, DragOutcome, DragReport, DragTask,
};
use computer_use_hyprland::tools::element::{
    perform_element_action, set_value, start_perform_action, start_set_value, GrabOutcome, Invocation, KeyboardStage, PerformReport,
    PerformTask, ValueOutcome, ValueReport, ValueTask, GRAB_SETTLE_MS, NO_VALUE_INTERFACE,
};
use computer_use_hyprland::tools::keyboard::{
    press_key, start_press_key, start_type_text, type_text, KeyReport, KeyTask, TypeReport,
    TypeTask,
};
use computer_use_hyprland::tools::scroll::{scroll, start_scroll, ScrollReport, ScrollTask};
use computer_use_hyprland::windowing::types::{WindowBounds, WindowFocusResult, WindowInfo};

fn window(window_id: u64, title: &str) -> WindowInfo {
    WindowInfo {
        window_id,
        title: Some(title.to_string()),
        app_id: Some("app".to_string()),
        wm_class: Some("app".to_string()),
        pid: Some(4242),
        bounds: Some(WindowBounds {
            x: Some(100),
            y: Some(200),
            width: 400,
            height: 300,
        }),
        workspace: Some(1),
        focused: true,
        hidden: false,
        client_type: None,
        backend: "hyprland".to_string(),
        terminal: None,
    }
}

fn focused(window_id: u64) -> WindowFocusResult {
    WindowFocusResult {
        requested_window: window(window_id, "Editor"),
        focused_window: Some(window(window_id, "Editor")),
        exact_window_focused: true,
        app_focused: true,
        backend: "hyprland".to_string(),
        note: String::new(),
    }
}

fn unfocused(window_id: u64) -> WindowFocusResult {
    WindowFocusResult {
        focused_window: Some(window(window_id + 1, "Other")),
        exact_window_focused: false,
        app_focused: false,
        ..focused(window_id)
    }
}

fn at(window_id: u64) -> ActivateWindowParams {
    ActivateWindowParams {
        window_id: Some(window_id),
        ..Default::default()
    }
}

fn node(index: u32, bounds: Option<Bounds>, actions: &[&str]) -> AccessibilityNode {
    AccessibilityNode {
        index,
        parent_index: None,
        depth: 0,
        object_ref: format!(":1.{index}/element"),
        role: "push button".to_string(),
        name: Some(format!("Button {index}")),
        description: None,
        child_count: 0,
        bounds,
        states: vec!["enabled".to_string()],
        actions: actions
            .iter()
            .enumerate()
            .map(|(k, name)| AccessibilityAction {
                index: k as i32,
                name: (*name).to_string(),
                description: String::new(),
                keybinding: String::new(),
            })
            .collect(),
        value: None,
        text: None,
        supports_editable_text: false,
    }
}

fn placed(index: u32, actions: &[&str]) -> AccessibilityNode {
    node(
        index,
        Some(Bounds {
            x: 10,
            y: 20,
            width: 100,
            height: 40,
        }),
        actions,
    )
}

fn sent() -> ActionOutput {
    action_success("click", "Action sent through ydotool.".to_string())
}

#[test]
fn a_refused_click_ends_with_the_refusal() {
    let mut params = ClickParams {
        x: Some(1),
        y: Some(2),
        ..Default::default()
    };
    let start = start_click(&params);
    match click(
        &mut params,
        &[],
        None,
        start,
        ClickReport::Gate(Err("not allowed".to_string())),
    ) {
        ClickTask::Done(output) => {
            assert!(!output.ok);
            assert_eq!(output.message, "not allowed");
        }
        task => panic!("the click was refused: {task:?}"),
    }
}

#[test]
fn a_click_at_a_point_moves_from_the_allowlist_to_the_pointer() {
    let mut params = ClickParams {
        x: Some(30),
        y: Some(40),
        ..Default::default()
    };
    let start = start_click(&params);
    let task = click(
        &mut params,
        &[],
        None,
        start,
        ClickReport::Gate(Ok(())),
    );
    assert!(matches!(task, ClickTask::ReadBounds(None)));
    let task = click(
        &mut params,
        &[],
        None,
        task,
        ClickReport::Bounds(CachedBounds::Desktop),
    );
    let ClickTask::Act { click: point, .. } = &task else {
        panic!("there is nothing to hold: {task:?}");
    };
    assert_eq!((point.x, point.y), (30, 40));
    let task = click(&mut params, &[], None, task, ClickReport::Clicked(sent()));
    assert!(matches!(task, ClickTask::Done(_) | ClickTask::Look { .. }));
}

#[test]
fn a_relative_click_without_a_window_is_at_the_desktop_point() {
    for relative in [Some(true), None] {
        let mut params = ClickParams {
            x: Some(7),
            y: Some(9),
            relative,
            ..Default::default()
        };
        let start = start_click(&params);
        assert!(matches!(start, ClickTask::Gate(None)));
        let task = click(&mut params, &[], None, start, ClickReport::Gate(Ok(())));
        assert!(matches!(task, ClickTask::ReadBounds(None)));
        let task = click(
            &mut params,
            &[],
            None,
            task,
            ClickReport::Bounds(CachedBounds::Desktop),
        );
        assert!(matches!(&task, ClickTask::Act { click, .. } if (click.x, click.y) == (7, 9)));
    }
}

#[test]
fn a_relative_scroll_without_a_window_is_at_the_desktop_point() {
    let mut params = ScrollParams {
        x: Some(7),
        y: Some(9),
        direction: "down".to_string(),
        relative: Some(true),
        ..Default::default()
    };
    let start = start_scroll(&params);
    let task = scroll(&mut params, &[], None, 3, start, ScrollReport::Gate(Ok(())));
    assert!(matches!(task, ScrollTask::ReadBounds(_)));
    let task = scroll(
        &mut params,
        &[],
        None,
        3,
        task,
        ScrollReport::Bounds(CachedBounds::Desktop),
    );
    assert!(matches!(&task, ScrollTask::Position { plan, .. } if plan.point == Some((7, 9))));
}

#[test]
fn a_relative_drag_without_a_window_is_refused() {
    let params = DragParams {
        start_x: Some(1),
        start_y: Some(2),
        end_x: Some(3),
        end_y: Some(4),
        relative: Some(true),
        ..Default::default()
    };
    match drag(
        &params,
        &[],
        None,
        start_drag(&params),
        DragReport::Gate(Ok(())),
    ) {
        DragTask::Done(output) => {
            assert!(!output.ok);
            assert_eq!(
                output.message,
                "Relative drag coordinates require a window target."
            );
        }
        task => panic!("there is no window to be relative to: {task:?}"),
    }
}

#[test]
fn the_allowlist_is_asked_about_the_window_that_is_named() {
    let click = start_click(&ClickParams {
        target: at(7),
        ..Default::default()
    });
    assert!(matches!(click, ClickTask::Gate(Some(asked)) if asked.window_id == Some(7)));
    let scroll = start_scroll(&ScrollParams {
        target: at(7),
        ..Default::default()
    });
    assert!(matches!(scroll, ScrollTask::Gate(Some(asked)) if asked.window_id == Some(7)));
    let keys = start_press_key(&PressKeyParams {
        target: at(7),
        ..Default::default()
    });
    assert!(matches!(keys, KeyTask::Gate(Some(asked)) if asked.window_id == Some(7)));
    let text = start_type_text(&TypeTextParams {
        target: at(7),
        ..Default::default()
    });
    assert!(matches!(text, TypeTask::Gate(Some(asked)) if asked.window_id == Some(7)));
    assert!(matches!(start_perform_action(), PerformTask::Gate(None)));
    assert!(matches!(
        start_set_value(&SetValueParams::default()),
        ValueTask::Gate(None)
    ));
}

#[test]
fn a_drag_on_a_window_off_the_allowlist_is_refused() {
    let params = DragParams {
        start_x: Some(1),
        start_y: Some(2),
        end_x: Some(3),
        end_y: Some(4),
        target: at(8),
        ..Default::default()
    };
    let mut focused = window(7, "Editor");
    focused.app_id = Some("allowed".to_string());
    let mut other = window(8, "Other");
    other.focused = false;
    let start = start_drag(&params);
    let DragTask::Gate(asked) = &start else {
        panic!("the allowlist comes first: {start:?}");
    };
    let GateQuestion::Target(patterns, target) = gate_question(Some("allowed"), asked.clone())
    else {
        panic!("the window that is named is asked about");
    };
    let verdict = gate_target("drag", &patterns, &target, &Ok(vec![focused, other]));
    match drag(&params, &[], None, start, DragReport::Gate(verdict)) {
        DragTask::Done(output) => {
            assert!(!output.ok);
            assert!(
                output.message.starts_with("Refused drag: window_id 8"),
                "{}",
                output.message
            );
        }
        task => panic!("the window is not allowed: {task:?}"),
    }
}

#[test]
fn modifiers_on_an_element_without_a_point_fail() {
    let nodes = [node(7, None, &["click"])];
    let mut params = ClickParams {
        element_index: Some(7),
        modifiers: vec!["ctrl".to_string()],
        ..Default::default()
    };
    match click(
        &mut params,
        &nodes,
        None,
        ClickTask::ReadBounds(None),
        ClickReport::Bounds(CachedBounds::Desktop),
    ) {
        ClickTask::Done(output) => {
            assert!(!output.ok);
            assert_eq!(
                output.message,
                "Modifiers only apply to the pointer, so the AT-SPI click action was skipped. No clickable bounds cached for element_index 7. Call get_app_state first and choose a node with positive width and height."
            );
        }
        task => panic!("there is nowhere to click: {task:?}"),
    }
}

#[test]
fn a_click_carries_its_button_and_how_often() {
    let mut params = ClickParams {
        x: Some(30),
        y: Some(40),
        button: Some("right".to_string()),
        click_count: Some(2),
        ..Default::default()
    };
    let task = click(
        &mut params,
        &[],
        None,
        ClickTask::ReadBounds(None),
        ClickReport::Bounds(CachedBounds::Desktop),
    );
    let ClickTask::Act { stroke, .. } = task else {
        panic!("there is nothing to hold: {task:?}");
    };
    assert_eq!(stroke.button, Some(PointerButton::Right));
    assert_eq!(stroke.repeats, 2);
    assert_eq!(
        stroke.commands,
        vec![
            vec!["mousemove", "--absolute", "--", "30", "40"],
            vec!["click", "--repeat", "2", "0xC1"],
        ]
    );
}

#[test]
fn a_click_in_a_window_needs_its_focus() {
    let params = || ClickParams {
        x: Some(30),
        y: Some(40),
        relative: Some(true),
        target: at(7),
        ..Default::default()
    };
    let mut lost = params();
    let start = start_click(&lost);
    let task = click(
        &mut lost,
        &[],
        None,
        start,
        ClickReport::Gate(Ok(())),
    );
    assert!(matches!(&task, ClickTask::Focus(target) if target.window_id == Some(7)));
    let task = click(
        &mut lost,
        &[],
        None,
        task,
        ClickReport::Focus(Ok(unfocused(7))),
    );
    assert!(matches!(task, ClickTask::Done(output) if !output.ok));

    let mut kept = params();
    let task = click(
        &mut kept,
        &[],
        Some((1920, 1080)),
        ClickTask::Focus(at(7).to_target()),
        ClickReport::Focus(Ok(focused(7))),
    );
    assert!(matches!(task, ClickTask::ReadBounds(Some(_))));
    assert_eq!((kept.x, kept.y), (Some(130), Some(240)));
}

#[test]
fn held_modifiers_are_released_after_the_click() {
    let mut params = ClickParams {
        x: Some(30),
        y: Some(40),
        modifiers: vec!["ctrl".to_string()],
        ..Default::default()
    };
    let task = click(
        &mut params,
        &[],
        None,
        ClickTask::ReadBounds(None),
        ClickReport::Bounds(CachedBounds::Desktop),
    );
    let ClickTask::Hold { click: point, .. } = &task else {
        panic!("there is a modifier to hold: {task:?}");
    };
    assert_eq!(point.held, vec![29]);
    let task = click(&mut params, &[], None, task, ClickReport::Held(Ok(())));
    assert!(matches!(task, ClickTask::Act { .. }));
    let task = click(&mut params, &[], None, task, ClickReport::Clicked(sent()));
    assert!(matches!(task, ClickTask::Release { .. }));
    let task = click(&mut params, &[], None, task, ClickReport::Released(Ok(())));
    let output = match task {
        ClickTask::Done(output) | ClickTask::Look { output, .. } => output,
        task => panic!("the click is over: {task:?}"),
    };
    assert!(output.message.contains("ctrl"), "{}", output.message);
}

#[test]
fn modifiers_that_cannot_be_held_stop_the_click() {
    let mut params = ClickParams {
        x: Some(30),
        y: Some(40),
        modifiers: vec!["ctrl".to_string()],
        ..Default::default()
    };
    let task = click(
        &mut params,
        &[],
        None,
        ClickTask::ReadBounds(None),
        ClickReport::Bounds(CachedBounds::Desktop),
    );
    let task = click(
        &mut params,
        &[],
        None,
        task,
        ClickReport::Held(Err("no daemon".to_string())),
    );
    let output = match task {
        ClickTask::Done(output) | ClickTask::Look { output, .. } => output,
        task => panic!("nothing was clicked: {task:?}"),
    };
    assert!(!output.ok);
    assert!(
        output
            .message
            .starts_with("Could not hold the modifiers through ydotool: no daemon"),
        "{}",
        output.message
    );
}

#[test]
fn an_element_is_clicked_by_its_action_and_by_the_pointer_when_that_fails() {
    let nodes = [placed(7, &["click"])];
    let mut params = ClickParams {
        element_index: Some(7),
        ..Default::default()
    };
    let invoke = |params: &mut ClickParams| {
        click(
            params,
            &nodes,
            None,
            ClickTask::ReadBounds(None),
            ClickReport::Bounds(CachedBounds::Desktop),
        )
    };
    let task = invoke(&mut params);
    assert!(
        matches!(&task, ClickTask::Invoke { action, .. } if action.object_ref == ":1.7/element")
    );
    let task = click(
        &mut params,
        &nodes,
        None,
        task,
        ClickReport::Invoked(ActionOutcome::Done),
    );
    assert!(matches!(&task, ClickTask::Look { output, .. } if output.ok));

    let task = invoke(&mut params);
    let task = click(
        &mut params,
        &nodes,
        None,
        task,
        ClickReport::Invoked(ActionOutcome::ReturnedFalse),
    );
    assert!(matches!(&task, ClickTask::Act { click, .. } if (click.x, click.y) == (60, 40)));

    let task = invoke(&mut params);
    let task = click(
        &mut params,
        &nodes,
        None,
        task,
        ClickReport::Invoked(ActionOutcome::Stale),
    );
    match task {
        ClickTask::Done(output) => {
            assert!(!output.ok);
            assert!(
                output.message.contains(STALE_TREE_MESSAGE),
                "{}",
                output.message
            );
        }
        task => panic!("a stale element is not clicked: {task:?}"),
    }
}

#[test]
fn window_relative_elements_are_offset_by_the_window() {
    let nodes = [placed(7, &[])];
    let mut params = ClickParams {
        element_index: Some(7),
        ..Default::default()
    };
    let task = click(
        &mut params,
        &nodes,
        None,
        ClickTask::ReadBounds(None),
        ClickReport::Bounds(CachedBounds::Window(BoundsOffset {
            window_id: 1,
            offset: (965, 48),
        })),
    );
    assert!(matches!(&task, ClickTask::Act { click, .. } if (click.x, click.y) == (1025, 88)));
}

#[test]
fn clicks_repeat_between_once_and_ten_times() {
    assert_eq!(click_repeats(None), 1);
    assert_eq!(click_repeats(Some(0)), 1);
    assert_eq!(click_repeats(Some(2)), 2);
    assert_eq!(click_repeats(Some(99)), 10);
    let params = ClickParams {
        click_count: Some(2),
        button: Some("right".to_string()),
        ..Default::default()
    };
    assert_eq!(
        click_commands(5, 6, &params),
        vec![
            vec!["mousemove", "--absolute", "--", "5", "6"],
            vec!["click", "--repeat", "2", "0xC1"],
        ]
    );
}

#[test]
fn a_click_says_where_it_landed() {
    let landed = click_at_point(
        2000,
        10,
        PointerOutcome::Absolute {
            landing: PointerLanding {
                requested: (2000, 10),
                emitted: (1919, 10),
            },
            actual: Some((500, 10)),
        },
    );
    assert!(landed.ok);
    assert!(
        landed.message.starts_with(
            "Action sent through the uinput absolute pointer at desktop point (1919, 10)."
        ),
        "{}",
        landed.message
    );
    assert!(landed.message.contains("was clamped to 1919,10"));
    assert!(landed.message.contains("the compositor reports the pointer at (500, 10)"));

    let off = click_at_point(
        2000,
        10,
        PointerOutcome::Ydotool {
            result: Ok(()),
            desktop: Some((1920, 1080)),
        },
    );
    assert!(off.message.contains("outside the captured desktop (1920x1080)"));
    let failed = click_at_point(
        1,
        1,
        PointerOutcome::Ydotool {
            result: Err("no daemon".to_string()),
            desktop: None,
        },
    );
    assert!(!failed.ok);
    assert_eq!(failed.message, "no daemon");
}

#[test]
fn a_scroll_prefers_the_action_of_its_element() {
    let nodes = [placed(7, &["scrollDown"])];
    let mut params = ScrollParams {
        element_index: Some(7),
        direction: "down".to_string(),
        ..Default::default()
    };
    let start = start_scroll(&params);
    let task = scroll(
        &mut params,
        &nodes,
        None,
        3,
        start,
        ScrollReport::Gate(Ok(())),
    );
    assert!(matches!(
        &task,
        ScrollTask::Invoke { element_index: 7, .. }
    ));
    let done = scroll(
        &mut params,
        &nodes,
        None,
        3,
        task,
        ScrollReport::Invoked(ActionOutcome::Done),
    );
    assert!(matches!(done, ScrollTask::Done(output) if output.ok));
}

#[test]
fn a_scroll_turns_the_wheel_at_its_point() {
    let mut params = ScrollParams {
        x: Some(30),
        y: Some(40),
        direction: "up".to_string(),
        ..Default::default()
    };
    let start = start_scroll(&params);
    let task = scroll(
        &mut params,
        &[],
        None,
        3,
        start,
        ScrollReport::Gate(Ok(())),
    );
    assert!(matches!(&task, ScrollTask::ReadBounds(_)));
    let task = scroll(
        &mut params,
        &[],
        None,
        3,
        task,
        ScrollReport::Bounds(CachedBounds::Desktop),
    );
    assert!(
        matches!(&task, ScrollTask::Position { plan, .. } if plan.point == Some((30, 40)) && plan.dy == 3)
    );
    let task = scroll(
        &mut params,
        &[],
        None,
        3,
        task,
        ScrollReport::Positioned {
            moved: false,
            seen: Vec::new(),
        },
    );
    let ScrollTask::Turn { commands, .. } = &task else {
        panic!("the wheel turns: {task:?}");
    };
    assert_eq!(
        commands,
        &vec![
            vec!["mousemove", "--absolute", "--", "30", "40"],
            vec!["mousemove", "--wheel", "--", "0", "3"],
        ]
    );
    let task = scroll(
        &mut params,
        &[],
        None,
        3,
        task,
        ScrollReport::Turned(Ok(())),
    );
    assert!(matches!(task, ScrollTask::Done(output) if output.ok));
}

#[test]
fn a_scroll_in_no_known_direction_is_refused() {
    let mut params = ScrollParams {
        direction: "sideways".to_string(),
        ..Default::default()
    };
    let task = scroll(
        &mut params,
        &[],
        None,
        3,
        ScrollTask::ReadBounds(Vec::new()),
        ScrollReport::Bounds(CachedBounds::Desktop),
    );
    assert!(matches!(task, ScrollTask::Done(output) if !output.ok));
}

#[test]
fn a_scroll_in_a_window_happens_at_its_center() {
    let mut params = ScrollParams {
        direction: "down".to_string(),
        target: at(7),
        ..Default::default()
    };
    let task = scroll(
        &mut params,
        &[],
        Some((1920, 1080)),
        3,
        ScrollTask::Focus(at(7).to_target()),
        ScrollReport::Focus(Ok(focused(7))),
    );
    assert!(matches!(task, ScrollTask::ReadBounds(_)));
    assert_eq!((params.x, params.y), (Some(300), Some(350)));
}

#[test]
fn a_drag_goes_from_its_first_end_to_its_last() {
    let params = DragParams {
        start_x: Some(10),
        start_y: Some(20),
        end_x: Some(30),
        end_y: Some(40),
        ..Default::default()
    };
    let task = drag(
        &params,
        &[],
        None,
        start_drag(&params),
        DragReport::Gate(Ok(())),
    );
    assert!(matches!(&task, DragTask::ReadBounds { origin: (0, 0), .. }));
    let task = drag(
        &params,
        &[],
        None,
        task,
        DragReport::Bounds(CachedBounds::Desktop),
    );
    let DragTask::Act { ends, .. } = &task else {
        panic!("there is nothing to hold: {task:?}");
    };
    assert_eq!(ends.start, (10, 20));
    assert_eq!(ends.end, (30, 40));
}

#[test]
fn a_drag_with_an_unknown_modifier_is_refused() {
    let params = DragParams {
        modifiers: vec!["hyper".to_string()],
        ..Default::default()
    };
    let task = drag(
        &params,
        &[],
        None,
        start_drag(&params),
        DragReport::Gate(Ok(())),
    );
    assert!(matches!(task, DragTask::Done(output) if !output.ok));
}

#[test]
fn an_end_that_leaves_the_range_of_a_coordinate_is_refused() {
    let params = DragParams {
        start_x: Some(i32::MAX),
        start_y: Some(0),
        end_x: Some(0),
        end_y: Some(0),
        ..Default::default()
    };
    let from = |origin: (i32, i32)| {
        drag(
            &params,
            &[],
            None,
            DragTask::ReadBounds {
                origin,
                held: Vec::new(),
            },
            DragReport::Bounds(CachedBounds::Desktop),
        )
    };
    assert!(matches!(from((0, 0)), DragTask::Act { .. }));
    match from((1, 0)) {
        DragTask::Done(output) => {
            assert!(!output.ok);
            assert_eq!(
                output.message,
                "start is no point of the desktop: window-relative (2147483647, 0) is out of range behind the window origin (1, 0)."
            );
        }
        task => panic!("there is no such point: {task:?}"),
    }
}

#[test]
fn a_drag_says_where_it_was_pressed_and_released() {
    let landing = DragLanding {
        start: PointerLanding {
            requested: (10, 10),
            emitted: (10, 10),
        },
        end: PointerLanding {
            requested: (2000, 10),
            emitted: (1919, 10),
        },
        steps: 40,
    };
    let output = drag_inner(DragOutcome::Absolute {
        landing,
        actual: Some((1919, 10)),
    });
    assert!(output.ok);
    assert!(
        output.message.contains("pressed at (10, 10)"),
        "{}",
        output.message
    );
    assert!(output.message.contains("in 40 steps"));
    assert!(output.message.contains("was clamped to 1919,10"));
    let failed = drag_inner(DragOutcome::Ydotool(Err("no daemon".to_string())));
    assert!(!failed.ok);
    assert_eq!(failed.message, "no daemon");
}

#[test]
fn keys_are_pressed_in_order_until_one_fails() {
    let params = PressKeyParams {
        keys: vec!["ctrl+a".to_string(), "Delete".to_string()],
        ..Default::default()
    };
    let task = press_key(&params, start_press_key(&params), KeyReport::Gate(Ok(())));
    let KeyTask::Press { index, args, .. } = &task else {
        panic!("no window is to be focused: {task:?}");
    };
    assert_eq!(*index, 0);
    assert_eq!(args, &["key", "-d", "100", "29:1", "30:1", "30:0", "29:0"]);
    let failed = press_key(&params, task, KeyReport::Sent(Err("no daemon".to_string())));
    assert!(matches!(failed, KeyTask::Done(output) if !output.ok));

    let task = press_key(&params, start_press_key(&params), KeyReport::Gate(Ok(())));
    let task = press_key(&params, task, KeyReport::Sent(Ok(())));
    assert!(matches!(&task, KeyTask::Press { index: 1, args, .. } if args == &["key", "111:1", "111:0"]));
    let task = press_key(&params, task, KeyReport::Sent(Ok(())));
    assert!(matches!(&task, KeyTask::Look { output, .. } | KeyTask::Done(output) if output.ok));
}

#[test]
fn an_unknown_key_is_refused_before_anything_is_pressed() {
    let params = PressKeyParams {
        key: Some("NotAKey".to_string()),
        ..Default::default()
    };
    let task = press_key(&params, start_press_key(&params), KeyReport::Gate(Ok(())));
    assert!(matches!(task, KeyTask::Done(output) if !output.ok));
}

#[test]
fn keys_for_a_window_wait_for_its_focus() {
    let params = PressKeyParams {
        key: Some("Enter".to_string()),
        target: at(7),
        ..Default::default()
    };
    let task = press_key(&params, start_press_key(&params), KeyReport::Gate(Ok(())));
    assert!(matches!(&task, KeyTask::Focus { target, .. } if target.window_id == Some(7)));
    let lost = press_key(&params, task, KeyReport::Focus(Ok(unfocused(7))));
    assert!(matches!(lost, KeyTask::Done(output) if !output.ok));
}

#[test]
fn text_is_typed_through_the_lane_that_took_it() {
    let params = TypeTextParams {
        text: "hello".to_string(),
        ..Default::default()
    };
    let task = type_text(&params, start_type_text(&params), TypeReport::Gate(Ok(())));
    assert!(matches!(&task, TypeTask::Type { text, focus: None } if text == "hello"));
    let task = type_text(
        &params,
        task,
        TypeReport::Typed(KeyboardCommandBackend::Wtype, Ok(())),
    );
    match &task {
        TypeTask::Look { output, .. } | TypeTask::Done(output) => {
            assert!(output.ok);
            assert!(output.message.contains("wtype"), "{}", output.message);
        }
        task => panic!("the text was typed: {task:?}"),
    }
}

#[test]
fn an_action_is_invoked_on_the_element_it_names() {
    let nodes = [placed(7, &["click"])];
    let params = ActionParams {
        element_index: Some(7),
        ..Default::default()
    };
    let task = perform_element_action(
        &nodes,
        &params,
        start_perform_action(),
        PerformReport::Gate(Ok(())),
    );
    assert!(matches!(
        &task,
        PerformTask::Invoke { object_ref, action, .. } if object_ref == ":1.7/element" && action == "0"
    ));
    let task = perform_element_action(
        &nodes,
        &params,
        task,
        PerformReport::Invoked(Invocation::Answered {
            ok: true,
            action_index: 0,
            action_name: Some("click".to_string()),
        }),
    );
    assert!(matches!(&task, PerformTask::Look { output, .. } if output.ok));
    let task = perform_element_action(
        &nodes,
        &params,
        task,
        PerformReport::Looked(vec!["It is checked now.".to_string()]),
    );
    match task {
        PerformTask::Done(output) => assert_eq!(
            output.message,
            "AT-SPI action 0 (click) invoked. It is checked now."
        ),
        task => panic!("the action is over: {task:?}"),
    }
}

#[test]
fn an_action_on_no_element_is_refused() {
    let task = perform_element_action(
        &[],
        &ActionParams::default(),
        start_perform_action(),
        PerformReport::Gate(Ok(())),
    );
    assert!(matches!(task, PerformTask::Done(output) if !output.ok));
}

#[test]
fn an_editable_element_without_a_value_is_typed_into() {
    let mut entry = placed(7, &[]);
    entry.states = vec!["focusable".to_string(), "editable".to_string()];
    let nodes = [entry];
    let params = SetValueParams {
        element_index: Some(7),
        value: "hello".to_string(),
        ..Default::default()
    };
    let task = set_value(
        &nodes,
        &params,
        start_set_value(&params),
        ValueReport::Gate(Ok(())),
    );
    assert!(matches!(
        &task,
        ValueTask::Assign { object_ref, value } if object_ref == ":1.7/element" && value == "hello"
    ));
    let task = set_value(
        &nodes,
        &params,
        task,
        ValueReport::Assigned(ValueOutcome::Failed {
            error: format!("element {NO_VALUE_INTERFACE}"),
            detail: format!("element {NO_VALUE_INTERFACE}"),
        }),
    );
    assert!(matches!(&task, ValueTask::GrabFocus(object_ref) if object_ref == ":1.7/element"));
    let task = set_value(
        &nodes,
        &params,
        task,
        ValueReport::Keyboard(KeyboardStage::Focus(GrabOutcome::Grabbed)),
    );
    assert!(matches!(task, ValueTask::SelectAll { wait_ms: GRAB_SETTLE_MS }));
    let task = set_value(
        &nodes,
        &params,
        task,
        ValueReport::Keyboard(KeyboardStage::SelectAll(action_success(
            "press_key",
            "sent".to_string(),
        ))),
    );
    assert!(matches!(&task, ValueTask::Type { value } if value == "hello"));
    let task = set_value(
        &nodes,
        &params,
        task,
        ValueReport::Keyboard(KeyboardStage::Typed(action_success(
            "type_text",
            "sent".to_string(),
        ))),
    );
    assert!(matches!(task, ValueTask::Done(output) if output.ok));
}

#[test]
fn a_value_is_not_typed_without_the_focus() {
    let mut entry = placed(7, &[]);
    entry.states = vec!["focusable".to_string(), "editable".to_string()];
    let nodes = [entry];
    let params = SetValueParams {
        element_index: Some(7),
        value: "hello".to_string(),
        ..Default::default()
    };
    for grabbed in [
        GrabOutcome::ReturnedFalse,
        GrabOutcome::Stale,
        GrabOutcome::Failed("no".to_string()),
    ] {
        let task = set_value(
            &nodes,
            &params,
            ValueTask::GrabFocus(":1.7/element".to_string()),
            ValueReport::Keyboard(KeyboardStage::Focus(grabbed)),
        );
        assert!(matches!(task, ValueTask::Done(output) if !output.ok));
    }
}
