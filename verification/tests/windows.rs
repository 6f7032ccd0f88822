use computer_use_hyprland::elements::AccessibilityNode;
use computer_use_hyprland::gate::{
    focus_satisfies_target, gate_focused, gate_question, gate_target, gate_verdict, GateQuestion,
};
use computer_use_hyprland::params::{
    ActivateWindowParams, GetAppStateParams, ScreenshotParams, ScreenshotRegion, WaitForParams,
};
use computer_use_hyprland::screenshot::{
    png_dimensions, RawScreenshotCapture, ScreenshotOutputFormat,
};
use computer_use_hyprland::tools::capture::{
    app_state_crop, cut_for_app_state, cut_screenshot, found_window, raised_window, screenshot,
    screenshot_caption, start_screenshot, RegionError, ScreenshotError, ScreenshotReport,
    ScreenshotTask, NO_WINDOW_TO_SHOW, RAISE_SETTLE_MS,
};
use computer_use_hyprland::apps::AccessibleAppSummary;
use computer_use_hyprland::tools::state::{
    conclude_app_state, disabled_tree, get_app_state, read_tree, remember_tree,
    resolve_window_context, snapshot_limits, start_app_state, AppScreenshot, AppStateEvent,
    AppStateTask, ScreenshotOutcome, TreeRead, TreeSnapshot, WindowContext,
};
use computer_use_hyprland::tools::wait::{
    begin_look, next_wait_stage, probe_wait_predicates, satisfied_message, start_wait_for,
    timeout_message, wait_for, wait_step, ProbeNext, WaitAnswer, WaitProbe, WaitStage, WaitStep,
    WaitTask, NOTHING_TO_WAIT_FOR, WAIT_FOR_POLL_INTERVAL_MS,
};
use computer_use_hyprland::tools::windows::{
    activate_window_output, focus_workspace, focused_window_output, move_window_to_workspace,
    pointer_position_output, start_focus_workspace, start_geometry, start_move_window,
    window_backend, window_geometry_op, window_list_output, GeometryChange, GeometryReport, GeometryTask, WindowWorkspaceMove, WorkspaceReport,
    WorkspaceTask, BACKEND_NOT_ASKED, UNKNOWN_BACKEND,
};
use computer_use_hyprland::cache::{CachedTree, WindowContextSource};
use computer_use_hyprland::tree::StableElementIndices;
use computer_use_hyprland::windowing::types::{
    WindowBounds, WindowFocusResult, WindowInfo, WindowOcclusion, WindowTarget, WorkspaceChange,
    WorkspaceSummary,
};

fn window(window_id: u64, title: &str) -> WindowInfo {
    WindowInfo {
        window_id,
        title: Some(title.to_string()),
        app_id: Some("app".to_string()),
        wm_class: Some("app".to_string()),
        pid: Some(4242),
        bounds: Some(WindowBounds {
            x: Some(50),
            y: Some(20),
            width: 200,
            height: 100,
        }),
        workspace: Some(1),
        focused: false,
        hidden: false,
        client_type: None,
        backend: "hyprland".to_string(),
        terminal: None,
    }
}

fn by_id(window_id: u64) -> WindowTarget {
    WindowTarget {
        window_id: Some(window_id),
        ..Default::default()
    }
}

fn picture(width: u32, height: u32) -> RawScreenshotCapture {
    let img = image::RgbaImage::from_pixel(width, height, image::Rgba([32, 128, 192, 255]));
    let mut bytes = Vec::new();
    image::DynamicImage::ImageRgba8(img)
        .write_to(
            &mut std::io::Cursor::new(&mut bytes),
            image::ImageFormat::Png,
        )
        .unwrap();
    RawScreenshotCapture {
        mime_type: "image/png".to_string(),
        bytes,
        source: "test".to_string(),
        width,
        height,
    }
}

#[test]
fn without_an_allowlist_nothing_is_asked() {
    assert!(matches!(gate_question(None, None), GateQuestion::Nothing));
    assert!(matches!(
        gate_question(Some("app"), Some(by_id(1))),
        GateQuestion::Target(patterns, target) if patterns == ["app"] && target.window_id == Some(1)
    ));
    assert!(matches!(
        gate_question(Some("app"), Some(WindowTarget::default())),
        GateQuestion::Focused(_)
    ));
}

#[test]
fn a_window_off_the_allowlist_is_refused_by_name() {
    let patterns = vec!["ghostty".to_string(), "zed".to_string()];
    assert_eq!(
        gate_verdict("click", &patterns, &window(7, "Editor")).unwrap_err(),
        "Refused click: window_id 7 (app_id \"app\", wm_class \"app\", title \"Editor\") matches none of the COMPUTER_USE_HYPRLAND_ALLOWED_APPS patterns [ghostty, zed]."
    );
    assert!(gate_verdict("click", &["APP".to_string()], &window(7, "Editor")).is_ok());
}

#[test]
fn what_cannot_be_seen_is_refused() {
    let patterns = vec!["app".to_string()];
    assert_eq!(
        gate_focused("click", &patterns, &Ok(None)).unwrap_err(),
        "Refused click: COMPUTER_USE_HYPRLAND_ALLOWED_APPS is set and no window holds focus."
    );
    assert!(gate_focused("click", &patterns, &Err("no socket".to_string())).is_err());
    assert!(gate_focused("click", &patterns, &Ok(Some(window(7, "Editor")))).is_ok());
    assert!(gate_target("click", &patterns, &by_id(7), &Err("no socket".to_string())).is_err());
    assert!(gate_target("click", &patterns, &by_id(8), &Ok(vec![window(7, "a")])).is_err());
    assert!(gate_target("click", &patterns, &by_id(7), &Ok(vec![window(7, "a")])).is_ok());
}

#[test]
fn a_window_id_needs_its_own_focus_and_an_app_id_its_app() {
    let focus = WindowFocusResult {
        requested_window: window(7, "a"),
        focused_window: Some(window(8, "b")),
        exact_window_focused: false,
        app_focused: true,
        backend: "hyprland".to_string(),
        note: String::new(),
    };
    assert!(!focus_satisfies_target(&focus, &by_id(7)));
    let app = WindowTarget {
        app_id: Some("app".to_string()),
        ..Default::default()
    };
    assert!(focus_satisfies_target(&focus, &app));
}

#[test]
fn a_window_is_cut_out_of_the_desktop() {
    let cut = cut_screenshot(
        picture(400, 200),
        Some(&window(7, "a")),
        &ScreenshotParams::default(),
    )
    .unwrap();
    assert_eq!(cut.window_crop, Some((50, 20, 200, 100)));
    assert_eq!(cut.region_crop, None);
    assert_eq!(png_dimensions(&cut.capture.bytes).unwrap(), (200, 100));
}

#[test]
fn a_region_is_cut_out_of_the_window() {
    let params = ScreenshotParams {
        region: Some(ScreenshotRegion {
            x: 10,
            y: 10,
            width: 30,
            height: 20,
        }),
        relative: Some(true),
        ..Default::default()
    };
    let cut = cut_screenshot(picture(400, 200), Some(&window(7, "a")), &params).unwrap();
    assert_eq!(cut.region_crop, Some((60, 30, 30, 20)));
    assert_eq!(png_dimensions(&cut.capture.bytes).unwrap(), (30, 20));
    assert!(matches!(
        cut_screenshot(picture(400, 200), None, &params),
        Err(RegionError::Rejected(_))
    ));
}

#[test]
fn a_caption_says_what_was_cut_and_what_covers_it() {
    let caption = screenshot_caption(
        Some(&window(7, "Editor")),
        Some((50, 20, 200, 100)),
        None,
        None,
        vec![WindowOcclusion {
            window_id: 9,
            title: Some("Dialog".to_string()),
        }],
    );
    assert!(caption.cropped_to_window);
    assert!(!caption.cropped_to_region);
    assert_eq!(caption.crop, Some((50, 20, 200, 100)));
    assert_eq!(caption.window_title.as_deref(), Some("Editor"));
    assert!(caption.occlusion_note.unwrap().contains("Dialog (window_id 9)"));
}

#[test]
fn the_desktop_is_not_shown_in_place_of_a_window() {
    assert_eq!(
        cut_for_app_state(picture(4, 2), None, true).unwrap_err(),
        NO_WINDOW_TO_SHOW
    );
    assert_eq!(cut_for_app_state(picture(4, 2), None, false).unwrap().width, 4);
    assert_eq!(app_state_crop(None, 400, 200), Ok(None));
    assert!(app_state_crop(Some(&window(7, "a")), 400, 200).is_err());
    let mut shown = window(7, "a");
    shown.focused = true;
    assert_eq!(
        app_state_crop(Some(&shown), 400, 200),
        Ok(Some((50, 20, 200, 100)))
    );
}

#[test]
fn a_raised_window_is_the_focused_one_and_a_found_one_is_listed() {
    let focus = WindowFocusResult {
        requested_window: window(7, "a"),
        focused_window: Some(window(7, "a")),
        exact_window_focused: true,
        app_focused: true,
        backend: "hyprland".to_string(),
        note: String::new(),
    };
    assert_eq!(raised_window(Ok(focus)).unwrap().window_id, 7);
    assert!(raised_window(Err("no socket".to_string())).is_err());
    let mut shown = window(7, "a");
    shown.focused = true;
    assert_eq!(found_window(&by_id(7), Ok(vec![shown])).unwrap().window_id, 7);
    assert!(found_window(&by_id(7), Ok(vec![])).is_err());
}

#[test]
fn screenshot_options_come_from_the_parameters() {
    let params = GetAppStateParams {
        max_width: Some(9),
        format: Some(ScreenshotOutputFormat::Jpeg),
        quality: Some(50),
        ..Default::default()
    };
    let options = params.screenshot_options();
    assert_eq!(options.max_width, Some(9));
    assert_eq!(options.format, Some(ScreenshotOutputFormat::Jpeg));
    assert_eq!(options.quality, Some(50));
}

#[test]
fn snapshots_are_limited() {
    assert_eq!(snapshot_limits(None, None), (1000, 32));
    assert_eq!(snapshot_limits(Some(10), Some(3)), (10, 3));
    assert_eq!(snapshot_limits(Some(1_000_000), Some(1000)), (2000, 64));
}

fn frame(object_ref: &str) -> AccessibilityNode {
    AccessibilityNode {
        index: 0,
        parent_index: None,
        depth: 0,
        object_ref: object_ref.to_string(),
        role: "frame".to_string(),
        name: Some("Editor".to_string()),
        description: None,
        child_count: 0,
        bounds: None,
        states: Vec::new(),
        actions: Vec::new(),
        value: None,
        text: None,
        supports_editable_text: false,
    }
}

#[test]
fn a_tree_is_read_numbered_and_remembered() {
    let mut indices = StableElementIndices::default();
    let read = read_tree(
        Ok(TreeSnapshot {
            nodes: vec![frame("app/frame")],
            root_pids: vec![4242],
        }),
        &mut indices,
    );
    assert_eq!(read.raw_count, 1);
    assert_eq!(read.nodes.len(), 1);
    assert_eq!(read.root_pids, vec![4242]);
    assert!(read.error.is_none());
    let mut cache = CachedTree::empty();
    remember_tree(&mut cache, read.nodes, false, None);
    assert_eq!(cache.nodes.len(), 1);
    remember_tree(&mut cache, Vec::new(), true, None);
    assert!(cache.nodes.is_empty());

    let failed = read_tree(Err("no bus".to_string()), &mut indices);
    assert_eq!(failed.error.as_deref(), Some("no bus"));
    assert_eq!(
        disabled_tree().error.as_deref(),
        Some("AT-SPI accessibility is disabled; call setup_accessibility first.")
    );
}

#[test]
fn a_state_is_concluded_from_what_was_seen() {
    let read = TreeRead {
        nodes: vec![frame("app/frame")],
        raw_count: 3,
        root_pids: vec![4242],
        error: None,
    };
    let report = conclude_app_state(
        &read,
        ScreenshotOutcome::NotRequested,
        WindowContext {
            window: None,
            error: None,
            permissions_hint: None,
        },
        &[window(7, "Editor")],
        false,
    );
    assert_eq!(report.window_context.map(|w| w.window_id), Some(7));
    assert_eq!(
        report.window_context_source,
        Some(WindowContextSource::AppPid)
    );
    assert!(!report.message.contains("verbose=true"), "{}", report.message);

    let context = resolve_window_context(&by_id(9), Ok(vec![window(7, "Editor")]));
    assert!(context.window.is_none());
    let report = conclude_app_state(
        &read,
        ScreenshotOutcome::Failed("no portal".to_string()),
        context,
        &[],
        false,
    );
    assert!(report.message.contains("verbose=true"), "{}", report.message);
    assert!(report.window_error.is_some());
}

#[test]
fn predicates_are_asked_one_after_the_other() {
    let params = WaitForParams {
        window_title: Some("Editor".to_string()),
        focused_window: Some(ActivateWindowParams {
            window_id: Some(7),
            ..Default::default()
        }),
        ..Default::default()
    };
    let mut probe = WaitProbe::new();
    assert_eq!(next_wait_stage(&params, WaitStage::Window), WaitStage::Title);
    let next = probe_wait_predicates(
        &params,
        &mut probe,
        WaitStage::Title,
        &WaitAnswer::Title(Some(window(7, "Other"))),
    );
    assert!(matches!(next, ProbeNext::Unsatisfied(_)));
    let next = probe_wait_predicates(
        &params,
        &mut probe,
        WaitStage::Title,
        &WaitAnswer::Title(Some(window(7, "The Editor"))),
    );
    assert!(matches!(next, ProbeNext::Ask(WaitStage::Focus)));
    let mut there = window(7, "The Editor");
    there.focused = true;
    let next = probe_wait_predicates(
        &params,
        &mut probe,
        WaitStage::Focus,
        &WaitAnswer::Focus(Ok(vec![there])),
    );
    assert!(matches!(next, ProbeNext::Satisfied));
    assert_eq!(probe.focused_window.map(|w| w.window_id), Some(7));
}

#[test]
fn an_element_is_waited_for_in_a_fresh_tree() {
    let params = WaitForParams {
        role: Some("frame".to_string()),
        ..Default::default()
    };
    let tree = |nodes: Vec<AccessibilityNode>| {
        WaitAnswer::Tree(
            TreeRead {
                raw_count: nodes.len(),
                nodes,
                root_pids: vec![4242],
                error: None,
            },
            vec![window(7, "Editor")],
        )
    };
    let mut probe = WaitProbe::new();
    assert!(matches!(
        probe_wait_predicates(&params, &mut probe, WaitStage::Element, &tree(Vec::new())),
        ProbeNext::Unsatisfied(_)
    ));
    assert!(matches!(
        probe_wait_predicates(
            &params,
            &mut probe,
            WaitStage::Element,
            &tree(vec![frame("app/frame")])
        ),
        ProbeNext::Satisfied
    ));
    assert_eq!(probe.element, Some(0));
    assert_eq!(probe.window_context.map(|w| w.window_id), Some(7));
    assert_eq!(
        probe.window_context_source,
        Some(WindowContextSource::AppPid)
    );
}

#[test]
fn waiting_rests_until_its_time_is_up() {
    assert_eq!(wait_step(true, 0, 5000), WaitStep::Satisfied);
    assert_eq!(
        wait_step(false, 0, 5000),
        WaitStep::Rest {
            ms: WAIT_FOR_POLL_INTERVAL_MS
        }
    );
    assert_eq!(wait_step(false, 4990, 5000), WaitStep::Rest { ms: 10 });
    assert_eq!(wait_step(false, 5000, 5000), WaitStep::TimedOut);
    assert_eq!(
        satisfied_message(120, Some(&frame("app/frame"))),
        "Predicates satisfied after 120 ms. Matched element_index 0 (frame \"Editor\") in a freshly cached tree."
    );
    assert_eq!(satisfied_message(120, None), "Predicates satisfied after 120 ms.");
    assert_eq!(
        timeout_message(5000, None, Some("3 nodes")),
        "Timed out after 5000 ms: predicates never held. 3 nodes."
    );
}

#[test]
fn a_window_listing_names_its_backend_or_its_error() {
    let output = window_list_output(Ok(vec![window(7, "a")]));
    assert_eq!(output.backend, "hyprland");
    assert_eq!(output.windows.len(), 1);
    assert_eq!(window_backend(&output.windows), "hyprland");
    let failed = window_list_output(Err("no socket".to_string()));
    assert_eq!(failed.backend, UNKNOWN_BACKEND);
    assert_eq!(failed.error.as_deref(), Some("no socket"));
}

#[test]
fn the_focused_window_and_the_pointer_are_reported() {
    let output = focused_window_output(Ok(Some(window(7, "a"))));
    assert_eq!(output.focused_window.map(|w| w.window_id), Some(7));
    assert!(focused_window_output(Err("no socket".to_string())).error.is_some());
    let at = pointer_position_output(Ok(Some(((3, 4), "hyprland".to_string()))));
    assert!(at.ok);
    assert_eq!((at.x, at.y), (Some(3), Some(4)));
    assert!(!pointer_position_output(Ok(None)).ok);
    assert!(!pointer_position_output(Err("no socket".to_string())).ok);
    assert!(!activate_window_output(&by_id(7), Err("no socket".to_string())).ok);
}

#[test]
fn a_window_is_moved_only_after_it_was_allowed_and_found() {
    let target = by_id(7);
    let change = GeometryChange::Move { x: 1, y: 2 };
    assert!(matches!(
        start_geometry(&target),
        GeometryTask::Gate(Some(asked)) if asked.window_id == Some(7)
    ));
    match window_geometry_op(
        &target,
        change,
        None,
        start_geometry(&target),
        GeometryReport::Gate(Err("not allowed".to_string())),
    ) {
        GeometryTask::Done(output) => {
            assert!(!output.ok);
            assert_eq!(output.backend, BACKEND_NOT_ASKED);
            assert_eq!(output.message, "not allowed");
        }
        task => panic!("the change was refused: {task:?}"),
    }
    let task = window_geometry_op(
        &target,
        change,
        None,
        start_geometry(&target),
        GeometryReport::Gate(Ok(())),
    );
    assert!(matches!(task, GeometryTask::List));
    let task = window_geometry_op(
        &target,
        change,
        None,
        task,
        GeometryReport::Listed(Ok(vec![window(7, "a")])),
    );
    assert!(matches!(
        &task,
        GeometryTask::Change { window, change: GeometryChange::Move { x: 1, y: 2 } } if window.window_id == 7
    ));
    let task = window_geometry_op(
        &target,
        change,
        None,
        task,
        GeometryReport::Changed(Ok("Moved window to (1, 2).".to_string())),
    );
    assert!(matches!(task, GeometryTask::ListAgain { window_id: 7, .. }));
    let task = window_geometry_op(
        &target,
        change,
        None,
        task,
        GeometryReport::Listed(Ok(vec![window(7, "a")])),
    );
    match task {
        GeometryTask::Done(output) => {
            assert!(output.ok);
            assert_eq!(output.window.map(|w| w.window_id), Some(7));
            assert!(output.message.starts_with("Moved window to (1, 2)."));
        }
        task => panic!("the window was moved: {task:?}"),
    }
}

fn change() -> WorkspaceChange {
    let at = |id: i32| WorkspaceSummary {
        id,
        name: id.to_string(),
        windows: 0,
    };
    WorkspaceChange {
        previous: at(1),
        current: at(5),
    }
}

#[test]
fn a_workspace_is_shown_once_it_is_allowed() {
    assert!(matches!(start_focus_workspace("nowhere"), WorkspaceTask::Done(output) if !output.ok));
    let task = start_focus_workspace("5");
    assert!(matches!(&task, WorkspaceTask::Gate { asked: None, .. }));
    let task = focus_workspace(task, WorkspaceReport::Gate(Ok(())));
    assert!(matches!(task, WorkspaceTask::Show(_)));
    let task = focus_workspace(task, WorkspaceReport::Shown(Ok(change())));
    match task {
        WorkspaceTask::Done(output) => {
            assert!(output.ok);
            assert_eq!(output.workspace.map(|w| w.id), Some(5));
            assert_eq!(output.previous_workspace.map(|w| w.id), Some(1));
        }
        task => panic!("the workspace is shown: {task:?}"),
    }
}

#[test]
fn a_window_is_sent_to_a_workspace() {
    let target = by_id(7);
    let task = start_move_window(&target, "5");
    assert!(matches!(
        &task,
        WorkspaceTask::Gate { asked: Some(asked), .. } if asked.window_id == Some(7)
    ));
    let task = move_window_to_workspace(&target, true, task, WorkspaceReport::Gate(Ok(())));
    assert!(matches!(task, WorkspaceTask::List(_)));
    let task = move_window_to_workspace(
        &target,
        true,
        task,
        WorkspaceReport::Listed(Ok(vec![window(7, "a")])),
    );
    assert!(matches!(&task, WorkspaceTask::Move { window, follow: true, .. } if window.window_id == 7));
    let task = move_window_to_workspace(
        &target,
        true,
        task,
        WorkspaceReport::Moved(Ok(WindowWorkspaceMove {
            from: Some(1),
            to: Some(5),
            view: change(),
        })),
    );
    assert!(matches!(task, WorkspaceTask::ListAgain { window_id: 7, .. }));
    let mut there = window(7, "a");
    there.workspace = Some(5);
    let task = move_window_to_workspace(
        &target,
        true,
        task,
        WorkspaceReport::Listed(Ok(vec![there])),
    );
    assert!(matches!(task, WorkspaceTask::Done(output) if output.ok));
}

fn keep_scale(width: u32, height: u32, _max_width: u32, _max_height: u32) -> (u32, u32) {
    (width, height)
}

fn keep_shrink(width: u32, height: u32, _encoded: usize, _max_bytes: usize) -> (u32, u32) {
    (width / 2, height / 2)
}

fn shot(
    params: &ScreenshotParams,
    desktop: &mut Option<(u32, u32)>,
    task: ScreenshotTask,
    report: ScreenshotReport,
) -> ScreenshotTask {
    screenshot(params, desktop, task, report, keep_scale, keep_shrink)
}

fn by_window(window_id: u64) -> ActivateWindowParams {
    ActivateWindowParams {
        window_id: Some(window_id),
        ..Default::default()
    }
}

#[test]
fn a_screenshot_of_the_desktop_is_captured_at_once() {
    let params = ScreenshotParams::default();
    let task = start_screenshot(&params);
    assert!(matches!(
        &task,
        ScreenshotTask::Capture { window: None, wait_ms: 0, .. }
    ));
    let mut desktop = None;
    let task = shot(
        &params,
        &mut desktop,
        task,
        ScreenshotReport::Captured(Ok(picture(400, 200))),
    );
    assert_eq!(desktop, Some((400, 200)));
    match task {
        ScreenshotTask::Done(shown) => {
            assert_eq!((shown.capture.width, shown.capture.height), (400, 200));
            assert!(!shown.caption.cropped_to_window);
            assert!(shown.caption.occluded_by.is_none());
        }
        task => panic!("the desktop was captured: {task:?}"),
    }
}

#[test]
fn a_window_is_raised_before_it_is_captured() {
    let params = ScreenshotParams {
        target: by_window(7),
        ..Default::default()
    };
    let task = start_screenshot(&params);
    assert!(matches!(&task, ScreenshotTask::Raise(target) if target.window_id == Some(7)));
    let focus = WindowFocusResult {
        requested_window: window(7, "a"),
        focused_window: Some(window(7, "a")),
        exact_window_focused: true,
        app_focused: true,
        backend: "hyprland".to_string(),
        note: String::new(),
    };
    let mut desktop = None;
    let task = shot(&params, &mut desktop, task, ScreenshotReport::Focus(Ok(focus)));
    assert!(matches!(
        &task,
        ScreenshotTask::Capture { window: Some(_), wait_ms: RAISE_SETTLE_MS, .. }
    ));
    let task = shot(
        &params,
        &mut desktop,
        task,
        ScreenshotReport::Captured(Ok(picture(400, 200))),
    );
    match task {
        ScreenshotTask::Done(shown) => {
            assert_eq!((shown.capture.width, shown.capture.height), (200, 100));
            assert_eq!(shown.caption.crop, Some((50, 20, 200, 100)));
            assert_eq!(shown.caption.window_title.as_deref(), Some("a"));
        }
        task => panic!("the window was captured: {task:?}"),
    }
}

#[test]
fn a_window_that_stays_in_place_is_captured_with_what_covers_it() {
    let params = ScreenshotParams {
        target: by_window(7),
        raise_window: Some(false),
        ..Default::default()
    };
    let mut desktop = None;
    let task = start_screenshot(&params);
    assert!(matches!(&task, ScreenshotTask::Find(_)));
    let task = shot(
        &params,
        &mut desktop,
        task,
        ScreenshotReport::Listed(Ok(vec![window(7, "a")])),
    );
    assert!(matches!(&task, ScreenshotTask::Uncover(found) if found.window_id == 7));
    let task = shot(
        &params,
        &mut desktop,
        task,
        ScreenshotReport::Covered(vec![WindowOcclusion {
            window_id: 9,
            title: None,
        }]),
    );
    let task = shot(
        &params,
        &mut desktop,
        task,
        ScreenshotReport::Captured(Ok(picture(400, 200))),
    );
    match task {
        ScreenshotTask::Done(shown) => {
            assert_eq!(shown.caption.occluded_by.map(|by| by.len()), Some(1));
        }
        task => panic!("the window was captured: {task:?}"),
    }
}

#[test]
fn a_screenshot_that_fails_says_at_which_step() {
    let params = ScreenshotParams {
        region: Some(ScreenshotRegion {
            x: 5000,
            y: 0,
            width: 10,
            height: 10,
        }),
        ..Default::default()
    };
    let mut desktop = None;
    let failed = shot(
        &params,
        &mut desktop,
        start_screenshot(&params),
        ScreenshotReport::Captured(Err("no portal".to_string())),
    );
    assert!(matches!(
        failed,
        ScreenshotTask::Refused(ScreenshotError::Failed(message)) if message == "screenshot failed: no portal"
    ));
    let rejected = shot(
        &params,
        &mut desktop,
        start_screenshot(&params),
        ScreenshotReport::Captured(Ok(picture(400, 200))),
    );
    assert!(matches!(
        rejected,
        ScreenshotTask::Refused(ScreenshotError::Invalid(message))
            if message.starts_with("screenshot region rejected: ")
    ));
    let broken = RawScreenshotCapture {
        bytes: Vec::new(),
        ..picture(4, 4)
    };
    let params = ScreenshotParams::default();
    let failed = shot(
        &params,
        &mut desktop,
        start_screenshot(&params),
        ScreenshotReport::Captured(Ok(broken)),
    );
    assert!(matches!(
        failed,
        ScreenshotTask::Refused(ScreenshotError::Failed(message))
            if message == "screenshot resize failed: screenshot file was empty"
    ));
}

struct Remembered {
    cache: CachedTree,
    indices: StableElementIndices,
    desktop: Option<(u32, u32)>,
}

impl Remembered {
    fn nothing() -> Self {
        Remembered {
            cache: CachedTree::empty(),
            indices: StableElementIndices::default(),
            desktop: None,
        }
    }

    fn step(
        &mut self,
        params: &GetAppStateParams,
        task: AppStateTask,
        event: AppStateEvent,
    ) -> AppStateTask {
        get_app_state(
            params,
            true,
            &mut self.cache,
            &mut self.indices,
            &mut self.desktop,
            task,
            event,
            keep_scale,
            keep_shrink,
        )
    }
}

#[test]
fn an_app_is_read_from_its_window_to_its_tree() {
    let params = GetAppStateParams {
        target: by_window(7),
        ..Default::default()
    };
    let mut kept = Remembered::nothing();
    let task = start_app_state(&params, true, &mut kept.cache);
    assert!(matches!(task, AppStateTask::List));
    let mut shown = window(7, "Editor");
    shown.focused = true;
    let task = kept.step(&params, task, AppStateEvent::Listed(Ok(vec![shown])));
    assert!(matches!(task, AppStateTask::Apps { .. }));
    let app = AccessibleAppSummary {
        object_ref: ":1.31/root".to_string(),
        name: Some("editor".to_string()),
        pid: Some(4242),
        role: "application".to_string(),
        child_count: 1,
        bounds: None,
    };
    let task = kept.step(&params, task, AppStateEvent::Apps(Some(vec![app])));
    assert!(matches!(
        &task,
        AppStateTask::Capture { filter: Some(filter), .. } if filter == ":1.31/root"
    ));
    let task = kept.step(&params, task, AppStateEvent::Captured(Ok(picture(400, 200))));
    assert_eq!(kept.desktop, Some((400, 200)));
    let AppStateTask::Walk { query, .. } = &task else {
        panic!("the tree is walked next: {task:?}");
    };
    assert_eq!(query.filter.as_deref(), Some(":1.31/root"));
    assert_eq!(query.pid, Some(4242));
    assert_eq!((query.max_nodes, query.max_depth), (1000, 32));
    let task = kept.step(
        &params,
        task,
        AppStateEvent::Walked(Ok(TreeSnapshot {
            nodes: vec![frame("app/frame")],
            root_pids: vec![4242],
        })),
    );
    match task {
        AppStateTask::Done(state) => {
            assert!(state.tree_error.is_none());
            assert_eq!(state.raw_count, 1);
            assert_eq!(
                state.report.window_context_source,
                Some(WindowContextSource::Target)
            );
            match state.screenshot {
                AppScreenshot::Captured(capture) => {
                    assert_eq!((capture.width, capture.height), (200, 100));
                }
                other => panic!("the window is in focus: {other:?}"),
            }
        }
        task => panic!("everything was read: {task:?}"),
    }
    assert_eq!(kept.cache.nodes.len(), 1);
}

#[test]
fn a_tree_nobody_asked_a_window_for_is_tied_to_its_own() {
    let params = GetAppStateParams {
        app_name_or_bundle_identifier: Some(" editor ".to_string()),
        include_screenshot: Some(false),
        ..Default::default()
    };
    let mut kept = Remembered::nothing();
    let task = start_app_state(&params, true, &mut kept.cache);
    assert!(matches!(
        &task,
        AppStateTask::Walk { query, .. } if query.filter.as_deref() == Some("editor")
    ));
    let task = kept.step(
        &params,
        task,
        AppStateEvent::Walked(Ok(TreeSnapshot {
            nodes: vec![frame("app/frame")],
            root_pids: vec![4242],
        })),
    );
    assert!(matches!(&task, AppStateTask::Tie { .. }));
    let task = kept.step(
        &params,
        task,
        AppStateEvent::Listed(Ok(vec![window(7, "Editor")])),
    );
    match task {
        AppStateTask::Done(state) => {
            assert_eq!(state.report.window_context.map(|w| w.window_id), Some(7));
            assert_eq!(
                state.report.window_context_source,
                Some(WindowContextSource::AppPid)
            );
        }
        task => panic!("the tree was tied: {task:?}"),
    }
    assert_eq!(kept.cache.bounds.offset(), Some((50, 20)));
}

#[test]
fn a_window_that_was_not_found_is_not_shown_as_the_desktop() {
    let params = GetAppStateParams {
        app_name_or_bundle_identifier: Some("editor".to_string()),
        target: by_window(9),
        ..Default::default()
    };
    let mut kept = Remembered::nothing();
    let task = start_app_state(&params, true, &mut kept.cache);
    let task = kept.step(
        &params,
        task,
        AppStateEvent::Listed(Ok(vec![window(7, "Editor")])),
    );
    let task = kept.step(&params, task, AppStateEvent::Captured(Ok(picture(400, 200))));
    let task = kept.step(
        &params,
        task,
        AppStateEvent::Walked(Err("no bus".to_string())),
    );
    match task {
        AppStateTask::Done(state) => {
            assert!(matches!(state.screenshot, AppScreenshot::Failed(_)));
            assert_eq!(state.tree_error.as_deref(), Some("no bus"));
            assert!(state.report.window_error.is_some());
        }
        task => panic!("nothing more is read: {task:?}"),
    }
    assert!(kept.cache.nodes.is_empty());
}

#[test]
fn without_accessibility_no_tree_is_walked() {
    let params = GetAppStateParams {
        include_screenshot: Some(false),
        ..Default::default()
    };
    let mut cache = CachedTree::empty();
    match start_app_state(&params, false, &mut cache) {
        AppStateTask::Done(state) => assert_eq!(
            state.tree_error.as_deref(),
            Some("AT-SPI accessibility is disabled; call setup_accessibility first.")
        ),
        task => panic!("there is nothing to walk: {task:?}"),
    }
}

#[test]
fn waiting_for_nothing_is_refused() {
    match start_wait_for(&WaitForParams::default()) {
        WaitTask::Done(output) => {
            assert!(!output.ok);
            assert_eq!(output.message, NOTHING_TO_WAIT_FOR);
        }
        task => panic!("there is nothing to wait for: {task:?}"),
    }
}

#[test]
fn an_element_is_waited_for_until_it_is_there() {
    let params = WaitForParams {
        role: Some("frame".to_string()),
        timeout_ms: Some(1000),
        ..Default::default()
    };
    let nothing = || {
        WaitAnswer::Window(Ok(Vec::new()))
    };
    let tree = |nodes: Vec<AccessibilityNode>| {
        WaitAnswer::Tree(
            TreeRead {
                raw_count: nodes.len(),
                nodes,
                root_pids: vec![4242],
                error: None,
            },
            vec![window(7, "Editor")],
        )
    };
    let mut cache = CachedTree::empty();

    let task = start_wait_for(&params);
    let task = wait_for(&params, &mut cache, task, nothing(), 0);
    assert!(matches!(&task, WaitTask::Ask { stage: WaitStage::Element, .. }));
    let task = wait_for(&params, &mut cache, task, tree(Vec::new()), 10);
    assert!(matches!(task, WaitTask::Rest { ms: WAIT_FOR_POLL_INTERVAL_MS }));

    let task = wait_for(&params, &mut cache, begin_look(), nothing(), 110);
    let task = wait_for(&params, &mut cache, task, tree(vec![frame("app/frame")]), 120);
    match task {
        WaitTask::Done(output) => {
            assert!(output.satisfied);
            assert_eq!(output.element, Some(0));
            assert_eq!(output.elapsed_ms, 120);
            assert_eq!(output.window_context.map(|w| w.window_id), Some(7));
        }
        task => panic!("the element is there: {task:?}"),
    }
    assert_eq!(cache.nodes.len(), 1);
}

#[test]
fn waiting_gives_up_with_the_last_reason() {
    let params = WaitForParams {
        window_title: Some("Editor".to_string()),
        timeout_ms: Some(1000),
        ..Default::default()
    };
    let mut cache = CachedTree::empty();
    let task = wait_for(
        &params,
        &mut cache,
        begin_look(),
        WaitAnswer::Window(Ok(Vec::new())),
        900,
    );
    let task = wait_for(
        &params,
        &mut cache,
        task,
        WaitAnswer::Title(Some(window(7, "Other"))),
        1000,
    );
    match task {
        WaitTask::Done(output) => {
            assert!(!output.ok);
            assert_eq!(
                output.message,
                "Timed out after 1000 ms: window title \"Other\" does not contain \"Editor\"."
            );
        }
        task => panic!("the time is up: {task:?}"),
    }
}
