use computer_use_hyprland::apps::{
    needs_accessible_apps, resolve_accessibility_app_filter, target_pid, AccessibleAppSummary,
};
use computer_use_hyprland::cache::{
    bounds_are_window_relative, cached_node_is_keyboard_editable, cached_node_label,
    center_for_cached_node, click_action, current_bounds, desktop_center_for_node,
    is_plain_left_click, resolve_cached_node, resolve_object_ref, resolve_optional_target_point,
    window_for_untargeted_tree, BoundsOffset, CachedBounds, CachedTree, NO_ELEMENT,
};
use computer_use_hyprland::elements::{
    bounds_center, describe_selector, node_matches_resolve_purpose, resolve_semantic_node,
    AccessibilityAction, AccessibilityNode, AccessibilityText, AccessibilityTextSelection, Bounds,
    ElementResolvePurpose, ElementSelector,
};
use computer_use_hyprland::geometry::{
    cache_desktop_size, clip_capture_rect, desktop_extent, focused_window_coordinate_map,
    off_screen_note_for_bounds, off_screen_note_for_point, pointer_landing_note,
    pointer_moved_note, window_crop_rect, window_crop_rect_for_dimensions, OUTSIDE_CAPTURE,
};
use computer_use_hyprland::notes::{action_success, with_focus_context};
use computer_use_hyprland::text::{
    after_prefix, begins_with, blank, equal_ignoring_case, finishes_with, includes, joined, lowered,
    normalized_equals, split_at_any, trimmed, words_of,
};
use computer_use_hyprland::tools::keyboard::{landing_bounds, landing_notes, landing_pid};
use computer_use_hyprland::tree::{compact_accessibility_tree, tree_has_roots};
use computer_use_hyprland::windowing::target::{
    focus_window_target, focused_window, start_focus, FocusReply, FocusReport, FocusTask,
    FOCUS_NOTE, FOCUS_VERIFY_DELAY_MS, FOCUS_VERIFY_TIMEOUT_MS, NO_TARGET,
};
use computer_use_hyprland::windowing::types::{
    WindowBounds, WindowFocusResult, WindowInfo, WindowTarget,
};

fn bounds(x: i32, y: i32, width: u32, height: u32) -> WindowBounds {
    WindowBounds {
        x: Some(x),
        y: Some(y),
        width,
        height,
    }
}

fn window(window_id: u64, pid: u32) -> WindowInfo {
    WindowInfo {
        window_id,
        title: Some(format!("Window {window_id}")),
        app_id: Some("org.example.Editor.desktop".to_string()),
        wm_class: Some("editor".to_string()),
        pid: Some(pid),
        bounds: Some(bounds(100, 200, 400, 300)),
        workspace: Some(1),
        focused: false,
        hidden: false,
        client_type: None,
        backend: "hyprland".to_string(),
        terminal: None,
    }
}

fn focus_on(window: WindowInfo) -> WindowFocusResult {
    WindowFocusResult {
        requested_window: window.clone(),
        focused_window: Some(window),
        exact_window_focused: true,
        app_focused: true,
        backend: "hyprland".to_string(),
        note: String::new(),
    }
}

fn node(index: u32, role: &str, name: &str) -> AccessibilityNode {
    AccessibilityNode {
        index,
        parent_index: None,
        depth: 0,
        object_ref: format!(":1.9/{index}"),
        role: role.to_string(),
        name: Some(name.to_string()),
        description: None,
        child_count: 0,
        bounds: Some(Bounds {
            x: 10,
            y: 20,
            width: 100,
            height: 41,
        }),
        states: vec!["showing".to_string()],
        actions: Vec::new(),
        value: None,
        text: None,
        supports_editable_text: false,
    }
}

fn action(index: i32, name: &str) -> AccessibilityAction {
    AccessibilityAction {
        index,
        name: name.to_string(),
        description: String::new(),
        keybinding: String::new(),
    }
}

fn named<'a>(role: Option<&'a str>, name: Option<&'a str>) -> ElementSelector<'a> {
    ElementSelector {
        role,
        name,
        text: None,
        states: &[],
    }
}

fn app(object_ref: &str, name: &str, pid: u32) -> AccessibleAppSummary {
    AccessibleAppSummary {
        object_ref: object_ref.to_string(),
        name: Some(name.to_string()),
        pid: Some(pid),
        role: "application".to_string(),
        child_count: 1,
        bounds: None,
    }
}

fn by_id(window_id: u64) -> WindowTarget {
    WindowTarget {
        window_id: Some(window_id),
        ..Default::default()
    }
}

#[test]
fn focusing_without_a_selector_is_refused() {
    match start_focus(&WindowTarget::default()) {
        FocusTask::Done(Err(message)) => assert_eq!(message, NO_TARGET),
        task => panic!("no window was named: {task:?}"),
    }
}

#[test]
fn focusing_lists_activates_and_looks() {
    let target = by_id(7);
    let task = start_focus(&target);
    assert!(matches!(task, FocusTask::List));
    let listed = FocusReport::Listed(Ok(vec![window(6, 1), window(7, 2)]));
    let task = focus_window_target(&target, task, listed);
    match &task {
        FocusTask::Activate(window) => assert_eq!(window.window_id, 7),
        task => panic!("the window was listed: {task:?}"),
    }
    let task = focus_window_target(&target, task, FocusReport::Activated(Ok(())));
    assert!(matches!(task, FocusTask::Look { at: None, .. }));
    let elsewhere = FocusReport::Looked {
        reply: FocusReply::Answered(Some(window(6, 1))),
        now: 10,
        deadline: FOCUS_VERIFY_TIMEOUT_MS,
    };
    let task = focus_window_target(&target, task, elsewhere);
    match &task {
        FocusTask::Look { at, last, .. } => {
            assert_eq!(*at, Some(10 + FOCUS_VERIFY_DELAY_MS));
            assert_eq!(last.as_ref().map(|window| window.window_id), Some(6));
        }
        task => panic!("the focus is elsewhere, and there is time: {task:?}"),
    }
    let there = FocusReport::Looked {
        reply: FocusReply::Answered(Some(window(7, 2))),
        now: 70,
        deadline: FOCUS_VERIFY_TIMEOUT_MS,
    };
    match focus_window_target(&target, task, there) {
        FocusTask::Done(Ok(focus)) => {
            assert!(focus.exact_window_focused);
            assert!(focus.app_focused);
            assert_eq!(focus.requested_window.window_id, 7);
            assert_eq!(focus.note, FOCUS_NOTE);
        }
        task => panic!("the window has the focus: {task:?}"),
    }
}

#[test]
fn focusing_ends_at_the_deadline_with_what_was_seen() {
    let target = by_id(7);
    let looking = FocusTask::Look {
        requested: window(7, 2),
        last: Some(window(6, 1)),
        at: Some(990),
    };
    let late = FocusReport::Looked {
        reply: FocusReply::Failed,
        now: FOCUS_VERIFY_TIMEOUT_MS,
        deadline: FOCUS_VERIFY_TIMEOUT_MS,
    };
    match focus_window_target(&target, looking, late) {
        FocusTask::Done(Ok(focus)) => {
            assert!(!focus.exact_window_focused);
            assert_eq!(
                focus.focused_window.map(|window| window.window_id),
                Some(6)
            );
        }
        task => panic!("the time is up: {task:?}"),
    }
}

#[test]
fn the_last_look_is_at_the_deadline() {
    let looking = FocusTask::Look {
        requested: window(7, 2),
        last: None,
        at: None,
    };
    let report = FocusReport::Looked {
        reply: FocusReply::Failed,
        now: FOCUS_VERIFY_TIMEOUT_MS - 20,
        deadline: FOCUS_VERIFY_TIMEOUT_MS,
    };
    match focus_window_target(&by_id(7), looking, report) {
        FocusTask::Look { at, .. } => assert_eq!(at, Some(FOCUS_VERIFY_TIMEOUT_MS)),
        task => panic!("there is time for one look: {task:?}"),
    }
}

#[test]
fn a_failed_activation_ends_the_focusing() {
    let task = FocusTask::Activate(window(7, 2));
    let report = FocusReport::Activated(Err("no such window".to_string()));
    match focus_window_target(&by_id(7), task, report) {
        FocusTask::Done(Err(message)) => assert_eq!(message, "no such window"),
        task => panic!("the window was not activated: {task:?}"),
    }
}

#[test]
fn the_focused_window_is_the_first_that_says_so() {
    let mut second = window(2, 1);
    second.focused = true;
    assert_eq!(
        focused_window(&[window(1, 1), second, window(3, 1)]).map(|window| window.window_id),
        Some(2)
    );
    assert!(focused_window(&[window(1, 1)]).is_none());
}

#[test]
fn a_capture_rect_is_clipped_to_the_capture() {
    assert_eq!(
        clip_capture_rect((-10, 5, 30, 20), 100, 10),
        Ok((0, 5, 20, 5))
    );
    assert_eq!(
        clip_capture_rect((100, 0, 5, 5), 100, 100),
        Err(OUTSIDE_CAPTURE.to_string())
    );
}

#[test]
fn only_a_window_with_a_place_and_an_extent_has_a_crop() {
    assert_eq!(window_crop_rect(&bounds(3, 4, 5, 6)), Some((3, 4, 5, 6)));
    assert_eq!(window_crop_rect(&bounds(3, 4, 0, 6)), None);
    let mut nowhere = bounds(3, 4, 5, 6);
    nowhere.x = None;
    assert_eq!(window_crop_rect(&nowhere), None);
    let mut unplaced = window(1, 1);
    unplaced.bounds = None;
    assert_eq!(
        window_crop_rect_for_dimensions(&unplaced, 100, 100),
        Err(
            "targeted screenshot requires window bounds; refusing to return the full desktop"
                .to_string()
        )
    );
    unplaced.bounds = Some(nowhere);
    assert_eq!(
        window_crop_rect_for_dimensions(&unplaced, 100, 100),
        Err(
            "targeted screenshot has unusable window bounds; refusing to return the full desktop"
                .to_string()
        )
    );
}

#[test]
fn a_focused_window_maps_its_visible_part() {
    let focus = focus_on(window(1, 1));
    assert_eq!(
        focused_window_coordinate_map(&focus, None),
        Ok((100, 200, 400, 300))
    );
    assert_eq!(
        focused_window_coordinate_map(&focus, Some((300, 1000))),
        Ok((100, 200, 200, 300))
    );
    assert_eq!(
        focused_window_coordinate_map(&focus, Some((50, 50))),
        Err(format!(
            "Could not map target-window coordinates: {OUTSIDE_CAPTURE}"
        ))
    );
}

#[test]
fn a_window_half_off_screen_is_noted() {
    assert_eq!(
        off_screen_note_for_bounds(&bounds(-50, 0, 100, 100), Some((1000, 1000))),
        Some(
            "WARNING: the target window (bounds -50,0 100x100) is only ~50% on-screen; off-screen regions are missing from screenshots and unreachable by coordinate input. Use move_window/resize_window to bring it fully on-screen."
                .to_string()
        )
    );
    assert_eq!(
        off_screen_note_for_bounds(&bounds(0, 0, 100, 100), Some((1000, 1000))),
        None
    );
    assert_eq!(off_screen_note_for_bounds(&bounds(-50, 0, 100, 100), None), None);
}

#[test]
fn a_point_off_the_desktop_is_noted() {
    assert_eq!(off_screen_note_for_point(999, 0, Some((1000, 1000))), None);
    assert_eq!(
        off_screen_note_for_point(1000, 0, Some((1000, 1000))),
        Some(
            "WARNING: coordinate 1000,0 is outside the captured desktop (1000x1000); the input landed on no visible pixel."
                .to_string()
        )
    );
}

#[test]
fn the_desktop_is_remembered_with_an_extent_only() {
    let mut size = None;
    cache_desktop_size(&mut size, 0, 5);
    assert_eq!(size, None);
    cache_desktop_size(&mut size, 7, 5);
    assert_eq!(size, Some((7, 5)));
    cache_desktop_size(&mut size, 8, 0);
    assert_eq!(size, Some((7, 5)));
    assert_eq!(desktop_extent(7, 5), Some((7, 5)));
    assert_eq!(desktop_extent(0, 5), None);
    assert_eq!(desktop_extent(u32::MAX, 5), None);
}

#[test]
fn a_pointer_that_strayed_is_noted() {
    assert_eq!(pointer_landing_note((11, 20), (10, 20)), None);
    assert_eq!(pointer_moved_note(None, (10, 20)), None);
    assert_eq!(
        pointer_moved_note(Some((12, 20)), (10, 20)),
        Some(
            "WARNING: the compositor reports the pointer at (12, 20), not the (10, 20) this action asked for, so it landed there instead. Something moved the cursor after the motion was emitted."
                .to_string()
        )
    );
}

#[test]
fn what_follows_input_is_read_off_the_focused_window() {
    let mut focus = focus_on(window(1, 31));
    assert_eq!(landing_pid(&focus), Some(31));
    assert_eq!(landing_bounds(&focus), Some(bounds(100, 200, 400, 300)));
    focus.focused_window = None;
    focus.requested_window.pid = Some(32);
    assert_eq!(landing_pid(&focus), Some(32));
    assert_eq!(
        landing_notes(None, Some("b".to_string()), Some("c".to_string())),
        vec!["b".to_string(), "c".to_string()]
    );
}

#[test]
fn a_focus_is_told_behind_an_action() {
    let output = with_focus_context(
        action_success("press_key", "Sent.".to_string()),
        Some(&focus_on(window(5, 1))),
    );
    assert_eq!(
        output.message,
        "Sent. Target window_id 5 was focused with exact window-focus verification before input."
    );
}

#[test]
fn bounds_have_a_center_where_they_have_an_extent() {
    let at = |x: i32, y: i32, width: i32, height: i32| Bounds {
        x,
        y,
        width,
        height,
    };
    assert_eq!(bounds_center(&at(10, 20, 100, 41)), Some((60, 40)));
    assert_eq!(bounds_center(&at(10, 20, 0, 41)), None);
    assert_eq!(bounds_center(&at(i32::MAX, 0, 10, 10)), None);
}

#[test]
fn an_element_serves_a_purpose_by_what_it_offers() {
    let mut button = node(1, "push button", "OK");
    assert!(node_matches_resolve_purpose(&button, ElementResolvePurpose::Click));
    assert!(!node_matches_resolve_purpose(&button, ElementResolvePurpose::Action));
    button.actions.push(action(0, "press"));
    assert!(node_matches_resolve_purpose(&button, ElementResolvePurpose::Action));
    assert!(!node_matches_resolve_purpose(&button, ElementResolvePurpose::SetValue));
    button.supports_editable_text = true;
    assert!(node_matches_resolve_purpose(&button, ElementResolvePurpose::SetValue));
}

#[test]
fn a_selector_is_told_by_its_fields() {
    assert_eq!(describe_selector(&named(None, None)), "<empty>");
    let states = vec!["focused".to_string()];
    let selector = ElementSelector {
        role: Some("button"),
        name: Some("OK"),
        text: None,
        states: &states,
    };
    assert_eq!(
        describe_selector(&selector),
        "role=\"button\", name=\"OK\", states=[\"focused\"]"
    );
}

#[test]
fn a_semantic_selector_takes_the_lone_useful_element() {
    let mut first = node(1, "push button", "OK");
    first.bounds = None;
    let nodes = vec![first, node(2, "push button", "OK"), node(3, "label", "Other")];
    assert_eq!(
        resolve_semantic_node(&nodes, &named(None, Some("ok")), ElementResolvePurpose::Click),
        Ok(1)
    );
    assert_eq!(
        resolve_semantic_node(&nodes, &named(None, Some("none")), ElementResolvePurpose::Click),
        Err(
            "No cached accessibility node matched semantic selector name=\"none\". Call get_app_state first or pass element_index."
                .to_string()
        )
    );
    let twins = vec![node(1, "push button", "OK"), node(2, "push button", "OK")];
    let refused =
        resolve_semantic_node(&twins, &named(None, Some("OK")), ElementResolvePurpose::Click)
            .unwrap_err();
    assert!(refused.starts_with(
        "Semantic selector name=\"OK\" matched multiple cached nodes: "
    ));
    assert!(refused.ends_with(". Pass element_index or add more selector fields."));
}

#[test]
fn an_element_is_named_by_reference_then_index_then_selector() {
    let nodes = vec![node(4, "push button", "OK"), node(9, "label", "Other")];
    let nothing = named(None, None);
    let click = ElementResolvePurpose::Click;
    assert_eq!(
        resolve_cached_node(&nodes, Some(4), Some(" :1.9/9 "), &nothing, click),
        Ok(1)
    );
    assert_eq!(resolve_cached_node(&nodes, Some(4), None, &nothing, click), Ok(0));
    assert_eq!(
        resolve_cached_node(&nodes, None, Some(":1.9/5"), &nothing, click),
        Err(
            "No cached accessibility node with object_ref :1.9/5. Call get_app_state first."
                .to_string()
        )
    );
    assert!(resolve_cached_node(&nodes, Some(5), None, &nothing, click)
        .unwrap_err()
        .starts_with("No element_index 5 in the tree as it was last read."));
    assert_eq!(
        resolve_cached_node(&nodes, None, None, &nothing, click),
        Err(NO_ELEMENT.to_string())
    );
    assert_eq!(
        resolve_object_ref(&nodes, Some(9), None, &nothing, click),
        Ok(":1.9/9".to_string())
    );
    assert_eq!(
        resolve_object_ref(&nodes, Some(9), Some(" :1.2/x "), &nothing, click),
        Ok(":1.2/x".to_string())
    );
}

#[test]
fn an_element_is_labelled_and_placed() {
    let nodes = vec![node(4, "push button", "OK")];
    assert_eq!(
        cached_node_label(&nodes, 4),
        Some("push button \"OK\"".to_string())
    );
    assert_eq!(cached_node_label(&nodes, 5), None);
    assert_eq!(center_for_cached_node(&nodes, 4, None), Some((60, 40)));
    assert_eq!(
        desktop_center_for_node(&nodes[0], Some((1000, -40))),
        Some((1060, 0))
    );
    assert_eq!(
        resolve_optional_target_point(&nodes, Some(1), Some(2), Some(4), None),
        Ok(Some((1, 2)))
    );
    assert_eq!(
        resolve_optional_target_point(&nodes, Some(1), None, Some(4), None),
        Ok(Some((60, 40)))
    );
    assert_eq!(
        resolve_optional_target_point(&nodes, Some(1), None, None, None),
        Ok(None)
    );
}

#[test]
fn typed_text_goes_to_a_focusable_editable_element() {
    let mut field = node(4, "text", "Field");
    field.states = vec!["Focusable".to_string(), "editable".to_string()];
    assert!(cached_node_is_keyboard_editable(&[field.clone()], ":1.9/4"));
    field.states.pop();
    assert!(!cached_node_is_keyboard_editable(&[field], ":1.9/4"));
}

#[test]
fn a_plain_click_is_one_click_of_the_left_button() {
    assert!(is_plain_left_click(None, None));
    assert!(is_plain_left_click(Some("LEFT"), Some(1)));
    assert!(!is_plain_left_click(Some("right"), None));
    assert!(!is_plain_left_click(None, Some(2)));
    assert_eq!(click_action(&[action(0, "focus"), action(1, "Click")]), Some(1));
    assert_eq!(click_action(&[action(0, "focus")]), None);
}

#[test]
fn cached_bounds_follow_their_window() {
    let cached = CachedBounds::Window(BoundsOffset {
        window_id: 7,
        offset: (1, 2),
    });
    assert_eq!(
        current_bounds(cached, &[window(7, 1)]),
        CachedBounds::Window(BoundsOffset {
            window_id: 7,
            offset: (100, 200),
        })
    );
    assert_eq!(current_bounds(cached, &[window(8, 1)]), cached);
    assert_eq!(
        current_bounds(CachedBounds::Unanchored, &[window(7, 1)]),
        CachedBounds::Unanchored
    );
}

#[test]
fn a_tree_is_tied_to_the_lone_window_of_its_process() {
    let mut frame = node(0, "frame", "Editor");
    frame.bounds = Some(Bounds {
        x: 0,
        y: 0,
        width: 400,
        height: 300,
    });
    let nodes = vec![frame];
    assert!(bounds_are_window_relative(&nodes));
    let windows = vec![window(7, 31), window(8, 32)];
    assert_eq!(
        window_for_untargeted_tree(&nodes, &[32], &windows).map(|window| window.window_id),
        Some(8)
    );
    assert!(window_for_untargeted_tree(&nodes, &[31, 32], &windows).is_none());
    assert!(window_for_untargeted_tree(&nodes, &[], &windows).is_none());
}

#[test]
fn a_forgotten_tree_leaves_nothing_behind() {
    let mut tree = CachedTree::empty();
    tree.cache_tree(vec![node(1, "label", "x")], None);
    assert_eq!(tree.nodes.len(), 1);
    tree.clear_cached_nodes();
    assert!(tree.nodes.is_empty());
    assert_eq!(tree.bounds, CachedBounds::Desktop);
}

#[test]
fn an_application_is_filtered_by_name_process_or_window() {
    let window = window(7, 31);
    let apps = vec![
        app(":1.1/root", "Other", 30),
        app(":1.2/root", "Helper", 31),
        app(":1.3/root", "editor", 31),
    ];
    assert!(!needs_accessible_apps(Some("Files"), Some(&window), None));
    assert!(needs_accessible_apps(Some(" "), Some(&window), None));
    assert!(!needs_accessible_apps(None, None, None));
    assert_eq!(target_pid(None, Some(9)), Some(9));
    assert_eq!(target_pid(Some(&window), Some(9)), Some(31));
    assert_eq!(
        resolve_accessibility_app_filter(Some(" Files "), Some(&window), None, Some(&apps)),
        Some("Files".to_string())
    );
    assert_eq!(
        resolve_accessibility_app_filter(None, Some(&window), None, Some(&apps)),
        Some(":1.3/root".to_string())
    );
    assert_eq!(
        resolve_accessibility_app_filter(None, None, Some(30), Some(&apps)),
        Some(":1.1/root".to_string())
    );
    assert_eq!(
        resolve_accessibility_app_filter(None, Some(&window), None, None),
        Some("Window 7".to_string())
    );
    assert_eq!(resolve_accessibility_app_filter(None, None, None, None), None);
}

#[test]
fn a_circle_of_parents_has_no_root() {
    let mut first = node(0, "panel", "a");
    first.parent_index = Some(1);
    let mut second = node(1, "panel", "b");
    assert!(tree_has_roots(&[first.clone(), second.clone()]));
    second.parent_index = Some(0);
    assert!(!tree_has_roots(&[first, second]));
}

#[test]
fn compacting_hangs_children_on_the_nearest_element_that_stays() {
    let mut filler = node(1, "filler", "");
    filler.name = None;
    filler.bounds = None;
    filler.states = Vec::new();
    filler.depth = 2;
    filler.parent_index = Some(0);
    let mut button = node(2, "push button", "OK");
    button.parent_index = Some(1);
    button.actions.push(action(0, "click"));
    let compact = compact_accessibility_tree(vec![node(0, "frame", "Editor"), filler, button]);
    assert_eq!(compact.len(), 2);
    assert_eq!(compact[1].name.as_deref(), Some("OK"));
    assert_eq!(compact[1].parent_index, Some(0));
    assert_eq!(compact[1].index, 1);
}

#[test]
fn text_is_cut_and_joined() {
    assert_eq!(trimmed("\t a b \n"), "a b");
    assert!(blank(" \u{a0}\n"));
    assert_eq!(lowered("AbÉ"), "abÉ");
    assert!(equal_ignoring_case("WayLand", "wayland"));
    assert!(includes("abcabd", "abd"));
    assert!(!includes("abc", "abd"));
    assert!(begins_with("window:3", "window:"));
    assert!(finishes_with("a.desktop", ".desktop"));
    assert_eq!(after_prefix("file:///a", "file://"), Some("/a".to_string()));
    assert_eq!(after_prefix("http://a", "file://"), None);
    assert_eq!(split_at_any("0.56-rc+1", &['.', '-', '+']), ["0", "56", "rc", "1"]);
    assert_eq!(words_of("  a  bc "), ["a", "bc"]);
    assert_eq!(joined(&["a".to_string(), "b".to_string()], "; "), "a; b");
    assert!(normalized_equals(" Ärger ", "ärger"));
}

#[test]
fn a_selection_that_cannot_be_read_is_not_an_empty_one() {
    let selected = AccessibilityTextSelection {
        start_offset: 2,
        end_offset: 5,
    };
    let read = AccessibilityText::read(
        Some("hello".to_string()),
        Some(5),
        Ok(vec![selected.clone()]),
    );
    assert_eq!(read.selections, vec![selected]);
    assert_eq!(read.selection_error, None);
    let none = AccessibilityText::read(None, None, Ok(Vec::new()));
    assert_eq!((none.selections.len(), none.selection_error), (0, None));
    let failed = AccessibilityText::read(None, None, Err("refused".to_string()));
    assert_eq!(failed.selections.len(), 0);
    assert_eq!(failed.selection_error.as_deref(), Some("refused"));
}
