use computer_use_hyprland::abs_pointer::PointerLanding;
use computer_use_hyprland::apps::{
    accessibility_filter_candidates, cross_process_tree_note, select_accessibility_object_ref,
    AccessibleAppSummary,
};
use computer_use_hyprland::cache::{
    self, cached_bounds_for, fresh_bounds_offset, parse_scroll_direction,
    requested_or_primary_action, scroll_action_for_direction, sole_window_for_pids,
    window_context_source, window_relative_bounds_offset, BoundsOffset, CachedBounds, CachedTree,
    ClickTarget, ScrollDirection, WindowContextSource,
};
use computer_use_hyprland::elements::{
    node_has_state, AccessibilityAction, AccessibilityNode, Bounds, ElementResolvePurpose,
    ElementSelector,
};
use computer_use_hyprland::gate::{allowed_app_patterns, window_matches_allowlist};
use computer_use_hyprland::geometry::{
    abs_pointer_clamp_note, apply_window_center_scroll_point,
    apply_window_relative_click_coordinates, apply_window_relative_scroll_coordinates,
    region_crop_rect,
};
use computer_use_hyprland::input::{
    absolute_mousemove_args, explicit_ydotool_socket_from, prefer_wtype_keyboard,
    wheel_mousemove_args, ydotool_type_timeout, ydotool_wheel_delta,
};
use computer_use_hyprland::keys::{
    key_chord, key_sequence, modifier_hold_args, modifier_keycodes, press_key_sequence,
    ydotool_key_args,
};
use computer_use_hyprland::notes::{
    describe_focused_element, element_error_message, occlusion_note, states_change_note,
    FocusedElementSummary, STALE_TREE_MESSAGE,
};
use computer_use_hyprland::params::{
    wait_for_has_predicate, wait_for_timeout, ActivateWindowParams, ClickParams, DragParams,
    ScreenshotParams, ScreenshotRegion, ScrollParams, WaitForParams,
};
use computer_use_hyprland::screenshot::{
    crop_png, prepare_screenshot_payload, CaptureError, RawScreenshotCapture, ScreenshotCapture,
    ScreenshotPayloadOptions,
};
use computer_use_hyprland::tools::capture::{
    ensure_readonly_screenshot_target_is_visible, prepare_app_state_screenshot,
};
use computer_use_hyprland::tools::drag::{self, DragEnd};
use computer_use_hyprland::tools::wait::title_contains;
use computer_use_hyprland::tree::{
    self, compact_accessibility_tree, StableElementIndices,
};
use computer_use_hyprland::windowing::backends::hyprland::HYPRLAND_BACKEND;
use computer_use_hyprland::windowing::types::{WindowBounds, WindowInfo, WindowOcclusion};
use std::cell::RefCell;

/// What a server remembers of the tree it read last.
struct Backend {
    tree: RefCell<CachedTree>,
    indices: RefCell<StableElementIndices>,
}

impl Default for Backend {
    fn default() -> Self {
        Backend {
            tree: RefCell::new(CachedTree::empty()),
            indices: RefCell::new(StableElementIndices::default()),
        }
    }
}

impl Backend {
    fn apply_stable_indices(&self, nodes: &mut Vec<AccessibilityNode>) {
        tree::apply_stable_indices(&mut self.indices.borrow_mut(), nodes);
    }

    fn cache_tree(&self, nodes: &[AccessibilityNode], window: Option<&WindowInfo>) {
        self.tree.borrow_mut().cache_tree(nodes.to_vec(), window);
    }

    fn cache_nodes(&self, nodes: &[AccessibilityNode]) {
        self.cache_tree(nodes, None);
    }

    fn node_bounds(&self) -> CachedBounds {
        self.tree.borrow().bounds
    }

    fn cached_bounds_offset(&self) -> Option<(i32, i32)> {
        self.node_bounds().offset()
    }

    fn resolve_cached_node(
        &self,
        element_index: Option<u32>,
        object_ref: Option<&str>,
        selector: &ElementSelector<'_>,
        purpose: ElementResolvePurpose,
    ) -> Result<usize, String> {
        cache::resolve_cached_node(
            &self.tree.borrow().nodes,
            element_index,
            object_ref,
            selector,
            purpose,
        )
    }

    fn resolve_object_ref(
        &self,
        element_index: Option<u32>,
        element_identifier: Option<&str>,
        selector: &ElementSelector<'_>,
        purpose: ElementResolvePurpose,
    ) -> Result<String, String> {
        cache::resolve_object_ref(
            &self.tree.borrow().nodes,
            element_index,
            element_identifier,
            selector,
            purpose,
        )
    }

    fn resolve_optional_target_point(
        &self,
        x: Option<i32>,
        y: Option<i32>,
        element_index: Option<u32>,
        offset: Option<(i32, i32)>,
    ) -> Result<Option<(i32, i32)>, String> {
        cache::resolve_optional_target_point(&self.tree.borrow().nodes, x, y, element_index, offset)
    }

    fn resolve_click_target(
        &self,
        params: &ClickParams,
        offset: Option<(i32, i32)>,
    ) -> Result<ClickTarget, String> {
        cache::resolve_click_target(&self.tree.borrow().nodes, params, offset)
    }

    fn cached_scroll_action(
        &self,
        element_index: u32,
        direction: ScrollDirection,
    ) -> Option<(String, AccessibilityAction)> {
        cache::cached_scroll_action(&self.tree.borrow().nodes, element_index, direction)
    }

    fn cached_node_is_keyboard_editable(&self, object_ref: &str) -> bool {
        cache::cached_node_is_keyboard_editable(&self.tree.borrow().nodes, object_ref)
    }

    fn drag_endpoint(
        &self,
        label: &str,
        element_index: Option<u32>,
        x: Option<i32>,
        y: Option<i32>,
        origin: (i32, i32),
        offset: Option<(i32, i32)>,
    ) -> Result<((i32, i32), String), String> {
        let end = DragEnd {
            element_index,
            x,
            y,
        };
        drag::drag_endpoint(&self.tree.borrow().nodes, label, end, origin, offset)
    }
}

fn scale(width: u32, height: u32, max_width: u32, max_height: u32) -> (u32, u32) {
    let scale = (f64::from(max_width) / f64::from(width))
        .min(f64::from(max_height) / f64::from(height))
        .min(1.0);
    (
        (f64::from(width) * scale).round() as u32,
        (f64::from(height) * scale).round() as u32,
    )
}

fn shrink(width: u32, height: u32, encoded: usize, max_bytes: usize) -> (u32, u32) {
    let shrink = ((max_bytes as f64 / encoded as f64).sqrt() * 0.9).clamp(0.1, 0.95);
    (
        (f64::from(width) * shrink).floor() as u32,
        (f64::from(height) * shrink).floor() as u32,
    )
}

fn payload(
    raw: RawScreenshotCapture,
    options: ScreenshotPayloadOptions,
) -> Result<ScreenshotCapture, CaptureError> {
    prepare_screenshot_payload(raw, options, scale, shrink)
}

fn app_state_screenshot(
    raw: RawScreenshotCapture,
    crop: Option<(i32, i32, u32, u32)>,
    target_requested: bool,
    options: ScreenshotPayloadOptions,
) -> Result<ScreenshotCapture, String> {
    prepare_app_state_screenshot(raw, crop, target_requested, options, scale, shrink)
}

/// A node identified by its `object_ref` rather than its position, which
/// is what the stable-index tests are about.
fn node_with_ref(object_ref: &str, parent_index: Option<u32>) -> AccessibilityNode {
    AccessibilityNode {
        object_ref: object_ref.to_string(),
        parent_index,
        ..node(0, None)
    }
}

#[test]
fn an_element_index_survives_a_re_read_of_the_tree() {
    let backend = Backend::default();
    let mut first = vec![
        node_with_ref("app/frame", None),
        node_with_ref("app/toolbar", Some(0)),
        node_with_ref("app/details", Some(1)),
    ];

    backend.apply_stable_indices(&mut first);
    let details = first[2].index;
    assert_eq!(first[2].parent_index, Some(first[1].index));

    // The next read finds a node that was not there before, which would
    // renumber everything after it if indices were positional.
    let mut second = vec![
        node_with_ref("app/frame", None),
        node_with_ref("app/banner", Some(0)),
        node_with_ref("app/toolbar", Some(0)),
        node_with_ref("app/details", Some(2)),
    ];
    backend.apply_stable_indices(&mut second);

    assert_eq!(second[3].index, details);
    assert_eq!(second[3].parent_index, Some(second[2].index));
    assert_ne!(second[1].index, details);
}

#[test]
fn an_index_whose_element_is_gone_is_not_handed_to_another_one() {
    let backend = Backend::default();
    let mut first = vec![node_with_ref("app/details", None)];
    backend.apply_stable_indices(&mut first);
    let details = first[0].index;

    let mut second = vec![node_with_ref("app/status-bar", None)];
    backend.apply_stable_indices(&mut second);

    assert_ne!(second[0].index, details);
    backend.cache_tree(&second, None);
    let error = backend
        .resolve_cached_node(
            Some(details),
            None,
            &ElementSelector::default(),
            ElementResolvePurpose::Click,
        )
        .expect_err("an index whose element is gone must not resolve");
    assert!(
        error.contains(&format!("element_index {details}")),
        "{error}"
    );
}

#[test]
fn a_tree_from_another_process_than_the_window_says_so() {
    let window = WindowInfo {
        pid: Some(4242),
        ..placed_window(Some(8), Some(48))
    };

    assert!(cross_process_tree_note(&window, &[4242]).is_none());
    assert!(cross_process_tree_note(&window, &[]).is_none());
    let note = cross_process_tree_note(&window, &[99]).expect("a foreign pid is worth saying");
    assert!(note.contains("pid 99"), "{note}");
    assert!(note.contains("pid 4242"), "{note}");
}

fn node(index: u32, bounds: Option<Bounds>) -> AccessibilityNode {
    node_with_actions(index, bounds, Vec::new())
}

fn node_with_actions(
    index: u32,
    bounds: Option<Bounds>,
    actions: Vec<AccessibilityAction>,
) -> AccessibilityNode {
    AccessibilityNode {
        index,
        parent_index: None,
        depth: 0,
        object_ref: format!(":1.{index}/org/a11y/atspi/accessible/{index}"),
        role: "push button".to_string(),
        name: Some(format!("Button {index}")),
        description: None,
        child_count: 0,
        bounds,
        states: Vec::new(),
        actions,
        value: None,
        text: None,
        supports_editable_text: false,
    }
}

fn click_action() -> AccessibilityAction {
    AccessibilityAction {
        index: 0,
        name: "Click".to_string(),
        description: "Clicks the element".to_string(),
        keybinding: String::new(),
    }
}

fn solid_png(width: u32, height: u32) -> Vec<u8> {
    let img = image::RgbaImage::from_pixel(width, height, image::Rgba([32, 128, 192, 255]));
    let mut out = Vec::new();
    image::DynamicImage::ImageRgba8(img)
        .write_to(&mut std::io::Cursor::new(&mut out), image::ImageFormat::Png)
        .unwrap();
    out
}

#[test]
fn targeted_app_state_crops_before_screenshot_payload_resize() {
    let raw = RawScreenshotCapture {
        mime_type: "image/png".to_string(),
        bytes: solid_png(400, 200),
        source: "test".to_string(),
        width: 400,
        height: 200,
    };
    let capture = app_state_screenshot(
        raw,
        Some((50, 20, 200, 100)),
        true,
        ScreenshotPayloadOptions {
            max_width: Some(100),
            max_height: Some(100),
            max_bytes: Some(1024 * 1024),
            ..Default::default()
        },
    )
    .unwrap();

    assert_eq!(
        (capture.coordinate_width, capture.coordinate_height),
        (200, 100)
    );
    assert_eq!((capture.width, capture.height), (100, 50));
}

#[test]
fn unresolved_app_state_target_refuses_full_desktop_screenshot() {
    let raw = RawScreenshotCapture {
        mime_type: "image/png".to_string(),
        bytes: solid_png(400, 200),
        source: "test".to_string(),
        width: 400,
        height: 200,
    };

    let error =
        app_state_screenshot(raw, None, true, ScreenshotPayloadOptions::default())
            .unwrap_err();

    assert!(error.contains("requires a resolved window"));
}

#[test]
fn targeted_app_state_crops_only_visible_part_of_offscreen_window() {
    let raw = RawScreenshotCapture {
        mime_type: "image/png".to_string(),
        bytes: solid_png(400, 200),
        source: "test".to_string(),
        width: 400,
        height: 200,
    };
    let capture = app_state_screenshot(
        raw,
        Some((-50, -40, 100, 100)),
        true,
        ScreenshotPayloadOptions::default(),
    )
    .unwrap();

    assert_eq!(
        (capture.coordinate_width, capture.coordinate_height),
        (50, 60)
    );
}

#[test]
fn readonly_targeted_screenshot_requires_focused_visible_window() {
    let mut window = window_info(1, Some("Target"), None, None, None);
    ensure_readonly_screenshot_target_is_visible(&window).unwrap_err();
    window.focused = true;
    ensure_readonly_screenshot_target_is_visible(&window).unwrap();
    window.hidden = true;
    ensure_readonly_screenshot_target_is_visible(&window).unwrap_err();
}

#[test]
fn wayland_prefers_wtype_unless_ydotool_is_forced() {
    assert!(prefer_wtype_keyboard(false, true, true, true));
    assert!(!prefer_wtype_keyboard(true, true, true, true));
    assert!(!prefer_wtype_keyboard(false, false, true, true));
    assert!(!prefer_wtype_keyboard(false, true, false, true));
    assert!(!prefer_wtype_keyboard(false, true, true, false));
}

#[test]
fn window_crop_happens_before_screenshot_payload_resize() {
    let (cropped, width, height) = crop_png(&solid_png(400, 200), 50, 20, 200, 100).unwrap();
    let capture = payload(
        RawScreenshotCapture {
            mime_type: "image/png".to_string(),
            bytes: cropped,
            source: "test".to_string(),
            width,
            height,
        },
        ScreenshotPayloadOptions {
            max_width: Some(100),
            max_height: Some(100),
            max_bytes: Some(1024 * 1024),
            ..Default::default()
        },
    )
    .unwrap();

    assert_eq!(
        (capture.coordinate_width, capture.coordinate_height),
        (200, 100)
    );
    assert_eq!((capture.width, capture.height), (100, 50));
    assert!(capture.resized);
}

fn window_info(
    window_id: u64,
    title: Option<&str>,
    app_id: Option<&str>,
    wm_class: Option<&str>,
    pid: Option<u32>,
) -> WindowInfo {
    WindowInfo {
        window_id,
        title: title.map(str::to_string),
        app_id: app_id.map(str::to_string),
        wm_class: wm_class.map(str::to_string),
        pid,
        bounds: Some(WindowBounds {
            x: Some(10),
            y: Some(20),
            width: 800,
            height: 600,
        }),
        workspace: Some(0),
        focused: false,
        hidden: false,
        client_type: Some("wayland".to_string()),
        backend: HYPRLAND_BACKEND.to_string(),
        terminal: None,
    }
}

#[test]
fn relative_click_coordinates_use_capture_space_rect() {
    let mut params = ClickParams {
        x: Some(7),
        y: Some(9),
        relative: Some(true),
        ..Default::default()
    };

    apply_window_relative_click_coordinates(&mut params, (133, 267, 1067, 800)).unwrap();

    assert_eq!((params.x, params.y), (Some(140), Some(276)));
}

#[test]
fn relative_click_coordinates_require_xy() {
    let mut params = ClickParams {
        x: Some(7),
        relative: Some(true),
        ..Default::default()
    };

    let error =
        apply_window_relative_click_coordinates(&mut params, (100, 200, 800, 600)).unwrap_err();

    assert!(error.contains("both x and y"));
    assert_eq!((params.x, params.y), (Some(7), None));
}

#[test]
fn relative_click_coordinates_must_stay_inside_bounds() {
    for (x, y) in [(-1, 9), (7, -1), (800, 9), (7, 600)] {
        let mut params = ClickParams {
            x: Some(x),
            y: Some(y),
            relative: Some(true),
            ..Default::default()
        };

        let error = apply_window_relative_click_coordinates(&mut params, (100, 200, 800, 600))
            .unwrap_err();

        assert!(error.contains("inside target-window bounds"));
        assert_eq!((params.x, params.y), (Some(x), Some(y)));
    }
}

#[test]
fn absolute_pointer_note_reports_the_emitted_coordinate() {
    assert_eq!(
        abs_pointer_clamp_note(PointerLanding {
            requested: (1920, 1080),
            emitted: (1919, 1079),
        }),
        Some(
            "Requested coordinate 1920,1080 was clamped to 1919,1079 by the uinput absolute pointer."
                .to_string()
        )
    );
    assert_eq!(
        abs_pointer_clamp_note(PointerLanding {
            requested: (640, 480),
            emitted: (640, 480),
        }),
        None
    );
}

#[test]
fn accessibility_filter_candidates_prefer_title_and_skip_synthetic_app_id() {
    let window = window_info(
        42,
        Some("CU ATSPI GTK Test"),
        Some("window:46"),
        Some("cu_atspi_gtk_test.py"),
        Some(2_914_326),
    );

    let candidates = accessibility_filter_candidates(Some(&window));

    assert_eq!(
        candidates,
        vec![
            "CU ATSPI GTK Test".to_string(),
            "cu_atspi_gtk_test.py".to_string(),
        ]
    );
}

#[test]
fn select_accessibility_object_ref_prefers_exact_pid_match() {
    let apps = vec![
        AccessibleAppSummary {
            object_ref: ":1.31/org/a11y/atspi/accessible/root".to_string(),
            name: Some("electron".to_string()),
            pid: Some(2_774_076),
            role: "application".to_string(),
            child_count: 1,
            bounds: None,
        },
        AccessibleAppSummary {
            object_ref: ":1.64/org/a11y/atspi/accessible/root".to_string(),
            name: Some("cu_atspi_gtk_test.py".to_string()),
            pid: Some(2_914_326),
            role: "application".to_string(),
            child_count: 1,
            bounds: None,
        },
    ];

    let object_ref = select_accessibility_object_ref(
        &apps,
        2_914_326,
        &[
            "CU ATSPI GTK Test".to_string(),
            "cu_atspi_gtk_test.py".to_string(),
        ],
    )
    .unwrap();

    assert_eq!(object_ref, ":1.64/org/a11y/atspi/accessible/root");
}

#[test]
fn compact_accessibility_tree_reparents_actionable_descendants() {
    let nodes = vec![
        AccessibilityNode {
            index: 0,
            parent_index: None,
            depth: 0,
            object_ref: ":1.0/root".to_string(),
            role: "application".to_string(),
            name: Some("demo-app".to_string()),
            description: None,
            child_count: 1,
            bounds: None,
            states: Vec::new(),
            actions: Vec::new(),
            value: None,
            text: None,
            supports_editable_text: false,
        },
        AccessibilityNode {
            index: 1,
            parent_index: Some(0),
            depth: 1,
            object_ref: ":1.1/frame".to_string(),
            role: "frame".to_string(),
            name: Some("Demo Frame".to_string()),
            description: None,
            child_count: 1,
            bounds: None,
            states: Vec::new(),
            actions: Vec::new(),
            value: None,
            text: None,
            supports_editable_text: false,
        },
        AccessibilityNode {
            index: 2,
            parent_index: Some(1),
            depth: 2,
            object_ref: ":1.2/filler".to_string(),
            role: "filler".to_string(),
            name: None,
            description: None,
            child_count: 1,
            bounds: None,
            states: Vec::new(),
            actions: Vec::new(),
            value: None,
            text: None,
            supports_editable_text: false,
        },
        AccessibilityNode {
            index: 3,
            parent_index: Some(2),
            depth: 3,
            object_ref: ":1.3/button".to_string(),
            role: "button".to_string(),
            name: Some("Run".to_string()),
            description: None,
            child_count: 0,
            bounds: Some(Bounds {
                x: 10,
                y: 20,
                width: 100,
                height: 40,
            }),
            states: Vec::new(),
            actions: vec![AccessibilityAction {
                index: 0,
                name: "Click".to_string(),
                description: "Clicks the button".to_string(),
                keybinding: String::new(),
            }],
            value: None,
            text: None,
            supports_editable_text: false,
        },
    ];

    let compacted = compact_accessibility_tree(nodes);

    assert_eq!(compacted.len(), 3);
    assert_eq!(compacted[0].role, "application");
    assert_eq!(compacted[1].role, "frame");
    assert_eq!(compacted[2].role, "button");
    assert_eq!(compacted[2].parent_index, Some(1));
    assert_eq!(compacted[1].child_count, 1);
}

#[test]
fn compact_accessibility_tree_drops_structural_noise() {
    let nodes = vec![
        AccessibilityNode {
            index: 0,
            parent_index: None,
            depth: 0,
            object_ref: ":1.0/root".to_string(),
            role: "application".to_string(),
            name: Some("demo-app".to_string()),
            description: None,
            child_count: 2,
            bounds: None,
            states: Vec::new(),
            actions: Vec::new(),
            value: None,
            text: None,
            supports_editable_text: false,
        },
        AccessibilityNode {
            index: 1,
            parent_index: Some(0),
            depth: 1,
            object_ref: ":1.1/frame".to_string(),
            role: "frame".to_string(),
            name: Some("Demo Frame".to_string()),
            description: None,
            child_count: 2,
            bounds: None,
            states: Vec::new(),
            actions: Vec::new(),
            value: None,
            text: None,
            supports_editable_text: false,
        },
        AccessibilityNode {
            index: 2,
            parent_index: Some(1),
            depth: 2,
            object_ref: ":1.2/tab".to_string(),
            role: "page tab".to_string(),
            name: Some("Hidden".to_string()),
            description: None,
            child_count: 0,
            bounds: None,
            states: Vec::new(),
            actions: Vec::new(),
            value: None,
            text: None,
            supports_editable_text: false,
        },
        AccessibilityNode {
            index: 3,
            parent_index: Some(1),
            depth: 2,
            object_ref: ":1.3/separator".to_string(),
            role: "separator".to_string(),
            name: None,
            description: None,
            child_count: 0,
            bounds: None,
            states: Vec::new(),
            actions: Vec::new(),
            value: None,
            text: None,
            supports_editable_text: false,
        },
    ];

    let compacted = compact_accessibility_tree(nodes);

    assert_eq!(compacted.len(), 3);
    assert_eq!(compacted[2].role, "page tab");
    assert_eq!(compacted[2].name.as_deref(), Some("Hidden"));
}

#[test]
fn pointer_tools_carry_terminal_selectors_into_the_window_target() {
    // click, scroll, drag and screenshot used to hardcode every terminal
    // selector to None while the schema still advertised them, so a tty
    // target was accepted and silently ignored.
    let target = ActivateWindowParams {
        tty: Some("/dev/pts/3".to_string()),
        terminal_cwd: Some("/home/felipe/workspace".to_string()),
        ..Default::default()
    };

    let click = ClickParams {
        target: target.clone(),
        ..Default::default()
    }
    .window_target()
    .expect("a terminal selector is a window target");
    assert_eq!(click.tty.as_deref(), Some("/dev/pts/3"));
    assert_eq!(
        click.terminal_cwd.as_deref(),
        Some("/home/felipe/workspace")
    );

    let drag = DragParams {
        target,
        ..Default::default()
    }
    .window_target()
    .expect("a terminal selector is a window target");
    assert_eq!(drag.tty.as_deref(), Some("/dev/pts/3"));
}

#[test]
fn no_selector_at_all_is_no_window_target() {
    assert!(ClickParams::default().window_target().is_none());
    assert!(ScrollParams::default().window_target().is_none());
    assert!(DragParams::default().window_target().is_none());
    assert!(ScreenshotParams::default().window_target().is_none());
}

#[test]
fn drag_endpoint_resolves_an_element_index_to_its_center() {
    let backend = Backend::default();
    backend.cache_nodes(&[node(
        7,
        Some(Bounds {
            x: 10,
            y: 20,
            width: 100,
            height: 40,
        }),
    )]);

    let (point, note) = backend
        .drag_endpoint("start", Some(7), None, None, (0, 0), None)
        .expect("a cached node with positive bounds resolves");

    assert_eq!(point, (60, 40));
    assert!(note.contains("start_element_index 7"), "{note}");
    assert!(note.contains("desktop point (60, 40)"), "{note}");
}

#[test]
fn drag_endpoint_offsets_an_element_by_the_window_origin() {
    let backend = Backend::default();
    backend.cache_nodes(&[node(
        3,
        Some(Bounds {
            x: 232,
            y: 347,
            width: 220,
            height: 28,
        }),
    )]);

    let (point, note) = backend
        .drag_endpoint("end", Some(3), None, None, (0, 0), Some((965, 48)))
        .expect("a cached node with positive bounds resolves");

    assert_eq!(point, (1307, 409));
    assert!(
        note.contains("offset by the window origin (965, 48)"),
        "{note}"
    );
}

#[test]
fn drag_endpoint_offsets_relative_coordinates_by_the_window_origin() {
    let backend = Backend::default();

    let (point, note) = backend
        .drag_endpoint("start", None, Some(352), Some(971), (965, 48), None)
        .expect("a coordinate pair resolves");

    assert_eq!(point, (1317, 1019));
    assert!(note.contains("window-relative (352, 971)"), "{note}");
}

#[test]
fn drag_endpoint_refuses_a_half_given_or_doubly_given_end() {
    let backend = Backend::default();

    let missing = backend
        .drag_endpoint("end", None, Some(10), None, (0, 0), None)
        .unwrap_err();
    assert!(
        missing.contains("end_x and end_y, or end_element_index"),
        "{missing}"
    );

    let both = backend
        .drag_endpoint("start", Some(1), Some(10), Some(20), (0, 0), None)
        .unwrap_err();
    assert!(both.contains("not both"), "{both}");
}

#[test]
fn cached_element_index_resolves_to_bounds_center() {
    let backend = Backend::default();
    backend.cache_nodes(&[node(
        7,
        Some(Bounds {
            x: 10,
            y: 20,
            width: 100,
            height: 40,
        }),
    )]);

    let point = backend
        .resolve_optional_target_point(None, None, Some(7), backend.cached_bounds_offset())
        .unwrap()
        .unwrap();

    assert_eq!(point, (60, 40));
}

#[test]
fn coordinate_target_overrides_cached_element_index() {
    let backend = Backend::default();
    backend.cache_nodes(&[node(
        7,
        Some(Bounds {
            x: 10,
            y: 20,
            width: 100,
            height: 40,
        }),
    )]);

    let point = backend
        .resolve_optional_target_point(
            Some(200),
            Some(300),
            Some(7),
            backend.cached_bounds_offset(),
        )
        .unwrap()
        .unwrap();

    assert_eq!(point, (200, 300));
}

#[test]
fn cached_element_index_requires_positive_bounds() {
    let backend = Backend::default();
    backend.cache_nodes(&[node(
        7,
        Some(Bounds {
            x: 10,
            y: 20,
            width: 0,
            height: 40,
        }),
    )]);

    let error = backend
        .resolve_optional_target_point(None, None, Some(7), backend.cached_bounds_offset())
        .unwrap_err();

    assert!(error.contains("No clickable bounds cached for element_index 7"));
}

#[test]
fn cached_element_index_ignores_sentinel_bounds() {
    let backend = Backend::default();
    backend.cache_nodes(&[node(
        7,
        Some(Bounds {
            x: i32::MIN,
            y: i32::MIN,
            width: 1,
            height: 1,
        }),
    )]);

    let error = backend
        .resolve_optional_target_point(None, None, Some(7), backend.cached_bounds_offset())
        .unwrap_err();

    assert!(error.contains("No clickable bounds cached for element_index 7"));
}

#[test]
fn empty_node_cache_clears_stale_element_index() {
    let backend = Backend::default();
    backend.cache_nodes(&[node(
        7,
        Some(Bounds {
            x: 10,
            y: 20,
            width: 100,
            height: 40,
        }),
    )]);
    backend.cache_nodes(&[]);

    let error = backend
        .resolve_optional_target_point(None, None, Some(7), backend.cached_bounds_offset())
        .unwrap_err();

    assert!(error.contains("No clickable bounds cached for element_index 7"));
}

#[test]
fn click_target_falls_back_to_primary_action_without_bounds() {
    let backend = Backend::default();
    backend.cache_nodes(&[node_with_actions(
        7,
        None,
        vec![AccessibilityAction {
            index: 0,
            name: "Click".to_string(),
            description: "Clicks the button".to_string(),
            keybinding: String::new(),
        }],
    )]);

    let target = backend
        .resolve_click_target(
            &ClickParams {
                element_index: Some(7),
                ..Default::default()
            },
            backend.cached_bounds_offset(),
        )
        .unwrap();

    match target {
        ClickTarget::Element {
            element_index,
            object_ref,
            action,
            point,
            bounds_offset,
            ..
        } => {
            assert_eq!(element_index, 7);
            assert_eq!(object_ref, ":1.7/org/a11y/atspi/accessible/7");
            let action = action.expect("primary action");
            assert_eq!(action.name, "Click");
            assert_eq!(action.index, 0);
            assert_eq!(point, None);
            assert_eq!(bounds_offset, None);
        }
        ClickTarget::Coordinates(_, _) => {
            panic!("expected AT-SPI primary-action fallback")
        }
    }
}

#[test]
fn click_target_falls_back_to_primary_action_with_sentinel_bounds() {
    let backend = Backend::default();
    backend.cache_nodes(&[node_with_actions(
        7,
        Some(Bounds {
            x: i32::MIN,
            y: i32::MIN,
            width: 1,
            height: 1,
        }),
        vec![AccessibilityAction {
            index: 0,
            name: "Click".to_string(),
            description: "Clicks the button".to_string(),
            keybinding: String::new(),
        }],
    )]);

    let target = backend
        .resolve_click_target(
            &ClickParams {
                element_index: Some(7),
                ..Default::default()
            },
            backend.cached_bounds_offset(),
        )
        .unwrap();

    match target {
        ClickTarget::Element {
            element_index,
            object_ref,
            action,
            point,
            bounds_offset,
            ..
        } => {
            assert_eq!(element_index, 7);
            assert_eq!(object_ref, ":1.7/org/a11y/atspi/accessible/7");
            let action = action.expect("primary action");
            assert_eq!(action.name, "Click");
            assert_eq!(action.index, 0);
            assert_eq!(point, None);
            assert_eq!(bounds_offset, None);
        }
        ClickTarget::Coordinates(_, _) => {
            panic!("expected AT-SPI primary-action fallback")
        }
    }
}

#[test]
fn click_target_requires_bounds_for_non_plain_clicks() {
    let backend = Backend::default();
    backend.cache_nodes(&[node_with_actions(
        7,
        None,
        vec![AccessibilityAction {
            index: 0,
            name: "Click".to_string(),
            description: "Clicks the button".to_string(),
            keybinding: String::new(),
        }],
    )]);

    let error = backend
        .resolve_click_target(
            &ClickParams {
                element_index: Some(7),
                button: Some("right".to_string()),
                ..Default::default()
            },
            backend.cached_bounds_offset(),
        )
        .unwrap_err();

    assert!(error.contains("No clickable bounds cached for element_index 7"));
}

#[test]
fn click_target_prefers_click_action_over_primary_action() {
    let backend = Backend::default();
    backend.cache_nodes(&[node_with_actions(
        7,
        Some(Bounds {
            x: 10,
            y: 20,
            width: 100,
            height: 40,
        }),
        vec![
            AccessibilityAction {
                index: 0,
                name: "focus".to_string(),
                description: String::new(),
                keybinding: String::new(),
            },
            AccessibilityAction {
                index: 1,
                name: "click".to_string(),
                description: String::new(),
                keybinding: String::new(),
            },
        ],
    )]);

    let target = backend
        .resolve_click_target(
            &ClickParams {
                element_index: Some(7),
                ..Default::default()
            },
            backend.cached_bounds_offset(),
        )
        .unwrap();

    let ClickTarget::Element { action, point, .. } = target else {
        panic!("expected an element click target");
    };
    assert_eq!(action.map(|action| action.index), Some(1));
    assert_eq!(point, Some((60, 40)));
}

#[test]
fn click_target_with_bounds_skips_non_click_primary_action() {
    let backend = Backend::default();
    backend.cache_nodes(&[node_with_actions(
        7,
        Some(Bounds {
            x: 10,
            y: 20,
            width: 100,
            height: 40,
        }),
        vec![AccessibilityAction {
            index: 0,
            name: "focus".to_string(),
            description: String::new(),
            keybinding: String::new(),
        }],
    )]);

    let target = backend
        .resolve_click_target(
            &ClickParams {
                element_index: Some(7),
                ..Default::default()
            },
            backend.cached_bounds_offset(),
        )
        .unwrap();

    let ClickTarget::Element { action, point, .. } = target else {
        panic!("expected an element click target");
    };
    assert!(action.is_none());
    assert_eq!(point, Some((60, 40)));
}

#[test]
fn non_plain_click_never_uses_the_atspi_action() {
    let backend = Backend::default();
    backend.cache_nodes(&[node_with_actions(
        7,
        Some(Bounds {
            x: 10,
            y: 20,
            width: 100,
            height: 40,
        }),
        vec![click_action()],
    )]);

    let target = backend
        .resolve_click_target(
            &ClickParams {
                element_index: Some(7),
                click_count: Some(2),
                ..Default::default()
            },
            backend.cached_bounds_offset(),
        )
        .unwrap();

    let ClickTarget::Element { action, point, .. } = target else {
        panic!("expected an element click target");
    };
    assert!(action.is_none());
    assert_eq!(point, Some((60, 40)));
}

fn frame_node(index: u32, bounds: Bounds) -> AccessibilityNode {
    let mut frame = node(index, Some(bounds));
    frame.role = "frame".to_string();
    frame
}

fn placed_window(x: Option<i32>, y: Option<i32>) -> WindowInfo {
    let mut window = window_info(1, Some("Sophia"), Some("sophia"), None, Some(4242));
    window.bounds = Some(WindowBounds {
        x,
        y,
        width: 900,
        height: 700,
    });
    window
}

#[test]
fn window_relative_tree_is_offset_by_the_window_origin() {
    let nodes = [
        frame_node(
            0,
            Bounds {
                x: 0,
                y: 0,
                width: 900,
                height: 700,
            },
        ),
        node_with_actions(
            1,
            Some(Bounds {
                x: 8,
                y: 151,
                width: 191,
                height: 24,
            }),
            vec![click_action()],
        ),
    ];
    let window = placed_window(Some(965), Some(48));

    assert_eq!(
        window_relative_bounds_offset(&nodes, &window),
        Some((965, 48))
    );

    let backend = Backend::default();
    backend.cache_tree(&nodes, Some(&window));

    let target = backend
        .resolve_click_target(
            &ClickParams {
                element_index: Some(1),
                ..Default::default()
            },
            backend.cached_bounds_offset(),
        )
        .unwrap();
    let ClickTarget::Element {
        point,
        bounds_offset,
        ..
    } = target
    else {
        panic!("expected an element click target");
    };
    assert_eq!(point, Some((965 + 103, 48 + 163)));
    assert_eq!(bounds_offset, Some((965, 48)));
    assert_eq!(
        backend
            .resolve_optional_target_point(None, None, Some(1), backend.cached_bounds_offset())
            .unwrap(),
        Some((965 + 103, 48 + 163))
    );
}

#[test]
fn frame_without_bounds_is_treated_as_window_relative() {
    let mut frame = node(1, None);
    frame.role = "Frame".to_string();
    frame.depth = 1;
    frame.name = Some("sophia-ui".to_string());
    let nodes = [
        frame,
        node_with_actions(
            2,
            Some(Bounds {
                x: 8,
                y: 151,
                width: 191,
                height: 24,
            }),
            vec![click_action()],
        ),
    ];

    assert_eq!(
        window_relative_bounds_offset(&nodes, &placed_window(Some(965), Some(48))),
        Some((965, 48))
    );
}

#[test]
fn element_points_follow_the_window_after_it_moves() {
    let nodes = [
        frame_node(
            0,
            Bounds {
                x: 0,
                y: 0,
                width: 900,
                height: 700,
            },
        ),
        node_with_actions(
            1,
            Some(Bounds {
                x: 8,
                y: 151,
                width: 191,
                height: 24,
            }),
            vec![click_action()],
        ),
    ];
    let backend = Backend::default();
    backend.cache_tree(&nodes, Some(&placed_window(Some(965), Some(48))));
    let CachedBounds::Window(cached) = backend.node_bounds() else {
        panic!("expected window-relative cached bounds");
    };
    assert_eq!(cached.window_id, 1);
    assert_eq!(cached.offset, (965, 48));

    let moved = placed_window(Some(1182), Some(419));
    let offset = fresh_bounds_offset(&cached, std::slice::from_ref(&moved));
    assert_eq!(offset, (1182, 419));
    assert_eq!(fresh_bounds_offset(&cached, &[]), (965, 48));
    assert_eq!(
        fresh_bounds_offset(&cached, &[placed_window(None, None)]),
        (965, 48)
    );

    let target = backend
        .resolve_click_target(
            &ClickParams {
                element_index: Some(1),
                ..Default::default()
            },
            Some(offset),
        )
        .unwrap();
    let ClickTarget::Element {
        point,
        bounds_offset,
        ..
    } = target
    else {
        panic!("expected an element click target");
    };
    assert_eq!(point, Some((1182 + 103, 419 + 163)));
    assert_eq!(bounds_offset, Some((1182, 419)));
    assert_eq!(
        backend
            .resolve_optional_target_point(None, None, Some(1), Some(offset))
            .unwrap(),
        Some((1285, 582))
    );
}

#[test]
fn an_untargeted_tree_is_anchored_by_the_app_pid_when_one_window_matches() {
    let nodes = [
        frame_node(
            0,
            Bounds {
                x: 0,
                y: 0,
                width: 900,
                height: 700,
            },
        ),
        node_with_actions(
            1,
            Some(Bounds {
                x: 8,
                y: 151,
                width: 191,
                height: 24,
            }),
            vec![click_action()],
        ),
    ];
    let window = placed_window(Some(965), Some(48));
    let other_app = window_info(2, Some("Files"), Some("nautilus"), None, Some(77));

    assert_eq!(
        sole_window_for_pids(&[other_app.clone(), window.clone()], &[4242])
            .map(|window| window.window_id),
        Some(1)
    );

    let backend = Backend::default();
    backend.cache_tree(&nodes, sole_window_for_pids(&[other_app, window], &[4242]));

    assert_eq!(backend.cached_bounds_offset(), Some((965, 48)));
    assert_eq!(
        backend
            .resolve_optional_target_point(None, None, Some(1), backend.cached_bounds_offset())
            .unwrap(),
        Some((965 + 103, 48 + 163))
    );
}

#[test]
fn a_pid_owning_no_window_or_several_anchors_nothing() {
    let first = placed_window(Some(965), Some(48));
    let mut second = placed_window(Some(100), Some(100));
    second.window_id = 2;
    let unknown_pid = window_info(3, Some("Files"), Some("nautilus"), None, None);

    let window_id = |window: Option<&WindowInfo>| window.map(|window| window.window_id);

    assert_eq!(window_id(sole_window_for_pids(&[], &[4242])), None);
    assert_eq!(
        window_id(sole_window_for_pids(std::slice::from_ref(&first), &[])),
        None
    );
    assert_eq!(
        window_id(sole_window_for_pids(&[first.clone(), unknown_pid], &[4242])),
        Some(1)
    );
    assert_eq!(
        window_id(sole_window_for_pids(&[first, second], &[4242])),
        None
    );
}

#[test]
fn a_resolved_target_is_reported_as_the_window_context_source() {
    let target = placed_window(Some(965), Some(48));

    assert_eq!(
        window_context_source(Some(&target), Some(&target)),
        Some(WindowContextSource::Target)
    );
}

#[test]
fn a_tree_anchored_through_its_own_pid_reports_the_window_it_was_tied_to() {
    let anchored = placed_window(Some(965), Some(48));

    assert_eq!(
        window_context_source(None, Some(&anchored)),
        Some(WindowContextSource::AppPid)
    );
    assert_eq!(window_context_source(None, None), None);
}

#[test]
fn an_unanchored_window_relative_tree_is_recorded_as_such() {
    let window_relative = [
        frame_node(
            0,
            Bounds {
                x: 0,
                y: 0,
                width: 900,
                height: 700,
            },
        ),
        node(
            1,
            Some(Bounds {
                x: 8,
                y: 151,
                width: 191,
                height: 24,
            }),
        ),
    ];

    assert_eq!(
        cached_bounds_for(&window_relative, None),
        CachedBounds::Unanchored
    );
    assert_eq!(
        cached_bounds_for(&window_relative, Some(&placed_window(None, None))),
        CachedBounds::Unanchored
    );
    assert_eq!(
        cached_bounds_for(&window_relative, Some(&placed_window(Some(965), Some(48)))),
        CachedBounds::Window(BoundsOffset {
            window_id: 1,
            offset: (965, 48),
        })
    );

    // A tree that already reports desktop coordinates is never unanchored,
    // window or no window: it needs no offset.
    let desktop_relative = [frame_node(
        0,
        Bounds {
            x: 965,
            y: 48,
            width: 900,
            height: 700,
        },
    )];
    assert_eq!(
        cached_bounds_for(&desktop_relative, None),
        CachedBounds::Desktop
    );
    assert_eq!(CachedBounds::Unanchored.offset(), None);
    assert_eq!(CachedBounds::default(), CachedBounds::Desktop);
}

#[test]
fn desktop_relative_tree_gets_no_offset() {
    let nodes = [
        frame_node(
            0,
            Bounds {
                x: 965,
                y: 48,
                width: 900,
                height: 700,
            },
        ),
        node(
            1,
            Some(Bounds {
                x: 973,
                y: 199,
                width: 191,
                height: 24,
            }),
        ),
    ];
    let window = placed_window(Some(965), Some(48));

    assert_eq!(window_relative_bounds_offset(&nodes, &window), None);

    let backend = Backend::default();
    backend.cache_tree(&nodes, Some(&window));
    assert_eq!(
        backend
            .resolve_optional_target_point(None, None, Some(1), backend.cached_bounds_offset())
            .unwrap(),
        Some((1068, 211))
    );
}

#[test]
fn window_relative_tree_needs_a_window_origin_and_a_frame() {
    let frame = frame_node(
        0,
        Bounds {
            x: 0,
            y: 0,
            width: 900,
            height: 700,
        },
    );
    let button = node(
        1,
        Some(Bounds {
            x: 8,
            y: 151,
            width: 191,
            height: 24,
        }),
    );

    assert_eq!(
        window_relative_bounds_offset(
            std::slice::from_ref(&button),
            &placed_window(Some(965), Some(48))
        ),
        None
    );
    assert_eq!(
        window_relative_bounds_offset(
            &[frame.clone(), button.clone()],
            &placed_window(None, None)
        ),
        None
    );
    assert_eq!(
        window_relative_bounds_offset(&[frame, button], &placed_window(Some(0), Some(0))),
        Some((0, 0))
    );
}

#[test]
fn click_target_resolves_by_object_ref() {
    let backend = Backend::default();
    backend.cache_nodes(&[
        node(3, None),
        node_with_actions(
            7,
            Some(Bounds {
                x: 10,
                y: 20,
                width: 100,
                height: 40,
            }),
            vec![click_action()],
        ),
    ]);

    let target = backend
        .resolve_click_target(
            &ClickParams {
                object_ref: Some(":1.7/org/a11y/atspi/accessible/7".to_string()),
                ..Default::default()
            },
            backend.cached_bounds_offset(),
        )
        .unwrap();
    let ClickTarget::Element {
        element_index,
        point,
        ..
    } = target
    else {
        panic!("expected an element click target");
    };
    assert_eq!(element_index, 7);
    assert_eq!(point, Some((60, 40)));

    let error = backend
        .resolve_click_target(
            &ClickParams {
                object_ref: Some(":1.9/org/a11y/atspi/accessible/9".to_string()),
                ..Default::default()
            },
            backend.cached_bounds_offset(),
        )
        .unwrap_err();
    assert!(error.contains("No cached accessibility node with object_ref"));
}

#[test]
fn stale_element_errors_get_the_refresh_hint() {
    let stale = "org.freedesktop.DBus.Error.ServiceUnknown: The name :1.42 was not provided by any .service files";
    assert_eq!(element_error_message(true, stale), STALE_TREE_MESSAGE);
    let other = "element exposes no AT-SPI actions";
    assert_eq!(element_error_message(false, other), other);
}

#[test]
fn states_change_note_ignores_order_and_reports_changes() {
    assert_eq!(
        states_change_note(
            &["focused".to_string(), "enabled".to_string()],
            &["enabled".to_string(), "focused".to_string()]
        ),
        None
    );
    let note = states_change_note(
        &["enabled".to_string()],
        &["enabled".to_string(), "checked".to_string()],
    )
    .unwrap();
    assert_eq!(
        note,
        "Element states before -> after: [enabled] -> [checked, enabled]."
    );
}

#[test]
fn describe_focused_element_lists_states() {
    let element = FocusedElementSummary {
        role: "entry".to_string(),
        name: None,
        editable: true,
        states: vec!["focused".to_string(), "editable".to_string()],
    };
    assert_eq!(
        describe_focused_element(&element, true),
        "Focused element: entry (editable; states: focused, editable)."
    );
}

#[test]
fn press_key_sequence_takes_exactly_one_of_key_and_keys() {
    assert_eq!(
        press_key_sequence(Some("ctrl+l"), &[]).unwrap(),
        vec!["ctrl+l".to_string()]
    );
    assert_eq!(
        press_key_sequence(
            None,
            &["ctrl+a".to_string(), " ".to_string(), "Delete".to_string()]
        )
        .unwrap(),
        vec!["ctrl+a".to_string(), "Delete".to_string()]
    );
    press_key_sequence(Some("enter"), &["tab".to_string()]).unwrap_err();
    press_key_sequence(None, &[]).unwrap_err();
    press_key_sequence(Some("  "), &[]).unwrap_err();
}

#[test]
fn modifier_hold_args_press_and_release_evdev_codes() {
    let codes =
        modifier_keycodes(&["ctrl".to_string(), "Shift".to_string(), "ctrl".to_string()])
            .unwrap();
    assert_eq!(codes, vec![29, 42]);
    assert_eq!(
        modifier_hold_args(&codes, true),
        vec!["key".to_string(), "29:1".to_string(), "42:1".to_string()]
    );
    assert_eq!(
        modifier_hold_args(&codes, false),
        vec!["key".to_string(), "29:0".to_string(), "42:0".to_string()]
    );
    modifier_keycodes(&["hyper".to_string()]).unwrap_err();
    assert!(modifier_keycodes(&[]).unwrap().is_empty());
}

#[test]
fn region_crop_maps_desktop_and_window_relative_rectangles() {
    let region = ScreenshotRegion {
        x: 10,
        y: 20,
        width: 100,
        height: 50,
    };
    assert_eq!(
        region_crop_rect(&region, false, None, 1920, 1080).unwrap(),
        ((10, 20, 100, 50), (10, 20, 100, 50))
    );
    let window = Some((965, 48, 900, 700));
    assert_eq!(
        region_crop_rect(&region, true, window, 900, 700).unwrap(),
        ((10, 20, 100, 50), (975, 68, 100, 50))
    );
    assert_eq!(
        region_crop_rect(
            &ScreenshotRegion {
                x: 975,
                y: 68,
                width: 100,
                height: 50
            },
            false,
            window,
            900,
            700
        )
        .unwrap(),
        ((10, 20, 100, 50), (975, 68, 100, 50))
    );
}

#[test]
fn region_crop_clips_and_rejects_empty_rectangles() {
    let region = ScreenshotRegion {
        x: 1900,
        y: 1070,
        width: 100,
        height: 50,
    };
    assert_eq!(
        region_crop_rect(&region, false, None, 1920, 1080).unwrap(),
        ((1900, 1070, 20, 10), (1900, 1070, 20, 10))
    );
    assert!(
        region_crop_rect(&region, true, None, 1920, 1080)
            .unwrap_err()
            .contains("window target")
    );
    let outside = ScreenshotRegion {
        x: 5000,
        y: 0,
        width: 10,
        height: 10,
    };
    assert!(
        region_crop_rect(&outside, false, None, 1920, 1080)
            .unwrap_err()
            .contains("outside")
    );
    let empty = ScreenshotRegion {
        x: 0,
        y: 0,
        width: 0,
        height: 10,
    };
    region_crop_rect(&empty, false, None, 1920, 1080).unwrap_err();
}

#[test]
fn occlusion_note_names_the_windows_above() {
    assert_eq!(occlusion_note(&[]), None);
    let note = occlusion_note(&[
        WindowOcclusion {
            window_id: 0x10,
            title: Some("Terminal".to_string()),
        },
        WindowOcclusion {
            window_id: 0x20,
            title: None,
        },
    ])
    .unwrap();
    assert!(note.starts_with("WARNING: 2 window(s)"));
    assert!(note.contains("Terminal (window_id 16)"));
    assert!(note.contains("untitled (window_id 32)"));
}

#[test]
fn allowed_app_patterns_split_and_ignore_blanks() {
    assert_eq!(allowed_app_patterns(None), None);
    assert_eq!(allowed_app_patterns(Some("  , ")), None);
    assert_eq!(
        allowed_app_patterns(Some("sophia, Ghostty ,,firefox")),
        Some(vec![
            "sophia".to_string(),
            "Ghostty".to_string(),
            "firefox".to_string()
        ])
    );
}

#[test]
fn allowlist_matches_app_id_wm_class_or_title_substrings() {
    let window = window_info(
        1,
        Some("Sophia — main.rs"),
        Some("sophia-ui"),
        Some("Sophia"),
        Some(1),
    );
    assert!(window_matches_allowlist(&window, &["SOPHIA".to_string()]));
    assert!(window_matches_allowlist(&window, &["main.rs".to_string()]));
    assert!(!window_matches_allowlist(&window, &["ghostty".to_string()]));
    let untitled = window_info(2, None, None, None, None);
    assert!(!window_matches_allowlist(
        &untitled,
        &["sophia".to_string()]
    ));
}

#[test]
fn scroll_actions_match_direction_names_loosely() {
    let actions = vec![
        AccessibilityAction {
            index: 0,
            name: "click".to_string(),
            description: String::new(),
            keybinding: String::new(),
        },
        AccessibilityAction {
            index: 1,
            name: "scrollDown".to_string(),
            description: String::new(),
            keybinding: String::new(),
        },
        AccessibilityAction {
            index: 2,
            name: "Scroll left".to_string(),
            description: String::new(),
            keybinding: String::new(),
        },
    ];
    assert_eq!(
        scroll_action_for_direction(&actions, ScrollDirection::Down).map(|k| actions[k].index),
        Some(1)
    );
    assert_eq!(
        scroll_action_for_direction(&actions, ScrollDirection::Left).map(|k| actions[k].index),
        Some(2)
    );
    assert!(scroll_action_for_direction(&actions, ScrollDirection::Up).is_none());
    assert!(matches!(
        parse_scroll_direction(" Right "),
        Some(ScrollDirection::Right)
    ));
    assert!(parse_scroll_direction("sideways").is_none());

    let backend = Backend::default();
    backend.cache_nodes(&[node_with_actions(4, None, actions)]);
    let (object_ref, action) = backend
        .cached_scroll_action(4, ScrollDirection::Down)
        .unwrap();
    assert_eq!(object_ref, ":1.4/org/a11y/atspi/accessible/4");
    assert_eq!(action.index, 1);
    assert!(
        backend
            .cached_scroll_action(4, ScrollDirection::Up)
            .is_none()
    );
}

#[test]
fn keyboard_editable_needs_focusable_and_editable_states() {
    let backend = Backend::default();
    let mut entry = node(1, None);
    entry.states = vec!["focusable".to_string(), "Editable".to_string()];
    let mut label = node(2, None);
    label.states = vec!["editable".to_string()];
    backend.cache_nodes(&[entry, label]);

    assert!(backend.cached_node_is_keyboard_editable(":1.1/org/a11y/atspi/accessible/1"));
    assert!(!backend.cached_node_is_keyboard_editable(":1.2/org/a11y/atspi/accessible/2"));
    assert!(!backend.cached_node_is_keyboard_editable(":1.9/org/a11y/atspi/accessible/9"));
}

#[test]
fn wait_for_timeout_defaults_and_caps() {
    assert_eq!(wait_for_timeout(None), 5_000);
    assert_eq!(wait_for_timeout(Some(250)), 250);
    assert_eq!(
        wait_for_timeout(Some(600_000)),
        60_000
    );
}

#[test]
fn wait_for_requires_a_predicate() {
    assert!(!wait_for_has_predicate(&WaitForParams::default()));
    assert!(!wait_for_has_predicate(&WaitForParams {
        target: ActivateWindowParams {
            pid: Some(42),
            ..Default::default()
        },
        window_title: Some("   ".to_string()),
        ..Default::default()
    }));
    assert!(wait_for_has_predicate(&WaitForParams {
        role: Some("button".to_string()),
        ..Default::default()
    }));
    assert!(wait_for_has_predicate(&WaitForParams {
        window_title: Some("Sophia".to_string()),
        ..Default::default()
    }));
    assert!(wait_for_has_predicate(&WaitForParams {
        focused_window: Some(ActivateWindowParams::default()),
        ..Default::default()
    }));
}

#[test]
fn wait_for_title_and_state_predicates_normalize() {
    assert!(title_contains(Some("Sophia — main.rs"), "sophia"));
    assert!(!title_contains(Some("Sophia"), "zed"));
    assert!(!title_contains(None, "sophia"));

    let mut focused = node(1, None);
    focused.states = vec!["Focused".to_string(), "editable".to_string()];
    assert!(node_has_state(&focused, "focused"));
    assert!(!node_has_state(&node(2, None), "focused"));
}

#[test]
fn wait_for_params_map_onto_app_state_targeting() {
    let params = WaitForParams {
        target: ActivateWindowParams {
            pid: Some(4242),
            title: Some("Sophia".to_string()),
            ..Default::default()
        },
        role: Some("button".to_string()),
        ..Default::default()
    };
    let app_state = params.app_state_params();
    assert_eq!(app_state.target.pid, Some(4242));
    assert_eq!(app_state.target.title.as_deref(), Some("Sophia"));
    assert!(app_state.window_target().has_target());
    assert_eq!(params.selector().role, Some("button"));
}

#[test]
fn ydotool_wheel_delta_follows_evdev_axis_signs() {
    assert_eq!(ydotool_wheel_delta(ScrollDirection::Up, 3), (0, 3));
    assert_eq!(ydotool_wheel_delta(ScrollDirection::Down, 3), (0, -3));
    assert_eq!(ydotool_wheel_delta(ScrollDirection::Left, 3), (-3, 0));
    assert_eq!(ydotool_wheel_delta(ScrollDirection::Right, 3), (3, 0));
}

#[test]
fn absolute_mousemove_uses_coordinate_separator() {
    assert_eq!(
        absolute_mousemove_args(200, 300),
        vec![
            "mousemove".to_string(),
            "--absolute".to_string(),
            "--".to_string(),
            "200".to_string(),
            "300".to_string(),
        ]
    );
}

#[test]
fn wheel_mousemove_uses_coordinate_separator_for_negative_values() {
    assert_eq!(
        wheel_mousemove_args(0, -3),
        vec![
            "mousemove".to_string(),
            "--wheel".to_string(),
            "--".to_string(),
            "0".to_string(),
            "-3".to_string(),
        ]
    );
}

#[test]
fn pointer_actions_keep_pixel_coordinates_for_ydotool_absolute_moves() {
    assert_eq!(
        absolute_mousemove_args(1550, 930),
        vec![
            "mousemove".to_string(),
            "--absolute".to_string(),
            "--".to_string(),
            "1550".to_string(),
            "930".to_string(),
        ]
    );
}

#[test]
fn key_chord_splits_modifiers_and_key() {
    assert_eq!(key_chord("Ctrl+Shift+P"), Some((vec![29, 42], 25)));
    assert_eq!(key_chord("Ctrl+S"), Some((vec![29], 31)));
    assert_eq!(key_chord("Enter"), Some((vec![], 28)));
    // A bare modifier is a chord with no held modifiers.
    assert_eq!(key_chord("Super"), Some((vec![], 125)));
    assert_eq!(key_chord("NotAKey"), None);
}

#[test]
fn a_chord_with_an_empty_part_is_no_chord() {
    for key in ["Ctrl++", "+a", "a+", "Ctrl+ +L", "+", "", " "] {
        assert_eq!(key_chord(key), None, "{key:?}");
        assert_eq!(key_sequence(key), None, "{key:?}");
    }
    assert_eq!(key_chord(" Ctrl + L "), Some((vec![29], 38)));
}

#[test]
fn key_sequence_presses_modifiers_around_key() {
    assert_eq!(
        key_sequence("Ctrl+Shift+P"),
        Some(vec![
            "29:1".to_string(),
            "42:1".to_string(),
            "25:1".to_string(),
            "25:0".to_string(),
            "42:0".to_string(),
            "29:0".to_string(),
        ])
    );
}

#[test]
fn ydotool_modifier_chords_include_an_inter_event_delay() {
    let args = ydotool_key_args(&key_sequence("Ctrl+T").unwrap(), true);

    assert_eq!(args, ["key", "-d", "100", "29:1", "20:1", "20:0", "29:0"]);
}

#[test]
fn key_sequence_presses_bare_modifier() {
    assert_eq!(
        key_sequence("Super"),
        Some(vec!["125:1".to_string(), "125:0".to_string()])
    );
}

#[test]
fn key_sequence_keeps_shortcuts_and_navigation_on_raw_events() {
    assert_eq!(
        key_sequence("Ctrl+L"),
        Some(vec![
            "29:1".to_string(),
            "38:1".to_string(),
            "38:0".to_string(),
            "29:0".to_string(),
        ])
    );
    assert_eq!(
        key_sequence("ArrowLeft"),
        Some(vec!["105:1".to_string(), "105:0".to_string()])
    );
    assert_eq!(
        key_sequence("Escape"),
        Some(vec!["1:1".to_string(), "1:0".to_string()])
    );
    assert_eq!(
        key_sequence("Enter"),
        Some(vec!["28:1".to_string(), "28:0".to_string()])
    );
}

#[test]
fn ydotool_type_timeout_scales_with_text_length() {
    assert_eq!(ydotool_type_timeout(""), 10);
    assert_eq!(ydotool_type_timeout("x"), 11);
    assert_eq!(ydotool_type_timeout(&"x".repeat(200)), 20);
    assert_eq!(ydotool_type_timeout(&"x".repeat(500)), 35);
}

#[test]
fn perform_action_defaults_to_primary_action_index() {
    assert_eq!(requested_or_primary_action(None), "0");
    assert_eq!(requested_or_primary_action(Some("   ")), "0");
    assert_eq!(
        requested_or_primary_action(Some(" show-menu ")),
        "show-menu"
    );
}

#[test]
fn explicit_ydotool_socket_is_used_without_connectability_probe() {
    let selected = explicit_ydotool_socket_from(Some(" /does/not/exist.sock "));

    assert_eq!(selected.as_deref(), Some("/does/not/exist.sock"));
}

#[test]
fn a_blank_or_absent_ydotool_socket_is_no_socket() {
    assert_eq!(explicit_ydotool_socket_from(Some("   ")), None);
    assert_eq!(explicit_ydotool_socket_from(None), None);
}

#[test]
fn element_identifier_overrides_cached_object_ref() {
    let backend = Backend::default();
    backend.cache_nodes(&[node(7, None)]);

    let object_ref = backend
        .resolve_object_ref(
            Some(7),
            Some(":1.99/org/a11y/atspi/accessible/3"),
            &ElementSelector::default(),
            ElementResolvePurpose::Action,
        )
        .unwrap();

    assert_eq!(object_ref, ":1.99/org/a11y/atspi/accessible/3");
}

#[test]
fn element_index_resolves_to_cached_object_ref() {
    let backend = Backend::default();
    backend.cache_nodes(&[node(7, None)]);

    let object_ref = backend
        .resolve_object_ref(
            Some(7),
            None,
            &ElementSelector::default(),
            ElementResolvePurpose::Action,
        )
        .unwrap();

    assert_eq!(object_ref, ":1.7/org/a11y/atspi/accessible/7");
}

#[test]
fn semantic_selector_resolves_unique_cached_node_by_role_and_name() {
    let backend = Backend::default();
    let mut search_entry = node(7, None);
    search_entry.role = "entry".to_string();
    search_entry.name = Some("Search files".to_string());
    search_entry.supports_editable_text = true;
    backend.cache_nodes(&[search_entry]);

    let object_ref = backend
        .resolve_object_ref(
            None,
            None,
            &ElementSelector {
                role: Some("entry"),
                name: Some("search"),
                ..Default::default()
            },
            ElementResolvePurpose::SetValue,
        )
        .unwrap();

    assert_eq!(object_ref, ":1.7/org/a11y/atspi/accessible/7");
}

#[test]
fn semantic_selector_prefers_actionable_match() {
    let backend = Backend::default();
    let mut label = node(4, None);
    label.role = "label".to_string();
    label.name = Some("Close".to_string());
    let mut button = node_with_actions(7, None, vec![click_action()]);
    button.role = "push button".to_string();
    button.name = Some("Close".to_string());
    backend.cache_nodes(&[label, button]);

    let object_ref = backend
        .resolve_object_ref(
            None,
            None,
            &ElementSelector {
                name: Some("close"),
                ..Default::default()
            },
            ElementResolvePurpose::Action,
        )
        .unwrap();

    assert_eq!(object_ref, ":1.7/org/a11y/atspi/accessible/7");
}

#[test]
fn semantic_selector_prefers_editable_match() {
    let backend = Backend::default();
    let mut label = node(4, None);
    label.role = "label".to_string();
    label.name = Some("Search".to_string());
    let mut entry = node(7, None);
    entry.role = "entry".to_string();
    entry.name = Some("Search".to_string());
    entry.supports_editable_text = true;
    backend.cache_nodes(&[label, entry]);

    let object_ref = backend
        .resolve_object_ref(
            None,
            None,
            &ElementSelector {
                name: Some("search"),
                ..Default::default()
            },
            ElementResolvePurpose::SetValue,
        )
        .unwrap();

    assert_eq!(object_ref, ":1.7/org/a11y/atspi/accessible/7");
}

#[test]
fn semantic_selector_reports_ambiguous_matches() {
    let backend = Backend::default();
    let mut first = node_with_actions(7, None, vec![click_action()]);
    first.name = Some("Close".to_string());
    let mut second = node_with_actions(9, None, vec![click_action()]);
    second.name = Some("Close".to_string());
    backend.cache_nodes(&[first, second]);

    let error = backend
        .resolve_object_ref(
            None,
            None,
            &ElementSelector {
                name: Some("close"),
                ..Default::default()
            },
            ElementResolvePurpose::Action,
        )
        .unwrap_err();

    assert!(error.contains("matched multiple cached nodes"));
    assert!(error.contains("element_index 7"));
    assert!(error.contains("element_index 9"));
}

#[test]
fn semantic_click_selector_resolves_coordinates() {
    let backend = Backend::default();
    let mut button = node_with_actions(
        7,
        Some(Bounds {
            x: 10,
            y: 20,
            width: 100,
            height: 40,
        }),
        vec![click_action()],
    );
    button.name = Some("Run".to_string());
    backend.cache_nodes(&[button]);

    let target = backend
        .resolve_click_target(
            &ClickParams {
                role: Some("button".to_string()),
                name: Some("run".to_string()),
                ..Default::default()
            },
            backend.cached_bounds_offset(),
        )
        .unwrap();

    match target {
        ClickTarget::Element {
            element_index,
            action,
            point,
            ..
        } => {
            assert_eq!(element_index, 7);
            assert_eq!(action.map(|action| action.name).as_deref(), Some("Click"));
            assert_eq!(point, Some((60, 40)));
        }
        ClickTarget::Coordinates(_, _) => panic!("expected an element click target"),
    }
}

#[test]
fn describe_focused_element_editable() {
    let element = FocusedElementSummary {
        role: "text".to_string(),
        name: Some("Message".to_string()),
        editable: true,
        states: vec!["focused".to_string()],
    };
    let described = describe_focused_element(&element, true);
    assert!(described.contains("editable"));
    assert!(!described.contains("WARNING"));
}

#[test]
fn describe_focused_element_warns_on_non_editable_when_typing() {
    let element = FocusedElementSummary {
        role: "push button".to_string(),
        name: Some("OK".to_string()),
        editable: false,
        states: vec!["focused".to_string()],
    };
    let described = describe_focused_element(&element, true);
    assert!(described.contains("WARNING"));
    assert!(described.contains("not editable"));
}

#[test]
fn describe_focused_element_trusts_the_editable_state() {
    let element = FocusedElementSummary {
        role: "entry".to_string(),
        name: Some("Prompt".to_string()),
        editable: false,
        states: vec!["focused".to_string(), "editable".to_string()],
    };
    let described = describe_focused_element(&element, true);
    assert!(!described.contains("WARNING"));
    assert!(described.contains("(editable;"));
}

#[test]
fn describe_focused_element_no_warning_for_press_key() {
    let element = FocusedElementSummary {
        role: "push button".to_string(),
        name: None,
        editable: false,
        states: vec![],
    };
    let described = describe_focused_element(&element, false);
    assert!(!described.contains("WARNING"));
}

#[test]
fn relative_scroll_translates_coordinates() {
    let mut params = ScrollParams {
        element_index: None,
        x: Some(10),
        y: Some(20),
        direction: "down".to_string(),
        target: ActivateWindowParams {
            window_id: Some(1),
            ..Default::default()
        },
        relative: Some(true),
    };
    apply_window_relative_scroll_coordinates(&mut params, (100, 200, 800, 600)).unwrap();
    assert_eq!(params.x, Some(110));
    assert_eq!(params.y, Some(220));
}

#[test]
fn window_targeted_scroll_defaults_to_window_center() {
    let mut params = ScrollParams {
        element_index: None,
        x: None,
        y: None,
        direction: "down".to_string(),
        target: ActivateWindowParams {
            window_id: Some(1),
            ..Default::default()
        },
        relative: None,
    };
    apply_window_center_scroll_point(&mut params, (100, 200, 800, 600)).unwrap();
    assert_eq!(params.x, Some(500));
    assert_eq!(params.y, Some(500));
}

#[test]
fn window_targeted_scroll_with_empty_capture_rect_errors() {
    let mut params = ScrollParams {
        element_index: None,
        x: None,
        y: None,
        direction: "down".to_string(),
        target: ActivateWindowParams {
            window_id: Some(1),
            ..Default::default()
        },
        relative: None,
    };
    let error = apply_window_center_scroll_point(&mut params, (0, 0, 0, 0)).unwrap_err();
    assert!(error.contains("pass x/y explicitly"));
    assert_eq!(params.x, None);
    assert_eq!(params.y, None);
}

#[test]
fn relative_scroll_rejects_out_of_bounds() {
    let mut params = ScrollParams {
        element_index: None,
        x: Some(801),
        y: Some(20),
        direction: "down".to_string(),
        target: ActivateWindowParams {
            window_id: Some(1),
            ..Default::default()
        },
        relative: Some(true),
    };
    assert!(
        apply_window_relative_scroll_coordinates(&mut params, (100, 200, 800, 600)).is_err()
    );
}