use computer_use_hyprland::command::{command_detail, dispatch_succeeded, CommandOutput};
use computer_use_hyprland::windowing::backends::hyprland::{
    bounds_from_edges, capture_origin, check_extent, check_query, clear_hyprland_client_bounds,
    cursor_position, display_matches, lua_float_dispatch, lua_focus_dispatch, lua_move_dispatch,
    lua_resize_dispatch, lua_window_workspace_dispatch, lua_workspace_focus_dispatch,
    occluders_from_clients, parse_cursorpos, parse_hyprland_address, parse_instance_lock,
    parse_release, place_on_axis, probe, query_client, rebase_clients, refuse_if_tiled, release,
    run_lua_dispatch, select_hyprland_instance, view_after_move, view_step, window_address,
    window_step, windows_from_hyprland_clients, GeometryRequest, GeometryStart, GeometryStep,
    HyprlandClient, HyprlandInstanceCandidate, HyprlandWorkspace, ViewStep,
    GEOMETRY_VERIFY_ATTEMPTS,
};
use computer_use_hyprland::windowing::registry::{list_windows, probe_backend};
use computer_use_hyprland::windowing::types::{
    WindowInfo, WindowOcclusion, WorkspaceSummary, WorkspaceTarget,
};

/// The clients a `hyprctl clients -j` listing holds.
fn clients(json: &str) -> Vec<HyprlandClient> {
    let listing: serde_json::Value = serde_json::from_str(json).unwrap();
    listing.as_array().unwrap().iter().map(client_of).collect()
}

fn number<T: TryFrom<i64>>(value: &serde_json::Value) -> Option<T> {
    value.as_i64().and_then(|n| T::try_from(n).ok())
}

fn pair_of<T: TryFrom<i64>>(value: &serde_json::Value) -> Option<[T; 2]> {
    Some([number(value.get(0)?)?, number(value.get(1)?)?])
}

fn text(value: &serde_json::Value) -> Option<String> {
    value.as_str().map(str::to_string)
}

fn client_of(value: &serde_json::Value) -> HyprlandClient {
    HyprlandClient {
        address: value["address"].as_str().unwrap().to_string(),
        mapped: value["mapped"].as_bool(),
        hidden: value["hidden"].as_bool(),
        at: pair_of(&value["at"]),
        size: pair_of(&value["size"]),
        floating: value["floating"].as_bool(),
        monitor: number(&value["monitor"]),
        workspace: value.get("workspace").map(|workspace| HyprlandWorkspace {
            id: number(&workspace["id"]),
        }),
        class_name: text(&value["class"]),
        title: text(&value["title"]),
        pid: value["pid"].as_i64(),
        xwayland: value["xwayland"].as_bool(),
        focus_history_id: number(&value["focusHistoryID"]),
    }
}

/// Where the monitors stand, and the scale of the capture they make up.
struct Layout {
    origin: (i32, i32),
    scale: f64,
    monitor_ids: Vec<i32>,
}

impl Layout {
    fn read(monitors_json: &[u8]) -> Option<Self> {
        let listing: serde_json::Value = serde_json::from_slice(monitors_json).ok()?;
        let monitors = listing.as_array()?;
        let scales: Vec<f64> = monitors.iter().filter_map(|m| m["scale"].as_f64()).collect();
        if scales.iter().any(|scale| !scale.is_finite() || *scale <= 0.0) {
            return None;
        }
        let of = |key: &str| -> Vec<i32> {
            monitors.iter().filter_map(|m| number(&m[key])).collect()
        };
        Some(Layout {
            origin: capture_origin(&of("x"), &of("y"))?,
            scale: scales.iter().copied().fold(0.0, f64::max),
            monitor_ids: of("id"),
        })
    }

    fn edge(&self, value: i64, origin: i32) -> f64 {
        (value - i64::from(origin)) as f64 * self.scale
    }

    fn map_bounds(&self, at: [i32; 2], size: [u32; 2]) -> Option<([i32; 2], [u32; 2])> {
        bounds_from_edges(
            size,
            self.edge(i64::from(at[0]), self.origin.0).floor() as i64,
            self.edge(i64::from(at[1]), self.origin.1).floor() as i64,
            self.edge(i64::from(at[0]) + i64::from(size[0]), self.origin.0)
                .ceil() as i64,
            self.edge(i64::from(at[1]) + i64::from(size[1]), self.origin.1)
                .ceil() as i64,
        )
    }

    fn map_point(&self, point: [i32; 2]) -> (i32, i32) {
        (
            place_on_axis(
                self.edge(i64::from(point[0]), self.origin.0).round() as i64,
                0,
            ),
            place_on_axis(
                self.edge(i64::from(point[1]), self.origin.1).round() as i64,
                0,
            ),
        )
    }

    fn unmap_axis(&self, value: i32, origin: i32) -> i32 {
        place_on_axis((f64::from(value) / self.scale).round() as i64, origin)
    }

    fn unmap_point(&self, point: [i32; 2]) -> [i32; 2] {
        [
            self.unmap_axis(point[0], self.origin.0),
            self.unmap_axis(point[1], self.origin.1),
        ]
    }

    fn unmap_size(&self, size: [i32; 2]) -> [i32; 2] {
        [self.unmap_axis(size[0], 0), self.unmap_axis(size[1], 0)]
    }
}

/// The windows of a client listing, with their bounds on the capture the monitors make up.
fn on_capture(clients_json: &str, monitors_json: &[u8]) -> Result<Vec<WindowInfo>, String> {
    let mut clients = clients(clients_json);
    match Layout::read(monitors_json) {
        Some(layout) => {
            let mapped: Vec<_> = clients
                .iter()
                .map(|client| {
                    client
                        .at
                        .zip(client.size)
                        .and_then(|(at, size)| layout.map_bounds(at, size))
                })
                .collect();
            rebase_clients(&mut clients, &layout.monitor_ids, &mapped);
        }
        None => clear_hyprland_client_bounds(&mut clients),
    }
    windows_from_hyprland_clients(&clients, |_| None)
}

fn without_monitors(clients_json: &str) -> Result<Vec<WindowInfo>, String> {
    let mut clients = clients(clients_json);
    clear_hyprland_client_bounds(&mut clients);
    windows_from_hyprland_clients(&clients, |_| None)
}

#[test]
fn rebases_global_window_coordinates_to_screenshot_space() {
    let clients = r#"[{
        "address":"0x1234",
        "mapped":true,
        "at":[4714,1494],
        "size":[931,1124],
        "monitor":0,
        "class":"com.mitchellh.ghostty",
        "title":"Ghostty"
    }]"#;
    let monitors = br#"[
        {"id":0,"x":3747,"y":1440,"scale":1.8},
        {"id":1,"x":5667,"y":0,"scale":2.0}
    ]"#;
    let windows = on_capture(clients, monitors).unwrap();

    let bounds = windows[0].bounds.as_ref().unwrap();
    assert_eq!((bounds.x, bounds.y), (Some(1934), Some(2988)));
    assert_eq!((bounds.width, bounds.height), (1862, 2248));
}

#[test]
fn global_union_accounts_for_negative_monitor_origins() {
    let clients = r#"[{
        "address":"0x1234",
        "at":[-1800,100],
        "size":[600,400],
        "monitor":0,
        "class":"foot",
        "title":"Shell"
    }]"#;
    let monitors = br#"[
        {"id":0,"x":-1920,"y":0,"scale":1.0},
        {"id":1,"x":0,"y":0,"scale":2.0}
    ]"#;
    let windows = on_capture(clients, monitors).unwrap();

    let bounds = windows[0].bounds.as_ref().unwrap();
    assert_eq!((bounds.x, bounds.y), (Some(240), Some(200)));
    assert_eq!((bounds.width, bounds.height), (1200, 800));
}

#[test]
fn fractional_scale_rounds_crop_edges_outward() {
    let clients = r#"[{
        "address":"0x1234",
        "at":[1,1],
        "size":[1,1],
        "monitor":0,
        "class":"foot",
        "title":"Shell"
    }]"#;
    let monitors = br#"[{"id":0,"x":0,"y":0,"scale":1.25}]"#;
    let windows = on_capture(clients, monitors).unwrap();

    let bounds = windows[0].bounds.as_ref().unwrap();
    assert_eq!((bounds.x, bounds.y), (Some(1), Some(1)));
    assert_eq!((bounds.width, bounds.height), (2, 2));
}

#[test]
fn bounds_are_omitted_without_valid_monitor_metadata() {
    let clients = r#"[{
        "address":"0x1234",
        "at":[100,100],
        "size":[600,400],
        "monitor":7,
        "class":"foot",
        "title":"Shell"
    }]"#;

    for monitors in [
        br"[]".as_slice(),
        br#"[{"id":7,"x":0,"y":0,"scale":0.0}]"#.as_slice(),
        b"not json".as_slice(),
    ] {
        let windows = on_capture(clients, monitors).unwrap();
        assert!(windows[0].bounds.is_none());
    }
    let windows = without_monitors(clients).unwrap();
    assert!(windows[0].bounds.is_none());
}

#[test]
fn builds_hyprland_055_lua_focus_dispatch() {
    assert_eq!(
        lua_focus_dispatch("address:0x1234abcd"),
        "hl.dsp.focus({ window = \"address:0x1234abcd\" })"
    );
}

#[test]
fn dispatch_rejects_exit_zero_error_output() {
    let output = CommandOutput {
        success: true,
        status: "exit status: 0".to_string(),
        stdout: b"Invalid dispatcher\n".to_vec(),
        stderr: Vec::new(),
    };

    assert!(!dispatch_succeeded(&output));
    assert_eq!(command_detail(&output), "Invalid dispatcher");
}

#[test]
fn dispatch_accepts_ok_output() {
    let output = CommandOutput {
        success: true,
        status: "exit status: 0".to_string(),
        stdout: b"ok\n".to_vec(),
        stderr: Vec::new(),
    };

    assert!(dispatch_succeeded(&output));
}

#[test]
fn selects_wayland_matching_hyprland_instance_before_newer_nonmatch() {
    let older_match = HyprlandInstanceCandidate {
        signature: "match".to_string(),
        wayland_display_matches: true,
        modified: 0,
    };
    let newer_nonmatch = HyprlandInstanceCandidate {
        signature: "nonmatch".to_string(),
        wayland_display_matches: false,
        modified: 10_000_000_000,
    };

    let selected = select_hyprland_instance(&[older_match, newer_nonmatch]).unwrap();

    assert_eq!(selected, "match");
}

#[test]
fn selects_newest_hyprland_instance_when_wayland_match_is_tied() {
    let older = HyprlandInstanceCandidate {
        signature: "older".to_string(),
        wayland_display_matches: false,
        modified: 0,
    };
    let newer = HyprlandInstanceCandidate {
        signature: "newer".to_string(),
        wayland_display_matches: false,
        modified: 10_000_000_000,
    };

    let selected = select_hyprland_instance(&[older, newer]).unwrap();

    assert_eq!(selected, "newer");
}

fn client(floating: Option<bool>) -> HyprlandClient {
    let mut client = clients(
        r#"[{
            "address": "0x1234abcd",
            "at": [965, 48],
            "size": [900, 700],
            "class": "sophia",
            "title": "Sophia"
        }]"#,
    )
    .remove(0);
    client.floating = floating;
    client
}

#[test]
fn reads_the_release_out_of_the_hyprctl_version_banner() {
    let release = parse_release(
        "Hyprland 0.56.2 built from branch v0.56.2 at commit efb5099 clean\nDate: Wed Aug 5\n",
    )
    .expect("the banner names a release");
    assert_eq!((release.major, release.minor), (0, 56));
    assert_eq!(release.printed, "0.56.2");
    assert!(release.drives_lua_dispatchers());

    let tagged = parse_release("Hyprland v0.55.0 built from branch main\n").unwrap();
    assert_eq!(tagged.printed, "0.55.0");
    assert!(tagged.drives_lua_dispatchers());

    let old = parse_release("Hyprland 0.54.1 built from branch main\n").unwrap();
    assert!(!old.drives_lua_dispatchers());

    let development =
        parse_release("Hyprland 0.57.0-3-gabcdef built from branch main").unwrap();
    assert_eq!((development.major, development.minor), (0, 57));

    assert!(parse_release("").is_none());
    assert!(parse_release("Hyprland built from branch main\n").is_none());
}

#[test]
fn formats_lua_window_dispatches() {
    assert_eq!(
        lua_move_dispatch(0x555c37cb3770, [1000, 100]),
        "hl.dsp.window.move({ window = \"address:0x555c37cb3770\", exact = true, x = 1000, y = 100 })"
    );
    assert_eq!(
        lua_resize_dispatch(0x555c37cb3770, [800, 600]),
        "hl.dsp.window.resize({ window = \"address:0x555c37cb3770\", exact = true, x = 800, y = 600 })"
    );
    assert_eq!(
        lua_float_dispatch(0x555c37cb3770, true),
        "hl.dsp.window.float({ window = \"address:0x555c37cb3770\", action = \"set\" })"
    );
    assert_eq!(
        lua_float_dispatch(0x555c37cb3770, false),
        "hl.dsp.window.float({ window = \"address:0x555c37cb3770\", action = \"unset\" })"
    );
}

#[test]
fn a_rejected_lua_dispatch_is_not_a_success() {
    for stdout in [
        "error: ')' expected near 'exact' (dispatch in lua is a shorthand for hl.dispatch(...))\n",
        "hl.dsp.window.move: expected a table, e.g. { direction = \"left\" }\n",
        "unrecognized arguments. Expected one of: direction, x+y(+relative), workspace, into_group, out_of_group\n",
    ] {
        let output = CommandOutput {
        success: true,
        status: "exit status: 0".to_string(),
            stdout: stdout.as_bytes().to_vec(),
            stderr: Vec::new(),
        };
        assert!(!dispatch_succeeded(&output), "{stdout}");
    }
}

#[test]
fn tiled_window_is_refused_naming_the_tool_that_clears_the_refusal() {
    let error = refuse_if_tiled(0x1234abcd, &client(Some(false)), "resize")
        .unwrap_err();

    assert!(error.contains("Window 0x1234abcd is tiled"), "{error}");
    assert!(error.contains("cannot resize it"), "{error}");
    assert!(error.contains("Nothing was dispatched"), "{error}");
    assert!(error.contains("set_window_floating"), "{error}");
}

#[test]
fn floating_or_unknown_windows_are_not_refused() {
    refuse_if_tiled(0x1234abcd, &client(Some(true)), "move").unwrap();
    refuse_if_tiled(0x1234abcd, &client(None), "resize").unwrap();
}

#[test]
fn unmap_inverts_the_screenshot_space_mapping() {
    let layout = Layout::read(r#"[{"id":0,"x":3747,"y":1440,"scale":1.8},{"id":1,"x":5667,"y":0,"scale":2.0}]"#.as_bytes()).unwrap();

    assert_eq!(layout.unmap_point([1934, 2988]), [4714, 1494]);
    assert_eq!(layout.unmap_size([1862, 2248]), [931, 1124]);
}

#[test]
fn parses_hyprctl_cursorpos_and_maps_it_to_screenshot_space() {
    assert_eq!(parse_cursorpos("1234, 567\n"), Some((1234, 567)));
    assert_eq!(parse_cursorpos("-10,0"), Some((-10, 0)));
    assert_eq!(parse_cursorpos("1234"), None);
    assert_eq!(parse_cursorpos("a, b"), None);

    let layout = Layout::read(r#"[{"id":0,"x":3747,"y":1440,"scale":2.0}]"#.as_bytes()).unwrap();
    assert_eq!(layout.map_point([4714, 1494]), (1934, 108));
}

#[test]
fn occluders_are_overlapping_more_recently_focused_windows_on_the_workspace() {
    let clients = clients(
        r#"[
            {"address":"0x1","at":[100,100],"size":[500,400],"workspace":{"id":1},"title":"Target","focusHistoryID":2},
            {"address":"0x2","at":[300,300],"size":[400,400],"workspace":{"id":1},"title":"Above","focusHistoryID":0},
            {"address":"0x3","at":[300,300],"size":[400,400],"workspace":{"id":1},"title":"Below","focusHistoryID":3},
            {"address":"0x4","at":[300,300],"size":[400,400],"workspace":{"id":2},"title":"Elsewhere","focusHistoryID":1},
            {"address":"0x5","at":[700,700],"size":[100,100],"workspace":{"id":1},"title":"Apart","focusHistoryID":1},
            {"address":"0x6","at":[100,100],"size":[50,50],"workspace":{"id":1},"title":"Hidden","hidden":true,"focusHistoryID":1}
        ]"#,
    );

    assert_eq!(
        occluders_from_clients(&clients, 0x1),
        vec![WindowOcclusion {
            window_id: 0x2,
            title: Some("Above".to_string()),
        }]
    );
    assert!(occluders_from_clients(&clients, 0x99).is_empty());
}
fn replied(success: bool, stdout: &str, stderr: &str) -> CommandOutput {
    CommandOutput {
        success,
        status: "exit status: 1".to_string(),
        stdout: stdout.as_bytes().to_vec(),
        stderr: stderr.as_bytes().to_vec(),
    }
}

#[test]
fn the_backend_answers_when_its_listing_is_an_array() {
    let up = probe(&Ok(replied(true, "[{\"address\": \"0x1\"}]", "")));
    assert!(up.ok);
    assert!(up.can_list_windows);
    let object = probe(&Ok(replied(true, "{}", "")));
    assert!(!object.ok);
    let garbage = probe(&Ok(replied(true, "HYPRLAND_INSTANCE_SIGNATURE not set!", "")));
    assert!(!garbage.ok);
    let failed = probe_backend(&Ok(replied(false, "", "no socket\n")));
    assert!(!failed.ok);
    assert!(failed.detail.contains("no socket"), "{}", failed.detail);
    let absent = probe_backend(&Err("hyprctl: not found".to_string()));
    assert!(!absent.ok);
    assert!(absent.detail.contains("not found"), "{}", absent.detail);
}

#[test]
fn a_release_is_known_only_when_the_command_ran() {
    let banner = "Hyprland 0.55.1 built from branch main\n";
    assert_eq!(
        release(&Ok(replied(true, banner, ""))).map(|r| r.printed),
        Some("0.55.1".to_string())
    );
    assert!(release(&Ok(replied(false, banner, ""))).is_none());
    assert!(release(&Err("not found".to_string())).is_none());
}

#[test]
fn addresses_read_back() {
    assert_eq!(parse_hyprland_address("0x559952b6db60"), Ok(0x5599_52b6_db60));
    assert_eq!(window_address(0x5599_52b6_db60), "address:0x559952b6db60");
    assert_eq!(
        parse_hyprland_address("0xzz"),
        Err(
            "failed to parse Hyprland window address 0xzz: invalid digit found in string"
                .to_string()
        )
    );
}

#[test]
fn a_listing_that_failed_is_an_error_with_its_context() {
    let error = list_windows(Err("no socket".to_string())).unwrap_err();
    assert!(error.contains("no socket"), "{error}");
}

#[test]
fn a_workspace_is_focused_by_number_or_as_empty() {
    assert_eq!(
        lua_workspace_focus_dispatch(WorkspaceTarget::Id(5)),
        "hl.dsp.focus({ workspace = 5 })"
    );
    assert_eq!(
        lua_workspace_focus_dispatch(WorkspaceTarget::FirstEmpty),
        "hl.dsp.focus({ workspace = \"empty\" })"
    );
}

#[test]
fn a_geometry_request_ends_when_it_is_met_or_out_of_attempts() {
    let request = GeometryRequest::Move {
        x: 10,
        y: 20,
        target: [965, 48],
    };
    let there = client(Some(true));
    assert!(request.met(&there));
    assert!(matches!(
        request.step(0x1234abcd, &there, 0),
        GeometryStep::Over(Ok(_))
    ));

    let mut elsewhere = client(Some(true));
    elsewhere.at = Some([0, 0]);
    assert!(!request.met(&elsewhere));
    assert!(matches!(
        request.step(0x1234abcd, &elsewhere, 1),
        GeometryStep::LookAgain
    ));
    match request.step(0x1234abcd, &elsewhere, GEOMETRY_VERIFY_ATTEMPTS - 1) {
        GeometryStep::Over(Ok(message)) => assert_eq!(
            message,
            "Requested move to (10, 20); Hyprland reported global position (0, 0)."
        ),
        step => panic!("no attempt is left: {step:?}"),
    }
    match (GeometryRequest::Float { floating: false }).step(
        0x1234abcd,
        &elsewhere,
        GEOMETRY_VERIFY_ATTEMPTS - 1,
    ) {
        GeometryStep::Over(Err(message)) => assert!(
            message.contains("but Hyprland still reports it floating"),
            "{message}"
        ),
        step => panic!("no attempt is left: {step:?}"),
    }
}

#[test]
fn a_tiled_window_is_not_moved_and_a_floating_one_is_dispatched() {
    let request = GeometryRequest::Move {
        x: 10,
        y: 20,
        target: [1000, 100],
    };
    assert!(matches!(
        request.start(0x1234abcd, &client(Some(false))),
        GeometryStart::Refused(_)
    ));
    match request.start(0x1234abcd, &client(Some(true))) {
        GeometryStart::Dispatch(dispatch) => {
            assert_eq!(dispatch, lua_move_dispatch(0x1234abcd, [1000, 100]));
        }
        start => panic!("a floating window can be moved: {start:?}"),
    }
    assert!(matches!(
        GeometryRequest::Float { floating: true }.start(0x1234abcd, &client(Some(true))),
        GeometryStart::AlreadySo(_)
    ));
}

#[test]
fn an_extent_is_positive_on_both_axes() {
    assert!(check_extent(1, 1).is_ok());
    assert!(check_extent(0, 1).is_err());
    assert!(check_extent(1, -1).is_err());
}

#[test]
fn a_view_settles_once_it_is_where_it_was_sent() {
    let at = |id: i32| WorkspaceSummary {
        id,
        name: id.to_string(),
        windows: 0,
    };
    assert!(matches!(
        view_step(WorkspaceTarget::Id(5), &at(4), &at(5), 0),
        ViewStep::Settled
    ));
    assert!(matches!(
        view_step(WorkspaceTarget::Id(5), &at(4), &at(4), 0),
        ViewStep::LookAgain
    ));
}

#[test]
fn a_window_settles_once_it_is_on_the_workspace_it_was_sent_to() {
    let to = WorkspaceTarget::Id(5);
    assert_eq!(window_step(to, Some(4), Some(5), 0), ViewStep::Settled);
    assert_eq!(window_step(to, Some(4), Some(4), 0), ViewStep::LookAgain);
    assert_eq!(window_step(to, Some(4), None, 0), ViewStep::LookAgain);
    let last = GEOMETRY_VERIFY_ATTEMPTS - 1;
    assert_eq!(window_step(to, Some(4), None, last), ViewStep::Settled);
}

#[test]
fn a_view_that_does_not_follow_is_looked_at_once() {
    let at = |id: i32| WorkspaceSummary {
        id,
        name: id.to_string(),
        windows: 1,
    };
    let to = WorkspaceTarget::Id(5);
    assert_eq!(view_after_move(to, false, &at(4), &at(4), 0), ViewStep::Settled);
    assert_eq!(view_after_move(to, true, &at(4), &at(4), 0), ViewStep::LookAgain);
    assert_eq!(view_after_move(to, true, &at(4), &at(5), 0), ViewStep::Settled);
}

#[test]
fn a_window_is_sent_to_a_workspace_by_its_address() {
    assert_eq!(
        lua_window_workspace_dispatch(0x55aa, WorkspaceTarget::Id(5), true),
        format!(
            "hl.dsp.window.move({{ window = \"{}\", workspace = 5, follow = true }})",
            window_address(0x55aa)
        )
    );
    assert_eq!(
        lua_window_workspace_dispatch(0x55aa, WorkspaceTarget::FirstEmpty, false),
        format!(
            "hl.dsp.window.move({{ window = \"{}\", workspace = \"empty\", follow = false }})",
            window_address(0x55aa)
        )
    );
}

#[test]
fn an_instance_lock_names_a_process_and_a_display() {
    assert_eq!(
        parse_instance_lock("4242\nwayland-1\n"),
        Some(("4242".to_string(), Some("wayland-1".to_string())))
    );
    assert_eq!(parse_instance_lock(""), None);
    let display = Some("wayland-1".to_string());
    assert!(display_matches(&display, &display));
    assert!(!display_matches(&display, &Some("wayland-2".to_string())));
}

#[test]
fn replies_are_checked_before_they_are_read() {
    assert!(check_query("clients", &replied(true, "[]", "")).is_ok());
    let error = check_query("clients", &replied(false, "", "no socket")).unwrap_err();
    assert!(error.contains("clients"), "{error}");
    assert!(error.contains("no socket"), "{error}");
    assert!(run_lua_dispatch("hl.dsp.x()", &replied(true, "ok", "")).is_ok());
    let error = run_lua_dispatch("hl.dsp.x()", &replied(true, "nope", "")).unwrap_err();
    assert!(error.contains("hl.dsp.x()"), "{error}");
    assert!(error.contains("nope"), "{error}");
    assert_eq!(cursor_position(&replied(true, "3, 4\n", "")), Ok((3, 4)));
    assert!(cursor_position(&replied(true, "nowhere", "")).is_err());
    assert!(cursor_position(&replied(false, "3, 4", "")).is_err());
}

#[test]
fn a_client_is_found_by_its_address() {
    let clients = [client(None)];
    assert_eq!(query_client(&clients, 0x1234abcd), Ok(0));
    assert!(query_client(&clients, 0x99).is_err());
}
