use computer_use_hyprland::diagnostics::{
    accessibility_report as connected_report, after_set_status, can_build_accessibility_tree,
    capability_map, check_from_backend_probe, command_check, doctor_report, read_write_path_check, readiness_report, release_note,
    setup_accessibility_report,
    setup_step, socket_connect_check, socket_connect_result, user_id,
    windowing_report as diagnose_windowing, wtype_compatible_wayland_desktop,
    ydotool_socket_candidates, ydotool_socket_check, AccessibilityReport, Check, InputReport,
    PlatformReport, PortalReport, SetupStep, SocketOutcome, WindowingReport,
    WINDOWS_AVAILABLE,
};
use computer_use_hyprland::command::CommandOutput;
use computer_use_hyprland::windowing::backends::hyprland::HyprlandRelease;
use computer_use_hyprland::windowing::registry::{hyprland_release, BackendProbe};
use computer_use_hyprland::windowing::target::WINDOW_PERMISSION_HINT;

fn platform_report() -> PlatformReport {
    PlatformReport {
        os: "linux".to_string(),
        arch: "x86_64".to_string(),
        desktop_session: None,
        xdg_session_type: Some("wayland".to_string()),
        xdg_current_desktop: Some("Hyprland".to_string()),
        wayland_display: Some("wayland-0".to_string()),
        display: Some(":0".to_string()),
        xauthority: Some("/run/user/1000/Xauthority".to_string()),
        dbus_session_bus_address: Some("unix:path=/run/user/1000/bus".to_string()),
        xdg_runtime_dir: Some("/run/user/1000".to_string()),
    }
}

fn portal_report(screenshot: Check) -> PortalReport {
    PortalReport {
        desktop_portal: Check::ok("ok"),
        screenshot,
    }
}

fn accessibility_report(
    at_spi_bus: Check,
    toolkit_accessibility: Check,
) -> AccessibilityReport {
    AccessibilityReport {
        at_spi_bus,
        toolkit_accessibility,
        at_spi_enabled: Check::fail("(<false>,)"),
        screen_reader_enabled: Check::fail("(<false>,)"),
        at_spi_connect: Check::ok("connected to the accessibility bus"),
    }
}

fn windowing_report(can_list_windows: bool, can_focus_windows: bool) -> WindowingReport {
    WindowingReport {
        hyprland: if can_list_windows {
            Check::ok("ok")
        } else {
            Check::fail("hyprctl unavailable")
        },
        backends: Vec::new(),
        can_list_windows,
        can_focus_apps: true,
        can_focus_windows,
        note: String::new(),
    }
}

fn input_report(can_send_input: bool) -> InputReport {
    let check = if can_send_input {
        Check::ok("ok")
    } else {
        Check::fail("missing")
    };
    input_report_parts(check.clone(), check.clone(), check.clone(), check)
}

fn input_report_parts(
    ydotool: Check,
    ydotoold: Check,
    ydotool_socket: Check,
    uinput: Check,
) -> InputReport {
    InputReport {
        ydotool,
        ydotoold,
        ydotool_socket,
        uinput,
        wtype: Check::fail("missing wtype"),
    }
}

#[test]
fn accessibility_tree_requires_reachable_at_spi_bus() {
    let report = accessibility_report(Check::fail("permission denied"), Check::ok("true"));

    assert!(!can_build_accessibility_tree(&report));
}

#[test]
fn accessibility_tree_is_ready_when_bus_and_toolkit_are_ready() {
    let report = accessibility_report(
        Check::ok("('unix:path=/run/user/1000/at-spi/bus',)"),
        Check::ok("true"),
    );

    assert!(can_build_accessibility_tree(&report));
}

#[test]
fn capability_map_advertises_only_a_buildable_accessibility_tree() {
    let platform = platform_report();
    let portals = portal_report(Check::fail("missing"));
    let windowing = windowing_report(false, false);
    let input = input_report(false);

    for accessibility in [
        accessibility_report(Check::fail("permission denied"), Check::ok("true")),
        accessibility_report(
            Check::ok("('unix:path=/run/user/1000/at-spi/bus',)"),
            Check::ok("false"),
        ),
    ] {
        let capabilities =
            capability_map(&platform, &portals, &accessibility, &windowing, &input, false);
        assert!(capabilities.accessibility.is_empty());
    }
}

#[test]
fn wayland_diagnostics_advertise_wtype_without_portal_or_ydotool() {
    let mut platform = platform_report();
    platform.xdg_session_type = Some("wayland".to_string());
    platform.xdg_current_desktop = Some("Hyprland".to_string());
    platform.wayland_display = Some("wayland-0".to_string());
    let portals = portal_report(Check::fail("missing"));
    let accessibility = accessibility_report(Check::ok("bus"), Check::ok("true"));
    let windowing = windowing_report(true, true);
    let mut input = input_report(false);
    input.wtype = Check::ok("wtype");

    let capabilities = capability_map(&platform, &portals, &accessibility, &windowing, &input, false);
    let readiness = readiness_report(&platform, &accessibility, &windowing, &input, false);

    assert_eq!(capabilities.input, ["wtype"]);
    assert_eq!(capabilities.preferred.input.as_deref(), Some("wtype"));
    assert!(readiness.can_send_development_input);
}

#[test]
fn wtype_excludes_known_incompatible_wayland_desktops() {
    assert!(wtype_compatible_wayland_desktop(Some("Hyprland")));
    assert!(wtype_compatible_wayland_desktop(Some("sway")));
    assert!(wtype_compatible_wayland_desktop(None));
    assert!(!wtype_compatible_wayland_desktop(Some("GNOME")));
    assert!(!wtype_compatible_wayland_desktop(Some("KDE;Plasma")));
    assert!(!wtype_compatible_wayland_desktop(Some("COSMIC")));
}

#[test]
fn ydotool_carries_input_when_uinput_is_unreadable() {
    let platform = platform_report();
    let portals = portal_report(Check::ok("org.freedesktop.portal.Screenshot"));
    let accessibility = accessibility_report(Check::ok("bus"), Check::ok("true"));
    let windowing = windowing_report(true, true);
    let input = input_report_parts(
        Check::ok("ydotool"),
        Check::ok("ydotoold"),
        Check::ok("connectable"),
        Check::fail("missing uinput"),
    );

    let capabilities = capability_map(&platform, &portals, &accessibility, &windowing, &input, false);

    assert_eq!(capabilities.input, ["ydotool"]);
    assert_eq!(capabilities.preferred.input.as_deref(), Some("ydotool"));
}

#[test]
fn readiness_requires_exact_window_focus_for_targeted_input() {
    let platform = platform_report();
    let accessibility = accessibility_report(Check::ok("bus"), Check::ok("true"));
    let windowing = windowing_report(true, false);
    let input = input_report(true);

    let readiness = readiness_report(&platform, &accessibility, &windowing, &input, false);

    assert!(readiness.can_query_windows);
    assert!(!readiness.can_focus_windows);
    assert!(
        readiness
            .recommended_next_step
            .contains("exact-focus window backend")
    );
    assert!(
        readiness
            .blockers
            .iter()
            .any(|blocker| blocker.contains("Exact window activation"))
    );
}

#[test]
fn readiness_message_mentions_generic_window_targeting() {
    let platform = platform_report();
    let accessibility = accessibility_report(Check::ok("bus"), Check::ok("true"));
    let windowing = windowing_report(true, true);
    let input = input_report(true);

    let readiness = readiness_report(&platform, &accessibility, &windowing, &input, false);

    assert!(readiness.blockers.is_empty());
    assert!(
        readiness
            .recommended_next_step
            .contains("AT-SPI tree support")
    );
    assert!(readiness.recommended_next_step.contains("window targeting"));
    assert!(
        !readiness
            .recommended_next_step
            .contains("GNOME window targeting")
    );
}

#[test]
fn readiness_accepts_connectable_ydotool_socket_without_direct_uinput_access() {
    let platform = platform_report();
    let accessibility = accessibility_report(Check::ok("bus"), Check::ok("true"));
    let windowing = windowing_report(true, true);
    let input = input_report_parts(
        Check::ok("ydotool"),
        Check::ok("ydotoold"),
        Check::ok("connectable: /tmp/.ydotool_socket"),
        Check::fail("/dev/uinput: Permission denied"),
    );

    let readiness = readiness_report(&platform, &accessibility, &windowing, &input, false);

    assert!(readiness.can_send_development_input);
    assert!(readiness.blockers.is_empty());
}

#[test]
fn readiness_uses_connectable_ydotool_socket_when_process_probe_fails() {
    let platform = platform_report();
    let accessibility = accessibility_report(Check::ok("bus"), Check::ok("true"));
    let windowing = windowing_report(true, true);
    let input = input_report_parts(
        Check::ok("ydotool"),
        Check::fail("ydotoold process name not found"),
        Check::ok("connectable: /run/user/1000/.ydotool_socket"),
        Check::fail("/dev/uinput: Permission denied"),
    );
    let portals = portal_report(Check::fail("missing"));

    let capabilities = capability_map(&platform, &portals, &accessibility, &windowing, &input, false);
    let readiness = readiness_report(&platform, &accessibility, &windowing, &input, false);

    assert!(
        capabilities
            .input
            .iter()
            .any(|backend| backend == "ydotool")
    );
    assert!(readiness.can_send_development_input);
}

#[test]
fn wayland_readiness_rejects_pointer_only_uinput_without_keyboard_backend() {
    let platform = platform_report();
    let accessibility = accessibility_report(Check::ok("bus"), Check::ok("true"));
    let windowing = windowing_report(true, true);
    let input = input_report_parts(
        Check::ok("ydotool"),
        Check::fail("ydotoold not running"),
        Check::fail("no connectable ydotool socket"),
        Check::ok("read/write: /dev/uinput"),
    );

    let readiness = readiness_report(&platform, &accessibility, &windowing, &input, false);

    assert!(!readiness.can_send_development_input);
    assert!(
        readiness
            .blockers
            .iter()
            .any(|blocker| blocker.contains("absolute pointer input"))
    );
    assert!(
        readiness
            .recommended_next_step
            .contains("keyboard-capable input backend")
    );
}

#[test]
fn readiness_rejects_inaccessible_ydotool_paths() {
    let platform = platform_report();
    let accessibility = accessibility_report(Check::ok("bus"), Check::ok("true"));
    let windowing = windowing_report(true, true);
    let input = input_report_parts(
        Check::ok("ydotool"),
        Check::ok("ydotoold"),
        Check::fail("/tmp/.ydotool_socket: Permission denied"),
        Check::fail("/dev/uinput: Permission denied"),
    );

    let readiness = readiness_report(&platform, &accessibility, &windowing, &input, false);

    assert!(!readiness.can_send_development_input);
    assert!(
        readiness
            .recommended_next_step
            .contains("Enable a keyboard-capable input backend")
    );
    assert!(
        readiness
            .blockers
            .iter()
            .any(|blocker| blocker.contains("Development keyboard input is unavailable"))
    );
}

#[test]
fn capability_map_rejects_incompatible_ydotool_with_live_daemon() {
    let platform = platform_report();
    let portals = portal_report(Check::fail("missing"));
    let accessibility = accessibility_report(Check::ok("bus"), Check::ok("true"));
    let windowing = windowing_report(true, true);
    let input = input_report_parts(
        Check::fail("unsupported legacy ydotool CLI"),
        Check::ok("ydotoold"),
        Check::ok("connectable socket"),
        Check::fail("/dev/uinput: Permission denied"),
    );

    let capabilities = capability_map(&platform, &portals, &accessibility, &windowing, &input, false);
    let readiness = readiness_report(&platform, &accessibility, &windowing, &input, false);

    assert!(
        !capabilities
            .input
            .iter()
            .any(|backend| backend == "ydotool")
    );
    assert!(!readiness.can_send_development_input);
}

#[test]
fn forcing_ydotool_takes_wtype_away() {
    let platform = platform_report();
    let mut input = input_report(false);
    input.wtype = Check::ok("wtype");
    let accessibility = accessibility_report(Check::ok("bus"), Check::ok("true"));
    let windowing = windowing_report(true, true);

    let free = readiness_report(&platform, &accessibility, &windowing, &input, false);
    let forced = readiness_report(&platform, &accessibility, &windowing, &input, true);

    assert!(free.can_send_development_input);
    assert!(!forced.can_send_development_input);
}

#[test]
fn no_blockers_is_the_same_as_every_part_being_ready() {
    let platform = platform_report();
    let accessibility = accessibility_report(Check::ok("bus"), Check::ok("true"));
    let ready = readiness_report(
        &platform,
        &accessibility,
        &windowing_report(true, true),
        &input_report(true),
        false,
    );
    assert!(ready.blockers.is_empty());
    let stuck = readiness_report(
        &platform,
        &accessibility,
        &windowing_report(false, false),
        &input_report(false),
        false,
    );
    assert!(!stuck.blockers.is_empty());
    assert!(!stuck.can_query_windows);
}

#[test]
fn a_socket_is_connectable_missing_or_says_why_not() {
    let path = "/tmp/.ydotool_socket";
    assert!(socket_connect_result(path, &SocketOutcome::Connected).is_ok());

    let taken = socket_connect_check(path, &SocketOutcome::Connected);
    assert!(taken.ok);
    assert_eq!(taken.detail, "connectable: /tmp/.ydotool_socket");

    let missing = socket_connect_check(path, &SocketOutcome::Missing);
    assert!(!missing.ok);
    assert_eq!(missing.detail, "missing: /tmp/.ydotool_socket");

    let refused = socket_connect_check(
        path,
        &SocketOutcome::Failed("Protocol wrong type for socket (os error 91)".to_string()),
    );
    assert!(!refused.ok);
    assert_eq!(
        refused.detail,
        "/tmp/.ydotool_socket: datagram: Protocol wrong type for socket (os error 91)"
    );
}

#[test]
fn the_first_connectable_socket_wins_and_otherwise_each_says_why_not() {
    let tried = vec![
        ("/a".to_string(), SocketOutcome::Missing),
        ("/b".to_string(), SocketOutcome::Connected),
        ("/c".to_string(), SocketOutcome::Connected),
    ];
    assert_eq!(ydotool_socket_check(&tried).detail, "connectable: /b");

    let none = ydotool_socket_check(&tried[..1]);
    assert!(!none.ok);
    assert_eq!(none.detail, "no connectable ydotool socket (missing: /a)");
}

#[test]
fn socket_candidates_start_with_the_named_one() {
    let candidates = ydotool_socket_candidates(Some("/s"), Some("/run/user/7"), Some("7"));
    assert_eq!(candidates.first().map(String::as_str), Some("/s"));
    assert!(candidates.contains(&"/run/user/7/.ydotool_socket".to_string()));
}

#[test]
fn a_device_is_there_and_opens_or_says_why_not() {
    assert!(read_write_path_check("/dev/uinput", true, None).ok);
    let denied = read_write_path_check("/dev/uinput", true, Some("Permission denied"));
    assert!(!denied.ok);
    assert!(denied.detail.contains("Permission denied"), "{}", denied.detail);
    assert!(!read_write_path_check("/dev/uinput", false, None).ok);
}

fn output(success: bool, stdout: &str, stderr: &str) -> CommandOutput {
    CommandOutput {
        success,
        status: "exit status: 1".to_string(),
        stdout: stdout.as_bytes().to_vec(),
        stderr: stderr.as_bytes().to_vec(),
    }
}

#[test]
fn a_command_is_checked_by_what_it_printed() {
    assert_eq!(command_check(&Ok(output(true, " yes\n", ""))).detail, "yes");
    assert_eq!(command_check(&Ok(output(true, "", ""))).detail, "ok");
    let failed = command_check(&Ok(output(false, "", "no bus\n")));
    assert!(!failed.ok);
    assert_eq!(failed.detail, "no bus");
    assert_eq!(command_check(&Err("not found".to_string())).detail, "not found");
    assert_eq!(user_id(&Ok(output(true, "1000\n", ""))).as_deref(), Some("1000"));
    assert_eq!(user_id(&Err("not found".to_string())), None);
}

#[test]
fn setting_up_stops_at_the_first_switch_that_works() {
    let ready = accessibility_report(Check::ok("bus"), Check::ok("true"));
    assert!(matches!(setup_step(&ready), SetupStep::Settled(check) if check.ok));
    let off = accessibility_report(Check::ok("bus"), Check::ok("false"));
    assert!(matches!(setup_step(&off), SetupStep::SetStatus));
    assert!(matches!(
        after_set_status(Check::ok("set")),
        SetupStep::Settled(check) if check.detail == "set"
    ));
    assert!(matches!(
        after_set_status(Check::fail("no")),
        SetupStep::SetToolkit
    ));
}

#[test]
fn setting_up_says_whether_it_changed_anything() {
    let doctor = |accessibility: AccessibilityReport| {
        doctor_report(
            platform_report(),
            portal_report(Check::ok("ok")),
            accessibility,
            windowing_report(true, true),
            input_report(true),
            false,
        )
    };
    let off = || accessibility_report(Check::ok("bus"), Check::ok("false"));
    let on = || accessibility_report(Check::ok("bus"), Check::ok("true"));

    let changed = setup_accessibility_report(doctor(off()), Check::ok("set"), doctor(on()));
    assert!(changed.changed_accessibility);
    assert!(changed.requires_target_app_restart);
    let same = setup_accessibility_report(doctor(on()), Check::ok("set"), doctor(on()));
    assert!(!same.changed_accessibility);
    assert_eq!(same.message, "AT-SPI accessibility is ready.");
    let stuck = setup_accessibility_report(doctor(off()), Check::fail("no"), doctor(off()));
    assert!(stuck.message.starts_with("Could not enable AT-SPI accessibility"));
}

#[test]
fn a_probe_becomes_a_check() {
    let probe = BackendProbe {
        id: "hyprland",
        ok: true,
        can_list_windows: true,
        can_focus_apps: true,
        can_focus_windows: true,
        detail: "fine".to_string(),
    };
    let check = check_from_backend_probe(&probe);
    assert!(check.ok);
    assert_eq!(check.detail, "fine");
}

fn hyprland_probe(ok: bool) -> BackendProbe {
    BackendProbe {
        id: "hyprland",
        ok,
        can_list_windows: ok,
        can_focus_apps: ok,
        can_focus_windows: ok,
        detail: "hyprctl clients -j".to_string(),
    }
}

#[test]
fn the_doctor_names_the_release_it_found() {
    let release = hyprland_release(&Ok(CommandOutput {
        success: true,
        status: "exit status: 0".to_string(),
        stdout: b"Hyprland 0.56.2 built from branch main".to_vec(),
        stderr: Vec::new(),
    }));
    let report = diagnose_windowing(&[hyprland_probe(true)], release.as_ref());
    assert!(report.hyprland.ok);
    assert_eq!(report.hyprland.detail, "hyprctl clients -j");
    assert_eq!(report.backends.len(), 1);
    assert_eq!(report.backends[0].0, "hyprland");
    assert!(report.can_list_windows && report.can_focus_apps && report.can_focus_windows);
    assert_eq!(
        report.note,
        format!("{WINDOWS_AVAILABLE} Hyprland 0.56.2 is running.")
    );
}

#[test]
fn the_doctor_says_when_the_release_is_too_old() {
    let old = HyprlandRelease {
        major: 0,
        minor: 54,
        printed: "0.54.3".to_string(),
    };
    let report = diagnose_windowing(&[hyprland_probe(false)], Some(&old));
    assert!(!report.can_list_windows);
    assert_eq!(report.note, format!("{WINDOW_PERMISSION_HINT} {}", release_note(&old)));
    assert_eq!(
        release_note(&old),
        "Hyprland 0.54.3 is running, and it is too old: every window action is dispatched in the Lua form, which 0.55 introduced."
    );
}

#[test]
fn no_probe_is_a_failed_check() {
    let report = diagnose_windowing(&[], None);
    assert!(!report.hyprland.ok);
    assert_eq!(report.hyprland.detail, "backend probe did not run");
    assert_eq!(report.note, WINDOW_PERMISSION_HINT);
}

#[test]
fn a_connection_that_fails_is_told_with_its_whole_chain() {
    let on = || Check::ok("true");
    let report = |connection: Result<(), Vec<String>>| {
        doctor_report(
            platform_report(),
            portal_report(Check::ok("ok")),
            connected_report(on(), on(), on(), on(), &connection),
            windowing_report(true, true),
            input_report(true),
            false,
        )
    };
    let failed = report(Err(vec![
        "failed to connect to the AT-SPI bus".to_string(),
        "interface query refused".to_string(),
        "permission denied".to_string(),
    ]));
    assert!(!failed.accessibility.at_spi_connect.ok);
    assert_eq!(
        failed.accessibility.at_spi_connect.detail,
        "failed to connect to the AT-SPI bus: interface query refused: permission denied"
    );
    assert!(failed.accessibility.at_spi_enabled.ok);
    assert!(report(Ok(())).accessibility.at_spi_connect.ok);
}
