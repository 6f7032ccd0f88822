use computer_use_hyprland::environment::{
    bus_socket, command_path_additions, dbus_session_address, desktop_env_hydration_updates,
    desktop_env_is_complete, desktop_env_keys, env_var, hydrate_session_bus_env, next_ancestor,
    parse_environ,
    parse_line_environment, parse_parent_pid, paths_agree, process_env_has_graphical_display,
    value_of, xdg_runtime_dir, ANCESTORS_ASKED,
};

#[test]
fn parses_parent_pid_from_proc_status() {
    let status = "Name:\ttest\nPid:\t42\nPPid:\t7\n";

    assert_eq!(parse_parent_pid(status), Some(7));
}

#[test]
fn parses_nul_separated_process_environment() {
    let environment = parse_environ(
        b"DISPLAY=:0\0WAYLAND_DISPLAY=wayland-0\0EMPTY=\0NO_EQUALS\0XDG_SESSION_TYPE=wayland\0",
    );

    assert_eq!(value_of(&environment, "DISPLAY"), Some(":0"));
    assert_eq!(
        value_of(&environment, "WAYLAND_DISPLAY"),
        Some("wayland-0")
    );
    assert_eq!(value_of(&environment, "EMPTY"), Some(""));
    assert!(value_of(&environment, "NO_EQUALS").is_none());
}

#[test]
fn a_path_that_already_carries_every_candidate_is_not_rewritten() {
    let current = ["/usr/local/bin", "/usr/bin", "/bin"].map(String::from);
    let candidates = ["/usr/bin", "/bin"].map(String::from);

    assert!(command_path_additions(&current, &candidates).is_empty());
}

#[test]
fn only_the_missing_candidates_are_added_in_the_order_given() {
    let current = ["/usr/bin"].map(String::from);
    let candidates = ["/run/current-system/sw/bin", "/usr/bin", "/bin"].map(String::from);

    assert_eq!(
        command_path_additions(&current, &candidates),
        ["/run/current-system/sw/bin", "/bin"].map(String::from)
    );
}

#[test]
fn an_empty_path_takes_every_candidate() {
    let candidates = ["/usr/bin", "/bin"].map(String::from);

    assert_eq!(command_path_additions(&[], &candidates), candidates);
}

#[test]
fn desktop_env_hydration_includes_xauthority() {
    assert!(desktop_env_keys().contains(&"XAUTHORITY".to_string()));
}

#[test]
fn desktop_env_hydration_preserves_explicit_native_x11() {
    let current_env = Vec::from([
        ("DISPLAY".to_string(), ":90".to_string()),
        ("XDG_SESSION_TYPE".to_string(), "x11".to_string()),
    ]);
    let host_env = Vec::from([
        ("WAYLAND_DISPLAY".to_string(), "wayland-0".to_string()),
        (
            "XDG_CURRENT_DESKTOP".to_string(),
            "ubuntu:GNOME".to_string(),
        ),
    ]);

    let updates = desktop_env_hydration_updates(&current_env, &host_env);

    assert!(!updates.iter().any(|(key, _)| key == "WAYLAND_DISPLAY"));
    assert!(
        updates
            .iter()
            .any(|(key, value)| { key == "XDG_CURRENT_DESKTOP" && value == "ubuntu:GNOME" })
    );
}

#[test]
fn desktop_env_hydration_still_imports_wayland_for_incomplete_sessions() {
    let current_env = Vec::new();
    let host_env = Vec::from([("WAYLAND_DISPLAY".to_string(), "wayland-0".to_string())]);

    let updates = desktop_env_hydration_updates(&current_env, &host_env);

    assert!(
        updates
            .iter()
            .any(|(key, value)| key == "WAYLAND_DISPLAY" && value == "wayland-0")
    );
}

#[test]
fn graphical_process_env_requires_display() {
    let with_display = Vec::from([("DISPLAY".to_string(), ":0".to_string())]);
    let with_wayland =
        Vec::from([("WAYLAND_DISPLAY".to_string(), "wayland-0".to_string())]);
    let without_display = Vec::from([("XAUTHORITY".to_string(), "/tmp/xauth".to_string())]);

    assert!(process_env_has_graphical_display(&with_display));
    assert!(process_env_has_graphical_display(&with_wayland));
    assert!(!process_env_has_graphical_display(&without_display));
}

#[test]
fn parses_systemd_show_environment_output() {
    let environment = parse_line_environment(
        b"DISPLAY=:0\nHYPRLAND_INSTANCE_SIGNATURE=abc\nNO_EQUALS\nYDOTOOL_SOCKET=/run/ydotoold/socket\n",
    );

    assert_eq!(value_of(&environment, "DISPLAY"), Some(":0"));
    assert_eq!(
        value_of(&environment, "HYPRLAND_INSTANCE_SIGNATURE"),
        Some("abc")
    );
    assert_eq!(
        value_of(&environment, "YDOTOOL_SOCKET"),
        Some("/run/ydotoold/socket")
    );
    assert!(value_of(&environment, "NO_EQUALS").is_none());
}


#[test]
fn hydration_keeps_what_is_set() {
    let current_env = Vec::from([("DISPLAY".to_string(), ":1".to_string())]);
    let source_env = Vec::from([
        ("DISPLAY".to_string(), ":0".to_string()),
        ("XAUTHORITY".to_string(), "/tmp/xauth".to_string()),
    ]);

    let updates = desktop_env_hydration_updates(&current_env, &source_env);

    assert_eq!(
        updates,
        vec![("XAUTHORITY".to_string(), "/tmp/xauth".to_string())]
    );
    assert!(!desktop_env_is_complete(&current_env));
}

#[test]
fn ancestors_are_asked_up_to_a_limit_and_not_past_the_first_process() {
    assert_eq!(next_ancestor(0, Some(77)), Some(77));
    assert_eq!(next_ancestor(0, Some(1)), None);
    assert_eq!(next_ancestor(0, None), None);
    assert_eq!(next_ancestor(ANCESTORS_ASKED, Some(77)), None);
}

#[test]
fn paths_are_compared_by_their_parts() {
    assert!(paths_agree("/usr/bin", "/usr/bin/"));
    assert!(paths_agree("/usr//bin", "/usr/bin"));
    assert!(!paths_agree("/usr/bin", "usr/bin"));
    assert!(!paths_agree("/usr/bin", "/bin"));
}

#[test]
fn an_empty_variable_counts_as_unset() {
    assert_eq!(env_var(Some(String::new())), None);
    assert_eq!(env_var(None), None);
    assert_eq!(env_var(Some(":0".to_string())), Some(":0".to_string()));
}

#[test]
fn the_session_bus_is_named_or_found_in_the_runtime_directory() {
    assert_eq!(
        xdg_runtime_dir(None, Some("1000")).as_deref(),
        Some("/run/user/1000")
    );
    assert_eq!(xdg_runtime_dir(Some("/r"), Some("1000")).as_deref(), Some("/r"));
    assert_eq!(bus_socket("/run/user/1000"), "/run/user/1000/bus");
    assert_eq!(
        dbus_session_address(None, Some("/run/user/1000"), true).as_deref(),
        Some("unix:path=/run/user/1000/bus")
    );
    assert_eq!(dbus_session_address(None, Some("/run/user/1000"), false), None);
    assert_eq!(
        dbus_session_address(Some("unix:path=/x"), None, false).as_deref(),
        Some("unix:path=/x")
    );
}

#[test]
fn environments_are_asked_in_order_and_the_first_that_knows_wins() {
    let entry = |name: &str, value: &str| (name.to_string(), value.to_string());
    let current = vec![entry("DISPLAY", ":1")];
    let sources = vec![
        vec![entry("XAUTHORITY", "/tmp/a"), entry("DISPLAY", ":0")],
        vec![entry("XAUTHORITY", "/tmp/b"), entry("WAYLAND_DISPLAY", "wayland-0")],
    ];

    let updates = hydrate_session_bus_env(&current, &sources);

    assert_eq!(value_of(&updates, "XAUTHORITY"), Some("/tmp/a"));
    assert_eq!(value_of(&updates, "WAYLAND_DISPLAY"), Some("wayland-0"));
    assert_eq!(value_of(&updates, "DISPLAY"), None);
    assert_eq!(updates.len(), 2);
}
