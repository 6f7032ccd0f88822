use computer_use_hyprland::terminal::{
    enrich_terminal_windows, parse_stat, pty_name, terminal_context, ProcessEntry, ProcessStat,
    TerminalProcess, TerminalWindowContext,
};
use computer_use_hyprland::windowing::backends::hyprland::{
    windows_from_hyprland_clients, HyprlandClient, HyprlandWorkspace, HYPRLAND_BACKEND,
};
use computer_use_hyprland::windowing::target::{
    resolve_window_target, window_permission_hint, WINDOW_PERMISSION_HINT,
};
use computer_use_hyprland::windowing::types::{WindowBounds, WindowInfo, WindowTarget};

/// The clients a `hyprctl clients -j` listing holds.
fn clients(json: &str) -> Vec<HyprlandClient> {
    let listing: serde_json::Value = serde_json::from_str(json).unwrap();
    listing.as_array().unwrap().iter().map(client_of).collect()
}

fn number<T: TryFrom<i64>>(value: &serde_json::Value) -> Option<T> {
    value.as_i64().and_then(|n| T::try_from(n).ok())
}

fn pair_of<T: TryFrom<i64>>(value: &serde_json::Value) -> Option<[T; 2]> {
    Some([number(value.get(0)?)?, number(value.get(1)?)?])
}

fn text(value: &serde_json::Value) -> Option<String> {
    value.as_str().map(str::to_string)
}

fn client_of(value: &serde_json::Value) -> HyprlandClient {
    HyprlandClient {
        address: value["address"].as_str().unwrap().to_string(),
        mapped: value["mapped"].as_bool(),
        hidden: value["hidden"].as_bool(),
        at: pair_of(&value["at"]),
        size: pair_of(&value["size"]),
        floating: value["floating"].as_bool(),
        monitor: number(&value["monitor"]),
        workspace: value.get("workspace").map(|workspace| HyprlandWorkspace {
            id: number(&workspace["id"]),
        }),
        class_name: text(&value["class"]),
        title: text(&value["title"]),
        pid: value["pid"].as_i64(),
        xwayland: value["xwayland"].as_bool(),
        focus_history_id: number(&value["focusHistoryID"]),
    }
}

fn window(window_id: u64, title: &str, app_id: &str, wm_class: &str) -> WindowInfo {
    WindowInfo {
        window_id,
        title: Some(title.to_string()),
        app_id: Some(app_id.to_string()),
        wm_class: Some(wm_class.to_string()),
        // A fixture pid, derived from the id so two fake windows differ.
        // Some of these ids are deliberately larger than a u32, which is
        // what the rounding tests below are about, so this truncates on
        // purpose.
        pid: Some((window_id as u32).wrapping_add(1000)),
        bounds: Some(WindowBounds {
            x: None,
            y: None,
            width: 800,
            height: 600,
        }),
        workspace: None,
        focused: false,
        hidden: false,
        client_type: Some("wayland".to_string()),
        backend: HYPRLAND_BACKEND.to_string(),
        terminal: None,
    }
}

fn terminal_window(
    window_id: u64,
    title: &str,
    tty: &str,
    active_pid: u32,
    active_command: &str,
    active_cwd: &str,
) -> WindowInfo {
    let mut window = window(
        window_id,
        title,
        "com.mitchellh.ghostty.desktop",
        "com.mitchellh.ghostty",
    );
    window.terminal = Some(TerminalWindowContext {
        tty: tty.to_string(),
        root_process: TerminalProcess {
            pid: active_pid - 1,
            command_name: "zsh".to_string(),
            command_line: "zsh --login".to_string(),
            cwd: Some("/home/avifenesh".to_string()),
        },
        active_process: Some(TerminalProcess {
            pid: active_pid,
            command_name: active_command.to_string(),
            command_line: format!("{active_command} resume 123"),
            cwd: Some(active_cwd.to_string()),
        }),
        process_count: 2,
        confidence: "heuristic".to_string(),
        match_reason: "test".to_string(),
    });
    window
}

#[test]
fn target_reports_when_any_selector_is_present() {
    assert!(!WindowTarget::default().has_target());
    assert!(
        WindowTarget {
            title: Some("Ghostty".to_string()),
            ..Default::default()
        }
        .has_target()
    );
    assert!(
        WindowTarget {
            tty: Some("/dev/pts/1".to_string()),
            ..Default::default()
        }
        .has_target()
    );
}

#[test]
fn title_pid_and_window_id_targets_require_exact_focus() {
    assert!(
        WindowTarget {
            title: Some("Ghostty".to_string()),
            ..Default::default()
        }
        .requires_exact_focus()
    );
    assert!(
        WindowTarget {
            pid: Some(123),
            ..Default::default()
        }
        .requires_exact_focus()
    );
    assert!(
        WindowTarget {
            window_id: Some(123),
            ..Default::default()
        }
        .requires_exact_focus()
    );
    assert!(
        WindowTarget {
            terminal_command: Some("codex".to_string()),
            ..Default::default()
        }
        .requires_exact_focus()
    );
    assert!(
        !WindowTarget {
            app_id: Some("com.mitchellh.ghostty.desktop".to_string()),
            ..Default::default()
        }
        .requires_exact_focus()
    );
}

#[test]
fn resolves_target_by_window_id_first() {
    let windows = vec![
        window(1, "Codex", "codex.desktop", "Codex"),
        window(2, "Ghostty", "com.mitchellh.ghostty.desktop", "Ghostty"),
    ];

    let matched = resolve_window_target(
        &windows,
        &WindowTarget {
            window_id: Some(2),
            title: Some("Codex".to_string()),
            ..Default::default()
        },
    )
    .unwrap();

    assert_eq!(matched.window_id, 2);
}

#[test]
fn resolves_large_window_id_after_json_number_rounding() {
    let exact_window_id = 7_511_476_032_840_641_491;
    let rounded_window_id = 7_511_476_032_840_642_000;
    assert_ne!(exact_window_id, rounded_window_id);
    assert_eq!(exact_window_id as f64, rounded_window_id as f64);

    let windows = vec![window(
        exact_window_id,
        "Untitled — Kate",
        "org.kde.kate",
        "org.kde.kate",
    )];

    let matched = resolve_window_target(
        &windows,
        &WindowTarget {
            window_id: Some(rounded_window_id),
            ..Default::default()
        },
    )
    .unwrap();

    assert_eq!(matched.window_id, exact_window_id);
}

#[test]
fn rounded_window_id_can_be_disambiguated_by_title() {
    let first_window_id = 7_511_476_032_840_641_491;
    let second_window_id = 7_511_476_032_840_641_999;
    let rounded_window_id = 7_511_476_032_840_642_000;
    assert_eq!(first_window_id as f64, rounded_window_id as f64);
    assert_eq!(second_window_id as f64, rounded_window_id as f64);

    let windows = vec![
        window(
            first_window_id,
            "First - Kate",
            "org.kde.kate",
            "org.kde.kate",
        ),
        window(
            second_window_id,
            "Second - Kate",
            "org.kde.kate",
            "org.kde.kate",
        ),
    ];

    let matched = resolve_window_target(
        &windows,
        &WindowTarget {
            window_id: Some(rounded_window_id),
            title: Some("Second".to_string()),
            ..Default::default()
        },
    )
    .unwrap();

    assert_eq!(matched.window_id, second_window_id);
}

#[test]
fn pid_target_reports_ambiguous_matches() {
    let mut first = window(1, "Ghostty One", "com.mitchellh.ghostty.desktop", "Ghostty");
    let mut second = window(2, "Ghostty Two", "com.mitchellh.ghostty.desktop", "Ghostty");
    first.pid = Some(300);
    second.pid = Some(300);

    let error = resolve_window_target(
        &[first, second],
        &WindowTarget {
            pid: Some(300),
            ..Default::default()
        },
    )
    .unwrap_err();

    assert!(error.contains("pid 300 matched multiple windows"));
}

#[test]
fn resolves_target_by_title_substring_case_insensitive() {
    let windows = vec![window(
        2,
        "avifenesh@host: ~/projects/codex",
        "com.mitchellh.ghostty.desktop",
        "Ghostty",
    )];

    let matched = resolve_window_target(
        &windows,
        &WindowTarget {
            title: Some("PROJECTS/CODEX".to_string()),
            ..Default::default()
        },
    )
    .unwrap();

    assert_eq!(matched.window_id, 2);
}

#[test]
fn resolves_terminal_target_by_tty() {
    let windows = vec![
        terminal_window(1, "Shell", "/dev/pts/0", 101, "shell", "/tmp"),
        terminal_window(2, "Codex", "/dev/pts/1", 201, "codex", "/home/avifenesh"),
    ];

    let matched = resolve_window_target(
        &windows,
        &WindowTarget {
            tty: Some("pts/1".to_string()),
            ..Default::default()
        },
    )
    .unwrap();

    assert_eq!(matched.window_id, 2);
}

#[test]
fn resolves_terminal_target_by_active_command() {
    let windows = vec![
        terminal_window(1, "Shell", "/dev/pts/0", 101, "shell", "/tmp"),
        terminal_window(2, "Codex", "/dev/pts/1", 201, "codex", "/home/avifenesh"),
    ];

    let matched = resolve_window_target(
        &windows,
        &WindowTarget {
            terminal_command: Some("codex resume".to_string()),
            ..Default::default()
        },
    )
    .unwrap();

    assert_eq!(matched.window_id, 2);
}

#[test]
fn resolves_terminal_target_by_cwd_suffix() {
    let windows = vec![
        terminal_window(1, "Home", "/dev/pts/0", 101, "zsh", "/home/avifenesh"),
        terminal_window(
            2,
            "Project",
            "/dev/pts/1",
            201,
            "codex",
            "/home/avifenesh/projects/codex-desktop-linux",
        ),
    ];

    let matched = resolve_window_target(
        &windows,
        &WindowTarget {
            terminal_cwd: Some("projects/codex-desktop-linux".to_string()),
            ..Default::default()
        },
    )
    .unwrap();

    assert_eq!(matched.window_id, 2);
}

#[test]
fn terminal_cwd_does_not_match_arbitrary_substrings() {
    let windows = vec![terminal_window(
        1,
        "Project",
        "/dev/pts/1",
        201,
        "codex",
        "/home/avifenesh/projects/codex-desktop-linux",
    )];

    let error = resolve_window_target(
        &windows,
        &WindowTarget {
            terminal_cwd: Some("fenesh/proj".to_string()),
            ..Default::default()
        },
    )
    .unwrap_err();

    assert!(error.contains("No window matched terminal target"));
}

#[test]
fn terminal_target_reports_ambiguous_matches() {
    let windows = vec![
        terminal_window(1, "One", "/dev/pts/0", 101, "zsh", "/home/avifenesh"),
        terminal_window(2, "Two", "/dev/pts/1", 201, "zsh", "/home/avifenesh"),
    ];

    let error = resolve_window_target(
        &windows,
        &WindowTarget {
            terminal_command: Some("zsh".to_string()),
            ..Default::default()
        },
    )
    .unwrap_err();

    assert!(error.contains("matched multiple windows"));
}

#[test]
fn maps_access_denied_errors_to_permission_hint() {
    let hint = window_permission_hint(
        "GDBus.Error:org.freedesktop.DBus.Error.AccessDenied: GetWindows is not allowed",
    );

    assert_eq!(hint.as_deref(), Some(WINDOW_PERMISSION_HINT));
}

#[test]
fn parses_hyprland_clients_as_window_info() {
    let clients_json = r#"[
      {
        "address": "0x559952b6db60",
        "mapped": true,
        "hidden": false,
        "at": [10, 48],
        "size": [1900, 1022],
        "workspace": {"id": 2, "name": "2"},
        "class": "brave-browser",
        "title": "Repo - Brave",
        "pid": 24134,
        "xwayland": false,
        "focusHistoryID": 1
      },
      {
        "address": "0x559952be43d0",
        "mapped": true,
        "hidden": false,
        "at": [10, 48],
        "size": [1900, 1022],
        "workspace": {"id": 1, "name": "1"},
        "class": "codex-desktop",
        "title": "Codex",
        "pid": 68986,
        "xwayland": false,
        "focusHistoryID": 0
      },
      {
        "address": "0x559952c99aa0",
        "mapped": true,
        "hidden": false,
        "at": [0, 0],
        "size": [400, 300],
        "workspace": {"id": 3, "name": "3"},
        "class": "transient",
        "title": "Transient",
        "pid": -1,
        "xwayland": false,
        "focusHistoryID": 2
      }
    ]"#;

    let windows = windows_from_hyprland_clients(&clients(clients_json), |_| None).unwrap();

    assert_eq!(windows.len(), 3);
    assert_eq!(windows[0].window_id, 0x559952b6db60);
    assert_eq!(windows[0].app_id.as_deref(), Some("brave-browser"));
    assert_eq!(windows[0].wm_class.as_deref(), Some("brave-browser"));
    assert_eq!(windows[0].title.as_deref(), Some("Repo - Brave"));
    assert_eq!(windows[0].pid, Some(24134));
    assert_eq!(windows[0].bounds.as_ref().unwrap().x, Some(10));
    assert_eq!(windows[0].bounds.as_ref().unwrap().height, 1022);
    assert_eq!(windows[0].workspace, Some(2));
    assert!(!windows[0].focused);
    assert_eq!(windows[0].client_type.as_deref(), Some("wayland"));
    assert_eq!(windows[0].backend, HYPRLAND_BACKEND);
    assert!(windows[1].focused);
    assert_eq!(windows[2].pid, None);
}

fn process(pid: u32, parent: u32, session: u32, tty: Option<&str>, name: &str) -> ProcessEntry {
    ProcessEntry {
        process: TerminalProcess {
            pid,
            command_name: name.to_string(),
            command_line: format!("{name} --login"),
            cwd: Some(format!("/home/{name}")),
        },
        parent,
        session,
        tty: tty.map(str::to_string),
        foreground: tty.map(|_| 12),
    }
}

#[test]
fn a_terminal_window_carries_the_shell_its_process_runs() {
    let pts = Some("/dev/pts/3");
    let processes = [
        process(10, 1, 1, None, "foot"),
        process(11, 10, 11, pts, "zsh"),
        process(12, 11, 11, pts, "vim"),
        process(13, 10, 1, None, "helper"),
        process(20, 1, 20, Some("/dev/pts/4"), "other"),
    ];
    let context = terminal_context(10, &processes).expect("one shell runs in it");
    assert_eq!(context.tty, "/dev/pts/3");
    assert_eq!(context.root_process.pid, 11);
    assert_eq!(context.active_process.map(|p| p.pid), Some(12));
    assert_eq!(context.process_count, 2);
    assert_eq!(context.confidence, "heuristic");
    assert_eq!(terminal_context(13, &processes), None);
}

#[test]
fn a_process_that_runs_two_shells_names_neither() {
    let processes = [
        process(11, 10, 11, Some("/dev/pts/3"), "zsh"),
        process(12, 10, 12, Some("/dev/pts/4"), "zsh"),
    ];
    assert_eq!(terminal_context(10, &processes), None);
}

#[test]
fn listed_windows_carry_what_runs_in_them() {
    let processes = [process(11, 10, 11, Some("/dev/pts/3"), "zsh")];
    let listing = r#"[
      {"address": "0x2", "pid": 10, "title": "Shell"},
      {"address": "0x1", "pid": 30, "title": "Browser"}
    ]"#;
    let windows = windows_from_hyprland_clients(&clients(listing), |window| {
        terminal_context(window.pid?, &processes)
    })
    .unwrap();
    assert_eq!(windows[0].terminal, None);
    let target = WindowTarget {
        tty: Some("pts/3".to_string()),
        ..Default::default()
    };
    assert_eq!(resolve_window_target(&windows, &target).unwrap().window_id, 2);
    let by_cwd = WindowTarget {
        terminal_cwd: Some("/home/zsh".to_string()),
        ..Default::default()
    };
    assert_eq!(resolve_window_target(&windows, &by_cwd).unwrap().window_id, 2);
}

#[test]
fn enriching_changes_nothing_but_the_terminal() {
    let context = terminal_context(10, &[process(11, 10, 11, Some("/dev/pts/3"), "zsh")]);
    let mut windows = vec![window(1, "a", "a", "a"), window(2, "b", "b", "b")];
    enrich_terminal_windows(&mut windows, vec![None, context.clone()]);
    assert_eq!(windows[0].terminal, None);
    assert_eq!(windows[1].terminal, context);
    assert_eq!(windows[1].title.as_deref(), Some("b"));
    assert_eq!(windows[1].window_id, 2);
}

#[test]
fn a_stat_file_is_read_behind_its_name() {
    assert_eq!(
        parse_stat("12 (a) b) S 11 12 11 34819 12 4194304 1 2"),
        Some(ProcessStat {
            parent: 11,
            session: 11,
            terminal: 34819,
            foreground: Some(12),
        })
    );
    assert_eq!(
        parse_stat("2 (kthreadd) S 0 0 0 0 -1 2129984").map(|stat| stat.foreground),
        Some(None)
    );
    assert_eq!(parse_stat("2 (short) S 0"), None);
    assert_eq!(pty_name(34819).as_deref(), Some("/dev/pts/3"));
    assert_eq!(pty_name(0x10_8801).as_deref(), Some("/dev/pts/257"));
    assert_eq!(pty_name(0), None);
    assert_eq!(pty_name(1025), None);
}
