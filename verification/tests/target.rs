use computer_use_hyprland::windowing::target::{
    focus_result, focus_step, focus_window_target, focused_window, resolve_window_target,
    start_focus, window_id_matches_json_number, FocusReply, FocusReport, FocusStep, FocusTask,
    FOCUS_VERIFY_DELAY_MS, FOCUS_VERIFY_TIMEOUT_MS, NO_TARGET,
};
use computer_use_hyprland::windowing::types::{WindowInfo, WindowTarget};

fn window(window_id: u64, title: &str, app_id: &str) -> WindowInfo {
    WindowInfo {
        window_id,
        title: Some(title.to_string()),
        app_id: Some(app_id.to_string()),
        wm_class: Some(app_id.to_string()),
        pid: Some(u32::try_from(window_id).unwrap_or(1)),
        bounds: None,
        workspace: None,
        focused: false,
        hidden: false,
        client_type: None,
        backend: "test".to_string(),
        terminal: None,
    }
}

fn title_target(title: &str) -> WindowTarget {
    WindowTarget {
        title: Some(title.to_string()),
        ..WindowTarget::default()
    }
}

#[test]
fn an_exact_title_wins_over_a_window_that_merely_contains_it() {
    let windows = vec![
        window(1, "sophia", "jetbrains-rustrover"),
        window(2, "Sophia", "sophia-desktop"),
    ];

    let resolved = resolve_window_target(&windows, &title_target("Sophia")).unwrap();

    assert_eq!(resolved.window_id, 2);
}

#[test]
fn two_titles_that_differ_only_by_case_refuse_the_ambiguous_one() {
    let windows = vec![
        window(1, "sophia", "jetbrains-rustrover"),
        window(2, "Sophia", "sophia-desktop"),
    ];

    let error = resolve_window_target(&windows, &title_target("SOPHIA"))
        .expect_err("neither title is the one that was asked for");

    assert!(error.contains("window_id 1"), "{error}");
    assert!(error.contains("window_id 2"), "{error}");
}

#[test]
fn a_title_matching_two_windows_refuses_and_names_them() {
    let windows = vec![
        window(1, "sophia – src/main.rs", "jetbrains-rustrover"),
        window(2, "sophia desktop", "sophia-desktop"),
    ];

    let error = resolve_window_target(&windows, &title_target("sophia"))
        .expect_err("an ambiguous title must not pick one silently");

    assert!(error.contains("window_id 1"), "{error}");
    assert!(error.contains("window_id 2"), "{error}");
    assert!(error.contains("jetbrains-rustrover"), "{error}");
}

#[test]
fn two_windows_of_one_app_refuse_an_app_id_selector() {
    let windows = vec![
        window(1, "left terminal", "com.mitchellh.ghostty"),
        window(2, "right terminal", "com.mitchellh.ghostty"),
    ];
    let target = WindowTarget {
        app_id: Some("com.mitchellh.ghostty".to_string()),
        ..WindowTarget::default()
    };

    let error = resolve_window_target(&windows, &target)
        .expect_err("two windows of one app must not resolve to the first");

    assert!(error.contains("app_id com.mitchellh.ghostty"), "{error}");
    assert!(error.contains("window_id"), "{error}");
}

#[test]
fn a_title_that_matches_one_window_still_resolves() {
    let windows = vec![
        window(1, "sophia", "jetbrains-rustrover"),
        window(2, "Aprenda Rust", "google-chrome"),
    ];

    let resolved = resolve_window_target(&windows, &title_target("rust")).unwrap();

    assert_eq!(resolved.window_id, 2);
}

#[test]
fn focus_verification_allows_workspace_transition_latency() {
    assert!(FOCUS_VERIFY_TIMEOUT_MS >= 1000);
}

#[test]
fn slow_focus_query_cannot_exceed_verification_deadline() {
    let requested_window = WindowInfo {
        window_id: 1,
        title: None,
        app_id: None,
        wm_class: None,
        pid: None,
        bounds: None,
        workspace: None,
        focused: false,
        hidden: false,
        client_type: None,
        backend: "test".to_string(),
        terminal: None,
    };

    let step = focus_step(&requested_window, None, FocusReply::TimedOut, 20, 20);

    assert!(matches!(step, FocusStep::Settled(None)));
}

#[test]
fn a_focus_query_is_repeated_until_the_window_has_the_focus() {
    let requested = window(1, "wanted", "app");
    let other = window(2, "other", "app");

    match focus_step(
        &requested,
        None,
        FocusReply::Answered(Some(other)),
        0,
        FOCUS_VERIFY_TIMEOUT_MS,
    ) {
        FocusStep::LookAgain(wait, Some(seen)) => {
            assert_eq!(wait, FOCUS_VERIFY_DELAY_MS);
            assert_eq!(seen.window_id, 2);
        }
        step => panic!("the focus is elsewhere: {step:?}"),
    }
    match focus_step(
        &requested,
        None,
        FocusReply::Answered(Some(requested.clone())),
        0,
        FOCUS_VERIFY_TIMEOUT_MS,
    ) {
        FocusStep::Settled(Some(seen)) => assert_eq!(seen.window_id, 1),
        step => panic!("the window has the focus: {step:?}"),
    }
}

#[test]
fn a_focus_result_says_what_has_the_focus() {
    let exact = focus_result(window(1, "a", "app"), Some(window(1, "a", "app")));
    assert!(exact.exact_window_focused);
    assert!(exact.app_focused);
    let app_only = focus_result(window(1, "a", "app"), Some(window(2, "b", "app")));
    assert!(!app_only.exact_window_focused);
    assert!(app_only.app_focused);
    let lost = focus_result(window(1, "a", "app"), None);
    assert!(!lost.exact_window_focused);
    assert!(!lost.app_focused);
    assert_eq!(lost.backend, "test");
}

#[test]
fn a_target_that_names_nothing_is_refused() {
    let windows = vec![window(1, "a", "app")];
    let error = resolve_window_target(&windows, &WindowTarget::default()).unwrap_err();
    assert_eq!(error, NO_TARGET);
}

#[test]
fn ids_agree_when_a_json_number_cannot_tell_them_apart() {
    assert!(!window_id_matches_json_number(7, 8));
    assert!(window_id_matches_json_number(
        9_007_199_254_740_993,
        9_007_199_254_740_992
    ));
    assert!(!window_id_matches_json_number(
        9_007_199_254_740_991,
        9_007_199_254_740_992
    ));
}

#[test]
fn the_focused_window_is_the_one_that_says_so() {
    let mut windows = vec![window(1, "a", "app"), window(2, "b", "app")];
    assert!(focused_window(&windows).is_none());
    windows[1].focused = true;
    assert_eq!(focused_window(&windows).map(|w| w.window_id), Some(2));
}

#[test]
fn a_window_is_found_activated_and_then_looked_for() {
    assert!(matches!(
        start_focus(&WindowTarget::default()),
        FocusTask::Done(Err(message)) if message == NO_TARGET
    ));
    let target = title_target("wanted");
    let task = start_focus(&target);
    let task = focus_window_target(
        &target,
        task,
        FocusReport::Listed(Ok(vec![window(1, "wanted", "app"), window(2, "other", "app")])),
    );
    assert!(matches!(&task, FocusTask::Activate(found) if found.window_id == 1));
    let task = focus_window_target(&target, task, FocusReport::Activated(Ok(())));
    assert!(matches!(&task, FocusTask::Look { at: None, .. }));
    let looked = |reply: FocusReply, now: u64| FocusReport::Looked {
        reply,
        now,
        deadline: FOCUS_VERIFY_TIMEOUT_MS,
    };
    let task = focus_window_target(
        &target,
        task,
        looked(FocusReply::Answered(Some(window(2, "other", "app"))), 10),
    );
    assert!(matches!(&task, FocusTask::Look { at: Some(60), .. }));
    let task = focus_window_target(
        &target,
        task,
        looked(FocusReply::Answered(Some(window(1, "wanted", "app"))), 60),
    );
    match task {
        FocusTask::Done(Ok(focus)) => assert!(focus.exact_window_focused),
        task => panic!("the window has the focus: {task:?}"),
    }
    let refused = focus_window_target(
        &target,
        FocusTask::Activate(window(1, "wanted", "app")),
        FocusReport::Activated(Err("no socket".to_string())),
    );
    assert!(matches!(refused, FocusTask::Done(Err(message)) if message == "no socket"));
}
