use computer_use_hyprland::apps::{list_process_apps, looks_like_desktop_app, parse_process_line};
use computer_use_hyprland::command::{command_detail, CommandOutput};
use computer_use_hyprland::input::{
    connectable_ydotool_socket_from, drag_args, drag_step, env_flag_enabled,
    fallback_ydotool_socket_candidates, lane_result, mouse_button_code, sequence_step,
    session_is_wayland, start_drag, text_lane, DragStage, DragStep, KeyboardCommandBackend,
    SequenceStep, COMMAND_DELAY_MS,
};
use computer_use_hyprland::keys::{keycode, modifier_keycode, normalize_key};
use computer_use_hyprland::notes::{
    append_notes, describe_workspace_id, first_line, focused_element_feedback, FocusProbe,
    NOTHING_FOCUSED,
};
use computer_use_hyprland::numerals::{decimal_of, hex_of, signed_decimal_of, signed_of, unsigned_of};
use computer_use_hyprland::schema::{sanitize_unsigned_integer_formats, JsonValue};
use computer_use_hyprland::text::{
    debug_option_of, equal_ignoring_case, lines_of, lowered, normalize_text, normalized_contains,
    split_at_any, trimmed, words_of,
};

fn output(success: bool, stdout: &str, stderr: &str) -> CommandOutput {
    CommandOutput {
        success,
        status: "exit status: 7".to_string(),
        stdout: stdout.as_bytes().to_vec(),
        stderr: stderr.as_bytes().to_vec(),
    }
}

#[test]
fn an_unavailable_wtype_leaves_the_text_to_ydotool() {
    assert_eq!(text_lane(true, true), KeyboardCommandBackend::Wtype);
    assert_eq!(text_lane(true, false), KeyboardCommandBackend::Ydotool);
    assert_eq!(text_lane(false, true), KeyboardCommandBackend::Ydotool);
}

#[test]
fn a_lane_that_started_and_failed_is_a_failure() {
    assert!(lane_result(
        KeyboardCommandBackend::Wtype,
        Ok(output(true, "", "")),
        None
    )
    .is_ok());
    let error = lane_result(
        KeyboardCommandBackend::Wtype,
        Ok(output(false, "", "cannot type")),
        None,
    )
    .unwrap_err();
    assert_eq!(error, "cannot type");
    let silent = lane_result(
        KeyboardCommandBackend::Wtype,
        Ok(output(false, "", "")),
        None,
    )
    .unwrap_err();
    assert_eq!(silent, "wtype exited with exit status: 7");
}

#[test]
fn a_socket_is_selected_by_whether_it_connects() {
    let candidates = vec!["/stale".to_string(), "/usable".to_string()];
    assert_eq!(
        connectable_ydotool_socket_from(&candidates, &[false, true]).as_deref(),
        Some("/usable")
    );
    assert_eq!(
        connectable_ydotool_socket_from(&candidates, &[false, false]),
        None
    );
    assert!(fallback_ydotool_socket_candidates(Some("/run/user/7"), Some("7"))
        .contains(&"/run/user/7/.ydotool_socket".to_string()));
}

#[test]
fn commands_run_in_order_and_stop_at_the_first_failure() {
    assert!(matches!(
        sequence_step(2, 0, Ok(())),
        SequenceStep::Run { index: 0, wait_ms: 0 }
    ));
    assert!(matches!(
        sequence_step(2, 1, Ok(())),
        SequenceStep::Run { index: 1, wait_ms: COMMAND_DELAY_MS }
    ));
    assert!(matches!(sequence_step(2, 2, Ok(())), SequenceStep::Over(Ok(()))));
    assert!(matches!(
        sequence_step(2, 1, Err("no".to_string())),
        SequenceStep::Over(Err(_))
    ));
}

#[test]
fn a_pressed_drag_is_released_even_when_the_travel_fails() {
    let approach = start_drag();
    assert_eq!(approach.stage, DragStage::Approach);
    assert!(matches!(
        drag_step(start_drag(), Err("no".to_string())),
        DragStep::Over(Err(_))
    ));
    let DragStep::Next(press) = drag_step(approach, Ok(())) else {
        panic!("the button is pressed next");
    };
    assert_eq!(press.stage, DragStage::Press);
    let DragStep::Next(travel) = drag_step(press, Ok(())) else {
        panic!("the pointer travels next");
    };
    assert_eq!(travel.stage, DragStage::Travel);
    let DragStep::Next(release) = drag_step(travel, Err("lost".to_string())) else {
        panic!("the button is released whatever came of the travel");
    };
    assert_eq!(release.stage, DragStage::Release);
    assert!(matches!(
        drag_step(release, Ok(())),
        DragStep::Over(Err(error)) if error.contains("lost")
    ));
    assert_eq!(
        drag_args(DragStage::Approach, (1, 2), (3, 4)),
        ["mousemove", "--absolute", "--", "1", "2"]
    );
    assert_eq!(
        drag_args(DragStage::Travel, (1, 2), (3, 4)),
        ["mousemove", "--absolute", "--", "3", "4"]
    );
}

#[test]
fn buttons_have_ydotool_codes() {
    assert_eq!(mouse_button_code(None), "0xC0");
    assert_eq!(mouse_button_code(Some("RIGHT")), "0xC1");
    assert_eq!(mouse_button_code(Some("middle")), "0xC2");
}

#[test]
fn flags_and_sessions_are_read_from_the_environment() {
    assert!(env_flag_enabled(Some("1")));
    assert!(!env_flag_enabled(Some("true")));
    assert!(!env_flag_enabled(Some("0")));
    assert!(!env_flag_enabled(None));
    assert!(session_is_wayland(Some("wayland"), None));
    assert!(session_is_wayland(None, Some("wayland-0")));
    assert!(!session_is_wayland(Some("x11"), None));
}

#[test]
fn keys_are_named_loosely() {
    assert_eq!(normalize_key(" Page-Down "), "pagedown");
    assert_eq!(keycode("a"), Some(30));
    assert_eq!(keycode("F1"), Some(59));
    assert_eq!(modifier_keycode("Control"), Some(29));
    assert_eq!(modifier_keycode("a"), None);
}

#[test]
fn processes_are_read_from_their_listing() {
    let app = parse_process_line("  4242 firefox /usr/lib/firefox/firefox --new").unwrap();
    assert_eq!(app.pid, 4242);
    assert_eq!(app.name, "firefox");
    assert_eq!(app.command, "/usr/lib/firefox/firefox --new");
    assert!(parse_process_line("PID COMMAND ARGS").is_none());
    assert!(parse_process_line("").is_none());
    let listed = list_process_apps("1 systemd /sbin/init\n4242 firefox /usr/lib/firefox/firefox\n");
    assert_eq!(
        listed.iter().any(|app| app.name == "firefox"),
        looks_like_desktop_app("firefox", "/usr/lib/firefox/firefox")
    );
}

#[test]
fn a_command_says_what_it_printed_or_how_it_ended() {
    assert_eq!(command_detail(&output(false, "out", "")), "out");
    assert_eq!(command_detail(&output(false, "out", "err")), "err");
    assert_eq!(
        command_detail(&output(false, "", "")),
        "exit status exit status: 7"
    );
    let broken = CommandOutput {
        success: false,
        status: String::new(),
        stdout: vec![0x61, 0xff],
        stderr: Vec::new(),
    };
    assert_eq!(command_detail(&broken), "a\u{fffd}");
}

#[test]
fn notes_stand_behind_a_message() {
    assert_eq!(
        append_notes("Done.", &["One.".to_string(), "Two.".to_string()]),
        "Done. One. Two."
    );
    assert_eq!(append_notes("Done.", &[]), "Done.");
    assert_eq!(first_line("a\nb"), "a");
    assert_eq!(first_line(""), "");
    assert_eq!(
        focused_element_feedback(&FocusProbe::NothingFocused, true),
        NOTHING_FOCUSED
    );
    assert!(focused_element_feedback(&FocusProbe::Failed("no bus\nat all".to_string()), true)
        .contains("no bus"));
    assert!(describe_workspace_id(Some(5)).contains('5'));
}

#[test]
fn numbers_are_written_and_read() {
    assert_eq!(decimal_of(0), "0");
    assert_eq!(decimal_of(u64::MAX), "18446744073709551615");
    assert_eq!(signed_decimal_of(i64::MIN), "-9223372036854775808");
    assert_eq!(hex_of(0x1234abcd), "1234abcd");
    assert_eq!(unsigned_of("ff", 16, 255), Some(255));
    assert_eq!(unsigned_of("100", 16, 255), None);
    assert_eq!(unsigned_of("+7", 10, 9), Some(7));
    assert_eq!(unsigned_of("", 10, 9), None);
    assert_eq!(signed_of("-5", -5, 5), Some(-5));
    assert_eq!(signed_of("-6", -5, 5), None);
}

#[test]
fn texts_are_compared_and_cut() {
    assert_eq!(trimmed(" a b "), "a b");
    assert_eq!(lowered("\u{c4}B"), "\u{c4}b");
    assert_eq!(normalize_text("\u{c4}B"), "\u{e4}b");
    assert!(equal_ignoring_case("Sophia", "SOPHIA"));
    assert_eq!(words_of(" a  b "), ["a", "b"]);
    assert_eq!(lines_of("a\r\nb\n"), ["a", "b"]);
    assert_eq!(split_at_any("a+b,c", &['+', ',']), ["a", "b", "c"]);
    assert!(normalized_contains(Some("The  Editor"), "editor"));
    assert!(!normalized_contains(None, "editor"));
    assert_eq!(normalize_text(" Push  Button "), normalize_text("push button"));
    assert_eq!(debug_option_of(&Some("a\"b".to_string())), "Some(\"a\\\"b\")");
    assert_eq!(debug_option_of(&None), "None");
}

#[test]
fn schemas_lose_their_unsigned_formats_and_nothing_else() {
    let field = |name: &str, value: JsonValue| (name.to_string(), value);
    let text = |s: &str| JsonValue::Text(s.to_string());
    let schema = JsonValue::Object(vec![
        field(
            "width",
            JsonValue::Object(vec![
                field("type", text("integer")),
                field("format", text("uint32")),
            ]),
        ),
        field(
            "items",
            JsonValue::List(vec![JsonValue::Object(vec![field("format", text("uint64"))])]),
        ),
        field("when", JsonValue::Object(vec![field("format", text("date"))])),
    ]);
    let clean = sanitize_unsigned_integer_formats(schema);
    let JsonValue::Object(fields) = &clean else {
        panic!("an object stays one");
    };
    assert_eq!(fields.len(), 3);
    let JsonValue::Object(width) = &fields[0].1 else {
        panic!("an object stays one");
    };
    assert!(matches!(&width[0], (name, JsonValue::Text(kind)) if name == "type" && kind == "integer"));
    assert_eq!(width.len(), 1);
    let JsonValue::List(items) = &fields[1].1 else {
        panic!("a list stays one");
    };
    assert!(matches!(&items[0], JsonValue::Object(inner) if inner.is_empty()));
    assert!(matches!(&fields[2].1, JsonValue::Object(inner) if inner.len() == 1));
}
