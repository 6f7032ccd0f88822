use computer_use_hyprland::abs_pointer::PointerLanding;
use computer_use_hyprland::cli::{
    abs_test_report, cli_command, coordinate_of, windows_report, CliCommand, HELP,
};

#[test]
fn abs_test_report_distinguishes_requested_and_emitted_coordinates() {
    let report = abs_test_report(
        PointerLanding {
            requested: (1920, 1080),
            emitted: (1919, 1079),
        },
        (1920, 1080),
    );

    assert!(report.ok);
    assert_eq!(report.requested_x, 1920);
    assert_eq!(report.requested_y, 1080);
    assert_eq!(report.x, 1919);
    assert_eq!(report.y, 1079);
    assert_eq!(report.w, 1920);
    assert_eq!(report.h, 1080);
}

#[test]
fn no_word_asks_for_help_and_an_unknown_one_is_refused() {
    assert!(matches!(cli_command(None), Ok(CliCommand::Help)));
    assert!(matches!(cli_command(Some("mcp")), Ok(CliCommand::Mcp)));
    assert!(matches!(cli_command(Some("doctor")), Ok(CliCommand::Doctor)));
    assert!(matches!(cli_command(Some("abs-test")), Ok(CliCommand::AbsTest)));
    assert!(matches!(cli_command(Some("--help")), Ok(CliCommand::Help)));
    let error = cli_command(Some("fly")).expect_err("there is no such command");
    assert_eq!(
        error,
        "unknown command 'fly'. Expected one of: mcp, doctor, setup, apps, state, screenshot, windows, abs-test"
    );
    assert!(HELP.contains("computer-use-hyprland abs-test X Y"));
}

#[test]
fn a_coordinate_that_is_no_number_is_zero() {
    assert_eq!(coordinate_of(Some("640")), 640);
    assert_eq!(coordinate_of(Some("-3")), -3);
    assert_eq!(coordinate_of(Some("left")), 0);
    assert_eq!(coordinate_of(Some("99999999999")), 0);
    assert_eq!(coordinate_of(None), 0);
}

#[test]
fn a_failed_listing_is_reported_with_its_error() {
    let report = windows_report(Err("no such file".to_string()));
    assert!(report.windows.is_empty());
    assert_eq!(report.error.as_deref(), Some("no such file"));
}
