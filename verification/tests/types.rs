use computer_use_hyprland::windowing::types::WorkspaceTarget;

#[test]
fn a_workspace_is_named_by_id_or_by_being_empty() {
    assert_eq!(WorkspaceTarget::parse("5").unwrap(), WorkspaceTarget::Id(5));
    assert_eq!(
        WorkspaceTarget::parse(" 12 ").unwrap(),
        WorkspaceTarget::Id(12)
    );
    assert_eq!(
        WorkspaceTarget::parse("empty").unwrap(),
        WorkspaceTarget::FirstEmpty
    );
    assert_eq!(
        WorkspaceTarget::parse("EMPTY").unwrap(),
        WorkspaceTarget::FirstEmpty
    );
}

#[test]
fn the_rest_of_hyprlands_selector_grammar_is_refused_by_name() {
    // Accepting a selector this build never exercises would put it in a
    // tool description that cannot answer for it.
    for value in [
        "",
        "0",
        "-1",
        "previous",
        "e+1",
        "name:coding",
        "special:magic",
    ] {
        let error = WorkspaceTarget::parse(value)
            .expect_err("only an id or empty is supported");
        assert!(error.contains("workspace id"), "{value}: {error}");
        assert!(error.contains("empty"), "{value}: {error}");
    }
}

#[test]
fn a_dispatched_workspace_is_a_number_or_the_empty_selector() {
    assert_eq!(WorkspaceTarget::Id(7).lua_value(), "7");
    assert_eq!(WorkspaceTarget::FirstEmpty.lua_value(), "\"empty\"");
}

#[test]
fn an_id_target_is_reached_by_its_id_and_an_empty_one_by_moving() {
    assert!(WorkspaceTarget::Id(5).reached(5, Some(4)));
    assert!(!WorkspaceTarget::Id(5).reached(6, Some(4)));
    // The compositor picks the empty one, so the only proof is that the
    // view is no longer where it started.
    assert!(WorkspaceTarget::FirstEmpty.reached(6, Some(4)));
    assert!(!WorkspaceTarget::FirstEmpty.reached(4, Some(4)));
}
#[test]
fn a_workspace_is_described_by_its_id_or_as_empty() {
    assert!(WorkspaceTarget::Id(5).describe().contains('5'));
    assert!(WorkspaceTarget::FirstEmpty.describe().contains("empty"));
}
