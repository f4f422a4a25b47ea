use aethershift::binding::Action;
use aethershift::conflict::{action_semantic_family, baseline_semantic_family, SemanticFamily};
use aethershift::health::HealthState;

fn family_of_compiled(action: &Action) -> SemanticFamily {
    let (dispatcher, args) = action.to_hyprland_dispatcher();
    baseline_semantic_family(&dispatcher, &args)
}

#[test]
fn test_actions_share_family_with_their_dispatchers() {
    let actions = vec![
        Action::CloseWindow,
        Action::SnapLeft,
        Action::SnapRight,
        Action::Maximize,
        Action::Restore,
        Action::Fullscreen,
        Action::FloatToggle,
        Action::WorkspaceNext,
        Action::WorkspacePrev,
        Action::MoveToWorkspaceNext,
        Action::MoveToWorkspacePrev,
        Action::ToggleSpecialWorkspace(Some("magic".to_string())),
        Action::ToggleSpecialWorkspace(None),
        Action::Exec("kitty".to_string()),
        Action::Plugin("hello".to_string()),
    ];
    for a in &actions {
        assert_eq!(action_semantic_family(a), family_of_compiled(a), "{:?}", a);
    }
}

#[test]
fn test_excluded_actions_differ_from_their_dispatchers() {
    assert_eq!(action_semantic_family(&Action::CycleWindowNext), SemanticFamily::WindowMotion);
    assert_eq!(family_of_compiled(&Action::CycleWindowNext), SemanticFamily::ExecCustom);
    assert_eq!(action_semantic_family(&Action::ToggleLauncher(None)), SemanticFamily::LauncherSpecial);
    assert_eq!(family_of_compiled(&Action::ToggleLauncher(None)), SemanticFamily::ExecCustom);
}

#[test]
fn test_baseline_family_ignores_ascii_case() {
    assert_eq!(baseline_semantic_family("KillActive", ""), SemanticFamily::Close);
    assert_eq!(baseline_semantic_family("ToggleSpecialWorkspace", "x"), SemanticFamily::LauncherSpecial);
    assert_eq!(baseline_semantic_family("special", ""), SemanticFamily::LauncherSpecial);
    assert_eq!(baseline_semantic_family("resizeactive", ""), SemanticFamily::ExecCustom);
}

#[test]
fn test_health_state_default_is_zeroed() {
    let h = HealthState::default();
    assert_eq!(h.active_profile, "");
    assert_eq!(h.backend, "");
    assert!(!h.backend_connected);
    assert_eq!(h.total_switches, 0);
    assert_eq!(h.failed_switches, 0);
    assert_eq!(h.max_switch_duration_us, 0);
    assert!(!h.last_switch_succeeded);
    assert_eq!(h.skipped_conflicts, 0);
    assert_eq!(h.forced_overrides, 0);
    assert!(h.last_error.is_none());
}
