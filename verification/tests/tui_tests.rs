use aethershift::protocol::{Request, Response, SnapLayout, StatusInfo, WindowPolicy};
use aethershift::tui::{
    header_labels, profile_name_cell, snap_cell_text, top_actions_text, ActionReply, App, FocusPanel,
    ProfileItem, ALL_SNAP_LAYOUTS,
};

#[test]
fn test_app_navigation_and_focus() {
    let mut app = App::new(None);
    assert_eq!(app.focus, FocusPanel::Profiles);

    // Populate fake profiles
    app.profiles = vec![
        ProfileItem {
            name: "native".to_string(),
            description: "Default layout".to_string(),
            bindings_count: 5,
            is_active: true,
        },
        ProfileItem {
            name: "windows".to_string(),
            description: "Windows-like layout".to_string(),
            bindings_count: 12,
            is_active: false,
        },
        ProfileItem {
            name: "macos".to_string(),
            description: "Mac-like layout".to_string(),
            bindings_count: 10,
            is_active: false,
        },
    ];
    app.profiles_state.select(Some(0));

    // Test navigate down/up on Profiles
    app.next();
    assert_eq!(app.profiles_state.selected(), Some(1));
    app.next();
    assert_eq!(app.profiles_state.selected(), Some(2));
    app.next();
    assert_eq!(app.profiles_state.selected(), Some(0)); // wrap around
    app.previous();
    assert_eq!(app.profiles_state.selected(), Some(2));
    app.previous();
    assert_eq!(app.profiles_state.selected(), Some(1));

    // Test switch focus to Snaps
    app.toggle_focus();
    assert_eq!(app.focus, FocusPanel::Snaps);

    assert_eq!(app.selected_snap_index, 0);
    assert_eq!(app.selected_snap(), ALL_SNAP_LAYOUTS[0]);

    app.next();
    assert_eq!(app.selected_snap_index, 1);
    assert_eq!(app.selected_snap(), ALL_SNAP_LAYOUTS[1]);

    app.previous();
    assert_eq!(app.selected_snap_index, 0);
    app.previous();
    assert_eq!(app.selected_snap_index, ALL_SNAP_LAYOUTS.len() - 1);

    // Toggle back to Profiles
    app.toggle_focus();
    assert_eq!(app.focus, FocusPanel::Profiles);
}

fn item(name: &str) -> ProfileItem {
    ProfileItem { name: name.to_string(), description: String::new(), bindings_count: 0, is_active: false }
}

#[test]
fn refreshed_list_keeps_selection_in_range() {
    let mut app = App::new(None);
    app.profiles_state.select(Some(5));
    app.apply_profiles(vec![item("a"), item("b")]);
    assert_eq!(app.profiles_state.selected(), Some(1));
    app.profiles_state.select(None);
    app.apply_profiles(vec![item("a")]);
    assert_eq!(app.profiles_state.selected(), Some(0));
    assert_eq!(app.selected_profile().map(|p| p.name.as_str()), Some("a"));
}

#[test]
fn actions_show_messages_and_expire() {
    let mut app = App::new(None);
    assert!(app.apply_action_reply(ActionReply::Answered(Response::ok("Cycled")), 1000));
    assert_eq!(app.message.as_ref().map(|m| m.text.as_str()), Some("Cycled"));
    app.clear_expired_message(5999);
    assert!(app.message.is_some());
    app.clear_expired_message(6000);
    assert!(app.message.is_none());
    assert!(!app.apply_action_reply(ActionReply::Failed("refused".to_string()), 1));
    let m = app.message.as_ref().unwrap();
    assert_eq!(m.text, "IPC error: refused");
    assert!(m.is_error);
}

#[test]
fn requests_follow_selection() {
    let mut app = App::new(None);
    app.apply_profiles(vec![item("native"), item("windows")]);
    app.next();
    match app.switch_request() {
        Some(Request::Switch { profile, force }) => {
            assert_eq!(profile, "windows");
            assert!(!force);
        }
        other => panic!("unexpected {other:?}"),
    }
    app.toggle_focus();
    app.previous();
    assert_eq!(
        app.snap_request(),
        Request::ApplyLayout { layout: SnapLayout::RestoreOriginal, preview: false }
    );
}

#[test]
fn test_header_labels_online_and_offline() {
    let st = StatusInfo {
        active_profile: "windows".to_string(),
        overlays_count: 17,
        uptime_secs: 3605,
        version: "0.1.0".to_string(),
        window_policy: WindowPolicy::Omarchy,
        skipped_conflicts: 0,
        forced_overrides: 0,
        last_switch_duration_us: 0,
        last_switch_succeeded: true,
    };
    let on = header_labels(&Some(st));
    assert_eq!(on.status, " \u{25cf} ONLINE ");
    assert_eq!(on.profile, " [windows] ");
    assert_eq!(on.uptime, " Uptime: 3605s ");
    assert_eq!(on.overlays, " Overlays: 17 ");
    let off = header_labels(&None);
    assert_eq!(off.status, " \u{25cb} OFFLINE (Connecting...) ");
    assert_eq!(off.profile, " [N/A] ");
    assert_eq!(off.uptime, " Uptime: - ");
    assert_eq!(off.overlays, " Overlays: 0 ");
}

#[test]
fn test_top_actions_text_takes_three() {
    let ranked = vec![
        ("snap_left".to_string(), 9u64),
        ("maximize".to_string(), 4u64),
        ("close".to_string(), 2u64),
        ("restore".to_string(), 1u64),
    ];
    assert_eq!(top_actions_text(&ranked), "snap_left: 9, maximize: 4, close: 2");
    assert_eq!(top_actions_text(&ranked[..1].to_vec()), "snap_left: 9");
    assert_eq!(top_actions_text(&Vec::new()), "");
}

#[test]
fn test_grid_cells_are_padded() {
    assert_eq!(snap_cell_text("left_half", true), format!("> {:<20}", "left_half"));
    assert_eq!(snap_cell_text("left_half", false), format!("  {:<20}", "left_half"));
    assert_eq!(snap_cell_text("a_name_longer_than_twenty", false), "  a_name_longer_than_twenty");
    assert_eq!(profile_name_cell("native"), format!("{:<14}", "native"));
    assert_eq!(profile_name_cell("native").len(), 14);
}
