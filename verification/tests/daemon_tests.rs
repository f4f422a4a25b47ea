use aethershift::binding::Action;
use aethershift::daemon::{event_matches_filters, plugin_dir_in, user_config_dir, AetherDaemon, DaemonConfig};
use aethershift::hypr::{Direction, HyprAction, HyprWindow, HyprWindowWorkspace, MonitorInfo, WorkspaceTarget};
use aethershift::layout::Rect;
use aethershift::protocol::{Event, Response, ResponseData, SnapLayout, WindowPolicy};
use aethershift::requests::{CycleStart, EditStart, LayoutStep, SwitchStart};

fn daemon() -> AetherDaemon {
    AetherDaemon::new(DaemonConfig::default())
}

fn message(r: &Response) -> String {
    match r {
        Response::Success { message, .. } => message.clone(),
        Response::Error { code, message } => format!("{code}: {message}"),
        Response::Event { .. } => String::new(),
    }
}

#[test]
fn daemon_test_core_action_to_hypr() {
    assert_eq!(
        AetherDaemon::core_action_to_hypr(&Action::CloseWindow),
        HyprAction::CloseWindow
    );
    assert_eq!(
        AetherDaemon::core_action_to_hypr(&Action::SnapLeft),
        HyprAction::Focus(Direction::Left)
    );
    assert_eq!(
        AetherDaemon::core_action_to_hypr(&Action::Maximize),
        HyprAction::ToggleFullscreen(Some(1))
    );
    assert_eq!(
        AetherDaemon::core_action_to_hypr(&Action::WorkspaceNext),
        HyprAction::Workspace(WorkspaceTarget::Relative(1))
    );
}

#[test]
fn lib_test_core_action_to_hypr() {
    assert_eq!(
        AetherDaemon::core_action_to_hypr(&Action::CloseWindow),
        HyprAction::CloseWindow
    );
    assert_eq!(
        AetherDaemon::core_action_to_hypr(&Action::FloatToggle),
        HyprAction::ToggleFloating
    );
}

#[test]
fn argument_actions_become_commands() {
    assert_eq!(
        AetherDaemon::core_action_to_hypr(&Action::ToggleSpecialWorkspace(None)),
        HyprAction::CustomLua("hl.dsp.workspace.toggle_special(\"scratchpad\")".to_string())
    );
    assert_eq!(
        AetherDaemon::core_action_to_hypr(&Action::Plugin("notes".to_string())),
        HyprAction::Exec("aethershift plugin run notes".to_string())
    );
    assert_eq!(
        AetherDaemon::core_action_to_hypr(&Action::Custom {
            dispatcher: "exec".to_string(),
            args: "foot".to_string()
        }),
        HyprAction::CustomLua("hl.dsp.exec(\"foot\")".to_string())
    );
    assert_eq!(
        AetherDaemon::core_action_to_hypr(&Action::ToggleLauncher(None)),
        HyprAction::Exec("omarchy-launch-walker || rofi -show drun || wofi --show drun".to_string())
    );
}

#[test]
fn switch_then_status_reports_the_profile() {
    let mut d = daemon();
    let res = match d.begin_switch("windows", false) {
        SwitchStart::Apply(p) => p,
        SwitchStart::Done(o) => panic!("no plan: {}", message(&o.response)),
    };
    assert_eq!(res.plan.bind.len(), 17);
    let out = d.finish_switch("windows", &res, Ok(()), 1500, 1, 0, false);
    assert_eq!(
        message(&out.response),
        "Successfully switched to profile 'windows': 17 applied, 0 skipped, 0 forced"
    );
    assert_eq!(out.events.len(), 1);
    assert_eq!(out.notices.len(), 1);
    match d.status_response(5, "0.1.0") {
        Response::Success { data: Some(ResponseData::Status(info)), .. } => {
            assert_eq!(info.active_profile, "windows");
            assert_eq!(info.overlays_count, 17);
            assert_eq!(info.last_switch_duration_us, 1500);
        }
        other => panic!("unexpected {other:?}"),
    }
    // A second switch without force answers at once.
    match d.begin_switch("windows", false) {
        SwitchStart::Done(o) => assert_eq!(message(&o.response), "Already on profile 'windows'"),
        SwitchStart::Apply(_) => panic!("expected no plan"),
    }
    // An unknown profile fails.
    match d.begin_switch("nope", false) {
        SwitchStart::Done(o) => assert_eq!(message(&o.response), "SWITCH_FAILED: Profile 'nope' not found"),
        SwitchStart::Apply(_) => panic!("expected a failure"),
    }
}

#[test]
fn failed_apply_keeps_state_and_reports() {
    let mut d = daemon();
    let res = match d.begin_switch("macos", false) {
        SwitchStart::Apply(p) => p,
        SwitchStart::Done(_) => panic!("expected a plan"),
    };
    let out = d.finish_switch("macos", &res, Err("socket closed".to_string()), 10, 2, 0, false);
    assert_eq!(message(&out.response), "HYPRLAND_ERROR: Hyprland error: socket closed");
    assert_eq!(d.state.active_profile_name(), "native");
    assert_eq!(
        d.health.last_error.as_deref(),
        Some("Error applying profile 'macos': Hyprland error: socket closed")
    );
    assert!(matches!(out.events[0], Event::SwitchFailed { .. }));
}

#[test]
fn restore_clears_overlays_and_policy() {
    let mut d = daemon();
    d.window_mode(Some(WindowPolicy::Floating));
    if let SwitchStart::Apply(res) = d.begin_switch("windows", false) {
        d.finish_switch("windows", &res, Ok(()), 1, 1, 0, false);
    }
    let plan = d.begin_restore();
    assert_eq!(d.window_policy, WindowPolicy::Omarchy);
    assert_eq!(plan.unbind.len(), 17);
    let out = d.finish_restore(&plan, Ok(()), 3, 4, 0);
    assert_eq!(message(&out.response), "Successfully restored baseline keybindings");
    assert_eq!(d.state.overlays_count(), 0);
    assert_eq!(d.state.active_profile_name(), "native");
}

#[test]
fn cycle_moves_to_the_next_profile() {
    let mut d = daemon();
    // Profiles by name: hybrid, macos, native, windows; native is active.
    match d.begin_cycle() {
        CycleStart::Apply(target, res) => {
            assert_eq!(target, "windows");
            let out = d.finish_cycle(&target, &res, Ok(()), 7, 0);
            assert_eq!(message(&out.response), "Cycled to profile 'windows'");
        }
        CycleStart::Done(o) => panic!("no plan: {}", message(&o.response)),
    }
    match d.begin_cycle() {
        CycleStart::Apply(target, _) => assert_eq!(target, "hybrid"),
        CycleStart::Done(_) => panic!("expected a plan"),
    }
}

#[test]
fn window_mode_reads_back() {
    let mut d = daemon();
    assert_eq!(message(&d.window_mode(None)), "Window policy is 'omarchy'");
    assert_eq!(message(&d.window_mode(Some(WindowPolicy::Tiled))), "Window policy is 'tiled'");
    assert_eq!(message(&d.window_mode(None)), "Window policy is 'tiled'");
}

#[test]
fn editing_the_active_profile_plans_the_change() {
    let mut d = daemon();
    if let SwitchStart::Apply(res) = d.begin_switch("windows", false) {
        d.finish_switch("windows", &res, Ok(()), 1, 1, 0, false);
    }
    match d.begin_update_binding("windows", "SUPER + SHIFT + W", "close_window", None) {
        EditStart::Apply(plan) => {
            assert_eq!(plan.bind.len(), 1);
            let r = d.finish_update_binding("windows", "SUPER + SHIFT + W", "close_window", &plan, Ok(()));
            assert_eq!(
                message(&r),
                "Binding 'SUPER + SHIFT + W' -> 'close_window' updated in profile 'windows'"
            );
        }
        EditStart::Done(r) => panic!("unexpected {}", message(&r)),
    }
    match d.begin_update_binding("windows", "BAD +", "close_window", None) {
        EditStart::Done(r) => assert!(message(&r).starts_with("UPDATE_BINDING_FAILED: Invalid key combo")),
        EditStart::Apply(_) => panic!("expected an error"),
    }
}

#[test]
fn deleting_the_active_profile_restores_first() {
    let mut d = daemon();
    d.create_profile_response("temp", Some("T"), Some("macos"));
    if let SwitchStart::Apply(res) = d.begin_switch("temp", false) {
        d.finish_switch("temp", &res, Ok(()), 1, 1, 0, false);
    }
    let plan = d.begin_delete("temp").expect("restore first");
    let _ = d.commit_plan(&plan, Ok(()));
    let r = d.finish_delete("temp", true);
    assert_eq!(message(&r), "Active profile 'temp' restored to native and deleted successfully");
    assert!(d.state.get_profile("temp").is_none());
}

fn window() -> HyprWindow {
    HyprWindow {
        address: "0x1234".to_string(),
        mapped: Some(true),
        hidden: Some(false),
        at: (100, 100),
        size: (800, 600),
        workspace: HyprWindowWorkspace { id: 1, name: "1".to_string() },
        floating: false,
        monitor: 0,
        window_class: "foot".to_string(),
        title: "foot".to_string(),
        pid: 42,
    }
}

fn monitors() -> Vec<MonitorInfo> {
    vec![MonitorInfo {
        id: 0,
        name: "HDMI-A-1".to_string(),
        focused: true,
        area_x: 0,
        area_y: 26,
        area_width: 2560,
        area_height: 1414,
    }]
}

#[test]
fn snap_places_and_restore_returns() {
    let mut d = daemon();
    match d.begin_layout(SnapLayout::HalfRight, false, Ok(Some(window())), Ok(monitors())) {
        LayoutStep::Place { address, monitor, from, to } => {
            assert_eq!(address, "0x1234");
            assert_eq!(to, Rect::new(1280, 26, 1280, 1414));
            let out = d.finish_layout(SnapLayout::HalfRight, &monitor, from, to, Ok(()));
            assert_eq!(
                message(&out.response),
                "Applied layout 'half-right' on monitor 'HDMI-A-1': [1280, 26, 1280, 1414]"
            );
        }
        LayoutStep::Done(o) => panic!("unexpected {}", message(&o.response)),
    }
    match d.begin_layout(SnapLayout::RestoreOriginal, true, Ok(Some(window())), Ok(monitors())) {
        LayoutStep::Done(o) => assert_eq!(
            message(&o.response),
            "Previewed layout 'restore-original' on monitor 'HDMI-A-1': [100, 100, 800, 600]"
        ),
        LayoutStep::Place { .. } => panic!("a preview places nothing"),
    }
    match d.begin_layout(SnapLayout::Maximize, false, Ok(None), Ok(monitors())) {
        LayoutStep::Done(o) => assert_eq!(
            message(&o.response),
            "NO_WINDOW: No active window found to apply layout"
        ),
        LayoutStep::Place { .. } => panic!("no window"),
    }
}

#[test]
fn subscription_filters_events() {
    let ev = Response::Event { event: Event::PresetsReloaded { count: 2 } };
    assert!(event_matches_filters(&ev, &vec![]));
    assert!(event_matches_filters(&ev, &vec!["presets-reloaded".to_string()]));
    assert!(!event_matches_filters(&ev, &vec!["restored".to_string()]));
    assert!(!event_matches_filters(&Response::ok("x"), &vec!["restored".to_string()]));
}

#[test]
fn config_directories() {
    assert_eq!(user_config_dir(Some("/x"), Some("/home/u")), "/x");
    assert_eq!(user_config_dir(None, Some("/home/u")), "/home/u/.config");
    assert_eq!(user_config_dir(None, None), "/tmp/.config");
    assert_eq!(plugin_dir_in(None, Some("/home/u")), "/home/u/.config/aethershift/plugins");
    let cfg = DaemonConfig::default();
    assert!(cfg.notifications_disabled_with(Some("TRUE")));
    assert!(cfg.notifications_disabled_with(Some("1")));
    assert!(!cfg.notifications_disabled_with(Some("no")));
    assert!(!cfg.notifications_disabled_with(None));
}

#[test]
fn test_notification_disabled_logic() {
    let config = DaemonConfig { no_notify: true, ..Default::default() };
    assert!(config.notifications_disabled_with(None));

    let config2 = DaemonConfig { no_notify: false, ..Default::default() };
    assert!(config2.notifications_disabled_with(Some("1")));
    assert!(config2.notifications_disabled_with(Some("true")));
    assert!(!config2.notifications_disabled_with(Some("0")));
    assert!(!config2.notifications_disabled_with(None));
}
