use aethershift::binding::{Action, Binding, KeyCombo};
use aethershift::health::{doctor_report, DoctorInput, HealthState};
use aethershift::layout::{GeometryMemory, LayoutEngine, Rect, SnapLayout};
use aethershift::profile::Profile;
use aethershift::state::StateManager;
use aethershift::stats::StatsEngine;
use std::str::FromStr;

fn count_of(table: &[(String, u64)], name: &str) -> Option<u64> {
    table.iter().find(|(n, _)| n == name).map(|(_, c)| *c)
}

#[test]
fn test_create_and_delete_profile() {
    let mut sm = StateManager::new();

    // Create new profile copying from windows
    sm.create_profile("gaming", Some("Gaming profile"), Some("windows"))
        .unwrap();

    let gaming = sm.get_profile("gaming").unwrap();
    assert_eq!(gaming.name, "gaming");
    assert_eq!(gaming.description, "Gaming profile");
    assert_eq!(gaming.bindings.len(), 17);

    // Duplicate name fails
    assert!(sm.create_profile("gaming", None, None).is_err());

    // Cannot delete native
    assert!(sm.delete_profile("native").is_err());

    // Delete gaming profile
    sm.delete_profile("gaming").unwrap();
    assert!(sm.get_profile("gaming").is_none());
}

#[test]
fn test_update_and_remove_binding() {
    let mut sm = StateManager::new();
    sm.create_profile("dev", Some("Dev profile"), None).unwrap();

    // Update binding in inactive profile returns None switch plan
    let plan = sm
        .update_binding(
            "dev",
            "SUPER + RETURN",
            "exec: alacritty",
            Some("Open terminal"),
        )
        .unwrap();
    assert!(plan.is_none());

    let dev = sm.get_profile("dev").unwrap();
    assert_eq!(dev.bindings.len(), 1);
    assert_eq!(dev.bindings[0].key_combo.canonical_str(), "SUPER + RETURN");

    // Switch to dev
    let switch_plan = sm.switch_profile("dev").unwrap();
    sm.commit_switch(&switch_plan).unwrap();
    assert_eq!(sm.active_profile_name(), "dev");
    assert_eq!(sm.overlays_count(), 1);

    // Update binding in active profile returns incremental SwitchPlan
    let plan_active = sm
        .update_binding("dev", "SUPER + Q", "close_window", None)
        .unwrap()
        .unwrap();
    assert_eq!(plan_active.bind.len(), 1);
    assert_eq!(plan_active.bind[0].key_combo.canonical_str(), "SUPER + Q");
    assert_eq!(sm.overlays_count(), 2);

    // Modify existing binding in active profile
    let plan_modify = sm
        .update_binding("dev", "SUPER + Q", "maximize", None)
        .unwrap()
        .unwrap();
    assert_eq!(plan_modify.unbind.len(), 1);
    assert_eq!(plan_modify.bind.len(), 1);
    assert_eq!(plan_modify.bind[0].action, Action::Maximize);

    // Remove binding in active profile
    let plan_remove = sm.remove_binding("dev", "SUPER + RETURN").unwrap().unwrap();
    assert_eq!(plan_remove.unbind.len(), 1);
    assert_eq!(plan_remove.unbind[0].canonical_str(), "SUPER + RETURN");
    assert_eq!(sm.overlays_count(), 1);
}

#[test]
fn test_stats_engine_recording() {
    let mut stats_engine = StatsEngine::new();

    stats_engine.record_switch("windows", 0);
    assert_eq!(stats_engine.total_switches(), 1);

    stats_engine.record_action("snap_left");
    stats_engine.record_action("snap_left");
    stats_engine.record_action("close_window");
    assert_eq!(stats_engine.total_actions(), 3);

    stats_engine.record_conflict("SUPER + Q");
    stats_engine.record_conflict("SUPER + Q");

    let stats = stats_engine.get_stats(0, 0);
    assert_eq!(stats.total_switches, 1);
    assert_eq!(stats.total_actions, 3);
    assert_eq!(count_of(&stats.action_counts, "snap_left"), Some(2));
    assert_eq!(count_of(&stats.action_counts, "close_window"), Some(1));
    assert_eq!(count_of(&stats.conflict_hits, "SUPER + Q"), Some(2));
    assert!(count_of(&stats.profile_usage, "windows").is_some());
}

#[test]
fn test_stats_recommendations() {
    let mut stats_engine = StatsEngine::new();
    stats_engine.record_switch("custom", 0);

    // snap_left called 5 times
    for _ in 0..5 {
        stats_engine.record_action("snap_left");
    }
    // conflict on ALT + F4 3 times
    for _ in 0..3 {
        stats_engine.record_conflict("ALT + F4");
    }

    let profile = Profile::new(
        "custom",
        "test",
        vec![Binding::new(
            KeyCombo::from_str("SUPER + Q").unwrap(),
            Action::CloseWindow,
        )],
    );

    let recs = stats_engine.generate_recommendations(&profile);
    assert!(!recs.is_empty());

    let action_rec = recs.iter().find(|r| r.id == "rec_action_snap_left");
    assert!(action_rec.is_some());
    assert_eq!(action_rec.unwrap().suggestion_type, "missing_binding");

    let conflict_rec = recs.iter().find(|r| r.id == "rec_conflict_ALT + F4");
    assert!(conflict_rec.is_some());
    assert_eq!(conflict_rec.unwrap().suggestion_type, "conflict_resolution");
}

#[test]
fn test_compute_geometry() {
    let work = Rect::new(0, 0, 1920, 1080);

    assert_eq!(
        LayoutEngine::compute_geometry(SnapLayout::HalfLeft, work),
        Rect::new(0, 0, 960, 1080)
    );
    assert_eq!(
        LayoutEngine::compute_geometry(SnapLayout::HalfRight, work),
        Rect::new(960, 0, 960, 1080)
    );
    assert_eq!(
        LayoutEngine::compute_geometry(SnapLayout::HalfTop, work),
        Rect::new(0, 0, 1920, 540)
    );
    assert_eq!(
        LayoutEngine::compute_geometry(SnapLayout::HalfBottom, work),
        Rect::new(0, 540, 1920, 540)
    );
    assert_eq!(
        LayoutEngine::compute_geometry(SnapLayout::TwoThirdsLeft, work),
        Rect::new(0, 0, 1280, 1080)
    );
    assert_eq!(
        LayoutEngine::compute_geometry(SnapLayout::OneThirdRight, work),
        Rect::new(1280, 0, 640, 1080)
    );
    assert_eq!(
        LayoutEngine::compute_geometry(SnapLayout::OneThirdLeft, work),
        Rect::new(0, 0, 640, 1080)
    );
    assert_eq!(
        LayoutEngine::compute_geometry(SnapLayout::TwoThirdsRight, work),
        Rect::new(640, 0, 1280, 1080)
    );
    assert_eq!(
        LayoutEngine::compute_geometry(SnapLayout::ThreeColumnsLeft, work),
        Rect::new(0, 0, 640, 1080)
    );
    assert_eq!(
        LayoutEngine::compute_geometry(SnapLayout::ThreeColumnsCenter, work),
        Rect::new(640, 0, 640, 1080)
    );
    assert_eq!(
        LayoutEngine::compute_geometry(SnapLayout::ThreeColumnsRight, work),
        Rect::new(1280, 0, 640, 1080)
    );
    assert_eq!(
        LayoutEngine::compute_geometry(SnapLayout::Maximize, work),
        Rect::new(0, 0, 1920, 1080)
    );
    assert_eq!(
        LayoutEngine::compute_geometry(SnapLayout::CenterFloating, work),
        Rect::new(288, 162, 1344, 756)
    );

    let work_offset = Rect::new(1920, 50, 1920, 1030);
    assert_eq!(
        LayoutEngine::compute_geometry(SnapLayout::HalfLeft, work_offset),
        Rect::new(1920, 50, 960, 1030)
    );
    assert_eq!(
        LayoutEngine::compute_geometry(SnapLayout::HalfRight, work_offset),
        Rect::new(2880, 50, 960, 1030)
    );
}

#[test]
fn test_odd_dimension_compute_geometry() {
    let work = Rect::new(10, 20, 1001, 501);
    let left = LayoutEngine::compute_geometry(SnapLayout::HalfLeft, work);
    let right = LayoutEngine::compute_geometry(SnapLayout::HalfRight, work);

    assert_eq!(left.width + right.width, work.width);
    assert_eq!(left.x, work.x);
    assert_eq!(right.x, left.x + left.width);

    let top = LayoutEngine::compute_geometry(SnapLayout::HalfTop, work);
    let bottom = LayoutEngine::compute_geometry(SnapLayout::HalfBottom, work);
    assert_eq!(top.height + bottom.height, work.height);
    assert_eq!(top.y, work.y);
    assert_eq!(bottom.y, top.y + top.height);
}

#[test]
fn test_geometry_memory() {
    let mut mem = GeometryMemory::new();
    assert!(mem.is_empty());

    let win1 = "0x55aa11";
    let rect1 = Rect::new(100, 100, 800, 600);

    assert!(mem.record_if_absent(win1, rect1));
    assert_eq!(mem.len(), 1);

    let rect_new = Rect::new(0, 0, 1920, 1080);
    assert!(!mem.record_if_absent(win1, rect_new));
    assert_eq!(mem.peek_original(win1), Some(&rect1));

    let restored = mem.restore_original(win1);
    assert_eq!(restored, Some(rect1));
    assert!(mem.is_empty());
    assert_eq!(mem.restore_original(win1), None);
}

#[test]
fn health_metrics_and_doctor() {
    let mut health = HealthState::default();
    health.record_switch("windows", 1200, 2, 1);
    health.record_failure("ipc down");
    health.record_connection_open();

    let metrics = health.metrics(30);
    assert_eq!(metrics.total_switches, 1);
    assert_eq!(metrics.failed_switches, 1);
    assert_eq!(metrics.average_switch_duration_us, 1200);

    let report = doctor_report(
        &DoctorInput {
            uptime_secs: 30,
            backend: "hyprland",
            backend_connected: false,
            backend_message: "offline",
            baseline_count: 0,
            active_profile: "native",
            plugins_loaded: 1,
            plugins_failed: 1,
            last_error: Some("ipc down"),
        },
        0,
    );
    assert!(!report.healthy);
    assert_eq!(report.backend, "hyprland");
    assert!(report.checks.len() >= 5);
}
