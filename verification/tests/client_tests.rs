use aethershift::cli::{
    command_plan, format_duration, format_profile_list, format_recommendations_text,
    format_stats_text, format_status_text, parse_window_policy, rank_by_count,
    simple_response_text, Command, CommandPlan, ReplyView, WindowModeAction, WindowModeArgs,
};
use aethershift::protocol::{
    Recommendation, Request, Response, SnapLayout, StatusInfo, UsageStats, WindowPolicy,
};
use aethershift::state::ProfileInfo;
use std::str::FromStr;

#[test]
fn test_snap_layout_parsing_and_str() {
    let cases: Vec<(SnapLayout, &str, &[&str])> = vec![
        (SnapLayout::HalfLeft, "half-left", &["half-left", "left"][..]),
        (SnapLayout::HalfRight, "half-right", &["half-right", "right"]),
        (SnapLayout::HalfTop, "half-top", &["half-top", "top"]),
        (SnapLayout::HalfBottom, "half-bottom", &["half-bottom", "bottom"]),
        (SnapLayout::TwoThirdsLeft, "two-thirds-left", &["two-thirds-left", "2/3-left"]),
        (SnapLayout::OneThirdRight, "one-third-right", &["one-third-right", "1/3-right"]),
        (SnapLayout::OneThirdLeft, "one-third-left", &["one-third-left", "1/3-left"]),
        (SnapLayout::TwoThirdsRight, "two-thirds-right", &["two-thirds-right", "2/3-right"]),
        (
            SnapLayout::ThreeColumnsLeft,
            "three-columns-left",
            &["three-columns-left", "3col-left", "three-col-left"],
        ),
        (
            SnapLayout::ThreeColumnsCenter,
            "three-columns-center",
            &["three-columns-center", "3col-center", "three-col-center"],
        ),
        (
            SnapLayout::ThreeColumnsRight,
            "three-columns-right",
            &["three-columns-right", "3col-right", "three-col-right"],
        ),
        (SnapLayout::Maximize, "maximize", &["maximize", "max"]),
        (
            SnapLayout::CenterFloating,
            "center-floating",
            &["center-floating", "center", "floating-center"],
        ),
        (SnapLayout::RestoreOriginal, "restore-original", &["restore-original", "restore"]),
    ];

    for (layout, canonical, aliases) in cases {
        assert_eq!(layout.as_str(), canonical);
        assert_eq!(layout.as_str().to_string(), canonical);
        for alias in aliases {
            assert_eq!(SnapLayout::from_str(alias).unwrap(), layout);
            assert_eq!(SnapLayout::from_str(&alias.to_uppercase()).unwrap(), layout);
        }
    }

    assert!(SnapLayout::from_str("invalid-layout").is_err());
}

#[test]
fn test_parse_window_policy() {
    assert_eq!(
        parse_window_policy("floating").unwrap(),
        WindowPolicy::Floating
    );
    assert_eq!(
        parse_window_policy("Floating").unwrap(),
        WindowPolicy::Floating
    );
    assert_eq!(parse_window_policy("tiled").unwrap(), WindowPolicy::Tiled);
    assert_eq!(parse_window_policy("TILED").unwrap(), WindowPolicy::Tiled);
    assert_eq!(
        parse_window_policy("omarchy").unwrap(),
        WindowPolicy::Omarchy
    );
    assert_eq!(
        parse_window_policy("follow-profile").unwrap(),
        WindowPolicy::FollowProfile
    );
    assert_eq!(
        parse_window_policy("follow_profile").unwrap(),
        WindowPolicy::FollowProfile
    );
    assert_eq!(
        parse_window_policy("follow").unwrap(),
        WindowPolicy::FollowProfile
    );

    assert!(parse_window_policy("invalid-policy").is_err());
}

#[test]
fn test_status_formatting_includes_window_policy() {
    let mut status = StatusInfo::new("macos", 3, 120, "0.1.0");
    status.window_policy = WindowPolicy::Floating;

    let text = format_status_text(&status);
    assert!(text.contains("Window Policy:    floating"));
    assert!(text.contains("Active Profile:   macos"));

    status.window_policy = WindowPolicy::Tiled;
    let text = format_status_text(&status);
    assert!(text.contains("Window Policy:    tiled"));
}

#[test]
fn window_policy_error_names_the_choices() {
    let err = parse_window_policy(" bogus ").unwrap_err();
    assert_eq!(
        err,
        "Invalid window policy: ' bogus '. Available policies: omarchy, tiled, floating, follow-profile"
    );
}

#[test]
fn durations_drop_leading_zero_units() {
    assert_eq!(format_duration(0), "0s");
    assert_eq!(format_duration(59), "59s");
    assert_eq!(format_duration(61), "1m 1s");
    assert_eq!(format_duration(3600), "1h 0m 0s");
    assert_eq!(format_duration(90061), "1d 1h 1m 1s");
}

#[test]
fn status_text_lists_every_line() {
    let status = StatusInfo::new("windows", 17, 3661, "0.1.0");
    assert_eq!(
        format_status_text(&status),
        "AetherShift Daemon Status\n========================\n  Active Profile:   windows\n  Active Overlays:  17\n  Window Policy:    omarchy\n  Daemon Uptime:    1h 1m 1s\n  Daemon Version:   v0.1.0\n"
    );
}

#[test]
fn profile_table_pads_columns() {
    let rows = vec![ProfileInfo {
        name: "windows".to_string(),
        description: "Windows-like".to_string(),
        bindings_count: 17,
        is_active: true,
    }];
    let text = format_profile_list(&rows);
    let lines: Vec<&str> = text.lines().collect();
    assert_eq!(lines[0], "Available Profiles:");
    assert_eq!(lines[1], format!("{:<15} {:<10} {:<10} {}", "PROFILE", "BINDINGS", "STATUS", "DESCRIPTION"));
    assert_eq!(lines[2], format!("{:-<15} {:-<10} {:-<10} {:-<35}", "", "", "", ""));
    assert_eq!(lines[3], format!("{:<15} {:<10} {:<10} {}", "windows", 17, "* active", "Windows-like"));
}

#[test]
fn ranking_orders_by_count() {
    let counts = vec![
        ("a".to_string(), 1u64),
        ("b".to_string(), 5),
        ("c".to_string(), 3),
        ("d".to_string(), 5),
    ];
    let ranked = rank_by_count(&counts);
    let names: Vec<&str> = ranked.iter().map(|(n, _)| n.as_str()).collect();
    assert_eq!(names, vec!["b", "d", "c", "a"]);
}

#[test]
fn stats_text_shows_top_actions_and_usage() {
    let stats = UsageStats {
        profile_usage: vec![("windows".to_string(), 125)],
        action_counts: vec![("close_window".to_string(), 2), ("snap_left".to_string(), 7)],
        conflict_hits: vec![],
        total_switches: 4,
        total_actions: 9,
        uptime_secs: 61,
    };
    let text = format_stats_text(&stats);
    assert!(text.starts_with("AetherShift Usage Statistics\n===========================\n"));
    assert!(text.contains("  Total Profile Switches:  4\n"));
    assert!(text.contains("  Daemon Uptime:           1m 1s\n"));
    let snap = text.find("snap_left").unwrap();
    let close = text.find("close_window").unwrap();
    assert!(snap < close);
    assert!(text.contains(&format!("  {:<25} {} times\n", "snap_left", 7)));
    assert!(text.contains(&format!("  {:<20} {}\n", "windows", "2m 5s")));
}

#[test]
fn recommendations_text_numbers_entries() {
    assert_eq!(
        format_recommendations_text(&vec![]),
        "No recommendations at this time. Keep using AetherShift to generate personalized insights!\n"
    );
    let recs = vec![Recommendation {
        id: "rec_1".to_string(),
        title: "Bind it".to_string(),
        message: "Used often".to_string(),
        suggestion_type: "missing_binding".to_string(),
        suggested_action: Some("snap_left".to_string()),
    }];
    let text = format_recommendations_text(&recs);
    assert!(text.contains("1. [missing_binding] Bind it\n   Used often\n   Tip: Run `aethershift profile bind <profile> <key> snap_left`\n\n"));
}

#[test]
fn simple_answers_print_or_fail() {
    let ok = Response::ok("Done");
    assert_eq!(simple_response_text(&ok), Ok(Some("Done".to_string())));
    let err = Response::err("SWITCH_FAILED", "Profile 'x' not found");
    assert_eq!(
        simple_response_text(&err),
        Err("Daemon returned error [SWITCH_FAILED]: Profile 'x' not found".to_string())
    );
}

#[test]
fn commands_map_to_requests() {
    match command_plan(Command::Switch { profile: "macos".to_string(), force: true }, "/s") {
        CommandPlan::Send(Request::Switch { profile, force }, ReplyView::Simple) => {
            assert_eq!(profile, "macos");
            assert!(force);
        }
        other => panic!("unexpected plan {other:?}"),
    }
    match command_plan(
        Command::WindowMode(WindowModeArgs {
            action: Some(WindowModeAction::SetPolicy { policy: "invalid-policy".to_string(), json: false }),
            json: false,
        }),
        "/s",
    ) {
        CommandPlan::Invalid(e) => assert!(e.starts_with("Invalid window policy")),
        other => panic!("unexpected plan {other:?}"),
    }
    match command_plan(
        Command::WindowMode(WindowModeArgs {
            action: Some(WindowModeAction::SetPolicy { policy: "Floating".to_string(), json: true }),
            json: false,
        }),
        "/s",
    ) {
        CommandPlan::Send(Request::WindowMode { policy }, ReplyView::WindowMode { json }) => {
            assert_eq!(policy, Some(WindowPolicy::Floating));
            assert!(json);
        }
        other => panic!("unexpected plan {other:?}"),
    }
    match command_plan(Command::Snap { layout: "sideways".to_string(), preview: false }, "/s") {
        CommandPlan::Invalid(e) => assert!(e.starts_with("Invalid snap layout: unknown snap layout: 'sideways'")),
        other => panic!("unexpected plan {other:?}"),
    }
}

#[test]
fn window_mode_json_flag() {
    let args = WindowModeArgs { action: Some(WindowModeAction::Status { json: true }), json: false };
    assert!(args.is_json());
    let args = WindowModeArgs { action: None, json: false };
    assert!(!args.is_json());
}
