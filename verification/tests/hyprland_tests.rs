use aethershift::hypr::{
    escape_lua_string, Direction, HyprAction, HyprBind, HyprEvent, HyprKeyBinding, HyprlandClient,
    WorkspaceTarget,
};

#[test]
fn test_escape_lua_string() {
    assert_eq!(escape_lua_string("hello"), "\"hello\"");
    assert_eq!(
        escape_lua_string("hello \"world\""),
        "\"hello \\\"world\\\"\""
    );
    assert_eq!(
        escape_lua_string("path\\with\\slash"),
        "\"path\\\\with\\\\slash\""
    );
    assert_eq!(escape_lua_string("line1\nline2"), "\"line1\\nline2\"");
}

#[test]
fn test_direction_strings() {
    assert_eq!(Direction::Left.as_str(), "l");
    assert_eq!(Direction::Right.as_str(), "r");
    assert_eq!(Direction::Up.as_str(), "u");
    assert_eq!(Direction::Down.as_str(), "d");
    assert_eq!(Direction::Left.as_str().to_string(), "l");
}

#[test]
fn test_workspace_target() {
    assert_eq!(WorkspaceTarget::Id(3).to_lua_arg(), "3");
    assert_eq!(
        WorkspaceTarget::Name("special:scratch".to_string()).to_lua_arg(),
        "\"special:scratch\""
    );
    assert_eq!(WorkspaceTarget::Relative(1).to_lua_arg(), "\"m+1\"");
    assert_eq!(WorkspaceTarget::Relative(-1).to_lua_arg(), "\"m-1\"");
    assert_eq!(WorkspaceTarget::Previous.to_lua_arg(), "\"previous\"");

    let from_i32: WorkspaceTarget = 5.into();
    assert_eq!(from_i32, WorkspaceTarget::Id(5));

    let from_num_str: WorkspaceTarget = WorkspaceTarget::from_text("42");
    assert_eq!(from_num_str, WorkspaceTarget::Id(42));

    let from_name_str: WorkspaceTarget = WorkspaceTarget::from_text("web");
    assert_eq!(from_name_str, WorkspaceTarget::Name("web".to_string()));
}

#[test]
fn test_hypr_action_lua_codegen() {
    assert_eq!(
        HyprAction::CloseWindow.to_lua_expr(),
        "hl.dsp.window.close()"
    );
    assert_eq!(
        HyprAction::ToggleFullscreen(None).to_lua_expr(),
        "hl.dsp.window.fullscreen()"
    );
    assert_eq!(
        HyprAction::ToggleFullscreen(Some(1)).to_lua_expr(),
        "hl.dsp.window.fullscreen({ mode = 1 })"
    );
    assert_eq!(
        HyprAction::ToggleFullscreen(Some(0)).to_lua_expr(),
        "hl.dsp.window.fullscreen({ mode = 0 })"
    );
    assert_eq!(
        HyprAction::ToggleFloating.to_lua_expr(),
        "hl.dsp.window.float({ action = \"toggle\" })"
    );
    assert_eq!(
        HyprAction::Focus(Direction::Left).to_lua_expr(),
        "hl.dsp.focus({ direction = \"l\" })"
    );
    assert_eq!(
        HyprAction::Focus(Direction::Right).to_lua_expr(),
        "hl.dsp.focus({ direction = \"r\" })"
    );
    assert_eq!(
        HyprAction::MoveWindow(Direction::Up).to_lua_expr(),
        "hl.dsp.window.move({ direction = \"u\" })"
    );
    assert_eq!(
        HyprAction::MoveWindow(Direction::Down).to_lua_expr(),
        "hl.dsp.window.move({ direction = \"d\" })"
    );
    assert_eq!(
        HyprAction::Workspace(1.into()).to_lua_expr(),
        "hl.dsp.focus({ workspace = 1 })"
    );
    assert_eq!(
        HyprAction::Workspace(WorkspaceTarget::from_text("special:magic")).to_lua_expr(),
        "hl.dsp.focus({ workspace = \"special:magic\" })"
    );
    assert_eq!(
        HyprAction::MoveToWorkspace(2.into()).to_lua_expr(),
        "hl.dsp.window.move({ workspace = 2 })"
    );
    assert_eq!(
        HyprAction::Exec("kitty -e btop".to_string()).to_lua_expr(),
        "hl.dsp.exec_cmd(\"kitty -e btop\")"
    );
    assert_eq!(
        HyprAction::CustomLua("print(\"custom\")".to_string()).to_lua_expr(),
        "print(\"custom\")"
    );
}

#[test]
fn test_deserialize_hypr_bind() {
    let bind = HyprBind {
        locked: true,
        mouse: false,
        release: false,
        repeat: true,
        long_press: false,
        non_consuming: false,
        auto_consuming: false,
        has_description: true,
        modmask: 68,
        submap: "".to_string(),
        submap_universal: "false".to_string(),
        key: "Z".to_string(),
        keycode: 0,
        catch_all: false,
        description: "Test binding".to_string(),
        allow_input_capture: false,
        dispatcher: "__lua".to_string(),
        arg: "123".to_string(),
    };
    assert!(bind.locked);
    assert!(!bind.mouse);
    assert_eq!(bind.modmask, 68);
    assert_eq!(bind.key, "Z");
    assert_eq!(bind.description, "Test binding");

    let mods = bind.modifiers();
    assert!(mods.contains(&"SUPER"));
    assert!(mods.contains(&"CTRL"));
    assert_eq!(mods.len(), 2);

    assert_eq!(bind.formatted_combo(), Some("SUPER + CTRL + Z".to_string()));
}

#[test]
fn test_hypr_key_binding_builder() {
    let b = HyprKeyBinding::new("SUPER + Q", HyprAction::CloseWindow)
        .with_description("Close current window");
    assert_eq!(b.keys, "SUPER + Q");
    assert_eq!(b.action, HyprAction::CloseWindow);
    assert_eq!(b.description.as_deref(), Some("Close current window"));
}

#[test]
fn test_format_bind_and_unbind_lua() {
    let bind_no_desc = HyprlandClient::format_bind_lua("SUPER + Q", &HyprAction::CloseWindow, None);
    assert_eq!(
        bind_no_desc,
        "hl.bind(\"SUPER + Q\", hl.dsp.window.close(), {})"
    );

    let bind_with_desc = HyprlandClient::format_bind_lua(
        "SUPER + LEFT",
        &HyprAction::Focus(Direction::Left),
        Some("Focus left"),
    );
    assert_eq!(
        bind_with_desc,
        "hl.bind(\"SUPER + LEFT\", hl.dsp.focus({ direction = \"l\" }), { desc = \"Focus left\" })"
    );

    let unbind = HyprlandClient::format_unbind_lua("SUPER + Q");
    assert_eq!(unbind, "hl.unbind(\"SUPER + Q\")");
}

#[test]
fn test_parse_openwindow_event() {
    let event = HyprEvent::parse("openwindow>>0x55f0,1,foot,foot\n").unwrap();
    assert_eq!(
        event,
        HyprEvent::WindowOpened {
            address: "0x55f0".to_string(),
            class: "foot".to_string(),
            title: "foot".to_string(),
        }
    );
    assert_eq!(
        HyprEvent::parse("unknown>>x"),
        Some(HyprEvent::Unknown("unknown>>x".to_string()))
    );
    assert_eq!(HyprEvent::parse("\n"), None);
}

#[test]
fn test_window_rect_commands_float_enable() {
    let cmds = aethershift::hypr::window_rect_commands("0x1234", 0, 26, 1280, 1414, true);
    assert_eq!(cmds.len(), 3);
    assert_eq!(cmds[0], "hl.dispatch(hl.dsp.window.float({ action = \"enable\", address = \"0x1234\" }))");
    assert_eq!(
        cmds[1],
        "hl.dispatch(hl.dsp.window.resize({ x = 1280, y = 1414, mode = \"exact\", address = \"0x1234\" }))"
    );
    assert_eq!(
        cmds[2],
        "hl.dispatch(hl.dsp.window.move({ x = 0, y = 26, mode = \"exact\", address = \"0x1234\" }))"
    );
}
