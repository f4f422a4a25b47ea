//! The built-in profiles: native (no overlays), windows, macos and hybrid.
use vstd::prelude::*;

use crate::binding::{Action, ActionView, Binding, BindingView, KeyCombo, ModifierSet};
use crate::keyed::distinct_keys;
use crate::profile::Profile;
use crate::text::owned;

verus! {

/// A modifier set.
pub open spec fn ms(super_key: bool, ctrl: bool, alt: bool, shift: bool) -> ModifierSet {
    ModifierSet { super_key, ctrl, alt, shift }
}

/// A preset binding: combo, action and description.
pub open spec fn pb(m: ModifierSet, key: Seq<char>, action: ActionView, description: Seq<char>) -> BindingView {
    BindingView { key_combo: (m, key), action, description: Some(description) }
}

/// The bindings of the `windows` preset, in order.
pub open spec fn windows_bindings() -> Seq<BindingView> {
    seq![
        pb(ms(false, false, true, false), "F4"@, ActionView::CloseWindow, "Close active window"@),
        pb(ms(false, false, true, false), "TAB"@, ActionView::CycleWindowNext, "Cycle windows forward"@),
        pb(ms(false, false, true, true), "TAB"@, ActionView::CycleWindowPrev, "Cycle windows backward"@),
        pb(ms(true, false, false, false), "LEFT"@, ActionView::SnapLeft, "Snap active window left"@),
        pb(ms(true, false, false, false), "RIGHT"@, ActionView::SnapRight, "Snap active window right"@),
        pb(ms(true, false, false, false), "UP"@, ActionView::Maximize, "Maximize active window"@),
        pb(ms(true, false, false, false), "DOWN"@, ActionView::Restore, "Restore active window"@),
        pb(ms(true, false, false, false), "D"@, ActionView::ToggleSpecialWorkspace(None), "Toggle desktop"@),
        pb(ms(false, true, true, false), "LEFT"@, ActionView::WorkspacePrev, "Previous workspace"@),
        pb(ms(false, true, true, false), "RIGHT"@, ActionView::WorkspaceNext, "Next workspace"@),
        pb(ms(true, false, false, false), "E"@, ActionView::Exec("nautilus"@), "Open file manager"@),
        pb(ms(true, false, false, false), "L"@, ActionView::Exec("hyprlock"@), "Lock system"@),
        pb(ms(true, false, false, false), "V"@, ActionView::Exec("omarchy-launch-clipboard"@), "Toggle clipboard manager"@),
        pb(ms(false, false, false, false), "PRINT"@, ActionView::Exec("omarchy-cmd-screenshot"@), "Take screenshot"@),
        pb(ms(true, false, false, true), "S"@, ActionView::Exec("omarchy-cmd-screenshot region"@), "Region screenshot"@),
        pb(ms(false, true, false, true), "ESCAPE"@, ActionView::Exec("omarchy-launch-tui btop"@), "Open task manager"@),
        pb(ms(false, true, true, false), "T"@, ActionView::Exec("omarchy-launch-terminal"@), "Open terminal"@),
    ]
}

/// The bindings of the `macos` preset, in order.
pub open spec fn macos_bindings() -> Seq<BindingView> {
    seq![
        pb(ms(true, false, false, false), "Q"@, ActionView::CloseWindow, "Quit application"@),
        pb(ms(true, false, false, false), "W"@, ActionView::CloseWindow, "Close window"@),
        pb(ms(true, true, false, false), "F"@, ActionView::Fullscreen, "Toggle fullscreen"@),
        pb(ms(true, false, false, false), "SPACE"@, ActionView::ToggleLauncher(None), "Application launcher"@),
        pb(ms(true, false, false, false), "TAB"@, ActionView::CycleWindowNext, "Cycle windows forward"@),
        pb(ms(true, false, false, true), "TAB"@, ActionView::CycleWindowPrev, "Cycle windows backward"@),
        pb(ms(true, true, false, false), "LEFT"@, ActionView::SnapLeft, "Snap active window left"@),
        pb(ms(true, true, false, false), "RIGHT"@, ActionView::SnapRight, "Snap active window right"@),
        pb(ms(true, true, false, false), "UP"@, ActionView::Maximize, "Maximize active window"@),
        pb(ms(true, true, false, false), "DOWN"@, ActionView::Restore, "Restore active window"@),
        pb(ms(false, true, false, false), "LEFT"@, ActionView::WorkspacePrev, "Previous workspace"@),
        pb(ms(false, true, false, false), "RIGHT"@, ActionView::WorkspaceNext, "Next workspace"@),
        pb(ms(true, false, false, false), "E"@, ActionView::Exec("nautilus"@), "Open file manager"@),
        pb(ms(true, false, false, false), "L"@, ActionView::Exec("hyprlock"@), "Lock system"@),
        pb(ms(true, false, false, true), "4"@, ActionView::Exec("omarchy-cmd-screenshot region"@), "Region screenshot"@),
    ]
}

/// The bindings of the `hybrid` preset, in order.
pub open spec fn hybrid_bindings() -> Seq<BindingView> {
    seq![
        pb(ms(false, false, true, false), "F4"@, ActionView::CloseWindow, "Close active window"@),
        pb(ms(true, false, false, false), "Q"@, ActionView::CloseWindow, "Quit application"@),
        pb(ms(false, false, true, false), "TAB"@, ActionView::CycleWindowNext, "Cycle windows forward"@),
        pb(ms(true, false, false, false), "LEFT"@, ActionView::SnapLeft, "Snap active window left"@),
        pb(ms(true, false, false, false), "RIGHT"@, ActionView::SnapRight, "Snap active window right"@),
        pb(ms(true, false, false, false), "UP"@, ActionView::Maximize, "Maximize active window"@),
        pb(ms(true, false, false, false), "DOWN"@, ActionView::Restore, "Restore active window"@),
        pb(ms(true, false, false, false), "SPACE"@, ActionView::ToggleLauncher(None), "Application launcher"@),
        pb(ms(false, true, true, false), "LEFT"@, ActionView::WorkspacePrev, "Previous workspace"@),
        pb(ms(false, true, true, false), "RIGHT"@, ActionView::WorkspaceNext, "Next workspace"@),
        pb(ms(true, false, false, false), "E"@, ActionView::Exec("nautilus"@), "Open file manager"@),
        pb(ms(true, false, false, false), "L"@, ActionView::Exec("hyprlock"@), "Lock system"@),
    ]
}

fn mods(super_key: bool, ctrl: bool, alt: bool, shift: bool) -> (r: ModifierSet)
    ensures
        r == (ModifierSet { super_key, ctrl, alt, shift }),
{
    ModifierSet { super_key, ctrl, alt, shift }
}

fn bind(m: ModifierSet, key: &str, action: Action, description: &str) -> (r: Binding)
    ensures
        r@ == pb(m, key@, action@, description@),
{
    Binding::new(KeyCombo { modifiers: m, key: owned(key) }, action).with_description(description)
}

fn exec(cmd: &str) -> (r: Action)
    ensures
        r@ == crate::binding::ActionView::Exec(cmd@),
{
    Action::Exec(owned(cmd))
}

/// The pass-through profile: no overlays at all.
pub fn native_preset() -> (r: Profile)
    ensures
        r.name@ == "native"@,
        r.description@ == "Pass-through baseline, no overlays"@,
        r.bindings@.len() == 0,
        r.priority is None,
        r.conflicts_policy is None,
        r.window_policy is None,
{
    Profile::new("native", "Pass-through baseline, no overlays", Vec::new())
}

/// Windows muscle memory.
pub fn windows_preset() -> (r: Profile)
    ensures
        r.name@ == "windows"@,
        r.description@ == "Windows muscle memory"@,
        r.bindings@.len() == 17,
        r.bindings@.map_values(|b: Binding| b@) == windows_bindings(),
        distinct_keys(r.bindings@),
        r.priority is None,
        r.conflicts_policy is None,
        r.window_policy is None,
{
    let none = mods(false, false, false, false);
    let sup = mods(true, false, false, false);
    let alt = mods(false, false, true, false);
    let alt_shift = mods(false, false, true, true);
    let ctrl_alt = mods(false, true, true, false);
    let ctrl_shift = mods(false, true, false, true);
    let super_shift = mods(true, false, false, true);
    let mut v: Vec<Binding> = Vec::new();
    v.push(bind(alt, "F4", Action::CloseWindow, "Close active window"));
    v.push(bind(alt, "TAB", Action::CycleWindowNext, "Cycle windows forward"));
    v.push(bind(alt_shift, "TAB", Action::CycleWindowPrev, "Cycle windows backward"));
    v.push(bind(sup, "LEFT", Action::SnapLeft, "Snap active window left"));
    v.push(bind(sup, "RIGHT", Action::SnapRight, "Snap active window right"));
    v.push(bind(sup, "UP", Action::Maximize, "Maximize active window"));
    v.push(bind(sup, "DOWN", Action::Restore, "Restore active window"));
    v.push(bind(sup, "D", Action::ToggleSpecialWorkspace(None), "Toggle desktop"));
    v.push(bind(ctrl_alt, "LEFT", Action::WorkspacePrev, "Previous workspace"));
    v.push(bind(ctrl_alt, "RIGHT", Action::WorkspaceNext, "Next workspace"));
    v.push(bind(sup, "E", exec("nautilus"), "Open file manager"));
    v.push(bind(sup, "L", exec("hyprlock"), "Lock system"));
    v.push(bind(sup, "V", exec("omarchy-launch-clipboard"), "Toggle clipboard manager"));
    v.push(bind(none, "PRINT", exec("omarchy-cmd-screenshot"), "Take screenshot"));
    v.push(bind(super_shift, "S", exec("omarchy-cmd-screenshot region"), "Region screenshot"));
    v.push(bind(ctrl_shift, "ESCAPE", exec("omarchy-launch-tui btop"), "Open task manager"));
    v.push(bind(ctrl_alt, "T", exec("omarchy-launch-terminal"), "Open terminal"));
    proof {
        assert(v@.map_values(|b: Binding| b@) =~= windows_bindings());
        lemma_windows_distinct();
    }
    Profile::new("windows", "Windows muscle memory", v)
}

/// macOS-style shortcuts.
pub fn macos_preset() -> (r: Profile)
    ensures
        r.name@ == "macos"@,
        r.description@ == "macOS-style shortcuts"@,
        r.bindings@.len() == 15,
        r.bindings@.map_values(|b: Binding| b@) == macos_bindings(),
        distinct_keys(r.bindings@),
        r.priority is None,
        r.conflicts_policy is None,
        r.window_policy is None,
{
    let sup = mods(true, false, false, false);
    let sup_ctrl = mods(true, true, false, false);
    let sup_shift = mods(true, false, false, true);
    let ctrl = mods(false, true, false, false);
    let mut v: Vec<Binding> = Vec::new();
    v.push(bind(sup, "Q", Action::CloseWindow, "Quit application"));
    v.push(bind(sup, "W", Action::CloseWindow, "Close window"));
    v.push(bind(sup_ctrl, "F", Action::Fullscreen, "Toggle fullscreen"));
    v.push(bind(sup, "SPACE", Action::ToggleLauncher(None), "Application launcher"));
    v.push(bind(sup, "TAB", Action::CycleWindowNext, "Cycle windows forward"));
    v.push(bind(sup_shift, "TAB", Action::CycleWindowPrev, "Cycle windows backward"));
    v.push(bind(sup_ctrl, "LEFT", Action::SnapLeft, "Snap active window left"));
    v.push(bind(sup_ctrl, "RIGHT", Action::SnapRight, "Snap active window right"));
    v.push(bind(sup_ctrl, "UP", Action::Maximize, "Maximize active window"));
    v.push(bind(sup_ctrl, "DOWN", Action::Restore, "Restore active window"));
    v.push(bind(ctrl, "LEFT", Action::WorkspacePrev, "Previous workspace"));
    v.push(bind(ctrl, "RIGHT", Action::WorkspaceNext, "Next workspace"));
    v.push(bind(sup, "E", exec("nautilus"), "Open file manager"));
    v.push(bind(sup, "L", exec("hyprlock"), "Lock system"));
    v.push(bind(sup_shift, "4", exec("omarchy-cmd-screenshot region"), "Region screenshot"));
    proof {
        assert(v@.map_values(|b: Binding| b@) =~= macos_bindings());
        lemma_macos_distinct();
    }
    Profile::new("macos", "macOS-style shortcuts", v)
}

/// Mixed Windows and macOS shortcuts for dual-workflow users.
pub fn hybrid_preset() -> (r: Profile)
    ensures
        r.name@ == "hybrid"@,
        r.description@ == "Mixed Windows and macOS shortcuts"@,
        r.bindings@.len() == 12,
        r.bindings@.map_values(|b: Binding| b@) == hybrid_bindings(),
        distinct_keys(r.bindings@),
        r.priority is None,
        r.conflicts_policy is None,
        r.window_policy is None,
{
    let sup = mods(true, false, false, false);
    let alt = mods(false, false, true, false);
    let ctrl_alt = mods(false, true, true, false);
    let mut v: Vec<Binding> = Vec::new();
    v.push(bind(alt, "F4", Action::CloseWindow, "Close active window"));
    v.push(bind(sup, "Q", Action::CloseWindow, "Quit application"));
    v.push(bind(alt, "TAB", Action::CycleWindowNext, "Cycle windows forward"));
    v.push(bind(sup, "LEFT", Action::SnapLeft, "Snap active window left"));
    v.push(bind(sup, "RIGHT", Action::SnapRight, "Snap active window right"));
    v.push(bind(sup, "UP", Action::Maximize, "Maximize active window"));
    v.push(bind(sup, "DOWN", Action::Restore, "Restore active window"));
    v.push(bind(sup, "SPACE", Action::ToggleLauncher(None), "Application launcher"));
    v.push(bind(ctrl_alt, "LEFT", Action::WorkspacePrev, "Previous workspace"));
    v.push(bind(ctrl_alt, "RIGHT", Action::WorkspaceNext, "Next workspace"));
    v.push(bind(sup, "E", exec("nautilus"), "Open file manager"));
    v.push(bind(sup, "L", exec("hyprlock"), "Lock system"));
    proof {
        assert(v@.map_values(|b: Binding| b@) =~= hybrid_bindings());
        lemma_hybrid_distinct();
    }
    Profile::new("hybrid", "Mixed Windows and macOS shortcuts", v)
}

/// The combos of the `windows` preset are pairwise distinct.
proof fn lemma_windows_distinct()
    ensures
        forall|i: int, j: int|
            0 <= i < windows_bindings().len() && 0 <= j < windows_bindings().len() && i != j
                ==> #[trigger] windows_bindings()[i].key_combo != #[trigger] windows_bindings()[j].key_combo,
{
    let s = windows_bindings();
        reveal_strlit("D");
        reveal_strlit("DOWN");
        reveal_strlit("E");
        reveal_strlit("ESCAPE");
        reveal_strlit("F4");
        reveal_strlit("L");
        reveal_strlit("LEFT");
        reveal_strlit("PRINT");
        reveal_strlit("RIGHT");
        reveal_strlit("S");
        reveal_strlit("T");
        reveal_strlit("TAB");
        reveal_strlit("UP");
        reveal_strlit("V");
    assert(s.len() == 17);
    assert(s[0] == pb(ms(false, false, true, false), "F4"@, ActionView::CloseWindow, "Close active window"@));
    assert(s[1] == pb(ms(false, false, true, false), "TAB"@, ActionView::CycleWindowNext, "Cycle windows forward"@));
    assert(s[2] == pb(ms(false, false, true, true), "TAB"@, ActionView::CycleWindowPrev, "Cycle windows backward"@));
    assert(s[3] == pb(ms(true, false, false, false), "LEFT"@, ActionView::SnapLeft, "Snap active window left"@));
    assert(s[4] == pb(ms(true, false, false, false), "RIGHT"@, ActionView::SnapRight, "Snap active window right"@));
    assert(s[5] == pb(ms(true, false, false, false), "UP"@, ActionView::Maximize, "Maximize active window"@));
    assert(s[6] == pb(ms(true, false, false, false), "DOWN"@, ActionView::Restore, "Restore active window"@));
    assert(s[7] == pb(ms(true, false, false, false), "D"@, ActionView::ToggleSpecialWorkspace(None), "Toggle desktop"@));
    assert(s[8] == pb(ms(false, true, true, false), "LEFT"@, ActionView::WorkspacePrev, "Previous workspace"@));
    assert(s[9] == pb(ms(false, true, true, false), "RIGHT"@, ActionView::WorkspaceNext, "Next workspace"@));
    assert(s[10] == pb(ms(true, false, false, false), "E"@, ActionView::Exec("nautilus"@), "Open file manager"@));
    assert(s[11] == pb(ms(true, false, false, false), "L"@, ActionView::Exec("hyprlock"@), "Lock system"@));
    assert(s[12] == pb(ms(true, false, false, false), "V"@, ActionView::Exec("omarchy-launch-clipboard"@), "Toggle clipboard manager"@));
    assert(s[13] == pb(ms(false, false, false, false), "PRINT"@, ActionView::Exec("omarchy-cmd-screenshot"@), "Take screenshot"@));
    assert(s[14] == pb(ms(true, false, false, true), "S"@, ActionView::Exec("omarchy-cmd-screenshot region"@), "Region screenshot"@));
    assert(s[15] == pb(ms(false, true, false, true), "ESCAPE"@, ActionView::Exec("omarchy-launch-tui btop"@), "Open task manager"@));
    assert(s[16] == pb(ms(false, true, true, false), "T"@, ActionView::Exec("omarchy-launch-terminal"@), "Open terminal"@));
    assert forall|i: int, j: int|
        0 <= i < s.len() && 0 <= j < s.len() && i != j implies #[trigger] s[i].key_combo != #[trigger] s[j].key_combo by {
        if i == 0 {
            if j == 1 {
                assert("F4"@.len() != "TAB"@.len());
                assert(s[0].key_combo != s[1].key_combo);
            } else if j == 2 {
                assert(s[0].key_combo != s[2].key_combo);
            } else if j == 3 {
                assert(s[0].key_combo != s[3].key_combo);
            } else if j == 4 {
                assert(s[0].key_combo != s[4].key_combo);
            } else if j == 5 {
                assert(s[0].key_combo != s[5].key_combo);
            } else if j == 6 {
                assert(s[0].key_combo != s[6].key_combo);
            } else if j == 7 {
                assert(s[0].key_combo != s[7].key_combo);
            } else if j == 8 {
                assert(s[0].key_combo != s[8].key_combo);
            } else if j == 9 {
                assert(s[0].key_combo != s[9].key_combo);
            } else if j == 10 {
                assert(s[0].key_combo != s[10].key_combo);
            } else if j == 11 {
                assert(s[0].key_combo != s[11].key_combo);
            } else if j == 12 {
                assert(s[0].key_combo != s[12].key_combo);
            } else if j == 13 {
                assert(s[0].key_combo != s[13].key_combo);
            } else if j == 14 {
                assert(s[0].key_combo != s[14].key_combo);
            } else if j == 15 {
                assert(s[0].key_combo != s[15].key_combo);
            } else if j == 16 {
                assert(s[0].key_combo != s[16].key_combo);
            }
        } else if i == 1 {
            if j == 0 {
                assert("TAB"@.len() != "F4"@.len());
                assert(s[1].key_combo != s[0].key_combo);
            } else if j == 2 {
                assert(s[1].key_combo != s[2].key_combo);
            } else if j == 3 {
                assert(s[1].key_combo != s[3].key_combo);
            } else if j == 4 {
                assert(s[1].key_combo != s[4].key_combo);
            } else if j == 5 {
                assert(s[1].key_combo != s[5].key_combo);
            } else if j == 6 {
                assert(s[1].key_combo != s[6].key_combo);
            } else if j == 7 {
                assert(s[1].key_combo != s[7].key_combo);
            } else if j == 8 {
                assert(s[1].key_combo != s[8].key_combo);
            } else if j == 9 {
                assert(s[1].key_combo != s[9].key_combo);
            } else if j == 10 {
                assert(s[1].key_combo != s[10].key_combo);
            } else if j == 11 {
                assert(s[1].key_combo != s[11].key_combo);
            } else if j == 12 {
                assert(s[1].key_combo != s[12].key_combo);
            } else if j == 13 {
                assert(s[1].key_combo != s[13].key_combo);
            } else if j == 14 {
                assert(s[1].key_combo != s[14].key_combo);
            } else if j == 15 {
                assert(s[1].key_combo != s[15].key_combo);
            } else if j == 16 {
                assert(s[1].key_combo != s[16].key_combo);
            }
        } else if i == 2 {
            if j == 0 {
                assert(s[2].key_combo != s[0].key_combo);
            } else if j == 1 {
                assert(s[2].key_combo != s[1].key_combo);
            } else if j == 3 {
                assert(s[2].key_combo != s[3].key_combo);
            } else if j == 4 {
                assert(s[2].key_combo != s[4].key_combo);
            } else if j == 5 {
                assert(s[2].key_combo != s[5].key_combo);
            } else if j == 6 {
                assert(s[2].key_combo != s[6].key_combo);
            } else if j == 7 {
                assert(s[2].key_combo != s[7].key_combo);
            } else if j == 8 {
                assert(s[2].key_combo != s[8].key_combo);
            } else if j == 9 {
                assert(s[2].key_combo != s[9].key_combo);
            } else if j == 10 {
                assert(s[2].key_combo != s[10].key_combo);
            } else if j == 11 {
                assert(s[2].key_combo != s[11].key_combo);
            } else if j == 12 {
                assert(s[2].key_combo != s[12].key_combo);
            } else if j == 13 {
                assert(s[2].key_combo != s[13].key_combo);
            } else if j == 14 {
                assert(s[2].key_combo != s[14].key_combo);
            } else if j == 15 {
                assert(s[2].key_combo != s[15].key_combo);
            } else if j == 16 {
                assert(s[2].key_combo != s[16].key_combo);
            }
        } else if i == 3 {
            if j == 0 {
                assert(s[3].key_combo != s[0].key_combo);
            } else if j == 1 {
                assert(s[3].key_combo != s[1].key_combo);
            } else if j == 2 {
                assert(s[3].key_combo != s[2].key_combo);
            } else if j == 4 {
                assert("LEFT"@.len() != "RIGHT"@.len());
                assert(s[3].key_combo != s[4].key_combo);
            } else if j == 5 {
                assert("LEFT"@.len() != "UP"@.len());
                assert(s[3].key_combo != s[5].key_combo);
            } else if j == 6 {
                assert("LEFT"@[0] != "DOWN"@[0]);
                assert(s[3].key_combo != s[6].key_combo);
            } else if j == 7 {
                assert("LEFT"@.len() != "D"@.len());
                assert(s[3].key_combo != s[7].key_combo);
            } else if j == 8 {
                assert(s[3].key_combo != s[8].key_combo);
            } else if j == 9 {
                assert(s[3].key_combo != s[9].key_combo);
            } else if j == 10 {
                assert("LEFT"@.len() != "E"@.len());
                assert(s[3].key_combo != s[10].key_combo);
            } else if j == 11 {
                assert("LEFT"@.len() != "L"@.len());
                assert(s[3].key_combo != s[11].key_combo);
            } else if j == 12 {
                assert("LEFT"@.len() != "V"@.len());
                assert(s[3].key_combo != s[12].key_combo);
            } else if j == 13 {
                assert(s[3].key_combo != s[13].key_combo);
            } else if j == 14 {
                assert(s[3].key_combo != s[14].key_combo);
            } else if j == 15 {
                assert(s[3].key_combo != s[15].key_combo);
            } else if j == 16 {
                assert(s[3].key_combo != s[16].key_combo);
            }
        } else if i == 4 {
            if j == 0 {
                assert(s[4].key_combo != s[0].key_combo);
            } else if j == 1 {
                assert(s[4].key_combo != s[1].key_combo);
            } else if j == 2 {
                assert(s[4].key_combo != s[2].key_combo);
            } else if j == 3 {
                assert("RIGHT"@.len() != "LEFT"@.len());
                assert(s[4].key_combo != s[3].key_combo);
            } else if j == 5 {
                assert("RIGHT"@.len() != "UP"@.len());
                assert(s[4].key_combo != s[5].key_combo);
            } else if j == 6 {
                assert("RIGHT"@.len() != "DOWN"@.len());
                assert(s[4].key_combo != s[6].key_combo);
            } else if j == 7 {
                assert("RIGHT"@.len() != "D"@.len());
                assert(s[4].key_combo != s[7].key_combo);
            } else if j == 8 {
                assert(s[4].key_combo != s[8].key_combo);
            } else if j == 9 {
                assert(s[4].key_combo != s[9].key_combo);
            } else if j == 10 {
                assert("RIGHT"@.len() != "E"@.len());
                assert(s[4].key_combo != s[10].key_combo);
            } else if j == 11 {
                assert("RIGHT"@.len() != "L"@.len());
                assert(s[4].key_combo != s[11].key_combo);
            } else if j == 12 {
                assert("RIGHT"@.len() != "V"@.len());
                assert(s[4].key_combo != s[12].key_combo);
            } else if j == 13 {
                assert(s[4].key_combo != s[13].key_combo);
            } else if j == 14 {
                assert(s[4].key_combo != s[14].key_combo);
            } else if j == 15 {
                assert(s[4].key_combo != s[15].key_combo);
            } else if j == 16 {
                assert(s[4].key_combo != s[16].key_combo);
            }
        } else if i == 5 {
            if j == 0 {
                assert(s[5].key_combo != s[0].key_combo);
            } else if j == 1 {
                assert(s[5].key_combo != s[1].key_combo);
            } else if j == 2 {
                assert(s[5].key_combo != s[2].key_combo);
            } else if j == 3 {
                assert("UP"@.len() != "LEFT"@.len());
                assert(s[5].key_combo != s[3].key_combo);
            } else if j == 4 {
                assert("UP"@.len() != "RIGHT"@.len());
                assert(s[5].key_combo != s[4].key_combo);
            } else if j == 6 {
                assert("UP"@.len() != "DOWN"@.len());
                assert(s[5].key_combo != s[6].key_combo);
            } else if j == 7 {
                assert("UP"@.len() != "D"@.len());
                assert(s[5].key_combo != s[7].key_combo);
            } else if j == 8 {
                assert(s[5].key_combo != s[8].key_combo);
            } else if j == 9 {
                assert(s[5].key_combo != s[9].key_combo);
            } else if j == 10 {
                assert("UP"@.len() != "E"@.len());
                assert(s[5].key_combo != s[10].key_combo);
            } else if j == 11 {
                assert("UP"@.len() != "L"@.len());
                assert(s[5].key_combo != s[11].key_combo);
            } else if j == 12 {
                assert("UP"@.len() != "V"@.len());
                assert(s[5].key_combo != s[12].key_combo);
            } else if j == 13 {
                assert(s[5].key_combo != s[13].key_combo);
            } else if j == 14 {
                assert(s[5].key_combo != s[14].key_combo);
            } else if j == 15 {
                assert(s[5].key_combo != s[15].key_combo);
            } else if j == 16 {
                assert(s[5].key_combo != s[16].key_combo);
            }
        } else if i == 6 {
            if j == 0 {
                assert(s[6].key_combo != s[0].key_combo);
            } else if j == 1 {
                assert(s[6].key_combo != s[1].key_combo);
            } else if j == 2 {
                assert(s[6].key_combo != s[2].key_combo);
            } else if j == 3 {
                assert("DOWN"@[0] != "LEFT"@[0]);
                assert(s[6].key_combo != s[3].key_combo);
            } else if j == 4 {
                assert("DOWN"@.len() != "RIGHT"@.len());
                assert(s[6].key_combo != s[4].key_combo);
            } else if j == 5 {
                assert("DOWN"@.len() != "UP"@.len());
                assert(s[6].key_combo != s[5].key_combo);
            } else if j == 7 {
                assert("DOWN"@.len() != "D"@.len());
                assert(s[6].key_combo != s[7].key_combo);
            } else if j == 8 {
                assert(s[6].key_combo != s[8].key_combo);
            } else if j == 9 {
                assert(s[6].key_combo != s[9].key_combo);
            } else if j == 10 {
                assert("DOWN"@.len() != "E"@.len());
                assert(s[6].key_combo != s[10].key_combo);
            } else if j == 11 {
                assert("DOWN"@.len() != "L"@.len());
                assert(s[6].key_combo != s[11].key_combo);
            } else if j == 12 {
                assert("DOWN"@.len() != "V"@.len());
                assert(s[6].key_combo != s[12].key_combo);
            } else if j == 13 {
                assert(s[6].key_combo != s[13].key_combo);
            } else if j == 14 {
                assert(s[6].key_combo != s[14].key_combo);
            } else if j == 15 {
                assert(s[6].key_combo != s[15].key_combo);
            } else if j == 16 {
                assert(s[6].key_combo != s[16].key_combo);
            }
        } else if i == 7 {
            if j == 0 {
                assert(s[7].key_combo != s[0].key_combo);
            } else if j == 1 {
                assert(s[7].key_combo != s[1].key_combo);
            } else if j == 2 {
                assert(s[7].key_combo != s[2].key_combo);
            } else if j == 3 {
                assert("D"@.len() != "LEFT"@.len());
                assert(s[7].key_combo != s[3].key_combo);
            } else if j == 4 {
                assert("D"@.len() != "RIGHT"@.len());
                assert(s[7].key_combo != s[4].key_combo);
            } else if j == 5 {
                assert("D"@.len() != "UP"@.len());
                assert(s[7].key_combo != s[5].key_combo);
            } else if j == 6 {
                assert("D"@.len() != "DOWN"@.len());
                assert(s[7].key_combo != s[6].key_combo);
            } else if j == 8 {
                assert(s[7].key_combo != s[8].key_combo);
            } else if j == 9 {
                assert(s[7].key_combo != s[9].key_combo);
            } else if j == 10 {
                assert("D"@[0] != "E"@[0]);
                assert(s[7].key_combo != s[10].key_combo);
            } else if j == 11 {
                assert("D"@[0] != "L"@[0]);
                assert(s[7].key_combo != s[11].key_combo);
            } else if j == 12 {
                assert("D"@[0] != "V"@[0]);
                assert(s[7].key_combo != s[12].key_combo);
            } else if j == 13 {
                assert(s[7].key_combo != s[13].key_combo);
            } else if j == 14 {
                assert(s[7].key_combo != s[14].key_combo);
            } else if j == 15 {
                assert(s[7].key_combo != s[15].key_combo);
            } else if j == 16 {
                assert(s[7].key_combo != s[16].key_combo);
            }
        } else if i == 8 {
            if j == 0 {
                assert(s[8].key_combo != s[0].key_combo);
            } else if j == 1 {
                assert(s[8].key_combo != s[1].key_combo);
            } else if j == 2 {
                assert(s[8].key_combo != s[2].key_combo);
            } else if j == 3 {
                assert(s[8].key_combo != s[3].key_combo);
            } else if j == 4 {
                assert(s[8].key_combo != s[4].key_combo);
            } else if j == 5 {
                assert(s[8].key_combo != s[5].key_combo);
            } else if j == 6 {
                assert(s[8].key_combo != s[6].key_combo);
            } else if j == 7 {
                assert(s[8].key_combo != s[7].key_combo);
            } else if j == 9 {
                assert("LEFT"@.len() != "RIGHT"@.len());
                assert(s[8].key_combo != s[9].key_combo);
            } else if j == 10 {
                assert(s[8].key_combo != s[10].key_combo);
            } else if j == 11 {
                assert(s[8].key_combo != s[11].key_combo);
            } else if j == 12 {
                assert(s[8].key_combo != s[12].key_combo);
            } else if j == 13 {
                assert(s[8].key_combo != s[13].key_combo);
            } else if j == 14 {
                assert(s[8].key_combo != s[14].key_combo);
            } else if j == 15 {
                assert(s[8].key_combo != s[15].key_combo);
            } else if j == 16 {
                assert("LEFT"@.len() != "T"@.len());
                assert(s[8].key_combo != s[16].key_combo);
            }
        } else if i == 9 {
            if j == 0 {
                assert(s[9].key_combo != s[0].key_combo);
            } else if j == 1 {
                assert(s[9].key_combo != s[1].key_combo);
            } else if j == 2 {
                assert(s[9].key_combo != s[2].key_combo);
            } else if j == 3 {
                assert(s[9].key_combo != s[3].key_combo);
            } else if j == 4 {
                assert(s[9].key_combo != s[4].key_combo);
            } else if j == 5 {
                assert(s[9].key_combo != s[5].key_combo);
            } else if j == 6 {
                assert(s[9].key_combo != s[6].key_combo);
            } else if j == 7 {
                assert(s[9].key_combo != s[7].key_combo);
            } else if j == 8 {
                assert("RIGHT"@.len() != "LEFT"@.len());
                assert(s[9].key_combo != s[8].key_combo);
            } else if j == 10 {
                assert(s[9].key_combo != s[10].key_combo);
            } else if j == 11 {
                assert(s[9].key_combo != s[11].key_combo);
            } else if j == 12 {
                assert(s[9].key_combo != s[12].key_combo);
            } else if j == 13 {
                assert(s[9].key_combo != s[13].key_combo);
            } else if j == 14 {
                assert(s[9].key_combo != s[14].key_combo);
            } else if j == 15 {
                assert(s[9].key_combo != s[15].key_combo);
            } else if j == 16 {
                assert("RIGHT"@.len() != "T"@.len());
                assert(s[9].key_combo != s[16].key_combo);
            }
        } else if i == 10 {
            if j == 0 {
                assert(s[10].key_combo != s[0].key_combo);
            } else if j == 1 {
                assert(s[10].key_combo != s[1].key_combo);
            } else if j == 2 {
                assert(s[10].key_combo != s[2].key_combo);
            } else if j == 3 {
                assert("E"@.len() != "LEFT"@.len());
                assert(s[10].key_combo != s[3].key_combo);
            } else if j == 4 {
                assert("E"@.len() != "RIGHT"@.len());
                assert(s[10].key_combo != s[4].key_combo);
            } else if j == 5 {
                assert("E"@.len() != "UP"@.len());
                assert(s[10].key_combo != s[5].key_combo);
            } else if j == 6 {
                assert("E"@.len() != "DOWN"@.len());
                assert(s[10].key_combo != s[6].key_combo);
            } else if j == 7 {
                assert("E"@[0] != "D"@[0]);
                assert(s[10].key_combo != s[7].key_combo);
            } else if j == 8 {
                assert(s[10].key_combo != s[8].key_combo);
            } else if j == 9 {
                assert(s[10].key_combo != s[9].key_combo);
            } else if j == 11 {
                assert("E"@[0] != "L"@[0]);
                assert(s[10].key_combo != s[11].key_combo);
            } else if j == 12 {
                assert("E"@[0] != "V"@[0]);
                assert(s[10].key_combo != s[12].key_combo);
            } else if j == 13 {
                assert(s[10].key_combo != s[13].key_combo);
            } else if j == 14 {
                assert(s[10].key_combo != s[14].key_combo);
            } else if j == 15 {
                assert(s[10].key_combo != s[15].key_combo);
            } else if j == 16 {
                assert(s[10].key_combo != s[16].key_combo);
            }
        } else if i == 11 {
            if j == 0 {
                assert(s[11].key_combo != s[0].key_combo);
            } else if j == 1 {
                assert(s[11].key_combo != s[1].key_combo);
            } else if j == 2 {
                assert(s[11].key_combo != s[2].key_combo);
            } else if j == 3 {
                assert("L"@.len() != "LEFT"@.len());
                assert(s[11].key_combo != s[3].key_combo);
            } else if j == 4 {
                assert("L"@.len() != "RIGHT"@.len());
                assert(s[11].key_combo != s[4].key_combo);
            } else if j == 5 {
                assert("L"@.len() != "UP"@.len());
                assert(s[11].key_combo != s[5].key_combo);
            } else if j == 6 {
                assert("L"@.len() != "DOWN"@.len());
                assert(s[11].key_combo != s[6].key_combo);
            } else if j == 7 {
                assert("L"@[0] != "D"@[0]);
                assert(s[11].key_combo != s[7].key_combo);
            } else if j == 8 {
                assert(s[11].key_combo != s[8].key_combo);
            } else if j == 9 {
                assert(s[11].key_combo != s[9].key_combo);
            } else if j == 10 {
                assert("L"@[0] != "E"@[0]);
                assert(s[11].key_combo != s[10].key_combo);
            } else if j == 12 {
                assert("L"@[0] != "V"@[0]);
                assert(s[11].key_combo != s[12].key_combo);
            } else if j == 13 {
                assert(s[11].key_combo != s[13].key_combo);
            } else if j == 14 {
                assert(s[11].key_combo != s[14].key_combo);
            } else if j == 15 {
                assert(s[11].key_combo != s[15].key_combo);
            } else if j == 16 {
                assert(s[11].key_combo != s[16].key_combo);
            }
        } else if i == 12 {
            if j == 0 {
                assert(s[12].key_combo != s[0].key_combo);
            } else if j == 1 {
                assert(s[12].key_combo != s[1].key_combo);
            } else if j == 2 {
                assert(s[12].key_combo != s[2].key_combo);
            } else if j == 3 {
                assert("V"@.len() != "LEFT"@.len());
                assert(s[12].key_combo != s[3].key_combo);
            } else if j == 4 {
                assert("V"@.len() != "RIGHT"@.len());
                assert(s[12].key_combo != s[4].key_combo);
            } else if j == 5 {
                assert("V"@.len() != "UP"@.len());
                assert(s[12].key_combo != s[5].key_combo);
            } else if j == 6 {
                assert("V"@.len() != "DOWN"@.len());
                assert(s[12].key_combo != s[6].key_combo);
            } else if j == 7 {
                assert("V"@[0] != "D"@[0]);
                assert(s[12].key_combo != s[7].key_combo);
            } else if j == 8 {
                assert(s[12].key_combo != s[8].key_combo);
            } else if j == 9 {
                assert(s[12].key_combo != s[9].key_combo);
            } else if j == 10 {
                assert("V"@[0] != "E"@[0]);
                assert(s[12].key_combo != s[10].key_combo);
            } else if j == 11 {
                assert("V"@[0] != "L"@[0]);
                assert(s[12].key_combo != s[11].key_combo);
            } else if j == 13 {
                assert(s[12].key_combo != s[13].key_combo);
            } else if j == 14 {
                assert(s[12].key_combo != s[14].key_combo);
            } else if j == 15 {
                assert(s[12].key_combo != s[15].key_combo);
            } else if j == 16 {
                assert(s[12].key_combo != s[16].key_combo);
            }
        } else if i == 13 {
            if j == 0 {
                assert(s[13].key_combo != s[0].key_combo);
            } else if j == 1 {
                assert(s[13].key_combo != s[1].key_combo);
            } else if j == 2 {
                assert(s[13].key_combo != s[2].key_combo);
            } else if j == 3 {
                assert(s[13].key_combo != s[3].key_combo);
            } else if j == 4 {
                assert(s[13].key_combo != s[4].key_combo);
            } else if j == 5 {
                assert(s[13].key_combo != s[5].key_combo);
            } else if j == 6 {
                assert(s[13].key_combo != s[6].key_combo);
            } else if j == 7 {
                assert(s[13].key_combo != s[7].key_combo);
            } else if j == 8 {
                assert(s[13].key_combo != s[8].key_combo);
            } else if j == 9 {
                assert(s[13].key_combo != s[9].key_combo);
            } else if j == 10 {
                assert(s[13].key_combo != s[10].key_combo);
            } else if j == 11 {
                assert(s[13].key_combo != s[11].key_combo);
            } else if j == 12 {
                assert(s[13].key_combo != s[12].key_combo);
            } else if j == 14 {
                assert(s[13].key_combo != s[14].key_combo);
            } else if j == 15 {
                assert(s[13].key_combo != s[15].key_combo);
            } else if j == 16 {
                assert(s[13].key_combo != s[16].key_combo);
            }
        } else if i == 14 {
            if j == 0 {
                assert(s[14].key_combo != s[0].key_combo);
            } else if j == 1 {
                assert(s[14].key_combo != s[1].key_combo);
            } else if j == 2 {
                assert(s[14].key_combo != s[2].key_combo);
            } else if j == 3 {
                assert(s[14].key_combo != s[3].key_combo);
            } else if j == 4 {
                assert(s[14].key_combo != s[4].key_combo);
            } else if j == 5 {
                assert(s[14].key_combo != s[5].key_combo);
            } else if j == 6 {
                assert(s[14].key_combo != s[6].key_combo);
            } else if j == 7 {
                assert(s[14].key_combo != s[7].key_combo);
            } else if j == 8 {
                assert(s[14].key_combo != s[8].key_combo);
            } else if j == 9 {
                assert(s[14].key_combo != s[9].key_combo);
            } else if j == 10 {
                assert(s[14].key_combo != s[10].key_combo);
            } else if j == 11 {
                assert(s[14].key_combo != s[11].key_combo);
            } else if j == 12 {
                assert(s[14].key_combo != s[12].key_combo);
            } else if j == 13 {
                assert(s[14].key_combo != s[13].key_combo);
            } else if j == 15 {
                assert(s[14].key_combo != s[15].key_combo);
            } else if j == 16 {
                assert(s[14].key_combo != s[16].key_combo);
            }
        } else if i == 15 {
            if j == 0 {
                assert(s[15].key_combo != s[0].key_combo);
            } else if j == 1 {
                assert(s[15].key_combo != s[1].key_combo);
            } else if j == 2 {
                assert(s[15].key_combo != s[2].key_combo);
            } else if j == 3 {
                assert(s[15].key_combo != s[3].key_combo);
            } else if j == 4 {
                assert(s[15].key_combo != s[4].key_combo);
            } else if j == 5 {
                assert(s[15].key_combo != s[5].key_combo);
            } else if j == 6 {
                assert(s[15].key_combo != s[6].key_combo);
            } else if j == 7 {
                assert(s[15].key_combo != s[7].key_combo);
            } else if j == 8 {
                assert(s[15].key_combo != s[8].key_combo);
            } else if j == 9 {
                assert(s[15].key_combo != s[9].key_combo);
            } else if j == 10 {
                assert(s[15].key_combo != s[10].key_combo);
            } else if j == 11 {
                assert(s[15].key_combo != s[11].key_combo);
            } else if j == 12 {
                assert(s[15].key_combo != s[12].key_combo);
            } else if j == 13 {
                assert(s[15].key_combo != s[13].key_combo);
            } else if j == 14 {
                assert(s[15].key_combo != s[14].key_combo);
            } else if j == 16 {
                assert(s[15].key_combo != s[16].key_combo);
            }
        } else if i == 16 {
            if j == 0 {
                assert(s[16].key_combo != s[0].key_combo);
            } else if j == 1 {
                assert(s[16].key_combo != s[1].key_combo);
            } else if j == 2 {
                assert(s[16].key_combo != s[2].key_combo);
            } else if j == 3 {
                assert(s[16].key_combo != s[3].key_combo);
            } else if j == 4 {
                assert(s[16].key_combo != s[4].key_combo);
            } else if j == 5 {
                assert(s[16].key_combo != s[5].key_combo);
            } else if j == 6 {
                assert(s[16].key_combo != s[6].key_combo);
            } else if j == 7 {
                assert(s[16].key_combo != s[7].key_combo);
            } else if j == 8 {
                assert("T"@.len() != "LEFT"@.len());
                assert(s[16].key_combo != s[8].key_combo);
            } else if j == 9 {
                assert("T"@.len() != "RIGHT"@.len());
                assert(s[16].key_combo != s[9].key_combo);
            } else if j == 10 {
                assert(s[16].key_combo != s[10].key_combo);
            } else if j == 11 {
                assert(s[16].key_combo != s[11].key_combo);
            } else if j == 12 {
                assert(s[16].key_combo != s[12].key_combo);
            } else if j == 13 {
                assert(s[16].key_combo != s[13].key_combo);
            } else if j == 14 {
                assert(s[16].key_combo != s[14].key_combo);
            } else if j == 15 {
                assert(s[16].key_combo != s[15].key_combo);
            }
        }
    }
}

/// The combos of the `macos` preset are pairwise distinct.
proof fn lemma_macos_distinct()
    ensures
        forall|i: int, j: int|
            0 <= i < macos_bindings().len() && 0 <= j < macos_bindings().len() && i != j
                ==> #[trigger] macos_bindings()[i].key_combo != #[trigger] macos_bindings()[j].key_combo,
{
    let s = macos_bindings();
        reveal_strlit("4");
        reveal_strlit("DOWN");
        reveal_strlit("E");
        reveal_strlit("F");
        reveal_strlit("L");
        reveal_strlit("LEFT");
        reveal_strlit("Q");
        reveal_strlit("RIGHT");
        reveal_strlit("SPACE");
        reveal_strlit("TAB");
        reveal_strlit("UP");
        reveal_strlit("W");
    assert(s.len() == 15);
    assert(s[0] == pb(ms(true, false, false, false), "Q"@, ActionView::CloseWindow, "Quit application"@));
    assert(s[1] == pb(ms(true, false, false, false), "W"@, ActionView::CloseWindow, "Close window"@));
    assert(s[2] == pb(ms(true, true, false, false), "F"@, ActionView::Fullscreen, "Toggle fullscreen"@));
    assert(s[3] == pb(ms(true, false, false, false), "SPACE"@, ActionView::ToggleLauncher(None), "Application launcher"@));
    assert(s[4] == pb(ms(true, false, false, false), "TAB"@, ActionView::CycleWindowNext, "Cycle windows forward"@));
    assert(s[5] == pb(ms(true, false, false, true), "TAB"@, ActionView::CycleWindowPrev, "Cycle windows backward"@));
    assert(s[6] == pb(ms(true, true, false, false), "LEFT"@, ActionView::SnapLeft, "Snap active window left"@));
    assert(s[7] == pb(ms(true, true, false, false), "RIGHT"@, ActionView::SnapRight, "Snap active window right"@));
    assert(s[8] == pb(ms(true, true, false, false), "UP"@, ActionView::Maximize, "Maximize active window"@));
    assert(s[9] == pb(ms(true, true, false, false), "DOWN"@, ActionView::Restore, "Restore active window"@));
    assert(s[10] == pb(ms(false, true, false, false), "LEFT"@, ActionView::WorkspacePrev, "Previous workspace"@));
    assert(s[11] == pb(ms(false, true, false, false), "RIGHT"@, ActionView::WorkspaceNext, "Next workspace"@));
    assert(s[12] == pb(ms(true, false, false, false), "E"@, ActionView::Exec("nautilus"@), "Open file manager"@));
    assert(s[13] == pb(ms(true, false, false, false), "L"@, ActionView::Exec("hyprlock"@), "Lock system"@));
    assert(s[14] == pb(ms(true, false, false, true), "4"@, ActionView::Exec("omarchy-cmd-screenshot region"@), "Region screenshot"@));
    assert forall|i: int, j: int|
        0 <= i < s.len() && 0 <= j < s.len() && i != j implies #[trigger] s[i].key_combo != #[trigger] s[j].key_combo by {
        if i == 0 {
            if j == 1 {
                assert("Q"@[0] != "W"@[0]);
                assert(s[0].key_combo != s[1].key_combo);
            } else if j == 2 {
                assert(s[0].key_combo != s[2].key_combo);
            } else if j == 3 {
                assert("Q"@.len() != "SPACE"@.len());
                assert(s[0].key_combo != s[3].key_combo);
            } else if j == 4 {
                assert("Q"@.len() != "TAB"@.len());
                assert(s[0].key_combo != s[4].key_combo);
            } else if j == 5 {
                assert(s[0].key_combo != s[5].key_combo);
            } else if j == 6 {
                assert(s[0].key_combo != s[6].key_combo);
            } else if j == 7 {
                assert(s[0].key_combo != s[7].key_combo);
            } else if j == 8 {
                assert(s[0].key_combo != s[8].key_combo);
            } else if j == 9 {
                assert(s[0].key_combo != s[9].key_combo);
            } else if j == 10 {
                assert(s[0].key_combo != s[10].key_combo);
            } else if j == 11 {
                assert(s[0].key_combo != s[11].key_combo);
            } else if j == 12 {
                assert("Q"@[0] != "E"@[0]);
                assert(s[0].key_combo != s[12].key_combo);
            } else if j == 13 {
                assert("Q"@[0] != "L"@[0]);
                assert(s[0].key_combo != s[13].key_combo);
            } else if j == 14 {
                assert(s[0].key_combo != s[14].key_combo);
            }
        } else if i == 1 {
            if j == 0 {
                assert("W"@[0] != "Q"@[0]);
                assert(s[1].key_combo != s[0].key_combo);
            } else if j == 2 {
                assert(s[1].key_combo != s[2].key_combo);
            } else if j == 3 {
                assert("W"@.len() != "SPACE"@.len());
                assert(s[1].key_combo != s[3].key_combo);
            } else if j == 4 {
                assert("W"@.len() != "TAB"@.len());
                assert(s[1].key_combo != s[4].key_combo);
            } else if j == 5 {
                assert(s[1].key_combo != s[5].key_combo);
            } else if j == 6 {
                assert(s[1].key_combo != s[6].key_combo);
            } else if j == 7 {
                assert(s[1].key_combo != s[7].key_combo);
            } else if j == 8 {
                assert(s[1].key_combo != s[8].key_combo);
            } else if j == 9 {
                assert(s[1].key_combo != s[9].key_combo);
            } else if j == 10 {
                assert(s[1].key_combo != s[10].key_combo);
            } else if j == 11 {
                assert(s[1].key_combo != s[11].key_combo);
            } else if j == 12 {
                assert("W"@[0] != "E"@[0]);
                assert(s[1].key_combo != s[12].key_combo);
            } else if j == 13 {
                assert("W"@[0] != "L"@[0]);
                assert(s[1].key_combo != s[13].key_combo);
            } else if j == 14 {
                assert(s[1].key_combo != s[14].key_combo);
            }
        } else if i == 2 {
            if j == 0 {
                assert(s[2].key_combo != s[0].key_combo);
            } else if j == 1 {
                assert(s[2].key_combo != s[1].key_combo);
            } else if j == 3 {
                assert(s[2].key_combo != s[3].key_combo);
            } else if j == 4 {
                assert(s[2].key_combo != s[4].key_combo);
            } else if j == 5 {
                assert(s[2].key_combo != s[5].key_combo);
            } else if j == 6 {
                assert("F"@.len() != "LEFT"@.len());
                assert(s[2].key_combo != s[6].key_combo);
            } else if j == 7 {
                assert("F"@.len() != "RIGHT"@.len());
                assert(s[2].key_combo != s[7].key_combo);
            } else if j == 8 {
                assert("F"@.len() != "UP"@.len());
                assert(s[2].key_combo != s[8].key_combo);
            } else if j == 9 {
                assert("F"@.len() != "DOWN"@.len());
                assert(s[2].key_combo != s[9].key_combo);
            } else if j == 10 {
                assert(s[2].key_combo != s[10].key_combo);
            } else if j == 11 {
                assert(s[2].key_combo != s[11].key_combo);
            } else if j == 12 {
                assert(s[2].key_combo != s[12].key_combo);
            } else if j == 13 {
                assert(s[2].key_combo != s[13].key_combo);
            } else if j == 14 {
                assert(s[2].key_combo != s[14].key_combo);
            }
        } else if i == 3 {
            if j == 0 {
                assert("SPACE"@.len() != "Q"@.len());
                assert(s[3].key_combo != s[0].key_combo);
            } else if j == 1 {
                assert("SPACE"@.len() != "W"@.len());
                assert(s[3].key_combo != s[1].key_combo);
            } else if j == 2 {
                assert(s[3].key_combo != s[2].key_combo);
            } else if j == 4 {
                assert("SPACE"@.len() != "TAB"@.len());
                assert(s[3].key_combo != s[4].key_combo);
            } else if j == 5 {
                assert(s[3].key_combo != s[5].key_combo);
            } else if j == 6 {
                assert(s[3].key_combo != s[6].key_combo);
            } else if j == 7 {
                assert(s[3].key_combo != s[7].key_combo);
            } else if j == 8 {
                assert(s[3].key_combo != s[8].key_combo);
            } else if j == 9 {
                assert(s[3].key_combo != s[9].key_combo);
            } else if j == 10 {
                assert(s[3].key_combo != s[10].key_combo);
            } else if j == 11 {
                assert(s[3].key_combo != s[11].key_combo);
            } else if j == 12 {
                assert("SPACE"@.len() != "E"@.len());
                assert(s[3].key_combo != s[12].key_combo);
            } else if j == 13 {
                assert("SPACE"@.len() != "L"@.len());
                assert(s[3].key_combo != s[13].key_combo);
            } else if j == 14 {
                assert(s[3].key_combo != s[14].key_combo);
            }
        } else if i == 4 {
            if j == 0 {
                assert("TAB"@.len() != "Q"@.len());
                assert(s[4].key_combo != s[0].key_combo);
            } else if j == 1 {
                assert("TAB"@.len() != "W"@.len());
                assert(s[4].key_combo != s[1].key_combo);
            } else if j == 2 {
                assert(s[4].key_combo != s[2].key_combo);
            } else if j == 3 {
                assert("TAB"@.len() != "SPACE"@.len());
                assert(s[4].key_combo != s[3].key_combo);
            } else if j == 5 {
                assert(s[4].key_combo != s[5].key_combo);
            } else if j == 6 {
                assert(s[4].key_combo != s[6].key_combo);
            } else if j == 7 {
                assert(s[4].key_combo != s[7].key_combo);
            } else if j == 8 {
                assert(s[4].key_combo != s[8].key_combo);
            } else if j == 9 {
                assert(s[4].key_combo != s[9].key_combo);
            } else if j == 10 {
                assert(s[4].key_combo != s[10].key_combo);
            } else if j == 11 {
                assert(s[4].key_combo != s[11].key_combo);
            } else if j == 12 {
                assert("TAB"@.len() != "E"@.len());
                assert(s[4].key_combo != s[12].key_combo);
            } else if j == 13 {
                assert("TAB"@.len() != "L"@.len());
                assert(s[4].key_combo != s[13].key_combo);
            } else if j == 14 {
                assert(s[4].key_combo != s[14].key_combo);
            }
        } else if i == 5 {
            if j == 0 {
                assert(s[5].key_combo != s[0].key_combo);
            } else if j == 1 {
                assert(s[5].key_combo != s[1].key_combo);
            } else if j == 2 {
                assert(s[5].key_combo != s[2].key_combo);
            } else if j == 3 {
                assert(s[5].key_combo != s[3].key_combo);
            } else if j == 4 {
                assert(s[5].key_combo != s[4].key_combo);
            } else if j == 6 {
                assert(s[5].key_combo != s[6].key_combo);
            } else if j == 7 {
                assert(s[5].key_combo != s[7].key_combo);
            } else if j == 8 {
                assert(s[5].key_combo != s[8].key_combo);
            } else if j == 9 {
                assert(s[5].key_combo != s[9].key_combo);
            } else if j == 10 {
                assert(s[5].key_combo != s[10].key_combo);
            } else if j == 11 {
                assert(s[5].key_combo != s[11].key_combo);
            } else if j == 12 {
                assert(s[5].key_combo != s[12].key_combo);
            } else if j == 13 {
                assert(s[5].key_combo != s[13].key_combo);
            } else if j == 14 {
                assert("TAB"@.len() != "4"@.len());
                assert(s[5].key_combo != s[14].key_combo);
            }
        } else if i == 6 {
            if j == 0 {
                assert(s[6].key_combo != s[0].key_combo);
            } else if j == 1 {
                assert(s[6].key_combo != s[1].key_combo);
            } else if j == 2 {
                assert("LEFT"@.len() != "F"@.len());
                assert(s[6].key_combo != s[2].key_combo);
            } else if j == 3 {
                assert(s[6].key_combo != s[3].key_combo);
            } else if j == 4 {
                assert(s[6].key_combo != s[4].key_combo);
            } else if j == 5 {
                assert(s[6].key_combo != s[5].key_combo);
            } else if j == 7 {
                assert("LEFT"@.len() != "RIGHT"@.len());
                assert(s[6].key_combo != s[7].key_combo);
            } else if j == 8 {
                assert("LEFT"@.len() != "UP"@.len());
                assert(s[6].key_combo != s[8].key_combo);
            } else if j == 9 {
                assert("LEFT"@[0] != "DOWN"@[0]);
                assert(s[6].key_combo != s[9].key_combo);
            } else if j == 10 {
                assert(s[6].key_combo != s[10].key_combo);
            } else if j == 11 {
                assert(s[6].key_combo != s[11].key_combo);
            } else if j == 12 {
                assert(s[6].key_combo != s[12].key_combo);
            } else if j == 13 {
                assert(s[6].key_combo != s[13].key_combo);
            } else if j == 14 {
                assert(s[6].key_combo != s[14].key_combo);
            }
        } else if i == 7 {
            if j == 0 {
                assert(s[7].key_combo != s[0].key_combo);
            } else if j == 1 {
                assert(s[7].key_combo != s[1].key_combo);
            } else if j == 2 {
                assert("RIGHT"@.len() != "F"@.len());
                assert(s[7].key_combo != s[2].key_combo);
            } else if j == 3 {
                assert(s[7].key_combo != s[3].key_combo);
            } else if j == 4 {
                assert(s[7].key_combo != s[4].key_combo);
            } else if j == 5 {
                assert(s[7].key_combo != s[5].key_combo);
            } else if j == 6 {
                assert("RIGHT"@.len() != "LEFT"@.len());
                assert(s[7].key_combo != s[6].key_combo);
            } else if j == 8 {
                assert("RIGHT"@.len() != "UP"@.len());
                assert(s[7].key_combo != s[8].key_combo);
            } else if j == 9 {
                assert("RIGHT"@.len() != "DOWN"@.len());
                assert(s[7].key_combo != s[9].key_combo);
            } else if j == 10 {
                assert(s[7].key_combo != s[10].key_combo);
            } else if j == 11 {
                assert(s[7].key_combo != s[11].key_combo);
            } else if j == 12 {
                assert(s[7].key_combo != s[12].key_combo);
            } else if j == 13 {
                assert(s[7].key_combo != s[13].key_combo);
            } else if j == 14 {
                assert(s[7].key_combo != s[14].key_combo);
            }
        } else if i == 8 {
            if j == 0 {
                assert(s[8].key_combo != s[0].key_combo);
            } else if j == 1 {
                assert(s[8].key_combo != s[1].key_combo);
            } else if j == 2 {
                assert("UP"@.len() != "F"@.len());
                assert(s[8].key_combo != s[2].key_combo);
            } else if j == 3 {
                assert(s[8].key_combo != s[3].key_combo);
            } else if j == 4 {
                assert(s[8].key_combo != s[4].key_combo);
            } else if j == 5 {
                assert(s[8].key_combo != s[5].key_combo);
            } else if j == 6 {
                assert("UP"@.len() != "LEFT"@.len());
                assert(s[8].key_combo != s[6].key_combo);
            } else if j == 7 {
                assert("UP"@.len() != "RIGHT"@.len());
                assert(s[8].key_combo != s[7].key_combo);
            } else if j == 9 {
                assert("UP"@.len() != "DOWN"@.len());
                assert(s[8].key_combo != s[9].key_combo);
            } else if j == 10 {
                assert(s[8].key_combo != s[10].key_combo);
            } else if j == 11 {
                assert(s[8].key_combo != s[11].key_combo);
            } else if j == 12 {
                assert(s[8].key_combo != s[12].key_combo);
            } else if j == 13 {
                assert(s[8].key_combo != s[13].key_combo);
            } else if j == 14 {
                assert(s[8].key_combo != s[14].key_combo);
            }
        } else if i == 9 {
            if j == 0 {
                assert(s[9].key_combo != s[0].key_combo);
            } else if j == 1 {
                assert(s[9].key_combo != s[1].key_combo);
            } else if j == 2 {
                assert("DOWN"@.len() != "F"@.len());
                assert(s[9].key_combo != s[2].key_combo);
            } else if j == 3 {
                assert(s[9].key_combo != s[3].key_combo);
            } else if j == 4 {
                assert(s[9].key_combo != s[4].key_combo);
            } else if j == 5 {
                assert(s[9].key_combo != s[5].key_combo);
            } else if j == 6 {
                assert("DOWN"@[0] != "LEFT"@[0]);
                assert(s[9].key_combo != s[6].key_combo);
            } else if j == 7 {
                assert("DOWN"@.len() != "RIGHT"@.len());
                assert(s[9].key_combo != s[7].key_combo);
            } else if j == 8 {
                assert("DOWN"@.len() != "UP"@.len());
                assert(s[9].key_combo != s[8].key_combo);
            } else if j == 10 {
                assert(s[9].key_combo != s[10].key_combo);
            } else if j == 11 {
                assert(s[9].key_combo != s[11].key_combo);
            } else if j == 12 {
                assert(s[9].key_combo != s[12].key_combo);
            } else if j == 13 {
                assert(s[9].key_combo != s[13].key_combo);
            } else if j == 14 {
                assert(s[9].key_combo != s[14].key_combo);
            }
        } else if i == 10 {
            if j == 0 {
                assert(s[10].key_combo != s[0].key_combo);
            } else if j == 1 {
                assert(s[10].key_combo != s[1].key_combo);
            } else if j == 2 {
                assert(s[10].key_combo != s[2].key_combo);
            } else if j == 3 {
                assert(s[10].key_combo != s[3].key_combo);
            } else if j == 4 {
                assert(s[10].key_combo != s[4].key_combo);
            } else if j == 5 {
                assert(s[10].key_combo != s[5].key_combo);
            } else if j == 6 {
                assert(s[10].key_combo != s[6].key_combo);
            } else if j == 7 {
                assert(s[10].key_combo != s[7].key_combo);
            } else if j == 8 {
                assert(s[10].key_combo != s[8].key_combo);
            } else if j == 9 {
                assert(s[10].key_combo != s[9].key_combo);
            } else if j == 11 {
                assert("LEFT"@.len() != "RIGHT"@.len());
                assert(s[10].key_combo != s[11].key_combo);
            } else if j == 12 {
                assert(s[10].key_combo != s[12].key_combo);
            } else if j == 13 {
                assert(s[10].key_combo != s[13].key_combo);
            } else if j == 14 {
                assert(s[10].key_combo != s[14].key_combo);
            }
        } else if i == 11 {
            if j == 0 {
                assert(s[11].key_combo != s[0].key_combo);
            } else if j == 1 {
                assert(s[11].key_combo != s[1].key_combo);
            } else if j == 2 {
                assert(s[11].key_combo != s[2].key_combo);
            } else if j == 3 {
                assert(s[11].key_combo != s[3].key_combo);
            } else if j == 4 {
                assert(s[11].key_combo != s[4].key_combo);
            } else if j == 5 {
                assert(s[11].key_combo != s[5].key_combo);
            } else if j == 6 {
                assert(s[11].key_combo != s[6].key_combo);
            } else if j == 7 {
                assert(s[11].key_combo != s[7].key_combo);
            } else if j == 8 {
                assert(s[11].key_combo != s[8].key_combo);
            } else if j == 9 {
                assert(s[11].key_combo != s[9].key_combo);
            } else if j == 10 {
                assert("RIGHT"@.len() != "LEFT"@.len());
                assert(s[11].key_combo != s[10].key_combo);
            } else if j == 12 {
                assert(s[11].key_combo != s[12].key_combo);
            } else if j == 13 {
                assert(s[11].key_combo != s[13].key_combo);
            } else if j == 14 {
                assert(s[11].key_combo != s[14].key_combo);
            }
        } else if i == 12 {
            if j == 0 {
                assert("E"@[0] != "Q"@[0]);
                assert(s[12].key_combo != s[0].key_combo);
            } else if j == 1 {
                assert("E"@[0] != "W"@[0]);
                assert(s[12].key_combo != s[1].key_combo);
            } else if j == 2 {
                assert(s[12].key_combo != s[2].key_combo);
            } else if j == 3 {
                assert("E"@.len() != "SPACE"@.len());
                assert(s[12].key_combo != s[3].key_combo);
            } else if j == 4 {
                assert("E"@.len() != "TAB"@.len());
                assert(s[12].key_combo != s[4].key_combo);
            } else if j == 5 {
                assert(s[12].key_combo != s[5].key_combo);
            } else if j == 6 {
                assert(s[12].key_combo != s[6].key_combo);
            } else if j == 7 {
                assert(s[12].key_combo != s[7].key_combo);
            } else if j == 8 {
                assert(s[12].key_combo != s[8].key_combo);
            } else if j == 9 {
                assert(s[12].key_combo != s[9].key_combo);
            } else if j == 10 {
                assert(s[12].key_combo != s[10].key_combo);
            } else if j == 11 {
                assert(s[12].key_combo != s[11].key_combo);
            } else if j == 13 {
                assert("E"@[0] != "L"@[0]);
                assert(s[12].key_combo != s[13].key_combo);
            } else if j == 14 {
                assert(s[12].key_combo != s[14].key_combo);
            }
        } else if i == 13 {
            if j == 0 {
                assert("L"@[0] != "Q"@[0]);
                assert(s[13].key_combo != s[0].key_combo);
            } else if j == 1 {
                assert("L"@[0] != "W"@[0]);
                assert(s[13].key_combo != s[1].key_combo);
            } else if j == 2 {
                assert(s[13].key_combo != s[2].key_combo);
            } else if j == 3 {
                assert("L"@.len() != "SPACE"@.len());
                assert(s[13].key_combo != s[3].key_combo);
            } else if j == 4 {
                assert("L"@.len() != "TAB"@.len());
                assert(s[13].key_combo != s[4].key_combo);
            } else if j == 5 {
                assert(s[13].key_combo != s[5].key_combo);
            } else if j == 6 {
                assert(s[13].key_combo != s[6].key_combo);
            } else if j == 7 {
                assert(s[13].key_combo != s[7].key_combo);
            } else if j == 8 {
                assert(s[13].key_combo != s[8].key_combo);
            } else if j == 9 {
                assert(s[13].key_combo != s[9].key_combo);
            } else if j == 10 {
                assert(s[13].key_combo != s[10].key_combo);
            } else if j == 11 {
                assert(s[13].key_combo != s[11].key_combo);
            } else if j == 12 {
                assert("L"@[0] != "E"@[0]);
                assert(s[13].key_combo != s[12].key_combo);
            } else if j == 14 {
                assert(s[13].key_combo != s[14].key_combo);
            }
        } else if i == 14 {
            if j == 0 {
                assert(s[14].key_combo != s[0].key_combo);
            } else if j == 1 {
                assert(s[14].key_combo != s[1].key_combo);
            } else if j == 2 {
                assert(s[14].key_combo != s[2].key_combo);
            } else if j == 3 {
                assert(s[14].key_combo != s[3].key_combo);
            } else if j == 4 {
                assert(s[14].key_combo != s[4].key_combo);
            } else if j == 5 {
                assert("4"@.len() != "TAB"@.len());
                assert(s[14].key_combo != s[5].key_combo);
            } else if j == 6 {
                assert(s[14].key_combo != s[6].key_combo);
            } else if j == 7 {
                assert(s[14].key_combo != s[7].key_combo);
            } else if j == 8 {
                assert(s[14].key_combo != s[8].key_combo);
            } else if j == 9 {
                assert(s[14].key_combo != s[9].key_combo);
            } else if j == 10 {
                assert(s[14].key_combo != s[10].key_combo);
            } else if j == 11 {
                assert(s[14].key_combo != s[11].key_combo);
            } else if j == 12 {
                assert(s[14].key_combo != s[12].key_combo);
            } else if j == 13 {
                assert(s[14].key_combo != s[13].key_combo);
            }
        }
    }
}

/// The combos of the `hybrid` preset are pairwise distinct.
proof fn lemma_hybrid_distinct()
    ensures
        forall|i: int, j: int|
            0 <= i < hybrid_bindings().len() && 0 <= j < hybrid_bindings().len() && i != j
                ==> #[trigger] hybrid_bindings()[i].key_combo != #[trigger] hybrid_bindings()[j].key_combo,
{
    let s = hybrid_bindings();
        reveal_strlit("DOWN");
        reveal_strlit("E");
        reveal_strlit("F4");
        reveal_strlit("L");
        reveal_strlit("LEFT");
        reveal_strlit("Q");
        reveal_strlit("RIGHT");
        reveal_strlit("SPACE");
        reveal_strlit("TAB");
        reveal_strlit("UP");
    assert(s.len() == 12);
    assert(s[0] == pb(ms(false, false, true, false), "F4"@, ActionView::CloseWindow, "Close active window"@));
    assert(s[1] == pb(ms(true, false, false, false), "Q"@, ActionView::CloseWindow, "Quit application"@));
    assert(s[2] == pb(ms(false, false, true, false), "TAB"@, ActionView::CycleWindowNext, "Cycle windows forward"@));
    assert(s[3] == pb(ms(true, false, false, false), "LEFT"@, ActionView::SnapLeft, "Snap active window left"@));
    assert(s[4] == pb(ms(true, false, false, false), "RIGHT"@, ActionView::SnapRight, "Snap active window right"@));
    assert(s[5] == pb(ms(true, false, false, false), "UP"@, ActionView::Maximize, "Maximize active window"@));
    assert(s[6] == pb(ms(true, false, false, false), "DOWN"@, ActionView::Restore, "Restore active window"@));
    assert(s[7] == pb(ms(true, false, false, false), "SPACE"@, ActionView::ToggleLauncher(None), "Application launcher"@));
    assert(s[8] == pb(ms(false, true, true, false), "LEFT"@, ActionView::WorkspacePrev, "Previous workspace"@));
    assert(s[9] == pb(ms(false, true, true, false), "RIGHT"@, ActionView::WorkspaceNext, "Next workspace"@));
    assert(s[10] == pb(ms(true, false, false, false), "E"@, ActionView::Exec("nautilus"@), "Open file manager"@));
    assert(s[11] == pb(ms(true, false, false, false), "L"@, ActionView::Exec("hyprlock"@), "Lock system"@));
    assert forall|i: int, j: int|
        0 <= i < s.len() && 0 <= j < s.len() && i != j implies #[trigger] s[i].key_combo != #[trigger] s[j].key_combo by {
        if i == 0 {
            if j == 1 {
                assert(s[0].key_combo != s[1].key_combo);
            } else if j == 2 {
                assert("F4"@.len() != "TAB"@.len());
                assert(s[0].key_combo != s[2].key_combo);
            } else if j == 3 {
                assert(s[0].key_combo != s[3].key_combo);
            } else if j == 4 {
                assert(s[0].key_combo != s[4].key_combo);
            } else if j == 5 {
                assert(s[0].key_combo != s[5].key_combo);
            } else if j == 6 {
                assert(s[0].key_combo != s[6].key_combo);
            } else if j == 7 {
                assert(s[0].key_combo != s[7].key_combo);
            } else if j == 8 {
                assert(s[0].key_combo != s[8].key_combo);
            } else if j == 9 {
                assert(s[0].key_combo != s[9].key_combo);
            } else if j == 10 {
                assert(s[0].key_combo != s[10].key_combo);
            } else if j == 11 {
                assert(s[0].key_combo != s[11].key_combo);
            }
        } else if i == 1 {
            if j == 0 {
                assert(s[1].key_combo != s[0].key_combo);
            } else if j == 2 {
                assert(s[1].key_combo != s[2].key_combo);
            } else if j == 3 {
                assert("Q"@.len() != "LEFT"@.len());
                assert(s[1].key_combo != s[3].key_combo);
            } else if j == 4 {
                assert("Q"@.len() != "RIGHT"@.len());
                assert(s[1].key_combo != s[4].key_combo);
            } else if j == 5 {
                assert("Q"@.len() != "UP"@.len());
                assert(s[1].key_combo != s[5].key_combo);
            } else if j == 6 {
                assert("Q"@.len() != "DOWN"@.len());
                assert(s[1].key_combo != s[6].key_combo);
            } else if j == 7 {
                assert("Q"@.len() != "SPACE"@.len());
                assert(s[1].key_combo != s[7].key_combo);
            } else if j == 8 {
                assert(s[1].key_combo != s[8].key_combo);
            } else if j == 9 {
                assert(s[1].key_combo != s[9].key_combo);
            } else if j == 10 {
                assert("Q"@[0] != "E"@[0]);
                assert(s[1].key_combo != s[10].key_combo);
            } else if j == 11 {
                assert("Q"@[0] != "L"@[0]);
                assert(s[1].key_combo != s[11].key_combo);
            }
        } else if i == 2 {
            if j == 0 {
                assert("TAB"@.len() != "F4"@.len());
                assert(s[2].key_combo != s[0].key_combo);
            } else if j == 1 {
                assert(s[2].key_combo != s[1].key_combo);
            } else if j == 3 {
                assert(s[2].key_combo != s[3].key_combo);
            } else if j == 4 {
                assert(s[2].key_combo != s[4].key_combo);
            } else if j == 5 {
                assert(s[2].key_combo != s[5].key_combo);
            } else if j == 6 {
                assert(s[2].key_combo != s[6].key_combo);
            } else if j == 7 {
                assert(s[2].key_combo != s[7].key_combo);
            } else if j == 8 {
                assert(s[2].key_combo != s[8].key_combo);
            } else if j == 9 {
                assert(s[2].key_combo != s[9].key_combo);
            } else if j == 10 {
                assert(s[2].key_combo != s[10].key_combo);
            } else if j == 11 {
                assert(s[2].key_combo != s[11].key_combo);
            }
        } else if i == 3 {
            if j == 0 {
                assert(s[3].key_combo != s[0].key_combo);
            } else if j == 1 {
                assert("LEFT"@.len() != "Q"@.len());
                assert(s[3].key_combo != s[1].key_combo);
            } else if j == 2 {
                assert(s[3].key_combo != s[2].key_combo);
            } else if j == 4 {
                assert("LEFT"@.len() != "RIGHT"@.len());
                assert(s[3].key_combo != s[4].key_combo);
            } else if j == 5 {
                assert("LEFT"@.len() != "UP"@.len());
                assert(s[3].key_combo != s[5].key_combo);
            } else if j == 6 {
                assert("LEFT"@[0] != "DOWN"@[0]);
                assert(s[3].key_combo != s[6].key_combo);
            } else if j == 7 {
                assert("LEFT"@.len() != "SPACE"@.len());
                assert(s[3].key_combo != s[7].key_combo);
            } else if j == 8 {
                assert(s[3].key_combo != s[8].key_combo);
            } else if j == 9 {
                assert(s[3].key_combo != s[9].key_combo);
            } else if j == 10 {
                assert("LEFT"@.len() != "E"@.len());
                assert(s[3].key_combo != s[10].key_combo);
            } else if j == 11 {
                assert("LEFT"@.len() != "L"@.len());
                assert(s[3].key_combo != s[11].key_combo);
            }
        } else if i == 4 {
            if j == 0 {
                assert(s[4].key_combo != s[0].key_combo);
            } else if j == 1 {
                assert("RIGHT"@.len() != "Q"@.len());
                assert(s[4].key_combo != s[1].key_combo);
            } else if j == 2 {
                assert(s[4].key_combo != s[2].key_combo);
            } else if j == 3 {
                assert("RIGHT"@.len() != "LEFT"@.len());
                assert(s[4].key_combo != s[3].key_combo);
            } else if j == 5 {
                assert("RIGHT"@.len() != "UP"@.len());
                assert(s[4].key_combo != s[5].key_combo);
            } else if j == 6 {
                assert("RIGHT"@.len() != "DOWN"@.len());
                assert(s[4].key_combo != s[6].key_combo);
            } else if j == 7 {
                assert("RIGHT"@[0] != "SPACE"@[0]);
                assert(s[4].key_combo != s[7].key_combo);
            } else if j == 8 {
                assert(s[4].key_combo != s[8].key_combo);
            } else if j == 9 {
                assert(s[4].key_combo != s[9].key_combo);
            } else if j == 10 {
                assert("RIGHT"@.len() != "E"@.len());
                assert(s[4].key_combo != s[10].key_combo);
            } else if j == 11 {
                assert("RIGHT"@.len() != "L"@.len());
                assert(s[4].key_combo != s[11].key_combo);
            }
        } else if i == 5 {
            if j == 0 {
                assert(s[5].key_combo != s[0].key_combo);
            } else if j == 1 {
                assert("UP"@.len() != "Q"@.len());
                assert(s[5].key_combo != s[1].key_combo);
            } else if j == 2 {
                assert(s[5].key_combo != s[2].key_combo);
            } else if j == 3 {
                assert("UP"@.len() != "LEFT"@.len());
                assert(s[5].key_combo != s[3].key_combo);
            } else if j == 4 {
                assert("UP"@.len() != "RIGHT"@.len());
                assert(s[5].key_combo != s[4].key_combo);
            } else if j == 6 {
                assert("UP"@.len() != "DOWN"@.len());
                assert(s[5].key_combo != s[6].key_combo);
            } else if j == 7 {
                assert("UP"@.len() != "SPACE"@.len());
                assert(s[5].key_combo != s[7].key_combo);
            } else if j == 8 {
                assert(s[5].key_combo != s[8].key_combo);
            } else if j == 9 {
                assert(s[5].key_combo != s[9].key_combo);
            } else if j == 10 {
                assert("UP"@.len() != "E"@.len());
                assert(s[5].key_combo != s[10].key_combo);
            } else if j == 11 {
                assert("UP"@.len() != "L"@.len());
                assert(s[5].key_combo != s[11].key_combo);
            }
        } else if i == 6 {
            if j == 0 {
                assert(s[6].key_combo != s[0].key_combo);
            } else if j == 1 {
                assert("DOWN"@.len() != "Q"@.len());
                assert(s[6].key_combo != s[1].key_combo);
            } else if j == 2 {
                assert(s[6].key_combo != s[2].key_combo);
            } else if j == 3 {
                assert("DOWN"@[0] != "LEFT"@[0]);
                assert(s[6].key_combo != s[3].key_combo);
            } else if j == 4 {
                assert("DOWN"@.len() != "RIGHT"@.len());
                assert(s[6].key_combo != s[4].key_combo);
            } else if j == 5 {
                assert("DOWN"@.len() != "UP"@.len());
                assert(s[6].key_combo != s[5].key_combo);
            } else if j == 7 {
                assert("DOWN"@.len() != "SPACE"@.len());
                assert(s[6].key_combo != s[7].key_combo);
            } else if j == 8 {
                assert(s[6].key_combo != s[8].key_combo);
            } else if j == 9 {
                assert(s[6].key_combo != s[9].key_combo);
            } else if j == 10 {
                assert("DOWN"@.len() != "E"@.len());
                assert(s[6].key_combo != s[10].key_combo);
            } else if j == 11 {
                assert("DOWN"@.len() != "L"@.len());
                assert(s[6].key_combo != s[11].key_combo);
            }
        } else if i == 7 {
            if j == 0 {
                assert(s[7].key_combo != s[0].key_combo);
            } else if j == 1 {
                assert("SPACE"@.len() != "Q"@.len());
                assert(s[7].key_combo != s[1].key_combo);
            } else if j == 2 {
                assert(s[7].key_combo != s[2].key_combo);
            } else if j == 3 {
                assert("SPACE"@.len() != "LEFT"@.len());
                assert(s[7].key_combo != s[3].key_combo);
            } else if j == 4 {
                assert("SPACE"@[0] != "RIGHT"@[0]);
                assert(s[7].key_combo != s[4].key_combo);
            } else if j == 5 {
                assert("SPACE"@.len() != "UP"@.len());
                assert(s[7].key_combo != s[5].key_combo);
            } else if j == 6 {
                assert("SPACE"@.len() != "DOWN"@.len());
                assert(s[7].key_combo != s[6].key_combo);
            } else if j == 8 {
                assert(s[7].key_combo != s[8].key_combo);
            } else if j == 9 {
                assert(s[7].key_combo != s[9].key_combo);
            } else if j == 10 {
                assert("SPACE"@.len() != "E"@.len());
                assert(s[7].key_combo != s[10].key_combo);
            } else if j == 11 {
                assert("SPACE"@.len() != "L"@.len());
                assert(s[7].key_combo != s[11].key_combo);
            }
        } else if i == 8 {
            if j == 0 {
                assert(s[8].key_combo != s[0].key_combo);
            } else if j == 1 {
                assert(s[8].key_combo != s[1].key_combo);
            } else if j == 2 {
                assert(s[8].key_combo != s[2].key_combo);
            } else if j == 3 {
                assert(s[8].key_combo != s[3].key_combo);
            } else if j == 4 {
                assert(s[8].key_combo != s[4].key_combo);
            } else if j == 5 {
                assert(s[8].key_combo != s[5].key_combo);
            } else if j == 6 {
                assert(s[8].key_combo != s[6].key_combo);
            } else if j == 7 {
                assert(s[8].key_combo != s[7].key_combo);
            } else if j == 9 {
                assert("LEFT"@.len() != "RIGHT"@.len());
                assert(s[8].key_combo != s[9].key_combo);
            } else if j == 10 {
                assert(s[8].key_combo != s[10].key_combo);
            } else if j == 11 {
                assert(s[8].key_combo != s[11].key_combo);
            }
        } else if i == 9 {
            if j == 0 {
                assert(s[9].key_combo != s[0].key_combo);
            } else if j == 1 {
                assert(s[9].key_combo != s[1].key_combo);
            } else if j == 2 {
                assert(s[9].key_combo != s[2].key_combo);
            } else if j == 3 {
                assert(s[9].key_combo != s[3].key_combo);
            } else if j == 4 {
                assert(s[9].key_combo != s[4].key_combo);
            } else if j == 5 {
                assert(s[9].key_combo != s[5].key_combo);
            } else if j == 6 {
                assert(s[9].key_combo != s[6].key_combo);
            } else if j == 7 {
                assert(s[9].key_combo != s[7].key_combo);
            } else if j == 8 {
                assert("RIGHT"@.len() != "LEFT"@.len());
                assert(s[9].key_combo != s[8].key_combo);
            } else if j == 10 {
                assert(s[9].key_combo != s[10].key_combo);
            } else if j == 11 {
                assert(s[9].key_combo != s[11].key_combo);
            }
        } else if i == 10 {
            if j == 0 {
                assert(s[10].key_combo != s[0].key_combo);
            } else if j == 1 {
                assert("E"@[0] != "Q"@[0]);
                assert(s[10].key_combo != s[1].key_combo);
            } else if j == 2 {
                assert(s[10].key_combo != s[2].key_combo);
            } else if j == 3 {
                assert("E"@.len() != "LEFT"@.len());
                assert(s[10].key_combo != s[3].key_combo);
            } else if j == 4 {
                assert("E"@.len() != "RIGHT"@.len());
                assert(s[10].key_combo != s[4].key_combo);
            } else if j == 5 {
                assert("E"@.len() != "UP"@.len());
                assert(s[10].key_combo != s[5].key_combo);
            } else if j == 6 {
                assert("E"@.len() != "DOWN"@.len());
                assert(s[10].key_combo != s[6].key_combo);
            } else if j == 7 {
                assert("E"@.len() != "SPACE"@.len());
                assert(s[10].key_combo != s[7].key_combo);
            } else if j == 8 {
                assert(s[10].key_combo != s[8].key_combo);
            } else if j == 9 {
                assert(s[10].key_combo != s[9].key_combo);
            } else if j == 11 {
                assert("E"@[0] != "L"@[0]);
                assert(s[10].key_combo != s[11].key_combo);
            }
        } else if i == 11 {
            if j == 0 {
                assert(s[11].key_combo != s[0].key_combo);
            } else if j == 1 {
                assert("L"@[0] != "Q"@[0]);
                assert(s[11].key_combo != s[1].key_combo);
            } else if j == 2 {
                assert(s[11].key_combo != s[2].key_combo);
            } else if j == 3 {
                assert("L"@.len() != "LEFT"@.len());
                assert(s[11].key_combo != s[3].key_combo);
            } else if j == 4 {
                assert("L"@.len() != "RIGHT"@.len());
                assert(s[11].key_combo != s[4].key_combo);
            } else if j == 5 {
                assert("L"@.len() != "UP"@.len());
                assert(s[11].key_combo != s[5].key_combo);
            } else if j == 6 {
                assert("L"@.len() != "DOWN"@.len());
                assert(s[11].key_combo != s[6].key_combo);
            } else if j == 7 {
                assert("L"@.len() != "SPACE"@.len());
                assert(s[11].key_combo != s[7].key_combo);
            } else if j == 8 {
                assert(s[11].key_combo != s[8].key_combo);
            } else if j == 9 {
                assert(s[11].key_combo != s[9].key_combo);
            } else if j == 10 {
                assert("L"@[0] != "E"@[0]);
                assert(s[11].key_combo != s[10].key_combo);
            }
        }
    }
}

} // verus!
