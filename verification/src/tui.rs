//! The terminal console's state: which panel has focus, the selected
//! profile and snap layout, what the daemon last reported and the message
//! on the status line.
use vstd::prelude::*;

use crate::protocol::{Recommendation, Request, Response, SnapLayout, StatusInfo, UsageStats};
use crate::text::{
    concat, decimal, join, join_strings, owned, pad_right, push_decimal, push_padded, push_str,
    string_views,
};

verus! {

/// The panel that has the keyboard focus.
#[derive(Debug, Clone, Copy, PartialEq, Eq, Structural)]
pub enum FocusPanel {
    Profiles,
    Snaps,
}

/// A profile as the console lists it.
#[derive(Debug, Clone, PartialEq, Eq)]
pub struct ProfileItem {
    pub name: String,
    pub description: String,
    pub bindings_count: usize,
    pub is_active: bool,
}

/// The snap layouts in the order the console offers them.
pub const ALL_SNAP_LAYOUTS: [SnapLayout; 14] = [
    SnapLayout::HalfLeft,
    SnapLayout::HalfRight,
    SnapLayout::HalfTop,
    SnapLayout::HalfBottom,
    SnapLayout::TwoThirdsLeft,
    SnapLayout::OneThirdRight,
    SnapLayout::OneThirdLeft,
    SnapLayout::TwoThirdsRight,
    SnapLayout::ThreeColumnsLeft,
    SnapLayout::ThreeColumnsCenter,
    SnapLayout::ThreeColumnsRight,
    SnapLayout::CenterFloating,
    SnapLayout::Maximize,
    SnapLayout::RestoreOriginal,
];

/// The layout at position `i` of the console's list.
pub open spec fn snap_at(i: int) -> SnapLayout {
    if i == 0 {
        SnapLayout::HalfLeft
    } else if i == 1 {
        SnapLayout::HalfRight
    } else if i == 2 {
        SnapLayout::HalfTop
    } else if i == 3 {
        SnapLayout::HalfBottom
    } else if i == 4 {
        SnapLayout::TwoThirdsLeft
    } else if i == 5 {
        SnapLayout::OneThirdRight
    } else if i == 6 {
        SnapLayout::OneThirdLeft
    } else if i == 7 {
        SnapLayout::TwoThirdsRight
    } else if i == 8 {
        SnapLayout::ThreeColumnsLeft
    } else if i == 9 {
        SnapLayout::ThreeColumnsCenter
    } else if i == 10 {
        SnapLayout::ThreeColumnsRight
    } else if i == 11 {
        SnapLayout::CenterFloating
    } else if i == 12 {
        SnapLayout::Maximize
    } else {
        SnapLayout::RestoreOriginal
    }
}

/// The selected row of a list, if any.
#[derive(Debug, Clone, Copy, PartialEq, Eq, Structural)]
pub struct ListState {
    pub selection: Option<usize>,
}

impl ListState {
    pub fn new() -> (r: ListState)
        ensures
            r.selection is None,
    {
        ListState { selection: None }
    }

    pub fn select(&mut self, index: Option<usize>)
        ensures
            final(self).selection == index,
    {
        self.selection = index;
    }

    pub fn selected(&self) -> (r: Option<usize>)
        ensures
            r == self.selection,
    {
        self.selection
    }
}

/// A status-line message: its text, when it was shown (in milliseconds)
/// and whether it reports an error.
#[derive(Debug, Clone, PartialEq, Eq)]
pub struct StatusMessage {
    pub text: String,
    pub shown_at_ms: u128,
    pub is_error: bool,
}

/// How an action sent to the daemon ended: its answer, or why it could
/// not be sent.
pub enum ActionReply {
    Answered(Response),
    Failed(String),
}

/// The console's state.
#[derive(Debug)]
pub struct App {
    /// The daemon socket (the default one when none is given).
    pub socket_path: Option<String>,
    pub focus: FocusPanel,
    pub profiles: Vec<ProfileItem>,
    pub profiles_state: ListState,
    pub selected_snap_index: usize,
    pub status: Option<StatusInfo>,
    pub stats: Option<UsageStats>,
    pub recommendations: Vec<Recommendation>,
    pub message: Option<StatusMessage>,
    pub connected: bool,
    pub should_quit: bool,
}

/// How long a status-line message stays, in milliseconds.
pub const MESSAGE_LIFETIME_MS: u128 = 5000;

impl App {
    /// A console on `socket_path`, not yet connected, with the profile
    /// panel focused and the first profile and layout selected.
    pub fn new(socket_path: Option<String>) -> (r: App)
        ensures
            r.socket_path == socket_path,
            r.focus == FocusPanel::Profiles,
            r.profiles@.len() == 0,
            r.profiles_state.selection == Some(0usize),
            r.selected_snap_index == 0,
            r.status is None,
            r.stats is None,
            r.recommendations@.len() == 0,
            r.message is None,
            !r.connected,
            !r.should_quit,
    {
        let mut profiles_state = ListState::new();
        profiles_state.select(Some(0));
        App {
            socket_path,
            focus: FocusPanel::Profiles,
            profiles: Vec::new(),
            profiles_state,
            selected_snap_index: 0,
            status: None,
            stats: None,
            recommendations: Vec::new(),
            message: None,
            connected: false,
            should_quit: false,
        }
    }

    /// Shows an informational message, stamped `now_ms`.
    pub fn set_info_message(&mut self, msg: &str, now_ms: u128)
        ensures
            final(self).message matches Some(m) && m.text@ == msg@ && m.shown_at_ms == now_ms && !m.is_error,
            final(self).profiles == old(self).profiles,
            final(self).profiles_state == old(self).profiles_state,
            final(self).focus == old(self).focus,
            final(self).selected_snap_index == old(self).selected_snap_index,
    {
        self.message = Some(StatusMessage { text: owned(msg), shown_at_ms: now_ms, is_error: false });
    }

    /// Shows an error message, stamped `now_ms`.
    pub fn set_error_message(&mut self, msg: &str, now_ms: u128)
        ensures
            final(self).message matches Some(m) && m.text@ == msg@ && m.shown_at_ms == now_ms && m.is_error,
            final(self).profiles == old(self).profiles,
            final(self).profiles_state == old(self).profiles_state,
            final(self).focus == old(self).focus,
            final(self).selected_snap_index == old(self).selected_snap_index,
    {
        self.message = Some(StatusMessage { text: owned(msg), shown_at_ms: now_ms, is_error: true });
    }

    /// Drops the message once it has been shown for five seconds.
    pub fn clear_expired_message(&mut self, now_ms: u128)
        ensures
            final(self).message == match old(self).message {
                Some(m) => if now_ms >= m.shown_at_ms && now_ms - m.shown_at_ms >= MESSAGE_LIFETIME_MS {
                    None
                } else {
                    Some(m)
                },
                None => None,
            },
            final(self).profiles == old(self).profiles,
            final(self).profiles_state == old(self).profiles_state,
    {
        let expired = match &self.message {
            Some(m) => now_ms >= m.shown_at_ms && now_ms - m.shown_at_ms >= MESSAGE_LIFETIME_MS,
            None => false,
        };
        if expired {
            self.message = None;
        }
    }

    /// Moves the focus to the other panel.
    pub fn toggle_focus(&mut self)
        ensures
            final(self).focus == match old(self).focus {
                FocusPanel::Profiles => FocusPanel::Snaps,
                FocusPanel::Snaps => FocusPanel::Profiles,
            },
            final(self).profiles_state == old(self).profiles_state,
            final(self).selected_snap_index == old(self).selected_snap_index,
            final(self).profiles == old(self).profiles,
    {
        self.focus = match self.focus {
            FocusPanel::Profiles => FocusPanel::Snaps,
            FocusPanel::Snaps => FocusPanel::Profiles,
        };
    }

    /// Selects the next row of the focused panel, wrapping around.
    pub fn next(&mut self)
        ensures
            final(self).focus == old(self).focus,
            final(self).profiles == old(self).profiles,
            match old(self).focus {
                FocusPanel::Profiles => {
                    &&& final(self).selected_snap_index == old(self).selected_snap_index
                    &&& final(self).profiles_state.selection == next_selection(
                        old(self).profiles_state.selection,
                        old(self).profiles@.len(),
                    )
                },
                FocusPanel::Snaps => {
                    &&& final(self).profiles_state == old(self).profiles_state
                    &&& final(self).selected_snap_index == next_snap(old(self).selected_snap_index)
                },
            },
    {
        match self.focus {
            FocusPanel::Profiles => {
                if self.profiles.len() == 0 {
                    return;
                }
                let i: usize = match self.profiles_state.selected() {
                    Some(i) => {
                        if i >= self.profiles.len() - 1 {
                            0
                        } else {
                            i + 1
                        }
                    },
                    None => 0,
                };
                self.profiles_state.select(Some(i));
            },
            FocusPanel::Snaps => {
                self.selected_snap_index = ((self.selected_snap_index as u128 + 1) % 14) as usize;
            },
        }
    }

    /// Selects the previous row of the focused panel, wrapping around.
    pub fn previous(&mut self)
        ensures
            final(self).focus == old(self).focus,
            final(self).profiles == old(self).profiles,
            match old(self).focus {
                FocusPanel::Profiles => {
                    &&& final(self).selected_snap_index == old(self).selected_snap_index
                    &&& final(self).profiles_state.selection == previous_selection(
                        old(self).profiles_state.selection,
                        old(self).profiles@.len(),
                    )
                },
                FocusPanel::Snaps => {
                    &&& final(self).profiles_state == old(self).profiles_state
                    &&& final(self).selected_snap_index == previous_snap(old(self).selected_snap_index)
                },
            },
    {
        match self.focus {
            FocusPanel::Profiles => {
                if self.profiles.len() == 0 {
                    return;
                }
                let i: usize = match self.profiles_state.selected() {
                    Some(i) => {
                        if i == 0 {
                            self.profiles.len() - 1
                        } else {
                            i - 1
                        }
                    },
                    None => 0,
                };
                self.profiles_state.select(Some(i));
            },
            FocusPanel::Snaps => {
                if self.selected_snap_index == 0 {
                    self.selected_snap_index = 13;
                } else {
                    self.selected_snap_index = self.selected_snap_index - 1;
                }
            },
        }
    }

    /// The selected profile, if the selection is on one.
    pub fn selected_profile(&self) -> (r: Option<&ProfileItem>)
        ensures
            match self.profiles_state.selection {
                Some(i) => if i < self.profiles@.len() {
                    r == Some(&self.profiles@[i as int])
                } else {
                    r is None
                },
                None => r is None,
            },
    {
        match self.profiles_state.selected() {
            Some(i) => if i < self.profiles.len() {
                Some(&self.profiles[i])
            } else {
                None
            },
            None => None,
        }
    }

    /// The selected snap layout.
    pub fn selected_snap(&self) -> (r: SnapLayout)
        requires
            self.selected_snap_index < 14,
        ensures
            r == snap_at(self.selected_snap_index as int),
    {
        ALL_SNAP_LAYOUTS[self.selected_snap_index]
    }

    /// Takes the status check's outcome: whether the daemon answered with a
    /// success, and the status it sent when it could be read. The console is
    /// connected exactly when it answered; without an answer no status is
    /// kept.
    pub fn apply_status(&mut self, answered: bool, info: Option<StatusInfo>)
        ensures
            final(self).connected == answered,
            final(self).status == if answered {
                match info {
                    Some(i) => Some(i),
                    None => old(self).status,
                }
            } else {
                None
            },
            final(self).profiles == old(self).profiles,
            final(self).profiles_state == old(self).profiles_state,
    {
        if answered {
            self.connected = true;
            match info {
                Some(i) => {
                    self.status = Some(i);
                },
                None => {},
            }
        } else {
            self.connected = false;
            self.status = None;
        }
    }

    /// Takes a new profile list: a selection past its end moves to its last
    /// row, and no selection becomes the first row (on a non-empty list).
    pub fn apply_profiles(&mut self, items: Vec<ProfileItem>)
        ensures
            final(self).profiles@ == items@,
            final(self).profiles_state.selection == match old(self).profiles_state.selection {
                Some(sel) => if sel >= items@.len() && items@.len() > 0 {
                    Some((items@.len() - 1) as usize)
                } else {
                    Some(sel)
                },
                None => if items@.len() > 0 {
                    Some(0usize)
                } else {
                    None
                },
            },
            final(self).focus == old(self).focus,
            final(self).selected_snap_index == old(self).selected_snap_index,
    {
        self.profiles = items;
        match self.profiles_state.selected() {
            Some(sel) => {
                if sel >= self.profiles.len() && self.profiles.len() > 0 {
                    self.profiles_state.select(Some(self.profiles.len() - 1));
                }
            },
            None => {
                if self.profiles.len() > 0 {
                    self.profiles_state.select(Some(0));
                }
            },
        }
    }

    /// The request switching to the selected profile, if one is selected.
    pub fn switch_request(&self) -> (r: Option<Request>)
        ensures
            match self.profiles_state.selection {
                Some(i) => if i < self.profiles@.len() {
                    r matches Some(Request::Switch { profile, force }) && profile@
                        == self.profiles@[i as int].name@ && !force
                } else {
                    r is None
                },
                None => r is None,
            },
    {
        match self.selected_profile() {
            Some(p) => Some(Request::Switch { profile: p.name.clone(), force: false }),
            None => None,
        }
    }

    /// The request snapping the active window to the selected layout.
    pub fn snap_request(&self) -> (r: Request)
        requires
            self.selected_snap_index < 14,
        ensures
            r == (Request::ApplyLayout { layout: snap_at(self.selected_snap_index as int), preview: false }),
    {
        Request::ApplyLayout { layout: self.selected_snap(), preview: false }
    }

    /// Takes the outcome of an action sent to the daemon (switch, cycle,
    /// restore or snap), stamped `now_ms`: a success shows its message and
    /// asks for a refresh, an error shows its message, a failure to reach
    /// the daemon shows it as an IPC error. Tells whether to refresh.
    pub fn apply_action_reply(&mut self, reply: ActionReply, now_ms: u128) -> (refresh: bool)
        ensures
            final(self).profiles == old(self).profiles,
            final(self).profiles_state == old(self).profiles_state,
            match reply {
                ActionReply::Answered(Response::Success { message, .. }) => refresh && (final(self).message matches Some(
                    m,
                ) && m.text@ == message@ && !m.is_error && m.shown_at_ms == now_ms),
                ActionReply::Answered(Response::Error { message, .. }) => !refresh && (final(self).message matches Some(
                    m,
                ) && m.text@ == message@ && m.is_error && m.shown_at_ms == now_ms),
                ActionReply::Answered(Response::Event { .. }) => !refresh && final(self).message == old(self).message,
                ActionReply::Failed(e) => !refresh && (final(self).message matches Some(m) && m.text@ == "IPC error: "@
                    + e@ && m.is_error && m.shown_at_ms == now_ms),
            },
    {
        match reply {
            ActionReply::Answered(Response::Success { message, .. }) => {
                self.set_info_message(message.as_str(), now_ms);
                true
            },
            ActionReply::Answered(Response::Error { message, .. }) => {
                self.set_error_message(message.as_str(), now_ms);
                false
            },
            ActionReply::Answered(Response::Event { .. }) => false,
            ActionReply::Failed(e) => {
                let m = concat("IPC error: ", e.as_str());
                self.set_error_message(m.as_str(), now_ms);
                false
            },
        }
    }
}

/// The profile selection after moving down in a list of `len` rows.
pub open spec fn next_selection(sel: Option<usize>, len: nat) -> Option<usize> {
    if len == 0 {
        sel
    } else {
        match sel {
            Some(i) => if i + 1 >= len {
                Some(0usize)
            } else {
                Some((i + 1) as usize)
            },
            None => Some(0usize),
        }
    }
}

/// The profile selection after moving up in a list of `len` rows.
pub open spec fn previous_selection(sel: Option<usize>, len: nat) -> Option<usize> {
    if len == 0 {
        sel
    } else {
        match sel {
            Some(i) => if i == 0 {
                Some((len - 1) as usize)
            } else {
                Some((i - 1) as usize)
            },
            None => Some(0usize),
        }
    }
}

/// The snap index after moving down.
pub open spec fn next_snap(i: usize) -> usize {
    ((i + 1) % 14) as usize
}

/// The snap index after moving up.
pub open spec fn previous_snap(i: usize) -> usize {
    if i == 0 {
        13
    } else {
        (i - 1) as usize
    }
}

/// Moving down then up, or up then down, in either panel comes back to
/// the same row (for a selection on a row of the list).
pub proof fn law_navigation_undoes(i: usize, len: nat, snap: usize)
    requires
        i < len,
        len <= usize::MAX,
        snap < 14,
    ensures
        previous_selection(next_selection(Some(i), len), len) == Some(i),
        next_selection(previous_selection(Some(i), len), len) == Some(i),
        previous_snap(next_snap(snap)) == snap,
        next_snap(previous_snap(snap)) == snap,
{
}

/// The four labels of the console's header line.
pub struct HeaderLabels {
    pub status: String,
    pub profile: String,
    pub uptime: String,
    pub overlays: String,
}

/// The header labels for what the daemon last reported (`None` while it
/// has not answered): connection state, active profile, uptime in seconds
/// and the number of overlays.
pub fn header_labels(status: &Option<StatusInfo>) -> (r: HeaderLabels)
    ensures
        match status {
            Some(st) => {
                &&& r.status@ == " ● ONLINE "@
                &&& r.profile@ == " ["@ + st.active_profile@ + "] "@
                &&& r.uptime@ == " Uptime: "@ + decimal(st.uptime_secs as nat) + "s "@
                &&& r.overlays@ == " Overlays: "@ + decimal(st.overlays_count as nat) + " "@
            },
            None => {
                &&& r.status@ == " ○ OFFLINE (Connecting...) "@
                &&& r.profile@ == " [N/A] "@
                &&& r.uptime@ == " Uptime: - "@
                &&& r.overlays@ == " Overlays: 0 "@
            },
        },
{
    match status {
        Some(st) => {
            let mut profile = owned(" [");
            push_str(&mut profile, st.active_profile.as_str());
            push_str(&mut profile, "] ");
            let mut uptime = owned(" Uptime: ");
            push_decimal(&mut uptime, st.uptime_secs as u128);
            push_str(&mut uptime, "s ");
            let mut overlays = owned(" Overlays: ");
            push_decimal(&mut overlays, st.overlays_count as u128);
            push_str(&mut overlays, " ");
            HeaderLabels { status: owned(" ● ONLINE "), profile, uptime, overlays }
        },
        None => HeaderLabels {
            status: owned(" ○ OFFLINE (Connecting...) "),
            profile: owned(" [N/A] "),
            uptime: owned(" Uptime: - "),
            overlays: owned(" Overlays: 0 "),
        },
    }
}

/// One ranked action with its count, as `name: count`.
pub open spec fn count_entry_text(e: (String, u64)) -> Seq<char> {
    e.0@ + ": "@ + decimal(e.1 as nat)
}

/// At most three leading entries of `ranked` (already ordered by count), as
/// `name: count` joined by `, `.
pub open spec fn top_actions_spec(ranked: Seq<(String, u64)>) -> Seq<char> {
    let n = if ranked.len() < 3 { ranked.len() } else { 3 };
    join(ranked.take(n as int).map_values(|e: (String, u64)| count_entry_text(e)), ", "@)
}

/// The "top actions" text of the statistics panel.
pub fn top_actions_text(ranked: &Vec<(String, u64)>) -> (r: String)
    ensures
        r@ == top_actions_spec(ranked@),
{
    let n: usize = if ranked.len() < 3 { ranked.len() } else { 3 };
    let mut parts: Vec<String> = Vec::new();
    let mut i: usize = 0;
    while i < n
        invariant
            n <= ranked@.len(),
            n <= 3,
            i <= n,
            parts@.len() == i,
            forall|j: int| 0 <= j < i ==> #[trigger] parts@[j]@ == count_entry_text(ranked@[j]),
        decreases n - i,
    {
        let e = &ranked[i];
        let mut t = e.0.clone();
        push_str(&mut t, ": ");
        push_decimal(&mut t, e.1 as u128);
        parts.push(t);
        i = i + 1;
    }
    assert(string_views(parts@) =~= ranked@.take(n as int).map_values(
        |e: (String, u64)| count_entry_text(e),
    ));
    join_strings(&parts, ", ")
}

/// One cell of the snap-layout grid: a `> ` marker on the selected layout
/// (two spaces otherwise), then its name in a field of twenty characters.
pub fn snap_cell_text(name: &str, selected: bool) -> (r: String)
    ensures
        r@ == (if selected { "> "@ } else { "  "@ }) + pad_right(name@, 20),
{
    let mut out = if selected { owned("> ") } else { owned("  ") };
    push_padded(&mut out, name, 20);
    out
}

/// A profile's name in the profile list, in a field of fourteen characters.
pub fn profile_name_cell(name: &str) -> (r: String)
    ensures
        r@ == pad_right(name@, 14),
{
    let mut out = String::new();
    push_padded(&mut out, name, 14);
    out
}

} // verus!
