//! How the daemon answers each client request. A request that needs the
//! compositor is answered in two steps: the first decides the work (a plan
//! to apply), the service loop performs it, and the second takes its
//! outcome and decides the answer, the state changes, the notifications
//! and the events.
use vstd::prelude::*;

use crate::binding::{action_display, canonical};
use crate::daemon::AetherDaemon;
use crate::error::{error_text, CoreError};
use crate::health::DoctorInput;
use crate::plugin::PluginRegistry;
use crate::profile::Profile;
use crate::protocol::{
    BindingInfo, DoctorReport, Event, HistoryEntry, PluginInfo, PluginValidation, ProfileDetails,
    Response, ResponseData, StatusInfo, WindowPolicy,
};
use crate::state::{last_valid_named, profile_named, valid_count, ProfileInfo};
use crate::text::{concat, concat3, decimal, owned, push_decimal, push_str, str_eq};

verus! {

/// A desktop notification to show.
#[derive(Debug, Clone, PartialEq, Eq)]
pub struct Notice {
    pub summary: String,
    pub body: String,
    pub is_error: bool,
}

/// What a request produced: the answer, the notifications to show and the
/// events to broadcast to subscribers.
#[derive(Debug, Clone, PartialEq, Eq)]
pub struct Outcome {
    pub response: Response,
    pub notices: Vec<Notice>,
    pub events: Vec<Event>,
}

/// Whether `r` is a success with `message` and no data.
pub open spec fn is_ok_msg(r: Response, message: Seq<char>) -> bool {
    r matches Response::Success { message: m, data } && m@ == message && data is None
}

/// Whether `r` is an error with `code` and `message`.
pub open spec fn is_err_msg(r: Response, code: Seq<char>, message: Seq<char>) -> bool {
    r matches Response::Error { code: c, message: m } && c@ == code && m@ == message
}

/// Whether `n` is a notice with the given summary, body and severity.
pub open spec fn is_notice(n: Notice, summary: Seq<char>, body: Seq<char>, is_error: bool) -> bool {
    n.summary@ == summary && n.body@ == body && n.is_error == is_error
}

pub fn notice(summary: &str, body: &str, is_error: bool) -> (r: Notice)
    ensures
        is_notice(r, summary@, body@, is_error),
{
    Notice { summary: owned(summary), body: owned(body), is_error }
}

/// The answer alone, with nothing to notify or broadcast.
pub fn answer(response: Response) -> (r: Outcome)
    ensures
        r.response == response,
        r.notices@.len() == 0,
        r.events@.len() == 0,
{
    Outcome { response, notices: Vec::new(), events: Vec::new() }
}

/// `PREFIX` + the decimal of `n` + `SUFFIX`.
pub fn with_number(prefix: &str, n: u128, suffix: &str) -> (r: String)
    ensures
        r@ == prefix@ + decimal(n as nat) + suffix@,
{
    let mut s = owned(prefix);
    push_decimal(&mut s, n);
    push_str(&mut s, suffix);
    s
}

/// The profile view carried by a profile query's answer.
pub open spec fn details_of(p: Profile, d: ProfileDetails) -> bool {
    &&& d.name@ == p.name@
    &&& d.description@ == p.description@
    &&& d.window_policy == p.window_policy
    &&& d.bindings@.len() == p.bindings@.len()
    &&& forall|i: int|
        0 <= i < d.bindings@.len() ==> {
            let b = #[trigger] p.bindings@[i];
            &&& d.bindings@[i].key_combo@ == canonical(b.key_combo@)
            &&& d.bindings@[i].action@ == action_display(b.action@)
            &&& crate::binding::opt_view(d.bindings@[i].description) == crate::binding::opt_view(b.description)
        }
}

/// The backend line of the doctor report.
pub open spec fn backend_line(connected: bool) -> Seq<char> {
    if connected {
        "Hyprland IPC connected"@
    } else {
        "Hyprland IPC unavailable; running in state-only mode"@
    }
}

impl AetherDaemon {
    /// The status answer after `uptime_secs`, reporting `version`.
    pub fn status_response(&self, uptime_secs: u64, version: &str) -> (r: Response)
        requires
            self.wf(),
        ensures
            r matches Response::Success { message, data: Some(ResponseData::Status(info)) } && {
                &&& message@ == "Status retrieved"@
                &&& info.active_profile@ == self.state.active_name()
                &&& info.overlays_count == self.state.overlays().dom().len()
                &&& info.uptime_secs == uptime_secs
                &&& info.version@ == version@
                &&& info.window_policy == self.window_policy
                &&& info.skipped_conflicts == self.health.skipped_conflicts
                &&& info.forced_overrides == self.health.forced_overrides
                &&& info.last_switch_duration_us == self.health.last_switch_duration_us
                &&& info.last_switch_succeeded == self.health.last_switch_succeeded
            },
    {
        let base = StatusInfo::new(
            self.state.active_profile_name(),
            self.state.overlays_count(),
            uptime_secs,
            version,
        );
        let info = StatusInfo {
            window_policy: self.window_policy,
            skipped_conflicts: self.health.skipped_conflicts,
            forced_overrides: self.health.forced_overrides,
            last_switch_duration_us: self.health.last_switch_duration_us,
            last_switch_succeeded: self.health.last_switch_succeeded,
            ..base
        };
        Response::ok_with_data("Status retrieved", ResponseData::Status(info))
    }

    /// The profile list answer: each profile, by increasing name, marked
    /// active or not.
    pub fn list_profiles_response(&self) -> (r: Response)
        requires
            self.wf(),
        ensures
            r matches Response::Success { message, data: Some(ResponseData::Profiles(ps)) } && {
                &&& message@ == "Profiles retrieved"@
                &&& ps@.len() == self.state.profile_list().len()
                &&& forall|i: int|
                    0 <= i < ps@.len() ==> {
                        let p = #[trigger] self.state.profile_list()[i];
                        &&& ps@[i].name@ == p.name@
                        &&& ps@[i].description@ == p.description@
                        &&& ps@[i].bindings_count == p.bindings@.len()
                        &&& ps@[i].is_active == (p.name@ == self.state.active_name())
                    }
            },
    {
        let list = self.state.list_profiles();
        Response::ok_with_data("Profiles retrieved", ResponseData::Profiles(list))
    }

    /// Sets the window policy when one is given, and answers with the
    /// policy in force.
    pub fn window_mode(&mut self, policy: Option<WindowPolicy>) -> (r: Response)
        requires
            old(self).wf(),
        ensures
            final(self).wf(),
            final(self).window_policy == match policy {
                Some(p) => p,
                None => old(self).window_policy,
            },
            r matches Response::Success { message, data: Some(ResponseData::Policy(p)) } && {
                &&& p == final(self).window_policy
                &&& message@ == "Window policy is '"@ + crate::protocol::window_policy_name(p)
                    + "'"@
            },
            final(self).state == old(self).state,
            final(self).stats == old(self).stats,
            final(self).health == old(self).health,
    {
        match policy {
            Some(p) => {
                self.window_policy = p;
            },
            None => {},
        }
        let current = self.window_policy;
        let message = concat3("Window policy is '", current.as_str(), "'");
        Response::ok_with_data(message.as_str(), ResponseData::Policy(current))
    }

    /// The history answer: the newest `limit` (by default 20) switches,
    /// newest first.
    pub fn history_response(&self, limit: Option<usize>) -> (r: Response)
        requires
            self.wf(),
        ensures
            r matches Response::Success { message, data: Some(ResponseData::History(es)) } && {
                let h = self.state.history();
                let want = match limit {
                    Some(l) => l as int,
                    None => 20int,
                };
                let count = if want < h.len() {
                    want
                } else {
                    h.len() as int
                };
                &&& message@ == "Switch history retrieved"@
                &&& es@.len() == count
                &&& forall|i: int|
                    0 <= i < count ==> crate::state::same_entry(#[trigger] es@[i], h[h.len() - 1 - i])
            },
    {
        let entries = self.state.switch_history(limit);
        Response::ok_with_data("Switch history retrieved", ResponseData::History(entries))
    }

    /// The answer to a query for profile `name`: its details, or
    /// `PROFILE_NOT_FOUND`.
    pub fn profile_response(&self, name: &str) -> (r: Response)
        requires
            self.wf(),
        ensures
            match profile_named(self.state.profile_list(), name@) {
                Some(p) => r matches Response::Success {
                    message,
                    data: Some(ResponseData::Profile(d)),
                } && message@ == "Profile retrieved"@ && details_of(p, d),
                None => is_err_msg(r, "PROFILE_NOT_FOUND"@, "Profile '"@ + name@ + "' was not found"@),
            },
    {
        match self.state.get_profile(name) {
            Some(profile) => {
                let mut bindings: Vec<BindingInfo> = Vec::new();
                let mut i: usize = 0;
                while i < profile.bindings.len()
                    invariant
                        i <= profile.bindings@.len(),
                        bindings@.len() == i,
                        forall|j: int|
                            0 <= j < i ==> {
                                let b = #[trigger] profile.bindings@[j];
                                &&& bindings@[j].key_combo@ == canonical(b.key_combo@)
                                &&& bindings@[j].action@ == action_display(b.action@)
                                &&& crate::binding::opt_view(bindings@[j].description)
                                    == crate::binding::opt_view(b.description)
                            },
                    decreases profile.bindings@.len() - i,
                {
                    let b = &profile.bindings[i];
                    bindings.push(
                        BindingInfo {
                            key_combo: b.key_combo.canonical_str(),
                            action: b.action.display_name(),
                            description: crate::binding::clone_opt(&b.description),
                        },
                    );
                    i = i + 1;
                }
                let details = ProfileDetails {
                    name: profile.name.clone(),
                    description: profile.description.clone(),
                    window_policy: profile.window_policy,
                    bindings,
                };
                Response::ok_with_data("Profile retrieved", ResponseData::Profile(details))
            },
            None => {
                let message = concat3("Profile '", name, "' was not found");
                Response::err("PROFILE_NOT_FOUND", message.as_str())
            },
        }
    }

    /// Loads a profile read from a client's TOML text (`parsed`, or the
    /// reason it could not be read): a valid one is registered.
    pub fn upsert_profile(&mut self, parsed: Result<Profile, String>) -> (r: Response)
        requires
            old(self).wf(),
        ensures
            final(self).wf(),
            final(self).state.active_name() == old(self).state.active_name(),
            final(self).state.overlays() == old(self).state.overlays(),
            match parsed {
                Err(e) => is_err_msg(r, "PROFILE_INVALID"@, e@) && final(self).state.profile_list()
                    == old(self).state.profile_list(),
                Ok(p) => if crate::profile::is_valid_profile(p) {
                    &&& is_ok_msg(
                        r,
                        "Profile '"@ + p.name@ + "' loaded with "@ + decimal(p.bindings@.len())
                            + " bindings"@,
                    )
                    &&& profile_named(final(self).state.profile_list(), p.name@) === Some(p)
                    &&& forall|n: Seq<char>|
                        n != p.name@ ==> profile_named(final(self).state.profile_list(), n)
                            === profile_named(old(self).state.profile_list(), n)
                } else {
                    exists|e: CoreError|
                        #[trigger] crate::profile::validation_result(
                            p.name@,
                            crate::profile::canon_seq(p.bindings@),
                            Err(e),
                        ) && is_err_msg(r, "PROFILE_INVALID"@, error_text(e))
                            && final(self).state.profile_list() == old(self).state.profile_list()
                },
            },
    {
        match parsed {
            Err(e) => Response::err("PROFILE_INVALID", e.as_str()),
            Ok(profile) => match profile.validate() {
                Err(e) => {
                    let message = e.message();
                    Response::err("PROFILE_INVALID", message.as_str())
                },
                Ok(()) => {
                    let mut message = concat3("Profile '", profile.name.as_str(), "' loaded with ");
                    push_decimal(&mut message, profile.bindings.len() as u128);
                    push_str(&mut message, " bindings");
                    self.state.register_profile(profile);
                    Response::ok(message.as_str())
                },
            },
        }
    }

    /// Reloads the presets read from the preset directory (`loaded`, or the
    /// reason the directory could not be read): each valid one is
    /// registered, and subscribers learn how many.
    pub fn reload_presets(&mut self, loaded: Result<Vec<Profile>, String>) -> (r: Outcome)
        requires
            old(self).wf(),
        ensures
            final(self).wf(),
            final(self).state.active_name() == old(self).state.active_name(),
            final(self).state.overlays() == old(self).state.overlays(),
            r.notices@.len() == 0,
            match loaded {
                Err(e) => {
                    &&& is_err_msg(r.response, "RELOAD_FAILED"@, e@)
                    &&& r.events@.len() == 0
                    &&& final(self).state.profile_list() == old(self).state.profile_list()
                },
                Ok(ps) => {
                    let n = valid_count(ps@);
                    &&& is_ok_msg(r.response, "Reloaded "@ + decimal(n) + " presets"@)
                    &&& r.events@ == seq![Event::PresetsReloaded { count: n as usize }]
                    &&& forall|name: Seq<char>|
                        #[trigger] profile_named(final(self).state.profile_list(), name)
                            === match last_valid_named(ps@, name) {
                            Some(p) => Some(p),
                            None => profile_named(old(self).state.profile_list(), name),
                        }
                },
            },
    {
        match loaded {
            Err(e) => answer(Response::err("RELOAD_FAILED", e.as_str())),
            Ok(ps) => {
                let count = self.state.load_profiles(ps);
                let message = with_number("Reloaded ", count as u128, " presets");
                let mut events: Vec<Event> = Vec::new();
                events.push(Event::PresetsReloaded { count });
                Outcome { response: Response::ok(message.as_str()), notices: Vec::new(), events }
            },
        }
    }

    /// Creates a profile in memory.
    pub fn create_profile_response(
        &mut self,
        name: &str,
        description: Option<&str>,
        copy_from: Option<&str>,
    ) -> (r: Response)
        requires
            old(self).wf(),
        ensures
            final(self).wf(),
            exists|res: Result<(), CoreError>|
                #[trigger] crate::state::create_profile_post(
                    old(self).state,
                    final(self).state,
                    name,
                    description,
                    copy_from,
                    res,
                ) && match res {
                    Ok(()) => is_ok_msg(r, "Profile '"@ + name@ + "' created successfully"@),
                    Err(e) => is_err_msg(r, "CREATE_PROFILE_FAILED"@, error_text(e)),
                },
    {
        match self.state.create_profile(name, description, copy_from) {
            Ok(()) => {
                let message = concat3("Profile '", name, "' created successfully");
                Response::ok(message.as_str())
            },
            Err(e) => {
                let message = e.message();
                Response::err("CREATE_PROFILE_FAILED", message.as_str())
            },
        }
    }
}

/// Whether a plugin id is selected by an optional wanted id.
pub open spec fn wanted(id: Seq<char>, want: Option<&str>) -> bool {
    match want {
        Some(w) => id == w@,
        None => true,
    }
}

/// Whether `w` is the wire description of loaded plugin `p`.
pub open spec fn wire_of(p: crate::plugin::LoadedPlugin, w: PluginInfo) -> bool {
    &&& w.id@ == p.manifest.id@
    &&& w.version@ == p.manifest.version@
    &&& w.description@ == p.manifest.description@
    &&& w.executable@ == p.manifest.executable@
    &&& w.timeout_ms == p.manifest.timeout_ms
    &&& w.permissions@ == p.manifest.permissions@
    &&& w.enabled == p.manifest.enabled
    &&& w.error is None
}

/// The ids of the loaded plugins of `reg` selected by `want`, increasing.
pub open spec fn selected_ids(reg: PluginRegistry, want: Option<&str>) -> Seq<Seq<char>> {
    reg.plugin_ids().filter(|k: Seq<char>| wanted(k, want))
}

/// Whether `out` describes, in increasing id order, exactly the loaded
/// plugins of `reg` selected by `want`.
pub open spec fn selected_plugins(reg: PluginRegistry, want: Option<&str>, out: Seq<PluginInfo>) -> bool {
    &&& out.map_values(|w: PluginInfo| w.id@) == selected_ids(reg, want)
    &&& forall|k: int|
        0 <= k < out.len() ==> reg.loaded().contains_key(#[trigger] out[k].id@) && wire_of(
            reg.loaded()[out[k].id@],
            out[k],
        )
}

/// `ID: MESSAGE` for each failure of `fs` selected by `want`, in order.
pub open spec fn failure_lines(fs: Seq<(String, String)>, want: Option<&str>) -> Seq<Seq<char>> {
    fs.filter(|f: (String, String)| wanted(f.0@, want)).map_values(
        |f: (String, String)| f.0@ + ": "@ + f.1@,
    )
}

impl AetherDaemon {
    /// The statistics answer, the active profile being credited with
    /// `current_secs` (as far as its counter can grow), after `uptime_secs`.
    pub fn stats_response(&self, current_secs: u64, uptime_secs: u64) -> (r: Response)
        requires
            self.wf(),
        ensures
            r matches Response::Success { message, data: Some(ResponseData::Stats(st)) } && {
                &&& message@ == "Usage statistics retrieved"@
                &&& crate::named::names_distinct(st.profile_usage@)
                &&& crate::named::named_map(st.profile_usage@) == match self.stats.active() {
                    Some(a) => {
                        let u = crate::named::count_of(self.stats.usage(), a);
                        let credit = if u + current_secs > u64::MAX {
                            u64::MAX - u
                        } else {
                            current_secs as int
                        };
                        self.stats.usage().insert(a, (u + credit) as u64)
                    },
                    None => self.stats.usage(),
                }
                &&& crate::named::named_map(st.action_counts@) == self.stats.actions()
                &&& crate::named::named_map(st.conflict_hits@) == self.stats.conflicts()
                &&& st.total_switches == self.stats.switches()
                &&& st.total_actions == self.stats.actions_total()
                &&& st.uptime_secs == uptime_secs
            },
    {
        let used = self.stats.active_usage();
        let credit = if used > u64::MAX - current_secs {
            u64::MAX - used
        } else {
            current_secs
        };
        let st = self.stats.get_stats(credit, uptime_secs);
        Response::ok_with_data("Usage statistics retrieved", ResponseData::Stats(st))
    }

    /// The recommendations for the active profile (none when it is not
    /// known).
    pub fn recommendations_response(&self) -> (r: Response)
        requires
            self.wf(),
        ensures
            match profile_named(self.state.profile_list(), self.state.active_name()) {
                Some(p) => r matches Response::Success {
                    message,
                    data: Some(ResponseData::Recommendations(recs)),
                } && {
                    &&& message@ == "Recommendations generated"@
                    &&& crate::keyed::sorted_by_key(recs@)
                    &&& crate::stats::ids_distinct(recs@)
                    &&& forall|i: int|
                        0 <= i < recs@.len() ==> crate::stats::owed(
                            self.stats.actions(),
                            self.stats.conflicts(),
                            self.stats.usage(),
                            self.stats.switches(),
                            p,
                            #[trigger] recs@[i]@,
                        )
                    &&& forall|v: crate::stats::RecView|
                        crate::stats::owed(
                            self.stats.actions(),
                            self.stats.conflicts(),
                            self.stats.usage(),
                            self.stats.switches(),
                            p,
                            v,
                        ) ==> #[trigger] crate::stats::has_rec(recs@, v)
                },
                None => r matches Response::Success {
                    message,
                    data: Some(ResponseData::Recommendations(recs)),
                } && message@ == "No active profile"@ && recs@.len() == 0,
            },
    {
        match self.state.get_profile(self.state.active_profile_name()) {
            Some(profile) => {
                let recs = self.stats.generate_recommendations(profile);
                Response::ok_with_data("Recommendations generated", ResponseData::Recommendations(recs))
            },
            None => Response::ok_with_data(
                "No active profile",
                ResponseData::Recommendations(Vec::new()),
            ),
        }
    }

    /// The metrics answer (structured form) after `uptime_secs`.
    pub fn metrics_response(&self, uptime_secs: u64) -> (r: Response)
        ensures
            r matches Response::Success { message, data: Some(ResponseData::Metrics(m)) } && {
                &&& message@ == "Metrics retrieved"@
                &&& m.uptime_secs == uptime_secs
                &&& m.total_switches == self.health.total_switches
                &&& m.failed_switches == self.health.failed_switches
                &&& m.average_switch_duration_us == if self.health.total_switches == 0 {
                    0
                } else {
                    self.health.switch_duration_sum_us / (self.health.total_switches as u128)
                }
                &&& m.max_switch_duration_us == self.health.max_switch_duration_us
                &&& m.skipped_conflicts == self.health.skipped_conflicts
                &&& m.forced_overrides == self.health.forced_overrides
                &&& m.active_connections == self.health.active_connections
                &&& m.plugins_loaded == self.health.plugins_loaded
                &&& m.plugins_failed == self.health.plugins_failed
            },
    {
        let m = self.health.metrics(uptime_secs);
        Response::ok_with_data("Metrics retrieved", ResponseData::Metrics(m))
    }

    /// The loaded plugins selected by `id` (all when none), by increasing
    /// id.
    pub fn selected_plugin_infos(&self, id: Option<&str>) -> (r: Vec<PluginInfo>)
        requires
            self.wf(),
        ensures
            selected_plugins(self.plugins, id, r@),
    {
        let all = self.plugins.plugins();
        let ghost ids = self.plugins.plugin_ids();
        let ghost pred = |k: Seq<char>| wanted(k, id);
        let mut out: Vec<PluginInfo> = Vec::new();
        let mut i: usize = 0;
        while i < all.len()
            invariant
                self.wf(),
                i <= all@.len(),
                all@.len() == ids.len(),
                ids == self.plugins.plugin_ids(),
                pred == (|k: Seq<char>| wanted(k, id)),
                forall|j: int| 0 <= j < all@.len() ==> self.plugins.loaded().contains_key(#[trigger] ids[j]),
                forall|j: int| 0 <= j < all@.len() ==> *(#[trigger] all@[j]) == self.plugins.loaded()[ids[j]],
                out@.map_values(|w: PluginInfo| w.id@) == ids.take(i as int).filter(pred),
                forall|k: int|
                    0 <= k < out@.len() ==> self.plugins.loaded().contains_key(#[trigger] out@[k].id@)
                        && wire_of(self.plugins.loaded()[out@[k].id@], out@[k]),
            decreases all@.len() - i,
        {
            let p = all[i];
            proof {
                self.plugins.lemma_filed_by_id(ids[i as int]);
                reveal(Seq::filter);
                assert(ids.take(i + 1).drop_last() =~= ids.take(i as int));
                assert(ids.take(i + 1).last() == ids[i as int]);
            }
            let take = match id {
                Some(w) => str_eq(p.manifest.id.as_str(), w),
                None => true,
            };
            let ghost before = out@;
            if take {
                let w = crate::daemon::plugin_to_wire(p);
                out.push(w);
                assert(out@.map_values(|w: PluginInfo| w.id@) =~= before.map_values(|w: PluginInfo| w.id@).push(ids[i as int]));
            }
            i = i + 1;
        }
        assert(ids.take(all@.len() as int) =~= ids);
        out
    }

    /// The plugin list answer.
    pub fn plugins_response(&self) -> (r: Response)
        requires
            self.wf(),
        ensures
            r matches Response::Success { message, data: Some(ResponseData::Plugins(ps)) }
                && message@ == "Plugins retrieved"@ && selected_plugins(self.plugins, None, ps@),
    {
        let infos = self.selected_plugin_infos(None);
        Response::ok_with_data("Plugins retrieved", ResponseData::Plugins(infos))
    }
}

impl AetherDaemon {
    /// `ID: MESSAGE` for each recorded plugin failure selected by `id` (all
    /// when none), by increasing id.
    pub fn selected_failures(&self, id: Option<&str>) -> (r: Vec<String>)
        requires
            self.wf(),
        ensures
            r@.map_values(|s: String| s@) == failure_lines(self.plugins.failures_list(), id),
    {
        let fs = self.plugins.failures();
        let ghost pred = |f: (String, String)| wanted(f.0@, id);
        let ghost line = |f: (String, String)| f.0@ + ": "@ + f.1@;
        let mut out: Vec<String> = Vec::new();
        let mut i: usize = 0;
        while i < fs.len()
            invariant
                i <= fs@.len(),
                pred == (|f: (String, String)| wanted(f.0@, id)),
                line == (|f: (String, String)| f.0@ + ": "@ + f.1@),
                out@.map_values(|s: String| s@) == fs@.take(i as int).filter(pred).map_values(line),
            decreases fs@.len() - i,
        {
            proof {
                reveal(Seq::filter);
                assert(fs@.take(i + 1).drop_last() =~= fs@.take(i as int));
                assert(fs@.take(i + 1).last() == fs@[i as int]);
            }
            let f = &fs[i];
            let take = match id {
                Some(w) => str_eq(f.0.as_str(), w),
                None => true,
            };
            let ghost before = out@;
            let ghost sub = fs@.take(i as int).filter(pred);
            if take {
                let mut l = concat(f.0.as_str(), ": ");
                push_str(&mut l, f.1.as_str());
                out.push(l);
                assert(sub.push(fs@[i as int]).map_values(line) =~= sub.map_values(line).push(line(fs@[i as int])));
                assert(out@.map_values(|s: String| s@) =~= before.map_values(|s: String| s@).push(line(fs@[i as int])));
            }
            i = i + 1;
        }
        assert(fs@.take(fs@.len() as int) =~= fs@);
        out
    }

    /// The plugin validation answer for the plugins selected by `id`.
    pub fn plugin_validation_response(&self, id: Option<&str>) -> (r: Response)
        requires
            self.wf(),
        ensures
            r matches Response::Success { message, data: Some(ResponseData::Validation(v)) } && {
                &&& message@ == "Plugin validation completed"@
                &&& selected_plugins(self.plugins, id, v.plugins@)
                &&& v.failures@.map_values(|s: String| s@) == failure_lines(self.plugins.failures_list(), id)
                &&& v.valid == (v.failures@.len() == 0)
            },
    {
        let plugins = self.selected_plugin_infos(id);
        let failures = self.selected_failures(id);
        let valid = failures.len() == 0;
        Response::ok_with_data(
            "Plugin validation completed",
            ResponseData::Validation(PluginValidation { valid, plugins, failures }),
        )
    }

    /// The answer when no loaded plugin has id `id`.
    pub fn plugin_missing_response(id: &str) -> (r: Response)
        ensures
            is_err_msg(r, "PLUGIN_NOT_FOUND"@, "Plugin '"@ + id@ + "' is not loaded"@),
    {
        let message = concat3("Plugin '", id, "' is not loaded");
        Response::err("PLUGIN_NOT_FOUND", message.as_str())
    }

    /// The answer to a plugin run, from its outcome: what the plugin
    /// reported, or why it could not run.
    pub fn plugin_result_response(result: Result<crate::plugin::PluginActionOutput, String>) -> (r: Response)
        ensures
            match result {
                Ok(out) => if out.ok {
                    is_ok_msg(r, out.message@)
                } else {
                    is_err_msg(r, "PLUGIN_ACTION_FAILED"@, out.message@)
                },
                Err(e) => is_err_msg(r, "PLUGIN_ACTION_FAILED"@, e@),
            },
    {
        match result {
            Ok(out) => if out.ok {
                Response::ok(out.message.as_str())
            } else {
                Response::err("PLUGIN_ACTION_FAILED", out.message.as_str())
            },
            Err(e) => Response::err("PLUGIN_ACTION_FAILED", e.as_str()),
        }
    }

    /// The doctor report after `uptime_secs`, stamped `now_ms`.
    pub fn doctor(&self, uptime_secs: u64, now_ms: u128) -> (r: DoctorReport)
        requires
            self.wf(),
        ensures
            exists|input: DoctorInput|
                #[trigger] doctor_input_of(*self, uptime_secs, input) && r.checks@.map_values(
                    |c: crate::protocol::DiagnosticCheck| crate::health::check_view(c),
                ) == crate::health::doctor_checks(input),
            r.healthy == self.health.backend_connected,
            r.backend@ == self.health.backend@,
            r.generated_unix_ms == Some(now_ms),
    {
        let baseline_count = self.state.baseline().len();
        let input = DoctorInput {
            uptime_secs,
            backend: self.health.backend.as_str(),
            backend_connected: self.health.backend_connected,
            backend_message: backend_text(self.health.backend_connected),
            baseline_count,
            active_profile: self.state.active_profile_name(),
            plugins_loaded: self.health.plugins_loaded,
            plugins_failed: self.health.plugins_failed,
            last_error: opt_as_str(&self.health.last_error),
        };
        let r = crate::health::doctor_report(&input, now_ms);
        assert(doctor_input_of(*self, uptime_secs, input));
        r
    }

    /// The answer after exporting the doctor report to `export` (`-` for the
    /// standard output), given whether writing it worked.
    pub fn doctor_export_response(export: &str, written: Result<(), String>) -> (r: Response)
        ensures
            match written {
                Ok(()) => if export@ == "-"@ {
                    is_ok_msg(r, "Diagnostic report exported to stdout"@)
                } else {
                    is_ok_msg(r, "Diagnostic report exported to "@ + export@)
                },
                Err(e) => if export@ == "-"@ {
                    is_err_msg(r, "INTERNAL_ERROR"@, e@)
                } else {
                    is_err_msg(r, "EXPORT_FAILED"@, e@)
                },
            },
    {
        let stdout = str_eq(export, "-");
        match written {
            Ok(()) => if stdout {
                Response::ok("Diagnostic report exported to stdout")
            } else {
                let message = concat("Diagnostic report exported to ", export);
                Response::ok(message.as_str())
            },
            Err(e) => if stdout {
                Response::err("INTERNAL_ERROR", e.as_str())
            } else {
                Response::err("EXPORT_FAILED", e.as_str())
            },
        }
    }

    /// The doctor answer when the report is not exported.
    pub fn doctor_response(report: DoctorReport) -> (r: Response)
        ensures
            r matches Response::Success { message, data: Some(ResponseData::Doctor(d)) }
                && message@ == "Diagnostic report generated"@ && d == report,
    {
        Response::ok_with_data("Diagnostic report generated", ResponseData::Doctor(report))
    }
}

/// Whether `input` is what the doctor examines in daemon `d` after
/// `uptime_secs`.
pub open spec fn doctor_input_of(d: AetherDaemon, uptime_secs: u64, input: DoctorInput) -> bool {
    &&& input.uptime_secs == uptime_secs
    &&& input.backend@ == d.health.backend@
    &&& input.backend_connected == d.health.backend_connected
    &&& input.backend_message@ == backend_line(d.health.backend_connected)
    &&& input.baseline_count == d.state.baselines().dom().len()
    &&& input.active_profile@ == d.state.active_name()
    &&& input.plugins_loaded == d.health.plugins_loaded
    &&& input.plugins_failed == d.health.plugins_failed
    &&& crate::daemon::opt_str(input.last_error) == crate::binding::opt_view(d.health.last_error)
}

/// The backend line of the doctor report.
pub fn backend_text(connected: bool) -> (r: &'static str)
    ensures
        r@ == backend_line(connected),
{
    if connected {
        "Hyprland IPC connected"
    } else {
        "Hyprland IPC unavailable; running in state-only mode"
    }
}

/// The text inside an optional string.
pub fn opt_as_str(o: &Option<String>) -> (r: Option<&str>)
    ensures
        crate::daemon::opt_str(r) == crate::binding::opt_view(*o),
{
    match o {
        Some(s) => Some(s.as_str()),
        None => None,
    }
}

/// How applying a plan ends: with the compositor's error, with the state's
/// refusal (the target profile is unknown), or in success.
pub open spec fn commit_outcome(s0: crate::state::StateManager, plan: crate::state::SwitchPlan, applied: Result<(), String>) -> Result<(), Seq<char>> {
    match applied {
        Err(e) => Err("Hyprland error: "@ + e@),
        Ok(()) => match profile_named(s0.profile_list(), plan.target_profile@) {
            None => Err(
                "Core state error: "@ + error_text(CoreError::ProfileNotFound(plan.target_profile)),
            ),
            Some(_) => Ok(()),
        },
    }
}

/// What committing `plan` makes of state `s0`.
pub open spec fn committed(s0: crate::state::StateManager, s1: crate::state::StateManager, plan: crate::state::SwitchPlan) -> bool {
    match profile_named(s0.profile_list(), plan.target_profile@) {
        Some(p) => {
            &&& s1.overlays() == crate::state::committed_overlays(p.bindings@, s0.baselines())
            &&& s1.replaced() == crate::state::replaced_after(s0.replaced(), s0.baselines(), plan.unbind@)
            &&& s1.active_name() == plan.target_profile@
            &&& s1.profile_list() == s0.profile_list()
            &&& s1.baselines() == s0.baselines()
        },
        None => s1 == s0,
    }
}

/// `Successfully switched to profile 'P': A applied, S skipped, F forced`.
pub open spec fn switched_text(p: Seq<char>, applied: nat, skipped: nat, forced: nat) -> Seq<char> {
    "Successfully switched to profile '"@ + p + "': "@ + decimal(applied) + " applied, "@ + decimal(skipped)
        + " skipped, "@ + decimal(forced) + " forced"@
}

/// Whether `e` is the success event of a switch to `p`.
pub open spec fn is_switch_event(e: Event, p: Seq<char>, duration_us: u128, applied: usize, skipped: usize, forced: usize) -> bool {
    e matches Event::SwitchSucceeded { profile, duration_us: d, applied: a, skipped: s, forced: f }
        && profile@ == p && d == duration_us && a == applied && s == skipped && f == forced
}

/// Whether `e` is the failure event of a switch to `p` with `error`.
pub open spec fn is_failure_event(e: Event, p: Seq<char>, error: Seq<char>) -> bool {
    e matches Event::SwitchFailed { profile, error: x } && profile@ == p && x@ == error
}

/// The start of a request that may need the compositor: either the answer
/// is ready, or a plan must be applied first.
pub enum SwitchStart {
    Done(Outcome),
    Apply(crate::conflict::ResolvedSwitchPlan),
}

/// The start of a profile edit: the answer, or the plan to apply first.
pub enum EditStart {
    Done(Response),
    Apply(crate::state::SwitchPlan),
}

/// The start of a cycle: the answer, or the target and its plan.
pub enum CycleStart {
    Done(Outcome),
    Apply(String, crate::conflict::ResolvedSwitchPlan),
}

impl AetherDaemon {
    /// Makes the state follow a plan the compositor applied (`applied` is
    /// its outcome): the plan is committed only when it was applied.
    pub fn commit_plan(&mut self, plan: &crate::state::SwitchPlan, applied: Result<(), String>) -> (r: Result<(), String>)
        requires
            old(self).wf(),
        ensures
            final(self).wf(),
            match commit_outcome(old(self).state, *plan, applied) {
                Ok(()) => r is Ok,
                Err(m) => r matches Err(x) && x@ == m,
            },
            applied is Ok ==> committed(old(self).state, final(self).state, *plan),
            applied is Err ==> final(self).state == old(self).state,
            final(self).state.history() == old(self).state.history(),
            final(self).state.next_sequence() == old(self).state.next_sequence(),
            final(self).state.report().applied == old(self).state.report().applied,
            final(self).state.report().skipped == old(self).state.report().skipped,
            final(self).state.report().forced == old(self).state.report().forced,
            final(self).stats == old(self).stats,
            final(self).health == old(self).health,
            final(self).plugins == old(self).plugins,
            final(self).window_policy == old(self).window_policy,
    {
        match applied {
            Err(e) => Err(concat("Hyprland error: ", e.as_str())),
            Ok(()) => match self.state.commit_switch(plan) {
                Ok(()) => Ok(()),
                Err(e) => {
                    let m = e.message();
                    Err(concat("Core state error: ", m.as_str()))
                },
            },
        }
    }

    /// Makes the state follow a resolved switch the compositor applied
    /// (`applied` is its outcome), recording the switch's own conflict
    /// report: committed only when it was applied.
    pub fn commit_resolved(
        &mut self,
        res: &crate::conflict::ResolvedSwitchPlan,
        applied: Result<(), String>,
    ) -> (r: Result<(), String>)
        requires
            old(self).wf(),
        ensures
            final(self).wf(),
            match commit_outcome(old(self).state, res.plan, applied) {
                Ok(()) => {
                    &&& r is Ok
                    &&& committed(old(self).state, final(self).state, res.plan)
                    &&& final(self).state.report().applied == res.report.applied
                    &&& final(self).state.report().skipped == res.report.skipped
                    &&& final(self).state.report().forced == res.report.forced
                    &&& final(self).state.skipped_total() == old(self).state.skipped_total().saturating_add(
                        res.report.skipped,
                    )
                    &&& final(self).state.forced_total() == old(self).state.forced_total().saturating_add(
                        res.report.forced,
                    )
                },
                Err(m) => r matches Err(x) && x@ == m && final(self).state == old(self).state,
            },
            final(self).state.history() == old(self).state.history(),
            final(self).state.next_sequence() == old(self).state.next_sequence(),
            final(self).state.policy() == old(self).state.policy(),
            final(self).stats == old(self).stats,
            final(self).health == old(self).health,
            final(self).plugins == old(self).plugins,
            final(self).window_policy == old(self).window_policy,
    {
        match applied {
            Err(e) => Err(concat("Hyprland error: ", e.as_str())),
            Ok(()) => match self.state.commit_switch_with_report(&res.plan, &res.report) {
                Ok(()) => Ok(()),
                Err(e) => {
                    let m = e.message();
                    Err(concat("Core state error: ", m.as_str()))
                },
            },
        }
    }

    /// Records a switch to `profile` in the statistics when its counters
    /// can still grow.
    fn count_switch(&mut self, profile: &str, since_secs: u64)
        requires
            old(self).wf(),
        ensures
            final(self).wf(),
            final(self).state == old(self).state,
            final(self).health == old(self).health,
            final(self).plugins == old(self).plugins,
            final(self).window_policy == old(self).window_policy,
            old(self).stats.switches() < u64::MAX && (old(self).stats.active() matches Some(a)
                ==> crate::named::count_of(old(self).stats.usage(), a) + since_secs <= u64::MAX)
                ==> final(self).stats.switches() == old(self).stats.switches() + 1
                && final(self).stats.active() == Some(profile@),
    {
        let used = self.stats.active_usage();
        if self.stats.total_switches() < u64::MAX && used <= u64::MAX - since_secs {
            self.stats.record_switch(profile, since_secs);
        }
    }

    /// Appends a history record when the sequence can still grow.
    fn log_switch(
        &mut self,
        now_ms: u128,
        profile: &str,
        succeeded: bool,
        duration_us: u128,
        applied: usize,
        skipped: usize,
        forced: usize,
        error: Option<String>,
    )
        requires
            old(self).wf(),
        ensures
            final(self).wf(),
            final(self).stats == old(self).stats,
            final(self).health == old(self).health,
            final(self).plugins == old(self).plugins,
            final(self).window_policy == old(self).window_policy,
            final(self).state.profile_list() == old(self).state.profile_list(),
            final(self).state.active_name() == old(self).state.active_name(),
            final(self).state.overlays() == old(self).state.overlays(),
            final(self).state.baselines() == old(self).state.baselines(),
            final(self).state.replaced() == old(self).state.replaced(),
            final(self).state.report() == old(self).state.report(),
            old(self).state.next_sequence() < u64::MAX ==> {
                let e = final(self).state.history().last();
                &&& final(self).state.history().len() > 0
                &&& e.sequence == old(self).state.next_sequence()
                &&& e.unix_ms == now_ms
                &&& e.profile@ == profile@
                &&& e.succeeded == succeeded
                &&& e.duration_us == duration_us
                &&& e.applied == applied
                &&& e.skipped == skipped
                &&& e.forced == forced
                &&& e.error == error
            },
    {
        if self.state.history_sequence() < u64::MAX {
            self.state.record_switch_history(
                now_ms,
                profile,
                succeeded,
                duration_us,
                applied,
                skipped,
                forced,
                error,
            );
        }
    }

    /// The first step of a switch to `profile`: already there (unless
    /// `force`), unknown, or the plan to apply under the strict policy.
    pub fn begin_switch(&self, profile: &str, force: bool) -> (r: SwitchStart)
        requires
            self.wf(),
        ensures
            if !force && self.state.active_name() == profile@ {
                r matches SwitchStart::Done(o) && {
                    let m = "Already on profile '"@ + profile@ + "'"@;
                    &&& is_ok_msg(o.response, m)
                    &&& o.notices@.len() == 1 && is_notice(o.notices@[0], "AetherShift"@, m, false)
                    &&& o.events@.len() == 0
                }
            } else {
                match profile_named(self.state.profile_list(), profile@) {
                    None => r matches SwitchStart::Done(o) && {
                        let e = "Profile '"@ + profile@ + "' not found"@;
                        &&& is_err_msg(o.response, "SWITCH_FAILED"@, e)
                        &&& o.notices@.len() == 1 && is_notice(
                            o.notices@[0],
                            "AetherShift Error"@,
                            "Failed to switch to profile '"@ + profile@ + "': "@ + e,
                            true,
                        )
                        &&& o.events@.len() == 0
                    },
                    Some(p) => r matches SwitchStart::Apply(res) && crate::state::switch_result(
                        self.state.overlays(),
                        crate::state::profile_map(p),
                        self.state.baselines(),
                        crate::profile_metadata::ConflictPolicy::Strict,
                        profile@,
                        res,
                    ),
                }
            },
    {
        if !force && str_eq(self.state.active_profile_name(), profile) {
            let m = concat3("Already on profile '", profile, "'");
            let mut notices: Vec<Notice> = Vec::new();
            notices.push(notice("AetherShift", m.as_str(), false));
            return SwitchStart::Done(
                Outcome { response: Response::ok(m.as_str()), notices, events: Vec::new() },
            );
        }
        match self.state.switch_profile_with_policy(profile, crate::profile_metadata::ConflictPolicy::Strict) {
            Ok(res) => SwitchStart::Apply(res),
            Err(e) => {
                let text = e.message();
                let mut body = concat3("Failed to switch to profile '", profile, "': ");
                push_str(&mut body, text.as_str());
                let mut notices: Vec<Notice> = Vec::new();
                notices.push(notice("AetherShift Error", body.as_str(), true));
                SwitchStart::Done(
                    Outcome {
                        response: Response::err("SWITCH_FAILED", text.as_str()),
                        notices,
                        events: Vec::new(),
                    },
                )
            },
        }
    }

    /// The first step of a switch to `profile` under `policy`: unknown
    /// (subscribers learn of the failure), or the plan to apply.
    pub fn begin_switch_with_policy(&self, profile: &str, policy: crate::protocol::ConflictPolicy) -> (r: SwitchStart)
        requires
            self.wf(),
        ensures
            match profile_named(self.state.profile_list(), profile@) {
                None => r matches SwitchStart::Done(o) && {
                    let e = "Profile '"@ + profile@ + "' not found"@;
                    &&& is_err_msg(o.response, "SWITCH_FAILED"@, e)
                    &&& o.notices@.len() == 0
                    &&& o.events@.len() == 1 && is_failure_event(o.events@[0], profile@, e)
                },
                Some(p) => r matches SwitchStart::Apply(res) && crate::state::switch_result(
                    self.state.overlays(),
                    crate::state::profile_map(p),
                    self.state.baselines(),
                    core_policy(policy),
                    profile@,
                    res,
                ),
            },
    {
        let cp = match policy {
            crate::protocol::ConflictPolicy::Strict => crate::profile_metadata::ConflictPolicy::Strict,
            crate::protocol::ConflictPolicy::Force => crate::profile_metadata::ConflictPolicy::Force,
            crate::protocol::ConflictPolicy::Smart => crate::profile_metadata::ConflictPolicy::Smart,
        };
        match self.state.switch_profile_with_policy(profile, cp) {
            Ok(resolved) => SwitchStart::Apply(resolved),
            Err(e) => {
                let text = e.message();
                let mut events: Vec<Event> = Vec::new();
                events.push(Event::SwitchFailed { profile: owned(profile), error: text.clone() });
                SwitchStart::Done(
                    Outcome {
                        response: Response::err("SWITCH_FAILED", text.as_str()),
                        notices: Vec::new(),
                        events,
                    },
                )
            },
        }
    }

    /// The second step of a switch to `profile` (with or without a
    /// conflict policy): the compositor's outcome `applied` took
    /// `duration_us`; `now_ms` stamps the history and `since_secs` is the
    /// time spent in the previous profile.
    pub fn finish_switch(
        &mut self,
        profile: &str,
        res: &crate::conflict::ResolvedSwitchPlan,
        applied: Result<(), String>,
        duration_us: u128,
        now_ms: u128,
        since_secs: u64,
        with_policy: bool,
    ) -> (r: Outcome)
        requires
            old(self).wf(),
        ensures
            final(self).wf(),
            final(self).window_policy == old(self).window_policy,
            final(self).plugins == old(self).plugins,
            match commit_outcome(old(self).state, res.plan, applied) {
                Ok(()) => {
                    let rep = res.report;
                    let m = switched_text(profile@, rep.applied as nat, rep.skipped as nat, rep.forced as nat);
                    &&& committed(old(self).state, final(self).state, res.plan)
                    &&& final(self).state.report().applied == rep.applied
                    &&& final(self).state.report().skipped == rep.skipped
                    &&& final(self).state.report().forced == rep.forced
                    &&& final(self).health.skipped_conflicts == old(self).health.skipped_conflicts.saturating_add(
                        rep.skipped,
                    )
                    &&& final(self).health.forced_overrides == old(self).health.forced_overrides.saturating_add(
                        rep.forced,
                    )
                    &&& is_ok_msg(r.response, m)
                    &&& r.notices@.len() == 1 && is_notice(r.notices@[0], "AetherShift"@, m, false)
                    &&& r.events@.len() == 1 && is_switch_event(
                        r.events@[0],
                        profile@,
                        duration_us,
                        rep.applied,
                        rep.skipped,
                        rep.forced,
                    )
                    &&& final(self).health.active_profile@ == profile@
                    &&& final(self).health.last_switch_succeeded
                    &&& final(self).health.last_switch_duration_us == duration_us
                    &&& final(self).health.total_switches == old(self).health.total_switches.saturating_add(1)
                    &&& old(self).state.next_sequence() < u64::MAX ==> {
                        let e = final(self).state.history().last();
                        &&& e.profile@ == profile@ && e.succeeded && e.duration_us == duration_us
                        &&& e.applied == rep.applied && e.skipped == rep.skipped && e.forced == rep.forced
                        &&& e.unix_ms == now_ms && e.error is None
                    }
                },
                Err(e) => {
                    let failure = if with_policy {
                        e
                    } else {
                        "Error applying profile '"@ + profile@ + "': "@ + e
                    };
                    &&& final(self).state.profile_list() == old(self).state.profile_list()
                    &&& final(self).state.active_name() == old(self).state.active_name()
                    &&& final(self).state.overlays() == old(self).state.overlays()
                    &&& is_err_msg(r.response, "HYPRLAND_ERROR"@, e)
                    &&& (if with_policy {
                        r.notices@.len() == 0
                    } else {
                        r.notices@.len() == 1 && is_notice(r.notices@[0], "AetherShift Error"@, failure, true)
                    })
                    &&& r.events@.len() == 1 && is_failure_event(r.events@[0], profile@, e)
                    &&& final(self).health.last_error matches Some(x) && x@ == failure
                    &&& !final(self).health.last_switch_succeeded
                    &&& final(self).health.failed_switches == old(self).health.failed_switches.saturating_add(1)
                    &&& final(self).stats == old(self).stats
                    &&& old(self).state.next_sequence() < u64::MAX ==> {
                        let h = final(self).state.history().last();
                        &&& h.profile@ == profile@ && !h.succeeded && h.duration_us == duration_us
                        &&& h.applied == 0 && h.skipped == 0 && h.forced == 0
                        &&& h.unix_ms == now_ms
                        &&& h.error matches Some(x) && x@ == e
                    }
                },
            },
    {
        let committed = self.commit_resolved(res, applied);
        match committed {
            Ok(()) => {
                self.count_switch(profile, since_secs);
                let applied_n = res.report.applied;
                let skipped = res.report.skipped;
                let forced = res.report.forced;
                self.log_switch(now_ms, profile, true, duration_us, applied_n, skipped, forced, None);
                self.health.record_switch(profile, duration_us, skipped, forced);
                let mut m = concat3("Successfully switched to profile '", profile, "': ");
                push_decimal(&mut m, applied_n as u128);
                push_str(&mut m, " applied, ");
                push_decimal(&mut m, skipped as u128);
                push_str(&mut m, " skipped, ");
                push_decimal(&mut m, forced as u128);
                push_str(&mut m, " forced");
                let mut events: Vec<Event> = Vec::new();
                events.push(
                    Event::SwitchSucceeded {
                        profile: owned(profile),
                        duration_us,
                        applied: applied_n,
                        skipped,
                        forced,
                    },
                );
                let mut notices: Vec<Notice> = Vec::new();
                notices.push(notice("AetherShift", m.as_str(), false));
                Outcome { response: Response::ok(m.as_str()), notices, events }
            },
            Err(e) => {
                let failure = if with_policy {
                    e.clone()
                } else {
                    let mut f = concat3("Error applying profile '", profile, "': ");
                    push_str(&mut f, e.as_str());
                    f
                };
                self.health.record_failure(failure.as_str());
                self.log_switch(now_ms, profile, false, duration_us, 0, 0, 0, Some(e.clone()));
                let mut events: Vec<Event> = Vec::new();
                events.push(Event::SwitchFailed { profile: owned(profile), error: e.clone() });
                let mut notices: Vec<Notice> = Vec::new();
                if !with_policy {
                    notices.push(notice("AetherShift Error", failure.as_str(), true));
                }
                Outcome { response: Response::err("HYPRLAND_ERROR", e.as_str()), notices, events }
            },
        }
    }
}

/// The planner's policy for a policy named on the wire.
pub open spec fn core_policy(p: crate::protocol::ConflictPolicy) -> crate::profile_metadata::ConflictPolicy {
    match p {
        crate::protocol::ConflictPolicy::Strict => crate::profile_metadata::ConflictPolicy::Strict,
        crate::protocol::ConflictPolicy::Force => crate::profile_metadata::ConflictPolicy::Force,
        crate::protocol::ConflictPolicy::Smart => crate::profile_metadata::ConflictPolicy::Smart,
    }
}

/// The names of the known profiles, in order.
pub open spec fn profile_names(ps: Seq<Profile>) -> Seq<Seq<char>> {
    ps.map_values(|p: Profile| p.name@)
}

/// Whether `t` is the profile a cycle moves to from `active`: the one
/// after it in `names`, wrapping around, or the second one (the first
/// when alone) when `active` is not listed.
pub open spec fn cycle_target(names: Seq<Seq<char>>, active: Seq<char>, t: Seq<char>) -> bool {
    &&& names.len() > 0
    &&& (forall|j: int| 0 <= j < names.len() ==> names[j] != active) ==> t == names[1int % (names.len() as int)]
    &&& forall|j: int|
        0 <= j < names.len() && #[trigger] names[j] == active ==> t == names[(j + 1) % names.len() as int]
}

impl AetherDaemon {
    /// The first step of a cycle: nothing to cycle through, or the next
    /// profile and the plan to it.
    pub fn begin_cycle(&self) -> (r: CycleStart)
        requires
            self.wf(),
        ensures
            ({
                let ps = self.state.profile_list();
                let names = profile_names(ps);
                if ps.len() == 0 {
                    r matches CycleStart::Done(o) && {
                        let m = "No profiles available to cycle"@;
                        &&& is_ok_msg(o.response, m)
                        &&& o.notices@.len() == 1 && is_notice(o.notices@[0], "AetherShift"@, m, false)
                        &&& o.events@.len() == 0
                    }
                } else {
                    r matches CycleStart::Apply(t, res) && {
                        &&& cycle_target(names, self.state.active_name(), t@)
                        &&& profile_named(ps, t@) matches Some(p) && crate::state::switch_result(
                            self.state.overlays(),
                            crate::state::profile_map(p),
                            self.state.baselines(),
                            crate::profile_metadata::ConflictPolicy::Strict,
                            t@,
                            res,
                        )
                    }
                }
            }),
    {
        let list = self.state.list_profiles();
        let ghost ps = self.state.profile_list();
        proof {
            self.state.lemma_profiles_sorted();
        }
        if list.len() == 0 {
            let m = "No profiles available to cycle";
            let mut notices: Vec<Notice> = Vec::new();
            notices.push(notice("AetherShift", m, false));
            return CycleStart::Done(Outcome { response: Response::ok(m), notices, events: Vec::new() });
        }
        let active = self.state.active_profile_name();
        let mut cur: usize = 0;
        let mut found = false;
        let mut i: usize = 0;
        while i < list.len()
            invariant
                i <= list@.len(),
                list@.len() == ps.len(),
                forall|j: int| 0 <= j < list@.len() ==> #[trigger] list@[j].name@ == ps[j].name@,
                active@ == self.state.active_name(),
                !found ==> cur == 0 && forall|j: int| 0 <= j < i ==> ps[j].name@ != active@,
                found ==> cur < list@.len() && ps[cur as int].name@ == active@,
            decreases list@.len() - i,
        {
            if !found && str_eq(list[i].name.as_str(), active) {
                cur = i;
                found = true;
            }
            i = i + 1;
        }
        let next = (cur + 1) % list.len();
        let target = list[next].name.clone();
        proof {
            let names = profile_names(ps);
            assert(names.len() == ps.len());
            assert(target@ == names[next as int]);
            if found {
                assert(names[cur as int] == active@);
            }
            assert forall|j: int| 0 <= j < names.len() && #[trigger] names[j] == active@ implies target@
                == names[(j + 1) % names.len() as int] by {
                if found {
                    if j != cur {
                        if j < cur {
                            assert(crate::text::seq_lt(ps[j].name@, ps[cur as int].name@));
                        } else {
                            assert(crate::text::seq_lt(ps[cur as int].name@, ps[j].name@));
                        }
                        crate::text::lemma_seq_lt_irreflexive(active@);
                    }
                }
            }
            crate::state::lemma_profile_named(ps, target@, next as int);
        }
        match self.state.switch_profile_with_policy(target.as_str(), crate::profile_metadata::ConflictPolicy::Strict) {
            Ok(res) => CycleStart::Apply(target, res),
            Err(e) => {
                let text = e.message();
                let m = concat("Failed to cycle profile: Core state error: ", text.as_str());
                let mut notices: Vec<Notice> = Vec::new();
                notices.push(notice("AetherShift Error", m.as_str(), true));
                let code_text = concat("Core state error: ", text.as_str());
                CycleStart::Done(
                    Outcome {
                        response: Response::err("CYCLE_FAILED", code_text.as_str()),
                        notices,
                        events: Vec::new(),
                    },
                )
            },
        }
    }

    /// The second step of a cycle to `target`.
    pub fn finish_cycle(
        &mut self,
        target: &str,
        res: &crate::conflict::ResolvedSwitchPlan,
        applied: Result<(), String>,
        duration_us: u128,
        since_secs: u64,
    ) -> (r: Outcome)
        requires
            old(self).wf(),
        ensures
            final(self).wf(),
            final(self).window_policy == old(self).window_policy,
            final(self).plugins == old(self).plugins,
            final(self).state.history() == old(self).state.history(),
            r.events@.len() == 0,
            match commit_outcome(old(self).state, res.plan, applied) {
                Ok(()) => {
                    let m = "Cycled to profile '"@ + target@ + "'"@;
                    &&& committed(old(self).state, final(self).state, res.plan)
                    &&& final(self).state.report().applied == res.report.applied
                    &&& final(self).state.report().skipped == res.report.skipped
                    &&& final(self).state.report().forced == res.report.forced
                    &&& final(self).health.skipped_conflicts == old(self).health.skipped_conflicts.saturating_add(
                        res.report.skipped,
                    )
                    &&& final(self).health.forced_overrides == old(self).health.forced_overrides.saturating_add(
                        res.report.forced,
                    )
                    &&& is_ok_msg(r.response, m)
                    &&& r.notices@.len() == 1 && is_notice(r.notices@[0], "AetherShift"@, m, false)
                    &&& final(self).health.active_profile@ == target@
                    &&& final(self).health.last_switch_duration_us == duration_us
                    &&& final(self).health.total_switches == old(self).health.total_switches.saturating_add(1)
                },
                Err(e) => {
                    &&& final(self).state == old(self).state
                    &&& final(self).health == old(self).health
                    &&& final(self).stats == old(self).stats
                    &&& is_err_msg(r.response, "CYCLE_FAILED"@, e)
                    &&& r.notices@.len() == 1 && is_notice(
                        r.notices@[0],
                        "AetherShift Error"@,
                        "Failed to cycle profile: "@ + e,
                        true,
                    )
                },
            },
    {
        match self.commit_resolved(res, applied) {
            Ok(()) => {
                self.count_switch(target, since_secs);
                let skipped = res.report.skipped;
                let forced = res.report.forced;
                self.health.record_switch(target, duration_us, skipped, forced);
                let m = concat3("Cycled to profile '", target, "'");
                let mut notices: Vec<Notice> = Vec::new();
                notices.push(notice("AetherShift", m.as_str(), false));
                Outcome { response: Response::ok(m.as_str()), notices, events: Vec::new() }
            },
            Err(e) => {
                let m = concat("Failed to cycle profile: ", e.as_str());
                let mut notices: Vec<Notice> = Vec::new();
                notices.push(notice("AetherShift Error", m.as_str(), true));
                Outcome { response: Response::err("CYCLE_FAILED", e.as_str()), notices, events: Vec::new() }
            },
        }
    }

    /// The first step of a restore: the window policy returns to
    /// `omarchy`, and the plan back to the baseline is returned.
    pub fn begin_restore(&mut self) -> (r: crate::state::SwitchPlan)
        requires
            old(self).wf(),
        ensures
            final(self).wf(),
            final(self).window_policy == WindowPolicy::Omarchy,
            final(self).state == old(self).state,
            final(self).stats == old(self).stats,
            final(self).health == old(self).health,
            r.target_profile@ == "native"@,
            forall|c: crate::binding::ComboView| #[trigger]
                crate::keyed::keyed_map(r.unbind@).contains_key(c) <==> old(self).state.overlays().contains_key(c),
            forall|c: crate::binding::ComboView| #[trigger]
                crate::keyed::keyed_map(r.bind@).contains_key(c) <==> crate::state::rebound(
                    old(self).state.overlays(),
                    old(self).state.replaced(),
                    old(self).state.baselines(),
                ).contains_key(c),
    {
        self.window_policy = WindowPolicy::Omarchy;
        self.state.restore_plan()
    }

    /// The second step of a restore.
    pub fn finish_restore(
        &mut self,
        plan: &crate::state::SwitchPlan,
        applied: Result<(), String>,
        duration_us: u128,
        now_ms: u128,
        since_secs: u64,
    ) -> (r: Outcome)
        requires
            old(self).wf(),
        ensures
            final(self).wf(),
            final(self).window_policy == old(self).window_policy,
            final(self).plugins == old(self).plugins,
            match commit_outcome(old(self).state, *plan, applied) {
                Ok(()) => {
                    &&& committed(old(self).state, final(self).state, *plan)
                    &&& is_ok_msg(r.response, "Successfully restored baseline keybindings"@)
                    &&& r.notices@.len() == 1 && is_notice(
                        r.notices@[0],
                        "AetherShift"@,
                        "Restored baseline keybindings"@,
                        false,
                    )
                    &&& r.events@ == seq![
                        Event::Restored {
                            duration_us,
                            unbound: plan.unbind@.len() as usize,
                            rebound: plan.bind@.len() as usize,
                        },
                    ]
                    &&& final(self).health.active_profile@ == "native"@
                    &&& final(self).health.last_switch_succeeded
                    &&& old(self).state.next_sequence() < u64::MAX ==> {
                        let e = final(self).state.history().last();
                        &&& e.profile@ == "native"@ && e.succeeded && e.duration_us == duration_us
                        &&& e.applied == 0 && e.skipped == 0 && e.forced == 0
                        &&& e.unix_ms == now_ms && e.error is None
                    }
                },
                Err(e) => {
                    let failure = "Failed to restore baseline: "@ + e;
                    &&& final(self).state == old(self).state
                    &&& final(self).stats == old(self).stats
                    &&& is_err_msg(r.response, "RESTORE_FAILED"@, e)
                    &&& r.notices@.len() == 1 && is_notice(r.notices@[0], "AetherShift Error"@, failure, true)
                    &&& r.events@.len() == 0
                    &&& final(self).health.last_error matches Some(x) && x@ == failure
                    &&& !final(self).health.last_switch_succeeded
                },
            },
    {
        match self.commit_plan(plan, applied) {
            Ok(()) => {
                self.count_switch("native", since_secs);
                self.health.record_restore(duration_us);
                self.log_switch(now_ms, "native", true, duration_us, 0, 0, 0, None);
                let mut events: Vec<Event> = Vec::new();
                events.push(
                    Event::Restored {
                        duration_us,
                        unbound: plan.unbind.len(),
                        rebound: plan.bind.len(),
                    },
                );
                let mut notices: Vec<Notice> = Vec::new();
                notices.push(notice("AetherShift", "Restored baseline keybindings", false));
                Outcome {
                    response: Response::ok("Successfully restored baseline keybindings"),
                    notices,
                    events,
                }
            },
            Err(e) => {
                let failure = concat("Failed to restore baseline: ", e.as_str());
                self.health.record_failure(failure.as_str());
                let mut notices: Vec<Notice> = Vec::new();
                notices.push(notice("AetherShift Error", failure.as_str(), true));
                Outcome { response: Response::err("RESTORE_FAILED", e.as_str()), notices, events: Vec::new() }
            },
        }
    }

    /// The second step of a shutdown: the baseline plan's outcome is
    /// committed when it was applied, and the daemon says it is leaving.
    pub fn finish_shutdown(&mut self, plan: &crate::state::SwitchPlan, applied: Result<(), String>) -> (r: Response)
        requires
            old(self).wf(),
        ensures
            final(self).wf(),
            applied is Ok ==> committed(old(self).state, final(self).state, *plan),
            applied is Err ==> final(self).state == old(self).state,
            is_ok_msg(r, "Daemon is shutting down"@),
    {
        let _ = self.commit_plan(plan, applied);
        Response::ok("Daemon is shutting down")
    }
}

/// `[X, Y, WIDTH, HEIGHT]` of a rectangle.
pub open spec fn rect_text(r: crate::layout::Rect) -> Seq<char> {
    "["@ + crate::text::decimal_int(r.x as int) + ", "@ + crate::text::decimal_int(r.y as int)
        + ", "@ + crate::text::decimal_int(r.width as int) + ", "@ + crate::text::decimal_int(
        r.height as int,
    ) + "]"@
}

/// `LEAD` + `LAYOUT' on monitor 'MONITOR': [X, Y, W, H]`.
pub open spec fn layout_text(lead: Seq<char>, l: crate::protocol::SnapLayout, monitor: Seq<char>, r: crate::layout::Rect) -> Seq<char> {
    lead + crate::protocol::layout_name(l) + "' on monitor '"@ + monitor + "': "@
        + rect_text(r)
}

/// The monitor a window on monitor `id` is placed by: that monitor, else
/// the focused one, else the first.
pub open spec fn chosen_monitor(ms: Seq<crate::hypr::MonitorInfo>, id: i64) -> Option<int> {
    if exists|i: int| 0 <= i < ms.len() && #[trigger] ms[i].id == id {
        Some(choose|i: int| 0 <= i < ms.len() && #[trigger] ms[i].id == id && forall|k: int| 0 <= k < i ==> ms[k].id != id)
    } else if exists|i: int| 0 <= i < ms.len() && #[trigger] ms[i].focused {
        Some(choose|i: int| 0 <= i < ms.len() && #[trigger] ms[i].focused && forall|k: int| 0 <= k < i ==> !ms[k].focused)
    } else if ms.len() > 0 {
        Some(0)
    } else {
        None
    }
}

/// The work area of a monitor.
pub open spec fn area_of(m: crate::hypr::MonitorInfo) -> crate::layout::Rect {
    crate::layout::Rect { x: m.area_x, y: m.area_y, width: m.area_width, height: m.area_height }
}

/// The rectangle a window occupies.
pub open spec fn window_rect(w: crate::hypr::HyprWindow) -> crate::layout::Rect {
    crate::layout::Rect { x: w.at.0, y: w.at.1, width: w.size.0, height: w.size.1 }
}

/// The start of a snap: the answer (an error, or a preview), or where to
/// place the window.
pub enum LayoutStep {
    Done(Outcome),
    Place { address: String, monitor: String, from: crate::layout::Rect, to: crate::layout::Rect },
}

fn first_monitor(ms: &Vec<crate::hypr::MonitorInfo>, id: i64) -> (r: Option<usize>)
    ensures
        r matches Some(i) ==> i < ms@.len(),
        chosen_monitor(ms@, id) == match r {
            Some(i) => Some(i as int),
            None => None::<int>,
        },
{
    let mut i: usize = 0;
    while i < ms.len()
        invariant
            i <= ms@.len(),
            forall|k: int| 0 <= k < i ==> ms@[k].id != id,
        decreases ms@.len() - i,
    {
        if ms[i].id == id {
            proof {
                let p = |j: int| 0 <= j < ms@.len() && ms@[j].id == id && forall|k: int| 0 <= k < j ==> ms@[k].id != id;
                assert(p(i as int));
                let c = choose|j: int| 0 <= j < ms@.len() && #[trigger] ms@[j].id == id && forall|k: int| 0 <= k < j ==> ms@[k].id != id;
                assert(ms@[i as int].id == id);
                if c < i {
                } else if c > i {
                    assert(ms@[i as int].id == id);
                }
                assert(c == i);
            }
            return Some(i);
        }
        i = i + 1;
    }
    let mut j: usize = 0;
    while j < ms.len()
        invariant
            j <= ms@.len(),
            forall|k: int| 0 <= k < ms@.len() ==> ms@[k].id != id,
            forall|k: int| 0 <= k < j ==> !ms@[k].focused,
        decreases ms@.len() - j,
    {
        if ms[j].focused {
            proof {
                let c = choose|q: int| 0 <= q < ms@.len() && #[trigger] ms@[q].focused && forall|k: int| 0 <= k < q ==> !ms@[k].focused;
                assert(ms@[j as int].focused);
                if c < j {
                } else if c > j {
                    assert(ms@[j as int].focused);
                }
                assert(c == j);
            }
            return Some(j);
        }
        j = j + 1;
    }
    if ms.len() > 0 {
        Some(0)
    } else {
        None
    }
}

fn push_rect(s: &mut String, r: crate::layout::Rect)
    ensures
        final(s)@ == old(s)@ + rect_text(r),
{
    push_str(s, "[");
    crate::text::push_decimal_i64(s, r.x as i64);
    push_str(s, ", ");
    crate::text::push_decimal_i64(s, r.y as i64);
    push_str(s, ", ");
    crate::text::push_decimal_i64(s, r.width as i64);
    push_str(s, ", ");
    crate::text::push_decimal_i64(s, r.height as i64);
    push_str(s, "]");
    assert(final(s)@ =~= old(s)@ + rect_text(r));
}

impl AetherDaemon {
    /// The answer when no compositor is connected.
    pub fn no_compositor_outcome() -> (r: Outcome)
        ensures
            is_err_msg(r.response, "NO_HYPRLAND"@, "Hyprland client is not connected"@),
            r.notices@.len() == 1 && is_notice(
                r.notices@[0],
                "AetherShift Error"@,
                "Hyprland client is not connected"@,
                true,
            ),
            r.events@.len() == 0,
    {
        let m = "Hyprland client is not connected";
        let mut notices: Vec<Notice> = Vec::new();
        notices.push(notice("AetherShift Error", m, true));
        Outcome { response: Response::err("NO_HYPRLAND", m), notices, events: Vec::new() }
    }

    fn failure(code: &str, message: &str) -> (r: Outcome)
        ensures
            is_err_msg(r.response, code@, message@),
            r.notices@.len() == 1 && is_notice(r.notices@[0], "AetherShift Error"@, message@, true),
            r.events@.len() == 0,
    {
        let mut notices: Vec<Notice> = Vec::new();
        notices.push(notice("AetherShift Error", message, true));
        Outcome { response: Response::err(code, message), notices, events: Vec::new() }
    }

    /// The first step of a snap to `layout`, given the active window (or
    /// why it could not be read) and the monitors (or why they could not be
    /// read): the window's rectangle is remembered before its first snap,
    /// and a restore gives it back.
    pub fn begin_layout(
        &mut self,
        layout: crate::protocol::SnapLayout,
        preview: bool,
        window: Result<Option<crate::hypr::HyprWindow>, String>,
        monitors: Result<Vec<crate::hypr::MonitorInfo>, String>,
    ) -> (r: LayoutStep)
        requires
            old(self).wf(),
        ensures
            final(self).wf(),
            final(self).state == old(self).state,
            final(self).stats == old(self).stats,
            final(self).health == old(self).health,
            match window {
                Err(e) => r matches LayoutStep::Done(o) && is_err_msg(
                    o.response,
                    "HYPRLAND_ERROR"@,
                    "Failed fetching active window: "@ + e@,
                ) && final(self).geometry_memory@ == old(self).geometry_memory@,
                Ok(None) => r matches LayoutStep::Done(o) && is_err_msg(
                    o.response,
                    "NO_WINDOW"@,
                    "No active window found to apply layout"@,
                ) && final(self).geometry_memory@ == old(self).geometry_memory@,
                Ok(Some(w)) => match monitors {
                    Err(e) => r matches LayoutStep::Done(o) && is_err_msg(
                        o.response,
                        "HYPRLAND_ERROR"@,
                        "Failed fetching monitors: "@ + e@,
                    ) && final(self).geometry_memory@ == old(self).geometry_memory@,
                    Ok(ms) => match chosen_monitor(ms@, w.monitor) {
                        None => r matches LayoutStep::Done(o) && is_err_msg(
                            o.response,
                            "NO_MONITOR"@,
                            "No monitor detected"@,
                        ) && final(self).geometry_memory@ == old(self).geometry_memory@,
                        Some(mi) => {
                            let m = ms@[mi];
                            let target = if layout == crate::protocol::SnapLayout::RestoreOriginal {
                                match old(self).geometry_memory@.get(w.address@) {
                                    Some(orig) => orig,
                                    None => window_rect(w),
                                }
                            } else {
                                crate::layout::rect_of(crate::layout::geometry(layout, area_of(m)))
                            };
                            &&& (if layout == crate::protocol::SnapLayout::RestoreOriginal {
                                final(self).geometry_memory@ == old(self).geometry_memory@.remove(w.address@)
                            } else {
                                final(self).geometry_memory@ == (if old(self).geometry_memory@.contains_key(w.address@) {
                                    old(self).geometry_memory@
                                } else {
                                    old(self).geometry_memory@.insert(w.address@, window_rect(w))
                                })
                            })
                            &&& if layout != crate::protocol::SnapLayout::RestoreOriginal && !crate::layout::layout_fits(layout, area_of(m)) {
                                r matches LayoutStep::Done(o) && is_err_msg(
                                    o.response,
                                    "LAYOUT_FAILED"@,
                                    "Layout does not fit the work area of monitor '"@ + m.name@ + "'"@,
                                )
                            } else if preview {
                                r matches LayoutStep::Done(o) && {
                                    let text = layout_text("Previewed layout '"@, layout, m.name@, target);
                                    &&& o.notices@.len() == 0
                                    &&& o.events@.len() == 0
                                    &&& o.response matches Response::Success {
                                        message,
                                        data: Some(ResponseData::Layout(fb)),
                                    }
                                    &&& message@ == text
                                    &&& fb.layout@ == crate::protocol::layout_name(layout)
                                    &&& fb.preview
                                    &&& fb.monitor@ == m.name@
                                    &&& fb.from == Some([w.at.0, w.at.1, w.size.0, w.size.1])
                                    &&& fb.to == [target.x, target.y, target.width, target.height]
                                    &&& fb.message matches Some(x) && x@ == text
                                }
                            } else {
                                r matches LayoutStep::Place { address, monitor, from, to } && address@
                                    == w.address@ && monitor@ == m.name@ && from == window_rect(w) && to == target
                            }
                        },
                    },
                },
            },
    {
        let w = match window {
            Err(e) => {
                let m = concat("Failed fetching active window: ", e.as_str());
                return LayoutStep::Done(Self::failure("HYPRLAND_ERROR", m.as_str()));
            },
            Ok(None) => {
                return LayoutStep::Done(
                    Self::failure("NO_WINDOW", "No active window found to apply layout"),
                );
            },
            Ok(Some(w)) => w,
        };
        let ms = match monitors {
            Err(e) => {
                let m = concat("Failed fetching monitors: ", e.as_str());
                return LayoutStep::Done(Self::failure("HYPRLAND_ERROR", m.as_str()));
            },
            Ok(ms) => ms,
        };
        let mi = match first_monitor(&ms, w.monitor) {
            None => {
                return LayoutStep::Done(Self::failure("NO_MONITOR", "No monitor detected"));
            },
            Some(i) => i,
        };
        let mon = &ms[mi];
        let work = crate::layout::Rect::new(mon.area_x, mon.area_y, mon.area_width, mon.area_height);
        let target = match self.pick_target(layout, &w, work) {
            Some(t) => t,
            None => {
                let m = concat3("Layout does not fit the work area of monitor '", mon.name.as_str(), "'");
                return LayoutStep::Done(Self::failure("LAYOUT_FAILED", m.as_str()));
            },
        };
        if preview {
            return LayoutStep::Done(Self::preview_outcome(layout, mon.name.as_str(), &w, target));
        }
        let orig = crate::layout::Rect::new(w.at.0, w.at.1, w.size.0, w.size.1);
        LayoutStep::Place { address: w.address, monitor: mon.name.clone(), from: orig, to: target }
    }

    /// Where window `w` goes for `layout` in `work` (none when the layout
    /// does not fit): its remembered rectangle for a restore, else the
    /// layout's geometry, the window's rectangle being remembered first.
    fn pick_target(&mut self, layout: crate::protocol::SnapLayout, w: &crate::hypr::HyprWindow, work: crate::layout::Rect) -> (r: Option<crate::layout::Rect>)
        requires
            old(self).wf(),
        ensures
            final(self).wf(),
            final(self).state == old(self).state,
            final(self).stats == old(self).stats,
            final(self).health == old(self).health,
            if layout == crate::protocol::SnapLayout::RestoreOriginal {
                &&& final(self).geometry_memory@ == old(self).geometry_memory@.remove(w.address@)
                &&& r == Some(match old(self).geometry_memory@.get(w.address@) {
                    Some(orig) => orig,
                    None => window_rect(*w),
                })
            } else {
                &&& final(self).geometry_memory@ == (if old(self).geometry_memory@.contains_key(w.address@) {
                    old(self).geometry_memory@
                } else {
                    old(self).geometry_memory@.insert(w.address@, window_rect(*w))
                })
                &&& r == if crate::layout::layout_fits(layout, work) {
                    Some(crate::layout::rect_of(crate::layout::geometry(layout, work)))
                } else {
                    None
                }
            },
    {
        let orig = crate::layout::Rect::new(w.at.0, w.at.1, w.size.0, w.size.1);
        match layout {
            crate::protocol::SnapLayout::RestoreOriginal => {
                match self.geometry_memory.restore_original(w.address.as_str()) {
                    Some(r) => Some(r),
                    None => Some(orig),
                }
            },
            _ => {
                self.geometry_memory.record_if_absent(w.address.as_str(), orig);
                if crate::layout::LayoutEngine::fits(layout, work) {
                    Some(crate::layout::LayoutEngine::compute_geometry(layout, work))
                } else {
                    None
                }
            },
        }
    }

    /// The answer to a preview of `layout` on `monitor`: where window `w`
    /// would go.
    fn preview_outcome(layout: crate::protocol::SnapLayout, monitor: &str, w: &crate::hypr::HyprWindow, target: crate::layout::Rect) -> (o: Outcome)
        ensures
            ({
                let text = layout_text("Previewed layout '"@, layout, monitor@, target);
                &&& o.notices@.len() == 0
                &&& o.events@.len() == 0
                &&& o.response matches Response::Success {
                    message,
                    data: Some(ResponseData::Layout(fb)),
                }
                &&& message@ == text
                &&& fb.layout@ == crate::protocol::layout_name(layout)
                &&& fb.preview
                &&& fb.monitor@ == monitor@
                &&& fb.from == Some([w.at.0, w.at.1, w.size.0, w.size.1])
                &&& fb.to == [target.x, target.y, target.width, target.height]
                &&& fb.message matches Some(x) && x@ == text
            }),
    {
        let mut m = concat3("Previewed layout '", layout.as_str(), "' on monitor '");
        push_str(&mut m, monitor);
        push_str(&mut m, "': ");
        push_rect(&mut m, target);
        let feedback = crate::protocol::LayoutFeedback {
            layout: owned(layout.as_str()),
            preview: true,
            monitor: owned(monitor),
            from: Some([w.at.0, w.at.1, w.size.0, w.size.1]),
            to: [target.x, target.y, target.width, target.height],
            message: Some(m.clone()),
        };
        answer(Response::ok_with_data(m.as_str(), ResponseData::Layout(feedback)))
    }

    /// The second step of a snap to `layout` on `monitor`, moving the window
    /// from `from` to `to`, given whether placing it worked.
    pub fn finish_layout(
        &mut self,
        layout: crate::protocol::SnapLayout,
        monitor: &str,
        from: crate::layout::Rect,
        to: crate::layout::Rect,
        placed: Result<(), String>,
    ) -> (r: Outcome)
        requires
            old(self).wf(),
        ensures
            final(self).wf(),
            final(self).state == old(self).state,
            final(self).health == old(self).health,
            final(self).geometry_memory == old(self).geometry_memory,
            r.events@.len() == 0,
            match placed {
                Ok(()) => {
                    let text = layout_text("Applied layout '"@, layout, monitor@, to);
                    let name = "snap_"@ + crate::protocol::layout_name(layout);
                    &&& r.notices@.len() == 1 && is_notice(r.notices@[0], "AetherShift"@, text, false)
                    &&& r.response matches Response::Success { message, data: Some(ResponseData::Layout(fb)) }
                    &&& message@ == text
                    &&& fb.layout@ == crate::protocol::layout_name(layout)
                    &&& !fb.preview
                    &&& fb.monitor@ == monitor@
                    &&& fb.from == Some([from.x, from.y, from.width, from.height])
                    &&& fb.to == [to.x, to.y, to.width, to.height]
                    &&& fb.message matches Some(x) && x@ == text
                    &&& crate::named::count_of(old(self).stats.actions(), name) < u64::MAX
                        && old(self).stats.actions_total() < u64::MAX ==> final(self).stats.actions()
                        == old(self).stats.actions().insert(
                        name,
                        (crate::named::count_of(old(self).stats.actions(), name) + 1) as u64,
                    )
                },
                Err(e) => {
                    let m = "Failed applying layout: "@ + e@;
                    &&& final(self).stats == old(self).stats
                    &&& is_err_msg(r.response, "LAYOUT_FAILED"@, m)
                    &&& r.notices@.len() == 1 && is_notice(r.notices@[0], "AetherShift Error"@, m, true)
                },
            },
    {
        match placed {
            Ok(()) => {
                let mut m = concat3("Applied layout '", layout.as_str(), "' on monitor '");
                push_str(&mut m, monitor);
                push_str(&mut m, "': ");
                push_rect(&mut m, to);
                let feedback = crate::protocol::LayoutFeedback {
                    layout: owned(layout.as_str()),
                    preview: false,
                    monitor: owned(monitor),
                    from: Some([from.x, from.y, from.width, from.height]),
                    to: [to.x, to.y, to.width, to.height],
                    message: Some(m.clone()),
                };
                let name = concat("snap_", layout.as_str());
                self.count_action(name.as_str());
                let mut notices: Vec<Notice> = Vec::new();
                notices.push(notice("AetherShift", m.as_str(), false));
                Outcome {
                    response: Response::ok_with_data(m.as_str(), ResponseData::Layout(feedback)),
                    notices,
                    events: Vec::new(),
                }
            },
            Err(e) => {
                let m = concat("Failed applying layout: ", e.as_str());
                Self::failure("LAYOUT_FAILED", m.as_str())
            },
        }
    }

    /// Counts one use of action `name` when its counters can still grow.
    fn count_action(&mut self, name: &str)
        requires
            old(self).wf(),
        ensures
            final(self).wf(),
            final(self).state == old(self).state,
            final(self).health == old(self).health,
            final(self).geometry_memory == old(self).geometry_memory,
            final(self).plugins == old(self).plugins,
            final(self).window_policy == old(self).window_policy,
            crate::named::count_of(old(self).stats.actions(), name@) < u64::MAX
                && old(self).stats.actions_total() < u64::MAX ==> final(self).stats.actions()
                == old(self).stats.actions().insert(
                name@,
                (crate::named::count_of(old(self).stats.actions(), name@) + 1) as u64,
            ),
            !(crate::named::count_of(old(self).stats.actions(), name@) < u64::MAX
                && old(self).stats.actions_total() < u64::MAX) ==> final(self).stats == old(self).stats,
    {
        if self.stats.action_count(name) < u64::MAX && self.stats.total_actions() < u64::MAX {
            self.stats.record_action(name);
        }
    }

    /// The answer to moving the active window to the monitor named by
    /// `direction`, given whether the compositor did it.
    pub fn finish_monitor_move(&mut self, direction: &str, moved: Result<(), String>) -> (r: Outcome)
        requires
            old(self).wf(),
        ensures
            final(self).wf(),
            final(self).state == old(self).state,
            final(self).health == old(self).health,
            r.events@.len() == 0,
            match moved {
                Ok(()) => {
                    let m = "Moved window to monitor '"@ + direction@ + "'"@;
                    let name = "move_window_to_monitor"@;
                    &&& is_ok_msg(r.response, m)
                    &&& r.notices@.len() == 1 && is_notice(r.notices@[0], "AetherShift"@, m, false)
                    &&& crate::named::count_of(old(self).stats.actions(), name) < u64::MAX
                        && old(self).stats.actions_total() < u64::MAX ==> final(self).stats.actions()
                        == old(self).stats.actions().insert(
                        name,
                        (crate::named::count_of(old(self).stats.actions(), name) + 1) as u64,
                    )
                },
                Err(e) => {
                    let m = "Failed moving window: "@ + e@;
                    &&& final(self).stats == old(self).stats
                    &&& is_err_msg(r.response, "MONITOR_MOVE_FAILED"@, m)
                    &&& r.notices@.len() == 1 && is_notice(r.notices@[0], "AetherShift Error"@, m, true)
                },
            },
    {
        match moved {
            Ok(()) => {
                self.count_action("move_window_to_monitor");
                let m = concat3("Moved window to monitor '", direction, "'");
                let mut notices: Vec<Notice> = Vec::new();
                notices.push(notice("AetherShift", m.as_str(), false));
                Outcome { response: Response::ok(m.as_str()), notices, events: Vec::new() }
            },
            Err(e) => {
                let m = concat("Failed moving window: ", e.as_str());
                Self::failure("MONITOR_MOVE_FAILED", m.as_str())
            },
        }
    }
}

impl AetherDaemon {
    /// The first step of binding `key_combo` to `action` in `profile`: the
    /// error, the answer when nothing must be applied, or the plan to apply.
    #[verifier::spinoff_prover]
    pub fn begin_update_binding(
        &mut self,
        profile: &str,
        key_combo: &str,
        action: &str,
        description: Option<&str>,
    ) -> (r: EditStart)
        requires
            old(self).wf(),
        ensures
            final(self).wf(),
            final(self).stats == old(self).stats,
            final(self).health == old(self).health,
            exists|res: Result<Option<crate::state::SwitchPlan>, CoreError>|
                #[trigger] crate::state::update_binding_post(
                    old(self).state,
                    final(self).state,
                    profile,
                    key_combo,
                    action,
                    description,
                    res,
                ) && match res {
                    Err(e) => r matches EditStart::Done(x) && is_err_msg(x, "UPDATE_BINDING_FAILED"@, error_text(e)),
                    Ok(None) => r matches EditStart::Done(x) && is_ok_msg(x, updated_text(profile@, key_combo@, action@)),
                    Ok(Some(plan)) => r matches EditStart::Apply(p) && p == plan,
                },
    {
        match self.state.update_binding(profile, key_combo, action, description) {
            Err(e) => {
                let m = e.message();
                EditStart::Done(Response::err("UPDATE_BINDING_FAILED", m.as_str()))
            },
            Ok(None) => EditStart::Done(Self::updated_response(profile, key_combo, action)),
            Ok(Some(plan)) => EditStart::Apply(plan),
        }
    }

    fn updated_response(profile: &str, key_combo: &str, action: &str) -> (r: Response)
        ensures
            is_ok_msg(r, updated_text(profile@, key_combo@, action@)),
    {
        let mut m = concat3("Binding '", key_combo, "' -> '");
        push_str(&mut m, action);
        push_str(&mut m, "' updated in profile '");
        push_str(&mut m, profile);
        push_str(&mut m, "'");
        Response::ok(m.as_str())
    }

    /// The second step of a binding update: the incremental plan's outcome.
    pub fn finish_update_binding(
        &mut self,
        profile: &str,
        key_combo: &str,
        action: &str,
        plan: &crate::state::SwitchPlan,
        applied: Result<(), String>,
    ) -> (r: Response)
        requires
            old(self).wf(),
        ensures
            final(self).wf(),
            applied is Ok ==> committed(old(self).state, final(self).state, *plan),
            applied is Err ==> final(self).state == old(self).state,
            match commit_outcome(old(self).state, *plan, applied) {
                Ok(()) => is_ok_msg(r, updated_text(profile@, key_combo@, action@)),
                Err(e) => is_err_msg(r, "HYPRLAND_ERROR"@, "Updated in memory but failed to apply: "@ + e),
            },
    {
        match self.commit_plan(plan, applied) {
            Ok(()) => Self::updated_response(profile, key_combo, action),
            Err(e) => {
                let m = concat("Updated in memory but failed to apply: ", e.as_str());
                Response::err("HYPRLAND_ERROR", m.as_str())
            },
        }
    }

    /// The first step of removing `key_combo` from `profile`.
    #[verifier::spinoff_prover]
    pub fn begin_remove_binding(&mut self, profile: &str, key_combo: &str) -> (r: EditStart)
        requires
            old(self).wf(),
        ensures
            final(self).wf(),
            final(self).stats == old(self).stats,
            final(self).health == old(self).health,
            exists|res: Result<Option<crate::state::SwitchPlan>, CoreError>|
                #[trigger] crate::state::remove_binding_post(
                    old(self).state,
                    final(self).state,
                    profile,
                    key_combo,
                    res,
                ) && match res {
                    Err(e) => r matches EditStart::Done(x) && is_err_msg(x, "REMOVE_BINDING_FAILED"@, error_text(e)),
                    Ok(None) => r matches EditStart::Done(x) && is_ok_msg(x, removed_text(profile@, key_combo@)),
                    Ok(Some(plan)) => r matches EditStart::Apply(p) && p == plan,
                },
    {
        match self.state.remove_binding(profile, key_combo) {
            Err(e) => {
                let m = e.message();
                EditStart::Done(Response::err("REMOVE_BINDING_FAILED", m.as_str()))
            },
            Ok(None) => EditStart::Done(Self::removed_response(profile, key_combo)),
            Ok(Some(plan)) => EditStart::Apply(plan),
        }
    }

    fn removed_response(profile: &str, key_combo: &str) -> (r: Response)
        ensures
            is_ok_msg(r, removed_text(profile@, key_combo@)),
    {
        let mut m = concat3("Binding '", key_combo, "' removed from profile '");
        push_str(&mut m, profile);
        push_str(&mut m, "'");
        Response::ok(m.as_str())
    }

    /// The second step of a binding removal.
    pub fn finish_remove_binding(
        &mut self,
        profile: &str,
        key_combo: &str,
        plan: &crate::state::SwitchPlan,
        applied: Result<(), String>,
    ) -> (r: Response)
        requires
            old(self).wf(),
        ensures
            final(self).wf(),
            applied is Ok ==> committed(old(self).state, final(self).state, *plan),
            applied is Err ==> final(self).state == old(self).state,
            match commit_outcome(old(self).state, *plan, applied) {
                Ok(()) => is_ok_msg(r, removed_text(profile@, key_combo@)),
                Err(e) => is_err_msg(r, "HYPRLAND_ERROR"@, "Removed in memory but failed to unbind: "@ + e),
            },
    {
        match self.commit_plan(plan, applied) {
            Ok(()) => Self::removed_response(profile, key_combo),
            Err(e) => {
                let m = concat("Removed in memory but failed to unbind: ", e.as_str());
                Response::err("HYPRLAND_ERROR", m.as_str())
            },
        }
    }

    /// The first step of deleting `profile`: the plan back to the baseline
    /// when it is the active one.
    pub fn begin_delete(&self, profile: &str) -> (r: Option<crate::state::SwitchPlan>)
        requires
            self.wf(),
        ensures
            r is Some <==> self.state.active_name() == profile@,
            r matches Some(plan) ==> plan.target_profile@ == "native"@,
    {
        if str_eq(self.state.active_profile_name(), profile) {
            Some(self.state.restore_plan())
        } else {
            None
        }
    }

    /// The last step of deleting `profile` (`was_active` when it was active
    /// and the baseline plan came first).
    #[verifier::spinoff_prover]
    pub fn finish_delete(&mut self, profile: &str, was_active: bool) -> (r: Response)
        requires
            old(self).wf(),
        ensures
            final(self).wf(),
            exists|res: Result<(), CoreError>|
                #[trigger] crate::state::delete_profile_post(old(self).state, final(self).state, profile, res)
                    && match res {
                    Ok(()) => is_ok_msg(
                        r,
                        if was_active {
                            "Active profile '"@ + profile@ + "' restored to native and deleted successfully"@
                        } else {
                            "Profile '"@ + profile@ + "' deleted successfully"@
                        },
                    ),
                    Err(e) => is_err_msg(r, "DELETE_PROFILE_FAILED"@, error_text(e)),
                },
    {
        match self.state.delete_profile(profile) {
            Ok(()) => {
                let m = if was_active {
                    concat3("Active profile '", profile, "' restored to native and deleted successfully")
                } else {
                    concat3("Profile '", profile, "' deleted successfully")
                };
                Response::ok(m.as_str())
            },
            Err(e) => {
                let m = e.message();
                Response::err("DELETE_PROFILE_FAILED", m.as_str())
            },
        }
    }

    /// The profile to save, or the answer when there is none named
    /// `profile`.
    pub fn profile_to_save(&self, profile: &str) -> (r: Result<&Profile, Response>)
        requires
            self.wf(),
        ensures
            match profile_named(self.state.profile_list(), profile@) {
                Some(p) => r matches Ok(q) && *q == p,
                None => r matches Err(x) && is_err_msg(x, "SAVE_PROFILE_FAILED"@, "Profile '"@ + profile@ + "' not found"@),
            },
    {
        match self.state.get_profile(profile) {
            Some(p) => Ok(p),
            None => {
                let m = concat3("Profile '", profile, "' not found");
                Err(Response::err("SAVE_PROFILE_FAILED", m.as_str()))
            },
        }
    }

    /// The answer after saving `profile`, given the file it was written to
    /// or why it could not be.
    pub fn saved_response(profile: &str, written: Result<String, String>) -> (r: Response)
        ensures
            match written {
                Ok(path) => is_ok_msg(r, "Profile '"@ + profile@ + "' saved to "@ + path@),
                Err(e) => is_err_msg(r, "SAVE_PROFILE_FAILED"@, e@),
            },
    {
        match written {
            Ok(path) => {
                let mut m = concat3("Profile '", profile, "' saved to ");
                push_str(&mut m, path.as_str());
                Response::ok(m.as_str())
            },
            Err(e) => Response::err("SAVE_PROFILE_FAILED", e.as_str()),
        }
    }

    /// The answer after exporting the statistics.
    pub fn exported_stats_response(written: Result<(), String>) -> (r: Response)
        ensures
            match written {
                Ok(()) => is_ok_msg(r, "Statistics successfully exported"@),
                Err(e) => is_err_msg(r, "EXPORT_FAILED"@, e@),
            },
    {
        match written {
            Ok(()) => Response::ok("Statistics successfully exported"),
            Err(e) => Response::err("EXPORT_FAILED", e.as_str()),
        }
    }

    /// The answer to a request this daemon does not act on.
    pub fn unhandled_response() -> (r: Response)
        ensures
            is_ok_msg(r, "Request processed (no-op)"@),
    {
        Response::ok("Request processed (no-op)")
    }
}

/// `Binding 'KEY' -> 'ACTION' updated in profile 'PROFILE'`.
pub open spec fn updated_text(profile: Seq<char>, key: Seq<char>, action: Seq<char>) -> Seq<char> {
    "Binding '"@ + key + "' -> '"@ + action + "' updated in profile '"@ + profile + "'"@
}

/// `Binding 'KEY' removed from profile 'PROFILE'`.
pub open spec fn removed_text(profile: Seq<char>, key: Seq<char>) -> Seq<char> {
    "Binding '"@ + key + "' removed from profile '"@ + profile + "'"@
}

impl AetherDaemon {
    /// Takes the compositor's bindings read at start (or why they could not
    /// be read): they become the protected baseline, and the backend is
    /// recorded as connected with that many bindings; on failure it is
    /// recorded as not connected.
    pub fn install_baseline(&mut self, fetched: Result<Vec<crate::hypr::HyprBind>, String>)
        requires
            old(self).wf(),
        ensures
            final(self).wf(),
            final(self).state.profile_list() == old(self).state.profile_list(),
            final(self).state.active_name() == old(self).state.active_name(),
            final(self).state.overlays() == old(self).state.overlays(),
            match fetched {
                Ok(raw) => {
                    &&& final(self).health.backend_connected
                    &&& final(self).health.baseline_count == raw@.len()
                    &&& exists|bs: Vec<crate::state::BaselineBinding>|
                        #[trigger] final(self).state.baselines() == crate::keyed::keyed_map(bs@)
                            && bs@.len() <= raw@.len()
                            && (forall|i: int| 0 <= i < bs@.len() ==> crate::backend::has_source(#[trigger] bs@[i], raw@))
                },
                Err(_) => {
                    &&& !final(self).health.backend_connected
                    &&& final(self).state == old(self).state
                },
            },
    {
        match fetched {
            Ok(raw) => {
                let count = raw.len();
                let bs = crate::backend::baseline_from_binds(&raw);
                let ghost bv = bs;
                self.state.set_baseline(bs);
                self.health.backend_connected = true;
                self.health.baseline_count = count;
                assert(self.state.baselines() == crate::keyed::keyed_map(bv@));
            },
            Err(_) => {
                self.health.backend_connected = false;
            },
        }
    }

    /// Reloads the plugins from the manifest entries of the plugin
    /// directory (or why it could not be read, in which case no plugin
    /// stays loaded), and records how many loaded and failed.
    pub fn reload_plugins(&mut self, entries: Result<Vec<crate::plugin::PluginEntry>, String>) -> (r: Response)
        requires
            old(self).wf(),
        ensures
            final(self).wf(),
            final(self).state == old(self).state,
            match entries {
                Ok(es) => {
                    let n = crate::plugin::load_count(es@);
                    &&& is_ok_msg(r, "Reloaded "@ + decimal(n) + " action plugins"@)
                    &&& final(self).health.plugins_loaded == n
                    &&& final(self).health.plugins_failed == final(self).plugins.failures_map().dom().len()
                    &&& forall|k: Seq<char>| #[trigger] final(self).plugins.loaded().contains_key(k)
                        == crate::plugin::loads_after(es@).contains_key(k)
                    &&& forall|k: Seq<char>| #[trigger] final(self).plugins.failures_map().contains_key(k)
                        == crate::plugin::failures_after(es@).contains_key(k)
                },
                Err(e) => {
                    &&& is_err_msg(r, "PLUGIN_RELOAD_FAILED"@, e@)
                    &&& final(self).plugins.loaded() == Map::<Seq<char>, crate::plugin::LoadedPlugin>::empty()
                    &&& final(self).health == old(self).health
                },
            },
    {
        match entries {
            Ok(es) => {
                let count = self.plugins.load_entries(es);
                let failed = self.plugins.failed_count();
                self.health.plugins_loaded = count;
                self.health.plugins_failed = failed;
                let m = with_number("Reloaded ", count as u128, " action plugins");
                Response::ok(m.as_str())
            },
            Err(e) => {
                self.plugins.clear();
                Response::err("PLUGIN_RELOAD_FAILED", e.as_str())
            },
        }
    }

    /// The answer confirming an event subscription.
    pub fn subscribed_response() -> (r: Response)
        ensures
            is_ok_msg(r, "Event subscription established"@),
    {
        Response::ok("Event subscription established")
    }
}

/// A restore removes every overlay: once the compositor has applied the
/// plan back to the baseline and the daemon has committed it, no overlay
/// stays in place and the active profile is `native` (whose preset binds
/// nothing).
pub proof fn law_restore_clears_overlays(
    s0: crate::state::StateManager,
    s1: crate::state::StateManager,
    plan: crate::state::SwitchPlan,
)
    requires
        plan.target_profile@ == "native"@,
        profile_named(s0.profile_list(), "native"@) matches Some(p) && p.bindings@.len() == 0,
        committed(s0, s1, plan),
    ensures
        s1.overlays() == Map::<crate::binding::ComboView, crate::binding::BindingView>::empty(),
        s1.active_name() == "native"@,
{
    let p = profile_named(s0.profile_list(), "native"@)->0;
    assert(crate::state::committed_overlays(p.bindings@, s0.baselines()) == Map::<
        crate::binding::ComboView,
        crate::binding::BindingView,
    >::empty());
}

} // verus!
