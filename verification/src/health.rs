//! Runtime health counters, metrics snapshots and the doctor report.
use vstd::prelude::*;

use crate::protocol::{DiagnosticCheck, DiagnosticStatus, DoctorReport, MetricsReport};
use crate::text::{concat3, decimal, owned, push_decimal, push_str};

verus! {

/// Counters of the daemon's activity.
#[derive(Debug, Clone)]
pub struct HealthState {
    pub active_profile: String,
    pub backend: String,
    pub backend_connected: bool,
    pub baseline_count: usize,
    pub active_connections: usize,
    pub total_switches: u64,
    pub failed_switches: u64,
    pub switch_duration_sum_us: u128,
    pub max_switch_duration_us: u128,
    pub last_switch_duration_us: u128,
    pub last_switch_succeeded: bool,
    pub skipped_conflicts: usize,
    pub forced_overrides: usize,
    pub plugins_loaded: usize,
    pub plugins_failed: usize,
    pub last_error: Option<String>,
}

impl Default for HealthState {
    /// All counters zero, all names empty, nothing connected, no error.
    fn default() -> (r: Self)
        ensures
            r.active_profile@ == Seq::<char>::empty(),
            r.backend@ == Seq::<char>::empty(),
            !r.backend_connected,
            r.baseline_count == 0,
            r.active_connections == 0,
            r.total_switches == 0,
            r.failed_switches == 0,
            r.switch_duration_sum_us == 0,
            r.max_switch_duration_us == 0,
            r.last_switch_duration_us == 0,
            !r.last_switch_succeeded,
            r.skipped_conflicts == 0,
            r.forced_overrides == 0,
            r.plugins_loaded == 0,
            r.plugins_failed == 0,
            r.last_error is None,
    {
        HealthState {
            active_profile: String::new(),
            backend: String::new(),
            backend_connected: false,
            baseline_count: 0,
            active_connections: 0,
            total_switches: 0,
            failed_switches: 0,
            switch_duration_sum_us: 0,
            max_switch_duration_us: 0,
            last_switch_duration_us: 0,
            last_switch_succeeded: false,
            skipped_conflicts: 0,
            forced_overrides: 0,
            plugins_loaded: 0,
            plugins_failed: 0,
            last_error: None,
        }
    }
}

impl HealthState {
    /// Records a successful switch to `profile` that took `duration_us`.
    pub fn record_switch(&mut self, profile: &str, duration_us: u128, skipped: usize, forced: usize)
        ensures
            final(self).active_profile@ == profile@,
            final(self).total_switches == old(self).total_switches.saturating_add(1),
            final(self).switch_duration_sum_us == old(self).switch_duration_sum_us.saturating_add(
                duration_us,
            ),
            final(self).max_switch_duration_us == if old(self).max_switch_duration_us >= duration_us {
                old(self).max_switch_duration_us
            } else {
                duration_us
            },
            final(self).last_switch_duration_us == duration_us,
            final(self).last_switch_succeeded,
            final(self).skipped_conflicts == old(self).skipped_conflicts.saturating_add(skipped),
            final(self).forced_overrides == old(self).forced_overrides.saturating_add(forced),
            final(self).failed_switches == old(self).failed_switches,
            final(self).active_connections == old(self).active_connections,
            final(self).last_error == old(self).last_error,
            final(self).backend == old(self).backend,
            final(self).backend_connected == old(self).backend_connected,
            final(self).baseline_count == old(self).baseline_count,
            final(self).plugins_loaded == old(self).plugins_loaded,
            final(self).plugins_failed == old(self).plugins_failed,
    {
        self.active_profile = owned(profile);
        self.total_switches = self.total_switches.saturating_add(1);
        self.switch_duration_sum_us = self.switch_duration_sum_us.saturating_add(duration_us);
        if duration_us > self.max_switch_duration_us {
            self.max_switch_duration_us = duration_us;
        }
        self.last_switch_duration_us = duration_us;
        self.last_switch_succeeded = true;
        self.skipped_conflicts = self.skipped_conflicts.saturating_add(skipped);
        self.forced_overrides = self.forced_overrides.saturating_add(forced);
    }

    /// Records a restore (a switch to `native` without conflicts).
    pub fn record_restore(&mut self, duration_us: u128)
        ensures
            final(self).active_profile@ == "native"@,
            final(self).total_switches == old(self).total_switches.saturating_add(1),
            final(self).switch_duration_sum_us == old(self).switch_duration_sum_us.saturating_add(
                duration_us,
            ),
            final(self).last_switch_duration_us == duration_us,
            final(self).last_switch_succeeded,
            final(self).skipped_conflicts == old(self).skipped_conflicts,
            final(self).forced_overrides == old(self).forced_overrides,
            *final(self) == (HealthState {
                active_profile: final(self).active_profile,
                total_switches: old(self).total_switches.saturating_add(1),
                switch_duration_sum_us: old(self).switch_duration_sum_us.saturating_add(duration_us),
                max_switch_duration_us: if old(self).max_switch_duration_us >= duration_us {
                    old(self).max_switch_duration_us
                } else {
                    duration_us
                },
                last_switch_duration_us: duration_us,
                last_switch_succeeded: true,
                ..*old(self)
            }),
    {
        self.record_switch("native", duration_us, 0, 0);
    }

    /// Records a failed switch with its message.
    pub fn record_failure(&mut self, message: &str)
        ensures
            final(self).failed_switches == old(self).failed_switches.saturating_add(1),
            final(self).last_error matches Some(e) && e@ == message@,
            !final(self).last_switch_succeeded,
            final(self).total_switches == old(self).total_switches,
            final(self).switch_duration_sum_us == old(self).switch_duration_sum_us,
            final(self).active_connections == old(self).active_connections,
            *final(self) == (HealthState {
                failed_switches: old(self).failed_switches.saturating_add(1),
                last_error: final(self).last_error,
                last_switch_succeeded: false,
                ..*old(self)
            }),
    {
        self.failed_switches = self.failed_switches.saturating_add(1);
        self.last_error = Some(owned(message));
        self.last_switch_succeeded = false;
    }

    pub fn record_connection_open(&mut self)
        ensures
            final(self).active_connections == old(self).active_connections.saturating_add(1),
            final(self).total_switches == old(self).total_switches,
            final(self).failed_switches == old(self).failed_switches,
            *final(self) == (HealthState {
                active_connections: old(self).active_connections.saturating_add(1),
                ..*old(self)
            }),
    {
        self.active_connections = self.active_connections.saturating_add(1);
    }

    pub fn record_connection_close(&mut self)
        ensures
            final(self).active_connections == old(self).active_connections.saturating_sub(1),
            final(self).total_switches == old(self).total_switches,
            final(self).failed_switches == old(self).failed_switches,
            *final(self) == (HealthState {
                active_connections: old(self).active_connections.saturating_sub(1),
                ..*old(self)
            }),
    {
        self.active_connections = self.active_connections.saturating_sub(1);
    }

    /// Mean switch duration (0 before any switch).
    pub fn average_switch_duration_us(&self) -> (r: u128)
        ensures
            r == if self.total_switches == 0 {
                0
            } else {
                self.switch_duration_sum_us / (self.total_switches as u128)
            },
    {
        if self.total_switches == 0 {
            0
        } else {
            self.switch_duration_sum_us / (self.total_switches as u128)
        }
    }

    /// A metrics snapshot after `uptime_secs` of running.
    pub fn metrics(&self, uptime_secs: u64) -> (r: MetricsReport)
        ensures
            r.uptime_secs == uptime_secs,
            r.total_switches == self.total_switches,
            r.failed_switches == self.failed_switches,
            r.average_switch_duration_us == if self.total_switches == 0 {
                0
            } else {
                self.switch_duration_sum_us / (self.total_switches as u128)
            },
            r.max_switch_duration_us == self.max_switch_duration_us,
            r.skipped_conflicts == self.skipped_conflicts,
            r.forced_overrides == self.forced_overrides,
            r.active_connections == self.active_connections,
            r.plugins_loaded == self.plugins_loaded,
            r.plugins_failed == self.plugins_failed,
    {
        MetricsReport {
            uptime_secs,
            total_switches: self.total_switches,
            failed_switches: self.failed_switches,
            average_switch_duration_us: self.average_switch_duration_us(),
            max_switch_duration_us: self.max_switch_duration_us,
            skipped_conflicts: self.skipped_conflicts,
            forced_overrides: self.forced_overrides,
            active_connections: self.active_connections,
            plugins_loaded: self.plugins_loaded,
            plugins_failed: self.plugins_failed,
        }
    }
}

/// What the doctor examines.
pub struct DoctorInput<'a> {
    pub uptime_secs: u64,
    pub backend: &'a str,
    pub backend_connected: bool,
    pub backend_message: &'a str,
    pub baseline_count: usize,
    pub active_profile: &'a str,
    pub plugins_loaded: usize,
    pub plugins_failed: usize,
    pub last_error: Option<&'a str>,
}

/// The abstract value of a diagnostic check.
pub struct CheckView {
    pub id: Seq<char>,
    pub label: Seq<char>,
    pub status: DiagnosticStatus,
    pub message: Seq<char>,
    pub remediation: Option<Seq<char>>,
}

pub open spec fn check_view(c: DiagnosticCheck) -> CheckView {
    CheckView {
        id: c.id@,
        label: c.label@,
        status: c.status,
        message: c.message@,
        remediation: crate::binding::opt_view(c.remediation),
    }
}

pub open spec fn mk_check(
    id: Seq<char>,
    label: Seq<char>,
    status: DiagnosticStatus,
    message: Seq<char>,
    remediation: Option<Seq<char>>,
) -> CheckView {
    CheckView { id, label, status, message, remediation }
}

/// The checks of a doctor report, in order: environment, baseline, active
/// profile, plugins, last error.
pub open spec fn doctor_checks(input: DoctorInput) -> Seq<CheckView> {
    seq![
        if input.backend_connected {
            mk_check(
                "environment"@,
                "Desktop environment"@,
                DiagnosticStatus::Pass,
                "Compositor backend '"@ + input.backend@ + "' is connected"@,
                None,
            )
        } else {
            mk_check(
                "environment"@,
                "Desktop environment"@,
                DiagnosticStatus::Error,
                "Compositor backend is not connected; daemon can serve state but cannot apply bindings"@,
                Some(
                    "Start inside a Hyprland/Omarchy session or set HYPRLAND_INSTANCE_SIGNATURE/XDG_RUNTIME_DIR"@,
                ),
            )
        },
        mk_check(
            "baseline"@,
            "Baseline bindings"@,
            if input.baseline_count > 0 {
                DiagnosticStatus::Pass
            } else {
                DiagnosticStatus::Warning
            },
            decimal(input.baseline_count as nat) + " baseline bindings captured"@,
            if input.baseline_count > 0 {
                None
            } else {
                Some("Ensure Hyprland IPC is reachable before switching profiles"@)
            },
        ),
        mk_check(
            "profile"@,
            "Active profile"@,
            DiagnosticStatus::Pass,
            "Active profile is '"@ + input.active_profile@ + "'"@,
            None,
        ),
        mk_check(
            "plugins"@,
            "Script action plugins"@,
            if input.plugins_failed == 0 {
                DiagnosticStatus::Pass
            } else {
                DiagnosticStatus::Warning
            },
            decimal(input.plugins_loaded as nat) + " plugins loaded, "@ + decimal(
                input.plugins_failed as nat,
            ) + " invalid or duplicate plugins quarantined"@,
            if input.plugins_failed == 0 {
                None
            } else {
                Some("Run `aethershift plugin validate` and remove or fix invalid manifests"@)
            },
        ),
        match input.last_error {
            Some(e) => mk_check(
                "last-error"@,
                "Last runtime error"@,
                DiagnosticStatus::Warning,
                e@,
                Some("Review daemon logs and run a switch/restore after fixing the cause"@),
            ),
            None => mk_check(
                "last-error"@,
                "Last runtime error"@,
                DiagnosticStatus::Pass,
                "No runtime errors recorded"@,
                None,
            ),
        }
    ]
}

fn check(
    id: &str,
    label: &str,
    status: DiagnosticStatus,
    message: String,
    remediation: Option<&str>,
) -> (r: DiagnosticCheck)
    ensures
        check_view(r) == mk_check(
            id@,
            label@,
            status,
            message@,
            match remediation {
                Some(x) => Some(x@),
                None => None,
            },
        ),
{
    DiagnosticCheck {
        id: owned(id),
        label: owned(label),
        status,
        message,
        remediation: match remediation {
            Some(x) => Some(owned(x)),
            None => None,
        },
    }
}

/// The doctor report for `input`, stamped with `generated_unix_ms`: the
/// five checks, healthy when none of them is an error.
pub fn doctor_report(input: &DoctorInput, generated_unix_ms: u128) -> (r: DoctorReport)
    ensures
        r.checks@.map_values(|c: DiagnosticCheck| check_view(c)) == doctor_checks(*input),
        r.healthy == (forall|i: int|
            0 <= i < r.checks@.len() ==> (#[trigger] r.checks@[i]).status != DiagnosticStatus::Error),
        r.healthy == input.backend_connected,
        r.backend@ == input.backend@,
        r.generated_unix_ms == Some(generated_unix_ms),
{
    let mut checks: Vec<DiagnosticCheck> = Vec::new();
    if input.backend_connected {
        checks.push(
            check(
                "environment",
                "Desktop environment",
                DiagnosticStatus::Pass,
                concat3("Compositor backend '", input.backend, "' is connected"),
                None,
            ),
        );
    } else {
        checks.push(
            check(
                "environment",
                "Desktop environment",
                DiagnosticStatus::Error,
                owned(
                    "Compositor backend is not connected; daemon can serve state but cannot apply bindings",
                ),
                Some(
                    "Start inside a Hyprland/Omarchy session or set HYPRLAND_INSTANCE_SIGNATURE/XDG_RUNTIME_DIR",
                ),
            ),
        );
    }
    let mut baseline_msg = String::new();
    push_decimal(&mut baseline_msg, input.baseline_count as u128);
    push_str(&mut baseline_msg, " baseline bindings captured");
    assert(baseline_msg@ =~= decimal(input.baseline_count as nat) + " baseline bindings captured"@);
    checks.push(
        check(
            "baseline",
            "Baseline bindings",
            if input.baseline_count > 0 {
                DiagnosticStatus::Pass
            } else {
                DiagnosticStatus::Warning
            },
            baseline_msg,
            if input.baseline_count > 0 {
                None
            } else {
                Some("Ensure Hyprland IPC is reachable before switching profiles")
            },
        ),
    );
    checks.push(
        check(
            "profile",
            "Active profile",
            DiagnosticStatus::Pass,
            concat3("Active profile is '", input.active_profile, "'"),
            None,
        ),
    );
    let mut plugin_msg = String::new();
    push_decimal(&mut plugin_msg, input.plugins_loaded as u128);
    push_str(&mut plugin_msg, " plugins loaded, ");
    push_decimal(&mut plugin_msg, input.plugins_failed as u128);
    push_str(&mut plugin_msg, " invalid or duplicate plugins quarantined");
    assert(plugin_msg@ =~= decimal(input.plugins_loaded as nat) + " plugins loaded, "@ + decimal(
        input.plugins_failed as nat,
    ) + " invalid or duplicate plugins quarantined"@);
    checks.push(
        check(
            "plugins",
            "Script action plugins",
            if input.plugins_failed == 0 {
                DiagnosticStatus::Pass
            } else {
                DiagnosticStatus::Warning
            },
            plugin_msg,
            if input.plugins_failed == 0 {
                None
            } else {
                Some("Run `aethershift plugin validate` and remove or fix invalid manifests")
            },
        ),
    );
    match input.last_error {
        Some(error) => {
            checks.push(
                check(
                    "last-error",
                    "Last runtime error",
                    DiagnosticStatus::Warning,
                    owned(error),
                    Some("Review daemon logs and run a switch/restore after fixing the cause"),
                ),
            );
        },
        None => {
            checks.push(
                check(
                    "last-error",
                    "Last runtime error",
                    DiagnosticStatus::Pass,
                    owned("No runtime errors recorded"),
                    None,
                ),
            );
        },
    }
    assert(checks@.map_values(|c: DiagnosticCheck| check_view(c)) =~= doctor_checks(*input));
    let mut healthy = true;
    let mut i: usize = 0;
    while i < checks.len()
        invariant
            i <= checks@.len(),
            healthy == (forall|j: int| 0 <= j < i ==> (#[trigger] checks@[j]).status != DiagnosticStatus::Error),
        decreases checks@.len() - i,
    {
        if checks[i].status == DiagnosticStatus::Error {
            healthy = false;
        }
        i = i + 1;
    }
    proof {
        assert(checks@[0].status == doctor_checks(*input)[0].status);
        assert(checks@[1].status == doctor_checks(*input)[1].status);
        assert(checks@[2].status == doctor_checks(*input)[2].status);
        assert(checks@[3].status == doctor_checks(*input)[3].status);
        assert(checks@[4].status == doctor_checks(*input)[4].status);
    }
    DoctorReport { healthy, backend: owned(input.backend), checks, generated_unix_ms: Some(generated_unix_ms) }
}

} // verus!
